//! What a popover is configured with, and the requests that its native
//! object receives: the ones that set it up, and the one that shows it.

use vstd::prelude::*;

use crate::geometry::{Edge, NativeRect, Rect, Size};

verus! {

/// Who closes a popover once it is shown.
#[derive(Clone, Copy, Debug, PartialEq, Eq, Structural)]
pub enum PopoverBehaviour {
    /// The application closes the popover itself.
    ApplicationDefined,
    /// The system closes the popover when the user interacts with anything
    /// outside it.
    Transient,
    /// The system closes the popover when the user interacts with the window
    /// that holds the view it is anchored to.
    Semitransient,
}

impl PopoverBehaviour {
    /// The toolkit's code for the behaviour.
    pub open spec fn spec_code(self) -> i64 {
        match self {
            PopoverBehaviour::ApplicationDefined => 0,
            PopoverBehaviour::Transient => 1,
            PopoverBehaviour::Semitransient => 2,
        }
    }

    pub fn code(&self) -> (r: i64)
        ensures
            r == self.spec_code(),
    {
        match self {
            PopoverBehaviour::ApplicationDefined => 0,
            PopoverBehaviour::Transient => 1,
            PopoverBehaviour::Semitransient => 2,
        }
    }
}

/// The behaviours and their codes are in one-to-one correspondence with
/// 0, 1 and 2: application-defined is 0, transient 1, semitransient 2, each
/// behaviour has its own code, and no other code is produced.
pub proof fn lemma_behaviour_codes_bijective(a: PopoverBehaviour, b: PopoverBehaviour)
    ensures
        PopoverBehaviour::ApplicationDefined.spec_code() == 0,
        PopoverBehaviour::Transient.spec_code() == 1,
        PopoverBehaviour::Semitransient.spec_code() == 2,
        0 <= a.spec_code() <= 2,
        a.spec_code() == b.spec_code() <==> a == b,
{
}

/// How a popover looks and behaves.
#[derive(Clone, Copy, Debug, PartialEq, Eq, Structural)]
pub struct PopoverConfig {
    /// The size of the content, in points.
    pub content_size: Size,
    /// Whether showing and closing are animated.
    pub animates: bool,
    /// Who closes the popover.
    pub behaviour: PopoverBehaviour,
}

impl Default for PopoverConfig {
    /// 320 by 320 points, animated, transient.
    fn default() -> (r: PopoverConfig)
        ensures
            r.content_size == (Size { width: 320, height: 320 }),
            r.animates,
            r.behaviour == PopoverBehaviour::Transient,
    {
        PopoverConfig {
            content_size: Size { width: 320, height: 320 },
            animates: true,
            behaviour: PopoverBehaviour::Transient,
        }
    }
}

/// A request that sets up a newly made native popover object.
#[derive(Clone, Copy, Debug, PartialEq, Eq, Structural)]
pub enum SetupRequest {
    /// Set the size of the content.
    SetContentSize(Size),
    /// Set the behaviour, by its code.
    SetBehavior(i64),
    /// Set whether showing and closing are animated.
    SetAnimates(bool),
    /// Attach the content's view controller.
    SetContentViewController,
}

impl PopoverConfig {
    /// The requests that set up a popover with this configuration, in the
    /// order in which they are made.
    pub open spec fn spec_setup_requests(self) -> Seq<SetupRequest> {
        seq![
            SetupRequest::SetContentSize(self.content_size),
            SetupRequest::SetBehavior(self.behaviour.spec_code()),
            SetupRequest::SetAnimates(self.animates),
            SetupRequest::SetContentViewController,
        ]
    }

    pub fn setup_requests(&self) -> (r: Vec<SetupRequest>)
        ensures
            r@ == self.spec_setup_requests(),
    {
        let mut r: Vec<SetupRequest> = Vec::new();
        r.push(SetupRequest::SetContentSize(self.content_size));
        r.push(SetupRequest::SetBehavior(self.behaviour.code()));
        r.push(SetupRequest::SetAnimates(self.animates));
        r.push(SetupRequest::SetContentViewController);
        assert(r@ =~= self.spec_setup_requests());
        r
    }
}

/// The properties of a native popover object that setup requests set;
/// `None` for one that no request has set.
pub struct NativePopover {
    pub content_size: Option<Size>,
    pub behavior: Option<i64>,
    pub animates: Option<bool>,
    pub has_content_view_controller: bool,
}

impl NativePopover {
    /// The object after it has carried out one request.
    pub open spec fn apply(self, req: SetupRequest) -> NativePopover {
        match req {
            SetupRequest::SetContentSize(size) => NativePopover { content_size: Some(size), ..self },
            SetupRequest::SetBehavior(code) => NativePopover { behavior: Some(code), ..self },
            SetupRequest::SetAnimates(animates) => NativePopover { animates: Some(animates), ..self },
            SetupRequest::SetContentViewController => NativePopover {
                has_content_view_controller: true,
                ..self
            },
        }
    }

    /// The object after it has carried out the requests, first to last.
    pub open spec fn apply_all(self, reqs: Seq<SetupRequest>) -> NativePopover
        decreases reqs.len(),
    {
        if reqs.len() == 0 {
            self
        } else {
            self.apply(reqs[0]).apply_all(reqs.drop_first())
        }
    }
}

/// Setting up a popover with a configuration, whatever state its native
/// object was in, leaves the object with the configuration's content size,
/// the code of its behaviour, its animation flag, and a content view
/// controller.
pub proof fn lemma_setup_applies_config(config: PopoverConfig, popover: NativePopover)
    ensures
        popover.apply_all(config.spec_setup_requests()) == (NativePopover {
            content_size: Some(config.content_size),
            behavior: Some(config.behaviour.spec_code()),
            animates: Some(config.animates),
            has_content_view_controller: true,
        }),
{
    let reqs = config.spec_setup_requests();
    assert(reqs.drop_first().drop_first().drop_first().drop_first().len() == 0);
    reveal_with_fuel(NativePopover::apply_all, 5);
}

/// Why a popover could not be shown.
#[derive(Clone, Copy, Debug, PartialEq, Eq, Structural)]
pub enum PopoverError {
    /// The view to anchor to has no native view behind it.
    InvalidAnchor,
    /// The application has no main window to anchor to.
    NoMainWindow,
}

/// The one request that shows a popover: a rectangle in the anchor view's
/// coordinates, the anchor view's native handle, and the code of the edge
/// from which the popover emerges.
#[derive(Clone, Copy, Debug, PartialEq, Eq)]
pub struct ShowRequest<V> {
    pub rect: NativeRect,
    pub view: V,
    pub preferred_edge: u32,
}

/// The request that shows a popover next to `relative_to` in `view`, from
/// `edge`.
pub open spec fn spec_show_request<V>(relative_to: Rect, view: V, edge: Edge) -> ShowRequest<V> {
    ShowRequest { rect: relative_to.spec_to_native(), view, preferred_edge: edge.spec_code() }
}

/// The request that shows a popover next to `relative_to` in a view, from
/// `edge`. `view` is the view's native handle, `None` where the view has
/// none.
pub fn show_relative<V>(relative_to: &Rect, view: Option<V>, edge: Edge) -> (r: Result<
    ShowRequest<V>,
    PopoverError,
>)
    ensures
        match view {
            Some(v) => r == Ok::<ShowRequest<V>, PopoverError>(spec_show_request(*relative_to, v, edge)),
            None => r == Err::<ShowRequest<V>, PopoverError>(PopoverError::InvalidAnchor),
        },
{
    match view {
        Some(v) => Ok(ShowRequest { rect: relative_to.to_native(), view: v, preferred_edge: edge.code() }),
        None => Err(PopoverError::InvalidAnchor),
    }
}

/// The request that shows a popover next to `relative_to` in the content
/// view of the application's main window, from `edge`. `content_view` is
/// that view's native handle, `None` where there is no main window.
pub fn show_relative_to_main_window<V>(relative_to: &Rect, content_view: Option<V>, edge: Edge) -> (r:
    Result<ShowRequest<V>, PopoverError>)
    ensures
        match content_view {
            Some(v) => r == Ok::<ShowRequest<V>, PopoverError>(spec_show_request(*relative_to, v, edge)),
            None => r == Err::<ShowRequest<V>, PopoverError>(PopoverError::NoMainWindow),
        },
{
    match content_view {
        Some(v) => Ok(ShowRequest { rect: relative_to.to_native(), view: v, preferred_edge: edge.code() }),
        None => Err(PopoverError::NoMainWindow),
    }
}

} // verus!
