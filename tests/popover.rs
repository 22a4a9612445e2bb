use popover::geometry::{Edge, NativeRect, Rect, Size};
use popover::popover::{
    show_relative, show_relative_to_main_window, PopoverBehaviour, PopoverConfig, PopoverError,
    SetupRequest, ShowRequest,
};

#[test]
fn default_config_is_320_square_animated_transient() {
    let config = PopoverConfig::default();
    assert_eq!(config.content_size, Size { width: 320, height: 320 });
    assert!(config.animates);
    assert_eq!(config.behaviour, PopoverBehaviour::Transient);
    assert_eq!(config.behaviour.code(), 1);
}

#[test]
fn behaviour_codes() {
    assert_eq!(PopoverBehaviour::ApplicationDefined.code(), 0);
    assert_eq!(PopoverBehaviour::Transient.code(), 1);
    assert_eq!(PopoverBehaviour::Semitransient.code(), 2);
}

#[test]
fn edge_codes() {
    assert_eq!(Edge::MinX.code(), 0);
    assert_eq!(Edge::MinY.code(), 1);
    assert_eq!(Edge::MaxX.code(), 2);
    assert_eq!(Edge::MaxY.code(), 3);
}

#[test]
fn rect_to_native_keeps_every_coordinate() {
    let rect = Rect { top: -4, left: 9, width: 120, height: 33 };
    assert_eq!(
        rect.to_native(),
        NativeRect { x: 9, y: -4, size: Size { width: 120, height: 33 } }
    );
    let extreme = Rect { top: i32::MIN, left: i32::MAX, width: u32::MAX, height: 0 };
    assert_eq!(
        extreme.to_native(),
        NativeRect { x: i32::MAX, y: i32::MIN, size: Size { width: u32::MAX, height: 0 } }
    );
}

#[test]
fn setup_requests_of_default_config() {
    let config = PopoverConfig::default();
    assert_eq!(
        config.setup_requests(),
        vec![
            SetupRequest::SetContentSize(Size { width: 320, height: 320 }),
            SetupRequest::SetBehavior(1),
            SetupRequest::SetAnimates(true),
            SetupRequest::SetContentViewController,
        ]
    );
}

#[test]
fn setup_requests_follow_every_field() {
    let config = PopoverConfig {
        content_size: Size { width: 480, height: 200 },
        animates: false,
        behaviour: PopoverBehaviour::Semitransient,
    };
    assert_eq!(
        config.setup_requests(),
        vec![
            SetupRequest::SetContentSize(Size { width: 480, height: 200 }),
            SetupRequest::SetBehavior(2),
            SetupRequest::SetAnimates(false),
            SetupRequest::SetContentViewController,
        ]
    );
    let manual = PopoverConfig {
        content_size: Size { width: 0, height: 0 },
        animates: true,
        behaviour: PopoverBehaviour::ApplicationDefined,
    };
    assert_eq!(manual.setup_requests()[1], SetupRequest::SetBehavior(0));
    assert_eq!(manual.setup_requests()[0], SetupRequest::SetContentSize(Size { width: 0, height: 0 }));
}

#[test]
fn show_relative_forwards_rect_view_and_edge() {
    let rect = Rect { top: 10, left: 20, width: 30, height: 40 };
    let view: u64 = 0xdead;
    assert_eq!(
        show_relative(&rect, Some(view), Edge::MaxY),
        Ok(ShowRequest {
            rect: NativeRect { x: 20, y: 10, size: Size { width: 30, height: 40 } },
            view: 0xdead,
            preferred_edge: 3,
        })
    );
    let r = show_relative(&rect, Some(view), Edge::MinX).unwrap();
    assert_eq!(r.preferred_edge, 0);
}

#[test]
fn show_relative_without_native_view_is_invalid_anchor() {
    let rect = Rect { top: 0, left: 0, width: 1, height: 1 };
    assert_eq!(show_relative::<u64>(&rect, None, Edge::MinY), Err(PopoverError::InvalidAnchor));
}

#[test]
fn show_relative_to_main_window_uses_content_view() {
    let rect = Rect { top: 1, left: 2, width: 3, height: 4 };
    assert_eq!(
        show_relative_to_main_window(&rect, Some(7u32), Edge::MaxX),
        Ok(ShowRequest {
            rect: NativeRect { x: 2, y: 1, size: Size { width: 3, height: 4 } },
            view: 7u32,
            preferred_edge: 2,
        })
    );
}

#[test]
fn show_relative_to_main_window_without_window_fails() {
    let rect = Rect { top: 1, left: 2, width: 3, height: 4 };
    assert_eq!(
        show_relative_to_main_window::<u32>(&rect, None, Edge::MaxX),
        Err(PopoverError::NoMainWindow)
    );
}
