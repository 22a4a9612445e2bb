//! Sizes, rectangles and rectangle edges, in whole points.

use vstd::prelude::*;

verus! {

/// A width and a height, in points.
#[derive(Clone, Copy, Debug, PartialEq, Eq, Structural)]
pub struct Size {
    pub width: u32,
    pub height: u32,
}

/// A rectangle in the local coordinates of a view: its top-left corner and
/// its extent.
#[derive(Clone, Copy, Debug, PartialEq, Eq, Structural)]
pub struct Rect {
    pub top: i32,
    pub left: i32,
    pub width: u32,
    pub height: u32,
}

/// A rectangle as the windowing toolkit takes it: an origin and a size.
#[derive(Clone, Copy, Debug, PartialEq, Eq, Structural)]
pub struct NativeRect {
    pub x: i32,
    pub y: i32,
    pub size: Size,
}

impl Rect {
    /// The toolkit's form of this rectangle: the origin is the top-left
    /// corner, the size is the extent.
    pub open spec fn spec_to_native(self) -> NativeRect {
        NativeRect { x: self.left, y: self.top, size: Size { width: self.width, height: self.height } }
    }

    pub fn to_native(&self) -> (r: NativeRect)
        ensures
            r == self.spec_to_native(),
    {
        NativeRect { x: self.left, y: self.top, size: Size { width: self.width, height: self.height } }
    }
}

/// Nothing is lost in the conversion: two rectangles with the same native
/// form are the same rectangle.
pub proof fn lemma_to_native_injective(a: Rect, b: Rect)
    ensures
        a.spec_to_native() == b.spec_to_native() <==> a == b,
{
}

/// The side of a rectangle from which a popover emerges.
#[derive(Clone, Copy, Debug, PartialEq, Eq, Structural)]
pub enum Edge {
    MinX,
    MinY,
    MaxX,
    MaxY,
}

impl Edge {
    /// The toolkit's code for the edge.
    pub open spec fn spec_code(self) -> u32 {
        match self {
            Edge::MinX => 0,
            Edge::MinY => 1,
            Edge::MaxX => 2,
            Edge::MaxY => 3,
        }
    }

    pub fn code(&self) -> (r: u32)
        ensures
            r == self.spec_code(),
    {
        match self {
            Edge::MinX => 0,
            Edge::MinY => 1,
            Edge::MaxX => 2,
            Edge::MaxY => 3,
        }
    }
}

/// Each edge has its own code, and no code lies outside 0 to 3.
pub proof fn lemma_edge_codes_distinct(a: Edge, b: Edge)
    ensures
        a.spec_code() <= 3,
        a.spec_code() == b.spec_code() <==> a == b,
{
}

} // verus!
