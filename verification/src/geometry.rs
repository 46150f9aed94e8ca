//! Value types for screen geometry: a point, a size, and a rectangle given
//! by its four edges, all in pixels of the primary display with the origin
//! at its top-left corner.

use vstd::prelude::*;

verus! {

/// A screen coordinate in pixels.
#[derive(Clone, Copy, Debug, PartialEq, Eq, Structural)]
pub struct Point {
    pub x: i32,
    pub y: i32,
}

/// Dimensions in pixels.
#[derive(Clone, Copy, Debug, PartialEq, Eq, Structural)]
pub struct Size {
    pub width: i32,
    pub height: i32,
}

/// The bounding box of a window in screen coordinates, stored as edge
/// coordinates rather than as an origin with extents, mirroring how the
/// platform reports window geometry.
#[derive(Clone, Copy, Debug, PartialEq, Eq, Structural)]
pub struct Position {
    pub top: i32,
    pub left: i32,
    pub bottom: i32,
    pub right: i32,
}

impl Point {
    pub fn new(x: i32, y: i32) -> (p: Point)
        ensures
            p.x == x,
            p.y == y,
    {
        Point { x, y }
    }
}

impl Size {
    pub fn new(width: i32, height: i32) -> (s: Size)
        ensures
            s.width == width,
            s.height == height,
    {
        Size { width, height }
    }
}

impl Position {
    pub fn new(top: i32, left: i32, bottom: i32, right: i32) -> (p: Position)
        ensures
            p.top == top,
            p.left == left,
            p.bottom == bottom,
            p.right == right,
    {
        Position { top, left, bottom, right }
    }

    /// A rectangle that originates from a real window: its edges are ordered
    /// and its derived width and height fit in the signed 32-bit range.
    pub open spec fn wf(self) -> bool {
        &&& self.left <= self.right
        &&& self.top <= self.bottom
        &&& self.right - self.left <= i32::MAX
        &&& self.bottom - self.top <= i32::MAX
    }

    /// The all-zero rectangle substituted when a window lookup fails.
    pub open spec fn zeroed() -> Position {
        Position { top: 0, left: 0, bottom: 0, right: 0 }
    }
}

} // verus!
