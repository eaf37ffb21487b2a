//! Window and screen geometry, in integer coordinates.
//!
//! The native coordinate system places a rectangle's origin at its
//! bottom-left corner, with the y axis growing upwards; the point a caller
//! hands to a move command is the rectangle's top-left corner.

use vstd::prelude::*;

verus! {

/// Coordinate bound under which all frame arithmetic stays exact:
/// origins lie in `[-COORD_BOUND, COORD_BOUND]` and sizes in
/// `[0, COORD_BOUND]`, so an origin plus a size fits in `i64`.
pub const COORD_BOUND: i64 = 0x1_0000_0000;

/// A rectangle with its origin at the bottom-left corner.
#[derive(Clone, Copy, Debug, PartialEq, Eq, Hash, Structural)]
pub struct Rect {
    pub x: i64,
    pub y: i64,
    pub w: i64,
    pub h: i64,
}

impl Rect {
    /// The rectangle's coordinates are small enough that sums of an origin
    /// and a size cannot overflow.
    pub open spec fn wf(self) -> bool {
        &&& -COORD_BOUND <= self.x <= COORD_BOUND
        &&& -COORD_BOUND <= self.y <= COORD_BOUND
        &&& 0 <= self.w <= COORD_BOUND
        &&& 0 <= self.h <= COORD_BOUND
    }

    /// The y coordinate of the rectangle's top edge.
    pub open spec fn spec_top(self) -> int {
        self.y + self.h
    }

    /// The y coordinate of the rectangle's top edge.
    pub fn top(&self) -> (r: i64)
        requires
            self.wf(),
        ensures
            r == self.spec_top(),
    {
        self.y + self.h
    }
}

/// The frame a window is given back when nothing was saved for it.
pub open spec fn spec_fallback_frame() -> Rect {
    Rect { x: 50, y: 50, w: 800, h: 600 }
}

/// The frame a window is given back when nothing was saved for it.
pub fn fallback_frame() -> (r: Rect)
    ensures
        r == spec_fallback_frame(),
        r.wf(),
{
    Rect { x: 50, y: 50, w: 800, h: 600 }
}

} // verus!
