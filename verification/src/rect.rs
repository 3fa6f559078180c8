//! Damage rectangles: sub-regions of the pixel buffer marked as changed.

use vstd::prelude::*;

verus! {

/// A rectangular region of the buffer coordinate space.
///
/// A rectangle is meaningful only when its width and height are strictly
/// positive and it lies within the negotiated buffer size; submission
/// rejects any other rectangle.
#[derive(Clone, Copy, Debug, PartialEq, Eq, Structural)]
pub struct Rect {
    /// x coordinate of the top left corner.
    pub x: u32,
    /// y coordinate of the top left corner.
    pub y: u32,
    /// Width, strictly positive to be accepted.
    pub width: u32,
    /// Height, strictly positive to be accepted.
    pub height: u32,
}

/// A rectangle is non-empty and lies within a `w` by `h` buffer.
pub open spec fn rect_in_bounds(r: Rect, w: u32, h: u32) -> bool {
    &&& r.width >= 1
    &&& r.height >= 1
    &&& r.x + r.width <= w
    &&& r.y + r.height <= h
}

/// Runtime check for `rect_in_bounds`.
pub fn rect_within(r: &Rect, w: u32, h: u32) -> (b: bool)
    ensures
        b == rect_in_bounds(*r, w, h),
{
    r.width >= 1 && r.height >= 1 && r.x <= w && r.width <= w - r.x && r.y <= h && r.height <= h
        - r.y
}

} // verus!
