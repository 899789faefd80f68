//! Coordinates, rectangles and containment tests.
//!
//! A rectangle covers the half-open ranges `[x, x + width)` and
//! `[y, y + height)`; drawing is suppressed outside the current
//! clipping rectangle, so containment is the basic question every
//! rasterization primitive asks.

use vstd::prelude::*;

verus! {

/// A pixel coordinate on the frame buffer.
#[derive(Clone, Copy, PartialEq, Eq, Structural, Debug)]
pub struct Coordinate {
    pub x: u32,
    pub y: u32,
}

/// A rectangular box, used both as wire-format geometry and as the
/// driver's bounding-box type (frame box, clipping box).
#[derive(Clone, Copy, PartialEq, Eq, Structural, Debug)]
pub struct Rect {
    pub x: u32,
    pub y: u32,
    pub width: u32,
    pub height: u32,
}

impl Rect {
    /// The whole rectangle lies within the coordinate space: its far
    /// edges do not overflow a `u32`. All boxes the driver stores obey
    /// this.
    pub open spec fn bounded(self) -> bool {
        self.x + self.width <= u32::MAX && self.y + self.height <= u32::MAX
    }

    pub fn zeroed() -> (r: Rect)
        ensures
            r == (Rect { x: 0, y: 0, width: 0, height: 0 }),
    {
        Rect { x: 0, y: 0, width: 0, height: 0 }
    }
}

/// Containment of a coordinate in a rectangle: inclusive of the
/// origin, exclusive of origin plus extent.
pub open spec fn spec_in_rect(rect: Rect, location: Coordinate) -> bool {
    location.x >= rect.x && location.x < rect.x + rect.width
        && location.y >= rect.y && location.y < rect.y + rect.height
}

/// Checks if `location` is within `rect`.
pub fn in_rect(rect: &Rect, location: &Coordinate) -> (r: bool)
    ensures
        r == spec_in_rect(*rect, *location),
{
    location.x >= rect.x && (location.x as u64) < rect.x as u64 + rect.width as u64
        && location.y >= rect.y && (location.y as u64) < rect.y as u64 + rect.height as u64
}

} // verus!
