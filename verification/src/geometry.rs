//! Points, sizes and rectangles in whole logical units.
//!
//! Coordinates are wide enough that no frame this crate computes can leave
//! their range.

use vstd::prelude::*;

verus! {

/// Where the platform reported the pointer, in whole logical units.
#[derive(Clone, Copy, Debug, PartialEq, Eq, Structural)]
pub struct PointerLocation {
    pub x: i64,
    pub y: i64,
}

/// A location, in logical units.
#[derive(Clone, Copy, Debug, PartialEq, Eq, Structural)]
pub struct Point {
    pub x: i128,
    pub y: i128,
}

/// The extent of a rectangle, in logical units.
#[derive(Clone, Copy, Debug, PartialEq, Eq, Structural)]
pub struct Size {
    pub width: u32,
    pub height: u32,
}

/// An axis-aligned rectangle given by its lower-left corner and its extent.
#[derive(Clone, Copy, Debug, PartialEq, Eq, Structural)]
pub struct Rect {
    pub origin: Point,
    pub size: Size,
}

impl Rect {
    /// Whether the center of the rectangle is exactly `p`.
    pub open spec fn centered_on(self, p: PointerLocation) -> bool {
        &&& 2 * self.origin.x + self.size.width == 2 * p.x
        &&& 2 * self.origin.y + self.size.height == 2 * p.y
    }
}

} // verus!
