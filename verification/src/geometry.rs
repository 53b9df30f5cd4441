//! Axis-aligned rectangles in milli-pixel coordinates.

use vstd::prelude::*;

verus! {

/// Magnitude within which every coordinate handled by the simulation stays;
/// sums of two such coordinates cannot overflow an `i64`.
pub const COORD_LIMIT: i64 = 0x1000_0000_0000_0000;

/// An axis-aligned rectangle: top-left corner plus extent.
#[derive(Clone, Copy, PartialEq, Eq, Structural, Debug)]
pub struct Rect {
    pub x: i64,
    pub y: i64,
    pub w: i64,
    pub h: i64,
}

impl Rect {
    /// Coordinates small enough for overlap arithmetic.
    pub open spec fn in_coord_range(self) -> bool {
        &&& -COORD_LIMIT <= self.x <= COORD_LIMIT
        &&& -COORD_LIMIT <= self.y <= COORD_LIMIT
        &&& 0 <= self.w <= COORD_LIMIT
        &&& 0 <= self.h <= COORD_LIMIT
    }

    /// Inclusive axis-aligned bounding-box overlap: projections on both
    /// axes intersect, edge touching included.
    pub open spec fn spec_overlaps(self, other: Rect) -> bool {
        &&& self.x <= other.x + other.w
        &&& other.x <= self.x + self.w
        &&& self.y <= other.y + other.h
        &&& other.y <= self.y + self.h
    }

    /// Overlap test between two rectangles.
    pub fn overlaps(&self, other: &Rect) -> (r: bool)
        requires
            self.in_coord_range(),
            other.in_coord_range(),
        ensures
            r == self.spec_overlaps(*other),
    {
        self.x <= other.x + other.w && other.x <= self.x + self.w && self.y <= other.y + other.h
            && other.y <= self.y + self.h
    }
}

} // verus!
