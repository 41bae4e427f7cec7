use vstd::prelude::*;

verus! {

/// A position in pixel space: column `x` and row `y`, both non-negative.
#[derive(Clone, Copy, PartialEq, Eq, Structural, Debug)]
pub struct Coordinate {
    pub x: u32,
    pub y: u32,
}

/// An axis-aligned rectangle given by its top-left and bottom-right
/// corners, both bounds inclusive. Corner order is not enforced at
/// construction: a rectangle whose corners are out of order simply
/// contains no pixel.
#[derive(Clone, Copy, PartialEq, Eq, Structural, Debug)]
pub struct Region {
    pub top_left: Coordinate,
    pub bottom_right: Coordinate,
}

impl Region {
    /// Whether the pixel (x, y) lies inside the rectangle, edges included.
    pub open spec fn spec_contains(self, x: int, y: int) -> bool {
        &&& self.top_left.x <= x <= self.bottom_right.x
        &&& self.top_left.y <= y <= self.bottom_right.y
    }

    /// Inclusive membership test for a pixel position.
    pub fn contains(&self, x: u32, y: u32) -> (r: bool)
        ensures
            r == self.spec_contains(x as int, y as int),
    {
        self.top_left.x <= x && x <= self.bottom_right.x && self.top_left.y <= y && y
            <= self.bottom_right.y
    }
}

/// Whether (x, y) falls inside at least one region of the table.
pub open spec fn spec_ignored(regions: Seq<Region>, x: int, y: int) -> bool {
    exists|i: int| 0 <= i < regions.len() && (#[trigger] regions[i]).spec_contains(x, y)
}

/// Scans the region table in order and stops at the first region holding
/// the pixel; the table's order never changes the answer, only the scan
/// cost.
pub fn pixel_ignored(regions: &Vec<Region>, x: u32, y: u32) -> (r: bool)
    ensures
        r == spec_ignored(regions@, x as int, y as int),
{
    let mut i: usize = 0;
    while i < regions.len()
        invariant
            i <= regions.len(),
            forall|j: int|
                0 <= j < i ==> !(#[trigger] regions@[j]).spec_contains(x as int, y as int),
        decreases regions.len() - i,
    {
        if regions[i].contains(x, y) {
            return true;
        }
        i += 1;
    }
    false
}

} // verus!
