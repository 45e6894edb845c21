//! Boxes of cells.

use vstd::prelude::*;
use crate::direction::Cell;

verus! {

/// An axis-aligned box of cells, by its least and greatest corner, both
/// inclusive.
#[derive(Clone, Copy, Debug)]
pub struct BoundingBox {
    pub start: [usize; 3],
    pub end: [usize; 3],
}

impl BoundingBox {
    /// Whether the box holds at least one cell.
    pub open spec fn spec_non_empty(self) -> bool {
        self.start[0] <= self.end[0] && self.start[1] <= self.end[1] && self.start[2]
            <= self.end[2]
    }

    /// Whether `cell` lies inside the box.
    pub open spec fn spec_contains(self, cell: Cell) -> bool {
        &&& self.start[0] <= cell.0 <= self.end[0]
        &&& self.start[1] <= cell.1 <= self.end[1]
        &&& self.start[2] <= cell.2 <= self.end[2]
    }

    /// Whether the box is the least box around `cells`: it contains each of
    /// them, and each of its six faces touches one. Around no cells at all it
    /// is the empty box from (4, 4, 4) to (0, 0, 0).
    pub open spec fn spec_bounds(self, cells: Set<Cell>) -> bool {
        &&& forall|cell: Cell| cells.contains(cell) ==> self.spec_contains(cell)
        &&& (exists|cell: Cell| cells.contains(cell)) ==> {
            &&& exists|cell: Cell| #[trigger] cells.contains(cell) && cell.0 == self.start[0]
            &&& exists|cell: Cell| #[trigger] cells.contains(cell) && cell.1 == self.start[1]
            &&& exists|cell: Cell| #[trigger] cells.contains(cell) && cell.2 == self.start[2]
            &&& exists|cell: Cell| #[trigger] cells.contains(cell) && cell.0 == self.end[0]
            &&& exists|cell: Cell| #[trigger] cells.contains(cell) && cell.1 == self.end[1]
            &&& exists|cell: Cell| #[trigger] cells.contains(cell) && cell.2 == self.end[2]
        }
        &&& (forall|cell: Cell| !cells.contains(cell)) ==> {
            &&& self.start[0] == 4 && self.start[1] == 4 && self.start[2] == 4
            &&& self.end[0] == 0 && self.end[1] == 0 && self.end[2] == 0
        }
    }

    /// Extent of the box along each axis, in cells.
    pub fn size(&self) -> (size: [usize; 3])
        requires
            self.spec_non_empty(),
            self.end[0] - self.start[0] < usize::MAX,
            self.end[1] - self.start[1] < usize::MAX,
            self.end[2] - self.start[2] < usize::MAX,
        ensures
            size[0] == self.end[0] - self.start[0] + 1,
            size[1] == self.end[1] - self.start[1] + 1,
            size[2] == self.end[2] - self.start[2] + 1,
    {
        [
            self.end[0] - self.start[0] + 1,
            self.end[1] - self.start[1] + 1,
            self.end[2] - self.start[2] + 1,
        ]
    }
}

} // verus!
