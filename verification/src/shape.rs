//! A shape with its boards and its box.

use vstd::prelude::*;
use crate::bitfield::Bitfield;
use crate::bits::board_has;
use crate::bounding_box::BoundingBox;
use crate::direction::Cell;

verus! {

/// A shape ready for use: its cells, the least box around them, and one
/// board for each of its four height levels.
#[derive(Clone, Copy)]
pub struct Shape {
    pub bitboards: [u64; 4],
    pub bounding_box: BoundingBox,
    pub bitfield: Bitfield,
}

impl View for Shape {
    type V = Set<Cell>;

    /// The filled cells.
    open spec fn view(&self) -> Set<Cell> {
        self.bitfield@
    }
}

impl Shape {
    /// Whether the boards and the box are those of the cells.
    pub open spec fn wf(self) -> bool {
        &&& forall|x: int, y: int, z: int|
            0 <= y < 4 ==> (#[trigger] board_has(self.bitboards[y], x, z) <==> self.bitfield.has(
                (x, y, z),
            ))
        &&& self.bounding_box.spec_bounds(self.bitfield@)
        &&& self.bounding_box.start[0] <= 4 && self.bounding_box.start[1] <= 4
            && self.bounding_box.start[2] <= 4
        &&& self.bounding_box.end[0] < 4 && self.bounding_box.end[1] < 4 && self.bounding_box.end[2]
            < 4
    }

    /// Extent of the shape along each axis, in cells.
    pub fn size(&self) -> (size: [usize; 3])
        requires
            self.bounding_box.spec_non_empty(),
            self.bounding_box.end[0] - self.bounding_box.start[0] < usize::MAX,
            self.bounding_box.end[1] - self.bounding_box.start[1] < usize::MAX,
            self.bounding_box.end[2] - self.bounding_box.start[2] < usize::MAX,
        ensures
            size[0] == self.bounding_box.end[0] - self.bounding_box.start[0] + 1,
            size[1] == self.bounding_box.end[1] - self.bounding_box.start[1] + 1,
            size[2] == self.bounding_box.end[2] - self.bounding_box.start[2] + 1,
    {
        self.bounding_box.size()
    }

    /// The shape with the cells of `bitfield`.
    pub fn from(bitfield: Bitfield) -> (shape: Self)
        ensures
            shape.bitfield == bitfield,
            shape.wf(),
    {
        Self {
            bitboards: bitfield.compute_bitboards(),
            bounding_box: bitfield.compute_bounding_box(),
            bitfield,
        }
    }
}

} // verus!
