//! The falling piece.

use vstd::prelude::*;
use crate::bitfield::{canonical_cells, spec_rotation_size, Bitfield};
use crate::catalog::{
    is_catalog_entry, lemma_catalog_entry_total, oriented_cells, spec_rotation_sequence, Catalog,
};
use crate::direction::{Cell, Direction};
use crate::rotations::orientation_at;
use crate::shape::Shape;
use crate::shape_id::ShapeId;
use crate::tetromino::Tetromino;

verus! {

/// The falling piece: a shape id and the place of the origin of its local
/// cube in the playfield.
#[derive(Debug, Clone, Copy, Hash, PartialEq, Eq)]
pub struct Piece {
    pub shape_id: ShapeId,
    pub position: [isize; 3],
}

/// Height of the topmost cell of a variant in its reference attitude.
pub open spec fn canonical_top(variant: Tetromino) -> int {
    match variant {
        Tetromino::I => 3,
        Tetromino::O => 1,
        Tetromino::T => 2,
        Tetromino::L => 2,
        Tetromino::S => 2,
        Tetromino::B => 1,
        Tetromino::D => 1,
        Tetromino::F => 1,
    }
}

/// Where a new piece of `variant` appears in a playfield of the given
/// extents: its cube centred in width and depth, its topmost cell in the
/// topmost layer.
pub open spec fn spawn_position(variant: Tetromino, width: int, height: int, depth: int) -> Cell {
    (
        (width - spec_rotation_size(variant)) / 2,
        height - canonical_top(variant) - 1,
        (depth - spec_rotation_size(variant)) / 2,
    )
}

/// The entry of a variant in the reference attitude has the variant's
/// reference cells, and its box ends at the variant's topmost cell.
pub proof fn lemma_reference_entry(shape: Shape, variant: Tetromino)
    requires
        is_catalog_entry(shape, ShapeId { variant, orientation: orientation_at(8) }),
    ensures
        shape@ == canonical_cells(variant),
        shape.bounding_box.end[1] == canonical_top(variant),
{
    let id = ShapeId { variant, orientation: orientation_at(8) };
    assert(spec_rotation_sequence(id.orientation) =~= Seq::empty());
    assert(oriented_cells(variant, id.orientation) == canonical_cells(variant));
    lemma_catalog_entry_total(shape, id);
    let top = choose|cell: Cell| #[trigger]
        shape@.contains(cell) && cell.1 == shape.bounding_box.end[1];
    let highest: Cell = match variant {
        Tetromino::I => (2, 3, 2),
        Tetromino::O => (0, 1, 0),
        Tetromino::T => (1, 2, 1),
        Tetromino::L => (1, 2, 1),
        Tetromino::S => (1, 2, 1),
        Tetromino::B => (1, 1, 1),
        Tetromino::D => (1, 1, 1),
        Tetromino::F => (1, 1, 1),
    };
    assert(shape@.contains(highest));
    assert(shape.bounding_box.spec_contains(highest));
}

impl Piece {
    /// The position as a cell.
    pub open spec fn spec_position(self) -> Cell {
        (self.position[0] as int, self.position[1] as int, self.position[2] as int)
    }

    /// The cells of the piece in its local cube.
    pub open spec fn spec_cells(self) -> Set<Cell> {
        oriented_cells(self.shape_id.variant, self.shape_id.orientation)
    }

    /// Turns the piece by a quarter turn about `along`, in place.
    pub fn rotate(&mut self, catalog: &Catalog, along: Direction)
        ensures
            final(self).shape_id == old(self).shape_id.spec_rotate(along),
            final(self).position == old(self).position,
    {
        self.shape_id = ShapeId {
            variant: self.shape_id.variant,
            orientation: catalog.rotation(self.shape_id.orientation, along),
        };
    }

    /// The catalog entry of the piece's shape id.
    pub fn shape<'a>(&self, catalog: &'a Catalog) -> (shape: &'a Shape)
        ensures
            is_catalog_entry(*shape, self.shape_id),
    {
        catalog.shape(&self.shape_id)
    }

    /// Moves the piece by `offset`.
    pub fn translate(&mut self, offset: [isize; 3])
        requires
            isize::MIN <= old(self).position[0] + offset[0] <= isize::MAX,
            isize::MIN <= old(self).position[1] + offset[1] <= isize::MAX,
            isize::MIN <= old(self).position[2] + offset[2] <= isize::MAX,
        ensures
            final(self).shape_id == old(self).shape_id,
            final(self).position[0] == old(self).position[0] + offset[0],
            final(self).position[1] == old(self).position[1] + offset[1],
            final(self).position[2] == old(self).position[2] + offset[2],
    {
        let x = self.position[0];
        let y = self.position[1];
        let z = self.position[2];
        self.position = [x + offset[0], y + offset[1], z + offset[2]];
    }

    /// A new piece of `variant` in the reference attitude, at the place where
    /// pieces appear in a playfield of `W` x `H` x `D` cells.
    pub fn from<const W: usize, const H: usize, const D: usize>(
        catalog: &Catalog,
        variant: Tetromino,
    ) -> (piece: Self)
        requires
            spec_rotation_size(variant) <= W <= isize::MAX,
            spec_rotation_size(variant) <= H <= isize::MAX,
            spec_rotation_size(variant) <= D <= isize::MAX,
        ensures
            piece.shape_id == (ShapeId { variant, orientation: orientation_at(8) }),
            piece.spec_position() == spawn_position(variant, W as int, H as int, D as int),
    {
        let shape_id = ShapeId::from(variant);
        let shape = catalog.shape(&shape_id);
        proof {
            lemma_reference_entry(*shape, variant);
            lemma_catalog_entry_total(*shape, shape_id);
        }
        let end_y = shape.bounding_box.end[1];
        let size = Bitfield::rotation_size(variant);

        let x = (W - size) / 2;
        let y = H - end_y - 1;
        let z = (D - size) / 2;

        Self { shape_id, position: [x as isize, y as isize, z as isize] }
    }
}

} // verus!
