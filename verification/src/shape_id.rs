//! The keys of the catalog of shapes.

use vstd::prelude::*;
use crate::direction::Direction;
use crate::orientation::Orientation;
use crate::rotations::{lemma_rotate_period_four, rotate, spec_rotate};
use crate::tetromino::Tetromino;

verus! {

/// A piece variant in one of its orientations: the key of a catalog entry.
#[derive(Clone, Copy, Debug, PartialEq, Eq, Hash, Structural)]
pub struct ShapeId {
    pub variant: Tetromino,
    pub orientation: Orientation,
}

/// Number of shape ids.
pub const SHAPE_COUNT: usize = 192;

impl From<Tetromino> for ShapeId {
    fn from(variant: Tetromino) -> (id: Self) {
        Self { variant, orientation: Orientation::default() }
    }
}

impl vstd::std_specs::convert::FromSpecImpl<Tetromino> for ShapeId {
    open spec fn obeys_from_spec() -> bool {
        true
    }

    open spec fn from_spec(variant: Tetromino) -> Self {
        ShapeId { variant, orientation: crate::rotations::orientation_at(8) }
    }
}

impl From<(Tetromino, Orientation)> for ShapeId {
    fn from(parameters: (Tetromino, Orientation)) -> (id: Self) {
        let (variant, orientation) = parameters;
        Self { variant, orientation }
    }
}

impl vstd::std_specs::convert::FromSpecImpl<(Tetromino, Orientation)> for ShapeId {
    open spec fn obeys_from_spec() -> bool {
        true
    }

    open spec fn from_spec(parameters: (Tetromino, Orientation)) -> Self {
        ShapeId { variant: parameters.0, orientation: parameters.1 }
    }
}

impl ShapeId {
    /// Dense index of the id: orientation first, then 24 per variant.
    pub open spec fn spec_combination(self) -> int {
        self.orientation.spec_combination() + self.variant.spec_index() * 24
    }

    /// The id of the same variant after a quarter turn about `around`.
    pub open spec fn spec_rotate(self, around: Direction) -> ShapeId {
        ShapeId { variant: self.variant, orientation: spec_rotate(self.orientation, around) }
    }

    pub fn rotate(&self, around: Direction) -> (turned: Self)
        ensures
            turned == self.spec_rotate(around),
            turned.variant == self.variant,
    {
        Self { variant: self.variant, orientation: rotate(self.orientation, around) }
    }

    pub fn combination(&self) -> (index: usize)
        ensures
            index == self.spec_combination(),
            index < SHAPE_COUNT,
    {
        self.orientation.combination() + self.variant.index() * 24
    }
}

/// Four quarter turns about one direction bring every shape id back to
/// itself.
pub proof fn lemma_shape_id_period_four(id: ShapeId, around: Direction)
    ensures
        id.spec_rotate(around).spec_rotate(around).spec_rotate(around).spec_rotate(around) == id,
{
    lemma_rotate_period_four(id.orientation, around);
}

} // verus!
