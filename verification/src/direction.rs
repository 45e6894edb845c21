//! The six axis-aligned directions and the quarter turns of cells about them.

use vstd::prelude::*;
use crate::axis::Axis;
use crate::polarity::Polarity;

verus! {

/// One of the six axis-aligned unit vectors.
#[derive(Clone, Copy, Debug, PartialEq, Eq, Hash, Structural)]
pub struct Direction {
    pub polarity: Polarity,
    pub axis: Axis,
}

/// Number of directions.
pub const DIRECTION_COUNT: usize = 6;

/// A cell of a grid, as its x, y and z coordinates.
pub type Cell = (int, int, int);

impl Default for Direction {
    fn default() -> (direction: Self)
        ensures
            direction == (Direction { polarity: Polarity::Positive, axis: Axis::Y }),
    {
        Direction { polarity: Polarity::Positive, axis: Axis::Y }
    }
}

impl From<(Polarity, Axis)> for Direction {
    fn from(parameters: (Polarity, Axis)) -> (direction: Self) {
        let (polarity, axis) = parameters;
        Self { polarity, axis }
    }
}

impl vstd::std_specs::convert::FromSpecImpl<(Polarity, Axis)> for Direction {
    open spec fn obeys_from_spec() -> bool {
        true
    }

    open spec fn from_spec(parameters: (Polarity, Axis)) -> Self {
        Direction { polarity: parameters.0, axis: parameters.1 }
    }
}

impl Into<(Polarity, Axis)> for Direction {
    fn into(self) -> (parameters: (Polarity, Axis)) {
        (self.polarity, self.axis)
    }
}

impl vstd::std_specs::convert::IntoSpecImpl<(Polarity, Axis)> for Direction {
    open spec fn obeys_into_spec() -> bool {
        true
    }

    open spec fn into_spec(self) -> (Polarity, Axis) {
        (self.polarity, self.axis)
    }
}

impl Direction {
    /// Dense index of the direction: polarity first, then two per axis.
    pub open spec fn spec_combination(self) -> int {
        self.polarity.spec_index() + self.axis.spec_index() * 2
    }

    pub open spec fn spec_opposite(self) -> Direction {
        Direction { polarity: self.polarity.spec_opposite(), axis: self.axis }
    }

    pub open spec fn spec_cross(self, other: Direction) -> Option<Direction> {
        match self.axis.spec_cross(other.axis) {
            Some(axis) => Some(Direction { polarity: self.polarity.spec_cross(other.polarity), axis }),
            None => None,
        }
    }

    /// Whether a quarter turn about this direction can carry `cell` inside a
    /// cube of edge `size`: the two coordinates off the axis lie below `size`.
    pub open spec fn spec_can_rotate(self, cell: Cell, size: int) -> bool {
        match self.axis {
            Axis::X => 0 <= cell.1 < size && 0 <= cell.2 < size,
            Axis::Y => 0 <= cell.0 < size && 0 <= cell.2 < size,
            Axis::Z => 0 <= cell.0 < size && 0 <= cell.1 < size,
        }
    }

    /// Where a quarter turn about this direction carries `cell` inside a cube
    /// of edge `size`.
    pub open spec fn spec_rotate_coordinate(self, cell: Cell, size: int) -> Cell {
        let (x, y, z) = cell;
        match (self.axis, self.polarity) {
            (Axis::X, Polarity::Positive) => (x, size - z - 1, y),
            (Axis::X, Polarity::Negative) => (x, z, size - y - 1),
            (Axis::Y, Polarity::Positive) => (z, y, size - x - 1),
            (Axis::Y, Polarity::Negative) => (size - z - 1, y, x),
            (Axis::Z, Polarity::Positive) => (size - y - 1, x, z),
            (Axis::Z, Polarity::Negative) => (y, size - x - 1, z),
        }
    }

    pub fn cross(&self, other: Self) -> (product: Option<Self>)
        ensures
            product == self.spec_cross(other),
            product.is_some() <==> self.axis != other.axis,
    {
        match self.axis.cross(other.axis) {
            Some(axis) => Some(Self { polarity: self.polarity.cross(other.polarity), axis }),
            None => None,
        }
    }

    pub fn opposite(&self) -> (flipped: Self)
        ensures
            flipped == self.spec_opposite(),
    {
        Self { axis: self.axis, polarity: self.polarity.opposite() }
    }

    pub fn rotate_coordinate(&self, coordinate: [usize; 3], size: usize) -> (rotated: [usize; 3])
        requires
            self.spec_can_rotate(
                (coordinate[0] as int, coordinate[1] as int, coordinate[2] as int),
                size as int,
            ),
        ensures
            (rotated[0] as int, rotated[1] as int, rotated[2] as int)
                == self.spec_rotate_coordinate(
                (coordinate[0] as int, coordinate[1] as int, coordinate[2] as int),
                size as int,
            ),
    {
        let x = coordinate[0];
        let y = coordinate[1];
        let z = coordinate[2];
        match (self.axis, self.polarity) {
            (Axis::X, Polarity::Positive) => [x, size - z - 1, y],
            (Axis::X, Polarity::Negative) => [x, z, size - y - 1],
            (Axis::Y, Polarity::Positive) => [z, y, size - x - 1],
            (Axis::Y, Polarity::Negative) => [size - z - 1, y, x],
            (Axis::Z, Polarity::Positive) => [size - y - 1, x, z],
            (Axis::Z, Polarity::Negative) => [y, size - x - 1, z],
        }
    }

    pub fn combination(&self) -> (index: usize)
        ensures
            index == self.spec_combination(),
            index < DIRECTION_COUNT,
    {
        self.polarity.index() + self.axis.index() * 2
    }

    /// The direction with the dense index `index`.
    pub fn from_combination(index: usize) -> (direction: Self)
        requires
            index < DIRECTION_COUNT,
        ensures
            direction.spec_combination() == index,
    {
        Self { polarity: Polarity::from_index(index % 2), axis: Axis::from_index(index / 2) }
    }
}

/// A quarter turn about the opposite direction undoes a quarter turn, for
/// every cell of the cube that is turned.
pub proof fn lemma_opposite_turn_undoes(direction: Direction, cell: Cell, size: int)
    requires
        direction.spec_can_rotate(cell, size),
    ensures
        direction.spec_opposite().spec_can_rotate(
            direction.spec_rotate_coordinate(cell, size),
            size,
        ),
        direction.spec_opposite().spec_rotate_coordinate(
            direction.spec_rotate_coordinate(cell, size),
            size,
        ) == cell,
{
}

} // verus!
