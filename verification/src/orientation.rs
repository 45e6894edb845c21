//! The 24 attitudes of a piece and their dense indices.

use vstd::prelude::*;
use crate::direction::Direction;
use crate::rotation::Rotation;

verus! {

/// One of the 24 attitudes of a piece: the direction its reference face
/// points to, and the quarter turns made about that direction.
#[derive(Clone, Copy, Debug, PartialEq, Eq, Hash, Structural)]
pub struct Orientation {
    pub direction: Direction,
    pub rotation: Rotation,
}

/// Number of orientations.
pub const ORIENTATION_COUNT: usize = 24;

impl Default for Orientation {
    fn default() -> (orientation: Self)
        ensures
            orientation == (Orientation {
                direction: Direction {
                    polarity: crate::polarity::Polarity::Positive,
                    axis: crate::axis::Axis::Y,
                },
                rotation: Rotation::Identity,
            }),
    {
        Orientation { direction: Direction::default(), rotation: Rotation::default() }
    }
}

impl From<(Direction, Rotation)> for Orientation {
    fn from(value: (Direction, Rotation)) -> (orientation: Self) {
        let (direction, rotation) = value;
        Self { direction, rotation }
    }
}

impl vstd::std_specs::convert::FromSpecImpl<(Direction, Rotation)> for Orientation {
    open spec fn obeys_from_spec() -> bool {
        true
    }

    open spec fn from_spec(value: (Direction, Rotation)) -> Self {
        Orientation { direction: value.0, rotation: value.1 }
    }
}

impl Orientation {
    /// Dense index of the orientation: rotation first, then four per direction.
    pub open spec fn spec_combination(self) -> int {
        self.rotation.spec_index() + self.direction.spec_combination() * 4
    }

    /// Dense index of the pair of this orientation and a direction to turn about.
    pub open spec fn spec_rotation_combination(self, around: Direction) -> int {
        around.spec_combination() + self.spec_combination() * 6
    }

    pub fn rotation_combination(&self, around: Direction) -> (index: usize)
        ensures
            index == self.spec_rotation_combination(around),
            index < 144,
    {
        around.combination() + self.combination() * 6
    }

    pub fn combination(&self) -> (index: usize)
        ensures
            index == self.spec_combination(),
            index < ORIENTATION_COUNT,
    {
        self.rotation.index() + self.direction.combination() * 4
    }

    /// The orientation with the dense index `index`.
    pub fn from_combination(index: usize) -> (orientation: Self)
        requires
            index < ORIENTATION_COUNT,
        ensures
            orientation.spec_combination() == index,
    {
        Self {
            direction: Direction::from_combination(index / 4),
            rotation: Rotation::from((index % 4) as isize),
        }
    }
}

} // verus!
