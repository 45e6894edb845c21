//! The three coordinate axes.

use vstd::prelude::*;

verus! {

/// One of the three coordinate axes.
#[derive(Clone, Copy, Debug, PartialEq, Eq, Hash, Structural)]
pub enum Axis {
    X,
    Y,
    Z,
}

/// Number of axes.
pub const AXIS_COUNT: usize = 3;

impl Default for Axis {
    fn default() -> (axis: Self)
        ensures
            axis == Axis::Y,
    {
        Axis::Y
    }
}

impl Axis {
    /// Position of the axis in the order X, Y, Z.
    pub open spec fn spec_index(self) -> int {
        match self {
            Axis::X => 0,
            Axis::Y => 1,
            Axis::Z => 2,
        }
    }

    /// The third axis for two distinct axes, and nothing for an axis with itself.
    pub open spec fn spec_cross(self, other: Axis) -> Option<Axis> {
        if self == other {
            None
        } else if self != Axis::X && other != Axis::X {
            Some(Axis::X)
        } else if self != Axis::Y && other != Axis::Y {
            Some(Axis::Y)
        } else {
            Some(Axis::Z)
        }
    }

    pub fn index(&self) -> (index: usize)
        ensures
            index == self.spec_index(),
    {
        match self {
            Axis::X => 0,
            Axis::Y => 1,
            Axis::Z => 2,
        }
    }

    /// The axis at `index` in the order X, Y, Z.
    pub fn from_index(index: usize) -> (axis: Self)
        requires
            index < AXIS_COUNT,
        ensures
            axis.spec_index() == index,
    {
        if index == 0 {
            Axis::X
        } else if index == 1 {
            Axis::Y
        } else {
            Axis::Z
        }
    }

    /// Extents of a box after a quarter turn about this axis: the two extents
    /// off the axis change places.
    pub fn rotate_dimensions(&self, dimensions: [usize; 3]) -> (rotated: [usize; 3])
        ensures
            rotated@ == match *self {
                Axis::X => seq![dimensions[0], dimensions[2], dimensions[1]],
                Axis::Y => seq![dimensions[2], dimensions[1], dimensions[0]],
                Axis::Z => seq![dimensions[1], dimensions[0], dimensions[2]],
            },
    {
        let x = dimensions[0];
        let y = dimensions[1];
        let z = dimensions[2];
        let rotated = match self {
            Axis::X => [x, z, y],
            Axis::Y => [z, y, x],
            Axis::Z => [y, x, z],
        };
        proof {
            match *self {
                Axis::X => assert(rotated@ =~= seq![x, z, y]),
                Axis::Y => assert(rotated@ =~= seq![z, y, x]),
                Axis::Z => assert(rotated@ =~= seq![y, x, z]),
            }
        }
        rotated
    }

    pub fn cross(&self, other: Self) -> (third: Option<Self>)
        ensures
            third == self.spec_cross(other),
            third.is_some() <==> *self != other,
            third matches Some(axis) ==> axis != *self && axis != other,
    {
        match (self, other) {
            (Axis::X, Axis::Y) | (Axis::Y, Axis::X) => Some(Axis::Z),
            (Axis::Y, Axis::Z) | (Axis::Z, Axis::Y) => Some(Axis::X),
            (Axis::Z, Axis::X) | (Axis::X, Axis::Z) => Some(Axis::Y),
            _ => None,
        }
    }
}

} // verus!
