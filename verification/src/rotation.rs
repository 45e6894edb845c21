//! Quarter turns counted modulo four.

use vstd::prelude::*;

verus! {

/// A number of quarter turns, counted modulo four.
#[derive(Clone, Copy, Debug, PartialEq, Eq, Hash, Structural)]
pub enum Rotation {
    Identity,
    Generator,
    Double,
    Prime,
}

/// Number of rotations.
pub const ROTATION_COUNT: usize = 4;

impl Default for Rotation {
    fn default() -> (rotation: Self)
        ensures
            rotation == Rotation::Identity,
    {
        Rotation::Identity
    }
}

/// The rotation that stands for `turns` quarter turns, for `turns` in 0..4.
pub open spec fn rotation_of(turns: int) -> Rotation {
    if turns == 0 {
        Rotation::Identity
    } else if turns == 1 {
        Rotation::Generator
    } else if turns == 2 {
        Rotation::Double
    } else {
        Rotation::Prime
    }
}

impl From<isize> for Rotation {
    fn from(value: isize) -> (rotation: Self) {
        let turns: isize = if value >= 0 {
            value % 4
        } else {
            3 - (-(value + 1)) % 4
        };
        if turns == 0 {
            Self::Identity
        } else if turns == 1 {
            Self::Generator
        } else if turns == 2 {
            Self::Double
        } else {
            Self::Prime
        }
    }
}

impl vstd::std_specs::convert::FromSpecImpl<isize> for Rotation {
    open spec fn obeys_from_spec() -> bool {
        true
    }

    open spec fn from_spec(value: isize) -> Self {
        rotation_of(value as int % 4)
    }
}

impl core::ops::Add for Rotation {
    type Output = Rotation;

    /// Sum of two rotations, modulo four.
    fn add(self, rhs: Self) -> (sum: Self::Output) {
        let total: isize = self.signed_index() + rhs.signed_index();
        Self::from(total)
    }
}

impl vstd::std_specs::ops::AddSpecImpl for Rotation {
    open spec fn obeys_add_spec() -> bool {
        true
    }

    open spec fn add_req(self, rhs: Rotation) -> bool {
        true
    }

    open spec fn add_spec(self, rhs: Rotation) -> Rotation {
        rotation_of((self.spec_index() + rhs.spec_index()) % 4)
    }
}

impl Rotation {
    /// Number of quarter turns, in 0..4.
    pub open spec fn spec_index(self) -> int {
        match self {
            Rotation::Identity => 0,
            Rotation::Generator => 1,
            Rotation::Double => 2,
            Rotation::Prime => 3,
        }
    }

    pub open spec fn spec_rotate_by(self, count: int) -> Rotation {
        rotation_of((self.spec_index() + count) % 4)
    }

    pub fn index(&self) -> (index: usize)
        ensures
            index == self.spec_index(),
    {
        match self {
            Rotation::Identity => 0,
            Rotation::Generator => 1,
            Rotation::Double => 2,
            Rotation::Prime => 3,
        }
    }

    /// This rotation after `count` further quarter turns; a negative count
    /// turns back.
    pub fn rotate_by(&self, count: isize) -> (turned: Self)
        requires
            self.spec_index() + count <= isize::MAX,
        ensures
            turned == self.spec_rotate_by(count as int),
            turned.spec_index() == (self.spec_index() + count) % 4,
    {
        let total: isize = self.signed_index() + count;
        Self::from(total)
    }

    fn signed_index(&self) -> (index: isize)
        ensures
            index == self.spec_index(),
    {
        match self {
            Rotation::Identity => 0,
            Rotation::Generator => 1,
            Rotation::Double => 2,
            Rotation::Prime => 3,
        }
    }
}

} // verus!
