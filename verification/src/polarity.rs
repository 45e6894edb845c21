//! The two senses along an axis.

use vstd::prelude::*;

verus! {

/// Sense along an axis.
#[derive(Clone, Copy, Debug, PartialEq, Eq, Hash, Structural)]
pub enum Polarity {
    Positive,
    Negative,
}

/// Number of polarities.
pub const POLARITY_COUNT: usize = 2;

impl Default for Polarity {
    fn default() -> (polarity: Self)
        ensures
            polarity == Polarity::Positive,
    {
        Polarity::Positive
    }
}

impl Polarity {
    /// Position of the polarity in the order Positive, Negative.
    pub open spec fn spec_index(self) -> int {
        match self {
            Polarity::Positive => 0,
            Polarity::Negative => 1,
        }
    }

    pub open spec fn spec_opposite(self) -> Polarity {
        match self {
            Polarity::Positive => Polarity::Negative,
            Polarity::Negative => Polarity::Positive,
        }
    }

    /// Sign rule of a product: equal polarities give Positive, unequal ones Negative.
    pub open spec fn spec_cross(self, other: Polarity) -> Polarity {
        if self == other {
            Polarity::Positive
        } else {
            Polarity::Negative
        }
    }

    pub fn index(&self) -> (index: usize)
        ensures
            index == self.spec_index(),
    {
        match self {
            Polarity::Positive => 0,
            Polarity::Negative => 1,
        }
    }

    /// The polarity at `index` in the order Positive, Negative.
    pub fn from_index(index: usize) -> (polarity: Self)
        requires
            index < POLARITY_COUNT,
        ensures
            polarity.spec_index() == index,
    {
        if index == 0 {
            Polarity::Positive
        } else {
            Polarity::Negative
        }
    }

    pub fn opposite(&self) -> (flipped: Self)
        ensures
            flipped == self.spec_opposite(),
            flipped != *self,
    {
        match self {
            Polarity::Positive => Polarity::Negative,
            Polarity::Negative => Polarity::Positive,
        }
    }

    pub fn cross(&self, other: Self) -> (product: Self)
        ensures
            product == self.spec_cross(other),
    {
        match (self, other) {
            (Polarity::Positive, Polarity::Positive) => Polarity::Positive,
            (Polarity::Positive, Polarity::Negative) => Polarity::Negative,
            (Polarity::Negative, Polarity::Positive) => Polarity::Negative,
            (Polarity::Negative, Polarity::Negative) => Polarity::Positive,
        }
    }
}

} // verus!
