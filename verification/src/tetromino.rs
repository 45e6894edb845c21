//! The eight piece variants.

use vstd::prelude::*;

verus! {

/// The eight piece variants.
#[derive(Clone, Copy, Debug, PartialEq, Eq, Hash, Structural)]
pub enum Tetromino {
    I,
    O,
    T,
    L,
    S,
    B,
    D,
    F,
}

/// Number of piece variants.
pub const TETROMINO_COUNT: usize = 8;

impl Tetromino {
    /// Position of the variant in the order I, O, T, L, S, B, D, F.
    pub open spec fn spec_index(self) -> int {
        match self {
            Tetromino::I => 0,
            Tetromino::O => 1,
            Tetromino::T => 2,
            Tetromino::L => 3,
            Tetromino::S => 4,
            Tetromino::B => 5,
            Tetromino::D => 6,
            Tetromino::F => 7,
        }
    }

    pub fn index(&self) -> (index: usize)
        ensures
            index == self.spec_index(),
            index < TETROMINO_COUNT,
    {
        match self {
            Tetromino::I => 0,
            Tetromino::O => 1,
            Tetromino::T => 2,
            Tetromino::L => 3,
            Tetromino::S => 4,
            Tetromino::B => 5,
            Tetromino::D => 6,
            Tetromino::F => 7,
        }
    }

    /// The colour in which the variant is drawn, as red, green and blue.
    pub open spec fn spec_rgb(self) -> (u8, u8, u8) {
        match self {
            Tetromino::I => (0, 255, 255),
            Tetromino::O => (255, 255, 0),
            Tetromino::T => (127, 0, 127),
            Tetromino::L => (255, 127, 0),
            Tetromino::S => (0, 255, 0),
            Tetromino::B => (127, 47, 0),
            Tetromino::D => (63, 63, 63),
            Tetromino::F => (191, 191, 191),
        }
    }

    /// The colour in which the variant is drawn, as red, green and blue.
    pub fn to_rgb(&self) -> (colour: (u8, u8, u8))
        ensures
            colour == self.spec_rgb(),
    {
        match self {
            Tetromino::I => (0, 255, 255),
            Tetromino::O => (255, 255, 0),
            Tetromino::T => (127, 0, 127),
            Tetromino::L => (255, 127, 0),
            Tetromino::S => (0, 255, 0),
            Tetromino::B => (127, 47, 0),
            Tetromino::D => (63, 63, 63),
            Tetromino::F => (191, 191, 191),
        }
    }

    /// The variant at `value` in the order I, O, T, L, S, B, D, F.
    pub fn from(value: usize) -> (variant: Self)
        requires
            value < TETROMINO_COUNT,
        ensures
            variant.spec_index() == value,
    {
        match value {
            0 => Tetromino::I,
            1 => Tetromino::O,
            2 => Tetromino::T,
            3 => Tetromino::L,
            4 => Tetromino::S,
            5 => Tetromino::B,
            6 => Tetromino::D,
            _ => Tetromino::F,
        }
    }
}

} // verus!
