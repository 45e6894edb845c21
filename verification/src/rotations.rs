//! The table of quarter turns of orientations, and the laws of the group that
//! it describes.

use vstd::prelude::*;
use crate::axis::Axis;
use crate::direction::Direction;
use crate::orientation::Orientation;
use crate::polarity::Polarity;
use crate::rotation::Rotation;

verus! {

/// The transition table of quarter turns, one column for each direction to
/// turn about (by its dense index, in the order +X, -X, +Y, -Y, +Z, -Z). The
/// entry for `from` is the dense index of the orientation that the quarter
/// turn makes of the orientation with the dense index `from`.
pub open spec fn table_turn(from: usize, around: usize) -> usize {
    match around {
        0 => match from {
            0 => 3, 1 => 2, 2 => 0, 3 => 1, 4 => 7, 5 => 6, 6 => 4, 7 => 5,
            8 => 19, 9 => 18, 10 => 16, 11 => 17, 12 => 23, 13 => 22, 14 => 20, 15 => 21,
            16 => 15, 17 => 14, 18 => 12, 19 => 13, 20 => 11, 21 => 10, 22 => 8, 23 => 9,
            _ => 0,
        },
        1 => match from {
            0 => 2, 1 => 3, 2 => 1, 3 => 0, 4 => 6, 5 => 7, 6 => 5, 7 => 4,
            8 => 22, 9 => 23, 10 => 21, 11 => 20, 12 => 18, 13 => 19, 14 => 17, 15 => 16,
            16 => 10, 17 => 11, 18 => 9, 19 => 8, 20 => 14, 21 => 15, 22 => 13, 23 => 12,
            _ => 0,
        },
        2 => match from {
            0 => 21, 1 => 22, 2 => 23, 3 => 20, 4 => 17, 5 => 18, 6 => 19, 7 => 16,
            8 => 9, 9 => 10, 10 => 11, 11 => 8, 12 => 13, 13 => 14, 14 => 15, 15 => 12,
            16 => 1, 17 => 2, 18 => 3, 19 => 0, 20 => 5, 21 => 6, 22 => 7, 23 => 4,
            _ => 0,
        },
        3 => match from {
            0 => 19, 1 => 16, 2 => 17, 3 => 18, 4 => 23, 5 => 20, 6 => 21, 7 => 22,
            8 => 11, 9 => 8, 10 => 9, 11 => 10, 12 => 15, 13 => 12, 14 => 13, 15 => 14,
            16 => 7, 17 => 4, 18 => 5, 19 => 6, 20 => 3, 21 => 0, 22 => 1, 23 => 2,
            _ => 0,
        },
        4 => match from {
            0 => 9, 1 => 11, 2 => 8, 3 => 10, 4 => 13, 5 => 15, 6 => 12, 7 => 14,
            8 => 5, 9 => 7, 10 => 4, 11 => 6, 12 => 1, 13 => 3, 14 => 0, 15 => 2,
            16 => 17, 17 => 19, 18 => 16, 19 => 18, 20 => 21, 21 => 23, 22 => 20, 23 => 22,
            _ => 0,
        },
        5 => match from {
            0 => 14, 1 => 12, 2 => 15, 3 => 13, 4 => 10, 5 => 8, 6 => 11, 7 => 9,
            8 => 2, 9 => 0, 10 => 3, 11 => 1, 12 => 6, 13 => 4, 14 => 7, 15 => 5,
            16 => 18, 17 => 16, 18 => 19, 19 => 17, 20 => 22, 21 => 20, 22 => 23, 23 => 21,
            _ => 0,
        },
        _ => 0,
    }
}

/// The orientation with the dense index `index`, for `index` in 0..24.
pub open spec fn orientation_at(index: int) -> Orientation {
    Orientation {
        direction: Direction {
            polarity: if (index / 4) % 2 == 0 {
                Polarity::Positive
            } else {
                Polarity::Negative
            },
            axis: if index / 8 == 0 {
                Axis::X
            } else if index / 8 == 1 {
                Axis::Y
            } else {
                Axis::Z
            },
        },
        rotation: crate::rotation::rotation_of(index % 4),
    }
}

/// The orientation that a quarter turn about `around` makes of `orientation`.
pub open spec fn spec_rotate(orientation: Orientation, around: Direction) -> Orientation {
    orientation_at(
        table_turn(
            orientation.spec_combination() as usize,
            around.spec_combination() as usize,
        ) as int,
    )
}

/// Turns `orientation` by a quarter turn about `around`.
pub fn rotate(orientation: Orientation, around: Direction) -> (turned: Orientation)
    ensures
        turned == spec_rotate(orientation, around),
{
    let (polarity, axis, rotation) = match (
        orientation.direction.polarity,
        orientation.direction.axis,
        orientation.rotation,
        around.polarity,
        around.axis,
    ) {
        (Polarity::Positive, Axis::X, Rotation::Identity, Polarity::Positive, Axis::X) => {
            (Polarity::Positive, Axis::X, Rotation::Prime)
        },
        (Polarity::Positive, Axis::X, Rotation::Identity, Polarity::Positive, Axis::Y) => {
            (Polarity::Negative, Axis::Z, Rotation::Generator)
        },
        (Polarity::Positive, Axis::X, Rotation::Identity, Polarity::Positive, Axis::Z) => {
            (Polarity::Positive, Axis::Y, Rotation::Generator)
        },
        (Polarity::Positive, Axis::X, Rotation::Identity, Polarity::Negative, Axis::X) => {
            (Polarity::Positive, Axis::X, Rotation::Double)
        },
        (Polarity::Positive, Axis::X, Rotation::Identity, Polarity::Negative, Axis::Y) => {
            (Polarity::Positive, Axis::Z, Rotation::Prime)
        },
        (Polarity::Positive, Axis::X, Rotation::Identity, Polarity::Negative, Axis::Z) => {
            (Polarity::Negative, Axis::Y, Rotation::Double)
        },
        (Polarity::Positive, Axis::X, Rotation::Generator, Polarity::Positive, Axis::X) => {
            (Polarity::Positive, Axis::X, Rotation::Double)
        },
        (Polarity::Positive, Axis::X, Rotation::Generator, Polarity::Positive, Axis::Y) => {
            (Polarity::Negative, Axis::Z, Rotation::Double)
        },
        (Polarity::Positive, Axis::X, Rotation::Generator, Polarity::Positive, Axis::Z) => {
            (Polarity::Positive, Axis::Y, Rotation::Prime)
        },
        (Polarity::Positive, Axis::X, Rotation::Generator, Polarity::Negative, Axis::X) => {
            (Polarity::Positive, Axis::X, Rotation::Prime)
        },
        (Polarity::Positive, Axis::X, Rotation::Generator, Polarity::Negative, Axis::Y) => {
            (Polarity::Positive, Axis::Z, Rotation::Identity)
        },
        (Polarity::Positive, Axis::X, Rotation::Generator, Polarity::Negative, Axis::Z) => {
            (Polarity::Negative, Axis::Y, Rotation::Identity)
        },
        (Polarity::Positive, Axis::X, Rotation::Double, Polarity::Positive, Axis::X) => {
            (Polarity::Positive, Axis::X, Rotation::Identity)
        },
        (Polarity::Positive, Axis::X, Rotation::Double, Polarity::Positive, Axis::Y) => {
            (Polarity::Negative, Axis::Z, Rotation::Prime)
        },
        (Polarity::Positive, Axis::X, Rotation::Double, Polarity::Positive, Axis::Z) => {
            (Polarity::Positive, Axis::Y, Rotation::Identity)
        },
        (Polarity::Positive, Axis::X, Rotation::Double, Polarity::Negative, Axis::X) => {
            (Polarity::Positive, Axis::X, Rotation::Generator)
        },
        (Polarity::Positive, Axis::X, Rotation::Double, Polarity::Negative, Axis::Y) => {
            (Polarity::Positive, Axis::Z, Rotation::Generator)
        },
        (Polarity::Positive, Axis::X, Rotation::Double, Polarity::Negative, Axis::Z) => {
            (Polarity::Negative, Axis::Y, Rotation::Prime)
        },
        (Polarity::Positive, Axis::X, Rotation::Prime, Polarity::Positive, Axis::X) => {
            (Polarity::Positive, Axis::X, Rotation::Generator)
        },
        (Polarity::Positive, Axis::X, Rotation::Prime, Polarity::Positive, Axis::Y) => {
            (Polarity::Negative, Axis::Z, Rotation::Identity)
        },
        (Polarity::Positive, Axis::X, Rotation::Prime, Polarity::Positive, Axis::Z) => {
            (Polarity::Positive, Axis::Y, Rotation::Double)
        },
        (Polarity::Positive, Axis::X, Rotation::Prime, Polarity::Negative, Axis::X) => {
            (Polarity::Positive, Axis::X, Rotation::Identity)
        },
        (Polarity::Positive, Axis::X, Rotation::Prime, Polarity::Negative, Axis::Y) => {
            (Polarity::Positive, Axis::Z, Rotation::Double)
        },
        (Polarity::Positive, Axis::X, Rotation::Prime, Polarity::Negative, Axis::Z) => {
            (Polarity::Negative, Axis::Y, Rotation::Generator)
        },
        (Polarity::Positive, Axis::Y, Rotation::Identity, Polarity::Positive, Axis::X) => {
            (Polarity::Positive, Axis::Z, Rotation::Prime)
        },
        (Polarity::Positive, Axis::Y, Rotation::Identity, Polarity::Positive, Axis::Y) => {
            (Polarity::Positive, Axis::Y, Rotation::Generator)
        },
        (Polarity::Positive, Axis::Y, Rotation::Identity, Polarity::Positive, Axis::Z) => {
            (Polarity::Negative, Axis::X, Rotation::Generator)
        },
        (Polarity::Positive, Axis::Y, Rotation::Identity, Polarity::Negative, Axis::X) => {
            (Polarity::Negative, Axis::Z, Rotation::Double)
        },
        (Polarity::Positive, Axis::Y, Rotation::Identity, Polarity::Negative, Axis::Y) => {
            (Polarity::Positive, Axis::Y, Rotation::Prime)
        },
        (Polarity::Positive, Axis::Y, Rotation::Identity, Polarity::Negative, Axis::Z) => {
            (Polarity::Positive, Axis::X, Rotation::Double)
        },
        (Polarity::Positive, Axis::Y, Rotation::Generator, Polarity::Positive, Axis::X) => {
            (Polarity::Positive, Axis::Z, Rotation::Double)
        },
        (Polarity::Positive, Axis::Y, Rotation::Generator, Polarity::Positive, Axis::Y) => {
            (Polarity::Positive, Axis::Y, Rotation::Double)
        },
        (Polarity::Positive, Axis::Y, Rotation::Generator, Polarity::Positive, Axis::Z) => {
            (Polarity::Negative, Axis::X, Rotation::Prime)
        },
        (Polarity::Positive, Axis::Y, Rotation::Generator, Polarity::Negative, Axis::X) => {
            (Polarity::Negative, Axis::Z, Rotation::Prime)
        },
        (Polarity::Positive, Axis::Y, Rotation::Generator, Polarity::Negative, Axis::Y) => {
            (Polarity::Positive, Axis::Y, Rotation::Identity)
        },
        (Polarity::Positive, Axis::Y, Rotation::Generator, Polarity::Negative, Axis::Z) => {
            (Polarity::Positive, Axis::X, Rotation::Identity)
        },
        (Polarity::Positive, Axis::Y, Rotation::Double, Polarity::Positive, Axis::X) => {
            (Polarity::Positive, Axis::Z, Rotation::Identity)
        },
        (Polarity::Positive, Axis::Y, Rotation::Double, Polarity::Positive, Axis::Y) => {
            (Polarity::Positive, Axis::Y, Rotation::Prime)
        },
        (Polarity::Positive, Axis::Y, Rotation::Double, Polarity::Positive, Axis::Z) => {
            (Polarity::Negative, Axis::X, Rotation::Identity)
        },
        (Polarity::Positive, Axis::Y, Rotation::Double, Polarity::Negative, Axis::X) => {
            (Polarity::Negative, Axis::Z, Rotation::Generator)
        },
        (Polarity::Positive, Axis::Y, Rotation::Double, Polarity::Negative, Axis::Y) => {
            (Polarity::Positive, Axis::Y, Rotation::Generator)
        },
        (Polarity::Positive, Axis::Y, Rotation::Double, Polarity::Negative, Axis::Z) => {
            (Polarity::Positive, Axis::X, Rotation::Prime)
        },
        (Polarity::Positive, Axis::Y, Rotation::Prime, Polarity::Positive, Axis::X) => {
            (Polarity::Positive, Axis::Z, Rotation::Generator)
        },
        (Polarity::Positive, Axis::Y, Rotation::Prime, Polarity::Positive, Axis::Y) => {
            (Polarity::Positive, Axis::Y, Rotation::Identity)
        },
        (Polarity::Positive, Axis::Y, Rotation::Prime, Polarity::Positive, Axis::Z) => {
            (Polarity::Negative, Axis::X, Rotation::Double)
        },
        (Polarity::Positive, Axis::Y, Rotation::Prime, Polarity::Negative, Axis::X) => {
            (Polarity::Negative, Axis::Z, Rotation::Identity)
        },
        (Polarity::Positive, Axis::Y, Rotation::Prime, Polarity::Negative, Axis::Y) => {
            (Polarity::Positive, Axis::Y, Rotation::Double)
        },
        (Polarity::Positive, Axis::Y, Rotation::Prime, Polarity::Negative, Axis::Z) => {
            (Polarity::Positive, Axis::X, Rotation::Generator)
        },
        (Polarity::Positive, Axis::Z, Rotation::Identity, Polarity::Positive, Axis::X) => {
            (Polarity::Negative, Axis::Y, Rotation::Prime)
        },
        (Polarity::Positive, Axis::Z, Rotation::Identity, Polarity::Positive, Axis::Y) => {
            (Polarity::Positive, Axis::X, Rotation::Generator)
        },
        (Polarity::Positive, Axis::Z, Rotation::Identity, Polarity::Positive, Axis::Z) => {
            (Polarity::Positive, Axis::Z, Rotation::Generator)
        },
        (Polarity::Positive, Axis::Z, Rotation::Identity, Polarity::Negative, Axis::X) => {
            (Polarity::Positive, Axis::Y, Rotation::Double)
        },
        (Polarity::Positive, Axis::Z, Rotation::Identity, Polarity::Negative, Axis::Y) => {
            (Polarity::Negative, Axis::X, Rotation::Prime)
        },
        (Polarity::Positive, Axis::Z, Rotation::Identity, Polarity::Negative, Axis::Z) => {
            (Polarity::Positive, Axis::Z, Rotation::Double)
        },
        (Polarity::Positive, Axis::Z, Rotation::Generator, Polarity::Positive, Axis::X) => {
            (Polarity::Negative, Axis::Y, Rotation::Double)
        },
        (Polarity::Positive, Axis::Z, Rotation::Generator, Polarity::Positive, Axis::Y) => {
            (Polarity::Positive, Axis::X, Rotation::Double)
        },
        (Polarity::Positive, Axis::Z, Rotation::Generator, Polarity::Positive, Axis::Z) => {
            (Polarity::Positive, Axis::Z, Rotation::Prime)
        },
        (Polarity::Positive, Axis::Z, Rotation::Generator, Polarity::Negative, Axis::X) => {
            (Polarity::Positive, Axis::Y, Rotation::Prime)
        },
        (Polarity::Positive, Axis::Z, Rotation::Generator, Polarity::Negative, Axis::Y) => {
            (Polarity::Negative, Axis::X, Rotation::Identity)
        },
        (Polarity::Positive, Axis::Z, Rotation::Generator, Polarity::Negative, Axis::Z) => {
            (Polarity::Positive, Axis::Z, Rotation::Identity)
        },
        (Polarity::Positive, Axis::Z, Rotation::Double, Polarity::Positive, Axis::X) => {
            (Polarity::Negative, Axis::Y, Rotation::Identity)
        },
        (Polarity::Positive, Axis::Z, Rotation::Double, Polarity::Positive, Axis::Y) => {
            (Polarity::Positive, Axis::X, Rotation::Prime)
        },
        (Polarity::Positive, Axis::Z, Rotation::Double, Polarity::Positive, Axis::Z) => {
            (Polarity::Positive, Axis::Z, Rotation::Identity)
        },
        (Polarity::Positive, Axis::Z, Rotation::Double, Polarity::Negative, Axis::X) => {
            (Polarity::Positive, Axis::Y, Rotation::Generator)
        },
        (Polarity::Positive, Axis::Z, Rotation::Double, Polarity::Negative, Axis::Y) => {
            (Polarity::Negative, Axis::X, Rotation::Generator)
        },
        (Polarity::Positive, Axis::Z, Rotation::Double, Polarity::Negative, Axis::Z) => {
            (Polarity::Positive, Axis::Z, Rotation::Prime)
        },
        (Polarity::Positive, Axis::Z, Rotation::Prime, Polarity::Positive, Axis::X) => {
            (Polarity::Negative, Axis::Y, Rotation::Generator)
        },
        (Polarity::Positive, Axis::Z, Rotation::Prime, Polarity::Positive, Axis::Y) => {
            (Polarity::Positive, Axis::X, Rotation::Identity)
        },
        (Polarity::Positive, Axis::Z, Rotation::Prime, Polarity::Positive, Axis::Z) => {
            (Polarity::Positive, Axis::Z, Rotation::Double)
        },
        (Polarity::Positive, Axis::Z, Rotation::Prime, Polarity::Negative, Axis::X) => {
            (Polarity::Positive, Axis::Y, Rotation::Identity)
        },
        (Polarity::Positive, Axis::Z, Rotation::Prime, Polarity::Negative, Axis::Y) => {
            (Polarity::Negative, Axis::X, Rotation::Double)
        },
        (Polarity::Positive, Axis::Z, Rotation::Prime, Polarity::Negative, Axis::Z) => {
            (Polarity::Positive, Axis::Z, Rotation::Generator)
        },
        (Polarity::Negative, Axis::X, Rotation::Identity, Polarity::Positive, Axis::X) => {
            (Polarity::Negative, Axis::X, Rotation::Prime)
        },
        (Polarity::Negative, Axis::X, Rotation::Identity, Polarity::Positive, Axis::Y) => {
            (Polarity::Positive, Axis::Z, Rotation::Generator)
        },
        (Polarity::Negative, Axis::X, Rotation::Identity, Polarity::Positive, Axis::Z) => {
            (Polarity::Negative, Axis::Y, Rotation::Generator)
        },
        (Polarity::Negative, Axis::X, Rotation::Identity, Polarity::Negative, Axis::X) => {
            (Polarity::Negative, Axis::X, Rotation::Double)
        },
        (Polarity::Negative, Axis::X, Rotation::Identity, Polarity::Negative, Axis::Y) => {
            (Polarity::Negative, Axis::Z, Rotation::Prime)
        },
        (Polarity::Negative, Axis::X, Rotation::Identity, Polarity::Negative, Axis::Z) => {
            (Polarity::Positive, Axis::Y, Rotation::Double)
        },
        (Polarity::Negative, Axis::X, Rotation::Generator, Polarity::Positive, Axis::X) => {
            (Polarity::Negative, Axis::X, Rotation::Double)
        },
        (Polarity::Negative, Axis::X, Rotation::Generator, Polarity::Positive, Axis::Y) => {
            (Polarity::Positive, Axis::Z, Rotation::Double)
        },
        (Polarity::Negative, Axis::X, Rotation::Generator, Polarity::Positive, Axis::Z) => {
            (Polarity::Negative, Axis::Y, Rotation::Prime)
        },
        (Polarity::Negative, Axis::X, Rotation::Generator, Polarity::Negative, Axis::X) => {
            (Polarity::Negative, Axis::X, Rotation::Prime)
        },
        (Polarity::Negative, Axis::X, Rotation::Generator, Polarity::Negative, Axis::Y) => {
            (Polarity::Negative, Axis::Z, Rotation::Identity)
        },
        (Polarity::Negative, Axis::X, Rotation::Generator, Polarity::Negative, Axis::Z) => {
            (Polarity::Positive, Axis::Y, Rotation::Identity)
        },
        (Polarity::Negative, Axis::X, Rotation::Double, Polarity::Positive, Axis::X) => {
            (Polarity::Negative, Axis::X, Rotation::Identity)
        },
        (Polarity::Negative, Axis::X, Rotation::Double, Polarity::Positive, Axis::Y) => {
            (Polarity::Positive, Axis::Z, Rotation::Prime)
        },
        (Polarity::Negative, Axis::X, Rotation::Double, Polarity::Positive, Axis::Z) => {
            (Polarity::Negative, Axis::Y, Rotation::Identity)
        },
        (Polarity::Negative, Axis::X, Rotation::Double, Polarity::Negative, Axis::X) => {
            (Polarity::Negative, Axis::X, Rotation::Generator)
        },
        (Polarity::Negative, Axis::X, Rotation::Double, Polarity::Negative, Axis::Y) => {
            (Polarity::Negative, Axis::Z, Rotation::Generator)
        },
        (Polarity::Negative, Axis::X, Rotation::Double, Polarity::Negative, Axis::Z) => {
            (Polarity::Positive, Axis::Y, Rotation::Prime)
        },
        (Polarity::Negative, Axis::X, Rotation::Prime, Polarity::Positive, Axis::X) => {
            (Polarity::Negative, Axis::X, Rotation::Generator)
        },
        (Polarity::Negative, Axis::X, Rotation::Prime, Polarity::Positive, Axis::Y) => {
            (Polarity::Positive, Axis::Z, Rotation::Identity)
        },
        (Polarity::Negative, Axis::X, Rotation::Prime, Polarity::Positive, Axis::Z) => {
            (Polarity::Negative, Axis::Y, Rotation::Double)
        },
        (Polarity::Negative, Axis::X, Rotation::Prime, Polarity::Negative, Axis::X) => {
            (Polarity::Negative, Axis::X, Rotation::Identity)
        },
        (Polarity::Negative, Axis::X, Rotation::Prime, Polarity::Negative, Axis::Y) => {
            (Polarity::Negative, Axis::Z, Rotation::Double)
        },
        (Polarity::Negative, Axis::X, Rotation::Prime, Polarity::Negative, Axis::Z) => {
            (Polarity::Positive, Axis::Y, Rotation::Generator)
        },
        (Polarity::Negative, Axis::Y, Rotation::Identity, Polarity::Positive, Axis::X) => {
            (Polarity::Negative, Axis::Z, Rotation::Prime)
        },
        (Polarity::Negative, Axis::Y, Rotation::Identity, Polarity::Positive, Axis::Y) => {
            (Polarity::Negative, Axis::Y, Rotation::Generator)
        },
        (Polarity::Negative, Axis::Y, Rotation::Identity, Polarity::Positive, Axis::Z) => {
            (Polarity::Positive, Axis::X, Rotation::Generator)
        },
        (Polarity::Negative, Axis::Y, Rotation::Identity, Polarity::Negative, Axis::X) => {
            (Polarity::Positive, Axis::Z, Rotation::Double)
        },
        (Polarity::Negative, Axis::Y, Rotation::Identity, Polarity::Negative, Axis::Y) => {
            (Polarity::Negative, Axis::Y, Rotation::Prime)
        },
        (Polarity::Negative, Axis::Y, Rotation::Identity, Polarity::Negative, Axis::Z) => {
            (Polarity::Negative, Axis::X, Rotation::Double)
        },
        (Polarity::Negative, Axis::Y, Rotation::Generator, Polarity::Positive, Axis::X) => {
            (Polarity::Negative, Axis::Z, Rotation::Double)
        },
        (Polarity::Negative, Axis::Y, Rotation::Generator, Polarity::Positive, Axis::Y) => {
            (Polarity::Negative, Axis::Y, Rotation::Double)
        },
        (Polarity::Negative, Axis::Y, Rotation::Generator, Polarity::Positive, Axis::Z) => {
            (Polarity::Positive, Axis::X, Rotation::Prime)
        },
        (Polarity::Negative, Axis::Y, Rotation::Generator, Polarity::Negative, Axis::X) => {
            (Polarity::Positive, Axis::Z, Rotation::Prime)
        },
        (Polarity::Negative, Axis::Y, Rotation::Generator, Polarity::Negative, Axis::Y) => {
            (Polarity::Negative, Axis::Y, Rotation::Identity)
        },
        (Polarity::Negative, Axis::Y, Rotation::Generator, Polarity::Negative, Axis::Z) => {
            (Polarity::Negative, Axis::X, Rotation::Identity)
        },
        (Polarity::Negative, Axis::Y, Rotation::Double, Polarity::Positive, Axis::X) => {
            (Polarity::Negative, Axis::Z, Rotation::Identity)
        },
        (Polarity::Negative, Axis::Y, Rotation::Double, Polarity::Positive, Axis::Y) => {
            (Polarity::Negative, Axis::Y, Rotation::Prime)
        },
        (Polarity::Negative, Axis::Y, Rotation::Double, Polarity::Positive, Axis::Z) => {
            (Polarity::Positive, Axis::X, Rotation::Identity)
        },
        (Polarity::Negative, Axis::Y, Rotation::Double, Polarity::Negative, Axis::X) => {
            (Polarity::Positive, Axis::Z, Rotation::Generator)
        },
        (Polarity::Negative, Axis::Y, Rotation::Double, Polarity::Negative, Axis::Y) => {
            (Polarity::Negative, Axis::Y, Rotation::Generator)
        },
        (Polarity::Negative, Axis::Y, Rotation::Double, Polarity::Negative, Axis::Z) => {
            (Polarity::Negative, Axis::X, Rotation::Prime)
        },
        (Polarity::Negative, Axis::Y, Rotation::Prime, Polarity::Positive, Axis::X) => {
            (Polarity::Negative, Axis::Z, Rotation::Generator)
        },
        (Polarity::Negative, Axis::Y, Rotation::Prime, Polarity::Positive, Axis::Y) => {
            (Polarity::Negative, Axis::Y, Rotation::Identity)
        },
        (Polarity::Negative, Axis::Y, Rotation::Prime, Polarity::Positive, Axis::Z) => {
            (Polarity::Positive, Axis::X, Rotation::Double)
        },
        (Polarity::Negative, Axis::Y, Rotation::Prime, Polarity::Negative, Axis::X) => {
            (Polarity::Positive, Axis::Z, Rotation::Identity)
        },
        (Polarity::Negative, Axis::Y, Rotation::Prime, Polarity::Negative, Axis::Y) => {
            (Polarity::Negative, Axis::Y, Rotation::Double)
        },
        (Polarity::Negative, Axis::Y, Rotation::Prime, Polarity::Negative, Axis::Z) => {
            (Polarity::Negative, Axis::X, Rotation::Generator)
        },
        (Polarity::Negative, Axis::Z, Rotation::Identity, Polarity::Positive, Axis::X) => {
            (Polarity::Positive, Axis::Y, Rotation::Prime)
        },
        (Polarity::Negative, Axis::Z, Rotation::Identity, Polarity::Positive, Axis::Y) => {
            (Polarity::Negative, Axis::X, Rotation::Generator)
        },
        (Polarity::Negative, Axis::Z, Rotation::Identity, Polarity::Positive, Axis::Z) => {
            (Polarity::Negative, Axis::Z, Rotation::Generator)
        },
        (Polarity::Negative, Axis::Z, Rotation::Identity, Polarity::Negative, Axis::X) => {
            (Polarity::Negative, Axis::Y, Rotation::Double)
        },
        (Polarity::Negative, Axis::Z, Rotation::Identity, Polarity::Negative, Axis::Y) => {
            (Polarity::Positive, Axis::X, Rotation::Prime)
        },
        (Polarity::Negative, Axis::Z, Rotation::Identity, Polarity::Negative, Axis::Z) => {
            (Polarity::Negative, Axis::Z, Rotation::Double)
        },
        (Polarity::Negative, Axis::Z, Rotation::Generator, Polarity::Positive, Axis::X) => {
            (Polarity::Positive, Axis::Y, Rotation::Double)
        },
        (Polarity::Negative, Axis::Z, Rotation::Generator, Polarity::Positive, Axis::Y) => {
            (Polarity::Negative, Axis::X, Rotation::Double)
        },
        (Polarity::Negative, Axis::Z, Rotation::Generator, Polarity::Positive, Axis::Z) => {
            (Polarity::Negative, Axis::Z, Rotation::Prime)
        },
        (Polarity::Negative, Axis::Z, Rotation::Generator, Polarity::Negative, Axis::X) => {
            (Polarity::Negative, Axis::Y, Rotation::Prime)
        },
        (Polarity::Negative, Axis::Z, Rotation::Generator, Polarity::Negative, Axis::Y) => {
            (Polarity::Positive, Axis::X, Rotation::Identity)
        },
        (Polarity::Negative, Axis::Z, Rotation::Generator, Polarity::Negative, Axis::Z) => {
            (Polarity::Negative, Axis::Z, Rotation::Identity)
        },
        (Polarity::Negative, Axis::Z, Rotation::Double, Polarity::Positive, Axis::X) => {
            (Polarity::Positive, Axis::Y, Rotation::Identity)
        },
        (Polarity::Negative, Axis::Z, Rotation::Double, Polarity::Positive, Axis::Y) => {
            (Polarity::Negative, Axis::X, Rotation::Prime)
        },
        (Polarity::Negative, Axis::Z, Rotation::Double, Polarity::Positive, Axis::Z) => {
            (Polarity::Negative, Axis::Z, Rotation::Identity)
        },
        (Polarity::Negative, Axis::Z, Rotation::Double, Polarity::Negative, Axis::X) => {
            (Polarity::Negative, Axis::Y, Rotation::Generator)
        },
        (Polarity::Negative, Axis::Z, Rotation::Double, Polarity::Negative, Axis::Y) => {
            (Polarity::Positive, Axis::X, Rotation::Generator)
        },
        (Polarity::Negative, Axis::Z, Rotation::Double, Polarity::Negative, Axis::Z) => {
            (Polarity::Negative, Axis::Z, Rotation::Prime)
        },
        (Polarity::Negative, Axis::Z, Rotation::Prime, Polarity::Positive, Axis::X) => {
            (Polarity::Positive, Axis::Y, Rotation::Generator)
        },
        (Polarity::Negative, Axis::Z, Rotation::Prime, Polarity::Positive, Axis::Y) => {
            (Polarity::Negative, Axis::X, Rotation::Identity)
        },
        (Polarity::Negative, Axis::Z, Rotation::Prime, Polarity::Positive, Axis::Z) => {
            (Polarity::Negative, Axis::Z, Rotation::Double)
        },
        (Polarity::Negative, Axis::Z, Rotation::Prime, Polarity::Negative, Axis::X) => {
            (Polarity::Negative, Axis::Y, Rotation::Identity)
        },
        (Polarity::Negative, Axis::Z, Rotation::Prime, Polarity::Negative, Axis::Y) => {
            (Polarity::Positive, Axis::X, Rotation::Double)
        },
        (Polarity::Negative, Axis::Z, Rotation::Prime, Polarity::Negative, Axis::Z) => {
            (Polarity::Negative, Axis::Z, Rotation::Generator)
        },
    };

    Orientation { direction: Direction { polarity, axis }, rotation }
}

/// Fills the transition table: the entry at
/// `around.combination() + orientation.combination() * 6` is the orientation
/// that a quarter turn about `around` makes of `orientation`.
pub fn generate_rotations() -> (rotations: [Orientation; 144])
    ensures
        forall|orientation: Orientation, around: Direction|
            #[trigger] rotations[orientation.spec_rotation_combination(around)] == spec_rotate(
                orientation,
                around,
            ),
{
    let mut rotations = [Orientation::default(); 144];
    let mut index: usize = 0;
    while index < 144
        invariant
            index <= 144,
            forall|done: int|
                0 <= done < index ==> #[trigger] rotations[done] == orientation_at(
                    table_turn((done / 6) as usize, (done % 6) as usize) as int,
                ),
        decreases 144 - index,
    {
        let orientation = Orientation::from_combination(index / 6);
        let around = Direction::from_combination(index % 6);
        rotations[index] = rotate(orientation, around);
        index += 1;
    }
    proof {
        assert forall|orientation: Orientation, around: Direction|
            #[trigger] rotations[orientation.spec_rotation_combination(around)] == spec_rotate(
                orientation,
                around,
            ) by {
            let at = orientation.spec_rotation_combination(around);
            assert(0 <= at < 144);
            assert(at / 6 == orientation.spec_combination());
            assert(at % 6 == around.spec_combination());
        }
    }
    rotations
}

/// A quarter turn of one of the 24 orientations is one of the 24
/// orientations: the table holds no entry outside 0..24, and the entry of a
/// pair is the dense index of the turned orientation.
pub proof fn lemma_rotate_closed(orientation: Orientation, around: Direction)
    ensures
        0 <= orientation.spec_combination() < 24,
        0 <= around.spec_combination() < 6,
        table_turn(orientation.spec_combination() as usize, around.spec_combination() as usize)
            < 24,
        spec_rotate(orientation, around).spec_combination() == table_turn(
            orientation.spec_combination() as usize,
            around.spec_combination() as usize,
        ),
{
}

#[verifier::spinoff_prover]
/// Four turns about one direction lead back, entry by entry of the table:
/// one case for each entry.
proof fn lemma_table_period_four(from: usize, around: usize)
    requires
        from < 24,
        around < 6,
    ensures
        table_turn(from, around) < 24,
        table_turn(table_turn(from, around), around) < 24,
        table_turn(table_turn(table_turn(from, around), around), around) < 24,
        table_turn(
            table_turn(table_turn(table_turn(from, around), around), around),
            around,
        ) == from,
{
    if around == 0 {
        if from == 0 {
        } else if from == 1 {
        } else if from == 2 {
        } else if from == 3 {
        } else if from == 4 {
        } else if from == 5 {
        } else if from == 6 {
        } else if from == 7 {
        } else if from == 8 {
        } else if from == 9 {
        } else if from == 10 {
        } else if from == 11 {
        } else if from == 12 {
        } else if from == 13 {
        } else if from == 14 {
        } else if from == 15 {
        } else if from == 16 {
        } else if from == 17 {
        } else if from == 18 {
        } else if from == 19 {
        } else if from == 20 {
        } else if from == 21 {
        } else if from == 22 {
        } else if from == 23 {
        }
    } else if around == 1 {
        if from == 0 {
        } else if from == 1 {
        } else if from == 2 {
        } else if from == 3 {
        } else if from == 4 {
        } else if from == 5 {
        } else if from == 6 {
        } else if from == 7 {
        } else if from == 8 {
        } else if from == 9 {
        } else if from == 10 {
        } else if from == 11 {
        } else if from == 12 {
        } else if from == 13 {
        } else if from == 14 {
        } else if from == 15 {
        } else if from == 16 {
        } else if from == 17 {
        } else if from == 18 {
        } else if from == 19 {
        } else if from == 20 {
        } else if from == 21 {
        } else if from == 22 {
        } else if from == 23 {
        }
    } else if around == 2 {
        if from == 0 {
        } else if from == 1 {
        } else if from == 2 {
        } else if from == 3 {
        } else if from == 4 {
        } else if from == 5 {
        } else if from == 6 {
        } else if from == 7 {
        } else if from == 8 {
        } else if from == 9 {
        } else if from == 10 {
        } else if from == 11 {
        } else if from == 12 {
        } else if from == 13 {
        } else if from == 14 {
        } else if from == 15 {
        } else if from == 16 {
        } else if from == 17 {
        } else if from == 18 {
        } else if from == 19 {
        } else if from == 20 {
        } else if from == 21 {
        } else if from == 22 {
        } else if from == 23 {
        }
    } else if around == 3 {
        if from == 0 {
        } else if from == 1 {
        } else if from == 2 {
        } else if from == 3 {
        } else if from == 4 {
        } else if from == 5 {
        } else if from == 6 {
        } else if from == 7 {
        } else if from == 8 {
        } else if from == 9 {
        } else if from == 10 {
        } else if from == 11 {
        } else if from == 12 {
        } else if from == 13 {
        } else if from == 14 {
        } else if from == 15 {
        } else if from == 16 {
        } else if from == 17 {
        } else if from == 18 {
        } else if from == 19 {
        } else if from == 20 {
        } else if from == 21 {
        } else if from == 22 {
        } else if from == 23 {
        }
    } else if around == 4 {
        if from == 0 {
        } else if from == 1 {
        } else if from == 2 {
        } else if from == 3 {
        } else if from == 4 {
        } else if from == 5 {
        } else if from == 6 {
        } else if from == 7 {
        } else if from == 8 {
        } else if from == 9 {
        } else if from == 10 {
        } else if from == 11 {
        } else if from == 12 {
        } else if from == 13 {
        } else if from == 14 {
        } else if from == 15 {
        } else if from == 16 {
        } else if from == 17 {
        } else if from == 18 {
        } else if from == 19 {
        } else if from == 20 {
        } else if from == 21 {
        } else if from == 22 {
        } else if from == 23 {
        }
    } else if around == 5 {
        if from == 0 {
        } else if from == 1 {
        } else if from == 2 {
        } else if from == 3 {
        } else if from == 4 {
        } else if from == 5 {
        } else if from == 6 {
        } else if from == 7 {
        } else if from == 8 {
        } else if from == 9 {
        } else if from == 10 {
        } else if from == 11 {
        } else if from == 12 {
        } else if from == 13 {
        } else if from == 14 {
        } else if from == 15 {
        } else if from == 16 {
        } else if from == 17 {
        } else if from == 18 {
        } else if from == 19 {
        } else if from == 20 {
        } else if from == 21 {
        } else if from == 22 {
        } else if from == 23 {
        }
    }
}

/// Four quarter turns about one direction bring every orientation back to
/// itself.
pub proof fn lemma_rotate_period_four(orientation: Orientation, around: Direction)
    ensures
        spec_rotate(
            spec_rotate(spec_rotate(spec_rotate(orientation, around), around), around),
            around,
        ) == orientation,
{
    let first = spec_rotate(orientation, around);
    let second = spec_rotate(first, around);
    let third = spec_rotate(second, around);
    let from = orientation.spec_combination() as usize;
    let about = around.spec_combination() as usize;
    lemma_table_period_four(from, about);
    lemma_rotate_closed(orientation, around);
    lemma_rotate_closed(first, around);
    lemma_rotate_closed(second, around);
    lemma_rotate_closed(third, around);
    lemma_index_names_orientation(orientation);
}

/// An orientation is the one that its dense index names.
pub proof fn lemma_index_names_orientation(orientation: Orientation)
    ensures
        0 <= orientation.spec_combination() < 24,
        orientation_at(orientation.spec_combination()) == orientation,
{
}

/// A quarter turn about the opposite direction undoes a quarter turn.
pub proof fn lemma_rotate_opposite_undoes(orientation: Orientation, around: Direction)
    ensures
        spec_rotate(spec_rotate(orientation, around), around.spec_opposite()) == orientation,
{
    lemma_rotate_closed(orientation, around);
    lemma_rotate_closed(spec_rotate(orientation, around), around.spec_opposite());
    lemma_index_names_orientation(orientation);
}

/// A quarter turn about the axis of the orientation's own direction keeps
/// that direction and changes the rotation; a quarter turn about another axis
/// changes the direction.
pub proof fn lemma_rotate_direction(orientation: Orientation, around: Direction)
    ensures
        around.axis == orientation.direction.axis ==> {
            &&& spec_rotate(orientation, around).direction == orientation.direction
            &&& spec_rotate(orientation, around).rotation != orientation.rotation
        },
        around.axis != orientation.direction.axis ==> spec_rotate(orientation, around).direction
            != orientation.direction,
{
    lemma_rotate_closed(orientation, around);
}

} // verus!
