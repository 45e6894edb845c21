//! How the table of quarter turns and the catalog of shapes agree.

use vstd::prelude::*;
use crate::axis::Axis;
use crate::bitfield::{canonical_cells, in_cube, rotated_cells, spec_rotation_size};
use crate::catalog::{
    is_catalog_entry, lemma_canonical_in_cube, neg_x, neg_y, neg_z, oriented_cells, pos_x, pos_y,
    pos_z, spec_rotation_sequence, turn_all,
};
use crate::direction::{lemma_opposite_turn_undoes, Cell, Direction};
use crate::orientation::Orientation;
use crate::polarity::Polarity;
use crate::rotation::Rotation;
use crate::rotations::{
    lemma_index_names_orientation, lemma_rotate_closed, orientation_at, spec_rotate, table_turn,
};
use crate::shape::Shape;
use crate::shape_id::ShapeId;
use crate::tetromino::Tetromino;

verus! {

/// The cell that the quarter turns of `turns`, made one after another in
/// the cube of edge `size`, carry onto `cell`.
pub open spec fn carried_from(turns: Seq<Direction>, cell: Cell, size: int) -> Cell
    decreases turns.len(),
{
    if turns.len() == 0 {
        cell
    } else {
        carried_from(
            turns.drop_last(),
            turns.last().spec_opposite().spec_rotate_coordinate(cell, size),
            size,
        )
    }
}

/// After quarter turns in a cube, a cell of the cube is filled where the
/// cell that the turns carry onto it was filled before.
pub proof fn lemma_turned_cell(cells: Set<Cell>, turns: Seq<Direction>, size: int, cell: Cell)
    requires
        forall|filled: Cell| #[trigger] cells.contains(filled) ==> in_cube(filled, size),
    ensures
        turn_all(cells, turns, size).contains(cell) <==> (in_cube(cell, size) && cells.contains(
            carried_from(turns, cell, size),
        )),
    decreases turns.len(),
{
    if turns.len() > 0 {
        let back = turns.last().spec_opposite();
        let source = back.spec_rotate_coordinate(cell, size);
        lemma_turned_cell(cells, turns.drop_last(), size, source);
        if in_cube(cell, size) {
            lemma_opposite_turn_undoes(back, cell, size);
        }
    }
}

/// No turn carries a cell onto itself.
pub proof fn lemma_carried_by_none(cell: Cell, size: int)
    ensures
        carried_from(Seq::empty(), cell, size) == cell,
{
}

/// The cell that one turn carries onto a cell.
pub proof fn lemma_carried_by_one(first: Direction, cell: Cell, size: int)
    ensures
        carried_from(seq![first], cell, size) == first.spec_opposite().spec_rotate_coordinate(
            cell,
            size,
        ),
{
    let source = first.spec_opposite().spec_rotate_coordinate(cell, size);
    assert(seq![first].drop_last() =~= Seq::<Direction>::empty());
    assert(seq![first].last() == first);
    lemma_carried_by_none(source, size);
}

/// The cell that two turns carry onto a cell.
pub proof fn lemma_carried_by_two(first: Direction, second: Direction, cell: Cell, size: int)
    ensures
        carried_from(seq![first, second], cell, size)
            == first.spec_opposite().spec_rotate_coordinate(
            second.spec_opposite().spec_rotate_coordinate(cell, size),
            size,
        ),
{
    assert(seq![first, second].drop_last() =~= seq![first]);
    lemma_carried_by_one(first, second.spec_opposite().spec_rotate_coordinate(cell, size), size);
}

/// The cell that three turns carry onto a cell.
pub proof fn lemma_carried_by_three(
    first: Direction,
    second: Direction,
    third: Direction,
    cell: Cell,
    size: int,
)
    ensures
        carried_from(seq![first, second, third], cell, size)
            == first.spec_opposite().spec_rotate_coordinate(
            second.spec_opposite().spec_rotate_coordinate(
                third.spec_opposite().spec_rotate_coordinate(cell, size),
                size,
            ),
            size,
        ),
{
    assert(seq![first, second, third].drop_last() =~= seq![first, second]);
    lemma_carried_by_two(
        first,
        second,
        third.spec_opposite().spec_rotate_coordinate(cell, size),
        size,
    );
}

/// The table of quarter turns agrees with the turns that carry the
/// reference attitude into each orientation: the turns into the turned
/// orientation carry the same cell onto a cell as the turns into the
/// orientation, followed by the quarter turn. One case for each entry of
/// the table.
pub proof fn lemma_table_agrees_with_turns(
    orientation: Orientation,
    around: Direction,
    cell: Cell,
    size: int,
)
    ensures
        carried_from(
            spec_rotation_sequence(spec_rotate(orientation, around)),
            cell,
            size,
        ) == carried_from(
            spec_rotation_sequence(orientation),
            around.spec_opposite().spec_rotate_coordinate(cell, size),
            size,
        ),
{
    let source = around.spec_opposite().spec_rotate_coordinate(cell, size);
    lemma_rotate_closed(orientation, around);
    match (
        orientation.direction.polarity,
        orientation.direction.axis,
        orientation.rotation,
        around.polarity,
        around.axis,
    ) {
        (Polarity::Positive, Axis::X, Rotation::Identity, Polarity::Positive, Axis::X) => {
            assert(spec_rotate(orientation, around) == Orientation {
                direction: Direction { polarity: Polarity::Positive, axis: Axis::X },
                rotation: Rotation::Prime,
            });
            lemma_carried_by_three(pos_y(), neg_z(), pos_x(), cell, size);
            lemma_carried_by_two(pos_y(), neg_z(), source, size);
        },
        (Polarity::Positive, Axis::X, Rotation::Identity, Polarity::Positive, Axis::Y) => {
            assert(spec_rotate(orientation, around) == Orientation {
                direction: Direction { polarity: Polarity::Negative, axis: Axis::Z },
                rotation: Rotation::Generator,
            });
            lemma_carried_by_three(pos_y(), neg_x(), neg_z(), cell, size);
            lemma_carried_by_two(pos_y(), neg_z(), source, size);
        },
        (Polarity::Positive, Axis::X, Rotation::Identity, Polarity::Positive, Axis::Z) => {
            assert(spec_rotate(orientation, around) == Orientation {
                direction: Direction { polarity: Polarity::Positive, axis: Axis::Y },
                rotation: Rotation::Generator,
            });
            lemma_carried_by_one(pos_y(), cell, size);
            lemma_carried_by_two(pos_y(), neg_z(), source, size);
        },
        (Polarity::Positive, Axis::X, Rotation::Identity, Polarity::Negative, Axis::X) => {
            assert(spec_rotate(orientation, around) == Orientation {
                direction: Direction { polarity: Polarity::Positive, axis: Axis::X },
                rotation: Rotation::Double,
            });
            lemma_carried_by_one(neg_z(), cell, size);
            lemma_carried_by_two(pos_y(), neg_z(), source, size);
        },
        (Polarity::Positive, Axis::X, Rotation::Identity, Polarity::Negative, Axis::Y) => {
            assert(spec_rotate(orientation, around) == Orientation {
                direction: Direction { polarity: Polarity::Positive, axis: Axis::Z },
                rotation: Rotation::Prime,
            });
            lemma_carried_by_one(pos_x(), cell, size);
            lemma_carried_by_two(pos_y(), neg_z(), source, size);
        },
        (Polarity::Positive, Axis::X, Rotation::Identity, Polarity::Negative, Axis::Z) => {
            assert(spec_rotate(orientation, around) == Orientation {
                direction: Direction { polarity: Polarity::Negative, axis: Axis::Y },
                rotation: Rotation::Double,
            });
            lemma_carried_by_three(neg_z(), pos_x(), neg_z(), cell, size);
            lemma_carried_by_two(pos_y(), neg_z(), source, size);
        },
        (Polarity::Positive, Axis::X, Rotation::Generator, Polarity::Positive, Axis::X) => {
            assert(spec_rotate(orientation, around) == Orientation {
                direction: Direction { polarity: Polarity::Positive, axis: Axis::X },
                rotation: Rotation::Double,
            });
            lemma_carried_by_one(neg_z(), cell, size);
            lemma_carried_by_two(neg_z(), neg_x(), source, size);
        },
        (Polarity::Positive, Axis::X, Rotation::Generator, Polarity::Positive, Axis::Y) => {
            assert(spec_rotate(orientation, around) == Orientation {
                direction: Direction { polarity: Polarity::Negative, axis: Axis::Z },
                rotation: Rotation::Double,
            });
            lemma_carried_by_one(neg_x(), cell, size);
            lemma_carried_by_two(neg_z(), neg_x(), source, size);
        },
        (Polarity::Positive, Axis::X, Rotation::Generator, Polarity::Positive, Axis::Z) => {
            assert(spec_rotate(orientation, around) == Orientation {
                direction: Direction { polarity: Polarity::Positive, axis: Axis::Y },
                rotation: Rotation::Prime,
            });
            lemma_carried_by_one(neg_y(), cell, size);
            lemma_carried_by_two(neg_z(), neg_x(), source, size);
        },
        (Polarity::Positive, Axis::X, Rotation::Generator, Polarity::Negative, Axis::X) => {
            assert(spec_rotate(orientation, around) == Orientation {
                direction: Direction { polarity: Polarity::Positive, axis: Axis::X },
                rotation: Rotation::Prime,
            });
            lemma_carried_by_three(pos_y(), neg_z(), pos_x(), cell, size);
            lemma_carried_by_two(neg_z(), neg_x(), source, size);
        },
        (Polarity::Positive, Axis::X, Rotation::Generator, Polarity::Negative, Axis::Y) => {
            assert(spec_rotate(orientation, around) == Orientation {
                direction: Direction { polarity: Polarity::Positive, axis: Axis::Z },
                rotation: Rotation::Identity,
            });
            lemma_carried_by_three(neg_z(), neg_y(), neg_z(), cell, size);
            lemma_carried_by_two(neg_z(), neg_x(), source, size);
        },
        (Polarity::Positive, Axis::X, Rotation::Generator, Polarity::Negative, Axis::Z) => {
            assert(spec_rotate(orientation, around) == Orientation {
                direction: Direction { polarity: Polarity::Negative, axis: Axis::Y },
                rotation: Rotation::Identity,
            });
            lemma_carried_by_three(pos_x(), neg_y(), pos_z(), cell, size);
            lemma_carried_by_two(neg_z(), neg_x(), source, size);
        },
        (Polarity::Positive, Axis::X, Rotation::Double, Polarity::Positive, Axis::X) => {
            assert(spec_rotate(orientation, around) == Orientation {
                direction: Direction { polarity: Polarity::Positive, axis: Axis::X },
                rotation: Rotation::Identity,
            });
            lemma_carried_by_two(pos_y(), neg_z(), cell, size);
            lemma_carried_by_one(neg_z(), source, size);
        },
        (Polarity::Positive, Axis::X, Rotation::Double, Polarity::Positive, Axis::Y) => {
            assert(spec_rotate(orientation, around) == Orientation {
                direction: Direction { polarity: Polarity::Negative, axis: Axis::Z },
                rotation: Rotation::Prime,
            });
            lemma_carried_by_two(neg_x(), neg_z(), cell, size);
            lemma_carried_by_one(neg_z(), source, size);
        },
        (Polarity::Positive, Axis::X, Rotation::Double, Polarity::Positive, Axis::Z) => {
            assert(spec_rotate(orientation, around) == Orientation {
                direction: Direction { polarity: Polarity::Positive, axis: Axis::Y },
                rotation: Rotation::Identity,
            });
            lemma_carried_by_none(cell, size);
            lemma_carried_by_one(neg_z(), source, size);
        },
        (Polarity::Positive, Axis::X, Rotation::Double, Polarity::Negative, Axis::X) => {
            assert(spec_rotate(orientation, around) == Orientation {
                direction: Direction { polarity: Polarity::Positive, axis: Axis::X },
                rotation: Rotation::Generator,
            });
            lemma_carried_by_two(neg_z(), neg_x(), cell, size);
            lemma_carried_by_one(neg_z(), source, size);
        },
        (Polarity::Positive, Axis::X, Rotation::Double, Polarity::Negative, Axis::Y) => {
            assert(spec_rotate(orientation, around) == Orientation {
                direction: Direction { polarity: Polarity::Positive, axis: Axis::Z },
                rotation: Rotation::Generator,
            });
            lemma_carried_by_two(pos_x(), neg_z(), cell, size);
            lemma_carried_by_one(neg_z(), source, size);
        },
        (Polarity::Positive, Axis::X, Rotation::Double, Polarity::Negative, Axis::Z) => {
            assert(spec_rotate(orientation, around) == Orientation {
                direction: Direction { polarity: Polarity::Negative, axis: Axis::Y },
                rotation: Rotation::Prime,
            });
            lemma_carried_by_two(pos_z(), pos_z(), cell, size);
            lemma_carried_by_one(neg_z(), source, size);
        },
        (Polarity::Positive, Axis::X, Rotation::Prime, Polarity::Positive, Axis::X) => {
            assert(spec_rotate(orientation, around) == Orientation {
                direction: Direction { polarity: Polarity::Positive, axis: Axis::X },
                rotation: Rotation::Generator,
            });
            lemma_carried_by_two(neg_z(), neg_x(), cell, size);
            lemma_carried_by_three(pos_y(), neg_z(), pos_x(), source, size);
        },
        (Polarity::Positive, Axis::X, Rotation::Prime, Polarity::Positive, Axis::Y) => {
            assert(spec_rotate(orientation, around) == Orientation {
                direction: Direction { polarity: Polarity::Negative, axis: Axis::Z },
                rotation: Rotation::Identity,
            });
            lemma_carried_by_two(neg_x(), pos_z(), cell, size);
            lemma_carried_by_three(pos_y(), neg_z(), pos_x(), source, size);
        },
        (Polarity::Positive, Axis::X, Rotation::Prime, Polarity::Positive, Axis::Z) => {
            assert(spec_rotate(orientation, around) == Orientation {
                direction: Direction { polarity: Polarity::Positive, axis: Axis::Y },
                rotation: Rotation::Double,
            });
            lemma_carried_by_two(pos_y(), pos_y(), cell, size);
            lemma_carried_by_three(pos_y(), neg_z(), pos_x(), source, size);
        },
        (Polarity::Positive, Axis::X, Rotation::Prime, Polarity::Negative, Axis::X) => {
            assert(spec_rotate(orientation, around) == Orientation {
                direction: Direction { polarity: Polarity::Positive, axis: Axis::X },
                rotation: Rotation::Identity,
            });
            lemma_carried_by_two(pos_y(), neg_z(), cell, size);
            lemma_carried_by_three(pos_y(), neg_z(), pos_x(), source, size);
        },
        (Polarity::Positive, Axis::X, Rotation::Prime, Polarity::Negative, Axis::Y) => {
            assert(spec_rotate(orientation, around) == Orientation {
                direction: Direction { polarity: Polarity::Positive, axis: Axis::Z },
                rotation: Rotation::Double,
            });
            lemma_carried_by_two(pos_x(), pos_z(), cell, size);
            lemma_carried_by_three(pos_y(), neg_z(), pos_x(), source, size);
        },
        (Polarity::Positive, Axis::X, Rotation::Prime, Polarity::Negative, Axis::Z) => {
            assert(spec_rotate(orientation, around) == Orientation {
                direction: Direction { polarity: Polarity::Negative, axis: Axis::Y },
                rotation: Rotation::Generator,
            });
            lemma_carried_by_two(pos_x(), pos_x(), cell, size);
            lemma_carried_by_three(pos_y(), neg_z(), pos_x(), source, size);
        },
        (Polarity::Positive, Axis::Y, Rotation::Identity, Polarity::Positive, Axis::X) => {
            assert(spec_rotate(orientation, around) == Orientation {
                direction: Direction { polarity: Polarity::Positive, axis: Axis::Z },
                rotation: Rotation::Prime,
            });
            lemma_carried_by_one(pos_x(), cell, size);
            lemma_carried_by_none(source, size);
        },
        (Polarity::Positive, Axis::Y, Rotation::Identity, Polarity::Positive, Axis::Y) => {
            assert(spec_rotate(orientation, around) == Orientation {
                direction: Direction { polarity: Polarity::Positive, axis: Axis::Y },
                rotation: Rotation::Generator,
            });
            lemma_carried_by_one(pos_y(), cell, size);
            lemma_carried_by_none(source, size);
        },
        (Polarity::Positive, Axis::Y, Rotation::Identity, Polarity::Positive, Axis::Z) => {
            assert(spec_rotate(orientation, around) == Orientation {
                direction: Direction { polarity: Polarity::Negative, axis: Axis::X },
                rotation: Rotation::Generator,
            });
            lemma_carried_by_one(pos_z(), cell, size);
            lemma_carried_by_none(source, size);
        },
        (Polarity::Positive, Axis::Y, Rotation::Identity, Polarity::Negative, Axis::X) => {
            assert(spec_rotate(orientation, around) == Orientation {
                direction: Direction { polarity: Polarity::Negative, axis: Axis::Z },
                rotation: Rotation::Double,
            });
            lemma_carried_by_one(neg_x(), cell, size);
            lemma_carried_by_none(source, size);
        },
        (Polarity::Positive, Axis::Y, Rotation::Identity, Polarity::Negative, Axis::Y) => {
            assert(spec_rotate(orientation, around) == Orientation {
                direction: Direction { polarity: Polarity::Positive, axis: Axis::Y },
                rotation: Rotation::Prime,
            });
            lemma_carried_by_one(neg_y(), cell, size);
            lemma_carried_by_none(source, size);
        },
        (Polarity::Positive, Axis::Y, Rotation::Identity, Polarity::Negative, Axis::Z) => {
            assert(spec_rotate(orientation, around) == Orientation {
                direction: Direction { polarity: Polarity::Positive, axis: Axis::X },
                rotation: Rotation::Double,
            });
            lemma_carried_by_one(neg_z(), cell, size);
            lemma_carried_by_none(source, size);
        },
        (Polarity::Positive, Axis::Y, Rotation::Generator, Polarity::Positive, Axis::X) => {
            assert(spec_rotate(orientation, around) == Orientation {
                direction: Direction { polarity: Polarity::Positive, axis: Axis::Z },
                rotation: Rotation::Double,
            });
            lemma_carried_by_two(pos_x(), pos_z(), cell, size);
            lemma_carried_by_one(pos_y(), source, size);
        },
        (Polarity::Positive, Axis::Y, Rotation::Generator, Polarity::Positive, Axis::Y) => {
            assert(spec_rotate(orientation, around) == Orientation {
                direction: Direction { polarity: Polarity::Positive, axis: Axis::Y },
                rotation: Rotation::Double,
            });
            lemma_carried_by_two(pos_y(), pos_y(), cell, size);
            lemma_carried_by_one(pos_y(), source, size);
        },
        (Polarity::Positive, Axis::Y, Rotation::Generator, Polarity::Positive, Axis::Z) => {
            assert(spec_rotate(orientation, around) == Orientation {
                direction: Direction { polarity: Polarity::Negative, axis: Axis::X },
                rotation: Rotation::Prime,
            });
            lemma_carried_by_two(pos_z(), neg_x(), cell, size);
            lemma_carried_by_one(pos_y(), source, size);
        },
        (Polarity::Positive, Axis::Y, Rotation::Generator, Polarity::Negative, Axis::X) => {
            assert(spec_rotate(orientation, around) == Orientation {
                direction: Direction { polarity: Polarity::Negative, axis: Axis::Z },
                rotation: Rotation::Prime,
            });
            lemma_carried_by_two(neg_x(), neg_z(), cell, size);
            lemma_carried_by_one(pos_y(), source, size);
        },
        (Polarity::Positive, Axis::Y, Rotation::Generator, Polarity::Negative, Axis::Y) => {
            assert(spec_rotate(orientation, around) == Orientation {
                direction: Direction { polarity: Polarity::Positive, axis: Axis::Y },
                rotation: Rotation::Identity,
            });
            lemma_carried_by_none(cell, size);
            lemma_carried_by_one(pos_y(), source, size);
        },
        (Polarity::Positive, Axis::Y, Rotation::Generator, Polarity::Negative, Axis::Z) => {
            assert(spec_rotate(orientation, around) == Orientation {
                direction: Direction { polarity: Polarity::Positive, axis: Axis::X },
                rotation: Rotation::Identity,
            });
            lemma_carried_by_two(pos_y(), neg_z(), cell, size);
            lemma_carried_by_one(pos_y(), source, size);
        },
        (Polarity::Positive, Axis::Y, Rotation::Double, Polarity::Positive, Axis::X) => {
            assert(spec_rotate(orientation, around) == Orientation {
                direction: Direction { polarity: Polarity::Positive, axis: Axis::Z },
                rotation: Rotation::Identity,
            });
            lemma_carried_by_three(neg_z(), neg_y(), neg_z(), cell, size);
            lemma_carried_by_two(pos_y(), pos_y(), source, size);
        },
        (Polarity::Positive, Axis::Y, Rotation::Double, Polarity::Positive, Axis::Y) => {
            assert(spec_rotate(orientation, around) == Orientation {
                direction: Direction { polarity: Polarity::Positive, axis: Axis::Y },
                rotation: Rotation::Prime,
            });
            lemma_carried_by_one(neg_y(), cell, size);
            lemma_carried_by_two(pos_y(), pos_y(), source, size);
        },
        (Polarity::Positive, Axis::Y, Rotation::Double, Polarity::Positive, Axis::Z) => {
            assert(spec_rotate(orientation, around) == Orientation {
                direction: Direction { polarity: Polarity::Negative, axis: Axis::X },
                rotation: Rotation::Identity,
            });
            lemma_carried_by_three(neg_y(), pos_z(), pos_x(), cell, size);
            lemma_carried_by_two(pos_y(), pos_y(), source, size);
        },
        (Polarity::Positive, Axis::Y, Rotation::Double, Polarity::Negative, Axis::X) => {
            assert(spec_rotate(orientation, around) == Orientation {
                direction: Direction { polarity: Polarity::Negative, axis: Axis::Z },
                rotation: Rotation::Generator,
            });
            lemma_carried_by_three(pos_y(), neg_x(), neg_z(), cell, size);
            lemma_carried_by_two(pos_y(), pos_y(), source, size);
        },
        (Polarity::Positive, Axis::Y, Rotation::Double, Polarity::Negative, Axis::Y) => {
            assert(spec_rotate(orientation, around) == Orientation {
                direction: Direction { polarity: Polarity::Positive, axis: Axis::Y },
                rotation: Rotation::Generator,
            });
            lemma_carried_by_one(pos_y(), cell, size);
            lemma_carried_by_two(pos_y(), pos_y(), source, size);
        },
        (Polarity::Positive, Axis::Y, Rotation::Double, Polarity::Negative, Axis::Z) => {
            assert(spec_rotate(orientation, around) == Orientation {
                direction: Direction { polarity: Polarity::Positive, axis: Axis::X },
                rotation: Rotation::Prime,
            });
            lemma_carried_by_three(pos_y(), neg_z(), pos_x(), cell, size);
            lemma_carried_by_two(pos_y(), pos_y(), source, size);
        },
        (Polarity::Positive, Axis::Y, Rotation::Prime, Polarity::Positive, Axis::X) => {
            assert(spec_rotate(orientation, around) == Orientation {
                direction: Direction { polarity: Polarity::Positive, axis: Axis::Z },
                rotation: Rotation::Generator,
            });
            lemma_carried_by_two(pos_x(), neg_z(), cell, size);
            lemma_carried_by_one(neg_y(), source, size);
        },
        (Polarity::Positive, Axis::Y, Rotation::Prime, Polarity::Positive, Axis::Y) => {
            assert(spec_rotate(orientation, around) == Orientation {
                direction: Direction { polarity: Polarity::Positive, axis: Axis::Y },
                rotation: Rotation::Identity,
            });
            lemma_carried_by_none(cell, size);
            lemma_carried_by_one(neg_y(), source, size);
        },
        (Polarity::Positive, Axis::Y, Rotation::Prime, Polarity::Positive, Axis::Z) => {
            assert(spec_rotate(orientation, around) == Orientation {
                direction: Direction { polarity: Polarity::Negative, axis: Axis::X },
                rotation: Rotation::Double,
            });
            lemma_carried_by_two(neg_y(), pos_z(), cell, size);
            lemma_carried_by_one(neg_y(), source, size);
        },
        (Polarity::Positive, Axis::Y, Rotation::Prime, Polarity::Negative, Axis::X) => {
            assert(spec_rotate(orientation, around) == Orientation {
                direction: Direction { polarity: Polarity::Negative, axis: Axis::Z },
                rotation: Rotation::Identity,
            });
            lemma_carried_by_two(neg_x(), pos_z(), cell, size);
            lemma_carried_by_one(neg_y(), source, size);
        },
        (Polarity::Positive, Axis::Y, Rotation::Prime, Polarity::Negative, Axis::Y) => {
            assert(spec_rotate(orientation, around) == Orientation {
                direction: Direction { polarity: Polarity::Positive, axis: Axis::Y },
                rotation: Rotation::Double,
            });
            lemma_carried_by_two(pos_y(), pos_y(), cell, size);
            lemma_carried_by_one(neg_y(), source, size);
        },
        (Polarity::Positive, Axis::Y, Rotation::Prime, Polarity::Negative, Axis::Z) => {
            assert(spec_rotate(orientation, around) == Orientation {
                direction: Direction { polarity: Polarity::Positive, axis: Axis::X },
                rotation: Rotation::Generator,
            });
            lemma_carried_by_two(neg_z(), neg_x(), cell, size);
            lemma_carried_by_one(neg_y(), source, size);
        },
        (Polarity::Positive, Axis::Z, Rotation::Identity, Polarity::Positive, Axis::X) => {
            assert(spec_rotate(orientation, around) == Orientation {
                direction: Direction { polarity: Polarity::Negative, axis: Axis::Y },
                rotation: Rotation::Prime,
            });
            lemma_carried_by_two(pos_z(), pos_z(), cell, size);
            lemma_carried_by_three(neg_z(), neg_y(), neg_z(), source, size);
        },
        (Polarity::Positive, Axis::Z, Rotation::Identity, Polarity::Positive, Axis::Y) => {
            assert(spec_rotate(orientation, around) == Orientation {
                direction: Direction { polarity: Polarity::Positive, axis: Axis::X },
                rotation: Rotation::Generator,
            });
            lemma_carried_by_two(neg_z(), neg_x(), cell, size);
            lemma_carried_by_three(neg_z(), neg_y(), neg_z(), source, size);
        },
        (Polarity::Positive, Axis::Z, Rotation::Identity, Polarity::Positive, Axis::Z) => {
            assert(spec_rotate(orientation, around) == Orientation {
                direction: Direction { polarity: Polarity::Positive, axis: Axis::Z },
                rotation: Rotation::Generator,
            });
            lemma_carried_by_two(pos_x(), neg_z(), cell, size);
            lemma_carried_by_three(neg_z(), neg_y(), neg_z(), source, size);
        },
        (Polarity::Positive, Axis::Z, Rotation::Identity, Polarity::Negative, Axis::X) => {
            assert(spec_rotate(orientation, around) == Orientation {
                direction: Direction { polarity: Polarity::Positive, axis: Axis::Y },
                rotation: Rotation::Double,
            });
            lemma_carried_by_two(pos_y(), pos_y(), cell, size);
            lemma_carried_by_three(neg_z(), neg_y(), neg_z(), source, size);
        },
        (Polarity::Positive, Axis::Z, Rotation::Identity, Polarity::Negative, Axis::Y) => {
            assert(spec_rotate(orientation, around) == Orientation {
                direction: Direction { polarity: Polarity::Negative, axis: Axis::X },
                rotation: Rotation::Prime,
            });
            lemma_carried_by_two(pos_z(), neg_x(), cell, size);
            lemma_carried_by_three(neg_z(), neg_y(), neg_z(), source, size);
        },
        (Polarity::Positive, Axis::Z, Rotation::Identity, Polarity::Negative, Axis::Z) => {
            assert(spec_rotate(orientation, around) == Orientation {
                direction: Direction { polarity: Polarity::Positive, axis: Axis::Z },
                rotation: Rotation::Double,
            });
            lemma_carried_by_two(pos_x(), pos_z(), cell, size);
            lemma_carried_by_three(neg_z(), neg_y(), neg_z(), source, size);
        },
        (Polarity::Positive, Axis::Z, Rotation::Generator, Polarity::Positive, Axis::X) => {
            assert(spec_rotate(orientation, around) == Orientation {
                direction: Direction { polarity: Polarity::Negative, axis: Axis::Y },
                rotation: Rotation::Double,
            });
            lemma_carried_by_three(neg_z(), pos_x(), neg_z(), cell, size);
            lemma_carried_by_two(pos_x(), neg_z(), source, size);
        },
        (Polarity::Positive, Axis::Z, Rotation::Generator, Polarity::Positive, Axis::Y) => {
            assert(spec_rotate(orientation, around) == Orientation {
                direction: Direction { polarity: Polarity::Positive, axis: Axis::X },
                rotation: Rotation::Double,
            });
            lemma_carried_by_one(neg_z(), cell, size);
            lemma_carried_by_two(pos_x(), neg_z(), source, size);
        },
        (Polarity::Positive, Axis::Z, Rotation::Generator, Polarity::Positive, Axis::Z) => {
            assert(spec_rotate(orientation, around) == Orientation {
                direction: Direction { polarity: Polarity::Positive, axis: Axis::Z },
                rotation: Rotation::Prime,
            });
            lemma_carried_by_one(pos_x(), cell, size);
            lemma_carried_by_two(pos_x(), neg_z(), source, size);
        },
        (Polarity::Positive, Axis::Z, Rotation::Generator, Polarity::Negative, Axis::X) => {
            assert(spec_rotate(orientation, around) == Orientation {
                direction: Direction { polarity: Polarity::Positive, axis: Axis::Y },
                rotation: Rotation::Prime,
            });
            lemma_carried_by_one(neg_y(), cell, size);
            lemma_carried_by_two(pos_x(), neg_z(), source, size);
        },
        (Polarity::Positive, Axis::Z, Rotation::Generator, Polarity::Negative, Axis::Y) => {
            assert(spec_rotate(orientation, around) == Orientation {
                direction: Direction { polarity: Polarity::Negative, axis: Axis::X },
                rotation: Rotation::Identity,
            });
            lemma_carried_by_three(neg_y(), pos_z(), pos_x(), cell, size);
            lemma_carried_by_two(pos_x(), neg_z(), source, size);
        },
        (Polarity::Positive, Axis::Z, Rotation::Generator, Polarity::Negative, Axis::Z) => {
            assert(spec_rotate(orientation, around) == Orientation {
                direction: Direction { polarity: Polarity::Positive, axis: Axis::Z },
                rotation: Rotation::Identity,
            });
            lemma_carried_by_three(neg_z(), neg_y(), neg_z(), cell, size);
            lemma_carried_by_two(pos_x(), neg_z(), source, size);
        },
        (Polarity::Positive, Axis::Z, Rotation::Double, Polarity::Positive, Axis::X) => {
            assert(spec_rotate(orientation, around) == Orientation {
                direction: Direction { polarity: Polarity::Negative, axis: Axis::Y },
                rotation: Rotation::Identity,
            });
            lemma_carried_by_three(pos_x(), neg_y(), pos_z(), cell, size);
            lemma_carried_by_two(pos_x(), pos_z(), source, size);
        },
        (Polarity::Positive, Axis::Z, Rotation::Double, Polarity::Positive, Axis::Y) => {
            assert(spec_rotate(orientation, around) == Orientation {
                direction: Direction { polarity: Polarity::Positive, axis: Axis::X },
                rotation: Rotation::Prime,
            });
            lemma_carried_by_three(pos_y(), neg_z(), pos_x(), cell, size);
            lemma_carried_by_two(pos_x(), pos_z(), source, size);
        },
        (Polarity::Positive, Axis::Z, Rotation::Double, Polarity::Positive, Axis::Z) => {
            assert(spec_rotate(orientation, around) == Orientation {
                direction: Direction { polarity: Polarity::Positive, axis: Axis::Z },
                rotation: Rotation::Identity,
            });
            lemma_carried_by_three(neg_z(), neg_y(), neg_z(), cell, size);
            lemma_carried_by_two(pos_x(), pos_z(), source, size);
        },
        (Polarity::Positive, Axis::Z, Rotation::Double, Polarity::Negative, Axis::X) => {
            assert(spec_rotate(orientation, around) == Orientation {
                direction: Direction { polarity: Polarity::Positive, axis: Axis::Y },
                rotation: Rotation::Generator,
            });
            lemma_carried_by_one(pos_y(), cell, size);
            lemma_carried_by_two(pos_x(), pos_z(), source, size);
        },
        (Polarity::Positive, Axis::Z, Rotation::Double, Polarity::Negative, Axis::Y) => {
            assert(spec_rotate(orientation, around) == Orientation {
                direction: Direction { polarity: Polarity::Negative, axis: Axis::X },
                rotation: Rotation::Generator,
            });
            lemma_carried_by_one(pos_z(), cell, size);
            lemma_carried_by_two(pos_x(), pos_z(), source, size);
        },
        (Polarity::Positive, Axis::Z, Rotation::Double, Polarity::Negative, Axis::Z) => {
            assert(spec_rotate(orientation, around) == Orientation {
                direction: Direction { polarity: Polarity::Positive, axis: Axis::Z },
                rotation: Rotation::Prime,
            });
            lemma_carried_by_one(pos_x(), cell, size);
            lemma_carried_by_two(pos_x(), pos_z(), source, size);
        },
        (Polarity::Positive, Axis::Z, Rotation::Prime, Polarity::Positive, Axis::X) => {
            assert(spec_rotate(orientation, around) == Orientation {
                direction: Direction { polarity: Polarity::Negative, axis: Axis::Y },
                rotation: Rotation::Generator,
            });
            lemma_carried_by_two(pos_x(), pos_x(), cell, size);
            lemma_carried_by_one(pos_x(), source, size);
        },
        (Polarity::Positive, Axis::Z, Rotation::Prime, Polarity::Positive, Axis::Y) => {
            assert(spec_rotate(orientation, around) == Orientation {
                direction: Direction { polarity: Polarity::Positive, axis: Axis::X },
                rotation: Rotation::Identity,
            });
            lemma_carried_by_two(pos_y(), neg_z(), cell, size);
            lemma_carried_by_one(pos_x(), source, size);
        },
        (Polarity::Positive, Axis::Z, Rotation::Prime, Polarity::Positive, Axis::Z) => {
            assert(spec_rotate(orientation, around) == Orientation {
                direction: Direction { polarity: Polarity::Positive, axis: Axis::Z },
                rotation: Rotation::Double,
            });
            lemma_carried_by_two(pos_x(), pos_z(), cell, size);
            lemma_carried_by_one(pos_x(), source, size);
        },
        (Polarity::Positive, Axis::Z, Rotation::Prime, Polarity::Negative, Axis::X) => {
            assert(spec_rotate(orientation, around) == Orientation {
                direction: Direction { polarity: Polarity::Positive, axis: Axis::Y },
                rotation: Rotation::Identity,
            });
            lemma_carried_by_none(cell, size);
            lemma_carried_by_one(pos_x(), source, size);
        },
        (Polarity::Positive, Axis::Z, Rotation::Prime, Polarity::Negative, Axis::Y) => {
            assert(spec_rotate(orientation, around) == Orientation {
                direction: Direction { polarity: Polarity::Negative, axis: Axis::X },
                rotation: Rotation::Double,
            });
            lemma_carried_by_two(neg_y(), pos_z(), cell, size);
            lemma_carried_by_one(pos_x(), source, size);
        },
        (Polarity::Positive, Axis::Z, Rotation::Prime, Polarity::Negative, Axis::Z) => {
            assert(spec_rotate(orientation, around) == Orientation {
                direction: Direction { polarity: Polarity::Positive, axis: Axis::Z },
                rotation: Rotation::Generator,
            });
            lemma_carried_by_two(pos_x(), neg_z(), cell, size);
            lemma_carried_by_one(pos_x(), source, size);
        },
        (Polarity::Negative, Axis::X, Rotation::Identity, Polarity::Positive, Axis::X) => {
            assert(spec_rotate(orientation, around) == Orientation {
                direction: Direction { polarity: Polarity::Negative, axis: Axis::X },
                rotation: Rotation::Prime,
            });
            lemma_carried_by_two(pos_z(), neg_x(), cell, size);
            lemma_carried_by_three(neg_y(), pos_z(), pos_x(), source, size);
        },
        (Polarity::Negative, Axis::X, Rotation::Identity, Polarity::Positive, Axis::Y) => {
            assert(spec_rotate(orientation, around) == Orientation {
                direction: Direction { polarity: Polarity::Positive, axis: Axis::Z },
                rotation: Rotation::Generator,
            });
            lemma_carried_by_two(pos_x(), neg_z(), cell, size);
            lemma_carried_by_three(neg_y(), pos_z(), pos_x(), source, size);
        },
        (Polarity::Negative, Axis::X, Rotation::Identity, Polarity::Positive, Axis::Z) => {
            assert(spec_rotate(orientation, around) == Orientation {
                direction: Direction { polarity: Polarity::Negative, axis: Axis::Y },
                rotation: Rotation::Generator,
            });
            lemma_carried_by_two(pos_x(), pos_x(), cell, size);
            lemma_carried_by_three(neg_y(), pos_z(), pos_x(), source, size);
        },
        (Polarity::Negative, Axis::X, Rotation::Identity, Polarity::Negative, Axis::X) => {
            assert(spec_rotate(orientation, around) == Orientation {
                direction: Direction { polarity: Polarity::Negative, axis: Axis::X },
                rotation: Rotation::Double,
            });
            lemma_carried_by_two(neg_y(), pos_z(), cell, size);
            lemma_carried_by_three(neg_y(), pos_z(), pos_x(), source, size);
        },
        (Polarity::Negative, Axis::X, Rotation::Identity, Polarity::Negative, Axis::Y) => {
            assert(spec_rotate(orientation, around) == Orientation {
                direction: Direction { polarity: Polarity::Negative, axis: Axis::Z },
                rotation: Rotation::Prime,
            });
            lemma_carried_by_two(neg_x(), neg_z(), cell, size);
            lemma_carried_by_three(neg_y(), pos_z(), pos_x(), source, size);
        },
        (Polarity::Negative, Axis::X, Rotation::Identity, Polarity::Negative, Axis::Z) => {
            assert(spec_rotate(orientation, around) == Orientation {
                direction: Direction { polarity: Polarity::Positive, axis: Axis::Y },
                rotation: Rotation::Double,
            });
            lemma_carried_by_two(pos_y(), pos_y(), cell, size);
            lemma_carried_by_three(neg_y(), pos_z(), pos_x(), source, size);
        },
        (Polarity::Negative, Axis::X, Rotation::Generator, Polarity::Positive, Axis::X) => {
            assert(spec_rotate(orientation, around) == Orientation {
                direction: Direction { polarity: Polarity::Negative, axis: Axis::X },
                rotation: Rotation::Double,
            });
            lemma_carried_by_two(neg_y(), pos_z(), cell, size);
            lemma_carried_by_one(pos_z(), source, size);
        },
        (Polarity::Negative, Axis::X, Rotation::Generator, Polarity::Positive, Axis::Y) => {
            assert(spec_rotate(orientation, around) == Orientation {
                direction: Direction { polarity: Polarity::Positive, axis: Axis::Z },
                rotation: Rotation::Double,
            });
            lemma_carried_by_two(pos_x(), pos_z(), cell, size);
            lemma_carried_by_one(pos_z(), source, size);
        },
        (Polarity::Negative, Axis::X, Rotation::Generator, Polarity::Positive, Axis::Z) => {
            assert(spec_rotate(orientation, around) == Orientation {
                direction: Direction { polarity: Polarity::Negative, axis: Axis::Y },
                rotation: Rotation::Prime,
            });
            lemma_carried_by_two(pos_z(), pos_z(), cell, size);
            lemma_carried_by_one(pos_z(), source, size);
        },
        (Polarity::Negative, Axis::X, Rotation::Generator, Polarity::Negative, Axis::X) => {
            assert(spec_rotate(orientation, around) == Orientation {
                direction: Direction { polarity: Polarity::Negative, axis: Axis::X },
                rotation: Rotation::Prime,
            });
            lemma_carried_by_two(pos_z(), neg_x(), cell, size);
            lemma_carried_by_one(pos_z(), source, size);
        },
        (Polarity::Negative, Axis::X, Rotation::Generator, Polarity::Negative, Axis::Y) => {
            assert(spec_rotate(orientation, around) == Orientation {
                direction: Direction { polarity: Polarity::Negative, axis: Axis::Z },
                rotation: Rotation::Identity,
            });
            lemma_carried_by_two(neg_x(), pos_z(), cell, size);
            lemma_carried_by_one(pos_z(), source, size);
        },
        (Polarity::Negative, Axis::X, Rotation::Generator, Polarity::Negative, Axis::Z) => {
            assert(spec_rotate(orientation, around) == Orientation {
                direction: Direction { polarity: Polarity::Positive, axis: Axis::Y },
                rotation: Rotation::Identity,
            });
            lemma_carried_by_none(cell, size);
            lemma_carried_by_one(pos_z(), source, size);
        },
        (Polarity::Negative, Axis::X, Rotation::Double, Polarity::Positive, Axis::X) => {
            assert(spec_rotate(orientation, around) == Orientation {
                direction: Direction { polarity: Polarity::Negative, axis: Axis::X },
                rotation: Rotation::Identity,
            });
            lemma_carried_by_three(neg_y(), pos_z(), pos_x(), cell, size);
            lemma_carried_by_two(neg_y(), pos_z(), source, size);
        },
        (Polarity::Negative, Axis::X, Rotation::Double, Polarity::Positive, Axis::Y) => {
            assert(spec_rotate(orientation, around) == Orientation {
                direction: Direction { polarity: Polarity::Positive, axis: Axis::Z },
                rotation: Rotation::Prime,
            });
            lemma_carried_by_one(pos_x(), cell, size);
            lemma_carried_by_two(neg_y(), pos_z(), source, size);
        },
        (Polarity::Negative, Axis::X, Rotation::Double, Polarity::Positive, Axis::Z) => {
            assert(spec_rotate(orientation, around) == Orientation {
                direction: Direction { polarity: Polarity::Negative, axis: Axis::Y },
                rotation: Rotation::Identity,
            });
            lemma_carried_by_three(pos_x(), neg_y(), pos_z(), cell, size);
            lemma_carried_by_two(neg_y(), pos_z(), source, size);
        },
        (Polarity::Negative, Axis::X, Rotation::Double, Polarity::Negative, Axis::X) => {
            assert(spec_rotate(orientation, around) == Orientation {
                direction: Direction { polarity: Polarity::Negative, axis: Axis::X },
                rotation: Rotation::Generator,
            });
            lemma_carried_by_one(pos_z(), cell, size);
            lemma_carried_by_two(neg_y(), pos_z(), source, size);
        },
        (Polarity::Negative, Axis::X, Rotation::Double, Polarity::Negative, Axis::Y) => {
            assert(spec_rotate(orientation, around) == Orientation {
                direction: Direction { polarity: Polarity::Negative, axis: Axis::Z },
                rotation: Rotation::Generator,
            });
            lemma_carried_by_three(pos_y(), neg_x(), neg_z(), cell, size);
            lemma_carried_by_two(neg_y(), pos_z(), source, size);
        },
        (Polarity::Negative, Axis::X, Rotation::Double, Polarity::Negative, Axis::Z) => {
            assert(spec_rotate(orientation, around) == Orientation {
                direction: Direction { polarity: Polarity::Positive, axis: Axis::Y },
                rotation: Rotation::Prime,
            });
            lemma_carried_by_one(neg_y(), cell, size);
            lemma_carried_by_two(neg_y(), pos_z(), source, size);
        },
        (Polarity::Negative, Axis::X, Rotation::Prime, Polarity::Positive, Axis::X) => {
            assert(spec_rotate(orientation, around) == Orientation {
                direction: Direction { polarity: Polarity::Negative, axis: Axis::X },
                rotation: Rotation::Generator,
            });
            lemma_carried_by_one(pos_z(), cell, size);
            lemma_carried_by_two(pos_z(), neg_x(), source, size);
        },
        (Polarity::Negative, Axis::X, Rotation::Prime, Polarity::Positive, Axis::Y) => {
            assert(spec_rotate(orientation, around) == Orientation {
                direction: Direction { polarity: Polarity::Positive, axis: Axis::Z },
                rotation: Rotation::Identity,
            });
            lemma_carried_by_three(neg_z(), neg_y(), neg_z(), cell, size);
            lemma_carried_by_two(pos_z(), neg_x(), source, size);
        },
        (Polarity::Negative, Axis::X, Rotation::Prime, Polarity::Positive, Axis::Z) => {
            assert(spec_rotate(orientation, around) == Orientation {
                direction: Direction { polarity: Polarity::Negative, axis: Axis::Y },
                rotation: Rotation::Double,
            });
            lemma_carried_by_three(neg_z(), pos_x(), neg_z(), cell, size);
            lemma_carried_by_two(pos_z(), neg_x(), source, size);
        },
        (Polarity::Negative, Axis::X, Rotation::Prime, Polarity::Negative, Axis::X) => {
            assert(spec_rotate(orientation, around) == Orientation {
                direction: Direction { polarity: Polarity::Negative, axis: Axis::X },
                rotation: Rotation::Identity,
            });
            lemma_carried_by_three(neg_y(), pos_z(), pos_x(), cell, size);
            lemma_carried_by_two(pos_z(), neg_x(), source, size);
        },
        (Polarity::Negative, Axis::X, Rotation::Prime, Polarity::Negative, Axis::Y) => {
            assert(spec_rotate(orientation, around) == Orientation {
                direction: Direction { polarity: Polarity::Negative, axis: Axis::Z },
                rotation: Rotation::Double,
            });
            lemma_carried_by_one(neg_x(), cell, size);
            lemma_carried_by_two(pos_z(), neg_x(), source, size);
        },
        (Polarity::Negative, Axis::X, Rotation::Prime, Polarity::Negative, Axis::Z) => {
            assert(spec_rotate(orientation, around) == Orientation {
                direction: Direction { polarity: Polarity::Positive, axis: Axis::Y },
                rotation: Rotation::Generator,
            });
            lemma_carried_by_one(pos_y(), cell, size);
            lemma_carried_by_two(pos_z(), neg_x(), source, size);
        },
        (Polarity::Negative, Axis::Y, Rotation::Identity, Polarity::Positive, Axis::X) => {
            assert(spec_rotate(orientation, around) == Orientation {
                direction: Direction { polarity: Polarity::Negative, axis: Axis::Z },
                rotation: Rotation::Prime,
            });
            lemma_carried_by_two(neg_x(), neg_z(), cell, size);
            lemma_carried_by_three(pos_x(), neg_y(), pos_z(), source, size);
        },
        (Polarity::Negative, Axis::Y, Rotation::Identity, Polarity::Positive, Axis::Y) => {
            assert(spec_rotate(orientation, around) == Orientation {
                direction: Direction { polarity: Polarity::Negative, axis: Axis::Y },
                rotation: Rotation::Generator,
            });
            lemma_carried_by_two(pos_x(), pos_x(), cell, size);
            lemma_carried_by_three(pos_x(), neg_y(), pos_z(), source, size);
        },
        (Polarity::Negative, Axis::Y, Rotation::Identity, Polarity::Positive, Axis::Z) => {
            assert(spec_rotate(orientation, around) == Orientation {
                direction: Direction { polarity: Polarity::Positive, axis: Axis::X },
                rotation: Rotation::Generator,
            });
            lemma_carried_by_two(neg_z(), neg_x(), cell, size);
            lemma_carried_by_three(pos_x(), neg_y(), pos_z(), source, size);
        },
        (Polarity::Negative, Axis::Y, Rotation::Identity, Polarity::Negative, Axis::X) => {
            assert(spec_rotate(orientation, around) == Orientation {
                direction: Direction { polarity: Polarity::Positive, axis: Axis::Z },
                rotation: Rotation::Double,
            });
            lemma_carried_by_two(pos_x(), pos_z(), cell, size);
            lemma_carried_by_three(pos_x(), neg_y(), pos_z(), source, size);
        },
        (Polarity::Negative, Axis::Y, Rotation::Identity, Polarity::Negative, Axis::Y) => {
            assert(spec_rotate(orientation, around) == Orientation {
                direction: Direction { polarity: Polarity::Negative, axis: Axis::Y },
                rotation: Rotation::Prime,
            });
            lemma_carried_by_two(pos_z(), pos_z(), cell, size);
            lemma_carried_by_three(pos_x(), neg_y(), pos_z(), source, size);
        },
        (Polarity::Negative, Axis::Y, Rotation::Identity, Polarity::Negative, Axis::Z) => {
            assert(spec_rotate(orientation, around) == Orientation {
                direction: Direction { polarity: Polarity::Negative, axis: Axis::X },
                rotation: Rotation::Double,
            });
            lemma_carried_by_two(neg_y(), pos_z(), cell, size);
            lemma_carried_by_three(pos_x(), neg_y(), pos_z(), source, size);
        },
        (Polarity::Negative, Axis::Y, Rotation::Generator, Polarity::Positive, Axis::X) => {
            assert(spec_rotate(orientation, around) == Orientation {
                direction: Direction { polarity: Polarity::Negative, axis: Axis::Z },
                rotation: Rotation::Double,
            });
            lemma_carried_by_one(neg_x(), cell, size);
            lemma_carried_by_two(pos_x(), pos_x(), source, size);
        },
        (Polarity::Negative, Axis::Y, Rotation::Generator, Polarity::Positive, Axis::Y) => {
            assert(spec_rotate(orientation, around) == Orientation {
                direction: Direction { polarity: Polarity::Negative, axis: Axis::Y },
                rotation: Rotation::Double,
            });
            lemma_carried_by_three(neg_z(), pos_x(), neg_z(), cell, size);
            lemma_carried_by_two(pos_x(), pos_x(), source, size);
        },
        (Polarity::Negative, Axis::Y, Rotation::Generator, Polarity::Positive, Axis::Z) => {
            assert(spec_rotate(orientation, around) == Orientation {
                direction: Direction { polarity: Polarity::Positive, axis: Axis::X },
                rotation: Rotation::Prime,
            });
            lemma_carried_by_three(pos_y(), neg_z(), pos_x(), cell, size);
            lemma_carried_by_two(pos_x(), pos_x(), source, size);
        },
        (Polarity::Negative, Axis::Y, Rotation::Generator, Polarity::Negative, Axis::X) => {
            assert(spec_rotate(orientation, around) == Orientation {
                direction: Direction { polarity: Polarity::Positive, axis: Axis::Z },
                rotation: Rotation::Prime,
            });
            lemma_carried_by_one(pos_x(), cell, size);
            lemma_carried_by_two(pos_x(), pos_x(), source, size);
        },
        (Polarity::Negative, Axis::Y, Rotation::Generator, Polarity::Negative, Axis::Y) => {
            assert(spec_rotate(orientation, around) == Orientation {
                direction: Direction { polarity: Polarity::Negative, axis: Axis::Y },
                rotation: Rotation::Identity,
            });
            lemma_carried_by_three(pos_x(), neg_y(), pos_z(), cell, size);
            lemma_carried_by_two(pos_x(), pos_x(), source, size);
        },
        (Polarity::Negative, Axis::Y, Rotation::Generator, Polarity::Negative, Axis::Z) => {
            assert(spec_rotate(orientation, around) == Orientation {
                direction: Direction { polarity: Polarity::Negative, axis: Axis::X },
                rotation: Rotation::Identity,
            });
            lemma_carried_by_three(neg_y(), pos_z(), pos_x(), cell, size);
            lemma_carried_by_two(pos_x(), pos_x(), source, size);
        },
        (Polarity::Negative, Axis::Y, Rotation::Double, Polarity::Positive, Axis::X) => {
            assert(spec_rotate(orientation, around) == Orientation {
                direction: Direction { polarity: Polarity::Negative, axis: Axis::Z },
                rotation: Rotation::Identity,
            });
            lemma_carried_by_two(neg_x(), pos_z(), cell, size);
            lemma_carried_by_three(neg_z(), pos_x(), neg_z(), source, size);
        },
        (Polarity::Negative, Axis::Y, Rotation::Double, Polarity::Positive, Axis::Y) => {
            assert(spec_rotate(orientation, around) == Orientation {
                direction: Direction { polarity: Polarity::Negative, axis: Axis::Y },
                rotation: Rotation::Prime,
            });
            lemma_carried_by_two(pos_z(), pos_z(), cell, size);
            lemma_carried_by_three(neg_z(), pos_x(), neg_z(), source, size);
        },
        (Polarity::Negative, Axis::Y, Rotation::Double, Polarity::Positive, Axis::Z) => {
            assert(spec_rotate(orientation, around) == Orientation {
                direction: Direction { polarity: Polarity::Positive, axis: Axis::X },
                rotation: Rotation::Identity,
            });
            lemma_carried_by_two(pos_y(), neg_z(), cell, size);
            lemma_carried_by_three(neg_z(), pos_x(), neg_z(), source, size);
        },
        (Polarity::Negative, Axis::Y, Rotation::Double, Polarity::Negative, Axis::X) => {
            assert(spec_rotate(orientation, around) == Orientation {
                direction: Direction { polarity: Polarity::Positive, axis: Axis::Z },
                rotation: Rotation::Generator,
            });
            lemma_carried_by_two(pos_x(), neg_z(), cell, size);
            lemma_carried_by_three(neg_z(), pos_x(), neg_z(), source, size);
        },
        (Polarity::Negative, Axis::Y, Rotation::Double, Polarity::Negative, Axis::Y) => {
            assert(spec_rotate(orientation, around) == Orientation {
                direction: Direction { polarity: Polarity::Negative, axis: Axis::Y },
                rotation: Rotation::Generator,
            });
            lemma_carried_by_two(pos_x(), pos_x(), cell, size);
            lemma_carried_by_three(neg_z(), pos_x(), neg_z(), source, size);
        },
        (Polarity::Negative, Axis::Y, Rotation::Double, Polarity::Negative, Axis::Z) => {
            assert(spec_rotate(orientation, around) == Orientation {
                direction: Direction { polarity: Polarity::Negative, axis: Axis::X },
                rotation: Rotation::Prime,
            });
            lemma_carried_by_two(pos_z(), neg_x(), cell, size);
            lemma_carried_by_three(neg_z(), pos_x(), neg_z(), source, size);
        },
        (Polarity::Negative, Axis::Y, Rotation::Prime, Polarity::Positive, Axis::X) => {
            assert(spec_rotate(orientation, around) == Orientation {
                direction: Direction { polarity: Polarity::Negative, axis: Axis::Z },
                rotation: Rotation::Generator,
            });
            lemma_carried_by_three(pos_y(), neg_x(), neg_z(), cell, size);
            lemma_carried_by_two(pos_z(), pos_z(), source, size);
        },
        (Polarity::Negative, Axis::Y, Rotation::Prime, Polarity::Positive, Axis::Y) => {
            assert(spec_rotate(orientation, around) == Orientation {
                direction: Direction { polarity: Polarity::Negative, axis: Axis::Y },
                rotation: Rotation::Identity,
            });
            lemma_carried_by_three(pos_x(), neg_y(), pos_z(), cell, size);
            lemma_carried_by_two(pos_z(), pos_z(), source, size);
        },
        (Polarity::Negative, Axis::Y, Rotation::Prime, Polarity::Positive, Axis::Z) => {
            assert(spec_rotate(orientation, around) == Orientation {
                direction: Direction { polarity: Polarity::Positive, axis: Axis::X },
                rotation: Rotation::Double,
            });
            lemma_carried_by_one(neg_z(), cell, size);
            lemma_carried_by_two(pos_z(), pos_z(), source, size);
        },
        (Polarity::Negative, Axis::Y, Rotation::Prime, Polarity::Negative, Axis::X) => {
            assert(spec_rotate(orientation, around) == Orientation {
                direction: Direction { polarity: Polarity::Positive, axis: Axis::Z },
                rotation: Rotation::Identity,
            });
            lemma_carried_by_three(neg_z(), neg_y(), neg_z(), cell, size);
            lemma_carried_by_two(pos_z(), pos_z(), source, size);
        },
        (Polarity::Negative, Axis::Y, Rotation::Prime, Polarity::Negative, Axis::Y) => {
            assert(spec_rotate(orientation, around) == Orientation {
                direction: Direction { polarity: Polarity::Negative, axis: Axis::Y },
                rotation: Rotation::Double,
            });
            lemma_carried_by_three(neg_z(), pos_x(), neg_z(), cell, size);
            lemma_carried_by_two(pos_z(), pos_z(), source, size);
        },
        (Polarity::Negative, Axis::Y, Rotation::Prime, Polarity::Negative, Axis::Z) => {
            assert(spec_rotate(orientation, around) == Orientation {
                direction: Direction { polarity: Polarity::Negative, axis: Axis::X },
                rotation: Rotation::Generator,
            });
            lemma_carried_by_one(pos_z(), cell, size);
            lemma_carried_by_two(pos_z(), pos_z(), source, size);
        },
        (Polarity::Negative, Axis::Z, Rotation::Identity, Polarity::Positive, Axis::X) => {
            assert(spec_rotate(orientation, around) == Orientation {
                direction: Direction { polarity: Polarity::Positive, axis: Axis::Y },
                rotation: Rotation::Prime,
            });
            lemma_carried_by_one(neg_y(), cell, size);
            lemma_carried_by_two(neg_x(), pos_z(), source, size);
        },
        (Polarity::Negative, Axis::Z, Rotation::Identity, Polarity::Positive, Axis::Y) => {
            assert(spec_rotate(orientation, around) == Orientation {
                direction: Direction { polarity: Polarity::Negative, axis: Axis::X },
                rotation: Rotation::Generator,
            });
            lemma_carried_by_one(pos_z(), cell, size);
            lemma_carried_by_two(neg_x(), pos_z(), source, size);
        },
        (Polarity::Negative, Axis::Z, Rotation::Identity, Polarity::Positive, Axis::Z) => {
            assert(spec_rotate(orientation, around) == Orientation {
                direction: Direction { polarity: Polarity::Negative, axis: Axis::Z },
                rotation: Rotation::Generator,
            });
            lemma_carried_by_three(pos_y(), neg_x(), neg_z(), cell, size);
            lemma_carried_by_two(neg_x(), pos_z(), source, size);
        },
        (Polarity::Negative, Axis::Z, Rotation::Identity, Polarity::Negative, Axis::X) => {
            assert(spec_rotate(orientation, around) == Orientation {
                direction: Direction { polarity: Polarity::Negative, axis: Axis::Y },
                rotation: Rotation::Double,
            });
            lemma_carried_by_three(neg_z(), pos_x(), neg_z(), cell, size);
            lemma_carried_by_two(neg_x(), pos_z(), source, size);
        },
        (Polarity::Negative, Axis::Z, Rotation::Identity, Polarity::Negative, Axis::Y) => {
            assert(spec_rotate(orientation, around) == Orientation {
                direction: Direction { polarity: Polarity::Positive, axis: Axis::X },
                rotation: Rotation::Prime,
            });
            lemma_carried_by_three(pos_y(), neg_z(), pos_x(), cell, size);
            lemma_carried_by_two(neg_x(), pos_z(), source, size);
        },
        (Polarity::Negative, Axis::Z, Rotation::Identity, Polarity::Negative, Axis::Z) => {
            assert(spec_rotate(orientation, around) == Orientation {
                direction: Direction { polarity: Polarity::Negative, axis: Axis::Z },
                rotation: Rotation::Double,
            });
            lemma_carried_by_one(neg_x(), cell, size);
            lemma_carried_by_two(neg_x(), pos_z(), source, size);
        },
        (Polarity::Negative, Axis::Z, Rotation::Generator, Polarity::Positive, Axis::X) => {
            assert(spec_rotate(orientation, around) == Orientation {
                direction: Direction { polarity: Polarity::Positive, axis: Axis::Y },
                rotation: Rotation::Double,
            });
            lemma_carried_by_two(pos_y(), pos_y(), cell, size);
            lemma_carried_by_three(pos_y(), neg_x(), neg_z(), source, size);
        },
        (Polarity::Negative, Axis::Z, Rotation::Generator, Polarity::Positive, Axis::Y) => {
            assert(spec_rotate(orientation, around) == Orientation {
                direction: Direction { polarity: Polarity::Negative, axis: Axis::X },
                rotation: Rotation::Double,
            });
            lemma_carried_by_two(neg_y(), pos_z(), cell, size);
            lemma_carried_by_three(pos_y(), neg_x(), neg_z(), source, size);
        },
        (Polarity::Negative, Axis::Z, Rotation::Generator, Polarity::Positive, Axis::Z) => {
            assert(spec_rotate(orientation, around) == Orientation {
                direction: Direction { polarity: Polarity::Negative, axis: Axis::Z },
                rotation: Rotation::Prime,
            });
            lemma_carried_by_two(neg_x(), neg_z(), cell, size);
            lemma_carried_by_three(pos_y(), neg_x(), neg_z(), source, size);
        },
        (Polarity::Negative, Axis::Z, Rotation::Generator, Polarity::Negative, Axis::X) => {
            assert(spec_rotate(orientation, around) == Orientation {
                direction: Direction { polarity: Polarity::Negative, axis: Axis::Y },
                rotation: Rotation::Prime,
            });
            lemma_carried_by_two(pos_z(), pos_z(), cell, size);
            lemma_carried_by_three(pos_y(), neg_x(), neg_z(), source, size);
        },
        (Polarity::Negative, Axis::Z, Rotation::Generator, Polarity::Negative, Axis::Y) => {
            assert(spec_rotate(orientation, around) == Orientation {
                direction: Direction { polarity: Polarity::Positive, axis: Axis::X },
                rotation: Rotation::Identity,
            });
            lemma_carried_by_two(pos_y(), neg_z(), cell, size);
            lemma_carried_by_three(pos_y(), neg_x(), neg_z(), source, size);
        },
        (Polarity::Negative, Axis::Z, Rotation::Generator, Polarity::Negative, Axis::Z) => {
            assert(spec_rotate(orientation, around) == Orientation {
                direction: Direction { polarity: Polarity::Negative, axis: Axis::Z },
                rotation: Rotation::Identity,
            });
            lemma_carried_by_two(neg_x(), pos_z(), cell, size);
            lemma_carried_by_three(pos_y(), neg_x(), neg_z(), source, size);
        },
        (Polarity::Negative, Axis::Z, Rotation::Double, Polarity::Positive, Axis::X) => {
            assert(spec_rotate(orientation, around) == Orientation {
                direction: Direction { polarity: Polarity::Positive, axis: Axis::Y },
                rotation: Rotation::Identity,
            });
            lemma_carried_by_none(cell, size);
            lemma_carried_by_one(neg_x(), source, size);
        },
        (Polarity::Negative, Axis::Z, Rotation::Double, Polarity::Positive, Axis::Y) => {
            assert(spec_rotate(orientation, around) == Orientation {
                direction: Direction { polarity: Polarity::Negative, axis: Axis::X },
                rotation: Rotation::Prime,
            });
            lemma_carried_by_two(pos_z(), neg_x(), cell, size);
            lemma_carried_by_one(neg_x(), source, size);
        },
        (Polarity::Negative, Axis::Z, Rotation::Double, Polarity::Positive, Axis::Z) => {
            assert(spec_rotate(orientation, around) == Orientation {
                direction: Direction { polarity: Polarity::Negative, axis: Axis::Z },
                rotation: Rotation::Identity,
            });
            lemma_carried_by_two(neg_x(), pos_z(), cell, size);
            lemma_carried_by_one(neg_x(), source, size);
        },
        (Polarity::Negative, Axis::Z, Rotation::Double, Polarity::Negative, Axis::X) => {
            assert(spec_rotate(orientation, around) == Orientation {
                direction: Direction { polarity: Polarity::Negative, axis: Axis::Y },
                rotation: Rotation::Generator,
            });
            lemma_carried_by_two(pos_x(), pos_x(), cell, size);
            lemma_carried_by_one(neg_x(), source, size);
        },
        (Polarity::Negative, Axis::Z, Rotation::Double, Polarity::Negative, Axis::Y) => {
            assert(spec_rotate(orientation, around) == Orientation {
                direction: Direction { polarity: Polarity::Positive, axis: Axis::X },
                rotation: Rotation::Generator,
            });
            lemma_carried_by_two(neg_z(), neg_x(), cell, size);
            lemma_carried_by_one(neg_x(), source, size);
        },
        (Polarity::Negative, Axis::Z, Rotation::Double, Polarity::Negative, Axis::Z) => {
            assert(spec_rotate(orientation, around) == Orientation {
                direction: Direction { polarity: Polarity::Negative, axis: Axis::Z },
                rotation: Rotation::Prime,
            });
            lemma_carried_by_two(neg_x(), neg_z(), cell, size);
            lemma_carried_by_one(neg_x(), source, size);
        },
        (Polarity::Negative, Axis::Z, Rotation::Prime, Polarity::Positive, Axis::X) => {
            assert(spec_rotate(orientation, around) == Orientation {
                direction: Direction { polarity: Polarity::Positive, axis: Axis::Y },
                rotation: Rotation::Generator,
            });
            lemma_carried_by_one(pos_y(), cell, size);
            lemma_carried_by_two(neg_x(), neg_z(), source, size);
        },
        (Polarity::Negative, Axis::Z, Rotation::Prime, Polarity::Positive, Axis::Y) => {
            assert(spec_rotate(orientation, around) == Orientation {
                direction: Direction { polarity: Polarity::Negative, axis: Axis::X },
                rotation: Rotation::Identity,
            });
            lemma_carried_by_three(neg_y(), pos_z(), pos_x(), cell, size);
            lemma_carried_by_two(neg_x(), neg_z(), source, size);
        },
        (Polarity::Negative, Axis::Z, Rotation::Prime, Polarity::Positive, Axis::Z) => {
            assert(spec_rotate(orientation, around) == Orientation {
                direction: Direction { polarity: Polarity::Negative, axis: Axis::Z },
                rotation: Rotation::Double,
            });
            lemma_carried_by_one(neg_x(), cell, size);
            lemma_carried_by_two(neg_x(), neg_z(), source, size);
        },
        (Polarity::Negative, Axis::Z, Rotation::Prime, Polarity::Negative, Axis::X) => {
            assert(spec_rotate(orientation, around) == Orientation {
                direction: Direction { polarity: Polarity::Negative, axis: Axis::Y },
                rotation: Rotation::Identity,
            });
            lemma_carried_by_three(pos_x(), neg_y(), pos_z(), cell, size);
            lemma_carried_by_two(neg_x(), neg_z(), source, size);
        },
        (Polarity::Negative, Axis::Z, Rotation::Prime, Polarity::Negative, Axis::Y) => {
            assert(spec_rotate(orientation, around) == Orientation {
                direction: Direction { polarity: Polarity::Positive, axis: Axis::X },
                rotation: Rotation::Double,
            });
            lemma_carried_by_one(neg_z(), cell, size);
            lemma_carried_by_two(neg_x(), neg_z(), source, size);
        },
        (Polarity::Negative, Axis::Z, Rotation::Prime, Polarity::Negative, Axis::Z) => {
            assert(spec_rotate(orientation, around) == Orientation {
                direction: Direction { polarity: Polarity::Negative, axis: Axis::Z },
                rotation: Rotation::Generator,
            });
            lemma_carried_by_three(pos_y(), neg_x(), neg_z(), cell, size);
            lemma_carried_by_two(neg_x(), neg_z(), source, size);
        },
    }
}

/// A quarter turn of an orientation by the table is a quarter turn of the
/// shape: the cells of a variant in the turned orientation are the cells of
/// the variant in the orientation, turned in the variant's cube.
pub proof fn lemma_turned_orientation_is_turned_shape(
    variant: Tetromino,
    orientation: Orientation,
    around: Direction,
)
    ensures
        oriented_cells(variant, spec_rotate(orientation, around)) == rotated_cells(
            oriented_cells(variant, orientation),
            around,
            spec_rotation_size(variant),
        ),
{
    let size = spec_rotation_size(variant);
    let start = canonical_cells(variant);
    let turned = oriented_cells(variant, spec_rotate(orientation, around));
    let wanted = rotated_cells(oriented_cells(variant, orientation), around, size);
    lemma_canonical_in_cube(variant);
    assert forall|cell: Cell| turned.contains(cell) == wanted.contains(cell) by {
        let source = around.spec_opposite().spec_rotate_coordinate(cell, size);
        lemma_turned_cell(start, spec_rotation_sequence(spec_rotate(orientation, around)), size, cell);
        lemma_turned_cell(start, spec_rotation_sequence(orientation), size, source);
        lemma_table_agrees_with_turns(orientation, around, cell, size);
        if in_cube(cell, size) {
            lemma_opposite_turn_undoes(around.spec_opposite(), cell, size);
        }
    }
    assert(turned =~= wanted);
}

/// The catalog entry of a turned shape id has the cells of the entry of the
/// shape id, turned in the variant's cube.
pub proof fn lemma_turned_entry(shape: Shape, turned: Shape, id: ShapeId, around: Direction)
    requires
        is_catalog_entry(shape, id),
        is_catalog_entry(turned, id.spec_rotate(around)),
    ensures
        turned@ == rotated_cells(shape@, around, spec_rotation_size(id.variant)),
{
    lemma_turned_orientation_is_turned_shape(id.variant, id.orientation, around);
}

/// The orientation that the quarter turns of `turns`, made one after
/// another, make of `orientation`.
pub open spec fn turned_by(orientation: Orientation, turns: Seq<Direction>) -> Orientation
    decreases turns.len(),
{
    if turns.len() == 0 {
        orientation
    } else {
        spec_rotate(turned_by(orientation, turns.drop_last()), turns.last())
    }
}

/// No turn leaves an orientation as it is.
pub proof fn lemma_turned_by_none(orientation: Orientation)
    ensures
        turned_by(orientation, Seq::empty()) == orientation,
{
}

/// The orientation after one turn.
pub proof fn lemma_turned_by_one(orientation: Orientation, first: Direction)
    ensures
        turned_by(orientation, seq![first]) == spec_rotate(orientation, first),
{
    assert(seq![first].drop_last() =~= Seq::<Direction>::empty());
    assert(seq![first].last() == first);
    lemma_turned_by_none(orientation);
}

/// The orientation after two turns.
pub proof fn lemma_turned_by_two(orientation: Orientation, first: Direction, second: Direction)
    ensures
        turned_by(orientation, seq![first, second]) == spec_rotate(
            spec_rotate(orientation, first),
            second,
        ),
{
    assert(seq![first, second].drop_last() =~= seq![first]);
    lemma_turned_by_one(orientation, first);
}

/// The orientation after three turns.
pub proof fn lemma_turned_by_three(
    orientation: Orientation,
    first: Direction,
    second: Direction,
    third: Direction,
)
    ensures
        turned_by(orientation, seq![first, second, third]) == spec_rotate(
            spec_rotate(spec_rotate(orientation, first), second),
            third,
        ),
{
    assert(seq![first, second, third].drop_last() =~= seq![first, second]);
    lemma_turned_by_two(orientation, first, second);
}

/// A quarter turn leads where the table says.
pub proof fn lemma_turn_entry(from: Orientation, around: Direction, to: Orientation)
    requires
        table_turn(from.spec_combination() as usize, around.spec_combination() as usize)
            == to.spec_combination(),
    ensures
        spec_rotate(from, around) == to,
{
    lemma_index_names_orientation(to);
}

/// The four orientations that point to +X are reached.
proof fn lemma_reached_positive_x(orientation: Orientation)
    requires
        orientation.direction == pos_x(),
    ensures
        turned_by(orientation_at(8), spec_rotation_sequence(orientation)) == orientation,
{
    let start = Orientation { direction: pos_y(), rotation: Rotation::Identity };
    assert(start == orientation_at(8));
    match orientation.rotation {
        Rotation::Identity => {
            let step_1 = Orientation {
                direction: Direction { polarity: Polarity::Positive, axis: Axis::Y },
                rotation: Rotation::Generator,
            };
            lemma_turn_entry(start, pos_y(), step_1);
            let step_2 = Orientation {
                direction: Direction { polarity: Polarity::Positive, axis: Axis::X },
                rotation: Rotation::Identity,
            };
            lemma_turn_entry(step_1, neg_z(), step_2);
            lemma_turned_by_two(start, pos_y(), neg_z());
        },
        Rotation::Generator => {
            let step_1 = Orientation {
                direction: Direction { polarity: Polarity::Positive, axis: Axis::X },
                rotation: Rotation::Double,
            };
            lemma_turn_entry(start, neg_z(), step_1);
            let step_2 = Orientation {
                direction: Direction { polarity: Polarity::Positive, axis: Axis::X },
                rotation: Rotation::Generator,
            };
            lemma_turn_entry(step_1, neg_x(), step_2);
            lemma_turned_by_two(start, neg_z(), neg_x());
        },
        Rotation::Double => {
            let step_1 = Orientation {
                direction: Direction { polarity: Polarity::Positive, axis: Axis::X },
                rotation: Rotation::Double,
            };
            lemma_turn_entry(start, neg_z(), step_1);
            lemma_turned_by_one(start, neg_z());
        },
        Rotation::Prime => {
            let step_1 = Orientation {
                direction: Direction { polarity: Polarity::Positive, axis: Axis::Y },
                rotation: Rotation::Generator,
            };
            lemma_turn_entry(start, pos_y(), step_1);
            let step_2 = Orientation {
                direction: Direction { polarity: Polarity::Positive, axis: Axis::X },
                rotation: Rotation::Identity,
            };
            lemma_turn_entry(step_1, neg_z(), step_2);
            let step_3 = Orientation {
                direction: Direction { polarity: Polarity::Positive, axis: Axis::X },
                rotation: Rotation::Prime,
            };
            lemma_turn_entry(step_2, pos_x(), step_3);
            lemma_turned_by_three(start, pos_y(), neg_z(), pos_x());
        },
    }
}

/// The four orientations that point to +Y are reached.
proof fn lemma_reached_positive_y(orientation: Orientation)
    requires
        orientation.direction == pos_y(),
    ensures
        turned_by(orientation_at(8), spec_rotation_sequence(orientation)) == orientation,
{
    let start = Orientation { direction: pos_y(), rotation: Rotation::Identity };
    assert(start == orientation_at(8));
    match orientation.rotation {
        Rotation::Identity => {
            lemma_turned_by_none(start);
        },
        Rotation::Generator => {
            let step_1 = Orientation {
                direction: Direction { polarity: Polarity::Positive, axis: Axis::Y },
                rotation: Rotation::Generator,
            };
            lemma_turn_entry(start, pos_y(), step_1);
            lemma_turned_by_one(start, pos_y());
        },
        Rotation::Double => {
            let step_1 = Orientation {
                direction: Direction { polarity: Polarity::Positive, axis: Axis::Y },
                rotation: Rotation::Generator,
            };
            lemma_turn_entry(start, pos_y(), step_1);
            let step_2 = Orientation {
                direction: Direction { polarity: Polarity::Positive, axis: Axis::Y },
                rotation: Rotation::Double,
            };
            lemma_turn_entry(step_1, pos_y(), step_2);
            lemma_turned_by_two(start, pos_y(), pos_y());
        },
        Rotation::Prime => {
            let step_1 = Orientation {
                direction: Direction { polarity: Polarity::Positive, axis: Axis::Y },
                rotation: Rotation::Prime,
            };
            lemma_turn_entry(start, neg_y(), step_1);
            lemma_turned_by_one(start, neg_y());
        },
    }
}

/// The four orientations that point to +Z are reached.
proof fn lemma_reached_positive_z(orientation: Orientation)
    requires
        orientation.direction == pos_z(),
    ensures
        turned_by(orientation_at(8), spec_rotation_sequence(orientation)) == orientation,
{
    let start = Orientation { direction: pos_y(), rotation: Rotation::Identity };
    assert(start == orientation_at(8));
    match orientation.rotation {
        Rotation::Identity => {
            let step_1 = Orientation {
                direction: Direction { polarity: Polarity::Positive, axis: Axis::X },
                rotation: Rotation::Double,
            };
            lemma_turn_entry(start, neg_z(), step_1);
            let step_2 = Orientation {
                direction: Direction { polarity: Polarity::Positive, axis: Axis::Z },
                rotation: Rotation::Generator,
            };
            lemma_turn_entry(step_1, neg_y(), step_2);
            let step_3 = Orientation {
                direction: Direction { polarity: Polarity::Positive, axis: Axis::Z },
                rotation: Rotation::Identity,
            };
            lemma_turn_entry(step_2, neg_z(), step_3);
            lemma_turned_by_three(start, neg_z(), neg_y(), neg_z());
        },
        Rotation::Generator => {
            let step_1 = Orientation {
                direction: Direction { polarity: Polarity::Positive, axis: Axis::Z },
                rotation: Rotation::Prime,
            };
            lemma_turn_entry(start, pos_x(), step_1);
            let step_2 = Orientation {
                direction: Direction { polarity: Polarity::Positive, axis: Axis::Z },
                rotation: Rotation::Generator,
            };
            lemma_turn_entry(step_1, neg_z(), step_2);
            lemma_turned_by_two(start, pos_x(), neg_z());
        },
        Rotation::Double => {
            let step_1 = Orientation {
                direction: Direction { polarity: Polarity::Positive, axis: Axis::Z },
                rotation: Rotation::Prime,
            };
            lemma_turn_entry(start, pos_x(), step_1);
            let step_2 = Orientation {
                direction: Direction { polarity: Polarity::Positive, axis: Axis::Z },
                rotation: Rotation::Double,
            };
            lemma_turn_entry(step_1, pos_z(), step_2);
            lemma_turned_by_two(start, pos_x(), pos_z());
        },
        Rotation::Prime => {
            let step_1 = Orientation {
                direction: Direction { polarity: Polarity::Positive, axis: Axis::Z },
                rotation: Rotation::Prime,
            };
            lemma_turn_entry(start, pos_x(), step_1);
            lemma_turned_by_one(start, pos_x());
        },
    }
}

/// The four orientations that point to -X are reached.
proof fn lemma_reached_negative_x(orientation: Orientation)
    requires
        orientation.direction == neg_x(),
    ensures
        turned_by(orientation_at(8), spec_rotation_sequence(orientation)) == orientation,
{
    let start = Orientation { direction: pos_y(), rotation: Rotation::Identity };
    assert(start == orientation_at(8));
    match orientation.rotation {
        Rotation::Identity => {
            let step_1 = Orientation {
                direction: Direction { polarity: Polarity::Positive, axis: Axis::Y },
                rotation: Rotation::Prime,
            };
            lemma_turn_entry(start, neg_y(), step_1);
            let step_2 = Orientation {
                direction: Direction { polarity: Polarity::Negative, axis: Axis::X },
                rotation: Rotation::Double,
            };
            lemma_turn_entry(step_1, pos_z(), step_2);
            let step_3 = Orientation {
                direction: Direction { polarity: Polarity::Negative, axis: Axis::X },
                rotation: Rotation::Identity,
            };
            lemma_turn_entry(step_2, pos_x(), step_3);
            lemma_turned_by_three(start, neg_y(), pos_z(), pos_x());
        },
        Rotation::Generator => {
            let step_1 = Orientation {
                direction: Direction { polarity: Polarity::Negative, axis: Axis::X },
                rotation: Rotation::Generator,
            };
            lemma_turn_entry(start, pos_z(), step_1);
            lemma_turned_by_one(start, pos_z());
        },
        Rotation::Double => {
            let step_1 = Orientation {
                direction: Direction { polarity: Polarity::Positive, axis: Axis::Y },
                rotation: Rotation::Prime,
            };
            lemma_turn_entry(start, neg_y(), step_1);
            let step_2 = Orientation {
                direction: Direction { polarity: Polarity::Negative, axis: Axis::X },
                rotation: Rotation::Double,
            };
            lemma_turn_entry(step_1, pos_z(), step_2);
            lemma_turned_by_two(start, neg_y(), pos_z());
        },
        Rotation::Prime => {
            let step_1 = Orientation {
                direction: Direction { polarity: Polarity::Negative, axis: Axis::X },
                rotation: Rotation::Generator,
            };
            lemma_turn_entry(start, pos_z(), step_1);
            let step_2 = Orientation {
                direction: Direction { polarity: Polarity::Negative, axis: Axis::X },
                rotation: Rotation::Prime,
            };
            lemma_turn_entry(step_1, neg_x(), step_2);
            lemma_turned_by_two(start, pos_z(), neg_x());
        },
    }
}

/// The four orientations that point to -Y are reached.
proof fn lemma_reached_negative_y(orientation: Orientation)
    requires
        orientation.direction == neg_y(),
    ensures
        turned_by(orientation_at(8), spec_rotation_sequence(orientation)) == orientation,
{
    let start = Orientation { direction: pos_y(), rotation: Rotation::Identity };
    assert(start == orientation_at(8));
    match orientation.rotation {
        Rotation::Identity => {
            let step_1 = Orientation {
                direction: Direction { polarity: Polarity::Positive, axis: Axis::Z },
                rotation: Rotation::Prime,
            };
            lemma_turn_entry(start, pos_x(), step_1);
            let step_2 = Orientation {
                direction: Direction { polarity: Polarity::Negative, axis: Axis::X },
                rotation: Rotation::Double,
            };
            lemma_turn_entry(step_1, neg_y(), step_2);
            let step_3 = Orientation {
                direction: Direction { polarity: Polarity::Negative, axis: Axis::Y },
                rotation: Rotation::Identity,
            };
            lemma_turn_entry(step_2, pos_z(), step_3);
            lemma_turned_by_three(start, pos_x(), neg_y(), pos_z());
        },
        Rotation::Generator => {
            let step_1 = Orientation {
                direction: Direction { polarity: Polarity::Positive, axis: Axis::Z },
                rotation: Rotation::Prime,
            };
            lemma_turn_entry(start, pos_x(), step_1);
            let step_2 = Orientation {
                direction: Direction { polarity: Polarity::Negative, axis: Axis::Y },
                rotation: Rotation::Generator,
            };
            lemma_turn_entry(step_1, pos_x(), step_2);
            lemma_turned_by_two(start, pos_x(), pos_x());
        },
        Rotation::Double => {
            let step_1 = Orientation {
                direction: Direction { polarity: Polarity::Positive, axis: Axis::X },
                rotation: Rotation::Double,
            };
            lemma_turn_entry(start, neg_z(), step_1);
            let step_2 = Orientation {
                direction: Direction { polarity: Polarity::Positive, axis: Axis::X },
                rotation: Rotation::Identity,
            };
            lemma_turn_entry(step_1, pos_x(), step_2);
            let step_3 = Orientation {
                direction: Direction { polarity: Polarity::Negative, axis: Axis::Y },
                rotation: Rotation::Double,
            };
            lemma_turn_entry(step_2, neg_z(), step_3);
            lemma_turned_by_three(start, neg_z(), pos_x(), neg_z());
        },
        Rotation::Prime => {
            let step_1 = Orientation {
                direction: Direction { polarity: Polarity::Negative, axis: Axis::X },
                rotation: Rotation::Generator,
            };
            lemma_turn_entry(start, pos_z(), step_1);
            let step_2 = Orientation {
                direction: Direction { polarity: Polarity::Negative, axis: Axis::Y },
                rotation: Rotation::Prime,
            };
            lemma_turn_entry(step_1, pos_z(), step_2);
            lemma_turned_by_two(start, pos_z(), pos_z());
        },
    }
}

/// The four orientations that point to -Z are reached.
proof fn lemma_reached_negative_z(orientation: Orientation)
    requires
        orientation.direction == neg_z(),
    ensures
        turned_by(orientation_at(8), spec_rotation_sequence(orientation)) == orientation,
{
    let start = Orientation { direction: pos_y(), rotation: Rotation::Identity };
    assert(start == orientation_at(8));
    match orientation.rotation {
        Rotation::Identity => {
            let step_1 = Orientation {
                direction: Direction { polarity: Polarity::Negative, axis: Axis::Z },
                rotation: Rotation::Double,
            };
            lemma_turn_entry(start, neg_x(), step_1);
            let step_2 = Orientation {
                direction: Direction { polarity: Polarity::Negative, axis: Axis::Z },
                rotation: Rotation::Identity,
            };
            lemma_turn_entry(step_1, pos_z(), step_2);
            lemma_turned_by_two(start, neg_x(), pos_z());
        },
        Rotation::Generator => {
            let step_1 = Orientation {
                direction: Direction { polarity: Polarity::Positive, axis: Axis::Y },
                rotation: Rotation::Generator,
            };
            lemma_turn_entry(start, pos_y(), step_1);
            let step_2 = Orientation {
                direction: Direction { polarity: Polarity::Negative, axis: Axis::Z },
                rotation: Rotation::Prime,
            };
            lemma_turn_entry(step_1, neg_x(), step_2);
            let step_3 = Orientation {
                direction: Direction { polarity: Polarity::Negative, axis: Axis::Z },
                rotation: Rotation::Generator,
            };
            lemma_turn_entry(step_2, neg_z(), step_3);
            lemma_turned_by_three(start, pos_y(), neg_x(), neg_z());
        },
        Rotation::Double => {
            let step_1 = Orientation {
                direction: Direction { polarity: Polarity::Negative, axis: Axis::Z },
                rotation: Rotation::Double,
            };
            lemma_turn_entry(start, neg_x(), step_1);
            lemma_turned_by_one(start, neg_x());
        },
        Rotation::Prime => {
            let step_1 = Orientation {
                direction: Direction { polarity: Polarity::Negative, axis: Axis::Z },
                rotation: Rotation::Double,
            };
            lemma_turn_entry(start, neg_x(), step_1);
            let step_2 = Orientation {
                direction: Direction { polarity: Polarity::Negative, axis: Axis::Z },
                rotation: Rotation::Prime,
            };
            lemma_turn_entry(step_1, neg_z(), step_2);
            lemma_turned_by_two(start, neg_x(), neg_z());
        },
    }
}

/// Every orientation is reached from the reference attitude by quarter
/// turns: by those that carry the reference shape into the orientation.
pub proof fn lemma_orientation_is_reached(orientation: Orientation)
    ensures
        turned_by(orientation_at(8), spec_rotation_sequence(orientation)) == orientation,
{
    match (orientation.direction.polarity, orientation.direction.axis) {
        (Polarity::Positive, Axis::X) => lemma_reached_positive_x(orientation),
        (Polarity::Positive, Axis::Y) => lemma_reached_positive_y(orientation),
        (Polarity::Positive, Axis::Z) => lemma_reached_positive_z(orientation),
        (Polarity::Negative, Axis::X) => lemma_reached_negative_x(orientation),
        (Polarity::Negative, Axis::Y) => lemma_reached_negative_y(orientation),
        (Polarity::Negative, Axis::Z) => lemma_reached_negative_z(orientation),
    }
}

} // verus!
