//! The catalog of shapes: one entry for each variant in each orientation.

use vstd::prelude::*;
use crate::axis::Axis;
use crate::bitfield::{canonical_cells, in_cube, rotated_cells, spec_rotation_size, Bitfield};
use crate::direction::{lemma_opposite_turn_undoes, Cell, Direction};
use crate::orientation::Orientation;
use crate::polarity::Polarity;
use crate::rotation::Rotation;
use crate::rotations::{
    generate_rotations, lemma_index_names_orientation, orientation_at, spec_rotate,
};
use crate::shape::Shape;
use crate::shape_id::ShapeId;
use crate::tetromino::Tetromino;

verus! {

/// The direction +X.
pub open spec fn pos_x() -> Direction {
    Direction { polarity: Polarity::Positive, axis: Axis::X }
}

/// The direction -X.
pub open spec fn neg_x() -> Direction {
    Direction { polarity: Polarity::Negative, axis: Axis::X }
}

/// The direction +Y.
pub open spec fn pos_y() -> Direction {
    Direction { polarity: Polarity::Positive, axis: Axis::Y }
}

/// The direction -Y.
pub open spec fn neg_y() -> Direction {
    Direction { polarity: Polarity::Negative, axis: Axis::Y }
}

/// The direction +Z.
pub open spec fn pos_z() -> Direction {
    Direction { polarity: Polarity::Positive, axis: Axis::Z }
}

/// The direction -Z.
pub open spec fn neg_z() -> Direction {
    Direction { polarity: Polarity::Negative, axis: Axis::Z }
}

/// The quarter turns that carry the reference attitude into `orientation`,
/// in the order in which they are made.
pub open spec fn spec_rotation_sequence(orientation: Orientation) -> Seq<Direction> {
    match (orientation.direction.polarity, orientation.direction.axis, orientation.rotation) {
        (Polarity::Positive, Axis::X, Rotation::Identity) => seq![pos_y(), neg_z()],
        (Polarity::Positive, Axis::X, Rotation::Generator) => seq![neg_z(), neg_x()],
        (Polarity::Positive, Axis::X, Rotation::Double) => seq![neg_z()],
        (Polarity::Positive, Axis::X, Rotation::Prime) => seq![pos_y(), neg_z(), pos_x()],
        (Polarity::Positive, Axis::Y, Rotation::Identity) => Seq::empty(),
        (Polarity::Positive, Axis::Y, Rotation::Generator) => seq![pos_y()],
        (Polarity::Positive, Axis::Y, Rotation::Double) => seq![pos_y(), pos_y()],
        (Polarity::Positive, Axis::Y, Rotation::Prime) => seq![neg_y()],
        (Polarity::Positive, Axis::Z, Rotation::Identity) => seq![neg_z(), neg_y(), neg_z()],
        (Polarity::Positive, Axis::Z, Rotation::Generator) => seq![pos_x(), neg_z()],
        (Polarity::Positive, Axis::Z, Rotation::Double) => seq![pos_x(), pos_z()],
        (Polarity::Positive, Axis::Z, Rotation::Prime) => seq![pos_x()],
        (Polarity::Negative, Axis::X, Rotation::Identity) => seq![neg_y(), pos_z(), pos_x()],
        (Polarity::Negative, Axis::X, Rotation::Generator) => seq![pos_z()],
        (Polarity::Negative, Axis::X, Rotation::Double) => seq![neg_y(), pos_z()],
        (Polarity::Negative, Axis::X, Rotation::Prime) => seq![pos_z(), neg_x()],
        (Polarity::Negative, Axis::Y, Rotation::Identity) => seq![pos_x(), neg_y(), pos_z()],
        (Polarity::Negative, Axis::Y, Rotation::Generator) => seq![pos_x(), pos_x()],
        (Polarity::Negative, Axis::Y, Rotation::Double) => seq![neg_z(), pos_x(), neg_z()],
        (Polarity::Negative, Axis::Y, Rotation::Prime) => seq![pos_z(), pos_z()],
        (Polarity::Negative, Axis::Z, Rotation::Identity) => seq![neg_x(), pos_z()],
        (Polarity::Negative, Axis::Z, Rotation::Generator) => seq![pos_y(), neg_x(), neg_z()],
        (Polarity::Negative, Axis::Z, Rotation::Double) => seq![neg_x()],
        (Polarity::Negative, Axis::Z, Rotation::Prime) => seq![neg_x(), neg_z()],
    }
}

/// The cells that the quarter turns of `turns`, made one after another in
/// the cube of edge `size`, make of `cells`.
pub open spec fn turn_all(cells: Set<Cell>, turns: Seq<Direction>, size: int) -> Set<Cell>
    decreases turns.len(),
{
    if turns.len() == 0 {
        cells
    } else {
        rotated_cells(turn_all(cells, turns.drop_last(), size), turns.last(), size)
    }
}

/// The cells of `variant` in `orientation`.
pub open spec fn oriented_cells(variant: Tetromino, orientation: Orientation) -> Set<Cell> {
    turn_all(
        canonical_cells(variant),
        spec_rotation_sequence(orientation),
        spec_rotation_size(variant),
    )
}

/// Whether `shape` is the catalog entry of `id`: it has the cells of the
/// variant in the orientation, with their boards and their box.
pub open spec fn is_catalog_entry(shape: Shape, id: ShapeId) -> bool {
    shape.wf() && shape@ == oriented_cells(id.variant, id.orientation)
}

/// The variant at `index` in the order I, O, T, L, S, B, D, F.
pub open spec fn variant_at(index: int) -> Tetromino {
    if index == 0 {
        Tetromino::I
    } else if index == 1 {
        Tetromino::O
    } else if index == 2 {
        Tetromino::T
    } else if index == 3 {
        Tetromino::L
    } else if index == 4 {
        Tetromino::S
    } else if index == 5 {
        Tetromino::B
    } else if index == 6 {
        Tetromino::D
    } else {
        Tetromino::F
    }
}

/// The shape id with the dense index `index`, for `index` in 0..192.
pub open spec fn shape_id_at(index: int) -> ShapeId {
    ShapeId { variant: variant_at(index / 24), orientation: orientation_at(index % 24) }
}

fn positive(axis: Axis) -> (direction: Direction)
    ensures
        direction == (Direction { polarity: Polarity::Positive, axis }),
{
    Direction { polarity: Polarity::Positive, axis }
}

fn negative(axis: Axis) -> (direction: Direction)
    ensures
        direction == (Direction { polarity: Polarity::Negative, axis }),
{
    Direction { polarity: Polarity::Negative, axis }
}

/// The quarter turns that carry the reference attitude into `orientation`.
pub fn rotation_sequence(orientation: Orientation) -> (turns: Vec<Direction>)
    ensures
        turns@ == spec_rotation_sequence(orientation),
        turns@.len() <= 3,
{
    let pos_x = positive(Axis::X);
    let neg_x = negative(Axis::X);
    let pos_y = positive(Axis::Y);
    let neg_y = negative(Axis::Y);
    let pos_z = positive(Axis::Z);
    let neg_z = negative(Axis::Z);
    let turns = match (
        orientation.direction.polarity,
        orientation.direction.axis,
        orientation.rotation,
    ) {
        (Polarity::Positive, Axis::X, Rotation::Identity) => vec![pos_y, neg_z],
        (Polarity::Positive, Axis::X, Rotation::Generator) => vec![neg_z, neg_x],
        (Polarity::Positive, Axis::X, Rotation::Double) => vec![neg_z],
        (Polarity::Positive, Axis::X, Rotation::Prime) => vec![pos_y, neg_z, pos_x],
        (Polarity::Positive, Axis::Y, Rotation::Identity) => Vec::new(),
        (Polarity::Positive, Axis::Y, Rotation::Generator) => vec![pos_y],
        (Polarity::Positive, Axis::Y, Rotation::Double) => vec![pos_y, pos_y],
        (Polarity::Positive, Axis::Y, Rotation::Prime) => vec![neg_y],
        (Polarity::Positive, Axis::Z, Rotation::Identity) => vec![neg_z, neg_y, neg_z],
        (Polarity::Positive, Axis::Z, Rotation::Generator) => vec![pos_x, neg_z],
        (Polarity::Positive, Axis::Z, Rotation::Double) => vec![pos_x, pos_z],
        (Polarity::Positive, Axis::Z, Rotation::Prime) => vec![pos_x],
        (Polarity::Negative, Axis::X, Rotation::Identity) => vec![neg_y, pos_z, pos_x],
        (Polarity::Negative, Axis::X, Rotation::Generator) => vec![pos_z],
        (Polarity::Negative, Axis::X, Rotation::Double) => vec![neg_y, pos_z],
        (Polarity::Negative, Axis::X, Rotation::Prime) => vec![pos_z, neg_x],
        (Polarity::Negative, Axis::Y, Rotation::Identity) => vec![pos_x, neg_y, pos_z],
        (Polarity::Negative, Axis::Y, Rotation::Generator) => vec![pos_x, pos_x],
        (Polarity::Negative, Axis::Y, Rotation::Double) => vec![neg_z, pos_x, neg_z],
        (Polarity::Negative, Axis::Y, Rotation::Prime) => vec![pos_z, pos_z],
        (Polarity::Negative, Axis::Z, Rotation::Identity) => vec![neg_x, pos_z],
        (Polarity::Negative, Axis::Z, Rotation::Generator) => vec![pos_y, neg_x, neg_z],
        (Polarity::Negative, Axis::Z, Rotation::Double) => vec![neg_x],
        (Polarity::Negative, Axis::Z, Rotation::Prime) => vec![neg_x, neg_z],
    };
    assert(turns@ =~= spec_rotation_sequence(orientation));
    turns
}

/// Every cell of a variant in its reference attitude lies in the variant's
/// cube, and there is one.
pub proof fn lemma_canonical_in_cube(variant: Tetromino)
    ensures
        forall|cell: Cell| #[trigger]
            canonical_cells(variant).contains(cell) ==> in_cube(cell, spec_rotation_size(variant)),
        exists|cell: Cell| #[trigger] canonical_cells(variant).contains(cell),
{
    match variant {
        Tetromino::I => assert(canonical_cells(variant).contains((2, 0, 2))),
        Tetromino::O => assert(canonical_cells(variant).contains((0, 1, 0))),
        Tetromino::T => assert(canonical_cells(variant).contains((0, 1, 1))),
        Tetromino::L => assert(canonical_cells(variant).contains((1, 0, 1))),
        Tetromino::S => assert(canonical_cells(variant).contains((0, 1, 1))),
        Tetromino::B => assert(canonical_cells(variant).contains((1, 0, 0))),
        Tetromino::D => assert(canonical_cells(variant).contains((0, 0, 0))),
        Tetromino::F => assert(canonical_cells(variant).contains((0, 0, 0))),
    }
}

/// Quarter turns lose no cell: where every cell lies in the cube that is
/// turned and there is a cell, the same holds after the turns.
pub proof fn lemma_turns_keep_cells(cells: Set<Cell>, turns: Seq<Direction>, size: int)
    requires
        forall|cell: Cell| #[trigger] cells.contains(cell) ==> in_cube(cell, size),
        exists|cell: Cell| #[trigger] cells.contains(cell),
    ensures
        forall|cell: Cell| #[trigger]
            turn_all(cells, turns, size).contains(cell) ==> in_cube(cell, size),
        exists|cell: Cell| #[trigger] turn_all(cells, turns, size).contains(cell),
    decreases turns.len(),
{
    if turns.len() > 0 {
        let before = turn_all(cells, turns.drop_last(), size);
        lemma_turns_keep_cells(cells, turns.drop_last(), size);
        let kept = choose|cell: Cell| #[trigger] before.contains(cell);
        let around = turns.last();
        lemma_opposite_turn_undoes(around, kept, size);
        let carried = around.spec_rotate_coordinate(kept, size);
        assert(rotated_cells(before, around, size).contains(carried));
        assert(turn_all(cells, turns, size).contains(carried));
    } else {
        let kept = choose|cell: Cell| #[trigger] cells.contains(cell);
        assert(turn_all(cells, turns, size).contains(kept));
    }
}

/// Every catalog entry has a cell: the box around it is not empty, and it
/// lies inside the cube of the variant, which is no larger than the local
/// cube of 4 x 4 x 4 cells.
pub proof fn lemma_catalog_entry_total(shape: Shape, id: ShapeId)
    requires
        is_catalog_entry(shape, id),
    ensures
        shape.bounding_box.spec_non_empty(),
        shape.bounding_box.end[0] < spec_rotation_size(id.variant) <= 4,
        shape.bounding_box.end[1] < spec_rotation_size(id.variant),
        shape.bounding_box.end[2] < spec_rotation_size(id.variant),
        exists|cell: Cell| #[trigger] shape@.contains(cell),
        forall|cell: Cell| #[trigger]
            shape@.contains(cell) ==> in_cube(cell, spec_rotation_size(id.variant)),
{
    let size = spec_rotation_size(id.variant);
    lemma_canonical_in_cube(id.variant);
    lemma_turns_keep_cells(
        canonical_cells(id.variant),
        spec_rotation_sequence(id.orientation),
        size,
    );
    let cells = shape@;
    let bounds = shape.bounding_box;
    let any = choose|cell: Cell| #[trigger] cells.contains(cell);
    assert(bounds.spec_contains(any));
    let right = choose|cell: Cell| #[trigger] cells.contains(cell) && cell.0 == bounds.end[0];
    let top = choose|cell: Cell| #[trigger] cells.contains(cell) && cell.1 == bounds.end[1];
    let far = choose|cell: Cell| #[trigger] cells.contains(cell) && cell.2 == bounds.end[2];
    assert(in_cube(right, size) && in_cube(top, size) && in_cube(far, size));
}

/// Builds the catalog of shapes: for each variant and each orientation the
/// variant's reference shape, turned into the orientation, with its boards
/// and its box. The entry of an id stands at the id's dense index.
pub fn generate_shapes() -> (shapes: [Shape; 192])
    ensures
        forall|id: ShapeId| #[trigger] is_catalog_entry(shapes[id.spec_combination()], id),
{
    let mut shapes = [Shape::from(Bitfield { value: 0 }); 192];
    let mut index: usize = 0;
    while index < 192
        invariant
            index <= 192,
            forall|done: int|
                0 <= done < index ==> is_catalog_entry(#[trigger] shapes[done], shape_id_at(done)),
        decreases 192 - index,
    {
        let variant = Tetromino::from(index / 24);
        let orientation = Orientation::from_combination(index % 24);
        proof {
            lemma_index_names_orientation(orientation);
            assert(ShapeId { variant, orientation } == shape_id_at(index as int));
        }
        let rotation_size = Bitfield::rotation_size(variant);
        let canonical = Bitfield::canonical(variant);
        let directions = rotation_sequence(orientation);

        let mut orientated = canonical;
        let mut turn: usize = 0;
        proof {
            lemma_canonical_in_cube(variant);
            assert(directions@.take(0) =~= Seq::empty());
        }
        while turn < directions.len()
            invariant
                turn <= directions.len(),
                rotation_size == spec_rotation_size(variant),
                orientated@ == turn_all(
                    canonical_cells(variant),
                    directions@.take(turn as int),
                    rotation_size as int,
                ),
                forall|cell: Cell| #[trigger]
                    orientated@.contains(cell) ==> in_cube(cell, rotation_size as int),
            decreases directions.len() - turn,
        {
            let ghost before = orientated@;
            orientated = orientated.rotate(directions[turn], rotation_size);
            proof {
                let taken = directions@.take(turn as int + 1);
                assert(taken.drop_last() =~= directions@.take(turn as int));
                assert(taken.last() == directions@[turn as int]);
            }
            turn += 1;
        }
        proof {
            assert(directions@.take(turn as int) =~= directions@);
        }
        shapes[index] = Shape::from(orientated);
        index += 1;
    }
    proof {
        assert forall|id: ShapeId| #[trigger]
            is_catalog_entry(shapes[id.spec_combination()], id) by {
            lemma_index_names_orientation(id.orientation);
            let at = id.spec_combination();
            assert(0 <= at < 192);
            assert(at / 24 == id.variant.spec_index());
            assert(at % 24 == id.orientation.spec_combination());
            assert(shape_id_at(at) == id);
        }
    }
    shapes
}

/// The precomputed tables: the shape of every variant in every orientation,
/// and the orientation that every quarter turn makes of every orientation.
/// A catalog is built once and only read afterwards.
pub struct Catalog {
    shapes: [Shape; 192],
    rotations: [Orientation; 144],
}

impl Catalog {
    #[verifier::type_invariant]
    spec fn complete(self) -> bool {
        &&& forall|id: ShapeId| #[trigger] is_catalog_entry(self.shapes[id.spec_combination()], id)
        &&& forall|orientation: Orientation, around: Direction|
            #[trigger] self.rotations[orientation.spec_rotation_combination(around)]
                == spec_rotate(orientation, around)
    }

    /// Computes both tables: the table of shapes holds, at the dense index
    /// of each shape id, the catalog entry of that id, and the table of
    /// quarter turns holds, at the dense index of each pair of an orientation
    /// and a direction, the orientation that the turn makes.
    pub fn new() -> (catalog: Self)
        ensures
            catalog.spec_shapes().len() == 192,
            catalog.spec_rotations().len() == 144,
            forall|id: ShapeId| #[trigger]
                is_catalog_entry(catalog.spec_shapes()[id.spec_combination()], id),
            forall|orientation: Orientation, around: Direction|
                #[trigger] catalog.spec_rotations()[orientation.spec_rotation_combination(around)]
                    == spec_rotate(orientation, around),
    {
        Catalog { shapes: generate_shapes(), rotations: generate_rotations() }
    }

    /// The entry of `id`.
    pub fn shape(&self, id: &ShapeId) -> (shape: &Shape)
        ensures
            is_catalog_entry(*shape, *id),
            *shape == self.spec_shapes()[id.spec_combination()],
    {
        proof {
            use_type_invariant(self);
        }
        &self.shapes[id.combination()]
    }

    /// The orientation that a quarter turn about `around` makes of
    /// `orientation`.
    pub fn rotation(&self, orientation: Orientation, around: Direction) -> (turned: Orientation)
        ensures
            turned == spec_rotate(orientation, around),
            turned == self.spec_rotations()[orientation.spec_rotation_combination(around)],
    {
        proof {
            use_type_invariant(self);
        }
        self.rotations[orientation.rotation_combination(around)]
    }

    /// The table of shapes, by the dense index of the shape id.
    pub closed spec fn spec_shapes(self) -> Seq<Shape> {
        self.shapes@
    }

    /// The table of quarter turns, by the dense index of the pair of an
    /// orientation and a direction to turn about.
    pub closed spec fn spec_rotations(self) -> Seq<Orientation> {
        self.rotations@
    }
}

} // verus!
