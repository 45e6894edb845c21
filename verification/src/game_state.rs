//! The playfield engine: collision, moves, turns, drops, locking and the
//! clearing of layers.

use vstd::prelude::*;
use crate::action::Action;
use crate::bits::{
    bit_at, board_has, lemma_bit_of_and, lemma_bit_of_shift_left, lemma_bit_of_shift_right,
    lemma_board_cell_of_bit, lemma_nonzero_has_set_bit, lemma_set_bit_means_nonzero,
};
use crate::bitfield::{canonical_cells, in_cube, spec_rotation_size};
use crate::catalog::{
    lemma_canonical_in_cube, lemma_catalog_entry_total, lemma_turns_keep_cells,
    oriented_cells, spec_rotation_sequence, Catalog,
};
use crate::piece::spawn_position;
use crate::rotations::orientation_at;
use crate::tetromino::Tetromino;
use crate::direction::{Cell, Direction};
use crate::layer::Layer;
use crate::piece::Piece;
use crate::queue::Queue;
use crate::shape::Shape;
use crate::shape_id::ShapeId;

verus! {

/// A game in progress: the falling piece, the locked cells of the playfield
/// of `W` x `H` x `D` cells, layer by layer from the floor up, the supply of
/// pieces, and the actions made so far.
#[derive(Debug, PartialEq, Eq, Hash)]
pub struct GameState<const W: usize, const H: usize, const D: usize> {
    pub history: Vec<Action>,
    pub queue: Queue,
    pub piece: Piece,
    pub playfield: [Layer<W, D>; H],
}

/// Number of hard drops among the first `upto` actions.
pub open spec fn hard_drops_before(history: Seq<Action>, upto: int) -> int
    decreases upto,
{
    if upto <= 0 {
        0
    } else {
        hard_drops_before(history, upto - 1) + if history[upto - 1] == Action::HardDrop {
            1int
        } else {
            0int
        }
    }
}

/// The board moved by `by` bits: to higher bits for a positive `by`, to
/// lower bits else.
pub open spec fn spec_translate(board: u64, by: int) -> u64 {
    if by > 0 {
        board << (by as u64)
    } else {
        board >> ((-by) as u64)
    }
}

/// The cell at `offset` from `origin`.
pub open spec fn cell_at(origin: Cell, offset: Cell) -> Cell {
    (origin.0 + offset.0, origin.1 + offset.1, origin.2 + offset.2)
}

/// Whether `cell` is locked in the layers.
pub open spec fn locked_at<const W: usize, const D: usize>(
    layers: Seq<Layer<W, D>>,
    cell: Cell,
) -> bool {
    0 <= cell.1 < layers.len() && layers[cell.1].spec_locked(cell.0, cell.2)
}

/// Whether `cell` lies in the field of the given extents.
pub open spec fn in_field(cell: Cell, width: int, height: int, depth: int) -> bool {
    0 <= cell.0 < width && 0 <= cell.1 < height && 0 <= cell.2 < depth
}

/// Whether a shape with the local cells `cells` can stand with its origin
/// at `origin`: each of its cells lies in the field and is not locked.
pub open spec fn cells_fit<const W: usize, const D: usize>(
    layers: Seq<Layer<W, D>>,
    cells: Set<Cell>,
    origin: Cell,
) -> bool {
    forall|cell: Cell| #[trigger]
        cells.contains(cell) ==> {
            &&& in_field(cell_at(origin, cell), W as int, layers.len() as int, D as int)
            &&& !locked_at(layers, cell_at(origin, cell))
        }
}

/// Whether the layers `after` are the layers `before` with the cells of a
/// shape locked for the variant at `variant`: the shape has the local cells
/// `cells` and stands with its origin at `origin`. Of the cells of the shape
/// only those below the local height `upto` are asked for.
pub open spec fn placed_below<const W: usize, const D: usize>(
    before: Seq<Layer<W, D>>,
    after: Seq<Layer<W, D>>,
    cells: Set<Cell>,
    origin: Cell,
    variant: int,
    upto: int,
) -> bool {
    &&& after.len() == before.len()
    &&& forall|board: int, x: int, y: int, z: int|
        0 <= board < 8 && 0 <= y < before.len() ==> (#[trigger] board_has(
            after[y].bitboards[board],
            x,
            z,
        ) <==> (board_has(before[y].bitboards[board], x, z) || (board == variant && y - origin.1
            < upto && cells.contains((x - origin.0, y - origin.1, z - origin.2)))))
}

/// Whether the layers `after` are the layers `before` with the cells of a
/// shape locked for the variant at `variant`.
pub open spec fn placed<const W: usize, const D: usize>(
    before: Seq<Layer<W, D>>,
    after: Seq<Layer<W, D>>,
    cells: Set<Cell>,
    origin: Cell,
    variant: int,
) -> bool {
    placed_below(before, after, cells, origin, variant, 4)
}

/// The layers among the first `upto` that are not full, in their order.
pub open spec fn kept_layers<const W: usize, const D: usize>(
    layers: Seq<Layer<W, D>>,
    upto: int,
) -> Seq<Layer<W, D>>
    decreases upto,
{
    if upto <= 0 {
        Seq::empty()
    } else if layers[upto - 1].spec_is_full() {
        kept_layers(layers, upto - 1)
    } else {
        kept_layers(layers, upto - 1).push(layers[upto - 1])
    }
}

/// Whether the layers `after` are the layers `before` with the full layers
/// taken out: the other layers have moved down in their order, and above
/// them stand as many empty layers as were taken out.
pub open spec fn cleared<const W: usize, const D: usize>(
    before: Seq<Layer<W, D>>,
    after: Seq<Layer<W, D>>,
) -> bool {
    let kept = kept_layers(before, before.len() as int);
    &&& after.len() == before.len()
    &&& after.take(kept.len() as int) == kept
    &&& forall|above: int| kept.len() <= above < after.len() ==> (#[trigger] after[above]).spec_is_empty()
}

/// No more layers are kept than there are.
pub proof fn lemma_kept_layers_len<const W: usize, const D: usize>(
    layers: Seq<Layer<W, D>>,
    upto: int,
)
    requires
        0 <= upto,
    ensures
        kept_layers(layers, upto).len() <= upto,
    decreases upto,
{
    if upto > 0 {
        lemma_kept_layers_len(layers, upto - 1);
    }
}

/// A board moved by `x + z * 8` bits marks the cell (`column`, `row`)
/// where the board marked the cell that lies `x` and `z` before it, as long
/// as the move carries no marked cell off the square of 8 x 8 cells.
pub proof fn lemma_translated_cell(board: u64, x: int, z: int, column: int, row: int)
    requires
        -64 < x + z * 8 < 64,
        forall|from_x: int, from_z: int| #[trigger]
            board_has(board, from_x, from_z) ==> 0 <= from_x + x < 8 && 0 <= from_z + z < 8,
    ensures
        board_has(spec_translate(board, x + z * 8), column, row) <==> board_has(
            board,
            column - x,
            row - z,
        ),
{
    let by = x + z * 8;
    let moved = spec_translate(board, by);
    if 0 <= column < 8 && 0 <= row < 8 {
        let position = column + row * 8;
        let source = position - by;
        if by > 0 {
            lemma_bit_of_shift_left(board, by, position);
        } else {
            lemma_bit_of_shift_right(board, -by, position);
        }
        assert(bit_at(moved, position) <==> (0 <= source < 64 && bit_at(board, source)));
        if 0 <= source < 64 && bit_at(board, source) {
            lemma_board_cell_of_bit(board, source);
            let from_x = source % 8;
            let from_z = source / 8;
            assert(board_has(board, from_x, from_z));
            assert(from_x + x + (from_z + z) * 8 == column + row * 8);
            assert(from_x + x == column && from_z + z == row);
        }
    } else {
        if board_has(board, column - x, row - z) {
            assert(false);
        }
    }
}

impl<const W: usize, const H: usize, const D: usize> Clone for GameState<W, H, D> {
    fn clone(&self) -> (copy: Self)
        ensures
            copy.spec_same(*self),
    {
        let history = self.history.clone();
        proof {
            assert(history@ =~= self.history@);
        }
        GameState {
            history,
            queue: self.queue.clone(),
            piece: self.piece,
            playfield: self.playfield,
        }
    }
}

impl<const W: usize, const H: usize, const D: usize> GameState<W, H, D> {
    /// Whether the two states hold the same: the same history, bags, hold,
    /// piece and layers.
    pub open spec fn spec_same(self, other: Self) -> bool {
        &&& self.history@ == other.history@
        &&& self.queue.spec_same(other.queue)
        &&& self.piece == other.piece
        &&& self.playfield == other.playfield
    }

    /// Whether the playfield has extents that a board can hold and that
    /// leave room for every piece, and a height that coordinates can count.
    pub open spec fn spec_sized() -> bool {
        4 <= W <= 8 && 4 <= D <= 8 && 4 <= H <= isize::MAX - 4
    }

    /// Whether the piece, turned by a quarter turn about `along` if one is
    /// given and moved by `offset`, stands on free cells of the field.
    pub open spec fn spec_fits(self, offset: Cell, along: Option<Direction>) -> bool {
        let id = match along {
            Some(direction) => self.piece.shape_id.spec_rotate(direction),
            None => self.piece.shape_id,
        };
        cells_fit(
            self.playfield@,
            oriented_cells(id.variant, id.orientation),
            cell_at(self.piece.spec_position(), offset),
        )
    }

    /// The cells of the playfield that the piece would take, turned by a
    /// quarter turn about `along` if one is given and moved by `offset`.
    pub open spec fn spec_footprint(self, offset: Cell, along: Option<Direction>) -> Set<Cell> {
        let id = match along {
            Some(direction) => self.piece.shape_id.spec_rotate(direction),
            None => self.piece.shape_id,
        };
        let origin = cell_at(self.piece.spec_position(), offset);
        Set::new(
            |cell: Cell|
                oriented_cells(id.variant, id.orientation).contains(
                    (cell.0 - origin.0, cell.1 - origin.1, cell.2 - origin.2),
                ),
        )
    }

    /// Moves a board by `x` cells in width and `z` cells in depth.
    pub fn translate(bitboard: u64, x: isize, z: isize) -> (moved: u64)
        requires
            -64 < x + z * 8 < 64,
            isize::MIN <= z * 8 <= isize::MAX,
        ensures
            moved == spec_translate(bitboard, x + z * 8),
    {
        let shift_value = x + z * 8;

        if shift_value > 0 {
            bitboard << shift_value
        } else {
            bitboard >> -shift_value
        }
    }

    /// Whether `position` lies outside the field.
    pub fn out_of_bounds(position: [isize; 3]) -> (outside: bool)
        requires
            W <= isize::MAX,
            H <= isize::MAX,
            D <= isize::MAX,
        ensures
            outside == !in_field(
                (position[0] as int, position[1] as int, position[2] as int),
                W as int,
                H as int,
                D as int,
            ),
    {
        let x = position[0];
        let y = position[1];
        let z = position[2];

        (x < 0 || y < 0 || z < 0) || (x >= W as isize || y >= H as isize || z >= D as isize)
    }

    /// Whether the piece, turned by a quarter turn about `along` if one is
    /// given and moved by `offset`, stands on free cells of the field.
    pub fn fits(&self, catalog: &Catalog, offset: [isize; 3], along: Option<Direction>) -> (fits: bool)
        requires
            W <= 8,
            D <= 8,
            H <= isize::MAX,
            isize::MIN <= self.piece.position[0] + offset[0] <= isize::MAX - 3,
            isize::MIN <= self.piece.position[1] + offset[1] <= isize::MAX - 3,
            isize::MIN <= self.piece.position[2] + offset[2] <= isize::MAX - 3,
        ensures
            fits == self.spec_fits(
                (offset[0] as int, offset[1] as int, offset[2] as int),
                along,
            ),
    {
        let mut shape_id = self.piece.shape_id;
        if let Some(direction) = along {
            shape_id = ShapeId {
                variant: shape_id.variant,
                orientation: catalog.rotation(shape_id.orientation, direction),
            };
        }
        let x = self.piece.position[0] + offset[0];
        let y = self.piece.position[1] + offset[1];
        let z = self.piece.position[2] + offset[2];

        let shape = catalog.shape(&shape_id);
        let start_x = shape.bounding_box.start[0];
        let start_y = shape.bounding_box.start[1];
        let start_z = shape.bounding_box.start[2];
        let end_x = shape.bounding_box.end[0];
        let end_y = shape.bounding_box.end[1];
        let end_z = shape.bounding_box.end[2];
        let ghost cells = shape@;
        let ghost origin: Cell = (x as int, y as int, z as int);
        let ghost layers = self.playfield@;
        proof {
            lemma_catalog_entry_total(*shape, shape_id);
            assert(cells == oriented_cells(shape_id.variant, shape_id.orientation));
            assert(origin == cell_at(
                self.piece.spec_position(),
                (offset[0] as int, offset[1] as int, offset[2] as int),
            ));
        }

        let low = [x + start_x as isize, y + start_y as isize, z + start_z as isize];
        let high = [x + end_x as isize, y + end_y as isize, z + end_z as isize];
        if Self::out_of_bounds(low) || Self::out_of_bounds(high) {
            proof {
                if cells_fit(layers, cells, origin) {
                    Self::lemma_corners_in_field(*shape, origin);
                }
            }
            return false;
        }
        let ghost wanted = self.spec_fits(
            (offset[0] as int, offset[1] as int, offset[2] as int),
            along,
        );
        assert(wanted == cells_fit(layers, cells, origin));
        let mut i = start_y;
        while i <= end_y
            invariant
                wanted == cells_fit(layers, cells, origin),
                wanted == self.spec_fits(
                    (offset[0] as int, offset[1] as int, offset[2] as int),
                    along,
                ),
                W <= 8,
                D <= 8,
                H <= isize::MAX,
                shape.wf(),
                cells == shape@,
                layers == self.playfield@,
                origin == (x as int, y as int, z as int),
                start_y == shape.bounding_box.start[1],
                end_y == shape.bounding_box.end[1],
                start_y <= i <= end_y + 1,
                end_y < 4,
                0 <= y + start_y,
                y + end_y < H,
                0 <= x + shape.bounding_box.start[0],
                x + shape.bounding_box.end[0] < W,
                0 <= z + shape.bounding_box.start[2],
                z + shape.bounding_box.end[2] < D,
                shape.bounding_box.end[0] < 4,
                shape.bounding_box.end[2] < 4,
                forall|cell: Cell| #[trigger]
                    cells.contains(cell) && cell.1 < i ==> !locked_at(layers, cell_at(origin, cell)),
            decreases end_y + 1 - i,
        {
            let layer = &self.playfield[(y + i as isize) as usize];
            let board = shape.bitboards[i];
            proof {
                assert forall|from_x: int, from_z: int| #[trigger]
                    board_has(board, from_x, from_z) implies 0 <= from_x + x < 8 && 0 <= from_z + z
                    < 8 by {
                    assert(shape.bitfield.has((from_x, i as int, from_z)));
                    assert(cells.contains((from_x, i as int, from_z)));
                    assert(shape.bounding_box.spec_contains((from_x, i as int, from_z)));
                }
            }
            let moved = Self::translate(board, x, z);
            let occupied = layer.occupied();
            if occupied & moved != 0 {
                proof {
                    lemma_nonzero_has_set_bit(occupied & moved);
                    let position = choose|position: int| bit_at(occupied & moved, position);
                    lemma_bit_of_and(occupied, moved, position);
                    lemma_board_cell_of_bit(occupied, position);
                    lemma_board_cell_of_bit(moved, position);
                    let column = position % 8;
                    let row = position / 8;
                    lemma_translated_cell(board, x as int, z as int, column, row);
                    let cell: Cell = (column - x, i as int, row - z);
                    assert(shape.bitfield.has(cell));
                    assert(cells.contains(cell));
                    assert(cell_at(origin, cell) == (column, y + i, row));
                    assert(locked_at(layers, cell_at(origin, cell)));
                    assert(!wanted);
                }
                return false;
            }
            proof {
                assert forall|cell: Cell| #[trigger]
                    cells.contains(cell) && cell.1 < i + 1 implies !locked_at(
                    layers,
                    cell_at(origin, cell),
                ) by {
                    if cell.1 == i {
                        assert(shape.bounding_box.spec_contains(cell));
                        let column = cell.0 + x;
                        let row = cell.2 + z;
                        lemma_translated_cell(board, x as int, z as int, column, row);
                        assert(board_has(board, cell.0, cell.2));
                        assert(board_has(moved, column, row));
                        if board_has(occupied, column, row) {
                            lemma_bit_of_and(occupied, moved, column + row * 8);
                            lemma_set_bit_means_nonzero(occupied & moved, column + row * 8);
                        }
                    }
                }
            }
            i += 1;
        }
        proof {
            assert forall|cell: Cell| #[trigger] cells.contains(cell) implies in_field(
                cell_at(origin, cell),
                W as int,
                layers.len() as int,
                D as int,
            ) && !locked_at(layers, cell_at(origin, cell)) by {
                assert(shape.bounding_box.spec_contains(cell));
            }
        }
        true
    }

    /// Whether every cell of the piece lies in the field.
    pub open spec fn spec_piece_in_field(self) -> bool {
        forall|cell: Cell| #[trigger]
            self.piece.spec_cells().contains(cell) ==> in_field(
                cell_at(self.piece.spec_position(), cell),
                W as int,
                H as int,
                D as int,
            )
    }

    /// Whether the state is one that play can go on from.
    pub open spec fn wf(self) -> bool {
        Self::spec_sized() && self.queue.wf() && self.spec_piece_in_field()
    }

    /// Locks the piece where it stands: its cells are marked on the boards
    /// of its variant.
    pub fn place_piece(&mut self, catalog: &Catalog)
        requires
            W <= 8,
            D <= 8,
            H <= isize::MAX,
            old(self).spec_piece_in_field(),
        ensures
            final(self).history == old(self).history,
            final(self).queue == old(self).queue,
            final(self).piece == old(self).piece,
            placed(
                old(self).playfield@,
                final(self).playfield@,
                old(self).piece.spec_cells(),
                old(self).piece.spec_position(),
                old(self).piece.shape_id.variant.spec_index(),
            ),
    {
        let x = self.piece.position[0];
        let y = self.piece.position[1];
        let z = self.piece.position[2];
        let variant = self.piece.shape_id.variant.index();

        let shape = catalog.shape(&self.piece.shape_id);
        let start_y = shape.bounding_box.start[1];
        let end_y = shape.bounding_box.end[1];
        let ghost cells = shape@;
        let ghost origin: Cell = (x as int, y as int, z as int);
        let ghost before = self.playfield@;
        proof {
            lemma_catalog_entry_total(*shape, self.piece.shape_id);
            assert(cells == self.piece.spec_cells());
            assert(origin == self.piece.spec_position());
            assert forall|cell: Cell| #[trigger] shape@.contains(cell) implies in_field(
                cell_at(origin, cell),
                W as int,
                H as int,
                D as int,
            ) by {
                assert(self.piece.spec_cells().contains(cell));
            }
            Self::lemma_corners_in_field(*shape, origin);
        }

        let mut i = start_y;
        while i <= end_y
            invariant
                W <= 8,
                D <= 8,
                H <= isize::MAX,
                shape.wf(),
                cells == shape@,
                self.history == old(self).history,
                self.queue == old(self).queue,
                self.piece == old(self).piece,
                before == old(self).playfield@,
                origin == (x as int, y as int, z as int),
                variant == old(self).piece.shape_id.variant.spec_index(),
                start_y == shape.bounding_box.start[1],
                end_y == shape.bounding_box.end[1],
                start_y <= i <= end_y + 1,
                end_y < 4,
                0 <= y + start_y,
                y + end_y < H,
                0 <= x + shape.bounding_box.start[0],
                x + shape.bounding_box.end[0] < W,
                0 <= z + shape.bounding_box.start[2],
                z + shape.bounding_box.end[2] < D,
                shape.bounding_box.end[0] < 4,
                shape.bounding_box.end[2] < 4,
                placed_below(before, self.playfield@, cells, origin, variant as int, i as int),
            decreases end_y + 1 - i,
        {
            let level = (y + i as isize) as usize;
            let board = shape.bitboards[i];
            proof {
                assert forall|from_x: int, from_z: int| #[trigger]
                    board_has(board, from_x, from_z) implies 0 <= from_x + x < 8 && 0 <= from_z + z
                    < 8 by {
                    assert(shape.bitfield.has((from_x, i as int, from_z)));
                    assert(cells.contains((from_x, i as int, from_z)));
                    assert(shape.bounding_box.spec_contains((from_x, i as int, from_z)));
                }
            }
            let moved = Self::translate(board, x, z);
            let ghost layers = self.playfield@;
            let mut layer = self.playfield[level];
            let was = layer.bitboards[variant];
            layer.bitboards[variant] = was | moved;
            self.playfield[level] = layer;
            proof {
                let after = self.playfield@;
                assert forall|other: int, column: int, height: int, row: int|
                    0 <= other < 8 && 0 <= height < before.len() implies (#[trigger] board_has(
                    after[height].bitboards[other],
                    column,
                    row,
                ) <==> (board_has(before[height].bitboards[other], column, row) || (other
                    == variant && height - origin.1 < i + 1 && cells.contains(
                    (column - origin.0, height - origin.1, row - origin.2),
                )))) by {
                    assert(board_has(layers[height].bitboards[other], column, row) <==> (board_has(
                        before[height].bitboards[other],
                        column,
                        row,
                    ) || (other == variant && height - origin.1 < i && cells.contains(
                        (column - origin.0, height - origin.1, row - origin.2),
                    ))));
                    let local: Cell = (column - origin.0, height - origin.1, row - origin.2);
                    if height == level && other == variant {
                        crate::bits::lemma_bit_of_or(was, moved, column + row * 8);
                        lemma_translated_cell(board, x as int, z as int, column, row);
                        assert(board_has(board, local.0, local.2) <==> shape.bitfield.has(local));
                    } else {
                        assert(after[height].bitboards[other] == layers[height].bitboards[other]);
                        if cells.contains(local) && local.1 == i {
                            assert(height == level);
                        }
                    }
                }
            }
            i += 1;
        }
        proof {
            let after = self.playfield@;
            assert forall|other: int, column: int, height: int, row: int|
                0 <= other < 8 && 0 <= height < before.len() implies (#[trigger] board_has(
                after[height].bitboards[other],
                column,
                row,
            ) <==> (board_has(before[height].bitboards[other], column, row) || (other == variant
                && height - origin.1 < 4 && cells.contains(
                (column - origin.0, height - origin.1, row - origin.2),
            )))) by {
                let local: Cell = (column - origin.0, height - origin.1, row - origin.2);
                if cells.contains(local) {
                    assert(shape.bounding_box.spec_contains(local));
                }
            }
        }
    }

    /// Takes the full layers out of the playfield: the layers above a full
    /// layer move down, and the playfield is filled up with empty layers.
    /// Returns the number of layers taken out.
    pub fn clear_lines(&mut self) -> (count: usize)
        requires
            W <= 8,
            D <= 8,
        ensures
            final(self).history == old(self).history,
            final(self).queue == old(self).queue,
            final(self).piece == old(self).piece,
            cleared(old(self).playfield@, final(self).playfield@),
            count == H - kept_layers(old(self).playfield@, H as int).len(),
    {
        let ghost before = self.playfield@;
        let mut l: usize = 0;
        let mut cleared_layer_count: usize = 0;
        while l < H - cleared_layer_count
            invariant
                W <= 8,
                D <= 8,
                self.history == old(self).history,
                self.queue == old(self).queue,
                self.piece == old(self).piece,
                before == old(self).playfield@,
                l + cleared_layer_count <= H,
                self.playfield@.take(l as int) == kept_layers(before, l + cleared_layer_count),
                forall|level: int|
                    l <= level < H - cleared_layer_count ==> #[trigger] self.playfield[level]
                        == before[level + cleared_layer_count],
            decreases H - cleared_layer_count - l,
        {
            if self.playfield[l].is_full() {
                cleared_layer_count += 1;
                let ghost kept = self.playfield@.take(l as int);
                let mut i = l;
                while i < H - cleared_layer_count
                    invariant
                        l <= i <= H - cleared_layer_count,
                        1 <= cleared_layer_count,
                        l + cleared_layer_count <= H,
                        self.history == old(self).history,
                        self.queue == old(self).queue,
                        self.piece == old(self).piece,
                        self.playfield@.take(l as int) == kept,
                        forall|level: int|
                            l <= level < i ==> #[trigger] self.playfield[level] == before[level
                                + cleared_layer_count],
                        forall|level: int|
                            i <= level <= H - cleared_layer_count ==> #[trigger] self.playfield[level]
                                == before[level + cleared_layer_count - 1],
                    decreases H - cleared_layer_count - i,
                {
                    let ghost layers = self.playfield@;
                    let above = self.playfield[i + 1];
                    self.playfield[i] = above;
                    proof {
                        assert(self.playfield@.take(l as int) =~= layers.take(l as int));
                    }
                    i += 1;
                }
            } else {
                proof {
                    assert(self.playfield@.take(l + 1) =~= self.playfield@.take(l as int).push(
                        self.playfield[l as int],
                    ));
                }
                l += 1;
            }
        }

        let mut i: usize = 0;
        while i < cleared_layer_count
            invariant
                i <= cleared_layer_count,
                l + cleared_layer_count == H,
                self.history == old(self).history,
                self.queue == old(self).queue,
                self.piece == old(self).piece,
                self.playfield@.take(l as int) == kept_layers(before, H as int),
                forall|level: int| H - i <= level < H ==> (#[trigger] self.playfield[level]).spec_is_empty(),
            decreases cleared_layer_count - i,
        {
            let ghost layers = self.playfield@;
            self.playfield[H - i - 1] = Layer::default();
            proof {
                assert(self.playfield@.take(l as int) =~= layers.take(l as int));
            }
            i += 1;
        }
        proof {
            lemma_kept_layers_len(before, H as int);
            assert(kept_layers(before, H as int).len() == l);
        }
        cleared_layer_count
    }

    /// Replaces the piece by the next one of the queue, at the place where
    /// pieces appear.
    pub fn new_piece(&mut self, catalog: &Catalog)
        requires
            Self::spec_sized(),
            old(self).queue.wf(),
        ensures
            final(self).wf(),
            final(self).history == old(self).history,
            final(self).playfield == old(self).playfield,
            old(self).spec_new_piece(*final(self)),
    {
        let variant = self.queue.next();
        self.piece = Piece::from::<W, H, D>(catalog, variant);
        proof {
            Self::lemma_spawn_in_field(variant);
        }
    }

    /// A new game: an empty playfield, no action made, and the first piece
    /// of `queue` where pieces appear.
    pub fn from(catalog: &Catalog, queue: Queue) -> (state: Self)
        requires
            Self::spec_sized(),
            queue.wf(),
        ensures
            state.wf(),
            state.history@.len() == 0,
            forall|level: int| 0 <= level < H ==> (#[trigger] state.playfield[level]).spec_is_empty(),
            queue.spec_next(state.piece.shape_id.variant, state.queue),
            state.piece.shape_id.orientation == orientation_at(8),
            state.piece.spec_position() == spawn_position(
                state.piece.shape_id.variant,
                W as int,
                H as int,
                D as int,
            ),
    {
        let mut queue = queue;
        let variant = queue.next();

        let piece = Piece::from::<W, H, D>(catalog, variant);
        let playfield = [Layer::<W, D>::default(); H];
        proof {
            Self::lemma_spawn_in_field(variant);
        }

        Self { history: Vec::new(), queue, piece, playfield }
    }

    /// Whether `after` is this state with the piece replaced by the next one
    /// of the queue, in the reference attitude at the place where pieces
    /// appear.
    pub open spec fn spec_new_piece(self, after: Self) -> bool {
        &&& self.queue.spec_next(after.piece.shape_id.variant, after.queue)
        &&& after.piece.shape_id.orientation == orientation_at(8)
        &&& after.piece.spec_position() == spawn_position(
            after.piece.shape_id.variant,
            W as int,
            H as int,
            D as int,
        )
    }

    /// The step that an action asks for; the drops go down.
    pub open spec fn spec_offset(action: Action) -> Cell {
        match action {
            Action::MoveForward => (0, 0, 1),
            Action::MoveBackward => (0, 0, -1),
            Action::MoveLeft => (-1, 0, 0),
            Action::MoveRight => (1, 0, 0),
            Action::SoftDrop => (0, -1, 0),
            Action::HardDrop => (0, -1, 0),
            Action::Rotate { direction } => (0, 0, 0),
        }
    }

    /// Whether the action can be made: a hard drop always, a move or a turn
    /// where the moved or turned piece stands on free cells of the field.
    pub open spec fn spec_possible(self, action: Action) -> bool {
        match action {
            Action::HardDrop => true,
            Action::Rotate { direction } => self.spec_fits((0, 0, 0), Some(direction)),
            _ => self.spec_fits(Self::spec_offset(action), None),
        }
    }

    /// Whether the piece comes to rest `distance` cells below where it is:
    /// it can go down that far, step by step, and no further.
    pub open spec fn spec_rests_after(self, distance: int) -> bool {
        &&& 0 <= distance
        &&& forall|step: int|
            1 <= step <= distance ==> #[trigger] self.spec_fits((0, -step, 0), None)
        &&& !self.spec_fits((0, -(distance + 1), 0), None)
    }

    /// Whether `after` is this state after a hard drop in which the piece
    /// fell by `distance` cells and the layers were `locked` once it was
    /// locked: the full layers are gone from them, the next piece of the
    /// queue has appeared, and the drop stands at the end of the history.
    pub open spec fn spec_hard_drop(self, after: Self, distance: int, locked: Seq<Layer<W, D>>) -> bool {
        &&& self.spec_rests_after(distance)
        &&& placed(
            self.playfield@,
            locked,
            self.piece.spec_cells(),
            cell_at(self.piece.spec_position(), (0, -distance, 0)),
            self.piece.shape_id.variant.spec_index(),
        )
        &&& cleared(locked, after.playfield@)
        &&& self.spec_new_piece(after)
        &&& after.history@ == self.history@.push(Action::HardDrop)
    }

    /// Whether `after` is this state with the action made.
    pub open spec fn spec_performed(self, action: Action, after: Self) -> bool {
        match action {
            Action::HardDrop => exists|distance: int, locked: Seq<Layer<W, D>>| #[trigger]
                self.spec_hard_drop(after, distance, locked),
            Action::Rotate { direction } => {
                &&& after.piece.shape_id == self.piece.shape_id.spec_rotate(direction)
                &&& after.piece.position == self.piece.position
                &&& after.playfield == self.playfield
                &&& after.queue == self.queue
                &&& after.history@ == self.history@.push(action)
            },
            _ => {
                &&& after.piece.shape_id == self.piece.shape_id
                &&& after.piece.spec_position() == cell_at(
                    self.piece.spec_position(),
                    Self::spec_offset(action),
                )
                &&& after.playfield == self.playfield
                &&& after.queue == self.queue
                &&& after.history@ == self.history@.push(action)
            },
        }
    }

    /// Makes the action if `should_perform` is set and the action can be
    /// made, and tells whether it can be made. An action that cannot be made
    /// leaves the state as it is.
    pub fn perform(
        &mut self,
        catalog: &Catalog,
        action: Action,
        should_perform: bool,
    ) -> (performed: bool)
        requires
            old(self).wf(),
        ensures
            final(self).wf(),
            performed == old(self).spec_possible(action),
            !(performed && should_perform) ==> *final(self) == *old(self),
            performed && should_perform ==> old(self).spec_performed(action, *final(self)),
    {
        proof {
            self.lemma_position_bounds();
        }
        match action {
            Action::MoveForward | Action::MoveBackward | Action::MoveLeft | Action::MoveRight => {
                let offset: [isize; 3] = match action {
                    Action::MoveForward => [0, 0, 1],
                    Action::MoveBackward => [0, 0, -1],
                    Action::MoveLeft => [-1, 0, 0],
                    _ => [1, 0, 0],
                };

                let fits = self.fits(catalog, offset, None);
                if fits && should_perform {
                    self.history.push(action);
                    self.piece.translate(offset);
                }
                fits
            },
            Action::SoftDrop => {
                let offset: [isize; 3] = [0, -1, 0];
                let fits = self.fits(catalog, offset, None);
                if fits && should_perform {
                    self.history.push(action);
                    self.piece.translate(offset);
                }
                fits
            },
            Action::HardDrop => {
                if should_perform {
                    let offset: [isize; 3] = [0, -1, 0];
                    let ghost mut distance: int = 0;
                    while self.fits(catalog, offset, None)
                        invariant
                            self.wf(),
                            offset[0] == 0 && offset[1] == -1 && offset[2] == 0,
                            self.history == old(self).history,
                            self.queue == old(self).queue,
                            self.playfield == old(self).playfield,
                            self.piece.shape_id == old(self).piece.shape_id,
                            self.piece.spec_position() == cell_at(
                                old(self).piece.spec_position(),
                                (0, -distance, 0),
                            ),
                            -3 <= self.piece.position[0] < W,
                            -3 <= self.piece.position[1] < H,
                            -3 <= self.piece.position[2] < D,
                            0 <= distance,
                            forall|step: int|
                                1 <= step <= distance ==> #[trigger] old(self).spec_fits(
                                    (0, -step, 0),
                                    None,
                                ),
                        ensures
                            !old(self).spec_fits((0, -(distance + 1), 0), None),
                        decreases self.piece.position[1] + 3,
                    {
                        proof {
                            assert(self.spec_fits((0, -1, 0), None) == old(self).spec_fits(
                                (0, -(distance + 1), 0),
                                None,
                            ));
                            distance = distance + 1;
                        }
                        self.piece.translate(offset);
                        proof {
                            self.lemma_position_bounds();
                        }
                    }
                    proof {
                        assert(self.spec_fits((0, -1, 0), None) == old(self).spec_fits(
                            (0, -(distance + 1), 0),
                            None,
                        ));
                    }
                    self.place_piece(catalog);
                    let ghost locked = self.playfield@;
                    self.new_piece(catalog);
                    self.clear_lines();
                    self.history.push(action);
                    proof {
                        assert(old(self).spec_hard_drop(*self, distance, locked));
                    }
                }
                true
            },
            Action::Rotate { direction } => {
                let fits = self.fits(catalog, [0, 0, 0], Some(direction));
                if fits && should_perform {
                    self.piece.rotate(catalog, direction);
                    self.history.push(action);
                }
                fits
            },
        }
    }

    /// The actions that can be made now, in the order of all actions. After
    /// more than three actions none can be made unless one of the last three
    /// was a hard drop.
    pub fn performable_actions(&mut self, catalog: &Catalog) -> (actions: Vec<Action>)
        requires
            old(self).wf(),
        ensures
            *final(self) == *old(self),
            actions@ == old(self).spec_performable_before(12),
    {
        let all = Action::get_all_actions();
        let last: usize = 3;
        let mut is_fine = true;
        if self.history.len() > last {
            is_fine = false;
            let mut back: usize = 0;
            while back < last
                invariant
                    last == 3,
                    back <= last,
                    self.history@.len() > last,
                    *self == *old(self),
                    is_fine <==> exists|recent: int|
                        0 <= recent < back && #[trigger] self.history@[self.history@.len() - 3
                            + recent] == Action::HardDrop,
                decreases last - back,
            {
                let element = self.history[self.history.len() - last + back];
                if element == Action::HardDrop {
                    is_fine = true;
                }
                back += 1;
            }
        }
        let mut actions: Vec<Action> = Vec::new();
        let mut index: usize = 0;
        while index < all.len()
            invariant
                self.wf(),
                *self == *old(self),
                all@ == crate::action::all_actions(),
                all@.len() == 12,
                index <= 12,
                is_fine == self.spec_recently_dropped(),
                actions@ == self.spec_performable_before(index as int),
            decreases 12 - index,
        {
            let action = all[index];
            if self.perform(catalog, action, false) && is_fine {
                actions.push(action);
            }
            index += 1;
        }
        actions
    }

    /// Whether one of the last three actions was a hard drop, or no more
    /// than three actions were made.
    pub open spec fn spec_recently_dropped(self) -> bool {
        self.history@.len() > 3 ==> exists|recent: int|
            0 <= recent < 3 && #[trigger] self.history@[self.history@.len() - 3 + recent]
                == Action::HardDrop
    }

    /// Those of the first `upto` of all actions that can be made now, in
    /// their order.
    pub open spec fn spec_performable_before(self, upto: int) -> Seq<Action>
        decreases upto,
    {
        if upto <= 0 {
            Seq::empty()
        } else {
            let action = crate::action::all_actions()[upto - 1];
            if self.spec_possible(action) && self.spec_recently_dropped() {
                self.spec_performable_before(upto - 1).push(action)
            } else {
                self.spec_performable_before(upto - 1)
            }
        }
    }

    /// The origin of a piece in the field lies less than four cells outside
    /// the field's low faces, and inside its high faces.
    pub proof fn lemma_position_bounds(self)
        requires
            self.spec_piece_in_field(),
        ensures
            -3 <= self.piece.position[0] < W,
            -3 <= self.piece.position[1] < H,
            -3 <= self.piece.position[2] < D,
    {
        let variant = self.piece.shape_id.variant;
        let size = spec_rotation_size(variant);
        lemma_canonical_in_cube(variant);
        lemma_turns_keep_cells(
            canonical_cells(variant),
            spec_rotation_sequence(self.piece.shape_id.orientation),
            size,
        );
        let cell = choose|cell: Cell| #[trigger] self.piece.spec_cells().contains(cell);
        assert(in_cube(cell, size));
    }

    /// A new piece lies in the field.
    pub proof fn lemma_spawn_in_field(variant: Tetromino)
        requires
            Self::spec_sized(),
        ensures
            forall|cell: Cell| #[trigger]
                oriented_cells(variant, orientation_at(8)).contains(cell) ==> in_field(
                    cell_at(spawn_position(variant, W as int, H as int, D as int), cell),
                    W as int,
                    H as int,
                    D as int,
                ),
    {
        assert(spec_rotation_sequence(orientation_at(8)) =~= Seq::empty());
        assert(oriented_cells(variant, orientation_at(8)) == canonical_cells(variant));
    }

    /// Whether a cell is locked in one of the layers from `from` up to
    /// `upto`.
    pub open spec fn spec_locked_between(self, from: int, upto: int) -> bool {
        exists|level: int|
            from <= level < upto && 0 <= level < H && (#[trigger] self.playfield[level]).spec_occupied()
                != 0
    }

    /// The worth of the state for a search: the number of hard drops made,
    /// or nothing where a cell is locked above the fourth layer.
    pub open spec fn spec_score(self) -> Option<int> {
        if self.spec_locked_between(4, H as int) {
            None
        } else {
            Some(hard_drops_before(self.history@, self.history@.len() as int))
        }
    }

    /// The worth of the state for a search: the number of hard drops made,
    /// or nothing where a cell is locked above the fourth layer.
    pub fn score(&self) -> (score: Option<usize>)
        ensures
            match score {
                Some(drops) => self.spec_score() == Some(drops as int),
                None => self.spec_score().is_none(),
            },
    {
        let mut total: usize = 0;
        let mut made: usize = 0;
        while made < self.history.len()
            invariant
                made <= self.history@.len(),
                total == hard_drops_before(self.history@, made as int),
                total <= made,
            decreases self.history@.len() - made,
        {
            if self.history[made] == Action::HardDrop {
                total += 1;
            }
            made += 1;
        }
        let mut locked = false;
        let mut level: usize = 4;
        while level < H
            invariant
                4 <= level,
                level <= H || H < 4,
                locked == self.spec_locked_between(4, level as int),
            decreases H - level,
        {
            if self.playfield[level].occupied() != 0 {
                locked = true;
            }
            level += 1;
        }
        if locked {
            None
        } else {
            Some(total)
        }
    }

    /// Where the piece fits, each cell that it would take lies in the field
    /// and is not locked.
    pub proof fn lemma_fitting_piece_is_free(self, offset: Cell, along: Option<Direction>, cell: Cell)
        requires
            self.spec_fits(offset, along),
            self.spec_footprint(offset, along).contains(cell),
        ensures
            in_field(cell, W as int, H as int, D as int),
            !locked_at(self.playfield@, cell),
    {
        let id = match along {
            Some(direction) => self.piece.shape_id.spec_rotate(direction),
            None => self.piece.shape_id,
        };
        let origin = cell_at(self.piece.spec_position(), offset);
        let local: Cell = (cell.0 - origin.0, cell.1 - origin.1, cell.2 - origin.2);
        assert(oriented_cells(id.variant, id.orientation).contains(local));
        assert(cell_at(origin, local) == cell);
    }

    /// Where the piece does not fit, one of the cells that it would take
    /// lies outside the field or is locked.
    pub proof fn lemma_collision_has_a_cell(self, offset: Cell, along: Option<Direction>)
        requires
            !self.spec_fits(offset, along),
        ensures
            exists|cell: Cell| #[trigger]
                self.spec_footprint(offset, along).contains(cell) && (!in_field(
                    cell,
                    W as int,
                    H as int,
                    D as int,
                ) || locked_at(self.playfield@, cell)),
    {
        let id = match along {
            Some(direction) => self.piece.shape_id.spec_rotate(direction),
            None => self.piece.shape_id,
        };
        let origin = cell_at(self.piece.spec_position(), offset);
        let cells = oriented_cells(id.variant, id.orientation);
        let local = choose|local: Cell| #[trigger]
            cells.contains(local) && !(in_field(
                cell_at(origin, local),
                W as int,
                self.playfield@.len() as int,
                D as int,
            ) && !locked_at(self.playfield@, cell_at(origin, local)));
        let cell = cell_at(origin, local);
        assert((cell.0 - origin.0, cell.1 - origin.1, cell.2 - origin.2) == local);
        assert(self.spec_footprint(offset, along).contains(cell));
    }

    /// Where a shape fits, the two corners of its box lie in the field.
    proof fn lemma_corners_in_field(shape: Shape, origin: Cell)
        requires
            shape.wf(),
            exists|cell: Cell| #[trigger] shape@.contains(cell),
        ensures
            (forall|cell: Cell| #[trigger]
                shape@.contains(cell) ==> in_field(
                    cell_at(origin, cell),
                    W as int,
                    H as int,
                    D as int,
                )) ==> {
                &&& in_field(
                    (
                        origin.0 + shape.bounding_box.start[0],
                        origin.1 + shape.bounding_box.start[1],
                        origin.2 + shape.bounding_box.start[2],
                    ),
                    W as int,
                    H as int,
                    D as int,
                )
                &&& in_field(
                    (
                        origin.0 + shape.bounding_box.end[0],
                        origin.1 + shape.bounding_box.end[1],
                        origin.2 + shape.bounding_box.end[2],
                    ),
                    W as int,
                    H as int,
                    D as int,
                )
            },
    {
        let cells = shape@;
        let bounds = shape.bounding_box;
        if forall|cell: Cell| #[trigger]
            cells.contains(cell) ==> in_field(cell_at(origin, cell), W as int, H as int, D as int) {
            let a = choose|cell: Cell| #[trigger] cells.contains(cell) && cell.0 == bounds.start[0];
            let b = choose|cell: Cell| #[trigger] cells.contains(cell) && cell.1 == bounds.start[1];
            let c = choose|cell: Cell| #[trigger] cells.contains(cell) && cell.2 == bounds.start[2];
            let d = choose|cell: Cell| #[trigger] cells.contains(cell) && cell.0 == bounds.end[0];
            let e = choose|cell: Cell| #[trigger] cells.contains(cell) && cell.1 == bounds.end[1];
            let f = choose|cell: Cell| #[trigger] cells.contains(cell) && cell.2 == bounds.end[2];
            assert(cells.contains(a) && cells.contains(b) && cells.contains(c));
            assert(cells.contains(d) && cells.contains(e) && cells.contains(f));
        }
    }
}

} // verus!
