//! Shapes in the local cube of 4 x 4 x 4 cells: reference shapes, quarter
//! turns, boards and boxes.

use vstd::prelude::*;
use crate::bits::{bit_at, board_has, lemma_bit_after_set, lemma_bit_of_zero, BOARD_STRIDE};
use crate::bounding_box::BoundingBox;
use crate::direction::{lemma_opposite_turn_undoes, Cell, Direction};
use crate::tetromino::Tetromino;

verus! {

/// Edge of the local cube of a shape.
pub const MAX_SIZE: usize = 4;

/// A shape inside a local cube of 4 x 4 x 4 cells, one bit for each cell:
/// the bit at `x + y * 16 + z * 4` stands for the cell (x, y, z).
#[derive(Clone, Copy, PartialEq)]
pub struct Bitfield {
    pub value: u64,
}

/// Whether `cell` lies in the cube of edge `size` at the origin.
pub open spec fn in_cube(cell: Cell, size: int) -> bool {
    0 <= cell.0 < size && 0 <= cell.1 < size && 0 <= cell.2 < size
}

/// The cells of the cube of edge `size` onto which a quarter turn about
/// `around` carries a cell of `cells`.
pub open spec fn rotated_cells(cells: Set<Cell>, around: Direction, size: int) -> Set<Cell> {
    Set::new(
        |cell: Cell|
            in_cube(cell, size) && cells.contains(
                around.spec_opposite().spec_rotate_coordinate(cell, size),
            ),
    )
}

/// The cells of a variant in its reference attitude.
pub open spec fn canonical_cells(variant: Tetromino) -> Set<Cell> {
    match variant {
        Tetromino::I => set![(2, 0, 2), (2, 1, 2), (2, 2, 2), (2, 3, 2)],
        Tetromino::O => set![(0, 1, 0), (1, 1, 0), (0, 1, 1), (1, 1, 1)],
        Tetromino::T => set![(0, 1, 1), (1, 1, 1), (2, 1, 1), (1, 2, 1)],
        Tetromino::L => set![(1, 0, 1), (1, 1, 1), (1, 2, 1), (1, 2, 2)],
        Tetromino::S => set![(0, 1, 1), (1, 1, 1), (1, 2, 1), (2, 2, 1)],
        Tetromino::B => set![(1, 0, 0), (0, 0, 1), (1, 0, 1), (1, 1, 1)],
        Tetromino::D => set![(0, 0, 0), (1, 0, 0), (1, 0, 1), (1, 1, 1)],
        Tetromino::F => set![(0, 0, 0), (0, 0, 1), (1, 0, 1), (1, 1, 1)],
    }
}

/// Edge of the least cube at the origin that holds a variant in every
/// attitude.
pub open spec fn spec_rotation_size(variant: Tetromino) -> int {
    match variant {
        Tetromino::I => 4,
        Tetromino::O => 2,
        Tetromino::T => 3,
        Tetromino::L => 3,
        Tetromino::S => 3,
        Tetromino::B => 2,
        Tetromino::D => 2,
        Tetromino::F => 2,
    }
}

impl View for Bitfield {
    type V = Set<Cell>;

    /// The filled cells.
    open spec fn view(&self) -> Set<Cell> {
        Set::new(|cell: Cell| self.has(cell))
    }
}

impl Bitfield {
    pub open spec fn spec_index(x: int, y: int, z: int) -> int {
        x + y * 16 + z * 4
    }

    /// Whether `cell` is a filled cell of the local cube.
    pub open spec fn has(self, cell: Cell) -> bool {
        in_cube(cell, 4) && bit_at(self.value, Self::spec_index(cell.0, cell.1, cell.2))
    }

    #[inline]
    pub fn index(x: usize, y: usize, z: usize) -> (index: usize)
        requires
            Self::spec_index(x as int, y as int, z as int) <= usize::MAX,
        ensures
            index == Self::spec_index(x as int, y as int, z as int),
    {
        x + y * MAX_SIZE * MAX_SIZE + z * MAX_SIZE
    }

    #[inline]
    pub fn is_filled(&self, x: usize, y: usize, z: usize) -> (filled: bool)
        requires
            Self::spec_index(x as int, y as int, z as int) < 64,
        ensures
            filled == bit_at(self.value, Self::spec_index(x as int, y as int, z as int)),
            in_cube((x as int, y as int, z as int), 4) ==> filled == self.has(
                (x as int, y as int, z as int),
            ),
    {
        (self.value >> Self::index(x, y, z)) & 1 == 1
    }

    /// The shape of `variant` in its reference attitude.
    pub fn canonical(variant: Tetromino) -> (shape: Self)
        ensures
            shape@ == canonical_cells(variant),
    {
        let shape = match variant {
            Tetromino::I => Self { value: 0x0400_0400_0400_0400 },
            Tetromino::O => Self { value: 0x0000_0000_0033_0000 },
            Tetromino::T => Self { value: 0x0000_0020_0070_0000 },
            Tetromino::L => Self { value: 0x0000_0220_0020_0020 },
            Tetromino::S => Self { value: 0x0000_0060_0030_0000 },
            Tetromino::B => Self { value: 0x0000_0000_0020_0032 },
            Tetromino::D => Self { value: 0x0000_0000_0020_0023 },
            Tetromino::F => Self { value: 0x0000_0000_0020_0031 },
        };
        proof {
            let value = shape.value;
            assert forall|cell: Cell| shape@.contains(cell) == canonical_cells(variant).contains(
                cell,
            ) by {
                if in_cube(cell, 4) {
                    let at = Self::spec_index(cell.0, cell.1, cell.2) as u64;
                    match variant {
                        Tetromino::I => {
                            assert((0x0400_0400_0400_0400u64 >> at) & 1 == 1 <==> (at == 10 || at
                                == 26 || at == 42 || at == 58)) by (bit_vector)
                                requires
                                    at < 64,
                            ;
                        },
                        Tetromino::O => {
                            assert((0x0000_0000_0033_0000u64 >> at) & 1 == 1 <==> (at == 16 || at
                                == 17 || at == 20 || at == 21)) by (bit_vector)
                                requires
                                    at < 64,
                            ;
                        },
                        Tetromino::T => {
                            assert((0x0000_0020_0070_0000u64 >> at) & 1 == 1 <==> (at == 20 || at
                                == 21 || at == 22 || at == 37)) by (bit_vector)
                                requires
                                    at < 64,
                            ;
                        },
                        Tetromino::L => {
                            assert((0x0000_0220_0020_0020u64 >> at) & 1 == 1 <==> (at == 5 || at
                                == 21 || at == 37 || at == 41)) by (bit_vector)
                                requires
                                    at < 64,
                            ;
                        },
                        Tetromino::S => {
                            assert((0x0000_0060_0030_0000u64 >> at) & 1 == 1 <==> (at == 20 || at
                                == 21 || at == 37 || at == 38)) by (bit_vector)
                                requires
                                    at < 64,
                            ;
                        },
                        Tetromino::B => {
                            assert((0x0000_0000_0020_0032u64 >> at) & 1 == 1 <==> (at == 1 || at
                                == 4 || at == 5 || at == 21)) by (bit_vector)
                                requires
                                    at < 64,
                            ;
                        },
                        Tetromino::D => {
                            assert((0x0000_0000_0020_0023u64 >> at) & 1 == 1 <==> (at == 0 || at
                                == 1 || at == 5 || at == 21)) by (bit_vector)
                                requires
                                    at < 64,
                            ;
                        },
                        Tetromino::F => {
                            assert((0x0000_0000_0020_0031u64 >> at) & 1 == 1 <==> (at == 0 || at
                                == 4 || at == 5 || at == 21)) by (bit_vector)
                                requires
                                    at < 64,
                            ;
                        },
                    }
                }
            }
            assert(shape@ =~= canonical_cells(variant));
        }
        shape
    }

    pub fn rotation_size(variant: Tetromino) -> (size: usize)
        ensures
            size == spec_rotation_size(variant),
    {
        match variant {
            Tetromino::I => 4,
            Tetromino::O => 2,
            Tetromino::T => 3,
            Tetromino::L => 3,
            Tetromino::S => 3,
            Tetromino::B => 2,
            Tetromino::D => 2,
            Tetromino::F => 2,
        }
    }

    /// Turns the shape by a quarter turn about `around` inside the cube of
    /// edge `size` at the origin.
    pub fn rotate(&self, around: Direction, size: usize) -> (turned: Self)
        requires
            size <= MAX_SIZE,
            forall|cell: Cell| #[trigger] self@.contains(cell) ==> in_cube(cell, size as int),
        ensures
            turned@ == rotated_cells(self@, around, size as int),
    {
        let back = Ghost(around.spec_opposite());
        let mut value: u64 = 0;
        proof {
            assert forall|target: Cell| in_cube(target, 4) implies (bit_at(
                value,
                #[trigger] Self::cell_bit(target),
            ) <==> self.turned_before(
                target,
                back@,
                size as int,
                0,
            )) by {
                lemma_bit_of_zero(Self::spec_index(target.0, target.1, target.2));
            }
        }
        let mut y: usize = 0;
        while y < MAX_SIZE
            invariant
                y <= 4,
                size <= 4,
                back@ == around.spec_opposite(),
                forall|cell: Cell| #[trigger] self@.contains(cell) ==> in_cube(cell, size as int),
                forall|target: Cell|
                    in_cube(target, 4) ==> (bit_at(
                        value,
                        #[trigger] Self::cell_bit(target),
                    ) <==> self.turned_before(
                        target,
                        back@,
                        size as int,
                        16 * y,
                    )),
            decreases 4 - y,
        {
            let mut z: usize = 0;
            while z < MAX_SIZE
                invariant
                    y < 4,
                    z <= 4,
                    size <= 4,
                    back@ == around.spec_opposite(),
                    forall|cell: Cell| #[trigger] self@.contains(cell) ==> in_cube(cell, size as int),
                    forall|target: Cell|
                        in_cube(target, 4) ==> (bit_at(
                            value,
                            #[trigger] Self::cell_bit(target),
                        ) <==> self.turned_before(
                            target,
                            back@,
                            size as int,
                            16 * y + 4 * z,
                        )),
                decreases 4 - z,
            {
                let mut x: usize = 0;
                while x < MAX_SIZE
                    invariant
                        y < 4,
                        z < 4,
                        x <= 4,
                        size <= 4,
                        back@ == around.spec_opposite(),
                        forall|cell: Cell| #[trigger] self@.contains(cell) ==> in_cube(cell, size as int),
                        forall|target: Cell|
                            in_cube(target, 4) ==> (bit_at(
                                value,
                                #[trigger] Self::cell_bit(target),
                            ) <==> self.turned_before(
                                target,
                                back@,
                                size as int,
                                16 * y + 4 * z + x,
                            )),
                    decreases 4 - x,
                {
                    let ghost here: Cell = (x as int, y as int, z as int);
                    let ghost before = value;
                    if self.is_filled(x, y, z) {
                        assert(self@.contains(here));
                        assert(in_cube(here, size as int));
                        let coordinate = [x, y, z];
                        assert(coordinate[0] == x && coordinate[1] == y && coordinate[2] == z);
                        let turned = around.rotate_coordinate(coordinate, size);
                        proof {
                            lemma_opposite_turn_undoes(around, here, size as int);
                        }
                        value |= 1u64 << Self::index(turned[0], turned[1], turned[2]);
                    }
                    proof {
                        self.lemma_turn_step(around, size as int, here, before, value);
                    }
                    x += 1;
                }
                z += 1;
            }
            y += 1;
        }
        let turned = Self { value };
        proof {
            assert forall|target: Cell| turned@.contains(target) == rotated_cells(
                self@,
                around,
                size as int,
            ).contains(target) by {
                if in_cube(target, 4) {
                    assert(Self::cell_bit(target) == Self::spec_index(
                        target.0,
                        target.1,
                        target.2,
                    ));
                    assert(bit_at(value, Self::spec_index(target.0, target.1, target.2))
                        <==> self.turned_before(
                            target,
                            back@,
                            size as int,
                            64,
                        ));
                    if in_cube(target, size as int) {
                        lemma_opposite_turn_undoes(back@, target, size as int);
                    }
                }
            }
            assert(turned@ =~= rotated_cells(self@, around, size as int));
        }
        turned
    }

    /// The shape cut into its four height levels, each as a board: the
    /// board at `y` marks (x, z) where the shape fills (x, y, z).
    pub fn compute_bitboards(&self) -> (layers: [u64; 4])
        ensures
            forall|x: int, y: int, z: int|
                0 <= y < 4 ==> (#[trigger] board_has(layers[y], x, z) <==> self.has((x, y, z))),
    {
        let mut layers = [0u64; MAX_SIZE];
        let mut y: usize = 0;
        while y < MAX_SIZE
            invariant
                y <= 4,
                forall|x: int, level: int, z: int|
                    0 <= level < y ==> (#[trigger] board_has(layers[level], x, z) <==> self.has(
                        (x, level, z),
                    )),
            decreases 4 - y,
        {
            let mut layer: u64 = 0;
            proof {
                assert forall|x: int, z: int| !#[trigger] board_has(layer, x, z) by {
                    lemma_bit_of_zero(x + z * 8);
                }
            }
            let mut z: usize = 0;
            while z < MAX_SIZE
                invariant
                    y < 4,
                    z <= 4,
                    forall|x: int, row: int| #[trigger]
                        board_has(layer, x, row) <==> (self.has((x, y as int, row)) && row < z),
                decreases 4 - z,
            {
                let mut x: usize = 0;
                while x < MAX_SIZE
                    invariant
                        y < 4,
                        z < 4,
                        x <= 4,
                        forall|column: int, row: int| #[trigger]
                            board_has(layer, column, row) <==> (self.has((column, y as int, row))
                                && (row < z || (row == z && column < x))),
                    decreases 4 - x,
                {
                    let ghost before = layer;
                    if self.is_filled(x, y, z) {
                        let index = x + z * BOARD_STRIDE;
                        layer |= 1u64 << index;
                        proof {
                            assert forall|column: int, row: int| #[trigger]
                                board_has(layer, column, row) <==> (self.has(
                                    (column, y as int, row),
                                ) && (row < z || (row == z && column < x + 1))) by {
                                lemma_bit_after_set(before, x + z * 8, column + row * 8);
                                assert(board_has(before, column, row) <==> (self.has(
                                    (column, y as int, row),
                                ) && (row < z || (row == z && column < x))));
                            }
                        }
                    }
                    x += 1;
                }
                z += 1;
            }
            layers[y] = layer;
            y += 1;
        }
        layers
    }

    /// The least box around the filled cells.
    pub fn compute_bounding_box(&self) -> (bounds: BoundingBox)
        ensures
            bounds.spec_bounds(self@),
            bounds.start[0] <= 4 && bounds.start[1] <= 4 && bounds.start[2] <= 4,
            bounds.end[0] < 4 && bounds.end[1] < 4 && bounds.end[2] < 4,
    {
        let mut start = [MAX_SIZE; 3];
        let mut end = [0usize; 3];
        let ghost mut seen = false;
        let ghost mut low: (Cell, Cell, Cell) = ((0, 0, 0), (0, 0, 0), (0, 0, 0));
        let ghost mut high: (Cell, Cell, Cell) = ((0, 0, 0), (0, 0, 0), (0, 0, 0));
        let mut y: usize = 0;
        while y < MAX_SIZE
            invariant
                y <= 4,
                self.bounded_before(start, end, seen, low, high, 16 * y),
            decreases 4 - y,
        {
            let mut z: usize = 0;
            while z < MAX_SIZE
                invariant
                    y < 4,
                    z <= 4,
                    self.bounded_before(start, end, seen, low, high, 16 * y + 4 * z),
                decreases 4 - z,
            {
                let mut x: usize = 0;
                while x < MAX_SIZE
                    invariant
                        y < 4,
                        z < 4,
                        x <= 4,
                        self.bounded_before(start, end, seen, low, high, 16 * y + 4 * z + x),
                    decreases 4 - x,
                {
                    let ghost here: Cell = (x as int, y as int, z as int);
                    let ghost old_start = start;
                    let ghost old_end = end;
                    let ghost old_low = low;
                    let ghost old_high = high;
                    let ghost old_seen = seen;
                    if self.is_filled(x, y, z) {
                        if x < start[0] {
                            start[0] = x;
                            proof {
                                low = (here, low.1, low.2);
                            }
                        }
                        if y < start[1] {
                            start[1] = y;
                            proof {
                                low = (low.0, here, low.2);
                            }
                        }
                        if z < start[2] {
                            start[2] = z;
                            proof {
                                low = (low.0, low.1, here);
                            }
                        }
                        if x >= end[0] {
                            end[0] = x;
                            proof {
                                high = (here, high.1, high.2);
                            }
                        }
                        if y >= end[1] {
                            end[1] = y;
                            proof {
                                high = (high.0, here, high.2);
                            }
                        }
                        if z >= end[2] {
                            end[2] = z;
                            proof {
                                high = (high.0, high.1, here);
                            }
                        }
                        proof {
                            seen = true;
                        }
                    }
                    proof {
                        let done = 16 * y + 4 * z + x;
                        assert(Self::cell_bit(here) == done);
                        assert forall|cell: Cell| #[trigger]
                            self.has(cell) && Self::cell_bit(cell) < done + 1 implies (BoundingBox {
                            start,
                            end,
                        }).spec_contains(cell) by {
                            if Self::cell_bit(cell) == done {
                                Self::lemma_index_injective(cell, here);
                            } else {
                                assert((BoundingBox {
                                    start: old_start,
                                    end: old_end,
                                }).spec_contains(cell));
                            }
                        }
                        if !seen {
                            assert forall|cell: Cell| #[trigger]
                                self.has(cell) implies Self::cell_bit(cell) >= done + 1 by {
                                if Self::cell_bit(cell) == done {
                                    Self::lemma_index_injective(cell, here);
                                }
                            }
                        }
                    }
                    x += 1;
                }
                z += 1;
            }
            y += 1;
        }
        let bounds = BoundingBox { start, end };
        proof {
            assert forall|cell: Cell| self@.contains(cell) implies bounds.spec_contains(cell) by {
                assert(self.has(cell) && Self::cell_bit(cell) < 64);
            }
            if seen {
                assert(self@.contains(low.0) && self@.contains(low.1) && self@.contains(low.2));
                assert(self@.contains(high.0) && self@.contains(high.1) && self@.contains(high.2));
            } else {
                assert forall|cell: Cell| !self@.contains(cell) by {
                    if self.has(cell) {
                        assert(Self::cell_bit(cell) >= 64);
                    }
                }
            }
        }
        bounds
    }

    /// What holds of the box when the first `done` cells, counted by their
    /// bit, were looked at: it contains the filled ones among them, a filled
    /// one touches each face, and with none of them filled the box is the
    /// empty one.
    pub open spec fn bounded_before(
        self,
        start: [usize; 3],
        end: [usize; 3],
        seen: bool,
        low: (Cell, Cell, Cell),
        high: (Cell, Cell, Cell),
        done: int,
    ) -> bool {
        &&& start[0] <= 4 && start[1] <= 4 && start[2] <= 4
        &&& end[0] < 4 && end[1] < 4 && end[2] < 4
        &&& forall|cell: Cell| #[trigger]
            self.has(cell) && Self::cell_bit(cell) < done ==> (BoundingBox {
                start,
                end,
            }).spec_contains(cell)
        &&& seen ==> {
            &&& self.has(low.0) && low.0.0 == start[0]
            &&& self.has(low.1) && low.1.1 == start[1]
            &&& self.has(low.2) && low.2.2 == start[2]
            &&& self.has(high.0) && high.0.0 == end[0]
            &&& self.has(high.1) && high.1.1 == end[1]
            &&& self.has(high.2) && high.2.2 == end[2]
        }
        &&& !seen ==> {
            &&& start[0] == 4 && start[1] == 4 && start[2] == 4
            &&& end[0] == 0 && end[1] == 0 && end[2] == 0
            &&& forall|cell: Cell| #[trigger] self.has(cell) ==> Self::cell_bit(cell) >= done
        }
    }

    /// One step of a quarter turn: after the cell `here` was looked at, the
    /// bits set are those that the turn fills from the cells up to `here`.
    proof fn lemma_turn_step(self, around: Direction, size: int, here: Cell, before: u64, after: u64)
        requires
            0 <= size <= 4,
            in_cube(here, 4),
            forall|cell: Cell| #[trigger] self@.contains(cell) ==> in_cube(cell, size),
            forall|target: Cell|
                in_cube(target, 4) ==> (bit_at(
                    before,
                    #[trigger] Self::cell_bit(target),
                ) <==> self.turned_before(
                    target,
                    around.spec_opposite(),
                    size,
                    Self::spec_index(here.0, here.1, here.2),
                )),
            self.has(here) ==> {
                let to = around.spec_rotate_coordinate(here, size);
                after == before | (1u64 << (Self::spec_index(to.0, to.1, to.2) as u64))
            },
            !self.has(here) ==> after == before,
        ensures
            forall|target: Cell|
                in_cube(target, 4) ==> (bit_at(
                    after,
                    #[trigger] Self::cell_bit(target),
                ) <==> self.turned_before(
                    target,
                    around.spec_opposite(),
                    size,
                    Self::spec_index(here.0, here.1, here.2) + 1,
                )),
    {
        let back = around.spec_opposite();
        let done = Self::spec_index(here.0, here.1, here.2);
        assert(self.has(here) ==> in_cube(here, size)) by {
            if self.has(here) {
                assert(self@.contains(here));
            }
        }
        assert forall|target: Cell| in_cube(target, 4) implies (bit_at(
            after,
            #[trigger] Self::cell_bit(target),
        ) <==> self.turned_before(
            target,
            back,
            size,
            done + 1,
        )) by {
            assert(bit_at(before, Self::cell_bit(target)) <==> self.turned_before(
                target,
                back,
                size,
                done,
            ));
            self.lemma_turn_step_at(around, size, here, before, after, target);
        }
    }

    proof fn lemma_turn_step_at(
        self,
        around: Direction,
        size: int,
        here: Cell,
        before: u64,
        after: u64,
        target: Cell,
    )
        requires
            0 <= size <= 4,
            in_cube(here, 4),
            in_cube(target, 4),
            self.has(here) ==> in_cube(here, size),
            bit_at(before, Self::spec_index(target.0, target.1, target.2)) <==> self.turned_before(
                target,
                around.spec_opposite(),
                size,
                Self::spec_index( here.0, here.1, here.2, ),
            ),
            self.has(here) ==> {
                let to = around.spec_rotate_coordinate(here, size);
                after == before | (1u64 << (Self::spec_index(to.0, to.1, to.2) as u64))
            },
            !self.has(here) ==> after == before,
        ensures
            bit_at(after, Self::spec_index(target.0, target.1, target.2)) <==> self.turned_before(
                target,
                around.spec_opposite(),
                size,
                Self::spec_index( here.0, here.1, here.2, ) + 1,
            ),
    {
        let back = around.spec_opposite();
        let source = back.spec_rotate_coordinate(target, size);
        let to = around.spec_rotate_coordinate(here, size);
        let was = bit_at(before, Self::spec_index(target.0, target.1, target.2));
        let is = bit_at(after, Self::spec_index(target.0, target.1, target.2));
        let from_here = self.turned_from(target, back, size) && Self::source_bit(target, back, size)
            == Self::spec_index(here.0, here.1, here.2);
        assert(from_here <==> (self.has(here) && target == to)) by {
            assert(back.spec_opposite() == around);
            if from_here {
                lemma_opposite_turn_undoes(back, target, size);
                Self::lemma_index_injective(source, here);
            }
            if self.has(here) && target == to {
                lemma_opposite_turn_undoes(around, here, size);
            }
        }
        assert(is <==> (was || (self.has(here) && target == to))) by {
            if self.has(here) {
                lemma_opposite_turn_undoes(around, here, size);
                lemma_bit_after_set(
                    before,
                    Self::spec_index(to.0, to.1, to.2),
                    Self::spec_index(target.0, target.1, target.2),
                );
                if Self::spec_index(to.0, to.1, to.2) == Self::spec_index(
                    target.0,
                    target.1,
                    target.2,
                ) {
                    Self::lemma_index_injective(to, target);
                }
            }
        }
    }

    /// Two cells of the local cube with one bit are one cell.
    pub proof fn lemma_index_injective(left: Cell, right: Cell)
        requires
            in_cube(left, 4),
            in_cube(right, 4),
            Self::spec_index(left.0, left.1, left.2) == Self::spec_index(
                right.0,
                right.1,
                right.2,
            ),
        ensures
            left == right,
    {
    }

    /// Whether `target` is a cell that the quarter turn undone by `back`
    /// fills from one of the first `done` cells of this shape, counted by
    /// their bit.
    pub open spec fn turned_before(
        self,
        target: Cell,
        back: Direction,
        size: int,
        done: int,
    ) -> bool {
        self.turned_from(target, back, size) && Self::source_bit(target, back, size) < done
    }

    /// Whether `target` is a cell of the cube of edge `size` that the quarter
    /// turn undone by `back` fills from a cell of this shape.
    pub open spec fn turned_from(self, target: Cell, back: Direction, size: int) -> bool {
        in_cube(target, size) && self.has(back.spec_rotate_coordinate(target, size))
    }

    /// The bit that stands for `cell`.
    pub open spec fn cell_bit(cell: Cell) -> int {
        Self::spec_index(cell.0, cell.1, cell.2)
    }

    /// The bit of the cell that the quarter turn undone by `back` carries
    /// onto `target`.
    pub open spec fn source_bit(target: Cell, back: Direction, size: int) -> int {
        let source = back.spec_rotate_coordinate(target, size);
        Self::spec_index(source.0, source.1, source.2)
    }
}

} // verus!
