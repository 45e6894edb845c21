//! One height level of the playfield.

use vstd::prelude::*;
use crate::bits::{
    bit_at, board_has, lemma_bit_of_and, lemma_bit_of_or, lemma_bit_of_zero,
    lemma_board_cell_of_bit, lemma_equal_by_bits,
};

verus! {

/// Greatest width and depth of a playfield.
pub const MAX_SIZE: usize = 8;

/// One height level of a playfield of width `W` and depth `D`: one board
/// for each piece variant, which marks the locked cells of that variant.
#[derive(Debug, Clone, Copy, Hash, PartialEq, Eq)]
pub struct Layer<const W: usize, const D: usize> {
    pub bitboards: [u64; 8],
}

impl<const W: usize, const D: usize> Default for Layer<W, D> {
    fn default() -> (layer: Self)
        ensures
            layer.spec_is_empty(),
    {
        Layer { bitboards: [0u64; 8] }
    }
}

/// The bits that are set in the first `upto` boards.
pub open spec fn combined_boards(boards: Seq<u64>, upto: int) -> u64
    decreases upto,
{
    if upto <= 0 {
        0
    } else {
        combined_boards(boards, upto - 1) | boards[upto - 1]
    }
}

/// A bit of the combined boards is set where one of the boards has it set.
pub proof fn lemma_combined_bit(boards: Seq<u64>, upto: int, position: int)
    requires
        0 <= upto <= boards.len(),
    ensures
        bit_at(combined_boards(boards, upto), position) <==> exists|variant: int|
            0 <= variant < upto && bit_at(#[trigger] boards[variant], position),
    decreases upto,
{
    if upto <= 0 {
        lemma_bit_of_zero(position);
    } else {
        lemma_combined_bit(boards, upto - 1, position);
        lemma_bit_of_or(combined_boards(boards, upto - 1), boards[upto - 1], position);
        if bit_at(combined_boards(boards, upto), position) {
            if bit_at(boards[upto - 1], position) {
            } else {
                let variant = choose|variant: int|
                    0 <= variant < upto - 1 && bit_at(#[trigger] boards[variant], position);
                assert(0 <= variant < upto && bit_at(boards[variant], position));
            }
        }
    }
}

impl<const W: usize, const D: usize> Layer<W, D> {
    /// Whether no cell of the layer is locked.
    pub open spec fn spec_is_empty(self) -> bool {
        forall|variant: int| 0 <= variant < 8 ==> #[trigger] self.bitboards[variant] == 0
    }

    /// The board that marks the cells locked by any variant.
    pub open spec fn spec_occupied(self) -> u64 {
        combined_boards(self.bitboards@, 8)
    }

    /// Whether the cell at (`x`, `z`) is locked.
    pub open spec fn spec_locked(self, x: int, z: int) -> bool {
        board_has(self.spec_occupied(), x, z)
    }

    /// Whether every cell of the footprint of `W` x `D` cells is locked.
    pub open spec fn spec_is_full(self) -> bool {
        forall|x: int, z: int| 0 <= x < W && 0 <= z < D ==> #[trigger] self.spec_locked(x, z)
    }

    /// The board that marks the footprint of `W` x `D` cells.
    pub fn mask() -> (mask: u64)
        requires
            W <= MAX_SIZE,
            D <= MAX_SIZE,
        ensures
            forall|x: int, z: int| #[trigger] board_has(mask, x, z) <==> (0 <= x < W && 0 <= z < D),
    {
        let mut mask: u64 = 0;
        let mut i: usize = 0;
        proof {
            assert forall|x: int, z: int| !#[trigger] board_has(mask, x, z) by {
                lemma_bit_of_zero(x + z * 8);
            }
        }
        while i < D
            invariant
                i <= D <= 8,
                W <= 8,
                forall|x: int, z: int| #[trigger]
                    board_has(mask, x, z) <==> (0 <= x < W && 0 <= z < i),
            decreases D - i,
        {
            let width = W as u64;
            let by = (i * MAX_SIZE) as u64;
            assert((1u64 << width) >= 1) by (bit_vector)
                requires
                    width <= 8,
            ;
            let row: u64 = ((1u64 << width) - 1) << by;
            let ghost before = mask;
            mask |= row;
            proof {
                assert forall|x: int, z: int| #[trigger]
                    board_has(mask, x, z) <==> (0 <= x < W && 0 <= z < i + 1) by {
                    if 0 <= x < 8 && 0 <= z < 8 {
                        let at = (x + z * 8) as u64;
                        lemma_bit_of_or(before, row, x + z * 8);
                        assert(board_has(before, x, z) <==> (0 <= x < W && 0 <= z < i));
                        assert(((((1u64 << width) - 1) as u64) << by) >> at & 1 == 1 <==> (by <= at
                            && at < by + width)) by (bit_vector)
                            requires
                                width <= 8,
                                by <= 56,
                                at < 64,
                        ;
                    }
                }
            }
            i += 1;
        }
        mask
    }

    pub fn is_full(&self) -> (full: bool)
        requires
            W <= MAX_SIZE,
            D <= MAX_SIZE,
        ensures
            full == self.spec_is_full(),
    {
        let mask = Self::mask();
        let occupied = self.occupied();
        proof {
            if occupied & mask == mask {
                assert forall|x: int, z: int| 0 <= x < W && 0 <= z < D implies #[trigger]
                    self.spec_locked(x, z) by {
                    assert(board_has(mask, x, z));
                    lemma_bit_of_and(occupied, mask, x + z * 8);
                }
            }
            if self.spec_is_full() {
                assert forall|position: int| 0 <= position < 64 implies bit_at(
                    occupied & mask,
                    position,
                ) == bit_at(mask, position) by {
                    lemma_bit_of_and(occupied, mask, position);
                    lemma_board_cell_of_bit(mask, position);
                    lemma_board_cell_of_bit(occupied, position);
                    let x = position % 8;
                    let z = position / 8;
                    if board_has(mask, x, z) {
                        assert(self.spec_locked(x, z));
                    }
                }
                lemma_equal_by_bits(occupied & mask, mask);
            }
        }
        occupied & mask == mask
    }

    pub fn occupied(&self) -> (combined: u64)
        ensures
            combined == self.spec_occupied(),
    {
        let mut combined: u64 = 0;
        let mut i: usize = 0;
        while i < 8
            invariant
                i <= 8,
                combined == combined_boards(self.bitboards@, i as int),
            decreases 8 - i,
        {
            combined |= self.bitboards[i];
            i += 1;
        }
        combined
    }

    pub fn clear(&mut self)
        ensures
            final(self).spec_is_empty(),
    {
        self.bitboards = [0u64; 8];
    }
}

} // verus!
