//! Facts about the bits of a 64-bit value, and the cells of a board.

use vstd::prelude::*;

verus! {

/// Whether the bit at `position` of `value` is set. No bit is set outside
/// the positions 0..64.
pub open spec fn bit_at(value: u64, position: int) -> bool {
    0 <= position < 64 && (value >> (position as u64)) & 1 == 1
}

/// No bit of zero is set.
pub proof fn lemma_bit_of_zero(position: int)
    ensures
        !bit_at(0, position),
{
    if 0 <= position < 64 {
        let at = position as u64;
        assert((0u64 >> at) & 1 == 0) by (bit_vector);
    }
}

/// Setting one bit changes that bit and no other.
pub proof fn lemma_bit_after_set(value: u64, set: int, position: int)
    requires
        0 <= set < 64,
    ensures
        bit_at(value | (1u64 << (set as u64)), position) == (bit_at(value, position) || position
            == set),
{
    if 0 <= position < 64 {
        let at = position as u64;
        let to = set as u64;
        assert(((value | (1u64 << to)) >> at) & 1 == 1 <==> ((value >> at) & 1 == 1 || at == to))
            by (bit_vector)
            requires
                at < 64,
                to < 64,
        ;
    }
}

/// A bit of a union is set where it is set in one of the two.
pub proof fn lemma_bit_of_or(left: u64, right: u64, position: int)
    ensures
        bit_at(left | right, position) == (bit_at(left, position) || bit_at(right, position)),
{
    if 0 <= position < 64 {
        let at = position as u64;
        assert(((left | right) >> at) & 1 == 1 <==> ((left >> at) & 1 == 1 || (right >> at) & 1
            == 1)) by (bit_vector)
            requires
                at < 64,
        ;
    }
}

/// A bit of an intersection is set where it is set in both.
pub proof fn lemma_bit_of_and(left: u64, right: u64, position: int)
    ensures
        bit_at(left & right, position) == (bit_at(left, position) && bit_at(right, position)),
{
    if 0 <= position < 64 {
        let at = position as u64;
        assert(((left & right) >> at) & 1 == 1 <==> ((left >> at) & 1 == 1 && (right >> at) & 1
            == 1)) by (bit_vector)
            requires
                at < 64,
        ;
    }
}

/// A shift to the left by `by` moves the bit at `position - by` to `position`.
pub proof fn lemma_bit_of_shift_left(value: u64, by: int, position: int)
    requires
        0 <= by < 64,
    ensures
        bit_at(value << (by as u64), position) == (by <= position < 64 && bit_at(
            value,
            position - by,
        )),
{
    if 0 <= position < 64 {
        let at = position as u64;
        let shift = by as u64;
        if by <= position {
            let source = (position - by) as u64;
            assert(((value << shift) >> at) & 1 == 1 <==> (value >> source) & 1 == 1)
                by (bit_vector)
                requires
                    at < 64,
                    shift <= at,
                    source == at - shift,
            ;
        } else {
            assert(((value << shift) >> at) & 1 == 0) by (bit_vector)
                requires
                    at < shift,
                    shift < 64,
            ;
        }
    }
}

/// A shift to the right by `by` moves the bit at `position + by` to `position`.
pub proof fn lemma_bit_of_shift_right(value: u64, by: int, position: int)
    requires
        0 <= by < 64,
    ensures
        bit_at(value >> (by as u64), position) == (0 <= position && bit_at(value, position + by)),
{
    if 0 <= position < 64 {
        let at = position as u64;
        let shift = by as u64;
        if position + by < 64 {
            let source = (position + by) as u64;
            assert(((value >> shift) >> at) & 1 == 1 <==> (value >> source) & 1 == 1)
                by (bit_vector)
                requires
                    at < 64,
                    shift < 64,
                    source < 64,
                    source == at + shift,
            ;
        } else {
            assert(((value >> shift) >> at) & 1 == 0) by (bit_vector)
                requires
                    at < 64,
                    shift < 64,
                    at + shift >= 64,
            ;
        }
    }
}

/// A value with a set bit is not zero.
pub proof fn lemma_set_bit_means_nonzero(value: u64, position: int)
    requires
        bit_at(value, position),
    ensures
        value != 0,
{
    let at = position as u64;
    assert((value >> at) & 1 == 1 ==> value != 0) by (bit_vector);
}

/// A value that is not zero has a set bit.
pub proof fn lemma_nonzero_has_set_bit(value: u64)
    requires
        value != 0,
    ensures
        exists|position: int| bit_at(value, position),
{
    assert(value != 0 ==> ((value >> 0) & 1 == 1 || (value >> 1) & 1 == 1 || (value >> 2) & 1 == 1
        || (value >> 3) & 1 == 1 || (value >> 4) & 1 == 1 || (value >> 5) & 1 == 1
        || (value >> 6) & 1 == 1 || (value >> 7) & 1 == 1 || (value >> 8) & 1 == 1
        || (value >> 9) & 1 == 1 || (value >> 10) & 1 == 1 || (value >> 11) & 1 == 1
        || (value >> 12) & 1 == 1 || (value >> 13) & 1 == 1 || (value >> 14) & 1 == 1
        || (value >> 15) & 1 == 1 || (value >> 16) & 1 == 1 || (value >> 17) & 1 == 1
        || (value >> 18) & 1 == 1 || (value >> 19) & 1 == 1 || (value >> 20) & 1 == 1
        || (value >> 21) & 1 == 1 || (value >> 22) & 1 == 1 || (value >> 23) & 1 == 1
        || (value >> 24) & 1 == 1 || (value >> 25) & 1 == 1 || (value >> 26) & 1 == 1
        || (value >> 27) & 1 == 1 || (value >> 28) & 1 == 1 || (value >> 29) & 1 == 1
        || (value >> 30) & 1 == 1 || (value >> 31) & 1 == 1 || (value >> 32) & 1 == 1
        || (value >> 33) & 1 == 1 || (value >> 34) & 1 == 1 || (value >> 35) & 1 == 1
        || (value >> 36) & 1 == 1 || (value >> 37) & 1 == 1 || (value >> 38) & 1 == 1
        || (value >> 39) & 1 == 1 || (value >> 40) & 1 == 1 || (value >> 41) & 1 == 1
        || (value >> 42) & 1 == 1 || (value >> 43) & 1 == 1 || (value >> 44) & 1 == 1
        || (value >> 45) & 1 == 1 || (value >> 46) & 1 == 1 || (value >> 47) & 1 == 1
        || (value >> 48) & 1 == 1 || (value >> 49) & 1 == 1 || (value >> 50) & 1 == 1
        || (value >> 51) & 1 == 1 || (value >> 52) & 1 == 1 || (value >> 53) & 1 == 1
        || (value >> 54) & 1 == 1 || (value >> 55) & 1 == 1 || (value >> 56) & 1 == 1
        || (value >> 57) & 1 == 1 || (value >> 58) & 1 == 1 || (value >> 59) & 1 == 1
        || (value >> 60) & 1 == 1 || (value >> 61) & 1 == 1 || (value >> 62) & 1 == 1
        || (value >> 63) & 1 == 1)) by (bit_vector);
    let at = choose|at: u64| at < 64 && #[trigger] (value >> at) & 1 == 1;
    assert(bit_at(value, at as int));
}

/// Edge of the square that a board stores for one height level.
pub const BOARD_STRIDE: usize = 8;

/// Whether the board marks the cell at (`x`, `z`): the bit at `x + z * 8`,
/// for `x` and `z` in 0..8.
pub open spec fn board_has(board: u64, x: int, z: int) -> bool {
    0 <= x < 8 && 0 <= z < 8 && bit_at(board, x + z * 8)
}

/// Two values with the same bits are one value.
pub proof fn lemma_equal_by_bits(left: u64, right: u64)
    requires
        forall|position: int|
            0 <= position < 64 ==> bit_at(left, position) == bit_at(right, position),
    ensures
        left == right,
{
    if left != right {
        let differ = left ^ right;
        assert(left != right ==> left ^ right != 0) by (bit_vector);
        lemma_nonzero_has_set_bit(differ);
        let position = choose|position: int| bit_at(differ, position);
        let at = position as u64;
        assert(((left ^ right) >> at) & 1 == 1 ==> (((left >> at) & 1 == 1) != ((right >> at) & 1
            == 1))) by (bit_vector);
        assert(bit_at(left, position) != bit_at(right, position));
    }
}

/// Each bit of a board stands for one cell of the square of 8 x 8 cells.
pub proof fn lemma_board_cell_of_bit(board: u64, position: int)
    requires
        0 <= position < 64,
    ensures
        0 <= position % 8 < 8,
        0 <= position / 8 < 8,
        position % 8 + (position / 8) * 8 == position,
        bit_at(board, position) == board_has(board, position % 8, position / 8),
{
}

} // verus!
