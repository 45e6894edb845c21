//! Bags of piece variants that are drawn from at random.

use rand::Rng;
use vstd::prelude::*;
use crate::tetromino::Tetromino;

verus! {

/// A bag of piece variants: how many of each variant are left in it, and
/// how many draws it still owes. A bag is drawn from until it is empty; a
/// draw that it does not owe leaves the count of owed draws at zero.
#[derive(Debug, Clone, Copy, Hash, PartialEq, Eq)]
pub struct Pattern {
    pub tetromino_set: [usize; 8],
    pub draw_count: usize,
}

impl Default for Pattern {
    fn default() -> (pattern: Self)
        ensures
            pattern.draw_count == 8,
            forall|variant: int| 0 <= variant < 8 ==> #[trigger] pattern.tetromino_set[variant] == 1,
    {
        Self { tetromino_set: [1usize; 8], draw_count: 8 }
    }
}

/// Sum of the first `upto` weights.
pub open spec fn weight_before(weights: Seq<usize>, upto: int) -> int
    decreases upto,
{
    if upto <= 0 {
        0
    } else {
        weight_before(weights, upto - 1) + weights[upto - 1]
    }
}

/// Calls `rand::thread_rng().gen_range(0..bound)`: a number drawn by the
/// thread's generator from the numbers below `bound`. The generator refuses
/// an empty range, so `bound` is positive; of the number nothing is claimed
/// but its range.
#[verifier::external_body]
fn random_below(bound: usize) -> (drawn: usize)
    requires
        bound > 0,
    ensures
        drawn < bound,
{
    rand::thread_rng().gen_range(0..bound)
}

impl Pattern {
    /// Number of pieces left in the bag.
    pub open spec fn spec_size(self) -> int {
        weight_before(self.tetromino_set@, 8)
    }

    /// Whether the pieces of the bag can be counted.
    pub open spec fn wf(self) -> bool {
        self.spec_size() <= usize::MAX
    }

    /// The variant that the number `bar` picks: the first one whose weight,
    /// added to the weights before it, exceeds `bar`.
    pub open spec fn spec_picks(self, bar: int, variant: int) -> bool {
        &&& 0 <= variant < 8
        &&& weight_before(self.tetromino_set@, variant) <= bar < weight_before(
            self.tetromino_set@,
            variant + 1,
        )
    }

    /// Whether `after` is this bag with one piece of the variant at
    /// `variant` taken out.
    pub open spec fn spec_drawn(self, variant: int, after: Pattern) -> bool {
        &&& 0 <= variant < 8
        &&& self.tetromino_set[variant] > 0
        &&& after.tetromino_set@ == self.tetromino_set@.update(
            variant,
            (self.tetromino_set[variant] - 1) as usize,
        )
        &&& after.draw_count == if self.draw_count > 0 {
            self.draw_count - 1
        } else {
            0
        }
    }

    pub fn size(&self) -> (size: usize)
        requires
            self.spec_size() <= usize::MAX,
        ensures
            size == self.spec_size(),
    {
        let mut size: usize = 0;
        let mut variant: usize = 0;
        while variant < 8
            invariant
                variant <= 8,
                size == weight_before(self.tetromino_set@, variant as int),
                self.spec_size() <= usize::MAX,
            decreases 8 - variant,
        {
            proof {
                lemma_weight_grows(self.tetromino_set@, variant as int + 1, 8);
            }
            size += self.tetromino_set[variant];
            variant += 1;
        }
        size
    }

    /// Draws a piece at random, each piece left in the bag with the same
    /// chance. An empty bag gives nothing and stays as it is.
    pub fn draw(&mut self) -> (drawn: Option<Tetromino>)
        requires
            old(self).wf(),
        ensures
            drawn.is_none() <==> old(self).spec_size() == 0,
            drawn.is_none() ==> *final(self) == *old(self),
            drawn matches Some(variant) ==> old(self).spec_drawn(
                variant.spec_index(),
                *final(self),
            ),
            final(self).wf(),
    {
        let total_weight = self.size();
        if total_weight == 0 {
            return None;
        }
        let bar = random_below(total_weight);
        self.draw_at(bar)
    }

    /// Takes out the piece that the number `bar` picks. A number that is not
    /// below the number of pieces picks nothing.
    pub fn draw_at(&mut self, bar: usize) -> (drawn: Option<Tetromino>)
        requires
            old(self).wf(),
        ensures
            drawn.is_none() <==> bar >= old(self).spec_size(),
            drawn.is_none() ==> *final(self) == *old(self),
            drawn matches Some(variant) ==> {
                &&& old(self).spec_picks(bar as int, variant.spec_index())
                &&& old(self).spec_drawn(variant.spec_index(), *final(self))
            },
            final(self).wf(),
    {
        let mut cumulative_weight: usize = 0;
        let mut i: usize = 0;
        while i < 8
            invariant
                i <= 8,
                *self == *old(self),
                self.wf(),
                cumulative_weight == weight_before(self.tetromino_set@, i as int),
                cumulative_weight <= bar,
            decreases 8 - i,
        {
            proof {
                lemma_weight_grows(self.tetromino_set@, i as int + 1, 8);
            }
            cumulative_weight += self.tetromino_set[i];
            if bar < cumulative_weight {
                let ghost before = self.tetromino_set@;
                let weight = self.tetromino_set[i];
                self.tetromino_set[i] = weight - 1;
                if self.draw_count > 0 {
                    self.draw_count -= 1;
                }
                proof {
                    lemma_weight_after_draw(before, self.tetromino_set@, i as int, 8);
                }
                return Some(Tetromino::from(i));
            }
            i += 1;
        }
        None
    }
}

/// One more piece in a bag makes the sum of the weights one more from that
/// variant on.
pub proof fn lemma_weight_after_gain(before: Seq<usize>, after: Seq<usize>, variant: int, upto: int)
    requires
        0 <= variant < before.len(),
        before[variant] < usize::MAX,
        after == before.update(variant, (before[variant] + 1) as usize),
        0 <= upto <= before.len(),
    ensures
        weight_before(after, upto) == if upto > variant {
            weight_before(before, upto) + 1
        } else {
            weight_before(before, upto)
        },
    decreases upto,
{
    if upto > 0 {
        lemma_weight_after_gain(before, after, variant, upto - 1);
    }
}

/// A bag that holds the same number of each variant holds eight times that
/// number.
pub proof fn lemma_weight_of_even_bag(weights: Seq<usize>, each: usize)
    requires
        weights.len() == 8,
        forall|variant: int| 0 <= variant < 8 ==> #[trigger] weights[variant] == each,
    ensures
        weight_before(weights, 8) == 8 * each,
{
    reveal_with_fuel(weight_before, 9);
    assert(weights[0] == each && weights[1] == each && weights[2] == each && weights[3] == each);
    assert(weights[4] == each && weights[5] == each && weights[6] == each && weights[7] == each);
}

/// The sum of the weights grows with the number of weights summed.
pub proof fn lemma_weight_grows(weights: Seq<usize>, fewer: int, more: int)
    requires
        fewer <= more,
    ensures
        weight_before(weights, fewer) <= weight_before(weights, more),
    decreases more - fewer,
{
    if fewer < more {
        lemma_weight_grows(weights, fewer, more - 1);
    }
}

/// Taking one piece out of a bag makes the sum of the weights one less
/// from that variant on.
pub proof fn lemma_weight_after_draw(before: Seq<usize>, after: Seq<usize>, variant: int, upto: int)
    requires
        0 <= variant < before.len(),
        before[variant] > 0,
        after == before.update(variant, (before[variant] - 1) as usize),
        0 <= upto <= before.len(),
    ensures
        weight_before(after, upto) == if upto > variant {
            weight_before(before, upto) - 1
        } else {
            weight_before(before, upto)
        },
    decreases upto,
{
    if upto > 0 {
        lemma_weight_after_draw(before, after, variant, upto - 1);
    }
}

} // verus!
