//! The supply of pieces.

use std::collections::VecDeque;
use vstd::prelude::*;
use crate::pattern::Pattern;
use crate::tetromino::Tetromino;

verus! {

/// The supply of pieces: bags that are drawn from one after another, and the
/// piece that is held back.
#[derive(Debug, Hash, PartialEq, Eq)]
pub struct Queue {
    pub sequence: VecDeque<Pattern>,
    pub hold: Option<Tetromino>,
    pub can_swap: bool,
}

/// Index of the first bag that is not empty, or the number of bags.
pub open spec fn first_live(bags: Seq<Pattern>, from: int) -> int
    decreases bags.len() - from,
{
    if from < 0 || from >= bags.len() {
        bags.len() as int
    } else if bags[from].spec_size() > 0 {
        from
    } else {
        first_live(bags, from + 1)
    }
}

impl Default for Queue {
    /// The queue without bags and without a hold, which cannot swap.
    fn default() -> (queue: Self)
        ensures
            queue.sequence@.len() == 0,
            queue.hold.is_none(),
            !queue.can_swap,
            queue.wf(),
    {
        Queue { sequence: VecDeque::new(), hold: None, can_swap: false }
    }
}

impl Clone for Queue {
    fn clone(&self) -> (copy: Self)
        ensures
            copy.spec_same(*self),
    {
        let sequence = self.sequence.clone();
        proof {
            assert(sequence@ =~= self.sequence@);
        }
        Queue { sequence, hold: self.hold, can_swap: self.can_swap }
    }
}

impl Queue {
    /// Whether the two queues hold the same bags and the same hold.
    pub open spec fn spec_same(self, other: Queue) -> bool {
        self.sequence@ == other.sequence@ && self.hold == other.hold && self.can_swap
            == other.can_swap
    }

    /// Whether the pieces of every bag can be counted.
    pub open spec fn wf(self) -> bool {
        forall|bag: int| 0 <= bag < self.sequence@.len() ==> (#[trigger] self.sequence@[bag]).wf()
    }

    /// Whether `after` is this queue once `variant` was taken as the next
    /// piece: the hold is untouched, the empty bags in front are gone, and
    /// the first bag that was not empty has given one piece of the variant.
    /// With no such bag, a fresh bag of one piece of each variant has given it.
    pub open spec fn spec_next(self, variant: Tetromino, after: Queue) -> bool {
        let live = first_live(self.sequence@, 0);
        &&& after.hold == self.hold
        &&& after.can_swap == self.can_swap
        &&& after.sequence@.len() >= 1
        &&& live < self.sequence@.len() ==> {
            &&& after.sequence@.skip(1) == self.sequence@.skip(live + 1)
            &&& self.sequence@[live].spec_drawn(variant.spec_index(), after.sequence@[0])
        }
        &&& live >= self.sequence@.len() ==> {
            &&& after.sequence@.len() == 1
            &&& after.sequence@[0].draw_count == 7
            &&& forall|other: int|
                0 <= other < 8 ==> #[trigger] after.sequence@[0].tetromino_set[other] == (if other
                    == variant.spec_index() {
                    0usize
                } else {
                    1usize
                })
        }
    }

    /// The next piece: one drawn from the first bag that is not empty, or,
    /// with no such bag, from a fresh bag that holds each variant once. The
    /// empty bags before it are dropped. There is always a next piece.
    pub fn next(&mut self) -> (variant: Tetromino)
        requires
            old(self).wf(),
        ensures
            final(self).wf(),
            old(self).spec_next(variant, *final(self)),
    {
        let ghost start = self.sequence@;
        let ghost mut dropped: int = 0;
        loop
            invariant
                self.wf(),
                self.hold == old(self).hold,
                self.can_swap == old(self).can_swap,
                start == old(self).sequence@,
                0 <= dropped <= start.len(),
                self.sequence@ == start.skip(dropped),
                first_live(start, 0) == first_live(start, dropped),
            decreases self.sequence@.len(),
        {
            let ghost bags = self.sequence@;
            let popped = self.sequence.pop_front();
            let ghost fresh = popped.is_none();
            let mut pattern = match popped {
                Some(pattern) => pattern,
                None => Pattern::default(),
            };
            proof {
                if fresh {
                    assert(dropped == start.len());
                    lemma_full_bag(pattern);
                } else {
                    assert(pattern == bags[0]);
                    assert(pattern == start[dropped]);
                    assert(pattern.wf());
                }
            }
            let ghost before = pattern;
            if let Some(variant) = pattern.draw() {
                self.sequence.push_front(pattern);
                proof {
                    let live = first_live(start, 0);
                    if fresh {
                        assert(live == start.len());
                        assert forall|other: int| 0 <= other < 8 implies #[trigger]
                            self.sequence@[0].tetromino_set[other] == (if other
                            == variant.spec_index() {
                            0usize
                        } else {
                            1usize
                        }) by {
                            assert(pattern.tetromino_set@[other] == pattern.tetromino_set[other]);
                        }
                    } else {
                        crate::pattern::lemma_weight_grows(before.tetromino_set@, 0, 8);
                        assert(before.spec_size() > 0);
                        assert(first_live(start, dropped) == dropped);
                        assert(live == dropped);
                        assert(self.sequence@.skip(1) =~= start.skip(live + 1));
                    }
                    assert forall|bag: int| 0 <= bag < self.sequence@.len() implies (
                    #[trigger] self.sequence@[bag]).wf() by {
                        if bag > 0 {
                            assert(self.sequence@[bag] == bags[bag]);
                        }
                    }
                }
                return variant;
            }
            proof {
                assert(!fresh);
                assert(self.sequence@ =~= start.skip(dropped + 1));
                dropped = dropped + 1;
                assert forall|bag: int| 0 <= bag < self.sequence@.len() implies (
                #[trigger] self.sequence@[bag]).wf() by {
                    assert(self.sequence@[bag] == bags[bag + 1]);
                }
            }
        }
    }
}

/// A fresh bag holds eight pieces, which can be counted.
pub proof fn lemma_full_bag(pattern: Pattern)
    requires
        pattern.draw_count == 8,
        forall|variant: int| 0 <= variant < 8 ==> #[trigger] pattern.tetromino_set[variant] == 1,
    ensures
        pattern.spec_size() == 8,
        pattern.wf(),
{
    crate::pattern::lemma_weight_of_even_bag(pattern.tetromino_set@, 1);
}

} // verus!
