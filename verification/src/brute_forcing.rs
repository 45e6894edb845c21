//! One step of a search over game states.

use vstd::prelude::*;
use crate::action::{all_actions, Action};
use crate::catalog::Catalog;
use crate::game_state::GameState;

verus! {

/// Whether `child` is what `action` makes of `start`, a copy of `state`,
/// and is worth a search: the action is one that can be made now, and the
/// child has a hard drop in its history and no cell locked above the fourth
/// layer.
pub open spec fn is_child<const W: usize, const H: usize, const D: usize>(
    state: GameState<W, H, D>,
    start: GameState<W, H, D>,
    action: Action,
    child: GameState<W, H, D>,
) -> bool {
    &&& start.spec_same(state)
    &&& all_actions().contains(action)
    &&& start.spec_possible(action)
    &&& start.spec_recently_dropped()
    &&& start.spec_performed(action, child)
    &&& child.spec_score() matches Some(drops) && drops > 0
}

/// Whether `child` is what one of the actions that can be made now makes
/// of a copy of `state`, and is worth a search.
pub open spec fn is_child_of<const W: usize, const H: usize, const D: usize>(
    state: GameState<W, H, D>,
    child: GameState<W, H, D>,
) -> bool {
    exists|start: GameState<W, H, D>, action: Action| #[trigger]
        is_child(state, start, action, child)
}

/// Whether `made` is what `action` makes of `start`, a copy of `state`,
/// and is not worth a search.
pub open spec fn is_worthless<const W: usize, const H: usize, const D: usize>(
    state: GameState<W, H, D>,
    start: GameState<W, H, D>,
    action: Action,
    made: GameState<W, H, D>,
) -> bool {
    &&& start.spec_same(state)
    &&& start.spec_performed(action, made)
    &&& !(made.spec_score() matches Some(drops) && drops > 0)
}

/// Whether `action` is accounted for in `children`: one of them is what the
/// action makes of a copy of `state`, or the action can make a state of
/// it that is not worth a search.
pub open spec fn accounted<const W: usize, const H: usize, const D: usize>(
    state: GameState<W, H, D>,
    children: Seq<GameState<W, H, D>>,
    action: Action,
) -> bool {
    ||| exists|at: int, start: GameState<W, H, D>|
        0 <= at < children.len() && #[trigger] is_child(state, start, action, children[at])
    ||| exists|start: GameState<W, H, D>, made: GameState<W, H, D>| #[trigger]
        is_worthless(state, start, action, made)
}

/// The worth of a state that has one, and zero for a state that has none.
pub open spec fn worth<const W: usize, const H: usize, const D: usize>(
    state: GameState<W, H, D>,
) -> int {
    match state.spec_score() {
        Some(drops) => drops,
        None => 0,
    }
}

/// Each of the actions that can be made now is one of all actions, can be
/// made, and is made after a recent hard drop or among the first actions.
pub proof fn lemma_performable_members<const W: usize, const H: usize, const D: usize>(
    state: GameState<W, H, D>,
    upto: int,
    at: int,
)
    requires
        0 <= upto <= 12,
        0 <= at < state.spec_performable_before(upto).len(),
    ensures
        state.spec_performable_before(upto).len() <= upto,
        all_actions().contains(state.spec_performable_before(upto)[at]),
        state.spec_possible(state.spec_performable_before(upto)[at]),
        state.spec_recently_dropped(),
    decreases upto,
{
    if upto > 0 {
        let before = state.spec_performable_before(upto - 1);
        lemma_performable_length(state, upto - 1);
        if at < before.len() {
            lemma_performable_members(state, upto - 1, at);
        } else {
            assert(all_actions()[upto - 1] == state.spec_performable_before(upto)[at]);
        }
    }
}

/// No more actions can be made than there are.
pub proof fn lemma_performable_length<const W: usize, const H: usize, const D: usize>(
    state: GameState<W, H, D>,
    upto: int,
)
    requires
        0 <= upto,
    ensures
        state.spec_performable_before(upto).len() <= upto,
    decreases upto,
{
    if upto > 0 {
        lemma_performable_length(state, upto - 1);
    }
}

/// Whether a search goes on from a state: it has depth left, has not seen
/// the state before, and the state has no cell locked above the fourth
/// layer.
pub fn should_explore(depth: usize, seen: bool, score: Option<usize>) -> (explore: bool)
    ensures
        explore == (depth > 0 && !seen && score.is_some()),
{
    !(depth == 0 || seen || score.is_none())
}

/// The states that one action leads to and that are worth a search, the
/// least worthy first; among states of one worth, in the order of their
/// actions.
pub fn children<const W: usize, const H: usize, const D: usize>(
    catalog: &Catalog,
    game_state: GameState<W, H, D>,
) -> (children: Vec<GameState<W, H, D>>)
    requires
        game_state.wf(),
    ensures
        children@.len() <= game_state.spec_performable_before(12).len() <= 12,
        forall|at: int|
            0 <= at < children@.len() ==> is_child_of(game_state, #[trigger] children@[at]),
        forall|index: int|
            0 <= index < game_state.spec_performable_before(12).len() ==> accounted(
                game_state,
                children@,
                #[trigger] game_state.spec_performable_before(12)[index],
            ),
        forall|first: int, second: int|
            0 <= first <= second < children@.len() ==> worth(#[trigger] children@[first]) <= worth(
                #[trigger] children@[second],
            ),
{
    let mut state = game_state;
    let mut children: Vec<GameState<W, H, D>> = Vec::new();
    let actions = state.performable_actions(catalog);
    proof {
        lemma_performable_length(game_state, 12);
    }

    let mut made: usize = 0;
    while made < actions.len()
        invariant
            state == game_state,
            state.wf(),
            actions@ == game_state.spec_performable_before(12),
            actions@.len() <= 12,
            made <= actions@.len(),
            children@.len() <= made,
            forall|at: int|
                0 <= at < children@.len() ==> is_child_of(game_state, #[trigger] children@[at]),
            forall|index: int|
                0 <= index < made ==> accounted(game_state, children@, #[trigger] actions@[index]),
            forall|first: int, second: int|
                0 <= first <= second < children@.len() ==> worth(#[trigger] children@[first])
                    <= worth(#[trigger] children@[second]),
        decreases actions@.len() - made,
    {
        let action = actions[made];
        let mut child = state.clone();
        let ghost start = child;
        proof {
            lemma_performable_members(game_state, 12, made as int);
            assert(start.spec_possible(action) == game_state.spec_possible(action));
        }
        child.perform(catalog, action, true);
        let ghost earlier = children@;
        proof {
            assert(start.spec_recently_dropped() == game_state.spec_recently_dropped());
            if !(child.spec_score() matches Some(drops) && drops > 0) {
                assert(is_worthless(game_state, start, action, child));
            }
        }
        if let Some(drops) = child.score() {
            if drops > 0 {
                let mut place: usize = 0;
                while place < children.len() && worth_at_most(&children, place, drops)
                    invariant
                        place <= children@.len(),
                        forall|at: int|
                            0 <= at < place ==> worth(#[trigger] children@[at]) <= drops,
                    decreases children@.len() - place,
                {
                    place += 1;
                }
                let ghost before = children@;
                proof {
                    assert(start.spec_recently_dropped() == game_state.spec_recently_dropped());
                    assert(is_child(game_state, start, action, child));
                    assert(is_child_of(game_state, child));
                }
                children.insert(place, child);
                proof {
                    assert forall|at: int| 0 <= at < children@.len() implies is_child_of(
                        game_state,
                        #[trigger] children@[at],
                    ) by {
                        if at < place {
                            assert(children@[at] == before[at]);
                        } else if at > place {
                            assert(children@[at] == before[at - 1]);
                        }
                    }
                    assert(children@[place as int] == child);
                    assert forall|index: int| 0 <= index < made + 1 implies accounted(
                        game_state,
                        children@,
                        #[trigger] actions@[index],
                    ) by {
                        if index < made {
                            lemma_accounted_after_insert(
                                game_state,
                                before,
                                children@,
                                place as int,
                                actions@[index],
                            );
                        }
                    }
                    assert forall|first: int, second: int|
                        0 <= first <= second < children@.len() implies worth(
                        #[trigger] children@[first],
                    ) <= worth(#[trigger] children@[second]) by {
                        let low = if first < place {
                            first
                        } else {
                            first - 1
                        };
                        let high = if second < place {
                            second
                        } else {
                            second - 1
                        };
                        if first != place {
                            assert(children@[first] == before[low]);
                        }
                        if second != place {
                            assert(children@[second] == before[high]);
                        }
                        if place < before.len() {
                            assert(worth(before[place as int]) > drops);
                        }
                        if first != place && second != place {
                            assert(worth(before[low]) <= worth(before[high]));
                        }
                        if first == place && second != place {
                            assert(worth(before[place as int]) <= worth(before[high]));
                        }
                    }
                }
            }
        }
        made += 1;
    }
    children
}

/// An action that is accounted for stays so when a state is put among the
/// children.
pub proof fn lemma_accounted_after_insert<const W: usize, const H: usize, const D: usize>(
    state: GameState<W, H, D>,
    before: Seq<GameState<W, H, D>>,
    after: Seq<GameState<W, H, D>>,
    place: int,
    action: Action,
)
    requires
        0 <= place <= before.len(),
        after.len() == before.len() + 1,
        forall|at: int| 0 <= at < place ==> after[at] == before[at],
        forall|at: int| place <= at < before.len() ==> after[at + 1] == before[at],
        accounted(state, before, action),
    ensures
        accounted(state, after, action),
{
    if exists|at: int, start: GameState<W, H, D>|
        0 <= at < before.len() && #[trigger] is_child(state, start, action, before[at]) {
        let (at, start) = choose|at: int, start: GameState<W, H, D>|
            0 <= at < before.len() && #[trigger] is_child(state, start, action, before[at]);
        let moved = if at < place {
            at
        } else {
            at + 1
        };
        assert(after[moved] == before[at]);
        assert(is_child(state, start, action, after[moved]));
    }
}

/// Whether the state at `place` is worth no more than `drops`.
fn worth_at_most<const W: usize, const H: usize, const D: usize>(
    children: &Vec<GameState<W, H, D>>,
    place: usize,
    drops: usize,
) -> (within: bool)
    requires
        place < children@.len(),
    ensures
        within == (worth(children@[place as int]) <= drops),
{
    match children[place].score() {
        Some(made) => made <= drops,
        None => true,
    }
}

} // verus!
