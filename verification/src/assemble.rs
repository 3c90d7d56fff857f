//! Putting runs that were fetched side by side back into the order of their
//! bookmarks: each result comes with the position it belongs to, and is
//! placed there, whenever it arrived.

use vstd::prelude::*;
use vstd::seq_lib::to_multiset_contains;
use vstd::set_lib::{lemma_int_range, lemma_subset_equality, set_int_range};
use crate::model::{views, RunStatus, RunView};

verus! {

/// The result of one fetch, with the position of its bookmark among those fetched.
#[derive(Clone, Debug, PartialEq, Eq)]
pub struct Completion {
    pub position: usize,
    pub status: RunStatus,
}

/// A result with its position as a natural number and the view of its run status.
pub struct CompletionView {
    pub position: nat,
    pub status: RunView,
}

impl View for Completion {
    type V = CompletionView;

    open spec fn view(&self) -> CompletionView {
        CompletionView { position: self.position as nat, status: self.status@ }
    }
}

/// Whether `completions` holds one result for each of the positions below `count`, and no other.
pub open spec fn covers(count: nat, completions: Seq<CompletionView>) -> bool {
    &&& completions.len() == count
    &&& forall|k: int| 0 <= k < completions.len() ==> (#[trigger] completions[k]).position < count
    &&& forall|j: int, k: int|
        0 <= j < k < completions.len() ==> (#[trigger] completions[j]).position
            != (#[trigger] completions[k]).position
}

/// The index in `completions` of a result for `position`.
pub open spec fn holder(completions: Seq<CompletionView>, position: nat) -> int {
    choose|k: int| 0 <= k < completions.len() && (#[trigger] completions[k]).position == position
}

/// The results by position: at each position below `count`, the status that came for it.
pub open spec fn in_order(count: nat, completions: Seq<CompletionView>) -> Seq<RunView> {
    Seq::new(count, |p: int| completions[holder(completions, p as nat)].status)
}

/// The positions of the results, in the order of arrival.
pub open spec fn positions(completions: Seq<CompletionView>) -> Seq<int> {
    completions.map_values(|c: CompletionView| c.position as int)
}

/// Where the results cover the positions, every position has a result.
pub proof fn every_position_is_held(count: nat, completions: Seq<CompletionView>)
    requires
        covers(count, completions),
    ensures
        forall|p: int|
            0 <= p < count ==> 0 <= #[trigger] holder(completions, p as nat) < completions.len()
                && completions[holder(completions, p as nat)].position == p,
{
    let ps = positions(completions);
    ps.unique_seq_to_set();
    lemma_int_range(0, count as int);
    let all = set_int_range(0, count as int);
    lemma_subset_equality(ps.to_set(), all);
    assert forall|p: int| 0 <= p < count implies 0 <= #[trigger] holder(completions, p as nat)
        < completions.len() && completions[holder(completions, p as nat)].position == p by {
        assert(ps.to_set().contains(p));
    }
}

/// Where the results cover the positions, each result's status stands at
/// its own position in `in_order`, and nothing else stands there.
pub proof fn in_order_places_each(count: nat, completions: Seq<CompletionView>)
    requires
        covers(count, completions),
    ensures
        in_order(count, completions).len() == count,
        forall|k: int|
            0 <= k < completions.len() ==> in_order(count, completions)[(
            #[trigger] completions[k]).position as int] == completions[k].status,
{
}

/// The order in which the results arrived does not matter: two arrivals of
/// the same results cover the same positions and give the same runs in the
/// same places.
pub proof fn arrival_order_is_irrelevant(
    count: nat,
    first: Seq<CompletionView>,
    second: Seq<CompletionView>,
)
    requires
        first.to_multiset() == second.to_multiset(),
    ensures
        covers(count, first) == covers(count, second),
        covers(count, first) ==> in_order(count, first) == in_order(count, second),
{
    if covers(count, first) {
        reordering_covers(count, first, second);
        reordering_keeps_places(count, first, second);
    }
    if covers(count, second) {
        reordering_covers(count, second, first);
    }
}

proof fn reordering_covers(count: nat, first: Seq<CompletionView>, second: Seq<CompletionView>)
    requires
        first.to_multiset() == second.to_multiset(),
        covers(count, first),
    ensures
        covers(count, second),
{
    first.to_multiset_ensures();
    second.to_multiset_ensures();
    first.lemma_multiset_has_no_duplicates();
    second.lemma_multiset_has_no_duplicates_conv();
    assert forall|k: int| 0 <= k < second.len() implies (#[trigger] second[k]).position
        < count by {
        to_multiset_contains(first, second[k]);
    }
    assert forall|j: int, k: int| 0 <= j < k < second.len() implies (#[trigger] second[j]).position
        != (#[trigger] second[k]).position by {
        // The two differ, so they stand at two places of `first`, with two positions.
        to_multiset_contains(first, second[j]);
        to_multiset_contains(first, second[k]);
        assert(first.contains(second[j]) && first.contains(second[k]));
    }
}

proof fn reordering_keeps_places(
    count: nat,
    first: Seq<CompletionView>,
    second: Seq<CompletionView>,
)
    requires
        first.to_multiset() == second.to_multiset(),
        covers(count, first),
        covers(count, second),
    ensures
        in_order(count, first) == in_order(count, second),
{
    every_position_is_held(count, first);
    assert forall|p: int| 0 <= p < count implies in_order(count, first)[p] == in_order(
        count,
        second,
    )[p] by {
        let h = holder(first, p as nat);
        to_multiset_contains(first, first[h]);
        to_multiset_contains(second, first[h]);
    }
}

/// Whether a slot is filled, with a run whose view is `status`.
spec fn holds(slot: Option<RunStatus>, status: RunView) -> bool {
    slot matches Some(run) && run@ == status
}

/// Puts the results of a batch of `count` fetches into the order of their
/// positions. Gives nothing when the results are not one for each position.
pub fn reassemble(count: usize, completions: Vec<Completion>) -> (runs: Option<Vec<RunStatus>>)
    ensures
        runs is Some <==> covers(count as nat, views(completions@)),
        runs matches Some(placed) ==> placed@.len() == count && views(placed@) == in_order(
            count as nat,
            views(completions@),
        ),
{
    let ghost arrived = views(completions@);
    if completions.len() != count {
        return None;
    }
    let mut slots: Vec<Option<RunStatus>> = Vec::new();
    let mut n: usize = 0;
    while n < count
        invariant
            n <= count,
            slots@.len() == n,
            forall|p: int| 0 <= p < n ==> slots@[p] is None,
        decreases count - n,
    {
        slots.push(None);
        n += 1;
    }
    let mut waiting = completions;
    while waiting.len() > 0
        invariant
            arrived == views(completions@),
            arrived.len() == count,
            waiting@.len() <= count,
            views(waiting@) == arrived.take(waiting@.len() as int),
            slots@.len() == count,
            forall|k: int|
                waiting@.len() <= k < count ==> (#[trigger] arrived[k]).position < count && holds(
                    slots@[arrived[k].position as int],
                    arrived[k].status,
                ),
            forall|p: int|
                0 <= p < count && (#[trigger] slots@[p]) is Some ==> exists|k: int|
                    waiting@.len() <= k < count && (#[trigger] arrived[k]).position == p,
            forall|j: int, k: int|
                waiting@.len() <= j < k < count ==> (#[trigger] arrived[j]).position != (
                #[trigger] arrived[k]).position,
        decreases waiting@.len(),
    {
        let ghost before = waiting@;
        let ghost at = waiting@.len() - 1;
        let next = waiting.pop().unwrap();
        proof {
            assert(views(before)[at] == before[at]@);
        }
        if next.position >= count {
            return None;
        }
        if slots[next.position].is_some() {
            return None;
        }
        slots.set(next.position, Some(next.status));
    }
    proof {
        every_position_is_held(count as nat, arrived);
    }
    let mut placed: Vec<RunStatus> = Vec::new();
    let mut i: usize = 0;
    while i < count
        invariant
            i <= count,
            arrived.len() == count,
            covers(count as nat, arrived),
            slots@.len() == count,
            placed@.len() == i,
            forall|p: int|
                i <= p < count ==> holds(#[trigger] slots@[p], in_order(count as nat, arrived)[p]),
            forall|p: int|
                0 <= p < i ==> (#[trigger] placed@[p])@ == in_order(count as nat, arrived)[p],
        decreases count - i,
    {
        let slot = slots[i].take();
        placed.push(slot.unwrap());
        i += 1;
    }
    Some(placed)
}

} // verus!
