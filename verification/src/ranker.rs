//! Ranking: which memory a similarity search picks.
//!
//! A similarity score reaches the ranking as the IEEE 754 binary64 bit
//! pattern of the number. Scores are ordered as the numbers they encode; a
//! pattern that encodes no number loses against every number.

use crate::binary64::{standing, standing_of, LOSING};
use crate::memory::{Memory, MemoryView};
use vstd::prelude::*;

verus! {

/// The standing of each memory in a search for `query`, by the scores given
/// in the order of the memories. A memory whose embedding has not the length
/// of the query, or for which no score is given, has no comparable score.
pub open spec fn standings(memories: Seq<MemoryView>, query: Seq<u64>, scores: Seq<u64>) -> Seq<
    int,
> {
    Seq::new(
        memories.len(),
        |i: int|
            if i < scores.len() && memories[i].embedding.len() == query.len() {
                standing(scores[i])
            } else {
                LOSING as int
            },
    )
}

/// Whether `i` is the candidate that the ranking picks: none stands higher,
/// and of those that stand as high none comes later.
pub open spec fn is_pick(standings: Seq<int>, i: int) -> bool {
    &&& 0 <= i < standings.len()
    &&& forall|j: int| 0 <= j < standings.len() ==> standings[j] <= standings[i]
    &&& forall|j: int| i < j < standings.len() ==> standings[j] < standings[i]
}

/// The candidate that the ranking picks among `standings`, where there is
/// one.
pub open spec fn pick(standings: Seq<int>) -> int {
    choose|i: int| is_pick(standings, i)
}

/// No ranking picks two candidates.
pub proof fn lemma_pick_unique(standings: Seq<int>, i: int, j: int)
    requires
        is_pick(standings, i),
        is_pick(standings, j),
    ensures
        i == j,
{
    if i < j {
        assert(standings[j] < standings[i]);
        assert(standings[i] <= standings[j]);
    } else if j < i {
        assert(standings[i] < standings[j]);
        assert(standings[j] <= standings[i]);
    }
}

/// Every ranking of at least one candidate picks one.
pub proof fn lemma_pick_exists(standings: Seq<int>)
    requires
        standings.len() > 0,
    ensures
        is_pick(standings, pick(standings)),
    decreases standings.len(),
{
    if standings.len() == 1 {
        assert(is_pick(standings, 0));
    } else {
        let earlier = standings.drop_last();
        lemma_pick_exists(earlier);
        let before = pick(earlier);
        let last = standings.len() - 1;
        assert(forall|j: int| 0 <= j < earlier.len() ==> earlier[j] == standings[j]);
        if standings[before] <= standings[last] {
            assert(is_pick(standings, last));
        } else {
            assert(is_pick(standings, before));
        }
    }
}

/// Picks the memory most similar to `query`: the one with the highest
/// standing, and among several of them the one that was added last.
pub fn most_similar(memories: &Vec<Memory>, query: &Vec<u64>, scores: &Vec<u64>) -> (best: Option<
    usize,
>)
    ensures
        best is None <==> memories.len() == 0,
        best matches Some(i) ==> is_pick(standings(memories.deep_view(), query@, scores@), i as int),
{
    if memories.len() == 0 {
        return None;
    }
    let ghost all = standings(memories.deep_view(), query@, scores@);
    let mut best: usize = 0;
    let mut highest: i64 = LOSING;
    let mut i: usize = 0;
    while i < memories.len()
        invariant
            i <= memories.len(),
            all == standings(memories.deep_view(), query@, scores@),
            all.len() == memories.len(),
            i == 0 ==> best == 0 && highest == LOSING,
            i > 0 ==> is_pick(all.take(i as int), best as int) && highest == all[best as int],
        decreases memories.len() - i,
    {
        let place = if i < scores.len() && memories[i].embedding.len() == query.len() {
            standing_of(scores[i])
        } else {
            LOSING
        };
        assert(place == all[i as int]);
        if place >= highest {
            best = i;
            highest = place;
        }
        i += 1;
    }
    assert(all.take(memories.len() as int) =~= all);
    Some(best)
}

} // verus!
