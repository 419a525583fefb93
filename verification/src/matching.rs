//! Equality matching and greedy pairing over texts that are already
//! translated and already folded to one case.

use vstd::prelude::*;

verus! {

/// The position of the first candidate equal to `target`, scanning in order.
pub open spec fn position(target: Seq<char>, candidates: Seq<Seq<char>>) -> Option<int>
    decreases candidates.len(),
{
    if candidates.len() == 0 {
        None
    } else if candidates.first() == target {
        Some(0)
    } else {
        match position(target, candidates.drop_first()) {
            Some(i) => Some(i + 1),
            None => None,
        }
    }
}

/// The choice to select: the first candidate equal to `target`, and the
/// first choice of all where none is.
pub open spec fn position_or_first(target: Seq<char>, candidates: Seq<Seq<char>>) -> int {
    match position(target, candidates) {
        Some(i) => i,
        None => 0,
    }
}

/// The pairs that greedy matching emits: for each source in order, the first
/// target equal to it; a source without an equal target emits nothing, and a
/// target may serve more than one source.
pub open spec fn pairing(sources: Seq<Seq<char>>, targets: Seq<Seq<char>>) -> Seq<(int, int)>
    decreases sources.len(),
{
    if sources.len() == 0 {
        Seq::empty()
    } else {
        let earlier = pairing(sources.drop_last(), targets);
        match position(sources.last(), targets) {
            Some(j) => earlier.push((sources.len() - 1, j)),
            None => earlier,
        }
    }
}

/// A list of index pairs as mathematical integers.
pub open spec fn pairs_view(pairs: Seq<(usize, usize)>) -> Seq<(int, int)> {
    pairs.map_values(|p: (usize, usize)| (p.0 as int, p.1 as int))
}

/// `position` finds an equal candidate, the first of them, whenever there is
/// one.
pub proof fn lemma_position(target: Seq<char>, candidates: Seq<Seq<char>>)
    ensures
        match position(target, candidates) {
            Some(i) => 0 <= i < candidates.len() && candidates[i] == target && forall|j: int|
                0 <= j < i ==> candidates[j] != target,
            None => forall|j: int| 0 <= j < candidates.len() ==> candidates[j] != target,
        },
    decreases candidates.len(),
{
    if candidates.len() > 0 && candidates.first() != target {
        let rest = candidates.drop_first();
        lemma_position(target, rest);
        assert(forall|j: int| 0 < j < candidates.len() ==> candidates[j] == rest[j - 1]);
    }
}

/// The choice to select is one of the choices, whenever there are any.
pub proof fn lemma_choice_in_range(target: Seq<char>, candidates: Seq<Seq<char>>)
    ensures
        0 <= position_or_first(target, candidates),
        candidates.len() > 0 ==> position_or_first(target, candidates) < candidates.len(),
        (forall|j: int| 0 <= j < candidates.len() ==> candidates[j] != target)
            ==> position_or_first(target, candidates) == 0,
{
    lemma_position(target, candidates);
}

/// Every pair that `pairing` emits joins a source to the first target equal
/// to it, and the pairs come in rising order of their sources.
pub proof fn lemma_pairing(sources: Seq<Seq<char>>, targets: Seq<Seq<char>>)
    ensures
        pairing(sources, targets).len() <= sources.len(),
        forall|k: int|
            0 <= k < pairing(sources, targets).len() ==> {
                let p = #[trigger] pairing(sources, targets)[k];
                &&& 0 <= p.0 < sources.len()
                &&& position(sources[p.0], targets) == Some(p.1)
                &&& 0 <= p.1 < targets.len()
            },
        forall|k: int, l: int|
            0 <= k < l < pairing(sources, targets).len() ==> (#[trigger] pairing(
                sources,
                targets,
            )[k]).0 < (#[trigger] pairing(sources, targets)[l]).0,
    decreases sources.len(),
{
    if sources.len() > 0 {
        lemma_pairing(sources.drop_last(), targets);
        lemma_position(sources.last(), targets);
    }
}

/// Finds the first candidate equal to `target`.
pub fn first_equal(target: &String, candidates: &Vec<String>) -> (found: Option<usize>)
    ensures
        match found {
            Some(i) => position(target@, candidates.deep_view()) == Some(i as int),
            None => position(target@, candidates.deep_view()) is None,
        },
{
    let ghost all = candidates.deep_view();
    let mut i: usize = 0;
    assert(all.skip(0) == all);
    while i < candidates.len()
        invariant
            i <= candidates.len(),
            all == candidates.deep_view(),
            position(target@, all) == match position(target@, all.skip(i as int)) {
                Some(k) => Some(k + i),
                None => None,
            },
        decreases candidates.len() - i,
    {
        assert(all.skip(i as int).first() == candidates[i as int]@);
        if candidates[i] == *target {
            return Some(i);
        }
        assert(all.skip(i as int).drop_first() == all.skip(i + 1));
        i += 1;
    }
    None
}

/// Picks the choice to select: the first candidate equal to `target`, index
/// 0 where none is.
pub fn choose_equal(target: &String, candidates: &Vec<String>) -> (index: usize)
    ensures
        index == position_or_first(target@, candidates.deep_view()),
{
    match first_equal(target, candidates) {
        Some(i) => i,
        None => 0,
    }
}

/// Pairs every source with the first target equal to it.
pub fn pair_equal(sources: &Vec<String>, targets: &Vec<String>) -> (pairs: Vec<(usize, usize)>)
    ensures
        pairs_view(pairs@) == pairing(sources.deep_view(), targets.deep_view()),
{
    let ghost all = sources.deep_view();
    let mut pairs: Vec<(usize, usize)> = Vec::new();
    let mut i: usize = 0;
    assert(pairs_view(pairs@) =~= pairing(all.take(0), targets.deep_view()));
    while i < sources.len()
        invariant
            i <= sources.len(),
            all == sources.deep_view(),
            pairs_view(pairs@) == pairing(all.take(i as int), targets.deep_view()),
        decreases sources.len() - i,
    {
        let ghost before = pairs@;
        proof {
            assert(all.take(i + 1).drop_last() == all.take(i as int));
            assert(all.take(i + 1).last() == sources[i as int]@);
        }
        match first_equal(&sources[i], targets) {
            Some(j) => {
                pairs.push((i, j));
                assert(pairs_view(pairs@) =~= pairs_view(before).push((i as int, j as int)));
            },
            None => {},
        }
        i += 1;
    }
    assert(all.take(i as int) == all);
    pairs
}

} // verus!
