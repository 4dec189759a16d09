//! First-match search over positions, as the classifiers use it: a block is
//! scanned in order and the first transaction that qualifies decides.

use vstd::prelude::*;

verus! {

/// Whether `i` is the first position from `start` and before `end` that
/// qualifies.
pub open spec fn is_first_from(start: int, end: int, qualifies: spec_fn(int) -> bool, i: int) -> bool {
    &&& start <= i < end
    &&& qualifies(i)
    &&& forall|j: int| start <= j < i ==> !#[trigger] qualifies(j)
}

/// The first position from `start` and before `end` that qualifies, if any
/// does.
pub open spec fn first_from(start: int, end: int, qualifies: spec_fn(int) -> bool) -> Option<int> {
    if exists|i: int| is_first_from(start, end, qualifies, i) {
        Some(choose|i: int| is_first_from(start, end, qualifies, i))
    } else {
        None
    }
}

/// A position found by a search, as a number.
pub open spec fn position_view(at: Option<usize>) -> Option<int> {
    match at {
        Some(i) => Some(i as int),
        None => None,
    }
}

/// There is at most one first position.
pub proof fn lemma_first_is_unique(
    start: int,
    end: int,
    qualifies: spec_fn(int) -> bool,
    i: int,
    j: int,
)
    requires
        is_first_from(start, end, qualifies, i),
        is_first_from(start, end, qualifies, j),
    ensures
        i == j,
{
}

/// A position that qualifies with none before it is what the search finds.
pub proof fn lemma_first_found(start: int, end: int, qualifies: spec_fn(int) -> bool, i: int)
    requires
        is_first_from(start, end, qualifies, i),
    ensures
        first_from(start, end, qualifies) == Some(i),
{
    let k = choose|k: int| is_first_from(start, end, qualifies, k);
    lemma_first_is_unique(start, end, qualifies, i, k);
}

/// Where no position qualifies the search finds nothing.
pub proof fn lemma_none_found(start: int, end: int, qualifies: spec_fn(int) -> bool)
    requires
        forall|j: int| start <= j < end ==> !#[trigger] qualifies(j),
    ensures
        first_from(start, end, qualifies) is None,
{
}

/// What the search says of its result: `Some(i)` is the first position
/// that qualifies, and `None` means that none does.
pub proof fn lemma_first_from_meaning(start: int, end: int, qualifies: spec_fn(int) -> bool)
    ensures
        match first_from(start, end, qualifies) {
            Some(i) => is_first_from(start, end, qualifies, i),
            None => forall|j: int| start <= j < end ==> !#[trigger] qualifies(j),
        },
{
    if first_from(start, end, qualifies) is None {
        assert forall|j: int| start <= j < end implies !#[trigger] qualifies(j) by {
            if qualifies(j) {
                lemma_some_qualifies(start, end, qualifies, j);
            }
        }
    }
}

/// Where some position qualifies the search finds one, at or before it.
pub proof fn lemma_some_qualifies(start: int, end: int, qualifies: spec_fn(int) -> bool, k: int)
    requires
        start <= k < end,
        qualifies(k),
    ensures
        first_from(start, end, qualifies) matches Some(i) && i <= k && is_first_from(
            start,
            end,
            qualifies,
            i,
        ),
    decreases k - start,
{
    if exists|j: int| start <= j < k && #[trigger] qualifies(j) {
        let j = choose|j: int| start <= j < k && #[trigger] qualifies(j);
        lemma_some_qualifies(start, end, qualifies, j);
    } else {
        lemma_first_found(start, end, qualifies, k);
    }
}

/// Skipping positions that do not qualify changes nothing.
pub proof fn lemma_skip_unqualified(
    start: int,
    mid: int,
    end: int,
    qualifies: spec_fn(int) -> bool,
)
    requires
        start <= mid,
        forall|j: int| start <= j < mid ==> !#[trigger] qualifies(j),
    ensures
        first_from(start, end, qualifies) == first_from(mid, end, qualifies),
{
    lemma_first_from_meaning(mid, end, qualifies);
    match first_from(mid, end, qualifies) {
        Some(i) => {
            lemma_first_found(start, end, qualifies, i);
        },
        None => {
            lemma_none_found(start, end, qualifies);
        },
    }
}

} // verus!
