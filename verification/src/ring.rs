//! Neighbours in a ring of slots of which some are empty.

use vstd::prelude::*;

verus! {

/// Which slots of a sequence hold something.
pub open spec fn occupancy<A>(slots: Seq<Option<A>>) -> Seq<bool> {
    Seq::new(slots.len(), |k: int| slots[k] is Some)
}

/// The first occupied position from `lo` up to, and without, `hi`.
pub open spec fn first_in(occ: Seq<bool>, lo: int, hi: int) -> Option<int>
    decreases hi - lo,
{
    if lo >= hi {
        None
    } else if occ[lo] {
        Some(lo)
    } else {
        first_in(occ, lo + 1, hi)
    }
}

/// The last occupied position from `lo` up to, and without, `hi`.
pub open spec fn last_in(occ: Seq<bool>, lo: int, hi: int) -> Option<int>
    decreases hi - lo,
{
    if lo >= hi {
        None
    } else if occ[hi - 1] {
        Some(hi - 1)
    } else {
        last_in(occ, lo, hi - 1)
    }
}

/// The nearest occupied position after `i` in ring order, `i` itself left out.
pub open spec fn next_in_ring(occ: Seq<bool>, i: int) -> Option<int> {
    match first_in(occ, i + 1, occ.len() as int) {
        Some(k) => Some(k),
        None => first_in(occ, 0, i),
    }
}

/// The nearest occupied position before `i` in ring order, `i` itself left out.
pub open spec fn prev_in_ring(occ: Seq<bool>, i: int) -> Option<int> {
    match last_in(occ, 0, i) {
        Some(k) => Some(k),
        None => last_in(occ, i + 1, occ.len() as int),
    }
}

/// `j` lies strictly between `from` and `to` on the way round the ring from
/// `from` to `to`.
pub open spec fn between(from: int, to: int, j: int) -> bool {
    if from < to {
        from < j < to
    } else {
        j > from || j < to
    }
}

/// `first_in` finds an occupied position with none before it, or there is none.
pub proof fn lemma_first_in(occ: Seq<bool>, lo: int, hi: int)
    requires
        0 <= lo,
        hi <= occ.len(),
    ensures
        match first_in(occ, lo, hi) {
            Some(k) => lo <= k < hi && occ[k] && forall|j: int| lo <= j < k ==> !#[trigger] occ[j],
            None => forall|j: int| lo <= j < hi ==> !#[trigger] occ[j],
        },
    decreases hi - lo,
{
    if lo < hi && !occ[lo] {
        lemma_first_in(occ, lo + 1, hi);
    }
}

/// `last_in` finds an occupied position with none after it, or there is none.
pub proof fn lemma_last_in(occ: Seq<bool>, lo: int, hi: int)
    requires
        0 <= lo,
        hi <= occ.len(),
    ensures
        match last_in(occ, lo, hi) {
            Some(k) => lo <= k < hi && occ[k] && forall|j: int| k < j < hi ==> !#[trigger] occ[j],
            None => forall|j: int| lo <= j < hi ==> !#[trigger] occ[j],
        },
    decreases hi - lo,
{
    if lo < hi && !occ[hi - 1] {
        lemma_last_in(occ, lo, hi - 1);
    }
}

/// The next position in the ring is occupied, is not `i`, and nothing
/// occupied lies on the way to it; there is none only if nothing else is
/// occupied.
pub proof fn lemma_next_in_ring(occ: Seq<bool>, i: int)
    requires
        0 <= i < occ.len(),
    ensures
        match next_in_ring(occ, i) {
            Some(n) => 0 <= n < occ.len() && n != i && occ[n] && forall|j: int|
                0 <= j < occ.len() && between(i, n, j) ==> !#[trigger] occ[j],
            None => forall|j: int| 0 <= j < occ.len() && j != i ==> !#[trigger] occ[j],
        },
{
    lemma_first_in(occ, i + 1, occ.len() as int);
    lemma_first_in(occ, 0, i);
}

/// The previous position in the ring is occupied, is not `i`, and nothing
/// occupied lies on the way from it; there is none only if nothing else is
/// occupied.
pub proof fn lemma_prev_in_ring(occ: Seq<bool>, i: int)
    requires
        0 <= i < occ.len(),
    ensures
        match prev_in_ring(occ, i) {
            Some(p) => 0 <= p < occ.len() && p != i && occ[p] && forall|j: int|
                0 <= j < occ.len() && between(p, i, j) ==> !#[trigger] occ[j],
            None => forall|j: int| 0 <= j < occ.len() && j != i ==> !#[trigger] occ[j],
        },
{
    lemma_last_in(occ, 0, i);
    lemma_last_in(occ, i + 1, occ.len() as int);
}

/// Going to the next occupied position and back again ends where it began,
/// and so does going back and forth.
pub proof fn lemma_ring_inverse(occ: Seq<bool>, i: int)
    requires
        0 <= i < occ.len(),
        occ[i],
    ensures
        next_in_ring(occ, i) is Some <==> prev_in_ring(occ, i) is Some,
        next_in_ring(occ, i) matches Some(n) ==> prev_in_ring(occ, n) == Some(i),
        prev_in_ring(occ, i) matches Some(p) ==> next_in_ring(occ, p) == Some(i),
{
    lemma_next_in_ring(occ, i);
    lemma_prev_in_ring(occ, i);
    if let Some(n) = next_in_ring(occ, i) {
        lemma_prev_in_ring(occ, n);
    }
    if let Some(p) = prev_in_ring(occ, i) {
        lemma_next_in_ring(occ, p);
    }
}

} // verus!
