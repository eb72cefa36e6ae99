//! What holds of every chain that is built from a ring of declarations.

use vstd::prelude::*;
use std::ops::Range;
use crate::access::read_only;
use crate::builder::{built, own, resolved};
use crate::chain::{Chain, ChainLink};
use crate::link::{declared, PassLinks, Slot};
use crate::plan::{end_of, merged_of, needs_semaphore, stripped, transition};
use crate::ring::{
    lemma_next_in_ring,
    lemma_prev_in_ring,
    lemma_ring_inverse,
    next_in_ring,
    occupancy,
    prev_in_ring,
};
use crate::state::State;
use crate::sync::{Acquire, LinkSync, Release};
use crate::usage::Usage;

verus! {

/// Every slot of `links` is resolved for the declarations `slots`.
pub open spec fn all_resolved<T: State, S, W>(
    slots: Seq<Option<Slot<T>>>,
    links: Seq<Option<ChainLink<T, S, W>>>,
    allocated: spec_fn((S, W)) -> bool,
) -> bool {
    &&& links.len() == slots.len()
    &&& forall|i: int| 0 <= i < slots.len() ==> #[trigger] resolved(slots, links, allocated, i)
}

/// A chain that is built holds a resolved link for each pass of the ring: what
/// follows holds of every chain that `Chain::build` gives.
pub proof fn lemma_built_resolved<T: State, U: Usage, I, S, W>(
    id: usize,
    usage: U,
    init: I,
    passes: Seq<PassLinks<T, U>>,
    allocated: spec_fn((S, W)) -> bool,
    chain: Chain<T, U, I, S, W>,
)
    requires
        built(id, usage, init, passes, allocated, Some(chain)),
    ensures
        all_resolved(declared(passes, id), chain.links@, allocated),
        chain.wf(),
{
    let slots = declared(passes, id);
    let k = choose|k: int| 0 <= k < slots.len() && (#[trigger] slots[k]) is Some;
    assert(resolved(slots, chain.links@, allocated, k));
    assert(chain.links@[k] is Some);
}

/// Readers on one queue need no synchronization.
///
/// Where every pass that takes part declares the same state, which reads and
/// does not write, and all of them execute on one queue, every link has that
/// state as its merged state, and nothing stands before or after any pass.
/// Where all declare the same stages too, every link has them as its merged
/// stages.
pub proof fn lemma_readers_merge<T: State, S, W>(
    slots: Seq<Option<Slot<T>>>,
    links: Seq<Option<ChainLink<T, S, W>>>,
    allocated: spec_fn((S, W)) -> bool,
    first: Slot<T>,
    i: int,
)
    requires
        all_resolved(slots, links, allocated),
        forall|k: int|
            0 <= k < slots.len() && (#[trigger] slots[k]) is Some ==> slots[k]->0.state
                == first.state && slots[k]->0.queue == first.queue,
        read_only(first.state.access_of()),
        0 <= i < slots.len(),
        slots[i] is Some,
    ensures
        links[i] is Some,
        links[i]->0.merged_state == first.state,
        links[i]->0.release == LinkSync::<T, S, Release>::Noop(Release),
        links[i]->0.acquire == LinkSync::<T, W, Acquire>::Noop(Acquire),
        (forall|k: int|
            0 <= k < slots.len() && (#[trigger] slots[k]) is Some ==> slots[k]->0.stages
                == first.stages) ==> links[i]->0.merged_stages == first.stages,
{
    let occ = occupancy(slots);
    assert(resolved(slots, links, allocated, i));
    first.state.lemma_merge(first.state);
    first.stages.lemma_join_self();
    lemma_next_in_ring(occ, i);
    lemma_prev_in_ring(occ, i);
    if let Some(n) = next_in_ring(occ, i) {
        assert(slots[n] is Some);
    }
    if let Some(p) = prev_in_ring(occ, i) {
        assert(slots[p] is Some);
    }
}

/// A write and a read on one queue are kept apart by a barrier.
///
/// Where all passes execute on one queue and of each pass and the next one at
/// least one does more than read, no two links merge, and after each pass
/// stands a barrier and nothing else: from the state of the pass, with its
/// content given up where the next pass does more than read, to the state of
/// the next pass. Nothing stands before the next pass.
pub proof fn lemma_writer_reader_barrier<T: State, S, W>(
    slots: Seq<Option<Slot<T>>>,
    links: Seq<Option<ChainLink<T, S, W>>>,
    allocated: spec_fn((S, W)) -> bool,
    i: int,
    n: int,
)
    requires
        all_resolved(slots, links, allocated),
        forall|k: int|
            0 <= k < slots.len() && (#[trigger] slots[k]) is Some ==> (next_in_ring(
                occupancy(slots),
                k,
            ) matches Some(m) ==> slots[k]->0.queue == slots[m]->0.queue && !(read_only(
                slots[k]->0.state.access_of(),
            ) && read_only(slots[m]->0.state.access_of()))),
        0 <= i < slots.len(),
        slots[i] is Some,
        next_in_ring(occupancy(slots), i) == Some(n),
    ensures
        links[i] is Some,
        links[n] is Some,
        links[i]->0.merged_state == slots[i]->0.state,
        links[n]->0.merged_state == slots[n]->0.state,
        links[i]->0.release == (LinkSync::<T, S, Release>::Barrier {
            states: Range {
                start: if read_only(slots[n]->0.state.access_of()) {
                    slots[i]->0.state
                } else {
                    slots[i]->0.state.discarded()
                },
                end: slots[n]->0.state,
            },
            stages: Range { start: slots[i]->0.stages, end: slots[n]->0.stages },
        }),
        links[n]->0.acquire == LinkSync::<T, W, Acquire>::Noop(Acquire),
{
    let occ = occupancy(slots);
    lemma_next_in_ring(occ, i);
    lemma_ring_inverse(occ, i);
    assert(slots[n] is Some);
    assert(resolved(slots, links, allocated, i));
    assert(resolved(slots, links, allocated, n));
    lemma_unmerged(slots, i);
    lemma_unmerged(slots, n);
    slots[i]->0.state.lemma_merge(slots[n]->0.state);
}

/// A pass none of whose neighbours merges with it keeps the state and
/// the stages that it declared.
proof fn lemma_unmerged<T: State>(slots: Seq<Option<Slot<T>>>, i: int)
    requires
        forall|k: int|
            0 <= k < slots.len() && (#[trigger] slots[k]) is Some ==> (next_in_ring(
                occupancy(slots),
                k,
            ) matches Some(m) ==> !(read_only(slots[k]->0.state.access_of()) && read_only(
                slots[m]->0.state.access_of(),
            ))),
        0 <= i < slots.len(),
        slots[i] is Some,
    ensures
        merged_of(slots, i) == own(slots, i),
{
    let occ = occupancy(slots);
    lemma_next_in_ring(occ, i);
    lemma_prev_in_ring(occ, i);
    lemma_ring_inverse(occ, i);
    if let Some(n) = next_in_ring(occ, i) {
        slots[i]->0.state.lemma_merge(slots[n]->0.state);
    }
    if let Some(p) = prev_in_ring(occ, i) {
        assert(slots[p] is Some);
        slots[p]->0.state.lemma_merge(slots[i]->0.state);
    }
}

/// Two queues of one family are kept apart by a semaphore.
///
/// Where a pass and the next one execute on different queues of one family,
/// a semaphore is signalled after the first and waited for before the second,
/// both sides from one allocation. A barrier stands with the signal, and
/// only there, exactly if the two states of the transition differ once their
/// access flags are taken away.
pub proof fn lemma_same_family_semaphore<T: State, S, W>(
    slots: Seq<Option<Slot<T>>>,
    links: Seq<Option<ChainLink<T, S, W>>>,
    allocated: spec_fn((S, W)) -> bool,
    i: int,
    n: int,
)
    requires
        all_resolved(slots, links, allocated),
        0 <= i < slots.len(),
        slots[i] is Some,
        next_in_ring(occupancy(slots), i) == Some(n),
        slots[i]->0.queue != slots[n]->0.queue,
        slots[i]->0.queue.family == slots[n]->0.queue.family,
    ensures
        links[i] is Some,
        links[n] is Some,
        ({
            let states = stripped(transition(end_of(slots, i), end_of(slots, n)).0);
            let stages = transition(end_of(slots, i), end_of(slots, n)).1;
            if states.start == states.end {
                links[i]->0.release is Semaphore
            } else {
                &&& links[i]->0.release is BarrierSemaphore
                &&& links[i]->0.release->BarrierSemaphore_states == states
                &&& links[i]->0.release->BarrierSemaphore_stages == stages
            }
        }),
        links[n]->0.acquire is Semaphore,
        links[i]->0.release.semaphore_of() is Some,
        links[n]->0.acquire.semaphore_of() is Some,
        allocated(
            (links[i]->0.release.semaphore_of()->0, links[n]->0.acquire.semaphore_of()->0),
        ),
{
    let occ = occupancy(slots);
    lemma_next_in_ring(occ, i);
    lemma_ring_inverse(occ, i);
    assert(slots[n] is Some);
    assert(resolved(slots, links, allocated, i));
    assert(resolved(slots, links, allocated, n));
    assert(needs_semaphore(slots, i));
}

/// Two queue families hand the resource over.
///
/// Where a pass and the next one execute on queues of different families,
/// an ownership transfer stands after the first and before the second, with
/// the same states, without access flags, and the same stages. Each names
/// the queue of the other pass, and their semaphores are the two sides of
/// one allocation.
pub proof fn lemma_other_family_transfer<T: State, S, W>(
    slots: Seq<Option<Slot<T>>>,
    links: Seq<Option<ChainLink<T, S, W>>>,
    allocated: spec_fn((S, W)) -> bool,
    i: int,
    n: int,
)
    requires
        all_resolved(slots, links, allocated),
        0 <= i < slots.len(),
        slots[i] is Some,
        next_in_ring(occupancy(slots), i) == Some(n),
        slots[i]->0.queue.family != slots[n]->0.queue.family,
    ensures
        links[i] is Some,
        links[n] is Some,
        links[i]->0.release is Transfer,
        links[n]->0.acquire is Transfer,
        links[i]->0.release->Transfer_other == slots[n]->0.queue,
        links[n]->0.acquire->Transfer_other == slots[i]->0.queue,
        links[i]->0.release->Transfer_states == stripped(
            transition(end_of(slots, i), end_of(slots, n)).0,
        ),
        links[i]->0.release->Transfer_stages == transition(end_of(slots, i), end_of(slots, n)).1,
        links[n]->0.acquire->Transfer_states == links[i]->0.release->Transfer_states,
        links[n]->0.acquire->Transfer_stages == links[i]->0.release->Transfer_stages,
        allocated((links[i]->0.release->Transfer_semaphore, links[n]->0.acquire->Transfer_semaphore)),
{
    let occ = occupancy(slots);
    lemma_next_in_ring(occ, i);
    lemma_ring_inverse(occ, i);
    assert(slots[n] is Some);
    assert(resolved(slots, links, allocated, i));
    assert(resolved(slots, links, allocated, n));
    assert(needs_semaphore(slots, i));
}

/// Semaphores stand between queues, and only there.
///
/// A semaphore is signalled after a pass exactly if the next pass executes on
/// another queue, and exactly then the next pass waits for one. Before a
/// pass stands no barrier: a barrier stands after the pass before it.
pub proof fn lemma_semaphores_between_queues<T: State, S, W>(
    slots: Seq<Option<Slot<T>>>,
    links: Seq<Option<ChainLink<T, S, W>>>,
    allocated: spec_fn((S, W)) -> bool,
    i: int,
    n: int,
)
    requires
        all_resolved(slots, links, allocated),
        0 <= i < slots.len(),
        slots[i] is Some,
        next_in_ring(occupancy(slots), i) == Some(n),
    ensures
        links[i] is Some,
        links[n] is Some,
        links[i]->0.release.semaphore_of() is Some <==> slots[i]->0.queue != slots[n]->0.queue,
        links[n]->0.acquire.semaphore_of() is Some <==> slots[i]->0.queue != slots[n]->0.queue,
        !(links[n]->0.acquire is Barrier),
        !(links[n]->0.acquire is BarrierSemaphore),
{
    let occ = occupancy(slots);
    lemma_next_in_ring(occ, i);
    lemma_ring_inverse(occ, i);
    assert(slots[n] is Some);
    assert(resolved(slots, links, allocated, i));
    assert(resolved(slots, links, allocated, n));
}

/// Ownership transfers come in pairs.
///
/// An ownership transfer stands after a pass exactly if one stands before the
/// next pass, and exactly if the two execute on queues of different
/// families.
pub proof fn lemma_transfers_paired<T: State, S, W>(
    slots: Seq<Option<Slot<T>>>,
    links: Seq<Option<ChainLink<T, S, W>>>,
    allocated: spec_fn((S, W)) -> bool,
    i: int,
    n: int,
)
    requires
        all_resolved(slots, links, allocated),
        0 <= i < slots.len(),
        slots[i] is Some,
        next_in_ring(occupancy(slots), i) == Some(n),
    ensures
        links[i] is Some,
        links[n] is Some,
        links[i]->0.release is Transfer <==> slots[i]->0.queue.family != slots[n]->0.queue.family,
        links[n]->0.acquire is Transfer <==> slots[i]->0.queue.family != slots[n]->0.queue.family,
{
    let occ = occupancy(slots);
    lemma_next_in_ring(occ, i);
    lemma_ring_inverse(occ, i);
    assert(slots[n] is Some);
    assert(resolved(slots, links, allocated, i));
    assert(resolved(slots, links, allocated, n));
}

/// A pass that is alone in its chain needs no synchronization.
///
/// Where only one pass of the ring takes part, its link keeps the state and
/// the stages that the pass declared, and nothing stands before or after it.
pub proof fn lemma_single_link<T: State, S, W>(
    slots: Seq<Option<Slot<T>>>,
    links: Seq<Option<ChainLink<T, S, W>>>,
    allocated: spec_fn((S, W)) -> bool,
    i: int,
)
    requires
        all_resolved(slots, links, allocated),
        0 <= i < slots.len(),
        slots[i] is Some,
        forall|k: int| 0 <= k < slots.len() && k != i ==> (#[trigger] slots[k]) is None,
    ensures
        links[i] is Some,
        links[i]->0.merged_state == slots[i]->0.state,
        links[i]->0.merged_stages == slots[i]->0.stages,
        links[i]->0.release == LinkSync::<T, S, Release>::Noop(Release),
        links[i]->0.acquire == LinkSync::<T, W, Acquire>::Noop(Acquire),
{
    let occ = occupancy(slots);
    lemma_next_in_ring(occ, i);
    lemma_prev_in_ring(occ, i);
    assert(resolved(slots, links, allocated, i));
    if let Some(n) = next_in_ring(occ, i) {
        assert(slots[n] is None);
    }
    if let Some(p) = prev_in_ring(occ, i) {
        assert(slots[p] is None);
    }
}

} // verus!
