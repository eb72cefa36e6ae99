//! Building a chain from what the passes of the ring declare.

use vstd::prelude::*;
use vstd::pervasive::unreached;
use crate::chain::{Chain, ChainLink};
use crate::link::{declared, usage_upto, ChainId, PassLinks, Slot};
use crate::plan::{
    acquire_of,
    joinable,
    joined,
    merged_of,
    mergeable_ring,
    needs_semaphore,
    release_of,
    synchronize_pair,
    End,
};
use crate::queue::QueueId;
use crate::ring::{
    first_in,
    lemma_next_in_ring,
    lemma_prev_in_ring,
    lemma_ring_inverse,
    next_in_ring,
    occupancy,
    prev_in_ring,
};
use crate::stage::PipelineStage;
use crate::state::State;
use crate::sync::{Acquire, LinkSync, Release};
use crate::usage::Usage;

verus! {

/// The record of a pass before anything is decided of its synchronization,
/// with the given merged state and stages.
pub open spec fn staged<T, S, W>(slot: Option<Slot<T>>, merged: (T, PipelineStage)) -> Option<
    ChainLink<T, S, W>,
> {
    match slot {
        None => None,
        Some(slot) => Some(
            ChainLink {
                queue: slot.queue,
                stages: slot.stages,
                state: slot.state,
                merged_state: merged.0,
                merged_stages: merged.1,
                acquire: LinkSync::Noop(Acquire),
                release: LinkSync::Noop(Release),
            },
        ),
    }
}

/// The state and stages that a pass declares.
pub open spec fn own<T>(slots: Seq<Option<Slot<T>>>, i: int) -> (T, PipelineStage) {
    (slots[i]->0.state, slots[i]->0.stages)
}

/// The link at `i` is what the chain has to hold for the pass at `i`: it is
/// there exactly if the pass takes part, holds what the pass declared, the
/// merged state and stages, and the decisions of both sides; where a
/// semaphore stands between the pass and the next one, the signal side after
/// this pass and the wait side before the next one came from one allocation.
pub open spec fn resolved<T: State, S, W>(
    slots: Seq<Option<Slot<T>>>,
    links: Seq<Option<ChainLink<T, S, W>>>,
    allocated: spec_fn((S, W)) -> bool,
    i: int,
) -> bool {
    match slots[i] {
        None => links[i] is None,
        Some(slot) => links[i] matches Some(link) && {
            &&& link.queue == slot.queue
            &&& link.stages == slot.stages
            &&& link.state == slot.state
            &&& (link.merged_state, link.merged_stages) == merged_of(slots, i)
            &&& link.release.shape() == release_of(slots, i)
            &&& link.acquire.shape() == acquire_of(slots, i)
            &&& needs_semaphore(slots, i) ==> {
                let n = next_in_ring(occupancy(slots), i)->0;
                &&& links[n] is Some
                &&& link.release.semaphore_of() is Some
                &&& links[n]->0.acquire.semaphore_of() is Some
                &&& allocated(
                    (link.release.semaphore_of()->0, links[n]->0.acquire.semaphore_of()->0),
                )
            }
        },
    }
}

/// `chain` is what building the chain with index `id` from `passes` gives:
/// nothing where no pass declares a link to it, else the accumulated usage,
/// the initialization as given and a resolved link for each pass.
pub open spec fn built<T: State, U: Usage, I, S, W>(
    id: usize,
    usage: U,
    init: I,
    passes: Seq<PassLinks<T, U>>,
    allocated: spec_fn((S, W)) -> bool,
    chain: Option<Chain<T, U, I, S, W>>,
) -> bool {
    let slots = declared(passes, id);
    match chain {
        None => forall|i: int| 0 <= i < slots.len() ==> (#[trigger] slots[i]) is None,
        Some(chain) => {
            &&& exists|i: int| 0 <= i < slots.len() && (#[trigger] slots[i]) is Some
            &&& chain.usage == usage_upto(usage, passes, id, passes.len() as int)
            &&& chain.init == init
            &&& chain.links@.len() == slots.len()
            &&& forall|i: int|
                0 <= i < slots.len() ==> #[trigger] resolved(slots, chain.links@, allocated, i)
        },
    }
}

/// What a call of `allocator` may return.
pub open spec fn allocated_by<S, W, F: FnMut() -> (S, W)>(allocator: F) -> spec_fn((S, W)) -> bool {
    |pair: (S, W)| call_ensures(allocator, (), pair)
}

/// The merged state and stages of the pass at `i` when a traversal of the
/// ring that found it with `before` has come to position `t`.
spec fn merged_upto<T: State>(
    slots: Seq<Option<Slot<T>>>,
    i: int,
    t: int,
    before: (T, PipelineStage),
) -> (T, PipelineStage) {
    let this = slots[i]->0;
    let occ = occupancy(slots);
    match (next_in_ring(occ, i), prev_in_ring(occ, i)) {
        (Some(n), Some(p)) => {
            let forth = joinable(this, slots[n]->0) && i < t;
            let back = joinable(slots[p]->0, this) && p < t;
            if back && (!forth || p > i) {
                joined(slots[p]->0, this)
            } else if forth {
                joined(this, slots[n]->0)
            } else {
                before
            }
        },
        _ => before,
    }
}

/// What a traversal of the ring finds at `i` when it begins: in the first
/// round what the pass declared, in the second what the first round left.
spec fn round_base<T: State>(slots: Seq<Option<Slot<T>>>, i: int, round: int) -> (
    T,
    PipelineStage,
) {
    if round == 0 {
        own(slots, i)
    } else {
        merged_of(slots, i)
    }
}

/// A whole traversal leaves the merged state and stages of the plan, whether
/// it began with what the passes declared or with what a traversal left.
proof fn lemma_round<T: State>(slots: Seq<Option<Slot<T>>>, i: int, round: int)
    requires
        0 <= i < slots.len(),
        slots[i] is Some,
    ensures
        merged_upto(slots, i, 0, round_base(slots, i, round)) == round_base(slots, i, round),
        merged_upto(slots, i, slots.len() as int, round_base(slots, i, round)) == merged_of(
            slots,
            i,
        ),
{
    lemma_prev_in_ring(occupancy(slots), i);
    lemma_next_in_ring(occupancy(slots), i);
}

/// The link at `i` while the decisions are being taken: those of the passes
/// before position `t` are taken, the others are not.
spec fn synced_upto<T: State, S, W>(
    slots: Seq<Option<Slot<T>>>,
    links: Seq<Option<ChainLink<T, S, W>>>,
    allocated: spec_fn((S, W)) -> bool,
    i: int,
    t: int,
) -> bool {
    match slots[i] {
        None => links[i] is None,
        Some(slot) => links[i] matches Some(link) && {
            &&& link.queue == slot.queue
            &&& link.stages == slot.stages
            &&& link.state == slot.state
            &&& (link.merged_state, link.merged_stages) == merged_of(slots, i)
            &&& link.release.shape() == if i < t {
                release_of(slots, i)
            } else {
                LinkSync::Noop(Release)
            }
            &&& link.acquire.shape() == if prev_in_ring(occupancy(slots), i) matches Some(p) && p
                < t {
                acquire_of(slots, i)
            } else {
                LinkSync::Noop(Acquire)
            }
            &&& i < t && needs_semaphore(slots, i) ==> {
                let n = next_in_ring(occupancy(slots), i)->0;
                &&& links[n] is Some
                &&& link.release.semaphore_of() is Some
                &&& links[n]->0.acquire.semaphore_of() is Some
                &&& allocated(
                    (link.release.semaphore_of()->0, links[n]->0.acquire.semaphore_of()->0),
                )
            }
        },
    }
}

/// The position of the nearest link after `index` in ring order.
fn next_index<T, S, W>(links: &Vec<Option<ChainLink<T, S, W>>>, index: usize) -> (r: Option<usize>)
    requires
        index < links.len(),
    ensures
        match r {
            Some(n) => next_in_ring(occupancy(links@), index as int) == Some(n as int),
            None => next_in_ring(occupancy(links@), index as int) is None,
        },
{
    let ghost occ = occupancy(links@);
    let mut k: usize = index + 1;
    while k < links.len()
        invariant
            index < k <= links.len(),
            occ == occupancy(links@),
            first_in(occ, index + 1, links.len() as int) == first_in(occ, k as int, links.len() as int),
        decreases links.len() - k,
    {
        if links[k].is_some() {
            return Some(k);
        }
        k += 1;
    }
    let mut k: usize = 0;
    while k < index
        invariant
            k <= index < links.len(),
            occ == occupancy(links@),
            first_in(occ, index + 1, links.len() as int) is None,
            first_in(occ, 0, index as int) == first_in(occ, k as int, index as int),
        decreases index - k,
    {
        if links[k].is_some() {
            return Some(k);
        }
        k += 1;
    }
    None
}

/// What the pass at `index` declared.
fn declared_at<T: State, S, W>(links: &Vec<Option<ChainLink<T, S, W>>>, index: usize) -> (r: (
    QueueId,
    T,
    PipelineStage,
))
    requires
        index < links.len(),
        links[index as int] is Some,
    ensures
        r.0 == links[index as int]->0.queue,
        r.1 == links[index as int]->0.state,
        r.2 == links[index as int]->0.stages,
{
    match &links[index] {
        Some(link) => (link.queue, link.state, link.stages),
        None => unreached(),
    }
}

/// The pass at `index` as one end of a transition.
fn end_at<T: State, S, W>(links: &Vec<Option<ChainLink<T, S, W>>>, index: usize) -> (r: End<T>)
    requires
        index < links.len(),
        links[index as int] is Some,
    ensures
        r == (End {
            queue: links[index as int]->0.queue,
            state: links[index as int]->0.state,
            merged_state: links[index as int]->0.merged_state,
            merged_stages: links[index as int]->0.merged_stages,
        }),
{
    match &links[index] {
        Some(link) => End {
            queue: link.queue,
            state: link.state,
            merged_state: link.merged_state,
            merged_stages: link.merged_stages,
        },
        None => unreached(),
    }
}

impl<T: State, U: Usage, I, S, W> Chain<T, U, I, S, W> {
    /// The links of the passes to the chain `id`, one slot for each pass, and
    /// `usage` joined with what they use the resource for.
    fn collect(id: ChainId<T>, usage: U, passes: &[PassLinks<T, U>]) -> (r: (
        Vec<Option<ChainLink<T, S, W>>>,
        U,
    ))
        ensures
            r.0@.len() == passes@.len(),
            forall|i: int|
                0 <= i < passes@.len() ==> #[trigger] r.0@[i] == staged::<T, S, W>(
                    declared(passes@, id@)[i],
                    own(declared(passes@, id@), i),
                ),
            r.1 == usage_upto(usage, passes@, id@, passes@.len() as int),
    {
        let ghost slots = declared(passes@, id@);
        let mut links: Vec<Option<ChainLink<T, S, W>>> = Vec::new();
        let mut joined_usage = usage;
        let mut index: usize = 0;
        while index < passes.len()
            invariant
                index <= passes@.len(),
                slots == declared(passes@, id@),
                links@.len() == index,
                forall|i: int|
                    0 <= i < index ==> #[trigger] links@[i] == staged::<T, S, W>(
                        slots[i],
                        own(slots, i),
                    ),
                joined_usage == usage_upto(usage, passes@, id@, index as int),
            decreases passes.len() - index,
        {
            let pass = &passes[index];
            match pass.link(id) {
                Some(link) => {
                    joined_usage = joined_usage.union(link.usage);
                    links.push(
                        Some(
                            ChainLink {
                                queue: pass.queue,
                                stages: link.stages,
                                state: link.state,
                                merged_state: link.state,
                                merged_stages: link.stages,
                                acquire: LinkSync::Noop(Acquire),
                                release: LinkSync::Noop(Release),
                            },
                        ),
                    );
                },
                None => {
                    links.push(None);
                },
            }
            index += 1;
        }
        (links, joined_usage)
    }
}

/// Goes round the ring twice and gives each pass and the next one their
/// merged state and stages, where nothing is needed between them.
fn merge_neighbours<T: State, S, W>(
    links: &mut Vec<Option<ChainLink<T, S, W>>>,
    Ghost(slots): Ghost<Seq<Option<Slot<T>>>>,
)
    requires
        old(links)@.len() == slots.len(),
        forall|i: int|
            0 <= i < slots.len() ==> #[trigger] old(links)@[i] == staged::<T, S, W>(
                slots[i],
                own(slots, i),
            ),
        mergeable_ring(slots),
    ensures
        final(links)@.len() == slots.len(),
        forall|i: int|
            0 <= i < slots.len() ==> #[trigger] final(links)@[i] == staged::<T, S, W>(
                slots[i],
                merged_of(slots, i),
            ),
{
    let count = links.len();
    let ghost occ = occupancy(slots);
    let mut round: usize = 0;
    while round < 2
        invariant
            round <= 2,
            count == slots.len(),
            occ == occupancy(slots),
            links@.len() == count,
            mergeable_ring(slots),
            forall|i: int|
                0 <= i < count ==> #[trigger] links@[i] == staged::<T, S, W>(
                    slots[i],
                    round_base(slots, i, round as int),
                ),
        decreases 2 - round,
    {
        let mut index: usize = 0;
        proof {
            assert forall|i: int| 0 <= i < count implies #[trigger] links@[i] == staged::<T, S, W>(
                slots[i],
                merged_upto(slots, i, 0, round_base(slots, i, round as int)),
            ) by {
                if slots[i] is Some {
                    lemma_round(slots, i, round as int);
                }
            }
        }
        while index < count
            invariant
                index <= count,
                round < 2,
                count == slots.len(),
                occ == occupancy(slots),
                links@.len() == count,
                mergeable_ring(slots),
                forall|i: int|
                    0 <= i < count ==> #[trigger] links@[i] == staged::<T, S, W>(
                        slots[i],
                        merged_upto(slots, i, index as int, round_base(slots, i, round as int)),
                    ),
            decreases count - index,
        {
            assert(occupancy(links@) =~= occ);
            if links[index].is_some() {
                let (queue, state, stages) = declared_at(links, index);
                match next_index(links, index) {
                    Some(next) => {
                        proof {
                            lemma_next_in_ring(occ, index as int);
                            assert(slots[index as int] is Some);
                        }
                        let (next_queue, next_state, next_stages) = declared_at(links, next);
                        let merged = state.merge(next_state);
                        match merged {
                            Some(merged_state) => {
                                if queue.same(next_queue) {
                                    let merged_stages = stages.union(next_stages);
                                    match &mut links[index] {
                                        Some(link) => {
                                            link.merged_state = merged_state;
                                            link.merged_stages = merged_stages;
                                        },
                                        None => {},
                                    }
                                    match &mut links[next] {
                                        Some(link) => {
                                            link.merged_state = merged_state;
                                            link.merged_stages = merged_stages;
                                        },
                                        None => {},
                                    }
                                }
                            },
                            None => {},
                        }
                    },
                    None => {
                        proof {
                            lemma_next_in_ring(occ, index as int);
                            assert forall|i: int| 0 <= i < count implies #[trigger] links@[i]
                                == staged::<T, S, W>(slots[i], merged_of(slots, i)) by {
                                if slots[i] is Some {
                                    assert(occ[i]);
                                    assert(i == index);
                                    lemma_ring_inverse(occ, i);
                                }
                            }
                        }
                        return ;
                    },
                }
            }
            proof {
                assert forall|i: int| 0 <= i < count implies #[trigger] links@[i] == staged::<
                    T,
                    S,
                    W,
                >(
                    slots[i],
                    merged_upto(slots, i, index + 1, round_base(slots, i, round as int)),
                ) by {
                    if slots[i] is Some {
                        assert(occ[i]);
                        lemma_ring_inverse(occ, i);
                        lemma_next_in_ring(occ, i);
                        lemma_prev_in_ring(occ, i);
                        if slots[index as int] is Some {
                            assert(occ[index as int]);
                            lemma_ring_inverse(occ, index as int);
                        }
                    }
                }
            }
            index += 1;
        }
        proof {
            assert forall|i: int| 0 <= i < count implies #[trigger] links@[i] == staged::<T, S, W>(
                slots[i],
                round_base(slots, i, round + 1),
            ) by {
                if slots[i] is Some {
                    lemma_round(slots, i, round as int);
                }
            }
        }
        round += 1;
    }
}

/// Sets what stands after the pass at `index`.
fn set_release<T: State, S, W>(
    links: &mut Vec<Option<ChainLink<T, S, W>>>,
    index: usize,
    release: LinkSync<T, S, Release>,
)
    requires
        index < old(links).len(),
        old(links)[index as int] is Some,
    ensures
        final(links)@ == old(links)@.update(
            index as int,
            Some(ChainLink { release, ..old(links)[index as int]->0 }),
        ),
{
    match &mut links[index] {
        Some(link) => {
            link.release = release;
        },
        None => {},
    }
    assert(links@ =~= old(links)@.update(
        index as int,
        Some(ChainLink { release, ..old(links)[index as int]->0 }),
    ));
}

/// Sets what stands before the pass at `index`.
fn set_acquire<T: State, S, W>(
    links: &mut Vec<Option<ChainLink<T, S, W>>>,
    index: usize,
    acquire: LinkSync<T, W, Acquire>,
)
    requires
        index < old(links).len(),
        old(links)[index as int] is Some,
    ensures
        final(links)@ == old(links)@.update(
            index as int,
            Some(ChainLink { acquire, ..old(links)[index as int]->0 }),
        ),
{
    match &mut links[index] {
        Some(link) => {
            link.acquire = acquire;
        },
        None => {},
    }
    assert(links@ =~= old(links)@.update(
        index as int,
        Some(ChainLink { acquire, ..old(links)[index as int]->0 }),
    ));
}

/// Before any decision is taken, the links are as far as a traversal that
/// has not begun.
proof fn lemma_sync_begin<T: State, S, W>(
    slots: Seq<Option<Slot<T>>>,
    links: Seq<Option<ChainLink<T, S, W>>>,
    allocated: spec_fn((S, W)) -> bool,
)
    requires
        links.len() == slots.len(),
        forall|i: int|
            0 <= i < slots.len() ==> #[trigger] links[i] == staged::<T, S, W>(
                slots[i],
                merged_of(slots, i),
            ),
    ensures
        forall|i: int| 0 <= i < slots.len() ==> #[trigger] synced_upto(slots, links, allocated, i, 0),
{
    assert forall|i: int| 0 <= i < slots.len() implies #[trigger] synced_upto(
        slots,
        links,
        allocated,
        i,
        0,
    ) by {
        if slots[i] is Some {
            lemma_prev_in_ring(occupancy(slots), i);
        }
    }
}

/// A position at which no pass takes part leaves the decisions as they are.
proof fn lemma_sync_skip<T: State, S, W>(
    slots: Seq<Option<Slot<T>>>,
    links: Seq<Option<ChainLink<T, S, W>>>,
    allocated: spec_fn((S, W)) -> bool,
    t: int,
)
    requires
        links.len() == slots.len(),
        0 <= t < slots.len(),
        slots[t] is None,
        forall|i: int| 0 <= i < slots.len() ==> #[trigger] synced_upto(slots, links, allocated, i, t),
    ensures
        forall|i: int|
            0 <= i < slots.len() ==> #[trigger] synced_upto(slots, links, allocated, i, t + 1),
{
    assert forall|i: int| 0 <= i < slots.len() implies #[trigger] synced_upto(
        slots,
        links,
        allocated,
        i,
        t + 1,
    ) by {
        assert(synced_upto(slots, links, allocated, i, t));
        if slots[i] is Some {
            lemma_prev_in_ring(occupancy(slots), i);
        }
    }
}

/// Where only one pass takes part, nothing is left to decide.
proof fn lemma_sync_alone<T: State, S, W>(
    slots: Seq<Option<Slot<T>>>,
    links: Seq<Option<ChainLink<T, S, W>>>,
    allocated: spec_fn((S, W)) -> bool,
    t: int,
)
    requires
        links.len() == slots.len(),
        0 <= t < slots.len(),
        slots[t] is Some,
        next_in_ring(occupancy(slots), t) is None,
        forall|i: int| 0 <= i < slots.len() ==> #[trigger] synced_upto(slots, links, allocated, i, t),
    ensures
        forall|i: int| 0 <= i < slots.len() ==> #[trigger] resolved(slots, links, allocated, i),
{
    let occ = occupancy(slots);
    lemma_next_in_ring(occ, t);
    assert forall|i: int| 0 <= i < slots.len() implies #[trigger] resolved(
        slots,
        links,
        allocated,
        i,
    ) by {
        assert(synced_upto(slots, links, allocated, i, t));
        if slots[i] is Some {
            assert(occ[i]);
            assert(i == t);
            lemma_ring_inverse(occ, i);
        }
    }
}

/// When the traversal has come to the end, every link is resolved.
proof fn lemma_sync_end<T: State, S, W>(
    slots: Seq<Option<Slot<T>>>,
    links: Seq<Option<ChainLink<T, S, W>>>,
    allocated: spec_fn((S, W)) -> bool,
)
    requires
        links.len() == slots.len(),
        forall|i: int|
            0 <= i < slots.len() ==> #[trigger] synced_upto(
                slots,
                links,
                allocated,
                i,
                slots.len() as int,
            ),
    ensures
        forall|i: int| 0 <= i < slots.len() ==> #[trigger] resolved(slots, links, allocated, i),
{
    assert forall|i: int| 0 <= i < slots.len() implies #[trigger] resolved(
        slots,
        links,
        allocated,
        i,
    ) by {
        assert(synced_upto(slots, links, allocated, i, slots.len() as int));
        if slots[i] is Some {
            lemma_prev_in_ring(occupancy(slots), i);
        }
    }
}

/// Taking the decisions between the pass at `t` and the next one, at `n`,
/// brings the traversal one position on.
proof fn lemma_sync_step<T: State, S, W>(
    slots: Seq<Option<Slot<T>>>,
    before: Seq<Option<ChainLink<T, S, W>>>,
    after: Seq<Option<ChainLink<T, S, W>>>,
    allocated: spec_fn((S, W)) -> bool,
    t: int,
    n: int,
    release: LinkSync<T, S, Release>,
    acquire: LinkSync<T, W, Acquire>,
)
    requires
        before.len() == slots.len(),
        0 <= t < slots.len(),
        slots[t] is Some,
        next_in_ring(occupancy(slots), t) == Some(n),
        forall|i: int| 0 <= i < slots.len() ==> #[trigger] synced_upto(slots, before, allocated, i, t),
        after == before.update(t, Some(ChainLink { release, ..before[t]->0 })).update(
            n,
            Some(ChainLink { acquire, ..before[n]->0 }),
        ),
        release.shape() == release_of(slots, t),
        acquire.shape() == acquire_of(slots, n),
        needs_semaphore(slots, t) ==> release.semaphore_of() is Some && acquire.semaphore_of()
            is Some && allocated((release.semaphore_of()->0, acquire.semaphore_of()->0)),
    ensures
        forall|i: int|
            0 <= i < slots.len() ==> #[trigger] synced_upto(slots, after, allocated, i, t + 1),
{
    let occ = occupancy(slots);
    lemma_next_in_ring(occ, t);
    lemma_ring_inverse(occ, t);
    assert(synced_upto(slots, before, allocated, t, t));
    assert(synced_upto(slots, before, allocated, n, t));
    assert forall|i: int| 0 <= i < slots.len() implies #[trigger] synced_upto(
        slots,
        after,
        allocated,
        i,
        t + 1,
    ) by {
        assert(synced_upto(slots, before, allocated, i, t));
        if slots[i] is Some {
            assert(occ[i]);
            lemma_ring_inverse(occ, i);
            lemma_next_in_ring(occ, i);
            lemma_prev_in_ring(occ, i);
            if needs_semaphore(slots, i) {
                let m = next_in_ring(occ, i)->0;
                assert(synced_upto(slots, before, allocated, m, t));
                lemma_ring_inverse(occ, m);
            }
        }
    }
}

/// Goes round the ring once and decides what stands between each pass and
/// the next one.
fn synchronize<T: State, S, W, F: FnMut() -> (S, W)>(
    links: &mut Vec<Option<ChainLink<T, S, W>>>,
    Ghost(slots): Ghost<Seq<Option<Slot<T>>>>,
    new_semaphore: &mut F,
)
    requires
        call_requires(*old(new_semaphore), ()),
        old(links)@.len() == slots.len(),
        forall|i: int|
            0 <= i < slots.len() ==> #[trigger] old(links)@[i] == staged::<T, S, W>(
                slots[i],
                merged_of(slots, i),
            ),
        mergeable_ring(slots),
    ensures
        *final(new_semaphore) == *old(new_semaphore),
        final(links)@.len() == slots.len(),
        forall|i: int|
            0 <= i < slots.len() ==> #[trigger] resolved(
                slots,
                final(links)@,
                allocated_by(*old(new_semaphore)),
                i,
            ),
{
    broadcast use vstd::function::group_function_axioms;

    let count = links.len();
    let ghost occ = occupancy(slots);
    let ghost allocated = allocated_by::<S, W, F>(*old(new_semaphore));
    let mut index: usize = 0;
    proof {
        lemma_sync_begin(slots, links@, allocated);
    }
    while index < count
        invariant
            index <= count,
            count == slots.len(),
            occ == occupancy(slots),
            links@.len() == count,
            mergeable_ring(slots),
            *new_semaphore == *old(new_semaphore),
            call_requires(*old(new_semaphore), ()),
            allocated == allocated_by::<S, W, F>(*old(new_semaphore)),
            forall|i: int|
                0 <= i < count ==> #[trigger] synced_upto(slots, links@, allocated, i, index as int),
        decreases count - index,
    {
        assert(occupancy(links@) =~= occ) by {
            assert forall|i: int| 0 <= i < count implies (links@[i] is Some) == occ[i] by {
                assert(synced_upto(slots, links@, allocated, i, index as int));
            }
        }
        let ghost before = links@;
        assert(synced_upto(slots, before, allocated, index as int, index as int));
        if links[index].is_some() {
            match next_index(links, index) {
                Some(next) => {
                    proof {
                        lemma_next_in_ring(occ, index as int);
                        lemma_ring_inverse(occ, index as int);
                        assert(slots[index as int] is Some);
                        assert(synced_upto(slots, before, allocated, next as int, index as int));
                    }
                    let this_end = end_at(links, index);
                    let next_end = end_at(links, next);
                    let semaphores = if this_end.queue.same(next_end.queue) {
                        None
                    } else {
                        Some(new_semaphore())
                    };
                    let (release, acquire) = synchronize_pair(this_end, next_end, semaphores);
                    proof {
                        lemma_sync_step(
                            slots,
                            before,
                            before.update(
                                index as int,
                                Some(ChainLink { release, ..before[index as int]->0 }),
                            ).update(
                                next as int,
                                Some(ChainLink { acquire, ..before[next as int]->0 }),
                            ),
                            allocated,
                            index as int,
                            next as int,
                            release,
                            acquire,
                        );
                    }
                    set_release(links, index, release);
                    set_acquire(links, next, acquire);
                },
                None => {
                    proof {
                        lemma_sync_alone(slots, links@, allocated, index as int);
                    }
                    return ;
                },
            }
        } else {
            proof {
                lemma_sync_skip(slots, before, allocated, index as int);
            }
        }
        index += 1;
    }
    proof {
        lemma_sync_end(slots, links@, allocated);
    }
}

/// Whether any pass takes part.
fn any_link<T, S, W>(links: &Vec<Option<ChainLink<T, S, W>>>) -> (r: bool)
    ensures
        r <==> exists|i: int| 0 <= i < links@.len() && (#[trigger] links@[i]) is Some,
{
    let mut index: usize = 0;
    while index < links.len()
        invariant
            index <= links.len(),
            forall|i: int| 0 <= i < index ==> (#[trigger] links@[i]) is None,
        decreases links.len() - index,
    {
        if links[index].is_some() {
            return true;
        }
        index += 1;
    }
    false
}

impl<T: State, U: Usage, I, S, W> Chain<T, U, I, S, W> {
    /// Builds the chain `id` from what the passes of the ring declare.
    ///
    /// Gives nothing where no pass declares a link to the chain. `usage` is
    /// joined with what the passes use the resource for. `new_semaphore` is
    /// called once for each pair of neighbours that execute on different
    /// queues, and gives the signal and the wait side of a fresh semaphore.
    pub fn build<F: FnMut() -> (S, W)>(
        id: ChainId<T>,
        usage: U,
        init: I,
        passes: &[PassLinks<T, U>],
        new_semaphore: F,
    ) -> (r: Option<Self>)
        requires
            call_requires(new_semaphore, ()),
            mergeable_ring(declared(passes@, id@)),
        ensures
            built(id@, usage, init, passes@, allocated_by(new_semaphore), r),
            r matches Some(chain) ==> chain.wf(),
    {
        let mut allocate = new_semaphore;
        Self::build_with(id, usage, init, passes, &mut allocate)
    }

    /// Builds the chain `id` as `build` does, with an allocator that can go
    /// on to serve other chains.
    pub fn build_with<F: FnMut() -> (S, W)>(
        id: ChainId<T>,
        usage: U,
        init: I,
        passes: &[PassLinks<T, U>],
        new_semaphore: &mut F,
    ) -> (r: Option<Self>)
        requires
            call_requires(*old(new_semaphore), ()),
            mergeable_ring(declared(passes@, id@)),
        ensures
            *final(new_semaphore) == *old(new_semaphore),
            built(id@, usage, init, passes@, allocated_by(*old(new_semaphore)), r),
            r matches Some(chain) ==> chain.wf(),
    {
        let ghost slots = declared(passes@, id@);
        let (mut links, joined_usage) = Self::collect(id, usage, passes);
        merge_neighbours(&mut links, Ghost(slots));
        synchronize(&mut links, Ghost(slots), new_semaphore);
        proof {
            assert forall|i: int| 0 <= i < slots.len() implies (links@[i] is Some) == (
            #[trigger] slots[i] is Some) by {
                assert(resolved(slots, links@, allocated_by(*old(new_semaphore)), i));
            }
        }
        if any_link(&links) {
            proof {
                let k = choose|k: int| 0 <= k < links@.len() && (#[trigger] links@[k]) is Some;
                assert(slots[k] is Some);
            }
            Some(Chain { usage: joined_usage, init, links })
        } else {
            proof {
                assert forall|i: int| 0 <= i < slots.len() implies (#[trigger] slots[i]) is None by {
                    assert(links@[i] is None);
                }
            }
            None
        }
    }
}

impl<T: State, U: Usage, I, S, W> Chain<T, U, I, S, W> {
    /// Whether the chain `id` can be built from `passes`: every pass that
    /// takes part may ask for the merge of its state with that of the next
    /// one.
    pub fn can_build(id: ChainId<T>, passes: &[PassLinks<T, U>]) -> (r: bool)
        ensures
            r == mergeable_ring(declared(passes@, id@)),
    {
        let ghost slots = declared(passes@, id@);
        let (links, _) = Self::collect(id, U::none(), passes);
        assert(occupancy(links@) =~= occupancy(slots));
        let mut index: usize = 0;
        while index < links.len()
            invariant
                index <= links@.len(),
                links@.len() == slots.len(),
                slots == declared(passes@, id@),
                occupancy(links@) == occupancy(slots),
                forall|i: int|
                    0 <= i < slots.len() ==> #[trigger] links@[i] == staged::<T, S, W>(
                        slots[i],
                        own(slots, i),
                    ),
                forall|i: int|
                    0 <= i < index && (#[trigger] slots[i]) is Some ==> (next_in_ring(
                        occupancy(slots),
                        i,
                    ) matches Some(n) ==> slots[i]->0.state.merge_defined(slots[n]->0.state)),
            decreases links.len() - index,
        {
            if links[index].is_some() {
                match next_index(&links, index) {
                    Some(next) => {
                        proof {
                            lemma_next_in_ring(occupancy(slots), index as int);
                        }
                        let this = declared_at(&links, index);
                        let other = declared_at(&links, next);
                        if !this.1.can_merge(other.1) {
                            assert(slots[index as int] is Some);
                            return false;
                        }
                    },
                    None => {},
                }
            }
            index += 1;
        }
        true
    }
}

} // verus!
