//! What a chain has to hold for a given ring of declarations: which links
//! merge, and which synchronization stands between two accesses.

use vstd::prelude::*;
use std::ops::Range;
use crate::access::{is_read_only, read_only, Access};
use crate::link::Slot;
use crate::queue::QueueId;
use crate::ring::{next_in_ring, occupancy, prev_in_ring};
use crate::stage::PipelineStage;
use crate::state::State;
use crate::sync::{Acquire, LinkSync, Release};

verus! {

/// The accesses of two passes need nothing between them: both execute on one
/// queue and their states merge.
pub open spec fn joinable<T: State>(a: Slot<T>, b: Slot<T>) -> bool {
    a.queue == b.queue && a.state.merged(b.state) is Some
}

/// The merged state and the stages of two accesses that need nothing between
/// them.
pub open spec fn joined<T: State>(a: Slot<T>, b: Slot<T>) -> (T, PipelineStage) {
    (a.state.merged(b.state)->0, a.stages.join(b.stages))
}

/// Every pass that takes part may ask for the merge of its state with that of
/// the next one.
pub open spec fn mergeable_ring<T: State>(slots: Seq<Option<Slot<T>>>) -> bool {
    forall|i: int|
        0 <= i < slots.len() && (#[trigger] slots[i]) is Some ==> (next_in_ring(
            occupancy(slots),
            i,
        ) matches Some(n) ==> slots[i]->0.state.merge_defined(slots[n]->0.state))
}

/// The merged state and stages of the pass at `i`.
///
/// A pass that needs nothing between itself and a neighbour takes the state
/// and the stages of both. Where that holds of both neighbours, it takes
/// them from the pair that comes later in the ring: from itself and the next
/// pass, but for the first pass of the ring, which takes them from the last
/// pass and itself.
pub open spec fn merged_of<T: State>(slots: Seq<Option<Slot<T>>>, i: int) -> (T, PipelineStage) {
    let this = slots[i]->0;
    let occ = occupancy(slots);
    match (next_in_ring(occ, i), prev_in_ring(occ, i)) {
        (Some(n), Some(p)) => {
            let forth = joinable(this, slots[n]->0);
            let back = joinable(slots[p]->0, this);
            if back && (!forth || p > i) {
                joined(slots[p]->0, this)
            } else if forth {
                joined(this, slots[n]->0)
            } else {
                (this.state, this.stages)
            }
        },
        _ => (this.state, this.stages),
    }
}

/// One end of the way of a resource from a pass to the next one: the queue
/// and the state that the pass declared, and its merged state and stages.
#[derive(Clone, Copy)]
pub struct End<T> {
    pub queue: QueueId,
    pub state: T,
    pub merged_state: T,
    pub merged_stages: PipelineStage,
}

/// The pass at `i` as one end of a transition.
pub open spec fn end_of<T: State>(slots: Seq<Option<Slot<T>>>, i: int) -> End<T> {
    End {
        queue: slots[i]->0.queue,
        state: slots[i]->0.state,
        merged_state: merged_of(slots, i).0,
        merged_stages: merged_of(slots, i).1,
    }
}

/// The states and the stages between which the resource passes from one pass
/// to the next. Where the next pass does more than read, the content need not
/// be kept.
pub open spec fn transition<T: State>(this: End<T>, next: End<T>) -> (
    Range<T>,
    Range<PipelineStage>,
) {
    let start = if read_only(next.state.access_of()) {
        this.merged_state
    } else {
        this.merged_state.discarded()
    };
    (
        Range { start, end: next.merged_state },
        Range { start: this.merged_stages, end: next.merged_stages },
    )
}

/// The range of states without the access flags, which mean nothing to
/// another queue.
pub open spec fn stripped<T: State>(states: Range<T>) -> Range<T> {
    Range {
        start: states.start.with_access(T::Access::empty()),
        end: states.end.with_access(T::Access::empty()),
    }
}

/// What stands after a pass whose resource goes on to `next`, but for the
/// semaphore.
///
/// Nothing, where the two merge; a barrier, where both execute on one queue;
/// a semaphore, with a barrier where the states without access flags differ,
/// where they execute on two queues of one family; an ownership transfer to
/// the queue of the next pass, where the families differ.
pub open spec fn release_between<T: State>(this: End<T>, next: End<T>) -> LinkSync<T, (), Release> {
    let (states, stages) = transition(this, next);
    if this.queue == next.queue {
        if this.state.merged(next.state) is Some {
            LinkSync::Noop(Release)
        } else {
            LinkSync::Barrier { states, stages }
        }
    } else if this.queue.family == next.queue.family {
        if stripped(states).start == stripped(states).end {
            LinkSync::Semaphore { semaphore: () }
        } else {
            LinkSync::BarrierSemaphore { semaphore: (), states: stripped(states), stages }
        }
    } else {
        LinkSync::Transfer { semaphore: (), states: stripped(states), stages, other: next.queue }
    }
}

/// What stands before a pass whose resource comes from `prev`, but for the
/// semaphore.
///
/// Nothing, where both execute on one queue; a semaphore, where they execute
/// on two queues of one family; an ownership transfer from the queue of the
/// previous pass, where the families differ.
pub open spec fn acquire_between<T: State>(prev: End<T>, this: End<T>) -> LinkSync<T, (), Acquire> {
    let (states, stages) = transition(prev, this);
    if prev.queue == this.queue {
        LinkSync::Noop(Acquire)
    } else if prev.queue.family == this.queue.family {
        LinkSync::Semaphore { semaphore: () }
    } else {
        LinkSync::Transfer { semaphore: (), states: stripped(states), stages, other: prev.queue }
    }
}

/// The pass at `i` and the next one execute on different queues, so that a
/// semaphore has to stand between them.
pub open spec fn needs_semaphore<T: State>(slots: Seq<Option<Slot<T>>>, i: int) -> bool {
    next_in_ring(occupancy(slots), i) matches Some(n) && slots[i]->0.queue != slots[n]->0.queue
}

/// What stands after the pass at `i`, but for the semaphore: nothing where no
/// other pass takes part, else what the next pass in the ring asks for.
pub open spec fn release_of<T: State>(slots: Seq<Option<Slot<T>>>, i: int) -> LinkSync<
    T,
    (),
    Release,
> {
    match next_in_ring(occupancy(slots), i) {
        None => LinkSync::Noop(Release),
        Some(n) => release_between(end_of(slots, i), end_of(slots, n)),
    }
}

/// What stands before the pass at `j`, but for the semaphore: nothing where
/// no other pass takes part, else what the previous pass in the ring asks
/// for.
pub open spec fn acquire_of<T: State>(slots: Seq<Option<Slot<T>>>, j: int) -> LinkSync<
    T,
    (),
    Acquire,
> {
    match prev_in_ring(occupancy(slots), j) {
        None => LinkSync::Noop(Acquire),
        Some(p) => acquire_between(end_of(slots, p), end_of(slots, j)),
    }
}

/// Decides what stands between a pass and the next one. `semaphores` is a
/// freshly allocated pair of the signal and the wait side of one semaphore,
/// which is needed exactly where the two execute on different queues.
pub fn synchronize_pair<T: State, S, W>(
    this: End<T>,
    next: End<T>,
    semaphores: Option<(S, W)>,
) -> (r: (LinkSync<T, S, Release>, LinkSync<T, W, Acquire>))
    requires
        semaphores is Some <==> this.queue != next.queue,
        this.state.merge_defined(next.state),
    ensures
        r.0.shape() == release_between(this, next),
        r.1.shape() == acquire_between(this, next),
        r.0.semaphore_of() == match semaphores {
            Some(pair) => Some(pair.0),
            None => None,
        },
        r.1.semaphore_of() == match semaphores {
            Some(pair) => Some(pair.1),
            None => None,
        },
{
    let start = if is_read_only(next.state.access()) {
        this.merged_state
    } else {
        this.merged_state.discard_content()
    };
    let end = next.merged_state;
    match semaphores {
        None => {
            if this.state.merge(next.state).is_some() {
                (LinkSync::Noop(Release), LinkSync::Noop(Acquire))
            } else {
                (
                    LinkSync::Barrier {
                        states: start..end,
                        stages: this.merged_stages..next.merged_stages,
                    },
                    LinkSync::Noop(Acquire),
                )
            }
        },
        Some((signal, wait)) => {
            let start = start.with_no_access();
            let end = end.with_no_access();
            if this.queue.same_family(next.queue) {
                if start.same(end) {
                    (
                        LinkSync::Semaphore { semaphore: signal },
                        LinkSync::Semaphore { semaphore: wait },
                    )
                } else {
                    (
                        LinkSync::BarrierSemaphore {
                            semaphore: signal,
                            states: start..end,
                            stages: this.merged_stages..next.merged_stages,
                        },
                        LinkSync::Semaphore { semaphore: wait },
                    )
                }
            } else {
                (
                    LinkSync::Transfer {
                        semaphore: signal,
                        states: start..end,
                        stages: this.merged_stages..next.merged_stages,
                        other: next.queue,
                    },
                    LinkSync::Transfer {
                        semaphore: wait,
                        states: start..end,
                        stages: this.merged_stages..next.merged_stages,
                        other: this.queue,
                    },
                )
            }
        },
    }
}

} // verus!
