//! Synchronization decisions.

use vstd::prelude::*;
use std::ops::Range;
use crate::queue::{QueueFamilyId, QueueId};
use crate::stage::PipelineStage;

verus! {

/// Marks a decision that stands before the commands of a pass.
#[derive(Clone, Copy, Debug, PartialEq, Eq, Hash)]
pub struct Acquire;

/// Marks a decision that stands after the commands of a pass.
#[derive(Clone, Copy, Debug, PartialEq, Eq, Hash)]
pub struct Release;

/// The side of a pass on which a decision stands.
pub trait Semantics {
    /// The family that gives the resource away and the family that takes it,
    /// seen from a queue of family `this` whose peer is of family `other`.
    spec fn families(this: QueueFamilyId, other: QueueFamilyId) -> (QueueFamilyId, QueueFamilyId);

    /// The family that gives the resource away and the family that takes it.
    fn src_dst(this: QueueFamilyId, other: QueueFamilyId) -> (r: (QueueFamilyId, QueueFamilyId))
        ensures
            r == Self::families(this, other),
    ;
}

impl Semantics for Acquire {
    open spec fn families(this: QueueFamilyId, other: QueueFamilyId) -> (
        QueueFamilyId,
        QueueFamilyId,
    ) {
        (other, this)
    }

    fn src_dst(this: QueueFamilyId, other: QueueFamilyId) -> (r: (QueueFamilyId, QueueFamilyId)) {
        (other, this)
    }
}

impl Semantics for Release {
    open spec fn families(this: QueueFamilyId, other: QueueFamilyId) -> (
        QueueFamilyId,
        QueueFamilyId,
    ) {
        (this, other)
    }

    fn src_dst(this: QueueFamilyId, other: QueueFamilyId) -> (r: (QueueFamilyId, QueueFamilyId)) {
        (this, other)
    }
}

/// What has to happen on one side of a pass before the resource may be
/// touched by the pass, or by the next one after it.
#[derive(Debug, PartialEq, Eq)]
pub enum LinkSync<T, S, M> {
    /// Nothing.
    Noop(M),
    /// A pipeline barrier.
    Barrier { states: Range<T>, stages: Range<PipelineStage> },
    /// A semaphore is signalled or waited for.
    Semaphore { semaphore: S },
    /// A pipeline barrier, and a semaphore is signalled or waited for.
    BarrierSemaphore { semaphore: S, states: Range<T>, stages: Range<PipelineStage> },
    /// The resource passes to or from the queue `other` of another family.
    Transfer { semaphore: S, states: Range<T>, stages: Range<PipelineStage>, other: QueueId },
}

/// The second range is a copy of the first, end by end.
pub open spec fn cloned_range<T: Clone>(from: Range<T>, to: Range<T>) -> bool {
    cloned(from.start, to.start) && cloned(from.end, to.end)
}

impl<T: Clone, S: Clone, M: Clone> LinkSync<T, S, M> {
    /// `copy` is a copy of the decision: the same kind of decision, with a
    /// copy of each of its parts.
    pub open spec fn cloned_to(self, copy: Self) -> bool {
        match (self, copy) {
            (LinkSync::Noop(side), LinkSync::Noop(other)) => cloned(side, other),
            (
                LinkSync::Barrier { states, stages },
                LinkSync::Barrier { states: to_states, stages: to_stages },
            ) => cloned_range(states, to_states) && stages == to_stages,
            (LinkSync::Semaphore { semaphore }, LinkSync::Semaphore { semaphore: to }) => cloned(
                semaphore,
                to,
            ),
            (
                LinkSync::BarrierSemaphore { semaphore, states, stages },
                LinkSync::BarrierSemaphore { semaphore: to, states: to_states, stages: to_stages },
            ) => cloned(semaphore, to) && cloned_range(states, to_states) && stages == to_stages,
            (
                LinkSync::Transfer { semaphore, states, stages, other },
                LinkSync::Transfer {
                    semaphore: to,
                    states: to_states,
                    stages: to_stages,
                    other: to_other,
                },
            ) => cloned(semaphore, to) && cloned_range(states, to_states) && stages == to_stages
                && other == to_other,
            _ => false,
        }
    }
}

impl<T: Clone, S: Clone, M: Clone> Clone for LinkSync<T, S, M> {
    /// A copy of the decision.
    fn clone(&self) -> (r: Self)
        ensures
            self.cloned_to(r),
    {
        match self {
            LinkSync::Noop(side) => LinkSync::Noop(side.clone()),
            LinkSync::Barrier { states, stages } => LinkSync::Barrier {
                states: states.start.clone()..states.end.clone(),
                stages: stages.start..stages.end,
            },
            LinkSync::Semaphore { semaphore } => LinkSync::Semaphore {
                semaphore: semaphore.clone(),
            },
            LinkSync::BarrierSemaphore { semaphore, states, stages } => LinkSync::BarrierSemaphore {
                semaphore: semaphore.clone(),
                states: states.start.clone()..states.end.clone(),
                stages: stages.start..stages.end,
            },
            LinkSync::Transfer { semaphore, states, stages, other } => LinkSync::Transfer {
                semaphore: semaphore.clone(),
                states: states.start.clone()..states.end.clone(),
                stages: stages.start..stages.end,
                other: *other,
            },
        }
    }
}

/// The ranges of a barrier and the families between which it stands.
#[derive(Debug, PartialEq, Eq)]
pub struct BarrierRanges<T> {
    pub states: Range<T>,
    pub stages: Range<PipelineStage>,
    pub families: Range<QueueFamilyId>,
}

impl<T, S, M> LinkSync<T, S, M> {
    /// The decision without its semaphore.
    pub open spec fn shape(self) -> LinkSync<T, (), M> {
        match self {
            LinkSync::Noop(side) => LinkSync::Noop(side),
            LinkSync::Barrier { states, stages } => LinkSync::Barrier { states, stages },
            LinkSync::Semaphore { semaphore } => LinkSync::Semaphore { semaphore: () },
            LinkSync::BarrierSemaphore { semaphore, states, stages } => LinkSync::BarrierSemaphore {
                semaphore: (),
                states,
                stages,
            },
            LinkSync::Transfer { semaphore, states, stages, other } => LinkSync::Transfer {
                semaphore: (),
                states,
                stages,
                other,
            },
        }
    }

    /// The semaphore of the decision, if it has one.
    pub open spec fn semaphore_of(self) -> Option<S> {
        match self {
            LinkSync::Noop(_) => None,
            LinkSync::Barrier { .. } => None,
            LinkSync::Semaphore { semaphore } => Some(semaphore),
            LinkSync::BarrierSemaphore { semaphore, .. } => Some(semaphore),
            LinkSync::Transfer { semaphore, .. } => Some(semaphore),
        }
    }

    /// Whether nothing has to happen.
    pub fn is_none(&self) -> (r: bool)
        ensures
            r == (self is Noop),
    {
        match self {
            LinkSync::Noop(_) => true,
            _ => false,
        }
    }

    /// The semaphore of the decision, if it has one.
    pub fn semaphore(&self) -> (r: Option<&S>)
        ensures
            match r {
                Some(semaphore) => self.semaphore_of() == Some(*semaphore),
                None => self.semaphore_of() is None,
            },
    {
        match self {
            LinkSync::Noop(_) => None,
            LinkSync::Barrier { .. } => None,
            LinkSync::Semaphore { semaphore } => Some(semaphore),
            LinkSync::BarrierSemaphore { semaphore, .. } => Some(semaphore),
            LinkSync::Transfer { semaphore, .. } => Some(semaphore),
        }
    }
}

impl<T, W> LinkSync<T, W, Acquire> {
    /// The semaphore to wait for before the commands of the pass execute.
    pub fn wait(&self) -> (r: Option<&W>)
        ensures
            match r {
                Some(semaphore) => self.semaphore_of() == Some(*semaphore),
                None => self.semaphore_of() is None,
            },
    {
        self.semaphore()
    }
}

impl<T, S> LinkSync<T, S, Release> {
    /// The semaphore to signal after the commands of the pass have executed.
    pub fn signal(&self) -> (r: Option<&S>)
        ensures
            match r {
                Some(semaphore) => self.semaphore_of() == Some(*semaphore),
                None => self.semaphore_of() is None,
            },
    {
        self.semaphore()
    }
}

impl<T: Copy, S, M: Semantics> LinkSync<T, S, M> {
    /// The barrier that the decision asks for on a queue `this`, where it asks
    /// for one.
    pub open spec fn barrier_of(self, this: QueueId) -> Option<BarrierRanges<T>> {
        match self {
            LinkSync::Noop(_) => None,
            LinkSync::Semaphore { .. } => None,
            LinkSync::Barrier { states, stages } => Some(
                BarrierRanges {
                    states,
                    stages,
                    families: Range { start: this.family, end: this.family },
                },
            ),
            LinkSync::BarrierSemaphore { states, stages, .. } => Some(
                BarrierRanges {
                    states,
                    stages,
                    families: Range { start: this.family, end: this.family },
                },
            ),
            LinkSync::Transfer { states, stages, other, .. } => Some(
                BarrierRanges {
                    states,
                    stages,
                    families: Range {
                        start: M::families(this.family, other.family).0,
                        end: M::families(this.family, other.family).1,
                    },
                },
            ),
        }
    }

    /// The barrier to record on the queue `this` of the pass, if the decision
    /// asks for one. A barrier from one family to another is not provided for.
    pub fn barrier(&self, this: QueueId) -> (r: Option<BarrierRanges<T>>)
        requires
            self.barrier_of(this) matches Some(ranges) ==> ranges.families.start
                == ranges.families.end,
        ensures
            r == self.barrier_of(this),
    {
        match self {
            LinkSync::Noop(_) => None,
            LinkSync::Semaphore { .. } => None,
            LinkSync::Barrier { states, stages } => Some(
                BarrierRanges {
                    states: states.start..states.end,
                    stages: stages.start..stages.end,
                    families: this.family..this.family,
                },
            ),
            LinkSync::BarrierSemaphore { states, stages, .. } => Some(
                BarrierRanges {
                    states: states.start..states.end,
                    stages: stages.start..stages.end,
                    families: this.family..this.family,
                },
            ),
            LinkSync::Transfer { states, stages, other, .. } => {
                let (src, dst) = M::src_dst(this.family, other.family);
                Some(
                    BarrierRanges {
                        states: states.start..states.end,
                        stages: stages.start..stages.end,
                        families: src..dst,
                    },
                )
            },
        }
    }
}

} // verus!
