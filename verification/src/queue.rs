//! Where commands execute.

use vstd::prelude::*;

verus! {

/// Identifier of a queue family: queues of one family share a memory
/// ownership domain, queues of different families do not.
#[derive(Clone, Copy, Debug, PartialEq, Eq, Hash, Structural)]
pub struct QueueFamilyId(pub usize);

/// Identifier of a queue: its family and its index in the family.
#[derive(Clone, Copy, Debug, PartialEq, Eq, Hash, Structural)]
pub struct QueueId {
    pub index: usize,
    pub family: QueueFamilyId,
}

impl QueueId {
    /// The queue with the given index in the given family.
    pub fn new(family: QueueFamilyId, index: usize) -> (r: Self)
        ensures
            r.family == family,
            r.index == index,
    {
        QueueId { index, family }
    }

    /// The family of the queue.
    pub fn family(&self) -> (r: QueueFamilyId)
        ensures
            r == self.family,
    {
        self.family
    }

    /// The index of the queue in its family.
    pub fn index(&self) -> (r: usize)
        ensures
            r == self.index,
    {
        self.index
    }

    /// Whether both identifiers name the same queue.
    pub fn same(self, other: Self) -> (r: bool)
        ensures
            r == (self == other),
    {
        self.index == other.index && self.family.0 == other.family.0
    }

    /// Whether both queues belong to one family.
    pub fn same_family(self, other: Self) -> (r: bool)
        ensures
            r == (self.family == other.family),
    {
        self.family.0 == other.family.0
    }
}

} // verus!
