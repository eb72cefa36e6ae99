//! What the passes declare: links to chains.

use vstd::prelude::*;
use std::marker::PhantomData;
use crate::queue::QueueId;
use crate::stage::PipelineStage;
use crate::usage::Usage;

verus! {

/// Identifier of a chain: one per resource, or per group of resources that
/// all passes use in the same way. The type parameter keeps the identifiers
/// of buffer chains and of image chains apart.
#[derive(Debug, Hash)]
pub struct ChainId<T>(usize, PhantomData<T>);

impl<T> View for ChainId<T> {
    type V = usize;

    closed spec fn view(&self) -> usize {
        self.0
    }
}

impl<T> Clone for ChainId<T> {
    fn clone(&self) -> (r: Self)
        ensures
            r == *self,
    {
        ChainId(self.0, PhantomData)
    }
}

impl<T> Copy for ChainId<T> {

}

impl<T> PartialEq for ChainId<T> {
    fn eq(&self, other: &Self) -> (r: bool) {
        self.0 == other.0
    }
}

impl<T> Eq for ChainId<T> {

}

impl<T> vstd::std_specs::cmp::PartialEqSpecImpl for ChainId<T> {
    open spec fn obeys_eq_spec() -> bool {
        true
    }

    open spec fn eq_spec(&self, other: &Self) -> bool {
        self@ == other@
    }
}

impl<T> ChainId<T> {
    /// The identifier with the given index.
    pub fn new(index: usize) -> (r: Self)
        ensures
            r@ == index,
    {
        ChainId(index, PhantomData)
    }

    /// The index of the identifier.
    pub fn index(&self) -> (r: usize)
        ensures
            r == self@,
    {
        self.0
    }
}

/// What one pass declares of one chain: the stages that touch the resource,
/// the state it has to be in, and what the pass uses it for.
#[derive(Clone, Debug, PartialEq, Eq, Hash)]
pub struct Link<T, U> {
    pub id: ChainId<T>,
    pub stages: PipelineStage,
    pub state: T,
    pub usage: U,
}

/// All links that one pass declares, and the queue that executes the pass.
#[derive(Clone, Debug)]
pub struct PassLinks<T, U> {
    pub queue: QueueId,
    pub links: Vec<Link<T, U>>,
}

/// What a chain knows of one pass that takes part in it.
pub struct Slot<T> {
    pub queue: QueueId,
    pub stages: PipelineStage,
    pub state: T,
}

/// The first position from `from` on at which `links` addresses the chain
/// with index `id`.
pub open spec fn position<T, U>(links: Seq<Link<T, U>>, id: usize, from: int) -> Option<int>
    decreases links.len() - from,
{
    if from >= links.len() {
        None
    } else if links[from].id@ == id {
        Some(from)
    } else {
        position(links, id, from + 1)
    }
}

/// The first of `links` that addresses the chain with index `id`.
pub open spec fn link_for<T, U>(links: Seq<Link<T, U>>, id: usize) -> Option<Link<T, U>> {
    match position(links, id, 0) {
        Some(k) => Some(links[k]),
        None => None,
    }
}

/// What each pass of the ring declares of the chain with index `id`, pass by
/// pass.
pub open spec fn declared<T, U>(passes: Seq<PassLinks<T, U>>, id: usize) -> Seq<
    Option<Slot<T>>,
> {
    Seq::new(
        passes.len(),
        |i: int|
            match link_for(passes[i].links@, id) {
                Some(link) => Some(
                    Slot { queue: passes[i].queue, stages: link.stages, state: link.state },
                ),
                None => None,
            },
    )
}

/// `usage` joined with what the first `n` passes use the chain with index
/// `id` for.
pub open spec fn usage_upto<T, U: Usage>(
    usage: U,
    passes: Seq<PassLinks<T, U>>,
    id: usize,
    n: int,
) -> U
    decreases n,
{
    if n <= 0 {
        usage
    } else {
        let before = usage_upto(usage, passes, id, n - 1);
        match link_for(passes[n - 1].links@, id) {
            Some(link) => before.join(link.usage),
            None => before,
        }
    }
}

impl<T, U> PassLinks<T, U> {
    /// The link of this pass to chain `id`, if it declares one.
    pub fn link(&self, id: ChainId<T>) -> (r: Option<&Link<T, U>>)
        ensures
            match r {
                Some(link) => link_for(self.links@, id@) == Some(*link),
                None => link_for(self.links@, id@) is None,
            },
    {
        let mut k: usize = 0;
        while k < self.links.len()
            invariant
                k <= self.links.len(),
                position(self.links@, id@, 0) == position(self.links@, id@, k as int),
            decreases self.links.len() - k,
        {
            if self.links[k].id.index() == id.index() {
                return Some(&self.links[k]);
            }
            k += 1;
        }
        None
    }
}

} // verus!
