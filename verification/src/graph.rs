//! The chains of all resources of one category.

use vstd::prelude::*;
use crate::builder::{allocated_by, built};
use crate::chain::Chain;
use crate::link::{declared, ChainId, PassLinks};
use crate::plan::mergeable_ring;
use crate::state::State;
use crate::usage::Usage;

verus! {

/// One chain for each chain identifier, absent where no pass declares a link
/// to it.
#[derive(Clone, Debug)]
pub struct GraphChains<T, U, I, S, W> {
    pub chains: Vec<Option<Chain<T, U, I, S, W>>>,
}

impl<T: State, U: Usage, I: Copy, S, W> GraphChains<T, U, I, S, W> {
    /// Builds the chains with the indices below `count` from what the passes
    /// of the ring declare, each with the initialization `init` and with
    /// `usage` joined with what the passes use the resource for.
    pub fn new<F: FnMut() -> (S, W)>(
        count: usize,
        init: I,
        usage: U,
        links: &[PassLinks<T, U>],
        new_semaphore: F,
    ) -> (r: Self)
        requires
            call_requires(new_semaphore, ()),
            forall|id: usize| id < count ==> mergeable_ring(#[trigger] declared(links@, id)),
        ensures
            r.chains@.len() == count,
            forall|id: usize|
                id < count ==> #[trigger] built(
                    id,
                    usage,
                    init,
                    links@,
                    allocated_by(new_semaphore),
                    r.chains@[id as int],
                ),
    {
        let mut allocate = new_semaphore;
        let mut chains: Vec<Option<Chain<T, U, I, S, W>>> = Vec::new();
        let mut index: usize = 0;
        while index < count
            invariant
                index <= count,
                chains@.len() == index,
                allocate == new_semaphore,
                call_requires(new_semaphore, ()),
                forall|id: usize| id < count ==> mergeable_ring(#[trigger] declared(links@, id)),
                forall|id: usize|
                    id < index ==> #[trigger] built(
                        id,
                        usage,
                        init,
                        links@,
                        allocated_by(new_semaphore),
                        chains@[id as int],
                    ),
            decreases count - index,
        {
            let id = ChainId::new(index);
            assert(mergeable_ring(declared(links@, index)));
            let chain = Chain::build_with(id, usage, init, links, &mut allocate);
            chains.push(chain);
            index += 1;
        }
        GraphChains { chains }
    }
}

impl<T: State, U: Usage, I, S, W> GraphChains<T, U, I, S, W> {
    /// Whether the chains with the indices below `count` can be built from
    /// `links`.
    pub fn can_build(count: usize, links: &[PassLinks<T, U>]) -> (r: bool)
        ensures
            r == forall|id: usize| id < count ==> mergeable_ring(#[trigger] declared(links@, id)),
    {
        let mut index: usize = 0;
        while index < count
            invariant
                index <= count,
                forall|id: usize| id < index ==> mergeable_ring(#[trigger] declared(links@, id)),
            decreases count - index,
        {
            if !Chain::<T, U, I, S, W>::can_build(ChainId::new(index), links) {
                assert(!mergeable_ring(declared(links@, index)));
                return false;
            }
            index += 1;
        }
        true
    }
}

impl<T, U, I, S, W> GraphChains<T, U, I, S, W> {
    /// Whether a chain with the identifier `id` is there.
    pub fn has_chain(&self, id: ChainId<T>) -> (r: bool)
        ensures
            r == (id@ < self.chains@.len() && self.chains@[id@ as int] is Some),
    {
        id.index() < self.chains.len() && self.chains[id.index()].is_some()
    }

    /// The chain with the identifier `id`, which is there.
    pub fn chain(&self, id: ChainId<T>) -> (r: &Chain<T, U, I, S, W>)
        requires
            id@ < self.chains@.len(),
            self.chains@[id@ as int] is Some,
        ensures
            *r == self.chains@[id@ as int]->0,
    {
        match &self.chains[id.index()] {
            Some(chain) => chain,
            None => vstd::pervasive::unreached(),
        }
    }

    /// The chain with the identifier `id`, which is there, to be changed in
    /// place.
    pub fn chain_mut(&mut self, id: ChainId<T>) -> (r: &mut Chain<T, U, I, S, W>)
        requires
            id@ < old(self).chains@.len(),
            old(self).chains@[id@ as int] is Some,
        ensures
            *r == old(self).chains@[id@ as int]->0,
            final(self).chains@ == old(self).chains@.update(id@ as int, Some(*final(r))),
    {
        match &mut self.chains[id.index()] {
            Some(chain) => chain,
            None => vstd::pervasive::unreached(),
        }
    }
}

impl<T, U, I, S, W> Default for GraphChains<T, U, I, S, W> {
    /// The collection without any chain.
    fn default() -> (r: Self)
        ensures
            r.chains@.len() == 0,
    {
        GraphChains { chains: Vec::new() }
    }
}

impl<T, U, I, S, W> std::ops::Index<ChainId<T>> for GraphChains<T, U, I, S, W> {
    type Output = Chain<T, U, I, S, W>;

    /// The chain with the identifier `index`, which is there.
    fn index(&self, index: ChainId<T>) -> (r: &Chain<T, U, I, S, W>)
        ensures
            *r == self.chains@[index@ as int]->0,
    {
        self.chain(index)
    }
}

impl<T, U, I, S, W> vstd::std_specs::core::IndexSpecImpl<ChainId<T>> for GraphChains<T, U, I, S, W> {
    open spec fn index_req(&self, index: &ChainId<T>) -> bool {
        index@ < self.chains@.len() && self.chains@[index@ as int] is Some
    }
}

} // verus!
