//! Chains: the resolved accesses of one resource around the ring of passes.

use vstd::prelude::*;
use vstd::pervasive::unreached;
use crate::queue::QueueId;
use crate::ring::{first_in, last_in, lemma_first_in, lemma_last_in, occupancy};
use crate::stage::PipelineStage;
use crate::sync::{Acquire, LinkSync, Release};

verus! {

/// What a chain holds for one pass that takes part in it: what the pass
/// declared, the state and stages it shares with the neighbours it merges
/// with, and what has to happen before and after it.
#[derive(Clone, Debug, PartialEq, Eq)]
pub struct ChainLink<T, S, W> {
    pub queue: QueueId,
    pub stages: PipelineStage,
    pub state: T,
    pub merged_state: T,
    pub merged_stages: PipelineStage,
    pub acquire: LinkSync<T, W, Acquire>,
    pub release: LinkSync<T, S, Release>,
}

/// The accesses of one resource around the ring: one slot for each pass,
/// empty where the pass does not take part.
#[derive(Clone, Debug)]
pub struct Chain<T, U, I, S, W = S> {
    pub usage: U,
    pub init: I,
    pub links: Vec<Option<ChainLink<T, S, W>>>,
}

/// The position of the first link from `from` on.
pub(crate) fn first_index<T, S, W>(
    links: &Vec<Option<ChainLink<T, S, W>>>,
    from: usize,
) -> (r: Option<usize>)
    requires
        from <= links.len(),
    ensures
        match r {
            Some(k) => first_in(occupancy(links@), from as int, links.len() as int) == Some(
                k as int,
            ) && k < links.len() && links[k as int] is Some,
            None => first_in(occupancy(links@), from as int, links.len() as int) is None,
        },
{
    let ghost occ = occupancy(links@);
    let mut k: usize = from;
    while k < links.len()
        invariant
            from <= k <= links.len(),
            occ == occupancy(links@),
            first_in(occ, from as int, links.len() as int) == first_in(
                occ,
                k as int,
                links.len() as int,
            ),
        decreases links.len() - k,
    {
        if links[k].is_some() {
            return Some(k);
        }
        k += 1;
    }
    None
}

/// The position of the last link before `before`.
pub(crate) fn last_index<T, S, W>(
    links: &Vec<Option<ChainLink<T, S, W>>>,
    before: usize,
) -> (r: Option<usize>)
    requires
        before <= links.len(),
    ensures
        match r {
            Some(k) => last_in(occupancy(links@), 0, before as int) == Some(k as int) && k
                < before && links[k as int] is Some,
            None => last_in(occupancy(links@), 0, before as int) is None,
        },
{
    let ghost occ = occupancy(links@);
    let mut k: usize = before;
    while k > 0
        invariant
            k <= before <= links.len(),
            occ == occupancy(links@),
            last_in(occ, 0, before as int) == last_in(occ, 0, k as int),
        decreases k,
    {
        k -= 1;
        if links[k].is_some() {
            return Some(k);
        }
    }
    None
}

impl<T, U, I, S, W> Chain<T, U, I, S, W> {
    /// Some pass takes part in the chain: a chain without any link stands for
    /// nothing.
    pub open spec fn wf(self) -> bool {
        exists|i: int| 0 <= i < self.links@.len() && (#[trigger] self.links@[i]) is Some
    }

    /// The position of the first pass that takes part, if there is one.
    pub open spec fn first_position(self) -> Option<int> {
        first_in(occupancy(self.links@), 0, self.links@.len() as int)
    }

    /// The position of the last pass that takes part, if there is one.
    pub open spec fn last_position(self) -> Option<int> {
        last_in(occupancy(self.links@), 0, self.links@.len() as int)
    }

    /// The link of the pass at `index`, which takes part in the chain.
    pub fn link(&self, index: usize) -> (r: &ChainLink<T, S, W>)
        requires
            index < self.links@.len(),
            self.links@[index as int] is Some,
        ensures
            *r == self.links@[index as int]->0,
    {
        match &self.links[index] {
            Some(link) => link,
            None => unreached(),
        }
    }

    /// The link of the pass at `index`, which takes part in the chain, to be
    /// changed in place.
    pub fn link_mut(&mut self, index: usize) -> (r: &mut ChainLink<T, S, W>)
        requires
            index < old(self).links@.len(),
            old(self).links@[index as int] is Some,
        ensures
            *r == old(self).links@[index as int]->0,
            final(self).links@ == old(self).links@.update(index as int, Some(*final(r))),
            final(self).usage == old(self).usage,
            final(self).init == old(self).init,
    {
        match &mut self.links[index] {
            Some(link) => link,
            None => unreached(),
        }
    }

    /// The link of the last pass before `index` that takes part.
    pub fn prev(&self, index: usize) -> (r: Option<&ChainLink<T, S, W>>)
        requires
            index <= self.links@.len(),
        ensures
            match r {
                Some(link) => last_in(occupancy(self.links@), 0, index as int) matches Some(k)
                    && *link == self.links@[k]->0,
                None => last_in(occupancy(self.links@), 0, index as int) is None,
            },
    {
        match last_index(&self.links, index) {
            Some(k) => Some(self.link(k)),
            None => None,
        }
    }

    /// The link of the last pass before `index` that takes part, to be changed
    /// in place.
    pub fn prev_mut(&mut self, index: usize) -> (r: Option<&mut ChainLink<T, S, W>>)
        requires
            index <= old(self).links@.len(),
        ensures
            final(self).usage == old(self).usage,
            final(self).init == old(self).init,
            match r {
                Some(link) => {
                    &&& last_in(occupancy(old(self).links@), 0, index as int) matches Some(k)
                        && *link == old(self).links@[k]->0
                        && final(self).links@ == old(self).links@.update(k, Some(*final(link)))
                },
                None => {
                    &&& last_in(occupancy(old(self).links@), 0, index as int) is None
                    &&& final(self).links@ == old(self).links@
                },
            },
    {
        match last_index(&self.links, index) {
            Some(k) => Some(self.link_mut(k)),
            None => None,
        }
    }

    /// The link of the first pass after `index` that takes part.
    pub fn next(&self, index: usize) -> (r: Option<&ChainLink<T, S, W>>)
        requires
            index < self.links@.len(),
        ensures
            match r {
                Some(link) => first_in(
                    occupancy(self.links@),
                    index + 1,
                    self.links@.len() as int,
                ) matches Some(k) && *link == self.links@[k]->0,
                None => first_in(occupancy(self.links@), index + 1, self.links@.len() as int)
                    is None,
            },
    {
        match first_index(&self.links, index + 1) {
            Some(k) => Some(self.link(k)),
            None => None,
        }
    }

    /// The link of the first pass after `index` that takes part, to be changed
    /// in place.
    pub fn next_mut(&mut self, index: usize) -> (r: Option<&mut ChainLink<T, S, W>>)
        requires
            index < old(self).links@.len(),
        ensures
            final(self).usage == old(self).usage,
            final(self).init == old(self).init,
            match r {
                Some(link) => {
                    &&& first_in(
                        occupancy(old(self).links@),
                        index + 1,
                        old(self).links@.len() as int,
                    ) matches Some(k) && *link == old(self).links@[k]->0
                        && final(self).links@ == old(self).links@.update(k, Some(*final(link)))
                },
                None => {
                    &&& first_in(
                        occupancy(old(self).links@),
                        index + 1,
                        old(self).links@.len() as int,
                    ) is None
                    &&& final(self).links@ == old(self).links@
                },
            },
    {
        match first_index(&self.links, index + 1) {
            Some(k) => Some(self.link_mut(k)),
            None => None,
        }
    }

    /// The link of the first pass that takes part.
    pub fn first(&self) -> (r: &ChainLink<T, S, W>)
        requires
            self.wf(),
        ensures
            self.first_position() is Some,
            *r == self.links@[self.first_position()->0]->0,
    {
        proof {
            self.lemma_ends();
        }
        match first_index(&self.links, 0) {
            Some(k) => self.link(k),
            None => unreached(),
        }
    }

    /// The link of the first pass that takes part, to be changed in place.
    pub fn first_mut(&mut self) -> (r: &mut ChainLink<T, S, W>)
        requires
            old(self).wf(),
        ensures
            old(self).first_position() is Some,
            *r == old(self).links@[old(self).first_position()->0]->0,
            final(self).links@ == old(self).links@.update(
                old(self).first_position()->0,
                Some(*final(r)),
            ),
            final(self).usage == old(self).usage,
            final(self).init == old(self).init,
    {
        proof {
            self.lemma_ends();
        }
        match first_index(&self.links, 0) {
            Some(k) => self.link_mut(k),
            None => unreached(),
        }
    }

    /// The link of the last pass that takes part.
    pub fn last(&self) -> (r: &ChainLink<T, S, W>)
        requires
            self.wf(),
        ensures
            self.last_position() is Some,
            *r == self.links@[self.last_position()->0]->0,
    {
        proof {
            self.lemma_ends();
        }
        match last_index(&self.links, self.links.len()) {
            Some(k) => self.link(k),
            None => unreached(),
        }
    }

    /// The link of the last pass that takes part, to be changed in place.
    pub fn last_mut(&mut self) -> (r: &mut ChainLink<T, S, W>)
        requires
            old(self).wf(),
        ensures
            old(self).last_position() is Some,
            *r == old(self).links@[old(self).last_position()->0]->0,
            final(self).links@ == old(self).links@.update(
                old(self).last_position()->0,
                Some(*final(r)),
            ),
            final(self).usage == old(self).usage,
            final(self).init == old(self).init,
    {
        proof {
            self.lemma_ends();
        }
        match last_index(&self.links, self.links.len()) {
            Some(k) => self.link_mut(k),
            None => unreached(),
        }
    }

    /// A chain in which some pass takes part has a first and a last link.
    pub proof fn lemma_ends(self)
        ensures
            self.wf() <==> self.first_position() is Some,
            self.first_position() is Some <==> self.last_position() is Some,
            self.first_position() matches Some(k) ==> 0 <= k < self.links@.len()
                && self.links@[k] is Some,
            self.last_position() matches Some(k) ==> 0 <= k < self.links@.len()
                && self.links@[k] is Some,
    {
        let occ = occupancy(self.links@);
        lemma_first_in(occ, 0, self.links@.len() as int);
        lemma_last_in(occ, 0, self.links@.len() as int);
        if let Some(k) = self.first_position() {
            assert(self.links@[k] is Some);
            assert(occ[k]);
        }
        if let Some(k) = self.last_position() {
            assert(self.links@[k] is Some);
            assert(occ[k]);
        }
        if exists|i: int| 0 <= i < self.links@.len() && (#[trigger] self.links@[i]) is Some {
            let i = choose|i: int| 0 <= i < self.links@.len() && (#[trigger] self.links@[i]) is Some;
            assert(occ[i]);
        }
    }
}

} // verus!
