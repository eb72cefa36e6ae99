//! What is particular to chains of images: how an attachment is loaded and
//! stored, and synchronization with the presentation engine.

use vstd::prelude::*;
use std::ops::Range;
use gfx_hal::command::ClearValue;
use crate::access::{is_read_only, read_only, Access, ImageAccess};
use crate::chain::{first_index, last_index, Chain, ChainLink};
use crate::layout::ImageLayout;
use crate::ring::occupancy;
use crate::link::{ChainId, Link};
use crate::stage::PipelineStage;
use crate::state::ImageState;
use crate::sync::{Acquire, LinkSync, Release};
use crate::usage::ImageUsage;

verus! {

/// gfx-hal's `command::ClearValue`, the value that an attachment is cleared
/// with. Nothing is known of its content here: it is only carried.
#[verifier::external_type_specification]
#[verifier::external_body]
pub struct ExClearValue(ClearValue);

/// What happens to the content of an attachment when a pass begins.
#[derive(Clone, Copy, Debug, PartialEq, Eq, Hash, Structural)]
pub enum AttachmentLoadOp {
    /// The content is kept.
    Load,
    /// The attachment is cleared.
    Clear,
    /// The content is undefined.
    DontCare,
}

/// What happens to the content of an attachment when a pass ends.
#[derive(Clone, Copy, Debug, PartialEq, Eq, Hash, Structural)]
pub enum AttachmentStoreOp {
    /// The content is kept.
    Store,
    /// The content is undefined.
    DontCare,
}

/// How the content of an image comes about at the start of each turn of the
/// ring: it is loaded, cleared, or of no interest.
#[derive(Clone, Copy, Debug)]
pub enum ImageInit {
    /// The content is there and kept.
    Load,
    /// The content is of no interest.
    DontCare,
    /// The image is cleared with the value.
    Clear(ClearValue),
}

impl ImageInit {
    /// The load operation that the initialization asks for.
    pub open spec fn operation(self) -> AttachmentLoadOp {
        match self {
            ImageInit::Clear(_) => AttachmentLoadOp::Clear,
            ImageInit::Load => AttachmentLoadOp::Load,
            ImageInit::DontCare => AttachmentLoadOp::DontCare,
        }
    }

    /// The value to clear with, if the image is cleared.
    pub open spec fn value(self) -> Option<ClearValue> {
        match self {
            ImageInit::Clear(value) => Some(value),
            _ => None,
        }
    }

    /// The load operation that the initialization asks for.
    pub fn load_op(&self) -> (r: AttachmentLoadOp)
        ensures
            r == self.operation(),
    {
        match *self {
            ImageInit::Clear(_) => AttachmentLoadOp::Clear,
            ImageInit::Load => AttachmentLoadOp::Load,
            ImageInit::DontCare => AttachmentLoadOp::DontCare,
        }
    }

    /// Whether the content is given up at the start of each turn: it is not
    /// loaded.
    pub fn discard(&self) -> (r: bool)
        ensures
            r == !(*self is Load),
    {
        match *self {
            ImageInit::Load => false,
            _ => true,
        }
    }

    /// The value to clear with, if the image is cleared.
    pub fn clear_value(&self) -> (r: Option<ClearValue>)
        ensures
            r == self.value(),
    {
        match *self {
            ImageInit::Clear(value) => Some(value),
            _ => None,
        }
    }
}

/// Identifier of an image chain.
pub type ImageChainId = ChainId<ImageState>;

/// Link of a pass to an image chain.
pub type ImageLink = Link<ImageState, ImageUsage>;

/// Chain of an image.
pub type ImageChain<S, W> = Chain<ImageState, ImageUsage, ImageInit, S, W>;

impl<S, W> ImageChain<S, W> {
    /// Some pass other than that at `index` reads the image.
    pub open spec fn read_elsewhere(self, index: int) -> bool {
        exists|j: int|
            0 <= j < self.links@.len() && j != index && (#[trigger] self.links@[j]) is Some
                && self.links@[j]->0.state.0.reads()
    }

    /// How the attachment is loaded when the pass at `index` begins: its
    /// content is kept if the pass only reads, else the initialization of the
    /// image decides.
    pub fn load_op(&self, index: usize) -> (r: AttachmentLoadOp)
        requires
            index < self.links@.len(),
            self.links@[index as int] is Some,
        ensures
            r == if read_only(self.links@[index as int]->0.state.0) {
                AttachmentLoadOp::Load
            } else {
                self.init.operation()
            },
    {
        if is_read_only(self.link(index).state.0) {
            AttachmentLoadOp::Load
        } else {
            self.init.load_op()
        }
    }

    /// How the attachment is stored when the pass at `index` ends: its content
    /// is kept if any pass that comes after it in the ring reads the image.
    pub fn store_op(&self, index: usize) -> (r: AttachmentStoreOp)
        requires
            index < self.links@.len(),
        ensures
            r == if self.read_elsewhere(index as int) {
                AttachmentStoreOp::Store
            } else {
                AttachmentStoreOp::DontCare
            },
    {
        let mut k: usize = 0;
        while k < self.links.len()
            invariant
                k <= self.links@.len(),
                forall|j: int|
                    0 <= j < k && j != index && (#[trigger] self.links@[j]) is Some
                        ==> !self.links@[j]->0.state.0.reads(),
            decreases self.links.len() - k,
        {
            if k != index {
                match &self.links[k] {
                    Some(link) => {
                        if link.state.0.is_read() {
                            return AttachmentStoreOp::Store;
                        }
                    },
                    None => {},
                }
            }
            k += 1;
        }
        AttachmentStoreOp::DontCare
    }

    /// The layout of the image during the pass at `index`.
    pub fn subpass_layout(&self, index: usize) -> (r: ImageLayout)
        requires
            index < self.links@.len(),
            self.links@[index as int] is Some,
        ensures
            r == self.links@[index as int]->0.state.1,
    {
        self.link(index).state.1
    }

    /// The value that the attachment is cleared with when the pass at `index`
    /// begins, if it is cleared then.
    pub fn clear_value(&self, index: usize) -> (r: Option<ClearValue>)
        requires
            index < self.links@.len(),
            self.links@[index as int] is Some,
        ensures
            r == if !read_only(self.links@[index as int]->0.state.0) {
                self.init.value()
            } else {
                None
            },
    {
        match self.load_op(index) {
            AttachmentLoadOp::Clear => self.init.clear_value(),
            _ => None,
        }
    }

    /// The chain can still be synchronized with the presentation engine:
    /// nothing stands before its first link nor after its last one.
    pub open spec fn accepts_presentable_sync(self) -> bool {
        &&& self.wf()
        &&& self.first_position() matches Some(first) && self.links@[first]->0.acquire is Noop
        &&& self.last_position() matches Some(last) && self.links@[last]->0.release is Noop
    }

    /// What stands before the first link of a presentable image: the image
    /// comes from the presentation engine in the layout `from`.
    pub open spec fn presentable_acquire(
        link: ChainLink<ImageState, S, W>,
        acquire: W,
        from: ImageLayout,
    ) -> LinkSync<ImageState, W, Acquire> {
        LinkSync::Transfer {
            semaphore: acquire,
            states: Range { start: ImageState(ImageAccess { bits: 0 }, from), end: link.state },
            stages: Range {
                start: PipelineStage { bits: PipelineStage::BOTTOM_OF_PIPE },
                end: link.stages,
            },
            other: link.queue,
        }
    }

    /// What stands after the last link of a presentable image: the image goes
    /// to the presentation engine in the layout `to`.
    pub open spec fn presentable_release(
        link: ChainLink<ImageState, S, W>,
        release: S,
        to: ImageLayout,
    ) -> LinkSync<ImageState, S, Release> {
        LinkSync::Transfer {
            semaphore: release,
            states: Range { start: link.state, end: ImageState(ImageAccess { bits: 0 }, to) },
            stages: Range {
                start: link.stages,
                end: PipelineStage { bits: PipelineStage::TOP_OF_PIPE },
            },
            other: link.queue,
        }
    }

    /// The links of the chain once it is synchronized with the presentation
    /// engine.
    pub open spec fn presented(
        self,
        acquire: W,
        from: ImageLayout,
        release: S,
        to: ImageLayout,
    ) -> Seq<Option<ChainLink<ImageState, S, W>>> {
        let first = self.first_position()->0;
        let last = self.last_position()->0;
        let acquired = self.links@.update(
            first,
            Some(
                ChainLink {
                    acquire: Self::presentable_acquire(self.links@[first]->0, acquire, from),
                    ..self.links@[first]->0
                },
            ),
        );
        acquired.update(
            last,
            Some(
                ChainLink {
                    release: Self::presentable_release(acquired[last]->0, release, to),
                    ..acquired[last]->0
                },
            ),
        )
    }

    /// Whether the chain can still be synchronized with the presentation
    /// engine.
    pub fn can_accept_presentable_sync(&self) -> (r: bool)
        ensures
            r == self.accepts_presentable_sync(),
    {
        proof {
            self.lemma_ends();
        }
        match (first_index(&self.links, 0), last_index(&self.links, self.links.len())) {
            (Some(first), Some(last)) => self.link(first).acquire.is_none() && self.link(
                last,
            ).release.is_none(),
            _ => false,
        }
    }

    /// Synchronizes a presentable image with the presentation engine, which
    /// is no pass of the ring: the first link waits for `acquire` and takes
    /// the image over in the layout `from`, the last link hands it back in the
    /// layout `to` and signals `release`.
    ///
    /// This can be done once: afterwards the chain accepts no such
    /// synchronization any more.
    pub fn with_presentable_sync(
        &mut self,
        acquire: W,
        from: ImageLayout,
        release: S,
        to: ImageLayout,
    )
        requires
            old(self).accepts_presentable_sync(),
        ensures
            final(self).links@ == old(self).presented(acquire, from, release, to),
            final(self).usage == old(self).usage,
            final(self).init == old(self).init,
            !final(self).accepts_presentable_sync(),
    {
        proof {
            self.lemma_ends();
        }
        let ghost before = *self;
        let link = self.first_mut();
        link.acquire = LinkSync::Transfer {
            semaphore: acquire,
            states: ImageState(ImageAccess::none(), from)..link.state,
            stages: PipelineStage::from_bits(PipelineStage::BOTTOM_OF_PIPE)..link.stages,
            other: link.queue,
        };
        assert(occupancy(self.links@) =~= occupancy(before.links@));
        assert(self.wf()) by {
            assert(self.links@[before.first_position()->0] is Some);
        }
        let link = self.last_mut();
        link.release = LinkSync::Transfer {
            semaphore: release,
            states: link.state..ImageState(ImageAccess::none(), to),
            stages: link.stages..PipelineStage::from_bits(PipelineStage::TOP_OF_PIPE),
            other: link.queue,
        };
        assert(occupancy(self.links@) =~= occupancy(before.links@));
        proof {
            self.lemma_ends();
        }
    }
}

} // verus!
