//! Synchronization chains for resources shared by a ring of passes.
//!
//! For one buffer or image that an ordered, cyclically repeating sequence of
//! passes accesses, a [`Chain`] records which barrier, semaphore or queue
//! ownership transfer has to stand between each access and the next one.
//! Every decision is stated as a contract over the declared links and proved.

pub mod stage;
pub mod queue;
pub mod access;
pub mod layout;
pub mod usage;
pub mod state;
pub mod ring;
pub mod link;
pub mod sync;
pub mod plan;
pub mod chain;
pub mod builder;
pub mod graph;
pub mod laws;
pub mod resource;
pub mod buffer;
pub mod image;

pub use crate::queue::{QueueFamilyId, QueueId};
pub use crate::stage::PipelineStage;
pub use crate::access::{Access, BufferAccess, ImageAccess};
pub use crate::layout::{
    common_image_layout, merge_image_layouts, BufferLayout, ImageLayout, Layout,
};
pub use crate::state::{BufferState, ImageState, State};
pub use crate::usage::{BufferUsage, ImageUsage, Usage};
pub use crate::link::{ChainId, Link, PassLinks, Slot};
pub use crate::sync::{Acquire, BarrierRanges, LinkSync, Release, Semantics};
pub use crate::chain::{Chain, ChainLink};
pub use crate::resource::{Buffer, Id, Image, Resource};
pub use crate::buffer::{BufferChain, BufferChainId, BufferLink};
pub use crate::image::{
    AttachmentLoadOp, AttachmentStoreOp, ImageChain, ImageChainId, ImageInit, ImageLink,
};
pub use crate::graph::GraphChains;
