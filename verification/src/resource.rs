//! Resource categories and what belongs to each.

use vstd::prelude::*;
use std::marker::PhantomData;
use std::ops::Range;
use crate::access::{Access, BufferAccess, ImageAccess};
use crate::layout::{BufferLayout, ImageLayout, Layout};
use crate::stage::PipelineStage;
use crate::usage::{BufferUsage, ImageUsage, Usage};

verus! {

/// gfx-hal's `image::SubresourceRange`, the part of an image that a range
/// names. Nothing is known of its content here: it is only carried.
#[verifier::external_type_specification]
#[verifier::external_body]
pub struct ExSubresourceRange(gfx_hal::image::SubresourceRange);

/// A resource category: the access, layout and usage types that describe a
/// resource of that category, and the type that names a part of it.
pub trait Resource: Copy {
    /// Access mask of the category.
    type Access: Access;

    /// Layout of the category.
    type Layout: Layout;

    /// Usage flags of the category.
    type Usage: Usage;

    /// A part of a resource of the category.
    type Range: Clone;
}

/// The category of buffers.
#[derive(Clone, Copy, Debug, PartialEq, Eq, PartialOrd, Ord, Hash)]
pub enum Buffer {
    /// The category itself.
    Category,
}

impl Resource for Buffer {
    type Access = BufferAccess;

    type Layout = BufferLayout;

    type Usage = BufferUsage;

    type Range = Range<u64>;
}

/// The category of images.
#[derive(Clone, Copy, Debug, PartialEq, Eq, PartialOrd, Ord, Hash)]
pub enum Image {
    /// The category itself.
    Category,
}

impl Resource for Image {
    type Access = ImageAccess;

    type Layout = ImageLayout;

    type Usage = ImageUsage;

    type Range = gfx_hal::image::SubresourceRange;
}

/// Identifier of a resource of category `R`.
#[derive(Debug, Hash)]
pub struct Id<R>(u32, PhantomData<R>);

impl<R> View for Id<R> {
    type V = u32;

    closed spec fn view(&self) -> u32 {
        self.0
    }
}

impl<R> Clone for Id<R> {
    fn clone(&self) -> (r: Self)
        ensures
            r == *self,
    {
        Id(self.0, PhantomData)
    }
}

impl<R> Copy for Id<R> {

}

impl<R> PartialEq for Id<R> {
    fn eq(&self, other: &Self) -> (r: bool) {
        self.0 == other.0
    }
}

impl<R> Eq for Id<R> {

}

impl<R> vstd::std_specs::cmp::PartialEqSpecImpl for Id<R> {
    open spec fn obeys_eq_spec() -> bool {
        true
    }

    open spec fn eq_spec(&self, other: &Self) -> bool {
        self@ == other@
    }
}

impl<R> Id<R> {
    /// The identifier with the given index.
    pub fn new(index: u32) -> (r: Self)
        ensures
            r@ == index,
    {
        Id(index, PhantomData)
    }

    /// The index of the identifier.
    pub fn index(&self) -> (r: u32)
        ensures
            r == self@,
    {
        self.0
    }
}

/// The state of a resource of category `R` during an access: how it is
/// accessed, in which layout, and at which stages.
pub struct State<R: Resource> {
    /// How the resource is accessed.
    pub access: R::Access,
    /// The layout of the resource.
    pub layout: R::Layout,
    /// The stages at which the resource is accessed.
    pub stages: PipelineStage,
}

impl<R: Resource> Clone for State<R> {
    fn clone(&self) -> (r: Self)
        ensures
            r == *self,
    {
        State { access: self.access, layout: self.layout, stages: self.stages }
    }
}

impl<R: Resource> Copy for State<R> {

}

impl<R: Resource> State<R> {
    /// The access writes, and so excludes any other access.
    pub open spec fn is_exclusive(self) -> bool {
        self.access.writes()
    }

    /// Neither access excludes the other, and the layouts have a common one.
    pub open spec fn is_compatible(self, rhs: Self) -> bool {
        !self.is_exclusive() && !rhs.is_exclusive() && self.layout.merged(rhs.layout) is Some
    }

    /// The state of both accesses together: the flags and the stages of both,
    /// in their common layout.
    pub open spec fn merged(self, rhs: Self) -> Self {
        State {
            access: self.access.join(rhs.access),
            layout: self.layout.merged(rhs.layout)->0,
            stages: self.stages.join(rhs.stages),
        }
    }

    /// Merges two states whose layouts have a common one.
    pub fn merge(&self, rhs: Self) -> (r: Self)
        requires
            self.layout.merge_defined(rhs.layout),
            self.layout.merged(rhs.layout) is Some,
        ensures
            r == self.merged(rhs),
    {
        let layout = match self.layout.merge(rhs.layout) {
            Some(layout) => layout,
            None => vstd::pervasive::unreached(),
        };
        State {
            access: self.access.union(rhs.access),
            layout,
            stages: self.stages.union(rhs.stages),
        }
    }

    /// Whether the access excludes any other access.
    pub fn exclusive(&self) -> (r: bool)
        ensures
            r == self.is_exclusive(),
    {
        self.access.is_write()
    }

    /// Whether the two accesses can go on together: neither excludes the
    /// other and the layouts have a common one.
    pub fn compatible(&self, rhs: Self) -> (r: bool)
        requires
            !self.is_exclusive() && !rhs.is_exclusive() ==> self.layout.merge_defined(rhs.layout),
        ensures
            r == self.is_compatible(rhs),
    {
        !self.exclusive() && !rhs.exclusive() && self.layout.merge(rhs.layout).is_some()
    }
}

} // verus!
