//! Resource states: what of a resource has to be synchronized between two
//! accesses.

use vstd::prelude::*;
use crate::access::{is_read_only, read_only, Access, BufferAccess, ImageAccess};
use crate::layout::{
    can_merge_image_layouts,
    common_image_layout,
    common_layout,
    layouts_mergeable,
    ImageLayout,
};

verus! {

/// The state of a resource during one access: its access mask and, for
/// resources that have one, its layout.
pub trait State: Copy {
    type Access: Access;

    /// The access mask of the state.
    spec fn access_of(self) -> Self::Access;

    /// The state with its access mask replaced.
    spec fn with_access(self, access: Self::Access) -> Self;

    /// The state that tells that the content need not be kept.
    spec fn discarded(self) -> Self;

    /// The two states may be asked to merge.
    spec fn merge_defined(self, rhs: Self) -> bool;

    /// The one state that serves both accesses without synchronization between
    /// them, where there is one.
    spec fn merged(self, rhs: Self) -> Option<Self>;

    /// The access mask of the state.
    fn access(self) -> (r: Self::Access)
        ensures
            r == self.access_of(),
    ;

    /// The state that tells that the content need not be kept.
    fn discard_content(self) -> (r: Self)
        ensures
            r == self.discarded(),
    ;

    /// The state with its access mask replaced.
    fn replace_access(self, access: Self::Access) -> (r: Self)
        ensures
            r == self.with_access(access),
    ;

    /// Whether the two states may be asked to merge.
    fn can_merge(self, rhs: Self) -> (r: bool)
        ensures
            r == self.merge_defined(rhs),
    ;

    /// Merges two states, where both only read and their layouts have a
    /// common one.
    fn merge(self, rhs: Self) -> (r: Option<Self>)
        requires
            self.merge_defined(rhs),
        ensures
            r == self.merged(rhs),
    ;

    /// Whether both states are the same.
    fn same(self, rhs: Self) -> (r: bool)
        ensures
            r == (self == rhs),
    ;

    /// Whether the state merges with `rhs` into itself: no transition is
    /// needed from one to the other.
    fn compatible(self, rhs: Self) -> (r: bool)
        requires
            self.merge_defined(rhs),
        ensures
            r == (self.merged(rhs) == Some(self)),
    {
        match self.merge(rhs) {
            Some(state) => state.same(self),
            None => false,
        }
    }

    /// The state with every access flag set.
    fn with_all_access(self) -> (r: Self)
        ensures
            r == self.with_access(Self::Access::full()),
    {
        self.replace_access(Self::Access::all())
    }

    /// The state with no access flag set.
    fn with_no_access(self) -> (r: Self)
        ensures
            r == self.with_access(Self::Access::empty()),
    {
        self.replace_access(Self::Access::none())
    }

    /// Two states merge only if both read and neither writes; a state that
    /// only reads merges with itself, and into itself.
    proof fn lemma_merge(self, rhs: Self)
        ensures
            self.merged(rhs) is Some ==> read_only(self.access_of()) && read_only(rhs.access_of()),
            read_only(self.access_of()) ==> self.merge_defined(self) && self.merged(self) == Some(
                self,
            ),
    ;
}

/// The state of a buffer is its access mask.
pub type BufferState = BufferAccess;

impl State for BufferState {
    type Access = BufferAccess;

    open spec fn access_of(self) -> BufferAccess {
        self
    }

    open spec fn with_access(self, access: BufferAccess) -> Self {
        access
    }

    open spec fn discarded(self) -> Self {
        self
    }

    open spec fn merge_defined(self, rhs: Self) -> bool {
        true
    }

    open spec fn merged(self, rhs: Self) -> Option<Self> {
        if read_only(self) && read_only(rhs) {
            Some(self.join(rhs))
        } else {
            None
        }
    }

    fn access(self) -> (r: BufferAccess) {
        self
    }

    fn discard_content(self) -> (r: Self) {
        self
    }

    fn replace_access(self, access: BufferAccess) -> (r: Self) {
        access
    }

    fn can_merge(self, rhs: Self) -> (r: bool) {
        true
    }

    fn merge(self, rhs: Self) -> (r: Option<Self>) {
        if is_read_only(self) && is_read_only(rhs) {
            Some(self.union(rhs))
        } else {
            None
        }
    }

    fn same(self, rhs: Self) -> (r: bool) {
        self.bits == rhs.bits
    }

    proof fn lemma_merge(self, rhs: Self) {
        self.lemma_masks();
    }
}

/// The state of an image: its access mask and its layout.
#[derive(Clone, Copy, Debug, PartialEq, Eq, Hash, Structural)]
pub struct ImageState(pub ImageAccess, pub ImageLayout);

impl State for ImageState {
    type Access = ImageAccess;

    open spec fn access_of(self) -> ImageAccess {
        self.0
    }

    open spec fn with_access(self, access: ImageAccess) -> Self {
        ImageState(access, self.1)
    }

    open spec fn discarded(self) -> Self {
        ImageState(self.0, ImageLayout::Undefined)
    }

    open spec fn merge_defined(self, rhs: Self) -> bool {
        read_only(self.0) && read_only(rhs.0) ==> layouts_mergeable(self.1, rhs.1)
    }

    open spec fn merged(self, rhs: Self) -> Option<Self> {
        if read_only(self.0) && read_only(rhs.0) {
            Some(ImageState(self.0.join(rhs.0), common_layout(self.1, rhs.1)))
        } else {
            None
        }
    }

    fn access(self) -> (r: ImageAccess) {
        self.0
    }

    fn discard_content(self) -> (r: Self) {
        ImageState(self.0, ImageLayout::Undefined)
    }

    fn replace_access(self, access: ImageAccess) -> (r: Self) {
        ImageState(access, self.1)
    }

    fn can_merge(self, rhs: Self) -> (r: bool) {
        !(is_read_only(self.0) && is_read_only(rhs.0)) || can_merge_image_layouts(self.1, rhs.1)
    }

    fn merge(self, rhs: Self) -> (r: Option<Self>) {
        if is_read_only(self.0) && is_read_only(rhs.0) {
            Some(ImageState(self.0.union(rhs.0), common_image_layout(self.1, rhs.1)))
        } else {
            None
        }
    }

    fn same(self, rhs: Self) -> (r: bool) {
        self.0.bits == rhs.0.bits && self.1 == rhs.1
    }

    proof fn lemma_merge(self, rhs: Self) {
        self.0.lemma_masks();
    }
}

} // verus!
