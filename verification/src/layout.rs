//! Memory layouts of resources and how two of them combine.

use vstd::prelude::*;

verus! {

/// The layout part of a resource state.
pub trait Layout: Copy {
    /// The two layouts may be asked for their common layout.
    spec fn merge_defined(self, other: Self) -> bool;

    /// The layout that serves both, where there is one.
    spec fn merged(self, other: Self) -> Option<Self>;

    /// The layout that tells that the content need not be kept.
    spec fn discarded(self) -> Self;

    /// Whether the two layouts may be asked for their common layout.
    fn can_merge(self, other: Self) -> (r: bool)
        ensures
            r == self.merge_defined(other),
    ;

    /// The layout that serves both, where there is one.
    fn merge(self, other: Self) -> (r: Option<Self>)
        requires
            self.merge_defined(other),
        ensures
            r == self.merged(other),
    ;

    /// The layout that tells that the content need not be kept.
    fn discard_content(self) -> (r: Self)
        ensures
            r == self.discarded(),
    ;

    /// A layout merges with itself, and into itself.
    proof fn lemma_merge_self(self)
        ensures
            self.merge_defined(self),
            self.merged(self) == Some(self),
    ;
}

/// The layout of a buffer: buffers have only one.
#[derive(Clone, Copy, Debug, PartialEq, Eq, Hash, Structural)]
pub struct BufferLayout;

impl Layout for BufferLayout {
    open spec fn merge_defined(self, other: Self) -> bool {
        true
    }

    open spec fn merged(self, other: Self) -> Option<Self> {
        Some(BufferLayout)
    }

    open spec fn discarded(self) -> Self {
        self
    }

    fn can_merge(self, other: Self) -> (r: bool) {
        true
    }

    fn merge(self, other: Self) -> (r: Option<Self>) {
        Some(BufferLayout)
    }

    fn discard_content(self) -> (r: Self) {
        self
    }

    proof fn lemma_merge_self(self) {
    }
}

/// The layout of an image, with the variants of gfx-hal's `image::Layout`.
#[derive(Clone, Copy, Debug, PartialEq, Eq, Hash, Structural)]
pub enum ImageLayout {
    /// General purpose, no restrictions on usage.
    General,
    /// Color attachment of a framebuffer.
    ColorAttachmentOptimal,
    /// Depth and stencil attachment of a framebuffer.
    DepthStencilAttachmentOptimal,
    /// Depth and stencil attachment, or read-only depth or stencil buffer in a shader.
    DepthStencilReadOnlyOptimal,
    /// Read-only image in a shader.
    ShaderReadOnlyOptimal,
    /// Source of a transfer.
    TransferSrcOptimal,
    /// Destination of a transfer.
    TransferDstOptimal,
    /// No layout; the content is not kept.
    Undefined,
    /// No layout; the content is kept.
    Preinitialized,
    /// The layout in which an image is handed to the presentation engine.
    Present,
}

/// The two layouts may be asked for their common layout: the presentation
/// layout has none with any other.
pub open spec fn layouts_mergeable(left: ImageLayout, right: ImageLayout) -> bool {
    left == right || (left != ImageLayout::Present && right != ImageLayout::Present)
}

/// The layout in which an image serves both uses: the layout itself where both
/// are the same, the read-only depth and stencil layout for that and the
/// read-only shader layout, the general layout for any other pair.
pub open spec fn common_layout(left: ImageLayout, right: ImageLayout) -> ImageLayout {
    if left == right {
        left
    } else if (left == ImageLayout::ShaderReadOnlyOptimal && right
        == ImageLayout::DepthStencilReadOnlyOptimal) || (left
        == ImageLayout::DepthStencilReadOnlyOptimal && right
        == ImageLayout::ShaderReadOnlyOptimal) {
        ImageLayout::DepthStencilReadOnlyOptimal
    } else {
        ImageLayout::General
    }
}

/// The common layout of `layout` and the first `n` of `layouts`, taken one
/// after the other.
pub open spec fn common_layout_upto(
    layout: ImageLayout,
    layouts: Seq<ImageLayout>,
    n: int,
) -> ImageLayout
    decreases n,
{
    if n <= 0 {
        layout
    } else {
        common_layout(common_layout_upto(layout, layouts, n - 1), layouts[n - 1])
    }
}

/// Each of `layouts` may be merged into what came before it.
pub open spec fn all_mergeable(layout: ImageLayout, layouts: Seq<ImageLayout>) -> bool {
    forall|k: int|
        0 <= k < layouts.len() ==> layouts_mergeable(
            common_layout_upto(layout, layouts, k),
            #[trigger] layouts[k],
        )
}

/// Whether the two layouts may be asked for their common layout.
pub fn can_merge_image_layouts(left: ImageLayout, right: ImageLayout) -> (r: bool)
    ensures
        r == layouts_mergeable(left, right),
{
    left == right || (left != ImageLayout::Present && right != ImageLayout::Present)
}

/// The layout in which an image serves both uses.
pub fn common_image_layout(left: ImageLayout, right: ImageLayout) -> (r: ImageLayout)
    requires
        layouts_mergeable(left, right),
    ensures
        r == common_layout(left, right),
{
    if left == right {
        left
    } else {
        match (left, right) {
            (ImageLayout::ShaderReadOnlyOptimal, ImageLayout::DepthStencilReadOnlyOptimal)
            | (ImageLayout::DepthStencilReadOnlyOptimal, ImageLayout::ShaderReadOnlyOptimal) => {
                ImageLayout::DepthStencilReadOnlyOptimal
            },
            (_, _) => ImageLayout::General,
        }
    }
}

/// Whether each of `layouts` may be merged into what came before it.
pub fn can_merge_all_image_layouts(layout: ImageLayout, layouts: &[ImageLayout]) -> (r: bool)
    ensures
        r == all_mergeable(layout, layouts@),
{
    let mut merged = layout;
    let mut i: usize = 0;
    while i < layouts.len()
        invariant
            i <= layouts.len(),
            merged == common_layout_upto(layout, layouts@, i as int),
            forall|k: int|
                0 <= k < i ==> layouts_mergeable(
                    common_layout_upto(layout, layouts@, k),
                    #[trigger] layouts@[k],
                ),
        decreases layouts.len() - i,
    {
        if !can_merge_image_layouts(merged, layouts[i]) {
            return false;
        }
        merged = common_image_layout(merged, layouts[i]);
        i += 1;
    }
    true
}

/// The layout in which an image serves `layout` and all of `layouts`.
pub fn merge_image_layouts(layout: ImageLayout, layouts: &[ImageLayout]) -> (r: ImageLayout)
    requires
        all_mergeable(layout, layouts@),
    ensures
        r == common_layout_upto(layout, layouts@, layouts@.len() as int),
{
    let mut merged = layout;
    let mut i: usize = 0;
    while i < layouts.len()
        invariant
            i <= layouts.len(),
            merged == common_layout_upto(layout, layouts@, i as int),
            all_mergeable(layout, layouts@),
        decreases layouts.len() - i,
    {
        merged = common_image_layout(merged, layouts[i]);
        i += 1;
    }
    merged
}

impl Layout for ImageLayout {
    open spec fn merge_defined(self, other: Self) -> bool {
        layouts_mergeable(self, other)
    }

    open spec fn merged(self, other: Self) -> Option<Self> {
        Some(common_layout(self, other))
    }

    open spec fn discarded(self) -> Self {
        ImageLayout::Undefined
    }

    fn can_merge(self, other: Self) -> (r: bool) {
        can_merge_image_layouts(self, other)
    }

    fn merge(self, other: Self) -> (r: Option<Self>) {
        Some(common_image_layout(self, other))
    }

    fn discard_content(self) -> (r: Self) {
        ImageLayout::Undefined
    }

    proof fn lemma_merge_self(self) {
    }
}

} // verus!
