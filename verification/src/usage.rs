//! What a resource is used for, accumulated over all passes.

use vstd::prelude::*;

verus! {

/// A combination of usage flags of one resource category.
pub trait Usage: Copy {
    /// The combination without any flag.
    spec fn empty() -> Self;

    /// The combination of all the category's flags.
    spec fn full() -> Self;

    /// The flags of both combinations together.
    spec fn join(self, other: Self) -> Self;

    /// The combination without any flag.
    fn none() -> (r: Self)
        ensures
            r == Self::empty(),
    ;

    /// The combination of all flags.
    fn all() -> (r: Self)
        ensures
            r == Self::full(),
    ;

    /// The flags of both combinations together.
    fn union(self, other: Self) -> (r: Self)
        ensures
            r == self.join(other),
    ;
}

/// Usage flags of a buffer, in the bits of gfx-hal's `buffer::Usage`.
#[derive(Clone, Copy, Debug, PartialEq, Eq, Hash, Structural)]
pub struct BufferUsage {
    pub bits: u32,
}

impl BufferUsage {
    /// Source of a transfer.
    pub const TRANSFER_SRC: u32 = 0x1;

    /// Destination of a transfer.
    pub const TRANSFER_DST: u32 = 0x2;

    /// Uniform texel buffer.
    pub const UNIFORM_TEXEL: u32 = 0x4;

    /// Storage texel buffer.
    pub const STORAGE_TEXEL: u32 = 0x8;

    /// Uniform buffer.
    pub const UNIFORM: u32 = 0x10;

    /// Storage buffer.
    pub const STORAGE: u32 = 0x20;

    /// Index buffer.
    pub const INDEX: u32 = 0x40;

    /// Vertex buffer.
    pub const VERTEX: u32 = 0x80;

    /// Buffer of indirect commands.
    pub const INDIRECT: u32 = 0x100;

    /// All flags.
    pub const ALL: u32 = 0x1ff;

    /// The combination with the given bits.
    pub fn from_bits(bits: u32) -> (r: Self)
        ensures
            r.bits == bits,
    {
        BufferUsage { bits }
    }

    /// `ALL` is the union of the flags.
    pub proof fn lemma_all()
        ensures
            Self::ALL == Self::TRANSFER_SRC | Self::TRANSFER_DST | Self::UNIFORM_TEXEL
                | Self::STORAGE_TEXEL | Self::UNIFORM | Self::STORAGE | Self::INDEX | Self::VERTEX
                | Self::INDIRECT,
    {
        assert(0x1ffu32 == 0x1u32 | 0x2u32 | 0x4u32 | 0x8u32 | 0x10u32 | 0x20u32 | 0x40u32
            | 0x80u32 | 0x100u32) by (bit_vector);
    }
}

impl Usage for BufferUsage {
    open spec fn empty() -> Self {
        BufferUsage { bits: 0 }
    }

    open spec fn full() -> Self {
        BufferUsage { bits: Self::ALL }
    }

    open spec fn join(self, other: Self) -> Self {
        BufferUsage { bits: self.bits | other.bits }
    }

    fn none() -> (r: Self) {
        BufferUsage { bits: 0 }
    }

    fn all() -> (r: Self) {
        BufferUsage { bits: Self::ALL }
    }

    fn union(self, other: Self) -> (r: Self) {
        BufferUsage { bits: self.bits | other.bits }
    }
}

/// Usage flags of an image, in the bits of gfx-hal's `image::Usage`.
#[derive(Clone, Copy, Debug, PartialEq, Eq, Hash, Structural)]
pub struct ImageUsage {
    pub bits: u32,
}

impl ImageUsage {
    /// Source of a transfer.
    pub const TRANSFER_SRC: u32 = 0x1;

    /// Destination of a transfer.
    pub const TRANSFER_DST: u32 = 0x2;

    /// Sampled image.
    pub const SAMPLED: u32 = 0x4;

    /// Storage image.
    pub const STORAGE: u32 = 0x8;

    /// Color attachment.
    pub const COLOR_ATTACHMENT: u32 = 0x10;

    /// Depth and stencil attachment.
    pub const DEPTH_STENCIL_ATTACHMENT: u32 = 0x20;

    /// Transient attachment.
    pub const TRANSIENT_ATTACHMENT: u32 = 0x40;

    /// Input attachment.
    pub const INPUT_ATTACHMENT: u32 = 0x80;

    /// All flags.
    pub const ALL: u32 = 0xff;

    /// The combination with the given bits.
    pub fn from_bits(bits: u32) -> (r: Self)
        ensures
            r.bits == bits,
    {
        ImageUsage { bits }
    }

    /// `ALL` is the union of the flags.
    pub proof fn lemma_all()
        ensures
            Self::ALL == Self::TRANSFER_SRC | Self::TRANSFER_DST | Self::SAMPLED | Self::STORAGE
                | Self::COLOR_ATTACHMENT | Self::DEPTH_STENCIL_ATTACHMENT
                | Self::TRANSIENT_ATTACHMENT | Self::INPUT_ATTACHMENT,
    {
        assert(0xffu32 == 0x1u32 | 0x2u32 | 0x4u32 | 0x8u32 | 0x10u32 | 0x20u32 | 0x40u32
            | 0x80u32) by (bit_vector);
    }
}

impl Usage for ImageUsage {
    open spec fn empty() -> Self {
        ImageUsage { bits: 0 }
    }

    open spec fn full() -> Self {
        ImageUsage { bits: Self::ALL }
    }

    open spec fn join(self, other: Self) -> Self {
        ImageUsage { bits: self.bits | other.bits }
    }

    fn none() -> (r: Self) {
        ImageUsage { bits: 0 }
    }

    fn all() -> (r: Self) {
        ImageUsage { bits: Self::ALL }
    }

    fn union(self, other: Self) -> (r: Self) {
        ImageUsage { bits: self.bits | other.bits }
    }
}

} // verus!
