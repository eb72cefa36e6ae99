//! How a pass touches a resource: access masks of buffers and images.

use vstd::prelude::*;
use crate::stage::PipelineStage;

verus! {

/// An access mask of one resource category.
pub trait Access: Copy {
    /// The mask holds a flag that reads the resource.
    spec fn reads(self) -> bool;

    /// The mask holds a flag that writes the resource.
    spec fn writes(self) -> bool;

    /// The mask is exactly one of the category's flags.
    spec fn single(self) -> bool;

    /// The stages that may perform the access that a single flag names.
    spec fn stages(self) -> PipelineStage;

    /// The mask without any flag.
    spec fn empty() -> Self;

    /// The mask of all the category's flags.
    spec fn full() -> Self;

    /// The flags of both masks together.
    spec fn join(self, other: Self) -> Self;

    /// The mask without any flag.
    fn none() -> (r: Self)
        ensures
            r == Self::empty(),
    ;

    /// The mask of all flags.
    fn all() -> (r: Self)
        ensures
            r == Self::full(),
    ;

    /// Whether the mask holds a flag that reads.
    fn is_read(&self) -> (r: bool)
        ensures
            r == self.reads(),
    ;

    /// Whether the mask holds a flag that writes.
    fn is_write(&self) -> (r: bool)
        ensures
            r == self.writes(),
    ;

    /// Whether the mask is exactly one of the category's flags.
    fn is_single(&self) -> (r: bool)
        ensures
            r == self.single(),
    ;

    /// The stages that may perform the access of a mask of one flag.
    fn supported_pipeline_stages(&self) -> (r: PipelineStage)
        requires
            self.single(),
        ensures
            r == self.stages(),
    ;

    /// The flags of both masks together.
    fn union(self, other: Self) -> (r: Self)
        ensures
            r == self.join(other),
    ;

    /// The empty mask neither reads nor writes, and joining a mask with
    /// itself changes nothing.
    proof fn lemma_masks(self)
        ensures
            !Self::empty().reads(),
            !Self::empty().writes(),
            self.join(self) == self,
    ;
}

/// The access reads and does not write.
pub open spec fn read_only<A: Access>(access: A) -> bool {
    access.reads() && !access.writes()
}

/// Whether the access reads and does not write.
pub fn is_read_only<A: Access>(access: A) -> (r: bool)
    ensures
        r == read_only(access),
{
    access.is_read() && !access.is_write()
}

/// Access mask of a buffer, in the bits of gfx-hal's `buffer::Access`.
#[derive(Clone, Copy, Debug, PartialEq, Eq, Hash, Structural)]
pub struct BufferAccess {
    pub bits: u32,
}

impl BufferAccess {
    /// Read of commands for indirect execution.
    pub const INDIRECT_COMMAND_READ: u32 = 0x1;

    /// Read of index values for indexed draws.
    pub const INDEX_BUFFER_READ: u32 = 0x2;

    /// Read of vertices for draws.
    pub const VERTEX_BUFFER_READ: u32 = 0x4;

    /// Read of a constant (uniform) buffer.
    pub const CONSTANT_BUFFER_READ: u32 = 0x8;

    /// Read from a shader.
    pub const SHADER_READ: u32 = 0x20;

    /// Write from a shader.
    pub const SHADER_WRITE: u32 = 0x40;

    /// Read in a copy operation.
    pub const TRANSFER_READ: u32 = 0x800;

    /// Write in a copy operation.
    pub const TRANSFER_WRITE: u32 = 0x1000;

    /// Read by the host.
    pub const HOST_READ: u32 = 0x2000;

    /// Write by the host.
    pub const HOST_WRITE: u32 = 0x4000;

    /// Read by a non-specific entity.
    pub const MEMORY_READ: u32 = 0x8000;

    /// Write by a non-specific entity.
    pub const MEMORY_WRITE: u32 = 0x10000;

    /// All flags that read.
    pub const READS: u32 = 0xa82f;

    /// All flags that write.
    pub const WRITES: u32 = 0x15040;

    /// All flags.
    pub const ALL: u32 = 0x1f86f;

    /// The mask with the given bits.
    pub fn from_bits(bits: u32) -> (r: Self)
        ensures
            r.bits == bits,
    {
        BufferAccess { bits }
    }

    /// Whether every flag of `flags` is in this mask.
    pub fn contains(&self, flags: u32) -> (r: bool)
        ensures
            r == (self.bits & flags == flags),
    {
        self.bits & flags == flags
    }

    /// The three group masks are the unions of the flags they name.
    pub proof fn lemma_groups()
        ensures
            Self::READS == Self::INDIRECT_COMMAND_READ | Self::INDEX_BUFFER_READ
                | Self::VERTEX_BUFFER_READ | Self::CONSTANT_BUFFER_READ | Self::SHADER_READ
                | Self::TRANSFER_READ | Self::HOST_READ | Self::MEMORY_READ,
            Self::WRITES == Self::SHADER_WRITE | Self::TRANSFER_WRITE | Self::HOST_WRITE
                | Self::MEMORY_WRITE,
            Self::ALL == Self::READS | Self::WRITES,
    {
        assert(0xa82fu32 == 0x1u32 | 0x2u32 | 0x4u32 | 0x8u32 | 0x20u32 | 0x800u32 | 0x2000u32
            | 0x8000u32 && 0x15040u32 == 0x40u32 | 0x1000u32 | 0x4000u32 | 0x10000u32 && 0x1f86fu32
            == 0xa82fu32 | 0x15040u32) by (bit_vector);
    }
}

impl Access for BufferAccess {
    open spec fn reads(self) -> bool {
        self.bits & Self::READS != 0
    }

    open spec fn writes(self) -> bool {
        self.bits & Self::WRITES != 0
    }

    open spec fn single(self) -> bool {
        ||| self.bits == Self::INDIRECT_COMMAND_READ
        ||| self.bits == Self::INDEX_BUFFER_READ
        ||| self.bits == Self::VERTEX_BUFFER_READ
        ||| self.bits == Self::CONSTANT_BUFFER_READ
        ||| self.bits == Self::SHADER_READ
        ||| self.bits == Self::SHADER_WRITE
        ||| self.bits == Self::TRANSFER_READ
        ||| self.bits == Self::TRANSFER_WRITE
        ||| self.bits == Self::HOST_READ
        ||| self.bits == Self::HOST_WRITE
        ||| self.bits == Self::MEMORY_READ
        ||| self.bits == Self::MEMORY_WRITE
    }

    open spec fn stages(self) -> PipelineStage {
        if self.bits == Self::TRANSFER_READ || self.bits == Self::TRANSFER_WRITE {
            PipelineStage { bits: PipelineStage::TRANSFER }
        } else if self.bits == Self::INDEX_BUFFER_READ || self.bits == Self::VERTEX_BUFFER_READ {
            PipelineStage { bits: PipelineStage::VERTEX_INPUT }
        } else if self.bits == Self::INDIRECT_COMMAND_READ {
            PipelineStage { bits: PipelineStage::DRAW_INDIRECT }
        } else if self.bits == Self::CONSTANT_BUFFER_READ || self.bits == Self::SHADER_READ
            || self.bits == Self::SHADER_WRITE {
            PipelineStage { bits: PipelineStage::SHADERS }
        } else if self.bits == Self::HOST_READ || self.bits == Self::HOST_WRITE {
            PipelineStage { bits: PipelineStage::HOST }
        } else {
            PipelineStage { bits: 0 }
        }
    }

    open spec fn empty() -> Self {
        BufferAccess { bits: 0 }
    }

    open spec fn full() -> Self {
        BufferAccess { bits: Self::ALL }
    }

    open spec fn join(self, other: Self) -> Self {
        BufferAccess { bits: self.bits | other.bits }
    }

    fn none() -> (r: Self) {
        BufferAccess { bits: 0 }
    }

    fn all() -> (r: Self) {
        BufferAccess { bits: Self::ALL }
    }

    fn is_read(&self) -> (r: bool) {
        let b = self.bits;
        assert((b & 0x800 == 0x800 || b & 0x20 == 0x20 || b & 0x2000 == 0x2000 || b & 0x8000
            == 0x8000 || b & 0x2 == 0x2 || b & 0x4 == 0x4 || b & 0x1 == 0x1 || b & 0x8 == 0x8) == (b
            & 0xa82f != 0)) by (bit_vector);
        self.contains(Self::TRANSFER_READ) || self.contains(Self::SHADER_READ) || self.contains(
            Self::HOST_READ,
        ) || self.contains(Self::MEMORY_READ) || self.contains(Self::INDEX_BUFFER_READ)
            || self.contains(Self::VERTEX_BUFFER_READ) || self.contains(
            Self::INDIRECT_COMMAND_READ,
        ) || self.contains(Self::CONSTANT_BUFFER_READ)
    }

    fn is_write(&self) -> (r: bool) {
        let b = self.bits;
        assert((b & 0x1000 == 0x1000 || b & 0x40 == 0x40 || b & 0x4000 == 0x4000 || b & 0x10000
            == 0x10000) == (b & 0x15040 != 0)) by (bit_vector);
        self.contains(Self::TRANSFER_WRITE) || self.contains(Self::SHADER_WRITE) || self.contains(
            Self::HOST_WRITE,
        ) || self.contains(Self::MEMORY_WRITE)
    }

    fn is_single(&self) -> (r: bool) {
        let b = self.bits;
        b == Self::INDIRECT_COMMAND_READ || b == Self::INDEX_BUFFER_READ || b
            == Self::VERTEX_BUFFER_READ || b == Self::CONSTANT_BUFFER_READ || b == Self::SHADER_READ
            || b == Self::SHADER_WRITE || b == Self::TRANSFER_READ || b == Self::TRANSFER_WRITE || b
            == Self::HOST_READ || b == Self::HOST_WRITE || b == Self::MEMORY_READ || b
            == Self::MEMORY_WRITE
    }

    fn supported_pipeline_stages(&self) -> (r: PipelineStage) {
        proof {
            PipelineStage::lemma_groups();
        }
        let b = self.bits;
        if b == Self::TRANSFER_READ || b == Self::TRANSFER_WRITE {
            PipelineStage::from_bits(PipelineStage::TRANSFER)
        } else if b == Self::INDEX_BUFFER_READ || b == Self::VERTEX_BUFFER_READ {
            PipelineStage::from_bits(PipelineStage::VERTEX_INPUT)
        } else if b == Self::INDIRECT_COMMAND_READ {
            PipelineStage::from_bits(PipelineStage::DRAW_INDIRECT)
        } else if b == Self::CONSTANT_BUFFER_READ || b == Self::SHADER_READ || b
            == Self::SHADER_WRITE {
            PipelineStage::from_bits(
                PipelineStage::VERTEX_SHADER | PipelineStage::GEOMETRY_SHADER
                    | PipelineStage::FRAGMENT_SHADER | PipelineStage::COMPUTE_SHADER,
            )
        } else if b == Self::HOST_READ || b == Self::HOST_WRITE {
            PipelineStage::from_bits(PipelineStage::HOST)
        } else {
            PipelineStage::empty()
        }
    }

    fn union(self, other: Self) -> (r: Self) {
        BufferAccess { bits: self.bits | other.bits }
    }

    proof fn lemma_masks(self) {
        let b = self.bits;
        assert(0u32 & 0xa82f == 0 && 0u32 & 0x15040 == 0 && b | b == b) by (bit_vector);
    }
}

/// Access mask of an image, in the bits of gfx-hal's `image::Access`.
#[derive(Clone, Copy, Debug, PartialEq, Eq, Hash, Structural)]
pub struct ImageAccess {
    pub bits: u32,
}

impl ImageAccess {
    /// Read of an input attachment in a fragment shader.
    pub const INPUT_ATTACHMENT_READ: u32 = 0x10;

    /// Read from a shader.
    pub const SHADER_READ: u32 = 0x20;

    /// Write from a shader.
    pub const SHADER_WRITE: u32 = 0x40;

    /// Read of a color attachment.
    pub const COLOR_ATTACHMENT_READ: u32 = 0x80;

    /// Write of a color attachment.
    pub const COLOR_ATTACHMENT_WRITE: u32 = 0x100;

    /// Read of a depth or stencil attachment.
    pub const DEPTH_STENCIL_ATTACHMENT_READ: u32 = 0x200;

    /// Write of a depth or stencil attachment.
    pub const DEPTH_STENCIL_ATTACHMENT_WRITE: u32 = 0x400;

    /// Read in a copy operation.
    pub const TRANSFER_READ: u32 = 0x800;

    /// Write in a copy operation.
    pub const TRANSFER_WRITE: u32 = 0x1000;

    /// Read by the host.
    pub const HOST_READ: u32 = 0x2000;

    /// Write by the host.
    pub const HOST_WRITE: u32 = 0x4000;

    /// Read by a non-specific entity.
    pub const MEMORY_READ: u32 = 0x8000;

    /// Write by a non-specific entity.
    pub const MEMORY_WRITE: u32 = 0x10000;

    /// All flags that read.
    pub const READS: u32 = 0xaab0;

    /// All flags that write.
    pub const WRITES: u32 = 0x15540;

    /// All flags.
    pub const ALL: u32 = 0x1fff0;

    /// The mask with the given bits.
    pub fn from_bits(bits: u32) -> (r: Self)
        ensures
            r.bits == bits,
    {
        ImageAccess { bits }
    }

    /// Whether every flag of `flags` is in this mask.
    pub fn contains(&self, flags: u32) -> (r: bool)
        ensures
            r == (self.bits & flags == flags),
    {
        self.bits & flags == flags
    }

    /// The three group masks are the unions of the flags they name.
    pub proof fn lemma_groups()
        ensures
            Self::READS == Self::INPUT_ATTACHMENT_READ | Self::SHADER_READ
                | Self::COLOR_ATTACHMENT_READ | Self::DEPTH_STENCIL_ATTACHMENT_READ
                | Self::TRANSFER_READ | Self::HOST_READ | Self::MEMORY_READ,
            Self::WRITES == Self::SHADER_WRITE | Self::COLOR_ATTACHMENT_WRITE
                | Self::DEPTH_STENCIL_ATTACHMENT_WRITE | Self::TRANSFER_WRITE | Self::HOST_WRITE
                | Self::MEMORY_WRITE,
            Self::ALL == Self::READS | Self::WRITES,
    {
        assert(0xaab0u32 == 0x10u32 | 0x20u32 | 0x80u32 | 0x200u32 | 0x800u32 | 0x2000u32
            | 0x8000u32 && 0x15540u32 == 0x40u32 | 0x100u32 | 0x400u32 | 0x1000u32 | 0x4000u32
            | 0x10000u32 && 0x1fff0u32 == 0xaab0u32 | 0x15540u32) by (bit_vector);
    }
}

impl Access for ImageAccess {
    open spec fn reads(self) -> bool {
        self.bits & Self::READS != 0
    }

    open spec fn writes(self) -> bool {
        self.bits & Self::WRITES != 0
    }

    open spec fn single(self) -> bool {
        ||| self.bits == Self::INPUT_ATTACHMENT_READ
        ||| self.bits == Self::SHADER_READ
        ||| self.bits == Self::SHADER_WRITE
        ||| self.bits == Self::COLOR_ATTACHMENT_READ
        ||| self.bits == Self::COLOR_ATTACHMENT_WRITE
        ||| self.bits == Self::DEPTH_STENCIL_ATTACHMENT_READ
        ||| self.bits == Self::DEPTH_STENCIL_ATTACHMENT_WRITE
        ||| self.bits == Self::TRANSFER_READ
        ||| self.bits == Self::TRANSFER_WRITE
        ||| self.bits == Self::HOST_READ
        ||| self.bits == Self::HOST_WRITE
        ||| self.bits == Self::MEMORY_READ
        ||| self.bits == Self::MEMORY_WRITE
    }

    open spec fn stages(self) -> PipelineStage {
        if self.bits == Self::COLOR_ATTACHMENT_READ || self.bits == Self::COLOR_ATTACHMENT_WRITE {
            PipelineStage { bits: PipelineStage::COLOR_ATTACHMENT_OUTPUT }
        } else if self.bits == Self::TRANSFER_READ || self.bits == Self::TRANSFER_WRITE {
            PipelineStage { bits: PipelineStage::TRANSFER }
        } else if self.bits == Self::SHADER_READ || self.bits == Self::SHADER_WRITE {
            PipelineStage { bits: PipelineStage::SHADERS }
        } else if self.bits == Self::DEPTH_STENCIL_ATTACHMENT_READ || self.bits
            == Self::DEPTH_STENCIL_ATTACHMENT_WRITE {
            PipelineStage { bits: PipelineStage::FRAGMENT_TESTS }
        } else if self.bits == Self::HOST_READ || self.bits == Self::HOST_WRITE {
            PipelineStage { bits: PipelineStage::HOST }
        } else if self.bits == Self::INPUT_ATTACHMENT_READ {
            PipelineStage { bits: PipelineStage::FRAGMENT_SHADER }
        } else {
            PipelineStage { bits: 0 }
        }
    }

    open spec fn empty() -> Self {
        ImageAccess { bits: 0 }
    }

    open spec fn full() -> Self {
        ImageAccess { bits: Self::ALL }
    }

    open spec fn join(self, other: Self) -> Self {
        ImageAccess { bits: self.bits | other.bits }
    }

    fn none() -> (r: Self) {
        ImageAccess { bits: 0 }
    }

    fn all() -> (r: Self) {
        ImageAccess { bits: Self::ALL }
    }

    fn is_read(&self) -> (r: bool) {
        let b = self.bits;
        assert((b & 0x80 == 0x80 || b & 0x200 == 0x200 || b & 0x800 == 0x800 || b & 0x20 == 0x20
            || b & 0x2000 == 0x2000 || b & 0x8000 == 0x8000 || b & 0x10 == 0x10) == (b & 0xaab0
            != 0)) by (bit_vector);
        self.contains(Self::COLOR_ATTACHMENT_READ) || self.contains(
            Self::DEPTH_STENCIL_ATTACHMENT_READ,
        ) || self.contains(Self::TRANSFER_READ) || self.contains(Self::SHADER_READ)
            || self.contains(Self::HOST_READ) || self.contains(Self::MEMORY_READ) || self.contains(
            Self::INPUT_ATTACHMENT_READ,
        )
    }

    fn is_write(&self) -> (r: bool) {
        let b = self.bits;
        assert((b & 0x100 == 0x100 || b & 0x400 == 0x400 || b & 0x1000 == 0x1000 || b & 0x40
            == 0x40 || b & 0x4000 == 0x4000 || b & 0x10000 == 0x10000) == (b & 0x15540 != 0))
            by (bit_vector);
        self.contains(Self::COLOR_ATTACHMENT_WRITE) || self.contains(
            Self::DEPTH_STENCIL_ATTACHMENT_WRITE,
        ) || self.contains(Self::TRANSFER_WRITE) || self.contains(Self::SHADER_WRITE)
            || self.contains(Self::HOST_WRITE) || self.contains(Self::MEMORY_WRITE)
    }

    fn is_single(&self) -> (r: bool) {
        let b = self.bits;
        b == Self::INPUT_ATTACHMENT_READ || b == Self::SHADER_READ || b == Self::SHADER_WRITE || b
            == Self::COLOR_ATTACHMENT_READ || b == Self::COLOR_ATTACHMENT_WRITE || b
            == Self::DEPTH_STENCIL_ATTACHMENT_READ || b == Self::DEPTH_STENCIL_ATTACHMENT_WRITE || b
            == Self::TRANSFER_READ || b == Self::TRANSFER_WRITE || b == Self::HOST_READ || b
            == Self::HOST_WRITE || b == Self::MEMORY_READ || b == Self::MEMORY_WRITE
    }

    fn supported_pipeline_stages(&self) -> (r: PipelineStage) {
        proof {
            PipelineStage::lemma_groups();
        }
        let b = self.bits;
        if b == Self::COLOR_ATTACHMENT_READ || b == Self::COLOR_ATTACHMENT_WRITE {
            PipelineStage::from_bits(PipelineStage::COLOR_ATTACHMENT_OUTPUT)
        } else if b == Self::TRANSFER_READ || b == Self::TRANSFER_WRITE {
            PipelineStage::from_bits(PipelineStage::TRANSFER)
        } else if b == Self::SHADER_READ || b == Self::SHADER_WRITE {
            PipelineStage::from_bits(
                PipelineStage::VERTEX_SHADER | PipelineStage::GEOMETRY_SHADER
                    | PipelineStage::FRAGMENT_SHADER | PipelineStage::COMPUTE_SHADER,
            )
        } else if b == Self::DEPTH_STENCIL_ATTACHMENT_READ || b
            == Self::DEPTH_STENCIL_ATTACHMENT_WRITE {
            PipelineStage::from_bits(
                PipelineStage::EARLY_FRAGMENT_TESTS | PipelineStage::LATE_FRAGMENT_TESTS,
            )
        } else if b == Self::HOST_READ || b == Self::HOST_WRITE {
            PipelineStage::from_bits(PipelineStage::HOST)
        } else if b == Self::INPUT_ATTACHMENT_READ {
            PipelineStage::from_bits(PipelineStage::FRAGMENT_SHADER)
        } else {
            PipelineStage::empty()
        }
    }

    fn union(self, other: Self) -> (r: Self) {
        ImageAccess { bits: self.bits | other.bits }
    }

    proof fn lemma_masks(self) {
        let b = self.bits;
        assert(0u32 & 0xaab0 == 0 && 0u32 & 0x15540 == 0 && b | b == b) by (bit_vector);
    }
}

} // verus!
