//! Pipeline stage masks.

use vstd::prelude::*;

verus! {

/// A set of pipeline stages, one bit per stage.
///
/// The bits are those of gfx-hal's `pso::PipelineStage`, so that a mask can be
/// handed over by its bits.
#[derive(Clone, Copy, Debug, PartialEq, Eq, Hash, Structural)]
pub struct PipelineStage {
    pub bits: u32,
}

impl PipelineStage {
    /// Beginning of the command queue.
    pub const TOP_OF_PIPE: u32 = 0x1;

    /// Indirect data consumption.
    pub const DRAW_INDIRECT: u32 = 0x2;

    /// Vertex data consumption.
    pub const VERTEX_INPUT: u32 = 0x4;

    /// Vertex shader execution.
    pub const VERTEX_SHADER: u32 = 0x8;

    /// Hull shader execution.
    pub const HULL_SHADER: u32 = 0x10;

    /// Domain shader execution.
    pub const DOMAIN_SHADER: u32 = 0x20;

    /// Geometry shader execution.
    pub const GEOMETRY_SHADER: u32 = 0x40;

    /// Fragment shader execution.
    pub const FRAGMENT_SHADER: u32 = 0x80;

    /// Early depth and stencil test.
    pub const EARLY_FRAGMENT_TESTS: u32 = 0x100;

    /// Late depth and stencil test.
    pub const LATE_FRAGMENT_TESTS: u32 = 0x200;

    /// Final color value calculation.
    pub const COLOR_ATTACHMENT_OUTPUT: u32 = 0x400;

    /// Compute shader execution.
    pub const COMPUTE_SHADER: u32 = 0x800;

    /// Copy and transfer command execution.
    pub const TRANSFER: u32 = 0x1000;

    /// End of the command queue.
    pub const BOTTOM_OF_PIPE: u32 = 0x2000;

    /// Read and write access from the host.
    pub const HOST: u32 = 0x4000;

    /// Every shader stage that can touch a resource bound to a shader.
    pub const SHADERS: u32 = 0x8c8;

    /// Both depth and stencil test stages.
    pub const FRAGMENT_TESTS: u32 = 0x300;

    /// The stages of both masks together.
    pub open spec fn join(self, other: Self) -> Self {
        PipelineStage { bits: self.bits | other.bits }
    }

    /// The mask with the given bits.
    pub fn from_bits(bits: u32) -> (r: Self)
        ensures
            r.bits == bits,
    {
        PipelineStage { bits }
    }

    /// The mask without any stage.
    pub fn empty() -> (r: Self)
        ensures
            r.bits == 0,
    {
        PipelineStage { bits: 0 }
    }

    /// The stages of both masks together.
    pub fn union(self, other: Self) -> (r: Self)
        ensures
            r == self.join(other),
    {
        PipelineStage { bits: self.bits | other.bits }
    }

    /// Whether every stage of `other` is in this mask.
    pub fn contains(self, other: Self) -> (r: bool)
        ensures
            r == (self.bits & other.bits == other.bits),
    {
        self.bits & other.bits == other.bits
    }

    /// The two shader and test groups are the unions of their stages.
    pub proof fn lemma_groups()
        ensures
            Self::SHADERS == Self::VERTEX_SHADER | Self::GEOMETRY_SHADER | Self::FRAGMENT_SHADER
                | Self::COMPUTE_SHADER,
            Self::FRAGMENT_TESTS == Self::EARLY_FRAGMENT_TESTS | Self::LATE_FRAGMENT_TESTS,
    {
        assert(0x8c8u32 == 0x8u32 | 0x40u32 | 0x80u32 | 0x800u32) by (bit_vector);
        assert(0x300u32 == 0x100u32 | 0x200u32) by (bit_vector);
    }

    /// Joining a mask with itself changes nothing.
    pub proof fn lemma_join_self(self)
        ensures
            self.join(self) == self,
    {
        let b = self.bits;
        assert(b | b == b) by (bit_vector);
    }
}

} // verus!
