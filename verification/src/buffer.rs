//! Chains of buffers.

use vstd::prelude::*;
use crate::chain::Chain;
use crate::link::{ChainId, Link};
use crate::state::BufferState;
use crate::usage::BufferUsage;

verus! {

/// Identifier of a buffer chain.
pub type BufferChainId = ChainId<BufferState>;

/// Link of a pass to a buffer chain.
pub type BufferLink = Link<BufferState, BufferUsage>;

/// Chain of a buffer. A buffer has no initialization.
pub type BufferChain<S, W> = Chain<BufferState, BufferUsage, (), S, W>;

} // verus!
