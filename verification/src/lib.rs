//! Two bump-style allocators that hand out raw address ranges from a fixed,
//! pre-reserved region of memory.
//!
//! - [`early::EarlyAllocator`] grows a byte region forward and a page region
//!   backward from opposite ends of one memory block.
//! - [`pool::LabByteAllocator`] replays a fixed allocation pattern: growing
//!   "pool" and "items" bookkeeping areas plus an alternating two-directional
//!   data region, sized by the growth function [`growth::calc`].
//!
//! Both allocators work on plain `usize` addresses; turning an address into a
//! pointer is the caller's business.

use vstd::prelude::*;

pub mod early;
pub mod growth;
pub mod pool;

verus! {

/// Errors surfaced by the allocators.
#[derive(Clone, Copy, Debug, PartialEq, Eq, Structural)]
pub enum AllocError {
    /// The requested range does not fit in the space available between the
    /// relevant cursors.
    NoMemory,
    /// The operation is deliberately not provided by this allocator.
    Unsupported,
}

} // verus!
