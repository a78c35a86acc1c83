//! The audio backend boundary of the standalone host.
//!
//! A backend owns the machinery that exchanges audio with the outside
//! world. The engines themselves never call it; the host harness
//! implements this trait for each device layer it supports and drives the
//! engines with the blocks it yields. Samples cross the boundary as the
//! same opaque 32-bit patterns the rest of the crate moves around.

use vstd::prelude::*;

verus! {

/// An audio backend for the standalone host.
pub trait Backend {
    /// Exchange one block: `block` arrives holding the next input samples
    /// and leaves holding the processed output. Returns false once the
    /// stream has ended and processing should stop.
    fn process_block(&mut self, block: &mut Vec<u32>) -> bool;
}

} // verus!
