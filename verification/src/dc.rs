//! The DC policy of the spectral engine's gain stage.
//!
//! A Hann window smears the DC component into the first few bins, which
//! carry little meaning after per-bin compression and only eat headroom.
//! Exactly one of two policies applies to every block: with the DC filter
//! enabled, every bin below the first non-DC index is cleared outright;
//! with it disabled, those bins are instead rescaled by the inverse of the
//! user's output gain so that makeup gain cannot inflate them. The rescale
//! is sample arithmetic and stays with the host harness; the clearing is
//! exact and proved here.

use vstd::prelude::*;

verus! {

/// One complex frequency-domain bin, carried as the bit patterns of its
/// real and imaginary parts.
#[derive(Clone, Copy, PartialEq, Eq, Structural, Debug)]
pub struct BinPattern {
    /// Bit pattern of the real part.
    pub re: u32,
    /// Bit pattern of the imaginary part.
    pub im: u32,
}

/// The all-zero bin: both parts carry the bit pattern of zero.
pub open spec fn zero_bin() -> BinPattern {
    BinPattern { re: 0, im: 0 }
}

/// What the gain stage does to the bins below the first non-DC index.
#[derive(Clone, Copy, PartialEq, Eq, Structural, Debug)]
pub enum DcPolicy {
    /// DC filter enabled: clear the low bins to exactly zero.
    Zero,
    /// DC filter disabled: rescale the low bins by the inverse of the user
    /// output gain, cancelling the makeup gain applied downstream.
    CompensateMakeup,
}

/// The policy that applies to a block, decided once from the DC-filter
/// switch: exactly one of the two, never both.
pub fn dc_policy(dc_filter_enabled: bool) -> (policy: DcPolicy)
    ensures
        policy == if dc_filter_enabled {
            DcPolicy::Zero
        } else {
            DcPolicy::CompensateMakeup
        },
{
    if dc_filter_enabled {
        DcPolicy::Zero
    } else {
        DcPolicy::CompensateMakeup
    }
}

/// Clear every bin below `first_non_dc_bin` to exactly zero and leave all
/// others untouched. Under the `Zero` policy this runs once per channel
/// per hop, after the per-bin gain stage; the result holds whatever the
/// output gain is, which is why the gain is not even a parameter here.
pub fn zero_low_bins(bins: &mut Vec<BinPattern>, first_non_dc_bin: usize)
    requires
        first_non_dc_bin <= old(bins)@.len(),
    ensures
        final(bins)@.len() == old(bins)@.len(),
        forall|i: int| 0 <= i < first_non_dc_bin ==> final(bins)@[i] == zero_bin(),
        forall|i: int|
            first_non_dc_bin <= i < final(bins)@.len() ==> final(bins)@[i] == old(bins)@[i],
{
    let mut i: usize = 0;
    while i < first_non_dc_bin
        invariant
            i <= first_non_dc_bin,
            first_non_dc_bin <= bins@.len(),
            bins@.len() == old(bins)@.len(),
            forall|j: int| 0 <= j < i ==> bins@[j] == zero_bin(),
            forall|j: int| i <= j < bins@.len() ==> bins@[j] == old(bins)@[j],
        decreases first_non_dc_bin - i,
    {
        bins.set(i, BinPattern { re: 0, im: 0 });
        i = i + 1;
    }
}

} // verus!
