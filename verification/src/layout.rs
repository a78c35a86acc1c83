//! Window-size and overlap bookkeeping for the spectral processing engine.
//!
//! Window size and overlap factor are both powers of two inside fixed
//! bounds. Everything the engine derives from them is defined here: the hop
//! size between successive analysis frames, the latency the host must be
//! told about, the number of frequency bins, the index of the cached
//! transform plan for the current window order, the first bin above the DC
//! region, and the overlap-add gain compensation factor.

use vstd::arithmetic::div_mod::{
    lemma_div_is_ordered, lemma_div_is_ordered_by_denominator, lemma_div_multiples_vanish,
};
use vstd::arithmetic::power2::{
    lemma2_to64, lemma_pow2_adds, lemma_pow2_strictly_increases, lemma_pow2_subtracts, pow2,
};
use vstd::prelude::*;

verus! {

/// Smallest supported window-size order (a 64-sample window).
pub const MIN_WINDOW_ORDER: u32 = 6;

/// Default window-size order (a 4096-sample window).
pub const DEFAULT_WINDOW_ORDER: u32 = 12;

/// Largest supported window-size order (a 32768-sample window).
pub const MAX_WINDOW_ORDER: u32 = 15;

/// Largest supported window size in samples; buffers are reserved to this
/// capacity once, so the audio thread never reallocates.
pub const MAX_WINDOW_SIZE: usize = 32768;

/// Smallest supported overlap order (4 times overlap).
pub const MIN_OVERLAP_ORDER: u32 = 2;

/// Default overlap order (8 times overlap).
pub const DEFAULT_OVERLAP_ORDER: u32 = 3;

/// Largest supported overlap order (32 times overlap).
pub const MAX_OVERLAP_ORDER: u32 = 5;

/// How many forward+inverse transform plans the plan cache must hold: one
/// per supported window order, from `MIN_WINDOW_ORDER` to `MAX_WINDOW_ORDER`.
pub const NUM_PLAN_ORDERS: usize = 10;

/// Powers of two are monotone in the exponent.
proof fn lemma_pow2_le(a: nat, b: nat)
    requires
        a <= b,
    ensures
        pow2(a) <= pow2(b),
{
    if a < b {
        lemma_pow2_strictly_increases(a, b);
    }
}

/// Two to the power `n`, executable for the small exponents the engine uses.
pub fn pow2_exec(n: u32) -> (result: usize)
    requires
        n <= 15,
    ensures
        result == pow2(n as nat),
{
    let mut result: usize = 1;
    let mut i: u32 = 0;
    proof {
        lemma2_to64();
    }
    while i < n
        invariant
            i <= n,
            n <= 15,
            result == pow2(i as nat),
        decreases n - i,
    {
        proof {
            lemma_pow2_le(i as nat, 14);
            lemma2_to64();
        }
        result = result * 2;
        proof {
            assert(result == pow2((i + 1) as nat)) by {
                lemma_pow2_adds(i as nat, 1);
                lemma2_to64();
            }
        }
        i = i + 1;
    }
    result
}

/// One window-size / overlap configuration of the spectral engine.
#[derive(Clone, Copy, PartialEq, Eq, Structural)]
pub struct StftLayout {
    /// Window size as a power of two, in `MIN_WINDOW_ORDER..=MAX_WINDOW_ORDER`.
    pub window_order: u32,
    /// Overlap factor as a power of two, in `MIN_OVERLAP_ORDER..=MAX_OVERLAP_ORDER`.
    pub overlap_order: u32,
}

impl StftLayout {
    /// Both orders lie inside their declared bounds.
    pub open spec fn wf(self) -> bool {
        &&& MIN_WINDOW_ORDER <= self.window_order <= MAX_WINDOW_ORDER
        &&& MIN_OVERLAP_ORDER <= self.overlap_order <= MAX_OVERLAP_ORDER
    }

    /// The window size in samples.
    pub open spec fn window_size_spec(self) -> nat {
        pow2(self.window_order as nat)
    }

    /// The overlap factor: how many analysis frames cover each sample.
    pub open spec fn overlap_times_spec(self) -> nat {
        pow2(self.overlap_order as nat)
    }

    /// The hop size: samples advanced between successive analysis frames.
    pub open spec fn hop_size_spec(self) -> nat {
        self.window_size_spec() / self.overlap_times_spec()
    }

    /// The engine's processing latency in samples.
    pub open spec fn latency_spec(self) -> nat {
        (self.window_size_spec() - self.hop_size_spec()) as nat
    }

    /// The number of frequency bins a real transform of one window yields.
    pub open spec fn num_bins_spec(self) -> nat {
        self.window_size_spec() / 2 + 1
    }

    pub fn new(window_order: u32, overlap_order: u32) -> (layout: StftLayout)
        requires
            MIN_WINDOW_ORDER <= window_order <= MAX_WINDOW_ORDER,
            MIN_OVERLAP_ORDER <= overlap_order <= MAX_OVERLAP_ORDER,
        ensures
            layout.window_order == window_order,
            layout.overlap_order == overlap_order,
            layout.wf(),
    {
        StftLayout { window_order, overlap_order }
    }

    /// The window size in samples: two to the window order.
    pub fn window_size(&self) -> (size: usize)
        requires
            self.wf(),
        ensures
            size == self.window_size_spec(),
            64 <= size <= MAX_WINDOW_SIZE,
    {
        proof {
            lemma_pow2_le(6, self.window_order as nat);
            lemma_pow2_le(self.window_order as nat, 15);
            lemma2_to64();
        }
        pow2_exec(self.window_order)
    }

    /// The overlap factor: two to the overlap order.
    pub fn overlap_times(&self) -> (times: usize)
        requires
            self.wf(),
        ensures
            times == self.overlap_times_spec(),
            4 <= times <= 32,
    {
        proof {
            lemma_pow2_le(2, self.overlap_order as nat);
            lemma_pow2_le(self.overlap_order as nat, 5);
            lemma2_to64();
        }
        pow2_exec(self.overlap_order)
    }

    /// The hop size. It divides the window size exactly: `overlap_times`
    /// hops make up one window.
    pub fn hop_size(&self) -> (hop: usize)
        requires
            self.wf(),
        ensures
            hop == self.hop_size_spec(),
            hop * self.overlap_times_spec() == self.window_size_spec(),
            2 <= hop < self.window_size_spec(),
    {
        let window = self.window_size();
        let overlap = self.overlap_times();
        proof {
            let w = self.window_order as nat;
            let o = self.overlap_order as nat;
            lemma_pow2_subtracts(o, w);
            lemma_pow2_adds((w - o) as nat, o);
            lemma_pow2_le(1, (w - o) as nat);
            lemma_pow2_strictly_increases((w - o) as nat, w);
            lemma2_to64();
        }
        window / overlap
    }

    /// The latency in samples that must be reported to the host: one window
    /// minus one hop.
    pub fn latency_samples(&self) -> (latency: usize)
        requires
            self.wf(),
        ensures
            latency == self.latency_spec(),
            latency == self.window_size_spec() - self.hop_size_spec(),
            latency < MAX_WINDOW_SIZE,
    {
        let window = self.window_size();
        let hop = self.hop_size();
        window - hop
    }

    /// The number of frequency bins: half the window plus the shared
    /// DC/Nyquist endpoint bins.
    pub fn num_bins(&self) -> (bins: usize)
        requires
            self.wf(),
        ensures
            bins == self.num_bins_spec(),
            33 <= bins <= MAX_WINDOW_SIZE / 2 + 1,
    {
        let window = self.window_size();
        window / 2 + 1
    }

    /// Which slot of the transform plan cache serves this window order.
    pub fn plan_index(&self) -> (index: usize)
        requires
            self.wf(),
        ensures
            index == self.window_order - MIN_WINDOW_ORDER,
            index < NUM_PLAN_ORDERS,
    {
        (self.window_order - MIN_WINDOW_ORDER) as usize
    }

    /// The reciprocal of the overlap-add gain compensation factor, an exact
    /// integer: `window_size * (overlap_times / 4) * 3 / 2`. Input and
    /// output gain each apply the square root of its inverse, which keeps
    /// compressor thresholds independent of the window and overlap choice.
    /// The factor is valid because the overlap factor is always at least 4,
    /// where a squared Hann window sums to a constant.
    pub fn gain_compensation_recip(&self) -> (recip: u64)
        requires
            self.wf(),
        ensures
            8 * recip == 3 * self.window_size_spec() * self.overlap_times_spec(),
            recip >= 1,
    {
        let window = self.window_size();
        let overlap = self.overlap_times();
        let partial: u64 = 3 * (window as u64);
        proof {
            assert(partial * (overlap as u64) <= 98304 * 32) by (nonlinear_arith)
                requires
                    partial <= 98304,
                    overlap <= 32,
            ;
        }
        let product: u64 = partial * (overlap as u64);
        proof {
            let w = self.window_order as nat;
            let o = self.overlap_order as nat;
            lemma_pow2_adds(w, o);
            lemma_pow2_adds((w + o - 3) as nat, 3);
            lemma2_to64();
            assert(pow2(w + o) == pow2((w + o - 3) as nat) * 8);
            assert(product == 3 * (pow2(w) * pow2(o))) by (nonlinear_arith)
                requires
                    partial == 3 * pow2(w),
                    product == partial * pow2(o),
            ;
            assert(product == 8 * (3 * pow2((w + o - 3) as nat)));
            lemma_div_multiples_vanish(3 * pow2((w + o - 3) as nat) as int, 8);
            lemma_pow2_le(1, (w + o - 3) as nat);
            assert(3 * self.window_size_spec() * self.overlap_times_spec() == 3 * pow2(w + o))
                by (nonlinear_arith)
                requires
                    pow2(w) * pow2(o) == pow2(w + o),
                    self.window_size_spec() == pow2(w),
                    self.overlap_times_spec() == pow2(o),
            ;
        }
        product / 8
    }
}

/// The index of the first bin that lies entirely above the DC region
/// (everything below roughly 20 Hz), for a transform with `num_bins` bins at
/// the given sample rate. Bin `b` sits at frequency
/// `b * (sample_rate / 2) / num_bins`, so this is one past the largest bin
/// index whose frequency stays at or below 20 Hz.
pub fn first_non_dc_bin_index(sample_rate_hz: u32, num_bins: usize) -> (index: usize)
    requires
        sample_rate_hz >= 1,
        num_bins <= MAX_WINDOW_SIZE / 2 + 1,
    ensures
        index == 40 * num_bins / (sample_rate_hz as int) + 1,
        index >= 1,
        sample_rate_hz >= 42 && num_bins >= 33 ==> index <= num_bins,
{
    let scaled: u64 = 40 * (num_bins as u64);
    let index: u64 = scaled / (sample_rate_hz as u64);
    proof {
        if sample_rate_hz >= 42 && num_bins >= 33 {
            let b = num_bins as int;
            lemma_div_is_ordered_by_denominator(40 * b, 42, sample_rate_hz as int);
            lemma_div_is_ordered(40 * b, 42 * (b - 1), 42);
            lemma_div_multiples_vanish(b - 1, 42);
        }
    }
    (index as usize) + 1
}

/// Law: for every valid configuration the reported latency is exactly the
/// window size minus the hop size.
pub proof fn law_latency_is_window_minus_hop(layout: StftLayout)
    requires
        layout.wf(),
    ensures
        layout.latency_spec() == layout.window_size_spec() - layout.hop_size_spec(),
{
    lemma_pow2_subtracts(layout.overlap_order as nat, layout.window_order as nat);
    lemma_pow2_strictly_increases(
        (layout.window_order - layout.overlap_order) as nat,
        layout.window_order as nat,
    );
}

} // verus!
