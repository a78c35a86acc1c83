//! The recompute gate: decides, once per processed sample, whether the DSP
//! coefficients must be recalculated.
//!
//! Recomputing coefficients means evaluating trigonometric and exponential
//! functions per filter stage, which is expensive. The throttle therefore fires
//! immediately on a discrete topology change, and otherwise at most once per
//! `smoothing_interval` samples while a driving parameter is still
//! interpolating toward its target.

use vstd::prelude::*;

verus! {

/// Smallest permitted coefficient-update interval, in samples.
pub const MIN_AUTOMATION_STEP_SIZE: u32 = 1;

/// Largest permitted coefficient-update interval, in samples.
pub const MAX_AUTOMATION_STEP_SIZE: u32 = 512;

/// Throttles coefficient recomputation while parameters are smoothing.
///
/// It holds a countdown that is armed to the configured interval each
/// time it fires and ticks down by one on every sample where it does not.
pub struct RecomputeGate {
    countdown: i32,
}

impl RecomputeGate {
    /// The current countdown value; an update is due when this is at most 1.
    pub closed spec fn countdown(self) -> int {
        self.countdown as int
    }

    /// Whether a call with these observations triggers an update: always on
    /// a topology change, and on an expired countdown while any driving
    /// parameter is still smoothing.
    pub open spec fn fires(self, topology_dirty: bool, any_smoothing: bool) -> bool {
        topology_dirty || (any_smoothing && self.countdown() <= 1)
    }

    /// A fresh throttle is due immediately: the first smoothed sample already
    /// triggers a recomputation.
    pub fn new() -> (gate: RecomputeGate)
        ensures
            gate.countdown() == 1,
    {
        RecomputeGate { countdown: 1 }
    }

    /// Decide whether coefficients must be recomputed for the current sample.
    ///
    /// On `true` the countdown is re-armed to `smoothing_interval` (an
    /// interval of zero is treated as one, so an update then stays due on
    /// every smoothed sample); on `false` it ticks down by one, saturating
    /// so that a long idle stretch cannot wrap it around.
    pub fn should_recompute(
        &mut self,
        topology_dirty: bool,
        any_smoothing: bool,
        smoothing_interval: u32,
    ) -> (recompute: bool)
        requires
            smoothing_interval <= MAX_AUTOMATION_STEP_SIZE,
        ensures
            recompute == old(self).fires(topology_dirty, any_smoothing),
            recompute ==> final(self).countdown() == if smoothing_interval == 0 {
                1int
            } else {
                smoothing_interval as int
            },
            !recompute ==> final(self).countdown() == if old(self).countdown() > i32::MIN {
                old(self).countdown() - 1
            } else {
                i32::MIN as int
            },
    {
        let recompute = topology_dirty || (any_smoothing && self.countdown <= 1);
        if recompute {
            self.countdown = if smoothing_interval == 0 {
                1
            } else {
                smoothing_interval as i32
            };
        } else if self.countdown > i32::MIN {
            self.countdown = self.countdown - 1;
        }
        recompute
    }
}

} // verus!
