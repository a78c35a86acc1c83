//! Control plane of the cascaded all-pass filter bank.
//!
//! Up to [`MAX_FILTER_STAGES`] two-pole all-pass stages run in series; a
//! parameter chooses how many are active. Each active stage's center
//! frequency derives from the base frequency and a spread: stage index `i`
//! is first normalized to a signed proportion of the cascade, then either
//! scales the frequency by `2^(spread * proportion)` (octave spread) or
//! offsets it linearly by the octave-equivalent excursion. The exponent
//! and proportion are exact rationals and are computed here; the biquad
//! coefficients themselves are transcendental sample arithmetic and stay
//! with the host harness, clamped to the bounds this module states.

use vstd::prelude::*;

use crate::gate::{RecomputeGate, MAX_AUTOMATION_STEP_SIZE};

verus! {

/// How many all-pass stages can run in series at most; the stage-count
/// parameter decides how many of them are active.
pub const MAX_FILTER_STAGES: usize = 512;

/// The lowest center frequency a stage may be given, in hertz; the
/// frequency parameter's floor, kept away from zero for stability.
pub const MIN_FILTER_FREQUENCY_HZ: u32 = 5;

/// How the spread distributes stage frequencies around the base frequency.
#[derive(Clone, Copy, PartialEq, Eq, Structural, Debug)]
pub enum SpreadStyle {
    /// Stage frequencies are the base frequency times a power of two: the
    /// musical distribution.
    Octaves,
    /// Stage frequencies are offset linearly, covering the same range as
    /// the octave spread's extremes.
    Linear,
}

/// The numerator of the signed proportion `(2 * stage_idx - num_stages) /
/// num_stages` that places a stage inside the cascade.
pub open spec fn proportion_num(stage_idx: int, num_stages: int) -> int {
    2 * stage_idx - num_stages
}

/// The numerator of the octave-spread exponent `spread * proportion`,
/// with the spread given in hundredths of an octave; the denominator is
/// `100 * num_stages`.
pub open spec fn octave_exponent_num(spread_centi: int, stage_idx: int, num_stages: int) -> int {
    spread_centi * proportion_num(stage_idx, num_stages)
}

/// The stage index normalized to the signed range of the cascade, as the
/// exact rational `proportion.0 / proportion.1`: the first stage sits at
/// the lower end, later stages approach (and never reach) the upper end.
pub fn stage_proportion(stage_idx: usize, num_stages: usize) -> (proportion: (i32, i32))
    requires
        1 <= num_stages <= MAX_FILTER_STAGES,
        stage_idx < num_stages,
    ensures
        proportion.1 == num_stages,
        proportion.0 == proportion_num(stage_idx as int, num_stages as int),
        -proportion.1 <= proportion.0 < proportion.1,
{
    (2 * (stage_idx as i32) - (num_stages as i32), num_stages as i32)
}

/// The octave-spread exponent for one stage, as the exact rational
/// `exponent.0 / exponent.1`: the stage's frequency is the base frequency
/// times two to this power. With a spread of zero the exponent is zero
/// for every stage, so all stages share one set of coefficients.
pub fn octave_spread_exponent(spread_centi: i32, stage_idx: usize, num_stages: usize) -> (exponent: (
    i64,
    i64,
))
    requires
        -500 <= spread_centi <= 500,
        1 <= num_stages <= MAX_FILTER_STAGES,
        stage_idx < num_stages,
    ensures
        exponent.0 == octave_exponent_num(spread_centi as int, stage_idx as int, num_stages as int),
        exponent.1 == 100 * num_stages,
        spread_centi == 0 ==> exponent.0 == 0,
        -600000 <= exponent.0 <= 600000,
        100 <= exponent.1 <= 51200,
{
    let prop_num: i64 = 2 * (stage_idx as i64) - (num_stages as i64);
    proof {
        assert((spread_centi as i64) * prop_num <= 600000 && (spread_centi as i64) * prop_num
            >= -600000) by (nonlinear_arith)
            requires
                -500 <= spread_centi <= 500,
                -1024 <= prop_num <= 1024,
        ;
        assert(spread_centi == 0 ==> (spread_centi as i64) * prop_num == 0) by (nonlinear_arith);
    }
    ((spread_centi as i64) * prop_num, 100 * (num_stages as i64))
}

/// The ceiling every stage frequency is clamped to, as the exact rational
/// `bound.0 / bound.1` in hertz: the sample rate divided by 2.05, kept
/// under the Nyquist frequency to avoid instability there.
pub fn max_frequency_bound(sample_rate_hz: u32) -> (bound: (u64, u64))
    ensures
        bound.0 == 20 * sample_rate_hz,
        bound.1 == 41,
{
    (20 * (sample_rate_hz as u64), 41)
}

/// Whether the filter cascade can serve a host bus arrangement: the stage
/// arithmetic computes both channels of a stereo pair at once, so exactly
/// two inputs and two outputs are supported.
pub fn accepts_bus_layout(num_inputs: u32, num_outputs: u32) -> (ok: bool)
    ensures
        ok == (num_inputs == num_outputs && num_inputs == 2),
{
    num_inputs == num_outputs && num_inputs == 2
}

/// What one sample's cascade bookkeeping decided: whether to recompute
/// coefficients, and whether to zero every active stage's delay-line
/// state while doing so.
#[derive(Clone, Copy, PartialEq, Eq, Structural, Debug)]
pub struct UpdatePlan {
    /// Recompute the coefficients of every active stage before this
    /// sample is filtered.
    pub recompute: bool,
    /// Also zero the delay-line state of every active stage: set exactly
    /// on a discrete topology change, to suppress clicks.
    pub reset_state: bool,
}

/// Per-sample decision logic of the cascade: wraps the recompute gate and
/// ties state resets to topology changes.
pub struct CascadeControl {
    gate: RecomputeGate,
}

impl CascadeControl {
    /// The countdown of the wrapped recompute gate.
    pub closed spec fn countdown(self) -> int {
        self.gate.countdown()
    }

    /// A fresh control whose gate is due immediately.
    pub fn new() -> (control: CascadeControl)
        ensures
            control.countdown() == 1,
    {
        CascadeControl { gate: RecomputeGate::new() }
    }

    /// Decide what this sample's cascade update must do. Coefficients are
    /// recomputed on any topology change and otherwise at most once per
    /// `smoothing_interval` samples while a parameter still smooths; the
    /// delay-line state is zeroed exactly on topology changes, where the
    /// coefficient jump cannot be interpolated.
    pub fn plan_sample(
        &mut self,
        topology_dirty: bool,
        any_smoothing: bool,
        smoothing_interval: u32,
    ) -> (plan: UpdatePlan)
        requires
            smoothing_interval <= MAX_AUTOMATION_STEP_SIZE,
        ensures
            plan.recompute == old(self).gate_fires(topology_dirty, any_smoothing),
            plan.reset_state == topology_dirty,
            plan.reset_state ==> plan.recompute,
            plan.recompute ==> final(self).countdown() == if smoothing_interval == 0 {
                1int
            } else {
                smoothing_interval as int
            },
            !plan.recompute ==> final(self).countdown() == if old(self).countdown() > i32::MIN {
                old(self).countdown() - 1
            } else {
                i32::MIN as int
            },
    {
        let recompute = self.gate.should_recompute(
            topology_dirty,
            any_smoothing,
            smoothing_interval,
        );
        UpdatePlan { recompute, reset_state: topology_dirty }
    }

    /// Whether the wrapped gate fires for these observations: always on a
    /// topology change, and on an expired countdown while any driving
    /// parameter is still smoothing.
    pub open spec fn gate_fires(self, topology_dirty: bool, any_smoothing: bool) -> bool {
        topology_dirty || (any_smoothing && self.countdown() <= 1)
    }
}

/// Law: a spread of zero gives every stage the exponent zero, so all
/// stages derive identical coefficients from the same base frequency.
pub proof fn law_zero_spread_uniform_stages(num_stages: int)
    ensures
        forall|i: int| #[trigger] octave_exponent_num(0, i, num_stages) == 0,
{
}

/// Law: a discrete topology change — a new stage count or spread style —
/// makes the very next per-sample decision recompute the coefficients and
/// zero every active stage's delay-line state, whatever the smoothing
/// countdown holds. This is the path that keeps such a change from
/// carrying stale filter state into the new topology.
pub proof fn law_topology_change_forces_reset(control: CascadeControl, any_smoothing: bool)
    ensures
        control.gate_fires(true, any_smoothing),
{
}

} // verus!
