//! Per-block control of the spectral processing engine.
//!
//! Before any samples of a block are touched, the engine compares the
//! requested window/overlap configuration against what its buffers are
//! sized for. On a change it must regenerate the window coefficients,
//! resize every per-window buffer in place, select the cached transform
//! plan for the new order, and report the new latency to the host — all
//! before the first sample of that block is processed. The controller
//! below makes that decision and hands the block's derived quantities to
//! the processing stages in one plan.

use vstd::prelude::*;

use crate::dc::DcPolicy;
use crate::layout::{
    StftLayout, MAX_OVERLAP_ORDER, MAX_WINDOW_ORDER, MIN_OVERLAP_ORDER, MIN_WINDOW_ORDER,
    NUM_PLAN_ORDERS,
};
use crate::mixer::MixingStyle;

verus! {

/// Everything the processing stages need to know about one block, fixed
/// before its first sample is touched.
pub struct BlockPlan {
    /// The configuration this block runs under.
    pub layout: StftLayout,
    /// Whether the engine reconfigured for this block: true exactly when
    /// the window size or the hop size differs from the previous block's
    /// configuration, so buffers were resized or frame cadence changed and
    /// the per-window state was rebuilt.
    pub reconfigured: bool,
    /// Whether the latency below must be reported to the host before this
    /// block: exactly when the configuration changed, since the latency is
    /// one window minus one hop and so moves with either order.
    pub report_latency: bool,
    /// The engine latency in samples, window minus hop.
    pub latency_samples: usize,
    /// The window size in samples.
    pub window_size: usize,
    /// The overlap factor.
    pub overlap_times: usize,
    /// The hop size in samples.
    pub hop_size: usize,
    /// The number of frequency bins per transform.
    pub num_bins: usize,
    /// Which cached transform plan serves this window order.
    pub plan_index: usize,
    /// The index of the first bin above the DC region.
    pub first_non_dc_bin: usize,
    /// The reciprocal of the overlap-add gain compensation factor.
    pub gain_compensation_recip: u64,
    /// What the gain stage does to the bins below `first_non_dc_bin`.
    pub dc_policy: DcPolicy,
    /// How the delayed dry signal is mixed back in: always the linear
    /// curve, because dry and wet stay in phase by construction.
    pub mixing_style: MixingStyle,
}

/// Decides, once per block, whether the engine must reconfigure before
/// processing, and derives the block's constants.
pub struct SpectralController {
    /// The window size the engine's state is currently configured for;
    /// zero before the first block, which forces the initial configuration.
    configured_window: usize,
    /// The hop size the engine's state is currently configured for; zero
    /// before the first block.
    configured_hop: usize,
}

impl SpectralController {
    /// The window size the engine's state is currently configured for.
    pub closed spec fn configured_window_spec(self) -> int {
        self.configured_window as int
    }

    /// The hop size the engine's state is currently configured for.
    pub closed spec fn configured_hop_spec(self) -> int {
        self.configured_hop as int
    }

    /// A fresh controller: nothing is configured yet, so the first block
    /// always reconfigures and reports its latency.
    pub fn new() -> (controller: SpectralController)
        ensures
            controller.configured_window_spec() == 0,
            controller.configured_hop_spec() == 0,
    {
        SpectralController { configured_window: 0, configured_hop: 0 }
    }

    /// Fix one block's plan. The engine reconfigures exactly when the
    /// requested window size or hop size differs from the configured pair,
    /// and the latency — one window minus one hop, so sensitive to both
    /// orders — is (re)reported exactly then: never later than the first
    /// block that uses the new configuration.
    pub fn begin_block(
        &mut self,
        window_order: u32,
        overlap_order: u32,
        sample_rate_hz: u32,
        dc_filter_enabled: bool,
    ) -> (plan: BlockPlan)
        requires
            MIN_WINDOW_ORDER <= window_order <= MAX_WINDOW_ORDER,
            MIN_OVERLAP_ORDER <= overlap_order <= MAX_OVERLAP_ORDER,
            sample_rate_hz >= 1,
        ensures
            plan.layout.window_order == window_order,
            plan.layout.overlap_order == overlap_order,
            plan.layout.wf(),
            plan.window_size == plan.layout.window_size_spec(),
            plan.overlap_times == plan.layout.overlap_times_spec(),
            plan.hop_size == plan.layout.hop_size_spec(),
            plan.num_bins == plan.layout.num_bins_spec(),
            plan.hop_size * plan.overlap_times == plan.window_size,
            2 <= plan.hop_size < plan.window_size,
            plan.latency_samples == plan.layout.latency_spec(),
            plan.latency_samples == plan.window_size - plan.hop_size,
            plan.plan_index == window_order - MIN_WINDOW_ORDER && plan.plan_index
                < NUM_PLAN_ORDERS,
            plan.reconfigured == (old(self).configured_window_spec()
                != plan.layout.window_size_spec() || old(self).configured_hop_spec()
                != plan.layout.hop_size_spec()),
            plan.report_latency == plan.reconfigured,
            final(self).configured_window_spec() == plan.layout.window_size_spec(),
            final(self).configured_hop_spec() == plan.layout.hop_size_spec(),
            plan.first_non_dc_bin == 40 * (plan.layout.num_bins_spec() as int) / (sample_rate_hz as int)
                + 1,
            sample_rate_hz >= 42 ==> plan.first_non_dc_bin <= plan.num_bins,
            8 * plan.gain_compensation_recip == 3 * plan.layout.window_size_spec()
                * plan.layout.overlap_times_spec(),
            plan.dc_policy == (if dc_filter_enabled {
                DcPolicy::Zero
            } else {
                DcPolicy::CompensateMakeup
            }),
            plan.mixing_style == MixingStyle::Linear,
    {
        let layout = StftLayout::new(window_order, overlap_order);
        let window_size = layout.window_size();
        let hop_size = layout.hop_size();
        let num_bins = layout.num_bins();
        let reconfigured = self.configured_window != window_size || self.configured_hop
            != hop_size;
        self.configured_window = window_size;
        self.configured_hop = hop_size;
        BlockPlan {
            layout,
            reconfigured,
            report_latency: reconfigured,
            latency_samples: layout.latency_samples(),
            window_size,
            overlap_times: layout.overlap_times(),
            hop_size,
            num_bins,
            plan_index: layout.plan_index(),
            first_non_dc_bin: crate::layout::first_non_dc_bin_index(sample_rate_hz, num_bins),
            gain_compensation_recip: layout.gain_compensation_recip(),
            dc_policy: crate::dc::dc_policy(dc_filter_enabled),
            mixing_style: MixingStyle::Linear,
        }
    }
}

/// Whether the spectral engine can serve a host bus arrangement: any
/// consistent channel count works, and the single sidechain bus must
/// carry exactly as many channels as the main bus.
pub fn accepts_bus_layout(
    num_inputs: u32,
    num_outputs: u32,
    aux_input_busses: u32,
    aux_input_channels: u32,
) -> (ok: bool)
    ensures
        ok == (num_inputs == num_outputs && num_inputs > 0 && aux_input_busses == 1
            && aux_input_channels == num_inputs),
{
    num_inputs == num_outputs && num_inputs > 0 && aux_input_busses == 1 && aux_input_channels
        == num_inputs
}

/// The number of transform plans the cache is built with at
/// initialization. A cache whose plan count differs from the number of
/// supported window orders is a construction-time configuration fault:
/// initialization must abort rather than leave a window order without a
/// plan, so the host harness checks its cache length against this.
pub fn required_plan_count() -> (count: usize)
    ensures
        count == NUM_PLAN_ORDERS,
        count == MAX_WINDOW_ORDER - MIN_WINDOW_ORDER + 1,
{
    NUM_PLAN_ORDERS
}

} // verus!
