use dsp_core::dc::DcPolicy;
use dsp_core::mixer::MixingStyle;
use dsp_core::spectral::{accepts_bus_layout, required_plan_count, SpectralController};

#[test]
fn first_block_configures_and_reports_latency() {
    let mut controller = SpectralController::new();
    let plan = controller.begin_block(12, 3, 44100, false);
    assert!(plan.reconfigured);
    assert!(plan.report_latency);
    assert_eq!(plan.window_size, 4096);
    assert_eq!(plan.overlap_times, 8);
    assert_eq!(plan.hop_size, 512);
    assert_eq!(plan.latency_samples, 4096 - 512);
    assert_eq!(plan.num_bins, 2049);
    assert_eq!(plan.plan_index, 6);
    assert_eq!(plan.first_non_dc_bin, 2);
    assert_eq!(plan.gain_compensation_recip, 12288);
    assert_eq!(plan.dc_policy, DcPolicy::CompensateMakeup);
    assert_eq!(plan.mixing_style, MixingStyle::Linear);
}

#[test]
fn unchanged_window_does_not_reconfigure() {
    let mut controller = SpectralController::new();
    controller.begin_block(12, 3, 44100, true);
    let plan = controller.begin_block(12, 3, 44100, true);
    assert!(!plan.reconfigured);
    assert!(!plan.report_latency);
    assert_eq!(plan.dc_policy, DcPolicy::Zero);
}

#[test]
fn window_order_change_updates_latency_on_the_next_block() {
    let mut controller = SpectralController::new();
    let before = controller.begin_block(12, 2, 44100, false);
    assert_eq!(before.latency_samples, 4096 - 1024);
    // Dropping the order from 12 to 6 must re-report the latency as the
    // new window minus the new hop, on the very next block.
    let after = controller.begin_block(6, 2, 44100, false);
    assert!(after.reconfigured);
    assert!(after.report_latency);
    assert_eq!(after.latency_samples, 64 - 16);
}

#[test]
fn overlap_change_alone_also_reconfigures_and_reports_latency() {
    let mut controller = SpectralController::new();
    controller.begin_block(12, 2, 44100, false);
    // A new overlap keeps the window size but changes the hop, and with
    // it the frame cadence, the gain compensation and the latency: the
    // engine must rebuild its per-window state and tell the host.
    let plan = controller.begin_block(12, 4, 44100, false);
    assert!(plan.reconfigured);
    assert!(plan.report_latency);
    assert_eq!(plan.hop_size, 256);
    assert_eq!(plan.latency_samples, 4096 - 256);
    // With the pair unchanged afterwards, nothing is rebuilt or re-sent.
    let settled = controller.begin_block(12, 4, 44100, false);
    assert!(!settled.reconfigured);
    assert!(!settled.report_latency);
}

#[test]
fn sidechain_bus_must_match_the_main_bus() {
    assert!(accepts_bus_layout(2, 2, 1, 2));
    assert!(accepts_bus_layout(1, 1, 1, 1));
    assert!(accepts_bus_layout(6, 6, 1, 6));
    assert!(!accepts_bus_layout(2, 2, 1, 1));
    assert!(!accepts_bus_layout(2, 2, 0, 2));
    assert!(!accepts_bus_layout(2, 1, 1, 2));
    assert!(!accepts_bus_layout(0, 0, 1, 0));
}

#[test]
fn one_plan_per_supported_window_order() {
    // Orders 6 through 15 inclusive.
    assert_eq!(required_plan_count(), 10);
}
