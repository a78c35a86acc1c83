use dsp_core::layout::{first_non_dc_bin_index, pow2_exec, StftLayout, NUM_PLAN_ORDERS};

#[test]
fn default_configuration_quantities() {
    let layout = StftLayout::new(12, 3);
    assert_eq!(layout.window_size(), 4096);
    assert_eq!(layout.overlap_times(), 8);
    assert_eq!(layout.hop_size(), 512);
    assert_eq!(layout.latency_samples(), 4096 - 512);
    assert_eq!(layout.num_bins(), 2049);
    assert_eq!(layout.plan_index(), 6);
}

#[test]
fn smallest_configuration_quantities() {
    let layout = StftLayout::new(6, 2);
    assert_eq!(layout.window_size(), 64);
    assert_eq!(layout.overlap_times(), 4);
    assert_eq!(layout.hop_size(), 16);
    assert_eq!(layout.latency_samples(), 48);
    assert_eq!(layout.num_bins(), 33);
    assert_eq!(layout.plan_index(), 0);
}

#[test]
fn largest_configuration_quantities() {
    let layout = StftLayout::new(15, 5);
    assert_eq!(layout.window_size(), 32768);
    assert_eq!(layout.overlap_times(), 32);
    assert_eq!(layout.hop_size(), 1024);
    assert_eq!(layout.latency_samples(), 32768 - 1024);
    assert_eq!(layout.plan_index(), NUM_PLAN_ORDERS - 1);
}

#[test]
fn latency_is_window_minus_hop_across_orders() {
    for window_order in 6..=15u32 {
        for overlap_order in 2..=5u32 {
            let layout = StftLayout::new(window_order, overlap_order);
            assert_eq!(
                layout.latency_samples(),
                layout.window_size() - layout.window_size() / layout.overlap_times()
            );
        }
    }
}

#[test]
fn gain_compensation_matches_overlap_formula() {
    // The compensation factor is 1 / (window * (overlap / 4) * 1.5); its
    // reciprocal must equal that product exactly.
    let layout = StftLayout::new(12, 3);
    let recip = layout.gain_compensation_recip();
    assert_eq!(recip, 12288);
    let expected = 4096.0f32 * (8.0 / 4.0) * 1.5;
    assert_eq!(recip as f32, expected);

    let smallest = StftLayout::new(6, 2);
    assert_eq!(smallest.gain_compensation_recip(), 96);
    assert_eq!(96.0f32, 64.0 * (4.0 / 4.0) * 1.5);
}

#[test]
fn first_non_dc_bin_matches_twenty_hertz() {
    // 4096-sample window at 44.1 kHz: bins are ~10.8 Hz wide, so bin 1 is
    // the last one at or below 20 Hz and bin 2 the first above it.
    assert_eq!(first_non_dc_bin_index(44100, 2049), 2);
    // 64-sample window at 48 kHz: even bin 1 sits at 750 Hz.
    assert_eq!(first_non_dc_bin_index(48000, 33), 1);
    // 32768-sample window at 44.1 kHz: 20 Hz falls inside bin 14.
    assert_eq!(first_non_dc_bin_index(44100, 16385), 15);
}

#[test]
fn pow2_exec_matches_shifts() {
    for n in 0..=15u32 {
        assert_eq!(pow2_exec(n), 1usize << n);
    }
}
