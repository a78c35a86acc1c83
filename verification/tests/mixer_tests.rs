use dsp_core::mixer::{DelayRing, MixingStyle};

#[test]
fn reads_back_with_exact_delay() {
    let mut ring = DelayRing::new(4);
    ring.write(10);
    ring.write(20);
    ring.write(30);
    assert_eq!(ring.read_delayed(0), 30);
    assert_eq!(ring.read_delayed(1), 20);
    assert_eq!(ring.read_delayed(2), 10);
}

#[test]
fn silence_before_the_stream_started() {
    let mut ring = DelayRing::new(4);
    assert_eq!(ring.read_delayed(0), 0);
    assert_eq!(ring.read_delayed(3), 0);
    ring.write(7);
    assert_eq!(ring.read_delayed(0), 7);
    // Positions before the first write still replay as silence.
    assert_eq!(ring.read_delayed(1), 0);
}

#[test]
fn oldest_samples_age_out_at_capacity() {
    let mut ring = DelayRing::new(4);
    for sample in [1u32, 2, 3, 4, 5, 6] {
        ring.write(sample);
    }
    assert_eq!(ring.read_delayed(0), 6);
    assert_eq!(ring.read_delayed(3), 3);
}

#[test]
fn dry_signal_survives_a_window_of_latency() {
    // The spectral engine delays its wet path by window - hop samples; the
    // ring must return the dry sample from exactly that long ago.
    let latency = 48usize;
    let mut ring = DelayRing::new(64);
    for i in 0..200u32 {
        ring.write(f32::to_bits(i as f32));
        if (i as usize) >= latency {
            let dry = f32::from_bits(ring.read_delayed(latency));
            assert_eq!(dry, (i as usize - latency) as f32);
        }
    }
}

#[test]
fn mixing_styles_are_distinct() {
    assert_ne!(MixingStyle::Linear, MixingStyle::EqualPower);
}
