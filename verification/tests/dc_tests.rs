use dsp_core::dc::{dc_policy, zero_low_bins, BinPattern, DcPolicy};

fn bin(re: f32, im: f32) -> BinPattern {
    BinPattern {
        re: re.to_bits(),
        im: im.to_bits(),
    }
}

#[test]
fn policy_follows_the_switch() {
    assert_eq!(dc_policy(true), DcPolicy::Zero);
    assert_eq!(dc_policy(false), DcPolicy::CompensateMakeup);
}

#[test]
fn clears_exactly_the_low_bins() {
    let mut bins = vec![bin(1.0, -1.0), bin(0.5, 0.25), bin(2.0, 0.0), bin(-3.0, 4.0)];
    let untouched = bins.clone();
    zero_low_bins(&mut bins, 2);
    for i in 0..2 {
        // Exactly zero: the bit patterns themselves are cleared.
        assert_eq!(bins[i].re, 0);
        assert_eq!(bins[i].im, 0);
        assert_eq!(f32::from_bits(bins[i].re), 0.0);
    }
    for i in 2..4 {
        assert_eq!(bins[i], untouched[i]);
    }
}

#[test]
fn zero_index_touches_nothing() {
    let mut bins = vec![bin(1.0, 2.0), bin(3.0, 4.0)];
    let untouched = bins.clone();
    zero_low_bins(&mut bins, 0);
    assert_eq!(bins, untouched);
}

#[test]
fn clearing_is_independent_of_any_gain() {
    // The same bins come out zero no matter what the surrounding output
    // gain stage does: the clearing never sees a gain value.
    for gain in [0.125f32, 1.0, 8.0] {
        let mut bins = vec![bin(gain, gain), bin(gain, -gain), bin(5.0, 5.0)];
        zero_low_bins(&mut bins, 2);
        assert_eq!(bins[0], bin(0.0, 0.0));
        assert_eq!(bins[1], bin(0.0, 0.0));
        assert_eq!(bins[2], bin(5.0, 5.0));
    }
}
