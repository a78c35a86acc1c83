use dsp_core::gate::RecomputeGate;

#[test]
fn fires_immediately_on_topology_change() {
    let mut gate = RecomputeGate::new();
    // A topology change forces a recomputation regardless of smoothing.
    assert!(gate.should_recompute(true, false, 128));
    assert!(gate.should_recompute(true, true, 128));
}

#[test]
fn fresh_gate_is_due_on_first_smoothed_sample() {
    let mut gate = RecomputeGate::new();
    assert!(gate.should_recompute(false, true, 4));
}

#[test]
fn throttles_to_one_update_per_interval_while_smoothing() {
    let mut gate = RecomputeGate::new();
    let mut fired = Vec::new();
    for _ in 0..9 {
        fired.push(gate.should_recompute(false, true, 4));
    }
    // Fires on the first sample, then exactly every fourth.
    assert_eq!(
        fired,
        vec![true, false, false, false, true, false, false, false, true]
    );
}

#[test]
fn idle_gate_stays_quiet_without_smoothing() {
    let mut gate = RecomputeGate::new();
    for _ in 0..16 {
        assert!(!gate.should_recompute(false, false, 4));
    }
    // Once smoothing resumes the countdown has long expired.
    assert!(gate.should_recompute(false, true, 4));
}

#[test]
fn zero_interval_behaves_as_one() {
    let mut zero = RecomputeGate::new();
    let mut one = RecomputeGate::new();
    for _ in 0..6 {
        assert_eq!(
            zero.should_recompute(false, true, 0),
            one.should_recompute(false, true, 1)
        );
    }
    // Both recompute on every smoothed sample.
    assert!(zero.should_recompute(false, true, 0));
}
