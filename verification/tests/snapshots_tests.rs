use dsp_core::snapshots::SnapshotQueue;

#[test]
fn publishes_and_takes_in_order() {
    let mut queue = SnapshotQueue::new(3);
    assert_eq!(queue.len(), 0);
    queue.publish(vec![1]);
    queue.publish(vec![2]);
    assert_eq!(queue.len(), 2);
    assert_eq!(queue.take(), Some(vec![1]));
    assert_eq!(queue.take(), Some(vec![2]));
    assert_eq!(queue.take(), None);
}

#[test]
fn full_queue_drops_the_oldest_snapshot() {
    let mut queue = SnapshotQueue::new(2);
    queue.publish(vec![10]);
    queue.publish(vec![20]);
    queue.publish(vec![30]);
    // The oldest unread frame made room; the newest is never the one lost.
    assert_eq!(queue.len(), 2);
    assert_eq!(queue.take(), Some(vec![20]));
    assert_eq!(queue.take(), Some(vec![30]));
    assert_eq!(queue.take(), None);
}

#[test]
fn publish_never_fails_under_sustained_overflow() {
    let mut queue = SnapshotQueue::new(2);
    for i in 0..100u32 {
        queue.publish(vec![i]);
    }
    assert_eq!(queue.take(), Some(vec![98]));
    assert_eq!(queue.take(), Some(vec![99]));
}

#[test]
fn snapshots_carry_whole_spectra() {
    let spectrum: Vec<u32> = (0..33).map(|i| f32::to_bits(i as f32 * 0.25)).collect();
    let mut queue = SnapshotQueue::new(1);
    queue.publish(spectrum.clone());
    assert_eq!(queue.take(), Some(spectrum));
}
