//! Hand-off of magnitude-spectrum snapshots to the visualization consumer.
//!
//! When an editor is attached, the audio thread publishes one rendered
//! magnitude spectrum per block into a bounded queue that a lower-priority
//! consumer drains asynchronously. Publishing never blocks and never
//! fails: when the queue is full the oldest unread snapshot is dropped in
//! favor of the newest, because bounded staleness is acceptable and a
//! fresh frame is worth more than a complete history.

use vstd::prelude::*;

verus! {

/// A bounded queue of spectrum snapshots with drop-oldest overflow.
pub struct SnapshotQueue {
    /// The unread snapshots, oldest first.
    slots: Vec<Vec<u32>>,
    /// The bound on how many unread snapshots are kept.
    capacity: usize,
}

impl SnapshotQueue {
    /// The unread snapshots, oldest first.
    pub closed spec fn snapshots(self) -> Seq<Seq<u32>> {
        self.slots@.map_values(|s: Vec<u32>| s@)
    }

    /// The bound on how many unread snapshots are kept.
    pub closed spec fn capacity_spec(self) -> int {
        self.capacity as int
    }

    /// The queue never holds more than its capacity.
    pub closed spec fn wf(self) -> bool {
        &&& 1 <= self.capacity
        &&& self.slots@.len() <= self.capacity
    }

    /// A fresh, empty queue for at most `capacity` unread snapshots.
    pub fn new(capacity: usize) -> (queue: SnapshotQueue)
        requires
            capacity >= 1,
        ensures
            queue.wf(),
            queue.capacity_spec() == capacity,
            queue.snapshots() == Seq::<Seq<u32>>::empty(),
    {
        let queue = SnapshotQueue { slots: Vec::new(), capacity };
        proof {
            assert(queue.snapshots() =~= Seq::<Seq<u32>>::empty());
        }
        queue
    }

    /// How many snapshots are waiting to be read.
    pub fn len(&self) -> (n: usize)
        ensures
            n == self.snapshots().len(),
    {
        self.slots.len()
    }

    /// Publish one snapshot. Appends when there is room; otherwise the
    /// oldest unread snapshot is dropped to make room, so the newest is
    /// never the one lost.
    pub fn publish(&mut self, frame: Vec<u32>)
        requires
            old(self).wf(),
        ensures
            final(self).wf(),
            final(self).capacity_spec() == old(self).capacity_spec(),
            old(self).snapshots().len() < old(self).capacity_spec() ==> final(self).snapshots()
                =~= old(self).snapshots().push(frame@),
            old(self).snapshots().len() >= old(self).capacity_spec() ==> final(self).snapshots()
                =~= old(self).snapshots().subrange(1, old(self).snapshots().len() as int).push(
                frame@,
            ),
    {
        if self.slots.len() >= self.capacity {
            self.slots.remove(0);
        }
        self.slots.push(frame);
    }

    /// Take the oldest unread snapshot, if any.
    pub fn take(&mut self) -> (snapshot: Option<Vec<u32>>)
        requires
            old(self).wf(),
        ensures
            final(self).wf(),
            final(self).capacity_spec() == old(self).capacity_spec(),
            old(self).snapshots().len() == 0 ==> snapshot is None && final(self).snapshots()
                =~= old(self).snapshots(),
            old(self).snapshots().len() > 0 ==> (snapshot matches Some(frame) && frame@ == old(
                self,
            ).snapshots()[0] && final(self).snapshots() =~= old(self).snapshots().subrange(
                1,
                old(self).snapshots().len() as int,
            )),
    {
        if self.slots.len() == 0 {
            None
        } else {
            let frame = self.slots.remove(0);
            Some(frame)
        }
    }
}

} // verus!
