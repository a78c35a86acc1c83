//! Latency-compensated dry/wet mixing support.
//!
//! The spectral engine's wet output leaves `latency` samples after the
//! matching input entered. To cross-fade it against the dry signal, a copy
//! of every input sample is kept in a ring sized to the largest possible
//! latency, and read back with exactly the engine's current delay. The
//! cross-fade itself is sample arithmetic and stays with the host harness;
//! what is proved here is that the delayed read returns precisely the
//! sample written `delay` positions earlier.

use vstd::prelude::*;

use crate::frames::{ring_slot, sample_or_zero};
use crate::layout::MAX_WINDOW_SIZE;

verus! {

/// How the delayed dry signal is cross-faded with the wet output.
///
/// The spectral engine always selects `Linear`: no phase-distorting stage
/// precedes its mix point, so dry and wet remain in phase by construction
/// and an equal-power curve would only bend the level.
#[derive(Clone, Copy, PartialEq, Eq, Structural, Debug)]
pub enum MixingStyle {
    /// Constant-gain cross-fade, for in-phase signals.
    Linear,
    /// Constant-power cross-fade, for uncorrelated signals.
    EqualPower,
}

/// A ring that remembers the last `capacity` samples written, so the dry
/// signal can be replayed with the engine's exact latency.
pub struct DelayRing {
    /// Ring of the `capacity` most recent samples, oldest at `pos`.
    /// Allocated once at the largest possible latency, so a capacity
    /// change never allocates: only its first `capacity` slots are in use.
    buf: Vec<u32>,
    /// Slot of the oldest buffered sample; also where the next one lands.
    pos: usize,
    /// How many of the ring's slots are in use.
    capacity: usize,
    /// The entire stream written since the last reset.
    hist: Ghost<Seq<u32>>,
}

impl DelayRing {
    /// Every sample written since the last reset, oldest first.
    pub closed spec fn history(self) -> Seq<u32> {
        self.hist@
    }

    /// The largest delay the ring can serve, plus one.
    pub closed spec fn capacity_spec(self) -> int {
        self.capacity as int
    }

    /// The ring is reserved at full size and its first `capacity` slots
    /// hold exactly the `capacity` most recent stream positions, counting
    /// positions before the start of the stream as silence.
    pub closed spec fn wf(self) -> bool {
        &&& 1 <= self.capacity <= MAX_WINDOW_SIZE
        &&& self.buf@.len() == MAX_WINDOW_SIZE
        &&& self.pos < self.capacity
        &&& forall|k: int|
            0 <= k < self.capacity ==> self.buf@[ring_slot(
                self.pos as int,
                k,
                self.capacity as int,
            )] == sample_or_zero(self.hist@, self.hist@.len() - self.capacity + k)
    }

    /// A fresh ring holding silence. The ring is reserved at the largest
    /// possible latency here, once, so that later capacity changes never
    /// allocate on the audio thread.
    pub fn new(capacity: usize) -> (ring: DelayRing)
        requires
            1 <= capacity <= MAX_WINDOW_SIZE,
        ensures
            ring.wf(),
            ring.capacity_spec() == capacity,
            ring.history() == Seq::<u32>::empty(),
    {
        let mut buf: Vec<u32> = Vec::new();
        while buf.len() < MAX_WINDOW_SIZE
            invariant
                buf@.len() <= MAX_WINDOW_SIZE,
                forall|j: int| 0 <= j < buf@.len() ==> buf@[j] == 0u32,
            decreases MAX_WINDOW_SIZE - buf@.len(),
        {
            buf.push(0);
        }
        let ring = DelayRing { buf, pos: 0, capacity, hist: Ghost(Seq::empty()) };
        proof {
            let c = capacity as int;
            assert forall|k: int| 0 <= k < c implies ring.buf@[ring_slot(0, k, c)]
                == sample_or_zero(ring.hist@, ring.hist@.len() - c + k) by {
                vstd::arithmetic::div_mod::lemma_small_mod(k as nat, c as nat);
            }
        }
        ring
    }

    /// Adopt a new capacity and forget the buffered signal. Only the
    /// pre-reserved ring is rewritten; nothing is allocated.
    pub fn reset(&mut self, capacity: usize)
        requires
            old(self).wf(),
            1 <= capacity <= MAX_WINDOW_SIZE,
        ensures
            final(self).wf(),
            final(self).capacity_spec() == capacity,
            final(self).history() == Seq::<u32>::empty(),
    {
        let mut i: usize = 0;
        while i < capacity
            invariant
                capacity <= MAX_WINDOW_SIZE,
                self.buf@.len() == MAX_WINDOW_SIZE,
                i <= capacity,
                forall|j: int| 0 <= j < i ==> self.buf@[j] == 0u32,
            decreases capacity - i,
        {
            self.buf.set(i, 0);
            i = i + 1;
        }
        self.pos = 0;
        self.capacity = capacity;
        self.hist = Ghost(Seq::empty());
        proof {
            let c = capacity as int;
            assert forall|k: int| 0 <= k < c implies self.buf@[ring_slot(0, k, c)]
                == sample_or_zero(self.hist@, self.hist@.len() - c + k) by {
                vstd::arithmetic::div_mod::lemma_small_mod(k as nat, c as nat);
            }
        }
    }

    /// Store one dry sample.
    pub fn write(&mut self, sample: u32)
        requires
            old(self).wf(),
        ensures
            final(self).wf(),
            final(self).capacity_spec() == old(self).capacity_spec(),
            final(self).history() == old(self).history().push(sample),
    {
        let ghost prev = *self;
        let capacity = self.capacity;
        self.buf.set(self.pos, sample);
        self.pos = if self.pos + 1 == capacity {
            0
        } else {
            self.pos + 1
        };
        self.hist = Ghost(self.hist@.push(sample));
        proof {
            let c = capacity as int;
            let p = prev.pos as int;
            let q = self.pos as int;
            let n = prev.hist@.len() as int;
            assert forall|k: int| 0 <= k < c implies self.buf@[ring_slot(q, k, c)]
                == sample_or_zero(self.hist@, self.hist@.len() - c + k) by {
                crate::frames::lemma_wrap_mod(q + k, c);
                if k == c - 1 {
                    assert(ring_slot(q, k, c) == p);
                } else {
                    crate::frames::lemma_wrap_mod(p + (k + 1), c);
                    assert(ring_slot(q, k, c) == ring_slot(p, k + 1, c));
                    assert(ring_slot(p, k + 1, c) != p);
                    assert(prev.buf@[ring_slot(p, k + 1, c)] == sample_or_zero(
                        prev.hist@,
                        n - c + k + 1,
                    ));
                }
            }
        }
    }

    /// The sample written `delay` positions before the most recent write;
    /// silence while the stream is still shorter than the delay.
    pub fn read_delayed(&self, delay: usize) -> (sample: u32)
        requires
            self.wf(),
            delay < self.capacity_spec(),
        ensures
            sample == sample_or_zero(self.history(), self.history().len() - 1 - delay),
    {
        let capacity = self.capacity;
        let raw = self.pos + (capacity - 1 - delay);
        let idx = if raw >= capacity {
            raw - capacity
        } else {
            raw
        };
        proof {
            crate::frames::lemma_wrap_mod(raw as int, capacity as int);
            assert(idx == ring_slot(
                self.pos as int,
                capacity - 1 - delay,
                capacity as int,
            ));
        }
        self.buf[idx]
    }
}

} // verus!
