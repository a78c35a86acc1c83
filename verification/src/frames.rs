//! Assembly of analysis frames from a continuous input stream.
//!
//! The spectral engine consumes one sample at a time and, every hop, hands a
//! full window of the most recent input to the transform stage. The
//! assembler keeps those samples in a ring reserved once at the largest
//! supported window, so the audio thread copies each incoming sample
//! exactly once and never allocates, not even across reconfigurations. Samples are carried as opaque 32-bit patterns: the contract
//! here is about which samples end up in which frame, not their values.

use vstd::arithmetic::div_mod::{lemma_mod_sub_multiples_vanish, lemma_small_mod};
use vstd::prelude::*;

use crate::layout::MAX_WINDOW_SIZE;

verus! {

/// The sample of `hist` at position `j`, counting unwritten positions
/// (before the start of the stream) as silence.
pub open spec fn sample_or_zero(hist: Seq<u32>, j: int) -> u32 {
    if 0 <= j < hist.len() {
        hist[j]
    } else {
        0
    }
}

/// Which ring slot holds the `k`-th oldest sample when the oldest lives at
/// `pos`.
pub open spec fn ring_slot(pos: int, k: int, window: int) -> int {
    (pos + k) % window
}

/// For offsets below twice the modulus, reduction is a single subtraction.
pub proof fn lemma_wrap_mod(x: int, w: int)
    requires
        0 < w,
        0 <= x < 2 * w,
    ensures
        x % w == if x < w {
            x
        } else {
            x - w
        },
{
    if x < w {
        lemma_small_mod(x as nat, w as nat);
    } else {
        lemma_mod_sub_multiples_vanish(x, w);
        lemma_small_mod((x - w) as nat, w as nat);
    }
}

/// Collects the input stream of one channel and produces, every `hop`
/// samples, the analysis frame holding the `window` most recent samples.
pub struct FrameAssembler {
    /// Ring of the `window` most recent samples (zero-padded at the start
    /// of the stream); the oldest sample lives at `pos`. Allocated once at
    /// the largest supported window, so no reconfiguration ever grows it:
    /// only its first `window` slots are in use.
    buf: Vec<u32>,
    /// Slot of the oldest buffered sample; also where the next one lands.
    pos: usize,
    /// How many samples have been fed since the last reset.
    fed: u64,
    /// Active window size in samples.
    window: usize,
    /// Samples between successive analysis frames.
    hop: usize,
    /// The entire stream fed since the last reset.
    hist: Ghost<Seq<u32>>,
}

impl FrameAssembler {
    /// Every sample fed since the last reset, oldest first.
    pub closed spec fn history(self) -> Seq<u32> {
        self.hist@
    }

    /// The active window size.
    pub closed spec fn window_spec(self) -> int {
        self.window as int
    }

    /// The active hop size.
    pub closed spec fn hop_spec(self) -> int {
        self.hop as int
    }

    /// The assembler's internal invariant: the ring is reserved at full
    /// capacity and its first `window` slots hold exactly the `window`
    /// most recent stream positions, oldest at `pos`.
    pub closed spec fn wf(self) -> bool {
        &&& 1 <= self.hop <= self.window <= MAX_WINDOW_SIZE
        &&& self.buf@.len() == MAX_WINDOW_SIZE
        &&& self.pos < self.window
        &&& self.fed == self.hist@.len()
        &&& forall|k: int|
            0 <= k < self.window ==> self.buf@[ring_slot(
                self.pos as int,
                k,
                self.window as int,
            )] == sample_or_zero(self.hist@, self.hist@.len() - self.window + k)
    }

    /// A fresh assembler for the given window and hop, holding silence.
    /// The ring is reserved at the largest supported window here, once,
    /// so that later reconfigurations never allocate on the audio thread.
    pub fn new(window: usize, hop: usize) -> (assembler: FrameAssembler)
        requires
            1 <= hop <= window <= MAX_WINDOW_SIZE,
        ensures
            assembler.wf(),
            assembler.window_spec() == window,
            assembler.hop_spec() == hop,
            assembler.history() == Seq::<u32>::empty(),
    {
        let mut buf: Vec<u32> = Vec::new();
        while buf.len() < MAX_WINDOW_SIZE
            invariant
                buf@.len() <= MAX_WINDOW_SIZE,
                forall|j: int| 0 <= j < buf@.len() ==> buf@[j] == 0u32,
            decreases MAX_WINDOW_SIZE - buf@.len(),
        {
            buf.push(0);
        }
        let assembler = FrameAssembler {
            buf,
            pos: 0,
            fed: 0,
            window,
            hop,
            hist: Ghost(Seq::empty()),
        };
        proof {
            let w = window as int;
            assert forall|k: int| 0 <= k < w implies assembler.buf@[ring_slot(0, k, w)]
                == sample_or_zero(assembler.hist@, assembler.hist@.len() - w + k) by {
                lemma_small_mod(k as nat, w as nat);
            }
        }
        assembler
    }

    /// Adopt a new window and hop and zero all state, as required on any
    /// discrete topology change: the stream history starts over. Only the
    /// pre-reserved ring is rewritten; nothing is allocated.
    pub fn reset(&mut self, window: usize, hop: usize)
        requires
            old(self).wf(),
            1 <= hop <= window <= MAX_WINDOW_SIZE,
        ensures
            final(self).wf(),
            final(self).window_spec() == window,
            final(self).hop_spec() == hop,
            final(self).history() == Seq::<u32>::empty(),
    {
        let mut i: usize = 0;
        while i < window
            invariant
                window <= MAX_WINDOW_SIZE,
                self.buf@.len() == MAX_WINDOW_SIZE,
                i <= window,
                forall|j: int| 0 <= j < i ==> self.buf@[j] == 0u32,
            decreases window - i,
        {
            self.buf.set(i, 0);
            i = i + 1;
        }
        self.pos = 0;
        self.fed = 0;
        self.window = window;
        self.hop = hop;
        self.hist = Ghost(Seq::empty());
        proof {
            let w = window as int;
            assert forall|k: int| 0 <= k < w implies self.buf@[ring_slot(0, k, w)]
                == sample_or_zero(self.hist@, self.hist@.len() - w + k) by {
                lemma_small_mod(k as nat, w as nat);
            }
        }
    }

    /// Feed one sample. Returns whether a full analysis frame is now due:
    /// exactly every `hop` samples once a whole window has been fed.
    pub fn feed(&mut self, sample: u32) -> (frame_ready: bool)
        requires
            old(self).wf(),
            old(self).history().len() < u64::MAX,
        ensures
            final(self).wf(),
            final(self).window_spec() == old(self).window_spec(),
            final(self).hop_spec() == old(self).hop_spec(),
            final(self).history() == old(self).history().push(sample),
            frame_ready == (final(self).history().len() as int % final(self).hop_spec() == 0
                && final(self).history().len() >= final(self).window_spec()),
    {
        let ghost prev = *self;
        self.buf.set(self.pos, sample);
        self.pos = if self.pos + 1 == self.window {
            0
        } else {
            self.pos + 1
        };
        self.fed = self.fed + 1;
        self.hist = Ghost(self.hist@.push(sample));
        proof {
            let w = prev.window as int;
            let p = prev.pos as int;
            let q = self.pos as int;
            let n = prev.hist@.len() as int;
            assert forall|k: int| 0 <= k < w implies self.buf@[ring_slot(q, k, w)]
                == sample_or_zero(self.hist@, self.hist@.len() - w + k) by {
                lemma_wrap_mod(q + k, w);
                if k == w - 1 {
                    // The newest slot is the one just written, at the old `pos`.
                    assert(ring_slot(q, k, w) == p);
                    assert(self.buf@[p] == sample);
                } else {
                    // Older slots shift by one stream position.
                    lemma_wrap_mod(p + (k + 1), w);
                    assert(ring_slot(q, k, w) == ring_slot(p, k + 1, w));
                    assert(ring_slot(p, k + 1, w) != p);
                    assert(prev.buf@[ring_slot(p, k + 1, w)] == sample_or_zero(
                        prev.hist@,
                        n - w + k + 1,
                    ));
                    assert(sample_or_zero(self.hist@, n + 1 - w + k) == sample_or_zero(
                        prev.hist@,
                        n - w + k + 1,
                    ));
                }
            }
        }
        (self.fed % (self.hop as u64) == 0) && (self.fed >= self.window as u64)
    }

    /// The current analysis frame: the `window` most recent samples of the
    /// stream, oldest first.
    pub fn frame(&self) -> (frame: Vec<u32>)
        requires
            self.wf(),
            self.history().len() >= self.window_spec(),
        ensures
            frame@ == self.history().subrange(
                self.history().len() - self.window_spec(),
                self.history().len() as int,
            ),
    {
        let window = self.window;
        let mut out: Vec<u32> = Vec::new();
        let mut k: usize = 0;
        while k < window
            invariant
                self.wf(),
                self.history().len() >= self.window_spec(),
                window == self.window_spec(),
                k <= window,
                out@.len() == k,
                forall|j: int|
                    0 <= j < k ==> out@[j] == self.history()[self.history().len()
                        - self.window_spec() + j],
            decreases window - k,
        {
            let raw = self.pos + k;
            let idx = if raw >= window {
                raw - window
            } else {
                raw
            };
            proof {
                lemma_wrap_mod(raw as int, window as int);
                assert(idx == ring_slot(self.pos as int, k as int, window as int));
            }
            out.push(self.buf[idx]);
            k = k + 1;
        }
        proof {
            assert(out@ =~= self.history().subrange(
                self.history().len() - self.window_spec(),
                self.history().len() as int,
            ));
        }
        out
    }
}

/// The `window` most recent samples of a stream, oldest first: what one
/// analysis frame holds.
pub open spec fn last_window(hist: Seq<u32>, window: int) -> Seq<u32> {
    hist.subrange(hist.len() - window, hist.len() as int)
}

/// Whether the analysis frame with this index covers a stream position:
/// frame `j` spans positions `j * hop` up to but excluding
/// `j * hop + window`.
pub open spec fn frame_covers(frame_index: int, hop: int, window: int, position: int) -> bool {
    frame_index * hop <= position < frame_index * hop + window
}

/// Law: once frame `k` has been accumulated, every position in its
/// leading hop is final — no later frame covers it — so the overlap-add
/// accumulator may emit exactly that hop and advance.
pub proof fn law_emitted_hop_is_final(k: int, j: int, hop: int, window: int, position: int)
    requires
        1 <= hop,
        0 <= k < j,
        k * hop <= position < (k + 1) * hop,
    ensures
        !frame_covers(j, hop, window, position),
{
    assert(j * hop >= (k + 1) * hop) by (nonlinear_arith)
        requires
            j >= k + 1,
            hop >= 1,
    ;
}

/// Law: successive analysis frames overlap in all but one hop of their
/// samples: the next frame's prefix of `window - hop` samples is exactly
/// the previous frame's suffix, shifted by one hop of new input. This is
/// what makes windowed overlap-add reconstruction possible at all.
pub proof fn law_successive_frames_overlap(hist: Seq<u32>, window: int, hop: int)
    requires
        1 <= hop <= window,
        window + hop <= hist.len(),
    ensures
        hist.subrange(hist.len() - window, hist.len() as int).subrange(0, window - hop)
            =~= hist.subrange(hist.len() - hop - window, hist.len() - hop).subrange(hop, window),
{
}

} // verus!
