//! The multi-channel overlap-add front end of the spectral engine.
//!
//! One frame assembler runs per main channel, and one more per sidechain
//! channel when a sidechain mode is active. This processor owns them all,
//! keeps them on a single window/overlap configuration, and resizes them
//! together — in place, state zeroed — when that configuration changes.
//! Each channel's stream stays independent: feeding one channel never
//! disturbs another's history.

use vstd::prelude::*;

use crate::frames::{last_window, FrameAssembler};
use crate::schedule::{hop_tasks, AnalysisTask, ThresholdMode};
use crate::layout::MAX_WINDOW_SIZE;

verus! {

/// The frame assemblers of every main and sidechain channel, kept on one
/// window/overlap configuration.
pub struct StftProcessor {
    /// One assembler per main channel.
    main: Vec<FrameAssembler>,
    /// One assembler per sidechain channel; empty without a sidechain.
    side: Vec<FrameAssembler>,
    /// The window size every assembler is configured for.
    window: usize,
    /// The hop size every assembler is configured for.
    hop: usize,
}

impl StftProcessor {
    /// The main channels' assemblers.
    pub closed spec fn main_channels(self) -> Seq<FrameAssembler> {
        self.main@
    }

    /// The sidechain channels' assemblers.
    pub closed spec fn side_channels(self) -> Seq<FrameAssembler> {
        self.side@
    }

    /// The window size every channel runs under.
    pub closed spec fn window_spec(self) -> int {
        self.window as int
    }

    /// The hop size every channel runs under.
    pub closed spec fn hop_spec(self) -> int {
        self.hop as int
    }

    /// Every assembler is well-formed and on the shared configuration,
    /// and the sidechain path carries either every channel or none.
    pub closed spec fn wf(self) -> bool {
        &&& 1 <= self.hop <= self.window <= MAX_WINDOW_SIZE
        &&& forall|c: int|
            0 <= c < self.main@.len() ==> (#[trigger] self.main@[c]).wf() && self.main@[
                c
            ].window_spec() == self.window && self.main@[c].hop_spec() == self.hop
        &&& forall|c: int|
            0 <= c < self.side@.len() ==> (#[trigger] self.side@[c]).wf() && self.side@[
                c
            ].window_spec() == self.window && self.side@[c].hop_spec() == self.hop
        &&& (self.side@.len() == self.main@.len() || self.side@.len() == 0)
    }

    /// A fresh processor: `num_channels` silent main channels, and as
    /// many sidechain channels when `with_sidechain` is set.
    pub fn new(num_channels: usize, with_sidechain: bool, window: usize, hop: usize) -> (processor:
        StftProcessor)
        requires
            1 <= hop <= window <= MAX_WINDOW_SIZE,
        ensures
            processor.wf(),
            processor.main_channels().len() == num_channels,
            processor.side_channels().len() == if with_sidechain {
                num_channels as int
            } else {
                0
            },
            processor.window_spec() == window,
            processor.hop_spec() == hop,
            forall|c: int|
                0 <= c < num_channels ==> (#[trigger] processor.main_channels()[c]).history()
                    == Seq::<u32>::empty(),
            forall|c: int|
                0 <= c < processor.side_channels().len() ==> (#[trigger] processor.side_channels()[
                    c
                ]).history() == Seq::<u32>::empty(),
    {
        let mut main: Vec<FrameAssembler> = Vec::new();
        while main.len() < num_channels
            invariant
                1 <= hop <= window <= MAX_WINDOW_SIZE,
                main@.len() <= num_channels,
                forall|c: int|
                    0 <= c < main@.len() ==> (#[trigger] main@[c]).wf() && main@[c].window_spec()
                        == window && main@[c].hop_spec() == hop && main@[c].history() == Seq::<
                        u32,
                    >::empty(),
            decreases num_channels - main@.len(),
        {
            main.push(FrameAssembler::new(window, hop));
        }
        let mut side: Vec<FrameAssembler> = Vec::new();
        if with_sidechain {
            while side.len() < num_channels
                invariant
                    1 <= hop <= window <= MAX_WINDOW_SIZE,
                    side@.len() <= num_channels,
                    forall|c: int|
                        0 <= c < side@.len() ==> (#[trigger] side@[c]).wf() && side@[
                            c
                        ].window_spec() == window && side@[c].hop_spec() == hop && side@[
                            c
                        ].history() == Seq::<u32>::empty(),
                decreases num_channels - side@.len(),
            {
                side.push(FrameAssembler::new(window, hop));
            }
        }
        StftProcessor { main, side, window, hop }
    }

    /// Adopt a new window and hop on every channel at once, zeroing all
    /// buffered state, as a window-size change demands.
    pub fn reconfigure(&mut self, window: usize, hop: usize)
        requires
            old(self).wf(),
            1 <= hop <= window <= MAX_WINDOW_SIZE,
        ensures
            final(self).wf(),
            final(self).window_spec() == window,
            final(self).hop_spec() == hop,
            final(self).main_channels().len() == old(self).main_channels().len(),
            final(self).side_channels().len() == old(self).side_channels().len(),
            forall|c: int|
                0 <= c < final(self).main_channels().len()
                    ==> (#[trigger] final(self).main_channels()[c]).history()
                    == Seq::<u32>::empty(),
            forall|c: int|
                0 <= c < final(self).side_channels().len()
                    ==> (#[trigger] final(self).side_channels()[c]).history()
                    == Seq::<u32>::empty(),
    {
        let mut c: usize = 0;
        let num_main = self.main.len();
        while c < num_main
            invariant
                old(self).wf(),
                1 <= hop <= window <= MAX_WINDOW_SIZE,
                c <= num_main,
                num_main == self.main@.len(),
                num_main == old(self).main@.len(),
                self.side@ == old(self).side@,
                self.window == old(self).window,
                self.hop == old(self).hop,
                forall|i: int|
                    0 <= i < c ==> (#[trigger] self.main@[i]).wf() && self.main@[i].window_spec()
                        == window && self.main@[i].hop_spec() == hop && self.main@[i].history()
                        == Seq::<u32>::empty(),
                forall|i: int| c <= i < num_main ==> self.main@[i] == old(self).main@[i],
            decreases num_main - c,
        {
            proof {
                assert(self.main@[c as int] == old(self).main@[c as int]);
                assert(old(self).main@[c as int].wf());
            }
            let assembler = &mut self.main[c];
            assembler.reset(window, hop);
            c = c + 1;
        }
        let mut c: usize = 0;
        let num_side = self.side.len();
        while c < num_side
            invariant
                old(self).wf(),
                1 <= hop <= window <= MAX_WINDOW_SIZE,
                c <= num_side,
                num_side == self.side@.len(),
                num_side == old(self).side@.len(),
                self.main@.len() == old(self).main@.len(),
                forall|i: int|
                    0 <= i < self.main@.len() ==> (#[trigger] self.main@[i]).wf() && self.main@[
                        i
                    ].window_spec() == window && self.main@[i].hop_spec() == hop && self.main@[
                        i
                    ].history() == Seq::<u32>::empty(),
                forall|i: int|
                    0 <= i < c ==> (#[trigger] self.side@[i]).wf() && self.side@[i].window_spec()
                        == window && self.side@[i].hop_spec() == hop && self.side@[i].history()
                        == Seq::<u32>::empty(),
                forall|i: int| c <= i < num_side ==> self.side@[i] == old(self).side@[i],
            decreases num_side - c,
        {
            proof {
                assert(self.side@[c as int] == old(self).side@[c as int]);
                assert(old(self).side@[c as int].wf());
            }
            let assembler = &mut self.side[c];
            assembler.reset(window, hop);
            c = c + 1;
        }
        self.window = window;
        self.hop = hop;
    }

    /// Feed one sample into a main channel; every other channel's stream
    /// is untouched. Returns whether that channel's analysis frame is due.
    pub fn feed_main(&mut self, channel: usize, sample: u32) -> (frame_ready: bool)
        requires
            old(self).wf(),
            channel < old(self).main_channels().len(),
            old(self).main_channels()[channel as int].history().len() < u64::MAX,
        ensures
            final(self).wf(),
            final(self).window_spec() == old(self).window_spec(),
            final(self).hop_spec() == old(self).hop_spec(),
            final(self).side_channels() == old(self).side_channels(),
            final(self).main_channels().len() == old(self).main_channels().len(),
            final(self).main_channels()[channel as int].history() == old(self).main_channels()[
                channel as int
            ].history().push(sample),
            forall|c: int|
                0 <= c < old(self).main_channels().len() && c != channel
                    ==> final(self).main_channels()[c] == old(self).main_channels()[c],
            frame_ready == (final(self).main_channels()[channel as int].history().len() as int
                % old(self).hop_spec() == 0 && final(self).main_channels()[
                channel as int
            ].history().len() >= old(self).window_spec()),
    {
        let assembler = &mut self.main[channel];
        assembler.feed(sample)
    }

    /// Feed one sample into a sidechain channel; every other channel's
    /// stream is untouched. Returns whether that channel's frame is due.
    pub fn feed_sidechain(&mut self, channel: usize, sample: u32) -> (frame_ready: bool)
        requires
            old(self).wf(),
            channel < old(self).side_channels().len(),
            old(self).side_channels()[channel as int].history().len() < u64::MAX,
        ensures
            final(self).wf(),
            final(self).window_spec() == old(self).window_spec(),
            final(self).hop_spec() == old(self).hop_spec(),
            final(self).main_channels() == old(self).main_channels(),
            final(self).side_channels().len() == old(self).side_channels().len(),
            final(self).side_channels()[channel as int].history() == old(self).side_channels()[
                channel as int
            ].history().push(sample),
            forall|c: int|
                0 <= c < old(self).side_channels().len() && c != channel
                    ==> final(self).side_channels()[c] == old(self).side_channels()[c],
            frame_ready == (final(self).side_channels()[channel as int].history().len() as int
                % old(self).hop_spec() == 0 && final(self).side_channels()[
                channel as int
            ].history().len() >= old(self).window_spec()),
    {
        let assembler = &mut self.side[channel];
        assembler.feed(sample)
    }

    /// The current analysis frame of a main channel: its `window` most
    /// recent samples, oldest first.
    pub fn frame_main(&self, channel: usize) -> (frame: Vec<u32>)
        requires
            self.wf(),
            channel < self.main_channels().len(),
            self.main_channels()[channel as int].history().len() >= self.window_spec(),
        ensures
            frame@ == self.main_channels()[channel as int].history().subrange(
                self.main_channels()[channel as int].history().len() - self.window_spec(),
                self.main_channels()[channel as int].history().len() as int,
            ),
    {
        self.main[channel].frame()
    }

    /// The current analysis frame of a sidechain channel.
    pub fn frame_sidechain(&self, channel: usize) -> (frame: Vec<u32>)
        requires
            self.wf(),
            channel < self.side_channels().len(),
            self.side_channels()[channel as int].history().len() >= self.window_spec(),
        ensures
            frame@ == self.side_channels()[channel as int].history().subrange(
                self.side_channels()[channel as int].history().len() - self.window_spec(),
                self.side_channels()[channel as int].history().len() as int,
            ),
    {
        self.side[channel].frame()
    }

    /// Hand out every analysis frame of the current hop, in the proven
    /// schedule order: in a sidechain mode, each channel's auxiliary frame
    /// stands before any channel's main frame; otherwise the main frames
    /// alone. Each frame is that channel's `window` most recent samples.
    pub fn analysis_frames(&self, mode: ThresholdMode) -> (frames: Vec<(AnalysisTask, Vec<u32>)>)
        requires
            self.wf(),
            self.main_channels().len() <= usize::MAX / 2,
            mode.uses_sidechain() ==> self.side_channels().len() == self.main_channels().len(),
            forall|c: int|
                0 <= c < self.main_channels().len() ==> (#[trigger] self.main_channels()[
                    c
                ]).history().len() >= self.window_spec(),
            mode.uses_sidechain() ==> forall|c: int|
                0 <= c < self.side_channels().len() ==> (#[trigger] self.side_channels()[
                    c
                ]).history().len() >= self.window_spec(),
        ensures
            !mode.uses_sidechain() ==> frames@.len() == self.main_channels().len(),
            !mode.uses_sidechain() ==> forall|i: int|
                0 <= i < frames@.len() ==> (#[trigger] frames@[i]).0 == (AnalysisTask::Main {
                    channel: i as usize,
                }) && frames@[i].1@ == last_window(
                    self.main_channels()[i].history(),
                    self.window_spec(),
                ),
            mode.uses_sidechain() ==> frames@.len() == 2 * self.main_channels().len(),
            mode.uses_sidechain() ==> forall|i: int|
                0 <= i < self.main_channels().len() ==> (#[trigger] frames@[i]).0
                    == (AnalysisTask::Sidechain { channel: i as usize }) && frames@[i].1@
                    == last_window(self.side_channels()[i].history(), self.window_spec()),
            mode.uses_sidechain() ==> forall|i: int|
                self.main_channels().len() <= i < 2 * self.main_channels().len()
                    ==> (#[trigger] frames@[i]).0 == (AnalysisTask::Main {
                    channel: (i - self.main_channels().len()) as usize,
                }) && frames@[i].1@ == last_window(
                    self.main_channels()[i - self.main_channels().len()].history(),
                    self.window_spec(),
                ),
    {
        let num_channels = self.main.len();
        let tasks = hop_tasks(mode, num_channels);
        let uses_sidechain = mode.is_sidechain();
        let ghost offset: int = if uses_sidechain {
            num_channels as int
        } else {
            0
        };
        let mut frames: Vec<(AnalysisTask, Vec<u32>)> = Vec::new();
        let mut k: usize = 0;
        while k < tasks.len()
            invariant
                self.wf(),
                num_channels == self.main_channels().len(),
                num_channels <= usize::MAX / 2,
                uses_sidechain == mode.uses_sidechain(),
                offset == if uses_sidechain {
                    num_channels as int
                } else {
                    0
                },
                uses_sidechain ==> self.side_channels().len() == num_channels,
                forall|c: int|
                    0 <= c < num_channels ==> (#[trigger] self.main_channels()[c]).history().len()
                        >= self.window_spec(),
                uses_sidechain ==> forall|c: int|
                    0 <= c < num_channels ==> (#[trigger] self.side_channels()[c]).history().len()
                        >= self.window_spec(),
                tasks@.len() == offset + num_channels,
                forall|i: int|
                    0 <= i < offset ==> tasks@[i] == (AnalysisTask::Sidechain {
                        channel: i as usize,
                    }),
                forall|i: int|
                    offset <= i < tasks@.len() ==> tasks@[i] == (AnalysisTask::Main {
                        channel: (i - offset) as usize,
                    }),
                k <= tasks@.len(),
                frames@.len() == k,
                forall|i: int|
                    0 <= i < k ==> (#[trigger] frames@[i]).0 == tasks@[i],
                forall|i: int|
                    0 <= i < k && i < offset ==> (#[trigger] frames@[i]).1@ == last_window(
                        self.side_channels()[i].history(),
                        self.window_spec(),
                    ),
                forall|i: int|
                    offset <= i < k ==> (#[trigger] frames@[i]).1@ == last_window(
                        self.main_channels()[i - offset].history(),
                        self.window_spec(),
                    ),
            decreases tasks@.len() - k,
        {
            let task = tasks[k];
            let frame = match task {
                AnalysisTask::Sidechain { channel } => self.frame_sidechain(channel),
                AnalysisTask::Main { channel } => self.frame_main(channel),
            };
            frames.push((task, frame));
            k = k + 1;
        }
        frames
    }

    /// How many main channels run under this processor.
    pub fn num_channels(&self) -> (n: usize)
        ensures
            n == self.main_channels().len(),
    {
        self.main.len()
    }

    /// Whether a sidechain path is configured.
    pub fn has_sidechain(&self) -> (has: bool)
        ensures
            has == (self.side_channels().len() > 0),
    {
        self.side.len() > 0
    }
}

} // verus!
