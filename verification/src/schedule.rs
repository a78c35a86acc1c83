//! Ordering of the analysis work within one hop of the spectral engine.
//!
//! The per-bin gain stage may read sidechain magnitudes while shaping the
//! main signal, so in the sidechain modes every auxiliary channel must be
//! analyzed strictly before the matching main channel of the same hop. The
//! schedule below fixes that order once per hop; the transform work itself
//! follows it task by task.

use vstd::prelude::*;

verus! {

/// Where the per-bin gain stage takes its detection signal from.
#[derive(Clone, Copy, PartialEq, Eq, Structural, Debug)]
pub enum ThresholdMode {
    /// Thresholds follow the main input itself.
    Internal,
    /// The threshold curve follows the sidechain input's spectrum.
    SidechainMatch,
    /// Compression is keyed by the sidechain input's bin magnitudes.
    SidechainCompress,
}

impl ThresholdMode {
    /// Whether this mode analyzes the auxiliary input at all.
    pub open spec fn uses_sidechain(self) -> bool {
        self != ThresholdMode::Internal
    }

    /// Executable twin of [`Self::uses_sidechain`].
    pub fn is_sidechain(&self) -> (uses: bool)
        ensures
            uses == self.uses_sidechain(),
    {
        match self {
            ThresholdMode::Internal => false,
            ThresholdMode::SidechainMatch => true,
            ThresholdMode::SidechainCompress => true,
        }
    }
}

/// One unit of analysis work inside a hop.
#[derive(Clone, Copy, PartialEq, Eq, Structural, Debug)]
pub enum AnalysisTask {
    /// Window and transform the auxiliary input of this channel, recording
    /// its bin magnitudes for the gain stage.
    Sidechain { channel: usize },
    /// Window, transform, gain and inverse-transform the main input of
    /// this channel.
    Main { channel: usize },
}

/// The exact order of analysis work for one hop: in the sidechain modes,
/// all auxiliary channels first, then every main channel; otherwise the
/// main channels alone.
pub fn hop_tasks(mode: ThresholdMode, num_channels: usize) -> (tasks: Vec<AnalysisTask>)
    requires
        num_channels <= usize::MAX / 2,
    ensures
        !mode.uses_sidechain() ==> tasks@.len() == num_channels,
        !mode.uses_sidechain() ==> forall|c: int|
            0 <= c < num_channels ==> tasks@[c] == (AnalysisTask::Main { channel: c as usize }),
        mode.uses_sidechain() ==> tasks@.len() == 2 * num_channels,
        mode.uses_sidechain() ==> forall|c: int|
            0 <= c < num_channels ==> tasks@[c] == (AnalysisTask::Sidechain {
                channel: c as usize,
            }),
        mode.uses_sidechain() ==> forall|i: int|
            num_channels <= i < 2 * num_channels ==> tasks@[i] == (AnalysisTask::Main {
                channel: (i - num_channels) as usize,
            }),
{
    let mut tasks: Vec<AnalysisTask> = Vec::new();
    if mode.is_sidechain() {
        let mut c: usize = 0;
        while c < num_channels
            invariant
                c <= num_channels,
                tasks@.len() == c,
                forall|i: int|
                    0 <= i < c ==> tasks@[i] == (AnalysisTask::Sidechain { channel: i as usize }),
            decreases num_channels - c,
        {
            tasks.push(AnalysisTask::Sidechain { channel: c });
            c = c + 1;
        }
    }
    let offset = tasks.len();
    let mut c: usize = 0;
    while c < num_channels
        invariant
            c <= num_channels,
            num_channels <= usize::MAX / 2,
            offset <= num_channels,
            tasks@.len() == offset + c,
            forall|i: int|
                0 <= i < offset ==> tasks@[i] == (AnalysisTask::Sidechain { channel: i as usize }),
            forall|i: int|
                offset <= i < offset + c ==> tasks@[i] == (AnalysisTask::Main {
                    channel: (i - offset) as usize,
                }),
        decreases num_channels - c,
    {
        tasks.push(AnalysisTask::Main { channel: c });
        c = c + 1;
    }
    tasks
}

/// Law: in a sidechain-mode hop schedule, every channel's auxiliary
/// analysis comes strictly before that channel's main analysis: any main
/// task stands after the sidechain task of the same channel.
pub proof fn law_sidechain_before_main(tasks: Seq<AnalysisTask>, num_channels: int)
    requires
        tasks.len() == 2 * num_channels,
        forall|c: int|
            0 <= c < num_channels ==> tasks[c] == (AnalysisTask::Sidechain { channel: c as usize }),
        forall|i: int|
            num_channels <= i < 2 * num_channels ==> tasks[i] == (AnalysisTask::Main {
                channel: (i - num_channels) as usize,
            }),
    ensures
        forall|i: int, j: int|
            #![trigger tasks[i], tasks[j]]
            0 <= i < tasks.len() && 0 <= j < tasks.len() && tasks[i] is Main
                && tasks[j] is Sidechain && tasks[i]->Main_channel == tasks[j]->Sidechain_channel
                ==> j < i,
{
    assert forall|i: int, j: int|
        0 <= i < tasks.len() && 0 <= j < tasks.len() && tasks[i] is Main && tasks[j] is Sidechain
            && tasks[i]->Main_channel == tasks[j]->Sidechain_channel implies j < i by {
        assert(i >= num_channels) by {
            if i < num_channels {
                assert(tasks[i] == (AnalysisTask::Sidechain { channel: i as usize }));
            }
        }
        assert(j < num_channels) by {
            if j >= num_channels {
                assert(tasks[j] == (AnalysisTask::Main { channel: (j - num_channels) as usize }));
            }
        }
        assert(tasks[i] == (AnalysisTask::Main { channel: (i - num_channels) as usize }));
        assert(tasks[j] == (AnalysisTask::Sidechain { channel: j as usize }));
    }
}

} // verus!
