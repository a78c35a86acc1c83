use dsp_core::schedule::{AnalysisTask, ThresholdMode};
use dsp_core::stft::StftProcessor;

fn bits(samples: &[f32]) -> Vec<u32> {
    samples.iter().map(|s| s.to_bits()).collect()
}

#[test]
fn channels_keep_independent_streams() {
    let mut stft = StftProcessor::new(2, false, 4, 2);
    assert_eq!(stft.num_channels(), 2);
    assert!(!stft.has_sidechain());
    let left = bits(&[1.0, 2.0, 3.0, 4.0]);
    let right = bits(&[-1.0, -2.0, -3.0, -4.0]);
    let mut ready = (false, false);
    for i in 0..4 {
        ready.0 = stft.feed_main(0, left[i]);
        ready.1 = stft.feed_main(1, right[i]);
    }
    assert!(ready.0 && ready.1);
    assert_eq!(stft.frame_main(0), left);
    assert_eq!(stft.frame_main(1), right);
}

#[test]
fn sidechain_channels_run_beside_main_channels() {
    let mut stft = StftProcessor::new(1, true, 4, 4);
    assert!(stft.has_sidechain());
    let main = bits(&[1.0, 2.0, 3.0, 4.0]);
    let aux = bits(&[9.0, 8.0, 7.0, 6.0]);
    for i in 0..4 {
        stft.feed_sidechain(0, aux[i]);
        stft.feed_main(0, main[i]);
    }
    assert_eq!(stft.frame_sidechain(0), aux);
    assert_eq!(stft.frame_main(0), main);
}

#[test]
fn reconfigure_zeroes_every_channel() {
    let mut stft = StftProcessor::new(2, true, 4, 2);
    for i in 0..4 {
        stft.feed_main(0, i + 1);
        stft.feed_main(1, i + 100);
        stft.feed_sidechain(0, i + 200);
        stft.feed_sidechain(1, i + 300);
    }
    // A window-size change resizes in place and starts every stream over.
    stft.reconfigure(8, 2);
    let fresh = bits(&[0.5; 8]);
    let mut ready = false;
    for &sample in &fresh {
        stft.feed_main(0, sample);
        ready = stft.feed_main(1, sample);
    }
    assert!(ready);
    assert_eq!(stft.frame_main(1), fresh);
}

#[test]
fn analysis_frames_follow_the_hop_schedule() {
    let mut stft = StftProcessor::new(2, true, 4, 4);
    let main0 = bits(&[1.0, 2.0, 3.0, 4.0]);
    let main1 = bits(&[5.0, 6.0, 7.0, 8.0]);
    let aux0 = bits(&[-1.0, -2.0, -3.0, -4.0]);
    let aux1 = bits(&[-5.0, -6.0, -7.0, -8.0]);
    for i in 0..4 {
        stft.feed_sidechain(0, aux0[i]);
        stft.feed_sidechain(1, aux1[i]);
        stft.feed_main(0, main0[i]);
        stft.feed_main(1, main1[i]);
    }
    let frames = stft.analysis_frames(ThresholdMode::SidechainCompress);
    assert_eq!(frames.len(), 4);
    assert_eq!(frames[0].0, AnalysisTask::Sidechain { channel: 0 });
    assert_eq!(frames[0].1, aux0);
    assert_eq!(frames[1].0, AnalysisTask::Sidechain { channel: 1 });
    assert_eq!(frames[1].1, aux1);
    assert_eq!(frames[2].0, AnalysisTask::Main { channel: 0 });
    assert_eq!(frames[2].1, main0);
    assert_eq!(frames[3].0, AnalysisTask::Main { channel: 1 });
    assert_eq!(frames[3].1, main1);

    let internal = stft.analysis_frames(ThresholdMode::Internal);
    assert_eq!(internal.len(), 2);
    assert_eq!(internal[0].0, AnalysisTask::Main { channel: 0 });
    assert_eq!(internal[1].0, AnalysisTask::Main { channel: 1 });
}

#[test]
fn successive_frames_overlap_by_window_minus_hop() {
    let mut stft = StftProcessor::new(1, false, 8, 2);
    let stream: Vec<u32> = (0..12u32).map(|i| f32::to_bits(i as f32)).collect();
    let mut frames = Vec::new();
    for &sample in &stream {
        if stft.feed_main(0, sample) {
            frames.push(stft.frame_main(0));
        }
    }
    assert_eq!(frames.len(), 3);
    for pair in frames.windows(2) {
        // Each frame repeats all but one hop of its predecessor.
        assert_eq!(pair[1][..6], pair[0][2..]);
    }
}
