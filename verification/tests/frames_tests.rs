use dsp_core::frames::FrameAssembler;

fn bits(samples: &[f32]) -> Vec<u32> {
    samples.iter().map(|s| s.to_bits()).collect()
}

#[test]
fn first_frame_after_one_full_window() {
    let mut assembler = FrameAssembler::new(8, 2);
    let stream = bits(&[1.0, 2.0, 3.0, 4.0, 5.0, 6.0, 7.0, 8.0]);
    for (i, &sample) in stream.iter().enumerate() {
        let ready = assembler.feed(sample);
        // Hop boundaries fall every 2 samples, but no frame is complete
        // before a whole window has been fed.
        assert_eq!(ready, i == 7);
    }
    assert_eq!(assembler.frame(), stream);
}

#[test]
fn frames_advance_by_one_hop() {
    let mut assembler = FrameAssembler::new(8, 2);
    let stream = bits(&[1.0, 2.0, 3.0, 4.0, 5.0, 6.0, 7.0, 8.0, 9.0, 10.0]);
    let mut frames = Vec::new();
    for &sample in &stream {
        if assembler.feed(sample) {
            frames.push(assembler.frame());
        }
    }
    assert_eq!(frames.len(), 2);
    assert_eq!(frames[0], stream[0..8].to_vec());
    assert_eq!(frames[1], stream[2..10].to_vec());
}

#[test]
fn window_equal_to_hop_tiles_the_stream() {
    let mut assembler = FrameAssembler::new(4, 4);
    let stream = bits(&[0.5, -0.5, 0.25, -0.25, 1.5, -1.5, 0.75, -0.75]);
    let mut frames = Vec::new();
    for &sample in &stream {
        if assembler.feed(sample) {
            frames.push(assembler.frame());
        }
    }
    assert_eq!(frames.len(), 2);
    assert_eq!(frames[0], stream[0..4].to_vec());
    assert_eq!(frames[1], stream[4..8].to_vec());
}

#[test]
fn reset_discards_the_old_stream() {
    let mut assembler = FrameAssembler::new(4, 2);
    for &sample in &bits(&[9.0, 9.0, 9.0, 9.0]) {
        assembler.feed(sample);
    }
    // A topology change resizes in place and zeroes all state: the next
    // frame may contain only samples fed after the reset.
    assembler.reset(4, 4);
    let fresh = bits(&[1.0, 2.0, 3.0, 4.0]);
    let mut ready = false;
    for &sample in &fresh {
        ready = assembler.feed(sample);
    }
    assert!(ready);
    assert_eq!(assembler.frame(), fresh);
}
