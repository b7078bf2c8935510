use wispr_core::segmenter::{WhisperSegmenter, FRAME_BYTES, FRAME_SAMPLES, MAX_UTTERANCE_FRAMES};

fn dummy_frame() -> Vec<i16> {
    vec![0; FRAME_SAMPLES]
}

#[test]
fn drops_short_noise() {
    let mut segmenter = WhisperSegmenter::new();
    let mut emitted = None;
    for index in 0..5 {
        emitted = segmenter.push_frame(dummy_frame(), true, index as u64 * FRAME_SAMPLES as u64);
    }
    assert!(emitted.is_none());
    assert!(segmenter.flush().is_none());
}

#[test]
fn flushes_after_silence() {
    let mut segmenter = WhisperSegmenter::new();
    for index in 0..12 {
        let _ = segmenter.push_frame(dummy_frame(), true, index as u64 * FRAME_SAMPLES as u64);
    }
    let mut utterance = None;
    for index in 12..40 {
        utterance = segmenter.push_frame(dummy_frame(), false, index as u64 * FRAME_SAMPLES as u64);
        if utterance.is_some() {
            break;
        }
    }
    assert!(utterance.is_some());
}

#[test]
fn force_flushes_long_utterance() {
    let mut segmenter = WhisperSegmenter::new();
    let mut utterance = None;
    for index in 0..(MAX_UTTERANCE_FRAMES + 5) {
        utterance = segmenter.push_frame(dummy_frame(), true, index as u64 * FRAME_SAMPLES as u64);
        if utterance.is_some() {
            break;
        }
    }
    assert!(utterance.is_some());
}

#[test]
fn silence_ending_an_utterance_is_trimmed() {
    let mut segmenter = WhisperSegmenter::new();
    for index in 0..12u64 {
        assert!(segmenter.push_frame(dummy_frame(), true, (index + 3) * FRAME_SAMPLES as u64).is_none());
    }
    let mut utterance = None;
    for index in 12..40u64 {
        utterance = segmenter.push_frame(dummy_frame(), false, (index + 3) * FRAME_SAMPLES as u64);
        if utterance.is_some() {
            break;
        }
    }
    let utterance = utterance.expect("an utterance");
    assert_eq!(utterance.start_sample, 3 * FRAME_SAMPLES as u64);
    assert_eq!(utterance.samples.len(), 12 * FRAME_SAMPLES);
}

#[test]
fn a_single_voiced_frame_does_not_start_an_utterance() {
    let mut segmenter = WhisperSegmenter::new();
    assert!(segmenter.push_frame(dummy_frame(), true, 0).is_none());
    assert!(segmenter.push_frame(dummy_frame(), false, 480).is_none());
    assert!(segmenter.flush().is_none());
}

#[test]
fn flush_keeps_trailing_silence() {
    let mut segmenter = WhisperSegmenter::new();
    for index in 0..10u64 {
        segmenter.push_frame(dummy_frame(), true, index * 480);
    }
    for index in 10..15u64 {
        segmenter.push_frame(dummy_frame(), false, index * 480);
    }
    let utterance = segmenter.flush().expect("an utterance");
    assert_eq!(utterance.samples.len(), 15 * FRAME_SAMPLES);
    assert_eq!(utterance.start_sample, 0);
}

#[test]
fn bytes_are_cut_into_frames_of_samples() {
    let mut segmenter = WhisperSegmenter::new();
    let silence = vec![0u8; FRAME_BYTES * 3 + 10];
    let utterances = segmenter.push_bytes(&silence).expect("frames the detector takes");
    assert!(utterances.is_empty());
    let more = segmenter.push_bytes(&vec![0u8; FRAME_BYTES - 10]).expect("one more frame");
    assert!(more.is_empty());
}

#[test]
fn bytes_short_of_a_frame_are_kept_without_error() {
    let mut segmenter = WhisperSegmenter::new();
    let out = segmenter.push_bytes(&[0u8; 500]).expect("no frame yet");
    assert!(out.is_empty());
    let out = segmenter.push_bytes(&[0u8; 460]).expect("one silent frame");
    assert!(out.is_empty());
}
