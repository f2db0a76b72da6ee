use std::collections::BTreeMap;

use whispering::vad::{VADEvent, VADState, VADStateEnum, N_SAMPLES};

fn samples_for(seconds: f32) -> usize {
    (16000.0 * seconds) as usize
}

fn frame(value: f32) -> [u32; N_SAMPLES] {
    [value.to_bits(); N_SAMPLES]
}

fn create_test_vad_state() -> VADState {
    VADState::new(
        0.5f32.to_bits(),
        samples_for(0.1),
        samples_for(0.1),
        samples_for(0.1),
    )
}

#[test]
fn test_vad_state_transitions() {
    let mut state = create_test_vad_state();

    assert_eq!(state.state(), VADStateEnum::Silent);
    let event = state.process_frame(0.6f32.to_bits(), &frame(0.0));
    assert_eq!(state.state(), VADStateEnum::SpeechDetected);
    assert!(event.is_none());

    let samples_needed = state.speech_threshold_samples() / N_SAMPLES;
    for _ in 0..samples_needed - 1 {
        let event = state.process_frame(0.6f32.to_bits(), &frame(0.1));
        assert_eq!(event, None);
        assert_eq!(state.state(), VADStateEnum::SpeechDetected);
    }
    let event = state.process_frame(0.6f32.to_bits(), &frame(0.2));
    assert_eq!(event, Some(VADEvent::StartSpeech));
    assert_eq!(state.state(), VADStateEnum::Recording);

    let event = state.process_frame(0.4f32.to_bits(), &frame(0.3));
    assert_eq!(state.state(), VADStateEnum::SilenceDetected);
    assert_eq!(event, None);

    let event = state.process_frame(0.6f32.to_bits(), &frame(0.4));
    assert_eq!(state.state(), VADStateEnum::Recording);
    assert!(event.is_none());

    let samples_needed = state.silence_threshold_samples() / N_SAMPLES;
    for _ in 0..samples_needed {
        let event = state.process_frame(0.4f32.to_bits(), &frame(0.5));
        assert_eq!(event, None);
        assert_eq!(state.state(), VADStateEnum::SilenceDetected);
    }
    let event = state.process_frame(0.4f32.to_bits(), &frame(0.6));
    assert_eq!(state.state(), VADStateEnum::Silent);
    let Some(VADEvent::EndSpeech(s)) = &event else {
        panic!("Expected end of speech")
    };
    let mut out = BTreeMap::new();
    for samp in s {
        let count = out.entry(f32::from_bits(*samp).to_string()).or_insert(0);
        *count += 1;
    }
    println!("out {out:?}");
    assert_eq!(
        out,
        BTreeMap::from([
            ("0".to_string(), 64),
            ("0.1".to_string(), 1024),
            ("0.2".to_string(), 512),
            ("0.3".to_string(), 512),
            ("0.4".to_string(), 512),
            ("0.5".to_string(), 1536),
            ("0.6".to_string(), 512)
        ])
    );
}

#[test]
fn test_threshold_edge_cases() {
    let mut state = create_test_vad_state();

    let event = state.process_frame(0.5f32.to_bits(), &frame(0.0));
    assert_eq!(state.state(), VADStateEnum::Silent);
    assert!(event.is_none());

    let event = state.process_frame(0.5001f32.to_bits(), &frame(0.0));
    assert_eq!(state.state(), VADStateEnum::SpeechDetected);
    assert!(event.is_none());

    let event = state.process_frame(0.4999f32.to_bits(), &frame(0.0));
    assert_eq!(state.state(), VADStateEnum::Silent);
    assert!(event.is_none());
}

#[test]
fn test_pre_buffer_content() {
    let mut state = create_test_vad_state();

    let test_samples = frame(1.0);
    state.process_frame(0.0f32.to_bits(), &test_samples);

    let buffer = state.pre_buffer();
    assert_eq!(buffer.len(), test_samples.len());
    assert_eq!(buffer, test_samples);
}

const SPEECH: f32 = 0.6;
const QUIET: f32 = 0.4;

fn feed(state: &mut VADState, prob: f32, value: f32) -> Option<VADEvent> {
    assert!(state.speech_samples() <= usize::MAX - N_SAMPLES);
    assert!(state.silence_samples() <= usize::MAX - N_SAMPLES);
    state.process_frame(prob.to_bits(), &frame(value))
}

fn values(samples: &[u32]) -> Vec<f32> {
    samples.iter().map(|bits| f32::from_bits(*bits)).collect()
}

#[test]
fn thresholds_of_the_test_detector() {
    let state = create_test_vad_state();
    assert_eq!(state.speech_threshold_samples(), 1600);
    assert_eq!(state.silence_threshold_samples(), 1600);
    assert_eq!(state.threshold(), 0.5f32.to_bits());
    assert_eq!(state.state(), VADStateEnum::Silent);
    assert_eq!(state.speech_samples(), 0);
    assert_eq!(state.silence_samples(), 0);
    assert_eq!(state.utterance_len(), 0);
    assert_eq!(state.overrun(), 0);
    assert!(state.pre_buffer().is_empty());
}

#[test]
fn four_frames_of_speech_start_recording_on_the_fourth() {
    let mut state = create_test_vad_state();
    let mut events = Vec::new();
    let mut states = Vec::new();
    for _ in 0..4 {
        events.push(feed(&mut state, SPEECH, 0.0));
        states.push(state.state());
    }
    assert_eq!(events, vec![None, None, None, Some(VADEvent::StartSpeech)]);
    assert_eq!(
        states,
        vec![
            VADStateEnum::SpeechDetected,
            VADStateEnum::SpeechDetected,
            VADStateEnum::SpeechDetected,
            VADStateEnum::Recording
        ]
    );
    assert_eq!(state.speech_samples(), 4 * N_SAMPLES);
    assert_eq!(state.silence_samples(), 0);
}

#[test]
fn sustained_speech_emits_exactly_one_start() {
    let mut state = create_test_vad_state();
    let mut starts = 0;
    for i in 0..40 {
        let event = feed(&mut state, SPEECH, 0.0);
        if event == Some(VADEvent::StartSpeech) {
            starts += 1;
            assert_eq!(i, 3);
        } else {
            assert_eq!(event, None);
        }
        assert_eq!(state.speech_samples(), (i + 1) * N_SAMPLES);
    }
    assert_eq!(starts, 1);
    assert_eq!(state.state(), VADStateEnum::Recording);
}

#[test]
fn a_silent_detector_never_starts_on_its_first_speech_frame() {
    let mut state = VADState::new(0.5f32.to_bits(), 0, 0, 16);
    assert_eq!(feed(&mut state, SPEECH, 0.0), None);
    assert_eq!(state.state(), VADStateEnum::SpeechDetected);
    assert_eq!(feed(&mut state, SPEECH, 0.0), Some(VADEvent::StartSpeech));
    assert_eq!(state.state(), VADStateEnum::Recording);
}

#[test]
fn probability_at_the_threshold_is_silence_in_every_state() {
    let mut state = create_test_vad_state();
    for _ in 0..10 {
        assert_eq!(feed(&mut state, 0.5, 0.0), None);
        assert_eq!(state.state(), VADStateEnum::Silent);
        assert_eq!(state.speech_samples(), 0);
    }
    assert_eq!(state.silence_samples(), 10 * N_SAMPLES);
    feed(&mut state, SPEECH, 0.0);
    assert_eq!(state.state(), VADStateEnum::SpeechDetected);
    assert_eq!(feed(&mut state, 0.5, 0.0), None);
    assert_eq!(state.state(), VADStateEnum::Silent);
    for _ in 0..4 {
        feed(&mut state, SPEECH, 0.0);
    }
    assert_eq!(state.state(), VADStateEnum::Recording);
    assert_eq!(feed(&mut state, 0.5, 0.0), None);
    assert_eq!(state.state(), VADStateEnum::SilenceDetected);
}

#[test]
fn silence_detour_then_speech_resumes_without_event() {
    let mut state = create_test_vad_state();
    let mut events = Vec::new();
    for _ in 0..4 {
        events.push(feed(&mut state, SPEECH, 0.0));
    }
    assert_eq!(state.state(), VADStateEnum::Recording);
    for _ in 0..3 {
        events.push(feed(&mut state, QUIET, 0.0));
        assert_eq!(state.state(), VADStateEnum::SilenceDetected);
    }
    events.push(feed(&mut state, SPEECH, 0.0));
    assert_eq!(state.state(), VADStateEnum::Recording);
    let emitted: Vec<&VADEvent> = events.iter().flatten().collect();
    assert_eq!(emitted, vec![&VADEvent::StartSpeech]);
    assert_eq!(state.silence_samples(), 0);
    assert_eq!(state.speech_samples(), N_SAMPLES);
}

#[test]
fn four_quiet_frames_after_four_of_speech_end_the_utterance() {
    // Four quiet frames reach the silence threshold of 1600 samples, and the
    // fourth ends the utterance that the first four frames opened.
    let mut state = create_test_vad_state();
    for _ in 0..4 {
        feed(&mut state, SPEECH, 0.0);
    }
    let mut events = Vec::new();
    for _ in 0..4 {
        events.push(feed(&mut state, QUIET, 0.0));
    }
    assert_eq!(events[0], None);
    assert_eq!(events[1], None);
    assert_eq!(events[2], None);
    assert_eq!(state.state(), VADStateEnum::Silent);
    feed(&mut state, SPEECH, 0.0);
    assert_eq!(state.state(), VADStateEnum::SpeechDetected);
}

#[test]
fn end_speech_holds_the_seed_and_every_frame_since() {
    let mut state = create_test_vad_state();
    for i in 0..4 {
        feed(&mut state, SPEECH, i as f32);
    }
    assert_eq!(state.state(), VADStateEnum::Recording);
    let seed = state.pre_buffer();
    assert_eq!(seed.len(), 1600);
    assert_eq!(state.utterance_len(), 1600);
    let k = state.silence_threshold_samples().div_ceil(N_SAMPLES);
    assert_eq!(k, 4);
    let mut ends = Vec::new();
    for i in 0..k {
        if let Some(event) = feed(&mut state, QUIET, 10.0 + i as f32) {
            ends.push((i, event));
        }
    }
    assert_eq!(ends.len(), 1);
    let (at, VADEvent::EndSpeech(samples)) = &ends[0] else {
        panic!("Expected end of speech")
    };
    assert_eq!(*at, k - 1);
    assert_eq!(samples.len(), seed.len() + k * N_SAMPLES);
    let mut expected: Vec<f32> = Vec::new();
    expected.extend(std::iter::repeat(0.0).take(64));
    for value in [1.0, 2.0, 3.0, 10.0, 11.0, 12.0, 13.0] {
        expected.extend(std::iter::repeat(value).take(N_SAMPLES));
    }
    assert_eq!(values(samples), expected);
    assert_eq!(state.state(), VADStateEnum::Silent);
    assert_eq!(state.utterance_len(), 0);
}

#[test]
fn start_speech_captures_the_most_recent_audio_in_order() {
    let mut state = create_test_vad_state();
    for i in 0..20 {
        assert_eq!(feed(&mut state, QUIET, i as f32), None);
    }
    for i in 20..23 {
        assert_eq!(feed(&mut state, SPEECH, i as f32), None);
    }
    assert_eq!(feed(&mut state, SPEECH, 23.0), Some(VADEvent::StartSpeech));
    let mut expected: Vec<f32> = Vec::new();
    expected.extend(std::iter::repeat(20.0).take(64));
    for value in [21.0, 22.0, 23.0] {
        expected.extend(std::iter::repeat(value).take(N_SAMPLES));
    }
    assert_eq!(values(&state.pre_buffer()), expected);
    assert_eq!(state.utterance_len(), 1600);
    for _ in 0..3 {
        assert_eq!(feed(&mut state, QUIET, 0.5), None);
    }
    let Some(VADEvent::EndSpeech(samples)) = feed(&mut state, QUIET, 0.5) else {
        panic!("Expected end of speech")
    };
    assert_eq!(values(&samples)[..1600], expected[..]);
}

#[test]
fn the_pre_buffer_keeps_rolling_after_an_utterance_has_started() {
    // A second utterance that follows closely is seeded with the most recent
    // audio, which reaches back into the first.
    let mut state = VADState::new(0.5f32.to_bits(), 600, 600, 8 * N_SAMPLES);
    let mut value = 0.0;
    let mut next = |state: &mut VADState, prob: f32| {
        value += 1.0;
        feed(state, prob, value)
    };
    assert_eq!(next(&mut state, SPEECH), None);
    assert_eq!(next(&mut state, SPEECH), Some(VADEvent::StartSpeech));
    assert_eq!(state.pre_buffer().len(), 2 * N_SAMPLES);
    assert_eq!(next(&mut state, QUIET), None);
    assert!(matches!(next(&mut state, QUIET), Some(VADEvent::EndSpeech(_))));
    assert_eq!(next(&mut state, SPEECH), None);
    assert_eq!(next(&mut state, SPEECH), Some(VADEvent::StartSpeech));
    let seed = values(&state.pre_buffer());
    assert_eq!(seed.len(), 6 * N_SAMPLES);
    assert_eq!(state.utterance_len(), 6 * N_SAMPLES);
    for (i, chunk) in seed.chunks(N_SAMPLES).enumerate() {
        assert!(chunk.iter().all(|v| *v == (i + 1) as f32));
    }
}

#[test]
fn one_counter_is_always_zero() {
    let mut state = create_test_vad_state();
    let probs = [0.6, 0.6, 0.4, 0.6, 0.6, 0.6, 0.6, 0.9, 0.1, 0.5, 0.7, 0.2, 0.2, 0.2, 0.2, 0.2, 0.8];
    for prob in probs {
        let before_speech = state.speech_samples();
        let before_silence = state.silence_samples();
        feed(&mut state, prob, 0.0);
        assert!(state.speech_samples() == 0 || state.silence_samples() == 0);
        if prob > 0.5 {
            assert_eq!(state.speech_samples(), before_speech + N_SAMPLES);
        } else {
            assert_eq!(state.silence_samples(), before_silence + N_SAMPLES);
        }
    }
}

#[test]
fn speech_that_stops_too_early_returns_to_silent() {
    let mut state = create_test_vad_state();
    feed(&mut state, SPEECH, 0.0);
    feed(&mut state, SPEECH, 0.0);
    assert_eq!(state.state(), VADStateEnum::SpeechDetected);
    assert_eq!(feed(&mut state, QUIET, 0.0), None);
    assert_eq!(state.state(), VADStateEnum::Silent);
    assert_eq!(state.speech_samples(), 0);
    assert_eq!(state.silence_samples(), N_SAMPLES);
    for _ in 0..3 {
        assert_eq!(feed(&mut state, SPEECH, 0.0), None);
    }
    assert_eq!(feed(&mut state, SPEECH, 0.0), Some(VADEvent::StartSpeech));
}

#[test]
fn a_pre_buffer_smaller_than_a_frame_keeps_the_end_of_the_frame() {
    let mut state = VADState::new(0.5f32.to_bits(), 1600, 1600, 100);
    let mut samples = [0u32; N_SAMPLES];
    for (i, sample) in samples.iter_mut().enumerate() {
        *sample = (i as f32).to_bits();
    }
    state.process_frame(QUIET.to_bits(), &samples);
    let kept = values(&state.pre_buffer());
    let expected: Vec<f32> = (412..512).map(|i| i as f32).collect();
    assert_eq!(kept, expected);
}

#[test]
fn an_exhausted_utterance_buffer_drops_the_oldest_and_reports_it() {
    let mut state = create_test_vad_state();
    for _ in 0..4 {
        feed(&mut state, SPEECH, 0.0);
    }
    assert_eq!(state.utterance_len(), 1600);
    // 960000 samples fit: 1600 are there, 1871 frames more make 959552.
    for i in 0..1871 {
        assert_eq!(feed(&mut state, SPEECH, (i + 1) as f32), None);
        assert_eq!(state.overrun(), 0);
    }
    assert_eq!(state.utterance_len(), 959_552);
    assert_eq!(feed(&mut state, SPEECH, 5000.0), None);
    assert_eq!(state.overrun(), 64);
    assert_eq!(state.utterance_len(), 960_000);
    assert_eq!(feed(&mut state, SPEECH, 5001.0), None);
    assert_eq!(state.overrun(), 512);
    for _ in 0..3 {
        assert_eq!(feed(&mut state, QUIET, 6000.0), None);
    }
    let Some(VADEvent::EndSpeech(samples)) = feed(&mut state, QUIET, 6000.0) else {
        panic!("Expected end of speech")
    };
    assert_eq!(samples.len(), 960_000);
    let heard = values(&samples);
    assert_eq!(heard[960_000 - 1], 6000.0);
    assert_eq!(heard[960_000 - 4 * 512 - 1], 5001.0);
    // 1600 + 1877 frames were appended; the oldest 2624 samples are gone, which
    // are the seed and the first two frames after it.
    assert_eq!(heard[0], 3.0);
    assert_eq!(state.overrun(), 512);
}
