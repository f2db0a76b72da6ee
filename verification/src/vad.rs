//! The voice activity state machine and its two sample buffers.
//!
//! The detector is fed one frame at a time together with the speech
//! probability that a scorer gave the frame. It keeps a rolling pre-buffer of
//! the most recent audio, decides with hysteresis when an utterance starts
//! and ends, and hands the finished utterance out as one buffer.
//!
//! What a frame does is stated once, as the pure function [`step`] on
//! [`VadModel`], with [`emitted`] for the event; [`VADState::process_frame`]
//! is proved to compute both.

use crate::ieee::{exceeds, is_above, Level, Sample};
use crate::ring::{
    drain, keep_latest, max_ring_capacity, overflow_of, push_latest, ring_capacity, ring_clear,
    ring_contents, ring_len, ring_new, snapshot, SampleRing,
};
use vstd::prelude::*;

verus! {

/// Samples in one frame, the unit that is scored and classified.
pub const N_SAMPLES: usize = 512;

/// Samples per second of the canonical stream.
pub const SAMPLE_RATE: usize = 16000;

/// Capacity of the utterance buffer: sixty seconds of audio.
pub const UTTERANCE_CAPACITY: usize = 60 * SAMPLE_RATE;

/// What the detector reports to its consumer.
#[derive(Debug, Clone, PartialEq)]
pub enum VADEvent {
    /// Speech has been confirmed: an utterance has begun.
    StartSpeech,
    /// The utterance has ended; these are its samples, oldest first.
    EndSpeech(Vec<Sample>),
}

/// The four states of the detector.
#[derive(Debug, Clone, Copy, PartialEq, Eq, Structural)]
pub enum VADStateEnum {
    /// No speech.
    Silent,
    /// Speech has been heard, but not yet for long enough to record.
    SpeechDetected,
    /// An utterance is being recorded.
    Recording,
    /// Silence within an utterance, not yet long enough to end it.
    SilenceDetected,
}

/// An event as the contracts see it.
pub enum Signal {
    StartSpeech,
    EndSpeech(Seq<Sample>),
}

impl View for VADEvent {
    type V = Signal;

    open spec fn view(&self) -> Signal {
        match *self {
            VADEvent::StartSpeech => Signal::StartSpeech,
            VADEvent::EndSpeech(samples) => Signal::EndSpeech(samples@),
        }
    }
}

/// The event of a call as a mathematical value.
pub open spec fn signal_of(event: Option<VADEvent>) -> Option<Signal> {
    match event {
        Some(event) => Some(event@),
        None => None,
    }
}

/// The detector as a mathematical value.
pub struct VadModel {
    /// The current state.
    pub state: VADStateEnum,
    /// Consecutive samples classified as speech.
    pub speech_samples: nat,
    /// Consecutive samples classified as silence.
    pub silence_samples: nat,
    /// Speech that must be sustained before recording starts.
    pub speech_threshold_samples: nat,
    /// Silence that must be sustained before an utterance ends.
    pub silence_threshold_samples: nat,
    /// A probability strictly above this level counts as speech.
    pub threshold: Level,
    /// The pre-buffer, oldest sample first.
    pub pre_buffer: Seq<Sample>,
    /// Capacity of the pre-buffer.
    pub pre_buffer_capacity: nat,
    /// The utterance buffer, oldest sample first.
    pub utterance: Seq<Sample>,
    /// Capacity of the utterance buffer.
    pub utterance_capacity: nat,
    /// Samples that the utterance buffer lost to overflow on the last frame.
    pub overrun: nat,
}

/// Whether a frame with this probability counts as speech.
pub open spec fn is_speech(m: VadModel, prob: Level) -> bool {
    exceeds(prob, m.threshold)
}

/// The speech counter after a frame: grown by one frame of speech, reset by
/// one of silence.
pub open spec fn speech_after(m: VadModel, prob: Level) -> nat {
    if is_speech(m, prob) {
        m.speech_samples + N_SAMPLES as nat
    } else {
        0
    }
}

/// The silence counter after a frame: grown by one frame of silence, reset
/// by one of speech.
pub open spec fn silence_after(m: VadModel, prob: Level) -> nat {
    if is_speech(m, prob) {
        0
    } else {
        m.silence_samples + N_SAMPLES as nat
    }
}

/// Whether this frame confirms speech: it is the frame on which
/// `SpeechDetected` has lasted long enough.
pub open spec fn starts_utterance(m: VadModel, prob: Level) -> bool {
    m.state == VADStateEnum::SpeechDetected && is_speech(m, prob) && speech_after(m, prob)
        >= m.speech_threshold_samples
}

/// Whether this frame ends the utterance: it is the frame on which silence
/// within an utterance has lasted long enough.
pub open spec fn ends_utterance(m: VadModel, prob: Level) -> bool {
    (m.state == VADStateEnum::Recording || m.state == VADStateEnum::SilenceDetected)
        && !is_speech(m, prob) && silence_after(m, prob) >= m.silence_threshold_samples
}

/// The state after a frame.
pub open spec fn state_after(m: VadModel, prob: Level) -> VADStateEnum {
    match m.state {
        VADStateEnum::Silent => if is_speech(m, prob) {
            VADStateEnum::SpeechDetected
        } else {
            VADStateEnum::Silent
        },
        VADStateEnum::SpeechDetected => if !is_speech(m, prob) {
            VADStateEnum::Silent
        } else if starts_utterance(m, prob) {
            VADStateEnum::Recording
        } else {
            VADStateEnum::SpeechDetected
        },
        VADStateEnum::Recording | VADStateEnum::SilenceDetected => if is_speech(m, prob) {
            VADStateEnum::Recording
        } else if ends_utterance(m, prob) {
            VADStateEnum::Silent
        } else {
            VADStateEnum::SilenceDetected
        },
    }
}

/// The pre-buffer after a frame: the frame is appended in every state.
pub open spec fn pre_buffer_after(m: VadModel, frame: Seq<Sample>) -> Seq<Sample> {
    keep_latest(m.pre_buffer, frame, m.pre_buffer_capacity)
}

/// The utterance buffer once the frame has been appended, which happens in
/// every state but `Silent` and before the transition is decided.
pub open spec fn utterance_with(m: VadModel, frame: Seq<Sample>) -> Seq<Sample> {
    if m.state == VADStateEnum::Silent {
        m.utterance
    } else {
        keep_latest(m.utterance, frame, m.utterance_capacity)
    }
}

/// What seeds the utterance buffer when speech is confirmed: the pre-buffer,
/// this frame included.
pub open spec fn seed(m: VadModel, frame: Seq<Sample>) -> Seq<Sample> {
    keep_latest(Seq::<Sample>::empty(), pre_buffer_after(m, frame), m.utterance_capacity)
}

/// The utterance buffer after a frame.
pub open spec fn utterance_after(m: VadModel, prob: Level, frame: Seq<Sample>) -> Seq<Sample> {
    if starts_utterance(m, prob) {
        seed(m, frame)
    } else if ends_utterance(m, prob) {
        Seq::<Sample>::empty()
    } else {
        utterance_with(m, frame)
    }
}

/// The samples that overflow cost the utterance buffer on this frame.
pub open spec fn overrun_after(m: VadModel, frame: Seq<Sample>) -> nat {
    if m.state == VADStateEnum::Silent {
        0
    } else {
        overflow_of(m.utterance.len(), frame.len(), m.utterance_capacity)
    }
}

/// The detector after one frame with the given probability.
pub open spec fn step(m: VadModel, prob: Level, frame: Seq<Sample>) -> VadModel {
    VadModel {
        state: state_after(m, prob),
        speech_samples: speech_after(m, prob),
        silence_samples: silence_after(m, prob),
        speech_threshold_samples: m.speech_threshold_samples,
        silence_threshold_samples: m.silence_threshold_samples,
        threshold: m.threshold,
        pre_buffer: pre_buffer_after(m, frame),
        pre_buffer_capacity: m.pre_buffer_capacity,
        utterance: utterance_after(m, prob, frame),
        utterance_capacity: m.utterance_capacity,
        overrun: overrun_after(m, frame),
    }
}

/// The event of one frame: `StartSpeech` on the frame that confirms speech,
/// `EndSpeech` with the whole utterance on the frame that ends it, and
/// nothing on any other.
pub open spec fn emitted(m: VadModel, prob: Level, frame: Seq<Sample>) -> Option<Signal> {
    if starts_utterance(m, prob) {
        Some(Signal::StartSpeech)
    } else if ends_utterance(m, prob) {
        Some(Signal::EndSpeech(utterance_with(m, frame)))
    } else {
        None
    }
}

/// The detector of one capture session.
pub struct VADState {
    state: VADStateEnum,
    speech_samples: usize,
    silence_samples: usize,
    speech_threshold_samples: usize,
    silence_threshold_samples: usize,
    threshold: Level,
    audio_buffer: SampleRing,
    pre_buffer: SampleRing,
    overrun: usize,
}

impl View for VADState {
    type V = VadModel;

    closed spec fn view(&self) -> VadModel {
        VadModel {
            state: self.state,
            speech_samples: self.speech_samples as nat,
            silence_samples: self.silence_samples as nat,
            speech_threshold_samples: self.speech_threshold_samples as nat,
            silence_threshold_samples: self.silence_threshold_samples as nat,
            threshold: self.threshold,
            pre_buffer: ring_contents(self.pre_buffer),
            pre_buffer_capacity: ring_capacity(self.pre_buffer),
            utterance: ring_contents(self.audio_buffer),
            utterance_capacity: ring_capacity(self.audio_buffer),
            overrun: self.overrun as nat,
        }
    }
}

/// A detector that has seen no audio.
pub open spec fn initial_model(
    threshold: Level,
    speech_threshold_samples: nat,
    silence_threshold_samples: nat,
    pre_buffer_size: nat,
) -> VadModel {
    VadModel {
        state: VADStateEnum::Silent,
        speech_samples: 0,
        silence_samples: 0,
        speech_threshold_samples,
        silence_threshold_samples,
        threshold,
        pre_buffer: Seq::<Sample>::empty(),
        pre_buffer_capacity: pre_buffer_size,
        utterance: Seq::<Sample>::empty(),
        utterance_capacity: UTTERANCE_CAPACITY as nat,
        overrun: 0,
    }
}

impl VADState {
    /// A silent detector with empty buffers.
    ///
    /// `threshold` is the level a probability must exceed to count as speech.
    /// The two sample counts are the durations of speech and of silence that
    /// must be sustained, and `pre_buffer_size` is the capacity of the
    /// pre-buffer, each a duration at [`SAMPLE_RATE`]. The pre-buffer cannot
    /// be made without room for a sample.
    pub fn new(
        threshold: Level,
        speech_threshold_samples: usize,
        silence_threshold_samples: usize,
        pre_buffer_size: usize,
    ) -> (vad: Self)
        requires
            0 < pre_buffer_size <= max_ring_capacity(),
        ensures
            vad@ == initial_model(
                threshold,
                speech_threshold_samples as nat,
                silence_threshold_samples as nat,
                pre_buffer_size as nat,
            ),
    {
        assert(UTTERANCE_CAPACITY <= max_ring_capacity());
        VADState {
            state: VADStateEnum::Silent,
            speech_samples: 0,
            silence_samples: 0,
            speech_threshold_samples,
            silence_threshold_samples,
            threshold,
            audio_buffer: ring_new(UTTERANCE_CAPACITY),
            pre_buffer: ring_new(pre_buffer_size),
            overrun: 0,
        }
    }

    /// The current state.
    pub fn state(&self) -> (state: VADStateEnum)
        ensures
            state == self@.state,
    {
        self.state
    }

    /// Consecutive samples classified as speech so far.
    pub fn speech_samples(&self) -> (count: usize)
        ensures
            count == self@.speech_samples,
    {
        self.speech_samples
    }

    /// Consecutive samples classified as silence so far.
    pub fn silence_samples(&self) -> (count: usize)
        ensures
            count == self@.silence_samples,
    {
        self.silence_samples
    }

    /// Speech that must be sustained before recording starts, in samples.
    pub fn speech_threshold_samples(&self) -> (count: usize)
        ensures
            count == self@.speech_threshold_samples,
    {
        self.speech_threshold_samples
    }

    /// Silence that must be sustained before an utterance ends, in samples.
    pub fn silence_threshold_samples(&self) -> (count: usize)
        ensures
            count == self@.silence_threshold_samples,
    {
        self.silence_threshold_samples
    }

    /// The level that a probability must exceed to count as speech.
    pub fn threshold(&self) -> (level: Level)
        ensures
            level == self@.threshold,
    {
        self.threshold
    }

    /// A copy of the pre-buffer, oldest sample first.
    pub fn pre_buffer(&self) -> (samples: Vec<Sample>)
        ensures
            samples@ == self@.pre_buffer,
    {
        snapshot(&self.pre_buffer)
    }

    /// How many samples the utterance buffer holds.
    pub fn utterance_len(&self) -> (count: usize)
        ensures
            count == self@.utterance.len(),
    {
        ring_len(&self.audio_buffer)
    }

    /// How many samples the utterance buffer lost to overflow on the last
    /// frame: zero unless the buffer is exhausted.
    pub fn overrun(&self) -> (count: usize)
        ensures
            count == self@.overrun,
    {
        self.overrun
    }

    /// Takes in one scored frame: appends it to the buffers, moves the state
    /// machine, and returns the event of the frame, if there is one.
    ///
    /// The counters grow by a frame at a time and must have room for it.
    pub fn process_frame(&mut self, speech_prob: Level, samples: &[Sample; N_SAMPLES]) -> (event:
        Option<VADEvent>)
        requires
            old(self)@.speech_samples + N_SAMPLES <= usize::MAX,
            old(self)@.silence_samples + N_SAMPLES <= usize::MAX,
        ensures
            final(self)@ == step(old(self)@, speech_prob, samples@),
            signal_of(event) == emitted(old(self)@, speech_prob, samples@),
    {
        let _ = push_latest(&mut self.pre_buffer, samples);
        if self.state != VADStateEnum::Silent {
            self.overrun = push_latest(&mut self.audio_buffer, samples);
        } else {
            self.overrun = 0;
        }
        let speech: bool = is_above(speech_prob, self.threshold);
        if speech {
            self.speech_samples = self.speech_samples + N_SAMPLES;
            self.silence_samples = 0;
        } else {
            self.silence_samples = self.silence_samples + N_SAMPLES;
            self.speech_samples = 0;
        }
        match self.state {
            VADStateEnum::Silent => {
                if speech {
                    self.state = VADStateEnum::SpeechDetected;
                }
                None
            },
            VADStateEnum::SpeechDetected => {
                if !speech {
                    self.state = VADStateEnum::Silent;
                    None
                } else if self.speech_samples >= self.speech_threshold_samples {
                    self.state = VADStateEnum::Recording;
                    let _ = ring_clear(&mut self.audio_buffer);
                    let recent: Vec<Sample> = snapshot(&self.pre_buffer);
                    let _ = push_latest(&mut self.audio_buffer, recent.as_slice());
                    Some(VADEvent::StartSpeech)
                } else {
                    None
                }
            },
            VADStateEnum::Recording | VADStateEnum::SilenceDetected => {
                if speech {
                    self.state = VADStateEnum::Recording;
                    None
                } else if self.silence_samples >= self.silence_threshold_samples {
                    self.state = VADStateEnum::Silent;
                    let utterance: Vec<Sample> = drain(&mut self.audio_buffer);
                    Some(VADEvent::EndSpeech(utterance))
                } else {
                    self.state = VADStateEnum::SilenceDetected;
                    None
                }
            },
        }
    }
}

} // verus!
