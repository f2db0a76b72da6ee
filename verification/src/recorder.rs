//! The state of one voice-triggered capture session.
//!
//! A session owns the frame assembler and the detector. The audio callback
//! hands it the normalised samples, takes the frames out, has each scored and
//! hands the score back; the session answers with what is to be sent to the
//! consumer. Starting and stopping a session concern the device stream only:
//! the session says what to do with the stream and leaves the detector as it
//! is.

use crate::config::SampleFormat;
use crate::error::Error;
use crate::frame::{FrameAssembler, ASSEMBLER_CAPACITY};
use crate::ieee::{Level, Sample};
use crate::resample::{conversion_of, unsupported_format_message, Resample, StreamFormat};
use crate::ring::{keep_latest, max_ring_capacity, overflow_of};
use crate::vad::{emitted, initial_model, step, Signal, VADEvent, VADState, VadModel, N_SAMPLES};
use std::path::PathBuf;
use vstd::prelude::*;

verus! {

/// What a capture session sends to the consumer of its audio.
#[derive(Debug)]
pub enum Audio {
    /// Speech is coming: the consumer may get ready.
    Warm,
    /// A finished recording, as the path of its file.
    Path(PathBuf),
    /// A finished utterance, as its samples.
    Sample(Vec<Sample>),
}

/// What is to be done with the device stream.
#[derive(Debug, Clone, Copy, PartialEq, Eq, Structural)]
pub enum StreamCommand {
    /// Let the stream run.
    Play,
    /// Hold the stream.
    Pause,
}

/// A message to the consumer as the contracts see it.
pub enum Message {
    Warm,
    Path(PathBuf),
    Sample(Seq<Sample>),
}

impl View for Audio {
    type V = Message;

    open spec fn view(&self) -> Message {
        match *self {
            Audio::Warm => Message::Warm,
            Audio::Path(path) => Message::Path(path),
            Audio::Sample(samples) => Message::Sample(samples@),
        }
    }
}

/// The message that stands for a signal of the detector: a warm-up when
/// speech starts, the samples when it ends.
pub open spec fn message_of(signal: Signal) -> Message {
    match signal {
        Signal::StartSpeech => Message::Warm,
        Signal::EndSpeech(samples) => Message::Sample(samples),
    }
}

/// What a frame makes the session send, if anything.
pub open spec fn sent(m: RecorderModel, prob: Level, frame: Seq<Sample>) -> Option<Message> {
    match emitted(m.detector, prob, frame) {
        Some(signal) => Some(message_of(signal)),
        None => None,
    }
}

/// The messages of an optional `Audio` value.
pub open spec fn message_in(audio: Option<Audio>) -> Option<Message> {
    match audio {
        Some(audio) => Some(audio@),
        None => None,
    }
}

/// What is sent for an event of the detector.
pub fn audio_of(event: VADEvent) -> (audio: Audio)
    ensures
        audio@ == message_of(event@),
{
    match event {
        VADEvent::StartSpeech => Audio::Warm,
        VADEvent::EndSpeech(samples) => Audio::Sample(samples),
    }
}

/// A session as a mathematical value.
pub struct RecorderModel {
    /// Samples that wait to be framed, oldest first.
    pub pending: Seq<Sample>,
    /// Capacity of the frame assembler.
    pub pending_capacity: nat,
    /// The detector.
    pub detector: VadModel,
    /// The conversion that the device stream needs, if any.
    pub resampler: Option<Resample>,
    /// Whether the session was last told to start.
    pub running: bool,
}

/// The session after `start_recording`.
pub open spec fn started(m: RecorderModel) -> RecorderModel {
    RecorderModel { running: true, ..m }
}

/// The session after `stop_recording`.
pub open spec fn stopped(m: RecorderModel) -> RecorderModel {
    RecorderModel { running: false, ..m }
}

/// The session of a voice-triggered capture.
pub struct AudioRecorder {
    assembler: FrameAssembler,
    vad: VADState,
    resampler: Option<Resample>,
    running: bool,
}

impl View for AudioRecorder {
    type V = RecorderModel;

    closed spec fn view(&self) -> RecorderModel {
        RecorderModel {
            pending: self.assembler@,
            pending_capacity: self.assembler.capacity(),
            detector: self.vad@,
            resampler: self.resampler,
            running: self.running,
        }
    }
}

impl AudioRecorder {
    /// A session for a stream of the given format: stopped, with nothing
    /// queued and a silent detector.
    ///
    /// The stream must be in 32-bit floating point; any other format is
    /// refused here, when the session is constructed, with
    /// [`Error::AudioDevice`]. The thresholds are as for [`VADState::new`].
    pub fn new(
        stream: &StreamFormat,
        threshold: Level,
        silence_threshold_samples: usize,
        speech_threshold_samples: usize,
        pre_buffer_size: usize,
    ) -> (made: Result<Self, Error>)
        requires
            0 < pre_buffer_size <= max_ring_capacity(),
        ensures
            made is Ok <==> stream.sample_format == Some(SampleFormat::F32),
            made matches Ok(recorder) ==> recorder@ == (RecorderModel {
                pending: Seq::<Sample>::empty(),
                pending_capacity: ASSEMBLER_CAPACITY as nat,
                detector: initial_model(
                    threshold,
                    speech_threshold_samples as nat,
                    silence_threshold_samples as nat,
                    pre_buffer_size as nat,
                ),
                resampler: conversion_of(*stream),
                running: false,
            }),
            made matches Err(error) ==> (error matches Error::AudioDevice(message) && message@
                == unsupported_format_message()),
    {
        match Resample::for_stream(stream) {
            Ok(resampler) => Ok(
                AudioRecorder {
                    assembler: FrameAssembler::new(),
                    vad: VADState::new(
                        threshold,
                        speech_threshold_samples,
                        silence_threshold_samples,
                        pre_buffer_size,
                    ),
                    resampler,
                    running: false,
                },
            ),
            Err(error) => Err(error),
        }
    }

    /// The conversion that the samples of the device need before they are
    /// pushed, if any.
    pub fn resampler(&self) -> (resampler: Option<Resample>)
        ensures
            resampler == self@.resampler,
    {
        self.resampler
    }

    /// Whether the session was last told to start.
    pub fn is_running(&self) -> (running: bool)
        ensures
            running == self@.running,
    {
        self.running
    }

    /// The detector of the session.
    pub fn detector(&self) -> (vad: &VADState)
        ensures
            vad@ == self@.detector,
    {
        &self.vad
    }

    /// Starts the session: the stream is to play. Nothing else changes,
    /// whether the session was running or not.
    pub fn start_recording(&mut self) -> (command: StreamCommand)
        ensures
            command == StreamCommand::Play,
            final(self)@ == started(old(self)@),
    {
        self.running = true;
        StreamCommand::Play
    }

    /// Stops the session: the stream is to pause. Nothing else changes,
    /// whether the session was running or not; an utterance in progress is
    /// neither flushed nor finished.
    pub fn stop_recording(&mut self) -> (command: StreamCommand)
        ensures
            command == StreamCommand::Pause,
            final(self)@ == stopped(old(self)@),
    {
        self.running = false;
        StreamCommand::Pause
    }

    /// Queues a chunk of normalised samples for framing and returns how many
    /// samples an overrun cost, see [`FrameAssembler::push`].
    pub fn push(&mut self, chunk: &[Sample]) -> (dropped: usize)
        ensures
            final(self)@ == (RecorderModel {
                pending: keep_latest(old(self)@.pending, chunk@, old(self)@.pending_capacity),
                ..old(self)@
            }),
            dropped == overflow_of(
                old(self)@.pending.len(),
                chunk@.len(),
                old(self)@.pending_capacity,
            ),
    {
        self.assembler.push(chunk)
    }

    /// Takes the next frame out of the queue, see
    /// [`FrameAssembler::next_frame`].
    pub fn next_frame(&mut self, frame: &mut [Sample; N_SAMPLES]) -> (ready: bool)
        ensures
            ready == (old(self)@.pending.len() >= N_SAMPLES),
            ready ==> final(frame)@ == old(self)@.pending.take(N_SAMPLES as int),
            ready ==> final(self)@ == (RecorderModel {
                pending: old(self)@.pending.skip(N_SAMPLES as int),
                ..old(self)@
            }),
            !ready ==> final(frame)@ == old(frame)@ && final(self)@ == old(self)@,
    {
        self.assembler.next_frame(frame)
    }

    /// Takes in a frame with the outcome of scoring it.
    ///
    /// A score moves the detector by one step, and what the step emits is
    /// returned as the message to send. A scoring failure is fatal to the
    /// session: it is handed on as [`Error::AudioStream`] with the scorer's
    /// message, and the detector is left untouched rather than fed a made-up
    /// probability.
    pub fn process_scored(
        &mut self,
        score: Result<Level, String>,
        frame: &[Sample; N_SAMPLES],
    ) -> (outcome: Result<Option<Audio>, Error>)
        requires
            old(self)@.detector.speech_samples + N_SAMPLES <= usize::MAX,
            old(self)@.detector.silence_samples + N_SAMPLES <= usize::MAX,
        ensures
            score matches Ok(prob) ==> {
                &&& final(self)@ == (RecorderModel {
                    detector: step(old(self)@.detector, prob, frame@),
                    ..old(self)@
                })
                &&& outcome matches Ok(audio)
                &&& message_in(audio) == sent(old(self)@, prob, frame@)
            },
            score matches Err(reason) ==> final(self)@ == old(self)@ && outcome == Err::<
                Option<Audio>,
                Error,
            >(Error::AudioStream(reason)),
    {
        match score {
            Ok(prob) => {
                match self.vad.process_frame(prob, frame) {
                    Some(event) => Ok(Some(audio_of(event))),
                    None => Ok(None),
                }
            },
            Err(reason) => Err(Error::AudioStream(reason)),
        }
    }
}

/// Starting or stopping twice is the same as doing it once, and neither
/// touches the detector or the queued samples: a session that is started
/// while running, or stopped while stopped, is exactly as it was.
pub proof fn lemma_start_and_stop_are_idempotent(m: RecorderModel)
    ensures
        started(started(m)) == started(m),
        stopped(stopped(m)) == stopped(m),
        m.running ==> started(m) == m,
        !m.running ==> stopped(m) == m,
        started(m).detector == m.detector && started(m).pending == m.pending,
        stopped(m).detector == m.detector && stopped(m).pending == m.pending,
{
}

} // verus!
