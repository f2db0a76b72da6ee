//! Runs of the detector over many frames, and what holds of every run.

use crate::ieee::{Level, Sample};
use crate::ring::{keep_latest, lemma_keep_latest_narrowed, lemma_keep_latest_twice};
use crate::vad::{
    emitted, initial_model, is_speech, step, Signal, VADStateEnum, VadModel, N_SAMPLES,
};
use vstd::prelude::*;

verus! {

/// One frame together with the probability that the scorer gave it.
pub struct Scored {
    pub prob: Level,
    pub frame: Seq<Sample>,
}

/// The detector after it has taken in the inputs, in order.
pub open spec fn run(m: VadModel, inputs: Seq<Scored>) -> VadModel
    decreases inputs.len(),
{
    if inputs.len() == 0 {
        m
    } else {
        step(run(m, inputs.drop_last()), inputs.last().prob, inputs.last().frame)
    }
}

/// The event of input `i` of a run.
pub open spec fn event_at(m: VadModel, inputs: Seq<Scored>, i: int) -> Option<Signal> {
    emitted(run(m, inputs.take(i)), inputs[i].prob, inputs[i].frame)
}

/// All the audio of the inputs, in order.
pub open spec fn audio(inputs: Seq<Scored>) -> Seq<Sample>
    decreases inputs.len(),
{
    if inputs.len() == 0 {
        Seq::<Sample>::empty()
    } else {
        audio(inputs.drop_last()) + inputs.last().frame
    }
}

/// Whether the state belongs to an utterance that is being recorded.
pub open spec fn in_utterance(state: VADStateEnum) -> bool {
    state == VADStateEnum::Recording || state == VADStateEnum::SilenceDetected
}

/// What holds of every detector that was made silent and then fed frames:
/// one counter is always zero, and each state fixes which.
pub open spec fn consistent(m: VadModel) -> bool {
    &&& m.speech_samples == 0 || m.silence_samples == 0
    &&& m.state == VADStateEnum::Silent ==> m.speech_samples == 0
    &&& m.state == VADStateEnum::SpeechDetected ==> m.silence_samples == 0
    &&& m.state == VADStateEnum::Recording ==> m.silence_samples == 0
    &&& m.state == VADStateEnum::SilenceDetected ==> m.speech_samples == 0
    &&& m.pre_buffer.len() <= m.pre_buffer_capacity
    &&& m.utterance.len() <= m.utterance_capacity
}

/// A detector that has seen no audio is consistent.
pub proof fn lemma_initial_is_consistent(
    threshold: Level,
    speech_threshold_samples: nat,
    silence_threshold_samples: nat,
    pre_buffer_size: nat,
)
    ensures
        consistent(
            initial_model(
                threshold,
                speech_threshold_samples,
                silence_threshold_samples,
                pre_buffer_size,
            ),
        ),
{
}

/// The number of consecutive speech frames after which a silent detector
/// confirms speech: the first frame only leaves `Silent`, and each later one
/// confirms as soon as the frames so far cover the speech threshold.
pub open spec fn frames_to_confirm(speech_threshold_samples: nat) -> nat {
    let covering = (speech_threshold_samples + N_SAMPLES - 1) / (N_SAMPLES as int);
    if covering < 2 {
        2
    } else {
        covering as nat
    }
}

/// A run is a run of its first inputs followed by one more step.
pub proof fn lemma_run_extends(m: VadModel, inputs: Seq<Scored>, i: int)
    requires
        0 <= i < inputs.len(),
    ensures
        run(m, inputs.take(i + 1)) == step(run(m, inputs.take(i)), inputs[i].prob, inputs[i].frame),
        audio(inputs.take(i + 1)) == audio(inputs.take(i)) + inputs[i].frame,
{
    assert(inputs.take(i + 1).drop_last() == inputs.take(i));
}

/// Every step keeps a detector consistent, and after every step one of the
/// two counters is zero: counting speech resets the silence count and
/// counting silence resets the speech count.
pub proof fn lemma_step_keeps_consistent(m: VadModel, prob: Level, frame: Seq<Sample>)
    ensures
        step(m, prob, frame).speech_samples == 0 || step(m, prob, frame).silence_samples == 0,
        consistent(m) ==> consistent(step(m, prob, frame)),
{
}

/// Every run keeps a detector consistent.
pub proof fn lemma_run_keeps_consistent(m: VadModel, inputs: Seq<Scored>)
    requires
        consistent(m),
    ensures
        consistent(run(m, inputs)),
    decreases inputs.len(),
{
    if inputs.len() > 0 {
        lemma_run_keeps_consistent(m, inputs.drop_last());
        lemma_step_keeps_consistent(
            run(m, inputs.drop_last()),
            inputs.last().prob,
            inputs.last().frame,
        );
    }
}

/// Events mark transitions, one for one. `StartSpeech` is emitted exactly on
/// a step into `Recording` from outside an utterance, `EndSpeech` exactly on a
/// step from inside an utterance to `Silent`, and no other step emits.
pub proof fn lemma_events_mark_transitions(m: VadModel, prob: Level, frame: Seq<Sample>)
    ensures
        emitted(m, prob, frame) == Some(Signal::StartSpeech) <==> !in_utterance(m.state) && step(
            m,
            prob,
            frame,
        ).state == VADStateEnum::Recording,
        emitted(m, prob, frame) matches Some(Signal::EndSpeech(_)) <==> in_utterance(m.state)
            && step(m, prob, frame).state == VADStateEnum::Silent,
        emitted(m, prob, frame) is None <==> in_utterance(m.state) == in_utterance(
            step(m, prob, frame).state,
        ),
{
}

/// A probability equal to the threshold counts as silence: a silent detector
/// stays silent and emits nothing, and in every state the step is the one
/// that any other silent frame would cause.
pub proof fn lemma_threshold_counts_as_silence(m: VadModel, quiet: Level, frame: Seq<Sample>)
    requires
        !is_speech(m, quiet),
    ensures
        !is_speech(m, m.threshold),
        step(m, m.threshold, frame) == step(m, quiet, frame),
        emitted(m, m.threshold, frame) == emitted(m, quiet, frame),
        m.state == VADStateEnum::Silent ==> step(m, m.threshold, frame).state
            == VADStateEnum::Silent && emitted(m, m.threshold, frame) is None,
{
}

/// Sustained speech starts exactly one utterance. From a silent detector,
/// while every frame is speech, the first frame leads to `SpeechDetected`, the
/// detector stays there until frame [`frames_to_confirm`] leads to
/// `Recording`, where it remains; that frame emits `StartSpeech` and no other
/// frame emits anything.
pub proof fn lemma_sustained_speech_starts_once(m: VadModel, inputs: Seq<Scored>, i: int)
    requires
        consistent(m),
        m.state == VADStateEnum::Silent,
        forall|j: int| 0 <= j < inputs.len() ==> is_speech(m, #[trigger] inputs[j].prob),
        0 <= i < inputs.len(),
    ensures
        run(m, inputs.take(i + 1)).speech_samples == (i + 1) * N_SAMPLES,
        run(m, inputs.take(i + 1)).state == if i + 1 < frames_to_confirm(
            m.speech_threshold_samples,
        ) {
            VADStateEnum::SpeechDetected
        } else {
            VADStateEnum::Recording
        },
        event_at(m, inputs, i) == if i + 1 == frames_to_confirm(m.speech_threshold_samples) {
            Some(Signal::StartSpeech)
        } else {
            None
        },
    decreases i,
{
    lemma_run_extends(m, inputs, i);
    lemma_run_keeps_settings(m, inputs.take(i));
    if i == 0 {
        assert(inputs.take(0) =~= Seq::<Scored>::empty());
    } else {
        lemma_sustained_speech_starts_once(m, inputs, i - 1);
    }
    let before = run(m, inputs.take(i));
    assert(is_speech(before, inputs[i].prob));
    let needed = m.speech_threshold_samples as int;
    let covering = (needed + 511) / 512;
    assert((i + 1) * 512 >= needed <==> i + 1 >= covering);
}

/// The smaller of the two buffer capacities: as much of the pre-buffer as
/// the utterance buffer can be seeded with.
pub open spec fn seed_capacity(m: VadModel) -> nat {
    if m.pre_buffer_capacity <= m.utterance_capacity {
        m.pre_buffer_capacity
    } else {
        m.utterance_capacity
    }
}

/// The pre-buffer always holds the most recent audio. After any run, in
/// whatever states, it is what the drop-oldest policy keeps of what it held
/// before and all the audio of the run: the newest samples up to its
/// capacity, in order and without gaps.
pub proof fn lemma_pre_buffer_holds_recent_audio(m: VadModel, inputs: Seq<Scored>)
    requires
        consistent(m),
    ensures
        run(m, inputs).pre_buffer == keep_latest(
            m.pre_buffer,
            audio(inputs),
            m.pre_buffer_capacity,
        ),
    decreases inputs.len(),
{
    if inputs.len() == 0 {
        assert(m.pre_buffer + audio(inputs) == m.pre_buffer);
    } else {
        let earlier = inputs.drop_last();
        lemma_pre_buffer_holds_recent_audio(m, earlier);
        lemma_run_keeps_settings(m, earlier);
        lemma_keep_latest_twice(
            m.pre_buffer,
            audio(earlier),
            inputs.last().frame,
            m.pre_buffer_capacity,
        );
    }
}

/// The frame that emits `StartSpeech` seeds the utterance buffer with the
/// pre-buffer as it stands at that moment: the most recent audio seen up to
/// and including that frame. Where the pre-buffer is no larger than the
/// utterance buffer, as it is for every pre-roll of up to a minute, the seed
/// is the whole pre-buffer.
pub proof fn lemma_start_captures_recent_audio(m: VadModel, inputs: Seq<Scored>)
    requires
        consistent(m),
        inputs.len() > 0,
        event_at(m, inputs, inputs.len() - 1) == Some(Signal::StartSpeech),
    ensures
        run(m, inputs).utterance == keep_latest(m.pre_buffer, audio(inputs), seed_capacity(m)),
        m.pre_buffer_capacity <= m.utterance_capacity ==> run(m, inputs).utterance == run(
            m,
            inputs,
        ).pre_buffer,
{
    let last = inputs.len() - 1;
    assert(inputs.take(last) == inputs.drop_last());
    lemma_run_keeps_settings(m, inputs.drop_last());
    lemma_pre_buffer_holds_recent_audio(m, inputs);
    let recent = run(m, inputs).pre_buffer;
    if m.pre_buffer_capacity <= m.utterance_capacity {
        assert(Seq::<Sample>::empty() + recent == recent);
    } else {
        lemma_keep_latest_narrowed(
            m.pre_buffer,
            audio(inputs),
            m.pre_buffer_capacity,
            m.utterance_capacity,
        );
    }
}

/// While an utterance is recorded and does not end, every frame is appended
/// to the utterance buffer under the drop-oldest policy.
pub proof fn lemma_recording_accumulates(m: VadModel, inputs: Seq<Scored>)
    requires
        consistent(m),
        in_utterance(m.state),
        forall|j: int| 0 <= j < inputs.len() ==> #[trigger] event_at(m, inputs, j) is None,
    ensures
        in_utterance(run(m, inputs).state),
        run(m, inputs).utterance == keep_latest(m.utterance, audio(inputs), m.utterance_capacity),
    decreases inputs.len(),
{
    if inputs.len() == 0 {
        assert(m.utterance + audio(inputs) == m.utterance);
    } else {
        let last = inputs.len() - 1;
        let earlier = inputs.drop_last();
        assert(earlier == inputs.take(last));
        assert forall|j: int| 0 <= j < earlier.len() implies #[trigger] event_at(
            m,
            earlier,
            j,
        ) is None by {
            assert(earlier.take(j) == inputs.take(j));
            assert(event_at(m, inputs, j) is None);
        }
        lemma_recording_accumulates(m, earlier);
        lemma_run_keeps_settings(m, earlier);
        assert(event_at(m, inputs, last) is None);
        lemma_keep_latest_twice(
            m.utterance,
            audio(earlier),
            inputs.last().frame,
            m.utterance_capacity,
        );
    }
}

/// The payload of `EndSpeech` is the whole utterance. Where the inputs begin
/// inside an utterance and the last of them is the first to end it, the
/// samples handed out are what the utterance buffer held at the beginning and
/// every frame since, the last included, less only the oldest samples that
/// overflow dropped; and the buffer is left empty.
pub proof fn lemma_end_speech_carries_utterance(m: VadModel, inputs: Seq<Scored>)
    requires
        consistent(m),
        in_utterance(m.state),
        inputs.len() > 0,
        forall|j: int| 0 <= j < inputs.len() - 1 ==> #[trigger] event_at(m, inputs, j) is None,
        event_at(m, inputs, inputs.len() - 1) matches Some(Signal::EndSpeech(_)),
    ensures
        event_at(m, inputs, inputs.len() - 1) == Some(
            Signal::EndSpeech(
                keep_latest(m.utterance, audio(inputs), m.utterance_capacity),
            ),
        ),
        run(m, inputs).utterance == Seq::<Sample>::empty(),
        run(m, inputs).state == VADStateEnum::Silent,
{
    let last = inputs.len() - 1;
    let earlier = inputs.take(last);
    assert(earlier == inputs.drop_last());
    assert forall|j: int| 0 <= j < earlier.len() implies #[trigger] event_at(
        m,
        earlier,
        j,
    ) is None by {
        assert(earlier.take(j) == inputs.take(j));
        assert(event_at(m, inputs, j) is None);
    }
    lemma_recording_accumulates(m, earlier);
    lemma_run_keeps_settings(m, earlier);
    lemma_keep_latest_twice(
        m.utterance,
        audio(earlier),
        inputs.last().frame,
        m.utterance_capacity,
    );
}

/// From `StartSpeech` to `EndSpeech`. Where the last of `before` emits
/// `StartSpeech` and the last of `during` is the first input after it to end
/// the utterance, the samples handed out are the seed, which is the most
/// recent audio at the start, followed by every frame of `during`, less only
/// the oldest samples that overflow dropped.
pub proof fn lemma_utterance_is_seed_and_frames(
    m: VadModel,
    before: Seq<Scored>,
    during: Seq<Scored>,
)
    requires
        consistent(m),
        before.len() > 0,
        event_at(m, before, before.len() - 1) == Some(Signal::StartSpeech),
        during.len() > 0,
        forall|j: int|
            0 <= j < during.len() - 1 ==> #[trigger] event_at(run(m, before), during, j) is None,
        event_at(run(m, before), during, during.len() - 1) matches Some(Signal::EndSpeech(_)),
    ensures
        event_at(run(m, before), during, during.len() - 1) == Some(
            Signal::EndSpeech(
                keep_latest(
                    keep_latest(m.pre_buffer, audio(before), seed_capacity(m)),
                    audio(during),
                    m.utterance_capacity,
                ),
            ),
        ),
{
    let last = before.len() - 1;
    assert(before.take(last + 1) == before);
    lemma_run_extends(m, before, last);
    lemma_events_mark_transitions(run(m, before.take(last)), before[last].prob, before[last].frame);
    lemma_run_keeps_consistent(m, before);
    lemma_run_keeps_settings(m, before);
    lemma_start_captures_recent_audio(m, before);
    lemma_end_speech_carries_utterance(run(m, before), during);
}

/// A run changes neither the thresholds nor the capacities of a detector.
pub proof fn lemma_run_keeps_settings(m: VadModel, inputs: Seq<Scored>)
    ensures
        run(m, inputs).threshold == m.threshold,
        run(m, inputs).speech_threshold_samples == m.speech_threshold_samples,
        run(m, inputs).silence_threshold_samples == m.silence_threshold_samples,
        run(m, inputs).pre_buffer_capacity == m.pre_buffer_capacity,
        run(m, inputs).utterance_capacity == m.utterance_capacity,
    decreases inputs.len(),
{
    if inputs.len() > 0 {
        lemma_run_keeps_settings(m, inputs.drop_last());
    }
}

} // verus!
