//! Assembling fixed-size frames from chunks of arbitrary size.
//!
//! The audio callback delivers samples in chunks whose size the driver
//! chooses. The assembler queues them and hands them out again in frames of
//! exactly [`N_SAMPLES`], in arrival order. A chunk that does not fit costs
//! the oldest queued samples; the assembler never blocks and never grows.

use crate::ieee::Sample;
use crate::ring::{
    keep_latest, overflow_of, push_latest, ring_capacity, ring_contents, ring_len, ring_new,
    ring_pop_slice, SampleRing,
};
use crate::vad::{N_SAMPLES, SAMPLE_RATE};
use vstd::prelude::*;

verus! {

/// Capacity of the assembler: two seconds of canonical audio.
pub const ASSEMBLER_CAPACITY: usize = 2 * SAMPLE_RATE;

/// The queue between the audio callback and the detector.
pub struct FrameAssembler {
    buffer: SampleRing,
}

impl View for FrameAssembler {
    type V = Seq<Sample>;

    /// The samples that wait to be framed, oldest first.
    closed spec fn view(&self) -> Seq<Sample> {
        ring_contents(self.buffer)
    }
}

impl FrameAssembler {
    /// How many samples the assembler can hold.
    pub closed spec fn capacity(&self) -> nat {
        ring_capacity(self.buffer)
    }

    /// An empty assembler of [`ASSEMBLER_CAPACITY`].
    pub fn new() -> (assembler: Self)
        ensures
            assembler@ == Seq::<Sample>::empty(),
            assembler.capacity() == ASSEMBLER_CAPACITY,
    {
        FrameAssembler { buffer: ring_new(ASSEMBLER_CAPACITY) }
    }

    /// How many samples wait to be framed.
    pub fn len(&self) -> (count: usize)
        ensures
            count == self@.len(),
            count <= self.capacity(),
    {
        ring_len(&self.buffer)
    }

    /// Queues a chunk. Where it does not fit, the oldest samples make room,
    /// and the number of samples lost is returned for the overrun to be
    /// reported; it is zero whenever the chunk fits.
    pub fn push(&mut self, chunk: &[Sample]) -> (dropped: usize)
        ensures
            final(self)@ == keep_latest(old(self)@, chunk@, old(self).capacity()),
            final(self).capacity() == old(self).capacity(),
            dropped == overflow_of(old(self)@.len(), chunk@.len(), old(self).capacity()),
    {
        push_latest(&mut self.buffer, chunk)
    }

    /// Moves the oldest [`N_SAMPLES`] samples into `frame` and returns true,
    /// if that many are queued. Otherwise nothing changes and the result is
    /// false: a frame is never handed out in part.
    pub fn next_frame(&mut self, frame: &mut [Sample; N_SAMPLES]) -> (ready: bool)
        ensures
            ready == (old(self)@.len() >= N_SAMPLES),
            ready ==> final(frame)@ == old(self)@.take(N_SAMPLES as int) && final(self)@ == old(
                self,
            )@.skip(N_SAMPLES as int),
            !ready ==> final(frame)@ == old(frame)@ && final(self)@ == old(self)@,
            final(self).capacity() == old(self).capacity(),
    {
        if ring_len(&self.buffer) >= N_SAMPLES {
            let moved: usize = ring_pop_slice(&mut self.buffer, frame);
            assert(frame@ == old(self)@.take(N_SAMPLES as int));
            true
        } else {
            false
        }
    }
}

} // verus!
