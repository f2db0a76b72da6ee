//! Bounded sample queues with a drop-oldest overflow policy.
//!
//! The storage is `ringbuf::HeapRb`. Its methods are reached through the
//! trusted functions of this module, whose contracts describe a queue as the
//! sequence of samples it holds, oldest first, and the capacity it was made
//! with. Everything else here is proved from those contracts.

use ringbuf::traits::{Consumer, Observer, Producer};
use ringbuf::HeapRb;
use vstd::prelude::*;
use vstd::slice::slice_subrange;

verus! {

/// A bounded first-in, first-out queue of samples, stored in a
/// `ringbuf::HeapRb`. Verus sees none of its inside: what it holds is named by
/// [`ring_contents`] and [`ring_capacity`].
#[verifier::external_body]
pub struct SampleRing {
    inner: HeapRb<u32>,
}

/// The samples a queue holds, oldest first.
pub uninterp spec fn ring_contents(rb: SampleRing) -> Seq<u32>;

/// The capacity a queue was made with; it never changes afterwards.
pub uninterp spec fn ring_capacity(rb: SampleRing) -> nat;

/// Largest capacity a queue may be asked for: the storage of that many
/// samples must not exceed `isize::MAX` bytes.
pub open spec fn max_ring_capacity() -> int {
    isize::MAX / 4
}

/// Computes [`max_ring_capacity`].
pub fn max_capacity() -> (max: usize)
    ensures
        max == max_ring_capacity(),
{
    (isize::MAX / 4) as usize
}

/// `HeapRb::new`: an empty queue of exactly the capacity asked for. The call
/// panics on a capacity of zero and on one whose byte size overflows, which
/// the precondition leaves out. Like every allocation it ends the process
/// where the memory cannot be had.
#[verifier::external_body]
pub(crate) fn ring_new(capacity: usize) -> (rb: SampleRing)
    requires
        0 < capacity <= max_ring_capacity(),
    ensures
        ring_contents(rb) == Seq::<u32>::empty(),
        ring_capacity(rb) == capacity,
{
    SampleRing { inner: HeapRb::<u32>::new(capacity) }
}

/// `Observer::capacity`: the fixed, non-zero capacity of the queue.
#[verifier::external_body]
pub(crate) fn ring_cap(rb: &SampleRing) -> (c: usize)
    ensures
        c == ring_capacity(*rb),
        c > 0,
{
    rb.inner.capacity().get()
}

/// `Observer::occupied_len`: how many samples the queue holds, which is never
/// more than its capacity.
#[verifier::external_body]
pub(crate) fn ring_len(rb: &SampleRing) -> (n: usize)
    ensures
        n == ring_contents(*rb).len(),
        n <= ring_capacity(*rb),
{
    rb.inner.occupied_len()
}

/// `Producer::push_slice`: appends the longest prefix of `elems` that fits in
/// the vacant space and returns its length.
#[verifier::external_body]
pub(crate) fn ring_push_slice(rb: &mut SampleRing, elems: &[u32]) -> (n: usize)
    ensures
        n <= elems@.len(),
        n == elems@.len() || n == ring_capacity(*old(rb)) - ring_contents(*old(rb)).len(),
        ring_contents(*old(rb)).len() + n <= ring_capacity(*old(rb)),
        ring_contents(*final(rb)) == ring_contents(*old(rb)) + elems@.take(n as int),
        ring_capacity(*final(rb)) == ring_capacity(*old(rb)),
{
    rb.inner.push_slice(elems)
}

/// `Consumer::pop_slice`: moves the oldest samples into the front of `out`,
/// as many as the queue holds and `out` has room for, and returns their
/// number. The rest of `out` is left as it was.
#[verifier::external_body]
pub(crate) fn ring_pop_slice(rb: &mut SampleRing, out: &mut [u32]) -> (n: usize)
    ensures
        n <= old(out)@.len(),
        n <= ring_contents(*old(rb)).len(),
        n == old(out)@.len() || n == ring_contents(*old(rb)).len(),
        final(out)@ == ring_contents(*old(rb)).take(n as int) + old(out)@.skip(n as int),
        ring_contents(*final(rb)) == ring_contents(*old(rb)).skip(n as int),
        ring_capacity(*final(rb)) == ring_capacity(*old(rb)),
{
    rb.inner.pop_slice(out)
}

/// `Consumer::peek_slice`: copies the oldest samples into the front of `out`,
/// as many as the queue holds and `out` has room for, and returns their
/// number. The queue keeps them, and the rest of `out` is left as it was.
#[verifier::external_body]
pub(crate) fn ring_peek_slice(rb: &SampleRing, out: &mut [u32]) -> (n: usize)
    ensures
        n <= old(out)@.len(),
        n <= ring_contents(*rb).len(),
        n == old(out)@.len() || n == ring_contents(*rb).len(),
        final(out)@ == ring_contents(*rb).take(n as int) + old(out)@.skip(n as int),
{
    rb.inner.peek_slice(out)
}

/// `Consumer::skip`: discards the oldest `count` samples, or all of them if
/// the queue holds fewer, and returns how many went.
#[verifier::external_body]
pub(crate) fn ring_skip(rb: &mut SampleRing, count: usize) -> (n: usize)
    ensures
        n <= count,
        n <= ring_contents(*old(rb)).len(),
        n == count || n == ring_contents(*old(rb)).len(),
        ring_contents(*final(rb)) == ring_contents(*old(rb)).skip(n as int),
        ring_capacity(*final(rb)) == ring_capacity(*old(rb)),
{
    rb.inner.skip(count)
}

/// `Consumer::clear`: empties the queue and returns how many samples it held.
#[verifier::external_body]
pub(crate) fn ring_clear(rb: &mut SampleRing) -> (n: usize)
    ensures
        n == ring_contents(*old(rb)).len(),
        ring_contents(*final(rb)) == Seq::<u32>::empty(),
        ring_capacity(*final(rb)) == ring_capacity(*old(rb)),
{
    rb.inner.clear()
}

/// What a queue of the given capacity holds after `incoming` has been
/// appended to `held` under the drop-oldest policy: the most recent
/// `capacity` samples of the two together, in arrival order.
pub open spec fn keep_latest(held: Seq<u32>, incoming: Seq<u32>, capacity: nat) -> Seq<u32> {
    let all = held + incoming;
    if all.len() <= capacity {
        all
    } else {
        all.skip(all.len() - capacity)
    }
}

/// Appending in two parts is the same as appending both at once: the policy
/// keeps no gap and no duplicate, whatever was dropped in between.
pub proof fn lemma_keep_latest_twice(
    held: Seq<u32>,
    first: Seq<u32>,
    second: Seq<u32>,
    capacity: nat,
)
    ensures
        keep_latest(keep_latest(held, first, capacity), second, capacity) == keep_latest(
            held,
            first + second,
            capacity,
        ),
{
    let all = held + first;
    let kept = keep_latest(held, first, capacity);
    assert(held + (first + second) == all + second);
    if all.len() > capacity {
        assert(kept + second == (all + second).skip(all.len() - capacity));
    }
}

/// Appending to a queue that is then cut down to a smaller capacity keeps
/// what a queue of the smaller capacity would have kept.
pub proof fn lemma_keep_latest_narrowed(
    held: Seq<u32>,
    incoming: Seq<u32>,
    wide: nat,
    narrow: nat,
)
    requires
        narrow <= wide,
    ensures
        keep_latest(Seq::<u32>::empty(), keep_latest(held, incoming, wide), narrow) == keep_latest(
            held,
            incoming,
            narrow,
        ),
{
    let all = held + incoming;
    let kept = keep_latest(held, incoming, wide);
    assert(Seq::<u32>::empty() + kept == kept);
}

/// What the policy keeps never exceeds the capacity.
pub proof fn lemma_keep_latest_fits(held: Seq<u32>, incoming: Seq<u32>, capacity: nat)
    ensures
        keep_latest(held, incoming, capacity).len() <= capacity,
        keep_latest(held, incoming, capacity).len() + overflow_of(
            held.len(),
            incoming.len(),
            capacity,
        ) == held.len() + incoming.len(),
{
}

/// How many samples the drop-oldest policy loses when `incoming` samples
/// arrive at a queue that holds `held` of its `capacity`.
pub open spec fn overflow_of(held: nat, incoming: nat, capacity: nat) -> nat {
    if held + incoming <= capacity {
        0
    } else {
        (held + incoming - capacity) as nat
    }
}

/// Appends `samples`, first making room by discarding the oldest samples
/// where the queue would overflow. Returns how many samples were lost.
pub(crate) fn push_latest(rb: &mut SampleRing, samples: &[u32]) -> (dropped: usize)
    ensures
        ring_capacity(*final(rb)) == ring_capacity(*old(rb)),
        ring_contents(*final(rb)) == keep_latest(
            ring_contents(*old(rb)),
            samples@,
            ring_capacity(*old(rb)),
        ),
        dropped == overflow_of(
            ring_contents(*old(rb)).len(),
            samples@.len(),
            ring_capacity(*old(rb)),
        ),
{
    let capacity: usize = ring_cap(rb);
    let held: usize = ring_len(rb);
    let vacant: usize = capacity - held;
    let incoming: usize = samples.len();
    if incoming <= vacant {
        let pushed: usize = ring_push_slice(rb, samples);
        assert(samples@.take(pushed as int) == samples@);
        0
    } else {
        let excess: usize = incoming - vacant;
        if excess >= held {
            let _ = ring_clear(rb);
            let newest = slice_subrange(samples, incoming - capacity, incoming);
            let pushed: usize = ring_push_slice(rb, newest);
            assert(newest@.take(pushed as int) == newest@);
            assert(ring_contents(*rb) == keep_latest(
                ring_contents(*old(rb)),
                samples@,
                capacity as nat,
            ));
        } else {
            let _ = ring_skip(rb, excess);
            let pushed: usize = ring_push_slice(rb, samples);
            assert(samples@.take(pushed as int) == samples@);
            assert(ring_contents(*rb) == keep_latest(
                ring_contents(*old(rb)),
                samples@,
                capacity as nat,
            ));
        }
        excess
    }
}

/// A copy of what the queue holds, oldest first. The queue is not changed.
pub(crate) fn snapshot(rb: &SampleRing) -> (samples: Vec<u32>)
    ensures
        samples@ == ring_contents(*rb),
{
    let held: usize = ring_len(rb);
    let mut samples: Vec<u32> = vec![0u32; held];
    let copied: usize = ring_peek_slice(rb, samples.as_mut_slice());
    assert(samples@ == ring_contents(*rb));
    samples
}

/// Removes every sample from the queue and returns them, oldest first.
pub(crate) fn drain(rb: &mut SampleRing) -> (samples: Vec<u32>)
    ensures
        samples@ == ring_contents(*old(rb)),
        ring_contents(*final(rb)) == Seq::<u32>::empty(),
        ring_capacity(*final(rb)) == ring_capacity(*old(rb)),
{
    let held: usize = ring_len(rb);
    let mut samples: Vec<u32> = vec![0u32; held];
    let taken: usize = ring_pop_slice(rb, samples.as_mut_slice());
    assert(samples@ == ring_contents(*old(rb)));
    assert(ring_contents(*rb) == Seq::<u32>::empty());
    samples
}

} // verus!
