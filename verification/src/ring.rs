use vstd::prelude::*;

use ringbuf::traits::{Consumer, Observer, Producer, Split};

verus! {

/// One stereo frame bound for the device: left and right samples as
/// IEEE-754 bit patterns. Pushing whole frames halves the number of
/// queue operations and keeps left and right together.
#[derive(Clone, Copy, Debug, PartialEq, Eq, Structural)]
pub struct StereoFrame {
    /// The left sample, as an IEEE-754 bit pattern.
    pub left: u32,
    /// The right sample, as an IEEE-754 bit pattern.
    pub right: u32,
}

impl Default for StereoFrame {
    /// The default frame is silence.
    fn default() -> (r: StereoFrame)
        ensures
            r == (StereoFrame { left: 0u32, right: 0u32 }),
    {
        StereoFrame { left: 0, right: 0 }
    }
}

/// The producer half of the device-bound ring buffer, held by the
/// render side. Wraps the heap-allocated single-producer
/// single-consumer queue of the ringbuf crate, whose type Verus cannot
/// read.
#[verifier::external_body]
pub struct RingProducer {
    inner: ringbuf::HeapProd<StereoFrame>,
}

/// The consumer half of the device-bound ring buffer, held by the
/// device callback.
#[verifier::external_body]
pub struct RingConsumer {
    inner: ringbuf::HeapCons<StereoFrame>,
}

/// The fixed capacity, in frames, that the producer's ring buffer was
/// created with.
pub uninterp spec fn producer_capacity(p: &RingProducer) -> nat;

/// The fixed capacity, in frames, that the consumer's ring buffer was
/// created with.
pub uninterp spec fn consumer_capacity(c: &RingConsumer) -> nat;

/// The frames this producer half has enqueued since its creation, in
/// order. A property of this handle alone: only successful pushes
/// through it extend the sequence, whatever the consumer thread does.
pub uninterp spec fn frames_pushed(p: &RingProducer) -> Seq<StereoFrame>;

/// The frames this consumer half has dequeued since its creation, in
/// order. A property of this handle alone: only successful pops
/// through it extend the sequence, whatever the producer thread does.
pub uninterp spec fn frames_popped(c: &RingConsumer) -> Seq<StereoFrame>;

/// Relies on ringbuf's HeapRb::new and Split::split: allocates a
/// single-producer single-consumer queue of exactly `capacity` frames
/// and splits it into its two halves, each reporting that capacity.
///
/// Once split, the two halves run on different threads; nothing is
/// assumed about the queue's contents at any later point, only about
/// its fixed capacity.
#[verifier::external_body]
pub fn ring_buffer(capacity: usize) -> (r: (RingProducer, RingConsumer))
    requires
        capacity >= 1,
    ensures
        producer_capacity(&r.0) == capacity,
        consumer_capacity(&r.1) == capacity,
        frames_pushed(&r.0) == Seq::<StereoFrame>::empty(),
        frames_popped(&r.1) == Seq::<StereoFrame>::empty(),
{
    let rb = ringbuf::HeapRb::<StereoFrame>::new(capacity);
    let (producer, consumer) = rb.split();
    (RingProducer { inner: producer }, RingConsumer { inner: consumer })
}

/// Relies on ringbuf's Producer::try_push: enqueues the frame and
/// returns true when the queue has room at this moment, and returns
/// false leaving the queue unchanged when it is full. Never blocks.
/// A successful push appends the frame to this half's push history;
/// whether room exists depends on the consumer thread, so nothing is
/// assumed about which outcome occurs.
#[verifier::external_body]
pub fn ring_try_push(producer: &mut RingProducer, frame: StereoFrame) -> (pushed: bool)
    ensures
        producer_capacity(final(producer)) == producer_capacity(old(producer)),
        pushed ==> frames_pushed(final(producer)) == frames_pushed(old(producer)).push(frame),
        !pushed ==> frames_pushed(final(producer)) == frames_pushed(old(producer)),
{
    producer.inner.try_push(frame).is_ok()
}

/// Relies on ringbuf's Consumer::try_pop: dequeues the oldest frame,
/// or returns nothing when the queue is empty at this moment. Never
/// blocks. A successful pop appends the returned frame to this half's
/// pop history; whether a frame is present depends on the producer
/// thread, so nothing is assumed about which outcome occurs.
#[verifier::external_body]
pub fn ring_try_pop(consumer: &mut RingConsumer) -> (frame: Option<StereoFrame>)
    ensures
        consumer_capacity(final(consumer)) == consumer_capacity(old(consumer)),
        frame matches Some(f) ==> frames_popped(final(consumer)) == frames_popped(
            old(consumer),
        ).push(f),
        frame is None ==> frames_popped(final(consumer)) == frames_popped(old(consumer)),
{
    consumer.inner.try_pop()
}

/// Relies on ringbuf's Observer::occupied_len: the number of frames in
/// the queue at this moment, never more than the capacity. The exact
/// number is racy against the consumer thread.
#[verifier::external_body]
pub fn ring_occupied_len(producer: &RingProducer) -> (n: usize)
    ensures
        n <= producer_capacity(producer),
{
    producer.inner.occupied_len()
}

/// Relies on ringbuf's Observer::vacant_len: the number of free places
/// in the queue at this moment, never more than the capacity. The
/// exact number is racy against the consumer thread.
#[verifier::external_body]
pub fn ring_vacant_len(producer: &RingProducer) -> (n: usize)
    ensures
        n <= producer_capacity(producer),
{
    producer.inner.vacant_len()
}

/// Returns the ring-buffer capacity, in stereo frames, used for a
/// given world block size: at least 100 000 frames, and at least eight
/// blocks.
pub fn ring_capacity_frames(block_size: usize) -> (r: usize)
    requires
        block_size <= usize::MAX / 8,
    ensures
        r == ring_capacity_spec(block_size as int),
        r >= 1,
{
    let floor: usize = 100000;
    let eight = block_size * 8;
    if eight > floor {
        eight
    } else {
        floor
    }
}

/// Allocates the device-bound ring buffer for a given world block
/// size, with the capacity rule of [`ring_capacity_frames`].
pub fn device_ring_buffer(block_size: usize) -> (r: (RingProducer, RingConsumer))
    requires
        block_size <= usize::MAX / 8,
    ensures
        producer_capacity(&r.0) == ring_capacity_spec(block_size as int),
        consumer_capacity(&r.1) == ring_capacity_spec(block_size as int),
{
    let capacity = ring_capacity_frames(block_size);
    ring_buffer(capacity)
}

/// The capacity rule of the device-bound ring buffer, as a value.
pub open spec fn ring_capacity_spec(block_size: int) -> int {
    if 8 * block_size > 100000 {
        8 * block_size
    } else {
        100000int
    }
}

/// Pushes the given frames onto the ring buffer, in order, stopping at
/// the first frame the queue has no room for. Returns how many frames
/// were enqueued: exactly the frames `0 .. pushed`, appended to the
/// producer's push history in order; the frames from `pushed` on were
/// not.
///
/// The render loop calls this with each resampled block; when the
/// queue fills, the frames left over are dropped and regenerated from
/// the instance cursors on a later iteration.
pub fn push_frames(producer: &mut RingProducer, frames: &Vec<StereoFrame>) -> (pushed: usize)
    ensures
        pushed <= frames@.len(),
        producer_capacity(final(producer)) == producer_capacity(old(producer)),
        frames_pushed(final(producer)) == frames_pushed(old(producer)) + frames@.subrange(
            0,
            pushed as int,
        ),
{
    let n = frames.len();
    let mut i: usize = 0;
    proof {
        assert(frames_pushed(producer) =~= frames_pushed(old(producer)) + frames@.subrange(0, 0));
    }
    while i < n
        invariant
            i <= n,
            n == frames@.len(),
            producer_capacity(producer) == producer_capacity(old(producer)),
            frames_pushed(producer) == frames_pushed(old(producer)) + frames@.subrange(
                0,
                i as int,
            ),
        decreases n - i,
    {
        if !ring_try_push(producer, frames[i]) {
            return i;
        }
        proof {
            assert(frames@.subrange(0, i + 1) =~= frames@.subrange(0, i as int).push(
                frames@[i as int],
            ));
            assert(frames_pushed(producer) =~= frames_pushed(old(producer)) + frames@.subrange(
                0,
                i + 1,
            ));
        }
        i += 1;
    }
    proof {
        assert(frames@.subrange(0, n as int) =~= frames@);
    }
    n
}

/// Pops up to `max_frames` frames from the ring buffer, in order,
/// stopping early when the queue runs empty. Returns exactly the
/// frames appended to the consumer's pop history by this call, in pop
/// order; fewer than `max_frames` of them means the queue ran dry —
/// an underrun when the device asked for `max_frames`.
///
/// The device callback calls this once per device buffer and writes
/// silence in place of the missing frames.
pub fn pop_frames(consumer: &mut RingConsumer, max_frames: usize) -> (frames: Vec<StereoFrame>)
    ensures
        frames@.len() <= max_frames,
        consumer_capacity(final(consumer)) == consumer_capacity(old(consumer)),
        frames_popped(final(consumer)) == frames_popped(old(consumer)) + frames@,
{
    let mut out: Vec<StereoFrame> = Vec::new();
    let mut i: usize = 0;
    proof {
        assert(frames_popped(consumer) =~= frames_popped(old(consumer)) + out@);
    }
    while i < max_frames
        invariant
            i <= max_frames,
            out@.len() <= i,
            consumer_capacity(consumer) == consumer_capacity(old(consumer)),
            frames_popped(consumer) == frames_popped(old(consumer)) + out@,
        decreases max_frames - i,
    {
        match ring_try_pop(consumer) {
            Some(frame) => {
                out.push(frame);
                proof {
                    assert(frames_popped(consumer) =~= frames_popped(old(consumer)) + out@);
                }
            },
            None => {
                return out;
            },
        }
        i += 1;
    }
    out
}

} // verus!
