//! The queue between received audio and the loudspeaker.
use vstd::prelude::*;

verus! {

/// A bounded first-in, first-out queue of samples. It owns the ring buffer of the `ringbuf`
/// crate whole: with a producer and a consumer half on two threads, each would change under the
/// other's hands. Programs that share it put it behind a lock.
#[verifier::external_body]
pub struct SampleRing {
    ring: ringbuf::HeapRb<i16>,
}

/// The samples in a queue, the eldest first.
pub uninterp spec fn ring_contents(ring: SampleRing) -> Seq<i16>;

/// How many samples a queue was made for.
pub uninterp spec fn ring_capacity(ring: SampleRing) -> nat;

impl View for SampleRing {
    type V = Seq<i16>;

    open spec fn view(&self) -> Seq<i16> {
        ring_contents(*self)
    }
}

impl SampleRing {
    /// How many samples the queue was made for.
    pub open spec fn capacity(&self) -> nat {
        ring_capacity(*self)
    }
}

/// How many of so many samples find room in a queue.
pub open spec fn accepted(queue: Seq<i16>, capacity: nat, offered: nat) -> int {
    if offered <= capacity - queue.len() {
        offered as int
    } else {
        capacity - queue.len()
    }
}

/// A queue once samples were offered to it: those that find room are appended.
pub open spec fn enqueued(queue: Seq<i16>, capacity: nat, samples: Seq<i16>) -> Seq<i16> {
    queue + samples.take(accepted(queue, capacity, samples.len()))
}

/// Calls `ringbuf::HeapRb::new`. Claimed: the buffer is empty and has the given capacity.
#[verifier::external_body]
pub(crate) fn ring_new(capacity: usize) -> (r: SampleRing)
    requires
        0 < capacity <= isize::MAX / 2,
    ensures
        ring_contents(r) == Seq::<i16>::empty(),
        ring_capacity(r) == capacity,
{
    SampleRing { ring: ringbuf::HeapRb::new(capacity) }
}

/// Calls `ringbuf::traits::Observer::occupied_len`. Claimed: it counts the samples in the
/// buffer, never more than the capacity.
#[verifier::external_body]
pub(crate) fn ring_len(ring: &SampleRing) -> (r: usize)
    ensures
        r == ring_contents(*ring).len(),
        r <= ring_capacity(*ring),
{
    ringbuf::traits::Observer::occupied_len(&ring.ring)
}

/// Calls `ringbuf::traits::Producer::push_slice`. Claimed: it appends the samples that find
/// room, from the first on, and returns their number.
#[verifier::external_body]
pub(crate) fn ring_push(ring: &mut SampleRing, samples: &[i16]) -> (r: usize)
    ensures
        r == accepted(
            ring_contents(*old(ring)),
            ring_capacity(*old(ring)),
            samples@.len(),
        ),
        r <= samples@.len(),
        ring_contents(*final(ring)) == ring_contents(*old(ring)) + samples@.take(r as int),
        ring_capacity(*final(ring)) == ring_capacity(*old(ring)),
{
    ringbuf::traits::Producer::push_slice(&mut ring.ring, samples)
}

/// Calls `ringbuf::traits::Consumer::try_pop`. Claimed: it removes and returns the eldest
/// sample, and returns `None` where there is none.
#[verifier::external_body]
pub(crate) fn ring_pop(ring: &mut SampleRing) -> (r: Option<i16>)
    ensures
        ring_contents(*old(ring)).len() == 0 ==> r is None && ring_contents(*final(ring)) == ring_contents(*old(ring)),
        ring_contents(*old(ring)).len() > 0 ==> r == Some(ring_contents(*old(ring))[0]) && ring_contents(*final(ring)) == ring_contents(*old(ring)).skip(1),
        ring_capacity(*final(ring)) == ring_capacity(*old(ring)),
{
    ringbuf::traits::Consumer::try_pop(&mut ring.ring)
}

impl SampleRing {
    /// A queue for so many samples.
    pub fn with_capacity(capacity: usize) -> (r: SampleRing)
        requires
            0 < capacity <= isize::MAX / 2,
        ensures
            r@ == Seq::<i16>::empty(),
            r.capacity() == capacity,
    {
        ring_new(capacity)
    }

    /// The number of samples that wait to be played.
    pub fn buffered(&self) -> (r: usize)
        ensures
            r == self@.len(),
            r <= self.capacity(),
    {
        ring_len(self)
    }

    /// Appends samples as far as there is room and returns how many were dropped.
    pub fn enqueue(&mut self, samples: &[i16]) -> (dropped: usize)
        ensures
            dropped == samples@.len() - accepted(old(self)@, old(self).capacity(), samples@.len()),
            final(self)@ == enqueued(old(self)@, old(self).capacity(), samples@),
            final(self).capacity() == old(self).capacity(),
    {
        let kept: usize = ring_push(self, samples);
        samples.len() - kept
    }
}

/// A queue with room takes all samples, in order and behind those that wait already.
pub proof fn law_queue_with_room_takes_all(queue: Seq<i16>, capacity: nat, samples: Seq<i16>)
    requires
        queue.len() + samples.len() <= capacity,
    ensures
        enqueued(queue, capacity, samples) == queue + samples,
{
    assert(samples.take(samples.len() as int) =~= samples);
}

/// A queue never holds more than it was made for, and never loses what waits already.
pub proof fn law_queue_keeps_its_bound(queue: Seq<i16>, capacity: nat, samples: Seq<i16>)
    requires
        queue.len() <= capacity,
    ensures
        enqueued(queue, capacity, samples).len() <= capacity,
        enqueued(queue, capacity, samples).take(queue.len() as int) == queue,
        enqueued(queue, capacity, samples).len() < queue.len() + samples.len() ==> enqueued(
            queue,
            capacity,
            samples,
        ).len() == capacity,
{
    assert(enqueued(queue, capacity, samples).take(queue.len() as int) =~= queue);
}

/// What a queue takes of samples that it is offered are the first of them, in order, behind what
/// waits; what it leaves does not fit.
pub proof fn law_queue_takes_the_first(queue: Seq<i16>, capacity: nat, samples: Seq<i16>)
    requires
        queue.len() <= capacity,
    ensures
        ({
            let after = enqueued(queue, capacity, samples);
            let left_out = samples.len() - accepted(queue, capacity, samples.len());
            &&& after.len() + left_out == queue.len() + samples.len()
            &&& 0 <= left_out <= samples.len()
            &&& left_out > 0 ==> after.len() == capacity
            &&& after.len() <= capacity
            &&& forall|i: int| 0 <= i < queue.len() ==> #[trigger] after[i] == queue[i]
            &&& forall|i: int|
                queue.len() <= i < after.len() ==> #[trigger] after[i] == samples[i - queue.len()]
        }),
{
}

} // verus!
