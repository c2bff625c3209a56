//! The sample channel: a bounded queue of samples with one producer and one consumer,
//! which never blocks on either end.
//!
//! The queue is the ring buffer of the `ringbuf` crate, split once into its two halves.
//! The halves are used from different threads, so neither of them knows what the ring
//! holds at this moment. What one half does know is stated here over three names:
//! the capacity; a count that the other side can only raise (the free slots seen from
//! the producer, the waiting samples seen from the consumer); and the samples that went
//! through this half so far.

use vstd::prelude::*;
use crate::arith::silence;

verus! {

/// `ringbuf::RingBuffer`, the ring before it is split. Nothing is seen inside it.
#[verifier::external_type_specification]
#[verifier::external_body]
#[verifier::reject_recursive_types(T)]
pub struct ExRingBuffer<T: Sized>(ringbuf::RingBuffer<T>);

/// `ringbuf::Producer`, the writing half of a ring. Nothing is seen inside it.
#[verifier::external_type_specification]
#[verifier::external_body]
#[verifier::reject_recursive_types(T)]
pub struct ExProducer<T>(ringbuf::Producer<T>);

/// `ringbuf::Consumer`, the reading half of a ring. Nothing is seen inside it.
#[verifier::external_type_specification]
#[verifier::external_body]
#[verifier::reject_recursive_types(T)]
pub struct ExConsumer<T>(ringbuf::Consumer<T>);

/// The number of samples that a ring was made for.
pub uninterp spec fn ring_capacity(rb: ringbuf::RingBuffer<u32>) -> nat;

/// The number of samples that the ring behind a producer can hold. It never changes.
pub uninterp spec fn producer_capacity(p: ringbuf::Producer<u32>) -> nat;

/// The free slots of the ring when this producer last pushed or looked. Only the
/// producer fills slots, so at least this many are free until it pushes again.
pub uninterp spec fn producer_room(p: ringbuf::Producer<u32>) -> nat;

/// Every sample that the ring has taken from this producer, oldest first.
pub uninterp spec fn producer_sent(p: ringbuf::Producer<u32>) -> Seq<u32>;

/// The number of samples that the ring behind a consumer can hold. It never changes.
pub uninterp spec fn consumer_capacity(c: ringbuf::Consumer<u32>) -> nat;

/// The samples that waited in the ring when this consumer last popped or looked. Only
/// the consumer removes samples, so at least this many wait until it pops again.
pub uninterp spec fn consumer_ready(c: ringbuf::Consumer<u32>) -> nat;

/// Every sample that this consumer has taken out of the ring, oldest first.
pub uninterp spec fn consumer_received(c: ringbuf::Consumer<u32>) -> Seq<u32>;

/// `ringbuf::RingBuffer::new`: an empty ring for `capacity` samples. It allocates one
/// slot more than the capacity, which must fit the address space.
#[verifier::external_body]
pub(crate) fn ring_new(capacity: usize) -> (rb: ringbuf::RingBuffer<u32>)
    requires
        4 * (capacity + 1) <= isize::MAX,
    ensures
        ring_capacity(rb) == capacity,
{
    ringbuf::RingBuffer::new(capacity)
}

/// `ringbuf::RingBuffer::split`: the two halves of a ring. A ring can only be filled
/// through its producer, so the halves of any ring start with all slots free, nothing
/// waiting and nothing passed.
#[verifier::external_body]
pub(crate) fn ring_split(rb: ringbuf::RingBuffer<u32>) -> (ends: (
    ringbuf::Producer<u32>,
    ringbuf::Consumer<u32>,
))
    ensures
        producer_capacity(ends.0) == ring_capacity(rb),
        producer_room(ends.0) == ring_capacity(rb),
        producer_sent(ends.0) == Seq::<u32>::empty(),
        consumer_capacity(ends.1) == ring_capacity(rb),
        consumer_ready(ends.1) == 0,
        consumer_received(ends.1) == Seq::<u32>::empty(),
{
    rb.split()
}

/// `ringbuf::Producer::push`: appends the sample, or hands it back where the ring is
/// full. With a slot known to be free it succeeds. A refusal shows that no slot was
/// known to be free, and changes nothing.
#[verifier::external_body]
pub(crate) fn push(p: &mut ringbuf::Producer<u32>, sample: u32) -> (r: Result<(), u32>)
    ensures
        producer_capacity(*final(p)) == producer_capacity(*old(p)),
        producer_room(*final(p)) <= producer_capacity(*final(p)),
        producer_room(*old(p)) > 0 ==> r is Ok,
        r is Ok ==> producer_sent(*final(p)) == producer_sent(*old(p)).push(sample)
            && producer_room(*final(p)) + 1 >= producer_room(*old(p)),
        r matches Err(back) ==> back == sample && producer_sent(*final(p)) == producer_sent(
            *old(p),
        ) && producer_room(*old(p)) == 0,
{
    p.push(sample)
}

/// `ringbuf::Producer::is_full`: whether no slot is free at this moment. The producer
/// takes note of what it saw.
#[verifier::external_body]
pub(crate) fn is_full(p: &mut ringbuf::Producer<u32>) -> (full: bool)
    ensures
        producer_capacity(*final(p)) == producer_capacity(*old(p)),
        producer_sent(*final(p)) == producer_sent(*old(p)),
        producer_room(*final(p)) <= producer_capacity(*final(p)),
        producer_room(*final(p)) >= producer_room(*old(p)),
        full <==> producer_room(*final(p)) == 0,
{
    p.is_full()
}

/// `ringbuf::Producer::len`: the number of samples in the ring at this moment; the
/// consumer may take some out right after. The producer takes note of the slots that
/// this leaves free.
#[verifier::external_body]
pub(crate) fn occupancy(p: &mut ringbuf::Producer<u32>) -> (n: usize)
    ensures
        producer_capacity(*final(p)) == producer_capacity(*old(p)),
        producer_sent(*final(p)) == producer_sent(*old(p)),
        producer_room(*final(p)) >= producer_room(*old(p)),
        n + producer_room(*final(p)) == producer_capacity(*final(p)),
{
    p.len()
}

/// `ringbuf::Producer::capacity`.
#[verifier::external_body]
pub(crate) fn producer_size(p: &ringbuf::Producer<u32>) -> (n: usize)
    ensures
        n == producer_capacity(*p),
{
    p.capacity()
}

/// `ringbuf::Consumer::pop`: removes the oldest sample, or finds the ring empty. With
/// a sample known to wait it succeeds. An empty ring shows that none was known to wait,
/// and changes nothing.
#[verifier::external_body]
pub(crate) fn pop(c: &mut ringbuf::Consumer<u32>) -> (r: Option<u32>)
    ensures
        consumer_capacity(*final(c)) == consumer_capacity(*old(c)),
        consumer_ready(*final(c)) <= consumer_capacity(*final(c)),
        consumer_ready(*old(c)) > 0 ==> r is Some,
        r matches Some(sample) ==> consumer_received(*final(c)) == consumer_received(
            *old(c),
        ).push(sample) && consumer_ready(*final(c)) + 1 >= consumer_ready(*old(c)),
        r is None ==> consumer_received(*final(c)) == consumer_received(*old(c))
            && consumer_ready(*old(c)) == 0,
{
    c.pop()
}

/// `ringbuf::Consumer::is_empty`: whether no sample waits at this moment. The consumer
/// takes note of what it saw.
#[verifier::external_body]
pub(crate) fn is_empty(c: &mut ringbuf::Consumer<u32>) -> (empty: bool)
    ensures
        consumer_capacity(*final(c)) == consumer_capacity(*old(c)),
        consumer_received(*final(c)) == consumer_received(*old(c)),
        consumer_ready(*final(c)) <= consumer_capacity(*final(c)),
        consumer_ready(*final(c)) >= consumer_ready(*old(c)),
        empty <==> consumer_ready(*final(c)) == 0,
{
    c.is_empty()
}

/// `ringbuf::Consumer::len`: the number of samples in the ring at this moment; the
/// producer may add some right after. The consumer takes note of them.
#[verifier::external_body]
pub(crate) fn waiting(c: &mut ringbuf::Consumer<u32>) -> (n: usize)
    ensures
        consumer_capacity(*final(c)) == consumer_capacity(*old(c)),
        consumer_received(*final(c)) == consumer_received(*old(c)),
        consumer_ready(*final(c)) >= consumer_ready(*old(c)),
        n == consumer_ready(*final(c)),
        n <= consumer_capacity(*final(c)),
{
    c.len()
}

/// `ringbuf::Consumer::capacity`.
#[verifier::external_body]
pub(crate) fn consumer_size(c: &ringbuf::Consumer<u32>) -> (n: usize)
    ensures
        n == consumer_capacity(*c),
{
    c.capacity()
}

/// Whether a ring of this capacity can be had: its slots, one more than the capacity,
/// must fit the address space.
pub open spec fn fits(capacity: int) -> bool {
    4 * (capacity + 1) <= isize::MAX
}

/// Whether the two halves are as a new ring of this capacity gives them: all slots
/// free, nothing waiting, nothing passed yet.
pub open spec fn fresh(
    p: &ringbuf::Producer<u32>,
    c: &ringbuf::Consumer<u32>,
    capacity: nat,
) -> bool {
    &&& producer_capacity(*p) == capacity
    &&& producer_room(*p) == capacity
    &&& producer_sent(*p) == Seq::<u32>::empty()
    &&& consumer_capacity(*c) == capacity
    &&& consumer_ready(*c) == 0
    &&& consumer_received(*c) == Seq::<u32>::empty()
}

/// A new channel for `capacity` samples, as its producer and its consumer; `None`
/// where a ring of that size cannot be had.
pub fn sample_channel(capacity: usize) -> (ends: Option<
    (ringbuf::Producer<u32>, ringbuf::Consumer<u32>),
>)
    ensures
        ends is Some <==> fits(capacity as int),
        ends matches Some((p, c)) ==> fresh(&p, &c, capacity as nat),
{
    if capacity < (isize::MAX as usize) / 4 {
        Some(ring_split(ring_new(capacity)))
    } else {
        None
    }
}

/// A new channel that starts with `latency` samples of silence in it and has room for
/// as many again; `None` where a ring of twice the latency cannot be had.
///
/// The silence is the delay between an input and an output stream that are not
/// precisely synchronised.
pub fn latency_channel(latency: usize) -> (ends: Option<
    (ringbuf::Producer<u32>, ringbuf::Consumer<u32>),
>)
    ensures
        ends is Some <==> fits(2 * latency),
        ends matches Some((p, c)) ==> {
            &&& producer_capacity(p) == 2 * latency
            &&& producer_room(p) >= latency
            &&& producer_sent(p) == silence(latency as nat)
            &&& consumer_capacity(c) == 2 * latency
            &&& consumer_received(c) == Seq::<u32>::empty()
        },
{
    if latency > ((isize::MAX as usize) - 4) / 8 {
        return None;
    }
    let (mut p, c) = ring_split(ring_new(2 * latency));
    let mut i: usize = 0;
    while i < latency
        invariant
            i <= latency,
            producer_capacity(p) == 2 * latency,
            producer_room(p) + i >= 2 * latency,
            producer_sent(p) == silence(i as nat),
        decreases latency - i,
    {
        // The ring buffer has twice as much space as the latency needs, so this
        // cannot fail.
        let pushed = push(&mut p, 0);
        assert(pushed is Ok);
        assert(silence(i as nat).push(0u32) =~= silence((i + 1) as nat));
        i += 1;
    }
    Some((p, c))
}

} // verus!
