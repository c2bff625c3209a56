//! The delay line: the most recent reference samples, as many as the adaptive filter
//! has taps.
//!
//! The line is always full. It starts as silence, and every sample that comes in pushes
//! the oldest one out. The filter reads it as a window from the oldest sample to the
//! newest.

use vstd::prelude::*;
use crate::arith::silence;

verus! {

/// `circular_queue::CircularQueue`, a queue of fixed capacity that overwrites its
/// oldest item. Nothing is seen inside it.
#[verifier::external_type_specification]
#[verifier::external_body]
#[verifier::reject_recursive_types(T)]
pub struct ExCircularQueue<T>(circular_queue::CircularQueue<T>);

/// What a queue holds, from the item that was pushed first to the one pushed last.
pub uninterp spec fn queue_items(q: circular_queue::CircularQueue<u32>) -> Seq<u32>;

/// The number of items that a queue was made for.
pub uninterp spec fn queue_capacity(q: circular_queue::CircularQueue<u32>) -> nat;

/// `circular_queue::CircularQueue::with_capacity`: an empty queue. It reserves the
/// space for `capacity` items at once, which must fit the address space.
#[verifier::external_body]
pub(crate) fn queue_with_capacity(capacity: usize) -> (q: circular_queue::CircularQueue<u32>)
    requires
        4 * capacity <= isize::MAX,
    ensures
        queue_items(q) == Seq::<u32>::empty(),
        queue_capacity(q) == capacity,
{
    circular_queue::CircularQueue::with_capacity(capacity)
}

/// `circular_queue::CircularQueue::push`: appends the item while the queue has room;
/// in a full queue the oldest item leaves for it and is returned. A queue without
/// capacity takes nothing. The space was reserved when the queue was made, so a push
/// neither allocates nor panics.
#[verifier::external_body]
pub(crate) fn queue_push(q: &mut circular_queue::CircularQueue<u32>, x: u32) -> (evicted: Option<
    u32,
>)
    ensures
        queue_capacity(*final(q)) == queue_capacity(*old(q)),
        queue_capacity(*old(q)) == 0 ==> evicted is None && queue_items(*final(q)) == queue_items(
            *old(q),
        ),
        0 < queue_capacity(*old(q)) && queue_items(*old(q)).len() < queue_capacity(*old(q))
            ==> evicted is None && queue_items(*final(q)) == queue_items(*old(q)).push(x),
        0 < queue_capacity(*old(q)) && queue_items(*old(q)).len() >= queue_capacity(*old(q))
            ==> evicted == Some(queue_items(*old(q))[0]) && queue_items(*final(q))
            == queue_items(*old(q)).skip(1).push(x),
    no_unwind
{
    q.push(x)
}

/// `circular_queue::CircularQueue::asc_iter`, collected: the items from the oldest to
/// the newest.
#[verifier::external_body]
pub(crate) fn queue_ascending(q: &circular_queue::CircularQueue<u32>) -> (items: Vec<u32>)
    ensures
        items@ == queue_items(*q),
{
    q.asc_iter().copied().collect()
}

/// The window after `sample` has come in: the oldest sample is gone and the new one
/// stands last. A line without taps stays empty.
pub open spec fn shifted(window: Seq<u32>, sample: u32) -> Seq<u32> {
    if window.len() == 0 {
        window
    } else {
        window.skip(1).push(sample)
    }
}

/// A fixed-length window over the most recent samples.
pub struct DelayLine {
    queue: circular_queue::CircularQueue<u32>,
}

impl View for DelayLine {
    type V = Seq<u32>;

    /// The samples in the line, oldest first.
    closed spec fn view(&self) -> Seq<u32> {
        queue_items(self.queue)
    }
}

impl DelayLine {
    #[verifier::type_invariant]
    spec fn full(&self) -> bool {
        queue_items(self.queue).len() == queue_capacity(self.queue)
    }

    /// A line of `taps` samples of silence.
    pub fn new(taps: usize) -> (line: DelayLine)
        requires
            4 * taps <= isize::MAX,
        ensures
            line@ == silence(taps as nat),
    {
        let mut queue = queue_with_capacity(taps);
        let mut i: usize = 0;
        while i < taps
            invariant
                i <= taps,
                queue_capacity(queue) == taps,
                queue_items(queue) == silence(i as nat),
            decreases taps - i,
        {
            queue_push(&mut queue, 0);
            assert(silence(i as nat).push(0u32) =~= silence((i + 1) as nat));
            i += 1;
        }
        DelayLine { queue }
    }

    /// Takes a sample in; the oldest one leaves.
    pub fn push(&mut self, sample: u32)
        ensures
            final(self)@ == shifted(old(self)@, sample),
    {
        proof {
            use_type_invariant(&*self);
        }
        queue_push(&mut self.queue, sample);
    }

    /// The samples in the line, from the oldest to the newest.
    pub fn window(&self) -> (window: Vec<u32>)
        ensures
            window@ == self@,
    {
        queue_ascending(&self.queue)
    }
}

} // verus!
