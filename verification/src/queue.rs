//! The bounded queue at each stage boundary.
//!
//! Every queue between two pipeline stages has a fixed capacity chosen at
//! construction — several slots for the packet queue, exactly one for the
//! frame queues — and is never resized. A full queue refuses the offered
//! item and hands it back unchanged, so the producer blocks and retries
//! rather than drop anything (backpressure). Closing a queue is the sole
//! termination signal: a consumer drains what is left and then observes
//! the closure.
//!
//! This type is the queue's state and its transitions; the blocking and
//! waking around it (mutexes, condition variables, threads) are the
//! driver's outside work.

use vstd::prelude::*;

verus! {

/// The outcome of offering an item to a queue. The refused item is handed
/// back inside the outcome, so it is never lost.
#[derive(Debug)]
pub enum PushOutcome<T> {
    /// The item was appended.
    Accepted,
    /// The queue is at capacity; the producer must retry later
    /// (backpressure). The offered item comes back unchanged.
    Full(T),
    /// The queue was closed; no further item will be accepted.
    Closed(T),
}

/// The outcome of asking a queue for its oldest item.
#[derive(Debug)]
pub enum PopOutcome<T> {
    /// The oldest queued item, removed from the queue.
    Item(T),
    /// Nothing queued right now, but the queue is still open; the
    /// consumer must retry later.
    Empty,
    /// Nothing queued and the queue is closed: no item will ever arrive
    /// again. The consumer should stop.
    Disconnected,
}

/// A bounded FIFO queue with an explicit closed flag.
pub struct BoundedQueue<T> {
    /// Fixed number of slots; a hard invariant, never resized.
    capacity: usize,
    items: Vec<T>,
    closed: bool,
}

impl<T> BoundedQueue<T> {
    /// The queued items, oldest first.
    pub closed spec fn view(self) -> Seq<T> {
        self.items@
    }

    /// The fixed capacity.
    pub closed spec fn spec_capacity(self) -> int {
        self.capacity as int
    }

    /// Whether the queue has been closed.
    pub closed spec fn is_closed(self) -> bool {
        self.closed
    }

    /// The item count never exceeds the capacity, and the capacity is
    /// positive.
    pub closed spec fn wf(self) -> bool {
        &&& 0 < self.capacity
        &&& self.items@.len() <= self.capacity
    }

    /// An open, empty queue with `capacity` slots.
    pub fn new(capacity: usize) -> (q: BoundedQueue<T>)
        requires
            0 < capacity,
        ensures
            q.wf(),
            q@ =~= Seq::<T>::empty(),
            q.spec_capacity() == capacity,
            !q.is_closed(),
    {
        BoundedQueue { capacity, items: Vec::new(), closed: false }
    }

    /// Number of items currently queued.
    pub fn len(&self) -> (n: usize)
        ensures
            n == self@.len(),
    {
        self.items.len()
    }

    /// Whether the queue has been closed.
    pub fn closed(&self) -> (b: bool)
        ensures
            b == self.is_closed(),
    {
        self.closed
    }

    /// Offer an item.
    ///
    /// A full queue hands the item back and keeps its contents unchanged:
    /// nothing is ever dropped, the producer is the one to wait. A closed
    /// queue likewise hands the item back.
    pub fn push(&mut self, item: T) -> (r: PushOutcome<T>)
        requires
            old(self).wf(),
        ensures
            final(self).wf(),
            final(self).spec_capacity() == old(self).spec_capacity(),
            final(self).is_closed() == old(self).is_closed(),
            match r {
                PushOutcome::Accepted => {
                    &&& !old(self).is_closed()
                    &&& old(self)@.len() < old(self).spec_capacity()
                    &&& final(self)@ =~= old(self)@.push(item)
                },
                PushOutcome::Full(back) => {
                    &&& !old(self).is_closed()
                    &&& old(self)@.len() == old(self).spec_capacity()
                    &&& final(self)@ =~= old(self)@
                    &&& back == item
                },
                PushOutcome::Closed(back) => {
                    &&& old(self).is_closed()
                    &&& final(self)@ =~= old(self)@
                    &&& back == item
                },
            },
    {
        if self.closed {
            PushOutcome::Closed(item)
        } else if self.items.len() >= self.capacity {
            PushOutcome::Full(item)
        } else {
            self.items.push(item);
            PushOutcome::Accepted
        }
    }

    /// Take the oldest item, observe an open-but-empty queue, or observe
    /// the closure once nothing is left to drain.
    pub fn pop(&mut self) -> (r: PopOutcome<T>)
        requires
            old(self).wf(),
        ensures
            final(self).wf(),
            final(self).spec_capacity() == old(self).spec_capacity(),
            final(self).is_closed() == old(self).is_closed(),
            match r {
                PopOutcome::Item(item) => {
                    &&& old(self)@.len() > 0
                    &&& item == old(self)@[0]
                    &&& final(self)@ =~= old(self)@.skip(1)
                },
                PopOutcome::Empty => {
                    &&& old(self)@.len() == 0
                    &&& !old(self).is_closed()
                    &&& final(self)@ =~= old(self)@
                },
                PopOutcome::Disconnected => {
                    &&& old(self)@.len() == 0
                    &&& old(self).is_closed()
                    &&& final(self)@ =~= old(self)@
                },
            },
    {
        if self.items.len() > 0 {
            let item = self.items.remove(0);
            PopOutcome::Item(item)
        } else if self.closed {
            PopOutcome::Disconnected
        } else {
            PopOutcome::Empty
        }
    }

    /// Close the queue: no further item is accepted, what is queued stays
    /// drainable. Closing is idempotent and is the sole termination
    /// signal between stages.
    pub fn close(&mut self)
        requires
            old(self).wf(),
        ensures
            final(self).wf(),
            final(self).spec_capacity() == old(self).spec_capacity(),
            final(self).is_closed(),
            final(self)@ =~= old(self)@,
    {
        self.closed = true;
    }
}

/// Backpressure: a producer that keeps offering items to a full queue is
/// refused every time, always gets the same item back, and the queue's
/// contents never change — no item is dropped on either side.
pub proof fn lemma_full_queue_refuses<T>(q0: BoundedQueue<T>, q1: BoundedQueue<T>, item: T, r: PushOutcome<T>)
    requires
        q0.wf(),
        !q0.is_closed(),
        q0@.len() == q0.spec_capacity(),
        push_post(q0, q1, item, r),
    ensures
        r matches PushOutcome::Full(back) && back == item,
        q1@ =~= q0@,
{
}

/// What one `push` call did, stated as a relation between the queue
/// before and after and the call's outcome. This is exactly the
/// postcondition of [`BoundedQueue::push`].
pub open spec fn push_post<T>(
    pre: BoundedQueue<T>,
    post: BoundedQueue<T>,
    item: T,
    r: PushOutcome<T>,
) -> bool {
    &&& post.wf()
    &&& post.spec_capacity() == pre.spec_capacity()
    &&& post.is_closed() == pre.is_closed()
    &&& match r {
        PushOutcome::Accepted => {
            &&& !pre.is_closed()
            &&& pre@.len() < pre.spec_capacity()
            &&& post@ =~= pre@.push(item)
        },
        PushOutcome::Full(back) => {
            &&& !pre.is_closed()
            &&& pre@.len() == pre.spec_capacity()
            &&& post@ =~= pre@
            &&& back == item
        },
        PushOutcome::Closed(back) => {
            &&& pre.is_closed()
            &&& post@ =~= pre@
            &&& back == item
        },
    }
}

} // verus!
