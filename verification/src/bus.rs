//! The event bus: a bounded, ordered, multi-producer/single-consumer queue.
//!
//! This is the bus's state machine. Enqueues append at the back and are
//! refused (the producer must suspend and retry) while the queue is at
//! capacity; the consumer takes from the front, so delivery order equals
//! enqueue-completion order. Once every producer handle has been released
//! and the queue has drained, the consumer sees end-of-stream. The
//! asynchronous runtime that suspends producers and the consumer sits
//! outside the library and drives these transitions.

use vstd::prelude::*;

use crate::ent::Event;

verus! {

/// Number of slots the bus is created with at startup.
pub const BUS_CAPACITY: usize = 32;

/// What one receive attempt yields.
#[derive(Debug, PartialEq)]
pub enum RecvOutcome {
    /// The oldest pending event.
    Received(Event),
    /// Nothing pending, but producers remain: the consumer would suspend.
    Pending,
    /// Nothing pending and every producer handle released: end-of-stream.
    Closed,
}

/// One enqueue attempt: appended when a slot is free, refused unchanged
/// when the queue is at capacity (the producer suspends and retries).
pub open spec fn spec_enqueue(q: Seq<Event>, capacity: int, e: Event) -> (Seq<Event>, bool) {
    if q.len() < capacity {
        (q.push(e), true)
    } else {
        (q, false)
    }
}

/// One receive attempt: the front event if any is pending, otherwise
/// end-of-stream exactly when no producer handle remains.
pub open spec fn spec_recv(q: Seq<Event>, producers: int) -> (Seq<Event>, RecvOutcome) {
    if q.len() > 0 {
        (q.drop_first(), RecvOutcome::Received(q.first()))
    } else if producers == 0 {
        (q, RecvOutcome::Closed)
    } else {
        (q, RecvOutcome::Pending)
    }
}

/// Bounded ordered event queue with a count of live producer handles.
pub struct EventBus {
    queue: Vec<Event>,
    capacity: usize,
    producers: usize,
}

impl EventBus {
    /// The events enqueued and not yet received, oldest first.
    pub closed spec fn pending(&self) -> Seq<Event> {
        self.queue@
    }

    pub closed spec fn spec_capacity(&self) -> int {
        self.capacity as int
    }

    pub closed spec fn spec_producers(&self) -> int {
        self.producers as int
    }

    pub open spec fn wf(&self) -> bool {
        self.pending().len() <= self.spec_capacity() && self.spec_capacity() >= 1
    }

    /// A fresh bus with one producer handle, as a channel is opened.
    pub fn new(capacity: usize) -> (b: EventBus)
        requires
            capacity >= 1,
        ensures
            b.wf(),
            b.pending() == Seq::<Event>::empty(),
            b.spec_capacity() == capacity,
            b.spec_producers() == 1,
    {
        EventBus { queue: Vec::new(), capacity, producers: 1 }
    }

    /// Hand out one more producer handle, as a sender is cloned.
    pub fn add_producer(&mut self)
        requires
            old(self).spec_producers() < usize::MAX,
        ensures
            final(self).pending() == old(self).pending(),
            final(self).spec_capacity() == old(self).spec_capacity(),
            final(self).spec_producers() == old(self).spec_producers() + 1,
            final(self).wf() == old(self).wf(),
    {
        self.producers = self.producers + 1;
    }

    /// Release one producer handle, as a sender is dropped.
    pub fn release_producer(&mut self)
        requires
            old(self).spec_producers() > 0,
        ensures
            final(self).pending() == old(self).pending(),
            final(self).spec_capacity() == old(self).spec_capacity(),
            final(self).spec_producers() == old(self).spec_producers() - 1,
            final(self).wf() == old(self).wf(),
    {
        self.producers = self.producers - 1;
    }

    /// One enqueue attempt through a live producer handle. `false` means
    /// the bus was full and nothing changed: the caller must suspend and
    /// try again, never drop the event.
    pub fn try_enqueue(&mut self, e: Event) -> (accepted: bool)
        requires
            old(self).wf(),
            old(self).spec_producers() > 0,
        ensures
            final(self).wf(),
            (final(self).pending(), accepted) == spec_enqueue(
                old(self).pending(),
                old(self).spec_capacity(),
                e,
            ),
            final(self).spec_capacity() == old(self).spec_capacity(),
            final(self).spec_producers() == old(self).spec_producers(),
    {
        if self.queue.len() < self.capacity {
            self.queue.push(e);
            true
        } else {
            false
        }
    }

    /// One receive attempt by the single consumer.
    pub fn try_recv(&mut self) -> (r: RecvOutcome)
        requires
            old(self).wf(),
        ensures
            final(self).wf(),
            (final(self).pending(), r) == spec_recv(
                old(self).pending(),
                old(self).spec_producers(),
            ),
            final(self).spec_capacity() == old(self).spec_capacity(),
            final(self).spec_producers() == old(self).spec_producers(),
    {
        if self.queue.len() > 0 {
            let e = self.queue.remove(0);
            proof {
                assert(self.pending() =~= old(self).pending().drop_first());
            }
            RecvOutcome::Received(e)
        } else if self.producers == 0 {
            RecvOutcome::Closed
        } else {
            RecvOutcome::Pending
        }
    }
}

/// Backpressure: an enqueue against a full queue is refused and changes
/// nothing; after the consumer receives once, the retried enqueue succeeds
/// and the event takes its place at the back, behind everything enqueued
/// before it.
pub proof fn lemma_backpressure(q: Seq<Event>, capacity: int, producers: int, e: Event)
    requires
        capacity >= 1,
        q.len() == capacity,
    ensures
        spec_enqueue(q, capacity, e) == (q, false),
        spec_recv(q, producers).1 == RecvOutcome::Received(q.first()),
        spec_enqueue(spec_recv(q, producers).0, capacity, e) == (q.drop_first().push(e), true),
{
}

/// Delivery order equals enqueue-completion order: events enqueued one
/// after the other sit in the queue in that order, and the consumer always
/// takes the front, never reordering.
pub proof fn lemma_fifo_order(q: Seq<Event>, capacity: int, e1: Event, e2: Event)
    requires
        q.len() + 2 <= capacity,
    ensures
        spec_enqueue(spec_enqueue(q, capacity, e1).0, capacity, e2).0 == q.push(e1).push(e2),
        spec_enqueue(q, capacity, e1).1,
        spec_enqueue(spec_enqueue(q, capacity, e1).0, capacity, e2).1,
{
}

/// Shutdown never loses an event: a receive reports end-of-stream only
/// once the queue is empty and every producer handle has been released;
/// while anything is pending it is still delivered.
pub proof fn lemma_close_only_after_drain(q: Seq<Event>, producers: int)
    ensures
        spec_recv(q, producers).1 == RecvOutcome::Closed ==> q.len() == 0 && producers == 0,
        q.len() > 0 ==> spec_recv(q, producers).1 == RecvOutcome::Received(q.first()),
{
}

} // verus!
