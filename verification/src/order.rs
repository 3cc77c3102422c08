//! The ordering discipline of a handoff queue, stated and proved over a
//! model of its history.
//!
//! Each relay direction is one queue with one consumer: the send loop
//! drains the outbound queue and performs one socket write per dequeued
//! message, so the write order is the dequeue order; the inbound queue is
//! drained by `try_recv` in the same way. The laws below say what FIFO
//! delivery means for any interleaving of enqueues and dequeues: the items
//! dequeued so far, followed by the items still pending, are exactly the
//! items enqueued so far, in enqueue order — and hence the dequeued items
//! are a prefix of the enqueued ones.

use vstd::prelude::*;

verus! {

/// One event in the history of a queue: an item completing its enqueue, or
/// a consumer taking the oldest pending item (a dequeue on an empty queue
/// takes nothing and reports `Empty`).
pub enum QueueEvent<T> {
    Enqueue(T),
    Dequeue,
}

/// The items enqueued over `events`, in the order the enqueues completed.
pub open spec fn enqueued<T>(events: Seq<QueueEvent<T>>) -> Seq<T>
    decreases events.len(),
{
    if events.len() == 0 {
        Seq::empty()
    } else {
        let rest = enqueued(events.drop_last());
        match events.last() {
            QueueEvent::Enqueue(item) => rest.push(item),
            QueueEvent::Dequeue => rest,
        }
    }
}

/// The items still pending after `events`, oldest first.
pub open spec fn pending<T>(events: Seq<QueueEvent<T>>) -> Seq<T>
    decreases events.len(),
{
    if events.len() == 0 {
        Seq::empty()
    } else {
        let rest = pending(events.drop_last());
        match events.last() {
            QueueEvent::Enqueue(item) => rest.push(item),
            QueueEvent::Dequeue => if rest.len() > 0 {
                rest.drop_first()
            } else {
                rest
            },
        }
    }
}

/// The items handed to the consumer over `events`, in dequeue order.
pub open spec fn dequeued<T>(events: Seq<QueueEvent<T>>) -> Seq<T>
    decreases events.len(),
{
    if events.len() == 0 {
        Seq::empty()
    } else {
        let rest = dequeued(events.drop_last());
        match events.last() {
            QueueEvent::Enqueue(item) => rest,
            QueueEvent::Dequeue => {
                let q = pending(events.drop_last());
                if q.len() > 0 {
                    rest.push(q.first())
                } else {
                    rest
                }
            },
        }
    }
}

/// The queue keeps its items: over any interleaving of enqueues and
/// dequeues, the items dequeued so far followed by the items still pending
/// are exactly the items enqueued so far, in enqueue order.
pub proof fn lemma_fifo<T>(events: Seq<QueueEvent<T>>)
    ensures
        dequeued(events) + pending(events) == enqueued(events),
    decreases events.len(),
{
    if events.len() == 0 {
        assert(dequeued(events) + pending(events) =~= enqueued(events));
    } else {
        let rest = events.drop_last();
        lemma_fifo(rest);
        match events.last() {
            QueueEvent::Enqueue(item) => {
                assert(dequeued(events) + pending(events) =~= (dequeued(rest) + pending(
                    rest,
                )).push(item));
            },
            QueueEvent::Dequeue => {
                assert(dequeued(events) + pending(events) =~= dequeued(rest) + pending(rest));
            },
        }
    }
}

/// FIFO ordering: the consumer sees the items in the order the producers
/// completed their enqueues — over any interleaving, what has been
/// dequeued is exactly a prefix of what has been enqueued. For the relay's
/// outbound queue this is the ordering guarantee behind its socket writes:
/// the writes occur in `try_send` order.
pub proof fn lemma_dequeue_order<T>(events: Seq<QueueEvent<T>>)
    ensures
        dequeued(events) == enqueued(events).take(dequeued(events).len() as int),
{
    lemma_fifo(events);
    assert(dequeued(events) =~= (dequeued(events) + pending(events)).take(
        dequeued(events).len() as int,
    ));
}

} // verus!
