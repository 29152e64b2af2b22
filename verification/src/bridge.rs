//! The backpressure bridge: a single-slot handoff from the blocking index
//! walker to the asynchronous dispatcher, gated by an acknowledgement.
//!
//! The slot holds at most one event, and the slot stays taken — no further
//! handoff is accepted — from the moment an event is handed off until the
//! consumer acknowledges that it has fully finished processing it. The
//! producer therefore blocks (retries) rather than queueing ahead, which
//! keeps events strictly ordered and at most one in flight.

use vstd::prelude::*;

verus! {

/// A handoff channel with an effective capacity of one unacknowledged event.
pub struct Bridge<T> {
    slot: Option<T>,
    processing: bool,
}

impl<T> Bridge<T> {
    /// The handed-off event the consumer has not yet taken.
    pub closed spec fn queued(self) -> Option<T> {
        self.slot
    }

    /// The consumer has taken an event and not yet acknowledged it.
    pub closed spec fn awaiting_ack(self) -> bool {
        self.processing
    }

    /// An event is in flight: handed off and not yet acknowledged.
    pub open spec fn in_flight(self) -> bool {
        self.queued() is Some || self.awaiting_ack()
    }

    /// A handoff is accepted only while nothing is in flight.
    pub open spec fn send_allowed(self) -> bool {
        !self.in_flight()
    }

    /// The bridge after an accepted handoff of `t`.
    pub closed spec fn spec_send(self, t: T) -> Bridge<T> {
        Bridge { slot: Some(t), processing: self.processing }
    }

    /// The bridge after the consumer takes the queued event.
    pub closed spec fn spec_recv(self) -> Bridge<T> {
        Bridge { slot: None, processing: true }
    }

    /// The bridge after the consumer acknowledges the taken event.
    pub closed spec fn spec_ack(self) -> Bridge<T> {
        Bridge { slot: self.slot, processing: false }
    }

    pub fn new() -> (r: Bridge<T>)
        ensures
            r.queued() is None,
            !r.awaiting_ack(),
            r.send_allowed(),
    {
        Bridge { slot: None, processing: false }
    }

    /// Whether the bridge is open to a handoff: nothing is queued and nothing
    /// awaits acknowledgement.
    pub fn idle(&self) -> (r: bool)
        ensures
            r == self.send_allowed(),
    {
        !(self.slot.is_some() || self.processing)
    }

    /// Hand an event to the consumer. While a previous event is in flight the
    /// handoff is refused and the event handed back: the producer must hold
    /// it and try again once the consumer has acknowledged.
    pub fn try_send(&mut self, t: T) -> (r: Result<(), T>)
        ensures
            old(self).send_allowed() ==> {
                &&& r is Ok
                &&& *final(self) == old(self).spec_send(t)
                &&& final(self).queued() == Some(t)
                &&& !final(self).awaiting_ack()
            },
            !old(self).send_allowed() ==> r == Err::<(), T>(t) && *final(self) == *old(self),
    {
        if self.slot.is_some() || self.processing {
            Err(t)
        } else {
            self.slot = Some(t);
            Ok(())
        }
    }

    /// Take the queued event for processing. The event stays unacknowledged —
    /// and the bridge stays closed to the producer — until `ack`.
    pub fn try_recv(&mut self) -> (r: Option<T>)
        ensures
            old(self).queued() is Some ==> {
                &&& r == old(self).queued()
                &&& *final(self) == old(self).spec_recv()
                &&& final(self).queued() is None
                &&& final(self).awaiting_ack()
            },
            old(self).queued() is None ==> r is None && *final(self) == *old(self),
    {
        match self.slot.take() {
            Some(t) => {
                self.processing = true;
                Some(t)
            },
            None => None,
        }
    }

    /// Signal that the taken event is fully processed, re-opening the bridge
    /// to the producer.
    pub fn ack(&mut self)
        requires
            old(self).awaiting_ack(),
        ensures
            *final(self) == old(self).spec_ack(),
            final(self).queued() == old(self).queued(),
            !final(self).awaiting_ack(),
    {
        self.processing = false;
    }
}

/// Law: the bridge never allows two unacknowledged events in flight. Once a
/// handoff is accepted, a second handoff is refused — both while the event
/// still sits in the slot and after the consumer has taken it — and is
/// accepted again only once the consumer acknowledges.
pub proof fn lemma_one_event_in_flight<T>(b: Bridge<T>, t: T)
    requires
        b.send_allowed(),
    ensures
        !b.spec_send(t).send_allowed(),
        !b.spec_send(t).spec_recv().send_allowed(),
        b.spec_send(t).spec_recv().spec_ack().send_allowed(),
{
}

} // verus!
