//! The application-facing event queue: a thin wrapper over the ready-event
//! buffer.  The blocking poll that refills the buffer is performed by the
//! surrounding runtime; this type owns the buffered events and their
//! delivery order.

use vstd::prelude::*;
use crate::events::Event;
use crate::eventqueueimpl::{EventQueueImpl, next_valid_event, events_after_next};

verus! {

/// The reactor's event queue.
pub struct EventQueue {
    pub queue: EventQueueImpl,
}

impl EventQueue {
    /// A fresh event queue with an empty ready buffer.
    pub fn new() -> (r: EventQueue)
        ensures
            r.queue.events() =~= Seq::<Event>::empty(),
            r.queue.next_source_id == 0,
    {
        EventQueue { queue: EventQueueImpl::new() }
    }

    /// Delivers the next valid buffered event, or `None` when the runtime
    /// must poll for readiness before anything can be delivered.
    pub fn next_event(&mut self) -> (r: Option<Event>)
        ensures
            r == next_valid_event(old(self).queue.events()),
            final(self).queue.events() == events_after_next(old(self).queue.events()),
            final(self).queue.next_source_id == old(self).queue.next_source_id,
    {
        self.queue.next_event()
    }
}

/// The capability of appending events to a ready buffer.
pub trait IEventQueue {
    /// The buffered events, oldest first.
    spec fn buffered(&self) -> Seq<Event>;

    /// Appends an event to the back of the buffer.
    fn push_back_event(&mut self, event: Event)
        ensures
            final(self).buffered() == old(self).buffered().push(event),
    ;

    /// Prepends an event to the front of the buffer.
    fn push_front_event(&mut self, event: Event)
        ensures
            final(self).buffered() == seq![event] + old(self).buffered(),
    ;
}

impl IEventQueue for EventQueue {
    open spec fn buffered(&self) -> Seq<Event> {
        self.queue.events()
    }

    fn push_back_event(&mut self, event: Event) {
        self.queue.push_back_event(event);
    }

    fn push_front_event(&mut self, event: Event) {
        self.queue.push_front_event(event);
    }
}

} // verus!
