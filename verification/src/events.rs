//! The event model: typed events, source identities, and the capability a
//! source offers for deciding whether an event came from it.

use vstd::prelude::*;
use crate::helpers::IoError;

verus! {

/// The semantic meaning of an event.
#[derive(Clone, Copy, PartialEq, Eq, Structural, Debug)]
pub enum EventKind {
    StreamClosedEvent,
    IoErrorEvent(IoError),
    DataAvailableEvent(usize),
    TimerEvent,
    ChannelClosedEvent,
    ChannelMessageEvent,
    ConnectedEvent,
    ClientConnectedEvent,
}

/// A stable identity token for the source of an event.
///
/// Identities are plain numbers handed out by the event queue; the queue
/// never hands out the same number twice, so two distinct sources bound to
/// one queue always carry distinct identities.
#[derive(Clone, Copy, PartialEq, Eq, Structural, Debug)]
pub struct EventSourceInfo {
    pub id: u64,
}

impl EventSourceInfo {
    /// Wraps an identity number handed out by an event queue.
    pub fn new(id: u64) -> (r: EventSourceInfo)
        ensures
            r.id == id,
    {
        EventSourceInfo { id }
    }
}

/// An event as delivered by the reactor: its meaning, a validity flag used
/// for cancel-in-place, and the identity of the source that produced it.
#[derive(Clone, Copy, Debug)]
pub struct Event {
    pub event_type: EventKind,
    pub is_valid: bool,
    pub source: EventSourceInfo,
}

/// A trait implemented by possible sources of events.
pub trait EventSource {
    /// The identity number this source carries.
    spec fn source_id(&self) -> u64;

    /// The identity token this source compares events against.
    fn get_event_source_info(&self) -> (r: &EventSourceInfo)
        ensures
            r.id == self.source_id(),
    ;
}

impl Event {
    /// Whether this event was produced by the given source.
    pub fn originates_from<T: EventSource>(&self, source: &T) -> (r: bool)
        ensures
            r == (self.source.id == source.source_id()),
    {
        self.source.id == source.get_event_source_info().id
    }
}

/// Law: an event originates from at most one of two sources whose
/// identities differ; dispatching on `originates_from` is unambiguous.
pub proof fn lemma_event_origin_unique<A: EventSource, B: EventSource>(e: Event, a: &A, b: &B)
    requires
        a.source_id() != b.source_id(),
    ensures
        !(e.source.id == a.source_id() && e.source.id == b.source_id()),
{
}

} // verus!
