//! The reactor's ready-event buffer and its identity allocator.
//!
//! The buffer is a FIFO of typed events.  Callbacks append semantic events;
//! bootstrap paths may prepend.  Delivery skips events that were cancelled
//! in place (their validity flag cleared) when their source went away.

use vstd::prelude::*;
use crate::events::{Event, EventSourceInfo};

verus! {

/// The next valid event that delivery from the front of the buffer yields,
/// if any.
pub open spec fn next_valid_event(s: Seq<Event>) -> Option<Event>
    decreases s.len(),
{
    if s.len() <= 0 {
        None
    } else if s[0].is_valid {
        Some(s[0])
    } else {
        next_valid_event(s.skip(1))
    }
}

/// The buffer that remains after delivering the next valid event (or after
/// discarding everything, when no valid event is buffered).
pub open spec fn events_after_next(s: Seq<Event>) -> Seq<Event>
    decreases s.len(),
{
    if s.len() <= 0 {
        s
    } else if s[0].is_valid {
        s.skip(1)
    } else {
        events_after_next(s.skip(1))
    }
}

/// The same event with its validity flag cleared.
pub open spec fn invalidated(e: Event) -> Event {
    Event { is_valid: false, ..e }
}

/// The buffer `post` is `pre` with exactly the events of the given source
/// cancelled in place.
pub open spec fn events_cancelled_for(pre: Seq<Event>, post: Seq<Event>, id: u64) -> bool {
    &&& post.len() == pre.len()
    &&& forall|i: int|
        0 <= i < post.len() ==> post[i] == (if pre[i].source.id == id {
            invalidated(pre[i])
        } else {
            pre[i]
        })
}

/// The ready-event buffer of a reactor, together with the allocator for
/// source identity numbers.
pub struct EventQueueImpl {
    pub ready_events: Vec<Event>,
    pub next_source_id: u64,
}

impl EventQueueImpl {
    /// The buffered events, oldest first.
    pub open spec fn events(&self) -> Seq<Event> {
        self.ready_events@
    }

    /// Whether the given identity token was handed out by this queue already.
    pub open spec fn issued(&self, info: EventSourceInfo) -> bool {
        info.id < self.next_source_id
    }

    /// A fresh queue: no buffered events, no identities handed out.
    pub fn new() -> (r: EventQueueImpl)
        ensures
            r.events() =~= Seq::<Event>::empty(),
            r.next_source_id == 0,
    {
        EventQueueImpl { ready_events: Vec::new(), next_source_id: 0 }
    }

    /// Hands out an identity token that no earlier call has handed out.
    pub fn new_source_info(&mut self) -> (r: EventSourceInfo)
        requires
            old(self).next_source_id < u64::MAX,
        ensures
            r.id == old(self).next_source_id,
            final(self).next_source_id == old(self).next_source_id + 1,
            final(self).events() == old(self).events(),
            !old(self).issued(r),
            final(self).issued(r),
            forall|o: EventSourceInfo| old(self).issued(o) ==> final(self).issued(o),
    {
        let id = self.next_source_id;
        self.next_source_id = self.next_source_id + 1;
        EventSourceInfo { id }
    }

    /// Appends an event to the back of the buffer.
    pub fn push_back_event(&mut self, event: Event)
        ensures
            final(self).events() == old(self).events().push(event),
            final(self).next_source_id == old(self).next_source_id,
    {
        self.ready_events.push(event);
    }

    /// Prepends an event to the front of the buffer.
    pub fn push_front_event(&mut self, event: Event)
        ensures
            final(self).events() == seq![event] + old(self).events(),
            final(self).next_source_id == old(self).next_source_id,
    {
        self.ready_events.insert(0, event);
        proof {
            assert(final(self).events() =~= seq![event] + old(self).events());
        }
    }

    /// Delivers the next valid buffered event, discarding cancelled ones in
    /// front of it.  Returns `None` when no valid event is buffered; the
    /// caller must then poll for readiness and try again.
    pub fn next_event(&mut self) -> (r: Option<Event>)
        ensures
            r == next_valid_event(old(self).events()),
            final(self).events() == events_after_next(old(self).events()),
            final(self).next_source_id == old(self).next_source_id,
    {
        loop
            invariant
                next_valid_event(self.events()) == next_valid_event(old(self).events()),
                events_after_next(self.events()) == events_after_next(old(self).events()),
                self.next_source_id == old(self).next_source_id,
            decreases self.ready_events.len(),
        {
            if self.ready_events.len() == 0 {
                return None;
            }
            let ghost before = self.events();
            let first = self.ready_events.remove(0);
            proof {
                assert(self.events() =~= before.skip(1));
            }
            if first.is_valid {
                return Some(first);
            }
        }
    }

    /// Cancels in place every buffered event carrying the given identity.
    pub fn remove_pending_events(&mut self, source: &EventSourceInfo)
        ensures
            events_cancelled_for(old(self).events(), final(self).events(), source.id),
            final(self).next_source_id == old(self).next_source_id,
    {
        let n = self.ready_events.len();
        let mut i: usize = 0;
        while i < n
            invariant
                i <= n,
                n == self.events().len(),
                n == old(self).events().len(),
                self.next_source_id == old(self).next_source_id,
                forall|j: int|
                    0 <= j < n ==> self.events()[j] == (
                        if j < i && old(self).events()[j].source.id == source.id {
                            invalidated(old(self).events()[j])
                        } else {
                            old(self).events()[j]
                        }),
            decreases n - i,
        {
            let e = self.ready_events[i];
            if e.source.id == source.id {
                self.ready_events[i] = Event { is_valid: false, ..e };
            }
            i = i + 1;
        }
    }
}

/// Law: identity tokens handed out by one queue are pairwise distinct.  If
/// `a` had already been handed out while `b` had not, and `b` has been since,
/// the two differ.
pub proof fn lemma_issued_ids_distinct(
    before: &EventQueueImpl,
    after: &EventQueueImpl,
    a: EventSourceInfo,
    b: EventSourceInfo,
)
    requires
        before.issued(a),
        !before.issued(b),
        after.issued(b),
    ensures
        a.id != b.id,
{
}

/// Law: delivery invents nothing.  An event that delivery yields is one of
/// the buffered events, so it carries exactly the identity that the source
/// which pushed it stamped on it.
pub proof fn lemma_delivered_event_was_buffered(s: Seq<Event>)
    ensures
        next_valid_event(s) matches Some(e) ==> exists|i: int| 0 <= i < s.len() && s[i] == e,
    decreases s.len(),
{
    if s.len() > 0 && !s[0].is_valid {
        lemma_delivered_event_was_buffered(s.skip(1));
        if next_valid_event(s.skip(1)) is Some {
            let e = next_valid_event(s.skip(1)).unwrap();
            let i = choose|i: int| 0 <= i < s.skip(1).len() && s.skip(1)[i] == e;
            assert(s[i + 1] == e);
        }
    }
}

/// Law: once every buffered event of a source has been cancelled in place,
/// delivery never yields that source's identity again (no new events arise
/// for a source that is gone, and cancelled ones are skipped).
pub proof fn lemma_cancelled_source_stays_silent(s: Seq<Event>, id: u64)
    requires
        forall|i: int| 0 <= i < s.len() && s[i].source.id == id ==> !s[i].is_valid,
    ensures
        next_valid_event(s) matches Some(e) ==> e.source.id != id,
    decreases s.len(),
{
    if s.len() > 0 && !s[0].is_valid {
        lemma_cancelled_source_stays_silent(s.skip(1), id);
    }
}

} // verus!
