//! The cross-thread channel: an unbounded first-in-first-out queue with a
//! blocking receiver variant and a reactor-integrated variant that wakes the
//! event loop through a wake-up descriptor.
//!
//! In a running program the state below sits behind a mutex shared by the
//! transmitters and the receiver, and the wake itself is a condition-variable
//! signal or an eventfd write.  Every transition of that state — what a send
//! enqueues, when exactly one wake is issued, how the receiver drains the
//! backlog into events — is verified here; the runtime holds the lock around
//! a transition and performs the returned wake action.

use vstd::prelude::*;
use std::collections::VecDeque;
use core::marker::PhantomData;
use crate::events::{Event, EventKind, EventSource, EventSourceInfo};
use crate::eventqueue::EventQueue;
use crate::eventqueueimpl::{events_cancelled_for, EventQueueImpl};
use crate::syscalls::EPOLLIN;

verus! {

/// The wake a sender-side transition asks the runtime to perform.
#[derive(Clone, Copy, PartialEq, Eq, Structural, Debug)]
pub enum WakeAction {
    /// No wake is owed.
    NoWake,
    /// Signal the receiver's condition variable.
    SignalCondvar,
    /// Write one token to the receiver's wake-up descriptor.
    WriteWakeupFd,
}

/// The state shared by all transmitters and the receiver of one channel.
pub struct SharedChannelData<T> {
    /// The queued messages, oldest first.
    pub queue: VecDeque<T>,
    /// Whether the receiver is still alive.
    pub port_alive: bool,
    /// The number of live transmitters.
    pub nr_senders: u64,
    /// Whether the receiver has been signalled and has not yet observed it.
    pub receiver_notified: bool,
    /// The receiver's wake-up descriptor; -1 until the receiver is
    /// reactor-integrated.
    pub epoll_fd: i32,
    /// Tally of messages ever accepted from senders.
    pub total_sent: Ghost<nat>,
    /// Tally of messages the receiver has taken out of the queue.
    pub total_taken: Ghost<nat>,
    /// Tally of messages discarded when the receiver went away.
    pub total_discarded: Ghost<nat>,
}

impl<T> SharedChannelData<T> {
    /// Every accepted message is either still queued, taken by the
    /// receiver, or was discarded when the receiver went away.
    pub open spec fn conservation(&self) -> bool {
        self.total_sent@ == self.total_taken@ + self.total_discarded@ + self.queue@.len()
    }

    /// While the receiver is alive, the wake flag is only set when there is
    /// something to observe: a queued message, or the departure of the last
    /// sender.
    pub open spec fn wake_flag_ok(&self) -> bool {
        self.port_alive && self.receiver_notified ==> self.queue@.len() > 0 || self.nr_senders
            == 0
    }

    /// Well-formedness of the shared state.
    pub open spec fn wf(&self) -> bool {
        self.conservation() && self.wake_flag_ok()
    }

    /// A fresh channel: empty queue, live receiver, one transmitter, no
    /// wake outstanding, not reactor-integrated.
    pub fn new() -> (r: SharedChannelData<T>)
        ensures
            r.queue@.len() == 0,
            r.port_alive,
            r.nr_senders == 1,
            !r.receiver_notified,
            r.epoll_fd == -1,
            r.total_sent@ == 0,
            r.total_taken@ == 0,
            r.total_discarded@ == 0,
            r.wf(),
    {
        SharedChannelData {
            queue: VecDeque::new(),
            port_alive: true,
            nr_senders: 1,
            receiver_notified: false,
            epoll_fd: -1,
            total_sent: Ghost(0),
            total_taken: Ghost(0),
            total_discarded: Ghost(0),
        }
    }
}

/// Law: the wake flag never lies.  In a well-formed channel whose receiver
/// is alive, an outstanding wake means the queue is non-empty or the last
/// sender has departed.
pub proof fn lemma_notified_implies_pending<T>(data: &SharedChannelData<T>)
    requires
        data.wf(),
        data.port_alive,
        data.receiver_notified,
    ensures
        data.queue@.len() > 0 || data.nr_senders == 0,
{
}

/// The sending half of a channel.  In a running program every transmitter
/// holds a reference to the shared state; here each operation takes that
/// state explicitly, and the runtime performs the wake it returns.
pub struct Transmitter<T> {
    marker: PhantomData<T>,
}

impl<T> Transmitter<T> {
    /// The wake owed after a state change that may have to signal the
    /// receiver.
    pub open spec fn wake_for(data: SharedChannelData<T>) -> WakeAction {
        if data.epoll_fd == -1 {
            WakeAction::SignalCondvar
        } else {
            WakeAction::WriteWakeupFd
        }
    }

    /// Appends a message, ignoring whether the receiver is still there.
    pub fn send(&self, data: &mut SharedChannelData<T>, t: T) -> (wake: WakeAction)
        ensures
            try_send_post(*old(data), *final(data), t, old(data).port_alive, wake),
            old(data).wf() ==> final(data).wf(),
    {
        let (_, wake) = self.try_send(data, t);
        wake
    }

    /// Appends a message if the receiver is still alive; returns whether it
    /// was accepted and the wake the runtime owes the receiver.  At most one
    /// wake is outstanding at a time: none is issued while the wake flag is
    /// already set.
    pub fn try_send(&self, data: &mut SharedChannelData<T>, t: T) -> (r: (bool, WakeAction))
        ensures
            try_send_post(*old(data), *final(data), t, r.0, r.1),
            r.0 == old(data).port_alive,
            old(data).wf() ==> final(data).wf(),
    {
        if !data.port_alive {
            return (false, WakeAction::NoWake);
        }
        let was_empty = data.queue.len() == 0;
        data.queue.push_back(t);
        proof {
            data.total_sent@ = data.total_sent@ + 1;
        }
        if was_empty && !data.receiver_notified {
            data.receiver_notified = true;
            if data.epoll_fd == -1 {
                (true, WakeAction::SignalCondvar)
            } else {
                (true, WakeAction::WriteWakeupFd)
            }
        } else {
            (true, WakeAction::NoWake)
        }
    }

    /// Registers one more live transmitter, as cloning a transmitter does.
    /// The transmitter being cloned is itself counted, so the count is
    /// positive.
    pub fn clone_handle(&self, data: &mut SharedChannelData<T>) -> (r: Transmitter<T>)
        requires
            old(data).nr_senders > 0,
            old(data).nr_senders < u64::MAX,
        ensures
            *final(data) == (SharedChannelData {
                nr_senders: (old(data).nr_senders + 1) as u64,
                ..*old(data)
            }),
            old(data).wf() ==> final(data).wf(),
    {
        data.nr_senders = data.nr_senders + 1;
        Transmitter { marker: PhantomData }
    }

    /// Unregisters a departing transmitter.  When the last one departs and
    /// no wake is outstanding, one final wake is owed, so that a pending
    /// receive unblocks or the close becomes observable.
    pub fn depart(self, data: &mut SharedChannelData<T>) -> (wake: WakeAction)
        requires
            old(data).nr_senders > 0,
        ensures
            final(data).nr_senders == old(data).nr_senders - 1,
            old(data).nr_senders == 1 && !old(data).receiver_notified ==> {
                &&& *final(data) == (SharedChannelData {
                    nr_senders: 0,
                    receiver_notified: true,
                    ..*old(data)
                })
                &&& wake == Self::wake_for(*old(data))
            },
            !(old(data).nr_senders == 1 && !old(data).receiver_notified) ==> {
                &&& *final(data) == (SharedChannelData {
                    nr_senders: (old(data).nr_senders - 1) as u64,
                    ..*old(data)
                })
                &&& wake == WakeAction::NoWake
            },
            old(data).wf() ==> final(data).wf(),
    {
        data.nr_senders = data.nr_senders - 1;
        if data.nr_senders == 0 && !data.receiver_notified {
            data.receiver_notified = true;
            if data.epoll_fd == -1 {
                WakeAction::SignalCondvar
            } else {
                WakeAction::WriteWakeupFd
            }
        } else {
            WakeAction::NoWake
        }
    }
}

/// What `try_send` does: when the receiver is gone the message is refused
/// and nothing changes; otherwise the message is appended and — exactly when
/// the queue was empty and no wake was outstanding — one wake is issued and
/// the wake flag set.
pub open spec fn try_send_post<T>(
    pre: SharedChannelData<T>,
    post: SharedChannelData<T>,
    t: T,
    accepted: bool,
    wake: WakeAction,
) -> bool {
    if !pre.port_alive {
        post == pre && !accepted && wake == WakeAction::NoWake
    } else {
        &&& accepted
        &&& post.queue@ == pre.queue@.push(t)
        &&& post.total_sent@ == pre.total_sent@ + 1
        &&& post.port_alive == pre.port_alive
        &&& post.nr_senders == pre.nr_senders
        &&& post.epoll_fd == pre.epoll_fd
        &&& post.total_taken == pre.total_taken
        &&& post.total_discarded == pre.total_discarded
        &&& if pre.queue@.len() == 0 && !pre.receiver_notified {
            post.receiver_notified && wake == Transmitter::<T>::wake_for(pre)
        } else {
            post.receiver_notified == pre.receiver_notified && wake == WakeAction::NoWake
        }
    }
}

/// What `try_recv` reports without blocking.
pub enum TryRecvResult<T> {
    /// Nothing queued, but senders remain.
    Empty,
    /// Nothing queued and every sender has departed.
    Disconnected,
    /// The oldest queued message.
    Data(T),
}

/// The receiving half of a channel whose owner blocks on a condition
/// variable.  In the model it owns the shared state; in a running program
/// the transmitters reach the same state through a mutex.
pub struct BlockingReceiver<T> {
    pub data: SharedChannelData<T>,
}

impl<T> BlockingReceiver<T> {
    /// Whether a receive would have to block: nothing is queued while
    /// senders remain.  The runtime waits on the condition variable while
    /// this holds, then receives.
    pub fn must_wait(&self) -> (r: bool)
        ensures
            r == (self.data.queue@.len() == 0 && self.data.nr_senders > 0),
    {
        self.data.queue.len() == 0 && self.data.nr_senders > 0
    }

    /// Takes the oldest queued message.  The runtime calls this only after
    /// the wait loop has seen the queue non-empty; receivers woken with an
    /// empty queue and no senders left must use `recv_opt` instead.
    pub fn recv(&mut self) -> (r: T)
        requires
            old(self).data.queue@.len() > 0,
        ensures
            r == old(self).data.queue@[0],
            final(self).data == (SharedChannelData {
                queue: final(self).data.queue,
                receiver_notified: false,
                total_taken: Ghost((old(self).data.total_taken@ + 1) as nat),
                ..old(self).data
            }),
            final(self).data.queue@ == old(self).data.queue@.skip(1),
            old(self).data.wf() ==> final(self).data.wf(),
    {
        let t = self.data.queue.pop_front().unwrap();
        proof {
            self.data.total_taken@ = self.data.total_taken@ + 1;
        }
        self.data.receiver_notified = false;
        t
    }

    /// Takes the oldest queued message, or reports `None` when every sender
    /// has departed and nothing remains queued.  The runtime calls this
    /// after its wait loop, so one of the two holds.
    pub fn recv_opt(&mut self) -> (r: Option<T>)
        requires
            old(self).data.queue@.len() > 0 || old(self).data.nr_senders == 0,
        ensures
            old(self).data.queue@.len() > 0 ==> r == Some(old(self).data.queue@[0])
                && final(self).data.queue@ == old(self).data.queue@.skip(1) && final(self).data
                == (SharedChannelData {
                queue: final(self).data.queue,
                receiver_notified: false,
                total_taken: Ghost((old(self).data.total_taken@ + 1) as nat),
                ..old(self).data
            }),
            old(self).data.queue@.len() == 0 ==> r is None && final(self).data
                == (SharedChannelData { receiver_notified: false, ..old(self).data }),
            old(self).data.wf() ==> final(self).data.wf(),
    {
        let mut ret: Option<T> = None;
        if self.data.queue.len() > 0 {
            let t = self.data.queue.pop_front().unwrap();
            proof {
                self.data.total_taken@ = self.data.total_taken@ + 1;
            }
            ret = Some(t);
        }
        self.data.receiver_notified = false;
        ret
    }

    /// Reports the oldest queued message, a disconnect, or emptiness,
    /// without ever blocking.
    pub fn try_recv(&mut self) -> (r: TryRecvResult<T>)
        ensures
            old(self).data.queue@.len() > 0 ==> r == TryRecvResult::Data(old(self).data.queue@[0])
                && final(self).data.queue@ == old(self).data.queue@.skip(1) && final(self).data
                == (SharedChannelData {
                queue: final(self).data.queue,
                receiver_notified: false,
                total_taken: Ghost((old(self).data.total_taken@ + 1) as nat),
                ..old(self).data
            }),
            old(self).data.queue@.len() == 0 && old(self).data.nr_senders == 0 ==> (
            r is Disconnected) && final(self).data == (SharedChannelData {
                receiver_notified: false,
                ..old(self).data
            }),
            old(self).data.queue@.len() == 0 && old(self).data.nr_senders > 0 ==> (r is Empty)
                && final(self).data == (SharedChannelData {
                receiver_notified: false,
                ..old(self).data
            }),
            old(self).data.wf() ==> final(self).data.wf(),
    {
        let mut ret: TryRecvResult<T> = TryRecvResult::Empty;
        if self.data.queue.len() >= 1 {
            let t = self.data.queue.pop_front().unwrap();
            proof {
                self.data.total_taken@ = self.data.total_taken@ + 1;
            }
            ret = TryRecvResult::Data(t);
        } else if self.data.nr_senders == 0 {
            ret = TryRecvResult::Disconnected;
        }
        self.data.receiver_notified = false;
        ret
    }

    /// Marks the receiver dead and discards the queue, as dropping the
    /// receiver does.  Later sends are refused.
    pub fn close(&mut self)
        ensures
            final(self).data == (SharedChannelData {
                queue: final(self).data.queue,
                port_alive: false,
                total_discarded: Ghost(
                    (old(self).data.total_discarded@ + old(self).data.queue@.len()) as nat,
                ),
                ..old(self).data
            }),
            final(self).data.queue@.len() == 0,
            old(self).data.wf() ==> final(self).data.wf(),
    {
        proof {
            self.data.total_discarded@ = self.data.total_discarded@ + self.data.queue@.len();
        }
        self.data.port_alive = false;
        self.data.queue.clear();
    }
}

/// What the runtime must do after integrating a receiver with a reactor.
#[derive(Clone, Copy, PartialEq, Eq, Structural, Debug)]
pub enum IntegrateAction {
    /// Register the wake-up descriptor with the reactor for reading.
    Register,
    /// Register, and write one wake token: messages were already queued.
    RegisterAndNotify,
    /// Every sender was already gone: a close event has been buffered and
    /// the wake-up descriptor is unused; close it.
    AlreadyClosed,
}

/// The receiving half of a channel that participates in a reactor.  Queued
/// messages are announced as `ChannelMessageEvent`s; the departure of the
/// last sender as one `ChannelClosedEvent`.
pub struct Receiver<T> {
    /// The wrapped blocking receiver, owner of the shared state.
    pub receiver: BlockingReceiver<T>,
    /// The identity this receiver stamps on its events.
    pub event_source_id: EventSourceInfo,
    /// How many queued messages have been announced as events but not yet
    /// taken with `recv`.
    pub available_messages: usize,
    /// Tally of `ChannelMessageEvent`s announced since integration.
    pub announced: Ghost<nat>,
    /// Messages already accounted for (taken or discarded) before
    /// integration.
    pub base: Ghost<nat>,
}

impl<T> EventSource for Receiver<T> {
    open spec fn source_id(&self) -> u64 {
        self.event_source_id.id
    }

    fn get_event_source_info(&self) -> (r: &EventSourceInfo) {
        &self.event_source_id
    }
}

impl<T> Receiver<T> {
    /// Well-formedness: the shared state is well formed, announcements never
    /// outrun the queue, and the announcement tally balances the send tally.
    pub open spec fn inv(&self) -> bool {
        &&& self.receiver.data.wf()
        &&& self.available_messages <= self.receiver.data.queue@.len()
        &&& self.announced@ + self.base@ + self.receiver.data.queue@.len()
            == self.receiver.data.total_sent@ + self.available_messages
    }

    /// Integrates a blocking receiver with a reactor.  While senders remain,
    /// the wake-up descriptor is adopted and must be registered — with one
    /// wake token already written when messages are waiting.  When every
    /// sender is already gone, a `ChannelClosedEvent` is buffered at once.
    pub fn from_blocking_receiver(
        blocking_receiver: BlockingReceiver<T>,
        event_queue: &mut EventQueue,
        wakeup_fd: i32,
    ) -> (r: (Receiver<T>, IntegrateAction))
        requires
            old(event_queue).queue.next_source_id < u64::MAX,
            wakeup_fd >= 0,
            blocking_receiver.data.wf(),
        ensures
            r.0.inv(),
            r.0.event_source_id.id == old(event_queue).queue.next_source_id,
            r.0.available_messages == 0,
            r.0.announced@ == 0,
            final(event_queue).queue.next_source_id == old(event_queue).queue.next_source_id + 1,
            blocking_receiver.data.nr_senders > 0 ==> {
                &&& r.0.receiver.data == (SharedChannelData {
                    epoll_fd: wakeup_fd,
                    receiver_notified: blocking_receiver.data.receiver_notified
                        || blocking_receiver.data.queue@.len() > 0,
                    ..blocking_receiver.data
                })
                &&& r.1 == (if blocking_receiver.data.queue@.len() > 0 {
                    IntegrateAction::RegisterAndNotify
                } else {
                    IntegrateAction::Register
                })
                &&& final(event_queue).queue.events() == old(event_queue).queue.events()
            },
            blocking_receiver.data.nr_senders == 0 ==> {
                &&& r.0.receiver.data == blocking_receiver.data
                &&& r.1 == IntegrateAction::AlreadyClosed
                &&& final(event_queue).queue.events() == old(event_queue).queue.events().push(
                    Event {
                        event_type: EventKind::ChannelClosedEvent,
                        is_valid: true,
                        source: r.0.event_source_id,
                    },
                )
            },
    {
        let event_source_id = event_queue.queue.new_source_info();
        let mut receiver = blocking_receiver;
        let action: IntegrateAction;
        if receiver.data.nr_senders != 0 {
            receiver.data.epoll_fd = wakeup_fd;
            if receiver.data.queue.len() > 0 {
                receiver.data.receiver_notified = true;
                action = IntegrateAction::RegisterAndNotify;
            } else {
                action = IntegrateAction::Register;
            }
        } else {
            let e = Event {
                event_type: EventKind::ChannelClosedEvent,
                is_valid: true,
                source: event_source_id,
            };
            event_queue.queue.push_back_event(e);
            action = IntegrateAction::AlreadyClosed;
        }
        let ghost base = (receiver.data.total_taken@ + receiver.data.total_discarded@) as nat;
        (
            Receiver {
                receiver,
                event_source_id,
                available_messages: 0,
                announced: Ghost(0),
                base: Ghost(base),
            },
            action,
        )
    }

    /// Takes the oldest announced message, or `None` when every announced
    /// message has already been taken.  Never blocks: messages are only
    /// announced while they are queued.
    pub fn recv(&mut self) -> (r: Option<T>)
        requires
            old(self).inv(),
        ensures
            final(self).inv(),
            old(self).available_messages == 0 ==> r is None && *final(self) == *old(self),
            old(self).available_messages > 0 ==> {
                &&& r == Some(old(self).receiver.data.queue@[0])
                &&& final(self).receiver.data.queue@ == old(self).receiver.data.queue@.skip(1)
                &&& final(self).available_messages == old(self).available_messages - 1
                &&& final(self).receiver.data == (SharedChannelData {
                    queue: final(self).receiver.data.queue,
                    receiver_notified: false,
                    total_taken: Ghost((old(self).receiver.data.total_taken@ + 1) as nat),
                    ..old(self).receiver.data
                })
                &&& final(self).event_source_id == old(self).event_source_id
                &&& final(self).announced == old(self).announced
            },
    {
        if self.available_messages > 0 {
            let t = self.receiver.recv();
            self.available_messages = self.available_messages - 1;
            Some(t)
        } else {
            None
        }
    }

    /// Handles a readiness notification from the wake-up descriptor: every
    /// queued message not yet announced becomes one `ChannelMessageEvent`,
    /// and the departure of the last sender becomes one
    /// `ChannelClosedEvent`.  Clears the wake flag.
    ///
    /// Law: announcements keep count — the events appended equal the
    /// messages enqueued since the last announcement, so coalesced wake-ups
    /// lose no messages.
    pub fn process_epoll_events(
        &mut self,
        event_queue: &mut EventQueueImpl,
        epoll_events: u32,
        wakeup_value: u64,
    )
        requires
            old(self).inv(),
        ensures
            final(self).inv(),
            epoll_events & EPOLLIN == 0 || wakeup_value != 1 ==> *final(self) == *old(self)
                && *final(event_queue) == *old(event_queue),
            epoll_events & EPOLLIN != 0 && wakeup_value == 1 ==> {
                let fresh = old(self).receiver.data.queue@.len() - old(self).available_messages;
                &&& final(event_queue).events() == old(event_queue).events() + Seq::new(
                    fresh as nat,
                    |i: int| Event {
                        event_type: EventKind::ChannelMessageEvent,
                        is_valid: true,
                        source: old(self).event_source_id,
                    },
                ) + (if old(self).receiver.data.nr_senders == 0 {
                    seq![
                        Event {
                            event_type: EventKind::ChannelClosedEvent,
                            is_valid: true,
                            source: old(self).event_source_id,
                        },
                    ]
                } else {
                    Seq::empty()
                })
                &&& final(event_queue).next_source_id == old(event_queue).next_source_id
                &&& final(self).available_messages == old(self).receiver.data.queue@.len()
                &&& final(self).receiver.data == (SharedChannelData {
                    receiver_notified: false,
                    ..old(self).receiver.data
                })
                &&& final(self).announced@ == old(self).announced@ + fresh
                &&& final(self).event_source_id == old(self).event_source_id
            },
    {
        if epoll_events & EPOLLIN == 0 || wakeup_value != 1 {
            return;
        }
        let qlen = self.receiver.data.queue.len();
        let new_messages = qlen - self.available_messages;
        self.available_messages = qlen;
        proof {
            self.announced@ = (self.announced@ + new_messages) as nat;
        }
        let ghost mid = event_queue.events();
        let mut i: usize = 0;
        while i < new_messages
            invariant
                i <= new_messages,
                event_queue.events() =~= mid + Seq::new(
                    i as nat,
                    |j: int| Event {
                        event_type: EventKind::ChannelMessageEvent,
                        is_valid: true,
                        source: self.event_source_id,
                    },
                ),
                event_queue.next_source_id == old(event_queue).next_source_id,
                *self == old(self).with_backlog_announced(),
            decreases new_messages - i,
        {
            let e = Event {
                event_type: EventKind::ChannelMessageEvent,
                is_valid: true,
                source: self.event_source_id,
            };
            event_queue.push_back_event(e);
            i = i + 1;
        }
        if self.receiver.data.nr_senders == 0 {
            let e = Event {
                event_type: EventKind::ChannelClosedEvent,
                is_valid: true,
                source: self.event_source_id,
            };
            event_queue.push_back_event(e);
        }
        self.receiver.data.receiver_notified = false;
        proof {
            let fresh = old(self).receiver.data.queue@.len() - old(self).available_messages;
            assert(final(event_queue).events() =~= old(event_queue).events() + Seq::new(
                fresh as nat,
                |i: int| Event {
                    event_type: EventKind::ChannelMessageEvent,
                    is_valid: true,
                    source: old(self).event_source_id,
                },
            ) + (if old(self).receiver.data.nr_senders == 0 {
                seq![
                    Event {
                        event_type: EventKind::ChannelClosedEvent,
                        is_valid: true,
                        source: old(self).event_source_id,
                    },
                ]
            } else {
                Seq::empty()
            }));
        }
    }

    /// The state right after the backlog bookkeeping of
    /// `process_epoll_events`, before any event is pushed.
    spec fn with_backlog_announced(self) -> Receiver<T> {
        Receiver {
            available_messages: self.receiver.data.queue@.len() as usize,
            announced: Ghost(
                (self.announced@ + self.receiver.data.queue@.len() - self.available_messages)
                    as nat,
            ),
            ..self
        }
    }

    /// Tears the receiver down, as dropping it does: gives up the wake-up
    /// descriptor (returned so the runtime can close it; senders fall back
    /// to the condition-variable wake, which nothing listens to any more),
    /// cancels the buffered events of this source, and marks the receiver
    /// dead so later sends are refused.
    pub fn close(&mut self, event_queue: &mut EventQueueImpl) -> (wakeup_fd: i32)
        ensures
            wakeup_fd == old(self).receiver.data.epoll_fd,
            final(self).receiver.data.epoll_fd == -1,
            !final(self).receiver.data.port_alive,
            final(self).receiver.data.queue@.len() == 0,
            final(self).receiver.data.nr_senders == old(self).receiver.data.nr_senders,
            final(self).event_source_id == old(self).event_source_id,
            events_cancelled_for(
                old(event_queue).events(),
                final(event_queue).events(),
                old(self).event_source_id.id,
            ),
            final(event_queue).next_source_id == old(event_queue).next_source_id,
            old(self).receiver.data.wf() ==> final(self).receiver.data.wf(),
    {
        let wakeup_fd = self.receiver.data.epoll_fd;
        self.receiver.data.epoll_fd = -1;
        self.remove_pending_events(event_queue);
        self.receiver.close();
        wakeup_fd
    }

    /// Cancels in place every buffered event carrying this receiver's
    /// identity.
    pub fn remove_pending_events(&mut self, event_queue: &mut EventQueueImpl)
        ensures
            *final(self) == *old(self),
            events_cancelled_for(
                old(event_queue).events(),
                final(event_queue).events(),
                old(self).event_source_id.id,
            ),
            final(event_queue).next_source_id == old(event_queue).next_source_id,
    {
        event_queue.remove_pending_events(&self.event_source_id);
    }
}

/// Law: announcements keep count over the receiver's whole lifetime.  In a
/// well-formed integrated receiver, the `ChannelMessageEvent`s announced so
/// far equal the messages accepted from senders, less those settled before
/// integration and less the backlog not yet announced.
pub proof fn lemma_channel_message_accounting<T>(r: &Receiver<T>)
    requires
        r.inv(),
    ensures
        r.announced@ == r.receiver.data.total_sent@ - r.base@ - (r.receiver.data.queue@.len()
            - r.available_messages),
{
}

/// Constructor for the two channel flavours.
pub struct Channel<T> {
    marker: PhantomData<T>,
}

impl<T> Channel<T> {
    /// Creates a channel with a blocking receiver.
    pub fn create_blocking() -> (r: (BlockingReceiver<T>, Transmitter<T>))
        ensures
            r.0.data.queue@.len() == 0,
            r.0.data.port_alive,
            r.0.data.nr_senders == 1,
            !r.0.data.receiver_notified,
            r.0.data.epoll_fd == -1,
            r.0.data.total_sent@ == 0,
            r.0.data.total_taken@ == 0,
            r.0.data.total_discarded@ == 0,
            r.0.data.wf(),
    {
        (BlockingReceiver { data: SharedChannelData::new() }, Transmitter { marker: PhantomData })
    }

    /// Creates a channel whose receiver participates in the given reactor
    /// through the given wake-up descriptor; the runtime must register that
    /// descriptor for reading.
    pub fn create(event_queue: &mut EventQueue, wakeup_fd: i32) -> (r: (
        Receiver<T>,
        Transmitter<T>,
    ))
        requires
            old(event_queue).queue.next_source_id < u64::MAX,
            wakeup_fd >= 0,
        ensures
            r.0.inv(),
            r.0.receiver.data.queue@.len() == 0,
            r.0.receiver.data.port_alive,
            r.0.receiver.data.nr_senders == 1,
            !r.0.receiver.data.receiver_notified,
            r.0.receiver.data.epoll_fd == wakeup_fd,
            r.0.available_messages == 0,
            r.0.event_source_id.id == old(event_queue).queue.next_source_id,
            final(event_queue).queue.events() == old(event_queue).queue.events(),
            final(event_queue).queue.next_source_id == old(event_queue).queue.next_source_id + 1,
    {
        let (rx, tx) = Channel::<T>::create_blocking();
        let (receiver, _action) = Receiver::from_blocking_receiver(rx, event_queue, wakeup_fd);
        (receiver, tx)
    }
}

} // verus!
