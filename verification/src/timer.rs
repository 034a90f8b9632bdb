//! A timerfd-backed periodic or one-shot timer.
//!
//! The timer's configuration and activity state live here and are verified;
//! arming, disarming and the epoll registration are system calls that the
//! runtime performs when told to by the values `start` and `stop` return.
//! Expiration counts read from the descriptor enter `process_epoll_events`
//! as a plain number.

use vstd::prelude::*;
use crate::events::{Event, EventKind, EventSource, EventSourceInfo};
use crate::eventqueue::EventQueue;
use crate::eventqueueimpl::{events_cancelled_for, EventQueueImpl};
use crate::syscalls::{itimerspec, timespec, EPOLLIN, EPOLLONESHOT};

verus! {

/// A `TimerEvent` carrying the given source identity.
pub open spec fn timer_event(source: EventSourceInfo) -> Event {
    Event { event_type: EventKind::TimerEvent, is_valid: true, source }
}

/// What the runtime must do to arm the timer after a successful `start`.
#[derive(Clone, Copy, PartialEq, Eq, Structural, Debug)]
pub struct TimerArm {
    /// The setting to hand to the timer descriptor.
    pub setting: itimerspec,
    /// The epoll interest to register or modify.
    pub epoll_flags: u32,
    /// True: register the descriptor; false: modify an existing interest.
    pub register: bool,
}

/// An interval or one-shot timer bound to an event queue.
pub struct Timer {
    /// The timer descriptor, held for the runtime's use.
    pub fd: i32,
    /// Whether the timer is currently armed.
    pub is_active: bool,
    /// The interval in milliseconds; zero means not configured.
    pub interval: u32,
    /// Whether the timer fires once rather than periodically.
    pub singleshot: bool,
    /// Whether the descriptor is currently registered with the reactor.
    pub epoll_registered: bool,
    /// The identity this timer stamps on its events.
    pub event_source_id: EventSourceInfo,
}

impl EventSource for Timer {
    open spec fn source_id(&self) -> u64 {
        self.event_source_id.id
    }

    fn get_event_source_info(&self) -> (r: &EventSourceInfo) {
        &self.event_source_id
    }
}

impl Timer {
    /// Builds a timer around a freshly created timer descriptor.  Does not
    /// arm it.
    pub fn create(event_queue: &mut EventQueue, fd: i32) -> (r: Timer)
        requires
            old(event_queue).queue.next_source_id < u64::MAX,
        ensures
            r.fd == fd,
            !r.is_active,
            r.interval == 0,
            !r.singleshot,
            !r.epoll_registered,
            r.event_source_id.id == old(event_queue).queue.next_source_id,
            !old(event_queue).queue.issued(r.event_source_id),
            final(event_queue).queue.issued(r.event_source_id),
            final(event_queue).queue.events() == old(event_queue).queue.events(),
            final(event_queue).queue.next_source_id == old(event_queue).queue.next_source_id + 1,
    {
        let event_source_id = event_queue.queue.new_source_info();
        Timer {
            fd,
            is_active: false,
            interval: 0,
            singleshot: false,
            epoll_registered: false,
            event_source_id,
        }
    }

    /// Sets the interval in milliseconds.
    pub fn set_interval(&mut self, interval: u32)
        ensures
            *final(self) == (Timer { interval, ..*old(self) }),
    {
        self.interval = interval;
    }

    /// The configured interval in milliseconds.
    pub fn get_interal(&self) -> (r: u32)
        ensures
            r == self.interval,
    {
        self.interval
    }

    /// Chooses between one-shot and periodic operation.
    pub fn set_singleshot(&mut self, singleshot: bool)
        ensures
            *final(self) == (Timer { singleshot, ..*old(self) }),
    {
        self.singleshot = singleshot;
    }

    /// Whether the timer fires once rather than periodically.
    pub fn is_singleshot(&self) -> (r: bool)
        ensures
            r == self.singleshot,
    {
        self.singleshot
    }

    /// Whether the timer is currently armed.
    pub fn is_active(&self) -> (r: bool)
        ensures
            r == self.is_active,
    {
        self.is_active
    }

    /// The timer setting that arms this timer: the initial expiration after
    /// `interval` milliseconds and, for a periodic timer, the same period.
    pub open spec fn arm_setting(interval: u32, singleshot: bool) -> itimerspec {
        let value = timespec {
            tv_sec: (interval / 1000) as i64,
            tv_nsec: ((interval % 1000) * 1000000) as i64,
        };
        itimerspec {
            it_value: value,
            it_interval: if singleshot { timespec { tv_sec: 0, tv_nsec: 0 } } else { value },
        }
    }

    /// Arms the timer.  A no-op while the timer is already active or while
    /// no interval is configured; otherwise returns what the runtime must
    /// hand to the kernel.
    pub fn start(&mut self) -> (r: Option<TimerArm>)
        ensures
            old(self).is_active || old(self).interval == 0 ==> r is None && *final(self)
                == *old(self),
            !(old(self).is_active || old(self).interval == 0) ==> {
                &&& *final(self) == (Timer { is_active: true, epoll_registered: true, ..*old(self) })
                &&& r == Some(
                    TimerArm {
                        setting: Self::arm_setting(old(self).interval, old(self).singleshot),
                        epoll_flags: if old(self).singleshot {
                            EPOLLIN | EPOLLONESHOT
                        } else {
                            EPOLLIN
                        },
                        register: !old(self).epoll_registered,
                    },
                )
            },
    {
        if self.is_active || self.interval == 0 {
            return None;
        }

        let mut new_value = itimerspec::new();
        new_value.it_value.tv_sec = (self.interval / 1000) as i64;
        new_value.it_value.tv_nsec = (self.interval % 1000) as i64 * 1000000;
        if !self.singleshot {
            new_value.it_interval = new_value.it_value;
        }

        let epoll_flags = if self.singleshot {
            EPOLLIN | EPOLLONESHOT
        } else {
            EPOLLIN
        };
        let register = !self.epoll_registered;
        self.is_active = true;
        self.epoll_registered = true;
        Some(TimerArm { setting: new_value, epoll_flags, register })
    }

    /// Disarms the timer and cancels its buffered events.  A no-op while
    /// inactive.  Returns true when the runtime must disarm the descriptor
    /// and unregister it from epoll.
    pub fn stop(&mut self, event_queue: &mut EventQueue) -> (r: bool)
        ensures
            !old(self).is_active ==> !r && *final(self) == *old(self) && *final(event_queue)
                == *old(event_queue),
            old(self).is_active ==> {
                &&& r
                &&& *final(self) == (Timer {
                    is_active: false,
                    epoll_registered: false,
                    ..*old(self)
                })
                &&& events_cancelled_for(
                    old(event_queue).queue.events(),
                    final(event_queue).queue.events(),
                    old(self).event_source_id.id,
                )
                &&& final(event_queue).queue.next_source_id
                    == old(event_queue).queue.next_source_id
            },
    {
        if !self.is_active {
            return false;
        }
        self.epoll_registered = false;
        self.is_active = false;
        self.remove_pending_events(&mut event_queue.queue);
        true
    }

    /// Handles a readiness notification: pushes one `TimerEvent` per
    /// expiration the runtime read from the descriptor, and marks a
    /// one-shot timer inactive once it has fired.
    ///
    /// Law: expiration counts are preserved — exactly `expirations` events
    /// are appended, so coalesced wake-ups lose no ticks.
    pub fn process_epoll_events(
        &mut self,
        event_queue: &mut EventQueueImpl,
        epoll_events: u32,
        expirations: u64,
    )
        ensures
            epoll_events & EPOLLIN == 0 ==> *final(self) == *old(self) && *final(event_queue)
                == *old(event_queue),
            epoll_events & EPOLLIN != 0 ==> {
                &&& final(event_queue).events() == old(event_queue).events() + Seq::new(
                    expirations as nat,
                    |i: int| timer_event(old(self).event_source_id),
                )
                &&& final(event_queue).next_source_id == old(event_queue).next_source_id
                &&& *final(self) == (Timer {
                    is_active: old(self).is_active && !(old(self).singleshot && expirations > 0),
                    ..*old(self)
                })
            },
    {
        if epoll_events & EPOLLIN == 0 {
            return;
        }
        let ghost base = event_queue.events();
        let mut i: u64 = 0;
        while i < expirations
            invariant
                i <= expirations,
                event_queue.events() =~= base + Seq::new(
                    i as nat,
                    |j: int| timer_event(self.event_source_id),
                ),
                event_queue.next_source_id == old(event_queue).next_source_id,
                self == old(self),
            decreases expirations - i,
        {
            let e = Event {
                event_type: EventKind::TimerEvent,
                is_valid: true,
                source: self.event_source_id,
            };
            event_queue.push_back_event(e);
            i = i + 1;
        }
        if self.singleshot && expirations > 0 {
            self.is_active = false;
        }
        proof {
            assert(final(event_queue).events() =~= base + Seq::new(
                expirations as nat,
                |j: int| timer_event(old(self).event_source_id),
            ));
        }
    }

    /// Cancels in place every buffered event carrying this timer's identity.
    pub fn remove_pending_events(&mut self, event_queue: &mut EventQueueImpl)
        ensures
            *final(self) == *old(self),
            events_cancelled_for(
                old(event_queue).events(),
                final(event_queue).events(),
                old(self).event_source_id.id,
            ),
            final(event_queue).next_source_id == old(event_queue).next_source_id,
    {
        event_queue.remove_pending_events(&self.event_source_id);
    }
}

} // verus!
