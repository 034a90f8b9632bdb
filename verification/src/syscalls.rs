//! Plain-data mirrors of the kernel structures and flag values that the
//! reactor's decisions are phrased over.  The runtime copies these values
//! into the real kernel structures when it performs a system call.

use vstd::prelude::*;

verus! {

/// Readiness: the descriptor may be read without blocking.
pub const EPOLLIN: u32 = 0x001;
/// Urgent data is available.
pub const EPOLLPRI: u32 = 0x002;
/// Readiness: the descriptor may be written without blocking.
pub const EPOLLOUT: u32 = 0x004;
/// An error condition is pending on the descriptor.
pub const EPOLLERR: u32 = 0x008;
/// The peer hung up.
pub const EPOLLHUP: u32 = 0x010;
/// Disarm the interest after one delivered notification.
pub const EPOLLONESHOT: u32 = 0x40000000;

/// Add a file descriptor to the interest set.
pub const EPOLL_CTL_ADD: i32 = 1;
/// Remove a file descriptor from the interest set.
pub const EPOLL_CTL_DEL: i32 = 2;
/// Change a file descriptor's interest.
pub const EPOLL_CTL_MOD: i32 = 3;

/// Query how many bytes may be read from a descriptor without blocking.
pub const FIONREAD: i32 = 0x541B;
/// Pending socket error, readable through `getsockopt`.
pub const SO_ERROR: i32 = 4;

/// The user-data word stored with an epoll registration.  The reactor
/// stores the key under which it finds the registered source again.
#[derive(Clone, Copy, PartialEq, Eq, Structural, Debug)]
#[allow(non_camel_case_types)]
pub struct epoll_data {
    pub data: u64,
}

impl epoll_data {
    /// A zeroed user-data word.
    pub fn new() -> (r: epoll_data)
        ensures
            r.data == 0,
    {
        epoll_data { data: 0 }
    }

    /// Stores a 64-bit value.
    pub fn set_data_as_u64(&mut self, data: u64)
        ensures
            final(self).data == data,
    {
        self.data = data;
    }

    /// Reads the word back as a 64-bit value.
    pub fn as_u64(&self) -> (r: u64)
        ensures
            r == self.data,
    {
        self.data
    }

    /// Stores a 32-bit value (upper half cleared).
    pub fn set_data_as_u32(&mut self, data: u32)
        ensures
            final(self).data == data as u64,
    {
        self.data = data as u64;
    }

    /// Reads the lower half back as a 32-bit value.
    pub fn get_data_as_u32(&self) -> (r: u32)
        ensures
            r == self.data as u32,
            self.data <= u32::MAX ==> r == self.data,
    {
        self.data as u32
    }

    /// Stores a file descriptor (kept as its 32-bit two's-complement image).
    pub fn set_data_as_fd(&mut self, fd: i32)
        ensures
            final(self).data == fd as u32 as u64,
    {
        self.data = fd as u32 as u64;
    }

    /// Reads the stored file descriptor back.
    pub fn get_data_as_fd(&self) -> (r: i32)
        ensures
            r == self.data as u32 as i32,
    {
        self.data as u32 as i32
    }
}

/// One readiness notification: the ready bits and the registration's
/// user data.
#[derive(Clone, Copy, PartialEq, Eq, Structural, Debug)]
#[allow(non_camel_case_types)]
pub struct epoll_event {
    pub events: u32,
    pub data: epoll_data,
}

impl epoll_event {
    /// A zeroed notification record.
    pub fn new() -> (r: epoll_event)
        ensures
            r.events == 0,
            r.data.data == 0,
    {
        epoll_event { events: 0, data: epoll_data::new() }
    }
}

/// A point in time or a duration, in seconds and nanoseconds.
#[derive(Clone, Copy, PartialEq, Eq, Structural, Debug)]
#[allow(non_camel_case_types)]
pub struct timespec {
    pub tv_sec: i64,
    pub tv_nsec: i64,
}

/// A timer setting: the initial expiration and the period for a periodic
/// timer (both zero disarm the timer).
#[derive(Clone, Copy, PartialEq, Eq, Structural, Debug)]
#[allow(non_camel_case_types)]
pub struct itimerspec {
    pub it_interval: timespec,
    pub it_value: timespec,
}

impl itimerspec {
    /// A zeroed setting; handing it to the kernel disarms the timer.
    pub fn new() -> (r: itimerspec)
        ensures
            r.it_interval.tv_sec == 0,
            r.it_interval.tv_nsec == 0,
            r.it_value.tv_sec == 0,
            r.it_value.tv_nsec == 0,
    {
        itimerspec {
            it_interval: timespec { tv_sec: 0, tv_nsec: 0 },
            it_value: timespec { tv_sec: 0, tv_nsec: 0 },
        }
    }
}

/// Round-trip law: a file descriptor stored in a user-data word is read
/// back unchanged.
pub proof fn lemma_fd_round_trip(fd: i32)
    ensures
        fd as u32 as i32 == fd,
{
    assert(fd as u32 as i32 == fd) by (bit_vector);
}

} // verus!
