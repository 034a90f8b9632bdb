//! An evented I/O reactor for Linux, modelled as verified state machines.
//!
//! The reactor multiplexes readiness notifications from kernel file
//! descriptors (sockets, timers, cross-thread wake-ups) and delivers them as
//! typed events.  Everything the kernel decides (readiness bits, byte counts,
//! error numbers) enters this library as a plain value; every decision the
//! reactor and its event sources make on those values is verified here.  The
//! thin layer that performs the actual system calls lives outside the library
//! and merely carries out the actions these functions return.

use vstd::prelude::*;

pub mod events;
pub mod helpers;
pub mod eventqueue;
pub mod eventqueueimpl;
pub mod syscalls;
pub mod timer;
pub mod channel;
pub mod tcp;

verus! {

/// Holds either the success value of an I/O operation or an error.
pub type IoResult<T> = Result<T, crate::helpers::IoError>;

} // verus!
