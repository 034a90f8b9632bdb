//! Error kinds surfaced by the reactor, and the mapping from `errno`
//! values to them.

use vstd::prelude::*;

verus! {

/// Value returned by stream primitives to signal the end of input.
pub const EOF: i32 = -1;

/// Operation not permitted.
pub const EPERM: i32 = 1;
/// Interrupted system call.
pub const EINTR: i32 = 4;
/// Resource temporarily unavailable.
pub const EAGAIN: i32 = 11;
/// Operation would block (same value as `EAGAIN` on Linux).
pub const EWOULDBLOCK: i32 = 11;
/// Permission denied.
pub const EACCES: i32 = 13;
/// Broken pipe.
pub const EPIPE: i32 = 32;
/// Address already in use.
pub const EADDRINUSE: i32 = 98;
/// Address not available.
pub const EADDRNOTAVAIL: i32 = 99;
/// Connection aborted.
pub const ECONNABORTED: i32 = 103;
/// Connection reset by peer.
pub const ECONNRESET: i32 = 104;
/// Socket is not connected.
pub const ENOTCONN: i32 = 107;
/// Connection refused.
pub const ECONNREFUSED: i32 = 111;
/// Operation now in progress.
pub const EINPROGRESS: i32 = 115;

/// The kinds of I/O failure that the reactor reports to applications.
#[derive(Clone, Copy, PartialEq, Eq, Structural, Debug)]
pub enum IoErrorKind {
    EndOfFile,
    ConnectionRefused,
    ConnectionReset,
    PermissionDenied,
    BrokenPipe,
    NotConnected,
    ConnectionAborted,
    ResourceUnavailable,
    Closed,
    OtherIoError,
}

/// An I/O error as delivered to callers and inside `IoErrorEvent`s.
#[derive(Clone, Copy, PartialEq, Eq, Structural, Debug)]
pub struct IoError {
    pub kind: IoErrorKind,
}

/// The error kind that a given `errno` value maps to.
pub open spec fn error_kind_of(errno: i32) -> IoErrorKind {
    if errno == EOF {
        IoErrorKind::EndOfFile
    } else if errno == ECONNREFUSED {
        IoErrorKind::ConnectionRefused
    } else if errno == ECONNRESET {
        IoErrorKind::ConnectionReset
    } else if errno == EPERM || errno == EACCES {
        IoErrorKind::PermissionDenied
    } else if errno == EPIPE {
        IoErrorKind::BrokenPipe
    } else if errno == ENOTCONN {
        IoErrorKind::NotConnected
    } else if errno == ECONNABORTED {
        IoErrorKind::ConnectionAborted
    } else if errno == EADDRNOTAVAIL || errno == EADDRINUSE {
        IoErrorKind::ConnectionRefused
    } else if errno == EAGAIN {
        IoErrorKind::ResourceUnavailable
    } else {
        IoErrorKind::OtherIoError
    }
}

impl IoError {
    /// Builds an error of the given kind.
    pub fn new(kind: IoErrorKind) -> (r: IoError)
        ensures
            r.kind == kind,
    {
        IoError { kind }
    }

    /// A short human description of the error.
    pub fn desc(&self) -> (r: &'static str)
        ensures
            r@ == desc_of(self.kind),
    {
        match self.kind {
            IoErrorKind::EndOfFile => "end of file",
            IoErrorKind::ConnectionRefused => "connection refused",
            IoErrorKind::ConnectionReset => "connection reset",
            IoErrorKind::PermissionDenied => "permission denied",
            IoErrorKind::BrokenPipe => "broken pipe",
            IoErrorKind::NotConnected => "not connected",
            IoErrorKind::ConnectionAborted => "connection aborted",
            IoErrorKind::ResourceUnavailable => "resource temporarily unavailable",
            IoErrorKind::Closed => "connection is closed",
            IoErrorKind::OtherIoError => "unknown error",
        }
    }
}

/// The description text that `IoError::desc` returns for each kind.
pub open spec fn desc_of(kind: IoErrorKind) -> Seq<char> {
    match kind {
        IoErrorKind::EndOfFile => "end of file"@,
        IoErrorKind::ConnectionRefused => "connection refused"@,
        IoErrorKind::ConnectionReset => "connection reset"@,
        IoErrorKind::PermissionDenied => "permission denied"@,
        IoErrorKind::BrokenPipe => "broken pipe"@,
        IoErrorKind::NotConnected => "not connected"@,
        IoErrorKind::ConnectionAborted => "connection aborted"@,
        IoErrorKind::ResourceUnavailable => "resource temporarily unavailable"@,
        IoErrorKind::Closed => "connection is closed"@,
        IoErrorKind::OtherIoError => "unknown error"@,
    }
}

/// Maps an `errno` value to the error the reactor reports for it.
pub fn translate_error(errno: i32) -> (r: IoError)
    ensures
        r.kind == error_kind_of(errno),
{
    let kind = if errno == EOF {
        IoErrorKind::EndOfFile
    } else if errno == ECONNREFUSED {
        IoErrorKind::ConnectionRefused
    } else if errno == ECONNRESET {
        IoErrorKind::ConnectionReset
    } else if errno == EPERM || errno == EACCES {
        IoErrorKind::PermissionDenied
    } else if errno == EPIPE {
        IoErrorKind::BrokenPipe
    } else if errno == ENOTCONN {
        IoErrorKind::NotConnected
    } else if errno == ECONNABORTED {
        IoErrorKind::ConnectionAborted
    } else if errno == EADDRNOTAVAIL || errno == EADDRINUSE {
        IoErrorKind::ConnectionRefused
    } else if errno == EAGAIN {
        IoErrorKind::ResourceUnavailable
    } else {
        IoErrorKind::OtherIoError
    };
    IoError { kind }
}

} // verus!
