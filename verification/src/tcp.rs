//! TCP client and server sockets driven by readiness notifications.
//!
//! The raw socket layer classifies system-call outcomes (byte counts and
//! error numbers enter as plain values) and tracks the connection state.
//! The reactor-integrated sockets turn readiness bits into semantic
//! events.  Descriptor creation, `connect`, `send`, `recv`, `accept` and the
//! probes (`getsockopt`, `FIONREAD`) are performed by the runtime, which
//! feeds their results in and carries out the returned actions.

use vstd::prelude::*;
use crate::IoResult;
use crate::events::{Event, EventKind, EventSource, EventSourceInfo};
use crate::eventqueue::EventQueue;
use crate::eventqueueimpl::{events_cancelled_for, EventQueueImpl};
use crate::helpers::{IoError, IoErrorKind, error_kind_of, translate_error, EAGAIN, EINPROGRESS};
use crate::syscalls::{EPOLLERR, EPOLLHUP, EPOLLIN, EPOLLOUT};

verus! {

/// Address family for IPv4.
pub const AF_INET: u16 = 2;

/// Address family for IPv6.
pub const AF_INET6: u16 = 10;

/// A numeric host address.
#[derive(Clone, Copy, PartialEq, Eq, Structural, Debug)]
pub enum IpAddr {
    Ipv4Addr(u8, u8, u8, u8),
    Ipv6Addr(u16, u16, u16, u16, u16, u16, u16, u16),
}

/// A numeric host address together with a port.
#[derive(Clone, Copy, PartialEq, Eq, Structural, Debug)]
pub struct SocketAddr {
    pub ip: IpAddr,
    pub port: u16,
}

/// A 16-bit value with its bytes swapped into network order.
pub open spec fn htons_spec(u: u16) -> u16 {
    (((u & 0xff) << 8) | (u >> 8)) as u16
}

/// Converts a 16-bit value from host to network byte order.
pub fn htons(u: u16) -> (r: u16)
    ensures
        r == htons_spec(u),
{
    ((u & 0xff) << 8) | (u >> 8)
}

/// An IPv4 address as the kernel stores it: four bytes packed little-end
/// first into one word.
#[derive(Clone, Copy, PartialEq, Eq, Structural, Debug)]
#[allow(non_camel_case_types)]
pub struct in_addr {
    pub s_addr: u32,
}

/// An IPv6 address as the kernel stores it: eight network-order segments.
#[derive(Clone, Copy, Debug)]
#[allow(non_camel_case_types)]
pub struct in6_addr {
    pub s6_addr: [u16; 8],
}

/// A host address in the kernel's representation.
#[derive(Clone, Copy, Debug)]
pub enum InAddr {
    InAddr(in_addr),
    In6Addr(in6_addr),
}

/// The packed word for an IPv4 address `a.b.c.d`.
pub open spec fn ipv4_s_addr(a: u8, b: u8, c: u8, d: u8) -> u32 {
    ((d as u32) << 24) | ((c as u32) << 16) | ((b as u32) << 8) | (a as u32)
}

/// Converts a host address into the kernel's representation.
pub fn ip_to_inaddr(ip: IpAddr) -> (r: InAddr)
    ensures
        ip matches IpAddr::Ipv4Addr(a, b, c, d) ==> r matches InAddr::InAddr(v) && v.s_addr
            == ipv4_s_addr(a, b, c, d),
        ip matches IpAddr::Ipv6Addr(a, b, c, d, e, f, g, h) ==> r matches InAddr::In6Addr(v)
            && v.s6_addr@ =~= seq![
            htons_spec(a),
            htons_spec(b),
            htons_spec(c),
            htons_spec(d),
            htons_spec(e),
            htons_spec(f),
            htons_spec(g),
            htons_spec(h),
        ],
{
    match ip {
        IpAddr::Ipv4Addr(a, b, c, d) => {
            InAddr::InAddr(
                in_addr {
                    s_addr: ((d as u32) << 24) | ((c as u32) << 16) | ((b as u32) << 8) | (
                    a as u32),
                },
            )
        },
        IpAddr::Ipv6Addr(a, b, c, d, e, f, g, h) => {
            InAddr::In6Addr(
                in6_addr {
                    s6_addr: [
                        htons(a),
                        htons(b),
                        htons(c),
                        htons(d),
                        htons(e),
                        htons(f),
                        htons(g),
                        htons(h),
                    ],
                },
            )
        },
    }
}

/// An IPv4 socket address as handed to the kernel.
#[derive(Clone, Copy, PartialEq, Eq, Structural, Debug)]
#[allow(non_camel_case_types)]
pub struct sockaddr_in {
    pub sin_family: u16,
    pub sin_port: u16,
    pub sin_addr: in_addr,
}

/// An IPv6 socket address as handed to the kernel.
#[derive(Clone, Copy, Debug)]
#[allow(non_camel_case_types)]
pub struct sockaddr_in6 {
    pub sin6_family: u16,
    pub sin6_port: u16,
    pub sin6_addr: in6_addr,
}

/// A socket address in the kernel's representation.
#[derive(Clone, Copy, Debug)]
pub enum SockAddrRepr {
    V4(sockaddr_in),
    V6(sockaddr_in6),
}

/// Builds the kernel representation of a socket address: the address
/// family, the port in network order, and the packed host address.
pub fn addr_to_sockaddr(addr: SocketAddr) -> (r: SockAddrRepr)
    ensures
        addr.ip matches IpAddr::Ipv4Addr(a, b, c, d) ==> r matches SockAddrRepr::V4(s) && s
            == (sockaddr_in {
            sin_family: AF_INET,
            sin_port: htons_spec(addr.port),
            sin_addr: in_addr { s_addr: ipv4_s_addr(a, b, c, d) },
        }),
        addr.ip matches IpAddr::Ipv6Addr(a, b, c, d, e, f, g, h) ==> r matches SockAddrRepr::V6(s)
            && s.sin6_family == AF_INET6 && s.sin6_port == htons_spec(addr.port)
            && s.sin6_addr.s6_addr@ =~= seq![
            htons_spec(a),
            htons_spec(b),
            htons_spec(c),
            htons_spec(d),
            htons_spec(e),
            htons_spec(f),
            htons_spec(g),
            htons_spec(h),
        ],
{
    match ip_to_inaddr(addr.ip) {
        InAddr::InAddr(inaddr) => {
            SockAddrRepr::V4(
                sockaddr_in {
                    sin_family: AF_INET,
                    sin_port: htons(addr.port),
                    sin_addr: inaddr,
                },
            )
        },
        InAddr::In6Addr(inaddr) => {
            SockAddrRepr::V6(
                sockaddr_in6 {
                    sin6_family: AF_INET6,
                    sin6_port: htons(addr.port),
                    sin6_addr: inaddr,
                },
            )
        },
    }
}

/// The lifecycle of a TCP socket.  `Closed` is terminal.
#[derive(Clone, Copy, PartialEq, Eq, Structural, Debug)]
pub enum ConnectionState {
    Created,
    Connecting,
    Connected,
    Closed,
}

/// A raw TCP socket: the descriptor, its blocking flag, and the connection
/// state.  Byte counts and error numbers from `send`/`recv` enter `write`
/// and `read` as plain values and are classified here.
#[derive(Debug)]
pub struct RawTcpSocket {
    pub fd: i32,
    pub blocking: bool,
    pub connection_state: ConnectionState,
}

impl RawTcpSocket {
    /// Adopts an already connected descriptor, as `accept` hands them out.
    pub fn from_fd(fd: i32) -> (r: RawTcpSocket)
        ensures
            r == (RawTcpSocket { fd, blocking: true, connection_state: ConnectionState::Connected }),
    {
        RawTcpSocket { fd, blocking: true, connection_state: ConnectionState::Connected }
    }

    /// Updates the blocking flag.  Returns whether the runtime must change
    /// the descriptor's mode; a no-op on a closed socket or when the flag
    /// already matches.
    pub fn set_blocking(&mut self, blocking: bool) -> (changed: bool)
        ensures
            changed == (old(self).connection_state != ConnectionState::Closed && old(self).blocking
                != blocking),
            *final(self) == (RawTcpSocket {
                blocking: if changed {
                    blocking
                } else {
                    old(self).blocking
                },
                ..*old(self)
            }),
    {
        if self.connection_state == ConnectionState::Closed {
            return false;
        }
        if self.blocking == blocking {
            return false;
        }
        self.blocking = blocking;
        true
    }

    /// Closes the socket.  Idempotent: a second close changes nothing.
    /// Returns whether the runtime must close the descriptor.
    pub fn close(&mut self) -> (must_close_fd: bool)
        ensures
            must_close_fd == (old(self).connection_state != ConnectionState::Closed),
            *final(self) == (RawTcpSocket { connection_state: ConnectionState::Closed, ..*old(self) }),
    {
        if self.connection_state == ConnectionState::Closed {
            return false;
        }
        self.connection_state = ConnectionState::Closed;
        true
    }

    /// Classifies the outcome of a `send` of a buffer of length `buf_len`:
    /// `ret` is the byte count or -1, `errno` the error number in the
    /// latter case.  A fatal error (anything but would-block) closes the
    /// socket.  The second component tells the runtime to close the
    /// descriptor.
    pub fn write(&mut self, buf_len: usize, ret: isize, errno: i32) -> (r: (
        IoResult<usize>,
        bool,
    ))
        ensures
            write_post(*old(self), *final(self), buf_len, ret, errno, r.0, r.1),
    {
        if self.connection_state != ConnectionState::Connected {
            return (Err(IoError { kind: IoErrorKind::Closed }), false);
        }
        if buf_len == 0 {
            return (Ok(0), false);
        }
        if ret < 0 {
            let fatal = errno != EAGAIN;
            let mut must_close = false;
            if fatal {
                must_close = self.close();
            }
            (Err(translate_error(errno)), must_close)
        } else {
            (Ok(ret as usize), false)
        }
    }

    /// Classifies the outcome of a `recv` into a buffer of length
    /// `buf_len`.  A zero return means the peer closed the stream: the
    /// socket is closed and end-of-file reported.  A fatal error closes the
    /// socket.  The second component tells the runtime to close the
    /// descriptor.
    pub fn read(&mut self, buf_len: usize, ret: isize, errno: i32) -> (r: (IoResult<usize>, bool))
        ensures
            read_post(*old(self), *final(self), buf_len, ret, errno, r.0, r.1),
    {
        if self.connection_state != ConnectionState::Connected {
            return (Err(IoError { kind: IoErrorKind::Closed }), false);
        }
        if buf_len == 0 {
            return (Ok(0), false);
        }
        if ret == 0 {
            let must_close = self.close();
            (Err(IoError { kind: IoErrorKind::EndOfFile }), must_close)
        } else if ret < 0 {
            let fatal = errno != EAGAIN;
            let mut must_close = false;
            if fatal {
                must_close = self.close();
            }
            (Err(translate_error(errno)), must_close)
        } else {
            (Ok(ret as usize), false)
        }
    }
}

/// What `RawTcpSocket::write` does with a `send` outcome.
pub open spec fn write_post(
    pre: RawTcpSocket,
    post: RawTcpSocket,
    buf_len: usize,
    ret: isize,
    errno: i32,
    r: IoResult<usize>,
    must_close_fd: bool,
) -> bool {
    if pre.connection_state != ConnectionState::Connected {
        post == pre && r == Err::<usize, IoError>(IoError { kind: IoErrorKind::Closed })
            && !must_close_fd
    } else if buf_len == 0 {
        post == pre && r == Ok::<usize, IoError>(0) && !must_close_fd
    } else if ret >= 0 {
        post == pre && r == Ok::<usize, IoError>(ret as usize) && !must_close_fd
    } else if errno == EAGAIN {
        post == pre && r == Err::<usize, IoError>(IoError { kind: error_kind_of(errno) })
            && !must_close_fd
    } else {
        &&& post == (RawTcpSocket { connection_state: ConnectionState::Closed, ..pre })
        &&& r == Err::<usize, IoError>(IoError { kind: error_kind_of(errno) })
        &&& must_close_fd
    }
}

/// What `RawTcpSocket::read` does with a `recv` outcome.
pub open spec fn read_post(
    pre: RawTcpSocket,
    post: RawTcpSocket,
    buf_len: usize,
    ret: isize,
    errno: i32,
    r: IoResult<usize>,
    must_close_fd: bool,
) -> bool {
    if pre.connection_state != ConnectionState::Connected {
        post == pre && r == Err::<usize, IoError>(IoError { kind: IoErrorKind::Closed })
            && !must_close_fd
    } else if buf_len == 0 {
        post == pre && r == Ok::<usize, IoError>(0) && !must_close_fd
    } else if ret == 0 {
        &&& post == (RawTcpSocket { connection_state: ConnectionState::Closed, ..pre })
        &&& r == Err::<usize, IoError>(IoError { kind: IoErrorKind::EndOfFile })
        &&& must_close_fd
    } else if ret > 0 {
        post == pre && r == Ok::<usize, IoError>(ret as usize) && !must_close_fd
    } else if errno == EAGAIN {
        post == pre && r == Err::<usize, IoError>(IoError { kind: error_kind_of(errno) })
            && !must_close_fd
    } else {
        &&& post == (RawTcpSocket { connection_state: ConnectionState::Closed, ..pre })
        &&& r == Err::<usize, IoError>(IoError { kind: error_kind_of(errno) })
        &&& must_close_fd
    }
}

/// A `ConnectedEvent` carrying the given source identity.
pub open spec fn connected_event(source: EventSourceInfo) -> Event {
    Event { event_type: EventKind::ConnectedEvent, is_valid: true, source }
}

/// A `StreamClosedEvent` carrying the given source identity.
pub open spec fn stream_closed_event(source: EventSourceInfo) -> Event {
    Event { event_type: EventKind::StreamClosedEvent, is_valid: true, source }
}

/// An `IoErrorEvent` for the given error number, carrying the given source
/// identity.
pub open spec fn io_error_event(source: EventSourceInfo, errno: i32) -> Event {
    Event {
        event_type: EventKind::IoErrorEvent(IoError { kind: error_kind_of(errno) }),
        is_valid: true,
        source,
    }
}

/// A `DataAvailableEvent` for `n` readable bytes, carrying the given source
/// identity.
pub open spec fn data_available_event(source: EventSourceInfo, n: usize) -> Event {
    Event { event_type: EventKind::DataAvailableEvent(n), is_valid: true, source }
}

/// The result of the probe the runtime performed before handing a readiness
/// notification to a client socket.  Which probe is due follows from the
/// readiness bits and the connection state.
#[derive(Clone, Copy, PartialEq, Eq, Structural, Debug)]
pub enum SocketProbe {
    /// An error condition was signalled; the runtime extracted the pending
    /// error number.
    ErrorQuery { errno: i32 },
    /// The socket is readable; the runtime asked how many bytes are
    /// waiting (zero also on a failed query).
    ReadableQuery { nread: usize },
    /// A pending connect resolved; the runtime read the pending socket
    /// error: `ret` and `errno` from the query itself, `so_error` the
    /// queried value.
    ConnectQuery { ret: i32, so_error: i32, errno: i32 },
    /// No probe was needed.
    NoQuery,
}

impl SocketProbe {
    /// The error number an `ErrorQuery` extracted.
    pub open spec fn queried_errno(self) -> i32 {
        match self {
            SocketProbe::ErrorQuery { errno } => errno,
            _ => 0,
        }
    }

    /// The byte count a `ReadableQuery` extracted.
    pub open spec fn queried_nread(self) -> usize {
        match self {
            SocketProbe::ReadableQuery { nread } => nread,
            _ => 0,
        }
    }

    /// Whether a `ConnectQuery` found the pending connect successful.
    pub open spec fn connect_success(self) -> bool {
        match self {
            SocketProbe::ConnectQuery { ret, so_error, errno } => ret != -1 && so_error == 0,
            _ => false,
        }
    }

    /// The error number a failed `ConnectQuery` reports: the queried socket
    /// error when the query itself succeeded, else the query's own error.
    pub open spec fn connect_ecode(self) -> i32 {
        match self {
            SocketProbe::ConnectQuery { ret, so_error, errno } => if ret != -1 {
                so_error
            } else {
                errno
            },
            _ => 0,
        }
    }
}

/// What the runtime must do after a client socket handled a readiness
/// notification.
#[derive(Clone, Copy, PartialEq, Eq, Structural, Debug)]
pub struct SocketActions {
    /// Close the descriptor.
    pub close_fd: bool,
    /// Switch the descriptor to blocking mode.
    pub make_blocking: bool,
    /// Change the registered epoll interest to these bits.
    pub interest: Option<u32>,
}

impl SocketActions {
    /// No action owed.
    pub open spec fn none_spec() -> SocketActions {
        SocketActions { close_fd: false, make_blocking: false, interest: None }
    }

    /// No action owed.
    pub fn none() -> (r: SocketActions)
        ensures
            r == Self::none_spec(),
    {
        SocketActions { close_fd: false, make_blocking: false, interest: None }
    }
}

/// A TCP client socket bound to a reactor.  Readiness is turned into
/// `ConnectedEvent`, `DataAvailableEvent`, `StreamClosedEvent` and
/// `IoErrorEvent`s; reads are gated by the announced byte count so that
/// they never block.
#[derive(Debug)]
pub struct TcpSocket {
    /// The underlying raw socket.
    pub socket: RawTcpSocket,
    /// The identity this socket stamps on its events.
    pub event_source_id: EventSourceInfo,
    /// How many bytes the last readiness notification announced and the
    /// application has not read yet.
    pub available_bytes: usize,
}

impl EventSource for TcpSocket {
    open spec fn source_id(&self) -> u64 {
        self.event_source_id.id
    }

    fn get_event_source_info(&self) -> (r: &EventSourceInfo) {
        &self.event_source_id
    }
}

/// What a successful `TcpSocket::connect` hands back: the socket and the
/// actions the runtime owes (an epoll registration, and possibly switching
/// the descriptor to blocking mode).
#[derive(Debug)]
pub struct ConnectStart {
    pub socket: TcpSocket,
    pub interest: u32,
    pub make_blocking: bool,
}

impl TcpSocket {
    /// Wraps a raw socket and binds it to the reactor.  Returns the epoll
    /// interest the runtime must register: reading when connected, writing
    /// while a connect is pending, nothing on a closed socket.
    pub fn from_raw_tcp_socket(raw_tcp_socket: RawTcpSocket, event_queue: &mut EventQueue) -> (r:
        (TcpSocket, Option<u32>))
        requires
            old(event_queue).queue.next_source_id < u64::MAX,
        ensures
            r.0.socket == raw_tcp_socket,
            r.0.available_bytes == 0,
            r.0.event_source_id.id == old(event_queue).queue.next_source_id,
            r.1 == (if raw_tcp_socket.connection_state == ConnectionState::Closed {
                Option::<u32>::None
            } else if raw_tcp_socket.connection_state == ConnectionState::Connected {
                Some(EPOLLIN)
            } else {
                Some(EPOLLOUT)
            }),
            final(event_queue).queue.events() == old(event_queue).queue.events(),
            final(event_queue).queue.next_source_id == old(event_queue).queue.next_source_id + 1,
    {
        let event_source_id = event_queue.queue.new_source_info();
        let interest = if raw_tcp_socket.connection_state == ConnectionState::Closed {
            None
        } else if raw_tcp_socket.connection_state == ConnectionState::Connected {
            Some(EPOLLIN)
        } else {
            Some(EPOLLOUT)
        };
        (TcpSocket { socket: raw_tcp_socket, event_source_id, available_bytes: 0 }, interest)
    }

    /// Interprets the outcome of a non-blocking `connect` on the fresh
    /// descriptor `fd`.  Synchronous success yields a connected socket, an
    /// immediate `ConnectedEvent`, and the descriptor is switched to
    /// blocking; a pending connect yields a socket waiting for writability;
    /// any other error surfaces immediately.
    pub fn connect(event_queue: &mut EventQueue, fd: i32, ret: isize, errno: i32) -> (r: IoResult<
        ConnectStart,
    >)
        requires
            old(event_queue).queue.next_source_id < u64::MAX,
        ensures
            ret == -1 && errno != EINPROGRESS ==> r == Err::<ConnectStart, IoError>(
                IoError { kind: error_kind_of(errno) },
            ) && *final(event_queue) == *old(event_queue),
            ret == -1 && errno == EINPROGRESS ==> (r matches Ok(c) && {
                &&& c.socket.socket == (RawTcpSocket {
                    fd,
                    blocking: false,
                    connection_state: ConnectionState::Connecting,
                })
                &&& c.socket.available_bytes == 0
                &&& c.socket.event_source_id.id == old(event_queue).queue.next_source_id
                &&& c.interest == EPOLLOUT
                &&& !c.make_blocking
                &&& final(event_queue).queue.events() == old(event_queue).queue.events()
                &&& final(event_queue).queue.next_source_id == old(
                    event_queue,
                ).queue.next_source_id + 1
            }),
            ret != -1 ==> (r matches Ok(c) && {
                &&& c.socket.socket == (RawTcpSocket {
                    fd,
                    blocking: true,
                    connection_state: ConnectionState::Connected,
                })
                &&& c.socket.available_bytes == 0
                &&& c.socket.event_source_id.id == old(event_queue).queue.next_source_id
                &&& c.interest == EPOLLIN
                &&& c.make_blocking
                &&& final(event_queue).queue.events() == old(event_queue).queue.events().push(
                    connected_event(c.socket.event_source_id),
                )
                &&& final(event_queue).queue.next_source_id == old(
                    event_queue,
                ).queue.next_source_id + 1
            }),
    {
        let mut rawsock = RawTcpSocket {
            fd,
            blocking: false,
            connection_state: ConnectionState::Created,
        };
        if ret == -1 {
            if errno != EINPROGRESS {
                Err(translate_error(errno))
            } else {
                rawsock.connection_state = ConnectionState::Connecting;
                let (socket, _) = TcpSocket::from_raw_tcp_socket(rawsock, event_queue);
                Ok(ConnectStart { socket, interest: EPOLLOUT, make_blocking: false })
            }
        } else {
            rawsock.connection_state = ConnectionState::Connected;
            let _ = rawsock.set_blocking(true);
            let (socket, _) = TcpSocket::from_raw_tcp_socket(rawsock, event_queue);
            let evt = Event {
                event_type: EventKind::ConnectedEvent,
                is_valid: true,
                source: socket.event_source_id,
            };
            event_queue.queue.push_back_event(evt);
            Ok(ConnectStart { socket, interest: EPOLLIN, make_blocking: true })
        }
    }

    /// Closes the socket: cancels its buffered events, then closes the raw
    /// socket.  Idempotent.  Returns whether the runtime must close the
    /// descriptor.
    pub fn close(&mut self, event_queue: &mut EventQueue) -> (must_close_fd: bool)
        ensures
            must_close_fd == (old(self).socket.connection_state != ConnectionState::Closed),
            *final(self) == (TcpSocket {
                socket: RawTcpSocket {
                    connection_state: ConnectionState::Closed,
                    ..old(self).socket
                },
                ..*old(self)
            }),
            events_cancelled_for(
                old(event_queue).queue.events(),
                final(event_queue).queue.events(),
                old(self).event_source_id.id,
            ),
            final(event_queue).queue.next_source_id == old(event_queue).queue.next_source_id,
    {
        self.remove_pending_events(&mut event_queue.queue);
        self.socket.close()
    }

    /// Hands a `send` outcome on: classifies it as the raw socket does, and
    /// when the failure closed the connection, cancels this socket's
    /// buffered events.  The second component tells the runtime to close
    /// the descriptor.
    pub fn write(&mut self, event_queue: &mut EventQueue, buf_len: usize, ret: isize, errno: i32)
        -> (r: (IoResult<usize>, bool))
        ensures
            write_post(old(self).socket, final(self).socket, buf_len, ret, errno, r.0, r.1),
            final(self).event_source_id == old(self).event_source_id,
            final(self).available_bytes == old(self).available_bytes,
            final(self).socket.connection_state == ConnectionState::Closed && old(
                self,
            ).socket.connection_state != ConnectionState::Closed ==> events_cancelled_for(
                old(event_queue).queue.events(),
                final(event_queue).queue.events(),
                old(self).event_source_id.id,
            ),
            !(final(self).socket.connection_state == ConnectionState::Closed && old(
                self,
            ).socket.connection_state != ConnectionState::Closed) ==> *final(event_queue) == *old(
                event_queue,
            ),
            final(event_queue).queue.next_source_id == old(event_queue).queue.next_source_id,
    {
        let was_connected = self.socket.connection_state == ConnectionState::Connected;
        let (res, must_close_fd) = self.socket.write(buf_len, ret, errno);
        if was_connected && self.socket.connection_state == ConnectionState::Closed {
            self.remove_pending_events(&mut event_queue.queue);
        }
        (res, must_close_fd)
    }

    /// Reads through the raw socket, gated by the announced byte count:
    /// while the socket is connected and no bytes are announced, returns
    /// `Ok(0)` without touching the descriptor (the caller must wait for
    /// the next `DataAvailableEvent`).  Otherwise classifies the `recv`
    /// outcome, deducts read bytes from the announced count, and on a
    /// failure that closed the connection cancels this socket's buffered
    /// events.
    pub fn read(&mut self, event_queue: &mut EventQueue, buf_len: usize, ret: isize, errno: i32)
        -> (r: (IoResult<usize>, bool))
        ensures
            old(self).socket.connection_state == ConnectionState::Connected && old(
                self,
            ).available_bytes == 0 ==> r == (Ok::<usize, IoError>(0), false) && *final(self)
                == *old(self) && *final(event_queue) == *old(event_queue),
            !(old(self).socket.connection_state == ConnectionState::Connected && old(
                self,
            ).available_bytes == 0) ==> {
                &&& read_post(old(self).socket, final(self).socket, buf_len, ret, errno, r.0, r.1)
                &&& final(self).event_source_id == old(self).event_source_id
                &&& (r.0 matches Ok(n) ==> final(self).available_bytes == (
                if n <= old(self).available_bytes {
                    (old(self).available_bytes - n) as usize
                } else {
                    0
                }))
                &&& (r.0 is Err ==> final(self).available_bytes == old(self).available_bytes)
                &&& (final(self).socket.connection_state == ConnectionState::Closed && old(
                    self,
                ).socket.connection_state != ConnectionState::Closed ==> events_cancelled_for(
                    old(event_queue).queue.events(),
                    final(event_queue).queue.events(),
                    old(self).event_source_id.id,
                ))
                &&& (!(final(self).socket.connection_state == ConnectionState::Closed && old(
                    self,
                ).socket.connection_state != ConnectionState::Closed) ==> *final(event_queue)
                    == *old(event_queue))
                &&& final(event_queue).queue.next_source_id == old(
                    event_queue,
                ).queue.next_source_id
            },
    {
        if self.socket.connection_state == ConnectionState::Connected && self.available_bytes
            == 0 {
            return (Ok(0), false);
        }
        let was_connected = self.socket.connection_state == ConnectionState::Connected;
        let (res, must_close_fd) = self.socket.read(buf_len, ret, errno);
        match res {
            Ok(read_bytes) => {
                if read_bytes <= self.available_bytes {
                    self.available_bytes = self.available_bytes - read_bytes;
                } else {
                    self.available_bytes = 0;
                }
                (Ok(read_bytes), must_close_fd)
            },
            Err(err) => {
                if was_connected && self.socket.connection_state == ConnectionState::Closed {
                    self.remove_pending_events(&mut event_queue.queue);
                }
                (Err(err), must_close_fd)
            },
        }
    }

    /// Cancels in place every buffered event carrying this socket's
    /// identity.
    pub fn remove_pending_events(&mut self, event_queue: &mut EventQueueImpl)
        ensures
            *final(self) == *old(self),
            events_cancelled_for(
                old(event_queue).events(),
                final(event_queue).events(),
                old(self).event_source_id.id,
            ),
            final(event_queue).next_source_id == old(event_queue).next_source_id,
    {
        event_queue.remove_pending_events(&self.event_source_id);
    }
}

impl TcpSocket {
    /// Handles a readiness notification, the heart of the client state
    /// machine.  An error condition becomes one `IoErrorEvent` and closes
    /// the socket.  A connected socket that is readable announces the
    /// probed byte count as one `DataAvailableEvent`, or — on hang-up or a
    /// zero count — one `StreamClosedEvent` and closes.  A pending connect
    /// that resolves successfully becomes one `ConnectedEvent`, switches
    /// the socket to blocking and its interest to reading; a failed one
    /// becomes one `IoErrorEvent` and closes.
    pub fn process_epoll_events(
        &mut self,
        event_queue: &mut EventQueueImpl,
        epoll_events: u32,
        probe: SocketProbe,
    ) -> (act: SocketActions)
        requires
            epoll_events & EPOLLERR != 0 ==> probe is ErrorQuery,
            epoll_events & EPOLLERR == 0 && old(self).socket.connection_state
                == ConnectionState::Connected && epoll_events & EPOLLHUP == 0 && epoll_events
                & EPOLLIN != 0 ==> probe is ReadableQuery,
            epoll_events & EPOLLERR == 0 && old(self).socket.connection_state
                != ConnectionState::Connected && epoll_events & EPOLLOUT != 0 ==> probe
                is ConnectQuery,
        ensures
            final(self).event_source_id == old(self).event_source_id,
            final(self).socket.fd == old(self).socket.fd,
            final(event_queue).next_source_id == old(event_queue).next_source_id,
            epoll_events & EPOLLERR != 0 ==> {
                &&& final(event_queue).events() == old(event_queue).events().push(
                    io_error_event(old(self).event_source_id, probe.queried_errno()),
                )
                &&& final(self).socket.connection_state == ConnectionState::Closed
                &&& final(self).available_bytes == old(self).available_bytes
                &&& act == (SocketActions {
                    close_fd: old(self).socket.connection_state != ConnectionState::Closed,
                    make_blocking: false,
                    interest: None,
                })
            },
            epoll_events & EPOLLERR == 0 && old(self).socket.connection_state
                == ConnectionState::Connected ==> {
                let announced = if epoll_events & EPOLLHUP != 0 {
                    0usize
                } else {
                    probe.queried_nread()
                };
                if epoll_events & EPOLLIN == 0 && epoll_events & EPOLLHUP == 0 {
                    *final(self) == *old(self) && *final(event_queue) == *old(event_queue) && act
                        == SocketActions::none_spec()
                } else if announced > 0 {
                    &&& final(event_queue).events() == old(event_queue).events().push(
                        data_available_event(old(self).event_source_id, announced),
                    )
                    &&& *final(self) == (TcpSocket {
                        available_bytes: announced,
                        ..*old(self)
                    })
                    &&& act == SocketActions::none_spec()
                } else {
                    &&& final(event_queue).events() == old(event_queue).events().push(
                        stream_closed_event(old(self).event_source_id),
                    )
                    &&& final(self).socket.connection_state == ConnectionState::Closed
                    &&& final(self).available_bytes == 0
                    &&& act == (SocketActions {
                        close_fd: true,
                        make_blocking: false,
                        interest: None,
                    })
                }
            },
            epoll_events & EPOLLERR == 0 && old(self).socket.connection_state
                != ConnectionState::Connected && epoll_events & EPOLLOUT == 0 ==> *final(self)
                == *old(self) && *final(event_queue) == *old(event_queue) && act
                == SocketActions::none_spec(),
            epoll_events & EPOLLERR == 0 && old(self).socket.connection_state
                != ConnectionState::Connected && epoll_events & EPOLLOUT != 0 ==> {
                if probe.connect_success() {
                    &&& final(event_queue).events() == old(event_queue).events().push(
                        connected_event(old(self).event_source_id),
                    )
                    &&& final(self).socket.connection_state == ConnectionState::Connected
                    &&& (old(self).socket.connection_state != ConnectionState::Closed
                        ==> final(self).socket.blocking)
                    &&& final(self).available_bytes == old(self).available_bytes
                    &&& act == (SocketActions {
                        close_fd: false,
                        make_blocking: true,
                        interest: Some(EPOLLIN),
                    })
                } else {
                    &&& final(event_queue).events() == old(event_queue).events().push(
                        io_error_event(old(self).event_source_id, probe.connect_ecode()),
                    )
                    &&& final(self).socket.connection_state == ConnectionState::Closed
                    &&& final(self).available_bytes == old(self).available_bytes
                    &&& act == (SocketActions {
                        close_fd: old(self).socket.connection_state != ConnectionState::Closed,
                        make_blocking: false,
                        interest: None,
                    })
                }
            },
    {
        if epoll_events & EPOLLERR != 0 {
            let errno = match probe {
                SocketProbe::ErrorQuery { errno } => errno,
                _ => 0,
            };
            let e = Event {
                event_type: EventKind::IoErrorEvent(translate_error(errno)),
                is_valid: true,
                source: self.event_source_id,
            };
            let must_close = self.socket.close();
            event_queue.push_back_event(e);
            SocketActions { close_fd: must_close, make_blocking: false, interest: None }
        } else if self.socket.connection_state == ConnectionState::Connected {
            if epoll_events & EPOLLIN != 0 || epoll_events & EPOLLHUP != 0 {
                let announced = if epoll_events & EPOLLHUP == 0 {
                    match probe {
                        SocketProbe::ReadableQuery { nread } => nread,
                        _ => 0,
                    }
                } else {
                    0
                };
                self.available_bytes = announced;
                if announced > 0 {
                    let e = Event {
                        event_type: EventKind::DataAvailableEvent(announced),
                        is_valid: true,
                        source: self.event_source_id,
                    };
                    event_queue.push_back_event(e);
                    SocketActions::none()
                } else {
                    let must_close = self.socket.close();
                    let e = Event {
                        event_type: EventKind::StreamClosedEvent,
                        is_valid: true,
                        source: self.event_source_id,
                    };
                    event_queue.push_back_event(e);
                    SocketActions { close_fd: must_close, make_blocking: false, interest: None }
                }
            } else {
                SocketActions::none()
            }
        } else {
            if epoll_events & EPOLLOUT != 0 {
                let (ret, so_error, errno) = match probe {
                    SocketProbe::ConnectQuery { ret, so_error, errno } => (ret, so_error, errno),
                    _ => (0, 0, 0),
                };
                let success = ret != -1 && so_error == 0;
                if !success {
                    let ecode = if ret != -1 {
                        so_error
                    } else {
                        errno
                    };
                    let e = Event {
                        event_type: EventKind::IoErrorEvent(translate_error(ecode)),
                        is_valid: true,
                        source: self.event_source_id,
                    };
                    let must_close = self.socket.close();
                    event_queue.push_back_event(e);
                    SocketActions { close_fd: must_close, make_blocking: false, interest: None }
                } else {
                    let _ = self.socket.set_blocking(true);
                    self.socket.connection_state = ConnectionState::Connected;
                    let e = Event {
                        event_type: EventKind::ConnectedEvent,
                        is_valid: true,
                        source: self.event_source_id,
                    };
                    event_queue.push_back_event(e);
                    SocketActions {
                        close_fd: false,
                        make_blocking: true,
                        interest: Some(EPOLLIN),
                    }
                }
            } else {
                SocketActions::none()
            }
        }
    }
}

/// A `ClientConnectedEvent` carrying the given source identity.
pub open spec fn client_connected_event(source: EventSourceInfo) -> Event {
    Event { event_type: EventKind::ClientConnectedEvent, is_valid: true, source }
}

/// A raw TCP listener: the descriptor and its state.  `accept` outcomes
/// enter as plain values and are classified here.
#[derive(Debug)]
pub struct RawTcpServerSocket {
    pub fd: i32,
    pub connection_state: ConnectionState,
}

impl RawTcpServerSocket {
    /// Adopts a descriptor that is already bound and listening.
    pub fn from_fd(fd: i32) -> (r: RawTcpServerSocket)
        ensures
            r == (RawTcpServerSocket { fd, connection_state: ConnectionState::Connected }),
    {
        RawTcpServerSocket { fd, connection_state: ConnectionState::Connected }
    }

    /// Closes the listener.  Idempotent.  Returns whether the runtime must
    /// close the descriptor.
    pub fn close(&mut self) -> (must_close_fd: bool)
        ensures
            must_close_fd == (old(self).connection_state != ConnectionState::Closed),
            *final(self) == (RawTcpServerSocket {
                connection_state: ConnectionState::Closed,
                ..*old(self)
            }),
    {
        if self.connection_state == ConnectionState::Closed {
            return false;
        }
        self.connection_state = ConnectionState::Closed;
        true
    }

    /// Classifies the outcome of an `accept`: `ret` is the connected
    /// descriptor or -1, `errno` the error number in the latter case.  A
    /// fatal error (anything but would-block) closes the listener.  The
    /// second component tells the runtime to close the listening
    /// descriptor.
    pub fn accept(&mut self, ret: i32, errno: i32) -> (r: (IoResult<RawTcpSocket>, bool))
        ensures
            accept_post(*old(self), *final(self), ret, errno, r.0, r.1),
    {
        if self.connection_state != ConnectionState::Connected {
            return (Err(IoError { kind: IoErrorKind::Closed }), false);
        }
        if ret < 0 {
            let fatal = errno != EAGAIN;
            let mut must_close = false;
            if fatal {
                must_close = self.close();
            }
            (Err(translate_error(errno)), must_close)
        } else {
            (Ok(RawTcpSocket::from_fd(ret)), false)
        }
    }
}

/// What `RawTcpServerSocket::accept` does with an `accept` outcome.
pub open spec fn accept_post(
    pre: RawTcpServerSocket,
    post: RawTcpServerSocket,
    ret: i32,
    errno: i32,
    r: IoResult<RawTcpSocket>,
    must_close_fd: bool,
) -> bool {
    if pre.connection_state != ConnectionState::Connected {
        post == pre && r == Err::<RawTcpSocket, IoError>(IoError { kind: IoErrorKind::Closed })
            && !must_close_fd
    } else if ret >= 0 {
        &&& post == pre
        &&& r == Ok::<RawTcpSocket, IoError>(
            RawTcpSocket { fd: ret, blocking: true, connection_state: ConnectionState::Connected },
        )
        &&& !must_close_fd
    } else if errno == EAGAIN {
        post == pre && r == Err::<RawTcpSocket, IoError>(IoError { kind: error_kind_of(errno) })
            && !must_close_fd
    } else {
        &&& post == (RawTcpServerSocket { connection_state: ConnectionState::Closed, ..pre })
        &&& r == Err::<RawTcpSocket, IoError>(IoError { kind: error_kind_of(errno) })
        &&& must_close_fd
    }
}

/// A TCP listener bound to a reactor.  Readiness becomes one
/// `ClientConnectedEvent` per wake; the application drains pending
/// connections with `accept` until it reports that none is available.
#[derive(Debug)]
pub struct TcpServerSocket {
    /// The underlying raw listener.
    pub socket: RawTcpServerSocket,
    /// The identity this listener stamps on its events.
    pub event_source_id: EventSourceInfo,
    /// Whether a readiness notification has announced a pending connection
    /// that has not been accepted yet.
    pub client_available: bool,
}

impl EventSource for TcpServerSocket {
    open spec fn source_id(&self) -> u64 {
        self.event_source_id.id
    }

    fn get_event_source_info(&self) -> (r: &EventSourceInfo) {
        &self.event_source_id
    }
}

impl TcpServerSocket {
    /// Wraps a raw listener and binds it to the reactor.  Returns the
    /// epoll interest the runtime must register, unless the listener is
    /// already closed.
    pub fn from_raw_server_socket(
        raw_server_socket: RawTcpServerSocket,
        event_queue: &mut EventQueue,
    ) -> (r: (TcpServerSocket, Option<u32>))
        requires
            old(event_queue).queue.next_source_id < u64::MAX,
        ensures
            r.0.socket == raw_server_socket,
            !r.0.client_available,
            r.0.event_source_id.id == old(event_queue).queue.next_source_id,
            r.1 == (if raw_server_socket.connection_state == ConnectionState::Closed {
                Option::<u32>::None
            } else {
                Some(EPOLLIN)
            }),
            final(event_queue).queue.events() == old(event_queue).queue.events(),
            final(event_queue).queue.next_source_id == old(event_queue).queue.next_source_id + 1,
    {
        let event_source_id = event_queue.queue.new_source_info();
        let interest = if raw_server_socket.connection_state == ConnectionState::Closed {
            None
        } else {
            Some(EPOLLIN)
        };
        (
            TcpServerSocket { socket: raw_server_socket, event_source_id, client_available: false },
            interest,
        )
    }

    /// Binds a listener to the reactor from the outcome of the bind-and-
    /// listen sequence the runtime performed: a raw listener on success,
    /// the error otherwise.
    pub fn bind(raw_result: IoResult<RawTcpServerSocket>, event_queue: &mut EventQueue) -> (r:
        IoResult<(TcpServerSocket, Option<u32>)>)
        requires
            old(event_queue).queue.next_source_id < u64::MAX,
        ensures
            raw_result matches Err(e) ==> r == Err::<(TcpServerSocket, Option<u32>), IoError>(e)
                && *final(event_queue) == *old(event_queue),
            raw_result matches Ok(raw) ==> (r matches Ok(p) && {
                &&& p.0.socket == raw
                &&& !p.0.client_available
                &&& p.0.event_source_id.id == old(event_queue).queue.next_source_id
                &&& p.1 == (if raw.connection_state == ConnectionState::Closed {
                    Option::<u32>::None
                } else {
                    Some(EPOLLIN)
                })
                &&& final(event_queue).queue.events() == old(event_queue).queue.events()
                &&& final(event_queue).queue.next_source_id == old(
                    event_queue,
                ).queue.next_source_id + 1
            }),
    {
        match raw_result {
            Ok(sock) => Ok(TcpServerSocket::from_raw_server_socket(sock, event_queue)),
            Err(err) => Err(err),
        }
    }

    /// Closes the listener: closes the raw socket, then cancels its
    /// buffered events.  Idempotent.  Returns whether the runtime must
    /// close the descriptor.
    pub fn close(&mut self, event_queue: &mut EventQueue) -> (must_close_fd: bool)
        ensures
            must_close_fd == (old(self).socket.connection_state != ConnectionState::Closed),
            *final(self) == (TcpServerSocket {
                socket: RawTcpServerSocket {
                    connection_state: ConnectionState::Closed,
                    ..old(self).socket
                },
                ..*old(self)
            }),
            events_cancelled_for(
                old(event_queue).queue.events(),
                final(event_queue).queue.events(),
                old(self).event_source_id.id,
            ),
            final(event_queue).queue.next_source_id == old(event_queue).queue.next_source_id,
    {
        let must_close_fd = self.socket.close();
        self.remove_pending_events(&mut event_queue.queue);
        must_close_fd
    }

    /// Accepts a pending connection.  While the listener is open but no
    /// connection has been announced, reports that none is available
    /// without touching the descriptor (`ret` and `errno` are then unused);
    /// the runtime performs the `accept` call only when `client_available`
    /// is set or the listener is closed.  A successful accept clears the
    /// announcement; a failure that closed the listener cancels its
    /// buffered events.
    pub fn accept(&mut self, event_queue: &mut EventQueue, ret: i32, errno: i32) -> (r: (
        IoResult<RawTcpSocket>,
        bool,
    ))
        ensures
            old(self).socket.connection_state == ConnectionState::Connected && !old(
                self,
            ).client_available ==> r == (
                Err::<RawTcpSocket, IoError>(IoError { kind: IoErrorKind::ResourceUnavailable }),
                false,
            ) && *final(self) == *old(self) && *final(event_queue) == *old(event_queue),
            !(old(self).socket.connection_state == ConnectionState::Connected && !old(
                self,
            ).client_available) ==> {
                &&& accept_post(old(self).socket, final(self).socket, ret, errno, r.0, r.1)
                &&& final(self).event_source_id == old(self).event_source_id
                &&& (r.0 is Ok ==> !final(self).client_available)
                &&& (r.0 is Err ==> final(self).client_available == old(self).client_available)
                &&& (final(self).socket.connection_state == ConnectionState::Closed && old(
                    self,
                ).socket.connection_state != ConnectionState::Closed ==> events_cancelled_for(
                    old(event_queue).queue.events(),
                    final(event_queue).queue.events(),
                    old(self).event_source_id.id,
                ))
                &&& (!(final(self).socket.connection_state == ConnectionState::Closed && old(
                    self,
                ).socket.connection_state != ConnectionState::Closed) ==> *final(event_queue)
                    == *old(event_queue))
                &&& final(event_queue).queue.next_source_id == old(
                    event_queue,
                ).queue.next_source_id
            },
    {
        if self.socket.connection_state == ConnectionState::Connected && !self.client_available {
            return (Err(IoError { kind: IoErrorKind::ResourceUnavailable }), false);
        }
        let was_connected = self.socket.connection_state == ConnectionState::Connected;
        let (res, must_close_fd) = self.socket.accept(ret, errno);
        match res {
            Ok(socket) => {
                self.client_available = false;
                (Ok(socket), must_close_fd)
            },
            Err(err) => {
                if was_connected && self.socket.connection_state == ConnectionState::Closed {
                    self.remove_pending_events(&mut event_queue.queue);
                }
                (Err(err), must_close_fd)
            },
        }
    }

    /// Handles a readiness notification.  An error condition becomes one
    /// `IoErrorEvent` (from the error number the runtime extracted) and
    /// closes the listener; readability announces a pending connection as
    /// one `ClientConnectedEvent`.  Returns whether the runtime must close
    /// the descriptor.
    pub fn process_epoll_events(
        &mut self,
        event_queue: &mut EventQueueImpl,
        epoll_events: u32,
        errno: i32,
    ) -> (must_close_fd: bool)
        ensures
            final(self).event_source_id == old(self).event_source_id,
            final(self).socket.fd == old(self).socket.fd,
            final(event_queue).next_source_id == old(event_queue).next_source_id,
            epoll_events & EPOLLERR != 0 ==> {
                &&& final(event_queue).events() == old(event_queue).events().push(
                    io_error_event(old(self).event_source_id, errno),
                )
                &&& final(self).socket.connection_state == ConnectionState::Closed
                &&& final(self).client_available == old(self).client_available
                &&& must_close_fd == (old(self).socket.connection_state
                    != ConnectionState::Closed)
            },
            epoll_events & EPOLLERR == 0 && epoll_events & EPOLLIN != 0 ==> {
                &&& final(event_queue).events() == old(event_queue).events().push(
                    client_connected_event(old(self).event_source_id),
                )
                &&& *final(self) == (TcpServerSocket { client_available: true, ..*old(self) })
                &&& !must_close_fd
            },
            epoll_events & EPOLLERR == 0 && epoll_events & EPOLLIN == 0 ==> *final(self) == *old(
                self,
            ) && *final(event_queue) == *old(event_queue) && !must_close_fd,
    {
        if epoll_events & EPOLLERR != 0 {
            let e = Event {
                event_type: EventKind::IoErrorEvent(translate_error(errno)),
                is_valid: true,
                source: self.event_source_id,
            };
            let must_close_fd = self.socket.close();
            event_queue.push_back_event(e);
            must_close_fd
        } else if epoll_events & EPOLLIN != 0 {
            self.client_available = true;
            let e = Event {
                event_type: EventKind::ClientConnectedEvent,
                is_valid: true,
                source: self.event_source_id,
            };
            event_queue.push_back_event(e);
            false
        } else {
            false
        }
    }

    /// Cancels in place every buffered event carrying this listener's
    /// identity.
    pub fn remove_pending_events(&mut self, event_queue: &mut EventQueueImpl)
        ensures
            *final(self) == *old(self),
            events_cancelled_for(
                old(event_queue).events(),
                final(event_queue).events(),
                old(self).event_source_id.id,
            ),
            final(event_queue).next_source_id == old(event_queue).next_source_id,
    {
        event_queue.remove_pending_events(&self.event_source_id);
    }
}

} // verus!
