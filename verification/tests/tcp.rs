use revbio::events::EventKind;
use revbio::eventqueue::EventQueue;
use revbio::helpers::{IoErrorKind, EAGAIN, ECONNREFUSED, EINPROGRESS, EPIPE};
use revbio::syscalls::{EPOLLERR, EPOLLHUP, EPOLLIN, EPOLLOUT};
use revbio::tcp::{
    addr_to_sockaddr, htons, ip_to_inaddr, ConnectionState, InAddr, IpAddr, RawTcpServerSocket,
    RawTcpSocket, SockAddrRepr, SocketAddr, SocketProbe, TcpServerSocket, TcpSocket, AF_INET,
    AF_INET6,
};

#[test]
fn htons_swaps_bytes() {
    assert_eq!(htons(0x1234), 0x3412);
    assert_eq!(htons(9), 0x0900);
    assert_eq!(htons(0), 0);
    assert_eq!(htons(0xffff), 0xffff);
}

#[test]
fn ipv4_addresses_pack_little_end_first() {
    match ip_to_inaddr(IpAddr::Ipv4Addr(127, 0, 0, 1)) {
        InAddr::InAddr(v) => assert_eq!(v.s_addr, 0x0100_007f),
        InAddr::In6Addr(_) => panic!("wrong family"),
    }
}

#[test]
fn ipv6_segments_are_swapped_to_network_order() {
    match ip_to_inaddr(IpAddr::Ipv6Addr(0x2001, 0xdb8, 0, 0, 0, 0, 0, 1)) {
        InAddr::In6Addr(v) => {
            assert_eq!(v.s6_addr, [0x0120, 0xb80d, 0, 0, 0, 0, 0, 0x0100]);
        }
        InAddr::InAddr(_) => panic!("wrong family"),
    }
}

#[test]
fn sockaddr_carries_family_port_and_address() {
    let addr = SocketAddr { ip: IpAddr::Ipv4Addr(127, 0, 0, 1), port: 7000 };
    match addr_to_sockaddr(addr) {
        SockAddrRepr::V4(s) => {
            assert_eq!(s.sin_family, AF_INET);
            assert_eq!(s.sin_port, htons(7000));
            assert_eq!(s.sin_addr.s_addr, 0x0100_007f);
        }
        SockAddrRepr::V6(_) => panic!("wrong family"),
    }
    let addr6 = SocketAddr { ip: IpAddr::Ipv6Addr(0, 0, 0, 0, 0, 0, 0, 1), port: 80 };
    match addr_to_sockaddr(addr6) {
        SockAddrRepr::V6(s) => {
            assert_eq!(s.sin6_family, AF_INET6);
            assert_eq!(s.sin6_port, htons(80));
            assert_eq!(s.sin6_addr.s6_addr, [0, 0, 0, 0, 0, 0, 0, 0x0100]);
        }
        SockAddrRepr::V4(_) => panic!("wrong family"),
    }
}

#[test]
fn raw_socket_close_is_idempotent() {
    let mut s = RawTcpSocket::from_fd(4);
    assert_eq!(s.connection_state, ConnectionState::Connected);
    assert!(s.close());
    assert_eq!(s.connection_state, ConnectionState::Closed);
    assert!(!s.close());
    assert_eq!(s.connection_state, ConnectionState::Closed);
}

#[test]
fn raw_write_classifies_outcomes() {
    let mut s = RawTcpSocket::from_fd(4);
    let (r, close_fd) = s.write(5, 5, 0);
    assert_eq!(r.unwrap(), 5);
    assert!(!close_fd);

    let (r, close_fd) = s.write(0, 0, 0);
    assert_eq!(r.unwrap(), 0);
    assert!(!close_fd);

    let (r, close_fd) = s.write(5, -1, EAGAIN);
    assert_eq!(r.unwrap_err().kind, IoErrorKind::ResourceUnavailable);
    assert!(!close_fd);
    assert_eq!(s.connection_state, ConnectionState::Connected);

    let (r, close_fd) = s.write(5, -1, EPIPE);
    assert_eq!(r.unwrap_err().kind, IoErrorKind::BrokenPipe);
    assert!(close_fd);
    assert_eq!(s.connection_state, ConnectionState::Closed);

    let (r, close_fd) = s.write(5, 5, 0);
    assert_eq!(r.unwrap_err().kind, IoErrorKind::Closed);
    assert!(!close_fd);
}

#[test]
fn raw_read_reports_end_of_file() {
    let mut s = RawTcpSocket::from_fd(4);
    let (r, close_fd) = s.read(8, 3, 0);
    assert_eq!(r.unwrap(), 3);
    assert!(!close_fd);

    let (r, close_fd) = s.read(8, 0, 0);
    assert_eq!(r.unwrap_err().kind, IoErrorKind::EndOfFile);
    assert!(close_fd);
    assert_eq!(s.connection_state, ConnectionState::Closed);
}

#[test]
fn echoless_connect_sees_connected_then_stream_closed() {
    let mut q = EventQueue::new();
    // connect(127.0.0.1:9) against a listener that accepts then closes:
    // the connect returns with the in-progress error.
    let start = TcpSocket::connect(&mut q, 7, -1, EINPROGRESS).unwrap();
    let mut sock = start.socket;
    assert_eq!(start.interest, EPOLLOUT);
    assert!(!start.make_blocking);
    assert_eq!(sock.socket.connection_state, ConnectionState::Connecting);
    assert!(q.next_event().is_none());

    // Writability resolves the connect; the pending error is clean.
    let act = sock.process_epoll_events(
        &mut q.queue,
        EPOLLOUT,
        SocketProbe::ConnectQuery { ret: 0, so_error: 0, errno: 0 },
    );
    assert!(act.make_blocking);
    assert_eq!(act.interest, Some(EPOLLIN));
    assert!(!act.close_fd);
    assert_eq!(sock.socket.connection_state, ConnectionState::Connected);

    // The peer closes; readability probes zero pending bytes.
    let act = sock.process_epoll_events(
        &mut q.queue,
        EPOLLIN | EPOLLHUP,
        SocketProbe::NoQuery,
    );
    assert!(act.close_fd);
    assert_eq!(sock.socket.connection_state, ConnectionState::Closed);

    let mut kinds = Vec::new();
    while let Some(e) = q.next_event() {
        assert!(e.source.id == sock.event_source_id.id);
        kinds.push(e.event_type);
    }
    assert_eq!(kinds, vec![EventKind::ConnectedEvent, EventKind::StreamClosedEvent]);
}

#[test]
fn refused_connect_reports_a_single_connection_refused() {
    let mut q = EventQueue::new();
    // connect(127.0.0.1:1) with nothing listening.
    let start = TcpSocket::connect(&mut q, 7, -1, EINPROGRESS).unwrap();
    let mut sock = start.socket;

    let act = sock.process_epoll_events(
        &mut q.queue,
        EPOLLOUT | EPOLLERR | EPOLLHUP,
        SocketProbe::ErrorQuery { errno: ECONNREFUSED },
    );
    assert!(act.close_fd);
    assert_eq!(sock.socket.connection_state, ConnectionState::Closed);

    let e = q.next_event().unwrap();
    match e.event_type {
        EventKind::IoErrorEvent(err) => assert_eq!(err.kind, IoErrorKind::ConnectionRefused),
        other => panic!("unexpected event {:?}", other),
    }
    assert!(q.next_event().is_none());
}

#[test]
fn synchronous_connect_buffers_a_connected_event() {
    let mut q = EventQueue::new();
    let start = TcpSocket::connect(&mut q, 7, 0, 0).unwrap();
    assert_eq!(start.interest, EPOLLIN);
    assert!(start.make_blocking);
    assert!(start.socket.socket.blocking);
    assert_eq!(start.socket.socket.connection_state, ConnectionState::Connected);
    let e = q.next_event().unwrap();
    assert_eq!(e.event_type, EventKind::ConnectedEvent);
    assert!(e.source.id == start.socket.event_source_id.id);
}

#[test]
fn failed_connect_surfaces_immediately() {
    let mut q = EventQueue::new();
    let err = TcpSocket::connect(&mut q, 7, -1, ECONNREFUSED).unwrap_err();
    assert_eq!(err.kind, IoErrorKind::ConnectionRefused);
    assert!(q.next_event().is_none());
}

#[test]
fn announced_bytes_gate_reads() {
    let mut q = EventQueue::new();
    let start = TcpSocket::connect(&mut q, 7, 0, 0).unwrap();
    let mut sock = start.socket;
    q.next_event();

    // Nothing announced yet: reads return zero without a system call.
    let (r, close_fd) = sock.read(&mut q, 16, 0, 0);
    assert_eq!(r.unwrap(), 0);
    assert!(!close_fd);

    // Readiness announces five bytes.
    let act = sock.process_epoll_events(
        &mut q.queue,
        EPOLLIN,
        SocketProbe::ReadableQuery { nread: 5 },
    );
    assert!(!act.close_fd);
    assert_eq!(sock.available_bytes, 5);
    let e = q.next_event().unwrap();
    assert_eq!(e.event_type, EventKind::DataAvailableEvent(5));

    // Reading exactly those five bytes drains the announcement ...
    let (r, _) = sock.read(&mut q, 16, 5, 0);
    assert_eq!(r.unwrap(), 5);
    assert_eq!(sock.available_bytes, 0);

    // ... and a further read returns zero until the next event.
    let (r, _) = sock.read(&mut q, 16, 0, 0);
    assert_eq!(r.unwrap(), 0);
    assert_eq!(sock.socket.connection_state, ConnectionState::Connected);
}

#[test]
fn reading_more_than_announced_drains_the_announcement() {
    let mut q = EventQueue::new();
    let start = TcpSocket::connect(&mut q, 7, 0, 0).unwrap();
    let mut sock = start.socket;
    q.next_event();
    sock.process_epoll_events(&mut q.queue, EPOLLIN, SocketProbe::ReadableQuery { nread: 5 });
    q.next_event();

    // More bytes arrived between the probe and the read; the announcement
    // never goes negative.
    let (r, _) = sock.read(&mut q, 16, 7, 0);
    assert_eq!(r.unwrap(), 7);
    assert_eq!(sock.available_bytes, 0);
}

#[test]
fn zero_byte_readiness_closes_the_stream() {
    let mut q = EventQueue::new();
    let start = TcpSocket::connect(&mut q, 7, 0, 0).unwrap();
    let mut sock = start.socket;
    q.next_event();

    let act = sock.process_epoll_events(
        &mut q.queue,
        EPOLLIN,
        SocketProbe::ReadableQuery { nread: 0 },
    );
    assert!(act.close_fd);
    assert_eq!(sock.socket.connection_state, ConnectionState::Closed);
    assert_eq!(q.next_event().unwrap().event_type, EventKind::StreamClosedEvent);
}

#[test]
fn fatal_write_cancels_buffered_events() {
    let mut q = EventQueue::new();
    let start = TcpSocket::connect(&mut q, 7, 0, 0).unwrap();
    let mut sock = start.socket;
    // The Connected event is still buffered when the write fails fatally.
    let (r, close_fd) = sock.write(&mut q, 4, -1, EPIPE);
    assert_eq!(r.unwrap_err().kind, IoErrorKind::BrokenPipe);
    assert!(close_fd);
    assert_eq!(sock.socket.connection_state, ConnectionState::Closed);
    assert!(q.next_event().is_none());
}

#[test]
fn socket_close_is_idempotent_and_cancels_events() {
    let mut q = EventQueue::new();
    let start = TcpSocket::connect(&mut q, 7, 0, 0).unwrap();
    let mut sock = start.socket;
    assert!(sock.close(&mut q));
    assert!(!sock.close(&mut q));
    assert!(q.next_event().is_none());
}

#[test]
fn server_accept_loop_hands_out_distinct_descriptors() {
    let mut q = EventQueue::new();
    // bind(0.0.0.0:7000, backlog 0) succeeded; three clients connect in
    // sequence, each one readiness edge and one accept.
    let (mut server, interest) =
        TcpServerSocket::bind(Ok(RawTcpServerSocket::from_fd(9)), &mut q).unwrap();
    assert_eq!(interest, Some(EPOLLIN));

    let mut fds = Vec::new();
    let mut next_fd = 10;
    for _ in 0..3 {
        assert!(!server.process_epoll_events(&mut q.queue, EPOLLIN, 0));
        let e = q.next_event().unwrap();
        assert_eq!(e.event_type, EventKind::ClientConnectedEvent);
        assert!(e.source.id == server.event_source_id.id);

        let (r, close_fd) = server.accept(&mut q, next_fd, 0);
        assert!(!close_fd);
        let client = r.unwrap();
        assert_eq!(client.connection_state, ConnectionState::Connected);
        fds.push(client.fd);
        next_fd += 1;
    }
    assert_eq!(fds, vec![10, 11, 12]);
    assert!(fds[0] != fds[1] && fds[1] != fds[2] && fds[0] != fds[2]);
}

#[test]
fn accept_without_announcement_reports_unavailable() {
    let mut q = EventQueue::new();
    let (mut server, _) =
        TcpServerSocket::bind(Ok(RawTcpServerSocket::from_fd(9)), &mut q).unwrap();
    let (r, close_fd) = server.accept(&mut q, 0, 0);
    assert_eq!(r.unwrap_err().kind, IoErrorKind::ResourceUnavailable);
    assert!(!close_fd);
}

#[test]
fn bind_failure_propagates() {
    let mut q = EventQueue::new();
    let err = TcpServerSocket::bind(
        Err(revbio::helpers::IoError { kind: IoErrorKind::PermissionDenied }),
        &mut q,
    )
    .unwrap_err();
    assert_eq!(err.kind, IoErrorKind::PermissionDenied);
}

#[test]
fn server_error_condition_closes_the_listener() {
    let mut q = EventQueue::new();
    let (mut server, _) =
        TcpServerSocket::bind(Ok(RawTcpServerSocket::from_fd(9)), &mut q).unwrap();
    assert!(server.process_epoll_events(&mut q.queue, EPOLLERR, EPIPE));
    assert_eq!(server.socket.connection_state, ConnectionState::Closed);
    match q.next_event().unwrap().event_type {
        EventKind::IoErrorEvent(err) => assert_eq!(err.kind, IoErrorKind::BrokenPipe),
        other => panic!("unexpected event {:?}", other),
    }
}

#[test]
fn server_close_is_idempotent() {
    let mut q = EventQueue::new();
    let (mut server, _) =
        TcpServerSocket::bind(Ok(RawTcpServerSocket::from_fd(9)), &mut q).unwrap();
    assert!(server.close(&mut q));
    assert!(!server.close(&mut q));
}
