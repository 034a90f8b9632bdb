use revbio::channel::{Channel, IntegrateAction, Receiver, TryRecvResult, WakeAction};
use revbio::events::EventKind;
use revbio::eventqueue::EventQueue;
use revbio::syscalls::EPOLLIN;

#[test]
fn blocking_channel_passes_messages_in_order() {
    let (mut rx, tx) = Channel::<i32>::create_blocking();
    assert!(matches!(rx.try_recv(), TryRecvResult::Empty));

    let (accepted, wake) = tx.try_send(&mut rx.data, 1);
    assert!(accepted);
    assert_eq!(wake, WakeAction::SignalCondvar);
    let (accepted, wake) = tx.try_send(&mut rx.data, 2);
    assert!(accepted);
    assert_eq!(wake, WakeAction::NoWake);

    assert!(!rx.must_wait());
    assert!(matches!(rx.try_recv(), TryRecvResult::Data(1)));
    assert_eq!(rx.recv_opt(), Some(2));
    assert!(rx.must_wait());
}

#[test]
fn wake_flag_gates_wakes() {
    let (mut rx, tx) = Channel::<i32>::create_blocking();
    assert_eq!(tx.send(&mut rx.data, 1), WakeAction::SignalCondvar);
    // The receiver has not observed the wake: no second wake is issued.
    assert_eq!(tx.send(&mut rx.data, 2), WakeAction::NoWake);
    assert!(rx.data.receiver_notified);
    // The wake flag never lies: something is there to observe.
    assert!(rx.data.queue.len() > 0 || rx.data.nr_senders == 0);

    assert_eq!(rx.recv(), 1);
    assert!(!rx.data.receiver_notified);
    // Queue is still non-empty, so the next send owes no wake either.
    assert_eq!(tx.send(&mut rx.data, 3), WakeAction::NoWake);
}

#[test]
fn last_departing_sender_wakes_and_disconnects() {
    let (mut rx, tx) = Channel::<i32>::create_blocking();
    let tx2 = tx.clone_handle(&mut rx.data);
    assert_eq!(rx.data.nr_senders, 2);

    assert_eq!(tx2.depart(&mut rx.data), WakeAction::NoWake);
    assert_eq!(rx.data.nr_senders, 1);
    assert_eq!(tx.depart(&mut rx.data), WakeAction::SignalCondvar);
    assert!(rx.data.receiver_notified);

    assert!(matches!(rx.try_recv(), TryRecvResult::Disconnected));
    assert_eq!(rx.recv_opt(), None);
}

#[test]
fn sends_after_receiver_close_are_refused() {
    let (mut rx, tx) = Channel::<i32>::create_blocking();
    rx.close();
    let (accepted, wake) = tx.try_send(&mut rx.data, 5);
    assert!(!accepted);
    assert_eq!(wake, WakeAction::NoWake);
    assert_eq!(rx.data.queue.len(), 0);
}

#[test]
fn integrated_channel_ping() {
    let mut q = EventQueue::new();
    let (mut r, tx) = Channel::<i32>::create(&mut q, 5);

    // A sender thread pushes 1, 2, 3 and departs; the first send writes to
    // the wake-up descriptor, the rest are coalesced behind the wake flag.
    assert_eq!(tx.try_send(&mut r.receiver.data, 1), (true, WakeAction::WriteWakeupFd));
    assert_eq!(tx.try_send(&mut r.receiver.data, 2), (true, WakeAction::NoWake));
    assert_eq!(tx.try_send(&mut r.receiver.data, 3), (true, WakeAction::NoWake));
    assert_eq!(tx.depart(&mut r.receiver.data), WakeAction::NoWake);

    // The reactor sees the wake-up descriptor readable.
    r.process_epoll_events(&mut q.queue, EPOLLIN, 1);

    let mut kinds = Vec::new();
    while let Some(e) = q.next_event() {
        assert!(e.source.id == r.event_source_id.id);
        kinds.push(e.event_type);
    }
    assert_eq!(
        kinds,
        vec![
            EventKind::ChannelMessageEvent,
            EventKind::ChannelMessageEvent,
            EventKind::ChannelMessageEvent,
            EventKind::ChannelClosedEvent,
        ]
    );

    assert_eq!(r.recv(), Some(1));
    assert_eq!(r.recv(), Some(2));
    assert_eq!(r.recv(), Some(3));
    assert_eq!(r.recv(), None);
}

#[test]
fn integration_after_all_senders_left_reports_close_at_once() {
    let mut q = EventQueue::new();
    let (mut rx, tx) = Channel::<i32>::create_blocking();
    tx.depart(&mut rx.data);
    let (r, action) = Receiver::from_blocking_receiver(rx, &mut q, 6);
    assert_eq!(action, IntegrateAction::AlreadyClosed);
    assert_eq!(r.receiver.data.epoll_fd, -1);
    let e = q.next_event().unwrap();
    assert_eq!(e.event_type, EventKind::ChannelClosedEvent);
    assert!(e.source.id == r.event_source_id.id);
}

#[test]
fn integration_with_backlog_notifies_at_once() {
    let mut q = EventQueue::new();
    let (mut rx, tx) = Channel::<i32>::create_blocking();
    tx.send(&mut rx.data, 9);
    let before = rx.data.receiver_notified;
    assert!(before);
    let (r, action) = Receiver::from_blocking_receiver(rx, &mut q, 6);
    assert_eq!(action, IntegrateAction::RegisterAndNotify);
    assert_eq!(r.receiver.data.epoll_fd, 6);
    assert!(q.next_event().is_none());
}

#[test]
fn coalesced_wakes_lose_no_messages() {
    let mut q = EventQueue::new();
    let (mut r, tx) = Channel::<i32>::create(&mut q, 5);

    tx.try_send(&mut r.receiver.data, 10);
    r.process_epoll_events(&mut q.queue, EPOLLIN, 1);
    assert_eq!(r.recv(), Some(10));

    tx.try_send(&mut r.receiver.data, 11);
    tx.try_send(&mut r.receiver.data, 12);
    r.process_epoll_events(&mut q.queue, EPOLLIN, 1);

    let mut messages = 0;
    while let Some(e) = q.next_event() {
        assert_eq!(e.event_type, EventKind::ChannelMessageEvent);
        messages += 1;
    }
    // One event per message over the receiver's lifetime: 1 + 2.
    assert_eq!(messages, 3);
    assert_eq!(r.recv(), Some(11));
    assert_eq!(r.recv(), Some(12));
    assert_eq!(r.recv(), None);
}

#[test]
fn queued_but_unannounced_messages_are_not_taken() {
    let mut q = EventQueue::new();
    let (mut r, tx) = Channel::<i32>::create(&mut q, 5);
    tx.try_send(&mut r.receiver.data, 1);
    // No readiness has been processed yet: nothing is announced.
    assert_eq!(r.recv(), None);
    r.process_epoll_events(&mut q.queue, EPOLLIN, 1);
    assert_eq!(r.recv(), Some(1));
}

#[test]
fn receiver_close_cancels_its_events_and_returns_the_descriptor() {
    let mut q = EventQueue::new();
    let (mut r, tx) = Channel::<i32>::create(&mut q, 5);
    tx.try_send(&mut r.receiver.data, 1);
    r.process_epoll_events(&mut q.queue, EPOLLIN, 1);

    let fd = r.close(&mut q.queue);
    assert_eq!(fd, 5);
    assert_eq!(r.receiver.data.epoll_fd, -1);
    assert!(!r.receiver.data.port_alive);
    assert!(q.next_event().is_none());

    let (accepted, _) = tx.try_send(&mut r.receiver.data, 2);
    assert!(!accepted);
}
