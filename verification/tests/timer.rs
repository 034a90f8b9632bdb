use revbio::events::EventKind;
use revbio::eventqueue::EventQueue;
use revbio::syscalls::{EPOLLIN, EPOLLONESHOT};
use revbio::timer::Timer;

#[test]
fn fresh_timer_is_unarmed() {
    let mut q = EventQueue::new();
    let t = Timer::create(&mut q, 8);
    assert!(!t.is_active());
    assert!(!t.is_singleshot());
    assert_eq!(t.get_interal(), 0);
}

#[test]
fn configuration_getters() {
    let mut q = EventQueue::new();
    let mut t = Timer::create(&mut q, 8);
    t.set_interval(2000);
    assert_eq!(t.get_interal(), 2000);
    t.set_singleshot(true);
    assert!(t.is_singleshot());
}

#[test]
fn start_computes_the_kernel_setting() {
    let mut q = EventQueue::new();
    let mut t = Timer::create(&mut q, 8);
    t.set_interval(2050);
    let arm = t.start().unwrap();
    assert_eq!(arm.setting.it_value.tv_sec, 2);
    assert_eq!(arm.setting.it_value.tv_nsec, 50_000_000);
    assert_eq!(arm.setting.it_interval.tv_sec, 2);
    assert_eq!(arm.setting.it_interval.tv_nsec, 50_000_000);
    assert_eq!(arm.epoll_flags, EPOLLIN);
    assert!(arm.register);
    assert!(t.is_active());
}

#[test]
fn one_shot_start_sets_no_period() {
    let mut q = EventQueue::new();
    let mut t = Timer::create(&mut q, 8);
    t.set_interval(500);
    t.set_singleshot(true);
    let arm = t.start().unwrap();
    assert_eq!(arm.setting.it_value.tv_sec, 0);
    assert_eq!(arm.setting.it_value.tv_nsec, 500_000_000);
    assert_eq!(arm.setting.it_interval.tv_sec, 0);
    assert_eq!(arm.setting.it_interval.tv_nsec, 0);
    assert_eq!(arm.epoll_flags, EPOLLIN | EPOLLONESHOT);
}

#[test]
fn start_while_active_is_a_no_op() {
    let mut q = EventQueue::new();
    let mut t = Timer::create(&mut q, 8);
    t.set_interval(50);
    assert!(t.start().is_some());
    assert!(t.start().is_none());
    assert!(t.is_active());
}

#[test]
fn start_without_interval_is_a_no_op() {
    let mut q = EventQueue::new();
    let mut t = Timer::create(&mut q, 8);
    assert!(t.start().is_none());
    assert!(!t.is_active());
}

#[test]
fn stop_while_inactive_is_a_no_op() {
    let mut q = EventQueue::new();
    let mut t = Timer::create(&mut q, 8);
    assert!(!t.stop(&mut q));
    assert!(!t.is_active());
}

#[test]
fn restart_after_stop_registers_again() {
    let mut q = EventQueue::new();
    let mut t = Timer::create(&mut q, 8);
    t.set_interval(50);
    assert!(t.start().unwrap().register);
    // stop unregisters the descriptor, so a restart registers anew.
    assert!(t.stop(&mut q));
    assert!(t.start().unwrap().register);
}

#[test]
fn restart_after_one_shot_fired_modifies_instead_of_registering() {
    let mut q = EventQueue::new();
    let mut t = Timer::create(&mut q, 8);
    t.set_interval(50);
    t.set_singleshot(true);
    assert!(t.start().unwrap().register);
    t.process_epoll_events(&mut q.queue, EPOLLIN, 1);
    assert!(!t.is_active());
    // The descriptor stayed registered, so rearming updates the interest.
    let rearm = t.start().unwrap();
    assert!(!rearm.register);
}

#[test]
fn expiration_counts_are_preserved() {
    let mut q = EventQueue::new();
    let mut t = Timer::create(&mut q, 8);
    t.set_interval(50);
    t.start().unwrap();

    // A 260 ms run of a 50 ms periodic timer wakes with five expirations in
    // total, possibly coalesced; all five must surface as events.
    t.process_epoll_events(&mut q.queue, EPOLLIN, 2);
    t.process_epoll_events(&mut q.queue, EPOLLIN, 3);

    let mut ticks = 0;
    while let Some(e) = q.next_event() {
        assert_eq!(e.event_type, EventKind::TimerEvent);
        assert!(e.source.id == t.event_source_id.id);
        ticks += 1;
    }
    assert_eq!(ticks, 5);
    assert!(t.is_active());
}

#[test]
fn readiness_without_readable_bit_is_ignored() {
    let mut q = EventQueue::new();
    let mut t = Timer::create(&mut q, 8);
    t.set_interval(50);
    t.start().unwrap();
    t.process_epoll_events(&mut q.queue, 0, 4);
    assert!(q.next_event().is_none());
}

#[test]
fn one_shot_goes_inactive_after_firing() {
    let mut q = EventQueue::new();
    let mut t = Timer::create(&mut q, 8);
    t.set_interval(500);
    t.set_singleshot(true);
    t.start().unwrap();
    t.process_epoll_events(&mut q.queue, EPOLLIN, 1);
    assert!(!t.is_active());
    assert_eq!(q.next_event().unwrap().event_type, EventKind::TimerEvent);
}

#[test]
fn one_shot_stopped_before_firing_ticks_never() {
    let mut q = EventQueue::new();
    let mut t = Timer::create(&mut q, 8);
    t.set_interval(500);
    t.set_singleshot(true);
    t.start().unwrap();
    assert!(t.stop(&mut q));
    assert!(!t.is_active());
    // Pumping the reactor delivers nothing: the timer never fired and its
    // buffered events (none) were cancelled.
    assert!(q.next_event().is_none());
}

#[test]
fn stop_cancels_buffered_ticks() {
    let mut q = EventQueue::new();
    let mut t = Timer::create(&mut q, 8);
    t.set_interval(50);
    t.start().unwrap();
    t.process_epoll_events(&mut q.queue, EPOLLIN, 2);
    assert!(t.stop(&mut q));
    assert!(q.next_event().is_none());
}
