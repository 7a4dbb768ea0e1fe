use humanophone::watchdog::{Expired, Signal, Watchdog};

#[test]
fn fresh_watchdog_is_stopped() {
    let mut watchdog = Watchdog::with_timeout(100);
    assert_eq!(watchdog.timeout(), 100);
    assert_eq!(watchdog.deadline(), None);
    assert_eq!(watchdog.poll(0), None);
    assert_eq!(watchdog.poll(1_000_000), None);
    assert!(!watchdog.has_fired());
}

#[test]
fn reset_at_zero_fires_once_at_timeout() {
    let mut watchdog = Watchdog::with_timeout(100);
    watchdog.signal(Signal::Reset, 0);
    assert_eq!(watchdog.deadline(), Some(100));
    assert_eq!(watchdog.poll(0), None);
    assert_eq!(watchdog.poll(50), None);
    assert_eq!(watchdog.poll(99), None);
    assert_eq!(watchdog.poll(100), Some(Expired));
    assert!(watchdog.has_fired());
    assert_eq!(watchdog.poll(100), None);
    assert_eq!(watchdog.poll(1_000), None);
}

#[test]
fn reset_at_half_does_not_fire_before_three_halves() {
    let timeout = 100;
    let mut watchdog = Watchdog::with_timeout(timeout);
    watchdog.signal(Signal::Reset, timeout / 2);
    assert_eq!(watchdog.deadline(), Some(150));
    assert_eq!(watchdog.poll(100), None);
    assert_eq!(watchdog.poll(149), None);
    assert_eq!(watchdog.poll(150), Some(Expired));
}

#[test]
fn reset_discards_the_previous_deadline() {
    let mut watchdog = Watchdog::with_timeout(100);
    watchdog.signal(Signal::Reset, 0);
    watchdog.signal(Signal::Reset, 80);
    assert_eq!(watchdog.poll(120), None);
    assert_eq!(watchdog.deadline(), Some(180));
    assert_eq!(watchdog.poll(180), Some(Expired));
}

#[test]
fn stop_disarms_until_the_next_reset() {
    let mut watchdog = Watchdog::with_timeout(100);
    watchdog.signal(Signal::Reset, 0);
    watchdog.signal(Signal::Stop, 10);
    assert_eq!(watchdog.deadline(), None);
    assert_eq!(watchdog.poll(500), None);
    watchdog.signal(Signal::Reset, 600);
    assert_eq!(watchdog.poll(699), None);
    assert_eq!(watchdog.poll(700), Some(Expired));
}

#[test]
fn signals_after_expiry_change_nothing() {
    let mut watchdog = Watchdog::with_timeout(10);
    watchdog.signal(Signal::Reset, 0);
    assert_eq!(watchdog.poll(10), Some(Expired));
    watchdog.signal(Signal::Reset, 20);
    watchdog.signal(Signal::Stop, 25);
    watchdog.signal(Signal::Reset, 30);
    assert!(watchdog.has_fired());
    assert_eq!(watchdog.deadline(), None);
    assert_eq!(watchdog.poll(1_000), None);
}

#[test]
fn zero_timeout_fires_at_the_reset_time() {
    let mut watchdog = Watchdog::with_timeout(0);
    watchdog.signal(Signal::Reset, 7);
    assert_eq!(watchdog.poll(6), None);
    assert_eq!(watchdog.poll(7), Some(Expired));
}

#[test]
fn deadline_beyond_the_clock_is_never_reached() {
    let mut watchdog = Watchdog::with_timeout(u64::MAX);
    watchdog.signal(Signal::Reset, 1);
    assert_eq!(watchdog.deadline(), None);
    assert_eq!(watchdog.poll(u64::MAX), None);
    assert!(!watchdog.has_fired());
}

#[test]
fn clock_before_the_reset_does_not_fire() {
    let mut watchdog = Watchdog::with_timeout(5);
    watchdog.signal(Signal::Reset, 100);
    assert_eq!(watchdog.poll(3), None);
    assert_eq!(watchdog.poll(104), None);
    assert_eq!(watchdog.poll(105), Some(Expired));
}
