use nautilus_core::clock::{advance_from, next_live_ns, retry_candidate, AtomicTime};
use nautilus_core::wall::reading_ns;

#[test]
fn static_advance_returns_previous_plus_delta() {
    let clock = AtomicTime::new(false, 100);
    assert_eq!(clock.increment_time(5), 105);
    assert_eq!(clock.increment_time(0), 105);
    assert_eq!(clock.increment_time(1_000), 1_105);
}

#[test]
fn static_reads_repeat_without_advance() {
    let clock = AtomicTime::new(false, 42);
    assert_eq!(clock.get_time_ns(), 42);
    assert_eq!(clock.get_time_ns(), 42);
    clock.increment_time(8);
    assert_eq!(clock.get_time_ns(), 50);
    assert_eq!(clock.get_time_ns(), 50);
}

#[test]
fn static_advance_wraps_at_the_top() {
    let clock = AtomicTime::new(false, u64::MAX);
    assert_eq!(clock.increment_time(2), 1);
}

#[test]
fn live_read_is_past_wall_and_last() {
    let clock = AtomicTime::new(true, 5);
    assert_eq!(clock.time_after(3), 6);
    assert_eq!(clock.time_after(3), 7);
    assert_eq!(clock.time_after(100), 101);
    assert_eq!(clock.time_after(100), 102);
}

#[test]
fn live_read_with_repeated_or_backward_wall() {
    let clock = AtomicTime::new(true, 0);
    let a = clock.time_after(1_000);
    let b = clock.time_after(1_000);
    let c = clock.time_after(10);
    assert_eq!(a, 1_001);
    assert_eq!(b, 1_002);
    assert_eq!(c, 1_003);
}

#[test]
fn live_read_saturates_at_the_top() {
    let clock = AtomicTime::new(true, u64::MAX);
    assert_eq!(clock.time_after(0), u64::MAX);
    let clock = AtomicTime::new(true, 0);
    assert_eq!(clock.time_after(u64::MAX), u64::MAX);
}

#[test]
fn live_wall_reads_strictly_increase() {
    let clock = AtomicTime::new(true, 0);
    let mut prev = clock.get_time_ns();
    assert!(prev > 1_500_000_000_000_000_000);
    for _ in 0..1000 {
        let now = clock.time_since_epoch();
        assert!(now > prev);
        prev = now;
    }
}

#[test]
fn clones_share_state() {
    let a = AtomicTime::new(false, 10);
    let b = a.clone();
    b.increment_time(5);
    assert_eq!(a.get_time_ns(), 15);
    a.live();
    let x = b.get_time_ns();
    assert!(x > 15);
    b.static_mode();
    assert_eq!(a.get_time_ns(), x);
}

#[test]
fn live_step_values() {
    assert_eq!(next_live_ns(5, 3), 6);
    assert_eq!(next_live_ns(5, 9), 10);
    assert_eq!(next_live_ns(7, 7), 8);
    assert_eq!(next_live_ns(u64::MAX, 0), u64::MAX);
}

#[test]
fn retry_step_values() {
    assert_eq!(retry_candidate(5, 3, 0), 6);
    assert_eq!(retry_candidate(50, 100, 101), 102);
    assert_eq!(retry_candidate(101, 100, 101), 102);
    assert_eq!(retry_candidate(200, 100, 101), 201);
}

#[test]
fn advance_step_values() {
    assert_eq!(advance_from(10, 5), 15);
    assert_eq!(advance_from(u64::MAX, 1), 0);
}

#[test]
fn wall_reading_conversion() {
    assert_eq!(reading_ns(None), 0);
    assert_eq!(reading_ns(Some(1_700_000_000_000_000_000)), 1_700_000_000_000_000_000);
    assert_eq!(reading_ns(Some(u64::MAX as u128)), u64::MAX);
    assert_eq!(reading_ns(Some(u64::MAX as u128 + 1)), u64::MAX);
}
