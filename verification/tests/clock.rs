use std::time::Duration;
use wineserver::clock::Clock;
use wineserver::protocol::{AbsoluteTime, Timeout, TICKS_1601_TO_1970};

fn clock_at(tv_sec: i64, monotonic: i64) -> Clock<u8> {
    let mut clock: Clock<u8> = Clock::default();
    clock.set_current_time(tv_sec, 0, Timeout(monotonic));
    clock
}

#[test]
fn empty_clock_has_no_timeout() {
    let mut clock: Clock<u8> = Clock::default();
    let (expired, next) = clock.next_timeout();
    assert!(expired.is_empty());
    assert_eq!(next, None);
}

#[test]
fn monotonic_counter_scales_to_ticks() {
    // 1000 host units of 125/3 ns each is 41666 ns, i.e. 416 ticks of 100 ns.
    assert_eq!(Clock::<u8>::monotonic_counter(1000, 125, 3).0, 416);
    assert_eq!(Clock::<u8>::monotonic_counter(12345, 1, 1).0, 123);
    assert_eq!(Clock::<u8>::monotonic_counter(99, 1, 1).0, 0);
}

#[test]
fn timeout_conversions() {
    let clock = clock_at(0, 1000);
    assert_eq!(clock.timeout_to_abstime(Timeout(500)).0, 500);
    assert_eq!(clock.timeout_to_abstime(Timeout(-20)).0, -1020);
    assert_eq!(clock.timeout_to_abstime(Timeout(0)).0, -1000);
    assert_eq!(clock.abstime_to_timeout(AbsoluteTime(500)).0, 500);
    assert_eq!(clock.abstime_to_timeout(AbsoluteTime(-1020)).0, -20);
    // A relative deadline that has passed is due now.
    assert_eq!(clock.abstime_to_timeout(AbsoluteTime(-900)).0, 0);
    // Exactly at the counter.
    assert_eq!(clock.abstime_to_timeout(AbsoluteTime(-1000)).0, 0);
}

#[test]
fn round_trips_of_conversions() {
    let clock = clock_at(0, 1000);
    for t in [-5000i64, -1, 0, 1, 77] {
        let back = clock.abstime_to_timeout(clock.timeout_to_abstime(Timeout(t)));
        assert_eq!(back.0, t);
    }
}

#[test]
fn absolute_timers_expire_in_deadline_order() {
    let mut clock = clock_at(0, 0);
    let now = TICKS_1601_TO_1970;
    clock.add(Timeout(now + 30), 3);
    clock.add(Timeout(now + 10), 1);
    clock.add(Timeout(now + 20), 2);
    let (expired, next) = clock.next_timeout();
    assert!(expired.is_empty());
    assert_eq!(next, Some(Duration::from_nanos(1000)));

    // 25 ticks later the first two have expired.
    clock.set_current_time(0, 2, Timeout(0));
    let (expired, next) = clock.next_timeout();
    assert_eq!(expired, vec![1, 2]);
    assert_eq!(next, Some(Duration::from_nanos(1000)));

    // Processing again at the same time expires nothing.
    let (expired, next) = clock.next_timeout();
    assert!(expired.is_empty());
    assert_eq!(next, Some(Duration::from_nanos(1000)));

    clock.set_current_time(0, 3, Timeout(0));
    let (expired, next) = clock.next_timeout();
    assert_eq!(expired, vec![3]);
    assert_eq!(next, None);
}

#[test]
fn relative_timers_expire_in_deadline_order() {
    let mut clock = clock_at(0, 100);
    clock.add(Timeout(-50), 5);
    clock.add(Timeout(-20), 2);
    clock.add(Timeout(-40), 4);
    let (expired, next) = clock.next_timeout();
    assert!(expired.is_empty());
    assert_eq!(next, Some(Duration::from_nanos(2000)));

    clock.set_current_time(0, 0, Timeout(145));
    let (expired, next) = clock.next_timeout();
    assert_eq!(expired, vec![2, 4]);
    assert_eq!(next, Some(Duration::from_nanos(500)));
}

#[test]
fn absolute_callbacks_come_before_relative_ones() {
    let mut clock = clock_at(0, 100);
    let now = TICKS_1601_TO_1970;
    clock.add(Timeout(-10), 7);
    clock.add(Timeout(now + 5), 8);
    clock.set_current_time(0, 1, Timeout(200));
    let (expired, next) = clock.next_timeout();
    assert_eq!(expired, vec![8, 7]);
    assert_eq!(next, None);
}

#[test]
fn next_timeout_is_the_earlier_of_both_lists() {
    let mut clock = clock_at(0, 100);
    let now = TICKS_1601_TO_1970;
    clock.add(Timeout(now + 35_000_000), 1);
    clock.add(Timeout(-25_000_001), 2);
    let (_, next) = clock.next_timeout();
    assert_eq!(next, Some(Duration::new(2, 500_000_100)));
}

#[test]
fn wait_of_more_than_a_second() {
    let mut clock = clock_at(0, 0);
    let now = TICKS_1601_TO_1970;
    clock.add(Timeout(now + 123_456_789), 1);
    let (_, next) = clock.next_timeout();
    assert_eq!(next, Some(Duration::new(12, 345_678_900)));
}

#[test]
fn timer_at_the_end_of_time_gives_no_timeout() {
    let mut clock = clock_at(-TICKS_1601_TO_1970 / 10_000_000, 0);
    clock.add(Timeout(i64::MAX), 1);
    let (expired, next) = clock.next_timeout();
    assert!(expired.is_empty());
    assert_eq!(next, None);
}

#[test]
fn remove_by_entry() {
    let mut clock = clock_at(0, 0);
    let now = TICKS_1601_TO_1970;
    clock.add(Timeout(now + 10), 1);
    clock.add(Timeout(now + 30), 3);
    let middle = clock.add(Timeout(now + 20), 2);
    clock.remove(middle);
    clock.set_current_time(0, 10, Timeout(0));
    let (expired, _) = clock.next_timeout();
    assert_eq!(expired, vec![1, 3]);
}

#[test]
fn removing_a_timer_added_at_the_end_removes_nothing() {
    let mut clock = clock_at(0, 0);
    let now = TICKS_1601_TO_1970;
    clock.add(Timeout(now + 10), 1);
    let last = clock.add(Timeout(now + 20), 2);
    clock.remove(last);
    clock.set_current_time(0, 10, Timeout(0));
    let (expired, _) = clock.next_timeout();
    assert_eq!(expired, vec![1, 2]);
}

#[test]
fn set_current_time_counts_from_1601() {
    let mut clock: Clock<u8> = Clock::default();
    // One second and 5 microseconds after the Unix epoch.
    clock.set_current_time(1, 5, Timeout(0));
    clock.add(Timeout(TICKS_1601_TO_1970 + 10_000_050), 1);
    clock.add(Timeout(TICKS_1601_TO_1970 + 10_000_051), 2);
    let (expired, next) = clock.next_timeout();
    assert_eq!(expired, vec![1]);
    assert_eq!(next, Some(Duration::from_nanos(100)));
}

#[test]
fn absolute_time_round_trips_unless_passed() {
    let clock = clock_at(0, 1000);
    for a in [-5000i64, -1000, 1, 77] {
        let back = clock.timeout_to_abstime(clock.abstime_to_timeout(AbsoluteTime(a)));
        assert_eq!(back.0, a);
    }
    // A passed monotonic deadline becomes "now".
    let back = clock.timeout_to_abstime(clock.abstime_to_timeout(AbsoluteTime(-999)));
    assert_eq!(back.0, -1000);
}

#[test]
fn clock_before_1601_and_negative_counter() {
    // One second before the NT epoch, with a negative monotonic counter.
    let mut clock = clock_at(-TICKS_1601_TO_1970 / 10_000_000 - 1, -50);
    clock.add(Timeout(20), 1);
    // A relative timeout of -10 lies 40 ticks ahead of the counter: positive,
    // so it is kept as an absolute time.
    assert_eq!(clock.timeout_to_abstime(Timeout(-10)).0, 40);
    assert!(clock.wait_fits());
    let (expired, next) = clock.next_timeout();
    assert!(expired.is_empty());
    assert_eq!(next, Some(Duration::new(1, 2000)));
}

#[test]
fn wait_that_would_overflow_is_reported() {
    let mut clock = clock_at(-TICKS_1601_TO_1970 / 10_000_000 - 1, 0);
    clock.add(Timeout(i64::MAX), 1);
    assert!(!clock.wait_fits());
}
