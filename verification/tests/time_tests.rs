use pipewire::loop_::TimerSource;
use pipewire::time::{duration_to_timespec, millis_to_c_int, parts_to_timespec, timeout_millis, Timespec};
use std::time::Duration;

#[test]
fn zero_timeout_polls_without_waiting() {
    assert_eq!(timeout_millis(Duration::from_millis(0)), Some(0));
    assert_eq!(millis_to_c_int(0, 0), Some(0));
}

#[test]
fn timeout_is_in_whole_milliseconds() {
    assert_eq!(timeout_millis(Duration::from_millis(200)), Some(200));
    assert_eq!(timeout_millis(Duration::new(3, 999_999)), Some(3000));
    assert_eq!(timeout_millis(Duration::new(3, 1_000_000)), Some(3001));
    assert_eq!(millis_to_c_int(1, 50_000_000), Some(1050));
}

#[test]
fn largest_timeout_that_fits() {
    assert_eq!(timeout_millis(Duration::from_millis(2_147_483_647)), Some(i32::MAX));
    assert_eq!(millis_to_c_int(2_147_483, 647_999_999), Some(i32::MAX));
}

#[test]
fn timeout_that_does_not_fit_is_refused() {
    assert_eq!(timeout_millis(Duration::from_millis(2_147_483_648)), None);
    assert_eq!(millis_to_c_int(2_147_483, 648_000_000), None);
    assert_eq!(millis_to_c_int(2_147_484, 0), None);
    assert_eq!(timeout_millis(Duration::new(u64::MAX, 999_999_999)), None);
}

#[test]
fn duration_becomes_seconds_and_nanoseconds() {
    assert_eq!(
        duration_to_timespec(Duration::from_millis(50)),
        Some(Timespec { tv_sec: 0, tv_nsec: 50_000_000 })
    );
    assert_eq!(
        duration_to_timespec(Duration::new(7, 11)),
        Some(Timespec { tv_sec: 7, tv_nsec: 11 })
    );
    assert_eq!(parts_to_timespec(7, 11), Some(Timespec { tv_sec: 7, tv_nsec: 11 }));
}

#[test]
fn duration_with_too_many_seconds_is_refused() {
    let most: u64 = i64::MAX as u64;
    assert_eq!(
        duration_to_timespec(Duration::new(most, 1)),
        Some(Timespec { tv_sec: i64::MAX, tv_nsec: 1 })
    );
    assert_eq!(duration_to_timespec(Duration::new(most + 1, 0)), None);
    assert_eq!(parts_to_timespec(u64::MAX, 0), None);
}

#[test]
fn absent_durations_count_as_zero() {
    let zero = Timespec { tv_sec: 0, tv_nsec: 0 };
    assert_eq!(TimerSource::setting(None, None), Some((zero, zero)));
    assert_eq!(
        TimerSource::setting(Some(Duration::from_millis(50)), None),
        Some((Timespec { tv_sec: 0, tv_nsec: 50_000_000 }, zero))
    );
    assert_eq!(
        TimerSource::setting(Some(Duration::new(1, 0)), Some(Duration::new(0, 500))),
        Some((Timespec { tv_sec: 1, tv_nsec: 0 }, Timespec { tv_sec: 0, tv_nsec: 500 }))
    );
}

#[test]
fn setting_with_too_long_a_duration_is_refused() {
    assert_eq!(TimerSource::setting(Some(Duration::new(u64::MAX, 0)), None), None);
    assert_eq!(TimerSource::setting(None, Some(Duration::new(u64::MAX, 0))), None);
}
