//! Durations as the native loop takes them: a poll timeout in whole
//! milliseconds that must fit a C `int`, and a timer setting as a pair of
//! seconds and nanoseconds.

use std::time::Duration;
use vstd::prelude::*;

verus! {

/// The whole seconds that a `Duration` holds.
pub uninterp spec fn duration_secs(duration: Duration) -> u64;

/// What a `Duration` holds beyond its whole seconds, in nanoseconds.
pub uninterp spec fn duration_subsec_nanos(duration: Duration) -> u32;

/// `Duration::as_secs`: the number of whole seconds. Trusted, not proved: the
/// result is what `duration_secs` names.
#[verifier::external_body]
fn as_secs(duration: &Duration) -> (secs: u64)
    ensures
        secs == duration_secs(*duration),
{
    duration.as_secs()
}

/// `Duration::subsec_nanos`: the fractional part in nanoseconds. Trusted, not
/// proved: the result is what `duration_subsec_nanos` names, and, as std
/// documents, it is always less than one second.
#[verifier::external_body]
fn subsec_nanos(duration: &Duration) -> (nanos: u32)
    ensures
        nanos == duration_subsec_nanos(*duration),
        nanos < 1_000_000_000,
{
    duration.subsec_nanos()
}

/// A timer setting in the layout of the C `timespec`.
#[derive(Clone, Copy, Debug, PartialEq, Eq, Structural)]
pub struct Timespec {
    pub tv_sec: i64,
    pub tv_nsec: i64,
}

impl Timespec {
    /// Whether both fields are zero: as a timer's value this disarms it, as
    /// its interval it makes the timer fire once only.
    pub open spec fn is_zero(self) -> bool {
        self.tv_sec == 0 && self.tv_nsec == 0
    }
}

/// The whole milliseconds in `secs` seconds and `nanos` nanoseconds.
pub open spec fn whole_millis(secs: u64, nanos: u32) -> int {
    secs as int * 1000 + nanos as int / 1_000_000
}

/// The poll timeout for a wait of `secs` seconds and `nanos` nanoseconds:
/// its whole milliseconds, where they fit a C `int`.
pub open spec fn timeout_of(secs: u64, nanos: u32) -> Option<i32> {
    if whole_millis(secs, nanos) <= i32::MAX {
        Some(whole_millis(secs, nanos) as i32)
    } else {
        None
    }
}

/// The timer setting for `secs` seconds and `nanos` nanoseconds, where the
/// seconds fit the signed field.
pub open spec fn timespec_of(secs: u64, nanos: u32) -> Option<Timespec> {
    if secs <= i64::MAX {
        Some(Timespec { tv_sec: secs as i64, tv_nsec: nanos as i64 })
    } else {
        None
    }
}

/// Converts a wait given in parts to the poll timeout: `None` exactly when
/// the whole milliseconds exceed `i32::MAX`.
pub fn millis_to_c_int(secs: u64, nanos: u32) -> (timeout: Option<i32>)
    ensures
        timeout == timeout_of(secs, nanos),
{
    let sub: u64 = (nanos / 1_000_000) as u64;
    if secs > 2_147_483 {
        None
    } else {
        let total: u64 = secs * 1000 + sub;
        if total > 2_147_483_647 {
            None
        } else {
            Some(total as i32)
        }
    }
}

/// Converts a timer setting given in parts: `None` exactly when the seconds
/// exceed `i64::MAX`.
pub fn parts_to_timespec(secs: u64, nanos: u32) -> (native: Option<Timespec>)
    ensures
        native == timespec_of(secs, nanos),
{
    if secs > 9_223_372_036_854_775_807 {
        None
    } else {
        Some(Timespec { tv_sec: secs as i64, tv_nsec: nanos as i64 })
    }
}

/// The timeout to hand to the native loop for a wait of `timeout`, in whole
/// milliseconds; `None` exactly when they do not fit a C `int`.
pub fn timeout_millis(timeout: Duration) -> (millis: Option<i32>)
    ensures
        millis == timeout_of(duration_secs(timeout), duration_subsec_nanos(timeout)),
{
    millis_to_c_int(as_secs(&timeout), subsec_nanos(&timeout))
}

/// The native form of `duration`; `None` exactly when its seconds exceed
/// `i64::MAX`.
pub fn duration_to_timespec(duration: Duration) -> (native: Option<Timespec>)
    ensures
        native == timespec_of(duration_secs(duration), duration_subsec_nanos(duration)),
        native matches Some(t) ==> 0 <= t.tv_sec && 0 <= t.tv_nsec < 1_000_000_000,
{
    parts_to_timespec(as_secs(&duration), subsec_nanos(&duration))
}

} // verus!
