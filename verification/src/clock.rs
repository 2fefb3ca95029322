//! Points in UTC time, delays, and the system clock.

use std::time::Duration;
use vstd::prelude::*;

verus! {

/// The last second that a UTC date can name: the end of the year 262142.
pub const MAX_UTC_SECS: i64 = 8210266876799;

/// The whole seconds of the longest delay that can be added to a date: `i64::MAX` milliseconds.
pub const MAX_DELAY_SECS: u64 = 9223372036854775;

/// The nanoseconds above `MAX_DELAY_SECS` of that longest delay.
pub const MAX_DELAY_NANOS: u32 = 807000000;

/// A point in UTC time, from the Unix epoch on.
#[derive(Clone, Copy, Debug, PartialEq, Eq, Structural)]
pub struct UtcTime {
    /// Whole seconds since the Unix epoch.
    pub secs: i64,
    /// Nanoseconds above the whole seconds.
    pub nanos: u32,
}

impl UtcTime {
    /// Whether this is a date that UTC can name, at or after the Unix epoch.
    pub open spec fn is_valid(self) -> bool {
        &&& 0 <= self.secs <= MAX_UTC_SECS
        &&& self.nanos < 1_000_000_000
    }

    /// The nanoseconds since the Unix epoch.
    pub open spec fn since_epoch(self) -> int {
        self.secs * 1_000_000_000 + self.nanos
    }
}

/// The whole seconds that `duration` holds.
pub uninterp spec fn duration_secs(duration: Duration) -> u64;

/// The nanoseconds of `duration` above its whole seconds, as `Duration::subsec_nanos` has them.
pub uninterp spec fn duration_nanos(duration: Duration) -> u32;

/// Whether `duration` is no longer than `i64::MAX` milliseconds.
pub open spec fn is_delay(duration: Duration) -> bool {
    ||| duration_secs(duration) < MAX_DELAY_SECS
    ||| duration_secs(duration) == MAX_DELAY_SECS && duration_nanos(duration) <= MAX_DELAY_NANOS
}

/// The second in which the clock stands when `secs` seconds and `nanos` nanoseconds have passed
/// since `now`.
pub open spec fn second_after(now: UtcTime, secs: int, nanos: int) -> int {
    (now.since_epoch() + secs * 1_000_000_000 + nanos) / 1_000_000_000
}

/// `Duration::as_secs` returns the whole seconds, a value fixed by the duration alone.
pub assume_specification[ Duration::as_secs ](duration: &Duration) -> (r: u64)
    ensures
        r == duration_secs(*duration),
;

/// The error of `chrono` for a duration that it cannot represent.
#[verifier::external_type_specification]
#[verifier::external_body]
pub struct ExOutOfRangeError(chrono::OutOfRangeError);

/// Reads the system clock with `chrono::Utc::now`, which builds its result from the time since the
/// Unix epoch and so names a date at or after it; a clock that stands before the epoch makes it
/// panic. What the clock shows is left open.
#[verifier::external_body]
pub(crate) fn utc_now() -> (r: UtcTime)
    ensures
        r.is_valid(),
{
    let now = chrono::Utc::now();
    UtcTime { secs: now.timestamp(), nanos: now.timestamp_subsec_nanos() }
}

/// Whether `time` is what the system clock showed when it was read.
///
/// It holds of nothing but the outcome of a reading: a function without such an outcome among its
/// arguments has to read the clock itself to make it hold.
pub closed spec fn is_clock_reading(time: UtcTime) -> bool {
    call_ensures(utc_now, (), time)
}

/// Whether `secs` are the whole seconds of what the system clock showed when it was read.
pub open spec fn is_clock_second(secs: i64) -> bool {
    exists|time: UtcTime| #[trigger] is_clock_reading(time) && time.secs == secs
}

/// Reads the system clock.
pub(crate) fn read_clock() -> (r: UtcTime)
    ensures
        is_clock_reading(r),
        is_clock_second(r.secs),
        r.is_valid(),
{
    let read = utc_now;
    read()
}

/// Converts `duration` with `chrono::Duration::from_std`, which keeps its seconds and nanoseconds,
/// the latter less than one second, and fails exactly for what is longer than `i64::MAX` milliseconds.
#[verifier::external_body]
pub(crate) fn delay_from_std(duration: Duration) -> (r: Result<
    (i64, u32),
    chrono::OutOfRangeError,
>)
    ensures
        match r {
            Ok((secs, nanos)) => {
                &&& is_delay(duration)
                &&& secs == duration_secs(duration)
                &&& nanos == duration_nanos(duration)
                &&& nanos < 1_000_000_000
            },
            Err(_) => !is_delay(duration),
        },
{
    match chrono::Duration::from_std(duration) {
        Ok(delay) => Ok((delay.num_seconds(), delay.subsec_nanos() as u32)),
        Err(error) => Err(error),
    }
}

/// Adds a delay to `time` with `checked_add_signed` of `chrono::DateTime`, which carries the
/// nanoseconds over and returns `None` exactly when the sum lies after the last date that it can
/// represent.
#[verifier::external_body]
pub(crate) fn utc_checked_add(time: &UtcTime, secs: i64, nanos: u32) -> (r: Option<UtcTime>)
    requires
        time.is_valid(),
        0 <= secs < MAX_DELAY_SECS,
        nanos < 1_000_000_000,
    ensures
        match r {
            Some(sum) => {
                &&& sum.is_valid()
                &&& sum.since_epoch() == time.since_epoch() + secs * 1_000_000_000 + nanos
            },
            None => second_after(*time, secs as int, nanos as int) > MAX_UTC_SECS,
        },
{
    let time = chrono::DateTime::<chrono::Utc>::from_timestamp(time.secs, time.nanos)?;
    let sum = time.checked_add_signed(chrono::TimeDelta::new(secs, nanos)?)?;
    Some(UtcTime { secs: sum.timestamp(), nanos: sum.timestamp_subsec_nanos() })
}

/// Returns the second in which the clock stands when `secs` seconds and `nanos` nanoseconds have
/// passed since `now`, or `None` if UTC has no such date.
pub(crate) fn checked_second_after(now: &UtcTime, secs: u64, nanos: u32) -> (r: Option<i64>)
    requires
        now.is_valid(),
        nanos < 1_000_000_000,
    ensures
        match r {
            Some(at) => {
                &&& at == second_after(*now, secs as int, nanos as int)
                &&& at <= MAX_UTC_SECS
            },
            None => second_after(*now, secs as int, nanos as int) > MAX_UTC_SECS,
        },
{
    if secs >= MAX_DELAY_SECS {
        return None;
    }
    match utc_checked_add(now, secs as i64, nanos) {
        Some(sum) => Some(sum.secs),
        None => None,
    }
}

/// A clock reading is an outcome of reading the system clock.
pub(crate) proof fn law_readings_come_from_the_clock(time: UtcTime)
    requires
        is_clock_reading(time),
    ensures
        call_ensures(utc_now, (), time),
{
}

/// A clock reading is a date at or after the Unix epoch that UTC can name.
pub proof fn law_readings_are_dates(time: UtcTime)
    requires
        is_clock_reading(time),
    ensures
        0 <= time.secs <= MAX_UTC_SECS,
        time.nanos < 1_000_000_000,
{
}

/// A duration can be added to a date exactly if it is no longer than `i64::MAX` milliseconds.
pub proof fn law_delays_have_a_limit(duration: Duration)
    requires
        duration_nanos(duration) < 1_000_000_000,
    ensures
        is_delay(duration) <==> duration_secs(duration) * 1_000_000_000 + duration_nanos(duration)
            <= i64::MAX * 1_000_000,
{
}

} // verus!
