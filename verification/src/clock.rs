//! The wall clock, read as time elapsed since the Unix epoch.

use vstd::prelude::*;

verus! {

/// `std::time::SystemTime`: an instant of the system clock, carried
/// through unread.
#[verifier::external_type_specification]
#[verifier::external_body]
pub struct ExSystemTime(std::time::SystemTime);

/// `std::time::SystemTimeError`: the failure of `duration_since`, carried
/// through unread.
#[verifier::external_type_specification]
#[verifier::external_body]
pub struct ExSystemTimeError(std::time::SystemTimeError);

/// `SystemTime::now` reads the system clock. Nothing is claimed of the
/// instant it returns.
pub assume_specification[ std::time::SystemTime::now ]() -> (now: std::time::SystemTime)
;

/// `SystemTime::duration_since` measures the time from `earlier` to `time`,
/// and fails when `earlier` is the later of the two. Nothing is claimed of
/// which it does, nor of the duration it returns.
pub assume_specification[ std::time::SystemTime::duration_since ](
    time: &std::time::SystemTime,
    earlier: std::time::SystemTime,
) -> (elapsed: Result<std::time::Duration, std::time::SystemTimeError>)
;

/// The whole seconds that a duration holds.
pub uninterp spec fn whole_secs(duration: std::time::Duration) -> u64;

/// The nanoseconds that a duration holds beyond its whole seconds.
pub uninterp spec fn subsec_part(duration: std::time::Duration) -> u32;

/// `Duration::as_secs` returns the whole seconds that the duration holds:
/// the same number for the same duration, and nothing is claimed of which.
pub assume_specification[ std::time::Duration::as_secs ](duration: &std::time::Duration) -> (secs:
    u64)
    ensures
        secs == whole_secs(*duration),
;

/// `Duration::subsec_nanos` returns the part of the duration below one
/// second, in nanoseconds: the same number for the same duration, and
/// always less than one billion.
pub assume_specification[ std::time::Duration::subsec_nanos ](
    duration: &std::time::Duration,
) -> (nanos: u32)
    ensures
        nanos == subsec_part(*duration),
        nanos < 1_000_000_000,
;

/// The constant `std::time::UNIX_EPOCH`: the instant from which Unix time
/// counts.
#[verifier::external_body]
fn unix_epoch() -> (epoch: std::time::SystemTime) {
    std::time::UNIX_EPOCH
}

/// A point in time, as whole seconds since the Unix epoch and the
/// nanoseconds that follow them.
#[derive(Clone, Copy, Debug, PartialEq, Eq)]
pub struct UnixTime {
    /// Whole seconds since the Unix epoch.
    pub secs: u64,
    /// Nanoseconds since the last whole second.
    pub nanos: u32,
}

impl UnixTime {
    /// The nanosecond part stays below one second.
    pub open spec fn wf(self) -> bool {
        self.nanos < 1_000_000_000
    }
}

/// The time that a measurement from the Unix epoch gives: the seconds and
/// nanoseconds of the duration measured, and no time where the measurement
/// failed.
pub open spec fn time_measured(
    elapsed: Result<std::time::Duration, std::time::SystemTimeError>,
) -> Option<UnixTime> {
    match elapsed {
        Ok(duration) => Some(
            UnixTime { secs: whole_secs(duration), nanos: subsec_part(duration) },
        ),
        Err(_) => None,
    }
}

/// Turns a measurement from the Unix epoch into a time: `None` exactly
/// where the measurement failed, and else the seconds and nanoseconds of
/// the duration, which make a well-formed time.
pub fn unix_time(elapsed: Result<std::time::Duration, std::time::SystemTimeError>) -> (time: Option<
    UnixTime,
>)
    ensures
        time == time_measured(elapsed),
        time matches Some(t) ==> t.wf(),
{
    match elapsed {
        Ok(duration) => Some(
            UnixTime { secs: duration.as_secs(), nanos: duration.subsec_nanos() },
        ),
        Err(_) => None,
    }
}

/// Reads the system clock. Returns `None` when the clock stands before the
/// Unix epoch; a time that is returned is well formed.
pub fn read_clock() -> (time: Option<UnixTime>)
    ensures
        time matches Some(t) ==> t.wf(),
{
    let now = std::time::SystemTime::now();
    unix_time(now.duration_since(unix_epoch()))
}

} // verus!
