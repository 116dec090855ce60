//! Alignment of ticks to wall-clock minutes.

use vstd::prelude::*;
use crate::clock::{read_clock, UnixTime};

verus! {

/// Seconds in one minute.
pub const SECONDS_PER_MINUTE: u64 = 60;

/// The number of whole minutes that `unix_secs` seconds hold.
pub open spec fn minute_of(unix_secs: int) -> int {
    unix_secs / 60
}

/// A tick at `unix_secs` fires under an aligned interval of
/// `interval_minutes` exactly when the minute it falls in is a multiple of
/// the interval.
pub open spec fn aligned(unix_secs: int, interval_minutes: int) -> bool {
    minute_of(unix_secs) % interval_minutes == 0
}

/// The minute since the Unix epoch in which `unix_secs` falls.
pub fn minute_of_epoch(unix_secs: u64) -> (minute: u64)
    ensures
        minute == minute_of(unix_secs as int),
{
    unix_secs / SECONDS_PER_MINUTE
}

/// Whether a tick at `unix_secs` seconds since the epoch fires.
pub fn is_due(unix_secs: u64, interval_minutes: u64) -> (due: bool)
    requires
        interval_minutes > 0,
    ensures
        due == aligned(unix_secs as int, interval_minutes as int),
{
    minute_of_epoch(unix_secs) % interval_minutes == 0
}

/// The answer that a reading of the clock gives: whether a tick at the
/// time read fires, and no answer where the clock gave no time.
pub open spec fn due_on(reading: Option<UnixTime>, interval_minutes: u64) -> Option<bool> {
    match reading {
        Some(now) => Some(aligned(now.secs as int, interval_minutes as int)),
        None => None,
    }
}

/// Whether a tick fires on this reading of the clock: `None` exactly where
/// the clock gave no time, and else whether the minute of the time read is
/// a multiple of the interval.
pub fn request_due(reading: Option<UnixTime>, interval_minutes: u64) -> (fire: Option<bool>)
    requires
        interval_minutes > 0,
    ensures
        fire == due_on(reading, interval_minutes),
{
    match reading {
        Some(now) => Some(is_due(now.secs, interval_minutes)),
        None => None,
    }
}

/// Whether a tick fires now: reads the system clock and tests its minute
/// against the interval. Returns `None` when the clock stands before the
/// Unix epoch. With an interval of one minute every tick fires.
pub fn should_make_request(interval: u64) -> (fire: Option<bool>)
    requires
        interval > 0,
    ensures
        interval == 1 ==> fire != Some(false),
{
    request_due(read_clock(), interval)
}

} // verus!
