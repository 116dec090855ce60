//! Timestamps of log rows: RFC 3339 text in UTC, written by `chrono`.

use vstd::prelude::*;
use crate::clock::UnixTime;
use crate::text::text_view;

verus! {

/// The RFC 3339 text, in UTC, of the instant that lies `nanos` nanoseconds
/// after second `secs` of Unix time; `None` of an instant that `chrono`
/// does not represent.
pub uninterp spec fn utc_rfc3339(secs: int, nanos: int) -> Option<Seq<char>>;

/// `chrono::DateTime::<Utc>::from_timestamp`, and `to_rfc3339` on the
/// instant it makes: the text that the two give for these seconds and
/// nanoseconds, `None` where the first makes no instant.
#[verifier::external_body]
fn format_utc(secs: i64, nanos: u32) -> (text: Option<String>)
    ensures
        text_view(text) == utc_rfc3339(secs as int, nanos as int),
{
    match chrono::DateTime::<chrono::Utc>::from_timestamp(secs, nanos) {
        Some(instant) => Some(instant.to_rfc3339()),
        None => None,
    }
}

/// The timestamp of a point in time: its RFC 3339 text where its seconds
/// fit a signed 64-bit count, which is what `chrono` takes, and `None`
/// beyond.
pub open spec fn timestamp_text(time: UnixTime) -> Option<Seq<char>> {
    if time.secs <= i64::MAX {
        utc_rfc3339(time.secs as int, time.nanos as int)
    } else {
        None
    }
}

/// Writes a point in time as an RFC 3339 timestamp in UTC.
pub fn timestamp(time: UnixTime) -> (text: Option<String>)
    ensures
        text_view(text) == timestamp_text(time),
{
    if time.secs <= i64::MAX as u64 {
        format_utc(time.secs as i64, time.nanos)
    } else {
        None
    }
}

} // verus!
