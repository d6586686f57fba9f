//! The time of day, and how it is written.

use vstd::prelude::*;

verus! {

/// A time as seconds and nanoseconds since the Unix epoch.
#[derive(Debug, Clone, Copy, PartialEq, Eq, Structural)]
pub struct UnixTime {
    pub secs: u64,
    pub nanos: u32,
}

/// The RFC 3339 text of a time in UTC, where the calendar reaches it.
pub uninterp spec fn rfc3339_text(secs: i64, nanos: u32) -> Option<Seq<char>>;

/// std's `SystemTime`: a reading of the system clock.
#[verifier::external_type_specification]
#[verifier::external_body]
pub struct ExSystemTime(std::time::SystemTime);

/// Reads the system clock with std's `SystemTime::now`. Nothing is claimed of
/// the reading.
#[verifier::external_body]
fn read_clock() -> (reading: std::time::SystemTime)
{
    std::time::SystemTime::now()
}

/// Measures a reading from `UNIX_EPOCH` with std's `SystemTime::duration_since`
/// and gives the seconds and nanoseconds of the duration. `None` where the
/// reading stands before the epoch. Nothing is claimed of the numbers.
#[verifier::external_body]
fn since_epoch(reading: std::time::SystemTime) -> (time: Option<UnixTime>)
{
    match reading.duration_since(std::time::UNIX_EPOCH) {
        Ok(elapsed) => Some(UnixTime { secs: elapsed.as_secs(), nanos: elapsed.subsec_nanos() }),
        Err(_) => None,
    }
}

/// The time now, and `None` where the system clock stands before the epoch.
pub(crate) fn now() -> (time: Option<UnixTime>)
{
    since_epoch(read_clock())
}

/// Writes a time with `chrono`: `DateTime::from_timestamp` makes the UTC time
/// of day, or nothing where the seconds or nanoseconds are out of its range,
/// and `to_rfc3339` writes it. The contract claims only that the text depends
/// on the two numbers alone.
#[verifier::external_body]
fn write_rfc3339(secs: i64, nanos: u32) -> (text: Option<String>)
    ensures
        text.deep_view() == rfc3339_text(secs, nanos),
{
    match chrono::DateTime::from_timestamp(secs, nanos) {
        Some(time) => Some(time.to_rfc3339()),
        None => None,
    }
}

/// The text of `time`: its RFC 3339 form in UTC, and none where the seconds
/// do not fit the calendar.
pub open spec fn timestamp_of(time: UnixTime) -> Option<Seq<char>> {
    if time.secs <= i64::MAX {
        rfc3339_text(time.secs as i64, time.nanos)
    } else {
        None
    }
}

/// Writes `time` in RFC 3339 form, in UTC.
pub fn timestamp(time: UnixTime) -> (text: Option<String>)
    ensures
        text.deep_view() == timestamp_of(time),
{
    if time.secs <= i64::MAX as u64 {
        write_rfc3339(time.secs as i64, time.nanos)
    } else {
        None
    }
}

} // verus!
