//! Points in time, as the library measures them.
//!
//! A point in time is the number of milliseconds that have passed since the
//! start of 1970 in UTC, leap seconds not counted. Spans are whole seconds.

use vstd::prelude::*;

verus! {

/// A point in time: milliseconds since 1970-01-01T00:00:00Z.
pub type Timestamp = i64;

/// The milliseconds in one second.
pub const MILLIS_PER_SECOND: i64 = 1000;

/// The point in time that an RFC 3339 text names, or `None` where the text
/// is not a date and time in that format.
pub uninterp spec fn rfc3339_millis(text: Seq<char>) -> Option<Timestamp>;

/// Reads the clock with `chrono::Utc::now` and converts with
/// `DateTime::timestamp_millis`. Nothing is claimed of the value: it is
/// whatever the system's clock says.
#[verifier::external_body]
pub(crate) fn now_millis() -> (now: Timestamp) {
    chrono::Utc::now().timestamp_millis()
}

/// Parses a date and time with `chrono::DateTime::parse_from_rfc3339` and
/// converts what was parsed with `DateTime::timestamp_millis`. The outcome
/// depends on the text alone.
#[verifier::external_body]
pub(crate) fn parse_rfc3339(text: &str) -> (parsed: Option<Timestamp>)
    ensures
        parsed == rfc3339_millis(text@),
{
    chrono::DateTime::parse_from_rfc3339(text).ok().map(|moment| moment.timestamp_millis())
}

/// The point in time `seconds` before `moment`, or the earliest point that
/// can be told where that lies further back.
pub open spec fn seconds_before(moment: Timestamp, seconds: u64) -> Timestamp {
    if moment - seconds * MILLIS_PER_SECOND >= i64::MIN {
        (moment - seconds * MILLIS_PER_SECOND) as i64
    } else {
        i64::MIN
    }
}

/// The point in time `seconds` before `moment`, held at the earliest point
/// that can be told.
pub fn cutoff_before(moment: Timestamp, seconds: u64) -> (cutoff: Timestamp)
    ensures
        cutoff == seconds_before(moment, seconds),
{
    let span: i128 = (seconds as i128) * 1000;
    let wide: i128 = (moment as i128) - span;
    if wide >= i64::MIN as i128 {
        wide as i64
    } else {
        i64::MIN
    }
}

} // verus!
