//! The moment at which a challenge was issued.

use std::str::FromStr;
use vstd::prelude::*;

verus! {

/// A moment in UTC: the whole seconds since 1970-01-01T00:00:00Z, leap seconds
/// not counted, and the nanoseconds since that second began.
#[derive(Debug, Clone, Copy, PartialEq, Eq, Structural)]
pub struct Timestamp {
    pub seconds: i64,
    pub nanoseconds: u32,
}

/// What chrono reads out of `text` as a date and time with an offset: the
/// seconds and nanoseconds of that moment in UTC, or nothing where it refuses
/// the text.
pub uninterp spec fn chrono_moment(text: Seq<char>) -> Option<(i64, u32)>;

/// The moment that `text` denotes, where it denotes one.
pub open spec fn moment_of(text: Seq<char>) -> Option<Timestamp> {
    match chrono_moment(text) {
        Some((seconds, nanoseconds)) => Some(Timestamp { seconds, nanoseconds }),
        None => None,
    }
}

/// Calls chrono's `from_str` for `DateTime<Utc>`, which accepts a relaxed form
/// of RFC 3339, and reads the result with `timestamp` and
/// `timestamp_subsec_nanos`. The contract claims only that the result depends
/// on the text alone; what chrono accepts is not stated here.
#[verifier::external_body]
fn chrono_parse(text: &str) -> (parsed: Option<(i64, u32)>)
    ensures
        parsed == chrono_moment(text@),
{
    match chrono::DateTime::<chrono::Utc>::from_str(text) {
        Ok(moment) => Some((moment.timestamp(), moment.timestamp_subsec_nanos())),
        Err(_) => None,
    }
}

/// Reads `text` as a moment.
pub fn parse_moment(text: &str) -> (parsed: Option<Timestamp>)
    ensures
        parsed == moment_of(text@),
{
    match chrono_parse(text) {
        Some((seconds, nanoseconds)) => Some(Timestamp { seconds, nanoseconds }),
        None => None,
    }
}

} // verus!
