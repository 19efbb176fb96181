//! Trusted shim over chrono: timestamp parsing.
//!
//! The library never reads the wall clock itself: every time-dependent
//! decision takes the clock reading as an argument, so it is verified for
//! every possible reading.

use vstd::prelude::*;

verus! {

/// The epoch-seconds value that an ISO-8601 / RFC 3339 timestamp string
/// denotes, or `None` where the string is not such a timestamp.  The result
/// depends on the string alone.
pub uninterp spec fn timestamp_of(s: Seq<char>) -> Option<i64>;

/// Relies on `chrono::DateTime::parse_from_rfc3339` and
/// `chrono::DateTime::timestamp`: parsing an RFC 3339 timestamp and reading
/// it as seconds since the epoch depend on the input string alone.
#[verifier::external_body]
pub fn parse_timestamp(s: &str) -> (r: Option<i64>)
    ensures
        r == timestamp_of(s@),
{
    match chrono::DateTime::parse_from_rfc3339(s) {
        Ok(dt) => Some(dt.timestamp()),
        Err(_) => None,
    }
}

} // verus!
