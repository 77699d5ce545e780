//! Wall-clock reads and date-time parsing, through the chrono crate.

use vstd::prelude::*;

verus! {

/// Relies on chrono::Utc::now and DateTime::format with the pattern
/// `%Y%m%d%H%M%S`: the current UTC time as exactly fourteen ASCII digits,
/// year through second, each field zero-padded. chrono writes the year as
/// four plain digits for years 1000 through 9999 and the five other fields
/// as two digits each; `Utc::now` panics on a system clock before the Unix
/// epoch, and a clock at year 10000 or later would widen the year field,
/// so this contract assumes a clock between the epoch and year 9999.
/// Which moment comes back depends on the clock; nothing is assumed of it
/// beyond the shape.
#[verifier::external_body]
pub(crate) fn current_timestamp() -> (r: String)
    ensures
        r@.len() == 14,
        crate::text::all_digits(r@),
{
    chrono::Utc::now().format("%Y%m%d%H%M%S").to_string()
}

/// What an API date-time string (month/day/year, twelve-hour clock, read as
/// UTC) denotes in seconds since the Unix epoch, or nothing when it is
/// malformed. Named here, computed by chrono: the result depends on the
/// characters alone.
pub uninterp spec fn api_timestamp_of(s: Seq<char>) -> Option<i64>;

/// Relies on chrono::DateTime::parse_from_str with the API's
/// month/day/year twelve-hour format, pinned to the UTC offset.
#[verifier::external_body]
pub(crate) fn parse_api_timestamp(s: &str) -> (r: Option<i64>)
    ensures
        r == api_timestamp_of(s@),
{
    let padded = format!("{s} +0000");
    match chrono::DateTime::parse_from_str(&padded, "%-m/%d/%Y %I:%M:%S %p %z") {
        Ok(dt) => Some(dt.timestamp()),
        Err(_) => None,
    }
}

} // verus!
