//! Instants: milliseconds since the Unix epoch in UTC, the current one and
//! their calendar dates.

use vstd::prelude::*;

verus! {

/// The calendar date of an instant in UTC, written as year, month and day
/// with hyphens between them, as `chrono` formats it with `%Y-%m-%d`.
/// `None` for an instant that `chrono` cannot represent.
pub uninterp spec fn utc_date_text(millis: i64) -> Option<Seq<char>>;

/// Calls `chrono::DateTime::from_timestamp_millis` and, on the instant it
/// gives, `format("%Y-%m-%d")`. Trusted: the outcome is a function of the
/// argument alone; it is `None` exactly where `chrono` has no such instant.
#[verifier::external_body]
pub(crate) fn utc_date(millis: i64) -> (r: Option<String>)
    ensures
        match r {
            Some(s) => utc_date_text(millis) == Some(s@),
            None => utc_date_text(millis) is None,
        },
{
    match chrono::DateTime::from_timestamp_millis(millis) {
        Some(instant) => Some(instant.format("%Y-%m-%d").to_string()),
        None => None,
    }
}

/// Calls `chrono::Utc::now` and `timestamp_millis` on what it gives.
/// Trusted only in that it returns: nothing is claimed of the clock. The
/// call stops the program where the system clock stands before the epoch.
#[verifier::external_body]
pub(crate) fn now_millis() -> (r: i64)
{
    chrono::Utc::now().timestamp_millis()
}

} // verus!
