//! The wall clock, read through `chrono`. Its readings depend on the moment of the
//! call, so the contracts here state only what holds of every reading.

use vstd::prelude::*;

use crate::text::ends_with_spec;

verus! {

/// Calls `chrono::Utc::now()` and formats the instant with `DateTime::to_rfc3339`.
/// The date and time depend on the clock and are not stated; what holds of every
/// reading is: `chrono`'s `write_rfc3339` ends the text with the offset written with a
/// colon and without `Z`, which for UTC is `+00:00`.
#[verifier::external_body]
pub(crate) fn now_rfc3339() -> (r: String)
    ensures
        ends_with_spec(r@, "+00:00"@),
{
    chrono::Utc::now().to_rfc3339()
}

/// The last second that `chrono` can represent: 262142-12-31T23:59:59 UTC, in seconds
/// since the Unix epoch.
pub open spec fn latest_timestamp() -> int {
    8210266876799
}

/// Calls `chrono::Utc::now()` and returns `DateTime::timestamp`, the seconds since the
/// Unix epoch. The reading depends on the clock; what holds of every reading is stated:
/// `chrono`'s source makes `Utc::now` stop (`expect`) on a clock before the epoch and
/// (`unwrap` of `DateTime::from_timestamp`) on one past its last date, so a returned
/// value lies between zero and that last second.
#[verifier::external_body]
pub(crate) fn now_unix_seconds() -> (r: i64)
    ensures
        0 <= r <= latest_timestamp(),
{
    chrono::Utc::now().timestamp()
}

} // verus!
