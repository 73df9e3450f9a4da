use vstd::prelude::*;

use crate::models::message::{CREATED_AT_MAX, CREATED_AT_MIN};
use crate::text::no_newline;

verus! {

/// What `chrono::DateTime::parse_from_rfc3339` yields for a string, taken
/// to UTC at second granularity: `None` where chrono rejects the string.
/// The result depends on the characters alone.
pub uninterp spec fn rfc3339_secs(s: Seq<char>) -> Option<i64>;

/// The civil rendering of an instant in UTC, `YYYY-MM-DD HH:MM:SS`, at
/// second granularity. The result depends on the seconds alone.
pub uninterp spec fn timestamp_display(secs: i64) -> Seq<char>;

/// The RFC 3339 rendering of an instant in UTC with a `Z` suffix, at
/// second granularity. The result depends on the seconds alone.
pub uninterp spec fn timestamp_rfc3339(secs: i64) -> Seq<char>;

/// Relies on `chrono::DateTime::parse_from_rfc3339` and
/// `chrono::DateTime::timestamp`: parses an RFC 3339 date-time string
/// with an explicit offset and normalizes it to UTC seconds since the
/// Unix epoch, dropping any sub-second part.
#[verifier::external_body]
pub(crate) fn parse_rfc3339_utc_secs(s: &str) -> (r: Option<i64>)
    ensures
        r == rfc3339_secs(s@),
{
    match chrono::DateTime::parse_from_rfc3339(s) {
        Ok(dt) => Some(dt.timestamp()),
        Err(_) => None,
    }
}

/// Relies on `chrono::DateTime::from_timestamp` and the `Display` of
/// `chrono::NaiveDateTime`: renders the instant as `YYYY-MM-DD HH:MM:SS`
/// in UTC, a single line with no newline in it.
#[verifier::external_body]
pub(crate) fn format_timestamp(secs: i64) -> (r: String)
    requires
        CREATED_AT_MIN <= secs <= CREATED_AT_MAX,
    ensures
        r@ == timestamp_display(secs),
        no_newline(r@),
{
    match chrono::DateTime::from_timestamp(secs, 0) {
        Some(dt) => format!("{}", dt.naive_utc()),
        None => String::new(),
    }
}

/// Relies on `chrono::DateTime::from_timestamp` and
/// `chrono::DateTime::to_rfc3339_opts`: renders the instant in RFC 3339
/// form in UTC with a `Z` suffix, a single line with no newline in it.
#[verifier::external_body]
pub(crate) fn format_timestamp_rfc3339(secs: i64) -> (r: String)
    requires
        CREATED_AT_MIN <= secs <= CREATED_AT_MAX,
    ensures
        r@ == timestamp_rfc3339(secs),
        no_newline(r@),
{
    match chrono::DateTime::from_timestamp(secs, 0) {
        Some(dt) => dt.to_rfc3339_opts(chrono::SecondsFormat::Secs, true),
        None => String::new(),
    }
}

} // verus!
