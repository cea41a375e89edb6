//! Calendar text through `chrono`.
//!
//! Reading and writing calendar text is `chrono`'s work; the library names
//! what each call returns, since the answer depends on its arguments alone.
use vstd::prelude::*;

verus! {

/// Unix seconds of an RFC 3339 date-time text (`DateTime::parse_from_rfc3339`
/// then `timestamp`), or `None` when the text is not RFC 3339.
pub uninterp spec fn rfc3339_seconds(text: Seq<char>) -> Option<i64>;

/// Unix seconds of a date-time text without offset, read with `pattern` and
/// taken as UTC (`NaiveDateTime::parse_from_str`, `and_utc`, `timestamp`), or
/// `None` when the text does not match.
pub uninterp spec fn naive_utc_seconds(text: Seq<char>, pattern: Seq<char>) -> Option<i64>;

/// The UTC calendar text of Unix seconds written with `pattern`
/// (`DateTime::from_timestamp(seconds, 0)`, `format`, `to_string`), or `None`
/// when the seconds are out of `chrono`'s range.
pub uninterp spec fn utc_calendar_text(seconds: i64, pattern: Seq<char>) -> Option<Seq<char>>;

/// Pattern of calendar text shown to people.
pub open spec fn display_pattern() -> Seq<char> {
    "%Y-%m-%d %H:%M:%S UTC"@
}

/// `chrono::DateTime::parse_from_rfc3339(text)`, as Unix seconds.
#[verifier::external_body]
pub(crate) fn parse_rfc3339_seconds(text: &str) -> (r: Option<i64>)
    ensures
        r == rfc3339_seconds(text@),
{
    match chrono::DateTime::parse_from_rfc3339(text) {
        Ok(t) => Some(t.timestamp()),
        Err(_) => None,
    }
}

/// `chrono::NaiveDateTime::parse_from_str(text, pattern)`, read as UTC, as
/// Unix seconds.
#[verifier::external_body]
pub(crate) fn parse_naive_utc_seconds(text: &str, pattern: &str) -> (r: Option<i64>)
    ensures
        r == naive_utc_seconds(text@, pattern@),
{
    match chrono::NaiveDateTime::parse_from_str(text, pattern) {
        Ok(t) => Some(t.and_utc().timestamp()),
        Err(_) => None,
    }
}

/// `chrono::DateTime::from_timestamp(seconds, 0)` written with the display
/// pattern (a pattern `chrono` can always write, so `to_string` cannot fail).
#[verifier::external_body]
pub(crate) fn format_utc_seconds(seconds: i64, pattern: &str) -> (r: Option<String>)
    requires
        pattern@ == display_pattern(),
    ensures
        match r {
            Some(s) => utc_calendar_text(seconds, pattern@) == Some(s@),
            None => utc_calendar_text(seconds, pattern@) is None,
        },
{
    match chrono::DateTime::from_timestamp(seconds, 0) {
        Some(t) => Some(t.format(pattern).to_string()),
        None => None,
    }
}

} // verus!
