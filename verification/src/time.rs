//! Points in time, held as milliseconds since the Unix epoch, UTC.

use vstd::prelude::*;

verus! {

/// The instant that a text denotes, in milliseconds since the Unix epoch: what
/// chrono's `FromStr` for `DateTime<Utc>` reads from it (a relaxed RFC 3339),
/// taken through `DateTime::timestamp_millis`; `None` where chrono rejects
/// the text.
pub uninterp spec fn utc_millis(text: Seq<char>) -> Option<i64>;

/// `str::parse::<chrono::DateTime<chrono::Utc>>` followed by
/// `DateTime::timestamp_millis`. The result depends on the text alone.
#[verifier::external_body]
pub(crate) fn parse_utc_millis(text: &str) -> (r: Option<i64>)
    ensures
        r == utc_millis(text@),
{
    match text.parse::<chrono::DateTime<chrono::Utc>>() {
        Ok(t) => Some(t.timestamp_millis()),
        Err(_) => None,
    }
}

/// The patterns that times are written with.
pub open spec fn known_pattern(pattern: Seq<char>) -> bool {
    pattern == "%H:%M"@ || pattern == "%m/%d %H:%M"@ || pattern == "%Y-%m-%d %H:%M"@
}

/// What chrono writes for an instant, given in milliseconds since the
/// Unix epoch, in UTC and with a pattern: `DateTime::from_timestamp_millis`,
/// then `DateTime::format` and `to_string`; `None` where the instant lies
/// outside of what chrono can hold.
pub uninterp spec fn utc_text(millis: i64, pattern: Seq<char>) -> Option<Seq<char>>;

/// `chrono::DateTime::from_timestamp_millis`, then `DateTime::format`
/// with the pattern and `to_string`. The result depends on the arguments
/// alone. The patterns admitted are valid ones: with an invalid pattern
/// chrono's formatting fails.
#[verifier::external_body]
pub(crate) fn format_utc(millis: i64, pattern: &str) -> (r: Option<String>)
    requires
        known_pattern(pattern@),
    ensures
        crate::config::opt_view(r) == utc_text(millis, pattern@),
{
    match chrono::DateTime::from_timestamp_millis(millis) {
        Some(t) => Some(t.format(pattern).to_string()),
        None => None,
    }
}

/// The text of an optional instant, empty where there is none or it
/// cannot be written.
pub open spec fn time_text(millis: Option<i64>, pattern: Seq<char>) -> Seq<char> {
    match millis {
        Some(m) => match utc_text(m, pattern) {
            Some(t) => t,
            None => Seq::empty(),
        },
        None => Seq::empty(),
    }
}

/// The hour and minute of an instant, as `14:05`.
pub fn clock_time(millis: Option<i64>) -> (r: String)
    ensures
        r@ == time_text(millis, "%H:%M"@),
{
    match millis {
        Some(m) => match format_utc(m, "%H:%M") {
            Some(t) => t,
            None => String::new(),
        },
        None => String::new(),
    }
}

/// The day and the time of an instant, as `03/17 14:05`.
pub fn day_time(millis: Option<i64>) -> (r: String)
    ensures
        r@ == time_text(millis, "%m/%d %H:%M"@),
{
    match millis {
        Some(m) => match format_utc(m, "%m/%d %H:%M") {
            Some(t) => t,
            None => String::new(),
        },
        None => String::new(),
    }
}

/// The date and the time of an instant, as `2024-03-17 14:05`.
pub fn date_time(millis: Option<i64>) -> (r: String)
    ensures
        r@ == time_text(millis, "%Y-%m-%d %H:%M"@),
{
    match millis {
        Some(m) => match format_utc(m, "%Y-%m-%d %H:%M") {
            Some(t) => t,
            None => String::new(),
        },
        None => String::new(),
    }
}

} // verus!
