//! Calendar dates: when a token expires.

use crate::json;
use vstd::prelude::*;

verus! {

broadcast use vstd::string::group_string_axioms;

/// The day that `chrono::NaiveDate::parse_from_str` reads from a text as `%Y-%m-%d`, counted
/// from the first day of the common era.
pub uninterp spec fn day_of(source: Seq<char>) -> Option<i32>;

/// The text that `chrono::NaiveDate` writes for a day counted from the first day of the common
/// era.
pub uninterp spec fn day_text(day: i32) -> Option<Seq<char>>;

/// `chrono::NaiveDate::parse_from_str` with the format `%Y-%m-%d`: whether the text is a date,
/// and the number of its day, is named by [`day_of`].
#[verifier::external_body]
pub(crate) fn parse_day(source: &str) -> (result: Option<i32>)
    ensures
        result == day_of(source@),
{
    chrono::NaiveDate::parse_from_str(source, "%Y-%m-%d")
        .ok()
        .map(|date| chrono::Datelike::num_days_from_ce(&date))
}

/// `chrono::NaiveDate::from_num_days_from_ce_opt`: the date of a day, as it is written, is
/// named by [`day_text`].
#[verifier::external_body]
pub(crate) fn write_day(day: i32) -> (result: Option<String>)
    ensures
        json::opt_view(result) == day_text(day),
{
    chrono::NaiveDate::from_num_days_from_ce_opt(day).map(|date| date.to_string())
}

/// Whether a text is a date.
pub fn is_date(source: &str) -> (result: bool)
    ensures
        result == (day_of(source@) is Some),
{
    parse_day(source).is_some()
}

/// What a number of days until the last day of a token means.
pub open spec fn standing(days: int) -> Seq<char> {
    if days < 0 {
        "expired"@
    } else if days <= 30 {
        "expiring-soon"@
    } else {
        "valid"@
    }
}

/// What a last day means today.
pub fn standing_of(last: i32, today: i32) -> (result: &'static str)
    ensures
        result@ == standing(last - today),
{
    let days: i64 = last as i64 - today as i64;
    if days < 0 {
        "expired"
    } else if days <= 30 {
        "expiring-soon"
    } else {
        "valid"
    }
}

/// How a token stands: unknown without a date, invalid where the text is no date.
pub open spec fn status_spec(expires_at: Option<Seq<char>>, today: i32) -> Seq<char> {
    match expires_at {
        None => "unknown"@,
        Some(value) => match day_of(value) {
            None => "invalid"@,
            Some(day) => standing(day - today),
        },
    }
}

/// How a token stands today.
pub fn expiration_status(expires_at: Option<&str>, today: i32) -> (result: &'static str)
    ensures
        result@ == status_spec(json::opt_str_view(expires_at), today),
{
    match expires_at {
        None => "unknown",
        Some(value) => match parse_day(value) {
            None => "invalid",
            Some(day) => standing_of(day, today),
        },
    }
}

/// The date a number of days from today, where the calendar reaches that far.
pub fn expiration_date(today: i32, days: u64) -> (result: Option<String>)
    ensures
        json::opt_view(result) == if today + days <= i32::MAX {
            day_text((today + days) as i32)
        } else {
            None
        },
{
    let day: i128 = today as i128 + days as i128;
    if day <= 0x7fff_ffff {
        write_day(day as i32)
    } else {
        None
    }
}

} // verus!
