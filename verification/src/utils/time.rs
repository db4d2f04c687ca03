use vstd::prelude::*;
use vstd::string::*;
use chrono::{Datelike, NaiveDate, Utc};
use crate::text::{push_signed_decimal, signed_decimal};

verus! {

/// The day number that chrono gives to the date which it reads from `text`
/// written in `format`, counted in days from 1 January of the year 1 as day
/// 1; `None` where chrono reads no date.
pub uninterp spec fn day_number_in(text: Seq<char>, format: Seq<char>) -> Option<int>;

/// Reads a date with chrono's `NaiveDate::parse_from_str`, in the format of
/// year, month and day, and hands out its day number
/// (`Datelike::num_days_from_ce`). The result depends on the text and the
/// format alone; the contract gives it its name and says no more.
#[verifier::external_body]
pub(crate) fn read_date(text: &str, format: &str) -> (day: Option<i32>)
    requires
        format@ == "%Y-%m-%d"@,
    ensures
        match day {
            Some(number) => day_number_in(text@, format@) == Some(number as int),
            None => day_number_in(text@, format@) is None,
        },
{
    match NaiveDate::parse_from_str(text, format) {
        Ok(date) => Some(date.num_days_from_ce()),
        Err(_) => None,
    }
}

/// The present moment by chrono's `Utc::now`, as the whole seconds since
/// the start of 1970 (`DateTime::timestamp`) and the nanoseconds into the
/// running second (`DateTime::timestamp_subsec_nanos`). Nothing is claimed
/// of it.
#[verifier::external_body]
pub(crate) fn now_utc() -> (i64, u32) {
    let now = Utc::now();
    (now.timestamp(), now.timestamp_subsec_nanos())
}

/// The day number of 1 January 1970.
pub const UNIX_EPOCH_DAY: i32 = 719_163;

/// The seconds in a day.
pub const SECONDS_PER_DAY: i64 = 86_400;

/// The whole seconds from midnight (UTC) of a day to a moment, counted
/// towards zero: a moment before that midnight counts one second less far
/// back for a second that has begun.
pub open spec fn whole_seconds_since(day: int, now_secs: int, now_nanos: int) -> int {
    let seconds = now_secs - (day - UNIX_EPOCH_DAY) * SECONDS_PER_DAY;
    if seconds < 0 && now_nanos > 0 {
        seconds + 1
    } else {
        seconds
    }
}

/// The whole days from midnight (UTC) of a day to a moment, counted
/// towards zero.
pub open spec fn whole_days_since(day: int, now_secs: int, now_nanos: int) -> int {
    truncated_div(whole_seconds_since(day, now_secs, now_nanos), SECONDS_PER_DAY as int)
}

/// The quotient of a division that rounds towards zero.
pub open spec fn truncated_div(a: int, b: int) -> int
    recommends
        b > 0,
{
    if a >= 0 {
        a / b
    } else {
        -((-a) / b)
    }
}

/// The remainder of a division that rounds towards zero: it has the sign of
/// what is divided.
pub open spec fn truncated_rem(a: int, b: int) -> int
    recommends
        b > 0,
{
    a - b * truncated_div(a, b)
}

/// A span of days in years of 365 days, months of 30 days, and days.
pub open spec fn age_parts(days: int) -> (int, int, int) {
    let remaining = truncated_rem(days, 365);
    (truncated_div(days, 365), truncated_div(remaining, 30), truncated_rem(remaining, 30))
}

/// A span of days as it is shown.
pub open spec fn age_text(days: int) -> Seq<char> {
    let parts = age_parts(days);
    signed_decimal(parts.0) + " years "@ + signed_decimal(parts.1) + " months "@ + signed_decimal(
        parts.2,
    ) + " days"@
}

/// Splits a span of days into years, months and days.
pub fn split_age(days: i64) -> (parts: (i64, i64, i64))
    ensures
        (parts.0 as int, parts.1 as int, parts.2 as int) == age_parts(days as int),
{
    let magnitude: u64 = if days >= 0 {
        days as u64
    } else if days == i64::MIN {
        9223372036854775808u64
    } else {
        (-days) as u64
    };
    let years = (magnitude / 365) as i64;
    let remaining_days = magnitude % 365;
    let months = (remaining_days / 30) as i64;
    let days_left = (remaining_days % 30) as i64;
    if days >= 0 {
        (years, months, days_left)
    } else {
        (-years, -months, -days_left)
    }
}

/// Writes a span of days as years, months and days.
pub fn age_in_words(days: i64) -> (text: String)
    ensures
        text@ == age_text(days as int),
{
    let (years, months, days_left) = split_age(days);
    let mut text = String::new();
    push_signed_decimal(&mut text, years);
    text.append(" years ");
    push_signed_decimal(&mut text, months);
    text.append(" months ");
    push_signed_decimal(&mut text, days_left);
    text.append(" days");
    assert(text@ =~= age_text(days as int));
    text
}

/// The age, at a moment, of what was made on a day, as it is shown.
pub open spec fn age_on(day: int, now_secs: i64, now_nanos: u32) -> Seq<char> {
    age_text(whole_days_since(day, now_secs as int, now_nanos as int))
}

/// Counts the whole days from midnight (UTC) of a day to a moment. The day
/// is given by its number, the moment by its seconds since the start of
/// 1970 and the nanoseconds into the running second.
pub fn days_since(day: i32, now_secs: i64, now_nanos: u32) -> (days: i64)
    ensures
        days == whole_days_since(day as int, now_secs as int, now_nanos as int),
{
    let midnight: i128 = (day as i128 - 719_163) * 86_400;
    let seconds: i128 = now_secs as i128 - midnight;
    let whole: i128 = if seconds < 0 && now_nanos > 0 {
        seconds + 1
    } else {
        seconds
    };
    if whole >= 0 {
        (whole / 86_400) as i64
    } else {
        let back: i128 = -whole;
        (-(back / 86_400)) as i64
    }
}

/// The age, at a moment, of what was made on a day, in words.
pub fn age_at(day: i32, now_secs: i64, now_nanos: u32) -> (age: String)
    ensures
        age@ == age_on(day as int, now_secs, now_nanos),
{
    age_in_words(days_since(day, now_secs, now_nanos))
}

/// The age of what was made on `date`, a text that begins with the day as
/// year, month and day with `-` between them. The age is counted in whole
/// days from midnight (UTC) of that day to the present moment. `None` where
/// the text is shorter than ten characters or begins with no such day.
pub fn date_diff(date: &str) -> (age: Option<String>)
    ensures
        age is Some <==> date@.len() >= 10 && day_number_in(date@.take(10), "%Y-%m-%d"@) is Some,
        age is Some ==> exists|now_secs: i64, now_nanos: u32|
            age->0@ == #[trigger] age_on(
                day_number_in(date@.take(10), "%Y-%m-%d"@)->0,
                now_secs,
                now_nanos,
            ),
{
    if date.unicode_len() < 10 {
        return None;
    }
    let day_text = date.substring_char(0, 10);
    assert(day_text@ =~= date@.take(10));
    match read_date(day_text, "%Y-%m-%d") {
        Some(day) => {
            let (now_secs, now_nanos) = now_utc();
            let age = age_at(day, now_secs, now_nanos);
            assert(age@ == age_on(
                day_number_in(date@.take(10), "%Y-%m-%d"@)->0,
                now_secs,
                now_nanos,
            ));
            Some(age)
        },
        None => None,
    }
}

} // verus!
