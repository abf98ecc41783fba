//! Instants in time, as plain numbers, and the reading of timestamps.

use std::fmt::Write;
use vstd::prelude::*;
use vstd::string::StringExecFns;
use crate::text::option_text;

verus! {

/// An instant in UTC: whole seconds since 1970-01-01 00:00:00 UTC and the
/// nanoseconds within the second.
#[derive(Debug, Clone, Copy, PartialEq, Eq, Structural)]
pub struct UtcTime {
    pub seconds: i64,
    pub nanos: u32,
}

/// The instant, as seconds and nanoseconds, that `chrono` reads from `text`
/// by `format`; `None` where the text does not fit the format.
pub uninterp spec fn parsed_instant(text: Seq<char>, format: Seq<char>) -> Option<(i64, u32)>;

/// Reads `text` with `chrono::DateTime::parse_from_str` by `format`, which
/// must name a UTC offset, and hands back the instant as `timestamp` and
/// `timestamp_subsec_nanos` give it. The contract only names the result.
#[verifier::external_body]
fn parse_instant(text: &str, format: &str) -> (r: Option<(i64, u32)>)
    ensures
        r == parsed_instant(text@, format@),
{
    match chrono::DateTime::parse_from_str(text, format) {
        Ok(t) => Some((t.timestamp(), t.timestamp_subsec_nanos())),
        Err(_) => None,
    }
}

/// The instant, as seconds and nanoseconds, that `chrono` reads from an
/// RFC 3339 date and time; `None` where the text is none.
pub uninterp spec fn parsed_rfc3339(text: Seq<char>) -> Option<(i64, u32)>;

/// Reads `text` with `chrono::DateTime::parse_from_rfc3339` and hands back
/// the instant as `timestamp` and `timestamp_subsec_nanos` give it. The
/// contract only names the result.
#[verifier::external_body]
fn parse_rfc3339_instant(text: &str) -> (r: Option<(i64, u32)>)
    ensures
        r == parsed_rfc3339(text@),
{
    match chrono::DateTime::parse_from_rfc3339(text) {
        Ok(t) => Some((t.timestamp(), t.timestamp_subsec_nanos())),
        Err(_) => None,
    }
}

/// The UTC offset under which the sheets record their timestamps.
pub const SHEET_OFFSET: &'static str = " -08:00";

/// The format of a sheet timestamp with the offset appended.
pub const SHEET_FORMAT: &'static str = "%m/%d/%Y %H:%M:%S  %:z";

/// The instant for what was read, if anything was.
pub open spec fn instant_of(parsed: Option<(i64, u32)>) -> Option<UtcTime> {
    match parsed {
        Some((seconds, nanos)) => Some(UtcTime { seconds, nanos }),
        None => None,
    }
}

/// The instant that a timestamp cell of a sheet stands for: the cell is a
/// local time, read under the sheet's fixed offset.
pub open spec fn sheet_instant(cell: Seq<char>) -> Option<UtcTime> {
    instant_of(parsed_instant(cell + SHEET_OFFSET@, SHEET_FORMAT@))
}

/// The instant that an RFC 3339 text stands for.
pub open spec fn rfc3339_instant(text: Seq<char>) -> Option<UtcTime> {
    instant_of(parsed_rfc3339(text))
}

/// The instant for what was read, if anything was.
pub fn instant_from(parsed: Option<(i64, u32)>) -> (r: Option<UtcTime>)
    ensures
        r == instant_of(parsed),
{
    match parsed {
        Some((seconds, nanos)) => Some(UtcTime { seconds, nanos }),
        None => None,
    }
}

/// Reads a timestamp cell of a sheet.
pub fn parse_sheet_timestamp(cell: &str) -> (r: Option<UtcTime>)
    ensures
        r == sheet_instant(cell@),
{
    let mut text = String::from_str(cell);
    text.append(SHEET_OFFSET);
    instant_from(parse_instant(text.as_str(), SHEET_FORMAT))
}

/// Reads an RFC 3339 date and time.
pub fn parse_rfc3339(text: &str) -> (r: Option<UtcTime>)
    ensures
        r == rfc3339_instant(text@),
{
    instant_from(parse_rfc3339_instant(text))
}

// ---------------------------------------------------------------------------
// Time that has passed, in words
// ---------------------------------------------------------------------------
/// The longest span, in seconds, that can be put in words.
pub const LONGEST_SPAN: i64 = 9_223_372_036_854_775;

/// The words that `chrono_humanize` finds for a span of `seconds`, such as
/// "3 days ago"; `None` where the span is longer than `LONGEST_SPAN`
/// either way.
pub uninterp spec fn humanized(seconds: i64) -> Option<Seq<char>>;

/// Makes a span of `seconds` with `chrono::TimeDelta::try_seconds` and puts
/// it in words with the `Display` of `chrono_humanize::HumanTime`. The
/// contract names the result and claims that there is one for every span
/// that `try_seconds` documents as within bounds.
#[verifier::external_body]
fn humanize(seconds: i64) -> (r: Option<String>)
    ensures
        option_text(r) == humanized(seconds),
        -LONGEST_SPAN <= seconds <= LONGEST_SPAN ==> r is Some,
{
    match chrono::TimeDelta::try_seconds(seconds) {
        Some(span) => Some(chrono_humanize::HumanTime::from(span).to_string()),
        None => None,
    }
}

/// The present instant. Wraps `chrono::Utc::now`; nothing is claimed of
/// what it gives.
#[verifier::external_body]
pub(crate) fn now() -> UtcTime {
    let now = chrono::Utc::now();
    UtcTime { seconds: now.timestamp(), nanos: now.timestamp_subsec_nanos() }
}

/// The nanoseconds from `now` to `then`, negative where `then` is past.
pub open spec fn nanos_between(then: UtcTime, now: UtcTime) -> int {
    (then.seconds - now.seconds) * 1_000_000_000 + (then.nanos - now.nanos)
}

/// The whole seconds between two instants, counted as time that has
/// passed: never positive, fractions of a second dropped, and no further
/// back than `LONGEST_SPAN`.
pub open spec fn elapsed_seconds(then: UtcTime, now: UtcTime) -> i64 {
    let total = nanos_between(then, now);
    let distance = if total < 0 {
        -total
    } else {
        total
    };
    let whole = distance / 1_000_000_000;
    if whole > LONGEST_SPAN {
        (-LONGEST_SPAN) as i64
    } else {
        (-whole) as i64
    }
}

/// The words for the time that has passed between `then` and `now`.
pub open spec fn elapsed_text(then: UtcTime, now: UtcTime) -> Seq<char> {
    humanized(elapsed_seconds(then, now))->0
}

/// The whole seconds between two instants, counted as time that has passed.
pub fn seconds_between(then: UtcTime, now: UtcTime) -> (r: i64)
    ensures
        r == elapsed_seconds(then, now),
        -LONGEST_SPAN <= r <= 0,
{
    let then_seconds: i128 = then.seconds as i128;
    let now_seconds: i128 = now.seconds as i128;
    let then_nanos: i128 = then.nanos as i128;
    let now_nanos: i128 = now.nanos as i128;
    let seconds: i128 = then_seconds - now_seconds;
    assert(-0x1_0000_0000_0000_0000 <= seconds <= 0x1_0000_0000_0000_0000);
    assert(seconds * 1_000_000_000 <= 0x1_0000_0000_0000_0000 * 1_000_000_000 && seconds
        * 1_000_000_000 >= -0x1_0000_0000_0000_0000 * 1_000_000_000) by (nonlinear_arith)
        requires
            -0x1_0000_0000_0000_0000 <= seconds <= 0x1_0000_0000_0000_0000,
    ;
    let total: i128 = seconds * 1_000_000_000 + (then_nanos - now_nanos);
    let distance: i128 = if total < 0 {
        -total
    } else {
        total
    };
    let whole: i128 = distance / 1_000_000_000;
    let limit: i128 = LONGEST_SPAN as i128;
    if whole > limit {
        -LONGEST_SPAN
    } else {
        let back: i128 = -whole;
        back as i64
    }
}

/// The words for the time that has passed between `then` and `now`.
pub fn humanize_elapsed(then: UtcTime, now: UtcTime) -> (r: String)
    ensures
        humanized(elapsed_seconds(then, now)) == Some(r@),
        r@ == elapsed_text(then, now),
{
    match humanize(seconds_between(then, now)) {
        Some(text) => text,
        None => String::new(),
    }
}

/// The words for the time that has passed since `then`. The present
/// instant is read from the clock, so the contract can only say that the
/// words are those for some present instant.
pub fn humanize_since(then: UtcTime) -> (r: String)
    ensures
        exists|now: UtcTime| r@ == elapsed_text(then, now),
{
    let present = now();
    let r = humanize_elapsed(then, present);
    assert(r@ == elapsed_text(then, present));
    r
}

// ---------------------------------------------------------------------------
// Calendar dates
// ---------------------------------------------------------------------------
/// A day of the calendar.
#[derive(Debug, Clone, Copy, PartialEq, Eq, Structural)]
pub struct Date {
    pub year: i32,
    pub month: u32,
    pub day: u32,
}

/// The day, as year, month and day of the month, that `chrono` reads from
/// `text` by `format`; `None` where the text does not fit the format or
/// names no day.
pub uninterp spec fn parsed_date(text: Seq<char>, format: Seq<char>) -> Option<(i32, u32, u32)>;

/// Reads `text` with `chrono::NaiveDate::parse_from_str` by `format` and
/// hands back the year, month and day of the date. The contract only names
/// the result.
#[verifier::external_body]
fn parse_naive_date(text: &str, format: &str) -> (r: Option<(i32, u32, u32)>)
    ensures
        r == parsed_date(text@, format@),
{
    match chrono::NaiveDate::parse_from_str(text, format) {
        Ok(d) => Some((chrono::Datelike::year(&d), chrono::Datelike::month(&d), chrono::Datelike::day(&d))),
        Err(_) => None,
    }
}

/// The text that `chrono` writes for a day by `format`; `None` where there
/// is no such day or the format cannot be written.
pub uninterp spec fn formatted_date(year: i32, month: u32, day: u32, format: Seq<char>) -> Option<
    Seq<char>,
>;

/// Makes the date with `chrono::NaiveDate::from_ymd_opt` and writes it with
/// `NaiveDate::format`. The contract only names the result.
#[verifier::external_body]
fn format_naive_date(year: i32, month: u32, day: u32, format: &str) -> (r: Option<String>)
    ensures
        option_text(r) == formatted_date(year, month, day, format@),
{
    let date = chrono::NaiveDate::from_ymd_opt(year, month, day)?;
    let mut text = String::new();
    write!(text, "{}", date.format(format)).ok()?;
    Some(text)
}

/// The format in which days are written: month, day and year between
/// slashes.
pub const DAY_FORMAT: &'static str = "%m/%d/%Y";

/// The day for what was read, if anything was.
pub open spec fn date_of(parsed: Option<(i32, u32, u32)>) -> Option<Date> {
    match parsed {
        Some((year, month, day)) => Some(Date { year, month, day }),
        None => None,
    }
}

/// The day that a text of the form month/day/year stands for.
pub open spec fn day_of(text: Seq<char>) -> Option<Date> {
    date_of(parsed_date(text, DAY_FORMAT@))
}

/// A day written as month/day/year, or nothing where there is no such
/// day.
pub open spec fn day_text(date: Date) -> Option<Seq<char>> {
    formatted_date(date.year, date.month, date.day, DAY_FORMAT@)
}

/// The day for what was read, if anything was.
pub fn date_from(parsed: Option<(i32, u32, u32)>) -> (r: Option<Date>)
    ensures
        r == date_of(parsed),
{
    match parsed {
        Some((year, month, day)) => Some(Date { year, month, day }),
        None => None,
    }
}

/// Reads a day written as month/day/year.
pub fn parse_day(text: &str) -> (r: Option<Date>)
    ensures
        r == day_of(text@),
{
    date_from(parse_naive_date(text, DAY_FORMAT))
}

/// Writes a day as month/day/year.
pub fn format_day(date: Date) -> (r: Option<String>)
    ensures
        option_text(r) == day_text(date),
{
    format_naive_date(date.year, date.month, date.day, DAY_FORMAT)
}

} // verus!
