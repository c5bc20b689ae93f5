//! The timestamp codec: epoch timestamps to calendar strings and back.
//!
//! A calendar string has the form `YYYY-MM-DDThh:mm:ss[.fffffffff]Z`. It is
//! always UTC, and the fraction is written only where it is not zero.

use crate::calendar::{
    civil_from_days, date_of_day, day_number, days_in_month, days_to_month, days_to_year,
    lemma_days_before_month_nonnegative, lemma_days_before_year_bounds, month_length, CivilDate,
    MAX_YEAR, SECONDS_PER_DAY,
};
use crate::scan::{
    find_char, parse_fraction, parse_int, pieces, split_chars, strip_trailing_char, sub_vec, trim,
};
use crate::text::{
    chars_of, first_index, fraction_nanos, push_signed_decimal, push_zero_padded,
    signed_decimal, signed_text_value, split, string_of, strip_trailing, trimmed, zero_padded,
};
use vstd::prelude::*;
use vstd::string::StringExecFns;

verus! {

/// An epoch timestamp: whole seconds since 1970-01-01T00:00:00Z and the
/// nanoseconds of the second that has begun.
#[derive(Clone, Copy, Debug, PartialEq, Eq, Structural)]
pub struct Timestamp {
    pub seconds: i64,
    pub nanos: i32,
}

impl Timestamp {
    /// The timestamp lies at or after the epoch and its nanoseconds are
    /// less than a second: the domain of the calendar form.
    pub open spec fn has_calendar_form(&self) -> bool {
        self.seconds >= 0 && 0 <= self.nanos <= 999_999_999
    }
}

/// Why a calendar string was not accepted, with the text of the part at
/// fault.
#[derive(Clone, Debug, PartialEq, Eq)]
pub enum ParseError {
    /// The date does not have three parts.
    InvalidDate(String),
    /// The year is not a number.
    InvalidYear(String),
    /// The month is not a number from 1 to 12.
    InvalidMonth(String),
    /// The day is not a number, or the month has no such day.
    InvalidDay(String),
    /// The fraction holds something other than digits.
    InvalidNanos(String),
    /// The hour is written and is not a number.
    InvalidHour(String),
    /// The minute is written and is not a number.
    InvalidMinute(String),
    /// The second is written and is not a number.
    InvalidSecond(String),
    /// The seconds since the epoch do not fit in 64 bits.
    OutOfRange,
}

/// `ParseError` with its texts as character sequences.
pub enum ParseFailure {
    InvalidDate(Seq<char>),
    InvalidYear(Seq<char>),
    InvalidMonth(Seq<char>),
    InvalidDay(Seq<char>),
    InvalidNanos(Seq<char>),
    InvalidHour(Seq<char>),
    InvalidMinute(Seq<char>),
    InvalidSecond(Seq<char>),
    OutOfRange,
}

impl View for ParseError {
    type V = ParseFailure;

    open spec fn view(&self) -> ParseFailure {
        match self {
            ParseError::InvalidDate(t) => ParseFailure::InvalidDate(t@),
            ParseError::InvalidYear(t) => ParseFailure::InvalidYear(t@),
            ParseError::InvalidMonth(t) => ParseFailure::InvalidMonth(t@),
            ParseError::InvalidDay(t) => ParseFailure::InvalidDay(t@),
            ParseError::InvalidNanos(t) => ParseFailure::InvalidNanos(t@),
            ParseError::InvalidHour(t) => ParseFailure::InvalidHour(t@),
            ParseError::InvalidMinute(t) => ParseFailure::InvalidMinute(t@),
            ParseError::InvalidSecond(t) => ParseFailure::InvalidSecond(t@),
            ParseError::OutOfRange => ParseFailure::OutOfRange,
        }
    }
}

impl ParseFailure {
    /// The message of the failure: what was invalid, then the text at fault.
    pub open spec fn message(self) -> Seq<char> {
        match self {
            ParseFailure::InvalidDate(t) => "invalid date: "@ + t,
            ParseFailure::InvalidYear(t) => "invalid year: "@ + t,
            ParseFailure::InvalidMonth(t) => "invalid month: "@ + t,
            ParseFailure::InvalidDay(t) => "invalid day: "@ + t,
            ParseFailure::InvalidNanos(t) => "invalid nanos: "@ + t,
            ParseFailure::InvalidHour(t) => "invalid hour: "@ + t,
            ParseFailure::InvalidMinute(t) => "invalid minute: "@ + t,
            ParseFailure::InvalidSecond(t) => "invalid second: "@ + t,
            ParseFailure::OutOfRange => "timestamp out of range"@,
        }
    }
}

impl ParseError {
    /// The error as a message that names the part at fault.
    pub fn message(&self) -> (r: String)
        ensures
            r@ == self@.message(),
    {
        match self {
            ParseError::InvalidDate(t) => labelled("invalid date: ", t),
            ParseError::InvalidYear(t) => labelled("invalid year: ", t),
            ParseError::InvalidMonth(t) => labelled("invalid month: ", t),
            ParseError::InvalidDay(t) => labelled("invalid day: ", t),
            ParseError::InvalidNanos(t) => labelled("invalid nanos: ", t),
            ParseError::InvalidHour(t) => labelled("invalid hour: ", t),
            ParseError::InvalidMinute(t) => labelled("invalid minute: ", t),
            ParseError::InvalidSecond(t) => labelled("invalid second: ", t),
            ParseError::OutOfRange => "timestamp out of range".to_owned(),
        }
    }
}

/// `label` followed by `text`.
fn labelled(label: &str, text: &String) -> (r: String)
    ensures
        r@ == label@ + text@,
{
    let mut out = label.to_owned();
    out.append(text.as_str());
    out
}

/// The date `YYYY-MM-DD`, the year with at least four digits.
pub open spec fn date_text(year: int, month: int, day: int) -> Seq<char> {
    zero_padded(year as nat, 4) + seq!['-'] + zero_padded(month as nat, 2) + seq!['-']
        + zero_padded(day as nat, 2)
}

/// The time of day `hh:mm:ss`.
pub open spec fn clock_text(hours: int, minutes: int, seconds: int) -> Seq<char> {
    zero_padded(hours as nat, 2) + seq![':'] + zero_padded(minutes as nat, 2) + seq![':']
        + zero_padded(seconds as nat, 2)
}

/// The fraction of a second: nothing for zero, else a point and nine digits.
pub open spec fn fraction_text(nanos: int) -> Seq<char> {
    if nanos > 0 {
        seq!['.'] + zero_padded(nanos as nat, 9)
    } else {
        Seq::empty()
    }
}

/// The calendar string of a timestamp at or after the epoch.
pub open spec fn calendar_text(seconds: int, nanos: int) -> Seq<char> {
    let date = date_of_day(seconds / 86_400);
    let time = seconds % 86_400;
    date_text(date.year as int, date.month as int, date.day as int) + seq!['T'] + (clock_text(
        time / 3600,
        (time % 3600) / 60,
        time % 60,
    ) + fraction_text(nanos)) + seq!['Z']
}

/// What stands for a timestamp outside the calendar form's domain: its two
/// numbers, marked `s` and `ns`. It cannot be mistaken for a date.
pub open spec fn fallback_text(seconds: int, nanos: int) -> Seq<char> {
    signed_decimal(seconds) + seq!['s'] + signed_decimal(nanos) + seq!['n', 's']
}

/// The text of a timestamp: its calendar string where it has one.
pub open spec fn timestamp_text(ts: Timestamp) -> Seq<char> {
    if ts.has_calendar_form() {
        calendar_text(ts.seconds as int, ts.nanos as int)
    } else {
        fallback_text(ts.seconds as int, ts.nanos as int)
    }
}

/// The part of `s` before the first `sep` and the part after it, where
/// `sep` occurs.
pub open spec fn split_once(s: Seq<char>, sep: char) -> Option<(Seq<char>, Seq<char>)> {
    let i = first_index(s, sep);
    if 0 <= i < s.len() {
        Some((s.take(i), s.skip(i + 1)))
    } else {
        None
    }
}

/// The date and the time of day in `s`: they are parted by the first `T`
/// or, where there is none, by the first blank. Without either, all of `s`
/// is the date and the time of day is empty.
pub open spec fn date_and_time(s: Seq<char>) -> (Seq<char>, Seq<char>) {
    match split_once(s, 'T') {
        Some(parts) => parts,
        None => match split_once(s, ' ') {
            Some(parts) => parts,
            None => (s, Seq::empty()),
        },
    }
}

/// The whole-second part of a time of day: what stands before the first
/// point.
pub open spec fn clock_part(time: Seq<char>) -> Seq<char> {
    match split_once(time, '.') {
        Some(parts) => parts.0,
        None => time,
    }
}

/// The fraction of a time of day: what stands behind the first point;
/// nothing where there is no point.
pub open spec fn fraction_part(time: Seq<char>) -> Seq<char> {
    match split_once(time, '.') {
        Some(parts) => parts.1,
        None => Seq::empty(),
    }
}

/// The nanoseconds of a time of day: 0 without a fraction, else what the
/// fraction's digits denote. `None` where the fraction is not made of
/// digits.
pub open spec fn time_nanos(time: Seq<char>) -> Option<int> {
    fraction_nanos(fraction_part(time))
}

/// The text of field `i` of a time of day; nothing where the time of day
/// has no such field.
pub open spec fn clock_field_text(fields: Seq<Seq<char>>, i: int) -> Seq<char> {
    if 0 <= i < fields.len() {
        fields[i]
    } else {
        Seq::empty()
    }
}

/// Field `i` of a time of day: 0 where the field is missing or empty, the
/// integer it denotes where it is written, and `None` where it is written
/// and denotes none. A written field is any integer, with or without a
/// sign: it is not held to the range of a clock.
pub open spec fn clock_field(fields: Seq<Seq<char>>, i: int) -> Option<int> {
    if clock_field_text(fields, i).len() == 0 {
        Some(0)
    } else {
        signed_text_value(clock_field_text(fields, i))
    }
}

/// The month that `field` denotes, from 1 to 12.
pub open spec fn month_value(field: Seq<char>) -> Option<int> {
    match signed_text_value(field) {
        Some(m) => if 1 <= m <= 12 {
            Some(m)
        } else {
            None
        },
        None => None,
    }
}

/// The day that `field` denotes, where the month has such a day.
pub open spec fn day_value(field: Seq<char>, year: int, month: int) -> Option<int> {
    match signed_text_value(field) {
        Some(d) => if 1 <= d <= month_length(year, month) {
            Some(d)
        } else {
            None
        },
        None => None,
    }
}

/// Seconds from the epoch to the given date and time of day.
pub open spec fn epoch_seconds(
    year: int,
    month: int,
    day: int,
    hours: int,
    minutes: int,
    seconds: int,
) -> int {
    day_number(year, month, day) * 86_400 + hours * 3600 + minutes * 60 + seconds
}

/// What a date and a time of day denote together.
///
/// The date must have three parts: a year, a month from 1 to 12 and a day
/// that the month has. An hour, minute or second that is missing or empty
/// counts as 0; one that is written must be a number. Fields of the time
/// of day beyond the third are not read. The first fault found, in the
/// order date, year, month, day, fraction, hour, minute, second, range, is
/// the error.
///
/// The hour, the minute and the second are added as they stand: `25:61:61`
/// is 25 hours, 61 minutes and 61 seconds after midnight, and `-1:00:00`
/// is one hour before it.
pub open spec fn decode_parts(date_part: Seq<char>, time_part: Seq<char>) -> Result<
    Timestamp,
    ParseFailure,
> {
    let date = split(date_part, '-');
    if date.len() != 3 {
        Err(ParseFailure::InvalidDate(date_part))
    } else {
        match signed_text_value(date[0]) {
            None => Err(ParseFailure::InvalidYear(date[0])),
            Some(year) => match month_value(date[1]) {
                None => Err(ParseFailure::InvalidMonth(date[1])),
                Some(month) => match day_value(date[2], year, month) {
                    None => Err(ParseFailure::InvalidDay(date[2])),
                    Some(day) => match time_nanos(time_part) {
                        None => Err(ParseFailure::InvalidNanos(fraction_part(time_part))),
                        Some(nanos) => decode_clock(
                            day_number(year, month, day),
                            split(clock_part(time_part), ':'),
                            nanos,
                        ),
                    },
                },
            },
        }
    }
}

/// What the fields of a time of day denote on day `days`, with the
/// nanoseconds `nanos`.
pub open spec fn decode_clock(days: int, clock: Seq<Seq<char>>, nanos: int) -> Result<
    Timestamp,
    ParseFailure,
> {
    match clock_field(clock, 0) {
        None => Err(ParseFailure::InvalidHour(clock_field_text(clock, 0))),
        Some(hours) => match clock_field(clock, 1) {
            None => Err(ParseFailure::InvalidMinute(clock_field_text(clock, 1))),
            Some(minutes) => match clock_field(clock, 2) {
                None => Err(ParseFailure::InvalidSecond(clock_field_text(clock, 2))),
                Some(seconds) => {
                    let total = days * 86_400 + hours * 3600 + minutes * 60 + seconds;
                    if i64::MIN <= total <= i64::MAX {
                        Ok(Timestamp { seconds: total as i64, nanos: nanos as i32 })
                    } else {
                        Err(ParseFailure::OutOfRange)
                    }
                },
            },
        },
    }
}

/// What a calendar string denotes: white space around it and any `Z` at
/// its end are dropped, then its date and its time of day are read.
pub open spec fn decode_text(text: Seq<char>) -> Result<Timestamp, ParseFailure> {
    let body = strip_trailing(trimmed(text), 'Z');
    decode_parts(date_and_time(body).0, date_and_time(body).1)
}

/// Appends the date `YYYY-MM-DD` to `out`.
fn push_date(out: &mut Vec<char>, date: &CivilDate)
    requires
        date.year >= 0,
        date.month >= 0,
        date.day >= 0,
    ensures
        final(out)@ == old(out)@ + date_text(date.year as int, date.month as int, date.day as int),
{
    push_zero_padded(out, date.year as u64, 4);
    out.push('-');
    push_zero_padded(out, date.month as u64, 2);
    out.push('-');
    push_zero_padded(out, date.day as u64, 2);
    assert(final(out)@ =~= old(out)@ + date_text(
        date.year as int,
        date.month as int,
        date.day as int,
    ));
}

/// Appends the time of day `hh:mm:ss` to `out`.
fn push_clock(out: &mut Vec<char>, hours: i64, minutes: i64, seconds: i64)
    requires
        hours >= 0,
        minutes >= 0,
        seconds >= 0,
    ensures
        final(out)@ == old(out)@ + clock_text(hours as int, minutes as int, seconds as int),
{
    push_zero_padded(out, hours as u64, 2);
    out.push(':');
    push_zero_padded(out, minutes as u64, 2);
    out.push(':');
    push_zero_padded(out, seconds as u64, 2);
    assert(final(out)@ =~= old(out)@ + clock_text(hours as int, minutes as int, seconds as int));
}

/// Appends the fraction of a second to `out`: nothing where it is zero.
fn push_fraction(out: &mut Vec<char>, nanos: i32)
    requires
        nanos >= 0,
    ensures
        final(out)@ == old(out)@ + fraction_text(nanos as int),
{
    if nanos > 0 {
        out.push('.');
        push_zero_padded(out, nanos as u64, 9);
    }
    assert(final(out)@ =~= old(out)@ + fraction_text(nanos as int));
}

/// The calendar string of `ts`: `YYYY-MM-DDThh:mm:ss[.fffffffff]Z`.
///
/// A timestamp before the epoch, or with nanoseconds that are no part of a
/// second, has no calendar string and gives `<seconds>s<nanos>ns` instead.
pub fn timestamp_to_iso(ts: &Timestamp) -> (r: String)
    ensures
        r@ == timestamp_text(*ts),
{
    let mut out: Vec<char> = Vec::new();
    if ts.seconds < 0 || ts.nanos < 0 || ts.nanos > 999_999_999 {
        push_signed_decimal(&mut out, ts.seconds);
        out.push('s');
        push_signed_decimal(&mut out, ts.nanos as i64);
        out.push('n');
        out.push('s');
        assert(out@ =~= fallback_text(ts.seconds as int, ts.nanos as int));
        return string_of(&out);
    }
    let days: i64 = ts.seconds / SECONDS_PER_DAY;
    let time: i64 = ts.seconds % SECONDS_PER_DAY;
    let date = civil_from_days(days);
    push_date(&mut out, &date);
    out.push('T');
    push_clock(&mut out, time / 3600, (time % 3600) / 60, time % 60);
    push_fraction(&mut out, ts.nanos);
    out.push('Z');
    assert(out@ =~= calendar_text(ts.seconds as int, ts.nanos as int));
    string_of(&out)
}

/// The part of `v` before the first `sep` and the part after it, where
/// `sep` occurs.
fn split_at_first(v: &Vec<char>, sep: char) -> (r: Option<(Vec<char>, Vec<char>)>)
    ensures
        match r {
            Some(parts) => split_once(v@, sep) == Some((parts.0@, parts.1@)),
            None => split_once(v@, sep) is None,
        },
{
    let i = find_char(v, sep);
    if i < v.len() {
        let before = sub_vec(v, 0, i);
        let after = sub_vec(v, i + 1, v.len());
        assert(before@ =~= v@.take(i as int));
        assert(after@ =~= v@.skip(i + 1));
        Some((before, after))
    } else {
        None
    }
}

/// Field `i` of a time of day: 0 where it is missing or empty, else the
/// number that is written, or the text of the field where it is none.
fn clock_value(fields: &Vec<Vec<char>>, i: usize) -> (r: Result<i64, String>)
    ensures
        match r {
            Ok(v) => clock_field(pieces(fields@), i as int) == Some(v as int),
            Err(text) => clock_field(pieces(fields@), i as int) is None && text@
                == clock_field_text(pieces(fields@), i as int),
        },
{
    if i < fields.len() {
        assert(pieces(fields@)[i as int] == fields@[i as int]@);
        if fields[i].len() == 0 {
            return Ok(0);
        }
        match parse_int(&fields[i]) {
            Some(v) => Ok(v),
            None => Err(string_of(&fields[i])),
        }
    } else {
        Ok(0)
    }
}

/// The timestamp that the calendar string `s` denotes.
///
/// Accepted are `YYYY-MM-DDThh:mm:ss[.fraction]` and `YYYY-MM-DD hh:mm:ss`,
/// with or without `Z` at the end and white space around. A fraction of any
/// length is cut or padded to nanoseconds. A month outside 1 to 12 and a
/// day that the month does not have are errors; they are never carried over
/// into the next month or year. An hour, minute or second may be left out
/// and then counts as 0; one that is written and is no number is an error.
/// The three are not held to the range of a clock: each is added as it
/// stands, so that `25:61:61` and `-1:00:00` are accepted.
pub fn parse_iso_timestamp(s: &str) -> (r: Result<Timestamp, ParseError>)
    ensures
        match r {
            Ok(ts) => decode_text(s@) == Ok::<Timestamp, ParseFailure>(ts),
            Err(e) => decode_text(s@) == Err::<Timestamp, ParseFailure>(e@),
        },
{
    let chars = chars_of(s);
    let inner = trim(&chars);
    let body = strip_trailing_char(&inner, 'Z');
    let (date_part, time_part) = match split_at_first(&body, 'T') {
        Some(parts) => parts,
        None => match split_at_first(&body, ' ') {
            Some(parts) => parts,
            None => (body, Vec::new()),
        },
    };
    assert(date_part@ == date_and_time(strip_trailing(trimmed(s@), 'Z')).0);
    assert(time_part@ == date_and_time(strip_trailing(trimmed(s@), 'Z')).1);
    let date = split_chars(&date_part, '-');
    if date.len() != 3 {
        return Err(ParseError::InvalidDate(string_of(&date_part)));
    }
    assert(pieces(date@)[0] == date@[0]@);
    assert(pieces(date@)[1] == date@[1]@);
    assert(pieces(date@)[2] == date@[2]@);
    let year: i64 = match parse_int(&date[0]) {
        Some(y) => y,
        None => {
            return Err(ParseError::InvalidYear(string_of(&date[0])));
        },
    };
    let month: i64 = match parse_int(&date[1]) {
        Some(m) => m,
        None => {
            return Err(ParseError::InvalidMonth(string_of(&date[1])));
        },
    };
    if month < 1 || month > 12 {
        return Err(ParseError::InvalidMonth(string_of(&date[1])));
    }
    let day: i64 = match parse_int(&date[2]) {
        Some(d) => d,
        None => {
            return Err(ParseError::InvalidDay(string_of(&date[2])));
        },
    };
    if day < 1 || day > days_in_month(year, month) {
        return Err(ParseError::InvalidDay(string_of(&date[2])));
    }
    let (clock_chars, fraction) = match split_at_first(&time_part, '.') {
        Some(parts) => parts,
        None => (time_part, Vec::new()),
    };
    let nanos: i32 = match parse_fraction(&fraction) {
        Some(n) => n,
        None => {
            return Err(ParseError::InvalidNanos(string_of(&fraction)));
        },
    };
    let clock = split_chars(&clock_chars, ':');
    let hours: i64 = match clock_value(&clock, 0) {
        Ok(v) => v,
        Err(text) => {
            return Err(ParseError::InvalidHour(text));
        },
    };
    let minutes: i64 = match clock_value(&clock, 1) {
        Ok(v) => v,
        Err(text) => {
            return Err(ParseError::InvalidMinute(text));
        },
    };
    let seconds: i64 = match clock_value(&clock, 2) {
        Ok(v) => v,
        Err(text) => {
            return Err(ParseError::InvalidSecond(text));
        },
    };
    proof {
        lemma_days_before_month_nonnegative(year as int, month as int);
        if year >= 1970 {
            lemma_days_before_year_bounds(year as int);
        }
    }
    if year > MAX_YEAR {
        return Err(ParseError::OutOfRange);
    }
    let days: i64 = days_to_year(year) + days_to_month(year, month) + (day - 1);
    let total: i128 = (days as i128) * 86_400 + (hours as i128) * 3600 + (minutes as i128) * 60 + (
    seconds as i128);
    if total < i64::MIN as i128 || total > i64::MAX as i128 {
        return Err(ParseError::OutOfRange);
    }
    Ok(Timestamp { seconds: total as i64, nanos })
}

} // verus!
