//! Laws of the timestamp codec: what is written is read back unchanged.

use crate::calendar::{lemma_date_of_day_exists, month_length};
use crate::text::{
    all_digits, decimal, lemma_decimal_digits, signed_decimal, is_digit, is_space, lacks,
    lemma_first_index_absent, lemma_first_index_joint, lemma_split_joint, lemma_split_single,
    lemma_zero_padded, lemma_zero_padded_len, lemma_zero_padded_reads_back, lemma_zeros_value,
    nine_digits, pow10, split, strip_trailing, trim_end, trim_start, trimmed,
    zero_padded, zeros,
};
use crate::timestamp::{
    clock_field, clock_part, clock_text, date_and_time, date_text, day_value,
    decode_parts, decode_text, epoch_seconds, fraction_part, fraction_text, month_value, split_once,
    time_nanos, timestamp_text, ParseFailure, Timestamp,
};
use vstd::prelude::*;

verus! {

/// Every character of `s` is a digit or `mark`.
pub open spec fn digits_or(s: Seq<char>, mark: char) -> bool {
    forall|i: int| 0 <= i < s.len() ==> is_digit(#[trigger] s[i]) || s[i] == mark
}

/// A string of digits and one mark holds no other character.
proof fn lemma_digits_or_lacks(s: Seq<char>, mark: char, c: char)
    requires
        digits_or(s, mark),
        !is_digit(c),
        c != mark,
    ensures
        lacks(s, c),
{
    assert forall|i: int| 0 <= i < s.len() implies #[trigger] s[i] != c by {
        assert(is_digit(s[i]) || s[i] == mark);
    }
}

/// A string of digits holds nothing but digits.
proof fn lemma_digits_lack(s: Seq<char>, c: char)
    requires
        all_digits(s),
        !is_digit(c),
    ensures
        lacks(s, c),
{
    assert forall|i: int| 0 <= i < s.len() implies #[trigger] s[i] != c by {
        assert(is_digit(s[i]));
    }
}

/// Three digit strings joined by a mark split into the three again.
proof fn lemma_three_fields(a: Seq<char>, b: Seq<char>, c: Seq<char>, mark: char)
    requires
        all_digits(a),
        all_digits(b),
        all_digits(c),
        a.len() >= 1,
        c.len() >= 1,
        !is_digit(mark),
    ensures
        split(a + seq![mark] + b + seq![mark] + c, mark) == seq![a, b, c],
        digits_or(a + seq![mark] + b + seq![mark] + c, mark),
        (a + seq![mark] + b + seq![mark] + c)[0] == a[0],
        (a + seq![mark] + b + seq![mark] + c).last() == c.last(),
{
    let whole = a + seq![mark] + b + seq![mark] + c;
    let tail = b + seq![mark] + c;
    assert(whole =~= a + seq![mark] + tail);
    lemma_digits_lack(a, mark);
    lemma_digits_lack(b, mark);
    lemma_digits_lack(c, mark);
    lemma_split_joint(a, mark, tail);
    lemma_split_joint(b, mark, c);
    lemma_split_single(c, mark);
    assert(seq![a] + (seq![b] + seq![c]) =~= seq![a, b, c]);
    assert forall|i: int| 0 <= i < whole.len() implies is_digit(#[trigger] whole[i]) || whole[i]
        == mark by {
        if i < a.len() {
            assert(whole[i] == a[i]);
        } else if i == a.len() {
        } else if i < a.len() + 1 + b.len() {
            assert(whole[i] == b[i - a.len() - 1]);
        } else if i == a.len() + 1 + b.len() {
        } else {
            assert(whole[i] == c[i - a.len() - b.len() - 2]);
        }
    }
    assert(whole.last() == c[c.len() - 1]);
}

/// Around a body that neither starts with white space nor ends in `Z`,
/// trimming and dropping the final `Z` leave the body.
proof fn lemma_body_of(body: Seq<char>)
    requires
        body.len() >= 1,
        !is_space(body[0]),
        body.last() != 'Z',
    ensures
        strip_trailing(trimmed(body + seq!['Z']), 'Z') == body,
{
    let text = body + seq!['Z'];
    assert(text[0] == body[0]);
    assert(trim_start(text) == text);
    assert(text.last() == 'Z');
    assert(trim_end(text) == text);
    assert(text.drop_last() =~= body);
    assert(strip_trailing(body, 'Z') == body);
}

/// A date without `T`, then `T`, then a time of day: the two are found
/// again.
proof fn lemma_date_and_time(date: Seq<char>, time: Seq<char>)
    requires
        lacks(date, 'T'),
    ensures
        date_and_time(date + seq!['T'] + time) == (date, time),
{
    lemma_first_index_joint(date, 'T', time);
}

/// A clock without a point, followed by the fraction of `nanos`: the clock
/// and the nanoseconds are found again.
proof fn lemma_clock_and_fraction(clock: Seq<char>, nanos: int)
    requires
        lacks(clock, '.'),
        0 <= nanos <= 999_999_999,
    ensures
        clock_part(clock + fraction_text(nanos)) == clock,
        time_nanos(clock + fraction_text(nanos)) == Some(nanos),
{
    let time = clock + fraction_text(nanos);
    if nanos > 0 {
        let digits = zero_padded(nanos as nat, 9);
        assert(pow10(9) == 1_000_000_000) by {
            reveal_with_fuel(pow10, 10);
        }
        lemma_zero_padded(nanos as nat, 9);
        lemma_zero_padded_len(nanos as nat, 9);
        assert(time =~= clock + seq!['.'] + digits);
        lemma_first_index_joint(clock, '.', digits);
        assert(split_once(time, '.') == Some((clock, digits)));
        assert(nine_digits(digits) =~= digits);
    } else {
        let none = Seq::<char>::empty();
        assert(time =~= clock);
        lemma_first_index_absent(clock, '.');
        assert(fraction_part(time) == none);
        assert(nine_digits(none) =~= zeros(9) + none);
        lemma_zeros_value(9, none);
    }
}

/// A date and a time of day, written out, are read back as the seconds
/// they stand for.
pub proof fn lemma_parts_read_back(
    year: int,
    month: int,
    day: int,
    hours: int,
    minutes: int,
    seconds: int,
    nanos: int,
)
    requires
        0 <= year <= i64::MAX,
        1 <= month <= 12,
        1 <= day <= month_length(year, month),
        0 <= hours <= i64::MAX,
        0 <= minutes <= i64::MAX,
        0 <= seconds <= i64::MAX,
        0 <= nanos <= 999_999_999,
        epoch_seconds(year, month, day, hours, minutes, seconds) <= i64::MAX,
        epoch_seconds(year, month, day, hours, minutes, seconds) >= i64::MIN,
    ensures
        decode_parts(
            date_text(year, month, day),
            clock_text(hours, minutes, seconds) + fraction_text(nanos),
        ) == Ok::<Timestamp, ParseFailure>(
            Timestamp {
                seconds: epoch_seconds(year, month, day, hours, minutes, seconds) as i64,
                nanos: nanos as i32,
            },
        ),
{
    let y = zero_padded(year as nat, 4);
    let m = zero_padded(month as nat, 2);
    let d = zero_padded(day as nat, 2);
    let hh = zero_padded(hours as nat, 2);
    let mm = zero_padded(minutes as nat, 2);
    let ss = zero_padded(seconds as nat, 2);
    lemma_zero_padded(year as nat, 4);
    lemma_zero_padded(month as nat, 2);
    lemma_zero_padded(day as nat, 2);
    lemma_zero_padded(hours as nat, 2);
    lemma_zero_padded(minutes as nat, 2);
    lemma_zero_padded(seconds as nat, 2);
    lemma_zero_padded_reads_back(year as nat, 4);
    lemma_zero_padded_reads_back(month as nat, 2);
    lemma_zero_padded_reads_back(day as nat, 2);
    lemma_zero_padded_reads_back(hours as nat, 2);
    lemma_zero_padded_reads_back(minutes as nat, 2);
    lemma_zero_padded_reads_back(seconds as nat, 2);
    let date_part = date_text(year, month, day);
    let clock = clock_text(hours, minutes, seconds);
    lemma_three_fields(y, m, d, '-');
    lemma_three_fields(hh, mm, ss, ':');
    lemma_digits_or_lacks(clock, ':', '.');
    lemma_clock_and_fraction(clock, nanos);
    let date = split(date_part, '-');
    let fields = split(clock, ':');
    assert(date[0] == y && date[1] == m && date[2] == d);
    assert(fields[0] == hh && fields[1] == mm && fields[2] == ss);
    assert(month_value(m) == Some(month));
    assert(day_value(d, year, month) == Some(day));
    assert(clock_field(fields, 0) == Some(hours));
    assert(clock_field(fields, 1) == Some(minutes));
    assert(clock_field(fields, 2) == Some(seconds));
}

/// The calendar string of a timestamp is its date, `T`, its time of day
/// and `Z`; reading finds the date and the time of day again.
proof fn lemma_text_parts(
    year: int,
    month: int,
    day: int,
    hours: int,
    minutes: int,
    seconds: int,
    nanos: int,
)
    requires
        0 <= year,
        0 <= month,
        0 <= day,
        0 <= hours,
        0 <= minutes,
        0 <= seconds,
        0 <= nanos,
    ensures
        ({
            let date_part = date_text(year, month, day);
            let time_part = clock_text(hours, minutes, seconds) + fraction_text(nanos);
            let text = date_part + seq!['T'] + time_part + seq!['Z'];
            let body = strip_trailing(trimmed(text), 'Z');
            date_and_time(body) == (date_part, time_part)
        }),
{
    let y = zero_padded(year as nat, 4);
    let ss = zero_padded(seconds as nat, 2);
    lemma_zero_padded(year as nat, 4);
    lemma_zero_padded(month as nat, 2);
    lemma_zero_padded(day as nat, 2);
    lemma_zero_padded(hours as nat, 2);
    lemma_zero_padded(minutes as nat, 2);
    lemma_zero_padded(seconds as nat, 2);
    let date_part = date_text(year, month, day);
    let clock = clock_text(hours, minutes, seconds);
    let time_part = clock + fraction_text(nanos);
    let body = date_part + seq!['T'] + time_part;
    lemma_three_fields(y, zero_padded(month as nat, 2), zero_padded(day as nat, 2), '-');
    lemma_three_fields(zero_padded(hours as nat, 2), zero_padded(minutes as nat, 2), ss, ':');
    lemma_digits_or_lacks(date_part, '-', 'T');
    lemma_date_and_time(date_part, time_part);
    assert(body.len() >= 1 && body[0] == y[0]);
    assert(is_digit(y[0]));
    assert(body.last() != 'Z') by {
        if nanos > 0 {
            let digits = zero_padded(nanos as nat, 9);
            lemma_zero_padded(nanos as nat, 9);
            assert(time_part.last() == digits.last());
            assert(body.last() == digits.last());
            assert(is_digit(digits[digits.len() - 1]));
        } else {
            assert(time_part =~= clock);
            assert(body.last() == clock.last());
            assert(is_digit(ss[ss.len() - 1]));
        }
    }
    lemma_body_of(body);
}

/// Days, hours, minutes and seconds add up to the seconds they were taken
/// from.
proof fn lemma_seconds_of_day(seconds: int)
    requires
        seconds >= 0,
    ensures
        ({
            let time = seconds % 86_400;
            (seconds / 86_400) * 86_400 + (time / 3600) * 3600 + ((time % 3600) / 60) * 60 + time
                % 60 == seconds
        }),
        0 <= (seconds % 86_400) / 3600 < 24,
        0 <= ((seconds % 86_400) % 3600) / 60 < 60,
        0 <= (seconds % 86_400) % 60 < 60,
{
}

/// Decoding the calendar string of a timestamp gives back the timestamp:
/// for every timestamp at or after the epoch whose nanoseconds are less
/// than a second, nothing is lost on the way through the text.
pub proof fn lemma_round_trip(ts: Timestamp)
    requires
        ts.has_calendar_form(),
    ensures
        decode_text(timestamp_text(ts)) == Ok::<Timestamp, ParseFailure>(ts),
{
    let seconds = ts.seconds as int;
    let nanos = ts.nanos as int;
    let days = seconds / 86_400;
    let time = seconds % 86_400;
    let date = lemma_date_of_day_exists(days);
    let hours = time / 3600;
    let minutes = (time % 3600) / 60;
    let secs = time % 60;
    let year = date.year as int;
    let month = date.month as int;
    let day = date.day as int;
    lemma_seconds_of_day(seconds);
    lemma_text_parts(year, month, day, hours, minutes, secs, nanos);
    lemma_parts_read_back(year, month, day, hours, minutes, secs, nanos);
}

/// A timestamp without nanoseconds is written without a point, whether it
/// has a calendar string or not.
pub proof fn lemma_whole_seconds_without_point(ts: Timestamp)
    requires
        ts.nanos == 0,
    ensures
        lacks(timestamp_text(ts), '.'),
{
    let text = timestamp_text(ts);
    if ts.has_calendar_form() {
        let seconds = ts.seconds as int;
        let time = seconds % 86_400;
        let date = lemma_date_of_day_exists(seconds / 86_400);
        lemma_seconds_of_day(seconds);
        let date_part = date_text(date.year as int, date.month as int, date.day as int);
        let clock = clock_text(time / 3600, (time % 3600) / 60, time % 60);
        lemma_zero_padded(date.year as nat, 4);
        lemma_zero_padded(date.month as nat, 2);
        lemma_zero_padded(date.day as nat, 2);
        lemma_zero_padded((time / 3600) as nat, 2);
        lemma_zero_padded(((time % 3600) / 60) as nat, 2);
        lemma_zero_padded((time % 60) as nat, 2);
        lemma_three_fields(
            zero_padded(date.year as nat, 4),
            zero_padded(date.month as nat, 2),
            zero_padded(date.day as nat, 2),
            '-',
        );
        lemma_three_fields(
            zero_padded((time / 3600) as nat, 2),
            zero_padded(((time % 3600) / 60) as nat, 2),
            zero_padded((time % 60) as nat, 2),
            ':',
        );
        lemma_digits_or_lacks(date_part, '-', '.');
        lemma_digits_or_lacks(clock, ':', '.');
        assert(text =~= date_part + seq!['T'] + clock + seq!['Z']);
        assert forall|i: int| 0 <= i < text.len() implies #[trigger] text[i] != '.' by {
            if i < date_part.len() {
                assert(text[i] == date_part[i]);
            } else if i == date_part.len() {
            } else if i < date_part.len() + 1 + clock.len() {
                assert(text[i] == clock[i - date_part.len() - 1]);
            } else {
            }
        }
    } else {
        let a = signed_decimal(ts.seconds as int);
        let b = signed_decimal(0);
        lemma_signed_decimal_chars(ts.seconds as int);
        lemma_signed_decimal_chars(0);
        assert(text =~= a + seq!['s'] + b + seq!['n', 's']);
        assert forall|i: int| 0 <= i < text.len() implies #[trigger] text[i] != '.' by {
            if i < a.len() {
                assert(text[i] == a[i]);
            } else if i == a.len() {
            } else if i < a.len() + 1 + b.len() {
                assert(text[i] == b[i - a.len() - 1]);
            } else {
            }
        }
    }
}

/// A signed number is written with digits and at most a minus sign.
proof fn lemma_signed_decimal_chars(v: int)
    ensures
        digits_or(signed_decimal(v), '-'),
        lacks(signed_decimal(v), '.'),
{
    let s = signed_decimal(v);
    if v < 0 {
        lemma_decimal_digits((-v) as nat);
        assert forall|i: int| 0 <= i < s.len() implies is_digit(#[trigger] s[i]) || s[i]
            == '-' by {
            if i > 0 {
                assert(s[i] == decimal((-v) as nat)[i - 1]);
            }
        }
    } else {
        lemma_decimal_digits(v as nat);
    }
    lemma_digits_or_lacks(s, '-', '.');
}

/// A timestamp with nanoseconds is written with all nine digits of them:
/// its calendar string ends in a point, the nanoseconds padded with zeros
/// to nine digits, and `Z`.
pub proof fn lemma_fraction_has_nine_digits(ts: Timestamp)
    requires
        ts.has_calendar_form(),
        ts.nanos > 0,
    ensures
        zero_padded(ts.nanos as nat, 9).len() == 9,
        all_digits(zero_padded(ts.nanos as nat, 9)),
        timestamp_text(ts).len() >= 11,
        timestamp_text(ts).skip(timestamp_text(ts).len() - 11) == seq!['.'] + zero_padded(
            ts.nanos as nat,
            9,
        ) + seq!['Z'],
{
    assert(pow10(9) == 1_000_000_000) by {
        reveal_with_fuel(pow10, 10);
    }
    lemma_zero_padded(ts.nanos as nat, 9);
    lemma_zero_padded_len(ts.nanos as nat, 9);
    let text = timestamp_text(ts);
    assert(text.skip(text.len() - 11) =~= seq!['.'] + zero_padded(ts.nanos as nat, 9) + seq![
        'Z',
    ]);
}

/// The date and the time of day may be parted by `T` or by a blank, and
/// the `Z` at the end may be left out: both spellings denote the same.
pub proof fn lemma_separator_tolerance(date: Seq<char>, time: Seq<char>)
    requires
        date.len() >= 1,
        !is_space(date[0]),
        lacks(date, 'T'),
        lacks(date, ' '),
        time.len() >= 1,
        lacks(time, 'T'),
        !is_space(time.last()),
        time.last() != 'Z',
    ensures
        decode_text(date + seq!['T'] + time + seq!['Z']) == decode_parts(date, time),
        decode_text(date + seq![' '] + time) == decode_parts(date, time),
{
    let with_t = date + seq!['T'] + time;
    assert(with_t[0] == date[0]);
    assert(with_t.last() == time.last());
    lemma_body_of(with_t);
    lemma_date_and_time(date, time);
    let with_blank = date + seq![' '] + time;
    assert(with_blank[0] == date[0]);
    assert(with_blank.last() == time.last());
    assert(trim_start(with_blank) == with_blank);
    assert(trim_end(with_blank) == with_blank);
    assert(strip_trailing(with_blank, 'Z') == with_blank);
    assert forall|i: int| 0 <= i < with_blank.len() implies #[trigger] with_blank[i] != 'T' by {
        if i < date.len() {
            assert(with_blank[i] == date[i]);
        } else if i > date.len() {
            assert(with_blank[i] == time[i - date.len() - 1]);
        }
    }
    lemma_first_index_absent(with_blank, 'T');
    lemma_first_index_joint(date, ' ', time);
}

} // verus!
