use crowsong::calendar::{
    civil_from_days, days_from_civil, days_in_month, days_in_year, days_to_month, days_to_year,
    is_leap, CivilDate,
};
use crowsong::timestamp::{parse_iso_timestamp, timestamp_to_iso, ParseError, Timestamp};

fn ts(seconds: i64, nanos: i32) -> Timestamp {
    Timestamp { seconds, nanos }
}

#[test]
fn leap_rule_matches_month_and_year_lengths() {
    for year in 1970..=2400i64 {
        let expected = (year % 4 == 0 && year % 100 != 0) || year % 400 == 0;
        assert_eq!(is_leap(year), expected);
        assert_eq!(days_in_year(year), if expected { 366 } else { 365 });
        assert_eq!(days_in_month(year, 2), if expected { 29 } else { 28 });
        let months: i64 = (1..=12).map(|m| days_in_month(year, m)).sum();
        assert_eq!(months, days_in_year(year));
    }
    assert!(is_leap(2000));
    assert!(!is_leap(1900));
    assert!(is_leap(2024));
    assert!(!is_leap(2023));
    assert!(is_leap(-4));
}

#[test]
fn days_to_year_counts_elapsed_years() {
    assert_eq!(days_to_year(1970), 0);
    assert_eq!(days_to_year(1971), 365);
    assert_eq!(days_to_year(1973), 365 + 365 + 366);
    assert_eq!(days_to_year(2024), 19723);
    assert_eq!(days_to_year(1969), 0);
    assert_eq!(days_to_year(-5), 0);
    assert_eq!(days_to_year(2370), 146_097);
}

#[test]
fn days_to_month_counts_completed_months() {
    assert_eq!(days_to_month(2023, 1), 0);
    assert_eq!(days_to_month(2023, 3), 59);
    assert_eq!(days_to_month(2024, 3), 60);
    assert_eq!(days_to_month(2023, 12), 334);
    assert_eq!(days_to_month(2024, 12), 335);
}

#[test]
fn civil_from_days_known_dates() {
    assert_eq!(civil_from_days(0), CivilDate { year: 1970, month: 1, day: 1 });
    assert_eq!(civil_from_days(58), CivilDate { year: 1970, month: 2, day: 28 });
    assert_eq!(civil_from_days(59), CivilDate { year: 1970, month: 3, day: 1 });
    assert_eq!(civil_from_days(364), CivilDate { year: 1970, month: 12, day: 31 });
    assert_eq!(civil_from_days(365), CivilDate { year: 1971, month: 1, day: 1 });
    assert_eq!(civil_from_days(19737), CivilDate { year: 2024, month: 1, day: 15 });
    assert_eq!(civil_from_days(19782), CivilDate { year: 2024, month: 2, day: 29 });
    assert_eq!(civil_from_days(146_097), CivilDate { year: 2370, month: 1, day: 1 });
    assert_eq!(civil_from_days(146_096), CivilDate { year: 2369, month: 12, day: 31 });
}

#[test]
fn civil_and_days_are_inverse() {
    for days in (0..200_000i64).step_by(37) {
        let date = civil_from_days(days);
        assert_eq!(days_from_civil(&date), days);
    }
    let far = civil_from_days(i64::MAX / 86_400);
    assert_eq!(far.year, 292_277_026_596);
    assert_eq!(days_from_civil(&far), i64::MAX / 86_400);
}

#[test]
fn encode_epoch() {
    assert_eq!(timestamp_to_iso(&ts(0, 0)), "1970-01-01T00:00:00Z");
    assert_eq!(timestamp_to_iso(&ts(86_399, 0)), "1970-01-01T23:59:59Z");
    assert_eq!(timestamp_to_iso(&ts(86_400, 0)), "1970-01-02T00:00:00Z");
}

#[test]
fn encode_half_past_ten() {
    assert_eq!(timestamp_to_iso(&ts(1_705_314_600, 0)), "2024-01-15T10:30:00Z");
    assert_eq!(parse_iso_timestamp("2024-01-15T10:30:00Z"), Ok(ts(1_705_314_600, 0)));
}

#[test]
fn encode_1705315800() {
    let text = timestamp_to_iso(&ts(1_705_315_800, 0));
    assert_eq!(text, "2024-01-15T10:50:00Z");
    assert_eq!(parse_iso_timestamp(&text), Ok(ts(1_705_315_800, 0)));
}

#[test]
fn whole_seconds_have_no_fraction() {
    for seconds in [0i64, 1, 59, 1_705_315_800, 4_102_444_800, -7] {
        assert!(!timestamp_to_iso(&ts(seconds, 0)).contains('.'));
    }
}

#[test]
fn five_nanoseconds_fill_nine_digits() {
    let text = timestamp_to_iso(&ts(1_705_315_800, 5));
    assert!(text.ends_with(".000000005Z"));
    assert_eq!(text, "2024-01-15T10:50:00.000000005Z");
    assert_eq!(timestamp_to_iso(&ts(0, 999_999_999)), "1970-01-01T00:00:00.999999999Z");
    assert_eq!(timestamp_to_iso(&ts(0, 120_000_000)), "1970-01-01T00:00:00.120000000Z");
}

#[test]
fn encode_outside_the_calendar() {
    assert_eq!(timestamp_to_iso(&ts(-1, 0)), "-1s0ns");
    assert_eq!(timestamp_to_iso(&ts(-86_401, 25)), "-86401s25ns");
    assert_eq!(timestamp_to_iso(&ts(i64::MIN, 0)), "-9223372036854775808s0ns");
    assert_eq!(timestamp_to_iso(&ts(5, -1)), "5s-1ns");
    assert_eq!(timestamp_to_iso(&ts(5, 1_000_000_000)), "5s1000000000ns");
}

#[test]
fn encode_years_beyond_four_digits() {
    assert_eq!(timestamp_to_iso(&ts(253_402_300_800, 0)), "10000-01-01T00:00:00Z");
    let text = timestamp_to_iso(&ts(i64::MAX, 999_999_999));
    assert_eq!(text, "292277026596-12-04T15:30:07.999999999Z");
    assert_eq!(parse_iso_timestamp(&text), Ok(ts(i64::MAX, 999_999_999)));
}

#[test]
fn round_trip_samples() {
    let mut seconds: i64 = 0;
    while seconds < 8_000_000_000 {
        for nanos in [0, 1, 5, 999_999_999, 123_456_789] {
            let t = ts(seconds, nanos);
            assert_eq!(parse_iso_timestamp(&timestamp_to_iso(&t)), Ok(t));
        }
        seconds += 7_777_777;
    }
}

#[test]
fn separators_and_the_final_z() {
    let with_t = parse_iso_timestamp("2024-01-15T10:30:00Z");
    let with_blank = parse_iso_timestamp("2024-01-15 10:30:00");
    assert_eq!(with_t, with_blank);
    assert_eq!(with_t, Ok(ts(1_705_314_600, 0)));
    assert_eq!(parse_iso_timestamp("2024-01-15T10:30:00"), with_t);
    assert_eq!(parse_iso_timestamp("  2024-01-15T10:30:00Z\n"), with_t);
    assert_eq!(parse_iso_timestamp("2024-01-15T10:30:00ZZ"), with_t);
}

#[test]
fn leap_day() {
    let t = parse_iso_timestamp("2024-02-29T00:00:00Z").unwrap();
    assert_eq!(t, ts(1_709_164_800, 0));
    assert_eq!(timestamp_to_iso(&t), "2024-02-29T00:00:00Z");
    assert_eq!(
        parse_iso_timestamp("2023-02-29T00:00:00Z"),
        Err(ParseError::InvalidDay("29".to_string()))
    );
    assert_eq!(
        parse_iso_timestamp("2023-02-30"),
        Err(ParseError::InvalidDay("30".to_string()))
    );
    assert_eq!(
        parse_iso_timestamp("1900-02-29"),
        Err(ParseError::InvalidDay("29".to_string()))
    );
    assert!(parse_iso_timestamp("2000-02-29").is_ok());
}

#[test]
fn missing_time_fields_are_zero() {
    assert_eq!(parse_iso_timestamp("1970-01-02"), Ok(ts(86_400, 0)));
    assert_eq!(parse_iso_timestamp("1970-01-02T"), Ok(ts(86_400, 0)));
    assert_eq!(parse_iso_timestamp("1970-01-02T01"), Ok(ts(90_000, 0)));
    assert_eq!(parse_iso_timestamp("1970-01-02T01:02"), Ok(ts(90_120, 0)));
    assert_eq!(parse_iso_timestamp("1970-01-02T01:02:03"), Ok(ts(90_123, 0)));
    assert_eq!(parse_iso_timestamp("1970-01-02T:02"), Ok(ts(86_520, 0)));
    assert_eq!(parse_iso_timestamp("1970-01-02T01::03"), Ok(ts(90_003, 0)));
    assert_eq!(parse_iso_timestamp("1970-01-02T01:02:"), Ok(ts(90_120, 0)));
    assert_eq!(parse_iso_timestamp("1970-01-02T::"), Ok(ts(86_400, 0)));
    assert_eq!(parse_iso_timestamp("1970-01-02T.5"), Ok(ts(86_400, 500_000_000)));
    assert_eq!(parse_iso_timestamp("1970-01-02T01:02:03:04"), Ok(ts(90_123, 0)));
}

#[test]
fn written_time_fields_must_be_numbers() {
    let minute = parse_iso_timestamp("2024-01-15T10:xx:00Z").unwrap_err();
    assert_eq!(minute, ParseError::InvalidMinute("xx".to_string()));
    assert_eq!(minute.message(), "invalid minute: xx");
    let hour = parse_iso_timestamp("1970-01-02Txx:02:yy").unwrap_err();
    assert_eq!(hour, ParseError::InvalidHour("xx".to_string()));
    assert_eq!(hour.message(), "invalid hour: xx");
    let second = parse_iso_timestamp("1970-01-02 01:02:yy").unwrap_err();
    assert_eq!(second, ParseError::InvalidSecond("yy".to_string()));
    assert_eq!(second.message(), "invalid second: yy");
    assert_eq!(
        parse_iso_timestamp("1970-01-02T1 0:00:00").unwrap_err(),
        ParseError::InvalidHour("1 0".to_string())
    );
    assert_eq!(
        parse_iso_timestamp("1970-01-02T10:00:00+01").unwrap_err(),
        ParseError::InvalidSecond("00+01".to_string())
    );
    assert_eq!(
        parse_iso_timestamp("1970-01-02T99999999999999999999:00:00").unwrap_err(),
        ParseError::InvalidHour("99999999999999999999".to_string())
    );
    assert_eq!(
        parse_iso_timestamp("1970-01-02T10:00:-").unwrap_err(),
        ParseError::InvalidSecond("-".to_string())
    );
    assert_eq!(
        parse_iso_timestamp("1970-01-02Tab:cd:ef.x").unwrap_err(),
        ParseError::InvalidNanos("x".to_string())
    );
    assert_eq!(parse_iso_timestamp("1970-01-02T01:02:03:zz"), Ok(ts(90_123, 0)));
}

#[test]
fn time_fields_are_added_as_they_stand() {
    assert_eq!(parse_iso_timestamp("1970-01-01T25:61:61"), Ok(ts(93_721, 0)));
    assert_eq!(parse_iso_timestamp("1970-01-02T-1:00:00"), Ok(ts(82_800, 0)));
    assert_eq!(parse_iso_timestamp("1970-01-02T+1:+2:+3"), Ok(ts(90_123, 0)));
    assert_eq!(parse_iso_timestamp("1970-01-01T00:00:-1"), Ok(ts(-1, 0)));
}

#[test]
fn fractions_are_cut_or_padded() {
    assert_eq!(parse_iso_timestamp("1970-01-01T00:00:01.5Z"), Ok(ts(1, 500_000_000)));
    assert_eq!(parse_iso_timestamp("1970-01-01T00:00:01.000000005Z"), Ok(ts(1, 5)));
    assert_eq!(parse_iso_timestamp("1970-01-01T00:00:01.1234567891234"), Ok(ts(1, 123_456_789)));
    assert_eq!(parse_iso_timestamp("1970-01-01T00:00:01."), Ok(ts(1, 0)));
    assert_eq!(parse_iso_timestamp("1970-01-01T00:00:01.25.7"),
        Err(ParseError::InvalidNanos("25.7".to_string())));
}

#[test]
fn each_error_names_its_field() {
    let invalid_date = parse_iso_timestamp("2024-01").unwrap_err();
    assert_eq!(invalid_date, ParseError::InvalidDate("2024-01".to_string()));
    assert_eq!(invalid_date.message(), "invalid date: 2024-01");
    assert_eq!(
        parse_iso_timestamp("2024-01-15-3").unwrap_err(),
        ParseError::InvalidDate("2024-01-15-3".to_string())
    );
    assert_eq!(parse_iso_timestamp("").unwrap_err(), ParseError::InvalidDate("".to_string()));
    let year = parse_iso_timestamp("20x4-01-15T00:00:00Z").unwrap_err();
    assert_eq!(year, ParseError::InvalidYear("20x4".to_string()));
    assert_eq!(year.message(), "invalid year: 20x4");
    let month = parse_iso_timestamp("2024-13-15").unwrap_err();
    assert_eq!(month, ParseError::InvalidMonth("13".to_string()));
    assert_eq!(month.message(), "invalid month: 13");
    assert_eq!(
        parse_iso_timestamp("2024-0-15").unwrap_err(),
        ParseError::InvalidMonth("0".to_string())
    );
    assert_eq!(
        parse_iso_timestamp("2024-Jan-15").unwrap_err(),
        ParseError::InvalidMonth("Jan".to_string())
    );
    let day = parse_iso_timestamp("2024-04-31").unwrap_err();
    assert_eq!(day, ParseError::InvalidDay("31".to_string()));
    assert_eq!(day.message(), "invalid day: 31");
    assert_eq!(
        parse_iso_timestamp("2024-04-0").unwrap_err(),
        ParseError::InvalidDay("0".to_string())
    );
    let nanos = parse_iso_timestamp("2024-04-30T00:00:00.12a").unwrap_err();
    assert_eq!(nanos, ParseError::InvalidNanos("12a".to_string()));
    assert_eq!(nanos.message(), "invalid nanos: 12a");
    assert_eq!(
        parse_iso_timestamp("2024-04-30T00:00:00.-5").unwrap_err(),
        ParseError::InvalidNanos("-5".to_string())
    );
    let range = parse_iso_timestamp("292277026597-01-01").unwrap_err();
    assert_eq!(range, ParseError::OutOfRange);
    assert_eq!(range.message(), "timestamp out of range");
    assert_eq!(
        parse_iso_timestamp("9223372036854775807-01-01").unwrap_err(),
        ParseError::OutOfRange
    );
    assert_eq!(
        parse_iso_timestamp("99999999999999999999-01-01").unwrap_err(),
        ParseError::InvalidYear("99999999999999999999".to_string())
    );
    assert_eq!(
        parse_iso_timestamp("1970-01-01T9223372036854775807:00:00").unwrap_err(),
        ParseError::OutOfRange
    );
}

#[test]
fn years_before_the_epoch_count_no_days() {
    assert_eq!(parse_iso_timestamp("1969-01-02"), Ok(ts(86_400, 0)));
    assert_eq!(parse_iso_timestamp("+1970-01-02"), Ok(ts(86_400, 0)));
}
