use chrono::TimeZone;
use rugby_fixtures::calendar::{CivilDate, CivilTime, MonthCursor};
use rugby_fixtures::datetime::{
    civil_date_of, civil_time_of, date_for_parsing, format_datetimes, instant_of, resolve,
    resolve_civil, strip_ordinals, strip_weekday, LocalResolution,
};
use rugby_fixtures::error::TimeError;
use rugby_fixtures::text::{decimal_text, padded_text, signed_decimal_text};

fn strings(items: &[&str]) -> Vec<String> {
    items.iter().map(|s| s.to_string()).collect()
}

#[test]
fn summer_kickoff_is_one_hour_behind_the_clock() {
    assert_eq!(resolve("15:30", "Wednesday 10th July", 2024), Ok(1720621800));
}

#[test]
fn winter_kickoff_equals_the_clock() {
    assert_eq!(resolve("15:30", "Tuesday 10th December", 2024), Ok(1733844600));
}

#[test]
fn resolved_instant_agrees_with_chrono_utc() {
    let expected = chrono::Utc.with_ymd_and_hms(2024, 7, 10, 14, 30, 0).unwrap().timestamp();
    assert_eq!(resolve("15:30", "Wednesday 10th July", 2024), Ok(expected));
}

#[test]
fn verbose_date_parses_like_the_plain_date() {
    let cleaned = date_for_parsing("Saturday 14th September", 2024).unwrap();
    assert_eq!(cleaned, "14 September 2024");
    let verbose = civil_date_of(&cleaned);
    let plain = civil_date_of("14 September 2024");
    assert_eq!(verbose, plain);
    assert_eq!(plain, Some(CivilDate { year: 2024, month: 9, day: 14 }));
    assert_eq!(resolve("15:30", "Saturday 14th September", 2024), Ok(1726324200));
}

#[test]
fn every_ordinal_ending_is_removed() {
    assert_eq!(strip_ordinals("1st March"), "1 March");
    assert_eq!(strip_ordinals("2nd March"), "2 March");
    assert_eq!(strip_ordinals("3rd March"), "3 March");
    assert_eq!(strip_ordinals("24th March"), "24 March");
}

#[test]
fn text_without_ordinal_endings_is_unchanged() {
    assert_eq!(strip_ordinals("14 September"), "14 September");
    assert_eq!(strip_ordinals("3 August"), "3 August");
    assert_eq!(strip_ordinals(""), "");
    assert_eq!(strip_ordinals("th"), "th");
}

#[test]
fn month_names_keep_their_letters() {
    assert_eq!(strip_ordinals("3rd August"), "3 August");
    assert_eq!(resolve("15:00", "Saturday 3rd August", 2024), Ok(1722693600));
}

#[test]
fn ending_counts_only_directly_behind_a_digit() {
    assert_eq!(strip_ordinals("1 st"), "1 st");
    assert_eq!(strip_ordinals("1stth"), "1th");
    assert_eq!(strip_ordinals("21st"), "21");
    assert_eq!(strip_ordinals("1s"), "1s");
}

#[test]
fn weekday_is_what_stands_before_the_first_space() {
    assert_eq!(strip_weekday("Saturday 14th September"), Some("14th September".to_string()));
    assert_eq!(strip_weekday(" 14th"), Some("14th".to_string()));
    assert_eq!(strip_weekday("Saturday "), Some(String::new()));
    assert_eq!(strip_weekday("Saturday"), None);
    assert_eq!(strip_weekday(""), None);
}

#[test]
fn date_without_weekday_is_a_parse_error() {
    assert_eq!(date_for_parsing("14thSeptember", 2024), None);
    assert_eq!(resolve("15:30", "14thSeptember", 2024), Err(TimeError::ParseError));
}

#[test]
fn malformed_date_is_a_parse_error() {
    assert_eq!(resolve("15:30", "Saturday 31st Septober", 2024), Err(TimeError::ParseError));
    assert_eq!(resolve("15:30", "Monday 30th February", 2024), Err(TimeError::ParseError));
}

#[test]
fn malformed_time_is_a_parse_error() {
    assert_eq!(resolve("25:30", "Saturday 14th September", 2024), Err(TimeError::ParseError));
    assert_eq!(resolve("half past", "Saturday 14th September", 2024), Err(TimeError::ParseError));
}

#[test]
fn skipped_hour_is_refused() {
    assert_eq!(
        resolve("01:30", "Sunday 31st March", 2024),
        Err(TimeError::AmbiguousOrInvalidLocalTime)
    );
}

#[test]
fn repeated_hour_is_refused() {
    assert_eq!(
        resolve("01:30", "Sunday 27th October", 2024),
        Err(TimeError::AmbiguousOrInvalidLocalTime)
    );
}

#[test]
fn resolution_kinds_map_to_instant_or_error() {
    assert_eq!(instant_of(LocalResolution::Unique(42)), Ok(42));
    assert_eq!(instant_of(LocalResolution::Gap), Err(TimeError::AmbiguousOrInvalidLocalTime));
    assert_eq!(
        instant_of(LocalResolution::Overlap(1, 2)),
        Err(TimeError::AmbiguousOrInvalidLocalTime)
    );
}

#[test]
fn civil_values_resolve_in_london() {
    let date = CivilDate { year: 2024, month: 7, day: 10 };
    let time = CivilTime { hour: 15, minute: 30, second: 0 };
    assert_eq!(resolve_civil(date, time), Ok(1720621800));
}

#[test]
fn time_text_reads_hour_and_minute() {
    assert_eq!(civil_time_of("15:30"), Some(CivilTime { hour: 15, minute: 30, second: 0 }));
    assert_eq!(civil_time_of("15.30"), None);
}

#[test]
fn leap_day_exists_only_in_leap_years() {
    assert_eq!(
        civil_date_of("29 February 2024"),
        Some(CivilDate { year: 2024, month: 2, day: 29 })
    );
    assert_eq!(civil_date_of("29 February 2023"), None);
}

#[test]
fn batch_keeps_input_order() {
    let times = strings(&["15:30", "15:30", "14:00"]);
    let dates = strings(&["Tuesday 10th December", "Wednesday 10th July", "Saturday 3rd August"]);
    assert_eq!(
        format_datetimes(times, dates, 2024),
        Ok(vec![1733844600, 1720621800, 1722690000])
    );
}

#[test]
fn malformed_third_pair_fails_the_whole_batch() {
    let times = strings(&["15:30", "15:30", "nonsense", "15:30", "15:30"]);
    let dates = strings(&[
        "Wednesday 10th July",
        "Thursday 11th July",
        "Friday 12th July",
        "Saturday 13th July",
        "Sunday 14th July",
    ]);
    assert_eq!(format_datetimes(times, dates, 2024), Err(TimeError::ParseError));
}

#[test]
fn first_failing_pair_decides_the_error() {
    let times = strings(&["15:30", "01:30", "nonsense"]);
    let dates = strings(&["Wednesday 10th July", "Sunday 31st March", "Friday 12th July"]);
    assert_eq!(
        format_datetimes(times, dates, 2024),
        Err(TimeError::AmbiguousOrInvalidLocalTime)
    );
}

#[test]
fn empty_batch_resolves_to_nothing() {
    assert_eq!(format_datetimes(Vec::new(), Vec::new(), 2024), Ok(Vec::new()));
}

#[test]
fn numbers_are_written_in_decimal() {
    assert_eq!(decimal_text(0), "0");
    assert_eq!(decimal_text(2024), "2024");
    assert_eq!(decimal_text(4294967295), "4294967295");
    assert_eq!(signed_decimal_text(-44), "-44");
    assert_eq!(signed_decimal_text(i32::MIN), "-2147483648");
    assert_eq!(signed_decimal_text(2024), "2024");
    assert_eq!(padded_text(9, 2), "09");
    assert_eq!(padded_text(12, 2), "12");
    assert_eq!(padded_text(987, 4), "0987");
    assert_eq!(padded_text(12345, 4), "2345");
    assert_eq!(padded_text(5, 0), "");
}

#[test]
fn cursor_moves_to_the_first_of_the_next_month() {
    let january = MonthCursor::containing(CivilDate { year: 2025, month: 1, day: 31 }).unwrap();
    let february = january.next_month().unwrap();
    assert_eq!((february.year(), february.month()), (2025, 2));
    let march = february.next_month().unwrap();
    assert_eq!((march.year(), march.month()), (2025, 3));
}

#[test]
fn cursor_rolls_over_the_year() {
    let december = MonthCursor::new(2024, 12).unwrap();
    let january = december.next_month().unwrap();
    assert_eq!((january.year(), january.month()), (2025, 1));
}

#[test]
fn cursor_stops_after_the_last_month() {
    assert_eq!(MonthCursor::new(9999, 12).unwrap().next_month(), None);
    assert!(MonthCursor::new(9999, 11).unwrap().next_month().is_some());
}

#[test]
fn cursor_refuses_what_is_no_month() {
    assert_eq!(MonthCursor::new(2024, 0), None);
    assert_eq!(MonthCursor::new(2024, 13), None);
    assert_eq!(MonthCursor::new(10000, 1), None);
    assert_eq!(MonthCursor::containing(CivilDate { year: -1, month: 5, day: 1 }), None);
    assert!(MonthCursor::new(0, 1).is_some());
}
