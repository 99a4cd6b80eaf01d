use rustytunes::notifier::NotifierError;
use rustytunes::timeparse::{
    convert_literal_from_string, convert_time_date_from_string, convert_time_offset_from_string,
    parse_text, seasonal_offset_seconds,
};

const NOW: i64 = 1_000_000;

#[test]
fn one_month_fifteen_seconds() {
    assert_eq!(parse_text("1mo 15s", NOW).unwrap(), NOW + 2_592_015);
}

#[test]
fn tomorrow_is_one_day_ahead() {
    assert_eq!(parse_text("tomorrow", NOW).unwrap(), NOW + 86_400);
}

#[test]
fn week_is_seven_days_ahead() {
    assert_eq!(parse_text("week", NOW).unwrap(), NOW + 604_800);
}

#[test]
fn absolute_datetime_ignores_now() {
    assert_eq!(parse_text("24-12-2024_15:30", NOW).unwrap(), 1_735_054_200);
    assert_eq!(parse_text("24-12-2024_15:30", 0).unwrap(), 1_735_054_200);
    assert_eq!(
        parse_text("24-12-2024_15:30", -5_000_000).unwrap(),
        1_735_054_200
    );
}

#[test]
fn date_only_implies_nine_in_the_morning() {
    assert_eq!(parse_text("01-01-2024", NOW).unwrap(), 1_704_099_600);
}

#[test]
fn leap_day_is_accepted_in_leap_years_only() {
    assert_eq!(parse_text("29-02-2024", NOW).unwrap(), 1_709_197_200);
    assert!(matches!(
        parse_text("29-02-2023", NOW),
        Err(NotifierError::InvalidTimeFormat)
    ));
}

#[test]
fn empty_string_is_invalid() {
    assert!(matches!(
        parse_text("", NOW),
        Err(NotifierError::InvalidTimeFormat)
    ));
}

#[test]
fn zero_durations_are_invalid() {
    assert!(matches!(
        parse_text("0s", NOW),
        Err(NotifierError::InvalidTimeFormat)
    ));
    assert!(matches!(
        parse_text("0mo 0d 0s", NOW),
        Err(NotifierError::InvalidTimeFormat)
    ));
}

#[test]
fn composite_component_combinations() {
    assert_eq!(parse_text("1h30m", NOW).unwrap(), NOW + 5_400);
    assert_eq!(parse_text("2 days", NOW).unwrap(), NOW + 2 * 86_400);
    assert_eq!(parse_text("5m", NOW).unwrap(), NOW + 300);
    assert_eq!(parse_text("5mo", NOW).unwrap(), NOW + 5 * 2_592_000);
    assert_eq!(parse_text("1minute", NOW).unwrap(), NOW + 60);
    assert_eq!(parse_text("1month", NOW).unwrap(), NOW + 2_592_000);
    assert_eq!(parse_text("3d12h", NOW).unwrap(), NOW + 3 * 86_400 + 12 * 3_600);
    assert_eq!(parse_text("10 s", NOW).unwrap(), NOW + 10);
    assert_eq!(parse_text("1mo15s", NOW).unwrap(), NOW + 2_592_015);
    assert_eq!(
        parse_text("1h 30m 10s", NOW).unwrap(),
        NOW + 3_600 + 30 * 60 + 10
    );
}

#[test]
fn malformed_expressions_are_invalid() {
    for text in [
        "abc",
        "1mon",
        "1 mo",
        "5s5s",
        "1d2mo",
        "5x",
        " 5s",
        "5s ",
        "31-02-2024",
        "10-10-2024_25:00",
        "1-1-2024",
    ] {
        assert!(
            matches!(parse_text(text, NOW), Err(NotifierError::InvalidTimeFormat)),
            "expected {:?} to be invalid",
            text
        );
    }
}

#[test]
fn oversized_durations_saturate() {
    assert_eq!(
        parse_text("99999999999999999999mo", NOW).unwrap(),
        i64::MAX
    );
    assert_eq!(
        parse_text("9999999999mo", NOW).unwrap(),
        NOW + 9_999_999_999 * 2_592_000
    );
}

#[test]
fn literal_parser_rejects_near_misses() {
    assert_eq!(convert_literal_from_string("week", 0), Some(604_800));
    assert_eq!(convert_literal_from_string("weeks", 0), None);
    assert_eq!(convert_literal_from_string("Tomorrow", 0), None);
}

#[test]
fn date_parser_requires_exact_shape() {
    assert_eq!(convert_time_date_from_string("24-12-2024"), Some(1_735_030_800));
    assert_eq!(convert_time_date_from_string("24/12/2024"), None);
    assert_eq!(convert_time_date_from_string("24-12-24"), None);
}

#[test]
fn offset_parser_handles_components_directly() {
    assert_eq!(convert_time_offset_from_string("15s", NOW), Some(NOW + 15));
    assert_eq!(convert_time_offset_from_string("tomorrow", NOW), None);
}

#[test]
fn seasonal_offset_heuristic() {
    for m in 3..=10u8 {
        assert_eq!(seasonal_offset_seconds(m), 7_200);
    }
    for m in [1u8, 2, 11, 12] {
        assert_eq!(seasonal_offset_seconds(m), 3_600);
    }
}
