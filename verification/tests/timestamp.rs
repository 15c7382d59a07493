use todo_rs::timestamp::Timestamp;
use todo_rs::timestamp::MAX_YEAR;
use todo_rs::timestamp::MIN_YEAR;
use todo_rs::timestamp::STORED_FORMAT;

fn zero_padded(number: i64, width: usize) -> String {
    let digits = number.to_string();
    if digits.len() >= width {
        digits
    } else {
        "0".repeat(width - digits.len()) + &digits
    }
}

fn year_text(year: i32) -> String {
    if year < 0 {
        String::from("-") + &zero_padded(-i64::from(year), 4)
    } else if year > 9999 {
        String::from("+") + &zero_padded(i64::from(year), 4)
    } else {
        zero_padded(i64::from(year), 4)
    }
}

fn stored_text(stamp: &Timestamp) -> String {
    let second = stamp.second() + stamp.nanosecond() / 1_000_000_000;
    year_text(stamp.year())
        + "-"
        + &zero_padded(i64::from(stamp.month()), 2)
        + "-"
        + &zero_padded(i64::from(stamp.day()), 2)
        + " "
        + &zero_padded(i64::from(stamp.hour()), 2)
        + ":"
        + &zero_padded(i64::from(stamp.minute()), 2)
        + ":"
        + &zero_padded(i64::from(second), 2)
}

fn fraction_text(nanosecond: u32) -> String {
    let fraction = i64::from(nanosecond % 1_000_000_000);
    if fraction == 0 {
        String::new()
    } else if fraction % 1_000_000 == 0 {
        String::from(".") + &zero_padded(fraction / 1_000_000, 3)
    } else if fraction % 1_000 == 0 {
        String::from(".") + &zero_padded(fraction / 1_000, 6)
    } else {
        String::from(".") + &zero_padded(fraction, 9)
    }
}

fn sample_years() -> Vec<i32> {
    vec![
        MIN_YEAR, -100000, -10000, -9999, -1000, -999, -100, -99, -10, -9, -1, 0, 1, 9, 10, 99, 100,
        999, 1000, 1970, 2024, 9999, 10000, 99999, 100000, MAX_YEAR,
    ]
}

#[test]
fn stored_text_is_made_of_zero_padded_fields() {
    for year in sample_years() {
        for month in 1u32..13 {
            for day in [1u32, 9, 10, 28] {
                for (hour, minute, second) in [(0u32, 0u32, 0u32), (9, 9, 9), (10, 10, 10), (23, 59, 59)] {
                    let stamp = Timestamp::new(year, month, day, hour, minute, second).unwrap();
                    assert_eq!(stamp.to_stored_text(), stored_text(&stamp));
                    assert_eq!(stamp.to_display_text(), stored_text(&stamp));
                }
            }
        }
    }
}

#[test]
fn display_text_shows_the_shortest_exact_fraction() {
    let whole = Timestamp::new(2024, 12, 7, 14, 30, 59).unwrap();
    let counts: Vec<u32> = vec![
        0, 1, 999, 1_000, 1_001, 999_000, 999_999, 1_000_000, 1_000_001, 26_490_000, 500_000_000,
        999_000_000, 999_999_000, 999_999_999, 1_000_000_000, 1_000_000_001, 1_000_001_000,
        1_001_000_000, 1_500_000_000, 1_999_999_999,
    ];
    for year in [-1, 0, 2024, 10000] {
        let base = Timestamp::new(year, 12, 7, 14, 30, 59).unwrap();
        for count in &counts {
            let stamp = base.with_nanosecond(*count).unwrap();
            assert_eq!(stamp.nanosecond(), *count);
            assert_eq!(stamp.to_stored_text(), stored_text(&stamp));
            assert_eq!(stamp.to_display_text(), stored_text(&stamp) + &fraction_text(*count));
        }
    }
    assert_eq!(whole.with_nanosecond(26_490_000).unwrap().to_display_text(), "2024-12-07 14:30:59.026490");
    assert_eq!(whole.with_nanosecond(500_000_000).unwrap().to_display_text(), "2024-12-07 14:30:59.500");
    assert_eq!(whole.with_nanosecond(1).unwrap().to_display_text(), "2024-12-07 14:30:59.000000001");
    assert_eq!(whole.with_nanosecond(1_500_000_000).unwrap().to_display_text(), "2024-12-07 14:30:60.500");
    assert_eq!(whole.with_nanosecond(1_500_000_000).unwrap().to_stored_text(), "2024-12-07 14:30:60");
}

#[test]
fn with_nanosecond_allows_a_leap_second_only_in_second_59() {
    let last = Timestamp::new(2024, 12, 7, 14, 30, 59).unwrap();
    let other = Timestamp::new(2024, 12, 7, 14, 30, 58).unwrap();
    assert!(last.with_nanosecond(999_999_999).is_some());
    assert!(last.with_nanosecond(1_000_000_000).is_some());
    assert!(last.with_nanosecond(1_999_999_999).is_some());
    assert!(last.with_nanosecond(2_000_000_000).is_none());
    assert!(other.with_nanosecond(999_999_999).is_some());
    assert!(other.with_nanosecond(1_000_000_000).is_none());
    let kept = other.with_nanosecond(5).unwrap();
    assert_eq!(kept.second(), 58);
    assert_eq!(kept.year(), 2024);
    assert_eq!(kept.nanosecond(), 5);
}

#[test]
fn with_nanosecond_agrees_with_chrono() {
    let date = chrono::NaiveDate::from_ymd_opt(2024, 12, 7).unwrap();
    for second in [0u32, 58, 59] {
        let ours = Timestamp::new(2024, 12, 7, 14, 30, second).unwrap();
        for count in [0u32, 999_999_999, 1_000_000_000, 1_999_999_999, 2_000_000_000, u32::MAX] {
            let theirs = date.and_hms_nano_opt(14, 30, second, count);
            assert_eq!(ours.with_nanosecond(count).is_some(), theirs.is_some());
        }
    }
}

#[test]
fn new_keeps_the_fields_of_a_day_that_exists() {
    let stamp = Timestamp::new(2024, 12, 7, 14, 30, 15).unwrap();
    assert_eq!(stamp.year(), 2024);
    assert_eq!(stamp.month(), 12);
    assert_eq!(stamp.day(), 7);
    assert_eq!(stamp.hour(), 14);
    assert_eq!(stamp.minute(), 30);
    assert_eq!(stamp.second(), 15);
    assert_eq!(stamp.nanosecond(), 0);
}

#[test]
fn new_knows_the_leap_years() {
    assert!(Timestamp::new(2024, 2, 29, 0, 0, 0).is_some());
    assert!(Timestamp::new(2023, 2, 29, 0, 0, 0).is_none());
    assert!(Timestamp::new(2000, 2, 29, 0, 0, 0).is_some());
    assert!(Timestamp::new(1900, 2, 29, 0, 0, 0).is_none());
    assert!(Timestamp::new(0, 2, 29, 0, 0, 0).is_some());
    assert!(Timestamp::new(-4, 2, 29, 0, 0, 0).is_some());
    assert!(Timestamp::new(-1, 2, 29, 0, 0, 0).is_none());
    assert!(Timestamp::new(-100, 2, 29, 0, 0, 0).is_none());
    assert!(Timestamp::new(-400, 2, 29, 0, 0, 0).is_some());
}

#[test]
fn new_knows_the_lengths_of_the_months() {
    let lengths: Vec<u32> = vec![31, 28, 31, 30, 31, 30, 31, 31, 30, 31, 30, 31];
    let mut month: u32 = 1;
    for length in lengths {
        assert!(Timestamp::new(2023, month, length, 0, 0, 0).is_some());
        assert!(Timestamp::new(2023, month, length + 1, 0, 0, 0).is_none());
        month += 1;
    }
}

#[test]
fn new_refuses_fields_out_of_range() {
    assert!(Timestamp::new(2024, 0, 1, 0, 0, 0).is_none());
    assert!(Timestamp::new(2024, 13, 1, 0, 0, 0).is_none());
    assert!(Timestamp::new(2024, 1, 0, 0, 0, 0).is_none());
    assert!(Timestamp::new(2024, 1, 1, 24, 0, 0).is_none());
    assert!(Timestamp::new(2024, 1, 1, 0, 60, 0).is_none());
    assert!(Timestamp::new(2024, 1, 1, 0, 0, 60).is_none());
    assert!(Timestamp::new(2024, 1, 1, 23, 59, 59).is_some());
    assert!(Timestamp::new(MIN_YEAR, 1, 1, 0, 0, 0).is_some());
    assert!(Timestamp::new(MIN_YEAR - 1, 12, 31, 0, 0, 0).is_none());
    assert!(Timestamp::new(MAX_YEAR, 12, 31, 23, 59, 59).is_some());
    assert!(Timestamp::new(MAX_YEAR + 1, 1, 1, 0, 0, 0).is_none());
}

#[test]
fn new_accepts_exactly_the_days_that_chrono_accepts() {
    let years: Vec<i32> = vec![MIN_YEAR - 1, MIN_YEAR, -401, -400, -100, -4, -1, 0, 1, 4, 100, 400,
        1900, 2000, 2023, 2024, 9999, 10000, MAX_YEAR, MAX_YEAR + 1];
    for year in years {
        for month in 0u32..14 {
            for day in 0u32..33 {
                let ours = Timestamp::new(year, month, day, 12, 0, 0).is_some();
                let theirs = chrono::NaiveDate::from_ymd_opt(year, month, day).is_some();
                assert_eq!(ours, theirs, "{}-{}-{}", year, month, day);
            }
        }
    }
}

#[test]
fn every_timestamp_can_be_written_at_the_ends_of_the_range() {
    let first = Timestamp::new(MIN_YEAR, 1, 1, 0, 0, 0).unwrap();
    let last = Timestamp::new(MAX_YEAR, 12, 31, 23, 59, 59).unwrap();
    assert_eq!(first.to_stored_text(), "-262143-01-01 00:00:00");
    assert_eq!(last.to_stored_text(), "+262142-12-31 23:59:59");
    assert_eq!(first.to_display_text(), "-262143-01-01 00:00:00");
    assert_eq!(last.to_display_text(), "+262142-12-31 23:59:59");
}

#[test]
fn stored_text_has_the_stored_format() {
    let stamp = Timestamp::new(2024, 12, 7, 14, 30, 15).unwrap();
    assert_eq!(stamp.to_stored_text(), "2024-12-07 14:30:15");
    let early = Timestamp::new(987, 1, 2, 3, 4, 5).unwrap();
    assert_eq!(early.to_stored_text(), "0987-01-02 03:04:05");
}

#[test]
fn display_text_is_what_chrono_displays() {
    let stamp = Timestamp::new(2016, 11, 15, 7, 39, 24).unwrap();
    assert_eq!(stamp.to_display_text(), "2016-11-15 07:39:24");
    let theirs = chrono::NaiveDate::from_ymd_opt(2016, 11, 15).unwrap().and_hms_opt(7, 39, 24).unwrap();
    assert_eq!(stamp.to_display_text(), theirs.to_string());
    assert_eq!(stamp.to_display_text(), format!("{:<19}", theirs));
}

#[test]
fn parse_reads_the_stored_format() {
    let stamp = Timestamp::parse("2024-12-07 14:30:15").unwrap();
    assert_eq!(stamp, Timestamp::new(2024, 12, 7, 14, 30, 15).unwrap());
    assert_eq!(stamp.nanosecond(), 0);
}

#[test]
fn parse_agrees_with_chrono() {
    let samples: Vec<&str> = vec![
        "2024-12-07 14:30:15",
        "2024-1-5 3:4:5",
        "2024-02-30 00:00:00",
        "2024-12-07",
        "2024-12-07T14:30:15",
        "not-a-date",
        "",
        "2024-12-07 24:00:00",
        "+12024-12-07 14:30:15",
        "12024-12-07 14:30:15",
        " 2024-12-07 14:30:15",
        "2024-12-07 14:30:15 ",
        "2015-06-30 23:59:60",
    ];
    for text in samples {
        let theirs = chrono::NaiveDateTime::parse_from_str(text, STORED_FORMAT).ok();
        let ours = Timestamp::parse(text);
        assert_eq!(ours.is_some(), theirs.is_some(), "{}", text);
        if let (Some(ours), Some(theirs)) = (ours, theirs) {
            assert_eq!(ours.to_display_text(), theirs.to_string(), "{}", text);
        }
    }
}

#[test]
fn parse_refuses_malformed_text() {
    assert!(Timestamp::parse("garbage").is_none());
    assert!(Timestamp::parse("").is_none());
    assert!(Timestamp::parse("2024-13-01 00:00:00").is_none());
    assert!(Timestamp::parse("2024-12-07").is_none());
}

#[test]
fn parse_keeps_a_leap_second() {
    let stamp = Timestamp::parse("2015-06-30 23:59:60").unwrap();
    assert_eq!(stamp.second(), 59);
    assert_eq!(stamp.nanosecond(), 1_000_000_000);
    assert_eq!(stamp.to_stored_text(), "2015-06-30 23:59:60");
    assert_eq!(stamp.to_display_text(), "2015-06-30 23:59:60");
}

#[test]
fn every_year_reads_back_from_its_stored_text() {
    for year in MIN_YEAR..=MAX_YEAR {
        let first = Timestamp::new(year, 1, 1, 0, 0, 0).unwrap();
        assert_eq!(Timestamp::parse(&first.to_stored_text()), Some(first), "{}", year);
        let last = Timestamp::new(year, 12, 31, 23, 59, 59).unwrap();
        assert_eq!(Timestamp::parse(&last.to_stored_text()), Some(last), "{}", year);
    }
}

#[test]
fn every_day_and_time_reads_back_from_its_stored_text() {
    for year in [MIN_YEAR, -10000, -9999, -400, -1, 0, 1, 999, 1000, 2023, 2024, 9999, 10000, MAX_YEAR] {
        for month in 1u32..13 {
            for day in 1u32..32 {
                for (hour, minute, second) in [(0u32, 0u32, 0u32), (1, 2, 3), (12, 34, 56), (23, 59, 59)] {
                    if let Some(stamp) = Timestamp::new(year, month, day, hour, minute, second) {
                        assert_eq!(Timestamp::parse(&stamp.to_stored_text()), Some(stamp));
                    }
                }
            }
        }
    }
    let day = Timestamp::new(2024, 2, 29, 0, 0, 0).unwrap();
    for hour in 0u32..24 {
        for minute in 0u32..60 {
            for second in 0u32..60 {
                let stamp = Timestamp::new(day.year(), day.month(), day.day(), hour, minute, second).unwrap();
                assert_eq!(Timestamp::parse(&stamp.to_stored_text()), Some(stamp));
            }
        }
    }
}

#[test]
fn a_fraction_of_a_second_is_cut_off_when_the_stored_text_is_read_back() {
    let whole = Timestamp::new(2024, 12, 7, 14, 30, 59).unwrap();
    let leap = whole.with_nanosecond(1_000_000_000).unwrap();
    for count in [1u32, 999, 26_490_000, 500_000_000, 999_999_999] {
        let stamp = whole.with_nanosecond(count).unwrap();
        assert_eq!(Timestamp::parse(&stamp.to_stored_text()), Some(whole));
    }
    for count in [1_000_000_000u32, 1_000_000_001, 1_500_000_000, 1_999_999_999] {
        let stamp = whole.with_nanosecond(count).unwrap();
        assert_eq!(Timestamp::parse(&stamp.to_stored_text()), Some(leap));
    }
    let early = Timestamp::new(-5, 3, 4, 1, 2, 3).unwrap().with_nanosecond(7).unwrap();
    assert_eq!(Timestamp::parse(&early.to_stored_text()), Timestamp::new(-5, 3, 4, 1, 2, 3));
}

#[test]
fn stored_text_parses_back_to_the_same_second() {
    let stamp = Timestamp::new(1999, 12, 31, 23, 59, 59).unwrap();
    assert_eq!(Timestamp::parse(&stamp.to_stored_text()), Some(stamp));
}

#[test]
fn now_is_a_day_that_exists() {
    let now = Timestamp::now();
    let rebuilt = Timestamp::new(now.year(), now.month(), now.day(), now.hour(), now.minute(), now.second());
    assert!(rebuilt.is_some());
    assert!(now.year() >= 2024);
    assert!(now.nanosecond() < 2_000_000_000);
    let text = now.to_stored_text();
    assert_eq!(text.chars().count(), 19);
    assert_eq!(Timestamp::parse(&text), rebuilt);
}
