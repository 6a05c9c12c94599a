use chatbot_core::timestamp::Timestamp;

fn text(year: u16, month: u8, day: u8, hour: u8, minute: u8, second: u8) -> Option<String> {
    Timestamp::new(year, month, day, hour, minute, second).map(|t| t.text())
}

#[test]
fn instant_is_written_at_full_width() {
    assert_eq!(text(2024, 1, 1, 10, 0, 0).unwrap(), "2024-01-01 10:00:00");
    assert_eq!(text(1999, 12, 31, 23, 59, 59).unwrap(), "1999-12-31 23:59:59");
    assert_eq!(text(7, 3, 9, 1, 2, 3).unwrap(), "0007-03-09 01:02:03");
    assert_eq!(text(0, 1, 1, 0, 0, 0).unwrap(), "0000-01-01 00:00:00");
    assert_eq!(text(9999, 12, 31, 23, 59, 59).unwrap(), "9999-12-31 23:59:59");
}

#[test]
fn fields_are_kept() {
    let t = Timestamp::new(2024, 2, 29, 13, 14, 15).unwrap();
    assert_eq!(
        (t.year(), t.month(), t.day(), t.hour(), t.minute(), t.second()),
        (2024, 2, 29, 13, 14, 15)
    );
}

#[test]
fn days_that_no_calendar_has_are_refused() {
    assert!(Timestamp::new(2023, 2, 29, 0, 0, 0).is_none());
    assert!(Timestamp::new(2024, 2, 29, 0, 0, 0).is_some());
    assert!(Timestamp::new(1900, 2, 29, 0, 0, 0).is_none());
    assert!(Timestamp::new(2000, 2, 29, 0, 0, 0).is_some());
    assert!(Timestamp::new(2024, 2, 30, 0, 0, 0).is_none());
    assert!(Timestamp::new(2024, 4, 31, 0, 0, 0).is_none());
    assert!(Timestamp::new(2024, 4, 30, 0, 0, 0).is_some());
    assert!(Timestamp::new(2024, 1, 32, 0, 0, 0).is_none());
    assert!(Timestamp::new(2024, 1, 0, 0, 0, 0).is_none());
    assert!(Timestamp::new(2024, 0, 1, 0, 0, 0).is_none());
    assert!(Timestamp::new(2024, 13, 1, 0, 0, 0).is_none());
    assert!(Timestamp::new(10000, 1, 1, 0, 0, 0).is_none());
}

#[test]
fn times_that_no_clock_shows_are_refused() {
    assert!(Timestamp::new(2024, 1, 1, 24, 0, 0).is_none());
    assert!(Timestamp::new(2024, 1, 1, 0, 60, 0).is_none());
    assert!(Timestamp::new(2024, 1, 1, 0, 0, 60).is_none());
    assert!(Timestamp::new(2024, 1, 1, 23, 59, 59).is_some());
}

#[test]
fn order_is_that_of_time() {
    let a = Timestamp::new(2024, 1, 1, 10, 0, 0).unwrap();
    let b = Timestamp::new(2024, 1, 1, 10, 0, 1).unwrap();
    let c = Timestamp::new(2023, 12, 31, 23, 59, 59).unwrap();
    let d = Timestamp::new(2024, 2, 1, 0, 0, 0).unwrap();
    assert!(a.is_not_after(&a));
    assert!(a.is_not_after(&b));
    assert!(!b.is_not_after(&a));
    assert!(c.is_not_after(&a));
    assert!(!a.is_not_after(&c));
    assert!(a.is_not_after(&d));
    assert!(!d.is_not_after(&b));
}

#[test]
fn every_day_of_some_years_agrees_with_the_calendar_library() {
    for year in [0u16, 1, 1600, 1900, 1999, 2000, 2023, 2024, 2100, 9999] {
        for month in 0u8..=13 {
            for day in 0u8..=32 {
                let ours = Timestamp::new(year, month, day, 12, 34, 56);
                let theirs =
                    chrono::NaiveDate::from_ymd_opt(year as i32, month as u32, day as u32)
                        .and_then(|date| date.and_hms_opt(12, 34, 56));
                assert_eq!(ours.is_some(), theirs.is_some(), "{}-{}-{}", year, month, day);
                if let (Some(ours), Some(theirs)) = (ours, theirs) {
                    assert_eq!(ours.text(), theirs.format("%Y-%m-%d %H:%M:%S").to_string());
                }
            }
        }
    }
}

#[test]
fn every_time_of_day_agrees_with_the_calendar_library() {
    let date = chrono::NaiveDate::from_ymd_opt(2024, 6, 15).unwrap();
    for hour in 0u8..=24 {
        for minute in [0u8, 1, 9, 10, 59, 60] {
            for second in [0u8, 5, 59, 60] {
                let ours = Timestamp::new(2024, 6, 15, hour, minute, second);
                let theirs = date.and_hms_opt(hour as u32, minute as u32, second as u32);
                assert_eq!(ours.is_some(), theirs.is_some());
                if let (Some(ours), Some(theirs)) = (ours, theirs) {
                    assert_eq!(ours.text(), theirs.format("%Y-%m-%d %H:%M:%S").to_string());
                }
            }
        }
    }
}

#[test]
fn seconds_since_the_epoch_are_read_off_the_calendar() {
    assert_eq!(Timestamp::from_unix(0).unwrap().text(), "1970-01-01 00:00:00");
    assert_eq!(Timestamp::from_unix(1704103200).unwrap().text(), "2024-01-01 10:00:00");
    assert_eq!(Timestamp::from_unix(1709251199).unwrap().text(), "2024-02-29 23:59:59");
    assert_eq!(Timestamp::from_unix(-1).unwrap().text(), "1969-12-31 23:59:59");
    assert_eq!(Timestamp::from_unix(253402300799).unwrap().text(), "9999-12-31 23:59:59");
    assert_eq!(Timestamp::from_unix(-62167219200).unwrap().text(), "0000-01-01 00:00:00");
}

#[test]
fn instants_outside_the_four_digit_years_are_refused() {
    assert!(Timestamp::from_unix(253402300800).is_none());
    assert!(Timestamp::from_unix(-62167219201).is_none());
    assert!(Timestamp::from_unix(i64::MAX).is_none());
    assert!(Timestamp::from_unix(i64::MIN).is_none());
}

#[test]
fn readings_are_checked() {
    assert_eq!(
        Timestamp::from_reading(2024, 1, 1, 10, 0, 0),
        Timestamp::new(2024, 1, 1, 10, 0, 0)
    );
    assert!(Timestamp::from_reading(2024, 1, 1, 10, 0, 0).is_some());
    assert!(Timestamp::from_reading(-1, 1, 1, 0, 0, 0).is_none());
    assert!(Timestamp::from_reading(10000, 1, 1, 0, 0, 0).is_none());
    assert!(Timestamp::from_reading(2024, 256, 1, 0, 0, 0).is_none());
    assert!(Timestamp::from_reading(2024, 1, 257, 0, 0, 0).is_none());
    assert!(Timestamp::from_reading(2024, 1, 1, 256, 0, 0).is_none());
    assert!(Timestamp::from_reading(2024, 1, 1, 0, 256, 0).is_none());
    assert!(Timestamp::from_reading(2024, 1, 1, 0, 0, 256).is_none());
    assert!(Timestamp::from_reading(2023, 2, 29, 0, 0, 0).is_none());
}
