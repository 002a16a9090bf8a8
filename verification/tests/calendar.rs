use chrono::{Datelike, NaiveDate, NaiveTime, Timelike};
use fedik::widgets::format_week_string;

// The chrono behaviour that the library's trusted date items state.

#[test]
fn from_ymd_opt_accepts_exactly_the_valid_dates() {
    assert!(NaiveDate::from_ymd_opt(2000, 1, 1).is_some());
    assert!(NaiveDate::from_ymd_opt(2000, 2, 29).is_some());
    assert!(NaiveDate::from_ymd_opt(1900, 2, 29).is_none());
    assert!(NaiveDate::from_ymd_opt(2015, 2, 29).is_none());
    assert!(NaiveDate::from_ymd_opt(-4, 2, 29).is_some());
    assert!(NaiveDate::from_ymd_opt(-100, 2, 29).is_none());
    assert!(NaiveDate::from_ymd_opt(2023, 4, 31).is_none());
    assert!(NaiveDate::from_ymd_opt(2023, 0, 1).is_none());
    assert!(NaiveDate::from_ymd_opt(2023, 13, 1).is_none());
    assert!(NaiveDate::from_ymd_opt(2023, 1, 0).is_none());
    assert!(NaiveDate::from_ymd_opt(262142, 12, 31).is_some());
    assert!(NaiveDate::from_ymd_opt(262143, 1, 1).is_none());
    assert!(NaiveDate::from_ymd_opt(-262143, 1, 1).is_some());
    assert!(NaiveDate::from_ymd_opt(-262144, 12, 31).is_none());
}

#[test]
fn week_and_weekday_numbers_stay_in_range() {
    let mut date = NaiveDate::from_ymd_opt(2019, 12, 20).unwrap();
    for _ in 0..800 {
        let w = date.iso_week().week();
        let d = date.weekday().number_from_monday();
        assert!((1..=53).contains(&w));
        assert!((1..=7).contains(&d));
        assert_eq!(format_week_string(date), format!("w{}-{}", w, d));
        date = date.succ_opt().unwrap();
    }
}

#[test]
fn time_fields_stay_in_range() {
    let t = NaiveTime::from_hms_nano_opt(23, 59, 59, 1_999_999_999).unwrap();
    assert_eq!((t.hour(), t.minute(), t.second()), (23, 59, 59));
    assert!(t.nanosecond() < 2_000_000_000);
}
