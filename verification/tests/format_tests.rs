use chrono::{Datelike, Timelike};
use ergani::dates::{Date, DateTime, format_date, format_datetime, format_time, get_day_of_week};
use ergani::wire::get_ergani_overtime_cancellation;

fn now_as_datetime() -> (DateTime, chrono::DateTime<chrono::Utc>) {
    let now = chrono::Utc::now();
    let dt = DateTime::new(
        now.year() as u16,
        now.month() as u8,
        now.day() as u8,
        now.hour() as u8,
        now.minute() as u8,
        now.second() as u8,
    )
    .unwrap();
    (dt, now)
}

#[test]
fn test_format_time() {
    let (dt, now) = now_as_datetime();
    let formatted_time = format_time(&dt);
    assert_eq!(formatted_time, now.format("%H:%M").to_string());
}

#[test]
fn test_format_date() {
    let date = Date::new(2021, 1, 1).unwrap();
    let chrono_date = chrono::NaiveDate::from_ymd_opt(2021, 1, 1).unwrap();
    let formatted_date = format_date(Some(&date));
    assert_eq!(formatted_date, chrono_date.format("%d/%m/%Y").to_string());
}

#[test]
fn test_format_datetime() {
    let (dt, now) = now_as_datetime();
    let formatted_datetime = format_datetime(Some(&dt));
    assert_eq!(
        formatted_datetime,
        now.format("%Y-%m-%dT%H:%M:%S").to_string()
    );
}

#[test]
fn test_get_day_of_week() {
    let date = Date::new(2021, 1, 1).unwrap();
    let chrono_date = chrono::NaiveDate::from_ymd_opt(2021, 1, 1).unwrap();
    let day_of_week = get_day_of_week(Some(date));
    assert_eq!(day_of_week, chrono_date.weekday().to_string());
}

#[test]
fn test_get_ergani_overtime_cancellation() {
    let cancellation = true;
    let ergani_cancellation = get_ergani_overtime_cancellation(cancellation);
    assert_eq!(ergani_cancellation, "1");
}

#[test]
fn test_get_ergani_overtime_cancellation_not_cancelled() {
    assert_eq!(get_ergani_overtime_cancellation(false), "Ο");
}

#[test]
fn test_day_of_week_matches_chrono_across_a_year() {
    let mut date = chrono::NaiveDate::from_ymd_opt(2023, 12, 25).unwrap();
    for _ in 0..400 {
        let ours = get_day_of_week(Some(
            Date::new(date.year() as u16, date.month() as u8, date.day() as u8).unwrap(),
        ));
        assert_eq!(ours, date.weekday().to_string());
        date = date.succ_opt().unwrap();
    }
}

#[test]
fn test_day_of_week_sunday_derived_from_date() {
    let date = Date::new(2024, 3, 17).unwrap();
    assert_eq!(get_day_of_week(Some(date)), "Sun");
}

#[test]
fn test_format_date_none_is_empty() {
    assert_eq!(format_date(None), "");
    assert_eq!(format_datetime(None), "");
    assert_eq!(get_day_of_week(None), "");
}

#[test]
fn test_date_validation() {
    assert!(Date::new(2024, 2, 29).is_some());
    assert!(Date::new(2023, 2, 29).is_none());
    assert!(Date::new(2000, 2, 29).is_some());
    assert!(Date::new(1900, 2, 29).is_none());
    assert!(Date::new(2024, 4, 31).is_none());
    assert!(Date::new(2024, 13, 1).is_none());
    assert!(Date::new(2024, 0, 1).is_none());
    assert!(DateTime::new(2024, 3, 17, 24, 0, 0).is_none());
    assert!(DateTime::new(2024, 3, 17, 23, 59, 59).is_some());
}
