use chinese_mainland_holidays::HolidayDate;
use chrono::{TimeZone, Utc};

#[test]
fn test_datetimetz_to_holiday() {
    let instant = Utc.with_ymd_and_hms(2024, 10, 1, 20, 0, 0).unwrap();
    let date = HolidayDate::from_timestamp(instant.timestamp()).unwrap();
    assert_eq!(date, HolidayDate::from_ymd(2024, 10, 2).unwrap());
}

#[test]
fn timestamp_before_local_midnight_keeps_the_day() {
    let instant = Utc.with_ymd_and_hms(2024, 10, 1, 15, 59, 59).unwrap();
    let date = HolidayDate::from_timestamp(instant.timestamp()).unwrap();
    assert_eq!(date, HolidayDate::from_ymd(2024, 10, 1).unwrap());
    let epoch = HolidayDate::from_timestamp(0).unwrap();
    assert_eq!(epoch, HolidayDate::from_ymd(1970, 1, 1).unwrap());
}

#[test]
fn timestamp_out_of_range_is_none() {
    assert_eq!(HolidayDate::from_timestamp(i64::MAX), None);
    assert_eq!(HolidayDate::from_timestamp(i64::MIN), None);
    // 0000-12-31T16:00:00Z is 0001-01-01 at UTC+8, one second earlier is year 0.
    let start = Utc.with_ymd_and_hms(0, 12, 31, 16, 0, 0).unwrap().timestamp();
    assert_eq!(HolidayDate::from_timestamp(start), HolidayDate::from_ymd(1, 1, 1));
    assert_eq!(HolidayDate::from_timestamp(start - 1), None);
}

#[test]
fn construction_rejects_impossible_dates() {
    assert_eq!(HolidayDate::from_ymd(2024, 0, 1), None);
    assert_eq!(HolidayDate::from_ymd(2024, 13, 1), None);
    assert_eq!(HolidayDate::from_ymd(2024, 1, 0), None);
    for month in 1..=12u8 {
        assert_eq!(HolidayDate::from_ymd(2024, month, 32), None);
    }
    assert_eq!(HolidayDate::from_ymd(2024, 2, 30), None);
    assert_eq!(HolidayDate::from_ymd(2024, 4, 31), None);
    assert_eq!(HolidayDate::from_ymd(0, 1, 1), None);
}

#[test]
fn february_29_only_in_leap_years() {
    assert!(HolidayDate::from_ymd(2024, 2, 29).is_some());
    assert!(HolidayDate::from_ymd(2000, 2, 29).is_some());
    assert!(HolidayDate::from_ymd(1900, 2, 29).is_none());
    assert!(HolidayDate::from_ymd(2023, 2, 29).is_none());
    assert!(HolidayDate::from_ymd(2023, 2, 28).is_some());
    assert!(HolidayDate::from_ymd(65535, 12, 31).is_some());
}

#[test]
fn civil_components_convert() {
    assert_eq!(HolidayDate::from_civil(2024, 10, 2), HolidayDate::from_ymd(2024, 10, 2));
    assert_eq!(HolidayDate::from_civil(0, 1, 1), None);
    assert_eq!(HolidayDate::from_civil(-5, 1, 1), None);
    assert_eq!(HolidayDate::from_civil(65536, 1, 1), None);
    assert_eq!(HolidayDate::from_civil(2024, 256 + 2, 1), None);
    assert_eq!(HolidayDate::from_civil(2023, 2, 29), None);
}

#[test]
fn dates_order_by_year_month_day() {
    let a = HolidayDate::from_ymd(2024, 2, 29).unwrap();
    let b = HolidayDate::from_ymd(2024, 3, 1).unwrap();
    let c = HolidayDate::from_ymd(2025, 1, 1).unwrap();
    assert!(a < b && b < c);
    assert_eq!(a.u32_value(), 2024 * 366 + 2 * 31 + 29);
}
