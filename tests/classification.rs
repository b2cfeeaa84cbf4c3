use chinese_mainland_holidays::{
    day_of_week, holiday_record, HolidayDate, HolidayKind, HolidayLike, HOLIDAY_COUNT,
    MAX_YEAR, MIN_YEAR,
};

fn date(year: u16, month: u8, day: u8) -> HolidayDate {
    HolidayDate::from_ymd(year, month, day).unwrap()
}

#[test]
fn test_day_of_week() {
    assert_eq!(day_of_week(2024, 2, 29), 4);
    assert_eq!(day_of_week(2024, 10, 1), 2);
}

#[test]
fn test_holiday_kind() {
    assert!(date(2023, 10, 1).holiday_kind().is_none());
    assert!(matches!(
        date(2024, 10, 12).holiday_kind().unwrap(),
        HolidayKind::G1001Workday
    ));
}

#[test]
fn test_holidays() {
    assert!(MIN_YEAR > 0 && MIN_YEAR <= MAX_YEAR);
    assert!(HOLIDAY_COUNT > 0);
    let first_value = holiday_record(0).0;
    assert!(MIN_YEAR as u32 * 366 < first_value && first_value < (MIN_YEAR + 1) as u32 * 366);
    let last_value = holiday_record(HOLIDAY_COUNT - 1).0;
    assert!(MAX_YEAR as u32 * 366 < last_value && last_value < (MAX_YEAR + 1) as u32 * 366);
    let mut prev = 0;
    for i in 0..HOLIDAY_COUNT {
        let (v, _) = holiday_record(i);
        assert!(prev < v);
        prev = v;
    }
}

#[test]
fn day_of_week_sunday_and_saturday() {
    assert_eq!(day_of_week(2024, 2, 4), 0);
    assert_eq!(day_of_week(2024, 9, 14), 6);
    assert_eq!(day_of_week(2000, 1, 1), 6);
    assert_eq!(day_of_week(1, 1, 1), 1);
    assert_eq!(day_of_week(65535, 12, 31), day_of_week(65535, 12, 31) % 7);
}

#[test]
fn override_wins_over_weekend() {
    assert_eq!(date(2024, 2, 4).holiday_kind(), Some(HolidayKind::L0101Workday));
    assert_eq!(date(2024, 9, 14).holiday_kind(), Some(HolidayKind::L0815Workday));
    assert_eq!(date(2024, 2, 4).is_holiday(), Some(false));
}

#[test]
fn override_wins_over_weekday() {
    assert_eq!(date(2024, 10, 1).holiday_kind(), Some(HolidayKind::G1001Holiday));
    assert_eq!(date(2024, 10, 7).is_holiday(), Some(true));
    assert_eq!(date(2024, 1, 1).holiday_kind(), Some(HolidayKind::G0101Holiday));
}

#[test]
fn regular_days_follow_the_week() {
    // 2024-03-02 is a Saturday, 2024-03-04 a Monday.
    assert_eq!(date(2024, 3, 2).holiday_kind(), Some(HolidayKind::RegularHoliday));
    assert_eq!(date(2024, 3, 2).is_holiday(), Some(true));
    assert_eq!(date(2024, 3, 4).holiday_kind(), Some(HolidayKind::RegularWorkday));
    assert_eq!(date(2024, 3, 4).is_holiday(), Some(false));
}

#[test]
fn every_recorded_year_date_is_known() {
    for month in 1..=12u8 {
        for day in 1..=31u8 {
            if let Some(d) = HolidayDate::from_ymd(2024, month, day) {
                assert!(d.holiday_kind().is_some());
                assert!(d.is_holiday().is_some());
            }
        }
    }
}

#[test]
fn unrecorded_years_are_unknown() {
    assert_eq!(date(2023, 10, 1).holiday_kind(), None);
    assert_eq!(date(2023, 10, 1).is_holiday(), None);
    assert_eq!(date(2025, 1, 1).holiday_kind(), None);
    assert_eq!(date(2025, 1, 1).is_holiday(), None);
    assert_eq!(date(1, 1, 1).is_holiday(), None);
    assert_eq!(date(65535, 12, 31).holiday_kind(), None);
}

#[test]
fn kinds_split_into_holidays_and_workdays() {
    let holidays = [
        HolidayKind::RegularHoliday,
        HolidayKind::G0101Holiday,
        HolidayKind::L0101Holiday,
        HolidayKind::S05Holiday,
        HolidayKind::G0501Holiday,
        HolidayKind::L0505Holiday,
        HolidayKind::L0815Holiday,
        HolidayKind::G1001Holiday,
    ];
    let workdays = [
        HolidayKind::RegularWorkday,
        HolidayKind::G0101Workday,
        HolidayKind::L0101Workday,
        HolidayKind::S05Workday,
        HolidayKind::G0501Workday,
        HolidayKind::L0505Workday,
        HolidayKind::L0815Workday,
        HolidayKind::G1001Workday,
    ];
    for k in holidays {
        assert!(k.is_holiday());
    }
    for k in workdays {
        assert!(!k.is_holiday());
    }
}

#[test]
fn weekday_advances_day_by_day() {
    let mut prev: Option<u8> = None;
    for year in [1899u16, 1900, 2000, 2023, 2024] {
        for month in 1..=12u8 {
            for day in 1..=31u8 {
                if HolidayDate::from_ymd(year, month, day).is_some() {
                    let dow = day_of_week(year, month, day);
                    assert!(dow < 7);
                    if let Some(p) = prev {
                        if !(month == 1 && day == 1 && (year == 1899 || year == 2000 || year == 2023)) {
                            assert_eq!(dow, (p + 1) % 7);
                        }
                    }
                    prev = Some(dow);
                }
            }
        }
    }
}

#[test]
fn every_recorded_date_has_its_kind() {
    let expected = [
        ((2024, 4, 4), HolidayKind::S05Holiday),
        ((2024, 4, 7), HolidayKind::S05Workday),
        ((2024, 4, 28), HolidayKind::G0501Workday),
        ((2024, 5, 11), HolidayKind::G0501Workday),
        ((2024, 6, 10), HolidayKind::L0505Holiday),
        ((2024, 9, 17), HolidayKind::L0815Holiday),
        ((2024, 9, 29), HolidayKind::G1001Workday),
    ];
    for ((y, m, d), kind) in expected {
        let date = date(y, m, d);
        assert_eq!(date.holiday_kind(), Some(kind));
        let key = date.u32_value();
        let found = (0..HOLIDAY_COUNT).map(holiday_record).find(|r| r.0 == key);
        assert_eq!(found.map(|r| r.1), Some(kind));
    }
}
