use vstd::arithmetic::div_mod::{lemma_add_mod_noop, lemma_mod_multiples_vanish};
use vstd::prelude::*;

verus! {

/// Whether `year` is a leap year of the proleptic Gregorian calendar: divisible by 4
/// and not by 100, unless divisible by 400.
pub open spec fn is_leap_year(year: int) -> bool {
    (year % 4 == 0 && year % 100 != 0) || year % 400 == 0
}

/// The number of days of `month` (1 to 12) in `year`.
pub open spec fn days_in_month(year: int, month: int) -> int {
    if month == 2 {
        if is_leap_year(year) {
            29
        } else {
            28
        }
    } else if month == 4 || month == 6 || month == 9 || month == 11 {
        30
    } else {
        31
    }
}

/// Whether (`year`, `month`, `day`) names a day of the proleptic Gregorian calendar,
/// whatever the sign of the year.
pub open spec fn is_calendar_date(year: int, month: int, day: int) -> bool {
    &&& 1 <= month <= 12
    &&& 1 <= day <= days_in_month(year, month)
}

/// Whether (`year`, `month`, `day`) is a calendar date with a year of at least 1.
pub open spec fn is_valid_date(year: int, month: int, day: int) -> bool {
    &&& 1 <= year
    &&& is_calendar_date(year, month, day)
}

/// The lookup key of a date: `year * 366 + month * 31 + day`.
///
/// Within one year the key grows strictly with the date. It is no count of days and is
/// never used for date arithmetic.
pub open spec fn date_key(year: int, month: int, day: int) -> int {
    year * 366 + month * 31 + day
}

/// Within one year the key orders dates as the calendar does, and tells them apart.
pub proof fn lemma_key_orders_dates_within_year(year: int, m1: int, d1: int, m2: int, d2: int)
    requires
        is_valid_date(year, m1, d1),
        is_valid_date(year, m2, d2),
    ensures
        date_key(year, m1, d1) < date_key(year, m2, d2) <==> (m1 < m2 || (m1 == m2 && d1 < d2)),
        date_key(year, m1, d1) == date_key(year, m2, d2) <==> (m1 == m2 && d1 == d2),
{
}

/// The sum that Zeller's congruence takes modulo 7.
///
/// January and February count as months 13 and 14 of the year before; the month is
/// then shifted so that March is 1, and the year is split into century and year of
/// century.
pub open spec fn zeller_sum(year: int, month: int, day: int) -> int {
    let m = if month > 2 { month - 2 } else { month + 10 };
    let y = if month > 2 { year } else { year - 1 };
    let c = y / 100;
    let yc = y % 100;
    (13 * m - 1) / 5 + day + yc + yc / 4 + c / 4 + 5 * c
}

/// The day of the week by Zeller's congruence, 0 being Sunday and 6 Saturday.
pub open spec fn zeller_day_of_week(year: int, month: int, day: int) -> int {
    zeller_sum(year, month, day) % 7
}

/// The bounds of a valid date: no year, month or day 0, no month 13, no day 32, no
/// 30 February, no 31 April, and 29 February exactly in leap years.
pub proof fn lemma_date_bounds(year: int, month: int, day: int)
    ensures
        !is_valid_date(0, month, day),
        !is_valid_date(year, 0, day),
        !is_valid_date(year, 13, day),
        !is_valid_date(year, month, 0),
        !is_valid_date(year, month, 32),
        !is_valid_date(year, 2, 30),
        !is_valid_date(year, 4, 31),
        year >= 1 ==> (is_valid_date(year, 2, 29) <==> is_leap_year(year)),
{
}

/// The date after (`year`, `month`, `day`).
pub open spec fn next_date(year: int, month: int, day: int) -> (int, int, int) {
    if day < days_in_month(year, month) {
        (year, month, day + 1)
    } else if month < 12 {
        (year, month + 1, 1)
    } else {
        (year + 1, 1, 1)
    }
}

/// 1 for a leap year, else 0.
spec fn leap_day(year: int) -> int {
    if is_leap_year(year) {
        1
    } else {
        0
    }
}

/// The part of Zeller's congruence that depends on the shifted year `y`.
spec fn year_term(y: int) -> int {
    y % 100 + (y % 100) / 4 + (y / 100) / 4 + 5 * (y / 100)
}

/// From one shifted year to the next, the year term grows by one, and by one more when
/// the new year is a leap year, up to a multiple of 7.
proof fn lemma_year_term_step(y: int)
    requires
        0 <= y,
    ensures
        year_term(y + 1) == year_term(y) + 1 + leap_day(y + 1)
            || year_term(y + 1) == year_term(y) + 1 + leap_day(y + 1) - 119,
{
    let c = y / 100;
    let r = y % 100;
    assert(y == 100 * c + r && 0 <= r < 100);
    if r < 99 {
        assert((y + 1) / 100 == c && (y + 1) % 100 == r + 1);
        assert((y + 1) % 4 == (r + 1) % 4);
    } else {
        assert((y + 1) / 100 == c + 1 && (y + 1) % 100 == 0);
        assert((c + 1) / 4 == c / 4 + (if (c + 1) % 4 == 0 { 1int } else { 0int }));
        assert((y + 1) % 400 == 0 <==> (c + 1) % 4 == 0);
    }
}

/// Zeller's congruence is the day of the week: from every valid date to the next it
/// advances by one, Saturday (6) being followed by Sunday (0).
pub proof fn lemma_day_of_week_advances(year: int, month: int, day: int)
    requires
        is_valid_date(year, month, day),
    ensures
        ({
            let (y, m, d) = next_date(year, month, day);
            zeller_day_of_week(y, m, d) == (zeller_day_of_week(year, month, day) + 1) % 7
        }),
{
    let (y2, m2, d2) = next_date(year, month, day);
    let s1 = zeller_sum(year, month, day);
    let s2 = zeller_sum(y2, m2, d2);
    let k: int = if day < days_in_month(year, month) {
        0
    } else if month != 2 {
        4
    } else {
        lemma_year_term_step(year - 1);
        if year_term(year) == year_term(year - 1) + 1 + leap_day(year) {
            8
        } else {
            25
        }
    };
    assert(s2 + 7 * k == s1 + 1);
    lemma_mod_multiples_vanish(k, s2, 7);
    lemma_add_mod_noop(s1, 1, 7);
}

/// A validated date of the proleptic Gregorian calendar, with a year from 1 to 65535.
///
/// Dates are ordered by year, then month, then day.
#[derive(Debug, Clone, Copy, PartialEq, Eq, Structural, PartialOrd, Ord, Hash)]
pub struct HolidayDate {
    pub(crate) year: u16,
    pub(crate) month: u8,
    pub(crate) day: u8,
}

impl HolidayDate {
    #[verifier::type_invariant]
    pub(crate) open spec fn inv(self) -> bool {
        is_valid_date(self.year as int, self.month as int, self.day as int)
    }

    /// The year of the date.
    pub open(crate) spec fn spec_year(&self) -> int {
        self.year as int
    }

    /// The month of the date, 1 to 12.
    pub open(crate) spec fn spec_month(&self) -> int {
        self.month as int
    }

    /// The day of the month, from 1.
    pub open(crate) spec fn spec_day(&self) -> int {
        self.day as int
    }

    /// Whether the date is (`year`, `month`, `day`).
    pub open(crate) spec fn is_ymd(&self, year: int, month: int, day: int) -> bool {
        self.year == year && self.month == month && self.day == day
    }

    /// Constructs a date from year, month and day.
    ///
    /// Returns `None` when the date does not exist or the year is 0.
    pub fn from_ymd(year: u16, month: u8, day: u8) -> (r: Option<Self>)
        ensures
            r is Some <==> is_valid_date(year as int, month as int, day as int),
            r matches Some(d) ==> d.is_ymd(year as int, month as int, day as int),
    {
        if year == 0 {
            return None;
        }
        if day == 0 {
            return None;
        }
        let leap = (year % 4 == 0 && year % 100 != 0) || year % 400 == 0;
        if month == 1 || month == 3 || month == 5 || month == 7 || month == 8 || month == 10
            || month == 12 {
            if day > 31 {
                return None;
            }
        } else if month == 4 || month == 6 || month == 9 || month == 11 {
            if day > 30 {
                return None;
            }
        } else if month == 2 {
            if day > 28 && !(day == 29 && leap) {
                return None;
            }
        } else {
            return None;
        }
        Some(HolidayDate { year, month, day })
    }

    /// The lookup key `year * 366 + month * 31 + day` of the date.
    pub fn u32_value(&self) -> (r: u32)
        ensures
            r == date_key(self.spec_year(), self.spec_month(), self.spec_day()),
    {
        key_of(self.year, self.month, self.day)
    }
}

/// The lookup key `year * 366 + month * 31 + day` of raw date components.
pub(crate) fn key_of(year: u16, month: u8, day: u8) -> (r: u32)
    ensures
        r == date_key(year as int, month as int, day as int),
{
    year as u32 * 366 + month as u32 * 31 + day as u32
}

/// Returns the day of the week of a valid date, 0 being Sunday and 6 Saturday.
pub fn day_of_week(year: u16, month: u8, day: u8) -> (r: u8)
    requires
        is_valid_date(year as int, month as int, day as int),
    ensures
        r as int == zeller_day_of_week(year as int, month as int, day as int),
        r < 7,
{
    let m: u8;
    let mut y: u16;
    if month > 2 {
        m = month - 2;
        y = year;
    } else {
        m = month + 10;
        y = year - 1;
    }
    let c: u16 = y / 100;
    y = y % 100;
    ((((13 * m - 1) / 5 + day) as u16 + y + y / 4 + c / 4 + 5 * c) % 7) as u8
}

} // verus!
