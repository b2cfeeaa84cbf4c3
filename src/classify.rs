use vstd::prelude::*;

use crate::date::{date_key, day_of_week, is_valid_date, zeller_day_of_week, HolidayDate};
use crate::kind::HolidayKind;
use crate::table::{
    holiday_record, lemma_holiday_table_well_formed, spec_holiday_key, spec_holiday_record,
    HOLIDAY_COUNT, MAX_YEAR, MIN_YEAR,
};

verus! {

/// The kind recorded in the table for the date key `key`, if any.
pub open spec fn recorded_kind(key: int) -> Option<HolidayKind> {
    if exists|i: int| 0 <= i < HOLIDAY_COUNT && #[trigger] spec_holiday_key(i) == key {
        let i = choose|i: int| 0 <= i < HOLIDAY_COUNT && #[trigger] spec_holiday_key(i) == key;
        Some(spec_holiday_record(i).3)
    } else {
        None
    }
}

/// The kind of a day that the table does not record, from its day of the week.
pub open spec fn weekday_kind(day_of_week: int) -> HolidayKind {
    if day_of_week == 0 || day_of_week == 6 {
        HolidayKind::RegularHoliday
    } else {
        HolidayKind::RegularWorkday
    }
}

/// The kind of the date (`year`, `month`, `day`): unknown outside the recorded years;
/// else the recorded kind, which wins over the day of the week; else the weekend or
/// weekday default.
pub open spec fn classify(year: int, month: int, day: int) -> Option<HolidayKind> {
    if year < MIN_YEAR || year > MAX_YEAR {
        None
    } else {
        match recorded_kind(date_key(year, month, day)) {
            Some(k) => Some(k),
            None => Some(weekday_kind(zeller_day_of_week(year, month, day))),
        }
    }
}

/// Whether a day of the given kind is a holiday; unknown where the kind is.
pub open spec fn holiday_answer(kind: Option<HolidayKind>) -> Option<bool> {
    match kind {
        Some(k) => Some(k.spec_is_holiday()),
        None => None,
    }
}

/// Methods for determining whether a date is a holiday.
pub trait HolidayLike {
    /// The kind of the date, or `None` where its year is not recorded.
    spec fn spec_holiday_kind(&self) -> Option<HolidayKind>;

    /// Returns the holiday kind of the date.
    ///
    /// Returns `None` when the year is less than `MIN_YEAR` or greater than `MAX_YEAR`.
    fn holiday_kind(&self) -> (r: Option<HolidayKind>)
        ensures
            r == self.spec_holiday_kind(),
    ;

    /// Returns whether the date is a holiday.
    ///
    /// Returns `None` when the year is less than `MIN_YEAR` or greater than `MAX_YEAR`.
    fn is_holiday(&self) -> (r: Option<bool>)
        ensures
            r == holiday_answer(self.spec_holiday_kind()),
    {
        match self.holiday_kind() {
            Some(k) => Some(k.is_holiday()),
            None => None,
        }
    }
}

/// Looks `key` up in the table of recorded dates by binary search.
fn find_recorded(key: u32) -> (r: Option<HolidayKind>)
    ensures
        r == recorded_kind(key as int),
{
    proof {
        lemma_holiday_table_well_formed();
    }
    let mut lo: usize = 0;
    let mut hi: usize = HOLIDAY_COUNT;
    while lo < hi
        invariant
            0 <= lo <= hi <= HOLIDAY_COUNT,
            forall|i: int| 0 <= i < lo ==> spec_holiday_key(i) < key,
            forall|i: int| hi <= i < HOLIDAY_COUNT ==> spec_holiday_key(i) > key,
            forall|i: int, j: int|
                0 <= i < j < HOLIDAY_COUNT ==> spec_holiday_key(i) < spec_holiday_key(j),
        decreases hi - lo,
    {
        let mid: usize = lo + (hi - lo) / 2;
        let (k, kind) = holiday_record(mid);
        if k == key {
            proof {
                let j = choose|j: int|
                    0 <= j < HOLIDAY_COUNT && #[trigger] spec_holiday_key(j) == key;
                assert(j == mid as int);
            }
            return Some(kind);
        } else if k < key {
            lo = mid + 1;
        } else {
            hi = mid;
        }
    }
    None
}

impl HolidayLike for HolidayDate {
    open spec fn spec_holiday_kind(&self) -> Option<HolidayKind> {
        classify(self.spec_year(), self.spec_month(), self.spec_day())
    }

    fn holiday_kind(&self) -> (r: Option<HolidayKind>)
        ensures
            r is Some <==> MIN_YEAR <= self.spec_year() <= MAX_YEAR,
    {
        proof {
            use_type_invariant(self);
        }
        if self.year < MIN_YEAR || self.year > MAX_YEAR {
            None
        } else {
            match find_recorded(self.u32_value()) {
                Some(k) => Some(k),
                None => {
                    let dow = day_of_week(self.year, self.month, self.day);
                    if dow == 0 || dow == 6 {
                        Some(HolidayKind::RegularHoliday)
                    } else {
                        Some(HolidayKind::RegularWorkday)
                    }
                },
            }
        }
    }
}

/// Every valid date of a recorded year has a kind: the classification is never unknown
/// there.
pub proof fn lemma_recorded_years_known(year: int, month: int, day: int)
    requires
        is_valid_date(year, month, day),
        MIN_YEAR <= year <= MAX_YEAR,
    ensures
        classify(year, month, day) is Some,
        holiday_answer(classify(year, month, day)) is Some,
{
}

/// Every recorded date has its recorded kind, whatever its day of the week.
pub proof fn lemma_recorded_dates_win(i: int)
    requires
        0 <= i < HOLIDAY_COUNT,
    ensures
        ({
            let r = spec_holiday_record(i);
            classify(r.0, r.1, r.2) == Some(r.3)
        }),
{
    lemma_holiday_table_well_formed();
    let r = spec_holiday_record(i);
    assert(spec_holiday_key(i) == date_key(r.0, r.1, r.2));
    let j = choose|j: int| 0 <= j < HOLIDAY_COUNT && #[trigger] spec_holiday_key(j) == spec_holiday_key(i);
    assert(j == i);
}

/// Outside the recorded years both the kind of a date and whether it is a holiday are
/// unknown.
pub proof fn lemma_unrecorded_years_unknown(year: int, month: int, day: int)
    requires
        year < MIN_YEAR || year > MAX_YEAR,
    ensures
        classify(year, month, day) is None,
        holiday_answer(classify(year, month, day)) is None,
{
}

} // verus!
