use vstd::prelude::*;

use crate::date::{date_key, is_valid_date, key_of};
use crate::kind::HolidayKind::{
    self, G0101Holiday, G0501Holiday, G0501Workday, G1001Holiday, G1001Workday, L0101Holiday,
    L0101Workday, L0505Holiday, L0815Holiday, L0815Workday, S05Holiday, S05Workday,
};

verus! {

/// The first year whose holidays are recorded.
pub const MIN_YEAR: u16 = 2024;

/// The last year whose holidays are recorded.
pub const MAX_YEAR: u16 = 2024;

/// The number of recorded special dates.
pub const HOLIDAY_COUNT: usize = 27;

/// The recorded special dates in ascending order: year, month, day and kind.
///
/// The 2024 dates follow the State Council's notice on the 2024 holiday arrangements.
pub open spec fn spec_holiday_record(i: int) -> (int, int, int, HolidayKind) {
    if i == 0 {
        (2024, 1, 1, G0101Holiday)
    } else if i == 1 {
        (2024, 2, 4, L0101Workday)
    } else if i == 2 {
        (2024, 2, 12, L0101Holiday)
    } else if i == 3 {
        (2024, 2, 13, L0101Holiday)
    } else if i == 4 {
        (2024, 2, 14, L0101Holiday)
    } else if i == 5 {
        (2024, 2, 15, L0101Holiday)
    } else if i == 6 {
        (2024, 2, 16, L0101Holiday)
    } else if i == 7 {
        (2024, 2, 18, L0101Workday)
    } else if i == 8 {
        (2024, 4, 4, S05Holiday)
    } else if i == 9 {
        (2024, 4, 5, S05Holiday)
    } else if i == 10 {
        (2024, 4, 7, S05Workday)
    } else if i == 11 {
        (2024, 4, 28, G0501Workday)
    } else if i == 12 {
        (2024, 5, 1, G0501Holiday)
    } else if i == 13 {
        (2024, 5, 2, G0501Holiday)
    } else if i == 14 {
        (2024, 5, 3, G0501Holiday)
    } else if i == 15 {
        (2024, 5, 11, G0501Workday)
    } else if i == 16 {
        (2024, 6, 10, L0505Holiday)
    } else if i == 17 {
        (2024, 9, 14, L0815Workday)
    } else if i == 18 {
        (2024, 9, 16, L0815Holiday)
    } else if i == 19 {
        (2024, 9, 17, L0815Holiday)
    } else if i == 20 {
        (2024, 9, 29, G1001Workday)
    } else if i == 21 {
        (2024, 10, 1, G1001Holiday)
    } else if i == 22 {
        (2024, 10, 2, G1001Holiday)
    } else if i == 23 {
        (2024, 10, 3, G1001Holiday)
    } else if i == 24 {
        (2024, 10, 4, G1001Holiday)
    } else if i == 25 {
        (2024, 10, 7, G1001Holiday)
    } else {
        (2024, 10, 12, G1001Workday)
    }
}

/// The date key of the recorded special date at index `i`.
pub open spec fn spec_holiday_key(i: int) -> int {
    let r = spec_holiday_record(i);
    date_key(r.0, r.1, r.2)
}

/// Returns the recorded special date at index `i`: its date key and its kind.
pub fn holiday_record(i: usize) -> (r: (u32, HolidayKind))
    requires
        i < HOLIDAY_COUNT,
    ensures
        r.0 as int == spec_holiday_key(i as int),
        r.1 == spec_holiday_record(i as int).3,
{
    match i {
        0 => (key_of(2024, 1, 1), G0101Holiday),
        1 => (key_of(2024, 2, 4), L0101Workday),
        2 => (key_of(2024, 2, 12), L0101Holiday),
        3 => (key_of(2024, 2, 13), L0101Holiday),
        4 => (key_of(2024, 2, 14), L0101Holiday),
        5 => (key_of(2024, 2, 15), L0101Holiday),
        6 => (key_of(2024, 2, 16), L0101Holiday),
        7 => (key_of(2024, 2, 18), L0101Workday),
        8 => (key_of(2024, 4, 4), S05Holiday),
        9 => (key_of(2024, 4, 5), S05Holiday),
        10 => (key_of(2024, 4, 7), S05Workday),
        11 => (key_of(2024, 4, 28), G0501Workday),
        12 => (key_of(2024, 5, 1), G0501Holiday),
        13 => (key_of(2024, 5, 2), G0501Holiday),
        14 => (key_of(2024, 5, 3), G0501Holiday),
        15 => (key_of(2024, 5, 11), G0501Workday),
        16 => (key_of(2024, 6, 10), L0505Holiday),
        17 => (key_of(2024, 9, 14), L0815Workday),
        18 => (key_of(2024, 9, 16), L0815Holiday),
        19 => (key_of(2024, 9, 17), L0815Holiday),
        20 => (key_of(2024, 9, 29), G1001Workday),
        21 => (key_of(2024, 10, 1), G1001Holiday),
        22 => (key_of(2024, 10, 2), G1001Holiday),
        23 => (key_of(2024, 10, 3), G1001Holiday),
        24 => (key_of(2024, 10, 4), G1001Holiday),
        25 => (key_of(2024, 10, 7), G1001Holiday),
        _ => (key_of(2024, 10, 12), G1001Workday),
    }
}

proof fn lemma_keys_increase(i: int, j: int)
    requires
        0 <= i < j < HOLIDAY_COUNT,
    ensures
        spec_holiday_key(i) < spec_holiday_key(j),
    decreases j - i,
{
    if i + 1 < j {
        lemma_keys_increase(i, j - 1);
        lemma_keys_increase(j - 1, j);
    }
}

/// The table of recorded dates is well formed: its keys strictly increase, every entry
/// is a valid date whose year is recorded, and the first and last keys lie within the
/// key ranges of the first and last recorded years.
pub proof fn lemma_holiday_table_well_formed()
    ensures
        0 < MIN_YEAR <= MAX_YEAR,
        0 < HOLIDAY_COUNT,
        forall|i: int, j: int|
            0 <= i < j < HOLIDAY_COUNT ==> spec_holiday_key(i) < spec_holiday_key(j),
        forall|i: int|
            0 <= i < HOLIDAY_COUNT ==> {
                let r = #[trigger] spec_holiday_record(i);
                &&& is_valid_date(r.0, r.1, r.2)
                &&& MIN_YEAR <= r.0 <= MAX_YEAR
            },
        MIN_YEAR * 366 < spec_holiday_key(0) < (MIN_YEAR + 1) * 366,
        MAX_YEAR * 366 < spec_holiday_key(HOLIDAY_COUNT - 1) < (MAX_YEAR + 1) * 366,
{
    assert forall|i: int, j: int|
        0 <= i < j < HOLIDAY_COUNT implies spec_holiday_key(i) < spec_holiday_key(j) by {
        lemma_keys_increase(i, j);
    }
}

} // verus!
