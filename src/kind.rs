use vstd::prelude::*;

verus! {

/// The kind of a day: a holiday or a working day, and why.
///
/// Each `*Holiday` is a weekday that is a holiday; each `*Workday` is a Saturday or
/// Sunday that is a working day. New festivals may be added.
#[derive(Debug, Clone, Copy, PartialEq, Eq, Structural, Hash)]
#[non_exhaustive]
pub enum HolidayKind {
    /// A regular Saturday or Sunday.
    RegularHoliday,
    /// A regular weekday.
    RegularWorkday,
    /// A holiday on a weekday for New Year.
    G0101Holiday,
    /// An adjusted working day for New Year.
    G0101Workday,
    /// A holiday on a weekday for Chinese New Year.
    L0101Holiday,
    /// An adjusted working day for Chinese New Year.
    L0101Workday,
    /// A holiday on a weekday for Qingming Festival.
    S05Holiday,
    /// An adjusted working day for Qingming Festival.
    S05Workday,
    /// A holiday on a weekday for May Day.
    G0501Holiday,
    /// An adjusted working day for May Day.
    G0501Workday,
    /// A holiday on a weekday for Dragon Boat Festival.
    L0505Holiday,
    /// An adjusted working day for Dragon Boat Festival.
    L0505Workday,
    /// A holiday on a weekday for Mid-Autumn Festival.
    L0815Holiday,
    /// An adjusted working day for Mid-Autumn Festival.
    L0815Workday,
    /// A holiday on a weekday for National Day.
    G1001Holiday,
    /// An adjusted working day for National Day.
    G1001Workday,
}

impl HolidayKind {
    /// Whether a day of this kind is a holiday; every variant is named, none by default.
    pub open spec fn spec_is_holiday(self) -> bool {
        match self {
            HolidayKind::RegularHoliday
            | HolidayKind::G0101Holiday
            | HolidayKind::L0101Holiday
            | HolidayKind::S05Holiday
            | HolidayKind::G0501Holiday
            | HolidayKind::L0505Holiday
            | HolidayKind::L0815Holiday
            | HolidayKind::G1001Holiday => true,
            HolidayKind::RegularWorkday
            | HolidayKind::G0101Workday
            | HolidayKind::L0101Workday
            | HolidayKind::S05Workday
            | HolidayKind::G0501Workday
            | HolidayKind::L0505Workday
            | HolidayKind::L0815Workday
            | HolidayKind::G1001Workday => false,
        }
    }

    /// Returns whether a day of this kind is a holiday.
    pub fn is_holiday(&self) -> (r: bool)
        ensures
            r == self.spec_is_holiday(),
    {
        match self {
            HolidayKind::RegularHoliday
            | HolidayKind::G0101Holiday
            | HolidayKind::L0101Holiday
            | HolidayKind::S05Holiday
            | HolidayKind::G0501Holiday
            | HolidayKind::L0505Holiday
            | HolidayKind::L0815Holiday
            | HolidayKind::G1001Holiday => true,
            HolidayKind::RegularWorkday
            | HolidayKind::G0101Workday
            | HolidayKind::L0101Workday
            | HolidayKind::S05Workday
            | HolidayKind::G0501Workday
            | HolidayKind::L0505Workday
            | HolidayKind::L0815Workday
            | HolidayKind::G1001Workday => false,
        }
    }
}

/// Every holiday variant, the regular one included, is a holiday, and every working-day
/// variant, the regular one included, is not: each kind falls on exactly one side.
pub proof fn lemma_holiday_kinds_partition(k: HolidayKind)
    ensures
        k.spec_is_holiday() <==> {
            ||| k is RegularHoliday
            ||| k is G0101Holiday
            ||| k is L0101Holiday
            ||| k is S05Holiday
            ||| k is G0501Holiday
            ||| k is L0505Holiday
            ||| k is L0815Holiday
            ||| k is G1001Holiday
        },
        !k.spec_is_holiday() <==> {
            ||| k is RegularWorkday
            ||| k is G0101Workday
            ||| k is L0101Workday
            ||| k is S05Workday
            ||| k is G0501Workday
            ||| k is L0505Workday
            ||| k is L0815Workday
            ||| k is G1001Workday
        },
{
}

} // verus!
