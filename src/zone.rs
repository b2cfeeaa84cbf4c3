use vstd::prelude::*;

use chrono::Datelike;

use crate::date::{is_calendar_date, is_valid_date, HolidayDate};

verus! {

/// The offset east of UTC, in seconds, of the civil time that dates are classified in
/// (UTC+8).
pub const REFERENCE_OFFSET_SECS: i32 = 28800;

/// The civil date (year, month, day), in the fixed zone `offset_secs` seconds east of
/// UTC, of the instant `secs` seconds after 1970-01-01T00:00:00Z; `None` where chrono
/// cannot represent the instant, the offset or the resulting local time.
pub uninterp spec fn civil_date_at(secs: int, offset_secs: int) -> Option<(int, int, int)>;

/// Relies on chrono's `FixedOffset::east_opt`, `DateTime::from_timestamp`,
/// `NaiveDateTime::checked_add_offset` and the `Datelike` accessors: the local date
/// depends on the two arguments alone, and every date chrono yields exists in the
/// proleptic Gregorian calendar.
#[verifier::external_body]
fn local_date_at(secs: i64, offset_secs: i32) -> (r: Option<(i32, u32, u32)>)
    ensures
        match r {
            Some((y, m, d)) => {
                &&& civil_date_at(secs as int, offset_secs as int) == Some(
                    (y as int, m as int, d as int),
                )
                &&& is_calendar_date(y as int, m as int, d as int)
            },
            None => civil_date_at(secs as int, offset_secs as int) is None,
        },
{
    let offset = chrono::FixedOffset::east_opt(offset_secs)?;
    let utc = chrono::DateTime::from_timestamp(secs, 0)?;
    let local = utc.naive_utc().checked_add_offset(offset)?;
    Some((local.year(), local.month(), local.day()))
}

impl HolidayDate {
    /// Converts a civil date given with wide components, as date libraries hand them out.
    ///
    /// Returns `None` when the date does not exist or the year is not within 1 to 65535.
    pub fn from_civil(year: i32, month: u32, day: u32) -> (r: Option<Self>)
        ensures
            r is Some <==> is_valid_date(year as int, month as int, day as int) && year <= 65535,
            r matches Some(d) ==> d.is_ymd(year as int, month as int, day as int),
    {
        if year < 1 || year > 65535 || month > 12 || day > 31 {
            None
        } else {
            HolidayDate::from_ymd(year as u16, month as u8, day as u8)
        }
    }

    /// Converts an instant, given in seconds since 1970-01-01T00:00:00Z, to its civil
    /// date at UTC+8; the time of day is dropped.
    ///
    /// Returns `None` when that date cannot be computed or its year is not within 1 to
    /// 65535.
    pub fn from_timestamp(secs: i64) -> (r: Option<Self>)
        ensures
            match civil_date_at(secs as int, REFERENCE_OFFSET_SECS as int) {
                Some((y, m, d)) => {
                    &&& r is Some <==> 1 <= y <= 65535
                    &&& r matches Some(date) ==> date.is_ymd(y, m, d)
                },
                None => r is None,
            },
    {
        match local_date_at(secs, REFERENCE_OFFSET_SECS) {
            Some((year, month, day)) => HolidayDate::from_civil(year, month, day),
            None => None,
        }
    }
}

} // verus!
