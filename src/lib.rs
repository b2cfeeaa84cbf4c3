//! Chinese Mainland statutory holiday classification.
//!
//! A date is looked up in a table of recorded holidays and adjusted working days;
//! other dates fall back to the weekend/weekday rule. Years outside the recorded range
//! are unknown.
mod classify;
mod date;
mod kind;
mod table;
mod zone;

pub use classify::{
    classify, holiday_answer, lemma_recorded_dates_win, lemma_recorded_years_known,
    lemma_unrecorded_years_unknown, recorded_kind, weekday_kind, HolidayLike,
};
pub use date::{
    date_key, day_of_week, days_in_month, is_calendar_date, is_leap_year, is_valid_date,
    lemma_date_bounds, lemma_day_of_week_advances, lemma_key_orders_dates_within_year,
    next_date, zeller_day_of_week, zeller_sum, HolidayDate,
};
pub use kind::{lemma_holiday_kinds_partition, HolidayKind};
pub use table::{
    holiday_record, lemma_holiday_table_well_formed, spec_holiday_key, spec_holiday_record,
    HOLIDAY_COUNT, MAX_YEAR, MIN_YEAR,
};
pub use zone::{civil_date_at, REFERENCE_OFFSET_SECS};
