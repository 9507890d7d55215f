//! Calendar dates and the number of whole years or months between two of them.

use vstd::prelude::*;

verus! {

/// A calendar date with a time of day. Fields are taken as given: no range
/// check is made on month or day.
#[derive(Clone, Copy, Default, Debug, PartialEq, Eq, PartialOrd, Ord, Structural)]
pub struct DateTime {
    pub year: u16,
    pub month: u8,
    pub day: u8,
    pub hour: u8,
    pub minute: u8,
    pub second: u8,
    pub ms: u16,
}

/// `a` comes no later than `b`, comparing field by field from the year down.
pub open spec fn not_after(a: DateTime, b: DateTime) -> bool {
    if a.year != b.year {
        a.year < b.year
    } else if a.month != b.month {
        a.month < b.month
    } else if a.day != b.day {
        a.day < b.day
    } else if a.hour != b.hour {
        a.hour < b.hour
    } else if a.minute != b.minute {
        a.minute < b.minute
    } else if a.second != b.second {
        a.second < b.second
    } else {
        a.ms <= b.ms
    }
}

/// In the year of `now`, the birthday has not come yet.
pub open spec fn anniversary_pending(birth: DateTime, now: DateTime) -> bool {
    now.month < birth.month || (now.month == birth.month && now.day < birth.day)
}

/// In the month of `now`, the day of the month of `birth` has not come yet.
pub open spec fn month_day_pending(birth: DateTime, now: DateTime) -> bool {
    now.day < birth.day
}

/// Whole years from `birth` to `now`; zero when `now` precedes `birth`.
pub open spec fn years_between(birth: DateTime, now: DateTime) -> nat {
    let span: int = if now.year >= birth.year { now.year - birth.year } else { 0 };
    if anniversary_pending(birth, now) && span > 0 {
        (span - 1) as nat
    } else {
        span as nat
    }
}

/// Whole months from `birth` to `now`, counted on the calendar fields; zero
/// when the year of `now` precedes that of `birth`, or when the count would
/// not be positive.
pub open spec fn months_between(birth: DateTime, now: DateTime) -> nat {
    let lag: int = if month_day_pending(birth, now) { 1 } else { 0 };
    let total: int = (now.year - birth.year) * 12 + (now.month - birth.month) - lag;
    if now.year >= birth.year && total > 0 {
        total as nat
    } else {
        0
    }
}

/// Number of whole years lived from `birth` up to `now`.
pub fn elapsed_years(birth: &DateTime, now: &DateTime) -> (years: u16)
    ensures
        years == years_between(*birth, *now),
{
    let mut years: u16 = now.year.saturating_sub(birth.year);
    if now.month < birth.month || (now.month == birth.month && now.day < birth.day) {
        years = years.saturating_sub(1);
    }
    years
}

/// Number of whole months lived from `birth` up to `now`: a month counts once
/// the day of the month of `birth` comes round, and the count is zero when
/// `now` precedes `birth`, in an earlier year whatever its month field holds.
pub fn elapsed_months(birth: &DateTime, now: &DateTime) -> (months: u32)
    ensures
        months == months_between(*birth, *now),
{
    let lag: i64 = if now.day < birth.day { 1 } else { 0 };
    let total: i64 = (now.year as i64 - birth.year as i64) * 12 + (now.month as i64
        - birth.month as i64) - lag;
    if now.year >= birth.year && total > 0 {
        total as u32
    } else {
        0
    }
}

/// Whole years never exceed the difference of the year fields, once `now` has
/// caught up with `birth`.
pub proof fn lemma_elapsed_years_bounded(birth: DateTime, now: DateTime)
    requires
        not_after(birth, now),
    ensures
        years_between(birth, now) <= now.year - birth.year,
{
}

/// No whole year has passed on the day of birth, and exactly one on the first
/// birthday.
pub proof fn lemma_elapsed_years_at_birthdays(birth: DateTime)
    ensures
        years_between(birth, birth) == 0,
        birth.year < u16::MAX ==> years_between(birth, (DateTime { year: (birth.year + 1) as u16, ..birth })) == 1,
{
}

/// Up to the moment of birth, no whole year and no whole month has gone by,
/// whatever values the month and day fields hold.
pub proof fn lemma_nothing_elapsed_before_birth(birth: DateTime, now: DateTime)
    requires
        not_after(now, birth),
    ensures
        years_between(birth, now) == 0,
        months_between(birth, now) == 0,
{
}

} // verus!
