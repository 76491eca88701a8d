//! Day counts since 1970-01-01 as dates of the Gregorian calendar.

use vstd::prelude::*;

verus! {

/// Whether `y` is a leap year of the Gregorian calendar.
pub open spec fn is_leap_year(y: int) -> bool {
    y % 4 == 0 && (y % 100 != 0 || y % 400 == 0)
}

/// The number of days of month `m` of year `y`.
pub open spec fn days_in_month(y: int, m: int) -> int {
    if m == 2 {
        if is_leap_year(y) { 29 } else { 28 }
    } else if m == 4 || m == 6 || m == 9 || m == 11 {
        30
    } else {
        31
    }
}

/// A `(year, month, day)` that names a day of the calendar.
pub open spec fn valid_date(date: (int, int, int)) -> bool {
    1 <= date.1 <= 12 && 1 <= date.2 <= days_in_month(date.0, date.1)
}

/// The day after a date.
pub open spec fn next_date(date: (int, int, int)) -> (int, int, int) {
    let (y, m, d) = date;
    if d < days_in_month(y, m) {
        (y, m, d + 1)
    } else if m < 12 {
        (y, m + 1, 1)
    } else {
        (y + 1, 1, 1)
    }
}

/// The date that day `doe` of a 400-year era falls on, as a year offset
/// within the era, a month and a day.
pub open spec fn era_date(doe: int) -> (int, int, int) {
    let yoe = (doe - doe / 1460 + doe / 36524 - doe / 146096) / 365;
    let doy = doe - (365 * yoe + yoe / 4 - yoe / 100);
    let mp = (5 * doy + 2) / 153;
    let d = doy - (153 * mp + 2) / 5 + 1;
    let m = if mp < 10 { mp + 3 } else { mp - 9 };
    (if m <= 2 { yoe + 1 } else { yoe }, m, d)
}

/// The civil date `(year, month, day)` of a day count since 1970-01-01,
/// by the proleptic Gregorian calendar in 400-year eras of 146097 days
/// counted from 0000-03-01.
pub open spec fn civil_from_days(days: nat) -> (int, int, int) {
    let z = days + 719468;
    let era = z / 146097;
    let (y, m, d) = era_date(z - era * 146097);
    (y + era * 400, m, d)
}

/// Within an era, the year of the era and the day of that year stay in range.
proof fn lemma_era_bounds(doe: u32)
    requires
        doe < 146097,
    ensures
        ({
            let yoe = (doe - doe / 1460 + doe / 36524 - doe / 146096) / 365;
            &&& doe / 146096 <= doe / 36524
            &&& doe / 1460 <= doe
            &&& yoe <= 399
            &&& 365 * yoe + yoe / 4 - yoe / 100 <= doe
            &&& doe - (365 * yoe + yoe / 4 - yoe / 100) <= 365
        }),
{
    assert({
        let yoe = (doe - doe / 1460 + doe / 36524 - doe / 146096) / 365;
        &&& doe / 146096 <= doe / 36524
        &&& doe / 1460 <= doe
        &&& yoe <= 399
        &&& 365 * yoe + yoe / 4 - yoe / 100 <= doe
        &&& doe - (365 * yoe + yoe / 4 - yoe / 100) <= 365
    }) by (bit_vector)
        requires
            doe < 146097,
    ;
}

/// Within a year, the shifted month and the day of the month stay in range.
proof fn lemma_year_bounds(doy: u32)
    requires
        doy <= 365,
    ensures
        (5 * doy + 2) / 153 <= 11,
        (153 * ((5 * doy + 2) / 153) + 2) / 5 <= doy,
        doy - (153 * ((5 * doy + 2) / 153) + 2) / 5 + 1 <= 31,
{
    assert((5 * doy + 2) / 153 <= 11 && (153 * ((5 * doy + 2) / 153) + 2) / 5 <= doy
        && doy - (153 * ((5 * doy + 2) / 153) + 2) / 5 + 1 <= 31) by (bit_vector)
        requires
            doy <= 365,
    ;
}

/// Convert a day count since 1970-01-01 to `(year, month, day)`.
pub fn days_to_ymd(days: u64) -> (r: (u64, u64, u64))
    requires
        days <= i64::MAX - 719468,
    ensures
        r.0 == civil_from_days(days as nat).0,
        r.1 == civil_from_days(days as nat).1,
        r.2 == civil_from_days(days as nat).2,
        1 <= r.1 <= 12,
        1 <= r.2 <= 31,
{
    let z: u64 = days + 719468;
    let era: u64 = z / 146097;
    let doe: u64 = z - era * 146097;
    assert(doe == z % 146097) by (nonlinear_arith)
        requires era == z / 146097, doe == z - era * 146097;
    assert(doe < 146097);
    proof {
        lemma_era_bounds(doe as u32);
    }
    let yoe: u64 = (doe - doe / 1460 + doe / 36524 - doe / 146096) / 365;
    let y: u64 = yoe + era * 400;
    let doy: u64 = doe - (365 * yoe + yoe / 4 - yoe / 100);
    proof {
        lemma_year_bounds(doy as u32);
    }
    let mp: u64 = (5 * doy + 2) / 153;
    let d: u64 = doy - (153 * mp + 2) / 5 + 1;
    let m: u64 = if mp < 10 { mp + 3 } else { mp - 9 };
    let year: u64 = if m <= 2 { y + 1 } else { y };
    (year, m, d)
}

/// Within an era, each day's date is valid and is followed by the next day's.
#[verifier::spinoff_prover]
#[verifier::rlimit(50)]
proof fn lemma_era_step(doe: int)
    requires
        0 <= doe < 146096,
    ensures
        valid_date(era_date(doe)),
        era_date(doe + 1) == next_date(era_date(doe)),
{
}

/// Shifting a year by whole eras of 400 years keeps whether it is a leap year.
proof fn lemma_leap_shift(y: int, k: int)
    requires
        k >= 0,
    ensures
        is_leap_year(y + 400 * k) == is_leap_year(y),
{
    assert((y + 400 * k) % 4 == y % 4) by (nonlinear_arith);
    assert((y + 400 * k) % 100 == y % 100) by (nonlinear_arith);
    assert((y + 400 * k) % 400 == y % 400) by (nonlinear_arith);
}

/// Day 0 is 1970-01-01.
pub proof fn lemma_civil_epoch()
    ensures
        civil_from_days(0) == (1970int, 1int, 1int),
{
    assert(719468int / 146097 == 4);
    assert(era_date(135080) == (370int, 1int, 1int));
}

/// The conversion of day counts to dates is the Gregorian calendar: every
/// day count gives a valid date, and the next day count gives the next date.
pub proof fn lemma_civil_calendar(n: nat)
    ensures
        valid_date(civil_from_days(n)),
        civil_from_days(n + 1) == next_date(civil_from_days(n)),
{
    let z = n + 719468;
    let era = z / 146097;
    let doe = z - era * 146097;
    assert(0 <= doe < 146097);
    let local = era_date(doe);
    assert(civil_from_days(n) == (local.0 + era * 400, local.1, local.2));
    lemma_leap_shift(local.0, era as int);
    if doe < 146096 {
        assert((z + 1) / 146097 == era);
        lemma_era_step(doe);
        let next = era_date(doe + 1);
        assert(civil_from_days(n + 1) == (next.0 + era * 400, next.1, next.2));
    } else {
        assert((z + 1) / 146097 == era + 1);
        assert(era_date(146096) == (400int, 2int, 29int));
        assert(era_date(0) == (0int, 3int, 1int));
        lemma_leap_shift(400, era as int);
        assert(civil_from_days(n + 1) == ((era * 400 + 400) as int, 3int, 1int));
    }
}

} // verus!
