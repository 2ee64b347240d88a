//! Days since the Unix epoch as dates of the proleptic Gregorian calendar.
use vstd::prelude::*;

verus! {

/// Whether `y` is a leap year.
pub open spec fn is_leap_year(y: int) -> bool {
    y % 4 == 0 && (y % 100 != 0 || y % 400 == 0)
}

/// The number of days of month `m` (1 to 12) of year `y`.
pub open spec fn month_length(y: int, m: int) -> int {
    if m == 2 {
        if is_leap_year(y) {
            29
        } else {
            28
        }
    } else if m == 4 || m == 6 || m == 9 || m == 11 {
        30
    } else {
        31
    }
}

/// The number of days of year `y` before the first of month `m` (1 to 12).
pub open spec fn days_before_month(y: int, m: int) -> int {
    let leap = if is_leap_year(y) {
        1int
    } else {
        0int
    };
    if m == 1 {
        0
    } else if m == 2 {
        31
    } else if m == 3 {
        59 + leap
    } else if m == 4 {
        90 + leap
    } else if m == 5 {
        120 + leap
    } else if m == 6 {
        151 + leap
    } else if m == 7 {
        181 + leap
    } else if m == 8 {
        212 + leap
    } else if m == 9 {
        243 + leap
    } else if m == 10 {
        273 + leap
    } else if m == 11 {
        304 + leap
    } else {
        334 + leap
    }
}

/// The number of leap years from year 1 up to but not including year `y` (negative
/// for years before 1).
pub open spec fn leap_years_before(y: int) -> int {
    (y - 1) / 4 - (y - 1) / 100 + (y - 1) / 400
}

/// The number of days from 1970-01-01 to the date `y-m-d`.
pub open spec fn days_from_epoch(y: int, m: int, d: int) -> int {
    365 * (y - 1970) + leap_years_before(y) - leap_years_before(1970) + days_before_month(y, m) + d - 1
}

/// Whether `y-m-d` is a date.
pub open spec fn valid_date(y: int, m: int, d: int) -> bool {
    1 <= m <= 12 && 1 <= d <= month_length(y, m)
}

/// The number of days from 0000-03-01 to the first of March of year `y`.
pub open spec fn march_start(y: int) -> int {
    365 * y + y / 4 - y / 100 + y / 400
}

/// The number of days from the first of March to the first of the month `mp` months later
/// (0 to 11).
pub open spec fn month_offset(mp: int) -> int {
    (153 * mp + 2) / 5
}

/// Within a 400-year era the year and the day of that year (counted from March) are as
/// the formula gives.
proof fn lemma_year_of_era(doe: u32)
    requires
        doe < 146097,
    ensures
        ({
            let yoe = (doe - doe / 1460 + doe / 36524 - doe / 146096) / 365;
            let doy = doe - (365 * yoe + yoe / 4 - yoe / 100);
            &&& yoe < 400
            &&& 0 <= doy
            &&& doy < 365 + (if (yoe + 1) % 4 == 0 && ((yoe + 1) % 100 != 0 || yoe == 399) {
                1int
            } else {
                0int
            })
        }),
{
    assert({
        let yoe = (doe - doe / 1460 + doe / 36524 - doe / 146096) / 365;
        let doy = doe - (365 * yoe + yoe / 4 - yoe / 100);
        &&& yoe < 400
        &&& 0 <= doy
        &&& doy < 365 + (if (yoe + 1) % 4 == 0 && ((yoe + 1) % 100 != 0 || yoe == 399) {
            1int
        } else {
            0int
        })
    }) by (bit_vector)
        requires
            doe < 146097,
    ;
}

/// Within a year counted from March the month and its first day are as the formula gives.
proof fn lemma_month_of_year(doy: u32)
    requires
        doy < 366,
    ensures
        ({
            let mp = (5 * doy + 2) / 153;
            &&& mp <= 11
            &&& (153 * mp + 2) / 5 <= doy
            &&& mp < 11 ==> doy < (153 * mp + 155) / 5
        }),
{
    assert({
        let mp = (5 * doy + 2) / 153;
        &&& mp <= 11
        &&& (153 * mp + 2) / 5 <= doy
        &&& mp < 11 ==> doy < (153 * mp + 155) / 5
    }) by (bit_vector)
        requires
            doy < 366,
    ;
}

/// The leap years before `y + 1` are those before `y`, and `y` itself where it is one.
proof fn lemma_leap_years_step(y: int)
    ensures
        leap_years_before(y + 1) == leap_years_before(y) + if is_leap_year(y) {
            1int
        } else {
            0int
        },
{
    assert(y / 4 == (y - 1) / 4 + if y % 4 == 0 {
        1int
    } else {
        0int
    });
    assert(y / 100 == (y - 1) / 100 + if y % 100 == 0 {
        1int
    } else {
        0int
    });
    assert(y / 400 == (y - 1) / 400 + if y % 400 == 0 {
        1int
    } else {
        0int
    });
    if y % 100 == 0 {
        assert(y % 4 == 0);
    }
    if y % 400 == 0 {
        assert(y % 100 == 0);
    }
}

/// The days from March to each month's first, as a table.
proof fn lemma_month_offsets(mp: int)
    requires
        0 <= mp <= 11,
    ensures
        month_offset(mp) == if mp == 0 {
            0int
        } else if mp == 1 {
            31int
        } else if mp == 2 {
            61int
        } else if mp == 3 {
            92int
        } else if mp == 4 {
            122int
        } else if mp == 5 {
            153int
        } else if mp == 6 {
            184int
        } else if mp == 7 {
            214int
        } else if mp == 8 {
            245int
        } else if mp == 9 {
            275int
        } else if mp == 10 {
            306int
        } else {
            337int
        },
{
}

/// Four hundred years later, March comes 146097 days later, and the leap years recur.
proof fn lemma_era(era: int, yoe: int)
    requires
        0 <= yoe < 400,
    ensures
        march_start(era * 400 + yoe) == era * 146097 + 365 * yoe + yoe / 4 - yoe / 100,
        is_leap_year(era * 400 + yoe + 1) == ((yoe + 1) % 4 == 0 && ((yoe + 1) % 100 != 0 || yoe
            == 399)),
{
    let y = era * 400 + yoe;
    assert(y / 4 == era * 100 + yoe / 4);
    assert(y / 100 == era * 4 + yoe / 100);
    assert(y / 400 == era + yoe / 400);
    assert(yoe / 400 == 0);
    assert((y + 1) % 4 == (yoe + 1) % 4);
    assert((y + 1) % 100 == (yoe + 1) % 100);
    assert((y + 1) % 400 == (yoe + 1) % 400);
}

/// Where the formula's steps hold of the numbers, the date it arrives at is the date
/// `days` days after 1970-01-01.
proof fn lemma_civil(
    days: int,
    era: int,
    doe: int,
    yoe: int,
    doy: int,
    mp: int,
    day: int,
    month: int,
    year: int,
)
    requires
        0 <= doe < 146097,
        days + 719468 == era * 146097 + doe,
        yoe == (doe - doe / 1460 + doe / 36524 - doe / 146096) / 365,
        doy == doe - (365 * yoe + yoe / 4 - yoe / 100),
        mp == (5 * doy + 2) / 153,
        day == doy - (153 * mp + 2) / 5 + 1,
        month == mp + if mp < 10 {
            3int
        } else {
            -9int
        },
        year == yoe + era * 400 + if month <= 2 {
            1int
        } else {
            0int
        },
    ensures
        valid_date(year, month, day),
        days_from_epoch(year, month, day) == days,
{
    let y = yoe + era * 400;
    lemma_year_of_era(doe as u32);
    assert(0 <= yoe < 400 && 0 <= doy);
    lemma_month_of_year(doy as u32);
    assert(0 <= mp <= 11);
    lemma_era(era, yoe);
    assert(era * 400 + yoe == y);
    lemma_month_offsets(mp);
    if mp < 11 {
        lemma_month_offsets(mp + 1);
    }
    lemma_leap_years_step(y);
    assert(days + 719468 == march_start(y) + doy);
    assert(march_start(y) == 365 * y + leap_years_before(y + 1));
    assert(leap_years_before(1970) == 477);
    if mp < 10 {
        assert(year == y);
        assert(days_before_month(y, month) == 59 + (if is_leap_year(y) { 1int } else { 0int }) + month_offset(mp));
    } else {
        assert(year == y + 1);
        lemma_leap_years_step(y);
    }
}

/// Each year starts after every day of the years before it.
proof fn lemma_year_starts_grow(y1: int, y2: int)
    requires
        y1 < y2,
    ensures
        days_from_epoch(y2, 1, 1) >= days_from_epoch(y1, 1, 1) + 365,
    decreases y2 - y1,
{
    lemma_leap_years_step(y2 - 1);
    if y1 < y2 - 1 {
        lemma_year_starts_grow(y1, y2 - 1);
    }
}

/// Within a year, an earlier date comes on fewer days after the epoch.
proof fn lemma_within_year(y: int, m1: int, d1: int, m2: int, d2: int)
    requires
        valid_date(y, m1, d1),
        valid_date(y, m2, d2),
        m1 < m2 || (m1 == m2 && d1 < d2),
    ensures
        days_from_epoch(y, m1, d1) < days_from_epoch(y, m2, d2),
{
}

/// The days of a year lie before the start of the next one.
proof fn lemma_before_next_year(y: int, m: int, d: int)
    requires
        valid_date(y, m, d),
    ensures
        days_from_epoch(y, 1, 1) <= days_from_epoch(y, m, d) < days_from_epoch(y + 1, 1, 1),
{
    lemma_leap_years_step(y);
}

/// Distinct dates lie on distinct days: a day count names one date.
pub proof fn lemma_date_of_day_unique(y1: int, m1: int, d1: int, y2: int, m2: int, d2: int)
    requires
        valid_date(y1, m1, d1),
        valid_date(y2, m2, d2),
        days_from_epoch(y1, m1, d1) == days_from_epoch(y2, m2, d2),
    ensures
        y1 == y2 && m1 == m2 && d1 == d2,
{
    lemma_before_next_year(y1, m1, d1);
    lemma_before_next_year(y2, m2, d2);
    if y1 < y2 {
        if y1 + 1 < y2 {
            lemma_year_starts_grow(y1 + 1, y2);
        }
    } else if y2 < y1 {
        if y2 + 1 < y1 {
            lemma_year_starts_grow(y2 + 1, y1);
        }
    } else if m1 < m2 || (m1 == m2 && d1 < d2) {
        lemma_within_year(y1, m1, d1, m2, d2);
    } else if m2 < m1 || (m1 == m2 && d2 < d1) {
        lemma_within_year(y1, m2, d2, m1, d1);
    }
}

/// Dates come in the order of their day counts: of two dates, the one on fewer days after
/// the epoch is the earlier by year, then month, then day.
pub proof fn lemma_date_order(y1: int, m1: int, d1: int, y2: int, m2: int, d2: int)
    requires
        valid_date(y1, m1, d1),
        valid_date(y2, m2, d2),
        days_from_epoch(y1, m1, d1) <= days_from_epoch(y2, m2, d2),
    ensures
        y1 < y2 || (y1 == y2 && (m1 < m2 || (m1 == m2 && d1 <= d2))),
{
    lemma_before_next_year(y1, m1, d1);
    lemma_before_next_year(y2, m2, d2);
    if y2 < y1 {
        if y2 + 1 < y1 {
            lemma_year_starts_grow(y2 + 1, y1);
        }
    } else if y1 == y2 && (m2 < m1 || (m1 == m2 && d2 < d1)) {
        lemma_within_year(y1, m2, d2, m1, d1);
    }
}

/// A date on or after the epoch lies in 1970 or later.
pub proof fn lemma_year_from_epoch(y: int, m: int, d: int)
    requires
        valid_date(y, m, d),
        days_from_epoch(y, m, d) >= 0,
    ensures
        y >= 1970,
{
    lemma_before_next_year(y, m, d);
    if y + 1 < 1970 {
        lemma_year_starts_grow(y + 1, 1970);
    }
}

/// The date after `y-m-d`.
pub open spec fn next_day_v(y: int, m: int, d: int) -> (int, int, int) {
    if d < month_length(y, m) {
        (y, m, d + 1)
    } else if m < 12 {
        (y, m + 1, 1)
    } else {
        (y + 1, 1, 1)
    }
}

/// The date one day after a date is the next calendar day: the dates of consecutive
/// day counts follow each other.
pub proof fn law_next_day(y: int, m: int, d: int, y2: int, m2: int, d2: int)
    requires
        valid_date(y, m, d),
        valid_date(y2, m2, d2),
        days_from_epoch(y2, m2, d2) == days_from_epoch(y, m, d) + 1,
    ensures
        (y2, m2, d2) == next_day_v(y, m, d),
{
    let n = next_day_v(y, m, d);
    lemma_leap_years_step(y);
    assert(valid_date(n.0, n.1, n.2));
    assert(days_from_epoch(n.0, n.1, n.2) == days_from_epoch(y, m, d) + 1);
    lemma_date_of_day_unique(y2, m2, d2, n.0, n.1, n.2);
}

/// The date `days` days after 1970-01-01, as (year, month, day).
pub fn civil_from_days(days_since_unix: i64) -> (r: (i64, i64, i64))
    requires
        days_since_unix <= i64::MAX - 719468,
    ensures
        valid_date(r.0 as int, r.1 as int, r.2 as int),
        days_from_epoch(r.0 as int, r.1 as int, r.2 as int) == days_since_unix,
{
    let z: i64 = days_since_unix + 719468;
    let era: i64 = if z >= 0 {
        z / 146097
    } else {
        -((146096 - z) / 146097)
    };
    assert(era * 146097 <= z < era * 146097 + 146097) by (nonlinear_arith)
        requires
            z >= 0 ==> era == z / 146097,
            z < 0 ==> era == -((146096 - z) / 146097),
    ;
    assert(-64000000000000000 <= era <= 64000000000000000) by (nonlinear_arith)
        requires
            era * 146097 <= z < era * 146097 + 146097,
            i64::MIN <= z <= i64::MAX,
    ;
    let doe: i64 = z - era * 146097;
    let yoe: i64 = (doe - doe / 1460 + doe / 36524 - doe / 146096) / 365;
    proof {
        lemma_year_of_era(doe as u32);
    }
    let y: i64 = yoe + era * 400;
    let doy: i64 = doe - (365 * yoe + yoe / 4 - yoe / 100);
    proof {
        lemma_month_of_year(doy as u32);
    }
    let mp: i64 = (5 * doy + 2) / 153;
    let day: i64 = doy - (153 * mp + 2) / 5 + 1;
    let month: i64 = mp + if mp < 10 {
        3
    } else {
        -9
    };
    let year: i64 = y + if month <= 2 {
        1
    } else {
        0
    };
    proof {
        lemma_civil(days_since_unix as int, era as int, doe as int, yoe as int, doy as int, mp as int, day as int, month as int, year as int);
    }
    (year, month, day)
}

} // verus!
