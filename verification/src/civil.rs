//! A plain-value model of civil (wall-clock) time.
//!
//! The scheduler reasons about local time as a civil date plus a time of
//! day, and about instants as whole seconds since the Unix epoch. Only
//! the resolution of a civil reading to an instant — the time zone's
//! work — is delegated to chrono, behind trusted wrappers; everything
//! else (calendar arithmetic, weekdays, time-of-day parsing) is verified
//! here.

use vstd::prelude::*;

use crate::text::spec_is_digit;

verus! {

/// Seconds in one civil day.
pub const SECS_PER_DAY: i64 = 86400;

/// A calendar date in the proleptic Gregorian calendar.
#[derive(Clone, Copy, Debug, PartialEq, Eq, Structural)]
pub struct CivilDate {
    pub year: i32,
    pub month: u8,
    pub day: u8,
}

/// Whether `y` is a leap year.
pub open spec fn spec_is_leap_year(y: int) -> bool {
    (y % 4 == 0 && y % 100 != 0) || y % 400 == 0
}

/// The number of days in month `m` of year `y`.
pub open spec fn spec_days_in_month(y: int, m: int) -> int {
    if m == 2 {
        if spec_is_leap_year(y) {
            29
        } else {
            28
        }
    } else if m == 4 || m == 6 || m == 9 || m == 11 {
        30
    } else {
        31
    }
}

/// A well-formed date: a real day of a real month, in the year range
/// the scheduler works in.
pub open spec fn date_wf(d: CivilDate) -> bool {
    &&& 1 <= d.year <= 9999
    &&& 1 <= d.month <= 12
    &&& 1 <= d.day <= spec_days_in_month(d.year as int, d.month as int)
}

/// Whether `y` is a leap year.
pub fn is_leap_year(y: i32) -> (r: bool)
    requires
        0 <= y,
    ensures
        r == spec_is_leap_year(y as int),
{
    (y % 4 == 0 && y % 100 != 0) || y % 400 == 0
}

/// The number of days in month `m` of year `y`.
pub fn days_in_month(y: i32, m: u8) -> (r: u8)
    requires
        0 <= y,
        1 <= m <= 12,
    ensures
        r == spec_days_in_month(y as int, m as int),
{
    if m == 2 {
        if is_leap_year(y) {
            29
        } else {
            28
        }
    } else if m == 4 || m == 6 || m == 9 || m == 11 {
        30
    } else {
        31
    }
}

/// The date one day after `d`.
pub open spec fn spec_next_day(d: CivilDate) -> CivilDate {
    if d.day < spec_days_in_month(d.year as int, d.month as int) {
        CivilDate { year: d.year, month: d.month, day: (d.day + 1) as u8 }
    } else if d.month < 12 {
        CivilDate { year: d.year, month: (d.month + 1) as u8, day: 1 }
    } else {
        CivilDate { year: (d.year + 1) as i32, month: 1, day: 1 }
    }
}

/// Steps a date forward by one day.
pub fn next_day(d: &CivilDate) -> (r: CivilDate)
    requires
        date_wf(*d),
        !(d.year == 9999 && d.month == 12 && d.day == 31),
    ensures
        r == spec_next_day(*d),
        date_wf(r),
{
    if d.day < days_in_month(d.year, d.month) {
        CivilDate { year: d.year, month: d.month, day: d.day + 1 }
    } else if d.month < 12 {
        CivilDate { year: d.year, month: d.month + 1, day: 1 }
    } else {
        CivilDate { year: d.year + 1, month: 1, day: 1 }
    }
}

/// The whole-year part of the day count for the shifted year `yy`
/// (years are counted from March, so January and February belong to
/// the previous shifted year).
pub open spec fn spec_year_part(yy: int) -> int {
    let era = yy / 400;
    let yoe = yy - era * 400;
    era * 146097 + yoe * 365 + yoe / 4 - yoe / 100
}

/// Days since 1970-01-01 of the date `(y, m, d)` in the proleptic
/// Gregorian calendar.
pub open spec fn spec_days_from_civil(y: int, m: int, d: int) -> int {
    let yy = if m <= 2 {
        y - 1
    } else {
        y
    };
    let mp = if m > 2 {
        m - 3
    } else {
        m + 9
    };
    let doy = (153 * mp + 2) / 5 + d - 1;
    spec_year_part(yy) + doy - 719468
}

/// The day count of a date, written over its fields.
pub open spec fn spec_date_days(d: CivilDate) -> int {
    spec_days_from_civil(d.year as int, d.month as int, d.day as int)
}

/// Days since 1970-01-01 of the date `d`.
pub fn days_from_civil(d: &CivilDate) -> (n: i64)
    requires
        date_wf(*d),
    ensures
        n == spec_days_from_civil(d.year as int, d.month as int, d.day as int),
{
    let yy: i64 = if d.month <= 2 {
        d.year as i64 - 1
    } else {
        d.year as i64
    };
    let era: i64 = yy / 400;
    let yoe: i64 = yy - era * 400;
    let mp: i64 = if d.month > 2 {
        d.month as i64 - 3
    } else {
        d.month as i64 + 9
    };
    let doy: i64 = (153 * mp + 2) / 5 + d.day as i64 - 1;
    let doe: i64 = yoe * 365 + yoe / 4 - yoe / 100 + doy;
    era * 146097 + doe - 719468
}

/// The weekday of a day count, as an index with Monday 0 through
/// Sunday 6.
pub open spec fn spec_weekday_of_days(days: int) -> int {
    (days + 719470) % 7
}

/// The weekday index of a date, Monday 0 through Sunday 6.
pub open spec fn spec_weekday(d: CivilDate) -> int {
    spec_weekday_of_days(spec_days_from_civil(d.year as int, d.month as int, d.day as int))
}

/// The weekday index of a date, Monday 0 through Sunday 6.
pub fn weekday_index(d: &CivilDate) -> (w: u8)
    requires
        date_wf(*d),
    ensures
        w == spec_weekday(*d),
        w < 7,
{
    let days = days_from_civil(d);
    ((days + 719470) % 7) as u8
}

/// The date `n` days after `d`.
pub open spec fn spec_date_plus(d: CivilDate, n: int) -> CivilDate
    decreases n,
{
    if n <= 0 {
        d
    } else {
        spec_next_day(spec_date_plus(d, n - 1))
    }
}

/// Stepping a nonnegative numerator by one raises the quotient
/// exactly when the new numerator is a multiple of the divisor.
proof fn lemma_step_div(x: int, k: int)
    requires
        0 <= x,
        0 < k,
    ensures
        (x + 1) / k == x / k + if (x + 1) % k == 0 {
            1int
        } else {
            0int
        },
        (x + 1) % k == 0 <==> x % k == k - 1,
{
    vstd::arithmetic::div_mod::lemma_fundamental_div_mod(x, k);
    vstd::arithmetic::div_mod::lemma_mod_bound(x, k);
    let q = x / k;
    let r = x % k;
    if r == k - 1 {
        assert(x + 1 == (q + 1) * k) by (nonlinear_arith)
            requires
                x == k * q + r,
                r == k - 1,
        ;
        vstd::arithmetic::div_mod::lemma_fundamental_div_mod_converse(x + 1, k, q + 1, 0);
    } else {
        assert(x + 1 == q * k + (r + 1)) by (nonlinear_arith)
            requires
                x == k * q + r,
        ;
        vstd::arithmetic::div_mod::lemma_fundamental_div_mod_converse(x + 1, k, q, r + 1);
    }
}

/// From one shifted year to the next, the whole-year part of the day
/// count grows by 365, plus one more across a leap year's February.
proof fn lemma_year_part_step(y: int)
    requires
        1 <= y,
    ensures
        spec_year_part(y) == spec_year_part(y - 1) + 365 + if spec_is_leap_year(y) {
            1int
        } else {
            0int
        },
{
    let yy1 = y - 1;
    vstd::arithmetic::div_mod::lemma_fundamental_div_mod(yy1, 400);
    let era1 = yy1 / 400;
    let yoe1 = yy1 % 400;
    assert(yy1 - era1 * 400 == yoe1);
    if yoe1 == 399 {
        vstd::arithmetic::div_mod::lemma_fundamental_div_mod_converse(y, 400, era1 + 1, 0);
        assert(y % 400 == 0);
        assert(spec_is_leap_year(y));
        assert(spec_year_part(y) == (era1 + 1) * 146097);
        assert(spec_year_part(yy1) == era1 * 146097 + 399 * 365 + 99 - 3);
    } else {
        let yoe2 = yoe1 + 1;
        vstd::arithmetic::div_mod::lemma_fundamental_div_mod_converse(y, 400, era1, yoe2);
        assert(y % 400 == yoe2 && y / 400 == era1);
        lemma_step_div(yoe1, 4);
        lemma_step_div(yoe1, 100);
        // The leap rule reads the year's residues, which agree with
        // the year-of-era's.
        assert(y == 4 * (100 * era1) + yoe2);
        vstd::arithmetic::div_mod::lemma_mod_multiples_vanish(100 * era1, yoe2, 4);
        assert(y % 4 == yoe2 % 4);
        assert(y == 100 * (4 * era1) + yoe2);
        vstd::arithmetic::div_mod::lemma_mod_multiples_vanish(4 * era1, yoe2, 100);
        assert(y % 100 == yoe2 % 100);
        // A multiple of one hundred is a multiple of four.
        if yoe2 % 100 == 0 {
            vstd::arithmetic::div_mod::lemma_fundamental_div_mod(yoe2, 100);
            let h = yoe2 / 100;
            assert(yoe2 == 4 * (25 * h) + 0);
            vstd::arithmetic::div_mod::lemma_mod_multiples_vanish(25 * h, 0, 4);
            assert(yoe2 % 4 == 0);
        }
        assert(spec_year_part(y) == era1 * 146097 + yoe2 * 365 + yoe2 / 4 - yoe2 / 100);
        assert(spec_year_part(yy1) == era1 * 146097 + yoe1 * 365 + yoe1 / 4 - yoe1 / 100);
    }
}

/// Stepping a date forward by one day advances its day count by
/// exactly one.
pub proof fn lemma_next_day_count(d: CivilDate)
    requires
        date_wf(d),
        !(d.year == 9999 && d.month == 12 && d.day == 31),
    ensures
        spec_date_days(spec_next_day(d)) == spec_date_days(d) + 1,
{
    let y = d.year as int;
    let m = d.month as int;
    let day = d.day as int;
    if day == spec_days_in_month(y, m) && m == 2 {
        // February into March: the shifted year steps from y - 1 to
        // y, and the day of year resets past a 28- or 29-day month.
        lemma_year_part_step(y);
    }
    // In every other case — within a month, over a month boundary
    // inside one shifted year, or December into January (both sides
    // read the same shifted year) — only the day-of-year formula
    // moves, by exactly one.
}

/// Stepping a well-formed date of a supported year up to eight days
/// keeps it well-formed and advances the day count one day at a time.
pub proof fn lemma_date_plus_count(start: CivilDate, n: int)
    requires
        date_wf(start),
        start.year <= 9998,
        0 <= n <= 8,
    ensures
        date_wf(spec_date_plus(start, n)),
        spec_date_days(spec_date_plus(start, n)) == spec_date_days(start) + n,
        spec_date_plus(start, n).year <= 9998 || (spec_date_plus(start, n).month == 1
            && spec_date_plus(start, n).day <= 1 + n),
    decreases n,
{
    if n > 0 {
        lemma_date_plus_count(start, n - 1);
        let prev = spec_date_plus(start, n - 1);
        lemma_next_day_count(prev);
    }
}

/// Seconds since the epoch of the wall-clock reading `(date, h, mi,
/// s)` taken as if it were UTC.
pub open spec fn spec_civil_secs(y: int, m: int, d: int, h: int, mi: int, s: int) -> int {
    spec_days_from_civil(y, m, d) * 86400 + h * 3600 + mi * 60 + s
}

/// A wall-clock reading of the local clock, paired with the UTC
/// instant it was taken at.
#[derive(Clone, Copy, Debug)]
pub struct LocalMoment {
    pub date: CivilDate,
    pub hour: u8,
    pub minute: u8,
    pub second: u8,
    pub utc_seconds: i64,
}

/// The naive seconds-since-epoch reading of a moment's wall clock.
pub open spec fn moment_civil_secs(m: LocalMoment) -> int {
    spec_civil_secs(
        m.date.year as int,
        m.date.month as int,
        m.date.day as int,
        m.hour as int,
        m.minute as int,
        m.second as int,
    )
}

/// A well-formed moment: a real date in the supported year range, a
/// real time of day, and an instant within a time zone offset (less
/// than one day) of the wall clock.
pub open spec fn moment_wf(m: LocalMoment) -> bool {
    &&& date_wf(m.date)
    &&& 1970 <= m.date.year <= 9998
    &&& m.hour < 24
    &&& m.minute < 60
    &&& m.second < 60
    &&& moment_civil_secs(m) - 86400 < m.utc_seconds < moment_civil_secs(m) + 86400
}

/// Relies on chrono: `NaiveDate::from_ymd_opt` and
/// `NaiveDate::and_hms_opt` to build the wall-clock reading (returning
/// `None` for fields that name no real date or time),
/// `TimeZone::from_local_datetime` on `Local` with
/// `LocalResult::latest` to resolve it in the system time zone
/// (`None` in a daylight-saving gap, the later instant of an ambiguous
/// pair), and `DateTime::timestamp` for the resolved UTC seconds. The
/// resolved instant differs from the naive seconds reading of the wall
/// clock by the zone's UTC offset, which chrono's `FixedOffset` bounds
/// strictly below one day.
#[verifier::external_body]
pub fn resolve_local(year: i32, month: u8, day: u8, hour: u8, minute: u8, second: u8) -> (r:
    Option<i64>)
    ensures
        r matches Some(u) ==> spec_civil_secs(
            year as int,
            month as int,
            day as int,
            hour as int,
            minute as int,
            second as int,
        ) - 86400 < u < spec_civil_secs(
            year as int,
            month as int,
            day as int,
            hour as int,
            minute as int,
            second as int,
        ) + 86400,
{
    let civil = chrono::NaiveDate::from_ymd_opt(year, month as u32, day as u32)
        .and_then(|d| d.and_hms_opt(hour as u32, minute as u32, second as u32))?;
    let resolved = chrono::TimeZone::from_local_datetime(&chrono::Local, &civil).latest()?;
    Some(resolved.timestamp())
}

/// Relies on chrono: `Local::now` and the `Datelike`/`Timelike`
/// accessors (`year`, `month`, `day`, `hour`, `minute`, `second`) and
/// `DateTime::timestamp`. The accessors return a real calendar date
/// and time of day (seconds stay below 60; a leap second only raises
/// the nanosecond field), and the instant differs from the naive
/// seconds reading of the wall clock by the zone's UTC offset, which
/// chrono's `FixedOffset` bounds strictly below one day.
#[verifier::external_body]
pub fn local_now_moment() -> (m: LocalMoment)
    ensures
        1 <= m.date.month <= 12,
        1 <= m.date.day <= spec_days_in_month(m.date.year as int, m.date.month as int),
        m.hour < 24,
        m.minute < 60,
        m.second < 60,
        moment_civil_secs(m) - 86400 < m.utc_seconds < moment_civil_secs(m) + 86400,
{
    let n = chrono::Local::now();
    LocalMoment {
        date: CivilDate {
            year: chrono::Datelike::year(&n),
            month: chrono::Datelike::month(&n) as u8,
            day: chrono::Datelike::day(&n) as u8,
        },
        hour: chrono::Timelike::hour(&n) as u8,
        minute: chrono::Timelike::minute(&n) as u8,
        second: chrono::Timelike::second(&n) as u8,
        utc_seconds: n.timestamp(),
    }
}

/// Relies on chrono's `Utc::now` and `DateTime::timestamp`: reads the
/// current instant as whole seconds since the Unix epoch. Nothing is
/// promised of the value; it is whatever the machine clock says.
#[verifier::external_body]
pub fn utc_now_seconds() -> i64 {
    chrono::Utc::now().timestamp()
}

/// Reads the local clock; `None` when the clock is outside the year
/// range the scheduler supports.
pub fn current_moment() -> (r: Option<LocalMoment>)
    ensures
        r matches Some(m) ==> moment_wf(m),
{
    let m = local_now_moment();
    if 1970 <= m.date.year && m.date.year <= 9998 {
        Some(m)
    } else {
        None
    }
}

/// What the time-of-day parser accepts: one or two digits of hour, a
/// colon, one or two digits of minute, nothing else, with the hour
/// below 24 and the minute below 60.
pub open spec fn spec_parse_hhmm(s: Seq<char>) -> Option<(u8, u8)> {
    if s.len() == 3 && spec_is_digit(s[0]) && s[1] == ':' && spec_is_digit(s[2]) {
        spec_hhmm_checked(s[0] as u32 - 48, s[2] as u32 - 48)
    } else if s.len() == 4 && spec_is_digit(s[0]) && s[1] == ':' && spec_is_digit(s[2])
        && spec_is_digit(s[3]) {
        spec_hhmm_checked(s[0] as u32 - 48, 10 * (s[2] as u32 - 48) + (s[3] as u32 - 48))
    } else if s.len() == 4 && spec_is_digit(s[0]) && spec_is_digit(s[1]) && s[2] == ':'
        && spec_is_digit(s[3]) {
        spec_hhmm_checked(10 * (s[0] as u32 - 48) + (s[1] as u32 - 48), s[3] as u32 - 48)
    } else if s.len() == 5 && spec_is_digit(s[0]) && spec_is_digit(s[1]) && s[2] == ':'
        && spec_is_digit(s[3]) && spec_is_digit(s[4]) {
        spec_hhmm_checked(
            10 * (s[0] as u32 - 48) + (s[1] as u32 - 48),
            10 * (s[3] as u32 - 48) + (s[4] as u32 - 48),
        )
    } else {
        None
    }
}

/// Bounds-checks a parsed hour and minute.
pub open spec fn spec_hhmm_checked(h: int, mi: int) -> Option<(u8, u8)> {
    if 0 <= h < 24 && 0 <= mi < 60 {
        Some((h as u8, mi as u8))
    } else {
        None
    }
}

fn digit_at(s: &str, i: usize) -> (r: Option<u8>)
    requires
        i < s@.len(),
    ensures
        r matches Some(d) ==> spec_is_digit(s@[i as int]) && d == s@[i as int] as u32 - 48 && d
            < 10,
        r is None ==> !spec_is_digit(s@[i as int]),
{
    let c = s.get_char(i) as u32;
    if 48 <= c && c <= 57 {
        Some((c - 48) as u8)
    } else {
        None
    }
}

fn colon_at(s: &str, i: usize) -> (r: bool)
    requires
        i < s@.len(),
    ensures
        r == (s@[i as int] == ':'),
{
    s.get_char(i) == ':'
}

fn hhmm_checked(h: u8, mi: u8) -> (r: Option<(u8, u8)>)
    ensures
        r == spec_hhmm_checked(h as int, mi as int),
{
    if h < 24 && mi < 60 {
        Some((h, mi))
    } else {
        None
    }
}

/// Parses an `"HH:MM"` time of day; `None` when the string is not a
/// valid time. Malformed trigger data thus degrades to "never fires"
/// rather than raising an error.
pub fn parse_hhmm(s: &str) -> (r: Option<(u8, u8)>)
    ensures
        r == spec_parse_hhmm(s@),
{
    let len = s.unicode_len();
    if len == 3 {
        if let (Some(d0), true, Some(d2)) = (digit_at(s, 0), colon_at(s, 1), digit_at(s, 2)) {
            hhmm_checked(d0, d2)
        } else {
            None
        }
    } else if len == 4 {
        if colon_at(s, 1) {
            if let (Some(d0), Some(d2), Some(d3)) = (digit_at(s, 0), digit_at(s, 2), digit_at(
                s,
                3,
            )) {
                hhmm_checked(d0, 10 * d2 + d3)
            } else {
                None
            }
        } else if colon_at(s, 2) {
            if let (Some(d0), Some(d1), Some(d3)) = (digit_at(s, 0), digit_at(s, 1), digit_at(
                s,
                3,
            )) {
                hhmm_checked(10 * d0 + d1, d3)
            } else {
                None
            }
        } else {
            None
        }
    } else if len == 5 {
        if let (Some(d0), Some(d1), true, Some(d3), Some(d4)) = (
            digit_at(s, 0),
            digit_at(s, 1),
            colon_at(s, 2),
            digit_at(s, 3),
            digit_at(s, 4),
        ) {
            hhmm_checked(10 * d0 + d1, 10 * d3 + d4)
        } else {
            None
        }
    } else {
        None
    }
}

} // verus!
