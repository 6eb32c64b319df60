//! Transcription history: its entries, the newest-first listing, and dates.
//!
//! The application appends one JSON line per transcript to the cache directory and
//! reads them back; here are the entry type, the choice of what to list, and the
//! calendar arithmetic that prints a timestamp as a UTC date.

use crate::decimal::{decimal, u64_to_padded, zero_pad};
use crate::text::concat;
use vstd::arithmetic::div_mod::lemma_fundamental_div_mod_converse;
use vstd::prelude::*;

verus! {

/// One transcript, with the Unix time (seconds) it was made.
#[derive(Clone, Debug)]
pub struct HistoryEntry {
    pub timestamp: i64,
    pub text: String,
}

// ---------------------------------------------------------------- listing

/// The newest `limit` entries of a log written oldest first, newest first.
pub open spec fn newest_first(all: Seq<HistoryEntry>, limit: nat) -> Seq<HistoryEntry> {
    let rev = all.reverse();
    if rev.len() <= limit { rev } else { rev.take(limit as int) }
}

/// Lists the newest `limit` entries of `all` (read in file order), newest first.
pub fn recent_entries(all: Vec<HistoryEntry>, limit: usize) -> (r: Vec<HistoryEntry>)
    ensures
        r@ == newest_first(all@, limit as nat),
{
    let mut r: Vec<HistoryEntry> = Vec::new();
    let mut all = all;
    let ghost orig = all@;
    while r.len() < limit && all.len() > 0
        invariant
            all@ == orig.take(all@.len() as int),
            all@.len() <= orig.len(),
            r@ == orig.reverse().take(r@.len() as int),
            r@.len() == orig.len() - all@.len(),
            r@.len() <= limit,
        decreases all@.len(),
    {
        let e = all.pop().unwrap();
        proof {
            assert(orig.reverse()[r@.len() as int] == orig[orig.len() - 1 - r@.len()]);
            assert(orig.take(all@.len() as int) =~= orig.take(all@.len() as int + 1).drop_last());
        }
        r.push(e);
        assert(r@ =~= orig.reverse().take(r@.len() as int));
    }
    proof {
        if orig.reverse().len() <= limit {
            assert(r@ =~= orig.reverse());
        }
    }
    r
}

// ---------------------------------------------------------------- calendar

/// Whether `y` is a leap year of the proleptic Gregorian calendar.
pub open spec fn is_leap(y: int) -> bool {
    y % 4 == 0 && (y % 100 != 0 || y % 400 == 0)
}

/// The number of days of month `m` (1–12) of year `y`.
pub open spec fn days_in_month(y: int, m: int) -> int {
    if m == 2 {
        if is_leap(y) { 29 } else { 28 }
    } else if m == 4 || m == 6 || m == 9 || m == 11 {
        30
    } else {
        31
    }
}

/// Whether `y-m-d` is a date.
pub open spec fn valid_date(y: int, m: int, d: int) -> bool {
    1 <= m <= 12 && 1 <= d <= days_in_month(y, m)
}

/// Days from 0001-01-01 to the first of January of year `y`.
pub open spec fn days_before_year(y: int) -> int {
    365 * (y - 1) + (y - 1) / 4 - (y - 1) / 100 + (y - 1) / 400
}

/// Days from the first of January to the first of month `m` (1–12) of year `y`.
pub open spec fn days_before_month(y: int, m: int) -> int {
    let base: int = if m == 1 { 0 } else if m == 2 { 31 } else if m == 3 { 59 } else if m == 4 { 90 }
        else if m == 5 { 120 } else if m == 6 { 151 } else if m == 7 { 181 } else if m == 8 { 212 }
        else if m == 9 { 243 } else if m == 10 { 273 } else if m == 11 { 304 } else { 334 };
    base + if m > 2 && is_leap(y) { 1int } else { 0 }
}

/// The day number (days since 1970-01-01) of the date `y-m-d`.
pub open spec fn days_from_civil(y: int, m: int, d: int) -> int {
    days_before_year(y) + days_before_month(y, m) + d - 1 - days_before_year(1970)
}

proof fn lemma_div_is(x: int, d: int, q: int)
    requires
        d > 0,
        q * d <= x < q * d + d,
    ensures
        x / d == q,
        x % d == x - q * d,
{
    lemma_fundamental_div_mod_converse(x, d, q, x - q * d);
}

/// The day of a 400-year era (counted from 1 March of its year 0) splits into the
/// year of the era (March based) and the day of that year; a 366th day falls only
/// in a year followed by a leap year.
proof fn lemma_era_day(doe: int)
    requires
        0 <= doe <= 146096,
    ensures
        ({
            let yoe = (doe - doe / 1460 + doe / 36524 - doe / 146096) / 365;
            let doy = doe - (365 * yoe + yoe / 4 - yoe / 100);
            &&& 0 <= yoe <= 399
            &&& 0 <= doy <= 365
            &&& doy == 365 ==> is_leap(yoe + 1)
        }),
{
    let c: int = if doe >= 3 * 36524 { 3 } else if doe >= 2 * 36524 { 2 } else if doe >= 36524 { 1 } else { 0 };
    let r1 = doe - 36524 * c;
    assert(0 <= r1);
    assert(c < 3 ==> r1 < 36524);
    assert(c == 3 ==> r1 <= 36524);
    let e = r1 / 1461;
    assert(0 <= e <= 24) by {
        if e < 0 || e > 24 {
            lemma_div_is(r1, 1461, e);
        }
        assert(r1 / 1461 <= 24) by {
            if r1 / 1461 > 24 {
                vstd::arithmetic::div_mod::lemma_fundamental_div_mod(r1, 1461);
                assert(r1 % 1461 >= 0) by {
                    vstd::arithmetic::div_mod::lemma_mod_bound(r1, 1461);
                }
                assert(1461 * (r1 / 1461) >= 1461 * 25) by (nonlinear_arith)
                    requires r1 / 1461 > 24;
            }
        }
        assert(r1 / 1461 >= 0) by {
            vstd::arithmetic::div_mod::lemma_div_pos_is_pos(r1, 1461);
        }
    }
    let r2 = r1 - 1461 * e;
    assert(0 <= r2 < 1461) by {
        vstd::arithmetic::div_mod::lemma_fundamental_div_mod(r1, 1461);
        vstd::arithmetic::div_mod::lemma_mod_bound(r1, 1461);
    }
    assert(e == 24 && c < 3 ==> r2 <= 1459);
    let b: int = if r2 >= 1095 { 3 } else if r2 >= 730 { 2 } else if r2 >= 365 { 1 } else { 0 };
    let t = r2 - 365 * b;
    assert(0 <= t <= 365);
    assert(t == 365 ==> b == 3 && r2 == 1460);
    let y = 100 * c + 4 * e + b;
    assert(doe == 36524 * c + 1461 * e + 365 * b + t);

    // the three divisions of the year formula
    let big: int = if doe == 146096 { 1 } else { 0 };
    lemma_div_is(doe, 146096, big);
    let cen_end: int = if e == 24 && b == 3 && t == 365 { 1 } else { 0 };
    assert(cen_end == 1 ==> c == 3 && doe == 146096);
    lemma_div_is(doe, 36524, c + cen_end);
    let v = 24 * c + e + 365 * b + t;
    let wrap: int = if v >= 1460 { 1 } else { 0 };
    assert(doe == 1460 * (25 * c + e) + v);
    lemma_div_is(doe, 1460, 25 * c + e + wrap);
    let k = t - wrap + cen_end - big;
    assert(0 <= k <= 364);
    assert(doe - doe / 1460 + doe / 36524 - doe / 146096 == 365 * y + k);
    lemma_div_is(365 * y + k, 365, y);
    let yoe = (doe - doe / 1460 + doe / 36524 - doe / 146096) / 365;
    assert(yoe == y);
    lemma_div_is(y, 4, 25 * c + e);
    lemma_div_is(y, 100, c);
    assert(doe - (365 * yoe + yoe / 4 - yoe / 100) == t);
    if t == 365 {
        assert(e < 24 || c == 3);
        let y1 = y + 1;
        lemma_div_is(y1, 4, 25 * c + e + 1);
        if e < 24 {
            lemma_div_is(y1, 100, c);
        } else {
            assert(y1 == 400);
        }
    }
}

/// The month (March based, 0 = March) and day of the `doy`-th day of a March-based
/// year: a date of that month, where February's 29th is the 366th day.
proof fn lemma_year_day(doy: int)
    requires
        0 <= doy <= 365,
    ensures
        ({
            let mp = (5 * doy + 2) / 153;
            let d = doy - (153 * mp + 2) / 5 + 1;
            &&& 0 <= mp <= 11
            &&& 1 <= d
            &&& mp == 11 ==> d <= 28 || (d == 29 && doy == 365)
            &&& mp != 11 ==> d <= days_in_month(1, if mp < 10 { mp + 3 } else { mp - 9 })
        }),
{
    let mp: int = if doy >= 337 { 11 } else if doy >= 306 { 10 } else if doy >= 275 { 9 }
        else if doy >= 245 { 8 } else if doy >= 214 { 7 } else if doy >= 184 { 6 }
        else if doy >= 153 { 5 } else if doy >= 122 { 4 } else if doy >= 92 { 3 }
        else if doy >= 61 { 2 } else if doy >= 31 { 1 } else { 0 };
    lemma_div_is(5 * doy + 2, 153, mp);
    let start: int = if mp == 0 { 0 } else if mp == 1 { 31 } else if mp == 2 { 61 } else if mp == 3 { 92 }
        else if mp == 4 { 122 } else if mp == 5 { 153 } else if mp == 6 { 184 } else if mp == 7 { 214 }
        else if mp == 8 { 245 } else if mp == 9 { 275 } else if mp == 10 { 306 } else { 337 };
    lemma_div_is(153 * mp + 2, 5, start);
}

/// The year `y` and `y + 400 * n` are leap years alike.
proof fn lemma_leap_period(y: int, n: int)
    ensures
        is_leap(y + 400 * n) == is_leap(y),
{
    vstd::arithmetic::div_mod::lemma_mod_bound(y, 4);
    vstd::arithmetic::div_mod::lemma_mod_bound(y, 100);
    vstd::arithmetic::div_mod::lemma_mod_bound(y, 400);
    vstd::arithmetic::div_mod::lemma_fundamental_div_mod(y, 4);
    vstd::arithmetic::div_mod::lemma_fundamental_div_mod(y, 100);
    vstd::arithmetic::div_mod::lemma_fundamental_div_mod(y, 400);
    lemma_div_is(y + 400 * n, 4, y / 4 + 100 * n);
    lemma_div_is(y + 400 * n, 100, y / 100 + 4 * n);
    lemma_div_is(y + 400 * n, 400, y / 400 + n);
    vstd::arithmetic::div_mod::lemma_fundamental_div_mod(y, 4);
    vstd::arithmetic::div_mod::lemma_fundamental_div_mod(y, 100);
    vstd::arithmetic::div_mod::lemma_fundamental_div_mod(y, 400);
}

/// `days_before_year` over a whole number of 400-year eras.
proof fn lemma_days_before_year_era(era: int, x: int)
    requires
        -1 <= x <= 399,
    ensures
        days_before_year(400 * era + x + 1)
            == 146097 * era + 365 * x + x / 4 - x / 100 + x / 400,
{
    let q4 = if x < 0 { -1int } else { x / 4 };
    let q100 = if x < 0 { -1int } else { x / 100 };
    let q400 = if x < 0 { -1int } else { x / 400 };
    if x >= 0 {
        vstd::arithmetic::div_mod::lemma_fundamental_div_mod(x, 4);
        vstd::arithmetic::div_mod::lemma_mod_bound(x, 4);
        vstd::arithmetic::div_mod::lemma_fundamental_div_mod(x, 100);
        vstd::arithmetic::div_mod::lemma_mod_bound(x, 100);
        vstd::arithmetic::div_mod::lemma_fundamental_div_mod(x, 400);
        vstd::arithmetic::div_mod::lemma_mod_bound(x, 400);
    } else {
        lemma_div_is(x, 4, -1);
        lemma_div_is(x, 100, -1);
        lemma_div_is(x, 400, -1);
    }
    lemma_div_is(400 * era + x, 4, 100 * era + q4);
    lemma_div_is(400 * era + x, 100, 4 * era + q100);
    lemma_div_is(400 * era + x, 400, era + q400);
}

/// For a year of an era, the leap days before it, counted from year 1 or from year
/// 0 of the era, differ by the leap day of the year itself.
proof fn lemma_leap_count_shift(x: int)
    requires
        0 <= x <= 399,
    ensures
        (x - 1) / 4 - (x - 1) / 100 + (x - 1) / 400 + (if is_leap(x) { 1int } else { 0 })
            == x / 4 - x / 100,
{
    if x == 0 {
        lemma_div_is(-1, 4, -1);
        lemma_div_is(-1, 100, -1);
        lemma_div_is(-1, 400, -1);
    } else {
        vstd::arithmetic::div_mod::lemma_fundamental_div_mod(x, 4);
        vstd::arithmetic::div_mod::lemma_mod_bound(x, 4);
        vstd::arithmetic::div_mod::lemma_fundamental_div_mod(x, 100);
        vstd::arithmetic::div_mod::lemma_mod_bound(x, 100);
        vstd::arithmetic::div_mod::lemma_fundamental_div_mod(x - 1, 4);
        vstd::arithmetic::div_mod::lemma_mod_bound(x - 1, 4);
        vstd::arithmetic::div_mod::lemma_fundamental_div_mod(x - 1, 100);
        vstd::arithmetic::div_mod::lemma_mod_bound(x - 1, 100);
        lemma_div_is(x - 1, 400, 0);
        lemma_div_is(x, 400, 0);
    }
}

/// The date of day number `z` (days since 1970-01-01), with the year, month and
/// day Hinnant's algorithm computes from the era and day of era.
proof fn lemma_civil(z: int, era: int, doe: int)
    requires
        0 <= doe <= 146096,
        z + 719468 == 146097 * era + doe,
    ensures
        ({
            let yoe = (doe - doe / 1460 + doe / 36524 - doe / 146096) / 365;
            let doy = doe - (365 * yoe + yoe / 4 - yoe / 100);
            let mp = (5 * doy + 2) / 153;
            let d = doy - (153 * mp + 2) / 5 + 1;
            let m = if mp < 10 { mp + 3 } else { mp - 9 };
            let y = yoe + era * 400 + (if m <= 2 { 1int } else { 0 });
            valid_date(y, m, d) && days_from_civil(y, m, d) == z
        }),
{
    lemma_era_day(doe);
    let yoe = (doe - doe / 1460 + doe / 36524 - doe / 146096) / 365;
    let doy = doe - (365 * yoe + yoe / 4 - yoe / 100);
    lemma_year_day(doy);
    let mp = (5 * doy + 2) / 153;
    let d = doy - (153 * mp + 2) / 5 + 1;
    let m = if mp < 10 { mp + 3 } else { mp - 9 };
    let y = yoe + era * 400 + (if m <= 2 { 1int } else { 0 });
    lemma_div_is(0, 400, 0);
    assert(days_before_year(1970) == 719162) by {
        lemma_div_is(1969, 4, 492);
        lemma_div_is(1969, 100, 19);
        lemma_div_is(1969, 400, 4);
    }
    let start: int = if mp == 0 { 0 } else if mp == 1 { 31 } else if mp == 2 { 61 } else if mp == 3 { 92 }
        else if mp == 4 { 122 } else if mp == 5 { 153 } else if mp == 6 { 184 } else if mp == 7 { 214 }
        else if mp == 8 { 245 } else if mp == 9 { 275 } else if mp == 10 { 306 } else { 337 };
    lemma_div_is(153 * mp + 2, 5, start);
    if m <= 2 {
        // January or February of year y = yoe + 1 of the era.
        lemma_days_before_year_era(era, yoe);
        lemma_div_is(yoe, 400, 0);
        lemma_leap_period(yoe + 1, era);
        assert(yoe + 1 + 400 * era == y);
    } else {
        lemma_days_before_year_era(era, yoe - 1);
        lemma_leap_count_shift(yoe);
        lemma_leap_period(yoe, era);
        assert(yoe + 400 * era == y);
    }
}

/// The date (year, month 1–12, day) of day number `z`, counted from 1970-01-01
/// (Howard Hinnant's days-to-civil algorithm).
pub fn civil_from_days(z: i64) -> (r: (i64, u32, u32))
    requires
        i64::MIN + 146096 - 719468 <= z <= i64::MAX - 719468,
    ensures
        valid_date(r.0 as int, r.1 as int, r.2 as int),
        days_from_civil(r.0 as int, r.1 as int, r.2 as int) == z,
{
    let z = z + 719_468;
    let era: i64;
    let doe: u64;
    if z >= 0 {
        era = (z as u64 / 146_097) as i64;
        doe = z as u64 % 146_097;
        proof {
            lemma_div_is(z as int, 146097, era as int);
        }
    } else {
        // floor(z / 146097) for negative z
        let back = (-z) as u64 + 146_096;
        let p = back / 146_097;
        era = -(p as i64);
        doe = (z + (p as i64) * 146_097) as u64;
        proof {
            lemma_div_is(back as int, 146097, p as int);
        }
    }
    let yoe = (doe - doe / 1460 + doe / 36524 - doe / 146_096) / 365;
    let doy = doe - (365 * yoe + yoe / 4 - yoe / 100);
    proof {
        lemma_era_day(doe as int);
        lemma_year_day(doy as int);
    }
    let mp = (5 * doy + 2) / 153;
    let d = (doy - (153 * mp + 2) / 5 + 1) as u32;
    let m = (if mp < 10 { mp + 3 } else { mp - 9 }) as u32;
    let y = yoe as i64 + era * 400;
    proof {
        lemma_civil(z - 719468, era as int, doe as int);
    }
    (y + (if m <= 2 { 1i64 } else { 0 }), m, d)
}

// ---------------------------------------------------------------- timestamps

/// The seconds of a non-negative timestamp split into (day number, hour, minute).
pub open spec fn utc_parts(ts: int) -> (int, int, int) {
    let s = if ts < 0 { 0 } else { ts };
    (s / 86400, (s / 3600) % 24, (s / 60) % 60)
}

/// `YYYY-MM-DD HH:MM UTC` (at least four year digits, the rest two), for the date
/// `y-m-d` and the time `h:mi`.
pub open spec fn utc_text(y: nat, m: nat, d: nat, h: nat, mi: nat) -> Seq<char> {
    zero_pad(decimal(y), 4) + "-"@ + zero_pad(decimal(m), 2) + "-"@ + zero_pad(decimal(d), 2)
        + " "@ + zero_pad(decimal(h), 2) + ":"@ + zero_pad(decimal(mi), 2) + " UTC"@
}

/// Formats Unix seconds as `YYYY-MM-DD HH:MM UTC`; times before 1970 show as the
/// epoch.
pub fn format_utc(ts: i64) -> (r: String)
    ensures
        ({
            let (days, h, mi) = utc_parts(ts as int);
            exists|y: int, m: int, d: int|
                valid_date(y, m, d) && days_from_civil(y, m, d) == days && y >= 1970
                && r@ == utc_text(y as nat, m as nat, d as nat, h as nat, mi as nat)
        }),
{
    let d: i64 = if ts < 0 { 0 } else { ts };
    let mins = ((d / 60) % 60) as u64;
    let hours = ((d / 3600) % 24) as u64;
    let days = d / 86400;
    let (y, m, dm) = civil_from_days(days);
    proof {
        lemma_civil_year_from_1970(y as int, m as int, dm as int, days as int);
    }
    let s1 = concat(u64_to_padded(y as u64, 4).as_str(), "-");
    let s2 = concat(s1.as_str(), u64_to_padded(m as u64, 2).as_str());
    let s3 = concat(s2.as_str(), "-");
    let s4 = concat(s3.as_str(), u64_to_padded(dm as u64, 2).as_str());
    let s5 = concat(s4.as_str(), " ");
    let s6 = concat(s5.as_str(), u64_to_padded(hours, 2).as_str());
    let s7 = concat(s6.as_str(), ":");
    let s8 = concat(s7.as_str(), u64_to_padded(mins, 2).as_str());
    let r = concat(s8.as_str(), " UTC");
    assert(r@ == utc_text(y as nat, m as nat, dm as nat, hours as nat, mins as nat));
    r
}

/// A non-negative day number is a date in 1970 or later.
proof fn lemma_civil_year_from_1970(y: int, m: int, d: int, days: int)
    requires
        days >= 0,
        valid_date(y, m, d),
        days_from_civil(y, m, d) == days,
    ensures
        y >= 1970,
{
    if y < 1970 {
        lemma_days_before_year_mono(y + 1, 1970);
        assert(days_before_month(y, m) + d - 1 < days_before_year(y + 1) - days_before_year(y)) by {
            lemma_year_length(y);
        }
    }
}

/// The first of January of year `y + 1` is 365 or 366 days after that of year `y`.
proof fn lemma_year_length(y: int)
    ensures
        days_before_year(y + 1) - days_before_year(y) == if is_leap(y) { 366int } else { 365 },
{
    vstd::arithmetic::div_mod::lemma_fundamental_div_mod(y - 1, 4);
    vstd::arithmetic::div_mod::lemma_mod_bound(y - 1, 4);
    vstd::arithmetic::div_mod::lemma_fundamental_div_mod(y - 1, 100);
    vstd::arithmetic::div_mod::lemma_mod_bound(y - 1, 100);
    vstd::arithmetic::div_mod::lemma_fundamental_div_mod(y - 1, 400);
    vstd::arithmetic::div_mod::lemma_mod_bound(y - 1, 400);
    vstd::arithmetic::div_mod::lemma_fundamental_div_mod(y, 4);
    vstd::arithmetic::div_mod::lemma_mod_bound(y, 4);
    vstd::arithmetic::div_mod::lemma_fundamental_div_mod(y, 100);
    vstd::arithmetic::div_mod::lemma_mod_bound(y, 100);
    vstd::arithmetic::div_mod::lemma_fundamental_div_mod(y, 400);
    vstd::arithmetic::div_mod::lemma_mod_bound(y, 400);
}

/// Later years start later.
proof fn lemma_days_before_year_mono(a: int, b: int)
    requires
        a <= b,
    ensures
        days_before_year(a) <= days_before_year(b),
    decreases b - a,
{
    if a < b {
        lemma_days_before_year_mono(a + 1, b);
        lemma_year_length(a);
    }
}

// ---------------------------------------------------------------- laws

/// Every day number names exactly one date: `civil_from_days` gives a date whose day
/// number is the one asked for, and two dates with the same day number are equal.
pub proof fn law_dates_are_day_numbers(y1: int, m1: int, d1: int, y2: int, m2: int, d2: int)
    requires
        valid_date(y1, m1, d1),
        valid_date(y2, m2, d2),
        days_from_civil(y1, m1, d1) == days_from_civil(y2, m2, d2),
    ensures
        y1 == y2 && m1 == m2 && d1 == d2,
{
    lemma_date_within_year(y1, m1, d1);
    lemma_date_within_year(y2, m2, d2);
    if y1 < y2 {
        lemma_days_before_year_mono(y1 + 1, y2);
    } else if y2 < y1 {
        lemma_days_before_year_mono(y2 + 1, y1);
    }
    assert(y1 == y2);
    if m1 < m2 {
        lemma_month_starts(y1, m1, m2);
    } else if m2 < m1 {
        lemma_month_starts(y1, m2, m1);
    }
}

/// A date lies within its year.
proof fn lemma_date_within_year(y: int, m: int, d: int)
    requires
        valid_date(y, m, d),
    ensures
        days_before_month(y, m) + d - 1 < days_before_year(y + 1) - days_before_year(y),
{
    lemma_year_length(y);
}

/// A later month of a year starts after every day of an earlier one.
proof fn lemma_month_starts(y: int, m1: int, m2: int)
    requires
        1 <= m1 < m2 <= 12,
    ensures
        days_before_month(y, m1) + days_in_month(y, m1) <= days_before_month(y, m2),
{
}

} // verus!
