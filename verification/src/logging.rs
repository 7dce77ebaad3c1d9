//! The log's formats and policies: UTC timestamps computed from seconds
//! since the Unix epoch, the line format, which levels are written, when
//! the file is rotated and how backups are named.  Opening, writing and
//! renaming files happens outside the library.

use vstd::prelude::*;
use crate::text::{chars_of, decimal, decimal_padded, extend_str, push_decimal_padded, string_of};

verus! {

/// The log file is rotated once it reaches this size.
pub const MAX_BYTES: u64 = 5 * 1024 * 1024;

/// Number of backup files kept.
pub const BACKUP_COUNT: u32 = 5;

/// Hinnant's conversion from days since 1970-01-01 to a civil date, over
/// mathematical integers.
pub open spec fn spec_days_to_ymd(days: int) -> (int, int, int) {
    let z = days + 719468;
    let era = z / 146097;
    let doe = z - era * 146097;
    let yoe = (doe - doe / 1460 + doe / 36524 - doe / 146096) / 365;
    let y = yoe + era * 400;
    let doy = doe - (365 * yoe + yoe / 4 - yoe / 100);
    let mp = (5 * doy + 2) / 153;
    let d = doy - (153 * mp + 2) / 5 + 1;
    let m = if mp < 10 { mp + 3 } else { mp - 9 };
    let y = if m <= 2 { y + 1 } else { y };
    (y, m, d)
}

/// Gregorian leap years: divisible by 4, and not by 100 unless by 400.
pub open spec fn is_leap_year(y: int) -> bool {
    y % 4 == 0 && (y % 100 != 0 || y % 400 == 0)
}

pub open spec fn days_in_month(y: int, m: int) -> int {
    if m == 2 {
        if is_leap_year(y) { 29 } else { 28 }
    } else if m == 4 || m == 6 || m == 9 || m == 11 {
        30
    } else {
        31
    }
}

/// Days of year `y` before the first of month `m`.
pub open spec fn days_before_month(y: int, m: int) -> int
    decreases m,
{
    if m <= 1 { 0 } else { days_before_month(y, m - 1) + days_in_month(y, m - 1) }
}

/// Number of leap years among years 1 to `y`.
pub open spec fn leap_years_through(y: int) -> int {
    y / 4 - y / 100 + y / 400
}

/// Days from 1970-01-01 to the first of January of year `y`.
pub open spec fn days_before_year(y: int) -> int {
    365 * (y - 1970) + leap_years_through(y - 1) - leap_years_through(1969)
}

/// The number of days from 1970-01-01 to the date (y, m, d).
pub open spec fn day_number(y: int, m: int, d: int) -> int {
    days_before_year(y) + days_before_month(y, m) + d - 1
}

pub open spec fn is_valid_date(y: int, m: int, d: int) -> bool {
    1 <= m <= 12 && 1 <= d <= days_in_month(y, m)
}

/// Where the year `yoe` of a 400-year cycle starts, counting from March 1
/// of the cycle's first year.
proof fn lemma_year_bracket(doe: int, a: int, b: int, c: int, yoe: int, q4: int, q100: int, n4: int, n100: int)
    requires
        0 <= doe < 146097,
        1460 * a <= doe < 1460 * a + 1460,
        36524 * b <= doe < 36524 * b + 36524,
        146096 * c <= doe < 146096 * c + 146096,
        365 * yoe <= doe - a + b - c < 365 * yoe + 365,
        4 * q4 <= yoe < 4 * q4 + 4,
        100 * q100 <= yoe < 100 * q100 + 100,
        4 * n4 <= yoe + 1 < 4 * n4 + 4,
        100 * n100 <= yoe + 1 < 100 * n100 + 100,
    ensures
        0 <= yoe <= 399,
        365 * yoe + q4 - q100 <= doe,
        yoe < 399 ==> doe < 365 * (yoe + 1) + n4 - n100,
{
}

/// Days before month `m` (1 to 12), as a table.
proof fn lemma_days_before_month(y: int)
    ensures
        days_before_month(y, 1) == 0,
        days_before_month(y, 2) == 31,
        days_before_month(y, 3) == 59 + (if is_leap_year(y) { 1int } else { 0int }),
        days_before_month(y, 4) == 90 + (if is_leap_year(y) { 1int } else { 0int }),
        days_before_month(y, 5) == 120 + (if is_leap_year(y) { 1int } else { 0int }),
        days_before_month(y, 6) == 151 + (if is_leap_year(y) { 1int } else { 0int }),
        days_before_month(y, 7) == 181 + (if is_leap_year(y) { 1int } else { 0int }),
        days_before_month(y, 8) == 212 + (if is_leap_year(y) { 1int } else { 0int }),
        days_before_month(y, 9) == 243 + (if is_leap_year(y) { 1int } else { 0int }),
        days_before_month(y, 10) == 273 + (if is_leap_year(y) { 1int } else { 0int }),
        days_before_month(y, 11) == 304 + (if is_leap_year(y) { 1int } else { 0int }),
        days_before_month(y, 12) == 334 + (if is_leap_year(y) { 1int } else { 0int }),
{
    reveal_with_fuel(days_before_month, 13);
}

/// First day of month `mp` of a year counted from March (0 = March),
/// relative to March 1.
pub open spec fn march_month_start(mp: int) -> int {
    if mp == 0 { 0 } else if mp == 1 { 31 } else if mp == 2 { 61 } else if mp == 3 { 92 }
    else if mp == 4 { 122 } else if mp == 5 { 153 } else if mp == 6 { 184 } else if mp == 7 { 214 }
    else if mp == 8 { 245 } else if mp == 9 { 275 } else if mp == 10 { 306 } else { 337 }
}

/// The month and day within a year counted from March, of length 365 or
/// 366 (`leap`), for day `doy` of that year.
proof fn lemma_march_month(doy: int, leap: bool, mp: int, start: int)
    requires
        0 <= doy < (if leap { 366int } else { 365int }),
        153 * mp <= 5 * doy + 2 < 153 * mp + 153,
        5 * start <= 153 * mp + 2 < 5 * start + 5,
    ensures
        0 <= mp <= 11,
        start == march_month_start(mp),
        1 <= doy - start + 1,
        mp < 11 ==> doy - start + 1 <= march_month_start(mp + 1) - march_month_start(mp),
        mp == 11 ==> doy - start + 1 <= (if leap { 29int } else { 28int }),
{
}

/// Leap years up to a year of a 400-year cycle.
proof fn lemma_cycle_leaps(era: int, yoe: int, q4: int, q100: int)
    requires
        era >= 0,
        0 <= yoe <= 399,
        4 * q4 <= yoe < 4 * q4 + 4,
        100 * q100 <= yoe < 100 * q100 + 100,
    ensures
        leap_years_through(era * 400 + yoe) == era * 97 + q4 - q100,
        leap_years_through(era * 400 + yoe - 1) + (if is_leap_year(era * 400 + yoe) { 1int } else { 0int })
            == era * 97 + q4 - q100,
{
    assert((era * 400 + yoe) / 4 == era * 100 + q4
        && (era * 400 + yoe) / 100 == era * 4 + q100
        && (era * 400 + yoe) / 400 == era) by (nonlinear_arith)
        requires
            era >= 0,
            0 <= yoe <= 399,
            4 * q4 <= yoe < 4 * q4 + 4,
            100 * q100 <= yoe < 100 * q100 + 100,
    ;
    let p4 = (era * 400 + yoe - 1) / 4;
    let p100 = (era * 400 + yoe - 1) / 100;
    let p400 = (era * 400 + yoe - 1) / 400;
    assert(4 * p4 <= era * 400 + yoe - 1 < 4 * p4 + 4) by (nonlinear_arith) requires p4 == (era * 400 + yoe - 1) / 4;
    assert(100 * p100 <= era * 400 + yoe - 1 < 100 * p100 + 100) by (nonlinear_arith) requires p100 == (era * 400 + yoe - 1) / 100;
    assert(400 * p400 <= era * 400 + yoe - 1 < 400 * p400 + 400) by (nonlinear_arith) requires p400 == (era * 400 + yoe - 1) / 400;
    let y = era * 400 + yoe;
    assert(y % 4 == y - 4 * (era * 100 + q4) && y % 100 == y - 100 * (era * 4 + q100) && y % 400 == yoe) by (nonlinear_arith)
        requires
            y == era * 400 + yoe,
            y / 4 == era * 100 + q4,
            y / 100 == era * 4 + q100,
            y / 400 == era,
            0 <= yoe <= 399,
    ;
}

/// Hinnant's conversion gives a valid date whose day number is `days`.
#[verifier::rlimit(50)]
proof fn lemma_days_to_ymd_correct(days: int)
    requires
        days >= 0,
    ensures
        is_valid_date(spec_days_to_ymd(days).0, spec_days_to_ymd(days).1, spec_days_to_ymd(days).2),
        day_number(spec_days_to_ymd(days).0, spec_days_to_ymd(days).1, spec_days_to_ymd(days).2) == days,
{
    let z = days + 719468;
    let era = z / 146097;
    let doe = z - era * 146097;
    assert(0 <= doe < 146097 && era >= 0) by (nonlinear_arith)
        requires z >= 0, era == z / 146097, doe == z - era * 146097;
    let a = doe / 1460;
    let b = doe / 36524;
    let c = doe / 146096;
    let t = doe - a + b - c;
    let yoe = t / 365;
    let q4 = yoe / 4;
    let q100 = yoe / 100;
    let n4 = (yoe + 1) / 4;
    let n100 = (yoe + 1) / 100;
    assert(1460 * a <= doe < 1460 * a + 1460) by (nonlinear_arith) requires a == doe / 1460, doe >= 0;
    assert(36524 * b <= doe < 36524 * b + 36524) by (nonlinear_arith) requires b == doe / 36524, doe >= 0;
    assert(146096 * c <= doe < 146096 * c + 146096) by (nonlinear_arith) requires c == doe / 146096, doe >= 0;
    assert(t >= 0);
    assert(365 * yoe <= t < 365 * yoe + 365 && yoe >= 0) by (nonlinear_arith)
        requires yoe == t / 365, t >= 0;
    assert(4 * q4 <= yoe < 4 * q4 + 4) by (nonlinear_arith) requires q4 == yoe / 4, yoe >= 0;
    assert(100 * q100 <= yoe < 100 * q100 + 100) by (nonlinear_arith) requires q100 == yoe / 100, yoe >= 0;
    assert(4 * n4 <= yoe + 1 < 4 * n4 + 4) by (nonlinear_arith) requires n4 == (yoe + 1) / 4, yoe >= 0;
    assert(100 * n100 <= yoe + 1 < 100 * n100 + 100) by (nonlinear_arith) requires n100 == (yoe + 1) / 100, yoe >= 0;
    lemma_year_bracket(doe, a, b, c, yoe, q4, q100, n4, n100);
    let y0 = yoe + era * 400;
    let doy = doe - (365 * yoe + q4 - q100);
    let mp = (5 * doy + 2) / 153;
    assert(153 * mp <= 5 * doy + 2 < 153 * mp + 153) by (nonlinear_arith) requires mp == (5 * doy + 2) / 153, doy >= 0;
    let start = (153 * mp + 2) / 5;
    assert(5 * start <= 153 * mp + 2 < 5 * start + 5) by (nonlinear_arith) requires start == (153 * mp + 2) / 5;
    let d = doy - start + 1;
    let m = if mp < 10 { mp + 3 } else { mp - 9 };
    let y = if m <= 2 { y0 + 1 } else { y0 };
    assert(spec_days_to_ymd(days) == (y, m, d));
    // The year from March of y0 holds the February of y0 + 1.
    let leap_next = is_leap_year(y0 + 1);
    if yoe < 399 {
        lemma_cycle_leaps(era, yoe + 1, n4, n100);
        assert(leap_next == (n4 - q4 - (n100 - q100) == 1));
    } else {
        lemma_cycle_leaps(era + 1, 0, 0, 0);
    }
    assert(0 <= doy < (if leap_next { 366int } else { 365int }));
    lemma_march_month(doy, leap_next, mp, start);
    lemma_days_before_month(y);
    lemma_cycle_leaps(era, yoe, q4, q100);
    assert(leap_years_through(1969) == 477);
}

/// The year, month (1–12) and day (1–31) of the day `days` after
/// 1970-01-01.
pub fn days_to_ymd(days: u64) -> (r: (u64, u64, u64))
    requires
        days <= u64::MAX - 719468,
    ensures
        r.0 as int == spec_days_to_ymd(days as int).0,
        r.1 as int == spec_days_to_ymd(days as int).1,
        r.2 as int == spec_days_to_ymd(days as int).2,
        is_valid_date(r.0 as int, r.1 as int, r.2 as int),
        day_number(r.0 as int, r.1 as int, r.2 as int) == days,
{
    proof {
        lemma_days_to_ymd_correct(days as int);
    }
    let z = days + 719468;
    let era = z / 146097;
    assert(era * 146097 <= z) by (nonlinear_arith)
        requires
            era == z / 146097,
    ;
    let doe = z - era * 146097;
    assert(doe < 146097) by (nonlinear_arith)
        requires
            era == z / 146097,
            doe == z - era * 146097,
    ;
    let yoe = (doe - doe / 1460 + doe / 36524 - doe / 146096) / 365;
    assert(yoe <= 399) by (nonlinear_arith)
        requires
            doe < 146097,
            yoe == (doe - doe / 1460 + doe / 36524 - doe / 146096) / 365,
    ;
    assert(era <= u64::MAX / 146097) by (nonlinear_arith)
        requires
            era == z / 146097,
    ;
    let y = yoe + era * 400;
    assert(365 * yoe + yoe / 4 - yoe / 100 <= doe) by (nonlinear_arith)
        requires
            doe < 146097,
            yoe == (doe - doe / 1460 + doe / 36524 - doe / 146096) / 365,
    ;
    let doy = doe - (365 * yoe + yoe / 4 - yoe / 100);
    assert(doy <= 365) by (nonlinear_arith)
        requires
            doe < 146097,
            yoe == (doe - doe / 1460 + doe / 36524 - doe / 146096) / 365,
            doy == doe - (365 * yoe + yoe / 4 - yoe / 100),
    ;
    let mp = (5 * doy + 2) / 153;
    assert(mp <= 11 && (153 * mp + 2) / 5 <= doy) by (nonlinear_arith)
        requires
            doy <= 365,
            mp == (5 * doy + 2) / 153,
    ;
    let d = doy - (153 * mp + 2) / 5 + 1;
    assert(d <= 31) by (nonlinear_arith)
        requires
            doy <= 365,
            mp == (5 * doy + 2) / 153,
            d == doy - (153 * mp + 2) / 5 + 1,
    ;
    let m = if mp < 10 { mp + 3 } else { mp - 9 };
    let y = if m <= 2 { y + 1 } else { y };
    (y, m, d)
}

/// "YYYY-MM-DD HH:MM:SS" for the second `secs` after the Unix epoch, in
/// UTC, each field zero-padded to its width.
pub open spec fn spec_timestamp(secs: nat) -> Seq<char> {
    let days = secs / 86400;
    let ymd = spec_days_to_ymd(days as int);
    decimal_padded(ymd.0 as nat, 4) + "-"@ + decimal_padded(ymd.1 as nat, 2) + "-"@
        + decimal_padded(ymd.2 as nat, 2) + " "@ + decimal_padded(((secs / 3600) % 24) as nat, 2)
        + ":"@ + decimal_padded(((secs / 60) % 60) as nat, 2) + ":"@ + decimal_padded(
        (secs % 60) as nat,
        2,
    )
}

/// Formats a UTC time given in seconds since the Unix epoch.
pub fn utc_timestamp(secs: u64) -> (r: String)
    ensures
        r@ == spec_timestamp(secs as nat),
{
    let s = secs % 60;
    let m = (secs / 60) % 60;
    let h = (secs / 3600) % 24;
    let days = secs / 86400;
    assert(days <= u64::MAX - 719468);
    let (year, month, day) = days_to_ymd(days);
    let mut out: Vec<char> = Vec::new();
    push_decimal_padded(&mut out, year, 4);
    extend_str(&mut out, "-");
    push_decimal_padded(&mut out, month, 2);
    extend_str(&mut out, "-");
    push_decimal_padded(&mut out, day, 2);
    extend_str(&mut out, " ");
    push_decimal_padded(&mut out, h, 2);
    extend_str(&mut out, ":");
    push_decimal_padded(&mut out, m, 2);
    extend_str(&mut out, ":");
    push_decimal_padded(&mut out, s, 2);
    assert(out@ =~= spec_timestamp(secs as nat));
    string_of(&out)
}

/// A line of the log: "[LEVEL TIMESTAMP] message" and a line break.
pub open spec fn spec_log_line(level: Seq<char>, ts: Seq<char>, msg: Seq<char>) -> Seq<char> {
    "["@ + level + " "@ + ts + "] "@ + msg + "\n"@
}

pub fn format_log_line(level: &str, ts: &str, msg: &str) -> (r: String)
    ensures
        r@ == spec_log_line(level@, ts@, msg@),
{
    let mut out = chars_of("[");
    extend_str(&mut out, level);
    extend_str(&mut out, " ");
    extend_str(&mut out, ts);
    extend_str(&mut out, "] ");
    extend_str(&mut out, msg);
    extend_str(&mut out, "\n");
    assert(out@ =~= spec_log_line(level@, ts@, msg@));
    string_of(&out)
}

/// Severity of a log record, most severe first.
#[derive(Clone, Copy, PartialEq, Eq, Structural, Debug)]
pub enum LogLevel {
    Error,
    Warn,
    Info,
    Debug,
    Trace,
}

pub open spec fn rank(l: LogLevel) -> int {
    match l {
        LogLevel::Error => 1,
        LogLevel::Warn => 2,
        LogLevel::Info => 3,
        LogLevel::Debug => 4,
        LogLevel::Trace => 5,
    }
}

fn rank_exec(l: LogLevel) -> (r: u8)
    ensures
        r as int == rank(l),
{
    match l {
        LogLevel::Error => 1,
        LogLevel::Warn => 2,
        LogLevel::Info => 3,
        LogLevel::Debug => 4,
        LogLevel::Trace => 5,
    }
}

/// Whether a record of `level` is written: up to debug records in debug
/// mode, up to info records otherwise.
pub fn log_enabled(level: LogLevel, debug: bool) -> (r: bool)
    ensures
        r == (rank(level) <= if debug { rank(LogLevel::Debug) } else { rank(LogLevel::Info) }),
{
    let limit = if debug { rank_exec(LogLevel::Debug) } else { rank_exec(LogLevel::Info) };
    rank_exec(level) <= limit
}

/// Whether a log file of `size` bytes is rotated.
pub fn should_rotate(size: u64) -> (r: bool)
    ensures
        r == (size >= MAX_BYTES),
{
    size >= MAX_BYTES
}

/// The extension of backup `i`: "log.i".
pub fn backup_extension(i: u32) -> (r: String)
    ensures
        r@ == "log."@ + decimal(i as nat),
{
    let mut out = chars_of("log.");
    push_decimal_padded(&mut out, i as u64, 0);
    assert(out@ =~= "log."@ + decimal(i as nat));
    string_of(&out)
}

/// The renames of a rotation, in order, as (from, to) backup numbers; 0
/// is the live file.  The oldest backup is removed first; each backup
/// moves one number up, newest last; then the live file becomes backup 1.
pub open spec fn spec_rotation_renames() -> Seq<(u32, u32)> {
    seq![(4, 5), (3, 4), (2, 3), (1, 2), (0, 1)]
}

pub fn rotation_renames() -> (r: Vec<(u32, u32)>)
    ensures
        r@ == spec_rotation_renames(),
{
    let mut out: Vec<(u32, u32)> = Vec::new();
    let mut i: u32 = BACKUP_COUNT - 1;
    while i >= 1
        invariant
            i <= BACKUP_COUNT - 1,
            out@ == spec_rotation_renames().take((BACKUP_COUNT - 1 - i) as int),
        decreases i,
    {
        out.push((i, i + 1));
        assert(out@ =~= spec_rotation_renames().take((BACKUP_COUNT - 1 - (i - 1)) as int));
        i -= 1;
    }
    out.push((0, 1));
    assert(out@ =~= spec_rotation_renames());
    out
}

} // verus!
