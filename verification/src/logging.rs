//! Log files: one for each day, kept for a while.

use crate::scan;
use crate::scan::{ends_with, starts_with};
use crate::text;
use crate::text::{cat5, decimal_padded_text, same};
use crate::winpath;
use crate::winpath::{file_name, join};
use vstd::prelude::*;

verus! {

pub const LOG_PREFIX: &'static str = "dbgflow-";

pub const LOG_SUFFIX: &'static str = ".jsonl";

/// Whether a year has a twenty-ninth of February.
pub open spec fn is_leap(year: int) -> bool {
    year % 4 == 0 && (year % 100 != 0 || year % 400 == 0)
}

/// The number of days of a month.
pub open spec fn month_length(year: int, month: int) -> int {
    if month == 2 {
        if is_leap(year) {
            29
        } else {
            28
        }
    } else if month == 4 || month == 6 || month == 9 || month == 11 {
        30
    } else {
        31
    }
}

/// The number of days of a year before a month.
pub open spec fn days_before_month(year: int, month: int) -> int
    decreases month,
{
    if month <= 1 {
        0
    } else {
        days_before_month(year, month - 1) + month_length(year, month - 1)
    }
}

/// The number of leap years before a year, from the year one on.
pub open spec fn leap_years_before(year: int) -> int {
    (year - 1) / 4 - (year - 1) / 100 + (year - 1) / 400
}

/// The number of days from the first of January 1970 to the first of January of a year.
pub open spec fn days_before_year(year: int) -> int {
    365 * (year - 1970) + leap_years_before(year) - leap_years_before(1970)
}

/// Whether there is a date.
pub open spec fn is_date(year: int, month: int, day: int) -> bool {
    1 <= month <= 12 && 1 <= day <= month_length(year, month)
}

/// The number of days from the first of January 1970 to a date.
pub open spec fn day_number(year: int, month: int, day: int) -> int {
    days_before_year(year) + days_before_month(year, month) + day - 1
}

/// The year of a day in a cycle of four hundred years that begins in March.
proof fn year_of_cycle(doe: u32)
    requires
        doe <= 146096,
    ensures
        ({
            let yoe = (doe - doe / 1460 + doe / 36524 - doe / 146096) / 365;
            &&& 0 <= yoe <= 399
            &&& 365 * yoe + yoe / 4 - yoe / 100 <= doe
            &&& yoe < 399 ==> doe < 365 * (yoe + 1) + (yoe + 1) / 4 - (yoe + 1) / 100
        }),
{
    assert({
        let yoe = (doe - doe / 1460 + doe / 36524 - doe / 146096) / 365;
        &&& 0 <= yoe <= 399
        &&& 365 * yoe + yoe / 4 - yoe / 100 <= doe
        &&& yoe < 399 ==> doe < 365 * (yoe + 1) + (yoe + 1) / 4 - (yoe + 1) / 100
    }) by (nonlinear_arith)
        requires
            doe <= 146096,
    ;
}

/// The days of a year that begins in March: the first day of each month.
proof fn months_from_march(year: int)
    ensures
        ({
            let m = days_before_month(year, 3);
            &&& days_before_month(year, 1) == 0
            &&& days_before_month(year, 2) == 31
            &&& m == 59 + if is_leap(year) {
                1int
            } else {
                0int
            }
            &&& days_before_month(year, 4) == m + 31
            &&& days_before_month(year, 5) == m + 61
            &&& days_before_month(year, 6) == m + 92
            &&& days_before_month(year, 7) == m + 122
            &&& days_before_month(year, 8) == m + 153
            &&& days_before_month(year, 9) == m + 184
            &&& days_before_month(year, 10) == m + 214
            &&& days_before_month(year, 11) == m + 245
            &&& days_before_month(year, 12) == m + 275
        }),
{
    reveal_with_fuel(days_before_month, 13);
}

/// The first of March of a year, counted from the first of March of the year zero.
proof fn march_of_year(year: int)
    ensures
        days_before_year(year) + 59 + (if is_leap(year) {
            1int
        } else {
            0int
        }) == 365 * year + year / 4 - year / 100 + year / 400 - 719468,
        days_before_year(year + 1) + 719468 == 365 * year + year / 4 - year / 100 + year / 400 + 306,
{
}

/// The month of a day of a year that begins in March, the first month being zero.
pub open spec fn march_month(doy: int) -> int {
    (5 * doy + 2) / 153
}

/// The date of a day of a year that begins in March.
proof fn date_in_march_year(y: int, doy: int)
    requires
        0 <= doy <= 365,
        doy == 365 ==> is_leap(y + 1),
    ensures
        ({
            let mp = march_month(doy);
            let d = doy - (153 * mp + 2) / 5 + 1;
            let m = if mp < 10 {
                mp + 3
            } else {
                mp - 9
            };
            let year = if m <= 2 {
                y + 1
            } else {
                y
            };
            &&& 0 <= mp <= 11
            &&& is_date(year, m, d)
            &&& day_number(year, m, d) == 365 * y + y / 4 - y / 100 + y / 400 + doy - 719468
        }),
{
    months_from_march(y);
    months_from_march(y + 1);
    march_of_year(y);
    let mp = march_month(doy);
    assert(153 * mp <= 5 * doy + 2 < 153 * mp + 153);
    assert(mp == 0 || mp == 1 || mp == 2 || mp == 3 || mp == 4 || mp == 5 || mp == 6 || mp == 7 || mp
        == 8 || mp == 9 || mp == 10 || mp == 11);
}

/// The year of a day in a cycle, and the day in that year.
proof fn day_in_cycle(era: int, doe: int)
    requires
        0 <= doe <= 146096,
    ensures
        ({
            let yoe = (doe - doe / 1460 + doe / 36524 - doe / 146096) / 365;
            let y = yoe + era * 400;
            let doy = doe - (365 * yoe + yoe / 4 - yoe / 100);
            &&& 0 <= yoe <= 399
            &&& 0 <= doy <= 365
            &&& doy == 365 ==> is_leap(y + 1)
            &&& era * 146097 + doe == 365 * y + y / 4 - y / 100 + y / 400 + doy
        }),
{
    year_of_cycle(doe as u32);
    let yoe = (doe - doe / 1460 + doe / 36524 - doe / 146096) / 365;
    let y = yoe + era * 400;
    assert(y / 4 == 100 * era + yoe / 4);
    assert(y / 100 == 4 * era + yoe / 100);
    assert(y / 400 == era);
}

/// The date of a day.
pub fn civil_from_days(days_since_unix_epoch: i64) -> (r: (i32, u32, u32))
    requires
        day_number(i32::MIN as int, 1, 1) <= days_since_unix_epoch <= day_number(
            i32::MAX as int,
            12,
            31,
        ),
    ensures
        is_date(r.0 as int, r.1 as int, r.2 as int),
        day_number(r.0 as int, r.1 as int, r.2 as int) == days_since_unix_epoch,
{
    assert(-800000000000 <= days_since_unix_epoch <= 800000000000) by {
        months_from_march(i32::MAX as int);
        months_from_march(i32::MIN as int);
    }
    let z: i64 = days_since_unix_epoch + 719468;
    let era: i64 = (if z >= 0 {
        z
    } else {
        z - 146096
    }) / 146097;
    let doe: i64 = z - era * 146097;
    assert(0 <= doe <= 146096);
    proof {
        day_in_cycle(era as int, doe as int);
    }
    let yoe: i64 = (doe - doe / 1460 + doe / 36524 - doe / 146096) / 365;
    let y: i64 = yoe + era * 400;
    let doy: i64 = doe - (365 * yoe + yoe / 4 - yoe / 100);
    proof {
        date_in_march_year(y as int, doy as int);
    }
    let mp: i64 = (5 * doy + 2) / 153;
    let d: i64 = doy - (153 * mp + 2) / 5 + 1;
    let m: i64 = if mp < 10 {
        mp + 3
    } else {
        mp - 9
    };
    let year: i64 = if m <= 2 {
        y + 1
    } else {
        y
    };
    proof {
        dates_are_ordered(year as int, m as int, d as int, i32::MAX as int, 12, 31);
        dates_are_ordered(i32::MIN as int, 1, 1, year as int, m as int, d as int);
    }
    (year as i32, m as u32, d as u32)
}

/// A year ends after each of its days.
proof fn day_in_year(year: int, month: int, day: int)
    requires
        is_date(year, month, day),
    ensures
        days_before_year(year) <= day_number(year, month, day) < days_before_year(year + 1),
{
    months_from_march(year);
}

/// Later years begin later.
proof fn years_are_ordered(a: int, b: int)
    requires
        a <= b,
    ensures
        days_before_year(a) <= days_before_year(b),
    decreases b - a,
{
    if a < b {
        years_are_ordered(a, b - 1);
    }
}

/// A later day is in a later year, or in the same one.
proof fn dates_are_ordered(y1: int, m1: int, d1: int, y2: int, m2: int, d2: int)
    requires
        is_date(y1, m1, d1),
        is_date(y2, m2, d2),
        day_number(y1, m1, d1) <= day_number(y2, m2, d2),
    ensures
        y1 <= y2,
{
    day_in_year(y1, m1, d1);
    day_in_year(y2, m2, d2);
    if y2 < y1 {
        years_are_ordered(y2 + 1, y1);
    }
}

/// A day has one date.
pub proof fn dates_are_unique(y1: int, m1: int, d1: int, y2: int, m2: int, d2: int)
    requires
        is_date(y1, m1, d1),
        is_date(y2, m2, d2),
        day_number(y1, m1, d1) == day_number(y2, m2, d2),
    ensures
        y1 == y2 && m1 == m2 && d1 == d2,
{
    dates_are_ordered(y1, m1, d1, y2, m2, d2);
    dates_are_ordered(y2, m2, d2, y1, m1, d1);
    months_from_march(y1);
}

/// The name of the log file of a date.
pub open spec fn log_name(year: int, month: int, day: int) -> Seq<char> {
    LOG_PREFIX@ + date_text(year, month, day) + LOG_SUFFIX@
}

/// A date from the year zero on, as text.
pub open spec fn date_text(year: int, month: int, day: int) -> Seq<char> {
    text::zero_padded(text::decimal(year as nat), 4) + "-"@ + text::zero_padded(
        text::decimal(month as nat),
        2,
    ) + "-"@ + text::zero_padded(text::decimal(day as nat), 2)
}

/// The day of a time in milliseconds.
pub open spec fn day_of(timestamp_unix_ms: u64) -> int {
    timestamp_unix_ms as int / 86400000
}

/// The name of the log file of a time.
pub fn log_file_name(timestamp_unix_ms: u64) -> (r: String)
    ensures
        exists|year: int, month: int, day: int|
            is_date(year, month, day) && #[trigger] day_number(year, month, day) == day_of(
                timestamp_unix_ms,
            ) && r@ == log_name(year, month, day),
{
    let days: i64 = (timestamp_unix_ms / 1000 / 86400) as i64;
    proof {
        months_from_march(i32::MAX as int);
        months_from_march(i32::MIN as int);
        assert(timestamp_unix_ms as int / 1000 / 86400 == timestamp_unix_ms as int / 86400000);
    }
    let (year, month, day) = civil_from_days(days);
    proof {
        months_from_march(1970);
        dates_are_ordered(1970, 1, 1, year as int, month as int, day as int);
    }
    let date = cat5(
        decimal_padded_text(year as u64, 4).as_str(),
        "-",
        decimal_padded_text(month as u64, 2).as_str(),
        "-",
        decimal_padded_text(day as u64, 2).as_str(),
    );
    let name = text::cat3(LOG_PREFIX, date.as_str(), LOG_SUFFIX);
    assert(name@ == log_name(year as int, month as int, day as int));
    name
}

/// Whether a file is one of the log files.
pub open spec fn managed(path: Seq<char>) -> bool {
    winpath::parts(path).file_name() matches Some(name) && ((scan::starts(name, LOG_PREFIX@)
        && scan::ends(name, LOG_SUFFIX@)) || name == "service.log"@)
}

/// Whether a file is one of the log files.
pub fn is_managed_log_file(path: &str) -> (r: bool)
    ensures
        r == managed(path@),
{
    match file_name(path) {
        Some(name) => (starts_with(name.as_str(), LOG_PREFIX) && ends_with(
            name.as_str(),
            LOG_SUFFIX,
        )) || same(name.as_str(), "service.log"),
        None => false,
    }
}

/// Where log files are kept, and for how many seconds.
#[derive(Debug)]
pub struct FileLogSink {
    pub log_dir: String,
    pub retention_seconds: u64,
}

/// A number of days in seconds, as far as that can be counted.
pub open spec fn seconds_of_days(days: u64) -> u64 {
    if days * 86400 > u64::MAX {
        u64::MAX
    } else {
        (days * 86400) as u64
    }
}

impl FileLogSink {
    /// Log files in a directory that are kept for a number of days.
    pub fn new(log_dir: &str, retention_days: u64) -> (r: FileLogSink)
        ensures
            r.log_dir@ == log_dir@,
            r.retention_seconds == seconds_of_days(retention_days),
    {
        let retention_seconds: u64 = match retention_days.checked_mul(86400) {
            Some(n) => n,
            None => u64::MAX,
        };
        FileLogSink { log_dir: log_dir.to_owned(), retention_seconds }
    }

    /// The time before which a log file is too old, in milliseconds, at a given time.
    pub open spec fn oldest_kept(self, now_unix_ms: u64) -> int {
        if self.retention_seconds * 1000 > now_unix_ms {
            0
        } else {
            now_unix_ms - self.retention_seconds * 1000
        }
    }

    /// Whether a file is removed: it is one of the log files, and was last changed too long ago.
    pub fn is_expired(&self, path: &str, modified_unix_ms: u64, now_unix_ms: u64) -> (r: bool)
        ensures
            r == (managed(path@) && modified_unix_ms < self.oldest_kept(now_unix_ms)),
    {
        if !is_managed_log_file(path) {
            return false;
        }
        let cutoff: u64 = match self.retention_seconds.checked_mul(1000) {
            Some(kept) => if kept > now_unix_ms {
                0
            } else {
                now_unix_ms - kept
            },
            None => 0,
        };
        modified_unix_ms < cutoff
    }

    /// The file that an entry of a given time is written to.
    pub fn file_for(&self, timestamp_unix_ms: u64) -> (r: String)
        ensures
            exists|year: int, month: int, day: int|
                is_date(year, month, day) && #[trigger] day_number(year, month, day) == day_of(
                    timestamp_unix_ms,
                ) && r@ == winpath::joined_path(self.log_dir@, log_name(year, month, day)),
    {
        let name = log_file_name(timestamp_unix_ms);
        join(self.log_dir.as_str(), name.as_str())
    }
}

} // verus!
