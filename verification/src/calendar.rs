//! The proleptic Gregorian calendar: dates, day counts and timestamps.

use vstd::prelude::*;

use crate::numbers::{self, render};

verus! {

// ---------------------------------------------------------------------------
// The calendar
// ---------------------------------------------------------------------------

/// Whether `y` is a leap year.
pub open spec fn is_leap(y: int) -> bool {
    y % 4 == 0 && (y % 100 != 0 || y % 400 == 0)
}

/// The number of days of year `y`.
pub open spec fn days_in_year(y: int) -> int {
    if is_leap(y) {
        366
    } else {
        365
    }
}

/// The number of days of month `m` in year `y`.
pub open spec fn days_in_month(y: int, m: int) -> int {
    if m == 2 {
        if is_leap(y) {
            29
        } else {
            28
        }
    } else if m == 4 || m == 6 || m == 9 || m == 11 {
        30
    } else {
        31
    }
}

/// The number of days from the first day of 1970 to the first day of `y`, negative
/// for the years before 1970.
pub open spec fn days_before_year(y: int) -> int
    decreases
            (if y >= 1970 {
                y - 1970
            } else {
                1970 - y
            }),
{
    if y == 1970 {
        0
    } else if y > 1970 {
        days_before_year(y - 1) + days_in_year(y - 1)
    } else {
        days_before_year(y + 1) - days_in_year(y)
    }
}

/// The number of days of year `y` that come before month `m`.
pub open spec fn days_before_month(y: int, m: int) -> int
    decreases m,
{
    if m <= 1 {
        0
    } else {
        days_before_month(y, m - 1) + days_in_month(y, m - 1)
    }
}

/// Whether the year, month and day name a day of the calendar.
pub open spec fn is_date(y: int, m: int, d: int) -> bool {
    1 <= m <= 12 && 1 <= d <= days_in_month(y, m)
}

/// The number of days from 1970-01-01 to the given date.
pub open spec fn day_number(y: int, m: int, d: int) -> int {
    days_before_year(y) + days_before_month(y, m) + d - 1
}

// ---------------------------------------------------------------------------
// Facts about the calendar
// ---------------------------------------------------------------------------

/// The day count of a year, from the leap years before it.
proof fn lemma_days_before_year(y: int)
    ensures
        days_before_year(y) == 365 * (y - 1970) + ((y - 1) / 4 - (y - 1) / 100 + (y - 1) / 400)
            - 477,
    decreases
            (if y >= 1970 {
                y - 1970
            } else {
                1970 - y
            }),
{
    if y > 1970 {
        lemma_days_before_year(y - 1);
    } else if y < 1970 {
        lemma_days_before_year(y + 1);
    }
}

/// The days of the year before each month.
proof fn lemma_days_before_month(y: int, m: int)
    requires
        1 <= m <= 12,
    ensures
        m >= 3 ==> days_before_month(y, m) == (if is_leap(y) {
            60int
        } else {
            59
        }) + (153 * (m - 3) + 2) / 5,
        m == 1 ==> days_before_month(y, m) == 0,
        m == 2 ==> days_before_month(y, m) == 31,
{
    reveal_with_fuel(days_before_month, 13);
}

/// The first day of a year that begins in March, within an era of 400 years.
spec fn march_start(yoe: int) -> int {
    365 * yoe + yoe / 4 - yoe / 100
}

/// The year of the era to which day `doe` of the era belongs.
spec fn year_of_era(doe: int) -> int {
    (doe - doe / 1460 + doe / 36524 - doe / 146096) / 365
}

proof fn lemma_year_of_era(doe: int)
    requires
        0 <= doe <= 146096,
    ensures
        0 <= year_of_era(doe) <= 399,
        0 <= doe - march_start(year_of_era(doe)) <= 365,
        doe - march_start(year_of_era(doe)) == 365 ==> is_leap(year_of_era(doe) + 1),
{
    let b = doe / 36524;
    assert(0 <= b <= 4);
    if b == 4 {
    } else if b == 3 {
    } else if b == 2 {
    } else if b == 1 {
    } else {
    }
}

/// The month and day of day `doy` of a year that begins in March.
proof fn lemma_month_of_march_year(doy: int)
    requires
        0 <= doy <= 365,
    ensures
        ({
            let mp = (5 * doy + 2) / 153;
            let d = doy - (153 * mp + 2) / 5 + 1;
            let m = if mp < 10 {
                mp + 3
            } else {
                mp - 9
            };
            &&& 0 <= mp <= 11
            &&& 1 <= m <= 12
            &&& 1 <= d <= 31
            &&& m == 4 || m == 6 || m == 9 || m == 11 ==> d <= 30
            &&& m == 2 ==> d <= 29
            &&& m == 2 && d == 29 ==> doy == 365
        }),
{
    let mp = (5 * doy + 2) / 153;
    assert(0 <= mp <= 11);
    if mp == 0 {
    } else if mp == 1 {
    } else if mp == 2 {
    } else if mp == 3 {
    } else if mp == 4 {
    } else if mp == 5 {
    } else if mp == 6 {
    } else if mp == 7 {
    } else if mp == 8 {
    } else if mp == 9 {
    } else if mp == 10 {
    } else {
    }
}

/// A date lies within its year.
proof fn lemma_day_in_year(y: int, m: int, d: int)
    requires
        is_date(y, m, d),
    ensures
        0 <= days_before_month(y, m) + d - 1 < days_in_year(y),
{
    reveal_with_fuel(days_before_month, 13);
}

proof fn lemma_days_before_year_monotonic(y: int, z: int)
    requires
        y < z,
    ensures
        days_before_year(y) + days_in_year(y) <= days_before_year(z),
{
    lemma_days_before_year(y);
    lemma_days_before_year(z);
}

proof fn lemma_days_before_month_monotonic(y: int, m: int, n: int)
    requires
        1 <= m < n <= 12,
    ensures
        days_before_month(y, m) + days_in_month(y, m) <= days_before_month(y, n),
{
    reveal_with_fuel(days_before_month, 13);
}

/// A later date has a greater day number, so that a day number names one date.
pub proof fn law_day_number_orders_dates(
    y1: int,
    m1: int,
    d1: int,
    y2: int,
    m2: int,
    d2: int,
)
    requires
        is_date(y1, m1, d1),
        is_date(y2, m2, d2),
    ensures
        day_number(y1, m1, d1) < day_number(y2, m2, d2) <==> (y1 < y2 || (y1 == y2 && (m1 < m2 || (
        m1 == m2 && d1 < d2)))),
        day_number(y1, m1, d1) == day_number(y2, m2, d2) <==> (y1 == y2 && m1 == m2 && d1 == d2),
{
    lemma_day_in_year(y1, m1, d1);
    lemma_day_in_year(y2, m2, d2);
    if y1 < y2 {
        lemma_days_before_year_monotonic(y1, y2);
    } else if y2 < y1 {
        lemma_days_before_year_monotonic(y2, y1);
    } else if m1 < m2 {
        lemma_days_before_month_monotonic(y1, m1, m2);
    } else if m2 < m1 {
        lemma_days_before_month_monotonic(y1, m2, m1);
    }
}

// ---------------------------------------------------------------------------
// From day counts to dates
// ---------------------------------------------------------------------------

/// The date that lies `days` days after 1970-01-01, or before it when negative.
pub open spec fn date_of(days: int) -> (int, int, int) {
    choose|t: (int, int, int)|
        is_date(t.0, t.1, t.2) && #[trigger] day_number(t.0, t.1, t.2) == days
}

proof fn lemma_date_of(days: int, y: int, m: int, d: int)
    requires
        is_date(y, m, d),
        day_number(y, m, d) == days,
    ensures
        date_of(days) == (y, m, d),
{
    let t = (y, m, d);
    assert(is_date(t.0, t.1, t.2) && day_number(t.0, t.1, t.2) == days);
    let u = date_of(days);
    law_day_number_orders_dates(u.0, u.1, u.2, y, m, d);
}

/// The calendar repeats every 400 years.
proof fn lemma_era_shift(era: int, k: int)
    ensures
        is_leap(era * 400 + k) == is_leap(k),
        days_before_year(era * 400 + k) == era * 146097 + days_before_year(k),
{
    lemma_days_before_year(era * 400 + k);
    lemma_days_before_year(k);
    assert((era * 400 + k - 1) / 4 == era * 100 + (k - 1) / 4) by (nonlinear_arith);
    assert((era * 400 + k - 1) / 100 == era * 4 + (k - 1) / 100) by (nonlinear_arith);
    assert((era * 400 + k - 1) / 400 == era + (k - 1) / 400) by (nonlinear_arith);
    assert((era * 400 + k) % 4 == k % 4) by (nonlinear_arith);
    assert((era * 400 + k) % 100 == k % 100) by (nonlinear_arith);
    assert((era * 400 + k) % 400 == k % 400) by (nonlinear_arith);
}

/// January of the calendar year that follows the March of year `yoe` of the first era.
proof fn lemma_january(yoe: int)
    requires
        0 <= yoe <= 399,
    ensures
        days_before_year(yoe + 1) == march_start(yoe) + 306 - 719468,
{
    lemma_days_before_year(yoe + 1);
}

/// March of year `yoe` of the first era.
proof fn lemma_march(yoe: int)
    requires
        0 <= yoe <= 399,
    ensures
        days_before_year(yoe) + (if is_leap(yoe) {
            60int
        } else {
            59
        }) == march_start(yoe) - 719468,
{
    lemma_days_before_year(yoe);
}

/// The date assembled from an era of 400 years, a year of the era that begins in March
/// and a day of that year.
proof fn lemma_assembled_date(era: int, yoe: int, doy: int, y: int, m: int, d: int)
    requires
        0 <= yoe <= 399,
        0 <= doy <= 365,
        doy == 365 ==> is_leap(yoe + 1),
        ({
            let mp = (5 * doy + 2) / 153;
            &&& d == doy - (153 * mp + 2) / 5 + 1
            &&& m == if mp < 10 {
                mp + 3
            } else {
                mp - 9
            }
        }),
        y == yoe + era * 400 + (if m <= 2 {
            1int
        } else {
            0
        }),
    ensures
        is_date(y, m, d),
        day_number(y, m, d) == era * 146097 + march_start(yoe) + doy - 719468,
{
    lemma_month_of_march_year(doy);
    lemma_days_before_month(y, m);
    let k = if m <= 2 {
        yoe + 1
    } else {
        yoe
    };
    lemma_era_shift(era, k);
    lemma_days_before_year(k);
    let mp = (5 * doy + 2) / 153;
    if m == 1 {
        assert(mp == 10);
        lemma_january(yoe);
    } else if m == 2 {
        assert(mp == 11);
        lemma_january(yoe);
    } else {
        assert(mp == m - 3);
        lemma_march(yoe);
    }
}

/// The year, month and day that lie `days` days after 1970-01-01, or before it when
/// `days` is negative.
pub fn civil_from_days(days: i64) -> (date: (i64, u32, u32))
    requires
        days + 719468 <= i64::MAX,
    ensures
        is_date(date.0 as int, date.1 as int, date.2 as int),
        day_number(date.0 as int, date.1 as int, date.2 as int) == days,
        date_of(days as int) == (date.0 as int, date.1 as int, date.2 as int),
{
    let z: i64 = days + 719468;
    let era: i64 = (if z >= 0 {
        z
    } else {
        z - 146096
    }) / 146097;
    assert(0 <= z - era * 146097 <= 146096);
    let doe: u64 = (z - era * 146097) as u64;
    proof {
        lemma_year_of_era(doe as int);
    }
    let yoe: u64 = (doe - doe / 1460 + doe / 36524 - doe / 146096) / 365;
    let y: i64 = yoe as i64 + era * 400;
    let doy: u64 = doe - (365 * yoe + yoe / 4 - yoe / 100);
    proof {
        lemma_month_of_march_year(doy as int);
    }
    let mp: u64 = (5 * doy + 2) / 153;
    let d: u64 = doy - (153 * mp + 2) / 5 + 1;
    let m: u64 = if mp < 10 {
        mp + 3
    } else {
        mp - 9
    };
    let y2: i64 = if m <= 2 {
        y + 1
    } else {
        y
    };
    proof {
        lemma_assembled_date(
            era as int,
            yoe as int,
            doy as int,
            y2 as int,
            m as int,
            d as int,
        );
        lemma_date_of(days as int, y2 as int, m as int, d as int);
    }
    (y2, m as u32, d as u32)
}

// ---------------------------------------------------------------------------
// Timestamps
// ---------------------------------------------------------------------------

/// `n` in decimal, with zeros before it up to `width` characters.
pub open spec fn field(n: int, width: nat) -> Seq<char> {
    numbers::zero_padded(numbers::decimal(n as nat), width)
}

/// The timestamp `YYYYMMDD_HHMMSS` of the moment `secs` seconds after the start of
/// 1970, in UTC.
pub open spec fn timestamp_of(secs: nat) -> Seq<char> {
    let date = date_of((secs / 86400) as int);
    let time = (secs % 86400) as int;
    field(date.0, 4) + field(date.1, 2) + field(date.2, 2) + seq!['_'] + field(time / 3600, 2)
        + field(time % 3600 / 60, 2) + field(time % 60, 2)
}

/// Whether `t` is the timestamp of some moment since the start of 1970.
pub open spec fn is_timestamp(t: Seq<char>) -> bool {
    exists|secs: nat| t == #[trigger] timestamp_of(secs)
}

/// A day from 1970 on lies in a year from 1970 on.
proof fn lemma_year_from_epoch(y: int, m: int, d: int)
    requires
        is_date(y, m, d),
        day_number(y, m, d) >= 0,
    ensures
        y >= 1970,
{
    lemma_day_in_year(y, m, d);
    if y < 1970 {
        lemma_days_before_year_monotonic(y, 1970);
    }
}

/// The timestamp `YYYYMMDD_HHMMSS` of the moment `now` seconds after the start of 1970.
pub fn format_timestamp(now: u64) -> (s: String)
    ensures
        s@ == timestamp_of(now as nat),
{
    let total_days: u64 = now / 86400;
    let time_of_day: u64 = now % 86400;
    let hour: u64 = time_of_day / 3600;
    let minute: u64 = (time_of_day % 3600) / 60;
    let second: u64 = time_of_day % 60;
    let (year, month, day) = civil_from_days(total_days as i64);
    proof {
        lemma_year_from_epoch(year as int, month as int, day as int);
    }
    let mut s = render(year as u64, 10, 4);
    s.append(render(month as u64, 10, 2).as_str());
    s.append(render(day as u64, 10, 2).as_str());
    s.push('_');
    s.append(render(hour, 10, 2).as_str());
    s.append(render(minute, 10, 2).as_str());
    s.append(render(second, 10, 2).as_str());
    assert(s@ =~= timestamp_of(now as nat));
    s
}

/// The number of whole seconds since the start of 1970, read from the system clock with
/// `std::time::SystemTime::now`, or zero when the clock is set to an earlier moment.
/// Nothing is claimed of the reading.
#[verifier::external_body]
fn epoch_seconds() -> (secs: u64) {
    std::time::SystemTime::now()
        .duration_since(std::time::SystemTime::UNIX_EPOCH)
        .unwrap_or_default()
        .as_secs()
}

/// The timestamp `YYYYMMDD_HHMMSS` of the present moment, in UTC.
pub fn chrono_timestamp() -> (s: String)
    ensures
        is_timestamp(s@),
{
    let now: u64 = epoch_seconds();
    format_timestamp(now)
}

// ---------------------------------------------------------------------------
// Laws of timestamps
// ---------------------------------------------------------------------------

/// Every day count has a date.
proof fn lemma_date_exists(days: int)
    ensures
        is_date(date_of(days).0, date_of(days).1, date_of(days).2),
        day_number(date_of(days).0, date_of(days).1, date_of(days).2) == days,
{
    let z = days + 719468;
    let era = z / 146097;
    let doe = z - era * 146097;
    lemma_year_of_era(doe);
    let yoe = year_of_era(doe);
    let doy = doe - march_start(yoe);
    let mp = (5 * doy + 2) / 153;
    let d = doy - (153 * mp + 2) / 5 + 1;
    let m = if mp < 10 {
        mp + 3
    } else {
        mp - 9
    };
    let y = yoe + era * 400 + (if m <= 2 {
        1int
    } else {
        0
    });
    lemma_assembled_date(era, yoe, doy, y, m, d);
    let t = (y, m, d);
    assert(is_date(t.0, t.1, t.2) && day_number(t.0, t.1, t.2) == days);
}

/// The parts of a timestamp and their widths.
proof fn lemma_timestamp_fields(secs: nat)
    ensures
        ({
            let date = date_of((secs / 86400) as int);
            let time = (secs % 86400) as int;
            &&& is_date(date.0, date.1, date.2)
            &&& day_number(date.0, date.1, date.2) == secs / 86400
            &&& date.0 >= 1970
            &&& field(date.0, 4).len() >= 4
            &&& date.0 <= 9999 ==> field(date.0, 4).len() == 4
            &&& field(date.1, 2).len() == 2
            &&& field(date.2, 2).len() == 2
            &&& field(time / 3600, 2).len() == 2
            &&& field(time % 3600 / 60, 2).len() == 2
            &&& field(time % 60, 2).len() == 2
        }),
{
    let date = date_of((secs / 86400) as int);
    let time = (secs % 86400) as int;
    lemma_date_exists((secs / 86400) as int);
    lemma_year_from_epoch(date.0, date.1, date.2);
    numbers::lemma_decimal_len(date.0 as nat);
    numbers::lemma_decimal_len(date.1 as nat);
    numbers::lemma_decimal_len(date.2 as nat);
    numbers::lemma_decimal_len((time / 3600) as nat);
    numbers::lemma_decimal_len((time % 3600 / 60) as nat);
    numbers::lemma_decimal_len((time % 60) as nat);
}

/// Up to the end of the year 9999 a timestamp has fifteen characters, the ninth of
/// which is an underscore.
pub proof fn law_timestamp_format(secs: nat)
    requires
        secs < 253402300800,
    ensures
        timestamp_of(secs).len() == 15,
        timestamp_of(secs)[8] == '_',
{
    let date = date_of((secs / 86400) as int);
    lemma_timestamp_fields(secs);
    lemma_day_in_year(date.0, date.1, date.2);
    if date.0 > 9999 {
        lemma_days_before_year(date.0);
        lemma_days_before_year(10000);
        if date.0 > 10000 {
            lemma_days_before_year_monotonic(10000, date.0);
        }
    }
}

/// A timestamp consists of decimal digits and underscores.
pub proof fn law_timestamp_characters(secs: nat)
    ensures
        forall|i: int|
            0 <= i < timestamp_of(secs).len() ==> numbers::is_decimal_digit(
                #[trigger] timestamp_of(secs)[i],
            ) || timestamp_of(secs)[i] == '_',
{
    let date = date_of((secs / 86400) as int);
    let time = (secs % 86400) as int;
    numbers::lemma_decimal_digits(date.0 as nat, 4);
    numbers::lemma_decimal_digits(date.1 as nat, 2);
    numbers::lemma_decimal_digits(date.2 as nat, 2);
    numbers::lemma_decimal_digits((time / 3600) as nat, 2);
    numbers::lemma_decimal_digits((time % 3600 / 60) as nat, 2);
    numbers::lemma_decimal_digits((time % 60) as nat, 2);
}

/// Two texts that agree and begin with parts of the same length agree in these parts
/// and in what follows them.
proof fn lemma_split(a: Seq<char>, b: Seq<char>, x: Seq<char>, y: Seq<char>)
    requires
        a + b == x + y,
        b.len() == y.len(),
    ensures
        a == x,
        b == y,
{
    assert((a + b).len() == (x + y).len());
    assert(a =~= (a + b).take(a.len() as int));
    assert(x =~= (x + y).take(x.len() as int));
    assert(b =~= (a + b).skip(a.len() as int));
    assert(y =~= (x + y).skip(x.len() as int));
}

proof fn lemma_field_injective(a: int, b: int, width: nat)
    requires
        0 <= a,
        0 <= b,
        field(a, width) == field(b, width),
    ensures
        a == b,
{
    numbers::lemma_digits_value(a as nat, 10, width);
    numbers::lemma_digits_value(b as nat, 10, width);
}

/// Different moments have different timestamps.
pub proof fn law_timestamps_are_unique(a: nat, b: nat)
    requires
        timestamp_of(a) == timestamp_of(b),
    ensures
        a == b,
{
    lemma_timestamp_fields(a);
    lemma_timestamp_fields(b);
    let da = date_of((a / 86400) as int);
    let db = date_of((b / 86400) as int);
    let ta = (a % 86400) as int;
    let tb = (b % 86400) as int;
    let a1 = field(da.0, 4);
    let b1 = field(db.0, 4);
    let a2 = a1 + field(da.1, 2);
    let b2 = b1 + field(db.1, 2);
    let a3 = a2 + field(da.2, 2);
    let b3 = b2 + field(db.2, 2);
    let a4 = a3 + seq!['_'];
    let b4 = b3 + seq!['_'];
    let a5 = a4 + field(ta / 3600, 2);
    let b5 = b4 + field(tb / 3600, 2);
    let a6 = a5 + field(ta % 3600 / 60, 2);
    let b6 = b5 + field(tb % 3600 / 60, 2);
    lemma_split(a6, field(ta % 60, 2), b6, field(tb % 60, 2));
    lemma_split(a5, field(ta % 3600 / 60, 2), b5, field(tb % 3600 / 60, 2));
    lemma_split(a4, field(ta / 3600, 2), b4, field(tb / 3600, 2));
    lemma_split(a3, seq!['_'], b3, seq!['_']);
    lemma_split(a2, field(da.2, 2), b2, field(db.2, 2));
    lemma_split(a1, field(da.1, 2), b1, field(db.1, 2));
    lemma_field_injective(da.0, db.0, 4);
    lemma_field_injective(da.1, db.1, 2);
    lemma_field_injective(da.2, db.2, 2);
    lemma_field_injective(ta / 3600, tb / 3600, 2);
    lemma_field_injective(ta % 3600 / 60, tb % 3600 / 60, 2);
    lemma_field_injective(ta % 60, tb % 60, 2);
}

/// A timestamp up to the end of the year 9999 reads back: its first four digits are the year, the
/// next two the month, then the day, and behind the underscore the hour, the minute and the
/// second, of which the moment is made.
pub proof fn law_timestamp_reads_back(secs: nat)
    requires
        secs < 253402300800,
    ensures
        ({
            let t = timestamp_of(secs);
            let year = numbers::value_of(t.subrange(0, 4), 10) as int;
            let month = numbers::value_of(t.subrange(4, 6), 10) as int;
            let day = numbers::value_of(t.subrange(6, 8), 10) as int;
            let hour = numbers::value_of(t.subrange(9, 11), 10) as int;
            let minute = numbers::value_of(t.subrange(11, 13), 10) as int;
            let second = numbers::value_of(t.subrange(13, 15), 10) as int;
            &&& is_date(year, month, day)
            &&& hour < 24 && minute < 60 && second < 60
            &&& secs == day_number(year, month, day) * 86400 + hour * 3600 + minute * 60 + second
        }),
{
    law_timestamp_format(secs);
    lemma_timestamp_fields(secs);
    let t = timestamp_of(secs);
    let date = date_of((secs / 86400) as int);
    let time = (secs % 86400) as int;
    lemma_year_fits(secs);
    assert(t.subrange(0, 4) =~= field(date.0, 4));
    assert(t.subrange(4, 6) =~= field(date.1, 2));
    assert(t.subrange(6, 8) =~= field(date.2, 2));
    assert(t.subrange(9, 11) =~= field(time / 3600, 2));
    assert(t.subrange(11, 13) =~= field(time % 3600 / 60, 2));
    assert(t.subrange(13, 15) =~= field(time % 60, 2));
    numbers::lemma_digits_value(date.0 as nat, 10, 4);
    numbers::lemma_digits_value(date.1 as nat, 10, 2);
    numbers::lemma_digits_value(date.2 as nat, 10, 2);
    numbers::lemma_digits_value((time / 3600) as nat, 10, 2);
    numbers::lemma_digits_value((time % 3600 / 60) as nat, 10, 2);
    numbers::lemma_digits_value((time % 60) as nat, 10, 2);
}

proof fn lemma_year_fits(secs: nat)
    requires
        secs < 253402300800,
    ensures
        date_of((secs / 86400) as int).0 <= 9999,
{
    let date = date_of((secs / 86400) as int);
    lemma_timestamp_fields(secs);
    lemma_day_in_year(date.0, date.1, date.2);
    if date.0 > 9999 {
        lemma_days_before_year(date.0);
        lemma_days_before_year(10000);
        if date.0 > 10000 {
            lemma_days_before_year_monotonic(10000, date.0);
        }
    }
}

/// Years have 365 days, and 366 in every fourth year but for the centuries that are no multiple
/// of four hundred; months have 31 days but for April, June, September, November and February.
/// The calendar begins with the first day of 1970, and days follow each other without a gap.
pub proof fn law_calendar(y: int, m: int, d: int)
    requires
        is_date(y, m, d),
    ensures
        day_number(1970, 1, 1) == 0,
        y % 4 != 0 ==> days_in_year(y) == 365,
        y % 4 == 0 && y % 100 != 0 ==> days_in_year(y) == 366,
        y % 100 == 0 && y % 400 != 0 ==> days_in_year(y) == 365,
        y % 400 == 0 ==> days_in_year(y) == 366,
        d < 28 || (d == 28 && (m != 2 || days_in_year(y) == 366)) ==> is_date(y, m, d + 1)
            && day_number(y, m, d + 1) == day_number(y, m, d) + 1,
        m == 2 ==> d <= 29 && (days_in_year(y) == 365 ==> d <= 28),
        m == 4 || m == 6 || m == 9 || m == 11 ==> d <= 30,
        d <= 31,
        m < 12 && !is_date(y, m, d + 1) ==> day_number(y, m + 1, 1) == day_number(y, m, d) + 1,
        m == 12 && d == 31 ==> day_number(y + 1, 1, 1) == day_number(y, m, d) + 1,
{
    reveal_with_fuel(days_before_month, 13);
    lemma_days_before_year(y);
    lemma_days_before_year(y + 1);
}

} // verus!
