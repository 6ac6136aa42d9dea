use vstd::prelude::*;

use chrono::{NaiveDate, NaiveDateTime};

use crate::text::{i32_to_string, u32_to_string, int_decimal};

verus! {

#[verifier::external_type_specification]
#[verifier::external_body]
pub struct ExNaiveDate(NaiveDate);

#[verifier::external_type_specification]
#[verifier::external_body]
pub struct ExNaiveDateTime(NaiveDateTime);

/// The first year that chrono's `NaiveDate` represents.
pub open spec fn min_date_year() -> int {
    -262143
}

/// The last year that chrono's `NaiveDate` represents.
pub open spec fn max_date_year() -> int {
    262142
}

/// Whether `year` is a leap year of the proleptic Gregorian calendar.
pub open spec fn is_leap_year(year: int) -> bool {
    year % 4 == 0 && (year % 100 != 0 || year % 400 == 0)
}

/// The number of days of `month` (1 to 12) in `year`.
pub open spec fn days_in_month(year: int, month: int) -> int {
    if month == 2 {
        if is_leap_year(year) {
            29
        } else {
            28
        }
    } else if month == 4 || month == 6 || month == 9 || month == 11 {
        30
    } else {
        31
    }
}

/// Whether the calendar day exists and its year is in chrono's range.
pub open spec fn is_valid_date(year: int, month: int, day: int) -> bool {
    &&& min_date_year() <= year <= max_date_year()
    &&& 1 <= month <= 12
    &&& 1 <= day <= days_in_month(year, month)
}

/// Whether the time of day exists; a nanosecond part of one second or more
/// stands for a leap second and needs the 59th second.
pub open spec fn is_valid_time(hour: int, min: int, sec: int, nano: int) -> bool {
    &&& 0 <= hour < 24
    &&& 0 <= min < 60
    &&& 0 <= sec < 60
    &&& 0 <= nano < 2_000_000_000
    &&& (nano >= 1_000_000_000 ==> sec == 59)
}

/// The number of days from 1970-01-01 to the given date of the proleptic
/// Gregorian calendar (negative before it).
pub open spec fn days_from_epoch(year: int, month: int, day: int) -> int {
    let y = if month <= 2 {
        year - 1
    } else {
        year
    };
    let era = y / 400;
    let yoe = y - era * 400;
    let mp = if month > 2 {
        month - 3
    } else {
        month + 9
    };
    let doy = (153 * mp + 2) / 5 + day - 1;
    let doe = yoe * 365 + yoe / 4 - yoe / 100 + doy;
    era * 146097 + doe - 719468
}

/// The days counted up to the first of March of `year` from that of the year
/// before: 366 where the February between them has 29 days, else 365.
proof fn lemma_march_years(year: int)
    ensures
        days_from_epoch(year, 3, 1) - days_from_epoch(year - 1, 3, 1) == (if is_leap_year(year) {
            366int
        } else {
            365int
        }),
{
    let y0 = year - 1;
    let q = y0 / 400;
    let r = y0 % 400;
    assert(y0 == 400 * q + r && 0 <= r < 400) by (nonlinear_arith)
        requires
            q == y0 / 400,
            r == y0 % 400,
    ;
    if r < 399 {
        assert(year / 400 == q && year - (year / 400) * 400 == r + 1) by (nonlinear_arith)
            requires
                year == 400 * q + r + 1,
                0 <= r + 1 < 400,
        ;
        assert(year % 4 == (r + 1) % 4 && year % 100 == (r + 1) % 100 && year % 400 == r + 1)
            by (nonlinear_arith)
            requires
                year == 400 * q + r + 1,
                0 <= r + 1 < 400,
        ;
    } else {
        assert(year / 400 == q + 1 && year - (year / 400) * 400 == 0) by (nonlinear_arith)
            requires
                year == 400 * (q + 1),
        ;
        assert(year % 400 == 0 && year % 4 == 0) by (nonlinear_arith)
            requires
                year == 400 * (q + 1),
        ;
    }
}

/// The calendar counts days one by one from 1970-01-01, which counts zero:
/// each existing day counts one more than the day before it, within a month,
/// across the end of a month and across the end of a year.
pub proof fn lemma_days_count_from_epoch(year: int, month: int, day: int)
    requires
        is_valid_date(year, month, day),
    ensures
        days_from_epoch(1970, 1, 1) == 0,
        day < days_in_month(year, month) ==> days_from_epoch(year, month, day + 1)
            == days_from_epoch(year, month, day) + 1,
        (day == days_in_month(year, month) && month < 12) ==> days_from_epoch(year, month + 1, 1)
            == days_from_epoch(year, month, day) + 1,
        (day == days_in_month(year, month) && month == 12) ==> days_from_epoch(year + 1, 1, 1)
            == days_from_epoch(year, month, day) + 1,
{
    if month == 2 && day == days_in_month(year, month) {
        lemma_march_years(year);
    }
}

/// The non-leap nanoseconds from 1970-01-01 00:00:00 to the given point in
/// time; the nanosecond part of a leap second counts in full.
pub open spec fn epoch_nanos(
    year: int,
    month: int,
    day: int,
    hour: int,
    min: int,
    sec: int,
    nano: int,
) -> int {
    (days_from_epoch(year, month, day) * 86400 + hour * 3600 + min * 60 + sec) * 1_000_000_000
        + nano
}

/// A date made by chrono, with the calendar day it was made from.
pub struct CalendarDate {
    value: NaiveDate,
    year: i32,
    month: u32,
    day: u32,
}

/// A date and time made by chrono, with the values it was made from.
pub struct CalendarDateTime {
    value: NaiveDateTime,
    year: i32,
    month: u32,
    day: u32,
    hour: u32,
    min: u32,
    sec: u32,
    nano: u32,
}

/// chrono's `NaiveDate::from_ymd_opt`: the date of the calendar day, `None`
/// where the day does not exist or the year is out of chrono's range.
#[verifier::external_body]
fn date_from_ymd(year: i32, month: u32, day: u32) -> (r: Option<CalendarDate>)
    ensures
        r is Some <==> is_valid_date(year as int, month as int, day as int),
        r matches Some(d) ==> d.year == year && d.month == month && d.day == day,
{
    match NaiveDate::from_ymd_opt(year, month, day) {
        Some(value) => Some(CalendarDate { value, year, month, day }),
        None => None,
    }
}

/// chrono's `NaiveDate::and_hms_nano_opt`: the date at the time of day,
/// `None` where the time does not exist.
#[verifier::external_body]
fn date_and_hms_nano(date: &CalendarDate, hour: u32, min: u32, sec: u32, nano: u32) -> (r:
    Option<CalendarDateTime>)
    ensures
        r is Some <==> is_valid_time(hour as int, min as int, sec as int, nano as int),
        r matches Some(t) ==> {
            &&& t.year == date.year && t.month == date.month && t.day == date.day
            &&& t.hour == hour && t.min == min && t.sec == sec && t.nano == nano
        },
{
    match date.value.and_hms_nano_opt(hour, min, sec, nano) {
        Some(value) => Some(
            CalendarDateTime {
                value,
                year: date.year,
                month: date.month,
                day: date.day,
                hour,
                min,
                sec,
                nano,
            },
        ),
        None => None,
    }
}

impl CalendarDateTime {
    /// The nanoseconds since the epoch of the point in time.
    pub closed spec fn nanos(self) -> int {
        epoch_nanos(
            self.year as int,
            self.month as int,
            self.day as int,
            self.hour as int,
            self.min as int,
            self.sec as int,
            self.nano as int,
        )
    }
}

/// chrono's `NaiveDateTime::timestamp_nanos`: the non-leap nanoseconds since
/// 1970-01-01 00:00:00 (it panics where they do not fit in an `i64`).
#[verifier::external_body]
#[allow(deprecated)]
fn date_time_timestamp_nanos(date_time: &CalendarDateTime) -> (r: i64)
    requires
        i64::MIN <= date_time.nanos() <= i64::MAX,
    ensures
        r == date_time.nanos(),
{
    date_time.value.timestamp_nanos()
}

/// Whether the date and the time of day both exist.
pub open spec fn is_valid_date_time(
    year: i32,
    month: u32,
    day: u32,
    hour: u32,
    min: u32,
    sec: u32,
    nano: u32,
) -> bool {
    is_valid_date(year as int, month as int, day as int) && is_valid_time(
        hour as int,
        min as int,
        sec as int,
        nano as int,
    )
}

/// The message for a date and time that does not exist.
pub open spec fn invalid_date_message(
    year: i32,
    month: u32,
    day: u32,
    hour: u32,
    min: u32,
    sec: u32,
    nano: u32,
) -> Seq<char> {
    "Invalid Date "@ + int_decimal(year as int) + "-"@ + int_decimal(month as int) + "-"@
        + int_decimal(day as int) + "-"@ + int_decimal(hour as int) + ":"@ + int_decimal(
        min as int,
    ) + ":"@ + int_decimal(sec as int) + "."@ + int_decimal(nano as int)
}

/// The message for a date and time that does not exist writes
/// `Invalid Date year-month-day-hour:min:sec.nano`, each part in decimal.
pub proof fn lemma_invalid_date_message(
    year: i32,
    month: u32,
    day: u32,
    hour: u32,
    min: u32,
    sec: u32,
    nano: u32,
)
    ensures
        invalid_date_message(year, month, day, hour, min, sec, nano) == seq!['I', 'n', 'v', 'a', 'l', 'i', 'd', ' ', 'D', 'a', 't', 'e', ' '] + int_decimal(year as int) + seq!['-'] + int_decimal(month as int) + seq!['-']
            + int_decimal(day as int) + seq!['-'] + int_decimal(hour as int) + seq![':']
            + int_decimal(min as int) + seq![':'] + int_decimal(sec as int) + seq!['.']
            + int_decimal(nano as int),
{
    reveal_strlit("Invalid Date ");
    reveal_strlit("-");
    reveal_strlit(":");
    reveal_strlit(".");
    assert(invalid_date_message(year, month, day, hour, min, sec, nano) =~= seq!['I', 'n', 'v', 'a', 'l', 'i', 'd', ' ', 'D', 'a', 't', 'e', ' '] + int_decimal(year as int) + seq!['-'] + int_decimal(month as int) + seq!['-']
            + int_decimal(day as int) + seq!['-'] + int_decimal(hour as int) + seq![':']
            + int_decimal(min as int) + seq![':'] + int_decimal(sec as int) + seq!['.']
            + int_decimal(nano as int));
}

/// calculates the nanoseconds since 1970-01-01-00:00:00 for the given
/// point in time
pub fn calculate_date_time(
    year: i32,
    month: u32,
    day: u32,
    hour: u32,
    min: u32,
    sec: u32,
    nano: u32,
) -> (r: Result<i64, String>)
    requires
        is_valid_date_time(year, month, day, hour, min, sec, nano) ==> i64::MIN <= epoch_nanos(
            year as int,
            month as int,
            day as int,
            hour as int,
            min as int,
            sec as int,
            nano as int,
        ) <= i64::MAX,
    ensures
        match r {
            Ok(n) => is_valid_date_time(year, month, day, hour, min, sec, nano) && n
                == epoch_nanos(
                year as int,
                month as int,
                day as int,
                hour as int,
                min as int,
                sec as int,
                nano as int,
            ),
            Err(e) => !is_valid_date_time(year, month, day, hour, min, sec, nano) && e@
                == invalid_date_message(year, month, day, hour, min, sec, nano),
        },
{
    if let Some(date) = date_from_ymd(year, month, day) {
        if let Some(date_time) = date_and_hms_nano(&date, hour, min, sec, nano) {
            return Ok(date_time_timestamp_nanos(&date_time));
        }
    }
    proof {
        reveal_strlit("Invalid Date ");
        reveal_strlit("-");
        reveal_strlit(":");
        reveal_strlit(".");
    }
    Err(
        String::from_str("Invalid Date ").concat(i32_to_string(year).as_str()).concat("-").concat(
            u32_to_string(month).as_str(),
        ).concat("-").concat(u32_to_string(day).as_str()).concat("-").concat(
            u32_to_string(hour).as_str(),
        ).concat(":").concat(u32_to_string(min).as_str()).concat(":").concat(
            u32_to_string(sec).as_str(),
        ).concat(".").concat(u32_to_string(nano).as_str()),
    )
}

} // verus!
