//! Elapsed-time and calendar texts, computed from seconds since the epoch
//! without any system calendar.

use vstd::prelude::*;
use vstd::string::StringExecFns;
use crate::text::decimal;
use crate::text::decimal2;
use crate::text::join;
use crate::text::push_decimal;
use crate::text::push_decimal2;

verus! {

/// Seconds in a day.
pub const SECONDS_PER_DAY: u64 = 86400;

/// The hours by which displayed clock times run ahead of the epoch's clock.
pub const CLOCK_BIAS_HOURS: u64 = 1;

// ---------------------------------------------------------------------
// Elapsed time
// ---------------------------------------------------------------------

/// The amount `n` with its unit letter, as in `5m`.
pub open spec fn unit_field(n: nat, unit: char) -> Seq<char> {
    decimal(n).push(unit)
}

/// The fields of an elapsed time of `seconds`, coarsest unit first: days,
/// hours and minutes once a day has passed; else hours, minutes and seconds
/// once an hour has passed; else minutes and seconds once a minute has
/// passed; else seconds alone.
pub open spec fn uptime_fields(seconds: nat) -> Seq<Seq<char>> {
    let days = seconds / 86400;
    let hours = (seconds % 86400) / 3600;
    let minutes = (seconds % 3600) / 60;
    let secs = seconds % 60;
    if days > 0 {
        seq![unit_field(days, 'd'), unit_field(hours, 'h'), unit_field(minutes, 'm')]
    } else if hours > 0 {
        seq![unit_field(hours, 'h'), unit_field(minutes, 'm'), unit_field(secs, 's')]
    } else if minutes > 0 {
        seq![unit_field(minutes, 'm'), unit_field(secs, 's')]
    } else {
        seq![unit_field(secs, 's')]
    }
}

/// The text of an elapsed time: its fields separated by single spaces.
pub open spec fn uptime_text(seconds: nat) -> Seq<char> {
    join(uptime_fields(seconds), seq![' '])
}

fn push_field(out: &mut String, n: u64, unit: &str)
    requires
        unit@.len() == 1,
    ensures
        final(out)@ == old(out)@ + unit_field(n as nat, unit@[0]),
{
    push_decimal(out, n);
    out.append(unit);
    assert(final(out)@ =~= old(out)@ + unit_field(n as nat, unit@[0]));
}

/// The elapsed time `seconds` in words of at most three units, without
/// padding: `59s`, `1m 0s`, `1h 0m 0s`, `1d 0h 0m`.
pub fn format_uptime(seconds: u64) -> (r: String)
    ensures
        r@ == uptime_text(seconds as nat),
{
    let days = seconds / 86400;
    let hours = (seconds % 86400) / 3600;
    let minutes = (seconds % 3600) / 60;
    let secs = seconds % 60;
    proof {
        reveal_strlit("d");
        reveal_strlit("h");
        reveal_strlit("m");
        reveal_strlit("s");
        reveal_strlit(" ");
        reveal_with_fuel(join, 4);
    }
    let mut out = String::new();
    if days > 0 {
        push_field(&mut out, days, "d");
        out.append(" ");
        push_field(&mut out, hours, "h");
        out.append(" ");
        push_field(&mut out, minutes, "m");
    } else if hours > 0 {
        push_field(&mut out, hours, "h");
        out.append(" ");
        push_field(&mut out, minutes, "m");
        out.append(" ");
        push_field(&mut out, secs, "s");
    } else if minutes > 0 {
        push_field(&mut out, minutes, "m");
        out.append(" ");
        push_field(&mut out, secs, "s");
    } else {
        push_field(&mut out, secs, "s");
    }
    proof {
        let fields = uptime_fields(seconds as nat);
        if fields.len() == 3 {
            assert(fields.drop_last() =~= seq![fields[0], fields[1]]);
            assert(fields.drop_last().drop_last() =~= seq![fields[0]]);
        } else if fields.len() == 2 {
            assert(fields.drop_last() =~= seq![fields[0]]);
        }
        assert(out@ =~= uptime_text(seconds as nat));
    }
    out
}

/// An elapsed-time text never loses a field as time goes on: a longer
/// elapsed time is written with at least as many fields as a shorter one.
pub proof fn lemma_uptime_fields_never_shrink(shorter: nat, longer: nat)
    requires
        shorter <= longer,
    ensures
        uptime_fields(shorter).len() <= uptime_fields(longer).len(),
        1 <= uptime_fields(shorter).len() <= 3,
{
}

/// Where the number of fields changes: one field below a minute, two below
/// an hour, three from then on.
pub proof fn lemma_uptime_field_count(seconds: nat)
    ensures
        uptime_fields(seconds).len() == if seconds < 60 {
            1nat
        } else if seconds < 3600 {
            2nat
        } else {
            3nat
        },
{
}

// ---------------------------------------------------------------------
// The calendar
// ---------------------------------------------------------------------

/// A date of the Gregorian calendar.
#[derive(Debug, Clone, Copy, PartialEq, Eq, Structural)]
pub struct CivilDate {
    pub year: u64,
    pub month: u64,
    pub day: u64,
}

/// The Gregorian leap-year rule: every fourth year, but of the century
/// years only every fourth.
pub open spec fn is_leap_year(year: int) -> bool {
    year % 4 == 0 && (year % 100 != 0 || year % 400 == 0)
}

/// Days in `year`.
pub open spec fn year_length(year: int) -> int {
    if is_leap_year(year) {
        366
    } else {
        365
    }
}

/// Days in month `month` (1 to 12) of `year`.
pub open spec fn month_length(year: int, month: int) -> int {
    if month == 2 {
        if is_leap_year(year) {
            29
        } else {
            28
        }
    } else if month == 4 || month == 6 || month == 9 || month == 11 {
        30
    } else {
        31
    }
}

/// The number of leap years among the years 1 to `year - 1`.
pub open spec fn leap_years_before(year: int) -> int {
    (year - 1) / 4 - (year - 1) / 100 + (year - 1) / 400
}

/// Days from 1 January 1970 to 1 January of `year`.
pub open spec fn days_before_year(year: int) -> int {
    365 * (year - 1970) + leap_years_before(year) - leap_years_before(1970)
}

/// Days from 1 January of `year` to the first of `month` in that year.
pub open spec fn days_before_month(year: int, month: int) -> int
    decreases month,
{
    if month <= 1 {
        0
    } else {
        days_before_month(year, month - 1) + month_length(year, month - 1)
    }
}

impl CivilDate {
    /// The date exists in the calendar and is not before 1970.
    pub open spec fn valid(self) -> bool {
        &&& self.year >= 1970
        &&& 1 <= self.month <= 12
        &&& 1 <= self.day <= month_length(self.year as int, self.month as int)
    }

    /// Days from 1 January 1970 to this date.
    pub open spec fn day_number(self) -> int {
        days_before_year(self.year as int) + days_before_month(
            self.year as int,
            self.month as int,
        ) + self.day - 1
    }
}

/// The date that lies `days` days after 1 January 1970.
pub open spec fn date_of_day(days: nat) -> CivilDate {
    choose|d: CivilDate| d.valid() && d.day_number() == days
}

proof fn lemma_year_step(year: int)
    requires
        year >= 1970,
    ensures
        days_before_year(year + 1) == days_before_year(year) + year_length(year),
        days_before_year(1970) == 0,
{
}

proof fn lemma_years_ordered(earlier: int, later: int)
    requires
        1970 <= earlier <= later,
    ensures
        days_before_year(earlier) <= days_before_year(later),
        days_before_year(later) >= days_before_year(earlier) + 365 * (later - earlier),
    decreases later - earlier,
{
    if earlier < later {
        lemma_years_ordered(earlier, later - 1);
        lemma_year_step(later - 1);
    }
}

proof fn lemma_months(year: int)
    ensures
        days_before_month(year, 1) == 0,
        days_before_month(year, 2) == 31,
        days_before_month(year, 3) == 31 + month_length(year, 2),
        days_before_month(year, 4) == 62 + month_length(year, 2),
        days_before_month(year, 5) == 92 + month_length(year, 2),
        days_before_month(year, 6) == 123 + month_length(year, 2),
        days_before_month(year, 7) == 153 + month_length(year, 2),
        days_before_month(year, 8) == 184 + month_length(year, 2),
        days_before_month(year, 9) == 215 + month_length(year, 2),
        days_before_month(year, 10) == 245 + month_length(year, 2),
        days_before_month(year, 11) == 276 + month_length(year, 2),
        days_before_month(year, 12) == 306 + month_length(year, 2),
        days_before_month(year, 13) == year_length(year),
{
    reveal_with_fuel(days_before_month, 14);
}

/// Two dates of the calendar that lie the same number of days after the
/// epoch are the same date.
pub proof fn lemma_day_number_determines_date(a: CivilDate, b: CivilDate)
    requires
        a.valid(),
        b.valid(),
        a.day_number() == b.day_number(),
    ensures
        a == b,
{
    lemma_months(a.year as int);
    lemma_months(b.year as int);
    if a.year < b.year {
        lemma_year_step(a.year as int);
        lemma_years_ordered(a.year + 1, b.year as int);
    } else if b.year < a.year {
        lemma_year_step(b.year as int);
        lemma_years_ordered(b.year + 1, a.year as int);
    }
}

/// The day after `d`.
pub open spec fn next_date(d: CivilDate) -> CivilDate {
    if d.day < month_length(d.year as int, d.month as int) {
        CivilDate { year: d.year, month: d.month, day: (d.day + 1) as u64 }
    } else if d.month < 12 {
        CivilDate { year: d.year, month: (d.month + 1) as u64, day: 1 }
    } else {
        CivilDate { year: (d.year + 1) as u64, month: 1, day: 1 }
    }
}

proof fn lemma_next_date(d: CivilDate)
    requires
        d.valid(),
        d.year < u64::MAX,
    ensures
        next_date(d).valid(),
        next_date(d).day_number() == d.day_number() + 1,
{
    lemma_months(d.year as int);
    lemma_months(d.year + 1);
    lemma_year_step(d.year as int);
}

proof fn lemma_some_date_of_day(days: nat) -> (d: CivilDate)
    requires
        days <= u64::MAX,
    ensures
        d.valid(),
        d.day_number() == days,
        d.year <= 1970 + days / 365,
    decreases days,
{
    if days == 0 {
        let d = CivilDate { year: 1970, month: 1, day: 1 };
        lemma_months(1970);
        d
    } else {
        let p = lemma_some_date_of_day((days - 1) as nat);
        lemma_next_date(p);
        let d = next_date(p);
        if d.year > p.year {
            lemma_years_ordered(1970, d.year as int);
            lemma_months(d.year as int);
        }
        d
    }
}

/// Every day count that fits the machine word is the day number of exactly
/// one date of the calendar, and `date_of_day` is that date.
pub proof fn lemma_date_of_day(days: nat)
    requires
        days <= u64::MAX,
    ensures
        date_of_day(days).valid(),
        date_of_day(days).day_number() == days,
        forall|d: CivilDate| d.valid() && d.day_number() == days ==> d == date_of_day(days),
{
    let w = lemma_some_date_of_day(days);
    assert(w.valid() && w.day_number() == days);
    assert forall|d: CivilDate| d.valid() && d.day_number() == days implies d == date_of_day(
        days,
    ) by {
        lemma_day_number_determines_date(d, date_of_day(days));
    }
}

/// Whether `year` is a leap year.
pub fn is_leap(year: u64) -> (b: bool)
    ensures
        b == is_leap_year(year as int),
{
    year % 4 == 0 && (year % 100 != 0 || year % 400 == 0)
}

/// The number of days in month `month` of `year`.
pub fn days_in_month(year: u64, month: u64) -> (n: u64)
    ensures
        n == month_length(year as int, month as int),
{
    if month == 2 {
        if is_leap(year) {
            29
        } else {
            28
        }
    } else if month == 4 || month == 6 || month == 9 || month == 11 {
        30
    } else {
        31
    }
}

/// The calendar date that lies `days` days after 1 January 1970: whole
/// years are taken off the count while a year fits, then whole months of
/// the year reached, and what remains counts the days of the month.
pub fn civil_from_days(days: u64) -> (date: CivilDate)
    ensures
        date.valid(),
        date.day_number() == days,
        date == date_of_day(days as nat),
{
    let mut year: u64 = 1970;
    let mut remaining: u64 = days;
    proof {
        lemma_year_step(1970);
    }
    loop
        invariant
            year >= 1970,
            remaining <= days,
            days_before_year(year as int) + remaining == days,
            365 * (year - 1970) <= days - remaining,
        ensures
            remaining < year_length(year as int),
        decreases remaining,
    {
        let length: u64 = if is_leap(year) {
            366
        } else {
            365
        };
        if remaining < length {
            break ;
        }
        proof {
            lemma_year_step(year as int);
        }
        remaining -= length;
        year += 1;
    }
    let mut month: u64 = 1;
    proof {
        lemma_months(year as int);
    }
    loop
        invariant
            1 <= month <= 12,
            days_before_year(year as int) + days_before_month(year as int, month as int)
                + remaining == days,
            days_before_month(year as int, month as int) + remaining < year_length(year as int),
        ensures
            remaining < month_length(year as int, month as int),
        decreases 12 - month,
    {
        let length = days_in_month(year, month);
        if remaining < length {
            break ;
        }
        proof {
            lemma_months(year as int);
        }
        remaining -= length;
        month += 1;
    }
    let date = CivilDate { year, month, day: remaining + 1 };
    proof {
        lemma_date_of_day(days as nat);
    }
    date
}


// ---------------------------------------------------------------------
// Timestamps
// ---------------------------------------------------------------------

/// The hour shown for the instant `timestamp`: the hour of the day at the
/// epoch's clock, moved ahead by the bias and wrapped at midnight.
pub open spec fn clock_hour(timestamp: nat) -> nat {
    ((timestamp % 86400) / 3600 + 1) % 24
}

/// The minute shown for the instant `timestamp`.
pub open spec fn clock_minute(timestamp: nat) -> nat {
    ((timestamp % 86400) % 3600) / 60
}

/// A date and a time of day written as `DD.MM.YYYY HH:MM`.
pub open spec fn date_time_text(date: CivilDate, hour: nat, minute: nat) -> Seq<char> {
    decimal2(date.day as nat) + seq!['.'] + decimal2(date.month as nat) + seq!['.'] + decimal(
        date.year as nat,
    ) + seq![' '] + decimal2(hour) + seq![':'] + decimal2(minute)
}

/// The text shown for the instant `timestamp` (seconds since the epoch):
/// the calendar date of the day the instant falls in, and the biased clock
/// time.
pub open spec fn timestamp_text(timestamp: nat) -> Seq<char> {
    date_time_text(date_of_day(timestamp / 86400), clock_hour(timestamp), clock_minute(timestamp))
}

/// The calendar date and time of day of `instant` (seconds since the
/// epoch), with no bias.
pub open spec fn civil_text(instant: nat) -> Seq<char> {
    date_time_text(date_of_day(instant / 86400), (instant % 86400) / 3600, (instant % 3600) / 60)
}

/// The instant `timestamp`, in seconds since the epoch, as
/// `DD.MM.YYYY HH:MM`, one hour ahead of the epoch's clock.
pub fn format_timestamp(timestamp: u64) -> (r: String)
    ensures
        r@ == timestamp_text(timestamp as nat),
{
    let days_since_epoch = timestamp / SECONDS_PER_DAY;
    let time_of_day = timestamp % SECONDS_PER_DAY;
    let hours = (time_of_day / 3600 + CLOCK_BIAS_HOURS) % 24;
    let minutes = (time_of_day % 3600) / 60;
    let date = civil_from_days(days_since_epoch);
    proof {
        reveal_strlit(".");
        reveal_strlit(" ");
        reveal_strlit(":");
    }
    let mut out = String::new();
    push_decimal2(&mut out, date.day);
    out.append(".");
    push_decimal2(&mut out, date.month);
    out.append(".");
    push_decimal(&mut out, date.year);
    out.append(" ");
    push_decimal2(&mut out, hours);
    out.append(":");
    push_decimal2(&mut out, minutes);
    assert(out@ =~= timestamp_text(timestamp as nat));
    out
}

/// Before the last hour of a day, the text shown for an instant is the
/// Gregorian calendar date and the time of day of the instant one hour
/// later. (In the last hour of a day the clock time has wrapped to the first
/// hour while the date shown is still that of the day the instant falls in.)
pub proof fn lemma_timestamp_is_biased_civil_time(timestamp: nat)
    requires
        timestamp % 86400 < 82800,
    ensures
        timestamp_text(timestamp) == civil_text(timestamp + 3600),
{
    let day = timestamp / 86400;
    let rest = timestamp % 86400;
    let later = timestamp + 3600;
    assert(timestamp == 86400 * day + rest);
    assert(later == 86400 * day + (rest + 3600));
    assert(later / 86400 == day && later % 86400 == rest + 3600);
    let hour = rest / 3600;
    let within = rest % 3600;
    assert(rest == 3600 * hour + within);
    assert(hour < 23);
    assert((rest + 3600) / 3600 == hour + 1);
    assert(clock_hour(timestamp) == hour + 1);
    assert(later == 3600 * (24 * day + hour + 1) + within);
    assert(later % 3600 == within);
    assert(clock_minute(timestamp) == within / 60);
}


} // verus!
