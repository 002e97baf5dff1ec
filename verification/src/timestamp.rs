//! Timestamps of session entries: ISO-8601 text to Unix milliseconds.

use crate::number;
use vstd::prelude::*;
use vstd::string::StringSliceAdditionalSpecFns;

verus! {

/// The day number of a civil date, 1970-01-01 being day 0. The year is counted from March, so that
/// the leap day is its last, and `(153 * m + 2) / 5` days lie before the month `m` of that year.
pub open spec fn days_from_civil(year: int, month: int, day: int) -> int {
    let y = if month <= 2 {
        year - 1
    } else {
        year
    };
    let m = if month > 2 {
        month - 3
    } else {
        month + 9
    };
    365 * y + y / 4 - y / 100 + y / 400 + (153 * m + 2) / 5 + day - 1 - 719_468
}

/// Unix milliseconds of a civil time.
pub open spec fn millis_from_civil(
    year: int,
    month: int,
    day: int,
    hour: int,
    minute: int,
    second: int,
    milli: int,
) -> int {
    ((days_from_civil(year, month, day) * 24 + hour) * 60 + minute) * 60_000 + second * 1_000
        + milli
}

/// The civil times whose milliseconds can be computed: the day count within the year, and that
/// within four centuries, fit 32 bits (which leaves out day 0 of March), and the milliseconds fit
/// 64 bits.
pub open spec fn civil_fits(
    year: int,
    month: int,
    day: int,
    hour: int,
    minute: int,
    second: int,
    milli: int,
) -> bool {
    let y = if month <= 2 {
        year - 1
    } else {
        year
    };
    let m = if month > 2 {
        month - 3
    } else {
        month + 9
    };
    let yoe = y % 400;
    &&& 153 * m + 2 <= u32::MAX
    &&& 1 <= (153 * m + 2) / 5 + day <= u32::MAX
    &&& yoe * 365 + yoe / 4 - yoe / 100 + (153 * m + 2) / 5 + day - 1 <= u32::MAX
    &&& i64::MIN <= millis_from_civil(year, month, day, hour, minute, second, 0)
    &&& millis_from_civil(year, month, day, hour, minute, second, milli) <= i64::MAX
}

/// A leap year of the Gregorian calendar.
pub open spec fn is_leap(year: int) -> bool {
    year % 4 == 0 && (year % 100 != 0 || year % 400 == 0)
}

/// The days of a month of the Gregorian calendar.
pub open spec fn month_length(year: int, month: int) -> int {
    if month == 2 {
        if is_leap(year) {
            29
        } else {
            28
        }
    } else if month == 4 || month == 6 || month == 9 || month == 11 {
        30
    } else {
        31
    }
}

/// A date of the Gregorian calendar.
pub open spec fn valid_date(year: int, month: int, day: int) -> bool {
    1 <= month <= 12 && 1 <= day <= month_length(year, month)
}

/// The date that follows.
pub open spec fn next_date(year: int, month: int, day: int) -> (int, int, int) {
    if day < month_length(year, month) {
        (year, month, day + 1)
    } else if month < 12 {
        (year, month + 1, 1)
    } else {
        (year + 1, 1, 1)
    }
}

/// Whether one date comes before another.
pub open spec fn date_before(a: (int, int, int), b: (int, int, int)) -> bool {
    a.0 < b.0 || (a.0 == b.0 && (a.1 < b.1 || (a.1 == b.1 && a.2 < b.2)))
}

/// Day 0 is 1 January 1970, and the day number of every date of the Gregorian calendar is one
/// below that of the date that follows it.
#[verifier::spinoff_prover]
pub proof fn law_days_follow_the_calendar(year: int, month: int, day: int)
    requires
        valid_date(year, month, day),
    ensures
        days_from_civil(1970, 1, 1) == 0,
        ({
            let n = next_date(year, month, day);
            &&& valid_date(n.0, n.1, n.2)
            &&& days_from_civil(n.0, n.1, n.2) == days_from_civil(year, month, day) + 1
        }),
{
    let y = year - 1;
    // A century turn is a turn of four years, and four centuries a turn of both.
    assert(year / 4 - y / 4 == (if year % 4 == 0 { 1int } else { 0 }));
    assert(year / 100 - y / 100 == (if year % 100 == 0 { 1int } else { 0 }));
    assert(year / 400 - y / 400 == (if year % 400 == 0 { 1int } else { 0 }));
    assert(year % 100 == 0 ==> year % 4 == 0);
    assert(year % 400 == 0 ==> year % 100 == 0);
}

/// The first days of a year's months come in the order of the months.
proof fn lemma_months_ordered(year: int, a: int, b: int)
    requires
        1 <= a < b <= 12,
    ensures
        days_from_civil(year, a, 1) + month_length(year, a) <= days_from_civil(year, b, 1),
    decreases b - a,
{
    law_days_follow_the_calendar(year, b - 1, month_length(year, b - 1));
    if a < b - 1 {
        lemma_months_ordered(year, a, b - 1);
    }
}

/// The dates of a year lie before the first day of the next.
proof fn lemma_year_bounds(year: int, month: int, day: int)
    requires
        valid_date(year, month, day),
    ensures
        days_from_civil(year, 1, 1) <= days_from_civil(year, month, day) < days_from_civil(
            year + 1,
            1,
            1,
        ),
{
    law_days_follow_the_calendar(year, 12, 31);
    if month < 12 {
        lemma_months_ordered(year, month, 12);
    }
    if month > 1 {
        lemma_months_ordered(year, 1, month);
    }
}

/// The first days of years come in the order of the years.
proof fn lemma_years_ordered(a: int, b: int)
    requires
        a <= b,
    ensures
        days_from_civil(a, 1, 1) <= days_from_civil(b, 1, 1),
    decreases b - a,
{
    if a < b {
        lemma_years_ordered(a, b - 1);
        lemma_year_bounds(b - 1, 1, 1);
    }
}

/// An earlier time of the calendar has the smaller number of milliseconds.
pub proof fn law_timestamps_keep_calendar_order(
    a: (int, int, int),
    b: (int, int, int),
    millis_a: int,
    millis_b: int,
)
    requires
        valid_date(a.0, a.1, a.2),
        valid_date(b.0, b.1, b.2),
        date_before(a, b),
        0 <= millis_a < 86_400_000,
        0 <= millis_b < 86_400_000,
    ensures
        millis_from_civil(a.0, a.1, a.2, 0, 0, 0, millis_a) < millis_from_civil(
            b.0,
            b.1,
            b.2,
            0,
            0,
            0,
            millis_b,
        ),
{
    lemma_year_bounds(a.0, a.1, a.2);
    lemma_year_bounds(b.0, b.1, b.2);
    if a.0 < b.0 {
        lemma_years_ordered(a.0 + 1, b.0);
    } else if a.1 < b.1 {
        lemma_months_ordered(a.0, a.1, b.1);
    }
    assert(days_from_civil(a.0, a.1, a.2) < days_from_civil(b.0, b.1, b.2));
}

/// Unix milliseconds of a civil time (UTC, no leap seconds).
pub fn civil_to_millis(
    year: i64,
    month: u32,
    day: u32,
    hour: u32,
    min: u32,
    sec: u32,
    ms: u32,
) -> (r: Option<i64>)
    requires
        civil_fits(
            year as int,
            month as int,
            day as int,
            hour as int,
            min as int,
            sec as int,
            ms as int,
        ),
    ensures
        r == Some(
            millis_from_civil(
                year as int,
                month as int,
                day as int,
                hour as int,
                min as int,
                sec as int,
                ms as int,
            ) as i64,
        ),
{
    let y: i64 = if month <= 2 {
        year - 1
    } else {
        year
    };
    let shifted: i64 = if y >= 0 {
        y
    } else {
        y - 399
    };
    let era: i64 = shifted / 400;
    assert(era == y as int / 400);
    let yoe_wide: i64 = y - era * 400;
    assert(0 <= yoe_wide < 400);
    let yoe: u32 = yoe_wide as u32;
    let m: u32 = if month > 2 {
        month - 3
    } else {
        month + 9
    };
    let doy: u32 = (153 * m + 2) / 5 + day - 1;
    let doe: u32 = yoe * 365 + yoe / 4 - yoe / 100 + doy;
    assert(y as int / 4 == era * 100 + yoe as int / 4);
    assert(y as int / 100 == era * 4 + yoe as int / 100);
    let days: i64 = era * 146_097 + doe as i64 - 719_468;
    assert(days == days_from_civil(year as int, month as int, day as int));
    let secs: i64 = days * 86_400 + hour as i64 * 3_600 + min as i64 * 60 + sec as i64;
    Some(secs * 1_000 + ms as i64)
}

/// A time zone offset begins with a plus or a minus sign.
pub open spec fn is_sign(b: u8) -> bool {
    b == 0x2b || b == 0x2d
}

/// The position of the first sign from `from` on, the length where there is none.
pub open spec fn sign_from(t: Seq<u8>, from: int) -> int
    decreases t.len() - from,
{
    if from >= t.len() {
        t.len() as int
    } else if is_sign(t[from]) {
        from
    } else {
        sign_from(t, from + 1)
    }
}

/// The position of the first full stop from `from` on, the length where there is none.
pub open spec fn dot_from(t: Seq<u8>, from: int) -> int
    decreases t.len() - from,
{
    if from >= t.len() {
        t.len() as int
    } else if t[from] == 0x2e {
        from
    } else {
        dot_from(t, from + 1)
    }
}

/// `t` without the letters Z at its end.
pub open spec fn without_zulu(t: Seq<u8>) -> Seq<u8>
    decreases t.len(),
{
    if t.len() > 0 && t.last() == 0x5a {
        without_zulu(t.drop_last())
    } else {
        t
    }
}

/// The fields of a timestamp.
pub struct CivilFields {
    pub year: int,
    pub month: nat,
    pub day: nat,
    pub hour: nat,
    pub minute: nat,
    pub second: nat,
    pub milli: nat,
}

/// The number at `[from, to)`, 0 where the text is too short or holds no number there.
pub open spec fn lenient(t: Seq<u8>, from: int, to: int) -> nat {
    if to <= t.len() && number::unsigned_of(t.subrange(from, to)) is Some {
        number::unsigned_of(t.subrange(from, to))->0
    } else {
        0
    }
}

/// The fields of the time of day: hours and minutes must be there, seconds and milliseconds count as
/// 0 where they are missing or no numbers. The fraction is what follows the first full stop, and
/// fewer than three digits of it count as 0.
pub open spec fn time_fields(time: Seq<u8>) -> Option<(nat, nat, nat, nat)> {
    let core = without_zulu(time.take(sign_from(time, 0)));
    let dot = dot_from(core, 0);
    let hms = core.take(dot);
    let fraction = if dot < core.len() {
        core.skip(dot + 1)
    } else {
        seq![0x30u8]
    };
    if hms.len() >= 5 && number::unsigned_of(hms.subrange(0, 2)) is Some && number::unsigned_of(
        hms.subrange(3, 5),
    ) is Some {
        Some(
            (
                number::unsigned_of(hms.subrange(0, 2))->0,
                number::unsigned_of(hms.subrange(3, 5))->0,
                lenient(hms, 6, 8),
                lenient(fraction, 0, 3),
            ),
        )
    } else {
        None
    }
}

/// The fields of `YYYY-MM-DDTHH:MM:SS.mmmZ`, by position: what stands between the numbers is not
/// looked at.
pub open spec fn civil_fields(t: Seq<u8>) -> Option<CivilFields> {
    if t.len() < 11 {
        None
    } else {
        match (
            number::signed_of(t.subrange(0, 4)),
            number::unsigned_of(t.subrange(5, 7)),
            number::unsigned_of(t.subrange(8, 10)),
            time_fields(t.skip(11)),
        ) {
            (Some(year), Some(month), Some(day), Some(time)) => Some(
                CivilFields {
                    year,
                    month,
                    day,
                    hour: time.0,
                    minute: time.1,
                    second: time.2,
                    milli: time.3,
                },
            ),
            _ => None,
        }
    }
}

/// The milliseconds of a timestamp. What has no fields is none, and neither is day 0 of March, which
/// no month has and the count of the days of a year, which begins with March, does not reach.
pub open spec fn timestamp_millis(t: Seq<u8>) -> Option<int> {
    match civil_fields(t) {
        Some(f) => if f.month == 3 && f.day == 0 {
            None
        } else {
            Some(
                millis_from_civil(
                    f.year,
                    f.month as int,
                    f.day as int,
                    f.hour as int,
                    f.minute as int,
                    f.second as int,
                    f.milli as int,
                ),
            )
        },
        None => None,
    }
}

/// A number of at most four characters is small.
proof fn lemma_short_numbers(t: Seq<u8>)
    requires
        t.len() <= 4,
    ensures
        number::unsigned_of(t) is Some ==> number::unsigned_of(t)->0 <= 9999,
        t.len() <= 3 && number::unsigned_of(t) is Some ==> number::unsigned_of(t)->0 <= 999,
        t.len() <= 2 && number::unsigned_of(t) is Some ==> number::unsigned_of(t)->0 <= 99,
        number::signed_of(t) is Some ==> -9999 <= number::signed_of(t)->0 <= 9999,
{
    if number::all_digits(t) {
        number::lemma_digits_small(t);
    }
    if t.len() > 0 && number::all_digits(t.skip(1)) {
        number::lemma_digits_small(t.skip(1));
    }
}

/// The position of the first sign from `start` on, the length where there is none.
fn sign_position(b: &[u8], start: usize) -> (cut: usize)
    requires
        start <= b@.len(),
    ensures
        start <= cut <= b@.len(),
        b@.skip(start as int).take(sign_from(b@.skip(start as int), 0)) == b@.subrange(
            start as int,
            cut as int,
        ),
{
    let ghost time = b@.skip(start as int);
    let n: usize = b.len();
    let mut cut: usize = start;
    while cut < n && b[cut] != 0x2b && b[cut] != 0x2d
        invariant
            n == b@.len(),
            start <= cut <= n,
            time == b@.skip(start as int),
            sign_from(time, 0) == sign_from(time, cut - start),
        ensures
            start <= cut <= n,
            sign_from(time, 0) == cut - start,
        decreases n - cut,
    {
        assert(time[cut - start] == b@[cut as int]);
        cut += 1;
    }
    assert(time.take(cut - start) =~= b@.subrange(start as int, cut as int));
    cut
}

/// The end of `b[start..cut]` without the letters Z at its end.
fn zulu_position(b: &[u8], start: usize, cut: usize) -> (end: usize)
    requires
        start <= cut <= b@.len(),
    ensures
        start <= end <= cut,
        without_zulu(b@.subrange(start as int, cut as int)) == b@.subrange(
            start as int,
            end as int,
        ),
{
    let ghost signed = b@.subrange(start as int, cut as int);
    let mut end: usize = cut;
    while end > start && b[end - 1] == 0x5a
        invariant
            start <= end <= cut <= b@.len(),
            without_zulu(signed) == without_zulu(b@.subrange(start as int, end as int)),
        ensures
            start <= end <= cut,
            without_zulu(signed) == b@.subrange(start as int, end as int),
        decreases end,
    {
        assert(b@.subrange(start as int, end as int).drop_last() =~= b@.subrange(
            start as int,
            end - 1,
        ));
        end -= 1;
    }
    end
}

/// The position of the first full stop in `b[start..end]`, `end` where there is none.
fn dot_position(b: &[u8], start: usize, end: usize) -> (dot: usize)
    requires
        start <= end <= b@.len(),
    ensures
        start <= dot <= end,
        dot_from(b@.subrange(start as int, end as int), 0) == dot - start,
{
    let ghost core = b@.subrange(start as int, end as int);
    let mut dot: usize = start;
    while dot < end && b[dot] != 0x2e
        invariant
            start <= dot <= end <= b@.len(),
            core == b@.subrange(start as int, end as int),
            dot_from(core, 0) == dot_from(core, dot - start),
        ensures
            start <= dot <= end,
            dot_from(core, 0) == dot - start,
        decreases end - dot,
    {
        assert(core[dot - start] == b@[dot as int]);
        dot += 1;
    }
    dot
}

/// The number at `[from, to)` of `b[start..end]`, 0 where there is none.
fn lenient_number(b: &[u8], start: usize, end: usize, from: usize, to: usize) -> (r: u32)
    requires
        start <= end <= b@.len(),
        from <= to <= 8,
        to - from <= 3,
    ensures
        r == lenient(b@.subrange(start as int, end as int), from as int, to as int),
        r <= 999,
        to - from <= 2 ==> r <= 99,
{
    let ghost t = b@.subrange(start as int, end as int);
    if end - start < to {
        return 0;
    }
    assert(t.subrange(from as int, to as int) =~= b@.subrange(start + from, start + to));
    proof {
        lemma_short_numbers(t.subrange(from as int, to as int));
    }
    match number::parse_u32(b, start + from, start + to) {
        Some(v) => v,
        None => 0,
    }
}

/// The time of day of a timestamp, in hours, minutes, seconds and milliseconds.
fn parse_time(b: &[u8], start: usize) -> (r: Option<(u32, u32, u32, u32)>)
    requires
        start <= b@.len(),
    ensures
        match time_fields(b@.skip(start as int)) {
            Some(f) => {
                &&& r matches Some(g)
                &&& g.0 == f.0 && g.1 == f.1 && g.2 == f.2 && g.3 == f.3
                &&& g.0 <= 99 && g.1 <= 99 && g.2 <= 99 && g.3 <= 999
            },
            None => r is None,
        },
{
    let cut: usize = sign_position(b, start);
    let end: usize = zulu_position(b, start, cut);
    let dot: usize = dot_position(b, start, end);
    let ghost core = b@.subrange(start as int, end as int);
    let ghost hms = core.take(dot - start);
    assert(hms =~= b@.subrange(start as int, dot as int));
    if dot - start < 5 {
        return None;
    }
    assert(hms.subrange(0, 2) =~= b@.subrange(start as int, start + 2));
    assert(hms.subrange(3, 5) =~= b@.subrange(start + 3, start + 5));
    proof {
        lemma_short_numbers(hms.subrange(0, 2));
        lemma_short_numbers(hms.subrange(3, 5));
    }
    let hour: u32 = match number::parse_u32(b, start, start + 2) {
        Some(v) => v,
        None => {
            return None;
        },
    };
    let minute: u32 = match number::parse_u32(b, start + 3, start + 5) {
        Some(v) => v,
        None => {
            return None;
        },
    };
    let second: u32 = lenient_number(b, start, dot, 6, 8);
    let milli: u32 = if dot < end {
        assert(core.skip(dot - start + 1) =~= b@.subrange(dot + 1, end as int));
        lenient_number(b, dot + 1, end, 0, 3)
    } else {
        0
    };
    Some((hour, minute, second, milli))
}

/// The milliseconds of a timestamp in the form `YYYY-MM-DDTHH:MM:SS.mmmZ`.
pub fn parse_rfc3339_millis(ts: &str) -> (r: Option<i64>)
    ensures
        match timestamp_millis(ts.spec_bytes()) {
            Some(millis) => r == Some(millis as i64) && i64::MIN <= millis <= i64::MAX,
            None => r is None,
        },
{
    let b = ts.as_bytes();
    let ghost t = b@;
    if b.len() < 11 {
        return None;
    }
    proof {
        lemma_short_numbers(t.subrange(0, 4));
        lemma_short_numbers(t.subrange(5, 7));
        lemma_short_numbers(t.subrange(8, 10));
    }
    let year: i64 = match number::parse_i64(b, 0, 4) {
        Some(v) => v,
        None => {
            return None;
        },
    };
    let month: u32 = match number::parse_u32(b, 5, 7) {
        Some(v) => v,
        None => {
            return None;
        },
    };
    let day: u32 = match number::parse_u32(b, 8, 10) {
        Some(v) => v,
        None => {
            return None;
        },
    };
    match parse_time(b, 11) {
        Some(time) => if month == 3 && day == 0 {
            None
        } else {
            civil_to_millis(year, month, day, time.0, time.1, time.2, time.3)
        },
        None => None,
    }
}

/// The milliseconds of a timestamp, 0 where it cannot be read.
pub fn parse_iso_to_millis(timestamp: &str) -> (r: i64)
    ensures
        r == match timestamp_millis(timestamp.spec_bytes()) {
            Some(millis) => millis,
            None => 0,
        },
{
    match parse_rfc3339_millis(timestamp) {
        Some(v) => v,
        None => 0,
    }
}

// ---------------------------------------------------------------------------
// What the operations promise
// ---------------------------------------------------------------------------

/// The same time on the date that follows is a day later.
pub proof fn law_the_next_date_is_a_day_later(
    date: (i64, u32, u32),
    next: (i64, u32, u32),
    time: (u32, u32, u32, u32),
    a: Option<i64>,
    b: Option<i64>,
)
    requires
        valid_date(date.0 as int, date.1 as int, date.2 as int),
        next_date(date.0 as int, date.1 as int, date.2 as int) == (
            next.0 as int,
            next.1 as int,
            next.2 as int,
        ),
        call_requires(
            civil_to_millis,
            (date.0, date.1, date.2, time.0, time.1, time.2, time.3),
        ),
        call_requires(
            civil_to_millis,
            (next.0, next.1, next.2, time.0, time.1, time.2, time.3),
        ),
        civil_fits(
            date.0 as int,
            date.1 as int,
            date.2 as int,
            time.0 as int,
            time.1 as int,
            time.2 as int,
            time.3 as int,
        ),
        civil_fits(
            next.0 as int,
            next.1 as int,
            next.2 as int,
            time.0 as int,
            time.1 as int,
            time.2 as int,
            time.3 as int,
        ),
        call_ensures(
            civil_to_millis,
            (date.0, date.1, date.2, time.0, time.1, time.2, time.3),
            a,
        ),
        call_ensures(
            civil_to_millis,
            (next.0, next.1, next.2, time.0, time.1, time.2, time.3),
            b,
        ),
    ensures
        a is Some && b is Some,
        b->0 == a->0 + 86_400_000,
{
    law_days_follow_the_calendar(date.0 as int, date.1 as int, date.2 as int);
}

/// The time of a day is counted in hours, minutes, seconds and milliseconds from its midnight, and
/// the count begins with the first midnight of 1970.
pub proof fn law_times_are_counted_from_midnight(
    date: (i64, u32, u32),
    time: (u32, u32, u32, u32),
    midnight: Option<i64>,
    r: Option<i64>,
)
    requires
        civil_fits(date.0 as int, date.1 as int, date.2 as int, 0, 0, 0, 0),
        civil_fits(
            date.0 as int,
            date.1 as int,
            date.2 as int,
            time.0 as int,
            time.1 as int,
            time.2 as int,
            time.3 as int,
        ),
        call_ensures(civil_to_millis, (date.0, date.1, date.2, 0u32, 0u32, 0u32, 0u32), midnight),
        call_ensures(
            civil_to_millis,
            (date.0, date.1, date.2, time.0, time.1, time.2, time.3),
            r,
        ),
    ensures
        midnight is Some && r is Some,
        r->0 == midnight->0 + time.0 * 3_600_000 + time.1 * 60_000 + time.2 * 1_000 + time.3,
        date == (1970i64, 1u32, 1u32) ==> midnight->0 == 0,
{
}

proof fn lemma_two_digits(t: Seq<u8>)
    requires
        t.len() == 2,
        number::is_digit(t[0]),
        number::is_digit(t[1]),
    ensures
        number::unsigned_of(t) == Some(((t[0] - 0x30) * 10 + (t[1] - 0x30)) as nat),
{
    reveal_with_fuel(number::digits_value, 3);
    assert(t.drop_last().drop_last().len() == 0);
    assert(t.drop_last().last() == t[0]);
}

proof fn lemma_three_digits(t: Seq<u8>)
    requires
        t.len() == 3,
        number::is_digit(t[0]),
        number::is_digit(t[1]),
        number::is_digit(t[2]),
    ensures
        number::unsigned_of(t) == Some(
            ((t[0] - 0x30) * 100 + (t[1] - 0x30) * 10 + (t[2] - 0x30)) as nat,
        ),
{
    lemma_two_digits(t.drop_last());
    assert(number::all_digits(t.drop_last()));
}

proof fn lemma_four_digits(t: Seq<u8>)
    requires
        t.len() == 4,
        number::is_digit(t[0]),
        number::is_digit(t[1]),
        number::is_digit(t[2]),
        number::is_digit(t[3]),
    ensures
        number::signed_of(t) == Some(
            (t[0] - 0x30) * 1_000 + (t[1] - 0x30) * 100 + (t[2] - 0x30) * 10 + (t[3] - 0x30),
        ),
{
    lemma_three_digits(t.drop_last());
    assert(number::all_digits(t.drop_last()));
}

proof fn lemma_sign_from(t: Seq<u8>, from: int, at: int)
    requires
        0 <= from <= at <= t.len(),
        forall|k: int| from <= k < at ==> !is_sign(#[trigger] t[k]),
        at < t.len() ==> is_sign(t[at]),
    ensures
        sign_from(t, from) == at,
    decreases at - from,
{
    if from < at {
        assert(!is_sign(t[from]));
        lemma_sign_from(t, from + 1, at);
    }
}

proof fn lemma_dot_from(t: Seq<u8>, from: int, at: int)
    requires
        0 <= from <= at <= t.len(),
        forall|k: int| from <= k < at ==> #[trigger] t[k] != 0x2e,
        at < t.len() ==> t[at] == 0x2e,
    ensures
        dot_from(t, from) == at,
    decreases at - from,
{
    if from < at {
        assert(t[from] != 0x2e);
        lemma_dot_from(t, from + 1, at);
    }
}

/// The byte at `i` is an ASCII digit.
pub open spec fn digit_at(t: Seq<u8>, i: int) -> bool {
    0x30 <= t[i] <= 0x39
}

/// The bytes are `YYYY-MM-DDTHH:MM:SS`, followed by something.
pub open spec fn begins_as_timestamp(t: Seq<u8>) -> bool {
    &&& t.len() >= 19
    &&& digit_at(t, 0) && digit_at(t, 1) && digit_at(t, 2) && digit_at(t, 3) && t[4] == 0x2d
    &&& digit_at(t, 5) && digit_at(t, 6) && t[7] == 0x2d
    &&& digit_at(t, 8) && digit_at(t, 9) && t[10] == 0x54
    &&& digit_at(t, 11) && digit_at(t, 12) && t[13] == 0x3a
    &&& digit_at(t, 14) && digit_at(t, 15) && t[16] == 0x3a
    &&& digit_at(t, 17) && digit_at(t, 18)
}

/// The number that the two digits from `i` on write.
pub open spec fn two_at(t: Seq<u8>, i: int) -> int {
    (t[i] - 0x30) * 10 + (t[i + 1] - 0x30)
}

/// A timestamp written out in full, with or without milliseconds, is the time that its digits write:
/// year, month, day, hour, minute, second and millisecond, each where it stands.
pub proof fn law_timestamps_are_read_by_their_digits(
    text: &str,
    year: i64,
    month: u32,
    day: u32,
    hour: u32,
    min: u32,
    sec: u32,
    ms: u32,
    time: Option<i64>,
    r: Option<i64>,
)
    requires
        begins_as_timestamp(text.spec_bytes()),
        ({
            let t = text.spec_bytes();
            &&& year == two_at(t, 0) * 100 + two_at(t, 2)
            &&& month == two_at(t, 5) && day == two_at(t, 8)
            &&& hour == two_at(t, 11) && min == two_at(t, 14) && sec == two_at(t, 17)
            &&& day > 0
            &&& {
                ||| t.len() == 20 && t[19] == 0x5a && ms == 0
                ||| t.len() == 24 && t[19] == 0x2e && digit_at(t, 20) && digit_at(t, 21)
                    && digit_at(t, 22) && t[23] == 0x5a && ms == two_at(t, 20) * 10 + (t[22]
                    - 0x30)
            }
        }),
        call_ensures(parse_rfc3339_millis, (text,), r),
        call_ensures(civil_to_millis, (year, month, day, hour, min, sec, ms), time),
    ensures
        r is Some,
        r == time,
{
    let t = text.spec_bytes();
    let n = t.len() as int;
    assert(digit_at(t, 0) && digit_at(t, 1) && digit_at(t, 2) && digit_at(t, 3));
    lemma_four_digits(t.subrange(0, 4));
    lemma_two_digits(t.subrange(5, 7));
    lemma_two_digits(t.subrange(8, 10));
    let clock = t.skip(11);
    assert forall|k: int| 0 <= k < clock.len() implies !is_sign(#[trigger] clock[k]) by {
        assert(clock[k] == t[k + 11]);
        assert(digit_at(t, 11) && digit_at(t, 12) && digit_at(t, 14) && digit_at(t, 15)
            && digit_at(t, 17) && digit_at(t, 18));
        if n == 24 {
            assert(digit_at(t, 20) && digit_at(t, 21) && digit_at(t, 22));
        }
    }
    lemma_sign_from(clock, 0, clock.len() as int);
    assert(clock.take(clock.len() as int) =~= clock);
    assert(clock.last() == t[n - 1]);
    let core = clock.drop_last();
    assert(core.last() == t[n - 2]);
    assert(without_zulu(core) == core);
    assert(without_zulu(clock) == core);
    assert forall|k: int| 0 <= k < 8 implies #[trigger] core[k] != 0x2e by {
        assert(core[k] == t[k + 11]);
        assert(digit_at(t, 11) && digit_at(t, 12) && digit_at(t, 14) && digit_at(t, 15)
            && digit_at(t, 17) && digit_at(t, 18));
    }
    if n == 24 {
        assert(core[8] == t[19]);
    }
    lemma_dot_from(core, 0, 8);
    let hms = core.take(8);
    assert(hms.subrange(0, 2) =~= seq![t[11], t[12]]);
    assert(hms.subrange(3, 5) =~= seq![t[14], t[15]]);
    assert(hms.subrange(6, 8) =~= seq![t[17], t[18]]);
    lemma_two_digits(seq![t[11], t[12]]);
    lemma_two_digits(seq![t[14], t[15]]);
    lemma_two_digits(seq![t[17], t[18]]);
    if n == 24 {
        let fraction = core.skip(9);
        assert(fraction.subrange(0, 3) =~= seq![t[20], t[21], t[22]]);
        lemma_three_digits(seq![t[20], t[21], t[22]]);
    }
}

/// A time zone offset is not counted: what follows the first sign behind the date is not looked at.
pub proof fn law_offsets_are_not_counted(
    plain: &str,
    offset: &str,
    sign: u8,
    rest: Seq<u8>,
    a: Option<i64>,
    b: Option<i64>,
)
    requires
        plain.spec_bytes().len() >= 11,
        forall|k: int|
            11 <= k < plain.spec_bytes().len() ==> #[trigger] plain.spec_bytes()[k] != 0x2b
                && plain.spec_bytes()[k] != 0x2d,
        sign == 0x2b || sign == 0x2d,
        offset.spec_bytes() == plain.spec_bytes().push(sign) + rest,
        call_ensures(parse_rfc3339_millis, (plain,), a),
        call_ensures(parse_rfc3339_millis, (offset,), b),
    ensures
        a == b,
{
    let t = plain.spec_bytes();
    let u = offset.spec_bytes();
    let n = t.len() as int;
    assert(u.subrange(0, 4) =~= t.subrange(0, 4));
    assert(u.subrange(5, 7) =~= t.subrange(5, 7));
    assert(u.subrange(8, 10) =~= t.subrange(8, 10));
    let clock = t.skip(11);
    let other = u.skip(11);
    assert forall|k: int| 0 <= k < clock.len() implies !is_sign(#[trigger] clock[k]) by {
        assert(clock[k] == t[k + 11]);
    }
    assert forall|k: int| 0 <= k < clock.len() implies !is_sign(#[trigger] other[k]) by {
        assert(other[k] == t[k + 11]);
    }
    assert(other[clock.len() as int] == sign);
    lemma_sign_from(clock, 0, clock.len() as int);
    lemma_sign_from(other, 0, clock.len() as int);
    assert(clock.take(clock.len() as int) =~= clock);
    assert(other.take(clock.len() as int) =~= clock);
}

/// What is too short for a date, or does not begin with a number, is no timestamp; where a timestamp
/// must be there it counts as 0, and any other keeps its milliseconds.
pub proof fn law_unread_timestamps_count_as_nothing(text: &str, r: Option<i64>, millis: i64)
    requires
        call_ensures(parse_rfc3339_millis, (text,), r),
        call_ensures(parse_iso_to_millis, (text,), millis),
    ensures
        text.spec_bytes().len() < 11 ==> r is None,
        text.spec_bytes().len() >= 11 && !digit_at(text.spec_bytes(), 3) ==> r is None,
        text.spec_bytes().len() >= 11 && !digit_at(text.spec_bytes(), 6) ==> r is None,
        text.spec_bytes().len() >= 11 && !digit_at(text.spec_bytes(), 9) ==> r is None,
        r matches Some(m) ==> millis == m,
        r is None ==> millis == 0,
{
    let t = text.spec_bytes();
    if t.len() >= 11 {
        let y = t.subrange(0, 4);
        let m = t.subrange(5, 7);
        let d = t.subrange(8, 10);
        assert(y[3] == t[3] && m[1] == t[6] && d[1] == t[9]);
        assert(y.skip(1)[2] == t[3] && m.skip(1)[0] == t[6] && d.skip(1)[0] == t[9]);
    }
}

} // verus!
