//! Scheduled HTTP jobs: how they repeat, and the rules that decide whether
//! and how one runs.
use chrono::Datelike;
use vstd::prelude::*;

use crate::text::{same_text, upper_of, uppercase};

verus! {

/// Ready-made repetition patterns.
#[derive(Clone, Copy, Debug, PartialEq, Eq, Structural)]
pub enum RepeatTemplate {
    Daily,
    Weekdays,
    Weekends,
    Weekly,
    Biweekly,
    Monthly,
    Yearly,
}

/// The unit of a custom repetition.
#[derive(Clone, Copy, Debug, PartialEq, Eq, Structural)]
pub enum RepeatFrequency {
    Daily,
    Weekly,
    Monthly,
    Yearly,
}

/// How a job repeats.
#[derive(Clone, Copy, Debug, PartialEq, Eq, Structural)]
pub enum Repeat {
    Template(RepeatTemplate),
    /// Every `every` units of `frequency`.
    Custom { frequency: RepeatFrequency, every: u32 },
}

/// Whether a job is dropped when the schedule is loaded: a one-off job whose
/// time passed more than `max_late_secs` ago (`delay_secs` is its time minus
/// now). Repeating jobs are always kept.
pub open spec fn is_expired(repeats: bool, delay_secs: int, max_late_secs: int) -> bool {
    !repeats && delay_secs < -max_late_secs
}

pub fn skip_expired(repeats: bool, delay_secs: i64, max_late_secs: u64) -> (r: bool)
    ensures
        r == is_expired(repeats, delay_secs as int, max_late_secs as int),
{
    if repeats {
        false
    } else if delay_secs >= 0 {
        false
    } else {
        let late = (-(delay_secs as i128)) as u128;
        late > max_late_secs as u128
    }
}

/// Seconds to sleep before a job whose time is `delay_secs` from now.
pub fn sleep_secs(delay_secs: i64) -> (r: u64)
    ensures
        r == (if delay_secs > 0 { delay_secs as int } else { 0 }),
{
    if delay_secs > 0 {
        delay_secs as u64
    } else {
        0
    }
}

/// The HTTP methods a job may use.
#[derive(Clone, Copy, Debug, PartialEq, Eq, Structural)]
pub enum JobMethod {
    Get,
    Post,
    Put,
    Delete,
}

/// The method a job's `method` text names, in any letter case.
pub open spec fn method_of(upper: Seq<char>) -> Option<JobMethod> {
    if upper == "GET"@ {
        Some(JobMethod::Get)
    } else if upper == "POST"@ {
        Some(JobMethod::Post)
    } else if upper == "PUT"@ {
        Some(JobMethod::Put)
    } else if upper == "DELETE"@ {
        Some(JobMethod::Delete)
    } else {
        None
    }
}

/// The method named by `upper`, already in upper case.
pub fn method_from_upper(upper: &str) -> (r: Option<JobMethod>)
    ensures
        r == method_of(upper@),
{
    if same_text(upper, "GET") {
        Some(JobMethod::Get)
    } else if same_text(upper, "POST") {
        Some(JobMethod::Post)
    } else if same_text(upper, "PUT") {
        Some(JobMethod::Put)
    } else if same_text(upper, "DELETE") {
        Some(JobMethod::Delete)
    } else {
        None
    }
}

/// The method of a job; `None` for a method that jobs do not support.
pub fn job_method(method: &str) -> (r: Option<JobMethod>)
    ensures
        r == method_of(upper_of(method@)),
{
    let up = uppercase(method);
    method_from_upper(up.as_str())
}

/// Whether a method sends the job's body, when it has one.
pub fn sends_body(m: JobMethod) -> (r: bool)
    ensures
        r == (m == JobMethod::Post || m == JobMethod::Put),
{
    match m {
        JobMethod::Post | JobMethod::Put => true,
        _ => false,
    }
}

/// A scheduled HTTP request. Times are whole seconds since the Unix epoch (UTC).
#[derive(Clone, Debug)]
pub struct Job {
    pub id: String,
    pub run_at: i64,
    pub repeat: Option<Repeat>,
    pub end_repeat: Option<i64>,
    pub method: String,
    pub url: String,
    /// The JSON body, as text.
    pub body: Option<String>,
}

pub const SECS_PER_DAY: i64 = 86400;

/// `a / b` rounded toward zero, as Rust's integer division does.
pub open spec fn trunc_div(a: int, b: int) -> int {
    if a >= 0 {
        a / b
    } else {
        -((-a) / b)
    }
}

/// Day of the week of the instant `secs`, Monday being 0.
pub open spec fn weekday_of(secs: int) -> int {
    (secs / SECS_PER_DAY as int + 3) % 7
}

/// Whether a weekday (Monday being 0) falls on the weekend.
pub open spec fn is_weekend(w: int) -> bool {
    w == 5 || w == 6
}

/// Whole periods of `unit_days * every` days from `last` to `now` (none when
/// `now` is earlier), plus one when `always` or when `last` is not later
/// than `now`: how many periods ahead the next run lies.
pub open spec fn periods_ahead(last: int, now: int, unit_days: int, every: int, always: bool) -> int {
    let days = trunc_div(now - last, SECS_PER_DAY as int);
    let units = if unit_days == 7 { trunc_div(days, 7) } else { days };
    let p = trunc_div(units, every);
    let p = if p < 0 { 0 } else { p };
    if always || last <= now {
        p + 1
    } else {
        p
    }
}

/// Instants (Unix seconds) well inside chrono's calendar, which holds the
/// years -262143 to 262142: about 253,000 years either side of 1970.
pub const CALENDAR_SECS: i64 = 8_000_000_000_000;

/// Largest year magnitude that chrono's calendar holds.
pub const CALENDAR_YEARS: i64 = 262143;

pub open spec fn within_calendar(secs: int) -> bool {
    -CALENDAR_SECS <= secs <= CALENDAR_SECS
}

/// The proleptic Gregorian date of the instant `secs`, as (year with a
/// year 0, month 1 to 12): the civil date of its day count from 1970-01-01.
pub open spec fn civil_date(secs: int) -> (int, int) {
    let z = secs / SECS_PER_DAY as int + 719468;
    let era = z / 146097;
    let doe = z - era * 146097;
    let yoe = (doe - doe / 1460 + doe / 36524 - doe / 146096) / 365;
    let doy = doe - (365 * yoe + yoe / 4 - yoe / 100);
    let mp = (5 * doy + 2) / 153;
    let m = if mp < 10 { mp + 3 } else { mp - 9 };
    let y = yoe + era * 400;
    (if m <= 2 { y + 1 } else { y }, m)
}

/// The year of the instant `secs`, as chrono's `Datelike::year` gives it.
pub open spec fn year_of(secs: int) -> int {
    civil_date(secs).0
}

/// The month (1 to 12) of the instant `secs`, as chrono's `Datelike::month`
/// gives it.
pub open spec fn month_of(secs: int) -> int {
    civil_date(secs).1
}

/// What chrono's `DateTime::<Utc>::checked_add_months` gives for the instant
/// `secs` and `months` months, as seconds.
pub uninterp spec fn months_after(secs: int, months: int) -> Option<int>;

/// Relies on chrono's `DateTime::<Utc>::from_timestamp` (`Some` inside the
/// calendar's range), and on `year` and `month`, which give the proleptic
/// Gregorian date (with a year 0) within the calendar's years.
#[verifier::external_body]
fn calendar_month(secs: i64) -> (r: Option<(i64, i64)>)
    ensures
        within_calendar(secs as int) ==> r is Some,
        r matches Some(ym) ==> ym.0 == year_of(secs as int) && ym.1 == month_of(secs as int) && 1
            <= ym.1 <= 12 && -CALENDAR_YEARS <= ym.0 <= CALENDAR_YEARS,
{
    chrono::DateTime::from_timestamp(secs, 0).map(|d| (d.year() as i64, d.month() as i64))
}

/// Relies on chrono's `DateTime::<Utc>::checked_add_months`, on the instant
/// made by `from_timestamp` and read back by `timestamp`. A month moves a
/// date by at most 31 days (the day is clamped to the month's end), so when
/// both ends lie inside the calendar the result exists.
#[verifier::external_body]
fn add_months(secs: i64, months: u32) -> (r: Option<i64>)
    ensures
        r is Some <==> months_after(secs as int, months as int) is Some,
        r matches Some(t) ==> months_after(secs as int, months as int) == Some(t as int),
        within_calendar(secs as int) && within_calendar(secs + months * 31 * SECS_PER_DAY) ==> r is Some,
{
    chrono::DateTime::from_timestamp(secs, 0)
        .and_then(|d| d.checked_add_months(chrono::Months::new(months)))
        .map(|d| d.timestamp())
}

/// Relies on chrono's `DateTime::<Utc>::checked_add_signed`: the instant
/// `delta` seconds later, which exists when both ends lie inside the
/// calendar.
#[verifier::external_body]
fn add_seconds(secs: i64, delta: i64) -> (r: Option<i64>)
    ensures
        r matches Some(t) ==> t == secs + delta,
        within_calendar(secs as int) && within_calendar(secs + delta) ==> r is Some,
{
    let d = chrono::TimeDelta::try_seconds(delta)?;
    chrono::DateTime::from_timestamp(secs, 0)?.checked_add_signed(d).map(|t| t.timestamp())
}

/// `months` as `Months::new(months as u32)` takes it.
pub open spec fn as_u32(months: int) -> int {
    months % 0x1_0000_0000
}

/// Whole periods of `every` months between the calendar months `ly`-`lm`
/// and `ny`-`nm`, rounded toward zero.
pub open spec fn month_span_of(ly: int, lm: int, ny: int, nm: int, every: int) -> int {
    trunc_div((ny - ly) * 12 + (nm - lm), every)
}

/// `months` periods, plus one when `always`, or when `last` moved on by them
/// (`moved`) is not later than `now` or cannot be moved on.
pub open spec fn periods_after(months: int, moved: Option<int>, now: int, always: bool) -> int {
    if always || (match moved {
        Some(t) => t <= now,
        None => true,
    }) {
        months + 1
    } else {
        months
    }
}

/// Whole periods of `every` months from `last` to `now` by calendar month,
/// plus one when `always` or when `last` moved on by those periods is not
/// later than `now` (or cannot be moved on).
pub open spec fn month_periods(last: int, now: int, ly: int, lm: int, ny: int, nm: int, every: int, always: bool) -> int {
    let months = month_span_of(ly, lm, ny, nm, every);
    periods_after(months, months_after(last, as_u32(months * every)), now, always)
}

/// The instant `j` days after `last`.
pub open spec fn day_after(last: int, j: int) -> int {
    last + j * SECS_PER_DAY
}

/// Whether `t` is later than `now` and on the weekend (`weekend`) or on a
/// working day (`!weekend`).
pub open spec fn fits_kind(t: int, now: int, weekend: bool) -> bool {
    t > now && is_weekend(weekday_of(t)) == weekend
}

/// `r` is the first instant `last + k` days, `k >= 1`, that is later than
/// `now` and of the wanted kind of day.
pub open spec fn is_next_day_of_kind(r: int, last: int, now: int, weekend: bool) -> bool {
    exists|k: int|
        k >= 1 && r == #[trigger] day_after(last, k) && fits_kind(r, now, weekend) && forall|j: int|
            1 <= j < k ==> !fits_kind(#[trigger] day_after(last, j), now, weekend)
}

/// For a repetition counted in days or weeks: the unit in days, how many
/// units make a period, and the period in seconds.
pub open spec fn day_period(rep: Repeat) -> Option<(int, int, int)> {
    match rep {
        Repeat::Template(RepeatTemplate::Daily) => Some((1, 1, SECS_PER_DAY as int)),
        Repeat::Template(RepeatTemplate::Weekly) => Some((7, 1, 7 * SECS_PER_DAY)),
        Repeat::Template(RepeatTemplate::Biweekly) => Some((7, 2, 2 * 7 * SECS_PER_DAY)),
        Repeat::Custom { frequency: RepeatFrequency::Daily, every } => Some((1, every as int, every * SECS_PER_DAY)),
        Repeat::Custom { frequency: RepeatFrequency::Weekly, every } => Some((7, every as int, every * 7 * SECS_PER_DAY)),
        _ => None,
    }
}

/// For a repetition on the working days (`false`) or on the weekend (`true`).
pub open spec fn day_kind(rep: Repeat) -> Option<bool> {
    match rep {
        Repeat::Template(RepeatTemplate::Weekdays) => Some(false),
        Repeat::Template(RepeatTemplate::Weekends) => Some(true),
        _ => None,
    }
}

/// For a repetition counted in months: the months per counted period, and
/// the months added per period.
pub open spec fn month_period(rep: Repeat) -> Option<(int, int)> {
    match rep {
        Repeat::Template(RepeatTemplate::Monthly) => Some((1, 1)),
        Repeat::Template(RepeatTemplate::Yearly) => Some((12, 12)),
        Repeat::Custom { frequency: RepeatFrequency::Monthly, every } => Some((every as int, every as int)),
        Repeat::Custom { frequency: RepeatFrequency::Yearly, every } => Some((every * 12, every * 12)),
        _ => None,
    }
}

/// The next run `r` of a job repeating as `rep`, after its run at `last`,
/// seen at `now`; `always` moves it on by at least one period even when
/// `last` is later than `now`.
///
/// - Days and weeks: `last` plus whole periods, the first one after `now`
///   (or `last` itself moved on when it is still ahead); given whenever
///   `last`, `now` and the result lie inside the calendar.
/// - Working days and weekends: the first such day after both `last` and
///   `now`; given whenever `last` and `now` lie inside the calendar with
///   eight days to spare.
/// - Months: chrono's month arithmetic on the calendar months; given when
///   `last` and `now` lie inside the calendar and chrono can move `last`.
pub open spec fn next_run_ok(rep: Repeat, last: int, now: int, always: bool, r: Option<i64>) -> bool {
    let inside = within_calendar(last) && within_calendar(now);
    match day_period(rep) {
        Some(d) => {
            let t = last + periods_ahead(last, now, d.0, d.1, always) * d.2;
            &&& r matches Some(x) ==> d.1 > 0 && x == t
            &&& d.1 > 0 && inside && within_calendar(t) ==> r == Some(t as i64)
        },
        None => match day_kind(rep) {
            Some(weekend) => {
                &&& r matches Some(x) ==> is_next_day_of_kind(x as int, last, now, weekend)
                &&& inside && within_calendar(last + 8 * SECS_PER_DAY) && within_calendar(now + 8 * SECS_PER_DAY)
                    ==> r is Some
            },
            None => match month_period(rep) {
                Some(m) => {
                    let periods = month_periods(last, now, year_of(last), month_of(last), year_of(now), month_of(now), m.0, always);
                    let moved = months_after(last, as_u32(periods * m.1));
                    &&& r matches Some(x) ==> m.0 > 0 && moved == Some(x as int)
                    &&& m.0 > 0 && inside ==> (r is Some <==> moved is Some)
                },
                None => true,
            },
        },
    }
}

fn trunc_div_exec(a: i64, b: i64) -> (r: i64)
    requires
        b >= 1,
    ensures
        r == trunc_div(a as int, b as int),
{
    if a >= 0 {
        a.checked_div_euclid(b).unwrap()
    } else {
        let n: i128 = -(a as i128);
        let q = n.checked_div_euclid(b as i128).unwrap();
        proof {
            vstd::arithmetic::div_mod::lemma_div_is_ordered_by_denominator(n as int, 1, b as int);
        }
        (-q) as i64
    }
}

fn weekday_exec(secs: i64) -> (r: i64)
    ensures
        r == weekday_of(secs as int),
        0 <= r < 7,
{
    let days = secs.checked_div_euclid(SECS_PER_DAY).unwrap();
    (days + 3).checked_rem_euclid(7).unwrap()
}

proof fn lemma_trunc_div_shrinks(a: int, b: int)
    requires
        b >= 1,
    ensures
        -(if a >= 0 { a } else { -a }) <= trunc_div(a, b) <= (if a >= 0 { a } else { -a }),
        a >= 0 ==> trunc_div(a, b) >= 0,
{
    if a >= 0 {
        vstd::arithmetic::div_mod::lemma_div_is_ordered_by_denominator(a, 1, b);
        vstd::arithmetic::div_mod::lemma_div_pos_is_pos(a, b);
    } else {
        vstd::arithmetic::div_mod::lemma_div_is_ordered_by_denominator(-a, 1, b);
        vstd::arithmetic::div_mod::lemma_div_pos_is_pos(-a, b);
    }
}

/// How many periods of `unit_days * every` days ahead of `last` a job
/// runs next, seen at `now` (see `periods_ahead`); `None` only when
/// `now - last` does not fit an `i64`.
pub fn run_periods(last: i64, now: i64, unit_days: i64, every: i64, always: bool) -> (r: Option<i64>)
    requires
        every >= 1,
        unit_days == 1 || unit_days == 7,
    ensures
        r is None <==> (now - last > i64::MAX || now - last < i64::MIN),
        r matches Some(p) ==> p == periods_ahead(last as int, now as int, unit_days as int, every as int, always),
{
    let diff = match now.checked_sub(last) {
        Some(d) => d,
        None => return None,
    };
    let days = trunc_div_exec(diff, SECS_PER_DAY);
    proof {
        lemma_trunc_div_shrinks(diff as int, SECS_PER_DAY as int);
        lemma_trunc_div_shrinks(days as int, 7);
    }
    let units = if unit_days == 7 { trunc_div_exec(days, 7) } else { days };
    let p = trunc_div_exec(units, every);
    proof {
        lemma_trunc_div_shrinks(units as int, every as int);
        assert(days as int <= diff as int / SECS_PER_DAY as int || diff < 0);
        if diff >= 0 {
            assert(diff as int / SECS_PER_DAY as int <= i64::MAX / 2) by (nonlinear_arith)
                requires diff >= 0, diff <= i64::MAX, SECS_PER_DAY == 86400;
        }
    }
    let p = if p < 0 { 0 } else { p };
    if always || last <= now {
        Some(p + 1)
    } else {
        Some(p)
    }
}

/// `last` moved on by `periods` periods of `unit` seconds.
fn move_on(last: i64, periods: i64, unit: i64) -> (r: Option<i64>)
    ensures
        r matches Some(t) ==> t == last + periods * unit,
        within_calendar(last as int) && within_calendar(last + periods * unit) ==> r == Some(
            (last + periods * unit) as i64,
        ),
{
    match periods.checked_mul(unit) {
        Some(d) => add_seconds(last, d),
        None => None,
    }
}

proof fn lemma_weekday_after(last: int, j: int)
    ensures
        weekday_of(day_after(last, j)) == (last / SECS_PER_DAY as int + j + 3) % 7,
{
    vstd::arithmetic::div_mod::lemma_hoist_over_denominator(last, j, SECS_PER_DAY as nat);
}

fn next_day_of_kind(last: i64, now: i64, weekend: bool) -> (r: Option<i64>)
    ensures
        r matches Some(t) ==> is_next_day_of_kind(t as int, last as int, now as int, weekend),
        within_calendar(last as int) && within_calendar(now as int) && within_calendar(last + 8 * SECS_PER_DAY)
            && within_calendar(now + 8 * SECS_PER_DAY) ==> r is Some,
{
    let ghost inside = within_calendar(last as int) && within_calendar(now as int) && within_calendar(
        last + 8 * SECS_PER_DAY,
    ) && within_calendar(now + 8 * SECS_PER_DAY);
    let k0: i64 = if last > now {
        1
    } else {
        match now.checked_sub(last) {
            Some(d) => d / SECS_PER_DAY + 1,
            None => return None,
        }
    };
    proof {
        assert forall|j: int| 1 <= j < k0 implies !(#[trigger] day_after(last as int, j) > now) by {
            if last <= now {
                assert(j * SECS_PER_DAY <= ((now - last) / SECS_PER_DAY as int) * SECS_PER_DAY) by (nonlinear_arith)
                    requires j <= (now - last) / SECS_PER_DAY as int, SECS_PER_DAY > 0;
                assert(((now - last) / SECS_PER_DAY as int) * SECS_PER_DAY <= now - last) by (nonlinear_arith)
                    requires now - last >= 0, SECS_PER_DAY > 0;
            }
        }
        if last <= now {
            assert(last + k0 * SECS_PER_DAY > now) by (nonlinear_arith)
                requires k0 == (now - last) / SECS_PER_DAY as int + 1, now - last >= 0, SECS_PER_DAY > 0;
            assert(last + k0 * SECS_PER_DAY <= now + SECS_PER_DAY) by (nonlinear_arith)
                requires k0 == (now - last) / SECS_PER_DAY as int + 1, now - last >= 0, SECS_PER_DAY > 0;
        }
    }
    let mut k: i64 = k0;
    while k < k0 + 7
        invariant
            k0 >= 1,
            k0 <= k <= k0 + 7,
            k0 <= i64::MAX / 2,
            day_after(last as int, k0 as int) > now,
            last > now ==> k0 == 1,
            last <= now ==> day_after(last as int, k0 as int) <= now + SECS_PER_DAY,
            inside == (within_calendar(last as int) && within_calendar(now as int) && within_calendar(
                last + 8 * SECS_PER_DAY,
            ) && within_calendar(now + 8 * SECS_PER_DAY)),
            forall|j: int| 1 <= j < k0 ==> !(#[trigger] day_after(last as int, j) > now),
            forall|j: int|
                k0 <= j < k ==> is_weekend(weekday_of(#[trigger] day_after(last as int, j))) != weekend,
        decreases k0 + 7 - k,
    {
        proof {
            if inside {
                assert(day_after(last as int, k as int) == day_after(last as int, k0 as int) + (k - k0)
                    * SECS_PER_DAY) by (nonlinear_arith)
                    requires k >= k0;
                assert(last + k * SECS_PER_DAY >= last) by (nonlinear_arith)
                    requires k >= 1;
            }
        }
        let t = match move_on(last, k, SECS_PER_DAY) {
            Some(t) => t,
            None => return None,
        };
        let w = weekday_exec(t);
        assert(t == day_after(last as int, k as int));
        if (w == 5 || w == 6) == weekend {
            proof {
                assert(day_after(last as int, k as int) > now) by (nonlinear_arith)
                    requires last + k0 * SECS_PER_DAY > now, k >= k0, SECS_PER_DAY > 0;
                assert forall|j: int| 1 <= j < k implies !fits_kind(#[trigger] day_after(last as int, j), now as int, weekend) by {
                    if j >= k0 {
                        assert(is_weekend(weekday_of(day_after(last as int, j))) != weekend);
                    } else {
                        assert(!(day_after(last as int, j) > now));
                    }
                }
                assert(is_next_day_of_kind(t as int, last as int, now as int, weekend));
            }
            return Some(t);
        }
        k = k + 1;
    }
    proof {
        if inside {
            let c = last as int / SECS_PER_DAY as int + 3;
            let r0 = (c + k0) % 7;
            let t: int = if weekend {
                if r0 <= 5 { 5 - r0 } else { 6 }
            } else {
                if r0 == 0 { 0 } else { 7 - r0 }
            };
            vstd::arithmetic::div_mod::lemma_add_mod_noop(c + k0, t, 7);
            vstd::arithmetic::div_mod::lemma_small_mod(t as nat, 7);
            lemma_weekday_after(last as int, k0 + t);
            assert(weekday_of(day_after(last as int, k0 + t)) == (c + k0 + t) % 7);
            assert(is_weekend(weekday_of(day_after(last as int, k0 + t))) == weekend);
            assert(false);
        }
    }
    None
}

/// Whole periods of `every` months between the calendar months `ly`-`lm`
/// and `ny`-`nm` (`month_span_of`).
pub fn month_span(ly: i64, lm: i64, ny: i64, nm: i64, every: i64) -> (r: i64)
    requires
        every >= 1,
        -CALENDAR_YEARS <= ly <= CALENDAR_YEARS,
        -CALENDAR_YEARS <= ny <= CALENDAR_YEARS,
        1 <= lm <= 12,
        1 <= nm <= 12,
    ensures
        r == month_span_of(ly as int, lm as int, ny as int, nm as int, every as int),
        -12 * (2 * CALENDAR_YEARS + 1) <= r <= 12 * (2 * CALENDAR_YEARS + 1),
{
    let span = (ny - ly) * 12 + (nm - lm);
    proof {
        lemma_trunc_div_shrinks(span as int, every as int);
    }
    trunc_div_exec(span, every)
}

/// The periods counted by `periods_after`, given whether and where chrono
/// moved `last` on by `months` periods (`moved`).
pub fn month_periods_after(months: i64, moved: Option<i64>, now: i64, always: bool) -> (r: i64)
    requires
        months < i64::MAX,
    ensures
        r == periods_after(
            months as int,
            match moved {
                Some(t) => Some(t as int),
                None => None,
            },
            now as int,
            always,
        ),
{
    let reached = always || match moved {
        Some(t) => t <= now,
        None => true,
    };
    if reached {
        months + 1
    } else {
        months
    }
}

fn month_periods_exec(last: i64, now: i64, every: i64, always: bool) -> (r: Option<i64>)
    requires
        1 <= every <= 12 * 0xffff_ffff,
    ensures
        r matches Some(m) ==> m == month_periods(
            last as int,
            now as int,
            year_of(last as int),
            month_of(last as int),
            year_of(now as int),
            month_of(now as int),
            every as int,
            always,
        ),
        within_calendar(last as int) && within_calendar(now as int) ==> r is Some,
        r matches Some(m) ==> -12 * (2 * CALENDAR_YEARS + 1) <= m <= 12 * (2 * CALENDAR_YEARS + 1) + 1,
{
    let (ly, lm) = match calendar_month(last) {
        Some(c) => c,
        None => return None,
    };
    let (ny, nm) = match calendar_month(now) {
        Some(c) => c,
        None => return None,
    };
    let months = month_span(ly, lm, ny, nm, every);
    proof {
        assert(-400_000_000_000_000_000 <= months * every <= 400_000_000_000_000_000) by (nonlinear_arith)
            requires
                -6_291_444 <= months <= 6_291_444,
                1 <= every <= 51_539_607_540,
        ;
    }
    let moved = if always {
        None
    } else {
        add_months(last, wrap_u32(months * every))
    };
    Some(month_periods_after(months, moved, now, always))
}

/// `months` as `Months::new(months as u32)` takes it.
fn wrap_u32(months: i64) -> (r: u32)
    ensures
        r as int == as_u32(months as int),
{
    months.checked_rem_euclid(0x1_0000_0000).unwrap() as u32
}

/// `last` moved on by `periods * per` months, as chrono does it.
fn months_later(last: i64, periods: i64, per: i64) -> (r: Option<i64>)
    requires
        -12 * (2 * CALENDAR_YEARS + 1) <= periods <= 12 * (2 * CALENDAR_YEARS + 1) + 1,
        1 <= per <= 12 * 0xffff_ffff,
    ensures
        r is Some <==> months_after(last as int, as_u32(periods * per)) is Some,
        r matches Some(t) ==> months_after(last as int, as_u32(periods * per)) == Some(t as int),
{
    proof {
        assert(-400_000_000_000_000_000 <= periods * per <= 400_000_000_000_000_000) by (nonlinear_arith)
            requires
                -6_291_444 <= periods <= 6_291_445,
                1 <= per <= 51_539_607_540,
        ;
    }
    add_months(last, wrap_u32(periods * per))
}

/// Whether a repetition counts in periods of at least one unit.
pub open spec fn repeat_is_valid(rep: Option<Repeat>) -> bool {
    rep matches Some(Repeat::Custom { every, .. }) ==> every >= 1
}

impl Repeat {
    /// Whether this repetition counts in periods of at least one unit; a
    /// custom repetition every 0 units has no next run.
    pub fn is_valid(&self) -> (r: bool)
        ensures
            r == repeat_is_valid(Some(*self)),
    {
        match self {
            Repeat::Custom { every, .. } => *every >= 1,
            Repeat::Template(_) => true,
        }
    }
}

/// When a repeating job runs next after its run at `last_run`, seen at
/// `now` (see `next_run_ok`); `None` for a job that does not repeat.
pub fn next_run_time(job: &Job, last_run: i64, always_advance: bool, now: i64) -> (r: Option<i64>)
    requires
        repeat_is_valid(job.repeat),
    ensures
        job.repeat is None ==> r is None,
        job.repeat matches Some(rep) ==> next_run_ok(rep, last_run as int, now as int, always_advance, r),
{
    let rep = match job.repeat {
        Some(rep) => rep,
        None => return None,
    };
    match rep {
        Repeat::Template(t) => match t {
            RepeatTemplate::Daily => match run_periods(last_run, now, 1, 1, always_advance) {
                Some(p) => move_on(last_run, p, SECS_PER_DAY),
                None => None,
            },
            RepeatTemplate::Weekdays => next_day_of_kind(last_run, now, false),
            RepeatTemplate::Weekends => next_day_of_kind(last_run, now, true),
            RepeatTemplate::Weekly => match run_periods(last_run, now, 7, 1, always_advance) {
                Some(p) => move_on(last_run, p, 7 * SECS_PER_DAY),
                None => None,
            },
            RepeatTemplate::Biweekly => match run_periods(last_run, now, 7, 2, always_advance) {
                Some(p) => move_on(last_run, p, 2 * 7 * SECS_PER_DAY),
                None => None,
            },
            RepeatTemplate::Monthly => match month_periods_exec(last_run, now, 1, always_advance) {
                Some(m) => months_later(last_run, m, 1),
                None => None,
            },
            RepeatTemplate::Yearly => match month_periods_exec(last_run, now, 12, always_advance) {
                Some(m) => months_later(last_run, m, 12),
                None => None,
            },
        },
        Repeat::Custom { frequency, every } => {
            let e = every as i64;
            match frequency {
                RepeatFrequency::Daily => match run_periods(last_run, now, 1, e, always_advance) {
                    Some(p) => move_on(last_run, p, e * SECS_PER_DAY),
                    None => None,
                },
                RepeatFrequency::Weekly => match run_periods(last_run, now, 7, e, always_advance) {
                    Some(p) => move_on(last_run, p, e * 7 * SECS_PER_DAY),
                    None => None,
                },
                RepeatFrequency::Monthly => match month_periods_exec(last_run, now, e, always_advance) {
                    Some(m) => months_later(last_run, m, e),
                    None => None,
                },
                RepeatFrequency::Yearly => match month_periods_exec(last_run, now, e * 12, always_advance) {
                    Some(m) => months_later(last_run, m, e * 12),
                    None => None,
                },
            }
        },
    }
}

/// The first run of a job seen at `now`, given its next run after its
/// `run_at` (`next`): a passed `run_at` gives way to the next run when there
/// is one; a repeating job whose end is past, or whose first run would fall
/// after its end, is not run (`None`). A one-off job runs at its `run_at`.
pub open spec fn first_choice(job: Job, now: int, next: Option<i64>) -> Option<i64> {
    if job.repeat is None {
        Some(job.run_at)
    } else {
        let at = if job.run_at <= now && next is Some { next->Some_0 } else { job.run_at };
        match job.end_repeat {
            Some(e) => if at > e || now >= e { None } else { Some(at) },
            None => Some(at),
        }
    }
}

/// The run after the one at `run_at`, given the next run (`next`): `None`
/// when there is none or it falls after the job's end.
pub open spec fn again_choice(job: Job, next: Option<i64>) -> Option<i64> {
    match next {
        Some(n) => match job.end_repeat {
            Some(e) => if n <= e { Some(n) } else { None },
            None => Some(n),
        },
        None => None,
    }
}

/// The decision of `first_run`, given the next run after the job's `run_at`.
pub fn first_run_from(job: &Job, now: i64, next: Option<i64>) -> (r: Option<i64>)
    ensures
        r == first_choice(*job, now as int, next),
{
    if job.repeat.is_none() {
        return Some(job.run_at);
    }
    let at = match next {
        Some(n) => if job.run_at <= now { n } else { job.run_at },
        None => job.run_at,
    };
    match job.end_repeat {
        Some(end) => if at > end || now >= end {
            None
        } else {
            Some(at)
        },
        None => Some(at),
    }
}

/// When a job is first scheduled, seen at `now` (see `first_choice`).
pub fn first_run(job: &Job, now: i64) -> (r: Option<i64>)
    requires
        repeat_is_valid(job.repeat),
    ensures
        job.repeat is None ==> r == Some(job.run_at),
        job.repeat matches Some(rep) ==> exists|next: Option<i64>|
            #[trigger] next_run_ok(rep, job.run_at as int, now as int, false, next) && r == first_choice(
                *job,
                now as int,
                next,
            ),
{
    if job.repeat.is_none() {
        return Some(job.run_at);
    }
    let next = next_run_time(job, job.run_at, false, now);
    first_run_from(job, now, next)
}

/// The decision of `run_again`, given the next run after the job's `run_at`.
pub fn run_again_from(job: &Job, next: Option<i64>) -> (r: Option<i64>)
    ensures
        r == again_choice(*job, next),
{
    match next {
        Some(n) => match job.end_repeat {
            Some(end) => if n <= end {
                Some(n)
            } else {
                None
            },
            None => Some(n),
        },
        None => None,
    }
}

/// When a repeating job runs again after the run at its `run_at`, seen at
/// `now`; `None` when it does not repeat or its repetition has ended.
pub fn run_again(job: &Job, now: i64) -> (r: Option<i64>)
    requires
        repeat_is_valid(job.repeat),
    ensures
        job.repeat is None ==> r is None,
        job.repeat matches Some(rep) ==> exists|next: Option<i64>|
            #[trigger] next_run_ok(rep, job.run_at as int, now as int, true, next) && r == again_choice(
                *job,
                next,
            ),
{
    let next = next_run_time(job, job.run_at, true, now);
    run_again_from(job, next)
}

} // verus!
