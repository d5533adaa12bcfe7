//! Calendar values read by the retention policies: instants, civil dates and
//! moments in the local time zone, with the calendar arithmetic that chrono does.
use vstd::prelude::*;

use chrono::{Datelike, TimeZone, Timelike};

verus! {

/// Smallest year that a chrono `NaiveDate` can hold.
pub const MIN_YEAR: i32 = -262143;

/// Largest year that a chrono `NaiveDate` can hold.
pub const MAX_YEAR: i32 = 262142;

/// Lowest year from which any count of days up to `MAX_DAYS_BACK` can be subtracted
/// without leaving chrono's date range.
pub const MIN_YEAR_FOR_DAYS_BACK: i32 = MIN_YEAR + 100_001;

/// Largest count of days that is always subtracted successfully from a date in a year of
/// `MIN_YEAR_FOR_DAYS_BACK` or later (a little under 100,000 years).
pub const MAX_DAYS_BACK: i64 = 36_500_000;

/// Bound on the Unix timestamps from which any count of hours up to `MAX_HOURS_BACK` can be
/// subtracted without leaving chrono's range (chrono's range reaches beyond 8.2e12 seconds
/// on both sides).
pub const MAX_ORDINARY_SECS: i64 = 8_000_000_000_000;

/// Largest count of hours that is always subtracted successfully from an instant whose
/// timestamp lies within `MAX_ORDINARY_SECS` of the epoch (a little over 10,000 years).
pub const MAX_HOURS_BACK: i64 = 90_000_000;

/// Nanoseconds in one second.
pub const NANOS_PER_SEC: u32 = 1_000_000_000;

/// Seconds in one day, a bound on the offset of any time zone from UTC.
pub const SECS_PER_DAY: i64 = 86_400;

/// Whether an instant lies at least a day inside chrono's range, so that its local date and
/// hour exist in every time zone.
pub open spec fn placeable(secs: i64, nanos: u32) -> bool {
    MIN_TIMESTAMP + SECS_PER_DAY <= secs <= MAX_TIMESTAMP - SECS_PER_DAY && nanos < NANOS_PER_SEC
}

/// Gregorian leap year rule (proleptic, so it also covers years before 1 CE).
pub open spec fn is_leap_year(year: int) -> bool {
    year % 4 == 0 && (year % 100 != 0 || year % 400 == 0)
}

/// Number of days in `month` of `year`.
pub open spec fn days_in_month(year: int, month: int) -> int {
    if month == 2 {
        if is_leap_year(year) { 29 } else { 28 }
    } else if month == 4 || month == 6 || month == 9 || month == 11 {
        30
    } else {
        31
    }
}

/// A calendar date that exists and lies in chrono's date range.
pub open spec fn valid_date(year: int, month: int, day: int) -> bool {
    &&& MIN_YEAR <= year <= MAX_YEAR
    &&& 1 <= month <= 12
    &&& 1 <= day <= days_in_month(year, month)
}

/// Lexicographic order on (year, month, day), which is the chronological order of valid dates.
pub open spec fn date_ge(a: (i32, u32, u32), b: (i32, u32, u32)) -> bool {
    ||| a.0 > b.0
    ||| a.0 == b.0 && a.1 > b.1
    ||| a.0 == b.0 && a.1 == b.1 && a.2 >= b.2
}

/// A point on the time line: seconds since the Unix epoch and the nanoseconds within that second.
#[derive(Clone, Copy, Debug, PartialEq, Eq, Structural)]
pub struct Instant {
    pub secs: i64,
    pub nanos: u32,
}

/// Chronological order of instants: `a` is at or after `b`.
pub open spec fn instant_ge(a: Instant, b: Instant) -> bool {
    a.secs > b.secs || (a.secs == b.secs && a.nanos >= b.nanos)
}

/// Whether `a` is at or after `b`.
pub fn instant_at_or_after(a: &Instant, b: &Instant) -> (r: bool)
    ensures
        r == instant_ge(*a, *b),
{
    a.secs > b.secs || (a.secs == b.secs && a.nanos >= b.nanos)
}

/// Whether the date `a` is on or after the date `b`.
pub fn date_on_or_after(a: (i32, u32, u32), b: (i32, u32, u32)) -> (r: bool)
    ensures
        r == date_ge(a, b),
{
    a.0 > b.0 || (a.0 == b.0 && a.1 > b.1) || (a.0 == b.0 && a.1 == b.1 && a.2 >= b.2)
}

/// Whether `year` is a leap year.
pub fn leap_year(year: i32) -> (r: bool)
    requires
        MIN_YEAR <= year <= MAX_YEAR,
    ensures
        r == is_leap_year(year as int),
{
    // Shift by a multiple of 400 so that the remainders are taken of a non-negative number.
    let shifted: u32 = (year as i64 + 400_000) as u32;
    assert(shifted % 4 == (year as int) % 4);
    assert(shifted % 100 == (year as int) % 100);
    assert(shifted % 400 == (year as int) % 400);
    shifted % 4 == 0 && (shifted % 100 != 0 || shifted % 400 == 0)
}

/// Whether (year, month, day) names a date that chrono can represent.
pub fn is_valid_date(year: i32, month: u32, day: u32) -> (r: bool)
    ensures
        r == valid_date(year as int, month as int, day as int),
{
    if year < MIN_YEAR || year > MAX_YEAR || month < 1 || month > 12 || day < 1 {
        return false;
    }
    let last: u32 = if month == 2 {
        if leap_year(year) { 29 } else { 28 }
    } else if month == 4 || month == 6 || month == 9 || month == 11 {
        30
    } else {
        31
    };
    day <= last
}

/// A date of the proleptic Gregorian calendar, as chrono's `NaiveDate` holds it.
#[derive(Clone, Copy, Debug, PartialEq, Eq, Structural)]
pub struct CivilDate {
    year: i32,
    month: u32,
    day: u32,
}

impl View for CivilDate {
    type V = (i32, u32, u32);

    closed spec fn view(&self) -> (i32, u32, u32) {
        (self.year, self.month, self.day)
    }
}

impl CivilDate {
    #[verifier::type_invariant]
    closed spec fn inv(self) -> bool {
        valid_date(self.year as int, self.month as int, self.day as int)
    }

    /// The date with the given year, month and day, where that date exists.
    pub fn new(year: i32, month: u32, day: u32) -> (r: Option<CivilDate>)
        ensures
            r is Some <==> valid_date(year as int, month as int, day as int),
            r matches Some(d) ==> d@ == (year, month, day),
    {
        if is_valid_date(year, month, day) {
            Some(CivilDate { year, month, day })
        } else {
            None
        }
    }

    /// (year, month, day).
    pub fn ymd(&self) -> (r: (i32, u32, u32))
        ensures
            r == self@,
            valid_date(r.0 as int, r.1 as int, r.2 as int),
    {
        proof {
            use_type_invariant(self);
        }
        (self.year, self.month, self.day)
    }

    pub fn year(&self) -> (r: i32)
        ensures
            r == self@.0,
    {
        self.year
    }

    pub fn month(&self) -> (r: u32)
        ensures
            r == self@.1,
    {
        self.month
    }

    pub fn day(&self) -> (r: u32)
        ensures
            r == self@.2,
    {
        self.day
    }

    /// The ISO 8601 week-numbering year and week of this date.
    pub fn iso_week(&self) -> (r: (i32, u32))
        ensures
            r == iso_week_of(self@.0, self@.1, self@.2),
            1 <= r.1 <= 53,
    {
        proof {
            use_type_invariant(self);
        }
        chrono_iso_week(self.year, self.month, self.day)
    }

    /// The date `days` days before this one; `None` where chrono's date range is left.
    pub fn days_before(&self, days: i64) -> (r: Option<CivilDate>)
        ensures
            match date_minus_days(self@.0, self@.1, self@.2, days) {
                Some(t) => r matches Some(d) && d@ == t,
                None => r is None,
            },
            MIN_YEAR_FOR_DAYS_BACK <= self@.0 && 0 <= days <= MAX_DAYS_BACK ==> r is Some,
    {
        proof {
            use_type_invariant(self);
        }
        match chrono_date_minus_days(self.year, self.month, self.day, days) {
            Some(t) => Some(CivilDate { year: t.0, month: t.1, day: t.2 }),
            None => None,
        }
    }
}

/// A moment as the local time zone shows it: the instant, and the local date and hour.
#[derive(Clone, Copy, Debug, PartialEq, Eq, Structural)]
pub struct LocalDateTime {
    instant: Instant,
    date: CivilDate,
    hour: u32,
}

impl View for LocalDateTime {
    type V = (Instant, (i32, u32, u32), u32);

    closed spec fn view(&self) -> (Instant, (i32, u32, u32), u32) {
        (self.instant, self.date@, self.hour)
    }
}

/// The instant of a moment.
pub open spec fn instant_of(t: LocalDateTime) -> Instant {
    t@.0
}

/// The local calendar date of a moment.
pub open spec fn date_of(t: LocalDateTime) -> (i32, u32, u32) {
    t@.1
}

/// The local hour (0 to 23) of a moment.
pub open spec fn hour_of(t: LocalDateTime) -> u32 {
    t@.2
}

/// Days from 1970-01-01 to a date of the proleptic Gregorian calendar, negative before it.
/// Years are counted from March so that the leap day ends a year; a cycle of 400 years has
/// 146,097 days.
pub open spec fn day_number(year: int, month: int, day: int) -> int {
    let y = if month <= 2 { year - 1 } else { year };
    let era = y / 400;
    let year_of_era = y - era * 400;
    let month_from_march = if month > 2 { month - 3 } else { month + 9 };
    let day_of_year = (153 * month_from_march + 2) / 5 + day - 1;
    let day_of_era = year_of_era * 365 + year_of_era / 4 - year_of_era / 100 + day_of_year;
    era * 146097 + day_of_era - 719468
}

/// Whole hours from the Unix epoch to the start of the local hour of (`date`, `hour`),
/// counted on the calendar.
pub open spec fn local_hour_number(date: (i32, u32, u32), hour: u32) -> int {
    day_number(date.0 as int, date.1 as int, date.2 as int) * 24 + hour
}

/// Whether a local date and hour lie within a day of the instant `secs` seconds after the
/// Unix epoch, counted in whole hours: the local time of an instant is its UTC time shifted
/// by the zone's offset, and every offset is less than a day.
pub open spec fn local_time_near(secs: i64, date: (i32, u32, u32), hour: u32) -> bool {
    let utc_hours = (secs as int) / 3600;
    utc_hours - 24 <= local_hour_number(date, hour) <= utc_hours + 24
}

impl LocalDateTime {
    #[verifier::type_invariant]
    closed spec fn inv(self) -> bool {
        self.hour < 24 && self.instant.nanos < NANOS_PER_SEC
    }

    /// The moment at `secs` seconds and `nanos` nanoseconds after the Unix epoch whose local
    /// date is (`year`, `month`, `day`) and local hour is `hour`. `None` exactly when `nanos`
    /// is not below one second, the date does not exist in chrono's range, or the hour is
    /// not below 24.
    pub fn from_local_fields(secs: i64, nanos: u32, year: i32, month: u32, day: u32, hour: u32) -> (r: Option<LocalDateTime>)
        ensures
            r is Some <==> (nanos < NANOS_PER_SEC && valid_date(year as int, month as int, day as int) && hour < 24),
            r matches Some(t) ==> t@ == (Instant { secs, nanos }, (year, month, day), hour),
    {
        if nanos >= NANOS_PER_SEC || hour >= 24 {
            return None;
        }
        match CivilDate::new(year, month, day) {
            Some(date) => Some(LocalDateTime { instant: Instant { secs, nanos }, date, hour }),
            None => None,
        }
    }

    /// The moment at `secs` seconds and `nanos` nanoseconds after the Unix epoch, in the
    /// local time zone: `from_local_fields` of the local date and hour that chrono gives for
    /// the instant. `None` when `nanos` is not below one second, when chrono cannot place
    /// the instant, or when its local date lies outside chrono's date range. An instant at
    /// least a day inside chrono's range is always placed.
    pub fn from_timestamp(secs: i64, nanos: u32) -> (r: Option<LocalDateTime>)
        ensures
            placeable(secs, nanos) ==> r is Some,
            r matches Some(t) ==> placeable(secs, nanos) ==> local_time_near(secs, date_of(t), hour_of(t)),
            r matches Some(t) ==> instant_of(t) == (Instant { secs, nanos }),
            r matches Some(t) ==> valid_date(date_of(t).0 as int, date_of(t).1 as int, date_of(t).2 as int) && hour_of(t) < 24,
            nanos >= NANOS_PER_SEC ==> r is None,
    {
        if nanos >= NANOS_PER_SEC {
            return None;
        }
        match local_calendar_fields(secs, nanos) {
            Some(f) => LocalDateTime::from_local_fields(secs, nanos, f.0, f.1, f.2, f.3),
            None => None,
        }
    }

    /// The current moment in the local time zone: `from_timestamp` of the system clock's
    /// reading. `None` in the cases of `from_timestamp`, and when the clock reads a time
    /// before the Unix epoch or beyond the range of an `i64` timestamp.
    pub fn now() -> (r: Option<LocalDateTime>)
        ensures
            r matches Some(t) ==> instant_of(t).nanos < NANOS_PER_SEC && hour_of(t) < 24 && valid_date(
                date_of(t).0 as int,
                date_of(t).1 as int,
                date_of(t).2 as int,
            ),
            r matches Some(t) ==> placeable(instant_of(t).secs, instant_of(t).nanos) ==> local_time_near(
                instant_of(t).secs,
                date_of(t),
                hour_of(t),
            ),
    {
        match clock_since_epoch() {
            Some(stamp) => {
                if stamp.0 > i64::MAX as u64 {
                    None
                } else {
                    LocalDateTime::from_timestamp(stamp.0 as i64, stamp.1)
                }
            },
            None => None,
        }
    }

    pub fn instant(&self) -> (r: Instant)
        ensures
            r == instant_of(*self),
            r.nanos < NANOS_PER_SEC,
    {
        proof {
            use_type_invariant(self);
        }
        self.instant
    }

    pub fn date(&self) -> (r: CivilDate)
        ensures
            r@ == date_of(*self),
    {
        self.date
    }

    pub fn hour(&self) -> (r: u32)
        ensures
            r == hour_of(*self),
            r < 24,
    {
        proof {
            use_type_invariant(self);
        }
        self.hour
    }

    /// The instant `hours` hours before this moment; `None` where chrono's range is left.
    pub fn hours_before(&self, hours: i64) -> (r: Option<Instant>)
        ensures
            match hours_before(self@.0.secs, self@.0.nanos, hours) {
                Some(t) => r == Some(Instant { secs: t.0, nanos: t.1 }),
                None => r is None,
            },
            r matches Some(b) ==> b.secs == self@.0.secs - 3600 * hours && b.nanos == self@.0.nanos,
            -MAX_ORDINARY_SECS <= self@.0.secs <= MAX_ORDINARY_SECS && 0 <= hours <= MAX_HOURS_BACK ==> r is Some,
    {
        proof {
            use_type_invariant(self);
        }
        match chrono_hours_before(self.instant.secs, self.instant.nanos, hours) {
            Some(t) => Some(Instant { secs: t.0, nanos: t.1 }),
            None => None,
        }
    }
}

/// What chrono's `NaiveDate::iso_week` gives for a date: (ISO year, ISO week).
pub uninterp spec fn iso_week_of(year: i32, month: u32, day: u32) -> (i32, u32);

/// What chrono gives for `date - TimeDelta::days(days)` on a date, `None` where the
/// `TimeDelta` or the resulting date is out of chrono's range.
pub uninterp spec fn date_minus_days(year: i32, month: u32, day: u32, days: i64) -> Option<(i32, u32, u32)>;

/// First second of chrono's range of instants: -262143-01-01 00:00:00 UTC.
pub const MIN_TIMESTAMP: i64 = -8_334_601_228_800;

/// Last second of chrono's range of instants: 262142-12-31 23:59:59 UTC.
pub const MAX_TIMESTAMP: i64 = 8_210_266_876_799;

/// What chrono gives for `datetime - TimeDelta::hours(hours)` on the instant (secs, nanos),
/// nanos below one second: the instant `hours` hours earlier, where both instants lie in
/// chrono's range; `None` otherwise.
pub open spec fn hours_before(secs: i64, nanos: u32, hours: i64) -> Option<(i64, u32)> {
    if MIN_TIMESTAMP <= secs <= MAX_TIMESTAMP && MIN_TIMESTAMP <= secs - 3600 * hours <= MAX_TIMESTAMP {
        Some(((secs - 3600 * hours) as i64, nanos))
    } else {
        None
    }
}

/// Calls chrono's `NaiveDate::from_ymd_opt` and `NaiveDate::iso_week`, and reads the ISO year and
/// week of the result. Trusted: the result is `iso_week_of` of the date, and the week lies in 1..=53
/// (chrono's documentation of `IsoWeek::week`). `from_ymd_opt` is documented to succeed exactly on
/// existing dates with a year in chrono's range, which `requires` states, so the `expect` does not fire.
#[verifier::external_body]
fn chrono_iso_week(year: i32, month: u32, day: u32) -> (r: (i32, u32))
    requires
        valid_date(year as int, month as int, day as int),
    ensures
        r == iso_week_of(year, month, day),
        1 <= r.1 <= 53,
{
    let week = chrono::NaiveDate::from_ymd_opt(year, month, day).expect("valid date").iso_week();
    (week.year(), week.week())
}

/// Calls chrono's `TimeDelta::try_days` and `NaiveDate::checked_sub_signed` (what `date - TimeDelta`
/// calls before it panics on `None`). Trusted: the result is `date_minus_days` of the arguments, and
/// a result is a date in chrono's range (`checked_sub_signed` is documented to return `None` exactly
/// when the result would be out of range). As in `chrono_iso_week`, `from_ymd_opt` succeeds on a
/// valid date. The result exists when at most `MAX_DAYS_BACK` days are taken from a date in a year of
/// at least `MIN_YEAR_FOR_DAYS_BACK`: `try_days` then fits (it fails only beyond about 1.07e11 days) and
/// the result lies fewer than 100,000 years back, inside chrono's range.
#[verifier::external_body]
fn chrono_date_minus_days(year: i32, month: u32, day: u32, days: i64) -> (r: Option<(i32, u32, u32)>)
    requires
        valid_date(year as int, month as int, day as int),
    ensures
        r == date_minus_days(year, month, day, days),
        r matches Some(t) ==> valid_date(t.0 as int, t.1 as int, t.2 as int),
        MIN_YEAR_FOR_DAYS_BACK <= year && 0 <= days <= MAX_DAYS_BACK ==> r is Some,
{
    let date = chrono::NaiveDate::from_ymd_opt(year, month, day).expect("valid date");
    let delta = chrono::TimeDelta::try_days(days)?;
    let result = date.checked_sub_signed(delta)?;
    Some((result.year(), result.month(), result.day()))
}

/// Calls chrono's `TimeDelta::try_hours` and `DateTime::checked_sub_signed` (what `datetime - TimeDelta`
/// calls before it panics on `None`). The subtraction is done on the UTC date and time whatever
/// the zone, so it is made on a `DateTime<Utc>`. Trusted: the result is `hours_before` of the
/// arguments, which restates chrono's source: `DateTime::from_timestamp` accepts exactly the
/// timestamps from `MIN_TIMESTAMP` to `MAX_TIMESTAMP` (the days of `NaiveDate::MIN` to
/// `NaiveDate::MAX`); `TimeDelta::try_hours` accepts every count of hours whose seconds lie
/// within `i64::MAX` milliseconds, which covers every difference of two instants of that range;
/// `NaiveDateTime::checked_sub_signed` returns `None` exactly when the resulting date leaves the
/// range, and `NaiveTime::overflowing_add_signed` keeps the fraction of a non-leap second.
#[verifier::external_body]
fn chrono_hours_before(secs: i64, nanos: u32, hours: i64) -> (r: Option<(i64, u32)>)
    requires
        nanos < NANOS_PER_SEC,
    ensures
        r == hours_before(secs, nanos, hours),
{
    let start = chrono::DateTime::<chrono::Utc>::from_timestamp(secs, nanos)?;
    let delta = chrono::TimeDelta::try_hours(hours)?;
    let result = start.checked_sub_signed(delta)?;
    Some((result.timestamp(), result.timestamp_subsec_nanos()))
}

/// Calls chrono's `Local.timestamp_opt` and reads the local year, month, day and hour of the
/// result. What comes back depends on the machine's time zone, so it has no name. Trusted: the
/// month lies in 1..=12, the day in 1..=31 and the hour in 0..=23 (chrono's `Datelike`/`Timelike`
/// documentation). `None` where chrono cannot place the instant. For an instant at least a day
/// inside chrono's range the result exists and is a date of chrono's range: `timestamp_opt`
/// returns `Single` for every timestamp that `DateTime::from_timestamp` accepts, and the local
/// fields add the zone's `FixedOffset`, which is below one day, to the UTC date and time, so
/// the local date and hour lie within a day of the instant (`local_time_near`).
/// chrono's time-zone lookup stops the program only on unreadable or broken time-zone data on
/// the machine.
#[verifier::external_body]
fn local_calendar_fields(secs: i64, nanos: u32) -> (r: Option<(i32, u32, u32, u32)>)
    ensures
        r matches Some(f) ==> 1 <= f.1 <= 12 && 1 <= f.2 <= 31 && f.3 < 24,
        placeable(secs, nanos) ==> r is Some,
        r matches Some(f) ==> placeable(secs, nanos) ==> valid_date(f.0 as int, f.1 as int, f.2 as int),
        r matches Some(f) ==> placeable(secs, nanos) ==> local_time_near(secs, (f.0, f.1, f.2), f.3),
{
    match chrono::Local.timestamp_opt(secs, nanos).single() {
        Some(dt) => Some((dt.year(), dt.month(), dt.day(), dt.hour())),
        None => None,
    }
}

/// Calls `SystemTime::now` and `SystemTime::duration_since(UNIX_EPOCH)` from std and reads the
/// whole seconds and the nanoseconds of the duration. The result depends on the clock, so it
/// has no name. Trusted: the nanoseconds lie below one second (`Duration::subsec_nanos`);
/// `None` when the clock reads a time before the Unix epoch. Nothing here panics.
#[verifier::external_body]
fn clock_since_epoch() -> (r: Option<(u64, u32)>)
    ensures
        r matches Some(t) ==> t.1 < NANOS_PER_SEC,
{
    match std::time::SystemTime::now().duration_since(std::time::UNIX_EPOCH) {
        Ok(d) => Some((d.as_secs(), d.subsec_nanos())),
        Err(_) => None,
    }
}

} // verus!
