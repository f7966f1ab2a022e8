//! Instants, calendar dates and times of day, and the calls into the `time` and
//! `time-tz` crates that turn one into another.
use vstd::prelude::*;
use time::{Date, Month, OffsetDateTime, PrimitiveDateTime, Time, UtcOffset};
use time_tz::{timezones, PrimitiveDateTimeExt};
use crate::origins::is_clock_reading;

verus! {

/// The lengths of a second, a minute, an hour and a day, in nanoseconds.
pub const NANOS_PER_SECOND: i128 = 1_000_000_000i128;
pub const NANOS_PER_MINUTE: i128 = 60_000_000_000i128;
pub const NANOS_PER_HOUR: i128 = 3_600_000_000_000i128;
pub const NANOS_PER_DAY: i128 = 86_400_000_000_000i128;

/// The earliest and latest instants that the `time` crate can represent: the start
/// of 1 January -9999 and the last nanosecond of 31 December 9999, in UTC.
pub const EARLIEST_UNIX_NANOS: i128 = -377_705_116_800_000_000_000i128;
pub const LATEST_UNIX_NANOS: i128 = 253_402_300_799_999_999_999i128;

/// The largest UTC offset that the `time` crate can represent, 25:59:59, in seconds.
pub const MAX_OFFSET_SECONDS: i32 = 93_599i32;

/// Nanoseconds from the epoch that fall within the range of the `time` crate.
pub open spec fn in_time_range(nanos: int) -> bool {
    EARLIEST_UNIX_NANOS <= nanos <= LATEST_UNIX_NANOS
}

/// The local time of an instant at an offset, in nanoseconds from the epoch.
pub open spec fn local_nanos(unix_nanos: int, offset_seconds: int) -> int {
    unix_nanos + offset_seconds * NANOS_PER_SECOND
}

/// An instant together with the UTC offset it is displayed in.
/// Two timestamps are ordered by their instant alone.
#[derive(Debug, Copy, Clone, PartialEq, Eq, Structural)]
pub struct Timestamp {
    pub unix_nanos: i128,
    pub offset_seconds: i32,
}

/// A day of the proleptic Gregorian calendar.
#[derive(Debug, Copy, Clone, PartialEq, Eq, Structural)]
pub struct CalendarDate {
    pub year: i32,
    pub month: u8,
    pub day: u8,
}

impl Timestamp {
    /// The `time` crate can represent the timestamp: its offset, its instant in UTC,
    /// and its local time at its offset.
    pub open spec fn wf(self) -> bool {
        &&& -MAX_OFFSET_SECONDS <= self.offset_seconds <= MAX_OFFSET_SECONDS
        &&& in_time_range(self.unix_nanos as int)
        &&& in_time_range(local_nanos(self.unix_nanos as int, self.offset_seconds as int))
    }

    /// Whether `self` is strictly later than `other`.
    pub fn is_after(&self, other: &Timestamp) -> (b: bool)
        ensures
            b == (self.unix_nanos > other.unix_nanos),
    {
        self.unix_nanos > other.unix_nanos
    }

    /// The same offset, `nanos` later; `None` where that leaves the range of the `time` crate.
    pub fn checked_add_nanos(&self, nanos: i128) -> (t: Option<Timestamp>)
        requires
            self.wf(),
        ensures
            t matches Some(t) ==> t.wf() && t.unix_nanos == self.unix_nanos + nanos
                && t.offset_seconds == self.offset_seconds,
            t is None <==> self.checked_add_nanos_is_none(nanos as int),
    {
        let local = self.unix_nanos + (self.offset_seconds as i128) * NANOS_PER_SECOND;
        if nanos > LATEST_UNIX_NANOS - self.unix_nanos || nanos < EARLIEST_UNIX_NANOS - self.unix_nanos
            || nanos > LATEST_UNIX_NANOS - local || nanos < EARLIEST_UNIX_NANOS - local {
            None
        } else {
            Some(Timestamp { unix_nanos: self.unix_nanos + nanos, offset_seconds: self.offset_seconds })
        }
    }

    /// Adding `nanos` leaves the range of the `time` crate, in UTC or at the offset.
    pub open spec fn checked_add_nanos_is_none(self, nanos: int) -> bool {
        !(in_time_range(self.unix_nanos + nanos)
            && in_time_range(local_nanos(self.unix_nanos + nanos, self.offset_seconds as int)))
    }

    /// The calendar day on which this instant falls at its own offset.
    pub fn date(&self) -> (d: CalendarDate)
        requires
            self.wf(),
        ensures
            d == local_date_of(self.unix_nanos, self.offset_seconds),
            valid_date(d),
            no_earlier_year_after(*self, d),
    {
        local_date(*self)
    }
}

/// A time of day, to the nanosecond.
#[derive(Debug, Copy, Clone, PartialEq, Eq, Structural)]
pub struct TimeOfDay {
    pub hour: u8,
    pub minute: u8,
    pub second: u8,
    pub nanosecond: u32,
}

/// A time of day that the `time` crate can represent.
pub open spec fn valid_time(t: TimeOfDay) -> bool {
    t.hour < 24 && t.minute < 60 && t.second < 60 && t.nanosecond < 1_000_000_000
}

impl TimeOfDay {
    /// Midnight, the start of a day.
    pub fn midnight() -> (t: TimeOfDay)
        ensures
            t == (TimeOfDay { hour: 0, minute: 0, second: 0, nanosecond: 0 }),
            valid_time(t),
    {
        TimeOfDay { hour: 0, minute: 0, second: 0, nanosecond: 0 }
    }
}

pub open spec fn is_leap_year(year: int) -> bool {
    year % 4 == 0 && (year % 100 != 0 || year % 400 == 0)
}

pub open spec fn days_in_month(year: int, month: int) -> int {
    if month == 2 {
        if is_leap_year(year) { 29 } else { 28 }
    } else if month == 4 || month == 6 || month == 9 || month == 11 {
        30
    } else {
        31
    }
}

/// A date that the `time` crate can represent.
pub open spec fn valid_date(d: CalendarDate) -> bool {
    &&& -9999 <= d.year <= 9999
    &&& 1 <= d.month <= 12
    &&& 1 <= d.day <= days_in_month(d.year as int, d.month as int)
}

/// The English name of a month, as the `time` crate writes it.
pub open spec fn month_name_of(month: u8) -> Seq<char> {
    if month == 1 { "January"@ }
    else if month == 2 { "February"@ }
    else if month == 3 { "March"@ }
    else if month == 4 { "April"@ }
    else if month == 5 { "May"@ }
    else if month == 6 { "June"@ }
    else if month == 7 { "July"@ }
    else if month == 8 { "August"@ }
    else if month == 9 { "September"@ }
    else if month == 10 { "October"@ }
    else if month == 11 { "November"@ }
    else { "December"@ }
}

/// The English name of a weekday counted from Monday (0) to Sunday (6).
pub open spec fn weekday_name_of(days_from_monday: u8) -> Seq<char> {
    if days_from_monday == 0 { "Monday"@ }
    else if days_from_monday == 1 { "Tuesday"@ }
    else if days_from_monday == 2 { "Wednesday"@ }
    else if days_from_monday == 3 { "Thursday"@ }
    else if days_from_monday == 4 { "Friday"@ }
    else if days_from_monday == 5 { "Saturday"@ }
    else { "Sunday"@ }
}

/// The local calendar day of an instant at a given offset, as the `time` crate computes it.
pub uninterp spec fn local_date_of(unix_nanos: i128, offset_seconds: i32) -> CalendarDate;

/// The day after a valid date, where the `time` crate can represent it: the next day
/// of the month, else the first of the next month, else New Year's Day of the next
/// year up to the year 9999.
pub open spec fn next_date_of(d: CalendarDate) -> Option<CalendarDate> {
    if d.day < days_in_month(d.year as int, d.month as int) {
        Some(CalendarDate { year: d.year, month: d.month, day: (d.day + 1) as u8 })
    } else if d.month < 12 {
        Some(CalendarDate { year: d.year, month: (d.month + 1) as u8, day: 1 })
    } else if d.year < 9999 {
        Some(CalendarDate { year: (d.year + 1) as i32, month: 1, day: 1 })
    } else {
        None
    }
}

/// The number of days from 1 January 1970 to a date of the Gregorian calendar,
/// counting years from March so that a leap day ends its year.
pub open spec fn days_from_civil(d: CalendarDate) -> int {
    let y: int = if d.month <= 2 { d.year - 1 } else { d.year as int };
    let m: int = (d.month + 9) % 12;
    365 * y + y / 4 - y / 100 + y / 400 + (153 * m + 2) / 5 + d.day - 1 - 719_468
}

/// The weekday of a date, counted in days from Monday; 1 January 1970 was a Thursday.
pub open spec fn weekday_index_of(d: CalendarDate) -> u8 {
    ((days_from_civil(d) + 3) % 7) as u8
}

/// At the offset of `t`, no instant from `t` on that the `time` crate can represent
/// there falls in a year before the year of `d`.
pub open spec fn no_earlier_year_after(t: Timestamp, d: CalendarDate) -> bool {
    forall|u: i128| t.unix_nanos <= u && in_time_range(u as int)
        && in_time_range(local_nanos(u as int, t.offset_seconds as int))
        ==> d.year <= #[trigger] local_date_of(u, t.offset_seconds).year
}

/// Calls `OffsetDateTime::from_unix_timestamp_nanos`, `UtcOffset::from_whole_seconds`,
/// `OffsetDateTime::checked_to_offset` and `OffsetDateTime::date`. Claimed: the date
/// depends on the instant and the offset alone, is a date that `time` can hold, is
/// the day in which the local time falls, counted in whole days from 1 January 1970,
/// and at one offset a later instant falls in the same year or a later one, as the
/// calendar goes.
#[verifier::external_body]
fn local_date(t: Timestamp) -> (d: CalendarDate)
    requires
        t.wf(),
    ensures
        d == local_date_of(t.unix_nanos, t.offset_seconds),
        valid_date(d),
        days_from_civil(d) == (t.unix_nanos + t.offset_seconds * NANOS_PER_SECOND) / NANOS_PER_DAY as int,
        no_earlier_year_after(t, d),
{
    let offset = UtcOffset::from_whole_seconds(t.offset_seconds).unwrap();
    let local = OffsetDateTime::from_unix_timestamp_nanos(t.unix_nanos)
        .unwrap()
        .checked_to_offset(offset)
        .unwrap()
        .date();
    CalendarDate { year: local.year(), month: u8::from(local.month()), day: local.day() }
}

/// The instant at which a date and time of day fall in Central European Time, where
/// that is one instant; nothing where the local time is skipped or occurs twice
/// when the clocks change.
pub uninterp spec fn cet_instant_of(d: CalendarDate, t: TimeOfDay) -> Option<Timestamp>;

/// Calls `PrimitiveDateTimeExt::assume_timezone` of `time_tz` with the CET zone of its
/// database and `OffsetResult::take`, which gives nothing where the offset is ambiguous
/// or missing. Claimed: the result depends on the date and time alone.
#[verifier::external_body]
pub(crate) fn cet_instant(d: CalendarDate, t: TimeOfDay) -> (instant: Option<Timestamp>)
    requires
        valid_date(d),
        valid_time(t),
    ensures
        instant == cet_instant_of(d, t),
{
    let date = Date::from_calendar_date(d.year, Month::try_from(d.month).unwrap(), d.day).unwrap();
    let time = Time::from_hms_nano(t.hour, t.minute, t.second, t.nanosecond).unwrap();
    PrimitiveDateTime::new(date, time).assume_timezone(timezones::db::CET).take().map(
        |i| Timestamp { unix_nanos: i.unix_timestamp_nanos(), offset_seconds: i.offset().whole_seconds() },
    )
}

/// Calls `OffsetDateTime::replace_minute`, `replace_second` and `replace_nanosecond`
/// with zero. Claimed: the local time goes back to the start of its hour, so the
/// instant goes back by the local time's remainder modulo an hour, and the offset stays.
#[verifier::external_body]
pub(crate) fn start_of_hour(t: Timestamp) -> (s: Timestamp)
    requires
        t.wf(),
    ensures
        s.offset_seconds == t.offset_seconds,
        s.unix_nanos == t.unix_nanos - (t.unix_nanos + t.offset_seconds * NANOS_PER_SECOND) % (NANOS_PER_HOUR as int),
{
    let offset = UtcOffset::from_whole_seconds(t.offset_seconds).unwrap();
    let local = OffsetDateTime::from_unix_timestamp_nanos(t.unix_nanos).unwrap().to_offset(offset);
    let start = local.replace_minute(0).unwrap().replace_second(0).unwrap().replace_nanosecond(0).unwrap();
    Timestamp { unix_nanos: start.unix_timestamp_nanos(), offset_seconds: t.offset_seconds }
}

/// Calls `OffsetDateTime::now_utc` and `OffsetDateTime::unix_timestamp_nanos`.
/// Claimed: only that the result is the clock's reading; its value is the machine's.
#[verifier::external_body]
pub(crate) fn current_unix_nanos() -> (nanos: i128)
    ensures
        is_clock_reading(nanos),
{
    OffsetDateTime::now_utc().unix_timestamp_nanos()
}

/// The instant `unix_nanos` nanoseconds after the epoch, in UTC, where it lies in the
/// range of the `time` crate.
pub fn utc_at(unix_nanos: i128) -> (t: Option<Timestamp>)
    ensures
        t is Some <==> EARLIEST_UNIX_NANOS <= unix_nanos <= LATEST_UNIX_NANOS,
        t matches Some(t) ==> t == (Timestamp { unix_nanos, offset_seconds: 0 }) && t.wf(),
{
    if EARLIEST_UNIX_NANOS <= unix_nanos && unix_nanos <= LATEST_UNIX_NANOS {
        Some(Timestamp { unix_nanos, offset_seconds: 0 })
    } else {
        None
    }
}

/// The current instant in UTC, where it lies in the range of the `time` crate: `utc_at` of
/// the clock's reading.
pub fn now_utc() -> (t: Option<Timestamp>)
    ensures
        t matches Some(t) ==> t.wf() && t.offset_seconds == 0 && is_clock_reading(t.unix_nanos),
        t is None ==> exists|r: i128| #[trigger] is_clock_reading(r) && !in_time_range(r as int),
{
    let nanos = current_unix_nanos();
    let t = utc_at(nanos);
    assert(t is None ==> is_clock_reading(nanos) && !in_time_range(nanos as int));
    t
}

/// The start of the UTC hour in which the instant `nanos` falls.
pub open spec fn utc_hour_start(nanos: int) -> int {
    nanos - nanos % (NANOS_PER_HOUR as int)
}

/// The start of an hour is a whole hour, and the instant lies within the hour from it.
pub proof fn lemma_utc_hour_start(nanos: int)
    ensures
        utc_hour_start(nanos) % (NANOS_PER_HOUR as int) == 0,
        utc_hour_start(nanos) <= nanos < utc_hour_start(nanos) + NANOS_PER_HOUR,
{
    let h = NANOS_PER_HOUR as int;
    assert((nanos - nanos % h) % h == 0 && 0 <= nanos % h < h) by (nonlinear_arith)
        requires
            h == 3_600_000_000_000,
    ;
}

/// An instant in UTC without its minutes, seconds and nanoseconds: the start of its hour.
pub fn start_of_utc_hour(now: Timestamp) -> (start: Timestamp)
    requires
        now.wf(),
        now.offset_seconds == 0,
    ensures
        start.offset_seconds == 0,
        start.unix_nanos == now.unix_nanos - (now.unix_nanos as int) % (NANOS_PER_HOUR as int),
        start.wf(),
        (start.unix_nanos as int) % (NANOS_PER_HOUR as int) == 0,
{
    let start = start_of_hour(now);
    proof {
        let u = now.unix_nanos as int;
        let h = NANOS_PER_HOUR as int;
        assert(start.unix_nanos == u - u % h);
        assert((u - u % h) % h == 0 && u - u % h <= u && u - u % h >= EARLIEST_UNIX_NANOS) by (nonlinear_arith)
            requires
                h == 3_600_000_000_000,
                EARLIEST_UNIX_NANOS <= u,
                EARLIEST_UNIX_NANOS == -377_705_116_800_000_000_000int,
        ;
    }
    start
}

/// The current instant in UTC, without its minutes, seconds and nanoseconds,
/// where it lies in the range of the `time` crate: `start_of_utc_hour` of `now_utc`.
pub fn now_utc_without_subminutes() -> (t: Option<Timestamp>)
    ensures
        t matches Some(t) ==> t.wf() && t.offset_seconds == 0 && (t.unix_nanos as int) % (NANOS_PER_HOUR as int) == 0,
        t matches Some(t) ==> exists|r: i128| #[trigger] is_clock_reading(r) && in_time_range(r as int)
            && t.unix_nanos == utc_hour_start(r as int),
        t is None ==> exists|r: i128| #[trigger] is_clock_reading(r) && !in_time_range(r as int),
{
    match now_utc() {
        Some(now) => {
            let start = start_of_utc_hour(now);
            assert(is_clock_reading(now.unix_nanos) && in_time_range(now.unix_nanos as int)
                && start.unix_nanos == utc_hour_start(now.unix_nanos as int));
            Some(start)
        },
        None => None,
    }
}

/// Calls `Date::from_calendar_date` and `Date::next_day`. Claimed: the day after, as
/// the calendar goes, up to the last day that `time` can hold.
#[verifier::external_body]
pub(crate) fn next_date(d: CalendarDate) -> (next: Option<CalendarDate>)
    requires
        valid_date(d),
    ensures
        next == next_date_of(d),
        next matches Some(n) ==> valid_date(n),
{
    let date = Date::from_calendar_date(d.year, Month::try_from(d.month).unwrap(), d.day).unwrap();
    date.next_day().map(|n| CalendarDate { year: n.year(), month: u8::from(n.month()), day: n.day() })
}

/// Calls `Month::try_from` and the `Display` of `Month`, which writes the English name.
#[verifier::external_body]
pub(crate) fn month_name(month: u8) -> (name: String)
    requires
        1 <= month <= 12,
    ensures
        name@ == month_name_of(month),
{
    Month::try_from(month).unwrap().to_string()
}

/// Calls `Date::from_calendar_date`, `Date::weekday` and the `Display` of `Weekday`,
/// which writes the English name, as the long weekday format of `Date::format` does.
#[verifier::external_body]
pub(crate) fn weekday_name(d: CalendarDate) -> (name: String)
    requires
        valid_date(d),
    ensures
        name@ == weekday_name_of(weekday_index_of(d)),
{
    let date = Date::from_calendar_date(d.year, Month::try_from(d.month).unwrap(), d.day).unwrap();
    date.weekday().to_string()
}

} // verus!
