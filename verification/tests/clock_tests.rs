use game_night::calendar::Calendar;
use game_night::clock::{start_of_utc_hour, utc_at, EARLIEST_UNIX_NANOS, LATEST_UNIX_NANOS};
use game_night::clock::{now_utc, now_utc_without_subminutes, CalendarDate, TimeOfDay, Timestamp, NANOS_PER_HOUR, NANOS_PER_SECOND};
use game_night::poll::{PollSchedule, PollState};

#[test]
fn local_dates_follow_the_offset() {
    let t = Timestamp { unix_nanos: 1_704_065_400 * NANOS_PER_SECOND, offset_seconds: 0 };
    assert_eq!(CalendarDate { year: 2023, month: 12, day: 31 }, t.date());
    let shifted = Timestamp { offset_seconds: 3600, ..t };
    assert_eq!(CalendarDate { year: 2024, month: 1, day: 1 }, shifted.date());
}

#[test]
fn days_run_across_a_leap_day() {
    let feb_28 = Timestamp { unix_nanos: 1_709_078_400 * NANOS_PER_SECOND, offset_seconds: 0 };
    let calendar = Calendar::generate(feb_28, 3, &[]);
    assert_eq!(2, calendar.months.len());
    assert_eq!(CalendarDate { year: 2024, month: 2, day: 29 }, calendar.months[0].days[1].date);
    assert_eq!("Thursday", calendar.months[0].days[1].weekday);
    assert_eq!("March", calendar.months[1].name);
    assert_eq!(CalendarDate { year: 2024, month: 3, day: 1 }, calendar.months[1].days[0].date);
}

#[test]
fn calendar_stops_at_the_last_representable_day() {
    let near_end = Timestamp { unix_nanos: 253_402_041_600 * NANOS_PER_SECOND, offset_seconds: 0 };
    let calendar = Calendar::generate(near_end, 5, &[]);
    let days: usize = calendar.months.iter().map(|m| m.days.len()).sum();
    assert_eq!(3, days);
}

#[test]
fn now_without_subminutes_is_a_full_hour() {
    let start = now_utc_without_subminutes().unwrap();
    let now = now_utc().unwrap();
    assert_eq!(0, start.unix_nanos % NANOS_PER_HOUR);
    assert_eq!(0, start.offset_seconds);
    assert!(start.unix_nanos <= now.unix_nanos);
    assert!(now.unix_nanos - start.unix_nanos < 2 * NANOS_PER_HOUR);
}

#[test]
fn midnight_is_the_start_of_the_day() {
    assert_eq!(TimeOfDay { hour: 0, minute: 0, second: 0, nanosecond: 0 }, TimeOfDay::midnight());
}

#[test]
fn adding_time_stays_in_range() {
    let t = Timestamp { unix_nanos: 0, offset_seconds: 0 };
    assert_eq!(Some(Timestamp { unix_nanos: 5, offset_seconds: 0 }), t.checked_add_nanos(5));
    assert_eq!(None, t.checked_add_nanos(i128::MAX));
    assert!(Timestamp { unix_nanos: 6, offset_seconds: 0 }.is_after(&Timestamp { unix_nanos: 5, offset_seconds: 9 }));
}

#[test]
fn poll_end_is_inclusive() {
    let end = Timestamp { unix_nanos: 1000, offset_seconds: 0 };
    let schedule = PollSchedule { closed: false, open_until: end };
    assert_eq!(PollState::Open, schedule.state(end));
    assert!(schedule.is_open(Timestamp { unix_nanos: 999, offset_seconds: 0 }));
    assert_eq!(PollState::PendingClosure, schedule.state(Timestamp { unix_nanos: 1001, offset_seconds: 0 }));
    let closed = PollSchedule { closed: true, open_until: end };
    assert_eq!(PollState::Closed, closed.state(Timestamp { unix_nanos: 0, offset_seconds: 0 }));
    assert!(!PollState::Closed.is_open());
}

#[test]
fn utc_instants_in_range() {
    assert_eq!(Some(Timestamp { unix_nanos: 5, offset_seconds: 0 }), utc_at(5));
    assert!(utc_at(LATEST_UNIX_NANOS).is_some());
    assert!(utc_at(LATEST_UNIX_NANOS + 1).is_none());
    assert!(utc_at(EARLIEST_UNIX_NANOS - 1).is_none());
}

#[test]
fn start_of_a_utc_hour() {
    let t = Timestamp { unix_nanos: 1_704_065_400 * NANOS_SECOND_FOR_TEST + 7, offset_seconds: 0 };
    assert_eq!(Timestamp { unix_nanos: 1_704_063_600 * NANOS_SECOND_FOR_TEST, offset_seconds: 0 }, start_of_utc_hour(t));
}

const NANOS_SECOND_FOR_TEST: i128 = 1_000_000_000;

#[test]
fn range_is_that_of_the_calendar_years_minus_9999_to_9999() {
    let last = utc_at(LATEST_UNIX_NANOS).unwrap();
    assert_eq!(CalendarDate { year: 9999, month: 12, day: 31 }, last.date());
    let first = utc_at(EARLIEST_UNIX_NANOS).unwrap();
    assert_eq!(CalendarDate { year: -9999, month: 1, day: 1 }, first.date());
    assert!(last.checked_add_nanos(1).is_none());
    assert!(last.checked_add_nanos(-1).is_some());
}
