use game_night::calendar::{find_prefill, Calendar, CalendarDayPrefill};
use game_night::clock::{CalendarDate, TimeOfDay, Timestamp, NANOS_PER_SECOND};

fn date(year: i32, month: u8, day: u8) -> CalendarDate {
    CalendarDate { year, month, day }
}

#[test]
fn calendar_splits_days_into_months() {
    let start = Timestamp { unix_nanos: 1_706_184_000 * NANOS_PER_SECOND, offset_seconds: 0 };
    let calendar = Calendar::generate(start, 14, &[]);
    assert_eq!(2, calendar.months.len());
    assert_eq!("January", calendar.months[0].name);
    assert_eq!(7, calendar.months[0].days.len());
    assert_eq!("February", calendar.months[1].name);
    assert_eq!(7, calendar.months[1].days.len());
    let first = &calendar.months[0].days[0];
    assert_eq!(date(2024, 1, 25), first.date);
    assert_eq!(25, first.day);
    assert_eq!("Thursday", first.weekday);
    assert_eq!(CalendarDayPrefill::empty(date(2024, 1, 25)), first.prefill);
    assert_eq!(date(2024, 2, 7), calendar.months[1].days[6].date);
    assert_eq!("Wednesday", calendar.months[1].days[6].weekday);
}

#[test]
fn empty_calendar_has_no_months() {
    let start = Timestamp { unix_nanos: 0, offset_seconds: 0 };
    assert!(Calendar::generate(start, 0, &[]).months.is_empty());
}

#[test]
fn calendar_keeps_what_the_form_held() {
    let start = Timestamp { unix_nanos: 1_706_184_000 * NANOS_PER_SECOND, offset_seconds: 0 };
    let evening = TimeOfDay { hour: 19, minute: 30, second: 0, nanosecond: 0 };
    let kept = CalendarDayPrefill { date: date(2024, 1, 26), enabled: true, start_time: Some(evening) };
    let calendar = Calendar::generate(start, 3, &[kept]);
    assert_eq!(1, calendar.months.len());
    assert_eq!(kept, calendar.months[0].days[1].prefill);
    assert!(!calendar.months[0].days[0].prefill.enabled);
}

#[test]
fn first_prefill_for_a_date_wins() {
    let a = CalendarDayPrefill { date: date(2024, 1, 26), enabled: true, start_time: None };
    let b = CalendarDayPrefill { date: date(2024, 1, 26), enabled: false, start_time: None };
    assert_eq!(a, find_prefill(&[a, b], date(2024, 1, 26)));
    assert_eq!(CalendarDayPrefill::empty(date(2024, 1, 27)), find_prefill(&[a, b], date(2024, 1, 27)));
}
