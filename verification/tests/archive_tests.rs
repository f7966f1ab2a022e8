use game_night::archive::{group_events_by_year, ArchivePage, ArchivedEvent};
use game_night::clock::{Timestamp, NANOS_PER_SECOND};

fn event(seconds: i128, name: &'static str) -> ArchivedEvent<&'static str> {
    ArchivedEvent { date: Timestamp { unix_nanos: seconds * NANOS_PER_SECOND, offset_seconds: 0 }, event: name }
}

#[test]
fn events_are_grouped_by_year_newest_first() {
    let events = vec![
        event(1_704_065_400, "new year's eve 2023"),
        event(1_718_467_200, "summer 2024"),
        event(1_706_184_000, "january 2024"),
        event(1_704_065_400, "also new year's eve 2023"),
    ];
    let groups = group_events_by_year(events);
    assert_eq!(2, groups.len());
    assert_eq!(2024, groups[0].year);
    assert_eq!(vec!["summer 2024", "january 2024"], groups[0].events.iter().map(|e| e.event).collect::<Vec<_>>());
    assert_eq!(2023, groups[1].year);
    assert_eq!(
        vec!["new year's eve 2023", "also new year's eve 2023"],
        groups[1].events.iter().map(|e| e.event).collect::<Vec<_>>()
    );
}

#[test]
fn no_events_no_groups() {
    assert!(group_events_by_year::<()>(vec![]).is_empty());
}

#[test]
fn archive_page_knows_the_year() {
    let now = Timestamp { unix_nanos: 1_718_467_200 * NANOS_PER_SECOND, offset_seconds: 0 };
    let page = ArchivePage::from_events_at(vec![event(1_706_184_000, "x")], now);
    assert_eq!(2024, page.current_year);
    assert_eq!(1, page.events_by_year.len());
    assert!(ArchivePage::<()>::from_events(vec![]).is_some());
}

#[test]
fn one_group_per_year_latest_first() {
    let events = vec![
        event(1_654_041_600, "summer 2022"),
        event(1_717_200_000, "summer 2024"),
        event(1_685_577_600, "summer 2023"),
        event(1_704_844_800, "winter 2024"),
    ];
    let groups = group_events_by_year(events);
    assert_eq!(vec![2024, 2023, 2022], groups.iter().map(|g| g.year).collect::<Vec<_>>());
    assert_eq!(vec!["summer 2024", "winter 2024"], groups[0].events.iter().map(|e| e.event).collect::<Vec<_>>());
}

#[test]
fn years_follow_each_event_at_its_own_offset() {
    let ahead = ArchivedEvent {
        date: Timestamp { unix_nanos: 1_704_065_400 * NANOS_PER_SECOND, offset_seconds: 3600 },
        event: "just after midnight, an hour ahead",
    };
    let later = event(1_704_066_300, "quarter to midnight in UTC");
    let groups = group_events_by_year(vec![ahead, later]);
    assert_eq!(vec![2023, 2024], groups.iter().map(|g| g.year).collect::<Vec<_>>());
}
