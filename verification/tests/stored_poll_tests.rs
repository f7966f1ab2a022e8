use game_night::answer::Attendance;
use game_night::capacity::CappedPoll;
use game_night::clock::{CalendarDate, TimeOfDay, Timestamp};
use game_night::new_poll::{to_poll_at, NewPollData, NewPollDateOption};
use game_night::poll::{DateSelectionStrategy, PollEvent, PollStage, PollState};
use game_night::register::{verification_email, UserDetails, VerificationEmail};
use game_night::users::{EmailSubscription, Role, User, UserId};

fn user() -> User {
    User {
        id: UserId(1),
        name: "Ada".to_string(),
        symbol: '☉',
        role: Role::Admin,
        email_address: "ada@example.com".to_string(),
        email_subscription: EmailSubscription::Subscribed,
        invited_by: None,
        campaign: None,
        can_update_name: true,
        can_answer_strongly: true,
        can_update_symbol: true,
        last_active_at: Timestamp { unix_nanos: 0, offset_seconds: 0 },
    }
}

#[test]
fn new_poll_is_stored_and_looked_up_again() {
    let data = NewPollData {
        min_participants: 2,
        strategy: DateSelectionStrategy::AtRandom,
        duration_in_hours: 1,
        title: "t".to_string(),
        description: "d".to_string(),
        options: vec![NewPollDateOption {
            date: CalendarDate { year: 2024, month: 1, day: 25 },
            start_time: TimeOfDay { hour: 19, minute: 0, second: 0, nanosecond: 0 },
            enabled: true,
        }],
        restrict_to: None,
        location: 1,
    };
    let now = Timestamp { unix_nanos: 1_700_000_000_000_000_000, offset_seconds: 0 };
    let stored = to_poll_at(data, &user(), now).unwrap().into_unmaterialized(4, 9);
    assert_eq!(4, stored.id);
    assert_eq!(9, stored.event);
    assert_eq!(PollStage::Open, stored.stage);
    let event = PollEvent {
        id: 9,
        title: "t".to_string(),
        description: "d".to_string(),
        created_by: UserId(1),
        location: 1,
        restrict_to: None,
    };
    let poll = stored.into_materialized(event, vec![]);
    assert_eq!(4, poll.id);
    assert_eq!(9, poll.event.id);
    assert_eq!(2, poll.min_participants);
    assert!(poll.options.is_empty());
}

#[test]
fn capped_poll_is_open_until_its_end() {
    let poll: CappedPoll<UserId> = CappedPoll {
        id: 1,
        min_participants: 2,
        max_participants: 5,
        strategy: DateSelectionStrategy::AtRandom,
        description: "d".to_string(),
        open_until: Timestamp { unix_nanos: 100, offset_seconds: 0 },
        closed: false,
        created_by: UserId(1),
        options: vec![],
    };
    let poll = poll.materialize(user(), vec![]);
    assert_eq!(UserId(1), poll.created_by.id);
    assert_eq!(5, poll.max_participants);
    assert!(poll.is_open(Timestamp { unix_nanos: 100, offset_seconds: 0 }));
    assert_eq!(PollState::PendingClosure, poll.state(Timestamp { unix_nanos: 101, offset_seconds: 0 }));
}

#[test]
fn verification_email_sends_the_stored_code() {
    let details = UserDetails { email_address: "ada@example.com".to_string(), name: "Ada".to_string() };
    let (code, email) = verification_email(&details).unwrap();
    assert_eq!("ada@example.com", code.email_address);
    assert_eq!(code.code, email.code);
    assert_eq!("Ada", email.name);
    assert_eq!(6, email.code.len());
    let subject = VerificationEmail { name: String::new(), code: String::new() }.subject();
    assert_eq!("Let's Get You Verified", subject);
}

fn guest(id: i64) -> User {
    User { id: UserId(id), role: Role::Guest, ..user() }
}

fn answer(id: i64, attendance: Attendance) -> game_night::poll::Answer<User> {
    game_night::poll::Answer { id: 0, value: game_night::answer::AnswerValue::yes(attendance), user: guest(id) }
}

fn capped(strategy: DateSelectionStrategy, max_participants: usize) -> CappedPoll<User> {
    let option = |id, answers| game_night::poll::PollOption {
        id,
        starts_at: Timestamp { unix_nanos: 0, offset_seconds: 0 },
        promote: false,
        answers,
    };
    CappedPoll {
        id: 1,
        min_participants: 2,
        max_participants,
        strategy,
        description: String::new(),
        open_until: Timestamp { unix_nanos: 0, offset_seconds: 0 },
        closed: false,
        created_by: user(),
        options: vec![
            option(10, vec![answer(1, Attendance::Optional)]),
            option(11, vec![answer(1, Attendance::Optional), answer(2, Attendance::Required), answer(3, Attendance::Optional)]),
            option(12, vec![answer(4, Attendance::Optional), answer(5, Attendance::Optional)]),
        ],
    }
}

#[test]
fn capped_candidates_need_the_minimum() {
    let ids: Vec<i64> = game_night::capacity::get_candidates(&capped(DateSelectionStrategy::AtRandom, 5))
        .iter()
        .map(|o| o.id)
        .collect();
    assert_eq!(vec![11, 12], ids);
}

#[test]
fn capped_maximum_lets_every_full_date_compete() {
    for _ in 0..10 {
        let (chosen, (accepted, rejected)) =
            game_night::capacity::finalize_capped_poll(&capped(DateSelectionStrategy::ToMaximizeParticipants, 2)).unwrap();
        assert!(chosen.id == 11 || chosen.id == 12);
        assert_eq!(2, accepted.len());
        if chosen.id == 11 {
            assert_eq!(UserId(2), accepted[0]);
            assert_eq!(1, rejected.len());
        }
    }
    let (chosen, (accepted, rejected)) =
        game_night::capacity::finalize_capped_poll(&capped(DateSelectionStrategy::ToMaximizeParticipants, 5)).unwrap();
    assert_eq!(11, chosen.id);
    assert_eq!(3, accepted.len());
    assert!(rejected.is_empty());
}

#[test]
fn verification_email_at_an_instant() {
    let details = UserDetails { email_address: "bo@example.com".to_string(), name: "Bo".to_string() };
    let now = Timestamp { unix_nanos: 1_700_000_000_000_000_000, offset_seconds: 0 };
    let (code, email) = game_night::register::verification_email_at(&details, now).unwrap();
    assert_eq!(now.unix_nanos + 30 * 60_000_000_000, code.valid_until.unix_nanos);
    assert_eq!(code.code, email.code);
    let late = Timestamp { unix_nanos: game_night::clock::LATEST_UNIX_NANOS, offset_seconds: 0 };
    assert!(game_night::register::verification_email_at(&details, late).is_none());
}
