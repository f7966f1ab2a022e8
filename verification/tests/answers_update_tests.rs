use game_night::answer::{AnswerValue, Attendance};
use game_night::capacity::{choose_participants, pre_partition_by_attendance};
use game_night::clock::Timestamp;
use game_night::open_poll::{apply_updates, get_answer_value, get_no_answers, AnswerUpdate, AnswerUpdates};
use game_night::poll::{Answer, DateSelectionStrategy, NewAnswer, Poll, PollEvent, PollOption, PollStage};
use game_night::users::{EmailSubscription, Role, User, UserId};
use std::collections::HashMap;

fn user(id: i64, strong: bool) -> User {
    User {
        id: UserId(id),
        name: format!("User {id}"),
        symbol: '☽',
        role: Role::Guest,
        email_address: format!("user{id}@example.com"),
        email_subscription: EmailSubscription::Subscribed,
        invited_by: None,
        campaign: None,
        can_update_name: true,
        can_answer_strongly: strong,
        can_update_symbol: true,
        last_active_at: Timestamp { unix_nanos: 0, offset_seconds: 0 },
    }
}

fn poll() -> Poll {
    let option = |id| PollOption { id, starts_at: Timestamp { unix_nanos: 0, offset_seconds: 0 }, promote: false, answers: vec![] };
    Poll {
        id: 1,
        min_participants: 2,
        strategy: DateSelectionStrategy::AtRandom,
        open_until: Timestamp { unix_nanos: 0, offset_seconds: 0 },
        stage: PollStage::Open,
        event: PollEvent {
            id: 1,
            title: String::new(),
            description: String::new(),
            created_by: UserId(1),
            location: 1,
            restrict_to: None,
        },
        options: vec![option(10), option(11), option(12)],
    }
}

fn updates() -> AnswerUpdates {
    let mut options = HashMap::new();
    options.insert(10, AnswerUpdate { yes: true, strong: true });
    options.insert(11, AnswerUpdate { yes: false, strong: true });
    AnswerUpdates { options }
}

#[test]
fn strong_users_keep_strong_answers() {
    let answers = apply_updates(&poll(), &user(2, true), &updates());
    assert_eq!(
        vec![
            (10, NewAnswer { user: UserId(2), value: AnswerValue::yes(Attendance::Required) }),
            (11, NewAnswer { user: UserId(2), value: AnswerValue::veto() }),
            (12, NewAnswer { user: UserId(2), value: AnswerValue::no(false) }),
        ],
        answers
    );
}

#[test]
fn other_users_answer_weakly() {
    assert_eq!(AnswerValue::yes(Attendance::Optional), get_answer_value(&updates(), 10, &user(2, false)));
    assert_eq!(AnswerValue::no(false), get_answer_value(&updates(), 11, &user(2, false)));
    assert_eq!(AnswerValue::no(false), get_answer_value(&updates(), 99, &user(2, true)));
}

#[test]
fn skipping_answers_no_to_every_date() {
    let answers = get_no_answers(&user(3, false), &poll());
    assert_eq!(3, answers.len());
    assert!(answers.iter().all(|(_, a)| a.value == AnswerValue::no(false) && a.user == UserId(3)));
    assert_eq!(vec![10, 11, 12], answers.iter().map(|(id, _)| *id).collect::<Vec<_>>());
}

fn answer(id: i64, value: AnswerValue) -> Answer<User> {
    Answer { id: 0, value, user: user(id, false) }
}

fn answers() -> Vec<Answer<User>> {
    vec![
        answer(1, AnswerValue::yes(Attendance::Optional)),
        answer(2, AnswerValue::yes(Attendance::Required)),
        answer(3, AnswerValue::no(false)),
        answer(4, AnswerValue::yes(Attendance::Optional)),
        answer(5, AnswerValue::yes(Attendance::Required)),
        answer(6, AnswerValue::yes(Attendance::Optional)),
    ]
}

#[test]
fn attendance_splits_the_yes_answers() {
    let (required, optional) = pre_partition_by_attendance(&answers());
    assert_eq!(vec![UserId(2), UserId(5)], required);
    assert_eq!(vec![UserId(1), UserId(4), UserId(6)], optional);
}

#[test]
fn required_participants_are_always_invited() {
    let (accepted, rejected) = choose_participants(&answers(), 1);
    assert_eq!(vec![UserId(2), UserId(5)], accepted);
    assert_eq!(3, rejected.len());
    let (accepted, rejected) = choose_participants(&answers(), 3);
    assert_eq!(3, accepted.len());
    assert_eq!(&[UserId(2), UserId(5)], &accepted[..2]);
    assert!([UserId(1), UserId(4), UserId(6)].contains(&accepted[2]));
    assert_eq!(2, rejected.len());
    let (accepted, rejected) = choose_participants(&answers(), 10);
    assert_eq!(5, accepted.len());
    assert!(rejected.is_empty());
}
