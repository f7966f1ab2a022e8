use game_night::finalize::{next_event_notification, EventNotification, EventNotificationAction, SendOutcome};
use game_night::tokens::LoginTokenType;
use game_night::answer::{AnswerValue, Attendance};
use game_night::clock::{CalendarDate, Timestamp, NANOS_PER_SECOND};
use game_night::close_poll::{apply_action, apply_actions, close_poll_page, PollOptionAction, PollOptionChange, PollOptionPatch};
use game_night::finalize::{
    finalize_poll_dry_run, find_option, get_candidates, get_missed_users, get_next_pending_poll, sorted_options,
    try_finalize_poll, veto, veto_date_in_other_polls, FinalizeAction, FinalizeResult,
};
use game_night::poll::{Answer, DateSelectionStrategy, NewAnswer, Poll, PollEvent, PollOption, PollStage};
use game_night::users::{EmailSubscription, Role, User, UserId};

fn at(seconds: i128) -> Timestamp {
    Timestamp { unix_nanos: seconds * NANOS_PER_SECOND, offset_seconds: 0 }
}

fn user(id: i64) -> User {
    User {
        id: UserId(id),
        name: format!("User {id}"),
        symbol: '☽',
        role: Role::Guest,
        email_address: format!("user{id}@example.com"),
        email_subscription: EmailSubscription::Subscribed,
        invited_by: None,
        campaign: None,
        can_update_name: true,
        can_answer_strongly: false,
        can_update_symbol: true,
        last_active_at: at(0),
    }
}

fn answer(id: i64, value: AnswerValue) -> Answer<User> {
    Answer { id: 0, value, user: user(id) }
}

fn option(id: i64, starts_at: Timestamp, answers: Vec<Answer<User>>) -> PollOption<User> {
    PollOption { id, starts_at, promote: false, answers }
}

fn poll(id: i64, strategy: DateSelectionStrategy, open_until: Timestamp, options: Vec<PollOption<User>>) -> Poll {
    Poll {
        id,
        min_participants: 2,
        strategy,
        open_until,
        stage: PollStage::Pending,
        event: PollEvent {
            id,
            title: "Game night".to_string(),
            description: String::new(),
            created_by: UserId(1),
            location: 1,
            restrict_to: None,
        },
        options,
    }
}

fn yes(id: i64) -> Answer<User> {
    answer(id, AnswerValue::yes(Attendance::Optional))
}

fn sample_poll(strategy: DateSelectionStrategy) -> Poll {
    poll(
        1,
        strategy,
        at(1_700_000_000),
        vec![
            option(10, at(1_718_467_200), vec![yes(1), yes(2), answer(3, AnswerValue::no(false))]),
            option(11, at(1_718_553_600), vec![yes(1), yes(2), yes(3)]),
            option(12, at(1_718_640_000), vec![yes(1), yes(2), yes(4), answer(5, AnswerValue::veto())]),
            option(13, at(1_718_726_400), vec![yes(4)]),
        ],
    )
}

#[test]
fn candidates_have_enough_yes_answers_and_no_veto() {
    let ids: Vec<i64> = get_candidates(&sample_poll(DateSelectionStrategy::AtRandom)).iter().map(|o| o.id).collect();
    assert_eq!(vec![10, 11], ids);
}

#[test]
fn maximizing_picks_the_date_most_can_attend() {
    match finalize_poll_dry_run(&sample_poll(DateSelectionStrategy::ToMaximizeParticipants)) {
        FinalizeResult::Success { chosen, invited, missed } => {
            assert_eq!(11, chosen.id);
            assert_eq!(vec![UserId(1), UserId(2), UserId(3)], invited.iter().map(|u| u.id).collect::<Vec<_>>());
            assert_eq!(vec![UserId(4), UserId(5)], missed.iter().map(|u| u.id).collect::<Vec<_>>());
        }
        FinalizeResult::Failure => panic!("expected a date"),
    }
}

#[test]
fn random_pick_is_a_candidate() {
    match finalize_poll_dry_run(&sample_poll(DateSelectionStrategy::AtRandom)) {
        FinalizeResult::Success { chosen, .. } => assert!(chosen.id == 10 || chosen.id == 11),
        FinalizeResult::Failure => panic!("expected a date"),
    }
}

#[test]
fn without_candidates_finalising_fails_and_closes() {
    let lonely = poll(2, DateSelectionStrategy::AtRandom, at(0), vec![option(20, at(0), vec![yes(1)])]);
    assert!(matches!(finalize_poll_dry_run(&lonely), FinalizeResult::Failure));
    let actions = try_finalize_poll(&lonely);
    assert_eq!(2, actions.len());
    assert!(matches!(actions[0], FinalizeAction::SetStage(PollStage::Finalizing)));
    assert!(matches!(actions[1], FinalizeAction::SetStage(PollStage::Closed)));
}

#[test]
fn finalising_plans_vetoes_notifies_and_closes() {
    let actions = try_finalize_poll(&sample_poll(DateSelectionStrategy::ToMaximizeParticipants));
    assert_eq!(5, actions.len());
    assert!(matches!(actions[0], FinalizeAction::SetStage(PollStage::Finalizing)));
    match &actions[1] {
        FinalizeAction::PlanEvent { chosen, invited } => {
            assert_eq!(11, chosen.id);
            assert_eq!(3, invited.len());
        }
        other => panic!("unexpected {other:?}"),
    }
    assert!(matches!(actions[2], FinalizeAction::VetoDateInOtherPolls));
    match &actions[3] {
        FinalizeAction::SendNotificationEmails { invited, missed } => {
            assert_eq!(3, invited.len());
            assert_eq!(2, missed.len());
        }
        other => panic!("unexpected {other:?}"),
    }
    assert!(matches!(actions[4], FinalizeAction::SetStage(PollStage::Closed)));
}

#[test]
fn missed_users_are_those_who_answered_but_are_not_invited() {
    let p = sample_poll(DateSelectionStrategy::AtRandom);
    let missed = get_missed_users(&p, &[user(1), user(4)]);
    assert_eq!(vec![UserId(2), UserId(3), UserId(5)], missed.iter().map(|u| u.id).collect::<Vec<_>>());
}

#[test]
fn earliest_closing_poll_is_finalised_first() {
    let polls = vec![
        poll(1, DateSelectionStrategy::AtRandom, at(300), vec![]),
        poll(2, DateSelectionStrategy::AtRandom, at(100), vec![]),
        poll(3, DateSelectionStrategy::AtRandom, at(100), vec![]),
    ];
    assert_eq!(2, get_next_pending_poll(polls).unwrap().id);
    assert!(get_next_pending_poll(vec![]).is_none());
}

#[test]
fn dates_of_the_same_day_are_vetoed_in_other_polls() {
    let day = CalendarDate { year: 2024, month: 6, day: 16 };
    let p = sample_poll(DateSelectionStrategy::AtRandom);
    assert_eq!(11, find_option(&p, day).unwrap().id);
    assert!(find_option(&p, CalendarDate { year: 2024, month: 7, day: 1 }).is_none());
    let other = poll(2, DateSelectionStrategy::AtRandom, at(0), vec![option(30, at(0), vec![])]);
    let vetoes = veto_date_in_other_polls(&[p, other], day, &user(9));
    assert_eq!(vec![(11, NewAnswer { value: AnswerValue::veto(), user: UserId(9) })], vetoes);
    assert_eq!((13, NewAnswer { value: AnswerValue::veto(), user: UserId(9) }), veto(&option(13, at(0), vec![]), &user(9)));
}

#[test]
fn options_are_sorted_by_start() {
    let p = poll(
        1,
        DateSelectionStrategy::AtRandom,
        at(0),
        vec![option(1, at(300), vec![]), option(2, at(100), vec![]), option(3, at(200), vec![]), option(4, at(100), vec![])],
    );
    assert_eq!(vec![2, 4, 3, 1], sorted_options(&p).iter().map(|o| o.id).collect::<Vec<_>>());
}

#[test]
fn closing_by_hand_promotes_and_vetoes() {
    let organiser = user(1);
    let changes = apply_action(&organiser, &PollOptionAction { id: 10, promote: true, veto: false });
    assert_eq!(vec![PollOptionChange::Patch { option_id: 10, patch: PollOptionPatch { promote: Some(true) } }], changes);
    let changes = apply_actions(
        &organiser,
        &[PollOptionAction { id: 10, promote: false, veto: true }, PollOptionAction { id: 11, promote: true, veto: false }],
    );
    assert_eq!(
        vec![
            PollOptionChange::Patch { option_id: 10, patch: PollOptionPatch { promote: Some(false) } },
            PollOptionChange::AddAnswer { option_id: 10, answer: NewAnswer { value: AnswerValue::veto(), user: UserId(1) } },
            PollOptionChange::Patch { option_id: 11, patch: PollOptionPatch { promote: Some(true) } },
        ],
        changes
    );
}

#[test]
fn close_page_shows_candidates() {
    let mut p = sample_poll(DateSelectionStrategy::AtRandom);
    p.stage = PollStage::Blocked;
    let page = close_poll_page(p);
    assert!(page.close_manually);
    assert_eq!(vec![10, 11], page.candidates.iter().map(|o| o.id).collect::<Vec<_>>());
    assert!(!close_poll_page(sample_poll(DateSelectionStrategy::AtRandom)).close_manually);
}

#[test]
fn invited_are_notified_before_those_who_missed_it() {
    let invited = vec![user(1), user(2)];
    let missed = vec![user(3)];
    let uri = "https://games.example.com/event/9";
    let ends = at(1_000);
    let mut seen = Vec::new();
    let mut done = 0;
    loop {
        match next_event_notification(uri, ends, &invited, &missed, done, SendOutcome::Sent) {
            EventNotificationAction::SendEmail { kind, user, token, email } => {
                assert_eq!(LoginTokenType::Reusable, token.type_);
                assert_eq!(user, token.user_id);
                assert_eq!(ends, token.valid_until);
                assert_eq!(format!("{uri}?autologin={}", token.token), email.event_url);
                assert_eq!(format!("User {}", user.0), email.name);
                assert_eq!(format!("user{}@example.com", user.0), email.email_address);
                seen.push((kind, user));
            }
            EventNotificationAction::SendPush { kind, user } => seen.push((kind, user)),
            EventNotificationAction::Finished { all_sent } => {
                assert!(all_sent);
                break;
            }
        }
        done += 1;
    }
    assert_eq!(
        vec![
            (EventNotification::InvitedEmail, UserId(1)),
            (EventNotification::InvitedPush, UserId(1)),
            (EventNotification::InvitedEmail, UserId(2)),
            (EventNotification::InvitedPush, UserId(2)),
            (EventNotification::MissedEmail, UserId(3)),
            (EventNotification::MissedPush, UserId(3)),
        ],
        seen
    );
}

#[test]
fn first_failed_notification_ends_the_run() {
    let invited = vec![user(1)];
    let uri = "https://games.example.com/event/9";
    assert!(matches!(
        next_event_notification(uri, at(0), &invited, &[], 1, SendOutcome::Failed),
        EventNotificationAction::Finished { all_sent: false }
    ));
    assert!(matches!(
        next_event_notification(uri, at(0), &[], &[], 0, SendOutcome::Sent),
        EventNotificationAction::Finished { all_sent: true }
    ));
    assert!(matches!(
        next_event_notification("not a url", at(0), &invited, &[], 0, SendOutcome::Sent),
        EventNotificationAction::Finished { all_sent: false }
    ));
    assert!(matches!(
        next_event_notification("not a url", at(0), &invited, &[], 1, SendOutcome::Sent),
        EventNotificationAction::SendPush { kind: EventNotification::InvitedPush, user: UserId(1) }
    ));
}
