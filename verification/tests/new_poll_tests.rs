use game_night::finalize::SendOutcome;
use game_night::new_poll::{next_poll_notification, PollNotificationAction};
use game_night::answer::{AnswerValue, Attendance};
use game_night::clock::{CalendarDate, TimeOfDay, Timestamp, LATEST_UNIX_NANOS, NANOS_PER_HOUR, NANOS_PER_SECOND};
use game_night::new_poll::{strategies, to_poll, to_poll_at, to_poll_option, to_poll_options, NewPollData, NewPollDateOption, NewPollError};
use game_night::poll::{DateSelectionStrategy, PollStage};
use game_night::users::{EmailSubscription, Role, User, UserId};
use game_night::validation::gte;

fn organiser() -> User {
    User {
        id: UserId(1),
        name: "Ada".to_string(),
        symbol: '☉',
        role: Role::Admin,
        email_address: "ada@example.com".to_string(),
        email_subscription: EmailSubscription::Subscribed,
        invited_by: None,
        campaign: None,
        can_update_name: true,
        can_answer_strongly: true,
        can_update_symbol: true,
        last_active_at: Timestamp { unix_nanos: 0, offset_seconds: 0 },
    }
}

fn day(year: i32, month: u8, d: u8, hour: u8, minute: u8, enabled: bool) -> NewPollDateOption {
    NewPollDateOption {
        date: CalendarDate { year, month, day: d },
        start_time: TimeOfDay { hour, minute, second: 0, nanosecond: 0 },
        enabled,
    }
}

fn data(options: Vec<NewPollDateOption>) -> NewPollData {
    NewPollData {
        min_participants: 3,
        strategy: DateSelectionStrategy::ToMaximizeParticipants,
        duration_in_hours: 48,
        title: "Game night".to_string(),
        description: "Bring snacks".to_string(),
        options,
        restrict_to: Some(2),
        location: 7,
    }
}

#[test]
fn summer_start_times_are_two_hours_ahead_of_utc() {
    let option = to_poll_option(&day(2024, 6, 15, 18, 0, true), &organiser()).unwrap();
    assert_eq!(1_718_467_200 * NANOS_PER_SECOND, option.starts_at.unix_nanos);
    assert_eq!(7200, option.starts_at.offset_seconds);
    assert!(!option.promote);
    assert_eq!(1, option.answers.len());
    assert_eq!(UserId(1), option.answers[0].user);
    assert_eq!(AnswerValue::yes(Attendance::Required), option.answers[0].value);
}

#[test]
fn winter_start_times_are_one_hour_ahead_of_utc() {
    let option = to_poll_option(&day(2024, 1, 25, 13, 0, true), &organiser()).unwrap();
    assert_eq!(1_706_184_000 * NANOS_PER_SECOND, option.starts_at.unix_nanos);
    assert_eq!(3600, option.starts_at.offset_seconds);
}

#[test]
fn ambiguous_start_time_is_an_error() {
    assert!(matches!(
        to_poll_option(&day(2024, 10, 27, 2, 30, true), &organiser()),
        Err(NewPollError::AmbiguousOffset)
    ));
    assert!(matches!(
        to_poll_option(&day(2024, 3, 31, 2, 30, true), &organiser()),
        Err(NewPollError::AmbiguousOffset)
    ));
}

#[test]
fn only_offered_days_become_dates() {
    let options = vec![day(2024, 6, 14, 18, 0, false), day(2024, 6, 15, 18, 0, true), day(2024, 10, 27, 2, 30, false)];
    let dates = to_poll_options(&options, &organiser()).unwrap();
    assert_eq!(1, dates.len());
    assert_eq!(1_718_467_200 * NANOS_PER_SECOND, dates[0].starts_at.unix_nanos);
    let options = vec![day(2024, 6, 15, 18, 0, true), day(2024, 10, 27, 2, 30, true)];
    assert!(to_poll_options(&options, &organiser()).is_err());
}

#[test]
fn poll_from_the_form() {
    let now = Timestamp { unix_nanos: 1_704_065_400 * NANOS_PER_SECOND, offset_seconds: 0 };
    let poll = to_poll_at(data(vec![day(2024, 1, 25, 13, 0, true)]), &organiser(), now).unwrap();
    assert_eq!(3, poll.min_participants);
    assert_eq!(DateSelectionStrategy::ToMaximizeParticipants, poll.strategy);
    assert_eq!(now.unix_nanos + 48 * NANOS_PER_HOUR, poll.open_until.unix_nanos);
    assert_eq!(PollStage::Open, poll.stage);
    assert_eq!(1, poll.options.len());
    assert_eq!("Game night", poll.event.title);
    assert_eq!("Bring snacks", poll.event.description);
    assert_eq!(UserId(1), poll.event.created_by);
    assert_eq!(7, poll.event.location);
    assert!(poll.event.participants.is_empty());
    assert!(poll.event.starts_at.is_none());
    assert_eq!(Some(2), poll.event.restrict_to);
    assert!(!poll.event.cancelled);
    assert!(poll.event.parent_id.is_none());
}

#[test]
fn poll_created_now_ends_on_a_full_hour() {
    let poll = to_poll(data(vec![day(2024, 1, 25, 13, 0, true)]), &organiser()).unwrap();
    assert_eq!(0, poll.open_until.offset_seconds);
    assert_eq!(0, poll.open_until.unix_nanos % NANOS_PER_HOUR);
}

#[test]
fn strategies_in_form_order() {
    let options = strategies();
    assert_eq!(DateSelectionStrategy::AtRandom, options[0].value);
    assert_eq!("at random", options[0].name);
    assert_eq!(DateSelectionStrategy::ToMaximizeParticipants, options[1].value);
    assert_eq!("to maximize participants", options[1].name);
}

#[test]
fn form_values_below_the_minimum_are_refused() {
    assert!(gte(&5usize, 2usize).is_ok());
    assert!(gte(&2usize, 2usize).is_ok());
    let error = gte(&1i64, 2i64).unwrap_err();
    assert_eq!("value does not match expected value", error.message);
}

#[test]
fn poll_ending_beyond_the_last_instant_is_out_of_range() {
    let now = Timestamp { unix_nanos: LATEST_UNIX_NANOS - 47 * NANOS_PER_HOUR, offset_seconds: 0 };
    assert!(matches!(
        to_poll_at(data(vec![day(2024, 1, 25, 13, 0, true)]), &organiser(), now),
        Err(NewPollError::OutOfRange)
    ));
    // The end is checked before the start times: an ambiguous start time does not matter.
    assert!(matches!(
        to_poll_at(data(vec![day(2024, 10, 27, 2, 30, true)]), &organiser(), now),
        Err(NewPollError::OutOfRange)
    ));
    let earlier = Timestamp { unix_nanos: LATEST_UNIX_NANOS - 48 * NANOS_PER_HOUR, offset_seconds: 0 };
    let poll = to_poll_at(data(vec![day(2024, 1, 25, 13, 0, true)]), &organiser(), earlier).unwrap();
    assert_eq!(LATEST_UNIX_NANOS, poll.open_until.unix_nanos);
    assert!(matches!(
        to_poll_at(data(vec![day(2024, 10, 27, 2, 30, true)]), &organiser(), earlier),
        Err(NewPollError::AmbiguousOffset)
    ));
}

#[test]
fn each_subscriber_gets_the_email_then_the_push_notification() {
    let mut other = organiser();
    other.id = UserId(2);
    other.name = "Bo".to_string();
    let users = vec![organiser(), other];
    let closes = Timestamp { unix_nanos: 7 * NANOS_PER_HOUR, offset_seconds: 0 };
    let (poll, skip, profile) = ("https://g.example/event/3", "https://g.example/poll/3/skip", "https://g.example/profile");
    let mut seen = Vec::new();
    let mut done = 0;
    loop {
        match next_poll_notification(poll, skip, profile, closes, &users, done, SendOutcome::Sent) {
            PollNotificationAction::SendEmail { user, tokens, email } => {
                for token in [&tokens.0, &tokens.1, &tokens.2] {
                    assert_eq!(user, token.user_id);
                    assert_eq!(closes, token.valid_until);
                }
                assert_eq!(format!("{poll}?autologin={}", tokens.0.token), email.poll_url);
                assert_eq!(format!("{skip}?autologin={}", tokens.1.token), email.skip_poll_url);
                assert_eq!(format!("{profile}?autologin={}", tokens.2.token), email.manage_subscription_url);
                seen.push(format!("email {}", email.name));
            }
            PollNotificationAction::SendPush { user } => seen.push(format!("push {}", user.0)),
            PollNotificationAction::Finished { all_sent } => {
                assert!(all_sent);
                break;
            }
        }
        done += 1;
    }
    assert_eq!(vec!["email Ada", "push 1", "email Bo", "push 2"], seen);
    assert!(matches!(
        next_poll_notification(poll, skip, profile, closes, &users, 1, SendOutcome::Failed),
        PollNotificationAction::Finished { all_sent: false }
    ));
    assert!(matches!(
        next_poll_notification(poll, "/relative", profile, closes, &users, 0, SendOutcome::Sent),
        PollNotificationAction::Finished { all_sent: false }
    ));
}

#[test]
fn poll_may_end_in_the_last_days_of_the_calendar() {
    let now = Timestamp { unix_nanos: 1_704_704_400 * NANOS_PER_SECOND, offset_seconds: 0 };
    let mut form = data(vec![day(2024, 1, 25, 13, 0, true)]);
    form.duration_in_hours = 69_915_951;
    let poll = to_poll_at(form, &organiser(), now).unwrap();
    assert_eq!(253_402_128_000 * NANOS_PER_SECOND, poll.open_until.unix_nanos);
}
