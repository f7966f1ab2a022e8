//! Creating a poll from the form that an organiser fills in.
use vstd::prelude::*;
use crate::answer::{AnswerValue, Attendance};
use crate::clock::{
    cet_instant, cet_instant_of, in_time_range, lemma_utc_hour_start, now_utc_without_subminutes, utc_hour_start, valid_date, valid_time, CalendarDate,
    TimeOfDay, Timestamp, NANOS_PER_HOUR,
};
use crate::poll::{strategy_description, DateSelectionStrategy, NewAnswer, NewPollOption, PollStage, StoredPoll};
use crate::users::{User, UserId};
use crate::autologin::{autologin_link, autologin_param, takes_token, with_query_pair_of};
use crate::finalize::SendOutcome;
use crate::origins::is_clock_reading;
use crate::tokens::{is_drawn_reusable_token, LoginToken, LoginTokenType};

verus! {

/// One day of the form: the date, the start time, and whether it is offered.
#[derive(Debug, Copy, Clone, PartialEq, Eq, Structural)]
pub struct NewPollDateOption {
    pub date: CalendarDate,
    pub start_time: TimeOfDay,
    pub enabled: bool,
}

/// The form for a new poll.
#[derive(Debug)]
pub struct NewPollData {
    pub min_participants: usize,
    pub strategy: DateSelectionStrategy,
    pub duration_in_hours: i64,
    pub title: String,
    pub description: String,
    pub options: Vec<NewPollDateOption>,
    pub restrict_to: Option<i64>,
    pub location: i64,
}

/// An event that has not been stored yet.
#[derive(Debug)]
pub struct NewEvent {
    pub title: String,
    pub description: String,
    pub created_by: UserId,
    pub location: i64,
    pub participants: Vec<UserId>,
    pub starts_at: Option<Timestamp>,
    pub restrict_to: Option<i64>,
    pub cancelled: bool,
    pub parent_id: Option<i64>,
}

/// A poll that has not been stored yet.
#[derive(Debug)]
pub struct NewPoll {
    pub min_participants: usize,
    pub strategy: DateSelectionStrategy,
    pub open_until: Timestamp,
    pub stage: PollStage,
    pub options: Vec<NewPollOption>,
    pub event: NewEvent,
}

impl NewPoll {
    /// The poll as stored under `id`, for the event stored under `event_id`.
    pub fn into_unmaterialized(self, id: i64, event_id: i64) -> (poll: StoredPoll)
        ensures
            poll == (StoredPoll {
                id,
                min_participants: self.min_participants,
                strategy: self.strategy,
                open_until: self.open_until,
                stage: self.stage,
                event: event_id,
            }),
    {
        StoredPoll {
            id,
            min_participants: self.min_participants,
            strategy: self.strategy,
            open_until: self.open_until,
            stage: self.stage,
            event: event_id,
        }
    }
}

/// Why a poll cannot be created from a form.
#[derive(Debug, Copy, Clone, PartialEq, Eq, Structural)]
pub enum NewPollError {
    /// A start time falls into a change of the clocks in Central European Time.
    AmbiguousOffset,
    /// The clock, or the end of the poll, lies outside the range of the `time` crate.
    OutOfRange,
}

/// The days of the form that are offered.
pub open spec fn enabled_options(options: Seq<NewPollDateOption>) -> Seq<NewPollDateOption> {
    options.filter(|o: NewPollDateOption| o.enabled)
}

/// All dates and times of the form can be read.
pub open spec fn valid_options(options: Seq<NewPollDateOption>) -> bool {
    forall|i: int| 0 <= i < options.len() ==> valid_date(#[trigger] options[i].date) && valid_time(options[i].start_time)
}

/// Each offered day has one instant in Central European Time.
pub open spec fn all_unambiguous(options: Seq<NewPollDateOption>) -> bool {
    forall|i: int| 0 <= i < options.len() ==> (#[trigger] cet_instant_of(options[i].date, options[i].start_time)) is Some
}

/// The date of the poll that an offered day becomes: it starts at the day's time in
/// Central European Time, is not promoted, and its creator has answered yes with
/// required attendance.
pub open spec fn is_option_for(option: NewPollOption, day: NewPollDateOption, user: UserId) -> bool {
    &&& Some(option.starts_at) == cet_instant_of(day.date, day.start_time)
    &&& !option.promote
    &&& option.answers@ == seq![NewAnswer { user, value: AnswerValue::Yes { attendance: Attendance::Required } }]
}

/// `options` are the dates that the offered `days` become, in order.
pub open spec fn are_options_for(options: Seq<NewPollOption>, days: Seq<NewPollDateOption>, user: UserId) -> bool {
    &&& options.len() == days.len()
    &&& forall|i: int| 0 <= i < days.len() ==> is_option_for(#[trigger] options[i], days[i], user)
}

/// The date of the poll that one day of the form becomes; an error where its
/// start time is ambiguous.
pub fn to_poll_option(option: &NewPollDateOption, user: &User) -> (result: Result<NewPollOption, NewPollError>)
    requires
        valid_date(option.date),
        valid_time(option.start_time),
    ensures
        result is Err <==> cet_instant_of(option.date, option.start_time) is None,
        result matches Err(e) ==> e == NewPollError::AmbiguousOffset,
        result matches Ok(o) ==> is_option_for(o, *option, user.id),
{
    match cet_instant(option.date, option.start_time) {
        Some(starts_at) => {
            let answers = vec![NewAnswer { user: user.id, value: AnswerValue::yes(Attendance::Required) }];
            assert(answers@ =~= seq![NewAnswer { user: user.id, value: AnswerValue::Yes { attendance: Attendance::Required } }]);
            Ok(NewPollOption { starts_at, promote: false, answers })
        },
        None => Err(NewPollError::AmbiguousOffset),
    }
}

/// The dates of the poll that the offered days of the form become, in order; an
/// error where the start time of one of them is ambiguous.
pub fn to_poll_options(options: &[NewPollDateOption], user: &User) -> (result: Result<Vec<NewPollOption>, NewPollError>)
    requires
        valid_options(options@),
    ensures
        result is Err <==> !all_unambiguous(enabled_options(options@)),
        result matches Err(e) ==> e == NewPollError::AmbiguousOffset,
        result matches Ok(v) ==> are_options_for(v@, enabled_options(options@), user.id),
{
    let mut result: Vec<NewPollOption> = Vec::new();
    let mut i: usize = 0;
    while i < options.len()
        invariant
            i <= options@.len(),
            valid_options(options@),
            all_unambiguous(enabled_options(options@.take(i as int))),
            are_options_for(result@, enabled_options(options@.take(i as int)), user.id),
        decreases options@.len() - i,
    {
        let ghost before = options@.take(i as int);
        assert(options@.take(i + 1) =~= before.push(options@[i as int]));
        proof {
            before.lemma_filter_push(options@[i as int], |o: NewPollDateOption| o.enabled);
        }
        if options[i].enabled {
            match to_poll_option(&options[i], user) {
                Ok(option) => {
                    result.push(option);
                },
                Err(e) => {
                    let ghost now = enabled_options(options@.take(i + 1));
                    assert(now.last() == options@[i as int]);
                    proof {
                        lemma_ambiguous_stays(options@.take(i + 1), options@);
                    }
                    return Err(e);
                },
            }
        }
        i = i + 1;
    }
    assert(options@.take(i as int) =~= options@);
    Ok(result)
}

/// A prefix with an ambiguous offered day makes the whole form ambiguous.
proof fn lemma_ambiguous_stays(prefix: Seq<NewPollDateOption>, all: Seq<NewPollDateOption>)
    requires
        prefix.len() <= all.len(),
        prefix == all.take(prefix.len() as int),
        !all_unambiguous(enabled_options(prefix)),
    ensures
        !all_unambiguous(enabled_options(all)),
    decreases all.len() - prefix.len(),
{
    if prefix.len() < all.len() {
        let next = all.take(prefix.len() + 1int);
        assert(next =~= prefix.push(all[prefix.len() as int]));
        prefix.lemma_filter_push(all[prefix.len() as int], |o: NewPollDateOption| o.enabled);
        let k = choose|k: int| 0 <= k < enabled_options(prefix).len()
            && !(#[trigger] cet_instant_of(enabled_options(prefix)[k].date, enabled_options(prefix)[k].start_time) is Some);
        assert(enabled_options(next)[k] == enabled_options(prefix)[k]);
        lemma_ambiguous_stays(next, all);
    } else {
        assert(prefix =~= all);
    }
}

/// `poll` is what the form `data` becomes for `user`, the poll ending `hours`
/// after `now` at `now`'s offset.
pub open spec fn is_poll_for(poll: NewPoll, data: NewPollData, user: User, now: Timestamp) -> bool {
    &&& poll.min_participants == data.min_participants
    &&& poll.strategy == data.strategy
    &&& poll.open_until.unix_nanos == now.unix_nanos + data.duration_in_hours * NANOS_PER_HOUR
    &&& poll.open_until.offset_seconds == now.offset_seconds
    &&& poll.stage == PollStage::Open
    &&& are_options_for(poll.options@, enabled_options(data.options@), user.id)
    &&& poll.event.title == data.title
    &&& poll.event.description == data.description
    &&& poll.event.created_by == user.id
    &&& poll.event.location == data.location
    &&& poll.event.participants@.len() == 0
    &&& poll.event.starts_at is None
    &&& poll.event.restrict_to == data.restrict_to
    &&& !poll.event.cancelled
    &&& poll.event.parent_id is None
}

/// The poll that the form becomes when it is sent at `now`: open for the given
/// number of hours, with the offered days as its dates and the creator's yes on
/// each. An error where the end of the poll leaves the range of the `time` crate, else where a
/// start time is ambiguous.
pub fn to_poll_at(data: NewPollData, user: &User, now: Timestamp) -> (result: Result<NewPoll, NewPollError>)
    requires
        now.wf(),
        valid_options(data.options@),
    ensures
        result matches Err(NewPollError::OutOfRange) <==> now.checked_add_nanos_is_none(data.duration_in_hours * NANOS_PER_HOUR),
        result matches Err(NewPollError::AmbiguousOffset) <==> !now.checked_add_nanos_is_none(data.duration_in_hours * NANOS_PER_HOUR)
            && !all_unambiguous(enabled_options(data.options@)),
        result matches Ok(p) ==> is_poll_for(p, data, *user, now),
{
    let open_until = match now.checked_add_nanos((data.duration_in_hours as i128) * NANOS_PER_HOUR) {
        Some(t) => t,
        None => return Err(NewPollError::OutOfRange),
    };
    let options = match to_poll_options(data.options.as_slice(), user) {
        Ok(options) => options,
        Err(e) => return Err(e),
    };
    Ok(NewPoll {
        min_participants: data.min_participants,
        strategy: data.strategy,
        open_until,
        stage: PollStage::Open,
        options,
        event: NewEvent {
            title: data.title,
            description: data.description,
            created_by: user.id,
            location: data.location,
            participants: Vec::new(),
            starts_at: None,
            restrict_to: data.restrict_to,
            cancelled: false,
            parent_id: None,
        },
    })
}

/// The poll that the form becomes when it is sent now: `to_poll_at` of the start of
/// the current hour in UTC, so the poll ends on a full hour. An error where the clock
/// reads outside the range of the `time` crate, and otherwise as `to_poll_at` says.
pub fn to_poll(data: NewPollData, user: &User) -> (result: Result<NewPoll, NewPollError>)
    requires
        valid_options(data.options@),
    ensures
        result matches Err(NewPollError::AmbiguousOffset) ==> !all_unambiguous(enabled_options(data.options@)),
        result matches Ok(p) ==> {
            &&& p.open_until.offset_seconds == 0
            &&& (p.open_until.unix_nanos as int) % (NANOS_PER_HOUR as int) == 0
            &&& is_poll_for(p, data, *user, Timestamp {
                unix_nanos: (p.open_until.unix_nanos - data.duration_in_hours * NANOS_PER_HOUR) as i128,
                offset_seconds: 0,
            })
        },
        result matches Ok(p) ==> exists|r: i128| {
            &&& #[trigger] is_clock_reading(r)
            &&& p.open_until.unix_nanos == utc_hour_start(r as int) + data.duration_in_hours * NANOS_PER_HOUR
            &&& r - NANOS_PER_HOUR < p.open_until.unix_nanos - data.duration_in_hours * NANOS_PER_HOUR <= r
        },
        result matches Err(NewPollError::OutOfRange) ==> exists|r: i128| #[trigger] is_clock_reading(r) && (!in_time_range(r as int)
            || (Timestamp { unix_nanos: utc_hour_start(r as int) as i128, offset_seconds: 0 }).checked_add_nanos_is_none(
                data.duration_in_hours * NANOS_PER_HOUR,
            )),
{
    let now = match now_utc_without_subminutes() {
        Some(now) => now,
        None => return Err(NewPollError::OutOfRange),
    };
    let ghost duration = data.duration_in_hours * NANOS_PER_HOUR;
    let ghost r = choose|r: i128| #[trigger] is_clock_reading(r) && in_time_range(r as int)
        && now.unix_nanos == utc_hour_start(r as int);
    proof {
        lemma_utc_hour_start(r as int);
    }
    let result = to_poll_at(data, user, now);
    proof {
        if result is Ok {
            let p = result->Ok_0;
            assert(p.open_until.unix_nanos - duration == now.unix_nanos);
            let h = NANOS_PER_HOUR as int;
            let hours = data.duration_in_hours as int;
            let u = now.unix_nanos as int;
            vstd::arithmetic::div_mod::lemma_mod_multiples_vanish(hours, u, h);
            assert(h * hours == hours * h) by (nonlinear_arith);
            assert(is_clock_reading(r));
        }
        if result matches Err(NewPollError::OutOfRange) {
            assert(now == Timestamp { unix_nanos: utc_hour_start(r as int) as i128, offset_seconds: 0 });
            assert(is_clock_reading(r));
        }
    }
    result
}

/// The email that asks a user to answer a new poll, with links that log them in:
/// to the poll, to skipping it, and to their email settings.
#[derive(Debug, Clone)]
pub struct PollEmail {
    pub name: String,
    pub email_address: String,
    pub poll_url: String,
    pub skip_poll_url: String,
    pub manage_subscription_url: String,
}

/// What telling the subscribed users about a new poll does next.
#[derive(Debug)]
pub enum PollNotificationAction {
    /// Store the three login tokens, then send the email to the user.
    SendEmail { user: UserId, tokens: (LoginToken, LoginToken, LoginToken), email: PollEmail },
    /// Send the push notification about the poll to the user.
    SendPush { user: UserId },
    /// Stop: every notification was sent, or (`all_sent` false) one failed and the run
    /// ends with its error.
    Finished { all_sent: bool },
}

/// `token` is a fresh reusable login token of `user`, valid until `valid_until`, and
/// `link` is `uri` carrying it.
pub open spec fn is_login_link(token: LoginToken, link: String, uri: Seq<char>, user: User, valid_until: Timestamp) -> bool {
    &&& token.type_ == LoginTokenType::Reusable
    &&& is_drawn_reusable_token(token.token@)
    &&& token.user_id == user.id
    &&& token.valid_until == valid_until
    &&& with_query_pair_of(uri, autologin_param(), token.token@) == Some(link@)
}

/// The email action to `user`: to their name and address, each link with a token of
/// its own that is valid until the poll closes.
pub open spec fn is_poll_email(
    action: PollNotificationAction,
    user: User,
    poll_uri: Seq<char>,
    skip_poll_uri: Seq<char>,
    profile_uri: Seq<char>,
    open_until: Timestamp,
) -> bool {
    action matches PollNotificationAction::SendEmail { user: u, tokens, email } && {
        &&& u == user.id
        &&& email.name == user.name
        &&& email.email_address == user.email_address
        &&& is_login_link(tokens.0, email.poll_url, poll_uri, user, open_until)
        &&& is_login_link(tokens.1, email.skip_poll_url, skip_poll_uri, user, open_until)
        &&& is_login_link(tokens.2, email.manage_subscription_url, profile_uri, user, open_until)
    }
}

/// One step of telling the subscribed users about a new poll that is open until
/// `open_until`: after `done` notifications, of which the last went as `last`, the
/// next one. Each user in turn gets the email and then the push notification; the
/// first that fails ends the run with its error, and the run succeeds only where every
/// one was sent. An email needs the three addresses to be URLs that can carry a token.
pub fn next_poll_notification(
    poll_uri: &str,
    skip_poll_uri: &str,
    profile_uri: &str,
    open_until: Timestamp,
    users: &[User],
    done: usize,
    last: SendOutcome,
) -> (action: PollNotificationAction)
    requires
        done <= 2 * users@.len(),
    ensures
        last == SendOutcome::Failed ==> action == (PollNotificationAction::Finished { all_sent: false }),
        last == SendOutcome::Sent && done == 2 * users@.len() ==> action == (PollNotificationAction::Finished { all_sent: true }),
        last == SendOutcome::Sent && done < 2 * users@.len() ==> {
            let user = users@[done as int / 2];
            if done % 2 == 1 {
                action == (PollNotificationAction::SendPush { user: user.id })
            } else if takes_token(poll_uri@) && takes_token(skip_poll_uri@) && takes_token(profile_uri@) {
                is_poll_email(action, user, poll_uri@, skip_poll_uri@, profile_uri@, open_until)
            } else {
                action == (PollNotificationAction::Finished { all_sent: false })
            }
        },
{
    if last == SendOutcome::Failed {
        return PollNotificationAction::Finished { all_sent: false };
    }
    let i = done / 2;
    if i >= users.len() {
        return PollNotificationAction::Finished { all_sent: true };
    }
    let user = &users[i];
    if done % 2 == 1 {
        return PollNotificationAction::SendPush { user: user.id };
    }
    let poll = autologin_link(poll_uri, user.id, open_until);
    let skip = autologin_link(skip_poll_uri, user.id, open_until);
    let profile = autologin_link(profile_uri, user.id, open_until);
    match (poll, skip, profile) {
        (Some((poll_token, poll_url)), Some((skip_token, skip_poll_url)), Some((profile_token, manage_subscription_url))) => {
            PollNotificationAction::SendEmail {
                user: user.id,
                tokens: (poll_token, skip_token, profile_token),
                email: PollEmail {
                    name: user.name.clone(),
                    email_address: user.email_address.clone(),
                    poll_url,
                    skip_poll_url,
                    manage_subscription_url,
                },
            }
        },
        _ => PollNotificationAction::Finished { all_sent: false },
    }
}

/// A strategy as offered in the form: its description and its value.
#[derive(Debug)]
pub struct DateSelectionStrategyOption {
    pub name: String,
    pub value: DateSelectionStrategy,
}

impl DateSelectionStrategyOption {
    pub fn from(value: DateSelectionStrategy) -> (option: DateSelectionStrategyOption)
        ensures
            option.name@ == strategy_description(value),
            option.value == value,
    {
        DateSelectionStrategyOption { name: value.to_string(), value }
    }
}

/// The strategies that a poll can use, in the order in which the form offers them.
pub fn strategies() -> (options: [DateSelectionStrategyOption; 2])
    ensures
        options[0].value == DateSelectionStrategy::AtRandom,
        options[0].name@ == strategy_description(DateSelectionStrategy::AtRandom),
        options[1].value == DateSelectionStrategy::ToMaximizeParticipants,
        options[1].name@ == strategy_description(DateSelectionStrategy::ToMaximizeParticipants),
{
    [
        DateSelectionStrategyOption::from(DateSelectionStrategy::AtRandom),
        DateSelectionStrategyOption::from(DateSelectionStrategy::ToMaximizeParticipants),
    ]
}

} // verus!
