//! Finalising a poll: which dates can be chosen, which one is, who is invited and
//! who is told that they missed it, and the steps that store the outcome.
use vstd::prelude::*;
use crate::poll::{
    lemma_most_yes, most_yes, option_views, said_yes, vetoed, yes_count, Answer, DateSelectionStrategy, Poll, PollOption,
    PollOptionView,
};
use crate::answer::AnswerValue;
use crate::origins::drawn_at_random;
use crate::autologin::{autologin_link, autologin_param, takes_token, with_query_pair_of};
use crate::clock::{local_date_of, CalendarDate, Timestamp};
use crate::tokens::{is_drawn_reusable_token, LoginToken, LoginTokenType};
use crate::poll::{NewAnswer, PollStage};
use crate::sorting::{first_by_key, is_stable_order, stable_order};
use crate::users::{User, UserId};
use rand::seq::IndexedRandom;

verus! {

broadcast use Seq::lemma_filter_push, Seq::lemma_filter_len;

/// A date that nobody vetoed and that enough people can attend.
pub open spec fn is_candidate(min_participants: usize) -> spec_fn(PollOptionView<User>) -> bool {
    |o: PollOptionView<User>| !vetoed(o.answers) && yes_count(o.answers) >= min_participants
}

/// The dates of a poll that the event may take place on.
pub open spec fn candidates_of(options: Seq<PollOptionView<User>>, min_participants: usize) -> Seq<PollOptionView<User>> {
    options.filter(is_candidate(min_participants))
}

/// The users who answered yes, in the order of the answers.
pub open spec fn yes_users(answers: Seq<Answer<User>>) -> Seq<User> {
    answers.filter(said_yes::<User>()).map_values(|a: Answer<User>| a.user)
}

/// The users of a sequence of answers, in order.
pub open spec fn answer_users(answers: Seq<Answer<User>>) -> Seq<User> {
    answers.map_values(|a: Answer<User>| a.user)
}

/// The users of all answers to all dates, in order, with repetitions.
pub open spec fn all_answer_users(options: Seq<PollOptionView<User>>) -> Seq<User>
    decreases options.len(),
{
    if options.len() == 0 {
        Seq::empty()
    } else {
        all_answer_users(options.drop_last()) + answer_users(options.last().answers)
    }
}

/// Some user in `users` has the identifier `id`.
pub open spec fn has_user_id(users: Seq<User>, id: UserId) -> bool {
    exists|i: int| 0 <= i < users.len() && users[i].id == id
}

/// The first user of each identifier, in order.
pub open spec fn first_by_id(users: Seq<User>) -> Seq<User>
    decreases users.len(),
{
    if users.len() == 0 {
        Seq::empty()
    } else if has_user_id(users.drop_last(), users.last().id) {
        first_by_id(users.drop_last())
    } else {
        first_by_id(users.drop_last()).push(users.last())
    }
}

/// Users whose identifier is not among `invited`.
pub open spec fn not_among(invited: Seq<User>) -> spec_fn(User) -> bool {
    |u: User| !has_user_id(invited, u.id)
}

/// The users who answered the poll but were not invited, each once.
pub open spec fn missed_users(options: Seq<PollOptionView<User>>, invited: Seq<User>) -> Seq<User> {
    first_by_id(all_answer_users(options)).filter(not_among(invited))
}

/// No two users in the sequence share an identifier.
pub open spec fn distinct_ids(users: Seq<User>) -> bool {
    forall|i: int, j: int| 0 <= i < j < users.len() ==> users[i].id != users[j].id
}

/// Calls `IndexedRandom::choose` with the thread-local generator. Claimed: `None`
/// exactly for an empty slice, and otherwise one of its elements, drawn with the
/// generator; which one is chance.
#[verifier::external_body]
pub(crate) fn choose_random<T>(items: &[T]) -> (chosen: Option<&T>)
    ensures
        chosen is None <==> items@.len() == 0,
        chosen matches Some(c) ==> exists|k: int| 0 <= k < items@.len() && *c == items@[k],
        chosen matches Some(c) ==> drawn_at_random(*c),
{
    items.choose(&mut rand::rng())
}

/// The dates that nobody vetoed and that at least the minimum number of people can attend.
pub fn get_candidates(poll: &Poll) -> (candidates: Vec<PollOption<User>>)
    ensures
        option_views(candidates@) == candidates_of(option_views(poll.options@), poll.min_participants),
{
    let ghost pred = is_candidate(poll.min_participants);
    let mut candidates: Vec<PollOption<User>> = Vec::new();
    let mut i: usize = 0;
    while i < poll.options.len()
        invariant
            i <= poll.options@.len(),
            pred == is_candidate(poll.min_participants),
            option_views(candidates@) == option_views(poll.options@.take(i as int)).filter(pred),
        decreases poll.options@.len() - i,
    {
        let option = &poll.options[i];
        assert(option_views(poll.options@.take(i + 1)) =~= option_views(poll.options@.take(i as int)).push(option@));
        if !option.has_veto() && option.count_yes_answers() >= poll.min_participants {
            let ghost before = candidates@;
            candidates.push(option.duplicate());
            assert(option_views(candidates@) =~= option_views(before).push(option@));
        }
        i = i + 1;
    }
    assert(poll.options@.take(i as int) =~= poll.options@);
    candidates
}

/// The largest number of yes answers that any of the dates has; `None` without dates.
pub fn max_participants(options: &[PollOption<User>]) -> (max: Option<usize>)
    ensures
        max is None <==> options@.len() == 0,
        max matches Some(m) ==> m == most_yes(options@),
        max matches Some(m) ==> (exists|i: int| 0 <= i < options@.len() && yes_count(options@[i]@.answers) == m)
            && (forall|i: int| 0 <= i < options@.len() ==> yes_count(options@[i]@.answers) <= m),
{
    let mut max: Option<usize> = None;
    let mut i: usize = 0;
    while i < options.len()
        invariant
            i <= options@.len(),
            max is None <==> i == 0,
            max matches Some(m) ==> m == most_yes(options@.take(i as int)),
        decreases options@.len() - i,
    {
        let count = options[i].count_yes_answers();
        assert(options@.take(i + 1).drop_last() =~= options@.take(i as int));
        assert(options@.take(i + 1).last() == options@[i as int]);
        assert(most_yes(options@.take(0)) == 0);
        match max {
            None => { max = Some(count); },
            Some(m) => {
                if count > m {
                    max = Some(count);
                }
            },
        }
        i = i + 1;
    }
    assert(options@.take(i as int) =~= options@);
    proof {
        if options@.len() > 0 {
            lemma_most_yes(options@);
        }
    }
    max
}

/// Picks the date of the event among the candidates: any of them at random, or any of
/// those with the most yes answers, depending on the strategy.
pub fn choose_option(candidates: Vec<PollOption<User>>, strategy: DateSelectionStrategy) -> (chosen: Option<PollOption<User>>)
    ensures
        chosen is None <==> candidates@.len() == 0,
        chosen matches Some(c) ==> exists|k: int| 0 <= k < candidates@.len() && c@ == candidates@[k]@,
        chosen matches Some(c) ==> exists|o: PollOption<User>| #[trigger] drawn_at_random(o) && o@ == c@,
        strategy == DateSelectionStrategy::ToMaximizeParticipants ==> (chosen matches Some(c)
            ==> forall|k: int| 0 <= k < candidates@.len() ==> yes_count(candidates@[k]@.answers) <= yes_count(c@.answers)),
{
    match strategy {
        DateSelectionStrategy::AtRandom => {
            match choose_random(candidates.as_slice()) {
                Some(c) => {
                    let d = c.duplicate();
                    assert(drawn_at_random(*c) && (*c)@ == d@);
                    Some(d)
                },
                None => None,
            }
        },
        DateSelectionStrategy::ToMaximizeParticipants => {
            // There are potentially multiple poll options that have a "maximal"
            // number of participants, so we choose between all of them at random.
            let max = max_participants(candidates.as_slice());
            let mut best: Vec<PollOption<User>> = Vec::new();
            match max {
                None => {
                    return None;
                },
                Some(m) => {
                    let mut i: usize = 0;
                    while i < candidates.len()
                        invariant
                            i <= candidates@.len(),
                            forall|k: int| 0 <= k < candidates@.len() ==> yes_count(candidates@[k]@.answers) <= m,
                            exists|k: int| 0 <= k < candidates@.len() && yes_count(candidates@[k]@.answers) == m,
                            forall|j: int| 0 <= j < best@.len() ==> (exists|k: int| 0 <= k < candidates@.len() && #[trigger] best@[j]@ == candidates@[k]@),
                            forall|j: int| 0 <= j < best@.len() ==> yes_count(#[trigger] best@[j]@.answers) == m,
                            (exists|k: int| 0 <= k < i && yes_count(candidates@[k]@.answers) == m) ==> best@.len() > 0,
                        decreases candidates@.len() - i,
                    {
                        if candidates[i].count_yes_answers() >= m {
                            let d = candidates[i].duplicate();
                            best.push(d);
                            assert(best@[best@.len() - 1]@ == candidates@[i as int]@);
                        }
                        i = i + 1;
                    }
                },
            }
            match choose_random(best.as_slice()) {
                Some(c) => {
                    let d = c.duplicate();
                    assert(drawn_at_random(*c) && (*c)@ == d@);
                    Some(d)
                },
                None => None,
            }
        },
    }
}

/// The users who answered yes.
pub fn choose_participants(answers: &[Answer<User>]) -> (invited: Vec<User>)
    ensures
        invited@ == yes_users(answers@),
{
    let ghost pred = said_yes::<User>();
    let mut invited: Vec<User> = Vec::new();
    let mut i: usize = 0;
    while i < answers.len()
        invariant
            i <= answers@.len(),
            pred == said_yes::<User>(),
            invited@ == answers@.take(i as int).filter(pred).map_values(|a: Answer<User>| a.user),
        decreases answers@.len() - i,
    {
        assert(answers@.take(i + 1) =~= answers@.take(i as int).push(answers@[i as int]));
        let ghost before = invited@;
        if answers[i].value.is_yes() {
            invited.push(answers[i].user.duplicate());
            assert(invited@ =~= answers@.take(i + 1).filter(pred).map_values(|a: Answer<User>| a.user));
        } else {
            assert(invited@ =~= answers@.take(i + 1).filter(pred).map_values(|a: Answer<User>| a.user));
        }
        i = i + 1;
    }
    assert(answers@.take(i as int) =~= answers@);
    invited
}

/// Whether some user in `users` has the identifier `id`.
pub fn contains_user_id(users: &[User], id: UserId) -> (found: bool)
    ensures
        found == has_user_id(users@, id),
{
    let mut i: usize = 0;
    while i < users.len()
        invariant
            i <= users@.len(),
            forall|j: int| 0 <= j < i ==> users@[j].id != id,
        decreases users@.len() - i,
    {
        if users[i].id == id {
            return true;
        }
        i = i + 1;
    }
    false
}

/// Keeping the first user of each identifier keeps every identifier, drops the
/// repetitions, and keeps only users of the original sequence.
pub proof fn lemma_first_by_id(users: Seq<User>)
    ensures
        distinct_ids(first_by_id(users)),
        forall|id: UserId| has_user_id(first_by_id(users), id) == has_user_id(users, id),
        forall|u: User| first_by_id(users).contains(u) ==> users.contains(u),
    decreases users.len(),
{
    if users.len() > 0 {
        let rest = users.drop_last();
        lemma_first_by_id(rest);
        assert forall|id: UserId| has_user_id(users, id) == (has_user_id(rest, id) || users.last().id == id) by {
            if has_user_id(users, id) {
                let i = choose|i: int| 0 <= i < users.len() && users[i].id == id;
                if i < users.len() - 1 {
                    assert(rest[i].id == id);
                }
            }
            if has_user_id(rest, id) {
                let i = choose|i: int| 0 <= i < rest.len() && rest[i].id == id;
                assert(users[i].id == id);
            }
        }
        if !has_user_id(rest, users.last().id) {
            let f = first_by_id(rest);
            assert forall|id: UserId| has_user_id(f.push(users.last()), id) == (has_user_id(f, id) || users.last().id == id) by {
                if has_user_id(f.push(users.last()), id) {
                    let i = choose|i: int| 0 <= i < f.len() + 1 && f.push(users.last())[i].id == id;
                    if i < f.len() {
                        assert(f[i].id == id);
                    }
                }
                if has_user_id(f, id) {
                    let i = choose|i: int| 0 <= i < f.len() && f[i].id == id;
                    assert(f.push(users.last())[i].id == id);
                }
                if users.last().id == id {
                    assert(f.push(users.last())[f.len() as int].id == id);
                }
            }
            assert forall|i: int, j: int| 0 <= i < j < f.len() + 1 implies f.push(users.last())[i].id != f.push(users.last())[j].id by {
                if j == f.len() {
                    if f[i].id == users.last().id {
                        assert(has_user_id(f, users.last().id));
                    }
                }
            }
            assert forall|u: User| f.push(users.last()).contains(u) implies users.contains(u) by {
                let k = choose|k: int| 0 <= k < f.len() + 1 && f.push(users.last())[k] == u;
                if k < f.len() {
                    assert(f.contains(u));
                    assert(rest.contains(u));
                    let m = choose|m: int| 0 <= m < rest.len() && rest[m] == u;
                    assert(users[m] == u);
                } else {
                    assert(users[users.len() - 1] == u);
                }
            }
        } else {
            assert forall|u: User| first_by_id(rest).contains(u) implies users.contains(u) by {
                assert(rest.contains(u));
                let m = choose|m: int| 0 <= m < rest.len() && rest[m] == u;
                assert(users[m] == u);
            }
        }
    }
}

/// The users who answered some date of the poll but are not among `invited`, each
/// once, in the order in which they first answered.
pub fn get_missed_users(poll: &Poll, invited: &[User]) -> (missed: Vec<User>)
    ensures
        missed@ == missed_users(option_views(poll.options@), invited@),
{
    let ghost options = option_views(poll.options@);
    let mut all: Vec<User> = Vec::new();
    let mut i: usize = 0;
    while i < poll.options.len()
        invariant
            i <= poll.options@.len(),
            options == option_views(poll.options@),
            all@ == all_answer_users(options.take(i as int)),
        decreases poll.options@.len() - i,
    {
        let answers = &poll.options[i].answers;
        let ghost base = all@;
        let mut j: usize = 0;
        while j < answers.len()
            invariant
                j <= answers@.len(),
                all@ == base + answer_users(answers@.take(j as int)),
            decreases answers@.len() - j,
        {
            all.push(answers[j].user.duplicate());
            j = j + 1;
            assert(answer_users(answers@.take(j as int)) =~= answer_users(answers@.take(j - 1)).push(answers@[j - 1].user));
            assert(all@ =~= base + answer_users(answers@.take(j as int)));
        }
        assert(answers@.take(j as int) =~= answers@);
        assert(options.take(i + 1).drop_last() =~= options.take(i as int));
        i = i + 1;
    }
    assert(options.take(i as int) =~= options);

    let mut unique: Vec<User> = Vec::new();
    let mut k: usize = 0;
    while k < all.len()
        invariant
            k <= all@.len(),
            unique@ == first_by_id(all@.take(k as int)),
        decreases all@.len() - k,
    {
        proof {
            lemma_first_by_id(all@.take(k as int));
            assert(all@.take(k + 1).drop_last() =~= all@.take(k as int));
        }
        if !contains_user_id(unique.as_slice(), all[k].id) {
            unique.push(all[k].duplicate());
        }
        k = k + 1;
    }
    assert(all@.take(k as int) =~= all@);

    let ghost pred = not_among(invited@);
    let mut missed: Vec<User> = Vec::new();
    let mut m: usize = 0;
    while m < unique.len()
        invariant
            m <= unique@.len(),
            pred == not_among(invited@),
            missed@ == unique@.take(m as int).filter(pred),
        decreases unique@.len() - m,
    {
        assert(unique@.take(m + 1) =~= unique@.take(m as int).push(unique@[m as int]));
        if !contains_user_id(invited, unique[m].id) {
            missed.push(unique[m].duplicate());
        }
        m = m + 1;
    }
    assert(unique@.take(m as int) =~= unique@);
    missed
}

/// What finalising a poll decides.
#[derive(Debug)]
pub enum FinalizeResult {
    /// Date selected, some people might not be invited though.
    Success {
        chosen: PollOption<User>,
        invited: Vec<User>,
        missed: Vec<User>,
    },
    /// No date found because there weren't enough people.
    Failure,
}

/// Picks the date of the event and who is invited to it, without storing anything.
pub fn finalize_poll_dry_run(poll: &Poll) -> (result: FinalizeResult)
    ensures
        result is Failure <==> candidates_of(option_views(poll.options@), poll.min_participants).len() == 0,
        result matches FinalizeResult::Success { chosen, invited, missed } ==> {
            let candidates = candidates_of(option_views(poll.options@), poll.min_participants);
            &&& candidates.contains(chosen@)
            &&& poll.strategy == DateSelectionStrategy::ToMaximizeParticipants ==>
                forall|k: int| 0 <= k < candidates.len() ==> yes_count(candidates[k].answers) <= yes_count(chosen@.answers)
            &&& invited@ == yes_users(chosen@.answers)
            &&& missed@ == missed_users(option_views(poll.options@), invited@)
            &&& exists|o: PollOption<User>| #[trigger] drawn_at_random(o) && o@ == chosen@
        },
{
    let candidates = get_candidates(poll);
    let ghost views = option_views(candidates@);
    match choose_option(candidates, poll.strategy) {
        Some(chosen) => {
            assert(views.contains(chosen@)) by {
                let k = choose|k: int| 0 <= k < candidates@.len() && chosen@ == candidates@[k]@;
                assert(views[k] == chosen@);
            }
            let invited = choose_participants(chosen.answers.as_slice());
            let missed = get_missed_users(poll, invited.as_slice());
            FinalizeResult::Success { chosen, invited, missed }
        },
        None => FinalizeResult::Failure,
    }
}

/// A copy of each user, in order.
pub fn duplicate_users(users: &[User]) -> (copies: Vec<User>)
    ensures
        copies@ == users@,
{
    let mut copies: Vec<User> = Vec::new();
    let mut i: usize = 0;
    while i < users.len()
        invariant
            i <= users@.len(),
            copies@ == users@.take(i as int),
        decreases users@.len() - i,
    {
        copies.push(users[i].duplicate());
        i = i + 1;
        assert(copies@ =~= users@.take(i as int));
    }
    assert(users@.take(i as int) =~= users@);
    copies
}

/// One step of finalising a poll; the steps are carried out in order.
#[derive(Debug)]
pub enum FinalizeAction {
    /// Store the stage of the poll.
    SetStage(PollStage),
    /// Plan the event on the chosen date, with the invited people.
    PlanEvent { chosen: PollOption<User>, invited: Vec<User> },
    /// Veto the date of the planned event in the other open and pending polls.
    VetoDateInOtherPolls,
    /// Tell the invited that they are in, and the others who answered that they missed it.
    SendNotificationEmails { invited: Vec<User>, missed: Vec<User> },
}

/// What a user is told about the event of a finalised poll.
#[derive(Debug, Copy, Clone, PartialEq, Eq, Structural)]
pub enum EventNotification {
    /// The email that invites the user, with the event as a calendar file.
    InvitedEmail,
    /// The push notification that the user is invited.
    InvitedPush,
    /// The email that tells the user that the event happens without them.
    MissedEmail,
    /// The push notification that the user missed the event.
    MissedPush,
}

/// The `k`-th notification sent about an event with `invited` invited users, with
/// the position of its user in the list of the invited or of those who missed it:
/// each invited user in turn gets the email and then the push notification, and then
/// each user who missed it does.
pub open spec fn event_notification_at(invited: int, k: int) -> (EventNotification, int) {
    if k < 2 * invited {
        (if k % 2 == 0 { EventNotification::InvitedEmail } else { EventNotification::InvitedPush }, k / 2)
    } else {
        let m = k - 2 * invited;
        (if m % 2 == 0 { EventNotification::MissedEmail } else { EventNotification::MissedPush }, m / 2)
    }
}

/// How the last action of a run of notifications went.
#[derive(Debug, Copy, Clone, PartialEq, Eq, Structural)]
pub enum SendOutcome {
    /// It was carried out.
    Sent,
    /// It failed; its error ends the run.
    Failed,
}

/// An email about an event to one user, with the link that logs them in.
#[derive(Debug, Clone)]
pub struct EventEmail {
    pub name: String,
    pub email_address: String,
    pub event_url: String,
}

/// What telling users about an event does next.
#[derive(Debug)]
pub enum EventNotificationAction {
    /// Store the login token, then send the email of this kind to the user; the
    /// event's calendar file goes with an invitation.
    SendEmail { kind: EventNotification, user: UserId, token: LoginToken, email: EventEmail },
    /// Send the push notification of this kind to the user.
    SendPush { kind: EventNotification, user: UserId },
    /// Stop: every notification was sent, or (`all_sent` false) one failed and the run
    /// ends with its error.
    Finished { all_sent: bool },
}

/// The user that a notification of `kind` at position `i` goes to.
pub open spec fn notified_user(invited: Seq<User>, missed: Seq<User>, kind: EventNotification, i: int) -> User {
    if kind is InvitedEmail || kind is InvitedPush {
        invited[i]
    } else {
        missed[i]
    }
}

/// The email action of `kind` to `user`: a fresh reusable login token of theirs, valid
/// until the event ends, and an email to their name and address with the link to
/// the event page that carries that token.
pub open spec fn is_event_email(action: EventNotificationAction, kind: EventNotification, user: User, event_uri: Seq<char>, ends_at: Timestamp) -> bool {
    action matches EventNotificationAction::SendEmail { kind: k, user: u, token, email } && {
        &&& k == kind
        &&& u == user.id
        &&& token.type_ == LoginTokenType::Reusable
        &&& is_drawn_reusable_token(token.token@)
        &&& token.user_id == user.id
        &&& token.valid_until == ends_at
        &&& email.name == user.name
        &&& email.email_address == user.email_address
        &&& with_query_pair_of(event_uri, autologin_param(), token.token@) == Some(email.event_url@)
    }
}

/// One step of telling the users about an event: after `done` notifications, of which
/// the last went as `last`, the next one. Each invited user in turn gets the email
/// and then the push notification, then each user who missed the event does; the
/// first that fails ends the run with its error, and the run succeeds only where
/// every one was sent. An email needs the event page's address `event_uri` to be a
/// URL that can carry a login token.
pub fn next_event_notification(
    event_uri: &str,
    ends_at: Timestamp,
    invited: &[User],
    missed: &[User],
    done: usize,
    last: SendOutcome,
) -> (action: EventNotificationAction)
    requires
        done <= 2 * (invited@.len() + missed@.len()),
    ensures
        last == SendOutcome::Failed ==> action == (EventNotificationAction::Finished { all_sent: false }),
        last == SendOutcome::Sent && done == 2 * (invited@.len() + missed@.len())
            ==> action == (EventNotificationAction::Finished { all_sent: true }),
        last == SendOutcome::Sent && done < 2 * (invited@.len() + missed@.len()) ==> {
            let kind = event_notification_at(invited@.len() as int, done as int).0;
            let user = notified_user(invited@, missed@, kind, event_notification_at(invited@.len() as int, done as int).1);
            if kind is InvitedPush || kind is MissedPush {
                action == (EventNotificationAction::SendPush { kind, user: user.id })
            } else if takes_token(event_uri@) {
                is_event_email(action, kind, user, event_uri@, ends_at)
            } else {
                action == (EventNotificationAction::Finished { all_sent: false })
            }
        },
{
    if last == SendOutcome::Failed {
        return EventNotificationAction::Finished { all_sent: false };
    }
    let i = done / 2;
    let email = done % 2 == 0;
    let (kind, user) = if i < invited.len() {
        (if email { EventNotification::InvitedEmail } else { EventNotification::InvitedPush }, &invited[i])
    } else if i - invited.len() < missed.len() {
        (if email { EventNotification::MissedEmail } else { EventNotification::MissedPush }, &missed[i - invited.len()])
    } else {
        return EventNotificationAction::Finished { all_sent: true };
    };
    if !email {
        return EventNotificationAction::SendPush { kind, user: user.id };
    }
    match autologin_link(event_uri, user.id, ends_at) {
        Some((token, event_url)) => EventNotificationAction::SendEmail {
            kind,
            user: user.id,
            token,
            email: EventEmail { name: user.name.clone(), email_address: user.email_address.clone(), event_url },
        },
        None => EventNotificationAction::Finished { all_sent: false },
    }
}

/// The steps of finalising a poll: it is marked as being finalised; where a date
/// was found the event is planned, its date vetoed in the other polls and everybody
/// who answered told; and at last the poll is closed, whether a date was found or not.
pub fn try_finalize_poll(poll: &Poll) -> (actions: Vec<FinalizeAction>)
    ensures
        actions@.len() == 2 || actions@.len() == 5,
        actions@.len() == 2 <==> candidates_of(option_views(poll.options@), poll.min_participants).len() == 0,
        actions@[0] == FinalizeAction::SetStage(PollStage::Finalizing),
        actions@.last() == FinalizeAction::SetStage(PollStage::Closed),
        actions@.len() == 5 ==> {
            let candidates = candidates_of(option_views(poll.options@), poll.min_participants);
            &&& actions@[1] matches FinalizeAction::PlanEvent { chosen, invited } && {
                &&& candidates.contains(chosen@)
                &&& poll.strategy == DateSelectionStrategy::ToMaximizeParticipants ==>
                    forall|k: int| 0 <= k < candidates.len() ==> yes_count(candidates[k].answers) <= yes_count(chosen@.answers)
                &&& invited@ == yes_users(chosen@.answers)
                &&& exists|o: PollOption<User>| #[trigger] drawn_at_random(o) && o@ == chosen@
            }
            &&& actions@[2] is VetoDateInOtherPolls
            &&& actions@[3] matches FinalizeAction::SendNotificationEmails { invited, missed } && {
                &&& invited@ == yes_users(actions@[1]->chosen@.answers)
                &&& missed@ == missed_users(option_views(poll.options@), invited@)
            }
        },
{
    let mut actions: Vec<FinalizeAction> = Vec::new();
    actions.push(FinalizeAction::SetStage(PollStage::Finalizing));
    match finalize_poll_dry_run(poll) {
        FinalizeResult::Success { chosen, invited, missed } => {
            let notified = duplicate_users(invited.as_slice());
            actions.push(FinalizeAction::PlanEvent { chosen, invited });
            actions.push(FinalizeAction::VetoDateInOtherPolls);
            actions.push(FinalizeAction::SendNotificationEmails { invited: notified, missed });
        },
        FinalizeResult::Failure => {},
    }
    actions.push(FinalizeAction::SetStage(PollStage::Closed));
    actions
}

/// Nobody who is invited is told that they missed the event, nobody is told twice,
/// and everybody else who answered the poll is told.
pub proof fn lemma_missed_users_complement(options: Seq<PollOptionView<User>>, invited: Seq<User>)
    ensures
        distinct_ids(missed_users(options, invited)),
        forall|u: User| #[trigger] missed_users(options, invited).contains(u)
            ==> all_answer_users(options).contains(u) && !has_user_id(invited, u.id),
        forall|u: User| #[trigger] all_answer_users(options).contains(u) && !has_user_id(invited, u.id)
            ==> has_user_id(missed_users(options, invited), u.id),
{
    let all = all_answer_users(options);
    let unique = first_by_id(all);
    let pred = not_among(invited);
    lemma_first_by_id(all);
    broadcast use Seq::lemma_filter_contains_rev;
    let missed = unique.filter(pred);
    assert forall|i: int, j: int| 0 <= i < j < missed.len() implies missed[i].id != missed[j].id by {
        lemma_filter_indices(unique, pred, i, j);
    }
    assert forall|u: User| #[trigger] all.contains(u) && !has_user_id(invited, u.id) implies has_user_id(missed, u.id) by {
        let k = choose|k: int| 0 <= k < all.len() && all[k] == u;
        assert(has_user_id(all, u.id));
        let m = choose|m: int| 0 <= m < unique.len() && unique[m].id == u.id;
        assert(pred(unique[m]));
        unique.lemma_filter_contains(pred, m);
        let n = choose|n: int| 0 <= n < missed.len() && missed[n] == unique[m];
        assert(missed[n].id == u.id);
    }
}

/// Two positions of a filtered sequence come from two ordered positions of the original.
proof fn lemma_filter_indices<A>(s: Seq<A>, pred: spec_fn(A) -> bool, i: int, j: int)
    requires
        0 <= i < j < s.filter(pred).len(),
    ensures
        exists|a: int, b: int| 0 <= a < b < s.len() && s[a] == s.filter(pred)[i] && s[b] == s.filter(pred)[j],
    decreases s.len(),
{
    reveal(Seq::filter);
    let rest = s.drop_last();
    if pred(s.last()) && j == s.filter(pred).len() - 1 {
        assert(s.filter(pred) == rest.filter(pred).push(s.last()));
        assert(rest.filter(pred)[i] == s.filter(pred)[i]);
        rest.lemma_filter_contains_rev(pred, rest.filter(pred)[i]);
        let a = choose|a: int| 0 <= a < rest.len() && rest[a] == rest.filter(pred)[i];
        assert(s[a] == s.filter(pred)[i]);
        assert(s[s.len() - 1] == s.filter(pred)[j]);
    } else {
        if pred(s.last()) {
            assert(s.filter(pred) == rest.filter(pred).push(s.last()));
        } else {
            assert(s.filter(pred) == rest.filter(pred));
        }
        assert(rest.filter(pred)[i] == s.filter(pred)[i]);
        assert(rest.filter(pred)[j] == s.filter(pred)[j]);
        lemma_filter_indices(rest, pred, i, j);
        let (a, b) = choose|a: int, b: int| 0 <= a < b < rest.len() && rest[a] == rest.filter(pred)[i] && rest[b] == rest.filter(pred)[j];
        assert(s[a] == rest[a] && s[b] == rest[b]);
    }
}

/// Of the polls waiting to be finalised, the one that closed first; of several that
/// closed at the same instant, the first of them.
pub fn get_next_pending_poll(pending: Vec<Poll>) -> (next: Option<Poll>)
    ensures
        next is None <==> pending@.len() == 0,
        next matches Some(p) ==> exists|i: int| 0 <= i < pending@.len() && p == pending@[i] && (forall|j: int|
            0 <= j < pending@.len() ==> pending@[i].open_until.unix_nanos < #[trigger] pending@[j].open_until.unix_nanos
                || (pending@[i].open_until.unix_nanos == pending@[j].open_until.unix_nanos && i <= j)),
{
    let mut keys: Vec<i128> = Vec::new();
    let mut i: usize = 0;
    while i < pending.len()
        invariant
            i <= pending@.len(),
            keys@.len() == i,
            forall|k: int| 0 <= k < i ==> #[trigger] keys@[k] == pending@[k].open_until.unix_nanos,
        decreases pending@.len() - i,
    {
        keys.push(pending[i].open_until.unix_nanos);
        i = i + 1;
    }
    match first_by_key(keys.as_slice()) {
        None => None,
        Some(first) => {
            let ghost all = pending@;
            let mut pending = pending;
            let next = pending.remove(first);
            assert forall|j: int| 0 <= j < all.len() implies all[first as int].open_until.unix_nanos < #[trigger] all[j].open_until.unix_nanos
                || (all[first as int].open_until.unix_nanos == all[j].open_until.unix_nanos && first <= j) by {
                assert(keys@[j] == all[j].open_until.unix_nanos);
            }
            Some(next)
        },
    }
}

/// The first of `options` that falls on `date`, at its own offset.
pub open spec fn first_option_on(options: Seq<PollOption<User>>, date: CalendarDate) -> Option<PollOption<User>>
    decreases options.len(),
{
    if options.len() == 0 {
        None
    } else if local_date_of(options[0].starts_at.unix_nanos, options[0].starts_at.offset_seconds) == date {
        Some(options[0])
    } else {
        first_option_on(options.drop_first(), date)
    }
}

/// All dates start within the range of the `time` crate.
pub open spec fn dated_options(options: Seq<PollOption<User>>) -> bool {
    forall|i: int| 0 <= i < options.len() ==> (#[trigger] options[i]).starts_at.wf()
}

/// The first date of the poll that falls on `date`, at its own offset.
pub fn find_option(poll: &Poll, date: CalendarDate) -> (found: Option<&PollOption<User>>)
    requires
        dated_options(poll.options@),
    ensures
        match found {
            Some(o) => first_option_on(poll.options@, date) == Some(*o),
            None => first_option_on(poll.options@, date) is None,
        },
{
    let mut i: usize = 0;
    assert(poll.options@.skip(0) =~= poll.options@);
    while i < poll.options.len()
        invariant
            i <= poll.options@.len(),
            dated_options(poll.options@),
            first_option_on(poll.options@.skip(i as int), date) == first_option_on(poll.options@, date),
        decreases poll.options@.len() - i,
    {
        assert(poll.options@.skip(i as int).drop_first() =~= poll.options@.skip(i + 1));
        if poll.options[i].starts_at.date() == date {
            return Some(&poll.options[i]);
        }
        i = i + 1;
    }
    None
}

/// The vetoes by `user` against `date`: one for the first date on that day of
/// each poll that has one, in the order of the polls.
pub open spec fn vetoes_for(polls: Seq<Poll>, date: CalendarDate, user: UserId) -> Seq<(i64, NewAnswer)>
    decreases polls.len(),
{
    if polls.len() == 0 {
        Seq::empty()
    } else {
        let rest = vetoes_for(polls.drop_last(), date, user);
        match first_option_on(polls.last().options@, date) {
            Some(o) => rest.push((o.id, NewAnswer { value: AnswerValue::No { veto: true }, user })),
            None => rest,
        }
    }
}

/// The vetoes that the creator of an event on `date` casts against that date in
/// the other open and pending polls, so that nobody plans two events for one day.
pub fn veto_date_in_other_polls(polls: &[Poll], date: CalendarDate, created_by: &User) -> (vetoes: Vec<(i64, NewAnswer)>)
    requires
        forall|p: int| 0 <= p < polls@.len() ==> dated_options(#[trigger] polls@[p].options@),
    ensures
        vetoes@ == vetoes_for(polls@, date, created_by.id),
{
    let mut vetoes: Vec<(i64, NewAnswer)> = Vec::new();
    let mut p: usize = 0;
    while p < polls.len()
        invariant
            p <= polls@.len(),
            forall|q: int| 0 <= q < polls@.len() ==> dated_options(#[trigger] polls@[q].options@),
            vetoes@ == vetoes_for(polls@.take(p as int), date, created_by.id),
        decreases polls@.len() - p,
    {
        assert(polls@.take(p + 1).drop_last() =~= polls@.take(p as int));
        assert(polls@.take(p + 1).last() == polls@[p as int]);
        match find_option(&polls[p], date) {
            Some(option) => {
                vetoes.push(veto(option, created_by));
            },
            None => {},
        }
        p = p + 1;
    }
    assert(polls@.take(p as int) =~= polls@);
    vetoes
}

/// A veto by `user` against a date.
pub fn veto(option: &PollOption<User>, user: &User) -> (answer: (i64, NewAnswer))
    ensures
        answer == (option.id, NewAnswer { value: AnswerValue::No { veto: true }, user: user.id }),
{
    (option.id, NewAnswer { value: AnswerValue::veto(), user: user.id })
}

/// The instants at which the dates start.
pub open spec fn start_keys(options: Seq<PollOption<User>>) -> Seq<i128> {
    options.map_values(|o: PollOption<User>| o.starts_at.unix_nanos)
}

/// The dates of the poll ordered by when they start, dates starting at the same
/// instant in their original order.
pub fn sorted_options(poll: &Poll) -> (sorted: Vec<PollOption<User>>)
    ensures
        exists|order: Seq<usize>| {
            &&& #[trigger] is_stable_order(start_keys(poll.options@), order)
            &&& sorted@.len() == order.len()
            &&& forall|k: int| 0 <= k < order.len() ==> (#[trigger] sorted@[k])@ == poll.options@[order[k] as int]@
        },
{
    let ghost starts = start_keys(poll.options@);
    let mut keys: Vec<i128> = Vec::new();
    let mut i: usize = 0;
    while i < poll.options.len()
        invariant
            i <= poll.options@.len(),
            starts == start_keys(poll.options@),
            keys@ == starts.take(i as int),
        decreases poll.options@.len() - i,
    {
        keys.push(poll.options[i].starts_at.unix_nanos);
        i = i + 1;
        assert(keys@ =~= starts.take(i as int));
    }
    assert(keys@ =~= starts);
    let order = stable_order(keys.as_slice());
    let mut sorted: Vec<PollOption<User>> = Vec::new();
    let mut k: usize = 0;
    while k < order.len()
        invariant
            k <= order@.len(),
            is_stable_order(starts, order@),
            starts.len() == poll.options@.len(),
            sorted@.len() == k,
            forall|m: int| 0 <= m < k ==> (#[trigger] sorted@[m])@ == poll.options@[order@[m] as int]@,
        decreases order@.len() - k,
    {
        sorted.push(poll.options[order[k]].duplicate());
        k = k + 1;
    }
    sorted
}

} // verus!
