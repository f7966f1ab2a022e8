//! What the page of an open poll shows, and how the answers submitted on it are stored.
use vstd::prelude::*;
use std::collections::HashMap;
use crate::answer::{bools_of, value_of_bools, weakened, AnswerValue};
use crate::clock::{local_date_of, month_name, month_name_of, Timestamp};
use crate::grouping::{is_runs_of, runs_of_equal_keys};
use crate::poll::{
    option_views, poll_answered_by, poll_answered_yes_by, vetoed, Answer, NewAnswer, Poll,
    PollOption, PollOptionView,
};
use crate::users::{Role, User, UserId};

verus! {

broadcast use Seq::lemma_filter_push, Seq::lemma_filter_len;

/// What a user ticked for one date: whether they can attend, and how firmly.
#[derive(Debug, Copy, Clone, PartialEq, Eq, Structural)]
pub struct AnswerUpdate {
    pub yes: bool,
    pub strong: bool,
}

impl Default for AnswerUpdate {
    fn default() -> (update: Self)
        ensures
            update == (AnswerUpdate { yes: false, strong: false }),
    {
        AnswerUpdate { yes: false, strong: false }
    }
}

/// The answers a user submitted, by the identifier of the date.
#[derive(Debug)]
pub struct AnswerUpdates {
    pub options: HashMap<i64, AnswerUpdate>,
}

/// The update submitted for a date; nothing ticked where the date is missing.
pub open spec fn update_for(updates: Map<i64, AnswerUpdate>, option_id: i64) -> AnswerUpdate {
    if updates.contains_key(option_id) {
        updates[option_id]
    } else {
        AnswerUpdate { yes: false, strong: false }
    }
}

/// The answer stored for a date: what was ticked, without its strength for users
/// who may not answer strongly.
pub open spec fn answer_value_for(updates: Map<i64, AnswerUpdate>, option_id: i64, can_answer_strongly: bool) -> AnswerValue {
    let update = update_for(updates, option_id);
    let value = value_of_bools((update.yes, update.strong));
    if can_answer_strongly {
        value
    } else {
        weakened(value)
    }
}

pub fn get_answer_value(updates: &AnswerUpdates, option_id: i64, user: &User) -> (value: AnswerValue)
    ensures
        value == answer_value_for(updates.options@, option_id, user.can_answer_strongly),
{
    broadcast use vstd::std_specs::hash::group_hash_axioms;
    let update = match updates.options.get(&option_id) {
        Some(u) => *u,
        None => AnswerUpdate::default(),
    };
    let value = AnswerValue::from_bools((update.yes, update.strong));
    if user.can_answer_strongly {
        value
    } else {
        value.ensure_weak()
    }
}

pub fn get_answer(user: &User, updates: &AnswerUpdates, option: &PollOption<User>) -> (answer: NewAnswer)
    ensures
        answer == (NewAnswer {
            user: user.id,
            value: answer_value_for(updates.options@, option.id, user.can_answer_strongly),
        }),
{
    NewAnswer { user: user.id, value: get_answer_value(updates, option.id, user) }
}

/// One new answer of `user` for every date of the poll, as submitted.
pub fn apply_updates(poll: &Poll, user: &User, updates: &AnswerUpdates) -> (answers: Vec<(i64, NewAnswer)>)
    ensures
        answers@.len() == poll.options@.len(),
        forall|i: int| 0 <= i < answers@.len() ==> #[trigger] answers@[i] == (poll.options@[i].id, NewAnswer {
            user: user.id,
            value: answer_value_for(updates.options@, poll.options@[i].id, user.can_answer_strongly),
        }),
{
    let mut answers: Vec<(i64, NewAnswer)> = Vec::new();
    let mut i: usize = 0;
    while i < poll.options.len()
        invariant
            i <= poll.options@.len(),
            answers@.len() == i,
            forall|j: int| 0 <= j < i ==> #[trigger] answers@[j] == (poll.options@[j].id, NewAnswer {
                user: user.id,
                value: answer_value_for(updates.options@, poll.options@[j].id, user.can_answer_strongly),
            }),
        decreases poll.options@.len() - i,
    {
        let option = &poll.options[i];
        answers.push((option.id, get_answer(user, updates, option)));
        i = i + 1;
    }
    answers
}

/// A plain "no" of `user` for every date of the poll, for skipping it.
pub fn get_no_answers(user: &User, poll: &Poll) -> (answers: Vec<(i64, NewAnswer)>)
    ensures
        answers@.len() == poll.options@.len(),
        forall|i: int| 0 <= i < answers@.len() ==> #[trigger] answers@[i] == (poll.options@[i].id, NewAnswer {
            user: user.id,
            value: AnswerValue::No { veto: false },
        }),
{
    let mut answers: Vec<(i64, NewAnswer)> = Vec::new();
    let mut i: usize = 0;
    while i < poll.options.len()
        invariant
            i <= poll.options@.len(),
            answers@.len() == i,
            forall|j: int| 0 <= j < i ==> #[trigger] answers@[j] == (poll.options@[j].id, NewAnswer {
                user: user.id,
                value: AnswerValue::No { veto: false },
            }),
        decreases poll.options@.len() - i,
    {
        answers.push((poll.options[i].id, NewAnswer { user: user.id, value: AnswerValue::no(false) }));
        i = i + 1;
    }
    answers
}

/// Users who may not answer strongly never store a required attendance or a veto.
pub proof fn lemma_weak_users_answer_weakly(updates: Map<i64, AnswerUpdate>, option_id: i64)
    ensures
        !bools_of(answer_value_for(updates, option_id, false)).1,
        (answer_value_for(updates, option_id, false) is Yes) == update_for(updates, option_id).yes,
        bools_of(answer_value_for(updates, option_id, true))
            == (update_for(updates, option_id).yes, update_for(updates, option_id).strong),
{
}

/// The users who have answered the poll.
pub open spec fn has_answered(options: Seq<PollOption<User>>) -> spec_fn(User) -> bool {
    |u: User| poll_answered_by(options, u.id)
}

/// The users who have not answered the poll.
pub open spec fn has_not_answered(options: Seq<PollOption<User>>) -> spec_fn(User) -> bool {
    |u: User| !poll_answered_by(options, u.id)
}

/// The users who have answered the poll but said yes to no date.
pub open spec fn answered_without_yes(options: Seq<PollOption<User>>) -> spec_fn(User) -> bool {
    |u: User| poll_answered_by(options, u.id) && !poll_answered_yes_by(options, u.id)
}

/// The users who answered the poll and those who did not, each in the given order.
pub fn partition_by_answered(poll: &Poll, users: Vec<User>) -> (partition: (Vec<User>, Vec<User>))
    ensures
        partition.0@ == users@.filter(has_answered(poll.options@)),
        partition.1@ == users@.filter(has_not_answered(poll.options@)),
{
    let ghost yes = has_answered(poll.options@);
    let ghost no = has_not_answered(poll.options@);
    let mut answered: Vec<User> = Vec::new();
    let mut not_answered: Vec<User> = Vec::new();
    let mut i: usize = 0;
    while i < users.len()
        invariant
            i <= users@.len(),
            yes == has_answered(poll.options@),
            no == has_not_answered(poll.options@),
            answered@ == users@.take(i as int).filter(yes),
            not_answered@ == users@.take(i as int).filter(no),
        decreases users@.len() - i,
    {
        assert(users@.take(i + 1) =~= users@.take(i as int).push(users@[i as int]));
        if poll.has_answer(users[i].id) {
            answered.push(users[i].duplicate());
        } else {
            not_answered.push(users[i].duplicate());
        }
        i = i + 1;
    }
    assert(users@.take(i as int) =~= users@);
    (answered, not_answered)
}

/// The users who have not answered the poll, and those who answered without saying yes to any date.
pub fn users_with_no_yes(poll: &Poll, users: Vec<User>) -> (groups: (Vec<User>, Vec<User>))
    ensures
        groups.0@ == users@.filter(has_not_answered(poll.options@)),
        groups.1@ == users@.filter(has_answered(poll.options@)).filter(
            |u: User| !poll_answered_yes_by(poll.options@, u.id),
        ),
{
    let (answered, not_answered) = partition_by_answered(poll, users);
    let ghost pred = |u: User| !poll_answered_yes_by(poll.options@, u.id);
    let mut without_yes: Vec<User> = Vec::new();
    let mut i: usize = 0;
    while i < answered.len()
        invariant
            i <= answered@.len(),
            pred == (|u: User| !poll_answered_yes_by(poll.options@, u.id)),
            without_yes@ == answered@.take(i as int).filter(pred),
        decreases answered@.len() - i,
    {
        assert(answered@.take(i + 1) =~= answered@.take(i as int).push(answered@[i as int]));
        if !poll.has_yes_answer(answered[i].id) {
            without_yes.push(answered[i].duplicate());
        }
        i = i + 1;
    }
    assert(answered@.take(i as int) =~= answered@);
    (not_answered, without_yes)
}

/// The value of the first answer of `user`, if they answered.
pub open spec fn first_answer_of(answers: Seq<Answer<User>>, user: UserId) -> Option<AnswerValue>
    decreases answers.len(),
{
    if answers.len() == 0 {
        None
    } else if answers[0].user.id == user {
        Some(answers[0].value)
    } else {
        first_answer_of(answers.drop_first(), user)
    }
}

/// The yes answers of people other than `user`.
pub open spec fn yes_of_others(user: UserId) -> spec_fn(Answer<User>) -> bool {
    |a: Answer<User>| a.value is Yes && a.user.id != user
}

/// One date as the open poll page shows it to a user.
#[derive(Debug)]
pub struct OpenPollOption {
    pub id: i64,
    pub starts_at: Timestamp,
    pub yes: bool,
    pub strong: bool,
    pub vetoed: bool,
    pub yes_answers: Vec<User>,
}

/// How a date is shown to `user`: their own answer as `(yes, strong)`, whether it was
/// vetoed, and who else said yes.
pub open spec fn shows_option(shown: OpenPollOption, option: PollOptionView<User>, user: UserId) -> bool {
    let own = match first_answer_of(option.answers, user) {
        Some(v) => bools_of(v),
        None => (false, false),
    };
    &&& shown.id == option.id
    &&& shown.starts_at == option.starts_at
    &&& (shown.yes, shown.strong) == own
    &&& shown.vetoed == vetoed(option.answers)
    &&& shown.yes_answers@ == option.answers.filter(yes_of_others(user)).map_values(|a: Answer<User>| a.user)
}

pub fn to_open_poll_option(option: &PollOption<User>, user: &User) -> (shown: OpenPollOption)
    ensures
        shows_option(shown, option@, user.id),
{
    let answers = &option.answers;
    let mut own: Option<AnswerValue> = None;
    let mut i: usize = 0;
    assert(answers@.skip(0) =~= answers@);
    while i < answers.len()
        invariant_except_break
            own is None,
            first_answer_of(answers@, user.id) == first_answer_of(answers@.skip(i as int), user.id),
        invariant
            i <= answers@.len(),
        ensures
            own is Some ==> own == first_answer_of(answers@, user.id),
            own is None ==> i == answers@.len() && first_answer_of(answers@, user.id) == first_answer_of(answers@.skip(i as int), user.id),
        decreases answers@.len() - i,
    {
        assert(answers@.skip(i as int).drop_first() =~= answers@.skip(i + 1));
        if answers[i].user.id == user.id {
            assert(answers@.skip(i as int)[0] == answers@[i as int]);
            assert(first_answer_of(answers@.skip(i as int), user.id) == Some(answers@[i as int].value));
            own = Some(answers[i].value);
            break;
        }
        i = i + 1;
    }
    assert(answers@.skip(answers@.len() as int) =~= Seq::<Answer<User>>::empty());
    let (yes, strong) = match own {
        Some(v) => v.to_bools(),
        None => (false, false),
    };
    let ghost pred = yes_of_others(user.id);
    let mut yes_answers: Vec<User> = Vec::new();
    let mut j: usize = 0;
    while j < answers.len()
        invariant
            j <= answers@.len(),
            pred == yes_of_others(user.id),
            yes_answers@ == answers@.take(j as int).filter(pred).map_values(|a: Answer<User>| a.user),
        decreases answers@.len() - j,
    {
        assert(answers@.take(j + 1) =~= answers@.take(j as int).push(answers@[j as int]));
        if answers[j].value.is_yes() && answers[j].user.id != user.id {
            yes_answers.push(answers[j].user.duplicate());
        }
        assert(yes_answers@ =~= answers@.take(j + 1).filter(pred).map_values(|a: Answer<User>| a.user));
        j = j + 1;
    }
    assert(answers@.take(j as int) =~= answers@);
    OpenPollOption {
        id: option.id,
        starts_at: option.starts_at,
        yes,
        strong,
        vetoed: option.has_veto(),
        yes_answers,
    }
}

/// The dates of one month, under the month's name.
#[derive(Debug)]
pub struct OpenPollOptionsGroup {
    pub name: String,
    pub options: Vec<OpenPollOption>,
}

/// The dates a user gets to see: vetoed dates only for users who may answer strongly.
pub open spec fn visible_options(options: Seq<PollOptionView<User>>, can_answer_strongly: bool) -> Seq<PollOptionView<User>> {
    options.filter(|o: PollOptionView<User>| !vetoed(o.answers) || can_answer_strongly)
}

/// The month in which a date starts, at its own offset.
pub open spec fn month_key(o: PollOptionView<User>) -> i64 {
    local_date_of(o.starts_at.unix_nanos, o.starts_at.offset_seconds).month as i64
}

/// The months of a sequence of dates.
pub open spec fn month_keys(options: Seq<PollOptionView<User>>) -> Seq<i64> {
    options.map_values(|o: PollOptionView<User>| month_key(o))
}

/// The visible dates, grouped into runs of consecutive dates in the same month, each
/// shown under the month's name.
pub fn to_open_poll_options(poll: &Poll, user: &User, can_answer_strongly: bool) -> (groups: Vec<OpenPollOptionsGroup>)
    requires
        forall|i: int| 0 <= i < poll.options@.len() ==> (#[trigger] poll.options@[i]).starts_at.wf(),
    ensures
        ({
            let visible = visible_options(option_views(poll.options@), can_answer_strongly);
            exists|runs: Seq<(usize, usize)>| {
                &&& #[trigger] is_runs_of(month_keys(visible), runs)
                &&& groups@.len() == runs.len()
                &&& forall|g: int| 0 <= g < runs.len() ==> {
                    &&& (#[trigger] groups@[g]).name@ == month_name_of(
                        local_date_of(visible[runs[g].0 as int].starts_at.unix_nanos, visible[runs[g].0 as int].starts_at.offset_seconds).month,
                    )
                    &&& groups@[g].options@.len() == runs[g].1 - runs[g].0
                    &&& forall|k: int| 0 <= k < groups@[g].options@.len() ==> shows_option(
                        #[trigger] groups@[g].options@[k],
                        visible[runs[g].0 + k],
                        user.id,
                    )
                }
            }
        }),
{
    let ghost all = option_views(poll.options@);
    let ghost pred = |o: PollOptionView<User>| !vetoed(o.answers) || can_answer_strongly;
    let mut visible: Vec<&PollOption<User>> = Vec::new();
    let mut keys: Vec<i64> = Vec::new();
    let mut i: usize = 0;
    while i < poll.options.len()
        invariant
            i <= poll.options@.len(),
            all == option_views(poll.options@),
            pred == (|o: PollOptionView<User>| !vetoed(o.answers) || can_answer_strongly),
            forall|j: int| 0 <= j < poll.options@.len() ==> (#[trigger] poll.options@[j]).starts_at.wf(),
            visible@.map_values(|o: &PollOption<User>| o@) == all.take(i as int).filter(pred),
            forall|k: int| 0 <= k < visible@.len() ==> (#[trigger] visible@[k]).starts_at.wf(),
            keys@ == all.take(i as int).filter(pred).map_values(|o: PollOptionView<User>| month_key(o)),
        decreases poll.options@.len() - i,
    {
        let option = &poll.options[i];
        assert(all.take(i + 1) =~= all.take(i as int).push(option@));
        if !option.has_veto() || can_answer_strongly {
            let date = option.starts_at.date();
            visible.push(option);
            keys.push(date.month as i64);
        }
        assert(visible@.map_values(|o: &PollOption<User>| o@) =~= all.take(i + 1).filter(pred));
        assert(keys@ =~= all.take(i + 1).filter(pred).map_values(|o: PollOptionView<User>| month_key(o)));
        i = i + 1;
    }
    assert(all.take(i as int) =~= all);
    let ghost shown = visible@.map_values(|o: &PollOption<User>| o@);
    assert(shown == visible_options(all, can_answer_strongly));
    let runs = runs_of_equal_keys(keys.as_slice());
    let mut groups: Vec<OpenPollOptionsGroup> = Vec::new();
    let mut g: usize = 0;
    while g < runs.len()
        invariant
            g <= runs@.len(),
            is_runs_of(keys@, runs@),
            keys@.len() == visible@.len(),
            shown == visible@.map_values(|o: &PollOption<User>| o@),
            keys@ == month_keys(shown),
            forall|k: int| 0 <= k < visible@.len() ==> (#[trigger] visible@[k]).starts_at.wf(),
            groups@.len() == g,
            forall|h: int| 0 <= h < g ==> {
                &&& (#[trigger] groups@[h]).name@ == month_name_of(
                    local_date_of(shown[runs@[h].0 as int].starts_at.unix_nanos, shown[runs@[h].0 as int].starts_at.offset_seconds).month,
                )
                &&& groups@[h].options@.len() == runs@[h].1 - runs@[h].0
                &&& forall|k: int| 0 <= k < groups@[h].options@.len() ==> shows_option(
                    #[trigger] groups@[h].options@[k],
                    shown[runs@[h].0 + k],
                    user.id,
                )
            },
        decreases runs@.len() - g,
    {
        let (start, end) = runs[g];
        assert(start < end <= keys@.len());
        let mut options: Vec<OpenPollOption> = Vec::new();
        let mut k: usize = start;
        while k < end
            invariant
                start <= k <= end <= visible@.len(),
                shown == visible@.map_values(|o: &PollOption<User>| o@),
                options@.len() == k - start,
                forall|m: int| 0 <= m < options@.len() ==> shows_option(#[trigger] options@[m], shown[start + m], user.id),
            decreases end - k,
        {
            options.push(to_open_poll_option(visible[k], user));
            k = k + 1;
        }
        let date = visible[start].starts_at.date();
        let name = month_name(date.month);
        groups.push(OpenPollOptionsGroup { name, options });
        assert(groups@[g as int].options@ == options@);
        g = g + 1;
    }
    groups
}

/// The page of the open poll as `user` sees it.
#[derive(Debug)]
pub struct OpenPollPage {
    pub poll: Poll,
    pub option_groups: Vec<OpenPollOptionsGroup>,
    pub has_answers: bool,
    pub can_answer_strongly: bool,
    pub no_date_answered_with_yes: Vec<User>,
    pub not_answered: Vec<User>,
    /// Whether the page offers to close the poll.
    pub can_close_poll: bool,
    pub user: User,
}

/// The page of the open poll for `user`, among the active and invited `users`.
/// Only those who manage polls see who has not answered and who said yes to no date;
/// the dates are shown as `to_open_poll_options` shows them.
pub fn to_open_poll_page(poll: Poll, user: User, users: Vec<User>, can_answer_strongly: bool) -> (page: OpenPollPage)
    requires
        forall|i: int| 0 <= i < poll.options@.len() ==> (#[trigger] poll.options@[i]).starts_at.wf(),
    ensures
        page.poll == poll,
        page.user == user,
        page.has_answers == poll_answered_by(poll.options@, user.id),
        page.can_answer_strongly == can_answer_strongly,
        page.can_close_poll == (user.role == Role::Admin),
        user.role == Role::Admin ==> page.not_answered@ == users@.filter(has_not_answered(poll.options@)),
        user.role == Role::Admin ==> page.no_date_answered_with_yes@ == users@.filter(has_answered(poll.options@)).filter(
            |u: User| !poll_answered_yes_by(poll.options@, u.id),
        ),
        user.role != Role::Admin ==> page.not_answered@.len() == 0 && page.no_date_answered_with_yes@.len() == 0,
        ({
            let visible = visible_options(option_views(poll.options@), can_answer_strongly);
            exists|runs: Seq<(usize, usize)>| {
                &&& #[trigger] is_runs_of(month_keys(visible), runs)
                &&& page.option_groups@.len() == runs.len()
                &&& forall|g: int| 0 <= g < runs.len() ==> {
                    &&& (#[trigger] page.option_groups@[g]).name@ == month_name_of(
                        local_date_of(visible[runs[g].0 as int].starts_at.unix_nanos, visible[runs[g].0 as int].starts_at.offset_seconds).month,
                    )
                    &&& page.option_groups@[g].options@.len() == runs[g].1 - runs[g].0
                    &&& forall|k: int| 0 <= k < page.option_groups@[g].options@.len() ==> shows_option(
                        #[trigger] page.option_groups@[g].options@[k],
                        visible[runs[g].0 + k],
                        user.id,
                    )
                }
            }
        }),
{
    let manages = user.can_manage_poll();
    let (not_answered, no_date_answered_with_yes) = if manages {
        users_with_no_yes(&poll, users)
    } else {
        (Vec::new(), Vec::new())
    };
    let option_groups = to_open_poll_options(&poll, &user, can_answer_strongly);
    let has_answers = poll.has_answer(user.id);
    OpenPollPage {
        poll,
        option_groups,
        has_answers,
        can_answer_strongly,
        no_date_answered_with_yes,
        not_answered,
        can_close_poll: manages,
        user,
    }
}

/// The page shown when no poll is open.
#[derive(Debug)]
pub struct NoOpenPollPage {
    pub user: User,
}

impl NoOpenPollPage {
    pub fn for_user(user: User) -> (page: NoOpenPollPage)
        ensures
            page.user == user,
    {
        NoOpenPollPage { user }
    }
}

/// A value that was found to be open, such as the open poll.
#[derive(Debug)]
pub struct Open<T>(pub T);

impl<T> Open<T> {
    pub fn into_inner(self) -> (inner: T)
        ensures
            inner == self.0,
    {
        self.0
    }
}

} // verus!
