//! Polls: their dates, the answers to them, and the state a poll is in.
use vstd::prelude::*;
use crate::answer::AnswerValue;
use crate::clock::Timestamp;
use crate::users::{User, UserId};

verus! {

/// A stored answer. `U` is the user who gave it: a `UserId` as it is read
/// from storage, a `User` once the user has been looked up.
#[derive(Debug, Clone)]
pub struct Answer<U> {
    pub id: i64,
    pub value: AnswerValue,
    pub user: U,
}

/// An answer that has not been stored yet.
#[derive(Debug, Copy, Clone, PartialEq, Eq, Structural)]
pub struct NewAnswer {
    pub value: AnswerValue,
    pub user: UserId,
}

impl Answer<UserId> {
    /// The answer with its user looked up.
    pub fn materialize(self, user: User) -> (answer: Answer<User>)
        ensures
            answer.id == self.id,
            answer.value == self.value,
            answer.user == user,
    {
        Answer { id: self.id, value: self.value, user }
    }
}

impl Answer<User> {
    /// A field-by-field copy of the answer.
    pub fn duplicate(&self) -> (answer: Answer<User>)
        ensures
            answer == *self,
    {
        Answer { id: self.id, value: self.value, user: self.user.duplicate() }
    }
}

impl<U> Answer<U> {
    /// The user who answered, where the answer is a yes.
    pub fn yes(&self) -> (user: Option<&U>)
        ensures
            self.value is Yes ==> user == Some(&self.user),
            self.value is No ==> user is None,
    {
        match self.value {
            AnswerValue::No { .. } => None,
            AnswerValue::Yes { .. } => Some(&self.user),
        }
    }
}

/// Whether an answer is a yes.
pub open spec fn said_yes<U>() -> spec_fn(Answer<U>) -> bool {
    |a: Answer<U>| a.value is Yes
}

/// The number of yes answers among `answers`.
pub open spec fn yes_count<U>(answers: Seq<Answer<U>>) -> nat {
    answers.filter(said_yes::<U>()).len()
}

/// The largest number of yes answers of any of the dates; zero without dates.
pub open spec fn most_yes<U>(options: Seq<PollOption<U>>) -> nat
    decreases options.len(),
{
    if options.len() == 0 {
        0
    } else {
        let rest = most_yes(options.drop_last());
        let last = yes_count(options.last().answers@);
        if last > rest { last } else { rest }
    }
}

/// The largest number of yes answers is that of some date, and no date has more.
pub proof fn lemma_most_yes<U>(options: Seq<PollOption<U>>)
    requires
        options.len() > 0,
    ensures
        exists|i: int| 0 <= i < options.len() && yes_count(options[i].answers@) == most_yes(options),
        forall|i: int| 0 <= i < options.len() ==> yes_count(#[trigger] options[i].answers@) <= most_yes(options),
    decreases options.len(),
{
    let rest = options.drop_last();
    if rest.len() > 0 {
        lemma_most_yes(rest);
        assert forall|i: int| 0 <= i < options.len() implies yes_count(#[trigger] options[i].answers@) <= most_yes(options) by {
            if i < rest.len() {
                assert(rest[i] == options[i]);
            }
        }
        if yes_count(options.last().answers@) <= most_yes(rest) {
            let k = choose|k: int| 0 <= k < rest.len() && yes_count(rest[k].answers@) == most_yes(rest);
            assert(options[k] == rest[k]);
            assert(yes_count(options[k].answers@) == most_yes(options));
        } else {
            assert(options[options.len() - 1] == options.last());
            assert(yes_count(options[options.len() - 1].answers@) == most_yes(options));
        }
    } else {
        assert(options[0] == options.last());
        assert(most_yes(rest) == 0);
        assert(yes_count(options[0].answers@) == most_yes(options));
    }
}

/// Some answer among `answers` is a veto.
pub open spec fn vetoed<U>(answers: Seq<Answer<U>>) -> bool {
    exists|i: int| 0 <= i < answers.len() && answers[i].value == (AnswerValue::No { veto: true })
}

/// `user` has answered some date in `answers`.
pub open spec fn answered_by(answers: Seq<Answer<User>>, user: UserId) -> bool {
    exists|i: int| 0 <= i < answers.len() && answers[i].user.id == user
}

/// `user` has answered yes in `answers`.
pub open spec fn answered_yes_by(answers: Seq<Answer<User>>, user: UserId) -> bool {
    exists|i: int| 0 <= i < answers.len() && answers[i].user.id == user && answers[i].value is Yes
}

/// One of the dates that a poll offers.
#[derive(Debug, Clone)]
pub struct PollOption<U> {
    pub id: i64,
    pub starts_at: Timestamp,
    pub promote: bool,
    pub answers: Vec<Answer<U>>,
}

/// A date of a poll as a value: its answers as a sequence.
pub struct PollOptionView<U> {
    pub id: i64,
    pub starts_at: Timestamp,
    pub promote: bool,
    pub answers: Seq<Answer<U>>,
}

impl<U> View for PollOption<U> {
    type V = PollOptionView<U>;

    open spec fn view(&self) -> PollOptionView<U> {
        PollOptionView {
            id: self.id,
            starts_at: self.starts_at,
            promote: self.promote,
            answers: self.answers@,
        }
    }
}

/// The dates of a poll as values.
pub open spec fn option_views<U>(options: Seq<PollOption<U>>) -> Seq<PollOptionView<U>> {
    options.map_values(|o: PollOption<U>| o@)
}

impl<U> PollOption<U> {
    pub fn count_yes_answers(&self) -> (count: usize)
        ensures
            count == yes_count(self.answers@),
    {
        let mut count: usize = 0;
        let mut i: usize = 0;
        while i < self.answers.len()
            invariant
                i <= self.answers@.len(),
                count == yes_count(self.answers@.take(i as int)),
            decreases self.answers@.len() - i,
        {
            proof {
                broadcast use Seq::lemma_filter_push, Seq::lemma_filter_len;
                assert(self.answers@.take(i + 1) =~= self.answers@.take(i as int).push(self.answers@[i as int]));
            }
            if self.answers[i].value.is_yes() {
                count = count + 1;
            }
            i = i + 1;
        }
        assert(self.answers@.take(i as int) =~= self.answers@);
        count
    }

    pub fn has_veto(&self) -> (b: bool)
        ensures
            b == vetoed(self.answers@),
    {
        let mut i: usize = 0;
        while i < self.answers.len()
            invariant
                i <= self.answers@.len(),
                forall|j: int| 0 <= j < i ==> self.answers@[j].value != (AnswerValue::No { veto: true }),
            decreases self.answers@.len() - i,
        {
            match self.answers[i].value {
                AnswerValue::No { veto: true } => return true,
                _ => {},
            }
            i = i + 1;
        }
        false
    }
}

impl PollOption<User> {
    /// A field-by-field copy of the option and its answers.
    pub fn duplicate(&self) -> (option: PollOption<User>)
        ensures
            option@ == self@,
    {
        let mut answers: Vec<Answer<User>> = Vec::new();
        let mut i: usize = 0;
        while i < self.answers.len()
            invariant
                i <= self.answers@.len(),
                answers@ == self.answers@.take(i as int),
            decreases self.answers@.len() - i,
        {
            answers.push(self.answers[i].duplicate());
            i = i + 1;
            assert(answers@ =~= self.answers@.take(i as int));
        }
        assert(self.answers@.take(i as int) =~= self.answers@);
        PollOption { id: self.id, starts_at: self.starts_at, promote: self.promote, answers }
    }

    pub fn has_answer(&self, user: UserId) -> (b: bool)
        ensures
            b == answered_by(self.answers@, user),
    {
        let mut i: usize = 0;
        while i < self.answers.len()
            invariant
                i <= self.answers@.len(),
                forall|j: int| 0 <= j < i ==> self.answers@[j].user.id != user,
            decreases self.answers@.len() - i,
        {
            if self.answers[i].user.id == user {
                return true;
            }
            i = i + 1;
        }
        false
    }

    pub fn has_yes_answer(&self, user: UserId) -> (b: bool)
        ensures
            b == answered_yes_by(self.answers@, user),
    {
        let mut i: usize = 0;
        while i < self.answers.len()
            invariant
                i <= self.answers@.len(),
                forall|j: int|
                    0 <= j < i ==> !(self.answers@[j].user.id == user && self.answers@[j].value is Yes),
            decreases self.answers@.len() - i,
        {
            if self.answers[i].user.id == user && self.answers[i].value.is_yes() {
                return true;
            }
            i = i + 1;
        }
        false
    }
}

/// A date of a poll that has not been stored yet.
#[derive(Debug, Clone)]
pub struct NewPollOption {
    pub starts_at: Timestamp,
    pub promote: bool,
    pub answers: Vec<NewAnswer>,
}

/// How far a poll has progressed.
#[derive(Debug, Copy, Clone, PartialEq, Eq, Structural)]
pub enum PollStage {
    Open,
    Blocked,
    Pending,
    Finalizing,
    Closed,
}

/// How the date of an event is picked among the dates that enough people can attend.
#[derive(Debug, Copy, Clone, PartialEq, Eq, Structural)]
pub enum DateSelectionStrategy {
    AtRandom,
    ToMaximizeParticipants,
}

/// How a strategy is described to people.
pub open spec fn strategy_description(strategy: DateSelectionStrategy) -> Seq<char> {
    match strategy {
        DateSelectionStrategy::AtRandom => "at random"@,
        DateSelectionStrategy::ToMaximizeParticipants => "to maximize participants"@,
    }
}

impl DateSelectionStrategy {
    pub fn to_string(&self) -> (s: String)
        ensures
            s@ == strategy_description(*self),
    {
        proof {
            reveal_strlit("at random");
            reveal_strlit("to maximize participants");
        }
        match self {
            DateSelectionStrategy::AtRandom => "at random".to_string(),
            DateSelectionStrategy::ToMaximizeParticipants => "to maximize participants".to_string(),
        }
    }
}

/// The event that a poll picks a date for.
#[derive(Debug, Clone)]
pub struct PollEvent {
    pub id: i64,
    pub title: String,
    pub description: String,
    pub created_by: UserId,
    pub location: i64,
    pub restrict_to: Option<i64>,
}

/// A stored poll with its dates and their answers.
#[derive(Debug, Clone)]
pub struct Poll {
    pub id: i64,
    pub min_participants: usize,
    pub strategy: DateSelectionStrategy,
    pub open_until: Timestamp,
    pub stage: PollStage,
    pub event: PollEvent,
    pub options: Vec<PollOption<User>>,
}

/// A stored poll before its event and dates have been looked up.
#[derive(Debug, Clone, Copy, PartialEq, Eq, Structural)]
pub struct StoredPoll {
    pub id: i64,
    pub min_participants: usize,
    pub strategy: DateSelectionStrategy,
    pub open_until: Timestamp,
    pub stage: PollStage,
    pub event: i64,
}

impl StoredPoll {
    /// The poll with its event and its dates.
    pub fn into_materialized(self, event: PollEvent, options: Vec<PollOption<User>>) -> (poll: Poll)
        ensures
            poll.id == self.id,
            poll.min_participants == self.min_participants,
            poll.strategy == self.strategy,
            poll.open_until == self.open_until,
            poll.stage == self.stage,
            poll.event == event,
            poll.options == options,
    {
        Poll {
            id: self.id,
            min_participants: self.min_participants,
            strategy: self.strategy,
            open_until: self.open_until,
            stage: self.stage,
            event,
            options,
        }
    }
}

/// `user` has answered some date of the poll.
pub open spec fn poll_answered_by(options: Seq<PollOption<User>>, user: UserId) -> bool {
    exists|i: int| 0 <= i < options.len() && answered_by(options[i].answers@, user)
}

/// `user` has answered yes to some date of the poll.
pub open spec fn poll_answered_yes_by(options: Seq<PollOption<User>>, user: UserId) -> bool {
    exists|i: int| 0 <= i < options.len() && answered_yes_by(options[i].answers@, user)
}

impl Poll {
    pub fn has_answer(&self, user: UserId) -> (b: bool)
        ensures
            b == poll_answered_by(self.options@, user),
    {
        let mut i: usize = 0;
        while i < self.options.len()
            invariant
                i <= self.options@.len(),
                forall|j: int| 0 <= j < i ==> !answered_by(#[trigger] self.options@[j].answers@, user),
            decreases self.options@.len() - i,
        {
            if self.options[i].has_answer(user) {
                return true;
            }
            i = i + 1;
        }
        false
    }

    pub fn has_yes_answer(&self, user: UserId) -> (b: bool)
        ensures
            b == poll_answered_yes_by(self.options@, user),
    {
        let mut i: usize = 0;
        while i < self.options.len()
            invariant
                i <= self.options@.len(),
                forall|j: int| 0 <= j < i ==> !answered_yes_by(#[trigger] self.options@[j].answers@, user),
            decreases self.options@.len() - i,
        {
            if self.options[i].has_yes_answer(user) {
                return true;
            }
            i = i + 1;
        }
        false
    }
}

/// Whether a poll still takes answers, as seen at some instant.
#[derive(Debug, Copy, Clone, PartialEq, Eq, Structural)]
pub enum PollState {
    Open,
    PendingClosure,
    Closed,
}

impl PollState {
    pub fn is_open(self) -> (b: bool)
        ensures
            b == (self is Open),
    {
        match self {
            PollState::Open => true,
            _ => false,
        }
    }
}

/// The state of a poll that is `closed` or not and takes answers until `open_until`,
/// at the instant `now`: the end is inclusive.
pub open spec fn poll_state_at(closed: bool, open_until: Timestamp, now: Timestamp) -> PollState {
    if closed {
        PollState::Closed
    } else if now.unix_nanos > open_until.unix_nanos {
        PollState::PendingClosure
    } else {
        PollState::Open
    }
}

/// Time only moves a poll forward: one that is open at some instant was open at every
/// earlier instant, one that waits to be closed keeps waiting at every later instant,
/// and a closed poll is closed at every instant.
pub proof fn lemma_poll_state_moves_forward(closed: bool, open_until: Timestamp, earlier: Timestamp, later: Timestamp)
    requires
        earlier.unix_nanos <= later.unix_nanos,
    ensures
        poll_state_at(closed, open_until, later) is Open ==> poll_state_at(closed, open_until, earlier) is Open,
        poll_state_at(closed, open_until, earlier) is PendingClosure ==> poll_state_at(closed, open_until, later) is PendingClosure,
        closed ==> poll_state_at(closed, open_until, earlier) is Closed && poll_state_at(closed, open_until, later) is Closed,
        !closed ==> !(poll_state_at(closed, open_until, later) is Closed),
{
}

/// A poll as the scheduler sees it: whether it was closed, and until when it is open.
#[derive(Debug, Copy, Clone, PartialEq, Eq, Structural)]
pub struct PollSchedule {
    pub closed: bool,
    pub open_until: Timestamp,
}

impl PollSchedule {
    pub fn state(&self, now: Timestamp) -> (state: PollState)
        ensures
            state == poll_state_at(self.closed, self.open_until, now),
    {
        if self.closed {
            PollState::Closed
        } else if now.is_after(&self.open_until) {
            PollState::PendingClosure
        } else {
            PollState::Open
        }
    }

    pub fn is_open(&self, now: Timestamp) -> (b: bool)
        ensures
            b == (poll_state_at(self.closed, self.open_until, now) is Open),
    {
        self.state(now).is_open()
    }
}

} // verus!
