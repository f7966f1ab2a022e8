//! Choosing participants when an event has limited room: people who must attend
//! are always accepted, and the remaining places go to the others at random.
use vstd::prelude::*;
use crate::answer::{AnswerValue, Attendance};
use crate::clock::Timestamp;
use crate::finalize::choose_random;
use crate::origins::drawn_at_random;
use crate::poll::{
    most_yes, option_views, poll_state_at, yes_count, Answer, DateSelectionStrategy, PollOption, PollOptionView,
    PollSchedule, PollState,
};
use crate::users::{User, UserId};
use rand::seq::SliceRandom;

verus! {

broadcast use Seq::lemma_filter_push, Seq::lemma_filter_len;

/// A yes answer: how firmly, and by whom.
#[derive(Debug, Copy, Clone, PartialEq, Eq, Structural)]
pub struct YesAnswer {
    pub attendance: Attendance,
    pub user: UserId,
}

/// The yes answer that `answer` is, if it is one.
pub open spec fn yes_answer_of(answer: Answer<User>) -> Option<YesAnswer> {
    match answer.value {
        AnswerValue::Yes { attendance } => Some(YesAnswer { attendance, user: answer.user.id }),
        AnswerValue::No { .. } => None,
    }
}

pub fn yes_answer(answer: &Answer<User>) -> (yes: Option<YesAnswer>)
    ensures
        yes == yes_answer_of(*answer),
{
    match answer.value {
        AnswerValue::Yes { attendance } => Some(YesAnswer { attendance, user: answer.user.id }),
        AnswerValue::No { .. } => None,
    }
}

/// The users who answered yes with the given attendance, in order.
pub open spec fn yes_with(answers: Seq<Answer<User>>, attendance: Attendance) -> Seq<UserId> {
    answers.filter(|a: Answer<User>| a.value == (AnswerValue::Yes { attendance })).map_values(
        |a: Answer<User>| a.user.id,
    )
}

/// The largest number of yes answers of any date, but no more than fit;
/// `None` without dates.
pub fn max_participants<U>(options: &[PollOption<U>], max_allowed_participants: usize) -> (max: Option<usize>)
    ensures
        max is None <==> options@.len() == 0,
        max matches Some(m) ==> m == if most_yes(options@) < max_allowed_participants {
            most_yes(options@)
        } else {
            max_allowed_participants as nat
        },
{
    let mut max: Option<usize> = None;
    let mut i: usize = 0;
    while i < options.len()
        invariant
            i <= options@.len(),
            max is None <==> i == 0,
            max matches Some(m) ==> m == most_yes(options@.take(i as int)),
        decreases options@.len() - i,
    {
        let count = options[i].count_yes_answers();
        assert(options@.take(i + 1).drop_last() =~= options@.take(i as int));
        assert(options@.take(i + 1).last() == options@[i as int]);
        assert(most_yes(options@.take(0)) == 0);
        match max {
            None => { max = Some(count); },
            Some(m) => {
                if count > m {
                    max = Some(count);
                }
            },
        }
        i = i + 1;
    }
    assert(options@.take(i as int) =~= options@);
    match max {
        None => None,
        Some(m) => Some(if m < max_allowed_participants { m } else { max_allowed_participants }),
    }
}

/// The users who must attend and those who may attend, each in the order of the answers.
pub fn pre_partition_by_attendance(answers: &[Answer<User>]) -> (partition: (Vec<UserId>, Vec<UserId>))
    ensures
        partition.0@ == yes_with(answers@, Attendance::Required),
        partition.1@ == yes_with(answers@, Attendance::Optional),
{
    let ghost req = |a: Answer<User>| a.value == (AnswerValue::Yes { attendance: Attendance::Required });
    let ghost opt = |a: Answer<User>| a.value == (AnswerValue::Yes { attendance: Attendance::Optional });
    let mut required: Vec<UserId> = Vec::new();
    let mut optional: Vec<UserId> = Vec::new();
    let mut i: usize = 0;
    while i < answers.len()
        invariant
            i <= answers@.len(),
            req == (|a: Answer<User>| a.value == (AnswerValue::Yes { attendance: Attendance::Required })),
            opt == (|a: Answer<User>| a.value == (AnswerValue::Yes { attendance: Attendance::Optional })),
            required@ == answers@.take(i as int).filter(req).map_values(|a: Answer<User>| a.user.id),
            optional@ == answers@.take(i as int).filter(opt).map_values(|a: Answer<User>| a.user.id),
        decreases answers@.len() - i,
    {
        assert(answers@.take(i + 1) =~= answers@.take(i as int).push(answers@[i as int]));
        match yes_answer(&answers[i]) {
            Some(yes) => {
                match yes.attendance {
                    Attendance::Required => required.push(yes.user),
                    Attendance::Optional => optional.push(yes.user),
                }
            },
            None => {},
        }
        assert(required@ =~= answers@.take(i + 1).filter(req).map_values(|a: Answer<User>| a.user.id));
        assert(optional@ =~= answers@.take(i + 1).filter(opt).map_values(|a: Answer<User>| a.user.id));
        i = i + 1;
    }
    assert(answers@.take(i as int) =~= answers@);
    (required, optional)
}

/// Calls `SliceRandom::shuffle` with the thread-local generator. Claimed: the
/// elements stay the same, each as often; their order is chance.
#[verifier::external_body]
fn shuffle<T>(items: &mut Vec<T>)
    ensures
        final(items)@.to_multiset() == old(items)@.to_multiset(),
        drawn_at_random(final(items)@),
{
    items.as_mut_slice().shuffle(&mut rand::rng())
}

/// `chosen` holds the accepted and the rejected among those who answered yes: everyone
/// who must attend is accepted, the places left below `max_participants` go to people
/// who may attend in an order that the random generator drew, and the others are rejected.
pub open spec fn participants_chosen(answers: Seq<Answer<User>>, max_participants: usize, chosen: (Seq<UserId>, Seq<UserId>)) -> bool {
    let required = yes_with(answers, Attendance::Required);
    let optional = yes_with(answers, Attendance::Optional);
    let accepted = chosen.0;
    let rejected = chosen.1;
    &&& accepted.take(required.len() as int) == required
    &&& accepted.len() == required.len() + if max_participants <= required.len() {
        0
    } else if max_participants - required.len() < optional.len() {
        max_participants - required.len()
    } else {
        optional.len() as int
    }
    &&& accepted.skip(required.len() as int).to_multiset().add(rejected.to_multiset()) == optional.to_multiset()
    &&& max_participants <= required.len() ==> rejected == optional
    &&& max_participants > required.len() ==> exists|shuffled: Seq<UserId>| {
        &&& #[trigger] drawn_at_random(shuffled)
        &&& accepted.skip(required.len() as int) + rejected == shuffled
    }
}

/// Everyone who must attend is accepted; the places left below `max_participants`
/// go to people picked at random among those who may attend, and the others are rejected.
pub fn choose_participants(answers: &[Answer<User>], max_participants: usize) -> (chosen: (Vec<UserId>, Vec<UserId>))
    ensures
        ({
            let required = yes_with(answers@, Attendance::Required);
            let optional = yes_with(answers@, Attendance::Optional);
            let accepted = chosen.0@;
            let rejected = chosen.1@;
            &&& accepted.take(required.len() as int) == required
            &&& accepted.len() == required.len() + if max_participants <= required.len() {
                0
            } else if max_participants - required.len() < optional.len() {
                max_participants - required.len()
            } else {
                optional.len() as int
            }
            &&& accepted.skip(required.len() as int).to_multiset().add(rejected.to_multiset())
                == optional.to_multiset()
        }),
        max_participants <= yes_with(answers@, Attendance::Required).len()
            ==> chosen.1@ == yes_with(answers@, Attendance::Optional),
        max_participants > yes_with(answers@, Attendance::Required).len() ==> exists|shuffled: Seq<UserId>| {
            &&& #[trigger] drawn_at_random(shuffled)
            &&& chosen.0@.skip(yes_with(answers@, Attendance::Required).len() as int) + chosen.1@ == shuffled
        },
{
    let (mut accepted, mut rejected) = pre_partition_by_attendance(answers);
    let ghost required = accepted@;
    let ghost optional = rejected@;
    let available = if max_participants > accepted.len() { max_participants - accepted.len() } else { 0 };
    if available > 0 {
        shuffle(&mut rejected);
        proof {
            vstd::seq_lib::to_multiset_len(rejected@);
            vstd::seq_lib::to_multiset_len(optional);
        }
        let take = if available < rejected.len() { available } else { rejected.len() };
        let ghost shuffled = rejected@;
        let mut rest: Vec<UserId> = Vec::new();
        let mut i: usize = 0;
        while i < rejected.len()
            invariant
                i <= rejected@.len(),
                rejected@ == shuffled,
                take <= rejected@.len(),
                accepted@ == required + shuffled.take(if i < take { i as int } else { take as int }),
                rest@ == if i < take { Seq::<UserId>::empty() } else { shuffled.subrange(take as int, i as int) },
            decreases rejected@.len() - i,
        {
            if i < take {
                accepted.push(rejected[i]);
            } else {
                rest.push(rejected[i]);
            }
            i = i + 1;
            assert(accepted@ =~= required + shuffled.take(if i < take { i as int } else { take as int }));
            assert(rest@ =~= if i < take { Seq::<UserId>::empty() } else { shuffled.subrange(take as int, i as int) });
        }
        proof {
            assert(accepted@.take(required.len() as int) =~= required);
            assert(accepted@.skip(required.len() as int) =~= shuffled.take(take as int));
            assert(shuffled =~= shuffled.take(take as int) + shuffled.subrange(take as int, shuffled.len() as int));
            assert(accepted@.skip(required.len() as int) + rest@ == shuffled);
            assert(drawn_at_random(shuffled));
            vstd::seq_lib::lemma_multiset_commutative(shuffled.take(take as int), shuffled.subrange(take as int, shuffled.len() as int));
        }
        (accepted, rest)
    } else {
        proof {
            assert(accepted@.take(required.len() as int) =~= required);
            assert(accepted@.skip(required.len() as int) =~= Seq::<UserId>::empty());
            vstd::seq_lib::lemma_multiset_commutative(Seq::<UserId>::empty(), optional);
            assert(Seq::<UserId>::empty() + optional =~= optional);
        }
        (accepted, rejected)
    }
}

/// A poll with a cap on the number of participants. `U` is who created it and who
/// answered: a `UserId` as it is read from storage, a `User` once looked up.
#[derive(Debug)]
pub struct CappedPoll<U> {
    pub id: i64,
    pub min_participants: usize,
    pub max_participants: usize,
    pub strategy: DateSelectionStrategy,
    pub description: String,
    pub open_until: Timestamp,
    pub closed: bool,
    pub created_by: U,
    pub options: Vec<PollOption<U>>,
}

impl<U> CappedPoll<U> {
    /// The poll with its creator and its dates looked up.
    pub fn materialize(self, user: User, options: Vec<PollOption<User>>) -> (poll: CappedPoll<User>)
        ensures
            poll.id == self.id,
            poll.min_participants == self.min_participants,
            poll.max_participants == self.max_participants,
            poll.strategy == self.strategy,
            poll.description == self.description,
            poll.open_until == self.open_until,
            poll.closed == self.closed,
            poll.created_by == user,
            poll.options == options,
    {
        CappedPoll {
            id: self.id,
            min_participants: self.min_participants,
            max_participants: self.max_participants,
            strategy: self.strategy,
            description: self.description,
            open_until: self.open_until,
            closed: self.closed,
            created_by: user,
            options,
        }
    }

    /// Whether the poll takes answers at `now`: closed polls never, the others until
    /// and including their end.
    pub fn state(&self, now: Timestamp) -> (state: PollState)
        ensures
            state == poll_state_at(self.closed, self.open_until, now),
    {
        PollSchedule { closed: self.closed, open_until: self.open_until }.state(now)
    }

    pub fn is_open(&self, now: Timestamp) -> (b: bool)
        ensures
            b == (poll_state_at(self.closed, self.open_until, now) is Open),
    {
        self.state(now).is_open()
    }
}

/// A date that at least `min_participants` people can attend.
pub open spec fn has_enough(min_participants: usize) -> spec_fn(PollOptionView<User>) -> bool {
    |o: PollOptionView<User>| yes_count(o.answers) >= min_participants
}

/// The dates of a capped poll that at least its minimum number of people can attend.
pub fn get_candidates(poll: &CappedPoll<User>) -> (candidates: Vec<PollOption<User>>)
    ensures
        option_views(candidates@) == option_views(poll.options@).filter(has_enough(poll.min_participants)),
{
    let ghost pred = has_enough(poll.min_participants);
    let mut candidates: Vec<PollOption<User>> = Vec::new();
    let mut i: usize = 0;
    while i < poll.options.len()
        invariant
            i <= poll.options@.len(),
            pred == has_enough(poll.min_participants),
            option_views(candidates@) == option_views(poll.options@.take(i as int)).filter(pred),
        decreases poll.options@.len() - i,
    {
        let option = &poll.options[i];
        assert(option_views(poll.options@.take(i + 1)) =~= option_views(poll.options@.take(i as int)).push(option@));
        if option.count_yes_answers() >= poll.min_participants {
            let ghost before = candidates@;
            candidates.push(option.duplicate());
            assert(option_views(candidates@) =~= option_views(before).push(option@));
        }
        i = i + 1;
    }
    assert(poll.options@.take(i as int) =~= poll.options@);
    candidates
}

/// The most yes answers of any candidate, but no more than fit.
pub open spec fn capped_most_yes(candidates: Seq<PollOption<User>>, max_allowed_participants: usize) -> nat {
    if most_yes(candidates) < max_allowed_participants { most_yes(candidates) } else { max_allowed_participants as nat }
}

/// Picks the date among the candidates: any of them at random, or, to have as many
/// participants as fit, any of those that as many people can attend as fit or as
/// the best date allows.
pub fn choose_option(candidates: Vec<PollOption<User>>, strategy: DateSelectionStrategy, max_allowed_participants: usize) -> (chosen: Option<PollOption<User>>)
    ensures
        chosen is None <==> candidates@.len() == 0,
        chosen matches Some(c) ==> exists|k: int| 0 <= k < candidates@.len() && c@ == candidates@[k]@,
        chosen matches Some(c) ==> exists|o: PollOption<User>| #[trigger] drawn_at_random(o) && o@ == c@,
        strategy == DateSelectionStrategy::ToMaximizeParticipants ==> (chosen matches Some(c)
            ==> yes_count(c@.answers) >= capped_most_yes(candidates@, max_allowed_participants)),
{
    match strategy {
        DateSelectionStrategy::AtRandom => {
            match choose_random(candidates.as_slice()) {
                Some(c) => {
                    let d = c.duplicate();
                    assert(drawn_at_random(*c) && (*c)@ == d@);
                    Some(d)
                },
                None => None,
            }
        },
        DateSelectionStrategy::ToMaximizeParticipants => {
            let max = max_participants(candidates.as_slice(), max_allowed_participants);
            let m = match max {
                None => return None,
                Some(m) => m,
            };
            proof {
                crate::poll::lemma_most_yes(candidates@);
            }
            let mut best: Vec<PollOption<User>> = Vec::new();
            let mut i: usize = 0;
            while i < candidates.len()
                invariant
                    i <= candidates@.len(),
                    m == capped_most_yes(candidates@, max_allowed_participants),
                    exists|k: int| 0 <= k < candidates@.len() && yes_count(candidates@[k]@.answers) >= m,
                    forall|j: int| 0 <= j < best@.len() ==> (exists|k: int| 0 <= k < candidates@.len() && #[trigger] best@[j]@ == candidates@[k]@),
                    forall|j: int| 0 <= j < best@.len() ==> yes_count(#[trigger] best@[j]@.answers) >= m,
                    (exists|k: int| 0 <= k < i && yes_count(candidates@[k]@.answers) >= m) ==> best@.len() > 0,
                decreases candidates@.len() - i,
            {
                if candidates[i].count_yes_answers() >= m {
                    let d = candidates[i].duplicate();
                    best.push(d);
                    assert(best@[best@.len() - 1]@ == candidates@[i as int]@);
                }
                i = i + 1;
            }
            match choose_random(best.as_slice()) {
                Some(c) => {
                    let d = c.duplicate();
                    assert(drawn_at_random(*c) && (*c)@ == d@);
                    Some(d)
                },
                None => None,
            }
        },
    }
}

/// Finalising a capped poll: the chosen date, with the people accepted for it and
/// those rejected for want of room; `None` where no date has enough people.
pub fn finalize_capped_poll(poll: &CappedPoll<User>) -> (result: Option<(PollOption<User>, (Vec<UserId>, Vec<UserId>))>)
    ensures
        result is None <==> option_views(poll.options@).filter(has_enough(poll.min_participants)).len() == 0,
        result matches Some(r) ==> {
            &&& option_views(poll.options@).filter(has_enough(poll.min_participants)).contains(r.0@)
            &&& yes_with(r.0.answers@, Attendance::Required) == r.1.0@.take(
                yes_with(r.0.answers@, Attendance::Required).len() as int,
            )
            &&& participants_chosen(r.0.answers@, poll.max_participants, (r.1.0@, r.1.1@))
            &&& exists|o: PollOption<User>| #[trigger] drawn_at_random(o) && o@ == r.0@
        },
{
    let candidates = get_candidates(poll);
    let ghost views = option_views(candidates@);
    match choose_option(candidates, poll.strategy, poll.max_participants) {
        Some(chosen) => {
            assert(views.contains(chosen@)) by {
                let k = choose|k: int| 0 <= k < candidates@.len() && chosen@ == candidates@[k]@;
                assert(views[k] == chosen@);
            }
            let participants = choose_participants(chosen.answers.as_slice(), poll.max_participants);
            Some((chosen, participants))
        },
        None => None,
    }
}

} // verus!
