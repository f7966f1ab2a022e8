//! Closing a poll by hand: the page that shows the candidate dates, and the
//! changes that the organiser's choices make to the dates.
use vstd::prelude::*;
use crate::answer::AnswerValue;
use crate::finalize::{candidates_of, get_candidates};
use crate::poll::{option_views, NewAnswer, Poll, PollOption, PollStage};
use crate::users::{User, UserId};

verus! {

/// What the organiser decided for one date: whether it is promoted, and whether it is vetoed.
#[derive(Debug, Copy, Clone, PartialEq, Eq, Structural)]
pub struct PollOptionAction {
    pub id: i64,
    pub promote: bool,
    pub veto: bool,
}

/// A change to the stored fields of a date; `None` leaves a field as it is.
#[derive(Debug, Copy, Clone, PartialEq, Eq, Structural)]
pub struct PollOptionPatch {
    pub promote: Option<bool>,
}

/// A change to be stored for a date of the poll.
#[derive(Debug, Copy, Clone, PartialEq, Eq, Structural)]
pub enum PollOptionChange {
    Patch { option_id: i64, patch: PollOptionPatch },
    AddAnswer { option_id: i64, answer: NewAnswer },
}

/// The changes that one decision makes: the promotion is stored, and a veto by
/// `user` is added where the date is vetoed.
pub open spec fn changes_of(action: PollOptionAction, user: UserId) -> Seq<PollOptionChange> {
    let patch = PollOptionChange::Patch { option_id: action.id, patch: PollOptionPatch { promote: Some(action.promote) } };
    if action.veto {
        seq![patch, PollOptionChange::AddAnswer {
            option_id: action.id,
            answer: NewAnswer { value: AnswerValue::No { veto: true }, user },
        }]
    } else {
        seq![patch]
    }
}

/// The changes of all decisions, in order.
pub open spec fn all_changes_of(actions: Seq<PollOptionAction>, user: UserId) -> Seq<PollOptionChange>
    decreases actions.len(),
{
    if actions.len() == 0 {
        Seq::empty()
    } else {
        all_changes_of(actions.drop_last(), user) + changes_of(actions.last(), user)
    }
}

/// The changes that one decision of `user` makes.
pub fn apply_action(user: &User, action: &PollOptionAction) -> (changes: Vec<PollOptionChange>)
    ensures
        changes@ == changes_of(*action, user.id),
{
    let mut changes: Vec<PollOptionChange> = Vec::new();
    changes.push(PollOptionChange::Patch { option_id: action.id, patch: PollOptionPatch { promote: Some(action.promote) } });
    if action.veto {
        changes.push(PollOptionChange::AddAnswer {
            option_id: action.id,
            answer: NewAnswer { value: AnswerValue::veto(), user: user.id },
        });
    }
    assert(changes@ =~= changes_of(*action, user.id));
    changes
}

/// The changes that the decisions of `user` make, in order.
pub fn apply_actions(user: &User, actions: &[PollOptionAction]) -> (changes: Vec<PollOptionChange>)
    ensures
        changes@ == all_changes_of(actions@, user.id),
{
    let mut changes: Vec<PollOptionChange> = Vec::new();
    let mut i: usize = 0;
    while i < actions.len()
        invariant
            i <= actions@.len(),
            changes@ == all_changes_of(actions@.take(i as int), user.id),
        decreases actions@.len() - i,
    {
        let mut more = apply_action(user, &actions[i]);
        assert(actions@.take(i + 1).drop_last() =~= actions@.take(i as int));
        changes.append(&mut more);
        i = i + 1;
    }
    assert(actions@.take(i as int) =~= actions@);
    changes
}

/// The page for closing a poll by hand.
#[derive(Debug)]
pub struct ClosePollPage {
    pub poll: Poll,
    pub candidates: Vec<PollOption<User>>,
    pub close_manually: bool,
}

/// The page for closing `poll`: its candidate dates, and whether it waits to be
/// closed by hand.
pub fn close_poll_page(poll: Poll) -> (page: ClosePollPage)
    ensures
        page.poll == poll,
        option_views(page.candidates@) == candidates_of(option_views(poll.options@), poll.min_participants),
        page.close_manually == (poll.stage == PollStage::Blocked),
{
    let candidates = get_candidates(&poll);
    let close_manually = match poll.stage {
        PollStage::Blocked => true,
        _ => false,
    };
    ClosePollPage { poll, candidates, close_manually }
}

} // verus!
