//! Answers to the dates of a poll: yes with an attendance, or no with or without a
//! veto; how they are shown in forms and how they are stored.
use vstd::prelude::*;
use crate::users::UserId;
use crate::text::{push_str, str_eq};

verus! {

/// How firmly a participant has committed to a date.
#[derive(Debug, Copy, Clone, PartialEq, Eq, Structural)]
pub enum Attendance {
    Optional,
    /// Admins and people with a special permission can set their attendance to "required".
    /// Participants with required attendance will never be removed from the event
    /// even if the event is over capacity.
    Required,
}

/// The answer a user gave for one date of a poll.
#[derive(Debug, Copy, Clone, PartialEq, Eq, Structural)]
pub enum AnswerValue {
    No { veto: bool },
    Yes { attendance: Attendance },
}

/// The pair `(yes, strong)` that an answer is shown as in a form:
/// a strong yes is a required attendance, a strong no is a veto.
pub open spec fn bools_of(value: AnswerValue) -> (bool, bool) {
    match value {
        AnswerValue::Yes { attendance } => (true, attendance == Attendance::Required),
        AnswerValue::No { veto } => (false, veto),
    }
}

/// The answer that a `(yes, strong)` pair from a form stands for.
pub open spec fn value_of_bools(bools: (bool, bool)) -> AnswerValue {
    if bools.0 {
        if bools.1 {
            AnswerValue::Yes { attendance: Attendance::Required }
        } else {
            AnswerValue::Yes { attendance: Attendance::Optional }
        }
    } else {
        AnswerValue::No { veto: bools.1 }
    }
}

/// The same answer without its strength: an optional yes, or a plain no.
pub open spec fn weakened(value: AnswerValue) -> AnswerValue {
    match value {
        AnswerValue::Yes { .. } => AnswerValue::Yes { attendance: Attendance::Optional },
        AnswerValue::No { .. } => AnswerValue::No { veto: false },
    }
}

impl AnswerValue {
    pub fn no(veto: bool) -> (value: Self)
        ensures
            value == (AnswerValue::No { veto }),
    {
        AnswerValue::No { veto }
    }

    pub fn yes(attendance: Attendance) -> (value: Self)
        ensures
            value == (AnswerValue::Yes { attendance }),
    {
        AnswerValue::Yes { attendance }
    }

    pub fn veto() -> (value: Self)
        ensures
            value == (AnswerValue::No { veto: true }),
    {
        Self::no(true)
    }

    pub fn is_yes(self) -> (b: bool)
        ensures
            b == (self is Yes),
    {
        match self {
            AnswerValue::Yes { .. } => true,
            AnswerValue::No { .. } => false,
        }
    }

    pub fn to_bools(self) -> (bools: (bool, bool))
        ensures
            bools == bools_of(self),
    {
        match self {
            AnswerValue::Yes { attendance } => (true, match attendance {
                Attendance::Required => true,
                Attendance::Optional => false,
            }),
            AnswerValue::No { veto } => (false, veto),
        }
    }

    pub fn from_bools(bools: (bool, bool)) -> (value: Self)
        ensures
            value == value_of_bools(bools),
    {
        let (yes, strong) = bools;
        match (yes, strong) {
            (true, true) => Self::yes(Attendance::Required),
            (true, false) => Self::yes(Attendance::Optional),
            (false, veto) => Self::no(veto),
        }
    }

    pub fn ensure_weak(self) -> (value: Self)
        ensures
            value == weakened(self),
    {
        match self {
            AnswerValue::Yes { .. } => Self::yes(Attendance::Optional),
            AnswerValue::No { .. } => Self::no(false),
        }
    }
}

/// Reading an answer into its form fields and back gives the same answer.
pub proof fn lemma_answer_bools_round_trip(value: AnswerValue)
    ensures
        value_of_bools(bools_of(value)) == value,
{
}

/// Every pair of form fields stands for exactly one answer: turning the pair
/// into an answer and back gives the same pair.
pub proof fn lemma_bools_answer_round_trip(bools: (bool, bool))
    ensures
        bools_of(value_of_bools(bools)) == bools,
{
}

/// Weakening keeps whether an answer is a yes, leaves no strength behind,
/// and changes nothing when done twice.
pub proof fn lemma_weakening(value: AnswerValue)
    ensures
        (weakened(value) is Yes) == (value is Yes),
        !bools_of(weakened(value)).1,
        weakened(weakened(value)) == weakened(value),
        !bools_of(value).1 ==> weakened(value) == value,
{
}

/// How an answer is stored: as one of four words.
pub open spec fn answer_text(value: AnswerValue) -> Seq<char> {
    match value {
        AnswerValue::No { veto: true } => "veto"@,
        AnswerValue::No { veto: false } => "no"@,
        AnswerValue::Yes { attendance: Attendance::Optional } => "yes:optional"@,
        AnswerValue::Yes { attendance: Attendance::Required } => "yes:required"@,
    }
}

/// The answer that a stored word stands for, if it is one of the four.
pub open spec fn answer_of_text(text: Seq<char>) -> Option<AnswerValue> {
    if text == "veto"@ {
        Some(AnswerValue::No { veto: true })
    } else if text == "no"@ {
        Some(AnswerValue::No { veto: false })
    } else if text == "yes:optional"@ {
        Some(AnswerValue::Yes { attendance: Attendance::Optional })
    } else if text == "yes:required"@ {
        Some(AnswerValue::Yes { attendance: Attendance::Required })
    } else {
        None
    }
}

/// The message for a stored word that is no answer.
pub open spec fn invalid_answer_message(text: Seq<char>) -> Seq<char> {
    "Invalid answer value: "@ + text
}

impl AnswerValue {
    /// The word under which the answer is stored.
    pub fn encode(&self) -> (text: String)
        ensures
            text@ == answer_text(*self),
    {
        proof {
            reveal_strlit("veto");
            reveal_strlit("no");
            reveal_strlit("yes:optional");
            reveal_strlit("yes:required");
        }
        match self {
            AnswerValue::No { veto: true } => "veto".to_string(),
            AnswerValue::No { veto: false } => "no".to_string(),
            AnswerValue::Yes { attendance: Attendance::Optional } => "yes:optional".to_string(),
            AnswerValue::Yes { attendance: Attendance::Required } => "yes:required".to_string(),
        }
    }

    /// The answer stored as `text`; an error naming the text where it is none of the words.
    pub fn decode(text: &str) -> (value: Result<AnswerValue, String>)
        ensures
            match answer_of_text(text@) {
                Some(v) => value == Ok::<AnswerValue, String>(v),
                None => value matches Err(m) && m@ == invalid_answer_message(text@),
            },
    {
        proof {
            reveal_strlit("veto");
            reveal_strlit("no");
            reveal_strlit("yes:optional");
            reveal_strlit("yes:required");
            reveal_strlit("Invalid answer value: ");
        }
        if str_eq(text, "veto") {
            Ok(Self::no(true))
        } else if str_eq(text, "no") {
            Ok(Self::no(false))
        } else if str_eq(text, "yes:optional") {
            Ok(Self::yes(Attendance::Optional))
        } else if str_eq(text, "yes:required") {
            Ok(Self::yes(Attendance::Required))
        } else {
            let mut message = "Invalid answer value: ".to_string();
            push_str(&mut message, text);
            Err(message)
        }
    }
}

/// Storing an answer and reading it back gives the same answer.
pub proof fn lemma_answer_text_round_trip(value: AnswerValue)
    ensures
        answer_of_text(answer_text(value)) == Some(value),
{
    reveal_strlit("veto");
    reveal_strlit("no");
    reveal_strlit("yes:optional");
    reveal_strlit("yes:required");
    assert("veto"@ != "no"@) by {
        assert("veto"@.len() != "no"@.len());
    }
    assert("veto"@ != "yes:optional"@) by {
        assert("veto"@.len() != "yes:optional"@.len());
    }
    assert("no"@ != "yes:optional"@) by {
        assert("no"@.len() != "yes:optional"@.len());
    }
    assert("veto"@ != "yes:required"@) by {
        assert("veto"@.len() != "yes:required"@.len());
    }
    assert("no"@ != "yes:required"@) by {
        assert("no"@.len() != "yes:required"@.len());
    }
    assert("yes:optional"@ != "yes:required"@) by {
        assert("yes:optional"@[4] != "yes:required"@[4]);
    }
}

/// A stored word that reads as an answer is exactly the word that the answer is stored as.
pub proof fn lemma_text_answer_round_trip(text: Seq<char>)
    requires
        answer_of_text(text) is Some,
    ensures
        answer_text(answer_of_text(text)->0) == text,
{
}

} // verus!
