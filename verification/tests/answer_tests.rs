use game_night::answer::{AnswerValue, Attendance};

fn all_values() -> Vec<AnswerValue> {
    vec![
        AnswerValue::no(false),
        AnswerValue::veto(),
        AnswerValue::yes(Attendance::Optional),
        AnswerValue::yes(Attendance::Required),
    ]
}

#[test]
fn answers_are_stored_as_words() {
    assert_eq!("no", AnswerValue::no(false).encode());
    assert_eq!("veto", AnswerValue::veto().encode());
    assert_eq!("yes:optional", AnswerValue::yes(Attendance::Optional).encode());
    assert_eq!("yes:required", AnswerValue::yes(Attendance::Required).encode());
}

#[test]
fn stored_answers_read_back_unchanged() {
    for value in all_values() {
        assert_eq!(Ok(value), AnswerValue::decode(&value.encode()));
    }
}

#[test]
fn unknown_stored_word_is_an_error() {
    assert_eq!(Err("Invalid answer value: maybe".to_string()), AnswerValue::decode("maybe"));
    assert_eq!(Err("Invalid answer value: ".to_string()), AnswerValue::decode(""));
    assert_eq!(Err("Invalid answer value: yes".to_string()), AnswerValue::decode("yes"));
}

#[test]
fn form_fields_round_trip() {
    for value in all_values() {
        assert_eq!(value, AnswerValue::from_bools(value.to_bools()));
    }
    for bools in [(false, false), (false, true), (true, false), (true, true)] {
        assert_eq!(bools, AnswerValue::from_bools(bools).to_bools());
    }
}

#[test]
fn form_fields_of_each_answer() {
    assert_eq!((false, false), AnswerValue::no(false).to_bools());
    assert_eq!((false, true), AnswerValue::veto().to_bools());
    assert_eq!((true, false), AnswerValue::yes(Attendance::Optional).to_bools());
    assert_eq!((true, true), AnswerValue::yes(Attendance::Required).to_bools());
}

#[test]
fn weakening_keeps_yes_and_drops_strength() {
    assert_eq!(AnswerValue::no(false), AnswerValue::veto().ensure_weak());
    assert_eq!(AnswerValue::yes(Attendance::Optional), AnswerValue::yes(Attendance::Required).ensure_weak());
    for value in all_values() {
        let weak = value.ensure_weak();
        assert_eq!(value.is_yes(), weak.is_yes());
        assert!(!weak.to_bools().1);
        assert_eq!(weak, weak.ensure_weak());
    }
}

#[test]
fn only_yes_answers_are_yes() {
    assert!(AnswerValue::yes(Attendance::Optional).is_yes());
    assert!(AnswerValue::yes(Attendance::Required).is_yes());
    assert!(!AnswerValue::no(false).is_yes());
    assert!(!AnswerValue::veto().is_yes());
}
