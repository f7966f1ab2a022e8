use game_night::clock::{Timestamp, NANOS_PER_SECOND};
use game_night::emails::{invited_email_subject, missed_email_subject, poll_email_subject};

fn at(seconds: i128, offset_seconds: i32) -> Timestamp {
    Timestamp { unix_nanos: seconds * NANOS_PER_SECOND, offset_seconds }
}

#[test]
fn poll_email_asks_to_pick_a_date() {
    assert_eq!("Pick a Date for Game Night", poll_email_subject("Game Night"));
    assert_eq!("Pick a Date for ", poll_email_subject(""));
}

#[test]
fn invitation_names_the_day_without_padding() {
    assert_eq!(
        "You're invited to Game Night on 5. January!",
        invited_email_subject("Game Night", at(1_704_474_000, 3600))
    );
}

#[test]
fn date_is_the_local_day_of_the_start() {
    // 23:30 in UTC is already the next day two hours ahead.
    assert_eq!("Game Night is happening on 15. June!", missed_email_subject("Game Night", at(1_718_407_800, 7200)));
    assert_eq!("Game Night is happening on 14. June!", missed_email_subject("Game Night", at(1_718_407_800, 0)));
}
