//! The subjects of the emails about polls and events.
use vstd::prelude::*;
use time::{format_description, OffsetDateTime, UtcOffset};
use crate::clock::{local_date_of, month_name_of, CalendarDate, Timestamp};
use crate::text::push_str;

verus! {

/// The character of a decimal digit.
pub open spec fn digit_char_of(d: int) -> char {
    if d == 0 { '0' }
    else if d == 1 { '1' }
    else if d == 2 { '2' }
    else if d == 3 { '3' }
    else if d == 4 { '4' }
    else if d == 5 { '5' }
    else if d == 6 { '6' }
    else if d == 7 { '7' }
    else if d == 8 { '8' }
    else { '9' }
}

/// A day of the month in decimal, without a leading zero.
pub open spec fn day_text(day: int) -> Seq<char> {
    if day < 10 {
        seq![digit_char_of(day)]
    } else {
        seq![digit_char_of(day / 10), digit_char_of(day % 10)]
    }
}

/// A date as the emails write it: the day of the month, a full stop and the month's
/// English name, as in "5. January".
pub open spec fn day_and_month_of(d: CalendarDate) -> Seq<char> {
    day_text(d.day as int) + ". "@ + month_name_of(d.month)
}

/// Calls `format_description::parse` on `[day padding:none]. [month repr:long]` and
/// `OffsetDateTime::format` with it on the instant at its offset. Claimed, as the
/// description says: the local day of the month without padding, a full stop, a
/// space and the month's English name.
#[verifier::external_body]
fn day_and_month(t: Timestamp) -> (text: String)
    requires
        t.wf(),
    ensures
        text@ == day_and_month_of(local_date_of(t.unix_nanos, t.offset_seconds)),
{
    let offset = UtcOffset::from_whole_seconds(t.offset_seconds).unwrap();
    let local = OffsetDateTime::from_unix_timestamp_nanos(t.unix_nanos).unwrap().to_offset(offset);
    let description = format_description::parse("[day padding:none]. [month repr:long]").unwrap();
    local.format(&description).unwrap()
}

/// The subject of the email that asks to answer a poll.
pub fn poll_email_subject(long_title: &str) -> (subject: String)
    ensures
        subject@ == "Pick a Date for "@ + long_title@,
{
    proof {
        reveal_strlit("Pick a Date for ");
    }
    let mut subject = "Pick a Date for ".to_string();
    push_str(&mut subject, long_title);
    subject
}

/// The subject of the email that invites a user to an event starting at `starts_at`.
pub fn invited_email_subject(long_title: &str, starts_at: Timestamp) -> (subject: String)
    requires
        starts_at.wf(),
    ensures
        subject@ == "You're invited to "@ + long_title@ + " on "@
            + day_and_month_of(local_date_of(starts_at.unix_nanos, starts_at.offset_seconds)) + "!"@,
{
    proof {
        reveal_strlit("You're invited to ");
        reveal_strlit(" on ");
        reveal_strlit("!");
    }
    let date = day_and_month(starts_at);
    let mut subject = "You're invited to ".to_string();
    push_str(&mut subject, long_title);
    push_str(&mut subject, " on ");
    push_str(&mut subject, date.as_str());
    push_str(&mut subject, "!");
    subject
}

/// The subject of the email that tells a user who was not invited that the event
/// starting at `starts_at` happens.
pub fn missed_email_subject(long_title: &str, starts_at: Timestamp) -> (subject: String)
    requires
        starts_at.wf(),
    ensures
        subject@ == long_title@ + " is happening on "@
            + day_and_month_of(local_date_of(starts_at.unix_nanos, starts_at.offset_seconds)) + "!"@,
{
    proof {
        reveal_strlit(" is happening on ");
        reveal_strlit("!");
    }
    let date = day_and_month(starts_at);
    let mut subject = long_title.to_string();
    push_str(&mut subject, " is happening on ");
    push_str(&mut subject, date.as_str());
    push_str(&mut subject, "!");
    subject
}

} // verus!
