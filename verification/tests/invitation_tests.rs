use game_night::clock::{Timestamp, LATEST_UNIX_NANOS, NANOS_PER_DAY};
use game_night::invitation::{
    cards, generate_invitation, generate_invitations, get_or_create_invitation, goodbye_invitation, invitation_for_form,
    passphrases_of, seconds_of, GenerateInvitationData, Invitation, InvitationLifetime, NewInvitation, INVITATIONS_PER_SHEET,
};
use game_night::passphrase::{Passphrase, PASSPHRASE_WORDS};
use game_night::users::{EmailSubscription, Role, User, UserId};

fn wordlist() -> Vec<String> {
    ["apple", "berry", "cloud", "delta", "ember", "frost", "grape"].iter().map(|w| w.to_string()).collect()
}

fn now() -> Timestamp {
    Timestamp { unix_nanos: 1_700_000_000_000_000_000, offset_seconds: 0 }
}

fn user(role: Role) -> User {
    User {
        id: UserId(3),
        name: "Ada".to_string(),
        symbol: '☉',
        role,
        email_address: "ada@example.com".to_string(),
        email_subscription: EmailSubscription::Subscribed,
        invited_by: None,
        campaign: None,
        can_update_name: true,
        can_answer_strongly: false,
        can_update_symbol: true,
        last_active_at: now(),
    }
}

fn words(ws: &[&str]) -> Passphrase {
    Passphrase(ws.iter().map(|w| w.to_string()).collect())
}

fn assert_drawn_from_wordlist(p: &Passphrase, count: usize) {
    assert_eq!(count, p.0.len());
    for w in &p.0 {
        assert!(wordlist().contains(w));
    }
    let mut distinct = p.0.clone();
    distinct.sort();
    distinct.dedup();
    assert_eq!(count, distinct.len());
}

#[test]
fn lifetimes() {
    assert_eq!(30 * NANOS_PER_DAY, InvitationLifetime::Short.duration_nanos());
    assert_eq!(365 * NANOS_PER_DAY, InvitationLifetime::Long.duration_nanos());
}

#[test]
fn builder_keeps_its_parts_and_draws_a_passphrase() {
    let invitation = NewInvitation::builder()
        .role(Role::Admin)
        .created_by(Some(UserId(4)))
        .valid_until(Some(now()))
        .comment("hello".to_string())
        .build(&wordlist());
    assert_eq!(Role::Admin, invitation.role);
    assert_eq!(Some(UserId(4)), invitation.created_by);
    assert_eq!(Some(now()), invitation.valid_until);
    assert_eq!("hello", invitation.comment);
    assert_drawn_from_wordlist(&invitation.passphrase, PASSPHRASE_WORDS);
}

#[test]
fn short_wordlist_gives_short_passphrase() {
    let short = vec!["one".to_string(), "two".to_string()];
    let invitation = NewInvitation::builder().build(&short);
    assert_eq!(2, invitation.passphrase.0.len());
    assert_eq!(Role::Guest, invitation.role);
}

#[test]
fn stored_invitation_turns_into_a_user() {
    let invitation = NewInvitation::builder().role(Role::Admin).created_by(Some(UserId(2))).build(&wordlist()).with_id(8);
    assert_eq!(8, invitation.id);
    assert!(invitation.used_by.is_none());
    let new_user = invitation.to_user("Bo".to_string(), '♃', "bo@example.com".to_string(), None);
    assert_eq!(Role::Admin, new_user.role);
    assert_eq!(Some(UserId(2)), new_user.invited_by);
    assert_eq!(EmailSubscription::Subscribed, new_user.email_subscription);
}

#[test]
fn invitation_from_a_user_is_valid_for_a_year() {
    let invitation = generate_invitation(&user(Role::Admin), now(), &wordlist()).unwrap();
    assert_eq!(Role::Guest, invitation.role);
    assert_eq!(Some(UserId(3)), invitation.created_by);
    assert_eq!(now().unix_nanos + 365 * NANOS_PER_DAY, invitation.valid_until.unwrap().unix_nanos);
    let late = Timestamp { unix_nanos: LATEST_UNIX_NANOS - NANOS_PER_DAY, offset_seconds: 0 };
    assert!(generate_invitation(&user(Role::Admin), late, &wordlist()).is_none());
}

#[test]
fn a_sheet_holds_twenty_invitations() {
    let sheet = generate_invitations(&user(Role::Admin), now(), &wordlist()).unwrap();
    assert_eq!(INVITATIONS_PER_SHEET, sheet.len());
    assert!(sheet.iter().all(|i| i.created_by == Some(UserId(3)) && i.role == Role::Guest));
}

#[test]
fn invitation_from_the_form() {
    let form = GenerateInvitationData { lifetime_in_days: 7, inviter: UserId(5), comment: "for Bo".to_string() };
    let invitation = invitation_for_form(&form, now(), &wordlist()).unwrap();
    assert_eq!(Role::Guest, invitation.role);
    assert_eq!(Some(UserId(5)), invitation.created_by);
    assert_eq!("for Bo", invitation.comment);
    assert_eq!(now().unix_nanos + 7 * NANOS_PER_DAY, invitation.valid_until.unwrap().unix_nanos);
}

#[test]
fn goodbye_invitation_keeps_the_role() {
    let invitation = goodbye_invitation(&user(Role::Admin), now(), &wordlist()).unwrap();
    assert_eq!(Role::Admin, invitation.role);
    assert!(invitation.created_by.is_none());
    assert_eq!("Goodbye invitation for 'Ada'", invitation.comment);
    assert_eq!(now().unix_nanos + 365 * NANOS_PER_DAY, invitation.valid_until.unwrap().unix_nanos);
}

#[test]
fn admin_invitation_is_created_once() {
    let created = match get_or_create_invitation(None, &wordlist()) {
        Err(new) => new,
        Ok(_) => panic!("nothing was stored"),
    };
    assert_eq!(Role::Admin, created.role);
    assert_eq!("auto-generated admin invite", created.comment);
    assert!(created.valid_until.is_none() && created.created_by.is_none());
    let stored: Invitation = created.with_id(1);
    match get_or_create_invitation(Some(stored), &wordlist()) {
        Ok(found) => assert_eq!(1, found.id),
        Err(_) => panic!("the stored invitation is used"),
    }
}

#[test]
fn cards_come_two_per_page() {
    let passphrases: Vec<Passphrase> = (0..5).map(|i| words(&[&format!("w{i}")])).collect();
    let pages = cards(&passphrases);
    assert_eq!(3, pages.len());
    assert_eq!(2, pages[0].len());
    assert_eq!(2, pages[1].len());
    assert_eq!(1, pages[2].len());
    assert_eq!(vec!["w4".to_string()], pages[2][0].0);
    assert!(cards(&[]).is_empty());
}

#[test]
fn passphrases_of_stored_invitations() {
    let stored = NewInvitation::builder().build(&wordlist()).with_id(1);
    let expected = stored.passphrase.0.clone();
    assert_eq!(vec![expected], passphrases_of(&[stored]).into_iter().map(|p| p.0).collect::<Vec<_>>());
}

#[test]
fn passphrases_in_links_and_storage() {
    let p = words(&["red", "fox", "sky"]);
    assert_eq!("red-fox-sky", p.to_form_field());
    assert_eq!("red fox sky", p.to_text());
    assert_eq!(p.0, Passphrase::from_form_field(&p.to_form_field()).0);
    assert_eq!(p.0, Passphrase::decode(&p.to_text()).0);
    assert_eq!(vec!["red".to_string(), "fox".to_string()], Passphrase::from_form_field(" RED-Fox ").0);
    assert_eq!(
        vec!["red".to_string(), "fox".to_string()],
        Passphrase::from_form_fields(&["  Red".to_string(), "FOX".to_string()]).0
    );
}

#[test]
fn whole_seconds_count_down() {
    assert_eq!(0, seconds_of(0));
    assert_eq!(0, seconds_of(999_999_999));
    assert_eq!(1, seconds_of(1_000_000_000));
    assert_eq!(-1, seconds_of(-1));
    assert_eq!(-1, seconds_of(-1_000_000_000));
    assert_eq!(-2, seconds_of(-1_000_000_001));
}

#[test]
fn invitation_is_valid_to_the_end_of_its_last_second() {
    let mut invitation = NewInvitation::builder().build(&wordlist()).with_id(3);
    let at = |unix_nanos: i128| Timestamp { unix_nanos, offset_seconds: 0 };
    assert!(invitation.is_valid_at(at(i128::MAX / 2)));
    invitation.valid_until = Some(at(10_500_000_000));
    assert!(invitation.is_valid_at(at(0)));
    assert!(invitation.is_valid_at(at(10_000_000_000)));
    assert!(invitation.is_valid_at(at(10_999_999_999)));
    assert!(!invitation.is_valid_at(at(11_000_000_000)));
}

#[test]
fn normalised_form_field_comes_back_unchanged() {
    for field in ["red-fox-sky-tea", "", "a--b", "-lone-", "ünïcode-wörds"] {
        assert_eq!(field, Passphrase::from_form_field(field).to_form_field());
    }
    assert_eq!("red-fox", Passphrase::from_form_field(" RED-Fox ").to_form_field());
}
