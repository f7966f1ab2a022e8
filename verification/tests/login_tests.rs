use game_night::clock::{Timestamp, NANOS_PER_MINUTE};
use game_night::login::{generate_login_email, generate_login_email_at, login_failure, login_with_code, or_root, LoginEmail, LoginWithCodeResult};
use game_night::tokens::LoginTokenType;
use game_night::users::{EmailSubscription, Role, User, UserId};

fn user(id: i64) -> User {
    User {
        id: UserId(id),
        name: "Ada".to_string(),
        symbol: '☉',
        role: Role::Guest,
        email_address: "ada@example.com".to_string(),
        email_subscription: EmailSubscription::Subscribed,
        invited_by: None,
        campaign: None,
        can_update_name: true,
        can_answer_strongly: false,
        can_update_symbol: true,
        last_active_at: Timestamp { unix_nanos: 0, offset_seconds: 0 },
    }
}

#[test]
fn missing_redirect_goes_home() {
    assert_eq!("/", or_root(None));
    assert_eq!("/poll", or_root(Some("/poll".to_string())));
}

#[test]
fn known_code_logs_in_and_redirects() {
    match login_with_code(Some(UserId(7)), Some("/archive".to_string())) {
        LoginWithCodeResult::Success { user_id, redirect_to } => {
            assert_eq!(UserId(7), user_id);
            assert_eq!("/archive", redirect_to);
        }
        LoginWithCodeResult::InvalidCode => panic!("expected success"),
    }
    match login_with_code(Some(UserId(7)), None) {
        LoginWithCodeResult::Success { redirect_to, .. } => assert_eq!("/", redirect_to),
        LoginWithCodeResult::InvalidCode => panic!("expected success"),
    }
}

#[test]
fn unknown_code_is_refused() {
    assert!(matches!(login_with_code(None, Some("/".to_string())), LoginWithCodeResult::InvalidCode));
}

#[test]
fn login_email_carries_a_fresh_one_time_code() {
    let now = Timestamp { unix_nanos: 1_700_000_000_000_000_000, offset_seconds: 3600 };
    let (token, email) = generate_login_email_at(&user(3), now).unwrap();
    assert!(matches!(token.type_, LoginTokenType::OneTime));
    assert_eq!(UserId(3), token.user_id);
    assert_eq!(now.unix_nanos + 10 * NANOS_PER_MINUTE, token.valid_until.unix_nanos);
    assert_eq!(6, token.token.len());
    assert!(token.token.chars().all(|c| ('1'..='9').contains(&c)));
    assert_eq!("Ada", email.name);
    assert_eq!(token.token, email.code);
    let (now_token, _) = generate_login_email(&user(4)).unwrap();
    assert_eq!(UserId(4), now_token.user_id);
}

#[test]
fn login_email_subject() {
    let email = LoginEmail { name: "Ada".to_string(), code: "123456".to_string() };
    assert_eq!("Let's Get You Logged In", email.subject());
}

#[test]
fn failed_login_keeps_the_address_and_explains() {
    let page = login_failure(&Some("/poll".to_string()), "who@example.com".to_string());
    assert!(page.has_redirect);
    assert_eq!("who@example.com", page.email);
    assert_eq!(
        "I don't know what to do with this email address, are you sure that you spelled it correctly? 🤔",
        page.error_message
    );
    assert!(!login_failure(&None, String::new()).has_redirect);
}
