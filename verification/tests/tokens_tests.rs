use game_night::clock::{Timestamp, NANOS_PER_MINUTE};
use game_night::tokens::{
    generate_code, generate_reusable_token, EmailVerificationCode, GameNightKeys, LoginToken, LoginTokenType,
    RocketSecretKey,
};
use game_night::users::UserId;

fn now() -> Timestamp {
    Timestamp { unix_nanos: 1_700_000_000_000_000_000, offset_seconds: 0 }
}

#[test]
fn codes_are_six_digits_from_one_to_nine() {
    for _ in 0..20 {
        let code = generate_code();
        assert_eq!(6, code.len());
        assert!(code.chars().all(|c| ('1'..='9').contains(&c)));
    }
}

#[test]
fn reusable_tokens_are_marked() {
    let token = generate_reusable_token();
    assert!(token.starts_with("r_"));
    assert_eq!(22, token.len());
    assert!(token[2..].chars().all(|c| c.is_ascii_alphanumeric()));
    assert!(!token.chars().all(|c| ('1'..='9').contains(&c)));
}

#[test]
fn one_time_tokens_last_ten_minutes() {
    let token = LoginToken::generate_one_time_at(UserId(2), now()).unwrap();
    assert!(matches!(token.type_, LoginTokenType::OneTime));
    assert_eq!(now().unix_nanos + 10 * NANOS_PER_MINUTE, token.valid_until.unix_nanos);
    let reusable = LoginToken::generate_reusable(UserId(2), now());
    assert!(matches!(reusable.type_, LoginTokenType::Reusable));
    assert_eq!(now(), reusable.valid_until);
}

#[test]
fn verification_codes_last_thirty_minutes() {
    let code = EmailVerificationCode::generate_at("a@example.com".to_string(), now()).unwrap();
    assert_eq!("a@example.com", code.email_address);
    assert_eq!(now().unix_nanos + 30 * NANOS_PER_MINUTE, code.valid_until.unix_nanos);
    assert_eq!(6, code.code.len());
}

#[test]
fn secret_key_is_stored_as_pem_and_read_back() {
    let key = RocketSecretKey::generate();
    assert_eq!(512, key.0.len());
    let pem = key.to_pem().unwrap();
    assert!(pem.starts_with("-----BEGIN ROCKET SECRET KEY-----\n"));
    assert_eq!(key.0, RocketSecretKey::from_pem(&pem).unwrap().0);
    assert!(RocketSecretKey::from_pem("not pem").is_none());
}

#[test]
fn stored_keys_are_kept() {
    let stored = GameNightKeys { rocket_secret_key: vec![1, 2, 3] };
    let (keys, generated) = GameNightKeys::read_or_generate(Some(stored));
    assert_eq!(vec![1, 2, 3], keys.rocket_secret_key);
    assert!(!generated);
    let (keys, generated) = GameNightKeys::read_or_generate(None);
    assert_eq!(512, keys.rocket_secret_key.len());
    assert!(generated);
}
