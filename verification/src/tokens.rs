//! Secrets handed out to users: login tokens, email verification codes, and the
//! server's own secret key.
use vstd::prelude::*;
use rand::distr::{Alphanumeric, SampleString, Uniform};
use rand::{Rng, RngCore};
use crate::clock::{in_time_range, now_utc, Timestamp, NANOS_PER_MINUTE};
use crate::origins::{drawn_at_random, is_clock_reading};
use crate::text::{push_char, push_str};
use crate::users::UserId;

verus! {

/// How long a one-time login code stays valid.
pub const ONE_TIME_TOKEN_MINUTES: i128 = 10;
/// How long an email verification code stays valid.
pub const VERIFICATION_CODE_MINUTES: i128 = 30;
/// The number of digits of a one-time login code or an email verification code.
pub const CODE_DIGITS: usize = 6;
/// The number of random characters of a reusable login token.
pub const REUSABLE_TOKEN_CHARS: usize = 20;
/// The number of random bytes of the server's secret key.
pub const SECRET_KEY_BYTES: usize = 512;

/// A code of digits from one to nine, such as a person types from an email.
pub open spec fn is_code(s: Seq<char>) -> bool {
    &&& s.len() == CODE_DIGITS
    &&& forall|i: int| 0 <= i < s.len() ==> '1' <= #[trigger] s[i] <= '9'
}

pub open spec fn is_ascii_alphanumeric(c: char) -> bool {
    ('A' <= c <= 'Z') || ('a' <= c <= 'z') || ('0' <= c <= '9')
}

/// The digit that a character from `0` to `9` stands for.
pub open spec fn digit_value(c: char) -> u8 {
    ((c as u32) - ('0' as u32)) as u8
}

/// A code whose digits the random generator drew, one by one.
pub open spec fn is_drawn_code(s: Seq<char>) -> bool {
    &&& is_code(s)
    &&& forall|i: int| 0 <= i < s.len() ==> drawn_at_random(digit_value(#[trigger] s[i]))
}

/// A reusable token whose letters and digits after the prefix the random generator drew.
pub open spec fn is_drawn_reusable_token(s: Seq<char>) -> bool {
    &&& is_reusable_token(s)
    &&& drawn_at_random(s.subrange(2, s.len() as int))
}

/// A reusable token: a prefix that tells it apart from a one-time code, then letters and digits.
pub open spec fn is_reusable_token(s: Seq<char>) -> bool {
    &&& s.len() == 2 + REUSABLE_TOKEN_CHARS
    &&& s[0] == 'r' && s[1] == '_'
    &&& forall|i: int| 2 <= i < s.len() ==> is_ascii_alphanumeric(#[trigger] s[i])
}

/// A reusable token is never mistaken for a one-time code: its prefix tells them apart
/// without a look into the database.
pub proof fn lemma_tokens_told_apart(s: Seq<char>)
    ensures
        is_reusable_token(s) ==> !is_code(s),
{
    if is_reusable_token(s) && is_code(s) {
        assert('1' <= s[0] <= '9');
    }
}

/// Calls `Rng::sample` with the thread-local generator and `Uniform` over one to nine.
/// Claimed: a digit from one to nine; which one is chance.
#[verifier::external_body]
fn random_digit() -> (d: u8)
    ensures
        1 <= d <= 9,
        drawn_at_random(d),
{
    rand::rng().sample(Uniform::try_from(1u8..=9).unwrap())
}

/// Calls `SampleString::sample_string` of `Alphanumeric` with the thread-local generator.
/// Claimed, as its documentation says: `len` ASCII letters and digits; which is chance.
#[verifier::external_body]
fn random_alphanumeric(len: usize) -> (s: String)
    ensures
        s@.len() == len,
        forall|i: int| 0 <= i < len ==> is_ascii_alphanumeric(#[trigger] s@[i]),
        drawn_at_random(s@),
{
    Alphanumeric.sample_string(&mut rand::rng(), len)
}

/// Calls `RngCore::fill_bytes` of the thread-local generator on `len` zero bytes.
/// Claimed: `len` bytes; their values are chance.
#[verifier::external_body]
fn random_bytes(len: usize) -> (bytes: Vec<u8>)
    ensures
        bytes@.len() == len,
        drawn_at_random(bytes@),
{
    let mut bytes = vec![0; len];
    rand::rng().fill_bytes(&mut bytes);
    bytes
}

/// Six random digits from one to nine.
pub fn generate_code() -> (code: String)
    ensures
        is_drawn_code(code@),
{
    let mut code = String::new();
    let mut i: usize = 0;
    while i < CODE_DIGITS
        invariant
            i <= CODE_DIGITS,
            code@.len() == i,
            forall|k: int| 0 <= k < i ==> '1' <= #[trigger] code@[k] <= '9',
            forall|k: int| 0 <= k < i ==> drawn_at_random(digit_value(#[trigger] code@[k])),
        decreases CODE_DIGITS - i,
    {
        let d = random_digit();
        let c = digit_char(d);
        assert(digit_value(c) == d);
        push_char(&mut code, c);
        i = i + 1;
    }
    code
}

/// The character of a decimal digit.
pub fn digit_char(d: u8) -> (c: char)
    requires
        d <= 9,
    ensures
        c as u32 == '0' as u32 + d,
{
    match d {
        0 => '0',
        1 => '1',
        2 => '2',
        3 => '3',
        4 => '4',
        5 => '5',
        6 => '6',
        7 => '7',
        8 => '8',
        _ => '9',
    }
}

/// Twenty random letters and digits.
pub fn generate_token() -> (token: String)
    ensures
        drawn_at_random(token@),
        token@.len() == REUSABLE_TOKEN_CHARS,
        forall|i: int| 0 <= i < token@.len() ==> is_ascii_alphanumeric(#[trigger] token@[i]),
{
    random_alphanumeric(REUSABLE_TOKEN_CHARS)
}

/// A reusable token: the prefix `r_`, so it can be told apart without consulting
/// the database, then twenty random letters and digits.
pub fn generate_reusable_token() -> (token: String)
    ensures
        is_drawn_reusable_token(token@),
{
    let mut token = String::new();
    push_char(&mut token, 'r');
    push_char(&mut token, '_');
    let rest = random_alphanumeric(REUSABLE_TOKEN_CHARS);
    let ghost prefix = token@;
    push_str(&mut token, rest.as_str());
    assert forall|i: int| 2 <= i < token@.len() implies is_ascii_alphanumeric(#[trigger] token@[i]) by {
        assert(token@[i] == rest@[i - 2]);
    }
    assert(token@.subrange(2, token@.len() as int) =~= rest@);
    token
}

/// Short-lived one-time codes and long-lived reusable tokens.
#[derive(Debug, Copy, Clone, PartialEq, Eq, Structural)]
pub enum LoginTokenType {
    /// Short-lived one time tokens
    OneTime,
    /// Long-lived reusable tokens
    Reusable,
}

/// A secret with which a user logs in without a password.
#[derive(Debug, Clone)]
pub struct LoginToken {
    pub type_: LoginTokenType,
    pub token: String,
    pub user_id: UserId,
    pub valid_until: Timestamp,
}

impl LoginToken {
    /// A one-time code for `user_id`, valid for ten minutes from `now`.
    pub fn generate_one_time_at(user_id: UserId, now: Timestamp) -> (token: Option<LoginToken>)
        requires
            now.wf(),
        ensures
            token is None <==> now.checked_add_nanos_is_none(ONE_TIME_TOKEN_MINUTES * NANOS_PER_MINUTE),
            token matches Some(t) ==> {
                &&& t.type_ == LoginTokenType::OneTime
                &&& is_drawn_code(t.token@)
                &&& t.user_id == user_id
                &&& t.valid_until.unix_nanos == now.unix_nanos + ONE_TIME_TOKEN_MINUTES * NANOS_PER_MINUTE
                &&& t.valid_until.offset_seconds == now.offset_seconds
            },
    {
        match now.checked_add_nanos(ONE_TIME_TOKEN_MINUTES * NANOS_PER_MINUTE) {
            Some(valid_until) => Some(LoginToken {
                type_: LoginTokenType::OneTime,
                token: generate_code(),
                user_id,
                valid_until,
            }),
            None => None,
        }
    }

    /// A one-time code for `user_id`, valid for ten minutes from now; `None` where
    /// the clock reads outside the range of the `time` crate.
    pub fn generate_one_time(user_id: UserId) -> (token: Option<LoginToken>)
        ensures
            token matches Some(t) ==> t.type_ == LoginTokenType::OneTime && is_drawn_code(t.token@)
                && t.user_id == user_id,
            token matches Some(t) ==> exists|r: i128| #[trigger] is_clock_reading(r)
                && t.valid_until == (Timestamp { unix_nanos: (r + ONE_TIME_TOKEN_MINUTES * NANOS_PER_MINUTE) as i128, offset_seconds: 0 }),
            token is None ==> exists|r: i128| #[trigger] is_clock_reading(r) && (!in_time_range(r as int)
                || (Timestamp { unix_nanos: r, offset_seconds: 0 }).checked_add_nanos_is_none(ONE_TIME_TOKEN_MINUTES * NANOS_PER_MINUTE)),
    {
        match now_utc() {
            Some(now) => {
                assert(is_clock_reading(now.unix_nanos) && now == Timestamp { unix_nanos: now.unix_nanos, offset_seconds: 0 });
                Self::generate_one_time_at(user_id, now)
            },
            None => None,
        }
    }

    /// A reusable token for `user_id`, valid until `valid_until`.
    pub fn generate_reusable(user_id: UserId, valid_until: Timestamp) -> (token: LoginToken)
        ensures
            token.type_ == LoginTokenType::Reusable,
            is_drawn_reusable_token(token.token@),
            token.user_id == user_id,
            token.valid_until == valid_until,
    {
        LoginToken {
            type_: LoginTokenType::Reusable,
            token: generate_reusable_token(),
            user_id,
            valid_until,
        }
    }
}

/// A code sent to an email address to check that it belongs to the person registering.
#[derive(Debug, Clone)]
pub struct EmailVerificationCode {
    pub code: String,
    pub email_address: String,
    pub valid_until: Timestamp,
}

impl EmailVerificationCode {
    /// A code for `email_address`, valid for thirty minutes from `now`.
    pub fn generate_at(email_address: String, now: Timestamp) -> (code: Option<EmailVerificationCode>)
        requires
            now.wf(),
        ensures
            code is None <==> now.checked_add_nanos_is_none(VERIFICATION_CODE_MINUTES * NANOS_PER_MINUTE),
            code matches Some(c) ==> {
                &&& is_drawn_code(c.code@)
                &&& c.email_address@ == email_address@
                &&& c.valid_until.unix_nanos == now.unix_nanos + VERIFICATION_CODE_MINUTES * NANOS_PER_MINUTE
                &&& c.valid_until.offset_seconds == now.offset_seconds
            },
    {
        match now.checked_add_nanos(VERIFICATION_CODE_MINUTES * NANOS_PER_MINUTE) {
            Some(valid_until) => Some(EmailVerificationCode { code: generate_code(), email_address, valid_until }),
            None => None,
        }
    }

    /// A code for `email_address`, valid for thirty minutes from now; `None` where
    /// the clock reads outside the range of the `time` crate.
    pub fn generate(email_address: String) -> (code: Option<EmailVerificationCode>)
        ensures
            code matches Some(c) ==> is_drawn_code(c.code@) && c.email_address@ == email_address@,
            code matches Some(c) ==> exists|r: i128| #[trigger] is_clock_reading(r)
                && c.valid_until == (Timestamp { unix_nanos: (r + VERIFICATION_CODE_MINUTES * NANOS_PER_MINUTE) as i128, offset_seconds: 0 }),
            code is None ==> exists|r: i128| #[trigger] is_clock_reading(r) && (!in_time_range(r as int)
                || (Timestamp { unix_nanos: r, offset_seconds: 0 }).checked_add_nanos_is_none(VERIFICATION_CODE_MINUTES * NANOS_PER_MINUTE)),
    {
        match now_utc() {
            Some(now) => {
                assert(is_clock_reading(now.unix_nanos) && now == Timestamp { unix_nanos: now.unix_nanos, offset_seconds: 0 });
                Self::generate_at(email_address, now)
            },
            None => None,
        }
    }
}

/// The key with which the server signs its cookies.
#[derive(Debug, Clone)]
pub struct RocketSecretKey(pub Vec<u8>);

/// The keys that the server generates for itself on first start.
#[derive(Debug, Clone)]
pub struct GameNightKeys {
    pub rocket_secret_key: Vec<u8>,
}

/// 512 random bytes.
pub fn generate_rocket_secret_key() -> (key: Vec<u8>)
    ensures
        key@.len() == SECRET_KEY_BYTES,
        drawn_at_random(key@),
{
    random_bytes(SECRET_KEY_BYTES)
}

/// The PEM document with a label and some bytes, as `pem-rfc7468` writes it with
/// `\n` line endings; nothing where it refuses.
pub uninterp spec fn pem_encoded_of(label: Seq<char>, bytes: Seq<u8>) -> Option<Seq<char>>;

/// The label and bytes of a PEM document, as `pem-rfc7468` reads it; nothing where it
/// is not a valid document.
pub uninterp spec fn pem_decoded_of(text: Seq<char>) -> Option<(Seq<char>, Seq<u8>)>;

/// Calls `pem_rfc7468::encode_string` with `LineEnding::LF`. Claimed: the result
/// depends on the label and the bytes alone.
#[verifier::external_body]
fn pem_encode(label: &str, bytes: &[u8]) -> (pem: Option<String>)
    ensures
        match pem {
            Some(p) => pem_encoded_of(label@, bytes@) == Some(p@),
            None => pem_encoded_of(label@, bytes@) is None,
        },
{
    pem_rfc7468::encode_string(label, pem_rfc7468::LineEnding::LF, bytes).ok()
}

/// Calls `pem_rfc7468::decode_vec` on the bytes of the text. Claimed: the result
/// depends on the text alone.
#[verifier::external_body]
fn pem_decode(text: &str) -> (decoded: Option<(String, Vec<u8>)>)
    ensures
        match decoded {
            Some(d) => pem_decoded_of(text@) == Some((d.0@, d.1@)),
            None => pem_decoded_of(text@) is None,
        },
{
    match pem_rfc7468::decode_vec(text.as_bytes()) {
        Ok((label, bytes)) => Some((label.to_owned(), bytes)),
        Err(_) => None,
    }
}

/// The label under which the secret key is stored.
pub open spec fn secret_key_label() -> Seq<char> {
    "ROCKET SECRET KEY"@
}

impl RocketSecretKey {
    pub fn generate() -> (key: RocketSecretKey)
        ensures
            key.0@.len() == SECRET_KEY_BYTES,
            drawn_at_random(key.0@),
    {
        RocketSecretKey(generate_rocket_secret_key())
    }

    /// The key as it is stored: a PEM document labelled `ROCKET SECRET KEY`.
    pub fn to_pem(&self) -> (pem: Option<String>)
        ensures
            match pem {
                Some(p) => pem_encoded_of(secret_key_label(), self.0@) == Some(p@),
                None => pem_encoded_of(secret_key_label(), self.0@) is None,
            },
    {
        proof {
            reveal_strlit("ROCKET SECRET KEY");
        }
        pem_encode("ROCKET SECRET KEY", self.0.as_slice())
    }

    /// The key stored in a PEM document, whatever its label.
    pub fn from_pem(text: &str) -> (key: Option<RocketSecretKey>)
        ensures
            match pem_decoded_of(text@) {
                Some(d) => key matches Some(k) && k.0@ == d.1,
                None => key is None,
            },
    {
        match pem_decode(text) {
            Some((_, bytes)) => Some(RocketSecretKey(bytes)),
            None => None,
        }
    }
}

impl GameNightKeys {
    pub fn generate() -> (keys: GameNightKeys)
        ensures
            keys.rocket_secret_key@.len() == SECRET_KEY_BYTES,
            drawn_at_random(keys.rocket_secret_key@),
    {
        GameNightKeys { rocket_secret_key: generate_rocket_secret_key() }
    }

    /// The stored keys where there are some, else newly generated ones; and whether
    /// they were generated, so that they are written.
    pub fn read_or_generate(stored: Option<GameNightKeys>) -> (keys: (GameNightKeys, bool))
        ensures
            match stored {
                Some(s) => keys.0.rocket_secret_key@ == s.rocket_secret_key@ && !keys.1,
                None => keys.0.rocket_secret_key@.len() == SECRET_KEY_BYTES && drawn_at_random(keys.0.rocket_secret_key@)
                    && keys.1,
            },
    {
        match stored {
            Some(s) => (s, false),
            None => (Self::generate(), true),
        }
    }
}

} // verus!
