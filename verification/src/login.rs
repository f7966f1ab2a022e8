//! Logging in with a code sent by email.
use vstd::prelude::*;
use crate::clock::{in_time_range, now_utc, Timestamp, NANOS_PER_MINUTE};
use crate::origins::is_clock_reading;
use crate::tokens::{is_drawn_code, LoginToken, LoginTokenType, ONE_TIME_TOKEN_MINUTES};
use crate::users::{User, UserId};

verus! {

/// The email with the code for logging in.
#[derive(Debug)]
pub struct LoginEmail {
    pub name: String,
    pub code: String,
}

pub open spec fn login_subject() -> Seq<char> {
    "Let's Get You Logged In"@
}

impl LoginEmail {
    pub fn subject(&self) -> (subject: String)
        ensures
            subject@ == login_subject(),
    {
        proof {
            reveal_strlit("Let's Get You Logged In");
        }
        "Let's Get You Logged In".to_string()
    }
}

/// A one-time token for `user` valid for ten minutes from `now`, and the email
/// that sends it to them; `None` where that leaves the range of the `time` crate.
pub fn generate_login_email_at(user: &User, now: Timestamp) -> (generated: Option<(LoginToken, LoginEmail)>)
    requires
        now.wf(),
    ensures
        generated is None <==> now.checked_add_nanos_is_none(ONE_TIME_TOKEN_MINUTES * NANOS_PER_MINUTE),
        generated matches Some(g) ==> {
            &&& g.0.type_ == LoginTokenType::OneTime
            &&& is_drawn_code(g.0.token@)
            &&& g.0.user_id == user.id
            &&& g.0.valid_until.unix_nanos == now.unix_nanos + ONE_TIME_TOKEN_MINUTES * NANOS_PER_MINUTE
            &&& g.0.valid_until.offset_seconds == now.offset_seconds
            &&& g.1.name == user.name
            &&& g.1.code == g.0.token
        },
{
    match LoginToken::generate_one_time_at(user.id, now) {
        Some(token) => {
            let email = LoginEmail { name: user.name.clone(), code: token.token.clone() };
            Some((token, email))
        },
        None => None,
    }
}

/// A one-time token for `user` valid for ten minutes from now, and the email that
/// sends it to them; `None` where the clock reads outside the range of the `time` crate.
pub fn generate_login_email(user: &User) -> (generated: Option<(LoginToken, LoginEmail)>)
    ensures
        generated matches Some(g) ==> {
            &&& g.0.type_ == LoginTokenType::OneTime
            &&& is_drawn_code(g.0.token@)
            &&& g.0.user_id == user.id
            &&& g.1.name == user.name
            &&& g.1.code == g.0.token
        },
        generated matches Some(g) ==> exists|r: i128| #[trigger] is_clock_reading(r)
            && g.0.valid_until == (Timestamp { unix_nanos: (r + ONE_TIME_TOKEN_MINUTES * NANOS_PER_MINUTE) as i128, offset_seconds: 0 }),
        generated is None ==> exists|r: i128| #[trigger] is_clock_reading(r) && (!in_time_range(r as int)
            || (Timestamp { unix_nanos: r, offset_seconds: 0 }).checked_add_nanos_is_none(ONE_TIME_TOKEN_MINUTES * NANOS_PER_MINUTE)),
{
    match now_utc() {
        Some(now) => {
            assert(is_clock_reading(now.unix_nanos) && now == Timestamp { unix_nanos: now.unix_nanos, offset_seconds: 0 });
            generate_login_email_at(user, now)
        },
        None => None,
    }
}

/// The page to go to after logging in: the one asked for, else the home page.
pub fn or_root(redirect: Option<String>) -> (uri: String)
    ensures
        match redirect {
            Some(r) => uri == r,
            None => uri@ == "/"@,
        },
{
    match redirect {
        Some(r) => r,
        None => {
            proof {
                reveal_strlit("/");
            }
            "/".to_string()
        },
    }
}

/// What entering a login code leads to.
#[derive(Debug)]
pub enum LoginWithCodeResult {
    /// Log the user in and go to the page.
    Success { user_id: UserId, redirect_to: String },
    /// Show the code form again, saying that the code was wrong.
    InvalidCode,
}

/// Entering a code that belongs to `found`, or to nobody.
pub fn login_with_code(found: Option<UserId>, redirect: Option<String>) -> (result: LoginWithCodeResult)
    ensures
        match found {
            Some(id) => result matches LoginWithCodeResult::Success { user_id, redirect_to } && user_id == id
                && match redirect {
                    Some(r) => redirect_to == r,
                    None => redirect_to@ == "/"@,
                },
            None => result is InvalidCode,
        },
{
    match found {
        Some(user_id) => LoginWithCodeResult::Success { user_id, redirect_to: or_root(redirect) },
        None => LoginWithCodeResult::InvalidCode,
    }
}

pub open spec fn unknown_email_message() -> Seq<char> {
    "I don't know what to do with this email address, are you sure that you spelled it correctly? 🤔"@
}

/// The login page shown again after an email address that belongs to nobody.
#[derive(Debug)]
pub struct LoginFailurePage {
    pub has_redirect: bool,
    pub email: String,
    pub error_message: String,
}

/// The login page for an address that belongs to nobody, keeping what was typed.
pub fn login_failure(redirect: &Option<String>, email: String) -> (page: LoginFailurePage)
    ensures
        page.has_redirect == redirect is Some,
        page.email == email,
        page.error_message@ == unknown_email_message(),
{
    proof {
        reveal_strlit("I don't know what to do with this email address, are you sure that you spelled it correctly? 🤔");
    }
    LoginFailurePage {
        has_redirect: redirect.is_some(),
        email,
        error_message: "I don't know what to do with this email address, are you sure that you spelled it correctly? 🤔".to_string(),
    }
}

} // verus!
