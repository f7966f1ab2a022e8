//! Registering with an invitation: the steps of the registration form and
//! what each answer from the database leads to.
use vstd::prelude::*;
use email_address::EmailAddress;
use std::str::FromStr;
use crate::invitation::{valid_at, Invitation, NewUser};
use crate::passphrase::{normalized_words, Passphrase};
use crate::text::texts;
use crate::clock::{in_time_range, now_utc, Timestamp, NANOS_PER_MINUTE};
use crate::origins::is_clock_reading;
use crate::tokens::{is_drawn_code, EmailVerificationCode, VERIFICATION_CODE_MINUTES};
use crate::users::UserId;

verus! {

/// The registration form, as far as it has been filled in.
#[derive(Debug, Clone)]
pub struct RegisterForm {
    pub words: Option<Vec<String>>,
    pub name: Option<String>,
    pub email_address: Option<String>,
    pub email_verification_code: Option<String>,
}

impl RegisterForm {
    /// An empty form, with the words of `passphrase` filled in where there is one.
    pub fn new_with_passphrase(passphrase: Option<Passphrase>) -> (form: RegisterForm)
        ensures
            match passphrase {
                Some(p) => form.words == Some(p.0),
                None => form.words is None,
            },
            form.name is None,
            form.email_address is None,
            form.email_verification_code is None,
    {
        let words = match passphrase {
            Some(p) => Some(p.0),
            None => None,
        };
        RegisterForm { email_address: None, words, name: None, email_verification_code: None }
    }
}

/// The campaign that a person registers under.
#[derive(Debug, Clone)]
pub struct Campaign {
    pub name: String,
    pub message: String,
}

/// The campaign named in the request, where one was named.
#[derive(Debug, Clone)]
pub struct ProvidedCampaign(pub Option<Campaign>);

impl ProvidedCampaign {
    pub fn into_inner(self) -> (campaign: Option<Campaign>)
        ensures
            campaign == self.0,
    {
        self.0
    }
}

/// What the campaign named in a request's query leads to.
#[derive(Debug)]
pub enum CampaignOutcome {
    /// Registering goes on, under the campaign where one was named.
    Provided(ProvidedCampaign),
    /// The query cannot be read, or names a campaign that is not configured.
    BadRequest,
    /// The configuration of the named campaign cannot be read.
    Unavailable,
}

/// The campaign of a request: `query` is the campaign named in its query (an error
/// where that cannot be read), and `configured` is the message configured for that
/// name (nothing where it is not configured, an error where the configuration
/// cannot be read).
pub fn campaign_from_request(query: Result<Option<String>, ()>, configured: Result<Option<String>, ()>) -> (outcome: CampaignOutcome)
    ensures
        query is Err ==> outcome is BadRequest,
        query matches Ok(None) ==> outcome matches CampaignOutcome::Provided(p) && p.0 is None,
        query matches Ok(Some(name)) ==> match configured {
            Ok(Some(message)) => outcome matches CampaignOutcome::Provided(p)
                && p.0 == Some(Campaign { name, message }),
            Ok(None) => outcome is BadRequest,
            Err(_) => outcome is Unavailable,
        },
{
    match query {
        Err(_) => CampaignOutcome::BadRequest,
        Ok(None) => CampaignOutcome::Provided(ProvidedCampaign(None)),
        Ok(Some(name)) => match configured {
            Ok(Some(message)) => CampaignOutcome::Provided(ProvidedCampaign(Some(Campaign { name, message }))),
            Ok(None) => CampaignOutcome::BadRequest,
            Err(_) => CampaignOutcome::Unavailable,
        },
    }
}

/// The outcome of one step of the form: not done yet, with a message where
/// something is wrong, or done with a value.
#[derive(Debug)]
pub enum StepResult<T> {
    Pending(Option<String>),
    Complete(T),
}

/// The name and email address of the person registering.
#[derive(Debug, Clone)]
pub struct UserDetails {
    pub email_address: String,
    pub name: String,
}

impl UserDetails {
    /// A field-by-field copy.
    pub fn duplicate(&self) -> (copy: UserDetails)
        ensures
            copy == *self,
    {
        UserDetails { email_address: self.email_address.clone(), name: self.name.clone() }
    }
}

pub open spec fn invalid_passphrase_message() -> Seq<char> {
    "That's not a valid invitation passphrase"@
}

pub open spec fn used_invitation_message() -> Seq<char> {
    "*Ruh-roh* Are you trying to use an invitation twice? Naughty! Naughty!"@
}

pub open spec fn already_registered_message() -> Seq<char> {
    "You are already registered, you should try logging in instead :)"@
}

pub open spec fn missing_name_message() -> Seq<char> {
    "Please enter your name"@
}

pub open spec fn invalid_email_message() -> Seq<char> {
    "Please enter a valid email address"@
}

pub open spec fn wrong_code_message() -> Seq<char> {
    "That's not the correct code, maybe it has expired?"@
}

/// The step is pending with exactly the message `m`.
pub open spec fn pending_with<T>(r: StepResult<T>, m: Seq<char>) -> bool {
    r matches StepResult::Pending(Some(s)) && s@ == m
}

/// Whether the `email_address` crate accepts a text as an email address.
pub uninterp spec fn valid_email_address(s: Seq<char>) -> bool;

/// Calls `EmailAddress::from_str` and turns the address back into a `String`.
/// Claimed: an address comes back exactly where the text is valid, and it is the
/// text itself (the crate keeps the text it parsed as the address).
#[verifier::external_body]
fn parse_email_address(s: &str) -> (address: Option<String>)
    ensures
        address is Some <==> valid_email_address(s@),
        address matches Some(a) ==> a@ == s@,
{
    EmailAddress::from_str(s).ok().map(String::from)
}

/// The text of a message, where there is one.
pub open spec fn message_view(m: Option<String>) -> Option<Seq<char>> {
    match m {
        Some(s) => Some(s@),
        None => None,
    }
}

/// The form holds a non-empty name and a valid email address.
pub open spec fn details_complete(form: RegisterForm) -> bool {
    &&& form.name matches Some(n) && n@.len() > 0
    &&& form.email_address matches Some(e) && valid_email_address(e@)
}

/// What is wrong with the name and email address of the form, where a field is
/// filled in wrongly; nothing where a field is missing or all is well.
pub open spec fn details_problem(form: RegisterForm) -> Option<Seq<char>> {
    match form.name {
        None => None,
        Some(n) => if n@.len() == 0 {
            Some(missing_name_message())
        } else {
            match form.email_address {
                None => None,
                Some(e) => if valid_email_address(e@) { None } else { Some(invalid_email_message()) },
            }
        },
    }
}

/// The name and email address from the form: pending without a message while a field
/// is missing, with one where the name is empty or the address is not valid.
pub fn get_user_details_from_form(form: &RegisterForm) -> (details: StepResult<UserDetails>)
    ensures
        details is Complete <==> details_complete(*form),
        details matches StepResult::Pending(m) ==> message_view(m) == details_problem(*form),
        details matches StepResult::Complete(d) ==> {
            &&& form.name == Some(d.name)
            &&& form.email_address matches Some(e) && d.email_address@ == e@
        },
{
    let name = match &form.name {
        Some(name) => {
            if name.as_str().is_empty() {
                proof {
                    reveal_strlit("Please enter your name");
                }
                return StepResult::Pending(Some("Please enter your name".to_string()));
            }
            name
        },
        None => return StepResult::Pending(None),
    };
    let email_address = match &form.email_address {
        Some(text) => match parse_email_address(text.as_str()) {
            Some(address) => address,
            None => {
                proof {
                    reveal_strlit("Please enter a valid email address");
                }
                return StepResult::Pending(Some("Please enter a valid email address".to_string()));
            },
        },
        None => return StepResult::Pending(None),
    };
    StepResult::Complete(UserDetails { name: name.clone(), email_address })
}

/// Whether the emailed code was accepted: pending without a message while no code
/// was entered, with one where the code was `used` in vain.
pub fn use_verification_code(form: &RegisterForm, used: bool) -> (step: StepResult<()>)
    ensures
        form.email_verification_code is None ==> step matches StepResult::Pending(None),
        form.email_verification_code is Some && used ==> step matches StepResult::Complete(_),
        form.email_verification_code is Some && !used ==> pending_with(step, wrong_code_message()),
{
    match &form.email_verification_code {
        Some(_) => {
            if used {
                StepResult::Complete(())
            } else {
                proof {
                    reveal_strlit("That's not the correct code, maybe it has expired?");
                }
                StepResult::Pending(Some("That's not the correct code, maybe it has expired?".to_string()))
            }
        },
        None => StepResult::Pending(None),
    }
}

/// The user that registering creates: the invitation's user with the details from
/// the form, the given symbol, and the campaign's name.
pub fn new_user(invitation: &Invitation, user_details: UserDetails, campaign: Option<Campaign>, symbol: char) -> (user: NewUser)
    ensures
        user.name == user_details.name,
        user.symbol == symbol,
        user.email_address == user_details.email_address,
        user.email_subscription == crate::users::EmailSubscription::Subscribed,
        user.role == invitation.role,
        user.invited_by == invitation.created_by,
        user.campaign == match campaign {
            Some(c) => Some(c.name),
            None => None::<String>,
        },
{
    let campaign_name = match campaign {
        Some(c) => Some(c.name),
        None => None,
    };
    invitation.to_user(user_details.name, symbol, user_details.email_address, campaign_name)
}

/// The email with the code that proves that an address belongs to the person registering.
#[derive(Debug)]
pub struct VerificationEmail {
    pub name: String,
    pub code: String,
}

pub open spec fn verification_subject() -> Seq<char> {
    "Let's Get You Verified"@
}

impl VerificationEmail {
    pub fn subject(&self) -> (subject: String)
        ensures
            subject@ == verification_subject(),
    {
        proof {
            reveal_strlit("Let's Get You Verified");
        }
        "Let's Get You Verified".to_string()
    }
}

/// A fresh verification code for the address of `details`, valid for thirty minutes
/// from `now`, and the email that sends it; `None` where that leaves the range of the `time` crate.
pub fn verification_email_at(details: &UserDetails, now: Timestamp) -> (generated: Option<(EmailVerificationCode, VerificationEmail)>)
    requires
        now.wf(),
    ensures
        generated is None <==> now.checked_add_nanos_is_none(VERIFICATION_CODE_MINUTES * NANOS_PER_MINUTE),
        generated matches Some(g) ==> {
            &&& is_drawn_code(g.0.code@)
            &&& g.0.email_address@ == details.email_address@
            &&& g.0.valid_until.unix_nanos == now.unix_nanos + VERIFICATION_CODE_MINUTES * NANOS_PER_MINUTE
            &&& g.0.valid_until.offset_seconds == now.offset_seconds
            &&& g.1.name == details.name
            &&& g.1.code == g.0.code
        },
{
    match EmailVerificationCode::generate_at(details.email_address.clone(), now) {
        Some(code) => {
            let email = VerificationEmail { name: details.name.clone(), code: code.code.clone() };
            Some((code, email))
        },
        None => None,
    }
}

/// A fresh verification code for the address of `details`, valid for thirty minutes
/// from now, and the email that sends it: `verification_email_at` of the clock's
/// reading; `None` where the clock reads outside the range of the `time` crate.
pub fn verification_email(details: &UserDetails) -> (generated: Option<(EmailVerificationCode, VerificationEmail)>)
    ensures
        generated matches Some(g) ==> {
            &&& is_drawn_code(g.0.code@)
            &&& g.0.email_address@ == details.email_address@
            &&& g.1.name == details.name
            &&& g.1.code == g.0.code
        },
        generated matches Some(g) ==> exists|r: i128| #[trigger] is_clock_reading(r)
            && g.0.valid_until == (Timestamp { unix_nanos: (r + VERIFICATION_CODE_MINUTES * NANOS_PER_MINUTE) as i128, offset_seconds: 0 }),
        generated is None ==> exists|r: i128| #[trigger] is_clock_reading(r) && (!in_time_range(r as int)
            || (Timestamp { unix_nanos: r, offset_seconds: 0 }).checked_add_nanos_is_none(VERIFICATION_CODE_MINUTES * NANOS_PER_MINUTE)),
{
    match now_utc() {
        Some(now) => {
            assert(is_clock_reading(now.unix_nanos) && now == Timestamp { unix_nanos: now.unix_nanos, offset_seconds: 0 });
            verification_email_at(details, now)
        },
        None => None,
    }
}

/// Which part of the form a page of the registration shows.
#[derive(Debug, Clone)]
pub enum RegisterStep {
    InvitationCode,
    UserDetails,
    VerifyEmail(String),
}

/// Where the passphrase of the form came from.
#[derive(Debug, Copy, Clone, PartialEq, Eq, Structural)]
pub enum PassphraseSource {
    Query,
    Form,
}

/// A page of the registration form.
#[derive(Debug)]
pub struct RegisterPage {
    pub step: RegisterStep,
    pub error_message: Option<String>,
    pub form: RegisterForm,
    pub campaign: Option<Campaign>,
    pub passphrase_source: PassphraseSource,
}

impl RegisterPage {
    /// The `n`-th word of the passphrase in the form, or an empty text.
    pub fn nth_word_or_empty(&self, n: usize) -> (word: String)
        ensures
            match self.form.words {
                Some(w) => if n < w@.len() { word@ == w@[n as int]@ } else { word@.len() == 0 },
                None => word@.len() == 0,
            },
    {
        match &self.form.words {
            Some(words) => {
                if n < words.len() {
                    words[n].clone()
                } else {
                    String::new()
                }
            },
            None => String::new(),
        }
    }
}

/// How far registering has got; the later states carry what was found so far.
#[derive(Debug)]
pub enum RegisterState {
    Started,
    FindingInvitation,
    FindingUser { invitation: Invitation, details: UserDetails },
    FindingVerificationCode { invitation: Invitation, details: UserDetails },
    SendingVerificationEmail { invitation: Invitation, details: UserDetails },
    UsingVerificationCode { invitation: Invitation, details: UserDetails },
    AddingUser,
    Done,
}

/// What came back from the last action.
#[derive(Debug)]
pub enum RegisterEvent {
    Started,
    /// The invitation with the passphrase, if there is one, and when it was looked up.
    InvitationFound(Option<Invitation>, Timestamp),
    UserFound(bool),
    /// Whether a code for the address exists, and when that was looked up.
    VerificationCodeFound(bool, Timestamp),
    VerificationEmailSent,
    VerificationCodeUsed(bool),
    UserAdded(UserId),
}

/// How far a cookie is sent along with requests from other sites.
#[derive(Debug, Copy, Clone, PartialEq, Eq, Structural)]
pub enum SameSite {
    Strict,
    Lax,
    Unrestricted,
}

/// A cookie to set on the response.
#[derive(Debug, Clone)]
pub struct Cookie {
    pub name: String,
    pub value: String,
    pub http_only: bool,
    pub secure: bool,
    pub same_site: SameSite,
}

/// The cookie set for a visitor who names a campaign that does not exist.
pub open spec fn is_invalid_campaign_cookie(cookie: Cookie) -> bool {
    &&& cookie.name@ == "vary-smart"@
    &&& cookie.value@ == "A_cookie_for_very_smart_people"@
    &&& cookie.http_only
    &&& cookie.secure
    &&& cookie.same_site == SameSite::Lax
}

/// The cookie set for a visitor who names a campaign that does not exist: http-only,
/// secure, and sent along from other sites only on top-level navigation.
pub fn invalid_campaign_cookie() -> (cookie: Cookie)
    ensures
        is_invalid_campaign_cookie(cookie),
{
    proof {
        reveal_strlit("vary-smart");
        reveal_strlit("A_cookie_for_very_smart_people");
    }
    Cookie {
        name: "vary-smart".to_string(),
        value: "A_cookie_for_very_smart_people".to_string(),
        http_only: true,
        secure: true,
        same_site: SameSite::Lax,
    }
}

/// What registering does next.
#[derive(Debug)]
pub enum RegisterAction {
    /// Answer that the campaign is not known, setting the cookie.
    ShowInvalidCampaign { cookie: Cookie },
    /// Look the invitation up by its passphrase.
    FindInvitation(Passphrase),
    /// Look up whether a user with this email address exists.
    FindUserByEmail(String),
    /// Look up whether a verification code for this address exists.
    FindVerificationCode(String),
    /// Store the code, and send the email with it to the name and address of `recipient`.
    SendVerificationEmail { code: EmailVerificationCode, email: VerificationEmail, recipient: UserDetails },
    /// Use the code, if it is valid for the address.
    UseVerificationCode { code: String, email_address: String },
    /// Add the user that registering with the invitation creates.
    AddUser { invitation: Invitation, user: NewUser },
    /// Show the form at a step, with a message where something is wrong.
    ShowPage { step: RegisterStep, error_message: Option<String> },
    /// Log the new user in and go to the home page.
    LogIn(UserId),
}

/// `event` is an answer to the action that led to `state`.
pub open spec fn answers(state: RegisterState, event: RegisterEvent) -> bool {
    match state {
        RegisterState::Started => event is Started,
        RegisterState::FindingInvitation => event is InvitationFound,
        RegisterState::FindingUser { .. } => event is UserFound,
        RegisterState::FindingVerificationCode { .. } => event is VerificationCodeFound,
        RegisterState::SendingVerificationEmail { .. } => event is VerificationEmailSent,
        RegisterState::UsingVerificationCode { .. } => event is VerificationCodeUsed,
        RegisterState::AddingUser => event is UserAdded,
        RegisterState::Done => false,
    }
}

/// Every invitation that registering carries along has not been used yet.
pub open spec fn carries_unused_invitation(state: RegisterState) -> bool {
    match state {
        RegisterState::FindingUser { invitation, .. } => invitation.used_by is None,
        RegisterState::FindingVerificationCode { invitation, .. } => invitation.used_by is None,
        RegisterState::SendingVerificationEmail { invitation, .. } => invitation.used_by is None,
        RegisterState::UsingVerificationCode { invitation, .. } => invitation.used_by is None,
        _ => true,
    }
}

/// The action shows the form at `step` with exactly the message `m`.
pub open spec fn shows_with_message(action: RegisterAction, step: RegisterStep, m: Seq<char>) -> bool {
    action matches RegisterAction::ShowPage { step: s, error_message: Some(e) } && s == step && e@ == m
}

/// The action shows the form at `step` without a message.
pub open spec fn shows_without_message(action: RegisterAction, step: RegisterStep) -> bool {
    action matches RegisterAction::ShowPage { step: s, error_message: None } && s == step
}

/// Once the code is known to exist: use the code from the form, or ask for it.
fn verify_email(form: &RegisterForm, invitation: Invitation, details: UserDetails) -> (next: (RegisterState, RegisterAction))
    ensures
        match form.email_verification_code {
            None => next.0 is Done && shows_without_message(next.1, RegisterStep::VerifyEmail(details.email_address)),
            Some(c) => {
                &&& next.0 == (RegisterState::UsingVerificationCode { invitation, details })
                &&& next.1 == (RegisterAction::UseVerificationCode { code: c, email_address: details.email_address })
            },
        },
{
    match &form.email_verification_code {
        Some(code) => {
            let email_address = details.email_address.clone();
            (
                RegisterState::UsingVerificationCode { invitation, details },
                RegisterAction::UseVerificationCode { code: code.clone(), email_address },
            )
        },
        None => (
            RegisterState::Done,
            RegisterAction::ShowPage { step: RegisterStep::VerifyEmail(details.email_address), error_message: None },
        ),
    }
}

/// The campaign that a visitor came with, where one was named and is known.
pub open spec fn campaign_of(campaign: Option<ProvidedCampaign>) -> Option<Campaign> {
    match campaign {
        Some(provided) => provided.0,
        None => None,
    }
}

/// The campaign that a visitor came with.
fn provided_campaign(campaign: &Option<ProvidedCampaign>) -> (found: Option<Campaign>)
    ensures
        found == campaign_of(*campaign),
{
    match campaign {
        Some(ProvidedCampaign(Some(c))) => Some(Campaign { name: c.name.clone(), message: c.message.clone() }),
        _ => None,
    }
}

/// `user` is the user that registering with `invitation` creates for the details,
/// with the symbol and the name of the campaign the visitor came with.
pub open spec fn is_new_user(user: NewUser, invitation: Invitation, details: UserDetails, campaign: Option<ProvidedCampaign>, symbol: char) -> bool {
    &&& user.name == details.name
    &&& user.symbol == symbol
    &&& user.email_address == details.email_address
    &&& user.email_subscription == crate::users::EmailSubscription::Subscribed
    &&& user.role == invitation.role
    &&& user.invited_by == invitation.created_by
    &&& user.campaign == match campaign_of(campaign) {
        Some(c) => Some(c.name),
        None => None::<String>,
    }
}

/// The email action for `details` at `now`: a fresh code of six digits from 1 to 9
/// for the address, valid for thirty minutes, and the email with that code, to the
/// name and address of the details.
pub open spec fn is_verification_email(action: RegisterAction, details: UserDetails, now: Timestamp) -> bool {
    action matches RegisterAction::SendVerificationEmail { code, email, recipient } && {
        &&& is_drawn_code(code.code@)
        &&& code.email_address@ == details.email_address@
        &&& code.valid_until.unix_nanos == now.unix_nanos + VERIFICATION_CODE_MINUTES * NANOS_PER_MINUTE
        &&& code.valid_until.offset_seconds == now.offset_seconds
        &&& email.name == details.name
        &&& email.code == code.code
        &&& recipient == details
    }
}

/// One step of registering: from the state and the answer to the last action, the
/// next state and action. Registering first checks the campaign, then finds the
/// invitation by the passphrase of the form, which must still be valid when it is
/// looked up and must not have been used yet, then reads the name and email address,
/// which must not belong to a user yet, then makes
/// sure a verification code was emailed, then uses the code from the form, and at last
/// adds the user and logs them in. Where a step cannot go on, the form is shown again
/// at that step, with a message where something is wrong.
pub fn register_step(
    form: &RegisterForm,
    campaign: &Option<ProvidedCampaign>,
    symbol: char,
    state: RegisterState,
    event: RegisterEvent,
) -> (next: (RegisterState, RegisterAction))
    requires
        answers(state, event),
        carries_unused_invitation(state),
        state is FindingVerificationCode ==> (event matches RegisterEvent::VerificationCodeFound(false, now) ==> now.wf()
            && !now.checked_add_nanos_is_none(VERIFICATION_CODE_MINUTES * NANOS_PER_MINUTE)),
    ensures
        carries_unused_invitation(next.0),
        next.1 matches RegisterAction::AddUser { invitation, .. } ==> invitation.used_by is None
            && event == RegisterEvent::VerificationCodeUsed(true),
        state is Started ==> match campaign {
            None => {
                &&& next.0 is Done
                &&& next.1 matches RegisterAction::ShowInvalidCampaign { cookie } && is_invalid_campaign_cookie(cookie)
            },
            Some(_) => match form.words {
                None => next.0 is Done && shows_without_message(next.1, RegisterStep::InvitationCode),
                Some(w) => {
                    &&& next.0 is FindingInvitation
                    &&& next.1 matches RegisterAction::FindInvitation(p) && texts(p.0@) == normalized_words(texts(w@))
                },
            },
        },
        event matches RegisterEvent::InvitationFound(found, now) ==> match found {
            None => next.0 is Done && shows_with_message(next.1, RegisterStep::InvitationCode, invalid_passphrase_message()),
            Some(i) => if !valid_at(i.valid_until, now) {
                next.0 is Done && shows_with_message(next.1, RegisterStep::InvitationCode, invalid_passphrase_message())
            } else if i.used_by is Some {
                next.0 is Done && shows_with_message(next.1, RegisterStep::InvitationCode, used_invitation_message())
            } else {
                if details_complete(*form) {
                    &&& next.0 matches RegisterState::FindingUser { invitation, details }
                        && invitation == i && form.name == Some(details.name)
                        && next.1 == RegisterAction::FindUserByEmail(details.email_address)
                    &&& next.0 matches RegisterState::FindingUser { details, .. }
                        && form.email_address matches Some(e) && details.email_address@ == e@
                } else {
                    &&& next.0 is Done
                    &&& next.1 matches RegisterAction::ShowPage { step, error_message }
                        && step is UserDetails && message_view(error_message) == details_problem(*form)
                }
            }
        },
        state matches RegisterState::FindingUser { invitation, details } ==> match event {
            RegisterEvent::UserFound(true) => next.0 is Done
                && shows_with_message(next.1, RegisterStep::UserDetails, already_registered_message()),
            _ => next.0 == (RegisterState::FindingVerificationCode { invitation, details })
                && next.1 == RegisterAction::FindVerificationCode(details.email_address),
        },
        state matches RegisterState::FindingVerificationCode { invitation, details } ==> match event {
            RegisterEvent::VerificationCodeFound(false, now) => next.0 == (RegisterState::SendingVerificationEmail { invitation, details })
                && is_verification_email(next.1, details, now),
            _ => match form.email_verification_code {
                None => next.0 is Done && shows_without_message(next.1, RegisterStep::VerifyEmail(details.email_address)),
                Some(c) => next.0 == (RegisterState::UsingVerificationCode { invitation, details })
                    && next.1 == (RegisterAction::UseVerificationCode { code: c, email_address: details.email_address }),
            },
        },
        state matches RegisterState::SendingVerificationEmail { invitation, details } ==> match form.email_verification_code {
            None => next.0 is Done && shows_without_message(next.1, RegisterStep::VerifyEmail(details.email_address)),
            Some(c) => next.0 == (RegisterState::UsingVerificationCode { invitation, details })
                && next.1 == (RegisterAction::UseVerificationCode { code: c, email_address: details.email_address }),
        },
        state matches RegisterState::UsingVerificationCode { invitation, details } ==> match event {
            RegisterEvent::VerificationCodeUsed(true) => next.0 is AddingUser
                && (next.1 matches RegisterAction::AddUser { invitation: i, user }
                && i == invitation && is_new_user(user, invitation, details, *campaign, symbol)),
            _ => next.0 is Done && shows_with_message(next.1, RegisterStep::VerifyEmail(details.email_address), wrong_code_message()),
        },
        event matches RegisterEvent::UserAdded(id) ==> next.0 is Done && next.1 == RegisterAction::LogIn(id),
{
    match state {
        RegisterState::Started => {
            match campaign {
                None => (RegisterState::Done, RegisterAction::ShowInvalidCampaign { cookie: invalid_campaign_cookie() }),
                Some(_) => match &form.words {
                    Some(words) => (
                        RegisterState::FindingInvitation,
                        RegisterAction::FindInvitation(Passphrase::from_form_fields(words.as_slice())),
                    ),
                    None => (
                        RegisterState::Done,
                        RegisterAction::ShowPage { step: RegisterStep::InvitationCode, error_message: None },
                    ),
                },
            }
        },
        RegisterState::FindingInvitation => {
            let found = match event {
                RegisterEvent::InvitationFound(found, now) => match found {
                    Some(invitation) => if invitation.is_valid_at(now) {
                        Some(invitation)
                    } else {
                        None
                    },
                    None => None,
                },
                _ => None,
            };
            match found {
                None => {
                    proof {
                        reveal_strlit("That's not a valid invitation passphrase");
                    }
                    (
                        RegisterState::Done,
                        RegisterAction::ShowPage {
                            step: RegisterStep::InvitationCode,
                            error_message: Some("That's not a valid invitation passphrase".to_string()),
                        },
                    )
                },
                Some(invitation) => {
                    if invitation.used_by.is_some() {
                        proof {
                            reveal_strlit("*Ruh-roh* Are you trying to use an invitation twice? Naughty! Naughty!");
                        }
                        (
                            RegisterState::Done,
                            RegisterAction::ShowPage {
                                step: RegisterStep::InvitationCode,
                                error_message: Some(
                                    "*Ruh-roh* Are you trying to use an invitation twice? Naughty! Naughty!".to_string(),
                                ),
                            },
                        )
                    } else {
                        let details = get_user_details_from_form(form);
                        match details {
                            StepResult::Complete(details) => {
                                let email_address = details.email_address.clone();
                                (RegisterState::FindingUser { invitation, details }, RegisterAction::FindUserByEmail(email_address))
                            },
                            StepResult::Pending(error_message) => (
                                RegisterState::Done,
                                RegisterAction::ShowPage { step: RegisterStep::UserDetails, error_message },
                            ),
                        }
                    }
                },
            }
        },
        RegisterState::FindingUser { invitation, details } => {
            match event {
                RegisterEvent::UserFound(true) => {
                    proof {
                        reveal_strlit("You are already registered, you should try logging in instead :)");
                    }
                    (
                        RegisterState::Done,
                        RegisterAction::ShowPage {
                            step: RegisterStep::UserDetails,
                            error_message: Some("You are already registered, you should try logging in instead :)".to_string()),
                        },
                    )
                },
                _ => {
                    let email_address = details.email_address.clone();
                    (RegisterState::FindingVerificationCode { invitation, details }, RegisterAction::FindVerificationCode(email_address))
                },
            }
        },
        RegisterState::FindingVerificationCode { invitation, details } => {
            match event {
                RegisterEvent::VerificationCodeFound(false, now) => {
                    match verification_email_at(&details, now) {
                        Some((code, email)) => {
                            let recipient = details.duplicate();
                            (
                                RegisterState::SendingVerificationEmail { invitation, details },
                                RegisterAction::SendVerificationEmail { code, email, recipient },
                            )
                        },
                        None => (RegisterState::Done, RegisterAction::ShowPage { step: RegisterStep::UserDetails, error_message: None }),
                    }
                },
                _ => verify_email(form, invitation, details),
            }
        },
        RegisterState::SendingVerificationEmail { invitation, details } => verify_email(form, invitation, details),
        RegisterState::UsingVerificationCode { invitation, details } => {
            match event {
                RegisterEvent::VerificationCodeUsed(true) => {
                    let user = new_user(&invitation, details, provided_campaign(campaign), symbol);
                    (RegisterState::AddingUser, RegisterAction::AddUser { invitation, user })
                },
                _ => {
                    proof {
                        reveal_strlit("That's not the correct code, maybe it has expired?");
                    }
                    (
                        RegisterState::Done,
                        RegisterAction::ShowPage {
                            step: RegisterStep::VerifyEmail(details.email_address),
                            error_message: Some("That's not the correct code, maybe it has expired?".to_string()),
                        },
                    )
                },
            }
        },
        RegisterState::AddingUser => {
            match event {
                RegisterEvent::UserAdded(id) => (RegisterState::Done, RegisterAction::LogIn(id)),
                _ => (RegisterState::Done, RegisterAction::ShowInvalidCampaign { cookie: invalid_campaign_cookie() }),
            }
        },
        RegisterState::Done => (RegisterState::Done, RegisterAction::ShowInvalidCampaign { cookie: invalid_campaign_cookie() }),
    }
}

} // verus!
