use game_night::clock::Timestamp;
use game_night::invitation::Invitation;
use game_night::passphrase::Passphrase;
use game_night::register::{
    campaign_from_request, get_user_details_from_form, new_user, CampaignOutcome, register_step, use_verification_code, Campaign, PassphraseSource,
    ProvidedCampaign, RegisterAction, RegisterEvent, RegisterForm, RegisterPage, RegisterState, RegisterStep, SameSite,
    StepResult, UserDetails,
};
use game_night::users::{EmailSubscription, Role, UserId};

fn words(ws: &[&str]) -> Vec<String> {
    ws.iter().map(|w| w.to_string()).collect()
}

fn invitation(used_by: Option<UserId>) -> Invitation {
    Invitation {
        id: 5,
        role: Role::Guest,
        created_by: Some(UserId(1)),
        passphrase: Passphrase(words(&["red", "fox", "sky", "tea"])),
        comment: String::new(),
        valid_until: Some(Timestamp { unix_nanos: 0, offset_seconds: 0 }),
        used_by,
    }
}

fn at(unix_nanos: i128) -> Timestamp {
    Timestamp { unix_nanos, offset_seconds: 0 }
}

fn campaign() -> Option<ProvidedCampaign> {
    Some(ProvidedCampaign(None))
}

fn complete_form(code: Option<&str>) -> RegisterForm {
    RegisterForm {
        words: Some(words(&[" Red", "FOX ", "sky", "tea"])),
        name: Some("Ada".to_string()),
        email_address: Some("ada@example.com".to_string()),
        email_verification_code: code.map(|c| c.to_string()),
    }
}

fn message(action: &RegisterAction) -> (String, Option<String>) {
    match action {
        RegisterAction::ShowPage { step, error_message } => {
            let step = match step {
                RegisterStep::InvitationCode => "invitation".to_string(),
                RegisterStep::UserDetails => "details".to_string(),
                RegisterStep::VerifyEmail(address) => format!("verify {address}"),
            };
            (step, error_message.clone())
        }
        other => panic!("expected a page, got {other:?}"),
    }
}

#[test]
fn form_from_link_holds_the_passphrase() {
    let form = RegisterForm::new_with_passphrase(Some(Passphrase(words(&["a", "b"]))));
    assert_eq!(Some(words(&["a", "b"])), form.words);
    assert!(form.name.is_none() && form.email_address.is_none() && form.email_verification_code.is_none());
    assert!(RegisterForm::new_with_passphrase(None).words.is_none());
}

#[test]
fn user_details_messages() {
    let mut form = complete_form(None);
    form.name = None;
    assert!(matches!(get_user_details_from_form(&form), StepResult::Pending(None)));
    form.name = Some(String::new());
    match get_user_details_from_form(&form) {
        StepResult::Pending(Some(m)) => assert_eq!("Please enter your name", m),
        _ => panic!("expected a message"),
    }
    form.name = Some("Ada".to_string());
    form.email_address = Some("not an address".to_string());
    match get_user_details_from_form(&form) {
        StepResult::Pending(Some(m)) => assert_eq!("Please enter a valid email address", m),
        _ => panic!("expected a message"),
    }
    form.email_address = None;
    assert!(matches!(get_user_details_from_form(&form), StepResult::Pending(None)));
    form.email_address = Some("ada@example.com".to_string());
    match get_user_details_from_form(&form) {
        StepResult::Complete(d) => {
            assert_eq!("Ada", d.name);
            assert_eq!("ada@example.com", d.email_address);
        }
        _ => panic!("expected details"),
    }
}

#[test]
fn verification_code_messages() {
    assert!(matches!(use_verification_code(&complete_form(None), true), StepResult::Pending(None)));
    assert!(matches!(use_verification_code(&complete_form(Some("123")), true), StepResult::Complete(())));
    match use_verification_code(&complete_form(Some("123")), false) {
        StepResult::Pending(Some(m)) => assert_eq!("That's not the correct code, maybe it has expired?", m),
        _ => panic!("expected a message"),
    }
}

#[test]
fn unknown_campaign_is_refused() {
    let (state, action) = register_step(&complete_form(None), &None, '♄', RegisterState::Started, RegisterEvent::Started);
    assert!(matches!(state, RegisterState::Done));
    match action {
        RegisterAction::ShowInvalidCampaign { cookie } => {
            assert_eq!("vary-smart", cookie.name);
            assert_eq!("A_cookie_for_very_smart_people", cookie.value);
            assert!(cookie.http_only && cookie.secure);
            assert_eq!(SameSite::Lax, cookie.same_site);
        }
        other => panic!("unexpected {other:?}"),
    }
}

#[test]
fn form_without_passphrase_asks_for_it() {
    let form = RegisterForm::new_with_passphrase(None);
    let (_, action) = register_step(&form, &campaign(), '♄', RegisterState::Started, RegisterEvent::Started);
    assert_eq!(("invitation".to_string(), None), message(&action));
}

#[test]
fn unknown_and_used_invitations_are_refused() {
    let form = complete_form(None);
    let (_, action) = register_step(&form, &campaign(), '♄', RegisterState::FindingInvitation, RegisterEvent::InvitationFound(None, at(0)));
    assert_eq!(("invitation".to_string(), Some("That's not a valid invitation passphrase".to_string())), message(&action));
    let (_, action) = register_step(
        &form,
        &campaign(), '♄',
        RegisterState::FindingInvitation,
        RegisterEvent::InvitationFound(Some(invitation(Some(UserId(2)))), at(0)),
    );
    assert_eq!(
        (
            "invitation".to_string(),
            Some("*Ruh-roh* Are you trying to use an invitation twice? Naughty! Naughty!".to_string())
        ),
        message(&action)
    );
}

#[test]
fn registered_address_is_refused() {
    let form = complete_form(None);
    let details = UserDetails { email_address: "ada@example.com".to_string(), name: "Ada".to_string() };
    let (_, action) = register_step(
        &form,
        &campaign(), '♄',
        RegisterState::FindingUser { invitation: invitation(None), details },
        RegisterEvent::UserFound(true),
    );
    assert_eq!(
        ("details".to_string(), Some("You are already registered, you should try logging in instead :)".to_string())),
        message(&action)
    );
}

#[test]
fn whole_registration_adds_the_user_and_logs_in() {
    let form = complete_form(Some("123456"));
    let campaign = campaign();
    let (state, action) = register_step(&form, &campaign, '♄', RegisterState::Started, RegisterEvent::Started);
    match action {
        RegisterAction::FindInvitation(p) => assert_eq!(words(&["red", "fox", "sky", "tea"]), p.0),
        other => panic!("unexpected {other:?}"),
    }
    let (state, action) = register_step(&form, &campaign, '♄', state, RegisterEvent::InvitationFound(Some(invitation(None)), at(999_999_999)));
    match &action {
        RegisterAction::FindUserByEmail(address) => assert_eq!("ada@example.com", address),
        other => panic!("unexpected {other:?}"),
    }
    let (state, action) = register_step(&form, &campaign, '♄', state, RegisterEvent::UserFound(false));
    assert!(matches!(action, RegisterAction::FindVerificationCode(_)));
    let (state, action) = register_step(&form, &campaign, '♄', state, RegisterEvent::VerificationCodeFound(false, at(0)));
    match &action {
        RegisterAction::SendVerificationEmail { code, email, recipient } => {
            assert_eq!(6, code.code.len());
            assert!(code.code.chars().all(|c| ('1'..='9').contains(&c)));
            assert_eq!("ada@example.com", code.email_address);
            assert_eq!(30 * 60 * 1_000_000_000, code.valid_until.unix_nanos);
            assert_eq!("Ada", email.name);
            assert_eq!(code.code, email.code);
            assert_eq!("Ada", recipient.name);
            assert_eq!("ada@example.com", recipient.email_address);
        }
        other => panic!("unexpected {other:?}"),
    }
    let (state, action) = register_step(&form, &campaign, '♄', state, RegisterEvent::VerificationEmailSent);
    match &action {
        RegisterAction::UseVerificationCode { code, email_address } => {
            assert_eq!("123456", code);
            assert_eq!("ada@example.com", email_address);
        }
        other => panic!("unexpected {other:?}"),
    }
    let (state, action) = register_step(&form, &campaign, '♄', state, RegisterEvent::VerificationCodeUsed(true));
    let (invitation, user) = match action {
        RegisterAction::AddUser { invitation, user } => (invitation, user),
        other => panic!("unexpected {other:?}"),
    };
    assert_eq!(5, invitation.id);
    assert_eq!("Ada", user.name);
    assert_eq!("ada@example.com", user.email_address);
    assert_eq!('♄', user.symbol);
    assert_eq!(Role::Guest, user.role);
    assert_eq!(Some(UserId(1)), user.invited_by);
    assert_eq!(None, user.campaign);
    assert_eq!(EmailSubscription::Subscribed, user.email_subscription);
    let (state, action) = register_step(&form, &campaign, '♄', state, RegisterEvent::UserAdded(UserId(42)));
    assert!(matches!(state, RegisterState::Done));
    assert!(matches!(action, RegisterAction::LogIn(UserId(42))));
}

#[test]
fn missing_or_wrong_code_asks_again() {
    let details = || UserDetails { email_address: "ada@example.com".to_string(), name: "Ada".to_string() };
    let (_, action) = register_step(
        &complete_form(None),
        &campaign(), '♄',
        RegisterState::FindingVerificationCode { invitation: invitation(None), details: details() },
        RegisterEvent::VerificationCodeFound(true, at(0)),
    );
    assert_eq!(("verify ada@example.com".to_string(), None), message(&action));
    let (_, action) = register_step(
        &complete_form(Some("1")),
        &campaign(), '♄',
        RegisterState::UsingVerificationCode { invitation: invitation(None), details: details() },
        RegisterEvent::VerificationCodeUsed(false),
    );
    assert_eq!(
        ("verify ada@example.com".to_string(), Some("That's not the correct code, maybe it has expired?".to_string())),
        message(&action)
    );
}

#[test]
fn nth_word_or_empty_of_the_page() {
    let page = RegisterPage {
        step: RegisterStep::InvitationCode,
        error_message: None,
        form: RegisterForm::new_with_passphrase(Some(Passphrase(words(&["a", "b"])))),
        campaign: None,
        passphrase_source: PassphraseSource::Query,
    };
    assert_eq!("b", page.nth_word_or_empty(1));
    assert_eq!("", page.nth_word_or_empty(2));
    let empty = RegisterPage { form: RegisterForm::new_with_passphrase(None), ..page };
    assert_eq!("", empty.nth_word_or_empty(0));
}

#[test]
fn campaign_is_handed_out() {
    let provided = ProvidedCampaign(Some(Campaign { name: "x".to_string(), message: "hi".to_string() }));
    assert_eq!("x", provided.into_inner().unwrap().name);
    assert!(ProvidedCampaign(None).into_inner().is_none());
}

#[test]
fn campaigns_from_the_query() {
    assert!(matches!(campaign_from_request(Err(()), Ok(None)), CampaignOutcome::BadRequest));
    assert!(matches!(campaign_from_request(Ok(None), Err(())), CampaignOutcome::Provided(ProvidedCampaign(None))));
    match campaign_from_request(Ok(Some("spring".to_string())), Ok(Some("Welcome!".to_string()))) {
        CampaignOutcome::Provided(ProvidedCampaign(Some(c))) => {
            assert_eq!("spring", c.name);
            assert_eq!("Welcome!", c.message);
        }
        other => panic!("unexpected {other:?}"),
    }
    assert!(matches!(campaign_from_request(Ok(Some("x".to_string())), Ok(None)), CampaignOutcome::BadRequest));
    assert!(matches!(campaign_from_request(Ok(Some("x".to_string())), Err(())), CampaignOutcome::Unavailable));
}

#[test]
fn expired_invitation_is_not_a_valid_passphrase() {
    let form = complete_form(None);
    let (state, action) = register_step(
        &form,
        &campaign(), '♄',
        RegisterState::FindingInvitation,
        RegisterEvent::InvitationFound(Some(invitation(None)), at(1_000_000_000)),
    );
    assert!(matches!(state, RegisterState::Done));
    assert_eq!(("invitation".to_string(), Some("That's not a valid invitation passphrase".to_string())), message(&action));
    // An expired invitation that was used is refused as expired: the lookup does not find it.
    let (_, action) = register_step(
        &form,
        &campaign(), '♄',
        RegisterState::FindingInvitation,
        RegisterEvent::InvitationFound(Some(invitation(Some(UserId(2)))), at(1_500_000_000)),
    );
    assert_eq!(("invitation".to_string(), Some("That's not a valid invitation passphrase".to_string())), message(&action));
}

#[test]
fn invitation_without_end_is_valid_later() {
    let mut open_ended = invitation(None);
    open_ended.valid_until = None;
    let form = complete_form(None);
    let (state, action) = register_step(
        &form,
        &campaign(), '♄',
        RegisterState::FindingInvitation,
        RegisterEvent::InvitationFound(Some(open_ended), at(5_000_000_000_000_000_000)),
    );
    assert!(matches!(state, RegisterState::FindingUser { .. }));
    assert!(matches!(action, RegisterAction::FindUserByEmail(_)));
}

#[test]
fn new_user_keeps_the_campaign_name() {
    let campaign = Some(ProvidedCampaign(Some(Campaign { name: "spring".to_string(), message: "Welcome".to_string() })));
    let details = UserDetails { email_address: "ada@example.com".to_string(), name: "Ada".to_string() };
    let (state, action) = register_step(
        &complete_form(Some("123456")),
        &campaign,
        '♃',
        RegisterState::UsingVerificationCode { invitation: invitation(None), details },
        RegisterEvent::VerificationCodeUsed(true),
    );
    assert!(matches!(state, RegisterState::AddingUser));
    match action {
        RegisterAction::AddUser { user, .. } => {
            assert_eq!(Some("spring".to_string()), user.campaign);
            assert_eq!('♃', user.symbol);
        }
        other => panic!("unexpected {other:?}"),
    }
}

#[test]
fn separate_new_user_takes_the_campaign_name() {
    let details = UserDetails { email_address: "ada@example.com".to_string(), name: "Ada".to_string() };
    let user = new_user(&invitation(None), details, Some(Campaign { name: "spring".to_string(), message: String::new() }), '♄');
    assert_eq!(Some("spring".to_string()), user.campaign);
}
