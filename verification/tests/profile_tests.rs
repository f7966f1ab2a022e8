use game_night::clock::{CalendarDate, Timestamp};
use game_night::profile::{subscription_values, to_email_subscription, UpdateUserForm};
use game_night::users::{EmailSubscription, Role, User, UserId};

fn user(can_update: bool, subscription: EmailSubscription) -> User {
    User {
        id: UserId(1),
        name: "Ada".to_string(),
        symbol: '☉',
        role: Role::Guest,
        email_address: "ada@example.com".to_string(),
        email_subscription: subscription,
        invited_by: None,
        campaign: None,
        can_update_name: can_update,
        can_answer_strongly: false,
        can_update_symbol: can_update,
        last_active_at: Timestamp { unix_nanos: 0, offset_seconds: 0 },
    }
}

fn date() -> CalendarDate {
    CalendarDate { year: 2024, month: 5, day: 1 }
}

#[test]
fn subscription_from_the_form() {
    assert_eq!(EmailSubscription::Subscribed, to_email_subscription(true, Some(date())));
    assert_eq!(EmailSubscription::TemporarilyUnsubscribed { until: date() }, to_email_subscription(false, Some(date())));
    assert_eq!(EmailSubscription::PermanentlyUnsubscribed, to_email_subscription(false, None));
}

#[test]
fn patch_keeps_only_what_the_user_may_change() {
    let form = UpdateUserForm { name: Some("  Grace ".to_string()), symbol: Some('♃'), subscribe: false, until: None };
    let patch = form.into_user_patch(&user(true, EmailSubscription::Subscribed));
    assert_eq!(Some("Grace".to_string()), patch.name);
    assert_eq!(Some('♃'), patch.symbol);
    assert_eq!(Some(EmailSubscription::PermanentlyUnsubscribed), patch.email_subscription);

    let form = UpdateUserForm { name: Some("Grace".to_string()), symbol: Some('♃'), subscribe: true, until: None };
    let patch = form.into_user_patch(&user(false, EmailSubscription::Subscribed));
    assert_eq!(None, patch.name);
    assert_eq!(None, patch.symbol);
    assert_eq!(Some(EmailSubscription::Subscribed), patch.email_subscription);
}

#[test]
fn subscription_form_values() {
    let values = subscription_values(&user(true, EmailSubscription::Subscribed));
    assert_eq!(("temporary", "on", None), (values.permanence.as_str(), values.subscription.as_str(), values.until));
    let values = subscription_values(&user(true, EmailSubscription::TemporarilyUnsubscribed { until: date() }));
    assert_eq!(("temporary", "off", Some(date())), (values.permanence.as_str(), values.subscription.as_str(), values.until));
    let values = subscription_values(&user(true, EmailSubscription::PermanentlyUnsubscribed));
    assert_eq!(("permanent", "off", None), (values.permanence.as_str(), values.subscription.as_str(), values.until));
}
