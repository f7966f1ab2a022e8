//! The profile page: what a user may change of themselves, and how their email
//! subscription is shown and stored.
use vstd::prelude::*;
use crate::clock::CalendarDate;
use crate::text::{trim, trimmed_of};
use crate::users::{EmailSubscription, User};

verus! {

/// The profile form as submitted.
#[derive(Debug)]
pub struct UpdateUserForm {
    pub name: Option<String>,
    pub symbol: Option<char>,
    pub subscribe: bool,
    pub until: Option<CalendarDate>,
}

/// The changes to store for a user; `None` leaves a field as it is.
#[derive(Debug)]
pub struct UserPatch {
    pub name: Option<String>,
    pub email_subscription: Option<EmailSubscription>,
    pub symbol: Option<char>,
}

/// The subscription that the form asks for: subscribed, else unsubscribed until the
/// given date, else unsubscribed for good.
pub open spec fn subscription_of(subscribe: bool, until: Option<CalendarDate>) -> EmailSubscription {
    if subscribe {
        EmailSubscription::Subscribed
    } else {
        match until {
            Some(until) => EmailSubscription::TemporarilyUnsubscribed { until },
            None => EmailSubscription::PermanentlyUnsubscribed,
        }
    }
}

pub fn to_email_subscription(subscribe: bool, until: Option<CalendarDate>) -> (subscription: EmailSubscription)
    ensures
        subscription == subscription_of(subscribe, until),
{
    if subscribe {
        EmailSubscription::Subscribed
    } else {
        match until {
            Some(until) => EmailSubscription::TemporarilyUnsubscribed { until },
            None => EmailSubscription::PermanentlyUnsubscribed,
        }
    }
}

impl UpdateUserForm {
    /// The changes that the form makes for `user`: the name, trimmed, only where the
    /// user may change their name; the symbol only where they may change it; and
    /// always the subscription.
    pub fn into_user_patch(self, user: &User) -> (patch: UserPatch)
        ensures
            match self.name {
                Some(n) if user.can_update_name => patch.name matches Some(p) && p@ == trimmed_of(n@),
                _ => patch.name is None,
            },
            patch.email_subscription == Some(subscription_of(self.subscribe, self.until)),
            patch.symbol == if user.can_update_symbol { self.symbol } else { None },
    {
        let name = match self.name {
            Some(name) => {
                if user.can_update_name {
                    Some(trim(name.as_str()).to_owned())
                } else {
                    None
                }
            },
            None => None,
        };
        let email_subscription = Some(to_email_subscription(self.subscribe, self.until));
        let symbol = if user.can_update_symbol { self.symbol } else { None };
        UserPatch { name, email_subscription, symbol }
    }
}

/// How the subscription form shows a user's subscription.
#[derive(Debug)]
pub struct SubscriptionValues {
    pub permanence: String,
    pub subscription: String,
    pub until: Option<CalendarDate>,
}

/// "permanent" for a permanent unsubscription, else "temporary".
pub open spec fn permanence_of(s: EmailSubscription) -> Seq<char> {
    match s {
        EmailSubscription::PermanentlyUnsubscribed => "permanent"@,
        _ => "temporary"@,
    }
}

/// "on" while subscribed, else "off".
pub open spec fn switch_of(s: EmailSubscription) -> Seq<char> {
    match s {
        EmailSubscription::Subscribed => "on"@,
        _ => "off"@,
    }
}

/// The values that the subscription form of the profile page starts with.
pub fn subscription_values(user: &User) -> (values: SubscriptionValues)
    ensures
        values.permanence@ == permanence_of(user.email_subscription),
        values.subscription@ == switch_of(user.email_subscription),
        values.until == match user.email_subscription {
            EmailSubscription::TemporarilyUnsubscribed { until } => Some(until),
            _ => None::<CalendarDate>,
        },
{
    proof {
        reveal_strlit("permanent");
        reveal_strlit("temporary");
        reveal_strlit("on");
        reveal_strlit("off");
    }
    let permanence = match user.email_subscription {
        EmailSubscription::PermanentlyUnsubscribed => "permanent".to_string(),
        _ => "temporary".to_string(),
    };
    let subscription = match user.email_subscription {
        EmailSubscription::Subscribed => "on".to_string(),
        _ => "off".to_string(),
    };
    let until = match user.email_subscription {
        EmailSubscription::TemporarilyUnsubscribed { until } => Some(until),
        _ => None,
    };
    SubscriptionValues { permanence, subscription, until }
}

} // verus!
