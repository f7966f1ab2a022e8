//! Users, their roles and their email subscriptions.
use vstd::prelude::*;
use crate::clock::{CalendarDate, Timestamp};

verus! {

/// The identifier of a registered user.
#[derive(Debug, Copy, Clone, PartialEq, Eq, Structural)]
pub struct UserId(pub i64);

/// What a user is allowed to do by default.
#[derive(Debug, Copy, Clone, PartialEq, Eq, Structural)]
pub enum Role {
    Admin,
    Guest,
}

impl Default for Role {
    fn default() -> (role: Self)
        ensures
            role == Role::Guest,
    {
        Role::Guest
    }
}

/// Whether a user receives emails about new polls and events.
#[derive(Debug, Copy, Clone, PartialEq, Eq, Structural)]
pub enum EmailSubscription {
    Subscribed,
    TemporarilyUnsubscribed { until: CalendarDate },
    PermanentlyUnsubscribed,
}

impl Default for EmailSubscription {
    fn default() -> (subscription: Self)
        ensures
            subscription == EmailSubscription::Subscribed,
    {
        EmailSubscription::Subscribed
    }
}

/// A registered user, with the permissions that the logic reads.
#[derive(Debug, Clone)]
pub struct User {
    pub id: UserId,
    pub name: String,
    pub symbol: char,
    pub role: Role,
    pub email_address: String,
    pub email_subscription: EmailSubscription,
    pub invited_by: Option<UserId>,
    pub campaign: Option<String>,
    pub can_update_name: bool,
    pub can_answer_strongly: bool,
    pub can_update_symbol: bool,
    pub last_active_at: Timestamp,
}

impl User {
    /// A field-by-field copy of the user.
    pub fn duplicate(&self) -> (user: User)
        ensures
            user == *self,
    {
        let campaign = match &self.campaign {
            Some(c) => Some(c.clone()),
            None => None,
        };
        User {
            id: self.id,
            name: self.name.clone(),
            symbol: self.symbol,
            role: self.role,
            email_address: self.email_address.clone(),
            email_subscription: self.email_subscription,
            invited_by: self.invited_by,
            campaign,
            can_update_name: self.can_update_name,
            can_answer_strongly: self.can_answer_strongly,
            can_update_symbol: self.can_update_symbol,
            last_active_at: self.last_active_at,
        }
    }

    /// Admins manage polls.
    pub fn can_manage_poll(&self) -> (b: bool)
        ensures
            b == (self.role == Role::Admin),
    {
        match self.role {
            Role::Admin => true,
            Role::Guest => false,
        }
    }
}

} // verus!
