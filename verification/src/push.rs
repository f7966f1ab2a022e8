//! Web push: the keys of a subscription, what a push service's answer leads to,
//! and how notification templates are named.
use vstd::prelude::*;
use base64::prelude::{Engine, BASE64_URL_SAFE_NO_PAD};
use crate::users::UserId;

verus! {

/// The bytes that a text encodes in URL-safe base64 without padding; nothing where
/// it is not such an encoding.
pub uninterp spec fn url_safe_decoded_of(text: Seq<char>) -> Option<Seq<u8>>;

/// The URL-safe base64 encoding, without padding, of some bytes.
pub uninterp spec fn url_safe_encoded_of(bytes: Seq<u8>) -> Seq<char>;

/// Calls `Engine::decode` of `BASE64_URL_SAFE_NO_PAD`. Claimed: the result depends
/// on the text alone.
#[verifier::external_body]
fn decode_url_safe(text: &str) -> (bytes: Option<Vec<u8>>)
    ensures
        match bytes {
            Some(b) => url_safe_decoded_of(text@) == Some(b@),
            None => url_safe_decoded_of(text@) is None,
        },
{
    BASE64_URL_SAFE_NO_PAD.decode(text).ok()
}

/// Calls `Engine::encode` of `BASE64_URL_SAFE_NO_PAD`. Claimed: the result depends
/// on the bytes alone.
#[verifier::external_body]
fn encode_url_safe(bytes: &[u8]) -> (text: String)
    ensures
        text@ == url_safe_encoded_of(bytes@),
{
    BASE64_URL_SAFE_NO_PAD.encode(bytes)
}

/// The keys with which a browser's push subscription encrypts its messages.
#[derive(Debug, Clone)]
pub struct PushSubscriptionKeys {
    pub auth: String,
    pub p256dh: String,
}

impl PushSubscriptionKeys {
    /// The bytes of the subscription's public key; nothing where it is not valid base64.
    pub fn public_key(&self) -> (key: Option<Vec<u8>>)
        ensures
            match key {
                Some(k) => url_safe_decoded_of(self.p256dh@) == Some(k@),
                None => url_safe_decoded_of(self.p256dh@) is None,
            },
    {
        decode_url_safe(self.p256dh.as_str())
    }

    /// The bytes of the subscription's authentication secret; nothing where it is not
    /// valid base64.
    pub fn auth(&self) -> (secret: Option<Vec<u8>>)
        ensures
            match secret {
                Some(s) => url_safe_decoded_of(self.auth@) == Some(s@),
                None => url_safe_decoded_of(self.auth@) is None,
            },
    {
        decode_url_safe(self.auth.as_str())
    }
}

/// The server's public key as the browser asks for it: URL-safe base64 without padding.
pub fn get_public_key(public_key: &[u8]) -> (text: String)
    ensures
        text@ == url_safe_encoded_of(public_key@),
{
    encode_url_safe(public_key)
}

/// A subscription as a browser sends it.
#[derive(Debug)]
pub struct SubscribeData {
    pub endpoint: String,
    pub keys: PushSubscriptionKeys,
}

/// A subscription that has not been stored yet.
#[derive(Debug)]
pub struct NewPushSubscription {
    pub user_id: UserId,
    pub endpoint: String,
    pub keys: PushSubscriptionKeys,
    pub expiration_time: Option<crate::clock::Timestamp>,
}

impl SubscribeData {
    /// The subscription of `user_id`, which does not expire.
    pub fn into_subscription(self, user_id: UserId) -> (subscription: NewPushSubscription)
        ensures
            subscription.user_id == user_id,
            subscription.endpoint == self.endpoint,
            subscription.keys == self.keys,
            subscription.expiration_time is None,
    {
        NewPushSubscription { user_id, endpoint: self.endpoint, keys: self.keys, expiration_time: None }
    }
}

/// What the answer of a push service to a message leads to.
#[derive(Debug, Copy, Clone, PartialEq, Eq, Structural)]
pub enum PushResponseAction {
    /// The subscription is gone: forget it.
    RemoveSubscription,
    /// The message was taken.
    Delivered,
    /// The service refused or failed: report the error.
    Failed,
}

/// A subscription that is gone (404 or 410) is forgotten; any other client or server
/// error is an error; everything else counts as delivered.
pub fn push_response_action(status: u16) -> (action: PushResponseAction)
    ensures
        (status == 404 || status == 410) ==> action == PushResponseAction::RemoveSubscription,
        !(status == 404 || status == 410) && 400 <= status < 600 ==> action == PushResponseAction::Failed,
        !(400 <= status < 600) ==> action == PushResponseAction::Delivered,
{
    if status == 410 || status == 404 {
        PushResponseAction::RemoveSubscription
    } else if 400 <= status && status < 600 {
        PushResponseAction::Failed
    } else {
        PushResponseAction::Delivered
    }
}

/// A file name with each backslash turned into a slash.
pub open spec fn with_slashes(name: Seq<char>) -> Seq<char> {
    name.map_values(|c: char| if c == '\\' { '/' } else { c })
}

/// The name under which a notification template is known: its file name, with
/// backslashes turned into slashes.
pub fn template_identifier(file_name: &str) -> (identifier: String)
    ensures
        identifier@ == with_slashes(file_name@),
{
    let chars = crate::text::chars_of(file_name);
    let mut result: Vec<char> = Vec::new();
    let mut i: usize = 0;
    while i < chars.len()
        invariant
            i <= chars@.len(),
            chars@ == file_name@,
            result@ == with_slashes(file_name@).take(i as int),
        decreases chars@.len() - i,
    {
        let c = chars[i];
        if c == '\\' {
            result.push('/');
        } else {
            result.push(c);
        }
        i = i + 1;
        assert(result@ =~= with_slashes(file_name@).take(i as int));
    }
    assert(with_slashes(file_name@).take(i as int) =~= with_slashes(file_name@));
    crate::text::string_of(result.as_slice())
}

/// The addresses of the push endpoints that the pages call.
#[derive(Debug, Clone)]
pub struct PushEndpoints {
    pub get_public_key: String,
    pub subscribe: String,
    pub unsubscribe: String,
}

impl Default for PushEndpoints {
    fn default() -> (endpoints: Self)
        ensures
            endpoints.get_public_key@ == "/_api/push/public-key"@,
            endpoints.subscribe@ == "/_api/push/subscribe"@,
            endpoints.unsubscribe@ == "/_api/push/unsubscribe"@,
    {
        proof {
            reveal_strlit("/_api/push/public-key");
            reveal_strlit("/_api/push/subscribe");
            reveal_strlit("/_api/push/unsubscribe");
        }
        PushEndpoints {
            get_public_key: "/_api/push/public-key".to_string(),
            subscribe: "/_api/push/subscribe".to_string(),
            unsubscribe: "/_api/push/unsubscribe".to_string(),
        }
    }
}

} // verus!
