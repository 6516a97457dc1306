//! The payment provider's signed subscription callback: the signature is
//! checked over the raw body before anything of the body is read; then a
//! successful payment sets the user's subscription expiry.
use crate::extract::same_text;
use crate::users::{expiry_set, User, UserDirectory};
use vstd::prelude::*;
use vstd::string::*;

verus! {

/// Expiry given when a successful callback names none:
/// 2099-12-31T00:00:00Z, in seconds since the epoch.
pub const FAR_FUTURE_EXPIRY: i64 = 4102358400;

/// The HMAC-SHA256 tag of `msg` under `key`.
pub uninterp spec fn hmac_sha256_of(key: Seq<u8>, msg: Seq<u8>) -> Seq<u8>;

/// The bytes that a text in padded standard base64 stands for; none where
/// the text is not such.
pub uninterp spec fn base64_decoded(s: Seq<char>) -> Option<Seq<u8>>;

/// The instant, in whole seconds since the epoch, named by an RFC 3339 text;
/// none where the text is not such.
pub uninterp spec fn rfc3339_seconds(s: Seq<char>) -> Option<i64>;

/// Relies on hmac's `Hmac<Sha256>`: `Mac::new_from_slice` (which takes a key
/// of any length), `Mac::update` and `Mac::verify_slice`, which compares in
/// constant time. Tells whether `tag` is the tag of `msg` under `key`.
#[verifier::external_body]
fn hmac_sha256_matches(key: &[u8], msg: &[u8], tag: &[u8]) -> (r: bool)
    ensures
        r == (tag@ == hmac_sha256_of(key@, msg@)),
{
    match <hmac::Hmac<sha2::Sha256> as hmac::Mac>::new_from_slice(key) {
        Ok(mut mac) => {
            hmac::Mac::update(&mut mac, msg);
            hmac::Mac::verify_slice(mac, tag).is_ok()
        },
        Err(_) => false,
    }
}

/// Relies on base64's `Engine::decode` with the `STANDARD` engine: the bytes
/// of a padded standard base64 text.
#[verifier::external_body]
fn decode_base64(s: &str) -> (r: Option<Vec<u8>>)
    ensures
        match r {
            Some(v) => base64_decoded(s@) == Some(v@),
            None => base64_decoded(s@) is None,
        },
{
    match base64::Engine::decode(&base64::engine::general_purpose::STANDARD, s) {
        Ok(v) => Some(v),
        Err(_) => None,
    }
}

/// Relies on chrono's `DateTime::parse_from_rfc3339` and `timestamp`: the
/// instant an RFC 3339 text names.
#[verifier::external_body]
fn parse_rfc3339(s: &str) -> (r: Option<i64>)
    ensures
        r == rfc3339_seconds(s@),
{
    match chrono::DateTime::parse_from_rfc3339(s) {
        Ok(t) => Some(t.timestamp()),
        Err(_) => None,
    }
}

/// The body of a callback, as decoded from its JSON.
#[derive(Clone, Debug)]
pub struct SubscriptionCallback {
    pub user_id: i64,
    pub status: String,
    /// RFC 3339 instant; absent means the far-future expiry.
    pub expires_at: Option<String>,
}

/// The answer to a callback, as an HTTP status and body.
#[derive(Clone, Copy, Debug, PartialEq, Eq, Structural)]
pub enum WebhookReply {
    Accepted,
    InvalidJson,
    InvalidStatus,
    InvalidSignature,
    DbError,
}

impl WebhookReply {
    pub fn status_code(&self) -> (r: u16)
        ensures
            r == match *self {
                WebhookReply::Accepted => 200u16,
                WebhookReply::InvalidJson | WebhookReply::InvalidStatus => 400u16,
                WebhookReply::InvalidSignature => 401u16,
                WebhookReply::DbError => 500u16,
            },
    {
        match self {
            WebhookReply::Accepted => 200,
            WebhookReply::InvalidJson | WebhookReply::InvalidStatus => 400,
            WebhookReply::InvalidSignature => 401,
            WebhookReply::DbError => 500,
        }
    }

    pub fn body(&self) -> (r: &'static str)
        ensures
            r@ == reply_body(*self),
    {
        match self {
            WebhookReply::Accepted => "ok",
            WebhookReply::InvalidJson => "invalid json",
            WebhookReply::InvalidStatus => "invalid status",
            WebhookReply::InvalidSignature => "invalid signature",
            WebhookReply::DbError => "db error",
        }
    }
}

pub open spec fn reply_body(r: WebhookReply) -> Seq<char> {
    match r {
        WebhookReply::Accepted => "ok"@,
        WebhookReply::InvalidJson => "invalid json"@,
        WebhookReply::InvalidStatus => "invalid status"@,
        WebhookReply::InvalidSignature => "invalid signature"@,
        WebhookReply::DbError => "db error"@,
    }
}

pub open spec fn success_status() -> Seq<char> {
    seq!['s', 'u', 'c', 'c', 'e', 's', 's']
}

/// The signature is the padded base64 of the body's HMAC-SHA256 tag under
/// the secret.
pub open spec fn signature_valid(secret: Seq<u8>, body: Seq<u8>, signature: Seq<char>) -> bool {
    base64_decoded(signature) == Some(hmac_sha256_of(secret, body))
}

/// Checks the claimed signature of a raw body.
pub fn verify_signature(secret: &[u8], body: &[u8], signature: &str) -> (r: bool)
    ensures
        r == signature_valid(secret@, body@, signature@),
{
    match decode_base64(signature) {
        Some(tag) => hmac_sha256_matches(secret, body, tag.as_slice()),
        None => false,
    }
}

/// What an authenticated callback asks for: the user and the new expiry, or
/// the refusal.
pub open spec fn callback_outcome(payload: Option<SubscriptionCallback>) -> Result<(i64, i64), WebhookReply> {
    match payload {
        None => Err(WebhookReply::InvalidJson),
        Some(p) => if p.status@ != success_status() {
            Err(WebhookReply::InvalidStatus)
        } else {
            match p.expires_at {
                None => Ok((p.user_id, FAR_FUTURE_EXPIRY)),
                Some(x) => match rfc3339_seconds(x@) {
                    Some(t) => Ok((p.user_id, t)),
                    None => Err(WebhookReply::InvalidJson),
                },
            }
        },
    }
}

/// The request of an authenticated callback; `None` stands for a body that
/// is not the expected JSON.
pub fn resolve_callback(payload: &Option<SubscriptionCallback>) -> (r: Result<(i64, i64), WebhookReply>)
    ensures
        r == callback_outcome(*payload),
{
    match payload {
        None => Err(WebhookReply::InvalidJson),
        Some(p) => {
            proof {
                reveal_strlit("success");
                assert("success"@ =~= success_status());
            }
            if !same_text(p.status.as_str(), "success") {
                return Err(WebhookReply::InvalidStatus);
            }
            match &p.expires_at {
                None => Ok((p.user_id, FAR_FUTURE_EXPIRY)),
                Some(x) => match parse_rfc3339(x.as_str()) {
                    Some(t) => Ok((p.user_id, t)),
                    None => Err(WebhookReply::InvalidJson),
                },
            }
        },
    }
}

/// Applies an authenticated callback to the accounts.
pub fn apply_callback(users: &mut UserDirectory, payload: &Option<SubscriptionCallback>) -> (r: WebhookReply)
    requires
        old(users).wf(),
    ensures
        final(users).wf(),
        match callback_outcome(*payload) {
            Ok((user, t)) => r == WebhookReply::Accepted && expiry_set(old(users)@, user, t, final(users)@),
            Err(e) => r == e && final(users)@ == old(users)@,
        },
{
    match resolve_callback(payload) {
        Ok((user, t)) => {
            crate::users::update_subscription(users, user, t);
            WebhookReply::Accepted
        },
        Err(e) => e,
    }
}

/// The effect of a callback: refused unchanged without a valid signature,
/// else as its payload asks.
pub open spec fn callback_handled(
    before: Seq<User>,
    secret: Seq<u8>,
    body: Seq<u8>,
    signature: Seq<char>,
    payload: Option<SubscriptionCallback>,
    r: WebhookReply,
    after: Seq<User>,
) -> bool {
    if !signature_valid(secret, body, signature) {
        r == WebhookReply::InvalidSignature && after == before
    } else {
        match callback_outcome(payload) {
            Ok((user, t)) => r == WebhookReply::Accepted && expiry_set(before, user, t, after),
            Err(e) => r == e && after == before,
        }
    }
}

/// Handles a callback: the signature over the raw body is checked first, and
/// the decoded payload is consulted only when it holds.
pub fn subscription_callback(
    users: &mut UserDirectory,
    secret: &[u8],
    body: &[u8],
    signature: &str,
    payload: &Option<SubscriptionCallback>,
) -> (r: WebhookReply)
    requires
        old(users).wf(),
    ensures
        final(users).wf(),
        callback_handled(old(users)@, secret@, body@, signature@, *payload, r, final(users)@),
{
    if !verify_signature(secret, body, signature) {
        return WebhookReply::InvalidSignature;
    }
    apply_callback(users, payload)
}

/// A validly signed callback for a successful payment that names no expiry
/// makes the user's existing account active until the far-future expiry.
pub proof fn lemma_signed_success_activates(
    before: Seq<User>,
    secret: Seq<u8>,
    body: Seq<u8>,
    signature: Seq<char>,
    p: SubscriptionCallback,
    r: WebhookReply,
    after: Seq<User>,
    i: int,
    now: i64,
)
    requires
        callback_handled(before, secret, body, signature, Some(p), r, after),
        signature_valid(secret, body, signature),
        p.status@ == success_status(),
        p.expires_at is None,
        0 <= i < before.len(),
        before[i].chat_id == p.user_id,
        now < FAR_FUTURE_EXPIRY,
    ensures
        r == WebhookReply::Accepted,
        after[i].subscription_ends_at == Some(FAR_FUTURE_EXPIRY),
        crate::users::active_at(after[i].subscription_ends_at, now),
{
}

/// A callback whose signature does not hold is refused and changes nothing.
pub proof fn lemma_bad_signature_refused(
    before: Seq<User>,
    secret: Seq<u8>,
    body: Seq<u8>,
    signature: Seq<char>,
    payload: Option<SubscriptionCallback>,
    r: WebhookReply,
    after: Seq<User>,
)
    requires
        callback_handled(before, secret, body, signature, payload, r, after),
        !signature_valid(secret, body, signature),
    ensures
        r == WebhookReply::InvalidSignature,
        after == before,
{
}

/// A validly signed callback whose status is not "success" is refused and
/// changes nothing.
pub proof fn lemma_failed_status_refused(
    before: Seq<User>,
    secret: Seq<u8>,
    body: Seq<u8>,
    signature: Seq<char>,
    p: SubscriptionCallback,
    r: WebhookReply,
    after: Seq<User>,
)
    requires
        callback_handled(before, secret, body, signature, Some(p), r, after),
        signature_valid(secret, body, signature),
        p.status@ != success_status(),
    ensures
        r == WebhookReply::InvalidStatus,
        after == before,
{
}

} // verus!
