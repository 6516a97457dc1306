use base64::Engine;
use hmac::Mac;
use nutribot::users::{get_user, register_user_at, UserDirectory};
use nutribot::webhook::{
    apply_callback, resolve_callback, subscription_callback, verify_signature, SubscriptionCallback,
    WebhookReply, FAR_FUTURE_EXPIRY,
};

const SECRET: &[u8] = b"default_secret";
const BODY: &[u8] = br#"{"user_id":1,"status":"success"}"#;

fn sign(secret: &[u8], body: &[u8]) -> String {
    let mut mac = hmac::Hmac::<sha2::Sha256>::new_from_slice(secret).unwrap();
    mac.update(body);
    base64::engine::general_purpose::STANDARD.encode(mac.finalize().into_bytes())
}

fn payload(status: &str, expires_at: Option<&str>) -> Option<SubscriptionCallback> {
    Some(SubscriptionCallback {
        user_id: 1,
        status: status.to_string(),
        expires_at: expires_at.map(|s| s.to_string()),
    })
}

fn directory() -> UserDirectory {
    let mut users = UserDirectory::new();
    register_user_at(&mut users, 1, 1_700_000_000);
    users
}

#[test]
fn signed_success_without_expiry_activates_far_future() {
    let mut users = directory();
    let sig = sign(SECRET, BODY);
    let r = subscription_callback(&mut users, SECRET, BODY, &sig, &payload("success", None));
    assert_eq!(r, WebhookReply::Accepted);
    assert_eq!(r.status_code(), 200);
    assert_eq!(r.body(), "ok");
    let u = get_user(&users, 1).unwrap();
    assert_eq!(u.subscription_ends_at, Some(FAR_FUTURE_EXPIRY));
    assert_eq!(FAR_FUTURE_EXPIRY, 4_102_358_400);
    assert!(u.is_subscription_active());
}

#[test]
fn wrong_signature_is_refused_without_change() {
    let mut users = directory();
    let sig = sign(b"another secret", BODY);
    let r = subscription_callback(&mut users, SECRET, BODY, &sig, &payload("success", None));
    assert_eq!(r, WebhookReply::InvalidSignature);
    assert_eq!(r.status_code(), 401);
    assert_eq!(r.body(), "invalid signature");
    assert_eq!(get_user(&users, 1).unwrap().subscription_ends_at, None);
    let r = subscription_callback(&mut users, SECRET, BODY, "not base64!", &payload("success", None));
    assert_eq!(r, WebhookReply::InvalidSignature);
    let r = subscription_callback(&mut users, SECRET, BODY, "", &payload("success", None));
    assert_eq!(r, WebhookReply::InvalidSignature);
}

#[test]
fn signature_covers_the_exact_body() {
    let sig = sign(SECRET, BODY);
    assert!(verify_signature(SECRET, BODY, &sig));
    assert!(!verify_signature(SECRET, br#"{"user_id":2,"status":"success"}"#, &sig));
    assert!(!verify_signature(b"", BODY, &sig));
    assert!(verify_signature(b"", BODY, &sign(b"", BODY)));
}

#[test]
fn failed_status_is_refused_without_change() {
    let mut users = directory();
    let body = br#"{"user_id":1,"status":"failed"}"#;
    let sig = sign(SECRET, body);
    let r = subscription_callback(&mut users, SECRET, body, &sig, &payload("failed", None));
    assert_eq!(r, WebhookReply::InvalidStatus);
    assert_eq!(r.status_code(), 400);
    assert_eq!(r.body(), "invalid status");
    assert_eq!(get_user(&users, 1).unwrap().subscription_ends_at, None);
}

#[test]
fn undecodable_body_is_invalid_json() {
    let mut users = directory();
    let body = b"not json";
    let sig = sign(SECRET, body);
    let r = subscription_callback(&mut users, SECRET, body, &sig, &None);
    assert_eq!(r, WebhookReply::InvalidJson);
    assert_eq!(r.body(), "invalid json");
    assert_eq!(r.status_code(), 400);
}

#[test]
fn expiry_given_as_rfc3339_is_used() {
    assert_eq!(
        resolve_callback(&payload("success", Some("2030-01-01T00:00:00Z"))),
        Ok((1, 1_893_456_000))
    );
    assert_eq!(
        resolve_callback(&payload("success", Some("2030-01-01T03:00:00+03:00"))),
        Ok((1, 1_893_456_000))
    );
    assert_eq!(
        resolve_callback(&payload("success", Some("next year"))),
        Err(WebhookReply::InvalidJson)
    );
    assert_eq!(resolve_callback(&payload("Success", None)), Err(WebhookReply::InvalidStatus));
}

#[test]
fn authenticated_callback_for_unknown_user_changes_nothing() {
    let mut users = directory();
    let p = Some(SubscriptionCallback {
        user_id: 99,
        status: "success".to_string(),
        expires_at: None,
    });
    assert_eq!(apply_callback(&mut users, &p), WebhookReply::Accepted);
    assert_eq!(get_user(&users, 1).unwrap().subscription_ends_at, None);
    assert_eq!(users.users().len(), 1);
}

#[test]
fn server_error_reply() {
    assert_eq!(WebhookReply::DbError.status_code(), 500);
    assert_eq!(WebhookReply::DbError.body(), "db error");
}
