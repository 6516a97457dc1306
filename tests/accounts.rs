use nutribot::users::{
    check_subscription_at, get_user, register_user, register_user_at, update_language,
    update_subscription, user_language, User, UserDirectory,
};

const DAY: i64 = 86_400;
const NOW: i64 = 1_704_888_000;

fn account(ends: Option<i64>) -> User {
    User {
        chat_id: 1,
        username: None,
        language_code: None,
        created_at: None,
        updated_at: None,
        subscription_ends_at: ends,
    }
}

#[test]
fn register_twice_creates_one_account() {
    let mut users = UserDirectory::new();
    register_user_at(&mut users, 42, NOW);
    register_user_at(&mut users, 42, NOW + 10);
    assert_eq!(users.users().len(), 1);
    let u = get_user(&users, 42).unwrap();
    assert_eq!(u.chat_id, 42);
    assert_eq!(u.created_at, Some(NOW));
    assert_eq!(u.subscription_ends_at, None);
    register_user(&mut users, 42);
    register_user(&mut users, 43);
    assert_eq!(users.users().len(), 2);
}

#[test]
fn language_is_set_for_the_account_only() {
    let mut users = UserDirectory::new();
    register_user_at(&mut users, 1, NOW);
    register_user_at(&mut users, 2, NOW);
    update_language(&mut users, 2, "th");
    update_language(&mut users, 3, "zh");
    assert_eq!(get_user(&users, 1).unwrap().language_code, None);
    assert_eq!(get_user(&users, 2).unwrap().language_code.as_deref(), Some("th"));
    assert!(get_user(&users, 3).is_none());
    assert_eq!(user_language(&get_user(&users, 2)), "th");
    assert_eq!(user_language(&get_user(&users, 1)), "ru");
    assert_eq!(user_language(&None), "ru");
}

#[test]
fn extend_without_expiry_starts_now() {
    let mut u = account(None);
    assert!(!u.is_active_at(NOW));
    u.extend_subscription_at(1, NOW);
    assert!(u.is_active_at(NOW));
    assert_eq!(u.subscription_ends_at, Some(NOW + 30 * DAY));
}

#[test]
fn extend_active_subscription_adds_to_expiry() {
    let mut u = account(Some(NOW + 10 * DAY));
    u.extend_subscription_at(1, NOW);
    assert_eq!(u.subscription_ends_at, Some(NOW + 40 * DAY));
}

#[test]
fn extend_expired_subscription_starts_now() {
    let mut u = account(Some(NOW - 5 * DAY));
    assert!(!u.is_active_at(NOW));
    u.extend_subscription_at(2, NOW);
    assert_eq!(u.subscription_ends_at, Some(NOW + 60 * DAY));
}

#[test]
fn extend_saturates_at_the_largest_instant() {
    let mut u = account(Some(i64::MAX - DAY));
    u.extend_subscription_at(1, NOW);
    assert_eq!(u.subscription_ends_at, Some(i64::MAX));
    let mut v = account(None);
    v.extend_subscription_at(i64::MAX, NOW);
    assert_eq!(v.subscription_ends_at, Some(i64::MAX));
    let mut w = account(Some(NOW));
    w.extend_subscription_at(0, NOW);
    assert_eq!(w.subscription_ends_at, Some(NOW));
}

#[test]
fn activity_is_strictly_before_expiry() {
    let u = account(Some(NOW));
    assert!(!u.is_active_at(NOW));
    assert!(u.is_active_at(NOW - 1));
    assert!(!account(None).is_subscription_active());
    assert!(account(Some(i64::MAX)).is_subscription_active());
}

#[test]
fn extend_now_credits_at_least_thirty_days() {
    let mut u = account(None);
    u.extend_subscription(1);
    assert!(u.is_subscription_active());
}

#[test]
fn subscription_check_and_update() {
    let mut users = UserDirectory::new();
    register_user_at(&mut users, 5, NOW);
    assert!(!check_subscription_at(&users, 5, NOW));
    assert!(update_subscription(&mut users, 5, NOW + DAY));
    assert!(!update_subscription(&mut users, 6, NOW + DAY));
    assert!(check_subscription_at(&users, 5, NOW));
    assert!(!check_subscription_at(&users, 5, NOW + DAY));
    assert!(!check_subscription_at(&users, 6, NOW));
    assert_eq!(users.users().len(), 1);
}
