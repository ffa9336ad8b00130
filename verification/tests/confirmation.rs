use z2p::confirmation::{confirm, ConfirmPayload, ConfirmationError};
use z2p::enrollment::{enroll, FormData};
use z2p::store::{Store, SubscriptionStatus};

fn enrolled_store() -> (Store, String) {
    let mut store = Store::new();
    let ticket = enroll(
        &mut store,
        FormData { name: "Minh Hoang".to_string(), email: "user@example.com".to_string() },
    )
    .unwrap();
    (store, ticket.token)
}

#[test]
fn confirm_with_issued_token_confirms_the_subscriber() {
    let (mut store, token) = enrolled_store();
    assert!(confirm(&mut store, &token).is_ok());
    assert_eq!(store.subscriber_at(0).status, SubscriptionStatus::Confirmed);
    assert_eq!(store.subscriber_count(), 1);
    assert_eq!(store.token_count(), 1);
}

#[test]
fn confirm_twice_still_succeeds_and_changes_nothing_more() {
    let (mut store, token) = enrolled_store();
    assert!(confirm(&mut store, &token).is_ok());
    assert!(confirm(&mut store, &token).is_ok());
    assert_eq!(store.subscriber_at(0).status, SubscriptionStatus::Confirmed);
    assert_eq!(store.subscriber_count(), 1);
    assert_eq!(store.token_count(), 1);
}

#[test]
fn confirm_unknown_token_fails_with_unknown_token() {
    let mut store = Store::new();
    let payload = ConfirmPayload { subscription_token: "nonexistent-token".to_string() };
    let r = confirm(&mut store, payload.subscription_token.as_str());
    assert!(matches!(r, Err(ConfirmationError::UnknownToken)));
}

#[test]
fn confirm_unknown_token_leaves_other_subscribers_pending() {
    let (mut store, _token) = enrolled_store();
    let r = confirm(&mut store, "nonexistent-token");
    assert!(matches!(r, Err(ConfirmationError::UnknownToken)));
    assert_eq!(store.subscriber_at(0).status, SubscriptionStatus::Pending);
}

#[test]
fn confirm_targets_only_the_presented_token() {
    let mut store = Store::new();
    let first = enroll(
        &mut store,
        FormData { name: "Minh Hoang".to_string(), email: "user@example.com".to_string() },
    )
    .unwrap();
    let _second = enroll(
        &mut store,
        FormData { name: "Tien".to_string(), email: "tien@example.com".to_string() },
    )
    .unwrap();

    assert!(confirm(&mut store, &first.token).is_ok());
    assert_eq!(store.subscriber_at(0).status, SubscriptionStatus::Confirmed);
    assert_eq!(store.subscriber_at(1).status, SubscriptionStatus::Pending);
}
