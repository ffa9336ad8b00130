use z2p::domain::new_subscriber::NewSubscriber;
use z2p::email_client::NotifierError;
use z2p::enrollment::{
    build_confirmation_link, complete_enrollment, enroll, enroll_with_token, EnrollmentError,
    FormData,
};
use z2p::store::{RepositoryError, Store, SubscriptionStatus};

fn valid_form() -> FormData {
    FormData { name: "Minh Hoang".to_string(), email: "user@example.com".to_string() }
}

#[test]
fn enroll_valid_form_creates_one_pending_row_with_its_token() {
    let mut store = Store::new();
    let ticket = enroll(&mut store, valid_form()).unwrap();

    assert_eq!(store.subscriber_count(), 1);
    assert_eq!(store.token_count(), 1);

    let row = store.subscriber_at(0);
    assert_eq!(row.name, "Minh Hoang");
    assert_eq!(row.email, "user@example.com");
    assert_eq!(row.status, SubscriptionStatus::Pending);

    let token_row = store.token_at(0);
    assert_eq!(token_row.token, ticket.token);
    assert_eq!(token_row.subscriber_id, ticket.subscriber_id);
    assert_eq!(row.id, token_row.subscriber_id);
}

#[test]
fn enroll_issues_a_25_char_alphanumeric_token() {
    let mut store = Store::new();
    let ticket = enroll(&mut store, valid_form()).unwrap();
    assert_eq!(ticket.token.chars().count(), 25);
    assert!(ticket.token.chars().all(|c| c.is_ascii_alphanumeric()));
}

#[test]
fn enroll_empty_name_fails_with_invalid_input_and_writes_nothing() {
    let mut store = Store::new();
    let form = FormData { name: "".to_string(), email: "user@example.com".to_string() };
    let r = enroll(&mut store, form);
    assert!(matches!(r, Err(EnrollmentError::InvalidInput)));
    assert_eq!(store.subscriber_count(), 0);
    assert_eq!(store.token_count(), 0);
}

#[test]
fn enroll_bad_email_fails_with_invalid_input_and_writes_nothing() {
    let mut store = Store::new();
    let form = FormData { name: "Minh Hoang".to_string(), email: "helloworld".to_string() };
    let r = enroll(&mut store, form);
    assert!(matches!(r, Err(EnrollmentError::InvalidInput)));
    assert_eq!(store.subscriber_count(), 0);
    assert_eq!(store.token_count(), 0);
}

#[test]
fn two_enrollments_never_collide_and_pair_every_row() {
    let mut store = Store::new();
    let first = enroll(&mut store, valid_form()).unwrap();
    let second = enroll(
        &mut store,
        FormData { name: "Tien".to_string(), email: "tien@example.com".to_string() },
    )
    .unwrap();

    assert_ne!(first.token, second.token);
    assert_ne!(first.subscriber_id, second.subscriber_id);
    assert_eq!(store.subscriber_count(), 2);
    assert_eq!(store.token_count(), 2);
    for i in 0..2 {
        assert_eq!(store.subscriber_at(i).id, store.token_at(i).subscriber_id);
    }
}

#[test]
fn enroll_with_token_refuses_a_taken_token() {
    let mut store = Store::new();
    let first = enroll_with_token(&mut store, valid_form(), "A".repeat(25));
    assert!(first.is_ok());
    let second = enroll_with_token(
        &mut store,
        FormData { name: "Tien".to_string(), email: "tien@example.com".to_string() },
        "A".repeat(25),
    );
    assert!(matches!(second, Err(EnrollmentError::PersistenceFailed)));
    assert_eq!(store.subscriber_count(), 1);
    assert_eq!(store.token_count(), 1);
}

#[test]
fn repository_insert_reports_a_token_conflict() {
    let mut store = Store::new();
    let ns = NewSubscriber::try_from(valid_form()).unwrap();
    let first = store.insert_pending_subscriber_and_token(&ns, "B".repeat(25));
    assert!(first.is_ok());
    let ns2 = NewSubscriber::try_from(valid_form()).unwrap();
    let second = store.insert_pending_subscriber_and_token(&ns2, "B".repeat(25));
    assert!(matches!(second, Err(RepositoryError::Conflict)));
    assert_eq!(store.subscriber_count(), 1);
}

#[test]
fn notification_failure_keeps_the_pending_row() {
    let mut store = Store::new();
    let _ticket = enroll(&mut store, valid_form()).unwrap();

    let outcome = complete_enrollment(Err(NotifierError::RemoteRejected(500)));
    assert!(matches!(outcome, Err(EnrollmentError::NotificationFailed)));

    assert_eq!(store.subscriber_count(), 1);
    assert_eq!(store.subscriber_at(0).status, SubscriptionStatus::Pending);
    assert_eq!(store.token_count(), 1);
}

#[test]
fn transport_failure_also_reports_notification_failed() {
    let outcome = complete_enrollment(Err(NotifierError::Transport));
    assert!(matches!(outcome, Err(EnrollmentError::NotificationFailed)));
}

#[test]
fn successful_notification_completes_the_enrollment() {
    assert!(complete_enrollment(Ok(())).is_ok());
}

#[test]
fn confirmation_link_embeds_the_token() {
    let link = build_confirmation_link("https://news.example.com", "abcDEF123");
    assert_eq!(
        link,
        "https://news.example.com/subscriptions/confirm?subscription_token=abcDEF123"
    );
}
