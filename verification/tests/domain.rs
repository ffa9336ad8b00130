use z2p::domain::new_subscriber::NewSubscriber;
use z2p::domain::subscriber_email::SubscriberEmail;
use z2p::domain::subscriber_name::SubscriberName;
use z2p::domain::ValidationError;
use z2p::enrollment::FormData;

#[test]
fn subscriber_email_empty_string_is_rejected() {
    let email = "".to_string();
    assert!(SubscriberEmail::parse(email).is_err());
}

#[test]
fn missing_at_symbol_is_rejected() {
    let email = "helloworld".to_string();
    assert!(SubscriberEmail::parse(email).is_err());
}

#[test]
fn missing_subject_is_rejected() {
    let email = "@helloworld".to_string();
    assert!(SubscriberEmail::parse(email).is_err());
}

#[test]
fn missing_domain_is_rejected() {
    let email = "helloworld@".to_string();
    assert!(SubscriberEmail::parse(email).is_err());
}

#[test]
fn valid_email_parses_and_reads_back() {
    let email = SubscriberEmail::parse("user@example.com".to_string()).unwrap();
    assert_eq!(email.as_ref(), "user@example.com");
}

#[test]
fn subscriber_name_empty_string_is_rejected() {
    let name = "".to_string();
    assert!(SubscriberName::parse(name).is_err());
}

#[test]
fn whitespace_string_is_rejected() {
    let name = "    ".to_string();
    assert!(SubscriberName::parse(name).is_err());
}

#[test]
fn a_256_grapheme_name_is_valid() {
    let name = "á".repeat(256);
    assert!(SubscriberName::parse(name).is_ok());
}

#[test]
fn a_257_grapheme_name_is_rejected() {
    let name = "ớ".repeat(257);
    assert!(SubscriberName::parse(name).is_err());
}

#[test]
fn name_with_invalid_chars_is_rejected() {
    for name in &['/', '(', ')', '<', '>', '[', ']', '\\', '{', '}'] {
        let name = name.to_string();
        assert!(SubscriberName::parse(name).is_err());
    }
}

#[test]
fn valid_name_parse_successfully() {
    let name = "Minh Hoang Tien".to_string();
    assert!(SubscriberName::parse(name).is_ok());
}

#[test]
fn valid_name_reads_back_unchanged() {
    let name = SubscriberName::parse("Minh Hoang Tien".to_string()).unwrap();
    assert_eq!(name.as_ref(), "Minh Hoang Tien");
}

#[test]
fn name_parse_reports_invalid_name() {
    let err = SubscriberName::parse("{}".to_string()).unwrap_err();
    assert_eq!(err, ValidationError::InvalidName);
}

#[test]
fn email_parse_reports_invalid_email() {
    let err = SubscriberEmail::parse("definately-not-a-valid-email".to_string()).unwrap_err();
    assert_eq!(err, ValidationError::InvalidEmail);
}

#[test]
fn new_subscriber_accepts_a_fully_valid_form() {
    let form = FormData { name: "Minh Hoang".to_string(), email: "user@example.com".to_string() };
    let ns = NewSubscriber::try_from(form).unwrap();
    assert_eq!(ns.name.as_ref(), "Minh Hoang");
    assert_eq!(ns.email.as_ref(), "user@example.com");
}

#[test]
fn new_subscriber_rejects_a_bad_name_first() {
    let form = FormData { name: "   ".to_string(), email: "user@example.com".to_string() };
    assert_eq!(NewSubscriber::try_from(form).unwrap_err(), ValidationError::InvalidName);
}

#[test]
fn new_subscriber_rejects_a_bad_email() {
    let form = FormData { name: "Minh Hoang".to_string(), email: "helloworld".to_string() };
    assert_eq!(NewSubscriber::try_from(form).unwrap_err(), ValidationError::InvalidEmail);
}
