use zero2prod::domain::SubscriberName;
use zero2prod::domain::subscriber_email::SubscriberEmail;

#[test]
fn a_256_grapheme_long_name_is_valid() {
    let name = "a̐".repeat(256);
    assert!(SubscriberName::parse(name).is_ok());
}

#[test]
fn a_name_longer_than_256_graphemes_is_rejected() {
    let name = "a̐".repeat(257);
    assert!(SubscriberName::parse(name).is_err());
}

#[test]
fn whitespace_only_names_are_rejected() {
    let name = " ".to_string();
    assert!(SubscriberName::parse(name).is_err());
}

#[test]
fn domain_empty_string_is_rejected() {
    let name = "".to_string();
    assert!(SubscriberName::parse(name).is_err());
}

#[test]
fn names_containing_an_invalid_character_are_rejected() {
    for name in &['/', '(', ')', '"', '<', '>', '\\', '{', '}'] {
        let name = name.to_string();
        assert!(SubscriberName::parse(name).is_err());
    }
}

#[test]
fn a_valid_name_is_parsed_successfully() {
    let name = "Ursula le Guin".to_string();
    assert!(SubscriberName::parse(name).is_ok());
}

#[test]
fn valid_emails_are_parsed_successfully() {
    let email = "ursula_le_guin@gmail.com".to_string();
    assert!(SubscriberEmail::parse(email).is_ok());
}

#[test]
fn subscriber_email_empty_string_is_rejected() {
    let email = "".to_string();
    assert!(SubscriberEmail::parse(email).is_err());
}

#[test]
fn email_missing_at_symbol_is_rejected() {
    let email = "ursuladomain.com".to_string();
    assert!(SubscriberEmail::parse(email).is_err());
}

#[test]
fn email_missing_subject_is_rejected() {
    let email = "@domain.com".to_string();
    assert!(SubscriberEmail::parse(email).is_err());
}

#[test]
fn name_rejection_carries_the_offending_name() {
    let err = SubscriberName::parse("{braces}".to_string()).unwrap_err();
    assert_eq!(err, "{braces} is not valid subscriber name.");
}

#[test]
fn email_rejection_carries_the_offending_address() {
    let err = SubscriberEmail::parse("nobody".to_string()).unwrap_err();
    assert_eq!(err, "nobody is not a valid subscriber email");
}

#[test]
fn accepted_values_are_wrapped_unchanged() {
    let name = SubscriberName::parse("Ursula le Guin".to_string()).unwrap();
    assert_eq!(name.as_str(), "Ursula le Guin");
    let email = SubscriberEmail::parse("ursula@x.com".to_string()).unwrap();
    assert_eq!(email.as_str(), "ursula@x.com");
}
