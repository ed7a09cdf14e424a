use zero2prod::domain::NewSubscriber;
use zero2prod::startup::ApplicationBaseUrl;
use zero2prod::subscriptions::FormData;
use zero2prod::subscriptions_confirm::Parameters;
use zero2prod::subscriptions::StoreTokenError;
use zero2prod::subscriptions::build_confirmation_link;
use zero2prod::subscriptions::confirmation_html_body;
use zero2prod::subscriptions::confirmation_text_body;
use zero2prod::subscriptions::generate_subscription_token;
use zero2prod::subscriptions::is_valid_name;

#[test]
fn a_well_formed_signup_is_accepted() {
    let form = FormData {
        email: "ursula@x.com".to_string(),
        name: "Ursula le Guin".to_string(),
    };
    let subscriber = NewSubscriber::parse(form).unwrap();
    assert_eq!(subscriber.name.as_str(), "Ursula le Guin");
    assert_eq!(subscriber.email.as_str(), "ursula@x.com");
}

#[test]
fn a_bad_name_fails_the_signup_with_the_name_message() {
    let form = FormData {
        email: "ursula@x.com".to_string(),
        name: "  ".to_string(),
    };
    let err = NewSubscriber::parse(form).unwrap_err();
    assert_eq!(err, "   is not valid subscriber name.");
}

#[test]
fn a_bad_email_fails_the_signup_with_the_email_message() {
    let form = FormData {
        email: "ursula".to_string(),
        name: "Ursula le Guin".to_string(),
    };
    let err = NewSubscriber::parse(form).unwrap_err();
    assert_eq!(err, "ursula is not a valid subscriber email");
}

#[test]
fn is_valid_name_mirrors_the_name_rules() {
    assert!(is_valid_name("Ursula le Guin"));
    assert!(!is_valid_name(""));
    assert!(!is_valid_name("   "));
    assert!(!is_valid_name("Ursula (le Guin)"));
    assert!(!is_valid_name(&"a̐".repeat(257)));
}

#[test]
fn subscription_tokens_are_25_alphanumeric_characters() {
    let token = generate_subscription_token();
    assert_eq!(token.chars().count(), 25);
    assert!(token.chars().all(|c| c.is_ascii_alphanumeric()));
}

#[test]
fn subscription_tokens_differ_between_draws() {
    let one = generate_subscription_token();
    let two = generate_subscription_token();
    assert_ne!(one, two);
}

#[test]
fn the_confirmation_link_carries_base_url_and_token() {
    let base_url = ApplicationBaseUrl("https://newsletter.example".to_string());
    let link = build_confirmation_link(&base_url.0, "tok123");
    assert_eq!(
        link,
        "https://newsletter.example/subscriptions/confirm?subscription_token=tok123"
    );
}

#[test]
fn the_confirmation_bodies_wrap_the_link() {
    let html = confirmation_html_body("https://x/confirm?subscription_token=t");
    assert_eq!(
        html,
        "Welcome to our newsletter!<br />Click <a href=\"https://x/confirm?subscription_token=t\">here</a> to confirm your subscription."
    );
    let text = confirmation_text_body("https://x/confirm?subscription_token=t");
    assert_eq!(
        text,
        "Welcome to our newsletter!\nVisit https://x/confirm?subscription_token=t to confirm your subscription."
    );
}

#[test]
fn store_token_failures_have_a_fixed_caller_message() {
    let err = StoreTokenError("connection reset".to_string());
    assert_eq!(
        err.message(),
        "A database error was encountered while trying to store a subscription token."
    );
    assert_eq!(err.0, "connection reset");
}

#[test]
fn confirmation_parameters_carry_the_token() {
    let parameters = Parameters {
        subscription_token: "tok123".to_string(),
    };
    assert_eq!(parameters.subscription_token, "tok123");
}
