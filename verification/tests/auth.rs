use zero2prod::auth::AuthError;
use zero2prod::auth::BasicAuthError;
use zero2prod::auth::LoginDecision;
use zero2prod::auth::basic_authentication;
use zero2prod::auth::login_decision;
use zero2prod::idempotency::IdentityId;

#[test]
fn basic_credentials_are_decoded_and_split() {
    // "username:password" in standard base64.
    let header = "Basic dXNlcm5hbWU6cGFzc3dvcmQ=";
    let credentials = basic_authentication(header).unwrap();
    assert_eq!(credentials.username, "username");
    assert_eq!(credentials.password, "password");
}

#[test]
fn password_may_contain_colons() {
    // "user:pa:ss" — only the first colon splits.
    let header = "Basic dXNlcjpwYTpzcw==";
    let credentials = basic_authentication(header).unwrap();
    assert_eq!(credentials.username, "user");
    assert_eq!(credentials.password, "pa:ss");
}

#[test]
fn username_may_be_empty() {
    // ":secret" — the username before the first colon is empty.
    let header = "Basic OnNlY3JldA==";
    let credentials = basic_authentication(header).unwrap();
    assert_eq!(credentials.username, "");
    assert_eq!(credentials.password, "secret");
}

#[test]
fn non_basic_scheme_is_rejected() {
    let err = basic_authentication("Bearer abcdef").unwrap_err();
    assert_eq!(err, BasicAuthError::SchemeNotBasic);
    assert_eq!(
        err.message(),
        "The authorization scheme was not 'Basic'."
    );
}

#[test]
fn malformed_base64_is_rejected() {
    let err = basic_authentication("Basic !!!not-base64!!!").unwrap_err();
    assert_eq!(err, BasicAuthError::InvalidBase64);
    assert_eq!(
        err.message(),
        "Failed to base64-decode 'Basic' credentials."
    );
}

#[test]
fn non_utf8_credentials_are_rejected() {
    // "/w==" decodes to the single byte 0xff, which is not valid UTF-8.
    let err = basic_authentication("Basic /w==").unwrap_err();
    assert_eq!(err, BasicAuthError::NotUtf8);
    assert_eq!(
        err.message(),
        "The decoded credential string is not valid UTF8."
    );
}

#[test]
fn credentials_without_a_colon_are_rejected() {
    // "dXNlcg==" decodes to "user": no password separator.
    let err = basic_authentication("Basic dXNlcg==").unwrap_err();
    assert_eq!(err, BasicAuthError::MissingPassword);
    assert_eq!(
        err.message(),
        "A password must be provided in 'Basic' auth."
    );
}

#[test]
fn successful_login_lands_on_the_dashboard() {
    let decision = login_decision(Ok(IdentityId(42)));
    assert!(matches!(decision, LoginDecision::Dashboard(IdentityId(42))));
    assert_eq!(decision.location(), "/admin/dashboard");
}

#[test]
fn rejected_credentials_send_the_caller_back_to_login() {
    let decision = login_decision(Err(AuthError::InvalidCredentials(
        "unknown username".to_string(),
    )));
    let error = match &decision {
        LoginDecision::RetryLogin(error) => error,
        LoginDecision::Dashboard(_) => panic!("a failed login must not reach the dashboard"),
    };
    assert_eq!(error.message(), "Authentication failed");
    assert_eq!(decision.location(), "/login");
}

#[test]
fn unexpected_login_failures_keep_their_own_message() {
    let decision = login_decision(Err(AuthError::UnexpectedError(
        "the pool is gone".to_string(),
    )));
    let error = match &decision {
        LoginDecision::RetryLogin(error) => error,
        LoginDecision::Dashboard(_) => panic!("a failed login must not reach the dashboard"),
    };
    assert_eq!(error.message(), "Something went wrong");
    assert_eq!(decision.location(), "/login");
}
