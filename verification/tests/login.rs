use onelist::auth::{
    extract_code_from_target, initial_auth_plan, login_step, parse_code, request_target,
    AuthError, InitialAuthPlan, LoginEvent, LoginState,
};
use onelist::token::Token;

#[test]
fn target_is_the_second_token_of_the_first_line() {
    let req = "GET /redirect?code=abc HTTP/1.1\r\nHost: localhost\r\n\r\n";
    assert_eq!(request_target(req), "/redirect?code=abc");
}

#[test]
fn target_defaults_to_root() {
    assert_eq!(request_target(""), "/");
    assert_eq!(request_target("GET"), "/");
    assert_eq!(request_target("GET\r\n/path HTTP/1.1"), "/");
}

#[test]
fn repeated_spaces_are_skipped() {
    assert_eq!(request_target("GET   /a  HTTP/1.1"), "/a");
}

#[test]
fn code_is_the_first_code_parameter() {
    assert_eq!(
        parse_code("http://localhost:8077/redirect?code=XYZ").as_deref(),
        Some("XYZ")
    );
    assert_eq!(
        parse_code("http://localhost:8077/redirect?state=1&code=first&code=second").as_deref(),
        Some("first")
    );
    assert_eq!(parse_code("http://localhost:8077/redirect?state=1"), None);
    assert_eq!(parse_code("not a url"), None);
}

#[test]
fn code_is_percent_decoded() {
    assert_eq!(
        parse_code("http://localhost:8077/redirect?code=a%20b").as_deref(),
        Some("a b")
    );
}

#[test]
fn code_is_read_from_the_request_target() {
    assert_eq!(extract_code_from_target("/redirect?code=M123").as_deref(), Some("M123"));
    assert_eq!(extract_code_from_target("/redirect"), None);
}

#[test]
fn login_walks_to_authenticated() {
    let s = LoginState::AwaitingCode;
    let s = login_step(s, LoginEvent::Redirect("/redirect?code=C1".to_string()));
    match &s {
        LoginState::ExchangingCode(c) => assert_eq!(c, "C1"),
        other => panic!("expected the exchange to start, got {:?}", other),
    }
    let tok = Token { access_token: "at".to_string(), refresh_token: None, expires_at: 9 };
    let s = login_step(s, LoginEvent::ExchangeOk(tok));
    match s {
        LoginState::Authenticated(t) => assert_eq!(t.access_token, "at"),
        other => panic!("expected authentication, got {:?}", other),
    }
}

#[test]
fn missing_code_fails_the_attempt() {
    let s = login_step(LoginState::AwaitingCode, LoginEvent::Redirect("/redirect".to_string()));
    assert!(matches!(s, LoginState::Failed(AuthError::CodeMissing)));
}

#[test]
fn capture_failure_fails_the_attempt() {
    let s = login_step(LoginState::AwaitingCode, LoginEvent::CaptureFailed);
    assert!(matches!(s, LoginState::Failed(AuthError::RedirectCaptureFailed)));
}

#[test]
fn rejected_exchange_fails_the_attempt() {
    let s = LoginState::ExchangingCode("C2".to_string());
    let s = login_step(s, LoginEvent::ExchangeErr);
    assert!(matches!(s, LoginState::Failed(AuthError::TokenExchangeFailed)));
}

#[test]
fn terminal_states_absorb_events() {
    let failed = login_step(LoginState::Failed(AuthError::CodeMissing), LoginEvent::ExchangeErr);
    assert!(matches!(failed, LoginState::Failed(AuthError::CodeMissing)));

    let tok = Token { access_token: "a".to_string(), refresh_token: None, expires_at: 1 };
    let done = login_step(LoginState::Authenticated(tok), LoginEvent::CaptureFailed);
    assert!(matches!(done, LoginState::Authenticated(_)));
}

#[test]
fn startup_uses_the_configured_refresh_token() {
    match initial_auth_plan(&Some("rt".to_string())) {
        InitialAuthPlan::RefreshWith(s) => assert_eq!(s, "rt"),
        InitialAuthPlan::Interactive => panic!("a configured token must be used"),
    }
    assert!(matches!(initial_auth_plan(&None), InitialAuthPlan::Interactive));
}
