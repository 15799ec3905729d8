use onelist::auth::{refresh_fallback, RefreshFollowup};
use onelist::registry::SessionRegistry;
use onelist::scheduler::{
    after_refresh, plan_step, sleep_duration, RefreshResolution, SchedulerStep,
    REFRESH_BACKOFF_SECS, REFRESH_SAFETY_MARGIN_SECS, STARTUP_IDLE_SECS,
};
use onelist::token::Token;

fn token(access: &str, refresh: Option<&str>, expires_at: u64) -> Token {
    Token {
        access_token: access.to_string(),
        refresh_token: refresh.map(|s| s.to_string()),
        expires_at,
    }
}

#[test]
fn registry_serves_the_last_published_session() {
    let mut registry = SessionRegistry::new();
    assert!(registry.current().is_none());

    registry.publish(token("a1", Some("r1"), 100));
    let first = registry.current().unwrap();
    assert_eq!(first.access_token, "a1");
    assert_eq!(first.refresh_token.as_deref(), Some("r1"));
    assert_eq!(first.expires_at, 100);

    registry.publish(token("a2", None, 200));
    let second = registry.current().unwrap();
    assert_eq!(second.access_token, "a2");
    assert_eq!(second.refresh_token, None);
    assert_eq!(second.expires_at, 200);
}

#[test]
fn response_expiry_is_acquisition_plus_lifetime() {
    let t = Token::from_response("at".to_string(), Some("rt".to_string()), 3600, 100);
    assert_eq!(t.access_token, "at");
    assert_eq!(t.refresh_token.as_deref(), Some("rt"));
    assert_eq!(t.expires_at, 3700);
}

#[test]
fn response_expiry_saturates() {
    let t = Token::from_response("at".to_string(), None, 100, u64::MAX - 10);
    assert_eq!(t.expires_at, u64::MAX);
}

#[test]
fn expiry_is_strict() {
    let t = token("a", None, 100);
    assert!(!t.is_expired(99));
    assert!(!t.is_expired(100));
    assert!(t.is_expired(101));
}

#[test]
fn margin_inside_lifetime_sleeps_the_difference() {
    assert_eq!(sleep_duration(1000, 100, 60), 840);
    assert_eq!(sleep_duration(160, 100, 60), 0);
}

#[test]
fn expiry_inside_margin_refreshes_immediately() {
    let now: u64 = 1_000;
    assert_eq!(sleep_duration(now + 30, now, 60), 0);
    let t = token("a", None, now + 30);
    let step = plan_step(Some(&t), now);
    assert_eq!(step, SchedulerStep::RefreshAfter(0));
}

#[test]
fn no_session_means_idle() {
    assert_eq!(plan_step(None, 0), SchedulerStep::Idle(STARTUP_IDLE_SECS));
}

#[test]
fn margin_matches_the_fixed_safety_margin() {
    let t = token("a", None, 10_000);
    let step = plan_step(Some(&t), 4_000);
    assert_eq!(step, SchedulerStep::RefreshAfter(6_000 - REFRESH_SAFETY_MARGIN_SECS));
}

#[test]
fn failed_refresh_backs_off_instead_of_terminating() {
    let r = after_refresh(None);
    assert!(matches!(r, RefreshResolution::RetryAfter(s) if s == REFRESH_BACKOFF_SECS));
}

#[test]
fn successful_refresh_is_published() {
    let r = after_refresh(Some(token("new", None, 50)));
    match r {
        RefreshResolution::Publish(t) => assert_eq!(t.access_token, "new"),
        RefreshResolution::RetryAfter(_) => panic!("a fresh session must be published"),
    }
}

#[test]
fn rejected_refresh_falls_back_to_login() {
    assert!(matches!(refresh_fallback(None), RefreshFollowup::AttemptLogin));
    match refresh_fallback(Some(token("kept", None, 5))) {
        RefreshFollowup::UseToken(t) => assert_eq!(t.access_token, "kept"),
        RefreshFollowup::AttemptLogin => panic!("an accepted refresh needs no login"),
    }
}
