//! Tests for the authentication state transitions.

use wp_mini::AuthState;
use wp_mini::WattpadError;

#[test]
fn starts_unauthenticated() {
    let s = AuthState::new();
    assert!(!s.is_authenticated());
}

#[test]
fn login_with_cookies_authenticates() {
    let mut s = AuthState::new();
    assert!(s.record_login(1).is_ok());
    assert!(s.is_authenticated());
    let mut t = AuthState::new();
    assert!(t.record_login(3).is_ok());
    assert!(t.is_authenticated());
}

#[test]
fn login_without_cookies_fails_and_clears_state() {
    let mut s = AuthState::new();
    assert!(s.record_login(2).is_ok());
    assert!(s.is_authenticated());
    let r = s.record_login(0);
    assert!(matches!(r, Err(WattpadError::AuthenticationFailed)));
    assert!(!s.is_authenticated());
}

#[test]
fn logout_clears_state_on_success() {
    let mut s = AuthState::new();
    s.record_login(1).unwrap();
    assert!(s.record_logout(Ok(())).is_ok());
    assert!(!s.is_authenticated());
}

#[test]
fn logout_clears_state_even_when_the_call_fails() {
    let mut s = AuthState::new();
    s.record_login(1).unwrap();
    let r = s.record_logout(Err("connection reset".to_string()));
    match r {
        Err(WattpadError::RequestError(m)) => assert_eq!(m, "connection reset"),
        other => panic!("expected a transport error, got {:?}", other),
    }
    assert!(!s.is_authenticated());
}
