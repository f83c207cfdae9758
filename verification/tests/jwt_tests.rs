use bitcommweb::jwt::{expired_token_is_rejected, issued_token_validates, TokenService};

const DAY_SECS: u64 = 86400;

#[test]
fn validate_right_after_issue_returns_subject() {
    let svc = TokenService::new(b"process-wide secret".to_vec(), DAY_SECS);
    let token = svc.issue_at("alice", 1000);
    assert_eq!(svc.validate_at(&token, 1000), Some("alice".to_string()));
    assert_eq!(svc.validate_at(&token, 1000 + DAY_SECS - 1), Some("alice".to_string()));
}

#[test]
fn validate_after_expiry_returns_invalid() {
    let svc = TokenService::new(b"process-wide secret".to_vec(), DAY_SECS);
    let token = svc.issue_at("alice", 1000);
    assert_eq!(svc.validate_at(&token, 1000 + DAY_SECS), None);
    assert_eq!(svc.validate_at(&token, 1000 + 10 * DAY_SECS), None);
}

#[test]
fn token_signed_under_another_key_is_invalid() {
    let svc = TokenService::new(b"one key".to_vec(), DAY_SECS);
    let other = TokenService::new(b"another key".to_vec(), DAY_SECS);
    let token = other.issue_at("alice", 1000);
    assert_eq!(svc.validate_at(&token, 1000), None);
}

#[test]
fn malformed_token_is_invalid() {
    let svc = TokenService::new(b"process-wide secret".to_vec(), DAY_SECS);
    assert_eq!(svc.validate_at("", 0), None);
    assert_eq!(svc.validate_at("not a token", 0), None);
    assert_eq!(svc.validate_at("still.not.atoken", 0), None);
}

#[test]
fn tampered_token_is_invalid() {
    let svc = TokenService::new(b"process-wide secret".to_vec(), DAY_SECS);
    let token = svc.issue_at("alice", 1000);
    let mut tampered = token.clone();
    tampered.pop();
    assert_eq!(svc.validate_at(&tampered, 1000), None);
}

#[test]
fn round_trip_laws_hold_on_sample_instants() {
    let svc = TokenService::new(b"k".to_vec(), 900);
    assert!(issued_token_validates(&svc, &"bob".to_string(), 5000, 5000));
    assert!(issued_token_validates(&svc, &"bob".to_string(), 5000, 5899));
    assert_eq!(expired_token_is_rejected(&svc, &"bob".to_string(), 5000, 5900), None);
}
