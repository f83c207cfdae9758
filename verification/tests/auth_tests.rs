use bitcommweb::auth::{AuthError, AuthService};

const DAY_SECS: u64 = 86400;
const SALT: &[u8] = b"0123456789abcdef";

fn service() -> AuthService {
    AuthService::new(b"process-wide secret".to_vec(), DAY_SECS)
}

#[test]
fn register_login_logout_scenario() {
    let mut auth = service();

    let alice = auth
        .register_user(&"alice".to_string(), b"pw1", &"a@x.com".to_string(), SALT, 1000)
        .unwrap();
    assert_eq!(alice.id, 1);
    assert_eq!(alice.username, "alice");
    assert_eq!(alice.email, "a@x.com");
    let t1 = alice.token;

    let again = auth.register_user(&"alice".to_string(), b"pw2", &"b@x.com".to_string(), SALT, 1001);
    assert!(matches!(again, Err(AuthError::UsernameTaken)));

    let login = auth.login_user(&"alice".to_string(), b"pw1", 2000).unwrap();
    assert_eq!(login.id, 1);
    assert_eq!(login.email, "a@x.com");
    let t2 = login.token;
    assert_ne!(t2, t1);

    let wrong = auth.login_user(&"alice".to_string(), b"wrong", 2001);
    assert!(matches!(wrong, Err(AuthError::InvalidCredentials)));

    assert!(auth.logout_user(&"alice".to_string(), &t2).is_ok());
    let stale = auth.logout_user(&"alice".to_string(), &t1);
    assert!(matches!(stale, Err(AuthError::InvalidToken)));
}

#[test]
fn register_with_taken_email_fails_email_taken() {
    let mut auth = service();
    auth.register_user(&"alice".to_string(), b"pw1", &"a@x.com".to_string(), SALT, 1000)
        .unwrap();
    let second = auth.register_user(&"bob".to_string(), b"pw2", &"a@x.com".to_string(), SALT, 1001);
    assert!(matches!(second, Err(AuthError::EmailTaken)));
}

#[test]
fn login_of_unknown_user_fails_user_not_found() {
    let mut auth = service();
    let r = auth.login_user(&"nobody".to_string(), b"pw", 1000);
    assert!(matches!(r, Err(AuthError::UserNotFound)));
}

#[test]
fn logout_of_unknown_user_fails_user_not_found() {
    let mut auth = service();
    let r = auth.logout_user(&"nobody".to_string(), &"tok".to_string());
    assert!(matches!(r, Err(AuthError::UserNotFound)));
}

#[test]
fn logout_with_foreign_token_fails_invalid_token() {
    let mut auth = service();
    auth.register_user(&"alice".to_string(), b"pw1", &"a@x.com".to_string(), SALT, 1000)
        .unwrap();
    let r = auth.logout_user(&"alice".to_string(), &"not the active token".to_string());
    assert!(matches!(r, Err(AuthError::InvalidToken)));
}

#[test]
fn registration_token_validates_to_the_subject_until_expiry() {
    let mut auth = service();
    let v = auth
        .register_user(&"alice".to_string(), b"pw1", &"a@x.com".to_string(), SALT, 1000)
        .unwrap();
    assert_eq!(auth.validate_token_at(&v.token, 1000), Some("alice".to_string()));
    assert_eq!(auth.validate_token_at(&v.token, 1000 + DAY_SECS), None);
}

#[test]
fn repeated_failures_answer_the_same_error() {
    let mut auth = service();
    auth.register_user(&"alice".to_string(), b"pw1", &"a@x.com".to_string(), SALT, 1000)
        .unwrap();
    for _ in 0..2 {
        let r = auth.register_user(&"alice".to_string(), b"pw2", &"b@x.com".to_string(), SALT, 1001);
        assert!(matches!(r, Err(AuthError::UsernameTaken)));
    }
    for _ in 0..2 {
        let r = auth.login_user(&"alice".to_string(), b"wrong", 2000);
        assert!(matches!(r, Err(AuthError::InvalidCredentials)));
    }
}
