use rustadmin::errors::ErrorKind;
use rustadmin::modules::auth::service::{AuthService, IAuthService, UserRecord};

fn user(password: &str, blocked: bool) -> UserRecord {
    UserRecord {
        email: "admin@example.com".to_string(),
        password: bcrypt::hash(password, 4).unwrap(),
        blocked,
    }
}

#[test]
fn missing_user_is_invalid_credentials() {
    let e = AuthService.authenticate(None, "secret").unwrap_err();
    assert_eq!(e.kind, ErrorKind::Unauthorized);
    assert_eq!(e.message(), "Invalid credentials");
    assert_eq!(e.status(), 401);
}

#[test]
fn blocked_user_is_forbidden_even_with_right_password() {
    let e = AuthService.authenticate(Some(user("secret", true)), "secret").unwrap_err();
    assert_eq!(e.kind, ErrorKind::Forbidden);
    assert_eq!(e.message(), "Account is blocked");
    assert_eq!(e.status(), 403);
}

#[test]
fn right_password_authenticates() {
    let u = AuthService.authenticate(Some(user("secret", false)), "secret").unwrap();
    assert_eq!(u.email, "admin@example.com");
    assert!(!u.blocked);
}

#[test]
fn wrong_password_is_invalid_credentials() {
    let e = AuthService.authenticate(Some(user("secret", false)), "Secret").unwrap_err();
    assert_eq!(e.kind, ErrorKind::Unauthorized);
    assert_eq!(e.message(), "Invalid credentials");
}

#[test]
fn malformed_hash_is_invalid_credentials() {
    let u = UserRecord { email: "a@b.c".to_string(), password: "plain-text".to_string(), blocked: false };
    let e = AuthService.authenticate(Some(u), "plain-text").unwrap_err();
    assert_eq!(e.kind, ErrorKind::Unauthorized);
    assert_eq!(e.message(), "Invalid credentials");
}

#[test]
fn finish_authentication_verdicts() {
    let ok = AuthService::finish_authentication(user("x", false), Ok(true)).unwrap();
    assert_eq!(ok.email, "admin@example.com");
    let e = AuthService::finish_authentication(user("x", false), Ok(false)).unwrap_err();
    assert_eq!(e.kind, ErrorKind::Unauthorized);
    let e = AuthService::finish_authentication(user("x", false), Err(bcrypt::BcryptError::CostNotAllowed(3)))
        .unwrap_err();
    assert_eq!(e.kind, ErrorKind::Unauthorized);
    assert_eq!(e.message(), "Invalid credentials");
}
