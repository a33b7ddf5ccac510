use auth_service::error::AppError;
use auth_service::password::{check_credentials, hash_password, verify_password, User};
use auth_service::scopes::effective_scopes;

fn user(email: &str, pw: &str) -> User {
    User {
        id: 1,
        email: email.into(),
        password_hash: hash_password(pw).unwrap(),
        tokens_valid_from: 0,
        created_at: 0,
        created_by_cid: "cid".into(),
    }
}

#[test]
fn effective_scopes_bootstraps_admin_for_admin_email() {
    let scopes = effective_scopes(
        "boss@x.y",
        vec!["read:accounts:own".into()],
        &["boss@x.y".to_string()],
    );
    assert!(scopes.contains(&"admin".to_string()));
    assert!(scopes.contains(&"read:accounts:own".to_string()));
}

#[test]
fn effective_scopes_leaves_non_admin_email_untouched() {
    let scopes = effective_scopes("u@x.y", vec!["read:accounts:own".into()], &[]);
    assert_eq!(scopes, vec!["read:accounts:own".to_string()]);
}

#[test]
fn effective_scopes_does_not_duplicate_admin() {
    let scopes = effective_scopes(
        "boss@x.y",
        vec!["admin".into(), "read:accounts:own".into()],
        &["boss@x.y".to_string()],
    );
    assert_eq!(scopes, vec!["admin".to_string(), "read:accounts:own".to_string()]);
}

#[test]
fn effective_scopes_appends_admin_last() {
    let scopes = effective_scopes("boss@x.y", vec!["a".into()], &["other@x.y".to_string(), "boss@x.y".to_string()]);
    assert_eq!(scopes, vec!["a".to_string(), "admin".to_string()]);
}

#[test]
fn check_credentials_accepts_correct_password() {
    let u = user("a@b.c", "pw");
    assert!(check_credentials(Some(&u), "pw").is_ok());
}

#[test]
fn check_credentials_rejects_wrong_password() {
    let u = user("a@b.c", "pw");
    assert!(check_credentials(Some(&u), "nope").is_err());
}

#[test]
fn check_credentials_rejects_missing_user() {
    assert!(check_credentials(None, "pw").is_err());
}

#[test]
fn check_credentials_failures_are_unauthorized() {
    let u = user("a@b.c", "pw");
    for r in [check_credentials(Some(&u), "nope"), check_credentials(None, "pw")] {
        match r {
            Err(AppError::Unauthorized(m)) => assert_eq!(m, "invalid credentials"),
            _ => panic!("expected 401"),
        }
    }
    assert_eq!(check_credentials(Some(&u), "pw").unwrap().email, "a@b.c");
}

#[test]
fn hash_then_verify_roundtrip() {
    let hash = hash_password("hunter2").unwrap();
    assert!(verify_password(&hash, "hunter2"));
    assert!(!verify_password(&hash, "wrong"));
}

#[test]
fn hash_is_not_the_password() {
    let hash = hash_password("hunter2").unwrap();
    assert_ne!(hash, "hunter2");
    assert!(hash.starts_with("$2b$12$"));
    assert_eq!(hash.len(), 60);
    assert!(!verify_password("not-a-bcrypt-hash", "hunter2"));
}
