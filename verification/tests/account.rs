use auth_service::account::{
    account_for_registration, authorize, auth_user_id_from_sub, can_access, caller_user_id,
    require_account, require_scope, Account, UserRegistered,
};
use auth_service::claims::AccessClaims;
use auth_service::error::AppError;

fn account(uid: i64) -> Account {
    Account {
        id: 1,
        email: "a@b.c".into(),
        name: "A".into(),
        auth_user_id: uid,
        created_at: 0,
        created_by_cid: "cid".into(),
    }
}

fn claims(sub: &str, scopes: &[&str]) -> AccessClaims {
    AccessClaims {
        sub: sub.into(),
        scopes: scopes.iter().map(|s| s.to_string()).collect(),
        exp: 9_999_999_999,
        iat: 0,
        jti: "jti".into(),
        email: None,
        token_type: "user".into(),
        amr: vec![],
    }
}

#[test]
fn admin_can_access_any_account() {
    assert!(can_access(&claims("user-999", &["admin"]), &account(1)));
}

#[test]
fn owner_with_scope_can_access_own_account() {
    assert!(can_access(&claims("user-7", &["read:accounts:own"]), &account(7)));
}

#[test]
fn non_owner_without_admin_cannot_access() {
    assert!(!can_access(&claims("user-8", &["read:accounts:own"]), &account(7)));
}

#[test]
fn owner_without_scope_cannot_access() {
    assert!(!can_access(&claims("user-7", &[]), &account(7)));
}

#[test]
fn subject_must_match_exactly() {
    assert!(!can_access(&claims("user-70", &["read:accounts:own"]), &account(7)));
    assert!(!can_access(&claims("user-07", &["read:accounts:own"]), &account(7)));
    assert!(can_access(&claims("user--3", &["read:accounts:own"]), &account(-3)));
}

#[test]
fn authorize_forbids_others() {
    assert!(authorize(&claims("user-7", &["read:accounts:own"]), &account(7)).is_ok());
    assert!(matches!(
        authorize(&claims("user-8", &["read:accounts:own"]), &account(7)),
        Err(AppError::Forbidden(_))
    ));
}

#[test]
fn require_scope_forbids_without_scope() {
    assert!(require_scope(&claims("user-1", &["admin"]), "admin").is_ok());
    assert!(matches!(require_scope(&claims("user-1", &[]), "admin"), Err(AppError::Forbidden(_))));
}

#[test]
fn subject_parsing() {
    assert_eq!(auth_user_id_from_sub("user-42"), Some(42));
    assert_eq!(auth_user_id_from_sub("user-"), None);
    assert_eq!(auth_user_id_from_sub("admin-42"), None);
    assert_eq!(auth_user_id_from_sub("user-9223372036854775808"), None);
    assert_eq!(auth_user_id_from_sub("user--9223372036854775808"), Some(i64::MIN));
    assert_eq!(caller_user_id(&claims("user-5", &[])).unwrap(), 5);
    assert!(matches!(caller_user_id(&claims("svc", &[])), Err(AppError::Unauthorized(_))));
}

#[test]
fn missing_account_is_not_found() {
    assert!(matches!(require_account(None, "account not found"), Err(AppError::NotFound(_))));
    assert_eq!(require_account(Some(account(3)), "x").unwrap().auth_user_id, 3);
}

#[test]
fn registration_creates_an_account_named_by_email() {
    let a = account_for_registration(UserRegistered { auth_user_id: 11, email: "n@m.o".into() });
    assert_eq!(a.email, "n@m.o");
    assert_eq!(a.name, "n@m.o");
    assert_eq!(a.auth_user_id, 11);
}
