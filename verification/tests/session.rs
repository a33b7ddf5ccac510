use auth_service::claims::RefreshClaims;
use auth_service::dto::AuthTokens;
use auth_service::error::AppError;
use auth_service::password::User;
use auth_service::session::{
    access_token_expiry, check_email_free, check_refresh_type, check_stored_refresh,
    default_scopes, logout_revokes, refresh_cookie_token, require_user, revocation_verdict,
    session_answer, StoredRefreshToken,
};
use auth_service::cookie::SameSite;

fn refresh_claims(token_type: &str) -> RefreshClaims {
    RefreshClaims {
        sub: "user-1".into(),
        iat: 0,
        exp: 10,
        jti: "j".into(),
        token_type: token_type.into(),
    }
}

fn stored(revoked: bool) -> StoredRefreshToken {
    StoredRefreshToken { id: 1, jti: "j".into(), user_id: 9, expires_at: 100, revoked }
}

#[test]
fn duplicate_email_conflicts() {
    assert!(check_email_free(false).is_ok());
    match check_email_free(true) {
        Err(AppError::Conflict(m)) => assert_eq!(m, "email already registered"),
        _ => panic!("expected 409"),
    }
}

#[test]
fn new_users_read_their_own_accounts() {
    assert_eq!(default_scopes(), vec!["read:accounts:own".to_string()]);
}

#[test]
fn only_refresh_tokens_refresh() {
    assert!(check_refresh_type(&refresh_claims("refresh")).is_ok());
    assert!(matches!(check_refresh_type(&refresh_claims("user")), Err(AppError::Unauthorized(_))));
}

#[test]
fn stored_refresh_token_checks() {
    assert_eq!(check_stored_refresh(Some(stored(false))).unwrap(), 9);
    assert!(matches!(check_stored_refresh(Some(stored(true))), Err(AppError::Unauthorized(_))));
    assert!(matches!(check_stored_refresh(None), Err(AppError::Unauthorized(_))));
}

#[test]
fn unknown_user_is_unauthorized() {
    assert!(matches!(require_user(None), Err(AppError::Unauthorized(_))));
    let u = User {
        id: 3,
        email: "e".into(),
        password_hash: "h".into(),
        tokens_valid_from: 0,
        created_at: 0,
        created_by_cid: "c".into(),
    };
    assert_eq!(require_user(Some(u)).unwrap().id, 3);
}

#[test]
fn logout_revokes_only_refresh_tokens() {
    assert!(logout_revokes(Some("refresh")));
    assert!(!logout_revokes(Some("user")));
    assert!(!logout_revokes(None));
}

#[test]
fn denylist_expiry() {
    assert_eq!(access_token_expiry(1_700_000_900, 5), 1_700_000_900);
    assert_eq!(access_token_expiry(0, 5), 0);
    assert_eq!(access_token_expiry(usize::MAX, 5), -1);
    assert_eq!(access_token_expiry(9_000_000_000_000_000, 5), 5);
}

#[test]
fn revocation() {
    assert!(revocation_verdict(true, None, 10));
    assert!(revocation_verdict(true, Some(0), 10));
    assert!(!revocation_verdict(false, None, 10));
    assert!(revocation_verdict(false, Some(11), 10));
    assert!(!revocation_verdict(false, Some(10), 10));
}

#[test]
fn bearer_body_leaves_out_the_refresh_token() {
    let t = AuthTokens::bearer("a".into(), 900);
    assert_eq!(t.token_type, "Bearer");
    assert_eq!(t.access_token, "a");
    assert_eq!(t.refresh_token, None);
    assert_eq!(t.expires_in, 900);
}

#[test]
fn session_answer_sets_the_rt_cookie() {
    let (body, cookie) = session_answer("a".into(), 900, "r".into(), 604_800);
    assert_eq!(body.access_token, "a");
    assert_eq!(body.refresh_token, None);
    assert_eq!(cookie.name, "rt");
    assert_eq!(cookie.value, "r");
    assert!(cookie.http_only && cookie.secure);
    assert_eq!(cookie.same_site, SameSite::Strict);
    assert_eq!(cookie.path, "/api/auth");
    assert_eq!(
        cookie.header(),
        "rt=r; HttpOnly; SameSite=Strict; Secure; Path=/api/auth; Max-Age=604800"
    );
}

#[test]
fn refresh_needs_the_rt_cookie() {
    assert_eq!(refresh_cookie_token(Some("tok".into())).unwrap(), "tok");
    match refresh_cookie_token(None) {
        Err(AppError::Unauthorized(m)) => assert_eq!(m, "missing refresh token"),
        _ => panic!("expected 401"),
    }
}
