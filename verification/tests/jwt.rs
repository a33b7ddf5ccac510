use auth_service::claims::MfaPurpose;
use auth_service::jwt::JwtIssuer;
use auth_service::password::User;
use auth_service::session::token_pair;
use jsonwebtoken::{Algorithm, DecodingKey, Validation};
use rsa::pkcs1::EncodeRsaPrivateKey;
use rsa::pkcs8::{EncodePublicKey, LineEnding};
use rsa::RsaPrivateKey;
use serde_json::Value;

/// A fresh RSA key pair of `bits` bits, as PKCS#1 private and SPKI public PEM.
fn key_pair(bits: usize) -> (String, String) {
    let key = RsaPrivateKey::new(&mut rand::thread_rng(), bits).unwrap();
    let private = key.to_pkcs1_pem(LineEnding::LF).unwrap().as_str().to_owned();
    let public = key.to_public_key().to_public_key_pem(LineEnding::LF).unwrap();
    (private, public)
}

/// An issuer with the service's default lifetimes, and the public key that
/// checks its tokens.
fn issuer() -> (JwtIssuer, DecodingKey) {
    let (private, public) = key_pair(2048);
    let issuer = JwtIssuer::from_rsa_pem(&private, 900, 7).unwrap();
    (issuer, DecodingKey::from_rsa_pem(public.as_bytes()).unwrap())
}

/// The payload of a token that verifies with `key`.
fn payload(token: &str, key: &DecodingKey) -> Value {
    let mut validation = Validation::new(Algorithm::RS256);
    validation.validate_exp = false;
    validation.required_spec_claims.clear();
    jsonwebtoken::decode::<Value>(token, key, &validation).unwrap().claims
}

fn now() -> i64 {
    chrono::Utc::now().timestamp()
}

fn strings(items: &[&str]) -> Value {
    Value::Array(items.iter().map(|s| Value::String(s.to_string())).collect())
}

#[test]
fn issued_access_token_verifies_with_public_key() {
    let (issuer, public) = issuer();
    let now = now();
    let (token, claims) =
        issuer.issue_access(42, "a@b.c", vec!["admin".into()], vec!["pwd".into()], now).unwrap();
    assert_eq!(claims.sub, "user-42");
    assert_eq!(claims.token_type, "user");
    assert!(!claims.jti.is_empty());

    let verified = payload(&token, &public);
    assert_eq!(verified["sub"], Value::String("user-42".to_string()));
    assert_eq!(verified["email"], Value::String("a@b.c".to_string()));
    assert!(verified["scopes"].as_array().unwrap().contains(&Value::String("admin".to_string())));
    assert!(claims.has_scope("admin"));
}

#[test]
fn access_token_payload_is_the_claims() {
    let (issuer, public) = issuer();
    let (token, claims) = issuer.issue_access(5, "x@y.z", vec!["s".into()], vec!["pwd".into()], 1_000_000).unwrap();
    let p = payload(&token, &public);
    assert_eq!(p["sub"], Value::String("user-5".to_string()));
    assert_eq!(p["iat"], Value::from(1_000_000u64));
    assert_eq!(p["exp"], Value::from(1_000_900u64));
    assert_eq!(p["jti"], Value::String(claims.jti.clone()));
    assert_eq!(p["type"], Value::String("user".to_string()));
    assert_eq!(p["scopes"], strings(&["s"]));
    assert_eq!(p["amr"], strings(&["pwd"]));
    assert_eq!(claims.jti.len(), 36);
    assert_eq!(issuer.access_ttl_seconds(), 900);
    assert_eq!(issuer.refresh_ttl_seconds(), 604_800);
}

#[test]
fn issued_refresh_token_has_jti_and_expiry() {
    let (issuer, public) = issuer();
    let now = now();
    let (jti, token, expires_at) = issuer.issue_refresh(42, now).unwrap();
    assert!(!jti.is_empty());
    assert!(!token.is_empty());
    assert!(expires_at > now);
    assert_eq!(expires_at, now + 7 * 86_400);
    let p = payload(&token, &public);
    assert_eq!(p["sub"], Value::String("user-42".to_string()));
    assert_eq!(p["jti"], Value::String(jti));
    assert_eq!(p["type"], Value::String("refresh".to_string()));
    assert_eq!(p["exp"], Value::from(expires_at as u64));
}

#[test]
fn access_token_carries_amr() {
    let (issuer, public) = issuer();
    let (token, claims) =
        issuer.issue_access(1, "a@b.c", vec![], vec!["pwd".into(), "totp".into()], now()).unwrap();
    assert_eq!(claims.amr, vec!["pwd".to_string(), "totp".to_string()]);
    assert_eq!(payload(&token, &public)["amr"], strings(&["pwd", "totp"]));
}

#[test]
fn mfa_token_has_purpose_type() {
    let (issuer, public) = issuer();
    let now = now();
    let token = issuer.issue_mfa_token(1, MfaPurpose::Enroll, now).unwrap();
    let claims = payload(&token, &public);
    assert_eq!(claims["type"], Value::String("mfa_enroll".to_string()));
    assert_eq!(claims["sub"], Value::String("user-1".to_string()));
    assert_eq!(claims["exp"], Value::from((now + 300) as u64));
}

#[test]
fn pending_mfa_token_type() {
    let (issuer, public) = issuer();
    let token = issuer.issue_mfa_token(9, MfaPurpose::Pending, 100).unwrap();
    let claims = payload(&token, &public);
    assert_eq!(claims["type"], Value::String("mfa_pending".to_string()));
    assert_eq!(claims["sub"], Value::String("user-9".to_string()));
    assert_eq!(claims["iat"], Value::from(100u64));
    assert_eq!(claims["exp"], Value::from(400u64));
}

#[test]
fn garbage_pem_is_refused() {
    assert!(JwtIssuer::from_rsa_pem("not a key", 900, 7).is_err());
}

#[test]
fn token_pair_uses_effective_scopes() {
    let (issuer, public) = issuer();
    let user = User {
        id: 4,
        email: "boss@x.y".into(),
        password_hash: "h".into(),
        tokens_valid_from: 0,
        created_at: 0,
        created_by_cid: "c".into(),
    };
    let pair = token_pair(
        &issuer,
        &user,
        vec!["read:accounts:own".into()],
        &["boss@x.y".to_string()],
        vec!["pwd".into()],
        1_000,
    )
    .unwrap();
    let access = payload(&pair.access_token, &public);
    assert_eq!(access["scopes"], strings(&["read:accounts:own", "admin"]));
    assert_eq!(access["sub"], Value::String("user-4".to_string()));
    assert_eq!(access["email"], Value::String("boss@x.y".to_string()));
    assert_eq!(access["exp"], Value::from(1_900u64));
    let refresh = payload(&pair.refresh_token, &public);
    assert_eq!(refresh["sub"], Value::String("user-4".to_string()));
    assert_eq!(refresh["jti"], Value::String(pair.refresh_jti.clone()));
    assert_eq!(pair.refresh_expires_at, 1_000 + 7 * 86_400);
    assert_eq!(pair.expires_in, 900);
}
