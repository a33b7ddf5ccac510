use auth_service::totp::{FactorVerifier, TotpVerifier};

fn now() -> i64 {
    chrono::Utc::now().timestamp()
}

#[test]
fn generated_secret_verifies_current_code() {
    let v = TotpVerifier::new("rust-service".into());
    let secret = v.generate_secret();
    let now = now();
    let code = v.current_code(&secret, now).unwrap();
    assert!(v.verify(&secret, &code, now));
    assert!(!v.verify(&secret, "000000", now));
}

#[test]
fn provisioning_uri_is_otpauth() {
    let v = TotpVerifier::new("rust-service".into());
    let uri = v.provisioning_uri(&v.generate_secret(), "a@b.c").unwrap();
    assert!(uri.starts_with("otpauth://totp/"));
}

#[test]
fn generated_secret_is_32_base32_characters() {
    let v = TotpVerifier::new("rust-service".into());
    let s = v.generate_secret();
    assert_eq!(s.len(), 32);
    assert!(s.chars().all(|c| c.is_ascii_uppercase() || ('2'..='7').contains(&c)));
}

#[test]
fn rfc_6238_reference_code() {
    // The RFC 6238 SHA-1 secret "12345678901234567890" in base32.
    let v = TotpVerifier::new("rust-service".into());
    let secret = "GEZDGNBVGY3TQOJQGEZDGNBVGY3TQOJQ";
    assert_eq!(v.current_code(secret, 59).unwrap(), "287082");
    assert_eq!(v.current_code(secret, 1_111_111_109).unwrap(), "081804");
    assert!(v.verify(secret, "081804", 1_111_111_109));
}

#[test]
fn codes_of_adjacent_steps_are_accepted() {
    let v = TotpVerifier::new("rust-service".into());
    let secret = v.generate_secret();
    let t = 1_700_000_010;
    let prev = v.current_code(&secret, t - 30).unwrap();
    let next = v.current_code(&secret, t + 30).unwrap();
    let far = v.current_code(&secret, t + 90).unwrap();
    let near = [prev.clone(), next.clone(), v.current_code(&secret, t).unwrap()];
    assert!(v.verify(&secret, &prev, t));
    assert!(v.verify(&secret, &next, t));
    assert!(!v.verify(&secret, &far, t) || near.contains(&far));
}

#[test]
fn bad_secret_is_refused() {
    let v = TotpVerifier::new("rust-service".into());
    assert!(v.current_code("not base32!", 100).is_err());
    assert!(v.provisioning_uri("SHORT", "a@b.c").is_err());
    assert!(!v.verify("not base32!", "123456", 1_700_000_000));
}

#[test]
fn colon_in_account_is_refused() {
    let v = TotpVerifier::new("rust-service".into());
    assert!(v.provisioning_uri(&v.generate_secret(), "a:b").is_err());
}
