use auth_service::claims::MfaPurpose;
use auth_service::error::AppError;
use auth_service::mfa::{
    access_token_user, amr, bearer_token, challenge_factor_types, challenge_label, login_step,
    mfa_cipher, mfa_token_user, parse_policy, password_amr, require_factor,
    FactorAttempts, LoginStep, MfaConfig, MfaPolicy,
};
use auth_service::mfa_crypto::MfaCipher;

#[test]
fn login_step_follows_policy_and_enrolment() {
    assert_eq!(login_step(MfaPolicy::Off, false), LoginStep::Authenticate);
    assert_eq!(login_step(MfaPolicy::Off, true), LoginStep::Authenticate);
    assert_eq!(login_step(MfaPolicy::Optional, false), LoginStep::Authenticate);
    assert_eq!(login_step(MfaPolicy::Optional, true), LoginStep::Challenge(MfaPurpose::Pending));
    assert_eq!(login_step(MfaPolicy::Required, true), LoginStep::Challenge(MfaPurpose::Pending));
    assert_eq!(login_step(MfaPolicy::Required, false), LoginStep::Challenge(MfaPurpose::Enroll));
}

#[test]
fn labels() {
    assert_eq!(MfaPolicy::Off.label(), "off");
    assert_eq!(MfaPolicy::Optional.label(), "optional");
    assert_eq!(MfaPolicy::Required.label(), "required");
    assert_eq!(challenge_label(MfaPurpose::Pending), "verify");
    assert_eq!(challenge_label(MfaPurpose::Enroll), "enroll");
    assert_eq!(challenge_factor_types(), vec!["totp".to_string()]);
    assert_eq!(MfaPurpose::Pending.token_type(), "mfa_pending");
    assert_eq!(MfaPurpose::Enroll.token_type(), "mfa_enroll");
}

#[test]
fn cipher_missing_means_mfa_disabled() {
    let off = MfaConfig { policy: MfaPolicy::Off, cipher: None };
    assert!(matches!(mfa_cipher(&off), Err(AppError::Conflict(_))));
    let on = MfaConfig { policy: MfaPolicy::Optional, cipher: Some(MfaCipher::new([1u8; 32])) };
    assert!(mfa_cipher(&on).is_ok());
}

#[test]
fn bearer_header_parsing() {
    assert_eq!(bearer_token(Some("Bearer abc.def")).unwrap(), "abc.def");
    assert_eq!(bearer_token(Some("Bearer ")).unwrap(), "");
    assert!(matches!(bearer_token(Some("Basic abc")), Err(AppError::Unauthorized(_))));
    assert!(matches!(bearer_token(Some("bearer abc")), Err(AppError::Unauthorized(_))));
    assert!(matches!(bearer_token(None), Err(AppError::Unauthorized(_))));
}

#[test]
fn mfa_token_must_be_of_an_allowed_type() {
    assert_eq!(mfa_token_user("mfa_enroll", "user-3", &["mfa_enroll"]).unwrap(), 3);
    assert!(matches!(
        mfa_token_user("mfa_pending", "user-3", &["mfa_enroll"]),
        Err(AppError::Unauthorized(_))
    ));
    assert!(matches!(
        mfa_token_user("mfa_enroll", "bogus", &["mfa_enroll"]),
        Err(AppError::Unauthorized(_))
    ));
    assert!(matches!(mfa_token_user("mfa_enroll", "user-3", &[]), Err(AppError::Unauthorized(_))));
    assert_eq!(access_token_user("user-12").unwrap(), 12);
    assert!(matches!(access_token_user("user-x"), Err(AppError::Unauthorized(_))));
}

#[test]
fn lockout_after_five_failures() {
    let now = 1_700_000_000;
    let mut s = FactorAttempts::fresh();
    for i in 1..=4 {
        s = s.after_failure(now);
        assert_eq!(s.failed_attempts, i);
        assert_eq!(s.locked_until, None);
        assert!(!s.is_locked(now));
    }
    s = s.after_failure(now);
    assert_eq!(s.failed_attempts, 5);
    assert_eq!(s.locked_until, Some(now + 900));
    assert!(s.is_locked(now));
    assert!(s.is_locked(now + 899));
    assert!(!s.is_locked(now + 900));
    assert!(matches!(s.check_unlocked(now + 10), Err(AppError::Unauthorized(_))));
    assert!(s.check_unlocked(now + 900).is_ok());
    let s6 = s.after_failure(now + 1000);
    assert_eq!(s6.failed_attempts, 6);
    assert_eq!(s6.locked_until, Some(now + 1900));
    let cleared = s6.after_success();
    assert_eq!(cleared, FactorAttempts { failed_attempts: 0, locked_until: None });
    assert!(cleared.check_unlocked(now).is_ok());
}

#[test]
fn lock_is_recorded_with_the_failure() {
    let four = FactorAttempts { failed_attempts: 4, locked_until: None };
    assert_eq!(four.lock_after_failure(50), Some(950));
    let three = FactorAttempts { failed_attempts: 3, locked_until: None };
    assert_eq!(three.lock_after_failure(50), None);
}

#[test]
fn authentication_methods() {
    assert_eq!(amr("totp"), vec!["pwd".to_string(), "totp".to_string()]);
    assert_eq!(password_amr(), vec!["pwd".to_string()]);
}

#[test]
fn missing_factor_is_a_bad_request() {
    assert!(matches!(require_factor::<i32>(None, "no pending factor"), Err(AppError::BadRequest(_))));
    assert_eq!(require_factor(Some(4), "x").unwrap(), 4);
}

#[test]
fn policy_settings() {
    assert_eq!(parse_policy("off"), Some(MfaPolicy::Off));
    assert_eq!(parse_policy("optional"), Some(MfaPolicy::Optional));
    assert_eq!(parse_policy("required"), Some(MfaPolicy::Required));
    assert_eq!(parse_policy("Required"), None);
    assert_eq!(parse_policy(""), None);
}
