use auth_service::claims::MfaPurpose;
use auth_service::dto::LoginResponse;
use auth_service::error::AppError;
use auth_service::flow::{
    accepted_factor, access_caller, confirm_issues_tokens, verify_answer, challenge_response, is_user_token, require_valid_code,
    verify_after_recovery, verify_after_totp, verify_admission, VerifyStep,
};
use auth_service::mfa::FactorAttempts;

#[test]
fn access_tokens_are_recognised_by_type() {
    assert!(is_user_token("user"));
    assert!(!is_user_token("mfa_pending"));
    assert!(!is_user_token("refresh"));
}

#[test]
fn revoked_access_token_is_refused() {
    assert!(matches!(access_caller(true, "user-1"), Err(AppError::Unauthorized(_))));
    assert_eq!(access_caller(false, "user-1").unwrap(), 1);
    assert!(matches!(access_caller(false, "nobody"), Err(AppError::Unauthorized(_))));
}

#[test]
fn challenge_answers_carry_the_step() {
    match challenge_response(MfaPurpose::Enroll, "tok".into()) {
        LoginResponse::MfaRequired { purpose, mfa_token, factor_types } => {
            assert_eq!(purpose, "enroll");
            assert_eq!(mfa_token, "tok");
            assert_eq!(factor_types, vec!["totp".to_string()]);
        }
        _ => panic!("expected a challenge"),
    }
    match challenge_response(MfaPurpose::Pending, "t2".into()) {
        LoginResponse::MfaRequired { purpose, .. } => assert_eq!(purpose, "verify"),
        _ => panic!("expected a challenge"),
    }
}

#[test]
fn invalid_code_is_unauthorized() {
    assert!(require_valid_code(true).is_ok());
    match require_valid_code(false) {
        Err(AppError::Unauthorized(m)) => assert_eq!(m, "invalid code"),
        _ => panic!("expected 401"),
    }
}

#[test]
fn verify_admission_checks_in_order() {
    let fresh = FactorAttempts::fresh();
    let locked = FactorAttempts { failed_attempts: 5, locked_until: Some(1_000) };
    assert!(matches!(verify_admission(false, Some(fresh), 0), Err(AppError::Unauthorized(_))));
    assert!(matches!(verify_admission(true, None, 0), Err(AppError::BadRequest(_))));
    match verify_admission(true, Some(locked), 999) {
        Err(AppError::Unauthorized(m)) => assert_eq!(m, "too many attempts; try later"),
        _ => panic!("expected 401"),
    }
    assert_eq!(verify_admission(true, Some(locked), 1_000).unwrap(), locked);
    assert_eq!(verify_admission(true, Some(fresh), 0).unwrap(), fresh);
}

#[test]
fn verify_steps() {
    assert_eq!(verify_after_totp(true), VerifyStep::AcceptTotp);
    assert_eq!(verify_after_totp(false), VerifyStep::TryRecovery);
    let four = FactorAttempts { failed_attempts: 4, locked_until: None };
    assert_eq!(verify_after_recovery(four, 100, true), VerifyStep::AcceptRecovery);
    assert_eq!(
        verify_after_recovery(four, 100, false),
        VerifyStep::Reject(FactorAttempts { failed_attempts: 5, locked_until: Some(1_000) })
    );
    let one = FactorAttempts { failed_attempts: 1, locked_until: None };
    assert_eq!(
        verify_after_recovery(one, 100, false),
        VerifyStep::Reject(FactorAttempts { failed_attempts: 2, locked_until: None })
    );
    assert_eq!(accepted_factor(VerifyStep::AcceptTotp), Some("totp"));
    assert_eq!(accepted_factor(VerifyStep::AcceptRecovery), Some("recovery"));
    assert_eq!(accepted_factor(VerifyStep::TryRecovery), None);
    assert_eq!(accepted_factor(VerifyStep::Reject(one)), None);
}

#[test]
fn verify_answers() {
    assert_eq!(verify_answer(VerifyStep::AcceptTotp).unwrap(), "totp");
    assert_eq!(verify_answer(VerifyStep::AcceptRecovery).unwrap(), "recovery");
    let rejected = VerifyStep::Reject(FactorAttempts { failed_attempts: 1, locked_until: None });
    for step in [rejected, VerifyStep::TryRecovery] {
        match verify_answer(step) {
            Err(AppError::Unauthorized(m)) => assert_eq!(m, "invalid code"),
            _ => panic!("expected 401"),
        }
    }
}

#[test]
fn only_enrolment_tokens_get_tokens_on_confirm() {
    assert!(confirm_issues_tokens(true));
    assert!(!confirm_issues_tokens(false));
}
