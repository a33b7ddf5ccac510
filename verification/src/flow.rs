//! The steps of the MFA endpoints: from what the token verifier, the factor
//! store and the code checks answered, to what the endpoint does next.
use vstd::prelude::*;
use crate::claims::{subject_user_id_spec, MfaPurpose};
use crate::dto::LoginResponse;
use crate::error::{bad_request, unauthorized, AppError};
use crate::jwt::user_token_type;
use crate::mfa::{
    access_token_user, after_failure_spec, challenge_factor_types, challenge_label,
    challenge_label_spec, is_locked_spec, FactorAttempts, MFA_LOCK_SECONDS,
};
use crate::text::{owned, str_eq};

verus! {

/// Whether a token that verified as an access token is one (its type is
/// `user`), so that the caller is resolved from it rather than as an MFA token.
pub fn is_user_token(token_type: &str) -> (res: bool)
    ensures
        res == (token_type@ == user_token_type()),
{
    proof {
        reveal_strlit("user");
    }
    assert("user"@ =~= user_token_type());
    str_eq(token_type, "user")
}

/// The caller of an access token of subject `sub`, once the revocation check
/// answered `revoked`: 401 for a revoked token or a subject naming no user.
pub fn access_caller(revoked: bool, sub: &str) -> (res: Result<i64, AppError>)
    ensures
        revoked ==> (res matches Err(e) && e is Unauthorized),
        !revoked ==> match subject_user_id_spec(sub@) {
            Some(id) => res == Ok::<i64, AppError>(id),
            None => res matches Err(e) && e is Unauthorized,
        },
{
    if revoked {
        return Err(unauthorized("token revoked"));
    }
    access_token_user(sub)
}

/// The answer to a login that must pass an MFA step first: the step's label,
/// the MFA token, and the factor types offered (`totp`).
pub fn challenge_response(purpose: MfaPurpose, mfa_token: String) -> (res: LoginResponse)
    ensures
        res matches LoginResponse::MfaRequired { purpose: p, mfa_token: t, factor_types: f } && p@
            == challenge_label_spec(purpose) && t == mfa_token && f@.len() == 1 && f@[0]@ == seq![
            't',
            'o',
            't',
            'p',
        ],
{
    LoginResponse::MfaRequired {
        purpose: owned(challenge_label(purpose)),
        mfa_token,
        factor_types: challenge_factor_types(),
    }
}

/// `invalid code`.
pub open spec fn invalid_code_msg() -> Seq<char> {
    seq!['i', 'n', 'v', 'a', 'l', 'i', 'd', ' ', 'c', 'o', 'd', 'e']
}

/// `an mfa_pending token is required`.
pub open spec fn pending_required_msg() -> Seq<char> {
    seq![
        'a', 'n', ' ', 'm', 'f', 'a', '_', 'p', 'e', 'n', 'd', 'i', 'n', 'g', ' ', 't', 'o', 'k',
        'e', 'n', ' ', 'i', 's', ' ', 'r', 'e', 'q', 'u', 'i', 'r', 'e', 'd',
    ]
}

/// `no confirmed factor`.
pub open spec fn no_confirmed_factor_msg() -> Seq<char> {
    seq![
        'n', 'o', ' ', 'c', 'o', 'n', 'f', 'i', 'r', 'm', 'e', 'd', ' ', 'f', 'a', 'c', 't', 'o',
        'r',
    ]
}

/// `too many attempts; try later`.
pub open spec fn locked_msg() -> Seq<char> {
    seq![
        't', 'o', 'o', ' ', 'm', 'a', 'n', 'y', ' ', 'a', 't', 't', 'e', 'm', 'p', 't', 's', ';',
        ' ', 't', 'r', 'y', ' ', 'l', 'a', 't', 'e', 'r',
    ]
}

/// 401 unless the submitted code was accepted.
pub fn require_valid_code(accepted: bool) -> (res: Result<(), AppError>)
    ensures
        accepted ==> res is Ok,
        !accepted ==> (res matches Err(AppError::Unauthorized(m)) && m@ == invalid_code_msg()),
{
    proof {
        reveal_strlit("invalid code");
    }
    assert("invalid code"@ =~= invalid_code_msg());
    if accepted {
        Ok(())
    } else {
        Err(unauthorized("invalid code"))
    }
}

/// What a verify request may go on with: the attempt counter of the user's
/// confirmed factor, when the caller holds an MFA token, has a confirmed factor
/// and the factor is not locked at `now`.
pub open spec fn verify_admission_spec(
    from_mfa_token: bool,
    factor: Option<FactorAttempts>,
    now: i64,
) -> Result<FactorAttempts, ()> {
    if !from_mfa_token {
        Err(())
    } else {
        match factor {
            None => Err(()),
            Some(f) => if is_locked_spec(f, now) {
                Err(())
            } else {
                Ok(f)
            },
        }
    }
}

/// The checks a verify request passes before its code is looked at: 401 for
/// an access token (an `mfa_pending` token is required), 400 when the user has
/// no confirmed factor, 401 while the factor is locked.
pub fn verify_admission(from_mfa_token: bool, factor: Option<FactorAttempts>, now: i64) -> (res: Result<
    FactorAttempts,
    AppError,
>)
    ensures
        !from_mfa_token ==> (res matches Err(AppError::Unauthorized(m)) && m@
            == pending_required_msg()),
        from_mfa_token && factor is None ==> (res matches Err(AppError::BadRequest(m)) && m@
            == no_confirmed_factor_msg()),
        from_mfa_token && (factor matches Some(f) && is_locked_spec(f, now)) ==> (res matches Err(
            AppError::Unauthorized(m),
        ) && m@ == locked_msg()),
        from_mfa_token && (factor matches Some(f) && !is_locked_spec(f, now)) ==> res == Ok::<
            FactorAttempts,
            AppError,
        >(factor->0),
        res is Ok <==> verify_admission_spec(from_mfa_token, factor, now) is Ok,
        (res matches Ok(f) ==> verify_admission_spec(from_mfa_token, factor, now) == Ok::<
            FactorAttempts,
            (),
        >(f)),
{
    proof {
        reveal_strlit("an mfa_pending token is required");
        reveal_strlit("no confirmed factor");
        reveal_strlit("too many attempts; try later");
    }
    assert("an mfa_pending token is required"@ =~= pending_required_msg());
    assert("no confirmed factor"@ =~= no_confirmed_factor_msg());
    assert("too many attempts; try later"@ =~= locked_msg());
    if !from_mfa_token {
        return Err(unauthorized("an mfa_pending token is required"));
    }
    match factor {
        None => Err(bad_request("no confirmed factor")),
        Some(f) => {
            if f.is_locked(now) {
                Err(unauthorized("too many attempts; try later"))
            } else {
                Ok(f)
            }
        },
    }
}

/// What a verify request does after a check of its code.
#[derive(Clone, Copy, PartialEq, Eq, Structural, Debug)]
pub enum VerifyStep {
    /// The code proves the TOTP factor.
    AcceptTotp,
    /// The code proves a recovery code (now consumed).
    AcceptRecovery,
    /// Try the code as one of the user's recovery codes.
    TryRecovery,
    /// Record this counter for the factor and answer 401.
    Reject(FactorAttempts),
}

/// After the TOTP check: accept, or try the code as a recovery code.
pub fn verify_after_totp(totp_ok: bool) -> (res: VerifyStep)
    ensures
        totp_ok ==> res == VerifyStep::AcceptTotp,
        !totp_ok ==> res == VerifyStep::TryRecovery,
{
    if totp_ok {
        VerifyStep::AcceptTotp
    } else {
        VerifyStep::TryRecovery
    }
}

/// After the recovery-code check at `now`: accept, or count the failure (and
/// lock the factor from the fifth).
pub fn verify_after_recovery(attempts: FactorAttempts, now: i64, recovery_ok: bool) -> (res:
    VerifyStep)
    requires
        attempts.failed_attempts < i32::MAX,
        now <= i64::MAX - MFA_LOCK_SECONDS,
    ensures
        recovery_ok ==> res == VerifyStep::AcceptRecovery,
        !recovery_ok ==> res == VerifyStep::Reject(after_failure_spec(attempts, now)),
{
    if recovery_ok {
        VerifyStep::AcceptRecovery
    } else {
        VerifyStep::Reject(attempts.after_failure(now))
    }
}

/// The `amr` entry of the factor an accepted step proved.
pub open spec fn accepted_factor_spec(step: VerifyStep) -> Option<Seq<char>> {
    match step {
        VerifyStep::AcceptTotp => Some(seq!['t', 'o', 't', 'p']),
        VerifyStep::AcceptRecovery => Some(seq!['r', 'e', 'c', 'o', 'v', 'e', 'r', 'y']),
        _ => None,
    }
}

/// The `amr` entry of the factor an accepted step proved; none for a step
/// that accepts nothing.
pub fn accepted_factor(step: VerifyStep) -> (res: Option<&'static str>)
    ensures
        match accepted_factor_spec(step) {
            Some(f) => res matches Some(s) && s@ == f,
            None => res is None,
        },
{
    proof {
        reveal_strlit("totp");
        reveal_strlit("recovery");
    }
    match step {
        VerifyStep::AcceptTotp => {
            assert("totp"@ =~= seq!['t', 'o', 't', 'p']);
            Some("totp")
        },
        VerifyStep::AcceptRecovery => {
            assert("recovery"@ =~= seq!['r', 'e', 'c', 'o', 'v', 'e', 'r', 'y']);
            Some("recovery")
        },
        _ => None,
    }
}

/// The answer a verify request gets after its checks: the proven factor of an
/// accepting step, 401 `invalid code` for a refused one (whose counter is
/// recorded first). A step still waiting on the recovery check is refused too.
pub fn verify_answer(step: VerifyStep) -> (res: Result<&'static str, AppError>)
    ensures
        match accepted_factor_spec(step) {
            Some(f) => res matches Ok(s) && s@ == f,
            None => res matches Err(AppError::Unauthorized(m)) && m@ == invalid_code_msg(),
        },
{
    proof {
        reveal_strlit("invalid code");
    }
    assert("invalid code"@ =~= invalid_code_msg());
    match accepted_factor(step) {
        Some(f) => Ok(f),
        None => Err(unauthorized("invalid code")),
    }
}

/// Whether confirming a factor signs the user in (issues tokens): only for a
/// caller enrolling with an MFA token; a caller who enrolled from an access
/// token holds its session already.
pub fn confirm_issues_tokens(from_mfa_token: bool) -> (res: bool)
    ensures
        res == from_mfa_token,
{
    from_mfa_token
}

/// Where a verify request that was admitted ends: accepted with the
/// TOTP factor, accepted with a recovery code, or refused with the counter to
/// record. The recovery check is asked only when the TOTP check failed.
pub open spec fn verify_outcome_spec(
    attempts: FactorAttempts,
    now: i64,
    totp_ok: bool,
    recovery_ok: bool,
) -> VerifyStep {
    if totp_ok {
        VerifyStep::AcceptTotp
    } else if recovery_ok {
        VerifyStep::AcceptRecovery
    } else {
        VerifyStep::Reject(after_failure_spec(attempts, now))
    }
}

/// A verify request is accepted exactly when its code passes the TOTP check or
/// is a recovery code; the TOTP factor is named whenever the TOTP check passes;
/// a refused request records one more failure, and the fifth refusal in a row
/// locks the factor for fifteen minutes. The two steps compose to this outcome.
pub proof fn law_verify_outcome(attempts: FactorAttempts, now: i64, totp_ok: bool, recovery_ok: bool)
    requires
        attempts.failed_attempts < i32::MAX,
        now <= i64::MAX - MFA_LOCK_SECONDS,
    ensures
        (accepted_factor_spec(verify_outcome_spec(attempts, now, totp_ok, recovery_ok)) is Some)
            <==> (totp_ok || recovery_ok),
        totp_ok ==> accepted_factor_spec(verify_outcome_spec(attempts, now, totp_ok, recovery_ok))
            == Some(seq!['t', 'o', 't', 'p']),
        !totp_ok && !recovery_ok ==> (verify_outcome_spec(attempts, now, totp_ok, recovery_ok) matches VerifyStep::Reject(a)
            && a.failed_attempts == attempts.failed_attempts + 1 && (a.locked_until is Some
            <==> attempts.failed_attempts + 1 >= 5)),
        !totp_ok ==> verify_outcome_spec(attempts, now, totp_ok, recovery_ok) == (if recovery_ok {
            VerifyStep::AcceptRecovery
        } else {
            VerifyStep::Reject(after_failure_spec(attempts, now))
        }),
{
}

/// An admitted verify request goes on with the stored attempt counter exactly
/// as it is (so wrong codes keep counting towards the lock), and only a holder
/// of an MFA token whose factor exists and is not locked is admitted.
pub proof fn law_admission_keeps_counter(from_mfa_token: bool, factor: Option<FactorAttempts>, now: i64)
    ensures
        from_mfa_token && (factor matches Some(f) && !is_locked_spec(f, now))
            ==> verify_admission_spec(from_mfa_token, factor, now) == Ok::<FactorAttempts, ()>(
            factor->0,
        ),
        verify_admission_spec(from_mfa_token, factor, now) matches Ok(f) ==> from_mfa_token
            && factor == Some(f) && !is_locked_spec(f, now),
{
}

/// While a factor is locked, a verify request is refused before its code is
/// checked: even a correct code does not get through.
pub proof fn law_locked_refuses_any_code(f: FactorAttempts, now: i64)
    requires
        is_locked_spec(f, now),
    ensures
        verify_admission_spec(true, Some(f), now) is Err,
{
}

} // verus!
