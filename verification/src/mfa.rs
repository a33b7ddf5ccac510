//! The decisions of multi-factor login: which step a login leads to, who may
//! act on an MFA endpoint, and the lockout after repeated wrong codes.
use vstd::prelude::*;
use crate::claims::{subject_user_id, subject_user_id_spec, MfaPurpose};
use crate::error::{bad_request, conflict, unauthorized, AppError};
use crate::mfa_crypto::MfaCipher;
use crate::text::{owned, str_eq};

verus! {

/// Whether a second factor is off, offered, or demanded of every user.
#[derive(Clone, Copy, PartialEq, Eq, Structural, Debug)]
pub enum MfaPolicy {
    Off,
    Optional,
    Required,
}

/// `off`, `optional` or `required`.
pub open spec fn policy_label_spec(p: MfaPolicy) -> Seq<char> {
    match p {
        MfaPolicy::Off => seq!['o', 'f', 'f'],
        MfaPolicy::Optional => seq!['o', 'p', 't', 'i', 'o', 'n', 'a', 'l'],
        MfaPolicy::Required => seq!['r', 'e', 'q', 'u', 'i', 'r', 'e', 'd'],
    }
}

impl MfaPolicy {
    /// The policy's name as the status endpoint reports it.
    pub fn label(self) -> (res: &'static str)
        ensures
            res@ == policy_label_spec(self),
    {
        proof {
            reveal_strlit("off");
            reveal_strlit("optional");
            reveal_strlit("required");
        }
        match self {
            MfaPolicy::Off => {
                assert("off"@ =~= policy_label_spec(self));
                "off"
            },
            MfaPolicy::Optional => {
                assert("optional"@ =~= policy_label_spec(self));
                "optional"
            },
            MfaPolicy::Required => {
                assert("required"@ =~= policy_label_spec(self));
                "required"
            },
        }
    }
}

/// The policy a setting names: `off`, `optional` or `required`; none for any
/// other text.
pub fn parse_policy(s: &str) -> (res: Option<MfaPolicy>)
    ensures
        match res {
            Some(p) => s@ == policy_label_spec(p),
            None => forall|p: MfaPolicy| s@ != #[trigger] policy_label_spec(p),
        },
{
    if str_eq(s, MfaPolicy::Off.label()) {
        Some(MfaPolicy::Off)
    } else if str_eq(s, MfaPolicy::Optional.label()) {
        Some(MfaPolicy::Optional)
    } else if str_eq(s, MfaPolicy::Required.label()) {
        Some(MfaPolicy::Required)
    } else {
        None
    }
}

/// The MFA settings: the policy, and the cipher of stored secrets (none when
/// MFA is disabled).
pub struct MfaConfig {
    pub policy: MfaPolicy,
    pub cipher: Option<MfaCipher>,
}

/// Where a login with valid credentials leads.
#[derive(Clone, Copy, PartialEq, Eq, Structural, Debug)]
pub enum LoginStep {
    /// Issue tokens now.
    Authenticate,
    /// Answer with an MFA token of this purpose.
    Challenge(MfaPurpose),
}

/// The step of a login under `policy`, for a user with (`enabled`) or without
/// a confirmed factor.
pub open spec fn login_step_spec(policy: MfaPolicy, enabled: bool) -> LoginStep {
    if policy == MfaPolicy::Off || (policy == MfaPolicy::Optional && !enabled) {
        LoginStep::Authenticate
    } else if enabled {
        LoginStep::Challenge(MfaPurpose::Pending)
    } else {
        LoginStep::Challenge(MfaPurpose::Enroll)
    }
}

/// The step of a login: tokens when MFA is off or optional and not set up; the
/// verify challenge when a factor is confirmed; the enrolment challenge when
/// MFA is required and no factor is confirmed.
pub fn login_step(policy: MfaPolicy, enabled: bool) -> (res: LoginStep)
    ensures
        res == login_step_spec(policy, enabled),
{
    match (policy, enabled) {
        (MfaPolicy::Off, _) | (MfaPolicy::Optional, false) => LoginStep::Authenticate,
        (_, true) => LoginStep::Challenge(MfaPurpose::Pending),
        (MfaPolicy::Required, false) => LoginStep::Challenge(MfaPurpose::Enroll),
    }
}

/// `verify` or `enroll`: the purpose a challenge names to the client.
pub open spec fn challenge_label_spec(p: MfaPurpose) -> Seq<char> {
    match p {
        MfaPurpose::Pending => seq!['v', 'e', 'r', 'i', 'f', 'y'],
        MfaPurpose::Enroll => seq!['e', 'n', 'r', 'o', 'l', 'l'],
    }
}

/// The purpose a challenge names to the client.
pub fn challenge_label(p: MfaPurpose) -> (res: &'static str)
    ensures
        res@ == challenge_label_spec(p),
{
    proof {
        reveal_strlit("verify");
        reveal_strlit("enroll");
    }
    match p {
        MfaPurpose::Pending => {
            assert("verify"@ =~= challenge_label_spec(p));
            "verify"
        },
        MfaPurpose::Enroll => {
            assert("enroll"@ =~= challenge_label_spec(p));
            "enroll"
        },
    }
}

/// The factor types a challenge offers: `totp`.
pub fn challenge_factor_types() -> (res: Vec<String>)
    ensures
        res@.len() == 1,
        res@[0]@ == seq!['t', 'o', 't', 'p'],
{
    proof {
        reveal_strlit("totp");
    }
    let mut v: Vec<String> = Vec::new();
    v.push(owned("totp"));
    assert(v@[0]@ =~= seq!['t', 'o', 't', 'p']);
    v
}

/// Under every policy but `Off`, a user with a confirmed factor is always
/// challenged to verify it; `Off` never challenges; enrolment is demanded only
/// under `Required`, of users without a factor.
pub proof fn law_login_step(policy: MfaPolicy, enabled: bool)
    ensures
        policy == MfaPolicy::Off ==> login_step_spec(policy, enabled) == LoginStep::Authenticate,
        policy != MfaPolicy::Off && enabled ==> login_step_spec(policy, enabled)
            == LoginStep::Challenge(MfaPurpose::Pending),
        login_step_spec(policy, enabled) == LoginStep::Challenge(MfaPurpose::Enroll) <==> (policy
            == MfaPolicy::Required && !enabled),
        login_step_spec(policy, enabled) == LoginStep::Authenticate <==> (policy == MfaPolicy::Off
            || (policy == MfaPolicy::Optional && !enabled)),
{
}

/// The cipher of stored secrets; 409 when MFA is disabled.
pub fn mfa_cipher(config: &MfaConfig) -> (res: Result<&MfaCipher, AppError>)
    ensures
        match config.cipher {
            Some(c) => res == Ok::<&MfaCipher, AppError>(&c),
            None => res matches Err(e) && e is Conflict,
        },
{
    match &config.cipher {
        Some(c) => Ok(c),
        None => Err(conflict("MFA is disabled")),
    }
}

/// `Bearer `.
pub open spec fn bearer_prefix() -> Seq<char> {
    seq!['B', 'e', 'a', 'r', 'e', 'r', ' ']
}

/// The token of an `Authorization: Bearer <token>` header; 401 when the header
/// is missing or of another scheme.
pub fn bearer_token(header: Option<&str>) -> (res: Result<&str, AppError>)
    ensures
        match header {
            Some(h) => if crate::text::has_prefix(h@, bearer_prefix()) {
                res matches Ok(t) && t@ == h@.skip(7)
            } else {
                res matches Err(e) && e is Unauthorized
            },
            None => res matches Err(e) && e is Unauthorized,
        },
{
    proof {
        reveal_strlit("Bearer ");
    }
    assert("Bearer "@ =~= bearer_prefix());
    match header {
        Some(h) => match crate::text::strip_prefix(h, "Bearer ") {
            Some(t) => Ok(t),
            None => Err(unauthorized("missing Bearer token")),
        },
        None => Err(unauthorized("missing Bearer token")),
    }
}

/// Whether the slice holds a string reading `s`.
pub open spec fn allows(allowed: Seq<&str>, s: Seq<char>) -> bool {
    exists|i: int| 0 <= i < allowed.len() && (#[trigger] allowed[i])@ == s
}

/// The user acting with a verified access token of subject `sub`; 401 when the
/// subject does not name a user.
pub fn access_token_user(sub: &str) -> (res: Result<i64, AppError>)
    ensures
        match subject_user_id_spec(sub@) {
            Some(id) => res == Ok::<i64, AppError>(id),
            None => res matches Err(e) && e is Unauthorized,
        },
{
    match subject_user_id(sub) {
        Some(id) => Ok(id),
        None => Err(unauthorized("bad sub")),
    }
}

/// The user acting with an MFA token of type `token_type` and subject `sub`, on
/// a step that admits the types of `allowed`; 401 for a token of another type
/// or a subject that does not name a user.
pub fn mfa_token_user(token_type: &str, sub: &str, allowed: &[&str]) -> (res: Result<i64, AppError>)
    ensures
        !allows(allowed@, token_type@) ==> (res matches Err(e) && e is Unauthorized),
        allows(allowed@, token_type@) ==> match subject_user_id_spec(sub@) {
            Some(id) => res == Ok::<i64, AppError>(id),
            None => res matches Err(e) && e is Unauthorized,
        },
{
    let mut i: usize = 0;
    let mut found = false;
    while i < allowed.len()
        invariant
            0 <= i <= allowed@.len(),
            found == exists|j: int| 0 <= j < i && (#[trigger] allowed@[j])@ == token_type@,
        decreases allowed@.len() - i,
    {
        if str_eq(allowed[i], token_type) {
            found = true;
        }
        i = i + 1;
    }
    if !found {
        return Err(unauthorized("wrong token for this step"));
    }
    match subject_user_id(sub) {
        Some(id) => Ok(id),
        None => Err(unauthorized("bad sub")),
    }
}

/// Wrong codes in a row after which a factor locks.
pub const MFA_MAX_ATTEMPTS: i32 = 5;

/// How long a lock lasts: fifteen minutes, in seconds.
pub const MFA_LOCK_SECONDS: i64 = 900;

/// The attempt counter of a confirmed factor.
#[derive(Clone, Copy, PartialEq, Eq, Structural, Debug)]
pub struct FactorAttempts {
    pub failed_attempts: i32,
    /// Codes are refused before this instant (seconds).
    pub locked_until: Option<i64>,
}

/// Whether the factor refuses codes at `now`.
pub open spec fn is_locked_spec(s: FactorAttempts, now: i64) -> bool {
    match s.locked_until {
        Some(t) => t > now,
        None => false,
    }
}

/// The counter after a wrong code at `now`: one more failure, and a lock of
/// fifteen minutes when that makes five or more (otherwise no lock).
pub open spec fn after_failure_spec(s: FactorAttempts, now: i64) -> FactorAttempts {
    FactorAttempts {
        failed_attempts: (s.failed_attempts + 1) as i32,
        locked_until: if s.failed_attempts + 1 >= MFA_MAX_ATTEMPTS {
            Some((now + MFA_LOCK_SECONDS) as i64)
        } else {
            None
        },
    }
}

/// The counter after an accepted code: cleared.
pub open spec fn after_success_spec(s: FactorAttempts) -> FactorAttempts {
    FactorAttempts { failed_attempts: 0, locked_until: None }
}

impl FactorAttempts {
    /// A factor that has seen no wrong code.
    pub fn fresh() -> (res: FactorAttempts)
        ensures
            res.failed_attempts == 0,
            res.locked_until is None,
    {
        FactorAttempts { failed_attempts: 0, locked_until: None }
    }

    /// Whether the factor refuses codes at `now`.
    pub fn is_locked(&self, now: i64) -> (res: bool)
        ensures
            res == is_locked_spec(*self, now),
    {
        match self.locked_until {
            Some(t) => t > now,
            None => false,
        }
    }

    /// The lock to record with a wrong code at `now`.
    pub fn lock_after_failure(&self, now: i64) -> (res: Option<i64>)
        requires
            self.failed_attempts < i32::MAX,
            now <= i64::MAX - MFA_LOCK_SECONDS,
        ensures
            res == after_failure_spec(*self, now).locked_until,
    {
        let next = self.failed_attempts + 1;
        if next >= MFA_MAX_ATTEMPTS {
            Some(now + MFA_LOCK_SECONDS)
        } else {
            None
        }
    }

    /// The counter after a wrong code at `now`.
    pub fn after_failure(&self, now: i64) -> (res: FactorAttempts)
        requires
            self.failed_attempts < i32::MAX,
            now <= i64::MAX - MFA_LOCK_SECONDS,
        ensures
            res == after_failure_spec(*self, now),
    {
        FactorAttempts {
            failed_attempts: self.failed_attempts + 1,
            locked_until: self.lock_after_failure(now),
        }
    }

    /// The counter after an accepted code.
    pub fn after_success(&self) -> (res: FactorAttempts)
        ensures
            res == after_success_spec(*self),
    {
        FactorAttempts { failed_attempts: 0, locked_until: None }
    }

    /// 401 while the factor is locked.
    pub fn check_unlocked(&self, now: i64) -> (res: Result<(), AppError>)
        ensures
            !is_locked_spec(*self, now) ==> res is Ok,
            is_locked_spec(*self, now) ==> (res matches Err(e) && e is Unauthorized),
    {
        if self.is_locked(now) {
            Err(unauthorized("too many attempts; try later"))
        } else {
            Ok(())
        }
    }
}

/// A second factor as stored; times are Unix timestamps in seconds.
pub struct MfaFactor {
    pub id: i64,
    pub user_id: i64,
    pub factor_type: String,
    pub secret_encrypted: Vec<u8>,
    pub confirmed_at: Option<i64>,
    pub failed_attempts: i32,
    pub locked_until: Option<i64>,
}

impl MfaFactor {
    /// The factor's attempt counter.
    pub fn attempts(&self) -> (res: FactorAttempts)
        ensures
            res.failed_attempts == self.failed_attempts,
            res.locked_until == self.locked_until,
    {
        FactorAttempts { failed_attempts: self.failed_attempts, locked_until: self.locked_until }
    }
}

/// The counter after wrong codes at the instants of `times`, in order.
pub open spec fn after_failures(s: FactorAttempts, times: Seq<i64>) -> FactorAttempts
    decreases times.len(),
{
    if times.len() == 0 {
        s
    } else {
        after_failure_spec(after_failures(s, times.drop_last()), times.last())
    }
}

/// From a fresh factor, wrong codes count up one by one; the first four leave
/// it unlocked, and from the fifth on each one locks it for fifteen minutes
/// from that code.
pub proof fn law_lockout(times: Seq<i64>)
    requires
        times.len() < i32::MAX,
        forall|i: int| 0 <= i < times.len() ==> #[trigger] times[i] <= i64::MAX - MFA_LOCK_SECONDS,
    ensures
        after_failures(FactorAttempts { failed_attempts: 0, locked_until: None }, times).failed_attempts
            == times.len(),
        times.len() < MFA_MAX_ATTEMPTS ==> after_failures(
            FactorAttempts { failed_attempts: 0, locked_until: None },
            times,
        ).locked_until is None,
        times.len() >= MFA_MAX_ATTEMPTS ==> after_failures(
            FactorAttempts { failed_attempts: 0, locked_until: None },
            times,
        ).locked_until == Some((times.last() + MFA_LOCK_SECONDS) as i64),
    decreases times.len(),
{
    if times.len() > 0 {
        let rest = times.drop_last();
        assert forall|i: int| 0 <= i < rest.len() implies #[trigger] rest[i] <= i64::MAX
            - MFA_LOCK_SECONDS by {
            assert(rest[i] == times[i]);
        }
        law_lockout(rest);
    }
}

/// A locked factor refuses every code for the fifteen minutes after the wrong
/// code that locked it, and an accepted code unlocks it.
pub proof fn law_lock_window(s: FactorAttempts, now: i64, t: i64)
    requires
        s.failed_attempts + 1 >= MFA_MAX_ATTEMPTS,
        s.failed_attempts < i32::MAX,
        now <= i64::MAX - MFA_LOCK_SECONDS,
    ensures
        now <= t < now + MFA_LOCK_SECONDS ==> is_locked_spec(after_failure_spec(s, now), t),
        t >= now + MFA_LOCK_SECONDS ==> !is_locked_spec(after_failure_spec(s, now), t),
        !is_locked_spec(after_success_spec(s), t),
{
}

/// The authentication methods of a session: the password, then `factor`.
pub fn amr(factor: &str) -> (res: Vec<String>)
    ensures
        res@.len() == 2,
        res@[0]@ == seq!['p', 'w', 'd'],
        res@[1]@ == factor@,
{
    proof {
        reveal_strlit("pwd");
    }
    let mut v: Vec<String> = Vec::new();
    v.push(owned("pwd"));
    v.push(owned(factor));
    assert(v@[0]@ =~= seq!['p', 'w', 'd']);
    v
}

/// The authentication methods of a password-only session: `pwd`.
pub fn password_amr() -> (res: Vec<String>)
    ensures
        res@.len() == 1,
        res@[0]@ == seq!['p', 'w', 'd'],
{
    proof {
        reveal_strlit("pwd");
    }
    let mut v: Vec<String> = Vec::new();
    v.push(owned("pwd"));
    assert(v@[0]@ =~= seq!['p', 'w', 'd']);
    v
}

/// 400 when there is no factor to act on.
pub fn require_factor<T>(factor: Option<T>, msg: &str) -> (res: Result<T, AppError>)
    ensures
        match factor {
            Some(f) => res == Ok::<T, AppError>(f),
            None => res matches Err(e) && e is BadRequest,
        },
{
    match factor {
        Some(f) => Ok(f),
        None => Err(bad_request(msg)),
    }
}

} // verus!
