//! Token subjects and the claim sets carried by access, refresh and MFA tokens.
use vstd::prelude::*;
use crate::decimal::{i64_to_decimal, int_decimal, parse_i64, parse_i64_spec, lemma_parse_int_decimal};
use crate::text::{contains_str, has_prefix, owned, strip_prefix, vec_contains_str};

verus! {

/// `user-`, the prefix of every user subject.
pub open spec fn user_prefix() -> Seq<char> {
    seq!['u', 's', 'e', 'r', '-']
}

/// The subject naming user `id`: `user-<id>`.
pub open spec fn user_subject_spec(id: int) -> Seq<char> {
    user_prefix() + int_decimal(id)
}

/// The user id a subject names, if it is `user-` followed by an `i64`.
pub open spec fn subject_user_id_spec(sub: Seq<char>) -> Option<i64> {
    if has_prefix(sub, user_prefix()) {
        parse_i64_spec(sub.skip(5))
    } else {
        None
    }
}

/// Reading the user id back from the subject issued for it gives the same id.
pub proof fn lemma_subject_roundtrip(id: i64)
    ensures
        subject_user_id_spec(user_subject_spec(id as int)) == Some(id),
{
    let s = user_subject_spec(id as int);
    assert(s.take(5) =~= user_prefix());
    assert(s.skip(5) =~= int_decimal(id as int));
    lemma_parse_int_decimal(id);
}

/// The subject naming user `id`, as `format!("user-{id}")` writes it.
pub fn user_subject(id: i64) -> (res: String)
    ensures
        res@ == user_subject_spec(id as int),
{
    proof {
        reveal_strlit("user-");
    }
    let mut s = owned("user-");
    assert(s@ =~= user_prefix());
    let digits = i64_to_decimal(id);
    s.append(digits.as_str());
    s
}

/// The user id named by `sub`: `sub.strip_prefix("user-")` parsed as an `i64`.
pub fn subject_user_id(sub: &str) -> (res: Option<i64>)
    ensures
        res == subject_user_id_spec(sub@),
{
    proof {
        reveal_strlit("user-");
    }
    assert("user-"@ =~= user_prefix());
    match strip_prefix(sub, "user-") {
        Some(rest) => parse_i64(rest),
        None => None,
    }
}

/// Claims of an access token.
#[derive(Clone)]
pub struct AccessClaims {
    pub sub: String,
    pub scopes: Vec<String>,
    pub exp: usize,
    pub iat: usize,
    pub jti: String,
    pub email: Option<String>,
    pub token_type: String,
    pub amr: Vec<String>,
}

impl AccessClaims {
    /// Whether the token grants `scope`.
    pub open spec fn grants(&self, scope: Seq<char>) -> bool {
        contains_str(self.scopes@, scope)
    }

    /// Whether the token grants `scope`.
    pub fn has_scope(&self, scope: &str) -> (res: bool)
        ensures
            res == self.grants(scope@),
    {
        vec_contains_str(self.scopes.as_slice(), scope)
    }
}

/// Claims of a refresh token (a separate shape from the access token).
pub struct RefreshClaims {
    pub sub: String,
    pub iat: usize,
    pub exp: usize,
    pub jti: String,
    pub token_type: String,
}

/// What a short-lived MFA token lets its holder do next.
#[derive(Clone, Copy, PartialEq, Eq, Structural, Debug)]
pub enum MfaPurpose {
    /// Answer the second-factor challenge of an enrolled user.
    Pending,
    /// Enrol a first factor.
    Enroll,
}

/// `mfa_pending`.
pub open spec fn mfa_pending_type() -> Seq<char> {
    seq!['m', 'f', 'a', '_', 'p', 'e', 'n', 'd', 'i', 'n', 'g']
}

/// `mfa_enroll`.
pub open spec fn mfa_enroll_type() -> Seq<char> {
    seq!['m', 'f', 'a', '_', 'e', 'n', 'r', 'o', 'l', 'l']
}

/// The token type string of each purpose.
pub open spec fn token_type_spec(p: MfaPurpose) -> Seq<char> {
    match p {
        MfaPurpose::Pending => mfa_pending_type(),
        MfaPurpose::Enroll => mfa_enroll_type(),
    }
}

impl MfaPurpose {
    /// The `type` claim of an MFA token with this purpose.
    pub fn token_type(self) -> (res: &'static str)
        ensures
            res@ == token_type_spec(self),
    {
        proof {
            reveal_strlit("mfa_pending");
            reveal_strlit("mfa_enroll");
        }
        match self {
            MfaPurpose::Pending => {
                assert("mfa_pending"@ =~= mfa_pending_type());
                "mfa_pending"
            },
            MfaPurpose::Enroll => {
                assert("mfa_enroll"@ =~= mfa_enroll_type());
                "mfa_enroll"
            },
        }
    }
}

/// Claims of an MFA token.
pub struct MfaTokenClaims {
    pub sub: String,
    pub iat: usize,
    pub exp: usize,
    pub token_type: String,
}

} // verus!
