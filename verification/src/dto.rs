//! The bodies of the auth API's requests and responses.
use vstd::prelude::*;
use crate::text::owned;

verus! {

pub struct RegisterRequest {
    pub email: String,
    pub password: String,
}

pub struct LoginRequest {
    pub email: String,
    pub password: String,
}

/// An access and refresh token pair as answered to the client.
pub struct AuthTokens {
    pub access_token: String,
    /// Not sent in the body: the refresh token travels in the `rt` cookie.
    pub refresh_token: Option<String>,
    pub token_type: String,
    pub expires_in: i64,
}

/// `Bearer`.
pub open spec fn bearer_type() -> Seq<char> {
    seq!['B', 'e', 'a', 'r', 'e', 'r']
}

impl AuthTokens {
    /// A bearer body whose access token lives `expires_in` seconds; the
    /// refresh token is left out of it.
    pub fn bearer(access_token: String, expires_in: i64) -> (res: AuthTokens)
        ensures
            res.access_token == access_token,
            res.refresh_token is None,
            res.token_type@ == bearer_type(),
            res.expires_in == expires_in,
    {
        proof {
            reveal_strlit("Bearer");
        }
        assert("Bearer"@ =~= bearer_type());
        AuthTokens { access_token, refresh_token: None, token_type: owned("Bearer"), expires_in }
    }
}

/// The answer to a login: tokens, or the MFA step the user must take first.
pub enum LoginResponse {
    Authenticated { tokens: AuthTokens },
    MfaRequired { purpose: String, mfa_token: String, factor_types: Vec<String> },
}

pub struct RefreshRequest {
    pub refresh_token: String,
}

/// The body of a logout; the refresh token comes in the `rt` cookie.
pub struct LogoutRequest {
    pub access_token: Option<String>,
}

pub struct UserWithScopes {
    pub id: i64,
    pub email: String,
    pub scopes: Vec<String>,
}

pub struct SetScopesRequest {
    pub scopes: Vec<String>,
}

pub struct MfaSetupResponse {
    pub provisioning_uri: String,
    pub secret: String,
}

pub struct MfaConfirmRequest {
    pub code: String,
}

pub struct MfaConfirmResponse {
    pub recovery_codes: Vec<String>,
    pub tokens: Option<AuthTokens>,
}

pub struct MfaVerifyRequest {
    pub code: String,
}

pub struct MfaStatusResponse {
    pub enabled: bool,
    pub policy: String,
}

/// A freshly issued access and refresh token pair, with what persisting the
/// refresh token needs.
pub struct TokenPair {
    pub access_token: String,
    pub refresh_token: String,
    pub refresh_jti: String,
    pub refresh_expires_at: i64,
    pub expires_in: i64,
}

/// A scope of the catalog.
pub struct ScopeRow {
    pub id: i64,
    pub name: String,
    pub description: String,
}

} // verus!
