//! The claims of the tokens this service issues. Times are Unix timestamps in
//! seconds. The claims are signed (RS256) with the issuer's key by the caller.
use vstd::prelude::*;
use crate::claims::{
    subject_user_id_spec, token_type_spec, user_subject, user_subject_spec, AccessClaims,
    MfaPurpose, MfaTokenClaims, RefreshClaims, lemma_subject_roundtrip,
};
use crate::error::{internal, AppError};
use crate::text::owned;
use jsonwebtoken::{encode, Algorithm, EncodingKey, Header};
use serde_json::Value;
use std::collections::BTreeMap;
use crate::text::views;
use crate::totp::opt_view;

verus! {

#[verifier::external_type_specification]
#[verifier::external_body]
pub struct ExEncodingKey(jsonwebtoken::EncodingKey);

/// Whether `EncodingKey::from_rsa_pem` accepts `pem` (a PEM-encoded RSA private
/// key). It depends on `pem` alone.
pub uninterp spec fn rsa_pem_accepted(pem: Seq<char>) -> bool;

/// `EncodingKey::from_rsa_pem(pem.as_bytes())`, its error turned into `None`.
#[verifier::external_body]
fn encoding_key_from_rsa_pem(pem: &str) -> (res: Option<EncodingKey>)
    ensures
        (res is Some) == rsa_pem_accepted(pem@),
{
    EncodingKey::from_rsa_pem(pem.as_bytes()).ok()
}

/// `Uuid::new_v4().to_string()`: a random UUID in the hyphenated form, 36
/// characters; nothing is claimed of its value.
#[verifier::external_body]
fn new_jti() -> (res: String)
    ensures
        res@.len() == 36,
{
    uuid::Uuid::new_v4().to_string()
}

/// `user`, the token type of access tokens.
pub open spec fn user_token_type() -> Seq<char> {
    seq!['u', 's', 'e', 'r']
}

/// `refresh`, the token type of refresh tokens.
pub open spec fn refresh_token_type() -> Seq<char> {
    seq!['r', 'e', 'f', 'r', 'e', 's', 'h']
}

/// Seconds in a day.
pub const SECONDS_PER_DAY: i64 = 86_400;

/// How long an MFA token lives: five minutes.
pub const MFA_TOKEN_TTL_SECONDS: i64 = 300;

/// The RS256 JSON web token, signed with the RSA key of `pem`, whose payload
/// is the access claims `sub`, `scopes`, `exp`, `iat`, `jti`, `email`, `type`
/// and `amr`. RS256 (PKCS#1 v1.5) signing and the JSON and base64 encodings are
/// deterministic, so the token depends on its arguments alone.
pub uninterp spec fn access_jwt(
    pem: Seq<char>,
    sub: Seq<char>,
    scopes: Seq<Seq<char>>,
    exp: usize,
    iat: usize,
    jti: Seq<char>,
    email: Option<Seq<char>>,
    token_type: Seq<char>,
    amr: Seq<Seq<char>>,
) -> Seq<char>;

/// The RS256 JSON web token, signed with the RSA key of `pem`, whose payload
/// is the refresh claims `sub`, `iat`, `exp`, `jti` and `type`.
pub uninterp spec fn refresh_jwt(
    pem: Seq<char>,
    sub: Seq<char>,
    iat: usize,
    exp: usize,
    jti: Seq<char>,
    token_type: Seq<char>,
) -> Seq<char>;

/// The RS256 JSON web token, signed with the RSA key of `pem`, whose payload
/// is the MFA claims `sub`, `iat`, `exp` and `type`.
pub uninterp spec fn mfa_jwt(
    pem: Seq<char>,
    sub: Seq<char>,
    iat: usize,
    exp: usize,
    token_type: Seq<char>,
) -> Seq<char>;

/// `jsonwebtoken::encode` with an RS256 header, the key of `pem` and the access
/// claims as a JSON object; `None` when the PEM is refused or signing fails.
#[verifier::external_body]
fn sign_access_claims(pem: &str, c: &AccessClaims) -> (res: Option<String>)
    ensures
        !rsa_pem_accepted(pem@) ==> res is None,
        res matches Some(t) ==> t@ == access_jwt(pem@, c.sub@, views(c.scopes@), c.exp, c.iat,
            c.jti@, opt_view(c.email), c.token_type@, views(c.amr@)),
{
    let key = EncodingKey::from_rsa_pem(pem.as_bytes()).ok()?;
    let c = c.clone();
    let mut m: BTreeMap<&str, Value> = BTreeMap::new();
    m.insert("sub", c.sub.into());
    m.insert("scopes", c.scopes.into());
    m.insert("exp", c.exp.into());
    m.insert("iat", c.iat.into());
    m.insert("jti", c.jti.into());
    m.insert("email", c.email.into());
    m.insert("type", c.token_type.into());
    m.insert("amr", c.amr.into());
    encode(&Header::new(Algorithm::RS256), &m, &key).ok()
}

/// `jsonwebtoken::encode` with an RS256 header, the key of `pem` and the
/// refresh claims as a JSON object; `None` when the PEM is refused or signing fails.
#[verifier::external_body]
fn sign_refresh_claims(pem: &str, c: &RefreshClaims) -> (res: Option<String>)
    ensures
        !rsa_pem_accepted(pem@) ==> res is None,
        res matches Some(t) ==> t@ == refresh_jwt(pem@, c.sub@, c.iat, c.exp, c.jti@, c.token_type@),
{
    let key = EncodingKey::from_rsa_pem(pem.as_bytes()).ok()?;
    let mut m: BTreeMap<&str, Value> = BTreeMap::new();
    m.insert("sub", c.sub.clone().into());
    m.insert("iat", c.iat.into());
    m.insert("exp", c.exp.into());
    m.insert("jti", c.jti.clone().into());
    m.insert("type", c.token_type.clone().into());
    encode(&Header::new(Algorithm::RS256), &m, &key).ok()
}

/// `jsonwebtoken::encode` with an RS256 header, the key of `pem` and the MFA
/// claims as a JSON object; `None` when the PEM is refused or signing fails.
#[verifier::external_body]
fn sign_mfa_claims(pem: &str, c: &MfaTokenClaims) -> (res: Option<String>)
    ensures
        !rsa_pem_accepted(pem@) ==> res is None,
        res matches Some(t) ==> t@ == mfa_jwt(pem@, c.sub@, c.iat, c.exp, c.token_type@),
{
    let key = EncodingKey::from_rsa_pem(pem.as_bytes()).ok()?;
    let mut m: BTreeMap<&str, Value> = BTreeMap::new();
    m.insert("sub", c.sub.clone().into());
    m.insert("iat", c.iat.into());
    m.insert("exp", c.exp.into());
    m.insert("type", c.token_type.clone().into());
    encode(&Header::new(Algorithm::RS256), &m, &key).ok()
}

/// Signs access and refresh tokens with an RSA private key (RS256).
pub struct JwtIssuer {
    key: EncodingKey,
    pem: String,
    access_ttl_seconds: i64,
    refresh_ttl_days: i64,
}

/// The claims of an access token for `user_id` issued at `now`.
pub open spec fn access_claims_spec(
    c: AccessClaims,
    ttl: i64,
    user_id: i64,
    email: Seq<char>,
    scopes: Seq<String>,
    amr: Seq<String>,
    now: i64,
) -> bool {
    &&& c.sub@ == user_subject_spec(user_id as int)
    &&& c.scopes@ == scopes
    &&& c.exp == (now + ttl) as usize
    &&& c.iat == now as usize
    &&& c.jti@.len() == 36
    &&& c.email matches Some(e) && e@ == email
    &&& c.token_type@ == user_token_type()
    &&& c.amr@ == amr
}

impl JwtIssuer {
    /// The access-token lifetime in seconds.
    pub closed spec fn access_ttl(&self) -> i64 {
        self.access_ttl_seconds
    }

    /// The PEM text of the issuer's RSA private key.
    pub closed spec fn pem(&self) -> Seq<char> {
        self.pem@
    }

    /// The refresh-token lifetime in days.
    pub closed spec fn refresh_days(&self) -> i64 {
        self.refresh_ttl_days
    }

    /// An issuer whose key is parsed from a PEM-encoded RSA private key.
    pub fn from_rsa_pem(pem: &str, access_ttl_seconds: i64, refresh_ttl_days: i64) -> (res: Result<
        JwtIssuer,
        AppError,
    >)
        ensures
            (res is Ok) == rsa_pem_accepted(pem@),
            res matches Ok(i) ==> i.access_ttl() == access_ttl_seconds && i.refresh_days()
                == refresh_ttl_days && i.pem() == pem@,
            res matches Err(e) ==> e is Internal,
    {
        match encoding_key_from_rsa_pem(pem) {
            Some(key) => Ok(JwtIssuer { key, pem: owned(pem), access_ttl_seconds, refresh_ttl_days }),
            None => Err(internal("bad RSA private key")),
        }
    }

    /// The key this issuer signs with.
    pub closed spec fn signing_key(&self) -> EncodingKey {
        self.key
    }

    /// The signing key.
    pub fn key(&self) -> (res: &EncodingKey)
        ensures
            *res == self.signing_key(),
    {
        &self.key
    }

    /// The access-token lifetime in seconds.
    pub fn access_ttl_seconds(&self) -> (res: i64)
        ensures
            res == self.access_ttl(),
    {
        self.access_ttl_seconds
    }

    /// The refresh-token lifetime in days.
    pub fn refresh_ttl_days(&self) -> (res: i64)
        ensures
            res == self.refresh_days(),
    {
        self.refresh_ttl_days
    }

    /// The refresh-token lifetime in seconds.
    pub fn refresh_ttl_seconds(&self) -> (res: i64)
        requires
            i64::MIN <= self.refresh_days() * SECONDS_PER_DAY <= i64::MAX,
        ensures
            res == self.refresh_days() * SECONDS_PER_DAY,
    {
        self.refresh_ttl_days * SECONDS_PER_DAY
    }

    /// An access token for `user_id`, issued at `now`, expiring after the
    /// access lifetime, with a fresh random `jti`: the signed token and its
    /// claims. An error when signing fails.
    pub fn issue_access(
        &self,
        user_id: i64,
        email: &str,
        scopes: Vec<String>,
        amr: Vec<String>,
        now: i64,
    ) -> (res: Result<(String, AccessClaims), AppError>)
        requires
            i64::MIN <= now + self.access_ttl() <= i64::MAX,
        ensures
            res matches Ok((t, c)) ==> access_claims_spec(
                c,
                self.access_ttl(),
                user_id,
                email@,
                scopes@,
                amr@,
                now,
            ) && t@ == access_jwt(self.pem(), c.sub@, views(c.scopes@), c.exp, c.iat, c.jti@,
                opt_view(c.email), c.token_type@, views(c.amr@)),
            res matches Err(e) ==> e is Internal,
    {
        proof {
            reveal_strlit("user");
        }
        assert("user"@ =~= user_token_type());
        let exp = now + self.access_ttl_seconds;
        let claims = AccessClaims {
            sub: user_subject(user_id),
            scopes,
            exp: exp as usize,
            iat: now as usize,
            jti: new_jti(),
            email: Some(owned(email)),
            token_type: owned("user"),
            amr,
        };
        match sign_access_claims(self.pem.as_str(), &claims) {
            Some(t) => Ok((t, claims)),
            None => Err(internal("signing the access token failed")),
        }
    }

    /// A refresh token for `user_id` issued at `now`: its fresh random `jti`,
    /// the signed token, and when it expires (after the refresh lifetime). An
    /// error when signing fails.
    pub fn issue_refresh(&self, user_id: i64, now: i64) -> (res: Result<(String, String, i64), AppError>)
        requires
            i64::MIN <= self.refresh_days() * SECONDS_PER_DAY <= i64::MAX,
            i64::MIN <= now + self.refresh_days() * SECONDS_PER_DAY <= i64::MAX,
        ensures
            res matches Ok((jti, t, expires_at)) ==> {
                &&& jti@.len() == 36
                &&& expires_at == now + self.refresh_days() * SECONDS_PER_DAY
                &&& t@ == refresh_jwt(
                    self.pem(),
                    user_subject_spec(user_id as int),
                    now as usize,
                    expires_at as usize,
                    jti@,
                    refresh_token_type(),
                )
            },
            res matches Err(e) ==> e is Internal,
    {
        proof {
            reveal_strlit("refresh");
        }
        assert("refresh"@ =~= refresh_token_type());
        let expires_at = now + self.refresh_ttl_seconds();
        let jti = new_jti();
        let claims = RefreshClaims {
            sub: user_subject(user_id),
            iat: now as usize,
            exp: expires_at as usize,
            jti: owned(jti.as_str()),
            token_type: owned("refresh"),
        };
        match sign_refresh_claims(self.pem.as_str(), &claims) {
            Some(t) => Ok((jti, t, expires_at)),
            None => Err(internal("signing the refresh token failed")),
        }
    }

    /// A short-lived (five minutes) single-purpose token gating the next MFA
    /// step, signed. An error when signing fails.
    pub fn issue_mfa_token(&self, user_id: i64, purpose: MfaPurpose, now: i64) -> (res: Result<
        String,
        AppError,
    >)
        requires
            now <= i64::MAX - MFA_TOKEN_TTL_SECONDS,
        ensures
            res matches Ok(t) ==> t@ == mfa_jwt(
                self.pem(),
                user_subject_spec(user_id as int),
                now as usize,
                (now + MFA_TOKEN_TTL_SECONDS) as usize,
                token_type_spec(purpose),
            ),
            res matches Err(e) ==> e is Internal,
    {
        let claims = MfaTokenClaims {
            sub: user_subject(user_id),
            iat: now as usize,
            exp: (now + MFA_TOKEN_TTL_SECONDS) as usize,
            token_type: owned(purpose.token_type()),
        };
        match sign_mfa_claims(self.pem.as_str(), &claims) {
            Some(t) => Ok(t),
            None => Err(internal("signing the MFA token failed")),
        }
    }
}

/// The subject of every token issued for a user names that user: reading the
/// user id back from an issued access token gives the id it was issued for.
pub proof fn law_issued_subject_names_user(
    c: AccessClaims,
    ttl: i64,
    user_id: i64,
    email: Seq<char>,
    scopes: Seq<String>,
    amr: Seq<String>,
    now: i64,
)
    requires
        access_claims_spec(c, ttl, user_id, email, scopes, amr, now),
    ensures
        subject_user_id_spec(c.sub@) == Some(user_id),
{
    lemma_subject_roundtrip(user_id);
}

} // verus!
