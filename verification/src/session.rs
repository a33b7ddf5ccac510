//! The rules of registration, token issue, refresh, logout and revocation.
use vstd::prelude::*;
use crate::claims::{subject_user_id, subject_user_id_spec, AccessClaims, RefreshClaims};
use crate::error::{conflict, unauthorized, AppError};
use crate::jwt::{access_jwt, refresh_jwt, refresh_token_type, user_token_type, JwtIssuer, SECONDS_PER_DAY};
use crate::claims::user_subject_spec;
use crate::cookie::{rt_cookie, rt_cookie_name, rt_path, Cookie, SameSite};
use crate::dto::{bearer_type, AuthTokens, TokenPair};
use crate::text::views;
use crate::totp::opt_view;
use crate::password::User;
use crate::scopes::{effective_scopes, effective_scopes_spec};
use crate::text::{owned, str_eq};

verus! {

/// `email already registered`.
pub open spec fn email_taken_msg() -> Seq<char> {
    seq![
        'e', 'm', 'a', 'i', 'l', ' ', 'a', 'l', 'r', 'e', 'a', 'd', 'y', ' ', 'r', 'e', 'g', 'i',
        's', 't', 'e', 'r', 'e', 'd',
    ]
}

/// 409 when the e-mail already belongs to a user.
pub fn check_email_free(already_registered: bool) -> (res: Result<(), AppError>)
    ensures
        !already_registered ==> res is Ok,
        already_registered ==> (res matches Err(AppError::Conflict(m)) && m@
            == email_taken_msg()),
{
    proof {
        reveal_strlit("email already registered");
    }
    assert("email already registered"@ =~= email_taken_msg());
    if already_registered {
        Err(conflict("email already registered"))
    } else {
        Ok(())
    }
}

/// The scopes every new user starts with: `read:accounts:own`.
pub fn default_scopes() -> (res: Vec<String>)
    ensures
        res@.len() == 1,
        res@[0]@ == crate::scopes::read_own_accounts_scope(),
{
    proof {
        reveal_strlit("read:accounts:own");
    }
    let mut v: Vec<String> = Vec::new();
    v.push(owned("read:accounts:own"));
    assert(v@[0]@ =~= crate::scopes::read_own_accounts_scope());
    v
}

/// The token pair issued to `user` at `now`: an access token carrying the
/// user's effective scopes and `amr`, and a refresh token, with its `jti` and
/// expiry for storing it. An error when signing fails.
pub fn token_pair(
    issuer: &JwtIssuer,
    user: &User,
    db_scopes: Vec<String>,
    admin_emails: &[String],
    amr: Vec<String>,
    now: i64,
) -> (res: Result<TokenPair, AppError>)
    requires
        i64::MIN <= now + issuer.access_ttl() <= i64::MAX,
        i64::MIN <= issuer.refresh_days() * SECONDS_PER_DAY <= i64::MAX,
        i64::MIN <= now + issuer.refresh_days() * SECONDS_PER_DAY <= i64::MAX,
    ensures
        res matches Ok(p) ==> {
            &&& exists|jti: Seq<char>|
                jti.len() == 36 && p.access_token@ == #[trigger] access_jwt(
                    issuer.pem(),
                    user_subject_spec(user.id as int),
                    effective_scopes_spec(user.email@, views(db_scopes@), views(admin_emails@)),
                    (now + issuer.access_ttl()) as usize,
                    now as usize,
                    jti,
                    Some(user.email@),
                    user_token_type(),
                    views(amr@),
                )
            &&& p.refresh_jti@.len() == 36
            &&& p.refresh_expires_at == now + issuer.refresh_days() * SECONDS_PER_DAY
            &&& p.refresh_token@ == refresh_jwt(
                issuer.pem(),
                user_subject_spec(user.id as int),
                now as usize,
                p.refresh_expires_at as usize,
                p.refresh_jti@,
                refresh_token_type(),
            )
            &&& p.expires_in == issuer.access_ttl()
        },
        res matches Err(e) ==> e is Internal,
{
    let scopes = effective_scopes(user.email.as_str(), db_scopes, admin_emails);
    let (access_token, claims) = issuer.issue_access(user.id, user.email.as_str(), scopes, amr, now)?;
    assert(views(claims.scopes@) =~= effective_scopes_spec(
        user.email@,
        views(db_scopes@),
        views(admin_emails@),
    ));
    assert(opt_view(claims.email) == Some(user.email@));
    let (refresh_jti, refresh_token, refresh_expires_at) = issuer.issue_refresh(user.id, now)?;
    Ok(
        TokenPair {
            access_token,
            refresh_token,
            refresh_jti,
            refresh_expires_at,
            expires_in: issuer.access_ttl_seconds(),
        },
    )
}

/// What a request that signs the user in answers: a bearer body with the access
/// token and no refresh token, and the refresh token in the `rt` cookie
/// (httpOnly, Secure, SameSite=Strict, path `/api/auth`) for `cookie_max_age`
/// seconds.
pub fn session_answer(
    access_token: String,
    expires_in: i64,
    refresh_token: String,
    cookie_max_age: i64,
) -> (res: (AuthTokens, Cookie))
    ensures
        res.0.access_token == access_token,
        res.0.refresh_token is None,
        res.0.token_type@ == bearer_type(),
        res.0.expires_in == expires_in,
        res.1.name@ == rt_cookie_name(),
        res.1.value == refresh_token,
        res.1.http_only,
        res.1.secure,
        res.1.same_site == SameSite::Strict,
        res.1.path@ == rt_path(),
        res.1.max_age_seconds == cookie_max_age,
{
    (AuthTokens::bearer(access_token, expires_in), rt_cookie(refresh_token, cookie_max_age))
}

/// `missing refresh token`.
pub open spec fn missing_refresh_msg() -> Seq<char> {
    seq![
        'm', 'i', 's', 's', 'i', 'n', 'g', ' ', 'r', 'e', 'f', 'r', 'e', 's', 'h', ' ', 't', 'o',
        'k', 'e', 'n',
    ]
}

/// The refresh token of a request: the value of its `rt` cookie; 401 when the
/// request carries none.
pub fn refresh_cookie_token(rt: Option<String>) -> (res: Result<String, AppError>)
    ensures
        match rt {
            Some(t) => res == Ok::<String, AppError>(t),
            None => res matches Err(AppError::Unauthorized(m)) && m@ == missing_refresh_msg(),
        },
{
    proof {
        reveal_strlit("missing refresh token");
    }
    assert("missing refresh token"@ =~= missing_refresh_msg());
    match rt {
        Some(t) => Ok(t),
        None => Err(unauthorized("missing refresh token")),
    }
}

/// 401 unless a decoded refresh-token claim set has the refresh type.
pub fn check_refresh_type(claims: &RefreshClaims) -> (res: Result<(), AppError>)
    ensures
        claims.token_type@ == refresh_token_type() ==> res is Ok,
        claims.token_type@ != refresh_token_type() ==> (res matches Err(e) && e is Unauthorized),
{
    proof {
        reveal_strlit("refresh");
    }
    assert("refresh"@ =~= refresh_token_type());
    if str_eq(claims.token_type.as_str(), "refresh") {
        Ok(())
    } else {
        Err(unauthorized("access token cannot be used as refresh token"))
    }
}

/// A refresh token as stored.
pub struct StoredRefreshToken {
    pub id: i64,
    pub jti: String,
    pub user_id: i64,
    pub expires_at: i64,
    pub revoked: bool,
}

/// The user a stored refresh token belongs to; 401 when it is unknown or revoked.
pub fn check_stored_refresh(stored: Option<StoredRefreshToken>) -> (res: Result<i64, AppError>)
    ensures
        match stored {
            Some(t) => if t.revoked {
                res matches Err(e) && e is Unauthorized
            } else {
                res == Ok::<i64, AppError>(t.user_id)
            },
            None => res matches Err(e) && e is Unauthorized,
        },
{
    match stored {
        None => Err(unauthorized("refresh token not found")),
        Some(t) => if t.revoked {
            Err(unauthorized("refresh token revoked"))
        } else {
            Ok(t.user_id)
        },
    }
}

/// 401 when no user has the id.
pub fn require_user(user: Option<User>) -> (res: Result<User, AppError>)
    ensures
        match user {
            Some(u) => res == Ok::<User, AppError>(u),
            None => res matches Err(e) && e is Unauthorized,
        },
{
    match user {
        Some(u) => Ok(u),
        None => Err(unauthorized("user not found")),
    }
}

/// Whether logout revokes a refresh token whose claims decoded (`Some`) with
/// this type: only a token of the refresh type is revoked; garbage is ignored.
pub fn logout_revokes(decoded_type: Option<&str>) -> (res: bool)
    ensures
        res == (decoded_type matches Some(t) && t@ == refresh_token_type()),
{
    proof {
        reveal_strlit("refresh");
    }
    assert("refresh"@ =~= refresh_token_type());
    match decoded_type {
        Some(t) => str_eq(t, "refresh"),
        None => false,
    }
}

/// `DateTime::<Utc>::from_timestamp(secs, 0)`, kept as its timestamp. The
/// source refuses timestamps outside some 262,000 years around the epoch;
/// claimed: a timestamp that comes back is `secs`, and every timestamp within
/// 8 * 10^12 seconds of the epoch comes back.
#[verifier::external_body]
fn datetime_from_timestamp(secs: i64) -> (res: Option<i64>)
    ensures
        res matches Some(t) ==> t == secs,
        -8_000_000_000_000 <= secs <= 8_000_000_000_000 ==> res is Some,
{
    chrono::DateTime::<chrono::Utc>::from_timestamp(secs, 0).map(|d| d.timestamp())
}

/// Until when a logged-out access token stays denylisted: its expiry, or `now`
/// when the expiry is no representable instant.
pub fn access_token_expiry(exp: usize, now: i64) -> (res: i64)
    ensures
        res == exp as i64 || res == now,
        -8_000_000_000_000 <= exp as i64 <= 8_000_000_000_000 ==> res == exp as i64,
{
    match datetime_from_timestamp(exp as i64) {
        Some(t) => t,
        None => now,
    }
}

/// The user whose `tokens_valid_from` the revocation check looks up once the
/// denylist answered `denylisted`: none for a denylisted token (it is revoked
/// already) or a subject that names no user.
pub fn epoch_lookup_user(denylisted: bool, sub: &str) -> (res: Option<i64>)
    ensures
        denylisted ==> res is None,
        !denylisted ==> res == subject_user_id_spec(sub@),
{
    if denylisted {
        None
    } else {
        subject_user_id(sub)
    }
}

/// Whether an access token is revoked: its `jti` is denylisted (logout), or it
/// was issued before the user's `tokens_valid_from` (scope change).
pub open spec fn revoked_spec(denylisted: bool, valid_from: Option<i64>, iat: usize) -> bool {
    denylisted || (valid_from matches Some(v) && (iat as i64) < v)
}

/// Whether an access token is revoked, given whether its `jti` is denylisted
/// and the `tokens_valid_from` of the user its subject names (if any).
pub fn revocation_verdict(denylisted: bool, valid_from: Option<i64>, iat: usize) -> (res: bool)
    ensures
        res == revoked_spec(denylisted, valid_from, iat),
        denylisted ==> res,
        (valid_from matches Some(v) && (iat as i64) < v) ==> res,
        !denylisted && (valid_from is None || (valid_from matches Some(v) && (iat as i64) >= v))
            ==> !res,
{
    if denylisted {
        return true;
    }
    match valid_from {
        Some(v) => (iat as i64) < v,
        None => false,
    }
}

/// A denylisted token stays revoked whatever the user's epoch; a token issued
/// before the user's epoch is revoked, however long before; a token issued at
/// or after the epoch and not denylisted is live.
pub proof fn law_revocation(denylisted: bool, valid_from: Option<i64>, iat: usize)
    ensures
        denylisted ==> revoked_spec(denylisted, valid_from, iat),
        !denylisted && valid_from is None ==> !revoked_spec(denylisted, valid_from, iat),
        !denylisted && (valid_from matches Some(v) && (iat as i64) >= v) ==> !revoked_spec(
            denylisted,
            valid_from,
            iat,
        ),
        (valid_from matches Some(v) && (iat as i64) < v) ==> revoked_spec(
            denylisted,
            valid_from,
            iat,
        ),
{
}

} // verus!
