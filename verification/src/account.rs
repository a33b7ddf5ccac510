//! The account domain: who may read an account, and the account created for a
//! newly registered user.
use vstd::prelude::*;
use crate::claims::{
    subject_user_id, subject_user_id_spec, user_subject, user_subject_spec, AccessClaims,
    lemma_subject_roundtrip,
};
use crate::error::{forbidden, not_found, unauthorized, AppError};
use crate::scopes::{admin_scope, read_own_accounts_scope};
use crate::text::{contains_str, str_eq};

verus! {

/// An account.
pub struct Account {
    pub id: i64,
    pub email: String,
    pub name: String,
    pub auth_user_id: i64,
    pub created_at: i64,
    pub created_by_cid: String,
}

/// The fields of an account to insert.
pub struct NewAccount {
    pub email: String,
    pub name: String,
    pub auth_user_id: i64,
}

/// The payload of `user.registered`.
pub struct UserRegistered {
    pub auth_user_id: i64,
    pub email: String,
}

/// Owner-or-admin: an admin token reads any account; a token with the
/// `read:accounts:own` scope reads the account of the user it names.
pub open spec fn can_access_spec(claims: AccessClaims, account: Account) -> bool {
    claims.grants(admin_scope()) || (claims.grants(read_own_accounts_scope()) && claims.sub@
        == user_subject_spec(account.auth_user_id as int))
}

/// Whether `claims` may read `account`.
pub fn can_access(claims: &AccessClaims, account: &Account) -> (res: bool)
    ensures
        res == can_access_spec(*claims, *account),
        claims.grants(admin_scope()) ==> res,
        !claims.grants(admin_scope()) ==> (res <==> claims.grants(read_own_accounts_scope())
            && claims.sub@ == user_subject_spec(account.auth_user_id as int)),
        !claims.grants(admin_scope()) && !claims.grants(read_own_accounts_scope()) ==> !res,
{
    proof {
        reveal_strlit("admin");
        reveal_strlit("read:accounts:own");
    }
    assert("admin"@ =~= admin_scope());
    assert("read:accounts:own"@ =~= read_own_accounts_scope());
    if claims.has_scope("admin") {
        return true;
    }
    if !claims.has_scope("read:accounts:own") {
        return false;
    }
    let owner = user_subject(account.auth_user_id);
    str_eq(claims.sub.as_str(), owner.as_str())
}

/// 403 unless `claims` may read `account`.
pub fn authorize(claims: &AccessClaims, account: &Account) -> (res: Result<(), AppError>)
    ensures
        can_access_spec(*claims, *account) ==> res is Ok,
        !can_access_spec(*claims, *account) ==> (res matches Err(e) && e is Forbidden),
{
    if can_access(claims, account) {
        Ok(())
    } else {
        Err(forbidden("not allowed to access this account"))
    }
}

/// 403 unless `claims` grants `scope`.
pub fn require_scope(claims: &AccessClaims, scope: &str) -> (res: Result<(), AppError>)
    ensures
        claims.grants(scope@) ==> res is Ok,
        !claims.grants(scope@) ==> (res matches Err(e) && e is Forbidden),
{
    if claims.has_scope(scope) {
        Ok(())
    } else {
        Err(forbidden("missing scope"))
    }
}

/// The user id a token subject names (`user-<id>`).
pub fn auth_user_id_from_sub(sub: &str) -> (res: Option<i64>)
    ensures
        res == subject_user_id_spec(sub@),
{
    subject_user_id(sub)
}

/// The account owner named by the caller's token; 401 for a subject that names no user.
pub fn caller_user_id(claims: &AccessClaims) -> (res: Result<i64, AppError>)
    ensures
        match subject_user_id_spec(claims.sub@) {
            Some(id) => res == Ok::<i64, AppError>(id),
            None => res matches Err(e) && e is Unauthorized,
        },
{
    match auth_user_id_from_sub(claims.sub.as_str()) {
        Some(id) => Ok(id),
        None => Err(unauthorized("invalid subject")),
    }
}

/// The account found, or 404 with `msg`.
pub fn require_account(found: Option<Account>, msg: &str) -> (res: Result<Account, AppError>)
    ensures
        match found {
            Some(a) => res == Ok::<Account, AppError>(a),
            None => res matches Err(e) && e is NotFound,
        },
{
    match found {
        Some(a) => Ok(a),
        None => Err(not_found(msg)),
    }
}

/// The account to create for a newly registered user: named by its e-mail.
pub fn account_for_registration(event: UserRegistered) -> (res: NewAccount)
    ensures
        res.email@ == event.email@,
        res.name@ == event.email@,
        res.auth_user_id == event.auth_user_id,
{
    NewAccount { email: event.email.clone(), name: event.email, auth_user_id: event.auth_user_id }
}

/// Different users have different subjects.
proof fn lemma_user_subject_injective(a: i64, b: i64)
    requires
        user_subject_spec(a as int) == user_subject_spec(b as int),
    ensures
        a == b,
{
    lemma_subject_roundtrip(a);
    lemma_subject_roundtrip(b);
}

/// The owner of an account, holding a token with the own-accounts scope issued
/// for them, may read it; a token naming another user, without `admin`, may
/// not; and a token with neither `admin` nor the own-accounts scope reads no
/// account at all.
pub proof fn law_owner_or_admin(claims: AccessClaims, account: Account, user_id: i64)
    requires
        claims.sub@ == user_subject_spec(user_id as int),
    ensures
        user_id == account.auth_user_id && claims.grants(read_own_accounts_scope())
            ==> can_access_spec(claims, account),
        user_id != account.auth_user_id && !claims.grants(admin_scope()) ==> !can_access_spec(
            claims,
            account,
        ),
        claims.grants(admin_scope()) ==> can_access_spec(claims, account),
        !claims.grants(admin_scope()) && !claims.grants(read_own_accounts_scope())
            ==> !can_access_spec(claims, account),
{
    if user_id != account.auth_user_id && claims.sub@ == user_subject_spec(
        account.auth_user_id as int,
    ) {
        lemma_user_subject_injective(user_id, account.auth_user_id);
    }
}

} // verus!
