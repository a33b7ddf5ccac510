//! Password hashing with bcrypt, and the credential check of login.
use vstd::prelude::*;
use vstd::utf8::encode_utf8;
use crate::decimal::digit_char;
use crate::error::{internal, unauthorized, AppError};

verus! {

#[verifier::external_type_specification]
#[verifier::external_body]
pub struct ExBcryptError(bcrypt::BcryptError);

/// What `bcrypt::verify(password, hash)` answers: `Some(b)` for `Ok(b)`,
/// `None` for an error (a malformed hash). It depends on its arguments alone.
pub uninterp spec fn bcrypt_verify_result(password: Seq<char>, hash: Seq<char>) -> Option<bool>;

/// The shape of a bcrypt hash of cost `cost` (4 to 31) as `bcrypt::hash`
/// writes it: `$2b$`, the cost in two digits, `$`, then 22 characters of salt
/// and 31 of hash, 60 in all.
pub open spec fn bcrypt_hash_shape(h: Seq<char>, cost: u32) -> bool {
    &&& h.len() == 60
    &&& h.take(4) == seq!['$', '2', 'b', '$']
    &&& h[4] == digit_char(cost as int / 10)
    &&& h[5] == digit_char(cost as int % 10)
    &&& h[6] == '$'
}

/// `bcrypt::hash(plaintext, cost)`. The salt is random, so the hash itself is
/// left unsaid; what is claimed: a cost outside 4..=31 is refused; a hash that
/// comes back has the `$2b$<cost>$` shape of 60 characters (`format_for_version`
/// with version 2b, the salt and the 23 hash bytes in bcrypt's base64) and
/// verifies for the same plaintext (bcrypt re-hashes the plaintext with the
/// salt and cost read from the hash and compares).
#[verifier::external_body]
fn bcrypt_hash(plaintext: &str, cost: u32) -> (res: Result<String, bcrypt::BcryptError>)
    ensures
        !(4 <= cost && cost <= 31) ==> res is Err,
        res matches Ok(h) ==> bcrypt_hash_shape(h@, cost),
        res matches Ok(h) ==> bcrypt_verify_result(plaintext@, h@) == Some(true),
{
    bcrypt::hash(plaintext, cost)
}

/// Whether `hash` cannot be a bcrypt hash at all: `split_hash` wants three
/// `$`-separated parts, the last of 53 bytes, after a two-character prefix and
/// a cost, so a hash without `$` or of fewer than 58 UTF-8 bytes is refused.
pub open spec fn malformed_hash(hash: Seq<char>) -> bool {
    !hash.contains('$') || encode_utf8(hash).len() < 58
}

/// `bcrypt::verify(plaintext, hash)`, its error turned into `None`; a hash that
/// `split_hash` refuses (see `malformed_hash`) gives an error.
#[verifier::external_body]
fn bcrypt_verify(plaintext: &str, hash: &str) -> (res: Option<bool>)
    ensures
        res == bcrypt_verify_result(plaintext@, hash@),
        malformed_hash(hash@) ==> res is None,
{
    bcrypt::verify(plaintext, hash).ok()
}

/// Whether `plaintext` matches the stored bcrypt `hash`; false for a malformed hash.
pub open spec fn password_matches(hash: Seq<char>, plaintext: Seq<char>) -> bool {
    bcrypt_verify_result(plaintext, hash) == Some(true)
}

/// The bcrypt cost factor of stored passwords.
pub const BCRYPT_COST: u32 = 12;

/// `$2b$12$`, the start of every stored password hash.
pub open spec fn cost12_prefix() -> Seq<char> {
    seq!['$', '2', 'b', '$', '1', '2', '$']
}

/// Hashes a plaintext password with bcrypt (cost factor 12).
pub fn hash_password(plaintext: &str) -> (res: Result<String, AppError>)
    ensures
        res matches Ok(h) ==> password_matches(h@, plaintext@),
        res matches Ok(h) ==> h@.len() == 60 && h@.take(7) == cost12_prefix(),
        res matches Err(e) ==> e is Internal,
{
    match bcrypt_hash(plaintext, BCRYPT_COST) {
        Ok(h) => {
            assert(h@.take(7) =~= cost12_prefix()) by {
                assert(h@.take(4) =~= seq!['$', '2', 'b', '$']);
                assert(h@.take(7)[0] == h@.take(4)[0]);
                assert(h@.take(7)[1] == h@.take(4)[1]);
                assert(h@.take(7)[2] == h@.take(4)[2]);
                assert(h@.take(7)[3] == h@.take(4)[3]);
            }
            Ok(h)
        },
        Err(_) => Err(internal("password hashing failed")),
    }
}

/// Verifies a plaintext password against a stored bcrypt hash.
/// Returns false on any error (malformed hash, mismatch).
pub fn verify_password(stored_hash: &str, plaintext: &str) -> (res: bool)
    ensures
        res == password_matches(stored_hash@, plaintext@),
        malformed_hash(stored_hash@) ==> !res,
{
    match bcrypt_verify(plaintext, stored_hash) {
        Some(b) => b,
        None => false,
    }
}

/// A registered user.
pub struct User {
    pub id: i64,
    pub email: String,
    pub password_hash: String,
    /// Access tokens issued before this instant (seconds) are revoked.
    pub tokens_valid_from: i64,
    pub created_at: i64,
    pub created_by_cid: String,
}

/// The fields of a user to insert.
pub struct NewUser {
    pub email: String,
    pub password_hash: String,
}

/// A bcrypt hash of a throwaway value, verified on the "user not found" path so
/// that it takes about as long as the real-user path.
pub const DUMMY_HASH: &'static str = "$2b$12$C6UzMDM.H6dfI/f/IKcEeO3.9I8H8sJ8q8sJ8q8sJ8q8sJ8q8sJ8";

/// `invalid credentials`.
pub open spec fn invalid_credentials_msg() -> Seq<char> {
    seq!['i', 'n', 'v', 'a', 'l', 'i', 'd', ' ', 'c', 'r', 'e', 'd', 'e', 'n', 't', 'i', 'a', 'l', 's']
}

/// The one answer to a failed login, whether the user is unknown or the
/// password wrong: 401 `invalid credentials`.
pub open spec fn is_invalid_credentials(e: AppError) -> bool {
    e matches AppError::Unauthorized(m) && m@ == invalid_credentials_msg()
}

/// Verifies credentials: the user when the password matches its hash, the
/// same 401 otherwise.
pub fn check_credentials<'a>(user: Option<&'a User>, password: &str) -> (res: Result<
    &'a User,
    AppError,
>)
    ensures
        match user {
            Some(u) => if password_matches(u.password_hash@, password@) {
                res == Ok::<&User, AppError>(u)
            } else {
                res matches Err(e) && is_invalid_credentials(e)
            },
            None => res matches Err(e) && is_invalid_credentials(e),
        },
{
    proof {
        reveal_strlit("invalid credentials");
    }
    assert("invalid credentials"@ =~= invalid_credentials_msg());
    match user {
        Some(u) => {
            if verify_password(u.password_hash.as_str(), password) {
                Ok(u)
            } else {
                Err(unauthorized("invalid credentials"))
            }
        },
        None => {
            let _ = verify_password(DUMMY_HASH, password);
            Err(unauthorized("invalid credentials"))
        },
    }
}

} // verus!
