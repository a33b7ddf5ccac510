//! Time-based one-time passwords (RFC 6238) as the second factor, through the
//! `totp_rs` crate: SHA-1, 6 digits, 30-second steps, one step of skew.
use vstd::prelude::*;
use crate::error::{internal, AppError};
use crate::text::has_prefix;
use totp_rs::{Algorithm, Secret, TOTP};

verus! {

/// The HMAC of a TOTP.
#[derive(Clone, Copy, PartialEq, Eq, Structural, Debug)]
pub enum TotpAlgorithm {
    Sha1,
    Sha256,
    Sha512,
}

/// The parameters of a TOTP, as `totp_rs::TOTP` holds them.
pub struct Totp {
    pub algorithm: TotpAlgorithm,
    pub digits: usize,
    pub skew: u8,
    pub step: u64,
    pub secret: Vec<u8>,
    pub issuer: Option<String>,
    pub account_name: String,
}

/// The view of an optional string.
pub open spec fn opt_view(s: Option<String>) -> Option<Seq<char>> {
    match s {
        Some(x) => Some(x@),
        None => None,
    }
}

/// Whether `c` belongs to the RFC 4648 base32 alphabet.
pub open spec fn is_base32_char(c: char) -> bool {
    ('A' <= c && c <= 'Z') || ('2' <= c && c <= '7')
}

/// What base32 decoding (RFC 4648, no padding) of `s` gives, `None` when `s`
/// is not valid base32. It depends on `s` alone.
pub uninterp spec fn base32_decoded(s: Seq<char>) -> Option<Seq<u8>>;

/// The code of a TOTP for counter `counter` (the time divided by the step).
/// It depends on its arguments alone.
pub uninterp spec fn totp_counter_code(
    algorithm: TotpAlgorithm,
    digits: usize,
    secret: Seq<u8>,
    counter: u64,
) -> Seq<char>;

/// The `otpauth://` provisioning URL of a TOTP. It depends on its arguments alone.
pub uninterp spec fn totp_url(
    algorithm: TotpAlgorithm,
    digits: usize,
    step: u64,
    secret: Seq<u8>,
    issuer: Option<Seq<char>>,
    account_name: Seq<char>,
) -> Seq<char>;

/// `otpauth://totp/`.
pub open spec fn otpauth_totp_prefix() -> Seq<char> {
    seq!['o', 't', 'p', 'a', 'u', 't', 'h', ':', '/', '/', 't', 'o', 't', 'p', '/']
}

/// Whether `TOTP::new` accepts these parameters: 6 to 8 digits, a secret of at
/// least 128 bits, and no `:` in the issuer or the account name.
pub open spec fn totp_params_valid(
    digits: usize,
    secret: Seq<u8>,
    issuer: Option<Seq<char>>,
    account_name: Seq<char>,
) -> bool {
    &&& 6 <= digits <= 8
    &&& secret.len() >= 16
    &&& match issuer {
        Some(i) => !i.contains(':'),
        None => true,
    }
    &&& !account_name.contains(':')
}

/// Whether `s` is 32 base32 characters that decode to 20 bytes.
pub open spec fn is_generated_secret(s: Seq<char>) -> bool {
    &&& s.len() == 32
    &&& forall|i: int| 0 <= i < s.len() ==> is_base32_char(#[trigger] s[i])
    &&& base32_decoded(s) matches Some(b) && b.len() == 20
}

/// Whether `token` is the code of one of the counters from `time / step - skew`
/// to `time / step + skew`.
pub open spec fn check_spec(t: &Totp, token: Seq<char>, time: u64) -> bool {
    exists|i: int|
        0 <= i <= 2 * t.skew && #[trigger] totp_counter_code(
            t.algorithm,
            t.digits,
            t.secret@,
            (time / t.step - t.skew + i) as u64,
        ) == token
}

/// `Secret::generate_secret().to_encoded()` as a string: 20 random bytes in
/// base32 without padding. Claimed: 32 characters of the base32 alphabet that
/// decode back to 20 bytes; nothing of their value.
#[verifier::external_body]
pub(crate) fn generate_base32_secret() -> (res: String)
    ensures
        is_generated_secret(res@),
{
    Secret::generate_secret().to_encoded().to_string()
}

/// `Secret::Encoded(s).to_bytes()`: base32 decoding, its error turned into `None`.
#[verifier::external_body]
fn decode_base32_secret(s: &str) -> (res: Option<Vec<u8>>)
    ensures
        match base32_decoded(s@) {
            Some(b) => res matches Some(r) && r@ == b,
            None => res is None,
        },
{
    Secret::Encoded(s.to_string()).to_bytes().ok()
}

/// Whether `TOTP::new` accepts the parameters (the source checks exactly
/// the digit count, the secret length and the `:` in issuer and account).
#[verifier::external_body]
fn totp_new_accepts(
    algorithm: TotpAlgorithm,
    digits: usize,
    skew: u8,
    step: u64,
    secret: &[u8],
    issuer: &Option<String>,
    account_name: &str,
) -> (res: bool)
    ensures
        res == totp_params_valid(digits, secret@, opt_view(*issuer), account_name@),
{
    let alg = match algorithm {
        TotpAlgorithm::Sha1 => Algorithm::SHA1,
        TotpAlgorithm::Sha256 => Algorithm::SHA256,
        TotpAlgorithm::Sha512 => Algorithm::SHA512,
    };
    TOTP::new(alg, digits, skew, step, secret.to_vec(), issuer.clone(), account_name.to_string()).is_ok()
}

/// `TOTP::generate(time)`: the code of counter `time / step`, zero-padded to
/// `digits` characters. The source divides by the step and raises 10 to the
/// number of digits in `u32`, so the step is positive and the digits at most
/// nine; with no digit at all it would still write one, so at least one.
#[verifier::external_body]
fn totp_generate(t: &Totp, time: u64) -> (res: String)
    requires
        t.step > 0,
        1 <= t.digits <= 9,
    ensures
        res@ == totp_counter_code(t.algorithm, t.digits, t.secret@, time / t.step),
        res@.len() == t.digits,
{
    let totp = TOTP {
        algorithm: match t.algorithm {
            TotpAlgorithm::Sha1 => Algorithm::SHA1,
            TotpAlgorithm::Sha256 => Algorithm::SHA256,
            TotpAlgorithm::Sha512 => Algorithm::SHA512,
        },
        digits: t.digits,
        skew: t.skew,
        step: t.step,
        secret: t.secret.clone(),
        issuer: t.issuer.clone(),
        account_name: t.account_name.clone(),
    };
    totp.generate(time)
}

/// `TOTP::check(token, time)`: true when `token` is the code of one of the
/// counters from `time / step - skew` to `time / step + skew`. The source
/// subtracts the skew from the counter and multiplies back by the step in
/// `u64`, so neither may overflow.
#[verifier::external_body]
fn totp_check(t: &Totp, token: &str, time: u64) -> (res: bool)
    requires
        t.step > 0,
        1 <= t.digits <= 9,
        time / t.step >= t.skew,
        (time / t.step + t.skew) * t.step <= u64::MAX,
    ensures
        res == check_spec(t, token@, time),
{
    let totp = TOTP {
        algorithm: match t.algorithm {
            TotpAlgorithm::Sha1 => Algorithm::SHA1,
            TotpAlgorithm::Sha256 => Algorithm::SHA256,
            TotpAlgorithm::Sha512 => Algorithm::SHA512,
        },
        digits: t.digits,
        skew: t.skew,
        step: t.step,
        secret: t.secret.clone(),
        issuer: t.issuer.clone(),
        account_name: t.account_name.clone(),
    };
    totp.check(token, time)
}

/// `TOTP::get_url()`: the provisioning URL, which for these algorithms starts
/// with `otpauth://totp/`.
#[verifier::external_body]
fn totp_get_url(t: &Totp) -> (res: String)
    ensures
        res@ == totp_url(
            t.algorithm,
            t.digits,
            t.step,
            t.secret@,
            opt_view(t.issuer),
            t.account_name@,
        ),
        has_prefix(res@, otpauth_totp_prefix()),
{
    let totp = TOTP {
        algorithm: match t.algorithm {
            TotpAlgorithm::Sha1 => Algorithm::SHA1,
            TotpAlgorithm::Sha256 => Algorithm::SHA256,
            TotpAlgorithm::Sha512 => Algorithm::SHA512,
        },
        digits: t.digits,
        skew: t.skew,
        step: t.step,
        secret: t.secret.clone(),
        issuer: t.issuer.clone(),
        account_name: t.account_name.clone(),
    };
    totp.get_url()
}

/// The digits of the codes used here.
pub const TOTP_DIGITS: usize = 6;
/// The steps of clock drift accepted on either side.
pub const TOTP_SKEW: u8 = 1;
/// The step length in seconds.
pub const TOTP_STEP: u64 = 30;

/// The secret bytes a base32 secret stands for, when it makes a valid TOTP
/// with this issuer and account.
pub open spec fn totp_secret_for(issuer: Seq<char>, secret_base32: Seq<char>, account: Seq<char>) -> Option<
    Seq<u8>,
> {
    match base32_decoded(secret_base32) {
        Some(b) => if totp_params_valid(TOTP_DIGITS, b, Some(issuer), account) {
            Some(b)
        } else {
            None
        },
        None => None,
    }
}

/// The code at time `now` for the secret bytes `secret`.
pub open spec fn code_at(secret: Seq<u8>, now: u64) -> Seq<char> {
    totp_counter_code(TotpAlgorithm::Sha1, TOTP_DIGITS, secret, now / TOTP_STEP)
}

/// Whether `code` is accepted at `now` for `secret`: it is the code of the
/// current step, the one before or the one after.
pub open spec fn code_accepted(secret: Seq<u8>, code: Seq<char>, now: u64) -> bool {
    exists|i: int|
        0 <= i <= 2 * TOTP_SKEW && #[trigger] totp_counter_code(
            TotpAlgorithm::Sha1,
            TOTP_DIGITS,
            secret,
            (now / TOTP_STEP - TOTP_SKEW + i) as u64,
        ) == code
}

/// The timestamps at which a code can be checked: at least one step after the
/// epoch, and far enough from the end of `u64` for the step after.
pub open spec fn checkable_time(now: u64) -> bool {
    now / TOTP_STEP >= TOTP_SKEW && (now / TOTP_STEP + TOTP_SKEW) * TOTP_STEP <= u64::MAX
}

/// `verify`, the account name used when checking codes.
pub open spec fn verify_account() -> Seq<char> {
    seq!['v', 'e', 'r', 'i', 'f', 'y']
}

/// `test`, the account name used when deriving the current code.
pub open spec fn test_account() -> Seq<char> {
    seq!['t', 'e', 's', 't']
}

/// A pluggable second-factor verifier. TOTP is the one kind here; others can be
/// added, keyed by the factor's type.
pub trait FactorVerifier {
    /// A fresh secret to enrol.
    fn generate_secret(&self) -> String;

    /// The URL an authenticator app scans to enrol the secret.
    fn provisioning_uri(&self, secret_base32: &str, account: &str) -> Result<String, AppError>;

    /// Whether `code` is a valid second factor for the secret at `now` (seconds).
    fn verify(&self, secret_base32: &str, code: &str, now: i64) -> bool
        requires
            checkable_time(now as u64),
    ;
}

/// The TOTP second factor, issued under `issuer`.
pub struct TotpVerifier {
    issuer: String,
}

impl TotpVerifier {
    /// The issuer shown by authenticator apps.
    pub closed spec fn issuer(&self) -> Seq<char> {
        self.issuer@
    }

    /// A verifier that issues under `issuer`.
    pub fn new(issuer: String) -> (res: TotpVerifier)
        ensures
            res.issuer() == issuer@,
    {
        TotpVerifier { issuer }
    }

    /// The TOTP of a base32 secret for `account`.
    fn totp(&self, secret_base32: &str, account: &str) -> (res: Result<Totp, AppError>)
        ensures
            match totp_secret_for(self.issuer(), secret_base32@, account@) {
                Some(b) => res matches Ok(t) && {
                    &&& t.algorithm == TotpAlgorithm::Sha1
                    &&& t.digits == TOTP_DIGITS
                    &&& t.skew == TOTP_SKEW
                    &&& t.step == TOTP_STEP
                    &&& t.secret@ == b
                    &&& opt_view(t.issuer) == Some(self.issuer())
                    &&& t.account_name@ == account@
                },
                None => res matches Err(e) && e is Internal,
            },
    {
        let bytes = match decode_base32_secret(secret_base32) {
            Some(b) => b,
            None => return Err(internal("bad totp secret")),
        };
        let issuer = Some(self.issuer.clone());
        if !totp_new_accepts(
            TotpAlgorithm::Sha1,
            TOTP_DIGITS,
            TOTP_SKEW,
            TOTP_STEP,
            bytes.as_slice(),
            &issuer,
            account,
        ) {
            return Err(internal("totp init"));
        }
        Ok(
            Totp {
                algorithm: TotpAlgorithm::Sha1,
                digits: TOTP_DIGITS,
                skew: TOTP_SKEW,
                step: TOTP_STEP,
                secret: bytes,
                issuer,
                account_name: account.to_owned(),
            },
        )
    }

    /// The code a device holding the secret shows at `now` (seconds).
    pub fn current_code(&self, secret_base32: &str, now: i64) -> (res: Result<String, AppError>)
        ensures
            match totp_secret_for(self.issuer(), secret_base32@, test_account()) {
                Some(b) => res matches Ok(c) && c@ == code_at(b, now as u64),
                None => res matches Err(e) && e is Internal,
            },
    {
        proof {
            reveal_strlit("test");
        }
        assert("test"@ =~= test_account());
        let totp = self.totp(secret_base32, "test")?;
        Ok(totp_generate(&totp, now as u64))
    }
}

impl FactorVerifier for TotpVerifier {
    fn generate_secret(&self) -> (res: String)
        ensures
            is_generated_secret(res@),
    {
        generate_base32_secret()
    }

    fn provisioning_uri(&self, secret_base32: &str, account: &str) -> (res: Result<String, AppError>)
        ensures
            match totp_secret_for(self.issuer(), secret_base32@, account@) {
                Some(b) => res matches Ok(u) && u@ == totp_url(
                    TotpAlgorithm::Sha1,
                    TOTP_DIGITS,
                    TOTP_STEP,
                    b,
                    Some(self.issuer()),
                    account@,
                ) && has_prefix(u@, otpauth_totp_prefix()),
                None => res matches Err(e) && e is Internal,
            },
    {
        let totp = self.totp(secret_base32, account)?;
        Ok(totp_get_url(&totp))
    }

    fn verify(&self, secret_base32: &str, code: &str, now: i64) -> (res: bool)
        ensures
            res == match totp_secret_for(self.issuer(), secret_base32@, verify_account()) {
                Some(b) => code_accepted(b, code@, now as u64),
                None => false,
            },
    {
        proof {
            reveal_strlit("verify");
        }
        assert("verify"@ =~= verify_account());
        match self.totp(secret_base32, "verify") {
            Ok(totp) => totp_check(&totp, code, now as u64),
            Err(_) => false,
        }
    }
}

/// The code a device shows at `now` is accepted at `now`.
pub proof fn law_current_code_verifies(
    issuer: Seq<char>,
    secret_base32: Seq<char>,
    now: u64,
)
    requires
        checkable_time(now),
    ensures
        totp_secret_for(issuer, secret_base32, test_account()) matches Some(b) ==> (
        totp_secret_for(issuer, secret_base32, verify_account()) == Some(b) && code_accepted(
            b,
            code_at(b, now),
            now,
        )),
{
    if let Some(b) = totp_secret_for(issuer, secret_base32, test_account()) {
        assert(!verify_account().contains(':')) by {
            assert(forall|i: int| 0 <= i < verify_account().len() ==> verify_account()[i] != ':');
        }
        let i: int = TOTP_SKEW as int;
        assert(((now / TOTP_STEP - TOTP_SKEW + i) as u64) == now / TOTP_STEP);
        assert(totp_counter_code(
            TotpAlgorithm::Sha1,
            TOTP_DIGITS,
            b,
            (now / TOTP_STEP - TOTP_SKEW + i) as u64,
        ) == code_at(b, now));
    }
}

/// A freshly generated secret always makes a usable TOTP for any issuer and
/// account free of `:`.
pub proof fn law_generated_secret_usable(issuer: Seq<char>, secret_base32: Seq<char>, account: Seq<char>)
    requires
        base32_decoded(secret_base32) matches Some(b) && b.len() == 20,
        !issuer.contains(':'),
        !account.contains(':'),
    ensures
        totp_secret_for(issuer, secret_base32, account) is Some,
{
}

} // verus!
