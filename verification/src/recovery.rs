//! Single-use recovery codes: ten codes `xxxxx-xxxxx` of lowercase base32
//! characters, stored as bcrypt hashes.
use vstd::prelude::*;
use crate::error::AppError;
use crate::password::{cost12_prefix, hash_password, malformed_hash, password_matches, verify_password};
use crate::text::owned;
use crate::totp::{generate_base32_secret, is_base32_char, is_generated_secret};

verus! {

/// The number of recovery codes issued at a time.
pub const RECOVERY_CODE_COUNT: usize = 10;

/// `c` with ASCII letters `A` to `Z` mapped to `a` to `z`.
pub open spec fn ascii_lower(c: char) -> char {
    if 'A' <= c && c <= 'Z' {
        ((c as int) + 32) as char
    } else {
        c
    }
}

/// Whether `c` is a lowercase base32 character: `a` to `z` or `2` to `7`.
pub open spec fn is_lower_base32_char(c: char) -> bool {
    ('a' <= c && c <= 'z') || ('2' <= c && c <= '7')
}

/// The recovery code cut from a base32 secret: its first ten characters,
/// lowercased, with a `-` after the fifth.
pub open spec fn recovery_code_spec(raw: Seq<char>) -> Seq<char> {
    raw.take(5).map_values(|c: char| ascii_lower(c)) + seq!['-'] + raw.subrange(5, 10).map_values(
        |c: char| ascii_lower(c),
    )
}

/// Whether `code` has the shape of a recovery code: eleven characters,
/// lowercase base32 around a `-` in the middle.
pub open spec fn is_recovery_code_shape(code: Seq<char>) -> bool {
    &&& code.len() == 11
    &&& code[5] == '-'
    &&& forall|i: int| 0 <= i < 11 && i != 5 ==> is_lower_base32_char(#[trigger] code[i])
}

/// `str::to_ascii_lowercase`: each ASCII letter `A` to `Z` mapped to `a` to
/// `z`, every other character unchanged (as its documentation says).
#[verifier::external_body]
fn to_ascii_lowercase(s: &str) -> (res: String)
    ensures
        res@ == s@.map_values(|c: char| ascii_lower(c)),
{
    s.to_ascii_lowercase()
}

/// The recovery code cut from a generated base32 secret.
pub fn format_recovery_code(raw: &str) -> (res: String)
    requires
        raw@.len() >= 10,
        forall|i: int| 0 <= i < raw@.len() ==> is_base32_char(#[trigger] raw@[i]),
    ensures
        res@ == recovery_code_spec(raw@),
        is_recovery_code_shape(res@),
{
    let lower = to_ascii_lowercase(raw);
    let head = lower.as_str().substring_char(0, 5);
    let tail = lower.as_str().substring_char(5, 10);
    let mut code = owned(head);
    proof {
        reveal_strlit("-");
    }
    code.append("-");
    code.append(tail);
    assert(code@ =~= recovery_code_spec(raw@));
    assert forall|i: int| 0 <= i < 11 && i != 5 implies is_lower_base32_char(#[trigger] code@[i]) by {
        if i < 5 {
            assert(code@[i] == ascii_lower(raw@[i]));
            assert(is_base32_char(raw@[i]));
        } else {
            assert(code@[i] == ascii_lower(raw@[i - 1]));
            assert(is_base32_char(raw@[i - 1]));
        }
    }
    code
}

/// Whether `code` is the recovery code formatted from a freshly generated
/// base32 secret.
pub open spec fn from_generated_secret(code: Seq<char>) -> bool {
    exists|raw: Seq<char>| is_generated_secret(raw) && code == recovery_code_spec(raw)
}

/// Ten fresh recovery codes `xxxxx-xxxxx` (lowercase base32, no padding), each
/// formatted from a freshly generated secret. The secrets are random, so which
/// codes come out is left unsaid.
pub fn generate_recovery_codes() -> (res: Vec<String>)
    ensures
        res@.len() == RECOVERY_CODE_COUNT,
        forall|i: int| 0 <= i < res@.len() ==> is_recovery_code_shape(#[trigger] res@[i]@),
        forall|i: int| 0 <= i < res@.len() ==> from_generated_secret(#[trigger] res@[i]@),
{
    let mut codes: Vec<String> = Vec::new();
    let mut n: usize = 0;
    while n < RECOVERY_CODE_COUNT
        invariant
            0 <= n <= RECOVERY_CODE_COUNT,
            codes@.len() == n,
            forall|i: int| 0 <= i < codes@.len() ==> is_recovery_code_shape(#[trigger] codes@[i]@),
            forall|i: int| 0 <= i < codes@.len() ==> from_generated_secret(#[trigger] codes@[i]@),
        decreases RECOVERY_CODE_COUNT - n,
    {
        let raw = generate_base32_secret();
        assert(is_generated_secret(raw@));
        let code = format_recovery_code(raw.as_str());
        let ghost before = codes@;
        codes.push(code);
        assert forall|i: int| 0 <= i < codes@.len() implies from_generated_secret(
            #[trigger] codes@[i]@,
        ) by {
            if i < before.len() {
                assert(codes@[i] == before[i]);
            } else {
                assert(is_generated_secret(raw@) && codes@[i]@ == recovery_code_spec(raw@));
            }
        }
        n = n + 1;
    }
    codes
}

/// Hashes a recovery code for storage, as passwords are hashed.
pub fn hash_recovery_code(code: &str) -> (res: Result<String, AppError>)
    ensures
        res matches Ok(h) ==> password_matches(h@, code@),
        res matches Ok(h) ==> h@.len() == 60 && h@.take(7) == cost12_prefix(),
        res matches Err(e) ==> e is Internal,
{
    hash_password(code)
}

/// Whether `code` matches a stored recovery-code hash.
pub fn verify_recovery_code(hash: &str, code: &str) -> (res: bool)
    ensures
        res == password_matches(hash@, code@),
        malformed_hash(hash@) ==> !res,
{
    verify_password(hash, code)
}

/// The first stored hash, at or after `start`, that `code` matches: the scan of
/// the unused recovery codes. A caller that loses the race to mark a match as
/// used scans on from the next index.
pub fn find_recovery_code_match(hashes: &[String], code: &str, start: usize) -> (res: Option<usize>)
    ensures
        match res {
            Some(i) => {
                &&& start <= i < hashes@.len()
                &&& password_matches(hashes@[i as int]@, code@)
                &&& forall|j: int| start <= j < i ==> !password_matches(#[trigger] hashes@[j]@, code@)
            },
            None => forall|j: int|
                start <= j < hashes@.len() ==> !password_matches(#[trigger] hashes@[j]@, code@),
        },
{
    let mut i = start;
    while i < hashes.len()
        invariant
            start <= i,
            forall|j: int| start <= j < i && j < hashes@.len() ==> !password_matches(
                #[trigger] hashes@[j]@,
                code@,
            ),
        decreases hashes@.len() - i,
    {
        if verify_recovery_code(hashes[i].as_str(), code) {
            return Some(i);
        }
        i = i + 1;
    }
    None
}

/// Whether some stored recovery code, given as its hash and whether it has been
/// used, still accepts `code`: it is unused and its hash matches.
pub open spec fn usable_match(rows: Seq<(Seq<char>, bool)>, code: Seq<char>) -> bool {
    exists|j: int| 0 <= j < rows.len() && !rows[j].1 && password_matches(#[trigger] rows[j].0, code)
}

/// The stored codes after row `i` is marked used.
pub open spec fn mark_used(rows: Seq<(Seq<char>, bool)>, i: int) -> Seq<(Seq<char>, bool)> {
    rows.update(i, (rows[i].0, true))
}

/// A recovery code works once: marking used the one unused stored code that
/// matches it leaves no stored code that accepts it again, and changes no
/// other row.
pub proof fn law_recovery_code_single_use(rows: Seq<(Seq<char>, bool)>, code: Seq<char>, i: int)
    requires
        0 <= i < rows.len(),
        !rows[i].1,
        password_matches(rows[i].0, code),
        forall|j: int|
            0 <= j < rows.len() && j != i && !rows[j].1 ==> !password_matches(
                #[trigger] rows[j].0,
                code,
            ),
    ensures
        usable_match(rows, code),
        !usable_match(mark_used(rows, i), code),
        forall|j: int| 0 <= j < rows.len() && j != i ==> #[trigger] mark_used(rows, i)[j] == rows[j],
{
    let after = mark_used(rows, i);
    assert forall|j: int| 0 <= j < after.len() && !after[j].1 implies !password_matches(
        #[trigger] after[j].0,
        code,
    ) by {
        assert(j != i);
        assert(after[j] == rows[j]);
    }
}

} // verus!
