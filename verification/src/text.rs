//! Small string facts and helpers shared by the token, scope and account rules.
use vstd::prelude::*;

verus! {

/// Whether some string of `v` reads `s`.
pub open spec fn contains_str(v: Seq<String>, s: Seq<char>) -> bool {
    exists|i: int| 0 <= i < v.len() && (#[trigger] v[i])@ == s
}

/// The views of the strings of `v`.
pub open spec fn views(v: Seq<String>) -> Seq<Seq<char>> {
    v.map_values(|x: String| x@)
}

/// Whether `s` begins with `prefix`.
pub open spec fn has_prefix(s: Seq<char>, prefix: Seq<char>) -> bool {
    prefix.len() <= s.len() && s.take(prefix.len() as int) == prefix
}

/// Whether `s` ends with `suffix`.
pub open spec fn has_suffix(s: Seq<char>, suffix: Seq<char>) -> bool {
    suffix.len() <= s.len() && s.skip(s.len() - suffix.len()) == suffix
}

/// Whether the two strings read the same.
pub fn str_eq(a: &str, b: &str) -> (res: bool)
    ensures
        res == (a@ == b@),
{
    let x = a.to_owned();
    let y = b.to_owned();
    x == y
}

/// A fresh `String` holding `s`.
pub fn owned(s: &str) -> (res: String)
    ensures
        res@ == s@,
{
    s.to_owned()
}

/// Whether some string of `v` reads `s`, as `v.iter().any(|e| e == s)` does.
pub fn vec_contains_str(v: &[String], s: &str) -> (res: bool)
    ensures
        res == contains_str(v@, s@),
{
    let mut i: usize = 0;
    while i < v.len()
        invariant
            0 <= i <= v@.len(),
            forall|j: int| 0 <= j < i ==> (#[trigger] v@[j])@ != s@,
        decreases v@.len() - i,
    {
        if str_eq(v[i].as_str(), s) {
            assert(v@[i as int]@ == s@);
            return true;
        }
        i = i + 1;
    }
    false
}

/// Whether `s` begins with `prefix`, as `str::starts_with` does.
pub fn starts_with(s: &str, prefix: &str) -> (res: bool)
    ensures
        res == has_prefix(s@, prefix@),
{
    let n = s.unicode_len();
    let p = prefix.unicode_len();
    if p > n {
        return false;
    }
    let head = s.substring_char(0, p);
    str_eq(head, prefix)
}

/// Whether `s` ends with `suffix`, as `str::ends_with` does.
pub fn ends_with(s: &str, suffix: &str) -> (res: bool)
    ensures
        res == has_suffix(s@, suffix@),
{
    let n = s.unicode_len();
    let p = suffix.unicode_len();
    if p > n {
        return false;
    }
    let tail = s.substring_char(n - p, n);
    assert(tail@ =~= s@.skip(n - p));
    str_eq(tail, suffix)
}

/// The rest of `s` after `prefix`, as `str::strip_prefix` gives it.
pub fn strip_prefix<'a>(s: &'a str, prefix: &str) -> (res: Option<&'a str>)
    ensures
        has_prefix(s@, prefix@) ==> (res matches Some(r) && r@ == s@.skip(prefix@.len() as int)),
        !has_prefix(s@, prefix@) ==> res is None,
{
    if starts_with(s, prefix) {
        let n = s.unicode_len();
        let p = prefix.unicode_len();
        let rest = s.substring_char(p, n);
        assert(rest@ =~= s@.skip(p as int));
        Some(rest)
    } else {
        None
    }
}

} // verus!
