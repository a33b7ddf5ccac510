//! Decimal rendering and parsing of signed 64-bit integers, as `{}` formatting
//! and `str::parse::<i64>` do them, together with the fact that parsing a
//! rendered number gives it back.
use vstd::prelude::*;

verus! {

/// The ASCII digit for `d` (`0 <= d < 10`).
pub open spec fn digit_char(d: int) -> char {
    ('0' as int + d) as char
}

/// Whether `c` is an ASCII decimal digit.
pub open spec fn is_digit(c: char) -> bool {
    '0' <= c && c <= '9'
}

/// The numeric value of an ASCII digit.
pub open spec fn digit_value(c: char) -> int {
    c as int - '0' as int
}

/// The decimal digits of `n`, most significant first, without leading zeros.
pub open spec fn nat_decimal(n: nat) -> Seq<char>
    decreases n,
{
    if n < 10 {
        seq![digit_char(n as int)]
    } else {
        nat_decimal(n / 10).push(digit_char((n % 10) as int))
    }
}

/// `n` written in decimal, with a leading `-` when negative.
pub open spec fn int_decimal(n: int) -> Seq<char> {
    if n < 0 {
        seq!['-'] + nat_decimal((-n) as nat)
    } else {
        nat_decimal(n as nat)
    }
}

/// Whether every character of `s` is an ASCII digit.
pub open spec fn all_digits(s: Seq<char>) -> bool {
    forall|i: int| 0 <= i < s.len() ==> is_digit(#[trigger] s[i])
}

/// The value of a string of decimal digits.
pub open spec fn digits_value(s: Seq<char>) -> int
    decreases s.len(),
{
    if s.len() == 0 {
        0
    } else {
        digits_value(s.drop_last()) * 10 + digit_value(s.last())
    }
}

/// What `str::parse::<i64>` gives for `s`: an optional sign followed by at least
/// one ASCII digit, whose value lies in the range of `i64`.
pub open spec fn parse_i64_spec(s: Seq<char>) -> Option<i64> {
    if s.len() > 0 && s[0] == '-' {
        let d = s.drop_first();
        if d.len() > 0 && all_digits(d) && -digits_value(d) >= i64::MIN {
            Some((-digits_value(d)) as i64)
        } else {
            None
        }
    } else {
        let d = if s.len() > 0 && s[0] == '+' { s.drop_first() } else { s };
        if d.len() > 0 && all_digits(d) && digits_value(d) <= i64::MAX {
            Some(digits_value(d) as i64)
        } else {
            None
        }
    }
}

proof fn lemma_nat_decimal_shape(n: nat)
    ensures
        nat_decimal(n).len() > 0,
        all_digits(nat_decimal(n)),
        digits_value(nat_decimal(n)) == n,
    decreases n,
{
    if n >= 10 {
        lemma_nat_decimal_shape(n / 10);
        let s = nat_decimal(n / 10).push(digit_char((n % 10) as int));
        assert(s.drop_last() =~= nat_decimal(n / 10));
        assert(digit_value(digit_char((n % 10) as int)) == n % 10);
        assert(digits_value(s) == digits_value(nat_decimal(n / 10)) * 10 + digit_value(s.last()));
        assert(nat_decimal(n) == s);
    } else {
        let s = seq![digit_char(n as int)];
        assert(s.drop_last() =~= Seq::<char>::empty());
        assert(digit_value(digit_char(n as int)) == n);
        assert(digits_value(s) == digits_value(s.drop_last()) * 10 + digit_value(s.last()));
        assert(nat_decimal(n) == s);
        assert forall|i: int| 0 <= i < s.len() implies is_digit(#[trigger] s[i]) by {
            if i < s.len() - 1 {
                assert(s[i] == nat_decimal(n / 10)[i]);
            }
        }
    }
}

/// Parsing the decimal rendering of any `i64` gives the number back.
pub proof fn lemma_parse_int_decimal(n: i64)
    ensures
        parse_i64_spec(int_decimal(n as int)) == Some(n),
{
    if n < 0 {
        let m = (-(n as int)) as nat;
        lemma_nat_decimal_shape(m);
        let s = int_decimal(n as int);
        assert(s.drop_first() =~= nat_decimal(m));
    } else {
        lemma_nat_decimal_shape(n as nat);
        let s = nat_decimal(n as nat);
        assert(s[0] != '-' && s[0] != '+') by {
            assert(is_digit(s[0]));
        }
    }
}

/// Appending a digit to a string of digits multiplies its value by ten and adds the digit.
proof fn lemma_digits_value_push(s: Seq<char>, c: char)
    ensures
        digits_value(s.push(c)) == digits_value(s) * 10 + digit_value(c),
{
    assert(s.push(c).drop_last() =~= s);
}

/// The value of a string of digits is never negative.
proof fn lemma_digits_value_nonneg(s: Seq<char>)
    requires
        all_digits(s),
    ensures
        digits_value(s) >= 0,
    decreases s.len(),
{
    if s.len() > 0 {
        assert(all_digits(s.drop_last())) by {
            assert forall|i: int| 0 <= i < s.drop_last().len() implies is_digit(
                #[trigger] s.drop_last()[i],
            ) by {
                assert(s.drop_last()[i] == s[i]);
            }
        }
        lemma_digits_value_nonneg(s.drop_last());
        assert(is_digit(s[s.len() - 1]));
    }
}

/// A prefix of a string of digits has no larger value than the whole string.
proof fn lemma_digits_value_prefix(s: Seq<char>, k: int)
    requires
        all_digits(s),
        0 <= k <= s.len(),
    ensures
        0 <= digits_value(s.take(k)) <= digits_value(s),
    decreases s.len() - k,
{
    if k == s.len() {
        assert(s.take(k) =~= s);
        lemma_digits_value_nonneg(s);
    } else {
        lemma_digits_value_prefix(s, k + 1);
        assert(s.take(k + 1) =~= s.take(k).push(s[k]));
        lemma_digits_value_push(s.take(k), s[k]);
        assert(is_digit(s[k]));
        assert(all_digits(s.take(k))) by {
            assert forall|i: int| 0 <= i < s.take(k).len() implies is_digit(#[trigger] s.take(k)[i]) by {
                assert(s.take(k)[i] == s[i]);
            }
        }
        lemma_digits_value_nonneg(s.take(k));
    }
}

/// The one-character string for digit `d`.
fn digit_str(d: u64) -> (res: &'static str)
    requires
        d < 10,
    ensures
        res@ == seq![digit_char(d as int)],
{
    proof {
        reveal_strlit("0");
        reveal_strlit("1");
        reveal_strlit("2");
        reveal_strlit("3");
        reveal_strlit("4");
        reveal_strlit("5");
        reveal_strlit("6");
        reveal_strlit("7");
        reveal_strlit("8");
        reveal_strlit("9");
    }
    let r = if d == 0 {
        "0"
    } else if d == 1 {
        "1"
    } else if d == 2 {
        "2"
    } else if d == 3 {
        "3"
    } else if d == 4 {
        "4"
    } else if d == 5 {
        "5"
    } else if d == 6 {
        "6"
    } else if d == 7 {
        "7"
    } else if d == 8 {
        "8"
    } else {
        "9"
    };
    assert(r@ =~= seq![digit_char(d as int)]);
    r
}

/// Appends the decimal digits of `m` to `out`.
fn push_nat_decimal(m: u64, out: &mut String)
    ensures
        final(out)@ == old(out)@ + nat_decimal(m as nat),
    decreases m,
{
    if m >= 10 {
        push_nat_decimal(m / 10, out);
    }
    let d = digit_str(m % 10);
    out.append(d);
    proof {
        if m >= 10 {
            assert(nat_decimal(m as nat) == nat_decimal((m / 10) as nat).push(digit_char((m % 10) as int)));
        }
    }
    assert(out@ =~= old(out)@ + nat_decimal(m as nat));
}

/// Renders `n` in decimal, as `n.to_string()` does.
pub fn i64_to_decimal(n: i64) -> (res: String)
    ensures
        res@ == int_decimal(n as int),
{
    let mut out = String::new();
    if n < 0 {
        proof {
            reveal_strlit("-");
        }
        out.append("-");
        let m: u64 = (-(n as i128)) as u64;
        push_nat_decimal(m, &mut out);
        assert(out@ =~= int_decimal(n as int));
    } else {
        push_nat_decimal(n as u64, &mut out);
        assert(out@ =~= int_decimal(n as int));
    }
    out
}

/// Parses `s` as `s.parse::<i64>().ok()` does.
pub fn parse_i64(s: &str) -> (res: Option<i64>)
    ensures
        res == parse_i64_spec(s@),
{
    let len = s.unicode_len();
    if len == 0 {
        return None;
    }
    let first = s.get_char(0);
    let negative = first == '-';
    let start: usize = if first == '-' || first == '+' { 1 } else { 0 };
    let ghost d = s@.skip(start as int);
    if start == len {
        assert(d.len() == 0);
        assert(s@.drop_first() =~= d);
        return None;
    }
    // Largest magnitude the sign admits.
    let limit: u128 = if negative { 9223372036854775808u128 } else { 9223372036854775807u128 };
    let mut acc: u128 = 0;
    let mut i: usize = start;
    while i < len
        invariant
            len == s@.len(),
            0 <= start <= i <= len,
            d == s@.skip(start as int),
            all_digits(d.take(i - start)),
            acc == digits_value(d.take(i - start)),
            acc <= limit,
            first == s@[0],
            negative == (first == '-'),
            start == (if first == '-' || first == '+' { 1usize } else { 0usize }),
            limit == (if negative { 9223372036854775808u128 } else { 9223372036854775807u128 }),
        decreases len - i,
    {
        let c = s.get_char(i);
        if !('0' <= c && c <= '9') {
            assert(d[i - start] == c);
            assert(!all_digits(d));
            proof {
                if start == 1 {
                    assert(s@.drop_first() =~= d);
                } else {
                    assert(s@ =~= d);
                }
            }
            return None;
        }
        let dv: u128 = (c as u32 - '0' as u32) as u128;
        assert(d.take(i - start + 1) =~= d.take(i - start).push(c));
        proof {
            lemma_digits_value_push(d.take(i - start), c);
        }
        acc = acc * 10 + dv;
        if acc > limit {
            proof {
                assert(all_digits(d.take(i - start + 1))) by {
                    assert forall|j: int| 0 <= j < d.take(i - start + 1).len() implies is_digit(
                        #[trigger] d.take(i - start + 1)[j],
                    ) by {
                        if j < i - start {
                            assert(d.take(i - start + 1)[j] == d.take(i - start)[j]);
                        }
                    }
                }
                if all_digits(d) {
                    lemma_digits_value_prefix(d, i - start + 1);
                }
                if start == 1 {
                    assert(s@.drop_first() =~= d);
                } else {
                    assert(s@ =~= d);
                }
            }
            return None;
        }
        i = i + 1;
        assert(all_digits(d.take(i - start))) by {
            assert forall|j: int| 0 <= j < d.take(i - start).len() implies is_digit(
                #[trigger] d.take(i - start)[j],
            ) by {
                if j < i - start - 1 {
                    assert(d.take(i - start)[j] == d.take(i - start - 1)[j]);
                }
            }
        }
    }
    assert(d.take(len - start) =~= d);
    proof {
        if start == 1 {
            assert(s@.drop_first() =~= d);
        } else {
            assert(s@ =~= d);
        }
    }
    if negative {
        Some((-(acc as i128)) as i64)
    } else {
        Some(acc as i64)
    }
}

} // verus!
