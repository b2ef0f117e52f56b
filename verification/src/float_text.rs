//! A verified recognizer for the standard float text grammar: an optional
//! sign, then `inf`, `infinity` or `nan` in any letter case, or a decimal
//! number with at most one point and at least one digit, optionally
//! followed by `e` or `E`, an optional sign, and at least one digit.
//!
//! Only acceptance is decided here: a value segment whose text conforms is
//! carried through as text, and computing the float datum is left to
//! unverified callers. Every conforming text yields a float value (an out
//! of range magnitude rounds to an infinity rather than failing), so
//! acceptance alone settles whether downstream conversion can fail.

use vstd::prelude::*;
use crate::numbers::is_dec_digit;

verus! {

/// Whether `c` is `lower` or its upper-case ASCII form.
pub open spec fn char_eq_ci(c: char, lower: char) -> bool {
    c == lower || (c as u32) + 32 == (lower as u32)
}

/// Case-insensitive equality against an all-lower-case word.
pub open spec fn text_eq_ci(s: Seq<char>, lower: Seq<char>) -> bool {
    s.len() == lower.len() && (forall|i: int|
        0 <= i < s.len() ==> char_eq_ci(#[trigger] s[i], lower[i]))
}

/// The keyword forms: `inf`, `infinity` and `nan`, in any letter case.
pub open spec fn is_float_keyword(b: Seq<char>) -> bool {
    text_eq_ci(b, "inf"@) || text_eq_ci(b, "infinity"@) || text_eq_ci(b, "nan"@)
}

/// A mantissa: digits and at most one point, with at least one digit.
pub open spec fn is_mantissa(m: Seq<char>) -> bool {
    &&& forall|i: int| 0 <= i < m.len() ==> (is_dec_digit(#[trigger] m[i]) || m[i] == '.')
    &&& forall|i: int, j: int|
        0 <= i < j < m.len() ==> !(#[trigger] m[i] == '.' && #[trigger] m[j] == '.')
    &&& exists|i: int| 0 <= i < m.len() && is_dec_digit(#[trigger] m[i])
}

/// An exponent's tail: an optional sign, then at least one digit.
pub open spec fn is_exp_tail(t: Seq<char>) -> bool {
    if t.len() > 0 && (t[0] == '+' || t[0] == '-') {
        t.len() >= 2 && (forall|i: int| 1 <= i < t.len() ==> is_dec_digit(#[trigger] t[i]))
    } else {
        t.len() >= 1 && (forall|i: int| 0 <= i < t.len() ==> is_dec_digit(#[trigger] t[i]))
    }
}

/// Whether the body splits as a number at position `i`: the whole body is
/// a mantissa when `i` is its length, else an `e` or `E` stands at `i`
/// between a mantissa and an exponent tail.
pub open spec fn float_split_ok(b: Seq<char>, i: int) -> bool {
    if i == b.len() {
        is_mantissa(b)
    } else {
        &&& (b[i] == 'e' || b[i] == 'E')
        &&& is_mantissa(b.take(i))
        &&& is_exp_tail(b.skip(i + 1))
    }
}

/// The number forms of the grammar.
pub open spec fn is_float_number(b: Seq<char>) -> bool {
    exists|i: int| 0 <= i <= b.len() && float_split_ok(b, i)
}

/// Whether `s` conforms to the standard float text grammar.
pub open spec fn is_float_text(s: Seq<char>) -> bool {
    let body = if s.len() > 0 && (s[0] == '+' || s[0] == '-') {
        s.skip(1)
    } else {
        s
    };
    is_float_keyword(body) || is_float_number(body)
}

/// Case-insensitively compare the characters of `s` from `start` on
/// against an all-lower-case word.
fn str_eq_ci_from(s: &str, start: usize, lower: &str) -> (r: bool)
    requires
        start <= s@.len(),
    ensures
        r == text_eq_ci(s@.skip(start as int), lower@),
{
    let n = s.unicode_len();
    let m = lower.unicode_len();
    if n - start != m {
        return false;
    }
    let mut i: usize = 0;
    loop
        invariant
            0 <= i <= m,
            n == s@.len(),
            m == lower@.len(),
            start + m == n,
            forall|k: int| 0 <= k < i ==> char_eq_ci(#[trigger] s@.skip(start as int)[k], lower@[k]),
        decreases m - i,
    {
        if i == m {
            return true;
        }
        let c = s.get_char(start + i);
        let l = lower.get_char(i);
        proof {
            assert(s@.skip(start as int)[i as int] == s@[start + i as int]);
        }
        if !(c == l || (c as u32) + 32 == (l as u32)) {
            return false;
        }
        i = i + 1;
    }
}

/// Check the mantissa form over the characters in `[from, to)`.
fn check_mantissa(s: &str, from: usize, to: usize) -> (r: bool)
    requires
        from <= to <= s@.len(),
    ensures
        r == is_mantissa(s@.subrange(from as int, to as int)),
{
    let ghost m = s@.subrange(from as int, to as int);
    let mut i: usize = from;
    let mut has_digit = false;
    let mut dot_at: usize = 0;
    let mut seen_dot = false;
    loop
        invariant
            from <= i <= to <= s@.len(),
            m == s@.subrange(from as int, to as int),
            forall|k: int| 0 <= k < i - from ==> (is_dec_digit(#[trigger] m[k]) || m[k] == '.'),
            forall|k1: int, k2: int|
                0 <= k1 < k2 < i - from ==> !(#[trigger] m[k1] == '.' && #[trigger] m[k2] == '.'),
            has_digit == exists|k: int| 0 <= k < i - from && is_dec_digit(#[trigger] m[k]),
            seen_dot == exists|k: int| 0 <= k < i - from && #[trigger] m[k] == '.',
            seen_dot ==> from <= dot_at < i && m[dot_at - from] == '.',
            !seen_dot ==> forall|k: int| 0 <= k < i - from ==> #[trigger] m[k] != '.',
        decreases to - i,
    {
        if i == to {
            return has_digit;
        }
        let c = s.get_char(i);
        proof {
            assert(m[i - from] == s@[i as int]);
        }
        if c == '.' {
            if seen_dot {
                proof {
                    assert(m[dot_at - from] == '.' && m[i - from] == '.');
                }
                return false;
            }
            seen_dot = true;
            dot_at = i;
        } else if c >= '0' && c <= '9' {
            has_digit = true;
        } else {
            return false;
        }
        i = i + 1;
    }
}

/// Check the exponent tail form over the characters from `from` on.
fn check_exp_tail(s: &str, from: usize) -> (r: bool)
    requires
        from <= s@.len(),
    ensures
        r == is_exp_tail(s@.skip(from as int)),
{
    let n = s.unicode_len();
    let ghost t = s@.skip(from as int);
    let start: usize = if from < n {
        let c0 = s.get_char(from);
        proof {
            assert(t[0] == s@[from as int]);
        }
        if c0 == '+' || c0 == '-' {
            from + 1
        } else {
            from
        }
    } else {
        from
    };
    if start == n {
        return false;
    }
    proof {
        assert(t.len() == n - from);
        if start > from {
            assert(t[0] == s@[from as int]);
        }
        if is_exp_tail(t) {
            assert forall|k: int| start <= k < n implies is_dec_digit(#[trigger] s@[k]) by {
                assert(is_dec_digit(t[k - from]));
                assert(t[k - from] == s@[k]);
            }
        }
        if forall|k: int| start <= k < n ==> is_dec_digit(#[trigger] s@[k]) {
            if start > from {
                assert forall|i: int| 1 <= i < t.len() implies is_dec_digit(#[trigger] t[i]) by {
                    assert(t[i] == s@[i + from]);
                }
            } else {
                assert forall|i: int| 0 <= i < t.len() implies is_dec_digit(#[trigger] t[i]) by {
                    assert(t[i] == s@[i + from]);
                }
            }
            assert(is_exp_tail(t));
        }
        assert(is_exp_tail(t) == (forall|k: int|
            start <= k < n ==> is_dec_digit(#[trigger] s@[k])));
    }
    let mut i: usize = start;
    loop
        invariant
            start <= i <= n,
            n == s@.len(),
            forall|k: int| start <= k < i ==> is_dec_digit(#[trigger] s@[k]),
            is_exp_tail(s@.skip(from as int)) == (forall|k: int|
                start <= k < n ==> is_dec_digit(#[trigger] s@[k])),
        decreases n - i,
    {
        if i == n {
            return true;
        }
        let c = s.get_char(i);
        if !(c >= '0' && c <= '9') {
            return false;
        }
        i = i + 1;
    }
}

/// The position of the first `e` or `E` at or after `start`, or the
/// length when there is none.
fn find_exp_intro(s: &str, start: usize) -> (r: usize)
    requires
        start <= s@.len(),
    ensures
        start <= r <= s@.len(),
        forall|k: int| start <= k < r ==> !(#[trigger] s@[k] == 'e' || s@[k] == 'E'),
        r == s@.len() || s@[r as int] == 'e' || s@[r as int] == 'E',
{
    let n = s.unicode_len();
    let mut j: usize = start;
    loop
        invariant
            start <= j <= n,
            n == s@.len(),
            forall|k: int| start <= k < j ==> !(#[trigger] s@[k] == 'e' || s@[k] == 'E'),
        decreases n - j,
    {
        if j == n {
            return j;
        }
        let c = s.get_char(j);
        if c == 'e' || c == 'E' {
            return j;
        }
        j = j + 1;
    }
}

/// Decide whether `s` conforms to the standard float text grammar.
pub fn is_valid_float_text(s: &str) -> (r: bool)
    ensures
        r == is_float_text(s@),
{
    let n = s.unicode_len();
    let start: usize = if n > 0 {
        let c0 = s.get_char(0);
        if c0 == '+' || c0 == '-' {
            1
        } else {
            0
        }
    } else {
        0
    };
    let ghost body = s@.skip(start as int);
    proof {
        if start == 0 {
            assert(body =~= s@);
        }
    }
    if str_eq_ci_from(s, start, "inf") || str_eq_ci_from(s, start, "infinity") || str_eq_ci_from(
        s,
        start,
        "nan",
    ) {
        return true;
    }
    let e_idx = find_exp_intro(s, start);
    let has_e = e_idx < n;
    let mant_ok = check_mantissa(s, start, e_idx);
    let exp_ok = if has_e {
        check_exp_tail(s, e_idx + 1)
    } else {
        true
    };
    let accepted = mant_ok && exp_ok;
    proof {
        let split = e_idx - start;
        assert(body.take(split) =~= s@.subrange(start as int, e_idx as int));
        if has_e {
            assert(body[split] == s@[e_idx as int]);
            assert(body.skip(split + 1) =~= s@.skip(e_idx + 1));
        } else {
            assert(body =~= s@.subrange(start as int, e_idx as int));
        }
        if accepted {
            assert(float_split_ok(body, split));
            assert(is_float_number(body));
        } else {
            assert forall|j: int| 0 <= j <= body.len() implies !float_split_ok(body, j) by {
                if j < split {
                    // An `e` at `j` would come before the first one.
                    if j < body.len() && (body[j] == 'e' || body[j] == 'E') {
                        assert(body[j] == s@[j + start]);
                        assert(false);
                    }
                } else if j > split {
                    // The mantissa would then contain the first `e`.
                    if float_split_ok(body, j) {
                        let m = if j == body.len() {
                            body
                        } else {
                            body.take(j)
                        };
                        assert(m[split] == body[split]);
                        assert(body[split] == s@[e_idx as int]);
                        assert(is_dec_digit(m[split]) || m[split] == '.');
                        assert(false);
                    }
                } else {
                    if float_split_ok(body, j) {
                        assert(false);
                    }
                }
            }
        }
    }
    accepted
}

} // verus!
