//! Verified decimal text handling for the integer segment types.
//!
//! The grammar mirrors the standard textual-numeric one: an optional
//! leading sign (`+` for unsigned kinds, `+` or `-` for signed kinds)
//! followed by one or more decimal digits, scanned left to right, failing
//! on the first character that is not a digit or the first digit that
//! pushes the value out of range.

use vstd::prelude::*;
use vstd::arithmetic::div_mod::lemma_fundamental_div_mod;
use crate::errors::IntParseError;

verus! {

pub open spec fn is_dec_digit(c: char) -> bool {
    '0' <= c && c <= '9'
}

/// The numeric value of a decimal digit character.
pub open spec fn digit_val(c: char) -> nat {
    (c as u32 - 48) as nat
}

/// The decimal digit character for a value below ten.
pub open spec fn digit_char(d: nat) -> char {
    if d == 0 {
        '0'
    } else if d == 1 {
        '1'
    } else if d == 2 {
        '2'
    } else if d == 3 {
        '3'
    } else if d == 4 {
        '4'
    } else if d == 5 {
        '5'
    } else if d == 6 {
        '6'
    } else if d == 7 {
        '7'
    } else if d == 8 {
        '8'
    } else {
        '9'
    }
}

/// Scan digit text left to right, accumulating into `acc`, never letting
/// the value exceed `max`: the result is the accumulated value, or the
/// first failure encountered.
pub open spec fn scan_digits(s: Seq<char>, acc: u128, max: u128) -> Result<u128, IntParseError>
    decreases s.len(),
{
    if s.len() == 0 {
        Ok(acc)
    } else if !is_dec_digit(s[0]) {
        Err(IntParseError::InvalidDigit)
    } else if acc * 10 + digit_val(s[0]) > max {
        Err(IntParseError::PosOverflow)
    } else {
        scan_digits(s.skip(1), (acc * 10 + digit_val(s[0])) as u128, max)
    }
}

/// The negative mirror of [`scan_digits`]: accumulate downward, never
/// letting the value fall below `min`.
pub open spec fn scan_digits_neg(s: Seq<char>, acc: i128, min: i128) -> Result<
    i128,
    IntParseError,
>
    decreases s.len(),
{
    if s.len() == 0 {
        Ok(acc)
    } else if !is_dec_digit(s[0]) {
        Err(IntParseError::InvalidDigit)
    } else if acc * 10 - digit_val(s[0]) < min {
        Err(IntParseError::NegOverflow)
    } else {
        scan_digits_neg(s.skip(1), (acc * 10 - digit_val(s[0])) as i128, min)
    }
}

/// What parsing text as an unsigned integer no greater than `max` yields:
/// an optional `+`, then digits, scanned for the first failure.
pub open spec fn spec_parse_unsigned(s: Seq<char>, max: u128) -> Result<u128, IntParseError> {
    if s.len() == 0 {
        Err(IntParseError::Empty)
    } else {
        let body = if s[0] == '+' {
            s.skip(1)
        } else {
            s
        };
        if body.len() == 0 {
            Err(IntParseError::InvalidDigit)
        } else {
            scan_digits(body, 0, max)
        }
    }
}

/// What parsing text as a signed integer in `min ..= max` yields: an
/// optional sign, then digits, scanned for the first failure.
pub open spec fn spec_parse_signed(s: Seq<char>, min: i128, max: i128) -> Result<
    i128,
    IntParseError,
>
    recommends
        min <= 0 <= max,
{
    if s.len() == 0 {
        Err(IntParseError::Empty)
    } else {
        let body = if s[0] == '+' || s[0] == '-' {
            s.skip(1)
        } else {
            s
        };
        if body.len() == 0 {
            Err(IntParseError::InvalidDigit)
        } else if s[0] == '-' {
            scan_digits_neg(body, 0, min)
        } else {
            match scan_digits(body, 0, max as u128) {
                Ok(v) => Ok(v as i128),
                Err(e) => Err(e),
            }
        }
    }
}

/// The canonical decimal digits of `n`: no sign, no leading zeros.
pub open spec fn dec_digits(n: nat) -> Seq<char>
    decreases n,
{
    if n < 10 {
        seq![digit_char(n)]
    } else {
        dec_digits(n / 10).push(digit_char(n % 10))
    }
}

/// The canonical decimal rendering of `v`: a `-` sign for negative values,
/// then the digits of the magnitude.
pub open spec fn dec_int(v: int) -> Seq<char> {
    if v < 0 {
        seq!['-'] + dec_digits((-v) as nat)
    } else {
        dec_digits(v as nat)
    }
}

/// Scan the digit characters of `s` starting at character `start`,
/// accumulating a value that may not exceed `max`.
pub fn scan_digits_exec(s: &str, start: usize, max: u128) -> (r: Result<u128, IntParseError>)
    requires
        start <= s@.len(),
    ensures
        r == scan_digits(s@.skip(start as int), 0, max),
        r is Ok ==> r->Ok_0 <= max,
{
    let n = s.unicode_len();
    let mut i: usize = start;
    let mut acc: u128 = 0;
    loop
        invariant
            start <= i <= n,
            n == s@.len(),
            acc <= max,
            scan_digits(s@.skip(start as int), 0, max) == scan_digits(s@.skip(i as int), acc, max),
        decreases n - i,
    {
        if i == n {
            proof {
                assert(s@.skip(i as int) =~= Seq::<char>::empty());
            }
            return Ok(acc);
        }
        let c = s.get_char(i);
        proof {
            assert(s@.skip(i as int)[0] == s@[i as int]);
            assert(s@.skip(i as int).skip(1) =~= s@.skip(i as int + 1));
        }
        if !(c >= '0' && c <= '9') {
            return Err(IntParseError::InvalidDigit);
        }
        let d: u128 = (c as u32 - 48) as u128;
        match acc.checked_mul(10) {
            Some(p) => match p.checked_add(d) {
                Some(v) => {
                    if v > max {
                        return Err(IntParseError::PosOverflow);
                    } else {
                        acc = v;
                        i = i + 1;
                    }
                },
                None => {
                    return Err(IntParseError::PosOverflow);
                },
            },
            None => {
                return Err(IntParseError::PosOverflow);
            },
        }
    }
}

/// Parse text as an unsigned integer no greater than `max`.
pub fn parse_unsigned_text(s: &str, max: u128) -> (r: Result<u128, IntParseError>)
    ensures
        r == spec_parse_unsigned(s@, max),
        r matches Ok(v) ==> v <= max,
{
    if s.unicode_len() == 0 {
        return Err(IntParseError::Empty);
    }
    let first = s.get_char(0);
    let start: usize = if first == '+' {
        1
    } else {
        0
    };
    proof {
        if first != '+' {
            assert(s@.skip(0) =~= s@);
        }
    }
    if s.unicode_len() == start {
        return Err(IntParseError::InvalidDigit);
    }
    scan_digits_exec(s, start, max)
}

/// The magnitude scan and the negative scan agree step for step: equal
/// values with opposite signs, and overflow on the same digit, positive on
/// one side and negative on the other.
pub proof fn lemma_scan_neg_corresponds(s: Seq<char>, acc: u128, max: u128, nacc: i128, min: i128)
    requires
        nacc as int == -(acc as int),
        min as int == -(max as int),
    ensures
        scan_digits(s, acc, max) is Ok ==> {
            &&& scan_digits_neg(s, nacc, min) is Ok
            &&& scan_digits_neg(s, nacc, min)->Ok_0 as int == -(scan_digits(s, acc, max)->Ok_0
                as int)
        },
        scan_digits(s, acc, max) == Result::<u128, IntParseError>::Err(
            IntParseError::InvalidDigit,
        ) ==> scan_digits_neg(s, nacc, min) == Result::<i128, IntParseError>::Err(
            IntParseError::InvalidDigit,
        ),
        scan_digits(s, acc, max) == Result::<u128, IntParseError>::Err(
            IntParseError::PosOverflow,
        ) ==> scan_digits_neg(s, nacc, min) == Result::<i128, IntParseError>::Err(
            IntParseError::NegOverflow,
        ),
    decreases s.len(),
{
    if s.len() == 0 {
    } else if !is_dec_digit(s[0]) {
    } else if acc * 10 + digit_val(s[0]) > max {
        assert(nacc * 10 - digit_val(s[0]) < min);
    } else {
        assert(nacc * 10 - digit_val(s[0]) >= min);
        lemma_scan_neg_corresponds(
            s.skip(1),
            (acc * 10 + digit_val(s[0])) as u128,
            max,
            (nacc * 10 - digit_val(s[0])) as i128,
            min,
        );
    }
}

/// The magnitude scan fails only on a stray character or by exceeding its
/// bound, never with an emptiness or negative-side error.
pub proof fn lemma_scan_err_kinds(s: Seq<char>, acc: u128, max: u128)
    ensures
        scan_digits(s, acc, max) is Err ==> {
            ||| scan_digits(s, acc, max)->Err_0 is InvalidDigit
            ||| scan_digits(s, acc, max)->Err_0 is PosOverflow
        },
    decreases s.len(),
{
    if s.len() != 0 && is_dec_digit(s[0]) && !(acc * 10 + digit_val(s[0]) > max) {
        lemma_scan_err_kinds(s.skip(1), (acc * 10 + digit_val(s[0])) as u128, max);
    }
}

/// Parse text as a signed integer in `min ..= max`.
pub(crate) fn parse_signed_text(s: &str, min: i128, max: i128) -> (r: Result<i128, IntParseError>)
    requires
        min < 0 <= max,
        min as int == -(max as int) - 1,
    ensures
        r == spec_parse_signed(s@, min, max),
        r matches Ok(v) ==> min <= v <= max,
{
    if s.unicode_len() == 0 {
        return Err(IntParseError::Empty);
    }
    let first = s.get_char(0);
    let negative = first == '-';
    let start: usize = if first == '+' || first == '-' {
        1
    } else {
        0
    };
    proof {
        if first == '+' || first == '-' {
        } else {
            assert(s@.skip(0) =~= s@);
        }
    }
    if s.unicode_len() == start {
        return Err(IntParseError::InvalidDigit);
    }
    if negative {
        // The magnitude bound is one above the positive bound; scan the
        // magnitude and negate.
        let mag_max: u128 = (max as u128) + 1;
        let r = scan_digits_exec(s, start, mag_max);
        proof {
            lemma_scan_neg_corresponds(s@.skip(start as int), 0, mag_max, 0, min);
            lemma_scan_err_kinds(s@.skip(start as int), 0, mag_max);
        }
        match r {
            Ok(m) => {
                if m == 0 {
                    Ok(0)
                } else {
                    Ok(-((m - 1) as i128) - 1)
                }
            },
            Err(IntParseError::PosOverflow) => Err(IntParseError::NegOverflow),
            Err(e) => Err(e),
        }
    } else {
        match scan_digits_exec(s, start, max as u128) {
            Ok(v) => Ok(v as i128),
            Err(e) => Err(e),
        }
    }
}

/// A one-character piece of text holding one decimal digit.
pub fn digit_str(d: u8) -> (r: &'static str)
    requires
        d < 10,
    ensures
        r@ == seq![digit_char(d as nat)],
{
    proof {
        reveal_strlit("0");
        reveal_strlit("1");
        reveal_strlit("2");
        reveal_strlit("3");
        reveal_strlit("4");
        reveal_strlit("5");
        reveal_strlit("6");
        reveal_strlit("7");
        reveal_strlit("8");
        reveal_strlit("9");
    }
    let r = match d {
        0 => "0",
        1 => "1",
        2 => "2",
        3 => "3",
        4 => "4",
        5 => "5",
        6 => "6",
        7 => "7",
        8 => "8",
        _ => "9",
    };
    proof {
        assert(r@ =~= seq![digit_char(d as nat)]);
    }
    r
}

/// Render `n` as its canonical decimal digits.
pub fn render_u128(n: u128) -> (r: String)
    ensures
        r@ == dec_digits(n as nat),
    decreases n,
{
    if n < 10 {
        String::from_str(digit_str(n as u8))
    } else {
        let mut prefix = render_u128(n / 10);
        proof {
            lemma_fundamental_div_mod(n as int, 10);
        }
        prefix.append(digit_str((n % 10) as u8));
        proof {
            assert(dec_digits((n / 10) as nat) + seq![digit_char((n % 10) as nat)] =~= dec_digits(
                (n / 10) as nat,
            ).push(digit_char((n % 10) as nat)));
        }
        prefix
    }
}

/// Render `v` as its canonical decimal form: a `-` sign for negative
/// values, then the digits of the magnitude.
pub fn render_i128(v: i128) -> (r: String)
    ensures
        r@ == dec_int(v as int),
{
    if v >= 0 {
        render_u128(v as u128)
    } else {
        let magnitude: u128 = ((-(v + 1)) as u128) + 1;
        proof {
            assert(magnitude as int == -(v as int));
            reveal_strlit("-");
        }
        let mut out = String::from_str("-");
        let digits = render_u128(magnitude);
        out.append(digits.as_str());
        proof {
            assert("-"@ =~= seq!['-']);
        }
        out
    }
}

/// Canonical digits scan back to the value they render: for `n <= max`,
/// scanning `dec_digits(n)` from zero yields `n` with no overflow.
pub proof fn lemma_scan_of_dec(n: u128, max: u128)
    requires
        n <= max,
    ensures
        scan_digits(dec_digits(n as nat), 0, max) == Ok::<u128, IntParseError>(n),
{
    lemma_scan_of_dec_general(n, 0, max);
}

/// Generalisation of [`lemma_scan_of_dec`] over the accumulator, by
/// induction on the digit count.
proof fn lemma_scan_of_dec_general(n: u128, acc: u128, max: u128)
    requires
        acc * pow10_len(n as nat) + n <= max,
    ensures
        scan_digits(dec_digits(n as nat), acc, max) == Ok::<u128, IntParseError>(
            (acc * pow10_len(n as nat) + n) as u128,
        ),
    decreases n,
{
    lemma_pow10_len_pos(n as nat);
    if n < 10 {
        assert(pow10_len(n as nat) == 10);
        assert(dec_digits(n as nat) == seq![digit_char(n as nat)]);
        assert(seq![digit_char(n as nat)][0] == digit_char(n as nat));
        assert(digit_val(digit_char(n as nat)) == n as nat);
        assert(is_dec_digit(digit_char(n as nat)));
        assert(seq![digit_char(n as nat)].skip(1) =~= Seq::<char>::empty());
        assert(acc * 10 + digit_val(digit_char(n as nat)) <= max);
        assert(scan_digits(Seq::<char>::empty(), (acc * 10 + n) as u128, max)
            == Ok::<u128, IntParseError>((acc * 10 + n) as u128));
        assert(scan_digits(seq![digit_char(n as nat)], acc, max) == Ok::<u128, IntParseError>(
            (acc * 10 + n) as u128,
        ));
    } else {
        lemma_fundamental_div_mod(n as int, 10);
        let head = n / 10;
        let last = (n % 10) as nat;
        assert(dec_digits(n as nat) == dec_digits(head as nat).push(digit_char(last)));
        lemma_pow10_len_step(n as nat);
        assert(acc * pow10_len(head as nat) + head <= max) by (nonlinear_arith)
            requires
                acc * pow10_len(n as nat) + n <= max,
                pow10_len(n as nat) == 10 * pow10_len(head as nat),
                n == 10 * (n / 10) + n % 10,
                head == n / 10,
                0 <= n % 10 < 10,
                pow10_len(head as nat) >= 1,
                acc >= 0,
                head >= 0,
        ;
        lemma_scan_of_dec_general((n / 10) as u128, acc, max);
        let v = (acc * pow10_len(head as nat) + head) as u128;
        assert(is_dec_digit(digit_char(last)));
        assert(digit_val(digit_char(last)) == last);
        assert(v * 10 + last == acc * pow10_len(n as nat) + n) by (nonlinear_arith)
            requires
                v == acc * pow10_len(head as nat) + head,
                pow10_len(n as nat) == 10 * pow10_len(head as nat),
                n == 10 * head + last,
        ;
        lemma_scan_snoc(dec_digits(head as nat), digit_char(last), acc, max, v);
    }
}

/// The canonical digits start with a digit: never a sign.
proof fn lemma_dec_digits_first(n: nat)
    ensures
        dec_digits(n).len() >= 1,
        is_dec_digit(dec_digits(n)[0]),
    decreases n,
{
    if n >= 10 {
        lemma_dec_digits_first(n / 10);
    }
}

/// The canonical rendering of an unsigned value parses back to it.
pub proof fn lemma_parse_of_dec_unsigned(n: u128, max: u128)
    requires
        n <= max,
    ensures
        spec_parse_unsigned(dec_digits(n as nat), max) == Ok::<u128, IntParseError>(n),
{
    lemma_dec_digits_first(n as nat);
    lemma_scan_of_dec(n, max);
}

/// The canonical rendering of a signed value parses back to it, for any
/// two's-complement style range that holds it.
pub proof fn lemma_parse_of_dec_signed(v: i128, min: i128, max: i128)
    requires
        min <= v <= max,
        min < 0 <= max,
        min as int == -(max as int) - 1,
    ensures
        spec_parse_signed(dec_int(v as int), min, max) == Ok::<i128, IntParseError>(v),
{
    if v >= 0 {
        lemma_dec_digits_first(v as nat);
        lemma_scan_of_dec(v as u128, max as u128);
    } else {
        let mag = -(v as int);
        let s = dec_int(v as int);
        lemma_dec_digits_first(mag as nat);
        assert(s[0] == '-');
        assert(s.skip(1) =~= dec_digits(mag as nat));
        let mag_max: u128 = ((max as u128) + 1) as u128;
        lemma_scan_of_dec(mag as u128, mag_max);
        lemma_scan_neg_corresponds(dec_digits(mag as nat), 0, mag_max, 0, min);
    }
}

/// Ten to the number of digits in the canonical rendering of `n`.
pub closed spec fn pow10_len(n: nat) -> nat
    decreases n,
{
    if n < 10 {
        10
    } else {
        10 * pow10_len(n / 10)
    }
}

proof fn lemma_pow10_len_step(n: nat)
    requires
        n >= 10,
    ensures
        pow10_len(n) == 10 * pow10_len(n / 10),
        pow10_len(n) >= 10,
        pow10_len(n / 10) >= 1,
    decreases n,
{
    lemma_pow10_len_pos(n / 10);
}

proof fn lemma_pow10_len_pos(n: nat)
    ensures
        pow10_len(n) >= 10,
    decreases n,
{
    if n >= 10 {
        lemma_pow10_len_pos(n / 10);
    }
}

/// Appending one character to scanned text either propagates the first
/// failure of the prefix, or extends its value by one digit.
proof fn lemma_scan_snoc(s: Seq<char>, c: char, acc: u128, max: u128, v: u128)
    requires
        scan_digits(s, acc, max) == Ok::<u128, IntParseError>(v),
        is_dec_digit(c),
        v * 10 + digit_val(c) <= max,
    ensures
        scan_digits(s.push(c), acc, max) == Ok::<u128, IntParseError>(
            (v * 10 + digit_val(c)) as u128,
        ),
    decreases s.len(),
{
    if s.len() == 0 {
        assert(s.push(c).len() == 1);
        assert(s.push(c)[0] == c);
        assert(acc == v);
        assert(s.push(c).skip(1) =~= Seq::<char>::empty());
        assert(scan_digits(s.push(c).skip(1), (acc * 10 + digit_val(c)) as u128, max)
            == Ok::<u128, IntParseError>((acc * 10 + digit_val(c)) as u128));
    } else {
        assert(scan_digits(s, acc, max) == Ok::<u128, IntParseError>(v));
        assert(is_dec_digit(s[0]) && !(acc * 10 + digit_val(s[0]) > max) && scan_digits(
            s.skip(1),
            (acc * 10 + digit_val(s[0])) as u128,
            max,
        ) == Ok::<u128, IntParseError>(v));
        assert(s.push(c).len() == s.len() + 1);
        assert(s.push(c)[0] == s[0]);
        assert(s.push(c).skip(1) =~= s.skip(1).push(c));
        lemma_scan_snoc(s.skip(1), c, (acc * 10 + digit_val(s[0])) as u128, max, v);
        assert(scan_digits(s.push(c).skip(1), (acc * 10 + digit_val(s[0])) as u128, max)
            == Ok::<u128, IntParseError>((v * 10 + digit_val(c)) as u128));
    }
}

} // verus!
