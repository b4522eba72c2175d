//! Numeric field tokens: integers and exact decimals.
use vstd::prelude::*;
use vstd::utf8::is_ascii_chars;
use crate::text::{
    all_digits, char_at, digits_between, find_from, digit_value, digits_value, find_char, is_digit, lemma_digits_value_prefix,
    lemma_find_char,
};

verus! {

broadcast use vstd::string::group_string_axioms;

/// An exact decimal number: `mantissa` divided by ten to the power `scale`.
///
/// Values read from a field are canonical (see [`is_canonical`]), so two fields that spell
/// the same number, such as `040` and `40.00`, read as equal values of this type.
///
/// A field is read as a decimal only when it is an optional sign, digits and at most one
/// point. Exponents (`1e-3`), `inf` and `NaN` are not numbers here, nor is a field whose
/// mantissa (its digits without trailing zeros after the point) exceeds `i64::MAX`: such a
/// field is absent where a number is optional and a `NumericFormatError` where it is
/// required.
#[derive(Debug, Clone, Copy, PartialEq, Eq, Structural)]
pub struct Decimal {
    pub mantissa: i64,
    pub scale: usize,
}

/// Whether `d` is written with no trailing zero after the point: its scale is zero or the
/// last digit of its mantissa is not zero.
pub open spec fn is_canonical(d: Decimal) -> bool {
    d.scale == 0 || d.mantissa as int % 10 != 0
}

/// Length of the optional leading sign of a numeric token.
pub open spec fn sign_len(s: Seq<char>) -> int {
    if s.len() > 0 && (s[0] == '+' || s[0] == '-') {
        1
    } else {
        0
    }
}

/// Whether a numeric token starts with a minus sign.
pub open spec fn is_negative(s: Seq<char>) -> bool {
    s.len() > 0 && s[0] == '-'
}

/// The signed integer that `s` spells: an optional sign and at least one digit.
pub open spec fn integer_of(s: Seq<char>) -> Option<int> {
    let d = s.skip(sign_len(s));
    if d.len() > 0 && all_digits(d) {
        Some(
            if is_negative(s) {
                -digits_value(d)
            } else {
                digits_value(d) as int
            },
        )
    } else {
        None
    }
}

/// A token read as an `i32`; `None` when it is not an integer or does not fit.
pub open spec fn i32_of(s: Seq<char>) -> Option<i32> {
    match integer_of(s) {
        Some(v) => if i32::MIN <= v <= i32::MAX {
            Some(v as i32)
        } else {
            None
        },
        None => None,
    }
}

/// A token read as an unsigned integer no larger than `max`; a minus sign is refused.
pub open spec fn unsigned_of(s: Seq<char>, max: nat) -> Option<nat> {
    match integer_of(s) {
        Some(v) => if !is_negative(s) && v <= max {
            Some(v as nat)
        } else {
            None
        },
        None => None,
    }
}

/// A token read as a `u32`.
pub open spec fn u32_of(s: Seq<char>) -> Option<u32> {
    match unsigned_of(s, u32::MAX as nat) {
        Some(v) => Some(v as u32),
        None => None,
    }
}

/// A token read as a `u8`.
pub open spec fn u8_of(s: Seq<char>) -> Option<u8> {
    match unsigned_of(s, u8::MAX as nat) {
        Some(v) => Some(v as u8),
        None => None,
    }
}

/// `s` without its trailing zero characters.
pub open spec fn trim_trailing_zeros(s: Seq<char>) -> Seq<char>
    decreases s.len(),
{
    if s.len() > 0 && s.last() == '0' {
        trim_trailing_zeros(s.drop_last())
    } else {
        s
    }
}

/// The digits of a decimal token before its point (all of them when it has none).
pub open spec fn integral_digits(s: Seq<char>) -> Seq<char> {
    let d = s.skip(sign_len(s));
    d.take(find_char(d, '.') as int)
}

/// The digits of a decimal token after its point (none when it has no point).
pub open spec fn fraction_digits(s: Seq<char>) -> Seq<char> {
    let d = s.skip(sign_len(s));
    let k = find_char(d, '.');
    if k < d.len() {
        d.skip((k + 1) as int)
    } else {
        Seq::empty()
    }
}

/// Whether `s` has the shape of a decimal number: an optional sign, digits, and optionally
/// a point followed by more digits, with at least one digit in all.
pub open spec fn is_decimal_token(s: Seq<char>) -> bool {
    all_digits(integral_digits(s)) && all_digits(fraction_digits(s)) && integral_digits(s).len()
        + fraction_digits(s).len() > 0
}

/// The digits of the canonical mantissa: the fraction loses its trailing zeros.
pub open spec fn mantissa_digits(s: Seq<char>) -> Seq<char> {
    integral_digits(s) + trim_trailing_zeros(fraction_digits(s))
}

/// A token read as an exact decimal, in canonical form; `None` when it is not a decimal
/// number (an optional sign, digits, at most one point, at least one digit; no exponent,
/// `inf` or `NaN`) or its mantissa does not fit in an `i64`.
pub open spec fn decimal_of(s: Seq<char>) -> Option<Decimal> {
    let m = digits_value(mantissa_digits(s));
    if is_decimal_token(s) && m <= i64::MAX {
        Some(
            Decimal {
                mantissa: (if is_negative(s) {
                    -m
                } else {
                    m as int
                }) as i64,
                scale: trim_trailing_zeros(fraction_digits(s)).len() as usize,
            },
        )
    } else {
        None
    }
}

/// Appends the digits `s[from..to]` to the number `acc`, which the digits `prefix` spell;
/// `None` when the result would exceed `limit`.
fn push_digits(s: &str, from: usize, to: usize, acc: u64, limit: u64, Ghost(prefix): Ghost<Seq<char>>) -> (r: Option<u64>)
    requires
        s.is_ascii(),
        from <= to <= s@.len(),
        all_digits(s@.subrange(from as int, to as int)),
        acc == digits_value(prefix),
        acc <= limit,
    ensures
        r == (if digits_value(prefix + s@.subrange(from as int, to as int)) <= limit {
            Some(digits_value(prefix + s@.subrange(from as int, to as int)) as u64)
        } else {
            None::<u64>
        }),
{
    let ghost whole = prefix + s@.subrange(from as int, to as int);
    let mut acc = acc;
    let mut i = from;
    assert(whole.take(prefix.len() as int) =~= prefix);
    while i < to
        invariant
            s.is_ascii(),
            from <= i <= to <= s@.len(),
            all_digits(s@.subrange(from as int, to as int)),
            whole == prefix + s@.subrange(from as int, to as int),
            acc == digits_value(whole.take(prefix.len() + i - from)),
            acc <= limit,
        decreases to - i,
    {
        let c = char_at(s, i);
        assert(is_digit(s@.subrange(from as int, to as int)[i - from]));
        let d = (c as u64) - ('0' as u64);
        let ghost next = whole.take(prefix.len() + i - from + 1);
        assert(next.drop_last() =~= whole.take(prefix.len() + i - from));
        assert(next.last() == c);
        assert(d == digit_value(c));
        if d > limit || acc > (limit - d) / 10 {
            proof {
                assert(digits_value(next) == acc * 10 + d);
                lemma_digits_value_prefix(whole, prefix.len() + i - from + 1);
            }
            return None;
        }
        assert(acc * 10 + d <= limit) by (nonlinear_arith)
            requires
                acc <= (limit - d) / 10,
                d <= limit,
        ;
        acc = acc * 10 + d;
        i += 1;
    }
    assert(whole.take(prefix.len() + i - from) =~= whole);
    Some(acc)
}

/// A token that reads as an integer holds ASCII characters only.
proof fn lemma_integer_ascii(s: Seq<char>)
    requires
        integer_of(s) is Some,
    ensures
        is_ascii_chars(s),
{
    let d = s.skip(sign_len(s));
    assert forall|i: int| 0 <= i < s.len() implies '\0' <= #[trigger] s[i] <= '\u{7f}' by {
        if i >= sign_len(s) {
            assert(s[i] == d[i - sign_len(s)]);
            assert(is_digit(d[i - sign_len(s)]));
        }
    }
}

/// A decimal token holds ASCII characters only.
proof fn lemma_decimal_ascii(s: Seq<char>)
    requires
        is_decimal_token(s),
    ensures
        is_ascii_chars(s),
{
    let d = s.skip(sign_len(s));
    let k = find_char(d, '.') as int;
    lemma_find_char(d, '.');
    assert forall|i: int| 0 <= i < s.len() implies '\0' <= #[trigger] s[i] <= '\u{7f}' by {
        if i >= sign_len(s) {
            let j = i - sign_len(s);
            assert(s[i] == d[j]);
            if j < k {
                assert(d[j] == integral_digits(s)[j]);
                assert(is_digit(integral_digits(s)[j]));
            } else if j > k {
                assert(d[j] == fraction_digits(s)[j - k - 1]);
                assert(is_digit(fraction_digits(s)[j - k - 1]));
            }
        }
    }
}

/// Reads the optional sign of a token: its length and whether it is a minus.
fn read_sign(s: &str, n: usize) -> (r: (usize, bool))
    requires
        s.is_ascii(),
        n == s@.len(),
    ensures
        r.0 == sign_len(s@),
        r.1 == is_negative(s@),
{
    if n == 0 {
        return (0, false);
    }
    let c = char_at(s, 0);
    if c == '+' {
        (1, false)
    } else if c == '-' {
        (1, true)
    } else {
        (0, false)
    }
}

/// Reads an integer token whose magnitude may reach `limit_pos` when it has no minus sign
/// and `limit_neg` when it has one.
fn parse_integer(s: &str, limit_pos: u64, limit_neg: u64) -> (r: Option<(bool, u64)>)
    ensures
        r == (match integer_of(s@) {
            Some(v) => if (v >= 0 && !is_negative(s@) && v <= limit_pos) || (is_negative(s@)
                && -v <= limit_neg) {
                Some(
                    (
                        is_negative(s@),
                        (if is_negative(s@) {
                            -v
                        } else {
                            v
                        }) as u64,
                    ),
                )
            } else {
                None
            },
            None => None::<(bool, u64)>,
        }),
{
    if !s.is_ascii() {
        proof {
            if integer_of(s@) is Some {
                lemma_integer_ascii(s@);
            }
        }
        return None;
    }
    let n = s.unicode_len();
    let (start, neg) = read_sign(s, n);
    assert(s@.skip(start as int) =~= s@.subrange(start as int, n as int));
    if start == n || !digits_between(s, start, n) {
        return None;
    }
    let limit = if neg {
        limit_neg
    } else {
        limit_pos
    };
    assert(Seq::<char>::empty() + s@.subrange(start as int, n as int) =~= s@.subrange(
        start as int,
        n as int,
    ));
    match push_digits(s, start, n, 0, limit, Ghost(Seq::empty())) {
        Some(m) => Some((neg, m)),
        None => None,
    }
}

/// Reads a token as an `i32`: an optional sign and decimal digits, in range.
pub fn parse_i32(s: &str) -> (r: Option<i32>)
    ensures
        r == i32_of(s@),
{
    match parse_integer(s, 0x7fff_ffff, 0x8000_0000) {
        Some((neg, m)) => if neg {
            Some((0 - (m as i64)) as i32)
        } else {
            Some(m as i32)
        },
        None => None,
    }
}

/// Reads a token as a `u32`: an optional plus sign and decimal digits, in range.
pub fn parse_u32(s: &str) -> (r: Option<u32>)
    ensures
        r == u32_of(s@),
{
    match parse_integer(s, 0xffff_ffff, 0) {
        Some((neg, m)) => if neg {
            None
        } else {
            Some(m as u32)
        },
        None => None,
    }
}

/// Reads a token as a `u8`: an optional plus sign and decimal digits, in range.
pub fn parse_u8(s: &str) -> (r: Option<u8>)
    ensures
        r == u8_of(s@),
{
    match parse_integer(s, 0xff, 0) {
        Some((neg, m)) => if neg {
            None
        } else {
            Some(m as u8)
        },
        None => None,
    }
}

/// Reads a token as an exact decimal number in canonical form.
pub fn parse_decimal(s: &str) -> (r: Option<Decimal>)
    ensures
        r == decimal_of(s@),
{
    if !s.is_ascii() {
        proof {
            if is_decimal_token(s@) {
                lemma_decimal_ascii(s@);
            }
        }
        return None;
    }
    let n = s.unicode_len();
    let (start, neg) = read_sign(s, n);
    let k = find_from(s, start, '.');
    let frac_start = if k < n {
        k + 1
    } else {
        n
    };
    proof {
        let d = s@.skip(start as int);
        lemma_find_char(d, '.');
        assert(integral_digits(s@) =~= s@.subrange(start as int, k as int));
        assert(fraction_digits(s@) =~= s@.subrange(frac_start as int, n as int));
    }
    if !digits_between(s, start, k) || !digits_between(s, frac_start, n) || (k - start) + (n
        - frac_start) == 0 {
        return None;
    }
    let mut j = n;
    while j > frac_start && char_at(s, j - 1) == '0'
        invariant
            s.is_ascii(),
            frac_start <= j <= n == s@.len(),
            trim_trailing_zeros(fraction_digits(s@)) == trim_trailing_zeros(
                s@.subrange(frac_start as int, j as int),
            ),
        decreases j,
    {
        assert(s@.subrange(frac_start as int, j as int).drop_last() =~= s@.subrange(
            frac_start as int,
            j as int - 1,
        ));
        j -= 1;
    }
    let ghost ip = s@.subrange(start as int, k as int);
    let ghost ft = s@.subrange(frac_start as int, j as int);
    assert(trim_trailing_zeros(ft) == ft);
    assert(mantissa_digits(s@) == ip + ft);
    assert(Seq::<char>::empty() + ip =~= ip);
    assert(all_digits(ft)) by {
        assert forall|i: int| 0 <= i < ft.len() implies is_digit(#[trigger] ft[i]) by {
            assert(ft[i] == s@.subrange(frac_start as int, n as int)[i]);
        }
    }
    let m1 = match push_digits(s, start, k, 0, 0x7fff_ffff_ffff_ffff, Ghost(Seq::empty())) {
        Some(m) => m,
        None => {
            proof {
                assert((ip + ft).take(ip.len() as int) =~= ip);
                lemma_digits_value_prefix(ip + ft, ip.len() as int);
            }
            return None;
        },
    };
    let m = match push_digits(s, frac_start, j, m1, 0x7fff_ffff_ffff_ffff, Ghost(ip)) {
        Some(m) => m,
        None => return None,
    };
    let mantissa: i64 = if neg {
        0 - (m as i64)
    } else {
        m as i64
    };
    Some(Decimal { mantissa, scale: j - frac_start })
}

/// The last digit of a run of digits is the remainder of its value modulo ten.
proof fn lemma_last_digit(s: Seq<char>)
    requires
        s.len() > 0,
        is_digit(s.last()),
    ensures
        digits_value(s) % 10 == digit_value(s.last()),
{
    let p = digits_value(s.drop_last());
    assert((p * 10 + digit_value(s.last())) % 10 == digit_value(s.last())) by (nonlinear_arith)
        requires
            digit_value(s.last()) < 10,
    ;
}

/// `trim_trailing_zeros` keeps a prefix that, when not empty, does not end with a zero.
proof fn lemma_trim_trailing_zeros(s: Seq<char>)
    ensures
        trim_trailing_zeros(s).len() <= s.len(),
        trim_trailing_zeros(s) =~= s.take(trim_trailing_zeros(s).len() as int),
        trim_trailing_zeros(s).len() > 0 ==> trim_trailing_zeros(s).last() != '0',
    decreases s.len(),
{
    if s.len() > 0 && s.last() == '0' {
        lemma_trim_trailing_zeros(s.drop_last());
    }
}

/// Every decimal read from a token is canonical.
pub proof fn decimal_of_is_canonical(s: Seq<char>)
    requires
        decimal_of(s) is Some,
    ensures
        is_canonical(decimal_of(s)->0),
{
    let f = fraction_digits(s);
    let ft = trim_trailing_zeros(f);
    lemma_trim_trailing_zeros(f);
    if ft.len() > 0 {
        let m = mantissa_digits(s);
        assert(m.last() == ft.last());
        assert(is_digit(ft.last())) by {
            assert(ft.last() == f[ft.len() - 1]);
        }
        lemma_last_digit(m);
        let v = digits_value(m) as int;
        assert(v % 10 != 0);
        assert((-v) % 10 != 0) by (nonlinear_arith)
            requires
                v % 10 != 0,
        ;
    }
}

} // verus!
