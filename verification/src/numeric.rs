//! Numbers of scene files: decimal unsigned integers, and floating-point
//! values, which the library holds as IEEE-754 bit patterns.

use vstd::prelude::*;

verus! {

/// An IEEE-754 double-precision value, held as its bit pattern.
#[derive(Clone, Copy, Debug, PartialEq, Eq, Structural)]
pub struct FloatBits(pub u64);

impl FloatBits {
    /// Positive zero.
    pub fn zero() -> (r: FloatBits)
        ensures
            r.0 == 0,
    {
        FloatBits(0)
    }
}

/// The biased exponent field of an encoded double.
pub open spec fn exponent_field(b: u64) -> u64 {
    (b >> 52u64) & 0x7ffu64
}

/// The fraction field of an encoded double.
pub open spec fn fraction_field(b: u64) -> u64 {
    b & 0xf_ffff_ffff_ffffu64
}

/// The sign bit of an encoded double.
pub open spec fn sign_bit(b: u64) -> bool {
    (b >> 63u64) == 1
}

/// The encoded value is NaN.
pub open spec fn encodes_nan(b: u64) -> bool {
    exponent_field(b) == 0x7ff && fraction_field(b) != 0
}

/// The encoded value is a number `v` with `0 <= v <= 1`: a zero of either sign,
/// a positive number whose exponent is below the bias, or exactly one.
pub open spec fn encodes_unit_interval(b: u64) -> bool {
    ||| (exponent_field(b) == 0 && fraction_field(b) == 0)
    ||| (!sign_bit(b) && exponent_field(b) < 1023)
    ||| (!sign_bit(b) && exponent_field(b) == 1023 && fraction_field(b) == 0)
}

/// Neither `v < 0.0` nor `v > 1.0` holds of the encoded value `v`
/// (it lies in `[0, 1]`, or it is NaN, which compares false with everything).
pub open spec fn not_outside_unit_interval(b: u64) -> bool {
    encodes_unit_interval(b) || encodes_nan(b)
}

/// Whether neither `v < 0.0` nor `v > 1.0` holds of the value `v` encoded by `f`.
pub fn is_not_outside_unit_interval(f: FloatBits) -> (r: bool)
    ensures
        r == not_outside_unit_interval(f.0),
{
    let b = f.0;
    assert((b <= 0x3ff0_0000_0000_0000u64 || b == 0x8000_0000_0000_0000u64 || ((b
        & 0x7ff0_0000_0000_0000u64) == 0x7ff0_0000_0000_0000u64 && (b & 0x000f_ffff_ffff_ffffu64)
        != 0)) == not_outside_unit_interval(b)) by (bit_vector);
    b <= 0x3ff0_0000_0000_0000u64 || b == 0x8000_0000_0000_0000u64 || ((b
        & 0x7ff0_0000_0000_0000u64) == 0x7ff0_0000_0000_0000u64 && (b & 0x000f_ffff_ffff_ffffu64)
        != 0)
}

pub open spec fn is_digit(c: char) -> bool {
    '0' <= c && c <= '9'
}

pub open spec fn all_digits(s: Seq<char>) -> bool {
    forall|i: int| 0 <= i < s.len() ==> is_digit(#[trigger] s[i])
}

/// ASCII lowercase of `c`; other characters are unchanged.
pub open spec fn ascii_lower(c: char) -> char {
    if 'A' <= c && c <= 'Z' {
        ((c as u32) + 32) as char
    } else {
        c
    }
}

/// The value of a nonempty string of decimal digits.
pub open spec fn decimal_value(d: Seq<char>) -> nat
    decreases d.len(),
{
    if d.len() == 0 {
        0
    } else {
        decimal_value(d.drop_last()) * 10 + ((d.last() as u32) - ('0' as u32)) as nat
    }
}

/// The digits of an unsigned literal: `s` without an optional leading `+`.
pub open spec fn unsigned_digits(s: Seq<char>) -> Seq<char> {
    if s.len() > 0 && s[0] == '+' {
        s.skip(1)
    } else {
        s
    }
}

/// `s` is an unsigned decimal literal: an optional `+`, then one or more digits.
pub open spec fn is_unsigned_literal(s: Seq<char>) -> bool {
    unsigned_digits(s).len() > 0 && all_digits(unsigned_digits(s))
}

/// The value of `s` read as a `usize` (as `usize::from_str`): present when `s` is an
/// unsigned literal whose value fits.
pub open spec fn usize_value(s: Seq<char>) -> Option<usize> {
    if is_unsigned_literal(s) && decimal_value(unsigned_digits(s)) <= usize::MAX {
        Some(decimal_value(unsigned_digits(s)) as usize)
    } else {
        None
    }
}

proof fn lemma_decimal_value_push(d: Seq<char>, c: char)
    requires
        is_digit(c),
    ensures
        decimal_value(d.push(c)) == decimal_value(d) * 10 + ((c as u32) - ('0' as u32)) as nat,
{
    assert(d.push(c).drop_last() =~= d);
}

proof fn lemma_decimal_value_monotone(d: Seq<char>, k: int)
    requires
        0 <= k <= d.len(),
        all_digits(d),
    ensures
        decimal_value(d.take(k)) <= decimal_value(d),
    decreases d.len() - k,
{
    if k < d.len() {
        lemma_decimal_value_monotone(d, k + 1);
        assert(d.take(k + 1).drop_last() =~= d.take(k));
        assert(d.take(k + 1).last() == d[k]);
        assert(is_digit(d[k]));
    } else {
        assert(d.take(k) =~= d);
    }
}

/// Reads `s` as an unsigned decimal literal that fits in a `usize` (`str::parse::<usize>`).
pub fn parse_usize(s: &str) -> (r: Option<usize>)
    ensures
        r == usize_value(s@),
{
    let n = s.unicode_len();
    let mut start: usize = 0;
    if n > 0 && s.get_char(0) == '+' {
        start = 1;
    }
    let ghost d = unsigned_digits(s@);
    assert(d =~= s@.skip(start as int));
    if start >= n {
        return None;
    }
    let mut value: usize = 0;
    let mut i: usize = start;
    while i < n
        invariant
            start <= i <= n,
            n == s@.len(),
            d =~= s@.skip(start as int),
            d == unsigned_digits(s@),
            all_digits(d.take(i - start)),
            value as nat == decimal_value(d.take(i - start)),
        decreases n - i,
    {
        let c = s.get_char(i);
        if !('0' <= c && c <= '9') {
            assert(d[i - start] == s@[i as int]);
            assert(!is_digit(d[i - start]));
            assert(!all_digits(d));
            return None;
        }
        let digit = (c as u32 - '0' as u32) as usize;
        proof {
            assert(d[i - start] == s@[i as int]);
            assert(d.take(i - start + 1) =~= d.take(i - start).push(c));
            lemma_decimal_value_push(d.take(i - start), c);
        }
        match value.checked_mul(10) {
            Some(v) => match v.checked_add(digit) {
                Some(w) => {
                    value = w;
                },
                None => {
                    proof {
                        lemma_value_too_big(d, (i - start + 1) as int);
                    }
                    return None;
                },
            },
            None => {
                proof {
                    lemma_value_too_big(d, (i - start + 1) as int);
                }
                return None;
            },
        }
        i = i + 1;
    }
    assert(d.take(n - start) =~= d);
    Some(value)
}

proof fn lemma_value_too_big(d: Seq<char>, k: int)
    requires
        0 <= k <= d.len(),
        all_digits(d.take(k - 1)),
        1 <= k,
        is_digit(d[k - 1]),
        decimal_value(d.take(k)) > usize::MAX,
    ensures
        !(all_digits(d) && decimal_value(d) <= usize::MAX),
{
    if all_digits(d) {
        lemma_decimal_value_monotone(d, k);
    }
}

} // verus!
