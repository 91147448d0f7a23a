//! Double-precision numbers, represented by the bit pattern of an
//! IEEE-754 binary64 value held in a `u64`.
//!
//! Negation, comparison and equality are bit-level operations and are
//! implemented and specified here directly. Addition, subtraction,
//! multiplication, division, decimal parsing and decimal formatting
//! are performed by the `rustc_apfloat` soft-float crate behind
//! trusted wrappers; their results are named by uninterpreted spec
//! functions, since stating IEEE-754 rounding in full is not feasible.

use vstd::prelude::*;

use rustc_apfloat::Float;
use rustc_apfloat::ieee::Double;

verus! {

/// Sign bit of a binary64 bit pattern.
pub const SIGN_MASK: u64 = 0x8000_0000_0000_0000;

/// All bits but the sign bit.
pub const ABS_MASK: u64 = 0x7FFF_FFFF_FFFF_FFFF;

/// Magnitude of an infinity: all exponent bits set, significand zero.
pub const INF_ABS: u64 = 0x7FF0_0000_0000_0000;

/// Whether the bit pattern encodes a NaN.
pub open spec fn spec_is_nan(bits: u64) -> bool {
    bits & ABS_MASK > INF_ABS
}

/// Whether the bit pattern encodes a zero (of either sign).
pub open spec fn spec_is_zero(bits: u64) -> bool {
    bits & ABS_MASK == 0
}

/// Whether the bit pattern encodes an infinity (of either sign).
pub open spec fn spec_is_inf(bits: u64) -> bool {
    bits & ABS_MASK == INF_ABS
}

/// Whether the sign bit is set.
pub open spec fn spec_is_sign_negative(bits: u64) -> bool {
    bits & SIGN_MASK == SIGN_MASK
}

/// Monotone key: for bit patterns of non-NaN values, the IEEE-754
/// order of the values agrees with the unsigned order of the keys,
/// except that the two zeroes get distinct keys.
pub open spec fn spec_ord_key(bits: u64) -> u64 {
    if bits & SIGN_MASK == SIGN_MASK {
        !bits
    } else {
        (bits + SIGN_MASK) as u64
    }
}

/// IEEE-754 equality of two doubles given by bit patterns: NaN equals
/// nothing, the two zeroes are equal, everything else compares by bits.
pub open spec fn spec_num_eq(a: u64, b: u64) -> bool {
    &&& !spec_is_nan(a)
    &&& !spec_is_nan(b)
    &&& (a == b || (spec_is_zero(a) && spec_is_zero(b)))
}

/// IEEE-754 `<` of two doubles given by bit patterns.
pub open spec fn spec_num_lt(a: u64, b: u64) -> bool {
    &&& !spec_is_nan(a)
    &&& !spec_is_nan(b)
    &&& !(spec_is_zero(a) && spec_is_zero(b))
    &&& spec_ord_key(a) < spec_ord_key(b)
}

/// IEEE-754 `<=` of two doubles given by bit patterns.
pub open spec fn spec_num_le(a: u64, b: u64) -> bool {
    spec_num_eq(a, b) || spec_num_lt(a, b)
}

/// IEEE-754 negation: the sign bit flips, nothing else changes.
pub open spec fn spec_num_neg(bits: u64) -> u64 {
    bits ^ SIGN_MASK
}

pub fn num_is_nan(bits: u64) -> (r: bool)
    ensures
        r == spec_is_nan(bits),
{
    bits & ABS_MASK > INF_ABS
}

pub fn num_is_inf(bits: u64) -> (r: bool)
    ensures
        r == spec_is_inf(bits),
{
    bits & ABS_MASK == INF_ABS
}

pub fn num_is_sign_negative(bits: u64) -> (r: bool)
    ensures
        r == spec_is_sign_negative(bits),
{
    bits & SIGN_MASK == SIGN_MASK
}

pub fn num_eq(a: u64, b: u64) -> (r: bool)
    ensures
        r == spec_num_eq(a, b),
{
    !num_is_nan(a) && !num_is_nan(b) && (a == b || (a & ABS_MASK == 0 && b & ABS_MASK == 0))
}

pub fn num_lt(a: u64, b: u64) -> (r: bool)
    ensures
        r == spec_num_lt(a, b),
{
    let ka: u64 = if a & SIGN_MASK == SIGN_MASK {
        !a
    } else {
        assert(a + SIGN_MASK <= u64::MAX) by (bit_vector)
            requires
                a & SIGN_MASK != SIGN_MASK,
        ;
        a + SIGN_MASK
    };
    let kb: u64 = if b & SIGN_MASK == SIGN_MASK {
        !b
    } else {
        assert(b + SIGN_MASK <= u64::MAX) by (bit_vector)
            requires
                b & SIGN_MASK != SIGN_MASK,
        ;
        b + SIGN_MASK
    };
    !num_is_nan(a) && !num_is_nan(b) && !(a & ABS_MASK == 0 && b & ABS_MASK == 0) && ka < kb
}

pub fn num_le(a: u64, b: u64) -> (r: bool)
    ensures
        r == spec_num_le(a, b),
{
    num_eq(a, b) || num_lt(a, b)
}

pub fn num_neg(bits: u64) -> (r: u64)
    ensures
        r == spec_num_neg(bits),
{
    bits ^ SIGN_MASK
}

/// Bit pattern of the IEEE-754 double sum of the two operands.
pub uninterp spec fn spec_num_add(a: u64, b: u64) -> u64;

/// Bit pattern of the IEEE-754 double difference of the two operands.
pub uninterp spec fn spec_num_sub(a: u64, b: u64) -> u64;

/// Bit pattern of the IEEE-754 double product of the two operands.
pub uninterp spec fn spec_num_mul(a: u64, b: u64) -> u64;

/// Bit pattern of the IEEE-754 double quotient of the two operands.
pub uninterp spec fn spec_num_div(a: u64, b: u64) -> u64;

/// Relies on rustc_apfloat's `ieee::Double` addition (`Add::add`,
/// round to nearest, ties to even): a deterministic function of the
/// two bit patterns.
#[verifier::external_body]
pub(crate) fn num_add(a: u64, b: u64) -> (r: u64)
    ensures
        r == spec_num_add(a, b),
{
    (Double::from_bits(a as u128) + Double::from_bits(b as u128)).value.to_bits() as u64
}

/// Relies on rustc_apfloat's `ieee::Double` subtraction (`Sub::sub`,
/// round to nearest, ties to even).
#[verifier::external_body]
pub(crate) fn num_sub(a: u64, b: u64) -> (r: u64)
    ensures
        r == spec_num_sub(a, b),
{
    (Double::from_bits(a as u128) - Double::from_bits(b as u128)).value.to_bits() as u64
}

/// Relies on rustc_apfloat's `ieee::Double` multiplication (`Mul::mul`,
/// round to nearest, ties to even).
#[verifier::external_body]
pub(crate) fn num_mul(a: u64, b: u64) -> (r: u64)
    ensures
        r == spec_num_mul(a, b),
{
    (Double::from_bits(a as u128) * Double::from_bits(b as u128)).value.to_bits() as u64
}

/// Relies on rustc_apfloat's `ieee::Double` division (`Div::div`,
/// round to nearest, ties to even).
#[verifier::external_body]
pub(crate) fn num_div(a: u64, b: u64) -> (r: u64)
    ensures
        r == spec_num_div(a, b),
{
    (Double::from_bits(a as u128) / Double::from_bits(b as u128)).value.to_bits() as u64
}

/// Whether the characters form a number lexeme as the scanner produces
/// them: one or more digits, optionally followed by a point and one or
/// more digits.
pub open spec fn spec_is_number_lexeme(s: Seq<char>) -> bool {
    exists|k: int|
        {
            &&& 1 <= k <= s.len()
            &&& (forall|i: int| 0 <= i < k ==> #[trigger] spec_is_digit(s[i]))
            &&& (k == s.len() || (k + 2 <= s.len() && s[k] == '.' && forall|i: int|
                k < i < s.len() ==> #[trigger] spec_is_digit(s[i])))
        }
}

/// Whether the character is an ASCII decimal digit.
pub open spec fn spec_is_digit(c: char) -> bool {
    '0' <= c <= '9'
}

/// Decimal rendering of the double with `digits` significant digits
/// at most: what rustc_apfloat's `Display` prints for the bit pattern
/// with that precision and a width of 400. Positional for every value
/// whose integer part fits the precision; scientific otherwise —
/// which the caller avoids by rendering moderate integers itself.
pub uninterp spec fn spec_num_digits(bits: u64, digits: u64) -> Seq<char>;

/// Bit pattern of the double nearest to the decimal the characters
/// spell, by rustc_apfloat's `FromStr` (round to nearest, ties to
/// even), or `None` where they spell no decimal at all.
pub uninterp spec fn spec_num_parse(s: Seq<char>) -> Option<u64>;

/// Relies on rustc_apfloat's `Display` for `ieee::Double`: a
/// deterministic decimal rendering of the bit pattern with the given
/// number of significant digits and a width of 400.
#[verifier::external_body]
fn num_digits(bits: u64, digits: u64) -> (r: String)
    ensures
        r@ == spec_num_digits(bits, digits),
{
    format!("{:400.*}", digits as usize, Double::from_bits(bits as u128))
}

/// Relies on rustc_apfloat's `FromStr` for `ieee::Double`: correctly
/// rounded decimal-to-binary conversion. Its source accepts every
/// string of digits with an optional fraction, so a number lexeme
/// always parses.
#[verifier::external_body]
pub(crate) fn num_parse(s: &str) -> (r: Option<u64>)
    ensures
        r == spec_num_parse(s@),
        spec_is_number_lexeme(s@) ==> r is Some,
{
    match s.parse::<Double>() {
        Ok(d) => Some(d.to_bits() as u64),
        Err(_) => None,
    }
}

/// The biased exponent field of a binary64 bit pattern.
pub open spec fn spec_biased_exp(bits: u64) -> u64 {
    (bits >> 52) & 0x7FF
}

/// The significand field of a binary64 bit pattern.
pub open spec fn spec_mant(bits: u64) -> u64 {
    bits & 0xF_FFFF_FFFF_FFFF
}

/// Whether the double is an integer below 2^53 in magnitude: the
/// range where every integer has exactly one double, so its exact
/// decimal digits are also its shortest reading.
pub open spec fn spec_small_int(bits: u64) -> bool {
    let biased = spec_biased_exp(bits);
    let mant = spec_mant(bits);
    ||| (biased == 0 && mant == 0)
    ||| (1023 <= biased <= 1075 && mant & (((1u64 << ((1075 - biased) as u64)) - 1) as u64) == 0)
}

/// The magnitude of a small integral double, as an integer.
pub open spec fn spec_int_value(bits: u64) -> u64 {
    let biased = spec_biased_exp(bits);
    let mant = spec_mant(bits);
    if biased == 0 {
        0u64
    } else {
        ((mant + 0x10_0000_0000_0000) as u64) >> ((1075 - biased) as u64)
    }
}

/// The decimal rendering of the double: NaN and the infinities by
/// name; an integral value below 2^128 exactly, digit by digit; any
/// other value by the shortest decimal (at most 17 significant
/// digits) that parses back to the same bit pattern, or with 17
/// digits where none shorter round-trips.
pub open spec fn spec_num_repr(bits: u64) -> Seq<char> {
    if spec_is_nan(bits) {
        "NaN"@
    } else if spec_is_inf(bits) {
        if spec_is_sign_negative(bits) {
            "-inf"@
        } else {
            "inf"@
        }
    } else if spec_small_int(bits) {
        if spec_is_sign_negative(bits) {
            "-"@ + spec_nat_repr(spec_int_value(bits) as int)
        } else {
            spec_nat_repr(spec_int_value(bits) as int)
        }
    } else {
        spec_num_repr_from(bits, 1)
    }
}

/// The shortest round-tripping rendering with at least `digits`
/// significant digits, capped at 17.
pub open spec fn spec_num_repr_from(bits: u64, digits: u64) -> Seq<char>
    decreases 17 - digits,
{
    if digits >= 17 {
        spec_num_digits(bits, 17)
    } else if spec_num_parse(spec_num_digits(bits, digits)) == Some(bits) {
        spec_num_digits(bits, digits)
    } else {
        spec_num_repr_from(bits, (digits + 1) as u64)
    }
}

/// Decimal text of a non-negative integer.
pub fn u128_repr(n: u128) -> (r: String)
    ensures
        r@ == spec_nat_repr(n as int),
    decreases n,
{
    proof {
        lemma_digit_strlits();
    }
    let d: u128 = n % 10;
    let c: &str = if d == 0 {
        "0"
    } else if d == 1 {
        "1"
    } else if d == 2 {
        "2"
    } else if d == 3 {
        "3"
    } else if d == 4 {
        "4"
    } else if d == 5 {
        "5"
    } else if d == 6 {
        "6"
    } else if d == 7 {
        "7"
    } else if d == 8 {
        "8"
    } else {
        "9"
    };
    if n <= 9 {
        let mut out = String::new();
        out.append(c);
        proof {
            assert(out@ =~= spec_nat_repr(n as int));
        }
        out
    } else {
        let mut out = u128_repr(n / 10);
        out.append(c);
        proof {
            assert(out@ =~= spec_nat_repr(n as int));
        }
        out
    }
}

/// Decimal text of the double: exact for integral values below 2^128,
/// otherwise the shortest rendering that reads back to the same
/// value.
pub fn num_repr(bits: u64) -> (r: String)
    ensures
        r@ == spec_num_repr(bits),
{
    if num_is_nan(bits) {
        return "NaN".to_owned();
    }
    if num_is_inf(bits) {
        if num_is_sign_negative(bits) {
            return "-inf".to_owned();
        } else {
            return "inf".to_owned();
        }
    }
    let biased: u64 = (bits >> 52) & 0x7FF;
    let mant: u64 = bits & 0xF_FFFF_FFFF_FFFF;
    proof {
        assert(mant <= 0xF_FFFF_FFFF_FFFF) by (bit_vector)
            requires
                mant == bits & 0xF_FFFF_FFFF_FFFF,
        ;
    }
    let small_int: bool = if biased == 0 && mant == 0 {
        true
    } else if 1023 <= biased && biased <= 1075 {
        let k: u64 = 1075 - biased;
        proof {
            assert(1u64 << k >= 1) by (bit_vector)
                requires
                    k <= 52,
            ;
        }
        let mask: u64 = (1u64 << k) - 1;
        mant & mask == 0
    } else {
        false
    };
    proof {
        assert(small_int == spec_small_int(bits));
    }
    if small_int {
        let magnitude: u64 = if biased == 0 {
            0u64
        } else {
            let k: u64 = 1075 - biased;
            (mant + 0x10_0000_0000_0000) >> k
        };
        proof {
            assert(magnitude == spec_int_value(bits));
        }
        let body = u128_repr(magnitude as u128);
        if num_is_sign_negative(bits) {
            let mut out = "-".to_owned();
            out.append(body.as_str());
            return out;
        } else {
            return body;
        }
    }
    let mut digits: u64 = 1;
    while digits < 17
        invariant
            1 <= digits <= 17,
            spec_num_repr_from(bits, 1) == spec_num_repr_from(bits, digits),
            !spec_is_nan(bits),
            !spec_is_inf(bits),
            !spec_small_int(bits),
        decreases 17 - digits,
    {
        let s = num_digits(bits, digits);
        let back = num_parse(s.as_str());
        match back {
            Some(b) => {
                if b == bits {
                    return s;
                }
            },
            None => {},
        }
        digits = digits + 1;
    }
    num_digits(bits, 17)
}

/// The character of one decimal digit.
pub open spec fn spec_digit_char(d: int) -> char {
    if d == 0 {
        '0'
    } else if d == 1 {
        '1'
    } else if d == 2 {
        '2'
    } else if d == 3 {
        '3'
    } else if d == 4 {
        '4'
    } else if d == 5 {
        '5'
    } else if d == 6 {
        '6'
    } else if d == 7 {
        '7'
    } else if d == 8 {
        '8'
    } else {
        '9'
    }
}

/// Decimal digits of a non-negative integer.
pub open spec fn spec_nat_repr(n: int) -> Seq<char>
    decreases n,
{
    if n <= 9 {
        seq![spec_digit_char(if n < 0 { 0int } else { n })]
    } else {
        spec_nat_repr(n / 10).push(spec_digit_char(n % 10))
    }
}

/// The views of the ten digit literals.
proof fn lemma_digit_strlits()
    ensures
        "0"@ =~= seq!['0'],
        "1"@ =~= seq!['1'],
        "2"@ =~= seq!['2'],
        "3"@ =~= seq!['3'],
        "4"@ =~= seq!['4'],
        "5"@ =~= seq!['5'],
        "6"@ =~= seq!['6'],
        "7"@ =~= seq!['7'],
        "8"@ =~= seq!['8'],
        "9"@ =~= seq!['9'],
{
    reveal_strlit("0");
    reveal_strlit("1");
    reveal_strlit("2");
    reveal_strlit("3");
    reveal_strlit("4");
    reveal_strlit("5");
    reveal_strlit("6");
    reveal_strlit("7");
    reveal_strlit("8");
    reveal_strlit("9");
}

/// Decimal text of a machine integer.
pub fn usize_repr(n: usize) -> (r: String)
    ensures
        r@ == spec_nat_repr(n as int),
    decreases n,
{
    proof {
        lemma_digit_strlits();
    }
    let d: usize = n % 10;
    let c: &str = if d == 0 {
        "0"
    } else if d == 1 {
        "1"
    } else if d == 2 {
        "2"
    } else if d == 3 {
        "3"
    } else if d == 4 {
        "4"
    } else if d == 5 {
        "5"
    } else if d == 6 {
        "6"
    } else if d == 7 {
        "7"
    } else if d == 8 {
        "8"
    } else {
        "9"
    };
    if n <= 9 {
        let mut out = String::new();
        out.append(c);
        proof {
            assert(out@ =~= spec_nat_repr(n as int));
        }
        out
    } else {
        let mut out = usize_repr(n / 10);
        out.append(c);
        proof {
            assert(out@ =~= spec_nat_repr(n as int));
        }
        out
    }
}

} // verus!
