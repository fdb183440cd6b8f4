//! IEEE-754 binary64 numbers, held as their 64-bit patterns.
//!
//! Tests on a pattern (zero, finite, ordering) are computed here on the bits.
//! Rounded arithmetic is taken from `rustc_apfloat`, whose `ieee::Double`
//! implements the format in software. The text of a number is the one that
//! `serde_json` writes for it.

use crate::text::{decimal, u64_text};
use rustc_apfloat::ieee::Double;
use rustc_apfloat::{Float, Round, Status};
use vstd::prelude::*;
use vstd::string::*;

verus! {

/// Mask of the 63 bits below the sign bit.
pub const MAGNITUDE_MASK: u64 = 0x7fff_ffff_ffff_ffff;

/// The sign bit alone.
pub const SIGN_MASK: u64 = 0x8000_0000_0000_0000;

/// Pattern of positive infinity: exponent all ones, fraction zero.
pub const INFINITY_BITS: u64 = 0x7ff0_0000_0000_0000;

/// The pattern without its sign bit.
pub open spec fn magnitude(bits: u64) -> u64 {
    bits & MAGNITUDE_MASK
}

/// The sign bit is set.
pub open spec fn sign_negative(bits: u64) -> bool {
    bits & SIGN_MASK != 0
}

/// The pattern encodes a NaN.
pub open spec fn is_nan(bits: u64) -> bool {
    magnitude(bits) > INFINITY_BITS
}

/// The pattern encodes a zero, a subnormal or a normal number.
pub open spec fn is_finite(bits: u64) -> bool {
    magnitude(bits) < INFINITY_BITS
}

/// The pattern encodes positive or negative zero.
pub open spec fn is_zero(bits: u64) -> bool {
    magnitude(bits) == 0
}

/// Position of a non-NaN pattern on the number line of patterns: the magnitude,
/// negated where the sign bit is set. Both zeros lie at 0.
pub open spec fn order_key(bits: u64) -> int {
    if sign_negative(bits) {
        -(magnitude(bits) as int)
    } else {
        magnitude(bits) as int
    }
}

/// IEEE `<`: false where either side is a NaN.
pub open spec fn less_than(a: u64, b: u64) -> bool {
    !is_nan(a) && !is_nan(b) && order_key(a) < order_key(b)
}

/// IEEE `<=`: false where either side is a NaN.
pub open spec fn less_equal(a: u64, b: u64) -> bool {
    !is_nan(a) && !is_nan(b) && order_key(a) <= order_key(b)
}

/// IEEE `==`: false where either side is a NaN, true of the two zeros.
pub open spec fn equal(a: u64, b: u64) -> bool {
    !is_nan(a) && !is_nan(b) && order_key(a) == order_key(b)
}

/// Whether the pattern encodes a finite number.
pub fn bits_is_finite(bits: u64) -> (r: bool)
    ensures
        r == is_finite(bits),
{
    (bits & MAGNITUDE_MASK) < INFINITY_BITS
}

/// Whether the pattern encodes one of the two zeros.
pub fn bits_is_zero(bits: u64) -> (r: bool)
    ensures
        r == is_zero(bits),
{
    (bits & MAGNITUDE_MASK) == 0
}

/// IEEE `<` on two patterns.
pub fn bits_less_than(a: u64, b: u64) -> (r: bool)
    ensures
        r == less_than(a, b),
{
    let ma: u64 = a & MAGNITUDE_MASK;
    let mb: u64 = b & MAGNITUDE_MASK;
    if ma > INFINITY_BITS || mb > INFINITY_BITS {
        false
    } else if a & SIGN_MASK != 0 {
        if b & SIGN_MASK != 0 {
            mb < ma
        } else {
            ma != 0 || mb != 0
        }
    } else {
        if b & SIGN_MASK != 0 {
            false
        } else {
            ma < mb
        }
    }
}

/// IEEE `==` on two patterns.
pub fn bits_equal(a: u64, b: u64) -> (r: bool)
    ensures
        r == equal(a, b),
{
    let ma: u64 = a & MAGNITUDE_MASK;
    let mb: u64 = b & MAGNITUDE_MASK;
    if ma > INFINITY_BITS || mb > INFINITY_BITS {
        false
    } else if (a & SIGN_MASK != 0) == (b & SIGN_MASK != 0) {
        ma == mb
    } else {
        ma == 0 && mb == 0
    }
}

/// IEEE `<=` on two patterns.
pub fn bits_less_equal(a: u64, b: u64) -> (r: bool)
    ensures
        r == less_equal(a, b),
{
    bits_less_than(a, b) || bits_equal(a, b)
}

/// Pattern of the binary64 sum of `a` and `b`, rounded to nearest, ties to even.
pub uninterp spec fn ieee_add(a: u64, b: u64) -> u64;

/// Pattern of the binary64 difference `a - b`, rounded to nearest, ties to even.
pub uninterp spec fn ieee_sub(a: u64, b: u64) -> u64;

/// Pattern of the binary64 product of `a` and `b`, rounded to nearest, ties to even.
pub uninterp spec fn ieee_mul(a: u64, b: u64) -> u64;

/// Pattern of the binary64 quotient `a / b`, rounded to nearest, ties to even.
pub uninterp spec fn ieee_div(a: u64, b: u64) -> u64;

/// Pattern of the binary64 remainder of `a / b` with the sign of `a` (C `fmod`).
pub uninterp spec fn ieee_rem(a: u64, b: u64) -> u64;

/// Pattern of the binary64 number nearest to the unsigned integer `n`.
pub uninterp spec fn ieee_from_u64(n: u64) -> u64;

/// Pattern of the binary64 number nearest to the signed integer `n`.
pub uninterp spec fn ieee_from_i64(n: i64) -> u64;

/// `Float::add_r` of `rustc_apfloat` on `ieee::Double`, with
/// `Round::NearestTiesToEven`. The sum's pattern depends on the two operand
/// patterns alone; it is named [`ieee_add`].
#[verifier::external_body]
pub(crate) fn apfloat_add(a: u64, b: u64) -> (r: u64)
    ensures
        r == ieee_add(a, b),
{
    let x = Double::from_bits(u128::from(a));
    let y = Double::from_bits(u128::from(b));
    x.add_r(y, Round::NearestTiesToEven).value.to_bits() as u64
}

/// `Float::sub_r` of `rustc_apfloat` on `ieee::Double`, with
/// `Round::NearestTiesToEven`. The difference's pattern depends on the two
/// operand patterns alone; it is named [`ieee_sub`].
#[verifier::external_body]
pub(crate) fn apfloat_sub(a: u64, b: u64) -> (r: u64)
    ensures
        r == ieee_sub(a, b),
{
    let x = Double::from_bits(u128::from(a));
    let y = Double::from_bits(u128::from(b));
    x.sub_r(y, Round::NearestTiesToEven).value.to_bits() as u64
}

/// `Float::mul_r` of `rustc_apfloat` on `ieee::Double`, with
/// `Round::NearestTiesToEven`. The product's pattern depends on the two
/// operand patterns alone; it is named [`ieee_mul`].
#[verifier::external_body]
pub(crate) fn apfloat_mul(a: u64, b: u64) -> (r: u64)
    ensures
        r == ieee_mul(a, b),
{
    let x = Double::from_bits(u128::from(a));
    let y = Double::from_bits(u128::from(b));
    x.mul_r(y, Round::NearestTiesToEven).value.to_bits() as u64
}

/// `Float::div_r` of `rustc_apfloat` on `ieee::Double`, with
/// `Round::NearestTiesToEven`. The quotient's pattern depends on the two
/// operand patterns alone; it is named [`ieee_div`].
#[verifier::external_body]
pub(crate) fn apfloat_div(a: u64, b: u64) -> (r: u64)
    ensures
        r == ieee_div(a, b),
{
    let x = Double::from_bits(u128::from(a));
    let y = Double::from_bits(u128::from(b));
    x.div_r(y, Round::NearestTiesToEven).value.to_bits() as u64
}

/// `Float::c_fmod` of `rustc_apfloat` on `ieee::Double`. The remainder's
/// pattern depends on the two operand patterns alone; it is named
/// [`ieee_rem`].
#[verifier::external_body]
pub(crate) fn apfloat_rem(a: u64, b: u64) -> (r: u64)
    ensures
        r == ieee_rem(a, b),
{
    let x = Double::from_bits(u128::from(a));
    let y = Double::from_bits(u128::from(b));
    x.c_fmod(y).value.to_bits() as u64
}

/// `Float::from_u128` of `rustc_apfloat` on `ieee::Double`: the conversion of
/// an unsigned integer, rounded to nearest. Its pattern depends on the integer
/// alone; it is named [`ieee_from_u64`].
#[verifier::external_body]
pub(crate) fn apfloat_from_u64(n: u64) -> (r: u64)
    ensures
        r == ieee_from_u64(n),
{
    Double::from_u128(u128::from(n)).value.to_bits() as u64
}

/// `Float::from_i128` of `rustc_apfloat` on `ieee::Double`: the conversion of
/// a signed integer, rounded to nearest. Its pattern depends on the integer
/// alone; it is named [`ieee_from_i64`].
#[verifier::external_body]
pub(crate) fn apfloat_from_i64(n: i64) -> (r: u64)
    ensures
        r == ieee_from_i64(n),
{
    Double::from_i128(i128::from(n)).value.to_bits() as u64
}

/// The decimal text that `rustc_apfloat` writes for a pattern, with at most
/// 21 significant digits.
pub uninterp spec fn apfloat_decimal(bits: u64) -> Seq<char>;

/// The `Display` of `rustc_apfloat` for `ieee::Double`, asked for 21 digits
/// of precision. The text depends on the pattern alone; it is named
/// [`apfloat_decimal`].
#[verifier::external_body]
pub(crate) fn apfloat_text(bits: u64) -> (r: String)
    ensures
        r@ == apfloat_decimal(bits),
{
    format!("{:.21}", Double::from_bits(u128::from(bits)))
}

/// The text that `serde_json` writes for the number that it reads from a
/// text, where it reads one.
pub uninterp spec fn json_number_text(text: Seq<char>) -> Option<Seq<char>>;

/// `serde_json::from_str` applied to the text of a number, and the `Display`
/// of the `serde_json::Number` that it gives. Whether the text is read, and
/// what is written for it, depends on the text alone; it is named
/// [`json_number_text`].
#[verifier::external_body]
pub(crate) fn json_number(text: &str) -> (r: Option<String>)
    ensures
        match r {
            Some(written) => json_number_text(text@) == Some(written@),
            None => json_number_text(text@) is None,
        },
{
    match serde_json::from_str::<serde_json::Number>(text) {
        Ok(number) => Some(number.to_string()),
        Err(_) => None,
    }
}

/// A character that marks a decimal text as that of a float: a point or an
/// exponent sign.
pub open spec fn is_float_mark(c: char) -> bool {
    c == '.' || c == 'E' || c == 'e'
}

/// Whether a float mark occurs among the first `n` characters.
pub open spec fn has_float_mark(text: Seq<char>, n: nat) -> bool
    decreases n,
{
    if n == 0 || n > text.len() {
        false
    } else {
        is_float_mark(text[n - 1]) || has_float_mark(text, (n - 1) as nat)
    }
}

/// The decimal text as a float writes it: with `.0` behind it where it
/// shows neither a point nor an exponent.
pub open spec fn float_literal(text: Seq<char>) -> Seq<char> {
    if has_float_mark(text, text.len()) {
        text
    } else {
        text + ".0"@
    }
}

/// The text of a binary64 number: `null` where the pattern is not finite,
/// else what `serde_json` writes for the number's decimal text.
pub open spec fn float_display(bits: u64) -> Seq<char> {
    if !is_finite(bits) {
        "null"@
    } else {
        let literal = float_literal(apfloat_decimal(bits));
        match json_number_text(literal) {
            Some(written) => written,
            None => literal,
        }
    }
}

/// The text of a binary64 number.
pub fn float_text(bits: u64) -> (r: String)
    ensures
        r@ == float_display(bits),
{
    if !bits_is_finite(bits) {
        return String::from_str("null");
    }
    let mut text = apfloat_text(bits);
    let n = text.as_str().unicode_len();
    let mut marked = false;
    let mut i: usize = 0;
    while i < n
        invariant
            i <= n,
            n == text@.len(),
            marked == has_float_mark(text@, i as nat),
        decreases n - i,
    {
        let c = text.as_str().get_char(i);
        if c == '.' || c == 'E' || c == 'e' {
            marked = true;
        }
        i += 1;
    }
    if !marked {
        text.append(".0");
    }
    match json_number(text.as_str()) {
        Some(written) => written,
        None => text,
    }
}

/// The integer nearest to a binary64 number, ties to even, where it lies
/// within the signed 64-bit integers.
pub uninterp spec fn ieee_round_to_i64(bits: u64) -> Option<i64>;

/// `Float::to_i128_r` of `rustc_apfloat` on `ieee::Double`, for a width of
/// 64 bits and `Round::NearestTiesToEven`; no integer where it reports an
/// invalid operation (a NaN, an infinity, a number out of range). The
/// result depends on the pattern alone; it is named [`ieee_round_to_i64`].
#[verifier::external_body]
pub(crate) fn apfloat_round_to_i64(bits: u64) -> (r: Option<i64>)
    ensures
        r == ieee_round_to_i64(bits),
{
    let mut exact = false;
    let x = Double::from_bits(u128::from(bits));
    let rounded = x.to_i128_r(64, Round::NearestTiesToEven, &mut exact);
    if rounded.status.contains(Status::INVALID_OP) {
        None
    } else {
        Some(rounded.value as i64)
    }
}

/// The integer nearest to a binary64 number, ties away from zero, where it
/// lies within the signed 64-bit integers.
pub uninterp spec fn ieee_round_away_to_i64(bits: u64) -> Option<i64>;

/// `Float::to_i128_r` of `rustc_apfloat` on `ieee::Double`, for a width of
/// 64 bits and `Round::NearestTiesToAway`; no integer where it reports an
/// invalid operation. The result depends on the pattern alone; it is named
/// [`ieee_round_away_to_i64`].
#[verifier::external_body]
pub(crate) fn apfloat_round_away_to_i64(bits: u64) -> (r: Option<i64>)
    ensures
        r == ieee_round_away_to_i64(bits),
{
    let mut exact = false;
    let x = Double::from_bits(u128::from(bits));
    let rounded = x.to_i128_r(64, Round::NearestTiesToAway, &mut exact);
    if rounded.status.contains(Status::INVALID_OP) {
        None
    } else {
        Some(rounded.value as i64)
    }
}

/// Pattern of the integral part of a binary64 number: the number rounded
/// toward zero to an integer.
pub uninterp spec fn ieee_trunc(bits: u64) -> u64;

/// `Float::round_to_integral` of `rustc_apfloat` on `ieee::Double`, with
/// `Round::TowardZero`. The result's pattern depends on the pattern alone;
/// it is named [`ieee_trunc`].
#[verifier::external_body]
pub(crate) fn apfloat_trunc(bits: u64) -> (r: u64)
    ensures
        r == ieee_trunc(bits),
{
    let x = Double::from_bits(u128::from(bits));
    x.round_to_integral(Round::TowardZero).value.to_bits() as u64
}

/// Pattern of the binary64 product of `a` and `b` rounded toward zero, and
/// whether the product had to be rounded.
pub uninterp spec fn ieee_mul_toward_zero(a: u64, b: u64) -> (u64, bool);

/// `Float::mul_r` of `rustc_apfloat` on `ieee::Double`, with
/// `Round::TowardZero`, and whether its status reports an inexact result.
/// Both depend on the two operand patterns alone; they are named
/// [`ieee_mul_toward_zero`].
#[verifier::external_body]
pub(crate) fn apfloat_mul_toward_zero(a: u64, b: u64) -> (r: (u64, bool))
    ensures
        r == ieee_mul_toward_zero(a, b),
{
    let x = Double::from_bits(u128::from(a));
    let y = Double::from_bits(u128::from(b));
    let product = x.mul_r(y, Round::TowardZero);
    (product.value.to_bits() as u64, product.status.contains(Status::INEXACT))
}

/// The sign that stands before the digits of a number: `-` where the sign
/// bit is set.
pub open spec fn sign_display(bits: u64) -> Seq<char> {
    if sign_negative(bits) {
        "-"@
    } else {
        Seq::empty()
    }
}

/// The text of a number that is not finite: `NaN`, `inf` or `-inf`.
pub open spec fn special_display(bits: u64) -> Seq<char> {
    if is_nan(bits) {
        "NaN"@
    } else {
        sign_display(bits) + "inf"@
    }
}

/// The sign that stands before the digits of a number.
pub fn sign_text(bits: u64) -> (r: String)
    ensures
        r@ == sign_display(bits),
{
    if bits & SIGN_MASK != 0 {
        String::from_str("-")
    } else {
        String::new()
    }
}

/// The text of a number that is not finite.
pub fn special_text(bits: u64) -> (r: String)
    ensures
        r@ == special_display(bits),
{
    if (bits & MAGNITUDE_MASK) > INFINITY_BITS {
        String::from_str("NaN")
    } else {
        let mut out = sign_text(bits);
        out.append("inf");
        out
    }
}

/// A text without the `.0` that it ends in, if it ends so.
pub open spec fn without_point_zero(text: Seq<char>) -> Seq<char> {
    if text.len() >= 2 && text[text.len() - 2] == '.' && text[text.len() - 1] == '0' {
        text.subrange(0, text.len() - 2)
    } else {
        text
    }
}

/// Index of the first `e` among the first `n` characters.
pub open spec fn exponent_mark(text: Seq<char>, n: nat) -> Option<int>
    decreases n,
{
    if n == 0 || n > text.len() {
        None
    } else {
        match exponent_mark(text, (n - 1) as nat) {
            Some(i) => Some(i),
            None => if text[n - 1] == 'e' {
                Some(n - 1)
            } else {
                None
            },
        }
    }
}

/// The first `n` characters without the points among them.
pub open spec fn without_points(text: Seq<char>, n: nat) -> Seq<char>
    decreases n,
{
    if n == 0 || n > text.len() {
        Seq::empty()
    } else if text[n - 1] == '.' {
        without_points(text, (n - 1) as nat)
    } else {
        without_points(text, (n - 1) as nat).push(text[n - 1])
    }
}

/// The value of a decimal digit; 0 for any other character.
pub open spec fn digit_value(c: char) -> nat {
    if '0' <= c <= '9' {
        (c as u32 - '0' as u32) as nat
    } else {
        0
    }
}

/// The number that the first `n` characters stand for as decimal digits.
pub open spec fn number_of(digits: Seq<char>, n: nat) -> nat
    decreases n,
{
    if n == 0 || n > digits.len() {
        0
    } else {
        number_of(digits, (n - 1) as nat) * 10 + digit_value(digits[n - 1])
    }
}

/// Whether a text begins with the character `c`.
pub open spec fn begins_with(text: Seq<char>, c: char) -> bool {
    text.len() > 0 && text[0] == c
}

/// A number written with an exponent, written without: the digits of the
/// mantissa with the point moved by the exponent, and zeros where the
/// digits end before the point or begin behind it. A text without `e`, or
/// with more than four characters behind it, stays as it is.
pub open spec fn positional(text: Seq<char>) -> Seq<char> {
    match exponent_mark(text, text.len()) {
        None => text,
        Some(e) => if !(0 <= e < text.len()) || text.len() - e > 5 {
            text
        } else {
            let start: int = if begins_with(text, '-') && e >= 1 {
                1
            } else {
                0
            };
            let sign = text.subrange(0, start);
            let mantissa = text.subrange(start, e);
            let digits = without_points(mantissa, mantissa.len());
            let exponent = text.subrange(e + 1, text.len() as int);
            let signed: int = if begins_with(exponent, '-') || begins_with(exponent, '+') {
                1
            } else {
                0
            };
            let shift = number_of(exponent.subrange(signed, exponent.len() as int), (
            exponent.len() - signed) as nat);
            if begins_with(exponent, '-') {
                if shift >= 1 {
                    sign + "0."@ + crate::text::repeated("0"@, (shift - 1) as nat) + digits
                } else {
                    text
                }
            } else if digits.len() <= shift + 1 {
                sign + digits + crate::text::repeated("0"@, (shift + 1 - digits.len()) as nat)
            } else {
                sign + digits.subrange(0, shift + 1 as int) + "."@ + digits.subrange(
                    shift + 1 as int,
                    digits.len() as int,
                )
            }
        },
    }
}

/// The text of a binary64 number as a reader of prose expects it: the text
/// of [`float_display`] without exponent, and for an integral number
/// without `.0`; `NaN`, `inf` or `-inf` for a number that is not finite.
pub open spec fn plain_display(bits: u64) -> Seq<char> {
    if !is_finite(bits) {
        special_display(bits)
    } else {
        without_point_zero(positional(float_display(bits)))
    }
}

/// Index of the first `e` in a text.
pub fn find_exponent_mark(text: &str) -> (r: Option<usize>)
    ensures
        match r {
            Some(i) => exponent_mark(text@, text@.len()) == Some(i as int) && i < text@.len(),
            None => exponent_mark(text@, text@.len()) is None,
        },
{
    let n = text.unicode_len();
    let mut i: usize = 0;
    while i < n
        invariant
            i <= n,
            n == text@.len(),
            exponent_mark(text@, i as nat) is None,
        decreases n - i,
    {
        if text.get_char(i) == 'e' {
            proof {
                lemma_exponent_mark(text@, (i + 1) as nat, n as nat);
            }
            return Some(i);
        }
        i += 1;
    }
    None
}

/// A mark that is found among the first `i` characters is the mark among
/// any more.
proof fn lemma_exponent_mark(text: Seq<char>, i: nat, n: nat)
    requires
        i <= n <= text.len(),
        exponent_mark(text, i) is Some,
    ensures
        exponent_mark(text, n) == exponent_mark(text, i),
    decreases n,
{
    if n > i {
        lemma_exponent_mark(text, i, (n - 1) as nat);
    }
}

/// A text without its points.
pub fn remove_points(text: &str) -> (r: String)
    ensures
        r@ == without_points(text@, text@.len()),
{
    let n = text.unicode_len();
    let mut out = String::new();
    let mut i: usize = 0;
    while i < n
        invariant
            i <= n,
            n == text@.len(),
            out@ == without_points(text@, i as nat),
        decreases n - i,
    {
        let c = text.get_char(i);
        if c != '.' {
            crate::text::push_char(&mut out, c);
        }
        i += 1;
    }
    out
}

/// The number that a text of at most four characters stands for as decimal
/// digits.
fn read_number(digits: &str) -> (r: usize)
    requires
        digits@.len() <= 4,
    ensures
        r == number_of(digits@, digits@.len()),
        r <= 9999,
{
    let n = digits.unicode_len();
    let mut value: usize = 0;
    let mut i: usize = 0;
    let ghost mut bound: nat = 1;
    while i < n
        invariant
            i <= n,
            n == digits@.len(),
            n <= 4,
            value == number_of(digits@, i as nat),
            value < bound,
            bound == pow10(i as nat),
        decreases n - i,
    {
        let c = digits.get_char(i);
        let d: usize = if '0' <= c && c <= '9' {
            (c as u32 - '0' as u32) as usize
        } else {
            0
        };
        proof {
            bound = bound * 10;
            reveal_with_fuel(pow10, 5);
        }
        value = value * 10 + d;
        i += 1;
    }
    proof {
        reveal_with_fuel(pow10, 5);
    }
    value
}

/// The power of ten with exponent `n`.
pub open spec fn pow10(n: nat) -> nat
    decreases n,
{
    if n == 0 {
        1
    } else {
        pow10((n - 1) as nat) * 10
    }
}

/// A number written with an exponent, written without.
pub fn expand_exponent(text: String) -> (r: String)
    ensures
        r@ == positional(text@),
{
    let e = match find_exponent_mark(text.as_str()) {
        Some(e) => e,
        None => {
            return text;
        },
    };
    let n = text.as_str().unicode_len();
    if n - e > 5 {
        return text;
    }
    let start: usize = if text.as_str().get_char(0) == '-' && e >= 1 {
        1
    } else {
        0
    };
    let digits = remove_points(text.as_str().substring_char(start, e));
    let exponent = text.as_str().substring_char(e + 1, n);
    let exponent_length = exponent.unicode_len();
    let negative = exponent_length > 0 && exponent.get_char(0) == '-';
    let signed: usize = if exponent_length > 0 && (exponent.get_char(0) == '-' || exponent.get_char(
        0,
    ) == '+') {
        1
    } else {
        0
    };
    let shift = read_number(exponent.substring_char(signed, exponent_length));
    let count = digits.as_str().unicode_len();
    let mut out = String::from_str(text.as_str().substring_char(0, start));
    if negative {
        if shift >= 1 {
            out.append("0.");
            let zeros = crate::text::repeat("0", shift - 1);
            out.append(zeros.as_str());
            out.append(digits.as_str());
            out
        } else {
            text
        }
    } else if count <= shift + 1 {
        out.append(digits.as_str());
        let zeros = crate::text::repeat("0", shift + 1 - count);
        out.append(zeros.as_str());
        out
    } else {
        out.append(digits.as_str().substring_char(0, shift + 1));
        out.append(".");
        out.append(digits.as_str().substring_char(shift + 1, count));
        out
    }
}

/// The text of a binary64 number without exponent and without the `.0` of
/// an integral one.
pub fn plain_text(bits: u64) -> (r: String)
    ensures
        r@ == plain_display(bits),
{
    if !bits_is_finite(bits) {
        return special_text(bits);
    }
    let text = expand_exponent(float_text(bits));
    let n = text.as_str().unicode_len();
    if n >= 2 && text.as_str().get_char(n - 2) == '.' && text.as_str().get_char(n - 1) == '0' {
        String::from_str(text.as_str().substring_char(0, n - 2))
    } else {
        text
    }
}

/// The text of a binary64 number without decimals: its sign and the integer
/// nearest to its magnitude, ties to even. A finite number whose nearest
/// integer is no 64-bit integer has the text of [`float_display`].
pub open spec fn rounded_display(bits: u64) -> Seq<char> {
    if !is_finite(bits) {
        special_display(bits)
    } else {
        match ieee_round_to_i64(magnitude(bits)) {
            Some(n) => if n >= 0 {
                sign_display(bits) + decimal(n as nat)
            } else {
                float_display(bits)
            },
            None => float_display(bits),
        }
    }
}

/// The text of a binary64 number without decimals.
pub fn rounded_text(bits: u64) -> (r: String)
    ensures
        r@ == rounded_display(bits),
{
    if !bits_is_finite(bits) {
        return special_text(bits);
    }
    match apfloat_round_to_i64(bits & MAGNITUDE_MASK) {
        Some(n) => if n >= 0 {
            let mut out = sign_text(bits);
            let digits = u64_text(n as u64);
            out.append(digits.as_str());
            out
        } else {
            float_text(bits)
        },
        None => float_text(bits),
    }
}

/// Binary64 pattern of 10.0.
pub const TEN: u64 = 0x4024_0000_0000_0000;

/// Binary64 pattern of 100.0.
pub const HUNDRED: u64 = 0x4059_0000_0000_0000;

/// The number of parts nearest to the fraction of a magnitude, ties to even,
/// where `scale` is the pattern of the number of parts in one: the product
/// of the fraction and the scale is rounded toward zero, and then to the
/// nearest integer, where a tie that the first rounding made is no tie and
/// goes up.
pub open spec fn parts_of(magnitude: u64, scale: u64) -> Option<i64> {
    let fraction = ieee_sub(magnitude, ieee_trunc(magnitude));
    let (product, rounded) = ieee_mul_toward_zero(fraction, scale);
    if rounded {
        ieee_round_away_to_i64(product)
    } else {
        ieee_round_to_i64(product)
    }
}

/// The number of parts nearest to the fraction of a magnitude.
pub fn parts(magnitude: u64, scale: u64) -> (r: Option<i64>)
    ensures
        r == parts_of(magnitude, scale),
{
    let fraction = apfloat_sub(magnitude, apfloat_trunc(magnitude));
    let (product, rounded) = apfloat_mul_toward_zero(fraction, scale);
    if rounded {
        apfloat_round_away_to_i64(product)
    } else {
        apfloat_round_to_i64(product)
    }
}

/// The text of a binary64 number with one decimal: its sign, the integral
/// part of its magnitude and the tenths nearest to the fraction, which go
/// over into the integral part where they are ten. A finite number whose
/// integral part is no 64-bit integer has the text of [`float_display`].
pub open spec fn one_digit_display(bits: u64) -> Seq<char> {
    if !is_finite(bits) {
        special_display(bits)
    } else {
        let m = magnitude(bits);
        match (ieee_round_to_i64(ieee_trunc(m)), parts_of(m, TEN)) {
            (Some(whole), Some(tenths)) => if whole >= 0 && 0 <= tenths < 10 {
                sign_display(bits) + decimal(whole as nat) + "."@ + decimal(tenths as nat)
            } else if whole >= 0 && tenths == 10 {
                sign_display(bits) + decimal((whole + 1) as nat) + "."@ + decimal(0)
            } else {
                float_display(bits)
            },
            _ => float_display(bits),
        }
    }
}

/// The text of a binary64 number with one decimal.
pub fn one_digit_text(bits: u64) -> (r: String)
    ensures
        r@ == one_digit_display(bits),
{
    if !bits_is_finite(bits) {
        return special_text(bits);
    }
    let m: u64 = bits & MAGNITUDE_MASK;
    match (apfloat_round_to_i64(apfloat_trunc(m)), parts(m, TEN)) {
        (Some(whole), Some(tenths)) => {
            if whole >= 0 && 0 <= tenths && tenths <= 10 {
                let (units, digit): (u64, u64) = if tenths == 10 {
                    (whole as u64 + 1, 0)
                } else {
                    (whole as u64, tenths as u64)
                };
                let mut out = sign_text(bits);
                let before = u64_text(units);
                out.append(before.as_str());
                out.append(".");
                let after = u64_text(digit);
                out.append(after.as_str());
                out
            } else {
                float_text(bits)
            }
        },
        _ => float_text(bits),
    }
}

/// Two decimal digits for a number of hundredths below a hundred.
pub open spec fn two_digits(hundredths: nat) -> Seq<char> {
    if hundredths < 10 {
        "0"@ + decimal(hundredths)
    } else {
        decimal(hundredths)
    }
}

/// The text of a binary64 number with two decimals: its sign, the integral
/// part of its magnitude and the hundredths nearest to the fraction, which
/// go over into the integral part where they are a hundred. A finite number
/// whose integral part is no 64-bit integer has the text of
/// [`float_display`].
pub open spec fn two_digit_display(bits: u64) -> Seq<char> {
    if !is_finite(bits) {
        special_display(bits)
    } else {
        let m = magnitude(bits);
        match (ieee_round_to_i64(ieee_trunc(m)), parts_of(m, HUNDRED)) {
            (Some(whole), Some(hundredths)) => if whole >= 0 && 0 <= hundredths < 100 {
                sign_display(bits) + decimal(whole as nat) + "."@ + two_digits(hundredths as nat)
            } else if whole >= 0 && hundredths == 100 {
                sign_display(bits) + decimal((whole + 1) as nat) + "."@ + two_digits(0)
            } else {
                float_display(bits)
            },
            _ => float_display(bits),
        }
    }
}

/// The text of a binary64 number with two decimals.
pub fn two_digit_text(bits: u64) -> (r: String)
    ensures
        r@ == two_digit_display(bits),
{
    if !bits_is_finite(bits) {
        return special_text(bits);
    }
    let m: u64 = bits & MAGNITUDE_MASK;
    match (apfloat_round_to_i64(apfloat_trunc(m)), parts(m, HUNDRED)) {
        (Some(whole), Some(hundredths)) => {
            if whole >= 0 && 0 <= hundredths && hundredths <= 100 {
                let (units, rest): (u64, u64) = if hundredths == 100 {
                    (whole as u64 + 1, 0)
                } else {
                    (whole as u64, hundredths as u64)
                };
                let mut out = sign_text(bits);
                let before = u64_text(units);
                out.append(before.as_str());
                out.append(".");
                if rest < 10 {
                    out.append("0");
                }
                let after = u64_text(rest);
                out.append(after.as_str());
                assert(out@ =~= two_digit_display(bits));
                out
            } else {
                float_text(bits)
            }
        },
        _ => float_text(bits),
    }
}

} // verus!
