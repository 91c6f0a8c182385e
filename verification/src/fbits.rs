//! IEEE-754 double-precision numbers carried as `u64` bit patterns.
//!
//! The toolkit stores every ephemeris scalar (epochs, positions,
//! polynomial coefficients) as the 64 bits of its IEEE-754 encoding.
//! Classification, comparison and floor are pure bit manipulations and are
//! implemented and verified here. The four rounding arithmetic operations
//! cannot be written in verified code, so they are delegated to a software
//! IEEE-754 implementation behind trusted wrappers; each result is named
//! by an uninterpreted function of the operand bits, which is sound
//! because IEEE-754 arithmetic is a pure function of its operands.

use vstd::prelude::*;
use rustc_apfloat::Float;
use rustc_apfloat::ieee::Double;

verus! {

/// Bit pattern of `+0.0`.
pub const F64_ZERO: u64 = 0;

/// Bit pattern of `1.0`.
pub const F64_ONE: u64 = 0x3FF0000000000000;

/// Bit pattern of `-1.0`.
pub const F64_NEG_ONE: u64 = 0xBFF0000000000000;

/// Bit pattern of `2.0`.
pub const F64_TWO: u64 = 0x4000000000000000;

/// Bit pattern of `0.5`.
pub const F64_HALF: u64 = 0x3FE0000000000000;

/// The sign bit of a double's encoding.
pub const F64_SIGN_MASK: u64 = 0x8000000000000000;

/// True when the bits encode a NaN: exponent field all ones and a
/// non-zero fraction field.
pub open spec fn is_nan_bits(b: u64) -> bool {
    (b >> 52) & 0x7ff == 0x7ff && b & 0xfffffffffffff != 0
}

/// True when the bits encode a zero of either sign.
pub open spec fn is_zero_bits(b: u64) -> bool {
    b & 0x7fffffffffffffff == 0
}

/// IEEE-754 negation: flipping the sign bit.
pub open spec fn spec_fneg(b: u64) -> u64 {
    b ^ F64_SIGN_MASK
}

/// Two bit patterns encode the same numerical value exactly when they are
/// identical, or both encode a zero; two NaNs are treated as the same
/// (non-)value whatever their payloads.
pub open spec fn same_float_value(a: u64, b: u64) -> bool {
    if is_nan_bits(a) || is_nan_bits(b) {
        is_nan_bits(a) && is_nan_bits(b)
    } else if is_zero_bits(a) {
        is_zero_bits(b)
    } else {
        a == b
    }
}

/// Maps a double's bits to a key whose unsigned order is the numerical
/// order of the encoded values (for non-NaN inputs; the two zeros map to
/// adjacent keys and are equated by the comparison functions below).
pub open spec fn order_key(b: u64) -> u64 {
    if b >> 63 == 1 {
        !b
    } else {
        b | F64_SIGN_MASK
    }
}

/// IEEE-754 `<=` on encoded values: false whenever either side is NaN,
/// true between zeros of either sign, otherwise the order of the keys.
pub open spec fn spec_f64_le(a: u64, b: u64) -> bool {
    if is_nan_bits(a) || is_nan_bits(b) {
        false
    } else if is_zero_bits(a) && is_zero_bits(b) {
        true
    } else {
        order_key(a) <= order_key(b)
    }
}

/// IEEE-754 `<` on encoded values.
pub open spec fn spec_f64_lt(a: u64, b: u64) -> bool {
    spec_f64_le(a, b) && !(is_zero_bits(a) && is_zero_bits(b)) && order_key(a) != order_key(b)
}

/// Floor of the encoded value, saturated to `0xffff_ffff`, with every
/// negative value, and NaN, mapped to 0. This is the clamping used to
/// index equal-spaced interpolation records.
pub open spec fn spec_pos_floor32(b: u64) -> u64 {
    let ex = (b >> 52) & 0x7ff;
    let fr = b & 0xfffffffffffff;
    if b >> 63 == 1 {
        0
    } else if ex == 0x7ff {
        if fr != 0 {
            0
        } else {
            0xffffffff
        }
    } else if ex < 1023 {
        0
    } else if ex >= 1055 {
        0xffffffff
    } else {
        (0x10000000000000u64 | fr) >> ((1075 - ex) as u64)
    }
}

/// Runtime NaN test on the bits.
pub fn f64_is_nan(b: u64) -> (r: bool)
    ensures
        r == is_nan_bits(b),
{
    (b >> 52) & 0x7ff == 0x7ff && b & 0xfffffffffffff != 0
}

/// Runtime `<=` on encoded values.
pub fn f64_le(a: u64, b: u64) -> (r: bool)
    ensures
        r == spec_f64_le(a, b),
{
    if f64_is_nan(a) || f64_is_nan(b) {
        false
    } else if a & 0x7fffffffffffffff == 0 && b & 0x7fffffffffffffff == 0 {
        true
    } else {
        let ka: u64 = if a >> 63 == 1 { !a } else { a | F64_SIGN_MASK };
        let kb: u64 = if b >> 63 == 1 { !b } else { b | F64_SIGN_MASK };
        ka <= kb
    }
}

/// Runtime `<` on encoded values.
pub fn f64_lt(a: u64, b: u64) -> (r: bool)
    ensures
        r == spec_f64_lt(a, b),
{
    if f64_is_nan(a) || f64_is_nan(b) {
        false
    } else if a & 0x7fffffffffffffff == 0 && b & 0x7fffffffffffffff == 0 {
        false
    } else {
        let ka: u64 = if a >> 63 == 1 { !a } else { a | F64_SIGN_MASK };
        let kb: u64 = if b >> 63 == 1 { !b } else { b | F64_SIGN_MASK };
        ka < kb
    }
}

/// Runtime saturated floor of a non-negative encoded value.
pub fn f64_pos_floor32(b: u64) -> (r: u64)
    ensures
        r == spec_pos_floor32(b),
{
    let ex: u64 = (b >> 52) & 0x7ff;
    let fr: u64 = b & 0xfffffffffffff;
    if b >> 63 == 1 {
        0
    } else if ex == 0x7ff {
        if fr != 0 {
            0
        } else {
            0xffffffff
        }
    } else if ex < 1023 {
        0
    } else if ex >= 1055 {
        0xffffffff
    } else {
        (0x10000000000000u64 | fr) >> ((1075 - ex) as u64)
    }
}

/// The two zeros encode the same value, and negating one gives the
/// other.
pub proof fn lemma_zero_neg_zero()
    ensures
        same_float_value(F64_ZERO, spec_fneg(F64_ZERO)),
{
    assert((0u64 ^ 0x8000000000000000u64) == 0x8000000000000000u64) by (bit_vector);
    assert(((0u64 >> 52u64) & 0x7ffu64) == 0u64) by (bit_vector);
    assert(((0x8000000000000000u64 >> 52u64) & 0x7ffu64) == 0x800u64 & 0x7ffu64) by (bit_vector);
    assert((0x800u64 & 0x7ffu64) == 0u64) by (bit_vector);
    assert((0u64 & 0x7fffffffffffffffu64) == 0u64) by (bit_vector);
    assert((0x8000000000000000u64 & 0x7fffffffffffffffu64) == 0u64) by (bit_vector);
}

/// The saturated floor always fits in 32 bits.
pub proof fn lemma_pos_floor32_bound(b: u64)
    ensures
        spec_pos_floor32(b) <= 0xffffffff,
{
    assert(((1023 <= ((b >> 52) & 0x7ff) && ((b >> 52) & 0x7ff) < 1055) ==> ((0x10000000000000u64
        | (b & 0xfffffffffffff)) >> ((1075 - ((b >> 52) & 0x7ff)) as u64)) <= 0xffffffffu64))
        by (bit_vector);
}

/// The sum of the values encoded by two bit patterns, rounded to nearest,
/// ties to even.
pub uninterp spec fn fadd(a: u64, b: u64) -> u64;

/// The difference of the values encoded by two bit patterns, rounded to
/// nearest, ties to even.
pub uninterp spec fn fsub(a: u64, b: u64) -> u64;

/// The product of the values encoded by two bit patterns, rounded to
/// nearest, ties to even.
pub uninterp spec fn fmul(a: u64, b: u64) -> u64;

/// The quotient of the values encoded by two bit patterns, rounded to
/// nearest, ties to even.
pub uninterp spec fn fdiv(a: u64, b: u64) -> u64;

/// Relies on rustc_apfloat's IEEE-754 double addition (round to nearest,
/// ties to even): the result is a function of the operand bits alone.
#[verifier::external_body]
pub fn f64_add(a: u64, b: u64) -> (r: u64)
    ensures
        r == fadd(a, b),
{
    let x = Double::from_bits(a as u128);
    let y = Double::from_bits(b as u128);
    (x + y).value.to_bits() as u64
}

/// Relies on rustc_apfloat's IEEE-754 double subtraction (round to
/// nearest, ties to even). Because IEEE-754 rounding is symmetric under
/// negation, `b - a` always encodes the exact negation of the value of
/// `a - b` (and is NaN exactly when `a - b` is), which the second clause
/// records.
#[verifier::external_body]
pub fn f64_sub(a: u64, b: u64) -> (r: u64)
    ensures
        r == fsub(a, b),
        same_float_value(fsub(b, a), spec_fneg(r)),
{
    let x = Double::from_bits(a as u128);
    let y = Double::from_bits(b as u128);
    (x - y).value.to_bits() as u64
}

/// Relies on rustc_apfloat's IEEE-754 double multiplication (round to
/// nearest, ties to even).
#[verifier::external_body]
pub fn f64_mul(a: u64, b: u64) -> (r: u64)
    ensures
        r == fmul(a, b),
{
    let x = Double::from_bits(a as u128);
    let y = Double::from_bits(b as u128);
    (x * y).value.to_bits() as u64
}

/// Relies on rustc_apfloat's IEEE-754 double division (round to nearest,
/// ties to even); division by zero yields the IEEE infinity, never a
/// panic.
#[verifier::external_body]
pub fn f64_div(a: u64, b: u64) -> (r: u64)
    ensures
        r == fdiv(a, b),
{
    let x = Double::from_bits(a as u128);
    let y = Double::from_bits(b as u128);
    (x / y).value.to_bits() as u64
}

} // verus!
