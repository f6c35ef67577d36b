//! Shifts, multiplication and division on register values.
//!
//! Division follows the RISC-V rules: it rounds towards zero, the remainder
//! has the sign of the dividend, and neither a division by zero nor an
//! overflow is an error.
use vstd::prelude::*;
use crate::common::fields::signed;

verus! {

/// The amount of a shift on 32 bits: the low five bits of `v`.
pub open spec fn shamt32(v: i32) -> i32 {
    v & 0x1F
}

/// The amount of a shift on 64 bits: the low six bits of `v`.
pub open spec fn shamt64(v: i64) -> i64 {
    v & 0x3F
}

/// A shift on 32 bits never moves a word by more than 31 bits, and a shift
/// on 64 bits never moves a doubleword by more than 63.
pub proof fn lemma_shamt_bound(v: i32, w: i64)
    by (bit_vector)
    ensures
        0 <= shamt32(v) <= 31,
        0 <= shamt64(w) <= 63,
{
}

/// Wrapping arithmetic on words is arithmetic modulo `2^32`, read as signed.
pub proof fn lemma_wrapping32(a: i32, b: i32)
    ensures
        a.wrapping_add(b) == signed(a + b, 0x1_0000_0000),
        a.wrapping_sub(b) == signed(a - b, 0x1_0000_0000),
        a.wrapping_mul(b) == signed(a * b, 0x1_0000_0000),
{
}

/// Wrapping arithmetic on doublewords is arithmetic modulo `2^64`, read as
/// signed.
pub proof fn lemma_wrapping64(a: i64, b: i64)
    ensures
        a.wrapping_add(b) == signed(a + b, 0x1_0000_0000_0000_0000),
        a.wrapping_sub(b) == signed(a - b, 0x1_0000_0000_0000_0000),
        a.wrapping_mul(b) == signed(a * b, 0x1_0000_0000_0000_0000),
{
}

/// A word, or a doubleword, read as signed and then as unsigned again is
/// what it was.
proof fn lemma_unsigned_again(word: u32, double: u64)
    by (bit_vector)
    ensures
        (word as i32) as u32 == word && (double as i64) as u64 == double,
{
}

/// Only zero reads as zero when it is read as unsigned.
proof fn lemma_unsigned_zero(v: i32, w: i64)
    by (bit_vector)
    ensures
        v as u32 == 0 <==> v == 0,
        w as u64 == 0 <==> w == 0,
{
}

/// The upper half of a product is the product divided by `2^32`, or by
/// `2^64`, rounded down.
proof fn lemma_upper_half(word: i64, double: i128)
    by (bit_vector)
    ensures
        word >> 32 == word / 0x1_0000_0000 && double >> 64 == double / 0x1_0000_0000_0000_0000,
{
}

/// The distance of `v` from zero.
pub open spec fn magnitude(v: int) -> int {
    if v < 0 {
        -v
    } else {
        v
    }
}

/// The quotient of `a` by `b` rounded towards zero: the quotient of the
/// magnitudes, negative where the signs differ.
pub open spec fn quotient(a: int, b: int) -> int {
    if (a < 0) == (b < 0) {
        magnitude(a) / magnitude(b)
    } else {
        -(magnitude(a) / magnitude(b))
    }
}

/// What is left of `a` after the division by `b` rounded towards zero: the
/// remainder of the magnitudes, with the sign of `a`.
pub open spec fn remainder(a: int, b: int) -> int {
    if a < 0 {
        -(magnitude(a) % magnitude(b))
    } else {
        magnitude(a) % magnitude(b)
    }
}

/// Quotient and remainder make up the dividend, and the remainder is nearer
/// to zero than the divisor.
pub proof fn lemma_quotient_remainder(a: int, b: int)
    requires
        b != 0,
    ensures
        a == b * quotient(a, b) + remainder(a, b),
        magnitude(remainder(a, b)) < magnitude(b),
        magnitude(quotient(a, b)) <= magnitude(a),
{
    let m = magnitude(a);
    let d = magnitude(b);
    assert(m == d * (m / d) + m % d && 0 <= m % d < d && 0 <= m / d <= m) by (nonlinear_arith)
        requires
            d > 0,
            m >= 0,
    ;
    assert(b * (m / d) == if b < 0 {
        -(d * (m / d))
    } else {
        d * (m / d)
    }) by (nonlinear_arith)
        requires
            d == magnitude(b),
    ;
    assert(b * (-(m / d)) == -(b * (m / d))) by (nonlinear_arith);
}

/// The quotient of a signed number of `2 * half` values by a divisor other
/// than zero fits the same number of bits, but for the least number divided
/// by -1. The remainder always fits.
proof fn lemma_quotient_fits(a: int, b: int, half: int)
    requires
        -half <= a < half,
        -half <= b < half,
        b != 0,
        !(a == -half && b == -1),
    ensures
        -half <= quotient(a, b) < half,
        -half <= remainder(a, b) < half,
        a == b * quotient(a, b) + remainder(a, b),
{
    lemma_quotient_remainder(a, b);
    if a == -half && b != 1 {
        let d = magnitude(b);
        assert(half / d < half) by (nonlinear_arith)
            requires
                d >= 2,
                half >= 1,
        ;
    }
}

/// `DIV`: the signed quotient. A division by zero gives -1, and the one
/// quotient that does not fit, the dividend.
pub open spec fn spec_div32(a: i32, b: i32) -> i32 {
    if b == 0 {
        -1i32
    } else if a == i32::MIN && b == -1 {
        i32::MIN
    } else {
        quotient(a as int, b as int) as i32
    }
}

/// `REM`: the signed remainder. A division by zero gives the dividend, and
/// the division whose quotient does not fit, zero.
pub open spec fn spec_rem32(a: i32, b: i32) -> i32 {
    if b == 0 {
        a
    } else if a == i32::MIN && b == -1 {
        0i32
    } else {
        remainder(a as int, b as int) as i32
    }
}

/// `DIVU`: the quotient of the words read as unsigned. A division by zero
/// gives all bits set.
pub open spec fn spec_divu32(a: i32, b: i32) -> i32 {
    if b == 0 {
        -1i32
    } else {
        ((a as u32) / (b as u32)) as i32
    }
}

/// `REMU`: the remainder of the words read as unsigned. A division by zero
/// gives the dividend.
pub open spec fn spec_remu32(a: i32, b: i32) -> i32 {
    if b == 0 {
        a
    } else {
        ((a as u32) % (b as u32)) as i32
    }
}

/// `MULH`: the upper word of the product of two signed words.
pub open spec fn spec_mulh32(a: i32, b: i32) -> i32 {
    ((a * b) / 0x1_0000_0000) as i32
}

/// `MULHSU`: the upper word of the product of a signed word and a word read
/// as unsigned.
pub open spec fn spec_mulhsu32(a: i32, b: i32) -> i32 {
    ((a * (b as u32)) / 0x1_0000_0000) as i32
}

/// `MULHU`: the upper word of the product of two words read as unsigned.
pub open spec fn spec_mulhu32(a: i32, b: i32) -> i32 {
    ((((a as u32) * (b as u32)) / 0x1_0000_0000) as u32) as i32
}

/// The upper word of a product is the product divided by `2^32`, rounded
/// down: it always fits a word.
pub proof fn lemma_mulh32(a: i32, b: i32)
    ensures
        spec_mulh32(a, b) == (a * b) / 0x1_0000_0000,
        spec_mulhsu32(a, b) == (a * (b as u32)) / 0x1_0000_0000,
        spec_mulhu32(a, b) as u32 == ((a as u32) * (b as u32)) / 0x1_0000_0000,
{
    let unsigned = b as u32;
    let left = a as u32;
    assert(-0x4000_0000_0000_0000 <= a * b <= 0x4000_0000_0000_0000) by (nonlinear_arith)
        requires
            -0x8000_0000 <= a < 0x8000_0000,
            -0x8000_0000 <= b < 0x8000_0000,
    ;
    assert(-0x8000_0000_0000_0000 <= a * unsigned < 0x8000_0000_0000_0000) by (nonlinear_arith)
        requires
            -0x8000_0000 <= a < 0x8000_0000,
            0 <= unsigned < 0x1_0000_0000,
    ;
    assert(0 <= left * unsigned < 0x1_0000_0000_0000_0000) by (nonlinear_arith)
        requires
            0 <= left < 0x1_0000_0000,
            0 <= unsigned < 0x1_0000_0000,
    ;
    lemma_unsigned_again(((left * unsigned) / 0x1_0000_0000) as u32, 0);
}

/// Where the quotient fits a word, `DIV` gives the quotient rounded towards
/// zero and `REM` its remainder: together they make up the dividend.
pub proof fn lemma_div32(a: i32, b: i32)
    requires
        b != 0,
        !(a == i32::MIN && b == -1),
    ensures
        spec_div32(a, b) == quotient(a as int, b as int),
        spec_rem32(a, b) == remainder(a as int, b as int),
        a == b * spec_div32(a, b) + spec_rem32(a, b),
{
    lemma_quotient_fits(a as int, b as int, 0x8000_0000);
}

/// The magnitude of a word.
fn magnitude32(v: i32) -> (m: u32)
    ensures
        m == magnitude(v as int),
{
    if v < 0 {
        (-(v + 1)) as u32 + 1
    } else {
        v as u32
    }
}

/// `DIV`: the signed quotient.
#[verifier::when_used_as_spec(spec_div32)]
pub fn div32(a: i32, b: i32) -> (q: i32)
    ensures
        q == spec_div32(a, b),
{
    if b == 0 {
        -1
    } else if a == i32::MIN && b == -1 {
        i32::MIN
    } else {
        let q = (magnitude32(a) / magnitude32(b)) as i64;
        if (a < 0) == (b < 0) {
            q as i32
        } else {
            (-q) as i32
        }
    }
}

/// `REM`: the signed remainder.
#[verifier::when_used_as_spec(spec_rem32)]
pub fn rem32(a: i32, b: i32) -> (r: i32)
    ensures
        r == spec_rem32(a, b),
{
    if b == 0 {
        a
    } else if a == i32::MIN && b == -1 {
        0
    } else {
        let r = (magnitude32(a) % magnitude32(b)) as i64;
        if a < 0 {
            (-r) as i32
        } else {
            r as i32
        }
    }
}

/// `DIVU`: the quotient of the words read as unsigned.
#[verifier::when_used_as_spec(spec_divu32)]
pub fn divu32(a: i32, b: i32) -> (q: i32)
    ensures
        q == spec_divu32(a, b),
{
    proof {
        lemma_unsigned_zero(b, 0);
    }
    if b == 0 {
        -1
    } else {
        (a as u32 / b as u32) as i32
    }
}

/// `REMU`: the remainder of the words read as unsigned.
#[verifier::when_used_as_spec(spec_remu32)]
pub fn remu32(a: i32, b: i32) -> (r: i32)
    ensures
        r == spec_remu32(a, b),
{
    proof {
        lemma_unsigned_zero(b, 0);
    }
    if b == 0 {
        a
    } else {
        (a as u32 % b as u32) as i32
    }
}

/// `MULH`: the upper word of the product of two signed words.
#[verifier::when_used_as_spec(spec_mulh32)]
pub fn mulh32(a: i32, b: i32) -> (high: i32)
    ensures
        high == spec_mulh32(a, b),
{
    assert(-0x4000_0000_0000_0000 <= a * b <= 0x4000_0000_0000_0000) by (nonlinear_arith)
        requires
            -0x8000_0000 <= a < 0x8000_0000,
            -0x8000_0000 <= b < 0x8000_0000,
    ;
    let product: i64 = (a as i64) * (b as i64);
    proof {
        lemma_upper_half(product, 0);
    }
    (product >> 32) as i32
}

/// `MULHSU`: the upper word of the product of a signed word and a word read
/// as unsigned.
#[verifier::when_used_as_spec(spec_mulhsu32)]
pub fn mulhsu32(a: i32, b: i32) -> (high: i32)
    ensures
        high == spec_mulhsu32(a, b),
{
    let unsigned = b as u32;
    assert(-0x8000_0000_0000_0000 <= a * unsigned <= 0x7FFF_FFFF_FFFF_FFFF) by (nonlinear_arith)
        requires
            -0x8000_0000 <= a < 0x8000_0000,
            0 <= unsigned < 0x1_0000_0000,
    ;
    let product: i64 = (a as i64) * (unsigned as i64);
    proof {
        lemma_upper_half(product, 0);
    }
    (product >> 32) as i32
}

/// `MULHU`: the upper word of the product of two words read as unsigned.
#[verifier::when_used_as_spec(spec_mulhu32)]
pub fn mulhu32(a: i32, b: i32) -> (high: i32)
    ensures
        high == spec_mulhu32(a, b),
{
    let left = a as u32;
    let right = b as u32;
    assert(0 <= left * right <= 0xFFFF_FFFF_FFFF_FFFF) by (nonlinear_arith)
        requires
            0 <= left < 0x1_0000_0000,
            0 <= right < 0x1_0000_0000,
    ;
    let product: u64 = (left as u64) * (right as u64);
    ((product / 0x1_0000_0000) as u32) as i32
}

/// `DIV` on 64 bits: the signed quotient. A division by zero gives -1, and
/// the one quotient that does not fit, the dividend.
pub open spec fn spec_div64(a: i64, b: i64) -> i64 {
    if b == 0 {
        -1i64
    } else if a == i64::MIN && b == -1 {
        i64::MIN
    } else {
        quotient(a as int, b as int) as i64
    }
}

/// `REM` on 64 bits: the signed remainder. A division by zero gives the
/// dividend, and the division whose quotient does not fit, zero.
pub open spec fn spec_rem64(a: i64, b: i64) -> i64 {
    if b == 0 {
        a
    } else if a == i64::MIN && b == -1 {
        0i64
    } else {
        remainder(a as int, b as int) as i64
    }
}

/// `DIVU` on 64 bits: the quotient of the doublewords read as unsigned. A
/// division by zero gives all bits set.
pub open spec fn spec_divu64(a: i64, b: i64) -> i64 {
    if b == 0 {
        -1i64
    } else {
        ((a as u64) / (b as u64)) as i64
    }
}

/// `REMU` on 64 bits: the remainder of the doublewords read as unsigned. A
/// division by zero gives the dividend.
pub open spec fn spec_remu64(a: i64, b: i64) -> i64 {
    if b == 0 {
        a
    } else {
        ((a as u64) % (b as u64)) as i64
    }
}

/// `MULH` on 64 bits: the upper doubleword of the product of two signed
/// doublewords.
pub open spec fn spec_mulh64(a: i64, b: i64) -> i64 {
    ((a * b) / 0x1_0000_0000_0000_0000) as i64
}

/// `MULHSU` on 64 bits: the upper doubleword of the product of a signed
/// doubleword and a doubleword read as unsigned.
pub open spec fn spec_mulhsu64(a: i64, b: i64) -> i64 {
    ((a * (b as u64)) / 0x1_0000_0000_0000_0000) as i64
}

/// `MULHU` on 64 bits: the upper doubleword of the product of two
/// doublewords read as unsigned.
pub open spec fn spec_mulhu64(a: i64, b: i64) -> i64 {
    ((((a as u64) * (b as u64)) / 0x1_0000_0000_0000_0000) as u64) as i64
}

/// The upper doubleword of a product is the product divided by `2^64`,
/// rounded down: it always fits a doubleword.
pub proof fn lemma_mulh64(a: i64, b: i64)
    ensures
        spec_mulh64(a, b) == (a * b) / 0x1_0000_0000_0000_0000,
        spec_mulhsu64(a, b) == (a * (b as u64)) / 0x1_0000_0000_0000_0000,
        spec_mulhu64(a, b) as u64 == ((a as u64) * (b as u64)) / 0x1_0000_0000_0000_0000,
{
    let unsigned = b as u64;
    let left = a as u64;
    assert(-0x4000_0000_0000_0000_0000_0000_0000_0000 <= a * b
        <= 0x4000_0000_0000_0000_0000_0000_0000_0000) by (nonlinear_arith)
        requires
            -0x8000_0000_0000_0000 <= a < 0x8000_0000_0000_0000,
            -0x8000_0000_0000_0000 <= b < 0x8000_0000_0000_0000,
    ;
    assert(-0x8000_0000_0000_0000_0000_0000_0000_0000 <= a * unsigned
        < 0x8000_0000_0000_0000_0000_0000_0000_0000) by (nonlinear_arith)
        requires
            -0x8000_0000_0000_0000 <= a < 0x8000_0000_0000_0000,
            0 <= unsigned < 0x1_0000_0000_0000_0000,
    ;
    assert(0 <= left * unsigned < 0x1_0000_0000_0000_0000_0000_0000_0000_0000)
        by (nonlinear_arith)
        requires
            0 <= left < 0x1_0000_0000_0000_0000,
            0 <= unsigned < 0x1_0000_0000_0000_0000,
    ;
    lemma_unsigned_again(0, ((left * unsigned) / 0x1_0000_0000_0000_0000) as u64);
}

/// Where the quotient fits a doubleword, `DIV` gives the quotient rounded
/// towards zero and `REM` its remainder: together they make up the dividend.
pub proof fn lemma_div64(a: i64, b: i64)
    requires
        b != 0,
        !(a == i64::MIN && b == -1),
    ensures
        spec_div64(a, b) == quotient(a as int, b as int),
        spec_rem64(a, b) == remainder(a as int, b as int),
        a == b * spec_div64(a, b) + spec_rem64(a, b),
{
    lemma_quotient_fits(a as int, b as int, 0x8000_0000_0000_0000);
}

/// The magnitude of a doubleword.
fn magnitude64(v: i64) -> (m: u64)
    ensures
        m == magnitude(v as int),
{
    if v < 0 {
        (-(v + 1)) as u64 + 1
    } else {
        v as u64
    }
}

/// `DIV` on 64 bits: the signed quotient.
#[verifier::when_used_as_spec(spec_div64)]
pub fn div64(a: i64, b: i64) -> (q: i64)
    ensures
        q == spec_div64(a, b),
{
    if b == 0 {
        -1
    } else if a == i64::MIN && b == -1 {
        i64::MIN
    } else {
        let q = (magnitude64(a) / magnitude64(b)) as i128;
        if (a < 0) == (b < 0) {
            q as i64
        } else {
            (-q) as i64
        }
    }
}

/// `REM` on 64 bits: the signed remainder.
#[verifier::when_used_as_spec(spec_rem64)]
pub fn rem64(a: i64, b: i64) -> (r: i64)
    ensures
        r == spec_rem64(a, b),
{
    if b == 0 {
        a
    } else if a == i64::MIN && b == -1 {
        0
    } else {
        let r = (magnitude64(a) % magnitude64(b)) as i128;
        if a < 0 {
            (-r) as i64
        } else {
            r as i64
        }
    }
}

/// `DIVU` on 64 bits: the quotient of the doublewords read as unsigned.
#[verifier::when_used_as_spec(spec_divu64)]
pub fn divu64(a: i64, b: i64) -> (q: i64)
    ensures
        q == spec_divu64(a, b),
{
    proof {
        lemma_unsigned_zero(0, b);
    }
    if b == 0 {
        -1
    } else {
        (a as u64 / b as u64) as i64
    }
}

/// `REMU` on 64 bits: the remainder of the doublewords read as unsigned.
#[verifier::when_used_as_spec(spec_remu64)]
pub fn remu64(a: i64, b: i64) -> (r: i64)
    ensures
        r == spec_remu64(a, b),
{
    proof {
        lemma_unsigned_zero(0, b);
    }
    if b == 0 {
        a
    } else {
        (a as u64 % b as u64) as i64
    }
}

/// `MULH` on 64 bits: the upper doubleword of the product of two signed
/// doublewords.
#[verifier::when_used_as_spec(spec_mulh64)]
pub fn mulh64(a: i64, b: i64) -> (high: i64)
    ensures
        high == spec_mulh64(a, b),
{
    assert(-0x4000_0000_0000_0000_0000_0000_0000_0000 <= a * b
        <= 0x4000_0000_0000_0000_0000_0000_0000_0000) by (nonlinear_arith)
        requires
            -0x8000_0000_0000_0000 <= a < 0x8000_0000_0000_0000,
            -0x8000_0000_0000_0000 <= b < 0x8000_0000_0000_0000,
    ;
    let product: i128 = (a as i128) * (b as i128);
    proof {
        lemma_upper_half(0, product);
    }
    (product >> 64) as i64
}

/// `MULHSU` on 64 bits: the upper doubleword of the product of a signed
/// doubleword and a doubleword read as unsigned.
#[verifier::when_used_as_spec(spec_mulhsu64)]
pub fn mulhsu64(a: i64, b: i64) -> (high: i64)
    ensures
        high == spec_mulhsu64(a, b),
{
    let unsigned = b as u64;
    assert(-0x8000_0000_0000_0000_0000_0000_0000_0000 <= a * unsigned
        <= 0x7FFF_FFFF_FFFF_FFFF_FFFF_FFFF_FFFF_FFFF) by (nonlinear_arith)
        requires
            -0x8000_0000_0000_0000 <= a < 0x8000_0000_0000_0000,
            0 <= unsigned < 0x1_0000_0000_0000_0000,
    ;
    let product: i128 = (a as i128) * (unsigned as i128);
    proof {
        lemma_upper_half(0, product);
    }
    (product >> 64) as i64
}

/// `MULHU` on 64 bits: the upper doubleword of the product of two
/// doublewords read as unsigned.
#[verifier::when_used_as_spec(spec_mulhu64)]
pub fn mulhu64(a: i64, b: i64) -> (high: i64)
    ensures
        high == spec_mulhu64(a, b),
{
    let left = a as u64;
    let right = b as u64;
    assert(0 <= left * right <= 0xFFFF_FFFF_FFFF_FFFF_FFFF_FFFF_FFFF_FFFF) by (nonlinear_arith)
        requires
            0 <= left < 0x1_0000_0000_0000_0000,
            0 <= right < 0x1_0000_0000_0000_0000,
    ;
    let product: u128 = (left as u128) * (right as u128);
    ((product / 0x1_0000_0000_0000_0000) as u64) as i64
}

} // verus!
