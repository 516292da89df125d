//! IEEE 754 single-precision numbers, read from their 32-bit patterns with
//! integer arithmetic only.
//!
//! A finite pattern stands for `±significand · 2^exponent`. The conversions
//! here are the ones the input protocol needs: truncation to an integer with
//! saturation, the same after scaling by a constant, and two comparisons.
//! Where a scaling is inexact in the format, the product or quotient is first
//! rounded to 24 significant bits, ties to the even neighbour. Rounded values
//! below `2^-126` or above the largest finite number differ from this in the
//! format, but they lie where truncation and saturation cannot tell them
//! apart: the first all truncate to zero, the second all saturate.

use vstd::prelude::*;
use vstd::arithmetic::div_mod::{
    lemma_basic_div, lemma_div_denominator, lemma_fundamental_div_mod, lemma_mod_bound,
};
use vstd::arithmetic::power2::{
    lemma2_to64, lemma_pow2_pos, lemma_pow2_strictly_increases, lemma_pow2_unfold, pow2,
};
use vstd::bits::{lemma_u64_shl_is_mul, lemma_u64_shr_is_div};

verus! {

/// The pattern without its sign bit.
pub open spec fn magnitude_bits(bits: u32) -> int {
    if bits >= 0x8000_0000 {
        bits - 0x8000_0000
    } else {
        bits as int
    }
}

/// The sign bit is set. This holds of `-0.0` and of half of the NaNs too.
pub open spec fn is_negative(bits: u32) -> bool {
    bits >= 0x8000_0000
}

pub open spec fn is_nan(bits: u32) -> bool {
    magnitude_bits(bits) > 0x7f80_0000
}

pub open spec fn is_infinite(bits: u32) -> bool {
    magnitude_bits(bits) == 0x7f80_0000
}

pub open spec fn is_finite(bits: u32) -> bool {
    magnitude_bits(bits) < 0x7f80_0000
}

/// The eight exponent bits, as stored.
pub open spec fn biased_exponent(bits: u32) -> int {
    magnitude_bits(bits) / 0x80_0000
}

/// The twenty-three fraction bits.
pub open spec fn fraction(bits: u32) -> int {
    magnitude_bits(bits) % 0x80_0000
}

/// The integer `m` in `|x| = m · 2^e` for a finite pattern: the fraction,
/// with the implicit leading bit unless the number is subnormal.
pub open spec fn significand(bits: u32) -> int {
    if biased_exponent(bits) == 0 {
        fraction(bits)
    } else {
        fraction(bits) + 0x80_0000
    }
}

/// The integer `e` in `|x| = m · 2^e` for a finite pattern.
pub open spec fn exponent(bits: u32) -> int {
    if biased_exponent(bits) == 0 {
        -149
    } else {
        biased_exponent(bits) - 150
    }
}

/// `x > 0.0`: false of both zeros, of every negative number and of every NaN.
pub open spec fn is_positive(bits: u32) -> bool {
    0 < bits <= 0x7f80_0000
}

/// `|x| > 0.1`, where `0.1` is the nearest single-precision number,
/// `0x3dcc_cccd`. Patterns of one sign are ordered as the numbers they stand
/// for, so the comparison is one of patterns. False of every NaN.
pub open spec fn exceeds_tenth(bits: u32) -> bool {
    0x3dcc_cccd < magnitude_bits(bits) <= 0x7f80_0000
}

/// `⌊n · 2^e⌋` for `n ≥ 0`.
pub open spec fn scale_floor(n: int, e: int) -> int {
    if e >= 0 {
        n * pow2(e as nat)
    } else {
        n / (pow2((-e) as nat) as int)
    }
}

/// `v` held to the range from `lo` to `hi`.
pub open spec fn saturate(v: int, lo: int, hi: int) -> int {
    if v < lo {
        lo
    } else if v > hi {
        hi
    } else {
        v
    }
}

/// `a / b` rounded to the nearest integer, a tie to the even one.
pub open spec fn round_half_even(a: int, b: int) -> int
    recommends
        0 <= a,
        0 < b,
{
    let q = a / b;
    let r = a % b;
    if 2 * r < b || (2 * r == b && q % 2 == 0) {
        q
    } else {
        q + 1
    }
}

/// How many low bits `n` has beyond twenty-four.
pub open spec fn excess_bits(n: nat) -> nat
    decreases n,
{
    if n < 0x100_0000 {
        0
    } else {
        1 + excess_bits(n / 2)
    }
}

/// What a cast of a floating-point number to an integer type with the range
/// from `lo` to `hi` gives, when `magnitude` is the truncated absolute value
/// of a finite number: NaN becomes zero, everything else saturates.
pub open spec fn cast_result(bits: u32, negative: bool, magnitude: int, lo: int, hi: int) -> int
    recommends
        lo <= 0 <= hi,
{
    if is_nan(bits) {
        0
    } else if is_infinite(bits) {
        if negative {
            lo
        } else {
            hi
        }
    } else {
        saturate(
            if negative {
                -magnitude
            } else {
                magnitude
            },
            lo,
            hi,
        )
    }
}

/// `x as i32`.
pub open spec fn truncated_i32(bits: u32) -> int {
    cast_result(
        bits,
        is_negative(bits),
        scale_floor(significand(bits), exponent(bits)),
        i32::MIN as int,
        i32::MAX as int,
    )
}

/// `(x * 256.0) as u8`. The product is exact.
pub open spec fn times_256_u8(bits: u32) -> int {
    cast_result(
        bits,
        is_negative(bits),
        scale_floor(significand(bits), exponent(bits) + 8),
        0,
        255,
    )
}

/// The truncated absolute value of `x * 32767.0`: the exact product of the
/// significands, rounded to 24 significant bits, at the exponent that the
/// rounding leaves.
pub open spec fn times_32767_magnitude(bits: u32) -> int {
    let n = (32767 * significand(bits)) as nat;
    let k = excess_bits(n);
    scale_floor(round_half_even(n as int, pow2(k) as int), exponent(bits) + k)
}

/// `(x * 32767.0) as i16`.
pub open spec fn times_32767_i16(bits: u32) -> int {
    cast_result(
        bits,
        is_negative(bits),
        times_32767_magnitude(bits),
        i16::MIN as int,
        i16::MAX as int,
    )
}

/// `(x * -32767.0) as i16`: the same magnitude under the opposite sign.
pub open spec fn times_neg_32767_i16(bits: u32) -> int {
    cast_result(
        bits,
        !is_negative(bits),
        times_32767_magnitude(bits),
        i16::MIN as int,
        i16::MAX as int,
    )
}

/// The truncated absolute value of `x / 10.0`. A normal significand lies
/// between `2^23` and `2^24`, so its tenth has 24 significant bits when it is
/// counted in sixteenths below `10 · 2^20` and in eighths from there on.
pub open spec fn tenth_magnitude(bits: u32) -> int {
    let m = significand(bits);
    if m < 10 * 0x10_0000 {
        scale_floor(round_half_even(16 * m, 10), exponent(bits) - 4)
    } else {
        scale_floor(round_half_even(8 * m, 10), exponent(bits) - 3)
    }
}

/// `(-x / 10.0) as i32`.
pub open spec fn neg_tenth_i32(bits: u32) -> int {
    cast_result(
        bits,
        !is_negative(bits),
        tenth_magnitude(bits),
        i32::MIN as int,
        i32::MAX as int,
    )
}

/// `round_half_even(a, b)` is a nearest integer to `a / b`, and the even one
/// of the two where `a / b` lies halfway between two integers.
pub proof fn round_half_even_is_nearest(a: int, b: int)
    requires
        0 <= a,
        0 < b,
    ensures
        2 * (round_half_even(a, b) * b - a) <= b,
        2 * (a - round_half_even(a, b) * b) <= b,
        2 * (round_half_even(a, b) * b - a) == b || 2 * (a - round_half_even(a, b) * b) == b
            ==> round_half_even(a, b) % 2 == 0,
{
    let q = a / b;
    let r = a % b;
    lemma_fundamental_div_mod(a, b);
    lemma_mod_bound(a, b);
    assert(q * b == b * q) by (nonlinear_arith);
    assert((q + 1) * b == b * q + b) by (nonlinear_arith);
}

/// No other integer is as near: one that is a nearest integer to `a / b`,
/// and even where `a / b` lies halfway, is `round_half_even(a, b)`.
pub proof fn round_half_even_is_the_only_one(a: int, b: int, t: int)
    requires
        0 <= a,
        0 < b,
        2 * (t * b - a) <= b,
        2 * (a - t * b) <= b,
        2 * (t * b - a) == b || 2 * (a - t * b) == b ==> t % 2 == 0,
    ensures
        t == round_half_even(a, b),
{
    let q = a / b;
    let r = a % b;
    lemma_fundamental_div_mod(a, b);
    lemma_mod_bound(a, b);
    assert(q * b == b * q) by (nonlinear_arith);
    let d = t - q;
    assert(t * b == q * b + d * b) by (nonlinear_arith)
        requires
            d == t - q,
    ;
    if d >= 2 {
        assert(d * b >= 2 * b) by (nonlinear_arith)
            requires
                d >= 2,
                b > 0,
        ;
    } else if d <= -1 {
        assert(d * b <= -b) by (nonlinear_arith)
            requires
                d <= -1,
                b > 0,
        ;
    } else if d == 1 {
        assert(d * b == b) by (nonlinear_arith)
            requires
                d == 1,
        ;
    } else {
        assert(d * b == 0) by (nonlinear_arith)
            requires
                d == 0,
        ;
    }
}

/// What `excess_bits` counts: a number of more than 24 bits, without as
/// many low bits, has exactly 24 bits; a number of up to 24 bits has no bit
/// in excess.
pub proof fn excess_bits_leave_24(n: nat)
    ensures
        n < 0x100_0000 ==> excess_bits(n) == 0,
        n >= 0x100_0000 ==> 0x80_0000 <= n / pow2(excess_bits(n)) < 0x100_0000,
    decreases n,
{
    lemma2_to64();
    if n >= 0x100_0000 {
        let k = excess_bits(n / 2);
        excess_bits_leave_24(n / 2);
        lemma_pow2_unfold(k + 1);
        lemma_pow2_pos(k);
        lemma_div_denominator(n as int, 2, pow2(k) as int);
        assert(2 * pow2(k) == pow2(k) * 2) by (nonlinear_arith);
        if n / 2 < 0x100_0000 {
            assert(pow2(0) == 1);
        }
    }
}

/// The absolute value of a finite pattern in units of `2^-149`, the step of
/// the smallest numbers of the format. Every finite number is a whole
/// number of them.
pub open spec fn magnitude_units(bits: u32) -> nat {
    (significand(bits) * pow2((exponent(bits) + 149) as nat)) as nat
}

/// Among finite patterns, the one with the larger pattern under the sign
/// bit stands for the number of larger absolute value. So a comparison of
/// two numbers of one sign is a comparison of their patterns.
pub proof fn patterns_are_ordered_as_numbers(a: u32, b: u32)
    requires
        is_finite(a),
        is_finite(b),
    ensures
        magnitude_bits(a) < magnitude_bits(b) <==> magnitude_units(a) < magnitude_units(b),
        magnitude_bits(a) == magnitude_bits(b) <==> magnitude_units(a) == magnitude_units(b),
{
    if magnitude_bits(a) < magnitude_bits(b) {
        lemma_units_increase(a, b);
    } else if magnitude_bits(b) < magnitude_bits(a) {
        lemma_units_increase(b, a);
    }
}

/// The two comparisons, said of numbers: `is_positive` holds of the
/// patterns without a sign that stand for infinity or for a number above
/// zero, and `exceeds_tenth` of those that stand for infinity or for a
/// number whose absolute value is above that of `0x3dcc_cccd`.
pub proof fn comparisons_are_of_numbers(bits: u32)
    ensures
        is_positive(bits) <==> !is_negative(bits) && !is_nan(bits) && (is_infinite(bits)
            || magnitude_units(bits) > 0),
        exceeds_tenth(bits) <==> !is_nan(bits) && (is_infinite(bits) || magnitude_units(bits)
            > magnitude_units(0x3dcc_cccd)),
{
    if is_finite(bits) {
        patterns_are_ordered_as_numbers(0, bits);
        patterns_are_ordered_as_numbers(0x3dcc_cccd, bits);
        assert(magnitude_units(0) == 0) by {
            assert(significand(0) == 0);
            assert(0 * pow2((exponent(0) + 149) as nat) == 0) by (nonlinear_arith);
        }
    }
}

/// `0x3dcc_cccd` stands for the single-precision number nearest to a tenth:
/// `2^27 / 10`, rounded, times `2^-27`.
pub proof fn a_tenth_is_0x3dcc_cccd()
    ensures
        significand(0x3dcc_cccd) == round_half_even(0x800_0000, 10),
        exponent(0x3dcc_cccd) == -27,
        excess_bits(round_half_even(0x800_0000, 10) as nat) == 0,
{
}

proof fn lemma_units_increase(a: u32, b: u32)
    requires
        is_finite(a),
        is_finite(b),
        magnitude_bits(a) < magnitude_bits(b),
    ensures
        magnitude_units(a) < magnitude_units(b),
{
    let sa = biased_exponent(a);
    let sb = biased_exponent(b);
    let fa = fraction(a);
    let fb = fraction(b);
    lemma2_to64();
    assert(sa <= sb);
    let ea = (exponent(a) + 149) as nat;
    let eb = (exponent(b) + 149) as nat;
    lemma_pow2_pos(ea);
    lemma_pow2_pos(eb);
    if sa == sb {
        assert(fa < fb);
        assert(significand(a) * pow2(ea) < significand(b) * pow2(ea)) by (nonlinear_arith)
            requires
                significand(a) < significand(b),
                pow2(ea) > 0,
        ;
    } else if sa == 0 {
        assert(pow2(ea) == 1);
        assert(significand(a) * pow2(ea) == significand(a)) by (nonlinear_arith)
            requires
                pow2(ea) == 1,
        ;
        assert(significand(b) * pow2(eb) >= significand(b)) by (nonlinear_arith)
            requires
                pow2(eb) >= 1,
                significand(b) >= 0,
        ;
    } else {
        // `a` lies below the next power of two, and `b` at or above it.
        lemma_pow2_unfold(ea + 1);
        if ea + 1 < eb {
            lemma_pow2_strictly_increases(ea + 1, eb);
        }
        assert(significand(a) * pow2(ea) < 0x100_0000 * pow2(ea)) by (nonlinear_arith)
            requires
                significand(a) < 0x100_0000,
                pow2(ea) > 0,
        ;
        assert(0x80_0000 * pow2(eb) <= significand(b) * pow2(eb)) by (nonlinear_arith)
            requires
                0x80_0000 <= significand(b),
                pow2(eb) > 0,
        ;
        assert(0x100_0000 * pow2(ea) <= 0x80_0000 * pow2(eb)) by (nonlinear_arith)
            requires
                2 * pow2(ea) <= pow2(eb),
        ;
    }
}

/// The parts of a pattern: sign, stored exponent, fraction.
fn split(bits: u32) -> (parts: (bool, u32, u32))
    ensures
        parts.0 == is_negative(bits),
        parts.1 == biased_exponent(bits),
        parts.2 == fraction(bits),
        parts.1 <= 255,
        parts.2 < 0x80_0000,
        parts.1 * 0x80_0000 + parts.2 == magnitude_bits(bits),
{
    let negative = bits >= 0x8000_0000;
    let rest: u32 = if negative {
        bits - 0x8000_0000
    } else {
        bits
    };
    (negative, rest / 0x80_0000, rest % 0x80_0000)
}

/// `⌊n · 2^e⌋`, or `cap` where that is larger.
fn floor_scaled(n: u64, e: i32, cap: u64) -> (v: u64)
    requires
        n < 0x8000_0000,
        cap <= 0xffff_ffff,
        -1000 <= e <= 1000,
    ensures
        v == if scale_floor(n as int, e as int) > cap {
            cap as int
        } else {
            scale_floor(n as int, e as int)
        },
{
    proof {
        lemma2_to64();
    }
    if n == 0 {
        proof {
            lemma_pow2_pos((-e) as nat);
            assert(0 * pow2(e as nat) == 0) by (nonlinear_arith);
            if e < 0 {
                lemma_basic_div(0, pow2((-e) as nat) as int);
            }
        }
        0
    } else if e > 32 {
        proof {
            lemma_pow2_strictly_increases(32, e as nat);
            assert(n * pow2(e as nat) >= pow2(e as nat)) by (nonlinear_arith)
                requires
                    n >= 1,
            ;
        }
        cap
    } else if e >= 0 {
        let shift: u64 = e as u64;
        proof {
            if e < 32 {
                lemma_pow2_strictly_increases(e as nat, 32);
            }
            assert(n * pow2(e as nat) <= 0x8000_0000 * 0x1_0000_0000) by (nonlinear_arith)
                requires
                    n < 0x8000_0000,
                    pow2(e as nat) <= 0x1_0000_0000,
            ;
            lemma_u64_shl_is_mul(n, shift);
        }
        let v: u64 = n << shift;
        if v > cap {
            cap
        } else {
            v
        }
    } else if e <= -31 {
        proof {
            if e < -31 {
                lemma_pow2_strictly_increases(31, (-e) as nat);
            }
            lemma_basic_div(n as int, pow2((-e) as nat) as int);
        }
        0
    } else {
        let shift: u64 = (-e) as u64;
        proof {
            lemma_u64_shr_is_div(n, shift);
        }
        let v: u64 = n >> shift;
        if v > cap {
            cap
        } else {
            v
        }
    }
}

/// `a / b` rounded to the nearest integer, a tie to the even one.
pub(crate) fn rounded_quotient(a: u64, b: u64) -> (q: u64)
    requires
        0 < b <= 0x4000_0000_0000_0000,
        a < 0x4000_0000_0000_0000,
    ensures
        q == round_half_even(a as int, b as int),
        a / b <= q <= a / b + 1,
{
    let q: u64 = a / b;
    let r: u64 = a % b;
    if 2 * r < b || (2 * r == b && q % 2 == 0) {
        q
    } else {
        q + 1
    }
}

/// A number rounded to 24 significant bits: the bits kept, and how many were
/// dropped below them.
fn round_to_24_bits(n: u64) -> (kept: (u64, u32))
    requires
        n < 0x100_0000_0000,
    ensures
        kept.1 == excess_bits(n as nat),
        kept.1 <= 16,
        kept.0 == round_half_even(n as int, pow2(kept.1 as nat) as int),
        kept.0 <= 0x100_0000,
{
    let mut rest: u64 = n;
    let mut unit: u64 = 1;
    let mut dropped: u32 = 0;
    proof {
        lemma2_to64();
    }
    while rest >= 0x100_0000
        invariant
            dropped <= 16,
            unit == pow2(dropped as nat),
            unit >= 1,
            rest == n / unit,
            rest * unit <= n,
            n < 0x100_0000_0000,
            excess_bits(n as nat) == dropped + excess_bits(rest as nat),
        decreases rest,
    {
        proof {
            lemma2_to64();
            assert(unit * 0x100_0000 <= n) by (nonlinear_arith)
                requires
                    rest * unit <= n,
                    rest >= 0x100_0000,
                    unit >= 1,
            ;
            if dropped > 16 {
                lemma_pow2_strictly_increases(16, dropped as nat);
            }
            assert(dropped < 16);
            lemma_pow2_unfold((dropped + 1) as nat);
            lemma_div_denominator(n as int, unit as int, 2);
            assert((rest / 2) * (unit * 2) <= n) by (nonlinear_arith)
                requires
                    rest * unit <= n,
                    unit >= 1,
                    rest >= 0,
            ;
        }
        rest = rest / 2;
        unit = unit * 2;
        dropped = dropped + 1;
    }
    proof {
        lemma2_to64();
        if dropped == 16 {
            assert(unit == 0x1_0000);
        } else {
            lemma_pow2_strictly_increases(dropped as nat, 16);
        }
    }
    let kept = rounded_quotient(n, unit);
    (kept, dropped)
}

/// The sign and truncated magnitude of a finite number as a value in the
/// range from `-low` to `high`.
fn signed_saturated(negative: bool, magnitude: u64, low: u64, high: u64) -> (v: i64)
    requires
        magnitude <= 0xffff_ffff,
        low <= 0xffff_ffff,
        high <= 0xffff_ffff,
    ensures
        v == saturate(
            if negative {
                -(magnitude as int)
            } else {
                magnitude as int
            },
            -(low as int),
            high as int,
        ),
{
    if negative {
        if magnitude > low {
            -(low as i64)
        } else {
            -(magnitude as i64)
        }
    } else if magnitude > high {
        high as i64
    } else {
        magnitude as i64
    }
}

/// The result of a cast, from the truncated magnitude of a finite number
/// capped at `0xffff_ffff`.
fn cast_from_magnitude(
    bits: u32,
    negative: bool,
    capped: u64,
    low: u64,
    high: u64,
    Ghost(magnitude): Ghost<int>,
) -> (v: i64)
    requires
        capped == if magnitude > 0xffff_ffff {
            0xffff_ffff
        } else {
            magnitude
        },
        low <= 0x8000_0000,
        high <= 0x7fff_ffff,
    ensures
        v == cast_result(bits, negative, magnitude, -(low as int), high as int),
        -(low as int) <= v <= high,
{
    let (_, stored, frac) = split(bits);
    if stored == 255 && frac != 0 {
        0
    } else if stored == 255 {
        if negative {
            -(low as i64)
        } else {
            high as i64
        }
    } else {
        signed_saturated(negative, capped, low, high)
    }
}

/// The significand and exponent of a pattern.
fn decompose(bits: u32) -> (parts: (u64, i32))
    ensures
        parts.0 == significand(bits),
        parts.1 == exponent(bits),
        parts.0 < 0x100_0000,
        -149 <= parts.1 <= 105,
{
    let (_, stored, frac) = split(bits);
    if stored == 0 {
        (frac as u64, -149)
    } else {
        (frac as u64 + 0x80_0000, stored as i32 - 150)
    }
}

/// `x > 0.0` for the number that `bits` stands for.
pub fn positive(bits: u32) -> (r: bool)
    ensures
        r == is_positive(bits),
{
    0 < bits && bits <= 0x7f80_0000
}

/// `x.abs() > 0.1` for the number that `bits` stands for.
pub fn beyond_tenth(bits: u32) -> (r: bool)
    ensures
        r == exceeds_tenth(bits),
{
    let rest: u32 = if bits >= 0x8000_0000 {
        bits - 0x8000_0000
    } else {
        bits
    };
    0x3dcc_cccd < rest && rest <= 0x7f80_0000
}

/// `x as i32` for the number that `bits` stands for.
pub fn to_i32(bits: u32) -> (v: i32)
    ensures
        v == truncated_i32(bits),
{
    let (negative, _, _) = split(bits);
    let (m, e) = decompose(bits);
    let capped = floor_scaled(m, e, 0xffff_ffff);
    let ghost magnitude = scale_floor(m as int, e as int);
    cast_from_magnitude(bits, negative, capped, 0x8000_0000, 0x7fff_ffff, Ghost(magnitude)) as i32
}

/// `(x * 256.0) as u8` for the number that `bits` stands for.
pub fn scaled_256_to_u8(bits: u32) -> (v: u8)
    ensures
        v == times_256_u8(bits),
{
    let (negative, _, _) = split(bits);
    let (m, e) = decompose(bits);
    let capped = floor_scaled(m, e + 8, 0xffff_ffff);
    let ghost magnitude = scale_floor(m as int, e + 8);
    cast_from_magnitude(bits, negative, capped, 0, 255, Ghost(magnitude)) as u8
}

/// The truncated magnitude of `x * 32767.0`, capped at `0xffff_ffff`.
fn scaled_32767_magnitude(bits: u32) -> (capped: u64)
    ensures
        capped == if times_32767_magnitude(bits) > 0xffff_ffff {
            0xffff_ffff
        } else {
            times_32767_magnitude(bits)
        },
{
    let (m, e) = decompose(bits);
    let (kept, dropped) = round_to_24_bits(32767 * m);
    floor_scaled(kept, e + dropped as i32, 0xffff_ffff)
}

/// `(x * 32767.0) as i16` for the number that `bits` stands for.
pub fn scaled_32767_to_i16(bits: u32) -> (v: i16)
    ensures
        v == times_32767_i16(bits),
{
    let (negative, _, _) = split(bits);
    let capped = scaled_32767_magnitude(bits);
    let ghost magnitude = times_32767_magnitude(bits);
    cast_from_magnitude(bits, negative, capped, 0x8000, 0x7fff, Ghost(magnitude)) as i16
}

/// `(x * -32767.0) as i16` for the number that `bits` stands for.
pub fn scaled_neg_32767_to_i16(bits: u32) -> (v: i16)
    ensures
        v == times_neg_32767_i16(bits),
{
    let (negative, _, _) = split(bits);
    let capped = scaled_32767_magnitude(bits);
    let ghost magnitude = times_32767_magnitude(bits);
    cast_from_magnitude(bits, !negative, capped, 0x8000, 0x7fff, Ghost(magnitude)) as i16
}

/// `(-x / 10.0) as i32` for the number that `bits` stands for.
pub fn neg_tenth_to_i32(bits: u32) -> (v: i32)
    ensures
        v == neg_tenth_i32(bits),
{
    let (negative, _, _) = split(bits);
    let (m, e) = decompose(bits);
    let capped = if m < 10 * 0x10_0000 {
        floor_scaled(rounded_quotient(16 * m, 10), e - 4, 0xffff_ffff)
    } else {
        floor_scaled(rounded_quotient(8 * m, 10), e - 3, 0xffff_ffff)
    };
    let ghost magnitude = tenth_magnitude(bits);
    cast_from_magnitude(bits, !negative, capped, 0x8000_0000, 0x7fff_ffff, Ghost(magnitude)) as i32
}

} // verus!
