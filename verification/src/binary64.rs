//! IEEE 754 double-precision numbers, as far as the text form of a command
//! needs them: narrowed to single precision, from pattern to pattern.

use crate::binary32::{round_half_even, rounded_quotient};
use vstd::prelude::*;
use vstd::arithmetic::div_mod::lemma_basic_div;
use vstd::arithmetic::power2::{lemma2_to64, lemma2_to64_rest, lemma_pow2_strictly_increases, pow2};
use vstd::bits::lemma_u64_shl_is_mul;

verus! {

/// The sign bit is set.
pub open spec fn is_negative(bits: u64) -> bool {
    bits >= 0x8000_0000_0000_0000
}

/// The pattern without its sign bit.
pub open spec fn magnitude_bits(bits: u64) -> int {
    if bits >= 0x8000_0000_0000_0000 {
        bits - 0x8000_0000_0000_0000
    } else {
        bits as int
    }
}

/// The eleven exponent bits, as stored.
pub open spec fn biased_exponent(bits: u64) -> int {
    magnitude_bits(bits) / 0x10_0000_0000_0000
}

/// The fifty-two fraction bits.
pub open spec fn fraction(bits: u64) -> int {
    magnitude_bits(bits) % 0x10_0000_0000_0000
}

/// The single-precision pattern, without its sign, of the nearest
/// single-precision number, a tie to the one with the even pattern.
///
/// A normal number `m · 2^(e - 1075)`, with `m` of 53 bits, lies in the
/// binade of the single-precision exponent `e - 896`. From `e = 897` on
/// that is a normal one: `m` loses its low 29 bits, and a carry out of the
/// rounding moves the pattern into the next binade by itself. What reaches
/// the pattern of infinity is infinity. Below, the number is counted in
/// units of `2^-149`, the step of the subnormal numbers. A subnormal
/// double-precision number is less than half such a unit.
pub open spec fn narrowed_magnitude(bits: u64) -> int {
    let e = biased_exponent(bits);
    let m = fraction(bits) + 0x10_0000_0000_0000;
    if e == 2047 {
        if fraction(bits) == 0 {
            0x7f80_0000
        } else {
            0x7fc0_0000
        }
    } else if e == 0 {
        0
    } else if e >= 897 {
        let pattern = (e - 897) * 0x80_0000 + round_half_even(m, 0x2000_0000);
        if pattern >= 0x7f80_0000 {
            0x7f80_0000
        } else {
            pattern
        }
    } else {
        round_half_even(m, pow2((926 - e) as nat) as int)
    }
}

/// The pattern of `x as f32` in single precision, for the double-precision
/// number `x` that `bits` stands for. Of a NaN it keeps the sign and
/// nothing else: the result is the quiet NaN without payload.
pub open spec fn narrowed(bits: u64) -> u32 {
    (if is_negative(bits) {
        0x8000_0000 + narrowed_magnitude(bits)
    } else {
        narrowed_magnitude(bits)
    }) as u32
}

/// The single-precision pattern of the double-precision number that `bits`
/// stands for.
pub fn narrow(bits: u64) -> (pattern: u32)
    ensures
        pattern == narrowed(bits),
{
    let negative = bits >= 0x8000_0000_0000_0000;
    let rest: u64 = if negative {
        bits - 0x8000_0000_0000_0000
    } else {
        bits
    };
    let e: u64 = rest / 0x10_0000_0000_0000;
    let f: u64 = rest % 0x10_0000_0000_0000;
    let m: u64 = f + 0x10_0000_0000_0000;
    proof {
        lemma2_to64();
        lemma2_to64_rest();
    }
    let magnitude: u64 = if e == 2047 {
        if f == 0 {
            0x7f80_0000
        } else {
            0x7fc0_0000
        }
    } else if e == 0 {
        0
    } else if e >= 897 {
        let pattern = (e - 897) * 0x80_0000 + rounded_quotient(m, 0x2000_0000);
        if pattern >= 0x7f80_0000 {
            0x7f80_0000
        } else {
            pattern
        }
    } else if 926 - e >= 54 {
        proof {
            let shift = (926 - e) as nat;
            if shift > 54 {
                lemma_pow2_strictly_increases(54, shift);
            }
            lemma_basic_div(m as int, pow2(shift) as int);
            vstd::arithmetic::div_mod::lemma_small_mod(m as nat, pow2(shift));
        }
        0
    } else {
        let shift: u64 = 926 - e;
        proof {
            lemma_pow2_strictly_increases(shift as nat, 54);
            lemma_u64_shl_is_mul(1, shift);
        }
        rounded_quotient(m, 1u64 << shift)
    };
    if negative {
        (0x8000_0000 + magnitude) as u32
    } else {
        magnitude as u32
    }
}

} // verus!
