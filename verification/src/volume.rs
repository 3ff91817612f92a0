//! Truncation of a fractional volume level to an integer percentage.
//!
//! A notification reports the master volume as an IEEE 754 binary32 fraction
//! in [0.0, 1.0]. The library works on the raw bits of that value: every
//! finite non-negative binary32 value equals
//! `fraction_numer(bits) / 2^fraction_shift(bits)` exactly, so the percentage
//! `100 * value`, truncated toward zero, can be computed exactly in integer
//! arithmetic, with no floating point anywhere in the library.

use vstd::prelude::*;
use vstd::arithmetic::power2::{lemma2_to64, lemma_pow2_pos, lemma_pow2_strictly_increases, pow2};
use vstd::arithmetic::div_mod::{
    lemma_basic_div, lemma_div_is_ordered, lemma_div_multiples_vanish, lemma_div_pos_is_pos,
    lemma_fundamental_div_mod, lemma_mod_division_less_than_divisor,
};
use vstd::bits::lemma_u64_shr_is_div;

verus! {

/// Exponent field of a binary32 bit pattern.
pub open spec fn fraction_exp(bits: u32) -> u32 {
    (bits >> 23) & 0xff
}

/// Mantissa field of a binary32 bit pattern.
pub open spec fn fraction_man(bits: u32) -> u32 {
    bits & 0x7f_ffff
}

/// The bit patterns the bridge accepts: a non-negative finite binary32 value
/// that is at most 1.0, which is how the platform reports the master volume.
pub open spec fn is_fraction_bits(bits: u32) -> bool {
    &&& bits >> 31 == 0
    &&& (fraction_exp(bits) < 127 || (fraction_exp(bits) == 127 && fraction_man(bits) == 0))
}

/// Numerator of the encoded value: `2^23 + man` for a normal value, `man`
/// for a subnormal one.
pub open spec fn fraction_numer(bits: u32) -> nat {
    if fraction_exp(bits) == 0 {
        fraction_man(bits) as nat
    } else {
        pow2(23) + fraction_man(bits) as nat
    }
}

/// Exponent of the denominator: the encoded value is exactly
/// `fraction_numer(bits) / 2^fraction_shift(bits)`.
pub open spec fn fraction_shift(bits: u32) -> nat {
    if fraction_exp(bits) == 0 {
        149
    } else {
        (150 - fraction_exp(bits)) as nat
    }
}

/// The integer volume percentage derived from a fractional level: the value
/// scaled by 100 and truncated toward zero.
pub open spec fn volume_percent(bits: u32) -> int {
    (100 * fraction_numer(bits)) as int / pow2(fraction_shift(bits)) as int
}

/// An accepted fraction lies in [0.0, 1.0], so its percentage lies in
/// [0, 100].
pub proof fn lemma_volume_percent_range(bits: u32)
    requires
        is_fraction_bits(bits),
    ensures
        0 <= volume_percent(bits) <= 100,
{
    let numer = fraction_numer(bits) as int;
    let d = pow2(fraction_shift(bits)) as int;
    lemma_pow2_pos(fraction_shift(bits));
    lemma_div_pos_is_pos(100 * numer, d);
    assert(bits & 0x7f_ffff < 0x80_0000) by (bit_vector);
    lemma2_to64();
    if fraction_exp(bits) == 0 {
        lemma_pow2_strictly_increases(23, 149);
    } else if fraction_exp(bits) < 127 {
        if fraction_shift(bits) > 24 {
            lemma_pow2_strictly_increases(24, fraction_shift(bits));
        }
    }
    assert(numer <= d);
    lemma_div_is_ordered(100 * numer, 100 * d, d);
    lemma_div_multiples_vanish(100, d);
    assert((d * 100) / d == 100);
}

/// The percentage truncates toward zero and never rounds: it is the unique
/// integer `v` with `v <= 100 * value < v + 1`, stated here over the exact
/// representation `value == fraction_numer(bits) / 2^fraction_shift(bits)`.
pub proof fn lemma_volume_percent_truncates(bits: u32)
    ensures
        volume_percent(bits) * pow2(fraction_shift(bits)) <= 100 * fraction_numer(bits),
        100 * fraction_numer(bits) < (volume_percent(bits) + 1) * pow2(fraction_shift(bits)),
{
    let scaled = (100 * fraction_numer(bits)) as int;
    let d = pow2(fraction_shift(bits)) as int;
    lemma_pow2_pos(fraction_shift(bits));
    lemma_fundamental_div_mod(scaled, d);
    lemma_mod_division_less_than_divisor(scaled, d);
    let q = scaled / d;
    assert(scaled == d * q + scaled % d);
    assert(q * d == d * q) by (nonlinear_arith);
    assert((q + 1) * d == q * d + d) by (nonlinear_arith);
}

/// Derives the integer volume percentage from the raw bits of the
/// fractional level, truncating toward zero.
pub fn volume_from_fraction(bits: u32) -> (v: i32)
    requires
        is_fraction_bits(bits),
    ensures
        v as int == volume_percent(bits),
        0 <= v <= 100,
{
    proof {
        lemma_volume_percent_range(bits);
        assert(bits & 0x7f_ffff < 0x80_0000) by (bit_vector);
        lemma2_to64();
    }
    let exp: u32 = (bits >> 23) & 0xff;
    let man: u32 = bits & 0x7f_ffff;
    let numer: u64 = if exp == 0 {
        man as u64
    } else {
        man as u64 + 0x80_0000
    };
    let shift: u32 = if exp == 0 { 149 } else { 150 - exp };
    proof {
        assert(numer as nat == fraction_numer(bits));
        assert(shift as nat == fraction_shift(bits));
    }
    let scaled: u64 = 100 * numer;
    let q: u64 = if shift >= 64 {
        proof {
            lemma_pow2_strictly_increases(31, shift as nat);
            lemma_basic_div(scaled as int, pow2(shift as nat) as int);
        }
        0
    } else {
        proof {
            lemma_u64_shr_is_div(scaled, shift as u64);
        }
        scaled >> (shift as u64)
    };
    q as i32
}

} // verus!
