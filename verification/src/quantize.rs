//! Quantisation of a colour component to eight bits.
//!
//! A component is a single-precision value given by its IEEE-754 bit
//! pattern.  It is clamped to `[0, 1]`, multiplied by 255 and truncated
//! towards zero.  A NaN quantises to 0.  Everything here is integer
//! arithmetic on the fields of the bit pattern; that the multiplication may
//! as well be carried out in single precision is shown by
//! [`lemma_single_precision_agrees`].

use vstd::prelude::*;
use vstd::arithmetic::power2::{
    pow2, lemma2_to64, lemma_pow2_adds, lemma_pow2_pos, lemma_pow2_strictly_increases,
};
use vstd::arithmetic::div_mod::{
    lemma_basic_div, lemma_div_denominator, lemma_div_is_ordered,
    lemma_div_is_ordered_by_denominator,
};
use vstd::bits::lemma_u64_shr_is_div;

verus! {

/// Bit pattern of `0.0`.
pub const ZERO_BITS: u32 = 0;

/// Bit pattern of `1.0`.
pub const ONE_BITS: u32 = 0x3F80_0000;

/// The sign bit is set.
pub open spec fn is_negative(bits: u32) -> bool {
    bits >= 0x8000_0000
}

/// The biased exponent field, bits 23 to 30.
pub open spec fn exponent_of(bits: u32) -> nat {
    ((bits as nat) / 0x80_0000) % 0x100
}

/// The fraction field, bits 0 to 22.
pub open spec fn fraction_of(bits: u32) -> nat {
    (bits as nat) % 0x80_0000
}

/// The pattern encodes a NaN.
pub open spec fn is_nan(bits: u32) -> bool {
    exponent_of(bits) == 255 && fraction_of(bits) != 0
}

/// The 24-bit significand of a normal value: the fraction with the implicit
/// leading one.  A normal value with biased exponent `e` equals
/// `significand · 2^(e − 150)`.
pub open spec fn significand_of(bits: u32) -> nat {
    0x80_0000 + fraction_of(bits)
}

/// The eight-bit value of the component with bit pattern `bits`.
///
/// NaN, negative values, zeros and subnormals give 0; values from one
/// upwards, infinity included, give 255.  A normal value below one,
/// `m · 2^(e − 150)`, gives the integer part of 255 times the value.
pub open spec fn quantize(bits: u32) -> nat {
    if is_nan(bits) || is_negative(bits) || exponent_of(bits) == 0 {
        0
    } else if exponent_of(bits) >= 127 {
        255
    } else {
        (255 * significand_of(bits)) / pow2((150 - exponent_of(bits)) as nat)
    }
}

/// The multiple of `unit` nearest to `p`; a tie goes to the even multiple.
pub open spec fn round_half_even(p: nat, unit: nat) -> nat {
    let q = p / unit;
    let r = p % unit;
    if 2 * r < unit || (2 * r == unit && q % 2 == 0) {
        q * unit
    } else {
        (q + 1) * unit
    }
}

/// `255 · m` as single precision holds it, for a 24-bit significand `m`:
/// the product has 31 or 32 bits and is rounded to its leading 24, to
/// nearest, ties to even.
pub open spec fn single_precision_product(m: nat) -> nat {
    let p = 255 * m;
    if p < 0x8000_0000 {
        round_half_even(p, 0x80)
    } else {
        round_half_even(p, 0x100)
    }
}

proof fn lemma_fields(bits: u32)
    ensures
        (bits >> 31) == 1 <==> is_negative(bits),
        ((bits >> 23) & 0xff) == exponent_of(bits),
        (bits & 0x7f_ffff) == fraction_of(bits),
        ((bits & 0x7f_ffff) | 0x80_0000) == significand_of(bits),
        exponent_of(bits) < 256,
        fraction_of(bits) < 0x80_0000,
        !is_negative(bits) ==> bits == 0x80_0000 * exponent_of(bits) + fraction_of(bits),
{
    assert((bits >> 31) == 1 <==> bits >= 0x8000_0000u32) by (bit_vector);
    assert(((bits >> 23) & 0xff) == (bits / 0x80_0000u32) % 0x100u32) by (bit_vector);
    assert((bits & 0x7f_ffff) == bits % 0x80_0000u32) by (bit_vector);
    assert(((bits & 0x7f_ffff) | 0x80_0000) == 0x80_0000u32 + (bits % 0x80_0000u32))
        by (bit_vector);
}

/// A quantised component fits in a byte.
pub proof fn lemma_quantize_range(bits: u32)
    ensures
        quantize(bits) <= 255,
{
    let e = exponent_of(bits);
    if !(is_nan(bits) || is_negative(bits) || e == 0) && e < 127 {
        let p = 255 * significand_of(bits);
        let shift = (150 - e) as nat;
        lemma2_to64();
        if shift > 24 {
            lemma_pow2_strictly_increases(24, shift);
        }
        lemma_div_is_ordered_by_denominator(p as int, pow2(24) as int, pow2(shift) as int);
    }
}

/// Clamping: one quantises to 255 and zero to 0, every value below zero
/// quantises like zero, and every value above one, infinity included,
/// quantises like one.
pub proof fn lemma_clamped(bits: u32)
    ensures
        quantize(ZERO_BITS) == 0,
        quantize(ONE_BITS) == 255,
        is_negative(bits) ==> quantize(bits) == 0,
        !is_negative(bits) && !is_nan(bits) && bits >= ONE_BITS ==> quantize(bits) == 255,
{
    assert(exponent_of(ZERO_BITS) == 0);
    assert(exponent_of(ONE_BITS) == 127 && fraction_of(ONE_BITS) == 0);
    if !is_negative(bits) && bits >= ONE_BITS {
        assert((bits / 0x80_0000u32) % 0x100u32 >= 127) by (bit_vector)
            requires
                0x3F80_0000u32 <= bits < 0x8000_0000u32,
        ;
    }
}

/// Quantisation never decreases as the component grows.  For patterns
/// without the sign bit the order of the patterns is the order of the
/// values they encode.
pub proof fn lemma_quantize_monotonic(a: u32, b: u32)
    requires
        !is_negative(a) && !is_nan(a),
        !is_negative(b) && !is_nan(b),
        a <= b,
    ensures
        quantize(a) <= quantize(b),
{
    lemma_fields(a);
    lemma_fields(b);
    lemma_quantize_range(a);
    let ea = exponent_of(a);
    let eb = exponent_of(b);
    if ea >= 1 && eb <= 126 {
        let pa = (255 * significand_of(a)) as int;
        let pb = (255 * significand_of(b)) as int;
        let sb = (150 - eb) as nat;
        lemma_pow2_pos(sb);
        if ea == eb {
            lemma_div_is_ordered(pa, pb, pow2(sb) as int);
        } else {
            let gap = (eb - ea) as nat;
            lemma_pow2_pos(gap);
            lemma_pow2_adds(gap, sb);
            lemma2_to64();
            if gap > 1 {
                lemma_pow2_strictly_increases(1, gap);
            }
            lemma_div_denominator(pa, pow2(gap) as int, pow2(sb) as int);
            lemma_div_is_ordered_by_denominator(pa, 2, pow2(gap) as int);
            lemma_div_is_ordered(pa / (pow2(gap) as int), pb, pow2(sb) as int);
        }
    }
}

/// Forming the product in single precision changes nothing: for a normal
/// value below one, 255 times the value rounded to 24 significant bits has
/// the same integer part as the exact product.
pub proof fn lemma_single_precision_agrees(bits: u32)
    requires
        !is_negative(bits),
        0 < exponent_of(bits) < 127,
    ensures
        single_precision_product(significand_of(bits)) / pow2((150 - exponent_of(bits)) as nat)
            == quantize(bits),
{
    lemma_fields(bits);
    let m: u64 = significand_of(bits) as u64;
    let s: u64 = (150 - exponent_of(bits)) as u64;
    let p: u64 = (255 * m) as u64;
    let rounded: u64 = single_precision_product(m as nat) as u64;
    assert(rounded == single_precision_product(m as nat));
    if s >= 32 {
        lemma2_to64();
        if s > 32 {
            lemma_pow2_strictly_increases(32, s as nat);
        }
        lemma_basic_div(rounded as int, pow2(s as nat) as int);
        lemma_basic_div(p as int, pow2(s as nat) as int);
    } else {
        assert((rounded >> s) == (p >> s)) by (bit_vector)
            requires
                0x80_0000 <= m < 0x100_0000,
                24 <= s < 32,
                p == 255 * m,
                rounded == (if p < 0x8000_0000 {
                    let q = p / 0x80;
                    let r = p % 0x80;
                    if 2 * r < 0x80 || (2 * r == 0x80 && q % 2 == 0) {
                        (q * 0x80) as u64
                    } else {
                        ((q + 1) * 0x80) as u64
                    }
                } else {
                    let q = p / 0x100;
                    let r = p % 0x100;
                    if 2 * r < 0x100 || (2 * r == 0x100 && q % 2 == 0) {
                        (q * 0x100) as u64
                    } else {
                        ((q + 1) * 0x100) as u64
                    }
                }),
        ;
        lemma_u64_shr_is_div(rounded, s);
        lemma_u64_shr_is_div(p, s);
    }
}

/// Quantises one colour component.
pub fn quantize_component(bits: u32) -> (q: u8)
    ensures
        q == quantize(bits),
{
    proof {
        lemma_fields(bits);
        lemma_quantize_range(bits);
    }
    let sign: u32 = bits >> 31;
    let exponent: u32 = (bits >> 23) & 0xff;
    let fraction: u32 = bits & 0x7f_ffff;
    if sign == 1 || exponent == 0 || (exponent == 255 && fraction != 0) {
        return 0;
    }
    if exponent >= 127 {
        return 255;
    }
    let product: u64 = 255 * ((fraction | 0x80_0000) as u64);
    let shift: u32 = 150 - exponent;
    if shift >= 32 {
        proof {
            lemma2_to64();
            if shift > 32 {
                lemma_pow2_strictly_increases(32, shift as nat);
            }
            lemma_basic_div(product as int, pow2(shift as nat) as int);
        }
        0
    } else {
        proof {
            lemma_u64_shr_is_div(product, shift as u64);
        }
        (product >> (shift as u64)) as u8
    }
}

} // verus!
