//! Normalized texture coordinates as delivered by the camera SDK: each
//! coordinate is the bit pattern of an IEEE-754 single-precision number, and
//! is mapped onto a pixel index with exact integer arithmetic.

use vstd::arithmetic::div_mod::{lemma_div_denominator, lemma_fundamental_div_mod_converse_div};
use vstd::arithmetic::power2::{lemma2_to64, lemma_pow2_adds, lemma_pow2_pos, pow2};
use vstd::bits::lemma_u128_shr_is_div;
use vstd::prelude::*;

verus! {

/// The 23-bit fraction field of a single-precision bit pattern.
pub open spec fn fraction_field(bits: u32) -> nat {
    (bits as nat) % 0x80_0000
}

/// The 8-bit biased exponent field of a single-precision bit pattern.
pub open spec fn exponent_field(bits: u32) -> nat {
    ((bits as nat) / 0x80_0000) % 256
}

/// The sign bit of a single-precision bit pattern.
pub open spec fn sign_field(bits: u32) -> nat {
    (bits as nat) / 0x8000_0000
}

/// The pattern encodes +0.0 or -0.0.
pub open spec fn is_zero(bits: u32) -> bool {
    exponent_field(bits) == 0 && fraction_field(bits) == 0
}

/// The number encoded by `bits` lies in the half-open interval [0, 1).
/// NaN and the infinities lie outside it.
pub open spec fn in_unit_interval(bits: u32) -> bool {
    (sign_field(bits) == 0 || is_zero(bits)) && exponent_field(bits) < 127
}

/// The integer significand: the magnitude of the encoded number is
/// `significand(bits) / 2^binary_scale(bits)` for every finite pattern.
pub open spec fn significand(bits: u32) -> nat {
    if exponent_field(bits) == 0 {
        fraction_field(bits)
    } else {
        fraction_field(bits) + 0x80_0000
    }
}

/// The power of two that divides the significand (subnormals share the
/// scale of the smallest normal exponent).
pub open spec fn binary_scale(bits: u32) -> int {
    if exponent_field(bits) == 0 {
        149
    } else {
        150 - exponent_field(bits)
    }
}

/// `floor(value(bits) * n)`, computed exactly, for a number in [0, 1).
pub open spec fn floor_scaled(bits: u32, n: nat) -> nat {
    (significand(bits) * n) / pow2(binary_scale(bits) as nat)
}

/// The pixel index that the coordinate `bits` selects on an axis of `n`
/// pixels: `None` outside [0, 1), else `floor(value * n)` clamped to `n - 1`.
pub open spec fn pixel_index(bits: u32, n: nat) -> Option<nat> {
    if in_unit_interval(bits) {
        let x = floor_scaled(bits, n);
        Some(if x < n { x } else { (n - 1) as nat })
    } else {
        None
    }
}

/// The unsigned pattern of the same 32 bits as the signed word `raw`.
pub open spec fn raw_bits(raw: i32) -> u32 {
    (if raw >= 0 { raw as int } else { raw as int + 0x1_0000_0000 }) as u32
}

/// Reinterprets the SDK's 32-bit signed word as the unsigned bit pattern of
/// the same 32 bits; no numeric conversion takes place.
pub fn coord_bits(raw: i32) -> (r: u32)
    ensures
        r == raw_bits(raw),
{
    if raw >= 0 {
        raw as u32
    } else {
        (raw as i64 + 0x1_0000_0000) as u32
    }
}

/// Maps a coordinate onto `0..max_value`, or `None` where the coordinate lies
/// outside [0, 1) (outside the color sensor's field of view).
pub fn scale_and_clamp(coordinate: u32, max_value: usize) -> (r: Option<usize>)
    requires
        max_value > 0,
    ensures
        r matches Some(x) ==> pixel_index(coordinate, max_value as nat) == Some(x as nat),
        r is None <==> pixel_index(coordinate, max_value as nat) is None,
{
    let fraction: u32 = coordinate % 0x80_0000;
    let exponent: u32 = (coordinate / 0x80_0000) % 256;
    let sign: u32 = coordinate / 0x8000_0000;
    if !((sign == 0 || (exponent == 0 && fraction == 0)) && exponent < 127) {
        return None;
    }
    let m: u128 = if exponent == 0 {
        fraction as u128
    } else {
        fraction as u128 + 0x80_0000
    };
    let scale: u32 = if exponent == 0 {
        149
    } else {
        150 - exponent
    };
    let n: u128 = max_value as u128;
    assert(m * n <= 0xff_ffff * 0xffff_ffff_ffff_ffff) by (nonlinear_arith)
        requires
            m <= 0xff_ffff,
            n <= 0xffff_ffff_ffff_ffff,
    ;
    let product: u128 = m * n;
    let rest: u32 = scale - 24;
    let high: u128 = product >> 24u128;
    let scaled: u128 = high >> (rest as u128);
    proof {
        lemma_u128_shr_is_div(product, 24u128);
        lemma_u128_shr_is_div(high, rest as u128);
        lemma_pow2_pos(24);
        lemma_pow2_pos(rest as nat);
        lemma_div_denominator(product as int, pow2(24) as int, pow2(rest as nat) as int);
        lemma_pow2_adds(24, rest as nat);
        assert(scaled as nat == floor_scaled(coordinate, max_value as nat));
    }
    if scaled < n {
        Some(scaled as usize)
    } else {
        Some(max_value - 1)
    }
}

/// A coordinate in [0, 1) selects a pixel inside the axis.
pub proof fn lemma_index_in_range(bits: u32, n: nat)
    requires
        n > 0,
        in_unit_interval(bits),
    ensures
        pixel_index(bits, n) matches Some(x) && x < n,
{
}

/// A coordinate outside [0, 1) selects no pixel.
pub proof fn lemma_outside_selects_nothing(bits: u32, n: nat)
    requires
        !in_unit_interval(bits),
    ensures
        pixel_index(bits, n) is None,
{
}

/// 0.0, and -0.0 too, selects the first pixel.
pub proof fn lemma_zero_selects_first(n: nat)
    requires
        n > 0,
    ensures
        pixel_index(0x0000_0000u32, n) == Some(0nat),
        pixel_index(0x8000_0000u32, n) == Some(0nat),
{
    lemma_pow2_pos(149);
    assert(significand(0x0000_0000u32) == 0);
    assert(significand(0x8000_0000u32) == 0);
}

/// The largest single below 1.0 (1 - 2^-24) selects the last pixel of any
/// axis of at most 2^24 pixels.
pub proof fn lemma_below_one_selects_last(n: nat)
    requires
        0 < n <= 0x100_0000,
    ensures
        pixel_index(0x3f7f_ffffu32, n) == Some((n - 1) as nat),
{
    let bits: u32 = 0x3f7f_ffff;
    assert(exponent_field(bits) == 126);
    assert(fraction_field(bits) == 0x7f_ffff);
    lemma2_to64();
    let d: int = 0x100_0000;
    assert(pow2(binary_scale(bits) as nat) == d);
    assert(significand(bits) * n == (n - 1) * d + (d - n)) by (nonlinear_arith)
        requires
            significand(bits) == d - 1,
    ;
    lemma_fundamental_div_mod_converse_div((significand(bits) * n) as int, d, n - 1, d - n);
}

/// 1.0 itself lies outside the view: it selects no pixel, and is not
/// clamped onto the last one.
pub proof fn lemma_one_selects_nothing(n: nat)
    ensures
        pixel_index(0x3f80_0000u32, n) is None,
{
    assert(exponent_field(0x3f80_0000u32) == 127);
}

} // verus!
