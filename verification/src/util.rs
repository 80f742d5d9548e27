//! Bit-level helpers on the IEEE-754 single-precision layout.
use vstd::prelude::*;

verus! {

/// The sign bit of a single-precision bit pattern.
pub const F32_SIGN_BIT: u32 = 0x8000_0000;

/// Whether the sign bit of a bit pattern is set.
pub open spec fn sign_of(bits: u32) -> bool {
    bits >= F32_SIGN_BIT
}

/// A bit pattern without its sign bit (exponent and mantissa).
pub open spec fn magnitude_of(bits: u32) -> int {
    bits as int % 0x8000_0000
}

/// The bit pattern with the magnitude of `x` and the sign of `y`.
pub open spec fn spec_copysign_bits(x: u32, y: u32) -> int {
    magnitude_of(x) + if sign_of(y) { 0x8000_0000int } else { 0int }
}

/// Returns the bit pattern of `x` with the sign of `y` applied.
pub fn copysign_bits(x: u32, y: u32) -> (r: u32)
    ensures
        r as int == spec_copysign_bits(x, y),
        sign_of(r) == sign_of(y),
        magnitude_of(r) == magnitude_of(x),
{
    let r: u32 = (x & 0x7fff_ffff) | (y & 0x8000_0000);
    assert((x & 0x7fff_ffff) | (y & 0x8000_0000)
        == (x % 0x8000_0000) + if y >= 0x8000_0000 { 0x8000_0000u32 } else { 0u32 }) by (bit_vector);
    r
}

/// Applying the sign of `y` twice is applying it once, and applying the sign
/// a pattern already has gives the pattern back.
pub proof fn lemma_copysign_idempotent(x: u32, y: u32)
    ensures
        spec_copysign_bits(spec_copysign_bits(x, y) as u32, y) == spec_copysign_bits(x, y),
        spec_copysign_bits(x, x) == x,
{
}

/// `v` clamped to the range of `i16`.
pub open spec fn spec_saturate_i16(v: i32) -> int {
    if v > 32767 { 32767 } else if v < -32768 { -32768 } else { v as int }
}

/// Clamps a Q15 sample computed in 32 bits to the range of `i16`.
pub fn saturate_q15(v: i32) -> (r: i16)
    ensures
        r as int == spec_saturate_i16(v),
{
    let c: i32 = if v > 32767 { 32767 } else if v < -32768 { -32768 } else { v };
    c as i16
}

/// Saturation keeps every value that fits in `i16`, never leaves that range,
/// and keeps the order of values.
pub proof fn lemma_saturate_q15(v: i32, w: i32)
    ensures
        -32768 <= v <= 32767 ==> spec_saturate_i16(v) == v,
        -32768 <= spec_saturate_i16(v) <= 32767,
        v <= w ==> spec_saturate_i16(v) <= spec_saturate_i16(w),
{
}

} // verus!
