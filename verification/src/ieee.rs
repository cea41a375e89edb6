//! IEEE-754 values held by their bit patterns.
//!
//! The library never computes with floating-point values; it stores binary64
//! and binary32 values as their raw bit patterns and decides the few questions
//! its rules ask of them (is the value finite, is it inside a closed range)
//! on those bits. For IEEE-754, every value that is not NaN is ordered like
//! the signed integer formed from its sign bit and its remaining magnitude
//! bits, with `+0` and `-0` comparing equal; the spec functions below state
//! exactly that.
use vstd::prelude::*;

verus! {

/// Sign bit of a binary64 pattern.
pub const F64_SIGN: u64 = 0x8000_0000_0000_0000u64;

/// Magnitude pattern of positive infinity in binary64.
pub const F64_INFINITY: u64 = 0x7ff0_0000_0000_0000u64;

/// Sign bit of a binary32 pattern.
pub const F32_SIGN: u32 = 0x8000_0000u32;

/// Magnitude pattern of positive infinity in binary32.
pub const F32_INFINITY: u32 = 0x7f80_0000u32;

/// Bits of binary64 `90.0`.
pub const F64_90: u64 = 0x4056_8000_0000_0000u64;

/// Bits of binary64 `-90.0`.
pub const F64_MINUS_90: u64 = 0xc056_8000_0000_0000u64;

/// Bits of binary64 `180.0`.
pub const F64_180: u64 = 0x4066_8000_0000_0000u64;

/// Bits of binary64 `-180.0`.
pub const F64_MINUS_180: u64 = 0xc066_8000_0000_0000u64;

/// Bits of binary32 `1.0`.
pub const F32_ONE: u32 = 0x3f80_0000u32;

/// Bits of binary32 `0.0`.
pub const F32_ZERO: u32 = 0u32;

/// Magnitude (all bits but the sign) of a binary64 pattern.
pub open spec fn f64_magnitude(bits: u64) -> int {
    if bits >= F64_SIGN { bits - F64_SIGN } else { bits as int }
}

/// The pattern encodes NaN.
pub open spec fn f64_is_nan(bits: u64) -> bool {
    f64_magnitude(bits) > F64_INFINITY
}

/// The pattern encodes a finite value (neither infinite nor NaN).
pub open spec fn f64_is_finite(bits: u64) -> bool {
    f64_magnitude(bits) < F64_INFINITY
}

/// Integer that orders every non-NaN binary64 value like the value itself.
pub open spec fn f64_order_key(bits: u64) -> int {
    if bits >= F64_SIGN { -f64_magnitude(bits) } else { f64_magnitude(bits) }
}

/// `a <= b` between two binary64 values, false when either is NaN.
pub open spec fn f64_le(a: u64, b: u64) -> bool {
    !f64_is_nan(a) && !f64_is_nan(b) && f64_order_key(a) <= f64_order_key(b)
}

/// `(lo..=hi).contains(&x)` for binary64 values.
pub open spec fn f64_in_closed(lo: u64, x: u64, hi: u64) -> bool {
    f64_le(lo, x) && f64_le(x, hi)
}

/// Magnitude of a binary32 pattern.
pub open spec fn f32_magnitude(bits: u32) -> int {
    if bits >= F32_SIGN { bits - F32_SIGN } else { bits as int }
}

pub open spec fn f32_is_nan(bits: u32) -> bool {
    f32_magnitude(bits) > F32_INFINITY
}

pub open spec fn f32_is_finite(bits: u32) -> bool {
    f32_magnitude(bits) < F32_INFINITY
}

pub open spec fn f32_order_key(bits: u32) -> int {
    if bits >= F32_SIGN { -f32_magnitude(bits) } else { f32_magnitude(bits) }
}

/// `a <= b` between two binary32 values, false when either is NaN.
pub open spec fn f32_le(a: u32, b: u32) -> bool {
    !f32_is_nan(a) && !f32_is_nan(b) && f32_order_key(a) <= f32_order_key(b)
}

pub open spec fn f32_in_closed(lo: u32, x: u32, hi: u32) -> bool {
    f32_le(lo, x) && f32_le(x, hi)
}

fn f64_magnitude_exec(bits: u64) -> (m: u64)
    ensures
        m == f64_magnitude(bits),
{
    if bits >= F64_SIGN { bits - F64_SIGN } else { bits }
}

/// Whether the binary64 value with these bits is finite (`f64::is_finite`).
pub fn f64_bits_is_finite(bits: u64) -> (r: bool)
    ensures
        r == f64_is_finite(bits),
{
    f64_magnitude_exec(bits) < F64_INFINITY
}

/// `a <= b` on binary64 values given by their bits.
pub fn f64_bits_le(a: u64, b: u64) -> (r: bool)
    ensures
        r == f64_le(a, b),
{
    let ma = f64_magnitude_exec(a);
    let mb = f64_magnitude_exec(b);
    if ma > F64_INFINITY || mb > F64_INFINITY {
        return false;
    }
    let a_neg = a >= F64_SIGN;
    let b_neg = b >= F64_SIGN;
    if a_neg && b_neg {
        mb <= ma
    } else if a_neg {
        true
    } else if b_neg {
        ma == 0 && mb == 0
    } else {
        ma <= mb
    }
}

/// `(lo..=hi).contains(&x)` on binary64 values given by their bits.
pub fn f64_bits_in_closed(lo: u64, x: u64, hi: u64) -> (r: bool)
    ensures
        r == f64_in_closed(lo, x, hi),
{
    f64_bits_le(lo, x) && f64_bits_le(x, hi)
}

fn f32_magnitude_exec(bits: u32) -> (m: u32)
    ensures
        m == f32_magnitude(bits),
{
    if bits >= F32_SIGN { bits - F32_SIGN } else { bits }
}

/// Whether the binary32 value with these bits is finite (`f32::is_finite`).
pub fn f32_bits_is_finite(bits: u32) -> (r: bool)
    ensures
        r == f32_is_finite(bits),
{
    f32_magnitude_exec(bits) < F32_INFINITY
}

/// `a <= b` on binary32 values given by their bits.
pub fn f32_bits_le(a: u32, b: u32) -> (r: bool)
    ensures
        r == f32_le(a, b),
{
    let ma = f32_magnitude_exec(a);
    let mb = f32_magnitude_exec(b);
    if ma > F32_INFINITY || mb > F32_INFINITY {
        return false;
    }
    let a_neg = a >= F32_SIGN;
    let b_neg = b >= F32_SIGN;
    if a_neg && b_neg {
        mb <= ma
    } else if a_neg {
        true
    } else if b_neg {
        ma == 0 && mb == 0
    } else {
        ma <= mb
    }
}

} // verus!
