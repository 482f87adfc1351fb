use vstd::prelude::*;

verus! {

/// `x` as an `i16`, for values in range.
pub open spec fn int_as_i16(x: int) -> i16 {
    x as i16
}

/// `x` as a `u8`, for values in range.
pub open spec fn int_as_u8(x: int) -> u8 {
    x as u8
}

/// `x` as a `u16`, for values in range.
pub open spec fn int_as_u16(x: int) -> u16 {
    x as u16
}

/// Narrows an `i64` known to fit an `i16`.
pub fn narrow_to_i16(x: i64) -> (r: i16)
    requires
        i16::MIN <= x <= i16::MAX,
    ensures
        r == x,
{
    x as i16
}

/// Narrows an `i32` known to fit an `i16`.
pub fn narrow_i32_to_i16(x: i32) -> (r: i16)
    requires
        i16::MIN <= x <= i16::MAX,
    ensures
        r == x,
{
    x as i16
}

/// Narrows a `u32` known to fit a `u8`.
pub fn narrow_to_u8(x: u32) -> (r: u8)
    requires
        x <= u8::MAX,
    ensures
        r == x,
{
    x as u8
}

/// Widens an `i32` to an `i64`.
pub fn widen_to_i64(x: i32) -> (r: i64)
    ensures
        r == x,
{
    x as i64
}

/// Integer division rounding toward zero, as Rust's `/` on signed integers does.
pub open spec fn quotient_toward_zero(x: int, d: int) -> int {
    if x >= 0 {
        x / d
    } else {
        -((-x) / d)
    }
}

/// An `i32` divided by `d`, rounding toward zero.
pub open spec fn i32_quotient(x: i32, d: int) -> int {
    quotient_toward_zero(x as int, d)
}

/// An `i32` divided by `d`, rounding toward zero, as an `i32`.
pub open spec fn i32_quotient_i32(x: i32, d: int) -> i32 {
    quotient_toward_zero(x as int, d) as i32
}

/// `x` divided by `d`, rounding toward zero, as an `i32`.
pub open spec fn quotient_as_i32(x: int, d: int) -> i32 {
    quotient_toward_zero(x, d) as i32
}

/// `x` limited to the range of an `i16`.
pub open spec fn clamp_i16(x: int) -> i16 {
    if x < i16::MIN {
        i16::MIN
    } else if x > i16::MAX {
        i16::MAX
    } else {
        x as i16
    }
}

/// The two's complement reading of a `u32`'s bits as an `i32`.
pub open spec fn u32_as_i32(x: u32) -> i32 {
    if x <= i32::MAX {
        x as i32
    } else {
        (x - 0x1_0000_0000) as i32
    }
}

/// The bits of an `i16` read as a `u16`.
pub open spec fn i16_as_u16(x: i16) -> u16 {
    if x >= 0 {
        x as u16
    } else {
        (x + 0x1_0000) as u16
    }
}

/// Divides by a positive divisor, rounding toward zero.
pub fn div_toward_zero(x: i32, d: i32) -> (r: i32)
    requires
        d > 0,
    ensures
        r == quotient_toward_zero(x as int, d as int),
{
    if x >= 0 {
        x / d
    } else {
        let q: i64 = (-(x as i64)) / (d as i64);
        (-q) as i32
    }
}

/// Limits an `i32` to the range of an `i16`.
pub fn clamp_to_i16(x: i32) -> (r: i16)
    ensures
        r == clamp_i16(x as int),
{
    if x < -32768 {
        -32768
    } else if x > 32767 {
        32767
    } else {
        x as i16
    }
}

/// Reads the bits of a `u32` as an `i32` (two's complement), as `as i32` does.
pub fn reinterpret_u32_as_i32(x: u32) -> (r: i32)
    ensures
        r == u32_as_i32(x),
{
    if x <= 0x7fff_ffff {
        x as i32
    } else {
        ((x - 0x8000_0000) as i32) + i32::MIN
    }
}

/// Reads the bits of an `i16` as a `u16`, as `as u16` does.
pub fn reinterpret_i16_as_u16(x: i16) -> (r: u16)
    ensures
        r == i16_as_u16(x),
{
    if x >= 0 {
        x as u16
    } else {
        ((x as i32) + 0x1_0000) as u16
    }
}

/// Division rounding toward zero by a positive divisor: the quotient has the sign of `x`, and
/// `x` lies between the quotient times `d` (inclusive) and the next multiple of `d` away from
/// zero (exclusive).
pub proof fn lemma_quotient_toward_zero(x: int, d: int)
    requires
        d > 0,
    ensures
        ({
            let q = quotient_toward_zero(x, d);
            &&& x >= 0 ==> 0 <= q && q * d <= x < q * d + d
            &&& x < 0 ==> q <= 0 && q * d - d < x <= q * d
        }),
{
    if x >= 0 {
        assert(0 <= x / d && (x / d) * d <= x < (x / d) * d + d) by (nonlinear_arith)
            requires
                x >= 0,
                d > 0,
        {
            vstd::arithmetic::div_mod::lemma_fundamental_div_mod(x, d);
            vstd::arithmetic::div_mod::lemma_div_pos_is_pos(x, d);
        }
    } else {
        let y = -x;
        assert(0 <= y / d && (y / d) * d <= y < (y / d) * d + d) by (nonlinear_arith)
            requires
                y > 0,
                d > 0,
        {
            vstd::arithmetic::div_mod::lemma_fundamental_div_mod(y, d);
            vstd::arithmetic::div_mod::lemma_div_pos_is_pos(y, d);
        }
        assert((-(y / d)) * d == -((y / d) * d)) by (nonlinear_arith);
    }
}

/// Limiting to the `i16` range keeps a value in range and gives the nearer bound otherwise.
pub proof fn lemma_clamp_i16(x: int)
    ensures
        i16::MIN <= x <= i16::MAX ==> clamp_i16(x) == x,
        x < i16::MIN ==> clamp_i16(x) == i16::MIN,
        x > i16::MAX ==> clamp_i16(x) == i16::MAX,
{
}

} // verus!
