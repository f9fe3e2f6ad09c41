//! Decoding of the device's replies.

use vstd::prelude::*;

verus! {

/// The scale from raw temperature to degrees Celsius, 0.00001525878, is
/// `TEMP_C_NUMERATOR / TEMP_C_DENOMINATOR`.
pub const TEMP_C_NUMERATOR: i64 = 1525878;

pub const TEMP_C_DENOMINATOR: i64 = 100_000_000_000;

/// Division of `n` by a positive `d`, truncated toward zero.
pub open spec fn trunc_div(n: int, d: int) -> int
    recommends
        d > 0,
{
    if n >= 0 {
        n / d
    } else {
        -((-n) / d)
    }
}

/// Degrees Celsius for a raw temperature: `raw * 0.00001525878 + 0.5`,
/// truncated toward zero. For a non-negative result this rounds to the
/// nearest degree; for a negative one it is the same rule, not a rounding.
pub open spec fn celsius(raw: int) -> int {
    trunc_div(2 * raw * TEMP_C_NUMERATOR + TEMP_C_DENOMINATOR, 2 * TEMP_C_DENOMINATOR)
}

/// The unsigned number that two bytes spell, most significant first.
pub open spec fn be_u16(b: Seq<u8>) -> int
    recommends
        b.len() == 2,
{
    b[0] * 0x100 + b[1]
}

/// The unsigned number that four bytes spell, most significant first.
pub open spec fn be_u32(b: Seq<u8>) -> int
    recommends
        b.len() == 4,
{
    b[0] * 0x100_0000 + b[1] * 0x1_0000 + b[2] * 0x100 + b[3]
}

/// The two's-complement number that four bytes spell, most significant first.
pub open spec fn be_i32(b: Seq<u8>) -> int
    recommends
        b.len() == 4,
{
    if be_u32(b) >= 0x8000_0000 {
        be_u32(b) - 0x1_0000_0000
    } else {
        be_u32(b)
    }
}

/// Every 32-bit raw temperature gives a number of degrees that fits in 32 bits.
pub proof fn lemma_celsius_bounds(raw: int)
    requires
        i32::MIN <= raw <= i32::MAX,
    ensures
        -32768 <= celsius(raw) <= 32768,
{
    let n = 2 * raw * TEMP_C_NUMERATOR + TEMP_C_DENOMINATOR;
    assert(-6553496107685888 <= n <= 6553696107685888) by (nonlinear_arith)
        requires
            n == 2 * raw * 1525878 + 100_000_000_000,
            -2147483648 <= raw <= 2147483647,
    ;
    let d = 2 * TEMP_C_DENOMINATOR;
    if n >= 0 {
        vstd::arithmetic::div_mod::lemma_div_is_ordered(n, 6553696107685888, d);
    } else {
        vstd::arithmetic::div_mod::lemma_div_is_ordered(-n, 6553496107685888, d);
    }
}

/// Degrees Celsius for a raw temperature.
pub fn celsius_from_raw(raw: i32) -> (r: i32)
    ensures
        r == celsius(raw as int),
{
    proof {
        lemma_celsius_bounds(raw as int);
    }
    let wide: i64 = raw as i64;
    assert(-6553496107685888 <= 2 * wide * TEMP_C_NUMERATOR + TEMP_C_DENOMINATOR
        <= 6553696107685888) by (nonlinear_arith)
        requires
            -2147483648 <= wide <= 2147483647,
    ;
    let n: i64 = 2 * wide * TEMP_C_NUMERATOR + TEMP_C_DENOMINATOR;
    let d: u64 = 2 * TEMP_C_DENOMINATOR as u64;
    if n >= 0 {
        let q: u64 = n as u64 / d;
        q as i32
    } else {
        let q: u64 = (-n) as u64 / d;
        -(q as i32)
    }
}

/// The unsigned 16-bit number in `b`, most significant byte first.
pub fn u16_from_be_bytes(b: &[u8]) -> (r: u16)
    requires
        b@.len() == 2,
    ensures
        r == be_u16(b@),
{
    (b[0] as u16) * 0x100 + b[1] as u16
}

/// The signed 32-bit number in `b`, most significant byte first.
pub fn i32_from_be_bytes(b: &[u8]) -> (r: i32)
    requires
        b@.len() == 4,
    ensures
        r == be_i32(b@),
{
    let u: u32 = (b[0] as u32) * 0x100_0000 + (b[1] as u32) * 0x1_0000 + (b[2] as u32) * 0x100
        + b[3] as u32;
    if u >= 0x8000_0000 {
        (u as i64 - 0x1_0000_0000) as i32
    } else {
        u as i32
    }
}

} // verus!
