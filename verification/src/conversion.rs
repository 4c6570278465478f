//! Scalar value conversions between channel representations and widths.
//!
//! Widening replicates the source bits across the wider field so that the
//! relative magnitude is kept over the full dynamic range; narrowing keeps
//! the most significant bits. A representation swap at equal width halves
//! an unsigned sample (unsigned to signed) or clamps at zero and doubles
//! (signed to unsigned). Cross-representation, cross-width conversions
//! first swap the representation at the source width and then change the
//! width. The three-sample average used for channel merging sums in a
//! wider accumulator and divides by three, truncating toward zero, in the
//! source representation.
//!
//! Every executable function returns exactly the value of its spec-level
//! counterpart; the formulas are fixed, bit for bit, so that persisted
//! images transcode reproducibly.

use vstd::prelude::*;

verus! {

// ---------------------------------------------------------------------------
// Unsigned width conversions
// ---------------------------------------------------------------------------

pub open spec fn spec_u8_to_u8(v: u8) -> u8 {
    v
}

pub open spec fn spec_u8_to_u16(v: u8) -> u16 {
    ((v as u16) << 8) | (v as u16)
}

pub open spec fn spec_u8_to_u32(v: u8) -> u32 {
    ((v as u32) << 24) | ((v as u32) << 16) | ((v as u32) << 8) | (v as u32)
}

pub open spec fn spec_u8_to_u64(v: u8) -> u64 {
    ((v as u64) << 56) | ((v as u64) << 48) | ((v as u64) << 40) | ((v as u64) << 32)
        | ((v as u64) << 24) | ((v as u64) << 16) | ((v as u64) << 8) | (v as u64)
}

pub open spec fn spec_u16_to_u8(v: u16) -> u8 {
    (v >> 8) as u8
}

pub open spec fn spec_u16_to_u16(v: u16) -> u16 {
    v
}

pub open spec fn spec_u16_to_u32(v: u16) -> u32 {
    ((v as u32) << 16) | (v as u32)
}

pub open spec fn spec_u16_to_u64(v: u16) -> u64 {
    ((v as u64) << 48) | ((v as u64) << 32) | ((v as u64) << 16) | (v as u64)
}

pub open spec fn spec_u32_to_u8(v: u32) -> u8 {
    (v >> 24) as u8
}

pub open spec fn spec_u32_to_u16(v: u32) -> u16 {
    (v >> 16) as u16
}

pub open spec fn spec_u32_to_u32(v: u32) -> u32 {
    v
}

pub open spec fn spec_u32_to_u64(v: u32) -> u64 {
    ((v as u64) << 32) | (v as u64)
}

pub open spec fn spec_u64_to_u8(v: u64) -> u8 {
    (v >> 56) as u8
}

pub open spec fn spec_u64_to_u16(v: u64) -> u16 {
    (v >> 48) as u16
}

pub open spec fn spec_u64_to_u32(v: u64) -> u32 {
    (v >> 32) as u32
}

pub open spec fn spec_u64_to_u64(v: u64) -> u64 {
    v
}

pub fn u8_to_u8(value: u8) -> (r: u8)
    ensures
        r == spec_u8_to_u8(value),
{
    value
}

pub fn u8_to_u16(value: u8) -> (r: u16)
    ensures
        r == spec_u8_to_u16(value),
{
    ((value as u16) << 8) | (value as u16)
}

pub fn u8_to_u32(value: u8) -> (r: u32)
    ensures
        r == spec_u8_to_u32(value),
{
    ((value as u32) << 24) | ((value as u32) << 16) | ((value as u32) << 8) | (value as u32)
}

pub fn u8_to_u64(value: u8) -> (r: u64)
    ensures
        r == spec_u8_to_u64(value),
{
    ((value as u64) << 56) | ((value as u64) << 48) | ((value as u64) << 40)
        | ((value as u64) << 32) | ((value as u64) << 24) | ((value as u64) << 16)
        | ((value as u64) << 8) | (value as u64)
}

pub fn u16_to_u8(value: u16) -> (r: u8)
    ensures
        r == spec_u16_to_u8(value),
{
    (value >> 8) as u8
}

pub fn u16_to_u16(value: u16) -> (r: u16)
    ensures
        r == spec_u16_to_u16(value),
{
    value
}

pub fn u16_to_u32(value: u16) -> (r: u32)
    ensures
        r == spec_u16_to_u32(value),
{
    ((value as u32) << 16) | (value as u32)
}

pub fn u16_to_u64(value: u16) -> (r: u64)
    ensures
        r == spec_u16_to_u64(value),
{
    ((value as u64) << 48) | ((value as u64) << 32) | ((value as u64) << 16) | (value as u64)
}

pub fn u32_to_u8(value: u32) -> (r: u8)
    ensures
        r == spec_u32_to_u8(value),
{
    (value >> 24) as u8
}

pub fn u32_to_u16(value: u32) -> (r: u16)
    ensures
        r == spec_u32_to_u16(value),
{
    (value >> 16) as u16
}

pub fn u32_to_u32(value: u32) -> (r: u32)
    ensures
        r == spec_u32_to_u32(value),
{
    value
}

pub fn u32_to_u64(value: u32) -> (r: u64)
    ensures
        r == spec_u32_to_u64(value),
{
    ((value as u64) << 32) | (value as u64)
}

pub fn u64_to_u8(value: u64) -> (r: u8)
    ensures
        r == spec_u64_to_u8(value),
{
    (value >> 56) as u8
}

pub fn u64_to_u16(value: u64) -> (r: u16)
    ensures
        r == spec_u64_to_u16(value),
{
    (value >> 48) as u16
}

pub fn u64_to_u32(value: u64) -> (r: u32)
    ensures
        r == spec_u64_to_u32(value),
{
    (value >> 32) as u32
}

pub fn u64_to_u64(value: u64) -> (r: u64)
    ensures
        r == spec_u64_to_u64(value),
{
    value
}

// ---------------------------------------------------------------------------
// Signed width conversions
// ---------------------------------------------------------------------------

pub open spec fn spec_i8_to_i8(v: i8) -> i8 {
    v
}

pub open spec fn spec_i8_to_i16(v: i8) -> i16 {
    ((v as i16) << 8) | (v as i16)
}

pub open spec fn spec_i8_to_i32(v: i8) -> i32 {
    ((v as i32) << 24) | ((v as i32) << 16) | ((v as i32) << 8) | (v as i32)
}

pub open spec fn spec_i8_to_i64(v: i8) -> i64 {
    ((v as i64) << 56) | ((v as i64) << 48) | ((v as i64) << 40) | ((v as i64) << 32)
        | ((v as i64) << 24) | ((v as i64) << 16) | ((v as i64) << 8) | (v as i64)
}

pub open spec fn spec_i16_to_i8(v: i16) -> i8 {
    (v >> 8) as i8
}

pub open spec fn spec_i16_to_i16(v: i16) -> i16 {
    v
}

pub open spec fn spec_i16_to_i32(v: i16) -> i32 {
    ((v as i32) << 16) | (v as i32)
}

pub open spec fn spec_i16_to_i64(v: i16) -> i64 {
    ((v as i64) << 48) | (v as i64)
}

pub open spec fn spec_i32_to_i8(v: i32) -> i8 {
    (v >> 24) as i8
}

pub open spec fn spec_i32_to_i16(v: i32) -> i16 {
    (v >> 16) as i16
}

pub open spec fn spec_i32_to_i32(v: i32) -> i32 {
    v
}

pub open spec fn spec_i32_to_i64(v: i32) -> i64 {
    ((v as i64) << 32) | (v as i64)
}

pub open spec fn spec_i64_to_i8(v: i64) -> i8 {
    (v >> 56) as i8
}

pub open spec fn spec_i64_to_i16(v: i64) -> i16 {
    (v >> 48) as i16
}

pub open spec fn spec_i64_to_i32(v: i64) -> i32 {
    (v >> 32) as i32
}

pub open spec fn spec_i64_to_i64(v: i64) -> i64 {
    v
}

pub fn i8_to_i8(value: i8) -> (r: i8)
    ensures
        r == spec_i8_to_i8(value),
{
    value
}

pub fn i8_to_i16(value: i8) -> (r: i16)
    ensures
        r == spec_i8_to_i16(value),
{
    ((value as i16) << 8) | (value as i16)
}

pub fn i8_to_i32(value: i8) -> (r: i32)
    ensures
        r == spec_i8_to_i32(value),
{
    ((value as i32) << 24) | ((value as i32) << 16) | ((value as i32) << 8) | (value as i32)
}

pub fn i8_to_i64(value: i8) -> (r: i64)
    ensures
        r == spec_i8_to_i64(value),
{
    ((value as i64) << 56) | ((value as i64) << 48) | ((value as i64) << 40)
        | ((value as i64) << 32) | ((value as i64) << 24) | ((value as i64) << 16)
        | ((value as i64) << 8) | (value as i64)
}

pub fn i16_to_i8(value: i16) -> (r: i8)
    ensures
        r == spec_i16_to_i8(value),
{
    (value >> 8) as i8
}

pub fn i16_to_i16(value: i16) -> (r: i16)
    ensures
        r == spec_i16_to_i16(value),
{
    value
}

pub fn i16_to_i32(value: i16) -> (r: i32)
    ensures
        r == spec_i16_to_i32(value),
{
    ((value as i32) << 16) | (value as i32)
}

pub fn i16_to_i64(value: i16) -> (r: i64)
    ensures
        r == spec_i16_to_i64(value),
{
    ((value as i64) << 48) | (value as i64)
}

pub fn i32_to_i8(value: i32) -> (r: i8)
    ensures
        r == spec_i32_to_i8(value),
{
    (value >> 24) as i8
}

pub fn i32_to_i16(value: i32) -> (r: i16)
    ensures
        r == spec_i32_to_i16(value),
{
    (value >> 16) as i16
}

pub fn i32_to_i32(value: i32) -> (r: i32)
    ensures
        r == spec_i32_to_i32(value),
{
    value
}

pub fn i32_to_i64(value: i32) -> (r: i64)
    ensures
        r == spec_i32_to_i64(value),
{
    ((value as i64) << 32) | (value as i64)
}

pub fn i64_to_i8(value: i64) -> (r: i8)
    ensures
        r == spec_i64_to_i8(value),
{
    (value >> 56) as i8
}

pub fn i64_to_i16(value: i64) -> (r: i16)
    ensures
        r == spec_i64_to_i16(value),
{
    (value >> 48) as i16
}

pub fn i64_to_i32(value: i64) -> (r: i32)
    ensures
        r == spec_i64_to_i32(value),
{
    (value >> 32) as i32
}

pub fn i64_to_i64(value: i64) -> (r: i64)
    ensures
        r == spec_i64_to_i64(value),
{
    value
}

// ---------------------------------------------------------------------------
// Unsigned to signed: halve at the source width, then change the width
// ---------------------------------------------------------------------------

pub open spec fn spec_u8_to_i8(v: u8) -> i8 {
    (v / 2) as i8
}

pub open spec fn spec_u16_to_i16(v: u16) -> i16 {
    (v / 2) as i16
}

pub open spec fn spec_u32_to_i32(v: u32) -> i32 {
    (v / 2) as i32
}

pub open spec fn spec_u64_to_i64(v: u64) -> i64 {
    (v / 2) as i64
}

pub open spec fn spec_u8_to_i16(v: u8) -> i16 {
    spec_i8_to_i16(spec_u8_to_i8(v))
}

pub open spec fn spec_u8_to_i32(v: u8) -> i32 {
    spec_i8_to_i32(spec_u8_to_i8(v))
}

pub open spec fn spec_u8_to_i64(v: u8) -> i64 {
    spec_i8_to_i64(spec_u8_to_i8(v))
}

pub open spec fn spec_u16_to_i8(v: u16) -> i8 {
    spec_i16_to_i8(spec_u16_to_i16(v))
}

pub open spec fn spec_u16_to_i32(v: u16) -> i32 {
    spec_i16_to_i32(spec_u16_to_i16(v))
}

pub open spec fn spec_u16_to_i64(v: u16) -> i64 {
    spec_i16_to_i64(spec_u16_to_i16(v))
}

pub open spec fn spec_u32_to_i8(v: u32) -> i8 {
    spec_i32_to_i8(spec_u32_to_i32(v))
}

pub open spec fn spec_u32_to_i16(v: u32) -> i16 {
    spec_i32_to_i16(spec_u32_to_i32(v))
}

pub open spec fn spec_u32_to_i64(v: u32) -> i64 {
    spec_i32_to_i64(spec_u32_to_i32(v))
}

pub open spec fn spec_u64_to_i8(v: u64) -> i8 {
    spec_i64_to_i8(spec_u64_to_i64(v))
}

pub open spec fn spec_u64_to_i16(v: u64) -> i16 {
    spec_i64_to_i16(spec_u64_to_i64(v))
}

pub open spec fn spec_u64_to_i32(v: u64) -> i32 {
    spec_i64_to_i32(spec_u64_to_i64(v))
}

pub fn u8_to_i8(value: u8) -> (r: i8)
    ensures
        r == spec_u8_to_i8(value),
{
    (value / 2) as i8
}

pub fn u8_to_i16(value: u8) -> (r: i16)
    ensures
        r == spec_u8_to_i16(value),
{
    i8_to_i16(u8_to_i8(value))
}

pub fn u8_to_i32(value: u8) -> (r: i32)
    ensures
        r == spec_u8_to_i32(value),
{
    i8_to_i32(u8_to_i8(value))
}

pub fn u8_to_i64(value: u8) -> (r: i64)
    ensures
        r == spec_u8_to_i64(value),
{
    i8_to_i64(u8_to_i8(value))
}

pub fn u16_to_i8(value: u16) -> (r: i8)
    ensures
        r == spec_u16_to_i8(value),
{
    i16_to_i8(u16_to_i16(value))
}

pub fn u16_to_i16(value: u16) -> (r: i16)
    ensures
        r == spec_u16_to_i16(value),
{
    (value / 2) as i16
}

pub fn u16_to_i32(value: u16) -> (r: i32)
    ensures
        r == spec_u16_to_i32(value),
{
    i16_to_i32(u16_to_i16(value))
}

pub fn u16_to_i64(value: u16) -> (r: i64)
    ensures
        r == spec_u16_to_i64(value),
{
    i16_to_i64(u16_to_i16(value))
}

pub fn u32_to_i8(value: u32) -> (r: i8)
    ensures
        r == spec_u32_to_i8(value),
{
    i32_to_i8(u32_to_i32(value))
}

pub fn u32_to_i16(value: u32) -> (r: i16)
    ensures
        r == spec_u32_to_i16(value),
{
    i32_to_i16(u32_to_i32(value))
}

pub fn u32_to_i32(value: u32) -> (r: i32)
    ensures
        r == spec_u32_to_i32(value),
{
    (value / 2) as i32
}

pub fn u32_to_i64(value: u32) -> (r: i64)
    ensures
        r == spec_u32_to_i64(value),
{
    i32_to_i64(u32_to_i32(value))
}

pub fn u64_to_i8(value: u64) -> (r: i8)
    ensures
        r == spec_u64_to_i8(value),
{
    i64_to_i8(u64_to_i64(value))
}

pub fn u64_to_i16(value: u64) -> (r: i16)
    ensures
        r == spec_u64_to_i16(value),
{
    i64_to_i16(u64_to_i64(value))
}

pub fn u64_to_i32(value: u64) -> (r: i32)
    ensures
        r == spec_u64_to_i32(value),
{
    i64_to_i32(u64_to_i64(value))
}

pub fn u64_to_i64(value: u64) -> (r: i64)
    ensures
        r == spec_u64_to_i64(value),
{
    (value / 2) as i64
}

// ---------------------------------------------------------------------------
// Signed to unsigned: clamp at zero and double at the source width, then
// change the width
// ---------------------------------------------------------------------------

pub open spec fn spec_i8_to_u8(v: i8) -> u8 {
    if v <= 0 {
        0
    } else {
        (2 * v) as u8
    }
}

pub open spec fn spec_i16_to_u16(v: i16) -> u16 {
    if v <= 0 {
        0
    } else {
        (2 * v) as u16
    }
}

pub open spec fn spec_i32_to_u32(v: i32) -> u32 {
    if v <= 0 {
        0
    } else {
        (2 * v) as u32
    }
}

pub open spec fn spec_i64_to_u64(v: i64) -> u64 {
    if v <= 0 {
        0
    } else {
        (2 * v) as u64
    }
}

pub open spec fn spec_i8_to_u16(v: i8) -> u16 {
    spec_u8_to_u16(spec_i8_to_u8(v))
}

pub open spec fn spec_i8_to_u32(v: i8) -> u32 {
    spec_u8_to_u32(spec_i8_to_u8(v))
}

pub open spec fn spec_i8_to_u64(v: i8) -> u64 {
    spec_u8_to_u64(spec_i8_to_u8(v))
}

pub open spec fn spec_i16_to_u8(v: i16) -> u8 {
    spec_u16_to_u8(spec_i16_to_u16(v))
}

pub open spec fn spec_i16_to_u32(v: i16) -> u32 {
    spec_u16_to_u32(spec_i16_to_u16(v))
}

pub open spec fn spec_i16_to_u64(v: i16) -> u64 {
    spec_u16_to_u64(spec_i16_to_u16(v))
}

pub open spec fn spec_i32_to_u8(v: i32) -> u8 {
    spec_u32_to_u8(spec_i32_to_u32(v))
}

pub open spec fn spec_i32_to_u16(v: i32) -> u16 {
    spec_u32_to_u16(spec_i32_to_u32(v))
}

pub open spec fn spec_i32_to_u64(v: i32) -> u64 {
    spec_u32_to_u64(spec_i32_to_u32(v))
}

pub open spec fn spec_i64_to_u8(v: i64) -> u8 {
    spec_u64_to_u8(spec_i64_to_u64(v))
}

pub open spec fn spec_i64_to_u16(v: i64) -> u16 {
    spec_u64_to_u16(spec_i64_to_u64(v))
}

pub open spec fn spec_i64_to_u32(v: i64) -> u32 {
    spec_u64_to_u32(spec_i64_to_u64(v))
}

pub fn i8_to_u8(value: i8) -> (r: u8)
    ensures
        r == spec_i8_to_u8(value),
{
    value.max(0) as u8 * 2
}

pub fn i8_to_u16(value: i8) -> (r: u16)
    ensures
        r == spec_i8_to_u16(value),
{
    u8_to_u16(i8_to_u8(value))
}

pub fn i8_to_u32(value: i8) -> (r: u32)
    ensures
        r == spec_i8_to_u32(value),
{
    u8_to_u32(i8_to_u8(value))
}

pub fn i8_to_u64(value: i8) -> (r: u64)
    ensures
        r == spec_i8_to_u64(value),
{
    u8_to_u64(i8_to_u8(value))
}

pub fn i16_to_u8(value: i16) -> (r: u8)
    ensures
        r == spec_i16_to_u8(value),
{
    u16_to_u8(i16_to_u16(value))
}

pub fn i16_to_u16(value: i16) -> (r: u16)
    ensures
        r == spec_i16_to_u16(value),
{
    value.max(0) as u16 * 2
}

pub fn i16_to_u32(value: i16) -> (r: u32)
    ensures
        r == spec_i16_to_u32(value),
{
    u16_to_u32(i16_to_u16(value))
}

pub fn i16_to_u64(value: i16) -> (r: u64)
    ensures
        r == spec_i16_to_u64(value),
{
    u16_to_u64(i16_to_u16(value))
}

pub fn i32_to_u8(value: i32) -> (r: u8)
    ensures
        r == spec_i32_to_u8(value),
{
    u32_to_u8(i32_to_u32(value))
}

pub fn i32_to_u16(value: i32) -> (r: u16)
    ensures
        r == spec_i32_to_u16(value),
{
    u32_to_u16(i32_to_u32(value))
}

pub fn i32_to_u32(value: i32) -> (r: u32)
    ensures
        r == spec_i32_to_u32(value),
{
    value.max(0) as u32 * 2
}

pub fn i32_to_u64(value: i32) -> (r: u64)
    ensures
        r == spec_i32_to_u64(value),
{
    u32_to_u64(i32_to_u32(value))
}

pub fn i64_to_u8(value: i64) -> (r: u8)
    ensures
        r == spec_i64_to_u8(value),
{
    u64_to_u8(i64_to_u64(value))
}

pub fn i64_to_u16(value: i64) -> (r: u16)
    ensures
        r == spec_i64_to_u16(value),
{
    u64_to_u16(i64_to_u64(value))
}

pub fn i64_to_u32(value: i64) -> (r: u32)
    ensures
        r == spec_i64_to_u32(value),
{
    u64_to_u32(i64_to_u64(value))
}

pub fn i64_to_u64(value: i64) -> (r: u64)
    ensures
        r == spec_i64_to_u64(value),
{
    value.max(0) as u64 * 2
}

// ---------------------------------------------------------------------------
// Three-sample averages, used when red, green and blue merge into gray
// ---------------------------------------------------------------------------

/// Division by three truncating toward zero, as the machine division of the
/// signed accumulators does.
pub open spec fn spec_div3_trunc(x: int) -> int {
    if x >= 0 {
        x / 3
    } else {
        -((-x) / 3)
    }
}

pub open spec fn spec_avg_u8(v0: u8, v1: u8, v2: u8) -> u8 {
    ((v0 + v1 + v2) / 3) as u8
}

pub open spec fn spec_avg_u16(v0: u16, v1: u16, v2: u16) -> u16 {
    ((v0 + v1 + v2) / 3) as u16
}

pub open spec fn spec_avg_u32(v0: u32, v1: u32, v2: u32) -> u32 {
    ((v0 + v1 + v2) / 3) as u32
}

pub open spec fn spec_avg_u64(v0: u64, v1: u64, v2: u64) -> u64 {
    ((v0 + v1 + v2) / 3) as u64
}

pub open spec fn spec_avg_i8(v0: i8, v1: i8, v2: i8) -> i8 {
    spec_div3_trunc(v0 + v1 + v2) as i8
}

pub open spec fn spec_avg_i16(v0: i16, v1: i16, v2: i16) -> i16 {
    spec_div3_trunc(v0 + v1 + v2) as i16
}

pub open spec fn spec_avg_i32(v0: i32, v1: i32, v2: i32) -> i32 {
    spec_div3_trunc(v0 + v1 + v2) as i32
}

pub open spec fn spec_avg_i64(v0: i64, v1: i64, v2: i64) -> i64 {
    spec_div3_trunc(v0 + v1 + v2) as i64
}

pub fn avg_u8(v0: u8, v1: u8, v2: u8) -> (r: u8)
    ensures
        r == spec_avg_u8(v0, v1, v2),
{
    ((v0 as u16 + v1 as u16 + v2 as u16) / 3) as u8
}

pub fn avg_u16(v0: u16, v1: u16, v2: u16) -> (r: u16)
    ensures
        r == spec_avg_u16(v0, v1, v2),
{
    ((v0 as u32 + v1 as u32 + v2 as u32) / 3) as u16
}

pub fn avg_u32(v0: u32, v1: u32, v2: u32) -> (r: u32)
    ensures
        r == spec_avg_u32(v0, v1, v2),
{
    ((v0 as u64 + v1 as u64 + v2 as u64) / 3) as u32
}

pub fn avg_u64(v0: u64, v1: u64, v2: u64) -> (r: u64)
    ensures
        r == spec_avg_u64(v0, v1, v2),
{
    ((v0 as u128 + v1 as u128 + v2 as u128) / 3) as u64
}

pub fn avg_i8(v0: i8, v1: i8, v2: i8) -> (r: i8)
    ensures
        r == spec_avg_i8(v0, v1, v2),
{
    ((v0 as i16 + v1 as i16 + v2 as i16) / 3) as i8
}

pub fn avg_i16(v0: i16, v1: i16, v2: i16) -> (r: i16)
    ensures
        r == spec_avg_i16(v0, v1, v2),
{
    ((v0 as i32 + v1 as i32 + v2 as i32) / 3) as i16
}

pub fn avg_i32(v0: i32, v1: i32, v2: i32) -> (r: i32)
    ensures
        r == spec_avg_i32(v0, v1, v2),
{
    ((v0 as i64 + v1 as i64 + v2 as i64) / 3) as i32
}

pub fn avg_i64(v0: i64, v1: i64, v2: i64) -> (r: i64)
    ensures
        r == spec_avg_i64(v0, v1, v2),
{
    ((v0 as i128 + v1 as i128 + v2 as i128) / 3) as i64
}

// ---------------------------------------------------------------------------
// Round-trip laws
// ---------------------------------------------------------------------------

/// An even unsigned sample survives the swap to signed and back: halving
/// loses nothing and doubling restores it. Odd samples lose their low bit.
pub proof fn lemma_u8_i8_round_trip(v: u8)
    requires
        v % 2 == 0,
    ensures
        spec_i8_to_u8(spec_u8_to_i8(v)) == v,
{
}

/// A non-negative signed sample survives the swap to unsigned and back:
/// doubling stays in range and halving restores it. Negative samples clamp
/// to zero.
pub proof fn lemma_i8_u8_round_trip(v: i8)
    requires
        v >= 0,
    ensures
        spec_u8_to_i8(spec_i8_to_u8(v)) == v,
{
}

/// See [`lemma_u8_i8_round_trip`].
pub proof fn lemma_u16_i16_round_trip(v: u16)
    requires
        v % 2 == 0,
    ensures
        spec_i16_to_u16(spec_u16_to_i16(v)) == v,
{
}

/// See [`lemma_i8_u8_round_trip`].
pub proof fn lemma_i16_u16_round_trip(v: i16)
    requires
        v >= 0,
    ensures
        spec_u16_to_i16(spec_i16_to_u16(v)) == v,
{
}

/// See [`lemma_u8_i8_round_trip`].
pub proof fn lemma_u32_i32_round_trip(v: u32)
    requires
        v % 2 == 0,
    ensures
        spec_i32_to_u32(spec_u32_to_i32(v)) == v,
{
}

/// See [`lemma_i8_u8_round_trip`].
pub proof fn lemma_i32_u32_round_trip(v: i32)
    requires
        v >= 0,
    ensures
        spec_u32_to_i32(spec_i32_to_u32(v)) == v,
{
}

/// See [`lemma_u8_i8_round_trip`].
pub proof fn lemma_u64_i64_round_trip(v: u64)
    requires
        v % 2 == 0,
    ensures
        spec_i64_to_u64(spec_u64_to_i64(v)) == v,
{
}

/// See [`lemma_i8_u8_round_trip`].
pub proof fn lemma_i64_u64_round_trip(v: i64)
    requires
        v >= 0,
    ensures
        spec_u64_to_i64(spec_i64_to_u64(v)) == v,
{
}

/// Widening an 8-bit sample by bit replication and narrowing the result
/// back to 8 bits returns the sample unchanged, whatever its value and
/// whichever wider width it passed through.
pub proof fn lemma_widen_narrow_u8(v: u8)
    by (bit_vector)
    ensures
        spec_u16_to_u8(spec_u8_to_u16(v)) == v,
        spec_u32_to_u8(spec_u8_to_u32(v)) == v,
        spec_u64_to_u8(spec_u8_to_u64(v)) == v,
{
}

/// The signed counterpart of [`lemma_widen_narrow_u8`], for non-negative
/// samples. For a negative sample the replication is lossy: the low copies
/// are OR-ed with the sign extension of the value, which saturates every
/// copy above the lowest, so narrowing brings back -1 instead.
pub proof fn lemma_widen_narrow_i8(v: i8)
    by (bit_vector)
    requires
        v >= 0,
    ensures
        spec_i16_to_i8(spec_i8_to_i16(v)) == v,
        spec_i32_to_i8(spec_i8_to_i32(v)) == v,
        spec_i64_to_i8(spec_i8_to_i64(v)) == v,
{
}

} // verus!
