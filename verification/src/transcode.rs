//! The conversion engine: transcodes every pixel of a source image into a
//! destination format, against a byte-level specification.
//!
//! A channel sample of `n` bytes is carried as the low `8 * n` bits of a
//! `u64`; signed samples are carried as their two's-complement bit pattern.
//! Samples sit in the buffer least significant byte first.

use vstd::prelude::*;

use crate::color_format::{ChannelCount, ChannelSize, ChannelType, ColorFormat};
use crate::image::{Image, ImageDesc};
use crate::conversion::{
    avg_i16, avg_i32, avg_i64, avg_i8, avg_u16, avg_u32, avg_u64, avg_u8, i16_to_i32, i16_to_i64,
    i16_to_i8, i16_to_u32, i16_to_u64, i16_to_u8, i32_to_i16, i32_to_i64, i32_to_i8, i32_to_u16,
    i32_to_u64, i32_to_u8, i64_to_i16, i64_to_i32, i64_to_i8, i64_to_u16, i64_to_u32, i64_to_u8,
    i8_to_i16, i8_to_i32, i8_to_i64, i8_to_u16, i8_to_u32, i8_to_u64, u16_to_i32, u16_to_i64,
    u16_to_i8, u16_to_u32, u16_to_u64, u16_to_u8, u32_to_i16, u32_to_i64, u32_to_i8, u32_to_u16,
    u32_to_u64, u32_to_u8, u64_to_i16, u64_to_i32, u64_to_i8, u64_to_u16, u64_to_u32, u64_to_u8,
    u8_to_i16, u8_to_i32, u8_to_i64, u8_to_u16, u8_to_u32, u8_to_u64, i16_to_i16, i16_to_u16,
    i32_to_i32, i32_to_u32, i64_to_i64, i64_to_u64, i8_to_i8, i8_to_u8, u16_to_i16, u16_to_u16,
    u32_to_i32, u32_to_u32, u64_to_i64, u64_to_u64, u8_to_i8, u8_to_u8,
};
use crate::conversion::{
    spec_avg_i16, spec_avg_i32, spec_avg_i64, spec_avg_i8, spec_avg_u16, spec_avg_u32,
    spec_avg_u64, spec_avg_u8, spec_i16_to_i16, spec_i16_to_i32, spec_i16_to_i64, spec_i16_to_i8,
    spec_i16_to_u16, spec_i16_to_u32, spec_i16_to_u64, spec_i16_to_u8, spec_i32_to_i16,
    spec_i32_to_i32, spec_i32_to_i64, spec_i32_to_i8, spec_i32_to_u16, spec_i32_to_u32,
    spec_i32_to_u64, spec_i32_to_u8, spec_i64_to_i16, spec_i64_to_i32, spec_i64_to_i64,
    spec_i64_to_i8, spec_i64_to_u16, spec_i64_to_u32, spec_i64_to_u64, spec_i64_to_u8,
    spec_i8_to_i16, spec_i8_to_i32, spec_i8_to_i64, spec_i8_to_i8, spec_i8_to_u16, spec_i8_to_u32,
    spec_i8_to_u64, spec_i8_to_u8, spec_u16_to_i16, spec_u16_to_i32, spec_u16_to_i64,
    spec_u16_to_i8, spec_u16_to_u16, spec_u16_to_u32, spec_u16_to_u64, spec_u16_to_u8,
    spec_u32_to_i16, spec_u32_to_i32, spec_u32_to_i64, spec_u32_to_i8, spec_u32_to_u16,
    spec_u32_to_u32, spec_u32_to_u64, spec_u32_to_u8, spec_u64_to_i16, spec_u64_to_i32,
    spec_u64_to_i64, spec_u64_to_i8, spec_u64_to_u16, spec_u64_to_u32, spec_u64_to_u64,
    spec_u64_to_u8, spec_u8_to_i16, spec_u8_to_i32, spec_u8_to_i64, spec_u8_to_i8, spec_u8_to_u16,
    spec_u8_to_u32, spec_u8_to_u64, spec_u8_to_u8,
};

verus! {

// ---------------------------------------------------------------------------
// Samples as bytes
// ---------------------------------------------------------------------------

/// The `size` buffer bytes of a sample carried as the low bits of `v`,
/// least significant byte first.
pub open spec fn spec_bytes_of_scalar(v: u64, size: nat) -> Seq<u8> {
    Seq::new(size, |i: int| (v >> (8 * i)) as u8)
}

/// The sample stored at `bytes[off .. off + size]`, assembled into the low
/// bits of a `u64`.
pub open spec fn spec_scalar_at(bytes: Seq<u8>, off: int, size: nat) -> u64
    decreases size,
{
    if size == 0 {
        0
    } else {
        spec_scalar_at(bytes, off, (size - 1) as nat)
            | ((bytes[off + size - 1] as u64) << (8 * (size - 1)))
    }
}

/// Reads the sample of `size` bytes stored at `bytes[off ..]`.
fn read_scalar(bytes: &Vec<u8>, off: usize, size: usize) -> (r: u64)
    requires
        off + size <= bytes@.len(),
        size <= 8,
    ensures
        r == spec_scalar_at(bytes@, off as int, size as nat),
{
    let n = bytes.len();
    let mut acc: u64 = 0;
    let mut k: usize = 0;
    while k < size
        invariant
            k <= size,
            size <= 8,
            n == bytes@.len(),
            off + size <= n,
            acc == spec_scalar_at(bytes@, off as int, k as nat),
        decreases size - k,
    {
        acc = acc | ((bytes[off + k] as u64) << ((8 * k) as u64));
        k = k + 1;
    }
    acc
}

/// Appends the `size` bytes of the sample `v`.
fn push_scalar(out: &mut Vec<u8>, v: u64, size: usize)
    requires
        size <= 8,
    ensures
        final(out)@ == old(out)@ + spec_bytes_of_scalar(v, size as nat),
{
    let mut k: usize = 0;
    while k < size
        invariant
            k <= size,
            size <= 8,
            out@ == old(out)@ + spec_bytes_of_scalar(v, k as nat),
        decreases size - k,
    {
        out.push(#[verifier::truncate] ((v >> ((8 * k) as u64)) as u8));
        k = k + 1;
        assert(out@ =~= old(out)@ + spec_bytes_of_scalar(v, k as nat));
    }
    assert(out@ =~= old(out)@ + spec_bytes_of_scalar(v, size as nat));
}

// ---------------------------------------------------------------------------
// Value conversion on carried samples
// ---------------------------------------------------------------------------

/// The value conversion matrix of the engine, applied to a carried sample:
/// decode the low bits of `v` at the source size and representation,
/// convert, and carry the result. Pairs involving float samples are not
/// converted here; they are mapped to zero and never reached by the engine.
pub open spec fn spec_convert_bits(
    v: u64,
    ss: ChannelSize,
    st: ChannelType,
    ds: ChannelSize,
    dt: ChannelType,
) -> u64 {
    match (st, dt) {
        (ChannelType::UInt, ChannelType::UInt) => match (ss, ds) {
            (ChannelSize::_8bit, ChannelSize::_8bit) => spec_u8_to_u8(v as u8) as u64,
            (ChannelSize::_8bit, ChannelSize::_16bit) => spec_u8_to_u16(v as u8) as u64,
            (ChannelSize::_8bit, ChannelSize::_32bit) => spec_u8_to_u32(v as u8) as u64,
            (ChannelSize::_8bit, ChannelSize::_64bit) => spec_u8_to_u64(v as u8),
            (ChannelSize::_16bit, ChannelSize::_8bit) => spec_u16_to_u8(v as u16) as u64,
            (ChannelSize::_16bit, ChannelSize::_16bit) => spec_u16_to_u16(v as u16) as u64,
            (ChannelSize::_16bit, ChannelSize::_32bit) => spec_u16_to_u32(v as u16) as u64,
            (ChannelSize::_16bit, ChannelSize::_64bit) => spec_u16_to_u64(v as u16),
            (ChannelSize::_32bit, ChannelSize::_8bit) => spec_u32_to_u8(v as u32) as u64,
            (ChannelSize::_32bit, ChannelSize::_16bit) => spec_u32_to_u16(v as u32) as u64,
            (ChannelSize::_32bit, ChannelSize::_32bit) => spec_u32_to_u32(v as u32) as u64,
            (ChannelSize::_32bit, ChannelSize::_64bit) => spec_u32_to_u64(v as u32),
            (ChannelSize::_64bit, ChannelSize::_8bit) => spec_u64_to_u8(v) as u64,
            (ChannelSize::_64bit, ChannelSize::_16bit) => spec_u64_to_u16(v) as u64,
            (ChannelSize::_64bit, ChannelSize::_32bit) => spec_u64_to_u32(v) as u64,
            (ChannelSize::_64bit, ChannelSize::_64bit) => spec_u64_to_u64(v),
        },
        (ChannelType::UInt, ChannelType::Int) => match (ss, ds) {
            (ChannelSize::_8bit, ChannelSize::_8bit) => spec_u8_to_i8(v as u8) as u8 as u64,
            (ChannelSize::_8bit, ChannelSize::_16bit) => spec_u8_to_i16(v as u8) as u16 as u64,
            (ChannelSize::_8bit, ChannelSize::_32bit) => spec_u8_to_i32(v as u8) as u32 as u64,
            (ChannelSize::_8bit, ChannelSize::_64bit) => spec_u8_to_i64(v as u8) as u64,
            (ChannelSize::_16bit, ChannelSize::_8bit) => spec_u16_to_i8(v as u16) as u8 as u64,
            (ChannelSize::_16bit, ChannelSize::_16bit) => spec_u16_to_i16(v as u16) as u16 as u64,
            (ChannelSize::_16bit, ChannelSize::_32bit) => spec_u16_to_i32(v as u16) as u32 as u64,
            (ChannelSize::_16bit, ChannelSize::_64bit) => spec_u16_to_i64(v as u16) as u64,
            (ChannelSize::_32bit, ChannelSize::_8bit) => spec_u32_to_i8(v as u32) as u8 as u64,
            (ChannelSize::_32bit, ChannelSize::_16bit) => spec_u32_to_i16(v as u32) as u16 as u64,
            (ChannelSize::_32bit, ChannelSize::_32bit) => spec_u32_to_i32(v as u32) as u32 as u64,
            (ChannelSize::_32bit, ChannelSize::_64bit) => spec_u32_to_i64(v as u32) as u64,
            (ChannelSize::_64bit, ChannelSize::_8bit) => spec_u64_to_i8(v) as u8 as u64,
            (ChannelSize::_64bit, ChannelSize::_16bit) => spec_u64_to_i16(v) as u16 as u64,
            (ChannelSize::_64bit, ChannelSize::_32bit) => spec_u64_to_i32(v) as u32 as u64,
            (ChannelSize::_64bit, ChannelSize::_64bit) => spec_u64_to_i64(v) as u64,
        },
        (ChannelType::Int, ChannelType::UInt) => match (ss, ds) {
            (ChannelSize::_8bit, ChannelSize::_8bit) => spec_i8_to_u8(v as i8) as u64,
            (ChannelSize::_8bit, ChannelSize::_16bit) => spec_i8_to_u16(v as i8) as u64,
            (ChannelSize::_8bit, ChannelSize::_32bit) => spec_i8_to_u32(v as i8) as u64,
            (ChannelSize::_8bit, ChannelSize::_64bit) => spec_i8_to_u64(v as i8),
            (ChannelSize::_16bit, ChannelSize::_8bit) => spec_i16_to_u8(v as i16) as u64,
            (ChannelSize::_16bit, ChannelSize::_16bit) => spec_i16_to_u16(v as i16) as u64,
            (ChannelSize::_16bit, ChannelSize::_32bit) => spec_i16_to_u32(v as i16) as u64,
            (ChannelSize::_16bit, ChannelSize::_64bit) => spec_i16_to_u64(v as i16),
            (ChannelSize::_32bit, ChannelSize::_8bit) => spec_i32_to_u8(v as i32) as u64,
            (ChannelSize::_32bit, ChannelSize::_16bit) => spec_i32_to_u16(v as i32) as u64,
            (ChannelSize::_32bit, ChannelSize::_32bit) => spec_i32_to_u32(v as i32) as u64,
            (ChannelSize::_32bit, ChannelSize::_64bit) => spec_i32_to_u64(v as i32),
            (ChannelSize::_64bit, ChannelSize::_8bit) => spec_i64_to_u8(v as i64) as u64,
            (ChannelSize::_64bit, ChannelSize::_16bit) => spec_i64_to_u16(v as i64) as u64,
            (ChannelSize::_64bit, ChannelSize::_32bit) => spec_i64_to_u32(v as i64) as u64,
            (ChannelSize::_64bit, ChannelSize::_64bit) => spec_i64_to_u64(v as i64),
        },
        (ChannelType::Int, ChannelType::Int) => match (ss, ds) {
            (ChannelSize::_8bit, ChannelSize::_8bit) => spec_i8_to_i8(v as i8) as u8 as u64,
            (ChannelSize::_8bit, ChannelSize::_16bit) => spec_i8_to_i16(v as i8) as u16 as u64,
            (ChannelSize::_8bit, ChannelSize::_32bit) => spec_i8_to_i32(v as i8) as u32 as u64,
            (ChannelSize::_8bit, ChannelSize::_64bit) => spec_i8_to_i64(v as i8) as u64,
            (ChannelSize::_16bit, ChannelSize::_8bit) => spec_i16_to_i8(v as i16) as u8 as u64,
            (ChannelSize::_16bit, ChannelSize::_16bit) => spec_i16_to_i16(v as i16) as u16 as u64,
            (ChannelSize::_16bit, ChannelSize::_32bit) => spec_i16_to_i32(v as i16) as u32 as u64,
            (ChannelSize::_16bit, ChannelSize::_64bit) => spec_i16_to_i64(v as i16) as u64,
            (ChannelSize::_32bit, ChannelSize::_8bit) => spec_i32_to_i8(v as i32) as u8 as u64,
            (ChannelSize::_32bit, ChannelSize::_16bit) => spec_i32_to_i16(v as i32) as u16 as u64,
            (ChannelSize::_32bit, ChannelSize::_32bit) => spec_i32_to_i32(v as i32) as u32 as u64,
            (ChannelSize::_32bit, ChannelSize::_64bit) => spec_i32_to_i64(v as i32) as u64,
            (ChannelSize::_64bit, ChannelSize::_8bit) => spec_i64_to_i8(v as i64) as u8 as u64,
            (ChannelSize::_64bit, ChannelSize::_16bit) => spec_i64_to_i16(v as i64) as u16 as u64,
            (ChannelSize::_64bit, ChannelSize::_32bit) => spec_i64_to_i32(v as i64) as u32 as u64,
            (ChannelSize::_64bit, ChannelSize::_64bit) => spec_i64_to_i64(v as i64) as u64,
        },
        _ => 0,
    }
}

/// The three-sample average of the matrix, applied to carried samples at
/// the source size and representation. Float pairs map to zero as above.
pub open spec fn spec_avg_bits(
    v0: u64,
    v1: u64,
    v2: u64,
    ss: ChannelSize,
    st: ChannelType,
) -> u64 {
    match (st, ss) {
        (ChannelType::UInt, ChannelSize::_8bit) =>
            spec_avg_u8(v0 as u8, v1 as u8, v2 as u8) as u64,
        (ChannelType::UInt, ChannelSize::_16bit) =>
            spec_avg_u16(v0 as u16, v1 as u16, v2 as u16) as u64,
        (ChannelType::UInt, ChannelSize::_32bit) =>
            spec_avg_u32(v0 as u32, v1 as u32, v2 as u32) as u64,
        (ChannelType::UInt, ChannelSize::_64bit) => spec_avg_u64(v0, v1, v2),
        (ChannelType::Int, ChannelSize::_8bit) =>
            spec_avg_i8(v0 as i8, v1 as i8, v2 as i8) as u8 as u64,
        (ChannelType::Int, ChannelSize::_16bit) =>
            spec_avg_i16(v0 as i16, v1 as i16, v2 as i16) as u16 as u64,
        (ChannelType::Int, ChannelSize::_32bit) =>
            spec_avg_i32(v0 as i32, v1 as i32, v2 as i32) as u32 as u64,
        (ChannelType::Int, ChannelSize::_64bit) =>
            spec_avg_i64(v0 as i64, v1 as i64, v2 as i64) as u64,
        _ => 0,
    }
}

/// The maximum representable sample of the destination scalar type, used
/// as the default for a newly added alpha channel.
pub open spec fn spec_max_bits(ds: ChannelSize, dt: ChannelType) -> u64 {
    match (dt, ds) {
        (ChannelType::UInt, ChannelSize::_8bit) => 0xffu64,
        (ChannelType::UInt, ChannelSize::_16bit) => 0xffffu64,
        (ChannelType::UInt, ChannelSize::_32bit) => 0xffff_ffffu64,
        (ChannelType::UInt, ChannelSize::_64bit) => 0xffff_ffff_ffff_ffffu64,
        (ChannelType::Int, ChannelSize::_8bit) => 0x7fu64,
        (ChannelType::Int, ChannelSize::_16bit) => 0x7fffu64,
        (ChannelType::Int, ChannelSize::_32bit) => 0x7fff_ffffu64,
        (ChannelType::Int, ChannelSize::_64bit) => 0x7fff_ffff_ffff_ffffu64,
        _ => 0,
    }
}

/// Executable counterpart of [`spec_convert_bits`].
fn convert_bits(v: u64, ss: ChannelSize, st: ChannelType, ds: ChannelSize, dt: ChannelType) -> (r:
    u64)
    ensures
        r == spec_convert_bits(v, ss, st, ds, dt),
{
    match (st, dt) {
        (ChannelType::UInt, ChannelType::UInt) => match (ss, ds) {
            (ChannelSize::_8bit, ChannelSize::_8bit) => u8_to_u8(v as u8) as u64,
            (ChannelSize::_8bit, ChannelSize::_16bit) => u8_to_u16(v as u8) as u64,
            (ChannelSize::_8bit, ChannelSize::_32bit) => u8_to_u32(v as u8) as u64,
            (ChannelSize::_8bit, ChannelSize::_64bit) => u8_to_u64(v as u8),
            (ChannelSize::_16bit, ChannelSize::_8bit) => u16_to_u8(v as u16) as u64,
            (ChannelSize::_16bit, ChannelSize::_16bit) => u16_to_u16(v as u16) as u64,
            (ChannelSize::_16bit, ChannelSize::_32bit) => u16_to_u32(v as u16) as u64,
            (ChannelSize::_16bit, ChannelSize::_64bit) => u16_to_u64(v as u16),
            (ChannelSize::_32bit, ChannelSize::_8bit) => u32_to_u8(v as u32) as u64,
            (ChannelSize::_32bit, ChannelSize::_16bit) => u32_to_u16(v as u32) as u64,
            (ChannelSize::_32bit, ChannelSize::_32bit) => u32_to_u32(v as u32) as u64,
            (ChannelSize::_32bit, ChannelSize::_64bit) => u32_to_u64(v as u32),
            (ChannelSize::_64bit, ChannelSize::_8bit) => u64_to_u8(v) as u64,
            (ChannelSize::_64bit, ChannelSize::_16bit) => u64_to_u16(v) as u64,
            (ChannelSize::_64bit, ChannelSize::_32bit) => u64_to_u32(v) as u64,
            (ChannelSize::_64bit, ChannelSize::_64bit) => u64_to_u64(v),
        },
        (ChannelType::UInt, ChannelType::Int) => match (ss, ds) {
            (ChannelSize::_8bit, ChannelSize::_8bit) => u8_to_i8(v as u8) as u8 as u64,
            (ChannelSize::_8bit, ChannelSize::_16bit) => u8_to_i16(v as u8) as u16 as u64,
            (ChannelSize::_8bit, ChannelSize::_32bit) => u8_to_i32(v as u8) as u32 as u64,
            (ChannelSize::_8bit, ChannelSize::_64bit) => u8_to_i64(v as u8) as u64,
            (ChannelSize::_16bit, ChannelSize::_8bit) => u16_to_i8(v as u16) as u8 as u64,
            (ChannelSize::_16bit, ChannelSize::_16bit) => u16_to_i16(v as u16) as u16 as u64,
            (ChannelSize::_16bit, ChannelSize::_32bit) => u16_to_i32(v as u16) as u32 as u64,
            (ChannelSize::_16bit, ChannelSize::_64bit) => u16_to_i64(v as u16) as u64,
            (ChannelSize::_32bit, ChannelSize::_8bit) => u32_to_i8(v as u32) as u8 as u64,
            (ChannelSize::_32bit, ChannelSize::_16bit) => u32_to_i16(v as u32) as u16 as u64,
            (ChannelSize::_32bit, ChannelSize::_32bit) => u32_to_i32(v as u32) as u32 as u64,
            (ChannelSize::_32bit, ChannelSize::_64bit) => u32_to_i64(v as u32) as u64,
            (ChannelSize::_64bit, ChannelSize::_8bit) => u64_to_i8(v) as u8 as u64,
            (ChannelSize::_64bit, ChannelSize::_16bit) => u64_to_i16(v) as u16 as u64,
            (ChannelSize::_64bit, ChannelSize::_32bit) => u64_to_i32(v) as u32 as u64,
            (ChannelSize::_64bit, ChannelSize::_64bit) => u64_to_i64(v) as u64,
        },
        (ChannelType::Int, ChannelType::UInt) => match (ss, ds) {
            (ChannelSize::_8bit, ChannelSize::_8bit) => i8_to_u8(v as i8) as u64,
            (ChannelSize::_8bit, ChannelSize::_16bit) => i8_to_u16(v as i8) as u64,
            (ChannelSize::_8bit, ChannelSize::_32bit) => i8_to_u32(v as i8) as u64,
            (ChannelSize::_8bit, ChannelSize::_64bit) => i8_to_u64(v as i8),
            (ChannelSize::_16bit, ChannelSize::_8bit) => i16_to_u8(v as i16) as u64,
            (ChannelSize::_16bit, ChannelSize::_16bit) => i16_to_u16(v as i16) as u64,
            (ChannelSize::_16bit, ChannelSize::_32bit) => i16_to_u32(v as i16) as u64,
            (ChannelSize::_16bit, ChannelSize::_64bit) => i16_to_u64(v as i16),
            (ChannelSize::_32bit, ChannelSize::_8bit) => i32_to_u8(v as i32) as u64,
            (ChannelSize::_32bit, ChannelSize::_16bit) => i32_to_u16(v as i32) as u64,
            (ChannelSize::_32bit, ChannelSize::_32bit) => i32_to_u32(v as i32) as u64,
            (ChannelSize::_32bit, ChannelSize::_64bit) => i32_to_u64(v as i32),
            (ChannelSize::_64bit, ChannelSize::_8bit) => i64_to_u8(v as i64) as u64,
            (ChannelSize::_64bit, ChannelSize::_16bit) => i64_to_u16(v as i64) as u64,
            (ChannelSize::_64bit, ChannelSize::_32bit) => i64_to_u32(v as i64) as u64,
            (ChannelSize::_64bit, ChannelSize::_64bit) => i64_to_u64(v as i64),
        },
        (ChannelType::Int, ChannelType::Int) => match (ss, ds) {
            (ChannelSize::_8bit, ChannelSize::_8bit) => i8_to_i8(v as i8) as u8 as u64,
            (ChannelSize::_8bit, ChannelSize::_16bit) => i8_to_i16(v as i8) as u16 as u64,
            (ChannelSize::_8bit, ChannelSize::_32bit) => i8_to_i32(v as i8) as u32 as u64,
            (ChannelSize::_8bit, ChannelSize::_64bit) => i8_to_i64(v as i8) as u64,
            (ChannelSize::_16bit, ChannelSize::_8bit) => i16_to_i8(v as i16) as u8 as u64,
            (ChannelSize::_16bit, ChannelSize::_16bit) => i16_to_i16(v as i16) as u16 as u64,
            (ChannelSize::_16bit, ChannelSize::_32bit) => i16_to_i32(v as i16) as u32 as u64,
            (ChannelSize::_16bit, ChannelSize::_64bit) => i16_to_i64(v as i16) as u64,
            (ChannelSize::_32bit, ChannelSize::_8bit) => i32_to_i8(v as i32) as u8 as u64,
            (ChannelSize::_32bit, ChannelSize::_16bit) => i32_to_i16(v as i32) as u16 as u64,
            (ChannelSize::_32bit, ChannelSize::_32bit) => i32_to_i32(v as i32) as u32 as u64,
            (ChannelSize::_32bit, ChannelSize::_64bit) => i32_to_i64(v as i32) as u64,
            (ChannelSize::_64bit, ChannelSize::_8bit) => i64_to_i8(v as i64) as u8 as u64,
            (ChannelSize::_64bit, ChannelSize::_16bit) => i64_to_i16(v as i64) as u16 as u64,
            (ChannelSize::_64bit, ChannelSize::_32bit) => i64_to_i32(v as i64) as u32 as u64,
            (ChannelSize::_64bit, ChannelSize::_64bit) => i64_to_i64(v as i64) as u64,
        },
        _ => 0,
    }
}

/// Executable counterpart of [`spec_avg_bits`].
fn avg_bits(v0: u64, v1: u64, v2: u64, ss: ChannelSize, st: ChannelType) -> (r: u64)
    ensures
        r == spec_avg_bits(v0, v1, v2, ss, st),
{
    match (st, ss) {
        (ChannelType::UInt, ChannelSize::_8bit) => avg_u8(v0 as u8, v1 as u8, v2 as u8) as u64,
        (ChannelType::UInt, ChannelSize::_16bit) =>
            avg_u16(v0 as u16, v1 as u16, v2 as u16) as u64,
        (ChannelType::UInt, ChannelSize::_32bit) =>
            avg_u32(v0 as u32, v1 as u32, v2 as u32) as u64,
        (ChannelType::UInt, ChannelSize::_64bit) => avg_u64(v0, v1, v2),
        (ChannelType::Int, ChannelSize::_8bit) =>
            avg_i8(v0 as i8, v1 as i8, v2 as i8) as u8 as u64,
        (ChannelType::Int, ChannelSize::_16bit) =>
            avg_i16(v0 as i16, v1 as i16, v2 as i16) as u16 as u64,
        (ChannelType::Int, ChannelSize::_32bit) =>
            avg_i32(v0 as i32, v1 as i32, v2 as i32) as u32 as u64,
        (ChannelType::Int, ChannelSize::_64bit) =>
            avg_i64(v0 as i64, v1 as i64, v2 as i64) as u64,
        _ => 0,
    }
}

/// Executable counterpart of [`spec_max_bits`].
fn max_bits(ds: ChannelSize, dt: ChannelType) -> (r: u64)
    ensures
        r == spec_max_bits(ds, dt),
{
    match (dt, ds) {
        (ChannelType::UInt, ChannelSize::_8bit) => 0xffu64,
        (ChannelType::UInt, ChannelSize::_16bit) => 0xffffu64,
        (ChannelType::UInt, ChannelSize::_32bit) => 0xffff_ffffu64,
        (ChannelType::UInt, ChannelSize::_64bit) => 0xffff_ffff_ffff_ffffu64,
        (ChannelType::Int, ChannelSize::_8bit) => 0x7fu64,
        (ChannelType::Int, ChannelSize::_16bit) => 0x7fffu64,
        (ChannelType::Int, ChannelSize::_32bit) => 0x7fff_ffffu64,
        (ChannelType::Int, ChannelSize::_64bit) => 0x7fff_ffff_ffff_ffffu64,
        _ => 0,
    }
}

// ---------------------------------------------------------------------------
// Channel-layout remapping
// ---------------------------------------------------------------------------

/// The channel-layout combinator matrix, keyed by (destination count,
/// source count). Carried-through channels pass through the value
/// conversion; red, green and blue merge into gray through the average,
/// taken at the source representation before the value conversion; a newly
/// added alpha channel defaults to the maximum representable sample.
pub open spec fn spec_remap_pixel(src: Seq<u64>, sfmt: ColorFormat, dfmt: ColorFormat) -> Seq<
    u64,
> {
    let ss = sfmt.channel_size;
    let st = sfmt.channel_type;
    let ds = dfmt.channel_size;
    let dt = dfmt.channel_type;
    match (dfmt.channel_count, sfmt.channel_count) {
        (ChannelCount::Gray, ChannelCount::Gray) => seq![
            spec_convert_bits(src[0], ss, st, ds, dt),
        ],
        (ChannelCount::Gray, ChannelCount::GrayAlpha) => seq![
            spec_convert_bits(src[0], ss, st, ds, dt),
        ],
        (ChannelCount::Gray, ChannelCount::Rgb) | (ChannelCount::Gray, ChannelCount::Rgba) => seq![
            spec_convert_bits(spec_avg_bits(src[0], src[1], src[2], ss, st), ss, st, ds, dt),
        ],
        (ChannelCount::GrayAlpha, ChannelCount::Gray) => seq![
            spec_convert_bits(src[0], ss, st, ds, dt),
            spec_max_bits(ds, dt),
        ],
        (ChannelCount::GrayAlpha, ChannelCount::GrayAlpha) => seq![
            spec_convert_bits(src[0], ss, st, ds, dt),
            spec_convert_bits(src[1], ss, st, ds, dt),
        ],
        (ChannelCount::GrayAlpha, ChannelCount::Rgb) => seq![
            spec_convert_bits(spec_avg_bits(src[0], src[1], src[2], ss, st), ss, st, ds, dt),
            spec_max_bits(ds, dt),
        ],
        (ChannelCount::GrayAlpha, ChannelCount::Rgba) => seq![
            spec_convert_bits(spec_avg_bits(src[0], src[1], src[2], ss, st), ss, st, ds, dt),
            spec_convert_bits(src[3], ss, st, ds, dt),
        ],
        (ChannelCount::Rgb, ChannelCount::Gray) | (ChannelCount::Rgb, ChannelCount::GrayAlpha)
            => seq![
            spec_convert_bits(src[0], ss, st, ds, dt),
            spec_convert_bits(src[0], ss, st, ds, dt),
            spec_convert_bits(src[0], ss, st, ds, dt),
        ],
        (ChannelCount::Rgb, ChannelCount::Rgb) | (ChannelCount::Rgb, ChannelCount::Rgba) => seq![
            spec_convert_bits(src[0], ss, st, ds, dt),
            spec_convert_bits(src[1], ss, st, ds, dt),
            spec_convert_bits(src[2], ss, st, ds, dt),
        ],
        (ChannelCount::Rgba, ChannelCount::Gray) => seq![
            spec_convert_bits(src[0], ss, st, ds, dt),
            spec_convert_bits(src[0], ss, st, ds, dt),
            spec_convert_bits(src[0], ss, st, ds, dt),
            spec_max_bits(ds, dt),
        ],
        (ChannelCount::Rgba, ChannelCount::GrayAlpha) => seq![
            spec_convert_bits(src[0], ss, st, ds, dt),
            spec_convert_bits(src[0], ss, st, ds, dt),
            spec_convert_bits(src[0], ss, st, ds, dt),
            spec_convert_bits(src[1], ss, st, ds, dt),
        ],
        (ChannelCount::Rgba, ChannelCount::Rgb) => seq![
            spec_convert_bits(src[0], ss, st, ds, dt),
            spec_convert_bits(src[1], ss, st, ds, dt),
            spec_convert_bits(src[2], ss, st, ds, dt),
            spec_max_bits(ds, dt),
        ],
        (ChannelCount::Rgba, ChannelCount::Rgba) => seq![
            spec_convert_bits(src[0], ss, st, ds, dt),
            spec_convert_bits(src[1], ss, st, ds, dt),
            spec_convert_bits(src[2], ss, st, ds, dt),
            spec_convert_bits(src[3], ss, st, ds, dt),
        ],
    }
}

/// Executable counterpart of [`spec_remap_pixel`].
fn convert_pixel(src: &Vec<u64>, sfmt: ColorFormat, dfmt: ColorFormat) -> (out: Vec<u64>)
    requires
        src@.len() == sfmt.channel_count.spec_channels(),
    ensures
        out@ == spec_remap_pixel(src@, sfmt, dfmt),
        out@.len() == dfmt.channel_count.spec_channels(),
{
    let ss = sfmt.channel_size;
    let st = sfmt.channel_type;
    let ds = dfmt.channel_size;
    let dt = dfmt.channel_type;
    let mut out: Vec<u64> = Vec::new();
    match (dfmt.channel_count, sfmt.channel_count) {
        (ChannelCount::Gray, ChannelCount::Gray) => {
            out.push(convert_bits(src[0], ss, st, ds, dt));
        },
        (ChannelCount::Gray, ChannelCount::GrayAlpha) => {
            out.push(convert_bits(src[0], ss, st, ds, dt));
        },
        (ChannelCount::Gray, ChannelCount::Rgb) | (ChannelCount::Gray, ChannelCount::Rgba) => {
            let a = avg_bits(src[0], src[1], src[2], ss, st);
            out.push(convert_bits(a, ss, st, ds, dt));
        },
        (ChannelCount::GrayAlpha, ChannelCount::Gray) => {
            out.push(convert_bits(src[0], ss, st, ds, dt));
            out.push(max_bits(ds, dt));
        },
        (ChannelCount::GrayAlpha, ChannelCount::GrayAlpha) => {
            out.push(convert_bits(src[0], ss, st, ds, dt));
            out.push(convert_bits(src[1], ss, st, ds, dt));
        },
        (ChannelCount::GrayAlpha, ChannelCount::Rgb) => {
            let a = avg_bits(src[0], src[1], src[2], ss, st);
            out.push(convert_bits(a, ss, st, ds, dt));
            out.push(max_bits(ds, dt));
        },
        (ChannelCount::GrayAlpha, ChannelCount::Rgba) => {
            let a = avg_bits(src[0], src[1], src[2], ss, st);
            out.push(convert_bits(a, ss, st, ds, dt));
            out.push(convert_bits(src[3], ss, st, ds, dt));
        },
        (ChannelCount::Rgb, ChannelCount::Gray) | (ChannelCount::Rgb, ChannelCount::GrayAlpha)
            => {
            let c = convert_bits(src[0], ss, st, ds, dt);
            out.push(c);
            out.push(c);
            out.push(c);
        },
        (ChannelCount::Rgb, ChannelCount::Rgb) | (ChannelCount::Rgb, ChannelCount::Rgba) => {
            out.push(convert_bits(src[0], ss, st, ds, dt));
            out.push(convert_bits(src[1], ss, st, ds, dt));
            out.push(convert_bits(src[2], ss, st, ds, dt));
        },
        (ChannelCount::Rgba, ChannelCount::Gray) => {
            let c = convert_bits(src[0], ss, st, ds, dt);
            out.push(c);
            out.push(c);
            out.push(c);
            out.push(max_bits(ds, dt));
        },
        (ChannelCount::Rgba, ChannelCount::GrayAlpha) => {
            let c = convert_bits(src[0], ss, st, ds, dt);
            out.push(c);
            out.push(c);
            out.push(c);
            out.push(convert_bits(src[1], ss, st, ds, dt));
        },
        (ChannelCount::Rgba, ChannelCount::Rgb) => {
            out.push(convert_bits(src[0], ss, st, ds, dt));
            out.push(convert_bits(src[1], ss, st, ds, dt));
            out.push(convert_bits(src[2], ss, st, ds, dt));
            out.push(max_bits(ds, dt));
        },
        (ChannelCount::Rgba, ChannelCount::Rgba) => {
            out.push(convert_bits(src[0], ss, st, ds, dt));
            out.push(convert_bits(src[1], ss, st, ds, dt));
            out.push(convert_bits(src[2], ss, st, ds, dt));
            out.push(convert_bits(src[3], ss, st, ds, dt));
        },
    }
    proof {
        assert(out@ =~= spec_remap_pixel(src@, sfmt, dfmt));
    }
    out
}

// ---------------------------------------------------------------------------
// The image layout, byte by byte
// ---------------------------------------------------------------------------

/// The sample of channel `k` of the source pixel at row `i`, column `j`.
pub open spec fn spec_src_scalar(
    sbytes: Seq<u8>,
    sdesc: ImageDesc,
    i: int,
    j: int,
    k: int,
) -> u64 {
    spec_scalar_at(
        sbytes,
        i * sdesc.stride + j * sdesc.color_format.spec_byte_count() + k
            * sdesc.color_format.channel_size.spec_bytes(),
        sdesc.color_format.channel_size.spec_bytes(),
    )
}

/// All channel samples of the source pixel at row `i`, column `j`.
pub open spec fn spec_src_pixel(sbytes: Seq<u8>, sdesc: ImageDesc, i: int, j: int) -> Seq<u64> {
    Seq::new(
        sdesc.color_format.channel_count.spec_channels(),
        |k: int| spec_src_scalar(sbytes, sdesc, i, j, k),
    )
}

/// The bytes of the first `k` samples of `vals`, each `size` bytes wide,
/// in order.
pub open spec fn spec_scalars_bytes(vals: Seq<u64>, size: nat, k: nat) -> Seq<u8>
    decreases k,
{
    if k == 0 {
        Seq::empty()
    } else {
        spec_scalars_bytes(vals, size, (k - 1) as nat) + spec_bytes_of_scalar(vals[k - 1], size)
    }
}

/// The destination bytes of the pixel at row `i`, column `j`: the source
/// samples, remapped and converted, packed channel after channel.
pub open spec fn spec_pixel_bytes(
    sbytes: Seq<u8>,
    sdesc: ImageDesc,
    dfmt: ColorFormat,
    i: int,
    j: int,
) -> Seq<u8> {
    spec_scalars_bytes(
        spec_remap_pixel(spec_src_pixel(sbytes, sdesc, i, j), sdesc.color_format, dfmt),
        dfmt.channel_size.spec_bytes(),
        dfmt.channel_count.spec_channels(),
    )
}

/// The destination bytes of the first `j` pixels of row `i`.
pub open spec fn spec_row_bytes(
    sbytes: Seq<u8>,
    sdesc: ImageDesc,
    dfmt: ColorFormat,
    i: int,
    j: nat,
) -> Seq<u8>
    decreases j,
{
    if j == 0 {
        Seq::empty()
    } else {
        spec_row_bytes(sbytes, sdesc, dfmt, i, (j - 1) as nat)
            + spec_pixel_bytes(sbytes, sdesc, dfmt, i, j - 1)
    }
}

/// The destination bytes of the first `i` rows.
pub open spec fn spec_rows_bytes(
    sbytes: Seq<u8>,
    sdesc: ImageDesc,
    dfmt: ColorFormat,
    i: nat,
) -> Seq<u8>
    decreases i,
{
    if i == 0 {
        Seq::empty()
    } else {
        spec_rows_bytes(sbytes, sdesc, dfmt, (i - 1) as nat)
            + spec_row_bytes(sbytes, sdesc, dfmt, i - 1, sdesc.width as nat)
    }
}

/// The whole destination buffer: every pixel of the source, transcoded
/// into the destination format, row-major, packed.
pub open spec fn spec_converted_bytes(
    sbytes: Seq<u8>,
    sdesc: ImageDesc,
    dfmt: ColorFormat,
) -> Seq<u8> {
    spec_rows_bytes(sbytes, sdesc, dfmt, sdesc.height as nat)
}

// ---------------------------------------------------------------------------
// The engine
// ---------------------------------------------------------------------------

/// Offsets of samples within a packed row-major layout stay within the
/// buffer, partial sums included.
proof fn lemma_sample_offset(i: int, j: int, k: int, h: int, w: int, cc: int, cs: int)
    by (nonlinear_arith)
    requires
        0 <= i < h,
        0 <= j < w,
        0 <= k < cc,
        cs >= 0,
    ensures
        0 <= i * (w * (cc * cs)),
        0 <= j * (cc * cs),
        0 <= k * cs,
        i * (w * (cc * cs)) + j * (cc * cs) + k * cs + cs <= h * (w * (cc * cs)),
{
}

/// Reads all channel samples of the source pixel at row `i`, column `j`.
fn read_pixel(src: &Image, i: usize, j: usize) -> (vals: Vec<u64>)
    requires
        src.wf(),
        i < src.desc.height,
        j < src.desc.width,
    ensures
        vals@ == spec_src_pixel(src.bytes@, src.desc, i as int, j as int),
{
    let cs = src.desc.color_format.channel_size.byte_count() as usize;
    let cc = src.desc.color_format.channel_count.channel_count() as usize;
    let stride = src.desc.stride as usize;
    let ghost hh = src.desc.height as int;
    let ghost ww = src.desc.width as int;
    proof {
        assert(stride == ww * (cc * cs));
        lemma_sample_offset(i as int, j as int, 0, hh, ww, cc as int, cs as int);
        assert(hh * (ww * (cc as int * cs as int)) == src.desc.spec_size_in_bytes());
    }
    let ps = cc * cs;
    let base = i * stride + j * ps;
    let mut vals: Vec<u64> = Vec::new();
    let mut k: usize = 0;
    while k < cc
        invariant
            k <= cc,
            src.wf(),
            i < src.desc.height,
            j < src.desc.width,
            cs == src.desc.color_format.channel_size.spec_bytes(),
            cc == src.desc.color_format.channel_count.spec_channels(),
            stride == src.desc.stride,
            ps == cc * cs,
            base == i * stride + j * ps,
            vals@.len() == k,
            forall|t: int|
                0 <= t < k ==> vals@[t] == spec_src_scalar(
                    src.bytes@,
                    src.desc,
                    i as int,
                    j as int,
                    t,
                ),
        decreases cc - k,
    {
        proof {
            lemma_sample_offset(
                i as int,
                j as int,
                k as int,
                src.desc.height as int,
                src.desc.width as int,
                cc as int,
                cs as int,
            );
            assert(base + k * cs + cs <= src.bytes@.len());
        }
        let v = read_scalar(&src.bytes, base + k * cs, cs);
        vals.push(v);
        k = k + 1;
    }
    proof {
        assert(vals@ =~= spec_src_pixel(src.bytes@, src.desc, i as int, j as int));
    }
    vals
}

/// Transcodes every pixel of `src` into the destination format, returning
/// the new buffer. Works on integer samples; the value-conversion and
/// layout matrices are fixed once from the format pair and applied to each
/// pixel independently.
pub(crate) fn transcode_bytes(src: &Image, dfmt: ColorFormat) -> (out: Vec<u8>)
    requires
        src.wf(),
        src.desc.width * dfmt.spec_byte_count() <= u32::MAX,
        src.desc.height * (src.desc.width * dfmt.spec_byte_count()) <= u32::MAX,
    ensures
        out@ == spec_converted_bytes(src.bytes@, src.desc, dfmt),
        out@.len() == src.desc.height * (src.desc.width * dfmt.spec_byte_count()),
{
    let h = src.desc.height as usize;
    let w = src.desc.width as usize;
    let sfmt = src.desc.color_format;
    let d_cs = dfmt.channel_size.byte_count() as usize;
    let d_cc = dfmt.channel_count.channel_count() as usize;
    let ghost dbc = dfmt.spec_byte_count() as int;
    let ghost drow = w as int * dbc;
    let mut out: Vec<u8> = Vec::new();
    let mut i: usize = 0;
    while i < h
        invariant
            i <= h,
            h == src.desc.height,
            w == src.desc.width,
            sfmt == src.desc.color_format,
            d_cs == dfmt.channel_size.spec_bytes(),
            d_cc == dfmt.channel_count.spec_channels(),
            dbc == dfmt.spec_byte_count(),
            drow == w as int * dbc,
            src.wf(),
            out@ == spec_rows_bytes(src.bytes@, src.desc, dfmt, i as nat),
            out@.len() == i as int * drow,
        decreases h - i,
    {
        let mut j: usize = 0;
        while j < w
            invariant
                j <= w,
                i < h,
                h == src.desc.height,
                w == src.desc.width,
                sfmt == src.desc.color_format,
                d_cs == dfmt.channel_size.spec_bytes(),
                d_cc == dfmt.channel_count.spec_channels(),
                dbc == dfmt.spec_byte_count(),
                drow == w as int * dbc,
                src.wf(),
                out@ == spec_rows_bytes(src.bytes@, src.desc, dfmt, i as nat) + spec_row_bytes(
                    src.bytes@,
                    src.desc,
                    dfmt,
                    i as int,
                    j as nat,
                ),
                out@.len() == i as int * drow + j as int * dbc,
            decreases w - j,
        {
            let vals = read_pixel(src, i, j);
            let dvals = convert_pixel(&vals, sfmt, dfmt);
            let ghost pre = out@;
            let mut k: usize = 0;
            while k < d_cc
                invariant
                    k <= d_cc,
                    d_cs == dfmt.channel_size.spec_bytes(),
                    d_cc == dfmt.channel_count.spec_channels(),
                    dvals@.len() == d_cc,
                    dvals@ == spec_remap_pixel(
                        spec_src_pixel(src.bytes@, src.desc, i as int, j as int),
                        src.desc.color_format,
                        dfmt,
                    ),
                    sfmt == src.desc.color_format,
                    out@ == pre + spec_scalars_bytes(dvals@, d_cs as nat, k as nat),
                    out@.len() == pre.len() + k as int * d_cs,
                decreases d_cc - k,
            {
                push_scalar(&mut out, dvals[k], d_cs);
                k = k + 1;
                proof {
                    assert(out@ =~= pre + spec_scalars_bytes(dvals@, d_cs as nat, k as nat));
                    assert(k as int * d_cs == (k - 1) * d_cs + d_cs) by (nonlinear_arith);
                }
            }
            j = j + 1;
            proof {
                assert(spec_scalars_bytes(dvals@, d_cs as nat, d_cc as nat) == spec_pixel_bytes(
                    src.bytes@,
                    src.desc,
                    dfmt,
                    i as int,
                    j as int - 1,
                ));
                assert(out@ =~= spec_rows_bytes(src.bytes@, src.desc, dfmt, i as nat)
                    + spec_row_bytes(src.bytes@, src.desc, dfmt, i as int, j as nat));
                assert(d_cc as int * d_cs == dbc) by (nonlinear_arith)
                    requires
                        d_cc == dfmt.channel_count.spec_channels(),
                        d_cs == dfmt.channel_size.spec_bytes(),
                        dbc == dfmt.spec_byte_count(),
                ;
                assert(j as int * dbc == (j - 1) * dbc + dbc) by (nonlinear_arith);
            }
        }
        i = i + 1;
        proof {
            assert(out@ =~= spec_rows_bytes(src.bytes@, src.desc, dfmt, i as nat));
            assert(i as int * drow == (i - 1) * drow + drow) by (nonlinear_arith);
            assert(w as int * dbc == drow);
        }
    }
    proof {
        assert(out@ == spec_converted_bytes(src.bytes@, src.desc, dfmt));
        assert(h as int * drow == src.desc.height * (src.desc.width * dfmt.spec_byte_count()))
            by (nonlinear_arith)
            requires
                h == src.desc.height,
                w == src.desc.width,
                drow == w as int * dbc,
                dbc == dfmt.spec_byte_count(),
        ;
    }
    out
}

} // verus!
