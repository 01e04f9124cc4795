//! Bounds-checked little-endian reads from a byte buffer.

use vstd::prelude::*;

verus! {

/// The unsigned 16-bit value stored little-endian at `at`.
pub open spec fn spec_u16_le(s: Seq<u8>, at: int) -> int {
    s[at] as int + 256 * (s[at + 1] as int)
}

/// The unsigned 32-bit value stored little-endian at `at`.
pub open spec fn spec_u32_le(s: Seq<u8>, at: int) -> int {
    s[at] as int + 256 * (s[at + 1] as int) + 65536 * (s[at + 2] as int) + 16777216 * (
    s[at + 3] as int)
}

/// An 8-bit pattern read as a two's-complement number.
pub open spec fn spec_signed8(v: int) -> int {
    if v < 128 {
        v
    } else {
        v - 256
    }
}

/// A 16-bit pattern read as a two's-complement number.
pub open spec fn spec_signed16(v: int) -> int {
    if v < 32768 {
        v
    } else {
        v - 65536
    }
}

/// A 32-bit pattern read as a two's-complement number.
pub open spec fn spec_signed32(v: int) -> int {
    if v < 2147483648 {
        v
    } else {
        v - 4294967296
    }
}

/// Reads the byte at `at`, or `None` past the end.
pub fn read_u8(data: &[u8], at: usize) -> (r: Option<u8>)
    ensures
        r is Some <==> at < data@.len(),
        r matches Some(v) ==> v == data@[at as int] && at < usize::MAX,
{
    if at < data.len() {
        Some(data[at])
    } else {
        None
    }
}

/// Reads two bytes at `at` as a little-endian `u16`, or `None` where fewer
/// than two bytes remain.
pub fn read_u16_le(data: &[u8], at: usize) -> (r: Option<u16>)
    ensures
        r is Some <==> at + 2 <= data@.len(),
        r matches Some(v) ==> v as int == spec_u16_le(data@, at as int) && at + 2 <= usize::MAX,
{
    if data.len() >= 2 && at <= data.len() - 2 {
        let lo: u16 = data[at] as u16;
        let hi: u16 = data[at + 1] as u16;
        Some(lo + 256 * hi)
    } else {
        None
    }
}

/// Reads four bytes at `at` as a little-endian `u32`, or `None` where fewer
/// than four bytes remain.
pub fn read_u32_le(data: &[u8], at: usize) -> (r: Option<u32>)
    ensures
        r is Some <==> at + 4 <= data@.len(),
        r matches Some(v) ==> v as int == spec_u32_le(data@, at as int) && at + 4 <= usize::MAX,
{
    if data.len() >= 4 && at <= data.len() - 4 {
        let b0: u32 = data[at] as u32;
        let b1: u32 = data[at + 1] as u32;
        let b2: u32 = data[at + 2] as u32;
        let b3: u32 = data[at + 3] as u32;
        Some(b0 + 256 * b1 + 65536 * b2 + 16777216 * b3)
    } else {
        None
    }
}

/// Reinterprets a byte as a signed 8-bit number.
pub fn signed8(v: u8) -> (r: i8)
    ensures
        r as int == spec_signed8(v as int),
{
    if v < 128 {
        v as i8
    } else {
        (v as i16 - 256) as i8
    }
}

/// Reinterprets a 16-bit word as a signed number.
pub fn signed16(v: u16) -> (r: i16)
    ensures
        r as int == spec_signed16(v as int),
{
    if v < 32768 {
        v as i16
    } else {
        (v as i32 - 65536) as i16
    }
}

/// Reinterprets a 32-bit word as a signed number.
pub fn signed32(v: u32) -> (r: i32)
    ensures
        r as int == spec_signed32(v as int),
{
    if v < 2147483648 {
        v as i32
    } else {
        (v as i64 - 4294967296) as i32
    }
}

/// Reinterprets a signed 32-bit number as the unsigned word with the same
/// bit pattern.
pub fn unsigned32(v: i32) -> (r: u32)
    ensures
        spec_signed32(r as int) == v as int,
{
    if v >= 0 {
        v as u32
    } else {
        (v as i64 + 4294967296) as u32
    }
}

} // verus!
