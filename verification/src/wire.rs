//! Big-endian integers as they lie in a byte buffer.
//!
//! The spec functions say what a run of bytes means as a number. The
//! executable readers hand the bytes to `byteorder` and are trusted to
//! return that number.

use byteorder::{BigEndian, ByteOrder};
use vstd::prelude::*;
use vstd::slice::slice_subrange;

verus! {

/// The unsigned number that the four bytes of `bytes` starting at `pos` spell,
/// most significant byte first.
pub open spec fn be_u32_at(bytes: Seq<u8>, pos: int) -> int {
    bytes[pos] * 0x100_0000 + bytes[pos + 1] * 0x1_0000 + bytes[pos + 2] * 0x100 + bytes[pos + 3]
}

/// The unsigned number that the eight bytes of `bytes` starting at `pos` spell,
/// most significant byte first.
pub open spec fn be_u64_at(bytes: Seq<u8>, pos: int) -> int {
    be_u32_at(bytes, pos) * 0x1_0000_0000 + be_u32_at(bytes, pos + 4)
}

/// The signed 32-bit number stored big-endian at `pos`.
pub open spec fn be_i32_at(bytes: Seq<u8>, pos: int) -> int {
    if be_u32_at(bytes, pos) < 0x8000_0000 {
        be_u32_at(bytes, pos)
    } else {
        be_u32_at(bytes, pos) - 0x1_0000_0000
    }
}

/// The signed 64-bit number stored big-endian at `pos`.
pub open spec fn be_i64_at(bytes: Seq<u8>, pos: int) -> int {
    if be_u64_at(bytes, pos) < 0x8000_0000_0000_0000 {
        be_u64_at(bytes, pos)
    } else {
        be_u64_at(bytes, pos) - 0x1_0000_0000_0000_0000
    }
}

/// Calls `byteorder::BigEndian::read_u32`.
///
/// Trusted: on a slice of at least four bytes the call returns the number
/// that the first four spell, most significant byte first. It panics on a
/// shorter slice, which `requires` rules out.
#[verifier::external_body]
fn big_endian_u32(buf: &[u8]) -> (value: u32)
    requires
        buf@.len() >= 4,
    ensures
        value == be_u32_at(buf@, 0),
{
    BigEndian::read_u32(buf)
}

/// Calls `byteorder::BigEndian::read_i32`.
///
/// Trusted: on a slice of at least four bytes the call returns the first
/// four bytes, most significant first, read as a two's complement number.
#[verifier::external_body]
fn big_endian_i32(buf: &[u8]) -> (value: i32)
    requires
        buf@.len() >= 4,
    ensures
        value == be_i32_at(buf@, 0),
{
    BigEndian::read_i32(buf)
}

/// Calls `byteorder::BigEndian::read_i64`.
///
/// Trusted: on a slice of at least eight bytes the call returns the first
/// eight bytes, most significant first, read as a two's complement number.
#[verifier::external_body]
fn big_endian_i64(buf: &[u8]) -> (value: i64)
    requires
        buf@.len() >= 8,
    ensures
        value == be_i64_at(buf@, 0),
{
    BigEndian::read_i64(buf)
}

/// Reads the unsigned 32-bit number at `pos`.
pub fn read_u32_at(buf: &[u8], pos: usize) -> (value: u32)
    requires
        pos + 4 <= buf.len(),
    ensures
        value == be_u32_at(buf@, pos as int),
{
    big_endian_u32(slice_subrange(buf, pos, pos + 4))
}

/// Reads the signed 32-bit number at `pos`.
pub fn read_i32_at(buf: &[u8], pos: usize) -> (value: i32)
    requires
        pos + 4 <= buf.len(),
    ensures
        value == be_i32_at(buf@, pos as int),
{
    big_endian_i32(slice_subrange(buf, pos, pos + 4))
}

/// Reads the signed 64-bit number at `pos`.
pub fn read_i64_at(buf: &[u8], pos: usize) -> (value: i64)
    requires
        pos + 8 <= buf.len(),
    ensures
        value == be_i64_at(buf@, pos as int),
{
    big_endian_i64(slice_subrange(buf, pos, pos + 8))
}

} // verus!
