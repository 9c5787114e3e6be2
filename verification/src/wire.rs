//! Reading native-order integers out of kernel byte records.
//!
//! The kernel hands this layer fixed-layout byte records (the blocking-wait
//! record, the event stream). Their fields are machine-order integers; this
//! crate supports the little-endian targets the surrounding code is built
//! for, so every field is four or eight bytes, least-significant first.
//! The byte decoding itself is done by the byteorder crate behind the
//! trusted functions below; everything on top of them is verified against
//! the exact little-endian meaning.

use vstd::prelude::*;

use vstd::bytes::{spec_u32_from_le_bytes, spec_u64_from_le_bytes};

verus! {

/// Signed meaning of four little-endian bytes: the unsigned value,
/// reinterpreted in 32-bit two's complement.
pub open spec fn spec_i32_from_le_bytes(s: Seq<u8>) -> int {
    let u = spec_u32_from_le_bytes(s) as int;
    if u < 0x8000_0000 {
        u
    } else {
        u - 0x1_0000_0000
    }
}

/// Signed meaning of eight little-endian bytes: the unsigned value,
/// reinterpreted in 64-bit two's complement.
pub open spec fn spec_i64_from_le_bytes(s: Seq<u8>) -> int {
    let u = spec_u64_from_le_bytes(s) as int;
    if u < 0x8000_0000_0000_0000 {
        u
    } else {
        u - 0x1_0000_0000_0000_0000
    }
}

/// Relies on byteorder's `NativeEndian::read_u32` — `LittleEndian` on the
/// targets this crate supports — which reads the first four bytes of the
/// given slice, least-significant first.
#[verifier::external_body]
pub(crate) fn read_u32_at(buf: &[u8], off: usize) -> (r: u32)
    requires
        off + 4 <= buf@.len(),
    ensures
        r == spec_u32_from_le_bytes(buf@.subrange(off as int, off as int + 4)),
{
    <byteorder::NativeEndian as byteorder::ByteOrder>::read_u32(&buf[off..off + 4])
}

/// Relies on byteorder's `NativeEndian::read_u64` — `LittleEndian` on the
/// targets this crate supports — which reads the first eight bytes of the
/// given slice, least-significant first.
#[verifier::external_body]
pub(crate) fn read_u64_at(buf: &[u8], off: usize) -> (r: u64)
    requires
        off + 8 <= buf@.len(),
    ensures
        r == spec_u64_from_le_bytes(buf@.subrange(off as int, off as int + 8)),
{
    <byteorder::NativeEndian as byteorder::ByteOrder>::read_u64(&buf[off..off + 8])
}

/// Relies on byteorder's `NativeEndian::read_i32`, which is `read_u32`
/// reinterpreted in two's complement.
#[verifier::external_body]
pub(crate) fn read_i32_at(buf: &[u8], off: usize) -> (r: i32)
    requires
        off + 4 <= buf@.len(),
    ensures
        r as int == spec_i32_from_le_bytes(buf@.subrange(off as int, off as int + 4)),
{
    <byteorder::NativeEndian as byteorder::ByteOrder>::read_i32(&buf[off..off + 4])
}

/// Relies on byteorder's `NativeEndian::read_i64`, which is `read_u64`
/// reinterpreted in two's complement.
#[verifier::external_body]
pub(crate) fn read_i64_at(buf: &[u8], off: usize) -> (r: i64)
    requires
        off + 8 <= buf@.len(),
    ensures
        r as int == spec_i64_from_le_bytes(buf@.subrange(off as int, off as int + 8)),
{
    <byteorder::NativeEndian as byteorder::ByteOrder>::read_i64(&buf[off..off + 8])
}

} // verus!
