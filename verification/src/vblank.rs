//! The 24-byte blocking-wait record for vertical-blank calls.
//!
//! The record is an opaque payload whose first four bytes are a
//! request/reply type code and next four a sequence number; the remaining
//! bytes are a pointer-or-timestamp pair whose width follows the
//! platform's pointer size. A 32-bit build reads four-byte fields there, a
//! 64-bit build eight-byte fields, so the decoders take the width
//! explicitly and the layout switch is part of their contract. Offsets
//! follow the kernel's documented structure: type at 0, sequence at 4, and
//! the pair at 8 with natural alignment.

use vstd::prelude::*;

use vstd::bytes::{spec_u32_from_le_bytes, spec_u64_from_le_bytes};

use crate::wire::{read_i32_at, read_i64_at, read_u32_at, read_u64_at};
use crate::wire::{spec_i32_from_le_bytes, spec_i64_from_le_bytes};

verus! {

/// Pointer width of the build the record is exchanged with.
#[derive(Clone, Copy, PartialEq, Eq, Structural, Debug)]
pub enum PointerWidth {
    Bits32,
    Bits64,
}

/// Kind of a vertical-blank wait request or reply.
#[allow(non_camel_case_types)]
#[derive(Clone, Copy, PartialEq, Eq, Structural, Debug)]
pub enum drmVBlankSeqType {
    DRM_VBLANK_ABSOLUTE,
    DRM_VBLANK_RELATIVE,
    DRM_VBLANK_HIGH_CRTC_MASK,
    DRM_VBLANK_EVENT,
    DRM_VBLANK_FLIP,
    DRM_VBLANK_NEXTONMISS,
    DRM_VBLANK_SECONDARY,
    DRM_VBLANK_SIGNAL,
}

/// The kind a raw type code stands for; codes with no kind of their own
/// fall back to the absolute kind.
pub open spec fn seq_type_spec(n: u32) -> drmVBlankSeqType {
    if n == 0x1 {
        drmVBlankSeqType::DRM_VBLANK_RELATIVE
    } else if n == 0x3e {
        drmVBlankSeqType::DRM_VBLANK_HIGH_CRTC_MASK
    } else if n == 0x4000000 {
        drmVBlankSeqType::DRM_VBLANK_EVENT
    } else if n == 0x8000000 {
        drmVBlankSeqType::DRM_VBLANK_FLIP
    } else if n == 0x10000000 {
        drmVBlankSeqType::DRM_VBLANK_NEXTONMISS
    } else if n == 0x20000000 {
        drmVBlankSeqType::DRM_VBLANK_SECONDARY
    } else if n == 0x40000000 {
        drmVBlankSeqType::DRM_VBLANK_SIGNAL
    } else {
        drmVBlankSeqType::DRM_VBLANK_ABSOLUTE
    }
}

impl drmVBlankSeqType {
    /// Kind for a raw type code.
    pub fn from_u32(n: u32) -> (r: drmVBlankSeqType)
        ensures
            r == seq_type_spec(n),
    {
        match n {
            0x1 => drmVBlankSeqType::DRM_VBLANK_RELATIVE,
            0x3e => drmVBlankSeqType::DRM_VBLANK_HIGH_CRTC_MASK,
            0x4000000 => drmVBlankSeqType::DRM_VBLANK_EVENT,
            0x8000000 => drmVBlankSeqType::DRM_VBLANK_FLIP,
            0x10000000 => drmVBlankSeqType::DRM_VBLANK_NEXTONMISS,
            0x20000000 => drmVBlankSeqType::DRM_VBLANK_SECONDARY,
            0x40000000 => drmVBlankSeqType::DRM_VBLANK_SIGNAL,
            _ => drmVBlankSeqType::DRM_VBLANK_ABSOLUTE,
        }
    }
}

/// Decoded request half of the wait record. The signal word is held as 64
/// bits, wide enough for either build.
#[allow(non_camel_case_types)]
#[derive(Clone, Copy, PartialEq, Eq, Structural, Debug)]
pub struct drmVBlankReq {
    pub request_type: drmVBlankSeqType,
    pub sequence: u32,
    pub signal: u64,
}

/// Decoded reply half of the wait record. The timestamp words are held as
/// 64 bits, wide enough for either build.
#[allow(non_camel_case_types)]
#[derive(Clone, Copy, PartialEq, Eq, Structural, Debug)]
pub struct drmVBlankReply {
    pub reply_type: drmVBlankSeqType,
    pub sequence: u32,
    pub tval_sec: i64,
    pub tval_usec: i64,
}

/// Meaning of the record's bytes read as a request.
pub open spec fn request_spec(b: Seq<u8>, width: PointerWidth) -> drmVBlankReq {
    drmVBlankReq {
        request_type: seq_type_spec(spec_u32_from_le_bytes(b.subrange(0, 4))),
        sequence: spec_u32_from_le_bytes(b.subrange(4, 8)),
        signal: if width is Bits64 {
            spec_u64_from_le_bytes(b.subrange(8, 16))
        } else {
            spec_u32_from_le_bytes(b.subrange(8, 12)) as u64
        },
    }
}

/// Meaning of the record's bytes read as a reply.
pub open spec fn reply_spec(b: Seq<u8>, width: PointerWidth) -> drmVBlankReply {
    drmVBlankReply {
        reply_type: seq_type_spec(spec_u32_from_le_bytes(b.subrange(0, 4))),
        sequence: spec_u32_from_le_bytes(b.subrange(4, 8)),
        tval_sec: if width is Bits64 {
            spec_i64_from_le_bytes(b.subrange(8, 16)) as i64
        } else {
            spec_i32_from_le_bytes(b.subrange(8, 12)) as i64
        },
        tval_usec: if width is Bits64 {
            spec_i64_from_le_bytes(b.subrange(16, 24)) as i64
        } else {
            spec_i32_from_le_bytes(b.subrange(12, 16)) as i64
        },
    }
}

/// The raw 24-byte wait record, as exchanged with the kernel.
#[allow(non_camel_case_types)]
pub struct drmVBlank {
    data: [u8; 24],
}

impl drmVBlank {
    /// The record's bytes.
    pub closed spec fn bytes(&self) -> Seq<u8> {
        self.data@
    }

    /// `drmVBlank` constructor from the raw payload.
    pub fn new(data: [u8; 24]) -> (r: drmVBlank)
        ensures
            r.bytes() == data@,
    {
        drmVBlank { data }
    }

    /// Decode the record as a request for a build of the given width.
    pub fn request(&self, width: PointerWidth) -> (r: drmVBlankReq)
        ensures
            r == request_spec(self.bytes(), width),
    {
        let request_type = drmVBlankSeqType::from_u32(read_u32_at(self.data.as_slice(), 0));
        let sequence = read_u32_at(self.data.as_slice(), 4);
        let signal: u64 = match width {
            PointerWidth::Bits64 => read_u64_at(self.data.as_slice(), 8),
            PointerWidth::Bits32 => read_u32_at(self.data.as_slice(), 8) as u64,
        };
        drmVBlankReq { request_type, sequence, signal }
    }

    /// Decode the record as a reply for a build of the given width.
    pub fn reply(&self, width: PointerWidth) -> (r: drmVBlankReply)
        ensures
            r == reply_spec(self.bytes(), width),
    {
        let reply_type = drmVBlankSeqType::from_u32(read_u32_at(self.data.as_slice(), 0));
        let sequence = read_u32_at(self.data.as_slice(), 4);
        let (tval_sec, tval_usec): (i64, i64) = match width {
            PointerWidth::Bits64 => (
                read_i64_at(self.data.as_slice(), 8),
                read_i64_at(self.data.as_slice(), 16),
            ),
            PointerWidth::Bits32 => (
                read_i32_at(self.data.as_slice(), 8) as i64,
                read_i32_at(self.data.as_slice(), 12) as i64,
            ),
        };
        drmVBlankReply { reply_type, sequence, tval_sec, tval_usec }
    }
}

} // verus!
