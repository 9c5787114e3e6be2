//! Capability query: asking the kernel whether an optional feature is
//! present.
//!
//! The kernel call takes an integer capability code and fills in a 64-bit
//! value; absence of the capability comes back as a non-zero result code.
//! `get_cap` turns that raw outcome into a `Result`, so a missing
//! capability is surfaced as the error path and never as a zero value
//! disguised as success.

use vstd::prelude::*;

pub use crate::event_handler::{handle_event, EventContext};

verus! {

/// Named optional-feature identifiers understood by the kernel subsystem.
#[derive(Clone, Copy, PartialEq, Eq, Structural, Debug)]
pub enum Capability {
    DumbBuffer,
    VBlankHighCrtc,
    DumbPreferredDepth,
    DumbPreferShadow,
    Prime,
    TimestampMonotonic,
    AsyncPageFlip,
    CursorWidth,
    CursorHeight,
    AddFB2Modifiers,
}

impl Capability {
    /// The integer code the kernel assigns to this capability.
    pub open spec fn code_spec(&self) -> u64 {
        match self {
            Capability::DumbBuffer => 0x1,
            Capability::VBlankHighCrtc => 0x2,
            Capability::DumbPreferredDepth => 0x3,
            Capability::DumbPreferShadow => 0x4,
            Capability::Prime => 0x5,
            Capability::TimestampMonotonic => 0x6,
            Capability::AsyncPageFlip => 0x7,
            Capability::CursorWidth => 0x8,
            Capability::CursorHeight => 0x9,
            Capability::AddFB2Modifiers => 0x10,
        }
    }

    /// The integer code the kernel assigns to this capability.
    pub fn code(&self) -> (r: u64)
        ensures
            r == self.code_spec(),
    {
        match self {
            Capability::DumbBuffer => 0x1,
            Capability::VBlankHighCrtc => 0x2,
            Capability::DumbPreferredDepth => 0x3,
            Capability::DumbPreferShadow => 0x4,
            Capability::Prime => 0x5,
            Capability::TimestampMonotonic => 0x6,
            Capability::AsyncPageFlip => 0x7,
            Capability::CursorWidth => 0x8,
            Capability::CursorHeight => 0x9,
            Capability::AddFB2Modifiers => 0x10,
        }
    }
}

/// Outcome of a capability query, from the raw result code of the kernel
/// call and the value it filled in. The capability's value comes back only
/// on a zero result; any non-zero result is handed through verbatim as the
/// not-supported error path, whatever the value buffer holds.
pub fn get_cap(result: i32, value: u64) -> (r: Result<u64, i32>)
    ensures
        result == 0 ==> r == Ok::<u64, i32>(value),
        result != 0 ==> r == Err::<u64, i32>(result),
{
    if result == 0 {
        Ok(value)
    } else {
        Err(result)
    }
}

} // verus!
