//! One scanout engine (CRTC).
//!
//! A `Crtc` owns one kernel-populated CRTC record: scanout position and
//! size, the currently bound framebuffer, the mode-valid flag and the gamma
//! table size. The record embeds one timing record by value for the
//! currently active mode.

use vstd::prelude::*;

use crate::mode_info::ModeInfo;
use crate::registry::Registry;

verus! {

/// Type of CRTC id.
pub type CrtcId = u32;

/// Plain copy of one kernel CRTC record, as a kernel reply carries it.
#[derive(Clone, Copy, PartialEq, Eq, Structural, Debug)]
pub struct CrtcRecord {
    pub crtc_id: u32,
    pub buffer_id: u32,
    pub x: u32,
    pub y: u32,
    pub width: u32,
    pub height: u32,
    pub mode_valid: i32,
    pub mode: ModeInfo,
    pub gamma_size: i32,
}

/// Owning wrapper for one kernel CRTC allocation.
pub struct Crtc {
    record: CrtcRecord,
    handle: usize,
}

impl View for Crtc {
    type V = CrtcRecord;

    closed spec fn view(&self) -> CrtcRecord {
        self.record
    }
}

impl Crtc {
    /// Handle of the kernel allocation this wrapper owns.
    pub closed spec fn allocation(&self) -> int {
        self.handle as int
    }

    /// Whether this wrapper's allocation is live in the given ledger.
    pub open spec fn valid(&self, reg: Registry) -> bool {
        reg.is_live_spec(self.allocation())
    }

    /// `Crtc` constructor: takes ownership of one kernel allocation,
    /// recorded in the ledger.
    pub fn new(record: CrtcRecord, reg: &mut Registry) -> (r: Crtc)
        ensures
            r@ == record,
            final(reg).slots() =~= old(reg).slots().push(true),
            final(reg).live_count() == old(reg).live_count() + 1,
            r.valid(*final(reg)),
            r.allocation() == old(reg).slots().len(),
    {
        let handle = reg.register();
        Crtc { record, handle }
    }

    /// Release the one kernel allocation this wrapper owns.
    pub fn destroy(self, reg: &mut Registry)
        requires
            self.valid(*old(reg)),
        ensures
            final(reg).slots() =~= old(reg).slots().update(self.allocation(), false),
            final(reg).live_count() == old(reg).live_count() - 1,
    {
        reg.release(self.handle);
    }

    #[inline]
    pub fn get_crtc_id(&self) -> (r: CrtcId)
        ensures
            r == self@.crtc_id,
    {
        self.record.crtc_id
    }

    #[inline]
    pub fn get_buffer_id(&self) -> (r: u32)
        ensures
            r == self@.buffer_id,
    {
        self.record.buffer_id
    }

    /// X-axis position on the framebuffer.
    #[inline]
    pub fn get_x(&self) -> (r: u32)
        ensures
            r == self@.x,
    {
        self.record.x
    }

    /// Y-axis position on the framebuffer.
    #[inline]
    pub fn get_y(&self) -> (r: u32)
        ensures
            r == self@.y,
    {
        self.record.y
    }

    #[inline]
    pub fn get_width(&self) -> (r: u32)
        ensures
            r == self@.width,
    {
        self.record.width
    }

    #[inline]
    pub fn get_height(&self) -> (r: u32)
        ensures
            r == self@.height,
    {
        self.record.height
    }

    #[inline]
    pub fn get_mode_valid(&self) -> (r: bool)
        ensures
            r == (self@.mode_valid != 0),
    {
        self.record.mode_valid != 0
    }

    #[inline]
    pub fn get_gamma_size(&self) -> (r: isize)
        ensures
            r as int == self@.gamma_size,
    {
        self.record.gamma_size as isize
    }
}

} // verus!
