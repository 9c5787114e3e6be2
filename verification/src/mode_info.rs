//! One display timing record (resolution, refresh, sync timing, flags).
//!
//! A `ModeInfo` is a plain value: it is copied out of the parent record it
//! came from, owns nothing, and stays valid after its source wrapper is
//! destroyed.

use vstd::prelude::*;

verus! {

/// One display timing record, with value semantics.
#[derive(Clone, Copy, PartialEq, Eq, Structural, Debug)]
pub struct ModeInfo {
    pub clock: u32,
    pub hdisplay: u16,
    pub hsync_start: u16,
    pub hsync_end: u16,
    pub htotal: u16,
    pub hskew: u16,
    pub vdisplay: u16,
    pub vsync_start: u16,
    pub vsync_end: u16,
    pub vtotal: u16,
    pub vscan: u16,
    pub vrefresh: u32,
    pub flags: u32,
    pub mode_type: u32,
}

impl ModeInfo {
    /// `ModeInfo` constructor from the fields of one timing record.
    pub fn new(
        clock: u32,
        hdisplay: u16,
        hsync_start: u16,
        hsync_end: u16,
        htotal: u16,
        hskew: u16,
        vdisplay: u16,
        vsync_start: u16,
        vsync_end: u16,
        vtotal: u16,
        vscan: u16,
        vrefresh: u32,
        flags: u32,
        mode_type: u32,
    ) -> (r: ModeInfo)
        ensures
            r == (ModeInfo {
                clock,
                hdisplay,
                hsync_start,
                hsync_end,
                htotal,
                hskew,
                vdisplay,
                vsync_start,
                vsync_end,
                vtotal,
                vscan,
                vrefresh,
                flags,
                mode_type,
            }),
    {
        ModeInfo {
            clock,
            hdisplay,
            hsync_start,
            hsync_end,
            htotal,
            hskew,
            vdisplay,
            vsync_start,
            vsync_end,
            vtotal,
            vscan,
            vrefresh,
            flags,
            mode_type,
        }
    }

    #[inline]
    pub fn get_clock(&self) -> (r: u32)
        ensures
            r == self.clock,
    {
        self.clock
    }

    #[inline]
    pub fn get_hdisplay(&self) -> (r: u16)
        ensures
            r == self.hdisplay,
    {
        self.hdisplay
    }

    #[inline]
    pub fn get_hsync_start(&self) -> (r: u16)
        ensures
            r == self.hsync_start,
    {
        self.hsync_start
    }

    #[inline]
    pub fn get_hsync_end(&self) -> (r: u16)
        ensures
            r == self.hsync_end,
    {
        self.hsync_end
    }

    #[inline]
    pub fn get_htotal(&self) -> (r: u16)
        ensures
            r == self.htotal,
    {
        self.htotal
    }

    #[inline]
    pub fn get_hskew(&self) -> (r: u16)
        ensures
            r == self.hskew,
    {
        self.hskew
    }

    #[inline]
    pub fn get_vdisplay(&self) -> (r: u16)
        ensures
            r == self.vdisplay,
    {
        self.vdisplay
    }

    #[inline]
    pub fn get_vsync_start(&self) -> (r: u16)
        ensures
            r == self.vsync_start,
    {
        self.vsync_start
    }

    #[inline]
    pub fn get_vsync_end(&self) -> (r: u16)
        ensures
            r == self.vsync_end,
    {
        self.vsync_end
    }

    #[inline]
    pub fn get_vtotal(&self) -> (r: u16)
        ensures
            r == self.vtotal,
    {
        self.vtotal
    }

    #[inline]
    pub fn get_vscan(&self) -> (r: u16)
        ensures
            r == self.vscan,
    {
        self.vscan
    }

    #[inline]
    pub fn get_vrefresh(&self) -> (r: u32)
        ensures
            r == self.vrefresh,
    {
        self.vrefresh
    }

    #[inline]
    pub fn get_flags(&self) -> (r: u32)
        ensures
            r == self.flags,
    {
        self.flags
    }

    #[inline]
    pub fn get_mode_type(&self) -> (r: u32)
        ensures
            r == self.mode_type,
    {
        self.mode_type
    }
}

} // verus!
