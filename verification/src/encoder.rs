//! One signal-routing stage between a CRTC and a connector.
//!
//! An `Encoder` owns one kernel-populated encoder record: its type, the
//! CRTC currently driving it, and bitmasks of the CRTCs it could be driven
//! by and the encoders it could clone with.

use vstd::prelude::*;

use crate::crtc::CrtcId;
use crate::registry::Registry;

verus! {

/// Type of encoder id.
pub type EncoderId = u32;

/// Type of encoder type.
pub type EncoderType = u32;

/// Plain copy of one kernel encoder record, as a kernel reply carries it.
#[derive(Clone, Copy, PartialEq, Eq, Structural, Debug)]
pub struct EncoderRecord {
    pub encoder_id: u32,
    pub encoder_type: u32,
    pub crtc_id: u32,
    pub possible_crtcs: u32,
    pub possible_clones: u32,
}

/// Owning wrapper for one kernel encoder allocation.
pub struct Encoder {
    record: EncoderRecord,
    handle: usize,
}

impl View for Encoder {
    type V = EncoderRecord;

    closed spec fn view(&self) -> EncoderRecord {
        self.record
    }
}

impl Encoder {
    /// Handle of the kernel allocation this wrapper owns.
    pub closed spec fn allocation(&self) -> int {
        self.handle as int
    }

    /// Whether this wrapper's allocation is live in the given ledger.
    pub open spec fn valid(&self, reg: Registry) -> bool {
        reg.is_live_spec(self.allocation())
    }

    /// `Encoder` constructor: takes ownership of one kernel allocation,
    /// recorded in the ledger.
    pub fn new(record: EncoderRecord, reg: &mut Registry) -> (r: Encoder)
        ensures
            r@ == record,
            final(reg).slots() =~= old(reg).slots().push(true),
            final(reg).live_count() == old(reg).live_count() + 1,
            r.valid(*final(reg)),
            r.allocation() == old(reg).slots().len(),
    {
        let handle = reg.register();
        Encoder { record, handle }
    }

    /// Release the one kernel allocation this wrapper owns.
    pub fn destroy(self, reg: &mut Registry)
        requires
            self.valid(*old(reg)),
        ensures
            final(reg).slots() =~= old(reg).slots().update(self.allocation(), false),
            final(reg).live_count() == old(reg).live_count() - 1,
    {
        reg.release(self.handle);
    }

    #[inline]
    pub fn get_encoder_id(&self) -> (r: EncoderId)
        ensures
            r == self@.encoder_id,
    {
        self.record.encoder_id
    }

    #[inline]
    pub fn get_encoder_type(&self) -> (r: EncoderType)
        ensures
            r == self@.encoder_type,
    {
        self.record.encoder_type
    }

    /// Id of the CRTC currently driving this encoder.
    #[inline]
    pub fn get_crtc_id(&self) -> (r: CrtcId)
        ensures
            r == self@.crtc_id,
    {
        self.record.crtc_id
    }

    /// Bitmask of the CRTCs that could drive this encoder.
    #[inline]
    pub fn get_possible_crtcs(&self) -> (r: u32)
        ensures
            r == self@.possible_crtcs,
    {
        self.record.possible_crtcs
    }

    /// Bitmask of the encoders this one could clone with.
    #[inline]
    pub fn get_possible_clones(&self) -> (r: u32)
        ensures
            r == self@.possible_clones,
    {
        self.record.possible_clones
    }
}

} // verus!
