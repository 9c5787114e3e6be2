//! Snapshot of a device's display topology.
//!
//! A `Resources` value owns the top-level kernel-populated enumeration
//! record and exposes the four id lists — framebuffers, CRTCs, connectors,
//! encoders — that are the entry points into the topology graph. Accessors
//! hand back independent, owned copies of the lists.

use vstd::prelude::*;

use crate::connector::ConnectorId;
use crate::crtc::CrtcId;
use crate::encoder::EncoderId;
use crate::registry::Registry;

verus! {

/// Plain copy of the kernel resource-enumeration record.
pub struct ResourcesRecord {
    pub fbs: Vec<u32>,
    pub crtcs: Vec<u32>,
    pub connectors: Vec<u32>,
    pub encoders: Vec<u32>,
}

/// Mathematical view of a resource-enumeration record.
#[verifier::ext_equal]
pub struct ResourcesView {
    pub fbs: Seq<u32>,
    pub crtcs: Seq<u32>,
    pub connectors: Seq<u32>,
    pub encoders: Seq<u32>,
}

impl View for ResourcesRecord {
    type V = ResourcesView;

    open spec fn view(&self) -> ResourcesView {
        ResourcesView {
            fbs: self.fbs@,
            crtcs: self.crtcs@,
            connectors: self.connectors@,
            encoders: self.encoders@,
        }
    }
}

/// Owning wrapper for the kernel resource-enumeration allocation.
pub struct Resources {
    record: ResourcesRecord,
    handle: usize,
}

impl View for Resources {
    type V = ResourcesView;

    closed spec fn view(&self) -> ResourcesView {
        self.record@
    }
}

impl Resources {
    #[verifier::type_invariant]
    spec fn wf(&self) -> bool {
        &&& self.record.fbs@.len() <= i32::MAX
        &&& self.record.crtcs@.len() <= i32::MAX
        &&& self.record.connectors@.len() <= i32::MAX
        &&& self.record.encoders@.len() <= i32::MAX
    }

    /// Handle of the kernel allocation this wrapper owns.
    pub closed spec fn allocation(&self) -> int {
        self.handle as int
    }

    /// Whether this wrapper's allocation is live in the given ledger.
    pub open spec fn valid(&self, reg: Registry) -> bool {
        reg.is_live_spec(self.allocation())
    }

    /// `Resources` constructor: takes ownership of one kernel allocation,
    /// recorded in the ledger. The kernel reports list lengths as 32-bit
    /// counts, so the lists must fit them.
    pub fn new(record: ResourcesRecord, reg: &mut Registry) -> (r: Resources)
        requires
            record.fbs@.len() <= i32::MAX,
            record.crtcs@.len() <= i32::MAX,
            record.connectors@.len() <= i32::MAX,
            record.encoders@.len() <= i32::MAX,
        ensures
            r@ =~= record@,
            final(reg).slots() =~= old(reg).slots().push(true),
            final(reg).live_count() == old(reg).live_count() + 1,
            r.valid(*final(reg)),
            r.allocation() == old(reg).slots().len(),
    {
        let handle = reg.register();
        Resources { record, handle }
    }

    /// Release the one kernel allocation this wrapper owns.
    pub fn destroy(self, reg: &mut Registry)
        requires
            self.valid(*old(reg)),
        ensures
            final(reg).slots() =~= old(reg).slots().update(self.allocation(), false),
            final(reg).live_count() == old(reg).live_count() - 1,
    {
        reg.release(self.handle);
    }

    /// Count of framebuffers.
    #[inline]
    pub fn get_count_fbs(&self) -> (r: i32)
        ensures
            r as int == self@.fbs.len(),
    {
        proof {
            use_type_invariant(self);
        }
        self.record.fbs.len() as i32
    }

    /// Count of CRTCs.
    #[inline]
    pub fn get_count_crtcs(&self) -> (r: i32)
        ensures
            r as int == self@.crtcs.len(),
    {
        proof {
            use_type_invariant(self);
        }
        self.record.crtcs.len() as i32
    }

    /// Count of connectors.
    #[inline]
    pub fn get_count_connectors(&self) -> (r: i32)
        ensures
            r as int == self@.connectors.len(),
    {
        proof {
            use_type_invariant(self);
        }
        self.record.connectors.len() as i32
    }

    /// Count of encoders.
    #[inline]
    pub fn get_count_encoders(&self) -> (r: i32)
        ensures
            r as int == self@.encoders.len(),
    {
        proof {
            use_type_invariant(self);
        }
        self.record.encoders.len() as i32
    }

    /// The CRTC ids, as an independent, owned copy.
    pub fn get_crtcs(&self) -> (r: Vec<CrtcId>)
        ensures
            r@ == self@.crtcs,
    {
        copy_ids(&self.record.crtcs)
    }

    /// The encoder ids, as an independent, owned copy.
    pub fn get_encoders(&self) -> (r: Vec<EncoderId>)
        ensures
            r@ == self@.encoders,
    {
        copy_ids(&self.record.encoders)
    }

    /// The connector ids, as an independent, owned copy.
    pub fn get_connectors(&self) -> (r: Vec<ConnectorId>)
        ensures
            r@ == self@.connectors,
    {
        copy_ids(&self.record.connectors)
    }
}

/// Copy a list of kernel-assigned ids element by element, keeping order.
fn copy_ids(ids: &Vec<u32>) -> (r: Vec<u32>)
    ensures
        r@ == ids@,
{
    let mut r: Vec<u32> = Vec::new();
    let mut i: usize = 0;
    while i < ids.len()
        invariant
            i <= ids@.len(),
            r@ == ids@.take(i as int),
        decreases ids@.len() - i,
    {
        proof {
            assert(ids@.take(i as int + 1) =~= ids@.take(i as int).push(ids@[i as int]));
        }
        r.push(ids[i]);
        i = i + 1;
    }
    proof {
        assert(ids@.take(ids@.len() as int) =~= ids@);
    }
    r
}

} // verus!
