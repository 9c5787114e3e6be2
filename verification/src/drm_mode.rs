//! Mode-setting facade.
//!
//! Each kernel query or mutation is a single blocking call made outside
//! this crate; the functions here are the verified halves of the facade.
//! The query half turns a kernel reply — either nothing, or one populated
//! record — into an owning wrapper registered in the allocation ledger.
//! The mutation half turns the raw result code of a kernel call into the
//! `Result` the caller sees, preserving the code verbatim. The per-CRTC
//! page-flip protocol is modelled explicitly, so that the rejection of
//! overlapping flip requests is a proved transition rather than folklore.

use vstd::prelude::*;

pub use crate::connector::{Connection, Connector, ConnectorId, ConnectorType, ConnectorTypeId};
pub use crate::crtc::{Crtc, CrtcId};
pub use crate::encoder::{Encoder, EncoderId, EncoderType};
pub use crate::mode_info::ModeInfo;
pub use crate::resources::Resources;

use crate::connector::ConnectorRecord;
use crate::crtc::CrtcRecord;
use crate::encoder::EncoderRecord;
use crate::registry::Registry;
use crate::resources::ResourcesRecord;

verus! {

/// Flag asking the kernel to deliver a completion event for a page flip.
pub const PAGE_FLIP_EVENT: u32 = 0x01;

/// Flag asking the kernel to flip without waiting for vertical blank.
pub const PAGE_FLIP_ASYNC: u32 = 0x02;

/// Outcome of the mode-setting support probe for a bus id, from the raw
/// result code of the kernel call: zero means supported, anything else is
/// handed through verbatim.
pub fn check_modesetting_supported(result: i32) -> (r: Result<(), i32>)
    ensures
        result == 0 ==> r == Ok::<(), i32>(()),
        result != 0 ==> r == Err::<(), i32>(result),
{
    if result == 0 {
        Ok(())
    } else {
        Err(result)
    }
}

/// Wrap a topology-enumeration reply. A failed query (no record) gives
/// `None` and leaves the ledger untouched; a populated record always gives
/// a wrapper owning one freshly registered allocation.
pub fn get_resources(reply: Option<ResourcesRecord>, reg: &mut Registry) -> (r: Option<Resources>)
    requires
        reply matches Some(rec) ==> rec.fbs@.len() <= i32::MAX && rec.crtcs@.len() <= i32::MAX
            && rec.connectors@.len() <= i32::MAX && rec.encoders@.len() <= i32::MAX,
    ensures
        reply is None ==> r is None && final(reg).slots() =~= old(reg).slots(),
        reply matches Some(rec) ==> r matches Some(w) && w@ =~= rec@ && final(reg).slots()
            =~= old(reg).slots().push(true) && final(reg).live_count() == old(reg).live_count()
            + 1 && w.valid(*final(reg)) && w.allocation() == old(reg).slots().len(),
{
    match reply {
        None => None,
        Some(rec) => Some(Resources::new(rec, reg)),
    }
}

/// Wrap a CRTC query reply. A failed query gives `None` and leaves the
/// ledger untouched; a populated record always gives a wrapper owning one
/// freshly registered allocation.
pub fn get_crtc(reply: Option<CrtcRecord>, reg: &mut Registry) -> (r: Option<Crtc>)
    ensures
        reply is None ==> r is None && final(reg).slots() =~= old(reg).slots(),
        reply matches Some(rec) ==> r matches Some(w) && w@ == rec && final(reg).slots()
            =~= old(reg).slots().push(true) && final(reg).live_count() == old(reg).live_count()
            + 1 && w.valid(*final(reg)) && w.allocation() == old(reg).slots().len(),
{
    match reply {
        None => None,
        Some(rec) => Some(Crtc::new(rec, reg)),
    }
}

/// Wrap a connector query reply. A failed query gives `None` and leaves
/// the ledger untouched; a populated record always gives a wrapper owning
/// one freshly registered allocation.
pub fn get_connector(reply: Option<ConnectorRecord>, reg: &mut Registry) -> (r: Option<Connector>)
    requires
        reply matches Some(rec) ==> rec.modes@.len() <= i32::MAX && rec.encoders@.len()
            <= i32::MAX,
    ensures
        reply is None ==> r is None && final(reg).slots() =~= old(reg).slots(),
        reply matches Some(rec) ==> r matches Some(w) && w@ =~= rec@ && final(reg).slots()
            =~= old(reg).slots().push(true) && final(reg).live_count() == old(reg).live_count()
            + 1 && w.valid(*final(reg)) && w.allocation() == old(reg).slots().len(),
{
    match reply {
        None => None,
        Some(rec) => Some(Connector::new(rec, reg)),
    }
}

/// Wrap an encoder query reply. A failed query gives `None` and leaves the
/// ledger untouched; a populated record always gives a wrapper owning one
/// freshly registered allocation.
pub fn get_encoder(reply: Option<EncoderRecord>, reg: &mut Registry) -> (r: Option<Encoder>)
    ensures
        reply is None ==> r is None && final(reg).slots() =~= old(reg).slots(),
        reply matches Some(rec) ==> r matches Some(w) && w@ == rec && final(reg).slots()
            =~= old(reg).slots().push(true) && final(reg).live_count() == old(reg).live_count()
            + 1 && w.valid(*final(reg)) && w.allocation() == old(reg).slots().len(),
{
    match reply {
        None => None,
        Some(rec) => Some(Encoder::new(rec, reg)),
    }
}

/// Outcome of registering a buffer object as a framebuffer, from the raw
/// result code of the kernel call and the id it filled in. The new id
/// comes back only on a zero result; any non-zero result is handed through
/// verbatim.
pub fn add_fb(result: i32, buffer_id: u32) -> (r: Result<u32, i32>)
    ensures
        result == 0 ==> r == Ok::<u32, i32>(buffer_id),
        result != 0 ==> r == Err::<u32, i32>(result),
{
    if result == 0 {
        Ok(buffer_id)
    } else {
        Err(result)
    }
}

/// Outcome of binding a framebuffer and mode to a CRTC, from the raw
/// result code of the kernel call: zero means the binding took effect,
/// anything else is handed through verbatim.
pub fn set_crtc(result: i32) -> (r: Result<(), i32>)
    ensures
        result == 0 ==> r == Ok::<(), i32>(()),
        result != 0 ==> r == Err::<(), i32>(result),
{
    if result == 0 {
        Ok(())
    } else {
        Err(result)
    }
}

/// Outcome of a page-flip request, from the raw result code of the kernel
/// call: zero means the flip was queued for the next vertical blank,
/// anything else — an overlapping request among the causes — is handed
/// through verbatim.
pub fn page_flip(result: i32) -> (r: Result<(), i32>)
    ensures
        result == 0 ==> r == Ok::<(), i32>(()),
        result != 0 ==> r == Err::<(), i32>(result),
{
    if result == 0 {
        Ok(())
    } else {
        Err(result)
    }
}

/// Per-CRTC protocol state: no mode set yet, configured for scanout, or
/// holding a flip whose completion event has not been dispatched yet.
#[derive(Clone, Copy, PartialEq, Eq, Structural, Debug)]
pub enum CrtcPhase {
    Idle,
    Configured,
    FlipPending,
}

/// After a successful mode set the CRTC is configured, whatever it was.
pub open spec fn set_crtc_step(p: CrtcPhase) -> CrtcPhase {
    CrtcPhase::Configured
}

/// A page flip is accepted only on a configured CRTC with no flip in
/// flight; an accepted flip leaves one pending. The kernel rejects an
/// overlapping request instead of queuing it, so a rejected request
/// changes nothing.
pub open spec fn page_flip_step(p: CrtcPhase) -> (CrtcPhase, bool) {
    if p is Configured {
        (CrtcPhase::FlipPending, true)
    } else {
        (p, false)
    }
}

/// Dispatching the completion event for the pending flip puts the CRTC
/// back to configured; without a pending flip, nothing changes.
pub open spec fn flip_event_step(p: CrtcPhase) -> CrtcPhase {
    if p is FlipPending {
        CrtcPhase::Configured
    } else {
        p
    }
}

/// Phase after a successful mode set.
pub fn crtc_after_set_crtc(p: CrtcPhase) -> (r: CrtcPhase)
    ensures
        r == set_crtc_step(p),
{
    CrtcPhase::Configured
}

/// Phase after a page-flip request, with whether the request is accepted.
pub fn crtc_after_page_flip(p: CrtcPhase) -> (r: (CrtcPhase, bool))
    ensures
        r == page_flip_step(p),
{
    match p {
        CrtcPhase::Configured => (CrtcPhase::FlipPending, true),
        CrtcPhase::Idle => (CrtcPhase::Idle, false),
        CrtcPhase::FlipPending => (CrtcPhase::FlipPending, false),
    }
}

/// Phase after the completion event for a flip has been dispatched.
pub fn crtc_after_flip_event(p: CrtcPhase) -> (r: CrtcPhase)
    ensures
        r == flip_event_step(p),
{
    match p {
        CrtcPhase::FlipPending => CrtcPhase::Configured,
        CrtcPhase::Idle => CrtcPhase::Idle,
        CrtcPhase::Configured => CrtcPhase::Configured,
    }
}

/// Law: overlapping page flips are rejected. Once a flip has been
/// accepted, a second flip requested on the same CRTC before the first
/// completion event has been dispatched is never accepted.
pub proof fn lemma_overlapping_flip_rejected(p: CrtcPhase)
    requires
        page_flip_step(p).1,
    ensures
        !page_flip_step(page_flip_step(p).0).1,
{
}

/// Law: a dispatched completion event re-arms the CRTC. After an accepted
/// flip, dispatching its completion event brings the CRTC back to a phase
/// in which a new flip is accepted.
pub proof fn lemma_flip_event_rearms(p: CrtcPhase)
    requires
        page_flip_step(p).1,
    ensures
        page_flip_step(flip_event_step(page_flip_step(p).0)).1,
{
}

} // verus!
