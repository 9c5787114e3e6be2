//! One physical output connector.
//!
//! A `Connector` owns one kernel-populated connector record: identity
//! fields, connection state, physical size, the supported mode list and the
//! list of encoders it can pair with. Accessors hand back independent
//! copies, so anything a caller keeps stays valid after the wrapper is
//! destroyed.

use vstd::prelude::*;

use crate::mode_info::ModeInfo;
use crate::registry::Registry;

verus! {

/// Type of connector id.
pub type ConnectorId = u32;

/// Type of connector type.
pub type ConnectorType = u32;

/// Type of connector type id.
pub type ConnectorTypeId = u32;

/// Connection state of a connector, as reported by the kernel.
#[derive(Clone, Copy, PartialEq, Eq, Structural, Debug)]
pub enum Connection {
    Connected,
    Disconnected,
    Unknown,
}

/// Meaning of the raw connection code: 1 is connected, 2 is disconnected,
/// everything else is unknown.
pub open spec fn connection_spec(code: u32) -> Connection {
    if code == 1 {
        Connection::Connected
    } else if code == 2 {
        Connection::Disconnected
    } else {
        Connection::Unknown
    }
}

/// The fixed table from numeric connector-type codes to names. Codes at and
/// beyond the end of the table fall back to the entry for code zero.
pub open spec fn type_name_spec(code: u32) -> Seq<char> {
    if code == 1 {
        "VGA"@
    } else if code == 2 {
        "DVII"@
    } else if code == 3 {
        "DVID"@
    } else if code == 4 {
        "DVIA"@
    } else if code == 5 {
        "Composite"@
    } else if code == 6 {
        "SVIDEO"@
    } else if code == 7 {
        "LVDS"@
    } else if code == 8 {
        "Component"@
    } else if code == 9 {
        "9PinDIN"@
    } else if code == 10 {
        "DisplayPort"@
    } else if code == 11 {
        "HDMIA"@
    } else if code == 12 {
        "HDMIB"@
    } else if code == 13 {
        "TV"@
    } else if code == 14 {
        "eDP"@
    } else {
        "Unknown"@
    }
}

/// String for a numeric connector-type code. Total: every code, however far
/// out of range, gets the fallback name rather than a fault.
pub fn connector_type_name(code: u32) -> (r: &'static str)
    ensures
        r@ == type_name_spec(code),
{
    match code {
        1 => "VGA",
        2 => "DVII",
        3 => "DVID",
        4 => "DVIA",
        5 => "Composite",
        6 => "SVIDEO",
        7 => "LVDS",
        8 => "Component",
        9 => "9PinDIN",
        10 => "DisplayPort",
        11 => "HDMIA",
        12 => "HDMIB",
        13 => "TV",
        14 => "eDP",
        _ => "Unknown",
    }
}

/// Law: the type-name table is total. The last named entry is code 14,
/// "eDP"; every code from 15 up falls back to the "Unknown" entry, the same
/// one that code 0 names.
pub proof fn lemma_type_name_total(code: u32)
    ensures
        code == 14 ==> type_name_spec(code) == "eDP"@,
        code >= 15 ==> type_name_spec(code) == "Unknown"@,
        code >= 15 ==> type_name_spec(code) == type_name_spec(0),
{
}

/// Plain copy of one kernel connector record, as a kernel reply carries it.
pub struct ConnectorRecord {
    pub connector_id: u32,
    pub encoder_id: u32,
    pub connector_type: u32,
    pub connector_type_id: u32,
    pub connection: u32,
    pub mm_width: u32,
    pub mm_height: u32,
    pub modes: Vec<ModeInfo>,
    pub encoders: Vec<u32>,
}

/// Mathematical view of a connector record.
#[verifier::ext_equal]
pub struct ConnectorView {
    pub connector_id: u32,
    pub encoder_id: u32,
    pub connector_type: u32,
    pub connector_type_id: u32,
    pub connection: u32,
    pub mm_width: u32,
    pub mm_height: u32,
    pub modes: Seq<ModeInfo>,
    pub encoders: Seq<u32>,
}

impl View for ConnectorRecord {
    type V = ConnectorView;

    open spec fn view(&self) -> ConnectorView {
        ConnectorView {
            connector_id: self.connector_id,
            encoder_id: self.encoder_id,
            connector_type: self.connector_type,
            connector_type_id: self.connector_type_id,
            connection: self.connection,
            mm_width: self.mm_width,
            mm_height: self.mm_height,
            modes: self.modes@,
            encoders: self.encoders@,
        }
    }
}

/// Owning wrapper for one kernel connector allocation.
pub struct Connector {
    record: ConnectorRecord,
    handle: usize,
}

impl View for Connector {
    type V = ConnectorView;

    closed spec fn view(&self) -> ConnectorView {
        self.record@
    }
}

impl Connector {
    #[verifier::type_invariant]
    spec fn wf(&self) -> bool {
        &&& self.record.modes@.len() <= i32::MAX
        &&& self.record.encoders@.len() <= i32::MAX
    }

    /// Handle of the kernel allocation this wrapper owns.
    pub closed spec fn allocation(&self) -> int {
        self.handle as int
    }

    /// Whether this wrapper's allocation is live in the given ledger.
    pub open spec fn valid(&self, reg: Registry) -> bool {
        reg.is_live_spec(self.allocation())
    }

    /// `Connector` constructor: takes ownership of one kernel allocation,
    /// recorded in the ledger. The kernel reports list lengths as 32-bit
    /// counts, so the lists must fit them.
    pub fn new(record: ConnectorRecord, reg: &mut Registry) -> (r: Connector)
        requires
            record.modes@.len() <= i32::MAX,
            record.encoders@.len() <= i32::MAX,
        ensures
            r@ =~= record@,
            final(reg).slots() =~= old(reg).slots().push(true),
            final(reg).live_count() == old(reg).live_count() + 1,
            r.valid(*final(reg)),
            r.allocation() == old(reg).slots().len(),
    {
        let handle = reg.register();
        Connector { record, handle }
    }

    /// Release the one kernel allocation this wrapper owns. Consuming the
    /// wrapper and the ledger precondition together rule out a second
    /// release of the same allocation.
    pub fn destroy(self, reg: &mut Registry)
        requires
            self.valid(*old(reg)),
        ensures
            final(reg).slots() =~= old(reg).slots().update(self.allocation(), false),
            final(reg).live_count() == old(reg).live_count() - 1,
    {
        reg.release(self.handle);
    }

    /// Name for this connector's type code, from the fixed table.
    pub fn get_type_name(&self) -> (r: &'static str)
        ensures
            r@ == type_name_spec(self@.connector_type),
    {
        connector_type_name(self.record.connector_type)
    }

    #[inline]
    pub fn get_connector_id(&self) -> (r: ConnectorId)
        ensures
            r == self@.connector_id,
    {
        self.record.connector_id
    }

    /// Id of the encoder currently driving this connector.
    #[inline]
    pub fn get_encoder_id(&self) -> (r: u32)
        ensures
            r == self@.encoder_id,
    {
        self.record.encoder_id
    }

    #[inline]
    pub fn get_connector_type(&self) -> (r: ConnectorType)
        ensures
            r == self@.connector_type,
    {
        self.record.connector_type
    }

    #[inline]
    pub fn get_connector_type_id(&self) -> (r: ConnectorTypeId)
        ensures
            r == self@.connector_type_id,
    {
        self.record.connector_type_id
    }

    /// Tri-state connection state, from the raw code the kernel reported.
    #[inline]
    pub fn get_connection(&self) -> (r: Connection)
        ensures
            r == connection_spec(self@.connection),
    {
        if self.record.connection == 1 {
            Connection::Connected
        } else if self.record.connection == 2 {
            Connection::Disconnected
        } else {
            Connection::Unknown
        }
    }

    /// Width in millimeters.
    #[inline]
    pub fn get_mm_width(&self) -> (r: u32)
        ensures
            r == self@.mm_width,
    {
        self.record.mm_width
    }

    /// Height in millimeters.
    #[inline]
    pub fn get_mm_height(&self) -> (r: u32)
        ensures
            r == self@.mm_height,
    {
        self.record.mm_height
    }

    /// Count of modes; the authoritative length of the mode list.
    #[inline]
    pub fn get_count_modes(&self) -> (r: i32)
        ensures
            r as int == self@.modes.len(),
    {
        proof {
            use_type_invariant(self);
        }
        self.record.modes.len() as i32
    }

    /// Count of encoders; the authoritative length of the encoder-id list.
    #[inline]
    pub fn get_count_encoders(&self) -> (r: i32)
        ensures
            r as int == self@.encoders.len(),
    {
        proof {
            use_type_invariant(self);
        }
        self.record.encoders.len() as i32
    }

    /// The supported modes, as an independent, owned copy: exactly the
    /// wrapped list, never longer than the reported count, and safe to keep
    /// after this wrapper is destroyed.
    pub fn get_modes(&self) -> (r: Vec<ModeInfo>)
        ensures
            r@ == self@.modes,
    {
        let mut r: Vec<ModeInfo> = Vec::new();
        let mut i: usize = 0;
        while i < self.record.modes.len()
            invariant
                i <= self.record.modes@.len(),
                r@ == self.record.modes@.take(i as int),
            decreases self.record.modes@.len() - i,
        {
            proof {
                assert(self.record.modes@.take(i as int + 1) =~= self.record.modes@.take(
                    i as int,
                ).push(self.record.modes@[i as int]));
            }
            r.push(self.record.modes[i]);
            i = i + 1;
        }
        proof {
            assert(self.record.modes@.take(self.record.modes@.len() as int)
                =~= self.record.modes@);
        }
        r
    }

    /// The pairable encoder ids, as an independent, owned copy.
    pub fn get_encoders(&self) -> (r: Vec<u32>)
        ensures
            r@ == self@.encoders,
    {
        let mut r: Vec<u32> = Vec::new();
        let mut i: usize = 0;
        while i < self.record.encoders.len()
            invariant
                i <= self.record.encoders@.len(),
                r@ == self.record.encoders@.take(i as int),
            decreases self.record.encoders@.len() - i,
        {
            proof {
                assert(self.record.encoders@.take(i as int + 1) =~= self.record.encoders@.take(
                    i as int,
                ).push(self.record.encoders@[i as int]));
            }
            r.push(self.record.encoders[i]);
            i = i + 1;
        }
        proof {
            assert(self.record.encoders@.take(self.record.encoders@.len() as int)
                =~= self.record.encoders@);
        }
        r
    }
}

/// Law: reading the mode list is idempotent. `get_modes` pins its result to
/// the wrapped list, so any two reads from the same connector yield the
/// same sequence of timing records.
pub proof fn lemma_get_modes_idempotent(c: &Connector, m1: Seq<ModeInfo>, m2: Seq<ModeInfo>)
    requires
        m1 == c@.modes,
        m2 == c@.modes,
    ensures
        m1 == m2,
{
}

} // verus!
