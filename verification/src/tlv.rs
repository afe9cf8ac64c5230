//! The TLV records of an LLDP payload: the shared type code, the
//! per-type decoders, and the spec-level description of what each
//! decoder accepts and produces.
use vstd::prelude::*;
use vstd::string::StringExecFns;
use vstd::utf8::{decode_utf8, valid_utf8};

pub mod chassis_id;
pub mod management_address;
pub mod port_id;
pub mod system_capabilities;
pub mod system_description;
pub mod system_name;
pub mod ttl;
pub mod unknown;

pub use chassis_id::ChassisIdTLV;
pub use management_address::{AddressSubType, ManagementAddressTLV};
pub use port_id::{PortIDSubType, PortTLV};
pub use system_capabilities::{CapabilityFlags, SystemCapabilities};
pub use system_description::SystemDescription;
pub use system_name::SystemName;
pub use ttl::TimeToLiveTLV;
pub use unknown::UnknownTLV;

use crate::render::{dec_u16, dec_u8, spec_dec_chars};
use crate::wire::spec_u16_be;
use crate::DecodeError;

verus! {

/// A decoded packet layer with a known encoded size.
pub trait Packet {
    fn get_size(&self) -> usize;
}

/// The semantic tag of a TLV record, from the 7-bit wire type code:
/// codes 1 through 8 are known, 0 is reserved as the end-of-LLDPDU
/// terminator, and every other code is kept as `Unknown`.
#[derive(Clone, Copy, Debug, PartialEq, Eq, Structural)]
pub enum TlvType {
    ChassisID,
    PortID,
    PortDescription,
    TimeToLive,
    ManagementAddress,
    SystemName,
    SystemDescription,
    SystemCapabilities,
    Unknown(u8),
}

/// The 1:1 mapping from a wire type code to the semantic tag.
pub open spec fn spec_tlv_type_of(code: u8) -> TlvType {
    if code == 1 {
        TlvType::ChassisID
    } else if code == 2 {
        TlvType::PortID
    } else if code == 3 {
        TlvType::TimeToLive
    } else if code == 4 {
        TlvType::PortDescription
    } else if code == 5 {
        TlvType::SystemName
    } else if code == 6 {
        TlvType::SystemDescription
    } else if code == 7 {
        TlvType::SystemCapabilities
    } else if code == 8 {
        TlvType::ManagementAddress
    } else {
        TlvType::Unknown(code)
    }
}

impl TlvType {
    /// The human-readable name of the type, as it appears in a rendered
    /// TLV line.
    pub open spec fn spec_name(self) -> Seq<char> {
        match self {
            TlvType::ChassisID => "Chassis ID"@,
            TlvType::PortID => "Port ID"@,
            TlvType::PortDescription => "Port Description"@,
            TlvType::TimeToLive => "Time to Live"@,
            TlvType::ManagementAddress => "Management Address"@,
            TlvType::SystemName => "System Name"@,
            TlvType::SystemDescription => "System Description"@,
            TlvType::SystemCapabilities => "System Capabilities"@,
            TlvType::Unknown(t) => "Unknown TLV (type "@ + spec_dec_chars(t as int) + ")"@,
        }
    }

    pub fn to_string(&self) -> (r: String)
        ensures
            r@ == self.spec_name(),
    {
        match self {
            TlvType::ChassisID => String::from_str("Chassis ID"),
            TlvType::PortID => String::from_str("Port ID"),
            TlvType::PortDescription => String::from_str("Port Description"),
            TlvType::TimeToLive => String::from_str("Time to Live"),
            TlvType::ManagementAddress => String::from_str("Management Address"),
            TlvType::SystemName => String::from_str("System Name"),
            TlvType::SystemDescription => String::from_str("System Description"),
            TlvType::SystemCapabilities => String::from_str("System Capabilities"),
            TlvType::Unknown(t) => {
                let mut s = String::from_str("Unknown TLV (type ");
                s.append(dec_u8(*t).as_str());
                s.append(")");
                proof {
                    assert(s@ =~= self.spec_name());
                }
                s
            },
        }
    }
}

/// The `"<name> (length <n>)"` prefix every rendered TLV line starts with.
pub open spec fn spec_tlv_prefix(t: TlvType, l: u16) -> Seq<char> {
    t.spec_name() + " (length "@ + spec_dec_chars(l as int) + ")"@
}

/// Renders the common `"<name> (length <n>)"` prefix of a TLV line.
pub fn tlv_prefix(t: &TlvType, l: u16) -> (r: String)
    ensures
        r@ == spec_tlv_prefix(*t, l),
{
    let mut s = t.to_string();
    s.append(" (length ");
    s.append(dec_u16(l).as_str());
    s.append(")");
    proof {
        assert(s@ =~= spec_tlv_prefix(*t, l));
    }
    s
}

/// What every decoded TLV record exposes: its semantic tag, the declared
/// wire length, and the raw value bytes.
pub trait TLV {
    spec fn spec_type(&self) -> TlvType;

    spec fn spec_length(&self) -> u16;

    spec fn spec_value(&self) -> Seq<u8>;

    fn get_type(&self) -> (r: &TlvType)
        ensures
            *r == self.spec_type(),
    ;

    fn get_length(&self) -> (r: u16)
        ensures
            r == self.spec_length(),
    ;

    fn get_value(&self) -> (r: &[u8])
        ensures
            r@ == self.spec_value(),
    ;
}

/// The Port Description TLV (type 4): the value is UTF-8 text describing
/// the port.
#[derive(Debug)]
pub struct PortDescriptionTLV {
    tlv_type: TlvType,
    tlv_length: u16,
    tlv_value: Vec<u8>,
    description: String,
}

impl PortDescriptionTLV {
    /// Decodes the value as UTF-8 text.  A value that is not valid UTF-8
    /// is rejected as `InvalidEncoding`.
    pub fn new(length: u16, value: &[u8]) -> (r: Result<PortDescriptionTLV, DecodeError>)
        ensures
            r is Ok <==> valid_utf8(value@),
            r is Err ==> r == Result::<PortDescriptionTLV, DecodeError>::Err(
                DecodeError::InvalidEncoding,
            ),
            r is Ok ==> ({
                let t = r.unwrap();
                &&& t.spec_type() == TlvType::PortDescription
                &&& t.spec_length() == length
                &&& t.spec_value() == value@
                &&& t.spec_description() == decode_utf8(value@)
            }),
    {
        match crate::wire::utf8_to_string(value) {
            Some(description) => Ok(
                PortDescriptionTLV {
                    tlv_type: TlvType::PortDescription,
                    tlv_length: length,
                    tlv_value: vstd::slice::slice_to_vec(value),
                    description,
                },
            ),
            None => Err(DecodeError::InvalidEncoding),
        }
    }

    pub closed spec fn spec_description(self) -> Seq<char> {
        self.description@
    }

    pub fn get_description(&self) -> (r: &str)
        ensures
            r@ == self.spec_description(),
    {
        self.description.as_str()
    }

    /// The rendered line: type name, length and the decoded text.
    pub open spec fn spec_display(self) -> Seq<char> {
        spec_tlv_prefix(self.spec_type(), self.spec_length()) + " - Description: "@
            + self.spec_description()
    }

    pub fn to_string(&self) -> (r: String)
        ensures
            r@ == self.spec_display(),
    {
        let mut s = tlv_prefix(&self.tlv_type, self.tlv_length);
        s.append(" - Description: ");
        s.append(self.description.as_str());
        proof {
            assert(s@ =~= self.spec_display());
        }
        s
    }
}

impl TLV for PortDescriptionTLV {
    closed spec fn spec_type(&self) -> TlvType {
        self.tlv_type
    }

    closed spec fn spec_length(&self) -> u16 {
        self.tlv_length
    }

    closed spec fn spec_value(&self) -> Seq<u8> {
        self.tlv_value@
    }

    fn get_type(&self) -> (r: &TlvType) {
        &self.tlv_type
    }

    fn get_length(&self) -> (r: u16) {
        self.tlv_length
    }

    fn get_value(&self) -> (r: &[u8]) {
        self.tlv_value.as_slice()
    }
}

/// One decoded TLV record: a closed sum over the known TLV kinds plus the
/// `Unknown` fallback.
#[derive(Debug)]
pub enum TlvRecord {
    ChassisId(ChassisIdTLV),
    PortId(PortTLV),
    TimeToLive(TimeToLiveTLV),
    PortDescription(PortDescriptionTLV),
    SystemName(SystemName),
    SystemDescription(SystemDescription),
    SystemCapabilities(SystemCapabilities),
    ManagementAddress(ManagementAddressTLV),
    Unknown(UnknownTLV),
}

impl TlvRecord {
    pub open spec fn spec_type(self) -> TlvType {
        match self {
            TlvRecord::ChassisId(t) => t.spec_type(),
            TlvRecord::PortId(t) => t.spec_type(),
            TlvRecord::TimeToLive(t) => t.spec_type(),
            TlvRecord::PortDescription(t) => t.spec_type(),
            TlvRecord::SystemName(t) => t.spec_type(),
            TlvRecord::SystemDescription(t) => t.spec_type(),
            TlvRecord::SystemCapabilities(t) => t.spec_type(),
            TlvRecord::ManagementAddress(t) => t.spec_type(),
            TlvRecord::Unknown(t) => t.spec_type(),
        }
    }

    pub open spec fn spec_length(self) -> u16 {
        match self {
            TlvRecord::ChassisId(t) => t.spec_length(),
            TlvRecord::PortId(t) => t.spec_length(),
            TlvRecord::TimeToLive(t) => t.spec_length(),
            TlvRecord::PortDescription(t) => t.spec_length(),
            TlvRecord::SystemName(t) => t.spec_length(),
            TlvRecord::SystemDescription(t) => t.spec_length(),
            TlvRecord::SystemCapabilities(t) => t.spec_length(),
            TlvRecord::ManagementAddress(t) => t.spec_length(),
            TlvRecord::Unknown(t) => t.spec_length(),
        }
    }

    pub open spec fn spec_value(self) -> Seq<u8> {
        match self {
            TlvRecord::ChassisId(t) => t.spec_value(),
            TlvRecord::PortId(t) => t.spec_value(),
            TlvRecord::TimeToLive(t) => t.spec_value(),
            TlvRecord::PortDescription(t) => t.spec_value(),
            TlvRecord::SystemName(t) => t.spec_value(),
            TlvRecord::SystemDescription(t) => t.spec_value(),
            TlvRecord::SystemCapabilities(t) => t.spec_value(),
            TlvRecord::ManagementAddress(t) => t.spec_value(),
            TlvRecord::Unknown(t) => t.spec_value(),
        }
    }

    /// The bytes this record took on the wire: a 2-byte header plus the
    /// value.
    pub open spec fn spec_size(self) -> int {
        2 + self.spec_length() as int
    }

    pub fn get_type(&self) -> (r: &TlvType)
        ensures
            *r == self.spec_type(),
    {
        match self {
            TlvRecord::ChassisId(t) => t.get_type(),
            TlvRecord::PortId(t) => t.get_type(),
            TlvRecord::TimeToLive(t) => t.get_type(),
            TlvRecord::PortDescription(t) => t.get_type(),
            TlvRecord::SystemName(t) => t.get_type(),
            TlvRecord::SystemDescription(t) => t.get_type(),
            TlvRecord::SystemCapabilities(t) => t.get_type(),
            TlvRecord::ManagementAddress(t) => t.get_type(),
            TlvRecord::Unknown(t) => t.get_type(),
        }
    }

    pub fn get_length(&self) -> (r: u16)
        ensures
            r == self.spec_length(),
    {
        match self {
            TlvRecord::ChassisId(t) => t.get_length(),
            TlvRecord::PortId(t) => t.get_length(),
            TlvRecord::TimeToLive(t) => t.get_length(),
            TlvRecord::PortDescription(t) => t.get_length(),
            TlvRecord::SystemName(t) => t.get_length(),
            TlvRecord::SystemDescription(t) => t.get_length(),
            TlvRecord::SystemCapabilities(t) => t.get_length(),
            TlvRecord::ManagementAddress(t) => t.get_length(),
            TlvRecord::Unknown(t) => t.get_length(),
        }
    }

    pub fn get_value(&self) -> (r: &[u8])
        ensures
            r@ == self.spec_value(),
    {
        match self {
            TlvRecord::ChassisId(t) => t.get_value(),
            TlvRecord::PortId(t) => t.get_value(),
            TlvRecord::TimeToLive(t) => t.get_value(),
            TlvRecord::PortDescription(t) => t.get_value(),
            TlvRecord::SystemName(t) => t.get_value(),
            TlvRecord::SystemDescription(t) => t.get_value(),
            TlvRecord::SystemCapabilities(t) => t.get_value(),
            TlvRecord::ManagementAddress(t) => t.get_value(),
            TlvRecord::Unknown(t) => t.get_value(),
        }
    }

    /// The rendered line of the record, as its variant renders it.
    pub open spec fn spec_display(self) -> Seq<char> {
        match self {
            TlvRecord::ChassisId(t) => t.spec_display(),
            TlvRecord::PortId(t) => t.spec_display(),
            TlvRecord::TimeToLive(t) => t.spec_display(),
            TlvRecord::PortDescription(t) => t.spec_display(),
            TlvRecord::SystemName(t) => t.spec_display(),
            TlvRecord::SystemDescription(t) => t.spec_display(),
            TlvRecord::SystemCapabilities(t) => t.spec_display(),
            TlvRecord::ManagementAddress(t) => t.spec_display(),
            TlvRecord::Unknown(t) => t.spec_display(),
        }
    }

    pub fn to_string(&self) -> (r: String)
        ensures
            r@ == self.spec_display(),
    {
        match self {
            TlvRecord::ChassisId(t) => t.to_string(),
            TlvRecord::PortId(t) => t.to_string(),
            TlvRecord::TimeToLive(t) => t.to_string(),
            TlvRecord::PortDescription(t) => t.to_string(),
            TlvRecord::SystemName(t) => t.to_string(),
            TlvRecord::SystemDescription(t) => t.to_string(),
            TlvRecord::SystemCapabilities(t) => t.to_string(),
            TlvRecord::ManagementAddress(t) => t.to_string(),
            TlvRecord::Unknown(t) => t.to_string(),
        }
    }
}

/// One TLV as it sits on the wire: its 7-bit type code, 9-bit declared
/// length, and value bytes.
pub struct RawTlv {
    pub code: u8,
    pub length: u16,
    pub value: Seq<u8>,
}

/// Whether the per-type decoder for `code` rejects this value, and with
/// which error.  Codes without field requirements never reject.
pub open spec fn tlv_decode_error(code: u8, value: Seq<u8>) -> Option<DecodeError> {
    if code == 2 {
        if !port_id::spec_port_value_ok(value) {
            Option::Some(DecodeError::MalformedField)
        } else {
            Option::None
        }
    } else if code == 3 {
        if value.len() != 2 {
            Option::Some(DecodeError::MalformedField)
        } else {
            Option::None
        }
    } else if code == 4 || code == 5 || code == 6 {
        if !valid_utf8(value) {
            Option::Some(DecodeError::InvalidEncoding)
        } else {
            Option::None
        }
    } else if code == 7 {
        if value.len() < 4 {
            Option::Some(DecodeError::MalformedField)
        } else {
            Option::None
        }
    } else if code == 8 {
        if !management_address::spec_mgmt_value_ok(value) {
            Option::Some(DecodeError::MalformedField)
        } else {
            Option::None
        }
    } else {
        Option::None
    }
}

/// What it means for a decoded record to be the correct decoding of one
/// wire TLV: the tag, length and raw value carry over, and the variant's
/// decoded payload is the one the wire bytes dictate.
pub open spec fn record_matches(rec: TlvRecord, raw: RawTlv) -> bool {
    &&& rec.spec_type() == spec_tlv_type_of(raw.code)
    &&& rec.spec_length() == raw.length
    &&& rec.spec_value() == raw.value
    &&& match rec {
        TlvRecord::ChassisId(_) => raw.code == 1,
        TlvRecord::PortId(p) => {
            &&& raw.code == 2
            &&& port_id::spec_port_value_ok(raw.value)
            &&& port_id::spec_port_fields(p, raw.value)
        },
        TlvRecord::TimeToLive(t) => {
            &&& raw.code == 3
            &&& raw.value.len() == 2
            &&& t.spec_seconds() == spec_u16_be(raw.value)
        },
        TlvRecord::PortDescription(d) => {
            &&& raw.code == 4
            &&& valid_utf8(raw.value)
            &&& d.spec_description() == decode_utf8(raw.value)
        },
        TlvRecord::SystemName(n) => {
            &&& raw.code == 5
            &&& valid_utf8(raw.value)
            &&& n.spec_name() == decode_utf8(raw.value)
        },
        TlvRecord::SystemDescription(d) => {
            &&& raw.code == 6
            &&& valid_utf8(raw.value)
            &&& d.spec_description() == decode_utf8(raw.value)
        },
        TlvRecord::SystemCapabilities(c) => {
            &&& raw.code == 7
            &&& raw.value.len() >= 4
            &&& c.spec_capabilities() == system_capabilities::spec_flags_of(raw.value[1])
            &&& c.spec_enabled() == system_capabilities::spec_flags_of(raw.value[3])
        },
        TlvRecord::ManagementAddress(m) => {
            &&& raw.code == 8
            &&& management_address::spec_mgmt_value_ok(raw.value)
            &&& management_address::spec_mgmt_fields(m, raw.value)
        },
        TlvRecord::Unknown(_) => !(1 <= raw.code <= 8),
    }
}

} // verus!
