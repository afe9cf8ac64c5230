//! The Port ID TLV (type 2): a subtype byte governs how the remainder is
//! interpreted.  Subtype 3 is a MAC address; every other subtype is kept
//! raw and rendered as `Unknown`.
use vstd::prelude::*;
use vstd::slice::slice_to_vec;
use vstd::string::StringExecFns;

use crate::layer2::ethernet::{spec_mac_chars, MacAddress};
use crate::render::spec_dec_chars;
use crate::render::dec_u8;
use crate::tlv::{spec_tlv_prefix, tlv_prefix, TlvType, TLV};
use crate::DecodeError;

verus! {

/// How the identifier bytes of a Port ID TLV are to be read.
#[derive(Clone, Copy, Debug, PartialEq, Eq, Structural)]
pub enum PortIDSubType {
    MACAddress,
    Unknown(u8),
}

impl PortIDSubType {
    /// The textual form: the subtype name, or the raw code in decimal.
    pub open spec fn spec_display(self) -> Seq<char> {
        match self {
            PortIDSubType::MACAddress => "MAC address"@,
            PortIDSubType::Unknown(t) => "Unknown ("@ + spec_dec_chars(t as int) + ")"@,
        }
    }

    pub fn to_string(&self) -> (r: String)
        ensures
            r@ == self.spec_display(),
    {
        match self {
            PortIDSubType::MACAddress => String::from_str("MAC address"),
            PortIDSubType::Unknown(t) => {
                let mut s = String::from_str("Unknown (");
                s.append(dec_u8(*t).as_str());
                s.append(")");
                proof {
                    assert(s@ =~= self.spec_display());
                }
                s
            },
        }
    }
}

#[derive(Debug)]
pub struct PortTLV {
    tlv_type: TlvType,
    tlv_length: u16,
    tlv_value: Vec<u8>,
    port_type: PortIDSubType,
    address: String,
}

/// When a Port ID value decodes without error: it must carry a subtype
/// byte, and under the MAC subtype exactly six identifier bytes.
pub open spec fn spec_port_value_ok(value: Seq<u8>) -> bool {
    &&& value.len() >= 1
    &&& (value[0] == 3 ==> value.len() == 7)
}

/// What a decoded Port ID TLV holds for a given value: under subtype 3
/// the identifier renders as a MAC address string, under any other
/// subtype as the literal `Unknown`.
pub open spec fn spec_port_fields(p: PortTLV, value: Seq<u8>) -> bool {
    &&& if value[0] == 3 {
        &&& p.spec_port_type() == PortIDSubType::MACAddress
        &&& p.spec_address() == spec_mac_chars(value.subrange(1, 7))
    } else {
        &&& p.spec_port_type() == PortIDSubType::Unknown(value[0])
        &&& p.spec_address() == "Unknown"@
    }
}

impl PortTLV {
    /// Decodes the subtype byte and, for the MAC subtype, the six
    /// identifier bytes.  A missing subtype byte, or a MAC subtype whose
    /// identifier is not exactly six bytes, is rejected as
    /// `MalformedField`.
    pub fn new(length: u16, value: &[u8]) -> (r: Result<PortTLV, DecodeError>)
        ensures
            r is Ok <==> spec_port_value_ok(value@),
            r is Err ==> r == Result::<PortTLV, DecodeError>::Err(DecodeError::MalformedField),
            r is Ok ==> ({
                let p = r.unwrap();
                &&& p.spec_type() == TlvType::PortID
                &&& p.spec_length() == length
                &&& p.spec_value() == value@
                &&& spec_port_fields(p, value@)
            }),
    {
        if value.len() < 1 {
            return Err(DecodeError::MalformedField);
        }
        let subtype: u8 = value[0];
        if subtype == 3 {
            if value.len() != 7 {
                return Err(DecodeError::MalformedField);
            }
            let mac = MacAddress(
                [value[1], value[2], value[3], value[4], value[5], value[6]],
            );
            proof {
                assert(mac.0@ =~= value@.subrange(1, 7));
            }
            Ok(
                PortTLV {
                    tlv_type: TlvType::PortID,
                    tlv_length: length,
                    tlv_value: slice_to_vec(value),
                    port_type: PortIDSubType::MACAddress,
                    address: mac.to_string(),
                },
            )
        } else {
            Ok(
                PortTLV {
                    tlv_type: TlvType::PortID,
                    tlv_length: length,
                    tlv_value: slice_to_vec(value),
                    port_type: PortIDSubType::Unknown(subtype),
                    address: String::from_str("Unknown"),
                },
            )
        }
    }

    pub closed spec fn spec_port_type(self) -> PortIDSubType {
        self.port_type
    }

    pub closed spec fn spec_address(self) -> Seq<char> {
        self.address@
    }

    pub fn get_port_type(&self) -> (r: &PortIDSubType)
        ensures
            *r == self.spec_port_type(),
    {
        &self.port_type
    }

    pub fn get_address(&self) -> (r: &str)
        ensures
            r@ == self.spec_address(),
    {
        self.address.as_str()
    }

    /// The rendered line: type name, length, subtype and identifier.
    pub open spec fn spec_display(self) -> Seq<char> {
        spec_tlv_prefix(self.spec_type(), self.spec_length()) + " - Port type: "@
            + self.spec_port_type().spec_display() + " - Port id: "@ + self.spec_address()
    }

    pub fn to_string(&self) -> (r: String)
        ensures
            r@ == self.spec_display(),
    {
        let mut s = tlv_prefix(&self.tlv_type, self.tlv_length);
        s.append(" - Port type: ");
        s.append(self.port_type.to_string().as_str());
        s.append(" - Port id: ");
        s.append(self.address.as_str());
        proof {
            assert(s@ =~= self.spec_display());
        }
        s
    }
}

impl TLV for PortTLV {
    closed spec fn spec_type(&self) -> TlvType {
        self.tlv_type
    }

    closed spec fn spec_length(&self) -> u16 {
        self.tlv_length
    }

    closed spec fn spec_value(&self) -> Seq<u8> {
        self.tlv_value@
    }

    fn get_type(&self) -> (r: &TlvType) {
        &self.tlv_type
    }

    fn get_length(&self) -> (r: u16) {
        self.tlv_length
    }

    fn get_value(&self) -> (r: &[u8]) {
        self.tlv_value.as_slice()
    }
}

/// Decodes a Port ID TLV from its length and value bytes.
pub fn new(length: u16, value: &[u8]) -> (r: Result<PortTLV, DecodeError>)
    ensures
        r is Ok <==> spec_port_value_ok(value@),
        r is Err ==> r == Result::<PortTLV, DecodeError>::Err(DecodeError::MalformedField),
        r is Ok ==> ({
            let p = r.unwrap();
            &&& p.spec_type() == TlvType::PortID
            &&& p.spec_length() == length
            &&& p.spec_value() == value@
            &&& spec_port_fields(p, value@)
        }),
{
    PortTLV::new(length, value)
}

} // verus!
