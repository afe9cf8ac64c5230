//! The Management Address TLV (type 8): an address string length, an
//! address subtype, and for the IPv4 subtype a 4-byte address rendered
//! as dotted-decimal text.  The interface and OID fields that follow in
//! the full protocol layout are not decoded.
use vstd::prelude::*;
use vstd::slice::slice_to_vec;
use vstd::string::StringExecFns;

use crate::render::{dec_u8, ipv4_string, spec_dec_chars, spec_ipv4_chars};
use crate::tlv::{spec_tlv_prefix, tlv_prefix, TlvType, TLV};
use crate::DecodeError;

verus! {

/// How the management address bytes are to be read.
#[derive(Clone, Copy, Debug, PartialEq, Eq, Structural)]
pub enum AddressSubType {
    IPv4,
    Unknown(u8),
}

impl AddressSubType {
    /// The textual form: the subtype name, or the raw code in decimal.
    pub open spec fn spec_display(self) -> Seq<char> {
        match self {
            AddressSubType::IPv4 => "IPv4"@,
            AddressSubType::Unknown(t) => "Unknown ("@ + spec_dec_chars(t as int) + ")"@,
        }
    }

    pub fn to_string(&self) -> (r: String)
        ensures
            r@ == self.spec_display(),
    {
        match self {
            AddressSubType::IPv4 => String::from_str("IPv4"),
            AddressSubType::Unknown(t) => {
                let mut s = String::from_str("Unknown (");
                s.append(dec_u8(*t).as_str());
                s.append(")");
                proof {
                    assert(s@ =~= self.spec_display());
                }
                s
            },
        }
    }
}

#[derive(Debug)]
pub struct ManagementAddressTLV {
    tlv_type: TlvType,
    tlv_length: u16,
    tlv_value: Vec<u8>,
    management_string_length: u8,
    address_subtype: AddressSubType,
    management_address: String,
}

/// When a Management Address value decodes without error: it must carry
/// the length and subtype bytes, and under the IPv4 subtype four address
/// bytes after them.
pub open spec fn spec_mgmt_value_ok(value: Seq<u8>) -> bool {
    &&& value.len() >= 2
    &&& (value[1] == 1 ==> value.len() >= 6)
}

/// What a decoded Management Address TLV holds for a given value: under
/// subtype 1 the four address bytes render as dotted-decimal text, under
/// any other subtype as the literal `Unknown`.
pub open spec fn spec_mgmt_fields(m: ManagementAddressTLV, value: Seq<u8>) -> bool {
    &&& m.spec_string_length() == value[0]
    &&& if value[1] == 1 {
        &&& m.spec_subtype() == AddressSubType::IPv4
        &&& m.spec_address() == spec_ipv4_chars(value[2], value[3], value[4], value[5])
    } else {
        &&& m.spec_subtype() == AddressSubType::Unknown(value[1])
        &&& m.spec_address() == "Unknown"@
    }
}

impl ManagementAddressTLV {
    /// Decodes the address string length, the subtype, and for IPv4 the
    /// dotted-decimal address.  A value too short for those fields is
    /// rejected as `MalformedField`.
    pub fn new(length: u16, value: &[u8]) -> (r: Result<ManagementAddressTLV, DecodeError>)
        ensures
            r is Ok <==> spec_mgmt_value_ok(value@),
            r is Err ==> r == Result::<ManagementAddressTLV, DecodeError>::Err(
                DecodeError::MalformedField,
            ),
            r is Ok ==> ({
                let m = r.unwrap();
                &&& m.spec_type() == TlvType::ManagementAddress
                &&& m.spec_length() == length
                &&& m.spec_value() == value@
                &&& spec_mgmt_fields(m, value@)
            }),
    {
        if value.len() < 2 {
            return Err(DecodeError::MalformedField);
        }
        let subtype_code: u8 = value[1];
        if subtype_code == 1 {
            if value.len() < 6 {
                return Err(DecodeError::MalformedField);
            }
            Ok(
                ManagementAddressTLV {
                    tlv_type: TlvType::ManagementAddress,
                    tlv_length: length,
                    tlv_value: slice_to_vec(value),
                    management_string_length: value[0],
                    address_subtype: AddressSubType::IPv4,
                    management_address: ipv4_string(value[2], value[3], value[4], value[5]),
                },
            )
        } else {
            Ok(
                ManagementAddressTLV {
                    tlv_type: TlvType::ManagementAddress,
                    tlv_length: length,
                    tlv_value: slice_to_vec(value),
                    management_string_length: value[0],
                    address_subtype: AddressSubType::Unknown(subtype_code),
                    management_address: String::from_str("Unknown"),
                },
            )
        }
    }

    pub closed spec fn spec_string_length(self) -> u8 {
        self.management_string_length
    }

    pub closed spec fn spec_subtype(self) -> AddressSubType {
        self.address_subtype
    }

    pub closed spec fn spec_address(self) -> Seq<char> {
        self.management_address@
    }

    pub fn get_string_length(&self) -> (r: u8)
        ensures
            r == self.spec_string_length(),
    {
        self.management_string_length
    }

    pub fn get_subtype(&self) -> (r: &AddressSubType)
        ensures
            *r == self.spec_subtype(),
    {
        &self.address_subtype
    }

    pub fn get_address(&self) -> (r: &str)
        ensures
            r@ == self.spec_address(),
    {
        self.management_address.as_str()
    }

    /// The rendered line: type name, length, subtype and address.
    pub open spec fn spec_display(self) -> Seq<char> {
        spec_tlv_prefix(self.spec_type(), self.spec_length()) + " - Address Type: "@
            + self.spec_subtype().spec_display() + " - Address: "@ + self.spec_address()
    }

    pub fn to_string(&self) -> (r: String)
        ensures
            r@ == self.spec_display(),
    {
        let mut s = tlv_prefix(&self.tlv_type, self.tlv_length);
        s.append(" - Address Type: ");
        s.append(self.address_subtype.to_string().as_str());
        s.append(" - Address: ");
        s.append(self.management_address.as_str());
        proof {
            assert(s@ =~= self.spec_display());
        }
        s
    }
}

impl TLV for ManagementAddressTLV {
    closed spec fn spec_type(&self) -> TlvType {
        self.tlv_type
    }

    closed spec fn spec_length(&self) -> u16 {
        self.tlv_length
    }

    closed spec fn spec_value(&self) -> Seq<u8> {
        self.tlv_value@
    }

    fn get_type(&self) -> (r: &TlvType) {
        &self.tlv_type
    }

    fn get_length(&self) -> (r: u16) {
        self.tlv_length
    }

    fn get_value(&self) -> (r: &[u8]) {
        self.tlv_value.as_slice()
    }
}

/// Decodes a Management Address TLV from its length and value bytes.
pub fn new(length: u16, value: &[u8]) -> (r: Result<ManagementAddressTLV, DecodeError>)
    ensures
        r is Ok <==> spec_mgmt_value_ok(value@),
        r is Err ==> r == Result::<ManagementAddressTLV, DecodeError>::Err(
            DecodeError::MalformedField,
        ),
        r is Ok ==> ({
            let m = r.unwrap();
            &&& m.spec_type() == TlvType::ManagementAddress
            &&& m.spec_length() == length
            &&& m.spec_value() == value@
            &&& spec_mgmt_fields(m, value@)
        }),
{
    ManagementAddressTLV::new(length, value)
}

} // verus!
