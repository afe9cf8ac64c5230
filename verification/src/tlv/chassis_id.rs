//! The Chassis ID TLV (type 1): the value is kept verbatim; the subtype
//! byte is not further decoded.
use vstd::prelude::*;
use vstd::slice::slice_to_vec;

use crate::tlv::{spec_tlv_prefix, tlv_prefix, TlvType, TLV};

verus! {

#[derive(Debug)]
pub struct ChassisIdTLV {
    tlv_type: TlvType,
    tlv_length: u16,
    tlv_value: Vec<u8>,
}

impl ChassisIdTLV {
    /// Keeps the raw value as an opaque chassis identifier; this decoder
    /// cannot fail.
    pub fn new(length: u16, value: &[u8]) -> (r: ChassisIdTLV)
        ensures
            r.spec_type() == TlvType::ChassisID,
            r.spec_length() == length,
            r.spec_value() == value@,
    {
        ChassisIdTLV {
            tlv_type: TlvType::ChassisID,
            tlv_length: length,
            tlv_value: slice_to_vec(value),
        }
    }

    /// The rendered line: type name and length.
    pub open spec fn spec_display(self) -> Seq<char> {
        spec_tlv_prefix(self.spec_type(), self.spec_length())
    }

    pub fn to_string(&self) -> (r: String)
        ensures
            r@ == self.spec_display(),
    {
        tlv_prefix(&self.tlv_type, self.tlv_length)
    }
}

impl TLV for ChassisIdTLV {
    closed spec fn spec_type(&self) -> TlvType {
        self.tlv_type
    }

    closed spec fn spec_length(&self) -> u16 {
        self.tlv_length
    }

    closed spec fn spec_value(&self) -> Seq<u8> {
        self.tlv_value@
    }

    fn get_type(&self) -> (r: &TlvType) {
        &self.tlv_type
    }

    fn get_length(&self) -> (r: u16) {
        self.tlv_length
    }

    fn get_value(&self) -> (r: &[u8]) {
        self.tlv_value.as_slice()
    }
}

/// Decodes a Chassis ID TLV from its length and value bytes.
pub fn new(length: u16, value: &[u8]) -> (r: ChassisIdTLV)
    ensures
        r.spec_type() == TlvType::ChassisID,
        r.spec_length() == length,
        r.spec_value() == value@,
{
    ChassisIdTLV::new(length, value)
}

} // verus!
