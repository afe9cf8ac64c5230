//! The System Name TLV (type 5): the value is UTF-8 text naming the
//! advertising system.
use vstd::prelude::*;
use vstd::slice::slice_to_vec;
use vstd::string::StringExecFns;
use vstd::utf8::{decode_utf8, valid_utf8};

use crate::tlv::{spec_tlv_prefix, tlv_prefix, TlvType, TLV};
use crate::wire::utf8_to_string;
use crate::DecodeError;

verus! {

#[derive(Debug)]
pub struct SystemName {
    tlv_type: TlvType,
    tlv_length: u16,
    tlv_value: Vec<u8>,
    name: String,
}

impl SystemName {
    /// Decodes the value as UTF-8 text.  A value that is not valid UTF-8
    /// is rejected as `InvalidEncoding`.
    pub fn new(length: u16, value: &[u8]) -> (r: Result<SystemName, DecodeError>)
        ensures
            r is Ok <==> valid_utf8(value@),
            r is Err ==> r == Result::<SystemName, DecodeError>::Err(DecodeError::InvalidEncoding),
            r is Ok ==> ({
                let t = r.unwrap();
                &&& t.spec_type() == TlvType::SystemName
                &&& t.spec_length() == length
                &&& t.spec_value() == value@
                &&& t.spec_name() == decode_utf8(value@)
            }),
    {
        match utf8_to_string(value) {
            Some(name) => Ok(
                SystemName {
                    tlv_type: TlvType::SystemName,
                    tlv_length: length,
                    tlv_value: slice_to_vec(value),
                    name,
                },
            ),
            None => Err(DecodeError::InvalidEncoding),
        }
    }

    pub closed spec fn spec_name(self) -> Seq<char> {
        self.name@
    }

    pub fn get_name(&self) -> (r: &str)
        ensures
            r@ == self.spec_name(),
    {
        self.name.as_str()
    }

    /// The rendered line: type name, length and the decoded text.
    pub open spec fn spec_display(self) -> Seq<char> {
        spec_tlv_prefix(self.spec_type(), self.spec_length()) + " - Name: "@ + self.spec_name()
    }

    pub fn to_string(&self) -> (r: String)
        ensures
            r@ == self.spec_display(),
    {
        let mut s = tlv_prefix(&self.tlv_type, self.tlv_length);
        s.append(" - Name: ");
        s.append(self.name.as_str());
        proof {
            assert(s@ =~= self.spec_display());
        }
        s
    }
}

impl TLV for SystemName {
    closed spec fn spec_type(&self) -> TlvType {
        self.tlv_type
    }

    closed spec fn spec_length(&self) -> u16 {
        self.tlv_length
    }

    closed spec fn spec_value(&self) -> Seq<u8> {
        self.tlv_value@
    }

    fn get_type(&self) -> (r: &TlvType) {
        &self.tlv_type
    }

    fn get_length(&self) -> (r: u16) {
        self.tlv_length
    }

    fn get_value(&self) -> (r: &[u8]) {
        self.tlv_value.as_slice()
    }
}

/// Decodes a System Name TLV from its length and value bytes.
pub fn new(length: u16, value: &[u8]) -> (r: Result<SystemName, DecodeError>)
    ensures
        r is Ok <==> valid_utf8(value@),
        r is Err ==> r == Result::<SystemName, DecodeError>::Err(DecodeError::InvalidEncoding),
        r is Ok ==> ({
            let t = r.unwrap();
            &&& t.spec_type() == TlvType::SystemName
            &&& t.spec_length() == length
            &&& t.spec_value() == value@
            &&& t.spec_name() == decode_utf8(value@)
        }),
{
    SystemName::new(length, value)
}

} // verus!
