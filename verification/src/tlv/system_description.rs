//! The System Description TLV (type 6): the value is UTF-8 text describing the
//! advertising system.
use vstd::prelude::*;
use vstd::slice::slice_to_vec;
use vstd::string::StringExecFns;
use vstd::utf8::{decode_utf8, valid_utf8};

use crate::tlv::{spec_tlv_prefix, tlv_prefix, TlvType, TLV};
use crate::wire::utf8_to_string;
use crate::DecodeError;

verus! {

#[derive(Debug)]
pub struct SystemDescription {
    tlv_type: TlvType,
    tlv_length: u16,
    tlv_value: Vec<u8>,
    description: String,
}

impl SystemDescription {
    /// Decodes the value as UTF-8 text.  A value that is not valid UTF-8
    /// is rejected as `InvalidEncoding`.
    pub fn new(length: u16, value: &[u8]) -> (r: Result<SystemDescription, DecodeError>)
        ensures
            r is Ok <==> valid_utf8(value@),
            r is Err ==> r == Result::<SystemDescription, DecodeError>::Err(DecodeError::InvalidEncoding),
            r is Ok ==> ({
                let t = r.unwrap();
                &&& t.spec_type() == TlvType::SystemDescription
                &&& t.spec_length() == length
                &&& t.spec_value() == value@
                &&& t.spec_description() == decode_utf8(value@)
            }),
    {
        match utf8_to_string(value) {
            Some(description) => Ok(
                SystemDescription {
                    tlv_type: TlvType::SystemDescription,
                    tlv_length: length,
                    tlv_value: slice_to_vec(value),
                    description,
                },
            ),
            None => Err(DecodeError::InvalidEncoding),
        }
    }

    pub closed spec fn spec_description(self) -> Seq<char> {
        self.description@
    }

    pub fn get_description(&self) -> (r: &str)
        ensures
            r@ == self.spec_description(),
    {
        self.description.as_str()
    }

    /// The rendered line: type name, length and the decoded text.
    pub open spec fn spec_display(self) -> Seq<char> {
        spec_tlv_prefix(self.spec_type(), self.spec_length()) + " - Description: "@ + self.spec_description()
    }

    pub fn to_string(&self) -> (r: String)
        ensures
            r@ == self.spec_display(),
    {
        let mut s = tlv_prefix(&self.tlv_type, self.tlv_length);
        s.append(" - Description: ");
        s.append(self.description.as_str());
        proof {
            assert(s@ =~= self.spec_display());
        }
        s
    }
}

impl TLV for SystemDescription {
    closed spec fn spec_type(&self) -> TlvType {
        self.tlv_type
    }

    closed spec fn spec_length(&self) -> u16 {
        self.tlv_length
    }

    closed spec fn spec_value(&self) -> Seq<u8> {
        self.tlv_value@
    }

    fn get_type(&self) -> (r: &TlvType) {
        &self.tlv_type
    }

    fn get_length(&self) -> (r: u16) {
        self.tlv_length
    }

    fn get_value(&self) -> (r: &[u8]) {
        self.tlv_value.as_slice()
    }
}

/// Decodes a System Description TLV from its length and value bytes.
pub fn new(length: u16, value: &[u8]) -> (r: Result<SystemDescription, DecodeError>)
    ensures
        r is Ok <==> valid_utf8(value@),
        r is Err ==> r == Result::<SystemDescription, DecodeError>::Err(DecodeError::InvalidEncoding),
        r is Ok ==> ({
            let t = r.unwrap();
            &&& t.spec_type() == TlvType::SystemDescription
            &&& t.spec_length() == length
            &&& t.spec_value() == value@
            &&& t.spec_description() == decode_utf8(value@)
        }),
{
    SystemDescription::new(length, value)
}

} // verus!
