//! The Time To Live TLV (type 3): a big-endian 16-bit count of seconds,
//! decoded from a value that must be exactly two bytes.
use vstd::prelude::*;
use vstd::slice::slice_to_vec;
use vstd::string::StringExecFns;

use crate::render::dec_u16;
use crate::render::spec_dec_chars;
use crate::tlv::{spec_tlv_prefix, tlv_prefix, TlvType, TLV};
use crate::wire::spec_u16_be;
use crate::DecodeError;

verus! {

#[derive(Debug)]
pub struct TimeToLiveTLV {
    tlv_type: TlvType,
    tlv_length: u16,
    tlv_value: Vec<u8>,
    ttl: u16,
}

impl TimeToLiveTLV {
    /// Decodes the seconds field.  A value that is not exactly two bytes
    /// long is rejected as `MalformedField`.
    pub fn new(length: u16, value: &[u8]) -> (r: Result<TimeToLiveTLV, DecodeError>)
        ensures
            r is Ok <==> value@.len() == 2,
            r is Err ==> r == Result::<TimeToLiveTLV, DecodeError>::Err(
                DecodeError::MalformedField,
            ),
            r is Ok ==> ({
                let t = r.unwrap();
                &&& t.spec_type() == TlvType::TimeToLive
                &&& t.spec_length() == length
                &&& t.spec_value() == value@
                &&& t.spec_seconds() == spec_u16_be(value@)
            }),
    {
        if value.len() != 2 {
            return Err(DecodeError::MalformedField);
        }
        let ttl: u16 = (value[0] as u16) * 256 + (value[1] as u16);
        Ok(
            TimeToLiveTLV {
                tlv_type: TlvType::TimeToLive,
                tlv_length: length,
                tlv_value: slice_to_vec(value),
                ttl,
            },
        )
    }

    pub closed spec fn spec_seconds(self) -> u16 {
        self.ttl
    }

    pub fn get_seconds(&self) -> (r: u16)
        ensures
            r == self.spec_seconds(),
    {
        self.ttl
    }

    /// The rendered line: type name, length and the seconds field.
    pub open spec fn spec_display(self) -> Seq<char> {
        spec_tlv_prefix(self.spec_type(), self.spec_length()) + " - Seconds: "@ + spec_dec_chars(
            self.spec_seconds() as int,
        )
    }

    pub fn to_string(&self) -> (r: String)
        ensures
            r@ == self.spec_display(),
    {
        let mut s = tlv_prefix(&self.tlv_type, self.tlv_length);
        s.append(" - Seconds: ");
        s.append(dec_u16(self.ttl).as_str());
        proof {
            assert(s@ =~= self.spec_display());
        }
        s
    }
}

impl TLV for TimeToLiveTLV {
    closed spec fn spec_type(&self) -> TlvType {
        self.tlv_type
    }

    closed spec fn spec_length(&self) -> u16 {
        self.tlv_length
    }

    closed spec fn spec_value(&self) -> Seq<u8> {
        self.tlv_value@
    }

    fn get_type(&self) -> (r: &TlvType) {
        &self.tlv_type
    }

    fn get_length(&self) -> (r: u16) {
        self.tlv_length
    }

    fn get_value(&self) -> (r: &[u8]) {
        self.tlv_value.as_slice()
    }
}

/// Decodes a Time To Live TLV from its length and value bytes.
pub fn new(length: u16, value: &[u8]) -> (r: Result<TimeToLiveTLV, DecodeError>)
    ensures
        r is Ok <==> value@.len() == 2,
        r is Err ==> r == Result::<TimeToLiveTLV, DecodeError>::Err(DecodeError::MalformedField),
        r is Ok ==> ({
            let t = r.unwrap();
            &&& t.spec_type() == TlvType::TimeToLive
            &&& t.spec_length() == length
            &&& t.spec_value() == value@
            &&& t.spec_seconds() == spec_u16_be(value@)
        }),
{
    TimeToLiveTLV::new(length, value)
}

} // verus!
