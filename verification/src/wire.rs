//! Wire-format primitives that lean on outside code: big-endian integer
//! reads (byteorder) and UTF-8 validation (std).  Everything else in the
//! crate is verified against the contracts stated here.
use vstd::prelude::*;
use vstd::utf8::{decode_utf8, valid_utf8};

verus! {

/// The big-endian 16-bit value of the first two bytes of a sequence.
pub open spec fn spec_u16_be(b: Seq<u8>) -> u16
    recommends
        b.len() >= 2,
{
    ((b[0] as int) * 256 + (b[1] as int)) as u16
}

/// Relies on byteorder's `BigEndian::read_u16`: the first two bytes of the
/// buffer read as a big-endian unsigned 16-bit integer.  It panics when the
/// buffer is shorter than two bytes, so that case is excluded here.
#[verifier::external_body]
pub(crate) fn read_u16_be(b: &[u8]) -> (r: u16)
    requires
        b@.len() >= 2,
    ensures
        r as int == (b@[0] as int) * 256 + (b@[1] as int),
{
    <byteorder::BigEndian as byteorder::ByteOrder>::read_u16(b)
}

/// Relies on std's `str::from_utf8`: it returns `Ok` exactly when the bytes
/// are valid UTF-8, and the resulting string holds the characters those
/// bytes encode.
#[verifier::external_body]
pub(crate) fn utf8_to_string(b: &[u8]) -> (r: Option<String>)
    ensures
        r is Some <==> valid_utf8(b@),
        r is Some ==> r.unwrap()@ == decode_utf8(b@),
{
    match core::str::from_utf8(b) {
        Ok(s) => Some(s.to_string()),
        Err(_) => None,
    }
}

} // verus!
