//! Decoder for captured link-layer frames carrying LLDP.
//!
//! The crate turns a raw byte buffer holding an Ethernet frame into a
//! structured description of the frame header and, for LLDP payloads, the
//! ordered sequence of TLV records it carries.  Decoding is a pure function
//! of the input bytes: every decoder here is verified to return exactly the
//! fields the wire format dictates, and never to panic or read out of
//! bounds.  Live capture and printing sit outside this crate.
use vstd::prelude::*;

pub mod layer2;
mod render;
pub mod tlv;
mod wire;

verus! {

/// Why a frame or a TLV could not be decoded.
///
/// - `TruncatedFrame`: the input buffer is shorter than a fixed header
///   requires (14 bytes for Ethernet).
/// - `TruncatedTlv`: a TLV's declared length extends past the remaining
///   payload bytes.
/// - `InvalidEncoding`: a text-bearing TLV's value is not valid UTF-8.
/// - `MalformedField`: a fixed-shape field does not have the exact
///   expected length.
#[derive(Clone, Copy, Debug, PartialEq, Eq, Structural)]
pub enum DecodeError {
    TruncatedFrame,
    TruncatedTlv,
    InvalidEncoding,
    MalformedField,
}

/// Entry point for a capture-driven session.  The capture loop itself does
/// I/O and lives outside this crate; the parser only hands out the decoding
/// logic below.
pub struct NetParser {}

impl NetParser {
    pub fn new() -> NetParser {
        NetParser {}
    }
}

} // verus!
