//! Link-layer decoding: the Ethernet frame header and the LLDP payload.
use vstd::prelude::*;

pub mod ethernet;
pub mod lldp;

verus! {

/// A decoded link-layer packet with a known encoded size.
pub trait Packet {
    fn get_size(&self) -> usize;
}

} // verus!
