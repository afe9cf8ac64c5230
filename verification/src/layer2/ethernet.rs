//! The Ethernet frame header: destination and source MAC addresses and the
//! EtherType, read from the first 14 bytes of a captured frame.
use vstd::prelude::*;
use vstd::slice::{slice_subrange, slice_to_vec};
use vstd::string::StringExecFns;

use crate::render::{byte_hex, dec_u16, dec_usize, spec_byte_hex, spec_dec_chars};
use crate::wire::{read_u16_be, spec_u16_be};
use crate::DecodeError;
use crate::layer2::Packet;

verus! {

/// A 6-byte hardware address.  Formats as six lowercase two-digit hex
/// octets joined by `:`.
#[derive(Clone, Copy, Debug)]
pub struct MacAddress(pub [u8; 6]);

/// The colon-separated lowercase hex rendering of six address bytes.
pub open spec fn spec_mac_chars(b: Seq<u8>) -> Seq<char>
    recommends
        b.len() == 6,
{
    spec_byte_hex(b[0]) + seq![':'] + spec_byte_hex(b[1]) + seq![':'] + spec_byte_hex(b[2])
        + seq![':'] + spec_byte_hex(b[3]) + seq![':'] + spec_byte_hex(b[4]) + seq![':']
        + spec_byte_hex(b[5])
}

impl MacAddress {
    /// The canonical textual form, e.g. `01:80:c2:00:00:0e`.
    pub fn to_string(&self) -> (r: String)
        ensures
            r@ == spec_mac_chars(self.0@),
    {
        proof {
            reveal_strlit(":");
        }
        let mut s = byte_hex(self.0[0]);
        s.append(":");
        s.append(byte_hex(self.0[1]).as_str());
        s.append(":");
        s.append(byte_hex(self.0[2]).as_str());
        s.append(":");
        s.append(byte_hex(self.0[3]).as_str());
        s.append(":");
        s.append(byte_hex(self.0[4]).as_str());
        s.append(":");
        s.append(byte_hex(self.0[5]).as_str());
        proof {
            assert(s@ =~= spec_mac_chars(self.0@));
        }
        s
    }
}

/// The protocol encapsulated in an Ethernet frame, from the 16-bit
/// EtherType field.
#[derive(Clone, Copy, Debug, PartialEq, Eq, Structural)]
pub enum EtherType {
    LLDP,
    Unknown(u16),
}

/// The classification of a raw EtherType value: `0x88cc` is LLDP,
/// everything else is kept as `Unknown`.
pub open spec fn spec_ether_type_of(v: u16) -> EtherType {
    if v == 0x88cc {
        EtherType::LLDP
    } else {
        EtherType::Unknown(v)
    }
}

impl EtherType {
    fn get_type(t: u16) -> (r: EtherType)
        ensures
            r == spec_ether_type_of(t),
    {
        match t {
            0x88cc => EtherType::LLDP,
            _ => EtherType::Unknown(t),
        }
    }

    /// The textual form: the protocol name, or the raw value in decimal.
    pub open spec fn spec_display(self) -> Seq<char> {
        match self {
            EtherType::LLDP => "LLDP"@,
            EtherType::Unknown(v) => "Unknown ("@ + spec_dec_chars(v as int) + ")"@,
        }
    }

    pub fn to_string(&self) -> (r: String)
        ensures
            r@ == self.spec_display(),
    {
        match self {
            EtherType::LLDP => String::from_str("LLDP"),
            EtherType::Unknown(v) => {
                let mut s = String::from_str("Unknown (");
                s.append(dec_u16(*v).as_str());
                s.append(")");
                proof {
                    assert(s@ =~= self.spec_display());
                }
                s
            },
        }
    }
}

/// Reserved for a VLAN tag; never decoded, so a frame never carries one.
#[derive(Clone, Copy, Debug)]
pub struct Vlan {}

/// What a well-formed 14-byte Ethernet header holds: the two addresses,
/// the classified EtherType and the payload bytes after the header.
pub struct SpecEthernet {
    pub destination: Seq<u8>,
    pub source: Seq<u8>,
    pub ether_type: EtherType,
    pub payload: Seq<u8>,
}

/// The Ethernet header decoder as a function on byte sequences: `None`
/// when fewer than 14 bytes are given, otherwise the destination MAC
/// (bytes 0..6), source MAC (bytes 6..12), classified EtherType (bytes
/// 12..14, big-endian) and the payload (everything after byte 14).
pub open spec fn spec_decode_ethernet(bytes: Seq<u8>) -> Option<SpecEthernet> {
    if bytes.len() < 14 {
        Option::None
    } else {
        Option::Some(
            SpecEthernet {
                destination: bytes.subrange(0, 6),
                source: bytes.subrange(6, 12),
                ether_type: spec_ether_type_of(spec_u16_be(bytes.subrange(12, 14))),
                payload: bytes.subrange(14, bytes.len() as int),
            },
        )
    }
}

/// A decoded Ethernet frame header.  The VLAN tag is never decoded and is
/// always absent.
#[derive(Debug)]
pub struct Ethernet {
    mac_dst: MacAddress,
    mac_src: MacAddress,
    vlan: Option<Vlan>,
    ether_type: EtherType,
    payload: Vec<u8>,
}

impl Ethernet {
    #[verifier::type_invariant]
    spec fn wf(self) -> bool {
        self.payload@.len() + 14 <= usize::MAX
    }

    pub closed spec fn spec_destination(self) -> MacAddress {
        self.mac_dst
    }

    pub closed spec fn spec_source(self) -> MacAddress {
        self.mac_src
    }

    pub closed spec fn spec_ether_type(self) -> EtherType {
        self.ether_type
    }

    pub closed spec fn spec_payload(self) -> Seq<u8> {
        self.payload@
    }

    pub closed spec fn spec_vlan(self) -> Option<Vlan> {
        self.vlan
    }

    pub fn get_ether_type(&self) -> (r: &EtherType)
        ensures
            *r == self.spec_ether_type(),
    {
        &self.ether_type
    }

    pub fn get_payload(&self) -> (r: &[u8])
        ensures
            r@ == self.spec_payload(),
    {
        self.payload.as_slice()
    }

    pub fn get_destination(&self) -> (r: &MacAddress)
        ensures
            *r == self.spec_destination(),
    {
        &self.mac_dst
    }

    pub fn get_source(&self) -> (r: &MacAddress)
        ensures
            *r == self.spec_source(),
    {
        &self.mac_src
    }

    /// The frame header rendered for logging: size, addresses, EtherType.
    pub open spec fn spec_display(self) -> Seq<char> {
        "Ethernet Frame (size: "@ + spec_dec_chars(self.spec_payload().len() as int + 14)
            + ")\nSource: "@ + spec_mac_chars(self.spec_source().0@) + "\nDestination: "@
            + spec_mac_chars(self.spec_destination().0@) + "\nEthertype: "@
            + self.spec_ether_type().spec_display()
    }

    pub fn to_string(&self) -> (r: String)
        ensures
            r@ == self.spec_display(),
    {
        let mut s = String::from_str("Ethernet Frame (size: ");
        s.append(dec_usize(self.get_size()).as_str());
        s.append(")\nSource: ");
        s.append(self.mac_src.to_string().as_str());
        s.append("\nDestination: ");
        s.append(self.mac_dst.to_string().as_str());
        s.append("\nEthertype: ");
        s.append(self.ether_type.to_string().as_str());
        proof {
            assert(s@ =~= self.spec_display());
        }
        s
    }
}

impl Packet for Ethernet {
    fn get_size(&self) -> (r: usize)
        ensures
            r == self.spec_payload().len() + 14,
    {
        proof {
            use_type_invariant(self);
        }
        self.payload.len() + 14
    }
}

/// Decodes the 14-byte Ethernet header.  A shorter buffer is rejected as
/// `TruncatedFrame`; nothing else can fail.
pub fn new(bytes: &[u8]) -> (r: Result<Ethernet, DecodeError>)
    ensures
        r is Ok <==> spec_decode_ethernet(bytes@) is Some,
        r is Err ==> r == Result::<Ethernet, DecodeError>::Err(DecodeError::TruncatedFrame),
        r is Ok ==> ({
            let e = r.unwrap();
            let m = spec_decode_ethernet(bytes@).unwrap();
            &&& e.spec_destination().0@ == m.destination
            &&& e.spec_source().0@ == m.source
            &&& e.spec_ether_type() == m.ether_type
            &&& e.spec_payload() == m.payload
            &&& e.spec_vlan() is None
        }),
{
    if bytes.len() < 14 {
        return Err(DecodeError::TruncatedFrame);
    }
    let mac_dst = MacAddress([bytes[0], bytes[1], bytes[2], bytes[3], bytes[4], bytes[5]]);
    let mac_src = MacAddress([bytes[6], bytes[7], bytes[8], bytes[9], bytes[10], bytes[11]]);
    let ether_type = EtherType::get_type(read_u16_be(slice_subrange(bytes, 12, 14)));
    let payload = slice_to_vec(slice_subrange(bytes, 14, bytes.len()));
    proof {
        assert(mac_dst.0@ =~= bytes@.subrange(0, 6));
        assert(mac_src.0@ =~= bytes@.subrange(6, 12));
        assert(spec_u16_be(bytes@.subrange(12, 14)) as int == (bytes@[12] as int) * 256 + (
        bytes@[13] as int));
    }
    Ok(Ethernet { mac_dst, mac_src, vlan: None, ether_type, payload })
}

/// The big-endian byte pair that encodes a 16-bit value.
pub open spec fn spec_u16_be_bytes(v: u16) -> Seq<u8> {
    seq![(v / 256) as u8, (v % 256) as u8]
}

/// Decoding recovers an Ethernet header exactly as encoded: a frame built
/// as destination, source, big-endian EtherType and arbitrary payload
/// decodes to those very fields, and the two addresses render to the same
/// MAC strings they were built from.
pub proof fn lemma_ethernet_round_trip(dst: Seq<u8>, src: Seq<u8>, et: u16, payload: Seq<u8>)
    requires
        dst.len() == 6,
        src.len() == 6,
    ensures
        ({
            let bytes = dst + src + spec_u16_be_bytes(et) + payload;
            let m = spec_decode_ethernet(bytes);
            &&& m is Some
            &&& m.unwrap().destination == dst
            &&& m.unwrap().source == src
            &&& m.unwrap().ether_type == spec_ether_type_of(et)
            &&& m.unwrap().payload == payload
            &&& spec_mac_chars(m.unwrap().destination) == spec_mac_chars(dst)
            &&& spec_mac_chars(m.unwrap().source) == spec_mac_chars(src)
        }),
{
    let bytes = dst + src + spec_u16_be_bytes(et) + payload;
    assert(bytes.len() == 14 + payload.len());
    let m = spec_decode_ethernet(bytes).unwrap();
    assert(m.destination =~= dst);
    assert(m.source =~= src);
    assert(bytes.subrange(12, 14) =~= spec_u16_be_bytes(et));
    assert(spec_u16_be(spec_u16_be_bytes(et)) == et) by {
        assert((et / 256) as int * 256 + (et % 256) as int == et);
    }
    assert(m.payload =~= payload);
}

} // verus!
