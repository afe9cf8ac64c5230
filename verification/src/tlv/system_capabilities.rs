//! The System Capabilities TLV (type 7): two 8-flag bitmaps, the
//! advertised capabilities from value byte 1 and the enabled ones from
//! value byte 3 (bytes 0 and 2 are reserved in this layout).
use vstd::prelude::*;
use vstd::slice::slice_to_vec;
use vstd::string::StringExecFns;

use crate::render::{byte_hex, spec_byte_hex};
use crate::tlv::{spec_tlv_prefix, tlv_prefix, TlvType, TLV};
use crate::DecodeError;

verus! {

/// One capability bitmap, in bit order 0 through 7: Other, Repeater,
/// Bridge, WLAN access point, Router, Telephone, DOCSIS, Station only.
#[derive(Clone, Copy, Debug, PartialEq, Eq, Structural)]
pub struct CapabilityFlags {
    pub other: bool,
    pub repeater: bool,
    pub bridge: bool,
    pub wlan_access_point: bool,
    pub router: bool,
    pub telephone: bool,
    pub docsis: bool,
    pub station_only: bool,
}

/// The bitmap a capability byte decodes to: flag `k` is bit `k`.
pub open spec fn spec_flags_of(b: u8) -> CapabilityFlags {
    CapabilityFlags {
        other: b & 1 == 1,
        repeater: (b >> 1) & 1 == 1,
        bridge: (b >> 2) & 1 == 1,
        wlan_access_point: (b >> 3) & 1 == 1,
        router: (b >> 4) & 1 == 1,
        telephone: (b >> 5) & 1 == 1,
        docsis: (b >> 6) & 1 == 1,
        station_only: (b >> 7) & 1 == 1,
    }
}

/// Reads the eight flags out of one capability byte.
pub fn flags_of(b: u8) -> (r: CapabilityFlags)
    ensures
        r == spec_flags_of(b),
{
    CapabilityFlags {
        other: b & 1 == 1,
        repeater: (b >> 1) & 1 == 1,
        bridge: (b >> 2) & 1 == 1,
        wlan_access_point: (b >> 3) & 1 == 1,
        router: (b >> 4) & 1 == 1,
        telephone: (b >> 5) & 1 == 1,
        docsis: (b >> 6) & 1 == 1,
        station_only: (b >> 7) & 1 == 1,
    }
}

#[derive(Debug)]
pub struct SystemCapabilities {
    tlv_type: TlvType,
    tlv_length: u16,
    tlv_value: Vec<u8>,
    capabilities: CapabilityFlags,
    enabled: CapabilityFlags,
    capability_byte: u8,
    enabled_byte: u8,
}

impl SystemCapabilities {
    /// Decodes the two bitmaps.  A value shorter than the four bytes the
    /// layout requires is rejected as `MalformedField`.
    pub fn new(length: u16, value: &[u8]) -> (r: Result<SystemCapabilities, DecodeError>)
        ensures
            r is Ok <==> value@.len() >= 4,
            r is Err ==> r == Result::<SystemCapabilities, DecodeError>::Err(
                DecodeError::MalformedField,
            ),
            r is Ok ==> ({
                let c = r.unwrap();
                &&& c.spec_type() == TlvType::SystemCapabilities
                &&& c.spec_length() == length
                &&& c.spec_value() == value@
                &&& c.spec_capabilities() == spec_flags_of(value@[1])
                &&& c.spec_enabled() == spec_flags_of(value@[3])
            }),
    {
        if value.len() < 4 {
            return Err(DecodeError::MalformedField);
        }
        Ok(
            SystemCapabilities {
                tlv_type: TlvType::SystemCapabilities,
                tlv_length: length,
                tlv_value: slice_to_vec(value),
                capabilities: flags_of(value[1]),
                enabled: flags_of(value[3]),
                capability_byte: value[1],
                enabled_byte: value[3],
            },
        )
    }

    pub closed spec fn spec_capabilities(self) -> CapabilityFlags {
        self.capabilities
    }

    pub closed spec fn spec_enabled(self) -> CapabilityFlags {
        self.enabled
    }

    pub closed spec fn spec_capability_byte(self) -> u8 {
        self.capability_byte
    }

    pub closed spec fn spec_enabled_byte(self) -> u8 {
        self.enabled_byte
    }

    pub fn get_capabilities(&self) -> (r: &CapabilityFlags)
        ensures
            *r == self.spec_capabilities(),
    {
        &self.capabilities
    }

    pub fn get_enabled(&self) -> (r: &CapabilityFlags)
        ensures
            *r == self.spec_enabled(),
    {
        &self.enabled
    }

    /// The rendered line: type name, length and the two bitmap bytes in
    /// hex.
    pub open spec fn spec_display(self) -> Seq<char> {
        spec_tlv_prefix(self.spec_type(), self.spec_length()) + " - Capabilities: 0x"@
            + spec_byte_hex(self.spec_capability_byte()) + " - Enabled: 0x"@ + spec_byte_hex(
            self.spec_enabled_byte(),
        )
    }

    pub fn to_string(&self) -> (r: String)
        ensures
            r@ == self.spec_display(),
    {
        let mut s = tlv_prefix(&self.tlv_type, self.tlv_length);
        s.append(" - Capabilities: 0x");
        s.append(byte_hex(self.capability_byte).as_str());
        s.append(" - Enabled: 0x");
        s.append(byte_hex(self.enabled_byte).as_str());
        proof {
            assert(s@ =~= self.spec_display());
        }
        s
    }
}

impl TLV for SystemCapabilities {
    closed spec fn spec_type(&self) -> TlvType {
        self.tlv_type
    }

    closed spec fn spec_length(&self) -> u16 {
        self.tlv_length
    }

    closed spec fn spec_value(&self) -> Seq<u8> {
        self.tlv_value@
    }

    fn get_type(&self) -> (r: &TlvType) {
        &self.tlv_type
    }

    fn get_length(&self) -> (r: u16) {
        self.tlv_length
    }

    fn get_value(&self) -> (r: &[u8]) {
        self.tlv_value.as_slice()
    }
}

/// Decodes a System Capabilities TLV from its length and value bytes.
pub fn new(length: u16, value: &[u8]) -> (r: Result<SystemCapabilities, DecodeError>)
    ensures
        r is Ok <==> value@.len() >= 4,
        r is Err ==> r == Result::<SystemCapabilities, DecodeError>::Err(
            DecodeError::MalformedField,
        ),
        r is Ok ==> ({
            let c = r.unwrap();
            &&& c.spec_type() == TlvType::SystemCapabilities
            &&& c.spec_length() == length
            &&& c.spec_value() == value@
            &&& c.spec_capabilities() == spec_flags_of(value@[1])
            &&& c.spec_enabled() == spec_flags_of(value@[3])
        }),
{
    SystemCapabilities::new(length, value)
}

} // verus!
