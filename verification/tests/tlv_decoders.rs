use rust_lldp::tlv::{
    chassis_id, management_address, port_id, system_capabilities, system_description, system_name,
    ttl, unknown, AddressSubType, PortDescriptionTLV, PortIDSubType, TlvType, TLV,
};
use rust_lldp::DecodeError;

#[test]
fn ttl_decodes_big_endian_seconds() {
    let t = ttl::new(2, &[0x00, 0x78]).unwrap();
    assert_eq!(t.get_seconds(), 120);
    assert_eq!(*t.get_type(), TlvType::TimeToLive);
    assert_eq!(t.get_length(), 2);
    assert_eq!(t.get_value(), &[0x00, 0x78]);
}

#[test]
fn ttl_uses_both_bytes() {
    let t = ttl::new(2, &[0x01, 0x02]).unwrap();
    assert_eq!(t.get_seconds(), 258);
}

#[test]
fn ttl_rejects_wrong_size() {
    assert_eq!(ttl::new(1, &[0x78]).unwrap_err(), DecodeError::MalformedField);
    assert_eq!(ttl::new(3, &[0, 0x78, 1]).unwrap_err(), DecodeError::MalformedField);
    assert_eq!(ttl::new(0, &[]).unwrap_err(), DecodeError::MalformedField);
}

#[test]
fn ttl_display_line() {
    let t = ttl::new(2, &[0x00, 0x78]).unwrap();
    assert_eq!(t.to_string(), "Time to Live (length 2) - Seconds: 120");
}

#[test]
fn port_id_mac_subtype() {
    let value = [0x03, 0xdc, 0x39, 0x6f, 0x56, 0x6f, 0x56];
    let p = port_id::new(7, &value).unwrap();
    assert_eq!(*p.get_port_type(), PortIDSubType::MACAddress);
    assert_eq!(p.get_address(), "dc:39:6f:56:6f:56");
    assert_eq!(*p.get_type(), TlvType::PortID);
    assert_eq!(p.get_length(), 7);
    assert_eq!(p.get_value(), &value);
}

#[test]
fn port_id_unknown_subtype() {
    let p = port_id::new(3, &[0x07, 0x41, 0x42]).unwrap();
    assert_eq!(*p.get_port_type(), PortIDSubType::Unknown(7));
    assert_eq!(p.get_address(), "Unknown");
}

#[test]
fn port_id_rejects_bad_shapes() {
    assert_eq!(port_id::new(0, &[]).unwrap_err(), DecodeError::MalformedField);
    let short_mac = [0x03, 0xdc, 0x39];
    assert_eq!(port_id::new(3, &short_mac).unwrap_err(), DecodeError::MalformedField);
}

#[test]
fn chassis_id_keeps_value_verbatim() {
    let value = [0x04, 0xaa, 0xbb, 0xcc, 0xdd, 0xee, 0xff];
    let c = chassis_id::new(7, &value);
    assert_eq!(*c.get_type(), TlvType::ChassisID);
    assert_eq!(c.get_length(), 7);
    assert_eq!(c.get_value(), &value);
    assert_eq!(c.to_string(), "Chassis ID (length 7)");
}

#[test]
fn unknown_keeps_code_and_value() {
    let value = [0x01, 0x02];
    let u = unknown::new(42, 2, &value);
    assert_eq!(*u.get_type(), TlvType::Unknown(42));
    assert_eq!(u.get_value(), &value);
    assert_eq!(u.to_string(), "Unknown TLV (type 42) (length 2)");
}

#[test]
fn system_name_decodes_utf8() {
    let n = system_name::new(6, "switch".as_bytes()).unwrap();
    assert_eq!(n.get_name(), "switch");
    assert_eq!(*n.get_type(), TlvType::SystemName);
    assert_eq!(n.to_string(), "System Name (length 6) - Name: switch");
}

#[test]
fn system_name_decodes_multibyte_utf8() {
    let bytes = "r\u{e9}seau".as_bytes();
    let n = system_name::new(bytes.len() as u16, bytes).unwrap();
    assert_eq!(n.get_name(), "r\u{e9}seau");
}

#[test]
fn system_name_rejects_invalid_utf8() {
    assert_eq!(system_name::new(2, &[0xff, 0xfe]).unwrap_err(), DecodeError::InvalidEncoding);
}

#[test]
fn system_description_decodes_utf8() {
    let d = system_description::new(4, "core".as_bytes()).unwrap();
    assert_eq!(d.get_description(), "core");
    assert_eq!(*d.get_type(), TlvType::SystemDescription);
    assert_eq!(d.to_string(), "System Description (length 4) - Description: core");
}

#[test]
fn system_description_rejects_invalid_utf8() {
    assert_eq!(
        system_description::new(1, &[0xc0]).unwrap_err(),
        DecodeError::InvalidEncoding
    );
}

#[test]
fn port_description_decodes_utf8() {
    let d = PortDescriptionTLV::new(5, "eth0/".as_bytes()).unwrap();
    assert_eq!(d.get_description(), "eth0/");
    assert_eq!(*d.get_type(), TlvType::PortDescription);
    assert_eq!(d.to_string(), "Port Description (length 5) - Description: eth0/");
}

#[test]
fn port_description_rejects_invalid_utf8() {
    assert_eq!(
        PortDescriptionTLV::new(1, &[0x80]).unwrap_err(),
        DecodeError::InvalidEncoding
    );
}

#[test]
fn capabilities_bit_zero_and_two() {
    let c = system_capabilities::new(4, &[0x00, 0b0000_0101, 0x00, 0x00]).unwrap();
    let caps = c.get_capabilities();
    assert!(caps.other);
    assert!(!caps.repeater);
    assert!(caps.bridge);
    assert!(!caps.wlan_access_point);
    assert!(!caps.router);
    assert!(!caps.telephone);
    assert!(!caps.docsis);
    assert!(!caps.station_only);
    let enabled = c.get_enabled();
    assert!(!enabled.other);
    assert!(!enabled.bridge);
}

#[test]
fn capabilities_high_bits() {
    let c = system_capabilities::new(4, &[0x00, 0b1100_0000, 0x00, 0b0001_0000]).unwrap();
    assert!(c.get_capabilities().docsis);
    assert!(c.get_capabilities().station_only);
    assert!(!c.get_capabilities().other);
    assert!(c.get_enabled().router);
}

#[test]
fn capabilities_reject_short_value() {
    assert_eq!(
        system_capabilities::new(3, &[0, 5, 0]).unwrap_err(),
        DecodeError::MalformedField
    );
}

#[test]
fn management_address_ipv4() {
    let m = management_address::new(6, &[0x05, 0x01, 192, 168, 0, 1]).unwrap();
    assert_eq!(*m.get_subtype(), AddressSubType::IPv4);
    assert_eq!(m.get_address(), "192.168.0.1");
    assert_eq!(m.get_string_length(), 5);
    assert_eq!(
        m.to_string(),
        "Management Address (length 6) - Address Type: IPv4 - Address: 192.168.0.1"
    );
}

#[test]
fn management_address_unknown_subtype() {
    let m = management_address::new(4, &[0x03, 0x02, 0xaa, 0xbb]).unwrap();
    assert_eq!(*m.get_subtype(), AddressSubType::Unknown(2));
    assert_eq!(m.get_address(), "Unknown");
}

#[test]
fn management_address_rejects_short_values() {
    assert_eq!(management_address::new(1, &[5]).unwrap_err(), DecodeError::MalformedField);
    assert_eq!(
        management_address::new(3, &[5, 1, 192]).unwrap_err(),
        DecodeError::MalformedField
    );
}
