use rust_lldp::layer2::ethernet::{new, EtherType, MacAddress};
use rust_lldp::layer2::Packet;
use rust_lldp::DecodeError;
use rust_lldp::NetParser;

#[test]
fn net_parser_constructs() {
    let _parser: NetParser = NetParser::new();
}

#[test]
fn it_works() {
    let result = 2 + 2;
    assert_eq!(result, 4);
}

#[test]
fn mac_address_format() {
    let bytes: [u8; 6] = [0x01, 0x80, 0xc2, 0x00, 0x00, 0x0e];

    assert_eq!("01:80:c2:00:00:0e", MacAddress(bytes).to_string());
}

#[test]
fn mac_address_format_high_digits() {
    let bytes: [u8; 6] = [0xde, 0xad, 0xbe, 0xef, 0xff, 0x00];

    assert_eq!("de:ad:be:ef:ff:00", MacAddress(bytes).to_string());
}

fn sample_header(ethertype: [u8; 2]) -> Vec<u8> {
    let mut b = vec![0x01, 0x80, 0xc2, 0x00, 0x00, 0x0e];
    b.extend_from_slice(&[0xdc, 0x39, 0x6f, 0x56, 0x6f, 0x56]);
    b.extend_from_slice(&ethertype);
    b
}

#[test]
fn decode_recovers_header_fields() {
    let mut bytes = sample_header([0x88, 0xcc]);
    bytes.extend_from_slice(&[0xaa, 0xbb, 0xcc]);

    let frame = new(&bytes).unwrap();
    assert_eq!("01:80:c2:00:00:0e", frame.get_destination().to_string());
    assert_eq!("dc:39:6f:56:6f:56", frame.get_source().to_string());
    assert_eq!(*frame.get_ether_type(), EtherType::LLDP);
    assert_eq!(frame.get_payload(), &[0xaa, 0xbb, 0xcc]);
    assert_eq!(frame.get_size(), 17);
}

#[test]
fn decode_classifies_unknown_ethertype() {
    let bytes = sample_header([0x08, 0x00]);

    let frame = new(&bytes).unwrap();
    assert_eq!(*frame.get_ether_type(), EtherType::Unknown(0x0800));
    assert_eq!(frame.get_payload(), &[] as &[u8]);
}

#[test]
fn short_frame_is_truncated() {
    let bytes = vec![0x01, 0x80, 0xc2, 0x00, 0x00, 0x0e, 0xdc, 0x39, 0x6f, 0x56, 0x6f, 0x56, 0x88];

    assert_eq!(new(&bytes).unwrap_err(), DecodeError::TruncatedFrame);
    assert_eq!(new(&[]).unwrap_err(), DecodeError::TruncatedFrame);
}

#[test]
fn frame_display_line() {
    let bytes = sample_header([0x88, 0xcc]);

    let frame = new(&bytes).unwrap();
    assert_eq!(
        frame.to_string(),
        "Ethernet Frame (size: 14)\nSource: dc:39:6f:56:6f:56\nDestination: 01:80:c2:00:00:0e\nEthertype: LLDP"
    );
}

#[test]
fn ethertype_display() {
    assert_eq!(EtherType::LLDP.to_string(), "LLDP");
    assert_eq!(EtherType::Unknown(0x0800).to_string(), "Unknown (2048)");
}
