use rust_lldp::layer2::ethernet::{new, EtherType};
use rust_lldp::layer2::lldp::LLDPU;
use rust_lldp::tlv::{Packet, PortIDSubType, TlvRecord, TlvType, TLV};
use rust_lldp::DecodeError;

fn tlv_bytes(code: u8, value: &[u8]) -> Vec<u8> {
    let header: u16 = ((code as u16) << 9) | (value.len() as u16);
    let mut b = vec![(header >> 8) as u8, (header & 0xff) as u8];
    b.extend_from_slice(value);
    b
}

fn sample_stream() -> Vec<u8> {
    let mut payload = tlv_bytes(1, &[0x04, 0xaa, 0xbb, 0xcc, 0xdd, 0xee, 0xff]);
    payload.extend_from_slice(&tlv_bytes(2, &[0x03, 0xdc, 0x39, 0x6f, 0x56, 0x6f, 0x56]));
    payload.extend_from_slice(&tlv_bytes(3, &[0x00, 0x78]));
    payload.extend_from_slice(&[0x00, 0x00]);
    payload
}

#[test]
fn stream_round_trip_preserves_order_and_values() {
    let mut payload = tlv_bytes(5, "switch".as_bytes());
    payload.extend_from_slice(&tlv_bytes(9, &[0x01, 0x02, 0x03]));
    payload.extend_from_slice(&tlv_bytes(5, "again".as_bytes()));
    payload.extend_from_slice(&[0x00, 0x00]);

    let (unit, err) = LLDPU::new(&payload);
    assert_eq!(err, None);
    assert!(unit.is_terminated());
    let tlvs = unit.get_tlvs();
    assert_eq!(tlvs.len(), 3);
    match &tlvs[0] {
        TlvRecord::SystemName(n) => {
            assert_eq!(n.get_name(), "switch");
            assert_eq!(n.get_value(), "switch".as_bytes());
        }
        _ => panic!("expected a System Name record first"),
    }
    match &tlvs[1] {
        TlvRecord::Unknown(u) => {
            assert_eq!(*u.get_type(), TlvType::Unknown(9));
            assert_eq!(u.get_value(), &[0x01, 0x02, 0x03]);
        }
        _ => panic!("expected an Unknown record second"),
    }
    match &tlvs[2] {
        TlvRecord::SystemName(n) => assert_eq!(n.get_name(), "again"),
        _ => panic!("expected a System Name record third"),
    }
}

#[test]
fn parsing_stops_at_terminator() {
    let mut payload = sample_stream();
    let (unit, err) = LLDPU::new(&payload);
    assert_eq!(err, None);
    let baseline: Vec<u16> = unit.get_tlvs().iter().map(|t| t.get_length()).collect();

    payload.extend_from_slice(&[0xde, 0xad, 0xbe, 0xef, 0x55]);
    let (unit2, err2) = LLDPU::new(&payload);
    assert_eq!(err2, None);
    assert!(unit2.is_terminated());
    let after: Vec<u16> = unit2.get_tlvs().iter().map(|t| t.get_length()).collect();
    assert_eq!(baseline, after);
    assert_eq!(unit2.get_tlvs().len(), 3);
}

#[test]
fn declared_length_past_end_is_truncated_tlv() {
    let mut payload = tlv_bytes(3, &[0x00, 0x78]);
    let header: u16 = (1u16 << 9) | 10;
    payload.extend_from_slice(&[(header >> 8) as u8, (header & 0xff) as u8, 0x01, 0x02]);

    let (unit, err) = LLDPU::new(&payload);
    assert_eq!(err, Some(DecodeError::TruncatedTlv));
    assert!(!unit.is_terminated());
    assert_eq!(unit.get_tlvs().len(), 1);
    match &unit.get_tlvs()[0] {
        TlvRecord::TimeToLive(t) => assert_eq!(t.get_seconds(), 120),
        _ => panic!("expected the Time to Live record to be kept"),
    }
}

#[test]
fn missing_terminator_is_tolerated() {
    let payload = tlv_bytes(3, &[0x00, 0x78]);
    let (unit, err) = LLDPU::new(&payload);
    assert_eq!(err, None);
    assert!(!unit.is_terminated());
    assert_eq!(unit.get_tlvs().len(), 1);

    let (empty_unit, empty_err) = LLDPU::new(&[]);
    assert_eq!(empty_err, None);
    assert!(!empty_unit.is_terminated());
    assert_eq!(empty_unit.get_tlvs().len(), 0);

    let (odd_unit, odd_err) = LLDPU::new(&[0x02]);
    assert_eq!(odd_err, None);
    assert_eq!(odd_unit.get_tlvs().len(), 0);
}

#[test]
fn per_type_error_keeps_prefix() {
    let mut payload = tlv_bytes(1, &[0x04, 0x01]);
    payload.extend_from_slice(&tlv_bytes(5, &[0xff, 0xfe]));
    payload.extend_from_slice(&[0x00, 0x00]);

    let (unit, err) = LLDPU::new(&payload);
    assert_eq!(err, Some(DecodeError::InvalidEncoding));
    assert!(!unit.is_terminated());
    assert_eq!(unit.get_tlvs().len(), 1);
}

#[test]
fn boundary_type_and_length_codes() {
    let mut payload = tlv_bytes(127, &[]);
    let big = vec![0x5a; 511];
    payload.extend_from_slice(&tlv_bytes(9, &big));
    payload.extend_from_slice(&[0x00, 0x00]);

    let (unit, err) = LLDPU::new(&payload);
    assert_eq!(err, None);
    assert!(unit.is_terminated());
    let tlvs = unit.get_tlvs();
    assert_eq!(tlvs.len(), 2);
    assert_eq!(*tlvs[0].get_type(), TlvType::Unknown(127));
    assert_eq!(tlvs[0].get_length(), 0);
    assert_eq!(tlvs[1].get_length(), 511);
    assert_eq!(tlvs[1].get_value().len(), 511);
    assert_eq!(unit.get_size(), 2 + 2 + 511);
}

#[test]
fn end_to_end_frame_to_lldpdu() {
    let mut frame = vec![0x01, 0x80, 0xc2, 0x00, 0x00, 0x0e];
    frame.extend_from_slice(&[0xdc, 0x39, 0x6f, 0x56, 0x6f, 0x56]);
    frame.extend_from_slice(&[0x88, 0xcc]);
    frame.extend_from_slice(&sample_stream());

    let eth = new(&frame).unwrap();
    assert_eq!(*eth.get_ether_type(), EtherType::LLDP);
    assert_eq!("01:80:c2:00:00:0e", eth.get_destination().to_string());
    assert_eq!("dc:39:6f:56:6f:56", eth.get_source().to_string());

    let (unit, err) = LLDPU::new(eth.get_payload());
    assert_eq!(err, None);
    assert!(unit.is_terminated());
    let tlvs = unit.get_tlvs();
    assert_eq!(tlvs.len(), 3);
    match &tlvs[0] {
        TlvRecord::ChassisId(c) => assert_eq!(c.get_length(), 7),
        _ => panic!("expected a Chassis ID record first"),
    }
    match &tlvs[1] {
        TlvRecord::PortId(p) => {
            assert_eq!(*p.get_port_type(), PortIDSubType::MACAddress);
            assert_eq!(p.get_address(), "dc:39:6f:56:6f:56");
        }
        _ => panic!("expected a Port ID record second"),
    }
    match &tlvs[2] {
        TlvRecord::TimeToLive(t) => assert_eq!(t.get_seconds(), 120),
        _ => panic!("expected a Time to Live record third"),
    }
    assert_eq!(unit.get_size(), (2 + 7) + (2 + 7) + (2 + 2));
}

#[test]
fn lldpdu_display_lists_records() {
    let mut payload = tlv_bytes(3, &[0x00, 0x78]);
    payload.extend_from_slice(&[0x00, 0x00]);
    let (unit, err) = LLDPU::new(&payload);
    assert_eq!(err, None);
    assert_eq!(
        unit.to_string(),
        "LLDP Frame (size 4)\r\nTime to Live (length 2) - Seconds: 120"
    );
}
