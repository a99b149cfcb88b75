use taparp::arp::{ArpHeader, ArpPayload, HardwareType, Operation};
use taparp::ethernet::{EtherType, EthernetFrame};
use taparp::recv::{recv_buffer, trim_frame};

fn arp_message(hw: u16, proto: u16, op: u16) -> Vec<u8> {
    let mut b = vec![
        (hw >> 8) as u8,
        hw as u8,
        (proto >> 8) as u8,
        proto as u8,
        6,
        4,
        (op >> 8) as u8,
        op as u8,
    ];
    b.extend_from_slice(&[0u8; 20]);
    b
}

#[test]
fn ethertype_codes_decode_to_the_closed_set() {
    assert_eq!(EtherType::decode(0x0806), Some(EtherType::Arp));
    assert_eq!(EtherType::decode(0x0800), Some(EtherType::Ipv4));
    assert_eq!(EtherType::decode(0x86DD), Some(EtherType::Ipv6));
    assert_eq!(EtherType::decode(0x1234), None);
    assert_eq!(EtherType::decode(0x0000), None);
    assert_eq!(EtherType::decode(0xFFFF), None);
}

#[test]
fn hardware_type_codes_decode_to_the_closed_set() {
    assert_eq!(HardwareType::decode(0x0001), Some(HardwareType::Ethernet));
    assert_eq!(HardwareType::decode(0x0002), None);
    assert_eq!(HardwareType::decode(0x0000), None);
}

#[test]
fn operation_codes_decode_to_the_closed_set() {
    assert_eq!(Operation::decode(0x0001), Some(Operation::Request));
    assert_eq!(Operation::decode(0x0002), Some(Operation::Reply));
    assert_eq!(Operation::decode(0x0003), None);
}

#[test]
fn ethernet_decoding_is_pure() {
    let mut bytes = vec![
        0x10, 0x20, 0x30, 0x40, 0x50, 0x60, 0x01, 0x02, 0x03, 0x04, 0x05, 0x06, 0x08, 0x00,
    ];
    bytes.extend_from_slice(&[0xDE, 0xAD, 0xBE, 0xEF]);
    let first = EthernetFrame::new(bytes.clone());
    let second = EthernetFrame::new(bytes);
    assert_eq!(first.destination().0, second.destination().0);
    assert_eq!(first.source().0, second.source().0);
    assert_eq!(first.ethertype(), second.ethertype());
    assert_eq!(first.payload(), second.payload());
    assert_eq!(first.destination().0, [0x10, 0x20, 0x30, 0x40, 0x50, 0x60]);
    assert_eq!(first.source().0, [0x01, 0x02, 0x03, 0x04, 0x05, 0x06]);
    assert_eq!(first.ethertype(), Some(EtherType::Ipv4));
    assert_eq!(first.payload(), &[0xDE, 0xAD, 0xBE, 0xEF]);
}

#[test]
fn minimal_frame_has_empty_payload() {
    let bytes = vec![0u8; 14];
    let frame = EthernetFrame::new(bytes);
    assert_eq!(frame.payload(), &[] as &[u8]);
    assert_eq!(frame.ethertype(), None);
}

#[test]
fn arp_payload_exists_only_for_ethernet_ipv4() {
    let ok = arp_message(0x0001, 0x0800, 0x0001);
    assert!(ArpPayload::from_arp_hdr(ArpHeader::from_bytes(&ok)).is_some());

    // Unrecognized hardware type: no payload, though the buffer is long enough.
    let bad_hw = arp_message(0x0007, 0x0800, 0x0001);
    assert!(ArpPayload::from_arp_hdr(ArpHeader::from_bytes(&bad_hw)).is_none());

    // Recognized but unsupported protocol type (IPv6): no payload.
    let ipv6 = arp_message(0x0001, 0x86DD, 0x0001);
    assert!(ArpPayload::from_arp_hdr(ArpHeader::from_bytes(&ipv6)).is_none());

    // Unrecognized protocol type: no payload.
    let bad_proto = arp_message(0x0001, 0x1234, 0x0001);
    assert!(ArpPayload::from_arp_hdr(ArpHeader::from_bytes(&bad_proto)).is_none());
}

#[test]
fn arp_header_fields_decode_from_fixed_offsets() {
    let reply = arp_message(0x0001, 0x0800, 0x0002);
    let hdr = ArpHeader::from_bytes(&reply);
    assert_eq!(hdr.hardware_type(), Some(HardwareType::Ethernet));
    assert_eq!(hdr.protocol_type(), Some(EtherType::Ipv4));
    assert_eq!(hdr.operation(), Some(Operation::Reply));
    assert_eq!(hdr.payload().len(), 20);

    let unknown_op = arp_message(0x0001, 0x0800, 0x0009);
    assert_eq!(ArpHeader::from_bytes(&unknown_op).operation(), None);
}

#[test]
fn receive_buffer_is_sized_and_trimmed_to_the_read() {
    let mut buffer = recv_buffer();
    assert_eq!(buffer.len(), 1600);
    assert!(buffer.iter().all(|b| *b == 0));
    buffer[0] = 0xAB;
    buffer[41] = 0xCD;
    trim_frame(&mut buffer, 42);
    assert_eq!(buffer.len(), 42);
    assert_eq!(buffer[0], 0xAB);
    assert_eq!(buffer[41], 0xCD);
}

#[test]
fn broadcast_arp_request_end_to_end() {
    let bytes: Vec<u8> = vec![
        0xFF, 0xFF, 0xFF, 0xFF, 0xFF, 0xFF, 0xAA, 0xBB, 0xCC, 0xDD, 0xEE, 0xFF, 0x08, 0x06, 0x00,
        0x01, 0x08, 0x00, 0x06, 0x04, 0x00, 0x01, 0xAA, 0xBB, 0xCC, 0xDD, 0xEE, 0xFF, 0x0A, 0x00,
        0x00, 0x05, 0x00, 0x00, 0x00, 0x00, 0x00, 0x00, 0x0A, 0x00, 0x00, 0x01,
    ];
    let frame = EthernetFrame::new(bytes);
    assert_eq!(frame.destination().to_text(), "ff:ff:ff:ff:ff:ff");
    assert_eq!(frame.source().to_text(), "aa:bb:cc:dd:ee:ff");
    assert_eq!(frame.ethertype(), Some(EtherType::Arp));

    let hdr = ArpHeader::from_bytes(frame.payload());
    assert_eq!(hdr.hardware_type(), Some(HardwareType::Ethernet));
    assert_eq!(hdr.protocol_type(), Some(EtherType::Ipv4));
    assert_eq!(hdr.operation(), Some(Operation::Request));

    let payload = ArpPayload::from_arp_hdr(hdr).unwrap();
    assert_eq!(payload.source_mac().to_text(), "aa:bb:cc:dd:ee:ff");
    assert_eq!(payload.source_ip().to_text(), "10.0.0.5");
    assert_eq!(payload.dest_mac().to_text(), "00:00:00:00:00:00");
    assert_eq!(payload.dest_ip().to_text(), "10.0.0.1");
}
