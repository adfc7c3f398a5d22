use rotmg::raw::{InvalidPacket, RawPacket};

#[test]
fn test_raw_packet_parsing() {
    let data = &[0, 0, 0, 6, 5, 6];
    let pkt = RawPacket::from_slice(&data[..]).unwrap();
    assert_eq!(data, pkt.bytes());
    let pkt = pkt.to_owned();
    assert_eq!(data, pkt.bytes());
    let boxed = RawPacket::from_box(data.to_vec().into_boxed_slice()).unwrap();
    assert_eq!(data, boxed.bytes());
    assert_eq!(pkt, boxed);
}

#[test]
fn raw_packet_id_and_payload() {
    let bytes = [0, 0, 0, 6, 5, 6];
    let pkt = RawPacket::from_slice(&bytes).unwrap();
    assert_eq!(pkt.id(), 5);
    assert_eq!(pkt.payload(), &[6]);
    assert_eq!(pkt.to_owned().bytes(), &bytes);
}

#[test]
fn raw_packet_payload_can_be_changed_in_place() {
    let mut pkt = RawPacket::from_vec(vec![0, 0, 0, 7, 9, 1, 2]).unwrap();
    pkt.payload_mut()[1] = 0xff;
    assert_eq!(pkt.bytes(), &[0, 0, 0, 7, 9, 1, 0xff]);
}

#[test]
fn raw_packet_header_too_short() {
    assert_eq!(
        RawPacket::from_slice(&[0, 0, 0, 4]),
        Err(InvalidPacket::HeaderTooShort(vec![0, 0, 0, 4]))
    );
    assert_eq!(RawPacket::validate_header(&[]), Err(InvalidPacket::HeaderTooShort(vec![])));
}

#[test]
fn raw_packet_header_invalid() {
    assert_eq!(
        RawPacket::from_box(vec![0, 0, 1, 0, 5, 6].into_boxed_slice()),
        Err(InvalidPacket::HeaderInvalid {
            encoded_len: 256,
            actual_len: 6,
            data: vec![0, 0, 1, 0, 5, 6],
        })
    );
    assert_eq!(RawPacket::validate_header(&[0, 0, 0, 5, 1]), Ok(()));
}

#[test]
fn invalid_packet_messages() {
    assert_eq!(
        InvalidPacket::HeaderTooShort(vec![0, 0, 0, 10]).message(),
        "Packet header too short - need at least 5 bytes: [0, 0, 0, a]"
    );
    assert_eq!(
        InvalidPacket::HeaderInvalid { encoded_len: 256, actual_len: 6, data: vec![0, 0, 1, 0, 5, 255] }
            .message(),
        "Invalid packet header - encoded length is 256 but actual length is 6: [0, 0, 1, 0, 5, ff]"
    );
}
