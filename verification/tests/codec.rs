use rotmg::codec::{
    accept, connect, create_ciphers, Decoder, Encoder, FrameError, PacketSizeLimitExceeded,
    MAX_PACKET_SIZE,
};
use rotmg::raw::RawPacket;
use rotmg::rc4::Rc4;

const DATA: &[u8] = &[0, 0, 0, 6, 5, 6];
const KEYS: &[u8] = b"abcd";

#[test]
fn rc4_known_keystream() {
    // the test vector of the key "Key" and the plaintext "Plaintext"
    let mut cipher = Rc4::new(b"Key");
    let mut data = b"Plaintext".to_vec();
    cipher.process(&mut data);
    assert_eq!(data, vec![0xbb, 0xf3, 0x16, 0xe8, 0xd9, 0x40, 0xaf, 0x0a, 0xd3]);
}

#[test]
fn rc4_is_symmetric() {
    let mut cipher = Rc4::new(b"Secret");
    let mut again = cipher.clone();
    let original = b"Attack at dawn".to_vec();
    let mut data = original.clone();
    cipher.process(&mut data);
    assert_eq!(
        data,
        vec![0x45, 0xa0, 0x1f, 0x64, 0x5f, 0xc3, 0x5b, 0x38, 0x35, 0x52, 0x54, 0x4b, 0x9b, 0xf5]
    );
    again.process(&mut data);
    assert_eq!(data, original);
}

#[test]
fn rc4_advances_by_the_bytes_processed() {
    let mut whole = Rc4::new(b"Wiki");
    let mut parts = whole.clone();
    let mut a = b"pedia".to_vec();
    whole.process(&mut a);
    assert_eq!(a, vec![0x10, 0x21, 0xbf, 0x04, 0x20]);
    let mut b = b"pedia".to_vec();
    let (first, second) = b.split_at_mut(2);
    parts.process(first);
    parts.process(second);
    assert_eq!(a, b);
}

#[test]
fn ciphers_are_keyed_by_the_halves() {
    let (mut first, mut second) = create_ciphers(KEYS);
    let mut a = vec![0u8; 4];
    let mut b = vec![0u8; 4];
    first.process(&mut a);
    second.process(&mut b);
    let mut expect_a = vec![0u8; 4];
    let mut expect_b = vec![0u8; 4];
    Rc4::new(b"ab").process(&mut expect_a);
    Rc4::new(b"cd").process(&mut expect_b);
    assert_eq!(a, expect_a);
    assert_eq!(b, expect_b);
    assert_ne!(a, b);
}

#[test]
fn test_basic_connections_in_memory() {
    // a client and a server over one pair of keys, three packets each way
    let (mut server_rx, mut server_tx) = accept(KEYS);
    let (mut client_rx, mut client_tx) = connect(KEYS);
    for _ in 0..3 {
        let mut wire = Vec::new();
        let mut packet = RawPacket::from_slice(DATA).unwrap().to_owned();
        client_tx.send(&mut packet, &mut wire);
        // the header is not ciphered, the payload is
        assert_eq!(&wire[..5], &DATA[..5]);
        server_rx.feed(&wire);
        let received = server_rx.recv().unwrap().unwrap();
        assert_eq!(received.bytes(), DATA);

        let mut wire = Vec::new();
        let mut packet = RawPacket::from_slice(DATA).unwrap().to_owned();
        server_tx.send(&mut packet, &mut wire);
        client_rx.feed(&wire);
        let received = client_rx.recv().unwrap().unwrap();
        assert_eq!(received.bytes(), DATA);
    }
}

#[test]
fn decoder_needs_the_whole_frame() {
    let (mut rx, _) = accept(KEYS);
    let (_, mut tx) = connect(KEYS);
    let mut wire = Vec::new();
    let mut packet = RawPacket::from_vec(vec![0, 0, 0, 9, 7, 1, 2, 3, 4]).unwrap();
    tx.send(&mut packet, &mut wire);
    for byte in &wire[..wire.len() - 1] {
        rx.feed(&[*byte]);
        assert_eq!(rx.recv(), Ok(None));
    }
    rx.feed(&wire[wire.len() - 1..]);
    let received = rx.recv().unwrap().unwrap();
    assert_eq!(received.bytes(), &[0, 0, 0, 9, 7, 1, 2, 3, 4]);
    assert_eq!(rx.recv(), Ok(None));
}

#[test]
fn decoder_cuts_frames_apart() {
    let mut rx = Decoder::new(Rc4::new(b"k"));
    let mut tx = Encoder::new(Rc4::new(b"k"));
    let mut wire = Vec::new();
    let mut first = RawPacket::from_vec(vec![0, 0, 0, 6, 1, 0xaa]).unwrap();
    let mut second = RawPacket::from_vec(vec![0, 0, 0, 5, 2]).unwrap();
    let mut third = RawPacket::from_vec(vec![0, 0, 0, 7, 3, 0xbb, 0xcc]).unwrap();
    tx.send(&mut first, &mut wire);
    tx.send(&mut second, &mut wire);
    tx.send(&mut third, &mut wire);
    rx.feed(&wire);
    assert_eq!(rx.recv().unwrap().unwrap().bytes(), &[0, 0, 0, 6, 1, 0xaa]);
    assert_eq!(rx.recv().unwrap().unwrap().bytes(), &[0, 0, 0, 5, 2]);
    assert_eq!(rx.recv().unwrap().unwrap().bytes(), &[0, 0, 0, 7, 3, 0xbb, 0xcc]);
    assert_eq!(rx.recv(), Ok(None));
}

#[test]
fn frame_of_declared_length_4_is_invalid() {
    let mut rx = Decoder::new(Rc4::new(b"k"));
    rx.feed(&[0, 0, 0, 4]);
    assert_eq!(rx.recv(), Err(FrameError::InvalidLength(4)));
    let mut rx = Decoder::new(Rc4::new(b"k"));
    rx.feed(&[0, 0, 0, 0, 1, 2, 3]);
    assert_eq!(rx.recv(), Err(FrameError::InvalidLength(0)));
}

#[test]
fn frame_over_the_size_limit_is_fatal() {
    assert_eq!(MAX_PACKET_SIZE, 10 * 1024 * 1024);
    let size = MAX_PACKET_SIZE + 1;
    let mut rx = Decoder::new(Rc4::new(b"k"));
    rx.feed(&size.to_be_bytes());
    assert_eq!(
        rx.recv(),
        Err(FrameError::SizeLimitExceeded(PacketSizeLimitExceeded {
            limit: MAX_PACKET_SIZE,
            size,
        }))
    );
    // a frame of exactly the limit is waited for
    let mut rx = Decoder::new(Rc4::new(b"k"));
    rx.feed(&MAX_PACKET_SIZE.to_be_bytes());
    assert_eq!(rx.recv(), Ok(None));
}

#[test]
fn frame_error_messages() {
    assert_eq!(FrameError::InvalidLength(4).message(), "Invalid packet length: 4");
    assert_eq!(
        FrameError::SizeLimitExceeded(PacketSizeLimitExceeded { limit: 10485760, size: 10485761 })
            .message(),
        "Packet size limit of 10485760 bytes was exceeded: 10485761 bytes specified"
    );
}
