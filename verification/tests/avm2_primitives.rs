use rotmg::avm2::{Parse, ParseError, Reader};

#[test]
fn test_u32_parsing() {
    let cases: Vec<(Vec<u8>, u32)> = vec![
        (vec![0x9f, 0x14], 2591),
        (vec![0x01], 1),
        (vec![0x81, 0x4c], 9729),
        (vec![0xf4, 0x05], 756),
    ];

    for case in cases.iter() {
        let mut buffer = Reader::new(&case.0);
        assert_eq!(case.1, u32::parse_avm2(&mut buffer).unwrap());
        let empty: &[u8] = &[];
        assert_eq!(buffer.take_all(), empty, "no bytes should remain");
    }
}

#[test]
fn varint_fifth_byte_always_ends() {
    // the high bit of a fifth byte does not continue the integer
    let bytes = [0xff, 0xff, 0xff, 0xff, 0xff, 0x01];
    let mut reader = Reader::new(&bytes);
    assert_eq!(u32::parse_avm2(&mut reader).unwrap(), 0xffff_ffff);
    assert_eq!(reader.peek(), &[0x01]);
}

#[test]
fn varint_keeps_low_32_bits() {
    let bytes = [0x80, 0x80, 0x80, 0x80, 0x7f];
    let mut reader = Reader::new(&bytes);
    assert_eq!(u32::parse_avm2(&mut reader).unwrap(), 0xf000_0000);
}

#[test]
fn varint_needs_every_continued_byte() {
    let bytes = [0x80];
    let mut reader = Reader::new(&bytes);
    assert_eq!(
        u32::parse_avm2(&mut reader),
        Err(ParseError::InsufficientBytes { remaining: 1, needed: 2 })
    );
    // a failed read does not advance the reader
    assert_eq!(reader.peek(), &[0x80]);

    let mut empty = Reader::new(&[]);
    assert_eq!(
        u32::parse_avm2(&mut empty),
        Err(ParseError::InsufficientBytes { remaining: 0, needed: 1 })
    );
}

#[test]
fn varint_minimal_encodings_decode_to_their_values() {
    let cases: Vec<(Vec<u8>, u32)> = vec![
        (vec![0x00], 0),
        (vec![0x7f], 127),
        (vec![0x80, 0x01], 128),
        (vec![0xff, 0x7f], 16383),
        (vec![0x80, 0x80, 0x01], 16384),
        (vec![0xff, 0xff, 0xff, 0x7f], 0x0fff_ffff),
    ];
    for (bytes, value) in cases.iter() {
        let mut reader = Reader::new(bytes);
        assert_eq!(u32::parse_avm2(&mut reader).unwrap(), *value);
        assert_eq!(reader.len(), 0);
    }
}

#[test]
fn signed_varint_is_twos_complement() {
    let bytes = [0xff, 0xff, 0xff, 0xff, 0x0f];
    let mut reader = Reader::new(&bytes);
    assert_eq!(i32::parse_avm2(&mut reader).unwrap(), -1);
    let bytes = [0x2a];
    let mut reader = Reader::new(&bytes);
    assert_eq!(i32::parse_avm2(&mut reader).unwrap(), 42);
}

#[test]
fn fixed_width_integers_are_little_endian() {
    let bytes = [0x34, 0x12, 0xff];
    let mut reader = Reader::new(&bytes);
    assert_eq!(u16::parse_avm2(&mut reader).unwrap(), 0x1234);
    assert_eq!(u8::parse_avm2(&mut reader).unwrap(), 0xff);
    assert_eq!(
        u8::parse_avm2(&mut reader),
        Err(ParseError::InsufficientBytes { remaining: 0, needed: 1 })
    );

    let double = 1.5f64.to_le_bytes();
    let mut reader = Reader::new(&double);
    assert_eq!(f64::from_bits(u64::parse_avm2(&mut reader).unwrap()), 1.5);
}

#[test]
fn strings_are_length_prefixed_utf8() {
    let bytes = [0x03, b'r', b'c', b'4', 0x00];
    let mut reader = Reader::new(&bytes);
    assert_eq!(String::parse_avm2(&mut reader).unwrap(), "rc4");
    assert_eq!(reader.peek(), &[0x00]);

    let bytes = [0x02, 0xc3, 0x28];
    let mut reader = Reader::new(&bytes);
    assert!(matches!(String::parse_avm2(&mut reader), Err(ParseError::Utf8Error(_))));

    let bytes = [0x05, b'a'];
    let mut reader = Reader::new(&bytes);
    assert_eq!(
        String::parse_avm2(&mut reader),
        Err(ParseError::InsufficientBytes { remaining: 1, needed: 5 })
    );
}

#[test]
fn reader_takes_and_peeks() {
    let bytes = [1, 2, 3, 4];
    let mut reader = Reader::new(&bytes);
    assert_eq!(reader.take(2).unwrap(), &[1, 2]);
    assert_eq!(reader.peek(), &[3, 4]);
    assert_eq!(
        reader.take(3),
        Err(ParseError::InsufficientBytes { remaining: 2, needed: 3 })
    );
    assert_eq!(reader.peek(), &[3, 4]);
    assert_eq!(reader.take_all(), &[3, 4]);
    let empty: &[u8] = &[];
    assert_eq!(reader.take_all(), empty);
}
