use rotmg::adapters::{
    CaptureRemaining, FromPacketBytes, PacketFormatError, PacketReader, ToPacketBytes, WithLen,
};

#[test]
fn test_roundtrip_bool() {
    for original in [true, false] {
        let mut packet = vec![];
        <bool as ToPacketBytes>::to_packet(&original, &mut packet).unwrap();
        let mut reader = PacketReader::over(&packet);
        let parsed = <bool as FromPacketBytes>::from_packet(&mut reader).unwrap();
        assert_eq!(original, parsed);
        assert!(reader.is_empty());
    }
}

#[test]
fn test_roundtrip_u8() {
    for original in [0u8, 1, 0x7f, 0x80, 0xff] {
        let mut packet = vec![];
        <u8 as ToPacketBytes>::to_packet(&original, &mut packet).unwrap();
        assert_eq!(packet, vec![original]);
        let mut reader = PacketReader::over(&packet);
        assert_eq!(<u8 as FromPacketBytes>::from_packet(&mut reader).unwrap(), original);
    }
}

#[test]
fn test_roundtrip_u16() {
    for original in [0u16, 0x1234, 0x8000, 0xffff] {
        let mut packet = vec![];
        <u16 as ToPacketBytes>::to_packet(&original, &mut packet).unwrap();
        assert_eq!(packet, original.to_be_bytes().to_vec());
        let mut reader = PacketReader::over(&packet);
        assert_eq!(<u16 as FromPacketBytes>::from_packet(&mut reader).unwrap(), original);
    }
}

#[test]
fn test_roundtrip_u32() {
    for original in [0u32, 0x1234_5678, 0x8000_0000, 0xffff_ffff] {
        let mut packet = vec![];
        <u32 as ToPacketBytes>::to_packet(&original, &mut packet).unwrap();
        assert_eq!(packet, original.to_be_bytes().to_vec());
        let mut reader = PacketReader::over(&packet);
        assert_eq!(<u32 as FromPacketBytes>::from_packet(&mut reader).unwrap(), original);
    }
}

#[test]
fn test_roundtrip_u64() {
    for original in [0u64, 0x0123_4567_89ab_cdef, u64::MAX] {
        let mut packet = vec![];
        <u64 as ToPacketBytes>::to_packet(&original, &mut packet).unwrap();
        assert_eq!(packet, original.to_be_bytes().to_vec());
        let mut reader = PacketReader::over(&packet);
        assert_eq!(<u64 as FromPacketBytes>::from_packet(&mut reader).unwrap(), original);
    }
}

#[test]
fn test_roundtrip_i8() {
    for original in [0i8, 1, -1, i8::MIN, i8::MAX] {
        let mut packet = vec![];
        <i8 as ToPacketBytes>::to_packet(&original, &mut packet).unwrap();
        assert_eq!(packet, original.to_be_bytes().to_vec());
        let mut reader = PacketReader::over(&packet);
        assert_eq!(<i8 as FromPacketBytes>::from_packet(&mut reader).unwrap(), original);
    }
}

#[test]
fn test_roundtrip_i16() {
    for original in [0i16, 1, -1, -2, i16::MIN, i16::MAX] {
        let mut packet = vec![];
        <i16 as ToPacketBytes>::to_packet(&original, &mut packet).unwrap();
        assert_eq!(packet, original.to_be_bytes().to_vec());
        let mut reader = PacketReader::over(&packet);
        assert_eq!(<i16 as FromPacketBytes>::from_packet(&mut reader).unwrap(), original);
    }
}

#[test]
fn test_roundtrip_i32() {
    for original in [0i32, 100, -1, -42, i32::MIN, i32::MAX] {
        let mut packet = vec![];
        <i32 as ToPacketBytes>::to_packet(&original, &mut packet).unwrap();
        assert_eq!(packet, original.to_be_bytes().to_vec());
        let mut reader = PacketReader::over(&packet);
        assert_eq!(<i32 as FromPacketBytes>::from_packet(&mut reader).unwrap(), original);
    }
}

#[test]
fn test_roundtrip_i64() {
    for original in [0i64, 8, -1, i64::MIN, i64::MAX] {
        let mut packet = vec![];
        <i64 as ToPacketBytes>::to_packet(&original, &mut packet).unwrap();
        assert_eq!(packet, original.to_be_bytes().to_vec());
        let mut reader = PacketReader::over(&packet);
        assert_eq!(<i64 as FromPacketBytes>::from_packet(&mut reader).unwrap(), original);
    }
}

#[test]
fn test_roundtrip_unit() {
    let mut packet = vec![];
    <() as ToPacketBytes>::to_packet(&(), &mut packet).unwrap();
    assert!(packet.is_empty());
    let mut reader = PacketReader::over(&packet);
    <() as FromPacketBytes>::from_packet(&mut reader).unwrap();
}

#[test]
fn test_roundtrip_none() {
    let original: Option<i32> = None;
    let mut packet = vec![];
    <Option<i32> as ToPacketBytes>::to_packet(&original, &mut packet).unwrap();
    assert!(packet.is_empty());
    let mut reader = PacketReader::over(&packet);
    let parsed = <Option<i32> as FromPacketBytes>::from_packet(&mut reader).unwrap();
    assert_eq!(original, parsed);
}

#[test]
fn test_roundtrip_some_i32() {
    let original: Option<i32> = Some(-123456);
    let mut packet = vec![];
    <Option<i32> as ToPacketBytes>::to_packet(&original, &mut packet).unwrap();
    assert_eq!(packet, (-123456i32).to_be_bytes().to_vec());
    let mut reader = PacketReader::over(&packet);
    let parsed = <Option<i32> as FromPacketBytes>::from_packet(&mut reader).unwrap();
    assert_eq!(original, parsed);
}

#[test]
fn test_roundtrip_str_u16() {
    let original = "hello world".to_string();
    let mut packet = vec![];
    <WithLen<u16, String> as ToPacketBytes>::to_packet(&original, &mut packet).unwrap();
    assert_eq!(&packet[..2], &[0, 11]);
    assert_eq!(&packet[2..], b"hello world");
    let mut reader = PacketReader::over(&packet);
    let parsed = <WithLen<u16, String> as FromPacketBytes>::from_packet(&mut reader).unwrap();
    assert_eq!(original, parsed);
}

#[test]
fn test_roundtrip_str_u32() {
    let original = "hello world".to_string();
    let mut packet = vec![];
    <WithLen<u32, String> as ToPacketBytes>::to_packet(&original, &mut packet).unwrap();
    assert_eq!(&packet[..4], &[0, 0, 0, 11]);
    let mut reader = PacketReader::over(&packet);
    let parsed = <WithLen<u32, String> as FromPacketBytes>::from_packet(&mut reader).unwrap();
    assert_eq!(original, parsed);
}

#[test]
fn test_roundtrip_vec_u16() {
    let original: Vec<i32> = vec![1, 3, -42];
    let mut packet = vec![];
    <WithLen<u16, Vec<i32>> as ToPacketBytes>::to_packet(&original, &mut packet).unwrap();
    assert_eq!(packet, vec![0, 3, 0, 0, 0, 1, 0, 0, 0, 3, 0xff, 0xff, 0xff, 0xd6]);
    let mut reader = PacketReader::over(&packet);
    let parsed = <WithLen<u16, Vec<i32>> as FromPacketBytes>::from_packet(&mut reader).unwrap();
    assert_eq!(original, parsed);
}

#[test]
fn test_roundtrip_vec_u32() {
    let original: Vec<i64> = vec![i64::MAX, 42, 8];
    let mut packet = vec![];
    <WithLen<u32, Vec<i64>> as ToPacketBytes>::to_packet(&original, &mut packet).unwrap();
    assert_eq!(packet.len(), 4 + 3 * 8);
    let mut reader = PacketReader::over(&packet);
    let parsed = <WithLen<u32, Vec<i64>> as FromPacketBytes>::from_packet(&mut reader).unwrap();
    assert_eq!(original, parsed);
}

#[test]
fn test_roundtrip_vec_remaining() {
    let original = b"hello world".to_vec();
    let mut packet = vec![];
    <CaptureRemaining<Vec<u8>> as ToPacketBytes>::to_packet(&original, &mut packet).unwrap();
    assert_eq!(packet, original);
    let mut reader = PacketReader::over(&packet);
    let parsed = <CaptureRemaining<Vec<u8>> as FromPacketBytes>::from_packet(&mut reader).unwrap();
    assert_eq!(original, parsed);
    assert!(reader.is_empty());
}

#[test]
fn test_roundtrip_complex_none() {
    let original: Option<Vec<String>> = None;
    let mut packet = vec![];
    <Option<WithLen<u16, Vec<WithLen<u32, String>>>> as ToPacketBytes>::to_packet(
        &original,
        &mut packet,
    )
    .unwrap();
    let mut reader = PacketReader::over(&packet);
    let parsed =
        <Option<WithLen<u16, Vec<WithLen<u32, String>>>> as FromPacketBytes>::from_packet(
            &mut reader,
        )
        .unwrap();
    assert_eq!(original, parsed);
}

#[test]
fn test_roundtrip_complex_some() {
    let original = Some(vec!["hello".to_string(), "world".to_string()]);
    let mut packet = vec![];
    <Option<WithLen<u16, Vec<WithLen<u32, String>>>> as ToPacketBytes>::to_packet(
        &original,
        &mut packet,
    )
    .unwrap();
    assert_eq!(
        packet,
        vec![
            0, 2, 0, 0, 0, 5, b'h', b'e', b'l', b'l', b'o', 0, 0, 0, 5, b'w', b'o', b'r', b'l',
            b'd'
        ]
    );
    let mut reader = PacketReader::over(&packet);
    let parsed =
        <Option<WithLen<u16, Vec<WithLen<u32, String>>>> as FromPacketBytes>::from_packet(
            &mut reader,
        )
        .unwrap();
    assert_eq!(original, parsed);
}

#[test]
fn booleans_are_one_byte_and_nonzero_is_true() {
    let mut packet = vec![];
    <bool as ToPacketBytes>::to_packet(&true, &mut packet).unwrap();
    <bool as ToPacketBytes>::to_packet(&false, &mut packet).unwrap();
    assert_eq!(packet, vec![1, 0]);
    for byte in [1u8, 2, 0x80, 0xff] {
        let bytes = [byte];
        let mut reader = PacketReader::over(&bytes);
        assert!(<bool as FromPacketBytes>::from_packet(&mut reader).unwrap());
    }
    let bytes = [0u8];
    let mut reader = PacketReader::over(&bytes);
    assert!(!<bool as FromPacketBytes>::from_packet(&mut reader).unwrap());
}

#[test]
fn length_prefix_u8_overflow_is_field_too_large() {
    let fits = "a".repeat(255);
    let mut packet = vec![];
    <WithLen<u8, String> as ToPacketBytes>::to_packet(&fits, &mut packet).unwrap();
    assert_eq!(packet.len(), 256);
    assert_eq!(packet[0], 255);

    let too_long = "a".repeat(256);
    let mut packet = vec![7];
    let error = <WithLen<u8, String> as ToPacketBytes>::to_packet(&too_long, &mut packet)
        .unwrap_err();
    assert_eq!(*error, PacketFormatError::FieldTooLarge { length: 256, repr: "u8" });
    assert_eq!(packet, vec![7]);
}

#[test]
fn length_prefix_u16_overflow_is_field_too_large() {
    let fits = "b".repeat(65535);
    let mut packet = vec![];
    <WithLen<u16, String> as ToPacketBytes>::to_packet(&fits, &mut packet).unwrap();
    assert_eq!(&packet[..2], &[0xff, 0xff]);

    let too_long = "b".repeat(65536);
    let mut packet = vec![];
    let error = <WithLen<u16, String> as ToPacketBytes>::to_packet(&too_long, &mut packet)
        .unwrap_err();
    assert_eq!(*error, PacketFormatError::FieldTooLarge { length: 65536, repr: "u16" });

    let too_many: Vec<u8> = vec![0; 256];
    let mut packet = vec![];
    let error = <WithLen<u8, Vec<u8>> as ToPacketBytes>::to_packet(&too_many, &mut packet)
        .unwrap_err();
    assert_eq!(*error, PacketFormatError::FieldTooLarge { length: 256, repr: "u8" });
}

#[test]
fn reading_past_the_end_is_unexpected_end() {
    let bytes = [0u8, 1, 2];
    let mut reader = PacketReader::over(&bytes);
    let error = <u32 as FromPacketBytes>::from_packet(&mut reader).unwrap_err();
    assert_eq!(*error, PacketFormatError::UnexpectedEnd(4));
    // a failed take leaves the reader where it was
    assert_eq!(reader.len(), 3);

    let bytes = [0u8, 5, b'a', b'b'];
    let mut reader = PacketReader::over(&bytes);
    let error = <WithLen<u16, String> as FromPacketBytes>::from_packet(&mut reader).unwrap_err();
    assert_eq!(*error, PacketFormatError::UnexpectedEnd(5));

    let bytes = [0u8, 2, 0, 0, 0, 1, 0, 0];
    let mut reader = PacketReader::over(&bytes);
    let error =
        <WithLen<u16, Vec<i32>> as FromPacketBytes>::from_packet(&mut reader).unwrap_err();
    assert_eq!(*error, PacketFormatError::UnexpectedEnd(4));
}

#[test]
fn strings_must_be_utf8() {
    let bytes = [0u8, 2, 0xc3, 0x28];
    let mut reader = PacketReader::over(&bytes);
    let error = <WithLen<u16, String> as FromPacketBytes>::from_packet(&mut reader).unwrap_err();
    assert!(matches!(*error, PacketFormatError::Utf8Error(_)));

    let bytes = [0u8, 2, 0xc3, 0xa9];
    let mut reader = PacketReader::over(&bytes);
    assert_eq!(
        <WithLen<u16, String> as FromPacketBytes>::from_packet(&mut reader).unwrap(),
        "\u{e9}"
    );
}

#[test]
fn packet_reader_takes() {
    let bytes = [1u8, 2, 3];
    let mut reader = PacketReader::over(&bytes);
    assert_eq!(reader.len(), 3);
    assert!(!reader.is_empty());
    assert_eq!(reader.take(2).unwrap(), &[1, 2]);
    assert_eq!(*reader.take(2).unwrap_err(), PacketFormatError::UnexpectedEnd(2));
    assert_eq!(reader.take_all(), &[3]);
    assert!(reader.is_empty());
    let empty: &[u8] = &[];
    assert_eq!(reader.take_all(), empty);
}

#[test]
fn error_messages() {
    assert_eq!(
        PacketFormatError::UnexpectedEnd(4).message(),
        "Expected at least 4 more bytes"
    );
    assert_eq!(
        PacketFormatError::FieldTooLarge { length: 256, repr: "u8" }.message(),
        "Field too large: cannot convert 256 to u8"
    );
    assert_eq!(
        PacketFormatError::UnknownStatType(101).message(),
        "No known StatType associated with value 101"
    );
    assert_eq!(
        PacketFormatError::UnmappedID(9).message(),
        "No known mapping for packet ID 9"
    );
}

#[test]
fn invalid_utf8_is_described() {
    let bytes = [0u8, 2, 0xc3, 0x28];
    let mut reader = PacketReader::over(&bytes);
    let error = <WithLen<u16, String> as FromPacketBytes>::from_packet(&mut reader).unwrap_err();
    let expected = format!("Invalid UTF-8: {}", String::from_utf8(vec![0xc3, 0x28]).unwrap_err());
    assert_eq!(error.message(), expected);
    assert!(error.message().len() > "Invalid UTF-8: ".len());
}
