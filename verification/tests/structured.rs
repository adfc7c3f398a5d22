use rotmg::adapters::{FromPacketBytes, PacketFormatError, PacketReader, Prefix, ToPacketBytes};
use rotmg::mappings::PacketMappings;
use rotmg::raw::RawPacket;
use rotmg::structured::catalog::{PacketType, PACKET_TYPES, SERVER_PACKET_TYPES};
use rotmg::structured::check::value_conforms;
use rotmg::structured::decode::decode_value;
use rotmg::structured::encode::encode_value;
use rotmg::structured::packets::Packet;
use rotmg::structured::schema::{DataType, FieldType};
use rotmg::structured::stat::{StatData, StatType};
use rotmg::structured::value::Value;

fn text(s: &str) -> Value {
    Value::Str(s.to_string())
}

fn world_pos(x: f32, y: f32) -> Value {
    Value::Record(vec![Value::F32(x.to_bits()), Value::F32(y.to_bits())])
}

#[test]
fn stat_roundtrip() {
    let name = StatData::String(StatType::NAME_STAT, "hi".to_string());
    let mut packet = vec![];
    <StatData as ToPacketBytes>::to_packet(&name, &mut packet).unwrap();
    assert_eq!(packet, vec![0x1f, 0x00, 0x02, b'h', b'i']);
    let mut reader = PacketReader::over(&packet);
    assert_eq!(<StatData as FromPacketBytes>::from_packet(&mut reader).unwrap(), name);
    assert!(reader.is_empty());

    let hp = StatData::Integer(StatType::HP_STAT, 100);
    let mut packet = vec![];
    <StatData as ToPacketBytes>::to_packet(&hp, &mut packet).unwrap();
    assert_eq!(packet, vec![0x01, 0x00, 0x00, 0x00, 0x64]);
    let mut reader = PacketReader::over(&packet);
    assert_eq!(<StatData as FromPacketBytes>::from_packet(&mut reader).unwrap(), hp);
    assert!(reader.is_empty());
}

#[test]
fn stat_types_and_bytes() {
    assert_eq!(StatType::MAX_HP_STAT.to_byte(), 0);
    assert_eq!(StatType::ATTACK_STAT.to_byte(), 20);
    assert_eq!(StatType::PROJECTILE_LIFE_MULT.to_byte(), 103);
    assert_eq!(StatType::from_byte(31), Some(StatType::NAME_STAT));
    assert_eq!(StatType::from_byte(101), None);
    assert_eq!(StatType::from_byte(104), None);
    assert_eq!(StatType::from_byte(255), None);
    let mut known = 0;
    let mut strings = vec![];
    for byte in 0..=255u8 {
        if let Some(stat_type) = StatType::from_byte(byte) {
            known += 1;
            assert_eq!(stat_type.to_byte(), byte);
            if stat_type.is_string() {
                strings.push(byte);
            }
        }
    }
    assert_eq!(known, 100);
    assert_eq!(strings, vec![31, 38, 54, 62, 82]);
    assert_eq!(StatData::Integer(StatType::HP_STAT, 1).stat_type(), StatType::HP_STAT);
}

#[test]
fn unknown_stat_type() {
    let bytes = [101u8, 0, 0, 0, 0];
    let mut reader = PacketReader::over(&bytes);
    let error = <StatData as FromPacketBytes>::from_packet(&mut reader).unwrap_err();
    assert_eq!(*error, PacketFormatError::UnknownStatType(101));
}

#[test]
fn negative_stat_values() {
    let stat = StatData::Integer(StatType::SPEED_BOOST_STAT, -3);
    let mut packet = vec![];
    <StatData as ToPacketBytes>::to_packet(&stat, &mut packet).unwrap();
    assert_eq!(packet, vec![50, 0xff, 0xff, 0xff, 0xfd]);
    let mut reader = PacketReader::over(&packet);
    assert_eq!(<StatData as FromPacketBytes>::from_packet(&mut reader).unwrap(), stat);
}

#[test]
fn catalog_is_closed() {
    let all = PacketType::values();
    assert_eq!(all.len(), 93);
    assert_eq!(PACKET_TYPES, 93);
    assert_eq!(SERVER_PACKET_TYPES, 48);
    let mut names = vec![];
    for (i, packet_type) in all.iter().enumerate() {
        assert_eq!(packet_type.index() as usize, i);
        assert_eq!(PacketType::from_index(i as u8), Some(*packet_type));
        assert_eq!(packet_type.fields().len(), packet_type.field_names().len());
        assert_eq!(packet_type.is_server(), i < 48);
        let normalized = packet_type.name().to_lowercase();
        assert!(!names.contains(&normalized), "two packet types are named {}", normalized);
        names.push(normalized);
    }
    assert_eq!(PacketType::from_index(93), None);
    assert_eq!(PacketType::ArenaDeath.index(), 0);
    assert_eq!(PacketType::VerifyEmail.index(), 47);
    assert_eq!(PacketType::EnterArena.index(), 48);
    assert_eq!(PacketType::UsePortal.index(), 92);
    assert_eq!(PacketType::Hello.name(), "Hello");
    assert!(!PacketType::Hello.is_server());
    assert!(PacketType::Failure.is_server());
}

#[test]
fn catalog_fields() {
    assert_eq!(PacketType::Hello.fields().len(), 18);
    assert_eq!(PacketType::Hello.field_names()[0], "build_version");
    assert_eq!(PacketType::Hello.fields()[0], FieldType::Str(Prefix::U16));
    assert_eq!(PacketType::Hello.fields()[8], FieldType::Bytes(Prefix::U16));
    assert_eq!(PacketType::Hello.fields()[9], FieldType::Str(Prefix::U32));
    assert_eq!(
        PacketType::Move.fields(),
        vec![
            FieldType::U32,
            FieldType::U32,
            FieldType::Data(DataType::WorldPosData),
            FieldType::List(Prefix::U16, Box::new(FieldType::Data(DataType::WorldPosData))),
        ]
    );
    assert_eq!(PacketType::Move.field_names(), vec!["tick_id", "time", "new_position", "records"]);
    assert_eq!(
        PacketType::EnemyShoot.fields()[6],
        FieldType::Optional(Box::new(FieldType::U8))
    );
    assert_eq!(PacketType::Pic.fields()[2], FieldType::Remaining);
    assert_eq!(PacketType::VerifyEmail.fields(), vec![FieldType::Unit]);
    assert_eq!(
        DataType::ObjectStatusData.fields(),
        vec![
            FieldType::U32,
            FieldType::Data(DataType::WorldPosData),
            FieldType::List(Prefix::U16, Box::new(FieldType::Stat)),
        ]
    );
    assert_eq!(DataType::TradeItem.field_names(), vec!["item", "slot_type", "tradeable", "included"]);
}

#[test]
fn packet_roundtrip_text() {
    let fields = vec![
        text("Player"),
        Value::U32(77),
        Value::U32(12),
        Value::U8(5),
        text(""),
        text("hello there"),
        text("hello there"),
        Value::Bool(true),
        Value::U32(3),
    ];
    let packet = Packet::new(PacketType::Text, fields).unwrap();
    let mut payload = vec![];
    packet.to_packet(&mut payload).unwrap();
    let mut expected = vec![0, 6];
    expected.extend_from_slice(b"Player");
    expected.extend_from_slice(&[0, 0, 0, 77, 0, 0, 0, 12, 5, 0, 0, 0, 11]);
    expected.extend_from_slice(b"hello there");
    expected.extend_from_slice(&[0, 11]);
    expected.extend_from_slice(b"hello there");
    expected.extend_from_slice(&[1, 0, 0, 0, 3]);
    assert_eq!(payload, expected);

    let mut reader = PacketReader::over(&payload);
    let parsed = Packet::from_packet(PacketType::Text, &mut reader).unwrap();
    assert_eq!(parsed, packet);
    assert_eq!(parsed.packet_type(), PacketType::Text);
    assert_eq!(parsed.fields()[5], text("hello there"));
    assert!(reader.is_empty());
}

#[test]
fn packet_roundtrip_hello() {
    let fields = vec![
        text("X31.2.3"),
        Value::U32(0xffff_fffe),
        text("guid"),
        Value::U32(1),
        text("password"),
        Value::U32(2),
        text("secret"),
        Value::U32(3),
        Value::Bytes(vec![1, 2, 3]),
        text("{}"),
        text("tag"),
        text("rotmg"),
        text(""),
        text("rotmg"),
        text(""),
        text("token"),
        text("?"),
        text("prev"),
    ];
    let packet = Packet::new(PacketType::Hello, fields).unwrap();
    let mut payload = vec![];
    packet.to_packet(&mut payload).unwrap();
    let mut reader = PacketReader::over(&payload);
    let parsed = Packet::from_packet(PacketType::Hello, &mut reader).unwrap();
    assert_eq!(parsed, packet);
    // bytes that are read and written back are the same bytes
    let mut again = vec![];
    parsed.to_packet(&mut again).unwrap();
    assert_eq!(again, payload);
}

#[test]
fn packet_roundtrip_update() {
    let tile = Value::Record(vec![Value::I16(-1), Value::I16(2), Value::U16(300)]);
    let status = Value::Record(vec![
        Value::U32(9),
        world_pos(1.5, -2.0),
        Value::List(vec![
            Value::Stat(StatData::Integer(StatType::HP_STAT, 100)),
            Value::Stat(StatData::String(StatType::NAME_STAT, "hi".to_string())),
        ]),
    ]);
    let object = Value::Record(vec![Value::U16(0x0300), status]);
    let fields = vec![
        Value::List(vec![tile]),
        Value::List(vec![object]),
        Value::List(vec![Value::I32(-5), Value::I32(6)]),
    ];
    let packet = Packet::new(PacketType::Update, fields).unwrap();
    let mut payload = vec![];
    packet.to_packet(&mut payload).unwrap();
    let mut expected: Vec<u8> = vec![0, 1, 0xff, 0xff, 0, 2, 0x01, 0x2c];
    expected.extend_from_slice(&[0, 1, 0x03, 0x00, 0, 0, 0, 9]);
    expected.extend_from_slice(&1.5f32.to_be_bytes());
    expected.extend_from_slice(&(-2.0f32).to_be_bytes());
    expected.extend_from_slice(&[0, 2, 1, 0, 0, 0, 100, 0x1f, 0, 2, b'h', b'i']);
    expected.extend_from_slice(&[0, 2, 0xff, 0xff, 0xff, 0xfb, 0, 0, 0, 6]);
    assert_eq!(payload, expected);
    let mut reader = PacketReader::over(&payload);
    assert_eq!(Packet::from_packet(PacketType::Update, &mut reader).unwrap(), packet);
}

#[test]
fn trailing_options_may_be_missing() {
    let mut payload: Vec<u8> = vec![7, 0, 0, 0, 9, 3];
    payload.extend_from_slice(&1.0f32.to_be_bytes());
    payload.extend_from_slice(&2.0f32.to_be_bytes());
    payload.extend_from_slice(&0.5f32.to_be_bytes());
    payload.extend_from_slice(&[0, 50]);

    // an older server stops writing here
    let mut reader = PacketReader::over(&payload);
    let parsed = Packet::from_packet(PacketType::EnemyShoot, &mut reader).unwrap();
    assert_eq!(parsed.fields()[5], Value::U16(50));
    assert_eq!(parsed.fields()[6], Value::Opt(None));
    assert_eq!(parsed.fields()[7], Value::Opt(None));
    let mut again = vec![];
    parsed.to_packet(&mut again).unwrap();
    assert_eq!(again, payload);

    let mut longer = payload.clone();
    longer.push(4);
    let mut reader = PacketReader::over(&longer);
    let parsed = Packet::from_packet(PacketType::EnemyShoot, &mut reader).unwrap();
    assert_eq!(parsed.fields()[6], Value::Opt(Some(Box::new(Value::U8(4)))));
    assert_eq!(parsed.fields()[7], Value::Opt(None));

    longer.extend_from_slice(&0.25f32.to_be_bytes());
    let mut reader = PacketReader::over(&longer);
    let parsed = Packet::from_packet(PacketType::EnemyShoot, &mut reader).unwrap();
    assert_eq!(
        parsed.fields()[7],
        Value::Opt(Some(Box::new(Value::F32(0.25f32.to_bits()))))
    );
    let mut again = vec![];
    parsed.to_packet(&mut again).unwrap();
    assert_eq!(again, longer);
}

#[test]
fn capture_remaining_takes_the_rest() {
    let payload = [0u8, 0, 0, 2, 0, 0, 0, 1, 9, 8, 7];
    let mut reader = PacketReader::over(&payload);
    let parsed = Packet::from_packet(PacketType::Pic, &mut reader).unwrap();
    assert_eq!(
        parsed.fields(),
        &vec![Value::U32(2), Value::U32(1), Value::Bytes(vec![9, 8, 7])]
    );
    assert!(reader.is_empty());
}

#[test]
fn packets_are_type_checked() {
    assert!(Packet::new(PacketType::Ping, vec![Value::U32(1)]).is_some());
    assert!(Packet::new(PacketType::Ping, vec![Value::I32(1)]).is_none());
    assert!(Packet::new(PacketType::Ping, vec![]).is_none());
    assert!(Packet::new(PacketType::Ping, vec![Value::U32(1), Value::U32(2)]).is_none());
    assert!(Packet::new(PacketType::Escape, vec![Value::Unit]).is_some());
    assert!(Packet::new(
        PacketType::Goto,
        vec![Value::U32(1), Value::Record(vec![Value::F32(0)])]
    )
    .is_none());
    assert!(Packet::new(PacketType::Goto, vec![Value::U32(1), world_pos(0.0, 0.0)]).is_some());
    assert!(value_conforms(
        &FieldType::List(Prefix::U16, Box::new(FieldType::Bool)),
        &Value::List(vec![Value::Bool(true), Value::Bool(false)])
    ));
    assert!(!value_conforms(
        &FieldType::List(Prefix::U16, Box::new(FieldType::Bool)),
        &Value::List(vec![Value::Bool(true), Value::U8(0)])
    ));
    assert!(value_conforms(&FieldType::Remaining, &Value::Bytes(vec![])));
    assert!(!value_conforms(&FieldType::Remaining, &Value::Unit));
}

#[test]
fn values_of_every_primitive_type() {
    let cases: Vec<(FieldType, Value, Vec<u8>)> = vec![
        (FieldType::U8, Value::U8(0xab), vec![0xab]),
        (FieldType::U16, Value::U16(0xabcd), vec![0xab, 0xcd]),
        (FieldType::U32, Value::U32(0x0102_0304), vec![1, 2, 3, 4]),
        (FieldType::U64, Value::U64(0x0102_0304_0506_0708), vec![1, 2, 3, 4, 5, 6, 7, 8]),
        (FieldType::I8, Value::I8(-128), vec![0x80]),
        (FieldType::I16, Value::I16(-2), vec![0xff, 0xfe]),
        (FieldType::I32, Value::I32(-2), vec![0xff, 0xff, 0xff, 0xfe]),
        (FieldType::I64, Value::I64(i64::MIN), vec![0x80, 0, 0, 0, 0, 0, 0, 0]),
        (FieldType::F32, Value::F32(1.0f32.to_bits()), vec![0x3f, 0x80, 0, 0]),
        (FieldType::F64, Value::F64(1.0f64.to_bits()), vec![0x3f, 0xf0, 0, 0, 0, 0, 0, 0]),
        (FieldType::Bool, Value::Bool(true), vec![1]),
        (FieldType::Unit, Value::Unit, vec![]),
    ];
    for (field_type, value, bytes) in cases.iter() {
        let mut out = vec![];
        encode_value(field_type, value, &mut out).unwrap();
        assert_eq!(&out, bytes);
        let mut reader = PacketReader::over(&out);
        assert_eq!(&decode_value(field_type, &mut reader).unwrap(), value);
        assert!(reader.is_empty());
    }
}

#[test]
fn truncated_packets_fail() {
    let payload = [0u8, 0, 0];
    let mut reader = PacketReader::over(&payload);
    let error = Packet::from_packet(PacketType::Ping, &mut reader).unwrap_err();
    assert_eq!(*error, PacketFormatError::UnexpectedEnd(4));

    let payload = [1u8, 0, 4, b'a'];
    let mut reader = PacketReader::over(&payload);
    let error = Packet::from_packet(PacketType::NameResult, &mut reader).unwrap_err();
    assert_eq!(*error, PacketFormatError::UnexpectedEnd(4));
}

#[test]
fn into_raw_frames_the_payload() {
    let packet = Packet::new(PacketType::ArenaDeath, vec![Value::U32(7)]).unwrap();
    let raw = packet.into_raw().unwrap();
    assert_eq!(raw.bytes(), &[0, 0, 0, 9, 0, 0, 0, 0, 7]);
    assert_eq!(raw.id(), PacketType::ArenaDeath.index());

    let packet = Packet::new(PacketType::UsePortal, vec![Value::U32(0x0a0b0c0d)]).unwrap();
    let raw = packet.into_raw().unwrap();
    assert_eq!(raw.bytes(), &[0, 0, 0, 9, 92, 0x0a, 0x0b, 0x0c, 0x0d]);

    let packet = Packet::new(PacketType::Escape, vec![Value::Unit]).unwrap();
    assert_eq!(packet.into_raw().unwrap().bytes(), &[0, 0, 0, 5, 66]);

    let too_long = "x".repeat(65536);
    let packet = Packet::new(PacketType::PlayerText, vec![text(&too_long)]).unwrap();
    let error = packet.into_raw().unwrap_err();
    assert_eq!(*error, PacketFormatError::FieldTooLarge { length: 65536, repr: "u16" });
}

#[test]
fn raw_packets_are_parsed_by_the_mappings() {
    let mappings = PacketMappings::new(vec![(PacketType::ArenaDeath, 42), (PacketType::Ping, 7)]);
    let raw = RawPacket::from_vec(vec![0, 0, 0, 9, 42, 0, 0, 0, 7]).unwrap();
    let (packet, rest) = raw.parse(&mappings).unwrap();
    assert_eq!(packet.packet_type(), PacketType::ArenaDeath);
    assert_eq!(packet.fields(), &vec![Value::U32(7)]);
    assert!(rest.is_empty());

    // leftover bytes are handed back
    let raw = RawPacket::from_vec(vec![0, 0, 0, 11, 7, 0, 0, 0, 1, 0xaa, 0xbb]).unwrap();
    let (packet, rest) = raw.parse(&mappings).unwrap();
    assert_eq!(packet.packet_type(), PacketType::Ping);
    assert_eq!(rest, &[0xaa, 0xbb]);

    let raw = RawPacket::from_vec(vec![0, 0, 0, 9, 5, 0, 0, 0, 7]).unwrap();
    let error = raw.parse(&mappings).unwrap_err();
    assert_eq!(*error, PacketFormatError::UnmappedID(5));

    let raw = RawPacket::from_vec(vec![0, 0, 0, 7, 42, 0, 0]).unwrap();
    let error = raw.parse(&mappings).unwrap_err();
    assert_eq!(*error, PacketFormatError::UnexpectedEnd(4));
}

#[test]
fn into_raw_with_mappings() {
    let mappings = PacketMappings::new(vec![(PacketType::Ping, 7), (PacketType::Text, 200)]);
    let packet = Packet::new(PacketType::Ping, vec![Value::U32(0x01020304)]).unwrap();
    let raw = packet.into_raw_with(&mappings).unwrap();
    assert_eq!(raw.bytes(), &[0, 0, 0, 9, 7, 1, 2, 3, 4]);
    let (parsed, rest) = raw.parse(&mappings).unwrap();
    assert_eq!(parsed, packet);
    assert!(rest.is_empty());

    let packet = Packet::new(PacketType::Pong, vec![Value::U32(1), Value::U32(2)]).unwrap();
    let error = packet.into_raw_with(&mappings).unwrap_err();
    assert_eq!(*error, PacketFormatError::UnmappedID(PacketType::Pong.index()));
}

#[test]
fn values_and_packets_are_cloned() {
    let value = Value::Record(vec![
        Value::List(vec![text("a"), text("b")]),
        Value::Opt(Some(Box::new(Value::Bytes(vec![1, 2])))),
        Value::Stat(StatData::String(StatType::NAME_STAT, "n".to_string())),
        Value::I64(-7),
    ]);
    assert_eq!(value.clone(), value);
    let packet = Packet::new(PacketType::Goto, vec![Value::U32(1), world_pos(1.0, 2.0)]).unwrap();
    assert_eq!(packet.clone(), packet);
}
