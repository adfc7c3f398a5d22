use rotmg::avm2::abcfile::AbcFile;
use rotmg::avm2::constants::{Multiname, NamespaceKind};
use rotmg::avm2::linked::TraitSlotValue;
use rotmg::avm2::traits::{ConstantKind, Trait, TraitData};
use rotmg::avm2::{Parse, ParseError, Reader};
use rotmg::extractor::{ExtractionError, ParsedClient, SwfTag};
use rotmg::parameters::BasicParameters;
use rotmg::structured::catalog::PacketType;

/// A variable-length integer, in its shortest form.
fn u30(mut v: u32) -> Vec<u8> {
    let mut out = vec![];
    loop {
        let low = (v & 0x7f) as u8;
        v >>= 7;
        if v == 0 {
            out.push(low);
            return out;
        }
        out.push(low | 0x80);
    }
}

/// An ABC file under construction: one package, and classes with static
/// members.
struct Abc {
    ints: Vec<i32>,
    strings: Vec<String>,
    multinames: Vec<(u32, u32)>,
    classes: Vec<(u32, Vec<u8>, u32)>,
}

impl Abc {
    fn new() -> Self {
        Abc { ints: vec![], strings: vec!["kabam.rotmg".to_string()], multinames: vec![], classes: vec![] }
    }

    /// Appends a string to the pool and gives its index.
    fn string(&mut self, s: &str) -> u32 {
        self.strings.push(s.to_string());
        self.strings.len() as u32
    }

    fn integer(&mut self, v: i32) -> u32 {
        self.ints.push(v);
        self.ints.len() as u32
    }

    fn qname(&mut self, local: &str) -> u32 {
        let name = self.string(local);
        self.multinames.push((1, name));
        self.multinames.len() as u32
    }

    fn const_int(&mut self, name: &str, v: i32) -> Vec<u8> {
        let name = self.qname(name);
        let index = self.integer(v);
        let mut out = u30(name);
        out.push(0x06);
        out.extend([u30(0), u30(0), u30(index)].concat());
        out.push(0x03);
        out
    }

    fn const_string(&mut self, name: &str, v: &str) -> Vec<u8> {
        let name = self.qname(name);
        let index = self.string(v);
        let mut out = u30(name);
        out.push(0x06);
        out.extend([u30(0), u30(0), u30(index)].concat());
        out.push(0x01);
        out
    }

    /// A slot without a value, with metadata.
    fn slot_without_value(&mut self, name: &str) -> Vec<u8> {
        let name = self.qname(name);
        let mut out = u30(name);
        out.push(0x40);
        out.extend([u30(1), u30(0), u30(0)].concat());
        out.extend([u30(2), u30(0), u30(0)].concat());
        out
    }

    fn method(&mut self, name: &str) -> Vec<u8> {
        let name = self.qname(name);
        let mut out = u30(name);
        out.push(0x21);
        out.extend([u30(3), u30(0)].concat());
        out
    }

    fn class(&mut self, name: &str, traits: Vec<Vec<u8>>) {
        let name = self.qname(name);
        self.classes.push((name, traits.concat(), traits.len() as u32));
    }

    fn build(&self) -> Vec<u8> {
        let mut out = vec![16, 0, 46, 0];
        out.extend(u30(self.ints.len() as u32 + 1));
        for v in self.ints.iter() {
            out.extend(u30(*v as u32));
        }
        out.extend(u30(0));
        out.extend(u30(2));
        out.extend(1.5f64.to_le_bytes());
        out.extend(u30(self.strings.len() as u32 + 1));
        for s in self.strings.iter() {
            out.extend(u30(s.len() as u32));
            out.extend(s.as_bytes());
        }
        out.extend(u30(2));
        out.push(0x16);
        out.extend(u30(1));
        out.extend(u30(2));
        out.extend([u30(1), u30(1)].concat());
        out.extend(u30(self.multinames.len() as u32 + 1));
        for (namespace, name) in self.multinames.iter() {
            out.push(0x07);
            out.extend(u30(*namespace));
            out.extend(u30(*name));
        }
        // one method with two parameters, an optional one and their names
        out.extend(u30(1));
        out.extend([u30(2), u30(0), u30(0), u30(0), u30(0)].concat());
        out.push(0x88);
        out.extend([u30(1), u30(1)].concat());
        out.push(0x03);
        out.extend([u30(0), u30(0)].concat());
        // one metadata entry with one item
        out.extend(u30(1));
        out.extend([u30(0), u30(1), u30(0), u30(0)].concat());
        out.extend(u30(self.classes.len() as u32));
        for (name, _, _) in self.classes.iter() {
            out.extend(u30(*name));
            out.extend(u30(0));
            out.push(0x08);
            out.extend(u30(1));
            out.extend([u30(0), u30(0), u30(0)].concat());
        }
        for (_, traits, count) in self.classes.iter() {
            out.extend(u30(0));
            out.extend(u30(*count));
            out.extend(traits);
        }
        // one script without traits
        out.extend(u30(1));
        out.extend([u30(0), u30(0)].concat());
        // one method body with two bytes of code and one exception
        out.extend(u30(1));
        out.extend([u30(0), u30(1), u30(1), u30(0), u30(1)].concat());
        out.extend(u30(2));
        out.extend([0xd0, 0x47]);
        out.extend(u30(1));
        out.extend([u30(0), u30(1), u30(1), u30(0), u30(0)].concat());
        out.extend(u30(0));
        out
    }
}

fn client() -> Vec<u8> {
    let mut abc = Abc::new();
    abc.string("rc4");
    abc.string("6a39570cc9de4ec71d64821894c79332b197f92ba85ed281a023");
    abc.string("after");
    let gsc = vec![
        abc.const_int("FAILURE", 0),
        abc.const_int("HELLO", 1),
        abc.const_string("NAME", "not a packet"),
        abc.const_int("ENEMY_SHOOT", 36),
        abc.method("connect"),
        abc.const_int("enemyshoot", 99),
        abc.const_int("UNKNOWN_THING", 200),
        abc.const_int("PLAYERTEXT", 300),
        abc.slot_without_value("serverConnection"),
    ];
    abc.class("GameServerConnection", gsc);
    let parameters = vec![
        abc.const_string("BUILD_VERSION", "X31"),
        abc.const_string("MINOR_VERSION", "2.3"),
        abc.const_int("PORT", 2050),
        abc.const_int("TUTORIAL_GAMEID", -1),
        abc.const_int("NEXUS_GAMEID", -2),
        abc.const_int("RANDOM_REALM_GAMEID", -3),
    ];
    abc.class("Parameters", parameters);
    abc.build()
}

/// An uncompressed SWF file with the given bytecode in a `DoABC` tag.
fn swf(abc: &[u8]) -> Vec<u8> {
    let mut body: Vec<u8> = vec![0x00, 0x00, 0x18, 0x01, 0x00];
    // ShowFrame
    body.extend([0x40, 0x00]);
    // DoABC
    let mut tag = vec![0, 0, 0, 0];
    tag.extend(b"code\0");
    tag.extend(abc);
    body.extend([0xbf, 0x14]);
    body.extend((tag.len() as u32).to_le_bytes());
    body.extend(tag);
    // End
    body.extend([0x00, 0x00]);
    let mut file = b"FWS".to_vec();
    file.push(10);
    file.extend((body.len() as u32 + 8).to_le_bytes());
    file.extend(body);
    file
}

#[test]
fn abc_file_is_parsed() {
    let bytes = client();
    let mut reader = Reader::new(&bytes);
    let file = AbcFile::parse_avm2(&mut reader).unwrap();
    assert_eq!(reader.len(), 0);
    assert_eq!(file.minor_version, 16);
    assert_eq!(file.major_version, 46);
    // index 0 of each pool is the default
    assert_eq!(file.constants.integers.entries[0], 0);
    assert_eq!(file.constants.integers.entries[2], 1);
    assert_eq!(file.constants.unsigned_integers.entries, vec![0]);
    assert_eq!(file.constants.doubles.entries, vec![0, 1.5f64.to_bits()]);
    assert_eq!(file.constants.strings.entries[0], "");
    assert_eq!(file.constants.strings.entries[1], "kabam.rotmg");
    assert_eq!(file.constants.strings.entries[2], "rc4");
    assert_eq!(file.constants.all_strings()[1], "rc4");
    assert_eq!(file.constants.namespaces.entries.len(), 2);
    assert_eq!(file.constants.namespaces.entries[1].kind, NamespaceKind::PackageNamespace);
    assert_eq!(file.constants.namespaces.entries[1].name, 1);
    assert_eq!(file.constants.namespace_sets.entries, vec![vec![], vec![1]]);
    assert_eq!(file.constants.multinames.entries[0], Multiname::Any);
    assert!(matches!(
        file.constants.multinames.entries[1],
        Multiname::QName { namespace: 1, attribute: false, .. }
    ));
    assert_eq!(file.methods.len(), 1);
    assert_eq!(file.methods[0].param_types, vec![0, 0]);
    assert_eq!(file.methods[0].flags, 0x88);
    assert_eq!(file.methods[0].options, vec![(1, 3)]);
    assert_eq!(file.methods[0].param_names, vec![0, 0]);
    assert_eq!(file.metadata.len(), 1);
    assert_eq!(file.metadata[0].items, vec![(0, 0)]);
    assert_eq!(file.instances.len(), 2);
    assert_eq!(file.instances[0].flags, 8);
    assert_eq!(file.instances[0].protected_namespace, Some(1));
    assert_eq!(file.classes.len(), 2);
    assert_eq!(file.classes[0].traits.len(), 9);
    assert!(matches!(
        file.classes[0].traits[1].data,
        TraitData::Const(slot) if slot.value_kind == ConstantKind::Int && slot.value_index == 2
    ));
    assert!(matches!(file.classes[0].traits[4].data, TraitData::Method { disp_id: 3, method: 0 }));
    assert_eq!(file.classes[0].traits[4].attributes, 2);
    assert!(matches!(
        file.classes[0].traits[8].data,
        TraitData::Slot(slot) if slot.value_index == 0 && slot.value_kind == ConstantKind::Undefined
    ));
    assert_eq!(file.classes[0].traits[8].attributes, 4);
    assert_eq!(file.classes[0].traits[8].metadata, vec![0, 0]);
    assert_eq!(file.scripts.len(), 1);
    assert_eq!(file.bodies.len(), 1);
    assert_eq!(file.bodies[0].code, vec![0xd0, 0x47]);
    assert_eq!(file.bodies[0].exceptions.len(), 1);
    assert_eq!(file.bodies[0].exceptions[0].to, 1);
}

#[test]
fn classes_are_linked() {
    let bytes = client();
    let file = AbcFile::parse_avm2(&mut Reader::new(&bytes)).unwrap();
    let classes = file.classes();
    assert_eq!(classes.len(), 2);
    assert_eq!(classes[0].name, ("kabam.rotmg".to_string(), "GameServerConnection".to_string()));
    assert_eq!(classes[1].name.1, "Parameters");
    // methods are no constants
    assert_eq!(classes[0].consts.len(), 8);
    assert_eq!(classes[0].consts[1].name.1, "HELLO");
    assert_eq!(classes[0].consts[1].value, TraitSlotValue::Int(1));
    assert_eq!(classes[0].consts[2].value, TraitSlotValue::String("not a packet".to_string()));
    assert_eq!(classes[0].consts[7].value, TraitSlotValue::Undefined);
    assert_eq!(classes[1].consts[3].value, TraitSlotValue::Int(-1));
}

#[test]
fn truncated_bytecode_is_insufficient_bytes() {
    let bytes = client();
    for len in [0, 3, 10, bytes.len() / 2, bytes.len() - 1] {
        let mut reader = Reader::new(&bytes[..len]);
        assert!(matches!(
            AbcFile::parse_avm2(&mut reader),
            Err(ParseError::InsufficientBytes { .. })
        ));
    }
}

#[test]
fn invalid_flags_are_reported() {
    // a constant pool whose only namespace has a kind that there is not
    let bytes = [16, 0, 46, 0, 0, 0, 0, 0, 2, 0x42, 0];
    let mut reader = Reader::new(&bytes);
    assert_eq!(
        AbcFile::parse_avm2(&mut reader).err(),
        Some(ParseError::InvalidFlag { value: 0x42, typ: "NamespaceKind" })
    );
    assert_eq!(
        ParseError::InvalidFlag { value: 0x42, typ: "NamespaceKind" }.message(),
        "Flag value 66 (0x42) is invalid for type NamespaceKind"
    );
    let bytes = [16, 0, 46, 0, 0, 0, 0, 0, 0, 0, 2, 0x08];
    let mut reader = Reader::new(&bytes);
    assert_eq!(
        AbcFile::parse_avm2(&mut reader).err(),
        Some(ParseError::InvalidFlag { value: 0x08, typ: "MultinameKind" })
    );
    assert_eq!(
        ParseError::InsufficientBytes { remaining: 1, needed: 2 }.message(),
        "Not enough bytes remaining in buffer: need 2 bytes, 1 bytes remaining"
    );
}

#[test]
fn test_extraction_of_a_client() {
    let parsed = ParsedClient::new(&swf(&client())).unwrap();
    let params = parsed.extract_all().unwrap();
    assert_eq!(params.rc4, "6a39570cc9de4ec71d64821894c79332b197f92ba85ed281a023");
    assert_eq!(
        params.basic,
        BasicParameters {
            version: "X31.2.3".to_string(),
            port: 2050,
            tutorial_game_id: -1,
            nexus_game_id: -2,
            random_game_id: -3,
        }
    );
    assert_eq!(params.packets.to_game(PacketType::Hello), Some(1));
    assert_eq!(params.packets.get_unmapped().len(), 93 - 4);
    assert_eq!(params.keys().unwrap().len(), 26);
}

#[test]
fn packet_mappings_are_extracted_by_normalized_name() {
    let parsed = ParsedClient::from_tags(vec![SwfTag::Other, SwfTag::DoAbc(client())]).unwrap();
    let mappings = parsed.extract_packets().unwrap();
    assert_eq!(mappings.to_internal(1), Some(PacketType::Hello));
    assert_eq!(mappings.to_game(PacketType::Failure), Some(0));
    // underscores are removed, and the first constant of a name wins
    assert_eq!(mappings.to_game(PacketType::EnemyShoot), Some(36));
    assert_eq!(mappings.to_internal(99), None);
    // the ID is the low byte of the constant
    assert_eq!(mappings.to_game(PacketType::PlayerText), Some(44));
    assert_eq!(mappings.to_internal(200), None);
    assert_eq!(
        mappings.entries(),
        vec![
            (PacketType::EnemyShoot, 36),
            (PacketType::Failure, 0),
            (PacketType::Hello, 1),
            (PacketType::PlayerText, 44),
        ]
    );
}

#[test]
fn rc4_key_follows_the_string_rc4() {
    let parsed = ParsedClient::from_tags(vec![SwfTag::DoAbc(client())]).unwrap();
    assert_eq!(
        parsed.extract_rc4(),
        Ok("6a39570cc9de4ec71d64821894c79332b197f92ba85ed281a023")
    );

    let mut abc = Abc::new();
    abc.string("first");
    abc.string("rc4");
    let parsed = ParsedClient::from_tags(vec![SwfTag::DoAbc(abc.build())]).unwrap();
    assert_eq!(parsed.extract_rc4(), Err(ExtractionError::NoRC4Found));

    let mut abc = Abc::new();
    abc.string("RC4");
    abc.string("key");
    let parsed = ParsedClient::from_tags(vec![SwfTag::DoAbc(abc.build())]).unwrap();
    assert_eq!(parsed.extract_rc4(), Err(ExtractionError::NoRC4Found));

    // the first `rc4` counts
    let mut abc = Abc::new();
    abc.string("rc4");
    abc.string("rc4");
    abc.string("key");
    let parsed = ParsedClient::from_tags(vec![SwfTag::DoAbc(abc.build())]).unwrap();
    assert_eq!(parsed.extract_rc4(), Ok("rc4"));
}

#[test]
fn missing_classes_and_parameters() {
    let mut abc = Abc::new();
    let members = vec![
        abc.const_string("BUILD_VERSION", "X31"),
        abc.const_int("MINOR_VERSION", 2),
        abc.const_int("PORT", 70000),
    ];
    abc.class("Parameters", members);
    let parsed = ParsedClient::from_tags(vec![SwfTag::DoAbc(abc.build())]).unwrap();
    assert_eq!(
        parsed.extract_packets().err(),
        Some(ExtractionError::ClassNotFound("GameServerConnection"))
    );
    assert_eq!(
        parsed.extract_all().err(),
        Some(ExtractionError::ClassNotFound("GameServerConnection"))
    );
    // a parameter of another type is not the parameter
    assert_eq!(
        parsed.extract_basic_parameters(),
        Err(ExtractionError::ParameterNotFound("MINOR_VERSION"))
    );
    assert!(parsed.class("Parameters").is_ok());
    assert_eq!(parsed.class("parameters").err(), Some(ExtractionError::ClassNotFound("parameters")));
    assert_eq!(
        ExtractionError::ParameterNotFound("PORT").message(),
        "Required parameter not found: PORT"
    );

    let mut abc = Abc::new();
    let members = vec![
        abc.const_string("BUILD_VERSION", "X31"),
        abc.const_string("MINOR_VERSION", "0"),
        abc.const_int("PORT", 70000),
        abc.const_int("TUTORIAL_GAMEID", 1),
        abc.const_int("NEXUS_GAMEID", 2),
    ];
    abc.class("Parameters", members);
    let parsed = ParsedClient::from_tags(vec![SwfTag::DoAbc(abc.build())]).unwrap();
    assert_eq!(
        parsed.extract_basic_parameters(),
        Err(ExtractionError::ParameterNotFound("RANDOM_REALM_GAMEID"))
    );
}

#[test]
fn the_port_is_the_low_word_and_the_last_constant_of_a_name_counts() {
    let mut abc = Abc::new();
    let members = vec![
        abc.const_string("BUILD_VERSION", "old"),
        abc.const_string("BUILD_VERSION", "X32"),
        abc.const_string("MINOR_VERSION", "0.1"),
        abc.const_int("PORT", 65536 + 2051),
        abc.const_int("TUTORIAL_GAMEID", 1),
        abc.const_int("NEXUS_GAMEID", 2),
        abc.const_int("RANDOM_REALM_GAMEID", 3),
    ];
    abc.class("Parameters", members);
    let parsed = ParsedClient::from_tags(vec![SwfTag::DoAbc(abc.build())]).unwrap();
    let basic = parsed.extract_basic_parameters().unwrap();
    assert_eq!(basic.version, "X32.0.1");
    assert_eq!(basic.port, 2051);
}

#[test]
fn clients_without_bytecode() {
    assert_eq!(
        ParsedClient::from_tags(vec![]).err(),
        Some(ExtractionError::NoBytecodeFound)
    );
    assert_eq!(
        ParsedClient::from_tags(vec![SwfTag::Other, SwfTag::Other]).err(),
        Some(ExtractionError::NoBytecodeFound)
    );
    // the first bytecode is the one that is parsed
    assert!(matches!(
        ParsedClient::from_tags(vec![SwfTag::DoAbc(vec![1, 2]), SwfTag::DoAbc(client())]),
        Err(ExtractionError::Avm2Error(ParseError::InsufficientBytes { .. }))
    ));
    assert_eq!(
        ParsedClient::new(b"not a flash file").err(),
        Some(ExtractionError::SwfParseError(swf_parser::SwfParseError::InvalidSignature))
    );
    assert_eq!(
        ParsedClient::new(&[]).err(),
        Some(ExtractionError::SwfParseError(swf_parser::SwfParseError::InvalidSignature))
    );
    assert_eq!(ExtractionError::NoRC4Found.message(), "The RC4 keys couldn't be found");
}

#[test]
fn error_messages_of_the_extractor() {
    assert_eq!(
        ExtractionError::SwfParseError(swf_parser::SwfParseError::InvalidSignature).message(),
        "SWF parse error: InvalidSignature"
    );
    assert_eq!(
        ExtractionError::NoBytecodeFound.message(),
        "No bytecode found (is the input correct?)"
    );
    assert_eq!(
        ExtractionError::ClassNotFound("Parameters").message(),
        "An expected class wasn't found: Parameters"
    );
    assert_eq!(
        ExtractionError::Avm2Error(ParseError::InsufficientBytes { remaining: 0, needed: 1 })
            .message(),
        "Error parsing AVM2 bytecode: Not enough bytes remaining in buffer: need 1 bytes, 0 bytes remaining"
    );
    let bytes = [0x02, 0xc3, 0x28];
    let error = String::parse_avm2(&mut Reader::new(&bytes)).unwrap_err();
    assert_eq!(
        error.message(),
        format!("Invalid UTF-8: {}", String::from_utf8(vec![0xc3, 0x28]).unwrap_err())
    );
}

#[test]
fn invalid_kinds_of_traits_and_of_constants() {
    // a trait of kind 7
    let bytes = [1, 0x07, 0, 0];
    assert_eq!(
        Trait::parse_avm2(&mut Reader::new(&bytes)).err(),
        Some(ParseError::InvalidFlag { value: 7, typ: "TraitKind" })
    );
    // the attributes are no part of the kind
    let bytes = [1, 0x37, 0, 0];
    assert_eq!(
        Trait::parse_avm2(&mut Reader::new(&bytes)).err(),
        Some(ParseError::InvalidFlag { value: 7, typ: "TraitKind" })
    );
    // a constant whose value is of kind 2
    let bytes = [1, 0x06, 0, 0, 5, 0x02];
    assert_eq!(
        Trait::parse_avm2(&mut Reader::new(&bytes)).err(),
        Some(ParseError::InvalidFlag { value: 2, typ: "ConstantKind" })
    );
    // a class, final
    let bytes = [9, 0x14, 3, 4, 0xff];
    let mut reader = Reader::new(&bytes);
    let parsed = Trait::parse_avm2(&mut reader).unwrap();
    assert_eq!(parsed.name, 9);
    assert_eq!(parsed.attributes, 1);
    assert_eq!(parsed.data, TraitData::Class { slot_id: 3, class: 4 });
    assert!(parsed.metadata.is_empty());
    assert_eq!(reader.peek(), &[0xff]);
}
