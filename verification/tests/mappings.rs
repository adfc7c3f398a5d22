use rotmg::mappings::PacketMappings;
use rotmg::structured::catalog::PacketType;

#[test]
fn mappings_go_both_ways() {
    let mappings = PacketMappings::new(vec![
        (PacketType::Hello, 1),
        (PacketType::Move, 42),
        (PacketType::Failure, 0),
    ]);
    assert_eq!(mappings.to_game(PacketType::Hello), Some(1));
    assert_eq!(mappings.to_game(PacketType::Move), Some(42));
    assert_eq!(mappings.to_game(PacketType::Failure), Some(0));
    assert_eq!(mappings.to_game(PacketType::Text), None);
    assert_eq!(mappings.to_internal(1), Some(PacketType::Hello));
    assert_eq!(mappings.to_internal(42), Some(PacketType::Move));
    assert_eq!(mappings.to_internal(0), Some(PacketType::Failure));
    assert_eq!(mappings.to_internal(2), None);
}

#[test]
fn empty_mappings() {
    let mappings = PacketMappings::new(vec![]);
    assert_eq!(mappings.to_game(PacketType::Hello), None);
    assert_eq!(mappings.to_internal(0), None);
    assert_eq!(mappings.get_unmapped(), PacketType::values());
    assert!(mappings.entries().is_empty());
}

#[test]
fn a_later_binding_replaces_those_it_collides_with() {
    // the same ID for another type: the first type is bound no more
    let mappings = PacketMappings::new(vec![(PacketType::Hello, 1), (PacketType::Move, 1)]);
    assert_eq!(mappings.to_game(PacketType::Hello), None);
    assert_eq!(mappings.to_game(PacketType::Move), Some(1));
    assert_eq!(mappings.to_internal(1), Some(PacketType::Move));

    // another ID for the same type: the first ID is bound no more
    let mappings = PacketMappings::new(vec![(PacketType::Hello, 1), (PacketType::Hello, 2)]);
    assert_eq!(mappings.to_game(PacketType::Hello), Some(2));
    assert_eq!(mappings.to_internal(1), None);
    assert_eq!(mappings.to_internal(2), Some(PacketType::Hello));

    // both at once
    let mappings = PacketMappings::new(vec![
        (PacketType::Hello, 1),
        (PacketType::Move, 2),
        (PacketType::Hello, 2),
    ]);
    assert_eq!(mappings.to_game(PacketType::Hello), Some(2));
    assert_eq!(mappings.to_game(PacketType::Move), None);
    assert_eq!(mappings.to_internal(1), None);
    assert_eq!(mappings.entries(), vec![(PacketType::Hello, 2)]);
}

#[test]
fn unmapped_types_are_reported_in_catalog_order() {
    let mut pairs = vec![];
    for packet_type in PacketType::values() {
        if packet_type != PacketType::Ping && packet_type != PacketType::ArenaDeath {
            pairs.push((packet_type, 255 - packet_type.index()));
        }
    }
    let mappings = PacketMappings::new(pairs.clone());
    assert_eq!(mappings.get_unmapped(), vec![PacketType::ArenaDeath, PacketType::Ping]);
    assert_eq!(mappings.entries(), pairs);
    assert_eq!(mappings.to_internal(255 - PacketType::Hello.index()), Some(PacketType::Hello));

    let all: Vec<(PacketType, u8)> =
        PacketType::values().into_iter().map(|t| (t, t.index())).collect();
    assert!(PacketMappings::new(all).get_unmapped().is_empty());
}
