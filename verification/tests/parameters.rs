use rotmg::mappings::PacketMappings;
use rotmg::parameters::{BasicParameters, ClientData, Parameters};

fn parameters(rc4: &str) -> Parameters {
    Parameters {
        packets: PacketMappings::new(vec![]),
        rc4: rc4.to_string(),
        basic: BasicParameters {
            version: "X31.2.3".to_string(),
            port: 2050,
            tutorial_game_id: -1,
            nexus_game_id: -2,
            random_game_id: -3,
        },
    }
}

#[test]
fn keys_are_decoded_from_hexadecimal() {
    assert_eq!(parameters("61626364").keys(), Ok(b"abcd".to_vec()));
    assert_eq!(
        parameters("00ff10aBCdEF").keys(),
        Ok(vec![0x00, 0xff, 0x10, 0xab, 0xcd, 0xef])
    );
    assert_eq!(parameters("").keys(), Ok(vec![]));
}

#[test]
fn keys_that_are_not_hexadecimal() {
    assert_eq!(parameters("123").keys(), Err(hex::FromHexError::OddLength));
    assert!(parameters("zz").keys().is_err());
    assert!(parameters("0x12").keys().is_err());
    assert!(parameters("\u{e9}\u{e9}").keys().is_err());
}

#[test]
fn cached_parameters_are_current_for_the_same_url() {
    let data = ClientData {
        client_url: "https://example.com/client/1".to_string(),
        params: parameters("6162"),
    };
    assert!(data.is_current("https://example.com/client/1"));
    assert!(!data.is_current("https://example.com/client/2"));
    assert!(!data.is_current(""));
}
