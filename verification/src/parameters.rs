//! The constants of the game client that the protocol depends on.

use vstd::prelude::*;
use vstd::utf8::encode_utf8;
use crate::mappings::PacketMappings;

verus! {

/// `hex::FromHexError`: the error of text that is no hexadecimal. Its
/// values are carried, never looked into.
#[verifier::external_type_specification]
#[verifier::external_body]
pub struct ExFromHexError(hex::FromHexError);

/// The value of a hexadecimal digit, in either case.
pub open spec fn hex_digit(c: u8) -> Option<u8> {
    if 0x30 <= c <= 0x39 {
        Some((c - 0x30) as u8)
    } else if 0x41 <= c <= 0x46 {
        Some((c - 0x41 + 10) as u8)
    } else if 0x61 <= c <= 0x66 {
        Some((c - 0x61 + 10) as u8)
    } else {
        None
    }
}

/// Whether `text` is made of pairs of hexadecimal digits.
pub open spec fn is_hex(text: Seq<u8>) -> bool {
    text.len() % 2 == 0 && forall|i: int| 0 <= i < text.len() ==> hex_digit(text[i]) is Some
}

/// The bytes that the pairs of hexadecimal digits of `text` stand for.
pub open spec fn hex_bytes(text: Seq<u8>) -> Seq<u8> {
    Seq::new(
        text.len() / 2,
        |i: int| (16 * hex_digit(text[2 * i])->Some_0 + hex_digit(text[2 * i + 1])->Some_0) as u8,
    )
}

/// `hex::decode`: the text is decoded exactly when it is an even number of
/// hexadecimal digits, of either case, and each pair of digits gives one byte.
#[verifier::external_body]
fn hex_decode(text: &str) -> (r: Result<Vec<u8>, hex::FromHexError>)
    ensures
        r is Ok <==> is_hex(encode_utf8(text@)),
        r is Ok ==> r->Ok_0@ == hex_bytes(encode_utf8(text@)),
{
    hex::decode(text)
}

/// Basic constants used by the game client.
#[derive(Debug, Clone, PartialEq, Eq)]
pub struct BasicParameters {
    /// Game build version.
    pub version: String,
    /// Protocol port.
    pub port: u16,
    /// Game ID for the tutorial.
    pub tutorial_game_id: i32,
    /// Game ID for the nexus.
    pub nexus_game_id: i32,
    /// Game ID for a random realm.
    pub random_game_id: i32,
}

/// The mathematical value of a `BasicParameters`.
pub struct BasicParametersModel {
    pub version: Seq<char>,
    pub port: u16,
    pub tutorial_game_id: i32,
    pub nexus_game_id: i32,
    pub random_game_id: i32,
}

impl View for BasicParameters {
    type V = BasicParametersModel;

    open spec fn view(&self) -> BasicParametersModel {
        BasicParametersModel {
            version: self.version@,
            port: self.port,
            tutorial_game_id: self.tutorial_game_id,
            nexus_game_id: self.nexus_game_id,
            random_game_id: self.random_game_id,
        }
    }
}

/// Constant data used by the protocol.
///
/// This type combines `BasicParameters` with networking data to provide an
/// all-in-one structure for full network protocol support.
pub struct Parameters {
    /// Mappings between internal and real packet IDs.
    pub packets: PacketMappings,
    /// Network RC4 keys, in hexadecimal.
    pub rc4: String,
    /// Other basic parameters.
    pub basic: BasicParameters,
}

impl Parameters {
    /// The raw binary RC4 keys, decoded from hexadecimal: the two keys one
    /// after the other.
    pub fn keys(&self) -> (r: Result<Vec<u8>, hex::FromHexError>)
        ensures
            r is Ok <==> is_hex(encode_utf8(self.rc4@)),
            r is Ok ==> r->Ok_0@ == hex_bytes(encode_utf8(self.rc4@)),
    {
        hex_decode(self.rc4.as_str())
    }
}

/// The parameters that were extracted from a client, kept with the address
/// that the client was downloaded from.
pub struct ClientData {
    /// The URL of the client this data was extracted from.
    pub client_url: String,
    /// The extracted data.
    pub params: Parameters,
}

impl ClientData {
    /// Whether this data was extracted from the client that is at `live_url`
    /// now, so that it can be used as it is; otherwise the parameters have
    /// to be extracted anew.
    pub fn is_current(&self, live_url: &str) -> (r: bool)
        ensures
            r == (self.client_url@ == live_url@),
    {
        let live = live_url.to_owned();
        self.client_url == live
    }
}

} // verus!
