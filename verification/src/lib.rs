//! Core of an intercepting proxy for the Realm of the Mad God network
//! protocol.
//!
//! The proxy stands between a game client and a game server. It deciphers
//! and ciphers again what each of them sends, with one RC4 cipher for each
//! direction, and forwards the packets between the two. To do so it needs
//! the keys of the ciphers, the port and the IDs of the packets, which it
//! extracts from the bytecode of the game client.
//!
//! - [`rc4`]: the stream cipher.
//! - [`raw`], [`codec`]: raw packets, and the framing of the packet stream.
//! - [`adapters`], [`structured`], [`mappings`]: the encoding of the fields of
//!   packets, the catalog of packet types, and the mapping between packet
//!   types and packet IDs.
//! - [`avm2`], [`extractor`], [`parameters`]: the parser of the bytecode of
//!   the client, and the extraction of the parameters from it.
//! - [`policy`], [`session`], [`servers`]: what the proxy decides for a
//!   connection, from the policy file request to the forwarding.

pub mod adapters;
pub mod avm2;
pub mod codec;
pub mod extractor;
pub mod mappings;
pub mod parameters;
pub mod policy;
pub mod raw;
pub mod rc4;
pub mod servers;
pub mod session;
pub mod structured;
pub mod text;
pub mod wire;

pub use extractor::ParsedClient;
pub use mappings::PacketMappings;
pub use parameters::{BasicParameters, Parameters};
pub use policy::PolicyFile;
pub use raw::RawPacket;
