//! Structured packets: the catalog of packet types, and the encoding of
//! their fields.

pub mod stat;
pub mod schema;
pub mod value;
pub mod format;
pub mod decode;
pub mod encode;
pub mod laws;
pub mod check;
pub mod catalog;
pub mod packets;
