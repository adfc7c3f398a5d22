//! Basic parser for AVM2 bytecode.

pub mod reader;
pub mod primitives;
pub mod sequence;
pub mod constants;
pub mod traits;
pub mod metadata;
pub mod methods;
pub mod class;
pub mod abcfile;
pub mod linked;

pub use reader::{Parse, ParseError, ParseFault, Parsed, Reader};
