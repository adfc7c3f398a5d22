//! The metadata of an ABC file.

use vstd::prelude::*;
use crate::avm2::reader::{Parse, ParseError, Parsed, Reader};

verus! {

/// An entry of the metadata of a file: a name and pairs of a key and a
/// value, all as indices into the strings.
#[derive(Debug, Clone, PartialEq, Eq)]
pub struct Metadata {
    pub name: u32,
    pub items: Vec<(u32, u32)>,
}

/// The mathematical value of a `Metadata`.
pub struct MetadataModel {
    pub name: u32,
    pub items: Seq<(u32, u32)>,
}

impl DeepView for Metadata {
    type V = MetadataModel;

    open spec fn deep_view(&self) -> MetadataModel {
        MetadataModel { name: self.name, items: self.items.deep_view() }
    }
}

impl Parse for Metadata {
    /// The name, then the counted list of the items.
    open spec fn parsed(bytes: Seq<u8>) -> Parsed<MetadataModel> {
        match <(u32, Vec<(u32, u32)>)>::parsed(bytes) {
            Err(fault) => Err(fault),
            Ok(((name, items), k)) => Ok((MetadataModel { name, items }, k)),
        }
    }

    proof fn lemma_parsed_within(bytes: Seq<u8>) {
        <(u32, Vec<(u32, u32)>)>::lemma_parsed_within(bytes);
    }

    fn parse_avm2(input: &mut Reader) -> (r: Result<Self, ParseError>) {
        let (name, items) = <(u32, Vec<(u32, u32)>)>::parse_avm2(input)?;
        Ok(Metadata { name, items })
    }
}

} // verus!
