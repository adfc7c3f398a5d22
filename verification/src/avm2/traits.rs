//! The traits of classes, instances, scripts and method bodies: their named
//! members.

use vstd::prelude::*;
use crate::avm2::reader::{
    lemma_skip_skip, parses_as, Parse, ParseError, ParseFault, Parsed, Reader,
};

verus! {

/// What a trait is: the low four bits of its kind byte.
#[derive(Debug, Clone, Copy, PartialEq, Eq, Hash, Structural)]
pub enum TraitKind {
    Slot,
    Method,
    Getter,
    Setter,
    Class,
    Function,
    Const,
}

impl TraitKind {
    /// The kind that a number stands for, if any.
    pub open spec fn of_u8(byte: u8) -> Option<Self> {
        match byte {
            0 => Some(TraitKind::Slot),
            1 => Some(TraitKind::Method),
            2 => Some(TraitKind::Getter),
            3 => Some(TraitKind::Setter),
            4 => Some(TraitKind::Class),
            5 => Some(TraitKind::Function),
            6 => Some(TraitKind::Const),
            _ => None,
        }
    }

    /// What the number of a kind parses as.
    pub open spec fn of_flag(byte: u8) -> Result<Self, ParseFault> {
        match Self::of_u8(byte) {
            Some(kind) => Ok(kind),
            None => Err(ParseFault::InvalidFlag { value: byte, typ: "TraitKind"@ }),
        }
    }

    /// The kind that a byte stands for, or the error of a byte that stands for
    /// none.
    pub fn from_u8(byte: u8) -> (r: Result<Self, ParseError>)
        ensures
            match r {
                Ok(kind) => Self::of_flag(byte) == Ok::<Self, ParseFault>(kind),
                Err(e) => Self::of_flag(byte) == Err::<Self, ParseFault>(e@),
            },
    {
        match byte {
            0 => Ok(TraitKind::Slot),
            1 => Ok(TraitKind::Method),
            2 => Ok(TraitKind::Getter),
            3 => Ok(TraitKind::Setter),
            4 => Ok(TraitKind::Class),
            5 => Ok(TraitKind::Function),
            6 => Ok(TraitKind::Const),
            _ => Err(ParseError::InvalidFlag { value: byte, typ: "TraitKind" }),
        }
    }
}

/// The pool that the value of a slot or of a constant is taken from, or the
/// value itself where the kind alone says it.
#[derive(Debug, Clone, Copy, PartialEq, Eq, Hash, Structural)]
pub enum ConstantKind {
    Undefined,
    Utf8,
    Int,
    UInt,
    PrivateNs,
    Double,
    Namespace,
    False,
    True,
    Null,
    PackageNamespace,
    PackageInternalNs,
    ProtectedNamespace,
    ExplicitNamespace,
    StaticProtectedNs,
}

impl ConstantKind {
    /// The kind that a byte stands for, if any.
    pub open spec fn of_u8(byte: u8) -> Option<Self> {
        match byte {
            0x00 => Some(ConstantKind::Undefined),
            0x01 => Some(ConstantKind::Utf8),
            0x03 => Some(ConstantKind::Int),
            0x04 => Some(ConstantKind::UInt),
            0x05 => Some(ConstantKind::PrivateNs),
            0x06 => Some(ConstantKind::Double),
            0x08 => Some(ConstantKind::Namespace),
            0x0a => Some(ConstantKind::False),
            0x0b => Some(ConstantKind::True),
            0x0c => Some(ConstantKind::Null),
            0x16 => Some(ConstantKind::PackageNamespace),
            0x17 => Some(ConstantKind::PackageInternalNs),
            0x18 => Some(ConstantKind::ProtectedNamespace),
            0x19 => Some(ConstantKind::ExplicitNamespace),
            0x1a => Some(ConstantKind::StaticProtectedNs),
            _ => None,
        }
    }

    /// What the byte of a kind parses as.
    pub open spec fn of_flag(byte: u8) -> Result<Self, ParseFault> {
        match Self::of_u8(byte) {
            Some(kind) => Ok(kind),
            None => Err(ParseFault::InvalidFlag { value: byte, typ: "ConstantKind"@ }),
        }
    }

    /// The kind that a byte stands for, or the error of a byte that stands for
    /// none.
    pub fn from_u8(byte: u8) -> (r: Result<Self, ParseError>)
        ensures
            match r {
                Ok(kind) => Self::of_flag(byte) == Ok::<Self, ParseFault>(kind),
                Err(e) => Self::of_flag(byte) == Err::<Self, ParseFault>(e@),
            },
    {
        match byte {
            0x00 => Ok(ConstantKind::Undefined),
            0x01 => Ok(ConstantKind::Utf8),
            0x03 => Ok(ConstantKind::Int),
            0x04 => Ok(ConstantKind::UInt),
            0x05 => Ok(ConstantKind::PrivateNs),
            0x06 => Ok(ConstantKind::Double),
            0x08 => Ok(ConstantKind::Namespace),
            0x0a => Ok(ConstantKind::False),
            0x0b => Ok(ConstantKind::True),
            0x0c => Ok(ConstantKind::Null),
            0x16 => Ok(ConstantKind::PackageNamespace),
            0x17 => Ok(ConstantKind::PackageInternalNs),
            0x18 => Ok(ConstantKind::ProtectedNamespace),
            0x19 => Ok(ConstantKind::ExplicitNamespace),
            0x1a => Ok(ConstantKind::StaticProtectedNs),
            _ => Err(ParseError::InvalidFlag { value: byte, typ: "ConstantKind" }),
        }
    }
}

impl DeepView for ConstantKind {
    type V = ConstantKind;

    open spec fn deep_view(&self) -> ConstantKind {
        *self
    }
}

impl Parse for ConstantKind {
    /// One byte.
    open spec fn parsed(bytes: Seq<u8>) -> Parsed<ConstantKind> {
        match u8::parsed(bytes) {
            Err(fault) => Err(fault),
            Ok((flag, k)) => match ConstantKind::of_flag(flag) {
                Err(fault) => Err(fault),
                Ok(kind) => Ok((kind, k)),
            },
        }
    }

    proof fn lemma_parsed_within(bytes: Seq<u8>) {
    }

    fn parse_avm2(input: &mut Reader) -> (r: Result<Self, ParseError>) {
        let flag: u8 = u8::parse_avm2(input)?;
        ConstantKind::from_u8(flag)
    }
}

/// The value of a slot or of a constant, as the trait gives it: an index and
/// the pool that the index is for. An index of 0 says that there is no
/// value; no kind follows it then, and the kind is `Undefined`.
#[derive(Debug, Clone, Copy, PartialEq, Eq, Hash, Structural)]
pub struct SlotData {
    pub slot_id: u32,
    pub slot_type: u32,
    pub value_index: u32,
    pub value_kind: ConstantKind,
}

impl DeepView for SlotData {
    type V = SlotData;

    open spec fn deep_view(&self) -> SlotData {
        *self
    }
}

impl Parse for SlotData {
    /// The slot, the type, the index of the value, and the kind of the value
    /// unless the index is 0.
    open spec fn parsed(bytes: Seq<u8>) -> Parsed<SlotData> {
        match <(u32, u32, u32)>::parsed(bytes) {
            Err(fault) => Err(fault),
            Ok(((slot_id, slot_type, value_index), k)) => {
                if value_index == 0 {
                    Ok(
                        (
                            SlotData {
                                slot_id,
                                slot_type,
                                value_index,
                                value_kind: ConstantKind::Undefined,
                            },
                            k,
                        ),
                    )
                } else {
                    match ConstantKind::parsed(bytes.skip(k)) {
                        Err(fault) => Err(fault),
                        Ok((value_kind, m)) => Ok(
                            (SlotData { slot_id, slot_type, value_index, value_kind }, k + m),
                        ),
                    }
                }
            },
        }
    }

    proof fn lemma_parsed_within(bytes: Seq<u8>) {
        <(u32, u32, u32)>::lemma_parsed_within(bytes);
    }

    fn parse_avm2(input: &mut Reader) -> (r: Result<Self, ParseError>) {
        let (slot_id, slot_type, value_index) = <(u32, u32, u32)>::parse_avm2(input)?;
        if value_index == 0 {
            Ok(SlotData { slot_id, slot_type, value_index, value_kind: ConstantKind::Undefined })
        } else {
            let ghost k = <(u32, u32, u32)>::parsed(old(input)@)->Ok_0.1;
            let value_kind = ConstantKind::parse_avm2(input)?;
            proof {
                <(u32, u32, u32)>::lemma_parsed_within(old(input)@);
                lemma_skip_skip(old(input)@, k, 1);
            }
            Ok(SlotData { slot_id, slot_type, value_index, value_kind })
        }
    }
}

/// What a trait holds, according to its kind.
#[derive(Debug, Clone, Copy, PartialEq, Eq, Hash, Structural)]
pub enum TraitData {
    Slot(SlotData),
    Const(SlotData),
    Method { disp_id: u32, method: u32 },
    Getter { disp_id: u32, method: u32 },
    Setter { disp_id: u32, method: u32 },
    Class { slot_id: u32, class: u32 },
    Function { slot_id: u32, function: u32 },
}

impl DeepView for TraitData {
    type V = TraitData;

    open spec fn deep_view(&self) -> TraitData {
        *self
    }
}

/// What follows the kind byte of a trait of the given kind.
pub open spec fn parsed_trait_data(kind: TraitKind, bytes: Seq<u8>) -> Parsed<TraitData> {
    match kind {
        TraitKind::Slot => match SlotData::parsed(bytes) {
            Err(fault) => Err(fault),
            Ok((slot, k)) => Ok((TraitData::Slot(slot), k)),
        },
        TraitKind::Const => match SlotData::parsed(bytes) {
            Err(fault) => Err(fault),
            Ok((slot, k)) => Ok((TraitData::Const(slot), k)),
        },
        TraitKind::Method => match <(u32, u32)>::parsed(bytes) {
            Err(fault) => Err(fault),
            Ok(((disp_id, method), k)) => Ok((TraitData::Method { disp_id, method }, k)),
        },
        TraitKind::Getter => match <(u32, u32)>::parsed(bytes) {
            Err(fault) => Err(fault),
            Ok(((disp_id, method), k)) => Ok((TraitData::Getter { disp_id, method }, k)),
        },
        TraitKind::Setter => match <(u32, u32)>::parsed(bytes) {
            Err(fault) => Err(fault),
            Ok(((disp_id, method), k)) => Ok((TraitData::Setter { disp_id, method }, k)),
        },
        TraitKind::Class => match <(u32, u32)>::parsed(bytes) {
            Err(fault) => Err(fault),
            Ok(((slot_id, class), k)) => Ok((TraitData::Class { slot_id, class }, k)),
        },
        TraitKind::Function => match <(u32, u32)>::parsed(bytes) {
            Err(fault) => Err(fault),
            Ok(((slot_id, function), k)) => Ok((TraitData::Function { slot_id, function }, k)),
        },
    }
}

/// A successful parse of the data of a trait consumes a prefix of its input.
pub proof fn lemma_parsed_trait_data_within(kind: TraitKind, bytes: Seq<u8>)
    ensures
        parsed_trait_data(kind, bytes) is Ok ==> 0 <= parsed_trait_data(kind, bytes)->Ok_0.1
            <= bytes.len(),
{
    SlotData::lemma_parsed_within(bytes);
    <(u32, u32)>::lemma_parsed_within(bytes);
}

/// Parse what follows the kind byte of a trait of the given kind.
pub fn parse_trait_data(kind: TraitKind, input: &mut Reader) -> (r: Result<TraitData, ParseError>)
    ensures
        parses_as(r, parsed_trait_data(kind, old(input)@), old(input)@, final(input)@),
{
    match kind {
        TraitKind::Slot => Ok(TraitData::Slot(SlotData::parse_avm2(input)?)),
        TraitKind::Const => Ok(TraitData::Const(SlotData::parse_avm2(input)?)),
        TraitKind::Method => {
            let (disp_id, method) = <(u32, u32)>::parse_avm2(input)?;
            Ok(TraitData::Method { disp_id, method })
        },
        TraitKind::Getter => {
            let (disp_id, method) = <(u32, u32)>::parse_avm2(input)?;
            Ok(TraitData::Getter { disp_id, method })
        },
        TraitKind::Setter => {
            let (disp_id, method) = <(u32, u32)>::parse_avm2(input)?;
            Ok(TraitData::Setter { disp_id, method })
        },
        TraitKind::Class => {
            let (slot_id, class) = <(u32, u32)>::parse_avm2(input)?;
            Ok(TraitData::Class { slot_id, class })
        },
        TraitKind::Function => {
            let (slot_id, function) = <(u32, u32)>::parse_avm2(input)?;
            Ok(TraitData::Function { slot_id, function })
        },
    }
}

/// A trait: a named member of a class, an instance, a script or a method
/// body.
#[derive(Debug, Clone, PartialEq, Eq)]
pub struct Trait {
    /// The name, as an index into the multinames.
    pub name: u32,
    pub data: TraitData,
    /// The high four bits of the kind byte: 1 for final, 2 for override, 4
    /// for metadata.
    pub attributes: u8,
    /// The metadata of the trait, as indices into the metadata of the file.
    pub metadata: Vec<u32>,
}

/// The mathematical value of a `Trait`.
pub struct TraitModel {
    pub name: u32,
    pub data: TraitData,
    pub attributes: u8,
    pub metadata: Seq<u32>,
}

impl DeepView for Trait {
    type V = TraitModel;

    open spec fn deep_view(&self) -> TraitModel {
        TraitModel {
            name: self.name,
            data: self.data,
            attributes: self.attributes,
            metadata: self.metadata.deep_view(),
        }
    }
}

/// The metadata of a trait: a list of indices if the attributes say that
/// there is metadata, nothing otherwise.
pub open spec fn parsed_trait_metadata(attributes: u8, bytes: Seq<u8>) -> Parsed<Seq<u32>> {
    if (attributes / 4) % 2 == 1 {
        Vec::<u32>::parsed(bytes)
    } else {
        Ok((Seq::empty(), 0))
    }
}

/// What follows the name and the kind byte of a trait.
pub open spec fn parsed_trait_body(name: u32, kind_byte: u8, bytes: Seq<u8>) -> Parsed<
    TraitModel,
> {
    match TraitKind::of_flag(kind_byte % 16) {
        Err(fault) => Err(fault),
        Ok(kind) => match parsed_trait_data(kind, bytes) {
            Err(fault) => Err(fault),
            Ok((data, k)) => match parsed_trait_metadata(kind_byte / 16, bytes.skip(k)) {
                Err(fault) => Err(fault),
                Ok((metadata, m)) => Ok(
                    (TraitModel { name, data, attributes: kind_byte / 16, metadata }, k + m),
                ),
            },
        },
    }
}

impl Parse for Trait {
    /// The name; the kind byte, whose low four bits are the kind and whose
    /// high four bits are the attributes; what the kind calls for; and the
    /// metadata, if the attributes say so.
    open spec fn parsed(bytes: Seq<u8>) -> Parsed<TraitModel> {
        match <(u32, u8)>::parsed(bytes) {
            Err(fault) => Err(fault),
            Ok(((name, kind_byte), k)) => match parsed_trait_body(name, kind_byte, bytes.skip(k)) {
                Err(fault) => Err(fault),
                Ok((value, m)) => Ok((value, k + m)),
            },
        }
    }

    proof fn lemma_parsed_within(bytes: Seq<u8>) {
        <(u32, u8)>::lemma_parsed_within(bytes);
        if let Ok(((name, kind_byte), k)) = <(u32, u8)>::parsed(bytes) {
            let tail = bytes.skip(k);
            if let Ok(kind) = TraitKind::of_flag(kind_byte % 16) {
                lemma_parsed_trait_data_within(kind, tail);
                if let Ok((_, m)) = parsed_trait_data(kind, tail) {
                    Vec::<u32>::lemma_parsed_within(tail.skip(m));
                }
            }
        }
    }

    fn parse_avm2(input: &mut Reader) -> (r: Result<Self, ParseError>) {
        let (name, kind_byte) = <(u32, u8)>::parse_avm2(input)?;
        let ghost k = <(u32, u8)>::parsed(old(input)@)->Ok_0.1;
        let ghost tail = input@;
        proof {
            <(u32, u8)>::lemma_parsed_within(old(input)@);
        }
        let kind = TraitKind::from_u8(kind_byte % 16)?;
        let data = parse_trait_data(kind, input)?;
        let ghost m = parsed_trait_data(kind, tail)->Ok_0.1;
        proof {
            lemma_parsed_trait_data_within(kind, tail);
            Vec::<u32>::lemma_parsed_within(tail.skip(m));
        }
        let attributes: u8 = kind_byte / 16;
        let metadata: Vec<u32> = if (attributes / 4) % 2 == 1 {
            Vec::<u32>::parse_avm2(input)?
        } else {
            let none: Vec<u32> = Vec::new();
            assert(none.deep_view() =~= Seq::<u32>::empty());
            assert(tail.skip(m).skip(0) =~= tail.skip(m));
            none
        };
        proof {
            let j = parsed_trait_metadata(attributes, tail.skip(m))->Ok_0.1;
            lemma_skip_skip(tail, m, j);
            lemma_skip_skip(old(input)@, k, m + j);
        }
        Ok(Trait { name, data, attributes, metadata })
    }
}

} // verus!
