//! The constant pool of an ABC file.

use vstd::prelude::*;
use vstd::slice::slice_subrange;
use crate::avm2::reader::{Parse, ParseError, ParseFault, Parsed, Reader};
use crate::avm2::sequence::{Pool, PoolEntry};

verus! {

/// The kind of a namespace.
#[derive(Debug, Clone, Copy, PartialEq, Eq, Hash, Structural)]
pub enum NamespaceKind {
    Namespace,
    PackageNamespace,
    PackageInternalNs,
    ProtectedNamespace,
    ExplicitNamespace,
    StaticProtectedNs,
    PrivateNs,
}

impl NamespaceKind {
    /// The kind that a byte stands for, if any.
    pub open spec fn of_u8(byte: u8) -> Option<Self> {
        match byte {
            0x08 => Some(NamespaceKind::Namespace),
            0x16 => Some(NamespaceKind::PackageNamespace),
            0x17 => Some(NamespaceKind::PackageInternalNs),
            0x18 => Some(NamespaceKind::ProtectedNamespace),
            0x19 => Some(NamespaceKind::ExplicitNamespace),
            0x1a => Some(NamespaceKind::StaticProtectedNs),
            0x05 => Some(NamespaceKind::PrivateNs),
            _ => None,
        }
    }

    /// What the byte of a kind parses as.
    pub open spec fn of_flag(byte: u8) -> Result<Self, ParseFault> {
        match Self::of_u8(byte) {
            Some(kind) => Ok(kind),
            None => Err(ParseFault::InvalidFlag { value: byte, typ: "NamespaceKind"@ }),
        }
    }

    /// The kind that a byte stands for, or the error of a byte that stands for
    /// none.
    pub fn from_u8(byte: u8) -> (r: Result<Self, ParseError>)
        ensures
            match r {
                Ok(kind) => Self::of_flag(byte) == Ok::<Self, ParseFault>(kind),
                Err(e) => Self::of_flag(byte) == Err::<Self, ParseFault>(e@),
            },
    {
        match byte {
            0x08 => Ok(NamespaceKind::Namespace),
            0x16 => Ok(NamespaceKind::PackageNamespace),
            0x17 => Ok(NamespaceKind::PackageInternalNs),
            0x18 => Ok(NamespaceKind::ProtectedNamespace),
            0x19 => Ok(NamespaceKind::ExplicitNamespace),
            0x1a => Ok(NamespaceKind::StaticProtectedNs),
            0x05 => Ok(NamespaceKind::PrivateNs),
            _ => Err(ParseError::InvalidFlag { value: byte, typ: "NamespaceKind" }),
        }
    }
}

/// A namespace: its kind, and its name as an index into the strings.
#[derive(Debug, Clone, Copy, PartialEq, Eq, Hash, Structural)]
pub struct Namespace {
    pub kind: NamespaceKind,
    pub name: u32,
}

impl DeepView for Namespace {
    type V = Namespace;

    open spec fn deep_view(&self) -> Namespace {
        *self
    }
}

impl Parse for Namespace {
    /// The byte of the kind, then the index of the name.
    open spec fn parsed(bytes: Seq<u8>) -> Parsed<Namespace> {
        match <(u8, u32)>::parsed(bytes) {
            Err(fault) => Err(fault),
            Ok(((flag, name), k)) => match NamespaceKind::of_flag(flag) {
                Err(fault) => Err(fault),
                Ok(kind) => Ok((Namespace { kind, name }, k)),
            },
        }
    }

    proof fn lemma_parsed_within(bytes: Seq<u8>) {
        <(u8, u32)>::lemma_parsed_within(bytes);
    }

    fn parse_avm2(input: &mut Reader) -> (r: Result<Self, ParseError>) {
        let (flag, name) = <(u8, u32)>::parse_avm2(input)?;
        let kind = NamespaceKind::from_u8(flag)?;
        Ok(Namespace { kind, name })
    }
}

/// The kind of a multiname, as the byte that it starts with tells it.
#[derive(Debug, Clone, Copy, PartialEq, Eq, Hash, Structural)]
pub enum MultinameKind {
    QName,
    QNameA,
    RTQName,
    RTQNameA,
    RTQNameL,
    RTQNameLA,
    Multiname,
    MultinameA,
    MultinameL,
    MultinameLA,
    TypeName,
}

impl MultinameKind {
    /// The kind that a byte stands for, if any.
    pub open spec fn of_u8(byte: u8) -> Option<Self> {
        match byte {
            0x07 => Some(MultinameKind::QName),
            0x0d => Some(MultinameKind::QNameA),
            0x0f => Some(MultinameKind::RTQName),
            0x10 => Some(MultinameKind::RTQNameA),
            0x11 => Some(MultinameKind::RTQNameL),
            0x12 => Some(MultinameKind::RTQNameLA),
            0x09 => Some(MultinameKind::Multiname),
            0x0e => Some(MultinameKind::MultinameA),
            0x1b => Some(MultinameKind::MultinameL),
            0x1c => Some(MultinameKind::MultinameLA),
            0x1d => Some(MultinameKind::TypeName),
            _ => None,
        }
    }

    /// What the byte of a kind parses as.
    pub open spec fn of_flag(byte: u8) -> Result<Self, ParseFault> {
        match Self::of_u8(byte) {
            Some(kind) => Ok(kind),
            None => Err(ParseFault::InvalidFlag { value: byte, typ: "MultinameKind"@ }),
        }
    }

    /// Whether the kind is one of those that name an attribute.
    pub open spec fn names_attribute(self) -> bool {
        self is QNameA || self is RTQNameA || self is RTQNameLA || self is MultinameA
            || self is MultinameLA
    }

    /// The kind that a byte stands for, or the error of a byte that stands for
    /// none.
    pub fn from_u8(byte: u8) -> (r: Result<Self, ParseError>)
        ensures
            match r {
                Ok(kind) => Self::of_flag(byte) == Ok::<Self, ParseFault>(kind),
                Err(e) => Self::of_flag(byte) == Err::<Self, ParseFault>(e@),
            },
    {
        match byte {
            0x07 => Ok(MultinameKind::QName),
            0x0d => Ok(MultinameKind::QNameA),
            0x0f => Ok(MultinameKind::RTQName),
            0x10 => Ok(MultinameKind::RTQNameA),
            0x11 => Ok(MultinameKind::RTQNameL),
            0x12 => Ok(MultinameKind::RTQNameLA),
            0x09 => Ok(MultinameKind::Multiname),
            0x0e => Ok(MultinameKind::MultinameA),
            0x1b => Ok(MultinameKind::MultinameL),
            0x1c => Ok(MultinameKind::MultinameLA),
            0x1d => Ok(MultinameKind::TypeName),
            _ => Err(ParseError::InvalidFlag { value: byte, typ: "MultinameKind" }),
        }
    }

    /// Whether the kind is one of those that name an attribute.
    pub fn is_attribute(self) -> (r: bool)
        ensures
            r == self.names_attribute(),
    {
        match self {
            MultinameKind::QNameA
            | MultinameKind::RTQNameA
            | MultinameKind::RTQNameLA
            | MultinameKind::MultinameA
            | MultinameKind::MultinameLA => true,
            _ => false,
        }
    }
}

/// A multiname: a name that is qualified in one of several ways. The fields
/// are indices into the pools of strings, of namespaces, of namespace sets
/// and of multinames.
#[derive(Debug, Clone, PartialEq, Eq)]
pub enum Multiname {
    /// The multiname at index 0 of the pool: any name.
    Any,
    /// A name in one namespace.
    QName { namespace: u32, name: u32, attribute: bool },
    /// A name whose namespace is given at run time.
    RTQName { name: u32, attribute: bool },
    /// A name that is given at run time, as its namespace is.
    RTQNameL { attribute: bool },
    /// A name in one of a set of namespaces.
    Multiname { name: u32, namespace_set: u32, attribute: bool },
    /// A name that is given at run time, in one of a set of namespaces.
    MultinameL { namespace_set: u32, attribute: bool },
    /// A parameterized type: its name and its parameters are multinames.
    TypeName { name: u32, parameters: Vec<u32> },
}

/// The mathematical value of a `Multiname`.
pub enum MultinameModel {
    Any,
    QName { namespace: u32, name: u32, attribute: bool },
    RTQName { name: u32, attribute: bool },
    RTQNameL { attribute: bool },
    Multiname { name: u32, namespace_set: u32, attribute: bool },
    MultinameL { namespace_set: u32, attribute: bool },
    TypeName { name: u32, parameters: Seq<u32> },
}

impl DeepView for Multiname {
    type V = MultinameModel;

    open spec fn deep_view(&self) -> MultinameModel {
        match *self {
            Multiname::Any => MultinameModel::Any,
            Multiname::QName { namespace, name, attribute } => MultinameModel::QName {
                namespace,
                name,
                attribute,
            },
            Multiname::RTQName { name, attribute } => MultinameModel::RTQName { name, attribute },
            Multiname::RTQNameL { attribute } => MultinameModel::RTQNameL { attribute },
            Multiname::Multiname { name, namespace_set, attribute } => MultinameModel::Multiname {
                name,
                namespace_set,
                attribute,
            },
            Multiname::MultinameL { namespace_set, attribute } => MultinameModel::MultinameL {
                namespace_set,
                attribute,
            },
            Multiname::TypeName { name, parameters } => MultinameModel::TypeName {
                name,
                parameters: parameters.deep_view(),
            },
        }
    }
}

/// What follows the byte of the kind of a multiname.
pub open spec fn parsed_multiname(kind: MultinameKind, bytes: Seq<u8>) -> Parsed<MultinameModel> {
    let attribute = kind.names_attribute();
    match kind {
        MultinameKind::QName | MultinameKind::QNameA => match <(u32, u32)>::parsed(bytes) {
            Err(fault) => Err(fault),
            Ok(((namespace, name), k)) => Ok(
                (MultinameModel::QName { namespace, name, attribute }, k),
            ),
        },
        MultinameKind::RTQName | MultinameKind::RTQNameA => match u32::parsed(bytes) {
            Err(fault) => Err(fault),
            Ok((name, k)) => Ok((MultinameModel::RTQName { name, attribute }, k)),
        },
        MultinameKind::RTQNameL | MultinameKind::RTQNameLA => Ok(
            (MultinameModel::RTQNameL { attribute }, 0),
        ),
        MultinameKind::Multiname | MultinameKind::MultinameA => match <(u32, u32)>::parsed(bytes) {
            Err(fault) => Err(fault),
            Ok(((name, namespace_set), k)) => Ok(
                (MultinameModel::Multiname { name, namespace_set, attribute }, k),
            ),
        },
        MultinameKind::MultinameL | MultinameKind::MultinameLA => match u32::parsed(bytes) {
            Err(fault) => Err(fault),
            Ok((namespace_set, k)) => Ok(
                (MultinameModel::MultinameL { namespace_set, attribute }, k),
            ),
        },
        MultinameKind::TypeName => match <(u32, Vec<u32>)>::parsed(bytes) {
            Err(fault) => Err(fault),
            Ok(((name, parameters), k)) => Ok((MultinameModel::TypeName { name, parameters }, k)),
        },
    }
}

impl Parse for Multiname {
    /// The byte of the kind, then what the kind calls for.
    open spec fn parsed(bytes: Seq<u8>) -> Parsed<MultinameModel> {
        match u8::parsed(bytes) {
            Err(fault) => Err(fault),
            Ok((flag, k)) => match MultinameKind::of_flag(flag) {
                Err(fault) => Err(fault),
                Ok(kind) => match parsed_multiname(kind, bytes.skip(k)) {
                    Err(fault) => Err(fault),
                    Ok((name, m)) => Ok((name, k + m)),
                },
            },
        }
    }

    proof fn lemma_parsed_within(bytes: Seq<u8>) {
        if let Ok((flag, k)) = u8::parsed(bytes) {
            <(u32, u32)>::lemma_parsed_within(bytes.skip(k));
            u32::lemma_parsed_within(bytes.skip(k));
            <(u32, Vec<u32>)>::lemma_parsed_within(bytes.skip(k));
        }
    }

    fn parse_avm2(input: &mut Reader) -> (r: Result<Self, ParseError>) {
        let flag: u8 = u8::parse_avm2(input)?;
        let kind = MultinameKind::from_u8(flag)?;
        let attribute = kind.is_attribute();
        let ghost tail = input@;
        proof {
            <(u32, u32)>::lemma_parsed_within(tail);
            u32::lemma_parsed_within(tail);
            <(u32, Vec<u32>)>::lemma_parsed_within(tail);
            assert forall|m: int| 0 <= m <= tail.len() implies #[trigger] tail.skip(m)
                =~= old(input)@.skip(1 + m) by {}
        }
        match kind {
            MultinameKind::QName | MultinameKind::QNameA => {
                let (namespace, name) = <(u32, u32)>::parse_avm2(input)?;
                Ok(Multiname::QName { namespace, name, attribute })
            },
            MultinameKind::RTQName | MultinameKind::RTQNameA => {
                let name: u32 = u32::parse_avm2(input)?;
                Ok(Multiname::RTQName { name, attribute })
            },
            MultinameKind::RTQNameL | MultinameKind::RTQNameLA => {
                assert(tail.skip(0) =~= tail);
                Ok(Multiname::RTQNameL { attribute })
            },
            MultinameKind::Multiname | MultinameKind::MultinameA => {
                let (name, namespace_set) = <(u32, u32)>::parse_avm2(input)?;
                Ok(Multiname::Multiname { name, namespace_set, attribute })
            },
            MultinameKind::MultinameL | MultinameKind::MultinameLA => {
                let namespace_set: u32 = u32::parse_avm2(input)?;
                Ok(Multiname::MultinameL { namespace_set, attribute })
            },
            MultinameKind::TypeName => {
                let (name, parameters) = <(u32, Vec<u32>)>::parse_avm2(input)?;
                Ok(Multiname::TypeName { name, parameters })
            },
        }
    }
}

impl PoolEntry for i32 {
    open spec fn default_model() -> i32 {
        0
    }

    fn default_entry() -> (r: Self) {
        0
    }
}

impl PoolEntry for u32 {
    open spec fn default_model() -> u32 {
        0
    }

    fn default_entry() -> (r: Self) {
        0
    }
}

impl PoolEntry for u64 {
    open spec fn default_model() -> u64 {
        0
    }

    fn default_entry() -> (r: Self) {
        0
    }
}

impl PoolEntry for String {
    open spec fn default_model() -> Seq<char> {
        Seq::empty()
    }

    fn default_entry() -> (r: Self) {
        String::new()
    }
}

impl PoolEntry for Namespace {
    open spec fn default_model() -> Namespace {
        Namespace { kind: NamespaceKind::Namespace, name: 0 }
    }

    fn default_entry() -> (r: Self) {
        Namespace { kind: NamespaceKind::Namespace, name: 0 }
    }
}

impl PoolEntry for Vec<u32> {
    open spec fn default_model() -> Seq<u32> {
        Seq::empty()
    }

    fn default_entry() -> (r: Self) {
        let r: Vec<u32> = Vec::new();
        assert(r.deep_view() =~= Seq::<u32>::empty());
        r
    }
}

impl PoolEntry for Multiname {
    open spec fn default_model() -> MultinameModel {
        MultinameModel::Any
    }

    fn default_entry() -> (r: Self) {
        Multiname::Any
    }
}

/// The pools of an ABC file, in the order in which they are written.
pub type Pools = (
    (Pool<i32>, Pool<u32>, Pool<u64>),
    (Pool<String>, Pool<Namespace>, Pool<Vec<u32>>, Pool<Multiname>),
);

/// The constants of an ABC file: one pool for each type of constant. Index 0
/// of each pool holds the default of its type.
pub struct ConstantPool {
    pub integers: Pool<i32>,
    pub unsigned_integers: Pool<u32>,
    /// The doubles, as their IEEE-754 bits.
    pub doubles: Pool<u64>,
    pub strings: Pool<String>,
    pub namespaces: Pool<Namespace>,
    pub namespace_sets: Pool<Vec<u32>>,
    pub multinames: Pool<Multiname>,
}

/// The mathematical value of a `ConstantPool`.
pub struct ConstantPoolModel {
    pub integers: Seq<i32>,
    pub unsigned_integers: Seq<u32>,
    pub doubles: Seq<u64>,
    pub strings: Seq<Seq<char>>,
    pub namespaces: Seq<Namespace>,
    pub namespace_sets: Seq<Seq<u32>>,
    pub multinames: Seq<MultinameModel>,
}

impl DeepView for ConstantPool {
    type V = ConstantPoolModel;

    open spec fn deep_view(&self) -> ConstantPoolModel {
        ConstantPoolModel {
            integers: self.integers.deep_view(),
            unsigned_integers: self.unsigned_integers.deep_view(),
            doubles: self.doubles.deep_view(),
            strings: self.strings.deep_view(),
            namespaces: self.namespaces.deep_view(),
            namespace_sets: self.namespace_sets.deep_view(),
            multinames: self.multinames.deep_view(),
        }
    }
}

impl Parse for ConstantPool {
    /// The pools of the integers, the unsigned integers, the doubles, the
    /// strings, the namespaces, the namespace sets and the multinames, in
    /// this order.
    open spec fn parsed(bytes: Seq<u8>) -> Parsed<ConstantPoolModel> {
        match <Pools>::parsed(bytes) {
            Err(fault) => Err(fault),
            Ok((
                (
                    (integers, unsigned_integers, doubles),
                    (strings, namespaces, namespace_sets, multinames),
                ),
                k,
            )) => Ok(
                (
                    ConstantPoolModel {
                        integers,
                        unsigned_integers,
                        doubles,
                        strings,
                        namespaces,
                        namespace_sets,
                        multinames,
                    },
                    k,
                ),
            ),
        }
    }

    proof fn lemma_parsed_within(bytes: Seq<u8>) {
        <Pools>::lemma_parsed_within(bytes);
    }

    fn parse_avm2(input: &mut Reader) -> (r: Result<Self, ParseError>) {
        let (
            (integers, unsigned_integers, doubles),
            (strings, namespaces, namespace_sets, multinames),
        ) = <Pools>::parse_avm2(input)?;
        Ok(
            ConstantPool {
                integers,
                unsigned_integers,
                doubles,
                strings,
                namespaces,
                namespace_sets,
                multinames,
            },
        )
    }
}

impl ConstantPool {
    /// The strings that the pool holds after the default at index 0.
    pub open spec fn stored_strings(&self) -> Seq<String> {
        if self.strings.entries@.len() == 0 {
            Seq::empty()
        } else {
            self.strings.entries@.skip(1)
        }
    }

    /// All the strings of the pool, without the default at index 0.
    pub fn all_strings(&self) -> (r: &[String])
        ensures
            r@ == self.stored_strings(),
    {
        let all = self.strings.entries.as_slice();
        if all.len() == 0 {
            assert(all@ =~= Seq::<String>::empty());
            all
        } else {
            slice_subrange(all, 1, all.len())
        }
    }
}

} // verus!
