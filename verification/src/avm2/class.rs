//! The classes of an ABC file: for each class its instance part, which holds
//! its name, and its static part.

use vstd::prelude::*;
use crate::avm2::reader::{
    lemma_skip_skip, parses_as, Parse, ParseError, Parsed, Reader,
};
use crate::avm2::traits::{Trait, TraitModel};

verus! {

/// The instance part of a class.
#[derive(Debug, Clone, PartialEq, Eq)]
pub struct Instance {
    /// The name of the class, as an index into the multinames.
    pub name: u32,
    /// The name of the class that this one extends.
    pub super_name: u32,
    /// 1 for sealed, 2 for final, 4 for an interface, 8 for a class with a
    /// protected namespace.
    pub flags: u8,
    /// The protected namespace, if the flags say that there is one.
    pub protected_namespace: Option<u32>,
    /// The interfaces that the class implements, as indices into the
    /// multinames.
    pub interfaces: Vec<u32>,
    /// The initializer of instances, as an index into the methods.
    pub initializer: u32,
    pub traits: Vec<Trait>,
}

/// The mathematical value of an `Instance`.
pub struct InstanceModel {
    pub name: u32,
    pub super_name: u32,
    pub flags: u8,
    pub protected_namespace: Option<u32>,
    pub interfaces: Seq<u32>,
    pub initializer: u32,
    pub traits: Seq<TraitModel>,
}

impl DeepView for Instance {
    type V = InstanceModel;

    open spec fn deep_view(&self) -> InstanceModel {
        InstanceModel {
            name: self.name,
            super_name: self.super_name,
            flags: self.flags,
            protected_namespace: self.protected_namespace,
            interfaces: self.interfaces.deep_view(),
            initializer: self.initializer,
            traits: self.traits.deep_view(),
        }
    }
}

/// The protected namespace of an instance, if the flags say that there is
/// one.
pub open spec fn parsed_protected_namespace(flags: u8, bytes: Seq<u8>) -> Parsed<Option<u32>> {
    if (flags / 8) % 2 == 1 {
        match u32::parsed(bytes) {
            Err(fault) => Err(fault),
            Ok((namespace, k)) => Ok((Some(namespace), k)),
        }
    } else {
        Ok((None, 0))
    }
}

/// What follows the name, the name of the super class and the flags of an
/// instance.
pub open spec fn parsed_instance_rest(name: u32, super_name: u32, flags: u8, bytes: Seq<u8>) -> Parsed<
    InstanceModel,
> {
    match parsed_protected_namespace(flags, bytes) {
        Err(fault) => Err(fault),
        Ok((protected_namespace, k)) => match <(Vec<u32>, u32, Vec<Trait>)>::parsed(
            bytes.skip(k),
        ) {
            Err(fault) => Err(fault),
            Ok(((interfaces, initializer, traits), m)) => Ok(
                (
                    InstanceModel {
                        name,
                        super_name,
                        flags,
                        protected_namespace,
                        interfaces,
                        initializer,
                        traits,
                    },
                    k + m,
                ),
            ),
        },
    }
}

/// A successful parse of the rest of an instance consumes a prefix of its
/// input.
pub proof fn lemma_parsed_instance_rest_within(
    name: u32,
    super_name: u32,
    flags: u8,
    bytes: Seq<u8>,
)
    ensures
        parsed_instance_rest(name, super_name, flags, bytes) is Ok ==> 0 <= parsed_instance_rest(
            name,
            super_name,
            flags,
            bytes,
        )->Ok_0.1 <= bytes.len(),
{
    if let Ok((_, k)) = parsed_protected_namespace(flags, bytes) {
        <(Vec<u32>, u32, Vec<Trait>)>::lemma_parsed_within(bytes.skip(k));
    }
}

fn parse_instance_rest(name: u32, super_name: u32, flags: u8, input: &mut Reader) -> (r: Result<
    Instance,
    ParseError,
>)
    ensures
        parses_as(
            r,
            parsed_instance_rest(name, super_name, flags, old(input)@),
            old(input)@,
            final(input)@,
        ),
{
    let ghost start = input@;
    let protected_namespace: Option<u32> = if (flags / 8) % 2 == 1 {
        Some(u32::parse_avm2(input)?)
    } else {
        assert(start.skip(0) =~= start);
        None
    };
    let ghost k = parsed_protected_namespace(flags, start)->Ok_0.1;
    let (interfaces, initializer, traits) = <(Vec<u32>, u32, Vec<Trait>)>::parse_avm2(input)?;
    proof {
        let m = <(Vec<u32>, u32, Vec<Trait>)>::parsed(start.skip(k))->Ok_0.1;
        <(Vec<u32>, u32, Vec<Trait>)>::lemma_parsed_within(start.skip(k));
        lemma_skip_skip(start, k, m);
    }
    Ok(Instance { name, super_name, flags, protected_namespace, interfaces, initializer, traits })
}

impl Parse for Instance {
    /// The name, the name of the super class, the flags, the protected
    /// namespace if the flags say so, the counted list of the interfaces,
    /// the initializer, the counted list of the traits.
    open spec fn parsed(bytes: Seq<u8>) -> Parsed<InstanceModel> {
        match <(u32, u32, u8)>::parsed(bytes) {
            Err(fault) => Err(fault),
            Ok(((name, super_name, flags), k)) => match parsed_instance_rest(
                name,
                super_name,
                flags,
                bytes.skip(k),
            ) {
                Err(fault) => Err(fault),
                Ok((instance, m)) => Ok((instance, k + m)),
            },
        }
    }

    proof fn lemma_parsed_within(bytes: Seq<u8>) {
        <(u32, u32, u8)>::lemma_parsed_within(bytes);
        if let Ok(((name, super_name, flags), k)) = <(u32, u32, u8)>::parsed(bytes) {
            lemma_parsed_instance_rest_within(name, super_name, flags, bytes.skip(k));
        }
    }

    fn parse_avm2(input: &mut Reader) -> (r: Result<Self, ParseError>) {
        let (name, super_name, flags) = <(u32, u32, u8)>::parse_avm2(input)?;
        let ghost k = <(u32, u32, u8)>::parsed(old(input)@)->Ok_0.1;
        let instance = parse_instance_rest(name, super_name, flags, input)?;
        proof {
            let m = parsed_instance_rest(name, super_name, flags, old(input)@.skip(k))->Ok_0.1;
            <(u32, u32, u8)>::lemma_parsed_within(old(input)@);
            lemma_parsed_instance_rest_within(name, super_name, flags, old(input)@.skip(k));
            lemma_skip_skip(old(input)@, k, m);
        }
        Ok(instance)
    }
}

/// The static part of a class.
#[derive(Debug, Clone, PartialEq, Eq)]
pub struct Class {
    /// The static initializer, as an index into the methods.
    pub initializer: u32,
    pub traits: Vec<Trait>,
}

/// The mathematical value of a `Class`.
pub struct ClassModel {
    pub initializer: u32,
    pub traits: Seq<TraitModel>,
}

impl DeepView for Class {
    type V = ClassModel;

    open spec fn deep_view(&self) -> ClassModel {
        ClassModel { initializer: self.initializer, traits: self.traits.deep_view() }
    }
}

impl Parse for Class {
    /// The initializer, then the counted list of the traits.
    open spec fn parsed(bytes: Seq<u8>) -> Parsed<ClassModel> {
        match <(u32, Vec<Trait>)>::parsed(bytes) {
            Err(fault) => Err(fault),
            Ok(((initializer, traits), k)) => Ok((ClassModel { initializer, traits }, k)),
        }
    }

    proof fn lemma_parsed_within(bytes: Seq<u8>) {
        <(u32, Vec<Trait>)>::lemma_parsed_within(bytes);
    }

    fn parse_avm2(input: &mut Reader) -> (r: Result<Self, ParseError>) {
        let (initializer, traits) = <(u32, Vec<Trait>)>::parse_avm2(input)?;
        Ok(Class { initializer, traits })
    }
}

} // verus!
