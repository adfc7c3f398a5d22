//! The ABC file: the bytecode of a client, as a `DoABC` tag holds it.

use vstd::prelude::*;
use crate::avm2::class::{Class, ClassModel, Instance, InstanceModel};
use crate::avm2::constants::{ConstantPool, ConstantPoolModel};
use crate::avm2::metadata::{Metadata, MetadataModel};
use crate::avm2::methods::{MethodBody, MethodBodyModel, MethodSignature, MethodSignatureModel};
use crate::avm2::reader::{
    lemma_skip_skip, parses_as, Parse, ParseError, Parsed, Reader,
};
use crate::avm2::sequence::{lemma_parsed_list_within, parse_list, parsed_list};
use crate::avm2::traits::{Trait, TraitModel};

verus! {

/// A script: what runs when the file is loaded.
#[derive(Debug, Clone, PartialEq, Eq)]
pub struct Script {
    /// The initializer, as an index into the methods.
    pub initializer: u32,
    pub traits: Vec<Trait>,
}

/// The mathematical value of a `Script`.
pub struct ScriptModel {
    pub initializer: u32,
    pub traits: Seq<TraitModel>,
}

impl DeepView for Script {
    type V = ScriptModel;

    open spec fn deep_view(&self) -> ScriptModel {
        ScriptModel { initializer: self.initializer, traits: self.traits.deep_view() }
    }
}

impl Parse for Script {
    /// The initializer, then the counted list of the traits.
    open spec fn parsed(bytes: Seq<u8>) -> Parsed<ScriptModel> {
        match <(u32, Vec<Trait>)>::parsed(bytes) {
            Err(fault) => Err(fault),
            Ok(((initializer, traits), k)) => Ok((ScriptModel { initializer, traits }, k)),
        }
    }

    proof fn lemma_parsed_within(bytes: Seq<u8>) {
        <(u32, Vec<Trait>)>::lemma_parsed_within(bytes);
    }

    fn parse_avm2(input: &mut Reader) -> (r: Result<Self, ParseError>) {
        let (initializer, traits) = <(u32, Vec<Trait>)>::parse_avm2(input)?;
        Ok(Script { initializer, traits })
    }
}

/// A parsed ABC file.
pub struct AbcFile {
    pub minor_version: u16,
    pub major_version: u16,
    pub constants: ConstantPool,
    pub methods: Vec<MethodSignature>,
    pub metadata: Vec<Metadata>,
    /// The instance parts of the classes.
    pub instances: Vec<Instance>,
    /// The static parts of the classes: as many as there are instances, the
    /// class at an index with the instance at that index.
    pub classes: Vec<Class>,
    pub scripts: Vec<Script>,
    pub bodies: Vec<MethodBody>,
}

/// The mathematical value of an `AbcFile`.
pub struct AbcFileModel {
    pub minor_version: u16,
    pub major_version: u16,
    pub constants: ConstantPoolModel,
    pub methods: Seq<MethodSignatureModel>,
    pub metadata: Seq<MetadataModel>,
    pub instances: Seq<InstanceModel>,
    pub classes: Seq<ClassModel>,
    pub scripts: Seq<ScriptModel>,
    pub bodies: Seq<MethodBodyModel>,
}

impl DeepView for AbcFile {
    type V = AbcFileModel;

    open spec fn deep_view(&self) -> AbcFileModel {
        AbcFileModel {
            minor_version: self.minor_version,
            major_version: self.major_version,
            constants: self.constants.deep_view(),
            methods: self.methods.deep_view(),
            metadata: self.metadata.deep_view(),
            instances: self.instances.deep_view(),
            classes: self.classes.deep_view(),
            scripts: self.scripts.deep_view(),
            bodies: self.bodies.deep_view(),
        }
    }
}

/// What an ABC file starts with: the two versions, the constants, the
/// methods, the metadata and the number of classes.
pub type Head = ((u16, u16), ConstantPool, Vec<MethodSignature>, Vec<Metadata>, u32);

/// What an ABC file ends with: the scripts and the method bodies.
pub type Tail = (Vec<Script>, Vec<MethodBody>);

/// The instances and the classes, of which there are `count` each, and what
/// follows them.
pub open spec fn parsed_classes(count: u32, bytes: Seq<u8>) -> Parsed<
    (Seq<InstanceModel>, Seq<ClassModel>, Seq<ScriptModel>, Seq<MethodBodyModel>),
> {
    match parsed_list::<Instance>(bytes, count as nat) {
        Err(fault) => Err(fault),
        Ok((instances, k)) => match parsed_list::<Class>(bytes.skip(k), count as nat) {
            Err(fault) => Err(fault),
            Ok((classes, m)) => match <Tail>::parsed(bytes.skip(k + m)) {
                Err(fault) => Err(fault),
                Ok(((scripts, bodies), j)) => Ok(
                    ((instances, classes, scripts, bodies), k + m + j),
                ),
            },
        },
    }
}

/// A successful parse of the classes and what follows them consumes a prefix
/// of its input.
pub proof fn lemma_parsed_classes_within(count: u32, bytes: Seq<u8>)
    ensures
        parsed_classes(count, bytes) is Ok ==> 0 <= parsed_classes(count, bytes)->Ok_0.1
            <= bytes.len(),
{
    lemma_parsed_list_within::<Instance>(bytes, count as nat);
    if let Ok((_, k)) = parsed_list::<Instance>(bytes, count as nat) {
        lemma_parsed_list_within::<Class>(bytes.skip(k), count as nat);
        if let Ok((_, m)) = parsed_list::<Class>(bytes.skip(k), count as nat) {
            <Tail>::lemma_parsed_within(bytes.skip(k + m));
        }
    }
}

fn parse_classes(count: u32, input: &mut Reader) -> (r: Result<
    (Vec<Instance>, Vec<Class>, Vec<Script>, Vec<MethodBody>),
    ParseError,
>)
    ensures
        parses_as(r, parsed_classes(count, old(input)@), old(input)@, final(input)@),
{
    let ghost start = input@;
    let instances = parse_list::<Instance>(input, count as usize)?;
    let ghost k = parsed_list::<Instance>(start, count as nat)->Ok_0.1;
    proof {
        lemma_parsed_list_within::<Instance>(start, count as nat);
    }
    let classes = parse_list::<Class>(input, count as usize)?;
    let ghost m = parsed_list::<Class>(start.skip(k), count as nat)->Ok_0.1;
    proof {
        lemma_parsed_list_within::<Class>(start.skip(k), count as nat);
        lemma_skip_skip(start, k, m);
    }
    let (scripts, bodies) = <Tail>::parse_avm2(input)?;
    proof {
        let j = <Tail>::parsed(start.skip(k + m))->Ok_0.1;
        <Tail>::lemma_parsed_within(start.skip(k + m));
        lemma_skip_skip(start, k + m, j);
    }
    Ok((instances, classes, scripts, bodies))
}

impl Parse for AbcFile {
    /// The minor version, the major version, the constant pool, the counted
    /// lists of the methods and of the metadata, the number of classes, that
    /// many instances, that many classes, and the counted lists of the
    /// scripts and of the method bodies.
    open spec fn parsed(bytes: Seq<u8>) -> Parsed<AbcFileModel> {
        match <Head>::parsed(bytes) {
            Err(fault) => Err(fault),
            Ok((((minor_version, major_version), constants, methods, metadata, count), k)) => {
                match parsed_classes(count, bytes.skip(k)) {
                    Err(fault) => Err(fault),
                    Ok(((instances, classes, scripts, bodies), m)) => Ok(
                        (
                            AbcFileModel {
                                minor_version,
                                major_version,
                                constants,
                                methods,
                                metadata,
                                instances,
                                classes,
                                scripts,
                                bodies,
                            },
                            k + m,
                        ),
                    ),
                }
            },
        }
    }

    proof fn lemma_parsed_within(bytes: Seq<u8>) {
        <Head>::lemma_parsed_within(bytes);
        if let Ok(((_, _, _, _, count), k)) = <Head>::parsed(bytes) {
            lemma_parsed_classes_within(count, bytes.skip(k));
        }
    }

    fn parse_avm2(input: &mut Reader) -> (r: Result<Self, ParseError>) {
        let ((minor_version, major_version), constants, methods, metadata, count) =
            <Head>::parse_avm2(input)?;
        let ghost k = <Head>::parsed(old(input)@)->Ok_0.1;
        let (instances, classes, scripts, bodies) = parse_classes(count, input)?;
        proof {
            let m = parsed_classes(count, old(input)@.skip(k))->Ok_0.1;
            <Head>::lemma_parsed_within(old(input)@);
            lemma_parsed_classes_within(count, old(input)@.skip(k));
            lemma_skip_skip(old(input)@, k, m);
        }
        Ok(
            AbcFile {
                minor_version,
                major_version,
                constants,
                methods,
                metadata,
                instances,
                classes,
                scripts,
                bodies,
            },
        )
    }
}

} // verus!
