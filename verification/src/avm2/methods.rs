//! The signatures and the bodies of the methods of an ABC file. The
//! extractor reads no method: they are parsed to get past them.

use vstd::prelude::*;
use crate::avm2::reader::{
    lemma_skip_skip, parses_as, Parse, ParseError, Parsed, Reader,
};
use crate::avm2::sequence::{lemma_parsed_list_within, parse_list, parsed_list};
use crate::avm2::traits::{Trait, TraitModel};

verus! {

/// The signature of a method.
#[derive(Debug, Clone, PartialEq, Eq)]
pub struct MethodSignature {
    /// The type of the result, as an index into the multinames.
    pub return_type: u32,
    /// The types of the parameters, as indices into the multinames.
    pub param_types: Vec<u32>,
    /// The name, as an index into the strings.
    pub name: u32,
    /// 8 says that the method has optional parameters, 128 that its
    /// parameters have names.
    pub flags: u8,
    /// The defaults of the optional parameters: for each an index and the
    /// kind of constant that the index is for.
    pub options: Vec<(u32, u8)>,
    /// The names of the parameters, as indices into the strings.
    pub param_names: Vec<u32>,
}

/// The mathematical value of a `MethodSignature`.
pub struct MethodSignatureModel {
    pub return_type: u32,
    pub param_types: Seq<u32>,
    pub name: u32,
    pub flags: u8,
    pub options: Seq<(u32, u8)>,
    pub param_names: Seq<u32>,
}

impl DeepView for MethodSignature {
    type V = MethodSignatureModel;

    open spec fn deep_view(&self) -> MethodSignatureModel {
        MethodSignatureModel {
            return_type: self.return_type,
            param_types: self.param_types.deep_view(),
            name: self.name,
            flags: self.flags,
            options: self.options.deep_view(),
            param_names: self.param_names.deep_view(),
        }
    }
}

/// The defaults of the optional parameters, if the flags say that there are
/// any.
pub open spec fn parsed_options(flags: u8, bytes: Seq<u8>) -> Parsed<Seq<(u32, u8)>> {
    if (flags / 8) % 2 == 1 {
        Vec::<(u32, u8)>::parsed(bytes)
    } else {
        Ok((Seq::empty(), 0))
    }
}

/// The names of the parameters, if the flags say that they have names.
pub open spec fn parsed_param_names(flags: u8, param_count: u32, bytes: Seq<u8>) -> Parsed<
    Seq<u32>,
> {
    if flags >= 128 {
        parsed_list::<u32>(bytes, param_count as nat)
    } else {
        Ok((Seq::empty(), 0))
    }
}

/// What follows the number of parameters and the type of the result.
pub open spec fn parsed_signature_rest(param_count: u32, return_type: u32, bytes: Seq<u8>) -> Parsed<
    MethodSignatureModel,
> {
    match parsed_list::<u32>(bytes, param_count as nat) {
        Err(fault) => Err(fault),
        Ok((param_types, k)) => match <(u32, u8)>::parsed(bytes.skip(k)) {
            Err(fault) => Err(fault),
            Ok(((name, flags), m)) => match parsed_options(flags, bytes.skip(k + m)) {
                Err(fault) => Err(fault),
                Ok((options, j)) => match parsed_param_names(
                    flags,
                    param_count,
                    bytes.skip(k + m + j),
                ) {
                    Err(fault) => Err(fault),
                    Ok((param_names, i)) => Ok(
                        (
                            MethodSignatureModel {
                                return_type,
                                param_types,
                                name,
                                flags,
                                options,
                                param_names,
                            },
                            k + m + j + i,
                        ),
                    ),
                },
            },
        },
    }
}

/// A successful parse of the rest of a signature consumes a prefix of its
/// input.
pub proof fn lemma_parsed_signature_rest_within(param_count: u32, return_type: u32, bytes: Seq<u8>)
    ensures
        parsed_signature_rest(param_count, return_type, bytes) is Ok ==> 0
            <= parsed_signature_rest(param_count, return_type, bytes)->Ok_0.1 <= bytes.len(),
{
    lemma_parsed_list_within::<u32>(bytes, param_count as nat);
    if let Ok((_, k)) = parsed_list::<u32>(bytes, param_count as nat) {
        <(u32, u8)>::lemma_parsed_within(bytes.skip(k));
        if let Ok(((_, flags), m)) = <(u32, u8)>::parsed(bytes.skip(k)) {
            Vec::<(u32, u8)>::lemma_parsed_within(bytes.skip(k + m));
            if let Ok((_, j)) = parsed_options(flags, bytes.skip(k + m)) {
                lemma_parsed_list_within::<u32>(bytes.skip(k + m + j), param_count as nat);
            }
        }
    }
}

fn parse_signature_rest(param_count: u32, return_type: u32, input: &mut Reader) -> (r: Result<
    MethodSignature,
    ParseError,
>)
    ensures
        parses_as(
            r,
            parsed_signature_rest(param_count, return_type, old(input)@),
            old(input)@,
            final(input)@,
        ),
{
    let ghost start = input@;
    let param_types = parse_list::<u32>(input, param_count as usize)?;
    let ghost k = parsed_list::<u32>(start, param_count as nat)->Ok_0.1;
    proof {
        lemma_parsed_list_within::<u32>(start, param_count as nat);
    }
    let (name, flags) = <(u32, u8)>::parse_avm2(input)?;
    let ghost m = <(u32, u8)>::parsed(start.skip(k))->Ok_0.1;
    proof {
        <(u32, u8)>::lemma_parsed_within(start.skip(k));
        lemma_skip_skip(start, k, m);
        Vec::<(u32, u8)>::lemma_parsed_within(start.skip(k + m));
    }
    let options: Vec<(u32, u8)> = if (flags / 8) % 2 == 1 {
        Vec::<(u32, u8)>::parse_avm2(input)?
    } else {
        let none: Vec<(u32, u8)> = Vec::new();
        assert(none.deep_view() =~= Seq::<(u32, u8)>::empty());
        assert(start.skip(k + m).skip(0) =~= start.skip(k + m));
        none
    };
    let ghost j = parsed_options(flags, start.skip(k + m))->Ok_0.1;
    proof {
        lemma_skip_skip(start, k + m, j);
        lemma_parsed_list_within::<u32>(start.skip(k + m + j), param_count as nat);
    }
    let param_names: Vec<u32> = if flags >= 128 {
        parse_list::<u32>(input, param_count as usize)?
    } else {
        let none: Vec<u32> = Vec::new();
        assert(none.deep_view() =~= Seq::<u32>::empty());
        assert(start.skip(k + m + j).skip(0) =~= start.skip(k + m + j));
        none
    };
    proof {
        let i = parsed_param_names(flags, param_count, start.skip(k + m + j))->Ok_0.1;
        lemma_skip_skip(start, k + m + j, i);
    }
    Ok(MethodSignature { return_type, param_types, name, flags, options, param_names })
}

impl Parse for MethodSignature {
    /// The number of parameters, the type of the result, the types of the
    /// parameters, the name, the flags, and what the flags call for: the
    /// defaults of the optional parameters, and the names of the parameters.
    open spec fn parsed(bytes: Seq<u8>) -> Parsed<MethodSignatureModel> {
        match <(u32, u32)>::parsed(bytes) {
            Err(fault) => Err(fault),
            Ok(((param_count, return_type), k)) => match parsed_signature_rest(
                param_count,
                return_type,
                bytes.skip(k),
            ) {
                Err(fault) => Err(fault),
                Ok((signature, m)) => Ok((signature, k + m)),
            },
        }
    }

    proof fn lemma_parsed_within(bytes: Seq<u8>) {
        <(u32, u32)>::lemma_parsed_within(bytes);
        if let Ok(((param_count, return_type), k)) = <(u32, u32)>::parsed(bytes) {
            lemma_parsed_signature_rest_within(param_count, return_type, bytes.skip(k));
        }
    }

    fn parse_avm2(input: &mut Reader) -> (r: Result<Self, ParseError>) {
        let (param_count, return_type) = <(u32, u32)>::parse_avm2(input)?;
        let ghost k = <(u32, u32)>::parsed(old(input)@)->Ok_0.1;
        let signature = parse_signature_rest(param_count, return_type, input)?;
        proof {
            let m = parsed_signature_rest(param_count, return_type, old(input)@.skip(k))->Ok_0.1;
            <(u32, u32)>::lemma_parsed_within(old(input)@);
            lemma_parsed_signature_rest_within(param_count, return_type, old(input)@.skip(k));
            lemma_skip_skip(old(input)@, k, m);
        }
        Ok(signature)
    }
}

/// A handler of exceptions of a method body: the range of the code that it
/// guards, where it starts, and the type and the name of what it catches.
#[derive(Debug, Clone, Copy, PartialEq, Eq, Hash, Structural)]
pub struct Exception {
    pub from: u32,
    pub to: u32,
    pub target: u32,
    pub exception_type: u32,
    pub variable_name: u32,
}

impl DeepView for Exception {
    type V = Exception;

    open spec fn deep_view(&self) -> Exception {
        *self
    }
}

impl Parse for Exception {
    /// Five variable-length integers.
    open spec fn parsed(bytes: Seq<u8>) -> Parsed<Exception> {
        match <(u32, u32, u32, u32, u32)>::parsed(bytes) {
            Err(fault) => Err(fault),
            Ok(((from, to, target, exception_type, variable_name), k)) => Ok(
                (Exception { from, to, target, exception_type, variable_name }, k),
            ),
        }
    }

    proof fn lemma_parsed_within(bytes: Seq<u8>) {
        <(u32, u32, u32, u32, u32)>::lemma_parsed_within(bytes);
    }

    fn parse_avm2(input: &mut Reader) -> (r: Result<Self, ParseError>) {
        let (from, to, target, exception_type, variable_name) = <(
            u32,
            u32,
            u32,
            u32,
            u32,
        )>::parse_avm2(input)?;
        Ok(Exception { from, to, target, exception_type, variable_name })
    }
}

/// The body of a method.
#[derive(Debug, Clone, PartialEq, Eq)]
pub struct MethodBody {
    /// The method, as an index into the signatures.
    pub method: u32,
    pub max_stack: u32,
    pub local_count: u32,
    pub init_scope_depth: u32,
    pub max_scope_depth: u32,
    /// The instructions.
    pub code: Vec<u8>,
    pub exceptions: Vec<Exception>,
    pub traits: Vec<Trait>,
}

/// The mathematical value of a `MethodBody`.
pub struct MethodBodyModel {
    pub method: u32,
    pub max_stack: u32,
    pub local_count: u32,
    pub init_scope_depth: u32,
    pub max_scope_depth: u32,
    pub code: Seq<u8>,
    pub exceptions: Seq<Exception>,
    pub traits: Seq<TraitModel>,
}

impl DeepView for MethodBody {
    type V = MethodBodyModel;

    open spec fn deep_view(&self) -> MethodBodyModel {
        MethodBodyModel {
            method: self.method,
            max_stack: self.max_stack,
            local_count: self.local_count,
            init_scope_depth: self.init_scope_depth,
            max_scope_depth: self.max_scope_depth,
            code: self.code.deep_view(),
            exceptions: self.exceptions.deep_view(),
            traits: self.traits.deep_view(),
        }
    }
}

/// The parts of a method body, in the order in which they are written.
pub type BodyParts = ((u32, u32, u32, u32, u32), Vec<u8>, Vec<Exception>, Vec<Trait>);

impl Parse for MethodBody {
    /// Five variable-length integers, the counted bytes of the code, the
    /// counted list of the exceptions, the counted list of the traits.
    open spec fn parsed(bytes: Seq<u8>) -> Parsed<MethodBodyModel> {
        match <BodyParts>::parsed(bytes) {
            Err(fault) => Err(fault),
            Ok((
                (
                    (method, max_stack, local_count, init_scope_depth, max_scope_depth),
                    code,
                    exceptions,
                    traits,
                ),
                k,
            )) => Ok(
                (
                    MethodBodyModel {
                        method,
                        max_stack,
                        local_count,
                        init_scope_depth,
                        max_scope_depth,
                        code,
                        exceptions,
                        traits,
                    },
                    k,
                ),
            ),
        }
    }

    proof fn lemma_parsed_within(bytes: Seq<u8>) {
        <BodyParts>::lemma_parsed_within(bytes);
    }

    fn parse_avm2(input: &mut Reader) -> (r: Result<Self, ParseError>) {
        let (
            (method, max_stack, local_count, init_scope_depth, max_scope_depth),
            code,
            exceptions,
            traits,
        ) = <BodyParts>::parse_avm2(input)?;
        Ok(
            MethodBody {
                method,
                max_stack,
                local_count,
                init_scope_depth,
                max_scope_depth,
                code,
                exceptions,
                traits,
            },
        )
    }
}

} // verus!
