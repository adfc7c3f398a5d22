//! Extraction of the protocol parameters from a game client: the RC4 keys,
//! the packet IDs and the basic constants, out of the bytecode that the SWF
//! file of the client holds.

use vstd::prelude::*;
use vstd::string::StringExecFns;
use crate::avm2::abcfile::{AbcFile, AbcFileModel};
use crate::avm2::constants::ConstantPoolModel;
use crate::avm2::linked::{
    linked_classes, LinkedClass, LinkedClassModel, LinkedTrait, LinkedTraitModel, SlotValueModel,
    TraitSlotValue,
};
use crate::avm2::reader::{Parse, ParseError, ParseFault, Reader};
use crate::mappings::{bound_all, Bindings, PacketMappings};
use crate::parameters::{BasicParameters, BasicParametersModel, Parameters};
use crate::structured::catalog::{PacketType, PACKET_TYPES};
use crate::text::{lowercased, replace, replaced, to_lowercase};

verus! {

/// `swf_parser::SwfParseError`: the error of bytes that are no SWF file.
/// Its values are carried, never looked into.
#[verifier::external_type_specification]
#[verifier::external_body]
pub struct ExSwfParseError(swf_parser::SwfParseError);

/// A tag of an SWF file, as far as the extractor cares: the bytecode of a
/// `DoABC` tag, or any other tag.
#[derive(Debug, Clone, PartialEq, Eq)]
pub enum SwfTag {
    DoAbc(Vec<u8>),
    Other,
}

/// The mathematical value of a `SwfTag`.
pub enum SwfTagModel {
    DoAbc(Seq<u8>),
    Other,
}

impl DeepView for SwfTag {
    type V = SwfTagModel;

    open spec fn deep_view(&self) -> SwfTagModel {
        match *self {
            SwfTag::DoAbc(data) => SwfTagModel::DoAbc(data@),
            SwfTag::Other => SwfTagModel::Other,
        }
    }
}

/// The tags of the SWF file that `client` is, in their order, as
/// `swf_parser::parse_swf` gives them; none if it fails on `client`.
pub uninterp spec fn swf_tags(client: Seq<u8>) -> Option<Seq<SwfTagModel>>;

/// `swf_parser::parse_swf`: the tags of the movie, each `DoAbc` tag with
/// its data.
#[verifier::external_body]
fn parse_swf_tags(client: &[u8]) -> (r: Result<Vec<SwfTag>, swf_parser::SwfParseError>)
    ensures
        r is Ok ==> swf_tags(client@) == Some(r->Ok_0.deep_view()),
        r is Err ==> swf_tags(client@) is None,
{
    let movie = swf_parser::parse_swf(client)?;
    Ok(
        movie.tags.into_iter().map(
            |tag| match tag {
                swf_parser::swf_types::Tag::DoAbc(abc) => SwfTag::DoAbc(abc.data),
                _ => SwfTag::Other,
            },
        ).collect(),
    )
}

/// An error extracting the parameters from a client.
#[derive(Debug, PartialEq, Eq)]
pub enum ExtractionError {
    /// The client is not an SWF file that can be parsed.
    SwfParseError(swf_parser::SwfParseError),
    /// No bytecode found (is the input correct?)
    NoBytecodeFound,
    /// Error parsing AVM2 bytecode.
    Avm2Error(ParseError),
    /// An expected class wasn't found.
    ClassNotFound(&'static str),
    /// The RC4 keys couldn't be found.
    NoRC4Found,
    /// Required parameter not found.
    ParameterNotFound(&'static str),
}

/// What an `ExtractionError` says, without the payload that only the SWF
/// parser can build.
pub enum ExtractionFault {
    SwfParseError,
    NoBytecodeFound,
    Avm2Error(ParseFault),
    ClassNotFound(Seq<char>),
    NoRC4Found,
    ParameterNotFound(Seq<char>),
}

impl View for ExtractionError {
    type V = ExtractionFault;

    open spec fn view(&self) -> ExtractionFault {
        match *self {
            ExtractionError::SwfParseError(_) => ExtractionFault::SwfParseError,
            ExtractionError::NoBytecodeFound => ExtractionFault::NoBytecodeFound,
            ExtractionError::Avm2Error(e) => ExtractionFault::Avm2Error(e@),
            ExtractionError::ClassNotFound(name) => ExtractionFault::ClassNotFound(name@),
            ExtractionError::NoRC4Found => ExtractionFault::NoRC4Found,
            ExtractionError::ParameterNotFound(name) => ExtractionFault::ParameterNotFound(name@),
        }
    }
}

/// The description that the SWF parser gives of its error.
#[verifier::external_body]
fn swf_error_text(e: &swf_parser::SwfParseError) -> String {
    format!("{:?}", e)
}

impl ExtractionFault {
    /// The description of the fault; `detail` is what the SWF parser says of
    /// its error, or std of invalid UTF-8.
    pub open spec fn text(self, detail: Seq<char>) -> Seq<char> {
        match self {
            ExtractionFault::SwfParseError => "SWF parse error: "@ + detail,
            ExtractionFault::NoBytecodeFound => "No bytecode found (is the input correct?)"@,
            ExtractionFault::Avm2Error(fault) => "Error parsing AVM2 bytecode: "@ + fault.text(
                detail,
            ),
            ExtractionFault::ClassNotFound(name) => "An expected class wasn't found: "@ + name,
            ExtractionFault::NoRC4Found => "The RC4 keys couldn't be found"@,
            ExtractionFault::ParameterNotFound(name) => "Required parameter not found: "@ + name,
        }
    }
}

impl ExtractionError {
    /// A human-readable description of this error. An error of the SWF
    /// parser is described as the parser describes it.
    pub fn message(&self) -> (r: String)
        ensures
            exists|detail: Seq<char>| r@ == self@.text(detail),
    {
        match self {
            ExtractionError::SwfParseError(e) => {
                let detail = swf_error_text(e);
                let mut r = "SWF parse error: ".to_owned();
                r.append(detail.as_str());
                assert(r@ == self@.text(detail@));
                r
            },
            ExtractionError::NoBytecodeFound => {
                let r = "No bytecode found (is the input correct?)".to_owned();
                assert(r@ == self@.text(Seq::empty()));
                r
            },
            ExtractionError::Avm2Error(e) => {
                let inner = e.message();
                let ghost detail = choose|detail: Seq<char>| inner@ == e@.text(detail);
                let mut r = "Error parsing AVM2 bytecode: ".to_owned();
                r.append(inner.as_str());
                assert(r@ == self@.text(detail));
                r
            },
            ExtractionError::ClassNotFound(name) => {
                let mut r = "An expected class wasn't found: ".to_owned();
                r.append(name);
                assert(r@ == self@.text(Seq::empty()));
                r
            },
            ExtractionError::NoRC4Found => {
                let r = "The RC4 keys couldn't be found".to_owned();
                assert(r@ == self@.text(Seq::empty()));
                r
            },
            ExtractionError::ParameterNotFound(name) => {
                let mut r = "Required parameter not found: ".to_owned();
                r.append(name);
                assert(r@ == self@.text(Seq::empty()));
                r
            },
        }
    }
}

/// The bytecode of the first `DoABC` tag among `tags`.
pub open spec fn first_bytecode(tags: Seq<SwfTagModel>) -> Option<Seq<u8>>
    decreases tags.len(),
{
    if tags.len() == 0 {
        None
    } else {
        match tags[0] {
            SwfTagModel::DoAbc(data) => Some(data),
            SwfTagModel::Other => first_bytecode(tags.drop_first()),
        }
    }
}

/// The ABC file of a client with these tags: the bytecode of the first
/// `DoABC` tag, parsed.
pub open spec fn bytecode_of(tags: Seq<SwfTagModel>) -> Result<AbcFileModel, ExtractionFault> {
    match first_bytecode(tags) {
        None => Err(ExtractionFault::NoBytecodeFound),
        Some(data) => match AbcFile::parsed(data) {
            Ok((file, _)) => Ok(file),
            Err(fault) => Err(ExtractionFault::Avm2Error(fault)),
        },
    }
}

/// The first index at which `target` stands in `strings`; their number if it
/// stands nowhere.
pub open spec fn index_of(strings: Seq<Seq<char>>, target: Seq<char>) -> int
    decreases strings.len(),
{
    if strings.len() == 0 {
        0
    } else if strings[0] == target {
        0
    } else {
        1 + index_of(strings.drop_first(), target)
    }
}

/// The first index of a string is within the strings or just behind them;
/// the string stands there, and nowhere before.
pub proof fn lemma_index_of(strings: Seq<Seq<char>>, target: Seq<char>)
    ensures
        0 <= index_of(strings, target) <= strings.len(),
        index_of(strings, target) < strings.len() ==> strings[index_of(strings, target)]
            == target,
        forall|i: int| 0 <= i < index_of(strings, target) ==> strings[i] != target,
    decreases strings.len(),
{
    if strings.len() > 0 && strings[0] != target {
        lemma_index_of(strings.drop_first(), target);
        assert forall|i: int| 0 <= i < index_of(strings, target) implies strings[i] != target by {
            if i > 0 {
                assert(strings[i] == strings.drop_first()[i - 1]);
            }
        }
    }
}

/// The local names of `classes`.
pub open spec fn local_names(classes: Seq<LinkedClassModel>) -> Seq<Seq<char>> {
    Seq::new(classes.len(), |i: int| classes[i].name.1)
}

/// The first class of the file with the given local name, whatever its
/// package.
pub open spec fn class_named(file: AbcFileModel, name: Seq<char>) -> Option<LinkedClassModel> {
    let classes = linked_classes(file);
    let i = index_of(local_names(classes), name);
    if i < classes.len() {
        Some(classes[i])
    } else {
        None
    }
}

/// The strings that the pool holds after the default at index 0.
pub open spec fn stored_strings(pool: ConstantPoolModel) -> Seq<Seq<char>> {
    if pool.strings.len() == 0 {
        Seq::empty()
    } else {
        pool.strings.skip(1)
    }
}

/// The RC4 keys of the file, in hexadecimal: the string that follows the
/// first string `rc4` among the strings of the pool.
pub open spec fn rc4_of(file: AbcFileModel) -> Option<Seq<char>> {
    let strings = stored_strings(file.constants);
    let i = index_of(strings, "rc4"@);
    if i + 1 < strings.len() {
        Some(strings[i + 1])
    } else {
        None
    }
}

/// A name in lower case and without underscores: the form in which the
/// names of the constants of the client are held against the names of the
/// packet types.
pub open spec fn normalized(name: Seq<char>) -> Seq<char> {
    replaced(lowercased(name), "_"@, ""@)
}

/// The last of the first `k` packet types of the catalog whose name, in
/// lower case, is `name`.
pub open spec fn candidate_below(name: Seq<char>, k: nat) -> Option<PacketType>
    decreases k,
{
    if k == 0 || k > 256 {
        None
    } else {
        match PacketType::of_index((k - 1) as u8) {
            Some(t) => {
                if lowercased(t.spec_name()@) == name {
                    Some(t)
                } else {
                    candidate_below(name, (k - 1) as nat)
                }
            },
            None => candidate_below(name, (k - 1) as nat),
        }
    }
}

/// The packet type that a normalized name stands for.
pub open spec fn candidate(name: Seq<char>) -> Option<PacketType> {
    candidate_below(name, PACKET_TYPES as nat)
}

/// The low eight bits of an integer.
pub open spec fn low_byte(v: i32) -> u8 {
    (v as int % 256) as u8
}

/// The low sixteen bits of an integer.
pub open spec fn low_word(v: i32) -> u16 {
    (v as int % 65536) as u16
}

/// Whether `pairs` binds the packet type `t`.
pub open spec fn binds(pairs: Seq<(PacketType, u8)>, t: PacketType) -> bool {
    exists|i: int| 0 <= i < pairs.len() && (#[trigger] pairs[i]).0 == t
}

/// The packet types and their IDs that the constants of a class give: each
/// constant with an integer value whose normalized name is that of a packet
/// type not met before binds that type to the low byte of its value.
pub open spec fn extracted_pairs(consts: Seq<LinkedTraitModel>) -> Seq<(PacketType, u8)>
    decreases consts.len(),
{
    if consts.len() == 0 {
        Seq::empty()
    } else {
        let before = extracted_pairs(consts.drop_last());
        match consts.last().value {
            SlotValueModel::Int(id) => match candidate(normalized(consts.last().name.1)) {
                Some(t) => {
                    if binds(before, t) {
                        before
                    } else {
                        before.push((t, low_byte(id)))
                    }
                },
                None => before,
            },
            _ => before,
        }
    }
}

/// The packet mappings of the file: what the constants of the class
/// `GameServerConnection` give.
pub open spec fn packets_of(file: AbcFileModel) -> Result<Bindings, ExtractionFault> {
    match class_named(file, "GameServerConnection"@) {
        None => Err(ExtractionFault::ClassNotFound("GameServerConnection"@)),
        Some(class) => Ok(bound_all(extracted_pairs(class.consts))),
    }
}

/// The value of the last of `consts` with the given local name.
pub open spec fn param_value(consts: Seq<LinkedTraitModel>, name: Seq<char>) -> Option<
    SlotValueModel,
>
    decreases consts.len(),
{
    if consts.len() == 0 {
        None
    } else if consts.last().name.1 == name {
        Some(consts.last().value)
    } else {
        param_value(consts.drop_last(), name)
    }
}

/// The string parameter with the given name.
pub open spec fn str_param(consts: Seq<LinkedTraitModel>, name: Seq<char>) -> Option<Seq<char>> {
    match param_value(consts, name) {
        Some(SlotValueModel::String(s)) => Some(s),
        _ => None,
    }
}

/// The integer parameter with the given name.
pub open spec fn int_param(consts: Seq<LinkedTraitModel>, name: Seq<char>) -> Option<i32> {
    match param_value(consts, name) {
        Some(SlotValueModel::Int(v)) => Some(v),
        _ => None,
    }
}

/// The basic parameters that the constants of a class give, or the first
/// parameter that is not there as a value of its type.
pub open spec fn basic_parameters_of(consts: Seq<LinkedTraitModel>) -> Result<
    BasicParametersModel,
    ExtractionFault,
> {
    if str_param(consts, "BUILD_VERSION"@) is None {
        Err(ExtractionFault::ParameterNotFound("BUILD_VERSION"@))
    } else if str_param(consts, "MINOR_VERSION"@) is None {
        Err(ExtractionFault::ParameterNotFound("MINOR_VERSION"@))
    } else if int_param(consts, "PORT"@) is None {
        Err(ExtractionFault::ParameterNotFound("PORT"@))
    } else if int_param(consts, "TUTORIAL_GAMEID"@) is None {
        Err(ExtractionFault::ParameterNotFound("TUTORIAL_GAMEID"@))
    } else if int_param(consts, "NEXUS_GAMEID"@) is None {
        Err(ExtractionFault::ParameterNotFound("NEXUS_GAMEID"@))
    } else if int_param(consts, "RANDOM_REALM_GAMEID"@) is None {
        Err(ExtractionFault::ParameterNotFound("RANDOM_REALM_GAMEID"@))
    } else {
        Ok(
            BasicParametersModel {
                version: str_param(consts, "BUILD_VERSION"@)->Some_0 + "."@ + str_param(
                    consts,
                    "MINOR_VERSION"@,
                )->Some_0,
                port: low_word(int_param(consts, "PORT"@)->Some_0),
                tutorial_game_id: int_param(consts, "TUTORIAL_GAMEID"@)->Some_0,
                nexus_game_id: int_param(consts, "NEXUS_GAMEID"@)->Some_0,
                random_game_id: int_param(consts, "RANDOM_REALM_GAMEID"@)->Some_0,
            },
        )
    }
}

/// The basic parameters of the file: what the constants of the class
/// `Parameters` give.
pub open spec fn basic_of(file: AbcFileModel) -> Result<BasicParametersModel, ExtractionFault> {
    match class_named(file, "Parameters"@) {
        None => Err(ExtractionFault::ClassNotFound("Parameters"@)),
        Some(class) => basic_parameters_of(class.consts),
    }
}

/// The low eight bits of an integer.
pub fn low_byte_of(v: i32) -> (r: u8)
    ensures
        r == low_byte(v),
{
    let n: i64 = v as i64 + 0x1_0000_0000;
    (n % 256) as u8
}

/// The low sixteen bits of an integer.
pub fn low_word_of(v: i32) -> (r: u16)
    ensures
        r == low_word(v),
{
    let n: i64 = v as i64 + 0x1_0000_0000;
    (n % 65536) as u16
}

/// The value of the last of `consts` with the given local name.
pub fn find_param<'a>(consts: &'a Vec<LinkedTrait>, name: &str) -> (r: Option<&'a TraitSlotValue>)
    ensures
        match r {
            Some(value) => param_value(consts.deep_view(), name@) == Some(value.deep_view()),
            None => param_value(consts.deep_view(), name@) is None,
        },
{
    let key = name.to_owned();
    let ghost all = consts.deep_view();
    let mut i: usize = consts.len();
    assert(all.take(i as int) =~= all);
    while i > 0
        invariant
            i <= consts@.len(),
            all == consts.deep_view(),
            key@ == name@,
            param_value(all, name@) == param_value(all.take(i as int), name@),
        decreases i,
    {
        i = i - 1;
        proof {
            assert(all.take(i + 1).last() == consts@[i as int].deep_view());
            assert(all.take(i + 1).drop_last() =~= all.take(i as int));
        }
        if consts[i].name.1 == key {
            return Some(&consts[i].value);
        }
    }
    None
}

/// The packet types and their IDs that the constants of a class give.
#[verifier::rlimit(50)]
pub fn extract_pairs(consts: &Vec<LinkedTrait>) -> (r: Vec<(PacketType, u8)>)
    ensures
        r@ == extracted_pairs(consts.deep_view()),
{
    let types = PacketType::values();
    let mut lowered: Vec<String> = Vec::new();
    let mut k: usize = 0;
    while k < types.len()
        invariant
            k <= types@.len(),
            types@.len() == PACKET_TYPES,
            lowered@.len() == k,
            forall|j: int| 0 <= j < types@.len() ==> (#[trigger] types@[j]).spec_index() == j,
            forall|j: int|
                0 <= j < k ==> (#[trigger] lowered@[j])@ == lowercased(types@[j].spec_name()@),
        decreases types@.len() - k,
    {
        lowered.push(to_lowercase(types[k].name()));
        k = k + 1;
    }
    let ghost all = consts.deep_view();
    let mut pairs: Vec<(PacketType, u8)> = Vec::new();
    let mut i: usize = 0;
    assert(all.take(0) =~= Seq::<LinkedTraitModel>::empty());
    while i < consts.len()
        invariant
            i <= consts@.len(),
            all == consts.deep_view(),
            types@.len() == PACKET_TYPES,
            lowered@.len() == PACKET_TYPES,
            forall|j: int| 0 <= j < types@.len() ==> (#[trigger] types@[j]).spec_index() == j,
            forall|j: int|
                0 <= j < lowered@.len() ==> (#[trigger] lowered@[j])@ == lowercased(
                    types@[j].spec_name()@,
                ),
            pairs@ == extracted_pairs(all.take(i as int)),
        decreases consts@.len() - i,
    {
        proof {
            assert(all.take(i + 1).last() == consts@[i as int].deep_view());
            assert(all.take(i + 1).drop_last() =~= all.take(i as int));
        }
        match &consts[i].value {
            TraitSlotValue::Int(id) => {
                let lower = to_lowercase(consts[i].name.1.as_str());
                let name = replace(lower.as_str(), "_", "");
                match find_candidate(&types, &lowered, &name) {
                    Some(t) => {
                        if !is_bound(&pairs, t) {
                            pairs.push((t, low_byte_of(*id)));
                        }
                    },
                    None => {},
                }
            },
            _ => {},
        }
        i = i + 1;
    }
    assert(all.take(consts@.len() as int) =~= all);
    pairs
}

/// The packet type that a normalized name stands for.
fn find_candidate(types: &Vec<PacketType>, lowered: &Vec<String>, name: &String) -> (r: Option<
    PacketType,
>)
    requires
        types@.len() == PACKET_TYPES,
        lowered@.len() == PACKET_TYPES,
        forall|j: int| 0 <= j < types@.len() ==> (#[trigger] types@[j]).spec_index() == j,
        forall|j: int|
            0 <= j < lowered@.len() ==> (#[trigger] lowered@[j])@ == lowercased(
                types@[j].spec_name()@,
            ),
    ensures
        r == candidate(name@),
{
    let mut k: usize = types.len();
    while k > 0
        invariant
            k <= types@.len(),
            types@.len() == PACKET_TYPES,
            lowered@.len() == PACKET_TYPES,
            forall|j: int| 0 <= j < types@.len() ==> (#[trigger] types@[j]).spec_index() == j,
            forall|j: int|
                0 <= j < lowered@.len() ==> (#[trigger] lowered@[j])@ == lowercased(
                    types@[j].spec_name()@,
                ),
            candidate(name@) == candidate_below(name@, k as nat),
        decreases k,
    {
        k = k - 1;
        proof {
            types@[k as int].lemma_index();
        }
        if lowered[k] == *name {
            return Some(types[k]);
        }
    }
    None
}

/// Whether `pairs` binds the packet type `t`.
fn is_bound(pairs: &Vec<(PacketType, u8)>, t: PacketType) -> (r: bool)
    ensures
        r == binds(pairs@, t),
{
    let mut i: usize = 0;
    while i < pairs.len()
        invariant
            i <= pairs@.len(),
            forall|j: int| 0 <= j < i ==> (#[trigger] pairs@[j]).0 != t,
        decreases pairs@.len() - i,
    {
        if pairs[i].0 == t {
            return true;
        }
        i = i + 1;
    }
    false
}

/// The basic parameters that the constants of a class give.
#[verifier::rlimit(50)]
pub fn basic_parameters(consts: &Vec<LinkedTrait>) -> (r: Result<BasicParameters, ExtractionError>)
    ensures
        match r {
            Ok(basic) => basic_parameters_of(consts.deep_view()) == Ok::<
                BasicParametersModel,
                ExtractionFault,
            >(basic@),
            Err(e) => basic_parameters_of(consts.deep_view()) == Err::<
                BasicParametersModel,
                ExtractionFault,
            >(e@),
        },
{
    let build = match find_param(consts, "BUILD_VERSION") {
        Some(TraitSlotValue::String(s)) => s,
        _ => {
            return Err(ExtractionError::ParameterNotFound("BUILD_VERSION"));
        },
    };
    let minor = match find_param(consts, "MINOR_VERSION") {
        Some(TraitSlotValue::String(s)) => s,
        _ => {
            return Err(ExtractionError::ParameterNotFound("MINOR_VERSION"));
        },
    };
    let port = match find_param(consts, "PORT") {
        Some(TraitSlotValue::Int(v)) => low_word_of(*v),
        _ => {
            return Err(ExtractionError::ParameterNotFound("PORT"));
        },
    };
    let tutorial_game_id = match find_param(consts, "TUTORIAL_GAMEID") {
        Some(TraitSlotValue::Int(v)) => *v,
        _ => {
            return Err(ExtractionError::ParameterNotFound("TUTORIAL_GAMEID"));
        },
    };
    let nexus_game_id = match find_param(consts, "NEXUS_GAMEID") {
        Some(TraitSlotValue::Int(v)) => *v,
        _ => {
            return Err(ExtractionError::ParameterNotFound("NEXUS_GAMEID"));
        },
    };
    let random_game_id = match find_param(consts, "RANDOM_REALM_GAMEID") {
        Some(TraitSlotValue::Int(v)) => *v,
        _ => {
            return Err(ExtractionError::ParameterNotFound("RANDOM_REALM_GAMEID"));
        },
    };
    let mut version = build.clone();
    version.append(".");
    version.append(minor.as_str());
    Ok(BasicParameters { version, port, tutorial_game_id, nexus_game_id, random_game_id })
}

/// A client whose bytecode has been parsed.
pub struct ParsedClient {
    abc: AbcFile,
}

impl ParsedClient {
    /// The ABC file of the client.
    pub closed spec fn file(&self) -> AbcFileModel {
        self.abc.deep_view()
    }

    /// Parse the client whose SWF file has the given tags: the bytecode is
    /// that of the first `DoABC` tag.
    pub fn from_tags(tags: Vec<SwfTag>) -> (r: Result<Self, ExtractionError>)
        ensures
            match r {
                Ok(client) => bytecode_of(tags.deep_view()) == Ok::<AbcFileModel, ExtractionFault>(
                    client.file(),
                ),
                Err(e) => bytecode_of(tags.deep_view()) == Err::<AbcFileModel, ExtractionFault>(
                    e@,
                ),
            },
    {
        let ghost all = tags.deep_view();
        let mut i: usize = 0;
        assert(all.skip(0) =~= all);
        while i < tags.len()
            invariant
                i <= tags@.len(),
                all == tags.deep_view(),
                first_bytecode(all) == first_bytecode(all.skip(i as int)),
            decreases tags@.len() - i,
        {
            proof {
                assert(all.skip(i as int)[0] == tags@[i as int].deep_view());
                assert(all.skip(i as int).drop_first() =~= all.skip(i + 1));
            }
            match &tags[i] {
                SwfTag::DoAbc(data) => {
                    let mut reader = Reader::new(data.as_slice());
                    return match AbcFile::parse_avm2(&mut reader) {
                        Ok(abc) => Ok(ParsedClient { abc }),
                        Err(e) => Err(ExtractionError::Avm2Error(e)),
                    };
                },
                SwfTag::Other => {},
            }
            i = i + 1;
        }
        Err(ExtractionError::NoBytecodeFound)
    }

    /// Parse the given flash client.
    pub fn new(client: &[u8]) -> (r: Result<Self, ExtractionError>)
        ensures
            match swf_tags(client@) {
                None => r is Err && r->Err_0@ == ExtractionFault::SwfParseError,
                Some(tags) => match r {
                    Ok(client) => bytecode_of(tags) == Ok::<AbcFileModel, ExtractionFault>(
                        client.file(),
                    ),
                    Err(e) => bytecode_of(tags) == Err::<AbcFileModel, ExtractionFault>(e@),
                },
            },
    {
        match parse_swf_tags(client) {
            Ok(tags) => Self::from_tags(tags),
            Err(e) => Err(ExtractionError::SwfParseError(e)),
        }
    }

    /// Get a class with a given name.
    ///
    /// Package is ignored, only the name of the class itself is checked.
    #[verifier::rlimit(50)]
    pub fn class(&self, name: &'static str) -> (r: Result<LinkedClass, ExtractionError>)
        ensures
            match r {
                Ok(class) => class_named(self.file(), name@) == Some(class.deep_view()),
                Err(e) => class_named(self.file(), name@) is None && e@
                    == ExtractionFault::ClassNotFound(name@),
            },
    {
        let mut classes = self.abc.classes();
        let key = name.to_owned();
        let ghost all = classes.deep_view();
        let ghost names = local_names(all);
        let mut i: usize = 0;
        assert(names.skip(0) =~= names);
        while i < classes.len()
            invariant
                i <= classes@.len(),
                all == classes.deep_view(),
                all == linked_classes(self.file()),
                names == local_names(all),
                key@ == name@,
                index_of(names, name@) == i + index_of(names.skip(i as int), name@),
            decreases classes@.len() - i,
        {
            proof {
                assert(names.skip(i as int)[0] == classes@[i as int].name.1@);
                assert(names.skip(i as int).drop_first() =~= names.skip(i + 1));
            }
            if classes[i].name.1 == key {
                let found = classes.remove(i);
                return Ok(found);
            }
            i = i + 1;
        }
        assert(names.skip(classes@.len() as int) =~= Seq::<Seq<char>>::empty());
        Err(ExtractionError::ClassNotFound(name))
    }

    /// Extract RC4 key from this client, in hexadecimal.
    #[verifier::rlimit(50)]
    pub fn extract_rc4(&self) -> (r: Result<&str, ExtractionError>)
        ensures
            match r {
                Ok(key) => rc4_of(self.file()) == Some(key@),
                Err(e) => rc4_of(self.file()) is None && e@ == ExtractionFault::NoRC4Found,
            },
    {
        let strings = self.abc.constants.all_strings();
        let key = "rc4".to_owned();
        let ghost all = stored_strings(self.file().constants);
        assert(all.len() == strings@.len());
        assert forall|j: int| 0 <= j < all.len() implies all[j] == (#[trigger] strings@[j])@ by {
            assert(strings@[j] == self.abc.constants.strings.entries@[j + 1]);
        }
        let mut i: usize = 0;
        assert(all.skip(0) =~= all);
        while i < strings.len()
            invariant
                i <= strings@.len(),
                all == stored_strings(self.file().constants),
                all.len() == strings@.len(),
                forall|j: int| 0 <= j < all.len() ==> all[j] == (#[trigger] strings@[j])@,
                key@ == "rc4"@,
                index_of(all, "rc4"@) == i + index_of(all.skip(i as int), "rc4"@),
            decreases strings@.len() - i,
        {
            proof {
                assert(all.skip(i as int)[0] == strings@[i as int]@);
                assert(all.skip(i as int).drop_first() =~= all.skip(i + 1));
            }
            if strings[i] == key {
                if i + 1 < strings.len() {
                    return Ok(strings[i + 1].as_str());
                } else {
                    return Err(ExtractionError::NoRC4Found);
                }
            }
            i = i + 1;
        }
        assert(all.skip(strings@.len() as int) =~= Seq::<Seq<char>>::empty());
        Err(ExtractionError::NoRC4Found)
    }

    /// Extract packet ID mappings from this client.
    ///
    /// Note that this operation will succeed even if not all IDs were found.
    /// `PacketMappings::get_unmapped` should be used to detect any missing
    /// IDs.
    pub fn extract_packets(&self) -> (r: Result<PacketMappings, ExtractionError>)
        ensures
            match r {
                Ok(mappings) => mappings.wf() && packets_of(self.file()) == Ok::<
                    Bindings,
                    ExtractionFault,
                >(mappings@),
                Err(e) => packets_of(self.file()) == Err::<Bindings, ExtractionFault>(e@),
            },
    {
        let gsc = self.class("GameServerConnection")?;
        Ok(PacketMappings::new(extract_pairs(&gsc.consts)))
    }

    /// Extract basic game client parameters.
    pub fn extract_basic_parameters(&self) -> (r: Result<BasicParameters, ExtractionError>)
        ensures
            match r {
                Ok(basic) => basic_of(self.file()) == Ok::<BasicParametersModel, ExtractionFault>(
                    basic@,
                ),
                Err(e) => basic_of(self.file()) == Err::<BasicParametersModel, ExtractionFault>(
                    e@,
                ),
            },
    {
        let params = self.class("Parameters")?;
        basic_parameters(&params.consts)
    }

    /// Extract packet mappings, RC4 keys, and basic parameters: all of them,
    /// or the first error among the three, in this order.
    pub fn extract_all(&self) -> (r: Result<Parameters, ExtractionError>)
        ensures
            match r {
                Ok(all) => {
                    &&& all.packets.wf()
                    &&& packets_of(self.file()) == Ok::<Bindings, ExtractionFault>(all.packets@)
                    &&& rc4_of(self.file()) == Some(all.rc4@)
                    &&& basic_of(self.file()) == Ok::<BasicParametersModel, ExtractionFault>(
                        all.basic@,
                    )
                },
                Err(e) => {
                    ||| packets_of(self.file()) == Err::<Bindings, ExtractionFault>(e@)
                    ||| {
                        &&& packets_of(self.file()) is Ok
                        &&& rc4_of(self.file()) is None
                        &&& e@ == ExtractionFault::NoRC4Found
                    }
                    ||| {
                        &&& packets_of(self.file()) is Ok
                        &&& rc4_of(self.file()) is Some
                        &&& basic_of(self.file()) == Err::<BasicParametersModel, ExtractionFault>(
                            e@,
                        )
                    }
                },
            },
    {
        let packets = self.extract_packets()?;
        let rc4 = self.extract_rc4()?.to_owned();
        let basic = self.extract_basic_parameters()?;
        Ok(Parameters { packets, rc4, basic })
    }
}

} // verus!
