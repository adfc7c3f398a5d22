//! The byte reader and the error type shared by all AVM2 parsers.

use vstd::prelude::*;
use vstd::slice::slice_subrange;
use vstd::string::StringExecFns;
use crate::text::{
    decimal, decimal_text, hexadecimal, hexadecimal_text, utf8_error_text,
};

verus! {

/// `std::string::FromUtf8Error`: the error of bytes that are no UTF-8. Its
/// values are carried, never looked into.
#[verifier::external_type_specification]
#[verifier::external_body]
pub struct ExFromUtf8Error(std::string::FromUtf8Error);

/// An error parsing an AVM2 type.
#[derive(Debug, PartialEq, Eq)]
pub enum ParseError {
    /// Not enough bytes remained in the buffer to deserialize this type.
    InsufficientBytes { remaining: usize, needed: usize },
    /// Invalid UTF-8 while parsing a string.
    Utf8Error(std::string::FromUtf8Error),
    /// A byte that selects a variant had a value that selects none.
    InvalidFlag { value: u8, typ: &'static str },
}

/// What a `ParseError` says, without the payload that only std can build.
pub enum ParseFault {
    InsufficientBytes { remaining: usize, needed: usize },
    Utf8Error,
    InvalidFlag { value: u8, typ: Seq<char> },
}

impl ParseFault {
    /// The description of the fault; `detail` is what std says of invalid
    /// UTF-8.
    pub open spec fn text(self, detail: Seq<char>) -> Seq<char> {
        match self {
            ParseFault::InsufficientBytes { remaining, needed } => {
                "Not enough bytes remaining in buffer: need "@ + decimal_text(needed as nat)
                    + " bytes, "@ + decimal_text(remaining as nat) + " bytes remaining"@
            },
            ParseFault::Utf8Error => "Invalid UTF-8: "@ + detail,
            ParseFault::InvalidFlag { value, typ } => {
                "Flag value "@ + decimal_text(value as nat) + " ("@ + hexadecimal_text(value)
                    + ") is invalid for type "@ + typ
            },
        }
    }
}

impl View for ParseError {
    type V = ParseFault;

    open spec fn view(&self) -> ParseFault {
        match *self {
            ParseError::InsufficientBytes { remaining, needed } => ParseFault::InsufficientBytes {
                remaining,
                needed,
            },
            ParseError::Utf8Error(_) => ParseFault::Utf8Error,
            ParseError::InvalidFlag { value, typ } => ParseFault::InvalidFlag { value, typ: typ@ },
        }
    }
}

impl ParseError {
    /// A human-readable description of this error. An error of invalid
    /// UTF-8 is described as std describes it.
    pub fn message(&self) -> (r: String)
        ensures
            exists|detail: Seq<char>| r@ == self@.text(detail),
    {
        match self {
            ParseError::InsufficientBytes { remaining, needed } => {
                let mut r = "Not enough bytes remaining in buffer: need ".to_owned();
                r.append(decimal(*needed).as_str());
                r.append(" bytes, ");
                r.append(decimal(*remaining).as_str());
                r.append(" bytes remaining");
                assert(r@ == self@.text(Seq::empty()));
                r
            },
            ParseError::Utf8Error(e) => {
                let detail = utf8_error_text(e);
                let mut r = "Invalid UTF-8: ".to_owned();
                r.append(detail.as_str());
                assert(r@ == self@.text(detail@));
                r
            },
            ParseError::InvalidFlag { value, typ } => {
                let mut r = "Flag value ".to_owned();
                r.append(decimal(*value as usize).as_str());
                r.append(" (");
                r.append(hexadecimal(*value).as_str());
                r.append(") is invalid for type ");
                r.append(typ);
                assert(r@ == self@.text(Seq::empty()));
                r
            },
        }
    }
}

/// A cursor over an immutable window of bytes.
pub struct Reader<'a> {
    remaining: &'a [u8],
}

impl<'a> View for Reader<'a> {
    type V = Seq<u8>;

    /// The bytes that have not been consumed yet.
    closed spec fn view(&self) -> Seq<u8> {
        self.remaining@
    }
}

impl<'a> Reader<'a> {
    /// Create a new reader with the given bytes.
    pub fn new(bytes: &'a [u8]) -> (r: Self)
        ensures
            r@ == bytes@,
    {
        Self { remaining: bytes }
    }

    /// Attempt to take the next `n` bytes from this reader. A failed take
    /// leaves the reader where it was.
    pub fn take(&mut self, n: usize) -> (r: Result<&'a [u8], ParseError>)
        ensures
            match r {
                Ok(taken) => {
                    &&& n <= old(self)@.len()
                    &&& taken@ == old(self)@.subrange(0, n as int)
                    &&& final(self)@ == old(self)@.subrange(n as int, old(self)@.len() as int)
                },
                Err(e) => {
                    &&& n > old(self)@.len()
                    &&& e == (ParseError::InsufficientBytes {
                        remaining: old(self)@.len() as usize,
                        needed: n,
                    })
                    &&& final(self)@ == old(self)@
                },
            },
    {
        if n > self.remaining.len() {
            Err(ParseError::InsufficientBytes { remaining: self.remaining.len(), needed: n })
        } else {
            let all: &'a [u8] = self.remaining;
            let taken = slice_subrange(all, 0, n);
            self.remaining = slice_subrange(all, n, all.len());
            Ok(taken)
        }
    }

    /// Peek at the bytes remaining in this reader.
    pub fn peek(&self) -> (r: &'a [u8])
        ensures
            r@ == self@,
    {
        self.remaining
    }

    /// Take all bytes remaining in the buffer.
    pub fn take_all(&mut self) -> (r: &'a [u8])
        ensures
            r@ == old(self)@,
            final(self)@ == Seq::<u8>::empty(),
    {
        let all: &'a [u8] = self.remaining;
        self.remaining = slice_subrange(all, all.len(), all.len());
        all
    }

    /// The number of bytes that remain.
    pub fn len(&self) -> (n: usize)
        ensures
            n == self@.len(),
    {
        self.remaining.len()
    }
}

/// What parsing a value of type `T` from `bytes` gives: the value's model and
/// the number of bytes it took, or the fault.
pub type Parsed<T> = Result<(T, int), ParseFault>;

/// Whether `r` is what a parser owes for an input of which the parse is
/// `expected`: on success the value that was expected, with the reader
/// advanced from `before` past exactly the bytes that were parsed; on
/// failure the error that was expected.
pub open spec fn parses_as<T: DeepView>(
    r: Result<T, ParseError>,
    expected: Parsed<T::V>,
    before: Seq<u8>,
    after: Seq<u8>,
) -> bool {
    match r {
        Ok(v) => {
            &&& expected is Ok
            &&& v.deep_view() == expected->Ok_0.0
            &&& after == before.skip(expected->Ok_0.1)
        },
        Err(e) => expected is Err && expected->Err_0 == e@,
    }
}

/// Skipping twice is skipping once.
pub proof fn lemma_skip_skip(bytes: Seq<u8>, k: int, m: int)
    requires
        0 <= k <= bytes.len(),
        0 <= m <= bytes.len() - k,
    ensures
        bytes.skip(k).skip(m) == bytes.skip(k + m),
{
    assert(bytes.skip(k).skip(m) =~= bytes.skip(k + m));
}

/// A type that can be parsed from AVM2 bytecode.
pub trait Parse: Sized + DeepView {
    /// The result of parsing this type from the front of `bytes`.
    spec fn parsed(bytes: Seq<u8>) -> Parsed<Self::V>;

    /// A successful parse consumes a prefix of its input.
    proof fn lemma_parsed_within(bytes: Seq<u8>)
        ensures
            Self::parsed(bytes) is Ok ==> 0 <= Self::parsed(bytes)->Ok_0.1 <= bytes.len(),
    ;

    /// Parse this type from the provided bytes. On success the reader has
    /// advanced past exactly the bytes that were parsed.
    fn parse_avm2(input: &mut Reader) -> (r: Result<Self, ParseError>)
        ensures
            match r {
                Ok(v) => {
                    &&& Self::parsed(old(input)@) is Ok
                    &&& v.deep_view() == Self::parsed(old(input)@)->Ok_0.0
                    &&& final(input)@ == old(input)@.skip(Self::parsed(old(input)@)->Ok_0.1)
                },
                Err(e) => Self::parsed(old(input)@) == Err::<(Self::V, int), ParseFault>(e@),
            },
    ;
}

} // verus!
