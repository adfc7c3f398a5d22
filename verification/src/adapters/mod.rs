//! Traits and basic implementations of packet encoding/decoding
//! functionality.
//!
//! This module exports two main traits: `FromPacketBytes` and
//! `ToPacketBytes`. These are used to specify how various types are
//! encoded/decoded in the network protocol. Implementations are provided for
//! primitives and other fundamental types; the packets themselves are
//! composed of fields of these types by the catalog.

pub mod option;
pub mod primitives;
pub mod string;
pub mod unit;
pub mod vec;


use vstd::prelude::*;
use vstd::slice::slice_subrange;
use crate::raw::RawPacket;
use vstd::string::StringExecFns;
use crate::text::{decimal, decimal_text, utf8_error_text};
use crate::structured::encode::written;
use crate::structured::format::{decoding, encoding};
use crate::structured::schema::FieldType;
use crate::structured::value::Datum;

verus! {

/// `FromUtf8Error::clone`: nothing is said of the clone.
pub assume_specification[ <std::string::FromUtf8Error as Clone>::clone ](
    e: &std::string::FromUtf8Error,
) -> std::string::FromUtf8Error
;

/// The width of the integer that precedes a string, a byte string or a list
/// and gives its length.
#[derive(Debug, Clone, Copy, PartialEq, Eq, Structural)]
pub enum Prefix {
    U8,
    U16,
    U32,
}

impl Prefix {
    /// The number of bytes of the prefix.
    pub open spec fn width(self) -> nat {
        match self {
            Prefix::U8 => 1,
            Prefix::U16 => 2,
            Prefix::U32 => 4,
        }
    }

    /// The greatest length that the prefix can hold.
    pub open spec fn max(self) -> nat {
        match self {
            Prefix::U8 => 0xff,
            Prefix::U16 => 0xffff,
            Prefix::U32 => 0xffff_ffff,
        }
    }

    /// The name of the integer type of the prefix.
    pub open spec fn name(self) -> Seq<char> {
        match self {
            Prefix::U8 => "u8"@,
            Prefix::U16 => "u16"@,
            Prefix::U32 => "u32"@,
        }
    }

    /// The number of bytes of the prefix.
    pub fn byte_width(self) -> (w: usize)
        ensures
            w == self.width(),
    {
        match self {
            Prefix::U8 => 1,
            Prefix::U16 => 2,
            Prefix::U32 => 4,
        }
    }

    /// The greatest length that the prefix can hold.
    pub fn limit(self) -> (n: usize)
        ensures
            n == self.max(),
    {
        match self {
            Prefix::U8 => 0xff,
            Prefix::U16 => 0xffff,
            Prefix::U32 => 0xffff_ffff,
        }
    }

    /// The name of the integer type of the prefix.
    pub fn repr(self) -> (s: &'static str)
        ensures
            s@ == self.name(),
    {
        match self {
            Prefix::U8 => "u8",
            Prefix::U16 => "u16",
            Prefix::U32 => "u32",
        }
    }
}

/// An error reading or writing a packet.
#[derive(Debug, Clone, PartialEq, Eq)]
pub enum PacketFormatError {
    /// The end of the packet was encountered while more data was expected.
    UnexpectedEnd(usize),
    /// A string contained invalid UTF-8.
    Utf8Error(std::string::FromUtf8Error),
    /// A field was too large to be encoded within the constraints of the
    /// integer type that holds its length.
    FieldTooLarge {
        /// The length that was being encoded.
        length: usize,
        /// The type that was being used to encode the length.
        repr: &'static str,
    },
    /// An unrecognized `StatType` was encountered, making it impossible to
    /// determine how to parse the remaining data.
    UnknownStatType(u8),
    /// Couldn't identify the `PacketType` for a packet due to incomplete
    /// mappings.
    UnmappedID(u8),
}

/// What a `PacketFormatError` says, without the payload that only std can
/// build.
pub enum FormatFault {
    UnexpectedEnd(usize),
    Utf8Error,
    FieldTooLarge { length: usize, repr: Seq<char> },
    UnknownStatType(u8),
    UnmappedID(u8),
}

impl FormatFault {
    /// The description of the fault; `detail` is what std says of invalid
    /// UTF-8.
    pub open spec fn text(self, detail: Seq<char>) -> Seq<char> {
        match self {
            FormatFault::UnexpectedEnd(n) => "Expected at least "@ + decimal_text(n as nat)
                + " more bytes"@,
            FormatFault::Utf8Error => "Invalid UTF-8: "@ + detail,
            FormatFault::FieldTooLarge { length, repr } => "Field too large: cannot convert "@
                + decimal_text(length as nat) + " to "@ + repr,
            FormatFault::UnknownStatType(b) => "No known StatType associated with value "@
                + decimal_text(b as nat),
            FormatFault::UnmappedID(b) => "No known mapping for packet ID "@ + decimal_text(
                b as nat,
            ),
        }
    }
}

impl View for PacketFormatError {
    type V = FormatFault;

    open spec fn view(&self) -> FormatFault {
        match *self {
            PacketFormatError::UnexpectedEnd(n) => FormatFault::UnexpectedEnd(n),
            PacketFormatError::Utf8Error(_) => FormatFault::Utf8Error,
            PacketFormatError::FieldTooLarge { length, repr } => FormatFault::FieldTooLarge {
                length,
                repr: repr@,
            },
            PacketFormatError::UnknownStatType(b) => FormatFault::UnknownStatType(b),
            PacketFormatError::UnmappedID(b) => FormatFault::UnmappedID(b),
        }
    }
}

impl PacketFormatError {
    /// The error of a length that its prefix cannot hold.
    pub fn too_large(length: usize, prefix: Prefix) -> (e: Self)
        ensures
            e@ == too_large(length as nat, prefix),
    {
        PacketFormatError::FieldTooLarge { length, repr: prefix.repr() }
    }

    /// A human-readable description of this error. An error of invalid
    /// UTF-8 is described as std describes it.
    pub fn message(&self) -> (r: String)
        ensures
            exists|detail: Seq<char>| r@ == self@.text(detail),
    {
        match self {
            PacketFormatError::UnexpectedEnd(n) => {
                let mut r = "Expected at least ".to_owned();
                r.append(decimal(*n).as_str());
                r.append(" more bytes");
                assert(r@ == self@.text(Seq::empty()));
                r
            },
            PacketFormatError::Utf8Error(e) => {
                let detail = utf8_error_text(e);
                let mut r = "Invalid UTF-8: ".to_owned();
                r.append(detail.as_str());
                assert(r@ == self@.text(detail@));
                r
            },
            PacketFormatError::FieldTooLarge { length, repr } => {
                let mut r = "Field too large: cannot convert ".to_owned();
                r.append(decimal(*length).as_str());
                r.append(" to ");
                r.append(repr);
                assert(r@ == self@.text(Seq::empty()));
                r
            },
            PacketFormatError::UnknownStatType(b) => {
                let mut r = "No known StatType associated with value ".to_owned();
                r.append(decimal(*b as usize).as_str());
                assert(r@ == self@.text(Seq::empty()));
                r
            },
            PacketFormatError::UnmappedID(b) => {
                let mut r = "No known mapping for packet ID ".to_owned();
                r.append(decimal(*b as usize).as_str());
                assert(r@ == self@.text(Seq::empty()));
                r
            },
        }
    }
}

/// The fault of a length that its prefix cannot hold.
pub open spec fn too_large(length: nat, prefix: Prefix) -> FormatFault {
    FormatFault::FieldTooLarge { length: length as usize, repr: prefix.name() }
}

/// A simple interface for reading bytes from a raw packet.
pub struct PacketReader<'a> {
    remaining: &'a [u8],
}

impl<'a> View for PacketReader<'a> {
    type V = Seq<u8>;

    /// The bytes that have not been parsed yet.
    closed spec fn view(&self) -> Seq<u8> {
        self.remaining@
    }
}

impl<'a> PacketReader<'a> {
    /// Create a new reader for the payload of the given packet.
    pub fn new(packet: &'a RawPacket) -> (r: Self)
        requires
            packet.wf(),
        ensures
            r@ == packet@.skip(5),
    {
        PacketReader { remaining: packet.payload() }
    }

    /// Create a new reader for bytes that are a payload already.
    pub fn over(payload: &'a [u8]) -> (r: Self)
        ensures
            r@ == payload@,
    {
        PacketReader { remaining: payload }
    }

    /// Check whether there are any unparsed bytes remaining.
    pub fn is_empty(&self) -> (b: bool)
        ensures
            b == (self@.len() == 0),
    {
        self.remaining.len() == 0
    }

    /// Get the number of remaining unparsed bytes.
    pub fn len(&self) -> (n: usize)
        ensures
            n == self@.len(),
    {
        self.remaining.len()
    }

    /// Attempt to take the next `n` bytes from this reader, returning an error
    /// if there aren't enough remaining. A failed take leaves the reader
    /// where it was.
    pub fn take(&mut self, n: usize) -> (r: Result<&'a [u8], Box<PacketFormatError>>)
        ensures
            match r {
                Ok(taken) => {
                    &&& n <= old(self)@.len()
                    &&& taken@ == old(self)@.take(n as int)
                    &&& final(self)@ == old(self)@.skip(n as int)
                },
                Err(e) => {
                    &&& n > old(self)@.len()
                    &&& e@ == FormatFault::UnexpectedEnd(n)
                    &&& final(self)@ == old(self)@
                },
            },
    {
        if self.remaining.len() < n {
            Err(Box::new(PacketFormatError::UnexpectedEnd(n)))
        } else {
            let all: &'a [u8] = self.remaining;
            let taken = slice_subrange(all, 0, n);
            self.remaining = slice_subrange(all, n, all.len());
            Ok(taken)
        }
    }

    /// Take all remaining bytes from this reader.
    ///
    /// If no bytes remain, returns an empty slice.
    pub fn take_all(&mut self) -> (r: &'a [u8])
        ensures
            r@ == old(self)@,
            final(self)@ == Seq::<u8>::empty(),
    {
        let all: &'a [u8] = self.remaining;
        self.remaining = slice_subrange(all, all.len(), all.len());
        all
    }
}

/// A type that stands for the encoding of a field: it says what the field
/// is written as, and what values it has.
pub trait PacketField {
    /// The type of the values of the field.
    type Output;

    /// The encoding of the field.
    spec fn field_type() -> FieldType;

    /// The mathematical value of a value of the field.
    spec fn model(value: &Self::Output) -> Datum;
}

/// Whether `r` is what a reader of a field of type `ty` owes for the bytes
/// `before`: on success a value whose model is `model`, with the reader
/// advanced past exactly the bytes of the value; on failure the error of the
/// wire format.
pub open spec fn reads_as(
    ty: FieldType,
    failed: Option<FormatFault>,
    model: Datum,
    before: Seq<u8>,
    after: Seq<u8>,
) -> bool {
    match failed {
        None => {
            &&& decoding(ty, before) is Ok
            &&& model == decoding(ty, before)->Ok_0.0
            &&& after == before.skip(decoding(ty, before)->Ok_0.1)
        },
        Some(fault) => decoding(ty, before) is Err && decoding(ty, before)->Err_0 == fault,
    }
}

/// Data that can be read from a packet.
///
/// Note that the type this is implemented on need not match the actual
/// returned type.
pub trait FromPacketBytes: PacketField {
    /// Read data from the given packet.
    fn from_packet(reader: &mut PacketReader) -> (r: Result<Self::Output, Box<PacketFormatError>>)
        ensures
            match r {
                Ok(value) => reads_as(
                    Self::field_type(),
                    None,
                    Self::model(&value),
                    old(reader)@,
                    final(reader)@,
                ),
                Err(e) => reads_as(
                    Self::field_type(),
                    Some(e@),
                    Datum::Unit,
                    old(reader)@,
                    final(reader)@,
                ),
            },
    ;
}

/// Data that can be written to a packet.
pub trait ToPacketBytes: PacketField {
    /// Write data to the given packet.
    fn to_packet(value: &Self::Output, packet: &mut Vec<u8>) -> (r: Result<
        (),
        Box<PacketFormatError>,
    >)
        ensures
            written(
                encoding(Self::field_type(), Self::model(value)),
                r,
                old(packet)@,
                final(packet)@,
            ),
    ;
}

/// An unsigned integer type that the length of a field can be written in.
pub trait LengthPrefix {
    /// The prefix that this type stands for.
    spec fn prefix() -> Prefix;

    /// The prefix that this type stands for.
    fn width_of() -> (r: Prefix)
        ensures
            r == Self::prefix(),
    ;
}

impl LengthPrefix for u8 {
    open spec fn prefix() -> Prefix {
        Prefix::U8
    }

    fn width_of() -> (r: Prefix) {
        Prefix::U8
    }
}

impl LengthPrefix for u16 {
    open spec fn prefix() -> Prefix {
        Prefix::U16
    }

    fn width_of() -> (r: Prefix) {
        Prefix::U16
    }
}

impl LengthPrefix for u32 {
    open spec fn prefix() -> Prefix {
        Prefix::U32
    }

    fn width_of() -> (r: Prefix) {
        Prefix::U32
    }
}

/// A dummy type indicating that a dynamically sized type is prefixed with a
/// length field.
pub struct WithLen<N, T>(pub std::marker::PhantomData<N>, pub std::marker::PhantomData<T>);

/// A dummy type indicating that a dynamically sized type should capture all
/// remaining bytes.
pub struct CaptureRemaining<T>(pub std::marker::PhantomData<T>);

} // verus!
