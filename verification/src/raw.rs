//! Raw, unparsed packets.
//!
//! A raw packet is a frame whose payload and ID can be read, but which has
//! not been parsed: a four-byte big-endian length that counts the whole
//! frame, one byte of packet ID, and the payload.

use vstd::prelude::*;
use vstd::slice::*;
use vstd::string::StringExecFns;
use crate::text::{decimal, decimal_text, hex_dump, hex_dump_text};
use crate::wire::{be_decode, be_value, lemma_be_value_bound, lemma_pow256_values};

verus! {

/// An error wrapping bytes as a packet.
#[derive(Debug, Clone, PartialEq, Eq)]
pub enum InvalidPacket {
    /// The header is too short (<5 bytes).
    HeaderTooShort(Vec<u8>),
    /// The length encoded in the packet header doesn't match the actual length
    /// of the packet.
    HeaderInvalid {
        /// The length that was encoded in the packet data.
        encoded_len: u32,
        /// The actual length of the packet.
        actual_len: usize,
        /// The complete contents of the offending packet.
        data: Vec<u8>,
    },
}

impl InvalidPacket {
    /// Whether this is the error that `bytes` deserve: too short for a
    /// header, or a header that declares another length than theirs.
    pub open spec fn describes(self, bytes: Seq<u8>) -> bool {
        match self {
            InvalidPacket::HeaderTooShort(data) => bytes.len() < 5 && data@ == bytes,
            InvalidPacket::HeaderInvalid { encoded_len, actual_len, data } => {
                &&& bytes.len() >= 5
                &&& encoded_len == declared_len(bytes)
                &&& actual_len == bytes.len()
                &&& encoded_len != bytes.len()
                &&& data@ == bytes
            },
        }
    }
}

impl InvalidPacket {
    /// The description of the error.
    pub open spec fn text(self) -> Seq<char> {
        match self {
            InvalidPacket::HeaderTooShort(data) => {
                "Packet header too short - need at least 5 bytes: "@ + hex_dump_text(data@)
            },
            InvalidPacket::HeaderInvalid { encoded_len, actual_len, data } => {
                "Invalid packet header - encoded length is "@ + decimal_text(encoded_len as nat)
                    + " but actual length is "@ + decimal_text(actual_len as nat) + ": "@
                    + hex_dump_text(data@)
            },
        }
    }

    /// A human-readable description of this error.
    pub fn message(&self) -> (r: String)
        ensures
            r@ == self.text(),
    {
        match self {
            InvalidPacket::HeaderTooShort(data) => {
                let mut r = "Packet header too short - need at least 5 bytes: ".to_owned();
                r.append(hex_dump(data.as_slice()).as_str());
                r
            },
            InvalidPacket::HeaderInvalid { encoded_len, actual_len, data } => {
                let mut r = "Invalid packet header - encoded length is ".to_owned();
                r.append(decimal(*encoded_len as usize).as_str());
                r.append(" but actual length is ");
                r.append(decimal(*actual_len).as_str());
                r.append(": ");
                r.append(hex_dump(data.as_slice()).as_str());
                r
            },
        }
    }
}

/// The length that the header of a frame declares.
pub open spec fn declared_len(bytes: Seq<u8>) -> nat {
    be_value(bytes.take(4))
}

/// Whether `bytes` is one whole frame: a header, and the length it declares.
pub open spec fn valid_frame(bytes: Seq<u8>) -> bool {
    bytes.len() >= 5 && declared_len(bytes) == bytes.len()
}

/// `<[u8]>::into_vec`: the bytes of the boxed slice, in a vector.
#[verifier::external_body]
fn into_vec(bytes: Box<[u8]>) -> (r: Vec<u8>)
    ensures
        r@ == bytes@,
{
    bytes.into_vec()
}

/// A raw packet: the bytes of one valid frame.
#[derive(Debug, Clone, PartialEq, Eq)]
pub struct RawPacket {
    bytes: Vec<u8>,
}

impl View for RawPacket {
    type V = Seq<u8>;

    /// The whole frame, header included.
    closed spec fn view(&self) -> Seq<u8> {
        self.bytes@
    }
}

impl RawPacket {
    /// The invariant of a raw packet: its bytes are one valid frame. The
    /// constructors establish it and every method keeps it.
    pub open spec fn wf(&self) -> bool {
        valid_frame(self@)
    }

    /// Checks that `bytes` is one whole frame.
    pub fn validate_header(bytes: &[u8]) -> (r: Result<(), InvalidPacket>)
        ensures
            r is Ok <==> valid_frame(bytes@),
            r is Err ==> r->Err_0.describes(bytes@),
    {
        if bytes.len() < 5 {
            return Err(InvalidPacket::HeaderTooShort(slice_to_vec(bytes)));
        }
        let header = slice_subrange(bytes, 0, 4);
        assert(header@ =~= bytes@.take(4));
        proof {
            lemma_be_value_bound(header@);
            lemma_pow256_values();
        }
        let encoded_len: u32 = be_decode(header) as u32;
        if encoded_len as usize != bytes.len() {
            return Err(
                InvalidPacket::HeaderInvalid {
                    encoded_len,
                    actual_len: bytes.len(),
                    data: slice_to_vec(bytes),
                },
            );
        }
        Ok(())
    }

    /// Attempt to wrap a copy of a slice of bytes as a `RawPacket`.
    pub fn from_slice(bytes: &[u8]) -> (r: Result<Self, InvalidPacket>)
        ensures
            r is Ok <==> valid_frame(bytes@),
            r is Ok ==> r->Ok_0@ == bytes@ && r->Ok_0.wf(),
            r is Err ==> r->Err_0.describes(bytes@),
    {
        match Self::validate_header(bytes) {
            Ok(()) => Ok(RawPacket { bytes: slice_to_vec(bytes) }),
            Err(e) => Err(e),
        }
    }

    /// Attempt to convert a boxed slice of bytes to a `RawPacket`.
    pub fn from_box(bytes: Box<[u8]>) -> (r: Result<Self, InvalidPacket>)
        ensures
            r is Ok <==> valid_frame(bytes@),
            r is Ok ==> r->Ok_0@ == bytes@ && r->Ok_0.wf(),
            r is Err ==> r->Err_0.describes(bytes@),
    {
        Self::from_vec(into_vec(bytes))
    }

    /// Attempt to wrap owned bytes as a `RawPacket`.
    pub fn from_vec(bytes: Vec<u8>) -> (r: Result<Self, InvalidPacket>)
        ensures
            r is Ok <==> valid_frame(bytes@),
            r is Ok ==> r->Ok_0@ == bytes@ && r->Ok_0.wf(),
            r is Err ==> r->Err_0.describes(bytes@),
    {
        match Self::validate_header(bytes.as_slice()) {
            Ok(()) => Ok(RawPacket { bytes }),
            Err(e) => Err(e),
        }
    }

    /// Get the contents of this packet, including the header.
    pub fn bytes(&self) -> (r: &[u8])
        ensures
            r@ == self@,
    {
        self.bytes.as_slice()
    }

    /// Get the contents of this packet, excluding the header.
    pub fn payload(&self) -> (r: &[u8])
        requires
            self.wf(),
        ensures
            r@ == self@.skip(5),
    {
        let all = self.bytes.as_slice();
        slice_subrange(all, 5, all.len())
    }

    /// Get a mutable reference to the contents of this packet, excluding the
    /// header.
    pub fn payload_mut(&mut self) -> (r: &mut [u8])
        requires
            old(self).wf(),
        ensures
            r@ == old(self)@.skip(5),
            final(self)@ == old(self)@.take(5) + final(r)@,
            final(r)@.len() == r@.len() ==> final(self).wf(),
    {
        proof {
            let header = old(self)@.take(5);
            assert forall|tail: Seq<u8>| #![auto] (header + tail).take(4) =~= old(self)@.take(4) by {}
        }
        let all = self.bytes.as_mut_slice();
        let (_, payload) = all.split_at_mut(5);
        payload
    }

    /// Get the raw ID of this packet.
    pub fn id(&self) -> (r: u8)
        requires
            self.wf(),
        ensures
            r == self@[4],
    {
        self.bytes[4]
    }
}

} // verus!
