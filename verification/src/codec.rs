//! Framing of the packet stream: the decoder that cuts received bytes into
//! frames and deciphers them, and the encoder that ciphers frames for sending.

use vstd::prelude::*;
use vstd::slice::slice_subrange;
use vstd::string::StringExecFns;
use crate::raw::{declared_len, valid_frame, RawPacket};
use crate::rc4::{advanced, ciphered, keyed, lemma_cipher_symmetric, Rc4, Rc4State};
use crate::text::{decimal, decimal_text};
use crate::wire::{be_decode, lemma_be_value_bound, lemma_pow256_values};

verus! {

/// Maximum allowed packet size, in bytes.
///
/// Although the layout of packets allows sizes of up to 2^32 bytes, a
/// reasonable upper bound is set to prevent malicious connections attempting
/// to exhaust system memory.
pub const MAX_PACKET_SIZE: u32 = 10 * 1024 * 1024;

/// An error returned when a `Decoder` attempts to decode an excessively large
/// packet.
#[derive(Debug, Clone, Copy, PartialEq, Eq, Structural)]
pub struct PacketSizeLimitExceeded {
    pub limit: u32,
    pub size: u32,
}

/// An error that ends a connection: the stream cannot be cut into frames
/// any more.
#[derive(Debug, Clone, Copy, PartialEq, Eq, Structural)]
pub enum FrameError {
    /// The header declares a length that cannot hold the header itself.
    InvalidLength(u32),
    /// The header declares a length over `MAX_PACKET_SIZE`.
    SizeLimitExceeded(PacketSizeLimitExceeded),
}

impl FrameError {
    /// The description of the error.
    pub open spec fn text(self) -> Seq<char> {
        match self {
            FrameError::InvalidLength(length) => "Invalid packet length: "@ + decimal_text(
                length as nat,
            ),
            FrameError::SizeLimitExceeded(e) => "Packet size limit of "@ + decimal_text(
                e.limit as nat,
            ) + " bytes was exceeded: "@ + decimal_text(e.size as nat) + " bytes specified"@,
        }
    }

    /// A human-readable description of this error.
    pub fn message(&self) -> (r: String)
        ensures
            r@ == self.text(),
    {
        match self {
            FrameError::InvalidLength(length) => {
                let mut r = "Invalid packet length: ".to_owned();
                r.append(decimal(*length as usize).as_str());
                r
            },
            FrameError::SizeLimitExceeded(e) => {
                let mut r = "Packet size limit of ".to_owned();
                r.append(decimal(e.limit as usize).as_str());
                r.append(" bytes was exceeded: ");
                r.append(decimal(e.size as usize).as_str());
                r.append(" bytes specified");
                r
            },
        }
    }
}

/// What the bytes received so far allow the decoder to do.
pub enum Framing {
    /// No whole frame has arrived yet.
    NeedMore,
    /// The header at the front is not acceptable.
    Invalid(FrameError),
    /// A whole frame of this length is at the front.
    Frame(nat),
}

/// What the decoder does with the bytes received so far.
pub open spec fn framing(buffer: Seq<u8>) -> Framing {
    if buffer.len() < 4 {
        Framing::NeedMore
    } else {
        let len = declared_len(buffer);
        if len < 5 {
            Framing::Invalid(FrameError::InvalidLength(len as u32))
        } else if len > MAX_PACKET_SIZE {
            Framing::Invalid(
                FrameError::SizeLimitExceeded(
                    PacketSizeLimitExceeded { limit: MAX_PACKET_SIZE, size: len as u32 },
                ),
            )
        } else if buffer.len() < len {
            Framing::NeedMore
        } else {
            Framing::Frame(len)
        }
    }
}

/// A frame with its payload run through a cipher in state `s`; the five bytes
/// of the header stay as they are.
pub open spec fn with_payload_ciphered(s: Rc4State, frame: Seq<u8>) -> Seq<u8> {
    frame.take(5) + ciphered(s, frame.skip(5))
}

/// The decoder never reads past a frame, nor takes less: of a valid frame
/// within the size limit every proper prefix asks for more bytes, and the
/// whole frame, whatever follows it, is cut off at exactly its length.
pub proof fn lemma_frame_needs_all(frame: Seq<u8>, n: nat, rest: Seq<u8>)
    requires
        valid_frame(frame),
        frame.len() <= MAX_PACKET_SIZE,
        n < frame.len(),
    ensures
        framing(frame.take(n as int)) == Framing::NeedMore,
        framing(frame + rest) == Framing::Frame(frame.len()),
{
    if n >= 4 {
        assert(frame.take(n as int).take(4) =~= frame.take(4));
    }
    assert((frame + rest).take(4) =~= frame.take(4));
}

/// A payload that was ciphered for sending is restored by a cipher in the
/// same state on the receiving side, and the frame stays valid on the way.
pub proof fn lemma_echo(s: Rc4State, frame: Seq<u8>)
    requires
        frame.len() >= 5,
    ensures
        with_payload_ciphered(s, with_payload_ciphered(s, frame)) == frame,
        with_payload_ciphered(s, frame).len() == frame.len(),
        valid_frame(with_payload_ciphered(s, frame)) == valid_frame(frame),
{
    let sent = with_payload_ciphered(s, frame);
    lemma_cipher_symmetric(s, frame.skip(5));
    assert(sent.take(5) =~= frame.take(5));
    assert(sent.skip(5) =~= ciphered(s, frame.skip(5)));
    assert(frame.take(5) + frame.skip(5) =~= frame);
    assert(sent.take(4) =~= frame.take(4));
}

/// Create cipher instances from the RC4 keys: the first half of `keys` keys
/// the first cipher, the second half the second.
pub fn create_ciphers(keys: &[u8]) -> (r: (Rc4, Rc4))
    requires
        keys@.len() >= 2,
    ensures
        r.0@ == keyed(keys@.take(keys@.len() as int / 2)),
        r.1@ == keyed(keys@.skip(keys@.len() as int / 2)),
{
    let (key0, key1) = keys.split_at(keys.len() / 2);
    (Rc4::new(key0), Rc4::new(key1))
}

/// The two halves of a connection opened as a client: the first key ciphers
/// what is sent, the second what is received.
pub fn connect(keys: &[u8]) -> (r: (Decoder, Encoder))
    requires
        keys@.len() >= 2,
    ensures
        r.0.cipher() == keyed(keys@.skip(keys@.len() as int / 2)),
        r.0.buffered() == Seq::<u8>::empty(),
        r.1.cipher() == keyed(keys@.take(keys@.len() as int / 2)),
{
    let (tx_rc4, rx_rc4) = create_ciphers(keys);
    (Decoder::new(rx_rc4), Encoder::new(tx_rc4))
}

/// The two halves of a connection accepted as a server: the first key
/// ciphers what is received, the second what is sent.
pub fn accept(keys: &[u8]) -> (r: (Decoder, Encoder))
    requires
        keys@.len() >= 2,
    ensures
        r.0.cipher() == keyed(keys@.take(keys@.len() as int / 2)),
        r.0.buffered() == Seq::<u8>::empty(),
        r.1.cipher() == keyed(keys@.skip(keys@.len() as int / 2)),
{
    let (rx_rc4, tx_rc4) = create_ciphers(keys);
    (Decoder::new(rx_rc4), Encoder::new(tx_rc4))
}

/// An encoder for writing packets.
pub struct Encoder {
    cipher: Rc4,
}

impl Encoder {
    /// The state of the send cipher.
    pub closed spec fn cipher(&self) -> Rc4State {
        self.cipher@
    }

    /// An encoder that ciphers with the given cipher.
    pub fn new(cipher: Rc4) -> (r: Self)
        ensures
            r.cipher() == cipher@,
    {
        Self { cipher }
    }

    /// Cipher the payload of the given packet, in place, and append the whole
    /// frame to `out`.
    pub fn send(&mut self, packet: &mut RawPacket, out: &mut Vec<u8>)
        requires
            old(packet).wf(),
        ensures
            final(packet).wf(),
            final(packet)@ == with_payload_ciphered(old(self).cipher(), old(packet)@),
            final(out)@ == old(out)@ + final(packet)@,
            final(self).cipher() == advanced(old(self).cipher(), (old(packet)@.len() - 5) as nat),
    {
        self.cipher.process(packet.payload_mut());
        out.extend_from_slice(packet.bytes());
        assert(final(out)@ =~= old(out)@ + packet@);
    }
}

/// A decoder for reading packets.
pub struct Decoder {
    cipher: Rc4,
    buffer: Vec<u8>,
}

impl Decoder {
    /// The state of the receive cipher.
    pub closed spec fn cipher(&self) -> Rc4State {
        self.cipher@
    }

    /// The bytes that were received and not yet handed out as frames.
    pub closed spec fn buffered(&self) -> Seq<u8> {
        self.buffer@
    }

    /// A decoder that deciphers with the given cipher, and has received
    /// nothing yet.
    pub fn new(cipher: Rc4) -> (r: Self)
        ensures
            r.cipher() == cipher@,
            r.buffered() == Seq::<u8>::empty(),
    {
        Self { cipher, buffer: Vec::new() }
    }

    /// Append bytes that were received from the stream.
    pub fn feed(&mut self, bytes: &[u8])
        ensures
            final(self).buffered() == old(self).buffered() + bytes@,
            final(self).cipher() == old(self).cipher(),
    {
        self.buffer.extend_from_slice(bytes);
        assert(self.buffer@ =~= old(self).buffer@ + bytes@);
    }

    /// Read a packet from this decoder.
    ///
    /// A value of `None` indicates that no whole frame has been received
    /// yet. An error is final: the stream cannot be read any further.
    #[verifier::rlimit(50)]
    pub fn recv(&mut self) -> (r: Result<Option<RawPacket>, FrameError>)
        ensures
            match framing(old(self).buffered()) {
                Framing::NeedMore => {
                    &&& r == Ok::<Option<RawPacket>, FrameError>(None)
                    &&& final(self).buffered() == old(self).buffered()
                    &&& final(self).cipher() == old(self).cipher()
                },
                Framing::Invalid(e) => {
                    &&& r == Err::<Option<RawPacket>, FrameError>(e)
                    &&& final(self).buffered() == old(self).buffered()
                    &&& final(self).cipher() == old(self).cipher()
                },
                Framing::Frame(len) => {
                    &&& r matches Ok(Some(packet))
                    &&& packet.wf()
                    &&& packet@ == with_payload_ciphered(
                        old(self).cipher(),
                        old(self).buffered().take(len as int),
                    )
                    &&& final(self).buffered() == old(self).buffered().skip(len as int)
                    &&& final(self).cipher() == advanced(old(self).cipher(), (len - 5) as nat)
                },
            },
    {
        if self.buffer.len() < 4 {
            return Ok(None);
        }
        let header = slice_subrange(self.buffer.as_slice(), 0, 4);
        assert(header@ =~= self.buffer@.take(4));
        proof {
            lemma_be_value_bound(header@);
            lemma_pow256_values();
        }
        let len: u32 = be_decode(header) as u32;
        if len < 5 {
            return Err(FrameError::InvalidLength(len));
        }
        if len > MAX_PACKET_SIZE {
            return Err(
                FrameError::SizeLimitExceeded(
                    PacketSizeLimitExceeded { limit: MAX_PACKET_SIZE, size: len },
                ),
            );
        }
        if self.buffer.len() < len as usize {
            return Ok(None);
        }
        let rest = self.buffer.split_off(len as usize);
        let mut frame = rest;
        std::mem::swap(&mut frame, &mut self.buffer);
        let ghost whole = frame@;
        assert(whole =~= old(self).buffered().take(len as int));
        assert(whole.take(4) =~= old(self).buffered().take(4));
        let (_, payload) = frame.as_mut_slice().split_at_mut(5);
        self.cipher.process(payload);
        proof {
            lemma_echo(old(self).cipher(), whole);
            assert(frame@ =~= with_payload_ciphered(old(self).cipher(), whole));
        }
        let packet = RawPacket::from_vec(frame).unwrap();
        Ok(Some(packet))
    }
}

} // verus!
