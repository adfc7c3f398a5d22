//! The dataflow of the proxy: packets that arrive from the client are
//! forwarded to the server and packets that arrive from the server are
//! forwarded to the client, each deciphered with the cipher of the side it
//! came from and ciphered again with the cipher of the side it goes to.

use vstd::prelude::*;
use crate::codec::{
    accept, connect, framing, lemma_echo, lemma_frame_needs_all, with_payload_ciphered, Decoder,
    Encoder, FrameError, Framing, MAX_PACKET_SIZE,
};
use crate::raw::valid_frame;
use crate::rc4::{advanced, keyed, Rc4State};

verus! {

/// One of the two ends that the proxy stands between.
#[derive(Debug, Clone, Copy, PartialEq, Eq, Structural)]
pub enum Side {
    Client,
    Server,
}

/// What forwarding makes of the bytes that one side has sent.
pub struct Relayed {
    /// The bytes to send to the other side: the frames, in the order in
    /// which they arrived.
    pub out: Seq<u8>,
    /// The number of frames.
    pub frames: nat,
    /// The state of the receive cipher afterwards.
    pub rx: Rc4State,
    /// The state of the send cipher afterwards.
    pub tx: Rc4State,
    /// What has arrived of the next frame.
    pub rest: Seq<u8>,
    /// The fault that ended the forwarding, if any.
    pub fault: Option<FrameError>,
}

/// What forwarding makes of `buffer`, the bytes received and not yet
/// forwarded: each whole frame has its payload deciphered with the receive
/// cipher and ciphered with the send cipher; a frame that is not whole yet
/// is kept for later; a header that is not acceptable ends the forwarding.
pub open spec fn relayed(rx: Rc4State, tx: Rc4State, buffer: Seq<u8>) -> Relayed
    decreases buffer.len(),
{
    match framing(buffer) {
        Framing::NeedMore => Relayed {
            out: Seq::empty(),
            frames: 0,
            rx,
            tx,
            rest: buffer,
            fault: None,
        },
        Framing::Invalid(e) => Relayed {
            out: Seq::empty(),
            frames: 0,
            rx,
            tx,
            rest: buffer,
            fault: Some(e),
        },
        Framing::Frame(len) => {
            let frame = with_payload_ciphered(rx, buffer.take(len as int));
            let sent = with_payload_ciphered(tx, frame);
            let payload = (len - 5) as nat;
            let after = relayed(
                advanced(rx, payload),
                advanced(tx, payload),
                buffer.skip(len as int),
            );
            Relayed { out: sent + after.out, frames: 1 + after.frames, ..after }
        },
    }
}

/// Forwarding is transparent: a frame that its sender has ciphered with a
/// cipher in the state of the receive cipher of the proxy is forwarded as
/// one frame, and a receiver whose cipher is in the state of the send cipher
/// of the proxy deciphers it to what the sender sent.
pub proof fn lemma_forwarding_is_transparent(rx: Rc4State, tx: Rc4State, frame: Seq<u8>)
    requires
        valid_frame(frame),
        frame.len() <= MAX_PACKET_SIZE,
    ensures
        ({
            let all = relayed(rx, tx, with_payload_ciphered(rx, frame));
            &&& all.frames == 1
            &&& all.fault is None
            &&& all.rest == Seq::<u8>::empty()
            &&& all.out == with_payload_ciphered(tx, frame)
            &&& with_payload_ciphered(tx, all.out) == frame
            &&& all.rx == advanced(rx, (frame.len() - 5) as nat)
            &&& all.tx == advanced(tx, (frame.len() - 5) as nat)
        }),
{
    let sent = with_payload_ciphered(rx, frame);
    let len = frame.len() as int;
    lemma_echo(rx, frame);
    lemma_echo(tx, frame);
    lemma_frame_needs_all(sent, 0, Seq::<u8>::empty());
    assert(sent + Seq::<u8>::empty() =~= sent);
    assert(sent.take(len) =~= sent);
    assert(sent.skip(len) =~= Seq::<u8>::empty());
    let after = relayed(
        advanced(rx, (len - 5) as nat),
        advanced(tx, (len - 5) as nat),
        sent.skip(len),
    );
    assert(after.out =~= Seq::<u8>::empty());
    assert(with_payload_ciphered(tx, frame) + Seq::<u8>::empty() =~= with_payload_ciphered(
        tx,
        frame,
    ));
}

/// Forward what `rx` has received: every whole frame is deciphered, ciphered
/// for the other side by `tx` and appended to `out`. Gives the number of
/// frames forwarded, or the fault of the stream, which is final.
#[verifier::rlimit(50)]
pub fn relay(rx: &mut Decoder, tx: &mut Encoder, out: &mut Vec<u8>) -> (r: Result<usize, FrameError>)
    ensures
        ({
            let all = relayed(old(rx).cipher(), old(tx).cipher(), old(rx).buffered());
            &&& final(out)@ == old(out)@ + all.out
            &&& final(rx).cipher() == all.rx
            &&& final(tx).cipher() == all.tx
            &&& final(rx).buffered() == all.rest
            &&& match all.fault {
                Some(e) => r == Err::<usize, FrameError>(e),
                None => r is Ok && (all.frames <= usize::MAX ==> r->Ok_0 == all.frames),
            }
        }),
{
    let ghost all = relayed(rx.cipher(), tx.cipher(), rx.buffered());
    let ghost mut done: Seq<u8> = Seq::empty();
    let ghost mut frames: nat = 0;
    let mut count: usize = 0;
    proof {
        assert(out@ =~= old(out)@ + done);
        assert forall|rest: Seq<u8>| #![auto] Seq::<u8>::empty() + rest =~= rest by {}
    }
    loop
        invariant
            out@ == old(out)@ + done,
            all == relayed(old(rx).cipher(), old(tx).cipher(), old(rx).buffered()),
            ({
                let rest = relayed(rx.cipher(), tx.cipher(), rx.buffered());
                &&& all.out == done + rest.out
                &&& all.frames == frames + rest.frames
                &&& all.rx == rest.rx
                &&& all.tx == rest.tx
                &&& all.rest == rest.rest
                &&& all.fault == rest.fault
            }),
            frames <= usize::MAX ==> count == frames,
        decreases rx.buffered().len(),
    {
        let ghost before_rx = rx.cipher();
        let ghost before_tx = tx.cipher();
        let ghost buffer = rx.buffered();
        match rx.recv() {
            Err(e) => {
                assert(done + Seq::<u8>::empty() =~= done);
                return Err(e);
            },
            Ok(None) => {
                assert(done + Seq::<u8>::empty() =~= done);
                return Ok(count);
            },
            Ok(Some(packet)) => {
                let mut packet = packet;
                let ghost frame = packet@;
                tx.send(&mut packet, out);
                proof {
                    let len = framing(buffer)->Frame_0;
                    let sent = with_payload_ciphered(before_tx, frame);
                    let rest = relayed(rx.cipher(), tx.cipher(), rx.buffered());
                    assert(frame.len() == len) by {
                        lemma_echo(before_rx, buffer.take(len as int));
                    }
                    assert((done + sent) + rest.out =~= done + (sent + rest.out));
                    assert(out@ =~= old(out)@ + (done + sent));
                    done = done + sent;
                    frames = frames + 1;
                }
                if count < usize::MAX {
                    count = count + 1;
                }
            },
        }
    }
}

/// A session of the proxy: the connection of a client, and the connection to
/// the server that stands for it.
pub struct Session {
    client_rx: Decoder,
    client_tx: Encoder,
    server_rx: Decoder,
    server_tx: Encoder,
    client_open: bool,
    server_open: bool,
}

impl Session {
    /// The decoder of what `side` sends.
    pub closed spec fn rx(&self, side: Side) -> Decoder {
        match side {
            Side::Client => self.client_rx,
            Side::Server => self.server_rx,
        }
    }

    /// The encoder of what is sent to `side`.
    pub closed spec fn tx(&self, side: Side) -> Encoder {
        match side {
            Side::Client => self.client_tx,
            Side::Server => self.server_tx,
        }
    }

    /// Whether `side` has not closed its stream yet.
    pub closed spec fn open(&self, side: Side) -> bool {
        match side {
            Side::Client => self.client_open,
            Side::Server => self.server_open,
        }
    }

    /// The other side.
    pub open spec fn other(side: Side) -> Side {
        match side {
            Side::Client => Side::Server,
            Side::Server => Side::Client,
        }
    }

    /// Start a session with the given RC4 keys: towards the client the proxy
    /// is a server, towards the server it is a client.
    pub fn new(keys: &[u8]) -> (r: Self)
        requires
            keys@.len() >= 2,
        ensures
            r.open(Side::Client),
            r.open(Side::Server),
            r.rx(Side::Client).buffered() == Seq::<u8>::empty(),
            r.rx(Side::Server).buffered() == Seq::<u8>::empty(),
            r.rx(Side::Client).cipher() == keyed(keys@.take(keys@.len() as int / 2)),
            r.tx(Side::Client).cipher() == keyed(keys@.skip(keys@.len() as int / 2)),
            r.rx(Side::Server).cipher() == keyed(keys@.skip(keys@.len() as int / 2)),
            r.tx(Side::Server).cipher() == keyed(keys@.take(keys@.len() as int / 2)),
    {
        let (client_rx, client_tx) = accept(keys);
        let (server_rx, server_tx) = connect(keys);
        Session {
            client_rx,
            client_tx,
            server_rx,
            server_tx,
            client_open: true,
            server_open: true,
        }
    }

    /// Take the bytes that `from` has sent, and append to `out` what is to
    /// be sent to the other side for them: the frames that are whole now,
    /// in their order. Gives the number of frames forwarded. A fault is
    /// final: the session is to be torn down.
    pub fn forward(&mut self, from: Side, received: &[u8], out: &mut Vec<u8>) -> (r: Result<
        usize,
        FrameError,
    >)
        ensures
            ({
                let to = Session::other(from);
                let all = relayed(
                    old(self).rx(from).cipher(),
                    old(self).tx(to).cipher(),
                    old(self).rx(from).buffered() + received@,
                );
                &&& final(out)@ == old(out)@ + all.out
                &&& final(self).rx(from).cipher() == all.rx
                &&& final(self).tx(to).cipher() == all.tx
                &&& final(self).rx(from).buffered() == all.rest
                &&& final(self).rx(to) == old(self).rx(to)
                &&& final(self).tx(from) == old(self).tx(from)
                &&& final(self).open(from) == old(self).open(from)
                &&& final(self).open(to) == old(self).open(to)
                &&& match all.fault {
                    Some(e) => r == Err::<usize, FrameError>(e),
                    None => r is Ok && (all.frames <= usize::MAX ==> r->Ok_0 == all.frames),
                }
            }),
    {
        match from {
            Side::Client => {
                self.client_rx.feed(received);
                relay(&mut self.client_rx, &mut self.server_tx, out)
            },
            Side::Server => {
                self.server_rx.feed(received);
                relay(&mut self.server_rx, &mut self.client_tx, out)
            },
        }
    }

    /// Note that the stream from `side` has ended. The other direction goes
    /// on until its stream ends too; the session is over when both have
    /// ended.
    pub fn close(&mut self, side: Side) -> (over: bool)
        ensures
            !final(self).open(side),
            final(self).open(Session::other(side)) == old(self).open(Session::other(side)),
            final(self).rx(Side::Client) == old(self).rx(Side::Client),
            final(self).rx(Side::Server) == old(self).rx(Side::Server),
            final(self).tx(Side::Client) == old(self).tx(Side::Client),
            final(self).tx(Side::Server) == old(self).tx(Side::Server),
            over == !final(self).open(Session::other(side)),
    {
        match side {
            Side::Client => {
                self.client_open = false;
            },
            Side::Server => {
                self.server_open = false;
            },
        }
        !self.client_open && !self.server_open
    }

    /// Whether the stream from `side` has not ended yet.
    pub fn is_open(&self, side: Side) -> (r: bool)
        ensures
            r == self.open(side),
    {
        match side {
            Side::Client => self.client_open,
            Side::Server => self.server_open,
        }
    }
}

} // verus!
