//! Responding to policy file requests from flash.
//!
//! Before connecting, a flash player may send a policy file request and
//! parse the response to determine whether the connection is legal. A
//! connection is probed for such a request before it is treated as a game
//! connection: the first bytes are peeked at, without consuming them, until
//! they either differ from the request or spell it in full.

use vstd::prelude::*;
use vstd::slice::slice_to_vec;
use vstd::string::StringSliceAdditionalSpecFns;
use vstd::utf8::encode_utf8;
use crate::codec::{accept, Decoder, Encoder};
use crate::rc4::keyed;

verus! {

/// The number of bytes of a policy file request.
pub const REQUEST_LEN: usize = 23;

/// The longest that a probe waits in all, in milliseconds.
pub const PROBE_TIMEOUT_MS: u64 = 10000;

/// The binary message denoting a policy file request:
/// `<policy-file-request/>` and a zero byte.
pub open spec fn request_message() -> Seq<u8> {
    seq![
        0x3c, 0x70, 0x6f, 0x6c, 0x69, 0x63, 0x79, 0x2d, 0x66, 0x69, 0x6c, 0x65, 0x2d, 0x72, 0x65,
        0x71, 0x75, 0x65, 0x73, 0x74, 0x2f, 0x3e, 0x00,
    ]
}

/// What to do with a connection after a look at its first bytes.
#[derive(Debug, PartialEq, Eq)]
pub enum ProbeAction {
    /// A policy file request: write these bytes, shut the connection down.
    Respond(Vec<u8>),
    /// Not a policy file request: a game connection, with no byte consumed.
    Game,
    /// Could still become a policy file request: wait this many
    /// milliseconds, then look again.
    Wait(u64),
    /// The request did not complete in time: give the connection up.
    TimedOut,
}

/// What a look at the first bytes of a connection decides, by itself.
#[derive(Debug, Clone, Copy, PartialEq, Eq, Structural)]
pub enum Verdict {
    Respond,
    Game,
    Wait(u64),
    TimedOut,
}

/// How long a probe has waited, and how long it waits next.
pub struct ProbeState {
    pub waited: nat,
    pub delay: nat,
}

/// The state of a probe that has not waited yet: the first wait is one
/// millisecond.
pub open spec fn fresh() -> ProbeState {
    ProbeState { waited: 0, delay: 1 }
}

/// The verdict on the bytes observed, and the state of the probe after it.
/// Only the first `REQUEST_LEN` bytes count. Each wait is twice the one
/// before, and a wait that would take the total over `PROBE_TIMEOUT_MS` is
/// not made.
pub open spec fn judged(state: ProbeState, observed: Seq<u8>) -> (Verdict, ProbeState) {
    let n = if observed.len() < REQUEST_LEN {
        observed.len() as int
    } else {
        REQUEST_LEN as int
    };
    if observed.take(n) != request_message().take(n) {
        (Verdict::Game, state)
    } else if n == REQUEST_LEN {
        (Verdict::Respond, state)
    } else if state.waited + state.delay > PROBE_TIMEOUT_MS {
        (Verdict::TimedOut, state)
    } else {
        (
            Verdict::Wait(state.delay as u64),
            ProbeState { waited: state.waited + state.delay, delay: 2 * state.delay },
        )
    }
}

/// The state of a probe after `k` waits.
pub open spec fn after_waits(k: nat) -> ProbeState
    decreases k,
{
    if k == 0 {
        fresh()
    } else {
        let before = after_waits((k - 1) as nat);
        ProbeState { waited: before.waited + before.delay, delay: 2 * before.delay }
    }
}

/// A probe that never completes is given up within ten seconds: as long as
/// the bytes observed are a proper prefix of the request, the first thirteen
/// looks each ask for a wait, of 8191 ms in all, and the fourteenth times
/// out.
pub proof fn lemma_probe_times_out(k: nat, observed: Seq<u8>)
    requires
        observed.len() < REQUEST_LEN,
        observed == request_message().take(observed.len() as int),
    ensures
        after_waits(k).delay == after_waits(k).waited + 1,
        k <= 13 ==> after_waits(k).waited <= 8191,
        k < 13 ==> judged(after_waits(k), observed).0 == Verdict::Wait(
            after_waits(k).delay as u64,
        ) && judged(after_waits(k), observed).1 == after_waits(k + 1),
        k >= 13 ==> judged(after_waits(k), observed).0 == Verdict::TimedOut,
    decreases k,
{
    assert(observed.take(observed.len() as int) =~= observed);
    if k > 0 {
        lemma_probe_times_out((k - 1) as nat, observed);
    }
    if k <= 13 {
        reveal_with_fuel(after_waits, 14);
    } else {
        lemma_waits_grow(13, k);
        reveal_with_fuel(after_waits, 14);
    }
}

proof fn lemma_waits_grow(a: nat, b: nat)
    requires
        a <= b,
    ensures
        after_waits(a).waited <= after_waits(b).waited,
        after_waits(a).delay <= after_waits(b).delay,
    decreases b,
{
    if a < b {
        lemma_waits_grow(a, (b - 1) as nat);
    }
}

/// A request that arrives in pieces is answered once it is whole, however
/// many looks it took and whatever follows it.
pub proof fn lemma_whole_request_is_answered(state: ProbeState, rest: Seq<u8>)
    ensures
        judged(state, request_message() + rest).0 == Verdict::Respond,
{
    let observed = request_message() + rest;
    assert(observed.take(REQUEST_LEN as int) =~= request_message().take(REQUEST_LEN as int));
}

/// The waits of one probe of a connection.
pub struct Probe {
    waited: u64,
    delay: u64,
}

impl View for Probe {
    type V = ProbeState;

    closed spec fn view(&self) -> ProbeState {
        ProbeState { waited: self.waited as nat, delay: self.delay as nat }
    }
}

impl Probe {
    #[verifier::type_invariant]
    spec fn well_formed(self) -> bool {
        self.waited <= PROBE_TIMEOUT_MS && self.delay == self.waited + 1
    }

    /// A probe that has not waited yet.
    pub fn new() -> (r: Self)
        ensures
            r@ == fresh(),
    {
        Probe { waited: 0, delay: 1 }
    }

    /// The time that this probe has waited in all, in milliseconds.
    pub fn waited_ms(&self) -> (r: u64)
        ensures
            r == self@.waited,
            r <= PROBE_TIMEOUT_MS,
    {
        proof {
            use_type_invariant(self);
        }
        self.waited
    }

    /// Judge the bytes that a peek at the connection has shown.
    pub fn observe(&mut self, observed: &[u8]) -> (r: Verdict)
        ensures
            (r, final(self)@) == judged(old(self)@, observed@),
    {
        proof {
            use_type_invariant(&*self);
        }
        let n: usize = if observed.len() < REQUEST_LEN {
            observed.len()
        } else {
            REQUEST_LEN
        };
        let request: [u8; 23] = [
            0x3c, 0x70, 0x6f, 0x6c, 0x69, 0x63, 0x79, 0x2d, 0x66, 0x69, 0x6c, 0x65, 0x2d, 0x72,
            0x65, 0x71, 0x75, 0x65, 0x73, 0x74, 0x2f, 0x3e, 0x00,
        ];
        assert(request@ =~= request_message());
        let mut i: usize = 0;
        while i < n
            invariant
                i <= n <= REQUEST_LEN,
                n <= observed@.len(),
                request@ == request_message(),
                observed@.take(i as int) == request_message().take(i as int),
            decreases n - i,
        {
            if observed[i] != request[i] {
                assert(observed@.take(n as int)[i as int] != request_message().take(n as int)[i as int]);
                return Verdict::Game;
            }
            assert(observed@.take(i + 1) =~= observed@.take(i as int).push(observed@[i as int]));
            assert(request_message().take(i + 1) =~= request_message().take(i as int).push(
                request_message()[i as int],
            ));
            i = i + 1;
        }
        if n == REQUEST_LEN {
            Verdict::Respond
        } else if self.waited + self.delay > PROBE_TIMEOUT_MS {
            Verdict::TimedOut
        } else {
            let delay: u64 = self.delay;
            *self = Probe { waited: self.waited + delay, delay: 2 * delay };
            Verdict::Wait(delay)
        }
    }
}

/// A utility for responding to policy file requests from flash.
///
/// Policy files specify what ports are accessible from a flash player.
pub struct PolicyFile {
    contents: String,
}

impl View for PolicyFile {
    type V = Seq<char>;

    /// The text of the policy file.
    closed spec fn view(&self) -> Seq<char> {
        self.contents@
    }
}

/// The policy file that allows access to all ports from all domains.
pub open spec fn allow_all_text() -> Seq<char> {
    "<?xml version=\"1.0\"?>\n<!DOCTYPE cross-domain-policy SYSTEM \"/xml/dtds/cross-domain-policy.dtd\">\n<cross-domain-policy>\n    <site-control permitted-cross-domain-policies=\"all\"/>\n    <allow-access-from domain=\"*\" to-ports=\"*\"/>\n</cross-domain-policy>\n"@
}

impl PolicyFile {
    /// Create a new policy file with the given response.
    pub fn new(policy_file: String) -> (r: Self)
        ensures
            r@ == policy_file@,
    {
        Self { contents: policy_file }
    }

    /// A policy file that allows access to all ports from all domains.
    ///
    /// Using this policy file is a minor security risk, as it can allow flash
    /// to access other services unexpectedly.
    pub fn allow_all() -> (r: Self)
        ensures
            r@ == allow_all_text(),
    {
        Self {
            contents: "<?xml version=\"1.0\"?>\n<!DOCTYPE cross-domain-policy SYSTEM \"/xml/dtds/cross-domain-policy.dtd\">\n<cross-domain-policy>\n    <site-control permitted-cross-domain-policies=\"all\"/>\n    <allow-access-from domain=\"*\" to-ports=\"*\"/>\n</cross-domain-policy>\n".to_owned(),
        }
    }

    /// Get the contents of this policy file.
    pub fn contents(&self) -> (r: &str)
        ensures
            r@ == self@,
    {
        self.contents.as_str()
    }

    /// Decide what to do with a new connection of which a peek has shown
    /// `observed`: whether it is a policy file request, and if so, with what
    /// to answer it.
    ///
    /// For a policy file request the response is to be written and the
    /// connection shut down. Otherwise the connection is to be treated as a
    /// game connection, with no bytes removed from its buffer, or looked at
    /// again after a wait.
    pub fn handle_connection(&self, probe: &mut Probe, observed: &[u8]) -> (r: ProbeAction)
        ensures
            final(probe)@ == judged(old(probe)@, observed@).1,
            match judged(old(probe)@, observed@).0 {
                Verdict::Respond => r matches ProbeAction::Respond(bytes) && bytes@
                    == encode_utf8(self@),
                Verdict::Game => r is Game,
                Verdict::Wait(ms) => r == ProbeAction::Wait(ms),
                Verdict::TimedOut => r is TimedOut,
            },
    {
        match probe.observe(observed) {
            Verdict::Respond => ProbeAction::Respond(slice_to_vec(self.contents.as_str().as_bytes())),
            Verdict::Game => ProbeAction::Game,
            Verdict::Wait(ms) => ProbeAction::Wait(ms),
            Verdict::TimedOut => ProbeAction::TimedOut,
        }
    }
}

/// What has become of a connection that was accepted.
pub enum Accepted {
    /// A policy file request: write these bytes, shut the connection down.
    Policy(Vec<u8>),
    /// A game connection: the two halves of its codec.
    Game(Decoder, Encoder),
    /// Undecided: wait this many milliseconds, then look again.
    Wait(u64),
    /// The request did not complete in time: give the connection up.
    TimedOut,
}

/// Accept an incoming network connection using the given RC4 keys, as a
/// server, handling policy file requests: decide on what a peek at the
/// connection has shown, and for a game connection make the halves of its
/// codec.
///
/// The raw binary keys should be used, decoded from hexadecimal.
pub fn accept_with_policy(
    keys: &[u8],
    policy: &PolicyFile,
    probe: &mut Probe,
    observed: &[u8],
) -> (r: Accepted)
    requires
        keys@.len() >= 2,
    ensures
        final(probe)@ == judged(old(probe)@, observed@).1,
        match judged(old(probe)@, observed@).0 {
            Verdict::Respond => r matches Accepted::Policy(bytes) && bytes@
                == encode_utf8(policy@),
            Verdict::Game => {
                &&& r matches Accepted::Game(rx, tx)
                &&& rx.cipher() == keyed(keys@.take(keys@.len() as int / 2))
                &&& rx.buffered() == Seq::<u8>::empty()
                &&& tx.cipher() == keyed(keys@.skip(keys@.len() as int / 2))
            },
            Verdict::Wait(ms) => r matches Accepted::Wait(wait) && wait == ms,
            Verdict::TimedOut => r is TimedOut,
        },
{
    match policy.handle_connection(probe, observed) {
        ProbeAction::Respond(bytes) => Accepted::Policy(bytes),
        ProbeAction::Game => {
            let (rx, tx) = accept(keys);
            Accepted::Game(rx, tx)
        },
        ProbeAction::Wait(ms) => Accepted::Wait(ms),
        ProbeAction::TimedOut => Accepted::TimedOut,
    }
}

} // verus!
