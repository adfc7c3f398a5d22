//! The RC4 stream cipher.

use vstd::prelude::*;
use vstd::slice::*;

verus! {

/// The mathematical state of the cipher: a permutation of the 256 byte values
/// and two indices into it.
pub struct Rc4State {
    pub perm: Seq<u8>,
    pub i: u8,
    pub j: u8,
}

/// `s` with the entries at `a` and `b` exchanged.
pub open spec fn swapped(s: Seq<u8>, a: int, b: int) -> Seq<u8> {
    s.update(a, s[b]).update(b, s[a])
}

/// The identity permutation.
pub open spec fn identity() -> Seq<u8> {
    Seq::new(256, |k: int| k as u8)
}

/// The permutation and the index `j` after the first `n` swaps of the key
/// schedule.
pub open spec fn scheduled(key: Seq<u8>, n: nat) -> (Seq<u8>, u8)
    decreases n,
{
    if n == 0 {
        (identity(), 0)
    } else {
        let (perm, j) = scheduled(key, (n - 1) as nat);
        let i = n - 1;
        let j = ((j + perm[i] + key[i % (key.len() as int)]) % 256) as u8;
        (swapped(perm, i, j as int), j)
    }
}

/// The state of a cipher that was just keyed with `key`.
pub open spec fn keyed(key: Seq<u8>) -> Rc4State {
    Rc4State { perm: scheduled(key, 256).0, i: 0, j: 0 }
}

/// The state after the generation of one more byte of keystream.
pub open spec fn stepped(s: Rc4State) -> Rc4State {
    let i = ((s.i + 1) % 256) as u8;
    let j = ((s.j + s.perm[i as int]) % 256) as u8;
    Rc4State { perm: swapped(s.perm, i as int, j as int), i, j }
}

/// The byte of keystream that the step into state `s` produced.
pub open spec fn key_byte(s: Rc4State) -> u8 {
    s.perm[(s.perm[s.i as int] + s.perm[s.j as int]) % 256]
}

/// The state after `n` bytes of keystream.
pub open spec fn advanced(s: Rc4State, n: nat) -> Rc4State
    decreases n,
{
    if n == 0 {
        s
    } else {
        stepped(advanced(s, (n - 1) as nat))
    }
}

/// The next `n` bytes of keystream of a cipher in state `s`.
pub open spec fn keystream(s: Rc4State, n: nat) -> Seq<u8> {
    Seq::new(n, |k: int| key_byte(advanced(s, (k + 1) as nat)))
}

/// `data` with each byte XORed with the byte of `stream` at its position.
pub open spec fn xored(data: Seq<u8>, stream: Seq<u8>) -> Seq<u8> {
    Seq::new(data.len(), |k: int| data[k] ^ stream[k])
}

/// What a cipher in state `s` makes of `data`.
pub open spec fn ciphered(s: Rc4State, data: Seq<u8>) -> Seq<u8> {
    xored(data, keystream(s, data.len()))
}

/// Whether `perm` is a permutation of the 256 byte values: it holds 256
/// bytes, and none twice.
pub open spec fn is_permutation(perm: Seq<u8>) -> bool {
    &&& perm.len() == 256
    &&& forall|a: int, b: int| 0 <= a < b < 256 ==> perm[a] != perm[b]
}

/// Exchanging two entries of a permutation gives a permutation.
pub proof fn lemma_swapped_permutation(perm: Seq<u8>, a: int, b: int)
    requires
        is_permutation(perm),
        0 <= a < 256,
        0 <= b < 256,
    ensures
        is_permutation(swapped(perm, a, b)),
{
    let after = swapped(perm, a, b);
    assert forall|x: int, y: int| 0 <= x < y < 256 implies after[x] != after[y] by {
        let from_x = if x == a {
            b
        } else if x == b {
            a
        } else {
            x
        };
        let from_y = if y == a {
            b
        } else if y == b {
            a
        } else {
            y
        };
        assert(after[x] == perm[from_x]);
        assert(after[y] == perm[from_y]);
        assert(from_x != from_y);
        if from_x < from_y {
            assert(perm[from_x] != perm[from_y]);
        } else {
            assert(perm[from_y] != perm[from_x]);
        }
    }
}

/// The key schedule keeps the state a permutation, at each of its swaps.
pub proof fn lemma_scheduled_permutation(key: Seq<u8>, n: nat)
    requires
        key.len() > 0,
        n <= 256,
    ensures
        is_permutation(scheduled(key, n).0),
    decreases n,
{
    if n > 0 {
        lemma_scheduled_permutation(key, (n - 1) as nat);
        let (perm, j) = scheduled(key, (n - 1) as nat);
        let i = n - 1;
        let next = ((j + perm[i] + key[i % (key.len() as int)]) % 256) as u8;
        lemma_swapped_permutation(perm, i, next as int);
    }
}

/// The state of a cipher is a permutation of the 256 byte values from the
/// moment it is keyed, and stays one however many bytes go through.
pub proof fn lemma_state_is_permutation(key: Seq<u8>, n: nat)
    requires
        key.len() > 0,
    ensures
        is_permutation(advanced(keyed(key), n).perm),
    decreases n,
{
    if n == 0 {
        lemma_scheduled_permutation(key, 256);
    } else {
        lemma_state_is_permutation(key, (n - 1) as nat);
        let s = advanced(keyed(key), (n - 1) as nat);
        let i = ((s.i + 1) % 256) as u8;
        let j = ((s.j + s.perm[i as int]) % 256) as u8;
        lemma_swapped_permutation(s.perm, i as int, j as int);
    }
}

/// The cipher is symmetric: the same keystream applied twice to the same
/// bytes gives the bytes back, so a cipher and its clone undo each other.
pub proof fn lemma_cipher_symmetric(s: Rc4State, data: Seq<u8>)
    ensures
        ciphered(s, ciphered(s, data)) == data,
        ciphered(s, data).len() == data.len(),
{
    let once = ciphered(s, data);
    let twice = ciphered(s, once);
    assert forall|k: int| 0 <= k < data.len() implies twice[k] == data[k] by {
        let a = data[k];
        let b = keystream(s, data.len())[k];
        assert((a ^ b) ^ b == a) by (bit_vector);
    }
    assert(twice =~= data);
}

/// Ciphering a message in two parts, one after the other, is ciphering it in
/// one piece: the state only depends on how many bytes went through.
pub proof fn lemma_cipher_in_parts(s: Rc4State, first: Seq<u8>, second: Seq<u8>)
    ensures
        ciphered(s, first + second) == ciphered(s, first) + ciphered(
            advanced(s, first.len()),
            second,
        ),
        advanced(s, (first + second).len()) == advanced(advanced(s, first.len()), second.len()),
{
    assert forall|n: nat| #![auto] advanced(s, first.len() + n) == advanced(advanced(s, first.len()), n) by {
        lemma_advanced_sum(s, first.len(), n);
    }
    let whole = ciphered(s, first + second);
    let parts = ciphered(s, first) + ciphered(advanced(s, first.len()), second);
    assert forall|k: int| 0 <= k < whole.len() implies whole[k] == parts[k] by {
        if k >= first.len() {
            lemma_advanced_sum(s, first.len(), (k - first.len() + 1) as nat);
        }
    }
    assert(whole =~= parts);
    lemma_advanced_sum(s, first.len(), second.len());
}

proof fn lemma_advanced_sum(s: Rc4State, a: nat, b: nat)
    ensures
        advanced(s, a + b) == advanced(advanced(s, a), b),
    decreases b,
{
    if b > 0 {
        lemma_advanced_sum(s, a, (b - 1) as nat);
        assert(a + b - 1 == a + (b - 1) as nat);
    }
}

/// An RC4 cipher: its state advances by one step for each byte it processes.
pub struct Rc4 {
    perm: Vec<u8>,
    i: u8,
    j: u8,
}

impl View for Rc4 {
    type V = Rc4State;

    closed spec fn view(&self) -> Rc4State {
        Rc4State { perm: self.perm@, i: self.i, j: self.j }
    }
}

impl Rc4 {
    #[verifier::type_invariant]
    spec fn well_formed(self) -> bool {
        self.perm@.len() == 256
    }

    /// Create a cipher from a key, by the RC4 key schedule.
    pub fn new(key: &[u8]) -> (r: Self)
        requires
            key@.len() > 0,
        ensures
            r@ == keyed(key@),
    {
        let mut perm: Vec<u8> = Vec::with_capacity(256);
        let mut k: usize = 0;
        while k < 256
            invariant
                k <= 256,
                perm@.len() == k,
                forall|t: int| 0 <= t < k ==> perm@[t] == t as u8,
            decreases 256 - k,
        {
            perm.push(k as u8);
            k = k + 1;
        }
        assert(perm@ =~= identity());
        let mut j: u8 = 0;
        let mut i: usize = 0;
        while i < 256
            invariant
                i <= 256,
                key@.len() > 0,
                perm@.len() == 256,
                (perm@, j) == scheduled(key@, i as nat),
            decreases 256 - i,
        {
            let sum: usize = j as usize + perm[i] as usize + key[i % key.len()] as usize;
            j = (sum % 256) as u8;
            let a: u8 = perm[i];
            let b: u8 = perm[j as usize];
            perm[i] = b;
            perm[j as usize] = a;
            i = i + 1;
        }
        Rc4 { perm, i: 0, j: 0 }
    }

    /// XOR the keystream into `data`, in place, and advance the cipher by the
    /// number of bytes processed.
    pub fn process(&mut self, data: &mut [u8])
        ensures
            final(data)@ == ciphered(old(self)@, old(data)@),
            final(self)@ == advanced(old(self)@, old(data)@.len()),
    {
        proof {
            use_type_invariant(&*self);
        }
        let n: usize = data.len();
        let mut k: usize = 0;
        while k < n
            invariant
                k <= n,
                n == old(data)@.len(),
                data@.len() == n,
                self.perm@.len() == 256,
                self@ == advanced(old(self)@, k as nat),
                forall|t: int| 0 <= t < k ==> data@[t] == ciphered(old(self)@, old(data)@)[t],
                forall|t: int| k <= t < n ==> data@[t] == old(data)@[t],
            decreases n - k,
        {
            let i: u8 = ((self.i as usize + 1) % 256) as u8;
            let j: u8 = ((self.j as usize + self.perm[i as usize] as usize) % 256) as u8;
            let a: u8 = self.perm[i as usize];
            let b: u8 = self.perm[j as usize];
            self.perm[i as usize] = b;
            self.perm[j as usize] = a;
            self.i = i;
            self.j = j;
            let kb: u8 = self.perm[(self.perm[i as usize] as usize + self.perm[j as usize] as usize)
                % 256];
            let plain: u8 = data[k];
            data[k] = plain ^ kb;
            k = k + 1;
        }
        assert(data@ =~= ciphered(old(self)@, old(data)@));
    }
}

impl Clone for Rc4 {
    /// A clone continues the keystream from the same position.
    fn clone(&self) -> (r: Self)
        ensures
            r@ == self@,
    {
        proof {
            use_type_invariant(self);
        }
        let perm = self.perm.clone();
        assert(perm@ =~= self.perm@);
        Rc4 { perm, i: self.i, j: self.j }
    }
}

} // verus!
