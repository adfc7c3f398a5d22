//! Parsers for basic AVM2 types.

use vstd::prelude::*;
use vstd::slice::slice_to_vec;
use vstd::utf8::*;
use crate::avm2::reader::{Parse, ParseError, ParseFault, Parsed, Reader};
use crate::text::string_from_utf8;

verus! {

/// The fault of a read of `needed` bytes from a window of `have` bytes.
pub open spec fn short(have: nat, needed: nat) -> ParseFault {
    ParseFault::InsufficientBytes { remaining: have as usize, needed: needed as usize }
}

/// The number that `bytes` spell in base 256, least significant byte first.
pub open spec fn le_value(bytes: Seq<u8>) -> nat
    decreases bytes.len(),
{
    if bytes.len() == 0 {
        0
    } else {
        bytes[0] as nat + 256 * le_value(bytes.skip(1))
    }
}

/// A fixed-width little-endian unsigned integer of `width` bytes.
pub open spec fn parsed_le(bytes: Seq<u8>, width: nat) -> Parsed<nat> {
    if bytes.len() < width {
        Err(short(bytes.len(), width))
    } else {
        Ok((le_value(bytes.take(width as int)), width as int))
    }
}

/// A little-endian number of `n` bytes is below 256 to the power `n`.
pub proof fn lemma_le_value_bound(bytes: Seq<u8>)
    ensures
        le_value(bytes) < radix_power(256, bytes.len()),
    decreases bytes.len(),
{
    if bytes.len() > 0 {
        lemma_le_value_bound(bytes.skip(1));
        let hi = le_value(bytes.skip(1));
        let p = radix_power(256, (bytes.len() - 1) as nat);
        assert(256 * hi + 256 <= 256 * p) by (nonlinear_arith)
            requires
                hi < p,
        ;
    }
}

/// `base` to the power `n`.
pub open spec fn radix_power(base: nat, n: nat) -> nat
    decreases n,
{
    if n == 0 {
        1
    } else {
        base * radix_power(base, (n - 1) as nat)
    }
}

/// Reads `bytes` as a little-endian number.
fn le_decode(bytes: &[u8]) -> (v: u64)
    requires
        bytes@.len() <= 8,
    ensures
        v == le_value(bytes@),
{
    let mut acc: u64 = 0;
    let mut i: usize = bytes.len();
    proof {
        assert(bytes@.skip(i as int) =~= Seq::<u8>::empty());
    }
    while i > 0
        invariant
            i <= bytes@.len() <= 8,
            acc == le_value(bytes@.skip(i as int)),
        decreases i,
    {
        i = i - 1;
        proof {
            let tail = bytes@.skip(i as int);
            assert(tail.skip(1) =~= bytes@.skip(i + 1));
            lemma_le_value_bound(tail.skip(1));
            lemma_le_value_bound(tail);
            reveal_with_fuel(radix_power, 9);
        }
        acc = acc * 256 + bytes[i] as u64;
    }
    proof {
        assert(bytes@.skip(0) =~= bytes@);
    }
    acc
}

impl Parse for u8 {
    open spec fn parsed(bytes: Seq<u8>) -> Parsed<u8> {
        if bytes.len() < 1 {
            Err(short(bytes.len(), 1))
        } else {
            Ok((bytes[0], 1))
        }
    }

    proof fn lemma_parsed_within(bytes: Seq<u8>) {
    }

    fn parse_avm2(input: &mut Reader) -> (r: Result<Self, ParseError>) {
        let taken = input.take(1)?;
        Ok(taken[0])
    }
}

impl Parse for u16 {
    /// Two bytes, least significant first.
    open spec fn parsed(bytes: Seq<u8>) -> Parsed<u16> {
        match parsed_le(bytes, 2) {
            Ok((v, n)) => Ok((v as u16, n)),
            Err(e) => Err(e),
        }
    }

    proof fn lemma_parsed_within(bytes: Seq<u8>) {
    }

    fn parse_avm2(input: &mut Reader) -> (r: Result<Self, ParseError>) {
        let taken = input.take(2)?;
        proof {
            lemma_le_value_bound(taken@);
            reveal_with_fuel(radix_power, 3);
        }
        Ok(le_decode(taken) as u16)
    }
}

impl Parse for u64 {
    /// Eight bytes, least significant first: the bits of an IEEE-754 double.
    open spec fn parsed(bytes: Seq<u8>) -> Parsed<u64> {
        match parsed_le(bytes, 8) {
            Ok((v, n)) => Ok((v as u64, n)),
            Err(e) => Err(e),
        }
    }

    proof fn lemma_parsed_within(bytes: Seq<u8>) {
    }

    fn parse_avm2(input: &mut Reader) -> (r: Result<Self, ParseError>) {
        let taken = input.take(8)?;
        Ok(le_decode(taken))
    }
}

/// How many of the first `max` bytes of `bytes`, from the front and without a
/// gap, have their high bit set.
pub open spec fn continued(bytes: Seq<u8>, max: nat) -> nat
    decreases max,
{
    if max == 0 || bytes.len() == 0 || bytes[0] < 128 {
        0
    } else {
        1 + continued(bytes.skip(1), (max - 1) as nat)
    }
}

/// The length of the variable-length integer at the front of `bytes`: one
/// more than the run of continuation bytes among the first four, so that a
/// fifth byte always ends the integer.
pub open spec fn varint_len(bytes: Seq<u8>) -> nat {
    1 + continued(bytes, 4)
}

/// The number that the low seven bits of each byte spell in base 128, least
/// significant group first.
pub open spec fn varint_sum(bytes: Seq<u8>) -> nat
    decreases bytes.len(),
{
    if bytes.len() == 0 {
        0
    } else {
        (bytes[0] % 128) as nat + 128 * varint_sum(bytes.skip(1))
    }
}

/// The value of a variable-length integer made of exactly `bytes`: the groups
/// of seven bits, of which only the low 32 bits of the total are kept.
pub open spec fn varint_value(bytes: Seq<u8>) -> u32 {
    (varint_sum(bytes) % 0x1_0000_0000) as u32
}

/// The run of continuation bytes is no longer than its limit, nor than the
/// bytes.
pub proof fn lemma_continued_bound(bytes: Seq<u8>, max: nat)
    ensures
        continued(bytes, max) <= max,
        continued(bytes, max) <= bytes.len(),
    decreases max,
{
    if !(max == 0 || bytes.len() == 0 || bytes[0] < 128) {
        lemma_continued_bound(bytes.skip(1), (max - 1) as nat);
    }
}

/// `n` groups of seven bits spell a number below 128 to the power `n`.
pub proof fn lemma_varint_sum_bound(bytes: Seq<u8>)
    ensures
        varint_sum(bytes) < radix_power(128, bytes.len()),
    decreases bytes.len(),
{
    if bytes.len() > 0 {
        lemma_varint_sum_bound(bytes.skip(1));
        let hi = varint_sum(bytes.skip(1));
        let p = radix_power(128, (bytes.len() - 1) as nat);
        assert(128 * hi + 128 <= 128 * p) by (nonlinear_arith)
            requires
                hi < p,
        ;
    }
}

/// Counts the continuation bytes among the first four of `bytes`.
fn continuation_run(bytes: &[u8]) -> (n: usize)
    ensures
        n == continued(bytes@, 4),
        n <= 4,
{
    let mut n: usize = 0;
    proof {
        assert(bytes@.skip(0) =~= bytes@);
    }
    while n < 4 && n < bytes.len() && bytes[n] >= 128
        invariant
            n <= 4,
            n <= bytes@.len(),
            continued(bytes@, 4) == n + continued(bytes@.skip(n as int), (4 - n) as nat),
        decreases 4 - n,
    {
        proof {
            assert(bytes@.skip(n as int).skip(1) =~= bytes@.skip(n + 1));
        }
        n = n + 1;
    }
    n
}

/// Adds up the seven-bit groups of `bytes`.
fn varint_decode(bytes: &[u8]) -> (v: u32)
    requires
        bytes@.len() <= 5,
    ensures
        v == varint_value(bytes@),
{
    let mut acc: u64 = 0;
    let mut i: usize = bytes.len();
    proof {
        assert(bytes@.skip(i as int) =~= Seq::<u8>::empty());
    }
    while i > 0
        invariant
            i <= bytes@.len() <= 5,
            acc == varint_sum(bytes@.skip(i as int)),
        decreases i,
    {
        i = i - 1;
        proof {
            let tail = bytes@.skip(i as int);
            assert(tail.skip(1) =~= bytes@.skip(i + 1));
            lemma_varint_sum_bound(tail.skip(1));
            lemma_varint_sum_bound(tail);
            reveal_with_fuel(radix_power, 6);
        }
        acc = acc * 128 + (bytes[i] % 128) as u64;
    }
    proof {
        assert(bytes@.skip(0) =~= bytes@);
    }
    (acc % 0x1_0000_0000) as u32
}

impl Parse for u32 {
    /// The variable-length integer that the AVM2 primitives `u30`, `u32` and
    /// `s32` share: one to five bytes of seven bits each, least significant
    /// group first.
    open spec fn parsed(bytes: Seq<u8>) -> Parsed<u32> {
        let n = varint_len(bytes);
        if bytes.len() < n {
            Err(short(bytes.len(), n))
        } else {
            Ok((varint_value(bytes.take(n as int)), n as int))
        }
    }

    proof fn lemma_parsed_within(bytes: Seq<u8>) {
    }

    fn parse_avm2(input: &mut Reader) -> (r: Result<Self, ParseError>) {
        let length: usize = 1 + continuation_run(input.peek());
        let taken = input.take(length)?;
        Ok(varint_decode(taken))
    }
}

/// The signed integer with the same 32 bits as `v`.
pub open spec fn as_signed(v: u32) -> i32 {
    if v < 0x8000_0000 {
        v as i32
    } else {
        (v - 0x1_0000_0000) as i32
    }
}

impl Parse for i32 {
    /// A variable-length integer, read as two's complement.
    open spec fn parsed(bytes: Seq<u8>) -> Parsed<i32> {
        match u32::parsed(bytes) {
            Ok((v, n)) => Ok((as_signed(v), n)),
            Err(e) => Err(e),
        }
    }

    proof fn lemma_parsed_within(bytes: Seq<u8>) {
    }

    fn parse_avm2(input: &mut Reader) -> (r: Result<Self, ParseError>) {
        let v: u32 = u32::parse_avm2(input)?;
        if v < 0x8000_0000 {
            Ok(v as i32)
        } else {
            Ok((v as i64 - 0x1_0000_0000i64) as i32)
        }
    }
}

impl Parse for String {
    /// A variable-length byte count, then that many bytes of UTF-8.
    open spec fn parsed(bytes: Seq<u8>) -> Parsed<Seq<char>> {
        match u32::parsed(bytes) {
            Err(e) => Err(e),
            Ok((len, n)) => {
                let rest = bytes.skip(n);
                if rest.len() < len {
                    Err(short(rest.len(), len as nat))
                } else if !valid_utf8(rest.take(len as int)) {
                    Err(ParseFault::Utf8Error)
                } else {
                    Ok((decode_utf8(rest.take(len as int)), n + len))
                }
            },
        }
    }

    proof fn lemma_parsed_within(bytes: Seq<u8>) {
    }

    fn parse_avm2(input: &mut Reader) -> (r: Result<Self, ParseError>) {
        let length: u32 = u32::parse_avm2(input)?;
        let data = slice_to_vec(input.take(length as usize)?);
        match string_from_utf8(data) {
            Ok(s) => {
                proof {
                    let n = u32::parsed(old(input)@)->Ok_0.1;
                    assert(old(input)@.skip(n).skip(length as int) =~= old(input)@.skip(
                        n + length,
                    ));
                }
                Ok(s)
            },
            Err(e) => Err(ParseError::Utf8Error(e)),
        }
    }
}


/// The shortest encoding of `v` as a variable-length integer: groups of seven
/// bits, least significant first, each but the last with its high bit set.
pub open spec fn varint_encoding(v: nat) -> Seq<u8>
    decreases v,
{
    if v < 128 {
        seq![v as u8]
    } else {
        seq![(128 + v % 128) as u8] + varint_encoding(v / 128)
    }
}

/// Whether `bytes` is a variable-length integer of minimal length: every byte
/// but the last continues, the last one ends, and no final group of zeros
/// could be left out.
pub open spec fn is_minimal_varint(bytes: Seq<u8>) -> bool {
    &&& bytes.len() >= 1
    &&& forall|i: int| 0 <= i < bytes.len() - 1 ==> bytes[i] >= 128
    &&& bytes.last() < 128
    &&& bytes.len() > 1 ==> bytes.last() != 0
}

proof fn lemma_encoding_shape(v: nat, rest: Seq<u8>, max: nat)
    requires
        v < radix_power(128, max + 1),
    ensures
        varint_encoding(v).len() <= max + 1,
        continued(varint_encoding(v) + rest, max) == varint_encoding(v).len() - 1,
        varint_sum(varint_encoding(v)) == v,
        is_minimal_varint(varint_encoding(v)),
    decreases v,
{
    let enc = varint_encoding(v);
    if v < 128 {
        assert((enc + rest)[0] == enc[0]);
        assert(enc.skip(1) =~= Seq::<u8>::empty());
        assert(varint_sum(enc.skip(1)) == 0);
        assert(enc[0] == v);
    } else {
        let hi = v / 128;
        reveal_with_fuel(radix_power, 2);
        if max == 0 {
            assert(radix_power(128, 1) == 128);
            assert(false);
        }
        assert(hi < radix_power(128, max)) by (nonlinear_arith)
            requires
                v < 128 * radix_power(128, max),
                hi == v / 128,
        ;
        lemma_encoding_shape(hi, rest, (max - 1) as nat);
        let tail = varint_encoding(hi);
        assert(enc.skip(1) =~= tail);
        assert((enc + rest).skip(1) =~= tail + rest);
        assert((enc + rest)[0] == enc[0]);
        assert(enc[0] == 128 + v % 128);
        assert(enc[0] % 128 == v % 128);
        assert(varint_sum(enc) == (enc[0] % 128) as nat + 128 * varint_sum(enc.skip(1)));
        assert(hi >= 1);
        assert(enc.last() == tail.last());
        assert forall|i: int| 0 <= i < enc.len() - 1 implies enc[i] >= 128 by {
            if i > 0 {
                assert(enc[i] == tail[i - 1]);
            }
        }
        if tail.len() == 1 {
            assert(tail[0] == hi as u8);
        }
    }
}

proof fn lemma_minimal_is_encoding(bytes: Seq<u8>)
    requires
        is_minimal_varint(bytes),
    ensures
        varint_encoding(varint_sum(bytes)) == bytes,
        bytes.len() > 1 ==> varint_sum(bytes) >= 128,
        bytes.len() == 1 ==> varint_sum(bytes) == bytes[0],
    decreases bytes.len(),
{
    let tail = bytes.skip(1);
    if bytes.len() == 1 {
        assert(tail =~= Seq::<u8>::empty());
        assert(varint_sum(tail) == 0);
        assert(varint_encoding(bytes[0] as nat) =~= bytes);
    } else {
        assert(tail.last() == bytes.last());
        assert forall|i: int| 0 <= i < tail.len() - 1 implies tail[i] >= 128 by {
            assert(tail[i] == bytes[i + 1]);
        }
        lemma_minimal_is_encoding(tail);
        let lo = (bytes[0] % 128) as nat;
        let hi = varint_sum(tail);
        let v = varint_sum(bytes);
        assert(hi >= 1);
        assert(v == lo + 128 * hi);
        assert(v / 128 == hi && v % 128 == lo);
        assert(bytes[0] >= 128);
        assert((128 + lo) as u8 == bytes[0]);
        assert(varint_encoding(v) =~= seq![bytes[0]] + tail);
        assert(seq![bytes[0]] + tail =~= bytes);
    }
}

/// The decoder accepts every encoding of one to five bytes: it fails only
/// when the input ends before the integer does, and an integer never takes
/// more than five bytes.
pub proof fn lemma_varint_accepts(bytes: Seq<u8>)
    ensures
        1 <= varint_len(bytes) <= 5,
        u32::parsed(bytes) is Ok <==> bytes.len() >= varint_len(bytes),
        bytes.len() >= 5 ==> u32::parsed(bytes) is Ok,
        u32::parsed(bytes) is Ok ==> u32::parsed(bytes)->Ok_0.1 == varint_len(bytes),
{
    lemma_continued_bound(bytes, 4);
}

/// Below 2^28 the decoder and the minimal-length encoding are inverse to each
/// other: decoding the encoding of `v`, whatever follows it, gives `v` and
/// takes exactly the encoding.
pub proof fn lemma_varint_decodes_encoding(v: nat, rest: Seq<u8>)
    requires
        v < 0x1000_0000,
    ensures
        is_minimal_varint(varint_encoding(v)),
        varint_encoding(v).len() <= 4,
        u32::parsed(varint_encoding(v) + rest) == Ok::<(u32, int), ParseFault>(
            (v as u32, varint_encoding(v).len() as int),
        ),
{
    reveal_with_fuel(radix_power, 6);
    lemma_encoding_shape(v, rest, 3);
    lemma_encoding_shape(v, rest, 4);
    let enc = varint_encoding(v);
    assert((enc + rest).take(enc.len() as int) =~= enc);
    assert(varint_len(enc + rest) == enc.len());
    assert(varint_value(enc) == v);
}

/// Below 2^28 every minimal-length encoding is the encoding of the value it
/// decodes to, so that no two of them decode to the same value.
pub proof fn lemma_varint_encodes_decoding(bytes: Seq<u8>)
    requires
        is_minimal_varint(bytes),
        bytes.len() <= 4,
    ensures
        u32::parsed(bytes) == Ok::<(u32, int), ParseFault>(
            (varint_sum(bytes) as u32, bytes.len() as int),
        ),
        varint_sum(bytes) < 0x1000_0000,
        varint_encoding(varint_sum(bytes)) == bytes,
{
    lemma_minimal_is_encoding(bytes);
    lemma_varint_sum_bound(bytes);
    reveal_with_fuel(radix_power, 5);
    assert(radix_power(128, bytes.len()) <= 0x1000_0000);
    lemma_varint_decodes_encoding(varint_sum(bytes), Seq::<u8>::empty());
    assert(bytes + Seq::<u8>::empty() =~= bytes);
}

} // verus!
