//! Parsers of values that follow one another: lists, tuples, and the pools
//! of constants.

use vstd::prelude::*;
use crate::avm2::reader::{Parse, ParseError, ParseFault, Parsed, Reader};

verus! {

/// The result of a parse of several values of which `done` have been parsed
/// from `consumed` bytes already, and `rest` is what parsing the others
/// gives.
pub open spec fn continued<V>(done: Seq<V>, consumed: int, rest: Parsed<Seq<V>>) -> Parsed<Seq<V>> {
    match rest {
        Err(fault) => Err(fault),
        Ok((values, k)) => Ok((done + values, consumed + k)),
    }
}

/// What parsing `count` values of type `T`, one after the other, gives. The
/// first fault ends the parse.
pub open spec fn parsed_list<T: Parse>(bytes: Seq<u8>, count: nat) -> Parsed<Seq<T::V>>
    decreases count,
{
    if count == 0 {
        Ok((Seq::empty(), 0))
    } else {
        match T::parsed(bytes) {
            Err(fault) => Err(fault),
            Ok((first, k)) => continued(
                seq![first],
                k,
                parsed_list::<T>(bytes.skip(k), (count - 1) as nat),
            ),
        }
    }
}

/// A successful parse of a list consumes a prefix of its input and gives as
/// many values as were asked for.
pub proof fn lemma_parsed_list_within<T: Parse>(bytes: Seq<u8>, count: nat)
    ensures
        parsed_list::<T>(bytes, count) is Ok ==> {
            &&& 0 <= parsed_list::<T>(bytes, count)->Ok_0.1 <= bytes.len()
            &&& parsed_list::<T>(bytes, count)->Ok_0.0.len() == count
        },
    decreases count,
{
    if count > 0 {
        T::lemma_parsed_within(bytes);
        if let Ok((_, k)) = T::parsed(bytes) {
            lemma_parsed_list_within::<T>(bytes.skip(k), (count - 1) as nat);
        }
    }
}

/// The models of a sequence of values.
pub open spec fn models<T: DeepView>(values: Seq<T>) -> Seq<T::V> {
    Seq::new(values.len(), |i: int| values[i].deep_view())
}

/// Parse `count` values of type `T`, one after the other.
#[verifier::rlimit(50)]
pub fn parse_list<T: Parse>(input: &mut Reader, count: usize) -> (r: Result<Vec<T>, ParseError>)
    ensures
        match r {
            Ok(values) => {
                &&& parsed_list::<T>(old(input)@, count as nat) is Ok
                &&& values.deep_view() == parsed_list::<T>(old(input)@, count as nat)->Ok_0.0
                &&& final(input)@ == old(input)@.skip(
                    parsed_list::<T>(old(input)@, count as nat)->Ok_0.1,
                )
            },
            Err(e) => parsed_list::<T>(old(input)@, count as nat) is Err && parsed_list::<T>(
                old(input)@,
                count as nat,
            )->Err_0 == e@,
        },
{
    let mut values: Vec<T> = Vec::new();
    let mut i: usize = 0;
    let ghost start = input@;
    let ghost mut consumed: int = 0;
    proof {
        assert(start.skip(0) =~= start);
        assert(values.deep_view() =~= Seq::empty());
        assert forall|rest: Seq<T::V>| #![auto] Seq::<T::V>::empty() + rest =~= rest by {}
    }
    while i < count
        invariant
            i <= count,
            values@.len() == i,
            0 <= consumed <= start.len(),
            start == old(input)@,
            input@ == start.skip(consumed),
            parsed_list::<T>(start, count as nat) == continued(
                values.deep_view(),
                consumed,
                parsed_list::<T>(input@, (count - i) as nat),
            ),
        decreases count - i,
    {
        let ghost before = input@;
        let ghost done = values.deep_view();
        match T::parse_avm2(input) {
            Err(e) => {
                assert(parsed_list::<T>(before, (count - i) as nat) is Err);
                return Err(e);
            },
            Ok(value) => {
                proof {
                    let k = T::parsed(before)->Ok_0.1;
                    let rest = parsed_list::<T>(before.skip(k), (count - i - 1) as nat);
                    T::lemma_parsed_within(before);
                    assert(start.skip(consumed).skip(k) =~= start.skip(consumed + k));
                    assert(models(values@.push(value)) =~= done + seq![value.deep_view()]);
                    if rest is Ok {
                        assert((done + seq![value.deep_view()]) + rest->Ok_0.0 =~= done + (seq![
                            value.deep_view(),
                        ] + rest->Ok_0.0));
                    }
                    consumed = consumed + k;
                }
                values.push(value);
                i = i + 1;
            },
        }
    }
    proof {
        assert(values.deep_view() + Seq::empty() =~= values.deep_view());
    }
    Ok(values)
}

impl<T: Parse> Parse for Vec<T> {
    /// A variable-length count, then that many values.
    open spec fn parsed(bytes: Seq<u8>) -> Parsed<Seq<T::V>> {
        match u32::parsed(bytes) {
            Err(fault) => Err(fault),
            Ok((count, k)) => match parsed_list::<T>(bytes.skip(k), count as nat) {
                Err(fault) => Err(fault),
                Ok((values, m)) => Ok((values, k + m)),
            },
        }
    }

    proof fn lemma_parsed_within(bytes: Seq<u8>) {
        if let Ok((count, k)) = u32::parsed(bytes) {
            lemma_parsed_list_within::<T>(bytes.skip(k), count as nat);
        }
    }

    fn parse_avm2(input: &mut Reader) -> (r: Result<Self, ParseError>) {
        let count: u32 = u32::parse_avm2(input)?;
        let values = parse_list::<T>(input, count as usize)?;
        proof {
            let k = u32::parsed(old(input)@)->Ok_0.1;
            let m = parsed_list::<T>(old(input)@.skip(k), count as nat)->Ok_0.1;
            lemma_parsed_list_within::<T>(old(input)@.skip(k), count as nat);
            assert(old(input)@.skip(k).skip(m) =~= old(input)@.skip(k + m));
        }
        Ok(values)
    }
}

impl<A: Parse, B: Parse> Parse for (A, B) {
    /// One value, then the other.
    open spec fn parsed(bytes: Seq<u8>) -> Parsed<(A::V, B::V)> {
        match A::parsed(bytes) {
            Err(fault) => Err(fault),
            Ok((a, k)) => match B::parsed(bytes.skip(k)) {
                Err(fault) => Err(fault),
                Ok((b, m)) => Ok(((a, b), k + m)),
            },
        }
    }

    proof fn lemma_parsed_within(bytes: Seq<u8>) {
        A::lemma_parsed_within(bytes);
        if let Ok((_, k)) = A::parsed(bytes) {
            B::lemma_parsed_within(bytes.skip(k));
        }
    }

    fn parse_avm2(input: &mut Reader) -> (r: Result<Self, ParseError>) {
        let a = A::parse_avm2(input)?;
        let b = B::parse_avm2(input)?;
        proof {
            let k = A::parsed(old(input)@)->Ok_0.1;
            let m = B::parsed(old(input)@.skip(k))->Ok_0.1;
            A::lemma_parsed_within(old(input)@);
            B::lemma_parsed_within(old(input)@.skip(k));
            assert(old(input)@.skip(k).skip(m) =~= old(input)@.skip(k + m));
        }
        Ok((a, b))
    }
}

impl<A: Parse, B: Parse, C: Parse> Parse for (A, B, C) {
    /// Three values, one after the other.
    open spec fn parsed(bytes: Seq<u8>) -> Parsed<(A::V, B::V, C::V)> {
        match <(A, (B, C))>::parsed(bytes) {
            Err(fault) => Err(fault),
            Ok(((a, (b, c)), k)) => Ok(((a, b, c), k)),
        }
    }

    proof fn lemma_parsed_within(bytes: Seq<u8>) {
        <(A, (B, C))>::lemma_parsed_within(bytes);
    }

    fn parse_avm2(input: &mut Reader) -> (r: Result<Self, ParseError>) {
        let (a, (b, c)) = <(A, (B, C))>::parse_avm2(input)?;
        Ok((a, b, c))
    }
}

impl<A: Parse, B: Parse, C: Parse, D: Parse> Parse for (A, B, C, D) {
    /// Four values, one after the other.
    open spec fn parsed(bytes: Seq<u8>) -> Parsed<(A::V, B::V, C::V, D::V)> {
        match <(A, (B, C, D))>::parsed(bytes) {
            Err(fault) => Err(fault),
            Ok(((a, (b, c, d)), k)) => Ok(((a, b, c, d), k)),
        }
    }

    proof fn lemma_parsed_within(bytes: Seq<u8>) {
        <(A, (B, C, D))>::lemma_parsed_within(bytes);
    }

    fn parse_avm2(input: &mut Reader) -> (r: Result<Self, ParseError>) {
        let (a, (b, c, d)) = <(A, (B, C, D))>::parse_avm2(input)?;
        Ok((a, b, c, d))
    }
}

impl<A: Parse, B: Parse, C: Parse, D: Parse, E: Parse> Parse for (A, B, C, D, E) {
    /// Five values, one after the other.
    open spec fn parsed(bytes: Seq<u8>) -> Parsed<(A::V, B::V, C::V, D::V, E::V)> {
        match <(A, (B, C, D, E))>::parsed(bytes) {
            Err(fault) => Err(fault),
            Ok(((a, (b, c, d, e)), k)) => Ok(((a, b, c, d, e), k)),
        }
    }

    proof fn lemma_parsed_within(bytes: Seq<u8>) {
        <(A, (B, C, D, E))>::lemma_parsed_within(bytes);
    }

    fn parse_avm2(input: &mut Reader) -> (r: Result<Self, ParseError>) {
        let (a, (b, c, d, e)) = <(A, (B, C, D, E))>::parse_avm2(input)?;
        Ok((a, b, c, d, e))
    }
}

/// A type of constants that a pool holds: it has a default, which stands at
/// index 0 of the pool.
pub trait PoolEntry: Parse {
    /// The model of the default.
    spec fn default_model() -> Self::V;

    /// The default, which no pool holds on the wire.
    fn default_entry() -> (r: Self)
        ensures
            r.deep_view() == Self::default_model(),
    ;
}

/// A pool of constants. On the wire a pool is a variable-length count and
/// one entry less than the count says, or no entry if the count is zero: the
/// entry at index 0 is not stored. In memory the default stands for it, so
/// that the indices of the wire are the indices of the pool.
pub struct Pool<T> {
    pub entries: Vec<T>,
}

impl<T: DeepView> DeepView for Pool<T> {
    type V = Seq<T::V>;

    open spec fn deep_view(&self) -> Seq<T::V> {
        self.entries.deep_view()
    }
}

impl<T: PoolEntry> Parse for Pool<T> {
    open spec fn parsed(bytes: Seq<u8>) -> Parsed<Seq<T::V>> {
        match u32::parsed(bytes) {
            Err(fault) => Err(fault),
            Ok((count, k)) => {
                let stored = if count == 0 {
                    0nat
                } else {
                    (count - 1) as nat
                };
                match parsed_list::<T>(bytes.skip(k), stored) {
                    Err(fault) => Err(fault),
                    Ok((values, m)) => Ok((seq![T::default_model()] + values, k + m)),
                }
            },
        }
    }

    proof fn lemma_parsed_within(bytes: Seq<u8>) {
        if let Ok((count, k)) = u32::parsed(bytes) {
            let stored = if count == 0 {
                0nat
            } else {
                (count - 1) as nat
            };
            lemma_parsed_list_within::<T>(bytes.skip(k), stored);
        }
    }

    fn parse_avm2(input: &mut Reader) -> (r: Result<Self, ParseError>) {
        let count: u32 = u32::parse_avm2(input)?;
        let stored: usize = if count == 0 {
            0
        } else {
            (count - 1) as usize
        };
        let mut values = parse_list::<T>(input, stored)?;
        let ghost parsed_values = values.deep_view();
        let mut entries: Vec<T> = Vec::new();
        entries.push(T::default_entry());
        entries.append(&mut values);
        proof {
            let k = u32::parsed(old(input)@)->Ok_0.1;
            let m = parsed_list::<T>(old(input)@.skip(k), stored as nat)->Ok_0.1;
            lemma_parsed_list_within::<T>(old(input)@.skip(k), stored as nat);
            assert(old(input)@.skip(k).skip(m) =~= old(input)@.skip(k + m));
            assert(entries.deep_view() =~= seq![T::default_model()] + parsed_values);
        }
        Ok(Pool { entries })
    }
}

impl<T> Pool<T> {
    /// The number of entries of the pool, the default at index 0 included.
    pub fn len(&self) -> (n: usize)
        ensures
            n == self.entries@.len(),
    {
        self.entries.len()
    }

    /// The entry at an index, if the pool is that long.
    pub fn get(&self, index: u32) -> (r: Option<&T>)
        ensures
            r == if index < self.entries@.len() {
                Some(&self.entries@[index as int])
            } else {
                None
            },
    {
        if (index as usize) < self.entries.len() {
            Some(&self.entries[index as usize])
        } else {
            None
        }
    }
}

} // verus!
