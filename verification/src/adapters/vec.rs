//! Lists behind their length, and fields that capture the bytes that remain.

use vstd::prelude::*;
use vstd::slice::slice_to_vec;
use crate::adapters::{
    CaptureRemaining, FormatFault, FromPacketBytes, LengthPrefix, PacketField, PacketFormatError,
    PacketReader, ToPacketBytes, WithLen,
};
use crate::structured::decode::{decode_uint, lemma_decoding_items_within, lemma_decoding_within};
use crate::structured::format::{
    appended, continued, decoding, decoding_items, decoding_uint, encoding, encoding_items,
};
use crate::structured::schema::FieldType;
use crate::structured::value::Datum;
use crate::wire::{be_bytes, be_encode, lemma_pow256_values};

verus! {

/// The models of the values of a list of fields of type `T`.
pub open spec fn models_of<T: PacketField>(values: Seq<T::Output>) -> Seq<Datum> {
    Seq::new(values.len(), |i: int| T::model(&values[i]))
}

impl<N: LengthPrefix, T: PacketField> PacketField for WithLen<N, Vec<T>> {
    type Output = Vec<T::Output>;

    open spec fn field_type() -> FieldType {
        FieldType::List(N::prefix(), Box::new(T::field_type()))
    }

    open spec fn model(value: &Vec<T::Output>) -> Datum {
        Datum::List(models_of::<T>(value@))
    }
}

impl<N: LengthPrefix, T: FromPacketBytes> FromPacketBytes for WithLen<N, Vec<T>> {
    #[verifier::rlimit(50)]
    fn from_packet(reader: &mut PacketReader) -> (r: Result<
        Vec<T::Output>,
        Box<PacketFormatError>,
    >) {
        let ghost item = T::field_type();
        let count: u64 = decode_uint(reader, N::width_of().byte_width())?;
        proof {
            lemma_pow256_values();
        }
        let ghost k = N::prefix().width() as int;
        let ghost start = reader@;
        let ghost mut consumed: int = 0;
        let mut values: Vec<T::Output> = Vec::new();
        let mut i: u64 = 0;
        proof {
            assert(start.skip(0) =~= start);
            assert(models_of::<T>(values@) =~= Seq::empty());
            assert forall|rest: Seq<Datum>| #![auto] Seq::<Datum>::empty() + rest =~= rest by {}
        }
        while i < count
            invariant
                i <= count,
                values@.len() == i,
                0 <= consumed <= start.len(),
                item == T::field_type(),
                start == old(reader)@.skip(k),
                k == N::prefix().width(),
                decoding_uint(old(reader)@, N::prefix().width())
                    == Ok::<(nat, int), FormatFault>((count as nat, k)),
                reader@ == start.skip(consumed),
                decoding_items(item, start, count as nat) == continued(
                    models_of::<T>(values@),
                    consumed,
                    decoding_items(item, reader@, (count - i) as nat),
                ),
            decreases count - i,
        {
            let ghost before = reader@;
            let ghost done = models_of::<T>(values@);
            match T::from_packet(reader) {
                Err(e) => {
                    assert(decoding_items(item, before, (count - i) as nat) == Err::<
                        (Seq<Datum>, int),
                        FormatFault,
                    >(e@));
                    return Err(e);
                },
                Ok(value) => {
                    proof {
                        let j = decoding(item, before)->Ok_0.1;
                        let rest = decoding_items(item, before.skip(j), (count - i - 1) as nat);
                        lemma_decoding_within(item, before);
                        assert(start.skip(consumed).skip(j) =~= start.skip(consumed + j));
                        assert(decoding_items(item, before, (count - i) as nat) == continued(
                            seq![T::model(&value)],
                            j,
                            rest,
                        ));
                        assert(models_of::<T>(values@.push(value)) =~= done + seq![
                            T::model(&value),
                        ]);
                        if rest is Ok {
                            assert((done + seq![T::model(&value)]) + rest->Ok_0.0 =~= done
                                + (seq![T::model(&value)] + rest->Ok_0.0));
                        }
                        consumed = consumed + j;
                    }
                    values.push(value);
                    i = i + 1;
                },
            }
        }
        proof {
            assert(models_of::<T>(values@) + Seq::empty() =~= models_of::<T>(values@));
            lemma_decoding_items_within(item, start, count as nat);
            assert(old(reader)@.skip(k).skip(consumed) =~= old(reader)@.skip(k + consumed));
        }
        Ok(values)
    }
}

impl<N: LengthPrefix, T: ToPacketBytes> ToPacketBytes for WithLen<N, Vec<T>> {
    #[verifier::rlimit(50)]
    fn to_packet(value: &Vec<T::Output>, packet: &mut Vec<u8>) -> (r: Result<
        (),
        Box<PacketFormatError>,
    >) {
        let ghost item = T::field_type();
        let ghost all = models_of::<T>(value@);
        let prefix = N::width_of();
        if value.len() > prefix.limit() {
            assert(old(packet)@.take(old(packet)@.len() as int) =~= old(packet)@);
            return Err(Box::new(PacketFormatError::too_large(value.len(), prefix)));
        }
        be_encode(value.len() as u64, prefix.byte_width(), packet);
        let ghost counted = packet@;
        let ghost mut done: Seq<u8> = Seq::empty();
        let mut i: usize = 0;
        proof {
            assert(all.skip(0) =~= all);
            assert(packet@ =~= counted + done);
            assert forall|rest: Seq<u8>| #![auto] Seq::<u8>::empty() + rest =~= rest by {}
        }
        while i < value.len()
            invariant
                i <= value@.len(),
                value@.len() <= N::prefix().max(),
                item == T::field_type(),
                all == models_of::<T>(value@),
                counted == old(packet)@ + be_bytes(value@.len(), N::prefix().width()),
                packet@ == counted + done,
                encoding_items(item, all) == appended(
                    done,
                    encoding_items(item, all.skip(i as int)),
                ),
            decreases value@.len() - i,
        {
            let ghost before = packet@;
            proof {
                assert(all.skip(i as int)[0] == T::model(&value@[i as int]));
                assert(all.skip(i as int).drop_first() =~= all.skip(i + 1));
            }
            match T::to_packet(&value[i], packet) {
                Err(e) => {
                    proof {
                        assert(encoding_items(item, all.skip(i as int)) == Err::<
                            Seq<u8>,
                            FormatFault,
                        >(e@));
                        assert(packet@.take(old(packet)@.len() as int) =~= before.take(
                            old(packet)@.len() as int,
                        ));
                        assert(before.take(old(packet)@.len() as int) =~= old(packet)@);
                    }
                    return Err(e);
                },
                Ok(()) => {
                    proof {
                        let first = encoding(item, all[i as int])->Ok_0;
                        let rest = encoding_items(item, all.skip(i + 1));
                        assert(encoding_items(item, all.skip(i as int)) == appended(first, rest));
                        if rest is Ok {
                            assert((done + first) + rest->Ok_0 =~= done + (first + rest->Ok_0));
                        }
                        assert(packet@ =~= counted + (done + first));
                        done = done + first;
                    }
                    i = i + 1;
                },
            }
        }
        proof {
            assert(all.skip(value@.len() as int) =~= Seq::<Datum>::empty());
            assert(done + Seq::<u8>::empty() =~= done);
            assert(packet@ =~= old(packet)@ + (be_bytes(value@.len(), N::prefix().width())
                + done));
        }
        Ok(())
    }
}

impl PacketField for CaptureRemaining<Vec<u8>> {
    type Output = Vec<u8>;

    open spec fn field_type() -> FieldType {
        FieldType::Remaining
    }

    open spec fn model(value: &Vec<u8>) -> Datum {
        Datum::Bytes(value@)
    }
}

impl FromPacketBytes for CaptureRemaining<Vec<u8>> {
    fn from_packet(reader: &mut PacketReader) -> (r: Result<Vec<u8>, Box<PacketFormatError>>) {
        let data = slice_to_vec(reader.take_all());
        assert(old(reader)@.skip(old(reader)@.len() as int) =~= Seq::<u8>::empty());
        Ok(data)
    }
}

impl ToPacketBytes for CaptureRemaining<Vec<u8>> {
    fn to_packet(value: &Vec<u8>, packet: &mut Vec<u8>) -> (r: Result<
        (),
        Box<PacketFormatError>,
    >) {
        packet.extend_from_slice(value.as_slice());
        assert(final(packet)@ =~= old(packet)@ + value@);
        Ok(())
    }
}

} // verus!
