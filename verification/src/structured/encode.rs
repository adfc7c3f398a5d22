//! Writing the values of fields to the payload of a packet.

use vstd::prelude::*;
use vstd::string::StringSliceAdditionalSpecFns;
use vstd::utf8::encode_utf8;
use crate::adapters::{FormatFault, PacketFormatError, Prefix};
use crate::structured::format::{
    appended, encoding, encoding_bytes, encoding_fields, encoding_items, encoding_stat,
};
use crate::structured::schema::{fields_depth, lemma_field_depth, lemma_schema_depth, FieldType};
use crate::structured::stat::StatData;
use crate::structured::value::{
    Datum,
    conforms, fields_conform, items_conform, lemma_fields_conform, lemma_items_conform, models,
    Value,
};
use crate::wire::{as_unsigned, be_bytes, be_encode, lemma_pow256_values, pow256};

verus! {

/// Whether `before` is what `after` starts with.
pub open spec fn extends(after: Seq<u8>, before: Seq<u8>) -> bool {
    before.len() <= after.len() && after.take(before.len() as int) == before
}

/// What a writer has made of `out` after a writing whose result is
/// `expected`: on success the bytes are appended and nothing else changes;
/// on a fault the error says which, and what was in `out` is still there.
pub open spec fn written(
    expected: Result<Seq<u8>, FormatFault>,
    r: Result<(), Box<PacketFormatError>>,
    before: Seq<u8>,
    after: Seq<u8>,
) -> bool {
    match expected {
        Ok(bytes) => r is Ok && after == before + bytes,
        Err(fault) => r is Err && r->Err_0@ == fault && extends(after, before),
    }
}

/// The unsigned integer with the same `width` bytes as `v`.
fn to_unsigned(v: i64, width: usize) -> (r: u64)
    requires
        width == 1 || width == 2 || width == 4 || width == 8,
        -pow256(width as nat) <= 2 * v < pow256(width as nat),
    ensures
        r == as_unsigned(v as int, width as nat),
{
    proof {
        lemma_pow256_values();
    }
    if v >= 0 {
        v as u64
    } else if width == 1 {
        (v + 0x100) as u64
    } else if width == 2 {
        (v + 0x1_0000) as u64
    } else if width == 4 {
        (v + 0x1_0000_0000) as u64
    } else {
        (v as i128 + 0x1_0000_0000_0000_0000) as u64
    }
}

/// Writes the length of `data` in its prefix, then `data`.
pub fn encode_bytes(prefix: Prefix, data: &[u8], out: &mut Vec<u8>) -> (r: Result<
    (),
    Box<PacketFormatError>,
>)
    ensures
        written(encoding_bytes(prefix, data@), r, old(out)@, final(out)@),
{
    if data.len() > prefix.limit() {
        assert(old(out)@.take(old(out)@.len() as int) =~= old(out)@);
        return Err(Box::new(PacketFormatError::too_large(data.len(), prefix)));
    }
    be_encode(data.len() as u64, prefix.byte_width(), out);
    out.extend_from_slice(data);
    assert(final(out)@ =~= old(out)@ + (be_bytes(data@.len(), prefix.width()) + data@));
    Ok(())
}

/// Writes a stat: the byte of its type, then its value.
#[verifier::rlimit(50)]
pub fn encode_stat(stat: &StatData, out: &mut Vec<u8>) -> (r: Result<(), Box<PacketFormatError>>)
    ensures
        written(encoding_stat(stat@), r, old(out)@, final(out)@),
{
    proof {
        lemma_pow256_values();
    }
    match stat {
        StatData::Integer(stat_type, v) => {
            out.push(stat_type.to_byte());
            be_encode(to_unsigned(*v as i64, 4), 4, out);
            assert(final(out)@ =~= old(out)@ + (seq![stat_type.byte()] + be_bytes(
                as_unsigned(*v as int, 4),
                4,
            )));
            Ok(())
        },
        StatData::String(stat_type, text) => {
            out.push(stat_type.to_byte());
            let ghost tagged = out@;
            let r = encode_bytes(Prefix::U16, text.as_str().as_bytes(), out);
            proof {
                let body = encoding_bytes(Prefix::U16, encode_utf8(text@));
                if body is Ok {
                    assert(final(out)@ =~= old(out)@ + (seq![stat_type.byte()] + body->Ok_0));
                } else {
                    assert(final(out)@.take(old(out)@.len() as int) =~= tagged.take(
                        old(out)@.len() as int,
                    ));
                    assert(tagged.take(old(out)@.len() as int) =~= old(out)@);
                }
            }
            r
        },
    }
}

/// Write `value`, which is of type `ty`. On success exactly the bytes of the
/// value have been appended to `out`.
#[verifier::rlimit(50)]
pub fn encode_value(ty: &FieldType, value: &Value, out: &mut Vec<u8>) -> (r: Result<
    (),
    Box<PacketFormatError>,
>)
    requires
        conforms(*ty, value.model()),
    ensures
        written(encoding(*ty, value.model()), r, old(out)@, final(out)@),
    decreases ty.depth(), *ty, 0nat,
{
    proof {
        lemma_pow256_values();
    }
    match (ty, value) {
        (FieldType::U8, Value::U8(v)) => {
            be_encode(*v as u64, 1, out);
            Ok(())
        },
        (FieldType::U16, Value::U16(v)) => {
            be_encode(*v as u64, 2, out);
            Ok(())
        },
        (FieldType::U32, Value::U32(v)) => {
            be_encode(*v as u64, 4, out);
            Ok(())
        },
        (FieldType::U64, Value::U64(v)) => {
            be_encode(*v, 8, out);
            Ok(())
        },
        (FieldType::I8, Value::I8(v)) => {
            be_encode(to_unsigned(*v as i64, 1), 1, out);
            Ok(())
        },
        (FieldType::I16, Value::I16(v)) => {
            be_encode(to_unsigned(*v as i64, 2), 2, out);
            Ok(())
        },
        (FieldType::I32, Value::I32(v)) => {
            be_encode(to_unsigned(*v as i64, 4), 4, out);
            Ok(())
        },
        (FieldType::I64, Value::I64(v)) => {
            be_encode(to_unsigned(*v, 8), 8, out);
            Ok(())
        },
        (FieldType::F32, Value::F32(v)) => {
            be_encode(*v as u64, 4, out);
            Ok(())
        },
        (FieldType::F64, Value::F64(v)) => {
            be_encode(*v, 8, out);
            Ok(())
        },
        (FieldType::Bool, Value::Bool(v)) => {
            out.push(
                if *v {
                    1
                } else {
                    0
                },
            );
            assert(final(out)@ =~= old(out)@ + seq![if *v {
                1u8
            } else {
                0u8
            }]);
            Ok(())
        },
        (FieldType::Unit, Value::Unit) => {
            assert(out@ =~= old(out)@ + Seq::<u8>::empty());
            Ok(())
        },
        (FieldType::Str(prefix), Value::Str(text)) => encode_bytes(
            *prefix,
            text.as_str().as_bytes(),
            out,
        ),
        (FieldType::Bytes(prefix), Value::Bytes(data)) => encode_bytes(
            *prefix,
            data.as_slice(),
            out,
        ),
        (FieldType::List(prefix, item), Value::List(items)) => {
            assert(value.model()->List_0 =~= models(items@));
            if items.len() > prefix.limit() {
                assert(old(out)@.take(old(out)@.len() as int) =~= old(out)@);
                return Err(Box::new(PacketFormatError::too_large(items.len(), *prefix)));
            }
            be_encode(items.len() as u64, prefix.byte_width(), out);
            let ghost counted = out@;
            let r = encode_items(item, items, out);
            proof {
                let body = encoding_items(**item, models(items@));
                if body is Ok {
                    assert(final(out)@ =~= old(out)@ + (be_bytes(
                        items@.len(),
                        prefix.width(),
                    ) + body->Ok_0));
                } else {
                    assert(final(out)@.take(old(out)@.len() as int) =~= counted.take(
                        old(out)@.len() as int,
                    ));
                    assert(counted.take(old(out)@.len() as int) =~= old(out)@);
                }
            }
            r
        },
        (FieldType::Optional(_), Value::Opt(None)) => {
            assert(out@ =~= old(out)@ + Seq::<u8>::empty());
            Ok(())
        },
        (FieldType::Optional(inner), Value::Opt(Some(inner_value))) => encode_value(
            inner,
            inner_value,
            out,
        ),
        (FieldType::Remaining, Value::Bytes(data)) => {
            out.extend_from_slice(data.as_slice());
            assert(final(out)@ =~= old(out)@ + data@);
            Ok(())
        },
        (FieldType::Stat, Value::Stat(stat)) => encode_stat(stat, out),
        (FieldType::Data(data), Value::Record(values)) => {
            proof {
                lemma_schema_depth(*data);
                assert(value.model()->Record_0 =~= models(values@));
            }
            let fields = data.fields();
            encode_fields(&fields, values, out)
        },
        _ => {
            assert(false);
            Ok(())
        },
    }
}

/// Write `items`, each of type `item`, one after the other.
#[verifier::rlimit(50)]
pub fn encode_items(item: &FieldType, items: &Vec<Value>, out: &mut Vec<u8>) -> (r: Result<
    (),
    Box<PacketFormatError>,
>)
    requires
        items_conform(*item, models(items@)),
    ensures
        written(encoding_items(*item, models(items@)), r, old(out)@, final(out)@),
    decreases item.depth(), *item, items@.len() + 1,
{
    let ghost all = models(items@);
    let ghost mut done: Seq<u8> = Seq::empty();
    let mut i: usize = 0;
    proof {
        assert(all.skip(0) =~= all);
        assert(out@ =~= old(out)@ + done);
        assert forall|rest: Seq<u8>| #![auto] Seq::<u8>::empty() + rest =~= rest by {}
    }
    while i < items.len()
        invariant
            i <= items@.len(),
            all == models(items@),
            items_conform(*item, all),
            out@ == old(out)@ + done,
            encoding_items(*item, all) == appended(done, encoding_items(*item, all.skip(i as int))),
        decreases items@.len() - i,
    {
        let ghost before = out@;
        proof {
            lemma_items_conform(*item, all, i as int);
            assert(all.skip(i as int)[0] == all[i as int]);
            assert(all[i as int] == items@[i as int].model());
            assert(all.skip(i as int).drop_first() =~= all.skip(i + 1));
        }
        match encode_value(item, &items[i], out) {
            Err(e) => {
                proof {
                    assert(encoding_items(*item, all.skip(i as int)) == Err::<
                        Seq<u8>,
                        FormatFault,
                    >(e@));
                    assert(out@.take(old(out)@.len() as int) =~= before.take(
                        old(out)@.len() as int,
                    ));
                    assert(before.take(old(out)@.len() as int) =~= old(out)@);
                }
                return Err(e);
            },
            Ok(()) => {
                proof {
                    let first = encoding(*item, all[i as int])->Ok_0;
                    let rest = encoding_items(*item, all.skip(i + 1));
                    assert(encoding_items(*item, all.skip(i as int)) == appended(first, rest));
                    if rest is Ok {
                        assert((done + first) + rest->Ok_0 =~= done + (first + rest->Ok_0));
                    }
                    assert(out@ =~= old(out)@ + (done + first));
                    done = done + first;
                }
                i = i + 1;
            },
        }
    }
    proof {
        assert(all.skip(items@.len() as int) =~= Seq::<Datum>::empty());
        assert(done + Seq::<u8>::empty() =~= done);
    }
    Ok(())
}

/// Write `values`, one for each of `fields`, in order.
#[verifier::rlimit(50)]
pub fn encode_fields(fields: &Vec<FieldType>, values: &Vec<Value>, out: &mut Vec<u8>) -> (r:
    Result<(), Box<PacketFormatError>>)
    requires
        fields_conform(fields@, models(values@)),
    ensures
        written(encoding_fields(fields@, models(values@)), r, old(out)@, final(out)@),
    decreases fields_depth(fields@), fields@, 0nat,
{
    let ghost all = models(values@);
    let ghost mut done: Seq<u8> = Seq::empty();
    let mut i: usize = 0;
    proof {
        lemma_fields_conform(fields@, all, 0);
        assert(all.skip(0) =~= all);
        assert(fields@.skip(0) =~= fields@);
        assert(out@ =~= old(out)@ + done);
        assert forall|rest: Seq<u8>| #![auto] Seq::<u8>::empty() + rest =~= rest by {}
    }
    while i < fields.len()
        invariant
            i <= fields@.len(),
            fields@.len() == values@.len(),
            all == models(values@),
            fields_conform(fields@, all),
            out@ == old(out)@ + done,
            encoding_fields(fields@, all) == appended(
                done,
                encoding_fields(fields@.skip(i as int), all.skip(i as int)),
            ),
        decreases fields@.len() - i,
    {
        let ghost before = out@;
        proof {
            lemma_fields_conform(fields@, all, i as int);
            lemma_field_depth(fields@, i as int);
            assert(all.skip(i as int)[0] == all[i as int]);
            assert(fields@.skip(i as int)[0] == fields@[i as int]);
            assert(all[i as int] == values@[i as int].model());
            assert(all.skip(i as int).drop_first() =~= all.skip(i + 1));
            assert(fields@.skip(i as int).drop_first() =~= fields@.skip(i + 1));
        }
        match encode_value(&fields[i], &values[i], out) {
            Err(e) => {
                proof {
                    assert(encoding_fields(fields@.skip(i as int), all.skip(i as int)) == Err::<
                        Seq<u8>,
                        FormatFault,
                    >(e@));
                    assert(out@.take(old(out)@.len() as int) =~= before.take(
                        old(out)@.len() as int,
                    ));
                    assert(before.take(old(out)@.len() as int) =~= old(out)@);
                }
                return Err(e);
            },
            Ok(()) => {
                proof {
                    let first = encoding(fields@[i as int], all[i as int])->Ok_0;
                    let rest = encoding_fields(fields@.skip(i + 1), all.skip(i + 1));
                    assert(encoding_fields(fields@.skip(i as int), all.skip(i as int))
                        == appended(first, rest));
                    if rest is Ok {
                        assert((done + first) + rest->Ok_0 =~= done + (first + rest->Ok_0));
                    }
                    assert(out@ =~= old(out)@ + (done + first));
                    done = done + first;
                }
                i = i + 1;
            },
        }
    }
    proof {
        assert(fields@.skip(fields@.len() as int) =~= Seq::<FieldType>::empty());
        assert(done + Seq::<u8>::empty() =~= done);
    }
    Ok(())
}

} // verus!
