//! Reading the values of fields from the payload of a packet.

use vstd::prelude::*;
use vstd::slice::slice_to_vec;
use crate::adapters::{FormatFault, PacketFormatError, PacketReader, Prefix};
use crate::structured::format::{
    continued, decoding, decoding_bytes, decoding_fields, decoding_items, decoding_stat,
    decoding_str, decoding_uint,
};
use crate::structured::schema::{fields_depth, lemma_field_depth, lemma_schema_depth, FieldType};
use crate::structured::stat::{StatData, StatType};
use crate::structured::value::{models, Datum, Value};
use crate::text::string_from_utf8;
use crate::wire::{as_signed, be_decode, lemma_be_value_bound, lemma_pow256_values, pow256};

verus! {

/// Reads an unsigned big-endian integer of `width` bytes.
pub fn decode_uint(reader: &mut PacketReader, width: usize) -> (r: Result<
    u64,
    Box<PacketFormatError>,
>)
    requires
        width <= 8,
    ensures
        match r {
            Ok(v) => {
                &&& decoding_uint(old(reader)@, width as nat) == Ok::<(nat, int), FormatFault>(
                    (v as nat, width as int),
                )
                &&& v < pow256(width as nat)
                &&& final(reader)@ == old(reader)@.skip(width as int)
            },
            Err(e) => {
                &&& decoding_uint(old(reader)@, width as nat) == Err::<(nat, int), FormatFault>(
                    e@,
                )
                &&& final(reader)@ == old(reader)@
            },
        },
{
    let taken = reader.take(width)?;
    proof {
        lemma_be_value_bound(taken@);
    }
    Ok(be_decode(taken))
}

/// The signed integer with the same `width` bytes as `v`.
fn to_signed(v: u64, width: usize) -> (r: i64)
    requires
        width == 1 || width == 2 || width == 4 || width == 8,
        v < pow256(width as nat),
    ensures
        r == as_signed(v as nat, width as nat),
        -pow256(width as nat) <= 2 * r < pow256(width as nat),
{
    proof {
        lemma_pow256_values();
    }
    if width == 1 {
        if v >= 0x80 {
            v as i64 - 0x100
        } else {
            v as i64
        }
    } else if width == 2 {
        if v >= 0x8000 {
            v as i64 - 0x1_0000
        } else {
            v as i64
        }
    } else if width == 4 {
        if v >= 0x8000_0000 {
            v as i64 - 0x1_0000_0000
        } else {
            v as i64
        }
    } else {
        if v >= 0x8000_0000_0000_0000 {
            (v as i128 - 0x1_0000_0000_0000_0000) as i64
        } else {
            v as i64
        }
    }
}

/// Reads a length and that many bytes.
pub fn decode_bytes<'a>(prefix: Prefix, reader: &mut PacketReader<'a>) -> (r: Result<
    &'a [u8],
    Box<PacketFormatError>,
>)
    ensures
        match r {
            Ok(data) => {
                &&& decoding_bytes(prefix, old(reader)@) is Ok
                &&& data@ == decoding_bytes(prefix, old(reader)@)->Ok_0.0
                &&& final(reader)@ == old(reader)@.skip(
                    decoding_bytes(prefix, old(reader)@)->Ok_0.1,
                )
            },
            Err(e) => decoding_bytes(prefix, old(reader)@) == Err::<(Seq<u8>, int), FormatFault>(
                e@,
            ),
        },
{
    let len: u64 = decode_uint(reader, prefix.byte_width())?;
    proof {
        lemma_pow256_values();
    }
    let data = reader.take(len as usize)?;
    proof {
        let k = prefix.width() as int;
        assert(data@ =~= old(reader)@.subrange(k, k + len));
        assert(final(reader)@ =~= old(reader)@.skip(k + len));
    }
    Ok(data)
}

/// Reads a length and that many bytes of UTF-8.
pub fn decode_str(prefix: Prefix, reader: &mut PacketReader) -> (r: Result<
    String,
    Box<PacketFormatError>,
>)
    ensures
        match r {
            Ok(text) => {
                &&& decoding_str(prefix, old(reader)@) is Ok
                &&& text@ == decoding_str(prefix, old(reader)@)->Ok_0.0
                &&& final(reader)@ == old(reader)@.skip(
                    decoding_str(prefix, old(reader)@)->Ok_0.1,
                )
            },
            Err(e) => decoding_str(prefix, old(reader)@) == Err::<(Seq<char>, int), FormatFault>(
                e@,
            ),
        },
{
    let data = slice_to_vec(decode_bytes(prefix, reader)?);
    match string_from_utf8(data) {
        Ok(text) => Ok(text),
        Err(e) => Err(Box::new(PacketFormatError::Utf8Error(e))),
    }
}

/// Reads a stat: the byte of its type, then a string or an integer according
/// to the type.
#[verifier::rlimit(50)]
pub fn decode_stat(reader: &mut PacketReader) -> (r: Result<StatData, Box<PacketFormatError>>)
    ensures
        match r {
            Ok(stat) => {
                &&& decoding_stat(old(reader)@) is Ok
                &&& stat@ == decoding_stat(old(reader)@)->Ok_0.0
                &&& final(reader)@ == old(reader)@.skip(decoding_stat(old(reader)@)->Ok_0.1)
            },
            Err(e) => decoding_stat(old(reader)@) is Err && decoding_stat(old(reader)@)->Err_0
                == e@,
        },
{
    let tag: u64 = decode_uint(reader, 1)?;
    proof {
        lemma_pow256_values();
    }
    let stat_type = match StatType::from_byte(tag as u8) {
        Some(t) => t,
        None => {
            return Err(Box::new(PacketFormatError::UnknownStatType(tag as u8)));
        },
    };
    if stat_type.is_string() {
        let text = decode_str(Prefix::U16, reader)?;
        proof {
            let k = decoding_str(Prefix::U16, old(reader)@.skip(1))->Ok_0.1;
            assert(old(reader)@.skip(1).skip(k) =~= old(reader)@.skip(1 + k));
        }
        Ok(StatData::String(stat_type, text))
    } else {
        let v: u64 = decode_uint(reader, 4)?;
        proof {
            assert(old(reader)@.skip(1).skip(4) =~= old(reader)@.skip(5));
        }
        Ok(StatData::Integer(stat_type, to_signed(v, 4) as i32))
    }
}

/// Read a value of type `ty`. On success the reader has advanced past
/// exactly the bytes of the value.
#[verifier::rlimit(50)]
pub fn decode_value(ty: &FieldType, reader: &mut PacketReader) -> (r: Result<
    Value,
    Box<PacketFormatError>,
>)
    ensures
        match r {
            Ok(value) => {
                &&& decoding(*ty, old(reader)@) is Ok
                &&& value.model() == decoding(*ty, old(reader)@)->Ok_0.0
                &&& final(reader)@ == old(reader)@.skip(decoding(*ty, old(reader)@)->Ok_0.1)
            },
            Err(e) => decoding(*ty, old(reader)@) is Err && decoding(*ty, old(reader)@)->Err_0
                == e@,
        },
    decreases ty.depth(), *ty, 0nat,
{
    proof {
        lemma_pow256_values();
    }
    match ty {
        FieldType::U8 => Ok(Value::U8(decode_uint(reader, 1)? as u8)),
        FieldType::U16 => Ok(Value::U16(decode_uint(reader, 2)? as u16)),
        FieldType::U32 => Ok(Value::U32(decode_uint(reader, 4)? as u32)),
        FieldType::U64 => Ok(Value::U64(decode_uint(reader, 8)?)),
        FieldType::I8 => Ok(Value::I8(to_signed(decode_uint(reader, 1)?, 1) as i8)),
        FieldType::I16 => Ok(Value::I16(to_signed(decode_uint(reader, 2)?, 2) as i16)),
        FieldType::I32 => Ok(Value::I32(to_signed(decode_uint(reader, 4)?, 4) as i32)),
        FieldType::I64 => Ok(Value::I64(to_signed(decode_uint(reader, 8)?, 8))),
        FieldType::F32 => Ok(Value::F32(decode_uint(reader, 4)? as u32)),
        FieldType::F64 => Ok(Value::F64(decode_uint(reader, 8)?)),
        FieldType::Bool => Ok(Value::Bool(decode_uint(reader, 1)? != 0)),
        FieldType::Unit => {
            assert(reader@.skip(0) =~= reader@);
            Ok(Value::Unit)
        },
        FieldType::Str(prefix) => Ok(Value::Str(decode_str(*prefix, reader)?)),
        FieldType::Bytes(prefix) => Ok(Value::Bytes(slice_to_vec(decode_bytes(*prefix, reader)?))),
        FieldType::List(prefix, item) => {
            let count: u64 = decode_uint(reader, prefix.byte_width())?;
            let items = decode_items(item, reader, count as usize)?;
            proof {
                let k = prefix.width() as int;
                let m = decoding_items(**item, old(reader)@.skip(k), count as nat)->Ok_0.1;
                lemma_decoding_items_within(**item, old(reader)@.skip(k), count as nat);
                assert(old(reader)@.skip(k).skip(m) =~= old(reader)@.skip(k + m));
                assert(Value::List(items).model()->List_0 =~= models(items@));
            }
            Ok(Value::List(items))
        },
        FieldType::Optional(inner) => {
            if reader.is_empty() {
                assert(reader@.skip(0) =~= reader@);
                Ok(Value::Opt(None))
            } else {
                let value = decode_value(inner, reader)?;
                Ok(Value::Opt(Some(Box::new(value))))
            }
        },
        FieldType::Remaining => {
            let data = slice_to_vec(reader.take_all());
            assert(old(reader)@.skip(old(reader)@.len() as int) =~= Seq::<u8>::empty());
            Ok(Value::Bytes(data))
        },
        FieldType::Stat => Ok(Value::Stat(decode_stat(reader)?)),
        FieldType::Data(data) => {
            proof {
                lemma_schema_depth(*data);
            }
            let fields = data.fields();
            let values = decode_fields(&fields, reader)?;
            proof {
                assert(Value::Record(values).model()->Record_0 =~= models(values@));
            }
            Ok(Value::Record(values))
        },
    }
}

/// Read `count` values of type `item`, one after the other.
#[verifier::rlimit(50)]
pub fn decode_items(item: &FieldType, reader: &mut PacketReader, count: usize) -> (r: Result<
    Vec<Value>,
    Box<PacketFormatError>,
>)
    ensures
        match r {
            Ok(values) => {
                &&& decoding_items(*item, old(reader)@, count as nat) is Ok
                &&& models(values@) == decoding_items(*item, old(reader)@, count as nat)->Ok_0.0
                &&& final(reader)@ == old(reader)@.skip(
                    decoding_items(*item, old(reader)@, count as nat)->Ok_0.1,
                )
            },
            Err(e) => decoding_items(*item, old(reader)@, count as nat) is Err && decoding_items(
                *item,
                old(reader)@,
                count as nat,
            )->Err_0 == e@,
        },
    decreases item.depth(), *item, count + 1,
{
    let mut values: Vec<Value> = Vec::new();
    let mut i: usize = 0;
    let ghost start = reader@;
    let ghost mut consumed: int = 0;
    proof {
        assert(start.skip(0) =~= start);
        assert(models(values@) =~= Seq::empty());
        assert forall|rest: Seq<Datum>| #![auto] Seq::<Datum>::empty() + rest =~= rest by {}
    }
    while i < count
        invariant
            i <= count,
            values@.len() == i,
            0 <= consumed <= start.len(),
            start == old(reader)@,
            reader@ == start.skip(consumed),
            decoding_items(*item, start, count as nat) == continued(
                models(values@),
                consumed,
                decoding_items(*item, reader@, (count - i) as nat),
            ),
        decreases count - i,
    {
        let ghost before = reader@;
        let ghost done = models(values@);
        match decode_value(item, reader) {
            Err(e) => {
                assert(decoding_items(*item, before, (count - i) as nat) == Err::<
                    (Seq<Datum>, int),
                    FormatFault,
                >(e@));
                return Err(e);
            },
            Ok(value) => {
                proof {
                    let k = decoding(*item, before)->Ok_0.1;
                    let rest = decoding_items(*item, before.skip(k), (count - i - 1) as nat);
                    lemma_decoding_within(*item, before);
                    assert(start.skip(consumed).skip(k) =~= start.skip(consumed + k));
                    assert(decoding_items(*item, before, (count - i) as nat) == continued(
                        seq![value.model()],
                        k,
                        rest,
                    ));
                    assert(models(values@.push(value)) =~= done + seq![value.model()]);
                    if rest is Ok {
                        assert((done + seq![value.model()]) + rest->Ok_0.0 =~= done + (seq![
                            value.model(),
                        ] + rest->Ok_0.0));
                    }
                    consumed = consumed + k;
                }
                values.push(value);
                i = i + 1;
            },
        }
    }
    proof {
        assert(models(values@) + Seq::empty() =~= models(values@));
    }
    Ok(values)
}

/// Read one value for each of `fields`, in order.
#[verifier::rlimit(50)]
pub fn decode_fields(fields: &Vec<FieldType>, reader: &mut PacketReader) -> (r: Result<
    Vec<Value>,
    Box<PacketFormatError>,
>)
    ensures
        match r {
            Ok(values) => {
                &&& decoding_fields(fields@, old(reader)@) is Ok
                &&& models(values@) == decoding_fields(fields@, old(reader)@)->Ok_0.0
                &&& final(reader)@ == old(reader)@.skip(
                    decoding_fields(fields@, old(reader)@)->Ok_0.1,
                )
            },
            Err(e) => decoding_fields(fields@, old(reader)@) is Err && decoding_fields(
                fields@,
                old(reader)@,
            )->Err_0 == e@,
        },
    decreases fields_depth(fields@), fields@, 0nat,
{
    let mut values: Vec<Value> = Vec::new();
    let mut i: usize = 0;
    let ghost start = reader@;
    let ghost mut consumed: int = 0;
    proof {
        assert(start.skip(0) =~= start);
        assert(fields@.skip(0) =~= fields@);
        assert(models(values@) =~= Seq::empty());
        assert forall|rest: Seq<Datum>| #![auto] Seq::<Datum>::empty() + rest =~= rest by {}
    }
    while i < fields.len()
        invariant
            i <= fields@.len(),
            values@.len() == i,
            0 <= consumed <= start.len(),
            start == old(reader)@,
            reader@ == start.skip(consumed),
            decoding_fields(fields@, start) == continued(
                models(values@),
                consumed,
                decoding_fields(fields@.skip(i as int), reader@),
            ),
        decreases fields@.len() - i,
    {
        let ghost before = reader@;
        let ghost done = models(values@);
        proof {
            lemma_field_depth(fields@, i as int);
            assert(fields@.skip(i as int)[0] == fields@[i as int]);
            assert(fields@.skip(i as int).drop_first() =~= fields@.skip(i + 1));
        }
        match decode_value(&fields[i], reader) {
            Err(e) => {
                assert(decoding_fields(fields@.skip(i as int), before) == Err::<
                    (Seq<Datum>, int),
                    FormatFault,
                >(e@));
                return Err(e);
            },
            Ok(value) => {
                proof {
                    let k = decoding(fields@[i as int], before)->Ok_0.1;
                    let rest = decoding_fields(fields@.skip(i + 1), before.skip(k));
                    lemma_decoding_within(fields@[i as int], before);
                    assert(start.skip(consumed).skip(k) =~= start.skip(consumed + k));
                    assert(decoding_fields(fields@.skip(i as int), before) == continued(
                        seq![value.model()],
                        k,
                        rest,
                    ));
                    assert(models(values@.push(value)) =~= done + seq![value.model()]);
                    if rest is Ok {
                        assert((done + seq![value.model()]) + rest->Ok_0.0 =~= done + (seq![
                            value.model(),
                        ] + rest->Ok_0.0));
                    }
                    consumed = consumed + k;
                }
                values.push(value);
                i = i + 1;
            },
        }
    }
    proof {
        assert(fields@.skip(fields@.len() as int) =~= Seq::<FieldType>::empty());
        assert(models(values@) + Seq::empty() =~= models(values@));
    }
    Ok(values)
}

/// A successful reading of a value that holds no other value takes no more
/// bytes than there are.
proof fn lemma_decoding_leaf_within(ty: FieldType, bytes: Seq<u8>)
    requires
        !(ty is List || ty is Optional || ty is Data),
    ensures
        decoding(ty, bytes) is Ok ==> 0 <= decoding(ty, bytes)->Ok_0.1 <= bytes.len(),
{
}

/// A successful reading takes no more bytes than there are.
#[verifier::rlimit(50)]
pub proof fn lemma_decoding_within(ty: FieldType, bytes: Seq<u8>)
    ensures
        decoding(ty, bytes) is Ok ==> 0 <= decoding(ty, bytes)->Ok_0.1 <= bytes.len(),
    decreases ty.depth(), ty, 0nat,
{
    match ty {
        FieldType::List(prefix, item) => {
            if let Ok((count, k)) = decoding_uint(bytes, prefix.width()) {
                lemma_decoding_items_within(*item, bytes.skip(k), count);
            }
        },
        FieldType::Optional(inner) => {
            if bytes.len() > 0 {
                lemma_decoding_within(*inner, bytes);
            }
        },
        FieldType::Data(data) => {
            lemma_schema_depth(data);
            lemma_decoding_fields_within(data.schema(), bytes);
        },
        _ => {
            lemma_decoding_leaf_within(ty, bytes);
        },
    }
}

/// A successful reading of items takes no more bytes than there are, and
/// gives as many values as were asked for.
pub proof fn lemma_decoding_items_within(item: FieldType, bytes: Seq<u8>, count: nat)
    ensures
        decoding_items(item, bytes, count) is Ok ==> 0 <= decoding_items(
            item,
            bytes,
            count,
        )->Ok_0.1 <= bytes.len() && decoding_items(item, bytes, count)->Ok_0.0.len() == count,
    decreases item.depth(), item, count + 1,
{
    if count > 0 {
        lemma_decoding_within(item, bytes);
        if let Ok((_, k)) = decoding(item, bytes) {
            lemma_decoding_items_within(item, bytes.skip(k), (count - 1) as nat);
        }
    }
}

/// A successful reading of fields takes no more bytes than there are, and
/// gives one value for each field.
pub proof fn lemma_decoding_fields_within(fields: Seq<FieldType>, bytes: Seq<u8>)
    ensures
        decoding_fields(fields, bytes) is Ok ==> 0 <= decoding_fields(fields, bytes)->Ok_0.1
            <= bytes.len() && decoding_fields(fields, bytes)->Ok_0.0.len() == fields.len(),
    decreases fields_depth(fields), fields, 0nat,
{
    if fields.len() > 0 {
        lemma_decoding_within(fields[0], bytes);
        if let Ok((_, k)) = decoding(fields[0], bytes) {
            lemma_decoding_fields_within(fields.drop_first(), bytes.skip(k));
        }
    }
}

} // verus!
