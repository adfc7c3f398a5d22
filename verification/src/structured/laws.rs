//! What holds of the wire format: a value that is written and read back is
//! the same value, and bytes that are read and written back are the same
//! bytes.

use vstd::prelude::*;
use vstd::utf8::{
    decode_utf8, decode_utf8_encode_utf8, encode_utf8, encode_utf8_decode_utf8,
    encode_utf8_valid_utf8, valid_utf8,
};
use crate::adapters::{FormatFault, Prefix};
use crate::structured::decode::{
    lemma_decoding_fields_within, lemma_decoding_items_within, lemma_decoding_within,
};
use crate::structured::format::{
    decoding, decoding_bytes, decoding_fields, decoding_items, decoding_stat, decoding_str,
    decoding_uint, encoding, encoding_bytes, encoding_fields, encoding_items, encoding_stat,
};
use crate::structured::schema::{
    all_self_delimiting, fields_depth, lemma_schema_depth, FieldType,
};
use crate::structured::stat::{StatModel, StatType};
use crate::structured::value::{conforms, fields_conform, items_conform, stats_well_typed, Datum};
use crate::wire::{
    as_signed, as_unsigned, be_bytes, be_value, lemma_be_bytes_len, lemma_be_bytes_of_value,
    lemma_be_value_bound, lemma_be_value_of_bytes, lemma_pow256_values, pow256,
};

verus! {

/// Whether every stat among `values` holds a value of the kind that its type
/// calls for.
pub open spec fn all_stats_well_typed(values: Seq<Datum>) -> bool {
    forall|i: int| 0 <= i < values.len() ==> stats_well_typed(#[trigger] values[i])
}

/// An unsigned integer that fits its width is read back as it was written,
/// whatever follows it.
pub proof fn lemma_uint_roundtrip(v: nat, width: nat, rest: Seq<u8>)
    requires
        v < pow256(width),
    ensures
        be_bytes(v, width).len() == width,
        decoding_uint(be_bytes(v, width) + rest, width) == Ok::<(nat, int), FormatFault>(
            (v, width as int),
        ),
        (be_bytes(v, width) + rest).skip(width as int) == rest,
{
    let written = be_bytes(v, width);
    lemma_be_bytes_len(v, width);
    lemma_be_value_of_bytes(v, width);
    assert((written + rest).take(width as int) =~= written);
    assert((written + rest).skip(width as int) =~= rest);
}

/// The bytes of an unsigned integer are written back as they were read.
pub proof fn lemma_uint_reencode(bytes: Seq<u8>, width: nat)
    requires
        bytes.len() >= width,
    ensures
        be_bytes(be_value(bytes.take(width as int)), width) == bytes.take(width as int),
        be_value(bytes.take(width as int)) < pow256(width),
{
    lemma_be_bytes_of_value(bytes.take(width as int));
    lemma_be_value_bound(bytes.take(width as int));
}

/// Bytes behind a length are read back as they were written, whatever
/// follows them.
pub proof fn lemma_bytes_roundtrip(prefix: Prefix, data: Seq<u8>, rest: Seq<u8>)
    requires
        encoding_bytes(prefix, data) is Ok,
    ensures
        decoding_bytes(prefix, encoding_bytes(prefix, data)->Ok_0 + rest) == Ok::<
            (Seq<u8>, int),
            FormatFault,
        >((data, encoding_bytes(prefix, data)->Ok_0.len() as int)),
{
    lemma_pow256_values();
    let w = prefix.width();
    let written = encoding_bytes(prefix, data)->Ok_0;
    lemma_uint_roundtrip(data.len(), w, data + rest);
    assert(written + rest =~= be_bytes(data.len(), w) + (data + rest));
    assert((written + rest).subrange(w as int, (w + data.len()) as int) =~= data);
}

/// Bytes behind a length are written back as they were read.
pub proof fn lemma_bytes_reencode(prefix: Prefix, bytes: Seq<u8>)
    requires
        decoding_bytes(prefix, bytes) is Ok,
    ensures
        encoding_bytes(prefix, decoding_bytes(prefix, bytes)->Ok_0.0) == Ok::<
            Seq<u8>,
            FormatFault,
        >(bytes.take(decoding_bytes(prefix, bytes)->Ok_0.1)),
{
    lemma_pow256_values();
    let w = prefix.width();
    lemma_uint_reencode(bytes, w);
    let (data, k) = decoding_bytes(prefix, bytes)->Ok_0;
    assert(bytes.take(k) =~= bytes.take(w as int) + data);
}

/// A well-typed stat is read back as it was written, whatever follows it.
#[verifier::rlimit(50)]
pub proof fn lemma_stat_roundtrip(stat: StatModel, rest: Seq<u8>)
    requires
        stat.well_typed(),
        encoding_stat(stat) is Ok,
    ensures
        decoding_stat(encoding_stat(stat)->Ok_0 + rest) == Ok::<(StatModel, int), FormatFault>(
            (stat, encoding_stat(stat)->Ok_0.len() as int),
        ),
{
    lemma_pow256_values();
    let written = encoding_stat(stat)->Ok_0;
    let all = written + rest;
    let stat_type = stat.stat_type();
    stat_type.lemma_byte_roundtrip();
    assert(all.take(1) =~= seq![stat_type.byte()]);
    assert(be_value(seq![stat_type.byte()]) == stat_type.byte()) by {
        reveal_with_fuel(be_value, 2);
        assert(seq![stat_type.byte()].drop_last() =~= Seq::<u8>::empty());
    }
    match stat {
        StatModel::Integer(_, v) => {
            let body = be_bytes(as_unsigned(v as int, 4), 4);
            lemma_uint_roundtrip(as_unsigned(v as int, 4), 4, rest);
            assert(all.skip(1) =~= body + rest);
        },
        StatModel::String(_, text) => {
            let body = encoding_bytes(Prefix::U16, encode_utf8(text))->Ok_0;
            lemma_bytes_roundtrip(Prefix::U16, encode_utf8(text), rest);
            encode_utf8_valid_utf8(text);
            encode_utf8_decode_utf8(text);
            assert(all.skip(1) =~= body + rest);
        },
    }
}

/// The bytes of a stat are written back as they were read, and the stat that
/// was read is well-typed.
#[verifier::rlimit(50)]
pub proof fn lemma_stat_reencode(bytes: Seq<u8>)
    requires
        decoding_stat(bytes) is Ok,
    ensures
        decoding_stat(bytes)->Ok_0.0.well_typed(),
        encoding_stat(decoding_stat(bytes)->Ok_0.0) == Ok::<Seq<u8>, FormatFault>(
            bytes.take(decoding_stat(bytes)->Ok_0.1),
        ),
{
    lemma_pow256_values();
    let (stat, k) = decoding_stat(bytes)->Ok_0;
    let tag = be_value(bytes.take(1));
    lemma_uint_reencode(bytes, 1);
    assert(tag == bytes[0]) by {
        reveal_with_fuel(be_value, 2);
        assert(bytes.take(1).drop_last() =~= Seq::<u8>::empty());
    }
    StatType::lemma_of_byte_roundtrip(tag as u8);
    let tail = bytes.skip(1);
    match stat {
        StatModel::Integer(_, v) => {
            lemma_uint_reencode(tail, 4);
            assert(bytes.take(5) =~= seq![bytes[0]] + tail.take(4));
        },
        StatModel::String(_, text) => {
            lemma_bytes_reencode(Prefix::U16, tail);
            let (data, m) = decoding_bytes(Prefix::U16, tail)->Ok_0;
            decode_utf8_encode_utf8(data);
            assert(bytes.take(1 + m) =~= seq![bytes[0]] + tail.take(m));
        },
    }
}

/// A value of a primitive type - an integer, the bits of a float, a boolean,
/// the unit - is read back as it was written, whatever follows it.
#[verifier::rlimit(50)]
pub proof fn lemma_primitive_roundtrip(ty: FieldType, d: Datum, rest: Seq<u8>)
    requires
        conforms(ty, d),
        ty is U8 || ty is U16 || ty is U32 || ty is U64 || ty is I8 || ty is I16 || ty is I32
            || ty is I64 || ty is F32 || ty is F64 || ty is Bool || ty is Unit,
    ensures
        encoding(ty, d) is Ok,
        decoding(ty, encoding(ty, d)->Ok_0 + rest) == Ok::<(Datum, int), FormatFault>(
            (d, encoding(ty, d)->Ok_0.len() as int),
        ),
{
    lemma_pow256_values();
    match (ty, d) {
        (FieldType::U8, Datum::U8(v)) => lemma_uint_roundtrip(v as nat, 1, rest),
        (FieldType::U16, Datum::U16(v)) => lemma_uint_roundtrip(v as nat, 2, rest),
        (FieldType::U32, Datum::U32(v)) => lemma_uint_roundtrip(v as nat, 4, rest),
        (FieldType::U64, Datum::U64(v)) => lemma_uint_roundtrip(v as nat, 8, rest),
        (FieldType::I8, Datum::I8(v)) => lemma_uint_roundtrip(as_unsigned(v as int, 1), 1, rest),
        (FieldType::I16, Datum::I16(v)) => lemma_uint_roundtrip(as_unsigned(v as int, 2), 2, rest),
        (FieldType::I32, Datum::I32(v)) => lemma_uint_roundtrip(as_unsigned(v as int, 4), 4, rest),
        (FieldType::I64, Datum::I64(v)) => lemma_uint_roundtrip(as_unsigned(v as int, 8), 8, rest),
        (FieldType::F32, Datum::F32(v)) => lemma_uint_roundtrip(v as nat, 4, rest),
        (FieldType::F64, Datum::F64(v)) => lemma_uint_roundtrip(v as nat, 8, rest),
        (FieldType::Bool, Datum::Bool(v)) => {
            let b: u8 = if v {
                1
            } else {
                0
            };
            assert(seq![b] =~= be_bytes(b as nat, 1)) by {
                reveal_with_fuel(be_bytes, 2);
            }
            lemma_uint_roundtrip(b as nat, 1, rest);
        },
        _ => {
            assert(Seq::<u8>::empty() + rest =~= rest);
        },
    }
}

/// A value is read back as it was written, whatever follows it, if its type
/// is self-delimiting and its stats are well-typed.
#[verifier::rlimit(50)]
pub proof fn lemma_roundtrip(ty: FieldType, d: Datum, rest: Seq<u8>)
    requires
        conforms(ty, d),
        ty.self_delimiting(),
        stats_well_typed(d),
        encoding(ty, d) is Ok,
    ensures
        decoding(ty, encoding(ty, d)->Ok_0 + rest) == Ok::<(Datum, int), FormatFault>(
            (d, encoding(ty, d)->Ok_0.len() as int),
        ),
    decreases ty.depth(), ty, 0nat,
{
    lemma_pow256_values();
    let written = encoding(ty, d)->Ok_0;
    match (ty, d) {
        (FieldType::Str(prefix), Datum::Str(text)) => {
            lemma_bytes_roundtrip(prefix, encode_utf8(text), rest);
            encode_utf8_valid_utf8(text);
            encode_utf8_decode_utf8(text);
        },
        (FieldType::Bytes(prefix), Datum::Bytes(data)) => {
            lemma_bytes_roundtrip(prefix, data, rest);
        },
        (FieldType::List(prefix, item), Datum::List(items)) => {
            let w = prefix.width();
            let body = encoding_items(*item, items)->Ok_0;
            lemma_uint_roundtrip(items.len(), w, body + rest);
            assert(written + rest =~= be_bytes(items.len(), w) + (body + rest));
            lemma_items_roundtrip(*item, items, rest);
        },
        (FieldType::Stat, Datum::Stat(stat)) => {
            lemma_stat_roundtrip(stat, rest);
        },
        (FieldType::Data(data), Datum::Record(values)) => {
            lemma_schema_depth(data);
            lemma_fields_roundtrip(data.schema(), values, rest);
        },
        _ => {
            lemma_primitive_roundtrip(ty, d, rest);
        },
    }
}

/// Items are read back as they were written.
pub proof fn lemma_items_roundtrip(item: FieldType, items: Seq<Datum>, rest: Seq<u8>)
    requires
        items_conform(item, items),
        item.self_delimiting(),
        all_stats_well_typed(items),
        encoding_items(item, items) is Ok,
    ensures
        decoding_items(item, encoding_items(item, items)->Ok_0 + rest, items.len()) == Ok::<
            (Seq<Datum>, int),
            FormatFault,
        >((items, encoding_items(item, items)->Ok_0.len() as int)),
    decreases item.depth(), item, items.len() + 1,
{
    let written = encoding_items(item, items)->Ok_0;
    if items.len() == 0 {
        assert(items =~= Seq::<Datum>::empty());
    } else {
        let first = encoding(item, items[0])->Ok_0;
        let others = encoding_items(item, items.drop_first())->Ok_0;
        assert(stats_well_typed(items[0]));
        assert(all_stats_well_typed(items.drop_first())) by {
            assert forall|i: int| 0 <= i < items.drop_first().len() implies stats_well_typed(
                #[trigger] items.drop_first()[i],
            ) by {
                assert(items.drop_first()[i] == items[i + 1]);
            }
        }
        lemma_roundtrip(item, items[0], others + rest);
        assert(written + rest =~= first + (others + rest));
        assert((written + rest).skip(first.len() as int) =~= others + rest);
        lemma_items_roundtrip(item, items.drop_first(), rest);
        assert(seq![items[0]] + items.drop_first() =~= items);
    }
}

/// The values of fields are read back as they were written.
pub proof fn lemma_fields_roundtrip(fields: Seq<FieldType>, values: Seq<Datum>, rest: Seq<u8>)
    requires
        fields_conform(fields, values),
        all_self_delimiting(fields),
        all_stats_well_typed(values),
        encoding_fields(fields, values) is Ok,
    ensures
        decoding_fields(fields, encoding_fields(fields, values)->Ok_0 + rest) == Ok::<
            (Seq<Datum>, int),
            FormatFault,
        >((values, encoding_fields(fields, values)->Ok_0.len() as int)),
    decreases fields_depth(fields), fields, 0nat,
{
    let written = encoding_fields(fields, values)->Ok_0;
    if fields.len() == 0 {
        assert(values =~= Seq::<Datum>::empty());
        assert(written + rest =~= rest);
    } else {
        let first = encoding(fields[0], values[0])->Ok_0;
        let others = encoding_fields(fields.drop_first(), values.drop_first())->Ok_0;
        assert(stats_well_typed(values[0]));
        assert(all_stats_well_typed(values.drop_first())) by {
            assert forall|i: int| 0 <= i < values.drop_first().len() implies stats_well_typed(
                #[trigger] values.drop_first()[i],
            ) by {
                assert(values.drop_first()[i] == values[i + 1]);
            }
        }
        lemma_roundtrip(fields[0], values[0], others + rest);
        assert(written + rest =~= first + (others + rest));
        assert((written + rest).skip(first.len() as int) =~= others + rest);
        lemma_fields_roundtrip(fields.drop_first(), values.drop_first(), rest);
        assert(seq![values[0]] + values.drop_first() =~= values);
    }
}

/// What is read is a value of the type that was asked for, with well-typed
/// stats.
#[verifier::rlimit(50)]
pub proof fn lemma_decoding_conforms(ty: FieldType, bytes: Seq<u8>)
    requires
        decoding(ty, bytes) is Ok,
    ensures
        conforms(ty, decoding(ty, bytes)->Ok_0.0),
        stats_well_typed(decoding(ty, bytes)->Ok_0.0),
    decreases ty.depth(), ty, 0nat,
{
    match ty {
        FieldType::List(prefix, item) => {
            let (count, k) = decoding_uint(bytes, prefix.width())->Ok_0;
            lemma_decoding_items_conform(*item, bytes.skip(k), count);
        },
        FieldType::Optional(inner) => {
            if bytes.len() > 0 {
                lemma_decoding_conforms(*inner, bytes);
            }
        },
        FieldType::Stat => {
            lemma_stat_reencode(bytes);
        },
        FieldType::Data(data) => {
            lemma_schema_depth(data);
            lemma_decoding_fields_conform(data.schema(), bytes);
        },
        _ => {},
    }
}

/// The items that are read are values of the item type, with well-typed
/// stats.
pub proof fn lemma_decoding_items_conform(item: FieldType, bytes: Seq<u8>, count: nat)
    requires
        decoding_items(item, bytes, count) is Ok,
    ensures
        items_conform(item, decoding_items(item, bytes, count)->Ok_0.0),
        all_stats_well_typed(decoding_items(item, bytes, count)->Ok_0.0),
    decreases item.depth(), item, count + 1,
{
    if count > 0 {
        let (first, k) = decoding(item, bytes)->Ok_0;
        let (others, _) = decoding_items(item, bytes.skip(k), (count - 1) as nat)->Ok_0;
        lemma_decoding_conforms(item, bytes);
        lemma_decoding_items_conform(item, bytes.skip(k), (count - 1) as nat);
        let all = seq![first] + others;
        assert(all.drop_first() =~= others);
        assert forall|i: int| 0 <= i < all.len() implies stats_well_typed(#[trigger] all[i]) by {
            if i > 0 {
                assert(all[i] == others[i - 1]);
            }
        }
    }
}

/// The values of fields that are read are values of the types of the
/// fields, with well-typed stats.
pub proof fn lemma_decoding_fields_conform(fields: Seq<FieldType>, bytes: Seq<u8>)
    requires
        decoding_fields(fields, bytes) is Ok,
    ensures
        fields_conform(fields, decoding_fields(fields, bytes)->Ok_0.0),
        all_stats_well_typed(decoding_fields(fields, bytes)->Ok_0.0),
    decreases fields_depth(fields), fields, 0nat,
{
    if fields.len() > 0 {
        let (first, k) = decoding(fields[0], bytes)->Ok_0;
        let (others, _) = decoding_fields(fields.drop_first(), bytes.skip(k))->Ok_0;
        lemma_decoding_conforms(fields[0], bytes);
        lemma_decoding_fields_conform(fields.drop_first(), bytes.skip(k));
        let all = seq![first] + others;
        assert(all.drop_first() =~= others);
        assert forall|i: int| 0 <= i < all.len() implies stats_well_typed(#[trigger] all[i]) by {
            if i > 0 {
                assert(all[i] == others[i - 1]);
            }
        }
    }
}

/// Whether every boolean that a reading of a value of type `ty` from `bytes`
/// comes by is written as 0 or as 1. A boolean that is written otherwise -
/// any other byte reads as true - is the one thing that is not written back
/// as it was read.
pub open spec fn booleans_canonical(ty: FieldType, bytes: Seq<u8>) -> bool
    decreases ty.depth(), ty, 0nat,
{
    match ty {
        FieldType::Bool => bytes.len() >= 1 ==> bytes[0] <= 1,
        FieldType::List(prefix, item) => match decoding_uint(bytes, prefix.width()) {
            Err(_) => true,
            Ok((count, k)) => items_booleans_canonical(*item, bytes.skip(k), count),
        },
        FieldType::Optional(inner) => bytes.len() == 0 || booleans_canonical(*inner, bytes),
        FieldType::Data(data) => {
            proof {
                lemma_schema_depth(data);
            }
            fields_booleans_canonical(data.schema(), bytes)
        },
        _ => true,
    }
}

/// `booleans_canonical`, of `count` items one after the other.
pub open spec fn items_booleans_canonical(item: FieldType, bytes: Seq<u8>, count: nat) -> bool
    decreases item.depth(), item, count + 1,
{
    if count == 0 {
        true
    } else {
        booleans_canonical(item, bytes) && match decoding(item, bytes) {
            Err(_) => true,
            Ok((_, k)) => items_booleans_canonical(item, bytes.skip(k), (count - 1) as nat),
        }
    }
}

/// `booleans_canonical`, of one value for each of `fields`.
pub open spec fn fields_booleans_canonical(fields: Seq<FieldType>, bytes: Seq<u8>) -> bool
    decreases fields_depth(fields), fields, 0nat,
{
    if fields.len() == 0 {
        true
    } else {
        booleans_canonical(fields[0], bytes) && match decoding(fields[0], bytes) {
            Err(_) => true,
            Ok((_, k)) => fields_booleans_canonical(fields.drop_first(), bytes.skip(k)),
        }
    }
}

/// A string behind a length is written back as it was read.
proof fn lemma_str_reencode(prefix: Prefix, bytes: Seq<u8>)
    requires
        decoding_str(prefix, bytes) is Ok,
    ensures
        encoding_bytes(prefix, encode_utf8(decoding_str(prefix, bytes)->Ok_0.0)) == Ok::<
            Seq<u8>,
            FormatFault,
        >(bytes.take(decoding_str(prefix, bytes)->Ok_0.1)),
{
    let (data, k) = decoding_bytes(prefix, bytes)->Ok_0;
    lemma_bytes_reencode(prefix, bytes);
    decode_utf8_encode_utf8(data);
}

/// A list behind a count is written back as it was read, if its items are.
proof fn lemma_list_reencode(prefix: Prefix, item: FieldType, bytes: Seq<u8>)
    requires
        decoding_uint(bytes, prefix.width()) is Ok,
        decoding_items(
            item,
            bytes.skip(prefix.width() as int),
            decoding_uint(bytes, prefix.width())->Ok_0.0,
        ) is Ok,
        ({
            let count = decoding_uint(bytes, prefix.width())->Ok_0.0;
            let tail = bytes.skip(prefix.width() as int);
            encoding_items(item, decoding_items(item, tail, count)->Ok_0.0) == Ok::<
                Seq<u8>,
                FormatFault,
            >(tail.take(decoding_items(item, tail, count)->Ok_0.1))
        }),
    ensures
        encoding(
            FieldType::List(prefix, Box::new(item)),
            decoding(FieldType::List(prefix, Box::new(item)), bytes)->Ok_0.0,
        ) == Ok::<Seq<u8>, FormatFault>(
            bytes.take(decoding(FieldType::List(prefix, Box::new(item)), bytes)->Ok_0.1),
        ),
{
    lemma_pow256_values();
    let w = prefix.width();
    let (count, k) = decoding_uint(bytes, w)->Ok_0;
    let (items, m) = decoding_items(item, bytes.skip(k), count)->Ok_0;
    lemma_uint_reencode(bytes, w);
    lemma_decoding_items_within(item, bytes.skip(k), count);
    assert(bytes.take(k + m) =~= bytes.take(k) + bytes.skip(k).take(m));
}

/// The bytes that a value was read from are the bytes that the value is
/// written as, if every boolean among them is 0 or 1.
#[verifier::rlimit(50)]
pub proof fn lemma_reencode(ty: FieldType, bytes: Seq<u8>)
    requires
        decoding(ty, bytes) is Ok,
        booleans_canonical(ty, bytes),
    ensures
        encoding(ty, decoding(ty, bytes)->Ok_0.0) == Ok::<Seq<u8>, FormatFault>(
            bytes.take(decoding(ty, bytes)->Ok_0.1),
        ),
    decreases ty.depth(), ty, 0nat,
{
    match ty {
        FieldType::Str(prefix) => lemma_str_reencode(prefix, bytes),
        FieldType::Bytes(prefix) => lemma_bytes_reencode(prefix, bytes),
        FieldType::List(prefix, item) => {
            let (count, k) = decoding_uint(bytes, prefix.width())->Ok_0;
            lemma_items_reencode(*item, bytes.skip(k), count);
            lemma_list_reencode(prefix, *item, bytes);
        },
        FieldType::Optional(inner) => {
            if bytes.len() == 0 {
                assert(bytes.take(0) =~= Seq::<u8>::empty());
            } else {
                lemma_reencode(*inner, bytes);
            }
        },
        FieldType::Remaining => {
            assert(bytes.take(bytes.len() as int) =~= bytes);
        },
        FieldType::Stat => lemma_stat_reencode(bytes),
        FieldType::Data(data) => {
            lemma_schema_depth(data);
            lemma_fields_reencode(data.schema(), bytes);
        },
        FieldType::U8 | FieldType::U16 | FieldType::U32 | FieldType::U64 | FieldType::F32
        | FieldType::F64 => lemma_unsigned_reencode(ty, bytes),
        FieldType::I8 | FieldType::I16 | FieldType::I32 | FieldType::I64 => lemma_signed_reencode(
            ty,
            bytes,
        ),
        FieldType::Bool => {
            lemma_uint_reencode(bytes, 1);
            reveal_with_fuel(be_value, 2);
            reveal_with_fuel(be_bytes, 2);
            assert(bytes.take(1).drop_last() =~= Seq::<u8>::empty());
            assert(bytes.take(1) =~= seq![bytes[0]]);
        },
        FieldType::Unit => {
            assert(bytes.take(0) =~= Seq::<u8>::empty());
        },
    }
}

/// The bytes of an unsigned integer or of a float are written back as they
/// were read.
#[verifier::rlimit(50)]
proof fn lemma_unsigned_reencode(ty: FieldType, bytes: Seq<u8>)
    requires
        decoding(ty, bytes) is Ok,
        ty is U8 || ty is U16 || ty is U32 || ty is U64 || ty is F32 || ty is F64,
    ensures
        encoding(ty, decoding(ty, bytes)->Ok_0.0) == Ok::<Seq<u8>, FormatFault>(
            bytes.take(decoding(ty, bytes)->Ok_0.1),
        ),
{
    lemma_pow256_values();
    match ty {
        FieldType::U8 => lemma_uint_reencode(bytes, 1),
        FieldType::U16 => lemma_uint_reencode(bytes, 2),
        FieldType::U32 | FieldType::F32 => lemma_uint_reencode(bytes, 4),
        _ => lemma_uint_reencode(bytes, 8),
    }
}

/// The bytes of a signed integer are written back as they were read.
#[verifier::rlimit(50)]
proof fn lemma_signed_reencode(ty: FieldType, bytes: Seq<u8>)
    requires
        decoding(ty, bytes) is Ok,
        ty is I8 || ty is I16 || ty is I32 || ty is I64,
    ensures
        encoding(ty, decoding(ty, bytes)->Ok_0.0) == Ok::<Seq<u8>, FormatFault>(
            bytes.take(decoding(ty, bytes)->Ok_0.1),
        ),
{
    lemma_pow256_values();
    match ty {
        FieldType::I8 => {
            lemma_uint_reencode(bytes, 1);
            lemma_twos_complement(be_value(bytes.take(1)), 1);
        },
        FieldType::I16 => {
            lemma_uint_reencode(bytes, 2);
            lemma_twos_complement(be_value(bytes.take(2)), 2);
        },
        FieldType::I32 => {
            lemma_uint_reencode(bytes, 4);
            lemma_twos_complement(be_value(bytes.take(4)), 4);
        },
        _ => {
            lemma_uint_reencode(bytes, 8);
            lemma_twos_complement(be_value(bytes.take(8)), 8);
        },
    }
}

/// Reading a number as two's complement and writing it back gives the
/// number.
proof fn lemma_twos_complement(v: nat, width: nat)
    requires
        v < pow256(width),
        width >= 1,
    ensures
        as_unsigned(as_signed(v, width), width) == v,
        -pow256(width) <= 2 * as_signed(v, width) < pow256(width),
{
}

/// The bytes that items were read from are the bytes that the items are
/// written as.
pub proof fn lemma_items_reencode(item: FieldType, bytes: Seq<u8>, count: nat)
    requires
        decoding_items(item, bytes, count) is Ok,
        items_booleans_canonical(item, bytes, count),
    ensures
        encoding_items(item, decoding_items(item, bytes, count)->Ok_0.0) == Ok::<
            Seq<u8>,
            FormatFault,
        >(bytes.take(decoding_items(item, bytes, count)->Ok_0.1)),
    decreases item.depth(), item, count + 1,
{
    if count == 0 {
        assert(bytes.take(0) =~= Seq::<u8>::empty());
    } else {
        let (first, k) = decoding(item, bytes)->Ok_0;
        let (others, m) = decoding_items(item, bytes.skip(k), (count - 1) as nat)->Ok_0;
        lemma_reencode(item, bytes);
        lemma_items_reencode(item, bytes.skip(k), (count - 1) as nat);
        lemma_decoding_within(item, bytes);
        lemma_decoding_items_within(item, bytes.skip(k), (count - 1) as nat);
        let all = seq![first] + others;
        assert(all.drop_first() =~= others);
        assert(bytes.take(k + m) =~= bytes.take(k) + bytes.skip(k).take(m));
    }
}

/// The bytes that the values of fields were read from are the bytes that
/// the values are written as.
pub proof fn lemma_fields_reencode(fields: Seq<FieldType>, bytes: Seq<u8>)
    requires
        decoding_fields(fields, bytes) is Ok,
        fields_booleans_canonical(fields, bytes),
    ensures
        encoding_fields(fields, decoding_fields(fields, bytes)->Ok_0.0) == Ok::<
            Seq<u8>,
            FormatFault,
        >(bytes.take(decoding_fields(fields, bytes)->Ok_0.1)),
    decreases fields_depth(fields), fields, 0nat,
{
    if fields.len() == 0 {
        assert(bytes.take(0) =~= Seq::<u8>::empty());
    } else {
        let (first, k) = decoding(fields[0], bytes)->Ok_0;
        let (others, m) = decoding_fields(fields.drop_first(), bytes.skip(k))->Ok_0;
        lemma_reencode(fields[0], bytes);
        lemma_fields_reencode(fields.drop_first(), bytes.skip(k));
        lemma_decoding_within(fields[0], bytes);
        lemma_decoding_fields_within(fields.drop_first(), bytes.skip(k));
        let all = seq![first] + others;
        assert(all.drop_first() =~= others);
        assert(bytes.take(k + m) =~= bytes.take(k) + bytes.skip(k).take(m));
    }
}

} // verus!
