//! The wire format of fields: what a value of a type is written as, and what
//! bytes are read as.

use vstd::prelude::*;
use vstd::utf8::{decode_utf8, encode_utf8, valid_utf8};
use crate::adapters::{too_large, FormatFault, Prefix};
use crate::structured::schema::{fields_depth, lemma_schema_depth, FieldType};
use crate::structured::stat::{StatModel, StatType};
use crate::structured::value::Datum;
use crate::wire::{as_signed, as_unsigned, be_bytes, be_value};

verus! {

/// What reading a value gives: the value and the number of bytes it took, or
/// the fault.
pub type Decoded<T> = Result<(T, int), FormatFault>;

/// What writing a value gives: the bytes, or the fault.
pub type Encoded = Result<Seq<u8>, FormatFault>;

/// An unsigned big-endian integer of `width` bytes at the front of `bytes`.
pub open spec fn decoding_uint(bytes: Seq<u8>, width: nat) -> Decoded<nat> {
    if bytes.len() < width {
        Err(FormatFault::UnexpectedEnd(width as usize))
    } else {
        Ok((be_value(bytes.take(width as int)), width as int))
    }
}

/// A length and that many bytes at the front of `bytes`.
pub open spec fn decoding_bytes(prefix: Prefix, bytes: Seq<u8>) -> Decoded<Seq<u8>> {
    match decoding_uint(bytes, prefix.width()) {
        Err(fault) => Err(fault),
        Ok((len, k)) => {
            if bytes.len() - k < len {
                Err(FormatFault::UnexpectedEnd(len as usize))
            } else {
                Ok((bytes.subrange(k, k + len), k + len))
            }
        },
    }
}

/// A length and that many bytes of UTF-8 at the front of `bytes`.
pub open spec fn decoding_str(prefix: Prefix, bytes: Seq<u8>) -> Decoded<Seq<char>> {
    match decoding_bytes(prefix, bytes) {
        Err(fault) => Err(fault),
        Ok((text, k)) => {
            if valid_utf8(text) {
                Ok((decode_utf8(text), k))
            } else {
                Err(FormatFault::Utf8Error)
            }
        },
    }
}

/// A stat at the front of `bytes`: the byte of its type, then a string with
/// a 16-bit length or a 32-bit integer, as the type calls for.
pub open spec fn decoding_stat(bytes: Seq<u8>) -> Decoded<StatModel> {
    match decoding_uint(bytes, 1) {
        Err(fault) => Err(fault),
        Ok((tag, _)) => match StatType::of_byte(tag as u8) {
            None => Err(FormatFault::UnknownStatType(tag as u8)),
            Some(stat_type) => {
                if stat_type.string_valued() {
                    match decoding_str(Prefix::U16, bytes.skip(1)) {
                        Err(fault) => Err(fault),
                        Ok((text, k)) => Ok((StatModel::String(stat_type, text), 1 + k)),
                    }
                } else {
                    match decoding_uint(bytes.skip(1), 4) {
                        Err(fault) => Err(fault),
                        Ok((v, k)) => Ok(
                            (StatModel::Integer(stat_type, as_signed(v, 4) as i32), 1 + k),
                        ),
                    }
                }
            },
        },
    }
}

/// What reading a value of type `ty` from the front of `bytes` gives.
pub open spec fn decoding(ty: FieldType, bytes: Seq<u8>) -> Decoded<Datum>
    decreases ty.depth(), ty, 0nat,
{
    match ty {
        FieldType::U8 => match decoding_uint(bytes, 1) {
            Ok((v, k)) => Ok((Datum::U8(v as u8), k)),
            Err(fault) => Err(fault),
        },
        FieldType::U16 => match decoding_uint(bytes, 2) {
            Ok((v, k)) => Ok((Datum::U16(v as u16), k)),
            Err(fault) => Err(fault),
        },
        FieldType::U32 => match decoding_uint(bytes, 4) {
            Ok((v, k)) => Ok((Datum::U32(v as u32), k)),
            Err(fault) => Err(fault),
        },
        FieldType::U64 => match decoding_uint(bytes, 8) {
            Ok((v, k)) => Ok((Datum::U64(v as u64), k)),
            Err(fault) => Err(fault),
        },
        FieldType::I8 => match decoding_uint(bytes, 1) {
            Ok((v, k)) => Ok((Datum::I8(as_signed(v, 1) as i8), k)),
            Err(fault) => Err(fault),
        },
        FieldType::I16 => match decoding_uint(bytes, 2) {
            Ok((v, k)) => Ok((Datum::I16(as_signed(v, 2) as i16), k)),
            Err(fault) => Err(fault),
        },
        FieldType::I32 => match decoding_uint(bytes, 4) {
            Ok((v, k)) => Ok((Datum::I32(as_signed(v, 4) as i32), k)),
            Err(fault) => Err(fault),
        },
        FieldType::I64 => match decoding_uint(bytes, 8) {
            Ok((v, k)) => Ok((Datum::I64(as_signed(v, 8) as i64), k)),
            Err(fault) => Err(fault),
        },
        FieldType::F32 => match decoding_uint(bytes, 4) {
            Ok((v, k)) => Ok((Datum::F32(v as u32), k)),
            Err(fault) => Err(fault),
        },
        FieldType::F64 => match decoding_uint(bytes, 8) {
            Ok((v, k)) => Ok((Datum::F64(v as u64), k)),
            Err(fault) => Err(fault),
        },
        FieldType::Bool => match decoding_uint(bytes, 1) {
            Ok((v, k)) => Ok((Datum::Bool(v != 0), k)),
            Err(fault) => Err(fault),
        },
        FieldType::Unit => Ok((Datum::Unit, 0)),
        FieldType::Str(prefix) => match decoding_str(prefix, bytes) {
            Ok((text, k)) => Ok((Datum::Str(text), k)),
            Err(fault) => Err(fault),
        },
        FieldType::Bytes(prefix) => match decoding_bytes(prefix, bytes) {
            Ok((data, k)) => Ok((Datum::Bytes(data), k)),
            Err(fault) => Err(fault),
        },
        FieldType::List(prefix, item) => match decoding_uint(bytes, prefix.width()) {
            Err(fault) => Err(fault),
            Ok((count, k)) => match decoding_items(*item, bytes.skip(k), count) {
                Err(fault) => Err(fault),
                Ok((items, m)) => Ok((Datum::List(items), k + m)),
            },
        },
        FieldType::Optional(inner) => {
            if bytes.len() == 0 {
                Ok((Datum::Opt(None), 0))
            } else {
                match decoding(*inner, bytes) {
                    Err(fault) => Err(fault),
                    Ok((value, k)) => Ok((Datum::Opt(Some(Box::new(value))), k)),
                }
            }
        },
        FieldType::Remaining => Ok((Datum::Bytes(bytes), bytes.len() as int)),
        FieldType::Stat => match decoding_stat(bytes) {
            Ok((stat, k)) => Ok((Datum::Stat(stat), k)),
            Err(fault) => Err(fault),
        },
        FieldType::Data(data) => {
            proof {
                lemma_schema_depth(data);
            }
            match decoding_fields(data.schema(), bytes) {
                Err(fault) => Err(fault),
                Ok((values, k)) => Ok((Datum::Record(values), k)),
            }
        },
    }
}

/// What reading `count` values of type `item`, one after the other, gives.
/// The first fault ends the reading.
pub open spec fn decoding_items(item: FieldType, bytes: Seq<u8>, count: nat) -> Decoded<Seq<Datum>>
    decreases item.depth(), item, count + 1,
{
    if count == 0 {
        Ok((Seq::<Datum>::empty(), 0))
    } else {
        match decoding(item, bytes) {
            Err(fault) => Err(fault),
            Ok((first, k)) => match decoding_items(item, bytes.skip(k), (count - 1) as nat) {
                Err(fault) => Err(fault),
                Ok((rest, m)) => Ok((seq![first] + rest, k + m)),
            },
        }
    }
}

/// What reading one value for each of `fields`, in order, gives. The first
/// fault ends the reading.
pub open spec fn decoding_fields(fields: Seq<FieldType>, bytes: Seq<u8>) -> Decoded<Seq<Datum>>
    decreases fields_depth(fields), fields, 0nat,
{
    if fields.len() == 0 {
        Ok((Seq::<Datum>::empty(), 0))
    } else {
        match decoding(fields[0], bytes) {
            Err(fault) => Err(fault),
            Ok((first, k)) => match decoding_fields(fields.drop_first(), bytes.skip(k)) {
                Err(fault) => Err(fault),
                Ok((rest, m)) => Ok((seq![first] + rest, k + m)),
            },
        }
    }
}

/// The result of a reading of several values of which `done` have been read
/// from `consumed` bytes already, and `rest` is what reading the others gives.
pub open spec fn continued(done: Seq<Datum>, consumed: int, rest: Decoded<Seq<Datum>>) -> Decoded<
    Seq<Datum>,
> {
    match rest {
        Err(fault) => Err(fault),
        Ok((values, k)) => Ok((done + values, consumed + k)),
    }
}

/// The result of a writing of several values of which `done` have been
/// written already, and `rest` is what writing the others gives.
pub open spec fn appended(done: Seq<u8>, rest: Encoded) -> Encoded {
    match rest {
        Err(fault) => Err(fault),
        Ok(bytes) => Ok(done + bytes),
    }
}

/// A length in its prefix, then `data`; a fault if the prefix cannot hold
/// the length.
pub open spec fn encoding_bytes(prefix: Prefix, data: Seq<u8>) -> Encoded {
    if data.len() > prefix.max() {
        Err(too_large(data.len(), prefix))
    } else {
        Ok(be_bytes(data.len(), prefix.width()) + data)
    }
}

/// What a stat is written as: the byte of its type, then its value.
pub open spec fn encoding_stat(stat: StatModel) -> Encoded {
    match stat {
        StatModel::Integer(stat_type, v) => Ok(
            seq![stat_type.byte()] + be_bytes(as_unsigned(v as int, 4), 4),
        ),
        StatModel::String(stat_type, text) => match encoding_bytes(
            Prefix::U16,
            encode_utf8(text),
        ) {
            Err(fault) => Err(fault),
            Ok(bytes) => Ok(seq![stat_type.byte()] + bytes),
        },
    }
}

/// What a value `d` of type `ty` is written as. A value of another type is
/// not written at all.
pub open spec fn encoding(ty: FieldType, d: Datum) -> Encoded
    decreases ty.depth(), ty, 0nat,
{
    match (ty, d) {
        (FieldType::U8, Datum::U8(v)) => Ok(be_bytes(v as nat, 1)),
        (FieldType::U16, Datum::U16(v)) => Ok(be_bytes(v as nat, 2)),
        (FieldType::U32, Datum::U32(v)) => Ok(be_bytes(v as nat, 4)),
        (FieldType::U64, Datum::U64(v)) => Ok(be_bytes(v as nat, 8)),
        (FieldType::I8, Datum::I8(v)) => Ok(be_bytes(as_unsigned(v as int, 1), 1)),
        (FieldType::I16, Datum::I16(v)) => Ok(be_bytes(as_unsigned(v as int, 2), 2)),
        (FieldType::I32, Datum::I32(v)) => Ok(be_bytes(as_unsigned(v as int, 4), 4)),
        (FieldType::I64, Datum::I64(v)) => Ok(be_bytes(as_unsigned(v as int, 8), 8)),
        (FieldType::F32, Datum::F32(v)) => Ok(be_bytes(v as nat, 4)),
        (FieldType::F64, Datum::F64(v)) => Ok(be_bytes(v as nat, 8)),
        (FieldType::Bool, Datum::Bool(v)) => Ok(
            seq![if v {
                1u8
            } else {
                0u8
            }],
        ),
        (FieldType::Unit, Datum::Unit) => Ok(Seq::<u8>::empty()),
        (FieldType::Str(prefix), Datum::Str(text)) => encoding_bytes(prefix, encode_utf8(text)),
        (FieldType::Bytes(prefix), Datum::Bytes(data)) => encoding_bytes(prefix, data),
        (FieldType::List(prefix, item), Datum::List(items)) => {
            if items.len() > prefix.max() {
                Err(too_large(items.len(), prefix))
            } else {
                match encoding_items(*item, items) {
                    Err(fault) => Err(fault),
                    Ok(bytes) => Ok(be_bytes(items.len(), prefix.width()) + bytes),
                }
            }
        },
        (FieldType::Optional(_), Datum::Opt(None)) => Ok(Seq::<u8>::empty()),
        (FieldType::Optional(inner), Datum::Opt(Some(value))) => encoding(*inner, *value),
        (FieldType::Remaining, Datum::Bytes(data)) => Ok(data),
        (FieldType::Stat, Datum::Stat(stat)) => encoding_stat(stat),
        (FieldType::Data(data), Datum::Record(values)) => {
            proof {
                lemma_schema_depth(data);
            }
            encoding_fields(data.schema(), values)
        },
        _ => Ok(Seq::<u8>::empty()),
    }
}

/// What `items`, each of type `item`, are written as, one after the other.
/// The first fault ends the writing.
pub open spec fn encoding_items(item: FieldType, items: Seq<Datum>) -> Encoded
    decreases item.depth(), item, items.len() + 1,
{
    if items.len() == 0 {
        Ok(Seq::<u8>::empty())
    } else {
        match encoding(item, items[0]) {
            Err(fault) => Err(fault),
            Ok(first) => match encoding_items(item, items.drop_first()) {
                Err(fault) => Err(fault),
                Ok(rest) => Ok(first + rest),
            },
        }
    }
}

/// What `values`, one for each of `fields`, are written as, in order. The
/// first fault ends the writing.
pub open spec fn encoding_fields(fields: Seq<FieldType>, values: Seq<Datum>) -> Encoded
    decreases fields_depth(fields), fields, 0nat,
{
    if fields.len() == 0 || values.len() == 0 {
        Ok(Seq::<u8>::empty())
    } else {
        match encoding(fields[0], values[0]) {
            Err(fault) => Err(fault),
            Ok(first) => match encoding_fields(fields.drop_first(), values.drop_first()) {
                Err(fault) => Err(fault),
                Ok(rest) => Ok(first + rest),
            },
        }
    }
}

} // verus!
