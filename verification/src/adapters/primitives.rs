//! Integers and booleans: big-endian on the wire.

use vstd::prelude::*;
use crate::adapters::{FromPacketBytes, PacketField, PacketFormatError, PacketReader, ToPacketBytes};
use crate::structured::decode::decode_value;
use crate::structured::encode::encode_value;
use crate::structured::schema::FieldType;
use crate::structured::value::{Datum, Value};

verus! {

impl PacketField for u8 {
    type Output = u8;

    open spec fn field_type() -> FieldType {
        FieldType::U8
    }

    open spec fn model(value: &u8) -> Datum {
        Datum::U8(*value)
    }
}

impl FromPacketBytes for u8 {
    fn from_packet(reader: &mut PacketReader) -> (r: Result<u8, Box<PacketFormatError>>) {
        match decode_value(&FieldType::U8, reader)? {
            Value::U8(value) => Ok(value),
            _ => {
                assert(false);
                Ok(0)
            },
        }
    }
}

impl ToPacketBytes for u8 {
    fn to_packet(value: &u8, packet: &mut Vec<u8>) -> (r: Result<(), Box<PacketFormatError>>) {
        encode_value(&FieldType::U8, &Value::U8(*value), packet)
    }
}

impl PacketField for u16 {
    type Output = u16;

    open spec fn field_type() -> FieldType {
        FieldType::U16
    }

    open spec fn model(value: &u16) -> Datum {
        Datum::U16(*value)
    }
}

impl FromPacketBytes for u16 {
    fn from_packet(reader: &mut PacketReader) -> (r: Result<u16, Box<PacketFormatError>>) {
        match decode_value(&FieldType::U16, reader)? {
            Value::U16(value) => Ok(value),
            _ => {
                assert(false);
                Ok(0)
            },
        }
    }
}

impl ToPacketBytes for u16 {
    fn to_packet(value: &u16, packet: &mut Vec<u8>) -> (r: Result<(), Box<PacketFormatError>>) {
        encode_value(&FieldType::U16, &Value::U16(*value), packet)
    }
}

impl PacketField for u32 {
    type Output = u32;

    open spec fn field_type() -> FieldType {
        FieldType::U32
    }

    open spec fn model(value: &u32) -> Datum {
        Datum::U32(*value)
    }
}

impl FromPacketBytes for u32 {
    fn from_packet(reader: &mut PacketReader) -> (r: Result<u32, Box<PacketFormatError>>) {
        match decode_value(&FieldType::U32, reader)? {
            Value::U32(value) => Ok(value),
            _ => {
                assert(false);
                Ok(0)
            },
        }
    }
}

impl ToPacketBytes for u32 {
    fn to_packet(value: &u32, packet: &mut Vec<u8>) -> (r: Result<(), Box<PacketFormatError>>) {
        encode_value(&FieldType::U32, &Value::U32(*value), packet)
    }
}

impl PacketField for u64 {
    type Output = u64;

    open spec fn field_type() -> FieldType {
        FieldType::U64
    }

    open spec fn model(value: &u64) -> Datum {
        Datum::U64(*value)
    }
}

impl FromPacketBytes for u64 {
    fn from_packet(reader: &mut PacketReader) -> (r: Result<u64, Box<PacketFormatError>>) {
        match decode_value(&FieldType::U64, reader)? {
            Value::U64(value) => Ok(value),
            _ => {
                assert(false);
                Ok(0)
            },
        }
    }
}

impl ToPacketBytes for u64 {
    fn to_packet(value: &u64, packet: &mut Vec<u8>) -> (r: Result<(), Box<PacketFormatError>>) {
        encode_value(&FieldType::U64, &Value::U64(*value), packet)
    }
}

impl PacketField for i8 {
    type Output = i8;

    open spec fn field_type() -> FieldType {
        FieldType::I8
    }

    open spec fn model(value: &i8) -> Datum {
        Datum::I8(*value)
    }
}

impl FromPacketBytes for i8 {
    fn from_packet(reader: &mut PacketReader) -> (r: Result<i8, Box<PacketFormatError>>) {
        match decode_value(&FieldType::I8, reader)? {
            Value::I8(value) => Ok(value),
            _ => {
                assert(false);
                Ok(0)
            },
        }
    }
}

impl ToPacketBytes for i8 {
    fn to_packet(value: &i8, packet: &mut Vec<u8>) -> (r: Result<(), Box<PacketFormatError>>) {
        encode_value(&FieldType::I8, &Value::I8(*value), packet)
    }
}

impl PacketField for i16 {
    type Output = i16;

    open spec fn field_type() -> FieldType {
        FieldType::I16
    }

    open spec fn model(value: &i16) -> Datum {
        Datum::I16(*value)
    }
}

impl FromPacketBytes for i16 {
    fn from_packet(reader: &mut PacketReader) -> (r: Result<i16, Box<PacketFormatError>>) {
        match decode_value(&FieldType::I16, reader)? {
            Value::I16(value) => Ok(value),
            _ => {
                assert(false);
                Ok(0)
            },
        }
    }
}

impl ToPacketBytes for i16 {
    fn to_packet(value: &i16, packet: &mut Vec<u8>) -> (r: Result<(), Box<PacketFormatError>>) {
        encode_value(&FieldType::I16, &Value::I16(*value), packet)
    }
}

impl PacketField for i32 {
    type Output = i32;

    open spec fn field_type() -> FieldType {
        FieldType::I32
    }

    open spec fn model(value: &i32) -> Datum {
        Datum::I32(*value)
    }
}

impl FromPacketBytes for i32 {
    fn from_packet(reader: &mut PacketReader) -> (r: Result<i32, Box<PacketFormatError>>) {
        match decode_value(&FieldType::I32, reader)? {
            Value::I32(value) => Ok(value),
            _ => {
                assert(false);
                Ok(0)
            },
        }
    }
}

impl ToPacketBytes for i32 {
    fn to_packet(value: &i32, packet: &mut Vec<u8>) -> (r: Result<(), Box<PacketFormatError>>) {
        encode_value(&FieldType::I32, &Value::I32(*value), packet)
    }
}

impl PacketField for i64 {
    type Output = i64;

    open spec fn field_type() -> FieldType {
        FieldType::I64
    }

    open spec fn model(value: &i64) -> Datum {
        Datum::I64(*value)
    }
}

impl FromPacketBytes for i64 {
    fn from_packet(reader: &mut PacketReader) -> (r: Result<i64, Box<PacketFormatError>>) {
        match decode_value(&FieldType::I64, reader)? {
            Value::I64(value) => Ok(value),
            _ => {
                assert(false);
                Ok(0)
            },
        }
    }
}

impl ToPacketBytes for i64 {
    fn to_packet(value: &i64, packet: &mut Vec<u8>) -> (r: Result<(), Box<PacketFormatError>>) {
        encode_value(&FieldType::I64, &Value::I64(*value), packet)
    }
}

impl PacketField for bool {
    type Output = bool;

    open spec fn field_type() -> FieldType {
        FieldType::Bool
    }

    open spec fn model(value: &bool) -> Datum {
        Datum::Bool(*value)
    }
}

impl FromPacketBytes for bool {
    fn from_packet(reader: &mut PacketReader) -> (r: Result<bool, Box<PacketFormatError>>) {
        match decode_value(&FieldType::Bool, reader)? {
            Value::Bool(value) => Ok(value),
            _ => {
                assert(false);
                Ok(false)
            },
        }
    }
}

impl ToPacketBytes for bool {
    fn to_packet(value: &bool, packet: &mut Vec<u8>) -> (r: Result<(), Box<PacketFormatError>>) {
        encode_value(&FieldType::Bool, &Value::Bool(*value), packet)
    }
}

} // verus!
