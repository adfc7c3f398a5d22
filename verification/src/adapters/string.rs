//! Strings behind their length, and stats.

use vstd::prelude::*;
use crate::adapters::{
    FromPacketBytes, LengthPrefix, PacketField, PacketFormatError, PacketReader, ToPacketBytes,
    WithLen,
};
use crate::structured::decode::{decode_stat, decode_str};
use crate::structured::encode::{encode_bytes, encode_stat};
use crate::structured::schema::FieldType;
use crate::structured::stat::StatData;
use crate::structured::value::Datum;

verus! {

impl<N: LengthPrefix> PacketField for WithLen<N, String> {
    type Output = String;

    open spec fn field_type() -> FieldType {
        FieldType::Str(N::prefix())
    }

    open spec fn model(value: &String) -> Datum {
        Datum::Str(value@)
    }
}

impl<N: LengthPrefix> FromPacketBytes for WithLen<N, String> {
    fn from_packet(reader: &mut PacketReader) -> (r: Result<String, Box<PacketFormatError>>) {
        decode_str(N::width_of(), reader)
    }
}

impl<N: LengthPrefix> ToPacketBytes for WithLen<N, String> {
    fn to_packet(value: &String, packet: &mut Vec<u8>) -> (r: Result<
        (),
        Box<PacketFormatError>,
    >) {
        encode_bytes(N::width_of(), value.as_str().as_bytes(), packet)
    }
}

impl PacketField for StatData {
    type Output = StatData;

    open spec fn field_type() -> FieldType {
        FieldType::Stat
    }

    open spec fn model(value: &StatData) -> Datum {
        Datum::Stat(value@)
    }
}

impl FromPacketBytes for StatData {
    fn from_packet(reader: &mut PacketReader) -> (r: Result<StatData, Box<PacketFormatError>>) {
        decode_stat(reader)
    }
}

impl ToPacketBytes for StatData {
    fn to_packet(value: &StatData, packet: &mut Vec<u8>) -> (r: Result<
        (),
        Box<PacketFormatError>,
    >) {
        encode_stat(value, packet)
    }
}

} // verus!
