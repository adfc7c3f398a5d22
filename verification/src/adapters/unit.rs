//! The field that takes no bytes.

use vstd::prelude::*;
use crate::adapters::{FromPacketBytes, PacketField, PacketFormatError, PacketReader, ToPacketBytes};
use crate::structured::schema::FieldType;
use crate::structured::value::Datum;

verus! {

impl PacketField for () {
    type Output = ();

    open spec fn field_type() -> FieldType {
        FieldType::Unit
    }

    open spec fn model(value: &()) -> Datum {
        Datum::Unit
    }
}

impl FromPacketBytes for () {
    fn from_packet(reader: &mut PacketReader) -> (r: Result<(), Box<PacketFormatError>>) {
        assert(reader@.skip(0) =~= reader@);
        Ok(())
    }
}

impl ToPacketBytes for () {
    fn to_packet(value: &(), packet: &mut Vec<u8>) -> (r: Result<(), Box<PacketFormatError>>) {
        assert(packet@ =~= old(packet)@ + Seq::<u8>::empty());
        Ok(())
    }
}

} // verus!
