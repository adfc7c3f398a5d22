//! Fields that are there only if bytes remain.

use vstd::prelude::*;
use crate::adapters::{FromPacketBytes, PacketField, PacketFormatError, PacketReader, ToPacketBytes};
use crate::structured::schema::FieldType;
use crate::structured::value::Datum;

verus! {

impl<T: PacketField> PacketField for Option<T> {
    type Output = Option<T::Output>;

    open spec fn field_type() -> FieldType {
        FieldType::Optional(Box::new(T::field_type()))
    }

    open spec fn model(value: &Option<T::Output>) -> Datum {
        match value {
            None => Datum::Opt(None),
            Some(inner) => Datum::Opt(Some(Box::new(T::model(inner)))),
        }
    }
}

impl<T: FromPacketBytes> FromPacketBytes for Option<T> {
    /// Bytes remain: the value is there. No bytes remain: it is not.
    fn from_packet(reader: &mut PacketReader) -> (r: Result<
        Option<T::Output>,
        Box<PacketFormatError>,
    >) {
        if reader.is_empty() {
            assert(reader@.skip(0) =~= reader@);
            Ok(None)
        } else {
            match T::from_packet(reader) {
                Ok(value) => Ok(Some(value)),
                Err(e) => Err(e),
            }
        }
    }
}

impl<T: ToPacketBytes> ToPacketBytes for Option<T> {
    /// A value that is not there is not written.
    fn to_packet(value: &Option<T::Output>, packet: &mut Vec<u8>) -> (r: Result<
        (),
        Box<PacketFormatError>,
    >) {
        match value {
            Some(inner) => T::to_packet(inner, packet),
            None => {
                assert(packet@ =~= old(packet)@ + Seq::<u8>::empty());
                Ok(())
            },
        }
    }
}

} // verus!
