//! Structured packets: parsed packets that can be more easily manipulated.

use vstd::prelude::*;
use crate::adapters::{too_large, FormatFault, PacketFormatError, PacketReader, Prefix};
use crate::mappings::PacketMappings;
use crate::raw::{valid_frame, RawPacket};
use crate::structured::catalog::PacketType;
use crate::structured::check::values_conform;
use crate::structured::decode::{decode_fields, lemma_decoding_fields_within};
use crate::structured::encode::{encode_fields, extends, written};
use crate::structured::format::{decoding_fields, encoding_fields};
use crate::structured::laws::{
    all_stats_well_typed, fields_booleans_canonical, lemma_decoding_fields_conform,
    lemma_fields_reencode, lemma_fields_roundtrip,
};
use crate::structured::schema::{
    all_self_delimiting, lemma_all_self_delimiting, lemma_records_self_delimiting, DataType,
    FieldType,
};
use crate::structured::value::{duplicate_all, fields_conform, models, Datum, Value};
use crate::wire::{
    be_bytes, be_encode, lemma_be_bytes_len, lemma_be_value_of_bytes, lemma_pow256_values,
};

verus! {

/// The frame of a packet with this ID and this payload: the length of the
/// whole frame in four bytes, the ID, the payload.
pub open spec fn framed(id: u8, payload: Seq<u8>) -> Seq<u8> {
    be_bytes((5 + payload.len()) as nat, 4) + seq![id] + payload
}

/// The length of the frame around a payload of `payload` bytes, or the
/// greatest length there is, if the machine has no number for it.
pub open spec fn frame_len(payload: nat) -> usize {
    if 5 + payload > usize::MAX {
        usize::MAX
    } else {
        (5 + payload) as usize
    }
}

/// What a packet of type `typ` with the values `values` becomes as a raw
/// packet with the ID `id`: its fields are written as the payload, and the
/// frame is built around it if its length fits the four bytes of the header.
pub open spec fn raw_encoding(id: u8, typ: PacketType, values: Seq<Datum>) -> Result<
    Seq<u8>,
    FormatFault,
> {
    match encoding_fields(typ.schema(), values) {
        Err(fault) => Err(fault),
        Ok(payload) => {
            if 5 + payload.len() > 0xffff_ffff {
                Err(too_large(frame_len(payload.len()) as nat, Prefix::U32))
            } else {
                Ok(framed(id, payload))
            }
        },
    }
}

/// A structured packet: a packet type, and a value for each of its fields.
#[derive(Debug, PartialEq, Eq)]
pub struct Packet {
    typ: PacketType,
    fields: Vec<Value>,
}

impl Packet {
    /// The type of this packet.
    pub closed spec fn typ(&self) -> PacketType {
        self.typ
    }

    /// The values of the fields of this packet, in their declared order.
    pub closed spec fn values(&self) -> Seq<Datum> {
        models(self.fields@)
    }

    #[verifier::type_invariant]
    spec fn well_formed(self) -> bool {
        fields_conform(self.typ.schema(), models(self.fields@))
    }

    /// Create a packet of the given type from the values of its fields, if
    /// there is one value for each field, of the type of the field.
    pub fn new(typ: PacketType, fields: Vec<Value>) -> (r: Option<Self>)
        ensures
            r is Some <==> fields_conform(typ.schema(), models(fields@)),
            r matches Some(packet) ==> packet.typ() == typ && packet.values() == models(fields@),
    {
        let schema = typ.fields();
        if values_conform(&schema, &fields) {
            Some(Packet { typ, fields })
        } else {
            None
        }
    }

    /// Get the type of this packet.
    pub fn packet_type(&self) -> (r: PacketType)
        ensures
            r == self.typ(),
    {
        self.typ
    }

    /// Get the values of the fields of this packet: one for each field of
    /// its type, of the type of the field.
    pub fn fields(&self) -> (r: &Vec<Value>)
        ensures
            models(r@) == self.values(),
            fields_conform(self.typ().schema(), self.values()),
    {
        proof {
            use_type_invariant(self);
        }
        &self.fields
    }

    /// Read a packet of the given type from the payload of a raw packet.
    pub fn from_packet(typ: PacketType, reader: &mut PacketReader) -> (r: Result<
        Self,
        Box<PacketFormatError>,
    >)
        ensures
            match r {
                Ok(packet) => {
                    &&& decoding_fields(typ.schema(), old(reader)@) is Ok
                    &&& packet.typ() == typ
                    &&& packet.values() == decoding_fields(typ.schema(), old(reader)@)->Ok_0.0
                    &&& final(reader)@ == old(reader)@.skip(
                        decoding_fields(typ.schema(), old(reader)@)->Ok_0.1,
                    )
                },
                Err(e) => decoding_fields(typ.schema(), old(reader)@) is Err && decoding_fields(
                    typ.schema(),
                    old(reader)@,
                )->Err_0 == e@,
            },
    {
        let schema = typ.fields();
        let fields = decode_fields(&schema, reader)?;
        proof {
            lemma_decoding_fields_conform(typ.schema(), old(reader)@);
        }
        Ok(Packet { typ, fields })
    }

    /// Write the fields of this packet, in their declared order.
    pub fn to_packet(&self, packet: &mut Vec<u8>) -> (r: Result<(), Box<PacketFormatError>>)
        ensures
            written(
                encoding_fields(self.typ().schema(), self.values()),
                r,
                old(packet)@,
                final(packet)@,
            ),
    {
        proof {
            use_type_invariant(self);
        }
        let schema = self.typ.fields();
        encode_fields(&schema, &self.fields, packet)
    }

    /// Turn this packet into a raw packet: its ID is the index of the packet
    /// type in the catalog.
    pub fn into_raw(&self) -> (r: Result<RawPacket, Box<PacketFormatError>>)
        ensures
            match raw_encoding(self.typ().spec_index(), self.typ(), self.values()) {
                Ok(frame) => r matches Ok(raw) && raw.wf() && raw@ == frame,
                Err(fault) => r is Err && r->Err_0@ == fault,
            },
    {
        self.frame(self.typ.index())
    }

    /// Turn this packet into a raw packet whose ID is the one that the
    /// mappings give for the type of the packet. A type without an ID is
    /// the error `UnmappedID` of the index of the type.
    pub fn into_raw_with(&self, mappings: &PacketMappings) -> (r: Result<
        RawPacket,
        Box<PacketFormatError>,
    >)
        ensures
            match r {
                Ok(raw) => {
                    &&& mappings@.dom().contains(self.typ())
                    &&& raw.wf()
                    &&& raw_encoding(mappings@[self.typ()], self.typ(), self.values()) == Ok::<
                        Seq<u8>,
                        FormatFault,
                    >(raw@)
                },
                Err(e) => {
                    if mappings@.dom().contains(self.typ()) {
                        raw_encoding(mappings@[self.typ()], self.typ(), self.values()) == Err::<
                            Seq<u8>,
                            FormatFault,
                        >(e@)
                    } else {
                        e@ == FormatFault::UnmappedID(self.typ().spec_index())
                    }
                },
            },
    {
        match mappings.to_game(self.typ) {
            Some(id) => self.frame(id),
            None => Err(Box::new(PacketFormatError::UnmappedID(self.typ.index()))),
        }
    }

    /// The frame of this packet, with the given ID.
    #[verifier::rlimit(50)]
    fn frame(&self, id: u8) -> (r: Result<RawPacket, Box<PacketFormatError>>)
        ensures
            match raw_encoding(id, self.typ(), self.values()) {
                Ok(frame) => r matches Ok(raw) && raw.wf() && raw@ == frame,
                Err(fault) => r is Err && r->Err_0@ == fault,
            },
    {
        let mut payload: Vec<u8> = Vec::new();
        self.to_packet(&mut payload)?;
        assert(payload@ =~= encoding_fields(self.typ().schema(), self.values())->Ok_0);
        if payload.len() > 0xffff_ffff - 5 {
            let len: usize = if payload.len() > usize::MAX - 5 {
                usize::MAX
            } else {
                5 + payload.len()
            };
            return Err(Box::new(PacketFormatError::too_large(len, Prefix::U32)));
        }
        let mut frame: Vec<u8> = Vec::new();
        be_encode((5 + payload.len()) as u64, 4, &mut frame);
        frame.push(id);
        frame.extend_from_slice(payload.as_slice());
        proof {
            lemma_framed(id, payload@);
            assert(frame@ =~= framed(id, payload@));
        }
        Ok(RawPacket::from_vec(frame).unwrap())
    }
}

/// A frame that is built around a payload is a valid frame, of that ID and
/// that payload.
pub proof fn lemma_framed(id: u8, payload: Seq<u8>)
    requires
        5 + payload.len() <= 0xffff_ffff,
    ensures
        valid_frame(framed(id, payload)),
        framed(id, payload)[4] == id,
        framed(id, payload).skip(5) == payload,
{
    let len = (5 + payload.len()) as nat;
    let frame = framed(id, payload);
    lemma_pow256_values();
    lemma_be_bytes_len(len, 4);
    lemma_be_value_of_bytes(len, 4);
    assert(frame.take(4) =~= be_bytes(len, 4));
    assert(frame.skip(5) =~= payload);
}

/// A packet that is turned into a raw packet and parsed back is the same
/// packet, with nothing left over, if its type has no optional field and no
/// field that captures what remains, and its stats are well-typed: the
/// payload of the raw packet is read as the values that were written.
pub proof fn lemma_raw_roundtrip(id: u8, typ: PacketType, values: Seq<Datum>)
    requires
        fields_conform(typ.schema(), values),
        typ.self_delimiting(),
        all_stats_well_typed(values),
        raw_encoding(id, typ, values) is Ok,
    ensures
        ({
            let frame = raw_encoding(id, typ, values)->Ok_0;
            &&& valid_frame(frame)
            &&& frame[4] == id
            &&& decoding_fields(typ.schema(), frame.skip(5)) == Ok::<
                (Seq<Datum>, int),
                FormatFault,
            >((values, frame.len() - 5))
        }),
{
    let payload = encoding_fields(typ.schema(), values)->Ok_0;
    lemma_framed(id, payload);
    lemma_fields_roundtrip(typ.schema(), values, Seq::empty());
    assert(payload + Seq::<u8>::empty() =~= payload);
}

impl Clone for Packet {
    fn clone(&self) -> (r: Self)
        ensures
            r.typ() == self.typ(),
            r.values() == self.values(),
    {
        proof {
            use_type_invariant(self);
        }
        Packet { typ: self.typ, fields: duplicate_all(&self.fields) }
    }
}

impl RawPacket {
    /// Attempt to parse this raw packet into a structured packet using the
    /// given mappings.
    ///
    /// On success, the packet will be returned, along with any remaining
    /// bytes that weren't captured (leftover bytes usually indicates
    /// out-of-date or incorrect packet definitions). If the packet ID isn't
    /// known or there's an error parsing the packet, the error will be
    /// returned instead.
    #[verifier::rlimit(50)]
    pub fn parse<'a>(&'a self, mappings: &PacketMappings) -> (r: Result<
        (Packet, &'a [u8]),
        Box<PacketFormatError>,
    >)
        requires
            self.wf(),
            mappings.wf(),
        ensures
            match r {
                Ok((packet, rest)) => {
                    let decoded = decoding_fields(packet.typ().schema(), self@.skip(5));
                    &&& mappings@.dom().contains(packet.typ())
                    &&& mappings@[packet.typ()] == self@[4]
                    &&& decoded is Ok
                    &&& packet.values() == decoded->Ok_0.0
                    &&& rest@ == self@.skip(5 + decoded->Ok_0.1)
                },
                Err(e) => {
                    ||| {
                        &&& e@ == FormatFault::UnmappedID(self@[4])
                        &&& forall|typ: PacketType|
                            mappings@.dom().contains(typ) ==> mappings@[typ] != self@[4]
                    }
                    ||| exists|typ: PacketType|
                        {
                            &&& mappings@.dom().contains(typ)
                            &&& mappings@[typ] == self@[4]
                            &&& #[trigger] decoding_fields(typ.schema(), self@.skip(5)) is Err
                            &&& decoding_fields(typ.schema(), self@.skip(5))->Err_0 == e@
                        }
                },
            },
    {
        let typ = match mappings.to_internal(self.id()) {
            Some(typ) => typ,
            None => {
                return Err(Box::new(PacketFormatError::UnmappedID(self.id())));
            },
        };
        let mut reader = PacketReader::new(self);
        match Packet::from_packet(typ, &mut reader) {
            Ok(parsed) => {
                proof {
                    let k = decoding_fields(typ.schema(), self@.skip(5))->Ok_0.1;
                    lemma_decoding_fields_within(typ.schema(), self@.skip(5));
                    assert(self@.skip(5).skip(k) =~= self@.skip(5 + k));
                }
                Ok((parsed, reader.take_all()))
            },
            Err(e) => {
                assert(decoding_fields(typ.schema(), self@.skip(5)) is Err);
                Err(e)
            },
        }
    }
}

impl PacketType {
    /// Whether a packet of this type reads the same whatever follows it: it
    /// holds no optional field and no field that captures what remains.
    pub open spec fn self_delimiting(self) -> bool {
        all_self_delimiting(self.schema())
    }
}

/// Every packet type of the catalog but two is self-delimiting: `EnemyShoot`
/// ends in optional fields, and `Pic` ends in a field that captures what
/// remains.
#[verifier::rlimit(50)]
pub proof fn lemma_self_delimiting_types(typ: PacketType)
    ensures
        typ.self_delimiting() <==> !(typ is EnemyShoot || typ is Pic),
{
    reveal_with_fuel(FieldType::self_delimiting, 3);
    lemma_all_self_delimiting(typ.schema());
    lemma_records_self_delimiting(DataType::GroundTileData);
    lemma_records_self_delimiting(DataType::MoveRecord);
    lemma_records_self_delimiting(DataType::ObjectData);
    lemma_records_self_delimiting(DataType::ObjectStatusData);
    lemma_records_self_delimiting(DataType::SlotObjectData);
    lemma_records_self_delimiting(DataType::TradeItem);
    lemma_records_self_delimiting(DataType::WorldPosData);
    if typ is EnemyShoot {
        assert(!typ.schema()[6].self_delimiting());
    } else if typ is Pic {
        assert(!typ.schema()[2].self_delimiting());
    }
}

/// A packet that is written and read back is the same packet, if its type
/// has no optional field and no field that captures what remains, and its
/// stats are well-typed.
pub proof fn lemma_packet_roundtrip(typ: PacketType, values: Seq<Datum>, rest: Seq<u8>)
    requires
        fields_conform(typ.schema(), values),
        typ.self_delimiting(),
        all_stats_well_typed(values),
        encoding_fields(typ.schema(), values) is Ok,
    ensures
        decoding_fields(typ.schema(), encoding_fields(typ.schema(), values)->Ok_0 + rest) == Ok::<
            (Seq<Datum>, int),
            FormatFault,
        >((values, encoding_fields(typ.schema(), values)->Ok_0.len() as int)),
{
    lemma_fields_roundtrip(typ.schema(), values, rest);
}

/// The bytes that a packet was read from are the bytes that the packet is
/// written as, if every boolean among them is 0 or 1.
pub proof fn lemma_packet_reencode(typ: PacketType, bytes: Seq<u8>)
    requires
        decoding_fields(typ.schema(), bytes) is Ok,
        fields_booleans_canonical(typ.schema(), bytes),
    ensures
        encoding_fields(typ.schema(), decoding_fields(typ.schema(), bytes)->Ok_0.0) == Ok::<
            Seq<u8>,
            FormatFault,
        >(bytes.take(decoding_fields(typ.schema(), bytes)->Ok_0.1)),
{
    lemma_fields_reencode(typ.schema(), bytes);
}

} // verus!
