//! The encodings that the fields of packets are declared with.

use vstd::prelude::*;
use crate::adapters::Prefix;

verus! {

/// A record type that packets use for a group of fields, or for the items
/// of a list.
#[derive(Debug, Clone, Copy, PartialEq, Eq, Hash, Structural)]
pub enum DataType {
    GroundTileData,
    MoveRecord,
    ObjectData,
    ObjectStatusData,
    SlotObjectData,
    TradeItem,
    WorldPosData,
}

/// The encoding of a field.
#[derive(Debug, PartialEq, Eq)]
pub enum FieldType {
    /// Integers, big-endian on the wire.
    U8,
    U16,
    U32,
    U64,
    I8,
    I16,
    I32,
    I64,
    /// IEEE-754 numbers, big-endian on the wire; a value holds their bits.
    F32,
    F64,
    /// One byte: zero is false, anything else is true; true is written as 1.
    Bool,
    /// No bytes at all.
    Unit,
    /// A length, then that many bytes of UTF-8.
    Str(Prefix),
    /// A length, then that many bytes.
    Bytes(Prefix),
    /// A length, then that many items, one after the other.
    List(Prefix, Box<FieldType>),
    /// Present if and only if bytes remain: only for trailing fields.
    Optional(Box<FieldType>),
    /// All the bytes that remain: only for the last field.
    Remaining,
    /// A stat: its type, then a string or an integer according to the type.
    Stat,
    /// The fields of a record, in their declared order.
    Data(DataType),
}

impl DataType {
    /// The types of the fields of the record, in their declared order.
    pub open spec fn schema(self) -> Seq<FieldType> {
        match self {
            DataType::GroundTileData => seq![FieldType::I16, FieldType::I16, FieldType::U16],
            DataType::MoveRecord => seq![FieldType::U32, FieldType::F32, FieldType::F32],
            DataType::ObjectData => seq![
                FieldType::U16,
                FieldType::Data(DataType::ObjectStatusData),
            ],
            DataType::ObjectStatusData => seq![
                FieldType::U32,
                FieldType::Data(DataType::WorldPosData),
                FieldType::List(Prefix::U16, Box::new(FieldType::Stat)),
            ],
            DataType::SlotObjectData => seq![FieldType::U32, FieldType::U8, FieldType::U32],
            DataType::TradeItem => seq![
                FieldType::U32,
                FieldType::U32,
                FieldType::Bool,
                FieldType::Bool,
            ],
            DataType::WorldPosData => seq![FieldType::F32, FieldType::F32],
        }
    }

    /// How deep records nest inside this one.
    pub open spec fn depth(self) -> nat {
        match self {
            DataType::ObjectData => 2,
            DataType::ObjectStatusData => 1,
            _ => 0,
        }
    }

    /// The fields of the record, in their declared order.
    pub fn fields(self) -> (r: Vec<FieldType>)
        ensures
            r@ == self.schema(),
    {
        let r = match self {
            DataType::GroundTileData => vec![FieldType::I16, FieldType::I16, FieldType::U16],
            DataType::MoveRecord => vec![FieldType::U32, FieldType::F32, FieldType::F32],
            DataType::ObjectData => vec![
                FieldType::U16,
                FieldType::Data(DataType::ObjectStatusData),
            ],
            DataType::ObjectStatusData => vec![
                FieldType::U32,
                FieldType::Data(DataType::WorldPosData),
                FieldType::List(Prefix::U16, Box::new(FieldType::Stat)),
            ],
            DataType::SlotObjectData => vec![FieldType::U32, FieldType::U8, FieldType::U32],
            DataType::TradeItem => vec![
                FieldType::U32,
                FieldType::U32,
                FieldType::Bool,
                FieldType::Bool,
            ],
            DataType::WorldPosData => vec![FieldType::F32, FieldType::F32],
        };
        assert(r@ =~= self.schema());
        r
    }

    /// The names of the fields of the record, in their declared order.
    pub open spec fn spec_field_names(self) -> Seq<&'static str> {
        match self {
            DataType::GroundTileData => seq!["x", "y", "tile_type"],
            DataType::MoveRecord => seq!["time", "x", "y"],
            DataType::ObjectData => seq!["object_type", "status"],
            DataType::ObjectStatusData => seq!["object_id", "pos", "stats"],
            DataType::SlotObjectData => seq!["object_id", "slot_id", "object_type"],
            DataType::TradeItem => seq!["item", "slot_type", "tradeable", "included"],
            DataType::WorldPosData => seq!["x", "y"],
        }
    }

    /// The names of the fields of the record, in their declared order.
    pub fn field_names(self) -> (r: Vec<&'static str>)
        ensures
            r@ == self.spec_field_names(),
            r@.len() == self.schema().len(),
    {
        let r = match self {
            DataType::GroundTileData => vec!["x", "y", "tile_type"],
            DataType::MoveRecord => vec!["time", "x", "y"],
            DataType::ObjectData => vec!["object_type", "status"],
            DataType::ObjectStatusData => vec!["object_id", "pos", "stats"],
            DataType::SlotObjectData => vec!["object_id", "slot_id", "object_type"],
            DataType::TradeItem => vec!["item", "slot_type", "tradeable", "included"],
            DataType::WorldPosData => vec!["x", "y"],
        };
        assert(r@ =~= self.spec_field_names());
        r
    }
}

impl FieldType {
    /// How deep records nest inside a field of this type.
    pub open spec fn depth(self) -> nat
        decreases self,
    {
        match self {
            FieldType::List(_, item) => item.depth(),
            FieldType::Optional(inner) => inner.depth(),
            FieldType::Data(data) => data.depth() + 1,
            _ => 0,
        }
    }

    /// Whether a field of this type reads the same whatever follows it: it
    /// holds no optional part and does not capture the bytes that remain.
    pub open spec fn self_delimiting(self) -> bool
        decreases self.depth(), self,
    {
        match self {
            FieldType::List(_, item) => item.self_delimiting(),
            FieldType::Optional(_) => false,
            FieldType::Remaining => false,
            FieldType::Data(data) => {
                proof {
                    lemma_schema_depth(data);
                }
                all_self_delimiting(data.schema())
            },
            _ => true,
        }
    }
}

/// The greatest depth among `fields`.
pub open spec fn fields_depth(fields: Seq<FieldType>) -> nat
    decreases fields.len(),
{
    if fields.len() == 0 {
        0
    } else {
        let first = fields[0].depth();
        let rest = fields_depth(fields.drop_first());
        if first >= rest {
            first
        } else {
            rest
        }
    }
}

/// Whether each of `fields` is self-delimiting.
pub open spec fn all_self_delimiting(fields: Seq<FieldType>) -> bool
    decreases fields_depth(fields), fields,
{
    if fields.len() == 0 {
        true
    } else {
        fields[0].self_delimiting() && all_self_delimiting(fields.drop_first())
    }
}

/// No field nests deeper than the fields do at most.
pub proof fn lemma_field_depth(fields: Seq<FieldType>, i: int)
    requires
        0 <= i < fields.len(),
    ensures
        fields[i].depth() <= fields_depth(fields),
        fields_depth(fields.skip(i)) <= fields_depth(fields),
    decreases i,
{
    if i > 0 {
        lemma_field_depth(fields.drop_first(), i - 1);
        assert(fields.drop_first().skip(i - 1) =~= fields.skip(i));
    } else {
        assert(fields.skip(0) =~= fields);
    }
}

/// The fields of a record nest less deep than the record itself.
#[verifier::rlimit(50)]
pub proof fn lemma_schema_depth(data: DataType)
    ensures
        fields_depth(data.schema()) <= data.depth(),
{
    reveal_with_fuel(fields_depth, 5);
    reveal_with_fuel(FieldType::depth, 3);
    let fields = data.schema();
    if fields.len() == 2 {
        assert(fields.drop_first().drop_first() =~= Seq::<FieldType>::empty());
    } else if fields.len() == 3 {
        assert(fields.drop_first().drop_first().drop_first() =~= Seq::<FieldType>::empty());
    } else {
        assert(fields.drop_first().drop_first().drop_first().drop_first()
            =~= Seq::<FieldType>::empty());
    }
}

/// Fields are all self-delimiting when each of them is.
pub proof fn lemma_all_self_delimiting(fields: Seq<FieldType>)
    ensures
        all_self_delimiting(fields) <==> forall|i: int|
            0 <= i < fields.len() ==> (#[trigger] fields[i]).self_delimiting(),
    decreases fields.len(),
{
    if fields.len() > 0 {
        let rest = fields.drop_first();
        lemma_all_self_delimiting(rest);
        if all_self_delimiting(fields) {
            assert forall|i: int| 0 <= i < fields.len() implies (#[trigger] fields[i]).self_delimiting() by {
                if i > 0 {
                    assert(rest[i - 1] == fields[i]);
                }
            }
        }
        if forall|i: int| 0 <= i < fields.len() ==> (#[trigger] fields[i]).self_delimiting() {
            assert(fields[0].self_delimiting());
            assert forall|i: int| 0 <= i < rest.len() implies (#[trigger] rest[i]).self_delimiting() by {
                assert(rest[i] == fields[i + 1]);
            }
        }
    }
}

/// Every record type is self-delimiting: no record holds an optional field
/// or captures what remains.
#[verifier::rlimit(50)]
pub proof fn lemma_records_self_delimiting(data: DataType)
    ensures
        FieldType::Data(data).self_delimiting(),
        FieldType::List(Prefix::U16, Box::new(FieldType::Data(data))).self_delimiting(),
    decreases data.depth(),
{
    reveal_with_fuel(FieldType::self_delimiting, 3);
    lemma_all_self_delimiting(data.schema());
    match data {
        DataType::ObjectData => {
            lemma_records_self_delimiting(DataType::ObjectStatusData);
        },
        DataType::ObjectStatusData => {
            lemma_records_self_delimiting(DataType::WorldPosData);
        },
        _ => {},
    }
}

} // verus!
