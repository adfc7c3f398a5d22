//! The values of fields, and what it means for a value to have a type.

use vstd::prelude::*;
use crate::structured::schema::{fields_depth, lemma_schema_depth, DataType, FieldType};
use crate::structured::stat::{StatData, StatModel};

verus! {

/// The value of a field.
#[derive(Debug, PartialEq, Eq)]
pub enum Value {
    U8(u8),
    U16(u16),
    U32(u32),
    U64(u64),
    I8(i8),
    I16(i16),
    I32(i32),
    I64(i64),
    /// The bits of an IEEE-754 single.
    F32(u32),
    /// The bits of an IEEE-754 double.
    F64(u64),
    Bool(bool),
    Unit,
    Str(String),
    Bytes(Vec<u8>),
    List(Vec<Value>),
    Opt(Option<Box<Value>>),
    Stat(StatData),
    /// The values of the fields of a record, in their declared order.
    Record(Vec<Value>),
}

/// The mathematical value of a field.
pub enum Datum {
    U8(u8),
    U16(u16),
    U32(u32),
    U64(u64),
    I8(i8),
    I16(i16),
    I32(i32),
    I64(i64),
    F32(u32),
    F64(u64),
    Bool(bool),
    Unit,
    Str(Seq<char>),
    Bytes(Seq<u8>),
    List(Seq<Datum>),
    Opt(Option<Box<Datum>>),
    Stat(StatModel),
    Record(Seq<Datum>),
}

impl Value {
    /// The mathematical value of this value.
    pub open spec fn model(&self) -> Datum
        decreases self,
    {
        match self {
            Value::U8(v) => Datum::U8(*v),
            Value::U16(v) => Datum::U16(*v),
            Value::U32(v) => Datum::U32(*v),
            Value::U64(v) => Datum::U64(*v),
            Value::I8(v) => Datum::I8(*v),
            Value::I16(v) => Datum::I16(*v),
            Value::I32(v) => Datum::I32(*v),
            Value::I64(v) => Datum::I64(*v),
            Value::F32(v) => Datum::F32(*v),
            Value::F64(v) => Datum::F64(*v),
            Value::Bool(v) => Datum::Bool(*v),
            Value::Unit => Datum::Unit,
            Value::Str(s) => Datum::Str(s@),
            Value::Bytes(b) => Datum::Bytes(b@),
            Value::List(items) => Datum::List(
                Seq::new(
                    items@.len(),
                    |i: int|
                        if 0 <= i < items@.len() {
                            items@[i].model()
                        } else {
                            Datum::Unit
                        },
                ),
            ),
            Value::Opt(None) => Datum::Opt(None),
            Value::Opt(Some(inner)) => Datum::Opt(Some(Box::new((**inner).model()))),
            Value::Stat(stat) => Datum::Stat(stat@),
            Value::Record(fields) => Datum::Record(
                Seq::new(
                    fields@.len(),
                    |i: int|
                        if 0 <= i < fields@.len() {
                            fields@[i].model()
                        } else {
                            Datum::Unit
                        },
                ),
            ),
        }
    }
}

impl Value {
    /// A copy of this value.
    pub fn duplicate(&self) -> (r: Value)
        ensures
            r.model() == self.model(),
        decreases self,
    {
        match self {
            Value::U8(v) => Value::U8(*v),
            Value::U16(v) => Value::U16(*v),
            Value::U32(v) => Value::U32(*v),
            Value::U64(v) => Value::U64(*v),
            Value::I8(v) => Value::I8(*v),
            Value::I16(v) => Value::I16(*v),
            Value::I32(v) => Value::I32(*v),
            Value::I64(v) => Value::I64(*v),
            Value::F32(v) => Value::F32(*v),
            Value::F64(v) => Value::F64(*v),
            Value::Bool(v) => Value::Bool(*v),
            Value::Unit => Value::Unit,
            Value::Str(s) => Value::Str(s.clone()),
            Value::Bytes(b) => {
                let copy = b.clone();
                assert(copy@ =~= b@);
                Value::Bytes(copy)
            },
            Value::List(items) => {
                let copy = duplicate_all(items);
                let r = Value::List(copy);
                assert(r.model()->List_0 =~= models(copy@));
                assert(self.model()->List_0 =~= models(items@));
                r
            },
            Value::Opt(None) => Value::Opt(None),
            Value::Opt(Some(inner)) => Value::Opt(Some(Box::new(inner.duplicate()))),
            Value::Stat(StatData::String(t, s)) => Value::Stat(StatData::String(*t, s.clone())),
            Value::Stat(StatData::Integer(t, v)) => Value::Stat(StatData::Integer(*t, *v)),
            Value::Record(fields) => {
                let copy = duplicate_all(fields);
                let r = Value::Record(copy);
                assert(r.model()->Record_0 =~= models(copy@));
                assert(self.model()->Record_0 =~= models(fields@));
                r
            },
        }
    }
}

/// Copies of the given values.
pub fn duplicate_all(values: &Vec<Value>) -> (r: Vec<Value>)
    ensures
        models(r@) == models(values@),
    decreases values,
{
    let mut copy: Vec<Value> = Vec::new();
    let mut i: usize = 0;
    while i < values.len()
        invariant
            i <= values@.len(),
            copy@.len() == i,
            forall|k: int| 0 <= k < i ==> (#[trigger] copy@[k]).model() == values@[k].model(),
        decreases values@.len() - i,
    {
        copy.push(values[i].duplicate());
        i = i + 1;
    }
    assert(models(copy@) =~= models(values@));
    copy
}

impl Clone for Value {
    fn clone(&self) -> (r: Self)
        ensures
            r.model() == self.model(),
    {
        self.duplicate()
    }
}

impl DeepView for Value {
    type V = Datum;

    open spec fn deep_view(&self) -> Datum {
        self.model()
    }
}

/// The mathematical values of a sequence of values.
pub open spec fn models(values: Seq<Value>) -> Seq<Datum> {
    Seq::new(values.len(), |i: int| values[i].model())
}

/// Whether `d` is a value of type `ty`.
pub open spec fn conforms(ty: FieldType, d: Datum) -> bool
    decreases ty.depth(), ty, 0nat,
{
    match (ty, d) {
        (FieldType::U8, Datum::U8(_)) => true,
        (FieldType::U16, Datum::U16(_)) => true,
        (FieldType::U32, Datum::U32(_)) => true,
        (FieldType::U64, Datum::U64(_)) => true,
        (FieldType::I8, Datum::I8(_)) => true,
        (FieldType::I16, Datum::I16(_)) => true,
        (FieldType::I32, Datum::I32(_)) => true,
        (FieldType::I64, Datum::I64(_)) => true,
        (FieldType::F32, Datum::F32(_)) => true,
        (FieldType::F64, Datum::F64(_)) => true,
        (FieldType::Bool, Datum::Bool(_)) => true,
        (FieldType::Unit, Datum::Unit) => true,
        (FieldType::Str(_), Datum::Str(_)) => true,
        (FieldType::Bytes(_), Datum::Bytes(_)) => true,
        (FieldType::List(_, item), Datum::List(items)) => items_conform(*item, items),
        (FieldType::Optional(_), Datum::Opt(None)) => true,
        (FieldType::Optional(inner), Datum::Opt(Some(value))) => conforms(*inner, *value),
        (FieldType::Remaining, Datum::Bytes(_)) => true,
        (FieldType::Stat, Datum::Stat(_)) => true,
        (FieldType::Data(data), Datum::Record(values)) => {
            proof {
                lemma_schema_depth(data);
            }
            fields_conform(data.schema(), values)
        },
        _ => false,
    }
}

/// Whether each of `items` is a value of type `item`.
pub open spec fn items_conform(item: FieldType, items: Seq<Datum>) -> bool
    decreases item.depth(), item, items.len() + 1,
{
    if items.len() == 0 {
        true
    } else {
        conforms(item, items[0]) && items_conform(item, items.drop_first())
    }
}

/// Whether `values` holds one value for each of `fields`, of its type.
pub open spec fn fields_conform(fields: Seq<FieldType>, values: Seq<Datum>) -> bool
    decreases fields_depth(fields), fields, 0nat,
{
    if fields.len() == 0 {
        values.len() == 0
    } else {
        &&& values.len() > 0
        &&& conforms(fields[0], values[0])
        &&& fields_conform(fields.drop_first(), values.drop_first())
    }
}

/// Each of a list of conforming items conforms.
pub proof fn lemma_items_conform(item: FieldType, items: Seq<Datum>, i: int)
    requires
        items_conform(item, items),
        0 <= i < items.len(),
    ensures
        conforms(item, items[i]),
        items_conform(item, items.skip(i)),
    decreases i,
{
    if i > 0 {
        lemma_items_conform(item, items.drop_first(), i - 1);
        assert(items.drop_first().skip(i - 1) =~= items.skip(i));
    } else {
        assert(items.skip(0) =~= items);
    }
}

/// Conforming values are as many as the fields, and each conforms to its
/// field.
pub proof fn lemma_fields_conform(fields: Seq<FieldType>, values: Seq<Datum>, i: int)
    requires
        fields_conform(fields, values),
        0 <= i <= fields.len(),
    ensures
        values.len() == fields.len(),
        fields_conform(fields.skip(i), values.skip(i)),
        i < fields.len() ==> conforms(fields[i], values[i]),
    decreases fields.len(),
{
    if fields.len() > 0 {
        lemma_fields_conform(fields.drop_first(), values.drop_first(), 0);
        if i > 0 {
            lemma_fields_conform(fields.drop_first(), values.drop_first(), i - 1);
            assert(fields.drop_first().skip(i - 1) =~= fields.skip(i));
            assert(values.drop_first().skip(i - 1) =~= values.skip(i));
        } else {
            assert(fields.skip(0) =~= fields);
            assert(values.skip(0) =~= values);
        }
    } else {
        assert(fields.skip(0) =~= fields);
        assert(values.skip(0) =~= values);
    }
}

/// Whether every stat inside `d` holds a value of the kind that its type
/// calls for.
pub open spec fn stats_well_typed(d: Datum) -> bool
    decreases d,
{
    match d {
        Datum::List(items) => forall|i: int| 0 <= i < items.len() ==> stats_well_typed(items[i]),
        Datum::Opt(Some(value)) => stats_well_typed(*value),
        Datum::Stat(stat) => stat.well_typed(),
        Datum::Record(values) => forall|i: int|
            0 <= i < values.len() ==> stats_well_typed(values[i]),
        _ => true,
    }
}

} // verus!
