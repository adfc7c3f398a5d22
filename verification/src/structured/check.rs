//! Checking that values have the types that a schema declares.

use vstd::prelude::*;
use crate::structured::schema::{fields_depth, lemma_field_depth, lemma_schema_depth, FieldType};
use crate::structured::value::{
    conforms, fields_conform, items_conform, lemma_fields_conform, models, Datum, Value,
};

verus! {

/// Check whether `value` is a value of type `ty`.
#[verifier::rlimit(50)]
pub fn value_conforms(ty: &FieldType, value: &Value) -> (r: bool)
    ensures
        r == conforms(*ty, value.model()),
    decreases ty.depth(), *ty, 0nat,
{
    match (ty, value) {
        (FieldType::U8, Value::U8(_)) => true,
        (FieldType::U16, Value::U16(_)) => true,
        (FieldType::U32, Value::U32(_)) => true,
        (FieldType::U64, Value::U64(_)) => true,
        (FieldType::I8, Value::I8(_)) => true,
        (FieldType::I16, Value::I16(_)) => true,
        (FieldType::I32, Value::I32(_)) => true,
        (FieldType::I64, Value::I64(_)) => true,
        (FieldType::F32, Value::F32(_)) => true,
        (FieldType::F64, Value::F64(_)) => true,
        (FieldType::Bool, Value::Bool(_)) => true,
        (FieldType::Unit, Value::Unit) => true,
        (FieldType::Str(_), Value::Str(_)) => true,
        (FieldType::Bytes(_), Value::Bytes(_)) => true,
        (FieldType::List(_, item), Value::List(items)) => {
            assert(value.model()->List_0 =~= models(items@));
            all_conform(item, items)
        },
        (FieldType::Optional(_), Value::Opt(None)) => true,
        (FieldType::Optional(inner), Value::Opt(Some(inner_value))) => value_conforms(
            inner,
            inner_value,
        ),
        (FieldType::Remaining, Value::Bytes(_)) => true,
        (FieldType::Stat, Value::Stat(_)) => true,
        (FieldType::Data(data), Value::Record(values)) => {
            proof {
                lemma_schema_depth(*data);
                assert(value.model()->Record_0 =~= models(values@));
            }
            let fields = data.fields();
            values_conform(&fields, values)
        },
        _ => false,
    }
}

/// Check whether each of `items` is a value of type `item`.
pub fn all_conform(item: &FieldType, items: &Vec<Value>) -> (r: bool)
    ensures
        r == items_conform(*item, models(items@)),
    decreases item.depth(), *item, items@.len() + 1,
{
    let ghost all = models(items@);
    let mut i: usize = 0;
    proof {
        assert(all.skip(0) =~= all);
    }
    while i < items.len()
        invariant
            i <= items@.len(),
            all == models(items@),
            items_conform(*item, all) == items_conform(*item, all.skip(i as int)),
        decreases items@.len() - i,
    {
        proof {
            assert(all.skip(i as int)[0] == items@[i as int].model());
            assert(all.skip(i as int).drop_first() =~= all.skip(i + 1));
        }
        if !value_conforms(item, &items[i]) {
            return false;
        }
        i = i + 1;
    }
    proof {
        assert(all.skip(items@.len() as int) =~= Seq::<Datum>::empty());
    }
    true
}

/// Check whether `values` holds one value for each of `fields`, of its type.
pub fn values_conform(fields: &Vec<FieldType>, values: &Vec<Value>) -> (r: bool)
    ensures
        r == fields_conform(fields@, models(values@)),
    decreases fields_depth(fields@), fields@, 0nat,
{
    let ghost all = models(values@);
    if fields.len() != values.len() {
        proof {
            if fields_conform(fields@, all) {
                lemma_fields_conform(fields@, all, 0);
            }
        }
        return false;
    }
    let mut i: usize = 0;
    proof {
        assert(all.skip(0) =~= all);
        assert(fields@.skip(0) =~= fields@);
    }
    while i < fields.len()
        invariant
            i <= fields@.len(),
            fields@.len() == values@.len(),
            all == models(values@),
            fields_conform(fields@, all) == fields_conform(
                fields@.skip(i as int),
                all.skip(i as int),
            ),
        decreases fields@.len() - i,
    {
        proof {
            lemma_field_depth(fields@, i as int);
            assert(all.skip(i as int)[0] == values@[i as int].model());
            assert(fields@.skip(i as int)[0] == fields@[i as int]);
            assert(all.skip(i as int).drop_first() =~= all.skip(i + 1));
            assert(fields@.skip(i as int).drop_first() =~= fields@.skip(i + 1));
        }
        if !value_conforms(&fields[i], &values[i]) {
            return false;
        }
        i = i + 1;
    }
    proof {
        assert(fields@.skip(fields@.len() as int) =~= Seq::<FieldType>::empty());
        assert(all.skip(fields@.len() as int) =~= Seq::<Datum>::empty());
    }
    true
}

} // verus!
