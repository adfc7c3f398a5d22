//! Classes as the extractor sees them: a class joined with its instance,
//! with the names resolved to strings and the values of the slots and of the
//! constants taken out of the pools.

use vstd::prelude::*;
use crate::avm2::abcfile::{AbcFile, AbcFileModel};
use crate::avm2::constants::{ConstantPool, ConstantPoolModel, Multiname, MultinameModel};
use crate::avm2::traits::{ConstantKind, SlotData, Trait, TraitData, TraitModel};

verus! {

/// The value of a slot or of a constant.
#[derive(Debug, Clone, PartialEq, Eq)]
pub enum TraitSlotValue {
    /// No value, or a value of a kind that the extractor does not read.
    Undefined,
    String(String),
    Int(i32),
    UInt(u32),
    /// A double, as its IEEE-754 bits.
    Double(u64),
    True,
    False,
    Null,
}

/// The mathematical value of a `TraitSlotValue`.
pub enum SlotValueModel {
    Undefined,
    String(Seq<char>),
    Int(i32),
    UInt(u32),
    Double(u64),
    True,
    False,
    Null,
}

impl DeepView for TraitSlotValue {
    type V = SlotValueModel;

    open spec fn deep_view(&self) -> SlotValueModel {
        match *self {
            TraitSlotValue::Undefined => SlotValueModel::Undefined,
            TraitSlotValue::String(s) => SlotValueModel::String(s@),
            TraitSlotValue::Int(v) => SlotValueModel::Int(v),
            TraitSlotValue::UInt(v) => SlotValueModel::UInt(v),
            TraitSlotValue::Double(v) => SlotValueModel::Double(v),
            TraitSlotValue::True => SlotValueModel::True,
            TraitSlotValue::False => SlotValueModel::False,
            TraitSlotValue::Null => SlotValueModel::Null,
        }
    }
}

/// A name, resolved: its namespace and its local name.
pub type Name = (String, String);

/// The mathematical value of a `Name`.
pub type NameModel = (Seq<char>, Seq<char>);

/// A slot or a constant of a class, with its name and its value resolved.
#[derive(Debug, PartialEq, Eq)]
pub struct LinkedTrait {
    pub name: Name,
    pub value: TraitSlotValue,
}

/// The mathematical value of a `LinkedTrait`.
pub struct LinkedTraitModel {
    pub name: NameModel,
    pub value: SlotValueModel,
}

impl DeepView for LinkedTrait {
    type V = LinkedTraitModel;

    open spec fn deep_view(&self) -> LinkedTraitModel {
        LinkedTraitModel { name: (self.name.0@, self.name.1@), value: self.value.deep_view() }
    }
}

/// A class joined with its instance.
#[derive(Debug, PartialEq, Eq)]
pub struct LinkedClass {
    pub name: Name,
    /// The slots and the constants: those of the class itself, then those of
    /// its instances.
    pub consts: Vec<LinkedTrait>,
}

/// The mathematical value of a `LinkedClass`.
pub struct LinkedClassModel {
    pub name: NameModel,
    pub consts: Seq<LinkedTraitModel>,
}

impl DeepView for LinkedClass {
    type V = LinkedClassModel;

    open spec fn deep_view(&self) -> LinkedClassModel {
        LinkedClassModel {
            name: (self.name.0@, self.name.1@),
            consts: self.consts.deep_view(),
        }
    }
}

/// The string at an index of the pool; the empty string, which is also the
/// default at index 0, if the pool is not that long.
pub open spec fn string_at(pool: ConstantPoolModel, index: u32) -> Seq<char> {
    if index < pool.strings.len() {
        pool.strings[index as int]
    } else {
        Seq::empty()
    }
}

/// The name of the namespace at an index of the pool.
pub open spec fn namespace_at(pool: ConstantPoolModel, index: u32) -> Seq<char> {
    if index < pool.namespaces.len() {
        string_at(pool, pool.namespaces[index as int].name)
    } else {
        Seq::empty()
    }
}

/// The namespace and the local name of the multiname at an index of the
/// pool. What the multiname leaves to run time is the empty string.
pub open spec fn name_at(pool: ConstantPoolModel, index: u32) -> NameModel {
    if index < pool.multinames.len() {
        match pool.multinames[index as int] {
            MultinameModel::QName { namespace, name, .. } => (
                namespace_at(pool, namespace),
                string_at(pool, name),
            ),
            MultinameModel::RTQName { name, .. } => (Seq::empty(), string_at(pool, name)),
            MultinameModel::Multiname { name, .. } => (Seq::empty(), string_at(pool, name)),
            MultinameModel::TypeName { .. } => (Seq::empty(), Seq::empty()),
            _ => (Seq::empty(), Seq::empty()),
        }
    } else {
        (Seq::empty(), Seq::empty())
    }
}

/// The value that the data of a slot stands for: the constant at its index
/// in the pool of its kind, or what the kind alone says. An index that its
/// pool does not have stands for no value.
pub open spec fn value_of(pool: ConstantPoolModel, slot: SlotData) -> SlotValueModel {
    let index = slot.value_index;
    match slot.value_kind {
        ConstantKind::Utf8 => if index < pool.strings.len() {
            SlotValueModel::String(pool.strings[index as int])
        } else {
            SlotValueModel::Undefined
        },
        ConstantKind::Int => if index < pool.integers.len() {
            SlotValueModel::Int(pool.integers[index as int])
        } else {
            SlotValueModel::Undefined
        },
        ConstantKind::UInt => if index < pool.unsigned_integers.len() {
            SlotValueModel::UInt(pool.unsigned_integers[index as int])
        } else {
            SlotValueModel::Undefined
        },
        ConstantKind::Double => if index < pool.doubles.len() {
            SlotValueModel::Double(pool.doubles[index as int])
        } else {
            SlotValueModel::Undefined
        },
        ConstantKind::True => SlotValueModel::True,
        ConstantKind::False => SlotValueModel::False,
        ConstantKind::Null => SlotValueModel::Null,
        _ => SlotValueModel::Undefined,
    }
}

/// The slot or the constant that a trait is, resolved; none for a trait of
/// another kind.
pub open spec fn linked_trait(pool: ConstantPoolModel, t: TraitModel) -> Option<LinkedTraitModel> {
    match t.data {
        TraitData::Slot(slot) => Some(
            LinkedTraitModel { name: name_at(pool, t.name), value: value_of(pool, slot) },
        ),
        TraitData::Const(slot) => Some(
            LinkedTraitModel { name: name_at(pool, t.name), value: value_of(pool, slot) },
        ),
        _ => None,
    }
}

/// The slots and the constants among `traits`, resolved, in their order.
pub open spec fn linked_traits(pool: ConstantPoolModel, traits: Seq<TraitModel>) -> Seq<
    LinkedTraitModel,
>
    decreases traits.len(),
{
    if traits.len() == 0 {
        Seq::empty()
    } else {
        let before = linked_traits(pool, traits.drop_last());
        match linked_trait(pool, traits.last()) {
            Some(linked) => before.push(linked),
            None => before,
        }
    }
}

/// The class at an index of the file, joined with its instance.
pub open spec fn linked_class(file: AbcFileModel, index: int) -> LinkedClassModel {
    LinkedClassModel {
        name: name_at(file.constants, file.instances[index].name),
        consts: linked_traits(file.constants, file.classes[index].traits) + linked_traits(
            file.constants,
            file.instances[index].traits,
        ),
    }
}

/// The number of classes of the file that have both of their parts.
pub open spec fn class_count(file: AbcFileModel) -> nat {
    if file.instances.len() <= file.classes.len() {
        file.instances.len()
    } else {
        file.classes.len()
    }
}

/// The classes of the file, each joined with its instance.
pub open spec fn linked_classes(file: AbcFileModel) -> Seq<LinkedClassModel> {
    Seq::new(class_count(file), |i: int| linked_class(file, i))
}

impl ConstantPool {
    /// The string at an index of the pool; the empty string if the pool is
    /// not that long.
    pub fn string(&self, index: u32) -> (r: String)
        ensures
            r@ == string_at(self.deep_view(), index),
    {
        match self.strings.get(index) {
            Some(s) => s.clone(),
            None => String::new(),
        }
    }

    /// The name of the namespace at an index of the pool.
    pub fn namespace(&self, index: u32) -> (r: String)
        ensures
            r@ == namespace_at(self.deep_view(), index),
    {
        match self.namespaces.get(index) {
            Some(namespace) => self.string(namespace.name),
            None => String::new(),
        }
    }

    /// The namespace and the local name of the multiname at an index of the
    /// pool.
    pub fn name(&self, index: u32) -> (r: Name)
        ensures
            (r.0@, r.1@) == name_at(self.deep_view(), index),
    {
        match self.multinames.get(index) {
            Some(Multiname::QName { namespace, name, .. }) => (
                self.namespace(*namespace),
                self.string(*name),
            ),
            Some(Multiname::RTQName { name, .. }) => (String::new(), self.string(*name)),
            Some(Multiname::Multiname { name, .. }) => (String::new(), self.string(*name)),
            _ => (String::new(), String::new()),
        }
    }

    /// The value that the data of a slot stands for.
    pub fn value(&self, slot: &SlotData) -> (r: TraitSlotValue)
        ensures
            r.deep_view() == value_of(self.deep_view(), *slot),
    {
        let index: u32 = slot.value_index;
        match slot.value_kind {
            ConstantKind::Utf8 => match self.strings.get(index) {
                Some(s) => TraitSlotValue::String(s.clone()),
                None => TraitSlotValue::Undefined,
            },
            ConstantKind::Int => match self.integers.get(index) {
                Some(v) => TraitSlotValue::Int(*v),
                None => TraitSlotValue::Undefined,
            },
            ConstantKind::UInt => match self.unsigned_integers.get(index) {
                Some(v) => TraitSlotValue::UInt(*v),
                None => TraitSlotValue::Undefined,
            },
            ConstantKind::Double => match self.doubles.get(index) {
                Some(v) => TraitSlotValue::Double(*v),
                None => TraitSlotValue::Undefined,
            },
            ConstantKind::True => TraitSlotValue::True,
            ConstantKind::False => TraitSlotValue::False,
            ConstantKind::Null => TraitSlotValue::Null,
            _ => TraitSlotValue::Undefined,
        }
    }

    /// Appends to `linked` the slots and the constants among `traits`,
    /// resolved, in their order.
    pub fn link_traits(&self, traits: &Vec<Trait>, linked: &mut Vec<LinkedTrait>)
        ensures
            final(linked).deep_view() == old(linked).deep_view() + linked_traits(
                self.deep_view(),
                traits.deep_view(),
            ),
    {
        let ghost pool = self.deep_view();
        let ghost all = traits.deep_view();
        let mut i: usize = 0;
        proof {
            assert(all.take(0) =~= Seq::<TraitModel>::empty());
            assert(linked.deep_view() =~= old(linked).deep_view() + linked_traits(
                pool,
                all.take(0),
            ));
        }
        while i < traits.len()
            invariant
                i <= traits@.len(),
                pool == self.deep_view(),
                all == traits.deep_view(),
                linked.deep_view() == old(linked).deep_view() + linked_traits(
                    pool,
                    all.take(i as int),
                ),
            decreases traits@.len() - i,
        {
            let t = &traits[i];
            let ghost before = linked.deep_view();
            proof {
                assert(all.take(i + 1).drop_last() =~= all.take(i as int));
                assert(all.take(i + 1).last() == t.deep_view());
            }
            match &t.data {
                TraitData::Slot(slot) | TraitData::Const(slot) => {
                    let entry = LinkedTrait { name: self.name(t.name), value: self.value(slot) };
                    linked.push(entry);
                    assert(linked.deep_view() =~= before.push(entry.deep_view()));
                    assert(linked.deep_view() =~= old(linked).deep_view() + linked_traits(
                        pool,
                        all.take(i + 1),
                    ));
                },
                _ => {},
            }
            i = i + 1;
        }
        assert(all.take(traits@.len() as int) =~= all);
    }
}

impl AbcFile {
    /// The classes of the file, each joined with its instance.
    pub fn classes(&self) -> (r: Vec<LinkedClass>)
        ensures
            r.deep_view() == linked_classes(self.deep_view()),
    {
        let ghost file = self.deep_view();
        let count: usize = if self.instances.len() <= self.classes.len() {
            self.instances.len()
        } else {
            self.classes.len()
        };
        let mut linked: Vec<LinkedClass> = Vec::new();
        let mut i: usize = 0;
        while i < count
            invariant
                i <= count,
                count == class_count(file),
                file == self.deep_view(),
                linked@.len() == i,
                forall|k: int| 0 <= k < i ==> (#[trigger] linked@[k]).deep_view() == linked_class(
                    file,
                    k,
                ),
            decreases count - i,
        {
            let mut consts: Vec<LinkedTrait> = Vec::new();
            assert(consts.deep_view() =~= Seq::<LinkedTraitModel>::empty());
            self.constants.link_traits(&self.classes[i].traits, &mut consts);
            self.constants.link_traits(&self.instances[i].traits, &mut consts);
            let class = LinkedClass { name: self.constants.name(self.instances[i].name), consts };
            proof {
                assert(file.instances[i as int] == self.instances@[i as int].deep_view());
                assert(file.classes[i as int] == self.classes@[i as int].deep_view());
                assert(class.deep_view().consts =~= linked_class(file, i as int).consts);
            }
            linked.push(class);
            i = i + 1;
        }
        assert(linked.deep_view() =~= linked_classes(file));
        linked
    }
}

} // verus!
