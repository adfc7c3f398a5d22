//! Mappings of internal `PacketType`s to the packet IDs of the game.

use vstd::prelude::*;
use crate::structured::catalog::{PacketType, PACKET_TYPES};

verus! {

/// `bimap::BiHashMap`: a map that holds pairs of a left and a right value,
/// each left value and each right value in one pair at most.
#[verifier::external_type_specification]
#[verifier::external_body]
#[verifier::reject_recursive_types(L)]
#[verifier::reject_recursive_types(R)]
#[verifier::reject_recursive_types(LS)]
#[verifier::reject_recursive_types(RS)]
pub struct ExBiHashMap<L, R, LS, RS>(bimap::BiHashMap<L, R, LS, RS>);

/// The pairs that a bimap holds, as the map from each left value to its right
/// value.
pub uninterp spec fn pairs(m: bimap::BiHashMap<u8, u8>) -> Map<u8, u8>;

/// The pairs of a bimap after the insertion of `(left, right)`: the pair that
/// had the same left value and the pair that had the same right value are
/// gone, and the new pair is there.
pub open spec fn inserted(before: Map<u8, u8>, left: u8, right: u8) -> Map<u8, u8> {
    Map::new(
        |l: u8| l == left || (before.dom().contains(l) && before[l] != right),
        |l: u8|
            if l == left {
                right
            } else {
                before[l]
            },
    )
}

/// `BiHashMap::new`: a bimap without pairs.
#[verifier::external_body]
fn bimap_new() -> (r: bimap::BiHashMap<u8, u8>)
    ensures
        pairs(r) == (Map::<u8, u8>::empty()),
{
    bimap::BiHashMap::new()
}

/// `BiHashMap::insert`: the pair is inserted, and overwrites the pairs that
/// share its left or its right value.
#[verifier::external_body]
fn bimap_insert(m: &mut bimap::BiHashMap<u8, u8>, left: u8, right: u8)
    ensures
        pairs(*final(m)) == inserted(pairs(*old(m)), left, right),
{
    m.insert(left, right);
}

/// `BiHashMap::get_by_left`: the right value of the pair with this left
/// value.
#[verifier::external_body]
fn bimap_get_by_left(m: &bimap::BiHashMap<u8, u8>, left: u8) -> (r: Option<u8>)
    ensures
        r == if pairs(*m).dom().contains(left) {
            Some(pairs(*m)[left])
        } else {
            None
        },
{
    m.get_by_left(&left).copied()
}

/// `BiHashMap::get_by_right`: the left value of a pair with this right
/// value, if there is one.
#[verifier::external_body]
fn bimap_get_by_right(m: &bimap::BiHashMap<u8, u8>, right: u8) -> (r: Option<u8>)
    ensures
        match r {
            Some(left) => pairs(*m).dom().contains(left) && pairs(*m)[left] == right,
            None => forall|left: u8| pairs(*m).dom().contains(left) ==> pairs(*m)[left] != right,
        },
{
    m.get_by_right(&right).copied()
}

/// A binding of packet types to packet IDs: each type has at most one ID.
pub type Bindings = Map<PacketType, u8>;

/// Whether no two packet types are bound to the same ID.
pub open spec fn one_to_one(bindings: Bindings) -> bool {
    forall|a: PacketType, b: PacketType|
        bindings.dom().contains(a) && bindings.dom().contains(b) && bindings[a] == bindings[b]
            ==> a == b
}

/// `bindings` with `packet_type` bound to `id`: what `packet_type` was bound
/// to before, and what was bound to `id` before, is bound no more.
pub open spec fn bound(bindings: Bindings, packet_type: PacketType, id: u8) -> Bindings {
    Map::new(
        |t: PacketType| t == packet_type || (bindings.dom().contains(t) && bindings[t] != id),
        |t: PacketType|
            if t == packet_type {
                id
            } else {
                bindings[t]
            },
    )
}

/// The bindings that come of binding `entries` one after the other.
pub open spec fn bound_all(entries: Seq<(PacketType, u8)>) -> Bindings
    decreases entries.len(),
{
    if entries.len() == 0 {
        Map::empty()
    } else {
        bound(bound_all(entries.drop_last()), entries.last().0, entries.last().1)
    }
}

/// Binding keeps the bindings one-to-one.
pub proof fn lemma_bound_one_to_one(bindings: Bindings, packet_type: PacketType, id: u8)
    requires
        one_to_one(bindings),
    ensures
        one_to_one(bound(bindings, packet_type, id)),
{
}

/// Whatever is bound, one after the other, the bindings are one-to-one: the
/// mapping between packet types and packet IDs is a bijection between the
/// types that are bound and their IDs.
pub proof fn lemma_bound_all_one_to_one(entries: Seq<(PacketType, u8)>)
    ensures
        one_to_one(bound_all(entries)),
    decreases entries.len(),
{
    if entries.len() > 0 {
        lemma_bound_all_one_to_one(entries.drop_last());
        lemma_bound_one_to_one(
            bound_all(entries.drop_last()),
            entries.last().0,
            entries.last().1,
        );
    }
}

/// Mappings of internal `PacketType`s to the packet IDs of the game.
pub struct PacketMappings {
    map: bimap::BiHashMap<u8, u8>,
}

impl View for PacketMappings {
    type V = Bindings;

    /// The packet ID of each packet type that has one.
    closed spec fn view(&self) -> Bindings {
        Map::new(
            |t: PacketType| pairs(self.map).dom().contains(t.spec_index()),
            |t: PacketType| pairs(self.map)[t.spec_index()],
        )
    }
}

impl PacketMappings {
    /// The invariant of the mappings: the bimap holds packet types by their
    /// index in the catalog, and no ID twice.
    pub closed spec fn wf(&self) -> bool {
        &&& forall|l: u8| pairs(self.map).dom().contains(l) ==> l < PACKET_TYPES
        &&& forall|a: u8, b: u8|
            pairs(self.map).dom().contains(a) && pairs(self.map).dom().contains(b) && pairs(
                self.map,
            )[a] == pairs(self.map)[b] ==> a == b
    }

    /// Well-formed mappings are one-to-one.
    pub proof fn lemma_one_to_one(&self)
        requires
            self.wf(),
        ensures
            one_to_one(self@),
    {
        assert forall|a: PacketType, b: PacketType|
            self@.dom().contains(a) && self@.dom().contains(b) && self@[a] == self@[b] implies a
            == b by {
            a.lemma_index();
            b.lemma_index();
        }
    }

    /// Create a new `PacketMappings` from the given mappings, bound one after
    /// the other.
    #[verifier::rlimit(50)]
    pub fn new(mappings: Vec<(PacketType, u8)>) -> (r: Self)
        ensures
            r.wf(),
            r@ == bound_all(mappings@),
    {
        let mut r = PacketMappings { map: bimap_new() };
        assert(r@ =~= bound_all(mappings@.take(0)));
        let mut i: usize = 0;
        while i < mappings.len()
            invariant
                i <= mappings@.len(),
                r.wf(),
                r@ == bound_all(mappings@.take(i as int)),
            decreases mappings@.len() - i,
        {
            let (packet_type, id) = mappings[i];
            let ghost before = r;
            bimap_insert(&mut r.map, packet_type.index(), id);
            proof {
                let step = mappings@.take(i + 1);
                assert(step.drop_last() =~= mappings@.take(i as int));
                assert(step.last() == mappings@[i as int]);
                assert forall|t: PacketType| #![auto] r@.dom().contains(t) == bound(
                    before@,
                    packet_type,
                    id,
                ).dom().contains(t) by {
                    t.lemma_index();
                    packet_type.lemma_index();
                }
                assert(r@ =~= bound(before@, packet_type, id)) by {
                    assert forall|t: PacketType| #![auto] r@.dom().contains(t) implies r@[t]
                        == bound(before@, packet_type, id)[t] by {
                        t.lemma_index();
                        packet_type.lemma_index();
                    }
                }
            }
            i = i + 1;
        }
        assert(mappings@.take(mappings@.len() as int) =~= mappings@);
        r
    }

    /// Given an internal `PacketType`, get the associated packet ID.
    pub fn to_game(&self, typ: PacketType) -> (r: Option<u8>)
        ensures
            r == if self@.dom().contains(typ) {
                Some(self@[typ])
            } else {
                None
            },
    {
        bimap_get_by_left(&self.map, typ.index())
    }

    /// Given a packet ID, get the associated internal `PacketType`.
    pub fn to_internal(&self, id: u8) -> (r: Option<PacketType>)
        requires
            self.wf(),
        ensures
            match r {
                Some(typ) => self@.dom().contains(typ) && self@[typ] == id,
                None => forall|typ: PacketType| self@.dom().contains(typ) ==> self@[typ] != id,
            },
    {
        match bimap_get_by_right(&self.map, id) {
            Some(index) => {
                proof {
                    PacketType::lemma_of_index(index);
                }
                PacketType::from_index(index)
            },
            None => None,
        }
    }

    /// Get all internal packet types that don't have an associated mapping,
    /// in the order of the catalog.
    #[verifier::rlimit(50)]
    pub fn get_unmapped(&self) -> (r: Vec<PacketType>)
        ensures
            forall|typ: PacketType| r@.contains(typ) <==> !self@.dom().contains(typ),
            forall|i: int, j: int|
                0 <= i < j < r@.len() ==> r@[i].spec_index() < r@[j].spec_index(),
    {
        let all = PacketType::values();
        let mut unmapped: Vec<PacketType> = Vec::new();
        let mut i: usize = 0;
        while i < all.len()
            invariant
                i <= all@.len(),
                all@.len() == PACKET_TYPES,
                forall|k: int| 0 <= k < all@.len() ==> (#[trigger] all@[k]).spec_index() == k,
                forall|typ: PacketType|
                    unmapped@.contains(typ) <==> (typ.spec_index() < i && !self@.dom().contains(
                        typ,
                    )),
                forall|a: int, b: int|
                    0 <= a < b < unmapped@.len() ==> unmapped@[a].spec_index()
                        < unmapped@[b].spec_index(),
            decreases all@.len() - i,
        {
            let typ = all[i];
            let ghost before = unmapped@;
            if self.to_game(typ).is_none() {
                unmapped.push(typ);
                proof {
                    assert(unmapped@.last() == typ);
                    assert forall|t: PacketType| unmapped@.contains(t) <==> (t.spec_index() < i + 1
                        && !self@.dom().contains(t)) by {
                        t.lemma_index();
                        typ.lemma_index();
                        if unmapped@.contains(t) {
                            let k = choose|k: int| 0 <= k < unmapped@.len() && unmapped@[k] == t;
                            if k < before.len() {
                                assert(before[k] == t);
                                assert(before.contains(t));
                            }
                        }
                        if t.spec_index() < i + 1 && !self@.dom().contains(t) {
                            if t.spec_index() < i {
                                assert(before.contains(t));
                                let k = choose|k: int| 0 <= k < before.len() && before[k] == t;
                                assert(unmapped@[k] == t);
                            } else {
                                assert(t == typ);
                                assert(unmapped@[unmapped@.len() - 1] == t);
                            }
                        }
                    }
                    assert forall|a: int, b: int| 0 <= a < b < unmapped@.len() implies unmapped@[a].spec_index()
                        < unmapped@[b].spec_index() by {
                        if b == unmapped@.len() - 1 {
                            assert(before[a] == unmapped@[a]);
                            assert(before.contains(unmapped@[a]));
                        } else {
                            assert(before[a] == unmapped@[a]);
                            assert(before[b] == unmapped@[b]);
                        }
                    }
                }
            } else {
                proof {
                    assert forall|t: PacketType| unmapped@.contains(t) <==> (t.spec_index() < i + 1
                        && !self@.dom().contains(t)) by {
                        t.lemma_index();
                        typ.lemma_index();
                    }
                }
            }
            i = i + 1;
        }
        proof {
            assert forall|typ: PacketType| unmapped@.contains(typ) <==> !self@.dom().contains(
                typ,
            ) by {
                typ.lemma_index();
            }
        }
        unmapped
    }

    /// The mappings as pairs, in the order of the catalog.
    #[verifier::rlimit(50)]
    pub fn entries(&self) -> (r: Vec<(PacketType, u8)>)
        ensures
            forall|i: int|
                0 <= i < r@.len() ==> self@.dom().contains((#[trigger] r@[i]).0) && self@[r@[i].0]
                    == r@[i].1,
            forall|typ: PacketType|
                self@.dom().contains(typ) ==> exists|i: int|
                    0 <= i < r@.len() && (#[trigger] r@[i]).0 == typ,
            forall|i: int, j: int|
                0 <= i < j < r@.len() ==> r@[i].0.spec_index() < r@[j].0.spec_index(),
    {
        let all = PacketType::values();
        let mut entries: Vec<(PacketType, u8)> = Vec::new();
        let mut i: usize = 0;
        while i < all.len()
            invariant
                i <= all@.len(),
                all@.len() == PACKET_TYPES,
                forall|k: int| 0 <= k < all@.len() ==> (#[trigger] all@[k]).spec_index() == k,
                forall|k: int|
                    0 <= k < entries@.len() ==> self@.dom().contains((#[trigger] entries@[k]).0)
                        && self@[entries@[k].0] == entries@[k].1,
                forall|typ: PacketType|
                    self@.dom().contains(typ) && typ.spec_index() < i ==> exists|k: int|
                        0 <= k < entries@.len() && (#[trigger] entries@[k]).0 == typ,
                forall|k: int| 0 <= k < entries@.len() ==> (#[trigger] entries@[k]).0.spec_index() < i,
                forall|a: int, b: int|
                    0 <= a < b < entries@.len() ==> entries@[a].0.spec_index()
                        < entries@[b].0.spec_index(),
            decreases all@.len() - i,
        {
            let typ = all[i];
            let ghost before = entries@;
            match self.to_game(typ) {
                Some(id) => {
                    entries.push((typ, id));
                    proof {
                        assert forall|t: PacketType|
                            self@.dom().contains(t) && t.spec_index() < i + 1 implies exists|
                            k: int,
                        |
                            0 <= k < entries@.len() && (#[trigger] entries@[k]).0 == t by {
                            t.lemma_index();
                            typ.lemma_index();
                            if t.spec_index() < i {
                                let k = choose|k: int|
                                    0 <= k < before.len() && (#[trigger] before[k]).0 == t;
                                assert(entries@[k].0 == t);
                            } else {
                                assert(entries@[entries@.len() - 1].0 == t);
                            }
                        }
                    }
                },
                None => {
                    proof {
                        assert forall|t: PacketType|
                            self@.dom().contains(t) && t.spec_index() < i + 1 implies exists|
                            k: int,
                        |
                            0 <= k < entries@.len() && (#[trigger] entries@[k]).0 == t by {
                            t.lemma_index();
                            typ.lemma_index();
                        }
                    }
                },
            }
            i = i + 1;
        }
        entries
    }
}

} // verus!
