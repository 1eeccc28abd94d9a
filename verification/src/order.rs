//! The order of the entities under one owner.
//!
//! Entities are stored by ascending identifier, which is the order of their
//! creation, and are listed with the newest first.
use vstd::prelude::*;
use std::collections::BTreeMap;
use crate::ident::Id;
use vstd::std_specs::cmp::OrdSpec;
use vstd::std_specs::iter::IteratorSpec;

verus! {

/// Strictly ascending.
pub open spec fn ascending(ids: Seq<Id>) -> bool {
    forall|i: int, j: int| 0 <= i < j < ids.len() ==> ids[i] < ids[j]
}

/// Strictly descending.
pub open spec fn descending(ids: Seq<Id>) -> bool {
    forall|i: int, j: int| 0 <= i < j < ids.len() ==> ids[i] > ids[j]
}

/// Whether `ids` holds exactly the members of `set`.
pub open spec fn lists(ids: Seq<Id>, set: Set<Id>) -> bool {
    forall|id: Id| ids.contains(id) <==> set.contains(id)
}

/// The members of `set` in ascending order: the order of storage.
pub open spec fn ascending_ids(set: Set<Id>) -> Seq<Id> {
    choose|ids: Seq<Id>| ascending(ids) && lists(ids, set)
}

/// The members of `set` in descending order: the order of display.
pub open spec fn newest_first(set: Set<Id>) -> Seq<Id> {
    ascending_ids(set).reverse()
}

/// The greatest member of a set that has one.
pub open spec fn newest(set: Set<Id>) -> Option<Id> {
    if ascending_ids(set).len() > 0 {
        Some(ascending_ids(set).last())
    } else {
        None
    }
}

/// Two ascending sequences with the same members are the same sequence.
pub proof fn lemma_ascending_unique(a: Seq<Id>, b: Seq<Id>)
    requires
        ascending(a),
        ascending(b),
        forall|id: Id| a.contains(id) <==> b.contains(id),
    ensures
        a == b,
    decreases a.len(),
{
    if a.len() == 0 {
        if b.len() > 0 {
            assert(b.contains(b[0]));
        }
        assert(a =~= b);
    } else {
        assert(a.contains(a[0]));
        assert(b.contains(a[0]));
        let k = choose|k: int| 0 <= k < b.len() && b[k] == a[0];
        assert(b.contains(b[0]));
        let l = choose|l: int| 0 <= l < a.len() && a[l] == b[0];
        assert(a[0] == b[0]);
        let a1 = a.skip(1);
        let b1 = b.skip(1);
        assert forall|id: Id| a1.contains(id) <==> b1.contains(id) by {
            if a1.contains(id) {
                let i = choose|i: int| 0 <= i < a1.len() && a1[i] == id;
                assert(a[i + 1] == id);
                assert(a.contains(id));
                let j = choose|j: int| 0 <= j < b.len() && b[j] == id;
                assert(j > 0);
                assert(b1[j - 1] == id);
            }
            if b1.contains(id) {
                let i = choose|i: int| 0 <= i < b1.len() && b1[i] == id;
                assert(b[i + 1] == id);
                assert(b.contains(id));
                let j = choose|j: int| 0 <= j < a.len() && a[j] == id;
                assert(j > 0);
                assert(a1[j - 1] == id);
            }
        }
        assert(ascending(a1)) by {
            assert forall|i: int, j: int| 0 <= i < j < a1.len() implies a1[i] < a1[j] by {
                assert(a1[i] == a[i + 1] && a1[j] == a[j + 1]);
            }
        }
        assert(ascending(b1)) by {
            assert forall|i: int, j: int| 0 <= i < j < b1.len() implies b1[i] < b1[j] by {
                assert(b1[i] == b[i + 1] && b1[j] == b[j + 1]);
            }
        }
        lemma_ascending_unique(a1, b1);
        assert(a =~= seq![a[0]] + a1);
        assert(b =~= seq![b[0]] + b1);
    }
}

/// An ascending sequence with the members of `set` is the order of storage of `set`.
pub proof fn lemma_is_ascending_ids(ids: Seq<Id>, set: Set<Id>)
    requires
        ascending(ids),
        lists(ids, set),
    ensures
        ids == ascending_ids(set),
{
    let chosen = ascending_ids(set);
    assert(ascending(chosen) && lists(chosen, set));
    lemma_ascending_unique(ids, chosen);
}

/// The last of the ascending members is the greatest member.
pub proof fn lemma_newest_is_greatest(ids: Seq<Id>, set: Set<Id>)
    requires
        ids == ascending_ids(set),
        ascending(ids),
        lists(ids, set),
    ensures
        match newest(set) {
            Some(top) => set.contains(top) && forall|id: Id| set.contains(id) ==> id <= top,
            None => forall|id: Id| !set.contains(id),
        },
{
    if ids.len() > 0 {
        let top = ids.last();
        assert(ids.contains(top));
        assert forall|id: Id| set.contains(id) implies id <= top by {
            assert(ids.contains(id));
            let i = choose|i: int| 0 <= i < ids.len() && ids[i] == id;
        }
    } else {
        assert forall|id: Id| !set.contains(id) by {
            assert(!ids.contains(id));
        }
    }
}

/// The identifiers under which `m` stores its entities, in ascending order.
pub fn sorted_ids<T>(m: &BTreeMap<Id, T>) -> (ids: Vec<Id>)
    ensures
        ids@ == ascending_ids(m@.dom()),
        ascending(ids@),
        lists(ids@, m@.dom()),
{
    let mut ids: Vec<Id> = Vec::new();
    let ghost all: Seq<&Id> = m.keys().remaining();
    for id in it: m.keys()
        invariant
            it.seq() == all,
            ids@.len() == it.index(),
            forall|i: int| 0 <= i < ids@.len() ==> ids@[i] == *all[i],
    {
        ids.push(*id);
    }
    proof {
        broadcast use vstd::laws_cmp::group_laws_cmp;

        vstd::std_specs::btree::axiom_spec_keys_iter(m);
        vstd::std_specs::btree::axiom_increasing_seq_meaning::<&Id>(all);
        assert(ids@ =~= all.unref());
        assert forall|i: int, j: int| 0 <= i < j < ids@.len() implies ids@[i] < ids@[j] by {
            assert(OrdSpec::cmp_spec(&all[i], &all[j]) is Less);
        }
        assert forall|id: Id| ids@.contains(id) <==> m@.dom().contains(id) by {
            assert(all.unref().to_set().contains(id) <==> m@.dom().contains(id));
        }
        lemma_is_ascending_ids(ids@, m@.dom());
    }
    ids
}

/// The identifiers under which `m` stores its entities, newest first.
pub fn ids_newest_first<T>(m: &BTreeMap<Id, T>) -> (ids: Vec<Id>)
    ensures
        ids@ == newest_first(m@.dom()),
        descending(ids@),
        lists(ids@, m@.dom()),
{
    let stored = sorted_ids(m);
    let mut ids: Vec<Id> = Vec::new();
    let mut i: usize = stored.len();
    while i > 0
        invariant
            i <= stored.len(),
            ids@.len() == stored.len() - i,
            forall|k: int| 0 <= k < ids@.len() ==> ids@[k] == stored@[stored.len() - 1 - k],
        decreases i,
    {
        i -= 1;
        ids.push(stored[i]);
    }
    proof {
        assert(ids@ =~= stored@.reverse());
        assert forall|id: Id| ids@.contains(id) <==> m@.dom().contains(id) by {
            if ids@.contains(id) {
                let k = choose|k: int| 0 <= k < ids@.len() && ids@[k] == id;
                assert(stored@[stored.len() - 1 - k] == id);
                assert(stored@.contains(id));
            }
            if stored@.contains(id) {
                let k = choose|k: int| 0 <= k < stored@.len() && stored@[k] == id;
                assert(ids@[stored.len() - 1 - k] == id);
            }
        }
    }
    ids
}

/// The greatest identifier under which `m` stores an entity.
pub fn newest_id<T>(m: &BTreeMap<Id, T>) -> (top: Option<Id>)
    ensures
        top == newest(m@.dom()),
        match top {
            Some(t) => m@.contains_key(t) && forall|id: Id| m@.contains_key(id) ==> id <= t,
            None => forall|id: Id| !m@.contains_key(id),
        },
{
    let ids = sorted_ids(m);
    proof {
        lemma_newest_is_greatest(ids@, m@.dom());
    }
    if ids.len() > 0 {
        Some(ids[ids.len() - 1])
    } else {
        None
    }
}

} // verus!
