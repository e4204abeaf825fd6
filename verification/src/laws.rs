//! Laws of the map model.
//!
//! Each law is stated over the model that the operations' contracts use:
//! the mathematical map from key identities to carriers, with
//! [`entry_state`] reading one tag's entry back out. Together with the
//! operations' own `ensures`, these laws carry over to any sequence of
//! calls on a [`crate::TypeMap`].
//!
//! Tag values never reach the model: each operation's contract speaks of
//! the tag's type alone, so two instances of one tag type are
//! indistinguishable to the map.

use crate::carrier::Carried;
use crate::carrier::Carrier;
use crate::map::entry_state;
use crate::map::Assoc;
use vstd::prelude::*;

verus! {

broadcast use vstd::map::group_map_axioms, vstd::set::group_set_axioms;

/// Insert-find round trip: inserting a value for a tag and then reading
/// the same tag's entry yields exactly that value.
///
/// Because `find_mut` leaves the model holding the value written behind
/// the borrow it hands out, this law also shows that such a write is
/// visible to every later read of the same tag.
pub proof fn lemma_insert_round_trip<K: Assoc<V>, V: Carried>(m: Map<u64, Carrier>, v: V)
    ensures
        entry_state::<K, V>(m.insert(K::key_id(), v.wrap())) == Some(v),
{
    let m2 = m.insert(K::key_id(), v.wrap());
    assert(m2[K::key_id()] == v.wrap());
    let w = choose|w: V| m2[K::key_id()] == w.wrap();
    V::wrap_injective(w, v);
}

/// Absence after removal: once a tag's entry is removed, the tag is no
/// longer present and reading its entry reports absence, whatever was
/// inserted before.
pub proof fn lemma_remove_absent<K: Assoc<V>, V: Carried>(m: Map<u64, Carrier>, v: V)
    ensures
        !m.insert(K::key_id(), v.wrap()).remove(K::key_id()).contains_key(K::key_id()),
        entry_state::<K, V>(m.insert(K::key_id(), v.wrap()).remove(K::key_id())) is None,
{
}

/// Overwrite: inserting twice under one tag leaves the second value in the
/// entry, and the second insert does not change the number of entries.
pub proof fn lemma_overwrite<K: Assoc<V>, V: Carried>(m: Map<u64, Carrier>, v1: V, v2: V)
    requires
        m.dom().finite(),
    ensures
        entry_state::<K, V>(m.insert(K::key_id(), v1.wrap()).insert(K::key_id(), v2.wrap()))
            == Some(v2),
        m.insert(K::key_id(), v1.wrap()).insert(K::key_id(), v2.wrap()).len() == m.insert(
            K::key_id(),
            v1.wrap(),
        ).len(),
{
    lemma_insert_round_trip::<K, V>(m.insert(K::key_id(), v1.wrap()), v2);
}

/// Disjoint keys are independent: inserting or removing under one tag
/// changes nothing that another tag with a different key identity can
/// observe.
pub proof fn lemma_distinct_tags_independent<
    K1: Assoc<V1>,
    V1: Carried,
    K2: Assoc<V2>,
    V2: Carried,
>(m: Map<u64, Carrier>, v: V1)
    requires
        K1::key_id() != K2::key_id(),
    ensures
        m.insert(K1::key_id(), v.wrap()).contains_key(K2::key_id()) == m.contains_key(
            K2::key_id(),
        ),
        entry_state::<K2, V2>(m.insert(K1::key_id(), v.wrap())) == entry_state::<K2, V2>(m),
        m.remove(K1::key_id()).contains_key(K2::key_id()) == m.contains_key(K2::key_id()),
        entry_state::<K2, V2>(m.remove(K1::key_id())) == entry_state::<K2, V2>(m),
{
}

/// Clearing is total: the cleared map has no entries, no tag is present in
/// it, and every tag's entry reads as absent.
pub proof fn lemma_clear_total<K: Assoc<V>, V: Carried>()
    ensures
        Map::<u64, Carrier>::empty().len() == 0,
        !Map::<u64, Carrier>::empty().contains_key(K::key_id()),
        entry_state::<K, V>(Map::<u64, Carrier>::empty()) is None,
{
}

/// Size accounting: an insert grows the number of entries by one exactly
/// when the tag was absent, and a removal shrinks it by one exactly when
/// the tag was present.
pub proof fn lemma_size_accounting<K: Assoc<V>, V: Carried>(m: Map<u64, Carrier>, v: V)
    requires
        m.dom().finite(),
    ensures
        m.insert(K::key_id(), v.wrap()).len() == if m.contains_key(K::key_id()) {
            m.len()
        } else {
            m.len() + 1
        },
        m.remove(K::key_id()).len() == if m.contains_key(K::key_id()) {
            (m.len() - 1) as nat
        } else {
            m.len()
        },
{
}

} // verus!
