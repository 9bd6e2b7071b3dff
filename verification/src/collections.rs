//! Enumerating the keys of a hash map.
use vstd::prelude::*;
use std::collections::HashMap;
use std::hash::Hash;
use vstd::std_specs::iter::IteratorSpec;
use vstd::std_specs::hash::{spec_hash_map_iter, axiom_spec_hash_map_iter, obeys_key_model};

verus! {

broadcast use vstd::std_specs::hash::group_hash_axioms;

/// The keys of `m`, each exactly once, in the map's iteration order.
pub fn hash_map_keys<K: Copy + Eq + Hash, V>(m: &HashMap<K, V>) -> (r: Vec<K>)
    requires
        obeys_key_model::<K>(),
    ensures
        r@.no_duplicates(),
        r@.len() == m@.dom().len(),
        forall|k: K| #[trigger] r@.contains(k) <==> m@.contains_key(k),
{
    let ghost v = IteratorSpec::remaining(&spec_hash_map_iter(m));
    proof {
        axiom_spec_hash_map_iter(m);
    }
    let mut r: Vec<K> = Vec::new();
    for pair in it: m.iter()
        invariant
            r@.len() == it.index(),
            it.seq() == v,
            forall|i: int| 0 <= i < it.index() ==> r@[i] == *(#[trigger] v[i]).0,
    {
        r.push(*pair.0);
    }
    proof {
        assert forall|k: K| #[trigger] r@.contains(k) implies m@.contains_key(k) by {
            let i = choose|i: int| 0 <= i < r@.len() && r@[i] == k;
            assert(m@.contains_key(*v[i].0));
        }
        assert forall|k: K| m@.contains_key(k) implies #[trigger] r@.contains(k) by {
            assert(v.contains((&k, &m@[k])));
            let j = choose|j: int| 0 <= j < v.len() && v[j] == (&k, &m@[k]);
            assert(r@[j] == k);
        }
        assert(r@.to_set() =~= m@.dom());
        r@.lemma_no_dup_set_cardinality();
    }
    r
}

} // verus!
