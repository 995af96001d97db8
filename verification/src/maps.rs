//! Hash maps keyed by 64-bit ids: the few whole-map operations the rest of the crate needs.

use std::collections::HashMap;
use std::collections::HashSet;
use vstd::prelude::*;

verus! {

broadcast use vstd::std_specs::hash::group_hash_axioms;

/// The entries of `m` whose value lies in `values`.
pub open spec fn restrict_values(m: Map<u64, u64>, values: Set<u64>) -> Map<u64, u64> {
    m.restrict(Set::new(|k: u64| m.contains_key(k) && values.contains(m[k])))
}

/// The keys of `m`, each once, in no particular order.
pub fn keys_of<V>(m: &HashMap<u64, V>) -> (keys: Vec<u64>)
    ensures
        keys@.no_duplicates(),
        forall|k: u64| keys@.contains(k) <==> m@.contains_key(k),
{
    let mut keys: Vec<u64> = Vec::new();
    let ghost order = vstd::std_specs::iter::IteratorSpec::remaining(&m.keys()).unref();
    for k in it: m.keys()
        invariant
            it.seq().unref() == order,
            keys@ == order.take(it.index() as int),
    {
        keys.push(*k);
    }
    proof {
        assert(keys@ == order);
        assert(order.to_set() == m@.dom());
        assert forall|k: u64| keys@.contains(k) <==> m@.contains_key(k) by {
            assert(order.to_set().contains(k) <==> order.contains(k));
        }
    }
    keys
}

/// Drops every entry of `m` whose key is not in `active`.
pub fn retain_keys<V>(m: &mut HashMap<u64, V>, active: &HashSet<u64>)
    ensures
        final(m)@ == old(m)@.restrict(active@),
{
    let keys = keys_of(m);
    let ghost before = m@;
    let ghost mut seen = Set::<u64>::empty();
    for i in 0..keys.len()
        invariant
            forall|j: int| 0 <= j < i ==> seen.contains(#[trigger] keys@[j]),
            forall|k: u64| #[trigger]
                m@.contains_key(k) <==> before.contains_key(k) && (active@.contains(k)
                    || !seen.contains(k)),
            forall|k: u64| #[trigger] m@.contains_key(k) ==> m@[k] == before[k],
    {
        let key: u64 = keys[i];
        if !active.contains(&key) {
            m.remove(&key);
        }
        proof {
            seen = seen.insert(key);
        }
    }
    proof {
        assert forall|k: u64| before.contains_key(k) implies seen.contains(k) by {
            assert(keys@.contains(k));
        }
    }
    assert(m@ =~= before.restrict(active@));
}

/// Drops every entry of `m` whose value is not in `active`.
pub fn retain_values(m: &mut HashMap<u64, u64>, active: &HashSet<u64>)
    ensures
        final(m)@ == restrict_values(old(m)@, active@),
{
    let keys = keys_of(m);
    let ghost before = m@;
    let ghost mut seen = Set::<u64>::empty();
    for i in 0..keys.len()
        invariant
            keys@.no_duplicates(),
            forall|k: u64| keys@.contains(k) <==> before.contains_key(k),
            forall|j: int| 0 <= j < i ==> seen.contains(#[trigger] keys@[j]),
            forall|j: int| i <= j < keys@.len() ==> !seen.contains(#[trigger] keys@[j]),
            forall|k: u64| #[trigger]
                m@.contains_key(k) <==> before.contains_key(k) && (active@.contains(before[k])
                    || !seen.contains(k)),
            forall|k: u64| #[trigger] m@.contains_key(k) ==> m@[k] == before[k],
    {
        let key: u64 = keys[i];
        assert(keys@.contains(key));
        let value: u64 = *m.get(&key).unwrap();
        if !active.contains(&value) {
            m.remove(&key);
        }
        proof {
            seen = seen.insert(key);
        }
    }
    proof {
        assert forall|k: u64| before.contains_key(k) implies seen.contains(k) by {
            assert(keys@.contains(k));
        }
    }
    assert(m@ =~= restrict_values(before, active@));
}

/// An entry stays exactly if its value lies in `values`, and it keeps that value.
pub proof fn law_entries_stay_by_value(m: Map<u64, u64>, values: Set<u64>, k: u64)
    ensures
        ({
            let after = restrict_values(m, values);
            &&& after.contains_key(k) <==> m.contains_key(k) && values.contains(m[k])
            &&& after.contains_key(k) ==> after[k] == m[k]
        }),
{
}

} // verus!
