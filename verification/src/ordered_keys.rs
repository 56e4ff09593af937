//! The lowest key of a `BTreeMap` keyed by integers, read through its
//! ordered key iterator.
use std::collections::BTreeMap;
use vstd::prelude::*;
use vstd::std_specs::cmp::OrdSpec;
use vstd::std_specs::iter::IteratorSpec;

verus! {

/// The lowest key of `m`, or `None` when `m` is empty. The keys of a
/// `BTreeMap` come out of `keys()` in increasing order, so the first is
/// the lowest.
pub(crate) fn first_key<V>(m: &BTreeMap<u64, V>) -> (r: Option<u64>)
    ensures
        r is None ==> forall|k: u64| !m@.contains_key(k),
        r matches Some(k) ==> m@.contains_key(k) && forall|j: u64| m@.contains_key(j) ==> k <= j,
{
    for k in iter: m.keys()
        invariant
            iter.index() == 0,
    {
        proof {
            let s = iter.seq();
            let r = vstd::std_specs::btree::spec_keys_iter(m).remaining();
            assert(s == r);
            assert(r.unref().to_set() == m@.dom());
            assert(r.unref()[0] == *k);
            assert forall|j: u64| m@.contains_key(j) implies *k <= j by {
                assert(r.unref().to_set().contains(j));
                let idx = choose|idx: int| 0 <= idx < r.unref().len() && r.unref()[idx] == j;
                if idx > 0 {
                    assert(vstd::laws_cmp::obeys_cmp::<u64>());
                    assert(vstd::laws_cmp::obeys_cmp::<&u64>());
                    first_is_least(r, idx);
                }
            }
        }
        return Some(*k);
    }
    proof {
        let r = vstd::std_specs::btree::spec_keys_iter(m).remaining();
        assert(r.unref().to_set() == m@.dom());
        assert forall|k: u64| !m@.contains_key(k) by {
            if m@.contains_key(k) {
                assert(r.unref().to_set().contains(k));
            }
        }
    }
    None
}

/// In an increasing sequence the first element comes before every later one.
proof fn first_is_least<K: Ord>(s: Seq<K>, j: int)
    requires
        vstd::laws_cmp::obeys_cmp::<K>(),
        vstd::std_specs::btree::increasing_seq(s),
        0 < j < s.len(),
    ensures
        s[0].cmp_spec(&s[j]) is Less,
{
}

} // verus!
