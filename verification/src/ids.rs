//! Lists of ids in ascending order.

use std::collections::BTreeMap;

use vstd::prelude::*;
use vstd::std_specs::cmp::OrdSpec;
use vstd::std_specs::iter::IteratorSpec;

verus! {

broadcast use vstd::std_specs::btree::group_btree_axioms;

/// Whether `list` goes strictly up.
pub open spec fn is_ascending(list: Seq<u64>) -> bool {
    forall|i: int, j: int| 0 <= i < j < list.len() ==> list[i] < list[j]
}

/// Whether `list` holds the ids of a set, each once and in ascending order.
pub open spec fn lists(list: Seq<u64>, ids: Set<u64>) -> bool {
    &&& is_ascending(list)
    &&& list.to_set() == ids
}

/// The ids of a set in ascending order.
pub open spec fn ascending(ids: Set<u64>) -> Seq<u64> {
    choose|list: Seq<u64>| lists(list, ids)
}

/// A set has one ascending list.
pub proof fn ascending_unique(a: Seq<u64>, b: Seq<u64>)
    requires
        is_ascending(a),
        is_ascending(b),
        a.to_set() == b.to_set(),
    ensures
        a == b,
    decreases a.len(),
{
    if a.len() == 0 {
        if b.len() > 0 {
            assert(b.to_set().contains(b[0]));
            assert(a.to_set().contains(b[0]));
        }
        assert(a =~= b);
    } else {
        assert(a.to_set().contains(a.last()));
        assert(b.to_set().contains(a.last()));
        let i = choose|i: int| 0 <= i < b.len() && b[i] == a.last();
        assert(b.to_set().contains(b.last()));
        assert(a.to_set().contains(b.last()));
        let j = choose|j: int| 0 <= j < a.len() && a[j] == b.last();
        assert(a.last() == b.last()) by {
            if i < b.len() - 1 {
                assert(b[i] < b[b.len() - 1]);
            }
            if j < a.len() - 1 {
                assert(a[j] < a[a.len() - 1]);
            }
        }
        let x = a.drop_last();
        let y = b.drop_last();
        assert(x.to_set() =~= y.to_set()) by {
            assert forall|v: u64| x.to_set().contains(v) == y.to_set().contains(v) by {
                if x.contains(v) {
                    let k = choose|k: int| 0 <= k < x.len() && x[k] == v;
                    assert(a[k] == v && a[k] < a[a.len() - 1]);
                    assert(a.to_set().contains(v));
                    assert(b.to_set().contains(v));
                    let m = choose|m: int| 0 <= m < b.len() && b[m] == v;
                    assert(m < b.len() - 1);
                    assert(y[m] == v);
                }
                if y.contains(v) {
                    let k = choose|k: int| 0 <= k < y.len() && y[k] == v;
                    assert(b[k] == v && b[k] < b[b.len() - 1]);
                    assert(b.to_set().contains(v));
                    assert(a.to_set().contains(v));
                    let m = choose|m: int| 0 <= m < a.len() && a[m] == v;
                    assert(m < a.len() - 1);
                    assert(x[m] == v);
                }
            }
        }
        ascending_unique(x, y);
        assert(a =~= x.push(a.last()));
        assert(b =~= y.push(b.last()));
    }
}

/// A list of a set is the list of that set.
pub proof fn lists_is_ascending(list: Seq<u64>, ids: Set<u64>)
    requires
        lists(list, ids),
    ensures
        ascending(ids) == list,
{
    assert(lists(ascending(ids), ids));
    ascending_unique(list, ascending(ids));
}

proof fn lemma_greatest(ids: Set<u64>) -> (greatest: u64)
    requires
        ids.finite(),
        ids.len() > 0,
    ensures
        ids.contains(greatest),
        forall|id: u64| ids.contains(id) ==> id <= greatest,
    decreases ids.len(),
{
    let one = ids.choose();
    let rest = ids.remove(one);
    if rest.len() == 0 {
        assert forall|id: u64| ids.contains(id) implies id <= one by {
            if id != one {
                assert(rest.contains(id));
            }
        }
        one
    } else {
        let other = lemma_greatest(rest);
        assert forall|id: u64| ids.contains(id) implies id <= one || id <= other by {
            if id != one {
                assert(rest.contains(id));
            }
        }
        if one <= other {
            other
        } else {
            one
        }
    }
}

/// Every finite set has an ascending list.
pub proof fn finite_set_is_listed(ids: Set<u64>)
    requires
        ids.finite(),
    ensures
        lists(ascending(ids), ids),
    decreases ids.len(),
{
    if ids.len() == 0 {
        let none = Seq::<u64>::empty();
        assert(none.to_set() =~= ids);
        assert(lists(none, ids));
    } else {
        let greatest = lemma_greatest(ids);
        let rest = ids.remove(greatest);
        finite_set_is_listed(rest);
        let list = ascending(rest).push(greatest);
        assert forall|i: int, j: int| 0 <= i < j < list.len() implies list[i] < list[j] by {
            if j == list.len() - 1 {
                assert(ascending(rest).to_set().contains(list[i]));
            }
        }
        assert(list.to_set() =~= ids) by {
            assert forall|id: u64| list.to_set().contains(id) == ids.contains(id) by {
                if list.contains(id) {
                    let i = choose|i: int| 0 <= i < list.len() && list[i] == id;
                    if i < list.len() - 1 {
                        assert(ascending(rest)[i] == id);
                        assert(ascending(rest).to_set().contains(id));
                    }
                }
                if ids.contains(id) {
                    if id == greatest {
                        assert(list[list.len() - 1] == id);
                    } else {
                        assert(ascending(rest).to_set().contains(id));
                        let i = choose|i: int|
                            0 <= i < ascending(rest).len() && ascending(rest)[i] == id;
                        assert(list[i] == id);
                    }
                }
            }
        }
        assert(lists(list, ids));
    }
}

/// The keys of a map in ascending order.
pub fn ascending_keys<V>(map: &BTreeMap<u64, V>) -> (keys: Vec<u64>)
    ensures
        keys@ == ascending(map@.dom()),
        lists(keys@, map@.dom()),
{
    let mut keys: Vec<u64> = Vec::new();
    let entries = map.iter();
    let ghost all = entries.remaining().map_values(|kv: (&u64, &V)| *kv.0);
    proof {
        assert(vstd::std_specs::btree::increasing_seq(all));
        assert(is_ascending(all)) by {
            assert forall|i: int, j: int| 0 <= i < j < all.len() implies all[i] < all[j] by {
                assert(all[i].cmp_spec(&all[j]) is Less);
            }
        }
        assert(all.to_set() =~= map@.dom()) by {
            assert forall|k: u64| all.to_set().contains(k) == map@.contains_key(k) by {
                if all.contains(k) {
                    let i = choose|i: int| 0 <= i < all.len() && all[i] == k;
                    assert(map@.contains_key(*entries.remaining()[i].0));
                }
                if map@.contains_key(k) {
                    assert(entries.remaining().contains((&k, &map@[k])));
                    let i = choose|i: int|
                        0 <= i < all.len() && entries.remaining()[i] == (&k, &map@[k]);
                    assert(all[i] == k);
                }
            }
        }
        lists_is_ascending(all, map@.dom());
    }
    for entry in iter: entries
        invariant
            all == iter.seq().map_values(|kv: (&u64, &V)| *kv.0),
            keys@ == all.take(iter.index@),
    {
        keys.push(*entry.0);
        assert(all[iter.index@] == *entry.0);
        assert(keys@ =~= all.take(iter.index@ + 1));
    }
    assert(keys@ =~= all);
    keys
}

} // verus!
