//! Grouping rows read in one query by the record they belong to, as the
//! listings of artists (their links) and of events (their comments) do.

use std::collections::HashMap;
use vstd::prelude::*;

verus! {

/// The values of `rows` whose key is `k`, in their order.
pub open spec fn values_for<T>(rows: Seq<(i64, T)>, k: i64) -> Seq<T>
    decreases rows.len(),
{
    if rows.len() == 0 {
        Seq::empty()
    } else {
        let rest = values_for(rows.drop_last(), k);
        if rows.last().0 == k {
            rest.push(rows.last().1)
        } else {
            rest
        }
    }
}

/// Whether `m` groups `rows` by key: a key is present exactly when some row
/// has it, with the values of those rows in order.
pub open spec fn groups<T>(m: Map<i64, Vec<T>>, rows: Seq<(i64, T)>) -> bool {
    &&& forall|k: i64| #[trigger] m.contains_key(k) <==> values_for(rows, k).len() > 0
    &&& forall|k: i64| #[trigger] m.contains_key(k) ==> m[k]@ == values_for(rows, k)
}

/// Groups rows by their key, keeping each group in the order of the rows.
pub fn group_by_key<T>(rows: Vec<(i64, T)>) -> (r: HashMap<i64, Vec<T>>)
    ensures
        groups(r@, rows@),
{
    broadcast use vstd::std_specs::hash::group_hash_axioms;
    let ghost all = rows@;
    let mut map: HashMap<i64, Vec<T>> = HashMap::new();
    assert(groups(map@, all.take(0)));
    for item in it: rows.into_iter()
        invariant
            it.seq() == all,
            groups(map@, all.take(it.index() as int)),
    {
        let ghost i = it.index() as int;
        let ghost before = map@;
        let (k, v) = item;
        assert(all.take(i + 1).drop_last() =~= all.take(i));
        assert(all.take(i + 1).last() == all[i]);
        let mut vals = match map.remove(&k) {
            Some(x) => x,
            None => Vec::new(),
        };
        vals.push(v);
        map.insert(k, vals);
        assert forall|j: i64| #[trigger] map@.contains_key(j) <==> values_for(all.take(i + 1), j).len() > 0 by {
            if j != k {
                assert(map@.contains_key(j) == before.contains_key(j));
            }
        }
        assert forall|j: i64| #[trigger] map@.contains_key(j) implies map@[j]@ == values_for(all.take(i + 1), j) by {
            if j != k {
                assert(map@[j] == before[j]);
            }
        }
    }
    assert(all.take(all.len() as int) =~= all);
    map
}

/// Takes the group of key `k` out of a grouping: its values, or none when
/// no row had the key.
pub fn take_group<T>(map: &mut HashMap<i64, Vec<T>>, k: i64) -> (r: Vec<T>)
    ensures
        old(map)@.contains_key(k) ==> r@ == old(map)@[k]@,
        !old(map)@.contains_key(k) ==> r@.len() == 0,
        final(map)@ == old(map)@.remove(k),
{
    broadcast use vstd::std_specs::hash::group_hash_axioms;
    match map.remove(&k) {
        Some(v) => v,
        None => Vec::new(),
    }
}

} // verus!
