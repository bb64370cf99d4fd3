//! Items indexed by address, a later item replacing an earlier one with the same address (as
//! inserting them in turn into a map does).
use vstd::prelude::*;

verus! {

/// The map that a list of keyed items gives, a later item replacing an earlier one with the
/// same key.
pub open spec fn keyed_map<T>(s: Seq<(String, T)>) -> Map<Seq<char>, T>
    decreases s.len(),
{
    if s.len() == 0 {
        Map::empty()
    } else {
        keyed_map(s.drop_last()).insert(s.last().0@, s.last().1)
    }
}

/// No two items have the same key.
pub open spec fn unique_keys<T>(s: Seq<(String, T)>) -> bool {
    forall|i: int, j: int| 0 <= i < s.len() && 0 <= j < s.len() && i != j ==> s[i].0@ != s[j].0@
}

/// Replacing an item, in a list with unique keys, by one with the same key replaces the value
/// of that key in the map.
proof fn lemma_keyed_update<T>(s: Seq<(String, T)>, j: int, e: (String, T))
    requires
        unique_keys(s),
        0 <= j < s.len(),
        s[j].0@ == e.0@,
    ensures
        keyed_map(s.update(j, e)) == keyed_map(s).insert(e.0@, e.1),
    decreases s.len(),
{
    let t = s.update(j, e);
    if j == s.len() - 1 {
        assert(t.drop_last() =~= s.drop_last());
        assert(keyed_map(t) =~= keyed_map(s).insert(e.0@, e.1));
    } else {
        let init = s.drop_last();
        assert forall|a: int, b: int| 0 <= a < init.len() && 0 <= b < init.len() && a != b implies init[a].0@ != init[b].0@ by {
            assert(init[a] == s[a] && init[b] == s[b]);
        }
        lemma_keyed_update(init, j, e);
        assert(t.drop_last() =~= init.update(j, e));
        assert(s.last().0@ != e.0@) by {
            assert(s[s.len() - 1].0@ != s[j].0@);
        }
        assert(keyed_map(t) =~= keyed_map(s).insert(e.0@, e.1));
    }
}

/// Enters an item under a key: the item with that key is replaced, or the item is added at
/// the end.
pub fn put_keyed<T>(entries: &mut Vec<(String, T)>, k: String, v: T)
    requires
        unique_keys(old(entries)@),
    ensures
        unique_keys(final(entries)@),
        keyed_map(final(entries)@) == keyed_map(old(entries)@).insert(k@, v),
{
    let n = entries.len();
    let mut j: usize = 0;
    while j < n
        invariant
            n == entries@.len(),
            entries@ == old(entries)@,
            unique_keys(old(entries)@),
            j <= n,
            forall|i: int| 0 <= i < j ==> entries@[i].0@ != k@,
        decreases n - j,
    {
        if entries[j].0 == k {
            let ghost before = entries@;
            proof {
                lemma_keyed_update(before, j as int, (k, v));
            }
            entries.set(j, (k, v));
            proof {
                assert(entries@ == before.update(j as int, (k, v)));
            }
            return;
        }
        j = j + 1;
    }
    let ghost before = entries@;
    entries.push((k, v));
    proof {
        assert(entries@.drop_last() =~= before);
        assert forall|a: int, b: int| 0 <= a < entries@.len() && 0 <= b < entries@.len() && a != b implies entries@[a].0@ != entries@[b].0@ by {
            if a < before.len() && b < before.len() {
                assert(entries@[a] == before[a] && entries@[b] == before[b]);
            } else if a < before.len() {
                assert(entries@[a] == before[a]);
            } else {
                assert(entries@[b] == before[b]);
            }
        }
    }
}

/// Indexes items by their keys: each key once, with the last item that has it.
pub fn index_by_key<T>(items: Vec<(String, T)>) -> (res: Vec<(String, T)>)
    ensures
        unique_keys(res@),
        keyed_map(res@) == keyed_map(items@),
{
    let ghost all = items@;
    let mut res: Vec<(String, T)> = Vec::new();
    for item in it: items
        invariant
            it.seq() == all,
            unique_keys(res@),
            keyed_map(res@) == keyed_map(all.take(it.index() as int)),
    {
        let ghost idx = it.index() as int;
        proof {
            assert(all.take(idx + 1).drop_last() =~= all.take(idx));
        }
        let (k, v) = item;
        put_keyed(&mut res, k, v);
    }
    proof {
        assert(all.take(all.len() as int) =~= all);
    }
    res
}

/// The position of the last item with a key, where one has it.
pub open spec fn last_with_key<T>(s: Seq<(String, T)>, k: Seq<char>) -> int
    decreases s.len(),
{
    if s.len() == 0 {
        -1
    } else if s.last().0@ == k {
        s.len() - 1
    } else {
        last_with_key(s.drop_last(), k)
    }
}

/// What the index holds for a key: the last item with that key, and nothing where no item has
/// it.
pub proof fn lemma_index_holds_last<T>(s: Seq<(String, T)>, k: Seq<char>)
    ensures
        keyed_map(s).contains_key(k) <==> last_with_key(s, k) >= 0,
        last_with_key(s, k) >= 0 ==> last_with_key(s, k) < s.len() && s[last_with_key(s, k)].0@ == k
            && keyed_map(s)[k] == s[last_with_key(s, k)].1,
    decreases s.len(),
{
    if s.len() > 0 {
        lemma_index_holds_last(s.drop_last(), k);
    }
}

} // verus!
