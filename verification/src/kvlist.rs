//! A list of key-value entries with unique string keys, read as a map:
//! the backing shape of the in-process caches.

use vstd::prelude::*;

verus! {

/// The map a sequence of entries denotes; later entries win.
pub open spec fn kv_map<V>(s: Seq<(String, V)>) -> Map<Seq<char>, V>
    decreases s.len(),
{
    if s.len() == 0 {
        Map::empty()
    } else {
        kv_map(s.drop_last()).insert(s.last().0@, s.last().1)
    }
}

/// No two entries share a key.
pub open spec fn kv_unique<V>(s: Seq<(String, V)>) -> bool {
    forall|i: int, j: int| 0 <= i < j < s.len() ==> s[i].0@ != s[j].0@
}

/// A key is in the denoted map exactly when some entry holds it.
pub proof fn lemma_kv_map_dom<V>(s: Seq<(String, V)>, k: Seq<char>)
    ensures
        kv_map(s).dom().contains(k) <==> exists|i: int|
            0 <= i < s.len() && #[trigger] s[i].0@ == k,
    decreases s.len(),
{
    if s.len() > 0 {
        lemma_kv_map_dom(s.drop_last(), k);
        if kv_map(s).dom().contains(k) {
            if s.last().0@ != k {
                let i = choose|i: int| 0 <= i < s.len() - 1 && #[trigger] s.drop_last()[i].0@ == k;
                assert(s[i].0@ == k);
            }
        }
        if exists|i: int| 0 <= i < s.len() && #[trigger] s[i].0@ == k {
            let i = choose|i: int| 0 <= i < s.len() && #[trigger] s[i].0@ == k;
            if i < s.len() - 1 {
                assert(s.drop_last()[i].0@ == k);
            }
        }
    }
}

/// With unique keys, the entry holding a key gives that key's value.
pub proof fn lemma_kv_map_at<V>(s: Seq<(String, V)>, i: int)
    requires
        kv_unique(s),
        0 <= i < s.len(),
    ensures
        kv_map(s).dom().contains(s[i].0@),
        kv_map(s)[s[i].0@] == s[i].1,
    decreases s.len(),
{
    if i == s.len() - 1 {
    } else {
        assert(s.drop_last()[i] == s[i]);
        lemma_kv_map_at(s.drop_last(), i);
        assert(s[s.len() - 1].0@ != s[i].0@);
    }
}

/// Replacing the one entry that holds a key denotes a map insert.
pub proof fn lemma_kv_update<V>(s: Seq<(String, V)>, i: int, k: Seq<char>, u: (String, V))
    requires
        kv_unique(s),
        0 <= i < s.len(),
        s[i].0@ == k,
        u.0@ == k,
    ensures
        kv_unique(s.update(i, u)),
        kv_map(s.update(i, u)) == kv_map(s).insert(k, u.1),
    decreases s.len(),
{
    let t = s.update(i, u);
    assert(kv_unique(t)) by {
        assert(forall|a: int, b: int|
            0 <= a < b < t.len() ==> (if a == i {
                u.0@
            } else {
                s[a].0@
            }) != (if b == i {
                u.0@
            } else {
                s[b].0@
            }));
    }
    if i == s.len() - 1 {
        assert(t.drop_last() =~= s.drop_last());
        assert(kv_map(t) =~= kv_map(s).insert(k, u.1));
    } else {
        assert(t.drop_last() =~= s.drop_last().update(i, u));
        assert(kv_unique(s.drop_last())) by {
            assert(forall|a: int, b: int|
                0 <= a < b < s.len() - 1 ==> s.drop_last()[a].0@ != s.drop_last()[b].0@);
        }
        assert(s.drop_last()[i] == s[i]);
        lemma_kv_update(s.drop_last(), i, k, u);
        assert(t.last() == s.last());
        assert(s.last().0@ != k);
        assert(kv_map(t) == kv_map(s.drop_last()).insert(k, u.1).insert(s.last().0@, s.last().1));
        assert(kv_map(t) =~= kv_map(s).insert(k, u.1));
    }
}

/// Dropping the one entry that holds a key denotes a map remove.
pub proof fn lemma_kv_remove<V>(s: Seq<(String, V)>, i: int, k: Seq<char>)
    requires
        kv_unique(s),
        0 <= i < s.len(),
        s[i].0@ == k,
    ensures
        kv_unique(s.remove(i)),
        kv_map(s.remove(i)) == kv_map(s).remove(k),
    decreases s.len(),
{
    let t = s.remove(i);
    assert(kv_unique(t)) by {
        assert(forall|a: int, b: int|
            0 <= a < b < t.len() ==> #[trigger] t[a].0@ == (if a < i {
                s[a].0@
            } else {
                s[a + 1].0@
            }) && #[trigger] t[b].0@ == (if b < i {
                s[b].0@
            } else {
                s[b + 1].0@
            }));
    }
    if i == s.len() - 1 {
        assert(t =~= s.drop_last());
        lemma_kv_map_dom(s.drop_last(), k);
        assert(forall|j: int| 0 <= j < s.len() - 1 ==> s.drop_last()[j].0@ != k);
        assert(!kv_map(s.drop_last()).dom().contains(k));
        assert(kv_map(t) =~= kv_map(s).remove(k));
    } else {
        assert(t.drop_last() =~= s.drop_last().remove(i));
        assert(kv_unique(s.drop_last())) by {
            assert(forall|a: int, b: int|
                0 <= a < b < s.len() - 1 ==> s.drop_last()[a].0@ != s.drop_last()[b].0@);
        }
        assert(s.drop_last()[i] == s[i]);
        lemma_kv_remove(s.drop_last(), i, k);
        assert(t.last() == s.last());
        assert(s.last().0@ != k);
        assert(kv_map(t) == kv_map(s.drop_last()).remove(k).insert(s.last().0@, s.last().1));
        assert(kv_map(t) =~= kv_map(s).remove(k));
    }
}

/// Appending an entry with a fresh key denotes a map insert.
pub proof fn lemma_kv_push<V>(s: Seq<(String, V)>, u: (String, V))
    requires
        kv_unique(s),
        forall|i: int| 0 <= i < s.len() ==> s[i].0@ != u.0@,
    ensures
        kv_unique(s.push(u)),
        kv_map(s.push(u)) == kv_map(s).insert(u.0@, u.1),
{
    assert(s.push(u).drop_last() =~= s);
    assert(kv_unique(s.push(u))) by {
        assert(forall|j: int| 0 <= j < s.len() ==> #[trigger] s.push(u)[j].0@ == s[j].0@);
    }
}

} // verus!
