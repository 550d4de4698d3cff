//! Text-keyed maps held as vectors of pairs with distinct keys, in place of
//! `BTreeMap<String, V>`.
use vstd::prelude::*;

verus! {

/// The plain values of the pairs.
pub open spec fn pairs_view<V>(t: Seq<(String, V)>) -> Seq<(Seq<char>, V)> {
    t.map_values(|p: (String, V)| (p.0@, p.1))
}

/// The value stored under `k`, the last pair with that key deciding.
pub open spec fn lookup<V>(t: Seq<(Seq<char>, V)>, k: Seq<char>) -> Option<V>
    decreases t.len(),
{
    if t.len() == 0 {
        None
    } else if t.last().0 == k {
        Some(t.last().1)
    } else {
        lookup(t.drop_last(), k)
    }
}

/// No key occurs twice (what a `BTreeMap` guarantees).
pub open spec fn unique_keys<V>(t: Seq<(Seq<char>, V)>) -> bool {
    forall|i: int, j: int| 0 <= i < j < t.len() ==> #[trigger] t[i].0 != #[trigger] t[j].0
}

proof fn lemma_lookup_update<V>(t: Seq<(Seq<char>, V)>, i: int, v: V, k2: Seq<char>)
    requires
        unique_keys(t),
        0 <= i < t.len(),
    ensures
        lookup(t.update(i, (t[i].0, v)), k2) == if k2 == t[i].0 {
            Some(v)
        } else {
            lookup(t, k2)
        },
    decreases t.len(),
{
    let u = t.update(i, (t[i].0, v));
    if i == t.len() - 1 {
        if k2 != t[i].0 {
            assert(u.drop_last() =~= t.drop_last());
        }
    } else {
        let t2 = t.drop_last();
        assert(u.drop_last() =~= t2.update(i, (t2[i].0, v)));
        assert(unique_keys(t2)) by {
            assert forall|a: int, b: int| 0 <= a < b < t2.len() implies #[trigger] t2[a].0
                != #[trigger] t2[b].0 by {
                assert(t2[a] == t[a] && t2[b] == t[b]);
            }
        }
        lemma_lookup_update(t2, i, v, k2);
        assert(t[i].0 != t[t.len() - 1].0);
    }
}

/// The value stored under `k` (`BTreeMap::get`).
pub fn assoc_get<V: Copy>(t: &Vec<(String, V)>, k: &String) -> (r: Option<V>)
    ensures
        r == lookup(pairs_view(t@), k@),
{
    let ghost tv = pairs_view(t@);
    let mut i: usize = t.len();
    assert(tv.subrange(0, t.len() as int) =~= tv);
    while i > 0
        invariant
            i <= t.len(),
            tv == pairs_view(t@),
            lookup(tv, k@) == lookup(tv.subrange(0, i as int), k@),
        decreases i,
    {
        proof {
            assert(tv.subrange(0, i as int).drop_last() =~= tv.subrange(0, i - 1));
        }
        if t[i - 1].0 == *k {
            return Some(t[i - 1].1);
        }
        i = i - 1;
    }
    None
}

/// Stores `v` under `k`, replacing what was stored there (`BTreeMap::insert`).
pub fn assoc_put<V: Copy>(t: &mut Vec<(String, V)>, k: String, v: V)
    requires
        unique_keys(pairs_view(old(t)@)),
    ensures
        unique_keys(pairs_view(final(t)@)),
        forall|k2: Seq<char>| #[trigger]
            lookup(pairs_view(final(t)@), k2) == if k2 == k@ {
                Some(v)
            } else {
                lookup(pairs_view(old(t)@), k2)
            },
{
    let ghost tv = pairs_view(t@);
    let mut i: usize = 0;
    while i < t.len()
        invariant
            i <= t.len(),
            tv == pairs_view(t@),
            tv == pairs_view(old(t)@),
            unique_keys(tv),
            forall|j: int| 0 <= j < i ==> #[trigger] tv[j].0 != k@,
        decreases t.len() - i,
    {
        if t[i].0 == k {
            let ghost ti = tv[i as int];
            t.set(i, (k, v));
            proof {
                assert(pairs_view(t@) =~= tv.update(i as int, (tv[i as int].0, v)));
                assert forall|k2: Seq<char>| #[trigger]
                    lookup(pairs_view(t@), k2) == if k2 == ti.0 {
                        Some(v)
                    } else {
                        lookup(tv, k2)
                    } by {
                    lemma_lookup_update(tv, i as int, v, k2);
                }
                let nv = pairs_view(t@);
                assert forall|a: int, b: int| 0 <= a < b < nv.len() implies #[trigger] nv[a].0
                    != #[trigger] nv[b].0 by {
                    assert(nv[a].0 == tv[a].0 && nv[b].0 == tv[b].0);
                }
            }
            return;
        }
        i = i + 1;
    }
    let ghost kk = k@;
    t.push((k, v));
    proof {
        let nv = pairs_view(t@);
        assert(nv =~= tv.push((kk, v)));
        assert forall|k2: Seq<char>| #[trigger]
            lookup(pairs_view(t@), k2) == if k2 == kk {
                Some(v)
            } else {
                lookup(tv, k2)
            } by {
            assert(nv.drop_last() =~= tv);
        }
        assert forall|a: int, b: int| 0 <= a < b < nv.len() implies #[trigger] nv[a].0
            != #[trigger] nv[b].0 by {
            if b == nv.len() - 1 {
                assert(nv[a] == tv[a]);
            } else {
                assert(nv[a] == tv[a] && nv[b] == tv[b]);
            }
        }
    }
}

} // verus!
