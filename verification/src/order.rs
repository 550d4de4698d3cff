//! The order of `str` (by character codes, as `Ord for str` compares UTF-8 bytes)
//! and a stable sort of indices by such keys.
use vstd::prelude::*;

use crate::text::{chars_of, string_of, views};

verus! {

/// Three-way comparison of `a` and `b` in the order of `Ord for str`
/// (character by character, by code point): negative, zero or positive.
pub open spec fn seq_order(a: Seq<char>, b: Seq<char>) -> int
    decreases a.len(),
{
    if a.len() == 0 {
        if b.len() == 0 {
            0
        } else {
            -1
        }
    } else if b.len() == 0 {
        1
    } else if a[0] < b[0] {
        -1
    } else if a[0] > b[0] {
        1
    } else {
        seq_order(a.drop_first(), b.drop_first())
    }
}

/// The comparison is a sign, antisymmetric, and zero exactly on equal texts.
pub proof fn lemma_order_range(a: Seq<char>, b: Seq<char>)
    ensures
        -1 <= seq_order(a, b) <= 1,
        seq_order(a, b) == -seq_order(b, a),
        seq_order(a, b) == 0 <==> a == b,
    decreases a.len(),
{
    if a.len() > 0 && b.len() > 0 {
        lemma_order_range(a.drop_first(), b.drop_first());
        if a[0] == b[0] && a.drop_first() == b.drop_first() {
            assert(a =~= seq![a[0]] + a.drop_first());
            assert(b =~= seq![b[0]] + b.drop_first());
        }
        if a == b {
            assert(a.drop_first() =~= b.drop_first());
        }
    } else if a.len() == 0 && b.len() == 0 {
        assert(a =~= b);
    }
}

/// The order is transitive.
pub proof fn lemma_order_trans(a: Seq<char>, b: Seq<char>, c: Seq<char>)
    requires
        seq_order(a, b) <= 0,
        seq_order(b, c) <= 0,
    ensures
        seq_order(a, c) <= 0,
    decreases a.len(),
{
    lemma_order_range(a, b);
    lemma_order_range(b, c);
    lemma_order_range(a, c);
    if a.len() > 0 && b.len() > 0 && c.len() > 0 {
        if a[0] == b[0] && b[0] == c[0] {
            lemma_order_trans(a.drop_first(), b.drop_first(), c.drop_first());
        }
    }
}

/// Before-or-equal followed by strictly-before is strictly before.
pub proof fn lemma_order_trans_strict(a: Seq<char>, b: Seq<char>, c: Seq<char>)
    requires
        seq_order(a, b) <= 0,
        seq_order(b, c) < 0,
    ensures
        seq_order(a, c) < 0,
{
    lemma_order_trans(a, b, c);
    lemma_order_range(a, c);
    lemma_order_range(a, b);
    lemma_order_range(b, c);
    if seq_order(a, c) == 0 {
        assert(a == c);
        lemma_order_trans(b, a, b);
    }
}

/// Three-way comparison of two character vectors in the order of `Ord for str`.
pub fn compare_chars(a: &Vec<char>, b: &Vec<char>) -> (r: i8)
    ensures
        r as int == seq_order(a@, b@),
{
    let mut i: usize = 0;
    assert(a@.subrange(0, a.len() as int) =~= a@);
    assert(b@.subrange(0, b.len() as int) =~= b@);
    while i < a.len() && i < b.len() && a[i] == b[i]
        invariant
            i <= a.len(),
            i <= b.len(),
            seq_order(a@, b@) == seq_order(a@.subrange(i as int, a.len() as int), b@.subrange(
                i as int,
                b.len() as int,
            )),
        decreases a.len() - i,
    {
        proof {
            let sa = a@.subrange(i as int, a.len() as int);
            let sb = b@.subrange(i as int, b.len() as int);
            assert(sa.drop_first() =~= a@.subrange(i + 1, a.len() as int));
            assert(sb.drop_first() =~= b@.subrange(i + 1, b.len() as int));
        }
        i = i + 1;
    }
    let ghost sa = a@.subrange(i as int, a.len() as int);
    let ghost sb = b@.subrange(i as int, b.len() as int);
    assert(sa.len() == a.len() - i && sb.len() == b.len() - i);
    if i == a.len() {
        if i == b.len() {
            0
        } else {
            -1
        }
    } else if i == b.len() {
        1
    } else if a[i] < b[i] {
        assert(sa[0] == a@[i as int] && sb[0] == b@[i as int]);
        -1
    } else {
        assert(sa[0] == a@[i as int] && sb[0] == b@[i as int]);
        assert(a@[i as int] != b@[i as int]);
        1
    }
}

/// `order` with index `i` placed after every index whose key is not greater than
/// `ks[i]` at the end of `order`: one step of a stable insertion sort.
pub open spec fn ins_idx(ks: Seq<Seq<char>>, order: Seq<int>, i: int) -> Seq<int>
    decreases order.len(),
{
    if order.len() == 0 {
        seq![i]
    } else if seq_order(ks[order.last()], ks[i]) <= 0 {
        order.push(i)
    } else {
        ins_idx(ks, order.drop_last(), i).push(order.last())
    }
}

/// The indices `0..n` ordered by their keys `ks`, equal keys keeping their order:
/// the permutation a stable sort by these keys applies.
pub open spec fn sort_idx(ks: Seq<Seq<char>>, n: int) -> Seq<int>
    decreases n,
{
    if n <= 0 {
        seq![]
    } else {
        ins_idx(ks, sort_idx(ks, n - 1), n - 1)
    }
}

proof fn lemma_ins_at(ks: Seq<Seq<char>>, order: Seq<int>, i: int, p: int)
    requires
        0 <= p <= order.len(),
        forall|q: int| p <= q < order.len() ==> seq_order(ks[#[trigger] order[q]], ks[i]) > 0,
        p == 0 || seq_order(ks[order[p - 1]], ks[i]) <= 0,
    ensures
        ins_idx(ks, order, i) == order.subrange(0, p).push(i) + order.subrange(
            p,
            order.len() as int,
        ),
    decreases order.len(),
{
    if order.len() == 0 {
        assert(order.subrange(0, p).push(i) + order.subrange(p, order.len() as int) =~= seq![i]);
    } else if p == order.len() {
        assert(order.subrange(0, p) =~= order);
        assert(order.subrange(0, p).push(i) + order.subrange(p, order.len() as int) =~= order.push(
            i,
        ));
    } else {
        let o2 = order.drop_last();
        assert(seq_order(ks[order[order.len() - 1]], ks[i]) > 0);
        assert forall|q: int| p <= q < o2.len() implies seq_order(ks[#[trigger] o2[q]], ks[i])
            > 0 by {
            assert(o2[q] == order[q]);
        }
        if p > 0 {
            assert(o2[p - 1] == order[p - 1]);
        }
        lemma_ins_at(ks, o2, i, p);
        assert(o2.subrange(0, p) =~= order.subrange(0, p));
        assert((o2.subrange(0, p).push(i) + o2.subrange(p, o2.len() as int)).push(order.last())
            =~= order.subrange(0, p).push(i) + order.subrange(p, order.len() as int));
    }
}

/// The indices `0..ks.len()` in the order that a stable sort by the keys `ks` gives.
pub fn stable_order(ks: &Vec<Vec<char>>) -> (r: Vec<usize>)
    ensures
        r@.map_values(|j: usize| j as int) == sort_idx(ks@.map_values(|k: Vec<char>| k@), ks.len() as int),
        r.len() == ks.len(),
        forall|q: int| 0 <= q < r.len() ==> r@[q] < ks.len(),
{
    let ghost kv = ks@.map_values(|k: Vec<char>| k@);
    let mut order: Vec<usize> = Vec::new();
    let mut i: usize = 0;
    while i < ks.len()
        invariant
            i <= ks.len(),
            kv == ks@.map_values(|k: Vec<char>| k@),
            order@.map_values(|j: usize| j as int) == sort_idx(kv, i as int),
            forall|q: int| 0 <= q < order.len() ==> order@[q] < i,
            order.len() == i,
        decreases ks.len() - i,
    {
        let ghost ov = order@.map_values(|j: usize| j as int);
        let mut p: usize = order.len();
        while p > 0 && compare_chars(&ks[order[p - 1]], &ks[i]) > 0
            invariant
                p <= order.len(),
                i < ks.len(),
                kv == ks@.map_values(|k: Vec<char>| k@),
                ov == order@.map_values(|j: usize| j as int),
                forall|q: int| 0 <= q < order.len() ==> order@[q] < i,
                forall|q: int| p <= q < order.len() ==> seq_order(kv[#[trigger] ov[q]], kv[i as int]) > 0,
            decreases p,
        {
            p = p - 1;
        }
        proof {
            if p > 0 {
                assert(ov[p - 1] == order@[p - 1] as int);
            }
            lemma_ins_at(kv, ov, i as int, p as int);
        }
        order.insert(p, i);
        proof {
            assert(order@.map_values(|j: usize| j as int) =~= ov.subrange(0, p as int).push(
                i as int,
            ) + ov.subrange(p as int, ov.len() as int));
        }
        i = i + 1;
    }
    order
}

/// The indices of `o` are in order of their keys.
pub open spec fn sorted_by(ks: Seq<Seq<char>>, o: Seq<int>) -> bool {
    forall|a: int, b: int| 0 <= a < b < o.len() ==> seq_order(ks[#[trigger] o[a]], ks[#[trigger] o[b]]) <= 0
}

proof fn lemma_ins_elems(ks: Seq<Seq<char>>, order: Seq<int>, i: int)
    ensures
        ins_idx(ks, order, i).len() == order.len() + 1,
        forall|x: int| #[trigger] ins_idx(ks, order, i).contains(x) <==> (order.contains(x) || x == i),
    decreases order.len(),
{
    if order.len() == 0 {
        assert(ins_idx(ks, order, i) =~= seq![i]);
        assert forall|x: int| #[trigger] ins_idx(ks, order, i).contains(x) <==> (order.contains(x) || x == i) by {
            if x == i {
                assert(ins_idx(ks, order, i)[0] == x);
            }
        }
    } else if seq_order(ks[order.last()], ks[i]) <= 0 {
        let r = order.push(i);
        assert forall|x: int| #[trigger] r.contains(x) <==> (order.contains(x) || x == i) by {
            if r.contains(x) {
                let k = choose|k: int| 0 <= k < r.len() && r[k] == x;
                if k < order.len() {
                    assert(order[k] == x);
                }
            }
            if order.contains(x) {
                let k = choose|k: int| 0 <= k < order.len() && order[k] == x;
                assert(r[k] == x);
            }
            if x == i {
                assert(r[order.len() as int] == x);
            }
        }
    } else {
        let d = order.drop_last();
        lemma_ins_elems(ks, d, i);
        let inner = ins_idx(ks, d, i);
        let r = inner.push(order.last());
        assert forall|x: int| #[trigger] r.contains(x) <==> (order.contains(x) || x == i) by {
            if r.contains(x) {
                let k = choose|k: int| 0 <= k < r.len() && r[k] == x;
                if k < inner.len() {
                    assert(inner[k] == x);
                    assert(inner.contains(x));
                    if d.contains(x) {
                        let m = choose|m: int| 0 <= m < d.len() && d[m] == x;
                        assert(order[m] == x);
                    }
                } else {
                    assert(order[order.len() - 1] == x);
                }
            }
            if order.contains(x) {
                let k = choose|k: int| 0 <= k < order.len() && order[k] == x;
                if k < order.len() - 1 {
                    assert(d[k] == x);
                    assert(inner.contains(x));
                    let m = choose|m: int| 0 <= m < inner.len() && inner[m] == x;
                    assert(r[m] == x);
                } else {
                    assert(r[inner.len() as int] == x);
                }
            }
            if x == i {
                assert(inner.contains(x));
                let m = choose|m: int| 0 <= m < inner.len() && inner[m] == x;
                assert(r[m] == x);
            }
        }
    }
}

proof fn lemma_ins_sorted(ks: Seq<Seq<char>>, order: Seq<int>, i: int)
    requires
        sorted_by(ks, order),
    ensures
        sorted_by(ks, ins_idx(ks, order, i)),
    decreases order.len(),
{
    lemma_ins_elems(ks, order, i);
    if order.len() == 0 {
        assert(ins_idx(ks, order, i) =~= seq![i]);
    } else if seq_order(ks[order.last()], ks[i]) <= 0 {
        let r = order.push(i);
        assert forall|a: int, b: int| 0 <= a < b < r.len() implies seq_order(ks[#[trigger] r[a]], ks[#[trigger] r[b]]) <= 0 by {
            if b == order.len() {
                if a < order.len() - 1 {
                    lemma_order_trans(ks[order[a]], ks[order.last()], ks[i]);
                }
            }
        }
    } else {
        let d = order.drop_last();
        assert forall|a: int, b: int| 0 <= a < b < d.len() implies seq_order(ks[#[trigger] d[a]], ks[#[trigger] d[b]]) <= 0 by {
            assert(d[a] == order[a]);
            assert(d[b] == order[b]);
        }
        lemma_ins_sorted(ks, d, i);
        lemma_ins_elems(ks, d, i);
        let inner = ins_idx(ks, d, i);
        let last = order.last();
        let r = inner.push(last);
        lemma_order_range(ks[last], ks[i]);
        assert forall|a: int, b: int| 0 <= a < b < r.len() implies seq_order(ks[#[trigger] r[a]], ks[#[trigger] r[b]]) <= 0 by {
            if b == inner.len() {
                let x = inner[a];
                assert(inner.contains(x));
                if x != i {
                    assert(d.contains(x));
                    let m = choose|m: int| 0 <= m < d.len() && d[m] == x;
                    assert(order[m] == x);
                    assert(order[order.len() - 1] == last);
                } 
            } else {
                assert(r[a] == inner[a]);
                assert(r[b] == inner[b]);
            }
        }
    }
}

/// The stable sort orders the indices by their keys, and each index below `n`
/// appears in it once.
pub proof fn lemma_sort_idx_sorted(ks: Seq<Seq<char>>, n: int)
    requires
        0 <= n,
    ensures
        sorted_by(ks, sort_idx(ks, n)),
        sort_idx(ks, n).len() == n,
        forall|x: int| #[trigger] sort_idx(ks, n).contains(x) <==> 0 <= x < n,
    decreases n,
{
    if n == 0 {
        assert(sort_idx(ks, 0) =~= Seq::<int>::empty());
    } else {
        lemma_sort_idx_sorted(ks, n - 1);
        lemma_ins_sorted(ks, sort_idx(ks, n - 1), n - 1);
        lemma_ins_elems(ks, sort_idx(ks, n - 1), n - 1);
    }
}

/// Every name comes strictly before the next ones (so no name occurs twice).
pub open spec fn strictly_sorted(s: Seq<Seq<char>>) -> bool {
    forall|i: int, j: int| 0 <= i < j < s.len() ==> seq_order(#[trigger] s[i], #[trigger] s[j]) < 0
}

/// Adds `name` to a strictly sorted list unless it is there already.
pub fn insert_sorted(v: &mut Vec<Vec<char>>, name: Vec<char>)
    requires
        strictly_sorted(views(old(v)@)),
    ensures
        strictly_sorted(views(final(v)@)),
        forall|x: Seq<char>| views(final(v)@).contains(x) <==> (views(old(v)@).contains(x) || x == name@),
{
    let ghost ov = views(v@);
    let mut k: usize = 0;
    while k < v.len() && compare_chars(&v[k], &name) < 0
        invariant
            k <= v.len(),
            v@ == old(v)@,
            ov == views(v@),
            forall|i: int| 0 <= i < k ==> seq_order(#[trigger] ov[i], name@) < 0,
        decreases v.len() - k,
    {
        k = k + 1;
    }
    if k < v.len() && compare_chars(&v[k], &name) == 0 {
        proof {
            lemma_order_range(ov[k as int], name@);
        }
        return;
    }
    proof {
        if k < ov.len() {
            lemma_order_range(ov[k as int], name@);
        }
    }
    let ghost nm = name@;
    v.insert(k, name);
    let ghost nv = views(v@);
    assert(nv =~= ov.insert(k as int, nm));
    assert forall|i: int, j: int| 0 <= i < j < nv.len() implies seq_order(#[trigger] nv[i], #[trigger] nv[j]) < 0 by {
        if j < k {
        } else if i < k && j == k {
        } else if i < k && j > k {
            assert(nv[j] == ov[j - 1]);
            lemma_order_range(ov[k as int], nm);
            lemma_order_trans_strict(nv[i], nm, ov[k as int]);
            if j - 1 > k {
                lemma_order_range(nv[i], ov[k as int]);
                lemma_order_trans_strict(nv[i], ov[k as int], ov[j - 1]);
            }
        } else if i == k {
            assert(nv[j] == ov[j - 1]);
            lemma_order_range(ov[k as int], nm);
            if j - 1 > k {
                lemma_order_range(nm, ov[k as int]);
                lemma_order_trans_strict(nm, ov[k as int], ov[j - 1]);
            }
        } else {
            assert(nv[i] == ov[i - 1]);
            assert(nv[j] == ov[j - 1]);
        }
    }
    assert forall|x: Seq<char>| nv.contains(x) <==> (ov.contains(x) || x == nm) by {
        if nv.contains(x) {
            let i = choose|i: int| 0 <= i < nv.len() && nv[i] == x;
            if i < k {
                assert(ov[i] == x);
            } else if i > k {
                assert(ov[i - 1] == x);
            }
        }
        if ov.contains(x) {
            let i = choose|i: int| 0 <= i < ov.len() && ov[i] == x;
            if i < k {
                assert(nv[i] == x);
            } else {
                assert(nv[i + 1] == x);
            }
        }
        if x == nm {
            assert(nv[k as int] == x);
        }
    }
}

/// The texts of a list of strings.
pub open spec fn texts(v: Seq<String>) -> Seq<Seq<char>> {
    v.map_values(|s: String| s@)
}

/// The distinct texts of `items`, in order (what `sort` then `dedup` leaves).
pub fn distinct_sorted(items: &Vec<String>) -> (r: Vec<String>)
    ensures
        strictly_sorted(texts(r@)),
        forall|x: Seq<char>| texts(r@).contains(x) <==> texts(items@).contains(x),
{
    let ghost iv = items@.map_values(|s: String| s@);
    let mut acc: Vec<Vec<char>> = Vec::new();
    let mut i: usize = 0;
    while i < items.len()
        invariant
            i <= items.len(),
            iv == items@.map_values(|s: String| s@),
            strictly_sorted(views(acc@)),
            forall|x: Seq<char>| views(acc@).contains(x) <==> iv.subrange(0, i as int).contains(x),
        decreases items.len() - i,
    {
        let ghost oldv = views(acc@);
        let ghost before = iv.subrange(0, i as int);
        let c = chars_of(items[i].as_str());
        let ghost cv = c@;
        insert_sorted(&mut acc, c);
        assert forall|x: Seq<char>| views(acc@).contains(x) <==> iv.subrange(0, i + 1).contains(x) by {
            assert(views(acc@).contains(x) <==> (oldv.contains(x) || x == cv));
            assert(oldv.contains(x) <==> before.contains(x));
            assert(iv.subrange(0, i + 1) =~= before + seq![cv]);
            if x == cv {
                assert((before + seq![cv])[before.len() as int] == x);
            }
            if before.contains(x) {
                let j = choose|j: int| 0 <= j < before.len() && before[j] == x;
                assert((before + seq![cv])[j] == x);
            }
            if (before + seq![cv]).contains(x) {
                let j = choose|j: int| 0 <= j < before.len() + 1 && (before + seq![cv])[j] == x;
                if j < before.len() {
                    assert(before[j] == x);
                }
            }
        }
        i = i + 1;
    }
    assert(iv.subrange(0, items.len() as int) =~= iv);
    let mut r: Vec<String> = Vec::new();
    let mut j: usize = 0;
    while j < acc.len()
        invariant
            j <= acc.len(),
            r@.map_values(|s: String| s@) == views(acc@).subrange(0, j as int),
        decreases acc.len() - j,
    {
        let s = string_of(&acc[j]);
        let ghost before = r@.map_values(|s: String| s@);
        r.push(s);
        assert(r@.map_values(|s: String| s@) =~= before.push(acc@[j as int]@));
        assert(views(acc@).subrange(0, j + 1) =~= views(acc@).subrange(0, j as int).push(acc@[j as int]@));
        j = j + 1;
    }
    assert(views(acc@).subrange(0, acc.len() as int) =~= views(acc@));
    r
}

} // verus!
