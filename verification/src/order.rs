//! The order of strings (by their characters' code points, which is the
//! order of their UTF-8 bytes), and sorting by it.

use vstd::prelude::*;
use vstd::relations::{sorted_by, total_ordering};

use crate::text::chars_of;

verus! {

/// `a` comes before `b`, or equals it, character by character.
pub open spec fn str_le(a: Seq<char>, b: Seq<char>) -> bool
    decreases a.len(),
{
    if a.len() == 0 {
        true
    } else if b.len() == 0 {
        false
    } else if a[0] != b[0] {
        a[0] < b[0]
    } else {
        str_le(a.drop_first(), b.drop_first())
    }
}

/// The order as a relation.
pub open spec fn str_order() -> spec_fn(Seq<char>, Seq<char>) -> bool {
    |a: Seq<char>, b: Seq<char>| str_le(a, b)
}

proof fn lemma_str_le_reflexive(a: Seq<char>)
    ensures
        str_le(a, a),
    decreases a.len(),
{
    if a.len() > 0 {
        lemma_str_le_reflexive(a.drop_first());
    }
}

proof fn lemma_str_le_antisymmetric(a: Seq<char>, b: Seq<char>)
    requires
        str_le(a, b),
        str_le(b, a),
    ensures
        a == b,
    decreases a.len(),
{
    if a.len() > 0 && b.len() > 0 {
        assert(a[0] == b[0]);
        lemma_str_le_antisymmetric(a.drop_first(), b.drop_first());
        assert(a =~= seq![a[0]] + a.drop_first());
        assert(b =~= seq![b[0]] + b.drop_first());
    } else {
        assert(a =~= b);
    }
}

proof fn lemma_str_le_transitive(a: Seq<char>, b: Seq<char>, c: Seq<char>)
    requires
        str_le(a, b),
        str_le(b, c),
    ensures
        str_le(a, c),
    decreases a.len(),
{
    if a.len() > 0 && b.len() > 0 && c.len() > 0 {
        if a[0] == b[0] && b[0] == c[0] {
            lemma_str_le_transitive(a.drop_first(), b.drop_first(), c.drop_first());
        }
    }
}

proof fn lemma_str_le_total(a: Seq<char>, b: Seq<char>)
    ensures
        str_le(a, b) || str_le(b, a),
    decreases a.len(),
{
    if a.len() > 0 && b.len() > 0 && a[0] == b[0] {
        lemma_str_le_total(a.drop_first(), b.drop_first());
    }
}

/// The order of strings is a total order.
pub proof fn lemma_str_order_total()
    ensures
        total_ordering(str_order()),
{
    assert forall|a: Seq<char>| #[trigger] str_order()(a, a) by {
        lemma_str_le_reflexive(a);
    }
    assert forall|a: Seq<char>, b: Seq<char>| #[trigger] str_order()(a, b) && #[trigger] str_order()(b, a) implies a
        == b by {
        lemma_str_le_antisymmetric(a, b);
    }
    assert forall|a: Seq<char>, b: Seq<char>, c: Seq<char>|
        #[trigger] str_order()(a, b) && #[trigger] str_order()(b, c) implies str_order()(a, c) by {
        lemma_str_le_transitive(a, b, c);
    }
    assert forall|a: Seq<char>, b: Seq<char>| #[trigger] str_order()(a, b) || str_order()(b, a) by {
        lemma_str_le_total(a, b);
    }
}

/// Does `a` come before `b`, or equal it?
pub fn str_le_exec(a: &str, b: &str) -> (r: bool)
    ensures
        r == str_le(a@, b@),
{
    let av = chars_of(a);
    let bv = chars_of(b);
    let mut i: usize = 0;
    assert(a@.subrange(0, a@.len() as int) =~= a@);
    assert(b@.subrange(0, b@.len() as int) =~= b@);
    while i < av.len() && i < bv.len() && av[i] == bv[i]
        invariant
            av@ == a@,
            bv@ == b@,
            i <= av@.len(),
            i <= bv@.len(),
            str_le(a@, b@) == str_le(a@.subrange(i as int, a@.len() as int), b@.subrange(i as int, b@.len() as int)),
        decreases av@.len() - i,
    {
        let ghost sa = a@.subrange(i as int, a@.len() as int);
        let ghost sb = b@.subrange(i as int, b@.len() as int);
        assert(sa.drop_first() =~= a@.subrange(i + 1, a@.len() as int));
        assert(sb.drop_first() =~= b@.subrange(i + 1, b@.len() as int));
        i += 1;
    }
    if i == av.len() {
        true
    } else if i == bv.len() {
        false
    } else {
        av[i] < bv[i]
    }
}

/// The strings sorted by their order (a stable insertion sort).
pub fn sort_strings(v: Vec<String>) -> (r: Vec<String>)
    ensures
        r.deep_view() == v.deep_view().sort_by(str_order()),
{
    let mut out: Vec<String> = Vec::new();
    let mut i: usize = 0;
    let ghost src = v.deep_view();
    proof {
        lemma_str_order_total();
        assert(src.subrange(0, 0) =~= Seq::<Seq<char>>::empty());
        assert(out.deep_view() =~= Seq::<Seq<char>>::empty());
    }
    while i < v.len()
        invariant
            i <= v@.len(),
            src == v.deep_view(),
            total_ordering(str_order()),
            sorted_by(out.deep_view(), str_order()),
            out.deep_view().to_multiset() == src.subrange(0, i as int).to_multiset(),
        decreases v@.len() - i,
    {
        let x = v[i].clone();
        let mut pos: usize = 0;
        while pos < out.len() && str_le_exec(out[pos].as_str(), x.as_str())
            invariant
                pos <= out@.len(),
                forall|k: int| 0 <= k < pos ==> str_le(#[trigger] out@[k]@, x@),
            decreases out@.len() - pos,
        {
            pos += 1;
        }
        let ghost before = out.deep_view();
        proof {
            if pos < out@.len() {
                assert(!str_le(out@[pos as int]@, x@));
                lemma_str_le_total(out@[pos as int]@, x@);
            }
        }
        out.insert(pos, x);
        proof {
            let now = out.deep_view();
            assert(now =~= before.insert(pos as int, v@[i as int]@));
            assert(sorted_by(now, str_order())) by {
                assert forall|a: int, b: int| 0 <= a < b < now.len() implies str_order()(now[a], now[b]) by {
                    if a < pos && b == pos {
                        assert(str_le(before[a], now[b]));
                    } else if a == pos && b > pos {
                        assert(str_le(now[a], before[pos as int]));
                        assert(str_le(before[pos as int], before[b - 1])) by {
                            if pos < b - 1 {
                                assert(str_order()(before[pos as int], before[b - 1]));
                            } else {
                                lemma_str_le_reflexive(before[pos as int]);
                            }
                        }
                        lemma_str_le_transitive(now[a], before[pos as int], before[b - 1]);
                    } else if a < pos && b > pos {
                        assert(str_order()(before[a], before[b - 1]));
                    } else if a > pos {
                        assert(str_order()(before[a - 1], before[b - 1]));
                    } else {
                        assert(str_order()(before[a], before[b]));
                    }
                }
            }
            vstd::seq_lib::to_multiset_insert(before, pos as int, v@[i as int]@);
            assert(src.subrange(0, i + 1) =~= src.subrange(0, i as int).push(src[i as int]));
            vstd::seq_lib::to_multiset_build(src.subrange(0, i as int), src[i as int]);
        }
        i += 1;
    }
    proof {
        assert(src.subrange(0, v@.len() as int) =~= src);
        src.lemma_sort_by_ensures(str_order());
        vstd::seq_lib::lemma_sorted_unique(out.deep_view(), src.sort_by(str_order()), str_order());
    }
    out
}

/// Values with a string under which they are sorted.
pub trait Keyed {
    /// The characters of the sort key.
    spec fn sort_key(&self) -> Seq<char>;

    /// The sort key.
    fn key(&self) -> (r: &str)
        ensures
            r@ == self.sort_key(),
    ;
}

/// The values come in the order of their keys.
pub open spec fn sorted_by_key<T: Keyed>(s: Seq<T>) -> bool {
    forall|i: int, j: int| 0 <= i < j < s.len() ==> str_le(#[trigger] s[i].sort_key(), #[trigger] s[j].sort_key())
}

/// The values of `s` whose key is `k`, in their order in `s`.
pub open spec fn with_key<T: Keyed>(s: Seq<T>, k: Seq<char>) -> Seq<T> {
    s.filter(|x: T| x.sort_key() == k)
}

/// The values sorted by their keys, stably: values with equal keys keep
/// the order they had.
pub fn sort_by_key<T: Keyed>(v: Vec<T>) -> (r: Vec<T>)
    ensures
        r@.to_multiset() == v@.to_multiset(),
        sorted_by_key(r@),
        forall|k: Seq<char>| #[trigger] with_key(r@, k) == with_key(v@, k),
{
    let ghost src = v@;
    let mut out: Vec<T> = Vec::new();
    let mut rest = v;
    let n = rest.len();
    let mut i: usize = 0;
    assert(rest@ =~= src.subrange(0, n as int));
    assert(src.subrange(0, 0) =~= Seq::<T>::empty());
    proof {
        lemma_str_order_total();
    }
    while i < n
        invariant
            i <= n,
            n == src.len(),
            rest@ == src.subrange(i as int, n as int),
            sorted_by_key(out@),
            out@.to_multiset() == src.subrange(0, i as int).to_multiset(),
            forall|k: Seq<char>| #[trigger] with_key(out@, k) == with_key(src.subrange(0, i as int), k),
            total_ordering(str_order()),
        decreases n - i,
    {
        let ghost raw = rest@;
        let x = rest.remove(0);
        assert(x == src[i as int]) by {
            assert(raw[0] == src[i as int]);
        }
        assert(rest@ =~= src.subrange(i + 1, n as int));
        let mut pos: usize = 0;
        while pos < out.len() && str_le_exec(out[pos].key(), x.key())
            invariant
                pos <= out@.len(),
                forall|k: int| 0 <= k < pos ==> str_le(#[trigger] out@[k].sort_key(), x.sort_key()),
            decreases out@.len() - pos,
        {
            pos += 1;
        }
        let ghost before = out@;
        proof {
            if pos < out@.len() {
                assert(!str_le(before[pos as int].sort_key(), x.sort_key()));
                assert(str_order()(before[pos as int].sort_key(), x.sort_key()) || str_order()(
                    x.sort_key(),
                    before[pos as int].sort_key(),
                ));
            }
        }
        out.insert(pos, x);
        proof {
            let now = out@;
            assert(now =~= before.insert(pos as int, x));
            assert forall|a: int, b: int| 0 <= a < b < now.len() implies str_le(
                #[trigger] now[a].sort_key(),
                #[trigger] now[b].sort_key(),
            ) by {
                if a < pos && b == pos {
                    assert(now[a] == before[a]);
                } else if a == pos && b > pos {
                    assert(now[b] == before[b - 1]);
                    if pos < b - 1 {
                        assert(str_le(before[pos as int].sort_key(), before[b - 1].sort_key()));
                    }
                    assert(str_order()(x.sort_key(), before[pos as int].sort_key()));
                    assert(str_order()(before[pos as int].sort_key(), before[b - 1].sort_key()));
                } else if a < pos && b > pos {
                    assert(now[a] == before[a]);
                    assert(now[b] == before[b - 1]);
                    assert(str_le(before[a].sort_key(), before[b - 1].sort_key()));
                } else if a > pos {
                    assert(now[a] == before[a - 1]);
                    assert(now[b] == before[b - 1]);
                    assert(str_le(before[a - 1].sort_key(), before[b - 1].sort_key()));
                } else {
                    assert(now[a] == before[a]);
                    assert(now[b] == before[b]);
                    assert(str_le(before[a].sort_key(), before[b].sort_key()));
                }
            }
            vstd::seq_lib::to_multiset_insert(before, pos as int, x);
            assert(src.subrange(0, i + 1) =~= src.subrange(0, i as int).push(src[i as int]));
            vstd::seq_lib::to_multiset_build(src.subrange(0, i as int), src[i as int]);
            lemma_insert_keeps_key_order(before, pos as int, x);
            assert forall|k: Seq<char>| #[trigger] with_key(now, k) == with_key(src.subrange(0, i + 1), k) by {
                src.subrange(0, i as int).lemma_filter_push(x, |y: T| y.sort_key() == k);
            }
        }
        i += 1;
    }
    assert(src.subrange(0, n as int) =~= src);
    out
}

/// Putting `x` into a list sorted by keys at a place where all before it
/// have a key up to its own and the one after it a greater key adds `x`
/// last among the values with its key.
proof fn lemma_insert_keeps_key_order<T: Keyed>(before: Seq<T>, pos: int, x: T)
    requires
        0 <= pos <= before.len(),
        sorted_by_key(before),
        total_ordering(str_order()),
        pos < before.len() ==> !str_le(before[pos].sort_key(), x.sort_key()),
    ensures
        forall|k: Seq<char>| #[trigger] with_key(before.insert(pos, x), k) == if k == x.sort_key() {
            with_key(before, k).push(x)
        } else {
            with_key(before, k)
        },
{
    let front = before.subrange(0, pos);
    let back = before.subrange(pos, before.len() as int);
    assert(before =~= front + back);
    assert(before.insert(pos, x) =~= front + seq![x] + back);
    assert forall|k: Seq<char>| #[trigger] with_key(before.insert(pos, x), k) == if k == x.sort_key() {
        with_key(before, k).push(x)
    } else {
        with_key(before, k)
    } by {
        let p = |y: T| y.sort_key() == k;
        Seq::filter_distributes_over_add(front + seq![x], back, p);
        Seq::filter_distributes_over_add(front, seq![x], p);
        Seq::filter_distributes_over_add(front, back, p);
        front.lemma_filter_push(x, p);
        assert(front + seq![x] =~= front.push(x));
        if k == x.sort_key() {
            assert forall|j: int| 0 <= j < back.len() implies !p(#[trigger] back[j]) by {
                if back[j].sort_key() == x.sort_key() {
                    if j == 0 {
                        assert(str_order()(x.sort_key(), x.sort_key()));
                    } else {
                        assert(str_le(before[pos].sort_key(), before[pos + j].sort_key()));
                    }
                }
            }
            back.lemma_all_neg_filter_empty(p);
            assert(back.filter(p) =~= Seq::<T>::empty());
            assert(front.filter(p) + back.filter(p) =~= front.filter(p));
            assert(front.filter(p).push(x) + back.filter(p) =~= front.filter(p).push(x));
        } else {
            assert(seq![x].filter(p) =~= Seq::<T>::empty()) by {
                Seq::<T>::empty().lemma_filter_push(x, p);
                assert(seq![x] =~= Seq::<T>::empty().push(x));
                assert(Seq::<T>::empty().filter(p) =~= Seq::<T>::empty()) by {
                    Seq::<T>::empty().lemma_all_neg_filter_empty(p);
                }
            }
            assert(front.filter(p) + seq![x].filter(p) =~= front.filter(p));
        }
    }
}

/// Lists holding the same values, in any order, hold the same images
/// under `f`.
pub proof fn lemma_map_values_permutation<A, B>(a: Seq<A>, b: Seq<A>, f: spec_fn(A) -> B)
    requires
        a.to_multiset() == b.to_multiset(),
    ensures
        a.map_values(f).to_multiset() == b.map_values(f).to_multiset(),
    decreases a.len(),
{
    vstd::seq_lib::to_multiset_len(a);
    vstd::seq_lib::to_multiset_len(b);
    if a.len() == 0 {
        assert(a.map_values(f) =~= b.map_values(f));
    } else {
        let x = a[0];
        vstd::seq_lib::to_multiset_contains(a, x);
        assert(a.contains(x)) by {
            assert(a[0] == x);
        }
        vstd::seq_lib::to_multiset_contains(b, x);
        let idx = choose|idx: int| 0 <= idx < b.len() && b[idx] == x;
        vstd::seq_lib::to_multiset_remove(a, 0);
        vstd::seq_lib::to_multiset_remove(b, idx);
        lemma_map_values_permutation(a.remove(0), b.remove(idx), f);
        let fa = a.map_values(f);
        let fb = b.map_values(f);
        assert(fa.remove(0) =~= a.remove(0).map_values(f));
        assert(fb.remove(idx) =~= b.remove(idx).map_values(f));
        vstd::seq_lib::to_multiset_remove(fa, 0);
        vstd::seq_lib::to_multiset_remove(fb, idx);
        vstd::seq_lib::to_multiset_insert(fa.remove(0), 0, f(x));
        vstd::seq_lib::to_multiset_insert(fb.remove(idx), idx, f(x));
        assert(fa.remove(0).insert(0, f(x)) =~= fa);
        assert(fb.remove(idx).insert(idx, f(x)) =~= fb);
    }
}

} // verus!
