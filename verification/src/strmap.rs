//! A map keyed by strings that keeps its entries in insertion order.
//!
//! Its view is a `Map` from the characters of each key to the view of the
//! value; `pairs` gives the same content with its order.

use vstd::prelude::*;

use crate::text::str_eq;

verus! {

/// Builds a map from a sequence of key/value pairs; a later pair wins over an
/// earlier one with the same key.
pub open spec fn pairs_to_map<K, W>(s: Seq<(K, W)>) -> Map<K, W>
    decreases s.len(),
{
    if s.len() == 0 {
        Map::empty()
    } else {
        pairs_to_map(s.drop_last()).insert(s.last().0, s.last().1)
    }
}

/// No key occurs twice in the sequence of pairs.
pub open spec fn unique_keys<K, W>(s: Seq<(K, W)>) -> bool {
    forall|i: int, j: int| 0 <= i < j < s.len() ==> #[trigger] s[i].0 != #[trigger] s[j].0
}

pub proof fn lemma_pairs_to_map_dom<K, W>(s: Seq<(K, W)>, k: K)
    ensures
        pairs_to_map(s).contains_key(k) <==> exists|i: int| 0 <= i < s.len() && #[trigger] s[i].0 == k,
    decreases s.len(),
{
    if s.len() > 0 {
        lemma_pairs_to_map_dom(s.drop_last(), k);
        if pairs_to_map(s).contains_key(k) {
            if k != s.last().0 {
                let i = choose|i: int| 0 <= i < s.drop_last().len() && #[trigger] s.drop_last()[i].0 == k;
                assert(s[i].0 == k);
            } else {
                assert(s[s.len() - 1].0 == k);
            }
        }
        if exists|i: int| 0 <= i < s.len() && #[trigger] s[i].0 == k {
            let i = choose|i: int| 0 <= i < s.len() && #[trigger] s[i].0 == k;
            if i < s.len() - 1 {
                assert(s.drop_last()[i].0 == k);
            }
        }
    }
}

pub proof fn lemma_pairs_to_map_index<K, W>(s: Seq<(K, W)>, i: int)
    requires
        unique_keys(s),
        0 <= i < s.len(),
    ensures
        pairs_to_map(s).contains_key(s[i].0),
        pairs_to_map(s)[s[i].0] == s[i].1,
    decreases s.len(),
{
    if i < s.len() - 1 {
        let t = s.drop_last();
        assert(unique_keys(t)) by {
            assert forall|a: int, b: int| 0 <= a < b < t.len() implies #[trigger] t[a].0 != #[trigger] t[b].0 by {
                assert(s[a].0 != s[b].0);
            }
        }
        lemma_pairs_to_map_index(t, i);
        assert(t[i] == s[i]);
        assert(s[i].0 != s[s.len() - 1].0);
    }
}

pub proof fn lemma_pairs_to_map_len<K, W>(s: Seq<(K, W)>)
    requires
        unique_keys(s),
    ensures
        pairs_to_map(s).dom().finite(),
        pairs_to_map(s).dom().len() == s.len(),
    decreases s.len(),
{
    if s.len() > 0 {
        let t = s.drop_last();
        assert(unique_keys(t)) by {
            assert forall|a: int, b: int| 0 <= a < b < t.len() implies #[trigger] t[a].0 != #[trigger] t[b].0 by {
                assert(s[a].0 != s[b].0);
            }
        }
        lemma_pairs_to_map_len(t);
        lemma_pairs_to_map_dom(t, s.last().0);
        if pairs_to_map(t).contains_key(s.last().0) {
            let i = choose|i: int| 0 <= i < t.len() && #[trigger] t[i].0 == s.last().0;
            assert(s[i].0 != s[s.len() - 1].0);
        }
    }
}

/// Replacing the value of the pair at `i` updates the map at that key.
pub proof fn lemma_pairs_to_map_update<K, W>(s: Seq<(K, W)>, i: int, w: W)
    requires
        unique_keys(s),
        0 <= i < s.len(),
    ensures
        pairs_to_map(s.update(i, (s[i].0, w))) == pairs_to_map(s).insert(s[i].0, w),
    decreases s.len(),
{
    let u = s.update(i, (s[i].0, w));
    let t = s.drop_last();
    assert(unique_keys(t)) by {
        assert forall|a: int, b: int| 0 <= a < b < t.len() implies #[trigger] t[a].0 != #[trigger] t[b].0 by {
            assert(s[a].0 != s[b].0);
        }
    }
    if i == s.len() - 1 {
        assert(u.drop_last() =~= t);
        assert(pairs_to_map(u) =~= pairs_to_map(s).insert(s[i].0, w));
    } else {
        lemma_pairs_to_map_update(t, i, w);
        assert(u.drop_last() =~= t.update(i, (t[i].0, w)));
        assert(s[i].0 != s.last().0);
        assert(pairs_to_map(u) =~= pairs_to_map(s).insert(s[i].0, w));
    }
}

/// The pairs with `f` applied to each value.
pub open spec fn map_pair_values<K, W>(s: Seq<(K, W)>, f: spec_fn(W) -> W) -> Seq<(K, W)> {
    Seq::new(s.len(), |i: int| (s[i].0, f(s[i].1)))
}

/// Applying `f` to the values of the pairs applies it to the values of
/// the map they build.
pub proof fn lemma_pairs_to_map_map_values<K, W>(s: Seq<(K, W)>, f: spec_fn(W) -> W)
    ensures
        pairs_to_map(map_pair_values(s, f)) == pairs_to_map(s).map_values(f),
    decreases s.len(),
{
    if s.len() == 0 {
        assert(pairs_to_map(map_pair_values(s, f)) =~= pairs_to_map(s).map_values(f));
    } else {
        lemma_pairs_to_map_map_values(s.drop_last(), f);
        assert(map_pair_values(s, f).drop_last() =~= map_pair_values(s.drop_last(), f));
        assert(pairs_to_map(map_pair_values(s, f)) =~= pairs_to_map(s).map_values(f));
    }
}

/// A map from strings to values, in insertion order, with no key twice.
#[derive(Debug)]
pub struct StrMap<V> {
    entries: Vec<(String, V)>,
}

impl<V> StrMap<V> {
    #[verifier::type_invariant]
    closed spec fn keys_are_unique(&self) -> bool {
        forall|i: int, j: int|
            0 <= i < j < self.entries@.len() ==> #[trigger] self.entries@[i].0@ != #[trigger] self.entries@[j].0@
    }

}

impl<V: View> StrMap<V> {
    /// The entries as key/value views, in order.
    pub closed spec fn pairs(&self) -> Seq<(Seq<char>, V::V)> {
        self.entries@.map_values(|e: (String, V)| (e.0@, e.1@))
    }

    /// The keys, in order.
    pub closed spec fn keys(&self) -> Seq<Seq<char>> {
        self.entries@.map_values(|e: (String, V)| e.0@)
    }

    proof fn lemma_wf(&self)
        requires
            self.keys_are_unique(),
        ensures
            unique_keys(self.pairs()),
            self.pairs().len() == self.entries@.len(),
            self.keys().len() == self.entries@.len(),
            forall|i: int| 0 <= i < self.entries@.len() ==> #[trigger] self.pairs()[i] == (self.entries@[i].0@, self.entries@[i].1@),
            forall|i: int| 0 <= i < self.entries@.len() ==> #[trigger] self.keys()[i] == self.entries@[i].0@,
    {
        let p = self.pairs();
        assert forall|i: int, j: int| 0 <= i < j < p.len() implies #[trigger] p[i].0 != #[trigger] p[j].0 by {
            assert(self.entries@[i].0@ != self.entries@[j].0@);
        }
    }

    /// The keys are the keys of the pairs, in order.
    pub proof fn lemma_keys_of_pairs(&self)
        ensures
            self.keys().len() == self.pairs().len(),
            forall|i: int| 0 <= i < self.keys().len() ==> #[trigger] self.keys()[i] == self.pairs()[i].0,
    {
    }

    /// An empty map.
    pub fn new() -> (r: Self)
        ensures
            r@ == Map::<Seq<char>, V::V>::empty(),
            r.pairs() == Seq::<(Seq<char>, V::V)>::empty(),
    {
        let r = StrMap { entries: Vec::new() };
        assert(r.pairs() =~= Seq::<(Seq<char>, V::V)>::empty());
        r
    }

    /// Number of entries.
    pub fn len(&self) -> (r: usize)
        ensures
            r == self.pairs().len(),
            r == self@.dom().len(),
            self@.dom().finite(),
            unique_keys(self.pairs()),
            forall|i: int|
                0 <= i < self.pairs().len() ==> self@.contains_key(#[trigger] self.pairs()[i].0)
                    && self@[self.pairs()[i].0] == self.pairs()[i].1,
    {
        proof {
            use_type_invariant(self);
            self.lemma_wf();
            lemma_pairs_to_map_len(self.pairs());
            assert forall|i: int| 0 <= i < self.pairs().len() implies self@.contains_key(
                #[trigger] self.pairs()[i].0,
            ) && self@[self.pairs()[i].0] == self.pairs()[i].1 by {
                lemma_pairs_to_map_index(self.pairs(), i);
            }
        }
        self.entries.len()
    }

    /// Is the map empty?
    pub fn is_empty(&self) -> (r: bool)
        ensures
            r == (self.pairs().len() == 0),
            r == (self@.dom().len() == 0),
    {
        self.len() == 0
    }

    /// The position of the entry with key `k`, if any.
    fn position(&self, k: &str) -> (r: Option<usize>)
        ensures
            match r {
                Some(i) => i < self.pairs().len() && self.pairs()[i as int].0 == k@,
                None => forall|i: int| 0 <= i < self.pairs().len() ==> #[trigger] self.pairs()[i].0 != k@,
            },
    {
        proof {
            use_type_invariant(self);
            self.lemma_wf();
        }
        let mut i: usize = 0;
        while i < self.entries.len()
            invariant
                i <= self.entries@.len(),
                self.pairs().len() == self.entries@.len(),
                forall|j: int| 0 <= j < self.entries@.len() ==> #[trigger] self.pairs()[j] == (self.entries@[j].0@, self.entries@[j].1@),
                forall|j: int| 0 <= j < i ==> #[trigger] self.pairs()[j].0 != k@,
            decreases self.entries@.len() - i,
        {
            if str_eq(self.entries[i].0.as_str(), k) {
                return Some(i);
            }
            i += 1;
        }
        None
    }

    /// Key lookup.
    pub fn get(&self, k: &str) -> (r: Option<&V>)
        ensures
            match r {
                Some(v) => self@.contains_key(k@) && v@ == self@[k@],
                None => !self@.contains_key(k@),
            },
    {
        proof {
            use_type_invariant(self);
            self.lemma_wf();
            lemma_pairs_to_map_dom(self.pairs(), k@);
        }
        match self.position(k) {
            Some(i) => {
                proof {
                    lemma_pairs_to_map_index(self.pairs(), i as int);
                }
                Some(&self.entries[i].1)
            },
            None => None,
        }
    }

    /// Is `k` a key of the map?
    pub fn contains_key(&self, k: &str) -> (r: bool)
        ensures
            r == self@.contains_key(k@),
    {
        self.get(k).is_some()
    }

    /// The key of the `i`-th entry.
    pub fn key_at(&self, i: usize) -> (r: &String)
        requires
            i < self.pairs().len(),
        ensures
            r@ == self.pairs()[i as int].0,
    {
        proof {
            use_type_invariant(self);
            self.lemma_wf();
        }
        &self.entries[i].0
    }

    /// The value of the `i`-th entry.
    pub fn value_at(&self, i: usize) -> (r: &V)
        requires
            i < self.pairs().len(),
        ensures
            r@ == self.pairs()[i as int].1,
    {
        proof {
            use_type_invariant(self);
            self.lemma_wf();
        }
        &self.entries[i].1
    }

    /// Every key of the map is the key of some pair.
    pub proof fn lemma_key_in_pairs(&self, k: Seq<char>)
        requires
            self@.contains_key(k),
        ensures
            exists|i: int| 0 <= i < self.pairs().len() && #[trigger] self.pairs()[i].0 == k,
    {
        lemma_pairs_to_map_dom(self.pairs(), k);
    }

    /// Replaces the value of the `i`-th entry, keeping its key and place.
    pub fn set_value_at(&mut self, i: usize, v: V)
        requires
            i < old(self).pairs().len(),
        ensures
            final(self).pairs() == old(self).pairs().update(i as int, (old(self).pairs()[i as int].0, v@)),
            final(self)@ == old(self)@.insert(old(self).pairs()[i as int].0, v@),
    {
        proof {
            use_type_invariant(&*self);
            self.lemma_wf();
        }
        let ghost old_pairs = self.pairs();
        let ghost vv = v@;
        let mut entries = Vec::new();
        std::mem::swap(&mut entries, &mut self.entries);
        let k = entries[i].0.clone();
        entries.set(i, (k, v));
        proof {
            assert forall|a: int, b: int| 0 <= a < b < entries@.len() implies #[trigger] entries@[a].0@ != #[trigger] entries@[b].0@ by {
                assert(old_pairs[a].0 != old_pairs[b].0);
            }
            let np = entries@.map_values(|e: (String, V)| (e.0@, e.1@));
            assert(np =~= old_pairs.update(i as int, (old_pairs[i as int].0, vv)));
            lemma_pairs_to_map_update(old_pairs, i as int, vv);
        }
        self.entries = entries;
    }

    /// Sets the value of key `k` (replacing an existing entry in place, or
    /// appending a new entry at the end).
    pub fn insert(&mut self, k: String, v: V)
        ensures
            final(self)@ == old(self)@.insert(k@, v@),
            old(self)@.contains_key(k@) ==> final(self).pairs().len() == old(self).pairs().len(),
            !old(self)@.contains_key(k@) ==> final(self).pairs() == old(self).pairs().push((k@, v@)),
    {
        proof {
            use_type_invariant(&*self);
            self.lemma_wf();
            lemma_pairs_to_map_dom(self.pairs(), k@);
        }
        match self.position(k.as_str()) {
            Some(i) => {
                let ghost old_pairs = self.pairs();
                let ghost kv = k@;
                let ghost vv = v@;
                let mut entries = Vec::new();
                std::mem::swap(&mut entries, &mut self.entries);
                entries.set(i, (k, v));
                proof {
                    assert forall|a: int, b: int| 0 <= a < b < entries@.len() implies #[trigger] entries@[a].0@ != #[trigger] entries@[b].0@ by {
                        assert(old_pairs[a].0 != old_pairs[b].0);
                    }
                    let np = entries@.map_values(|e: (String, V)| (e.0@, e.1@));
                    assert(np =~= old_pairs.update(i as int, (old_pairs[i as int].0, vv)));
                    lemma_pairs_to_map_update(old_pairs, i as int, vv);
                }
                self.entries = entries;
            },
            None => {
                let ghost old_pairs = self.pairs();
                let ghost kv = k@;
                let ghost vv = v@;
                let mut entries = Vec::new();
                std::mem::swap(&mut entries, &mut self.entries);
                entries.push((k, v));
                proof {
                    assert forall|a: int, b: int| 0 <= a < b < entries@.len() implies #[trigger] entries@[a].0@ != #[trigger] entries@[b].0@ by {
                        if b < entries@.len() - 1 {
                            assert(old_pairs[a].0 != old_pairs[b].0);
                        } else {
                            assert(old_pairs[a].0 != kv);
                        }
                    }
                    let np = entries@.map_values(|e: (String, V)| (e.0@, e.1@));
                    assert(np =~= old_pairs.push((kv, vv)));
                    assert(np.drop_last() =~= old_pairs);
                }
                self.entries = entries;
            },
        }
    }
}

/// Values that can be copied into an equal value.
pub trait ViewClone: View + Sized {
    /// A copy with the same view.
    fn clone_view(&self) -> (r: Self)
        ensures
            r@ == self@,
    ;
}

impl ViewClone for String {
    fn clone_view(&self) -> (r: Self) {
        self.clone()
    }
}

impl<V: ViewClone> StrMap<V> {
    /// A copy of the map, with its entries in the same order.
    pub fn copy(&self) -> (r: Self)
        ensures
            r@ == self@,
            r.pairs() == self.pairs(),
    {
        proof {
            use_type_invariant(self);
            self.lemma_wf();
        }
        let n = self.len();
        let mut r: StrMap<V> = StrMap::new();
        let mut i: usize = 0;
        while i < n
            invariant
                i <= n,
                n == self.pairs().len(),
                unique_keys(self.pairs()),
                r.pairs() == self.pairs().subrange(0, i as int),
            decreases n - i,
        {
            let k = self.key_at(i);
            let v = self.value_at(i);
            proof {
                lemma_pairs_to_map_dom(r.pairs(), k@);
                if r@.contains_key(k@) {
                    let j = choose|j: int| 0 <= j < r.pairs().len() && r.pairs()[j].0 == k@;
                    assert(self.pairs()[j].0 == self.pairs()[i as int].0);
                }
            }
            r.insert(k.clone(), v.clone_view());
            assert(r.pairs() =~= self.pairs().subrange(0, i + 1));
            i += 1;
        }
        assert(self.pairs().subrange(0, n as int) =~= self.pairs());
        r
    }
}

/// The view of an optional map.
pub open spec fn opt_map_view<V: View>(m: Option<StrMap<V>>) -> Option<Map<Seq<char>, V::V>> {
    match m {
        Some(x) => Some(x@),
        None => None,
    }
}

impl<V: View> View for StrMap<V> {
    type V = Map<Seq<char>, V::V>;

    open spec fn view(&self) -> Map<Seq<char>, V::V> {
        pairs_to_map(self.pairs())
    }
}

} // verus!
