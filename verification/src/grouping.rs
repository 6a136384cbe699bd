//! Theme name grouping and family detection.
//!
//! Groups theme names into families using prefix analysis and variant
//! detection. For example, "Rosé Pine", "Rosé Pine Moon", and "Rosé Pine Dawn"
//! form three separate families, while "Rosé Pine" and "Rosé Pine (no italics)"
//! are grouped together.

use vstd::prelude::*;
use vstd::multiset::Multiset;
use vstd::relations::sorted_by;

use crate::order::{str_le, str_le_exec, str_order, sort_strings};
use crate::text::{
    byte_len, chars_of, common_prefix, contains, has_prefix, lemma_common_prefix, lowercase, push_char, str_contains, to_lowercase,
    trim, trim_str,
};

verus! {

// ---------------------------------------------------------------------------
// Punctuation (the regex class `[[:punct:]]`)
// ---------------------------------------------------------------------------

/// An ASCII punctuation character: ``!"#$%&'()*+,-./:;<=>?@[\]^_`{|}~``.
pub open spec fn is_ascii_punct(c: char) -> bool {
    ('!' <= c && c <= '/') || (':' <= c && c <= '@') || ('[' <= c && c <= '`') || ('{' <= c && c <= '~')
}

/// The part of `s` before its first ASCII punctuation character (all of
/// `s` when it has none).
pub open spec fn before_punct(s: Seq<char>) -> Seq<char>
    decreases s.len(),
{
    if s.len() == 0 {
        s
    } else if is_ascii_punct(s[0]) {
        Seq::empty()
    } else {
        seq![s[0]] + before_punct(s.drop_first())
    }
}

/// The first piece of `Regex::splitn(s, 2)` for the pattern `[[:punct:]]`:
/// there always is one, the part of `s` before its first ASCII punctuation
/// character.
#[verifier::external_body]
fn punct_first_piece(s: &str) -> (r: Option<String>)
    ensures
        r.deep_view() == Some(before_punct(s@)),
{
    regex::Regex::new("[[:punct:]]").unwrap().splitn(s, 2).next().map(|p| p.to_string())
}

// ---------------------------------------------------------------------------
// Pairwise decisions
// ---------------------------------------------------------------------------

/// The base name of a theme: what precedes its first punctuation, trimmed.
pub open spec fn base_theme_name(name: Seq<char>) -> Seq<char> {
    trim(before_punct(name))
}

/// Extract base theme name by removing everything after the first non-word
/// punctuation.
fn extract_base_theme_name(name: &str) -> (r: String)
    ensures
        r@ == base_theme_name(name@),
{
    match punct_first_piece(name) {
        Some(first) => trim_str(first.as_str()),
        None => trim_str(name),
    }
}

/// The longest common prefix of two strings, character by character.
fn find_common_prefix(s1: &str, s2: &str) -> (r: String)
    ensures
        r@ == common_prefix(s1@, s2@),
{
    let a = chars_of(s1);
    let b = chars_of(s2);
    let mut prefix = String::new();
    let mut i: usize = 0;
    proof {
        lemma_common_prefix(s1@, s2@);
    }
    while i < a.len() && i < b.len() && a[i] == b[i]
        invariant
            a@ == s1@,
            b@ == s2@,
            i <= a@.len(),
            i <= b@.len(),
            prefix@ == a@.subrange(0, i as int),
            forall|k: int| 0 <= k < i ==> a@[k] == b@[k],
        decreases a@.len() - i,
    {
        push_char(&mut prefix, a[i]);
        i += 1;
        assert(prefix@ =~= a@.subrange(0, i as int));
    }
    proof {
        crate::text::lemma_common_prefix_char(s1@, s2@, i as int);
    }
    prefix
}

/// The category of a (lowercased, trimmed) variant suffix.
pub open spec fn variant_category(s: Seq<char>) -> Seq<char> {
    if contains(s, "italic"@) {
        "style"@
    } else if contains(s, "light"@) || contains(s, "contrast"@) {
        "brightness"@
    } else if contains(s, "colorblind"@) {
        "accessibility"@
    } else {
        "other"@
    }
}

/// The category of a variant suffix: style, brightness, accessibility or
/// other.
fn get_variant_category(suffix: &str) -> (r: &'static str)
    ensures
        r@ == variant_category(lowercase(trim(suffix@))),
{
    let t = trim_str(suffix);
    let s = to_lowercase(t.as_str());
    let s = s.as_str();
    if str_contains(s, "italic") {
        "style"
    } else if str_contains(s, "light") || str_contains(s, "contrast") {
        "brightness"
    } else if str_contains(s, "colorblind") {
        "accessibility"
    } else {
        "other"
    }
}

/// A suffix marks a variant when, trimmed and lowercased, it is not empty
/// and begins with punctuation (its base, the text before its first
/// punctuation, is empty): "(no italics)" marks a variant, "Moon (no
/// italics)" names another theme.
pub open spec fn variant_suffix(s: Seq<char>) -> bool {
    let t = lowercase(trim(s));
    t.len() > 0 && before_punct(t).len() == 0
}

fn is_variant_suffix(suffix: &str) -> (r: bool)
    ensures
        r == variant_suffix(suffix@),
{
    let t = trim_str(suffix);
    let s = to_lowercase(t.as_str());
    if s.as_str().is_empty() {
        return false;
    }
    match punct_first_piece(s.as_str()) {
        Some(first) => first.as_str().is_empty(),
        None => false,
    }
}

/// Two suffixes name variants of one theme: one is empty and the other a
/// variant, or both are variants of the same category.
pub open spec fn variant_pair(suffix1: Seq<char>, suffix2: Seq<char>) -> bool {
    let s1 = lowercase(suffix1);
    let s2 = lowercase(suffix2);
    if (s1.len() == 0 && variant_suffix(s2)) || (s2.len() == 0 && variant_suffix(s1)) {
        true
    } else if variant_suffix(s1) && variant_suffix(s2) {
        variant_category(lowercase(trim(s1))) == variant_category(lowercase(trim(s2)))
    } else {
        false
    }
}

fn is_theme_variant_pair(suffix1: &str, suffix2: &str) -> (r: bool)
    ensures
        r == variant_pair(suffix1@, suffix2@),
{
    let s1 = to_lowercase(suffix1);
    let s2 = to_lowercase(suffix2);
    if (s1.as_str().is_empty() && is_variant_suffix(s2.as_str())) || (s2.as_str().is_empty() && is_variant_suffix(
        s1.as_str(),
    )) {
        return true;
    }
    if is_variant_suffix(s1.as_str()) && is_variant_suffix(s2.as_str()) {
        let c1 = get_variant_category(s1.as_str());
        let c2 = get_variant_category(s2.as_str());
        return crate::text::str_eq(c1, c2);
    }
    false
}

/// Two themes belong together: they have the same base name, or they
/// share a prefix of at least three bytes (trimmed) after which the rest
/// of each, trimmed, is a variant pair.
pub open spec fn should_group(theme1: Seq<char>, theme2: Seq<char>) -> bool {
    if base_theme_name(theme1) == base_theme_name(theme2) {
        true
    } else {
        let p = common_prefix(theme1, theme2);
        if byte_len(trim(p)) < 3 {
            false
        } else {
            variant_pair(
                trim(theme1.subrange(p.len() as int, theme1.len() as int)),
                trim(theme2.subrange(p.len() as int, theme2.len() as int)),
            )
        }
    }
}

/// Determine if two themes should be grouped together by comparing their
/// suffixes after removing the common prefix.
pub fn themes_should_be_grouped(theme1: &str, theme2: &str) -> (r: bool)
    ensures
        r == should_group(theme1@, theme2@),
{
    let base1 = extract_base_theme_name(theme1);
    let base2 = extract_base_theme_name(theme2);
    if crate::text::str_eq(base1.as_str(), base2.as_str()) {
        return true;
    }
    let common_prefix = find_common_prefix(theme1, theme2);
    let trimmed = chars_of(trim_str(common_prefix.as_str()).as_str());
    if crate::text::byte_len_below(trimmed.as_slice(), 3) {
        return false;
    }
    proof {
        lemma_common_prefix(theme1@, theme2@);
    }
    let a = chars_of(theme1);
    let b = chars_of(theme2);
    let plen = chars_of(common_prefix.as_str()).len();
    let rest1 = crate::text::string_of_range(a.as_slice(), plen, a.len());
    let rest2 = crate::text::string_of_range(b.as_slice(), plen, b.len());
    let suffix1 = trim_str(rest1.as_str());
    let suffix2 = trim_str(rest2.as_str());
    is_theme_variant_pair(suffix1.as_str(), suffix2.as_str())
}

/// Whether two themes belong together does not depend on which of them
/// is named first.
pub proof fn lemma_should_group_symmetric(theme1: Seq<char>, theme2: Seq<char>)
    ensures
        should_group(theme1, theme2) == should_group(theme2, theme1),
{
    lemma_common_prefix(theme1, theme2);
    let n = common_prefix(theme1, theme2).len() as int;
    assert forall|j: int| 0 <= j < n implies theme2[j] == theme1[j] by {
        assert(theme1.subrange(0, n)[j] == theme2.subrange(0, n)[j]);
    }
    crate::text::lemma_common_prefix_char(theme2, theme1, n);
    assert(common_prefix(theme2, theme1) == common_prefix(theme1, theme2));
}

// ---------------------------------------------------------------------------
// Clustering
// ---------------------------------------------------------------------------

/// The greedy scan for one group: starting from the leader's group (the
/// leader alone, marked used), each index below `j` that is not the
/// leader, not yet used and belongs with the leader joins the group and is
/// marked used.
pub open spec fn scan_group(names: Seq<Seq<char>>, leader: int, used: Seq<bool>, j: nat) -> (
    Seq<Seq<char>>,
    Seq<bool>,
)
    decreases j,
{
    if j == 0 {
        (seq![names[leader]], used.update(leader, true))
    } else {
        let prev = scan_group(names, leader, used, (j - 1) as nat);
        let k = j - 1;
        if k != leader && !prev.1[k] && should_group(names[leader], names[k]) {
            (prev.0.push(names[k]), prev.1.update(k, true))
        } else {
            prev
        }
    }
}

/// The groups of the greedy clustering from index `i` on: each unused name
/// leads a group of itself and the unused names that belong with it.
pub open spec fn clusters_from(names: Seq<Seq<char>>, used: Seq<bool>, i: nat) -> Seq<Seq<Seq<char>>>
    decreases names.len() - i,
{
    if i >= names.len() {
        Seq::empty()
    } else if used[i as int] {
        clusters_from(names, used, i + 1)
    } else {
        let g = scan_group(names, i as int, used, names.len());
        seq![g.0] + clusters_from(names, g.1, i + 1)
    }
}

/// The greedy clustering of the names, in the order the groups are found.
pub open spec fn clusters(names: Seq<Seq<char>>) -> Seq<Seq<Seq<char>>> {
    clusters_from(names, Seq::new(names.len(), |i: int| false), 0)
}

/// Groups are ordered by their first name.
pub open spec fn first_order() -> spec_fn(Seq<Seq<char>>, Seq<Seq<char>>) -> bool {
    |g: Seq<Seq<char>>, h: Seq<Seq<char>>| str_le(g[0], h[0])
}

/// The clusters of `names`: each group of the greedy clustering sorted,
/// and the groups ordered by their first name.
pub open spec fn clustered(names: Seq<Seq<char>>, groups: Seq<Seq<Seq<char>>>) -> bool {
    &&& groups.to_multiset() == clusters(names).map_values(
        |g: Seq<Seq<char>>| g.sort_by(str_order()),
    ).to_multiset()
    &&& sorted_by(groups, first_order())
}

/// One greedy group: the leader and every unused name that belongs with it.
fn scan(theme_names: &[String], leader: usize, used: &mut Vec<bool>) -> (group: Vec<String>)
    requires
        leader < theme_names@.len(),
        old(used)@.len() == theme_names@.len(),
    ensures
        final(used)@.len() == theme_names@.len(),
        (group.deep_view(), final(used)@) == scan_group(
            theme_names.deep_view(),
            leader as int,
            old(used)@,
            theme_names@.len() as nat,
        ),
{
    let ghost names = theme_names.deep_view();
    let ghost start = used@;
    let mut group: Vec<String> = Vec::new();
    group.push(theme_names[leader].clone());
    used.set(leader, true);
    assert(group.deep_view() =~= seq![names[leader as int]]);
    let mut j: usize = 0;
    while j < theme_names.len()
        invariant
            names == theme_names.deep_view(),
            leader < theme_names@.len(),
            j <= theme_names@.len(),
            used@.len() == theme_names@.len(),
            (group.deep_view(), used@) == scan_group(names, leader as int, start, j as nat),
        decreases theme_names@.len() - j,
    {
        if j != leader && !used[j] && themes_should_be_grouped(
            theme_names[leader].as_str(),
            theme_names[j].as_str(),
        ) {
            let ghost before = group.deep_view();
            group.push(theme_names[j].clone());
            assert(group.deep_view() =~= before.push(names[j as int]));
            used.set(j, true);
        }
        j += 1;
    }
    group
}

/// A greedy group is never empty: it starts with its leader.
proof fn lemma_scan_group_nonempty(names: Seq<Seq<char>>, leader: int, used: Seq<bool>, j: nat)
    requires
        0 <= leader < used.len(),
    ensures
        scan_group(names, leader, used, j).0.len() > 0,
    decreases j,
{
    if j > 0 {
        lemma_scan_group_nonempty(names, leader, used, (j - 1) as nat);
    }
}

/// The groups ordered by their first name (a stable insertion sort).
fn sort_groups(groups: Vec<Vec<String>>) -> (r: Vec<Vec<String>>)
    requires
        forall|k: int| 0 <= k < groups@.len() ==> #[trigger] groups@[k]@.len() > 0,
    ensures
        r.deep_view().to_multiset() == groups.deep_view().to_multiset(),
        sorted_by(r.deep_view(), first_order()),
        forall|k: int| 0 <= k < r@.len() ==> #[trigger] r@[k]@.len() > 0,
{
    let ghost src = groups.deep_view();
    let mut out: Vec<Vec<String>> = Vec::new();
    let mut rest = groups;
    assert(src.subrange(0, 0) =~= Seq::<Seq<Seq<char>>>::empty());
    assert(out.deep_view() =~= Seq::<Seq<Seq<char>>>::empty());
    let n = rest.len();
    let mut i: usize = 0;
    assert(rest.deep_view() =~= src.subrange(0, n as int));
    while i < n
        invariant
            i <= n,
            n == src.len(),
            rest@.len() == n - i,
            rest.deep_view() == src.subrange(i as int, n as int),
            forall|k: int| 0 <= k < src.len() ==> #[trigger] src[k].len() > 0,
            sorted_by(out.deep_view(), first_order()),
            out.deep_view().to_multiset() == src.subrange(0, i as int).to_multiset(),
            forall|k: int| 0 <= k < out@.len() ==> #[trigger] out@[k]@.len() > 0,
        decreases n - i,
    {
        let ghost rv = rest.deep_view();
        let ghost raw = rest@;
        let g = rest.remove(0);
        assert(g.deep_view() == src[i as int]) by {
            assert(rv[0] == src[i as int]);
        }
        assert(rest@ =~= raw.remove(0));
        assert(g@.len() == g.deep_view().len());
        assert forall|k: int| 0 <= k < rest@.len() implies #[trigger] rest.deep_view()[k] == src.subrange(i + 1, n as int)[k] by {
            assert(rest@[k] == raw[k + 1]);
            assert(rv[k + 1] == src[i + 1 + k]);
        }
        assert(rest.deep_view() =~= src.subrange(i + 1, n as int));
        let mut pos: usize = 0;
        while pos < out.len() && str_le_exec(out[pos][0].as_str(), g[0].as_str())
            invariant
                pos <= out@.len(),
                g@.len() > 0,
                forall|k: int| 0 <= k < out@.len() ==> #[trigger] out@[k]@.len() > 0,
                forall|k: int| 0 <= k < pos ==> str_le(#[trigger] out@[k]@[0]@, g@[0]@),
            decreases out@.len() - pos,
        {
            pos += 1;
        }
        let ghost before = out.deep_view();
        let ghost gv = g.deep_view();
        proof {
            crate::order::lemma_str_order_total();
            if pos < out@.len() {
                assert(!str_le(before[pos as int][0], gv[0]));
            }
            assert forall|k: int| 0 <= k < pos implies str_le(#[trigger] before[k][0], gv[0]) by {
                assert(before[k][0] == out@[k]@[0]@);
            }
        }
        out.insert(pos, g);
        proof {
            let now = out.deep_view();
            assert(now =~= before.insert(pos as int, gv));
            assert(sorted_by(now, first_order())) by {
                assert forall|a: int, b: int| 0 <= a < b < now.len() implies first_order()(now[a], now[b]) by {
                    crate::order::lemma_str_order_total();
                    if a < pos && b == pos {
                    } else if a == pos && b > pos {
                        assert(str_order()(before[pos as int][0], gv[0]) || str_order()(gv[0], before[pos as int][0]));
                        if pos < b - 1 {
                            assert(first_order()(before[pos as int], before[b - 1]));
                        }
                        assert(str_order()(gv[0], before[pos as int][0]));
                        assert(str_order()(before[pos as int][0], before[b - 1][0]));
                    } else if a < pos && b > pos {
                        assert(first_order()(before[a], before[b - 1]));
                    } else if a > pos {
                        assert(first_order()(before[a - 1], before[b - 1]));
                    } else {
                        assert(first_order()(before[a], before[b]));
                    }
                }
            }
            vstd::seq_lib::to_multiset_insert(before, pos as int, gv);
            assert(src.subrange(0, i + 1) =~= src.subrange(0, i as int).push(src[i as int]));
            vstd::seq_lib::to_multiset_build(src.subrange(0, i as int), src[i as int]);
        }
        i += 1;
    }
    assert(src.subrange(0, n as int) =~= src);
    out
}

/// Cluster theme names using a hybrid approach that combines word-level and
/// character-level similarity. This handles both cases like "tweed" +
/// "tweed-contrast" and "Rosé Pine" + "Rosé Pine (no italics)".
fn cluster_theme_names(theme_names: &[String]) -> (r: Vec<Vec<String>>)
    ensures
        clustered(theme_names.deep_view(), r.deep_view()),
        forall|k: int| 0 <= k < r@.len() ==> #[trigger] r@[k]@.len() > 0,
{
    let ghost names = theme_names.deep_view();
    let mut groups: Vec<Vec<String>> = Vec::new();
    let mut used: Vec<bool> = Vec::new();
    let mut k: usize = 0;
    while k < theme_names.len()
        invariant
            k <= theme_names@.len(),
            used@.len() == k,
            forall|m: int| 0 <= m < k ==> !used@[m],
        decreases theme_names@.len() - k,
    {
        used.push(false);
        k += 1;
    }
    assert(used@ =~= Seq::new(names.len(), |i: int| false));
    let ghost mut found: Seq<Seq<Seq<char>>> = Seq::empty();
    let mut i: usize = 0;
    assert(clusters(names) =~= found + clusters_from(names, used@, 0));
    while i < theme_names.len()
        invariant
            names == theme_names.deep_view(),
            i <= theme_names@.len(),
            used@.len() == theme_names@.len(),
            clusters(names) == found + clusters_from(names, used@, i as nat),
            groups.deep_view().len() == found.len(),
            forall|m: int| 0 <= m < found.len() ==> #[trigger] groups.deep_view()[m] == found[m].sort_by(str_order()),
            forall|m: int| 0 <= m < found.len() ==> #[trigger] found[m].len() > 0,
            forall|m: int| 0 <= m < groups@.len() ==> #[trigger] groups@[m]@.len() > 0,
        decreases theme_names@.len() - i,
    {
        if used[i] {
            i += 1;
        } else {
            let ghost used_before = used@;
            let group = scan(theme_names, i, &mut used);
            let ghost g = group.deep_view();
            proof {
                lemma_scan_group_nonempty(names, i as int, used_before, names.len());
                let rest = clusters_from(names, used@, (i + 1) as nat);
                assert(clusters_from(names, used_before, i as nat) == seq![g] + rest);
                assert(found + (seq![g] + rest) =~= found.push(g) + rest);
                found = found.push(g);
            }
            let sorted = sort_strings(group);
            proof {
                crate::order::lemma_str_order_total();
                g.lemma_sort_by_ensures(str_order());
                vstd::seq_lib::to_multiset_len(g);
                vstd::seq_lib::to_multiset_len(g.sort_by(str_order()));
            }
            let ghost before = groups.deep_view();
            groups.push(sorted);
            assert(groups.deep_view() =~= before.push(g.sort_by(str_order())));
            i += 1;
        }
    }
    proof {
        assert(clusters_from(names, used@, i as nat) =~= Seq::<Seq<Seq<char>>>::empty());
        assert(found =~= clusters(names));
        assert(groups.deep_view() =~= clusters(names).map_values(|g: Seq<Seq<char>>| g.sort_by(str_order())));
    }
    sort_groups(groups)
}

// ---------------------------------------------------------------------------
// Families
// ---------------------------------------------------------------------------

/// The common prefix of `acc` and all the names, taken from left to right.
pub open spec fn fold_prefix(acc: Seq<char>, names: Seq<Seq<char>>) -> Seq<char>
    decreases names.len(),
{
    if names.len() == 0 {
        acc
    } else {
        fold_prefix(common_prefix(acc, names[0]), names.drop_first())
    }
}

/// The name of a family of themes: the trimmed common prefix of all the
/// names when it is longer than three bytes and there are fewer than 50
/// names; else the first name when there are fewer than 20; else none.
pub open spec fn extension_name(names: Seq<Seq<char>>) -> Option<Seq<char>> {
    if names.len() == 0 {
        None
    } else {
        let p = trim(fold_prefix(names[0], names));
        if byte_len(p) > 3 && names.len() < 50 {
            Some(p)
        } else if names.len() < 20 {
            Some(names[0])
        } else {
            None
        }
    }
}

/// `q` starts every one of the names.
pub open spec fn shared_prefix(names: Seq<Seq<char>>, q: Seq<char>) -> bool {
    forall|i: int| 0 <= i < names.len() ==> has_prefix(#[trigger] names[i], q)
}

/// `q` is the longest string that starts every one of the names.
pub open spec fn longest_shared_prefix(names: Seq<Seq<char>>, q: Seq<char>) -> bool {
    &&& shared_prefix(names, q)
    &&& forall|q2: Seq<char>| #[trigger] shared_prefix(names, q2) ==> q2.len() <= q.len()
}

proof fn lemma_prefix_trans(a: Seq<char>, b: Seq<char>, c: Seq<char>)
    requires
        has_prefix(a, b),
        has_prefix(b, c),
    ensures
        has_prefix(a, c),
{
    assert(a.subrange(0, c.len() as int) =~= b.subrange(0, c.len() as int));
}

/// A string that starts both `a` and `b` starts their common prefix.
proof fn lemma_common_prefix_greatest(a: Seq<char>, b: Seq<char>, q: Seq<char>)
    requires
        has_prefix(a, q),
        has_prefix(b, q),
    ensures
        has_prefix(common_prefix(a, b), q),
{
    lemma_common_prefix(a, b);
    let cp = common_prefix(a, b);
    if q.len() > cp.len() {
        let n = cp.len() as int;
        assert(a[n] == a.subrange(0, q.len() as int)[n]);
        assert(b[n] == b.subrange(0, q.len() as int)[n]);
    }
    assert(cp.subrange(0, q.len() as int) =~= a.subrange(0, q.len() as int));
}

/// The fold of common prefixes starts `acc` and every name, and any string
/// that does so starts it.
proof fn lemma_fold_prefix(acc: Seq<char>, ns: Seq<Seq<char>>)
    ensures
        has_prefix(acc, fold_prefix(acc, ns)),
        shared_prefix(ns, fold_prefix(acc, ns)),
        forall|q: Seq<char>| has_prefix(acc, q) && #[trigger] shared_prefix(ns, q) ==> has_prefix(fold_prefix(acc, ns), q),
    decreases ns.len(),
{
    if ns.len() == 0 {
        assert(acc.subrange(0, acc.len() as int) =~= acc);
    } else {
        let c = common_prefix(acc, ns[0]);
        let rest = ns.drop_first();
        lemma_fold_prefix(c, rest);
        lemma_common_prefix(acc, ns[0]);
        let r = fold_prefix(c, rest);
        assert(has_prefix(acc, c) && has_prefix(ns[0], c)) by {
            assert(acc.subrange(0, c.len() as int) == c);
        }
        lemma_prefix_trans(acc, c, r);
        assert forall|i: int| 0 <= i < ns.len() implies has_prefix(#[trigger] ns[i], r) by {
            if i == 0 {
                lemma_prefix_trans(ns[0], c, r);
            } else {
                assert(ns[i] == rest[i - 1]);
            }
        }
        assert forall|q: Seq<char>| has_prefix(acc, q) && #[trigger] shared_prefix(ns, q) implies has_prefix(r, q) by {
            assert(has_prefix(ns[0], q));
            lemma_common_prefix_greatest(acc, ns[0], q);
            assert forall|i: int| 0 <= i < rest.len() implies has_prefix(#[trigger] rest[i], q) by {
                assert(rest[i] == ns[i + 1]);
            }
            assert(shared_prefix(rest, q));
            assert(has_prefix(c, q));
        }
    }
}

/// The name of a family is told by the longest string that starts all of
/// its names: that string, trimmed, where that is longer than three bytes
/// and there are fewer than 50 names; else the first name where there are
/// fewer than 20; else none.
pub proof fn lemma_extension_name_is_longest_shared_prefix(names: Seq<Seq<char>>, q: Seq<char>)
    requires
        names.len() > 0,
        longest_shared_prefix(names, q),
    ensures
        extension_name(names) == if byte_len(trim(q)) > 3 && names.len() < 50 {
            Some(trim(q))
        } else if names.len() < 20 {
            Some(names[0])
        } else {
            None
        },
{
    lemma_fold_prefix(names[0], names);
    let r = fold_prefix(names[0], names);
    assert(has_prefix(names[0], q));
    assert(names[0].subrange(0, names[0].len() as int) =~= names[0]);
    assert(has_prefix(names[0], names[0]));
    assert(has_prefix(r, q));
    assert(shared_prefix(names, r));
    assert(r.len() <= q.len());
    assert(r =~= q) by {
        assert(r.subrange(0, q.len() as int) == q);
        assert(r.subrange(0, r.len() as int) =~= r);
    }
}

/// Find the best extension name from a set of theme names using common prefix
/// analysis.
pub fn find_extension_name(theme_names: &[String]) -> (r: Option<String>)
    ensures
        r.deep_view() == extension_name(theme_names.deep_view()),
{
    let ghost names = theme_names.deep_view();
    if theme_names.len() == 0 {
        return None;
    }
    let first = &theme_names[0];
    let mut acc = first.clone();
    let mut i: usize = 0;
    assert(names.subrange(0, names.len() as int) =~= names);
    while i < theme_names.len()
        invariant
            names == theme_names.deep_view(),
            i <= names.len(),
            fold_prefix(names[0], names) == fold_prefix(acc@, names.subrange(i as int, names.len() as int)),
        decreases names.len() - i,
    {
        let ghost rest = names.subrange(i as int, names.len() as int);
        assert(rest.drop_first() =~= names.subrange(i + 1, names.len() as int));
        acc = find_common_prefix(acc.as_str(), theme_names[i].as_str());
        i += 1;
    }
    assert(names.subrange(i as int, names.len() as int) =~= Seq::<Seq<char>>::empty());
    let trimmed = trim_str(acc.as_str());
    let tc = chars_of(trimmed.as_str());
    if !crate::text::byte_len_below(tc.as_slice(), 4) && theme_names.len() < 50 {
        Some(trimmed)
    } else if theme_names.len() < 20 {
        Some(first.clone())
    } else {
        None
    }
}

/// The names of a list of theme names.
pub open spec fn family_groups(families: Seq<(Option<Seq<char>>, Seq<Seq<char>>)>) -> Seq<Seq<Seq<char>>> {
    Seq::new(families.len(), |k: int| families[k].1)
}

/// The families of a list of theme names: three names or fewer make one
/// unnamed family; more are clustered, each family named by its
/// extension name.
pub open spec fn grouped(names: Seq<Seq<char>>, families: Seq<(Option<Seq<char>>, Seq<Seq<char>>)>) -> bool {
    if names.len() <= 3 {
        families == seq![(None::<Seq<char>>, names)]
    } else {
        &&& clustered(names, family_groups(families))
        &&& forall|k: int| 0 <= k < families.len() ==> #[trigger] families[k].0 == extension_name(families[k].1)
    }
}

/// Group theme names into families using prefix analysis.
///
/// Returns a vector of tuples of the name of a family and the names of themes
/// that belong to that family. If it cannot determine a good name for the
/// family, it returns None. Three names or fewer make one unnamed family.
pub fn group_families(theme_names: Vec<String>) -> (r: Vec<(Option<String>, Vec<String>)>)
    ensures
        grouped(theme_names.deep_view(), r.deep_view()),
{
    if theme_names.len() <= 3 {
        let ghost names = theme_names.deep_view();
        let r = vec![(None, theme_names)];
        assert(r.deep_view() =~= seq![(None::<Seq<char>>, names)]);
        return r;
    }
    let groups = cluster_theme_names(theme_names.as_slice());
    let ghost gs = groups.deep_view();
    let mut results: Vec<(Option<String>, Vec<String>)> = Vec::new();
    let mut rest = groups;
    let n = rest.len();
    let mut i: usize = 0;
    assert(rest.deep_view() =~= gs.subrange(0, n as int));
    while i < n
        invariant
            i <= n,
            n == gs.len(),
            rest@.len() == n - i,
            rest.deep_view() == gs.subrange(i as int, n as int),
            results@.len() == i,
            forall|k: int| 0 <= k < i ==> (#[trigger] results.deep_view()[k]).1 == gs[k],
            forall|k: int| 0 <= k < i ==> (#[trigger] results.deep_view()[k]).0 == extension_name(gs[k]),
        decreases n - i,
    {
        let ghost raw = rest@;
        let ghost rv = rest.deep_view();
        let group = rest.remove(0);
        assert(group.deep_view() == gs[i as int]) by {
            assert(rv[0] == gs[i as int]);
        }
        assert(rest@ =~= raw.remove(0));
        assert forall|k: int| 0 <= k < rest@.len() implies #[trigger] rest.deep_view()[k] == gs.subrange(i + 1, n as int)[k] by {
            assert(rest@[k] == raw[k + 1]);
            assert(rv[k + 1] == gs[i + 1 + k]);
        }
        assert(rest.deep_view() =~= gs.subrange(i + 1, n as int));
        let extension_name = find_extension_name(group.as_slice());
        let ghost before = results.deep_view();
        results.push((extension_name, group));
        assert(results.deep_view() =~= before.push(results.deep_view()[i as int]));
        i += 1;
    }
    assert(family_groups(results.deep_view()) =~= gs);
    results
}

// ---------------------------------------------------------------------------
// Every name lands in exactly one family
// ---------------------------------------------------------------------------

/// All the names of a list of groups, counted with multiplicity.
pub open spec fn all_names(groups: Seq<Seq<Seq<char>>>) -> Multiset<Seq<char>>
    decreases groups.len(),
{
    if groups.len() == 0 {
        Multiset::empty()
    } else {
        groups[0].to_multiset().add(all_names(groups.drop_first()))
    }
}

/// The names from index `i` on whose places are not used yet, in order.
pub open spec fn unused_from(names: Seq<Seq<char>>, used: Seq<bool>, i: nat) -> Seq<Seq<char>>
    decreases names.len() - i,
{
    if i >= names.len() {
        Seq::empty()
    } else if used[i as int] {
        unused_from(names, used, i + 1)
    } else {
        seq![names[i as int]] + unused_from(names, used, i + 1)
    }
}

proof fn lemma_no_names(s: Seq<Seq<char>>)
    requires
        s.len() == 0,
    ensures
        s.to_multiset() == Multiset::<Seq<char>>::empty(),
{
    vstd::seq_lib::to_multiset_len(s);
    vstd::multiset::lemma_multiset_empty_len(s.to_multiset());
}

proof fn lemma_cons_multiset(x: Seq<char>, s: Seq<Seq<char>>)
    ensures
        (seq![x] + s).to_multiset() == s.to_multiset().insert(x),
{
    assert(seq![x] + s =~= s.insert(0, x));
    vstd::seq_lib::to_multiset_insert(s, 0, x);
}

/// Two markings that agree from `i` on leave the same names unused there.
proof fn lemma_unused_agree(names: Seq<Seq<char>>, u1: Seq<bool>, u2: Seq<bool>, i: nat)
    requires
        u1.len() == names.len(),
        u2.len() == names.len(),
        forall|k: int| i <= k < names.len() ==> u1[k] == u2[k],
    ensures
        unused_from(names, u1, i) == unused_from(names, u2, i),
    decreases names.len() - i,
{
    if i < names.len() {
        lemma_unused_agree(names, u1, u2, i + 1);
    }
}

/// Marking an unused place `k` takes its name out of the unused ones.
proof fn lemma_unused_mark(names: Seq<Seq<char>>, u: Seq<bool>, i: nat, k: int)
    requires
        u.len() == names.len(),
        i <= k < names.len(),
        !u[k],
    ensures
        unused_from(names, u, i).to_multiset() == unused_from(names, u.update(k, true), i).to_multiset().insert(
            names[k],
        ),
    decreases names.len() - i,
{
    let v = u.update(k, true);
    if i == k {
        lemma_unused_agree(names, u, v, i + 1);
        lemma_cons_multiset(names[k], unused_from(names, u, i + 1));
    } else {
        lemma_unused_mark(names, u, i + 1, k);
        if !u[i as int] {
            lemma_cons_multiset(names[i as int], unused_from(names, u, i + 1));
            lemma_cons_multiset(names[i as int], unused_from(names, v, i + 1));
            assert(unused_from(names, u, i).to_multiset() =~= unused_from(names, v, i).to_multiset().insert(
                names[k],
            ));
        }
    }
}

/// The greedy group of leader `i` takes, with the leader, exactly the
/// names it marks used.
proof fn lemma_scan_takes_marked(names: Seq<Seq<char>>, i: int, used: Seq<bool>, j: nat)
    requires
        used.len() == names.len(),
        0 <= i < names.len(),
        !used[i],
        forall|k: int| 0 <= k < i ==> used[k],
        j <= names.len(),
    ensures
        ({
            let (g, u) = scan_group(names, i, used, j);
            &&& u.len() == names.len()
            &&& forall|k: int| 0 <= k < names.len() && used[k] ==> u[k]
            &&& u[i]
            &&& g.to_multiset().add(unused_from(names, u, i as nat).to_multiset()) == unused_from(
                names,
                used,
                i as nat,
            ).to_multiset()
        }),
    decreases j,
{
    if j == 0 {
        lemma_unused_mark(names, used, i as nat, i);
        assert(seq![names[i]].to_multiset() =~= Multiset::empty().insert(names[i])) by {
            assert(seq![names[i]] =~= Seq::<Seq<char>>::empty().push(names[i]));
            vstd::seq_lib::to_multiset_build(Seq::<Seq<char>>::empty(), names[i]);
            lemma_no_names(Seq::<Seq<char>>::empty());
        }
        let u = used.update(i, true);
        assert(seq![names[i]].to_multiset().add(unused_from(names, u, i as nat).to_multiset())
            =~= unused_from(names, u, i as nat).to_multiset().insert(names[i]));
    } else {
        lemma_scan_takes_marked(names, i, used, (j - 1) as nat);
        let prev = scan_group(names, i, used, (j - 1) as nat);
        let k = j - 1;
        if k != i && !prev.1[k] && should_group(names[i], names[k]) {
            lemma_unused_mark(names, prev.1, i as nat, k);
            vstd::seq_lib::to_multiset_build(prev.0, names[k]);
            let u2 = prev.1.update(k, true);
            assert(prev.0.push(names[k]).to_multiset().add(unused_from(names, u2, i as nat).to_multiset())
                =~= prev.0.to_multiset().add(unused_from(names, prev.1, i as nat).to_multiset()));
        }
    }
}

/// The groups found from `i` on hold exactly the names unused there.
proof fn lemma_clusters_take_unused(names: Seq<Seq<char>>, used: Seq<bool>, i: nat)
    requires
        used.len() == names.len(),
        i <= names.len(),
        forall|k: int| 0 <= k < i ==> used[k],
    ensures
        all_names(clusters_from(names, used, i)) == unused_from(names, used, i).to_multiset(),
    decreases names.len() - i,
{
    if i >= names.len() {
        lemma_no_names(unused_from(names, used, i));
    } else if used[i as int] {
        lemma_clusters_take_unused(names, used, i + 1);
    } else {
        let g = scan_group(names, i as int, used, names.len());
        lemma_scan_takes_marked(names, i as int, used, names.len());
        lemma_clusters_take_unused(names, g.1, i + 1);
        let rest = clusters_from(names, g.1, i + 1);
        let all = seq![g.0] + rest;
        assert(all[0] == g.0);
        assert(all.drop_first() =~= rest);
        assert(unused_from(names, g.1, i) == unused_from(names, g.1, i + 1));
    }
}

/// No place is used at the start: every name from `i` on is unused.
proof fn lemma_unused_at_start(names: Seq<Seq<char>>, i: nat)
    requires
        i <= names.len(),
    ensures
        unused_from(names, Seq::new(names.len(), |k: int| false), i) == names.subrange(i as int, names.len() as int),
    decreases names.len() - i,
{
    if i < names.len() {
        lemma_unused_at_start(names, i + 1);
        assert(seq![names[i as int]] + names.subrange(i + 1 as int, names.len() as int) =~= names.subrange(
            i as int,
            names.len() as int,
        ));
    }
}

/// Taking one group out of a list takes its names out of all the names.
proof fn lemma_all_names_remove(groups: Seq<Seq<Seq<char>>>, idx: int)
    requires
        0 <= idx < groups.len(),
    ensures
        all_names(groups) == groups[idx].to_multiset().add(all_names(groups.remove(idx))),
    decreases idx,
{
    if idx == 0 {
        assert(groups.remove(0) =~= groups.drop_first());
    } else {
        let tail = groups.drop_first();
        lemma_all_names_remove(tail, idx - 1);
        let r = groups.remove(idx);
        assert(r[0] == groups[0]);
        assert(r.drop_first() =~= tail.remove(idx - 1));
        assert(all_names(groups) =~= groups[idx].to_multiset().add(all_names(r)));
    }
}

/// Lists holding the same groups, in any order, hold the same names.
proof fn lemma_all_names_permutation(a: Seq<Seq<Seq<char>>>, b: Seq<Seq<Seq<char>>>)
    requires
        a.to_multiset() == b.to_multiset(),
    ensures
        all_names(a) == all_names(b),
    decreases a.len(),
{
    vstd::seq_lib::to_multiset_len(a);
    vstd::seq_lib::to_multiset_len(b);
    if a.len() > 0 {
        let x = a[0];
        vstd::seq_lib::to_multiset_contains(a, x);
        assert(a.contains(x)) by {
            assert(a[0] == x);
        }
        vstd::seq_lib::to_multiset_contains(b, x);
        let idx = choose|idx: int| 0 <= idx < b.len() && b[idx] == x;
        lemma_all_names_remove(b, idx);
        vstd::seq_lib::to_multiset_remove(a, 0);
        vstd::seq_lib::to_multiset_remove(b, idx);
        assert(a.remove(0) =~= a.drop_first());
        lemma_all_names_permutation(a.drop_first(), b.remove(idx));
    }
}

/// Sorting each group keeps the names.
proof fn lemma_all_names_sorted(groups: Seq<Seq<Seq<char>>>)
    ensures
        all_names(groups.map_values(|g: Seq<Seq<char>>| g.sort_by(str_order()))) == all_names(groups),
    decreases groups.len(),
{
    let sorted = groups.map_values(|g: Seq<Seq<char>>| g.sort_by(str_order()));
    if groups.len() > 0 {
        crate::order::lemma_str_order_total();
        groups[0].lemma_sort_by_ensures(str_order());
        lemma_all_names_sorted(groups.drop_first());
        assert(sorted.drop_first() =~= groups.drop_first().map_values(
            |g: Seq<Seq<char>>| g.sort_by(str_order()),
        ));
    }
}

/// Every theme name lands in exactly one family: the names of all the
/// families, counted with multiplicity, are the names that were grouped.
pub proof fn lemma_families_partition_names(
    names: Seq<Seq<char>>,
    families: Seq<(Option<Seq<char>>, Seq<Seq<char>>)>,
)
    requires
        grouped(names, families),
    ensures
        all_names(family_groups(families)) == names.to_multiset(),
{
    if names.len() <= 3 {
        let gs = family_groups(families);
        assert(gs =~= seq![names]);
        assert(gs.drop_first() =~= Seq::<Seq<Seq<char>>>::empty());
        assert(all_names(gs.drop_first()) == Multiset::<Seq<char>>::empty());
        assert(gs[0] == names);
        assert(all_names(gs) =~= names.to_multiset().add(Multiset::<Seq<char>>::empty()));
    } else {
        let gs = family_groups(families);
        let cs = clusters(names);
        let sorted = cs.map_values(|g: Seq<Seq<char>>| g.sort_by(str_order()));
        lemma_all_names_permutation(gs, sorted);
        lemma_all_names_sorted(cs);
        let none = Seq::new(names.len(), |k: int| false);
        lemma_clusters_take_unused(names, none, 0);
        lemma_unused_at_start(names, 0);
        assert(names.subrange(0, names.len() as int) =~= names);
    }
}

// ---------------------------------------------------------------------------
// The families of a list of names are determined
// ---------------------------------------------------------------------------

/// Places holding equal names are used alike.
pub open spec fn used_alike(names: Seq<Seq<char>>, used: Seq<bool>) -> bool {
    forall|p: int, q: int|
        0 <= p < names.len() && 0 <= q < names.len() && #[trigger] names[p] == #[trigger] names[q] ==> used[p]
            == used[q]
}

/// Every group holds a name, and no two groups lead with the same name.
pub open spec fn distinct_leads(groups: Seq<Seq<Seq<char>>>) -> bool {
    &&& forall|i: int| 0 <= i < groups.len() ==> #[trigger] groups[i].len() > 0
    &&& forall|i: int, j: int|
        0 <= i < groups.len() && 0 <= j < groups.len() && i != j ==> #[trigger] groups[i][0] != #[trigger] groups[j][0]
}

/// A group leads with the same name as itself.
proof fn lemma_should_group_reflexive(x: Seq<char>)
    ensures
        should_group(x, x),
{
}

/// The greedy scan marks the leader and every place below `j` whose name
/// belongs with the leader's; its group holds the leader's name and names
/// of unused places below `j` that belong with it.
proof fn lemma_scan_marks(names: Seq<Seq<char>>, leader: int, used: Seq<bool>, j: nat)
    requires
        used.len() == names.len(),
        0 <= leader < names.len(),
        j <= names.len(),
    ensures
        scan_group(names, leader, used, j).1.len() == names.len(),
        forall|k: int|
            0 <= k < names.len() ==> #[trigger] scan_group(names, leader, used, j).1[k] == (used[k] || k == leader || (k
                < j && should_group(names[leader], names[k]))),
        forall|x: Seq<char>|
            #[trigger] scan_group(names, leader, used, j).0.contains(x) ==> exists|k: int|
                0 <= k < names.len() && names[k] == x && (k == leader || (k < j && !used[k] && should_group(
                    names[leader],
                    names[k],
                ))),
    decreases j,
{
    if j == 0 {
        assert forall|x: Seq<char>| #[trigger] scan_group(names, leader, used, j).0.contains(x) implies exists|k: int|
            0 <= k < names.len() && names[k] == x && (k == leader || (k < j && !used[k] && should_group(
                names[leader],
                names[k],
            ))) by {
            assert(scan_group(names, leader, used, j).0 == seq![names[leader]]);
            assert(seq![names[leader]][0] == x);
        }
    } else {
        lemma_scan_marks(names, leader, used, (j - 1) as nat);
        let prev = scan_group(names, leader, used, (j - 1) as nat);
        let k0 = j - 1;
        let g = scan_group(names, leader, used, j);
        assert forall|k: int| 0 <= k < names.len() implies #[trigger] g.1[k] == (used[k] || k == leader || (k < j
            && should_group(names[leader], names[k]))) by {
            assert(prev.1[k] == (used[k] || k == leader || (k < j - 1 && should_group(names[leader], names[k]))));
        }
        assert forall|x: Seq<char>| #[trigger] g.0.contains(x) implies exists|k: int|
            0 <= k < names.len() && names[k] == x && (k == leader || (k < j && !used[k] && should_group(
                names[leader],
                names[k],
            ))) by {
            if k0 != leader && !prev.1[k0] && should_group(names[leader], names[k0]) {
                let w = choose|w: int| 0 <= w < g.0.len() && g.0[w] == x;
                if w < prev.0.len() {
                    assert(prev.0[w] == x);
                    assert(prev.0.contains(x));
                } else {
                    assert(names[k0] == x);
                    assert(prev.1[k0] == (used[k0] || k0 == leader || (k0 < j - 1 && should_group(
                        names[leader],
                        names[k0],
                    ))));
                }
            }
        }
    }
}

/// A leader's scan keeps places with equal names used alike.
proof fn lemma_scan_keeps_alike(names: Seq<Seq<char>>, leader: int, used: Seq<bool>)
    requires
        used.len() == names.len(),
        0 <= leader < names.len(),
        used_alike(names, used),
    ensures
        used_alike(names, scan_group(names, leader, used, names.len()).1),
{
    lemma_scan_marks(names, leader, used, names.len());
    let u = scan_group(names, leader, used, names.len()).1;
    assert forall|p: int, q: int|
        0 <= p < names.len() && 0 <= q < names.len() && #[trigger] names[p] == #[trigger] names[q] implies u[p]
        == u[q] by {
        lemma_should_group_reflexive(names[leader]);
        assert(u[p] == (used[p] || p == leader || should_group(names[leader], names[p])));
        assert(u[q] == (used[q] || q == leader || should_group(names[leader], names[q])));
    }
}

/// The groups found from `i` on hold names of unused places only, share
/// no name, and are not empty.
proof fn lemma_clusters_disjoint(names: Seq<Seq<char>>, used: Seq<bool>, i: nat)
    requires
        used.len() == names.len(),
        i <= names.len(),
        used_alike(names, used),
        forall|k: int| 0 <= k < i ==> used[k],
    ensures
        forall|a: int, x: Seq<char>|
            0 <= a < clusters_from(names, used, i).len() && #[trigger] clusters_from(names, used, i)[a].contains(x)
                ==> exists|k: int| i <= k < names.len() && names[k] == x && !used[k],
        forall|a: int, b: int, x: Seq<char>|
            0 <= a < b < clusters_from(names, used, i).len() && #[trigger] clusters_from(names, used, i)[a].contains(x)
                ==> !#[trigger] clusters_from(names, used, i)[b].contains(x),
        forall|a: int|
            0 <= a < clusters_from(names, used, i).len() ==> #[trigger] clusters_from(names, used, i)[a].len() > 0,
    decreases names.len() - i,
{
    if i >= names.len() {
        assert(clusters_from(names, used, i).len() == 0);
    } else if used[i as int] {
        lemma_clusters_disjoint(names, used, i + 1);
        assert(clusters_from(names, used, i) == clusters_from(names, used, i + 1));
    } else {
        let g = scan_group(names, i as int, used, names.len());
        let u = g.1;
        lemma_scan_marks(names, i as int, used, names.len());
        lemma_scan_keeps_alike(names, i as int, used);
        lemma_scan_group_nonempty(names, i as int, used, names.len());
        assert forall|k: int| 0 <= k < i + 1 implies u[k] by {
            assert(u[k] == (used[k] || k == i || should_group(names[i as int], names[k])));
        }
        lemma_clusters_disjoint(names, u, i + 1);
        let rest = clusters_from(names, u, i + 1);
        let cs = clusters_from(names, used, i);
        assert(cs == seq![g.0] + rest);
        assert forall|a: int, x: Seq<char>| 0 <= a < cs.len() && #[trigger] cs[a].contains(x) implies exists|k: int|
            i <= k < names.len() && names[k] == x && !used[k] by {
            if a == 0 {
                assert(cs[0] == g.0);
                let k = choose|k: int|
                    0 <= k < names.len() && names[k] == x && (k == i || (k < names.len() && !used[k] && should_group(
                        names[i as int],
                        names[k],
                    )));
                if k < i {
                    assert(used[k]);
                }
            } else {
                assert(cs[a] == rest[a - 1]);
                let k = choose|k: int| i + 1 <= k < names.len() && names[k] == x && !u[k];
                assert(u[k] == (used[k] || k == i || should_group(names[i as int], names[k])));
            }
        }
        assert forall|a: int, b: int, x: Seq<char>| 0 <= a < b < cs.len() && #[trigger] cs[a].contains(x) implies !#[trigger] cs[b].contains(x) by {
            assert(cs[b] == rest[b - 1]);
            if a == 0 {
                assert(cs[0] == g.0);
                let k = choose|k: int|
                    0 <= k < names.len() && names[k] == x && (k == i || (k < names.len() && !used[k] && should_group(
                        names[i as int],
                        names[k],
                    )));
                assert(u[k] == (used[k] || k == i || should_group(names[i as int], names[k])));
                if rest[b - 1].contains(x) {
                    let k2 = choose|k2: int| i + 1 <= k2 < names.len() && names[k2] == x && !u[k2];
                    assert(names[k] == names[k2]);
                }
            } else {
                assert(cs[a] == rest[a - 1]);
            }
        }
        assert forall|a: int| 0 <= a < cs.len() implies #[trigger] cs[a].len() > 0 by {
            if a > 0 {
                assert(cs[a] == rest[a - 1]);
            }
        }
    }
}

/// The sorted groups of the greedy clustering lead with distinct names.
proof fn lemma_sorted_clusters_distinct(names: Seq<Seq<char>>)
    ensures
        distinct_leads(clusters(names).map_values(|g: Seq<Seq<char>>| g.sort_by(str_order()))),
{
    let none = Seq::new(names.len(), |k: int| false);
    lemma_clusters_disjoint(names, none, 0);
    let cs = clusters(names);
    let cl = cs.map_values(|g: Seq<Seq<char>>| g.sort_by(str_order()));
    crate::order::lemma_str_order_total();
    assert forall|a: int| 0 <= a < cl.len() implies #[trigger] cl[a].len() > 0 by {
        cs[a].lemma_sort_by_ensures(str_order());
        vstd::seq_lib::to_multiset_len(cs[a]);
        vstd::seq_lib::to_multiset_len(cl[a]);
    }
    assert forall|a: int, b: int| 0 <= a < cl.len() && 0 <= b < cl.len() && a != b implies #[trigger] cl[a][0]
        != #[trigger] cl[b][0] by {
        cs[a].lemma_sort_by_ensures(str_order());
        cs[b].lemma_sort_by_ensures(str_order());
        vstd::seq_lib::to_multiset_len(cs[a]);
        vstd::seq_lib::to_multiset_len(cl[a]);
        vstd::seq_lib::to_multiset_len(cs[b]);
        vstd::seq_lib::to_multiset_len(cl[b]);
        let x = cl[a][0];
        assert(cl[a].contains(x)) by {
            assert(cl[a][0] == x);
        }
        vstd::seq_lib::to_multiset_contains(cl[a], x);
        vstd::seq_lib::to_multiset_contains(cs[a], x);
        if cl[b][0] == x {
            assert(cl[b].contains(x)) by {
                assert(cl[b][0] == x);
            }
            vstd::seq_lib::to_multiset_contains(cl[b], x);
            vstd::seq_lib::to_multiset_contains(cs[b], x);
            if a < b {
                assert(cs[a].contains(x));
            } else {
                assert(cs[b].contains(x));
            }
        }
    }
}

/// A value at two places of a list counts at least twice.
proof fn lemma_two_places<A>(s: Seq<A>, i: int, j: int)
    requires
        0 <= i < s.len(),
        0 <= j < s.len(),
        i != j,
        s[i] == s[j],
    ensures
        s.to_multiset().count(s[i]) >= 2,
{
    broadcast use vstd::multiset::group_multiset_axioms;

    let r = s.remove(i);
    vstd::seq_lib::to_multiset_remove(s, i);
    let jj = if j < i {
        j
    } else {
        j - 1
    };
    assert(r[jj] == s[i]);
    vstd::seq_lib::to_multiset_contains(r, s[i]);
    vstd::seq_lib::to_multiset_contains(s, s[i]);
}

/// A value that counts at least twice stands at two places.
proof fn lemma_two_counts<A>(s: Seq<A>, i: int)
    requires
        0 <= i < s.len(),
        s.to_multiset().count(s[i]) >= 2,
    ensures
        exists|j: int| 0 <= j < s.len() && j != i && s[j] == s[i],
{
    broadcast use vstd::multiset::group_multiset_axioms;

    let r = s.remove(i);
    vstd::seq_lib::to_multiset_remove(s, i);
    vstd::seq_lib::to_multiset_contains(r, s[i]);
    let m = choose|m: int| 0 <= m < r.len() && r[m] == s[i];
    if m < i {
        assert(s[m] == r[m]);
    } else {
        assert(s[m + 1] == r[m]);
    }
}

/// Holding the same groups as a list whose groups lead with distinct names,
/// a list's groups lead with distinct names too.
proof fn lemma_distinct_leads_transfer(s: Seq<Seq<Seq<char>>>, t: Seq<Seq<Seq<char>>>)
    requires
        s.to_multiset() == t.to_multiset(),
        distinct_leads(t),
    ensures
        distinct_leads(s),
{
    assert forall|i: int| 0 <= i < s.len() implies #[trigger] s[i].len() > 0 by {
        assert(s.contains(s[i]));
        vstd::seq_lib::to_multiset_contains(s, s[i]);
        vstd::seq_lib::to_multiset_contains(t, s[i]);
        let w = choose|w: int| 0 <= w < t.len() && t[w] == s[i];
    }
    assert forall|i: int, j: int| 0 <= i < s.len() && 0 <= j < s.len() && i != j implies #[trigger] s[i][0]
        != #[trigger] s[j][0] by {
        assert(s.contains(s[i]));
        assert(s.contains(s[j]));
        vstd::seq_lib::to_multiset_contains(s, s[i]);
        vstd::seq_lib::to_multiset_contains(t, s[i]);
        vstd::seq_lib::to_multiset_contains(s, s[j]);
        vstd::seq_lib::to_multiset_contains(t, s[j]);
        let wi = choose|w: int| 0 <= w < t.len() && t[w] == s[i];
        let wj = choose|w: int| 0 <= w < t.len() && t[w] == s[j];
        if s[i][0] == s[j][0] {
            if wi == wj {
                lemma_two_places(s, i, j);
                lemma_two_counts(t, wi);
                let w2 = choose|w2: int| 0 <= w2 < t.len() && w2 != wi && t[w2] == t[wi];
                assert(t[wi][0] == t[w2][0]);
            } else {
                assert(t[wi][0] == t[wj][0]);
            }
        }
    }
}

/// Two lists holding the same groups, each ordered by the groups' first
/// names, which are distinct, are one list.
proof fn lemma_sorted_groups_equal(a: Seq<Seq<Seq<char>>>, b: Seq<Seq<Seq<char>>>)
    requires
        a.to_multiset() == b.to_multiset(),
        sorted_by(a, first_order()),
        sorted_by(b, first_order()),
        distinct_leads(a),
        distinct_leads(b),
    ensures
        a == b,
    decreases a.len(),
{
    vstd::seq_lib::to_multiset_len(a);
    vstd::seq_lib::to_multiset_len(b);
    if a.len() == 0 {
        assert(a =~= b);
    } else {
        crate::order::lemma_str_order_total();
        assert(a.contains(a[0]));
        assert(b.contains(b[0]));
        vstd::seq_lib::to_multiset_contains(a, a[0]);
        vstd::seq_lib::to_multiset_contains(b, a[0]);
        vstd::seq_lib::to_multiset_contains(a, b[0]);
        vstd::seq_lib::to_multiset_contains(b, b[0]);
        let m = choose|m: int| 0 <= m < b.len() && b[m] == a[0];
        let n = choose|n: int| 0 <= n < a.len() && a[n] == b[0];
        if n != 0 {
            assert(first_order()(a[0], a[n]));
            if m != 0 {
                assert(first_order()(b[0], b[m]));
            }
            assert(str_order()(a[0][0], b[0][0]) && str_order()(b[0][0], a[0][0]));
            assert(a[0][0] != a[n][0]);
        }
        assert(a[0] == b[0]);
        let a2 = a.drop_first();
        let b2 = b.drop_first();
        vstd::seq_lib::to_multiset_remove(a, 0);
        vstd::seq_lib::to_multiset_remove(b, 0);
        assert(a.remove(0) =~= a2);
        assert(b.remove(0) =~= b2);
        assert(sorted_by(a2, first_order())) by {
            assert forall|x: int, y: int| 0 <= x < y < a2.len() implies first_order()(a2[x], a2[y]) by {
                assert(first_order()(a[x + 1], a[y + 1]));
            }
        }
        assert(sorted_by(b2, first_order())) by {
            assert forall|x: int, y: int| 0 <= x < y < b2.len() implies first_order()(b2[x], b2[y]) by {
                assert(first_order()(b[x + 1], b[y + 1]));
            }
        }
        assert(distinct_leads(a2)) by {
            assert forall|x: int| 0 <= x < a2.len() implies #[trigger] a2[x].len() > 0 by {
                assert(a2[x] == a[x + 1]);
            }
            assert forall|x: int, y: int| 0 <= x < a2.len() && 0 <= y < a2.len() && x != y implies #[trigger] a2[x][0]
                != #[trigger] a2[y][0] by {
                assert(a[x + 1][0] != a[y + 1][0]);
            }
        }
        assert(distinct_leads(b2)) by {
            assert forall|x: int| 0 <= x < b2.len() implies #[trigger] b2[x].len() > 0 by {
                assert(b2[x] == b[x + 1]);
            }
            assert forall|x: int, y: int| 0 <= x < b2.len() && 0 <= y < b2.len() && x != y implies #[trigger] b2[x][0]
                != #[trigger] b2[y][0] by {
                assert(b[x + 1][0] != b[y + 1][0]);
            }
        }
        lemma_sorted_groups_equal(a2, b2);
        assert(a =~= b) by {
            assert forall|x: int| 0 <= x < a.len() implies a[x] == b[x] by {
                if x > 0 {
                    assert(a[x] == a2[x - 1]);
                    assert(b[x] == b2[x - 1]);
                }
            }
        }
    }
}

/// The families of a list of theme names are determined: only one list
/// of families groups the names, so grouping the same names always gives
/// the same families in the same order.
pub proof fn lemma_grouping_is_determined(
    names: Seq<Seq<char>>,
    f1: Seq<(Option<Seq<char>>, Seq<Seq<char>>)>,
    f2: Seq<(Option<Seq<char>>, Seq<Seq<char>>)>,
)
    requires
        grouped(names, f1),
        grouped(names, f2),
    ensures
        f1 == f2,
{
    if names.len() > 3 {
        let cl = clusters(names).map_values(|g: Seq<Seq<char>>| g.sort_by(str_order()));
        lemma_sorted_clusters_distinct(names);
        let g1 = family_groups(f1);
        let g2 = family_groups(f2);
        lemma_distinct_leads_transfer(g1, cl);
        lemma_distinct_leads_transfer(g2, cl);
        lemma_sorted_groups_equal(g1, g2);
        assert(f1.len() == g1.len());
        assert(f2.len() == g2.len());
        assert forall|k: int| 0 <= k < f1.len() implies f1[k] == f2[k] by {
            assert(g1[k] == f1[k].1);
            assert(g2[k] == f2[k].1);
        }
        assert(f1 =~= f2);
    }
}

} // verus!
