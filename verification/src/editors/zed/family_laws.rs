//! Every theme of a VSCode extension lands in a family of the Zed extension
//! made from it.

use vstd::prelude::*;

use super::extension::{
    families_from, families_grouped_from, family_of, last_named, take_themes, theme_names, zed_theme_from,
};
use super::theme::ZedThemeFamily;
use crate::editors::vscode::theme::VsCodeTheme;
use crate::grouping::{all_names, family_groups, grouped, lemma_families_partition_names};

verus! {

/// A theme of that name is among the first `n` themes: the last of them
/// is one.
proof fn lemma_last_named(themes: Seq<VsCodeTheme>, name: Seq<char>, n: int)
    requires
        0 <= n <= themes.len(),
        exists|i: int| 0 <= i < n && #[trigger] themes[i].name@ == name,
    ensures
        last_named(themes, name, n) is Some,
        0 <= last_named(themes, name, n).unwrap() < n,
        themes[last_named(themes, name, n).unwrap()].name@ == name,
    decreases n,
{
    if themes[n - 1].name@ != name {
        let i = choose|i: int| 0 <= i < n && #[trigger] themes[i].name@ == name;
        assert(i < n - 1);
        lemma_last_named(themes, name, n - 1);
    }
}

/// A name appears among the names of all groups just when some group
/// holds it.
proof fn lemma_all_names_count(groups: Seq<Seq<Seq<char>>>, x: Seq<char>)
    ensures
        all_names(groups).count(x) > 0 <==> exists|k: int| 0 <= k < groups.len() && #[trigger] groups[k].contains(x),
    decreases groups.len(),
{
    if groups.len() > 0 {
        lemma_all_names_count(groups.drop_first(), x);
        vstd::seq_lib::to_multiset_contains(groups[0], x);
        if exists|k: int| 0 <= k < groups.drop_first().len() && #[trigger] groups.drop_first()[k].contains(x) {
            let k = choose|k: int| 0 <= k < groups.drop_first().len() && #[trigger] groups.drop_first()[k].contains(x);
            assert(groups[k + 1] == groups.drop_first()[k]);
        }
        if exists|k: int| 0 <= k < groups.len() && #[trigger] groups[k].contains(x) {
            let k = choose|k: int| 0 <= k < groups.len() && #[trigger] groups[k].contains(x);
            if k > 0 {
                assert(groups.drop_first()[k - 1] == groups[k]);
            }
        }
    } else {
        assert(all_names(groups).count(x) == 0);
    }
}

/// Taking the themes of a group of theme names takes every name of the
/// group that was not taken before, each through its last theme.
proof fn lemma_take_themes(themes: Seq<VsCodeTheme>, names: Seq<Seq<char>>, taken: Seq<Seq<char>>)
    requires
        forall|i: int| 0 <= i < names.len() ==> theme_names(themes).contains(#[trigger] names[i]),
    ensures
        ({
            let t = take_themes(themes, names, taken);
            &&& forall|x: Seq<char>| #[trigger] t.1.contains(x) <==> (taken.contains(x) || names.contains(x))
            &&& forall|j: int|
                0 <= j < t.0.len() ==> 0 <= #[trigger] t.0[j] < themes.len() && t.0[j] == last_named(
                    themes,
                    themes[t.0[j]].name@,
                    themes.len() as int,
                ).unwrap()
            &&& forall|x: Seq<char>|
                names.contains(x) && !taken.contains(x) ==> exists|j: int|
                    0 <= j < t.0.len() && #[trigger] t.0[j] == last_named(themes, x, themes.len() as int).unwrap()
        }),
    decreases names.len(),
{
    if names.len() > 0 {
        let init = names.drop_last();
        assert forall|i: int| 0 <= i < init.len() implies theme_names(themes).contains(#[trigger] init[i]) by {
            assert(init[i] == names[i]);
        }
        lemma_take_themes(themes, init, taken);
        let prev = take_themes(themes, init, taken);
        let name = names.last();
        assert(theme_names(themes).contains(name)) by {
            assert(names[names.len() - 1] == name);
        }
        let w = choose|w: int| 0 <= w < theme_names(themes).len() && theme_names(themes)[w] == name;
        assert(themes[w].name@ == name);
        lemma_last_named(themes, name, themes.len() as int);
        let t = take_themes(themes, names, taken);
        assert forall|x: Seq<char>| #[trigger] t.1.contains(x) <==> (taken.contains(x) || names.contains(x)) by {
            if init.contains(x) {
                let j = choose|j: int| 0 <= j < init.len() && init[j] == x;
                assert(names[j] == x);
            }
            if names.contains(x) && x != name {
                let j = choose|j: int| 0 <= j < names.len() && names[j] == x;
                assert(j < names.len() - 1);
                assert(init[j] == x);
            }
            if names.contains(x) && x == name {
                assert(names[names.len() - 1] == x);
            }
            if !prev.1.contains(name) {
                if t.1.contains(x) && x != name {
                    let j = choose|j: int| 0 <= j < t.1.len() && t.1[j] == x;
                    assert(j < prev.1.len());
                    assert(prev.1[j] == x);
                }
                if prev.1.contains(x) {
                    let j = choose|j: int| 0 <= j < prev.1.len() && prev.1[j] == x;
                    assert(t.1[j] == x);
                }
                if x == name {
                    assert(t.1[prev.1.len() as int] == x);
                }
            }
        }
        assert forall|x: Seq<char>|
            names.contains(x) && !taken.contains(x) implies exists|j: int|
                0 <= j < t.0.len() && #[trigger] t.0[j] == last_named(themes, x, themes.len() as int).unwrap() by {
            if x != name {
                let j = choose|j: int| 0 <= j < names.len() && names[j] == x;
                assert(j < names.len() - 1);
                assert(init[j] == x);
                let q = choose|q: int|
                    0 <= q < prev.0.len() && #[trigger] prev.0[q] == last_named(themes, x, themes.len() as int).unwrap();
                assert(t.0[q] == prev.0[q]);
            } else if prev.1.contains(name) {
                // The name was taken by this group before: through its last theme.
                assert(!taken.contains(x));
                assert(init.contains(x));
                let q = choose|q: int|
                    0 <= q < prev.0.len() && #[trigger] prev.0[q] == last_named(themes, x, themes.len() as int).unwrap();
                assert(t.0[q] == prev.0[q]);
            } else {
                assert(t.0[prev.0.len() as int] == last_named(themes, x, themes.len() as int).unwrap());
            }
        }
        assert forall|j: int| 0 <= j < t.0.len() implies 0 <= #[trigger] t.0[j] < themes.len() && t.0[j] == last_named(
            themes,
            themes[t.0[j]].name@,
            themes.len() as int,
        ).unwrap() by {
            if j < prev.0.len() {
                assert(t.0[j] == prev.0[j]);
            }
        }
    }
}

/// The families made from groups of theme names take every name of every
/// group, each through its last theme.
proof fn lemma_families_from(themes: Seq<VsCodeTheme>, groups: Seq<(Option<Seq<char>>, Seq<Seq<char>>)>)
    requires
        forall|k: int, i: int|
            0 <= k < groups.len() && 0 <= i < groups[k].1.len() ==> theme_names(themes).contains(
                #[trigger] groups[k].1[i],
            ),
    ensures
        ({
            let f = families_from(themes, groups);
            &&& forall|x: Seq<char>|
                #[trigger] f.1.contains(x) <==> exists|k: int| 0 <= k < groups.len() && #[trigger] groups[k].1.contains(x)
            &&& forall|x: Seq<char>|
                #[trigger] f.1.contains(x) ==> exists|k: int, j: int|
                    0 <= k < f.0.len() && 0 <= j < f.0[k].1.len() && #[trigger] f.0[k].1[j] == last_named(
                        themes,
                        x,
                        themes.len() as int,
                    ).unwrap()
        }),
    decreases groups.len(),
{
    if groups.len() > 0 {
        let init = groups.drop_last();
        assert forall|k: int, i: int| 0 <= k < init.len() && 0 <= i < init[k].1.len() implies theme_names(
            themes,
        ).contains(#[trigger] init[k].1[i]) by {
            assert(init[k] == groups[k]);
        }
        lemma_families_from(themes, init);
        let prev = families_from(themes, init);
        let g = groups.last();
        assert forall|i: int| 0 <= i < g.1.len() implies theme_names(themes).contains(#[trigger] g.1[i]) by {
            assert(groups[groups.len() - 1] == g);
        }
        lemma_take_themes(themes, g.1, prev.1);
        let t = take_themes(themes, g.1, prev.1);
        let f = families_from(themes, groups);
        assert forall|x: Seq<char>|
            #[trigger] f.1.contains(x) <==> exists|k: int| 0 <= k < groups.len() && #[trigger] groups[k].1.contains(x) by {
            if exists|k: int| 0 <= k < init.len() && #[trigger] init[k].1.contains(x) {
                let k = choose|k: int| 0 <= k < init.len() && #[trigger] init[k].1.contains(x);
                assert(groups[k] == init[k]);
            }
            if exists|k: int| 0 <= k < groups.len() && #[trigger] groups[k].1.contains(x) {
                let k = choose|k: int| 0 <= k < groups.len() && #[trigger] groups[k].1.contains(x);
                if k < init.len() {
                    assert(init[k] == groups[k]);
                }
            }
        }
        assert forall|x: Seq<char>| #[trigger] f.1.contains(x) implies exists|k: int, j: int|
            0 <= k < f.0.len() && 0 <= j < f.0[k].1.len() && #[trigger] f.0[k].1[j] == last_named(
                themes,
                x,
                themes.len() as int,
            ).unwrap() by {
            if prev.1.contains(x) {
                let (k, j) = choose|k: int, j: int|
                    0 <= k < prev.0.len() && 0 <= j < prev.0[k].1.len() && #[trigger] prev.0[k].1[j] == last_named(
                        themes,
                        x,
                        themes.len() as int,
                    ).unwrap();
                assert(f.0[k] == prev.0[k]);
            } else {
                assert(g.1.contains(x));
                let q = choose|q: int|
                    0 <= q < t.0.len() && #[trigger] t.0[q] == last_named(themes, x, themes.len() as int).unwrap();
                assert(t.0.len() > 0);
                assert(f.0[prev.0.len() as int].1 == t.0);
            }
        }
    }
}

/// The themes a group takes bear names not taken before, none twice, and
/// their names are taken afterwards.
proof fn lemma_take_themes_fresh(themes: Seq<VsCodeTheme>, names: Seq<Seq<char>>, taken: Seq<Seq<char>>)
    requires
        forall|i: int| 0 <= i < names.len() ==> theme_names(themes).contains(#[trigger] names[i]),
    ensures
        ({
            let t = take_themes(themes, names, taken);
            &&& forall|x: Seq<char>| taken.contains(x) ==> #[trigger] t.1.contains(x)
            &&& forall|j: int|
                0 <= j < t.0.len() ==> !taken.contains(themes[#[trigger] t.0[j]].name@) && t.1.contains(
                    themes[t.0[j]].name@,
                )
            &&& forall|j1: int, j2: int|
                0 <= j1 < j2 < t.0.len() ==> themes[#[trigger] t.0[j1]].name@ != themes[#[trigger] t.0[j2]].name@
        }),
    decreases names.len(),
{
    if names.len() > 0 {
        let init = names.drop_last();
        assert forall|i: int| 0 <= i < init.len() implies theme_names(themes).contains(#[trigger] init[i]) by {
            assert(init[i] == names[i]);
        }
        lemma_take_themes_fresh(themes, init, taken);
        let prev = take_themes(themes, init, taken);
        let name = names.last();
        assert(theme_names(themes).contains(name)) by {
            assert(names[names.len() - 1] == name);
        }
        let w = choose|w: int| 0 <= w < theme_names(themes).len() && theme_names(themes)[w] == name;
        assert(themes[w].name@ == name);
        lemma_last_named(themes, name, themes.len() as int);
        let t = take_themes(themes, names, taken);
        if !prev.1.contains(name) {
            let i = last_named(themes, name, themes.len() as int).unwrap();
            assert(t.0 == prev.0.push(i));
            assert(t.1 == prev.1.push(name));
            assert forall|x: Seq<char>| taken.contains(x) implies #[trigger] t.1.contains(x) by {
                assert(prev.1.contains(x));
                let q = choose|q: int| 0 <= q < prev.1.len() && prev.1[q] == x;
                assert(t.1[q] == x);
            }
            assert forall|j: int| 0 <= j < t.0.len() implies !taken.contains(themes[#[trigger] t.0[j]].name@)
                && t.1.contains(themes[t.0[j]].name@) by {
                if j < prev.0.len() {
                    assert(t.0[j] == prev.0[j]);
                    let x = themes[prev.0[j]].name@;
                    assert(prev.1.contains(x));
                    let q = choose|q: int| 0 <= q < prev.1.len() && prev.1[q] == x;
                    assert(t.1[q] == x);
                } else {
                    assert(t.0[j] == i);
                    assert(t.1[prev.1.len() as int] == name);
                    if taken.contains(name) {
                        assert(prev.1.contains(name));
                    }
                }
            }
            assert forall|j1: int, j2: int| 0 <= j1 < j2 < t.0.len() implies themes[#[trigger] t.0[j1]].name@
                != themes[#[trigger] t.0[j2]].name@ by {
                assert(t.0[j1] == prev.0[j1]);
                if j2 < prev.0.len() {
                    assert(t.0[j2] == prev.0[j2]);
                } else {
                    assert(prev.1.contains(themes[prev.0[j1]].name@));
                }
            }
        }
    }
}

/// The themes the families take bear names that are taken, and no name
/// twice.
proof fn lemma_families_fresh(themes: Seq<VsCodeTheme>, groups: Seq<(Option<Seq<char>>, Seq<Seq<char>>)>)
    requires
        forall|k: int, i: int|
            0 <= k < groups.len() && 0 <= i < groups[k].1.len() ==> theme_names(themes).contains(
                #[trigger] groups[k].1[i],
            ),
    ensures
        ({
            let f = families_from(themes, groups);
            &&& forall|k: int, j: int|
                0 <= k < f.0.len() && 0 <= j < f.0[k].1.len() ==> f.1.contains(themes[#[trigger] f.0[k].1[j]].name@)
            &&& forall|k1: int, j1: int, k2: int, j2: int|
                0 <= k1 < f.0.len() && 0 <= j1 < f.0[k1].1.len() && 0 <= k2 < f.0.len() && 0 <= j2 < f.0[k2].1.len()
                    && (k1 != k2 || j1 != j2) ==> themes[#[trigger] f.0[k1].1[j1]].name@ != themes[#[trigger] f.0[k2].1[j2]].name@
        }),
    decreases groups.len(),
{
    if groups.len() > 0 {
        let init = groups.drop_last();
        assert forall|k: int, i: int| 0 <= k < init.len() && 0 <= i < init[k].1.len() implies theme_names(
            themes,
        ).contains(#[trigger] init[k].1[i]) by {
            assert(init[k] == groups[k]);
        }
        lemma_families_fresh(themes, init);
        let prev = families_from(themes, init);
        let g = groups.last();
        assert forall|i: int| 0 <= i < g.1.len() implies theme_names(themes).contains(#[trigger] g.1[i]) by {
            assert(groups[groups.len() - 1] == g);
        }
        lemma_take_themes_fresh(themes, g.1, prev.1);
        let t = take_themes(themes, g.1, prev.1);
        let f = families_from(themes, groups);
        assert forall|k: int, j: int| 0 <= k < f.0.len() && 0 <= j < f.0[k].1.len() implies f.1.contains(
            themes[#[trigger] f.0[k].1[j]].name@,
        ) by {
            if k < prev.0.len() {
                assert(f.0[k] == prev.0[k]);
            } else {
                assert(f.0[k].1 == t.0);
            }
        }
        assert forall|k1: int, j1: int, k2: int, j2: int|
            0 <= k1 < f.0.len() && 0 <= j1 < f.0[k1].1.len() && 0 <= k2 < f.0.len() && 0 <= j2 < f.0[k2].1.len()
                && (k1 != k2 || j1 != j2) implies themes[#[trigger] f.0[k1].1[j1]].name@
            != themes[#[trigger] f.0[k2].1[j2]].name@ by {
            if k1 < prev.0.len() {
                assert(f.0[k1] == prev.0[k1]);
            } else {
                assert(f.0[k1].1 == t.0);
            }
            if k2 < prev.0.len() {
                assert(f.0[k2] == prev.0[k2]);
            } else {
                assert(f.0[k2].1 == t.0);
            }
            if k1 >= prev.0.len() && k2 >= prev.0.len() {
                if j1 > j2 {
                    assert(themes[t.0[j2]].name@ != themes[t.0[j1]].name@);
                }
            }
        }
    }
}

/// Every theme of a list lands in exactly one of the families made from a
/// grouping of their names: a family holds the last theme of that name
/// (themes that share a name are converted once), and no name is taken
/// twice.
pub proof fn lemma_every_theme_in_a_family(
    themes: Seq<VsCodeTheme>,
    groups: Seq<(Option<Seq<char>>, Seq<Seq<char>>)>,
)
    requires
        grouped(theme_names(themes), groups),
    ensures
        forall|i: int|
            0 <= i < themes.len() ==> #[trigger] last_named(themes, themes[i].name@, themes.len() as int) is Some
                && exists|k: int, j: int|
                0 <= k < families_from(themes, groups).0.len() && 0 <= j < families_from(
                    themes,
                    groups,
                ).0[k].1.len() && #[trigger] families_from(themes, groups).0[k].1[j] == last_named(
                    themes,
                    themes[i].name@,
                    themes.len() as int,
                ).unwrap(),
        forall|k1: int, j1: int, k2: int, j2: int|
            0 <= k1 < families_from(themes, groups).0.len() && 0 <= j1 < families_from(themes, groups).0[k1].1.len()
                && 0 <= k2 < families_from(themes, groups).0.len() && 0 <= j2 < families_from(
                themes,
                groups,
            ).0[k2].1.len() && (k1 != k2 || j1 != j2) ==> themes[#[trigger] families_from(
                themes,
                groups,
            ).0[k1].1[j1]].name@ != themes[#[trigger] families_from(themes, groups).0[k2].1[j2]].name@,
{
    let names = theme_names(themes);
    let gs = family_groups(groups);
    lemma_families_partition_names(names, groups);
    assert forall|k: int, i: int| 0 <= k < groups.len() && 0 <= i < groups[k].1.len() implies names.contains(
        #[trigger] groups[k].1[i],
    ) by {
        let x = groups[k].1[i];
        assert(gs[k] == groups[k].1);
        assert(gs[k].contains(x));
        lemma_all_names_count(gs, x);
        vstd::seq_lib::to_multiset_contains(names, x);
    }
    lemma_families_from(themes, groups);
    lemma_families_fresh(themes, groups);
    assert forall|i: int| 0 <= i < themes.len() implies #[trigger] last_named(
        themes,
        themes[i].name@,
        themes.len() as int,
    ) is Some && exists|k: int, j: int|
        0 <= k < families_from(themes, groups).0.len() && 0 <= j < families_from(themes, groups).0[k].1.len()
            && #[trigger] families_from(themes, groups).0[k].1[j] == last_named(
            themes,
            themes[i].name@,
            themes.len() as int,
        ).unwrap() by {
        let x = themes[i].name@;
        lemma_last_named(themes, x, themes.len() as int);
        assert(names[i] == x);
        vstd::seq_lib::to_multiset_contains(names, x);
        lemma_all_names_count(gs, x);
        let k = choose|k: int| 0 <= k < gs.len() && #[trigger] gs[k].contains(x);
        assert(groups[k].1 == gs[k]);
        assert(families_from(themes, groups).1.contains(x));
    }
}

/// Every theme of a VSCode extension is converted into a family of the
/// Zed extension made from it: the last theme of each name, converted,
/// stands in one of the families, and no name stands in them twice.
pub proof fn lemma_vscode_themes_all_converted(
    families: Seq<ZedThemeFamily>,
    themes: Seq<VsCodeTheme>,
    author: Seq<char>,
)
    requires
        families_grouped_from(families, themes, author),
    ensures
        forall|i: int|
            #![trigger themes[i]]
            0 <= i < themes.len() ==> exists|k: int, j: int|
                0 <= k < families.len() && 0 <= j < families[k].themes@.len() && zed_theme_from(
                    #[trigger] families[k].themes@[j],
                    themes[last_named(themes, themes[i].name@, themes.len() as int).unwrap()]@,
                ),
        forall|k1: int, j1: int, k2: int, j2: int|
            0 <= k1 < families.len() && 0 <= j1 < families[k1].themes@.len() && 0 <= k2 < families.len() && 0 <= j2
                < families[k2].themes@.len() && (k1 != k2 || j1 != j2) ==> (#[trigger] families[k1].themes@[j1]).name@
                != (#[trigger] families[k2].themes@[j2]).name@,
{
    let g = choose|g: Seq<(Option<Seq<char>>, Seq<Seq<char>>)>|
        #[trigger] grouped(theme_names(themes), g) && families.len() == families_from(themes, g).0.len() && forall|k: int|
            0 <= k < families.len() ==> family_of(
                #[trigger] families[k],
                themes,
                author,
                families_from(themes, g).0[k].0,
                families_from(themes, g).0[k].1,
            );
    lemma_every_theme_in_a_family(themes, g);
    let fams = families_from(themes, g).0;
    assert forall|i: int| #![trigger themes[i]] 0 <= i < themes.len() implies exists|k: int, j: int|
        0 <= k < families.len() && 0 <= j < families[k].themes@.len() && zed_theme_from(
            #[trigger] families[k].themes@[j],
            themes[last_named(themes, themes[i].name@, themes.len() as int).unwrap()]@,
        ) by {
        assert(last_named(themes, themes[i].name@, themes.len() as int) is Some);
        let (k, j) = choose|k: int, j: int|
            0 <= k < fams.len() && 0 <= j < fams[k].1.len() && #[trigger] fams[k].1[j] == last_named(
                themes,
                themes[i].name@,
                themes.len() as int,
            ).unwrap();
        assert(family_of(families[k], themes, author, fams[k].0, fams[k].1));
        assert(zed_theme_from(families[k].themes@[j], themes[fams[k].1[j]]@));
    }
    assert forall|k1: int, j1: int, k2: int, j2: int|
        0 <= k1 < families.len() && 0 <= j1 < families[k1].themes@.len() && 0 <= k2 < families.len() && 0 <= j2
            < families[k2].themes@.len() && (k1 != k2 || j1 != j2) implies (#[trigger] families[k1].themes@[j1]).name@
            != (#[trigger] families[k2].themes@[j2]).name@ by {
        assert(family_of(families[k1], themes, author, fams[k1].0, fams[k1].1));
        assert(family_of(families[k2], themes, author, fams[k2].0, fams[k2].1));
        assert(zed_theme_from(families[k1].themes@[j1], themes[fams[k1].1[j1]]@));
        assert(zed_theme_from(families[k2].themes@[j2], themes[fams[k2].1[j2]]@));
    }
}

} // verus!
