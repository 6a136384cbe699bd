//! What a round trip of an icon theme through VSCode keeps.

use vstd::prelude::*;

use super::icons::{
    definition_path_or, definitions_of, file_icon_definitions, file_icons_from, folder_expanded_key_of, folder_key_of,
    icon_key, nonempty, path_definition, strip_underscore, vscode_icon_theme_of, zed_icon_theme_of,
};
use crate::editors::vscode::icon_theme::{IconDefinitionView, VsCodeIconTheme};
use crate::editors::zed::icon_theme::ZedIconTheme;
use crate::strmap::{lemma_pairs_to_map_dom, pairs_to_map};

verus! {

/// A key that starts with `_`.
pub open spec fn underscored(x: Seq<char>) -> bool {
    x.len() > 0 && x[0] == '_'
}

/// `_` and then a type is taken apart again by dropping the `_`.
proof fn lemma_icon_key_strip(x: Seq<char>, k: Seq<char>)
    requires
        underscored(x),
    ensures
        (strip_underscore(x) == k) <==> (x == icon_key(k)),
{
    reveal_strlit("_");
    if strip_underscore(x) == k {
        assert(x =~= icon_key(k));
    }
    if x == icon_key(k) {
        assert(strip_underscore(x) =~= k);
    }
}

/// The file icons made from definitions keyed with `_`: a type has an
/// icon when its key has a definition with a path and is no folder key,
/// and the icon is the path of the definition that stands last.
proof fn lemma_file_icons_from(s: Seq<(Seq<char>, IconDefinitionView)>, fk: Seq<char>, fek: Seq<char>, k: Seq<char>)
    requires
        forall|i: int| 0 <= i < s.len() ==> underscored(#[trigger] s[i].0),
    ensures
        file_icons_from(s, fk, fek).contains_key(k) ==> icon_key(k) != fk && icon_key(k) != fek
            && pairs_to_map(s).contains_key(icon_key(k)),
        pairs_to_map(s).contains_key(icon_key(k)) && pairs_to_map(s)[icon_key(k)].icon_path is Some
            && icon_key(k) != fk && icon_key(k) != fek ==> file_icons_from(s, fk, fek).contains_key(k)
            && file_icons_from(s, fk, fek)[k] == pairs_to_map(s)[icon_key(k)].icon_path.unwrap(),
    decreases s.len(),
{
    if s.len() > 0 {
        let prev = s.drop_last();
        assert forall|i: int| 0 <= i < prev.len() implies underscored(#[trigger] prev[i].0) by {
            assert(prev[i] == s[i]);
        }
        lemma_file_icons_from(prev, fk, fek, k);
        lemma_icon_key_strip(s.last().0, k);
    }
}

/// The definitions made from file icons hold, under the key of each type,
/// a definition of the type's path, and nothing else.
proof fn lemma_file_icon_definitions(s: Seq<(Seq<char>, Seq<char>)>, x: Seq<char>)
    ensures
        file_icon_definitions(s).contains_key(x) ==> underscored(x) && pairs_to_map(s).contains_key(
            strip_underscore(x),
        ) && x == icon_key(strip_underscore(x)),
        file_icon_definitions(s).contains_key(x) ==> file_icon_definitions(s)[x] == path_definition(
            pairs_to_map(s)[strip_underscore(x)],
        ),
        forall|k: Seq<char>|
            pairs_to_map(s).contains_key(k) && x == icon_key(k) ==> file_icon_definitions(s).contains_key(x),
    decreases s.len(),
{
    reveal_strlit("_");
    if s.len() > 0 {
        lemma_file_icon_definitions(s.drop_last(), x);
        let a = s.last().0;
        assert(underscored(icon_key(a)));
        lemma_icon_key_strip(icon_key(a), a);
        assert forall|k: Seq<char>| pairs_to_map(s).contains_key(k) && x == icon_key(k) implies file_icon_definitions(
            s,
        ).contains_key(x) by {
            if k != a {
                assert(pairs_to_map(s.drop_last()).contains_key(k));
            }
        }
        if file_icon_definitions(s).contains_key(x) && x == icon_key(a) {
            assert(strip_underscore(x) =~= a);
        }
        if file_icon_definitions(s).contains_key(x) && x != icon_key(a) {
            assert(strip_underscore(x) != a) by {
                if strip_underscore(x) == a {
                    lemma_icon_key_strip(x, a);
                }
            }
        }
    }
}

/// The definitions made from file icons are finitely many.
proof fn lemma_file_icon_definitions_finite(s: Seq<(Seq<char>, Seq<char>)>)
    ensures
        file_icon_definitions(s).dom().finite(),
    decreases s.len(),
{
    if s.len() > 0 {
        lemma_file_icon_definitions_finite(s.drop_last());
    }
}

/// The file icons made from definitions are finitely many.
proof fn lemma_file_icons_from_finite(s: Seq<(Seq<char>, IconDefinitionView)>, fk: Seq<char>, fek: Seq<char>)
    ensures
        file_icons_from(s, fk, fek).dom().finite(),
    decreases s.len(),
{
    if s.len() > 0 {
        lemma_file_icons_from_finite(s.drop_last(), fk, fek);
    }
}

/// A finite map with a key is no empty map.
proof fn lemma_nonempty_has<W>(m: Map<Seq<char>, W>, x: Seq<char>)
    requires
        m.dom().finite(),
        m.contains_key(x),
    ensures
        nonempty(m) == Some(m),
{
    vstd::set_lib::lemma_set_empty_equivalency_len(m.dom());
    assert(m.dom() != Set::<Seq<char>>::empty()) by {
        assert(!Set::<Seq<char>>::empty().contains(x));
    }
}

/// The definitions made from a Zed icon theme: each key starts with `_`
/// and has a path; the key of a file icon type other than the folder
/// types holds that type's path; every other key is a folder key.
proof fn lemma_definitions_of(t: ZedIconTheme)
    ensures
        definitions_of(t).dom().finite(),
        forall|x: Seq<char>| #[trigger] definitions_of(t).contains_key(x) ==> underscored(x)
            && definitions_of(t)[x].icon_path is Some,
        forall|x: Seq<char>| #[trigger] definitions_of(t).contains_key(x) && x != "_folder"@ && x != "_folder-open"@
            ==> (t@.file_icons matches Some(tm) && tm.contains_key(strip_underscore(x)) && x == icon_key(
            strip_underscore(x)) && definitions_of(t)[x] == path_definition(tm[strip_underscore(x)])),
        forall|k: Seq<char>| #[trigger] icon_key(k) != "_folder"@ && icon_key(k) != "_folder-open"@ && (
            t@.file_icons matches Some(tm) && tm.contains_key(k)) ==> definitions_of(t).contains_key(icon_key(k)),
        t.directory_icons matches Some(d) ==> definitions_of(t).contains_key("_folder"@) && definitions_of(t)["_folder"@]
            == path_definition(d.collapsed@) && definitions_of(t).contains_key("_folder-open"@)
            && definitions_of(t)["_folder-open"@] == path_definition(d.expanded@),
{
    reveal_strlit("_");
    reveal_strlit("_folder");
    reveal_strlit("_folder-open");
    let defs = definitions_of(t);
    assert("_folder"@ != "_folder-open"@) by {
        assert("_folder"@.len() != "_folder-open"@.len());
    }
    match t.file_icons {
        Some(m) => {
            lemma_file_icon_definitions_finite(m.pairs());
            assert forall|x: Seq<char>| #[trigger] defs.contains_key(x) implies underscored(x)
                && defs[x].icon_path is Some by {
                lemma_file_icon_definitions(m.pairs(), x);
            }
            assert forall|x: Seq<char>| #[trigger] defs.contains_key(x) && x != "_folder"@ && x != "_folder-open"@
                implies (t@.file_icons matches Some(tm) && tm.contains_key(strip_underscore(x)) && x == icon_key(
                strip_underscore(x)) && defs[x] == path_definition(tm[strip_underscore(x)])) by {
                lemma_file_icon_definitions(m.pairs(), x);
            }
            assert forall|k: Seq<char>| #[trigger] icon_key(k) != "_folder"@ && icon_key(k) != "_folder-open"@ && (
                t@.file_icons matches Some(tm) && tm.contains_key(k)) implies defs.contains_key(icon_key(k)) by {
                lemma_file_icon_definitions(m.pairs(), icon_key(k));
            }
        },
        None => {
            assert forall|x: Seq<char>| #[trigger] defs.contains_key(x) implies underscored(x)
                && defs[x].icon_path is Some by {}
        },
    }
}

/// Converting a Zed icon theme to VSCode and back keeps its directory
/// icons and its file icons; only file icons of the types `folder` and
/// `folder-open`, whose keys the directory icons take, are lost. (`v` is
/// the VSCode icon theme made from `t`, with any default file icon.)
pub proof fn lemma_icon_round_trip(t: ZedIconTheme, v: VsCodeIconTheme, file: Option<Seq<char>>, name: Seq<char>)
    requires
        v@ == vscode_icon_theme_of(t, file),
    ensures
        t@.directory_icons is Some ==> zed_icon_theme_of(v, name).directory_icons == t@.directory_icons,
        forall|k: Seq<char>|
            t@.file_icons is Some && #[trigger] t@.file_icons.unwrap().contains_key(k) && k != "folder"@ && k
                != "folder-open"@ ==> zed_icon_theme_of(v, name).file_icons is Some && zed_icon_theme_of(
                v,
                name,
            ).file_icons.unwrap().contains_key(k) && zed_icon_theme_of(v, name).file_icons.unwrap()[k]
                == t@.file_icons.unwrap()[k],
        forall|k: Seq<char>|
            zed_icon_theme_of(v, name).file_icons is Some && #[trigger] zed_icon_theme_of(
                v,
                name,
            ).file_icons.unwrap().contains_key(k) ==> t@.file_icons is Some && t@.file_icons.unwrap().contains_key(k)
                && k != "folder"@ && k != "folder-open"@,
{
    reveal_strlit("_");
    reveal_strlit("_folder");
    reveal_strlit("_folder-open");
    reveal_strlit("folder");
    reveal_strlit("folder-open");
    let defs = definitions_of(t);
    let z = zed_icon_theme_of(v, name);
    lemma_definitions_of(t);
    assert(icon_key("folder"@) =~= "_folder"@);
    assert(icon_key("folder-open"@) =~= "_folder-open"@);
    let fk = folder_key_of(v@);
    let fek = folder_expanded_key_of(v@);
    assert(fk == "_folder"@);
    assert(fek == "_folder-open"@);
    if let Some(d) = t.directory_icons {
        lemma_nonempty_has(defs, "_folder"@);
        assert(v.icon_definitions is Some);
    }
    match v.icon_definitions {
        Some(m) => {
            assert(v@.icon_definitions == Some(m@));
            assert(m@ == defs);
            let s = m.pairs();
            assert forall|i: int| 0 <= i < s.len() implies underscored(#[trigger] s[i].0) by {
                lemma_pairs_to_map_dom(s, s[i].0);
                assert(defs.contains_key(s[i].0));
            }
            lemma_file_icons_from_finite(s, fk, fek);
            let fi = file_icons_from(s, fk, fek);
            assert forall|k: Seq<char>|
                t@.file_icons is Some && #[trigger] t@.file_icons.unwrap().contains_key(k) && k != "folder"@ && k
                    != "folder-open"@ implies z.file_icons is Some && z.file_icons.unwrap().contains_key(k)
                    && z.file_icons.unwrap()[k] == t@.file_icons.unwrap()[k] by {
                lemma_file_icons_from(s, fk, fek, k);
                lemma_icon_key_strip(icon_key(k), k);
                assert(underscored(icon_key(k)));
                assert(icon_key(k) != "_folder"@) by {
                    if icon_key(k) == "_folder"@ {
                        assert(k =~= icon_key(k).drop_first());
                        assert("folder"@ =~= "_folder"@.drop_first());
                    }
                }
                assert(icon_key(k) != "_folder-open"@) by {
                    if icon_key(k) == "_folder-open"@ {
                        assert(k =~= icon_key(k).drop_first());
                        assert("folder-open"@ =~= "_folder-open"@.drop_first());
                    }
                }
                assert(defs.contains_key(icon_key(k)));
                lemma_nonempty_has(fi, k);
            }
            assert forall|k: Seq<char>|
                z.file_icons is Some && #[trigger] z.file_icons.unwrap().contains_key(k) implies t@.file_icons is Some
                    && t@.file_icons.unwrap().contains_key(k) && k != "folder"@ && k != "folder-open"@ by {
                lemma_file_icons_from(s, fk, fek, k);
                lemma_icon_key_strip(icon_key(k), k);
                assert(underscored(icon_key(k)));
                assert(defs.contains_key(icon_key(k)));
            }
        },
        None => {
            assert forall|k: Seq<char>|
                t@.file_icons is Some && #[trigger] t@.file_icons.unwrap().contains_key(k) && k != "folder"@ && k
                    != "folder-open"@ implies z.file_icons is Some && z.file_icons.unwrap().contains_key(k)
                    && z.file_icons.unwrap()[k] == t@.file_icons.unwrap()[k] by {
                assert(icon_key(k) != "_folder"@) by {
                    if icon_key(k) == "_folder"@ {
                        assert(k =~= icon_key(k).drop_first());
                        assert("folder"@ =~= "_folder"@.drop_first());
                    }
                }
                assert(icon_key(k) != "_folder-open"@) by {
                    if icon_key(k) == "_folder-open"@ {
                        assert(k =~= icon_key(k).drop_first());
                        assert("folder-open"@ =~= "_folder-open"@.drop_first());
                    }
                }
                assert(defs.contains_key(icon_key(k)));
                lemma_nonempty_has(defs, icon_key(k));
            }
        },
    }
}

} // verus!
