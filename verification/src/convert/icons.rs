//! Conversions between VSCode and Zed icon themes.

use vstd::prelude::*;

use crate::editors::vscode::icon_theme::{IconDefinition, IconDefinitionView, VsCodeIconTheme, VsCodeIconThemeView};
use crate::editors::zed::icon_theme::{
    DirectoryIcons, DirectoryIconsView, FileIcon, ZedIconTheme, ZedIconThemeFamily, ZedIconThemeView,
};
use crate::strmap::StrMap;
use crate::text::{contains, owned, str_contains};

verus! {

// ---------------------------------------------------------------------------
// Zed to VSCode
// ---------------------------------------------------------------------------

/// The VSCode icon key of a Zed icon type: `_` then the type.
pub open spec fn icon_key(icon_type: Seq<char>) -> Seq<char> {
    "_"@ + icon_type
}

/// An icon definition holding only a path.
pub open spec fn path_definition(path: Seq<char>) -> IconDefinitionView {
    IconDefinitionView { icon_path: Some(path), font_color: None, font_size: None, font_character: None, font_id: None }
}

/// A definition for each Zed file icon (type and path), keyed by its icon
/// key.
pub open spec fn file_icon_definitions(icons: Seq<(Seq<char>, Seq<char>)>) -> Map<Seq<char>, IconDefinitionView>
    decreases icons.len(),
{
    if icons.len() == 0 {
        Map::empty()
    } else {
        file_icon_definitions(icons.drop_last()).insert(icon_key(icons.last().0), path_definition(icons.last().1))
    }
}

/// The icon definitions made from a Zed icon theme: its file icons, then
/// `_folder` and `_folder-open` for its directory icons.
pub open spec fn definitions_of(t: ZedIconTheme) -> Map<Seq<char>, IconDefinitionView> {
    let files = match t.file_icons {
        Some(m) => file_icon_definitions(m.pairs()),
        None => Map::empty(),
    };
    match t.directory_icons {
        Some(d) => files.insert("_folder"@, path_definition(d.collapsed@)).insert(
            "_folder-open"@,
            path_definition(d.expanded@),
        ),
        None => files,
    }
}

/// The entries (name and icon type) whose icon type has a definition,
/// each mapped to that definition's key.
pub open spec fn keyed_by_definitions(
    entries: Seq<(Seq<char>, Seq<char>)>,
    defs: Map<Seq<char>, IconDefinitionView>,
) -> Map<Seq<char>, Seq<char>>
    decreases entries.len(),
{
    if entries.len() == 0 {
        Map::empty()
    } else {
        let prev = keyed_by_definitions(entries.drop_last(), defs);
        let k = entries.last().0;
        let t = entries.last().1;
        if defs.contains_key(icon_key(t)) {
            prev.insert(k, icon_key(t))
        } else {
            prev
        }
    }
}

/// The first key that names a file icon: it holds `file` and not `folder`.
pub open spec fn first_file_key(keys: Seq<Seq<char>>) -> Option<Seq<char>>
    decreases keys.len(),
{
    if keys.len() == 0 {
        None
    } else if contains(keys[0], "file"@) && !contains(keys[0], "folder"@) {
        Some(keys[0])
    } else {
        first_file_key(keys.drop_first())
    }
}

/// The default file icon among the keys: the first file icon key, else the
/// first key.
pub open spec fn default_file_key(keys: Seq<Seq<char>>) -> Option<Seq<char>> {
    match first_file_key(keys) {
        Some(k) => Some(k),
        None => if keys.len() > 0 {
            Some(keys[0])
        } else {
            None
        },
    }
}

/// A map, or none when it is empty.
pub open spec fn nonempty<W>(m: Map<Seq<char>, W>) -> Option<Map<Seq<char>, W>> {
    if m.dom().len() == 0 {
        None
    } else {
        Some(m)
    }
}

/// The pairs of an optional map (none without a map).
pub open spec fn opt_pairs(m: Option<StrMap<String>>) -> Seq<(Seq<char>, Seq<char>)> {
    match m {
        Some(x) => x.pairs(),
        None => Seq::empty(),
    }
}

/// The VSCode icon theme made from a Zed icon theme, apart from its
/// default file icon (which depends on the order of the definitions).
pub open spec fn vscode_icon_theme_of(t: ZedIconTheme, file: Option<Seq<char>>) -> VsCodeIconThemeView {
    let defs = definitions_of(t);
    VsCodeIconThemeView {
        icon_definitions: nonempty(defs),
        file: file,
        folder: if t.directory_icons is Some {
            Some("_folder"@)
        } else {
            None
        },
        folder_expanded: if t.directory_icons is Some {
            Some("_folder-open"@)
        } else {
            None
        },
        root_folder: None,
        root_folder_expanded: None,
        file_names: nonempty(keyed_by_definitions(opt_pairs(t.file_stems), defs)),
        file_extensions: nonempty(keyed_by_definitions(opt_pairs(t.file_suffixes), defs)),
        folder_names: None,
        folder_names_expanded: None,
        language_ids: None,
        hides_explorer_arrows: None,
        show_language_mode_icons: None,
        source_path: None,
    }
}

/// `_` followed by `t`.
fn icon_key_of(t: &str) -> (r: String)
    ensures
        r@ == icon_key(t@),
{
    let mut r = owned("_");
    r.append(t);
    r
}

/// The entries whose icon type has a definition, mapped to its key.
fn map_by_definitions(entries: &Option<StrMap<String>>, defs: &StrMap<IconDefinition>) -> (r: StrMap<String>)
    ensures
        r@ == keyed_by_definitions(opt_pairs(*entries), defs@),
{
    let mut r: StrMap<String> = StrMap::new();
    if let Some(m) = entries {
        let n = m.len();
        let mut i: usize = 0;
        assert(m.pairs().subrange(0, 0) =~= Seq::<(Seq<char>, Seq<char>)>::empty());
        while i < n
            invariant
                i <= n,
                n == m.pairs().len(),
                r@ == keyed_by_definitions(m.pairs().subrange(0, i as int), defs@),
            decreases n - i,
        {
            assert(m.pairs().subrange(0, i + 1).drop_last() =~= m.pairs().subrange(0, i as int));
            let key = icon_key_of(m.value_at(i).as_str());
            if defs.contains_key(key.as_str()) {
                r.insert(m.key_at(i).clone(), key);
            }
            i += 1;
        }
        assert(m.pairs().subrange(0, n as int) =~= m.pairs());
    }
    r
}

/// The default file icon key among the definitions.
fn default_file_icon(defs: &StrMap<IconDefinition>) -> (r: Option<String>)
    ensures
        r.deep_view() == default_file_key(defs.keys()),
{
    proof {
        defs.lemma_keys_of_pairs();
    }
    let n = defs.len();
    let mut i: usize = 0;
    assert(defs.keys().subrange(0, n as int) =~= defs.keys());
    while i < n
        invariant
            i <= n,
            n == defs.keys().len(),
            n == defs.pairs().len(),
            forall|j: int| 0 <= j < n ==> #[trigger] defs.keys()[j] == defs.pairs()[j].0,
            first_file_key(defs.keys()) == first_file_key(defs.keys().subrange(i as int, n as int)),
        decreases n - i,
    {
        let k = defs.key_at(i);
        let ghost rest = defs.keys().subrange(i as int, n as int);
        assert(rest[0] == k@);
        if str_contains(k.as_str(), "file") && !str_contains(k.as_str(), "folder") {
            return Some(k.clone());
        }
        assert(rest.drop_first() =~= defs.keys().subrange(i + 1, n as int));
        i += 1;
    }
    if n > 0 {
        Some(defs.key_at(0).clone())
    } else {
        None
    }
}

impl VsCodeIconTheme {
    /// Converts a Zed icon theme: each file icon becomes a definition under
    /// `_` and its type, the directory icons become `_folder` and
    /// `_folder-open`, file suffixes and stems whose type has a definition
    /// become file extensions and names; the default file icon is the
    /// first definition whose key holds `file` and not `folder`, else the
    /// first one.
    pub fn from_zed(zed_theme: &ZedIconTheme) -> (r: VsCodeIconTheme)
        ensures
            r@ == vscode_icon_theme_of(
                *zed_theme,
                match r.icon_definitions {
                    Some(m) => default_file_key(m.keys()),
                    None => None,
                },
            ),
    {
        let mut icon_definitions: StrMap<IconDefinition> = StrMap::new();
        if let Some(file_icons) = &zed_theme.file_icons {
            let n = file_icons.len();
            let mut i: usize = 0;
            assert(file_icons.pairs().subrange(0, 0) =~= Seq::<(Seq<char>, Seq<char>)>::empty());
            while i < n
                invariant
                    i <= n,
                    n == file_icons.pairs().len(),
                    icon_definitions@ == file_icon_definitions(file_icons.pairs().subrange(0, i as int)),
                decreases n - i,
            {
                assert(file_icons.pairs().subrange(0, i + 1).drop_last() =~= file_icons.pairs().subrange(0, i as int));
                let key = icon_key_of(file_icons.key_at(i).as_str());
                icon_definitions.insert(key, IconDefinition::with_path(file_icons.value_at(i).path.clone()));
                i += 1;
            }
            assert(file_icons.pairs().subrange(0, n as int) =~= file_icons.pairs());
        }
        let (folder_key, folder_expanded_key) = if let Some(dir_icons) = &zed_theme.directory_icons {
            icon_definitions.insert(owned("_folder"), IconDefinition::with_path(dir_icons.collapsed.clone()));
            icon_definitions.insert(owned("_folder-open"), IconDefinition::with_path(dir_icons.expanded.clone()));
            (Some(owned("_folder")), Some(owned("_folder-open")))
        } else {
            (None, None)
        };
        assert(icon_definitions@ == definitions_of(*zed_theme));
        let file_extensions = map_by_definitions(&zed_theme.file_suffixes, &icon_definitions);
        let file_names = map_by_definitions(&zed_theme.file_stems, &icon_definitions);
        let default_file = default_file_icon(&icon_definitions);
        proof {
            icon_definitions.lemma_keys_of_pairs();
        }
        let empty = icon_definitions.is_empty();
        assert(empty ==> default_file_key(icon_definitions.keys()) == None::<Seq<char>>);
        VsCodeIconTheme {
            icon_definitions: if empty {
                None
            } else {
                Some(icon_definitions)
            },
            file: default_file,
            folder: folder_key,
            folder_expanded: folder_expanded_key,
            root_folder: None,
            root_folder_expanded: None,
            file_names: if file_names.is_empty() {
                None
            } else {
                Some(file_names)
            },
            file_extensions: if file_extensions.is_empty() {
                None
            } else {
                Some(file_extensions)
            },
            folder_names: None,
            folder_names_expanded: None,
            language_ids: None,
            hides_explorer_arrows: None,
            show_language_mode_icons: None,
            source_path: None,
        }
    }

    /// Converts every theme of a Zed icon theme family, in order.
    pub fn from_zed_family(zed_family: &ZedIconThemeFamily) -> (r: Vec<VsCodeIconTheme>)
        ensures
            r@.len() == zed_family.themes@.len(),
            forall|i: int|
                0 <= i < r@.len() ==> #[trigger] r@[i]@ == vscode_icon_theme_of(
                    zed_family.themes@[i],
                    match r@[i].icon_definitions {
                        Some(m) => default_file_key(m.keys()),
                        None => None,
                    },
                ),
    {
        let themes = zed_family.themes();
        let mut r: Vec<VsCodeIconTheme> = Vec::new();
        let mut i: usize = 0;
        while i < themes.len()
            invariant
                themes@ == zed_family.themes@,
                i <= themes@.len(),
                r@.len() == i,
                forall|j: int|
                    0 <= j < i ==> #[trigger] r@[j]@ == vscode_icon_theme_of(
                        zed_family.themes@[j],
                        match r@[j].icon_definitions {
                            Some(m) => default_file_key(m.keys()),
                            None => None,
                        },
                    ),
            decreases themes@.len() - i,
        {
            r.push(VsCodeIconTheme::from_zed(&themes[i]));
            i += 1;
        }
        r
    }
}

// ---------------------------------------------------------------------------
// VSCode to Zed
// ---------------------------------------------------------------------------

/// The key of a theme's folder icon (`_folder` by default).
pub open spec fn folder_key_of(v: VsCodeIconThemeView) -> Seq<char> {
    match v.folder {
        Some(k) => k,
        None => "_folder"@,
    }
}

/// The key of a theme's expanded folder icon (`_folder-open` by default).
pub open spec fn folder_expanded_key_of(v: VsCodeIconThemeView) -> Seq<char> {
    match v.folder_expanded {
        Some(k) => k,
        None => "_folder-open"@,
    }
}

/// The icon path of the definition under `k`, or `default` when there is
/// none.
pub open spec fn definition_path_or(
    defs: Map<Seq<char>, IconDefinitionView>,
    k: Seq<char>,
    default: Seq<char>,
) -> Seq<char> {
    if defs.contains_key(k) && defs[k].icon_path is Some {
        defs[k].icon_path.unwrap()
    } else {
        default
    }
}

/// `k` without one leading `_`.
pub open spec fn strip_underscore(k: Seq<char>) -> Seq<char> {
    if k.len() > 0 && k[0] == '_' {
        k.drop_first()
    } else {
        k
    }
}

/// The Zed file icons of a sequence of definitions: each one with a path,
/// other than the two folder icons, under its key without a leading `_`.
pub open spec fn file_icons_from(
    defs: Seq<(Seq<char>, IconDefinitionView)>,
    folder_key: Seq<char>,
    folder_expanded_key: Seq<char>,
) -> Map<Seq<char>, Seq<char>>
    decreases defs.len(),
{
    if defs.len() == 0 {
        Map::empty()
    } else {
        let prev = file_icons_from(defs.drop_last(), folder_key, folder_expanded_key);
        let k = defs.last().0;
        match defs.last().1.icon_path {
            Some(p) => if k != folder_key && k != folder_expanded_key {
                prev.insert(strip_underscore(k), p)
            } else {
                prev
            },
            None => prev,
        }
    }
}

/// The Zed icon theme made from a VSCode icon theme under a name.
pub open spec fn zed_icon_theme_of(v: VsCodeIconTheme, name: Seq<char>) -> ZedIconThemeView {
    let fk = folder_key_of(v@);
    let fek = folder_expanded_key_of(v@);
    ZedIconThemeView {
        name: name,
        appearance: "dark"@,
        directory_icons: match v@.icon_definitions {
            Some(defs) => Some(
                DirectoryIconsView {
                    collapsed: definition_path_or(defs, fk, "./icons/folder.svg"@),
                    expanded: definition_path_or(defs, fek, "./icons/folder-open.svg"@),
                },
            ),
            None => None,
        },
        file_stems: v@.file_names,
        file_suffixes: v@.file_extensions,
        file_icons: match v.icon_definitions {
            Some(m) => nonempty(file_icons_from(m.pairs(), fk, fek)),
            None => None,
        },
    }
}

/// The icon path under `key`, or `default`.
fn definition_path(defs: &StrMap<IconDefinition>, key: &str, default: &str) -> (r: String)
    ensures
        r@ == definition_path_or(defs@, key@, default@),
{
    match defs.get(key) {
        Some(def) => match &def.icon_path {
            Some(p) => p.clone(),
            None => owned(default),
        },
        None => owned(default),
    }
}

/// A copy of an optional map of strings.
fn copy_map(m: &Option<StrMap<String>>) -> (r: Option<StrMap<String>>)
    ensures
        r matches Some(x) ==> m matches Some(y) && x@ == y@,
        r is None <==> m is None,
{
    match m {
        Some(x) => Some(x.copy()),
        None => None,
    }
}

impl ZedIconTheme {
    /// Create a Zed icon theme from a VSCode icon theme with a custom name:
    /// a dark theme whose directory icons are the folder icons (with
    /// defaults), whose file suffixes and stems are the file extensions and
    /// names, and whose file icons are the other definitions with a path,
    /// each under its key without a leading `_`.
    pub fn from_vscode_with_name(vscode_theme: &VsCodeIconTheme, name: &str) -> (r: Self)
        ensures
            r@ == zed_icon_theme_of(*vscode_theme, name@),
    {
        let folder_key: &str = match &vscode_theme.folder {
            Some(k) => k.as_str(),
            None => "_folder",
        };
        let folder_expanded_key: &str = match &vscode_theme.folder_expanded {
            Some(k) => k.as_str(),
            None => "_folder-open",
        };
        let directory_icons = if let Some(icon_definitions) = &vscode_theme.icon_definitions {
            let collapsed = definition_path(icon_definitions, folder_key, "./icons/folder.svg");
            let expanded = definition_path(icon_definitions, folder_expanded_key, "./icons/folder-open.svg");
            Some(DirectoryIcons { collapsed, expanded })
        } else {
            None
        };
        let file_suffixes = copy_map(&vscode_theme.file_extensions);
        let file_stems = copy_map(&vscode_theme.file_names);
        let file_icons = if let Some(icon_definitions) = &vscode_theme.icon_definitions {
            let mut file_icons_map: StrMap<FileIcon> = StrMap::new();
            let n = icon_definitions.len();
            let mut i: usize = 0;
            assert(icon_definitions.pairs().subrange(0, 0) =~= Seq::<(Seq<char>, IconDefinitionView)>::empty());
            while i < n
                invariant
                    i <= n,
                    n == icon_definitions.pairs().len(),
                    folder_key@ == folder_key_of(vscode_theme@),
                    folder_expanded_key@ == folder_expanded_key_of(vscode_theme@),
                    file_icons_map@ == file_icons_from(
                        icon_definitions.pairs().subrange(0, i as int),
                        folder_key@,
                        folder_expanded_key@,
                    ),
                decreases n - i,
            {
                assert(icon_definitions.pairs().subrange(0, i + 1).drop_last() =~= icon_definitions.pairs().subrange(0, i as int));
                let icon_key = icon_definitions.key_at(i);
                if let Some(icon_path) = &icon_definitions.value_at(i).icon_path {
                    if !str_eq_owned(icon_key, folder_key) && !str_eq_owned(icon_key, folder_expanded_key) {
                        let logical_name = strip_one_underscore(icon_key.as_str());
                        file_icons_map.insert(logical_name, FileIcon { path: icon_path.clone() });
                    }
                }
                i += 1;
            }
            assert(icon_definitions.pairs().subrange(0, n as int) =~= icon_definitions.pairs());
            if file_icons_map.is_empty() {
                None
            } else {
                Some(file_icons_map)
            }
        } else {
            None
        };
        ZedIconTheme {
            name: owned(name),
            appearance: owned("dark"),
            directory_icons,
            file_stems,
            file_suffixes,
            file_icons,
        }
    }

    /// Create a Zed icon theme from a VSCode icon theme, named
    /// "Converted Icon Theme".
    pub fn from_vscode(vscode_theme: &VsCodeIconTheme) -> (r: Self)
        ensures
            r@ == zed_icon_theme_of(*vscode_theme, "Converted Icon Theme"@),
    {
        ZedIconTheme::from_vscode_with_name(vscode_theme, "Converted Icon Theme")
    }
}

/// Do the two strings hold the same characters?
fn str_eq_owned(a: &String, b: &str) -> (r: bool)
    ensures
        r == (a@ == b@),
{
    crate::text::str_eq(a.as_str(), b)
}

/// `k` without one leading `_`.
fn strip_one_underscore(k: &str) -> (r: String)
    ensures
        r@ == strip_underscore(k@),
{
    let v = crate::text::chars_of(k);
    if v.len() > 0 && v[0] == '_' {
        crate::text::string_of_range(v.as_slice(), 1, v.len())
    } else {
        assert(v@.subrange(0, v@.len() as int) =~= v@);
        crate::text::string_of_range(v.as_slice(), 0, v.len())
    }
}

} // verus!
