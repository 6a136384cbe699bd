//! VSCode icon themes.

use vstd::prelude::*;

use crate::editors::zed::icon_theme::{remap, FileIcon, ZedIconTheme, ZedIconThemeFamily};
use crate::errors::ThemeError;
use crate::icon_files::{
    relocated, filename_in, base_or, lemma_sourced_nothing, lemma_sourced_then, lemma_sourced_widen, sourced_from, lemma_tracks_nothing, lemma_tracks_some_then, lemma_tracks_then, tracks,
    tracks_some, logical_icon_name, IconFileManager, IconFileManagerView,
};
use crate::paths::{parent, parent_text, plain_path};
use crate::strmap::{lemma_pairs_to_map_map_values, map_pair_values, opt_map_view, pairs_to_map, StrMap};
use crate::text::{contains, owned, str_contains};

verus! {

/// The structure of VSCode icon theme json files.
#[derive(Debug)]
pub struct VsCodeIconTheme {
    /// Icon definitions mapping icon keys to their properties
    pub icon_definitions: Option<StrMap<IconDefinition>>,
    /// Default file icon key
    pub file: Option<String>,
    /// Default folder icon key
    pub folder: Option<String>,
    /// Default expanded folder icon key
    pub folder_expanded: Option<String>,
    /// Root folder icon key
    pub root_folder: Option<String>,
    /// Root expanded folder icon key
    pub root_folder_expanded: Option<String>,
    /// Mapping of specific file names to icon keys
    pub file_names: Option<StrMap<String>>,
    /// Mapping of file extensions to icon keys
    pub file_extensions: Option<StrMap<String>>,
    /// Mapping of folder names to icon keys
    pub folder_names: Option<StrMap<String>>,
    /// Mapping of expanded folder names to icon keys
    pub folder_names_expanded: Option<StrMap<String>>,
    /// Language-specific icon mappings
    pub language_ids: Option<StrMap<String>>,
    /// Whether to hide explorer arrows
    pub hides_explorer_arrows: Option<bool>,
    /// Whether to show language mode icons
    pub show_language_mode_icons: Option<bool>,
    /// Where the theme was read from, if it was read from a file
    pub source_path: Option<String>,
}

/// Definition of an individual icon.
#[derive(Debug)]
pub struct IconDefinition {
    /// Path to the icon file
    pub icon_path: Option<String>,
    /// Font color for font-based icons
    pub font_color: Option<String>,
    /// Font size for font-based icons
    pub font_size: Option<String>,
    /// Font character for font-based icons
    pub font_character: Option<String>,
    /// Font ID for font-based icons
    pub font_id: Option<String>,
}

/// The view of an icon definition.
pub struct IconDefinitionView {
    pub icon_path: Option<Seq<char>>,
    pub font_color: Option<Seq<char>>,
    pub font_size: Option<Seq<char>>,
    pub font_character: Option<Seq<char>>,
    pub font_id: Option<Seq<char>>,
}

impl View for IconDefinition {
    type V = IconDefinitionView;

    open spec fn view(&self) -> IconDefinitionView {
        IconDefinitionView {
            icon_path: self.icon_path.deep_view(),
            font_color: self.font_color.deep_view(),
            font_size: self.font_size.deep_view(),
            font_character: self.font_character.deep_view(),
            font_id: self.font_id.deep_view(),
        }
    }
}

/// The view of a VSCode icon theme.
pub struct VsCodeIconThemeView {
    pub icon_definitions: Option<Map<Seq<char>, IconDefinitionView>>,
    pub file: Option<Seq<char>>,
    pub folder: Option<Seq<char>>,
    pub folder_expanded: Option<Seq<char>>,
    pub root_folder: Option<Seq<char>>,
    pub root_folder_expanded: Option<Seq<char>>,
    pub file_names: Option<Map<Seq<char>, Seq<char>>>,
    pub file_extensions: Option<Map<Seq<char>, Seq<char>>>,
    pub folder_names: Option<Map<Seq<char>, Seq<char>>>,
    pub folder_names_expanded: Option<Map<Seq<char>, Seq<char>>>,
    pub language_ids: Option<Map<Seq<char>, Seq<char>>>,
    pub hides_explorer_arrows: Option<bool>,
    pub show_language_mode_icons: Option<bool>,
    pub source_path: Option<Seq<char>>,
}

impl View for VsCodeIconTheme {
    type V = VsCodeIconThemeView;

    open spec fn view(&self) -> VsCodeIconThemeView {
        VsCodeIconThemeView {
            icon_definitions: opt_map_view(self.icon_definitions),
            file: self.file.deep_view(),
            folder: self.folder.deep_view(),
            folder_expanded: self.folder_expanded.deep_view(),
            root_folder: self.root_folder.deep_view(),
            root_folder_expanded: self.root_folder_expanded.deep_view(),
            file_names: opt_map_view(self.file_names),
            file_extensions: opt_map_view(self.file_extensions),
            folder_names: opt_map_view(self.folder_names),
            folder_names_expanded: opt_map_view(self.folder_names_expanded),
            language_ids: opt_map_view(self.language_ids),
            hides_explorer_arrows: self.hides_explorer_arrows,
            show_language_mode_icons: self.show_language_mode_icons,
            source_path: self.source_path.deep_view(),
        }
    }
}

/// The icon paths of a sequence of definitions, in order; definitions
/// without a path are skipped.
pub open spec fn definition_paths(defs: Seq<(Seq<char>, IconDefinitionView)>) -> Seq<Seq<char>>
    decreases defs.len(),
{
    if defs.len() == 0 {
        Seq::empty()
    } else {
        let prev = definition_paths(defs.drop_last());
        match defs.last().1.icon_path {
            Some(p) => prev.push(p),
            None => prev,
        }
    }
}

/// All icon paths of a theme, in the order of its definitions.
pub open spec fn vscode_icon_paths(t: VsCodeIconTheme) -> Seq<Seq<char>> {
    match t.icon_definitions {
        Some(m) => definition_paths(m.pairs()),
        None => Seq::empty(),
    }
}

/// The keys of the definitions that have an icon path.
pub open spec fn keys_with_path(defs: Option<Map<Seq<char>, IconDefinitionView>>) -> Set<Seq<char>> {
    match defs {
        Some(m) => Set::new(|k: Seq<char>| m.contains_key(k) && m[k].icon_path is Some),
        None => Set::empty(),
    }
}

/// The names under which `track_icons_with_base` tracks the icons: each
/// key joined with `_` to the file name of its icon.
pub open spec fn keys_with_files(defs: Option<Map<Seq<char>, IconDefinitionView>>) -> Set<Seq<char>> {
    match defs {
        Some(m) => Set::new(
            |n: Seq<char>|
                exists|k: Seq<char>|
                    #[trigger] m.contains_key(k) && m[k].icon_path is Some && n == k + "_"@ + filename_in(
                        m[k].icon_path.unwrap(),
                    ),
        ),
        None => Set::empty(),
    }
}

/// The icons that `create_icon_manager` tracks, each as its name (the
/// definition's key) and its icon path.
pub open spec fn vscode_icons(defs: Option<Map<Seq<char>, IconDefinitionView>>) -> Set<(Seq<char>, Seq<char>)> {
    match defs {
        Some(m) => Set::new(|q: (Seq<char>, Seq<char>)| m.contains_key(q.0) && m[q.0].icon_path == Some(q.1)),
        None => Set::empty(),
    }
}

/// The icons that `track_icons_with_base` tracks, each as its name (the key
/// joined with `_` to the file name) and its icon path.
pub open spec fn vscode_icons_with_files(defs: Option<Map<Seq<char>, IconDefinitionView>>) -> Set<(Seq<char>, Seq<char>)> {
    match defs {
        Some(m) => Set::new(
            |q: (Seq<char>, Seq<char>)|
                exists|k: Seq<char>|
                    #[trigger] m.contains_key(k) && m[k].icon_path == Some(q.1) && q.0 == k + "_"@ + filename_in(q.1),
        ),
        None => Set::empty(),
    }
}

/// A manager that tracks nothing yet, with the given directories.
pub open spec fn empty_manager(source_base: Seq<char>, dest_base: Seq<char>, dest_subdir: Seq<char>) -> IconFileManagerView {
    IconFileManagerView { icon_sources: Map::empty(), source_base, dest_base, dest_subdir }
}

/// `m` is the manager for the definitions `defs` with icons from
/// `source_base`: it has the given directories, tracks exactly the keys
/// with an icon path, each at that path joined to `source_base`.
pub open spec fn definitions_manager(
    m: IconFileManagerView,
    defs: Option<Map<Seq<char>, IconDefinitionView>>,
    source_base: Seq<char>,
    dest_base: Seq<char>,
    dest_subdir: Seq<char>,
) -> bool {
    &&& m.source_base == source_base
    &&& m.dest_base == dest_base
    &&& m.dest_subdir == dest_subdir
    &&& m.icon_sources.dom() == keys_with_path(defs)
    &&& sourced_from(empty_manager(source_base, dest_base, dest_subdir), m, vscode_icons(defs), source_base)
}

/// An icon definition with its path (if any) as it reads once the icon is
/// copied into the icon subdirectory `subdir`.
pub open spec fn relocated_definition(d: IconDefinitionView, subdir: Seq<char>) -> IconDefinitionView {
    IconDefinitionView {
        icon_path: match d.icon_path {
            Some(p) => Some(relocated(p, subdir)),
            None => None,
        },
        ..d
    }
}

/// An icon definition with the path renamed by the mapping.
pub open spec fn remap_definition(d: IconDefinitionView, mapping: Map<Seq<char>, Seq<char>>) -> IconDefinitionView {
    IconDefinitionView {
        icon_path: match d.icon_path {
            Some(p) => Some(remap(p, mapping)),
            None => None,
        },
        ..d
    }
}


/// A copy of an optional string.
fn copy_opt(o: &Option<String>) -> (r: Option<String>)
    ensures
        r.deep_view() == o.deep_view(),
{
    match o {
        Some(s) => Some(s.clone()),
        None => None,
    }
}

impl IconDefinition {
    /// A definition with only an icon path.
    pub fn with_path(icon_path: String) -> (r: Self)
        ensures
            r@ == (IconDefinitionView {
                icon_path: Some(icon_path@),
                font_color: None,
                font_size: None,
                font_character: None,
                font_id: None,
            }),
    {
        IconDefinition { icon_path: Some(icon_path), font_color: None, font_size: None, font_character: None, font_id: None }
    }
}

impl VsCodeIconTheme {
    /// Create an IconFileManager from this theme: icons come from the
    /// directory the theme was read from (the parent of its source path),
    /// and every definition with an icon path is tracked under its key. It
    /// fails exactly where the theme has no source path or that path no
    /// parent; for a path of plain components joined by `/`, the parent is
    /// `parent_text`.
    pub fn create_icon_manager(&self, dest_base: &str, dest_subdir: &str) -> (r: Result<IconFileManager, ThemeError>)
        ensures
            self.source_path is None ==> r is Err,
            self.source_path matches Some(p) ==> (plain_path(p@) ==> (r matches Ok(m) && m@.source_base
                == parent_text(p@))),
            r matches Err(e) ==> (e matches ThemeError::IconProcessingError(m) && m@ == "No source path available"@),
            r matches Ok(m) ==> definitions_manager(m@, self@.icon_definitions, m@.source_base, dest_base@, dest_subdir@),
    {
        let source_base = match &self.source_path {
            Some(p) => parent(p.as_str()),
            None => None,
        };
        self.icon_manager_from_base(source_base, dest_base, dest_subdir)
    }

    /// The IconFileManager for this theme once the directory its icons come
    /// from is known (none where there is none): every definition with an
    /// icon path tracked under its key, from that directory.
    pub fn icon_manager_from_base(&self, source_base: Option<String>, dest_base: &str, dest_subdir: &str) -> (r: Result<
        IconFileManager,
        ThemeError,
    >)
        ensures
            source_base is None <==> r is Err,
            r matches Err(e) ==> (e matches ThemeError::IconProcessingError(m) && m@ == "No source path available"@),
            r matches Ok(m) ==> definitions_manager(m@, self@.icon_definitions, source_base.unwrap()@, dest_base@, dest_subdir@),
    {
        let source_base = match source_base {
            Some(b) => b,
            None => {
                return Err(ThemeError::IconProcessingError(owned("No source path available")));
            },
        };
        let mut manager = IconFileManager::new(source_base.as_str(), dest_base, dest_subdir);
        let ghost start = manager@;
        let ghost base = source_base@;
        let ghost icons = vscode_icons(self@.icon_definitions);
        proof {
            lemma_sourced_nothing(start, icons, base);
        }
        if let Some(icon_definitions) = &self.icon_definitions {
            let n = icon_definitions.len();
            let mut i: usize = 0;
            proof {
                lemma_tracks_nothing(start);
                lemma_sourced_nothing(start, Set::empty(), base);
                assert(Set::new(|q: (Seq<char>, Seq<char>)| exists|j: int| 0 <= j < 0 && icon_definitions.pairs()[j].1.icon_path == Some(q.1) && q.0 == icon_definitions.pairs()[j].0)
                    =~= Set::<(Seq<char>, Seq<char>)>::empty());
                assert(Set::new(|k: Seq<char>| exists|j: int| 0 <= j < 0 && icon_definitions.pairs()[j].0 == k && icon_definitions.pairs()[j].1.icon_path is Some)
                    =~= Set::<Seq<char>>::empty());
            }
            while i < n
                invariant
                    i <= n,
                    n == icon_definitions.pairs().len(),
                    tracks(
                        start,
                        manager@,
                        Set::new(|k: Seq<char>| exists|j: int| 0 <= j < i && icon_definitions.pairs()[j].0 == k && icon_definitions.pairs()[j].1.icon_path is Some),
                    ),
                    sourced_from(
                        start,
                        manager@,
                        Set::new(|q: (Seq<char>, Seq<char>)| exists|j: int| 0 <= j < i && icon_definitions.pairs()[j].1.icon_path == Some(q.1) && q.0 == icon_definitions.pairs()[j].0),
                        base,
                    ),
                    start.source_base == base,
                    forall|j: int|
                        0 <= j < n ==> icon_definitions@.contains_key(#[trigger] icon_definitions.pairs()[j].0)
                            && icon_definitions@[icon_definitions.pairs()[j].0] == icon_definitions.pairs()[j].1,
                decreases n - i,
            {
                let icon_key = icon_definitions.key_at(i);
                let icon_def = icon_definitions.value_at(i);
                let ghost before = manager@;
                let ghost sofar = Set::new(|k: Seq<char>| exists|j: int| 0 <= j < i && icon_definitions.pairs()[j].0 == k && icon_definitions.pairs()[j].1.icon_path is Some);
                let ghost qs = Set::new(|q: (Seq<char>, Seq<char>)| exists|j: int| 0 <= j < i && icon_definitions.pairs()[j].1.icon_path == Some(q.1) && q.0 == icon_definitions.pairs()[j].0);
                let ghost qn = Set::new(|q: (Seq<char>, Seq<char>)| exists|j: int| 0 <= j < i + 1 && icon_definitions.pairs()[j].1.icon_path == Some(q.1) && q.0 == icon_definitions.pairs()[j].0);
                if let Some(icon_path) = &icon_def.icon_path {
                    let ghost q = (icon_key@, icon_path@);
                    if let Some(_filename) = IconFileManager::extract_filename(icon_path.as_str()) {
                        manager.track_icon(icon_key.clone(), icon_path.as_str());
                    } else {
                        proof { lemma_sourced_nothing(before, set![q], base); }
                    }
                    proof {
                        lemma_sourced_then(start, before, manager@, qs, set![q], base);
                        assert(qn =~= qs.union(set![q]));
                        lemma_tracks_then(start, before, manager@, sofar, set![icon_key@]);
                        assert(Set::new(|k: Seq<char>| exists|j: int| 0 <= j < i + 1 && icon_definitions.pairs()[j].0 == k && icon_definitions.pairs()[j].1.icon_path is Some)
                            =~= sofar.union(set![icon_key@]));
                    }
                } else {
                    assert(Set::new(|k: Seq<char>| exists|j: int| 0 <= j < i + 1 && icon_definitions.pairs()[j].0 == k && icon_definitions.pairs()[j].1.icon_path is Some)
                        =~= sofar);
                    assert(qn =~= qs);
                }
                i += 1;
            }
            proof {
                let m = icon_definitions@;
                let got = Set::new(|k: Seq<char>| exists|j: int| 0 <= j < n && icon_definitions.pairs()[j].0 == k && icon_definitions.pairs()[j].1.icon_path is Some);
                assert forall|k: Seq<char>| keys_with_path(self@.icon_definitions).contains(k) implies got.contains(k) by {
                    icon_definitions.lemma_key_in_pairs(k);
                    let j = choose|j: int| 0 <= j < icon_definitions.pairs().len() && #[trigger] icon_definitions.pairs()[j].0 == k;
                    assert(m[icon_definitions.pairs()[j].0] == icon_definitions.pairs()[j].1);
                }
                assert forall|k: Seq<char>| got.contains(k) implies keys_with_path(self@.icon_definitions).contains(k) by {
                    let j = choose|j: int| 0 <= j < n && icon_definitions.pairs()[j].0 == k && icon_definitions.pairs()[j].1.icon_path is Some;
                    assert(m.contains_key(icon_definitions.pairs()[j].0));
                }
                assert(got =~= keys_with_path(self@.icon_definitions));
                assert(manager@.icon_sources.dom() =~= got);
                let qs = Set::new(|q: (Seq<char>, Seq<char>)| exists|j: int| 0 <= j < n && icon_definitions.pairs()[j].1.icon_path == Some(q.1) && q.0 == icon_definitions.pairs()[j].0);
                assert forall|x: (Seq<char>, Seq<char>)| qs.contains(x) implies icons.contains(x) by {
                    let j = choose|j: int| 0 <= j < n && icon_definitions.pairs()[j].1.icon_path == Some(x.1) && x.0 == icon_definitions.pairs()[j].0;
                    assert(m.contains_key(icon_definitions.pairs()[j].0));
                }
                lemma_sourced_widen(start, manager@, qs, icons, base);
            }
        } else {
            assert(manager@.icon_sources.dom() =~= keys_with_path(self@.icon_definitions));
        }
        Ok(manager)
    }

    /// Get all icon paths referenced in this theme, in the order of its
    /// definitions.
    pub fn get_icon_paths(&self) -> (r: Vec<String>)
        ensures
            r.deep_view() == vscode_icon_paths(*self),
    {
        let mut paths: Vec<String> = Vec::new();
        if let Some(icon_definitions) = &self.icon_definitions {
            let n = icon_definitions.len();
            let mut i: usize = 0;
            assert(paths.deep_view() =~= definition_paths(icon_definitions.pairs().subrange(0, 0)));
            while i < n
                invariant
                    i <= n,
                    n == icon_definitions.pairs().len(),
                    paths.deep_view() == definition_paths(icon_definitions.pairs().subrange(0, i as int)),
                decreases n - i,
            {
                let ghost pre = paths.deep_view();
                assert(icon_definitions.pairs().subrange(0, i + 1).drop_last() =~= icon_definitions.pairs().subrange(0, i as int));
                if let Some(icon_path) = &icon_definitions.value_at(i).icon_path {
                    paths.push(icon_path.clone());
                    assert(paths.deep_view() =~= pre.push(icon_path@));
                }
                i += 1;
            }
            assert(icon_definitions.pairs().subrange(0, n as int) =~= icon_definitions.pairs());
        }
        paths
    }

    /// Rename the icon paths that `path_mapping` maps (e.g. after the icons
    /// were copied to a new place); other paths stay as they are.
    pub fn update_icon_paths(&mut self, path_mapping: &StrMap<String>)
        ensures
            final(self)@ == (VsCodeIconThemeView {
                icon_definitions: match old(self)@.icon_definitions {
                    Some(m) => Some(
                        Map::new(
                            |k: Seq<char>| m.contains_key(k),
                            |k: Seq<char>| remap_definition(m[k], path_mapping@),
                        ),
                    ),
                    None => None,
                },
                ..old(self)@
            }),
    {
        let ghost mp = path_mapping@;
        let taken = self.icon_definitions.take();
        if let Some(mut defs) = taken {
            let ghost start = defs.pairs();
            let ghost start_map = defs@;
            let n = defs.len();
            let mut i: usize = 0;
            while i < n
                invariant
                    i <= n,
                    n == start.len(),
                    start_map == pairs_to_map(start),
                    mp == path_mapping@,
                    defs.pairs().len() == n,
                    defs@ == pairs_to_map(defs.pairs()),
                    forall|j: int|
                        0 <= j < n ==> #[trigger] defs.pairs()[j] == (if j < i {
                            (start[j].0, remap_definition(start[j].1, mp))
                        } else {
                            start[j]
                        }),
                decreases n - i,
            {
                let ghost before = defs.pairs();
                let def = defs.value_at(i);
                assert(def@ == start[i as int].1);
                let mut new_path: Option<String> = None;
                if let Some(icon_path) = &def.icon_path {
                    if let Some(p) = path_mapping.get(icon_path.as_str()) {
                        new_path = Some(p.clone());
                    }
                }
                if let Some(p) = new_path {
                    let updated = IconDefinition {
                        icon_path: Some(p),
                        font_color: copy_opt(&def.font_color),
                        font_size: copy_opt(&def.font_size),
                        font_character: copy_opt(&def.font_character),
                        font_id: copy_opt(&def.font_id),
                    };
                    assert(updated@ == remap_definition(start[i as int].1, mp));
                    defs.set_value_at(i, updated);
                } else {
                    assert(remap_definition(start[i as int].1, mp) == start[i as int].1);
                }
                i += 1;
            }
            proof {
                let f = |d: IconDefinitionView| remap_definition(d, mp);
                assert(defs.pairs() =~= map_pair_values(start, f));
                lemma_pairs_to_map_map_values(start, f);
                assert(defs@ =~= Map::new(
                    |k: Seq<char>| start_map.contains_key(k),
                    |k: Seq<char>| remap_definition(start_map[k], mp),
                ));
            }
            self.icon_definitions = Some(defs);
        }
    }

    /// Track the icons of this theme in the manager, relative to its
    /// source base.
    pub fn track_icons(&self, manager: &mut IconFileManager) -> (r: Result<(), ThemeError>)
        ensures
            r is Ok,
            tracks(old(manager)@, final(manager)@, keys_with_files(self@.icon_definitions)),
            sourced_from(old(manager)@, final(manager)@, vscode_icons_with_files(self@.icon_definitions), old(manager)@.source_base),
    {
        self.track_icons_with_base(manager, None)
    }

    /// Track the icons of this theme, each under its key joined with `_` to
    /// its file name. Without a base, paths are relative to the manager's
    /// source base; with one, an icon is tracked (by its full path) only
    /// when it exists under that base.
    pub fn track_icons_with_base(&self, manager: &mut IconFileManager, source_base: Option<&str>) -> (r: Result<
        (),
        ThemeError,
    >)
        ensures
            r is Ok,
            source_base is None ==> tracks(old(manager)@, final(manager)@, keys_with_files(self@.icon_definitions)),
            tracks_some(old(manager)@, final(manager)@, keys_with_files(self@.icon_definitions)),
            sourced_from(
                old(manager)@,
                final(manager)@,
                vscode_icons_with_files(self@.icon_definitions),
                base_or(source_base, old(manager)@),
            ),
    {
        let ghost start = manager@;
        let ghost names = keys_with_files(self@.icon_definitions);
        let ghost base = base_or(source_base, start);
        let ghost icons = vscode_icons_with_files(self@.icon_definitions);
        proof {
            lemma_tracks_nothing(start);
            lemma_sourced_nothing(start, icons, base);
        }
        if let Some(icon_definitions) = &self.icon_definitions {
            let n = icon_definitions.len();
            let mut i: usize = 0;
            proof {
                assert(Set::new(|m: Seq<char>| exists|j: int| 0 <= j < 0 && icon_definitions.pairs()[j].1.icon_path is Some && m == icon_definitions.pairs()[j].0 + "_"@ + filename_in(icon_definitions.pairs()[j].1.icon_path.unwrap()))
                    =~= Set::<Seq<char>>::empty());
                lemma_sourced_nothing(start, Set::empty(), base);
                assert(Set::new(|q: (Seq<char>, Seq<char>)| exists|j: int| 0 <= j < 0 && icon_definitions.pairs()[j].1.icon_path == Some(q.1) && q.0 == icon_definitions.pairs()[j].0 + "_"@ + filename_in(q.1))
                    =~= Set::<(Seq<char>, Seq<char>)>::empty());
            }
            while i < n
                invariant
                    i <= n,
                    n == icon_definitions.pairs().len(),
                    tracks_some(
                        start,
                        manager@,
                        Set::new(|m: Seq<char>| exists|j: int| 0 <= j < i && icon_definitions.pairs()[j].1.icon_path is Some && m == icon_definitions.pairs()[j].0 + "_"@ + filename_in(icon_definitions.pairs()[j].1.icon_path.unwrap())),
                    ),
                    source_base is None ==> tracks(
                        start,
                        manager@,
                        Set::new(|m: Seq<char>| exists|j: int| 0 <= j < i && icon_definitions.pairs()[j].1.icon_path is Some && m == icon_definitions.pairs()[j].0 + "_"@ + filename_in(icon_definitions.pairs()[j].1.icon_path.unwrap())),
                    ),
                    sourced_from(
                        start,
                        manager@,
                        Set::new(|q: (Seq<char>, Seq<char>)| exists|j: int| 0 <= j < i && icon_definitions.pairs()[j].1.icon_path == Some(q.1) && q.0 == icon_definitions.pairs()[j].0 + "_"@ + filename_in(q.1)),
                        base,
                    ),
                    base == base_or(source_base, start),
                    forall|j: int|
                        0 <= j < n ==> icon_definitions@.contains_key(#[trigger] icon_definitions.pairs()[j].0)
                            && icon_definitions@[icon_definitions.pairs()[j].0] == icon_definitions.pairs()[j].1,
                decreases n - i,
            {
                let icon_key = icon_definitions.key_at(i);
                let icon_def = icon_definitions.value_at(i);
                let ghost before = manager@;
                let ghost sofar = Set::new(|m: Seq<char>| exists|j: int| 0 <= j < i && icon_definitions.pairs()[j].1.icon_path is Some && m == icon_definitions.pairs()[j].0 + "_"@ + filename_in(icon_definitions.pairs()[j].1.icon_path.unwrap()));
                let ghost next = Set::new(|m: Seq<char>| exists|j: int| 0 <= j < i + 1 && icon_definitions.pairs()[j].1.icon_path is Some && m == icon_definitions.pairs()[j].0 + "_"@ + filename_in(icon_definitions.pairs()[j].1.icon_path.unwrap()));
                let ghost qs = Set::new(|q: (Seq<char>, Seq<char>)| exists|j: int| 0 <= j < i && icon_definitions.pairs()[j].1.icon_path == Some(q.1) && q.0 == icon_definitions.pairs()[j].0 + "_"@ + filename_in(q.1));
                let ghost qn = Set::new(|q: (Seq<char>, Seq<char>)| exists|j: int| 0 <= j < i + 1 && icon_definitions.pairs()[j].1.icon_path == Some(q.1) && q.0 == icon_definitions.pairs()[j].0 + "_"@ + filename_in(q.1));
                if let Some(icon_path) = &icon_def.icon_path {
                    let ghost this = icon_key@ + "_"@ + filename_in(icon_path@);
                    let ghost q = (this, icon_path@);
                    if let Some(filename) = IconFileManager::extract_filename(icon_path.as_str()) {
                        let logical_name = logical_icon_name(icon_key.as_str(), filename.as_str());
                        manager.track_icon_with_base(logical_name, icon_path.as_str(), source_base);
                    } else {
                        proof { lemma_sourced_nothing(before, set![q], base); }
                    }
                    proof {
                        lemma_sourced_then(start, before, manager@, qs, set![q], base);
                        assert(qn =~= qs.union(set![q]));
                        lemma_tracks_some_then(start, before, manager@, sofar, set![this]);
                        if source_base is None {
                            lemma_tracks_then(start, before, manager@, sofar, set![this]);
                        }
                        assert(next =~= sofar.union(set![this]));
                    }
                } else {
                    assert(next =~= sofar);
                    assert(qn =~= qs);
                }
                i += 1;
            }
            proof {
                let m = icon_definitions@;
                let got = Set::new(|s: Seq<char>| exists|j: int| 0 <= j < n && icon_definitions.pairs()[j].1.icon_path is Some && s == icon_definitions.pairs()[j].0 + "_"@ + filename_in(icon_definitions.pairs()[j].1.icon_path.unwrap()));
                assert forall|s: Seq<char>| names.contains(s) implies got.contains(s) by {
                    let k = choose|k: Seq<char>| #[trigger] m.contains_key(k) && m[k].icon_path is Some && s == k + "_"@ + filename_in(m[k].icon_path.unwrap());
                    icon_definitions.lemma_key_in_pairs(k);
                    let j = choose|j: int| 0 <= j < icon_definitions.pairs().len() && #[trigger] icon_definitions.pairs()[j].0 == k;
                    assert(m[icon_definitions.pairs()[j].0] == icon_definitions.pairs()[j].1);
                }
                assert forall|s: Seq<char>| got.contains(s) implies names.contains(s) by {
                    let j = choose|j: int| 0 <= j < n && icon_definitions.pairs()[j].1.icon_path is Some && s == icon_definitions.pairs()[j].0 + "_"@ + filename_in(icon_definitions.pairs()[j].1.icon_path.unwrap());
                    let k = icon_definitions.pairs()[j].0;
                    assert(m.contains_key(k) && m[k] == icon_definitions.pairs()[j].1);
                }
                assert(got =~= names);
                let qs = Set::new(|q: (Seq<char>, Seq<char>)| exists|j: int| 0 <= j < n && icon_definitions.pairs()[j].1.icon_path == Some(q.1) && q.0 == icon_definitions.pairs()[j].0 + "_"@ + filename_in(q.1));
                assert forall|x: (Seq<char>, Seq<char>)| qs.contains(x) implies icons.contains(x) by {
                    let j = choose|j: int| 0 <= j < n && icon_definitions.pairs()[j].1.icon_path == Some(x.1) && x.0 == icon_definitions.pairs()[j].0 + "_"@ + filename_in(x.1);
                    let k = icon_definitions.pairs()[j].0;
                    assert(m.contains_key(k) && m[k] == icon_definitions.pairs()[j].1);
                }
                lemma_sourced_widen(start, manager@, qs, icons, base);
            }
        } else {
            assert(names =~= Set::<Seq<char>>::empty());
        }
        Ok(())
    }
}

/// The path of each definition the pairs build is one of their paths.
proof fn lemma_definition_path_listed(s: Seq<(Seq<char>, IconDefinitionView)>, k: Seq<char>)
    requires
        pairs_to_map(s).contains_key(k),
        pairs_to_map(s)[k].icon_path is Some,
    ensures
        definition_paths(s).contains(pairs_to_map(s)[k].icon_path.unwrap()),
    decreases s.len(),
{
    let prev = s.drop_last();
    if k == s.last().0 {
        let d = definition_paths(prev);
        assert(definition_paths(s) == d.push(s.last().1.icon_path.unwrap()));
        assert(definition_paths(s)[d.len() as int] == s.last().1.icon_path.unwrap());
    } else {
        lemma_definition_path_listed(prev, k);
        let d = definition_paths(prev);
        let j = choose|j: int| 0 <= j < d.len() && d[j] == pairs_to_map(prev)[k].icon_path.unwrap();
        match s.last().1.icon_path {
            Some(p) => assert(definition_paths(s)[j] == d[j]),
            None => {},
        }
    }
}

impl VsCodeIconTheme {
    /// The theme as it reads once its icons are copied by `manager`: the
    /// path of every definition becomes the relative path of its file name
    /// in the manager's icon subdirectory.
    pub fn with_relocated_icons(self, manager: &IconFileManager) -> (r: Self)
        ensures
            r@ == (VsCodeIconThemeView {
                icon_definitions: match self@.icon_definitions {
                    Some(m) => Some(
                        Map::new(
                            |k: Seq<char>| m.contains_key(k),
                            |k: Seq<char>| relocated_definition(m[k], manager@.dest_subdir),
                        ),
                    ),
                    None => None,
                },
                ..self@
            }),
    {
        let ghost before = self;
        let mut t = self;
        let paths = t.get_icon_paths();
        let mapping = manager.relocation_mapping(paths.as_slice());
        let ghost mp = mapping@;
        let ghost all = vscode_icon_paths(before);
        assert(paths.deep_view() == all);
        t.update_icon_paths(&mapping);
        proof {
            let sub = manager@.dest_subdir;
            if let Some(m) = before.icon_definitions {
                assert forall|k: Seq<char>| #[trigger] m@.contains_key(k) implies remap_definition(m@[k], mp)
                    == relocated_definition(m@[k], sub) by {
                    if m@[k].icon_path is Some {
                        lemma_definition_path_listed(m.pairs(), k);
                    }
                }
                assert(Map::new(
                    |k: Seq<char>| m@.contains_key(k),
                    |k: Seq<char>| remap_definition(m@[k], mp),
                ) =~= Map::new(
                    |k: Seq<char>| m@.contains_key(k),
                    |k: Seq<char>| relocated_definition(m@[k], sub),
                ));
            }
        }
        t
    }
}

} // verus!
