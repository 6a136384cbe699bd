//! Zed icon themes (the Zed v0.2.0 icon theme schema).

use vstd::prelude::*;

use crate::errors::ThemeError;
use crate::icon_files::{
    relocated, filename_in, base_or, joined_from, lemma_sourced_nothing, lemma_sourced_then, lemma_sourced_widen, sourced_from, lemma_tracks_nothing, lemma_tracks_some_then, lemma_tracks_then, tracks, tracks_some, logical_icon_name, IconFileManager,
    IconFileManagerView,
};
use crate::paths::{parent, parent_text, plain_path};
use crate::strmap::{lemma_pairs_to_map_map_values, map_pair_values, opt_map_view, pairs_to_map, unique_keys, StrMap};
use crate::text::owned;

verus! {

/// A family of Zed icon themes.
#[derive(Debug)]
pub struct ZedIconThemeFamily {
    /// JSON schema reference
    pub schema: Option<String>,
    /// Human-readable name of the icon theme family
    pub name: String,
    /// Author information
    pub author: String,
    /// List of individual themes in this family
    pub themes: Vec<ZedIconTheme>,
    /// Where the family was read from, if it was read from a file
    pub source_path: Option<String>,
}

/// A single icon theme within a theme family.
#[derive(Debug)]
pub struct ZedIconTheme {
    /// Name of this specific theme
    pub name: String,
    /// Theme appearance: "light" or "dark"
    pub appearance: String,
    /// Directory/folder icon configuration
    pub directory_icons: Option<DirectoryIcons>,
    /// Mapping of specific file names (stems) to icon types
    pub file_stems: Option<StrMap<String>>,
    /// Mapping of file extensions to icon types
    pub file_suffixes: Option<StrMap<String>>,
    /// Definition of icon types and their associated files
    pub file_icons: Option<StrMap<FileIcon>>,
}

/// Directory icon configuration.
#[derive(Debug)]
pub struct DirectoryIcons {
    /// Icon for collapsed/closed directories
    pub collapsed: String,
    /// Icon for expanded/open directories
    pub expanded: String,
}

/// File icon definition.
#[derive(Debug)]
pub struct FileIcon {
    /// Path to the icon file
    pub path: String,
}

/// The view of the directory icons.
pub struct DirectoryIconsView {
    pub collapsed: Seq<char>,
    pub expanded: Seq<char>,
}

/// The view of a Zed icon theme; a file icon is seen as its path.
pub struct ZedIconThemeView {
    pub name: Seq<char>,
    pub appearance: Seq<char>,
    pub directory_icons: Option<DirectoryIconsView>,
    pub file_stems: Option<Map<Seq<char>, Seq<char>>>,
    pub file_suffixes: Option<Map<Seq<char>, Seq<char>>>,
    pub file_icons: Option<Map<Seq<char>, Seq<char>>>,
}

impl View for FileIcon {
    type V = Seq<char>;

    open spec fn view(&self) -> Seq<char> {
        self.path@
    }
}

impl View for DirectoryIcons {
    type V = DirectoryIconsView;

    open spec fn view(&self) -> DirectoryIconsView {
        DirectoryIconsView { collapsed: self.collapsed@, expanded: self.expanded@ }
    }
}

/// The view of optional directory icons.
pub open spec fn dir_icons_view(d: Option<DirectoryIcons>) -> Option<DirectoryIconsView> {
    match d {
        Some(x) => Some(x@),
        None => None,
    }
}

impl View for ZedIconTheme {
    type V = ZedIconThemeView;

    open spec fn view(&self) -> ZedIconThemeView {
        ZedIconThemeView {
            name: self.name@,
            appearance: self.appearance@,
            directory_icons: dir_icons_view(self.directory_icons),
            file_stems: opt_map_view(self.file_stems),
            file_suffixes: opt_map_view(self.file_suffixes),
            file_icons: opt_map_view(self.file_icons),
        }
    }
}

/// The values of a sequence of pairs, in order.
pub open spec fn pair_values(s: Seq<(Seq<char>, Seq<char>)>) -> Seq<Seq<char>> {
    Seq::new(s.len(), |i: int| s[i].1)
}

/// The paths of the file icons, in order.
pub open spec fn file_icon_paths(icons: Option<StrMap<FileIcon>>) -> Seq<Seq<char>> {
    match icons {
        Some(m) => pair_values(m.pairs()),
        None => Seq::empty(),
    }
}

/// All icon paths of a theme: the collapsed and expanded directory icons,
/// then the file icons in order.
pub open spec fn zed_icon_paths(t: ZedIconTheme) -> Seq<Seq<char>> {
    let dirs = match t.directory_icons {
        Some(d) => seq![d.collapsed@, d.expanded@],
        None => Seq::empty(),
    };
    dirs + file_icon_paths(t.file_icons)
}

/// All icon paths of a list of themes, theme after theme.
pub open spec fn themes_icon_paths(themes: Seq<ZedIconTheme>) -> Seq<Seq<char>>
    decreases themes.len(),
{
    if themes.len() == 0 {
        Seq::empty()
    } else {
        themes_icon_paths(themes.drop_last()) + zed_icon_paths(themes.last())
    }
}

/// `p` as the mapping renames it.
pub open spec fn remap(p: Seq<char>, mapping: Map<Seq<char>, Seq<char>>) -> Seq<char> {
    if mapping.contains_key(p) {
        mapping[p]
    } else {
        p
    }
}

/// Every path of `s` as the mapping renames it.
pub open spec fn remap_all(s: Seq<Seq<char>>, mapping: Map<Seq<char>, Seq<char>>) -> Seq<Seq<char>> {
    Seq::new(s.len(), |i: int| remap(s[i], mapping))
}

/// Every value of `m` as the mapping renames it.
pub open spec fn remap_values(m: Map<Seq<char>, Seq<char>>, mapping: Map<Seq<char>, Seq<char>>) -> Map<Seq<char>, Seq<char>> {
    Map::new(|k: Seq<char>| m.contains_key(k), |k: Seq<char>| remap(m[k], mapping))
}

/// The names under which `track_icons` tracks a theme's icons: the two
/// directory icons, and each file icon type.
pub open spec fn zed_track_names(t: ZedIconThemeView) -> Set<Seq<char>> {
    let dirs = match t.directory_icons {
        Some(_) => set!["directory_collapsed"@, "directory_expanded"@],
        None => Set::empty(),
    };
    let files = match t.file_icons {
        Some(m) => m.dom(),
        None => Set::empty(),
    };
    dirs.union(files)
}

/// The names under which `track_icons_with_base` tracks a theme's icons:
/// each name is joined with `_` to the file name of its icon.
pub open spec fn zed_track_names_with_files(t: ZedIconThemeView) -> Set<Seq<char>> {
    let dirs = match t.directory_icons {
        Some(d) => set![
            "directory_collapsed"@ + "_"@ + filename_in(d.collapsed),
            "directory_expanded"@ + "_"@ + filename_in(d.expanded)
        ],
        None => Set::empty(),
    };
    let files = match t.file_icons {
        Some(m) => Set::new(|n: Seq<char>| exists|k: Seq<char>| #[trigger] m.contains_key(k) && n == k + "_"@ + filename_in(m[k])),
        None => Set::empty(),
    };
    dirs.union(files)
}

/// The icons that `track_icons` tracks, each as its name and its path:
/// the directory icons, and each file icon under its type.
pub open spec fn zed_icons(t: ZedIconThemeView) -> Set<(Seq<char>, Seq<char>)> {
    let dirs = match t.directory_icons {
        Some(d) => set![("directory_collapsed"@, d.collapsed), ("directory_expanded"@, d.expanded)],
        None => Set::empty(),
    };
    let files = match t.file_icons {
        Some(m) => Set::new(|q: (Seq<char>, Seq<char>)| m.contains_key(q.0) && q.1 == m[q.0]),
        None => Set::empty(),
    };
    dirs.union(files)
}

/// The icons that `track_icons_with_base` tracks, each as its name (which
/// carries the file name) and its path.
pub open spec fn zed_icons_with_files(t: ZedIconThemeView) -> Set<(Seq<char>, Seq<char>)> {
    let dirs = match t.directory_icons {
        Some(d) => set![
            ("directory_collapsed"@ + "_"@ + filename_in(d.collapsed), d.collapsed),
            ("directory_expanded"@ + "_"@ + filename_in(d.expanded), d.expanded)
        ],
        None => Set::empty(),
    };
    let files = match t.file_icons {
        Some(m) => Set::new(
            |q: (Seq<char>, Seq<char>)| exists|k: Seq<char>| #[trigger] m.contains_key(k) && q == (k + "_"@ + filename_in(m[k]), m[k]),
        ),
        None => Set::empty(),
    };
    dirs.union(files)
}

/// The path `track_icons` tracks the name `n` at for the theme `t`: the
/// file icon's, where `n` is a file icon type (file icons are tracked
/// last), else the directory icon's that `n` names.
pub open spec fn zed_icon_path(t: ZedIconThemeView, n: Seq<char>) -> Seq<char> {
    if t.file_icons is Some && t.file_icons.unwrap().contains_key(n) {
        t.file_icons.unwrap()[n]
    } else if n == "directory_expanded"@ {
        t.directory_icons.unwrap().expanded
    } else {
        t.directory_icons.unwrap().collapsed
    }
}

/// The path the last of `themes` that tracks the name `n` tracks it at.
pub open spec fn themes_icon_path(themes: Seq<ZedIconTheme>, n: Seq<char>) -> Seq<char>
    decreases themes.len(),
{
    if themes.len() == 0 {
        Seq::empty()
    } else if zed_track_names(themes.last()@).contains(n) {
        zed_icon_path(themes.last()@, n)
    } else {
        themes_icon_path(themes.drop_last(), n)
    }
}

/// The icons that `track_icons` tracks for a list of themes.
pub open spec fn themes_icons(themes: Seq<ZedIconTheme>) -> Set<(Seq<char>, Seq<char>)>
    decreases themes.len(),
{
    if themes.len() == 0 {
        Set::empty()
    } else {
        themes_icons(themes.drop_last()).union(zed_icons(themes.last()@))
    }
}

/// The names that `track_icons` tracks for a list of themes.
pub open spec fn themes_track_names(themes: Seq<ZedIconTheme>) -> Set<Seq<char>>
    decreases themes.len(),
{
    if themes.len() == 0 {
        Set::empty()
    } else {
        themes_track_names(themes.drop_last()).union(zed_track_names(themes.last()@))
    }
}

/// A manager that tracks nothing yet, with the given directories.
pub open spec fn fresh_manager(source_base: Seq<char>, dest_base: Seq<char>, dest_subdir: Seq<char>) -> IconFileManagerView {
    IconFileManagerView { icon_sources: Map::empty(), source_base, dest_base, dest_subdir }
}

/// `m` is the manager for `themes` with icons from `source_base`: it has
/// the given directories, tracks exactly the names `track_icons` tracks
/// for the themes, and each at the path of one of their icons of that
/// name, joined to `source_base`: that of the last theme that tracks it.
pub open spec fn family_manager(
    m: IconFileManagerView,
    themes: Seq<ZedIconTheme>,
    source_base: Seq<char>,
    dest_base: Seq<char>,
    dest_subdir: Seq<char>,
) -> bool {
    &&& m.source_base == source_base
    &&& m.dest_base == dest_base
    &&& m.dest_subdir == dest_subdir
    &&& m.icon_sources.dom() == themes_track_names(themes)
    &&& sourced_from(fresh_manager(source_base, dest_base, dest_subdir), m, themes_icons(themes), source_base)
    &&& forall|n: Seq<char>|
        #[trigger] m.icon_sources.contains_key(n) ==> joined_from(source_base, themes_icon_path(themes, n), m.icon_sources[n])
}

/// The error for an icon theme that was not read from a file.
pub open spec fn no_source_path_error(e: ThemeError) -> bool {
    e matches ThemeError::IconProcessingError(m) && m@ == "No source path available"@
}


impl ZedIconThemeFamily {
    /// The themes of the family.
    pub fn themes(&self) -> (r: &[ZedIconTheme])
        ensures
            r@ == self.themes@,
    {
        self.themes.as_slice()
    }

    /// Create an IconFileManager for this family: icons come from the
    /// directory the family was read from (the parent of its source path),
    /// and every theme's icons are tracked. It fails exactly where the
    /// family has no source path or that path no parent; for a path of plain
    /// components joined by `/`, the parent is `parent_text`.
    pub fn create_icon_manager(&self, dest_base: &str, dest_subdir: &str) -> (r: Result<IconFileManager, ThemeError>)
        ensures
            self.source_path is None ==> r is Err,
            self.source_path matches Some(p) ==> (plain_path(p@) ==> (r matches Ok(m) && m@.source_base
                == parent_text(p@))),
            r matches Err(e) ==> no_source_path_error(e),
            r matches Ok(m) ==> family_manager(m@, self.themes@, m@.source_base, dest_base@, dest_subdir@),
    {
        let source_base = match &self.source_path {
            Some(p) => parent(p.as_str()),
            None => None,
        };
        self.icon_manager_from_base(source_base, dest_base, dest_subdir)
    }

    /// The IconFileManager for this family once the directory its icons
    /// come from is known (none where there is none): every theme's icons
    /// tracked from that directory.
    pub fn icon_manager_from_base(&self, source_base: Option<String>, dest_base: &str, dest_subdir: &str) -> (r: Result<
        IconFileManager,
        ThemeError,
    >)
        ensures
            source_base is None <==> r is Err,
            r matches Err(e) ==> no_source_path_error(e),
            r matches Ok(m) ==> family_manager(m@, self.themes@, source_base.unwrap()@, dest_base@, dest_subdir@),
    {
        let source_base = match source_base {
            Some(b) => b,
            None => {
                return Err(ThemeError::IconProcessingError(owned("No source path available")));
            },
        };
        let mut manager = IconFileManager::new(source_base.as_str(), dest_base, dest_subdir);
        let ghost start = manager@;
        let ghost base = source_base@;
        let mut i: usize = 0;
        assert(manager@.icon_sources.dom() =~= themes_track_names(self.themes@.subrange(0, 0)));
        assert(themes_icons(self.themes@.subrange(0, 0)) =~= Set::<(Seq<char>, Seq<char>)>::empty());
        proof {
            lemma_sourced_nothing(start, Set::empty(), base);
        }
        while i < self.themes.len()
            invariant
                i <= self.themes@.len(),
                start == fresh_manager(base, dest_base@, dest_subdir@),
                manager@.source_base == base,
                manager@.dest_base == dest_base@,
                manager@.dest_subdir == dest_subdir@,
                manager@.icon_sources.dom() == themes_track_names(self.themes@.subrange(0, i as int)),
                sourced_from(start, manager@, themes_icons(self.themes@.subrange(0, i as int)), base),
                forall|n: Seq<char>|
                    #[trigger] manager@.icon_sources.contains_key(n) ==> joined_from(
                        base,
                        themes_icon_path(self.themes@.subrange(0, i as int), n),
                        manager@.icon_sources[n],
                    ),
            decreases self.themes@.len() - i,
        {
            let ghost before = manager@;
            let res = self.themes[i].track_icons(&mut manager);
            proof {
                assert(self.themes@.subrange(0, i + 1).drop_last() =~= self.themes@.subrange(0, i as int));
                assert(self.themes@.subrange(0, i + 1).last() == self.themes@[i as int]);
                assert forall|n: Seq<char>| #[trigger] manager@.icon_sources.contains_key(n) implies joined_from(
                    base,
                    themes_icon_path(self.themes@.subrange(0, i + 1), n),
                    manager@.icon_sources[n],
                ) by {
                    if !zed_track_names(self.themes@[i as int]@).contains(n) {
                        assert(before.icon_sources.contains_key(n));
                    }
                }
                lemma_sourced_then(
                    start,
                    before,
                    manager@,
                    themes_icons(self.themes@.subrange(0, i as int)),
                    zed_icons(self.themes@[i as int]@),
                    base,
                );
            }
            i += 1;
        }
        assert(self.themes@.subrange(0, i as int) =~= self.themes@);
        Ok(manager)
    }

    /// Get all icon paths referenced in this theme family, theme after
    /// theme.
    pub fn get_icon_paths(&self) -> (r: Vec<String>)
        ensures
            r.deep_view() == themes_icon_paths(self.themes@),
    {
        let mut paths: Vec<String> = Vec::new();
        let mut i: usize = 0;
        assert(paths.deep_view() =~= themes_icon_paths(self.themes@.subrange(0, 0)));
        while i < self.themes.len()
            invariant
                i <= self.themes@.len(),
                paths.deep_view() == themes_icon_paths(self.themes@.subrange(0, i as int)),
            decreases self.themes@.len() - i,
        {
            let more = self.themes[i].get_icon_paths();
            let ghost before = paths.deep_view();
            let mut j: usize = 0;
            while j < more.len()
                invariant
                    j <= more@.len(),
                    paths.deep_view() == before + more.deep_view().subrange(0, j as int),
                decreases more@.len() - j,
            {
                let ghost pre = paths.deep_view();
                paths.push(more[j].clone());
                assert(paths.deep_view() =~= pre.push(more@[j as int]@));
                assert(more.deep_view().subrange(0, j + 1) =~= more.deep_view().subrange(0, j as int).push(more@[j as int]@));
                j += 1;
            }
            assert(more.deep_view().subrange(0, more@.len() as int) =~= more.deep_view());
            assert(self.themes@.subrange(0, i + 1).drop_last() =~= self.themes@.subrange(0, i as int));
            i += 1;
        }
        assert(self.themes@.subrange(0, i as int) =~= self.themes@);
        paths
    }
}

impl ZedIconTheme {
    /// Track the icons of this theme: the directory icons under
    /// `directory_collapsed` and `directory_expanded`, each file icon under
    /// its type, all relative to the manager's source base.
    pub fn track_icons(&self, manager: &mut IconFileManager) -> (r: Result<(), ThemeError>)
        ensures
            r is Ok,
            tracks(old(manager)@, final(manager)@, zed_track_names(self@)),
            sourced_from(old(manager)@, final(manager)@, zed_icons(self@), old(manager)@.source_base),
            forall|n: Seq<char>|
                #[trigger] zed_track_names(self@).contains(n) ==> joined_from(
                    old(manager)@.source_base,
                    zed_icon_path(self@, n),
                    final(manager)@.icon_sources[n],
                ),
    {
        let ghost start = manager@;
        let ghost base = start.source_base;
        let ghost icons = zed_icons(self@);
        proof {
            lemma_tracks_nothing(start);
            lemma_sourced_nothing(start, icons, base);
            reveal_strlit("directory_collapsed");
            reveal_strlit("directory_expanded");
            assert("directory_collapsed"@.len() != "directory_expanded"@.len());
        }
        if let Some(dir_icons) = &self.directory_icons {
            let ghost q1 = ("directory_collapsed"@, dir_icons.collapsed@);
            let ghost q2 = ("directory_expanded"@, dir_icons.expanded@);
            if let Some(_filename) = IconFileManager::extract_filename(dir_icons.collapsed.as_str()) {
                manager.track_icon(owned("directory_collapsed"), dir_icons.collapsed.as_str());
            } else {
                proof { lemma_sourced_nothing(start, set![q1], base); }
            }
            let ghost m1 = manager@;
            if let Some(_filename) = IconFileManager::extract_filename(dir_icons.expanded.as_str()) {
                manager.track_icon(owned("directory_expanded"), dir_icons.expanded.as_str());
            } else {
                proof { lemma_sourced_nothing(m1, set![q2], base); }
            }
            proof {
                assert(m1.icon_sources.contains_key("directory_collapsed"@));
                assert(joined_from(base, dir_icons.collapsed@, m1.icon_sources["directory_collapsed"@]));
                assert(manager@.icon_sources["directory_collapsed"@] == m1.icon_sources["directory_collapsed"@]);
                lemma_sourced_then(start, m1, manager@, set![q1], set![q2], base);
                lemma_sourced_widen(start, manager@, set![q1].union(set![q2]), icons, base);
                lemma_tracks_then(start, m1, manager@, set!["directory_collapsed"@], set!["directory_expanded"@]);
                assert(set!["directory_collapsed"@].union(set!["directory_expanded"@]) =~= set![
                    "directory_collapsed"@,
                    "directory_expanded"@
                ]);
            }
        }
        let ghost dirs = match self@.directory_icons {
            Some(_) => set!["directory_collapsed"@, "directory_expanded"@],
            None => Set::empty(),
        };
        assert(tracks(start, manager@, dirs));
        assert(sourced_from(start, manager@, icons, base));
        assert(self@.directory_icons matches Some(d) ==> joined_from(base, d.collapsed, manager@.icon_sources["directory_collapsed"@])
            && joined_from(base, d.expanded, manager@.icon_sources["directory_expanded"@]));
        let ghost m2 = manager@;
        if let Some(file_icons) = &self.file_icons {
            let n = file_icons.len();
            let mut i: usize = 0;
            proof {
                lemma_tracks_nothing(m2);
                lemma_sourced_nothing(m2, Set::empty(), base);
                assert(Set::new(|k: Seq<char>| exists|j: int| 0 <= j < 0 && file_icons.pairs()[j].0 == k)
                    =~= Set::<Seq<char>>::empty());
                assert(Set::new(|q: (Seq<char>, Seq<char>)| exists|j: int| 0 <= j < 0 && q == file_icons.pairs()[j])
                    =~= Set::<(Seq<char>, Seq<char>)>::empty());
            }
            while i < n
                invariant
                    i <= n,
                    n == file_icons.pairs().len(),
                    forall|j: int|
                        0 <= j < n ==> file_icons@.contains_key(#[trigger] file_icons.pairs()[j].0)
                            && file_icons@[file_icons.pairs()[j].0] == file_icons.pairs()[j].1,
                    tracks(
                        m2,
                        manager@,
                        Set::new(|k: Seq<char>| exists|j: int| 0 <= j < i && file_icons.pairs()[j].0 == k),
                    ),
                    sourced_from(
                        m2,
                        manager@,
                        Set::new(|q: (Seq<char>, Seq<char>)| exists|j: int| 0 <= j < i && q == file_icons.pairs()[j]),
                        base,
                    ),
                    m2.source_base == base,
                    unique_keys(file_icons.pairs()),
                    forall|j: int|
                        0 <= j < i ==> joined_from(
                            base,
                            file_icons.pairs()[j].1,
                            #[trigger] manager@.icon_sources[file_icons.pairs()[j].0],
                        ),
                decreases n - i,
            {
                let icon_type = file_icons.key_at(i);
                let file_icon = file_icons.value_at(i);
                let ghost before = manager@;
                let ghost q = file_icons.pairs()[i as int];
                if let Some(_filename) = IconFileManager::extract_filename(file_icon.path.as_str()) {
                    manager.track_icon(icon_type.clone(), file_icon.path.as_str());
                } else {
                    proof { lemma_sourced_nothing(before, set![q], base); }
                }
                proof {
                    let sofar = Set::new(|k: Seq<char>| exists|j: int| 0 <= j < i && file_icons.pairs()[j].0 == k);
                    lemma_tracks_then(m2, before, manager@, sofar, set![icon_type@]);
                    assert(Set::new(|k: Seq<char>| exists|j: int| 0 <= j < i + 1 && file_icons.pairs()[j].0 == k)
                        =~= sofar.union(set![icon_type@]));
                    let qs = Set::new(|q: (Seq<char>, Seq<char>)| exists|j: int| 0 <= j < i && q == file_icons.pairs()[j]);
                    lemma_sourced_then(m2, before, manager@, qs, set![q], base);
                    assert(Set::new(|x: (Seq<char>, Seq<char>)| exists|j: int| 0 <= j < i + 1 && x == file_icons.pairs()[j])
                        =~= qs.union(set![q]));
                    assert forall|j: int| 0 <= j < i + 1 implies joined_from(
                        base,
                        file_icons.pairs()[j].1,
                        #[trigger] manager@.icon_sources[file_icons.pairs()[j].0],
                    ) by {
                        if j < i {
                            assert(file_icons.pairs()[j].0 != file_icons.pairs()[i as int].0);
                            assert(before.icon_sources.contains_key(file_icons.pairs()[j].0));
                        }
                    }
                }
                i += 1;
            }
            proof {
                assert forall|nm: Seq<char>| #[trigger] zed_track_names(self@).contains(nm) implies joined_from(
                    base,
                    zed_icon_path(self@, nm),
                    manager@.icon_sources[nm],
                ) by {
                    if file_icons@.contains_key(nm) {
                        file_icons.lemma_key_in_pairs(nm);
                        let j = choose|j: int| 0 <= j < file_icons.pairs().len() && #[trigger] file_icons.pairs()[j].0 == nm;
                        assert(joined_from(base, file_icons.pairs()[j].1, manager@.icon_sources[file_icons.pairs()[j].0]));
                    } else {
                        assert(!(exists|j: int| 0 <= j < n && file_icons.pairs()[j].0 == nm));
                        assert(m2.icon_sources.contains_key(nm));
                    }
                }
                let got = Set::new(|k: Seq<char>| exists|j: int| 0 <= j < n && file_icons.pairs()[j].0 == k);
                assert forall|k: Seq<char>| file_icons@.contains_key(k) implies got.contains(k) by {
                    file_icons.lemma_key_in_pairs(k);
                }
                assert(got =~= file_icons@.dom());
                lemma_tracks_then(start, m2, manager@, dirs, got);
                assert(dirs.union(got) =~= zed_track_names(self@));
                let qs = Set::new(|q: (Seq<char>, Seq<char>)| exists|j: int| 0 <= j < n && q == file_icons.pairs()[j]);
                assert forall|x: (Seq<char>, Seq<char>)| qs.contains(x) implies icons.contains(x) by {
                    let j = choose|j: int| 0 <= j < n && x == file_icons.pairs()[j];
                    assert(file_icons@.contains_key(file_icons.pairs()[j].0));
                }
                lemma_sourced_widen(m2, manager@, qs, icons, base);
                lemma_sourced_then(start, m2, manager@, icons, icons, base);
                assert(icons.union(icons) =~= icons);
            }
        } else {
            assert(dirs =~= zed_track_names(self@));
        }
        Ok(())
    }

    /// Track the icons of this theme under names that carry the icon's file
    /// name. Without a base, paths are relative to the manager's source
    /// base; with one, an icon is tracked (by its full path) only when it
    /// exists under that base.
    pub fn track_icons_with_base(&self, manager: &mut IconFileManager, source_base: Option<&str>) -> (r: Result<
        (),
        ThemeError,
    >)
        ensures
            r is Ok,
            source_base is None ==> tracks(old(manager)@, final(manager)@, zed_track_names_with_files(self@)),
            tracks_some(old(manager)@, final(manager)@, zed_track_names_with_files(self@)),
            sourced_from(old(manager)@, final(manager)@, zed_icons_with_files(self@), base_or(source_base, old(manager)@)),
    {
        let ghost start = manager@;
        let ghost base = base_or(source_base, start);
        let ghost icons = zed_icons_with_files(self@);
        proof {
            lemma_tracks_nothing(start);
            lemma_sourced_nothing(start, icons, base);
        }
        let ghost dirs = match self@.directory_icons {
            Some(d) => set![
                "directory_collapsed"@ + "_"@ + filename_in(d.collapsed),
                "directory_expanded"@ + "_"@ + filename_in(d.expanded)
            ],
            None => Set::empty(),
        };
        if let Some(dir_icons) = &self.directory_icons {
            let ghost n1 = "directory_collapsed"@ + "_"@ + filename_in(dir_icons.collapsed@);
            let ghost n2 = "directory_expanded"@ + "_"@ + filename_in(dir_icons.expanded@);
            let ghost q1 = (n1, dir_icons.collapsed@);
            let ghost q2 = (n2, dir_icons.expanded@);
            if let Some(filename) = IconFileManager::extract_filename(dir_icons.collapsed.as_str()) {
                let logical_name = logical_icon_name("directory_collapsed", filename.as_str());
                manager.track_icon_with_base(logical_name, dir_icons.collapsed.as_str(), source_base);
            } else {
                proof { lemma_sourced_nothing(start, set![q1], base); }
            }
            let ghost m1 = manager@;
            if let Some(filename) = IconFileManager::extract_filename(dir_icons.expanded.as_str()) {
                let logical_name = logical_icon_name("directory_expanded", filename.as_str());
                manager.track_icon_with_base(logical_name, dir_icons.expanded.as_str(), source_base);
            } else {
                proof { lemma_sourced_nothing(m1, set![q2], base); }
            }
            proof {
                lemma_sourced_then(start, m1, manager@, set![q1], set![q2], base);
                lemma_sourced_widen(start, manager@, set![q1].union(set![q2]), icons, base);
                assert(set![n1].union(set![n2]) =~= dirs);
                lemma_tracks_some_then(start, m1, manager@, set![n1], set![n2]);
                if source_base is None {
                    lemma_tracks_then(start, m1, manager@, set![n1], set![n2]);
                }
            }
        }
        assert(sourced_from(start, manager@, icons, base));
        let ghost m2 = manager@;
        let ghost names = zed_track_names_with_files(self@);
        if let Some(file_icons) = &self.file_icons {
            let n = file_icons.len();
            let mut i: usize = 0;
            proof {
                lemma_tracks_nothing(m2);
                lemma_sourced_nothing(m2, Set::empty(), base);
                assert(Set::new(|q: (Seq<char>, Seq<char>)| exists|j: int| 0 <= j < 0 && q == (file_icons.pairs()[j].0 + "_"@ + filename_in(file_icons.pairs()[j].1), file_icons.pairs()[j].1))
                    =~= Set::<(Seq<char>, Seq<char>)>::empty());
                assert(Set::new(|m: Seq<char>| exists|j: int| 0 <= j < 0 && m == file_icons.pairs()[j].0 + "_"@ + filename_in(file_icons.pairs()[j].1))
                    =~= Set::<Seq<char>>::empty());
            }
            while i < n
                invariant
                    i <= n,
                    n == file_icons.pairs().len(),
                    tracks_some(
                        m2,
                        manager@,
                        Set::new(|m: Seq<char>| exists|j: int| 0 <= j < i && m == file_icons.pairs()[j].0 + "_"@ + filename_in(file_icons.pairs()[j].1)),
                    ),
                    source_base is None ==> tracks(
                        m2,
                        manager@,
                        Set::new(|m: Seq<char>| exists|j: int| 0 <= j < i && m == file_icons.pairs()[j].0 + "_"@ + filename_in(file_icons.pairs()[j].1)),
                    ),
                    sourced_from(
                        m2,
                        manager@,
                        Set::new(|q: (Seq<char>, Seq<char>)| exists|j: int| 0 <= j < i && q == (file_icons.pairs()[j].0 + "_"@ + filename_in(file_icons.pairs()[j].1), file_icons.pairs()[j].1)),
                        base,
                    ),
                    base == base_or(source_base, m2),
                    forall|j: int|
                        0 <= j < n ==> file_icons@.contains_key(#[trigger] file_icons.pairs()[j].0)
                            && file_icons@[file_icons.pairs()[j].0] == file_icons.pairs()[j].1,
                decreases n - i,
            {
                let icon_type = file_icons.key_at(i);
                let file_icon = file_icons.value_at(i);
                let ghost before = manager@;
                let ghost sofar = Set::new(|m: Seq<char>| exists|j: int| 0 <= j < i && m == file_icons.pairs()[j].0 + "_"@ + filename_in(file_icons.pairs()[j].1));
                let ghost this = file_icons.pairs()[i as int].0 + "_"@ + filename_in(file_icons.pairs()[i as int].1);
                let ghost q = (this, file_icons.pairs()[i as int].1);
                if let Some(filename) = IconFileManager::extract_filename(file_icon.path.as_str()) {
                    let logical_name = logical_icon_name(icon_type.as_str(), filename.as_str());
                    manager.track_icon_with_base(logical_name, file_icon.path.as_str(), source_base);
                } else {
                    proof { lemma_sourced_nothing(before, set![q], base); }
                }
                proof {
                    let qs = Set::new(|x: (Seq<char>, Seq<char>)| exists|j: int| 0 <= j < i && x == (file_icons.pairs()[j].0 + "_"@ + filename_in(file_icons.pairs()[j].1), file_icons.pairs()[j].1));
                    lemma_sourced_then(m2, before, manager@, qs, set![q], base);
                    assert(Set::new(|x: (Seq<char>, Seq<char>)| exists|j: int| 0 <= j < i + 1 && x == (file_icons.pairs()[j].0 + "_"@ + filename_in(file_icons.pairs()[j].1), file_icons.pairs()[j].1))
                        =~= qs.union(set![q]));
                    lemma_tracks_some_then(m2, before, manager@, sofar, set![this]);
                    if source_base is None {
                        lemma_tracks_then(m2, before, manager@, sofar, set![this]);
                    }
                    assert(Set::new(|m: Seq<char>| exists|j: int| 0 <= j < i + 1 && m == file_icons.pairs()[j].0 + "_"@ + filename_in(file_icons.pairs()[j].1))
                        =~= sofar.union(set![this]));
                }
                i += 1;
            }
            proof {
                let got = Set::new(|m: Seq<char>| exists|j: int| 0 <= j < n && m == file_icons.pairs()[j].0 + "_"@ + filename_in(file_icons.pairs()[j].1));
                let fnames = Set::new(|m: Seq<char>| exists|k: Seq<char>| #[trigger] file_icons@.contains_key(k) && m == k + "_"@ + filename_in(file_icons@[k]));
                assert forall|m: Seq<char>| fnames.contains(m) implies got.contains(m) by {
                    let k = choose|k: Seq<char>| #[trigger] file_icons@.contains_key(k) && m == k + "_"@ + filename_in(file_icons@[k]);
                    file_icons.lemma_key_in_pairs(k);
                    let j = choose|j: int| 0 <= j < file_icons.pairs().len() && #[trigger] file_icons.pairs()[j].0 == k;
                    assert(file_icons@[file_icons.pairs()[j].0] == file_icons.pairs()[j].1);
                }
                assert forall|m: Seq<char>| got.contains(m) implies fnames.contains(m) by {
                    let j = choose|j: int| 0 <= j < n && m == file_icons.pairs()[j].0 + "_"@ + filename_in(file_icons.pairs()[j].1);
                    let k = file_icons.pairs()[j].0;
                    assert(file_icons@.contains_key(k) && file_icons@[k] == file_icons.pairs()[j].1);
                }
                assert(got =~= fnames);
                assert(dirs.union(got) =~= names);
                lemma_tracks_some_then(start, m2, manager@, dirs, got);
                if source_base is None {
                    lemma_tracks_then(start, m2, manager@, dirs, got);
                }
                let qs = Set::new(|x: (Seq<char>, Seq<char>)| exists|j: int| 0 <= j < n && x == (file_icons.pairs()[j].0 + "_"@ + filename_in(file_icons.pairs()[j].1), file_icons.pairs()[j].1));
                assert forall|x: (Seq<char>, Seq<char>)| qs.contains(x) implies icons.contains(x) by {
                    let j = choose|j: int| 0 <= j < n && x == (file_icons.pairs()[j].0 + "_"@ + filename_in(file_icons.pairs()[j].1), file_icons.pairs()[j].1);
                    let k = file_icons.pairs()[j].0;
                    assert(file_icons@.contains_key(k));
                }
                lemma_sourced_widen(m2, manager@, qs, icons, base);
                lemma_sourced_then(start, m2, manager@, icons, icons, base);
                assert(icons.union(icons) =~= icons);
            }
        } else {
            assert(dirs =~= names);
        }
        Ok(())
    }

    /// Get all icon paths referenced in this theme: the directory icons,
    /// then the file icons in order.
    pub fn get_icon_paths(&self) -> (r: Vec<String>)
        ensures
            r.deep_view() == zed_icon_paths(*self),
    {
        let mut paths: Vec<String> = Vec::new();
        if let Some(dir_icons) = &self.directory_icons {
            paths.push(dir_icons.collapsed.clone());
            paths.push(dir_icons.expanded.clone());
        }
        let ghost dirs = paths.deep_view();
        assert(dirs =~= match self.directory_icons {
            Some(d) => seq![d.collapsed@, d.expanded@],
            None => Seq::<Seq<char>>::empty(),
        });
        if let Some(file_icons) = &self.file_icons {
            let n = file_icons.len();
            let mut i: usize = 0;
            let ghost all = pair_values(file_icons.pairs());
            assert(paths.deep_view() =~= dirs + all.subrange(0, 0));
            while i < n
                invariant
                    i <= n,
                    n == file_icons.pairs().len(),
                    all == pair_values(file_icons.pairs()),
                    paths.deep_view() == dirs + all.subrange(0, i as int),
                decreases n - i,
            {
                let ghost pre = paths.deep_view();
                let p = file_icons.value_at(i).path.clone();
                assert(p@ == all[i as int]);
                paths.push(p);
                assert(paths.deep_view() =~= pre.push(all[i as int]));
                assert(dirs + all.subrange(0, i + 1) =~= (dirs + all.subrange(0, i as int)).push(all[i as int]));
                i += 1;
            }
            assert(all.subrange(0, n as int) =~= all);
        } else {
            assert(paths.deep_view() =~= dirs + Seq::<Seq<char>>::empty());
        }
        paths
    }

    /// Rename the icon paths that `path_mapping` maps (e.g. after the icons
    /// were copied to a new place); other paths stay as they are.
    pub fn update_icon_paths(&mut self, path_mapping: &StrMap<String>)
        ensures
            final(self)@ == (ZedIconThemeView {
                directory_icons: match old(self)@.directory_icons {
                    Some(d) => Some(
                        DirectoryIconsView {
                            collapsed: remap(d.collapsed, path_mapping@),
                            expanded: remap(d.expanded, path_mapping@),
                        },
                    ),
                    None => None,
                },
                file_icons: match old(self)@.file_icons {
                    Some(m) => Some(remap_values(m, path_mapping@)),
                    None => None,
                },
                ..old(self)@
            }),
            zed_icon_paths(*final(self)) == remap_all(zed_icon_paths(*old(self)), path_mapping@),
    {
        let ghost old_paths = zed_icon_paths(*self);
        let ghost mp = path_mapping@;
        if let Some(dir_icons) = &mut self.directory_icons {
            if let Some(new_path) = path_mapping.get(dir_icons.collapsed.as_str()) {
                dir_icons.collapsed = new_path.clone();
            }
            if let Some(new_path) = path_mapping.get(dir_icons.expanded.as_str()) {
                dir_icons.expanded = new_path.clone();
            }
        }
        let taken = self.file_icons.take();
        if let Some(mut file_icons) = taken {
            let ghost start = file_icons.pairs();
            let ghost start_map = file_icons@;
            let n = file_icons.len();
            let mut i: usize = 0;
            while i < n
                invariant
                    i <= n,
                    n == start.len(),
                    start_map == pairs_to_map(start),
                    mp == path_mapping@,
                    file_icons.pairs().len() == n,
                    file_icons@ == pairs_to_map(file_icons.pairs()),
                    forall|j: int|
                        0 <= j < n ==> #[trigger] file_icons.pairs()[j] == (if j < i {
                            (start[j].0, remap(start[j].1, mp))
                        } else {
                            start[j]
                        }),
                decreases n - i,
            {
                let ghost before = file_icons.pairs();
                let path = file_icons.value_at(i).path.clone();
                assert(path@ == start[i as int].1);
                if let Some(new_path) = path_mapping.get(path.as_str()) {
                    file_icons.set_value_at(i, FileIcon { path: new_path.clone() });
                    assert(file_icons.pairs() == before.update(i as int, (start[i as int].0, remap(start[i as int].1, mp))));
                } else {
                    assert(remap(start[i as int].1, mp) == start[i as int].1);
                }
                i += 1;
            }
            proof {
                let f = |p: Seq<char>| remap(p, mp);
                assert(file_icons.pairs() =~= map_pair_values(start, f));
                lemma_pairs_to_map_map_values(start, f);
                assert(file_icons@ =~= remap_values(start_map, mp));
            }
            self.file_icons = Some(file_icons);
        }
        proof {
            let new_paths = zed_icon_paths(*self);
            assert(new_paths =~= remap_all(old_paths, mp));
        }
    }
}

/// The value of each key of the map that pairs build is one of their
/// values.
proof fn lemma_pair_value_listed(s: Seq<(Seq<char>, Seq<char>)>, k: Seq<char>)
    requires
        pairs_to_map(s).contains_key(k),
    ensures
        pair_values(s).contains(pairs_to_map(s)[k]),
    decreases s.len(),
{
    let prev = s.drop_last();
    if k == s.last().0 {
        assert(pair_values(s)[s.len() - 1] == s.last().1);
    } else {
        lemma_pair_value_listed(prev, k);
        let j = choose|j: int| 0 <= j < pair_values(prev).len() && pair_values(prev)[j] == pairs_to_map(prev)[k];
        assert(pair_values(s)[j] == pair_values(prev)[j]);
    }
}

impl ZedIconTheme {
    /// The theme as it reads once its icons are copied by `manager`: every
    /// icon path becomes the relative path of its file name in the
    /// manager's icon subdirectory.
    pub fn with_relocated_icons(self, manager: &IconFileManager) -> (r: Self)
        ensures
            r@ == (ZedIconThemeView {
                directory_icons: match self@.directory_icons {
                    Some(d) => Some(
                        DirectoryIconsView {
                            collapsed: relocated(d.collapsed, manager@.dest_subdir),
                            expanded: relocated(d.expanded, manager@.dest_subdir),
                        },
                    ),
                    None => None,
                },
                file_icons: match self@.file_icons {
                    Some(m) => Some(
                        Map::new(|k: Seq<char>| m.contains_key(k), |k: Seq<char>| relocated(m[k], manager@.dest_subdir)),
                    ),
                    None => None,
                },
                ..self@
            }),
    {
        let ghost before = self;
        let mut t = self;
        let paths = t.get_icon_paths();
        let mapping = manager.relocation_mapping(paths.as_slice());
        let ghost mp = mapping@;
        let ghost all = zed_icon_paths(before);
        assert(paths.deep_view() == all);
        t.update_icon_paths(&mapping);
        proof {
            let sub = manager@.dest_subdir;
            if let Some(d) = before.directory_icons {
                assert(all[0] == d.collapsed@);
                assert(all[1] == d.expanded@);
                assert(all.contains(d.collapsed@));
                assert(all.contains(d.expanded@));
            }
            if let Some(m) = before.file_icons {
                let dirs = match before.directory_icons {
                    Some(d) => seq![d.collapsed@, d.expanded@],
                    None => Seq::<Seq<char>>::empty(),
                };
                assert forall|k: Seq<char>| #[trigger] m@.contains_key(k) implies remap(m@[k], mp) == relocated(
                    m@[k],
                    sub,
                ) by {
                    lemma_pair_value_listed(m.pairs(), k);
                    let j = choose|j: int|
                        0 <= j < pair_values(m.pairs()).len() && pair_values(m.pairs())[j] == m@[k];
                    assert(all[dirs.len() + j] == m@[k]);
                }
                assert(remap_values(m@, mp) =~= Map::new(
                    |k: Seq<char>| m@.contains_key(k),
                    |k: Seq<char>| relocated(m@[k], sub),
                ));
            }
        }
        t
    }
}

} // verus!
