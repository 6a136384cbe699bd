//! Zed keeps a list of installed extensions. When we convert a theme,
//! we need to add it to this list so it becomes available in Zed to
//! be used.

use vstd::prelude::*;

use super::extension::ZedExtension;
use super::icon_theme::ZedIconTheme;
use super::manifest::{GrammarView, ZedManifest};
use super::theme::{ZedTheme, ZedThemeFamily};
use crate::paths::{
    adjoined, after_last, ends_with_components, join_path, lemma_simple_name_is_plain, no_verbatim, parent, parent_text, plain_component, plain_path,
};
use crate::slugs::{slug_of, slugify};
use crate::strmap::StrMap;
use crate::text::{contains, has_prefix, owned, str_contains};

verus! {

/// Where a theme (or icon theme) of an installed extension is found.
#[derive(Debug)]
pub struct ZedThemeIndex {
    /// The short slug name of the extension (id)
    pub extension: String,
    /// The extension path, in the form "themes/foo.json"
    pub path: String,
}

/// The view of a theme pointer.
pub struct ZedThemeIndexView {
    pub extension: Seq<char>,
    pub path: Seq<char>,
}

impl View for ZedThemeIndex {
    type V = ZedThemeIndexView;

    open spec fn view(&self) -> ZedThemeIndexView {
        ZedThemeIndexView { extension: self.extension@, path: self.path@ }
    }
}

/// An installed extension's manifest, and whether it is a development
/// extension.
#[derive(Debug)]
pub struct ExtensionWrapper {
    pub manifest: ZedManifest,
    pub dev: bool,
}

/// The view of an installed extension: its manifest, field by field, and
/// whether it is a development extension.
pub struct ExtensionWrapperView {
    pub id: Seq<char>,
    pub name: Seq<char>,
    pub version: Seq<char>,
    pub schema_version: usize,
    pub description: Seq<char>,
    pub repository: Seq<char>,
    pub authors: Seq<Seq<char>>,
    pub themes: Seq<Seq<char>>,
    pub icon_themes: Seq<Seq<char>>,
    pub languages: Seq<Seq<char>>,
    pub capabilities: Seq<Seq<char>>,
    pub lib_kind: Option<Seq<char>>,
    pub lib_version: Option<Seq<char>>,
    pub grammars: Map<Seq<char>, GrammarView>,
    pub language_servers: serde_json::Value,
    pub context_servers: serde_json::Value,
    pub slash_commands: serde_json::Value,
    pub indexed_docs_providers: serde_json::Value,
    pub snippets: Option<serde_json::Value>,
    pub dev: bool,
}

/// The view of the manifest `m` installed, as a development extension
/// where `dev`.
pub open spec fn installed_view(m: ZedManifest, dev: bool) -> ExtensionWrapperView {
    ExtensionWrapperView {
        id: m.id@,
        name: m.name@,
        version: m.version@,
        schema_version: m.schema_version,
        description: m.description@,
        repository: m.repository@,
        authors: m.authors.deep_view(),
        themes: m.themes.deep_view(),
        icon_themes: m.icon_themes.deep_view(),
        languages: m.languages.deep_view(),
        capabilities: m.capabilities.deep_view(),
        lib_kind: m.lib.kind.deep_view(),
        lib_version: m.lib.version.deep_view(),
        grammars: m.grammars@,
        language_servers: m.language_servers,
        context_servers: m.context_servers,
        slash_commands: m.slash_commands,
        indexed_docs_providers: m.indexed_docs_providers,
        snippets: m.snippets,
        dev,
    }
}

impl View for ExtensionWrapper {
    type V = ExtensionWrapperView;

    open spec fn view(&self) -> ExtensionWrapperView {
        installed_view(self.manifest, self.dev)
    }
}

/// This is the index.json file in the Zed extensions directory. It contains a
/// list of all the installed extensions Zed knows about, along with a directory
/// of extensions sorted by type. Newly-converted themes need to be added here.
#[derive(Debug)]
pub struct InstalledExtensions {
    /// map of extension manifests
    pub extensions: StrMap<ExtensionWrapper>,
    /// map of color theme pointers
    pub themes: StrMap<ZedThemeIndex>,
    /// map of icon theme pointers
    pub icon_themes: StrMap<ZedThemeIndex>,
    /// Entries for all other extension types (languages, grammars,
    /// snippets, servers, ...), carried along unread.
    pub other: Vec<(String, serde_json::Value)>,
}

/// The first of `paths` that holds `slug`.
pub open spec fn first_holding(paths: Seq<Seq<char>>, slug: Seq<char>) -> Option<Seq<char>>
    decreases paths.len(),
{
    if paths.len() == 0 {
        None
    } else if contains(paths[0], slug) {
        Some(paths[0])
    } else {
        first_holding(paths.drop_first(), slug)
    }
}

/// The pointer to the file that holds `slug` among `paths`, if any, for
/// the extension `id`.
pub open spec fn pointer_to(id: Seq<char>, paths: Seq<Seq<char>>, slug: Seq<char>) -> Option<ZedThemeIndexView> {
    match first_holding(paths, slug) {
        Some(p) => Some(ZedThemeIndexView { extension: id, path: p }),
        None => None,
    }
}

/// `m` with each of the themes, in order, pointing at `ptr` (unchanged
/// when there is no pointer).
pub open spec fn with_pointers_of_themes(
    m: Map<Seq<char>, ZedThemeIndexView>,
    themes: Seq<ZedTheme>,
    ptr: Option<ZedThemeIndexView>,
) -> Map<Seq<char>, ZedThemeIndexView>
    decreases themes.len(),
{
    if themes.len() == 0 {
        m
    } else {
        let prev = with_pointers_of_themes(m, themes.drop_last(), ptr);
        match ptr {
            Some(x) => prev.insert(themes.last().name@, x),
            None => prev,
        }
    }
}

/// `m` with the themes of each family, in order, pointing at the first
/// theme file whose path holds the slug of the family's name.
pub open spec fn with_family_pointers(
    m: Map<Seq<char>, ZedThemeIndexView>,
    families: Seq<ZedThemeFamily>,
    id: Seq<char>,
    paths: Seq<Seq<char>>,
) -> Map<Seq<char>, ZedThemeIndexView>
    decreases families.len(),
{
    if families.len() == 0 {
        m
    } else {
        let prev = with_family_pointers(m, families.drop_last(), id, paths);
        let f = families.last();
        with_pointers_of_themes(prev, f.themes@, pointer_to(id, paths, slug_of(f.name@)))
    }
}

/// `m` with each icon theme, in order, pointing at the first icon theme
/// file whose path holds the slug of its name.
pub open spec fn with_icon_pointers(
    m: Map<Seq<char>, ZedThemeIndexView>,
    icons: Seq<ZedIconTheme>,
    id: Seq<char>,
    paths: Seq<Seq<char>>,
) -> Map<Seq<char>, ZedThemeIndexView>
    decreases icons.len(),
{
    if icons.len() == 0 {
        m
    } else {
        let prev = with_icon_pointers(m, icons.drop_last(), id, paths);
        let t = icons.last();
        match pointer_to(id, paths, slug_of(t.name@)) {
            Some(x) => prev.insert(t.name@, x),
            None => prev,
        }
    }
}

/// The first of `paths` that holds `slug`.
fn find_holding<'a>(paths: &'a [String], slug: &str) -> (r: Option<&'a String>)
    ensures
        r.deep_view() == first_holding(paths.deep_view(), slug@),
{
    let ghost ps = paths.deep_view();
    let mut i: usize = 0;
    assert(ps.subrange(0, ps.len() as int) =~= ps);
    while i < paths.len()
        invariant
            i <= paths@.len(),
            ps == paths.deep_view(),
            first_holding(ps, slug@) == first_holding(ps.subrange(i as int, ps.len() as int), slug@),
        decreases paths@.len() - i,
    {
        let ghost rest = ps.subrange(i as int, ps.len() as int);
        assert(rest[0] == paths[i as int]@);
        if str_contains(paths[i].as_str(), slug) {
            return Some(&paths[i]);
        }
        assert(rest.drop_first() =~= ps.subrange(i + 1, ps.len() as int));
        i += 1;
    }
    None
}

/// `r` is `dir`, or `index.json` adjoined to `dir` (as the platform joins
/// paths, stated where `dir` is no verbatim path) where `dir` holds
/// `extensions`.
pub open spec fn index_in(dir: Seq<char>, r: Seq<char>) -> bool {
    r == dir || (contains(dir, "extensions"@) && (no_verbatim(dir) ==> adjoined(dir, "index.json"@, r)))
}

/// The directory `index_path` looks in, for a path of plain components
/// joined by `/`: its parent where its last component is `installed`,
/// else the path itself.
pub open spec fn index_dir(path: Seq<char>) -> Seq<char> {
    if after_last(path, '/') == "installed"@ {
        parent_text(path)
    } else {
        path
    }
}

/// The index file among the extensions: `path` without a final
/// `installed` component, then `index.json` when it ends with an
/// `extensions` component. Where the components split rests on the
/// platform's path rules; what holds is that the result is `path` or its
/// index file, or, where `path` holds `installed`, a shorter start of
/// `path` or that start's index file.
pub fn index_path(path: &str) -> (r: String)
    ensures
        index_in(path@, r@) || (contains(path@, "installed"@) && exists|p: Seq<char>|
            p.len() < path@.len() && has_prefix(path@, p) && #[trigger] index_in(p, r@)),
        plain_path(path@) && plain_path(index_dir(path@)) ==> if after_last(index_dir(path@), '/') == "extensions"@ {
            adjoined(index_dir(path@), "index.json"@, r@)
        } else {
            r@ == index_dir(path@)
        },
{
    proof {
        reveal_strlit("installed");
        reveal_strlit("extensions");
        reveal_strlit("index.json");
        lemma_simple_name_is_plain("installed"@);
        lemma_simple_name_is_plain("extensions"@);
        lemma_simple_name_is_plain("index.json"@);
    }
    let mut fpath = owned(path);
    if ends_with_components(fpath.as_str(), "installed") {
        if let Some(p) = parent(fpath.as_str()) {
            fpath = p;
        }
    }
    let ghost mid = fpath@;
    assert(mid == path@ || (contains(path@, "installed"@) && mid.len() < path@.len() && has_prefix(path@, mid)));
    assert(plain_path(path@) ==> mid == index_dir(path@));
    if ends_with_components(fpath.as_str(), "extensions") {
        fpath = join_path(fpath.as_str(), "index.json");
    }
    assert(index_in(mid, fpath@));
    fpath
}


impl InstalledExtensions {
    /// Record an extension as installed: its manifest (as a development
    /// extension) under its id, each theme of each family pointing at the
    /// first theme file of the manifest whose path holds the slug of the
    /// family's name, and each icon theme pointing at the first icon theme
    /// file whose path holds the slug of its own name. Themes without such
    /// a file are left out; earlier pointers under the same names are
    /// replaced.
    pub fn add_extension(&mut self, extension: &ZedExtension)
        ensures
            final(self).extensions@ == old(self).extensions@.insert(
                extension.metadata.id@,
                installed_view(extension.metadata, true),
            ),
            final(self).themes@ == with_family_pointers(
                old(self).themes@,
                extension.families@,
                extension.metadata.id@,
                extension.metadata.themes.deep_view(),
            ),
            final(self).icon_themes@ == with_icon_pointers(
                old(self).icon_themes@,
                extension.icon_themes@,
                extension.metadata.id@,
                extension.metadata.icon_themes.deep_view(),
            ),
            final(self).other == old(self).other,
    {
        let manifest_ref = extension.manifest();
        let id = owned(manifest_ref.id());
        let manifest = manifest_ref.clone();
        self.extensions.insert(id.clone(), ExtensionWrapper { manifest, dev: true });
        let ghost ext_view = self.extensions@;

        let ghost fams = extension.families@;
        let ghost paths = extension.metadata.themes.deep_view();
        let theme_paths = manifest_ref.themes();
        let families = extension.families();
        let mut i: usize = 0;
        assert(fams.subrange(0, 0) =~= Seq::<ZedThemeFamily>::empty());
        while i < families.len()
            invariant
                families@ == fams,
                theme_paths.deep_view() == paths,
                id@ == extension.metadata.id@,
                i <= fams.len(),
                self.themes@ == with_family_pointers(old(self).themes@, fams.subrange(0, i as int), id@, paths),
                self.extensions@ == ext_view,
                self.icon_themes@ == old(self).icon_themes@,
                self.other == old(self).other,
            decreases fams.len() - i,
        {
            let family = &families[i];
            assert(fams.subrange(0, i + 1).drop_last() =~= fams.subrange(0, i as int));
            let slug = slugify(family.name.as_str());
            let found = find_holding(theme_paths, slug.as_str());
            let ghost start = self.themes@;
            let ghost ptr = pointer_to(id@, paths, slug_of(family.name@));
            let themes = &family.themes;
            let mut j: usize = 0;
            assert(themes@.subrange(0, 0) =~= Seq::<ZedTheme>::empty());
            while j < themes.len()
                invariant
                    j <= themes@.len(),
                    found.deep_view() == first_holding(paths, slug@),
                    slug@ == slug_of(family.name@),
                    ptr == pointer_to(id@, paths, slug_of(family.name@)),
                    self.themes@ == with_pointers_of_themes(start, themes@.subrange(0, j as int), ptr),
                    self.extensions@ == ext_view,
                    self.icon_themes@ == old(self).icon_themes@,
                    self.other == old(self).other,
                    id@ == extension.metadata.id@,
                decreases themes@.len() - j,
            {
                assert(themes@.subrange(0, j + 1).drop_last() =~= themes@.subrange(0, j as int));
                if let Some(theme_path) = found {
                    self.themes.insert(
                        themes[j].name.clone(),
                        ZedThemeIndex { extension: id.clone(), path: theme_path.clone() },
                    );
                }
                j += 1;
            }
            assert(themes@.subrange(0, themes@.len() as int) =~= themes@);
            i += 1;
        }
        assert(fams.subrange(0, fams.len() as int) =~= fams);
        let ghost themes_done = self.themes@;

        let ghost icons = extension.icon_themes@;
        let ghost icon_paths = extension.metadata.icon_themes.deep_view();
        let icon_theme_paths = manifest_ref.icon_themes();
        let icon_themes = extension.icon_themes();
        let mut k: usize = 0;
        assert(icons.subrange(0, 0) =~= Seq::<ZedIconTheme>::empty());
        while k < icon_themes.len()
            invariant
                icon_themes@ == icons,
                icon_theme_paths.deep_view() == icon_paths,
                id@ == extension.metadata.id@,
                k <= icons.len(),
                self.icon_themes@ == with_icon_pointers(
                    old(self).icon_themes@,
                    icons.subrange(0, k as int),
                    id@,
                    icon_paths,
                ),
                self.extensions@ == ext_view,
                self.themes@ == themes_done,
                self.other == old(self).other,
            decreases icons.len() - k,
        {
            assert(icons.subrange(0, k + 1).drop_last() =~= icons.subrange(0, k as int));
            let icon_theme = &icon_themes[k];
            let slug = slugify(icon_theme.name.as_str());
            if let Some(icon_path) = find_holding(icon_theme_paths, slug.as_str()) {
                self.icon_themes.insert(
                    icon_theme.name.clone(),
                    ZedThemeIndex { extension: id.clone(), path: icon_path.clone() },
                );
            }
            k += 1;
        }
        assert(icons.subrange(0, icons.len() as int) =~= icons);
    }
}

} // verus!
