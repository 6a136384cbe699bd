//! VSCode theme extensions: their manifest and their themes.
//! We don't try to be complete shiny publishable extensions, but just enough
//! that the editor can load and use the theme.

use vstd::prelude::*;

use super::icon_theme::VsCodeIconTheme;
use super::metadata::{
    Contributions, IconThemePointer, IconThemePointerView, Repository, ThemePointer, ThemePointerView, VsCodePackageJson,
};
use super::theme::{VsCodeTheme, VsCodeThemeView};
use crate::convert::icons::{default_file_key, vscode_icon_theme_of};
use crate::convert::zed_to_code::vscode_theme_of;
use crate::editors::zed::extension::{themes_in, ZedExtension};
use crate::editors::zed::icon_theme::ZedIconTheme;
use crate::editors::zed::theme::{Appearance, ZedTheme, ZedThemeFamily};
use crate::errors::ThemeError;
use crate::grouping::{extension_name, find_extension_name};
use crate::order::{lemma_map_values_permutation, sort_by_key, sorted_by_key, with_key, Keyed};
use crate::slugs::{slug_of, slugify};
use crate::text::{contains, has_suffix, owned, replace_all, replace_str, str_contains};

verus! {

/// Where VSCode keeps extensions, below the home directory.
pub fn extension_dir() -> (r: &'static str)
    ensures
        r@ == ".vscode/extensions"@,
{
    ".vscode/extensions"
}

/// A VSCode extension holding color and icon themes.
#[derive(Debug)]
pub struct VsCodeExtension {
    pub directory: String,
    pub name: String,
    pub themes: Vec<VsCodeTheme>,
    pub icon_themes: Vec<VsCodeIconTheme>,
    pub manifest: VsCodePackageJson,
}

/// A theme file name as VSCode expects it: without `.json` and
/// `-color-theme` anywhere, then `.json`.
pub open spec fn normalized_filename(name: Seq<char>) -> Seq<char> {
    replace_all(replace_all(name, ".json"@, ""@), "-color-theme"@, ""@) + ".json"@
}

/// The directory of an extension below an extensions directory.
pub open spec fn official_path(name: Seq<char>, extdir: Seq<char>) -> Seq<char> {
    extdir + "/"@ + name
}

/// The manifest entry of a theme written into a constructed extension.
pub open spec fn constructed_pointer(t: VsCodeThemeView) -> ThemePointerView {
    ThemePointerView {
        label: replace_all(t.filename, ".json"@, ""@),
        ui_theme: if t.theme_type == Some("dark"@) {
            "vs-dark"@
        } else {
            "vs"@
        },
        path: t.filename,
    }
}

impl VsCodeExtension {
    /// Ensure the name of a theme file stored in an extension is in the form
    /// vscode expects "name.json".
    pub fn normalize_filename(name: &str) -> (r: String)
        ensures
            r@ == normalized_filename(name@),
    {
        proof {
            reveal_strlit(".json");
            reveal_strlit("-color-theme");
        }
        let without_json = replace_str(name, ".json", "");
        let mut extname = replace_str(without_json.as_str(), "-color-theme", "");
        extname.append(".json");
        extname
    }

    /// The directory of an extension named `name` below `extdir`.
    pub fn build_official_path(name: &str, extdir: &str) -> (r: String)
        ensures
            r@ == official_path(name@, extdir@),
    {
        let mut r = owned(extdir);
        r.append("/");
        r.append(name);
        r
    }

    /// A new extension for themes: it lives in a directory named `filename`
    /// among VSCode's extensions, its manifest lists each theme by its file
    /// name (dark ones as `vs-dark`, others as `vs`), and it is named by the
    /// slug of `theme_name`.
    pub fn new(theme_name: &str, filename: &str, themes: Vec<VsCodeTheme>) -> (r: Self)
        ensures
            r.directory@ == official_path(filename@, ".vscode/extensions"@),
            r.name@ == theme_name@,
            r.themes@ == themes@,
            r.icon_themes@.len() == 0,
            r.manifest.name@ == slug_of(theme_name@),
            r.manifest.display_name@ == theme_name@,
            r.manifest.description@ == "constructed extension"@,
            r.manifest.publisher@ == "n/a"@,
            r.manifest.repository.url@ == "n/a"@,
            r.manifest.contributes.icon_themes@.len() == 0,
            r.manifest.contributes.themes@.len() == themes@.len(),
            forall|i: int|
                0 <= i < themes@.len() ==> #[trigger] r.manifest.contributes.themes@[i]@ == constructed_pointer(
                    themes@[i]@,
                ),
    {
        proof {
            reveal_strlit(".json");
        }
        let directory = VsCodeExtension::build_official_path(filename, extension_dir());
        let name = owned(theme_name);
        let mut theme_pointers: Vec<ThemePointer> = Vec::new();
        let mut i: usize = 0;
        while i < themes.len()
            invariant
                i <= themes@.len(),
                ".json"@.len() > 0,
                theme_pointers@.len() == i,
                forall|k: int|
                    0 <= k < i ==> #[trigger] theme_pointers@[k]@ == constructed_pointer(themes@[k]@),
            decreases themes@.len() - i,
        {
            let t = &themes[i];
            let ui_theme = if t.is_dark_theme() {
                owned("vs-dark")
            } else {
                owned("vs")
            };
            theme_pointers.push(
                ThemePointer {
                    label: replace_str(t.filename.as_str(), ".json", ""),
                    ui_theme,
                    path: t.filename.clone(),
                },
            );
            i += 1;
        }
        let contributes = Contributions { themes: theme_pointers, icon_themes: Vec::new() };
        let metadata = VsCodePackageJson {
            name: slugify(name.as_str()),
            display_name: name.clone(),
            description: owned("constructed extension"),
            publisher: owned("n/a"),
            contributes,
            repository: Repository { url: owned("n/a") },
        };
        VsCodeExtension { directory, name, themes, manifest: metadata, icon_themes: Vec::new() }
    }

    /// The extension described by a manifest found at `found`, with the
    /// themes and icon themes that could be read from the files it lists;
    /// it is named by the manifest's display name.
    pub fn from_metadata(
        found: String,
        metadata: VsCodePackageJson,
        themes: Vec<VsCodeTheme>,
        icon_themes: Vec<VsCodeIconTheme>,
    ) -> (r: Result<Box<VsCodeExtension>, ThemeError>)
        ensures
            r matches Ok(e) && e.name@ == metadata.display_name@ && e.directory@ == found@ && e.themes@ == themes@
                && e.icon_themes@ == icon_themes@ && e.manifest == metadata,
    {
        let extension = VsCodeExtension {
            name: metadata.display_name.clone(),
            directory: found,
            themes,
            icon_themes,
            manifest: metadata,
        };
        Ok(Box::new(extension))
    }

    /// The extension made from a Zed theme family: each of its themes
    /// converted, in a directory named by the slug of the family's name.
    pub fn from_zed_family(family: &ZedThemeFamily) -> (r: Self)
        ensures
            r.name@ == family.name@,
            r.directory@ == official_path(slug_of(family.name@), ".vscode/extensions"@),
            r.themes@.len() == family.themes@.len(),
            forall|i: int|
                0 <= i < r.themes@.len() ==> #[trigger] r.themes@[i]@ == crate::convert::zed_to_code::vscode_theme_of(
                    family.themes@[i],
                ),
    {
        let themes = VsCodeTheme::from_zed_family(family);
        let theme_filename = slugify(family.name.as_str());
        VsCodeExtension::new(family.name.as_str(), theme_filename.as_str(), themes)
    }

    /// The human name of this extension.
    pub fn name(&self) -> (r: &str)
        ensures
            r@ == self.name@,
    {
        self.name.as_str()
    }

    /// Where this extension is stored, or should be stored.
    pub fn official_path(&self) -> (r: &str)
        ensures
            r@ == self.directory@,
    {
        self.directory.as_str()
    }

    /// The extension's manifest.
    pub fn manifest(&self) -> (r: &VsCodePackageJson)
        ensures
            r == &self.manifest,
    {
        &self.manifest
    }

    /// The extension's color themes.
    pub fn themes(&self) -> (r: &[VsCodeTheme])
        ensures
            r@ == self.themes@,
    {
        self.themes.as_slice()
    }

    /// The extension's icon themes.
    pub fn icon_themes(&self) -> (r: &[VsCodeIconTheme])
        ensures
            r@ == self.icon_themes@,
    {
        self.icon_themes.as_slice()
    }
}

/// The parts joined with the separator between each two.
pub open spec fn joined(parts: Seq<Seq<char>>, sep: Seq<char>) -> Seq<char>
    decreases parts.len(),
{
    if parts.len() == 0 {
        Seq::empty()
    } else if parts.len() == 1 {
        parts[0]
    } else {
        joined(parts.drop_last(), sep) + sep + parts.last()
    }
}

/// The VSCode UI theme of a Zed appearance.
pub open spec fn ui_theme_of(a: Appearance) -> Seq<char> {
    match a {
        Appearance::Light => "vs"@,
        Appearance::Dark => "vs-dark"@,
    }
}

/// The manifest entry of a converted Zed theme.
pub open spec fn zed_theme_pointer(t: ZedTheme) -> ThemePointerView {
    ThemePointerView {
        label: t.name@,
        ui_theme: ui_theme_of(t.appearance),
        path: "./themes/"@ + slug_of(t.name@) + ".json"@,
    }
}

/// The manifest entry of a converted Zed icon theme.
pub open spec fn zed_icon_theme_pointer(t: ZedIconTheme) -> IconThemePointerView {
    IconThemePointerView {
        id: slug_of(t.name@),
        label: t.name@,
        path: "./icon_themes/"@ + slug_of(t.name@) + ".json"@,
    }
}

/// The parts joined with `sep` between each two.
fn join(parts: &[String], sep: &str) -> (r: String)
    ensures
        r@ == joined(parts.deep_view(), sep@),
{
    let mut r = String::new();
    let mut i: usize = 0;
    let ghost ps = parts.deep_view();
    assert(ps.subrange(0, 0) =~= Seq::<Seq<char>>::empty());
    while i < parts.len()
        invariant
            ps == parts.deep_view(),
            i <= ps.len(),
            r@ == joined(ps.subrange(0, i as int), sep@),
        decreases ps.len() - i,
    {
        assert(ps.subrange(0, i + 1).drop_last() =~= ps.subrange(0, i as int));
        if i > 0 {
            r.append(sep);
        } else {
            assert(r@ =~= Seq::<char>::empty());
            assert(ps.subrange(0, 1) =~= seq![ps[0]]);
        }
        r.append(parts[i].as_str());
        i += 1;
    }
    assert(ps.subrange(0, ps.len() as int) =~= ps);
    r
}

impl VsCodeExtension {
    /// Converts a Zed extension: every theme of its families converted, in
    /// order; every icon theme converted; a manifest naming the Zed
    /// manifest's authors as the publisher and listing each theme and icon
    /// theme; in the directory named by the extension's id below
    /// `extensions_path`.
    pub fn from_zed_extension(input: &ZedExtension, extensions_path: &str) -> (r: Self)
        ensures
            r.name@ == input.name@,
            r.directory@ == official_path(input.metadata.id@, extensions_path@),
            r.themes@.len() == themes_in(input.families@).len(),
            forall|i: int|
                0 <= i < r.themes@.len() ==> (#[trigger] r.themes@[i])@ == vscode_theme_of(themes_in(input.families@)[i]),
            r.icon_themes@.len() == input.icon_themes@.len(),
            forall|i: int|
                0 <= i < r.icon_themes@.len() ==> (#[trigger] r.icon_themes@[i])@ == vscode_icon_theme_of(
                    input.icon_themes@[i],
                    match r.icon_themes@[i].icon_definitions {
                        Some(m) => default_file_key(m.keys()),
                        None => None,
                    },
                ),
            r.manifest.name@ == input.name@,
            r.manifest.display_name@ == input.metadata.name@,
            r.manifest.description@ == input.metadata.description@,
            r.manifest.publisher@ == joined(input.metadata.authors.deep_view(), ", "@),
            r.manifest.repository.url@ == input.metadata.repository@,
            r.manifest.contributes.themes@.len() == input.all_themes@.len(),
            forall|i: int|
                0 <= i < input.all_themes@.len() ==> (#[trigger] r.manifest.contributes.themes@[i])@
                    == zed_theme_pointer(input.all_themes@[i]),
            r.manifest.contributes.icon_themes@.len() == input.icon_themes@.len(),
            forall|i: int|
                0 <= i < input.icon_themes@.len() ==> (#[trigger] r.manifest.contributes.icon_themes@[i])@
                    == zed_icon_theme_pointer(input.icon_themes@[i]),
    {
        let name = input.name.clone();
        let display_name = input.metadata.name.clone();
        let description = input.metadata.description.clone();
        let publisher = join(input.metadata.authors.as_slice(), ", ");
        let repository = input.metadata.repository.clone();
        let directory = VsCodeExtension::build_official_path(input.metadata.id.as_str(), extensions_path);
        let mut theme_pointers: Vec<ThemePointer> = Vec::new();
        let mut i: usize = 0;
        while i < input.all_themes.len()
            invariant
                i <= input.all_themes@.len(),
                theme_pointers@.len() == i,
                forall|k: int|
                    0 <= k < i ==> (#[trigger] theme_pointers@[k])@ == zed_theme_pointer(input.all_themes@[k]),
            decreases input.all_themes@.len() - i,
        {
            let theme = &input.all_themes[i];
            let ui_theme = match theme.appearance {
                Appearance::Light => owned("vs"),
                Appearance::Dark => owned("vs-dark"),
            };
            let slugged = slugify(theme.name.as_str());
            let mut path = owned("./themes/");
            path.append(slugged.as_str());
            path.append(".json");
            theme_pointers.push(ThemePointer { label: theme.name.clone(), ui_theme, path });
            i += 1;
        }
        let mut icon_themes: Vec<VsCodeIconTheme> = Vec::new();
        let mut icon_theme_pointers: Vec<IconThemePointer> = Vec::new();
        let mut i: usize = 0;
        while i < input.icon_themes.len()
            invariant
                i <= input.icon_themes@.len(),
                icon_themes@.len() == i,
                icon_theme_pointers@.len() == i,
                forall|k: int|
                    0 <= k < i ==> (#[trigger] icon_themes@[k])@ == vscode_icon_theme_of(
                        input.icon_themes@[k],
                        match icon_themes@[k].icon_definitions {
                            Some(m) => default_file_key(m.keys()),
                            None => None,
                        },
                    ),
                forall|k: int|
                    0 <= k < i ==> (#[trigger] icon_theme_pointers@[k])@ == zed_icon_theme_pointer(input.icon_themes@[k]),
            decreases input.icon_themes@.len() - i,
        {
            let xs = &input.icon_themes[i];
            let slugged = slugify(xs.name.as_str());
            let mut path = owned("./icon_themes/");
            path.append(slugged.as_str());
            path.append(".json");
            let pointer = IconThemePointer { id: slugify(xs.name.as_str()), label: xs.name.clone(), path };
            icon_themes.push(VsCodeIconTheme::from_zed(xs));
            icon_theme_pointers.push(pointer);
            i += 1;
        }
        let mut themes: Vec<VsCodeTheme> = Vec::new();
        let mut f: usize = 0;
        assert(input.families@.subrange(0, 0) =~= Seq::<ZedThemeFamily>::empty());
        while f < input.families.len()
            invariant
                f <= input.families@.len(),
                themes@.len() == themes_in(input.families@.subrange(0, f as int)).len(),
                forall|k: int|
                    0 <= k < themes@.len() ==> (#[trigger] themes@[k])@ == vscode_theme_of(
                        themes_in(input.families@.subrange(0, f as int))[k],
                    ),
            decreases input.families@.len() - f,
        {
            let ghost before = themes_in(input.families@.subrange(0, f as int));
            assert(input.families@.subrange(0, f + 1).drop_last() =~= input.families@.subrange(0, f as int));
            let converted = VsCodeTheme::from_zed_family(&input.families[f]);
            let ghost fam_themes = input.families@[f as int].themes@;
            let ghost start_len = themes@.len();
            let mut rest = converted;
            let n = rest.len();
            let mut j: usize = 0;
            let ghost conv = rest@;
            while j < n
                invariant
                    j <= n,
                    n == conv.len(),
                    n == fam_themes.len(),
                    rest@ == conv.subrange(j as int, n as int),
                    forall|k: int| 0 <= k < n ==> (#[trigger] conv[k])@ == vscode_theme_of(fam_themes[k]),
                    start_len == before.len(),
                    themes@.len() == start_len + j,
                    forall|k: int| 0 <= k < start_len ==> (#[trigger] themes@[k])@ == vscode_theme_of(before[k]),
                    forall|k: int|
                        start_len <= k < themes@.len() ==> (#[trigger] themes@[k])@ == vscode_theme_of(
                            fam_themes[k - start_len],
                        ),
                decreases n - j,
            {
                let ghost raw = rest@;
                let t = rest.remove(0);
                assert(rest@ =~= conv.subrange(j + 1, n as int));
                assert(t == conv[j as int]);
                themes.push(t);
                j += 1;
            }
            proof {
                let now = themes_in(input.families@.subrange(0, f + 1));
                assert(now =~= before + fam_themes);
                assert forall|k: int| 0 <= k < themes@.len() implies (#[trigger] themes@[k])@ == vscode_theme_of(
                    now[k],
                ) by {
                    if k < start_len {
                        assert(now[k] == before[k]);
                    } else {
                        assert(now[k] == fam_themes[k - start_len]);
                    }
                }
            }
            f += 1;
        }
        assert(input.families@.subrange(0, f as int) =~= input.families@);
        let metadata = VsCodePackageJson {
            name: name.clone(),
            display_name,
            description,
            publisher,
            contributes: Contributions { icon_themes: icon_theme_pointers, themes: theme_pointers },
            repository: Repository { url: repository },
        };
        VsCodeExtension { directory, name, themes, icon_themes, manifest: metadata }
    }
}

impl Keyed for VsCodeTheme {
    open spec fn sort_key(&self) -> Seq<char> {
        self.name@
    }

    fn key(&self) -> (r: &str) {
        self.name.as_str()
    }
}

impl Keyed for ThemePointer {
    open spec fn sort_key(&self) -> Seq<char> {
        self.label@
    }

    fn key(&self) -> (r: &str) {
        self.label.as_str()
    }
}

/// A file among loose theme files that belongs to the theme `barename`:
/// a `.json` file whose path holds the name and is no icon theme.
pub open spec fn is_loose_theme_path(path: Seq<char>, barename: Seq<char>) -> bool {
    has_suffix(path, ".json"@) && contains(path, barename) && !contains(path, "icon-theme"@)
}

/// The manifest entry of a theme found among loose theme files.
pub open spec fn loose_pointer(t: VsCodeThemeView) -> ThemePointerView {
    ThemePointerView {
        label: slug_of(t.name),
        ui_theme: if t.theme_type == Some("dark"@) {
            "vs-dark"@
        } else {
            "vs"@
        },
        path: "./themes/"@ + t.filename,
    }
}

/// The names of the themes, in order.
pub open spec fn names_of(themes: Seq<VsCodeTheme>) -> Seq<Seq<char>> {
    themes.map_values(|t: VsCodeTheme| t.name@)
}

impl VsCodeExtension {
    /// Is the file at `path` one of the loose theme files of the theme
    /// `barename`?
    pub fn is_loose_theme_file(path: &str, barename: &str) -> (r: bool)
        ensures
            r == is_loose_theme_path(path@, barename@),
    {
        let p = crate::text::chars_of(path);
        let suffix = crate::text::chars_of(".json");
        crate::text::has_suffix_exec(p.as_slice(), suffix.as_slice()) && str_contains(path, barename)
            && !str_contains(path, "icon-theme")
    }

    /// The extension made from loose theme files in `directory` (no
    /// manifest there): named `barename`, with the themes sorted by name,
    /// shown under the extension name of the theme names (else the first
    /// name), and a manifest that lists each theme (sorted by label). With
    /// no themes there is nothing to make.
    pub fn from_loose_themes(directory: String, barename: &str, themes: Vec<VsCodeTheme>) -> (r: Result<
        Box<VsCodeExtension>,
        ThemeError,
    >)
        ensures
            r is Err <==> themes@.len() == 0,
            r matches Err(e) ==> (e matches ThemeError::NoThemesFound(p) && p@ == directory@),
            r matches Ok(e) ==> {
                &&& e.name@ == barename@
                &&& e.directory@ == directory@
                &&& e.icon_themes@.len() == 0
                &&& e.themes@.to_multiset() == themes@.to_multiset()
                &&& sorted_by_key(e.themes@)
                &&& forall|k: Seq<char>| #[trigger] with_key(e.themes@, k) == with_key(themes@, k)
                &&& e.manifest.name@ == barename@
                &&& e.manifest.display_name@ == match extension_name(names_of(e.themes@)) {
                    Some(n) => n,
                    None => e.themes@[0].name@,
                }
                &&& e.manifest.description@ == "Constructed from a directory full of theme files."@
                &&& e.manifest.publisher@ == "none"@
                &&& e.manifest.repository.url@ == Seq::<char>::empty()
                &&& e.manifest.contributes.icon_themes@.len() == 0
                &&& e.manifest.contributes.themes@.map_values(|p: ThemePointer| p@).to_multiset()
                    == e.themes@.map_values(|t: VsCodeTheme| loose_pointer(t@)).to_multiset()
                &&& sorted_by_key(e.manifest.contributes.themes@)
                &&& forall|k: Seq<char>| (#[trigger] with_key(e.manifest.contributes.themes@, k)).map_values(|p: ThemePointer| p@)
                    == e.themes@.map_values(|t: VsCodeTheme| loose_pointer(t@)).filter(|pv: ThemePointerView| pv.label == k)
            },
    {
        if themes.len() == 0 {
            return Err(ThemeError::NoThemesFound(directory));
        }
        let ghost given = themes@;
        let themes = sort_by_key(themes);
        proof {
            vstd::seq_lib::to_multiset_len(themes@);
            vstd::seq_lib::to_multiset_len(given);
        }
        let mut names: Vec<String> = Vec::new();
        let mut pointers: Vec<ThemePointer> = Vec::new();
        let mut i: usize = 0;
        while i < themes.len()
            invariant
                i <= themes@.len(),
                names@.len() == i,
                pointers@.len() == i,
                forall|k: int| 0 <= k < i ==> #[trigger] names@[k]@ == themes@[k].name@,
                forall|k: int| 0 <= k < i ==> #[trigger] pointers@[k]@ == loose_pointer(themes@[k]@),
            decreases themes@.len() - i,
        {
            let t = &themes[i];
            names.push(t.name.clone());
            let ui_theme = if t.is_dark_theme() {
                owned("vs-dark")
            } else {
                owned("vs")
            };
            let mut path = owned("./themes/");
            path.append(t.filename.as_str());
            pointers.push(ThemePointer { label: slugify(t.name.as_str()), ui_theme, path });
            i += 1;
        }
        assert(names.deep_view() =~= names_of(themes@));
        let display_name = match find_extension_name(names.as_slice()) {
            Some(n) => n,
            None => names[0].clone(),
        };
        let ghost unsorted = pointers@;
        assert(unsorted.map_values(|p: ThemePointer| p@) =~= themes@.map_values(|t: VsCodeTheme| loose_pointer(t@)));
        let pointers = sort_by_key(pointers);
        proof {
            lemma_map_values_permutation(pointers@, unsorted, |p: ThemePointer| p@);
            assert forall|k: Seq<char>| (#[trigger] with_key(pointers@, k)).map_values(|p: ThemePointer| p@)
                == themes@.map_values(|t: VsCodeTheme| loose_pointer(t@)).filter(|pv: ThemePointerView| pv.label == k) by {
                vstd::seq_lib::lemma_filter_view_commute(
                    unsorted,
                    |x: ThemePointer| x.sort_key() == k,
                    |pv: ThemePointerView| pv.label == k,
                );
                assert(with_key(pointers@, k) == with_key(unsorted, k));
            }
        }
        let metadata = VsCodePackageJson {
            name: owned(barename),
            display_name,
            description: owned("Constructed from a directory full of theme files."),
            publisher: owned("none"),
            contributes: Contributions { themes: pointers, icon_themes: Vec::new() },
            repository: Repository { url: String::new() },
        };
        Ok(
            Box::new(
                VsCodeExtension {
                    name: owned(barename),
                    directory,
                    icon_themes: Vec::new(),
                    themes,
                    manifest: metadata,
                },
            ),
        )
    }
}

/// The name a theme file is looked for under: without `.json`.
pub open spec fn bare_name(name: Seq<char>) -> Seq<char> {
    replace_all(name, ".json"@, ""@)
}

impl VsCodeExtension {
    /// `name` without `.json`.
    pub fn bare_name(name: &str) -> (r: String)
        ensures
            r@ == bare_name(name@),
    {
        proof {
            reveal_strlit(".json");
        }
        replace_str(name, ".json", "")
    }

    /// The glob that finds the theme files named like `name` in the
    /// `themes` directories below `extdir`.
    pub fn theme_file_glob(name: &str, extdir: &str) -> (r: String)
        ensures
            r@ == extdir@ + "/**/themes/"@ + bare_name(name@) + "*.json"@,
    {
        let bare = VsCodeExtension::bare_name(name);
        let mut r = owned(extdir);
        r.append("/**/themes/");
        r.append(bare.as_str());
        r.append("*.json");
        r
    }

    /// The glob that finds the manifests of the extensions below `extdir`
    /// whose directory names hold `name` (without `.json`).
    pub fn manifest_glob(name: &str, extdir: &str) -> (r: String)
        ensures
            r@ == extdir@ + "/*"@ + bare_name(name@) + "*/package.json"@,
    {
        let bare = VsCodeExtension::bare_name(name);
        let mut r = owned(extdir);
        r.append("/*");
        r.append(bare.as_str());
        r.append("*/package.json");
        r
    }

    /// The file a theme is written to: the slug of its name, then `.json`.
    pub fn theme_file_name(name: &str) -> (r: String)
        ensures
            r@ == slug_of(name@) + ".json"@,
    {
        let mut r = slugify(name);
        r.append(".json");
        r
    }

    /// The name the `i`-th icon theme is written under: its label in the
    /// manifest, else "Icon Theme".
    pub fn icon_theme_label_at(&self, i: usize) -> (r: &str)
        ensures
            r@ == if i < self.manifest.contributes.icon_themes@.len() {
                self.manifest.contributes.icon_themes@[i as int].label@
            } else {
                "Icon Theme"@
            },
    {
        if i < self.manifest.contributes.icon_themes.len() {
            self.manifest.contributes.icon_themes[i].label.as_str()
        } else {
            "Icon Theme"
        }
    }

    /// Does the manifest list any theme or icon theme?
    pub fn lists_themes(&self) -> (r: bool)
        ensures
            r == (self.manifest.contributes.themes@.len() > 0 || self.manifest.contributes.icon_themes@.len() > 0),
    {
        self.manifest.contributes.themes.len() > 0 || self.manifest.contributes.icon_themes.len() > 0
    }
}

} // verus!
