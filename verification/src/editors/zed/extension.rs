//! Zed theme extensions: their manifest, theme families and icon themes.

use vstd::prelude::*;

use super::icon_theme::{ZedIconTheme, ZedIconThemeFamily, ZedIconThemeView};
use super::manifest::{plain_manifest, ZedManifest};
use super::theme::{ZedTheme, ZedThemeFamily};
use crate::convert::code_to_zed::{appearance_of, zed_style_from_vscode};
use crate::convert::icons::zed_icon_theme_of;
use crate::editors::vscode::extension::VsCodeExtension;
use crate::editors::vscode::theme::{VsCodeTheme, VsCodeThemeView};
use crate::errors::ThemeError;
use crate::grouping::{group_families, grouped};
use crate::slugs::{slug_of, slugify};
use crate::paths::{after_last, file_name, plain_final};
use crate::text::{contains, has_prefix, owned, replace_all, replace_str, str_contains, str_eq};

verus! {

/// Our representation of a Zed theme extension.
#[derive(Debug)]
pub struct ZedExtension {
    /// Where this extension resides on disk.
    pub directory: String,
    /// Source directory for copying assets (e.g., icon files) during conversion
    pub source_directory: Option<String>,
    /// A portion of the toml extension manifest.
    pub metadata: ZedManifest,
    /// The human name of the extension.
    pub name: String,
    /// All the theme families this extension provides.
    pub families: Vec<ZedThemeFamily>,
    /// All the icon themes this extension provides.
    pub icon_themes: Vec<ZedIconTheme>,
    /// All themes flat-mapped
    pub all_themes: Vec<ZedTheme>,
}

/// `z` is the Zed theme made from the VSCode theme `v`.
pub open spec fn zed_theme_from(z: ZedTheme, v: VsCodeThemeView) -> bool {
    &&& z.name@ == v.name
    &&& z.appearance == appearance_of(v)
    &&& z.style@ == zed_style_from_vscode(v)
}

/// The file name of a theme family or icon theme in a Zed extension: the
/// slug of its name without `.json`, then `.json`.
pub open spec fn normalized_name(input: Seq<char>) -> Seq<char> {
    slug_of(replace_all(input, ".json"@, ""@)) + ".json"@
}

/// The names of the themes, in order.
pub open spec fn theme_names(themes: Seq<VsCodeTheme>) -> Seq<Seq<char>> {
    Seq::new(themes.len(), |i: int| themes[i].name@)
}

/// The index of the last theme named `name` among the first `n` themes.
pub open spec fn last_named(themes: Seq<VsCodeTheme>, name: Seq<char>, n: int) -> Option<int>
    decreases n,
{
    if n <= 0 {
        None
    } else if themes[n - 1].name@ == name {
        Some(n - 1)
    } else {
        last_named(themes, name, n - 1)
    }
}

/// The themes a group of names takes, in order: for each name not taken
/// yet, the last theme with that name; and the names taken afterwards.
pub open spec fn take_themes(themes: Seq<VsCodeTheme>, names: Seq<Seq<char>>, taken: Seq<Seq<char>>) -> (
    Seq<int>,
    Seq<Seq<char>>,
)
    decreases names.len(),
{
    if names.len() == 0 {
        (Seq::empty(), taken)
    } else {
        let prev = take_themes(themes, names.drop_last(), taken);
        let name = names.last();
        if prev.1.contains(name) {
            prev
        } else {
            match last_named(themes, name, themes.len() as int) {
                Some(i) => (prev.0.push(i), prev.1.push(name)),
                None => prev,
            }
        }
    }
}

/// The families made from the groups, in order: each group that takes at
/// least one theme becomes a family named by the group's name, or else by
/// its first theme; with the themes (by index) it takes.
pub open spec fn families_from(
    themes: Seq<VsCodeTheme>,
    groups: Seq<(Option<Seq<char>>, Seq<Seq<char>>)>,
) -> (Seq<(Seq<char>, Seq<int>)>, Seq<Seq<char>>)
    decreases groups.len(),
{
    if groups.len() == 0 {
        (Seq::empty(), Seq::empty())
    } else {
        let prev = families_from(themes, groups.drop_last());
        let g = groups.last();
        let t = take_themes(themes, g.1, prev.1);
        if t.0.len() == 0 {
            (prev.0, t.1)
        } else {
            let name = match g.0 {
                Some(n) => n,
                None => themes[t.0[0]].name@,
            };
            (prev.0.push((name, t.0)), t.1)
        }
    }
}

/// `f` is the family named `name`, by `author`, of the Zed themes made from
/// the themes at `idxs`.
pub open spec fn family_of(f: ZedThemeFamily, themes: Seq<VsCodeTheme>, author: Seq<char>, name: Seq<char>, idxs: Seq<int>) -> bool {
    &&& f.schema is None
    &&& f.author@ == author
    &&& f.name@ == name
    &&& f.themes@.len() == idxs.len()
    &&& forall|j: int|
        0 <= j < idxs.len() ==> 0 <= #[trigger] idxs[j] < themes.len() && zed_theme_from(
            f.themes@[j],
            themes[idxs[j]]@,
        )
}

/// The families are those made, by `author`, from a grouping of the
/// themes' names.
pub open spec fn families_grouped_from(families: Seq<ZedThemeFamily>, themes: Seq<VsCodeTheme>, author: Seq<char>) -> bool {
    exists|g: Seq<(Option<Seq<char>>, Seq<Seq<char>>)>|
        #[trigger] grouped(theme_names(themes), g) && families.len() == families_from(themes, g).0.len() && forall|k: int|
            0 <= k < families.len() ==> family_of(
                #[trigger] families[k],
                themes,
                author,
                families_from(themes, g).0[k].0,
                families_from(themes, g).0[k].1,
            )
}

/// The path of a theme family file in a Zed extension's manifest.
pub open spec fn family_pointer(name: Seq<char>) -> Seq<char> {
    "./themes/"@ + normalized_name(name)
}

/// The path of an icon theme file in a Zed extension's manifest.
pub open spec fn icon_theme_pointer(name: Seq<char>) -> Seq<char> {
    "./icon_themes/"@ + normalized_name(name)
}

/// The name of the `i`-th icon theme of a VSCode extension: its label in
/// the manifest, else "Converted Icon Theme".
pub open spec fn icon_theme_label(e: VsCodeExtension, i: int) -> Seq<char> {
    if i < e.manifest.contributes.icon_themes@.len() {
        e.manifest.contributes.icon_themes@[i].label@
    } else {
        "Converted Icon Theme"@
    }
}

/// Copies of the themes of the families, family after family.
fn themes_of_families(families: &Vec<ZedThemeFamily>) -> (all_themes: Vec<ZedTheme>)
    ensures
        all_themes@.len() == themes_in(families@).len(),
        forall|j: int| 0 <= j < all_themes@.len() ==> same_theme(#[trigger] all_themes@[j], themes_in(families@)[j]),
{
    let mut all_themes: Vec<ZedTheme> = Vec::new();
    let mut i: usize = 0;
    assert(families@.subrange(0, 0) =~= Seq::<ZedThemeFamily>::empty());
    while i < families.len()
        invariant
            i <= families@.len(),
            all_themes@.len() == themes_in(families@.subrange(0, i as int)).len(),
            forall|j: int|
                0 <= j < all_themes@.len() ==> same_theme(
                    #[trigger] all_themes@[j],
                    themes_in(families@.subrange(0, i as int))[j],
                ),
        decreases families@.len() - i,
    {
        let ghost before = themes_in(families@.subrange(0, i as int));
        assert(families@.subrange(0, i + 1).drop_last() =~= families@.subrange(0, i as int));
        let fam = &families[i];
        let mut j: usize = 0;
        let ghost start_len = all_themes@.len();
        while j < fam.themes.len()
            invariant
                j <= fam.themes@.len(),
                start_len == before.len(),
                all_themes@.len() == start_len + j,
                forall|k: int| 0 <= k < start_len ==> same_theme(#[trigger] all_themes@[k], before[k]),
                forall|k: int|
                    start_len <= k < all_themes@.len() ==> same_theme(
                        #[trigger] all_themes@[k],
                        fam.themes@[k - start_len],
                    ),
            decreases fam.themes@.len() - j,
        {
            all_themes.push(fam.themes[j].clone());
            j += 1;
        }
        proof {
            let now = themes_in(families@.subrange(0, i + 1));
            assert(now =~= before + fam.themes@);
            assert forall|k: int| 0 <= k < all_themes@.len() implies same_theme(#[trigger] all_themes@[k], now[k]) by {
                if k < start_len {
                    assert(now[k] == before[k]);
                } else {
                    assert(now[k] == fam.themes@[k - start_len]);
                }
            }
        }
        i += 1;
    }
    assert(families@.subrange(0, i as int) =~= families@);
    all_themes
}

impl ZedExtension {
    /// The file name of a theme family or icon theme in an extension.
    pub fn normalize_name(input: &str) -> (r: String)
        ensures
            r@ == normalized_name(input@),
    {
        proof {
            reveal_strlit(".json");
        }
        let bare = replace_str(input, ".json", "");
        let mut r = slugify(bare.as_str());
        r.append(".json");
        r
    }

    /// The glob that finds the manifests of extensions whose directory
    /// names hold the slug of `pattern`.
    pub fn make_manifest_glob(pattern: &str) -> (r: String)
        ensures
            r@ == "**/*"@ + slug_of(pattern@) + "*/extension.toml"@,
    {
        let safer = slugify(pattern);
        let mut r = owned("**/*");
        r.append(safer.as_str());
        r.append("*/extension.toml");
        r
    }

    /// The glob that finds theme files whose names hold the slug of
    /// `pattern`.
    pub fn make_themefile_glob(pattern: &str) -> (r: String)
        ensures
            r@ == "**/*"@ + slug_of(pattern@) + "*.json"@,
    {
        let safer = slugify(pattern);
        let mut r = owned("**/*");
        r.append(safer.as_str());
        r.append("*.json");
        r
    }

    /// The directory of an extension named `name` below `extdir`.
    pub fn build_official_path(name: &str, extdir: &str) -> (r: String)
        ensures
            r@ == extdir@ + "/"@ + name@,
    {
        let mut r = owned(extdir);
        r.append("/");
        r.append(name);
        r
    }

    /// All theme families
    pub fn families(&self) -> (r: &[ZedThemeFamily])
        ensures
            r@ == self.families@,
    {
        self.families.as_slice()
    }

    /// All icon themes
    pub fn icon_themes(&self) -> (r: &[ZedIconTheme])
        ensures
            r@ == self.icon_themes@,
    {
        self.icon_themes.as_slice()
    }

    /// All themes, family after family.
    pub fn themes(&self) -> (r: &[ZedTheme])
        ensures
            r@ == self.all_themes@,
    {
        self.all_themes.as_slice()
    }

    /// The human name of this extension.
    pub fn name(&self) -> (r: &str)
        ensures
            r@ == self.name@,
    {
        self.name.as_str()
    }

    /// Where this extension should live, or was read from.
    pub fn official_path(&self) -> (r: &str)
        ensures
            r@ == self.directory@,
    {
        self.directory.as_str()
    }

    /// The extension's manifest.
    pub fn manifest(&self) -> (r: &ZedManifest)
        ensures
            r == &self.metadata,
    {
        &self.metadata
    }

    /// The extension described by a manifest, in `directory`, with the
    /// theme families and icon themes read from the files it lists; it is
    /// named by the manifest and lists the themes of its families in order.
    pub fn from_metadata(
        directory: String,
        metadata: ZedManifest,
        families: Vec<ZedThemeFamily>,
        icon_themes: Vec<ZedIconTheme>,
    ) -> (r: Result<Box<ZedExtension>, ThemeError>)
        ensures
            r matches Ok(e) && e.name@ == metadata.name@ && e.directory@ == directory@ && e.source_directory
                is None && e.metadata == metadata && e.families@ == families@ && e.icon_themes@ == icon_themes@
                && e.all_themes@.len() == themes_in(families@).len() && forall|j: int|
                0 <= j < e.all_themes@.len() ==> same_theme(#[trigger] e.all_themes@[j], themes_in(families@)[j]),
    {
        let all_themes = themes_of_families(&families);
        let extension = ZedExtension {
            name: metadata.name.clone(),
            directory,
            source_directory: None,
            metadata,
            families,
            icon_themes,
            all_themes,
        };
        Ok(Box::new(extension))
    }
}

/// Two Zed themes with the same name, appearance and style.
pub open spec fn same_theme(a: ZedTheme, b: ZedTheme) -> bool {
    &&& a.name@ == b.name@
    &&& a.appearance == b.appearance
    &&& a.style@ == b.style@
}

/// The themes of the families, family after family.
pub open spec fn themes_in(families: Seq<ZedThemeFamily>) -> Seq<ZedTheme>
    decreases families.len(),
{
    if families.len() == 0 {
        Seq::empty()
    } else {
        themes_in(families.drop_last()) + families.last().themes@
    }
}

/// Is `name` among the names?
fn has_name(names: &Vec<String>, name: &str) -> (r: bool)
    ensures
        r == names.deep_view().contains(name@),
{
    let mut i: usize = 0;
    while i < names.len()
        invariant
            i <= names@.len(),
            forall|k: int| 0 <= k < i ==> names.deep_view()[k] != name@,
        decreases names@.len() - i,
    {
        if str_eq(names[i].as_str(), name) {
            assert(names.deep_view()[i as int] == name@);
            return true;
        }
        i += 1;
    }
    false
}

/// The index of the last theme named `name`.
fn find_last_named(themes: &[VsCodeTheme], name: &str) -> (r: Option<usize>)
    ensures
        r matches Some(i) ==> last_named(themes@, name@, themes@.len() as int) == Some(i as int) && i
            < themes@.len() && themes@[i as int].name@ == name@,
        r is None ==> last_named(themes@, name@, themes@.len() as int) is None,
{
    let mut n: usize = themes.len();
    while n > 0
        invariant
            n <= themes@.len(),
            last_named(themes@, name@, themes@.len() as int) == last_named(themes@, name@, n as int),
        decreases n,
    {
        if str_eq(themes[n - 1].name.as_str(), name) {
            return Some(n - 1);
        }
        n -= 1;
    }
    None
}

/// The families made from the groups of theme names, converting the themes
/// each group takes.
fn families_from_groups(
    themes: &[VsCodeTheme],
    groups: &Vec<(Option<String>, Vec<String>)>,
    author: &str,
) -> (r: Vec<ZedThemeFamily>)
    ensures
        r@.len() == families_from(themes@, groups.deep_view()).0.len(),
        forall|k: int|
            0 <= k < r@.len() ==> family_of(
                #[trigger] r@[k],
                themes@,
                author@,
                families_from(themes@, groups.deep_view()).0[k].0,
                families_from(themes@, groups.deep_view()).0[k].1,
            ),
{
    let ghost gs = groups.deep_view();
    let mut families: Vec<ZedThemeFamily> = Vec::new();
    let mut taken: Vec<String> = Vec::new();
    let mut g: usize = 0;
    assert(gs.subrange(0, 0) =~= Seq::<(Option<Seq<char>>, Seq<Seq<char>>)>::empty());
    assert(taken.deep_view() =~= Seq::<Seq<char>>::empty());
    while g < groups.len()
        invariant
            gs == groups.deep_view(),
            g <= gs.len(),
            taken.deep_view() == families_from(themes@, gs.subrange(0, g as int)).1,
            families@.len() == families_from(themes@, gs.subrange(0, g as int)).0.len(),
            forall|k: int|
                0 <= k < families@.len() ==> family_of(
                    #[trigger] families@[k],
                    themes@,
                    author@,
                    families_from(themes@, gs.subrange(0, g as int)).0[k].0,
                    families_from(themes@, gs.subrange(0, g as int)).0[k].1,
                ),
        decreases gs.len() - g,
    {
        let ghost prev = families_from(themes@, gs.subrange(0, g as int));
        assert(gs.subrange(0, g + 1).drop_last() =~= gs.subrange(0, g as int));
        let (maybe_name, names) = &groups[g];
        let ghost nv = names.deep_view();
        assert(nv == gs[g as int].1);
        let mut fam_themes: Vec<ZedTheme> = Vec::new();
        let mut first: Option<usize> = None;
        let mut j: usize = 0;
        assert(nv.subrange(0, 0) =~= Seq::<Seq<char>>::empty());
        assert(take_themes(themes@, nv.subrange(0, 0), prev.1) == (Seq::<int>::empty(), prev.1));
        while j < names.len()
            invariant
                nv == names.deep_view(),
                j <= nv.len(),
                taken.deep_view() == take_themes(themes@, nv.subrange(0, j as int), prev.1).1,
                fam_themes@.len() == take_themes(themes@, nv.subrange(0, j as int), prev.1).0.len(),
                forall|m: int|
                    0 <= m < fam_themes@.len() ==> 0 <= #[trigger] take_themes(themes@, nv.subrange(0, j as int), prev.1).0[m] < themes@.len()
                        && zed_theme_from(
                        fam_themes@[m],
                        themes@[take_themes(themes@, nv.subrange(0, j as int), prev.1).0[m]]@,
                    ),
                first matches Some(f) ==> fam_themes@.len() > 0 && f == take_themes(themes@, nv.subrange(0, j as int), prev.1).0[0] && f < themes@.len(),
                first is None ==> fam_themes@.len() == 0,
            decreases nv.len() - j,
        {
            let ghost before = take_themes(themes@, nv.subrange(0, j as int), prev.1);
            assert(nv.subrange(0, j + 1).drop_last() =~= nv.subrange(0, j as int));
            assert(nv.subrange(0, j + 1).last() == names@[j as int]@);
            let name = names[j].as_str();
            if !has_name(&taken, name) {
                match find_last_named(themes, name) {
                    Some(i) => {
                        fam_themes.push(ZedTheme::from_vscode(&themes[i]));
                        if first.is_none() {
                            first = Some(i);
                        }
                        let ghost tv = taken.deep_view();
                        taken.push(owned(name));
                        assert(taken.deep_view() =~= tv.push(name@));
                    },
                    None => {},
                }
            }
            j += 1;
        }
        assert(nv.subrange(0, nv.len() as int) =~= nv);
        if fam_themes.len() > 0 {
            let fam_name = match maybe_name {
                Some(n) => n.clone(),
                None => {
                    let f = first.unwrap();
                    themes[f].name.clone()
                },
            };
            let fam = ZedThemeFamily { schema: None, author: owned(author), name: fam_name, themes: fam_themes };
            families.push(fam);
        }
        g += 1;
    }
    assert(gs.subrange(0, gs.len() as int) =~= gs);
    families
}

impl ZedExtension {
    /// Converts a VSCode extension: its themes are grouped by name into
    /// families (each theme converted once, under the first group that
    /// names it), its icon themes are converted under their labels, and
    /// the manifest points at the families and icon themes; the extension
    /// goes in the directory named by the slug of its display name below
    /// `extensions_path`.
    pub fn from_vscode_extension(extension: &VsCodeExtension, extensions_path: &str) -> (r: ZedExtension)
        ensures
            r.name@ == extension.manifest.display_name@,
            r.directory@ == extensions_path@ + "/"@ + slug_of(extension.manifest.display_name@),
            r.source_directory.deep_view() == Some(extension.directory@),
            r.all_themes@.len() == extension.themes@.len(),
            forall|i: int|
                0 <= i < r.all_themes@.len() ==> zed_theme_from(#[trigger] r.all_themes@[i], extension.themes@[i]@),
            families_grouped_from(r.families@, extension.themes@, extension.manifest.publisher@),
            r.icon_themes@.len() == extension.icon_themes@.len(),
            forall|i: int|
                0 <= i < r.icon_themes@.len() ==> (#[trigger] r.icon_themes@[i])@ == zed_icon_theme_of(
                    extension.icon_themes@[i],
                    icon_theme_label(*extension, i),
                ),
            plain_manifest(
                r.metadata,
                extension.manifest.name@,
                extension.manifest.display_name@,
                "0.1.0"@,
                extension.manifest.description@,
                extension.manifest.repository.url@,
                seq![extension.manifest.publisher@],
                Seq::new(r.families@.len(), |k: int| family_pointer(r.families@[k].name@)),
                Seq::new(r.icon_themes@.len(), |k: int| icon_theme_pointer(r.icon_themes@[k].name@)),
            ),
    {
        let vs_meta = &extension.manifest;
        let incoming = extension.themes.as_slice();
        let mut all_themes: Vec<ZedTheme> = Vec::new();
        let mut theme_names_vec: Vec<String> = Vec::new();
        let mut i: usize = 0;
        while i < incoming.len()
            invariant
                incoming@ == extension.themes@,
                i <= incoming@.len(),
                all_themes@.len() == i,
                theme_names_vec@.len() == i,
                forall|k: int| 0 <= k < i ==> zed_theme_from(#[trigger] all_themes@[k], incoming@[k]@),
                forall|k: int| 0 <= k < i ==> #[trigger] theme_names_vec@[k]@ == incoming@[k].name@,
            decreases incoming@.len() - i,
        {
            all_themes.push(ZedTheme::from_vscode(&incoming[i]));
            theme_names_vec.push(incoming[i].name.clone());
            i += 1;
        }
        assert(theme_names_vec.deep_view() =~= theme_names(extension.themes@));
        let family_name_pairs = group_families(theme_names_vec);
        let families = families_from_groups(incoming, &family_name_pairs, vs_meta.publisher.as_str());
        let ghost g = family_name_pairs.deep_view();
        assert(grouped(theme_names(extension.themes@), g));
        let mut family_pointers: Vec<String> = Vec::new();
        let mut k: usize = 0;
        while k < families.len()
            invariant
                k <= families@.len(),
                family_pointers@.len() == k,
                forall|m: int| 0 <= m < k ==> #[trigger] family_pointers@[m]@ == family_pointer(families@[m].name@),
            decreases families@.len() - k,
        {
            let mut p = owned("./themes/");
            let n = ZedExtension::normalize_name(families[k].name.as_str());
            p.append(n.as_str());
            family_pointers.push(p);
            k += 1;
        }
        assert(family_pointers.deep_view() =~= Seq::new(families@.len(), |m: int| family_pointer(families@[m].name@)));
        let mut icon_themes: Vec<ZedIconTheme> = Vec::new();
        let mut icon_theme_pointers: Vec<String> = Vec::new();
        let labels = vs_meta.icon_themes();
        let mut i: usize = 0;
        while i < extension.icon_themes.len()
            invariant
                labels@ == extension.manifest.contributes.icon_themes@,
                i <= extension.icon_themes@.len(),
                icon_themes@.len() == i,
                icon_theme_pointers@.len() == i,
                forall|m: int|
                    0 <= m < i ==> (#[trigger] icon_themes@[m])@ == zed_icon_theme_of(
                        extension.icon_themes@[m],
                        icon_theme_label(*extension, m),
                    ),
                forall|m: int| 0 <= m < i ==> #[trigger] icon_theme_pointers@[m]@ == icon_theme_pointer(icon_themes@[m].name@),
            decreases extension.icon_themes@.len() - i,
        {
            let name: &str = if i < labels.len() {
                labels[i].label.as_str()
            } else {
                "Converted Icon Theme"
            };
            let itheme = ZedIconTheme::from_vscode_with_name(&extension.icon_themes[i], name);
            let mut p = owned("./icon_themes/");
            let n = ZedExtension::normalize_name(itheme.name.as_str());
            p.append(n.as_str());
            icon_theme_pointers.push(p);
            icon_themes.push(itheme);
            i += 1;
        }
        assert(icon_theme_pointers.deep_view() =~= Seq::new(
            icon_themes@.len(),
            |m: int| icon_theme_pointer(icon_themes@[m].name@),
        ));
        let authors = vec![vs_meta.publisher.clone()];
        assert(authors.deep_view() =~= seq![vs_meta.publisher@]);
        let metadata = ZedManifest::plain(
            vs_meta.name.clone(),
            vs_meta.display_name.clone(),
            owned("0.1.0"),
            vs_meta.description.clone(),
            vs_meta.repository.url.clone(),
            authors,
            family_pointers,
            icon_theme_pointers,
        );
        let zed_extension_name = slugify(vs_meta.display_name.as_str());
        let zed_directory = ZedExtension::build_official_path(zed_extension_name.as_str(), extensions_path);
        ZedExtension {
            directory: zed_directory,
            source_directory: Some(extension.directory.clone()),
            name: vs_meta.display_name.clone(),
            families,
            metadata,
            icon_themes,
            all_themes,
        }
    }
}

impl ZedExtension {
    /// An extension holding one VSCode theme: a family of the one converted
    /// theme, named after it, in the directory named by its slug below
    /// `extensions_path`.
    pub fn from_vscode_theme(vscode_theme: &VsCodeTheme, extensions_path: &str) -> (r: ZedExtension)
        ensures
            r.name@ == vscode_theme.name@,
            r.directory@ == extensions_path@ + "/"@ + slug_of(vscode_theme.name@),
            r.source_directory is None,
            r.families@.len() == 1,
            r.families@[0].schema.deep_view() == Some("https://zed.dev/schema/themes/v0.2.0.json"@),
            r.families@[0].author@ == "Unknown"@,
            r.families@[0].name@ == vscode_theme.name@,
            r.families@[0].themes@.len() == 1,
            zed_theme_from(r.families@[0].themes@[0], vscode_theme@),
            r.all_themes@.len() == 1,
            zed_theme_from(r.all_themes@[0], vscode_theme@),
            r.icon_themes@.len() == 0,
            plain_manifest(
                r.metadata,
                slug_of(vscode_theme.name@),
                vscode_theme.name@,
                "0.1.0"@,
                "converted from VSCode theme "@ + vscode_theme.name@,
                Seq::empty(),
                Seq::empty(),
                seq!["./themes/"@ + slug_of(vscode_theme.name@) + ".json"@],
                Seq::empty(),
            ),
    {
        let zed = ZedTheme::from_vscode(vscode_theme);
        let zed2 = zed.clone();
        let theme_filename = slugify(vscode_theme.name.as_str());
        let directory = ZedExtension::build_official_path(theme_filename.as_str(), extensions_path);
        let mut pointer = owned("./themes/");
        let slugname = slugify(zed.name.as_str());
        pointer.append(slugname.as_str());
        pointer.append(".json");
        let themes = vec![pointer];
        assert(themes.deep_view() =~= seq!["./themes/"@ + slug_of(vscode_theme.name@) + ".json"@]);
        let mut description = owned("converted from VSCode theme ");
        description.append(vscode_theme.name.as_str());
        let authors: Vec<String> = Vec::new();
        let icon_pointers: Vec<String> = Vec::new();
        assert(authors.deep_view() =~= Seq::<Seq<char>>::empty());
        assert(icon_pointers.deep_view() =~= Seq::<Seq<char>>::empty());
        let metadata = ZedManifest::plain(
            theme_filename,
            vscode_theme.name.clone(),
            owned("0.1.0"),
            description,
            String::new(),
            authors,
            themes,
            icon_pointers,
        );
        let family = ZedThemeFamily {
            schema: Some(owned("https://zed.dev/schema/themes/v0.2.0.json")),
            author: owned("Unknown"),
            name: vscode_theme.name.clone(),
            themes: vec![zed],
        };
        ZedExtension {
            name: vscode_theme.name.clone(),
            directory,
            source_directory: None,
            metadata,
            families: vec![family],
            all_themes: vec![zed2],
            icon_themes: Vec::new(),
        }
    }
}

/// An extension directory named `dir_name` is the one looked for under
/// `name` when it holds the slug of the name (without `.json`), or that
/// bare name itself.
pub open spec fn dir_matches(dir_name: Seq<char>, name: Seq<char>) -> bool {
    let bare = replace_all(name, ".json"@, ""@);
    contains(dir_name, slug_of(bare)) || contains(dir_name, bare)
}

impl ZedManifest {
    /// Does the manifest list any theme or icon theme?
    pub fn lists_themes(&self) -> (r: bool)
        ensures
            r == (self.themes@.len() > 0 || self.icon_themes@.len() > 0),
    {
        self.themes.len() > 0 || self.icon_themes.len() > 0
    }
}

impl ZedExtension {
    /// Is the extension directory named `dir_name` the one looked for
    /// under `name`?
    pub fn dir_matches_name(dir_name: &str, name: &str) -> (r: bool)
        ensures
            r == dir_matches(dir_name@, name@),
    {
        proof {
            reveal_strlit(".json");
        }
        let bare = replace_str(name, ".json", "");
        let slugged = slugify(bare.as_str());
        str_contains(dir_name, slugged.as_str()) || str_contains(dir_name, bare.as_str())
    }

    /// The extension made from one theme family file found in `directory`
    /// with no manifest: its id is the slug of `barename`, it is named by
    /// the family, lists the family's file among its themes and, among its
    /// icon themes, the file name of each icon theme file found beside it
    /// (`icon-theme.json` for a path without one), and holds the family
    /// and the icon themes read from those files.
    pub fn from_family_file(
        directory: String,
        barename: &str,
        family: ZedThemeFamily,
        icon_theme_paths: &[String],
        icon_themes: Vec<ZedIconTheme>,
    ) -> (r: Box<ZedExtension>)
        ensures
            r.name@ == family.name@,
            r.directory@ == directory@,
            r.source_directory is None,
            r.families@ == seq![family],
            r.icon_themes@ == icon_themes@,
            r.all_themes@.len() == family.themes@.len(),
            forall|j: int| 0 <= j < r.all_themes@.len() ==> same_theme(#[trigger] r.all_themes@[j], family.themes@[j]),
            r.metadata.id@ == slug_of(barename@),
            r.metadata.name@ == family.name@,
            r.metadata.version@ == "0.1.0"@,
            r.metadata.schema_version == 1,
            r.metadata.description@ == "Constructed from a directory of color themes"@,
            r.metadata.repository@ == Seq::<char>::empty(),
            r.metadata.authors@.len() == 0,
            r.metadata.themes.deep_view() == seq![family_pointer(family.name@)],
            r.metadata.icon_themes@.len() == icon_theme_paths@.len(),
            forall|j: int|
                0 <= j < icon_theme_paths@.len() ==> has_prefix(#[trigger] r.metadata.icon_themes@[j]@, "./icon_themes/"@),
            forall|j: int|
                0 <= j < icon_theme_paths@.len() && plain_final(#[trigger] icon_theme_paths@[j]@) ==> r.metadata.icon_themes@[j]@
                    == "./icon_themes/"@ + after_last(icon_theme_paths@[j]@, '/'),
    {
        proof {
            reveal_strlit("./icon_themes/");
        }
        let mut pointer = owned("./themes/");
        let normalized = ZedExtension::normalize_name(family.name.as_str());
        pointer.append(normalized.as_str());
        let themes = vec![pointer];
        let mut icon_pointers: Vec<String> = Vec::new();
        let mut i: usize = 0;
        while i < icon_theme_paths.len()
            invariant
                i <= icon_theme_paths@.len(),
                icon_pointers@.len() == i,
                "./icon_themes/"@.len() == 14,
                forall|j: int| 0 <= j < i ==> has_prefix(#[trigger] icon_pointers@[j]@, "./icon_themes/"@),
                forall|j: int|
                    0 <= j < i && plain_final(icon_theme_paths@[j]@) ==> #[trigger] icon_pointers@[j]@ == "./icon_themes/"@
                        + after_last(icon_theme_paths@[j]@, '/'),
            decreases icon_theme_paths@.len() - i,
        {
            let mut p = owned("./icon_themes/");
            let ghost start = p@;
            match file_name(icon_theme_paths[i].as_str()) {
                Some(f) => p.append(f.as_str()),
                None => p.append("icon-theme.json"),
            }
            assert(p@.subrange(0, 14) =~= start);
            let ghost before = icon_pointers@;
            icon_pointers.push(p);
            assert forall|j: int| 0 <= j < i + 1 implies has_prefix(#[trigger] icon_pointers@[j]@, "./icon_themes/"@) by {
                if j < i {
                    assert(icon_pointers@[j] == before[j]);
                }
            }
            assert forall|j: int|
                0 <= j < i + 1 && plain_final(icon_theme_paths@[j]@) implies #[trigger] icon_pointers@[j]@ == "./icon_themes/"@
                    + after_last(icon_theme_paths@[j]@, '/') by {
                if j < i {
                    assert(icon_pointers@[j] == before[j]);
                }
            }
            i += 1;
        }
        let authors: Vec<String> = Vec::new();
        assert(authors.deep_view().len() == 0);
        let ghost ip = icon_pointers@;
        let ghost ipd = icon_pointers.deep_view();
        assert(ipd.len() == ip.len());
        assert(forall|j: int| 0 <= j < ip.len() ==> #[trigger] ipd[j] == ip[j]@);
        let metadata = ZedManifest::plain(
            slugify(barename),
            family.name.clone(),
            owned("0.1.0"),
            owned("Constructed from a directory of color themes"),
            String::new(),
            authors,
            themes,
            icon_pointers,
        );
        let families = vec![family];
        let ghost fams = families@;
        let all_themes = themes_of_families(&families);
        proof {
            assert(themes_in(fams) =~= fams[0].themes@) by {
                assert(fams.drop_last() =~= Seq::<ZedThemeFamily>::empty());
                assert(themes_in(fams.drop_last()) =~= Seq::<ZedTheme>::empty());
            }
            let au = metadata.authors;
            assert(au.deep_view().len() == au@.len());
            let it = metadata.icon_themes;
            assert(it.deep_view() == ipd);
            assert(it.deep_view().len() == it@.len());
            assert forall|j: int| 0 <= j < it@.len() implies has_prefix(#[trigger] it@[j]@, "./icon_themes/"@) by {
                assert(it.deep_view()[j] == it@[j]@);
                assert(ipd[j] == ip[j]@);
            }
            assert forall|j: int|
                0 <= j < it@.len() && plain_final(#[trigger] icon_theme_paths@[j]@) implies it@[j]@ == "./icon_themes/"@
                    + after_last(icon_theme_paths@[j]@, '/') by {
                assert(it.deep_view()[j] == it@[j]@);
                assert(ipd[j] == ip[j]@);
            }
        }
        Box::new(
            ZedExtension {
                name: metadata.name.clone(),
                directory,
                source_directory: None,
                metadata,
                families,
                icon_themes,
                all_themes,
            },
        )
    }
}

impl ZedExtension {
    /// The file name `name` is looked for under when no extension
    /// directory matches it: a theme family file named like a family.
    pub fn family_file_glob(name: &str, extdir: &str) -> (r: String)
        ensures
            r@ == extdir@ + "/**/"@ + normalized_name(name@),
    {
        let mut r = owned(extdir);
        r.append("/**/");
        let n = ZedExtension::normalize_name(name);
        r.append(n.as_str());
        r
    }

    /// The glob that finds the manifests of the extensions directly below
    /// `extdir`.
    pub fn manifests_glob(extdir: &str) -> (r: String)
        ensures
            r@ == extdir@ + "/*/extension.toml"@,
    {
        let mut r = owned(extdir);
        r.append("/*/extension.toml");
        r
    }

    /// Where the icons of the extension's icon themes are found: its source
    /// directory, else its own directory.
    pub fn icon_source_dir(&self) -> (r: &str)
        ensures
            r@ == match self.source_directory {
                Some(d) => d@,
                None => self.directory@,
            },
    {
        match &self.source_directory {
            Some(d) => d.as_str(),
            None => self.directory.as_str(),
        }
    }

    /// The family an icon theme is written in: the theme alone, under its
    /// own name and the v0.2.0 icon theme schema, by the first author of
    /// the extension (else "Unknown").
    pub fn icon_family_for(&self, theme: ZedIconTheme) -> (r: ZedIconThemeFamily)
        ensures
            r.schema.deep_view() == Some("https://zed.dev/schema/icon_themes/v0.2.0.json"@),
            r.name@ == theme.name@,
            r.author@ == if self.metadata.authors@.len() > 0 {
                self.metadata.authors@[0]@
            } else {
                "Unknown"@
            },
            r.themes@ == seq![theme],
            r.source_path is None,
    {
        let author = if self.metadata.authors.len() > 0 {
            self.metadata.authors[0].clone()
        } else {
            owned("Unknown")
        };
        let name = theme.name.clone();
        ZedIconThemeFamily {
            schema: Some(owned("https://zed.dev/schema/icon_themes/v0.2.0.json")),
            name,
            author,
            themes: vec![theme],
            source_path: None,
        }
    }
}

} // verus!
