//! VSCode theme extensions whose theme files are named
//! `<name>-color-theme.json`.

use vstd::prelude::*;

use crate::convert::zed_to_code::vscode_theme_of;
use crate::editors::vscode::theme::VsCodeTheme;
use crate::editors::zed::extension::ZedExtension;
use crate::editors::zed::theme::ZedThemeFamily;
use crate::slugs::{slug_of, slugify};
use crate::paths::{ends_with_components, is_dir, parent, parent_text, plain_component, plain_path};
use crate::text::{contains, has_prefix, owned, replace_all, replace_str};

verus! {

/// A VSCode extension: where it lives, its name and its themes.
#[derive(Debug)]
pub struct VsCodeExtension {
    pub directory: String,
    pub name: String,
    pub themes: Vec<VsCodeTheme>,
    pub metadata: Option<VSCMetadata>,
}

/// The manifest of an extension.
#[derive(Debug)]
pub struct VSCMetadata {
    pub name: String,
    pub display_name: String,
    pub description: String,
    pub publisher: String,
    pub contributes: Vec<ThemePointer>,
}

/// A theme listed in a manifest.
#[derive(Debug)]
pub struct ThemePointer {
    pub label: String,
    pub path: String,
}

/// A theme file name in the form VSCode expects: without `.json` and
/// `-color-theme` anywhere, then `-color-theme.json`.
pub open spec fn color_theme_filename(name: Seq<char>) -> Seq<char> {
    replace_all(replace_all(name, ".json"@, ""@), "-color-theme"@, ""@) + "-color-theme.json"@
}

/// Where the extension holding the theme file `name` lives below `extdir`:
/// `<extdir>/<subdir>/<file>` for the normalized file name, and the
/// subdirectory named after it.
pub open spec fn official_path_for(name: Seq<char>, extdir: Seq<char>) -> Seq<char> {
    let extname = color_theme_filename(name);
    extdir + "/"@ + replace_all(extname, "-color-theme.json"@, ""@) + "/"@ + extname
}

impl VsCodeExtension {
    /// Ensure the name of a theme file stored in an extension is in the form
    /// vscode expects "name-color-theme.json".
    pub fn normalize_filename(name: &str) -> (r: String)
        ensures
            r@ == color_theme_filename(name@),
    {
        proof {
            reveal_strlit(".json");
            reveal_strlit("-color-theme");
        }
        let without_json = replace_str(name, ".json", "");
        let mut extname = replace_str(without_json.as_str(), "-color-theme", "");
        extname.append("-color-theme.json");
        extname
    }

    /// Where the extension holding the theme file `name` lives below
    /// `extdir`.
    pub fn official_path_for(name: &str, extdir: &str) -> (r: String)
        ensures
            r@ == official_path_for(name@, extdir@),
    {
        proof {
            reveal_strlit("-color-theme.json");
        }
        let extname = VsCodeExtension::normalize_filename(name);
        let subdir = replace_str(extname.as_str(), "-color-theme.json", "");
        let mut r = owned(extdir);
        r.append("/");
        r.append(subdir.as_str());
        r.append("/");
        r.append(extname.as_str());
        r
    }

    /// A new extension holding `themes`, in the place VSCode expects the
    /// extension of the theme file `filename`.
    pub fn new(theme_name: &str, filename: &str, themes: Vec<VsCodeTheme>) -> (r: Self)
        ensures
            r.directory@ == official_path_for(filename@, ".vscode/extensions"@),
            r.name@ == theme_name@,
            r.themes@ == themes@,
            r.metadata is None,
    {
        let directory = VsCodeExtension::official_path_for(filename, ".vscode/extensions");
        let name = owned(theme_name);
        VsCodeExtension { directory, name, themes, metadata: None }
    }

    /// Could a theme file be part of an extension? Its parent must be a
    /// directory named `themes`. Whether it is a directory rests on the
    /// disk, and where the parent ends on the platform's path rules; what
    /// holds is that a `true` comes with a shorter start of `fpath` that
    /// holds `themes` (for a path of plain components joined by `/`, the
    /// text before its last `/`). The decision itself is
    /// `theme_dir_verdict`.
    pub fn dir_is_extension(fpath: &str) -> (r: bool)
        ensures
            r ==> exists|p: Seq<char>| p.len() < fpath@.len() && has_prefix(fpath@, p) && #[trigger] contains(p, "themes"@),
            r && plain_path(fpath@) ==> contains(parent_text(fpath@), "themes"@),
    {
        proof {
            reveal_strlit("themes");
            assert(plain_component("themes"@));
        }
        let parent = parent(fpath);
        let (parent_is_dir, parent_is_themes) = match &parent {
            Some(p) => {
                let d = is_dir(p.as_str());
                (d, d && ends_with_components(p.as_str(), "themes"))
            },
            None => (false, false),
        };
        VsCodeExtension::theme_dir_verdict(&parent, parent_is_dir, parent_is_themes)
    }

    /// Whether a theme file's directory makes it part of an extension, from
    /// what was found of it: it has a parent, which is a directory, and
    /// whose final component is `themes`.
    pub fn theme_dir_verdict(parent: &Option<String>, parent_is_dir: bool, parent_is_themes: bool) -> (r: bool)
        ensures
            r == (parent is Some && parent_is_dir && parent_is_themes),
    {
        match parent {
            Some(_) => parent_is_dir && parent_is_themes,
            None => false,
        }
    }

    /// The human name of this extension.
    pub fn name(&self) -> (r: &str)
        ensures
            r@ == self.name@,
    {
        self.name.as_str()
    }

    /// Where this extension lives.
    pub fn directory(&self) -> (r: &str)
        ensures
            r@ == self.directory@,
    {
        self.directory.as_str()
    }

    /// The extension's themes.
    pub fn themes(&self) -> (r: &[VsCodeTheme])
        ensures
            r@ == self.themes@,
    {
        self.themes.as_slice()
    }
}

impl VsCodeExtension {
    /// The extension made from a Zed theme family: each theme converted, in
    /// the place VSCode expects the extension named by the family's slug.
    pub fn from_zed_family(family: &ZedThemeFamily) -> (r: Self)
        ensures
            r.name@ == family.name@,
            r.directory@ == official_path_for(slug_of(family.name@), ".vscode/extensions"@),
            r.metadata is None,
            r.themes@.len() == family.themes@.len(),
            forall|i: int| 0 <= i < r.themes@.len() ==> (#[trigger] r.themes@[i])@ == vscode_theme_of(family.themes@[i]),
    {
        let themes = VsCodeTheme::from_zed_family(family);
        let theme_filename = slugify(family.name.as_str());
        VsCodeExtension::new(family.name.as_str(), theme_filename.as_str(), themes)
    }

    /// The extension made from a Zed extension: every theme of its families
    /// converted, in the place below `extensions_path` that VSCode expects
    /// for the extension's name.
    pub fn from_zed_extension(input: &ZedExtension, extensions_path: &str) -> (r: Self)
        ensures
            r.name@ == input.name@,
            r.directory@ == official_path_for(input.name@, extensions_path@),
            r.metadata is None,
            r.themes@.len() == input.all_themes@.len(),
            forall|i: int| 0 <= i < r.themes@.len() ==> (#[trigger] r.themes@[i])@ == vscode_theme_of(input.all_themes@[i]),
    {
        let directory = VsCodeExtension::official_path_for(input.name(), extensions_path);
        let all = input.themes();
        let mut themes: Vec<VsCodeTheme> = Vec::new();
        let mut i: usize = 0;
        while i < all.len()
            invariant
                all@ == input.all_themes@,
                i <= all@.len(),
                themes@.len() == i,
                forall|k: int| 0 <= k < i ==> (#[trigger] themes@[k])@ == vscode_theme_of(all@[k]),
            decreases all@.len() - i,
        {
            themes.push(VsCodeTheme::from_zed(&all[i]));
            i += 1;
        }
        VsCodeExtension { directory, name: owned(input.name()), themes, metadata: None }
    }
}

} // verus!
