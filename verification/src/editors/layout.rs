//! Where an extension's files sit relative to one another.

use vstd::prelude::*;

use crate::paths::{
    adjoined, after_last, ends_with_components, join_path, lemma_parent_text_no_verbatim, lemma_plain_is_relative,
    lemma_simple_name_is_plain, parent, parent_text, plain_path,
};

verus! {

/// `path` with its final component dropped where it has a parent (as
/// `PathBuf::pop` does), else `path` itself.
fn pop(path: String) -> (r: String)
    ensures
        plain_path(path@) ==> r@ == parent_text(path@),
{
    match parent(path.as_str()) {
        Some(p) => p,
        None => path,
    }
}

/// The directory `found` stands for: itself where it is a directory
/// (`found_is_dir`), else its parent, for a path of plain components.
pub open spec fn found_dir(found: Seq<char>, found_is_dir: bool) -> Seq<char> {
    if found_is_dir {
        found
    } else {
        parent_text(found)
    }
}

/// The directory an extension's files are listed relative to, from a path
/// found inside it and whether that path is a directory: the path itself
/// where it is a directory, else its parent; and above that, where it is a
/// `themes` directory (or an `icon_themes` one, with `icon_dirs_too`), its
/// parent. Stated for paths of plain components joined by `/`.
pub fn extension_root(found: &str, found_is_dir: bool, icon_dirs_too: bool) -> (r: String)
    ensures
        plain_path(found@) && plain_path(found_dir(found@, found_is_dir)) ==> r@ == if after_last(
            found_dir(found@, found_is_dir),
            '/',
        ) == "themes"@ || (icon_dirs_too && after_last(found_dir(found@, found_is_dir), '/') == "icon_themes"@) {
            parent_text(found_dir(found@, found_is_dir))
        } else {
            found_dir(found@, found_is_dir)
        },
{
    proof {
        reveal_strlit("themes");
        reveal_strlit("icon_themes");
        lemma_simple_name_is_plain("themes"@);
        lemma_simple_name_is_plain("icon_themes"@);
    }
    let mut dir = crate::text::owned(found);
    if !found_is_dir {
        dir = pop(dir);
    }
    if ends_with_components(dir.as_str(), "themes") || (icon_dirs_too && ends_with_components(
        dir.as_str(),
        "icon_themes",
    )) {
        dir = pop(dir);
    }
    dir
}

/// The manifest of the extension a theme file was found in: `extension.toml`
/// two directories above the file (as far up as the path goes). Stated for
/// paths of plain components joined by `/`, two levels deep at least.
pub fn manifest_beside_themes(theme_file: &str) -> (r: String)
    ensures
        plain_path(theme_file@) && plain_path(parent_text(theme_file@)) ==> adjoined(
            parent_text(parent_text(theme_file@)),
            "extension.toml"@,
            r@,
        ),
{
    proof {
        reveal_strlit("extension.toml");
        lemma_simple_name_is_plain("extension.toml"@);
        lemma_plain_is_relative("extension.toml"@);
        if plain_path(theme_file@) && plain_path(parent_text(theme_file@)) {
            lemma_parent_text_no_verbatim(parent_text(theme_file@));
        }
    }
    let up = pop(pop(crate::text::owned(theme_file)));
    join_path(up.as_str(), "extension.toml")
}

} // verus!
