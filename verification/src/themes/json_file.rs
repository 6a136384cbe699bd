//! Theme file paths that end in `.json`.

use vstd::prelude::*;

use crate::paths::{after_last, extension, name_extension, path_exists, plain_final};
use crate::text::has_char;
use crate::text::owned;

verus! {

/// `PathBuf::set_extension`: `path` with the extension of its file name
/// set to `ext` (added where it has none; it panics on an `ext` holding a
/// separator). How a path splits into a file name depends on the
/// platform, so the result is stated only for a path whose final component
/// reads the same on every platform and has no extension: `.` and `ext`
/// are added to it.
#[verifier::external_body]
fn set_extension(path: &str, ext: &str) -> (r: String)
    requires
        !has_char(ext@, '/'),
        !has_char(ext@, '\\'),
    ensures
        plain_final(path@) && name_extension(after_last(path@, '/')) is None && ext@.len() > 0 ==> r@ == path@
            + seq!['.'] + ext@,
{
    let mut p = std::path::PathBuf::from(path);
    p.set_extension(ext);
    p.to_string_lossy().into_owned()
}

/// The path to use for a theme file, from what is known of `input`:
/// whether something is `present` there, and the extension of its file name.
/// `input` itself when something exists there or the extension is
/// `json`; `input` followed by `.json` when it has another extension;
/// `None` when it has none, and one is to be set.
pub fn json_path_for(input: &str, present: bool, ext: &Option<String>) -> (r: Option<String>)
    ensures
        r is None <==> (!present && ext is None),
        r matches Some(p) ==> p@ == if present || (ext matches Some(e) && e@ == "json"@) {
            input@
        } else {
            input@ + ".json"@
        },
{
    if present {
        return Some(owned(input));
    }
    match ext {
        Some(e) => {
            if crate::text::str_eq(e.as_str(), "json") {
                Some(owned(input))
            } else {
                let mut r = owned(input);
                r.append(".json");
                Some(r)
            }
        },
        None => None,
    }
}

/// The path to use for a theme file: as `json_path_for` says, from
/// whether something exists at `input` on disk and the extension of its
/// file name; where it has none, `input` with the extension `json` set.
/// Whether something exists there rests on the disk; how the file name
/// splits off rests on the platform's path rules, so the result is stated
/// for paths whose final component reads the same on every platform: the
/// path itself where its extension is `json` (or something exists there),
/// else the path followed by `.json`.
pub fn ensure_json_extension(input: &str) -> (r: String)
    ensures
        plain_final(input@) ==> r@ == input@ || r@ == input@ + ".json"@,
        plain_final(input@) && name_extension(after_last(input@, '/')) == Some("json"@) ==> r@ == input@,
{
    proof {
        reveal_strlit("json");
        reveal_strlit(".json");
    }
    let ext = extension(input);
    match json_path_for(input, path_exists(input), &ext) {
        Some(p) => p,
        None => set_extension(input, "json"),
    }
}

} // verus!
