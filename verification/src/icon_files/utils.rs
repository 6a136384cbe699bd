//! Utility functions for icon file operations.

use vstd::prelude::*;

use crate::paths::{after_last, extension, name_extension, plain_final};
use crate::text::{chars_of, contains, has_char, is_ws, is_ws_exec, lowercase, str_eq, string_of_range, to_lowercase};

verus! {

/// The extensions of icon image files (compared after lowercasing).
pub open spec fn icon_extension(e: Seq<char>) -> bool {
    e == "svg"@ || e == "png"@ || e == "jpg"@ || e == "jpeg"@ || e == "gif"@ || e == "webp"@ || e == "ico"@
}

/// Is `ext` (in any letter case) the extension of an icon image file?
pub fn is_icon_extension(ext: &str) -> (r: bool)
    ensures
        r == icon_extension(lowercase(ext@)),
{
    let l = to_lowercase(ext);
    let l = l.as_str();
    str_eq(l, "svg") || str_eq(l, "png") || str_eq(l, "jpg") || str_eq(l, "jpeg") || str_eq(l, "gif")
        || str_eq(l, "webp") || str_eq(l, "ico")
}

/// Check if a file is a valid icon file based on its extension: when it
/// is, the path holds an icon extension behind a `.`. For a path whose
/// final component reads the same on every platform, it is one exactly
/// when the extension of that file name is an icon extension.
pub fn is_icon_file(path: &str) -> (r: bool)
    ensures
        r ==> exists|e: Seq<char>| icon_extension(lowercase(e)) && #[trigger] contains(path@, seq!['.'] + e),
        plain_final(path@) ==> r == (name_extension(after_last(path@, '/')) matches Some(e) && icon_extension(
            lowercase(e),
        )),
{
    match extension(path) {
        Some(e) => is_icon_extension(e.as_str()),
        None => false,
    }
}

/// The lowercased file extension of a path: the lowercase of a part of the
/// path without `.` that follows a `.`. For a path whose final component
/// reads the same on every platform, the lowercase of the extension of
/// that file name, and none where it has none.
pub fn get_file_extension(path: &str) -> (r: Option<String>)
    ensures
        r matches Some(l) ==> exists|e: Seq<char>|
            l@ == lowercase(e) && !has_char(e, '.') && #[trigger] contains(path@, seq!['.'] + e),
        plain_final(path@) ==> match name_extension(after_last(path@, '/')) {
            Some(e) => r matches Some(l) && l@ == lowercase(e),
            None => r is None,
        },
{
    match extension(path) {
        Some(e) => Some(to_lowercase(e.as_str())),
        None => None,
    }
}

/// Characters that cannot stand in a file name on every platform.
pub open spec fn invalid_filename_char(c: char) -> bool {
    c == '<' || c == '>' || c == ':' || c == '"' || c == '|' || c == '?' || c == '*' || c == '/' || c == '\\'
}

/// Characters trimmed from both ends of a file name.
pub open spec fn trimmable(c: char) -> bool {
    is_ws(c) || c == '.'
}

/// `s` with every invalid character replaced by `_`.
pub open spec fn replace_invalid(s: Seq<char>) -> Seq<char> {
    Seq::new(s.len(), |i: int| if invalid_filename_char(s[i]) { '_' } else { s[i] })
}

/// `s` without its leading trimmable characters.
pub open spec fn trim_start_trimmable(s: Seq<char>) -> Seq<char>
    decreases s.len(),
{
    if s.len() > 0 && trimmable(s[0]) {
        trim_start_trimmable(s.drop_first())
    } else {
        s
    }
}

/// `s` without its trailing trimmable characters.
pub open spec fn trim_end_trimmable(s: Seq<char>) -> Seq<char>
    decreases s.len(),
{
    if s.len() > 0 && trimmable(s.last()) {
        trim_end_trimmable(s.drop_last())
    } else {
        s
    }
}

/// The sanitized form of a file name.
pub open spec fn sanitized(s: Seq<char>) -> Seq<char> {
    trim_end_trimmable(trim_start_trimmable(replace_invalid(s)))
}

/// Sanitize a filename for cross-platform compatibility: every invalid
/// character becomes `_`, then whitespace and dots are trimmed from both
/// ends. The result holds no invalid character and neither starts nor
/// ends with whitespace or a dot.
pub fn sanitize_filename(filename: &str) -> (r: String)
    ensures
        r@ == sanitized(filename@),
        forall|i: int| 0 <= i < r@.len() ==> !invalid_filename_char(#[trigger] r@[i]),
        r@.len() > 0 ==> !trimmable(r@[0]) && !trimmable(r@.last()),
{
    let raw = chars_of(filename);
    let mut v: Vec<char> = Vec::new();
    let mut i: usize = 0;
    while i < raw.len()
        invariant
            raw@ == filename@,
            i <= raw@.len(),
            v@ == replace_invalid(filename@).subrange(0, i as int),
        decreases raw@.len() - i,
    {
        let c = raw[i];
        let bad = c == '<' || c == '>' || c == ':' || c == '"' || c == '|' || c == '?' || c == '*' || c == '/'
            || c == '\\';
        v.push(if bad { '_' } else { c });
        i += 1;
        assert(v@ =~= replace_invalid(filename@).subrange(0, i as int));
    }
    let ghost rep = replace_invalid(filename@);
    assert(v@ =~= rep);
    let n = v.len();
    let mut lo: usize = 0;
    assert(rep.subrange(0, n as int) =~= rep);
    while lo < n && (is_ws_exec(v[lo]) || v[lo] == '.')
        invariant
            v@ == rep,
            n == rep.len(),
            lo <= n,
            trim_start_trimmable(rep) == trim_start_trimmable(rep.subrange(lo as int, n as int)),
        decreases n - lo,
    {
        assert(rep.subrange(lo as int, n as int).drop_first() =~= rep.subrange(lo + 1, n as int));
        lo += 1;
    }
    let ghost front = rep.subrange(lo as int, n as int);
    assert(trim_start_trimmable(front) == front);
    let mut hi: usize = n;
    assert(front =~= rep.subrange(lo as int, hi as int));
    while hi > lo && (is_ws_exec(v[hi - 1]) || v[hi - 1] == '.')
        invariant
            v@ == rep,
            n == rep.len(),
            lo <= hi <= n,
            trim_end_trimmable(front) == trim_end_trimmable(rep.subrange(lo as int, hi as int)),
        decreases hi,
    {
        assert(rep.subrange(lo as int, hi as int).drop_last() =~= rep.subrange(lo as int, hi - 1));
        hi -= 1;
    }
    let ghost out = rep.subrange(lo as int, hi as int);
    assert(trim_end_trimmable(out) == out);
    proof {
        if out.len() > 0 {
            assert(out[0] == rep[lo as int]);
            assert(out.last() == rep[hi - 1]);
        }
        assert forall|i: int| 0 <= i < out.len() implies !invalid_filename_char(#[trigger] out[i]) by {
            assert(out[i] == rep[lo + i]);
        }
    }
    string_of_range(v.as_slice(), lo, hi)
}

} // verus!
