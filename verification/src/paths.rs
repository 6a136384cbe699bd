//! File-system paths, held as strings.
//!
//! How a path splits into components depends on the platform (which
//! characters separate components, what makes a path absolute), so the
//! operations here say only what holds on every platform: `/` separates
//! components everywhere and `\` on Windows, where `:` also starts a drive
//! prefix, a leading `//` a network prefix, and `?` marks a verbatim path.

use vstd::prelude::*;

use crate::text::{contains, has_char, has_prefix};

verus! {

/// A name of three or more ASCII lowercase letters, `.`, `_` and `-`
/// that starts with a letter is a plain path component.
pub proof fn lemma_simple_name_is_plain(s: Seq<char>)
    requires
        s.len() > 2,
        'a' <= s[0] <= 'z',
        forall|i: int| 0 <= i < s.len() ==> ('a' <= #[trigger] s[i] <= 'z' || s[i] == '.' || s[i] == '_' || s[i] == '-'),
    ensures
        plain_component(s),
{
}

/// What follows the last `c` is no longer than the string.
pub proof fn lemma_after_last_len(s: Seq<char>, c: char)
    ensures
        after_last(s, c).len() <= s.len(),
    decreases s.len(),
{
    if s.len() > 0 && s.last() != c {
        lemma_after_last_len(s.drop_last(), c);
    }
}

/// The parent text of a path is a start of it, so a path without `?` has a
/// parent without `?`.
pub proof fn lemma_parent_text_no_verbatim(p: Seq<char>)
    requires
        no_verbatim(p),
    ensures
        no_verbatim(parent_text(p)),
{
    lemma_after_last_len(p, '/');
    let q = parent_text(p);
    assert forall|i: int| 0 <= i < q.len() implies q[i] != '?' by {
        assert(q[i] == p[i]);
    }
}

/// A plain component is relative on every platform.
pub proof fn lemma_plain_is_relative(s: Seq<char>)
    requires
        plain_component(s),
    ensures
        relative_everywhere(s),
{
    assert(s[0] != '/' && s[0] != '\\' && s[0] != '?') by {
        assert(0 <= 0 < s.len());
    }
}

/// A name that is one plain component of a path on every platform: not
/// empty, not `.` or `..`, holding no separator, no `:` and no `?`.
pub open spec fn plain_component(s: Seq<char>) -> bool {
    &&& s.len() > 0
    &&& s != seq!['.']
    &&& s != seq!['.', '.']
    &&& !has_char(s, '/')
    &&& !has_char(s, '\\')
    &&& !has_char(s, ':')
    &&& !has_char(s, '?')
}

/// A path that is relative on every platform: it does not begin with a
/// separator and holds no `:` (so it has neither a root nor a prefix).
pub open spec fn relative_everywhere(s: Seq<char>) -> bool {
    &&& (s.len() == 0 || (s[0] != '/' && s[0] != '\\'))
    &&& !has_char(s, ':')
}

/// A path of plain components joined by single `/`, maybe after one
/// leading `/`, that reads the same on every platform: its final
/// component is plain, no component is empty (but a leading one), `.` or
/// `..`, and it does not end in `/`.
pub open spec fn plain_path(p: Seq<char>) -> bool {
    &&& plain_final(p)
    &&& forall|i: int| 0 <= i < p.len() && #[trigger] p[i] == '/' ==> i + 1 < p.len() && p[i + 1] != '/'
    &&& forall|i: int|
        0 <= i < p.len() && #[trigger] p[i] == '.' && (i == 0 || p[i - 1] == '/') ==> !(i + 1 == p.len() || p[i
            + 1] == '/') && !(i + 1 < p.len() && p[i + 1] == '.' && (i + 2 == p.len() || p[i + 2] == '/'))
}

/// What `Path::parent` gives for a `plain_path`: the text before its last
/// `/` (`/` itself where that is the leading one, and nothing where it
/// has no `/`).
pub open spec fn parent_text(p: Seq<char>) -> Seq<char> {
    let rest = p.subrange(0, p.len() - after_last(p, '/').len());
    if rest.len() <= 1 {
        rest
    } else {
        rest.drop_last()
    }
}

/// A path that is no Windows verbatim path, nor can become one by
/// adjoining a plain component: it holds no `?`.
pub open spec fn no_verbatim(s: Seq<char>) -> bool {
    !has_char(s, '?')
}

/// `r` is `rel` adjoined to `base`: `base`, then a separator where one is
/// needed, then `rel`. No separator is added to an empty `base` or one
/// that ends in `/`; one that ends in `\` gets a `/` only where `\` is no
/// separator; any other `base` gets `/` or `\` (the platform's own), or
/// none where it is a bare Windows drive (it holds `:`).
pub open spec fn adjoined(base: Seq<char>, rel: Seq<char>, r: Seq<char>) -> bool {
    if base.len() == 0 || base.last() == '/' {
        r == base + rel
    } else if base.last() == '\\' {
        r == base + rel || r == base + seq!['/'] + rel
    } else {
        r == base + seq!['/'] + rel || r == base + seq!['\\'] + rel || (has_char(base, ':') && r == base + rel)
    }
}

/// What follows the last `c` in `s` (all of `s` when it has none).
pub open spec fn after_last(s: Seq<char>, c: char) -> Seq<char>
    decreases s.len(),
{
    if s.len() == 0 {
        s
    } else if s.last() == c {
        Seq::empty()
    } else {
        after_last(s.drop_last(), c).push(s.last())
    }
}

/// A path whose final component reads the same on every platform: it holds
/// no `\`, `:` or `?`, does not start with `//`, and what follows its last
/// `/` is a plain component (which is then its file name).
pub open spec fn plain_final(p: Seq<char>) -> bool {
    &&& !has_char(p, '\\')
    &&& !has_char(p, ':')
    &&& !has_char(p, '?')
    &&& !has_prefix(p, seq!['/', '/'])
    &&& plain_component(after_last(p, '/'))
}

/// The extension of a file name as `Path::extension` documents it: what
/// follows its final `.`, where it has a `.` that is not its first
/// character.
pub open spec fn name_extension(name: Seq<char>) -> Option<Seq<char>> {
    let e = after_last(name, '.');
    if e.len() + 2 <= name.len() {
        Some(e)
    } else {
        None
    }
}

/// `Path::join`: `rel` adjoined to `base` (documented as
/// `PathBuf::push`: a relative path extends `base`, with the platform's
/// separator where `base` does not end in one; an absolute path, or one
/// with a root or a prefix, replaces it; on a verbatim `base` the result is
/// normalized). Stated only where `rel` is relative on every platform and
/// `base` no verbatim path: then the result is `base`, maybe a separator,
/// and `rel`. Which separator, and what comes out on other arguments, is
/// left unsaid.
#[verifier::external_body]
pub(crate) fn join_path(base: &str, rel: &str) -> (r: String)
    ensures
        no_verbatim(base@) && relative_everywhere(rel@) ==> adjoined(base@, rel@, r@),
{
    std::path::Path::new(base).join(rel).to_string_lossy().into_owned()
}

/// `Path::file_name`: the final component of `path`, if it has one. Which
/// component is final depends on the platform's separators; it is stated
/// for paths whose final component reads the same on every platform.
#[verifier::external_body]
pub(crate) fn file_name(path: &str) -> (r: Option<String>)
    ensures
        plain_final(path@) ==> r.deep_view() == Some(after_last(path@, '/')),
{
    std::path::Path::new(path).file_name().map(|n| n.to_string_lossy().into_owned())
}

/// `Path::parent`: `path` without its final component, if it has one (an
/// empty path for a relative path of one component): a shorter start of
/// `path`. Where the final component ends depends on the platform's
/// separators; it is stated for paths of plain components joined by `/`,
/// where it is `parent_text`.
#[verifier::external_body]
pub(crate) fn parent(path: &str) -> (r: Option<String>)
    ensures
        r matches Some(p) ==> p@.len() < path@.len() && has_prefix(path@, p@),
        plain_path(path@) ==> r.deep_view() == Some(parent_text(path@)),
{
    std::path::Path::new(path).parent().map(|p| p.to_string_lossy().into_owned())
}

/// `Path::extension`: the part of the file name after its final `.`, if
/// any (none where the name has no `.` but a leading one). It holds no
/// `.`, and `path` holds it behind a `.`; for a path whose final component
/// reads the same on every platform it is the extension of that name.
#[verifier::external_body]
pub(crate) fn extension(path: &str) -> (r: Option<String>)
    ensures
        r matches Some(e) ==> !has_char(e@, '.') && contains(path@, seq!['.'] + e@),
        plain_final(path@) ==> r.deep_view() == name_extension(after_last(path@, '/')),
{
    std::path::Path::new(path).extension().map(|e| e.to_string_lossy().into_owned())
}

/// `Path::exists`: does something exist at `path` on disk now? The answer
/// depends on the file system, so nothing is stated of it.
#[verifier::external_body]
pub(crate) fn path_exists(path: &str) -> (r: bool) {
    std::path::Path::new(path).exists()
}

/// `Path::is_dir`: is there a directory at `path` on disk now? The answer
/// depends on the file system, so nothing is stated of it.
#[verifier::external_body]
pub(crate) fn is_dir(path: &str) -> (r: bool) {
    std::path::Path::new(path).is_dir()
}

/// `Path::ends_with`: do the final components of `path` equal those of
/// `child`? Components depend on the platform's separators; what is stated
/// is that a `path` ending with a plain component holds it, and, for a path
/// of plain components joined by `/`, that it ends with a plain component
/// exactly when its last component is that one.
#[verifier::external_body]
pub(crate) fn ends_with_components(path: &str, child: &str) -> (r: bool)
    ensures
        r && plain_component(child@) ==> contains(path@, child@),
        plain_path(path@) && plain_component(child@) ==> r == (after_last(path@, '/') == child@),
{
    std::path::Path::new(path).ends_with(child)
}

} // verus!
