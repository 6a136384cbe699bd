//! Slugs of names, as the `slug` crate computes them.

use vstd::prelude::*;

verus! {

/// The slug that `slug::slugify` computes for a string.
pub uninterp spec fn slug_of(s: Seq<char>) -> Seq<char>;

/// What the documentation of `slug::slugify` promises of every slug: it
/// consists of `a-z`, `0-9` and `-`, never holds two `-` in a row, and never
/// starts or ends with `-`.
pub open spec fn is_slug(s: Seq<char>) -> bool {
    &&& forall|i: int|
        0 <= i < s.len() ==> ('a' <= #[trigger] s[i] <= 'z' || '0' <= s[i] <= '9' || s[i] == '-')
    &&& forall|i: int| 0 <= i < s.len() - 1 ==> !(#[trigger] s[i] == '-' && s[i + 1] == '-')
    &&& s.len() > 0 ==> s[0] != '-' && s.last() != '-'
}

/// `slug::slugify`: converts any string to an ASCII slug. The result is a
/// function of the input alone, named `slug_of`; beyond the shape that
/// `is_slug` describes, nothing is stated of how the characters are mapped
/// (the crate transliterates non-ASCII text through `deunicode`).
#[verifier::external_body]
pub(crate) fn slugify(s: &str) -> (r: String)
    ensures
        r@ == slug_of(s@),
        is_slug(r@),
{
    slug::slugify(s)
}

} // verus!
