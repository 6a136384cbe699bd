//! Picking out the paths a glob pattern matches.

use vstd::prelude::*;

verus! {

/// Whether `fast_glob::glob_match` matches the byte path `path` against the
/// pattern `glob`: a function of the two alone.
pub uninterp spec fn glob_matched(glob: Seq<char>, path: Seq<u8>) -> bool;

/// `fast_glob::glob_match`: does the pattern `glob` match the byte path
/// `path`? The matching rules (wildcards, globstars, classes, braces,
/// negation; nothing for an invalid pattern) take pages, so the result is
/// only named, as `glob_matched` of the two arguments.
#[verifier::external_body]
fn glob_match(glob: &str, path: &[u8]) -> (r: bool)
    ensures
        r == glob_matched(glob@, path@),
{
    fast_glob::glob_match(glob, path)
}

/// The paths (as bytes) that the pattern `glob` matches, in their order.
pub fn paths_matching(glob: &str, paths: Vec<Vec<u8>>) -> (r: Vec<Vec<u8>>)
    ensures
        r.deep_view() == paths.deep_view().filter(|p: Seq<u8>| glob_matched(glob@, p)),
{
    let ghost all = paths.deep_view();
    let ghost keep = |p: Seq<u8>| glob_matched(glob@, p);
    let mut out: Vec<Vec<u8>> = Vec::new();
    let mut i: usize = 0;
    assert(all.subrange(0, 0).filter(keep) =~= Seq::<Seq<u8>>::empty()) by {
        all.subrange(0, 0).lemma_all_neg_filter_empty(keep);
    }
    while i < paths.len()
        invariant
            i <= paths@.len(),
            all == paths.deep_view(),
            keep == (|p: Seq<u8>| glob_matched(glob@, p)),
            out.deep_view() == all.subrange(0, i as int).filter(keep),
        decreases paths@.len() - i,
    {
        let ghost before = out.deep_view();
        proof {
            assert(all.subrange(0, i + 1) =~= all.subrange(0, i as int).push(all[i as int]));
            all.subrange(0, i as int).lemma_filter_push(all[i as int], keep);
        }
        assert(paths@[i as int].deep_view() == all[i as int]);
        assert(paths@[i as int].deep_view() =~= paths@[i as int]@);
        if glob_match(glob, paths[i].as_slice()) {
            let copy = paths[i].clone();
            assert(copy@ == paths@[i as int]@);
            out.push(copy);
            assert(out.deep_view() =~= before.push(all[i as int]));
        } else {
            assert(out.deep_view() =~= before);
        }
        i += 1;
    }
    assert(all.subrange(0, paths@.len() as int) =~= all);
    out
}

} // verus!
