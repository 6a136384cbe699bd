//! Icon file management for theme conversions.
//!
//! When converting between VSCode and Zed icon themes the icon files (SVG,
//! PNG, ...) are copied along. An `IconFileManager` records, under logical
//! names, where each icon comes from, and says where it goes.

pub mod utils;

use vstd::prelude::*;

use crate::paths::{
    adjoined, after_last, file_name, join_path, no_verbatim, path_exists, plain_component, plain_final, relative_everywhere,
};
use crate::strmap::StrMap;
use crate::text::{chars_of, has_prefix, owned, replace_char, string_of_range};

verus! {

/// Manages icon files during theme conversion.
#[derive(Debug)]
pub struct IconFileManager {
    /// Maps logical icon names to their source file paths
    icon_sources: StrMap<String>,
    /// Base directory where source icons are located
    source_base: String,
    /// Base directory where converted icons should be placed
    dest_base: String,
    /// Subdirectory within dest_base where icons should be copied (e.g., "icons")
    dest_subdir: String,
}

/// The view of an icon file manager.
pub struct IconFileManagerView {
    pub icon_sources: Map<Seq<char>, Seq<char>>,
    pub source_base: Seq<char>,
    pub dest_base: Seq<char>,
    pub dest_subdir: Seq<char>,
}

impl View for IconFileManager {
    type V = IconFileManagerView;

    closed spec fn view(&self) -> IconFileManagerView {
        IconFileManagerView {
            icon_sources: self.icon_sources@,
            source_base: self.source_base@,
            dest_base: self.dest_base@,
            dest_subdir: self.dest_subdir@,
        }
    }
}

/// `new` is `old` with the names in `names` tracked (each from some
/// source) and nothing else changed.
pub open spec fn tracks(old: IconFileManagerView, new: IconFileManagerView, names: Set<Seq<char>>) -> bool {
    &&& new.icon_sources.dom() == old.icon_sources.dom().union(names)
    &&& forall|k: Seq<char>|
        #[trigger] old.icon_sources.contains_key(k) && !names.contains(k) ==> new.icon_sources[k]
            == old.icon_sources[k]
    &&& new.source_base == old.source_base
    &&& new.dest_base == old.dest_base
    &&& new.dest_subdir == old.dest_subdir
}

/// `new` is `old` with some of the names in `names` tracked (each from some
/// source) and nothing else changed.
pub open spec fn tracks_some(old: IconFileManagerView, new: IconFileManagerView, names: Set<Seq<char>>) -> bool {
    &&& old.icon_sources.dom().subset_of(new.icon_sources.dom())
    &&& new.icon_sources.dom().subset_of(old.icon_sources.dom().union(names))
    &&& forall|k: Seq<char>|
        #[trigger] old.icon_sources.contains_key(k) && !names.contains(k) ==> new.icon_sources[k]
            == old.icon_sources[k]
    &&& new.source_base == old.source_base
    &&& new.dest_base == old.dest_base
    &&& new.dest_subdir == old.dest_subdir
}

/// Tracking nothing changes nothing.
pub proof fn lemma_tracks_nothing(a: IconFileManagerView)
    ensures
        tracks(a, a, Set::empty()),
        tracks_some(a, a, Set::empty()),
{
    assert(a.icon_sources.dom().union(Set::empty()) =~= a.icon_sources.dom());
}

/// Tracking `s`, then `t`, tracks both.
pub proof fn lemma_tracks_then(
    a: IconFileManagerView,
    b: IconFileManagerView,
    c: IconFileManagerView,
    s: Set<Seq<char>>,
    t: Set<Seq<char>>,
)
    requires
        tracks(a, b, s),
        tracks(b, c, t),
    ensures
        tracks(a, c, s.union(t)),
{
    assert(c.icon_sources.dom() =~= a.icon_sources.dom().union(s.union(t)));
    assert forall|k: Seq<char>|
        #[trigger] a.icon_sources.contains_key(k) && !s.union(t).contains(k) implies c.icon_sources[k]
        == a.icon_sources[k] by {
        assert(b.icon_sources.dom().contains(k));
        assert(b.icon_sources.contains_key(k));
    }
}

/// Tracking some of `s`, then some of `t`, tracks some of both.
pub proof fn lemma_tracks_some_then(
    a: IconFileManagerView,
    b: IconFileManagerView,
    c: IconFileManagerView,
    s: Set<Seq<char>>,
    t: Set<Seq<char>>,
)
    requires
        tracks_some(a, b, s),
        tracks_some(b, c, t),
    ensures
        tracks_some(a, c, s.union(t)),
{
}

/// Tracking all of `s` tracks some of any superset of it.
pub proof fn lemma_tracks_all_is_some(a: IconFileManagerView, b: IconFileManagerView, s: Set<Seq<char>>, t: Set<Seq<char>>)
    requires
        tracks(a, b, s),
        s.subset_of(t),
    ensures
        tracks_some(a, b, t),
{
}

/// The base an icon path is joined to: `source_base` where there is one,
/// else the manager's source base.
pub open spec fn base_or(source_base: Option<&str>, m: IconFileManagerView) -> Seq<char> {
    match source_base {
        Some(b) => b@,
        None => m.source_base,
    }
}

/// `src` is `rel` joined to `base`, as far as the platform's path rules
/// let that be stated: `base`, maybe a separator, and `rel`, where `base`
/// is no verbatim path and `rel` is relative on every platform.
pub open spec fn joined_from(base: Seq<char>, rel: Seq<char>, src: Seq<char>) -> bool {
    no_verbatim(base) && relative_everywhere(rel) ==> adjoined(base, rel, src)
}

/// Every name that `new` tracks at another source than `old` does (or that
/// only `new` tracks) is the name of one of `icons` (pairs of a name and an
/// icon path), tracked at that path joined to `base`.
pub open spec fn sourced_from(
    old: IconFileManagerView,
    new: IconFileManagerView,
    icons: Set<(Seq<char>, Seq<char>)>,
    base: Seq<char>,
) -> bool {
    forall|n: Seq<char>|
        #[trigger] new.icon_sources.contains_key(n) && !(old.icon_sources.contains_key(n) && new.icon_sources[n]
            == old.icon_sources[n]) ==> exists|p: Seq<char>| icons.contains((n, p)) && joined_from(base, p, new.icon_sources[n])
}

/// Changing nothing sources nothing.
pub proof fn lemma_sourced_nothing(a: IconFileManagerView, icons: Set<(Seq<char>, Seq<char>)>, base: Seq<char>)
    ensures
        sourced_from(a, a, icons, base),
{
}

/// What two steps source comes from the icons of either step.
pub proof fn lemma_sourced_then(
    a: IconFileManagerView,
    b: IconFileManagerView,
    c: IconFileManagerView,
    s: Set<(Seq<char>, Seq<char>)>,
    t: Set<(Seq<char>, Seq<char>)>,
    base: Seq<char>,
)
    requires
        sourced_from(a, b, s, base),
        sourced_from(b, c, t, base),
        b.icon_sources.dom().subset_of(c.icon_sources.dom()),
    ensures
        sourced_from(a, c, s.union(t), base),
{
    assert forall|n: Seq<char>|
        #[trigger] c.icon_sources.contains_key(n) && !(a.icon_sources.contains_key(n) && c.icon_sources[n]
            == a.icon_sources[n]) implies exists|p: Seq<char>| s.union(t).contains((n, p)) && joined_from(base, p, c.icon_sources[n]) by {
        if b.icon_sources.contains_key(n) && c.icon_sources[n] == b.icon_sources[n] {
            assert(b.icon_sources.contains_key(n));
            let p = choose|p: Seq<char>| s.contains((n, p)) && joined_from(base, p, b.icon_sources[n]);
            assert(s.union(t).contains((n, p)));
        } else {
            let p = choose|p: Seq<char>| t.contains((n, p)) && joined_from(base, p, c.icon_sources[n]);
            assert(s.union(t).contains((n, p)));
        }
    }
}

/// Sourcing from some icons sources from any more of them.
pub proof fn lemma_sourced_widen(
    a: IconFileManagerView,
    b: IconFileManagerView,
    s: Set<(Seq<char>, Seq<char>)>,
    t: Set<(Seq<char>, Seq<char>)>,
    base: Seq<char>,
)
    requires
        sourced_from(a, b, s, base),
        s.subset_of(t),
    ensures
        sourced_from(a, b, t, base),
{
    assert forall|n: Seq<char>|
        #[trigger] b.icon_sources.contains_key(n) && !(a.icon_sources.contains_key(n) && b.icon_sources[n]
            == a.icon_sources[n]) implies exists|p: Seq<char>| t.contains((n, p)) && joined_from(base, p, b.icon_sources[n]) by {
        let p = choose|p: Seq<char>| s.contains((n, p)) && joined_from(base, p, b.icon_sources[n]);
        assert(t.contains((n, p)));
    }
}

/// The path of an icon for theme JSON: `./<subdir>/<filename>`.
pub open spec fn relative_icon_path(subdir: Seq<char>, filename: Seq<char>) -> Seq<char> {
    "./"@ + subdir + "/"@ + filename
}

/// An icon path as it reads once its file is copied into the icon
/// subdirectory `subdir`.
pub open spec fn relocated(p: Seq<char>, subdir: Seq<char>) -> Seq<char> {
    relative_icon_path(subdir, filename_in(p))
}

/// The part of `s` after its last `/` (all of `s` when it has none).
pub open spec fn last_segment(s: Seq<char>) -> Seq<char>
    decreases s.len(),
{
    if s.len() == 0 {
        s
    } else if s.last() == '/' {
        Seq::empty()
    } else {
        last_segment(s.drop_last()).push(s.last())
    }
}

/// The file name in a path string: backslashes read as slashes, a leading
/// `./` dropped, then what follows the last slash.
pub open spec fn filename_in(path: Seq<char>) -> Seq<char> {
    let p = replace_char(path, '\\', '/');
    let q = if has_prefix(p, "./"@) {
        p.subrange(2, p.len() as int)
    } else {
        p
    };
    last_segment(q)
}

/// The name an icon is tracked under when its file name is part of it:
/// `name`, `_`, then the file name.
pub fn logical_icon_name(name: &str, filename: &str) -> (r: String)
    ensures
        r@ == name@ + "_"@ + filename@,
{
    let mut r = owned(name);
    r.append("_");
    r.append(filename);
    r
}

/// Adjoining a name without `?` to a path without `?` gives a path
/// without `?`.
proof fn lemma_adjoined_no_verbatim(base: Seq<char>, rel: Seq<char>, r: Seq<char>)
    requires
        no_verbatim(base),
        plain_component(rel),
        adjoined(base, rel, r),
    ensures
        no_verbatim(r),
{
    assert forall|i: int| 0 <= i < r.len() implies r[i] != '?' by {
        if i < base.len() {
            assert(r[i] == base[i]);
        } else if r.len() == base.len() + rel.len() {
            assert(r[i] == rel[i - base.len()]);
        } else if i > base.len() {
            assert(r[i] == rel[i - base.len() - 1]);
        }
    }
}

impl IconFileManager {
    /// The entries as logical name and source path, in order.
    pub closed spec fn source_entries(&self) -> Seq<(Seq<char>, Seq<char>)> {
        self.icon_sources.pairs()
    }

    /// Create a new IconFileManager.
    pub fn new(source_base: &str, dest_base: &str, dest_subdir: &str) -> (r: Self)
        ensures
            r@ == (IconFileManagerView {
                icon_sources: Map::empty(),
                source_base: source_base@,
                dest_base: dest_base@,
                dest_subdir: dest_subdir@,
            }),
            r.source_entries() == Seq::<(Seq<char>, Seq<char>)>::empty(),
    {
        IconFileManager {
            icon_sources: StrMap::new(),
            source_base: owned(source_base),
            dest_base: owned(dest_base),
            dest_subdir: owned(dest_subdir),
        }
    }

    /// Track an icon file for later copying: its source is `relative_path`
    /// joined to the source base.
    pub fn track_icon(&mut self, logical_name: String, relative_path: &str)
        ensures
            tracks(old(self)@, final(self)@, set![logical_name@]),
            joined_from(old(self)@.source_base, relative_path@, final(self)@.icon_sources[logical_name@]),
            sourced_from(old(self)@, final(self)@, set![(logical_name@, relative_path@)], old(self)@.source_base),
    {
        let full_source_path = join_path(self.source_base.as_str(), relative_path);
        let ghost name = logical_name@;
        self.icon_sources.insert(logical_name, full_source_path);
        assert(self@.icon_sources.dom() =~= old(self)@.icon_sources.dom().union(set![name]));
        assert(set![(name, relative_path@)].contains((name, relative_path@)));
    }

    /// Track an icon file with an absolute source path.
    pub fn track_icon_absolute(&mut self, logical_name: String, absolute_path: &str)
        ensures
            final(self)@ == (IconFileManagerView {
                icon_sources: old(self)@.icon_sources.insert(logical_name@, absolute_path@),
                ..old(self)@
            }),
    {
        self.icon_sources.insert(logical_name, owned(absolute_path));
    }

    /// Track an icon at `full_path` exactly when its file is `present`;
    /// otherwise change nothing.
    pub fn track_if_present(&mut self, logical_name: String, full_path: &str, present: bool)
        ensures
            present ==> final(self)@ == (IconFileManagerView {
                icon_sources: old(self)@.icon_sources.insert(logical_name@, full_path@),
                ..old(self)@
            }),
            !present ==> final(self)@ == old(self)@,
    {
        if present {
            self.track_icon_absolute(logical_name, full_path);
        }
    }

    /// Track one icon: relative to the source base when there is no base;
    /// else by its full path under the base (`path` joined to it), when
    /// something exists there, as `track_if_present` decides from what the
    /// disk says of that full path.
    pub fn track_icon_with_base(&mut self, logical_name: String, path: &str, source_base: Option<&str>)
        ensures
            source_base is None ==> tracks(old(self)@, final(self)@, set![logical_name@]) && joined_from(
                old(self)@.source_base,
                path@,
                final(self)@.icon_sources[logical_name@],
            ),
            source_base matches Some(b) ==> final(self)@ == old(self)@ || (tracks(
                old(self)@,
                final(self)@,
                set![logical_name@],
            ) && joined_from(b@, path@, final(self)@.icon_sources[logical_name@])),
            tracks_some(old(self)@, final(self)@, set![logical_name@]),
            sourced_from(old(self)@, final(self)@, set![(logical_name@, path@)], base_or(source_base, old(self)@)),
    {
        let ghost name = logical_name@;
        proof {
            lemma_sourced_nothing(old(self)@, set![(name, path@)], base_or(source_base, old(self)@));
            assert(set![(name, path@)].contains((name, path@)));
        }
        match source_base {
            Some(base) => {
                let full_path = join_path(base, path);
                let present = path_exists(full_path.as_str());
                self.track_if_present(logical_name, full_path.as_str(), present);
                if present {
                    assert(self@.icon_sources.dom() =~= old(self)@.icon_sources.dom().union(set![name]));
                }
            },
            None => {
                self.track_icon(logical_name, path);
            },
        }
        proof {
            if source_base is None {
                lemma_tracks_all_is_some(old(self)@, self@, set![logical_name@], set![logical_name@]);
            }
        }
    }

    /// The directory the icons are copied into: the icon subdirectory of
    /// the destination base (joined by the platform's path rules: where the
    /// subdirectory is a plain name and the base no verbatim path, the base,
    /// maybe a separator, and the subdirectory).
    pub fn dest_dir(&self) -> (r: String)
        ensures
            no_verbatim(self@.dest_base) && plain_component(self@.dest_subdir) ==> adjoined(
                self@.dest_base,
                self@.dest_subdir,
                r@,
            ),
    {
        join_path(self.dest_base.as_str(), self.dest_subdir.as_str())
    }

    /// The destination path for an icon file: `filename` in the icon
    /// subdirectory of the destination base (where the subdirectory and
    /// `filename` are plain names and the base no verbatim path: the base,
    /// the subdirectory and `filename`, each joined maybe by a separator).
    pub fn get_dest_path(&self, filename: &str) -> (r: String)
        ensures
            no_verbatim(self@.dest_base) && plain_component(self@.dest_subdir) && plain_component(filename@)
                ==> exists|d: Seq<char>| #[trigger] adjoined(self@.dest_base, self@.dest_subdir, d) && adjoined(d, filename@, r@),
    {
        let dir = join_path(self.dest_base.as_str(), self.dest_subdir.as_str());
        proof {
            if no_verbatim(self@.dest_base) && plain_component(self@.dest_subdir) {
                lemma_adjoined_no_verbatim(self@.dest_base, self@.dest_subdir, dir@);
            }
        }
        join_path(dir.as_str(), filename)
    }

    /// The relative path for an icon file, for use in theme JSON
    /// (e.g. `./icons/file.svg`).
    pub fn get_relative_path(&self, filename: &str) -> (r: String)
        ensures
            r@ == relative_icon_path(self@.dest_subdir, filename@),
    {
        let mut r = owned("./");
        r.append(self.dest_subdir.as_str());
        r.append("/");
        r.append(filename);
        r
    }

    /// All tracked icon logical names, in the order they were first
    /// tracked.
    pub fn tracked_icons(&self) -> (r: Vec<String>)
        ensures
            r@.len() == self.source_entries().len(),
            forall|i: int| 0 <= i < r@.len() ==> #[trigger] r@[i]@ == self.source_entries()[i].0,
            forall|k: Seq<char>| #[trigger] self@.icon_sources.contains_key(k) <==> exists|i: int|
                0 <= i < r@.len() && r@[i]@ == k,
    {
        let n = self.icon_sources.len();
        let mut r: Vec<String> = Vec::new();
        let mut i: usize = 0;
        while i < n
            invariant
                i <= n,
                n == self.icon_sources.pairs().len(),
                r@.len() == i,
                forall|j: int| 0 <= j < i ==> #[trigger] r@[j]@ == self.icon_sources.pairs()[j].0,
            decreases n - i,
        {
            r.push(self.icon_sources.key_at(i).clone());
            i += 1;
        }
        proof {
            assert forall|k: Seq<char>| #[trigger] self@.icon_sources.contains_key(k) implies exists|i: int|
                0 <= i < r@.len() && r@[i]@ == k by {
                self.icon_sources.lemma_key_in_pairs(k);
                let i = choose|i: int| 0 <= i < self.icon_sources.pairs().len() && #[trigger] self.icon_sources.pairs()[i].0 == k;
                assert(r@[i]@ == k);
            }
        }
        r
    }

    /// The logical names and source paths of the tracked icons, in order.
    pub fn icon_source_entries(&self) -> (r: Vec<(String, String)>)
        ensures
            r@.len() == self.source_entries().len(),
            forall|i: int|
                0 <= i < r@.len() ==> (#[trigger] r@[i].0@, r@[i].1@) == self.source_entries()[i],
    {
        let n = self.icon_sources.len();
        let mut r: Vec<(String, String)> = Vec::new();
        let mut i: usize = 0;
        while i < n
            invariant
                i <= n,
                n == self.icon_sources.pairs().len(),
                r@.len() == i,
                forall|j: int| 0 <= j < i ==> (#[trigger] r@[j].0@, r@[j].1@) == self.icon_sources.pairs()[j],
            decreases n - i,
        {
            r.push((self.icon_sources.key_at(i).clone(), self.icon_sources.value_at(i).clone()));
            i += 1;
        }
        r
    }

    /// Is an icon tracked under `logical_name`?
    pub fn has_icon(&self, logical_name: &str) -> (r: bool)
        ensures
            r == self@.icon_sources.contains_key(logical_name@),
    {
        self.icon_sources.contains_key(logical_name)
    }

    /// The source path of a tracked icon.
    pub fn get_source_path(&self, logical_name: &str) -> (r: Option<&String>)
        ensures
            match r {
                Some(p) => self@.icon_sources.contains_key(logical_name@) && p@ == self@.icon_sources[logical_name@],
                None => !self@.icon_sources.contains_key(logical_name@),
            },
    {
        self.icon_sources.get(logical_name)
    }

    /// The file name in a path string; both forward and backward slashes
    /// separate components. There is always one (possibly empty).
    pub fn extract_filename(path: &str) -> (r: Option<String>)
        ensures
            r.deep_view() == Some(filename_in(path@)),
    {
        let raw = chars_of(path);
        let mut p: Vec<char> = Vec::new();
        let mut i: usize = 0;
        while i < raw.len()
            invariant
                raw@ == path@,
                i <= raw@.len(),
                p@ == replace_char(path@, '\\', '/').subrange(0, i as int),
            decreases raw@.len() - i,
        {
            let c = raw[i];
            p.push(if c == '\\' { '/' } else { c });
            i += 1;
            assert(p@ =~= replace_char(path@, '\\', '/').subrange(0, i as int));
        }
        let ghost full = replace_char(path@, '\\', '/');
        assert(p@ =~= full);
        let start: usize = if p.len() >= 2 && p[0] == '.' && p[1] == '/' {
            assert(full.subrange(0, 2) =~= "./"@) by {
                reveal_strlit("./");
            }
            2
        } else {
            proof {
                reveal_strlit("./");
                if has_prefix(full, "./"@) {
                    assert(full.subrange(0, 2)[0] == '.');
                    assert(full.subrange(0, 2)[1] == '/');
                }
            }
            0
        };
        let ghost q = full.subrange(start as int, full.len() as int);
        assert(q == if has_prefix(full, "./"@) {
            full.subrange(2, full.len() as int)
        } else {
            full
        }) by {
            reveal_strlit("./");
            if start == 0 {
                assert(q =~= full);
            }
        }
        assert(full.subrange(start as int, p@.len() as int) == q);
        // Find where the last segment starts.
        let mut j: usize = p.len();
        while j > start && p[j - 1] != '/'
            invariant
                p@ == full,
                start <= j <= p@.len(),
                forall|k: int| j <= k < p@.len() ==> p@[k] != '/',
                q == full.subrange(start as int, full.len() as int),
                last_segment(q) == last_segment(full.subrange(start as int, j as int)) + p@.subrange(
                    j as int,
                    p@.len() as int,
                ),
            decreases j,
        {
            proof {
                let qs = full.subrange(start as int, j as int);
                assert(qs.drop_last() =~= full.subrange(start as int, j - 1));
                assert(qs.last() == p@[j - 1]);
                assert(p@.subrange(j - 1, p@.len() as int) =~= seq![p@[j - 1]] + p@.subrange(j as int, p@.len() as int));
            }
            j -= 1;
        }
        proof {
            let qs = full.subrange(start as int, j as int);
            if j > start {
                assert(qs.last() == '/');
            } else {
                assert(qs.len() == 0);
            }
            assert(last_segment(qs) == Seq::<char>::empty());
            assert(Seq::<char>::empty() + p@.subrange(j as int, p@.len() as int) =~= p@.subrange(j as int, p@.len() as int));
        }
        let r = string_of_range(p.as_slice(), j, p.len());
        Some(r)
    }

    /// The new place of each icon path once the icons are copied: every
    /// path maps to the relative path of its file name in the icon
    /// subdirectory.
    pub fn relocation_mapping(&self, paths: &[String]) -> (r: StrMap<String>)
        ensures
            forall|p: Seq<char>| #[trigger] r@.contains_key(p) <==> paths.deep_view().contains(p),
            forall|p: Seq<char>|
                #[trigger] r@.contains_key(p) ==> r@[p] == relative_icon_path(self@.dest_subdir, filename_in(p)),
    {
        let ghost ps = paths.deep_view();
        let mut mapping: StrMap<String> = StrMap::new();
        let mut i: usize = 0;
        while i < paths.len()
            invariant
                i <= paths@.len(),
                ps == paths.deep_view(),
                forall|p: Seq<char>| #[trigger] mapping@.contains_key(p) <==> ps.subrange(0, i as int).contains(p),
                forall|p: Seq<char>|
                    #[trigger] mapping@.contains_key(p) ==> mapping@[p] == relative_icon_path(
                        self@.dest_subdir,
                        filename_in(p),
                    ),
            decreases paths@.len() - i,
        {
            let path = &paths[i];
            assert(path@ == ps[i as int]);
            if let Some(filename) = IconFileManager::extract_filename(path.as_str()) {
                let new_path = self.get_relative_path(filename.as_str());
                mapping.insert(path.clone(), new_path);
            }
            assert forall|p: Seq<char>| #[trigger] mapping@.contains_key(p) <==> ps.subrange(0, i + 1).contains(p) by {
                assert(ps.subrange(0, i + 1) =~= ps.subrange(0, i as int).push(ps[i as int]));
                if ps.subrange(0, i as int).contains(p) {
                    let j = choose|j: int| 0 <= j < i && #[trigger] ps.subrange(0, i as int)[j] == p;
                    assert(ps.subrange(0, i + 1)[j] == p);
                }
                if ps.subrange(0, i + 1).contains(p) && p != ps[i as int] {
                    let j = choose|j: int| 0 <= j < i + 1 && #[trigger] ps.subrange(0, i + 1)[j] == p;
                    assert(ps.subrange(0, i as int)[j] == p);
                }
                if p == ps[i as int] {
                    assert(ps.subrange(0, i + 1)[i as int] == p);
                }
            }
            i += 1;
        }
        assert(ps.subrange(0, ps.len() as int) =~= ps);
        mapping
    }

    /// A mapping from the theme-JSON relative path of each tracked icon's
    /// file to its logical name. Every key is such a relative path, and
    /// every value a tracked name. Where a source path's file name reads the
    /// same on every platform, the relative path of that file name is a key,
    /// and a key that a name maps from is the relative path of that name's
    /// file (of icons whose files share a name, the one tracked last wins).
    pub fn create_path_to_name_mapping(&self) -> (r: StrMap<String>)
        ensures
            forall|k: Seq<char>| #[trigger] r@.contains_key(k) ==> self@.icon_sources.contains_key(r@[k])
                && exists|f: Seq<char>| k == relative_icon_path(self@.dest_subdir, f),
            forall|k: Seq<char>|
                #[trigger] r@.contains_key(k) && plain_final(self@.icon_sources[r@[k]]) ==> k == relative_icon_path(
                    self@.dest_subdir,
                    after_last(self@.icon_sources[r@[k]], '/'),
                ),
            forall|name: Seq<char>|
                #[trigger] self@.icon_sources.contains_key(name) && plain_final(self@.icon_sources[name])
                    ==> r@.contains_key(relative_icon_path(self@.dest_subdir, after_last(self@.icon_sources[name], '/'))),
    {
        let mut mapping: StrMap<String> = StrMap::new();
        let n = self.icon_sources.len();
        let mut i: usize = 0;
        while i < n
            invariant
                i <= n,
                n == self.icon_sources.pairs().len(),
                forall|j: int|
                    0 <= j < n ==> self@.icon_sources.contains_key(#[trigger] self.icon_sources.pairs()[j].0)
                        && self@.icon_sources[self.icon_sources.pairs()[j].0] == self.icon_sources.pairs()[j].1,
                forall|k: Seq<char>| #[trigger] mapping@.contains_key(k) ==> self@.icon_sources.contains_key(
                    mapping@[k],
                ) && exists|f: Seq<char>| k == relative_icon_path(self@.dest_subdir, f),
                forall|k: Seq<char>|
                    #[trigger] mapping@.contains_key(k) && plain_final(self@.icon_sources[mapping@[k]]) ==> k
                        == relative_icon_path(self@.dest_subdir, after_last(self@.icon_sources[mapping@[k]], '/')),
                forall|j: int|
                    0 <= j < i && plain_final(#[trigger] self.icon_sources.pairs()[j].1) ==> mapping@.contains_key(
                        relative_icon_path(self@.dest_subdir, after_last(self.icon_sources.pairs()[j].1, '/')),
                    ),
            decreases n - i,
        {
            let logical_name = self.icon_sources.key_at(i);
            let ghost before = mapping@;
            if let Some(filename) = file_name(self.icon_sources.value_at(i).as_str()) {
                let relative_path = self.get_relative_path(filename.as_str());
                mapping.insert(relative_path, logical_name.clone());
                proof {
                    let src = self.icon_sources.pairs()[i as int].1;
                    assert(self@.icon_sources[logical_name@] == src);
                    assert forall|j: int|
                        0 <= j < i + 1 && plain_final(#[trigger] self.icon_sources.pairs()[j].1) implies mapping@.contains_key(
                        relative_icon_path(self@.dest_subdir, after_last(self.icon_sources.pairs()[j].1, '/')),
                    ) by {
                        if j < i {
                            assert(before.contains_key(
                                relative_icon_path(self@.dest_subdir, after_last(self.icon_sources.pairs()[j].1, '/')),
                            ));
                        }
                    }
                }
            }
            i += 1;
        }
        proof {
            assert forall|name: Seq<char>|
                #[trigger] self@.icon_sources.contains_key(name) && plain_final(self@.icon_sources[name])
                    implies mapping@.contains_key(relative_icon_path(self@.dest_subdir, after_last(self@.icon_sources[name], '/'))) by {
                self.icon_sources.lemma_key_in_pairs(name);
                let j = choose|j: int| 0 <= j < self.icon_sources.pairs().len() && #[trigger] self.icon_sources.pairs()[j].0 == name;
                assert(self@.icon_sources[name] == self.icon_sources.pairs()[j].1);
            }
        }
        mapping
    }
}

} // verus!
