//! In-memory index of the files under the image roots, keyed by file name.
//!
//! The walk of the file system is done by the caller, which hands each file
//! and each directory listing to the tree; the tree only indexes.
use vstd::prelude::*;
use vstd::hash_map::StringHashMap;
use crate::paths::{basename, file_name_of, is_separator};
use crate::text::chars_of;
use crate::text::{decimal, ends_with, has_suffix, push_decimal, push_text, str_eq};

verus! {

/// Directory names that a scan never enters: calibration frames, version
/// control and build output.
pub open spec fn excluded_dir_name(name: Seq<char>) -> bool {
    name == "DARK"@ || name == "FLAT"@ || name == "BIAS"@ || name == ".git"@
        || name == "node_modules"@ || name == "target"@ || name == ".cache"@
}

/// Whether a directory of this name is skipped by a scan.
pub fn is_excluded_directory(name: &str) -> (r: bool)
    ensures
        r == excluded_dir_name(name@),
{
    str_eq(name, "DARK") || str_eq(name, "FLAT") || str_eq(name, "BIAS") || str_eq(name, ".git")
        || str_eq(name, "node_modules") || str_eq(name, "target") || str_eq(name, ".cache")
}

/// Whether `p[i..j]` is a whole directory component of `p`: it starts the
/// path or follows a separator, holds no separator, and a separator follows.
pub open spec fn dir_component(p: Seq<char>, i: int, j: int) -> bool {
    0 <= i <= j < p.len() && is_separator(p[j]) && (i == 0 || is_separator(p[i - 1]))
        && forall|k: int| i <= k < j ==> !is_separator(p[k])
}

/// Whether a path, relative to its image root, lies inside a directory that
/// scans skip.
pub open spec fn under_excluded(p: Seq<char>) -> bool {
    exists|i: int, j: int| #[trigger] dir_component(p, i, j) && excluded_dir_name(p.subrange(i, j))
}

/// Whether a file, given by its path relative to its image root, lies inside
/// a directory that scans skip.
pub fn in_excluded_directory(relative_path: &str) -> (r: bool)
    ensures
        r == under_excluded(relative_path@),
{
    let cs = chars_of(relative_path);
    let ghost p = relative_path@;
    let mut start: usize = 0;
    let mut j: usize = 0;
    while j < cs.len()
        invariant
            cs@ == p,
            p == relative_path@,
            start <= j <= cs@.len(),
            start == 0 || is_separator(p[start - 1]),
            forall|k: int| start <= k < j ==> !is_separator(p[k]),
            forall|a: int, b: int| #[trigger] dir_component(p, a, b) && b < j ==> !excluded_dir_name(p.subrange(a, b)),
        decreases cs@.len() - j,
    {
        if cs[j] == '/' || cs[j] == '\\' {
            let mut part = String::new();
            let mut k: usize = start;
            while k < j
                invariant
                    cs@ == p,
                    start <= k <= j < cs@.len(),
                    part@ == p.subrange(start as int, k as int),
                decreases j - k,
            {
                part.push(cs[k]);
                assert(part@ =~= p.subrange(start as int, k + 1));
                k = k + 1;
            }
            assert(dir_component(p, start as int, j as int));
            if is_excluded_directory(part.as_str()) {
                assert(dir_component(p, start as int, j as int) && excluded_dir_name(
                    p.subrange(start as int, j as int),
                ));
                return true;
            }
            assert forall|a: int, b: int| #[trigger] dir_component(p, a, b) && b < j + 1 implies !excluded_dir_name(p.subrange(a, b)) by {
                if b == j {
                    if a < start {
                        assert(!is_separator(p[start - 1]));
                    } else if a > start {
                        assert(!is_separator(p[a - 1]));
                    }
                }
            }
            start = j + 1;
        } else {
            assert forall|a: int, b: int| #[trigger] dir_component(p, a, b) && b < j + 1 implies !excluded_dir_name(p.subrange(a, b)) by {
                if b == j {
                    assert(is_separator(p[j as int]));
                }
            }
        }
        j = j + 1;
    }
    false
}

/// File-name endings taken as FITS images.
pub open spec fn is_fits_name(name: Seq<char>) -> bool {
    has_suffix(name, ".fits"@) || has_suffix(name, ".fit"@) || has_suffix(name, ".FIT"@)
        || has_suffix(name, ".FITS"@) || has_suffix(name, ".fts"@)
}

/// Whether a file name has one of the FITS endings.
pub fn is_fits_file_name(name: &str) -> (r: bool)
    ensures
        r == is_fits_name(name@),
{
    ends_with(name, ".fits") || ends_with(name, ".fit") || ends_with(name, ".FIT")
        || ends_with(name, ".FITS") || ends_with(name, ".fts")
}

/// Number of paths listed under the given names.
pub open spec fn total_paths(names: Seq<String>, m: Map<Seq<char>, Vec<String>>) -> int
    decreases names.len(),
{
    if names.len() == 0 {
        0
    } else {
        total_paths(names.drop_last(), m) + m[names.last()@]@.len()
    }
}

/// Paths listed under those of the given names that end like a FITS file.
pub open spec fn fits_paths(names: Seq<String>, m: Map<Seq<char>, Vec<String>>) -> Seq<String>
    decreases names.len(),
{
    if names.len() == 0 {
        Seq::empty()
    } else if is_fits_name(names.last()@) {
        fits_paths(names.drop_last(), m) + m[names.last()@]@
    } else {
        fits_paths(names.drop_last(), m)
    }
}

proof fn lemma_total_paths_other_key(
    names: Seq<String>,
    m: Map<Seq<char>, Vec<String>>,
    k: Seq<char>,
    v: Vec<String>,
)
    requires
        forall|i: int| 0 <= i < names.len() ==> names[i]@ != k,
    ensures
        total_paths(names, m.insert(k, v)) == total_paths(names, m),
    decreases names.len(),
{
    if names.len() > 0 {
        lemma_total_paths_other_key(names.drop_last(), m, k, v);
    }
}

proof fn lemma_total_paths_grow_key(
    names: Seq<String>,
    m: Map<Seq<char>, Vec<String>>,
    i: int,
    v: Vec<String>,
)
    requires
        0 <= i < names.len(),
        forall|a: int, b: int| 0 <= a < b < names.len() ==> names[a]@ != names[b]@,
        v@.len() == m[names[i]@]@.len() + 1,
    ensures
        total_paths(names, m.insert(names[i]@, v)) == total_paths(names, m) + 1,
    decreases names.len(),
{
    let k = names[i]@;
    if i == names.len() - 1 {
        assert forall|j: int| 0 <= j < names.drop_last().len() implies names.drop_last()[j]@ != k by {
            assert(names[j]@ != names[i]@);
        }
        lemma_total_paths_other_key(names.drop_last(), m, k, v);
    } else {
        lemma_total_paths_grow_key(names.drop_last(), m, i, v);
        assert(names.last()@ != k);
    }
}

/// The paths of `files` by file name, each list in scan order.
pub open spec fn index_of(files: Seq<String>) -> Map<Seq<char>, Seq<String>>
    decreases files.len(),
{
    if files.len() == 0 {
        Map::empty()
    } else {
        let before = index_of(files.drop_last());
        let b = basename(files.last()@);
        before.insert(
            b,
            if before.contains_key(b) { before[b].push(files.last()) } else { seq![files.last()] },
        )
    }
}

/// Whether `f`, called on some text holding `name`, may answer `b`.
pub open spec fn answered<F: Fn(&str) -> bool>(f: F, name: Seq<char>, b: bool) -> bool {
    exists|s: &str| s@ == name && f.ensures((s,), b)
}

/// Paths listed under the names whose pick is `true`, name by name.
pub open spec fn picked_paths(names: Seq<String>, m: Map<Seq<char>, Vec<String>>, picked: Seq<bool>) -> Seq<String>
    decreases names.len(),
{
    if names.len() == 0 {
        Seq::empty()
    } else if picked.len() > 0 && picked.last() {
        picked_paths(names.drop_last(), m, picked.drop_last()) + m[names.last()@]@
    } else {
        picked_paths(names.drop_last(), m, picked.drop_last())
    }
}

/// The characters of each name.
pub open spec fn name_views(names: Seq<String>) -> Seq<Seq<char>> {
    names.map_values(|s: String| s@)
}

/// File names of `files`, each once, in the order in which they first occur.
pub open spec fn first_seen_names(files: Seq<String>) -> Seq<Seq<char>>
    decreases files.len(),
{
    if files.len() == 0 {
        Seq::empty()
    } else {
        let before = first_seen_names(files.drop_last());
        let b = basename(files.last()@);
        if before.contains(b) { before } else { before.push(b) }
    }
}

/// Snapshot of the image roots: every file by name, and every directory's
/// direct children.
pub struct DirectoryTree {
    file_map: StringHashMap<Vec<String>>,
    filenames: Vec<String>,
    dir_map: StringHashMap<Vec<String>>,
    file_count: usize,
    created_at: u64,
    roots: Vec<String>,
}

impl DirectoryTree {
    /// Paths indexed under each file name.
    pub closed spec fn files(&self) -> Map<Seq<char>, Vec<String>> {
        self.file_map@
    }

    /// The indexed file names, in the order in which they were first seen.
    pub closed spec fn names(&self) -> Seq<String> {
        self.filenames@
    }

    /// Children recorded for each scanned directory.
    pub closed spec fn directories(&self) -> Map<Seq<char>, Vec<String>> {
        self.dir_map@
    }

    /// Number of files indexed.
    pub closed spec fn file_total(&self) -> nat {
        self.file_count as nat
    }

    /// The clock reading, in seconds, at which the tree was started.
    pub closed spec fn created(&self) -> u64 {
        self.created_at
    }

    /// The roots the tree was built from.
    pub closed spec fn root_list(&self) -> Seq<String> {
        self.roots@
    }

    /// Every listed path carries the file name it is listed under, every name
    /// has at least one path, the name list holds each key once, and the file
    /// count is the number of listed paths.
    pub closed spec fn wf(&self) -> bool {
        &&& forall|i: int|
            0 <= i < self.filenames@.len() ==> #[trigger] self.file_map@.contains_key(
                self.filenames@[i]@,
            )
        &&& forall|a: int, b: int|
            0 <= a < b < self.filenames@.len() ==> self.filenames@[a]@ != self.filenames@[b]@
        &&& forall|k: Seq<char>|
            #[trigger] self.file_map@.contains_key(k) ==> exists|i: int|
                0 <= i < self.filenames@.len() && self.filenames@[i]@ == k
        &&& forall|k: Seq<char>|
            #[trigger] self.file_map@.contains_key(k) ==> self.file_map@[k]@.len() > 0
        &&& forall|k: Seq<char>, j: int|
            self.file_map@.contains_key(k) && 0 <= j < self.file_map@[k]@.len() ==> basename(
                #[trigger] self.file_map@[k]@[j]@,
            ) == k
        &&& self.file_count == total_paths(self.filenames@, self.file_map@)
    }

    /// An empty tree over the given roots, started at clock reading `now`.
    pub fn new(roots: Vec<String>, now: u64) -> (r: Self)
        ensures
            r.wf(),
            r.files() == Map::<Seq<char>, Vec<String>>::empty(),
            r.names().len() == 0,
            r.directories() == Map::<Seq<char>, Vec<String>>::empty(),
            r.file_total() == 0,
            r.created() == now,
            r.root_list() == roots@,
    {
        DirectoryTree {
            file_map: StringHashMap::new(),
            filenames: Vec::new(),
            dir_map: StringHashMap::new(),
            file_count: 0,
            created_at: now,
            roots,
        }
    }

    proof fn lemma_names_distinct(&self)
        requires
            self.wf(),
        ensures
            forall|a: int, b: int| 0 <= a < b < self.names().len() ==> self.names()[a]@ != self.names()[b]@,
    {
    }

    /// Whether the tree indexes exactly the given files.
    pub open spec fn indexes(&self, files: Seq<String>) -> bool {
        &&& forall|k: Seq<char>| #[trigger] self.files().contains_key(k) == index_of(files).contains_key(k)
        &&& forall|k: Seq<char>| #[trigger] self.files().contains_key(k) ==> self.files()[k]@ == index_of(files)[k]
        &&& self.file_total() == files.len()
    }

    /// A tree over `roots`, started at clock reading `now`, indexing the
    /// files a scan found, in scan order.
    pub fn build(roots: Vec<String>, now: u64, files: Vec<String>) -> (r: Self)
        requires
            files@.len() < usize::MAX,
        ensures
            r.wf(),
            r.indexes(files@),
            name_views(r.names()) == first_seen_names(files@),
            forall|a: int, b: int| 0 <= a < b < r.names().len() ==> r.names()[a]@ != r.names()[b]@,
            forall|k: Seq<char>| #[trigger] r.files().contains_key(k) <==> name_views(r.names()).contains(k),
            r.created() == now,
            r.root_list() == roots@,
            r.directories() == Map::<Seq<char>, Vec<String>>::empty(),
    {
        let mut tree = DirectoryTree::new(roots, now);
        let mut i: usize = 0;
        let n = files.len();
        while i < n
            invariant
                n == files@.len() < usize::MAX,
                i <= n,
                tree.wf(),
                tree.indexes(files@.subrange(0, i as int)),
                name_views(tree.names()) == first_seen_names(files@.subrange(0, i as int)),
                forall|k: Seq<char>| #[trigger] tree.files().contains_key(k) <==> first_seen_names(files@.subrange(0, i as int)).contains(k),
                tree.created() == now,
                tree.root_list() == roots@,
                tree.directories() == Map::<Seq<char>, Vec<String>>::empty(),
            decreases n - i,
        {
            let ghost before = files@.subrange(0, i as int);
            assert(files@.subrange(0, i + 1).drop_last() =~= before);
            assert(files@.subrange(0, i + 1).last() == files@[i as int]);
            let ghost cur = files@.subrange(0, i + 1);
            let ghost old_files = tree.files();
            let path = files[i].clone();
            let ghost b = basename(path@);
            tree.add_file(path);
            proof {
                assert forall|kk: Seq<char>| #[trigger] tree.files().contains_key(kk) <==> first_seen_names(cur).contains(kk) by {
                    if kk != b {
                        assert(old_files.contains_key(kk) <==> first_seen_names(before).contains(kk));
                        if first_seen_names(cur).contains(kk) {
                            let j = choose|j: int| 0 <= j < first_seen_names(cur).len() && first_seen_names(cur)[j] == kk;
                            if !first_seen_names(before).contains(b) {
                                assert(j < first_seen_names(before).len());
                                assert(first_seen_names(before)[j] == kk);
                            }
                        }
                        if first_seen_names(before).contains(kk) && !first_seen_names(before).contains(b) {
                            let j = choose|j: int| 0 <= j < first_seen_names(before).len() && first_seen_names(before)[j] == kk;
                            assert(first_seen_names(cur)[j] == kk);
                        }
                    } else {
                        if !first_seen_names(before).contains(b) {
                            assert(first_seen_names(cur)[first_seen_names(cur).len() - 1] == b);
                        }
                    }
                }
                assert(index_of(cur) == index_of(before).insert(
                    b,
                    if index_of(before).contains_key(b) {
                        index_of(before)[b].push(files@[i as int])
                    } else {
                        seq![files@[i as int]]
                    },
                ));
                assert forall|k: Seq<char>| #[trigger] tree.files().contains_key(k) == index_of(cur).contains_key(k) by {
                    if k != b {
                        assert(old_files.contains_key(k) == index_of(before).contains_key(k));
                    }
                }
                assert forall|k: Seq<char>| #[trigger] tree.files().contains_key(k) implies tree.files()[k]@ == index_of(cur)[k] by {
                    if k != b {
                        assert(old_files.contains_key(k));
                        assert(old_files[k]@ == index_of(before)[k]);
                    } else if old_files.contains_key(b) {
                        assert(old_files[b]@ == index_of(before)[b]);
                    }
                }
            }
            i = i + 1;
        }
        assert(files@.subrange(0, n as int) =~= files@);
        proof {
            tree.lemma_names_distinct();
        }
        tree
    }

    /// Indexes one file found by the scan under its file name.
    pub fn add_file(&mut self, path: String)
        requires
            old(self).wf(),
            old(self).file_total() < usize::MAX,
        ensures
            final(self).wf(),
            final(self).files().contains_key(basename(path@)),
            final(self).files()[basename(path@)]@ == (if old(self).files().contains_key(basename(path@)) {
                old(self).files()[basename(path@)]@.push(path)
            } else {
                seq![path]
            }),
            forall|k: Seq<char>| k != basename(path@) ==> (final(self).files().contains_key(k)
                == old(self).files().contains_key(k)) && (old(self).files().contains_key(k)
                ==> final(self).files()[k] == old(self).files()[k]),
            final(self).file_total() == old(self).file_total() + 1,
            name_views(final(self).names()) == if old(self).files().contains_key(basename(path@)) {
                name_views(old(self).names())
            } else {
                name_views(old(self).names()).push(basename(path@))
            },
            final(self).directories() == old(self).directories(),
            final(self).created() == old(self).created(),
            final(self).root_list() == old(self).root_list(),
    {
        let name = file_name_of(path.as_str());
        let ghost old_names = self.filenames@;
        let ghost old_map = self.file_map@;
        let mut list: Vec<String> = Vec::new();
        let present = match self.file_map.get(name.as_str()) {
            Some(v) => {
                list = copy_paths(v);
                true
            },
            None => false,
        };
        list.push(path);
        let ghost k = name@;
        if present {
            proof {
                let i = choose|i: int| 0 <= i < old_names.len() && old_names[i]@ == k;
                lemma_total_paths_grow_key(old_names, old_map, i, list);
            }
            self.file_map.insert(name, list);
        } else {
            let key = name.clone();
            self.file_map.insert(name, list);
            self.filenames.push(key);
            proof {
                assert forall|i: int| 0 <= i < old_names.len() implies old_names[i]@ != k by {
                    assert(old_map.contains_key(old_names[i]@));
                }
                lemma_total_paths_other_key(old_names, old_map, k, list);
                assert(self.filenames@.drop_last() =~= old_names);
                assert(name_views(self.filenames@) =~= name_views(old_names).push(k));
            }
        }
        self.file_count = self.file_count + 1;
        proof {
            assert forall|kk: Seq<char>| #[trigger] self.file_map@.contains_key(kk) implies exists|i: int|
                0 <= i < self.filenames@.len() && self.filenames@[i]@ == kk by {
                if kk == k {
                    if !present {
                        assert(self.filenames@[self.filenames@.len() - 1]@ == kk);
                    } else {
                        let i = choose|i: int| 0 <= i < old_names.len() && old_names[i]@ == k;
                        assert(self.filenames@[i] == old_names[i]);
                    }
                } else {
                    let i = choose|i: int| 0 <= i < old_names.len() && old_names[i]@ == kk;
                    assert(self.filenames@[i] == old_names[i]);
                }
            }
            assert(self.file_map@ =~= old_map.insert(k, self.file_map@[k]));
        }
    }

    /// Records the direct children of a scanned directory.
    pub fn add_directory(&mut self, dir: String, children: Vec<String>)
        requires
            old(self).wf(),
        ensures
            final(self).wf(),
            final(self).directories() == old(self).directories().insert(dir@, children),
            final(self).files() == old(self).files(),
            final(self).names() == old(self).names(),
            final(self).file_total() == old(self).file_total(),
            final(self).created() == old(self).created(),
            final(self).root_list() == old(self).root_list(),
    {
        let ghost before = *self;
        self.dir_map.insert(dir, children);
        assert(self.file_map@ == before.file_map@ && self.filenames@ == before.filenames@);
    }

    /// All paths indexed under a file name.
    pub fn find_file(&self, filename: &str) -> (r: Option<&Vec<String>>)
        ensures
            match r {
                Some(v) => self.files().contains_key(filename@) && *v == self.files()[filename@],
                None => !self.files().contains_key(filename@),
            },
    {
        self.file_map.get(filename)
    }

    /// The first path indexed under a file name; it may no longer exist on disk.
    pub fn find_file_first(&self, filename: &str) -> (r: Option<&String>)
        requires
            self.wf(),
        ensures
            match r {
                Some(p) => self.files().contains_key(filename@) && *p == self.files()[filename@]@[0],
                None => !self.files().contains_key(filename@),
            },
    {
        match self.file_map.get(filename) {
            Some(v) => Some(&v[0]),
            None => None,
        }
    }

    /// Every indexed path whose file name ends like a FITS file.
    pub fn get_fits_files(&self) -> (r: Vec<String>)
        requires
            self.wf(),
        ensures
            r@ == fits_paths(self.names(), self.files()),
    {
        let mut r: Vec<String> = Vec::new();
        let mut i: usize = 0;
        while i < self.filenames.len()
            invariant
                self.wf(),
                i <= self.filenames@.len(),
                r@ == fits_paths(self.filenames@.subrange(0, i as int), self.file_map@),
            decreases self.filenames@.len() - i,
        {
            let name = &self.filenames[i];
            assert(self.filenames@.subrange(0, i + 1).drop_last() =~= self.filenames@.subrange(
                0,
                i as int,
            ));
            if is_fits_file_name(name.as_str()) {
                assert(self.file_map@.contains_key(self.filenames@[i as int]@));
                match self.file_map.get(name.as_str()) {
                    Some(v) => {
                        let more = copy_paths(v);
                        let mut more = more;
                        r.append(&mut more);
                    },
                    None => {},
                }
            }
            i = i + 1;
        }
        assert(self.filenames@.subrange(0, i as int) =~= self.filenames@);
        r
    }

    /// Every indexed path whose file name the predicate accepts, name by name
    /// in the order the names were first seen.
    pub fn find_files_matching<F: Fn(&str) -> bool>(&self, predicate: F) -> (r: Vec<String>)
        requires
            self.wf(),
            forall|s: &str| #[trigger] predicate.requires((s,)),
        ensures
            exists|picked: Seq<bool>|
                picked.len() == self.names().len() && (forall|i: int|
                    0 <= i < picked.len() ==> #[trigger] answered(predicate, self.names()[i]@, picked[i]))
                    && r@ == picked_paths(self.names(), self.files(), picked),
    {
        let mut r: Vec<String> = Vec::new();
        let ghost mut picked: Seq<bool> = Seq::empty();
        let mut i: usize = 0;
        while i < self.filenames.len()
            invariant
                self.wf(),
                forall|s: &str| #[trigger] predicate.requires((s,)),
                i <= self.filenames@.len(),
                picked.len() == i,
                forall|j: int| 0 <= j < i ==> #[trigger] answered(predicate, self.filenames@[j]@, picked[j]),
                r@ == picked_paths(self.filenames@.subrange(0, i as int), self.file_map@, picked),
            decreases self.filenames@.len() - i,
        {
            let name = &self.filenames[i];
            let text = name.as_str();
            let keep = predicate(text);
            proof {
                assert(answered(predicate, self.filenames@[i as int]@, keep));
                assert(self.filenames@.subrange(0, i + 1).drop_last() =~= self.filenames@.subrange(0, i as int));
                assert(picked.push(keep).drop_last() =~= picked);
                picked = picked.push(keep);
            }
            if keep {
                assert(self.file_map@.contains_key(self.filenames@[i as int]@));
                match self.file_map.get(name.as_str()) {
                    Some(v) => {
                        let mut more = copy_paths(v);
                        r.append(&mut more);
                    },
                    None => {},
                }
            }
            i = i + 1;
        }
        assert(self.filenames@.subrange(0, i as int) =~= self.filenames@);
        assert(picked.len() == self.names().len() && (forall|j: int|
            0 <= j < picked.len() ==> #[trigger] answered(predicate, self.names()[j]@, picked[j]))
            && r@ == picked_paths(self.names(), self.files(), picked));
        r
    }

    /// The children recorded for a directory.
    pub fn get_directory_contents(&self, dir: &str) -> (r: Option<&Vec<String>>)
        ensures
            match r {
                Some(v) => self.directories().contains_key(dir@) && *v == self.directories()[dir@],
                None => !self.directories().contains_key(dir@),
            },
    {
        self.dir_map.get(dir)
    }

    /// Every indexed file name, each once.
    pub fn get_all_filenames(&self) -> (r: Vec<String>)
        ensures
            r@ == self.names(),
    {
        copy_paths(&self.filenames)
    }

    /// Counts of the tree and its age at clock reading `now` (zero if the
    /// clock reads earlier than the build).
    pub fn stats(&self, now: u64) -> (r: DirectoryTreeStats)
        ensures
            r.total_files == self.file_total(),
            r.unique_filenames == self.names().len(),
            r.total_directories == self.directories().len(),
            r.age_secs == elapsed_secs(self.created(), now),
            r.roots@ == self.root_list(),
    {
        DirectoryTreeStats {
            total_files: self.file_count,
            unique_filenames: self.filenames.len(),
            total_directories: self.dir_map.len(),
            age_secs: if now >= self.created_at { now - self.created_at } else { 0 },
            roots: copy_paths(&self.roots),
        }
    }

    /// Whether the tree's age at clock reading `now` exceeds `max_age_secs`.
    pub fn is_older_than(&self, now: u64, max_age_secs: u64) -> (r: bool)
        ensures
            r == (elapsed_secs(self.created(), now) > max_age_secs),
    {
        let age = if now >= self.created_at { now - self.created_at } else { 0 };
        age > max_age_secs
    }
}

/// Seconds from `start` to `now`, zero when the clock reads earlier.
pub open spec fn elapsed_secs(start: u64, now: u64) -> u64 {
    if now >= start { (now - start) as u64 } else { 0 }
}

/// A copy of a list of strings.
pub fn copy_paths(v: &Vec<String>) -> (r: Vec<String>)
    ensures
        r@ == v@,
{
    let mut r: Vec<String> = Vec::new();
    let mut i: usize = 0;
    while i < v.len()
        invariant
            i <= v@.len(),
            r@ == v@.subrange(0, i as int),
        decreases v@.len() - i,
    {
        r.push(v[i].clone());
        assert(r@ =~= v@.subrange(0, i + 1));
        i = i + 1;
    }
    assert(r@ =~= v@);
    r
}

/// Counts describing a directory tree.
pub struct DirectoryTreeStats {
    pub total_files: usize,
    pub unique_filenames: usize,
    pub total_directories: usize,
    pub age_secs: u64,
    pub roots: Vec<String>,
}

/// Age in the shortest of three forms: seconds, minutes and seconds, or
/// hours and minutes.
pub open spec fn age_text(secs: nat) -> Seq<char> {
    if secs < 60 {
        decimal(secs) + "s"@
    } else if secs < 3600 {
        decimal(secs / 60) + "m"@ + decimal(secs % 60) + "s"@
    } else {
        decimal(secs / 3600) + "h"@ + decimal((secs % 3600) / 60) + "m"@
    }
}

impl DirectoryTreeStats {
    /// The tree's age as text, such as `45s`, `2m5s` or `3h12m`.
    pub fn format_age(&self) -> (r: String)
        ensures
            r@ == age_text(self.age_secs as nat),
    {
        let secs = self.age_secs;
        let mut r = String::new();
        if secs < 60 {
            push_decimal(&mut r, secs);
            push_text(&mut r, "s");
        } else if secs < 3600 {
            push_decimal(&mut r, secs / 60);
            push_text(&mut r, "m");
            push_decimal(&mut r, secs % 60);
            push_text(&mut r, "s");
        } else {
            push_decimal(&mut r, secs / 3600);
            push_text(&mut r, "h");
            push_decimal(&mut r, (secs % 3600) / 60);
            push_text(&mut r, "m");
        }
        assert(r@ =~= age_text(secs as nat));
        r
    }
}

/// How long a built tree is served before it is rebuilt, in seconds.
pub const TREE_LIFETIME_SECS: u64 = 300;

/// The one current directory tree, if any. A rebuilt tree replaces the old
/// one in a single assignment, so a reader sees the old tree or the new one.
pub struct DirectoryTreeSlot {
    pub tree: Option<DirectoryTree>,
}

impl DirectoryTreeSlot {
    /// No tree yet.
    pub fn new() -> (r: Self)
        ensures
            r.tree is None,
    {
        DirectoryTreeSlot { tree: None }
    }

    /// Whether the tree must be built before use at clock reading `now`:
    /// there is none, or it is older than `max_age_secs`.
    pub fn needs_rebuild(&self, now: u64, max_age_secs: u64) -> (r: bool)
        ensures
            r == match self.tree {
                Some(t) => elapsed_secs(t.created(), now) > max_age_secs,
                None => true,
            },
    {
        match &self.tree {
            Some(t) => t.is_older_than(now, max_age_secs),
            None => true,
        }
    }

    /// The tree to use at clock reading `now` if it is fresh enough.
    pub fn fresh(&self, now: u64, max_age_secs: u64) -> (r: Option<&DirectoryTree>)
        ensures
            match r {
                Some(t) => self.tree == Some(*t) && elapsed_secs(t.created(), now) <= max_age_secs,
                None => self.tree matches Some(t) ==> elapsed_secs(t.created(), now) > max_age_secs,
            },
    {
        match &self.tree {
            Some(t) => {
                if t.is_older_than(now, max_age_secs) {
                    None
                } else {
                    Some(t)
                }
            },
            None => None,
        }
    }

    /// Installs a newly built tree in place of the old one.
    pub fn publish(&mut self, tree: DirectoryTree)
        ensures
            final(self).tree == Some(tree),
    {
        self.tree = Some(tree);
    }

    /// Drops the tree, so that the next use rebuilds it.
    pub fn clear(&mut self)
        ensures
            final(self).tree is None,
    {
        self.tree = None;
    }

    /// Counts of the current tree at clock reading `now`, if there is one.
    pub fn stats(&self, now: u64) -> (r: Option<DirectoryTreeStats>)
        ensures
            match r {
                Some(st) => self.tree matches Some(t) && st.total_files == t.file_total()
                    && st.unique_filenames == t.names().len()
                    && st.total_directories == t.directories().len()
                    && st.age_secs == elapsed_secs(t.created(), now) && st.roots@ == t.root_list(),
                None => self.tree is None,
            },
    {
        match &self.tree {
            Some(t) => Some(t.stats(now)),
            None => None,
        }
    }
}

} // verus!
