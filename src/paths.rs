//! File names and candidate locations of exposures under the image roots.
use vstd::prelude::*;
use crate::api::AppError;
use crate::text::{chars_of, ends_with, has_suffix, push_text};

verus! {

/// Whether `c` separates path components (either slash style).
pub open spec fn is_separator(c: char) -> bool {
    c == '/' || c == '\\'
}

/// The last component of a path: what follows its last separator.
pub open spec fn basename(p: Seq<char>) -> Seq<char>
    decreases p.len(),
{
    if p.len() == 0 {
        Seq::empty()
    } else if is_separator(p.last()) {
        Seq::empty()
    } else {
        basename(p.drop_last()).push(p.last())
    }
}

proof fn lemma_basename_split(p: Seq<char>, k: int)
    requires
        0 <= k <= p.len(),
        forall|j: int| k <= j < p.len() ==> !is_separator(p[j]),
        k == 0 || is_separator(p[k - 1]),
    ensures
        basename(p) == p.subrange(k, p.len() as int),
    decreases p.len(),
{
    if p.len() == k {
        if k > 0 {
            assert(is_separator(p.last()));
        }
        assert(p.subrange(k, p.len() as int) =~= Seq::<char>::empty());
    } else {
        lemma_basename_split(p.drop_last(), k);
        assert(p.subrange(k, p.len() as int) =~= p.drop_last().subrange(k, p.len() - 1).push(
            p.last(),
        ));
    }
}

/// The file name at the end of a logged path, split on `/` and `\`.
pub fn file_name_of(path: &str) -> (r: String)
    ensures
        r@ == basename(path@),
{
    let cs = chars_of(path);
    let mut k: usize = cs.len();
    while k > 0 && cs[k - 1] != '/' && cs[k - 1] != '\\'
        invariant
            cs@ == path@,
            k <= cs@.len(),
            forall|j: int| k <= j < cs@.len() ==> !is_separator(cs@[j]),
        decreases k,
    {
        k = k - 1;
    }
    proof {
        lemma_basename_split(path@, k as int);
    }
    let mut r = String::new();
    let mut i: usize = k;
    while i < cs.len()
        invariant
            cs@ == path@,
            k <= i <= cs@.len(),
            r@ == cs@.subrange(k as int, i as int),
        decreases cs@.len() - i,
    {
        r.push(cs[i]);
        assert(r@ =~= cs@.subrange(k as int, i + 1));
        i = i + 1;
    }
    r
}

/// `a` and `b` joined by one `/`.
pub open spec fn join(a: Seq<char>, b: Seq<char>) -> Seq<char> {
    if has_suffix(a, "/"@) { a + b } else { a + "/"@ + b }
}

/// `a` and `b` joined by one `/`.
pub fn join_path(a: &str, b: &str) -> (r: String)
    ensures
        r@ == join(a@, b@),
{
    let mut r = String::from_str(a);
    if !ends_with(a, "/") {
        push_text(&mut r, "/");
    }
    push_text(&mut r, b);
    r
}

/// Where the capture tool may have written a file under one root, in the
/// order in which they are tried.
pub open spec fn templates(root: Seq<char>, date: Seq<char>, target: Seq<char>, file: Seq<char>) -> Seq<Seq<char>> {
    seq![
        join(join(join(root, date), target), file),
        join(join(join(root, target), date), file),
        join(root, file),
        join(join(root, target), file),
        join(join(root, date), file),
    ]
}

/// The templates of every root, root by root.
pub open spec fn all_candidates(roots: Seq<String>, date: Seq<char>, target: Seq<char>, file: Seq<char>) -> Seq<Seq<char>>
    decreases roots.len(),
{
    if roots.len() == 0 {
        Seq::empty()
    } else {
        all_candidates(roots.drop_last(), date, target, file) + templates(roots.last()@, date, target, file)
    }
}

/// Every location to try for a file, root by root, given its acquisition
/// date as `YYYY-MM-DD` and its target's name.
pub fn candidate_paths(roots: &Vec<String>, date: &str, target: &str, file: &str) -> (r: Vec<String>)
    ensures
        r@.map_values(|p: String| p@) == all_candidates(roots@, date@, target@, file@),
{
    let mut r: Vec<String> = Vec::new();
    let mut i: usize = 0;
    while i < roots.len()
        invariant
            i <= roots@.len(),
            r@.map_values(|p: String| p@) == all_candidates(roots@.subrange(0, i as int), date@, target@, file@),
        decreases roots@.len() - i,
    {
        let root = roots[i].as_str();
        let d = join_path(root, date);
        let dt = join_path(d.as_str(), target);
        let t = join_path(root, target);
        let td = join_path(t.as_str(), date);
        let ghost before = r@;
        r.push(join_path(dt.as_str(), file));
        r.push(join_path(td.as_str(), file));
        r.push(join_path(root, file));
        r.push(join_path(t.as_str(), file));
        r.push(join_path(d.as_str(), file));
        assert(roots@.subrange(0, i + 1).drop_last() =~= roots@.subrange(0, i as int));
        assert(r@.map_values(|p: String| p@) =~= before.map_values(|p: String| p@) + templates(
            roots@[i as int]@,
            date@,
            target@,
            file@,
        ));
        i = i + 1;
    }
    assert(roots@.subrange(0, i as int) =~= roots@);
    r
}

/// Calendar date, `YYYY-MM-DD` in UTC, of a Unix time; none when the time is
/// out of the calendar's range.
pub uninterp spec fn utc_date_text(ts: i64) -> Option<Seq<char>>;

/// Relies on `chrono::DateTime::from_timestamp` (none out of its range) and
/// on `DateTime::format` with `%Y-%m-%d`.
#[verifier::external_body]
fn format_utc_date(ts: i64) -> (r: Option<String>)
    ensures
        match r {
            Some(s) => utc_date_text(ts) == Some(s@),
            None => utc_date_text(ts) is None,
        },
{
    chrono::DateTime::from_timestamp(ts, 0).map(|d| d.format("%Y-%m-%d").to_string())
}

/// The date part of the candidate paths of an exposure: a bad request when
/// its acquisition time is missing or out of range.
pub fn acquisition_date_text(acquired: Option<i64>) -> (r: Result<String, AppError>)
    ensures
        match r {
            Ok(s) => acquired is Some && utc_date_text(acquired->0) == Some(s@),
            Err(e) => e matches AppError::BadRequest(m) && m@ == "Invalid date"@
                && (acquired is None || utc_date_text(acquired->0) is None),
        },
{
    let bad = AppError::BadRequest(String::from_str("Invalid date"));
    match acquired {
        Some(ts) => match format_utc_date(ts) {
            Some(s) => Ok(s),
            None => Err(bad),
        },
        None => Err(bad),
    }
}

/// Whether probe `i` is the first that found its path on disk.
pub open spec fn first_present(probes: Seq<(String, bool)>, i: int) -> bool {
    0 <= i < probes.len() && probes[i].1 && forall|j: int| 0 <= j < i ==> !probes[j].1
}

/// Picks the file of an exposure from what was seen on disk: the first
/// candidate that exists, else the directory index's first entry if it still
/// exists, else not found. `probes` pairs each candidate with whether it
/// existed; `indexed` is the index's entry with the same.
pub fn choose_path(probes: &Vec<(String, bool)>, indexed: Option<(String, bool)>) -> (r: Result<String, AppError>)
    ensures
        match r {
            Ok(p) => (exists|i: int| first_present(probes@, i) && probes@[i].0 == p) || (
                (forall|j: int| 0 <= j < probes@.len() ==> !probes@[j].1) && indexed == Some((p, true))),
            Err(e) => e is NotFound && (forall|j: int| 0 <= j < probes@.len() ==> !probes@[j].1)
                && !(indexed matches Some((_, true))),
        },
{
    let mut i: usize = 0;
    while i < probes.len()
        invariant
            i <= probes@.len(),
            forall|j: int| 0 <= j < i ==> !probes@[j].1,
        decreases probes@.len() - i,
    {
        if probes[i].1 {
            assert(first_present(probes@, i as int));
            return Ok(probes[i].0.clone());
        }
        i = i + 1;
    }
    match indexed {
        Some((p, true)) => Ok(p),
        _ => Err(AppError::NotFound),
    }
}

} // verus!
