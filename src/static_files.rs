//! Decisions of the static front-end server: which file a request path
//! names, when a single-page fallback applies, and how long a file may be
//! cached by the browser.
use vstd::prelude::*;
use crate::paths::{join, join_path};
use crate::text::{chars_of, contains, ends_with, has_infix, has_prefix, has_suffix, starts_with};

verus! {

/// Serves files below `root`, falling back to its `index.html`.
pub struct StaticFileService {
    pub root: String,
    pub index_file: String,
}

impl StaticFileService {
    /// A server for the files below `root`.
    pub fn new(root: String) -> (r: Self)
        ensures
            r.root == root,
            r.index_file@ == join(root@, "index.html"@),
    {
        let index_file = join_path(root.as_str(), "index.html");
        StaticFileService { root, index_file }
    }
}

/// `s` without its leading slashes.
pub open spec fn trim_slashes(s: Seq<char>) -> Seq<char>
    decreases s.len(),
{
    if s.len() > 0 && s[0] == '/' {
        trim_slashes(s.subrange(1, s.len() as int))
    } else {
        s
    }
}

/// The file a request path names: the path without leading slashes, or
/// `index.html` when nothing is left.
pub open spec fn requested_file(uri_path: Seq<char>) -> Seq<char> {
    if trim_slashes(uri_path).len() == 0 {
        "index.html"@
    } else {
        trim_slashes(uri_path)
    }
}

/// The file a request path names, relative to the served root.
pub fn request_file_path(uri_path: &str) -> (r: String)
    ensures
        r@ == requested_file(uri_path@),
{
    let cs = chars_of(uri_path);
    let mut k: usize = 0;
    assert(cs@.subrange(0, cs@.len() as int) =~= cs@);
    while k < cs.len() && cs[k] == '/'
        invariant
            cs@ == uri_path@,
            k <= cs@.len(),
            trim_slashes(uri_path@) == trim_slashes(cs@.subrange(k as int, cs@.len() as int)),
        decreases cs@.len() - k,
    {
        assert(cs@.subrange(k as int, cs@.len() as int).subrange(1, cs@.len() - k) =~= cs@.subrange(
            k + 1,
            cs@.len() as int,
        ));
        k = k + 1;
    }
    let mut r = String::new();
    let mut i: usize = k;
    while i < cs.len()
        invariant
            cs@ == uri_path@,
            k <= i <= cs@.len(),
            r@ == cs@.subrange(k as int, i as int),
        decreases cs@.len() - i,
    {
        r.push(cs[i]);
        assert(r@ =~= cs@.subrange(k as int, i + 1));
        i = i + 1;
    }
    assert(trim_slashes(uri_path@) == cs@.subrange(k as int, cs@.len() as int));
    if k == cs.len() {
        String::from_str("index.html")
    } else {
        r
    }
}

/// Whether a request for a missing file gets the front end's index page:
/// every path but the interface's own.
pub fn spa_fallback_applies(file_path: &str) -> (r: bool)
    ensures
        r == !has_prefix(file_path@, "api/"@),
{
    !starts_with(file_path, "api/")
}

/// Whether a file is a build asset that never changes under its name.
pub open spec fn is_immutable_asset(path: Seq<char>) -> bool {
    has_infix(path, "/assets/"@) || has_suffix(path, ".js"@) || has_suffix(path, ".css"@)
        || has_suffix(path, ".wasm"@)
}

/// The `Cache-Control` value for a served file.
pub fn cache_control_for(path: &str) -> (r: &'static str)
    ensures
        is_immutable_asset(path@) ==> r@ == "public, max-age=31536000, immutable"@,
        !is_immutable_asset(path@) ==> r@ == "public, max-age=3600"@,
{
    if contains(path, "/assets/") || ends_with(path, ".js") || ends_with(path, ".css") || ends_with(
        path,
        ".wasm",
    ) {
        "public, max-age=31536000, immutable"
    } else {
        "public, max-age=3600"
    }
}

} // verus!
