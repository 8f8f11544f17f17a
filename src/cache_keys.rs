//! Content keys and locations of cached render products. A key spells out
//! every input that affects the product, so equal inputs give equal keys and
//! therefore the same cache file.
use vstd::prelude::*;
use crate::text::{chars_of, push_decimal, push_signed, push_text, decimal, signed_decimal};

verus! {

/// Characters that file names lose in a key.
pub open spec fn is_unportable(c: char) -> bool {
    c == '.' || c == ' ' || c == '-'
}

/// A file name with `.`, space and `-` each replaced by `_`.
pub open spec fn sanitized(name: Seq<char>) -> Seq<char> {
    name.map_values(|c: char| if is_unportable(c) { '_' } else { c })
}

/// A file name with `.`, space and `-` each replaced by `_`.
pub fn sanitize_file_name(name: &str) -> (r: String)
    ensures
        r@ == sanitized(name@),
{
    let cs = chars_of(name);
    let mut r = String::new();
    let mut i: usize = 0;
    while i < cs.len()
        invariant
            cs@ == name@,
            i <= cs@.len(),
            r@ == sanitized(name@.subrange(0, i as int)),
        decreases cs@.len() - i,
    {
        let c = cs[i];
        if c == '.' || c == ' ' || c == '-' {
            r.push('_');
        } else {
            r.push(c);
        }
        assert(sanitized(name@.subrange(0, i + 1)) =~= sanitized(name@.subrange(0, i as int)).push(
            if is_unportable(c) { '_' } else { c },
        ));
        i = i + 1;
    }
    assert(name@.subrange(0, i as int) =~= name@);
    r
}

/// Identity of an exposure as it enters every per-image key.
pub struct ImageKey {
    pub image_id: i32,
    pub project_id: i32,
    pub target_id: i32,
    /// Acquisition time in Unix seconds, when logged.
    pub acquired_date: Option<i64>,
    /// File name of the exposure, without directories.
    pub file_name: String,
}

/// The acquisition time as it enters a key: zero when not logged.
pub open spec fn date_or_zero(d: Option<i64>) -> int {
    match d {
        Some(t) => t as int,
        None => 0,
    }
}

/// `{image}_{project}_{target}_{acquired}_{sanitized file name}`.
pub open spec fn identity_text(k: ImageKey) -> Seq<char> {
    signed_decimal(k.image_id as int) + "_"@ + signed_decimal(k.project_id as int) + "_"@
        + signed_decimal(k.target_id as int) + "_"@ + signed_decimal(date_or_zero(k.acquired_date))
        + "_"@ + sanitized(k.file_name@)
}

fn push_identity(s: &mut String, k: &ImageKey)
    ensures
        final(s)@ == old(s)@ + identity_text(*k),
{
    push_signed(s, k.image_id as i64);
    push_text(s, "_");
    push_signed(s, k.project_id as i64);
    push_text(s, "_");
    push_signed(s, k.target_id as i64);
    push_text(s, "_");
    let d: i64 = match k.acquired_date {
        Some(t) => t,
        None => 0,
    };
    push_signed(s, d);
    push_text(s, "_");
    let clean = sanitize_file_name(k.file_name.as_str());
    push_text(s, clean.as_str());
    assert(final(s)@ =~= old(s)@ + identity_text(*k));
}

/// Key of a rendered preview.
pub open spec fn preview_key_text(
    k: ImageKey,
    size: Seq<char>,
    stretch: bool,
    midtone_q: i32,
    shadow_q: i32,
) -> Seq<char> {
    identity_text(k) + "_"@ + size + "_"@ + (if stretch { "stretch"@ } else { "linear"@ }) + "_"@
        + signed_decimal(midtone_q as int) + "_"@ + signed_decimal(shadow_q as int)
}

/// Key of a rendered preview: identity, size name, stretch mode, and the
/// midtone and shadow parameters scaled by 10000.
pub fn preview_key(k: &ImageKey, size: &str, stretch: bool, midtone_q: i32, shadow_q: i32) -> (r:
    String)
    ensures
        r@ == preview_key_text(*k, size@, stretch, midtone_q, shadow_q),
{
    let mut s = String::new();
    push_identity(&mut s, k);
    push_text(&mut s, "_");
    push_text(&mut s, size);
    push_text(&mut s, "_");
    if stretch {
        push_text(&mut s, "stretch");
    } else {
        push_text(&mut s, "linear");
    }
    push_text(&mut s, "_");
    push_signed(&mut s, midtone_q as i64);
    push_text(&mut s, "_");
    push_signed(&mut s, shadow_q as i64);
    assert(s@ =~= preview_key_text(*k, size@, stretch, midtone_q, shadow_q));
    s
}

/// Key of an annotated rendering.
pub open spec fn annotated_key_text(k: ImageKey, size: Seq<char>, max_stars: u32) -> Seq<char> {
    "annotated_"@ + identity_text(k) + "_"@ + size + "_"@ + decimal(max_stars as nat)
}

/// Key of an annotated rendering: identity, size name and star limit.
pub fn annotated_key(k: &ImageKey, size: &str, max_stars: u32) -> (r: String)
    ensures
        r@ == annotated_key_text(*k, size@, max_stars),
{
    let mut s = String::new();
    push_text(&mut s, "annotated_");
    push_identity(&mut s, k);
    push_text(&mut s, "_");
    push_text(&mut s, size);
    push_text(&mut s, "_");
    push_decimal(&mut s, max_stars as u64);
    assert(s@ =~= annotated_key_text(*k, size@, max_stars));
    s
}

/// Key of a star-detection result.
pub open spec fn stars_key_text(k: ImageKey) -> Seq<char> {
    "stars_"@ + identity_text(k)
}

/// Key of a star-detection result: the identity alone, since the detector's
/// parameters are fixed.
pub fn stars_key(k: &ImageKey) -> (r: String)
    ensures
        r@ == stars_key_text(*k),
{
    let mut s = String::new();
    push_text(&mut s, "stars_");
    push_identity(&mut s, k);
    assert(s@ =~= stars_key_text(*k));
    s
}

/// Key of a PSF mosaic.
pub open spec fn psf_multi_key_text(
    k: ImageKey,
    num_stars: usize,
    psf_type: Seq<char>,
    sort_by: Seq<char>,
    selection: Seq<char>,
    grid_cols: usize,
) -> Seq<char> {
    "psf_multi_"@ + identity_text(k) + "_"@ + decimal(num_stars as nat) + "_"@ + psf_type + "_"@
        + sort_by + "_"@ + selection + "_"@ + decimal(grid_cols as nat)
}

/// Key of a PSF mosaic: identity, star count, model, ordering, selection and
/// grid width (zero when chosen automatically).
pub fn psf_multi_key(
    k: &ImageKey,
    num_stars: usize,
    psf_type: &str,
    sort_by: &str,
    selection: &str,
    grid_cols: usize,
) -> (r: String)
    ensures
        r@ == psf_multi_key_text(*k, num_stars, psf_type@, sort_by@, selection@, grid_cols),
{
    let mut s = String::new();
    push_text(&mut s, "psf_multi_");
    push_identity(&mut s, k);
    push_text(&mut s, "_");
    push_decimal(&mut s, num_stars as u64);
    push_text(&mut s, "_");
    push_text(&mut s, psf_type);
    push_text(&mut s, "_");
    push_text(&mut s, sort_by);
    push_text(&mut s, "_");
    push_text(&mut s, selection);
    push_text(&mut s, "_");
    push_decimal(&mut s, grid_cols as u64);
    assert(s@ =~= psf_multi_key_text(*k, num_stars, psf_type@, sort_by@, selection@, grid_cols));
    s
}

/// Key of the statistics of an exposure.
pub open spec fn stats_key_text(image_id: i32, project_id: i32, target_id: i32, acquired: Option<i64>) -> Seq<char> {
    "stats_"@ + signed_decimal(image_id as int) + "_"@ + signed_decimal(project_id as int) + "_"@
        + signed_decimal(target_id as int) + "_"@ + signed_decimal(date_or_zero(acquired))
}

/// Key of the statistics of an exposure: ids and acquisition time.
pub fn stats_key(image_id: i32, project_id: i32, target_id: i32, acquired: Option<i64>) -> (r: String)
    ensures
        r@ == stats_key_text(image_id, project_id, target_id, acquired),
{
    let mut s = String::new();
    push_text(&mut s, "stats_");
    push_signed(&mut s, image_id as i64);
    push_text(&mut s, "_");
    push_signed(&mut s, project_id as i64);
    push_text(&mut s, "_");
    push_signed(&mut s, target_id as i64);
    push_text(&mut s, "_");
    let d: i64 = match acquired {
        Some(t) => t,
        None => 0,
    };
    push_signed(&mut s, d);
    assert(s@ =~= stats_key_text(image_id, project_id, target_id, acquired));
    s
}

/// The kinds of cached product, each in a subdirectory of its own.
#[derive(Clone, Copy, Debug, PartialEq, Eq, Structural)]
pub enum ArtifactCategory {
    Previews,
    Annotated,
    Stars,
    PsfMulti,
    Stats,
}

/// Subdirectory name of each kind.
pub open spec fn category_dir(c: ArtifactCategory) -> Seq<char> {
    match c {
        ArtifactCategory::Previews => "previews"@,
        ArtifactCategory::Annotated => "annotated"@,
        ArtifactCategory::Stars => "stars"@,
        ArtifactCategory::PsfMulti => "psf_multi"@,
        ArtifactCategory::Stats => "stats"@,
    }
}

impl ArtifactCategory {
    /// Subdirectory name of this kind.
    pub fn dir_name(&self) -> (r: &'static str)
        ensures
            r@ == category_dir(*self),
    {
        match self {
            ArtifactCategory::Previews => "previews",
            ArtifactCategory::Annotated => "annotated",
            ArtifactCategory::Stars => "stars",
            ArtifactCategory::PsfMulti => "psf_multi",
            ArtifactCategory::Stats => "stats",
        }
    }
}

/// `{cache root}/{category}/{key}.{extension}`.
pub open spec fn cached_path_text(root: Seq<char>, c: ArtifactCategory, key: Seq<char>, ext: Seq<char>) -> Seq<char> {
    root + "/"@ + category_dir(c) + "/"@ + key + "."@ + ext
}

/// Location of a cached product under the cache root.
pub fn cached_path(root: &str, category: ArtifactCategory, key: &str, ext: &str) -> (r: String)
    ensures
        r@ == cached_path_text(root@, category, key@, ext@),
{
    let mut s = String::new();
    push_text(&mut s, root);
    push_text(&mut s, "/");
    push_text(&mut s, category.dir_name());
    push_text(&mut s, "/");
    push_text(&mut s, key);
    push_text(&mut s, ".");
    push_text(&mut s, ext);
    assert(s@ =~= cached_path_text(root@, category, key@, ext@));
    s
}

/// Whether a cached product of age `age_secs` is still served by the
/// pre-generation pass, whose products live `expiry_secs`.
pub fn is_fresh(age_secs: u64, expiry_secs: u64) -> (r: bool)
    ensures
        r == (age_secs < expiry_secs),
{
    age_secs < expiry_secs
}

/// Two image identities that agree on every number and on the characters of
/// the file name.
pub open spec fn same_identity(a: ImageKey, b: ImageKey) -> bool {
    a.image_id == b.image_id && a.project_id == b.project_id && a.target_id == b.target_id
        && a.acquired_date == b.acquired_date && a.file_name@ == b.file_name@
}

/// Keys are determined by their inputs: identities that agree, with the same
/// parameters, give the same keys, and so the same cache files.
pub proof fn lemma_keys_deterministic(
    a: ImageKey,
    b: ImageKey,
    size: Seq<char>,
    stretch: bool,
    midtone_q: i32,
    shadow_q: i32,
    max_stars: u32,
    num_stars: usize,
    psf_type: Seq<char>,
    sort_by: Seq<char>,
    selection: Seq<char>,
    grid_cols: usize,
    root: Seq<char>,
    category: ArtifactCategory,
    ext: Seq<char>,
)
    requires
        same_identity(a, b),
    ensures
        preview_key_text(a, size, stretch, midtone_q, shadow_q) == preview_key_text(b, size, stretch, midtone_q, shadow_q),
        annotated_key_text(a, size, max_stars) == annotated_key_text(b, size, max_stars),
        stars_key_text(a) == stars_key_text(b),
        psf_multi_key_text(a, num_stars, psf_type, sort_by, selection, grid_cols)
            == psf_multi_key_text(b, num_stars, psf_type, sort_by, selection, grid_cols),
        stats_key_text(a.image_id, a.project_id, a.target_id, a.acquired_date)
            == stats_key_text(b.image_id, b.project_id, b.target_id, b.acquired_date),
        cached_path_text(root, category, stars_key_text(a), ext) == cached_path_text(root, category, stars_key_text(b), ext),
{
    assert(identity_text(a) == identity_text(b));
}

} // verus!
