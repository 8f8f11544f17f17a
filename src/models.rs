//! Catalog records as read from the capture tool's database.
use vstd::prelude::*;
use crate::api::{AppError, ImageQuery};
use crate::text::str_eq;

verus! {

/// A project of the capture catalog.
pub struct Project {
    pub id: i32,
    pub profile_id: String,
    pub name: String,
    pub description: Option<String>,
}

/// One acquired exposure as logged by the capture tool.
#[derive(Clone)]
pub struct AcquiredImage {
    pub id: i32,
    pub project_id: i32,
    pub target_id: i32,
    pub acquired_date: Option<i64>,
    pub filter_name: String,
    pub grading_status: i32,
    pub metadata: String,
    pub reject_reason: Option<String>,
    pub profile_id: Option<String>,
}

/// Grading state of an exposure; stored in the catalog as 0, 1 and 2.
#[derive(Clone, Copy, Debug, PartialEq, Eq, Structural)]
pub enum GradingStatus {
    Pending,
    Accepted,
    Rejected,
}

/// The label shown for a stored grading code.
pub open spec fn grading_label(value: i32) -> Seq<char> {
    if value == 0 {
        "Pending"@
    } else if value == 1 {
        "Accepted"@
    } else if value == 2 {
        "Rejected"@
    } else {
        "Unknown"@
    }
}

impl GradingStatus {
    /// Label of a stored grading code; codes outside 0..=2 read "Unknown".
    pub fn from_i32(value: i32) -> (r: &'static str)
        ensures
            r@ == grading_label(value),
    {
        match value {
            0 => "Pending",
            1 => "Accepted",
            2 => "Rejected",
            _ => "Unknown",
        }
    }
}

/// The grading state a request names: `pending`, `accepted` or `rejected`.
pub open spec fn status_named(name: Seq<char>) -> Option<GradingStatus> {
    if name == "pending"@ {
        Some(GradingStatus::Pending)
    } else if name == "accepted"@ {
        Some(GradingStatus::Accepted)
    } else if name == "rejected"@ {
        Some(GradingStatus::Rejected)
    } else {
        None
    }
}

/// Stored code of each grading state.
pub open spec fn status_code(s: GradingStatus) -> i32 {
    match s {
        GradingStatus::Pending => 0,
        GradingStatus::Accepted => 1,
        GradingStatus::Rejected => 2,
    }
}

impl GradingStatus {
    /// The grading state a request names; a bad request for other names.
    pub fn parse(name: &str) -> (r: Result<GradingStatus, AppError>)
        ensures
            match status_named(name@) {
                Some(s) => r == Ok::<GradingStatus, AppError>(s),
                None => r matches Err(AppError::BadRequest(m)) && m@ == "Invalid status"@,
            },
    {
        if str_eq(name, "pending") {
            Ok(GradingStatus::Pending)
        } else if str_eq(name, "accepted") {
            Ok(GradingStatus::Accepted)
        } else if str_eq(name, "rejected") {
            Ok(GradingStatus::Rejected)
        } else {
            Err(AppError::BadRequest(String::from_str("Invalid status")))
        }
    }

    /// The code stored in the catalog.
    pub fn code(&self) -> (r: i32)
        ensures
            r == status_code(*self),
    {
        match self {
            GradingStatus::Pending => 0,
            GradingStatus::Accepted => 1,
            GradingStatus::Rejected => 2,
        }
    }
}

/// Whether an image passes the listing's filters.
pub open spec fn listed(img: AcquiredImage, status: Option<GradingStatus>, project: Option<i32>, target: Option<i32>) -> bool {
    (status matches Some(s) ==> img.grading_status == status_code(s))
        && (project matches Some(p) ==> img.project_id == p)
        && (target matches Some(t) ==> img.target_id == t)
}

/// Positions, in order, of the images that pass the filters.
pub open spec fn listed_positions(
    imgs: Seq<AcquiredImage>,
    status: Option<GradingStatus>,
    project: Option<i32>,
    target: Option<i32>,
) -> Seq<usize>
    decreases imgs.len(),
{
    if imgs.len() == 0 {
        Seq::empty()
    } else if listed(imgs.last(), status, project, target) {
        listed_positions(imgs.drop_last(), status, project, target).push((imgs.len() - 1) as usize)
    } else {
        listed_positions(imgs.drop_last(), status, project, target)
    }
}

/// The part of `s` from `offset`, at most `limit` long.
pub open spec fn page(s: Seq<usize>, offset: int, limit: int) -> Seq<usize> {
    let start = if offset < s.len() { offset } else { s.len() as int };
    let end = if start + limit < s.len() { start + limit } else { s.len() as int };
    s.subrange(start, end)
}

/// The status filter of a listing query: none, or the named state.
pub open spec fn query_status(q: ImageQuery) -> Option<Option<GradingStatus>> {
    match q.status {
        None => Some(None),
        Some(n) => match status_named(n@) {
            Some(s) => Some(Some(s)),
            None => None,
        },
    }
}

/// The images a listing query selects, as positions in `images`: filtered by
/// status, project and target, then the page from `offset` (default 0) of at
/// most `limit` (default 100). An unknown status or a negative offset or
/// limit is a bad request.
pub fn select_images(images: &Vec<AcquiredImage>, query: &ImageQuery) -> (r: Result<Vec<usize>, AppError>)
    ensures
        match r {
            Ok(v) => {
                let offset = match query.offset { Some(o) => o as int, None => 0 };
                let limit = match query.limit { Some(l) => l as int, None => 100 };
                &&& query_status(*query) matches Some(st)
                &&& offset >= 0 && limit >= 0
                &&& v@ == page(listed_positions(images@, st, query.project_id, query.target_id), offset, limit)
            },
            Err(e) => e is BadRequest && (query_status(*query) is None
                || (query.offset matches Some(o) && o < 0) || (query.limit matches Some(l) && l < 0)),
        },
{
    let status: Option<GradingStatus> = match &query.status {
        None => None,
        Some(n) => match GradingStatus::parse(n.as_str()) {
            Ok(s) => Some(s),
            Err(e) => return Err(e),
        },
    };
    let offset: i32 = match query.offset {
        Some(o) => o,
        None => 0,
    };
    let limit: i32 = match query.limit {
        Some(l) => l,
        None => 100,
    };
    if offset < 0 {
        return Err(AppError::BadRequest(String::from_str("Invalid offset")));
    }
    if limit < 0 {
        return Err(AppError::BadRequest(String::from_str("Invalid limit")));
    }
    let ghost all = listed_positions(images@, status, query.project_id, query.target_id);
    let mut matched: Vec<usize> = Vec::new();
    let mut i: usize = 0;
    while i < images.len()
        invariant
            i <= images@.len(),
            matched@ == listed_positions(images@.subrange(0, i as int), status, query.project_id, query.target_id),
            forall|k: int| 0 <= k < matched@.len() ==> matched@[k] < i,
        decreases images@.len() - i,
    {
        assert(images@.subrange(0, i + 1).drop_last() =~= images@.subrange(0, i as int));
        let img = &images[i];
        let keep = match status {
            Some(s) => img.grading_status == s.code(),
            None => true,
        } && match query.project_id {
            Some(p) => img.project_id == p,
            None => true,
        } && match query.target_id {
            Some(t) => img.target_id == t,
            None => true,
        };
        if keep {
            matched.push(i);
        }
        i = i + 1;
    }
    assert(images@.subrange(0, i as int) =~= images@);
    let n = matched.len();
    let start: usize = if (offset as usize) < n { offset as usize } else { n };
    let end: usize = if (limit as usize) < n - start { start + limit as usize } else { n };
    let mut r: Vec<usize> = Vec::new();
    let mut j: usize = start;
    while j < end
        invariant
            start <= j <= end <= matched@.len(),
            r@ == matched@.subrange(start as int, j as int),
        decreases end - j,
    {
        r.push(matched[j]);
        assert(r@ =~= matched@.subrange(start as int, j + 1));
        j = j + 1;
    }
    assert(r@ =~= page(all, offset as int, limit as int));
    Ok(r)
}

/// Image counts of one project by grading state, with filters and date range.
pub struct ProjectOverviewStats {
    pub total_images: i32,
    pub accepted_images: i32,
    pub rejected_images: i32,
    pub pending_images: i32,
    pub filters_used: Vec<String>,
    pub earliest_date: Option<i64>,
    pub latest_date: Option<i64>,
}

/// Catalog-wide totals.
pub struct OverallStats {
    pub total_images: i32,
    pub accepted_images: i32,
    pub rejected_images: i32,
    pub pending_images: i32,
    pub active_projects: i32,
    pub total_projects: i32,
    pub active_targets: i32,
    pub total_targets: i32,
    pub unique_filters: Vec<String>,
    pub earliest_date: Option<i64>,
    pub latest_date: Option<i64>,
    pub files_found: i32,
    pub files_missing: i32,
}

/// Exposure-plan totals of one project.
pub struct ProjectDesiredStats {
    pub total_desired: i32,
    pub total_acquired: i32,
    pub total_accepted: i32,
    pub rejected_count: i32,
    pub filters_used: Vec<String>,
}

/// Exposure-plan totals over the whole catalog.
pub struct OverallDesiredStats {
    pub total_desired: i32,
    pub total_acquired: i32,
    pub total_accepted: i32,
}

/// Number of images whose stored grading code is `code`.
pub open spec fn status_count(imgs: Seq<AcquiredImage>, code: i32) -> nat
    decreases imgs.len(),
{
    if imgs.len() == 0 {
        0
    } else {
        status_count(imgs.drop_last(), code) + if imgs.last().grading_status == code { 1nat } else { 0nat }
    }
}

/// Filter names of the images, each once, in order of first use.
pub open spec fn filters_used(imgs: Seq<AcquiredImage>) -> Seq<Seq<char>>
    decreases imgs.len(),
{
    if imgs.len() == 0 {
        Seq::empty()
    } else if filters_used(imgs.drop_last()).contains(imgs.last().filter_name@) {
        filters_used(imgs.drop_last())
    } else {
        filters_used(imgs.drop_last()).push(imgs.last().filter_name@)
    }
}

/// The earlier (`earliest`) or later of two optional times, ignoring absent ones.
pub open spec fn pick_date(a: Option<i64>, b: Option<i64>, earliest: bool) -> Option<i64> {
    match (a, b) {
        (Some(x), Some(y)) => if (earliest && y < x) || (!earliest && y > x) { Some(y) } else { Some(x) },
        (Some(x), None) => Some(x),
        (None, y) => y,
    }
}

/// Earliest (or latest) acquisition time of the images that have one.
pub open spec fn date_bound(imgs: Seq<AcquiredImage>, earliest: bool) -> Option<i64>
    decreases imgs.len(),
{
    if imgs.len() == 0 {
        None
    } else {
        pick_date(date_bound(imgs.drop_last(), earliest), imgs.last().acquired_date, earliest)
    }
}

fn pick_date_exec(a: Option<i64>, b: Option<i64>, earliest: bool) -> (r: Option<i64>)
    ensures
        r == pick_date(a, b, earliest),
{
    match (a, b) {
        (Some(x), Some(y)) => if (earliest && y < x) || (!earliest && y > x) { Some(y) } else { Some(x) },
        (Some(x), None) => Some(x),
        (None, y) => y,
    }
}

fn has_name(names: &Vec<String>, name: &String) -> (r: bool)
    ensures
        r == names@.map_values(|s: String| s@).contains(name@),
{
    let mut i: usize = 0;
    while i < names.len()
        invariant
            i <= names@.len(),
            forall|j: int| 0 <= j < i ==> names@[j]@ != name@,
        decreases names@.len() - i,
    {
        if crate::text::str_eq(names[i].as_str(), name.as_str()) {
            let ghost views = names@.map_values(|s: String| s@);
            assert(views[i as int] == name@);
            return true;
        }
        i = i + 1;
    }
    let ghost views = names@.map_values(|s: String| s@);
    assert forall|j: int| 0 <= j < views.len() implies #[trigger] views[j] != name@ by {}
    false
}

/// Overview of a project's images: counts by grading state, the filters
/// used, and the acquisition date range. Requires the count to fit the
/// catalog's 32-bit counters.
pub fn project_overview(images: &Vec<AcquiredImage>) -> (r: ProjectOverviewStats)
    requires
        images@.len() <= i32::MAX,
    ensures
        r.total_images == images@.len(),
        r.pending_images == status_count(images@, 0),
        r.accepted_images == status_count(images@, 1),
        r.rejected_images == status_count(images@, 2),
        r.filters_used@.map_values(|s: String| s@) == filters_used(images@),
        r.earliest_date == date_bound(images@, true),
        r.latest_date == date_bound(images@, false),
{
    let mut pending: i32 = 0;
    let mut accepted: i32 = 0;
    let mut rejected: i32 = 0;
    let mut filters: Vec<String> = Vec::new();
    let mut earliest: Option<i64> = None;
    let mut latest: Option<i64> = None;
    let mut i: usize = 0;
    while i < images.len()
        invariant
            i <= images@.len() <= i32::MAX,
            pending == status_count(images@.subrange(0, i as int), 0),
            accepted == status_count(images@.subrange(0, i as int), 1),
            rejected == status_count(images@.subrange(0, i as int), 2),
            pending + accepted + rejected <= i,
            filters@.map_values(|s: String| s@) == filters_used(images@.subrange(0, i as int)),
            earliest == date_bound(images@.subrange(0, i as int), true),
            latest == date_bound(images@.subrange(0, i as int), false),
        decreases images@.len() - i,
    {
        let ghost prefix = images@.subrange(0, i + 1);
        assert(prefix.drop_last() =~= images@.subrange(0, i as int));
        let img = &images[i];
        if img.grading_status == 0 {
            pending = pending + 1;
        } else if img.grading_status == 1 {
            accepted = accepted + 1;
        } else if img.grading_status == 2 {
            rejected = rejected + 1;
        }
        if !has_name(&filters, &img.filter_name) {
            let ghost before = filters@;
            filters.push(img.filter_name.clone());
            assert(filters@.map_values(|s: String| s@) =~= before.map_values(|s: String| s@).push(
                img.filter_name@,
            ));
        }
        earliest = pick_date_exec(earliest, img.acquired_date, true);
        latest = pick_date_exec(latest, img.acquired_date, false);
        i = i + 1;
    }
    assert(images@.subrange(0, i as int) =~= images@);
    ProjectOverviewStats {
        total_images: images.len() as i32,
        accepted_images: accepted,
        rejected_images: rejected,
        pending_images: pending,
        filters_used: filters,
        earliest_date: earliest,
        latest_date: latest,
    }
}

} // verus!
