//! The response envelope of the HTTP interface, its freshness label, the
//! error kinds and the plain response records.
use vstd::prelude::*;
use crate::file_cache::RefreshStatus;
use crate::models::Project;
use std::collections::HashMap;
use crate::text::{push_signed, push_text, signed_decimal};

verus! {

broadcast use vstd::std_specs::hash::group_hash_axioms;

/// Freshness label carried by every successful response.
#[derive(Clone, Copy, Debug, PartialEq, Eq, Structural)]
pub enum ApiRefreshStatus {
    Ready,
    Loading,
    Refreshing,
}

/// The label for a cache status: data being rebuilt is "refreshing", no data
/// yet is "loading".
pub open spec fn label_of(status: RefreshStatus) -> ApiRefreshStatus {
    match status {
        RefreshStatus::NotNeeded => ApiRefreshStatus::Ready,
        RefreshStatus::InProgressServeStale => ApiRefreshStatus::Refreshing,
        RefreshStatus::InProgressWait => ApiRefreshStatus::Loading,
        RefreshStatus::NeedsRefresh => ApiRefreshStatus::Loading,
    }
}

impl ApiRefreshStatus {
    /// The label for a cache status.
    pub fn from_status(status: RefreshStatus) -> (r: Self)
        ensures
            r == label_of(status),
    {
        match status {
            RefreshStatus::NotNeeded => ApiRefreshStatus::Ready,
            RefreshStatus::InProgressServeStale => ApiRefreshStatus::Refreshing,
            RefreshStatus::InProgressWait => ApiRefreshStatus::Loading,
            RefreshStatus::NeedsRefresh => ApiRefreshStatus::Loading,
        }
    }

    /// The label as it appears on the wire.
    pub fn as_str(&self) -> (r: &'static str)
        ensures
            *self == ApiRefreshStatus::Ready ==> r@ == "ready"@,
            *self == ApiRefreshStatus::Loading ==> r@ == "loading"@,
            *self == ApiRefreshStatus::Refreshing ==> r@ == "refreshing"@,
    {
        match self {
            ApiRefreshStatus::Ready => "ready",
            ApiRefreshStatus::Loading => "loading",
            ApiRefreshStatus::Refreshing => "refreshing",
        }
    }
}

impl From<RefreshStatus> for ApiRefreshStatus {
    fn from(status: RefreshStatus) -> (r: Self) {
        ApiRefreshStatus::from_status(status)
    }
}

impl vstd::std_specs::convert::FromSpecImpl<RefreshStatus> for ApiRefreshStatus {
    open spec fn obeys_from_spec() -> bool {
        true
    }

    open spec fn from_spec(status: RefreshStatus) -> Self {
        label_of(status)
    }
}

/// Envelope of every response: `success`, the data, an error message, and
/// the freshness label.
pub struct ApiResponse<T> {
    pub success: bool,
    pub data: Option<T>,
    pub error: Option<String>,
    pub status: Option<ApiRefreshStatus>,
}

impl<T> ApiResponse<T> {
    /// Data from a fresh cache.
    pub fn success(data: T) -> (r: Self)
        ensures
            r.success,
            r.data == Some(data),
            r.error is None,
            r.status == Some(ApiRefreshStatus::Ready),
    {
        ApiResponse { success: true, data: Some(data), error: None, status: Some(ApiRefreshStatus::Ready) }
    }

    /// Data with the given freshness label.
    pub fn success_with_status(data: T, status: ApiRefreshStatus) -> (r: Self)
        ensures
            r.success,
            r.data == Some(data),
            r.error is None,
            r.status == Some(status),
    {
        ApiResponse { success: true, data: Some(data), error: None, status: Some(status) }
    }

    /// No data yet: the first refresh still runs.
    pub fn loading() -> (r: Self)
        ensures
            r.success,
            r.data is None,
            r.error is None,
            r.status == Some(ApiRefreshStatus::Loading),
    {
        ApiResponse { success: true, data: None, error: None, status: Some(ApiRefreshStatus::Loading) }
    }

    /// A failure with its message and no label.
    pub fn error(message: String) -> (r: Self)
        ensures
            !r.success,
            r.data is None,
            r.error == Some(message),
            r.status is None,
    {
        ApiResponse { success: false, data: None, error: Some(message), status: None }
    }

    /// The envelope a listing answers with, given the cache status a reader
    /// observed and the data it holds: nothing while the first refresh runs,
    /// else the data with its label.
    pub fn from_cache(status: RefreshStatus, data: T) -> (r: Self)
        ensures
            r.success,
            r.error is None,
            r.status == Some(label_of(status)),
            status == RefreshStatus::InProgressWait ==> r.data is None,
            status != RefreshStatus::InProgressWait ==> r.data == Some(data),
    {
        match status {
            RefreshStatus::InProgressWait => ApiResponse::loading(),
            _ => ApiResponse::success_with_status(data, ApiRefreshStatus::from_status(status)),
        }
    }
}

/// Error kinds of the interface.
pub enum AppError {
    NotFound,
    DatabaseError,
    BadRequest(String),
    InternalError(String),
    NotImplemented,
}

/// HTTP status of each error kind.
pub open spec fn status_code_of(e: AppError) -> u16 {
    match e {
        AppError::NotFound => 404,
        AppError::DatabaseError => 500,
        AppError::BadRequest(_) => 400,
        AppError::InternalError(_) => 500,
        AppError::NotImplemented => 501,
    }
}

impl AppError {
    /// HTTP status answered for this error.
    pub fn status_code(&self) -> (r: u16)
        ensures
            r == status_code_of(*self),
    {
        match self {
            AppError::NotFound => 404,
            AppError::DatabaseError => 500,
            AppError::BadRequest(_) => 400,
            AppError::InternalError(_) => 500,
            AppError::NotImplemented => 501,
        }
    }

    /// Message placed in the error envelope.
    pub fn message(&self) -> (r: String)
        ensures
            *self matches AppError::BadRequest(m) ==> r == m,
            *self matches AppError::InternalError(m) ==> r == m,
            *self matches AppError::NotFound ==> r@ == "Resource not found"@,
            *self matches AppError::DatabaseError ==> r@ == "Database error"@,
            *self matches AppError::NotImplemented ==> r@ == "Not implemented yet"@,
    {
        match self {
            AppError::NotFound => String::from_str("Resource not found"),
            AppError::DatabaseError => String::from_str("Database error"),
            AppError::BadRequest(m) => m.clone(),
            AppError::InternalError(m) => m.clone(),
            AppError::NotImplemented => String::from_str("Not implemented yet"),
        }
    }
}

/// The bad request answered for an analysis of a target the catalog lacks.
pub fn unknown_target_error(target_id: i32) -> (r: AppError)
    ensures
        r matches AppError::BadRequest(m) && m@ == "Target "@ + signed_decimal(target_id as int)
            + " not found"@,
{
    let mut m = String::new();
    push_text(&mut m, "Target ");
    push_signed(&mut m, target_id as i64);
    push_text(&mut m, " not found");
    AppError::BadRequest(m)
}

/// A project with whether any of its files can be found.
pub struct ProjectResponse {
    pub id: i32,
    pub name: String,
    pub description: Option<String>,
    pub has_files: bool,
}

/// Whether the availability map records files for `id`; unknown ids have none.
pub open spec fn known_with_files(known: Map<i32, bool>, id: i32) -> bool {
    known.contains_key(id) && known[id]
}

/// The project listing: each project with whether the availability map
/// records files for it.
pub fn project_responses(projects: &Vec<Project>, known: &HashMap<i32, bool>) -> (r: Vec<ProjectResponse>)
    ensures
        r@.len() == projects@.len(),
        forall|i: int| 0 <= i < r@.len() ==> {
            &&& #[trigger] r@[i].id == projects@[i].id
            &&& r@[i].name == projects@[i].name
            &&& r@[i].description == projects@[i].description
            &&& r@[i].has_files == known_with_files(known@, projects@[i].id)
        },
{
    let mut r: Vec<ProjectResponse> = Vec::new();
    let mut i: usize = 0;
    while i < projects.len()
        invariant
            i <= projects@.len(),
            r@.len() == i,
            forall|j: int| 0 <= j < i ==> {
                &&& #[trigger] r@[j].id == projects@[j].id
                &&& r@[j].name == projects@[j].name
                &&& r@[j].description == projects@[j].description
                &&& r@[j].has_files == known_with_files(known@, projects@[j].id)
            },
        decreases projects@.len() - i,
    {
        let p = &projects[i];
        let has_files = match known.get(&p.id) {
            Some(v) => *v,
            None => false,
        };
        let description = match &p.description {
            Some(d) => Some(d.clone()),
            None => None,
        };
        assert(has_files == known_with_files(known@, p.id));
        assert(description == p.description);
        let name = p.name.clone();
        assert(name == p.name);
        let ghost before = r@;
        r.push(ProjectResponse { id: p.id, name, description, has_files });
        assert forall|j: int| 0 <= j < i implies r@[j] == before[j] by {}
        i = i + 1;
    }
    r
}

/// Earliest and latest acquisition, and the days between them.
pub struct DateRange {
    pub earliest: Option<i64>,
    pub latest: Option<i64>,
    pub span_days: Option<i32>,
}

/// Per-project overview.
pub struct ProjectOverviewResponse {
    pub id: i32,
    pub profile_id: String,
    pub name: String,
    pub description: Option<String>,
    pub has_files: bool,
    pub target_count: i32,
    pub total_images: i32,
    pub accepted_images: i32,
    pub rejected_images: i32,
    pub pending_images: i32,
    pub total_desired: i32,
    pub files_found: i32,
    pub files_missing: i32,
    pub date_range: DateRange,
    pub filters_used: Vec<String>,
}

/// Images added and graded on one day.
pub struct RecentActivity {
    pub date: i64,
    pub images_added: i32,
    pub images_graded: i32,
}

/// Catalog-wide overview.
pub struct OverallStatsResponse {
    pub total_projects: i32,
    pub active_projects: i32,
    pub total_targets: i32,
    pub active_targets: i32,
    pub total_images: i32,
    pub accepted_images: i32,
    pub rejected_images: i32,
    pub pending_images: i32,
    pub total_desired: i32,
    pub files_found: i32,
    pub files_missing: i32,
    pub unique_filters: Vec<String>,
    pub date_range: DateRange,
    pub recent_activity: Vec<RecentActivity>,
}

/// Query of the image listing.
pub struct ImageQuery {
    pub project_id: Option<i32>,
    pub target_id: Option<i32>,
    pub status: Option<String>,
    pub limit: Option<i32>,
    pub offset: Option<i32>,
}

/// Body of a grading update.
pub struct UpdateGradeRequest {
    pub status: String,
    pub reason: Option<String>,
}

/// Identity of the running server.
pub struct ServerInfo {
    pub database_path: String,
    pub image_directory: String,
    pub cache_directory: String,
    pub version: String,
}

/// Result of a forced file check.
pub struct FileCheckResponse {
    pub images_checked: usize,
    pub files_found: usize,
    pub files_missing: usize,
    pub check_time_ms: u128,
}

/// Counts of the directory-tree cache.
pub struct DirectoryTreeResponse {
    pub total_files: usize,
    pub unique_filenames: usize,
    pub total_directories: usize,
    pub age_seconds: u64,
    pub build_time_ms: u128,
    pub root_directory: String,
}

/// An image whose file could not be found.
pub struct MissingFileInfo {
    pub filename: String,
    pub image_id: i32,
    pub project_name: String,
    pub target_name: String,
    pub filter_name: Option<String>,
    pub acquired_date: Option<i64>,
}

/// Files found and missing for one project.
pub struct FileStatusResponse {
    pub project_id: i32,
    pub project_name: String,
    pub total_images: usize,
    pub files_found: usize,
    pub files_missing: usize,
    pub missing_files: Vec<MissingFileInfo>,
    pub cache_hit_rate: u32,
    pub optimistic_assumption: bool,
}

/// Parameters of a PSF mosaic.
pub struct PsfMultiOptions {
    pub num_stars: Option<usize>,
    pub psf_type: Option<String>,
    pub sort_by: Option<String>,
    pub grid_cols: Option<usize>,
    pub selection: Option<String>,
}

/// Parameters of a PSF mosaic with the request's defaults applied.
pub struct PsfMosaicSettings {
    pub num_stars: usize,
    pub psf_type: String,
    pub sort_by: String,
    pub selection: String,
    /// Grid width; zero lets the renderer choose.
    pub grid_cols: usize,
}

/// A text option, or the default when absent.
pub open spec fn text_or(o: Option<String>, default: Seq<char>) -> Seq<char> {
    match o {
        Some(t) => t@,
        None => default,
    }
}

fn text_or_default(o: &Option<String>, default: &str) -> (r: String)
    ensures
        r@ == text_or(*o, default@),
{
    match o {
        Some(t) => t.clone(),
        None => String::from_str(default),
    }
}

impl PsfMultiOptions {
    /// The mosaic parameters: 9 stars, the `moffat` model, ordered by `r2`,
    /// `top-n` selection and an automatic grid unless the request says
    /// otherwise.
    pub fn settings(&self) -> (r: PsfMosaicSettings)
        ensures
            r.num_stars == match self.num_stars {
                Some(n) => n,
                None => 9usize,
            },
            r.psf_type@ == text_or(self.psf_type, "moffat"@),
            r.sort_by@ == text_or(self.sort_by, "r2"@),
            r.selection@ == text_or(self.selection, "top-n"@),
            r.grid_cols == match self.grid_cols {
                Some(g) => g,
                None => 0usize,
            },
    {
        PsfMosaicSettings {
            num_stars: match self.num_stars {
                Some(n) => n,
                None => 9,
            },
            psf_type: text_or_default(&self.psf_type, "moffat"),
            sort_by: text_or_default(&self.sort_by, "r2"),
            selection: text_or_default(&self.selection, "top-n"),
            grid_cols: match self.grid_cols {
                Some(g) => g,
                None => 0,
            },
        }
    }
}

} // verus!
