use psf_guard::api::{project_responses, ApiRefreshStatus, ApiResponse, AppError, PsfMultiOptions};
use psf_guard::models::Project;
use std::collections::HashMap;
use psf_guard::file_cache::RefreshStatus;

#[test]
fn refresh_status_labels() {
    assert_eq!(ApiRefreshStatus::from(RefreshStatus::NotNeeded), ApiRefreshStatus::Ready);
    assert_eq!(ApiRefreshStatus::from(RefreshStatus::InProgressServeStale), ApiRefreshStatus::Refreshing);
    assert_eq!(ApiRefreshStatus::from(RefreshStatus::InProgressWait), ApiRefreshStatus::Loading);
    assert_eq!(ApiRefreshStatus::from(RefreshStatus::NeedsRefresh), ApiRefreshStatus::Loading);
}

#[test]
fn envelope_constructors() {
    let ok = ApiResponse::success(7);
    assert!(ok.success && ok.data == Some(7) && ok.error.is_none());
    assert_eq!(ok.status, Some(ApiRefreshStatus::Ready));

    let r = ApiResponse::success_with_status("x", ApiRefreshStatus::Refreshing);
    assert_eq!(r.status, Some(ApiRefreshStatus::Refreshing));

    let l: ApiResponse<()> = ApiResponse::loading();
    assert!(l.success && l.data.is_none());
    assert_eq!(l.status, Some(ApiRefreshStatus::Loading));

    let e: ApiResponse<()> = ApiResponse::error("Target 9999 not found".to_string());
    assert!(!e.success);
    assert!(e.error.unwrap().contains("not found"));
    assert!(e.status.is_none());
}

#[test]
fn error_kinds_map_to_http_statuses() {
    assert_eq!(AppError::NotFound.status_code(), 404);
    assert_eq!(AppError::DatabaseError.status_code(), 500);
    assert_eq!(AppError::BadRequest("x".to_string()).status_code(), 400);
    assert_eq!(AppError::InternalError("y".to_string()).status_code(), 500);
    assert_eq!(AppError::NotImplemented.status_code(), 501);
    assert_eq!(AppError::NotFound.message(), "Resource not found");
    assert_eq!(AppError::BadRequest("Invalid date".to_string()).message(), "Invalid date");
}

#[test]
fn unknown_target_is_a_bad_request() {
    let e = psf_guard::api::unknown_target_error(9999);
    assert_eq!(e.status_code(), 400);
    assert_eq!(e.message(), "Target 9999 not found");
    assert!(e.message().contains("not found"));
}

#[test]
fn project_listing_marks_known_files() {
    let projects = vec![
        Project { id: 1, profile_id: "p".to_string(), name: "Orion".to_string(), description: Some("M42".to_string()) },
        Project { id: 2, profile_id: "p".to_string(), name: "Cygnus".to_string(), description: None },
        Project { id: 3, profile_id: "p".to_string(), name: "Lyra".to_string(), description: None },
    ];
    let mut known = HashMap::new();
    known.insert(1, true);
    known.insert(2, false);
    let r = project_responses(&projects, &known);
    assert_eq!(r.len(), 3);
    assert!(r[0].has_files && !r[1].has_files && !r[2].has_files);
    assert_eq!(r[0].name, "Orion");
    assert_eq!(r[0].description, Some("M42".to_string()));
    assert_eq!(r[2].id, 3);
}

#[test]
fn psf_mosaic_defaults() {
    let none = PsfMultiOptions { num_stars: None, psf_type: None, sort_by: None, grid_cols: None, selection: None };
    let d = none.settings();
    assert_eq!((d.num_stars, d.psf_type.as_str(), d.sort_by.as_str(), d.selection.as_str(), d.grid_cols), (9, "moffat", "r2", "top-n", 0));
    let some = PsfMultiOptions {
        num_stars: Some(16),
        psf_type: Some("gaussian".to_string()),
        sort_by: Some("hfr".to_string()),
        grid_cols: Some(4),
        selection: Some("spread".to_string()),
    };
    let s = some.settings();
    assert_eq!((s.num_stars, s.psf_type.as_str(), s.sort_by.as_str(), s.selection.as_str(), s.grid_cols), (16, "gaussian", "hfr", "spread", 4));
}
