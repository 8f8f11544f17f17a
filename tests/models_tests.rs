use psf_guard::models::GradingStatus;

#[test]
fn test_grading_status_from_i32() {
    assert_eq!(GradingStatus::from_i32(0), "Pending");
    assert_eq!(GradingStatus::from_i32(1), "Accepted");
    assert_eq!(GradingStatus::from_i32(2), "Rejected");
    assert_eq!(GradingStatus::from_i32(3), "Unknown");
    assert_eq!(GradingStatus::from_i32(-1), "Unknown");
    assert_eq!(GradingStatus::from_i32(999), "Unknown");
}

#[test]
fn test_grading_status_enum_values() {
    assert_eq!(GradingStatus::Pending as i32, 0);
    assert_eq!(GradingStatus::Accepted as i32, 1);
    assert_eq!(GradingStatus::Rejected as i32, 2);
}

use psf_guard::api::{AppError, ImageQuery};
use psf_guard::models::{project_overview, select_images, AcquiredImage};

fn img(id: i32, project_id: i32, target_id: i32, grading_status: i32) -> AcquiredImage {
    AcquiredImage {
        id,
        project_id,
        target_id,
        acquired_date: Some(1693526400),
        filter_name: "Ha".to_string(),
        grading_status,
        metadata: "{}".to_string(),
        reject_reason: None,
        profile_id: None,
    }
}

fn query(status: Option<&str>, project_id: Option<i32>, limit: Option<i32>, offset: Option<i32>) -> ImageQuery {
    ImageQuery { project_id, target_id: None, status: status.map(|s| s.to_string()), limit, offset }
}

#[test]
fn grading_status_names() {
    assert_eq!(GradingStatus::parse("accepted").ok(), Some(GradingStatus::Accepted));
    assert_eq!(GradingStatus::parse("pending").ok(), Some(GradingStatus::Pending));
    assert_eq!(GradingStatus::parse("rejected").ok(), Some(GradingStatus::Rejected));
    assert!(matches!(GradingStatus::parse("Accepted"), Err(AppError::BadRequest(_))));
    assert_eq!(GradingStatus::Rejected.code(), 2);
}

#[test]
fn listing_filters_and_pages() {
    let images = vec![img(1, 1, 1, 0), img(2, 1, 2, 1), img(3, 2, 3, 1), img(4, 1, 1, 1), img(5, 1, 1, 2)];
    assert_eq!(select_images(&images, &query(None, None, None, None)).ok(), Some(vec![0, 1, 2, 3, 4]));
    assert_eq!(select_images(&images, &query(Some("accepted"), None, None, None)).ok(), Some(vec![1, 2, 3]));
    assert_eq!(select_images(&images, &query(Some("accepted"), Some(1), None, None)).ok(), Some(vec![1, 3]));
    assert_eq!(select_images(&images, &query(None, None, Some(2), Some(1))).ok(), Some(vec![1, 2]));
    assert_eq!(select_images(&images, &query(None, None, Some(10), Some(4))).ok(), Some(vec![4]));
    assert_eq!(select_images(&images, &query(None, None, None, Some(9))).ok(), Some(vec![]));
    assert_eq!(select_images(&images, &query(None, None, Some(0), None)).ok(), Some(vec![]));
    assert!(matches!(select_images(&images, &query(Some("graded"), None, None, None)), Err(AppError::BadRequest(_))));
    assert!(matches!(select_images(&images, &query(None, None, Some(-1), None)), Err(AppError::BadRequest(_))));
    assert!(matches!(select_images(&images, &query(None, None, None, Some(-5))), Err(AppError::BadRequest(_))));
    let by_target = ImageQuery { project_id: None, target_id: Some(1), status: None, limit: None, offset: None };
    assert_eq!(select_images(&images, &by_target).ok(), Some(vec![0, 3, 4]));
}

#[test]
fn project_overview_counts_filters_and_dates() {

    let mut a = img(1, 1, 1, 0);
    a.filter_name = "L".to_string();
    a.acquired_date = Some(500);
    let mut b = img(2, 1, 1, 1);
    b.filter_name = "Ha".to_string();
    b.acquired_date = None;
    let mut c = img(3, 1, 2, 1);
    c.filter_name = "L".to_string();
    c.acquired_date = Some(100);
    let mut d = img(4, 1, 2, 2);
    d.filter_name = "OIII".to_string();
    d.acquired_date = Some(900);
    let o = project_overview(&vec![a, b, c, d]);
    assert_eq!(o.total_images, 4);
    assert_eq!(o.pending_images, 1);
    assert_eq!(o.accepted_images, 2);
    assert_eq!(o.rejected_images, 1);
    assert_eq!(o.filters_used, vec!["L", "Ha", "OIII"]);
    assert_eq!(o.earliest_date, Some(100));
    assert_eq!(o.latest_date, Some(900));

    let empty = project_overview(&vec![]);
    assert_eq!(empty.total_images, 0);
    assert!(empty.filters_used.is_empty());
    assert_eq!(empty.earliest_date, None);
}
