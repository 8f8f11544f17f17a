use psf_guard::api::AppError;
use psf_guard::paths::{acquisition_date_text, candidate_paths, choose_path, file_name_of, join_path};

#[test]
fn file_name_splits_on_both_separators() {
    assert_eq!(file_name_of("C:\\a\\b/c.fits"), "c.fits");
    assert_eq!(file_name_of("/x/y/z.fit"), "z.fit");
    assert_eq!(file_name_of("plain.fits"), "plain.fits");
    assert_eq!(file_name_of("dir/"), "");
    assert_eq!(file_name_of(""), "");
}

#[test]
fn joining_adds_one_slash() {
    assert_eq!(join_path("/img", "a"), "/img/a");
    assert_eq!(join_path("/img/", "a"), "/img/a");
}

#[test]
fn acquisition_date_formats_utc_day() {
    assert_eq!(acquisition_date_text(Some(1705352400)).ok(), Some("2024-01-15".to_string()));
    assert_eq!(acquisition_date_text(Some(0)).ok(), Some("1970-01-01".to_string()));
    match acquisition_date_text(None) {
        Err(AppError::BadRequest(m)) => assert_eq!(m, "Invalid date"),
        _ => panic!("expected a bad request"),
    }
    assert!(matches!(acquisition_date_text(Some(i64::MAX)), Err(AppError::BadRequest(_))));
}

#[test]
fn candidates_root_by_root() {
    let roots = vec!["/a".to_string(), "/b/".to_string()];
    let c = candidate_paths(&roots, "2024-01-15", "M42", "f.fits");
    assert_eq!(
        c,
        vec![
            "/a/2024-01-15/M42/f.fits",
            "/a/M42/2024-01-15/f.fits",
            "/a/f.fits",
            "/a/M42/f.fits",
            "/a/2024-01-15/f.fits",
            "/b/2024-01-15/M42/f.fits",
            "/b/M42/2024-01-15/f.fits",
            "/b/f.fits",
            "/b/M42/f.fits",
            "/b/2024-01-15/f.fits",
        ]
    );
    assert!(candidate_paths(&vec![], "d", "t", "f").is_empty());
}

#[test]
fn first_existing_candidate_wins() {
    let probes = vec![
        ("/a/1".to_string(), false),
        ("/a/2".to_string(), true),
        ("/a/3".to_string(), true),
    ];
    assert_eq!(choose_path(&probes, Some(("/idx".to_string(), true))).ok(), Some("/a/2".to_string()));
}

#[test]
fn index_entry_used_only_if_it_still_exists() {
    let probes = vec![("/a/1".to_string(), false)];
    assert_eq!(choose_path(&probes, Some(("/idx".to_string(), true))).ok(), Some("/idx".to_string()));
    assert!(matches!(choose_path(&probes, Some(("/idx".to_string(), false))), Err(AppError::NotFound)));
    assert!(matches!(choose_path(&probes, None), Err(AppError::NotFound)));
}
