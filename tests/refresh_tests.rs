use psf_guard::directory_tree::DirectoryTree;
use psf_guard::refresh::{has_files, image_file_name, tally_files, FileTally, RefreshProgress, RefreshStage};

#[test]
fn percentage_by_stage() {
    let mut p = RefreshProgress::new();
    assert_eq!(p.percentage(), 0);
    p = RefreshProgress::start(5, 2);
    assert_eq!(p.stage, RefreshStage::InitializingDirectoryTree);
    assert_eq!(p.percentage(), 2);
    p.on_directory(1, 40, "2024-01-15".to_string());
    assert_eq!(p.percentage(), 6);
    p.on_directory(2, 80, "M42".to_string());
    assert_eq!(p.percentage(), 10);
    p.begin_loading_projects();
    assert_eq!(p.percentage(), 10);
    p.begin_projects(4);
    assert_eq!(p.percentage(), 15);
    p.on_project("A".to_string(), FileTally { found: 3, missing: 1 });
    assert_eq!(p.percentage(), 27);
    p.begin_targets(2);
    assert_eq!(p.percentage(), 65);
    p.on_target(FileTally { found: 1, missing: 0 });
    assert_eq!(p.percentage(), 77);
    assert_eq!(p.files_found, 4);
    assert_eq!(p.files_missing, 1);
    p.begin_update();
    assert_eq!(p.percentage(), 95);
    p.complete();
    assert_eq!(p.percentage(), 100);
    assert_eq!(p.started_at, Some(5));
}

#[test]
fn processed_beyond_total_is_capped() {
    let mut p = RefreshProgress::start(0, 0);
    assert_eq!(p.percentage(), 2);
    p.on_directory(9, 0, "x".to_string());
    assert_eq!(p.percentage(), 2);
    p.begin_projects(1);
    p.on_project("a".to_string(), FileTally { found: 0, missing: 0 });
    p.on_project("b".to_string(), FileTally { found: 0, missing: 0 });
    assert_eq!(p.percentage(), 65);
}

#[test]
fn file_name_from_metadata() {
    let m = r#"{"FileName": "C:\\Users\\astro\\2024-01-15\\M42\\LIGHT\\M42_L_0001.fits", "HFR": 2.4}"#;
    assert_eq!(image_file_name(m), Some("M42_L_0001.fits".to_string()));
    assert_eq!(image_file_name(r#"{"FileName": "/data/x/y.fits"}"#), Some("y.fits".to_string()));
    assert_eq!(image_file_name(r#"{"HFR": 2.4}"#), None);
    assert_eq!(image_file_name("not json"), None);
    assert_eq!(image_file_name(r#"{"FileName": 12}"#), None);
}

#[test]
fn tally_counts_each_image() {
    let mut tree = DirectoryTree::new(vec!["/img".to_string()], 0);
    tree.add_file("/img/2024-01-15/M42/a.fits".to_string());
    tree.add_file("/img/2024-01-15/M42/b.fits".to_string());
    let metadata = vec![
        r#"{"FileName": "D:\\n\\a.fits"}"#.to_string(),
        r#"{"FileName": "D:\\n\\c.fits"}"#.to_string(),
        r#"{"FileName": "D:\\n\\b.fits"}"#.to_string(),
        "{}".to_string(),
    ];
    let t = tally_files(&tree, &metadata);
    assert_eq!(t, FileTally { found: 2, missing: 2 });
    assert!(has_files(&tree, &metadata));
    assert!(!has_files(&tree, &vec![metadata[1].clone()]));
    assert!(!has_files(&tree, &vec![]));
}
