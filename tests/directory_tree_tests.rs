use psf_guard::directory_tree::{in_excluded_directory, is_excluded_directory, DirectoryTree};

fn tree_of(files: &[&str]) -> DirectoryTree {
    let mut tree = DirectoryTree::new(vec!["/root".to_string()], 100);
    for f in files {
        let relative = f.strip_prefix("/root/").unwrap_or(f);
        if !in_excluded_directory(relative) {
            tree.add_file(f.to_string());
        }
    }
    tree
}

#[test]
fn test_directory_tree_basic() {
    let tree = tree_of(&[
        "/root/file1.fits",
        "/root/subdir1/file2.fit",
        "/root/subdir2/nested/file3.txt",
    ]);

    assert!(tree.find_file("file1.fits").is_some());
    assert!(tree.find_file("file2.fit").is_some());
    assert!(tree.find_file("file3.txt").is_some());
    assert!(tree.find_file("nonexistent.fits").is_none());

    let fits_files = tree.get_fits_files();
    assert_eq!(fits_files.len(), 2);

    let stats = tree.stats(100);
    assert_eq!(stats.total_files, 3);
    assert_eq!(stats.unique_filenames, 3);
}

#[test]
fn test_directory_tree_skipped_dirs() {
    let tree = tree_of(&["/root/DARK/dark1.fits", "/root/.git/config", "/root/valid/good.fits"]);

    assert!(tree.find_file("good.fits").is_some());
    assert!(tree.find_file("dark1.fits").is_none());
    assert!(tree.find_file("config").is_none());
}

#[test]
fn same_name_in_two_roots_keeps_both_paths_in_order() {
    let mut tree = DirectoryTree::new(vec!["/a".to_string(), "/b".to_string()], 0);
    tree.add_file("/a/x/L_001.fits".to_string());
    tree.add_file("/b/y/L_001.fits".to_string());
    let paths = tree.find_file("L_001.fits").unwrap();
    assert_eq!(paths, &vec!["/a/x/L_001.fits".to_string(), "/b/y/L_001.fits".to_string()]);
    assert_eq!(tree.find_file_first("L_001.fits").unwrap(), "/a/x/L_001.fits");
    let stats = tree.stats(0);
    assert_eq!(stats.total_files, 2);
    assert_eq!(stats.unique_filenames, 1);
    assert_eq!(tree.get_all_filenames(), vec!["L_001.fits".to_string()]);
}

#[test]
fn excluded_directory_names() {
    for name in ["DARK", "FLAT", "BIAS", ".git", "node_modules", "target", ".cache"] {
        assert!(is_excluded_directory(name));
    }
    assert!(!is_excluded_directory("dark"));
    assert!(!is_excluded_directory("M42"));
    assert!(!is_excluded_directory(""));
}

#[test]
fn directory_contents_and_age() {
    let mut tree = DirectoryTree::new(vec!["/r".to_string()], 1000);
    tree.add_directory("/r".to_string(), vec!["/r/a.fits".to_string()]);
    assert_eq!(tree.get_directory_contents("/r").unwrap().len(), 1);
    assert!(tree.get_directory_contents("/other").is_none());
    assert_eq!(tree.stats(1000 + 3725).format_age(), "1h2m");
    assert_eq!(tree.stats(1000 + 125).format_age(), "2m5s");
    assert_eq!(tree.stats(1000 + 59).format_age(), "59s");
    assert_eq!(tree.stats(10).age_secs, 0);
    assert!(tree.is_older_than(1301, 300));
    assert!(!tree.is_older_than(1300, 300));
    assert_eq!(tree.stats(1000).total_directories, 1);
}

#[test]
fn windows_style_paths_index_by_last_component() {
    let mut tree = DirectoryTree::new(vec![], 0);
    tree.add_file("C:\\imgs\\M31\\frame.FITS".to_string());
    assert!(tree.find_file("frame.FITS").is_some());
    assert_eq!(tree.get_fits_files(), vec!["C:\\imgs\\M31\\frame.FITS".to_string()]);
}

use psf_guard::directory_tree::{DirectoryTreeSlot, TREE_LIFETIME_SECS};

#[test]
fn tree_slot_rebuilds_when_empty_or_stale() {
    let mut slot = DirectoryTreeSlot::new();
    assert!(slot.needs_rebuild(0, TREE_LIFETIME_SECS));
    assert!(slot.fresh(0, TREE_LIFETIME_SECS).is_none());
    assert!(slot.stats(0).is_none());

    let mut tree = DirectoryTree::new(vec!["/r".to_string()], 1000);
    tree.add_file("/r/a.fits".to_string());
    slot.publish(tree);
    assert!(!slot.needs_rebuild(1300, TREE_LIFETIME_SECS));
    assert!(slot.fresh(1300, TREE_LIFETIME_SECS).is_some());
    assert!(slot.needs_rebuild(1301, TREE_LIFETIME_SECS));
    assert!(slot.fresh(1301, TREE_LIFETIME_SECS).is_none());
    assert_eq!(slot.stats(1010).unwrap().total_files, 1);
    assert_eq!(slot.stats(1010).unwrap().age_secs, 10);

    slot.clear();
    assert!(slot.needs_rebuild(1000, TREE_LIFETIME_SECS));
}

#[test]
fn build_indexes_scan_in_order() {
    let files = vec![
        "/r/a/x.fits".to_string(),
        "/r/b/x.fits".to_string(),
        "/r/y.txt".to_string(),
    ];
    let tree = DirectoryTree::build(vec!["/r".to_string()], 7, files);
    assert_eq!(tree.find_file("x.fits").unwrap(), &vec!["/r/a/x.fits".to_string(), "/r/b/x.fits".to_string()]);
    assert_eq!(tree.find_file("y.txt").unwrap().len(), 1);
    let stats = tree.stats(7);
    assert_eq!(stats.total_files, 3);
    assert_eq!(stats.unique_filenames, 2);
    assert_eq!(stats.roots, vec!["/r".to_string()]);
}

#[test]
fn excluded_directories_anywhere_below_the_root() {
    assert!(in_excluded_directory("DARK/dark1.fits"));
    assert!(in_excluded_directory("2024-01-15/M42/FLAT/f.fits"));
    assert!(in_excluded_directory("a\\.git\\config"));
    assert!(!in_excluded_directory("valid/good.fits"));
    assert!(!in_excluded_directory("DARK"));
    assert!(!in_excluded_directory("DARKS/x.fits"));
    assert!(!in_excluded_directory(""));
}

#[test]
fn build_names_each_file_name_once() {
    let files = vec![
        "/r/file1.fits".to_string(),
        "/r/subdir1/file2.fit".to_string(),
        "/r/subdir2/nested/file3.txt".to_string(),
        "/r/other/file1.fits".to_string(),
    ];
    let tree = DirectoryTree::build(vec!["/r".to_string()], 0, files);
    assert_eq!(tree.get_all_filenames(), vec!["file1.fits", "file2.fit", "file3.txt"]);
    assert_eq!(tree.get_fits_files().len(), 3);
    assert_eq!(tree.stats(0).unique_filenames, 3);
    assert_eq!(tree.stats(0).total_files, 4);
}

#[test]
fn files_matching_a_predicate() {
    let files = vec!["/r/a.fits".to_string(), "/r/b.txt".to_string(), "/s/a.fits".to_string()];
    let tree = DirectoryTree::build(vec![], 0, files);
    let fits = tree.find_files_matching(|n: &str| n.ends_with(".fits"));
    assert_eq!(fits, vec!["/r/a.fits".to_string(), "/s/a.fits".to_string()]);
    assert!(tree.find_files_matching(|_n: &str| false).is_empty());
    assert_eq!(tree.find_files_matching(|_n: &str| true).len(), 3);
}
