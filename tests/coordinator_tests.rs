use psf_guard::coordinator::RefreshCoordinator;
use psf_guard::file_cache::RefreshStatus;
use psf_guard::refresh::{FileTally, RefreshStage};

#[test]
fn full_run_publishes_once_at_the_end() {
    let mut c = RefreshCoordinator::new(0);
    let d = c.request(0, 1);
    assert!(d.start_refresh);
    assert_eq!(d.status, RefreshStatus::InProgressWait);
    assert_eq!(c.progress.stage, RefreshStage::InitializingDirectoryTree);

    // A second reader during the run starts nothing.
    let again = c.request(1, 1);
    assert!(!again.start_refresh);
    assert_eq!(again.status, RefreshStatus::InProgressWait);

    c.directory_done(1, 12, "M42".to_string());
    c.loading_projects();
    c.projects_loaded(2);
    c.project_done(1, "Orion".to_string(), FileTally { found: 3, missing: 0 });
    c.targets_listed(1);
    c.target_done(10, FileTally { found: 0, missing: 2 });
    c.project_done(2, "Empty".to_string(), FileTally { found: 0, missing: 1 });

    // Nothing is visible before the end of the run.
    assert!(c.cache.projects_with_files.is_empty());
    assert_eq!(c.progress.files_found, 3);
    assert_eq!(c.progress.files_missing, 3);

    c.finish(50);
    assert!(c.cache.has_initial_data);
    assert!(!c.cache.refresh_in_progress);
    assert_eq!(c.progress.stage, RefreshStage::Completed);
    assert_eq!(c.progress.percentage(), 100);
    assert_eq!(c.cache.projects_with_files.get(&1), Some(&true));
    assert_eq!(c.cache.projects_with_files.get(&2), Some(&false));
    assert_eq!(c.cache.targets_with_files.get(&10), Some(&false));
    assert_eq!(c.cache.get_refresh_status(60), RefreshStatus::NotNeeded);
    assert_eq!(c.cache.get_refresh_status(111), RefreshStatus::NeedsRefresh);
}

#[test]
fn failed_run_keeps_previous_data() {
    let mut c = RefreshCoordinator::new(0);
    c.request(0, 1);
    c.project_done(1, "A".to_string(), FileTally { found: 1, missing: 0 });
    c.finish(10);

    let d = c.request(100, 1);
    assert!(d.start_refresh);
    assert_eq!(d.status, RefreshStatus::InProgressServeStale);
    c.project_done(1, "A".to_string(), FileTally { found: 0, missing: 1 });
    c.fail();
    assert!(!c.cache.refresh_in_progress);
    assert_eq!(c.cache.projects_with_files.get(&1), Some(&true));
    assert!(c.pending_projects.is_empty());
    assert_eq!(c.progress.stage, RefreshStage::Idle);
}
