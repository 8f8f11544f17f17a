//! The singleton refresh of the file-availability cache as a state machine.
//! The caller performs the work of each stage (rebuilding the directory tree,
//! reading the catalog, probing files) and reports it here; results gathered
//! during a run are published only when the whole run has finished.
use vstd::prelude::*;
use std::collections::HashMap;
use crate::file_cache::{FileCheckCache, RefreshDecision};
use crate::refresh::{sat, FileTally, RefreshProgress, RefreshStage};

verus! {

broadcast use vstd::std_specs::hash::group_hash_axioms;

/// The cache readers see, the progress of the running refresh, and the
/// results that refresh has gathered so far.
pub struct RefreshCoordinator {
    pub cache: FileCheckCache,
    pub progress: RefreshProgress,
    /// Per-project results of the running refresh, not yet published.
    pub pending_projects: HashMap<i32, bool>,
    /// Per-target results of the running refresh, not yet published.
    pub pending_targets: HashMap<i32, bool>,
}

impl RefreshCoordinator {
    /// Startup state at clock reading `now`: no data, no refresh.
    pub fn new(now: u64) -> (r: Self)
        ensures
            r.cache.projects_with_files@ == Map::<i32, bool>::empty(),
            r.cache.targets_with_files@ == Map::<i32, bool>::empty(),
            !r.cache.refresh_in_progress,
            !r.cache.has_initial_data,
            r.progress.stage == RefreshStage::Idle,
            r.pending_projects@ == Map::<i32, bool>::empty(),
            r.pending_targets@ == Map::<i32, bool>::empty(),
    {
        RefreshCoordinator {
            cache: FileCheckCache::new(now),
            progress: RefreshProgress::new(),
            pending_projects: HashMap::new(),
            pending_targets: HashMap::new(),
        }
    }

    /// A reader at clock reading `now`: claims the refresh when one is needed
    /// and none runs, and then resets the progress for `roots` image roots.
    pub fn request(&mut self, now: u64, roots: usize) -> (r: RefreshDecision)
        ensures
            (r, final(self).cache) == old(self).cache.decide(now),
            r.start_refresh ==> final(self).progress.stage == RefreshStage::InitializingDirectoryTree
                && final(self).progress.started_at == Some(now)
                && final(self).progress.directories_total == roots
                && final(self).progress.directories_processed == 0 && final(self).progress.files_scanned == 0
                && final(self).progress.projects_total == 0 && final(self).progress.projects_processed == 0
                && final(self).progress.targets_total == 0 && final(self).progress.targets_processed == 0
                && final(self).progress.files_found == 0 && final(self).progress.files_missing == 0
                && final(self).progress.current_directory_name is None
                && final(self).progress.current_project_name is None
                && final(self).pending_projects@ == Map::<i32, bool>::empty()
                && final(self).pending_targets@ == Map::<i32, bool>::empty(),
            !r.start_refresh ==> final(self).progress == old(self).progress
                && final(self).pending_projects@ == old(self).pending_projects@
                && final(self).pending_targets@ == old(self).pending_targets@,
    {
        let d = self.cache.ensure_cache_available(now);
        if d.start_refresh {
            self.progress = RefreshProgress::start(now, roots);
            self.pending_projects = HashMap::new();
            self.pending_targets = HashMap::new();
        }
        d
    }

    /// The directory-tree rebuild reached a directory boundary.
    pub fn directory_done(&mut self, processed: usize, files_scanned: usize, name: String)
        ensures
            final(self).cache == old(self).cache,
            final(self).progress == (RefreshProgress {
                directories_processed: processed,
                files_scanned,
                current_directory_name: Some(name),
                ..old(self).progress
            }),
            final(self).pending_projects@ == old(self).pending_projects@,
            final(self).pending_targets@ == old(self).pending_targets@,
    {
        self.progress.on_directory(processed, files_scanned, name);
    }

    /// The tree is ready and projects are being read from the catalog.
    pub fn loading_projects(&mut self)
        ensures
            final(self).cache == old(self).cache,
            final(self).progress == (RefreshProgress { stage: RefreshStage::LoadingProjects, ..old(self).progress }),
            final(self).pending_projects@ == old(self).pending_projects@,
            final(self).pending_targets@ == old(self).pending_targets@,
    {
        self.progress.begin_loading_projects();
    }

    /// `total` projects with images are to be probed.
    pub fn projects_loaded(&mut self, total: usize)
        ensures
            final(self).cache == old(self).cache,
            final(self).progress == (RefreshProgress {
                stage: RefreshStage::ProcessingProjects,
                projects_total: total,
                projects_processed: 0,
                ..old(self).progress
            }),
            final(self).pending_projects@ == old(self).pending_projects@,
            final(self).pending_targets@ == old(self).pending_targets@,
    {
        self.progress.begin_projects(total);
    }

    /// A project's images were probed: it has files when any was found.
    pub fn project_done(&mut self, id: i32, name: String, tally: FileTally)
        ensures
            final(self).cache == old(self).cache,
            final(self).pending_projects@ == old(self).pending_projects@.insert(id, tally.found > 0),
            final(self).pending_targets@ == old(self).pending_targets@,
            final(self).progress == (RefreshProgress {
                stage: RefreshStage::ProcessingProjects,
                current_project_name: Some(name),
                projects_processed: sat(old(self).progress.projects_processed + 1) as usize,
                files_found: sat(old(self).progress.files_found + tally.found) as usize,
                files_missing: sat(old(self).progress.files_missing + tally.missing) as usize,
                ..old(self).progress
            }),
    {
        self.pending_projects.insert(id, tally.found > 0);
        self.progress.on_project(name, tally);
    }

    /// The current project's `total` targets are to be probed.
    pub fn targets_listed(&mut self, total: usize)
        ensures
            final(self).cache == old(self).cache,
            final(self).progress == (RefreshProgress {
                stage: RefreshStage::ProcessingTargets,
                targets_total: total,
                targets_processed: 0,
                ..old(self).progress
            }),
            final(self).pending_projects@ == old(self).pending_projects@,
            final(self).pending_targets@ == old(self).pending_targets@,
    {
        self.progress.begin_targets(total);
    }

    /// A target's images were probed: it has files when any was found.
    pub fn target_done(&mut self, id: i32, tally: FileTally)
        ensures
            final(self).cache == old(self).cache,
            final(self).pending_targets@ == old(self).pending_targets@.insert(id, tally.found > 0),
            final(self).pending_projects@ == old(self).pending_projects@,
            final(self).progress == (RefreshProgress {
                stage: RefreshStage::ProcessingTargets,
                targets_processed: sat(old(self).progress.targets_processed + 1) as usize,
                files_found: sat(old(self).progress.files_found + tally.found) as usize,
                files_missing: sat(old(self).progress.files_missing + tally.missing) as usize,
                ..old(self).progress
            }),
    {
        self.pending_targets.insert(id, tally.found > 0);
        self.progress.on_target(tally);
    }

    /// The run finished at clock reading `now`: both maps are swapped in at
    /// once, the refresh is over and the cache has data.
    pub fn finish(&mut self, now: u64)
        ensures
            final(self).cache.projects_with_files@ == old(self).pending_projects@,
            final(self).cache.targets_with_files@ == old(self).pending_targets@,
            final(self).cache.last_updated == now,
            final(self).cache.has_initial_data,
            !final(self).cache.refresh_in_progress,
            final(self).cache.cache_duration == old(self).cache.cache_duration,
            final(self).progress == (RefreshProgress { stage: RefreshStage::Completed, ..old(self).progress }),
            final(self).pending_projects@ == Map::<i32, bool>::empty(),
            final(self).pending_targets@ == Map::<i32, bool>::empty(),
    {
        self.progress.begin_update();
        let mut projects: HashMap<i32, bool> = HashMap::new();
        let mut targets: HashMap<i32, bool> = HashMap::new();
        std::mem::swap(&mut projects, &mut self.pending_projects);
        std::mem::swap(&mut targets, &mut self.pending_targets);
        self.cache.publish(projects, targets, now);
        self.cache.mark_refresh_completed(now);
        self.progress.complete();
    }

    /// The run stopped on an error: nothing gathered is published, and the
    /// next reader may start another run.
    pub fn fail(&mut self)
        ensures
            final(self).cache == (FileCheckCache { refresh_in_progress: false, ..old(self).cache }),
            final(self).progress == (RefreshProgress { stage: RefreshStage::Idle, ..old(self).progress }),
            final(self).pending_projects@ == Map::<i32, bool>::empty(),
            final(self).pending_targets@ == Map::<i32, bool>::empty(),
    {
        self.cache.mark_refresh_failed();
        self.progress.stage = RefreshStage::Idle;
        self.pending_projects = HashMap::new();
        self.pending_targets = HashMap::new();
    }
}

} // verus!
