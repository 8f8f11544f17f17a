//! The staged refresh of the file-availability cache: its progress record,
//! the percentage shown for it, and the per-image probes of the scan.
use vstd::prelude::*;
use crate::directory_tree::DirectoryTree;
use crate::paths::{basename, file_name_of};

verus! {

/// Stages of a refresh, in the order in which it passes them.
#[derive(Clone, Copy, Debug, PartialEq, Eq, Structural)]
pub enum RefreshStage {
    Idle,
    InitializingDirectoryTree,
    LoadingProjects,
    ProcessingProjects,
    ProcessingTargets,
    UpdatingCache,
    Completed,
}

/// Live telemetry of a refresh.
pub struct RefreshProgress {
    pub stage: RefreshStage,
    /// Clock reading, in seconds, at which the refresh started.
    pub started_at: Option<u64>,
    pub directories_total: usize,
    pub directories_processed: usize,
    pub files_scanned: usize,
    pub current_directory_name: Option<String>,
    pub projects_total: usize,
    pub projects_processed: usize,
    pub current_project_name: Option<String>,
    pub targets_total: usize,
    pub targets_processed: usize,
    pub files_found: usize,
    pub files_missing: usize,
}

/// `lo` plus the share `done / total` of `span`, with `done` capped at
/// `total`; just `lo` when there is nothing to do.
pub open spec fn scaled(lo: int, span: int, done: int, total: int) -> int {
    if total <= 0 {
        lo
    } else if done >= total {
        lo + span
    } else {
        lo + span * done / total
    }
}

/// Whole percent shown for a refresh: fixed per stage, and proportional to
/// the work done within the three stages that count items.
pub open spec fn percent_of(p: RefreshProgress) -> int {
    match p.stage {
        RefreshStage::Idle => 0,
        RefreshStage::InitializingDirectoryTree => scaled(
            2,
            8,
            p.directories_processed as int,
            p.directories_total as int,
        ),
        RefreshStage::LoadingProjects => 10,
        RefreshStage::ProcessingProjects => scaled(
            15,
            50,
            p.projects_processed as int,
            p.projects_total as int,
        ),
        RefreshStage::ProcessingTargets => scaled(
            65,
            25,
            p.targets_processed as int,
            p.targets_total as int,
        ),
        RefreshStage::UpdatingCache => 95,
        RefreshStage::Completed => 100,
    }
}

fn scaled_exec(lo: u32, span: u32, done: usize, total: usize) -> (r: u32)
    requires
        lo + span <= 100,
    ensures
        r == scaled(lo as int, span as int, done as int, total as int),
        lo <= r <= lo + span,
{
    if total == 0 {
        lo
    } else if done >= total {
        lo + span
    } else {
        proof {
            assert((span as int) * (done as int) <= 100 * 0x1_0000_0000_0000_0000) by (nonlinear_arith)
                requires
                    span <= 100,
                    0 <= done < 0x1_0000_0000_0000_0000,
            ;
        }
        let part: u128 = (span as u128) * (done as u128) / (total as u128);
        proof {
            assert((span as int) * (done as int) <= (span as int) * (total as int)) by (nonlinear_arith)
                requires
                    done < total,
                    span >= 0,
            ;
            assert((span as int) * (done as int) / (total as int) <= span as int) by (nonlinear_arith)
                requires
                    (span as int) * (done as int) <= (span as int) * (total as int),
                    total > 0,
            ;
            assert((span as int) * (done as int) / (total as int) >= 0) by (nonlinear_arith)
                requires
                    span >= 0,
                    done >= 0,
                    total > 0,
            ;
        }
        lo + part as u32
    }
}

impl RefreshProgress {
    /// No refresh has run yet.
    pub fn new() -> (r: Self)
        ensures
            r.stage == RefreshStage::Idle,
            r.started_at is None,
            r.directories_total == 0 && r.directories_processed == 0 && r.files_scanned == 0,
            r.projects_total == 0 && r.projects_processed == 0,
            r.targets_total == 0 && r.targets_processed == 0,
            r.files_found == 0 && r.files_missing == 0,
            r.current_directory_name is None && r.current_project_name is None,
    {
        RefreshProgress {
            stage: RefreshStage::Idle,
            started_at: None,
            directories_total: 0,
            directories_processed: 0,
            files_scanned: 0,
            current_directory_name: None,
            projects_total: 0,
            projects_processed: 0,
            current_project_name: None,
            targets_total: 0,
            targets_processed: 0,
            files_found: 0,
            files_missing: 0,
        }
    }

    /// A refresh starting at clock reading `now` over `roots` image roots:
    /// the directory tree is being rebuilt.
    pub fn start(now: u64, roots: usize) -> (r: Self)
        ensures
            r.stage == RefreshStage::InitializingDirectoryTree,
            r.started_at == Some(now),
            r.directories_total == roots,
            r.directories_processed == 0 && r.files_scanned == 0,
            r.projects_total == 0 && r.projects_processed == 0,
            r.targets_total == 0 && r.targets_processed == 0,
            r.files_found == 0 && r.files_missing == 0,
            r.current_directory_name is None && r.current_project_name is None,
    {
        let mut r = RefreshProgress::new();
        r.stage = RefreshStage::InitializingDirectoryTree;
        r.started_at = Some(now);
        r.directories_total = roots;
        r
    }

    /// Percentage shown for this progress, from 0 to 100.
    pub fn percentage(&self) -> (r: u32)
        ensures
            r == percent_of(*self),
            r <= 100,
    {
        match self.stage {
            RefreshStage::Idle => 0,
            RefreshStage::InitializingDirectoryTree => scaled_exec(
                2,
                8,
                self.directories_processed,
                self.directories_total,
            ),
            RefreshStage::LoadingProjects => 10,
            RefreshStage::ProcessingProjects => scaled_exec(
                15,
                50,
                self.projects_processed,
                self.projects_total,
            ),
            RefreshStage::ProcessingTargets => scaled_exec(
                65,
                25,
                self.targets_processed,
                self.targets_total,
            ),
            RefreshStage::UpdatingCache => 95,
            RefreshStage::Completed => 100,
        }
    }

    /// The directory-tree builder reached a directory boundary.
    pub fn on_directory(&mut self, processed: usize, files_scanned: usize, name: String)
        ensures
            *final(self) == (RefreshProgress {
                directories_processed: processed,
                files_scanned,
                current_directory_name: Some(name),
                ..*old(self)
            }),
    {
        self.directories_processed = processed;
        self.files_scanned = files_scanned;
        self.current_directory_name = Some(name);
    }

    /// Projects are being loaded from the catalog.
    pub fn begin_loading_projects(&mut self)
        ensures
            *final(self) == (RefreshProgress { stage: RefreshStage::LoadingProjects, ..*old(self) }),
    {
        self.stage = RefreshStage::LoadingProjects;
    }

    /// `total` projects are to be probed.
    pub fn begin_projects(&mut self, total: usize)
        ensures
            *final(self) == (RefreshProgress {
                stage: RefreshStage::ProcessingProjects,
                projects_total: total,
                projects_processed: 0,
                ..*old(self)
            }),
    {
        self.stage = RefreshStage::ProcessingProjects;
        self.projects_total = total;
        self.projects_processed = 0;
    }

    /// A project is being probed; its images gave `tally`.
    pub fn on_project(&mut self, name: String, tally: FileTally)
        ensures
            *final(self) == (RefreshProgress {
                stage: RefreshStage::ProcessingProjects,
                current_project_name: Some(name),
                projects_processed: sat(old(self).projects_processed + 1) as usize,
                files_found: sat(old(self).files_found + tally.found) as usize,
                files_missing: sat(old(self).files_missing + tally.missing) as usize,
                ..*old(self)
            }),
    {
        self.stage = RefreshStage::ProcessingProjects;
        self.current_project_name = Some(name);
        self.projects_processed = self.projects_processed.saturating_add(1);
        self.files_found = self.files_found.saturating_add(tally.found);
        self.files_missing = self.files_missing.saturating_add(tally.missing);
    }

    /// The targets of the current project, `total` of them, are being probed.
    pub fn begin_targets(&mut self, total: usize)
        ensures
            *final(self) == (RefreshProgress {
                stage: RefreshStage::ProcessingTargets,
                targets_total: total,
                targets_processed: 0,
                ..*old(self)
            }),
    {
        self.stage = RefreshStage::ProcessingTargets;
        self.targets_total = total;
        self.targets_processed = 0;
    }

    /// A target has been probed; its images gave `tally`.
    pub fn on_target(&mut self, tally: FileTally)
        ensures
            *final(self) == (RefreshProgress {
                stage: RefreshStage::ProcessingTargets,
                targets_processed: sat(old(self).targets_processed + 1) as usize,
                files_found: sat(old(self).files_found + tally.found) as usize,
                files_missing: sat(old(self).files_missing + tally.missing) as usize,
                ..*old(self)
            }),
    {
        self.stage = RefreshStage::ProcessingTargets;
        self.targets_processed = self.targets_processed.saturating_add(1);
        self.files_found = self.files_found.saturating_add(tally.found);
        self.files_missing = self.files_missing.saturating_add(tally.missing);
    }

    /// The new maps are being swapped in.
    pub fn begin_update(&mut self)
        ensures
            *final(self) == (RefreshProgress { stage: RefreshStage::UpdatingCache, ..*old(self) }),
    {
        self.stage = RefreshStage::UpdatingCache;
    }

    /// The refresh is over.
    pub fn complete(&mut self)
        ensures
            *final(self) == (RefreshProgress { stage: RefreshStage::Completed, ..*old(self) }),
    {
        self.stage = RefreshStage::Completed;
    }
}

/// A count capped at the largest `usize`.
pub open spec fn sat(n: int) -> int {
    if n > usize::MAX { usize::MAX as int } else { n }
}

/// Images of one project or target whose file the tree knows, and the others.
#[derive(Clone, Copy, Debug, PartialEq, Eq, Structural)]
pub struct FileTally {
    pub found: usize,
    pub missing: usize,
}

/// The string member `key` of an image's JSON metadata, if it has one.
pub uninterp spec fn metadata_text(metadata: Seq<char>, key: Seq<char>) -> Option<Seq<char>>;

/// Relies on `serde_json::from_str` into a `serde_json::Value`, then
/// `Value::as_str` on its member `key`: `None` when the text is not JSON or
/// the member is missing or not a string.
#[verifier::external_body]
pub(crate) fn metadata_string(metadata: &str, key: &str) -> (r: Option<String>)
    ensures
        match r {
            Some(s) => metadata_text(metadata@, key@) == Some(s@),
            None => metadata_text(metadata@, key@) is None,
        },
{
    match serde_json::from_str::<serde_json::Value>(metadata) {
        Ok(v) => v[key].as_str().map(|s| s.to_string()),
        Err(_) => None,
    }
}

/// The `FileName` string of an image's JSON metadata, if it has one.
pub open spec fn logged_file_name(metadata: Seq<char>) -> Option<Seq<char>> {
    metadata_text(metadata, "FileName"@)
}

/// The file name that an image's metadata logs, without its directories.
pub open spec fn image_basename(metadata: Seq<char>) -> Option<Seq<char>> {
    match logged_file_name(metadata) {
        Some(p) => Some(basename(p)),
        None => None,
    }
}

/// The file name that an image's metadata logs, without its directories.
pub fn image_file_name(metadata: &str) -> (r: Option<String>)
    ensures
        match r {
            Some(s) => image_basename(metadata@) == Some(s@),
            None => image_basename(metadata@) is None,
        },
{
    match metadata_string(metadata, "FileName") {
        Some(p) => Some(file_name_of(p.as_str())),
        None => None,
    }
}

/// Whether the tree knows the file an image's metadata logs.
pub open spec fn image_found(files: Map<Seq<char>, Vec<String>>, metadata: Seq<char>) -> bool {
    match image_basename(metadata) {
        Some(b) => files.contains_key(b),
        None => false,
    }
}

/// Number of images, given by their metadata, whose file the tree knows.
pub open spec fn found_count(files: Map<Seq<char>, Vec<String>>, metadata: Seq<String>) -> nat
    decreases metadata.len(),
{
    if metadata.len() == 0 {
        0
    } else {
        found_count(files, metadata.drop_last()) + if image_found(files, metadata.last()@) {
            1nat
        } else {
            0nat
        }
    }
}

/// Counts, over images given by their metadata, those whose file the tree
/// knows and those whose file it does not know or that log none.
pub fn tally_files(tree: &DirectoryTree, metadata: &Vec<String>) -> (r: FileTally)
    ensures
        r.found == found_count(tree.files(), metadata@),
        r.found + r.missing == metadata@.len(),
{
    let mut found: usize = 0;
    let mut missing: usize = 0;
    let mut i: usize = 0;
    while i < metadata.len()
        invariant
            i <= metadata@.len(),
            found == found_count(tree.files(), metadata@.subrange(0, i as int)),
            found + missing == i,
        decreases metadata@.len() - i,
    {
        assert(metadata@.subrange(0, i + 1).drop_last() =~= metadata@.subrange(0, i as int));
        let hit = match image_file_name(metadata[i].as_str()) {
            Some(name) => tree.find_file(name.as_str()).is_some(),
            None => false,
        };
        if hit {
            found = found + 1;
        } else {
            missing = missing + 1;
        }
        i = i + 1;
    }
    assert(metadata@.subrange(0, i as int) =~= metadata@);
    FileTally { found, missing }
}

/// Whether a project or target has files: at least one of its images'
/// files is known to the tree.
pub fn has_files(tree: &DirectoryTree, metadata: &Vec<String>) -> (r: bool)
    ensures
        r == (found_count(tree.files(), metadata@) > 0),
{
    tally_files(tree, metadata).found > 0
}

} // verus!
