//! Per-project and per-target file availability, its freshness, and the
//! decisions of the singleton refresh that rebuilds it.
use vstd::prelude::*;
use std::collections::HashMap;

verus! {

broadcast use vstd::std_specs::hash::group_hash_axioms;

/// Freshness of the file-availability cache as seen by a reader.
#[derive(Clone, Copy, Debug, PartialEq, Eq, Structural)]
pub enum RefreshStatus {
    /// Populated and within its lifetime.
    NotNeeded,
    /// A refresh runs and earlier data is served meanwhile.
    InProgressServeStale,
    /// A refresh runs and there is no data yet.
    InProgressWait,
    /// Empty or expired, and no refresh runs.
    NeedsRefresh,
}

/// Seconds from `start` to `now`, zero when the clock reads earlier.
pub open spec fn age_at(start: u64, now: u64) -> int {
    if now >= start { now - start } else { 0 }
}

/// Whether a project or target has at least one file that can be found,
/// with the time of the last publication and the state of the refresh.
pub struct FileCheckCache {
    pub projects_with_files: HashMap<i32, bool>,
    pub targets_with_files: HashMap<i32, bool>,
    /// Clock reading, in seconds, of the last publication.
    pub last_updated: u64,
    /// Lifetime of published data, in seconds.
    pub cache_duration: u64,
    pub refresh_in_progress: bool,
    pub has_initial_data: bool,
}

/// What a reader is told, and whether it must start the refresh task.
#[derive(Clone, Copy, Debug, PartialEq, Eq, Structural)]
pub struct RefreshDecision {
    pub status: RefreshStatus,
    pub start_refresh: bool,
}

/// Status of a refresh that is running, by whether earlier data exists.
pub open spec fn running_status(has_data: bool) -> RefreshStatus {
    if has_data { RefreshStatus::InProgressServeStale } else { RefreshStatus::InProgressWait }
}

/// The lifetime of published data, in seconds.
pub const CACHE_LIFETIME_SECS: u64 = 60;

impl FileCheckCache {
    /// Whether the data is older than its lifetime at clock reading `now`.
    pub open spec fn expired_at(&self, now: u64) -> bool {
        age_at(self.last_updated, now) > self.cache_duration
    }

    /// The status a reader observes at clock reading `now`.
    pub open spec fn status_at(&self, now: u64) -> RefreshStatus {
        if self.refresh_in_progress {
            running_status(self.has_initial_data)
        } else if self.expired_at(now) || (!self.has_initial_data
            && self.projects_with_files@.len() == 0 && self.targets_with_files@.len() == 0) {
            RefreshStatus::NeedsRefresh
        } else {
            RefreshStatus::NotNeeded
        }
    }

    /// A reader's decision at clock reading `now`, and the cache after it.
    pub open spec fn decide(&self, now: u64) -> (RefreshDecision, FileCheckCache) {
        if self.status_at(now) == RefreshStatus::NeedsRefresh {
            (
                RefreshDecision { status: running_status(self.has_initial_data), start_refresh: true },
                FileCheckCache { refresh_in_progress: true, ..*self },
            )
        } else {
            (RefreshDecision { status: self.status_at(now), start_refresh: false }, *self)
        }
    }

    /// An empty cache at clock reading `now`, with no refresh running.
    pub fn new(now: u64) -> (r: Self)
        ensures
            r.projects_with_files@ == Map::<i32, bool>::empty(),
            r.targets_with_files@ == Map::<i32, bool>::empty(),
            r.last_updated == now,
            r.cache_duration == CACHE_LIFETIME_SECS,
            !r.refresh_in_progress,
            !r.has_initial_data,
    {
        FileCheckCache {
            projects_with_files: HashMap::new(),
            targets_with_files: HashMap::new(),
            last_updated: now,
            cache_duration: CACHE_LIFETIME_SECS,
            refresh_in_progress: false,
            has_initial_data: false,
        }
    }

    /// Whether the data is older than its lifetime at clock reading `now`.
    pub fn is_expired(&self, now: u64) -> (r: bool)
        ensures
            r == self.expired_at(now),
    {
        let age = if now >= self.last_updated { now - self.last_updated } else { 0 };
        age > self.cache_duration
    }

    /// Drops all data and the refresh state.
    pub fn clear(&mut self, now: u64)
        ensures
            final(self).projects_with_files@ == Map::<i32, bool>::empty(),
            final(self).targets_with_files@ == Map::<i32, bool>::empty(),
            final(self).last_updated == now,
            final(self).cache_duration == old(self).cache_duration,
            !final(self).refresh_in_progress,
            !final(self).has_initial_data,
    {
        self.projects_with_files.clear();
        self.targets_with_files.clear();
        self.last_updated = now;
        self.refresh_in_progress = false;
        self.has_initial_data = false;
    }

    /// Records that the refresh task has been started.
    pub fn mark_refresh_started(&mut self)
        ensures
            *final(self) == (FileCheckCache { refresh_in_progress: true, ..*old(self) }),
    {
        self.refresh_in_progress = true;
    }

    /// Records that a refresh ran to its end at clock reading `now`.
    pub fn mark_refresh_completed(&mut self, now: u64)
        ensures
            *final(self) == (FileCheckCache {
                refresh_in_progress: false,
                has_initial_data: true,
                last_updated: now,
                ..*old(self)
            }),
            final(self).has_initial_data,
            !final(self).refresh_in_progress,
    {
        self.refresh_in_progress = false;
        self.has_initial_data = true;
        self.last_updated = now;
    }

    /// Records that a refresh stopped on an error: nothing is published and
    /// the next reader may start another.
    pub fn mark_refresh_failed(&mut self)
        ensures
            *final(self) == (FileCheckCache { refresh_in_progress: false, ..*old(self) }),
    {
        self.refresh_in_progress = false;
    }

    /// Replaces both maps at once with the results of a full scan.
    pub fn publish(&mut self, projects: HashMap<i32, bool>, targets: HashMap<i32, bool>, now: u64)
        ensures
            final(self).projects_with_files@ == projects@,
            final(self).targets_with_files@ == targets@,
            final(self).last_updated == now,
            final(self).has_initial_data,
            final(self).cache_duration == old(self).cache_duration,
            final(self).refresh_in_progress == old(self).refresh_in_progress,
    {
        self.projects_with_files = projects;
        self.targets_with_files = targets;
        self.last_updated = now;
        self.has_initial_data = true;
    }

    /// Whether readers are served earlier data while a refresh runs.
    pub fn should_serve_stale(&self) -> (r: bool)
        ensures
            r == (self.has_initial_data && self.refresh_in_progress),
    {
        self.has_initial_data && self.refresh_in_progress
    }

    /// The status a reader observes at clock reading `now`.
    pub fn get_refresh_status(&self, now: u64) -> (r: RefreshStatus)
        ensures
            r == self.status_at(now),
    {
        if self.refresh_in_progress {
            if self.has_initial_data {
                RefreshStatus::InProgressServeStale
            } else {
                RefreshStatus::InProgressWait
            }
        } else if self.is_expired(now) || (!self.has_initial_data
            && self.projects_with_files.is_empty() && self.targets_with_files.is_empty()) {
            RefreshStatus::NeedsRefresh
        } else {
            RefreshStatus::NotNeeded
        }
    }

    /// Claims the singleton refresh: when none runs, marks one as running and
    /// tells the caller to start it; otherwise reports the one that runs.
    pub fn try_begin_refresh(&mut self) -> (r: RefreshDecision)
        ensures
            r.start_refresh == !old(self).refresh_in_progress,
            r.status == running_status(old(self).has_initial_data),
            *final(self) == (FileCheckCache { refresh_in_progress: true, ..*old(self) }),
    {
        let start = !self.refresh_in_progress;
        if start {
            self.mark_refresh_started();
        }
        RefreshDecision { status: self.running_status(), start_refresh: start }
    }

    fn running_status(&self) -> (r: RefreshStatus)
        ensures
            r == running_status(self.has_initial_data),
    {
        if self.has_initial_data {
            RefreshStatus::InProgressServeStale
        } else {
            RefreshStatus::InProgressWait
        }
    }

    /// What a reader does at clock reading `now`: when a refresh is needed it
    /// claims the singleton refresh, otherwise it only reports the status.
    pub fn ensure_cache_available(&mut self, now: u64) -> (r: RefreshDecision)
        ensures
            (r, *final(self)) == old(self).decide(now),
    {
        let status = self.get_refresh_status(now);
        match status {
            RefreshStatus::NeedsRefresh => self.try_begin_refresh(),
            _ => RefreshDecision { status, start_refresh: false },
        }
    }
}

/// Only one refresh runs at a time: a reader is told to start the refresh
/// only when none runs, and from then on the cache shows one running, so no
/// later reader starts another until it is marked completed or failed.
pub proof fn lemma_refresh_singleton(c: FileCheckCache, now: u64)
    ensures
        c.refresh_in_progress ==> !c.decide(now).0.start_refresh && c.decide(now).1 == c,
        c.decide(now).0.start_refresh ==> !c.refresh_in_progress,
        c.decide(now).1.refresh_in_progress == (c.refresh_in_progress
            || c.decide(now).0.start_refresh),
{
}

/// Two readers in a row, with nothing else changing the cache, get the same
/// status; the second starts nothing and leaves the cache as the first left it.
pub proof fn lemma_ensure_available_idempotent(c: FileCheckCache, now: u64)
    ensures
        c.decide(now).1.decide(now).0.status == c.decide(now).0.status,
        !c.decide(now).1.decide(now).0.start_refresh,
        c.decide(now).1.decide(now).1 == c.decide(now).1,
{
}

} // verus!
