//! Syncing the local template cache with the remote repository.
//!
//! A sync is a session: each call hands back the next file system or network
//! operation to perform, and the caller hands back how it went. The old cache
//! is removed only after the fetch into the staging directory succeeded, and the
//! catalog file is written only when the scan found at least one template.
use vstd::prelude::*;
use crate::config::{
    join_path, path_join, CODES_DIR_NAME, GITHUB_REPO_URL, HOME_SCAFFOLD_CONFIG, HOME_SCAFFOLD_DIR,
    SCAFFOLD_DIR_NAME, TEMP_DIR_SUFFIX,
};
use crate::descriptor::{descriptors, ScaffoldConfig};
use crate::error::ScaffoldError;
use crate::git::GitRepo;
use crate::index::{build_index, catalog_of, first_failure, ScanEntry};

verus! {

/// Where a sync reads and writes, all below one home directory.
#[derive(Debug)]
pub struct UpdateHandler {
    pub home_dir: String,
    pub repo: GitRepo,
    /// Parent of the cache root.
    pub scaffold_dir: String,
    /// The cache root.
    pub codes_dir: String,
    /// The sibling of the cache root that a fetch is staged in.
    pub temp_dir: String,
    /// Directory of the persisted catalog.
    pub config_dir: String,
    /// The persisted catalog.
    pub config_file: String,
}

impl UpdateHandler {
    pub open spec fn well_formed(&self) -> bool {
        &&& self.repo.url@ == GITHUB_REPO_URL@
        &&& self.scaffold_dir@ == path_join(self.home_dir@, SCAFFOLD_DIR_NAME@)
        &&& self.codes_dir@ == path_join(self.scaffold_dir@, CODES_DIR_NAME@)
        &&& self.temp_dir@ == self.codes_dir@ + TEMP_DIR_SUFFIX@
        &&& self.config_dir@ == path_join(self.home_dir@, HOME_SCAFFOLD_DIR@)
        &&& self.config_file@ == path_join(self.home_dir@, HOME_SCAFFOLD_CONFIG@)
    }

    pub fn new(home_dir: String) -> (r: UpdateHandler)
        ensures
            r.home_dir == home_dir,
            r.well_formed(),
    {
        let scaffold_dir = join_path(home_dir.as_str(), SCAFFOLD_DIR_NAME);
        let codes_dir = join_path(scaffold_dir.as_str(), CODES_DIR_NAME);
        let mut temp_dir = codes_dir.clone();
        temp_dir.append(TEMP_DIR_SUFFIX);
        let config_dir = join_path(home_dir.as_str(), HOME_SCAFFOLD_DIR);
        let config_file = join_path(home_dir.as_str(), HOME_SCAFFOLD_CONFIG);
        UpdateHandler {
            home_dir,
            repo: GitRepo::new(GITHUB_REPO_URL),
            scaffold_dir,
            codes_dir,
            temp_dir,
            config_dir,
            config_file,
        }
    }

    /// Starts a sync: its first operation makes sure the cache root's parent exists.
    pub fn start_sync(self) -> (r: (SyncSession, SyncAction))
        ensures
            r.0.handler == self,
            r.0.phase == SyncPhase::PreparingRoot,
            r.0.catalog@.len() == 0,
            r.1 == (SyncAction::EnsureDir { path: self.scaffold_dir }),
    {
        let action = SyncAction::EnsureDir { path: self.scaffold_dir.clone() };
        (SyncSession { handler: self, phase: SyncPhase::PreparingRoot, catalog: Vec::new() }, action)
    }
}

#[derive(Debug, Clone, Copy, PartialEq, Eq, Structural)]
pub enum SyncPhase {
    /// Waiting for the cache root's parent to exist.
    PreparingRoot,
    /// Waiting for a stale staging directory to be removed.
    ClearingStage,
    /// Waiting for the fetch into the staging directory.
    Fetching,
    /// Waiting for the old cache root to be removed.
    RemovingOld,
    /// Waiting for the staging directory to take the cache root's place.
    Renaming,
    /// Waiting for the scan of the new cache root.
    Scanning,
    /// Waiting for the catalog to be written.
    Persisting,
    /// The sync is over.
    Finished,
}

/// The next operation of a sync.
#[derive(Debug, PartialEq, Eq)]
pub enum SyncAction {
    /// Create `path` and its parents, unless it exists.
    EnsureDir { path: String },
    /// Remove the directory tree at `path`, if there is one.
    RemoveDir { path: String },
    /// Fetch the repository at `url` into `dest`.
    Fetch { url: String, dest: String },
    /// Rename the directory `from` to `to`.
    Rename { from: String, to: String },
    /// List the entries of `path` and read the manifest of each subdirectory.
    Scan { path: String },
    /// Write the session's catalog to `file`, creating `dir` first if needed.
    Persist { dir: String, file: String },
    /// The sync is over: the number of templates in the written catalog (zero
    /// when the scan found none and nothing was written), or why it failed.
    Finish { outcome: Result<usize, ScaffoldError> },
}

/// A sync in progress.
#[derive(Debug)]
pub struct SyncSession {
    pub handler: UpdateHandler,
    pub phase: SyncPhase,
    /// The catalog of the scan, once there was one.
    pub catalog: Vec<ScaffoldConfig>,
}

/// The phase after an operation other than the scan completed with `o`.
pub open spec fn advance_phase(p: SyncPhase, o: Result<(), String>) -> SyncPhase {
    if o is Err {
        SyncPhase::Finished
    } else {
        match p {
            SyncPhase::PreparingRoot => SyncPhase::ClearingStage,
            SyncPhase::ClearingStage => SyncPhase::Fetching,
            SyncPhase::Fetching => SyncPhase::RemovingOld,
            SyncPhase::RemovingOld => SyncPhase::Renaming,
            SyncPhase::Renaming => SyncPhase::Scanning,
            _ => SyncPhase::Finished,
        }
    }
}

/// The failure of the operation of phase `p`, with its cause.
pub open spec fn phase_failure(h: UpdateHandler, p: SyncPhase, cause: String) -> ScaffoldError {
    match p {
        SyncPhase::Fetching => ScaffoldError::Fetch { url: h.repo.url, dest: h.temp_dir, cause },
        SyncPhase::PreparingRoot => ScaffoldError::Io { path: h.scaffold_dir, cause },
        SyncPhase::ClearingStage => ScaffoldError::Io { path: h.temp_dir, cause },
        SyncPhase::RemovingOld => ScaffoldError::Io { path: h.codes_dir, cause },
        SyncPhase::Renaming => ScaffoldError::Io { path: h.temp_dir, cause },
        SyncPhase::Scanning => ScaffoldError::Io { path: h.codes_dir, cause },
        _ => ScaffoldError::Io { path: h.config_file, cause },
    }
}

/// The operation that follows when an operation other than the scan completed with `o`.
pub open spec fn advance_action(s: SyncSession, o: Result<(), String>) -> SyncAction {
    let h = s.handler;
    match o {
        Err(cause) => SyncAction::Finish { outcome: Err(phase_failure(h, s.phase, cause)) },
        Ok(_) => match s.phase {
            SyncPhase::PreparingRoot => SyncAction::RemoveDir { path: h.temp_dir },
            SyncPhase::ClearingStage => SyncAction::Fetch { url: h.repo.url, dest: h.temp_dir },
            SyncPhase::Fetching => SyncAction::RemoveDir { path: h.codes_dir },
            SyncPhase::RemovingOld => SyncAction::Rename { from: h.temp_dir, to: h.codes_dir },
            SyncPhase::Renaming => SyncAction::Scan { path: h.codes_dir },
            _ => SyncAction::Finish { outcome: Ok(s.catalog@.len() as usize) },
        },
    }
}

/// The phase after the scan reported `listing`.
pub open spec fn scanned_phase(listing: Result<Vec<ScanEntry>, String>) -> SyncPhase {
    match listing {
        Ok(entries) => if first_failure(entries@) is None && catalog_of(entries@).len() > 0 {
            SyncPhase::Persisting
        } else {
            SyncPhase::Finished
        },
        Err(_) => SyncPhase::Finished,
    }
}

/// The operation that follows the scan that reported `listing`.
pub open spec fn scanned_action(s: SyncSession, listing: Result<Vec<ScanEntry>, String>) -> SyncAction {
    let h = s.handler;
    match listing {
        Err(cause) => SyncAction::Finish { outcome: Err(phase_failure(h, SyncPhase::Scanning, cause)) },
        Ok(entries) => match first_failure(entries@) {
            Some(e) => SyncAction::Finish { outcome: Err(e) },
            None => if catalog_of(entries@).len() > 0 {
                SyncAction::Persist { dir: h.config_dir, file: h.config_file }
            } else {
                SyncAction::Finish { outcome: Ok(0) }
            },
        },
    }
}

impl SyncSession {
    fn failure(&self, cause: String) -> (r: ScaffoldError)
        ensures
            r == phase_failure(self.handler, self.phase, cause),
    {
        let h = &self.handler;
        match self.phase {
            SyncPhase::Fetching => ScaffoldError::Fetch {
                url: h.repo.url.clone(),
                dest: h.temp_dir.clone(),
                cause,
            },
            SyncPhase::PreparingRoot => ScaffoldError::Io { path: h.scaffold_dir.clone(), cause },
            SyncPhase::ClearingStage => ScaffoldError::Io { path: h.temp_dir.clone(), cause },
            SyncPhase::RemovingOld => ScaffoldError::Io { path: h.codes_dir.clone(), cause },
            SyncPhase::Renaming => ScaffoldError::Io { path: h.temp_dir.clone(), cause },
            SyncPhase::Scanning => ScaffoldError::Io { path: h.codes_dir.clone(), cause },
            _ => ScaffoldError::Io { path: h.config_file.clone(), cause },
        }
    }

    /// Takes the outcome of the last operation, which was not the scan, and
    /// returns the next one.
    pub fn advance(&mut self, outcome: Result<(), String>) -> (r: SyncAction)
        requires
            !(old(self).phase is Scanning),
            !(old(self).phase is Finished),
        ensures
            r == advance_action(*old(self), outcome),
            final(self).phase == advance_phase(old(self).phase, outcome),
            final(self).handler == old(self).handler,
            final(self).catalog == old(self).catalog,
    {
        let action = match outcome {
            Err(cause) => SyncAction::Finish { outcome: Err(self.failure(cause)) },
            Ok(_) => {
                let h = &self.handler;
                match self.phase {
                    SyncPhase::PreparingRoot => SyncAction::RemoveDir { path: h.temp_dir.clone() },
                    SyncPhase::ClearingStage => SyncAction::Fetch {
                        url: h.repo.url.clone(),
                        dest: h.temp_dir.clone(),
                    },
                    SyncPhase::Fetching => SyncAction::RemoveDir { path: h.codes_dir.clone() },
                    SyncPhase::RemovingOld => SyncAction::Rename {
                        from: h.temp_dir.clone(),
                        to: h.codes_dir.clone(),
                    },
                    SyncPhase::Renaming => SyncAction::Scan { path: h.codes_dir.clone() },
                    _ => SyncAction::Finish { outcome: Ok(self.catalog.len()) },
                }
            },
        };
        let next = match action {
            SyncAction::Finish { .. } => SyncPhase::Finished,
            _ => match self.phase {
                SyncPhase::PreparingRoot => SyncPhase::ClearingStage,
                SyncPhase::ClearingStage => SyncPhase::Fetching,
                SyncPhase::Fetching => SyncPhase::RemovingOld,
                SyncPhase::RemovingOld => SyncPhase::Renaming,
                _ => SyncPhase::Scanning,
            },
        };
        self.phase = next;
        action
    }

    /// Takes the result of the scan of the new cache root and returns the next
    /// operation. The session keeps the catalog that the scan built.
    pub fn scanned(&mut self, listing: Result<Vec<ScanEntry>, String>) -> (r: SyncAction)
        requires
            old(self).phase is Scanning,
        ensures
            r == scanned_action(*old(self), listing),
            final(self).phase == scanned_phase(listing),
            final(self).handler == old(self).handler,
            listing is Ok && first_failure(listing->Ok_0@) is None ==> descriptors(
                final(self).catalog@,
            ) == catalog_of(listing->Ok_0@),
    {
        match listing {
            Err(cause) => {
                let e = self.failure(cause);
                self.phase = SyncPhase::Finished;
                SyncAction::Finish { outcome: Err(e) }
            },
            Ok(entries) => match build_index(&entries) {
                Err(e) => {
                    self.phase = SyncPhase::Finished;
                    SyncAction::Finish { outcome: Err(e) }
                },
                Ok(catalog) => {
                    let found = catalog.len();
                    self.catalog = catalog;
                    if found > 0 {
                        self.phase = SyncPhase::Persisting;
                        SyncAction::Persist {
                            dir: self.handler.config_dir.clone(),
                            file: self.handler.config_file.clone(),
                        }
                    } else {
                        self.phase = SyncPhase::Finished;
                        SyncAction::Finish { outcome: Ok(0) }
                    }
                },
            },
        }
    }
}

} // verus!

verus! {

/// The catalog file is written only on a `Persist`, and a `Persist` comes only
/// from a scan that had no failing entry and found at least one template. A scan
/// that finds none ends the sync without writing, so whatever catalog was
/// persisted before is left as it was.
pub proof fn lemma_only_nonempty_scan_persists(
    s: SyncSession,
    o: Result<(), String>,
    listing: Result<Vec<ScanEntry>, String>,
)
    ensures
        !(advance_action(s, o) is Persist),
        scanned_action(s, listing) is Persist <==> (listing is Ok && first_failure(listing->Ok_0@) is None
            && catalog_of(listing->Ok_0@).len() > 0),
        (listing is Ok && first_failure(listing->Ok_0@) is None && catalog_of(listing->Ok_0@).len() == 0)
            ==> scanned_action(s, listing) == (SyncAction::Finish { outcome: Ok(0) })
            && scanned_phase(listing) == SyncPhase::Finished,
{
}

/// The old cache root is removed only after the fetch into the staging
/// directory succeeded, and any failed operation ends the sync with its failure.
pub proof fn lemma_old_cache_outlives_fetch(s: SyncSession, o: Result<(), String>)
    requires
        s.handler.well_formed(),
    ensures
        advance_action(s, o) == (SyncAction::RemoveDir { path: s.handler.codes_dir }) <==> (
        s.phase is Fetching && o is Ok),
        o is Err ==> advance_action(s, o) is Finish && advance_action(s, o)->outcome is Err
            && advance_phase(s.phase, o) == SyncPhase::Finished,
{
    reveal_strlit("-temp");
    assert(s.handler.temp_dir@.len() != s.handler.codes_dir@.len());
}

} // verus!
