//! The disk cache's envelope and the rules around it.
//!
//! The last known list of worktrees is kept on disk, one file per repository,
//! so that the first frame can be painted before any live fetch completes.
//! Reading and writing the file is the caller's business; what the file is
//! called, how old an envelope may be, and which envelope is accepted for
//! which repository is decided here.

use crate::fetch::main_count;
use crate::model::{clone_text, CommitInfo, CommitInfoView, Worktree, WorktreeStatus, WorktreeView};
use crate::paths::{hash_path, is_at_or_beneath, join_path, joined_path, path_hash, path_within, user_cache_dir};
use crate::text::{hex_string, hexadecimal, push_text, str_equal};
use std::time::{SystemTime, UNIX_EPOCH};
use vstd::prelude::*;

verus! {

/// How long an envelope counts as fresh, in seconds.
pub const CACHE_TTL_SECS: u64 = 10;

// ---------------------------------------------------------------------------
// The serialisable forms
// ---------------------------------------------------------------------------

/// The change counters of a cached worktree.
#[derive(Debug, Clone, Copy, PartialEq, Eq, Structural)]
pub struct CachedWorktreeStatus {
    pub modified: usize,
    pub staged: usize,
    pub untracked: usize,
    pub ahead: usize,
    pub behind: usize,
}

impl CachedWorktreeStatus {
    /// The same counters as a live status.
    pub open spec fn as_status(self) -> WorktreeStatus {
        WorktreeStatus {
            modified: self.modified,
            staged: self.staged,
            untracked: self.untracked,
            ahead: self.ahead,
            behind: self.behind,
        }
    }
}

/// One cached entry of a worktree's recent history.
#[derive(Debug, PartialEq, Eq)]
pub struct CachedCommitInfo {
    pub hash: String,
    pub message: String,
    pub time_ago: String,
}

impl View for CachedCommitInfo {
    type V = CommitInfoView;

    open spec fn view(&self) -> CommitInfoView {
        CommitInfoView { hash: self.hash@, message: self.message@, time_ago: self.time_ago@ }
    }
}

impl DeepView for CachedCommitInfo {
    type V = CommitInfoView;

    open spec fn deep_view(&self) -> CommitInfoView {
        self@
    }
}

impl Clone for CachedCommitInfo {
    fn clone(&self) -> (r: Self)
        ensures
            r@ == self@,
    {
        CachedCommitInfo {
            hash: self.hash.clone(),
            message: self.message.clone(),
            time_ago: self.time_ago.clone(),
        }
    }
}

/// One cached worktree. It holds what a [`Worktree`] holds and is viewed as
/// one.
#[derive(Debug, PartialEq, Eq)]
pub struct CachedWorktree {
    pub path: String,
    pub branch: Option<String>,
    pub commit: String,
    pub commit_short: String,
    pub commit_message: String,
    pub commit_time: Option<i64>,
    pub is_main: bool,
    pub is_current: bool,
    pub is_bare: bool,
    pub is_detached: bool,
    pub is_locked: bool,
    pub lock_reason: Option<String>,
    pub is_prunable: bool,
    pub status: CachedWorktreeStatus,
    pub recent_commits: Vec<CachedCommitInfo>,
}

impl View for CachedWorktree {
    type V = WorktreeView;

    open spec fn view(&self) -> WorktreeView {
        WorktreeView {
            path: self.path@,
            branch: self.branch.deep_view(),
            commit: self.commit@,
            commit_short: self.commit_short@,
            commit_message: self.commit_message@,
            commit_time: self.commit_time,
            is_main: self.is_main,
            is_current: self.is_current,
            is_bare: self.is_bare,
            is_detached: self.is_detached,
            is_locked: self.is_locked,
            lock_reason: self.lock_reason.deep_view(),
            is_prunable: self.is_prunable,
            status: self.status.as_status(),
            recent_commits: self.recent_commits.deep_view(),
        }
    }
}

impl DeepView for CachedWorktree {
    type V = WorktreeView;

    open spec fn deep_view(&self) -> WorktreeView {
        self@
    }
}

fn clone_cached_commits(commits: &Vec<CachedCommitInfo>) -> (r: Vec<CachedCommitInfo>)
    ensures
        r.deep_view() == commits.deep_view(),
{
    let mut r: Vec<CachedCommitInfo> = Vec::new();
    let mut i: usize = 0;
    while i < commits.len()
        invariant
            i <= commits.len(),
            r@.len() == i,
            r.deep_view() == commits.deep_view().take(i as int),
        decreases commits.len() - i,
    {
        let ghost before = r@;
        let c = commits[i].clone();
        r.push(c);
        proof {
            assert forall|j: int| 0 <= j < i + 1 implies r.deep_view()[j]
                == commits.deep_view()[j] by {
                if j < i {
                    assert(r@[j] == before[j]);
                    assert(commits.deep_view().take(i as int)[j] == commits.deep_view()[j]);
                }
            }
            assert(r.deep_view() =~= commits.deep_view().take(i + 1));
        }
        i += 1;
    }
    assert(commits.deep_view().take(commits.len() as int) =~= commits.deep_view());
    r
}

impl Clone for CachedWorktree {
    fn clone(&self) -> (r: Self)
        ensures
            r@ == self@,
    {
        CachedWorktree {
            path: self.path.clone(),
            branch: clone_text(&self.branch),
            commit: self.commit.clone(),
            commit_short: self.commit_short.clone(),
            commit_message: self.commit_message.clone(),
            commit_time: self.commit_time,
            is_main: self.is_main,
            is_current: self.is_current,
            is_bare: self.is_bare,
            is_detached: self.is_detached,
            is_locked: self.is_locked,
            lock_reason: clone_text(&self.lock_reason),
            is_prunable: self.is_prunable,
            status: self.status,
            recent_commits: clone_cached_commits(&self.recent_commits),
        }
    }
}

/// The envelope that is written to disk.
#[derive(Debug, PartialEq, Eq)]
pub struct WorktreeCache {
    /// When the envelope was made, in seconds since the Unix epoch.
    pub timestamp: u64,
    /// The repository the envelope belongs to.
    pub repo_root: String,
    pub worktrees: Vec<CachedWorktree>,
}

/// What a [`WorktreeCache`] holds.
pub ghost struct WorktreeCacheView {
    pub timestamp: u64,
    pub repo_root: Seq<char>,
    pub worktrees: Seq<WorktreeView>,
}

impl View for WorktreeCache {
    type V = WorktreeCacheView;

    open spec fn view(&self) -> WorktreeCacheView {
        WorktreeCacheView {
            timestamp: self.timestamp,
            repo_root: self.repo_root@,
            worktrees: self.worktrees.deep_view(),
        }
    }
}

// ---------------------------------------------------------------------------
// Freshness
// ---------------------------------------------------------------------------

/// The age at `now` of something made at `timestamp`: the seconds between the
/// two, and zero where the clock has gone backwards.
pub open spec fn age_between(timestamp: u64, now: u64) -> int {
    if now >= timestamp {
        now - timestamp
    } else {
        0
    }
}

/// An envelope made at `timestamp` is fresh at `now` while its age is below
/// the time to live.
pub open spec fn fresh_between(timestamp: u64, now: u64) -> bool {
    age_between(timestamp, now) < CACHE_TTL_SECS
}

/// `SystemTime::now` as whole seconds since the Unix epoch, zero where the
/// clock stands before the epoch. Nothing is claimed about the value.
#[verifier::external_body]
fn unix_now() -> u64 {
    SystemTime::now().duration_since(UNIX_EPOCH).unwrap_or_default().as_secs()
}

impl WorktreeCache {
    /// The envelope's age in seconds at the time `now`.
    pub fn age_secs_at(&self, now: u64) -> (r: u64)
        ensures
            r == age_between(self.timestamp, now),
    {
        now.saturating_sub(self.timestamp)
    }

    /// Whether the envelope is still fresh at the time `now`: younger than
    /// [`CACHE_TTL_SECS`].
    pub fn is_fresh_at(&self, now: u64) -> (r: bool)
        ensures
            r == fresh_between(self.timestamp, now),
    {
        self.age_secs_at(now) < CACHE_TTL_SECS
    }

    /// Whether the envelope is still fresh by the system clock. Whatever the
    /// clock says, the answer is that of [`Self::is_fresh_at`] for the time it
    /// gave.
    pub fn is_fresh(&self) -> (r: bool)
        ensures
            exists|now: u64| r == fresh_between(self.timestamp, now),
    {
        let now = unix_now();
        self.is_fresh_at(now)
    }

    /// The envelope's age in seconds by the system clock. Whatever the clock
    /// says, the answer is that of [`Self::age_secs_at`] for the time it gave.
    pub fn age_secs(&self) -> (r: u64)
        ensures
            exists|now: u64| r == age_between(self.timestamp, now),
    {
        let now = unix_now();
        self.age_secs_at(now)
    }
}

/// An envelope made exactly one second less than the time to live ago is
/// fresh; one made one second more than the time to live ago is stale.
pub proof fn lemma_freshness_boundary(fresh: WorktreeCache, stale: WorktreeCache, now: u64)
    requires
        fresh.timestamp == now - CACHE_TTL_SECS + 1,
        stale.timestamp == now - CACHE_TTL_SECS - 1,
    ensures
        fresh_between(fresh.timestamp, now),
        !fresh_between(stale.timestamp, now),
{
}

/// Freshness is a threshold in the age: an envelope is fresh exactly while
/// fewer than [`CACHE_TTL_SECS`] seconds have passed since it was made, and
/// once stale it stays stale as time goes on.
pub proof fn lemma_freshness_threshold(timestamp: u64, now: u64, later: u64)
    requires
        timestamp <= now <= later,
    ensures
        fresh_between(timestamp, now) <==> now - timestamp < 10,
        !fresh_between(timestamp, now) ==> !fresh_between(timestamp, later),
{
}

// ---------------------------------------------------------------------------
// Making and accepting envelopes
// ---------------------------------------------------------------------------

/// The envelope for `worktrees` of the repository at `repo_root`, stamped
/// with the time `now`.
pub fn create_cache_at(repo_root: String, worktrees: Vec<CachedWorktree>, now: u64) -> (r:
    WorktreeCache)
    ensures
        r.timestamp == now,
        r.repo_root == repo_root,
        r.worktrees == worktrees,
{
    WorktreeCache { timestamp: now, repo_root, worktrees }
}

/// The envelope for `worktrees` of the repository at `repo_root`, stamped
/// with the system clock's time.
pub fn create_cache(repo_root: String, worktrees: Vec<CachedWorktree>) -> (r: WorktreeCache)
    ensures
        r.repo_root == repo_root,
        r.worktrees == worktrees,
{
    let now = unix_now();
    create_cache_at(repo_root, worktrees, now)
}

/// The envelope that a load for `repo_root` accepts, given what the file
/// holds: the stored envelope if it was written for that repository, and
/// none if it was written for another one (a stale file, or two roots whose
/// hashes collide).
pub open spec fn accepted(stored: WorktreeCacheView, repo_root: Seq<char>) -> Option<
    WorktreeCacheView,
> {
    if stored.repo_root == repo_root {
        Some(stored)
    } else {
        None
    }
}

/// What a load hands out for the envelope `cache` read from the file of
/// `repo_root`: the envelope itself if it was written for that repository,
/// and nothing if it was written for another one.
pub fn accept_cache(cache: WorktreeCache, repo_root: &str) -> (r: Option<WorktreeCache>)
    ensures
        match r {
            Some(c) => c == cache && accepted(cache@, repo_root@) == Some(c@),
            None => accepted(cache@, repo_root@) is None,
        },
{
    let same = str_equal(cache.repo_root.as_str(), repo_root);
    if same {
        Some(cache)
    } else {
        None
    }
}

/// Writing an envelope and reading it back for the same repository, the file
/// holding what was written, gives the worktrees that went in; reading it for
/// another repository gives nothing.
pub proof fn lemma_cache_round_trip(cache: WorktreeCache, other_root: Seq<char>)
    requires
        other_root != cache.repo_root@,
    ensures
        accepted(cache@, cache.repo_root@) == Some(cache@),
        accepted(cache@, cache.repo_root@).unwrap().worktrees == cache@.worktrees,
        accepted(cache@, other_root) is None,
{
}

// ---------------------------------------------------------------------------
// Between cached and live records
// ---------------------------------------------------------------------------

/// The live record made from a cached one for the repository at `repo_root`
/// and a process started at `current`: all as cached, but for the two flags
/// that depend on where one stands. The main worktree is the one at the
/// repository's root; the current one is where the process was started, or a
/// directory above that.
pub open spec fn revived(cached: WorktreeView, repo_root: Seq<char>, current: Seq<char>) -> WorktreeView {
    WorktreeView {
        is_main: cached.path == repo_root,
        is_current: path_within(current, cached.path),
        ..cached
    }
}

/// The live records made from cached ones.
pub open spec fn revived_all(
    cached: Seq<WorktreeView>,
    repo_root: Seq<char>,
    current: Seq<char>,
) -> Seq<WorktreeView> {
    Seq::new(cached.len(), |i: int| revived(cached[i], repo_root, current))
}

fn commits_from_cache(cached: Vec<CachedCommitInfo>) -> (r: Vec<CommitInfo>)
    ensures
        r.deep_view() == cached.deep_view(),
{
    let mut r: Vec<CommitInfo> = Vec::new();
    for c in it: cached
        invariant
            it.seq() == cached@,
            r.len() == it.index(),
            forall|j: int| 0 <= j < it.index() ==> (#[trigger] r[j])@ == cached[j]@,
    {
        r.push(CommitInfo { hash: c.hash, message: c.message, time_ago: c.time_ago });
    }
    assert(r.deep_view() =~= cached.deep_view());
    r
}

fn commits_to_cache(commits: &Vec<CommitInfo>) -> (r: Vec<CachedCommitInfo>)
    ensures
        r.deep_view() == commits.deep_view(),
{
    let mut r: Vec<CachedCommitInfo> = Vec::new();
    let mut i: usize = 0;
    while i < commits.len()
        invariant
            i <= commits.len(),
            r.len() == i,
            forall|j: int| 0 <= j < i ==> (#[trigger] r[j])@ == commits[j]@,
        decreases commits.len() - i,
    {
        let c = &commits[i];
        r.push(
            CachedCommitInfo {
                hash: c.hash.clone(),
                message: c.message.clone(),
                time_ago: c.time_ago.clone(),
            },
        );
        i += 1;
    }
    assert(r.deep_view() =~= commits.deep_view());
    r
}

/// The live records made from the cached ones of the repository at
/// `repo_root`, for a process started at `current_path`.
pub fn worktrees_from_cache(cached: Vec<CachedWorktree>, repo_root: &str, current_path: &str) -> (r:
    Vec<Worktree>)
    ensures
        r.deep_view() == revived_all(cached.deep_view(), repo_root@, current_path@),
{
    let root = repo_root.to_owned();
    let mut r: Vec<Worktree> = Vec::new();
    for c in it: cached
        invariant
            it.seq() == cached@,
            root@ == repo_root@,
            r.len() == it.index(),
            forall|j: int|
                0 <= j < it.index() ==> (#[trigger] r[j])@ == revived(
                    cached[j]@,
                    repo_root@,
                    current_path@,
                ),
    {
        let is_main = c.path == root;
        let is_current = is_at_or_beneath(current_path, c.path.as_str());
        r.push(
            Worktree {
                path: c.path,
                branch: c.branch,
                commit: c.commit,
                commit_short: c.commit_short,
                commit_message: c.commit_message,
                commit_time: c.commit_time,
                is_main,
                is_current,
                is_bare: c.is_bare,
                is_detached: c.is_detached,
                is_locked: c.is_locked,
                lock_reason: c.lock_reason,
                is_prunable: c.is_prunable,
                status: WorktreeStatus {
                    modified: c.status.modified,
                    staged: c.status.staged,
                    untracked: c.status.untracked,
                    ahead: c.status.ahead,
                    behind: c.status.behind,
                },
                recent_commits: commits_from_cache(c.recent_commits),
            },
        );
    }
    assert(r.deep_view() =~= revived_all(cached.deep_view(), repo_root@, current_path@));
    r
}

/// The cached forms of the live records: every field as it is.
pub fn worktrees_to_cache(worktrees: &Vec<Worktree>) -> (r: Vec<CachedWorktree>)
    ensures
        r.deep_view() == worktrees.deep_view(),
{
    let mut r: Vec<CachedWorktree> = Vec::new();
    let mut i: usize = 0;
    while i < worktrees.len()
        invariant
            i <= worktrees.len(),
            r.len() == i,
            forall|j: int| 0 <= j < i ==> (#[trigger] r[j])@ == worktrees[j]@,
        decreases worktrees.len() - i,
    {
        let w = &worktrees[i];
        r.push(
            CachedWorktree {
                path: w.path.clone(),
                branch: clone_text(&w.branch),
                commit: w.commit.clone(),
                commit_short: w.commit_short.clone(),
                commit_message: w.commit_message.clone(),
                commit_time: w.commit_time,
                is_main: w.is_main,
                is_current: w.is_current,
                is_bare: w.is_bare,
                is_detached: w.is_detached,
                is_locked: w.is_locked,
                lock_reason: clone_text(&w.lock_reason),
                is_prunable: w.is_prunable,
                status: CachedWorktreeStatus {
                    modified: w.status.modified,
                    staged: w.status.staged,
                    untracked: w.status.untracked,
                    ahead: w.status.ahead,
                    behind: w.status.behind,
                },
                recent_commits: commits_to_cache(&w.recent_commits),
            },
        );
        i += 1;
    }
    assert(r.deep_view() =~= worktrees.deep_view());
    r
}

/// Records that went through the cache come back as they were, but for the
/// two flags that are decided anew on the way back.
pub proof fn lemma_cached_records_come_back(
    ws: Seq<WorktreeView>,
    repo_root: Seq<char>,
    current: Seq<char>,
    i: int,
)
    requires
        0 <= i < ws.len(),
    ensures
        revived_all(ws, repo_root, current).len() == ws.len(),
        revived_all(ws, repo_root, current)[i] == (WorktreeView {
            is_main: ws[i].path == repo_root,
            is_current: path_within(current, ws[i].path),
            ..ws[i]
        }),
{
}

/// How many records of `ws` lie at the path `root`.
pub open spec fn count_at(ws: Seq<WorktreeView>, root: Seq<char>) -> nat
    decreases ws.len(),
{
    if ws.len() == 0 {
        0
    } else {
        count_at(ws.drop_last(), root) + if ws.last().path == root {
            1nat
        } else {
            0nat
        }
    }
}

/// Records that come from the cache hold as many main worktrees as the cache
/// holds records at the repository's root: exactly one where the envelope
/// was written from the records of a live fetch of this repository.
pub proof fn lemma_main_from_cache(
    cached: Seq<WorktreeView>,
    repo_root: Seq<char>,
    current: Seq<char>,
)
    ensures
        main_count(revived_all(cached, repo_root, current)) == count_at(cached, repo_root),
    decreases cached.len(),
{
    if cached.len() > 0 {
        lemma_main_from_cache(cached.drop_last(), repo_root, current);
        assert(revived_all(cached, repo_root, current).drop_last() =~= revived_all(
            cached.drop_last(),
            repo_root,
            current,
        ));
    }
}

// ---------------------------------------------------------------------------
// Where the file lives
// ---------------------------------------------------------------------------

/// The name of the cache file of the repository at `repo_root`: the hash of
/// the root in hexadecimal, with the extension `.json`.
pub open spec fn cache_file_name(repo_root: Seq<char>) -> Seq<char> {
    hexadecimal(path_hash(repo_root) as nat) + ".json"@
}

/// The directory that holds the cache files, given the user's cache
/// directory.
pub open spec fn cache_dir_under(base: Seq<char>) -> Seq<char> {
    joined_path(base, "wtt"@)
}

/// The directory that holds the cache files: `wtt` under the user's cache
/// directory, if the platform names one. Whether it names one, and which, is
/// for the platform and the environment to say; what is made of their answer
/// is said by [`cache_dir_from`].
pub fn cache_dir() -> (r: Option<String>)
    ensures
        r matches Some(dir) ==> exists|base: Seq<char>| dir@ == cache_dir_under(base),
{
    let base = user_cache_dir();
    let ghost named = base.deep_view();
    let r = cache_dir_from(base);
    assert(r matches Some(dir) ==> dir@ == cache_dir_under(named.unwrap()));
    r
}

/// The cache file of the repository at `repo_root` inside the directory
/// `dir`.
pub fn cache_file_in(dir: &str, repo_root: &str) -> (r: String)
    ensures
        r@ == joined_path(dir@, cache_file_name(repo_root@)),
{
    let mut name = hex_string(hash_path(repo_root));
    push_text(&mut name, ".json");
    join_path(dir, name.as_str())
}

/// The cache file of the repository at `repo_root`, if the platform names a
/// cache directory. Different roots get different files unless their hashes
/// collide. Whether there is a cache directory is for the platform and the
/// environment to say; what is made of their answer is said by
/// [`cache_file_from`].
pub fn cache_file_path(repo_root: &str) -> (r: Option<String>)
    ensures
        r matches Some(file) ==> exists|base: Seq<char>|
            file@ == joined_path(cache_dir_under(base), cache_file_name(repo_root@)),
{
    let dir = cache_dir();
    let r = cache_file_from(&dir, repo_root);
    proof {
        if dir is Some {
            let base = choose|base: Seq<char>| dir.unwrap()@ == cache_dir_under(base);
            assert(r.unwrap()@ == joined_path(cache_dir_under(base), cache_file_name(repo_root@)));
        }
    }
    r
}

/// The directory that holds the cache files, given the user's cache
/// directory as the platform names it: `wtt` under that directory, and none
/// where the platform names none.
pub open spec fn cache_dir_for(base: Option<Seq<char>>) -> Option<Seq<char>> {
    match base {
        Some(b) => Some(cache_dir_under(b)),
        None => None,
    }
}

/// The cache file of the repository at `repo_root`, given the directory that
/// holds the cache files: the file of that repository in that directory, and
/// none where there is no such directory.
pub open spec fn cache_file_for(dir: Option<Seq<char>>, repo_root: Seq<char>) -> Option<Seq<char>> {
    match dir {
        Some(d) => Some(joined_path(d, cache_file_name(repo_root))),
        None => None,
    }
}

/// The directory that holds the cache files, given the user's cache
/// directory as the platform names it, if it names one.
pub fn cache_dir_from(base: Option<String>) -> (r: Option<String>)
    ensures
        r.deep_view() == cache_dir_for(base.deep_view()),
{
    match base {
        Some(b) => Some(join_path(b.as_str(), "wtt")),
        None => None,
    }
}

/// The cache file of the repository at `repo_root`, given the directory that
/// holds the cache files, if there is one.
pub fn cache_file_from(dir: &Option<String>, repo_root: &str) -> (r: Option<String>)
    ensures
        r.deep_view() == cache_file_for(dir.deep_view(), repo_root@),
{
    match dir {
        Some(d) => Some(cache_file_in(d.as_str(), repo_root)),
        None => None,
    }
}

} // verus!
