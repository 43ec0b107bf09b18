//! From what was read in the repository to the list of worktree records.
//!
//! A refresh happens in two rounds. First the repository is asked which
//! worktrees it has; [`collect_worktrees`] turns their identities into
//! records. Then one unit of work per worktree reads its details, all units
//! running side by side; [`merge_details`] puts what they brought into the
//! records. A unit that fails leaves its own record with empty details and
//! touches no other.
//!
//! Reading the repository is the caller's business. Every rule on what a
//! record holds is here.

use crate::model::{
    CommitInfo, CommitInfoView, Worktree, WorktreeStatus, WorktreeView,
};
use crate::paths::{is_at_or_beneath, path_within};
use crate::text::{decimal, decimal_string, prefix, push_text, take_chars};
use vstd::prelude::*;

verus! {

/// How many characters of an object id are shown.
pub const SHORT_ID_LEN: usize = 7;

/// How many commits of a worktree's history are kept.
pub const RECENT_COMMITS: usize = 10;

// ---------------------------------------------------------------------------
// Identities
// ---------------------------------------------------------------------------

/// What the repository says of one worktree before any detail is read.
#[derive(Debug, PartialEq, Eq)]
pub struct WorktreeIdentity {
    /// Absolute location of the checkout.
    pub path: String,
    /// The branch HEAD points at, if any.
    pub branch: Option<String>,
    /// The commit HEAD resolves to; empty where it resolves to none.
    pub commit: String,
    /// HEAD names a commit directly.
    pub is_detached: bool,
    /// The location exists on disk.
    pub exists_on_disk: bool,
}

/// What a [`WorktreeIdentity`] holds.
pub ghost struct IdentityView {
    pub path: Seq<char>,
    pub branch: Option<Seq<char>>,
    pub commit: Seq<char>,
    pub is_detached: bool,
    pub exists_on_disk: bool,
}

impl View for WorktreeIdentity {
    type V = IdentityView;

    open spec fn view(&self) -> IdentityView {
        IdentityView {
            path: self.path@,
            branch: self.branch.deep_view(),
            commit: self.commit@,
            is_detached: self.is_detached,
            exists_on_disk: self.exists_on_disk,
        }
    }
}

impl DeepView for WorktreeIdentity {
    type V = IdentityView;

    open spec fn deep_view(&self) -> IdentityView {
        self@
    }
}

/// A worktree linked to the repository, as its listing names it.
#[derive(Debug, PartialEq, Eq)]
pub struct LinkedWorktree {
    pub identity: WorktreeIdentity,
    /// Why the worktree is locked; `None` where it is not locked.
    pub lock_reason: Option<String>,
}

/// What a [`LinkedWorktree`] holds.
pub ghost struct LinkedView {
    pub identity: IdentityView,
    pub lock_reason: Option<Seq<char>>,
}

impl View for LinkedWorktree {
    type V = LinkedView;

    open spec fn view(&self) -> LinkedView {
        LinkedView { identity: self.identity@, lock_reason: self.lock_reason.deep_view() }
    }
}

impl DeepView for LinkedWorktree {
    type V = LinkedView;

    open spec fn deep_view(&self) -> LinkedView {
        self@
    }
}

/// Where a record comes from: the repository's own working directory, or one
/// of the worktrees linked to it.
#[derive(Debug, PartialEq, Eq)]
pub enum WorktreeOrigin {
    Main(WorktreeIdentity),
    Linked(LinkedWorktree),
}

/// What a [`WorktreeOrigin`] holds.
pub ghost enum OriginView {
    Main(IdentityView),
    Linked(LinkedView),
}

impl View for WorktreeOrigin {
    type V = OriginView;

    open spec fn view(&self) -> OriginView {
        match self {
            WorktreeOrigin::Main(identity) => OriginView::Main(identity@),
            WorktreeOrigin::Linked(linked) => OriginView::Linked(linked@),
        }
    }
}

/// The context a fetch runs in, handed in rather than read from the process.
#[derive(Debug, PartialEq, Eq)]
pub struct FetchContext {
    /// The repository has no working directory of its own.
    pub repo_is_bare: bool,
    /// Where the process was started.
    pub current_path: String,
}

/// What a [`FetchContext`] holds.
pub ghost struct ContextView {
    pub repo_is_bare: bool,
    pub current_path: Seq<char>,
}

impl View for FetchContext {
    type V = ContextView;

    open spec fn view(&self) -> ContextView {
        ContextView { repo_is_bare: self.repo_is_bare, current_path: self.current_path@ }
    }
}

// ---------------------------------------------------------------------------
// From identity to record
// ---------------------------------------------------------------------------

/// The record of a worktree of the given origin, before its details are read.
///
/// The main worktree is never locked. Only the main worktree of a bare
/// repository is bare. A worktree whose location is missing is prunable. A
/// worktree is current where the process was started at or beneath it.
pub open spec fn record_of(origin: OriginView, context: ContextView) -> WorktreeView {
    let identity = match origin {
        OriginView::Main(identity) => identity,
        OriginView::Linked(linked) => linked.identity,
    };
    let lock_reason = match origin {
        OriginView::Main(_) => None,
        OriginView::Linked(linked) => linked.lock_reason,
    };
    WorktreeView {
        path: identity.path,
        branch: identity.branch,
        commit: identity.commit,
        commit_short: prefix(identity.commit, SHORT_ID_LEN as nat),
        commit_message: Seq::empty(),
        commit_time: None,
        is_main: origin is Main,
        is_current: path_within(context.current_path, identity.path),
        is_bare: context.repo_is_bare && origin is Main,
        is_detached: identity.is_detached,
        is_locked: lock_reason is Some,
        lock_reason,
        is_prunable: !identity.exists_on_disk,
        status: WorktreeStatus::zero(),
        recent_commits: Seq::empty(),
    }
}

/// The record of a worktree of the given origin, before its details are read.
pub fn create_worktree_info(origin: WorktreeOrigin, context: &FetchContext) -> (r: Worktree)
    ensures
        r@ == record_of(origin@, context@),
{
    let (identity, is_main, lock_reason) = match origin {
        WorktreeOrigin::Main(identity) => (identity, true, None),
        WorktreeOrigin::Linked(linked) => (linked.identity, false, linked.lock_reason),
    };
    let is_current = is_at_or_beneath(context.current_path.as_str(), identity.path.as_str());
    let commit_short = take_chars(identity.commit.as_str(), SHORT_ID_LEN);
    let r = Worktree {
        path: identity.path,
        branch: identity.branch,
        commit: identity.commit,
        commit_short,
        commit_message: String::new(),
        commit_time: None,
        is_main,
        is_current,
        is_bare: context.repo_is_bare && is_main,
        is_detached: identity.is_detached,
        is_locked: lock_reason.is_some(),
        lock_reason,
        is_prunable: !identity.exists_on_disk,
        status: WorktreeStatus::default(),
        recent_commits: Vec::new(),
    };
    assert(r.recent_commits.deep_view() =~= Seq::empty());
    r
}

// ---------------------------------------------------------------------------
// The list of records
// ---------------------------------------------------------------------------

/// Some record of `ws` has the path `path`.
pub open spec fn has_path(ws: Seq<WorktreeView>, path: Seq<char>) -> bool {
    exists|i: int| 0 <= i < ws.len() && (#[trigger] ws[i]).path == path
}

/// No two records of `ws` have the same path.
pub open spec fn paths_distinct(ws: Seq<WorktreeView>) -> bool {
    forall|i: int, j: int|
        0 <= i < j < ws.len() ==> (#[trigger] ws[i]).path != (#[trigger] ws[j]).path
}

/// How many records of `ws` are main worktrees.
pub open spec fn main_count(ws: Seq<WorktreeView>) -> nat
    decreases ws.len(),
{
    if ws.len() == 0 {
        0
    } else {
        main_count(ws.drop_last()) + if ws.last().is_main {
            1nat
        } else {
            0nat
        }
    }
}

/// The records of a repository whose main worktree is `main` and whose first
/// `k` linked worktrees are those of `linked`: the main worktree's record
/// first, then the linked ones in the order of the listing, one whose path is
/// already taken being left out.
pub open spec fn records_upto(
    main: IdentityView,
    linked: Seq<LinkedView>,
    context: ContextView,
    k: int,
) -> Seq<WorktreeView>
    decreases k,
{
    if k <= 0 {
        seq![record_of(OriginView::Main(main), context)]
    } else {
        let earlier = records_upto(main, linked, context, k - 1);
        let next = record_of(OriginView::Linked(linked[k - 1]), context);
        if has_path(earlier, next.path) {
            earlier
        } else {
            earlier.push(next)
        }
    }
}

/// The records of a repository whose main worktree is `main` and whose linked
/// worktrees are `linked`.
pub open spec fn records_of(main: IdentityView, linked: Seq<LinkedView>, context: ContextView) -> Seq<
    WorktreeView,
> {
    records_upto(main, linked, context, linked.len() as int)
}

/// Every list of records made from a repository's listing starts with the
/// main worktree, holds no other main worktree, and holds no path twice.
pub proof fn lemma_records_well_formed(
    main: IdentityView,
    linked: Seq<LinkedView>,
    context: ContextView,
    k: int,
)
    requires
        0 <= k <= linked.len(),
    ensures
        1 <= records_upto(main, linked, context, k).len() <= k + 1,
        records_upto(main, linked, context, k)[0] == record_of(OriginView::Main(main), context),
        forall|i: int|
            1 <= i < records_upto(main, linked, context, k).len() ==> !(#[trigger] records_upto(
                main,
                linked,
                context,
                k,
            )[i]).is_main,
        main_count(records_upto(main, linked, context, k)) == 1,
        paths_distinct(records_upto(main, linked, context, k)),
    decreases k,
{
    let first = record_of(OriginView::Main(main), context);
    if k <= 0 {
        assert(seq![first].drop_last() =~= Seq::<WorktreeView>::empty());
        assert(main_count(seq![first].drop_last()) == 0);
    } else {
        lemma_records_well_formed(main, linked, context, k - 1);
        let earlier = records_upto(main, linked, context, k - 1);
        let next = record_of(OriginView::Linked(linked[k - 1]), context);
        if !has_path(earlier, next.path) {
            let all = earlier.push(next);
            assert(all.drop_last() =~= earlier);
            assert forall|i: int, j: int| 0 <= i < j < all.len() implies (#[trigger] all[i]).path
                != (#[trigger] all[j]).path by {
                if j == earlier.len() {
                    assert(earlier[i].path != next.path);
                }
            }
        }
    }
}

/// The records of a repository, given the identity of its main worktree and
/// those of the linked worktrees in the order of the listing.
///
/// The result is never empty, its first record is the main worktree and no
/// other record is, and no path occurs twice: a linked worktree whose path is
/// already taken is left out.
pub fn collect_worktrees(
    main: WorktreeIdentity,
    linked: Vec<LinkedWorktree>,
    context: &FetchContext,
) -> (r: Vec<Worktree>)
    ensures
        r.deep_view() == records_of(main@, linked.deep_view(), context@),
        r.len() >= 1,
        r[0]@.is_main,
        main_count(r.deep_view()) == 1,
        paths_distinct(r.deep_view()),
{
    let ghost main_view = main@;
    let ghost linked_views = linked.deep_view();
    let ghost n = linked.len();
    let mut r: Vec<Worktree> = Vec::new();
    r.push(create_worktree_info(WorktreeOrigin::Main(main), context));
    assert(r.deep_view() =~= records_upto(main_view, linked_views, context@, 0));
    for next in it: linked
        invariant
            it.seq() == linked@,
            n == linked_views.len(),
            linked_views == linked.deep_view(),
            r.deep_view() == records_upto(main_view, linked_views, context@, it.index()),
            r.len() >= 1,
    {
        let ghost before = r.deep_view();
        assert(next@ == linked_views[it.index()]);
        let record = create_worktree_info(WorktreeOrigin::Linked(next), context);
        if !holds_path(&r, record.path.as_str()) {
            r.push(record);
            assert(r.deep_view() =~= before.push(record@));
        }
    }
    proof {
        lemma_records_well_formed(main_view, linked_views, context@, n as int);
    }
    r
}

/// Whether some record of `worktrees` has the path `path`.
pub fn holds_path(worktrees: &Vec<Worktree>, path: &str) -> (r: bool)
    ensures
        r == has_path(worktrees.deep_view(), path@),
{
    let wanted = path.to_owned();
    let mut i: usize = 0;
    while i < worktrees.len()
        invariant
            i <= worktrees.len(),
            wanted@ == path@,
            forall|j: int| 0 <= j < i ==> (#[trigger] worktrees.deep_view()[j]).path != path@,
        decreases worktrees.len() - i,
    {
        if worktrees[i].path == wanted {
            assert(worktrees.deep_view()[i as int].path == path@);
            return true;
        }
        i += 1;
    }
    false
}

// ---------------------------------------------------------------------------
// What one unit of work reads
// ---------------------------------------------------------------------------

/// How one changed path counts in a status.
#[derive(Debug, Clone, Copy, PartialEq, Eq, Structural)]
pub enum ChangeKind {
    /// A path that is not tracked.
    Untracked,
    /// A tracked path whose change is staged.
    Staged,
    /// Every other difference.
    Modified,
}

/// How far a branch and its upstream have moved apart.
#[derive(Debug, Clone, Copy, PartialEq, Eq, Structural)]
pub struct Divergence {
    /// Commits reachable from HEAD and not from the upstream.
    pub ahead: usize,
    /// Commits reachable from the upstream and not from HEAD.
    pub behind: usize,
}

/// What a status query found.
#[derive(Debug, PartialEq, Eq)]
pub struct StatusReading {
    /// One entry per changed path.
    pub changes: Vec<ChangeKind>,
    /// `None` where no upstream is configured.
    pub upstream: Option<Divergence>,
}

/// The HEAD commit as read.
#[derive(Debug, PartialEq, Eq)]
pub struct HeadCommit {
    /// The first line of the message.
    pub summary: String,
    /// Commit time in epoch seconds.
    pub time: i64,
}

/// One commit of the history as read.
#[derive(Debug, PartialEq, Eq)]
pub struct RawCommit {
    /// The full object id.
    pub id: String,
    /// The first line of the message.
    pub summary: String,
    /// Commit time in epoch seconds.
    pub time: i64,
}

/// What a [`RawCommit`] holds.
pub ghost struct RawCommitView {
    pub id: Seq<char>,
    pub summary: Seq<char>,
    pub time: i64,
}

impl View for RawCommit {
    type V = RawCommitView;

    open spec fn view(&self) -> RawCommitView {
        RawCommitView { id: self.id@, summary: self.summary@, time: self.time }
    }
}

impl DeepView for RawCommit {
    type V = RawCommitView;

    open spec fn deep_view(&self) -> RawCommitView {
        self@
    }
}

/// What one unit of work brought back. Each of its three queries may have
/// failed by itself, and is `None` then.
#[derive(Debug, PartialEq, Eq)]
pub struct DetailReport {
    pub status: Option<StatusReading>,
    /// `None` also where HEAD points at no commit yet.
    pub head: Option<HeadCommit>,
    /// Newest first.
    pub history: Option<Vec<RawCommit>>,
    /// The time at which the unit ran, in epoch seconds.
    pub now: i64,
}

/// What a [`DetailReport`] holds.
pub ghost struct ReportView {
    pub status: Option<(Seq<ChangeKind>, Option<Divergence>)>,
    pub head: Option<(Seq<char>, i64)>,
    pub history: Option<Seq<RawCommitView>>,
    pub now: i64,
}

impl View for DetailReport {
    type V = ReportView;

    open spec fn view(&self) -> ReportView {
        ReportView {
            status: match self.status {
                Some(reading) => Some((reading.changes@, reading.upstream)),
                None => None,
            },
            head: match self.head {
                Some(head) => Some((head.summary@, head.time)),
                None => None,
            },
            history: match self.history {
                Some(history) => Some(history.deep_view()),
                None => None,
            },
            now: self.now,
        }
    }
}

/// How one unit of work ended.
#[derive(Debug, PartialEq, Eq)]
pub enum DetailOutcome {
    /// The worktree could not be opened at all.
    Failed,
    Fetched(DetailReport),
}

/// What a [`DetailOutcome`] holds.
pub ghost enum OutcomeView {
    Failed,
    Fetched(ReportView),
}

impl View for DetailOutcome {
    type V = OutcomeView;

    open spec fn view(&self) -> OutcomeView {
        match self {
            DetailOutcome::Failed => OutcomeView::Failed,
            DetailOutcome::Fetched(report) => OutcomeView::Fetched(report@),
        }
    }
}

impl DeepView for DetailOutcome {
    type V = OutcomeView;

    open spec fn deep_view(&self) -> OutcomeView {
        self@
    }
}

// ---------------------------------------------------------------------------
// Status
// ---------------------------------------------------------------------------

/// How many entries of `changes` are of the kind `kind`.
pub open spec fn count_of(changes: Seq<ChangeKind>, kind: ChangeKind) -> nat
    decreases changes.len(),
{
    if changes.len() == 0 {
        0
    } else {
        count_of(changes.drop_last(), kind) + if changes.last() == kind {
            1nat
        } else {
            0nat
        }
    }
}

/// Every change counts once, under its own kind.
pub proof fn lemma_counts_add_up(changes: Seq<ChangeKind>)
    ensures
        count_of(changes, ChangeKind::Untracked) + count_of(changes, ChangeKind::Staged)
            + count_of(changes, ChangeKind::Modified) == changes.len(),
    decreases changes.len(),
{
    if changes.len() > 0 {
        lemma_counts_add_up(changes.drop_last());
    }
}

/// The status that a reading amounts to: each changed path counted under its
/// kind, and the distance to the upstream, zero both ways where there is no
/// upstream.
pub open spec fn status_of(changes: Seq<ChangeKind>, upstream: Option<Divergence>) -> WorktreeStatus {
    WorktreeStatus {
        modified: count_of(changes, ChangeKind::Modified) as usize,
        staged: count_of(changes, ChangeKind::Staged) as usize,
        untracked: count_of(changes, ChangeKind::Untracked) as usize,
        ahead: match upstream {
            Some(d) => d.ahead,
            None => 0,
        },
        behind: match upstream {
            Some(d) => d.behind,
            None => 0,
        },
    }
}

/// The status that a reading amounts to.
pub fn summarize_status(reading: &StatusReading) -> (r: WorktreeStatus)
    ensures
        r == status_of(reading.changes@, reading.upstream),
{
    let mut modified: usize = 0;
    let mut staged: usize = 0;
    let mut untracked: usize = 0;
    let mut i: usize = 0;
    while i < reading.changes.len()
        invariant
            i <= reading.changes.len(),
            modified == count_of(reading.changes@.take(i as int), ChangeKind::Modified),
            staged == count_of(reading.changes@.take(i as int), ChangeKind::Staged),
            untracked == count_of(reading.changes@.take(i as int), ChangeKind::Untracked),
        decreases reading.changes.len() - i,
    {
        proof {
            lemma_counts_add_up(reading.changes@.take(i as int));
            assert(reading.changes@.take(i + 1).drop_last() =~= reading.changes@.take(i as int));
        }
        match reading.changes[i] {
            ChangeKind::Untracked => {
                untracked += 1;
            },
            ChangeKind::Staged => {
                staged += 1;
            },
            ChangeKind::Modified => {
                modified += 1;
            },
        }
        i += 1;
    }
    assert(reading.changes@.take(reading.changes.len() as int) =~= reading.changes@);
    let (ahead, behind) = match reading.upstream {
        Some(d) => (d.ahead, d.behind),
        None => (0, 0),
    };
    WorktreeStatus { modified, staged, untracked, ahead, behind }
}

// ---------------------------------------------------------------------------
// History
// ---------------------------------------------------------------------------

/// The seconds from `then` to `now`, kept within the range of `i64`.
pub open spec fn elapsed(now: i64, then: i64) -> int {
    if now - then > i64::MAX {
        i64::MAX as int
    } else if now - then < i64::MIN {
        i64::MIN as int
    } else {
        now - then
    }
}

/// A span of `secs` seconds in the coarsest unit that fits: seconds below a
/// minute, minutes below an hour, hours below a day, days from there on.
pub open spec fn relative_age(secs: int) -> Seq<char> {
    if secs < 60 {
        decimal(secs) + "s ago"@
    } else if secs < 3600 {
        decimal(secs / 60) + "m ago"@
    } else if secs < 86400 {
        decimal(secs / 3600) + "h ago"@
    } else {
        decimal(secs / 86400) + "d ago"@
    }
}

/// The history entry shown for a commit read at the time `now`.
pub open spec fn entry_of(commit: RawCommitView, now: i64) -> CommitInfoView {
    CommitInfoView {
        hash: prefix(commit.id, SHORT_ID_LEN as nat),
        message: commit.summary,
        time_ago: relative_age(elapsed(now, commit.time)),
    }
}

/// The history shown for what was read at the time `now`: the entries of the
/// first [`RECENT_COMMITS`] commits.
pub open spec fn history_of(commits: Seq<RawCommitView>, now: i64) -> Seq<CommitInfoView> {
    Seq::new(
        if commits.len() <= RECENT_COMMITS {
            commits.len()
        } else {
            RECENT_COMMITS as nat
        },
        |i: int| entry_of(commits[i], now),
    )
}

/// How long ago `then` was at the time `now`, as shown to the user.
pub fn time_ago(now: i64, then: i64) -> (r: String)
    ensures
        r@ == relative_age(elapsed(now, then)),
{
    let secs: i64 = match now.checked_sub(then) {
        Some(d) => d,
        None => if then > 0 {
            i64::MIN
        } else {
            i64::MAX
        },
    };
    let (amount, unit) = if secs < 60 {
        (secs, "s ago")
    } else if secs < 3600 {
        (secs / 60, "m ago")
    } else if secs < 86400 {
        (secs / 3600, "h ago")
    } else {
        (secs / 86400, "d ago")
    };
    let mut r = decimal_string(amount);
    push_text(&mut r, unit);
    r
}

/// The history entry shown for a commit read at the time `now`.
pub fn commit_entry(commit: &RawCommit, now: i64) -> (r: CommitInfo)
    ensures
        r@ == entry_of(commit@, now),
{
    CommitInfo {
        hash: take_chars(commit.id.as_str(), SHORT_ID_LEN),
        message: commit.summary.clone(),
        time_ago: time_ago(now, commit.time),
    }
}

/// The history shown for what was read at the time `now`.
pub fn recent_history(commits: &Vec<RawCommit>, now: i64) -> (r: Vec<CommitInfo>)
    ensures
        r.deep_view() == history_of(commits.deep_view(), now),
{
    let limit: usize = if commits.len() <= RECENT_COMMITS {
        commits.len()
    } else {
        RECENT_COMMITS
    };
    let mut r: Vec<CommitInfo> = Vec::new();
    let mut i: usize = 0;
    while i < limit
        invariant
            i <= limit <= commits.len(),
            r.len() == i,
            forall|j: int| 0 <= j < i ==> (#[trigger] r[j])@ == entry_of(commits[j]@, now),
        decreases limit - i,
    {
        r.push(commit_entry(&commits[i], now));
        i += 1;
    }
    assert(r.deep_view() =~= history_of(commits.deep_view(), now));
    r
}

// ---------------------------------------------------------------------------
// Merging
// ---------------------------------------------------------------------------

/// Whether details are read for this record at all: not for a bare
/// repository, which has no working tree, and not for a worktree whose
/// location is missing.
pub open spec fn needs_details(w: WorktreeView) -> bool {
    !w.is_bare && !w.is_prunable
}

/// The positions among the first `k` records of `ws` for which details are
/// read, ascending.
pub open spec fn targets_upto(ws: Seq<WorktreeView>, k: int) -> Seq<usize>
    decreases k,
{
    if k <= 0 {
        Seq::empty()
    } else if needs_details(ws[k - 1]) {
        targets_upto(ws, k - 1).push((k - 1) as usize)
    } else {
        targets_upto(ws, k - 1)
    }
}

/// The positions of the records for which one unit of work each is started.
pub fn detail_targets(worktrees: &Vec<Worktree>) -> (r: Vec<usize>)
    ensures
        r@ == targets_upto(worktrees.deep_view(), worktrees.len() as int),
{
    let mut r: Vec<usize> = Vec::new();
    let mut i: usize = 0;
    while i < worktrees.len()
        invariant
            i <= worktrees.len(),
            r@ == targets_upto(worktrees.deep_view(), i as int),
        decreases worktrees.len() - i,
    {
        assert(worktrees.deep_view()[i as int] == worktrees[i as int]@);
        if !worktrees[i].is_bare && !worktrees[i].is_prunable {
            r.push(i);
        }
        i += 1;
    }
    r
}

/// The record `w` with empty details.
pub open spec fn without_details(w: WorktreeView) -> WorktreeView {
    WorktreeView {
        status: WorktreeStatus::zero(),
        commit_message: Seq::empty(),
        commit_time: None,
        recent_commits: Seq::empty(),
        ..w
    }
}

/// The record `w` with what `report` brought: each query that failed leaves
/// its part of the details empty.
pub open spec fn with_report(w: WorktreeView, report: ReportView) -> WorktreeView {
    WorktreeView {
        status: match report.status {
            Some((changes, upstream)) => status_of(changes, upstream),
            None => WorktreeStatus::zero(),
        },
        commit_message: match report.head {
            Some((summary, _)) => summary,
            None => Seq::empty(),
        },
        commit_time: match report.head {
            Some((_, time)) => Some(time),
            None => None,
        },
        recent_commits: match report.history {
            Some(commits) => history_of(commits, report.now),
            None => Seq::empty(),
        },
        ..w
    }
}

/// The record `w` once the unit of work in its slot has ended, `None`
/// standing for a slot that nothing was written to. A record that needs no
/// details stays as it is whatever its slot holds.
pub open spec fn with_outcome(w: WorktreeView, slot: Option<OutcomeView>) -> WorktreeView {
    if !needs_details(w) {
        w
    } else {
        match slot {
            None => w,
            Some(OutcomeView::Failed) => without_details(w),
            Some(OutcomeView::Fetched(report)) => with_report(w, report),
        }
    }
}

/// The slot of the record at position `i`: slots that are missing at the end
/// count as empty.
pub open spec fn slot_at(slots: Seq<Option<OutcomeView>>, i: int) -> Option<OutcomeView> {
    if 0 <= i < slots.len() {
        slots[i]
    } else {
        None
    }
}

/// The records `ws` once all units of work have ended, slot `i` holding how
/// the unit of record `i` ended.
pub open spec fn merged(ws: Seq<WorktreeView>, slots: Seq<Option<OutcomeView>>) -> Seq<
    WorktreeView,
> {
    Seq::new(ws.len(), |i: int| with_outcome(ws[i], slot_at(slots, i)))
}

/// The record `w` once the unit of work in its slot has ended.
pub fn apply_outcome(w: Worktree, slot: &Option<DetailOutcome>) -> (r: Worktree)
    ensures
        r@ == with_outcome(w@, slot.deep_view()),
{
    if w.is_bare || w.is_prunable {
        return w;
    }
    match slot {
        None => w,
        Some(DetailOutcome::Failed) => {
            let r = Worktree {
                status: WorktreeStatus::default(),
                commit_message: String::new(),
                commit_time: None,
                recent_commits: Vec::new(),
                ..w
            };
            assert(r.recent_commits.deep_view() =~= Seq::empty());
            r
        },
        Some(DetailOutcome::Fetched(report)) => {
            let status = match &report.status {
                Some(reading) => summarize_status(reading),
                None => WorktreeStatus::default(),
            };
            let (commit_message, commit_time) = match &report.head {
                Some(head) => (head.summary.clone(), Some(head.time)),
                None => (String::new(), None),
            };
            let recent_commits = match &report.history {
                Some(commits) => recent_history(commits, report.now),
                None => Vec::new(),
            };
            assert(report.history is None ==> recent_commits.deep_view() =~= Seq::empty());
            Worktree { status, commit_message, commit_time, recent_commits, ..w }
        },
    }
}

/// The records once all units of work have ended: every record with what its
/// own slot holds, and with nothing else.
///
/// Slot `i` belongs to record `i`. A slot that holds [`DetailOutcome::Failed`]
/// leaves its record with empty details; a slot that was never written to,
/// or that is missing, leaves its record as it is.
pub fn merge_details(worktrees: Vec<Worktree>, slots: &Vec<Option<DetailOutcome>>) -> (r: Vec<
    Worktree,
>)
    ensures
        r.deep_view() == merged(worktrees.deep_view(), slots.deep_view()),
        r.len() == worktrees.len(),
{
    let ghost ws = worktrees.deep_view();
    let mut r: Vec<Worktree> = Vec::new();
    let empty: Option<DetailOutcome> = None;
    for w in it: worktrees
        invariant
            it.seq() == worktrees@,
            ws == worktrees.deep_view(),
            empty is None,
            r.len() == it.index(),
            forall|j: int|
                0 <= j < it.index() ==> (#[trigger] r[j])@ == with_outcome(
                    ws[j],
                    slot_at(slots.deep_view(), j),
                ),
    {
        let i: usize = r.len();
        assert(w@ == ws[i as int]);
        let slot: &Option<DetailOutcome> = if i < slots.len() {
            &slots[i]
        } else {
            &empty
        };
        assert(slot.deep_view() == slot_at(slots.deep_view(), i as int));
        r.push(apply_outcome(w, slot));
    }
    assert(r.deep_view() =~= merged(ws, slots.deep_view()));
    r
}

// ---------------------------------------------------------------------------
// What holds of every refresh
// ---------------------------------------------------------------------------

/// Merging details changes no record's identity: path, branch, commit and
/// every flag stay.
pub proof fn lemma_merge_keeps_identity(
    ws: Seq<WorktreeView>,
    slots: Seq<Option<OutcomeView>>,
    i: int,
)
    requires
        0 <= i < ws.len(),
    ensures
        merged(ws, slots).len() == ws.len(),
        without_details(merged(ws, slots)[i]) == without_details(ws[i]),
{
}

/// A unit of work that fails leaves its own record with empty details and
/// changes no other: whatever one slot holds, the records of all other slots
/// come out the same.
pub proof fn lemma_failure_is_isolated(
    ws: Seq<WorktreeView>,
    slots: Seq<Option<OutcomeView>>,
    failed: int,
    other: int,
)
    requires
        0 <= failed < ws.len(),
        failed < slots.len(),
        0 <= other < ws.len(),
        other != failed,
    ensures
        merged(ws, slots.update(failed, Some(OutcomeView::Failed))).len() == ws.len(),
        merged(ws, slots.update(failed, Some(OutcomeView::Failed)))[other] == merged(
            ws,
            slots,
        )[other],
        needs_details(ws[failed]) ==> merged(
            ws,
            slots.update(failed, Some(OutcomeView::Failed)),
        )[failed] == without_details(ws[failed]),
{
}

/// Two sequences of records with the same main flags hold the same number of
/// main worktrees.
pub proof fn lemma_main_count_by_flags(a: Seq<WorktreeView>, b: Seq<WorktreeView>)
    requires
        a.len() == b.len(),
        forall|i: int| 0 <= i < a.len() ==> (#[trigger] a[i]).is_main == b[i].is_main,
    ensures
        main_count(a) == main_count(b),
    decreases a.len(),
{
    if a.len() > 0 {
        assert forall|i: int| 0 <= i < a.drop_last().len() implies (#[trigger] a.drop_last()[i]).is_main
            == b.drop_last()[i].is_main by {
            assert(a.drop_last()[i] == a[i]);
        }
        lemma_main_count_by_flags(a.drop_last(), b.drop_last());
    }
}

/// After a refresh exactly one record is the main worktree, and it comes
/// first in the collection, however the units of work ended.
pub proof fn lemma_one_main_after_refresh(
    main: IdentityView,
    linked: Seq<LinkedView>,
    context: ContextView,
    slots: Seq<Option<OutcomeView>>,
)
    ensures
        merged(records_of(main, linked, context), slots).len() >= 1,
        main_count(merged(records_of(main, linked, context), slots)) == 1,
        merged(records_of(main, linked, context), slots)[0].is_main,
        paths_distinct(merged(records_of(main, linked, context), slots)),
{
    let ws = records_of(main, linked, context);
    lemma_records_well_formed(main, linked, context, linked.len() as int);
    lemma_main_count_by_flags(merged(ws, slots), ws);
}

/// The two records agree in everything but the ages shown in their histories.
pub open spec fn same_but_ages(a: WorktreeView, b: WorktreeView) -> bool {
    &&& WorktreeView { recent_commits: Seq::empty(), ..a } == WorktreeView {
        recent_commits: Seq::empty(),
        ..b
    }
    &&& a.recent_commits.len() == b.recent_commits.len()
    &&& forall|i: int|
        0 <= i < a.recent_commits.len() ==> {
            &&& (#[trigger] a.recent_commits[i]).hash == b.recent_commits[i].hash
            &&& a.recent_commits[i].message == b.recent_commits[i].message
        }
}

/// The two slots hold the same readings, taken at whatever times.
pub open spec fn same_reading(a: Option<OutcomeView>, b: Option<OutcomeView>) -> bool {
    match (a, b) {
        (Some(OutcomeView::Fetched(x)), Some(OutcomeView::Fetched(y))) => ReportView {
            now: 0,
            ..x
        } == ReportView { now: 0, ..y },
        _ => a == b,
    }
}

/// Fetching twice from a repository that has not changed gives the same
/// records, but for the ages shown in the histories: where both fetches read
/// the same identities and the same details, the records agree in every other
/// field.
pub proof fn lemma_refetch_differs_in_ages_only(
    main: IdentityView,
    linked: Seq<LinkedView>,
    context: ContextView,
    first: Seq<Option<OutcomeView>>,
    second: Seq<Option<OutcomeView>>,
    i: int,
)
    requires
        first.len() == second.len(),
        forall|j: int| 0 <= j < first.len() ==> same_reading(#[trigger] first[j], second[j]),
        0 <= i < records_of(main, linked, context).len(),
    ensures
        same_but_ages(
            merged(records_of(main, linked, context), first)[i],
            merged(records_of(main, linked, context), second)[i],
        ),
{
    let ws = records_of(main, linked, context);
    if i < first.len() {
        assert(same_reading(first[i], second[i]));
    }
}

} // verus!
