//! The worktree record and the small enumerations of the view model.

use crate::text::{count_string, decimal_digits, join, join_strings, push_char, push_text};
use vstd::prelude::*;

verus! {

// ---------------------------------------------------------------------------
// Status counters
// ---------------------------------------------------------------------------

/// Aggregate change counters of one worktree.
#[derive(Debug, Clone, Copy, PartialEq, Eq, Structural)]
pub struct WorktreeStatus {
    pub modified: usize,
    pub staged: usize,
    pub untracked: usize,
    pub ahead: usize,
    pub behind: usize,
}

/// The one summary part of a counter: its symbol and its value, or nothing
/// where the counter is zero.
pub open spec fn counter_part(symbol: char, n: nat) -> Seq<Seq<char>> {
    if n > 0 {
        seq![seq![symbol] + decimal_digits(n)]
    } else {
        Seq::empty()
    }
}

impl WorktreeStatus {
    /// All five counters at zero.
    pub open spec fn zero() -> WorktreeStatus {
        WorktreeStatus { modified: 0, staged: 0, untracked: 0, ahead: 0, behind: 0 }
    }

    /// Nothing differs and nothing is ahead or behind: all five counters are
    /// zero.
    pub open spec fn clean(self) -> bool {
        &&& self.modified == 0
        &&& self.staged == 0
        &&& self.untracked == 0
        &&& self.ahead == 0
        &&& self.behind == 0
    }

    /// Some path of the working tree is modified, staged or untracked. How
    /// far the branch is ahead of its upstream or behind it is another
    /// matter.
    pub open spec fn locally_changed(self) -> bool {
        self.modified != 0 || self.staged != 0 || self.untracked != 0
    }

    /// The non-zero counters in display order: staged, modified, untracked,
    /// ahead, behind.
    pub open spec fn summary_parts(self) -> Seq<Seq<char>> {
        counter_part('+', self.staged as nat) + counter_part('~', self.modified as nat)
            + counter_part('?', self.untracked as nat) + counter_part(
            '\u{2191}',
            self.ahead as nat,
        ) + counter_part('\u{2193}', self.behind as nat)
    }

    /// The one-line summary: `clean` where every counter is zero, else the
    /// non-zero counters separated by single spaces.
    pub open spec fn summary_text(self) -> Seq<char> {
        if self.clean() {
            "clean"@
        } else {
            join(self.summary_parts(), seq![' '])
        }
    }

    /// Whether the worktree is clean: no modified, staged or untracked path,
    /// and neither ahead of its upstream nor behind it.
    pub fn is_clean(&self) -> (r: bool)
        ensures
            r == self.clean(),
    {
        self.modified == 0 && self.staged == 0 && self.untracked == 0 && self.ahead == 0
            && self.behind == 0
    }

    /// Whether the working tree holds changes that are not committed: a
    /// modified, staged or untracked path. Ahead and behind counts do not
    /// matter here.
    pub fn has_local_changes(&self) -> (r: bool)
        ensures
            r == self.locally_changed(),
    {
        self.modified != 0 || self.staged != 0 || self.untracked != 0
    }

    /// The one-line summary shown in the list.
    pub fn summary(&self) -> (r: String)
        ensures
            r@ == self.summary_text(),
    {
        if self.is_clean() {
            return "clean".to_owned();
        }
        let mut parts: Vec<String> = Vec::new();
        push_counter(&mut parts, '+', self.staged);
        push_counter(&mut parts, '~', self.modified);
        push_counter(&mut parts, '?', self.untracked);
        push_counter(&mut parts, '\u{2191}', self.ahead);
        push_counter(&mut parts, '\u{2193}', self.behind);
        proof {
            reveal_strlit(" ");
            assert(" "@ =~= seq![' ']);
            assert(parts.deep_view() =~= self.summary_parts());
        }
        join_strings(&parts, " ")
    }
}

impl Default for WorktreeStatus {
    fn default() -> (r: Self)
        ensures
            r == WorktreeStatus::zero(),
    {
        WorktreeStatus { modified: 0, staged: 0, untracked: 0, ahead: 0, behind: 0 }
    }
}

fn push_counter(parts: &mut Vec<String>, symbol: char, n: usize)
    ensures
        final(parts).deep_view() == old(parts).deep_view() + counter_part(symbol, n as nat),
{
    if n > 0 {
        let mut part = String::new();
        push_char(&mut part, symbol);
        let digits = count_string(n);
        push_text(&mut part, digits.as_str());
        parts.push(part);
        assert(parts.deep_view() =~= old(parts).deep_view() + counter_part(symbol, n as nat));
    } else {
        assert(parts.deep_view() =~= old(parts).deep_view() + counter_part(symbol, n as nat));
    }
}

// ---------------------------------------------------------------------------
// Commits
// ---------------------------------------------------------------------------

/// One entry of a worktree's recent history.
#[derive(Debug, PartialEq, Eq)]
pub struct CommitInfo {
    /// The object id, shortened for display.
    pub hash: String,
    /// The first line of the commit message.
    pub message: String,
    /// How long ago the commit was made, as shown to the user.
    pub time_ago: String,
}

/// What a [`CommitInfo`] holds.
pub ghost struct CommitInfoView {
    pub hash: Seq<char>,
    pub message: Seq<char>,
    pub time_ago: Seq<char>,
}

impl View for CommitInfo {
    type V = CommitInfoView;

    open spec fn view(&self) -> CommitInfoView {
        CommitInfoView { hash: self.hash@, message: self.message@, time_ago: self.time_ago@ }
    }
}

impl DeepView for CommitInfo {
    type V = CommitInfoView;

    open spec fn deep_view(&self) -> CommitInfoView {
        self@
    }
}

impl Clone for CommitInfo {
    fn clone(&self) -> (r: Self)
        ensures
            r@ == self@,
    {
        CommitInfo {
            hash: self.hash.clone(),
            message: self.message.clone(),
            time_ago: self.time_ago.clone(),
        }
    }
}

// ---------------------------------------------------------------------------
// The worktree record
// ---------------------------------------------------------------------------

/// One checkout of the repository.
///
/// A record is built whole, by a cache load or a live fetch, and replaced
/// whole by the next one.
#[derive(Debug, PartialEq, Eq)]
pub struct Worktree {
    /// Absolute location of the checkout; the key of the record.
    pub path: String,
    /// The checked-out branch; `None` on a detached HEAD.
    pub branch: Option<String>,
    /// Full object id of HEAD, empty where HEAD points at nothing yet.
    pub commit: String,
    /// The first seven characters of `commit`.
    pub commit_short: String,
    /// First line of the HEAD commit's message; empty until details are in.
    pub commit_message: String,
    /// Time of the HEAD commit in epoch seconds; `None` until details are in.
    pub commit_time: Option<i64>,
    /// The repository's primary working directory (or the bare repository).
    pub is_main: bool,
    /// The process was started at or beneath `path`.
    pub is_current: bool,
    pub is_bare: bool,
    pub is_detached: bool,
    pub is_locked: bool,
    pub lock_reason: Option<String>,
    /// `path` is missing on disk.
    pub is_prunable: bool,
    pub status: WorktreeStatus,
    /// Newest first.
    pub recent_commits: Vec<CommitInfo>,
}

/// What a [`Worktree`] holds.
pub ghost struct WorktreeView {
    pub path: Seq<char>,
    pub branch: Option<Seq<char>>,
    pub commit: Seq<char>,
    pub commit_short: Seq<char>,
    pub commit_message: Seq<char>,
    pub commit_time: Option<i64>,
    pub is_main: bool,
    pub is_current: bool,
    pub is_bare: bool,
    pub is_detached: bool,
    pub is_locked: bool,
    pub lock_reason: Option<Seq<char>>,
    pub is_prunable: bool,
    pub status: WorktreeStatus,
    pub recent_commits: Seq<CommitInfoView>,
}

impl View for Worktree {
    type V = WorktreeView;

    open spec fn view(&self) -> WorktreeView {
        WorktreeView {
            path: self.path@,
            branch: self.branch.deep_view(),
            commit: self.commit@,
            commit_short: self.commit_short@,
            commit_message: self.commit_message@,
            commit_time: self.commit_time,
            is_main: self.is_main,
            is_current: self.is_current,
            is_bare: self.is_bare,
            is_detached: self.is_detached,
            is_locked: self.is_locked,
            lock_reason: self.lock_reason.deep_view(),
            is_prunable: self.is_prunable,
            status: self.status,
            recent_commits: self.recent_commits.deep_view(),
        }
    }
}

impl DeepView for Worktree {
    type V = WorktreeView;

    open spec fn deep_view(&self) -> WorktreeView {
        self@
    }
}

/// A copy of an optional text.
pub fn clone_text(t: &Option<String>) -> (r: Option<String>)
    ensures
        r.deep_view() == t.deep_view(),
{
    match t {
        Some(s) => Some(s.clone()),
        None => None,
    }
}

/// A copy of a history.
pub fn clone_commits(commits: &Vec<CommitInfo>) -> (r: Vec<CommitInfo>)
    ensures
        r.deep_view() == commits.deep_view(),
{
    let mut r: Vec<CommitInfo> = Vec::new();
    let mut i: usize = 0;
    while i < commits.len()
        invariant
            i <= commits.len(),
            r@.len() == i,
            r.deep_view() == commits.deep_view().take(i as int),
        decreases commits.len() - i,
    {
        let ghost before = r@;
        let c = commits[i].clone();
        r.push(c);
        proof {
            assert(r@ == before.push(c));
            assert forall|j: int| 0 <= j < i + 1 implies r.deep_view()[j]
                == commits.deep_view()[j] by {
                if j < i {
                    assert(r@[j] == before[j]);
                    assert(commits.deep_view().take(i as int)[j] == commits.deep_view()[j]);
                }
            }
            assert(r.deep_view() =~= commits.deep_view().take(i + 1));
        }
        i += 1;
    }
    assert(commits.deep_view().take(commits.len() as int) =~= commits.deep_view());
    r
}

impl Clone for Worktree {
    fn clone(&self) -> (r: Self)
        ensures
            r@ == self@,
    {
        Worktree {
            path: self.path.clone(),
            branch: clone_text(&self.branch),
            commit: self.commit.clone(),
            commit_short: self.commit_short.clone(),
            commit_message: self.commit_message.clone(),
            commit_time: self.commit_time,
            is_main: self.is_main,
            is_current: self.is_current,
            is_bare: self.is_bare,
            is_detached: self.is_detached,
            is_locked: self.is_locked,
            lock_reason: clone_text(&self.lock_reason),
            is_prunable: self.is_prunable,
            status: self.status,
            recent_commits: clone_commits(&self.recent_commits),
        }
    }
}

/// The name shown for a worktree: its branch, or a placeholder where it has
/// none.
pub open spec fn display_name(w: WorktreeView) -> Seq<char> {
    match w.branch {
        Some(b) => b,
        None => if w.is_detached {
            "(detached)"@
        } else {
            "(bare)"@
        },
    }
}

impl Worktree {
    /// The name shown for this worktree: its branch, or `(detached)` or
    /// `(bare)` where it has none.
    pub fn branch_label(&self) -> (r: &str)
        ensures
            r@ == display_name(self@),
    {
        match &self.branch {
            Some(b) => b.as_str(),
            None => if self.is_detached {
                "(detached)"
            } else {
                "(bare)"
            },
        }
    }
}

// ---------------------------------------------------------------------------
// Branches
// ---------------------------------------------------------------------------

/// A branch offered in a selection dialog.
#[derive(Debug, PartialEq, Eq)]
pub struct Branch {
    pub name: String,
    pub is_remote: bool,
    pub is_current: bool,
}

/// What a [`Branch`] holds.
pub ghost struct BranchView {
    pub name: Seq<char>,
    pub is_remote: bool,
    pub is_current: bool,
}

impl View for Branch {
    type V = BranchView;

    open spec fn view(&self) -> BranchView {
        BranchView { name: self.name@, is_remote: self.is_remote, is_current: self.is_current }
    }
}

impl DeepView for Branch {
    type V = BranchView;

    open spec fn deep_view(&self) -> BranchView {
        self@
    }
}

impl Clone for Branch {
    fn clone(&self) -> (r: Self)
        ensures
            r@ == self@,
    {
        Branch { name: self.name.clone(), is_remote: self.is_remote, is_current: self.is_current }
    }
}

// ---------------------------------------------------------------------------
// Enumerations of the view model
// ---------------------------------------------------------------------------

/// The order in which the list is shown.
#[derive(Debug, Clone, Copy, PartialEq, Eq, Structural)]
pub enum SortOrder {
    /// Alphabetical by displayed name.
    Name,
    /// Worktrees with local changes first, then by name.
    Status,
    /// Newest HEAD commit first.
    Recent,
}

impl SortOrder {
    /// The order that follows this one when the user cycles.
    pub open spec fn successor(self) -> SortOrder {
        match self {
            SortOrder::Name => SortOrder::Status,
            SortOrder::Status => SortOrder::Recent,
            SortOrder::Recent => SortOrder::Name,
        }
    }

    /// The word shown for this order.
    pub open spec fn label_text(self) -> Seq<char> {
        match self {
            SortOrder::Name => "name"@,
            SortOrder::Status => "status"@,
            SortOrder::Recent => "recent"@,
        }
    }

    /// The order that follows this one: name, status, recent, and name again.
    pub fn next(&self) -> (r: SortOrder)
        ensures
            r == self.successor(),
    {
        match self {
            SortOrder::Name => SortOrder::Status,
            SortOrder::Status => SortOrder::Recent,
            SortOrder::Recent => SortOrder::Name,
        }
    }

    /// The word shown for this order.
    pub fn label(&self) -> (r: &'static str)
        ensures
            r@ == self.label_text(),
    {
        match self {
            SortOrder::Name => "name",
            SortOrder::Status => "status",
            SortOrder::Recent => "recent",
        }
    }
}

/// Cycling three times returns to the order one started from.
pub proof fn lemma_sort_order_cycle(order: SortOrder)
    ensures
        order.successor().successor().successor() == order,
        order.successor() != order,
{
}

/// Whether a background fetch is outstanding.
#[derive(Debug, Clone, Copy, PartialEq, Eq, Structural)]
pub enum LoadingState {
    Idle,
    Loading,
}

/// Which dialog, if any, has the keyboard.
#[derive(Debug, Clone, Copy, PartialEq, Eq, Structural)]
pub enum AppMode {
    Normal,
    Help,
    Create,
    Delete,
    Search,
    BranchSelect,
    MergeSelect,
    Error,
}

/// How a status message is presented.
#[derive(Debug, Clone, Copy, PartialEq, Eq, Structural)]
pub enum MessageLevel {
    Info,
    Success,
    Warning,
    Error,
}

} // verus!
