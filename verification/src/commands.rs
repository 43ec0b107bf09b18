//! The commands that change the repository.
//!
//! Creating, deleting, locking, merging, pulling, pushing, fetching and
//! pruning are done by running git, which is the caller's business. What is
//! run, in which directory and with which arguments, is decided here, and so
//! is what the state becomes once the command has ended: after a success a
//! refresh is due, after a failure the message is shown and the records stay
//! as they are.

use crate::index::{find_branch, selected_record, IndexView};
use crate::model::{AppMode, LoadingState, MessageLevel, Worktree, WorktreeView};
use crate::paths::{join_path, joined_path, parent_of, path_parent};
use crate::state::{awaits_fetch, with_status, App, AppView};
use crate::text::{
    char_count, concat, concat3, is_substring, push_text, str_contains, trim, trimmed,
};
use vstd::prelude::*;

verus! {

// ---------------------------------------------------------------------------
// Commands
// ---------------------------------------------------------------------------

/// What a command is run for, with what its messages need.
#[derive(Debug, PartialEq, Eq)]
pub enum Mutation {
    /// A new worktree named `name` at `path`.
    Create { name: String, path: String },
    /// The worktree shown as `label` is removed.
    Delete { label: String },
    /// The worktree shown as `label` is unlocked where it was locked, and
    /// locked where it was not.
    ToggleLock { was_locked: bool, label: String },
    FetchAll,
    Pull { label: String },
    Push { label: String },
    Prune,
    /// The branch `source` is merged into `target`, in the worktree at `path`.
    Merge { source: String, target: String, path: String },
}

/// What a [`Mutation`] holds.
pub ghost enum MutationView {
    Create { name: Seq<char>, path: Seq<char> },
    Delete { label: Seq<char> },
    ToggleLock { was_locked: bool, label: Seq<char> },
    FetchAll,
    Pull { label: Seq<char> },
    Push { label: Seq<char> },
    Prune,
    Merge { source: Seq<char>, target: Seq<char>, path: Seq<char> },
}

impl View for Mutation {
    type V = MutationView;

    open spec fn view(&self) -> MutationView {
        match self {
            Mutation::Create { name, path } => MutationView::Create { name: name@, path: path@ },
            Mutation::Delete { label } => MutationView::Delete { label: label@ },
            Mutation::ToggleLock { was_locked, label } => MutationView::ToggleLock {
                was_locked: *was_locked,
                label: label@,
            },
            Mutation::FetchAll => MutationView::FetchAll,
            Mutation::Pull { label } => MutationView::Pull { label: label@ },
            Mutation::Push { label } => MutationView::Push { label: label@ },
            Mutation::Prune => MutationView::Prune,
            Mutation::Merge { source, target, path } => MutationView::Merge {
                source: source@,
                target: target@,
                path: path@,
            },
        }
    }
}

/// One run of git.
#[derive(Debug, PartialEq, Eq)]
pub struct GitCommand {
    pub mutation: Mutation,
    /// The directory git is run in.
    pub dir: String,
    /// The arguments behind `git`.
    pub args: Vec<String>,
    /// A directory that has to exist before git is run.
    pub ensure_dir: Option<String>,
}

/// What a [`GitCommand`] holds.
pub ghost struct CommandView {
    pub mutation: MutationView,
    pub dir: Seq<char>,
    pub args: Seq<Seq<char>>,
    pub ensure_dir: Option<Seq<char>>,
}

impl View for GitCommand {
    type V = CommandView;

    open spec fn view(&self) -> CommandView {
        CommandView {
            mutation: self.mutation@,
            dir: self.dir@,
            args: self.args.deep_view(),
            ensure_dir: self.ensure_dir.deep_view(),
        }
    }
}

impl DeepView for GitCommand {
    type V = CommandView;

    open spec fn deep_view(&self) -> CommandView {
        self@
    }
}

/// A vector of the given texts.
fn texts2(a: &str, b: &str) -> (r: Vec<String>)
    ensures
        r.deep_view() == seq![a@, b@],
{
    let mut r: Vec<String> = Vec::new();
    r.push(a.to_owned());
    r.push(b.to_owned());
    assert(r.deep_view() =~= seq![a@, b@]);
    r
}

fn push_arg(args: &mut Vec<String>, arg: &str)
    ensures
        final(args).deep_view() == old(args).deep_view().push(arg@),
{
    args.push(arg.to_owned());
    assert(args.deep_view() =~= old(args).deep_view().push(arg@));
}

// ---------------------------------------------------------------------------
// Where new worktrees go
// ---------------------------------------------------------------------------

/// The directory that holds the worktrees made here: beside the repository,
/// named after it with `-worktrees` appended.
pub open spec fn worktrees_dir_of(repo_root: Seq<char>, repo_name: Seq<char>) -> Seq<char> {
    joined_path(
        match parent_of(repo_root) {
            Some(parent) => parent,
            None => repo_root,
        },
        repo_name + "-worktrees"@,
    )
}

/// The label of a worktree in messages: its branch, or `fallback` where it
/// has none.
pub open spec fn label_of(w: WorktreeView, fallback: Seq<char>) -> Seq<char> {
    match w.branch {
        Some(b) => b,
        None => fallback,
    }
}

fn label(w: &Worktree, fallback: &str) -> (r: String)
    ensures
        r@ == label_of(w@, fallback@),
{
    match &w.branch {
        Some(b) => b.clone(),
        None => fallback.to_owned(),
    }
}

// ---------------------------------------------------------------------------
// What is run
// ---------------------------------------------------------------------------

/// The arguments that create the worktree `name` at `path`: on a new branch
/// named like the worktree, started from `from` where that is given, or, with
/// `existing`, on the branch `from` itself.
pub open spec fn create_args(
    name: Seq<char>,
    path: Seq<char>,
    from: Option<Seq<char>>,
    existing: bool,
) -> Seq<Seq<char>> {
    if existing {
        seq!["worktree"@, "add"@, path] + match from {
            Some(b) => seq![b],
            None => Seq::empty(),
        }
    } else {
        seq!["worktree"@, "add"@, "-b"@, name, path] + match from {
            Some(b) => seq![b],
            None => Seq::empty(),
        }
    }
}

/// The command that creates a worktree from what the create dialog holds, if
/// the dialog is filled in well enough.
pub open spec fn create_command(v: AppView) -> Option<CommandView> {
    let name = trimmed(v.create_input);
    if name.len() == 0 {
        None
    } else if v.create_checkout_existing && v.create_from_branch is None {
        None
    } else {
        let dir = worktrees_dir_of(v.repo_root, v.repo_name);
        let path = joined_path(dir, name);
        Some(
            CommandView {
                mutation: MutationView::Create { name, path },
                dir: v.repo_root,
                args: create_args(name, path, v.create_from_branch, v.create_checkout_existing),
                ensure_dir: Some(dir),
            },
        )
    }
}

/// The state after the create dialog was confirmed: unchanged where a
/// command comes of it, and showing what is missing where none does.
pub open spec fn create_planned(v: AppView) -> AppView {
    if trimmed(v.create_input).len() == 0 {
        with_status(v, "Worktree name cannot be empty"@, MessageLevel::Error)
    } else if v.create_checkout_existing && v.create_from_branch is None {
        with_status(v, "Select a branch to checkout (Tab)"@, MessageLevel::Error)
    } else {
        v
    }
}

/// The command that removes the selected worktree: with force where it has
/// local changes. There is none for the main worktree, and none without a
/// selection.
pub open spec fn delete_command(v: AppView) -> Option<CommandView> {
    match selected_record(v.index) {
        Some(w) => if w.is_main {
            None
        } else {
            Some(
                CommandView {
                    mutation: MutationView::Delete { label: label_of(w, w.path) },
                    dir: v.repo_root,
                    args: if w.status.locally_changed() {
                        seq!["worktree"@, "remove"@, "--force"@, w.path]
                    } else {
                        seq!["worktree"@, "remove"@, w.path]
                    },
                    ensure_dir: None,
                },
            )
        },
        None => None,
    }
}

/// The state after a removal was asked for.
pub open spec fn delete_planned(v: AppView) -> AppView {
    match selected_record(v.index) {
        Some(w) => if w.is_main {
            with_status(v, "Cannot delete main worktree"@, MessageLevel::Error)
        } else {
            v
        },
        None => v,
    }
}

/// The command that locks the selected worktree, or unlocks it where it is
/// locked.
pub open spec fn lock_command(v: AppView) -> Option<CommandView> {
    match selected_record(v.index) {
        Some(w) => Some(
            CommandView {
                mutation: MutationView::ToggleLock {
                    was_locked: w.is_locked,
                    label: label_of(w, w.path),
                },
                dir: v.repo_root,
                args: seq![
                    "worktree"@,
                    if w.is_locked {
                        "unlock"@
                    } else {
                        "lock"@
                    },
                    w.path,
                ],
                ensure_dir: None,
            },
        ),
        None => None,
    }
}

/// The command that fetches from all remotes.
pub open spec fn fetch_command(v: AppView) -> CommandView {
    CommandView {
        mutation: MutationView::FetchAll,
        dir: v.repo_root,
        args: seq!["fetch"@, "--all"@, "--prune"@],
        ensure_dir: None,
    }
}

/// The command that prunes the records of worktrees that are gone.
pub open spec fn prune_command(v: AppView) -> CommandView {
    CommandView {
        mutation: MutationView::Prune,
        dir: v.repo_root,
        args: seq!["worktree"@, "prune"@],
        ensure_dir: None,
    }
}

/// The command that pulls in the selected worktree.
pub open spec fn pull_command(v: AppView) -> Option<CommandView> {
    match selected_record(v.index) {
        Some(w) => Some(
            CommandView {
                mutation: MutationView::Pull { label: label_of(w, "worktree"@) },
                dir: w.path,
                args: seq!["pull"@],
                ensure_dir: None,
            },
        ),
        None => None,
    }
}

/// The command that pushes from the selected worktree.
pub open spec fn push_command(v: AppView) -> Option<CommandView> {
    match selected_record(v.index) {
        Some(w) => Some(
            CommandView {
                mutation: MutationView::Push { label: label_of(w, "worktree"@) },
                dir: w.path,
                args: seq!["push"@],
                ensure_dir: None,
            },
        ),
        None => None,
    }
}

/// The state with the note `text` shown where something is selected.
pub open spec fn noted_if_selected(v: AppView, text: Seq<char>) -> AppView {
    if selected_record(v.index) is Some {
        with_status(v, text, MessageLevel::Info)
    } else {
        v
    }
}

/// The worktree in which the branch `target` is checked out: the first one
/// in display order.
pub open spec fn worktree_on(index: IndexView, target: Seq<char>) -> Option<WorktreeView> {
    match find_branch(index.worktrees, index.order, target, 0) {
        Some(p) => Some(index.worktrees[index.order[p as int] as int]),
        None => None,
    }
}

/// The branch of the record at position `source` of the collection, if the
/// collection has that position and the record is on a branch.
pub open spec fn source_branch(index: IndexView, source: usize) -> Option<Seq<char>> {
    if source < index.worktrees.len() {
        index.worktrees[source as int].branch
    } else {
        None
    }
}

/// The command that merges the branch of the record at position `source`
/// into the branch `target`. It runs in the worktree that has `target`
/// checked out; there is no command where no worktree has, where `source` is
/// on no branch, and where both are the same branch.
pub open spec fn merge_command(v: AppView, source: usize, target: Seq<char>) -> Option<CommandView> {
    match source_branch(v.index, source) {
        Some(branch) => if branch == target {
            None
        } else {
            match worktree_on(v.index, target) {
                Some(w) => Some(
                    CommandView {
                        mutation: MutationView::Merge { source: branch, target, path: w.path },
                        dir: w.path,
                        args: seq!["merge"@, branch, "--no-edit"@],
                        ensure_dir: None,
                    },
                ),
                None => None,
            }
        },
        None => None,
    }
}

/// The message shown when a merge is asked for.
pub open spec fn merge_note(v: AppView, source: usize, target: Seq<char>) -> Option<
    (Seq<char>, MessageLevel),
> {
    match source_branch(v.index, source) {
        Some(branch) => if branch == target {
            Some(("Cannot merge branch into itself"@, MessageLevel::Error))
        } else {
            match worktree_on(v.index, target) {
                Some(_) => Some(
                    ("Merging "@ + branch + " into "@ + target + "..."@, MessageLevel::Info),
                ),
                None => Some(
                    (
                        "Branch "@ + target + " is not active in any worktree"@,
                        MessageLevel::Error,
                    ),
                ),
            }
        },
        None => None,
    }
}

/// The state after a merge was asked for.
pub open spec fn merge_planned(v: AppView, source: usize, target: Seq<char>) -> AppView {
    match merge_note(v, source, target) {
        Some((text, level)) => with_status(v, text, level),
        None => v,
    }
}

// ---------------------------------------------------------------------------
// What becomes of it
// ---------------------------------------------------------------------------

/// The message shown after a command has succeeded.
pub open spec fn success_text(m: MutationView) -> Seq<char> {
    match m {
        MutationView::Create { name, .. } => "Created worktree: "@ + name,
        MutationView::Delete { label } => "Deleted worktree: "@ + label,
        MutationView::ToggleLock { was_locked, label } => (if was_locked {
            "Unlocked"@
        } else {
            "Locked"@
        }) + " worktree: "@ + label,
        MutationView::FetchAll => "Fetched latest from remote"@,
        MutationView::Pull { label } => "Pulled "@ + label,
        MutationView::Push { label } => "Pushed "@ + label,
        MutationView::Prune => "Pruned stale worktrees"@,
        MutationView::Merge { source, target, .. } => "Merged "@ + source + " into "@ + target,
    }
}

/// Whether what a failed merge wrote speaks of a conflict.
pub open spec fn tells_conflict(stderr: Seq<char>) -> bool {
    is_substring(stderr, "CONFLICT"@) || is_substring(stderr, "conflict"@)
}

/// The message shown after a command has failed, given what it wrote to its
/// error stream.
pub open spec fn failure_text(m: MutationView, stderr: Seq<char>) -> Seq<char> {
    match m {
        MutationView::Create { .. } => "Failed: "@ + trimmed(stderr),
        MutationView::Delete { .. } => "Failed: "@ + trimmed(stderr),
        MutationView::ToggleLock { .. } => "Failed: "@ + trimmed(stderr),
        MutationView::FetchAll => "Fetch failed"@,
        MutationView::Pull { .. } => "Pull failed: "@ + trimmed(stderr),
        MutationView::Push { .. } => "Push failed: "@ + trimmed(stderr),
        MutationView::Prune => "Prune failed"@,
        MutationView::Merge { path, .. } => if tells_conflict(stderr) {
            "Conflict! Resolve in: "@ + path
        } else {
            "Merge failed: "@ + trimmed(stderr)
        },
    }
}

/// How the message after a failed command is presented: a merge that ran
/// into a conflict is a warning, every other failure an error.
pub open spec fn failure_level(m: MutationView, stderr: Seq<char>) -> MessageLevel {
    if m is Merge && tells_conflict(stderr) {
        MessageLevel::Warning
    } else {
        MessageLevel::Error
    }
}

/// The state with a fetch under way and the coordinator loading: unchanged
/// where the result of a fetch is awaited already.
pub open spec fn refresh_started(v: AppView) -> AppView {
    if awaits_fetch(v) {
        v
    } else {
        AppView { loading_state: LoadingState::Loading, fetch_outstanding: true, ..v }
    }
}

/// The state after a command has ended.
///
/// After a success its message is shown and a refresh is under way. The
/// create dialog is closed and emptied, and the new worktree will be
/// selected once the refresh has arrived; the delete dialog is closed. After
/// a failure its message is shown. Neither touches the records or the
/// selection. A merge leaves no dialog open either way.
pub open spec fn command_finished(
    v: AppView,
    m: MutationView,
    success: bool,
    stderr: Seq<char>,
) -> AppView {
    let shown = if success {
        refresh_started(with_status(v, success_text(m), MessageLevel::Success))
    } else {
        with_status(v, failure_text(m, stderr), failure_level(m, stderr))
    };
    match m {
        MutationView::Create { path, .. } => if success {
            AppView {
                mode: AppMode::Normal,
                create_input: Seq::empty(),
                create_cursor: 0,
                create_from_branch: None,
                create_checkout_existing: false,
                pending_selection: Some(path),
                ..shown
            }
        } else {
            shown
        },
        MutationView::Delete { .. } => if success {
            AppView { mode: AppMode::Normal, delete_confirm: false, ..shown }
        } else {
            shown
        },
        MutationView::Merge { .. } => AppView { mode: AppMode::Normal, ..shown },
        _ => shown,
    }
}

/// A command that fails shows its message and changes nothing else of what
/// is seen: not the records, not their order, not the selection, and no
/// fetch is started. A command that succeeds leaves the records for the
/// refresh to replace, which is under way afterwards.
pub proof fn lemma_command_keeps_view(
    v: AppView,
    m: MutationView,
    success: bool,
    stderr: Seq<char>,
)
    ensures
        command_finished(v, m, success, stderr).index == v.index,
        !success ==> command_finished(v, m, success, stderr).loading_state == v.loading_state
            && command_finished(v, m, success, stderr).fetch_outstanding == v.fetch_outstanding,
        !success ==> (command_finished(v, m, success, stderr).status_message matches Some(shown)
            && shown.text == failure_text(m, stderr)),
        success ==> awaits_fetch(command_finished(v, m, success, stderr)),
{
}

fn success_message(m: &Mutation) -> (r: String)
    ensures
        r@ == success_text(m@),
{
    match m {
        Mutation::Create { name, .. } => concat("Created worktree: ", name.as_str()),
        Mutation::Delete { label } => concat("Deleted worktree: ", label.as_str()),
        Mutation::ToggleLock { was_locked, label } => concat3(
            if *was_locked {
                "Unlocked"
            } else {
                "Locked"
            },
            " worktree: ",
            label.as_str(),
        ),
        Mutation::FetchAll => "Fetched latest from remote".to_owned(),
        Mutation::Pull { label } => concat("Pulled ", label.as_str()),
        Mutation::Push { label } => concat("Pushed ", label.as_str()),
        Mutation::Prune => "Pruned stale worktrees".to_owned(),
        Mutation::Merge { source, target, .. } => {
            let mut r = concat3("Merged ", source.as_str(), " into ");
            push_text(&mut r, target.as_str());
            r
        },
    }
}

fn speaks_of_conflict(stderr: &str) -> (r: bool)
    ensures
        r == tells_conflict(stderr@),
{
    str_contains(stderr, "CONFLICT") || str_contains(stderr, "conflict")
}

fn failure_message(m: &Mutation, stderr: &str) -> (r: (String, MessageLevel))
    ensures
        r.0@ == failure_text(m@, stderr@),
        r.1 == failure_level(m@, stderr@),
{
    match m {
        Mutation::Create { .. } | Mutation::Delete { .. } | Mutation::ToggleLock { .. } => (
            concat("Failed: ", trim(stderr)),
            MessageLevel::Error,
        ),
        Mutation::FetchAll => ("Fetch failed".to_owned(), MessageLevel::Error),
        Mutation::Pull { .. } => (concat("Pull failed: ", trim(stderr)), MessageLevel::Error),
        Mutation::Push { .. } => (concat("Push failed: ", trim(stderr)), MessageLevel::Error),
        Mutation::Prune => ("Prune failed".to_owned(), MessageLevel::Error),
        Mutation::Merge { path, .. } => if speaks_of_conflict(stderr) {
            (concat("Conflict! Resolve in: ", path.as_str()), MessageLevel::Warning)
        } else {
            (concat("Merge failed: ", trim(stderr)), MessageLevel::Error)
        },
    }
}

impl App {
    /// The directory that holds the worktrees made here.
    pub fn get_worktrees_dir(&self) -> (r: String)
        ensures
            r@ == worktrees_dir_of(self@.repo_root, self@.repo_name),
    {
        let dir_name = concat(self.repo_name.as_str(), "-worktrees");
        match path_parent(self.repo_root.as_str()) {
            Some(parent) => join_path(parent.as_str(), dir_name.as_str()),
            None => join_path(self.repo_root.as_str(), dir_name.as_str()),
        }
    }

    /// Puts a fetch under way unless the result of one is awaited. Returns
    /// whether the caller has to start one.
    pub fn start_refresh(&mut self) -> (start: bool)
        ensures
            start == !awaits_fetch(old(self)@),
            final(self)@ == refresh_started(old(self)@),
    {
        if self.awaits_fetch() {
            false
        } else {
            self.loading_state = LoadingState::Loading;
            self.fetch_outstanding = true;
            true
        }
    }

    /// The create dialog was confirmed. Returns the command to run, or shows
    /// what is missing.
    pub fn create_worktree(&mut self) -> (r: Option<GitCommand>)
        ensures
            r.deep_view() == create_command(old(self)@),
            final(self)@ == create_planned(old(self)@),
    {
        let name = trim(self.create_input.as_str()).to_owned();
        if char_count(name.as_str()) == 0 {
            self.set_status("Worktree name cannot be empty", MessageLevel::Error);
            return None;
        }
        if self.create_checkout_existing && self.create_from_branch.is_none() {
            self.set_status("Select a branch to checkout (Tab)", MessageLevel::Error);
            return None;
        }
        let dir = self.get_worktrees_dir();
        let path = join_path(dir.as_str(), name.as_str());
        let mut args: Vec<String> = texts2("worktree", "add");
        if !self.create_checkout_existing {
            push_arg(&mut args, "-b");
            push_arg(&mut args, name.as_str());
        }
        push_arg(&mut args, path.as_str());
        match &self.create_from_branch {
            Some(branch) => {
                push_arg(&mut args, branch.as_str());
            },
            None => {},
        }
        assert(args.deep_view() =~= create_args(
            name@,
            path@,
            self@.create_from_branch,
            self@.create_checkout_existing,
        ));
        Some(
            GitCommand {
                mutation: Mutation::Create { name, path },
                dir: self.repo_root.clone(),
                args,
                ensure_dir: Some(dir),
            },
        )
    }

    /// The directory for new worktrees could not be made.
    pub fn create_dir_failed(&mut self, error: &str)
        ensures
            final(self)@ == with_status(
                old(self)@,
                "Failed to create worktrees dir: "@ + error@,
                MessageLevel::Error,
            ),
    {
        let text = concat("Failed to create worktrees dir: ", error);
        self.set_status(text.as_str(), MessageLevel::Error);
    }

    /// The removal of the selected worktree was confirmed. Returns the
    /// command to run; the main worktree is never removed.
    pub fn delete_worktree(&mut self) -> (r: Option<GitCommand>)
        ensures
            r.deep_view() == delete_command(old(self)@),
            final(self)@ == delete_planned(old(self)@),
    {
        let plan = match self.index.selected_worktree() {
            Some(w) => if w.is_main {
                None
            } else {
                let mut args: Vec<String> = texts2("worktree", "remove");
                if w.status.has_local_changes() {
                    push_arg(&mut args, "--force");
                }
                push_arg(&mut args, w.path.as_str());
                assert(args.deep_view() =~= delete_command(self@).unwrap().args);
                Some(
                    GitCommand {
                        mutation: Mutation::Delete { label: label(w, w.path.as_str()) },
                        dir: self.repo_root.clone(),
                        args,
                        ensure_dir: None,
                    },
                )
            },
            None => {
                return None;
            },
        };
        if plan.is_none() {
            self.set_status("Cannot delete main worktree", MessageLevel::Error);
        }
        plan
    }

    /// Locks the selected worktree, or unlocks it where it is locked.
    /// Returns the command to run.
    pub fn toggle_lock(&self) -> (r: Option<GitCommand>)
        ensures
            r.deep_view() == lock_command(self@),
    {
        match self.index.selected_worktree() {
            Some(w) => {
                let mut args: Vec<String> = texts2(
                    "worktree",
                    if w.is_locked {
                        "unlock"
                    } else {
                        "lock"
                    },
                );
                push_arg(&mut args, w.path.as_str());
                assert(args.deep_view() =~= lock_command(self@).unwrap().args);
                Some(
                    GitCommand {
                        mutation: Mutation::ToggleLock {
                            was_locked: w.is_locked,
                            label: label(w, w.path.as_str()),
                        },
                        dir: self.repo_root.clone(),
                        args,
                        ensure_dir: None,
                    },
                )
            },
            None => None,
        }
    }

    /// Fetches from all remotes. Returns the command to run.
    pub fn fetch_all(&mut self) -> (r: GitCommand)
        ensures
            r@ == fetch_command(old(self)@),
            final(self)@ == with_status(
                old(self)@,
                "Fetching from remote..."@,
                MessageLevel::Info,
            ),
    {
        self.set_status("Fetching from remote...", MessageLevel::Info);
        let mut args: Vec<String> = texts2("fetch", "--all");
        push_arg(&mut args, "--prune");
        assert(args.deep_view() =~= fetch_command(self@).args);
        GitCommand {
            mutation: Mutation::FetchAll,
            dir: self.repo_root.clone(),
            args,
            ensure_dir: None,
        }
    }

    /// Prunes the records of worktrees that are gone. Returns the command to
    /// run.
    pub fn prune_worktrees(&mut self) -> (r: GitCommand)
        ensures
            r@ == prune_command(old(self)@),
            final(self)@ == with_status(
                old(self)@,
                "Pruning stale worktrees..."@,
                MessageLevel::Info,
            ),
    {
        self.set_status("Pruning stale worktrees...", MessageLevel::Info);
        let args: Vec<String> = texts2("worktree", "prune");
        GitCommand {
            mutation: Mutation::Prune,
            dir: self.repo_root.clone(),
            args,
            ensure_dir: None,
        }
    }

    /// Pulls in the selected worktree. Returns the command to run.
    pub fn pull_current(&mut self) -> (r: Option<GitCommand>)
        ensures
            r.deep_view() == pull_command(old(self)@),
            final(self)@ == noted_if_selected(old(self)@, "Pulling..."@),
    {
        let plan = match self.index.selected_worktree() {
            Some(w) => {
                let mut args: Vec<String> = Vec::new();
                push_arg(&mut args, "pull");
                assert(args.deep_view() =~= seq!["pull"@]);
                Some(
                    GitCommand {
                        mutation: Mutation::Pull { label: label(w, "worktree") },
                        dir: w.path.clone(),
                        args,
                        ensure_dir: None,
                    },
                )
            },
            None => None,
        };
        if plan.is_some() {
            self.set_status("Pulling...", MessageLevel::Info);
        }
        plan
    }

    /// Pushes from the selected worktree. Returns the command to run.
    pub fn push_current(&mut self) -> (r: Option<GitCommand>)
        ensures
            r.deep_view() == push_command(old(self)@),
            final(self)@ == noted_if_selected(old(self)@, "Pushing..."@),
    {
        let plan = match self.index.selected_worktree() {
            Some(w) => {
                let mut args: Vec<String> = Vec::new();
                push_arg(&mut args, "push");
                assert(args.deep_view() =~= seq!["push"@]);
                Some(
                    GitCommand {
                        mutation: Mutation::Push { label: label(w, "worktree") },
                        dir: w.path.clone(),
                        args,
                        ensure_dir: None,
                    },
                )
            },
            None => None,
        };
        if plan.is_some() {
            self.set_status("Pushing...", MessageLevel::Info);
        }
        plan
    }

    /// Merges the branch of the record at position `source_idx` of the
    /// collection into `target_branch`. Returns the command to run, or shows
    /// why there is none.
    pub fn perform_merge(&mut self, source_idx: usize, target_branch: String) -> (r: Option<
        GitCommand,
    >)
        ensures
            r.deep_view() == merge_command(old(self)@, source_idx, target_branch@),
            final(self)@ == merge_planned(old(self)@, source_idx, target_branch@),
    {
        if source_idx >= self.index.len() {
            return None;
        }
        let worktrees = self.index.worktrees();
        let source = &worktrees[source_idx];
        assert(worktrees.deep_view()[source_idx as int] == source@);
        let source_branch = match &source.branch {
            Some(b) => b.clone(),
            None => {
                return None;
            },
        };
        if source_branch == target_branch {
            self.set_status("Cannot merge branch into itself", MessageLevel::Error);
            return None;
        }
        let found = self.index.first_on_branch(target_branch.as_str());
        let merge_path = match found {
            Some(i) => {
                let worktrees = self.index.worktrees();
                assert(worktrees.deep_view()[i as int] == worktrees[i as int]@);
                worktrees[i].path.clone()
            },
            None => {
                let text = concat3(
                    "Branch ",
                    target_branch.as_str(),
                    " is not active in any worktree",
                );
                self.set_status(text.as_str(), MessageLevel::Error);
                return None;
            },
        };
        let mut text = concat3("Merging ", source_branch.as_str(), " into ");
        push_text(&mut text, target_branch.as_str());
        push_text(&mut text, "...");
        self.set_status(text.as_str(), MessageLevel::Info);
        let mut args: Vec<String> = texts2("merge", source_branch.as_str());
        push_arg(&mut args, "--no-edit");
        assert(args.deep_view() =~= seq!["merge"@, source_branch@, "--no-edit"@]);
        Some(
            GitCommand {
                mutation: Mutation::Merge {
                    source: source_branch,
                    target: target_branch,
                    path: merge_path.clone(),
                },
                dir: merge_path,
                args,
                ensure_dir: None,
            },
        )
    }

    /// A command has ended, with or without success, having written `stderr`
    /// to its error stream. Returns whether the caller has to start a
    /// background fetch: after a success, unless the result of one is awaited.
    pub fn finish_command(&mut self, mutation: Mutation, success: bool, stderr: &str) -> (start:
        bool)
        ensures
            start == (success && !awaits_fetch(old(self)@)),
            final(self)@ == command_finished(old(self)@, mutation@, success, stderr@),
    {
        let mut start = false;
        if success {
            let text = success_message(&mutation);
            self.set_status(text.as_str(), MessageLevel::Success);
            start = self.start_refresh();
        } else {
            let (text, level) = failure_message(&mutation, stderr);
            self.set_status(text.as_str(), level);
        }
        match mutation {
            Mutation::Create { path, .. } => {
                if success {
                    self.mode = AppMode::Normal;
                    self.create_input = String::new();
                    self.create_cursor = 0;
                    self.create_from_branch = None;
                    self.create_checkout_existing = false;
                    self.pending_selection = Some(path);
                }
            },
            Mutation::Delete { .. } => {
                if success {
                    self.mode = AppMode::Normal;
                    self.delete_confirm = false;
                }
            },
            Mutation::Merge { .. } => {
                self.mode = AppMode::Normal;
            },
            _ => {},
        }
        start
    }
}

} // verus!
