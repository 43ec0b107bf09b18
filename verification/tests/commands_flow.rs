use wtt::cache::{create_cache_at, worktrees_to_cache};
use wtt::commands::{GitCommand, Mutation};
use wtt::fetch::{
    collect_worktrees, merge_details, ChangeKind, DetailOutcome, DetailReport, FetchContext,
    LinkedWorktree, StatusReading, WorktreeIdentity,
};
use wtt::model::{AppMode, LoadingState, MessageLevel, Worktree};
use wtt::state::App;

fn identity(path: &str, branch: Option<&str>) -> WorktreeIdentity {
    WorktreeIdentity {
        path: path.to_string(),
        branch: branch.map(|b| b.to_string()),
        commit: String::from("0123456789abcdef"),
        is_detached: branch.is_none(),
        exists_on_disk: true,
    }
}

fn records() -> Vec<Worktree> {
    let records = collect_worktrees(
        identity("/home/me/repo", Some("main")),
        vec![
            LinkedWorktree { identity: identity("/home/me/repo-worktrees/feature", Some("feature")), lock_reason: None },
            LinkedWorktree { identity: identity("/home/me/repo-worktrees/locked", Some("locked")), lock_reason: Some(String::from("why")) },
            LinkedWorktree { identity: identity("/home/me/repo-worktrees/loose", None), lock_reason: None },
        ],
        &FetchContext { repo_is_bare: false, current_path: String::from("/home/me/repo") },
    );
    let dirty = Some(DetailOutcome::Fetched(DetailReport {
        status: Some(StatusReading { changes: vec![ChangeKind::Modified], upstream: None }),
        head: None,
        history: None,
        now: 0,
    }));
    merge_details(records, &vec![None, dirty])
}

fn app() -> App {
    let cache = create_cache_at(String::from("/home/me/repo"), worktrees_to_cache(&records()), 100);
    App::new(String::from("/home/me/repo"), String::from("/home/me/repo"), Some(cache), 101)
}

fn select(app: &mut App, path: &str) {
    app.index.select_path(path);
    assert_eq!(app.index.selected_worktree().unwrap().path, path);
}

fn texts(args: &[&str]) -> Vec<String> {
    args.iter().map(|a| a.to_string()).collect()
}

fn status(app: &App) -> (String, MessageLevel) {
    let message = app.status_message.as_ref().expect("a status message");
    (message.text.clone(), message.level)
}

#[test]
fn new_worktrees_go_beside_the_repository() {
    assert_eq!(app().get_worktrees_dir(), "/home/me/repo-worktrees");
    let top = App::new(String::from("/"), String::from("/"), None, 0);
    assert_eq!(top.get_worktrees_dir(), "/repository-worktrees");
}

#[test]
fn creating_a_worktree_on_a_new_branch() {
    let mut app = app();
    app.create_input = String::from("  topic \n");
    let command = app.create_worktree().expect("a command");
    assert_eq!(
        command,
        GitCommand {
            mutation: Mutation::Create { name: String::from("topic"), path: String::from("/home/me/repo-worktrees/topic") },
            dir: String::from("/home/me/repo"),
            args: texts(&["worktree", "add", "-b", "topic", "/home/me/repo-worktrees/topic"]),
            ensure_dir: Some(String::from("/home/me/repo-worktrees")),
        }
    );
    assert_eq!(app.status_message, None);
    app.create_from_branch = Some(String::from("origin/main"));
    let command = app.create_worktree().expect("a command");
    assert_eq!(command.args, texts(&["worktree", "add", "-b", "topic", "/home/me/repo-worktrees/topic", "origin/main"]));
}

#[test]
fn creating_a_worktree_for_an_existing_branch() {
    let mut app = app();
    app.create_input = String::from("topic");
    app.create_checkout_existing = true;
    assert_eq!(app.create_worktree(), None);
    assert_eq!(status(&app), (String::from("Select a branch to checkout (Tab)"), MessageLevel::Error));
    assert_eq!(app.mode, AppMode::Error);
    app.create_from_branch = Some(String::from("feature"));
    let command = app.create_worktree().expect("a command");
    assert_eq!(command.args, texts(&["worktree", "add", "/home/me/repo-worktrees/topic", "feature"]));
}

#[test]
fn a_worktree_needs_a_name() {
    let mut app = app();
    app.create_input = String::from("   ");
    app.create_checkout_existing = true;
    assert_eq!(app.create_worktree(), None);
    assert_eq!(status(&app), (String::from("Worktree name cannot be empty"), MessageLevel::Error));
    assert_eq!(app.error_message, "Worktree name cannot be empty");
}

#[test]
fn a_created_worktree_is_selected_once_the_refresh_is_there() {
    let mut app = app();
    app.mode = AppMode::Create;
    app.create_input = String::from("topic");
    app.create_cursor = 5;
    app.create_from_branch = Some(String::from("main"));
    let command = app.create_worktree().unwrap();
    assert!(app.finish_command(command.mutation, true, ""));
    assert_eq!(status(&app), (String::from("Created worktree: topic"), MessageLevel::Success));
    assert_eq!(app.mode, AppMode::Normal);
    assert_eq!(app.create_input, "");
    assert_eq!(app.create_cursor, 0);
    assert_eq!(app.create_from_branch, None);
    assert!(!app.create_checkout_existing);
    assert_eq!(app.loading_state, LoadingState::Loading);
    assert_eq!(app.pending_selection.as_deref(), Some("/home/me/repo-worktrees/topic"));
    let mut newer = records();
    newer.extend(collect_worktrees(
        identity("/home/me/repo-worktrees/topic", Some("topic")),
        Vec::new(),
        &FetchContext { repo_is_bare: false, current_path: String::from("/") },
    ).into_iter().map(|mut w| { w.is_main = false; w }));
    app.refresh_arrived(newer);
    assert_eq!(app.index.selected_worktree().unwrap().path, "/home/me/repo-worktrees/topic");
    assert_eq!(app.pending_selection, None);
    assert_eq!(app.loading_state, LoadingState::Idle);
}

#[test]
fn a_failed_creation_keeps_the_dialog_and_the_records() {
    let mut app = app();
    app.mode = AppMode::Create;
    app.create_input = String::from("topic");
    let before: Vec<String> = app.index.worktrees().iter().map(|w| w.path.clone()).collect();
    let command = app.create_worktree().unwrap();
    assert!(!app.finish_command(command.mutation, false, "  fatal: a branch named 'topic' already exists\n"));
    assert_eq!(
        status(&app),
        (String::from("Failed: fatal: a branch named 'topic' already exists"), MessageLevel::Error)
    );
    assert_eq!(app.mode, AppMode::Error);
    assert_eq!(app.create_input, "topic");
    assert_eq!(app.loading_state, LoadingState::Idle);
    assert_eq!(app.pending_selection, None);
    let after: Vec<String> = app.index.worktrees().iter().map(|w| w.path.clone()).collect();
    assert_eq!(before, after);
    assert_eq!(app.index.selected(), Some(0));
}

#[test]
fn the_directory_for_worktrees_may_fail_to_be_made() {
    let mut app = app();
    app.create_dir_failed("Permission denied (os error 13)");
    assert_eq!(
        status(&app),
        (String::from("Failed to create worktrees dir: Permission denied (os error 13)"), MessageLevel::Error)
    );
}

#[test]
fn the_main_worktree_is_never_removed() {
    let mut app = app();
    select(&mut app, "/home/me/repo");
    assert_eq!(app.delete_worktree(), None);
    assert_eq!(status(&app), (String::from("Cannot delete main worktree"), MessageLevel::Error));
}

#[test]
fn a_worktree_with_changes_is_removed_with_force() {
    let mut app = app();
    select(&mut app, "/home/me/repo-worktrees/feature");
    let command = app.delete_worktree().unwrap();
    assert_eq!(command.args, texts(&["worktree", "remove", "--force", "/home/me/repo-worktrees/feature"]));
    assert_eq!(command.dir, "/home/me/repo");
    assert_eq!(command.mutation, Mutation::Delete { label: String::from("feature") });
    assert_eq!(command.ensure_dir, None);
    select(&mut app, "/home/me/repo-worktrees/loose");
    let command = app.delete_worktree().unwrap();
    assert_eq!(command.args, texts(&["worktree", "remove", "/home/me/repo-worktrees/loose"]));
    assert_eq!(command.mutation, Mutation::Delete { label: String::from("/home/me/repo-worktrees/loose") });
    assert_eq!(app.status_message, None);
}

#[test]
fn a_removal_closes_the_dialog_on_success_only() {
    let mut app = app();
    app.mode = AppMode::Delete;
    app.delete_confirm = true;
    assert!(!app.finish_command(Mutation::Delete { label: String::from("feature") }, false, "busy"));
    assert_eq!(status(&app), (String::from("Failed: busy"), MessageLevel::Error));
    assert_eq!(app.mode, AppMode::Error);
    assert!(app.delete_confirm);
    app.mode = AppMode::Delete;
    assert!(app.finish_command(Mutation::Delete { label: String::from("feature") }, true, ""));
    assert_eq!(status(&app), (String::from("Deleted worktree: feature"), MessageLevel::Success));
    assert_eq!(app.mode, AppMode::Normal);
    assert!(!app.delete_confirm);
}

#[test]
fn locking_and_unlocking() {
    let mut app = app();
    select(&mut app, "/home/me/repo-worktrees/feature");
    let lock = app.toggle_lock().unwrap();
    assert_eq!(lock.args, texts(&["worktree", "lock", "/home/me/repo-worktrees/feature"]));
    assert_eq!(lock.mutation, Mutation::ToggleLock { was_locked: false, label: String::from("feature") });
    select(&mut app, "/home/me/repo-worktrees/locked");
    let unlock = app.toggle_lock().unwrap();
    assert_eq!(unlock.args, texts(&["worktree", "unlock", "/home/me/repo-worktrees/locked"]));
    assert!(app.finish_command(lock.mutation, true, ""));
    assert_eq!(status(&app), (String::from("Locked worktree: feature"), MessageLevel::Success));
    assert!(!app.finish_command(unlock.mutation, true, ""));
    assert_eq!(status(&app), (String::from("Unlocked worktree: locked"), MessageLevel::Success));
    assert!(!app.finish_command(Mutation::ToggleLock { was_locked: true, label: String::from("x") }, false, " no \n"));
    assert_eq!(status(&app), (String::from("Failed: no"), MessageLevel::Error));
}

#[test]
fn fetching_and_pruning_run_in_the_repository() {
    let mut app = app();
    let fetch = app.fetch_all();
    assert_eq!(fetch.args, texts(&["fetch", "--all", "--prune"]));
    assert_eq!(fetch.dir, "/home/me/repo");
    assert_eq!(status(&app), (String::from("Fetching from remote..."), MessageLevel::Info));
    assert!(!app.finish_command(Mutation::FetchAll, false, "could not resolve host"));
    assert_eq!(status(&app), (String::from("Fetch failed"), MessageLevel::Error));
    let prune = app.prune_worktrees();
    assert_eq!(prune.args, texts(&["worktree", "prune"]));
    assert_eq!(prune.dir, "/home/me/repo");
    assert_eq!(status(&app), (String::from("Pruning stale worktrees..."), MessageLevel::Info));
    assert!(!app.finish_command(Mutation::Prune, false, "x"));
    assert_eq!(status(&app), (String::from("Prune failed"), MessageLevel::Error));
    assert!(app.finish_command(Mutation::Prune, true, ""));
    assert_eq!(status(&app), (String::from("Pruned stale worktrees"), MessageLevel::Success));
    assert!(!app.finish_command(Mutation::FetchAll, true, ""));
    assert_eq!(status(&app), (String::from("Fetched latest from remote"), MessageLevel::Success));
}

#[test]
fn pulling_and_pushing_run_in_the_selected_worktree() {
    let mut app = app();
    select(&mut app, "/home/me/repo-worktrees/feature");
    let pull = app.pull_current().unwrap();
    assert_eq!(pull.dir, "/home/me/repo-worktrees/feature");
    assert_eq!(pull.args, texts(&["pull"]));
    assert_eq!(status(&app), (String::from("Pulling..."), MessageLevel::Info));
    let push = app.push_current().unwrap();
    assert_eq!(push.args, texts(&["push"]));
    assert_eq!(status(&app), (String::from("Pushing..."), MessageLevel::Info));
    app.finish_command(pull.mutation, true, "");
    assert_eq!(status(&app), (String::from("Pulled feature"), MessageLevel::Success));
    app.finish_command(push.mutation, false, "rejected\n");
    assert_eq!(status(&app), (String::from("Push failed: rejected"), MessageLevel::Error));
    app.finish_command(Mutation::Pull { label: String::from("x") }, false, "diverged");
    assert_eq!(status(&app), (String::from("Pull failed: diverged"), MessageLevel::Error));
    select(&mut app, "/home/me/repo-worktrees/loose");
    let push = app.push_current().unwrap();
    app.finish_command(push.mutation, true, "");
    assert_eq!(status(&app), (String::from("Pushed worktree"), MessageLevel::Success));
}

#[test]
fn without_selection_nothing_is_run() {
    let mut app = App::new(String::from("/r"), String::from("/r"), None, 0);
    assert_eq!(app.pull_current(), None);
    assert_eq!(app.push_current(), None);
    assert_eq!(app.toggle_lock(), None);
    assert_eq!(app.delete_worktree(), None);
    assert_eq!(app.status_message, None);
}

#[test]
fn merging_runs_where_the_target_is_checked_out() {
    let mut app = app();
    let command = app.perform_merge(1, String::from("main")).unwrap();
    assert_eq!(
        command,
        GitCommand {
            mutation: Mutation::Merge { source: String::from("feature"), target: String::from("main"), path: String::from("/home/me/repo") },
            dir: String::from("/home/me/repo"),
            args: texts(&["merge", "feature", "--no-edit"]),
            ensure_dir: None,
        }
    );
    assert_eq!(status(&app), (String::from("Merging feature into main..."), MessageLevel::Info));
    assert!(app.finish_command(command.mutation, true, ""));
    assert_eq!(status(&app), (String::from("Merged feature into main"), MessageLevel::Success));
}

#[test]
fn merges_that_cannot_be() {
    let mut app = app();
    assert_eq!(app.perform_merge(1, String::from("feature")), None);
    assert_eq!(status(&app), (String::from("Cannot merge branch into itself"), MessageLevel::Error));
    assert_eq!(app.perform_merge(1, String::from("elsewhere")), None);
    assert_eq!(status(&app), (String::from("Branch elsewhere is not active in any worktree"), MessageLevel::Error));
    app.status_message = None;
    assert_eq!(app.perform_merge(3, String::from("main")), None);
    assert_eq!(app.perform_merge(99, String::from("main")), None);
    assert_eq!(app.status_message, None);
}

#[test]
fn a_conflict_is_a_warning_and_other_failures_are_errors() {
    let mut app = app();
    let merge = || Mutation::Merge { source: String::from("a"), target: String::from("b"), path: String::from("/wt/b") };
    app.mode = AppMode::MergeSelect;
    assert!(!app.finish_command(merge(), false, "CONFLICT (content): Merge conflict in x"));
    assert_eq!(status(&app), (String::from("Conflict! Resolve in: /wt/b"), MessageLevel::Warning));
    assert_eq!(app.mode, AppMode::Normal);
    assert!(!app.finish_command(merge(), false, "Automatic merge failed; fix conflicts"));
    assert_eq!(status(&app), (String::from("Conflict! Resolve in: /wt/b"), MessageLevel::Warning));
    assert!(!app.finish_command(merge(), false, " not something we can merge \n"));
    assert_eq!(status(&app), (String::from("Merge failed: not something we can merge"), MessageLevel::Error));
    assert_eq!(app.mode, AppMode::Normal);
    assert_eq!(app.error_message, "Merge failed: not something we can merge");
    assert!(!app.finish_command(Mutation::Pull { label: String::from("x") }, false, "CONFLICT"));
    assert_eq!(status(&app).1, MessageLevel::Error);
}

#[test]
fn a_success_asks_for_a_fetch_unless_one_is_under_way() {
    let mut app = app();
    assert!(app.finish_command(Mutation::Prune, true, ""));
    assert_eq!(app.loading_state, LoadingState::Loading);
    assert!(!app.finish_command(Mutation::Prune, true, ""));
    assert!(!app.start_refresh());
    app.refresh_arrived(records());
    assert!(app.start_refresh());
    assert_eq!(app.status_message.as_ref().unwrap().text, "Refreshed from background");
}
