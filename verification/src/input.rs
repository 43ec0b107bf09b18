//! What keys and mouse do.
//!
//! Every event changes the state in a way that depends on the state and the
//! event alone, and may leave the caller something to do: start a fetch, run
//! git, read the branches, fill the clipboard. The caller does it and hands
//! the outcome back to the state.

use crate::branches::merge_choices;
use crate::commands::{
    create_command, create_planned, delete_command, delete_planned, fetch_command, lock_command,
    merge_command, merge_planned, noted_if_selected, prune_command, pull_command, push_command,
    CommandView, GitCommand,
};
use crate::index::{
    first_selected, last_selected, position_selected, queried, selected_record, selection_moved,
    };
use crate::model::{AppMode, MessageLevel};
use crate::state::{
    awaits_fetch, refresh_requested, selected_path, sort_announced, with_status, App, AppView, Area,
};
use crate::text::{char_count, concat, insert_char, inserted, remove_char, removed};
use vstd::prelude::*;

verus! {

// ---------------------------------------------------------------------------
// Events and actions
// ---------------------------------------------------------------------------

/// A key of the keyboard.
#[derive(Debug, Clone, Copy, PartialEq, Eq, Structural)]
pub enum Key {
    Char(char),
    Esc,
    Enter,
    Tab,
    BackTab,
    Backspace,
    Delete,
    Left,
    Right,
    Up,
    Down,
    Home,
    End,
    PageUp,
    PageDown,
    /// Any key that nothing is bound to.
    Other,
}

/// What the mouse did.
#[derive(Debug, Clone, Copy, PartialEq, Eq, Structural)]
pub enum MouseKind {
    LeftDown,
    ScrollDown,
    ScrollUp,
    Other,
}

/// A mouse event at a cell of the screen.
#[derive(Debug, Clone, Copy, PartialEq, Eq, Structural)]
pub struct Mouse {
    pub kind: MouseKind,
    pub column: u16,
    pub row: u16,
}

/// What the terminal reports.
#[derive(Debug, Clone, Copy, PartialEq, Eq, Structural)]
pub enum Event {
    Key { key: Key, ctrl: bool },
    Mouse(Mouse),
    Other,
}

/// What an event leaves the caller to do.
#[derive(Debug, PartialEq, Eq)]
pub enum Action {
    /// There is nothing to do.
    Nothing,
    /// Start a background fetch; hand its result to `App::refresh_arrived`,
    /// or tell `App::refresh_failed` that there is none.
    StartRefresh,
    /// Read the branches of the repository and hand them to
    /// `App::refresh_branches`.
    ListBranches,
    /// Run git and hand the outcome to `App::finish_command`.
    Run(GitCommand),
    /// Put the path on the clipboard and tell `App::path_copied`.
    CopyPath(String),
    /// Put the error text on the clipboard and tell `App::error_copied`.
    CopyError(String),
    /// Show the path in the file manager and tell
    /// `App::file_manager_opened`.
    Open(String),
}

/// What an [`Action`] holds.
pub ghost enum ActionView {
    Nothing,
    StartRefresh,
    ListBranches,
    Run(CommandView),
    CopyPath(Seq<char>),
    CopyError(Seq<char>),
    Open(Seq<char>),
}

impl View for Action {
    type V = ActionView;

    open spec fn view(&self) -> ActionView {
        match self {
            Action::Nothing => ActionView::Nothing,
            Action::StartRefresh => ActionView::StartRefresh,
            Action::ListBranches => ActionView::ListBranches,
            Action::Run(command) => ActionView::Run(command@),
            Action::CopyPath(path) => ActionView::CopyPath(path@),
            Action::CopyError(text) => ActionView::CopyError(text@),
            Action::Open(path) => ActionView::Open(path@),
        }
    }
}

/// The action that runs `command`, or none where there is no command.
pub open spec fn run(command: Option<CommandView>) -> ActionView {
    match command {
        Some(c) => ActionView::Run(c),
        None => ActionView::Nothing,
    }
}

fn run_action(command: Option<GitCommand>) -> (r: Action)
    ensures
        r@ == run(command.deep_view()),
{
    match command {
        Some(c) => Action::Run(c),
        None => Action::Nothing,
    }
}

// ---------------------------------------------------------------------------
// The list
// ---------------------------------------------------------------------------

/// The state with the selection moved by `delta`.
pub open spec fn moved_by(v: AppView, delta: int) -> AppView {
    AppView { index: selection_moved(v.index, delta), ..v }
}

/// The position that the digit `c` jumps to: `1` to the first entry, `9` to
/// the ninth.
pub open spec fn digit_position(c: char) -> usize {
    (c as int - '1' as int) as usize
}

/// Whether `c` is one of the digits `1` to `9`.
pub open spec fn is_jump_digit(c: char) -> bool {
    '1' as int <= c as int <= '9' as int
}

/// The state with the create dialog opened, empty.
pub open spec fn create_opened(v: AppView) -> AppView {
    AppView {
        mode: AppMode::Create,
        create_input: Seq::empty(),
        create_cursor: 0,
        create_from_branch: None,
        create_checkout_existing: false,
        ..v
    }
}

/// The state with the delete dialog opened, if something is selected.
pub open spec fn delete_asked(v: AppView) -> AppView {
    if selected_record(v.index) is Some {
        AppView { mode: AppMode::Delete, delete_confirm: false, ..v }
    } else {
        v
    }
}

/// The state with the path of the selected worktree shown.
pub open spec fn path_shown(v: AppView) -> AppView {
    match selected_path(v) {
        Some(path) => with_status(v, "Path: "@ + path, MessageLevel::Info),
        None => v,
    }
}

/// The state in which the program ends and the shell is to change to the
/// selected worktree, if there is one.
pub open spec fn left_for_selected(v: AppView) -> AppView {
    match selected_path(v) {
        Some(path) => AppView { cd_path: Some(path), should_quit: true, ..v },
        None => v,
    }
}

/// The state with the merge dialog opened for the selected worktree. A
/// worktree on no branch cannot be merged from.
pub open spec fn merge_opened(v: AppView) -> AppView {
    match selected_record(v.index) {
        Some(w) => if w.branch is None {
            with_status(v, "Cannot merge detached HEAD"@, MessageLevel::Error)
        } else {
            AppView {
                merge_source_idx: Some(v.index.filtered[v.index.selected.unwrap() as int]),
                mode: AppMode::MergeSelect,
                available_branches: merge_choices(v.index),
                branch_selected: Some(0),
                ..v
            }
        },
        None => v,
    }
}

/// The state with the search opened on an empty query.
pub open spec fn search_opened(v: AppView) -> AppView {
    AppView {
        mode: AppMode::Search,
        index: queried(v.index, Seq::empty()),
        search_cursor: 0,
        ..v
    }
}

/// What a key stands for while the list has the keyboard.
#[derive(Debug, Clone, Copy, PartialEq, Eq, Structural)]
pub enum Command {
    Quit,
    /// Move the selection, down by a positive number.
    Move(i32),
    First,
    Last,
    /// Select the entry at this position.
    Jump(usize),
    Create,
    Delete,
    ShowPath,
    ChangeDir,
    CopyPath,
    OpenFileManager,
    Pull,
    Push,
    Sort,
    ToggleHistory,
    ToggleLock,
    Refresh,
    FetchAll,
    Prune,
    Merge,
    Search,
    Help,
    Nothing,
}

/// The key bindings of the list.
pub open spec fn normal_binding(key: Key, ctrl: bool) -> Command {
    match key {
        Key::Char('q') | Key::Esc => Command::Quit,
        Key::Char('j') | Key::Down => Command::Move(1),
        Key::Char('k') | Key::Up => Command::Move((-1) as i32),
        Key::Char('g') | Key::Home => Command::First,
        Key::Char('G') | Key::End => Command::Last,
        Key::Char('d') => if ctrl {
            Command::Move(5)
        } else {
            Command::Nothing
        },
        Key::Char('u') => if ctrl {
            Command::Move((-5) as i32)
        } else {
            Command::Nothing
        },
        Key::PageDown => Command::Move(10),
        Key::PageUp => Command::Move((-10) as i32),
        Key::Char('c') | Key::Char('a') => Command::Create,
        Key::Char('x') | Key::Delete => Command::Delete,
        Key::Enter | Key::Char('o') => Command::ShowPath,
        Key::Char(' ') => Command::ChangeDir,
        Key::Char('y') => Command::CopyPath,
        Key::Char('O') => Command::OpenFileManager,
        Key::Char('p') => Command::Pull,
        Key::Char('P') => Command::Push,
        Key::Char('s') => Command::Sort,
        Key::Char('t') => Command::ToggleHistory,
        Key::Char('L') => Command::ToggleLock,
        Key::Char('r') | Key::Char('R') => Command::Refresh,
        Key::Char('F') => Command::FetchAll,
        Key::Char('X') => Command::Prune,
        Key::Char('m') => Command::Merge,
        Key::Char('/') => Command::Search,
        Key::Char('?') => Command::Help,
        Key::Char(c) => if is_jump_digit(c) {
            Command::Jump(digit_position(c))
        } else {
            Command::Nothing
        },
        _ => Command::Nothing,
    }
}

/// What `key` stands for while the list has the keyboard.
pub fn bind_normal(key: Key, ctrl: bool) -> (r: Command)
    ensures
        r == normal_binding(key, ctrl),
{
    match key {
        Key::Char('q') | Key::Esc => Command::Quit,
        Key::Char('j') | Key::Down => Command::Move(1),
        Key::Char('k') | Key::Up => Command::Move(-1),
        Key::Char('g') | Key::Home => Command::First,
        Key::Char('G') | Key::End => Command::Last,
        Key::Char('d') => if ctrl {
            Command::Move(5)
        } else {
            Command::Nothing
        },
        Key::Char('u') => if ctrl {
            Command::Move(-5)
        } else {
            Command::Nothing
        },
        Key::PageDown => Command::Move(10),
        Key::PageUp => Command::Move(-10),
        Key::Char('c') | Key::Char('a') => Command::Create,
        Key::Char('x') | Key::Delete => Command::Delete,
        Key::Enter | Key::Char('o') => Command::ShowPath,
        Key::Char(' ') => Command::ChangeDir,
        Key::Char('y') => Command::CopyPath,
        Key::Char('O') => Command::OpenFileManager,
        Key::Char('p') => Command::Pull,
        Key::Char('P') => Command::Push,
        Key::Char('s') => Command::Sort,
        Key::Char('t') => Command::ToggleHistory,
        Key::Char('L') => Command::ToggleLock,
        Key::Char('r') | Key::Char('R') => Command::Refresh,
        Key::Char('F') => Command::FetchAll,
        Key::Char('X') => Command::Prune,
        Key::Char('m') => Command::Merge,
        Key::Char('/') => Command::Search,
        Key::Char('?') => Command::Help,
        Key::Char(c) => if c >= '1' && c <= '9' {
            Command::Jump((c as u32 - 49) as usize)
        } else {
            Command::Nothing
        },
        _ => Command::Nothing,
    }
}

/// The state after the command `command` was given to the list.
pub open spec fn command_step(v: AppView, command: Command) -> AppView {
    match command {
        Command::Quit => AppView { should_quit: true, ..v },
        Command::Move(delta) => moved_by(v, delta as int),
        Command::First => AppView { index: first_selected(v.index), ..v },
        Command::Last => AppView { index: last_selected(v.index), ..v },
        Command::Jump(position) => AppView { index: position_selected(v.index, position), ..v },
        Command::Create => create_opened(v),
        Command::Delete => delete_asked(v),
        Command::ShowPath => path_shown(v),
        Command::ChangeDir => left_for_selected(v),
        Command::CopyPath => v,
        Command::OpenFileManager => v,
        Command::Pull => noted_if_selected(v, "Pulling..."@),
        Command::Push => noted_if_selected(v, "Pushing..."@),
        Command::Sort => sort_announced(v),
        Command::ToggleHistory => AppView { show_recent_commits: !v.show_recent_commits, ..v },
        Command::ToggleLock => v,
        Command::Refresh => refresh_requested(v),
        Command::FetchAll => with_status(v, "Fetching from remote..."@, MessageLevel::Info),
        Command::Prune => with_status(v, "Pruning stale worktrees..."@, MessageLevel::Info),
        Command::Merge => merge_opened(v),
        Command::Search => search_opened(v),
        Command::Help => AppView { mode: AppMode::Help, ..v },
        Command::Nothing => v,
    }
}

/// What is left to do after the command `command` was given to the list.
pub open spec fn command_action(v: AppView, command: Command) -> ActionView {
    match command {
        Command::Create => ActionView::ListBranches,
        Command::CopyPath => match selected_path(v) {
            Some(path) => ActionView::CopyPath(path),
            None => ActionView::Nothing,
        },
        Command::OpenFileManager => match selected_path(v) {
            Some(path) => ActionView::Open(path),
            None => ActionView::Nothing,
        },
        Command::Pull => run(pull_command(v)),
        Command::Push => run(push_command(v)),
        Command::ToggleLock => run(lock_command(v)),
        Command::Refresh => if awaits_fetch(v) {
            ActionView::Nothing
        } else {
            ActionView::StartRefresh
        },
        Command::FetchAll => ActionView::Run(fetch_command(v)),
        Command::Prune => ActionView::Run(prune_command(v)),
        _ => ActionView::Nothing,
    }
}

/// The state after `key` was pressed while the list has the keyboard.
pub open spec fn normal_step(v: AppView, key: Key, ctrl: bool) -> AppView {
    command_step(v, normal_binding(key, ctrl))
}

/// What is left to do after `key` was pressed while the list has the
/// keyboard.
pub open spec fn normal_action(v: AppView, key: Key, ctrl: bool) -> ActionView {
    command_action(v, normal_binding(key, ctrl))
}

/// Carries out a command given to the list.
pub fn run_command(app: &mut App, command: Command) -> (action: Action)
    ensures
        final(app)@ == command_step(old(app)@, command),
        action@ == command_action(old(app)@, command),
{
    match command {
        Command::Quit => {
            app.should_quit = true;
            Action::Nothing
        },
        Command::Move(delta) => {
            app.index.move_selection(delta);
            Action::Nothing
        },
        Command::First => {
            app.index.select_first();
            Action::Nothing
        },
        Command::Last => {
            app.index.select_last();
            Action::Nothing
        },
        Command::Jump(position) => {
            app.index.select_position(position);
            Action::Nothing
        },
        Command::Create => {
            app.mode = AppMode::Create;
            app.create_input = String::new();
            app.create_cursor = 0;
            app.create_from_branch = None;
            app.create_checkout_existing = false;
            Action::ListBranches
        },
        Command::Delete => {
            if app.index.selected_worktree().is_some() {
                app.mode = AppMode::Delete;
                app.delete_confirm = false;
            }
            Action::Nothing
        },
        Command::ShowPath => {
            match app.copy_path_to_clipboard() {
                Some(path) => {
                    let text = concat("Path: ", path.as_str());
                    app.set_status(text.as_str(), MessageLevel::Info);
                },
                None => {},
            }
            Action::Nothing
        },
        Command::ChangeDir => {
            match app.copy_path_to_clipboard() {
                Some(path) => {
                    app.cd_path = Some(path);
                    app.should_quit = true;
                },
                None => {},
            }
            Action::Nothing
        },
        Command::CopyPath => match app.copy_path_to_clipboard() {
            Some(path) => Action::CopyPath(path),
            None => Action::Nothing,
        },
        Command::OpenFileManager => match app.open_in_file_manager() {
            Some(path) => Action::Open(path),
            None => Action::Nothing,
        },
        Command::Pull => run_action(app.pull_current()),
        Command::Push => run_action(app.push_current()),
        Command::Sort => {
            app.cycle_sort();
            Action::Nothing
        },
        Command::ToggleHistory => {
            app.show_recent_commits = !app.show_recent_commits;
            Action::Nothing
        },
        Command::ToggleLock => run_action(app.toggle_lock()),
        Command::Refresh => {
            if app.request_refresh() {
                Action::StartRefresh
            } else {
                Action::Nothing
            }
        },
        Command::FetchAll => Action::Run(app.fetch_all()),
        Command::Prune => Action::Run(app.prune_worktrees()),
        Command::Merge => {
            open_merge_dialog(app);
            Action::Nothing
        },
        Command::Search => {
            app.mode = AppMode::Search;
            app.index.clear_query();
            app.search_cursor = 0;
            Action::Nothing
        },
        Command::Help => {
            app.mode = AppMode::Help;
            Action::Nothing
        },
        Command::Nothing => Action::Nothing,
    }
}

/// A key was pressed while the list has the keyboard.
pub fn handle_normal_mode(app: &mut App, key: Key, ctrl: bool) -> (action: Action)
    ensures
        final(app)@ == normal_step(old(app)@, key, ctrl),
        action@ == normal_action(old(app)@, key, ctrl),
{
    run_command(app, bind_normal(key, ctrl))
}

fn open_merge_dialog(app: &mut App)
    ensures
        final(app)@ == merge_opened(old(app)@),
{
    let (on_branch, source) = match app.index.selected_worktree() {
        Some(w) => {
            let position = app.index.selected().unwrap();
            let source: usize = app.index.filtered_indices()[position];
            (w.branch.is_some(), Some(source))
        },
        None => (false, None),
    };
    if source.is_some() {
        if on_branch {
            app.merge_source_idx = source;
            app.mode = AppMode::MergeSelect;
            app.refresh_merge_branches();
            app.branch_selected = Some(0);
        } else {
            app.set_status("Cannot merge detached HEAD", MessageLevel::Error);
        }
    }
}

// ---------------------------------------------------------------------------
// Help and errors
// ---------------------------------------------------------------------------

/// The state after `key` was pressed in the help dialog.
pub open spec fn help_step(v: AppView, key: Key) -> AppView {
    match key {
        Key::Esc | Key::Char('q') | Key::Char('?') | Key::Enter => AppView {
            mode: AppMode::Normal,
            ..v
        },
        _ => v,
    }
}

/// A key was pressed in the help dialog.
pub fn handle_help_mode(app: &mut App, key: Key)
    ensures
        final(app)@ == help_step(old(app)@, key),
{
    match key {
        Key::Esc | Key::Char('q') | Key::Char('?') | Key::Enter => {
            app.mode = AppMode::Normal;
        },
        _ => {},
    }
}

/// The state after `key` was pressed in the error dialog.
pub open spec fn error_step(v: AppView, key: Key) -> AppView {
    match key {
        Key::Esc | Key::Char('q') | Key::Enter => AppView {
            mode: AppMode::Normal,
            error_message: Seq::empty(),
            ..v
        },
        _ => v,
    }
}

/// What is left to do after `key` was pressed in the error dialog.
pub open spec fn error_action(v: AppView, key: Key) -> ActionView {
    match key {
        Key::Char('y') => ActionView::CopyError(v.error_message),
        _ => ActionView::Nothing,
    }
}

/// A key was pressed in the error dialog.
pub fn handle_error_mode(app: &mut App, key: Key) -> (action: Action)
    ensures
        final(app)@ == error_step(old(app)@, key),
        action@ == error_action(old(app)@, key),
{
    match key {
        Key::Esc | Key::Char('q') | Key::Enter => {
            app.mode = AppMode::Normal;
            app.error_message = String::new();
            Action::Nothing
        },
        Key::Char('y') => Action::CopyError(app.error_message.clone()),
        _ => Action::Nothing,
    }
}

// ---------------------------------------------------------------------------
// The create dialog
// ---------------------------------------------------------------------------

/// A cursor kept within a text of `len` characters.
pub open spec fn within(cursor: usize, len: nat) -> nat {
    if cursor <= len {
        cursor as nat
    } else {
        len
    }
}

/// The state after `key` was pressed in the create dialog.
pub open spec fn create_step(v: AppView, key: Key, ctrl: bool) -> AppView {
    match key {
        Key::Esc => AppView {
            mode: AppMode::Normal,
            create_input: Seq::empty(),
            create_checkout_existing: false,
            ..v
        },
        Key::Enter => create_planned(v),
        Key::BackTab => AppView { create_checkout_existing: !v.create_checkout_existing, ..v },
        Key::Tab => AppView { mode: AppMode::BranchSelect, branch_selected: Some(0), ..v },
        Key::Backspace => if v.create_cursor > 0 {
            AppView {
                create_input: removed(v.create_input, (v.create_cursor - 1) as nat),
                create_cursor: (v.create_cursor - 1) as usize,
                ..v
            }
        } else {
            v
        },
        Key::Left => AppView {
            create_cursor: if v.create_cursor > 0 {
                (v.create_cursor - 1) as usize
            } else {
                0
            },
            ..v
        },
        Key::Right => AppView {
            create_cursor: if v.create_cursor < v.create_input.len() {
                (v.create_cursor + 1) as usize
            } else {
                v.create_input.len() as usize
            },
            ..v
        },
        Key::Char(c) => if c == 'u' && ctrl {
            AppView { create_input: Seq::empty(), create_cursor: 0, ..v }
        } else {
            AppView {
                create_input: inserted(v.create_input, v.create_cursor as nat, c),
                create_cursor: (within(v.create_cursor, v.create_input.len()) + 1) as usize,
                ..v
            }
        },
        _ => v,
    }
}

/// What is left to do after `key` was pressed in the create dialog.
pub open spec fn create_action(v: AppView, key: Key) -> ActionView {
    match key {
        Key::Enter => run(create_command(v)),
        _ => ActionView::Nothing,
    }
}

/// A key was pressed in the create dialog.
pub fn handle_create_mode(app: &mut App, key: Key, ctrl: bool) -> (action: Action)
    ensures
        final(app)@ == create_step(old(app)@, key, ctrl),
        action@ == create_action(old(app)@, key),
{
    match key {
        Key::Esc => {
            app.mode = AppMode::Normal;
            app.create_input = String::new();
            app.create_checkout_existing = false;
            Action::Nothing
        },
        Key::Enter => run_action(app.create_worktree()),
        Key::BackTab => {
            app.create_checkout_existing = !app.create_checkout_existing;
            Action::Nothing
        },
        Key::Tab => {
            app.mode = AppMode::BranchSelect;
            app.branch_selected = Some(0);
            Action::Nothing
        },
        Key::Backspace => {
            if app.create_cursor > 0 {
                app.create_input = remove_char(app.create_input.as_str(), app.create_cursor - 1);
                app.create_cursor = app.create_cursor - 1;
            }
            Action::Nothing
        },
        Key::Left => {
            if app.create_cursor > 0 {
                app.create_cursor = app.create_cursor - 1;
            }
            Action::Nothing
        },
        Key::Right => {
            let len = char_count(app.create_input.as_str());
            app.create_cursor = if app.create_cursor < len {
                app.create_cursor + 1
            } else {
                len
            };
            Action::Nothing
        },
        Key::Char(c) => {
            if c == 'u' && ctrl {
                app.create_input = String::new();
                app.create_cursor = 0;
            } else {
                let len = char_count(app.create_input.as_str());
                let at: usize = if app.create_cursor <= len {
                    app.create_cursor
                } else {
                    len
                };
                let text = insert_char(app.create_input.as_str(), app.create_cursor, c);
                let grown = char_count(text.as_str());
                assert(grown == len + 1);
                app.create_input = text;
                app.create_cursor = at + 1;
            }
            Action::Nothing
        },
        _ => Action::Nothing,
    }
}

// ---------------------------------------------------------------------------
// The delete dialog
// ---------------------------------------------------------------------------

/// The state after `key` was pressed in the delete dialog.
pub open spec fn delete_step(v: AppView, key: Key) -> AppView {
    match key {
        Key::Esc | Key::Char('n') | Key::Char('N') => AppView {
            mode: AppMode::Normal,
            delete_confirm: false,
            ..v
        },
        Key::Char('y') | Key::Char('Y') | Key::Enter => delete_planned(v),
        _ => v,
    }
}

/// What is left to do after `key` was pressed in the delete dialog.
pub open spec fn delete_action(v: AppView, key: Key) -> ActionView {
    match key {
        Key::Char('y') | Key::Char('Y') | Key::Enter => run(delete_command(v)),
        _ => ActionView::Nothing,
    }
}

/// A key was pressed in the delete dialog.
pub fn handle_delete_mode(app: &mut App, key: Key) -> (action: Action)
    ensures
        final(app)@ == delete_step(old(app)@, key),
        action@ == delete_action(old(app)@, key),
{
    match key {
        Key::Esc | Key::Char('n') | Key::Char('N') => {
            app.mode = AppMode::Normal;
            app.delete_confirm = false;
            Action::Nothing
        },
        Key::Char('y') | Key::Char('Y') | Key::Enter => run_action(app.delete_worktree()),
        _ => Action::Nothing,
    }
}

// ---------------------------------------------------------------------------
// The search bar
// ---------------------------------------------------------------------------

/// The state after `key` was pressed in the search bar. Every change of the
/// query filters the list anew.
pub open spec fn search_step(v: AppView, key: Key, ctrl: bool) -> AppView {
    match key {
        Key::Esc => AppView {
            mode: AppMode::Normal,
            index: queried(v.index, Seq::empty()),
            ..v
        },
        Key::Enter => AppView { mode: AppMode::Normal, ..v },
        Key::Backspace => if v.search_cursor > 0 {
            AppView {
                index: queried(v.index, removed(v.index.query, (v.search_cursor - 1) as nat)),
                search_cursor: (v.search_cursor - 1) as usize,
                ..v
            }
        } else {
            v
        },
        Key::Char(c) => if c == 'u' && ctrl {
            AppView { index: queried(v.index, Seq::empty()), search_cursor: 0, ..v }
        } else {
            AppView {
                index: queried(v.index, inserted(v.index.query, v.search_cursor as nat, c)),
                search_cursor: (within(v.search_cursor, v.index.query.len()) + 1) as usize,
                ..v
            }
        },
        _ => v,
    }
}

/// A key was pressed in the search bar.
pub fn handle_search_mode(app: &mut App, key: Key, ctrl: bool)
    ensures
        final(app)@ == search_step(old(app)@, key, ctrl),
{
    match key {
        Key::Esc => {
            app.mode = AppMode::Normal;
            app.index.clear_query();
        },
        Key::Enter => {
            app.mode = AppMode::Normal;
        },
        Key::Backspace => {
            if app.search_cursor > 0 {
                let text = remove_char(app.index.query(), app.search_cursor - 1);
                app.index.set_query(text);
                app.search_cursor = app.search_cursor - 1;
            }
        },
        Key::Char(c) => {
            if c == 'u' && ctrl {
                app.index.clear_query();
                app.search_cursor = 0;
            } else {
                let len = char_count(app.index.query());
                let at: usize = if app.search_cursor <= len {
                    app.search_cursor
                } else {
                    len
                };
                let text = insert_char(app.index.query(), app.search_cursor, c);
                let grown = char_count(text.as_str());
                assert(grown == len + 1);
                app.index.set_query(text);
                app.search_cursor = at + 1;
            }
        },
        _ => {},
    }
}

// ---------------------------------------------------------------------------
// The branch lists
// ---------------------------------------------------------------------------

/// The highlighted entry of a list of `len` entries after a step down, the
/// list going round at its end. No entry counts as the first.
pub open spec fn next_entry(selected: Option<usize>, len: nat) -> Option<usize> {
    if len > 0 {
        Some(
            ((match selected {
                Some(p) => p as int,
                None => 0,
            } + 1) % (len as int)) as usize,
        )
    } else {
        selected
    }
}

/// The highlighted entry of a list of `len` entries after a step up, the
/// list going round at its start. No entry counts as the first.
pub open spec fn previous_entry(selected: Option<usize>, len: nat) -> Option<usize> {
    if len > 0 {
        match selected {
            Some(p) => if p == 0 {
                Some((len - 1) as usize)
            } else {
                Some((p - 1) as usize)
            },
            None => Some((len - 1) as usize),
        }
    } else {
        selected
    }
}

/// The name of the highlighted branch.
pub open spec fn highlighted_branch(v: AppView) -> Option<Seq<char>> {
    match v.branch_selected {
        Some(p) => if p < v.available_branches.len() {
            Some(v.available_branches[p as int].name)
        } else {
            None
        },
        None => None,
    }
}

fn step_down(selected: Option<usize>, len: usize) -> (r: Option<usize>)
    ensures
        r == next_entry(selected, len as nat),
{
    if len > 0 {
        let current: usize = match selected {
            Some(p) => p,
            None => 0,
        };
        proof {
            vstd::arithmetic::div_mod::lemma_add_mod_noop(current as int, 1, len as int);
            vstd::arithmetic::div_mod::lemma_mod_twice(current as int, len as int);
            if len == 1 {
                assert((current % len + 1) % (len as int) == 0);
            } else {
                vstd::arithmetic::div_mod::lemma_small_mod(1, len as nat);
            }
        }
        Some((current % len + 1) % len)
    } else {
        selected
    }
}

fn step_up(selected: Option<usize>, len: usize) -> (r: Option<usize>)
    ensures
        r == previous_entry(selected, len as nat),
{
    if len > 0 {
        match selected {
            Some(p) => if p == 0 {
                Some(len - 1)
            } else {
                Some(p - 1)
            },
            None => Some(len - 1),
        }
    } else {
        selected
    }
}

fn highlighted(app: &App) -> (r: Option<String>)
    ensures
        r.deep_view() == highlighted_branch(app@),
{
    match app.branch_selected {
        Some(p) => if p < app.available_branches.len() {
            assert(app.available_branches.deep_view()[p as int] == app.available_branches[p as int]@);
            Some(app.available_branches[p].name.clone())
        } else {
            None
        },
        None => None,
    }
}

/// The state after `key` was pressed in the list of base branches.
pub open spec fn branch_select_step(v: AppView, key: Key) -> AppView {
    match key {
        Key::Esc => AppView { mode: AppMode::Create, ..v },
        Key::Enter => AppView {
            mode: AppMode::Create,
            create_from_branch: match highlighted_branch(v) {
                Some(name) => Some(name),
                None => v.create_from_branch,
            },
            ..v
        },
        Key::Char('j') | Key::Down => AppView {
            branch_selected: next_entry(v.branch_selected, v.available_branches.len()),
            ..v
        },
        Key::Char('k') | Key::Up => AppView {
            branch_selected: previous_entry(v.branch_selected, v.available_branches.len()),
            ..v
        },
        _ => v,
    }
}

/// A key was pressed in the list of base branches.
pub fn handle_branch_select_mode(app: &mut App, key: Key)
    ensures
        final(app)@ == branch_select_step(old(app)@, key),
{
    match key {
        Key::Esc => {
            app.mode = AppMode::Create;
        },
        Key::Enter => {
            match highlighted(app) {
                Some(name) => {
                    app.create_from_branch = Some(name);
                },
                None => {},
            }
            app.mode = AppMode::Create;
        },
        Key::Char('j') | Key::Down => {
            app.branch_selected = step_down(app.branch_selected, app.available_branches.len());
        },
        Key::Char('k') | Key::Up => {
            app.branch_selected = step_up(app.branch_selected, app.available_branches.len());
        },
        _ => {},
    }
}

/// The merge that the merge dialog stands for: from the worktree it was
/// opened on into the highlighted branch.
pub open spec fn chosen_merge(v: AppView) -> Option<(usize, Seq<char>)> {
    match (v.merge_source_idx, highlighted_branch(v)) {
        (Some(source), Some(target)) => Some((source, target)),
        _ => None,
    }
}

/// The state after `key` was pressed in the list of merge targets.
pub open spec fn merge_select_step(v: AppView, key: Key) -> AppView {
    match key {
        Key::Esc => AppView { mode: AppMode::Normal, merge_source_idx: None, ..v },
        Key::Enter => AppView {
            mode: AppMode::Normal,
            merge_source_idx: None,
            ..match chosen_merge(v) {
                Some((source, target)) => merge_planned(v, source, target),
                None => v,
            }
        },
        Key::Char('j') | Key::Down => AppView {
            branch_selected: next_entry(v.branch_selected, v.available_branches.len()),
            ..v
        },
        Key::Char('k') | Key::Up => AppView {
            branch_selected: previous_entry(v.branch_selected, v.available_branches.len()),
            ..v
        },
        _ => v,
    }
}

/// What is left to do after `key` was pressed in the list of merge targets.
pub open spec fn merge_select_action(v: AppView, key: Key) -> ActionView {
    match key {
        Key::Enter => match chosen_merge(v) {
            Some((source, target)) => run(merge_command(v, source, target)),
            None => ActionView::Nothing,
        },
        _ => ActionView::Nothing,
    }
}

/// A key was pressed in the list of merge targets.
pub fn handle_merge_select_mode(app: &mut App, key: Key) -> (action: Action)
    ensures
        final(app)@ == merge_select_step(old(app)@, key),
        action@ == merge_select_action(old(app)@, key),
{
    match key {
        Key::Esc => {
            app.mode = AppMode::Normal;
            app.merge_source_idx = None;
            Action::Nothing
        },
        Key::Enter => {
            let target = highlighted(app);
            let action = match (app.merge_source_idx, target) {
                (Some(source), Some(target)) => run_action(app.perform_merge(source, target)),
                _ => Action::Nothing,
            };
            app.mode = AppMode::Normal;
            app.merge_source_idx = None;
            action
        },
        Key::Char('j') | Key::Down => {
            app.branch_selected = step_down(app.branch_selected, app.available_branches.len());
            Action::Nothing
        },
        Key::Char('k') | Key::Up => {
            app.branch_selected = step_up(app.branch_selected, app.available_branches.len());
            Action::Nothing
        },
        _ => Action::Nothing,
    }
}

// ---------------------------------------------------------------------------
// The mouse
// ---------------------------------------------------------------------------

/// How many rows above the first entry the list paints: its border, its
/// header and the gap beneath the header.
pub const LIST_HEADER_ROWS: u16 = 3;

/// Whether the cell lies within the area.
pub open spec fn area_holds(area: Area, column: u16, row: u16) -> bool {
    &&& area.x <= column < area.x + area.width
    &&& area.y <= row < area.y + area.height
}

/// The entry of the list that a click on `row` hits, the list being painted
/// at `area`. A click on the header hits the first entry.
pub open spec fn clicked_position(area: Area, row: u16) -> usize {
    if row >= area.y + LIST_HEADER_ROWS {
        (row - area.y - LIST_HEADER_ROWS) as usize
    } else {
        0
    }
}

/// The state after a mouse event. The mouse works on the list only, and only
/// while no dialog is open.
pub open spec fn mouse_step(v: AppView, mouse: Mouse) -> AppView {
    if v.mode != AppMode::Normal {
        v
    } else {
        match mouse.kind {
            MouseKind::LeftDown => match v.list_area {
                Some(area) => if area_holds(area, mouse.column, mouse.row) {
                    AppView {
                        index: position_selected(v.index, clicked_position(area, mouse.row)),
                        ..v
                    }
                } else {
                    v
                },
                None => v,
            },
            MouseKind::ScrollDown => moved_by(v, 1),
            MouseKind::ScrollUp => moved_by(v, -1),
            MouseKind::Other => v,
        }
    }
}

/// The mouse did something.
pub fn handle_mouse_event(app: &mut App, mouse: Mouse)
    ensures
        final(app)@ == mouse_step(old(app)@, mouse),
{
    if app.mode != AppMode::Normal {
        return ;
    }
    match mouse.kind {
        MouseKind::LeftDown => {
            match app.list_area {
                Some(area) => {
                    let column = mouse.column as u32;
                    let row = mouse.row as u32;
                    let inside = column >= area.x as u32 && column < area.x as u32
                        + area.width as u32 && row >= area.y as u32 && row < area.y as u32
                        + area.height as u32;
                    if inside {
                        let first = area.y as u32 + LIST_HEADER_ROWS as u32;
                        let position: usize = if row >= first {
                            (row - first) as usize
                        } else {
                            0
                        };
                        app.index.select_position(position);
                    }
                },
                None => {},
            }
        },
        MouseKind::ScrollDown => {
            app.index.move_selection(1);
        },
        MouseKind::ScrollUp => {
            app.index.move_selection(-1);
        },
        MouseKind::Other => {},
    }
}

// ---------------------------------------------------------------------------
// All events
// ---------------------------------------------------------------------------

/// The state after the event `event`, which goes to whatever has the
/// keyboard.
pub open spec fn event_step(v: AppView, event: Event) -> AppView {
    match event {
        Event::Key { key, ctrl } => match v.mode {
            AppMode::Normal => normal_step(v, key, ctrl),
            AppMode::Help => help_step(v, key),
            AppMode::Create => create_step(v, key, ctrl),
            AppMode::Delete => delete_step(v, key),
            AppMode::Search => search_step(v, key, ctrl),
            AppMode::BranchSelect => branch_select_step(v, key),
            AppMode::MergeSelect => merge_select_step(v, key),
            AppMode::Error => error_step(v, key),
        },
        Event::Mouse(mouse) => mouse_step(v, mouse),
        Event::Other => v,
    }
}

/// What is left to do after the event `event`.
pub open spec fn event_action(v: AppView, event: Event) -> ActionView {
    match event {
        Event::Key { key, ctrl } => match v.mode {
            AppMode::Normal => normal_action(v, key, ctrl),
            AppMode::Create => create_action(v, key),
            AppMode::Delete => delete_action(v, key),
            AppMode::MergeSelect => merge_select_action(v, key),
            AppMode::Error => error_action(v, key),
            _ => ActionView::Nothing,
        },
        _ => ActionView::Nothing,
    }
}

/// Handles one event at the time `now` (milliseconds). Returns what is left
/// for the caller to do. Whether the program is to end is told by
/// `should_quit`.
pub fn handle_event(app: &mut App, event: Event, now: u64) -> (action: Action)
    ensures
        final(app)@ == event_step(AppView { clock: now, ..old(app)@ }, event),
        action@ == event_action(AppView { clock: now, ..old(app)@ }, event),
{
    app.clock = now;
    match event {
        Event::Key { key, ctrl } => match app.mode {
            AppMode::Normal => handle_normal_mode(app, key, ctrl),
            AppMode::Help => {
                handle_help_mode(app, key);
                Action::Nothing
            },
            AppMode::Create => handle_create_mode(app, key, ctrl),
            AppMode::Delete => handle_delete_mode(app, key),
            AppMode::Search => {
                handle_search_mode(app, key, ctrl);
                Action::Nothing
            },
            AppMode::BranchSelect => {
                handle_branch_select_mode(app, key);
                Action::Nothing
            },
            AppMode::MergeSelect => handle_merge_select_mode(app, key),
            AppMode::Error => handle_error_mode(app, key),
        },
        Event::Mouse(mouse) => {
            handle_mouse_event(app, mouse);
            Action::Nothing
        },
        Event::Other => Action::Nothing,
    }
}

} // verus!
