//! The state of the dashboard and the refresh coordinator.
//!
//! The state is changed by one loop only, which also paints and reads input.
//! Everything slow happens elsewhere: a background fetch is started by the
//! caller when the coordinator asks for one, and its result is handed back
//! through [`App::refresh_arrived`]. At most one fetch is outstanding at any
//! time.

use crate::cache::{
    create_cache, fresh_between, revived_all, worktrees_from_cache, worktrees_to_cache,
    WorktreeCache,
};
use crate::index::{
    path_selected, replaced, selected_record, sort_cycled, well_formed, IndexView, ViewIndex,
};
use crate::model::{
    AppMode, Branch, BranchView, LoadingState, MessageLevel, SortOrder, Worktree, WorktreeView,
};
use crate::text::concat;
use crate::paths::{file_name_of, path_file_name};
use vstd::prelude::*;

verus! {

/// How long a status message stays, in milliseconds.
pub const STATUS_LIFETIME_MS: u64 = 5000;

/// How many frames the loading spinner has.
pub const SPINNER_FRAMES: usize = 10;

/// A short message shown in the status bar.
#[derive(Debug, PartialEq, Eq)]
pub struct StatusMessage {
    pub text: String,
    pub level: MessageLevel,
    /// The clock's reading when the message was set, in milliseconds.
    pub shown_at: u64,
}

/// What a [`StatusMessage`] holds.
pub ghost struct StatusView {
    pub text: Seq<char>,
    pub level: MessageLevel,
    pub shown_at: u64,
}

impl View for StatusMessage {
    type V = StatusView;

    open spec fn view(&self) -> StatusView {
        StatusView { text: self.text@, level: self.level, shown_at: self.shown_at }
    }
}

impl DeepView for StatusMessage {
    type V = StatusView;

    open spec fn deep_view(&self) -> StatusView {
        self@
    }
}

/// A rectangle of the screen, in cells.
#[derive(Debug, Clone, Copy, PartialEq, Eq, Structural)]
pub struct Area {
    pub x: u16,
    pub y: u16,
    pub width: u16,
    pub height: u16,
}

/// The whole state of the dashboard.
#[derive(Debug)]
pub struct App {
    /// The records with their order, filter and selection.
    pub index: ViewIndex,
    pub mode: AppMode,
    pub should_quit: bool,
    /// The directory to change to when the program ends.
    pub cd_path: Option<String>,
    pub repo_root: String,
    pub repo_name: String,
    /// Where the program was started.
    pub current_worktree_path: String,
    pub status_message: Option<StatusMessage>,
    pub show_recent_commits: bool,
    pub loading_state: LoadingState,
    /// Whether a background fetch is under way. While the coordinator is
    /// loading this tells whether a result is still to come; while it is
    /// idle it tells nothing.
    pub fetch_outstanding: bool,
    pub spinner_frame: usize,
    /// The name typed into the create dialog.
    pub create_input: String,
    /// The cursor in `create_input`, counted in characters.
    pub create_cursor: usize,
    pub available_branches: Vec<Branch>,
    /// The highlighted entry of `available_branches`.
    pub branch_selected: Option<usize>,
    pub create_from_branch: Option<String>,
    pub create_checkout_existing: bool,
    /// The position in the collection of the worktree to merge from.
    pub merge_source_idx: Option<usize>,
    pub delete_confirm: bool,
    pub error_message: String,
    /// The cursor in the search query, counted in characters.
    pub search_cursor: usize,
    /// Where the list was painted last.
    pub list_area: Option<Area>,
    /// The path to select once the next refresh has arrived.
    pub pending_selection: Option<String>,
    /// The time of the event being handled, in milliseconds.
    pub clock: u64,
}

/// What an [`App`] holds.
pub ghost struct AppView {
    pub index: IndexView,
    pub mode: AppMode,
    pub should_quit: bool,
    pub cd_path: Option<Seq<char>>,
    pub repo_root: Seq<char>,
    pub repo_name: Seq<char>,
    pub current_worktree_path: Seq<char>,
    pub status_message: Option<StatusView>,
    pub show_recent_commits: bool,
    pub loading_state: LoadingState,
    pub fetch_outstanding: bool,
    pub spinner_frame: usize,
    pub create_input: Seq<char>,
    pub create_cursor: usize,
    pub available_branches: Seq<BranchView>,
    pub branch_selected: Option<usize>,
    pub create_from_branch: Option<Seq<char>>,
    pub create_checkout_existing: bool,
    pub merge_source_idx: Option<usize>,
    pub delete_confirm: bool,
    pub error_message: Seq<char>,
    pub search_cursor: usize,
    pub list_area: Option<Area>,
    pub pending_selection: Option<Seq<char>>,
    pub clock: u64,
}

impl View for App {
    type V = AppView;

    open spec fn view(&self) -> AppView {
        AppView {
            index: self.index@,
            mode: self.mode,
            should_quit: self.should_quit,
            cd_path: self.cd_path.deep_view(),
            repo_root: self.repo_root@,
            repo_name: self.repo_name@,
            current_worktree_path: self.current_worktree_path@,
            status_message: self.status_message.deep_view(),
            show_recent_commits: self.show_recent_commits,
            loading_state: self.loading_state,
            fetch_outstanding: self.fetch_outstanding,
            spinner_frame: self.spinner_frame,
            create_input: self.create_input@,
            create_cursor: self.create_cursor,
            available_branches: self.available_branches.deep_view(),
            branch_selected: self.branch_selected,
            create_from_branch: self.create_from_branch.deep_view(),
            create_checkout_existing: self.create_checkout_existing,
            merge_source_idx: self.merge_source_idx,
            delete_confirm: self.delete_confirm,
            error_message: self.error_message@,
            search_cursor: self.search_cursor,
            list_area: self.list_area,
            pending_selection: self.pending_selection.deep_view(),
            clock: self.clock,
        }
    }
}

/// The name shown for the repository at `repo_root`: the last component of
/// the root, or `repository` where it has none.
pub open spec fn repo_name_of(repo_root: Seq<char>) -> Seq<char> {
    match file_name_of(repo_root) {
        Some(name) => name,
        None => "repository"@,
    }
}

/// How the coordinator starts, given whether an envelope was found for the
/// repository and whether it is fresh at the time `now`: with a fresh envelope
/// there is nothing to wait for; with a stale one, or with none, a fetch is
/// due.
pub open spec fn initial_loading(cached: Option<u64>, now: u64) -> LoadingState {
    match cached {
        Some(timestamp) => if fresh_between(timestamp, now) {
            LoadingState::Idle
        } else {
            LoadingState::Loading
        },
        None => LoadingState::Loading,
    }
}

/// The state with the message `text` shown. An error is also put into the
/// error dialog, which takes the keyboard.
pub open spec fn with_status(v: AppView, text: Seq<char>, level: MessageLevel) -> AppView {
    let shown = AppView {
        status_message: Some(StatusView { text, level, shown_at: v.clock }),
        ..v
    };
    if level == MessageLevel::Error {
        AppView { error_message: text, mode: AppMode::Error, ..shown }
    } else {
        shown
    }
}

/// The state once the status message has been dropped if it was shown for
/// more than [`STATUS_LIFETIME_MS`].
pub open spec fn without_old_status(v: AppView) -> AppView {
    match v.status_message {
        Some(message) => if v.clock - message.shown_at > STATUS_LIFETIME_MS {
            AppView { status_message: None, ..v }
        } else {
            v
        },
        None => v,
    }
}

/// The state after a tick of the spinner at the time `now`: while a fetch is
/// awaited the spinner moves on by one frame, and an old status message is
/// dropped.
pub open spec fn ticked(v: AppView, now: u64) -> AppView {
    without_old_status(
        AppView {
            clock: now,
            spinner_frame: if v.loading_state == LoadingState::Loading {
                ((v.spinner_frame + 1) % (SPINNER_FRAMES as int)) as usize
            } else {
                v.spinner_frame
            },
            ..v
        },
    )
}

/// Whether the result of a background fetch is awaited: the coordinator is
/// loading and a fetch is under way. An idle coordinator awaits none, and
/// neither does one whose fetch has ended without result.
pub open spec fn awaits_fetch(v: AppView) -> bool {
    v.loading_state == LoadingState::Loading && v.fetch_outstanding
}

/// The state after the user asked for a refresh. Where the result of a
/// fetch is awaited nothing happens; else the coordinator goes over to
/// loading and a fetch is started.
pub open spec fn refresh_requested(v: AppView) -> AppView {
    if awaits_fetch(v) {
        v
    } else {
        with_status(
            AppView { loading_state: LoadingState::Loading, fetch_outstanding: true, ..v },
            "Refreshing..."@,
            MessageLevel::Info,
        )
    }
}

/// At most one fetch is under way: a request for a refresh leaves one
/// awaited, and a further request changes nothing, whatever the state was.
/// An idle coordinator always goes over to loading.
pub proof fn lemma_one_fetch_at_a_time(v: AppView)
    ensures
        awaits_fetch(refresh_requested(v)),
        refresh_requested(refresh_requested(v)) == refresh_requested(v),
        v.loading_state == LoadingState::Idle ==> refresh_requested(v).loading_state
            == LoadingState::Loading && refresh_requested(v) != v,
        refresh_requested(v).index == v.index,
{
}

impl App {
    /// The state at start for the repository at `repo_root`, the program
    /// having been started at `current_worktree_path`, with the envelope
    /// found on disk for this repository, if one was found, at the time
    /// `unix_now` (seconds since the epoch).
    ///
    /// With a fresh envelope the coordinator is idle and shows the cached
    /// records. With a stale one it shows them too, and is loading. With
    /// none it shows nothing, and is loading. While it is loading the caller
    /// owes it a fetch, which counts as under way from here on.
    pub fn new(
        repo_root: String,
        current_worktree_path: String,
        cached: Option<WorktreeCache>,
        unix_now: u64,
    ) -> (r: App)
        ensures
            r@.repo_root == repo_root@,
            r@.current_worktree_path == current_worktree_path@,
            r@.repo_name == repo_name_of(repo_root@),
            r@.loading_state == initial_loading(
                match cached {
                    Some(c) => Some(c.timestamp),
                    None => None,
                },
                unix_now,
            ),
            r@.fetch_outstanding == (r@.loading_state == LoadingState::Loading),
            well_formed(r@.index),
            r@.index.worktrees == (match cached {
                Some(c) => revived_all(c@.worktrees, repo_root@, current_worktree_path@),
                None => Seq::empty(),
            }),
            r@.index.sort_order == SortOrder::Recent,
            r@.index.query == Seq::<char>::empty(),
            r@.index.selected == (if r@.index.worktrees.len() > 0 {
                Some(0usize)
            } else {
                None
            }),
            r@ == (AppView {
                index: r@.index,
                repo_root: repo_root@,
                repo_name: r@.repo_name,
                current_worktree_path: current_worktree_path@,
                loading_state: r@.loading_state,
                fetch_outstanding: r@.fetch_outstanding,
                ..blank_view()
            }),
    {
        let repo_name = match path_file_name(repo_root.as_str()) {
            Some(name) => name,
            None => "repository".to_owned(),
        };
        let (worktrees, loading_state) = match cached {
            Some(c) => {
                let fresh = c.is_fresh_at(unix_now);
                let worktrees = worktrees_from_cache(
                    c.worktrees,
                    repo_root.as_str(),
                    current_worktree_path.as_str(),
                );
                if fresh {
                    (worktrees, LoadingState::Idle)
                } else {
                    (worktrees, LoadingState::Loading)
                }
            },
            None => {
                let none: Vec<Worktree> = Vec::new();
                assert(none.deep_view() =~= Seq::empty());
                (none, LoadingState::Loading)
            },
        };
        let fetch_outstanding = match loading_state {
            LoadingState::Loading => true,
            LoadingState::Idle => false,
        };
        let r = App {
            index: ViewIndex::new(worktrees, SortOrder::Recent),
            mode: AppMode::Normal,
            should_quit: false,
            cd_path: None,
            repo_root,
            repo_name,
            current_worktree_path,
            status_message: None,
            show_recent_commits: true,
            loading_state,
            fetch_outstanding,
            spinner_frame: 0,
            create_input: String::new(),
            create_cursor: 0,
            available_branches: Vec::new(),
            branch_selected: None,
            create_from_branch: None,
            create_checkout_existing: false,
            merge_source_idx: None,
            delete_confirm: false,
            error_message: String::new(),
            search_cursor: 0,
            list_area: None,
            pending_selection: None,
            clock: 0,
        };
        assert(r.available_branches.deep_view() =~= Seq::empty());
        r
    }

    /// Shows the message `text`. An error is also put into the error dialog,
    /// which takes the keyboard.
    pub fn set_status(&mut self, text: &str, level: MessageLevel)
        ensures
            final(self)@ == with_status(old(self)@, text@, level),
    {
        self.status_message = Some(
            StatusMessage { text: text.to_owned(), level, shown_at: self.clock },
        );
        if level == MessageLevel::Error {
            self.error_message = text.to_owned();
            self.mode = AppMode::Error;
        }
    }

    /// Drops the status message once it was shown for more than
    /// [`STATUS_LIFETIME_MS`].
    pub fn clear_old_status(&mut self)
        ensures
            final(self)@ == without_old_status(old(self)@),
    {
        let expired = match &self.status_message {
            Some(message) => self.clock > message.shown_at && self.clock - message.shown_at
                > STATUS_LIFETIME_MS,
            None => false,
        };
        if expired {
            self.status_message = None;
        }
    }

    /// A tick of the spinner at the time `now` (milliseconds).
    pub fn tick(&mut self, now: u64)
        ensures
            final(self)@ == ticked(old(self)@, now),
    {
        self.clock = now;
        if self.loading_state == LoadingState::Loading {
            self.spinner_frame = (self.spinner_frame % SPINNER_FRAMES + 1) % SPINNER_FRAMES;
        }
        self.clear_old_status();
    }

    /// Whether the result of a background fetch is awaited.
    pub fn awaits_fetch(&self) -> (r: bool)
        ensures
            r == awaits_fetch(self@),
    {
        self.loading_state == LoadingState::Loading && self.fetch_outstanding
    }

    /// The user asks for a refresh. Returns whether the caller has to start
    /// a background fetch: it has unless the result of one is awaited, and
    /// then the coordinator is loading from here on.
    pub fn request_refresh(&mut self) -> (start: bool)
        ensures
            start == !awaits_fetch(old(self)@),
            final(self)@ == refresh_requested(old(self)@),
    {
        if self.awaits_fetch() {
            false
        } else {
            self.loading_state = LoadingState::Loading;
            self.fetch_outstanding = true;
            self.set_status("Refreshing...", MessageLevel::Info);
            true
        }
    }

    /// The background fetch has ended without a result. The records shown
    /// stay as they are and the coordinator stays loading; the next request
    /// for a refresh starts a new fetch.
    pub fn refresh_failed(&mut self)
        ensures
            final(self)@ == (AppView { fetch_outstanding: false, ..old(self)@ }),
    {
        self.fetch_outstanding = false;
    }

    /// The background fetch has brought `worktrees`.
    ///
    /// The collection is replaced as a whole, order and filter are made
    /// anew, and the selection stays on the record that was selected (see
    /// [`replaced`]), or goes to the worktree that was just created. The
    /// coordinator is idle again. Returns the envelope to write to the disk
    /// cache; whether writing it works is of no concern to the state.
    pub fn refresh_arrived(&mut self, worktrees: Vec<Worktree>) -> (envelope: WorktreeCache)
        ensures
            final(self)@ == refresh_applied(old(self)@, worktrees.deep_view()),
            well_formed(final(self)@.index),
            envelope@.repo_root == old(self)@.repo_root,
            envelope@.worktrees == worktrees.deep_view(),
    {
        self.index.replace(worktrees);
        let pending = self.pending_selection.take();
        match pending {
            Some(path) => {
                self.index.select_path(path.as_str());
            },
            None => {},
        }
        self.loading_state = LoadingState::Idle;
        self.fetch_outstanding = false;
        self.set_status("Refreshed from background", MessageLevel::Success);
        self.cache_snapshot()
    }

    /// Goes on to the next sort order and says so.
    pub fn cycle_sort(&mut self)
        ensures
            final(self)@ == sort_announced(old(self)@),
            well_formed(final(self)@.index),
    {
        self.index.cycle_sort();
        let text = concat("Sorted by ", self.index.sort_order().label());
        self.set_status(text.as_str(), MessageLevel::Info);
    }

    /// The text to put on the clipboard when the path of the selected
    /// worktree is asked for.
    pub fn copy_path_to_clipboard(&self) -> (r: Option<String>)
        ensures
            r.deep_view() == selected_path(self@),
    {
        match self.index.selected_worktree() {
            Some(w) => Some(w.path.clone()),
            None => None,
        }
    }

    /// The path `path` was handed to the clipboard, which took it or did not.
    pub fn path_copied(&mut self, path: &str, copied: bool)
        ensures
            final(self)@ == after_path_copy(old(self)@, path@, copied),
    {
        if !copied {
            self.set_status("Failed to copy to clipboard", MessageLevel::Error);
        }
        let text = concat("Copied: ", path);
        self.set_status(text.as_str(), MessageLevel::Success);
    }

    /// The text of the error dialog was handed to the clipboard, which took
    /// it or did not. The dialog is closed either way.
    pub fn error_copied(&mut self, copied: bool)
        ensures
            final(self)@ == after_error_copy(old(self)@, copied),
    {
        if !copied {
            self.set_status("Failed to copy to clipboard", MessageLevel::Error);
        }
        self.mode = AppMode::Normal;
        self.error_message = String::new();
        self.set_status("Error copied to clipboard", MessageLevel::Success);
    }

    /// The path to show in the file manager: that of the selected worktree.
    pub fn open_in_file_manager(&self) -> (r: Option<String>)
        ensures
            r.deep_view() == selected_path(self@),
    {
        match self.index.selected_worktree() {
            Some(w) => Some(w.path.clone()),
            None => None,
        }
    }

    /// The file manager was asked to open, and did or did not.
    pub fn file_manager_opened(&mut self, opened: bool)
        ensures
            final(self)@ == (if opened {
                with_status(old(self)@, "Opened in file manager"@, MessageLevel::Success)
            } else {
                with_status(old(self)@, "Failed to open file manager"@, MessageLevel::Error)
            }),
    {
        if opened {
            self.set_status("Opened in file manager", MessageLevel::Success);
        } else {
            self.set_status("Failed to open file manager", MessageLevel::Error);
        }
    }

    /// The record under the selection.
    pub fn selected_worktree(&self) -> (r: Option<&Worktree>)
        ensures
            r.deep_view() == selected_record(self@.index),
    {
        self.index.selected_worktree()
    }

    /// The envelope that holds the records as they are now, stamped with the
    /// system clock's time.
    pub fn cache_snapshot(&self) -> (r: WorktreeCache)
        ensures
            r@.repo_root == self@.repo_root,
            r@.worktrees == self@.index.worktrees,
    {
        let cached = worktrees_to_cache(self.index.worktrees());
        create_cache(self.repo_root.clone(), cached)
    }
}

/// The state after a background fetch has brought the records `ws`: the
/// collection replaced, the worktree that was waiting to be selected selected
/// if it is shown, the coordinator idle, and the arrival announced.
pub open spec fn refresh_applied(v: AppView, ws: Seq<WorktreeView>) -> AppView {
    with_status(
        AppView {
            index: match v.pending_selection {
                Some(path) => path_selected(replaced(v.index, ws), path),
                None => replaced(v.index, ws),
            },
            pending_selection: None,
            loading_state: LoadingState::Idle,
            fetch_outstanding: false,
            ..v
        },
        "Refreshed from background"@,
        MessageLevel::Success,
    )
}

/// The state after the user went on to the next sort order.
pub open spec fn sort_announced(v: AppView) -> AppView {
    with_status(
        AppView { index: sort_cycled(v.index), ..v },
        "Sorted by "@ + sort_cycled(v.index).sort_order.label_text(),
        MessageLevel::Info,
    )
}

/// The path of the selected worktree.
pub open spec fn selected_path(v: AppView) -> Option<Seq<char>> {
    match selected_record(v.index) {
        Some(w) => Some(w.path),
        None => None,
    }
}

/// The state after the path `path` was handed to the clipboard.
pub open spec fn after_path_copy(v: AppView, path: Seq<char>, copied: bool) -> AppView {
    with_status(
        if copied {
            v
        } else {
            with_status(v, "Failed to copy to clipboard"@, MessageLevel::Error)
        },
        "Copied: "@ + path,
        MessageLevel::Success,
    )
}

/// The state after the text of the error dialog was handed to the clipboard.
pub open spec fn after_error_copy(v: AppView, copied: bool) -> AppView {
    let tried = if copied {
        v
    } else {
        with_status(v, "Failed to copy to clipboard"@, MessageLevel::Error)
    };
    with_status(
        AppView { mode: AppMode::Normal, error_message: Seq::empty(), ..tried },
        "Error copied to clipboard"@,
        MessageLevel::Success,
    )
}

/// The state in which nothing has happened yet and nothing is shown.
pub open spec fn blank_view() -> AppView {
    AppView {
        index: IndexView {
            worktrees: Seq::empty(),
            sort_order: SortOrder::Recent,
            query: Seq::empty(),
            order: Seq::empty(),
            filtered: Seq::empty(),
            selected: None,
        },
        mode: AppMode::Normal,
        should_quit: false,
        cd_path: None,
        repo_root: Seq::empty(),
        repo_name: Seq::empty(),
        current_worktree_path: Seq::empty(),
        status_message: None,
        show_recent_commits: true,
        loading_state: LoadingState::Loading,
        fetch_outstanding: true,
        spinner_frame: 0,
        create_input: Seq::empty(),
        create_cursor: 0,
        available_branches: Seq::empty(),
        branch_selected: None,
        create_from_branch: None,
        create_checkout_existing: false,
        merge_source_idx: None,
        delete_confirm: false,
        error_message: Seq::empty(),
        search_cursor: 0,
        list_area: None,
        pending_selection: None,
        clock: 0,
    }
}

} // verus!
