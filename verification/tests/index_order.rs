use wtt::fetch::{
    collect_worktrees, merge_details, ChangeKind, DetailOutcome, DetailReport, Divergence,
    FetchContext, HeadCommit, LinkedWorktree, StatusReading, WorktreeIdentity,
};
use wtt::index::ViewIndex;
use wtt::model::{SortOrder, Worktree};
use wtt::ordering::{sort_positions, sorted_indices, OrderKey};
use wtt::search::passes_lowered;

fn identity(path: &str, branch: Option<&str>) -> WorktreeIdentity {
    WorktreeIdentity {
        path: path.to_string(),
        branch: branch.map(|b| b.to_string()),
        commit: String::from("0123456789abcdef0123456789abcdef01234567"),
        is_detached: branch.is_none(),
        exists_on_disk: true,
    }
}

fn linked(path: &str, branch: Option<&str>) -> LinkedWorktree {
    LinkedWorktree { identity: identity(path, branch), lock_reason: None }
}

fn context() -> FetchContext {
    FetchContext { repo_is_bare: false, current_path: String::from("/repo/wt/feature-x/src") }
}

fn report(time: Option<i64>, changes: Vec<ChangeKind>, summary: &str) -> Option<DetailOutcome> {
    Some(DetailOutcome::Fetched(DetailReport {
        status: Some(StatusReading { changes, upstream: None }),
        head: time.map(|time| HeadCommit { summary: summary.to_string(), time }),
        history: Some(Vec::new()),
        now: 2_000,
    }))
}

fn sample() -> Vec<Worktree> {
    let records = collect_worktrees(
        identity("/repo", Some("main")),
        vec![
            linked("/repo/wt/feature-x", Some("feature-x")),
            linked("/repo/wt/bugfix-y", Some("bugfix-y")),
            linked("/repo/wt/alpha", Some("alpha")),
        ],
        &context(),
    );
    let slots = vec![
        report(Some(100), vec![], "Release"),
        report(Some(300), vec![], "Add x"),
        report(Some(200), vec![ChangeKind::Modified], "Mend y"),
        report(Some(400), vec![], "First of alpha"),
    ];
    merge_details(records, &slots)
}

fn branches(index: &ViewIndex) -> Vec<String> {
    index
        .filtered_indices()
        .iter()
        .map(|&i| index.worktrees()[i].branch_label().to_string())
        .collect()
}

#[test]
fn main_worktree_is_first_in_every_order() {
    for order in [SortOrder::Name, SortOrder::Status, SortOrder::Recent] {
        let index = ViewIndex::new(sample(), order);
        let first = index.filtered_indices()[0];
        assert!(index.worktrees()[first].is_main, "{:?}", order);
        assert!(index.main_worktree().unwrap().is_main);
    }
}

#[test]
fn main_is_first_even_where_every_other_key_is_lower() {
    let records = collect_worktrees(
        identity("/repo", Some("zzz")),
        vec![linked("/wt/a", Some("aaa")), linked("/wt/b", Some("bbb"))],
        &context(),
    );
    let records = merge_details(
        records,
        &vec![report(Some(1), vec![], ""), report(Some(50), vec![ChangeKind::Staged], ""), report(Some(90), vec![], "")],
    );
    assert_eq!(sorted_indices(&records, SortOrder::Name), vec![0, 1, 2]);
    assert_eq!(sorted_indices(&records, SortOrder::Status), vec![0, 1, 2]);
    assert_eq!(sorted_indices(&records, SortOrder::Recent), vec![0, 2, 1]);
}

#[test]
fn name_order_is_alphabetical_behind_main() {
    let index = ViewIndex::new(sample(), SortOrder::Name);
    assert_eq!(branches(&index), vec!["main", "alpha", "bugfix-y", "feature-x"]);
    assert_eq!(index.order(), &vec![0usize, 3, 2, 1]);
}

#[test]
fn status_order_puts_changed_worktrees_first() {
    let index = ViewIndex::new(sample(), SortOrder::Status);
    assert_eq!(branches(&index), vec!["main", "bugfix-y", "alpha", "feature-x"]);
}

#[test]
fn recent_order_is_newest_first() {
    let index = ViewIndex::new(sample(), SortOrder::Recent);
    assert_eq!(branches(&index), vec!["main", "alpha", "feature-x", "bugfix-y"]);
}

#[test]
fn a_worktree_without_commit_time_is_the_least_recent() {
    let records = collect_worktrees(
        identity("/repo", Some("main")),
        vec![linked("/wt/a", Some("a")), linked("/wt/b", Some("b")), linked("/wt/c", Some("c"))],
        &context(),
    );
    let records = merge_details(
        records,
        &vec![None, report(None, vec![], ""), report(Some(-5), vec![], ""), report(Some(7), vec![], "")],
    );
    assert_eq!(sorted_indices(&records, SortOrder::Recent), vec![0, 3, 2, 1]);
}

#[test]
fn records_of_equal_rank_keep_the_order_in_which_they_came() {
    let records = collect_worktrees(
        identity("/repo", Some("main")),
        vec![linked("/wt/a", Some("a")), linked("/wt/b", Some("b")), linked("/wt/c", Some("c"))],
        &context(),
    );
    assert_eq!(sorted_indices(&records, SortOrder::Recent), vec![0, 1, 2, 3]);
}

#[test]
fn worktrees_without_branch_sort_by_their_placeholder() {
    let mut detached = linked("/wt/d", None);
    detached.identity.is_detached = true;
    let mut unnamed = linked("/wt/u", None);
    unnamed.identity.is_detached = false;
    let records = collect_worktrees(
        identity("/repo", Some("main")),
        vec![linked("/wt/z", Some("zeta")), detached, linked("/wt/x", Some("#hash")), unnamed],
        &context(),
    );
    let index = ViewIndex::new(records, SortOrder::Name);
    assert_eq!(branches(&index), vec!["main", "#hash", "(bare)", "(detached)", "zeta"]);
}

#[test]
fn keys_sort_by_group_then_rank_then_name() {
    let key = |group: u8, rank: i128, name: &str| OrderKey { group, rank, name: name.chars().collect() };
    let keys = vec![key(1, 0, "b"), key(0, 9, "z"), key(1, 0, "a"), key(1, -1, "c"), key(1, 0, "a")];
    assert_eq!(sort_positions(&keys), vec![1, 3, 2, 4, 0]);
    assert_eq!(sort_positions(&Vec::new()), Vec::<usize>::new());
}

#[test]
fn the_collection_itself_is_not_reordered() {
    let index = ViewIndex::new(sample(), SortOrder::Name);
    let paths: Vec<&str> = index.worktrees().iter().map(|w| w.path.as_str()).collect();
    assert_eq!(paths, vec!["/repo", "/repo/wt/feature-x", "/repo/wt/bugfix-y", "/repo/wt/alpha"]);
    assert_eq!(index.len(), 4);
    assert!(!index.is_empty());
}

#[test]
fn an_empty_index_shows_and_selects_nothing() {
    let mut index = ViewIndex::new(Vec::new(), SortOrder::Recent);
    assert!(index.is_empty());
    assert_eq!(index.selected(), None);
    assert!(index.selected_worktree().is_none());
    assert!(index.main_worktree().is_none());
    index.move_selection(3);
    index.select_first();
    index.select_last();
    index.cycle_sort();
    index.set_query(String::from("x"));
    assert_eq!(index.selected(), None);
    assert!(index.filtered_indices().is_empty());
}

#[test]
fn search_filter_keeps_matching_records() {
    let mut index = ViewIndex::new(sample(), SortOrder::Name);
    index.set_query(String::from("fix"));
    assert_eq!(branches(&index), vec!["bugfix-y"]);
    assert_eq!(index.filtered_indices(), &vec![2usize]);
    assert_eq!(index.query(), "fix");
    index.set_query(String::new());
    assert_eq!(branches(&index), vec!["main", "alpha", "bugfix-y", "feature-x"]);
}

#[test]
fn clearing_the_query_restores_the_order_under_every_sort_order() {
    for order in [SortOrder::Name, SortOrder::Status, SortOrder::Recent] {
        let mut index = ViewIndex::new(sample(), order);
        let before = branches(&index);
        index.set_query(String::from("fix"));
        assert_eq!(branches(&index), vec!["bugfix-y"]);
        index.clear_query();
        assert_eq!(branches(&index), before);
        assert_eq!(index.filtered_indices(), index.order());
    }
}

#[test]
fn search_ignores_case() {
    let mut index = ViewIndex::new(sample(), SortOrder::Name);
    index.set_query(String::from("FEATURE"));
    assert_eq!(branches(&index), vec!["feature-x"]);
    index.set_query(String::from("ALPHA"));
    assert_eq!(branches(&index), vec!["alpha"]);
}

#[test]
fn search_looks_at_path_branch_and_commit_summary() {
    let mut index = ViewIndex::new(sample(), SortOrder::Name);
    index.set_query(String::from("/repo/wt"));
    assert_eq!(branches(&index), vec!["alpha", "bugfix-y", "feature-x"]);
    index.set_query(String::from("release"));
    assert_eq!(branches(&index), vec!["main"]);
    index.set_query(String::from("mend"));
    assert_eq!(branches(&index), vec!["bugfix-y"]);
    index.set_query(String::from("nothing like it"));
    assert!(branches(&index).is_empty());
}

#[test]
fn a_selected_record_that_the_query_hides_gives_way_to_the_first_entry() {
    let mut index = ViewIndex::new(sample(), SortOrder::Name);
    index.select_last();
    assert_eq!(index.selected_worktree().unwrap().branch.as_deref(), Some("feature-x"));
    index.set_query(String::from("fix"));
    assert_eq!(branches(&index), vec!["bugfix-y"]);
    assert_eq!(index.selected(), Some(0));
    index.set_query(String::from("none of them"));
    assert_eq!(index.selected(), None);
    index.set_query(String::new());
    assert_eq!(index.selected(), Some(0));
    assert_eq!(index.selected_worktree().unwrap().branch.as_deref(), Some("main"));
}

#[test]
fn a_selected_record_that_passes_the_query_stays_selected() {
    let mut index = ViewIndex::new(sample(), SortOrder::Name);
    index.select_position(3);
    assert_eq!(index.selected_worktree().unwrap().branch.as_deref(), Some("feature-x"));
    index.set_query(String::from("a"));
    assert_eq!(branches(&index), vec!["main", "alpha", "feature-x"]);
    assert_eq!(index.selected(), Some(2));
    assert_eq!(index.selected_worktree().unwrap().branch.as_deref(), Some("feature-x"));
    index.set_query(String::from("x"));
    assert_eq!(branches(&index), vec!["bugfix-y", "feature-x"]);
    assert_eq!(index.selected(), Some(1));
    index.clear_query();
    assert_eq!(index.selected(), Some(3));
    assert_eq!(index.selected_worktree().unwrap().branch.as_deref(), Some("feature-x"));
}

#[test]
fn the_selection_does_not_pass_to_the_record_that_takes_its_place() {
    let records = collect_worktrees(
        identity("/k/m", Some("main")),
        vec![
            linked("/w/a", Some("feature-x")),
            linked("/k/b", Some("bugfix-y")),
            linked("/k/z", Some("zed")),
        ],
        &context(),
    );
    let mut index = ViewIndex::new(records, SortOrder::Recent);
    assert_eq!(index.filtered_indices(), &vec![0usize, 1, 2, 3]);
    index.select_position(1);
    assert_eq!(index.selected_worktree().unwrap().branch.as_deref(), Some("feature-x"));
    index.set_query(String::from("/k/"));
    assert_eq!(index.filtered_indices(), &vec![0usize, 2, 3]);
    assert_eq!(index.selected(), Some(0));
    assert_eq!(index.selected_worktree().unwrap().branch.as_deref(), Some("main"));
}

#[test]
fn the_selection_moves_within_the_list_and_stops_at_its_ends() {
    let mut index = ViewIndex::new(sample(), SortOrder::Name);
    assert_eq!(index.selected(), Some(0));
    index.move_selection(1);
    assert_eq!(index.selected(), Some(1));
    index.move_selection(5);
    assert_eq!(index.selected(), Some(3));
    index.move_selection(-1);
    assert_eq!(index.selected(), Some(2));
    index.move_selection(-10);
    assert_eq!(index.selected(), Some(0));
    index.move_selection(i32::MAX);
    assert_eq!(index.selected(), Some(3));
    index.move_selection(i32::MIN);
    assert_eq!(index.selected(), Some(0));
    index.move_selection(0);
    assert_eq!(index.selected(), Some(0));
    index.select_last();
    assert_eq!(index.selected(), Some(3));
    index.select_first();
    assert_eq!(index.selected(), Some(0));
    index.select_position(2);
    assert_eq!(index.selected(), Some(2));
    index.select_position(4);
    assert_eq!(index.selected(), Some(2));
}

#[test]
fn cycling_the_sort_order_keeps_the_selected_record() {
    let mut index = ViewIndex::new(sample(), SortOrder::Name);
    index.select_position(3);
    assert_eq!(index.selected_worktree().unwrap().branch.as_deref(), Some("feature-x"));
    index.cycle_sort();
    assert_eq!(index.sort_order(), SortOrder::Status);
    assert_eq!(index.selected_worktree().unwrap().branch.as_deref(), Some("feature-x"));
    index.cycle_sort();
    assert_eq!(index.sort_order(), SortOrder::Recent);
    assert_eq!(branches(&index), vec!["main", "alpha", "feature-x", "bugfix-y"]);
    assert_eq!(index.selected(), Some(2));
    index.cycle_sort();
    assert_eq!(index.sort_order(), SortOrder::Name);
    assert_eq!(index.selected(), Some(3));
}

#[test]
fn cycling_the_sort_order_keeps_a_record_without_branch_and_the_filter() {
    let mut loose = linked("/repo/wt/loose", None);
    loose.identity.is_detached = true;
    let records = collect_worktrees(
        identity("/repo", Some("main")),
        vec![linked("/repo/wt/zulu", Some("zulu")), loose, linked("/repo/wt/alpha", Some("alpha"))],
        &context(),
    );
    let records = merge_details(
        records,
        &vec![None, report(Some(5), vec![], ""), report(Some(9), vec![], ""), report(Some(7), vec![], "")],
    );
    let mut index = ViewIndex::new(records, SortOrder::Recent);
    index.set_query(String::from("wt"));
    assert_eq!(branches(&index), vec!["(detached)", "alpha", "zulu"]);
    index.select_position(0);
    index.cycle_sort();
    assert_eq!(branches(&index), vec!["(detached)", "alpha", "zulu"]);
    assert_eq!(index.selected_worktree().unwrap().path, "/repo/wt/loose");
    index.cycle_sort();
    index.cycle_sort();
    assert_eq!(index.selected_worktree().unwrap().path, "/repo/wt/loose");
    assert_eq!(index.query(), "wt");
}

#[test]
fn a_worktree_that_is_only_ahead_counts_as_dirty_in_the_status_order() {
    let records = collect_worktrees(
        identity("/repo", Some("main")),
        vec![linked("/wt/a", Some("a")), linked("/wt/b", Some("b")), linked("/wt/c", Some("c"))],
        &context(),
    );
    let ahead = Some(DetailOutcome::Fetched(DetailReport {
        status: Some(StatusReading { changes: vec![], upstream: Some(Divergence { ahead: 1, behind: 0 }) }),
        head: None,
        history: None,
        now: 0,
    }));
    let behind = Some(DetailOutcome::Fetched(DetailReport {
        status: Some(StatusReading { changes: vec![], upstream: Some(Divergence { ahead: 0, behind: 2 }) }),
        head: None,
        history: None,
        now: 0,
    }));
    let records = merge_details(records, &vec![None, None, ahead, behind]);
    assert_eq!(sorted_indices(&records, SortOrder::Status), vec![0, 2, 3, 1]);
    assert_eq!(sorted_indices(&records, SortOrder::Name), vec![0, 1, 2, 3]);
}

#[test]
fn selecting_by_path_and_finding_by_branch() {
    let mut index = ViewIndex::new(sample(), SortOrder::Name);
    index.select_path("/repo/wt/bugfix-y");
    assert_eq!(index.selected(), Some(2));
    index.select_path("/nowhere");
    assert_eq!(index.selected(), Some(2));
    assert_eq!(index.first_on_branch("alpha"), Some(3));
    assert_eq!(index.first_on_branch("main"), Some(0));
    assert_eq!(index.first_on_branch("gone"), None);
    assert_eq!(index.shown_worktree(1).unwrap().path, "/repo/wt/alpha");
    assert!(index.shown_worktree(4).is_none());
}

#[test]
fn a_refresh_that_reorders_leaves_the_selected_branch_selected() {
    let mut index = ViewIndex::new(sample(), SortOrder::Recent);
    assert_eq!(branches(&index), vec!["main", "alpha", "feature-x", "bugfix-y"]);
    index.select_position(2);
    assert_eq!(index.selected_worktree().unwrap().branch.as_deref(), Some("feature-x"));
    let records = collect_worktrees(
        identity("/repo", Some("main")),
        vec![
            linked("/repo/wt/bugfix-y", Some("bugfix-y")),
            linked("/repo/wt/alpha", Some("alpha")),
            linked("/repo/wt/feature-x", Some("feature-x")),
        ],
        &context(),
    );
    let newer = merge_details(
        records,
        &vec![
            report(Some(100), vec![], ""),
            report(Some(900), vec![], ""),
            report(Some(400), vec![], ""),
            report(Some(300), vec![], ""),
        ],
    );
    index.replace(newer);
    assert_eq!(branches(&index), vec!["main", "bugfix-y", "alpha", "feature-x"]);
    assert_eq!(index.selected(), Some(3));
    assert_eq!(index.selected_worktree().unwrap().branch.as_deref(), Some("feature-x"));
    assert_eq!(index.sort_order(), SortOrder::Recent);
}

#[test]
fn a_refresh_follows_the_path_where_the_branch_is_gone() {
    let mut index = ViewIndex::new(sample(), SortOrder::Name);
    index.select_path("/repo/wt/feature-x");
    let records = collect_worktrees(
        identity("/repo", Some("main")),
        vec![linked("/repo/wt/zulu", Some("zulu")), linked("/repo/wt/feature-x", Some("renamed"))],
        &context(),
    );
    index.replace(records);
    assert_eq!(branches(&index), vec!["main", "renamed", "zulu"]);
    assert_eq!(index.selected_worktree().unwrap().path, "/repo/wt/feature-x");
}

#[test]
fn a_refresh_keeps_the_position_where_the_record_is_gone() {
    let mut index = ViewIndex::new(sample(), SortOrder::Name);
    index.select_position(1);
    let records = collect_worktrees(
        identity("/repo", Some("main")),
        vec![linked("/repo/wt/one", Some("one")), linked("/repo/wt/two", Some("two"))],
        &context(),
    );
    index.replace(records);
    assert_eq!(index.selected(), Some(1));
    index.select_last();
    index.replace(collect_worktrees(identity("/repo", Some("main")), Vec::new(), &context()));
    assert_eq!(index.selected(), Some(0));
    index.replace(Vec::new());
    assert_eq!(index.selected(), None);
    index.replace(sample());
    assert_eq!(index.selected(), Some(0));
}

#[test]
fn a_refresh_keeps_query_and_filters_anew() {
    let mut index = ViewIndex::new(sample(), SortOrder::Name);
    index.set_query(String::from("fix"));
    let records = collect_worktrees(
        identity("/repo", Some("main")),
        vec![linked("/repo/wt/hotfix", Some("hotfix")), linked("/repo/wt/bugfix-y", Some("bugfix-y"))],
        &context(),
    );
    index.replace(records);
    assert_eq!(index.query(), "fix");
    assert_eq!(branches(&index), vec!["bugfix-y", "hotfix"]);
}

#[test]
fn current_worktree_is_the_one_above_the_working_directory() {
    let records = sample();
    let current: Vec<bool> = records.iter().map(|w| w.is_current).collect();
    assert_eq!(current, vec![true, true, false, false]);
}

#[test]
fn a_query_is_matched_against_the_lowered_texts_it_is_given() {
    let branch = Some(String::from("bugfix-y"));
    assert!(passes_lowered("FIX", "fix", "/wt/y", &branch, "mend it"));
    assert!(passes_lowered("wt", "wt", "/wt/y", &None, ""));
    assert!(passes_lowered("mend", "mend", "/wt/y", &branch, "mend it"));
    assert!(!passes_lowered("FIX", "FIX", "/wt/y", &branch, "mend it"));
    assert!(!passes_lowered("fix", "fix", "/wt/y", &None, "mend it"));
    assert!(passes_lowered("", "never looked at", "/wt/y", &None, ""));
}
