use wtt::display::{
    truncate_measured, truncate_path_measured, head_age, is_at_main_commit, lock_note, needs_scrollbar, older_commits, row_icon, row_number,
    search_bar_text, spinner_glyph, truncate_path, truncate_str, RowIcon,
};
use wtt::model::{CommitInfo, Worktree, WorktreeStatus};

fn worktree(path: &str) -> Worktree {
    Worktree {
        path: path.to_string(),
        branch: None,
        commit: String::from("abc"),
        commit_short: String::from("abc"),
        commit_message: String::new(),
        commit_time: None,
        is_main: false,
        is_current: false,
        is_bare: false,
        is_detached: false,
        is_locked: false,
        lock_reason: None,
        is_prunable: false,
        status: WorktreeStatus::default(),
        recent_commits: Vec::new(),
    }
}

fn commits(n: usize) -> Vec<CommitInfo> {
    (0..n)
        .map(|i| CommitInfo { hash: format!("{:07}", i), message: format!("m{}", i), time_ago: format!("{}h ago", i) })
        .collect()
}

#[test]
fn a_text_that_fits_is_left_alone() {
    assert_eq!(truncate_str("feature-x", 9), "feature-x");
    assert_eq!(truncate_str("feature-x", 100), "feature-x");
    assert_eq!(truncate_str("", 0), "");
}

#[test]
fn a_text_that_does_not_fit_ends_in_an_ellipsis() {
    assert_eq!(truncate_str("feature-x", 8), "featu...");
    assert_eq!(truncate_str("feature-x", 4), "f...");
    assert_eq!(truncate_str("feature-x", 3), "...");
    assert_eq!(truncate_str("feature-x", 0), "...");
}

#[test]
fn wide_characters_take_two_columns() {
    assert_eq!(truncate_str("日本語のブランチ", 16), "日本語のブランチ");
    assert_eq!(truncate_str("日本語のブランチ", 9), "日本語...");
    assert_eq!(truncate_str("日本語のブランチ", 8), "日本...");
}

#[test]
fn a_path_that_fits_is_left_alone() {
    assert_eq!(truncate_path("/repo/wt/x", 10), "/repo/wt/x");
    assert_eq!(truncate_path("", 5), "");
}

#[test]
fn a_path_that_does_not_fit_keeps_its_end() {
    assert_eq!(truncate_path("/home/me/projects/repo", 12), ".../projects/repo"[..0].to_string() + "...ects/repo");
    assert_eq!(truncate_path("/home/me/projects/repo", 7), "...repo");
    assert_eq!(truncate_path("/home/me/projects/repo", 3), "...");
    assert_eq!(truncate_path("/home/me/projects/repo", 1), "...");
    assert_eq!(truncate_path("/データ/日本語", 7), "...本語");
}

#[test]
fn the_icon_tells_what_is_most_worth_knowing() {
    let mut w = worktree("/wt");
    assert_eq!(row_icon(&w), RowIcon::Linked);
    w.is_prunable = true;
    assert_eq!(row_icon(&w), RowIcon::Prunable);
    w.is_locked = true;
    assert_eq!(row_icon(&w), RowIcon::Locked);
    w.is_main = true;
    assert_eq!(row_icon(&w), RowIcon::Main);
    w.is_current = true;
    assert_eq!(row_icon(&w), RowIcon::Current);
}

#[test]
fn the_first_nine_rows_are_numbered() {
    assert_eq!(row_number(0), Some(1));
    assert_eq!(row_number(8), Some(9));
    assert_eq!(row_number(9), None);
    assert_eq!(row_number(usize::MAX), None);
}

#[test]
fn worktrees_at_the_commit_of_main_are_marked() {
    let mut main = worktree("/repo");
    main.is_main = true;
    main.commit = String::from("aaa");
    let mut same = worktree("/wt/a");
    same.commit = String::from("aaa");
    let other = worktree("/wt/b");
    assert!(is_at_main_commit(&main, Some(&main)));
    assert!(is_at_main_commit(&main, None));
    assert!(is_at_main_commit(&same, Some(&main)));
    assert!(!is_at_main_commit(&other, Some(&main)));
    assert!(!is_at_main_commit(&same, None));
}

#[test]
fn the_head_commit_has_the_age_of_the_newest_commit() {
    let mut w = worktree("/wt");
    assert_eq!(head_age(&w), "");
    w.recent_commits = commits(3);
    assert_eq!(head_age(&w), "0h ago");
}

#[test]
fn the_history_lists_up_to_eight_commits_behind_the_newest() {
    let mut w = worktree("/wt");
    assert!(older_commits(&w, true).is_empty());
    w.recent_commits = commits(1);
    assert!(older_commits(&w, true).is_empty());
    w.recent_commits = commits(3);
    assert_eq!(older_commits(&w, true), commits(3)[1..].to_vec());
    assert!(older_commits(&w, false).is_empty());
    w.recent_commits = commits(9);
    assert_eq!(older_commits(&w, true), commits(9)[1..].to_vec());
    w.recent_commits = commits(10);
    assert_eq!(older_commits(&w, true), commits(10)[1..9].to_vec());
}

#[test]
fn a_lock_without_reason_says_so() {
    let mut w = worktree("/wt");
    assert_eq!(lock_note(&w), "no reason provided");
    w.lock_reason = Some(String::from("portable disk"));
    assert_eq!(lock_note(&w), "portable disk");
}

#[test]
fn the_scrollbar_shows_where_the_entries_outnumber_the_rows() {
    assert!(!needs_scrollbar(6, 10));
    assert!(needs_scrollbar(7, 10));
    assert!(!needs_scrollbar(0, 4));
    assert!(needs_scrollbar(1, 4));
    assert!(needs_scrollbar(0, 3));
}

#[test]
fn the_search_bar_counts_the_matches() {
    assert_eq!(search_bar_text("fix", 1), "fix  (1 matches)");
    assert_eq!(search_bar_text("", 12), "  (12 matches)");
}

#[test]
fn the_spinner_goes_round() {
    let frames: Vec<char> = (0..10).map(spinner_glyph).collect();
    assert_eq!(frames, vec!['⠋', '⠙', '⠹', '⠸', '⠼', '⠴', '⠦', '⠧', '⠇', '⠏']);
    assert_eq!(spinner_glyph(10), '⠋');
    assert_eq!(spinner_glyph(23), '⠸');
}

#[test]
fn truncation_goes_by_the_widths_it_is_given() {
    let ones = vec![Some(1usize); 9];
    assert_eq!(truncate_measured("feature-x", 9, &ones, 9), "feature-x");
    assert_eq!(truncate_measured("feature-x", 9, &ones, 8), "featu...");
    assert_eq!(truncate_measured("feature-x", 18, &vec![Some(2usize); 9], 9), "fea...");
    assert_eq!(truncate_measured("feature-x", 18, &vec![Some(2usize); 9], 8), "fe...");
    let mixed = vec![Some(1usize), None, Some(3), None, Some(1)];
    assert_eq!(truncate_measured("abcde", 6, &mixed, 5), "ab...");
    assert_eq!(truncate_measured("abcde", 6, &mixed, 7), "abcde");
    assert_eq!(truncate_measured("abcde", 9, &Vec::new(), 3), "abcde");
    assert_eq!(truncate_measured("abcde", 9, &ones, 2), "...");
    assert_eq!(truncate_measured("abcde", 9, &vec![Some(usize::MAX); 5], 8), "...");
}

#[test]
fn path_truncation_goes_by_the_widths_it_is_given() {
    let ones = vec![Some(1usize); 10];
    assert_eq!(truncate_path_measured("/repo/wt/x", 10, &ones, 10), "/repo/wt/x");
    assert_eq!(truncate_path_measured("/repo/wt/x", 10, &ones, 7), "...wt/x");
    assert_eq!(truncate_path_measured("/repo/wt/x", 20, &vec![Some(2usize); 10], 7), ".../x");
    assert_eq!(truncate_path_measured("/repo/wt/x", 20, &ones, 3), "...");
    assert_eq!(truncate_path_measured("/repo/wt/x", 20, &Vec::new(), 3), ".../repo/wt/x");
    assert_eq!(truncate_path_measured("/repo/wt/x", 20, &vec![Some(usize::MAX); 10], 9), "...");
}
