use wtt::fetch::{
    collect_worktrees, commit_entry, create_worktree_info, detail_targets, merge_details,
    recent_history, summarize_status, time_ago, ChangeKind, DetailOutcome, DetailReport,
    Divergence, FetchContext, HeadCommit, LinkedWorktree, RawCommit, StatusReading,
    WorktreeIdentity, WorktreeOrigin, RECENT_COMMITS, SHORT_ID_LEN,
};
use wtt::model::{CommitInfo, Worktree, WorktreeStatus};

const ID: &str = "0123456789abcdef0123456789abcdef01234567";

fn identity(path: &str, branch: Option<&str>) -> WorktreeIdentity {
    WorktreeIdentity {
        path: path.to_string(),
        branch: branch.map(|b| b.to_string()),
        commit: ID.to_string(),
        is_detached: branch.is_none(),
        exists_on_disk: true,
    }
}

fn linked(path: &str, branch: Option<&str>) -> LinkedWorktree {
    LinkedWorktree { identity: identity(path, branch), lock_reason: None }
}

fn context(current: &str) -> FetchContext {
    FetchContext { repo_is_bare: false, current_path: current.to_string() }
}

fn five() -> Vec<Worktree> {
    collect_worktrees(
        identity("/repo", Some("main")),
        vec![
            linked("/wt/a", Some("a")),
            linked("/wt/b", Some("b")),
            linked("/wt/c", Some("c")),
            linked("/wt/d", Some("d")),
        ],
        &context("/elsewhere"),
    )
}

fn report(now: i64) -> DetailReport {
    DetailReport {
        status: Some(StatusReading {
            changes: vec![ChangeKind::Modified, ChangeKind::Untracked, ChangeKind::Modified],
            upstream: Some(Divergence { ahead: 2, behind: 1 }),
        }),
        head: Some(HeadCommit { summary: String::from("Fix the bug"), time: 1_000 }),
        history: Some(vec![
            RawCommit { id: ID.to_string(), summary: String::from("Fix the bug"), time: 1_000 },
            RawCommit { id: String::from("fedcba9876543210"), summary: String::from("Start"), time: 400 },
        ]),
        now,
    }
}

fn fetched(now: i64) -> Option<DetailOutcome> {
    Some(DetailOutcome::Fetched(report(now)))
}

#[test]
fn the_record_of_the_main_worktree() {
    let record = create_worktree_info(
        WorktreeOrigin::Main(identity("/repo", Some("main"))),
        &context("/repo/src"),
    );
    assert_eq!(
        record,
        Worktree {
            path: String::from("/repo"),
            branch: Some(String::from("main")),
            commit: ID.to_string(),
            commit_short: String::from("0123456"),
            commit_message: String::new(),
            commit_time: None,
            is_main: true,
            is_current: true,
            is_bare: false,
            is_detached: false,
            is_locked: false,
            lock_reason: None,
            is_prunable: false,
            status: WorktreeStatus::default(),
            recent_commits: Vec::new(),
        }
    );
}

#[test]
fn the_record_of_a_locked_linked_worktree_that_is_gone() {
    let mut id = identity("/wt/gone", None);
    id.exists_on_disk = false;
    id.commit = String::from("abc");
    let record = create_worktree_info(
        WorktreeOrigin::Linked(LinkedWorktree { identity: id, lock_reason: Some(String::from("usb stick")) }),
        &FetchContext { repo_is_bare: true, current_path: String::from("/repo") },
    );
    assert!(!record.is_main);
    assert!(!record.is_bare);
    assert!(record.is_locked);
    assert_eq!(record.lock_reason.as_deref(), Some("usb stick"));
    assert!(record.is_prunable);
    assert!(record.is_detached);
    assert!(!record.is_current);
    assert_eq!(record.commit_short, "abc");
    assert_eq!(record.branch, None);
}

#[test]
fn only_the_main_worktree_of_a_bare_repository_is_bare() {
    let records = collect_worktrees(
        identity("/repo.git", None),
        vec![linked("/wt/a", Some("a"))],
        &FetchContext { repo_is_bare: true, current_path: String::from("/wt/a") },
    );
    assert!(records[0].is_bare);
    assert!(!records[1].is_bare);
    assert_eq!(detail_targets(&records), vec![1]);
}

#[test]
fn exactly_one_record_is_main_and_it_comes_first() {
    let records = five();
    assert_eq!(records.len(), 5);
    assert_eq!(records.iter().filter(|w| w.is_main).count(), 1);
    assert!(records[0].is_main);
    let alone = collect_worktrees(identity("/repo", None), Vec::new(), &context("/"));
    assert_eq!(alone.len(), 1);
    assert!(alone[0].is_main);
}

#[test]
fn a_linked_worktree_whose_path_is_taken_is_left_out() {
    let records = collect_worktrees(
        identity("/repo", Some("main")),
        vec![
            linked("/wt/a", Some("a")),
            linked("/repo", Some("shadow")),
            linked("/wt/a", Some("again")),
            linked("/wt/b", Some("b")),
        ],
        &context("/"),
    );
    let paths: Vec<&str> = records.iter().map(|w| w.path.as_str()).collect();
    assert_eq!(paths, vec!["/repo", "/wt/a", "/wt/b"]);
    assert_eq!(records[1].branch.as_deref(), Some("a"));
    assert_eq!(records.iter().filter(|w| w.is_main).count(), 1);
}

#[test]
fn details_are_read_for_worktrees_that_are_there_and_not_bare() {
    let mut gone = linked("/wt/gone", Some("gone"));
    gone.identity.exists_on_disk = false;
    let records = collect_worktrees(
        identity("/repo", Some("main")),
        vec![linked("/wt/a", Some("a")), gone, linked("/wt/b", Some("b"))],
        &context("/"),
    );
    assert_eq!(detail_targets(&records), vec![0, 1, 3]);
    assert_eq!(detail_targets(&Vec::new()), Vec::<usize>::new());
}

#[test]
fn status_counts_every_change_once_under_its_kind() {
    let reading = StatusReading {
        changes: vec![
            ChangeKind::Modified,
            ChangeKind::Untracked,
            ChangeKind::Staged,
            ChangeKind::Modified,
            ChangeKind::Untracked,
            ChangeKind::Modified,
        ],
        upstream: Some(Divergence { ahead: 7, behind: 8 }),
    };
    assert_eq!(
        summarize_status(&reading),
        WorktreeStatus { modified: 3, staged: 1, untracked: 2, ahead: 7, behind: 8 }
    );
}

#[test]
fn without_upstream_ahead_and_behind_are_zero() {
    let reading = StatusReading { changes: vec![ChangeKind::Staged], upstream: None };
    assert_eq!(
        summarize_status(&reading),
        WorktreeStatus { modified: 0, staged: 1, untracked: 0, ahead: 0, behind: 0 }
    );
    let nothing = StatusReading { changes: Vec::new(), upstream: None };
    assert_eq!(summarize_status(&nothing), WorktreeStatus::default());
}

#[test]
fn ages_are_given_in_the_coarsest_unit_that_fits() {
    assert_eq!(time_ago(1_000, 1_000), "0s ago");
    assert_eq!(time_ago(1_059, 1_000), "59s ago");
    assert_eq!(time_ago(1_060, 1_000), "1m ago");
    assert_eq!(time_ago(4_599, 1_000), "59m ago");
    assert_eq!(time_ago(4_600, 1_000), "1h ago");
    assert_eq!(time_ago(87_399, 1_000), "23h ago");
    assert_eq!(time_ago(87_400, 1_000), "1d ago");
    assert_eq!(time_ago(1_000 + 86_400 * 400, 1_000), "400d ago");
}

#[test]
fn a_commit_from_the_future_has_a_negative_age_in_seconds() {
    assert_eq!(time_ago(1_000, 1_005), "-5s ago");
    assert_eq!(time_ago(0, 1_000_000), "-1000000s ago");
}

#[test]
fn ages_stay_within_the_range_of_the_clock() {
    assert_eq!(time_ago(i64::MAX, i64::MIN), "106751991167300d ago");
    assert_eq!(time_ago(i64::MIN, i64::MAX), "-9223372036854775808s ago");
    assert_eq!(time_ago(i64::MAX, -1), "106751991167300d ago");
}

#[test]
fn a_history_entry_shortens_the_id_and_keeps_the_summary() {
    let commit = RawCommit { id: ID.to_string(), summary: String::from("Fix the bug"), time: 940 };
    assert_eq!(
        commit_entry(&commit, 1_000),
        CommitInfo {
            hash: String::from("0123456"),
            message: String::from("Fix the bug"),
            time_ago: String::from("1m ago"),
        }
    );
    assert_eq!(SHORT_ID_LEN, 7);
}

#[test]
fn the_history_stops_after_ten_commits() {
    let commits: Vec<RawCommit> = (0..25)
        .map(|i| RawCommit { id: format!("{:040x}", i), summary: format!("commit {}", i), time: 1_000 - i })
        .collect();
    let history = recent_history(&commits, 1_000);
    assert_eq!(history.len(), 10);
    assert_eq!(RECENT_COMMITS, 10);
    assert_eq!(history[0].message, "commit 0");
    assert_eq!(history[9].message, "commit 9");
    assert_eq!(history[9].time_ago, "9s ago");
    assert_eq!(recent_history(&commits[..3].iter().map(|c| RawCommit { id: c.id.clone(), summary: c.summary.clone(), time: c.time }).collect(), 1_000).len(), 3);
    assert!(recent_history(&Vec::new(), 1_000).is_empty());
}

#[test]
fn fetched_details_fill_the_record() {
    let merged = merge_details(five(), &vec![fetched(1_090)]);
    assert_eq!(merged.len(), 5);
    let w = &merged[0];
    assert_eq!(w.status, WorktreeStatus { modified: 2, staged: 0, untracked: 1, ahead: 2, behind: 1 });
    assert_eq!(w.commit_message, "Fix the bug");
    assert_eq!(w.commit_time, Some(1_000));
    assert_eq!(
        w.recent_commits,
        vec![
            CommitInfo { hash: String::from("0123456"), message: String::from("Fix the bug"), time_ago: String::from("1m ago") },
            CommitInfo { hash: String::from("fedcba9"), message: String::from("Start"), time_ago: String::from("11m ago") },
        ]
    );
    assert_eq!(merged[1], five()[1]);
}

#[test]
fn one_failed_unit_leaves_four_records_with_their_details() {
    let slots = vec![fetched(2_000), fetched(2_000), Some(DetailOutcome::Failed), fetched(2_000), fetched(2_000)];
    let merged = merge_details(five(), &slots);
    assert_eq!(merged.len(), 5);
    for i in [0usize, 1, 3, 4] {
        assert_eq!(merged[i].commit_message, "Fix the bug", "record {}", i);
        assert_eq!(merged[i].commit_time, Some(1_000));
        assert_eq!(merged[i].status.modified, 2);
        assert_eq!(merged[i].recent_commits.len(), 2);
    }
    assert_eq!(merged[2], five()[2]);
    assert_eq!(merged[2].status, WorktreeStatus::default());
    assert_eq!(merged[2].commit_message, "");
    assert_eq!(merged[2].commit_time, None);
    assert!(merged[2].recent_commits.is_empty());
    assert_eq!(merged[2].path, "/wt/b");
    let all_good = merge_details(five(), &vec![fetched(2_000), fetched(2_000), fetched(2_000), fetched(2_000), fetched(2_000)]);
    for i in [0usize, 1, 3, 4] {
        assert_eq!(merged[i], all_good[i]);
    }
}

#[test]
fn each_query_of_a_unit_may_fail_by_itself() {
    let partial = DetailReport { status: None, head: Some(HeadCommit { summary: String::from("s"), time: 5 }), history: None, now: 10 };
    let merged = merge_details(five(), &vec![Some(DetailOutcome::Fetched(partial))]);
    assert_eq!(merged[0].status, WorktreeStatus::default());
    assert_eq!(merged[0].commit_message, "s");
    assert_eq!(merged[0].commit_time, Some(5));
    assert!(merged[0].recent_commits.is_empty());
    let unborn = DetailReport { status: Some(StatusReading { changes: vec![ChangeKind::Untracked], upstream: None }), head: None, history: Some(Vec::new()), now: 10 };
    let merged = merge_details(five(), &vec![None, Some(DetailOutcome::Fetched(unborn))]);
    assert_eq!(merged[1].status.untracked, 1);
    assert_eq!(merged[1].commit_message, "");
    assert_eq!(merged[1].commit_time, None);
}

#[test]
fn a_failed_unit_empties_details_that_were_there() {
    let once = merge_details(five(), &vec![fetched(2_000)]);
    assert_eq!(once[0].commit_message, "Fix the bug");
    let twice = merge_details(once, &vec![Some(DetailOutcome::Failed)]);
    assert_eq!(twice[0], five()[0]);
}

#[test]
fn bare_and_missing_worktrees_never_get_details() {
    let mut gone = linked("/wt/gone", Some("gone"));
    gone.identity.exists_on_disk = false;
    let records = collect_worktrees(
        identity("/repo.git", None),
        vec![gone],
        &FetchContext { repo_is_bare: true, current_path: String::from("/") },
    );
    let merged = merge_details(records, &vec![fetched(2_000), fetched(2_000)]);
    assert_eq!(merged[0].status, WorktreeStatus::default());
    assert!(merged[0].recent_commits.is_empty());
    assert_eq!(merged[0].commit_time, None);
    assert_eq!(merged[1].commit_message, "");
    assert!(merged[1].recent_commits.is_empty());
}

#[test]
fn missing_and_surplus_slots_do_no_harm() {
    let none: Vec<Option<DetailOutcome>> = Vec::new();
    assert_eq!(merge_details(five(), &none), five());
    let many: Vec<Option<DetailOutcome>> = (0..9).map(|_| None).collect();
    assert_eq!(merge_details(five(), &many), five());
    assert!(merge_details(Vec::new(), &vec![fetched(1)]).is_empty());
}

#[test]
fn fetching_twice_gives_the_same_records_but_for_the_ages() {
    let first = merge_details(five(), &vec![fetched(1_030), fetched(1_030)]);
    let second = merge_details(five(), &vec![fetched(90_000), fetched(90_000)]);
    for (a, b) in first.iter().zip(second.iter()) {
        assert_eq!(a.path, b.path);
        assert_eq!(a.branch, b.branch);
        assert_eq!(a.commit, b.commit);
        assert_eq!(a.commit_short, b.commit_short);
        assert_eq!(a.commit_message, b.commit_message);
        assert_eq!(a.commit_time, b.commit_time);
        assert_eq!(a.status, b.status);
        assert_eq!((a.is_main, a.is_current, a.is_bare, a.is_detached, a.is_locked, a.is_prunable),
                   (b.is_main, b.is_current, b.is_bare, b.is_detached, b.is_locked, b.is_prunable));
        assert_eq!(a.recent_commits.len(), b.recent_commits.len());
        for (x, y) in a.recent_commits.iter().zip(b.recent_commits.iter()) {
            assert_eq!(x.hash, y.hash);
            assert_eq!(x.message, y.message);
        }
    }
    assert_eq!(first[0].recent_commits[0].time_ago, "30s ago");
    assert_eq!(second[0].recent_commits[0].time_ago, "1d ago");
    let same = merge_details(five(), &vec![fetched(1_030), fetched(1_030)]);
    assert_eq!(first, same);
}
