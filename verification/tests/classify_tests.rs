use repo_view::status::{HeadObservation, RepoSnapshot, Status, UpstreamObservation};

fn branch_head() -> HeadObservation {
    HeadObservation::Branch { shorthand: Some(String::from("main")) }
}

#[test]
fn clean_in_sync_is_clean() {
    let snap = RepoSnapshot {
        head: branch_head(),
        upstream: UpstreamObservation::Counts { ahead: 0, behind: 0 },
        staged_changes: 0,
        worktree_changes: 0,
    };
    assert_eq!(Status::classify(&snap), Status::Clean);
}

#[test]
fn two_unpushed_commits_is_ahead_two() {
    let snap = RepoSnapshot {
        head: branch_head(),
        upstream: UpstreamObservation::Counts { ahead: 2, behind: 0 },
        staged_changes: 0,
        worktree_changes: 0,
    };
    assert_eq!(Status::classify(&snap), Status::Ahead(2));
}

#[test]
fn behind_upstream_is_behind() {
    let snap = RepoSnapshot {
        head: branch_head(),
        upstream: UpstreamObservation::Counts { ahead: 0, behind: 3 },
        staged_changes: 0,
        worktree_changes: 0,
    };
    assert_eq!(Status::classify(&snap), Status::Behind(3));
}

#[test]
fn diverged_keeps_both_counts() {
    let snap = RepoSnapshot {
        head: branch_head(),
        upstream: UpstreamObservation::Counts { ahead: 4, behind: 1 },
        staged_changes: 0,
        worktree_changes: 0,
    };
    assert_eq!(Status::classify(&snap), Status::Diverged(4, 1));
}

#[test]
fn dirty_worktree_wins_over_counts() {
    let snap = RepoSnapshot {
        head: branch_head(),
        upstream: UpstreamObservation::Counts { ahead: 2, behind: 0 },
        staged_changes: 0,
        worktree_changes: 1,
    };
    assert_eq!(Status::classify(&snap), Status::Dirty);
}

#[test]
fn staged_changes_alone_are_dirty() {
    let snap = RepoSnapshot {
        head: branch_head(),
        upstream: UpstreamObservation::Missing,
        staged_changes: 1,
        worktree_changes: 0,
    };
    assert_eq!(Status::classify(&snap), Status::Dirty);
}

#[test]
fn detached_head_is_detached() {
    let snap = RepoSnapshot {
        head: HeadObservation::Detached { shorthand: Some(String::from("HEAD")) },
        upstream: UpstreamObservation::Missing,
        staged_changes: 0,
        worktree_changes: 0,
    };
    assert_eq!(Status::classify(&snap), Status::Detached);
}

#[test]
fn missing_upstream_is_no_upstream() {
    let snap = RepoSnapshot {
        head: branch_head(),
        upstream: UpstreamObservation::Missing,
        staged_changes: 0,
        worktree_changes: 0,
    };
    assert_eq!(Status::classify(&snap), Status::NoUpstream);
}

#[test]
fn unborn_clean_is_clean_never_ahead_behind() {
    let snap = RepoSnapshot {
        head: HeadObservation::Unborn,
        upstream: UpstreamObservation::Counts { ahead: 5, behind: 5 },
        staged_changes: 0,
        worktree_changes: 0,
    };
    let status = Status::classify(&snap);
    assert_eq!(status, Status::Clean);
    assert!(!matches!(status, Status::Ahead(_)));
    assert!(!matches!(status, Status::Behind(_)));
    assert!(!matches!(status, Status::Diverged(_, _)));
}

#[test]
fn unborn_dirty_is_dirty() {
    let snap = RepoSnapshot {
        head: HeadObservation::Unborn,
        upstream: UpstreamObservation::Missing,
        staged_changes: 1,
        worktree_changes: 0,
    };
    assert_eq!(Status::classify(&snap), Status::Dirty);
}

#[test]
fn unborn_head_gets_head_sentinel_branch() {
    let label = HeadObservation::Unborn.branch_label().unwrap();
    assert_eq!(label, String::from("HEAD"));
}

#[test]
fn non_text_shorthand_is_branch_error() {
    let head = HeadObservation::Branch { shorthand: None };
    assert!(head.branch_label().is_err());
}
