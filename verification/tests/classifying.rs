use gitstatus::changes::{
    classify_worktree_entry, get_changes_summary, staged_pass_applies, Category, ChangesSummary,
    PassOutcome, StagedChange, UntrackedPolicy, WorktreeChange,
};
use gitstatus::branch::{BranchIdentity, UpstreamIdentity};
use gitstatus::status::GitStatus;

fn counts(staged: usize, renamed: usize, modified: usize, deleted: usize, untracked: usize) -> ChangesSummary {
    ChangesSummary { staged, modified, deleted, renamed, untracked }
}

fn every_worktree_change() -> Vec<Option<WorktreeChange>> {
    vec![
        Some(WorktreeChange::Added),
        Some(WorktreeChange::Removed),
        Some(WorktreeChange::Modified),
        Some(WorktreeChange::TypeChange),
        Some(WorktreeChange::Conflict),
        Some(WorktreeChange::Renamed),
        Some(WorktreeChange::Copied),
        Some(WorktreeChange::IntentToAdd),
        None,
    ]
}

#[test]
fn every_staged_kind_counts_as_staged() {
    let tree_index = PassOutcome::Completed(vec![
        StagedChange::Addition,
        StagedChange::Modification,
        StagedChange::Deletion,
        StagedChange::Rewrite,
    ]);
    let worktree = PassOutcome::Completed(vec![]);
    let summary = get_changes_summary(true, true, &tree_index, UntrackedPolicy::Exclude, &worktree);
    assert_eq!(summary, counts(4, 0, 0, 0, 0));
}

#[test]
fn worktree_entries_fall_under_one_category_each() {
    let tree_index = PassOutcome::Completed(vec![]);
    let worktree = PassOutcome::Completed(every_worktree_change());
    let summary = get_changes_summary(true, true, &tree_index, UntrackedPolicy::Enumerate, &worktree);
    assert_eq!(summary, counts(1, 2, 3, 1, 1));
    let collapsed = get_changes_summary(true, true, &tree_index, UntrackedPolicy::Collapse, &worktree);
    assert_eq!(collapsed, counts(1, 2, 3, 1, 1));
}

#[test]
fn excluded_unknown_files_are_not_counted() {
    let tree_index = PassOutcome::Completed(vec![]);
    let worktree = PassOutcome::Completed(every_worktree_change());
    let summary = get_changes_summary(true, true, &tree_index, UntrackedPolicy::Exclude, &worktree);
    assert_eq!(summary, counts(1, 2, 3, 1, 0));
    assert_eq!(classify_worktree_entry(UntrackedPolicy::Exclude, Some(WorktreeChange::Added)), None);
    assert_eq!(
        classify_worktree_entry(UntrackedPolicy::Collapse, Some(WorktreeChange::Added)),
        Some(Category::Untracked)
    );
}

#[test]
fn intent_to_add_is_staged_not_untracked() {
    for policy in [UntrackedPolicy::Exclude, UntrackedPolicy::Collapse, UntrackedPolicy::Enumerate] {
        assert_eq!(
            classify_worktree_entry(policy, Some(WorktreeChange::IntentToAdd)),
            Some(Category::Staged)
        );
    }
}

#[test]
fn unborn_branch_has_nothing_staged() {
    let tree_index = PassOutcome::Completed(vec![StagedChange::Addition, StagedChange::Deletion]);
    let worktree = PassOutcome::Completed(vec![Some(WorktreeChange::Modified), Some(WorktreeChange::Added)]);
    let summary = get_changes_summary(true, false, &tree_index, UntrackedPolicy::Enumerate, &worktree);
    assert_eq!(summary.staged, 0);
    assert_eq!(summary, counts(0, 0, 1, 0, 1));
    assert!(!staged_pass_applies(true, false));
    assert!(staged_pass_applies(true, true));
    assert!(!staged_pass_applies(false, true));
}

#[test]
fn unborn_branch_still_counts_intent_to_add() {
    let tree_index = PassOutcome::Completed(vec![StagedChange::Addition]);
    let worktree = PassOutcome::Completed(vec![Some(WorktreeChange::IntentToAdd)]);
    let summary = get_changes_summary(true, false, &tree_index, UntrackedPolicy::Exclude, &worktree);
    assert_eq!(summary, counts(1, 0, 0, 0, 0));
}

#[test]
fn staged_pass_can_be_switched_off() {
    let tree_index = PassOutcome::Completed(vec![StagedChange::Addition, StagedChange::Rewrite]);
    let worktree = PassOutcome::Completed(vec![Some(WorktreeChange::Removed)]);
    let summary = get_changes_summary(false, true, &tree_index, UntrackedPolicy::Exclude, &worktree);
    assert_eq!(summary, counts(0, 0, 0, 1, 0));
}

#[test]
fn failed_pass_counts_nothing() {
    let tree_index = PassOutcome::Completed(vec![StagedChange::Addition]);
    let worktree = PassOutcome::Completed(vec![Some(WorktreeChange::Removed)]);
    let staged_failed = get_changes_summary(true, true, &PassOutcome::Failed, UntrackedPolicy::Exclude, &worktree);
    assert_eq!(staged_failed, counts(0, 0, 0, 1, 0));
    let walk_failed = get_changes_summary(true, true, &tree_index, UntrackedPolicy::Exclude, &PassOutcome::Failed);
    assert_eq!(walk_failed, counts(1, 0, 0, 0, 0));
    let both_failed = get_changes_summary(true, true, &PassOutcome::Failed, UntrackedPolicy::Exclude, &PassOutcome::Failed);
    assert!(both_failed.is_clean());
}

#[test]
fn counts_add_up_to_the_counted_entries() {
    let tree_index = PassOutcome::Completed(vec![StagedChange::Addition, StagedChange::Deletion]);
    let worktree = PassOutcome::Completed(every_worktree_change());
    let summary = get_changes_summary(true, true, &tree_index, UntrackedPolicy::Enumerate, &worktree);
    let total = summary.staged + summary.renamed + summary.modified + summary.deleted + summary.untracked;
    assert_eq!(total, 2 + 8);
}

#[test]
fn recording_one_entry_at_a_time() {
    let mut summary = ChangesSummary::default();
    summary.record_staged(StagedChange::Modification);
    summary.record_worktree(UntrackedPolicy::Enumerate, Some(WorktreeChange::Added));
    summary.record_worktree(UntrackedPolicy::Exclude, Some(WorktreeChange::Added));
    summary.record_worktree(UntrackedPolicy::Exclude, Some(WorktreeChange::Copied));
    summary.record_worktree(UntrackedPolicy::Exclude, None);
    summary.increment(Category::Deleted);
    assert_eq!(summary, counts(1, 1, 0, 1, 1));
    assert_eq!(summary.count(Category::Renamed), 1);
    assert_eq!(summary.count(Category::Modified), 0);
}

#[test]
fn only_exclude_skips_the_walk() {
    assert!(!UntrackedPolicy::Exclude.walks_directories());
    assert!(UntrackedPolicy::Collapse.walks_directories());
    assert!(UntrackedPolicy::Enumerate.walks_directories());
}

#[test]
fn scenario_clean_main_without_upstream() {
    let changes = get_changes_summary(
        true,
        true,
        &PassOutcome::Completed(vec![]),
        UntrackedPolicy::Exclude,
        &PassOutcome::Completed(vec![]),
    );
    let status = GitStatus::from_parts(
        &BranchIdentity::Named("main".to_string()),
        &Err(gitstatus::branch::ResolveError::NoUpstreamConfigured),
        changes,
    );
    assert_eq!(status.format(), "main ✓");
}

#[test]
fn scenario_main_tracking_main_is_shown_once() {
    let status = GitStatus {
        current_branch: "main".to_string(),
        upstream_branch: Some("main".to_string()),
        changes: ChangesSummary::default(),
    };
    assert_eq!(status.format(), "main ✓");
}

#[test]
fn scenario_feature_with_one_addition_and_two_modified() {
    let changes = get_changes_summary(
        true,
        true,
        &PassOutcome::Completed(vec![StagedChange::Addition]),
        UntrackedPolicy::Exclude,
        &PassOutcome::Completed(vec![
            Some(WorktreeChange::Modified),
            Some(WorktreeChange::Added),
            Some(WorktreeChange::Modified),
        ]),
    );
    assert_eq!(changes, counts(1, 0, 2, 0, 0));
    let status = GitStatus::from_parts(
        &BranchIdentity::Named("feature".to_string()),
        &Ok(UpstreamIdentity { remote: "origin".to_string(), branch: "feature".to_string() }),
        changes,
    );
    assert_eq!(status.format(), "feature origin/feature ^1~2");
}

#[test]
fn scenario_all_five_categories() {
    let mut worktree = Vec::new();
    for _ in 0..4 {
        worktree.push(Some(WorktreeChange::Renamed));
    }
    for _ in 0..2 {
        worktree.push(Some(WorktreeChange::Modified));
    }
    for _ in 0..3 {
        worktree.push(Some(WorktreeChange::Removed));
    }
    for _ in 0..5 {
        worktree.push(Some(WorktreeChange::Added));
    }
    let changes = get_changes_summary(
        true,
        true,
        &PassOutcome::Completed(vec![StagedChange::Modification]),
        UntrackedPolicy::Enumerate,
        &PassOutcome::Completed(worktree),
    );
    assert_eq!(changes.format(), "^1~4~2-3+5");
}

#[test]
fn from_parts_shows_labels_and_drops_failed_upstreams() {
    let detached = GitStatus::from_parts(
        &BranchIdentity::Detached,
        &Err(gitstatus::branch::ResolveError::NoUpstreamConfigured),
        counts(0, 0, 1, 0, 0),
    );
    assert_eq!(detached.upstream_branch, None);
    assert_eq!(detached.format(), "HEAD ~1");
    let unborn = GitStatus::from_parts(
        &BranchIdentity::Unborn,
        &Err(gitstatus::branch::ResolveError::MetadataReadFailure),
        ChangesSummary::default(),
    );
    assert_eq!(unborn.format(), "(no branch) ✓");
}

#[test]
fn counts_are_shown_in_decimal() {
    assert_eq!(counts(10, 0, 0, 0, 0).format(), "^10");
    assert_eq!(counts(0, 0, 1234567890, 0, 0).format(), "~1234567890");
    assert_eq!(counts(0, 0, 0, 0, usize::MAX).format(), format!("+{}", usize::MAX));
    assert_eq!(counts(105, 20, 3, 40, 5000).format(), "^105~20~3-40+5000");
}
