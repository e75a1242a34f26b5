use githerder::analysis::MergeAnalysisResult;
use githerder::history::History;

/// A line of `n` commits, each the child of the one before.
fn line(n: usize) -> History {
    let mut h = History::new();
    for i in 0..n {
        let parents = if i == 0 { vec![] } else { vec![i - 1] };
        assert_eq!(h.add_commit(parents), Some(i));
    }
    h
}

#[test]
fn new_history_is_empty() {
    assert_eq!(History::new().len(), 0);
}

#[test]
fn add_commit_names_commits_in_order() {
    let mut h = History::new();
    assert_eq!(h.add_commit(vec![]), Some(0));
    assert_eq!(h.add_commit(vec![0]), Some(1));
    assert_eq!(h.add_commit(vec![0, 1]), Some(2));
    assert_eq!(h.len(), 3);
}

#[test]
fn add_commit_refuses_unknown_parent() {
    let mut h = line(2);
    assert_eq!(h.add_commit(vec![2]), None);
    assert_eq!(h.add_commit(vec![0, 7]), None);
    assert_eq!(h.len(), 2);
    assert_eq!(h.add_commit(vec![1]), Some(2));
}

#[test]
fn every_commit_is_its_own_ancestor() {
    let h = line(3);
    assert!(h.is_ancestor(0, 0));
    assert!(h.is_ancestor(2, 2));
    assert!(h.is_ancestor(9, 9));
}

#[test]
fn ancestry_follows_parent_links() {
    let h = line(5);
    assert!(h.is_ancestor(0, 4));
    assert!(h.is_ancestor(1, 3));
    assert!(!h.is_ancestor(4, 0));
    assert!(!h.is_ancestor(3, 1));
    assert!(!h.is_ancestor(0, 5));
    assert!(!h.is_ancestor(5, 0));
}

#[test]
fn ancestry_through_a_merge() {
    // 0 - 1 - 3 (merge of 1 and 2), 0 - 2, 4 is a root of its own
    let mut h = History::new();
    h.add_commit(vec![]);
    h.add_commit(vec![0]);
    h.add_commit(vec![0]);
    h.add_commit(vec![1, 2]);
    h.add_commit(vec![]);
    assert!(h.is_ancestor(2, 3));
    assert!(h.is_ancestor(1, 3));
    assert!(h.is_ancestor(0, 3));
    assert!(!h.is_ancestor(1, 2));
    assert!(!h.is_ancestor(2, 1));
    assert!(!h.is_ancestor(0, 4));
    assert!(!h.is_ancestor(3, 4));
}

#[test]
fn same_tip_is_up_to_date() {
    let h = line(3);
    assert_eq!(h.analyze(Some(2), 2), MergeAnalysisResult::UpToDate);
    assert_eq!(h.analyze(Some(0), 0), MergeAnalysisResult::UpToDate);
}

#[test]
fn local_ahead_of_upstream_is_up_to_date() {
    let h = line(4);
    assert_eq!(h.analyze(Some(3), 1), MergeAnalysisResult::UpToDate);
}

#[test]
fn three_new_upstream_commits_are_a_fast_forward() {
    // local tip 1, upstream three commits further
    let h = line(5);
    assert_eq!(h.analyze(Some(1), 4), MergeAnalysisResult::FastForward);
}

#[test]
fn one_new_upstream_commit_is_a_fast_forward() {
    let h = line(2);
    assert_eq!(h.analyze(Some(0), 1), MergeAnalysisResult::FastForward);
}

#[test]
fn unique_commits_on_both_sides_need_a_merge() {
    // common ancestor 0; local 1; upstream 2
    let mut h = History::new();
    h.add_commit(vec![]);
    h.add_commit(vec![0]);
    h.add_commit(vec![0]);
    assert_eq!(h.analyze(Some(1), 2), MergeAnalysisResult::Normal);
    assert_eq!(h.analyze(Some(2), 1), MergeAnalysisResult::Normal);
}

#[test]
fn unrelated_roots_need_a_merge() {
    let mut h = History::new();
    h.add_commit(vec![]);
    h.add_commit(vec![]);
    assert_eq!(h.analyze(Some(0), 1), MergeAnalysisResult::Normal);
}

#[test]
fn branch_without_commit_is_unborn() {
    let h = line(2);
    assert_eq!(h.analyze(None, 1), MergeAnalysisResult::Unborn);
}

#[test]
fn after_a_fast_forward_the_tip_is_up_to_date() {
    let h = line(5);
    let local = 1;
    let upstream = 4;
    assert_eq!(h.analyze(Some(local), upstream), MergeAnalysisResult::FastForward);
    let moved = upstream;
    assert_eq!(h.analyze(Some(moved), upstream), MergeAnalysisResult::UpToDate);
}

#[test]
fn fast_forward_through_a_merge_commit() {
    // upstream merged a side branch: 0 - 1 - 3, 0 - 2 - 3
    let mut h = History::new();
    h.add_commit(vec![]);
    h.add_commit(vec![0]);
    h.add_commit(vec![0]);
    h.add_commit(vec![1, 2]);
    assert_eq!(h.analyze(Some(2), 3), MergeAnalysisResult::FastForward);
    assert_eq!(h.analyze(Some(1), 3), MergeAnalysisResult::FastForward);
    assert_eq!(h.analyze(Some(3), 2), MergeAnalysisResult::UpToDate);
}
