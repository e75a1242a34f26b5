use githerder::classify::{
    classify, is_pristine, Action, RepoFacts, RepositoryState, SkipReason, STATUS_IGNORED,
};

fn facts(
    state: RepositoryState,
    statuses: Option<Vec<u32>>,
    remotes: usize,
    workdir: Option<&str>,
) -> RepoFacts {
    RepoFacts { state, statuses, remotes, workdir: workdir.map(String::from) }
}

#[test]
fn ignored_flag_is_that_of_git2() {
    assert_eq!(git2::Status::IGNORED.bits(), STATUS_IGNORED);
    assert_eq!(git2::Status::CURRENT.bits(), 0);
}

#[test]
fn clean_and_pristine_is_pulled() {
    let f = facts(RepositoryState::Clean, Some(vec![]), 1, Some("/w/a"));
    assert_eq!(classify(f), Action::Pull(String::from("/w/a")));
}

#[test]
fn pristine_without_remote_is_still_pulled() {
    let f = facts(RepositoryState::Clean, Some(vec![0, 0]), 0, Some("/w/a"));
    assert_eq!(classify(f), Action::Pull(String::from("/w/a")));
}

#[test]
fn ignored_files_keep_a_tree_pristine() {
    let f = facts(RepositoryState::Clean, Some(vec![STATUS_IGNORED, 0]), 1, Some("/w/a"));
    assert_eq!(classify(f), Action::Pull(String::from("/w/a")));
}

#[test]
fn modified_file_with_remote_is_fetched_only() {
    let modified = git2::Status::WT_MODIFIED.bits();
    let f = facts(RepositoryState::Clean, Some(vec![0, modified]), 1, Some("/w/b"));
    assert_eq!(classify(f), Action::Fetch(String::from("/w/b")));
}

#[test]
fn untracked_file_makes_a_tree_dirty() {
    let untracked = git2::Status::WT_NEW.bits();
    let f = facts(RepositoryState::Clean, Some(vec![untracked]), 2, Some("/w/b"));
    assert_eq!(classify(f), Action::Fetch(String::from("/w/b")));
}

#[test]
fn dirty_without_remote_is_skipped() {
    let f = facts(RepositoryState::Clean, Some(vec![0x100]), 0, Some("/w/b"));
    assert_eq!(classify(f), Action::Skip(SkipReason::DirtyWithoutRemote));
}

#[test]
fn operation_in_progress_is_skipped() {
    let states = [
        RepositoryState::Merge,
        RepositoryState::Revert,
        RepositoryState::RevertSequence,
        RepositoryState::CherryPick,
        RepositoryState::CherryPickSequence,
        RepositoryState::Bisect,
        RepositoryState::Rebase,
        RepositoryState::RebaseInteractive,
        RepositoryState::RebaseMerge,
        RepositoryState::ApplyMailbox,
        RepositoryState::ApplyMailboxOrRebase,
    ];
    for state in states {
        let f = facts(state, Some(vec![]), 1, Some("/w/c"));
        assert_eq!(classify(f), Action::Skip(SkipReason::OperationInProgress));
    }
}

#[test]
fn failed_status_is_skipped() {
    let f = facts(RepositoryState::Clean, None, 1, Some("/w/c"));
    assert_eq!(classify(f), Action::Skip(SkipReason::StatusUnavailable));
}

#[test]
fn bare_repository_is_skipped() {
    let f = facts(RepositoryState::Clean, Some(vec![]), 1, None);
    assert_eq!(classify(f), Action::Skip(SkipReason::NoWorkdir));
    let g = facts(RepositoryState::Clean, Some(vec![1]), 1, None);
    assert_eq!(classify(g), Action::Skip(SkipReason::NoWorkdir));
}

#[test]
fn pristine_of_status_words() {
    assert!(is_pristine(&vec![]));
    assert!(is_pristine(&vec![0, STATUS_IGNORED, 0]));
    assert!(!is_pristine(&vec![0, STATUS_IGNORED, 1]));
    assert!(!is_pristine(&vec![git2::Status::CONFLICTED.bits()]));
    assert!(!is_pristine(&vec![git2::Status::INDEX_NEW.bits()]));
}
