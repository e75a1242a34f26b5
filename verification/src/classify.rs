//! The state classifier: what may safely be done to a repository, decided
//! from its state, its working tree status and its remotes.

use vstd::prelude::*;

verus! {

/// Flag in a status word: the path is ignored.
pub const STATUS_IGNORED: u32 = 0x4000;

/// The operation that a repository is in the middle of, if any.
#[derive(Clone, Copy, Debug, PartialEq, Eq, Structural)]
pub enum RepositoryState {
    Clean,
    Merge,
    Revert,
    RevertSequence,
    CherryPick,
    CherryPickSequence,
    Bisect,
    Rebase,
    RebaseInteractive,
    RebaseMerge,
    ApplyMailbox,
    ApplyMailboxOrRebase,
}

/// Why a repository is left alone.
#[derive(Clone, Copy, Debug, PartialEq, Eq, Structural)]
pub enum SkipReason {
    /// A merge, rebase or similar operation is in progress.
    OperationInProgress,
    /// The working tree status could not be computed.
    StatusUnavailable,
    /// The repository has no working directory.
    NoWorkdir,
    /// The working tree has changes and no remote is configured.
    DirtyWithoutRemote,
    /// HEAD could not be found.
    HeadMissing,
    /// HEAD points to a commit, not to a branch.
    DetachedHead,
    /// The branch records no upstream remote or no upstream reference.
    NoUpstream,
    /// The local branch has no commit yet.
    UnbornBranch,
    /// The merge analysis allows no merge at all.
    NoMergePossible,
}

/// What the classifier knows of a repository.
#[derive(Clone, Debug, PartialEq, Eq)]
pub struct RepoFacts {
    /// The operation in progress.
    pub state: RepositoryState,
    /// The status word of each path that has one, or `None` when the status
    /// could not be computed.
    pub statuses: Option<Vec<u32>>,
    /// The number of configured remotes.
    pub remotes: usize,
    /// The working directory, absent in a bare repository.
    pub workdir: Option<String>,
}

/// What is safe to do to a repository.
#[derive(Clone, Debug, PartialEq, Eq)]
pub enum Action {
    /// Leave the repository alone.
    Skip(SkipReason),
    /// Fetch, then fast-forward the working directory given.
    Pull(String),
    /// Fetch only; the working directory given is not changed.
    Fetch(String),
}

/// A status word that does not make a working tree dirty: no flag is set,
/// or the path is ignored.
pub open spec fn status_is_harmless(bits: u32) -> bool {
    bits == 0 || bits & STATUS_IGNORED != 0
}

/// A working tree is pristine when every status word is harmless.
pub open spec fn pristine(statuses: Seq<u32>) -> bool {
    forall|i: int| 0 <= i < statuses.len() ==> status_is_harmless(#[trigger] statuses[i])
}

/// The classifier's decision.
pub open spec fn action_of(facts: RepoFacts) -> Action {
    if facts.state != RepositoryState::Clean {
        Action::Skip(SkipReason::OperationInProgress)
    } else if facts.statuses is None {
        Action::Skip(SkipReason::StatusUnavailable)
    } else if facts.workdir is None {
        Action::Skip(SkipReason::NoWorkdir)
    } else if pristine(facts.statuses->0@) {
        Action::Pull(facts.workdir->0)
    } else if facts.remotes > 0 {
        Action::Fetch(facts.workdir->0)
    } else {
        Action::Skip(SkipReason::DirtyWithoutRemote)
    }
}

/// Trusted: `is_empty` of `git2::Status`, which holds when no flag is set.
#[verifier::external_body]
fn status_is_empty(bits: u32) -> (r: bool)
    ensures
        r == (bits == 0),
{
    git2::Status::from_bits_retain(bits).is_empty()
}

/// Trusted: `git2::Status::is_ignored`, which tests whether the status word
/// shares a bit with the ignored flag, bit 14.
#[verifier::external_body]
fn status_is_ignored(bits: u32) -> (r: bool)
    ensures
        r == (bits & STATUS_IGNORED != 0),
{
    git2::Status::from_bits_retain(bits).is_ignored()
}

/// Whether every status word is harmless.
pub fn is_pristine(statuses: &Vec<u32>) -> (r: bool)
    ensures
        r == pristine(statuses@),
{
    let mut i: usize = 0;
    while i < statuses.len()
        invariant
            i <= statuses.len(),
            forall|j: int| 0 <= j < i ==> status_is_harmless(#[trigger] statuses@[j]),
        decreases statuses.len() - i,
    {
        let bits = statuses[i];
        if !status_is_empty(bits) && !status_is_ignored(bits) {
            return false;
        }
        i += 1;
    }
    true
}

/// Decides what is safe to do to the repository described by `facts`.
///
/// A repository in the middle of an operation is skipped, and so is one
/// whose status is unknown. A pristine working tree may be pulled. A dirty
/// one is fetched only, if there is a remote to fetch from.
pub fn classify(facts: RepoFacts) -> (action: Action)
    ensures
        action == action_of(facts),
{
    match facts.state {
        RepositoryState::Clean => {},
        _ => {
            return Action::Skip(SkipReason::OperationInProgress);
        },
    }
    let statuses = match facts.statuses {
        Some(statuses) => statuses,
        None => {
            return Action::Skip(SkipReason::StatusUnavailable);
        },
    };
    let workdir = match facts.workdir {
        Some(workdir) => workdir,
        None => {
            return Action::Skip(SkipReason::NoWorkdir);
        },
    };
    if is_pristine(&statuses) {
        Action::Pull(workdir)
    } else if facts.remotes > 0 {
        Action::Fetch(workdir)
    } else {
        Action::Skip(SkipReason::DirtyWithoutRemote)
    }
}

/// A pull is decided only for a repository with no operation in progress and
/// a pristine working tree: a dirty or busy repository is never pulled.
pub proof fn lemma_pull_only_when_clean_and_pristine(facts: RepoFacts)
    requires
        action_of(facts) is Pull,
    ensures
        facts.state == RepositoryState::Clean,
        facts.statuses is Some,
        pristine(facts.statuses->0@),
        facts.workdir == Some(action_of(facts)->Pull_0),
{
}

} // verus!
