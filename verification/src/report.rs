//! What became of each repository, and the result of the whole run.

use crate::classify::SkipReason;
use crate::fetch::FetchError;
use vstd::prelude::*;

verus! {

/// The step at which a repository failed.
#[derive(Clone, Copy, Debug, PartialEq, Eq, Structural)]
pub enum Failure {
    /// The fetch failed.
    Fetch(FetchError),
    /// The merge analysis could not be made.
    Analysis,
    /// The branch reference could not be moved; nothing was changed.
    ReferenceUpdate,
    /// The branch reference was moved, but HEAD could not be set to it.
    HeadUpdate,
    /// The branch reference was moved, but the working tree could not be
    /// brought up to it.
    Checkout,
    /// An answer came that does not belong to the step that was asked for.
    UnexpectedEvent,
}

/// What became of one repository.
#[derive(Clone, Copy, Debug, PartialEq, Eq, Structural)]
pub enum Report {
    /// The repository was left alone.
    Skipped(SkipReason),
    /// The upstream was fetched; the working tree was not touched.
    FetchedOnly,
    /// The branch already holds the upstream tip.
    UpToDate,
    /// The branch and the working tree were moved to the upstream tip.
    FastForwarded,
    /// Both sides have diverged: a merge by hand is needed.
    MergeNeeded,
    /// A step failed.
    Failed(Failure),
}

/// The result of a whole run.
#[derive(Clone, Copy, Debug, PartialEq, Eq, Structural)]
pub enum ExitStatus {
    Success,
    Failure,
}

impl Report {
    /// Whether the repository ended in an error. A skip and a needed merge
    /// are none.
    pub open spec fn spec_is_error(self) -> bool {
        self is Failed
    }

    /// Whether the repository ended in an error.
    #[verifier::when_used_as_spec(spec_is_error)]
    pub fn is_error(self) -> (r: bool)
        ensures
            r == self.spec_is_error(),
    {
        match self {
            Report::Failed(_) => true,
            _ => false,
        }
    }

    /// Whether a failure left the branch reference moved while HEAD or the
    /// working tree stayed behind, so that the repository must be repaired
    /// by hand.
    pub open spec fn spec_needs_manual_recovery(self) -> bool {
        self == Report::Failed(Failure::HeadUpdate) || self == Report::Failed(Failure::Checkout)
    }

    /// Whether the repository must be repaired by hand.
    #[verifier::when_used_as_spec(spec_needs_manual_recovery)]
    pub fn needs_manual_recovery(self) -> (r: bool)
        ensures
            r == self.spec_needs_manual_recovery(),
    {
        match self {
            Report::Failed(Failure::HeadUpdate) => true,
            Report::Failed(Failure::Checkout) => true,
            _ => false,
        }
    }
}

/// The result of two runs taken together: a failure if either failed.
pub open spec fn spec_combine(a: ExitStatus, b: ExitStatus) -> ExitStatus {
    if a == ExitStatus::Failure || b == ExitStatus::Failure {
        ExitStatus::Failure
    } else {
        ExitStatus::Success
    }
}

/// The result of a run with these reports: a failure if and only if some
/// repository ended in an error.
pub open spec fn status_of(reports: Seq<Report>) -> ExitStatus {
    if exists|i: int| 0 <= i < reports.len() && (#[trigger] reports[i]).is_error() {
        ExitStatus::Failure
    } else {
        ExitStatus::Success
    }
}

/// The result of a single repository.
pub open spec fn status_of_one(report: Report) -> ExitStatus {
    if report.is_error() {
        ExitStatus::Failure
    } else {
        ExitStatus::Success
    }
}

/// Combines the results of two runs.
#[verifier::when_used_as_spec(spec_combine)]
pub fn combine(a: ExitStatus, b: ExitStatus) -> (r: ExitStatus)
    ensures
        r == spec_combine(a, b),
{
    match (a, b) {
        (ExitStatus::Success, ExitStatus::Success) => ExitStatus::Success,
        _ => ExitStatus::Failure,
    }
}

/// The result of a run from the reports of its repositories. A run over no
/// repository succeeds.
pub fn aggregate(reports: &Vec<Report>) -> (status: ExitStatus)
    ensures
        status == status_of(reports@),
{
    let mut status = ExitStatus::Success;
    let mut i: usize = 0;
    while i < reports.len()
        invariant
            i <= reports.len(),
            status == status_of(reports@.take(i as int)),
        decreases reports.len() - i,
    {
        proof {
            lemma_status_of_push(reports@.take(i as int), reports@[i as int]);
            assert(reports@.take(i as int).push(reports@[i as int]) =~= reports@.take(i + 1));
        }
        let one = if reports[i].is_error() {
            ExitStatus::Failure
        } else {
            ExitStatus::Success
        };
        status = combine(status, one);
        i += 1;
    }
    assert(reports@.take(reports@.len() as int) =~= reports@);
    status
}

/// One more report changes the result as combining with its own result does.
pub proof fn lemma_status_of_push(reports: Seq<Report>, report: Report)
    ensures
        status_of(reports.push(report)) == combine(status_of(reports), status_of_one(report)),
{
    let longer = reports.push(report);
    if status_of(reports) == ExitStatus::Failure {
        let i = choose|i: int| 0 <= i < reports.len() && (#[trigger] reports[i]).is_error();
        assert(longer[i].is_error());
    } else if report.is_error() {
        assert(longer[reports.len() as int].is_error());
    } else {
        if status_of(longer) == ExitStatus::Failure {
            let i = choose|i: int| 0 <= i < longer.len() && (#[trigger] longer[i]).is_error();
            if i < reports.len() {
                assert(reports[i].is_error());
            }
        }
    }
}

/// Combining does not depend on the order of the two results.
pub proof fn lemma_combine_commutative(a: ExitStatus, b: ExitStatus)
    ensures
        combine(a, b) == combine(b, a),
{
}

/// Combining three results does not depend on the grouping.
pub proof fn lemma_combine_associative(a: ExitStatus, b: ExitStatus, c: ExitStatus)
    ensures
        combine(combine(a, b), c) == combine(a, combine(b, c)),
{
}

/// Success changes nothing when combined with another result.
pub proof fn lemma_combine_identity(a: ExitStatus)
    ensures
        combine(a, ExitStatus::Success) == a,
        combine(ExitStatus::Success, a) == a,
{
}

/// The result of a run does not depend on the order in which the
/// repositories finished.
pub proof fn lemma_status_ignores_order(a: Seq<Report>, b: Seq<Report>)
    requires
        a.to_multiset() == b.to_multiset(),
    ensures
        status_of(a) == status_of(b),
{
    a.to_multiset_ensures();
    b.to_multiset_ensures();
    if status_of(a) == ExitStatus::Failure {
        let i = choose|i: int| 0 <= i < a.len() && (#[trigger] a[i]).is_error();
        assert(a.contains(a[i]));
        assert(a.to_multiset().count(a[i]) > 0);
        assert(b.to_multiset().count(a[i]) > 0);
        assert(b.contains(a[i]));
        let j = choose|j: int| 0 <= j < b.len() && b[j] == a[i];
        assert(b[j].is_error());
    }
    if status_of(b) == ExitStatus::Failure {
        let i = choose|i: int| 0 <= i < b.len() && (#[trigger] b[i]).is_error();
        assert(b.contains(b[i]));
        assert(b.to_multiset().count(b[i]) > 0);
        assert(a.to_multiset().count(b[i]) > 0);
        assert(a.contains(b[i]));
        let j = choose|j: int| 0 <= j < a.len() && a[j] == b[i];
        assert(a[j].is_error());
    }
}

/// A single failed repository makes the run fail, whatever became of the
/// others.
pub proof fn lemma_one_failure_fails_the_run(reports: Seq<Report>, failed: int)
    requires
        0 <= failed < reports.len(),
        reports[failed].is_error(),
    ensures
        status_of(reports) == ExitStatus::Failure,
{
}

/// A run in which no repository ended in an error succeeds, skips and
/// needed merges included.
pub proof fn lemma_no_failure_is_success(reports: Seq<Report>)
    requires
        forall|i: int| 0 <= i < reports.len() ==> !(#[trigger] reports[i]).is_error(),
    ensures
        status_of(reports) == ExitStatus::Success,
{
}

} // verus!
