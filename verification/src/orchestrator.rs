//! A run over many repositories: each has a pipeline of its own, and only
//! the final result is shared.

use crate::pipeline::{spec_start, stage_after, Event, Stage};
use crate::report::{status_of, ExitStatus, Report};
use vstd::prelude::*;

verus! {

/// The report with which the pipeline of one repository has ended after the
/// answers `events`, or `None` while it still waits for an answer.
pub open spec fn final_report(key_path: String, events: Seq<Event>) -> Option<Report> {
    match stage_after(spec_start(key_path).0, events) {
        Stage::Finished(report) => Some(report),
        _ => None,
    }
}

/// The reports of a run in which repository `j` received the answers
/// `runs[j]`.
pub open spec fn final_reports(key_path: String, runs: Seq<Seq<Event>>) -> Seq<Option<Report>> {
    Seq::new(runs.len(), |j: int| final_report(key_path, runs[j]))
}

/// What happens in one repository has no effect on the report of another:
/// replacing the answers of repository `changed` leaves every other report
/// as it was.
pub proof fn lemma_pipelines_are_isolated(
    key_path: String,
    runs: Seq<Seq<Event>>,
    changed: int,
    answers: Seq<Event>,
)
    requires
        0 <= changed < runs.len(),
    ensures
        final_reports(key_path, runs.update(changed, answers)).len() == runs.len(),
        forall|j: int|
            0 <= j < runs.len() && j != changed ==> (#[trigger] final_reports(
                key_path,
                runs.update(changed, answers),
            )[j]) == final_reports(key_path, runs)[j],
{
}

/// When every pipeline has ended and one of them ended in an error, the run
/// has failed, and the other pipelines have ended with the reports that they
/// would have had without the failure.
pub proof fn lemma_one_failure_among_many(
    key_path: String,
    runs: Seq<Seq<Event>>,
    reports: Seq<Report>,
    failed: int,
    answers: Seq<Event>,
)
    requires
        0 <= failed < runs.len(),
        reports.len() == runs.len(),
        forall|j: int|
            0 <= j < runs.len() ==> final_report(key_path, #[trigger] runs[j]) == Some(reports[j]),
        reports[failed].is_error(),
    ensures
        status_of(reports) == ExitStatus::Failure,
        forall|j: int|
            0 <= j < runs.len() && j != failed ==> (#[trigger] final_reports(
                key_path,
                runs.update(failed, answers),
            )[j]) == Some(reports[j]),
{
    lemma_pipelines_are_isolated(key_path, runs, failed, answers);
}

} // verus!
