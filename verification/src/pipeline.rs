//! The pipeline of one repository as a state machine. The caller performs
//! each command on the repository and hands back what came of it; the
//! machine decides what to do next. A repository is changed only by the
//! three commands that apply a fast-forward.

use crate::analysis::{result_of_flags, MergeAnalysisResult};
use crate::classify::{action_of, classify, pristine, Action, RepoFacts, RepositoryState, SkipReason};
use crate::commit::CommitId;
use crate::fetch::{fetch_obstacle, plan_fetch, FetchOutcome, FetchRequest, HeadReference};
use crate::history::{analysis_of, is_ancestor, lemma_fast_forward_only_to_descendant};
use crate::analysis::lemma_flags_round_trip;
use crate::report::{Failure, Report};
use vstd::prelude::*;

verus! {

/// Whether the working tree may be changed after the fetch.
#[derive(Clone, Copy, Debug, PartialEq, Eq, Structural)]
pub enum Mode {
    /// Fetch, then fast-forward if that is possible.
    Pull,
    /// Fetch only.
    FetchOnly,
}

/// Where the pipeline of a repository stands: the answer it waits for.
#[derive(Debug, PartialEq, Eq)]
pub enum Stage {
    /// Waits for the facts about the repository.
    Inspecting { key_path: String },
    /// Waits for the reference that HEAD points to.
    ResolvingHead { mode: Mode, key_path: String },
    /// Waits for the fetch.
    Fetching { mode: Mode, head_name: String },
    /// Waits for the merge analysis of the fetched commit.
    Analyzing { head_name: String, target: CommitId },
    /// Waits for the branch reference to be moved.
    MovingReference { head_name: String },
    /// Waits for HEAD to be set to the branch.
    SettingHead,
    /// Waits for the working tree to be checked out.
    CheckingOut,
    /// The pipeline has ended.
    Finished(Report),
}

/// What came of the last command.
#[derive(Debug, PartialEq, Eq)]
pub enum Event {
    /// The facts about the repository, answering `Command::Inspect`.
    Facts(RepoFacts),
    /// The reference that HEAD points to, or `None` if HEAD cannot be found,
    /// answering `Command::ResolveHead`.
    Head(Option<HeadReference>),
    /// What the fetch brought, answering `Command::Fetch`.
    Fetched(FetchOutcome),
    /// The flag word of the merge analysis, or `None` if it could not be
    /// made, answering `Command::Analyze`.
    Analyzed(Option<u32>),
    /// Whether a command that changes the repository succeeded.
    Done(bool),
}

/// What the caller is to do next.
#[derive(Debug, PartialEq, Eq)]
pub enum Command {
    /// Read the state, the status and the remotes of the repository.
    Inspect,
    /// Look up HEAD and the upstream of its branch.
    ResolveHead,
    /// Fetch the one reference of the request.
    Fetch(FetchRequest),
    /// Analyse a merge of `target` into HEAD.
    Analyze { target: CommitId },
    /// Move the branch reference `name` to `target`.
    MoveReference { name: String, target: CommitId },
    /// Point HEAD at the branch `name`.
    SetHead { name: String },
    /// Force the working tree and the index to what HEAD holds.
    CheckoutHead,
    /// Nothing more: the pipeline has ended with this report.
    Finish(Report),
}

/// The end of a pipeline with the given report.
pub open spec fn finish(report: Report) -> (Stage, Command) {
    (Stage::Finished(report), Command::Finish(report))
}

/// The report for a merge analysis that allows no fast-forward.
pub open spec fn report_without_update(result: MergeAnalysisResult) -> Report {
    match result {
        MergeAnalysisResult::UpToDate => Report::UpToDate,
        MergeAnalysisResult::Normal => Report::MergeNeeded,
        MergeAnalysisResult::Unborn => Report::Skipped(SkipReason::UnbornBranch),
        _ => Report::Skipped(SkipReason::NoMergePossible),
    }
}

/// The first stage and the first command of a pipeline.
pub open spec fn spec_start(key_path: String) -> (Stage, Command) {
    (Stage::Inspecting { key_path }, Command::Inspect)
}

/// The stage and the command that follow when `event` arrives at `stage`.
pub open spec fn spec_step(stage: Stage, event: Event) -> (Stage, Command) {
    match (stage, event) {
        (Stage::Finished(report), _) => finish(report),
        (Stage::Inspecting { key_path }, Event::Facts(facts)) => match action_of(facts) {
            Action::Skip(reason) => finish(Report::Skipped(reason)),
            Action::Pull(_) => (
                Stage::ResolvingHead { mode: Mode::Pull, key_path },
                Command::ResolveHead,
            ),
            Action::Fetch(_) => (
                Stage::ResolvingHead { mode: Mode::FetchOnly, key_path },
                Command::ResolveHead,
            ),
        },
        (Stage::ResolvingHead { mode, key_path }, Event::Head(head)) => match fetch_obstacle(
            head,
        ) {
            Some(reason) => finish(Report::Skipped(reason)),
            None => (
                Stage::Fetching { mode, head_name: head->0.name },
                Command::Fetch(
                    FetchRequest {
                        remote: head->0.upstream->0.remote,
                        refspec: head->0.upstream->0.refname,
                        key_path,
                    },
                ),
            ),
        },
        (Stage::Fetching { mode, head_name }, Event::Fetched(outcome)) => match outcome {
            FetchOutcome::Failed(error) => finish(Report::Failed(Failure::Fetch(error))),
            FetchOutcome::Fetched(target) => match mode {
                Mode::FetchOnly => finish(Report::FetchedOnly),
                Mode::Pull => (Stage::Analyzing { head_name, target }, Command::Analyze { target }),
            },
        },
        (Stage::Analyzing { head_name, target }, Event::Analyzed(flags)) => match flags {
            None => finish(Report::Failed(Failure::Analysis)),
            Some(bits) => if result_of_flags(bits) == MergeAnalysisResult::FastForward {
                (
                    Stage::MovingReference { head_name },
                    Command::MoveReference { name: head_name, target },
                )
            } else {
                finish(report_without_update(result_of_flags(bits)))
            },
        },
        (Stage::MovingReference { head_name }, Event::Done(ok)) => if ok {
            (Stage::SettingHead, Command::SetHead { name: head_name })
        } else {
            finish(Report::Failed(Failure::ReferenceUpdate))
        },
        (Stage::SettingHead, Event::Done(ok)) => if ok {
            (Stage::CheckingOut, Command::CheckoutHead)
        } else {
            finish(Report::Failed(Failure::HeadUpdate))
        },
        (Stage::CheckingOut, Event::Done(ok)) => if ok {
            finish(Report::FastForwarded)
        } else {
            finish(Report::Failed(Failure::Checkout))
        },
        _ => finish(Report::Failed(Failure::UnexpectedEvent)),
    }
}

fn end(report: Report) -> (r: (Stage, Command))
    ensures
        r == finish(report),
{
    (Stage::Finished(report), Command::Finish(report))
}

/// Begins the pipeline of a repository. Fetches will authenticate with the
/// private key at `key_path`.
pub fn start(key_path: String) -> (r: (Stage, Command))
    ensures
        r == spec_start(key_path),
{
    (Stage::Inspecting { key_path }, Command::Inspect)
}

/// Takes the answer to the last command and decides the next one.
///
/// An answer that does not belong to the stage ends the pipeline with
/// `Failure::UnexpectedEvent`. A pipeline that has ended stays ended.
pub fn step(stage: Stage, event: Event) -> (r: (Stage, Command))
    ensures
        r == spec_step(stage, event),
{
    match stage {
        Stage::Finished(report) => end(report),
        Stage::Inspecting { key_path } => match event {
            Event::Facts(facts) => match classify(facts) {
                Action::Skip(reason) => end(Report::Skipped(reason)),
                Action::Pull(_) => (
                    Stage::ResolvingHead { mode: Mode::Pull, key_path },
                    Command::ResolveHead,
                ),
                Action::Fetch(_) => (
                    Stage::ResolvingHead { mode: Mode::FetchOnly, key_path },
                    Command::ResolveHead,
                ),
            },
            _ => end(Report::Failed(Failure::UnexpectedEvent)),
        },
        Stage::ResolvingHead { mode, key_path } => match event {
            Event::Head(head) => match plan_fetch(head, key_path) {
                Ok((head_name, request)) => (
                    Stage::Fetching { mode, head_name },
                    Command::Fetch(request),
                ),
                Err(reason) => end(Report::Skipped(reason)),
            },
            _ => end(Report::Failed(Failure::UnexpectedEvent)),
        },
        Stage::Fetching { mode, head_name } => match event {
            Event::Fetched(FetchOutcome::Failed(error)) => end(
                Report::Failed(Failure::Fetch(error)),
            ),
            Event::Fetched(FetchOutcome::Fetched(target)) => match mode {
                Mode::FetchOnly => end(Report::FetchedOnly),
                Mode::Pull => (Stage::Analyzing { head_name, target }, Command::Analyze { target }),
            },
            _ => end(Report::Failed(Failure::UnexpectedEvent)),
        },
        Stage::Analyzing { head_name, target } => match event {
            Event::Analyzed(None) => end(Report::Failed(Failure::Analysis)),
            Event::Analyzed(Some(bits)) => match MergeAnalysisResult::from_flags(bits) {
                MergeAnalysisResult::FastForward => {
                    let name = head_name.clone();
                    (Stage::MovingReference { head_name }, Command::MoveReference { name, target })
                },
                MergeAnalysisResult::UpToDate => end(Report::UpToDate),
                MergeAnalysisResult::Normal => end(Report::MergeNeeded),
                MergeAnalysisResult::Unborn => end(Report::Skipped(SkipReason::UnbornBranch)),
                MergeAnalysisResult::Unrelated => end(
                    Report::Skipped(SkipReason::NoMergePossible),
                ),
            },
            _ => end(Report::Failed(Failure::UnexpectedEvent)),
        },
        Stage::MovingReference { head_name } => match event {
            Event::Done(true) => (Stage::SettingHead, Command::SetHead { name: head_name }),
            Event::Done(false) => end(Report::Failed(Failure::ReferenceUpdate)),
            _ => end(Report::Failed(Failure::UnexpectedEvent)),
        },
        Stage::SettingHead => match event {
            Event::Done(true) => (Stage::CheckingOut, Command::CheckoutHead),
            Event::Done(false) => end(Report::Failed(Failure::HeadUpdate)),
            _ => end(Report::Failed(Failure::UnexpectedEvent)),
        },
        Stage::CheckingOut => match event {
            Event::Done(true) => end(Report::FastForwarded),
            Event::Done(false) => end(Report::Failed(Failure::Checkout)),
            _ => end(Report::Failed(Failure::UnexpectedEvent)),
        },
    }
}

impl Command {
    /// Whether the command changes the repository beyond what a fetch does:
    /// its branch reference, its HEAD or its working tree.
    pub open spec fn spec_changes_repository(&self) -> bool {
        *self is MoveReference || *self is SetHead || *self is CheckoutHead
    }

    /// Whether the command changes the branch reference, HEAD or the
    /// working tree of the repository.
    #[verifier::when_used_as_spec(spec_changes_repository)]
    pub fn changes_repository(&self) -> (r: bool)
        ensures
            r == self.spec_changes_repository(),
    {
        match self {
            Command::MoveReference { .. } => true,
            Command::SetHead { .. } => true,
            Command::CheckoutHead => true,
            _ => false,
        }
    }
}

impl Stage {
    /// The report of a pipeline that has ended.
    pub fn report(&self) -> (r: Option<Report>)
        ensures
            r == (match *self {
                Stage::Finished(report) => Some(report),
                _ => None,
            }),
    {
        match self {
            Stage::Finished(report) => Some(*report),
            _ => None,
        }
    }
}

/// The commands that a pipeline at `stage` gives in answer to `events`, one
/// for each event.
pub open spec fn commands_of(stage: Stage, events: Seq<Event>) -> Seq<Command>
    decreases events.len(),
{
    if events.len() == 0 {
        Seq::empty()
    } else {
        seq![spec_step(stage, events[0]).1] + commands_of(
            spec_step(stage, events[0]).0,
            events.drop_first(),
        )
    }
}

/// The stage that a pipeline at `stage` has reached after `events`.
pub open spec fn stage_after(stage: Stage, events: Seq<Event>) -> Stage
    decreases events.len(),
{
    if events.len() == 0 {
        stage
    } else {
        stage_after(spec_step(stage, events[0]).0, events.drop_first())
    }
}

/// A stage from which the repository can no longer be changed: the pipeline
/// has ended, or it runs for a repository that is fetched only.
pub open spec fn cannot_change(stage: Stage) -> bool {
    match stage {
        Stage::Finished(_) => true,
        Stage::ResolvingHead { mode, .. } => mode == Mode::FetchOnly,
        Stage::Fetching { mode, .. } => mode == Mode::FetchOnly,
        _ => false,
    }
}

/// From a stage that cannot change the repository, no answer leads to a
/// command that changes it, nor to a stage that can.
pub proof fn lemma_step_keeps_unchanged(stage: Stage, event: Event)
    requires
        cannot_change(stage),
    ensures
        cannot_change(spec_step(stage, event).0),
        !spec_step(stage, event).1.changes_repository(),
{
}

/// From a stage that cannot change the repository, no sequence of answers
/// leads to a command that changes it.
pub proof fn lemma_run_keeps_unchanged(stage: Stage, events: Seq<Event>)
    requires
        cannot_change(stage),
    ensures
        commands_of(stage, events).len() == events.len(),
        forall|i: int|
            0 <= i < events.len() ==> !(#[trigger] commands_of(stage, events)[i])
                .changes_repository(),
    decreases events.len(),
{
    if events.len() > 0 {
        lemma_step_keeps_unchanged(stage, events[0]);
        lemma_run_keeps_unchanged(spec_step(stage, events[0]).0, events.drop_first());
    }
}

/// A repository that the classifier does not release for a pull is never
/// changed, whatever answers follow.
pub proof fn lemma_only_a_pull_changes(key_path: String, facts: RepoFacts, later: Seq<Event>)
    requires
        !(action_of(facts) is Pull),
    ensures
        forall|i: int|
            0 <= i <= later.len() ==> !(#[trigger] commands_of(
                spec_start(key_path).0,
                seq![Event::Facts(facts)] + later,
            )[i]).changes_repository(),
{
    let first = spec_start(key_path).0;
    let events = seq![Event::Facts(facts)] + later;
    assert(events[0] == Event::Facts(facts));
    assert(events.drop_first() =~= later);
    let next = spec_step(first, events[0]).0;
    lemma_run_keeps_unchanged(next, later);
}

/// A repository in the middle of an operation, or with a working tree that
/// is not pristine, is never changed: no command that moves a reference,
/// sets HEAD or checks out follows, whatever answers come.
pub proof fn lemma_dirty_repository_is_never_changed(
    key_path: String,
    facts: RepoFacts,
    later: Seq<Event>,
)
    requires
        facts.state != RepositoryState::Clean || facts.statuses is None || !pristine(
            facts.statuses->0@,
        ),
    ensures
        forall|i: int|
            0 <= i <= later.len() ==> !(#[trigger] commands_of(
                spec_start(key_path).0,
                seq![Event::Facts(facts)] + later,
            )[i]).changes_repository(),
{
    lemma_only_a_pull_changes(key_path, facts, later);
}

/// The branch reference is moved only in answer to a merge analysis that
/// found a fast-forward, and only to the commit that was fetched and
/// analysed.
pub proof fn lemma_reference_moves_only_on_fast_forward(stage: Stage, event: Event)
    requires
        spec_step(stage, event).1 is MoveReference,
    ensures
        stage is Analyzing,
        event is Analyzed,
        event->Analyzed_0 is Some,
        result_of_flags(event->Analyzed_0->0) == MergeAnalysisResult::FastForward,
        spec_step(stage, event).1->MoveReference_target == stage->Analyzing_target,
        spec_step(stage, event).1->MoveReference_name == stage->Analyzing_head_name,
{
}

/// Where the merge analysis is that of the history `g`, the branch reference
/// is moved only to a commit that descends from the local tip and is another
/// commit than it.
pub proof fn lemma_reference_moves_only_to_descendant(
    g: Seq<Seq<usize>>,
    local: Option<usize>,
    fetched: usize,
    head_name: String,
    target: CommitId,
)
    requires
        spec_step(
            (Stage::Analyzing { head_name, target }),
            Event::Analyzed(Some(analysis_of(g, local, fetched).spec_flags())),
        ).1 is MoveReference,
    ensures
        local is Some,
        is_ancestor(g, local->0 as int, fetched as int),
        local->0 != fetched,
{
    lemma_flags_round_trip(analysis_of(g, local, fetched));
    lemma_fast_forward_only_to_descendant(g, local, fetched);
}

/// A merge analysis that finds the branch up to date ends the pipeline with
/// that report, and nothing is changed then or later.
pub proof fn lemma_up_to_date_changes_nothing(
    head_name: String,
    target: CommitId,
    bits: u32,
    later: Seq<Event>,
)
    requires
        result_of_flags(bits) == MergeAnalysisResult::UpToDate,
    ensures
        spec_step((Stage::Analyzing { head_name, target }), Event::Analyzed(Some(bits))) == finish(
            Report::UpToDate,
        ),
        forall|i: int|
            0 <= i <= later.len() ==> !(#[trigger] commands_of(
                (Stage::Analyzing { head_name, target }),
                seq![Event::Analyzed(Some(bits))] + later,
            )[i]).changes_repository(),
{
    let stage = Stage::Analyzing { head_name, target };
    let events = seq![Event::Analyzed(Some(bits))] + later;
    assert(events[0] == Event::Analyzed(Some(bits)));
    assert(events.drop_first() =~= later);
    lemma_run_keeps_unchanged(spec_step(stage, events[0]).0, later);
}

/// Fast-forwarding twice is fast-forwarding once: when the local tip has
/// been moved to the fetched tip, the analysis of the same two tips in the
/// history `g` says "up to date", and the pipeline ends without a change.
pub proof fn lemma_second_run_is_up_to_date(
    g: Seq<Seq<usize>>,
    fetched: usize,
    head_name: String,
    target: CommitId,
    later: Seq<Event>,
)
    ensures
        analysis_of(g, Some(fetched), fetched) == MergeAnalysisResult::UpToDate,
        spec_step(
            (Stage::Analyzing { head_name, target }),
            Event::Analyzed(Some(analysis_of(g, Some(fetched), fetched).spec_flags())),
        ) == finish(Report::UpToDate),
        forall|i: int|
            0 <= i <= later.len() ==> !(#[trigger] commands_of(
                (Stage::Analyzing { head_name, target }),
                seq![Event::Analyzed(Some(analysis_of(g, Some(fetched), fetched).spec_flags()))]
                    + later,
            )[i]).changes_repository(),
{
    lemma_flags_round_trip(MergeAnalysisResult::UpToDate);
    lemma_up_to_date_changes_nothing(
        head_name,
        target,
        MergeAnalysisResult::UpToDate.spec_flags(),
        later,
    );
}

/// A stage in which the branch reference has been moved while HEAD or the
/// working tree may still be behind.
pub open spec fn reference_moved(stage: Stage) -> bool {
    stage is SettingHead || stage is CheckingOut
}

/// Once the branch reference has been moved, the pipeline ends either with
/// the fast-forward complete or in an error: never with a report that hides
/// a working tree left behind.
pub proof fn lemma_moved_reference_is_never_hidden(stage: Stage, event: Event)
    requires
        reference_moved(stage),
    ensures
        reference_moved(spec_step(stage, event).0) || spec_step(stage, event).0 == Stage::Finished(
            Report::FastForwarded,
        ) || (spec_step(stage, event).0 is Finished && spec_step(
            stage,
            event,
        ).0->Finished_0.is_error()),
        event == Event::Done(false) ==> spec_step(stage, event).0 is Finished && spec_step(
            stage,
            event,
        ).0->Finished_0.needs_manual_recovery(),
{
}

/// A pipeline ends with a complete fast-forward only when the checkout, the
/// last of the three steps, has succeeded.
pub proof fn lemma_fast_forwarded_after_checkout(stage: Stage, event: Event)
    requires
        !(stage is Finished),
        spec_step(stage, event).0 == Stage::Finished(Report::FastForwarded),
    ensures
        stage is CheckingOut,
        event == Event::Done(true),
{
}

} // verus!
