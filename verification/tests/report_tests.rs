use githerder::classify::SkipReason;
use githerder::fetch::FetchError;
use githerder::report::{aggregate, combine, ExitStatus, Failure, Report};

#[test]
fn run_over_nothing_succeeds() {
    assert_eq!(aggregate(&vec![]), ExitStatus::Success);
}

#[test]
fn skips_and_needed_merges_are_no_errors() {
    let reports = vec![
        Report::Skipped(SkipReason::DetachedHead),
        Report::MergeNeeded,
        Report::UpToDate,
        Report::FastForwarded,
        Report::FetchedOnly,
    ];
    for r in &reports {
        assert!(!r.is_error());
    }
    assert_eq!(aggregate(&reports), ExitStatus::Success);
}

#[test]
fn one_failed_fetch_fails_the_run() {
    let reports = vec![
        Report::FastForwarded,
        Report::Failed(Failure::Fetch(FetchError::Network)),
        Report::UpToDate,
        Report::MergeNeeded,
    ];
    assert_eq!(aggregate(&reports), ExitStatus::Failure);
}

#[test]
fn failure_is_found_wherever_it_stands() {
    let failed = Report::Failed(Failure::Checkout);
    assert_eq!(aggregate(&vec![failed, Report::UpToDate]), ExitStatus::Failure);
    assert_eq!(aggregate(&vec![Report::UpToDate, failed]), ExitStatus::Failure);
    assert_eq!(aggregate(&vec![failed]), ExitStatus::Failure);
}

#[test]
fn every_failure_is_an_error() {
    let failures = [
        Failure::Fetch(FetchError::Auth),
        Failure::Fetch(FetchError::Network),
        Failure::Fetch(FetchError::RefNotFound),
        Failure::Fetch(FetchError::Other),
        Failure::Analysis,
        Failure::ReferenceUpdate,
        Failure::HeadUpdate,
        Failure::Checkout,
        Failure::UnexpectedEvent,
    ];
    for f in failures {
        assert!(Report::Failed(f).is_error());
    }
}

#[test]
fn combine_is_a_logical_or_of_failures() {
    let ok = ExitStatus::Success;
    let failed = ExitStatus::Failure;
    assert_eq!(combine(ok, ok), ok);
    assert_eq!(combine(ok, failed), failed);
    assert_eq!(combine(failed, ok), failed);
    assert_eq!(combine(failed, failed), failed);
}

#[test]
fn manual_recovery_only_after_the_reference_moved() {
    assert!(Report::Failed(Failure::HeadUpdate).needs_manual_recovery());
    assert!(Report::Failed(Failure::Checkout).needs_manual_recovery());
    assert!(!Report::Failed(Failure::ReferenceUpdate).needs_manual_recovery());
    assert!(!Report::Failed(Failure::Fetch(FetchError::Auth)).needs_manual_recovery());
    assert!(!Report::FastForwarded.needs_manual_recovery());
}
