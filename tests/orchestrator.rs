use proxy_installer::orchestrator::{
    InstallationResult, Orchestrator, Phase, RunAction, RunEvent, Step, StepStatus,
};
use proxy_installer::{DependencyKind, DependencyStatus, DetectionResults};

fn found(s: &str) -> DependencyStatus {
    DependencyStatus::Found(s.to_string())
}

fn results(missing: [bool; 4]) -> DetectionResults {
    let st = |m: bool| if m { DependencyStatus::NotFound } else { found("x") };
    DetectionResults { python: st(missing[0]), nodejs: st(missing[1]), git: st(missing[2]), agent: st(missing[3]) }
}

#[test]
fn all_found_goes_straight_to_payload() {
    let (run, events) = Orchestrator::start(&results([false; 4]));
    assert_eq!(run.action(), RunAction::InstallPayload);
    assert_eq!(run.phase, Phase::InstallingPayload);
    assert_eq!(events.len(), 5);
    assert!(events[..4].iter().all(|e| e.status == StepStatus::Completed));
    assert_eq!(events[4].step, Step::Payload);
    assert_eq!(events[4].percent, 80);
}

#[test]
fn second_failure_stops_the_run() {
    let (mut run, _) = Orchestrator::start(&results([true; 4]));
    assert_eq!(run.action(), RunAction::Acquire(DependencyKind::ScriptRuntime));
    run.advance(RunEvent::Acquired);
    assert_eq!(run.action(), RunAction::Acquire(DependencyKind::ManagedRuntime));
    let ev = run.advance(RunEvent::AcquisitionFailed("download failed".to_string()));
    assert_eq!(ev.len(), 1);
    assert_eq!(ev[0].status, StepStatus::Failed);
    assert_eq!(run.action(), RunAction::Stop);
    for later in [RunEvent::Acquired, RunEvent::PayloadInstalled, RunEvent::Finalized] {
        assert!(run.advance(later).is_empty());
        assert_eq!(run.action(), RunAction::Stop);
    }
    match run.outcome() {
        Some(InstallationResult::Failure(f)) => {
            assert_eq!(f.step, Step::Dependency(DependencyKind::ManagedRuntime));
            assert_eq!(f.cause, "download failed");
        }
        _ => panic!("run should have failed"),
    }
}

#[test]
fn full_run_reaches_done_with_rising_percent() {
    let (mut run, mut all) = Orchestrator::start(&results([true, false, true, false]));
    let mut actions = vec![];
    loop {
        let a = run.action();
        let ev = match a {
            RunAction::Acquire(_) => RunEvent::Acquired,
            RunAction::InstallPayload => RunEvent::PayloadInstalled,
            RunAction::Finalize => RunEvent::Finalized,
            RunAction::Stop => break,
        };
        actions.push(a);
        all.extend(run.advance(ev));
    }
    assert_eq!(
        actions,
        vec![
            RunAction::Acquire(DependencyKind::ScriptRuntime),
            RunAction::Acquire(DependencyKind::VersionControl),
            RunAction::InstallPayload,
            RunAction::Finalize,
        ]
    );
    assert!(matches!(run.outcome(), Some(InstallationResult::Success)));
    assert!(all.windows(2).all(|w| w[0].percent <= w[1].percent));
    assert_eq!(all.last().unwrap().percent, 100);
    assert_eq!(all[0].percent, 22);
}

#[test]
fn payload_failure_is_fatal() {
    let (mut run, _) = Orchestrator::start(&results([false; 4]));
    run.advance(RunEvent::PayloadFailed("disk full".to_string()));
    assert_eq!(run.phase, Phase::Failed);
    match run.outcome() {
        Some(InstallationResult::Failure(f)) => {
            assert_eq!(f.step, Step::Payload);
            assert_eq!(f.cause, "disk full");
        }
        _ => panic!("run should have failed"),
    }
}

#[test]
fn event_that_does_not_fit_changes_nothing() {
    let (mut run, _) = Orchestrator::start(&results([true, true, false, false]));
    assert!(run.advance(RunEvent::PayloadInstalled).is_empty());
    assert_eq!(run.action(), RunAction::Acquire(DependencyKind::ScriptRuntime));
    assert!(run.outcome().is_none());
}
