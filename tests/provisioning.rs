use jellysetup::install::{
    after_pull, check_convergence, classify_update, count_running, runtime_present, standard_plan,
    FailurePolicy, InstallDirective, InstallError, InstallRun, PullDecision, RunStatus, StepKind,
    UpdateDecision, UpdateProbe, UpdateWait, BRING_UP_STEP,
};
use jellysetup::poller::{PollOutcome, Poller};
use jellysetup::session::{CommandStep, SessionError, SessionManager, SessionStep};
use jellysetup::compose::expected_containers;

#[test]
fn reconnect_after_reboot_within_ceiling() {
    let mut p = Poller::new(30, 5);
    for _ in 0..7 {
        assert_eq!(p.record(false), PollOutcome::Retry);
    }
    assert_eq!(p.record(true), PollOutcome::Ready);
    assert_eq!(p.attempts, 8);
    assert!(p.attempts <= p.max_attempts);
}

#[test]
fn poller_times_out_at_ceiling() {
    let mut p = Poller::new(3, 5);
    assert_eq!(p.record(false), PollOutcome::Retry);
    assert_eq!(p.record(false), PollOutcome::Retry);
    assert_eq!(p.record(false), PollOutcome::TimedOut);
}

#[test]
fn under_provisioned_bring_up_is_fatal() {
    let listing = "a1\nb2\nc3\n";
    let running = count_running(listing);
    assert_eq!(running, 3);
    let expected = expected_containers(None);
    assert_eq!(expected, 9);
    assert_eq!(
        check_convergence(running, expected),
        Err(InstallError::ConvergenceShortfall { running: 3, expected: 9 })
    );
    let (mut run, first) = InstallRun::start(standard_plan());
    assert_eq!(first.directive, InstallDirective::Run(0));
    for _ in 0..BRING_UP_STEP {
        run.record(true);
    }
    assert_eq!(run.current().kind, StepKind::BringUp);
    let d = run.record(check_convergence(running, expected).is_ok());
    assert_eq!(d.directive, InstallDirective::Abort(BRING_UP_STEP));
    assert_eq!(run.status(), RunStatus::Aborted);
}

#[test]
fn soft_service_failure_still_completes() {
    let plan = standard_plan();
    let n = plan.len();
    let (mut run, _) = InstallRun::start(plan);
    let mut ran = vec![0usize];
    let mut last = None;
    for i in 0..n {
        let fail = matches!(run.current().kind, StepKind::ConfigureService(_)) && i == 9;
        let d = run.record(!fail);
        if let InstallDirective::Run(k) = d.directive {
            ran.push(k);
        }
        last = Some(d);
    }
    assert_eq!(run.status(), RunStatus::Complete);
    assert_eq!(last.unwrap().directive, InstallDirective::Complete);
    assert_eq!(last.unwrap().percent, 100);
    assert_eq!(ran, (0..n).collect::<Vec<_>>());
    assert_eq!(run.soft_failures(), &vec![9]);
}

#[test]
fn plan_shape() {
    let plan = standard_plan();
    assert_eq!(plan.len(), 14);
    assert_eq!(plan[BRING_UP_STEP].kind, StepKind::BringUp);
    assert!(plan[..=BRING_UP_STEP].iter().all(|s| s.policy == FailurePolicy::Fatal));
    assert!(plan[BRING_UP_STEP + 1..].iter().all(|s| s.policy == FailurePolicy::Soft));
    let total: u32 = plan.iter().map(|s| s.weight).sum();
    assert_eq!(total, 100);
}

#[test]
fn progress_follows_weights() {
    let (mut run, _) = InstallRun::start(standard_plan());
    assert_eq!(run.record(true).percent, 15);
    assert_eq!(run.record(true).percent, 25);
}

#[test]
fn update_lock_wait_then_repair_then_timeout() {
    assert_eq!(classify_update("E: Could not get lock /var/lib/dpkg/lock-frontend"), UpdateProbe::LockBusy);
    assert_eq!(classify_update("all good\nUPDATE_DONE\n"), UpdateProbe::Finished);
    assert_eq!(classify_update("Reading package lists..."), UpdateProbe::Running);
    let mut w = UpdateWait::new(2);
    assert_eq!(w.record(UpdateProbe::LockBusy), UpdateDecision::Wait);
    assert_eq!(w.record(UpdateProbe::LockBusy), UpdateDecision::Repair);
    assert_eq!(w.record(UpdateProbe::Running), UpdateDecision::Wait);
    assert_eq!(w.record(UpdateProbe::LockBusy), UpdateDecision::Fail(InstallError::PackageLockTimeout));
    let mut w = UpdateWait::new(2);
    assert_eq!(w.record(UpdateProbe::Finished), UpdateDecision::Done);
}

#[test]
fn pull_retries_up_to_ceiling() {
    assert_eq!(after_pull(1, false), PullDecision::Retry);
    assert_eq!(after_pull(2, false), PullDecision::Retry);
    assert_eq!(after_pull(3, false), PullDecision::Fail(InstallError::PullFailed));
    assert_eq!(after_pull(3, true), PullDecision::Done);
}

#[test]
fn runtime_version_predicate() {
    assert!(runtime_present("Docker version 24.0.7, build afdd53b"));
    assert!(!runtime_present("bash: docker: command not found"));
}

#[test]
fn containers_counted_per_line() {
    assert_eq!(count_running(""), 0);
    assert_eq!(count_running("a\n\nb"), 2);
    assert_eq!(expected_containers(Some("")), 9);
    assert_eq!(expected_containers(Some("tok")), 10);
    assert_eq!(check_convergence(10, 9), Ok(()));
}

#[test]
fn session_reuse_and_replacement() {
    let mut s = SessionManager::new();
    assert_eq!(s.ensure_session("10.0.0.2", "pi"), SessionStep::Connect);
    assert_eq!(s.connect_result("10.0.0.2", "pi", 1, false, false), SessionStep::RetryAfter(2));
    assert_eq!(s.connect_result("10.0.0.2", "pi", 2, true, true), SessionStep::Ready);
    assert!(s.has_session_for("10.0.0.2", "pi"));
    assert_eq!(s.ensure_session("10.0.0.2", "pi"), SessionStep::Probe);
    assert_eq!(s.probe_result(true), SessionStep::Ready);
    assert_eq!(s.command_result(true, false), CommandStep::Deliver);
    assert_eq!(s.command_count(), 1);
    assert_eq!(s.ensure_session("10.0.0.3", "pi"), SessionStep::Connect);
    assert!(!s.has_session_for("10.0.0.2", "pi"));
}

#[test]
fn session_failures() {
    let mut s = SessionManager::new();
    assert_eq!(s.connect_result("h", "u", 3, false, false), SessionStep::Fail(SessionError::ConnectFailed));
    assert_eq!(s.connect_result("h", "u", 1, true, false), SessionStep::Fail(SessionError::AuthFailed));
    s.connect_result("h", "u", 1, true, true);
    assert_eq!(s.command_result(false, false), CommandStep::ReconnectAndRetry);
    assert!(!s.has_session_for("h", "u"));
    assert_eq!(s.command_result(false, true), CommandStep::Fail(SessionError::SessionDead));
    s.connect_result("h", "u", 1, true, true);
    assert_eq!(s.ensure_session("h", "u"), SessionStep::Probe);
    assert_eq!(s.probe_result(false), SessionStep::Connect);
    s.close();
    assert!(!s.has_session_for("h", "u"));
}

#[test]
fn step_tags_for_the_observer() {
    let tags: Vec<&str> = standard_plan().iter().map(|s| s.kind.tag()).collect();
    assert_eq!(tags[0], "update");
    assert_eq!(tags[1], "docker");
    assert_eq!(tags[2], "reboot");
    assert_eq!(tags[BRING_UP_STEP], "compose_up");
    assert_eq!(tags[8], "config");
    let p = jellysetup::progress::FlashProgress::named("update", 15, "x");
    assert_eq!((p.step.as_str(), p.percent, p.speed), ("update", 15, None));
}

#[test]
fn reboot_only_after_fresh_install() {
    assert!(jellysetup::install::reboot_required(false));
    assert!(!jellysetup::install::reboot_required(true));
}
