//! Launching a worker.
use model_permits::authority::{IssueReads, PermitLease, PermitState};
use model_permits::control::{broker_control, ControlRequest};
use model_permits::dispatch::{model_permit_accounting, DispatchReads};
use model_permits::errors::PermitError;
use model_permits::events::{Actor, EventEnvelope, EventKind};
use model_permits::launch::{
    begin_launch, channel_ended, check_build_pin, check_paths, claim_launch, fail_candidates,
    key_of_launch, prepare_launch, registered_worker, retention_gap, settle_claim,
    validate_execution, Abandonment, ClaimReads, Cleanup, Evaluation, ExecutionPhase,
    ExecutionRecord, Launch, LaunchAction, LaunchEvent, LaunchGuard, LaunchResult, PrepareReads,
    Waited, WorkRequest, WorkStanding,
};
use model_permits::ledger::{Hold, Ledger, Usage};
use model_permits::model::{
    Admission, AdmittedWork, DispatchState, Pool, RequestClass, RequestEstimate,
    RequestReservation, Units, WorkIdentity,
};

fn request() -> RequestReservation {
    RequestReservation {
        identity: WorkIdentity {
            campaign_id: "campaign".into(),
            work_id: "work".into(),
            attempt_id: "attempt-1".into(),
            generation: 1,
            instruction_revision: 1,
            class: RequestClass::Work,
        },
        estimate: RequestEstimate {
            base_url: "https://example.invalid".into(),
            model: "fake".into(),
            provider: "fake".into(),
            pricing_revision: "1".into(),
            max_request_bytes: 1000,
            input_tokens: 20,
            output_tokens: 10,
            input_micro_usd_per_million: 1_000_000,
            output_micro_usd_per_million: 1_000_000,
            other_micro_usd: 0,
        },
    }
}

fn funding() -> AdmittedWork {
    AdmittedWork {
        dispatch_id: "dispatch".into(),
        admission: Admission {
            work_id: "work".into(),
            campaign_id: "campaign".into(),
            objective: "bounded".into(),
            generation: 1,
            instruction_revision: 1,
            pool: Pool::Work,
            upper_bound: Units { tokens: 100, cost_micro_usd: 100 },
        },
        state: DispatchState::Registered { worker_id: "worker".into() },
    }
}

fn reads() -> IssueReads {
    IssueReads { bound: Ok(()), funding: Ok(()), revision: Ok(1) }
}

fn broken<T>() -> Result<T, String> {
    Err("broken".to_string())
}

fn host_error() -> PermitError {
    PermitError::Host("broken".to_string())
}

fn work(attempt: Option<&str>) -> WorkRequest {
    WorkRequest {
        work_id: "work".into(),
        objective: "bounded".into(),
        generation: 1,
        assignment: 1,
        deadline_ms: 5_000,
        context_refs: 0,
        attempt: attempt.map(str::to_string),
        content: format!("{{\"attempt\":{attempt:?}}}"),
    }
}

fn execution(attempt: Option<&str>) -> ExecutionRecord {
    ExecutionRecord {
        work: work(attempt),
        funding: funding(),
        model: request(),
        phase: ExecutionPhase::ExecutingUnknown,
        settled: false,
    }
}

fn ledger_of(usage: Usage, cancellation_requested: bool, paused: bool) -> Ledger {
    Ledger::new(
        vec![("dispatch".into(), Hold { allocation: None, usage, cancellation_requested })],
        vec![("dispatch".into(), false)],
        paused,
    )
}

fn ledger() -> Ledger {
    ledger_of(Usage::Unknown, false, false)
}

fn claim_reads() -> ClaimReads {
    ClaimReads {
        funding: Ok(()),
        ledger: Ok(ledger()),
        execution: Ok(None),
        launched: Ok(false),
    }
}

fn begin(change: impl Fn(&mut WorkRequest), now: u64, now_ms: u128) -> Result<u64, PermitError> {
    let mut work = work(Some("attempt-1"));
    change(&mut work);
    begin_launch(&funding(), &request(), &work, now, 1_000, now_ms, true, true)
}

#[test]
fn unauthorized_and_expired_launches_never_begin() {
    assert_eq!(begin(|_| {}, 100, 4_500), Ok(600));
    assert_eq!(begin(|_| {}, 100, 1), Ok(1_000));
    assert_eq!(begin(|work| work.deadline_ms = u64::MAX, 100, 0), Ok(1_000));
    let refused = Err(PermitError::Protocol);
    assert_eq!(begin(|_| {}, 1_000, 4_500), refused);
    assert_eq!(begin(|_| {}, 100, 5_000), refused);
    assert_eq!(begin(|_| {}, 100, u128::from(u64::MAX) + 1), refused);
    assert_eq!(begin(|work| work.work_id = "other".into(), 100, 1), refused);
    assert_eq!(begin(|work| work.generation = 2, 100, 1), refused);
    assert_eq!(begin(|work| work.objective = "other".into(), 100, 1), refused);
    assert_eq!(begin(|work| work.assignment = 0, 100, 1), refused);
    assert_eq!(begin(|work| work.context_refs = 5, 100, 1), refused);
    assert_eq!(begin(|work| work.context_refs = 4, 100, 1), Ok(1_000));
    assert_eq!(begin(|work| work.attempt = Some("attempt-2".into()), 100, 1), refused);
    assert_eq!(begin(|work| work.attempt = None, 100, 1), Ok(1_000));
    for (refs_valid, absolute) in [(false, true), (true, false)] {
        assert_eq!(
            begin_launch(&funding(), &request(), &work(None), 0, 1_000, 1, refs_valid, absolute),
            refused
        );
    }
}

fn path(text: &str) -> Vec<String> {
    text.split('/').skip(1).map(str::to_string).collect()
}

#[test]
fn a_worker_stays_apart_from_the_traces() {
    let check = |workspace: &str, home: &str| {
        check_paths(&path("/data/traces"), &path(workspace), &path(home))
    };
    assert_eq!(check("/data/work", "/home/x"), Ok(()));
    assert_eq!(check("/data/traces2", "/home/x"), Ok(()));
    for overlap in ["/data", "/data/traces", "/data/traces/inner"] {
        assert_eq!(check(overlap, "/home/x"), Err(PermitError::Protocol));
        assert_eq!(check("/data/work", overlap), Err(PermitError::Protocol));
    }
}

#[test]
fn launch_requires_the_current_persisted_execution() {
    let check = |record, attempt| {
        validate_execution(record, &funding(), &request(), &work(attempt))
    };
    let typed = Some("attempt-1");
    let refused = Err(PermitError::Protocol);
    assert_eq!(check(Ok(None), None), Ok(()));
    assert_eq!(check(Ok(None), typed), refused);
    assert_eq!(check(Ok(Some(execution(typed))), typed), Ok(()));
    // Dropping the attempt does not go around the execution.
    assert_eq!(check(Ok(Some(execution(typed))), None), refused);
    assert_eq!(check(broken(), None), Err(host_error()));
    let mut settled = execution(typed);
    settled.settled = true;
    assert_eq!(check(Ok(Some(settled)), typed), refused);
    let mut reviewed = execution(typed);
    reviewed.phase = ExecutionPhase::Reviewed(Evaluation::Accepted);
    assert_eq!(check(Ok(Some(reviewed)), typed), refused);
    let mut funded = execution(typed);
    funded.funding.state = DispatchState::Registered { worker_id: "other".into() };
    assert_eq!(check(Ok(Some(funded)), typed), refused);
    let mut priced = execution(typed);
    priced.model.estimate.input_tokens += 1;
    assert_eq!(check(Ok(Some(priced)), typed), refused);
}

/// A request that names its attempt and differs from `work` in one part.
fn changed(change: fn(&mut WorkRequest)) -> WorkRequest {
    let mut changed = work(Some("attempt-1"));
    change(&mut changed);
    changed
}

#[test]
fn a_request_that_differs_in_any_part_is_another_one() {
    let own = work(Some("attempt-1"));
    assert!(own.same(&changed(|_| {})));
    assert!(work(None).same(&work(None)));
    for other in [
        changed(|work| work.work_id = "other".into()),
        changed(|work| work.objective = "other".into()),
        changed(|work| work.generation = 2),
        changed(|work| work.assignment = 2),
        changed(|work| work.deadline_ms = 5_001),
        changed(|work| work.context_refs = 1),
        changed(|work| work.attempt = None),
        changed(|work| work.attempt = Some("attempt-2".into())),
        changed(|work| work.content = "{}".into()),
    ] {
        assert!(!own.same(&other) && !other.same(&own));
        let stored = || Ok(Some(execution(Some("attempt-1"))));
        assert_eq!(
            validate_execution(stored(), &funding(), &request(), &other),
            Err(PermitError::Protocol)
        );
        let reads = ClaimReads { execution: stored(), ..claim_reads() };
        assert_eq!(
            claim_launch(&funding(), &request(), &other, reads),
            Err(PermitError::Protocol)
        );
    }
}

#[test]
fn launch_requires_current_persisted_attempt_before_issuing_permit() {
    for mutation in ["current", "unbound", "dropped", "assignment", "model", "terminal"] {
        let mut state = PermitState::new();
        let mut stored = execution(Some("attempt-1"));
        if mutation == "terminal" {
            stored.phase = ExecutionPhase::Reviewed(Evaluation::Unverified);
            stored.settled = true;
        }
        let mut launched_request = request();
        let mut current_work = work(Some("attempt-1"));
        match mutation {
            "dropped" => current_work.attempt = None,
            "assignment" => current_work.assignment += 1,
            "model" => launched_request.estimate.input_tokens += 1,
            _ => {}
        }
        let prepared = prepare_launch(
            &path("/data/traces"),
            &path("/data/work"),
            &path("/home/x"),
            &funding(),
            &launched_request,
            &current_work,
            PrepareReads {
                resources: Ok(()),
                funding: Ok(()),
                execution: Ok(if mutation == "unbound" { None } else { Some(stored) }),
                registered: Ok(DispatchState::Registered { worker_id: "worker".into() }),
            },
        );
        // A permit is issued only once the launch was prepared.
        let permit = prepared.and_then(|_| {
            let typed = current_work.attempt.is_some();
            let work_id = &current_work.work_id;
            state.issue_for_launch(launched_request, funding(), work_id, typed, false, 1, reads())
        });
        assert_eq!(permit.is_ok(), mutation == "current", "{mutation}");
        assert_eq!(state.current_lease("work"), permit.ok().map(|_| 1), "{mutation}");
    }
}

#[test]
fn preparation_reports_the_first_reason() {
    let prepare = |change: fn(&mut PrepareReads)| {
        let mut reads = PrepareReads {
            resources: Ok(()),
            funding: Ok(()),
            execution: Ok(None),
            registered: Ok(DispatchState::Registered { worker_id: "worker".into() }),
        };
        change(&mut reads);
        prepare_launch(
            &path("/data/traces"),
            &path("/data/work"),
            &path("/home/x"),
            &funding(),
            &request(),
            &work(None),
            reads,
        )
    };
    assert_eq!(prepare(|_| {}), Ok("worker".to_string()));
    assert_eq!(prepare(|reads| reads.resources = broken()), Err(host_error()));
    assert_eq!(prepare(|reads| reads.funding = broken()), Err(host_error()));
    assert_eq!(prepare(|reads| reads.registered = broken()), Err(host_error()));
    assert_eq!(
        prepare(|reads| reads.execution = Ok(Some(execution(Some("attempt-1"))))),
        Err(PermitError::Protocol)
    );
    assert_eq!(
        prepare(|reads| reads.registered = Ok(DispatchState::Admitted)),
        Err(PermitError::Protocol)
    );
    assert_eq!(registered_worker(DispatchState::Cancelled), Err(PermitError::Protocol));
    assert_eq!(
        prepare_launch(
            &path("/data"),
            &path("/data/work"),
            &path("/home/x"),
            &funding(),
            &request(),
            &work(None),
            PrepareReads {
                resources: broken(),
                funding: Ok(()),
                execution: Ok(None),
                registered: Ok(DispatchState::Admitted)
            },
        ),
        Err(PermitError::Protocol)
    );
}

#[test]
fn a_launch_is_claimed_once_under_its_key() {
    let claim = |work: &WorkRequest, change: fn(&mut ClaimReads)| {
        let mut reads = claim_reads();
        change(&mut reads);
        claim_launch(&funding(), &request(), work, reads)
    };
    let untyped = work(None);
    assert_eq!(claim(&untyped, |_| {}), Ok("dispatch".to_string()));
    let typed = work(Some("attempt-1"));
    assert_eq!(
        claim(&typed, |reads| reads.execution = Ok(Some(execution(Some("attempt-1"))))),
        Ok("[\"dispatch\",\"attempt-1\"]".to_string())
    );
    assert_eq!(key_of_launch(&funding(), &typed), "[\"dispatch\",\"attempt-1\"]");
    let refused = Err(PermitError::Protocol);
    assert_eq!(claim(&typed, |_| {}), refused);
    assert_eq!(claim(&untyped, |reads| reads.launched = Ok(true)), refused);
    assert_eq!(claim(&untyped, |reads| reads.launched = broken()), Err(host_error()));
    assert_eq!(claim(&untyped, |reads| reads.funding = broken()), Err(host_error()));
    assert_eq!(claim(&untyped, |reads| reads.ledger = broken()), Err(host_error()));
    assert_eq!(
        claim(&untyped, |reads| reads.ledger = Ok(ledger_of(Usage::Unknown, false, true))),
        refused
    );
    assert_eq!(
        claim(&untyped, |reads| reads.ledger = Ok(Ledger::new(Vec::new(), Vec::new(), false))),
        refused
    );
    assert_eq!(
        claim(&untyped, |reads| reads.ledger = Ok(ledger_of(Usage::Unknown, true, false))),
        refused
    );
    let settled = |reads: &mut ClaimReads| {
        let usage = Usage::Final(Units { tokens: 0, cost_micro_usd: 0 });
        reads.ledger = Ok(ledger_of(usage, false, false));
    };
    assert_eq!(claim(&untyped, settled), refused);
}

#[test]
fn failed_spawn_claim_survives_reopen_and_never_launches_replacement() {
    let mut launches: Vec<String> = Vec::new();
    let mut started = 0;
    // Each round is a launch of a daemon that was started anew; only what it stored
    // is left of the rounds before.
    let mut launch = |attempt: Option<&str>, spawns: bool| {
        let mut request = request();
        request.identity.attempt_id = attempt.unwrap_or("attempt-1").to_string();
        let stored = ExecutionRecord { model: request.clone(), ..execution(attempt) };
        let reads = ClaimReads {
            execution: Ok(attempt.map(|_| stored)),
            launched: Ok(launches.contains(&key_of_launch(&funding(), &work(attempt)))),
            ..claim_reads()
        };
        let claim = claim_launch(&funding(), &request, &work(attempt), reads);
        let claimed = claim.is_ok();
        let (launch, _) = Launch::begin(100, true, PermitLease::open(1));
        let (launch, action) = launch.step(LaunchEvent::Prepared(claim.map(|key| {
            launches.push(key);
        })));
        if claimed {
            let (launch, action) = launch.step(checked(false, 0));
            assert_eq!(describe(&action), "spawn");
            started += usize::from(spawns);
            let (_, action) = launch.step(LaunchEvent::Spawned(spawns));
            assert_eq!(describe(&action), if spawns { "run" } else { "refused" });
        } else {
            assert_eq!(describe(&action), "refused");
        }
        (claimed, started)
    };
    assert_eq!(launch(None, false), (true, 0));
    assert_eq!(launch(None, true), (false, 0));
    // Attempts of the allocation have keys of their own, and are started once each.
    assert_eq!(launch(Some("attempt-1"), true), (true, 1));
    assert_eq!(launch(Some("attempt-1"), true), (false, 1));
    assert_eq!(launch(Some("attempt-2"), true), (true, 2));
    assert_eq!(launch(None, true), (false, 2));
    assert_eq!(
        launches,
        ["dispatch", "[\"dispatch\",\"attempt-1\"]", "[\"dispatch\",\"attempt-2\"]"]
    );
}

#[test]
fn a_failed_claim_leaves_a_revoked_permit() {
    let mut state = PermitState::new();
    let permit =
        state.issue_for_launch(request(), funding(), "work", false, false, 7, reads()).unwrap();
    assert!(state.is_authorized(&permit, &request(), false));
    let permit = settle_claim(&mut state, permit, Ok(())).unwrap();
    assert!(state.is_authorized(&permit, &request(), false));
    assert_eq!(
        settle_claim(&mut state, permit, Err(host_error())).err(),
        Some(host_error())
    );
    assert_eq!(state.current_lease("work"), Some(7));
    // The work still has a current capability, which only it can replace.
    assert_eq!(
        state.host_issue_model_permit(request(), funding(), None, reads()).err(),
        Some(PermitError::ReplacementConflict)
    );
}

#[test]
fn typed_attempts_take_over_from_closed_launches_only() {
    let mut state = PermitState::new();
    let first =
        state.issue_for_launch(request(), funding(), "work", true, false, 1, reads()).unwrap();
    assert_eq!(
        state.issue_for_launch(request(), funding(), "work", true, false, 2, reads()).err(),
        Some(PermitError::Protocol)
    );
    assert_eq!(
        state.issue_for_launch(request(), funding(), "work", false, true, 2, reads()).err(),
        Some(PermitError::ReplacementConflict)
    );
    let mut lease = PermitLease::open(1);
    assert!(!lease.is_closed());
    assert!(state.is_authorized(&first, &request(), lease.is_closed()));
    lease.close();
    assert_eq!(lease.id(), 1);
    assert!(!state.is_authorized(&first, &request(), lease.is_closed()));
    let second = state
        .issue_for_launch(request(), funding(), "work", true, lease.is_closed(), 2, reads())
        .unwrap();
    assert!(!state.is_authorized(&first, &request(), false));
    assert!(state.is_authorized(&second, &request(), false));
    assert_eq!(state.current_lease("work"), Some(2));
    assert_eq!(state.current_lease("other"), None);
    // A permit that no launch can close is never taken over.
    let mut state = PermitState::new();
    state.host_issue_model_permit(request(), funding(), None, reads()).unwrap();
    assert_eq!(
        state.issue_for_launch(request(), funding(), "work", true, true, 2, reads()).err(),
        Some(PermitError::Protocol)
    );
}

#[test]
fn a_continuation_runs_the_pinned_binary() {
    let digest = "ba7816bf8f01cfea414140de5dae2223b00361a396177a9cb410ff61f20015ad".to_string();
    assert_eq!(check_build_pin(b"abc", &digest), Ok(()));
    let refused = check_build_pin(b"abd", &digest).unwrap_err();
    assert_eq!(
        refused.message(),
        "continuation configuration mismatch: actual launched binary build pin"
    );
    assert!(check_build_pin(b"abc", &digest.to_uppercase()).is_err());
}

#[test]
fn an_abandoned_worker_keeps_its_slots() {
    let guard = |running| LaunchGuard {
        running,
        holds_execution: true,
        holds_residency: true,
        lease: PermitLease::open(3),
    };
    let mut lost = guard(true);
    assert_eq!(
        lost.abandon(),
        Abandonment { retain_execution: true, retain_residency: true, kill: true }
    );
    assert!(lost.lease.is_closed());
    assert_eq!(
        lost.abandon(),
        Abandonment { retain_execution: false, retain_residency: false, kill: true }
    );
    let mut reaped = guard(true);
    reaped.reaped();
    assert_eq!(
        reaped.abandon(),
        Abandonment { retain_execution: false, retain_residency: false, kill: false }
    );
    assert!(reaped.lease.is_closed());
}

fn describe(action: &LaunchAction) -> &'static str {
    match action {
        LaunchAction::AdmitResidency => "residency",
        LaunchAction::AdmitExecution => "execution",
        LaunchAction::Prepare => "prepare",
        LaunchAction::CheckCancellation => "check",
        LaunchAction::Spawn => "spawn",
        LaunchAction::Run => "run",
        LaunchAction::KillAndReap => "kill",
        LaunchAction::RecordGap => "gap",
        LaunchAction::Settle => "settle",
        LaunchAction::Finish(LaunchResult::Nothing) => "nothing",
        LaunchAction::Finish(LaunchResult::Events) => "events",
        LaunchAction::Finish(LaunchResult::FailedEvents) => "failed events",
        LaunchAction::Finish(LaunchResult::Refused(_)) => "refused",
        LaunchAction::Ignore => "ignore",
    }
}

fn run(admitted: bool, events: Vec<LaunchEvent>) -> (Vec<&'static str>, Option<PermitError>) {
    let (mut launch, action) = Launch::begin(100, admitted, PermitLease::open(7));
    let mut names = vec![describe(&action)];
    let mut error = None;
    for event in events {
        let (next, action) = launch.step(event);
        launch = next;
        names.push(describe(&action));
        // The lease is closed from the killing of the worker on, and on every way out.
        let fenced = names.iter().any(|name| {
            ["kill", "nothing", "events", "failed events", "refused"].contains(name)
        });
        assert_eq!(launch.lease.is_closed(), fenced, "{names:?}");
        assert_eq!(launch.lease.id(), 7);
        if let LaunchAction::Finish(LaunchResult::Refused(reason)) = action {
            error = Some(reason);
        }
    }
    (names, error)
}

fn slot() -> LaunchEvent {
    LaunchEvent::Waited(Waited::Answered(Ok(())))
}

fn checked(cancelled: bool, now: u64) -> LaunchEvent {
    LaunchEvent::Checked { cancelled, now }
}

fn prepared() -> LaunchEvent {
    LaunchEvent::Prepared(Ok(()))
}

fn reaped(success: bool) -> LaunchEvent {
    LaunchEvent::Reaped { exit: Some(success), cleanup: Cleanup::Killed }
}

#[test]
fn a_launch_that_goes_well() {
    let (names, _) = run(
        false,
        vec![
            slot(),
            slot(),
            prepared(),
            checked(false, 99),
            LaunchEvent::Spawned(true),
            LaunchEvent::Ran(Ok(())),
            LaunchEvent::Reaped { exit: Some(true), cleanup: Cleanup::Gone },
            LaunchEvent::Settled(Ok(false)),
            slot(),
        ],
    );
    assert_eq!(
        names,
        [
            "residency",
            "execution",
            "prepare",
            "check",
            "spawn",
            "run",
            "kill",
            "settle",
            "events",
            "ignore"
        ]
    );
}

#[test]
fn a_launch_that_starts_nothing() {
    let (names, _) = run(true, vec![prepared(), checked(true, 0), prepared()]);
    assert_eq!(names, ["prepare", "check", "nothing", "ignore"]);
    let (names, error) = run(true, vec![prepared(), checked(false, 100)]);
    assert_eq!((names[2], error), ("refused", Some(PermitError::Protocol)));
    let (names, error) =
        run(true, vec![prepared(), checked(false, 0), LaunchEvent::Spawned(false)]);
    assert_eq!((names[3], error), ("refused", Some(PermitError::Protocol)));
    let (_, error) = run(true, vec![LaunchEvent::Prepared(Err(host_error()))]);
    assert_eq!(error, Some(host_error()));
    let (_, error) = run(false, vec![LaunchEvent::Waited(Waited::Cancelled)]);
    assert_eq!(error.unwrap().message(), "host capacity admission cancelled before spawn");
    let (_, error) = run(false, vec![slot(), LaunchEvent::Waited(Waited::Deadline)]);
    assert_eq!(error.unwrap().message(), "host capacity admission deadline elapsed");
    let (_, error) = run(false, vec![LaunchEvent::Waited(Waited::Answered(broken()))]);
    assert_eq!(error, Some(host_error()));
}

#[test]
fn cancelled_preparation_cannot_leave_live_permit_or_spawn() {
    // The deadline passed while the permit was being issued; or the owner went away.
    for dropped in [false, true] {
        let (launch, _) = Launch::begin(100, true, PermitLease::open(7));
        let launch = if dropped {
            let mut launch = launch;
            launch.abandon();
            launch
        } else {
            let (launch, action) =
                launch.step(LaunchEvent::Prepared(Err(PermitError::Protocol)));
            assert_eq!(describe(&action), "refused");
            launch
        };
        let mut state = PermitState::new();
        let permit =
            state.issue_for_launch(request(), funding(), "work", false, false, 7, reads()).unwrap();
        let permit = settle_claim(&mut state, permit, Ok(())).unwrap();
        let closed = launch.lease.closes(state.grant(&permit).unwrap());
        assert!(closed && !state.is_authorized(&permit, &request(), closed));
        let accounting = model_permit_accounting(Some(&permit), "after-cancel").unwrap();
        let nothing = || DispatchReads {
            funding: Ok(()),
            revision: Ok(1),
            prior: Ok(None),
            ledger: Ok(ledger()),
            available: Ok(()),
        };
        assert_eq!(
            accounting.reserve_only(&state, &request(), closed, nothing()).err(),
            Some(PermitError::RevokedOrMismatched)
        );
        assert_eq!(
            accounting.reserve(&state, &request(), closed, nothing()).err(),
            Some(PermitError::RevokedOrMismatched)
        );
        assert_eq!(
            broker_control(
                &state,
                &permit,
                &request(),
                ControlRequest::List,
                closed,
                Ok(()),
                Ok(()),
                Ok(())
            )
            .err(),
            Some(PermitError::RevokedControl)
        );
        // What comes after does not start a worker.
        let (_, action) = launch.step(prepared());
        assert_eq!(describe(&action), "ignore");
    }
}

fn running() -> Vec<LaunchEvent> {
    vec![prepared(), checked(false, 0), LaunchEvent::Spawned(true)]
}

fn after_running(events: Vec<LaunchEvent>) -> (Vec<&'static str>, Option<PermitError>) {
    let mut all = running();
    all.extend(events);
    let (names, error) = run(true, all);
    (names[4..].to_vec(), error)
}

#[test]
fn what_ends_badly_leaves_a_gap() {
    let (names, _) = after_running(vec![
        LaunchEvent::Ran(Ok(())),
        reaped(false),
        LaunchEvent::GapRecorded(Ok(())),
        LaunchEvent::Settled(Ok(false)),
    ]);
    assert_eq!(names, ["kill", "gap", "settle", "failed events"]);
    let (names, _) = after_running(vec![
        LaunchEvent::CancelRequested,
        reaped(true),
        LaunchEvent::GapRecorded(Ok(())),
        LaunchEvent::Settled(Ok(false)),
    ]);
    assert_eq!(names, ["kill", "gap", "settle", "nothing"]);
    let (names, error) = after_running(vec![
        LaunchEvent::Ran(Err(PermitError::UnknownPermit)),
        reaped(true),
        LaunchEvent::GapRecorded(Ok(())),
        LaunchEvent::Settled(Ok(false)),
    ]);
    assert_eq!(names, ["kill", "gap", "settle", "refused"]);
    assert_eq!(error, Some(PermitError::UnknownPermit));
    let (names, _) = after_running(vec![
        LaunchEvent::Ran(Err(PermitError::Protocol)),
        reaped(false),
        LaunchEvent::GapRecorded(Ok(())),
        LaunchEvent::Settled(Ok(true)),
    ]);
    assert_eq!(names, ["kill", "gap", "settle", "nothing"]);
    let (_, error) = after_running(vec![
        LaunchEvent::Ran(Ok(())),
        reaped(false),
        LaunchEvent::GapRecorded(broken()),
    ]);
    assert_eq!(error, Some(host_error()));
    let (_, error) = after_running(vec![
        LaunchEvent::Ran(Ok(())),
        reaped(true),
        LaunchEvent::Settled(broken()),
    ]);
    assert_eq!(error, Some(host_error()));
    for lost in [
        LaunchEvent::Reaped { exit: None, cleanup: Cleanup::Killed },
        LaunchEvent::Reaped { exit: Some(true), cleanup: Cleanup::Failed },
    ] {
        let (_, error) = after_running(vec![LaunchEvent::Ran(Ok(())), lost]);
        assert_eq!(error, Some(PermitError::Protocol));
    }
}

#[test]
fn results_of_a_failed_worker_are_failures() {
    let event = |event_id, kind| EventEnvelope {
        event_id,
        session_id: "worker".into(),
        task_id: Some("worker".into()),
        actor: Actor::Worker { id: "worker".into() },
        conversation_id: None,
        parent_task_id: None,
        kind,
        content: event_id * 10,
    };
    let reported = fail_candidates(vec![
        event(1, EventKind::Other),
        event(2, EventKind::WorkCandidate { failure: None }),
    ]);
    assert!(matches!(reported[0].kind, EventKind::Other));
    assert!(matches!(
        &reported[1].kind,
        EventKind::WorkCandidate { failure: Some(message) } if message == "worker exited unsuccessfully"
    ));
    assert_eq!(reported[1].content, 20);
}

#[test]
fn a_parked_worker_has_nothing_more_to_say() {
    let standing = |waits, cancellation_requested| {
        channel_ended(Some(WorkStanding { waits, cancellation_requested }))
    };
    assert_eq!(standing(false, false), Ok(()));
    assert_eq!(standing(true, false), Err(PermitError::Protocol));
    assert_eq!(standing(false, true), Err(PermitError::Protocol));
    assert_eq!(channel_ended(None), Ok(()));
    let gap: serde_json::Value = serde_json::from_str(&retention_gap()).unwrap();
    assert_eq!(gap["full_retention"], false);
}
