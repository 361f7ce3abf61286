//! Control, waits, exports, lookups and contexts.
use model_permits::authority::{IssueReads, ModelPermit, PermitState};
use model_permits::boundary::completed_boundary;
use model_permits::context::{
    record_work_context, summarize, Completion, ContextReads, ExecutionPolicy, Question, ToolCall,
    WorkContextSnapshot,
};
use model_permits::control::{
    admission_state, admit_control, answer_control, broker_control, check_cancel, check_members, launch_to_cancel,
    result_phase, shown_todo_error, with_capacities, AdmissionState, ControlRequest, ControlStep,
    MonitorError, MonitorScope, ResultPhase, Scope, TodoError, TodoScope,
};
use model_permits::dispatch::{
    admit_execution, begin_execution, end_execution, model_permit_accounting, DispatchReads,
};
use model_permits::errors::PermitError;
use model_permits::launch::{Evaluation, ExecutionPhase, Waited};
use model_permits::ledger::{Hold, Ledger, Usage};
use model_permits::model::{
    Admission, AdmittedWork, DispatchState, Pool, RequestClass, RequestEstimate,
    RequestReservation, Units, WorkIdentity,
};
use model_permits::session::{Action, Event, Frame, Session};
use model_permits::upload::authorize_upload;
use model_permits::wait::{
    admit_wait, authorize_wait, check_poll, pause, resume_deadline, resume_execution, wait_step,
    ResumeStanding, WaitAction, WaitEvent, WaitPhase,
};
use model_permits::web::{
    answer_web, authorize_web, believed, check_uses, check_web, lookup_step, settle_lookup,
    web_deadline, web_policy, web_scope, web_timeout_secs, BrokerPolicy, CampaignWeb, Control,
    LookupStep, WebCompletion, WebLookup, WebPolicy, WebReply, WebStatus,
};

fn request() -> RequestReservation {
    RequestReservation {
        identity: WorkIdentity {
            campaign_id: "campaign".into(),
            work_id: "work".into(),
            attempt_id: "attempt-1".into(),
            generation: 1,
            instruction_revision: 1,
            class: RequestClass::Work,
        },
        estimate: RequestEstimate {
            base_url: "https://example.invalid".into(),
            model: "fake".into(),
            provider: "fake".into(),
            pricing_revision: "1".into(),
            max_request_bytes: 1000,
            input_tokens: 20,
            output_tokens: 10,
            input_micro_usd_per_million: 1_000_000,
            output_micro_usd_per_million: 1_000_000,
            other_micro_usd: 0,
        },
    }
}

fn funding() -> AdmittedWork {
    AdmittedWork {
        dispatch_id: "dispatch".into(),
        admission: Admission {
            work_id: "work".into(),
            campaign_id: "campaign".into(),
            objective: "bounded".into(),
            generation: 1,
            instruction_revision: 1,
            pool: Pool::Work,
            upper_bound: Units { tokens: 100, cost_micro_usd: 100 },
        },
        state: DispatchState::Registered { worker_id: "worker".into() },
    }
}

fn reads() -> IssueReads {
    IssueReads { bound: Ok(()), funding: Ok(()), revision: Ok(1) }
}

fn broken<T>() -> Result<T, String> {
    Err("broken".to_string())
}

fn host_error() -> PermitError {
    PermitError::Host("broken".to_string())
}

fn issued() -> (PermitState, ModelPermit) {
    let mut state = PermitState::new();
    let permit = state.issue_model_permit(request(), funding(), None, Some(1), reads()).unwrap();
    (state, permit)
}

fn forged() -> ModelPermit {
    issued().1
}

fn control(
    state: &PermitState,
    permit: &ModelPermit,
    asked: ControlRequest,
) -> Result<ControlStep, PermitError> {
    broker_control(state, permit, &request(), asked, false, Ok(()), Ok(()), Ok(()))
}

#[test]
fn scopes_come_from_the_permit() {
    let (state, permit) = issued();
    assert!(matches!(
        control(&state, &permit, ControlRequest::Todo { scope: Scope::CurrentWork }),
        Ok(ControlStep::Todo { scope: TodoScope::Work { work_id }, .. }) if work_id == "work"
    ));
    assert!(matches!(
        control(&state, &permit, ControlRequest::Todo { scope: Scope::CurrentCampaign }),
        Ok(ControlStep::Todo { scope: TodoScope::Campaign { campaign_id }, actor })
            if campaign_id == "campaign" && actor.work_id == "work"
    ));
    assert!(matches!(
        control(&state, &permit, ControlRequest::Monitor { scope: Scope::CurrentWork }),
        Ok(ControlStep::Monitor { sampled: MonitorScope::Work { campaign_id, work_id } })
            if campaign_id == "campaign" && work_id == "work"
    ));
    assert!(matches!(
        control(&state, &permit, ControlRequest::Monitor { scope: Scope::CurrentCampaign }),
        Ok(ControlStep::Monitor { sampled: MonitorScope::Campaign { campaign_id } })
            if campaign_id == "campaign"
    ));
    assert!(matches!(
        control(&state, &permit, ControlRequest::Resource),
        Ok(ControlStep::Resource { campaign_id }) if campaign_id == "campaign"
    ));
    for (asked, context) in [
        (ControlRequest::Spawn, false),
        (ControlRequest::Group, false),
        (ControlRequest::Propose, true),
        (ControlRequest::ProposeGroup, true),
    ] {
        assert!(matches!(
            control(&state, &permit, asked),
            Ok(ControlStep::Admit { with_context, .. }) if with_context == context
        ));
    }
    assert!(matches!(
        control(&state, &permit, ControlRequest::Templates),
        Ok(ControlStep::Templates { .. })
    ));
    assert!(matches!(control(&state, &permit, ControlRequest::List), Ok(ControlStep::List { .. })));
    let child = || "child".to_string();
    assert!(matches!(
        control(&state, &permit, ControlRequest::Status { work_id: child() }),
        Ok(ControlStep::Status { target, .. })
            if target.campaign_id == "campaign" && target.work_id == "child"
    ));
    assert!(matches!(
        control(&state, &permit, ControlRequest::Result { work_id: child(), revision: Some(4) }),
        Ok(ControlStep::Result { revision: Some(4), .. })
    ));
    assert!(matches!(
        control(&state, &permit, ControlRequest::Send { work_id: child(), command_id: "c".into() }),
        Ok(ControlStep::Send { command_id, .. }) if command_id == "c"
    ));
    assert!(matches!(
        control(
            &state,
            &permit,
            ControlRequest::Steer {
                work_id: child(),
                command_id: "c".into(),
                expected_revision: 2
            }
        ),
        Ok(ControlStep::Steer { expected_revision: 2, .. })
    ));
    assert!(matches!(
        control(&state, &permit, ControlRequest::GroupStatus { group_id: "g".into() }),
        Ok(ControlStep::Group { resize: None, .. })
    ));
    let cancel = control(
        &state,
        &permit,
        ControlRequest::Cancel { work_id: child(), generation: 3 },
    )
    .unwrap();
    assert_eq!(
        launch_to_cancel(&cancel),
        Some(("campaign".to_string(), "child".to_string(), 3))
    );
    let list = control(&state, &permit, ControlRequest::List).unwrap();
    assert_eq!(launch_to_cancel(&list), None);
}

#[test]
fn every_reason_to_refuse_control() {
    let (mut state, permit) = issued();
    let ask = |state: &PermitState, permit: &ModelPermit, request: &RequestReservation, asked, closed, valid, funding, enrolled| {
        broker_control(state, permit, request, asked, closed, valid, funding, enrolled).err()
    };
    let own = request();
    let list = || ControlRequest::List;
    let todo = || ControlRequest::Todo { scope: Scope::CurrentWork };
    assert_eq!(ask(&state, &permit, &own, list(), false, broken(), Ok(()), Ok(())), Some(host_error()));
    assert_eq!(
        ask(&state, &forged(), &own, list(), false, Ok(()), Ok(()), Ok(())),
        Some(PermitError::UnknownPermit)
    );
    let mut other = request();
    other.identity.attempt_id = "forged".into();
    assert_eq!(
        ask(&state, &permit, &other, list(), false, Ok(()), Ok(()), Ok(())),
        Some(PermitError::RevokedControl)
    );
    assert_eq!(
        ask(&state, &permit, &own, list(), true, Ok(()), Ok(()), Ok(())),
        Some(PermitError::RevokedControl)
    );
    assert_eq!(ask(&state, &permit, &own, list(), false, Ok(()), Ok(()), broken()), Some(host_error()));
    assert_eq!(ask(&state, &permit, &own, list(), false, Ok(()), broken(), Ok(())), None);
    assert_eq!(ask(&state, &permit, &own, todo(), false, Ok(()), broken(), Ok(())), Some(host_error()));
    assert_eq!(ask(&state, &permit, &own, todo(), false, Ok(()), Ok(()), broken()), None);
    assert_eq!(
        ask(&state, &permit, &own, ControlRequest::Wait, false, Ok(()), Ok(()), Ok(())).unwrap().message(),
        "wait requires asynchronous host boundary"
    );
    pause(&mut state, &permit).unwrap();
    assert_eq!(
        ask(&state, &permit, &own, list(), false, Ok(()), Ok(()), Ok(())),
        Some(PermitError::RevokedControl)
    );
    // Only work controls: a verifier's permit does not.
    let mut state = PermitState::new();
    let mut verifying = request();
    verifying.identity.class = RequestClass::Verification;
    let mut verified = funding();
    verified.admission.pool = Pool::Verification;
    let permit = state.host_issue_model_permit(verifying.clone(), verified, None, reads()).unwrap();
    assert_eq!(
        ask(&state, &permit, &verifying, list(), false, Ok(()), Ok(()), Ok(())),
        Some(PermitError::RevokedControl)
    );
}

#[test]
fn only_direct_children_are_controlled() {
    let own = "work".to_string();
    let parent = |id: &str| Ok(Some(id.to_string()));
    assert_eq!(check_cancel(parent("work"), &own), Ok(()));
    assert_eq!(check_cancel(parent("other"), &own), Err(PermitError::NotDirectParent));
    assert_eq!(check_cancel(Ok(None), &own), Err(PermitError::NotDirectParent));
    assert_eq!(check_cancel(broken(), &own), Err(host_error()));
    assert_eq!(check_members(&vec![], &own), Ok(()));
    assert_eq!(check_members(&vec![parent("work"), parent("work")], &own), Ok(()));
    assert_eq!(
        check_members(&vec![parent("work"), Ok(None), broken()], &own),
        Err(PermitError::GroupOwnershipDenied)
    );
    assert_eq!(check_members(&vec![parent("work"), broken(), Ok(None)], &own), Err(host_error()));
}

#[test]
fn workers_learn_states_and_not_workers() {
    assert_eq!(
        admission_state(&DispatchState::Registered { worker_id: "w".into() }),
        AdmissionState::Registered
    );
    for (state, shown) in [
        (DispatchState::Admitted, AdmissionState::Admitted),
        (DispatchState::DispatchingUnknown, AdmissionState::DispatchingUnknown),
        (DispatchState::ConfirmedUnspent, AdmissionState::ConfirmedUnspent),
        (DispatchState::Cancelled, AdmissionState::Cancelled),
    ] {
        assert_eq!(admission_state(&state), shown);
    }
    for (phase, shown) in [
        (ExecutionPhase::ExecutingUnknown, ResultPhase::ExecutingUnknown),
        (ExecutionPhase::EvidenceReady, ResultPhase::EvidenceReady),
        (ExecutionPhase::AwaitingVerification, ResultPhase::AwaitingVerification),
        (ExecutionPhase::AwaitingAcceptance, ResultPhase::AwaitingAcceptance),
        (ExecutionPhase::ReviewingUnknown, ResultPhase::ReviewingUnknown),
        (ExecutionPhase::Reviewed(Evaluation::AcceptedHuman), ResultPhase::AcceptedHuman),
        (ExecutionPhase::Reviewed(Evaluation::Accepted), ResultPhase::Accepted),
        (ExecutionPhase::Reviewed(Evaluation::Rejected), ResultPhase::Rejected),
        (ExecutionPhase::Reviewed(Evaluation::Unverified), ResultPhase::Unverified),
    ] {
        assert_eq!(result_phase(false, phase), shown);
        assert_eq!(result_phase(true, phase), ResultPhase::ReworkPending);
    }
    assert!(admit_control(true, 4, 5));
    assert!(!admit_control(true, 5, 5));
    assert!(!admit_control(false, 4, 5));
}

#[test]
fn a_refused_control_request_is_denied_and_the_session_goes_on() {
    let (mut state, permit) = issued();
    let allowed = BrokerPolicy::new().with_controls(vec![Control::Status]);
    let status = || ControlRequest::Status { work_id: "child".into() };
    let served = |state: &PermitState, kind, asked, now| {
        let admitted = admit_control(allowed.allows(kind), now, 5);
        answer_control(admitted, control(state, &permit, asked).map(|_| "served"))
    };
    assert_eq!(served(&state, Control::Status, status(), 4), Some("served"));
    // Neither what the host did not allow, nor what comes too late.
    assert_eq!(served(&state, Control::List, ControlRequest::List, 4), None);
    assert_eq!(served(&state, Control::Status, status(), 5), None);
    assert_eq!(answer_control::<u8>(true, Err(host_error())), None);
    state.host_revoke_model_permit(&permit).unwrap();
    assert_eq!(served(&state, Control::Status, status(), 4), None);
    let session = Session::begin(true, 2).unwrap();
    let (session, action) =
        session.step(Event::Frame { frame: Frame::Control, pipelined: false });
    assert!(matches!(action, Action::ServeControl));
    let (session, action) = session.step(Event::Done(Ok(())));
    assert!(matches!(action, Action::ReadFrame));
    assert_eq!(session.regular_requests, 1);
}

#[test]
fn nothing_is_allowed_to_a_parked_worker() {
    let (mut state, permit) = issued();
    let own = request();
    let children = vec![Ok(Some("work".to_string()))];
    authorize_wait(&state, &permit, &own, 0, 100, false, Ok(()), &children).unwrap();
    pause(&mut state, &permit).unwrap();
    let (parked, action) = wait_step(WaitPhase::Starting, WaitEvent::Started(Ok(())));
    assert!(matches!(action, WaitAction::ReleaseAndPoll));
    // What others do to the authority does not change that.
    let mut other_request = request();
    other_request.identity.work_id = "other".into();
    let mut other_funding = funding();
    other_funding.admission.work_id = "other".into();
    let other =
        state.host_issue_model_permit(other_request, other_funding, None, reads()).unwrap();
    state.host_revoke_model_permit(&other).unwrap();
    assert!(state.grant(&permit).unwrap().paused);
    let accounting = model_permit_accounting(Some(&permit), "before-wait").unwrap();
    let nothing = || DispatchReads {
        funding: Ok(()),
        revision: Ok(1),
        prior: Ok(None),
        ledger: Ok(ledger(Usage::Unknown, None)),
        available: Ok(()),
    };
    assert_eq!(
        accounting.reserve_only(&state, &own, false, nothing()).err(),
        Some(PermitError::RevokedOrMismatched)
    );
    assert_eq!(
        control(&state, &permit, ControlRequest::List).err(),
        Some(PermitError::RevokedControl)
    );
    // The store does not admit the funding of work that it holds as suspended.
    let suspended = IssueReads { funding: broken(), ..reads() };
    assert_eq!(
        state.host_issue_model_permit(request(), funding(), Some(&permit), suspended).err(),
        Some(host_error())
    );
    let (parked, action) = wait_step(parked, WaitEvent::Polled(Ok(true)));
    assert!(matches!(action, WaitAction::Reacquire));
    let (parked, action) = wait_step(parked, WaitEvent::Reacquired(Waited::Answered(Ok(()))));
    assert!(matches!(action, WaitAction::Resume));
    assert!(state.grant(&permit).unwrap().paused);
    let standing = ResumeStanding {
        active: true,
        waits: false,
        cancellation_requested: false,
        terminal: false,
    };
    let work = "work".to_string();
    resume_execution(&mut state, &permit, &work, 1, 100, false, Ok(standing)).unwrap();
    let (_, action) = wait_step(parked, WaitEvent::Resumed(Ok(())));
    assert!(matches!(action, WaitAction::Answer));
    assert!(accounting.reserve_only(&state, &own, false, nothing()).is_ok());
}

#[test]
fn failures_of_the_store_stay_inside() {
    let storage: TodoError<u8> = TodoError::Storage { message: "/var/db is full".into() };
    assert!(matches!(
        shown_todo_error(storage),
        TodoError::Storage { message } if message == "todo storage unavailable"
    ));
    assert!(matches!(shown_todo_error(TodoError::Other(7)), TodoError::Other(7)));
    let sample = || Ok::<u8, MonitorError<u8>>(1);
    assert!(matches!(with_capacities(sample(), false, Ok(9)), Ok((1, None))));
    assert!(matches!(with_capacities(sample(), true, Ok(9)), Ok((1, Some(9)))));
    assert!(matches!(
        with_capacities::<u8, u8, u8>(sample(), true, Err(())),
        Err(MonitorError::Unavailable)
    ));
    assert!(matches!(
        with_capacities::<u8, u8, u8>(Err(MonitorError::Other(3)), true, Err(())),
        Err(MonitorError::Other(3))
    ));
}

#[test]
fn waiting_takes_direct_children_and_a_live_permit() {
    let (mut state, permit) = issued();
    let own = request();
    let child = || vec![Ok(Some("work".to_string()))];
    let ask = |state: &PermitState, permit: &ModelPermit, now, closed, enrolled, parents: Vec<_>| {
        authorize_wait(state, permit, &own, now, 100, closed, enrolled, &parents)
    };
    assert!(ask(&state, &permit, 0, false, Ok(()), child()).unwrap().same(&funding()));
    let error = |result: Result<AdmittedWork, PermitError>| result.err().unwrap();
    assert_eq!(
        error(ask(&state, &permit, 100, false, Ok(()), child())),
        PermitError::InvalidWaitAuthority
    );
    assert_eq!(
        error(ask(&state, &permit, 0, true, Ok(()), child())),
        PermitError::InvalidWaitAuthority
    );
    assert_eq!(
        error(ask(&state, &forged(), 0, false, Ok(()), child())),
        PermitError::UnknownPermit
    );
    assert_eq!(error(ask(&state, &permit, 0, false, broken(), child())), host_error());
    assert_eq!(
        error(ask(&state, &permit, 0, false, Ok(()), vec![Ok(Some("other".to_string()))])),
        PermitError::WaitNeedsChildren
    );
    assert_eq!(pause(&mut state, &forged()), Err(PermitError::UnknownPermit));
    pause(&mut state, &permit).unwrap();
    assert!(!state.is_authorized(&permit, &own, false));
    assert_eq!(
        error(ask(&state, &permit, 0, false, Ok(()), child())),
        PermitError::InvalidWaitAuthority
    );
    let work = "work".to_string();
    assert_eq!(check_poll(&state, &permit, &work, 99, 100, false), Ok(()));
    assert_eq!(check_poll(&state, &permit, &work, 100, 100, false), Err(PermitError::WaitOver));
    assert_eq!(check_poll(&state, &permit, &work, 99, 100, true), Err(PermitError::WaitOver));
    assert_eq!(
        check_poll(&state, &forged(), &work, 99, 100, false),
        Err(PermitError::UnknownPermit)
    );
    let standing = ResumeStanding {
        active: true,
        waits: false,
        cancellation_requested: false,
        terminal: false,
    };
    let refused = Err(PermitError::Protocol);
    for standing in [
        ResumeStanding { active: false, ..standing },
        ResumeStanding { waits: true, ..standing },
        ResumeStanding { cancellation_requested: true, ..standing },
        ResumeStanding { terminal: true, ..standing },
    ] {
        assert_eq!(
            resume_execution(&mut state, &permit, &work, 0, 100, false, Ok(standing)),
            refused
        );
    }
    assert_eq!(
        resume_execution(&mut state, &permit, &work, 0, 100, false, broken()),
        Err(host_error())
    );
    assert_eq!(
        resume_execution(&mut state, &permit, &work, 100, 100, false, Ok(standing)),
        refused
    );
    assert_eq!(resume_execution(&mut state, &permit, &work, 0, 100, false, Ok(standing)), Ok(()));
    assert!(state.is_authorized(&permit, &own, false));
    assert_eq!(check_poll(&state, &permit, &work, 0, 100, false), Err(PermitError::WaitOver));
    pause(&mut state, &permit).unwrap();
    state.host_revoke_model_permit(&permit).unwrap();
    assert_eq!(check_poll(&state, &permit, &work, 0, 100, false), Err(PermitError::WaitOver));
    assert_eq!(
        resume_execution(&mut state, &permit, &work, 0, 100, false, Ok(standing)),
        refused
    );
}

#[test]
fn a_wait_has_room_and_an_end() {
    assert!(admit_wait(true, true, 2));
    assert!(!admit_wait(true, true, 1));
    assert!(!admit_wait(false, true, 2));
    assert!(!admit_wait(true, false, 2));
    assert_eq!(resume_deadline(100_000, 10, 100), 5_110);
    assert_eq!(resume_deadline(5_000, 10, 100), 5_000);
    assert_eq!(resume_deadline(u64::MAX, u64::MAX, u64::MAX), u64::MAX);
}

fn wait_names(events: Vec<WaitEvent>) -> Vec<String> {
    let mut phase = WaitPhase::Starting;
    let mut names = Vec::new();
    for event in events {
        let (next, action) = wait_step(phase, event);
        phase = next;
        names.push(match action {
            WaitAction::Start => "start".to_string(),
            WaitAction::ReleaseAndPoll => "release".to_string(),
            WaitAction::Poll => "poll".to_string(),
            WaitAction::Sleep => "sleep".to_string(),
            WaitAction::Reacquire => "reacquire".to_string(),
            WaitAction::Resume => "resume".to_string(),
            WaitAction::CancelWork => "cancel".to_string(),
            WaitAction::Deny => "deny".to_string(),
            WaitAction::Answer => "answer".to_string(),
            WaitAction::Fail(error) => error.message(),
            WaitAction::Ignore => "ignore".to_string(),
        });
    }
    names
}

#[test]
fn waiters_get_their_slot_before_their_answer() {
    let started = || WaitEvent::Started(Ok(()));
    let done = || WaitEvent::Polled(Ok(true));
    assert_eq!(
        wait_names(vec![
            started(),
            WaitEvent::Polled(Ok(false)),
            WaitEvent::Slept,
            done(),
            WaitEvent::Reacquired(Waited::Answered(Ok(()))),
            WaitEvent::Resumed(Ok(())),
            WaitEvent::Slept,
        ]),
        ["release", "sleep", "poll", "reacquire", "resume", "answer", "ignore"]
    );
    assert_eq!(wait_names(vec![WaitEvent::Started(Err(host_error()))]), ["deny"]);
    assert_eq!(
        wait_names(vec![
            started(),
            WaitEvent::Polled(Err(PermitError::WaitOver)),
            WaitEvent::Cancelled(Ok(()))
        ]),
        ["release", "cancel", "wait cancelled, revoked, or resume deadline elapsed"]
    );
    assert_eq!(
        wait_names(vec![
            started(),
            WaitEvent::Polled(Err(PermitError::WaitOver)),
            WaitEvent::Cancelled(broken())
        ])[2],
        "broken"
    );
    assert_eq!(
        wait_names(vec![started(), done(), WaitEvent::Reacquired(Waited::Deadline)])[2],
        "host execution resume deadline elapsed"
    );
    assert_eq!(
        wait_names(vec![started(), done(), WaitEvent::Reacquired(Waited::Answered(broken()))])[2],
        "broken"
    );
    assert_eq!(
        wait_names(vec![
            started(),
            done(),
            WaitEvent::Reacquired(Waited::Answered(Ok(()))),
            WaitEvent::Resumed(Err(PermitError::Protocol))
        ])[3],
        "protocol error"
    );
    assert_eq!(wait_names(vec![done()]), ["protocol error"]);
}

fn ledger(usage: Usage, allocation: Option<&str>) -> Ledger {
    let allocation = allocation.map(str::to_string);
    Ledger::new(
        vec![("receipt".into(), Hold { allocation, usage, cancellation_requested: false })],
        vec![("dispatch".into(), false)],
        false,
    )
}

#[test]
fn exports_begin_and_end_with_final_accounting() {
    let (state, permit) = issued();
    let own = request();
    let settled = Usage::Final(Units { tokens: 1, cost_micro_usd: 1 });
    let ask = |permit: &ModelPermit, chunk, now, closed, funding, ledger| {
        authorize_upload(&state, permit, &own, chunk, now, 100, closed, funding, ledger)
    };
    let open = || Ok(ledger(Usage::Unknown, Some("dispatch")));
    assert_eq!(ask(&permit, false, 0, false, Ok(()), Ok(ledger(settled, Some("dispatch")))), Ok(()));
    assert_eq!(ask(&permit, false, 0, false, Ok(()), Ok(ledger(Usage::Unknown, Some("x")))), Ok(()));
    assert_eq!(ask(&permit, false, 0, false, Ok(()), Ok(ledger(Usage::Unknown, None))), Ok(()));
    assert_eq!(
        ask(&permit, false, 0, false, Ok(()), open()).unwrap_err().message(),
        "output export requires final model accounting"
    );
    assert_eq!(ask(&permit, true, 0, false, Ok(()), open()), Ok(()));
    assert_eq!(ask(&permit, false, 0, false, broken(), open()), Err(host_error()));
    assert_eq!(ask(&permit, false, 0, false, Ok(()), broken()), Err(host_error()));
    for (now, closed) in [(100, false), (0, true)] {
        assert_eq!(
            ask(&permit, true, now, closed, Ok(()), open()),
            Err(PermitError::InvalidOutputAuthority)
        );
    }
    assert_eq!(ask(&forged(), true, 0, false, Ok(()), open()), Err(PermitError::UnknownPermit));
}

fn web_config() -> WebPolicy {
    WebPolicy {
        enabled: true,
        max_requests: 3,
        max_server_calls: 20,
        max_fetch_urls: 4,
        server_call_micro_usd: 5,
        timeout_secs: 7,
        input_tokens: 10,
        output_tokens: 1,
        input_micro_usd_per_million: Some(1),
        output_micro_usd_per_million: Some(1),
        max_request_cost_micro_usd: 0,
        turn_tokens: 0,
        turn_cost_micro_usd: 0,
    }
}

fn campaign_web() -> CampaignWeb {
    CampaignWeb { max_requests: 2, max_server_calls: 16, inference_provider: "fake".into() }
}

fn host_policy() -> BrokerPolicy {
    BrokerPolicy::new().with_web(campaign_web(), web_config(), Ok(())).ok().unwrap()
}

#[test]
fn web_allowances_are_bounded() {
    let none = BrokerPolicy::new();
    assert_eq!(none.resident_capacity, 64);
    assert!(!none.allows(Control::Wait));
    assert_eq!(web_timeout_secs(&none), 60);
    let controls = none.with_controls(vec![Control::Wait, Control::Status]);
    assert!(controls.allows(Control::Wait) && !controls.allows(Control::WebFetch));
    let host = controls.with_web(campaign_web(), web_config(), Ok(())).ok().unwrap();
    assert!(host.allows(Control::Wait) && host.allows(Control::WebFetch));
    assert!(host.allows(Control::WebSearch));
    assert_eq!(
        host.allowed,
        [Control::Wait, Control::Status, Control::WebSearch, Control::WebFetch]
    );
    assert_eq!(web_timeout_secs(&host), 7);
    // Nothing is named twice.
    let twice = BrokerPolicy::new()
        .with_controls(vec![Control::WebFetch, Control::Wait, Control::WebFetch])
        .with_web(campaign_web(), web_config(), Ok(()))
        .ok()
        .unwrap();
    assert_eq!(twice.allowed, [Control::WebFetch, Control::Wait, Control::WebSearch]);
    let disabled = WebPolicy { enabled: false, ..web_config() };
    let host = BrokerPolicy::new().with_web(campaign_web(), disabled, Ok(())).ok().unwrap();
    assert!(host.web.is_none() && !host.allows(Control::WebSearch));
    let refuse = |change: fn(&mut CampaignWeb)| {
        let mut grant = campaign_web();
        change(&mut grant);
        BrokerPolicy::new().with_web(grant, web_config(), Ok(())).err()
    };
    let invalid = Some(PermitError::InvalidWebAllowance);
    assert_eq!(refuse(|_| {}), None);
    assert_eq!(refuse(|grant| grant.max_requests = 0), invalid);
    assert_eq!(refuse(|grant| grant.max_requests = 5), invalid);
    assert_eq!(refuse(|grant| grant.max_server_calls = 0), invalid);
    assert_eq!(refuse(|grant| grant.max_server_calls = 17), invalid);
    for provider in ["", " ", "OpenRouter", "a b", "a\u{7}b", "a\u{2028}"] {
        let mut grant = campaign_web();
        grant.inference_provider = provider.into();
        assert_eq!(BrokerPolicy::new().with_web(grant, web_config(), Ok(())).err(), invalid);
    }
    assert_eq!(refuse(|grant| grant.inference_provider = "x".repeat(129)), invalid);
    assert_eq!(refuse(|grant| grant.inference_provider = "x".repeat(128)), None);
    assert_eq!(refuse(|grant| grant.inference_provider = "openrouters".into()), None);
    assert_eq!(
        BrokerPolicy::new().with_web(campaign_web(), web_config(), broken()).err(),
        Some(host_error())
    );
}

fn web_request() -> RequestReservation {
    let mut request = request();
    request.estimate.other_micro_usd = 20;
    request
}

#[test]
fn lookups_stay_within_what_was_reserved() {
    let host = host_policy();
    let caller = "work".to_string();
    let fetch = |urls| WebLookup::Fetch { urls };
    let ask = |request: &RequestReservation, lookup| {
        check_web(&host, Control::WebFetch, true, lookup, &caller, request, Ok(()))
    };
    assert_eq!(ask(&web_request(), WebLookup::Search), Ok(1));
    assert_eq!(ask(&web_request(), fetch(4)), Ok(4));
    let exceeded = Err(PermitError::WebBoundsExceeded);
    assert_eq!(ask(&web_request(), fetch(5)), exceeded);
    let refuse = |change: fn(&mut RequestReservation)| {
        let mut request = web_request();
        change(&mut request);
        ask(&request, fetch(4))
    };
    assert_eq!(refuse(|request| request.identity.work_id = "other".into()), exceeded);
    assert_eq!(refuse(|request| request.identity.class = RequestClass::Compaction), exceeded);
    assert_eq!(refuse(|request| request.estimate.provider = "other".into()), exceeded);
    assert_eq!(refuse(|request| request.estimate.input_tokens = 9), exceeded);
    assert_eq!(refuse(|request| request.estimate.other_micro_usd = 19), exceeded);
    assert_eq!(refuse(|request| request.estimate.output_tokens = 0), exceeded);
    assert_eq!(refuse(|request| request.estimate.output_tokens = 8193), exceeded);
    assert_eq!(refuse(|request| request.estimate.output_tokens = 8192), Ok(4));
    let mut dear = host_policy();
    dear.web.as_mut().unwrap().1.server_call_micro_usd = u64::MAX;
    let check = |host: &BrokerPolicy, control, is_web, valid| {
        check_web(host, control, is_web, fetch(4), &caller, &web_request(), valid)
    };
    assert_eq!(check(&dear, Control::WebFetch, true, Ok(())), Err(PermitError::FeeOverflow));
    assert_eq!(check(&host, Control::WebFetch, true, broken()), Err(host_error()));
    assert_eq!(
        check(&BrokerPolicy::new(), Control::WebFetch, true, Ok(())),
        Err(PermitError::NoWebAllowance)
    );
    assert_eq!(check(&host, Control::Wait, true, Ok(())), Err(PermitError::WebControlDenied));
    assert_eq!(check(&host, Control::WebFetch, false, Ok(())), Err(PermitError::NotWeb));
    let mut off = host_policy();
    off.web.as_mut().unwrap().1.enabled = false;
    assert_eq!(check(&off, Control::WebFetch, true, Ok(())), Err(PermitError::WebControlDenied));
}

#[test]
fn lookups_are_priced_by_the_narrower_policy() {
    let policy = web_policy(&campaign_web(), &web_config(), &web_request(), Some((30, 50))).unwrap();
    assert_eq!(
        policy,
        WebPolicy {
            max_requests: 2,
            max_server_calls: 16,
            input_tokens: 20,
            output_tokens: 10,
            input_micro_usd_per_million: None,
            output_micro_usd_per_million: None,
            max_request_cost_micro_usd: 50,
            turn_tokens: 60,
            turn_cost_micro_usd: 100,
            ..web_config()
        }
    );
    let refuse = |bound| web_policy(&campaign_web(), &web_config(), &web_request(), bound).err();
    assert_eq!(refuse(None), Some(PermitError::InvalidWebEstimate));
    assert_eq!(refuse(Some((u64::MAX, 0))), Some(PermitError::TokenOverflow));
    assert_eq!(refuse(Some((0, u64::MAX))), Some(PermitError::CostOverflow));
    assert_eq!(web_scope(&"a\tb".to_string()), "[\"campaign\",\"a\\tb\"]");
    assert_eq!(web_deadline(100_000, 5, 7), 7_005);
    assert_eq!(web_deadline(7_000, 5, 7), 7_000);
    assert_eq!(web_deadline(9, u64::MAX, u64::MAX), 9);
}

#[test]
fn lookups_need_authority_and_are_believed_with_care() {
    let (mut state, permit) = issued();
    let own = request();
    assert_eq!(authorize_web(&state, &permit, &own, 0, 100, false, Ok(())), Ok(()));
    assert_eq!(authorize_web(&state, &permit, &own, 0, 100, false, broken()), Err(host_error()));
    let revoked = Err(PermitError::RevokedWebAuthority);
    assert_eq!(authorize_web(&state, &permit, &own, 100, 100, false, Ok(())), revoked);
    assert_eq!(authorize_web(&state, &permit, &own, 0, 100, true, Ok(())), revoked);
    assert_eq!(
        authorize_web(&state, &forged(), &own, 0, 100, false, Ok(())),
        Err(PermitError::UnknownPermit)
    );
    state.host_revoke_model_permit(&permit).unwrap();
    assert_eq!(authorize_web(&state, &permit, &own, 0, 100, false, Ok(())), revoked);
    assert_eq!(believed(WebStatus::Grounded, true), WebStatus::Grounded);
    assert_eq!(believed(WebStatus::Grounded, false), WebStatus::Unverified);
    assert_eq!(believed(WebStatus::Other, false), WebStatus::Other);
    let done = |usage: Option<u8>| {
        settle_lookup(Some(WebCompletion { usage, status: WebStatus::Grounded, result: 'r' }))
    };
    assert!(matches!(done(Some(1)), (Some(1), Ok((WebStatus::Grounded, 'r')))));
    assert!(matches!(done(None), (None, Ok((WebStatus::Unverified, 'r')))));
    let (usage, failed) = settle_lookup::<u8, u8>(None);
    assert_eq!(usage, None);
    assert_eq!(
        failed.unwrap_err().message(),
        "web retrieval denied or failed; spend may be unknown"
    );
    // What is stored is answered; only what is not is looked up.
    assert!(matches!(lookup_step(Ok(Some(Ok('r')))), Ok(LookupStep::Answer('r'))));
    assert!(matches!(lookup_step::<u8>(Ok(None)), Ok(LookupStep::LookUp)));
    assert_eq!(lookup_step::<u8>(Ok(Some(broken()))).err(), Some(host_error()));
    assert_eq!(lookup_step::<u8>(broken()).err(), Some(host_error()));
    assert_eq!(check_uses(Some(1), Some(1), 2), Ok(()));
    assert_eq!(check_uses(None, None, 0), Ok(()));
    assert_eq!(check_uses(Some(2), Some(1), 2), Err(PermitError::WebUseExceeded));
    assert_eq!(check_uses(Some(u64::MAX), Some(u64::MAX), 255), Err(PermitError::WebUseExceeded));
    assert!(matches!(answer_web(true, Ok(1)), WebReply::Search(1)));
    assert!(matches!(answer_web(false, Ok(1)), WebReply::Fetch(1)));
    assert!(matches!(answer_web::<u8>(true, Err(host_error())), WebReply::Denied));
}

fn question(id: &str, answered: bool, deadline_ms: u64, revision: u64) -> Question {
    Question {
        request_id: id.into(),
        answered,
        deadline_ms,
        generation: 1,
        instruction_revision: revision,
    }
}

fn context_reads() -> ContextReads<&'static str> {
    ContextReads {
        funding: Ok(()),
        ledger: Ok(ledger(Usage::Unknown, None)),
        available: Ok(Units { tokens: 7, cost_micro_usd: 8 }),
        execution: Ok(None),
        assignment: Ok(None),
        questions: Ok(vec![
            question("open", false, 101, 1),
            question("answered", true, 101, 1),
            question("late", false, 100, 1),
            question("historical", false, 101, 2),
            question("also open", false, 200, 1),
        ]),
        now_ms: 100,
    }
}

fn snapshot(
    change: impl Fn(&mut ContextReads<&'static str>),
    questions: bool,
) -> Result<WorkContextSnapshot<&'static str, u8>, PermitError> {
    let (state, permit) = issued();
    let mut reads = context_reads();
    change(&mut reads);
    let done = record_work_context(
        &state,
        &permit,
        "request".to_string(),
        Some(3u8),
        true,
        questions,
        false,
        reads,
    )?;
    assert_eq!(done.0, "campaign");
    Ok(done.1)
}

fn execution_policy() -> ExecutionPolicy<&'static str> {
    ExecutionPolicy {
        attempt_id: "attempt-1".into(),
        generation: 1,
        campaign_id: "campaign".into(),
        context_refs: vec!["executed"],
    }
}

#[test]
fn contexts_hold_what_the_store_says() {
    let plain = snapshot(|_| {}, true).unwrap();
    assert_eq!((plain.schema_version, plain.reattachable), (1, false));
    assert_eq!((plain.work_id.as_str(), plain.attempt_id.as_str()), ("work", "attempt-1"));
    assert_eq!((plain.generation, plain.instruction_revision), (1, 1));
    assert_eq!((plain.request_id.as_str(), plain.objective.as_str()), ("request", "bounded"));
    assert_eq!(plain.worker_claims_informational_only, Some(3));
    assert_eq!(plain.pending_question_refs.unwrap(), ["open", "also open"]);
    assert_eq!((plain.remaining_tokens, plain.remaining_cost_micro_usd), (Some(7), Some(8)));
    assert!(plain.selected_resource_refs.is_empty());
    assert_eq!(snapshot(|_| {}, false).unwrap().pending_question_refs, None);
    assert_eq!(plain.stopping, None);
    let empty = || Ledger::new(Vec::new(), Vec::new(), false);
    let unfunded = snapshot(|reads| reads.ledger = Ok(empty()), true).unwrap();
    assert_eq!((unfunded.remaining_tokens, unfunded.remaining_cost_micro_usd), (None, None));
    let assigned = snapshot(|reads| reads.assignment = Ok(Some(vec!["assigned"])), true).unwrap();
    assert_eq!(assigned.selected_resource_refs, ["assigned"]);
    let executed = snapshot(
        |reads| {
            reads.execution = Ok(Some(execution_policy()));
            reads.assignment = broken();
        },
        true,
    )
    .unwrap();
    assert_eq!(executed.selected_resource_refs, ["executed"]);
}

#[test]
fn every_reason_not_to_record_a_context() {
    let host = Some(host_error());
    assert_eq!(snapshot(|reads| reads.funding = broken(), true).err(), host);
    assert_eq!(snapshot(|reads| reads.ledger = broken(), true).err(), host);
    assert_eq!(snapshot(|reads| reads.available = broken(), true).err(), host);
    assert_eq!(snapshot(|reads| reads.execution = broken(), true).err(), host);
    assert_eq!(snapshot(|reads| reads.assignment = broken(), true).err(), host);
    assert_eq!(snapshot(|reads| reads.questions = broken(), true).err(), host);
    assert_eq!(snapshot(|reads| reads.questions = broken(), false).err(), None);
    let mismatch = |change: fn(&mut ExecutionPolicy<&'static str>)| {
        snapshot(
            |reads| {
                let mut policy = execution_policy();
                change(&mut policy);
                reads.execution = Ok(Some(policy));
            },
            true,
        )
        .err()
    };
    let mismatched = Some(PermitError::SnapshotIdentityMismatch);
    assert_eq!(mismatch(|_| {}), None);
    assert_eq!(mismatch(|policy| policy.attempt_id = "other".into()), mismatched);
    assert_eq!(mismatch(|policy| policy.generation = 2), mismatched);
    assert_eq!(mismatch(|policy| policy.campaign_id = "other".into()), mismatched);
    let (mut state, permit) = issued();
    let record = |state: &PermitState, permit: &ModelPermit, valid, closed| {
        record_work_context(
            state,
            permit,
            "request".to_string(),
            None::<u8>,
            valid,
            true,
            closed,
            context_reads(),
        )
        .err()
    };
    let protocol = Some(PermitError::Protocol);
    assert_eq!(record(&state, &permit, true, false), None);
    assert_eq!(record(&state, &permit, false, false), protocol);
    assert_eq!(record(&state, &permit, true, true), protocol);
    assert_eq!(record(&state, &forged(), true, false), protocol);
    assert_eq!(completed_boundary(&state, &permit).unwrap().1, 1);
    assert_eq!(completed_boundary(&state, &forged()).err(), protocol);
    state.host_revoke_model_permit(&permit).unwrap();
    assert_eq!(record(&state, &permit, true, false), protocol);
    // The end of an earlier request is still recorded.
    assert_eq!(completed_boundary(&state, &permit).unwrap().0.work_id, "work");
}

#[test]
fn summaries_hold_no_text_that_was_not_redacted() {
    let redact = |text: &String| text.replace("secret", "***");
    let completion = Completion {
        text: "a secret".to_string(),
        tool_calls: vec![ToolCall {
            id: "secret-1".into(),
            name: "secret-2".into(),
            arguments: "secret-3".into(),
        }],
        usage: Some(5u64),
        finish_reason: Some("secret-4".to_string()),
    };
    let tools = vec!["secret-tool".to_string(), "plain".to_string()];
    let summary = summarize("id".to_string(), 'S', Some(&completion), 4, &tools, &redact);
    assert!(summary.succeeded);
    assert_eq!((summary.schema_version, summary.input_message_count), (1, 4));
    assert_eq!((summary.request_id.as_str(), summary.snapshot), ("id", 'S'));
    assert_eq!(summary.tool_names, ["***-tool", "plain"]);
    let kept = summary.completion.unwrap();
    assert_eq!((kept.text.as_str(), kept.usage), ("a ***", Some(5)));
    let call = &kept.tool_calls[0];
    assert_eq!(
        (call.id.as_str(), call.name.as_str(), call.arguments.as_str()),
        ("***-1", "***-2", "***-3")
    );
    assert_eq!(kept.finish_reason.as_deref(), Some("***-4"));
    let failed = summarize("id".to_string(), 'S', None::<&Completion<u64>>, 4, &tools, &redact);
    assert!(!failed.succeeded && failed.completion.is_none());
}

#[test]
fn executions_begin_in_time_and_end_with_what_is_known() {
    let permit = forged();
    assert_eq!(begin_execution(Some(&permit), "id", 99, 100), Ok(()));
    assert_eq!(begin_execution(None, "id", 99, 100), Err(PermitError::MissingModelPermit));
    assert_eq!(begin_execution(Some(&permit), "", 99, 100), Err(PermitError::InvalidRequestId));
    assert_eq!(
        begin_execution(Some(&permit), "id", 100, 100).unwrap_err().message(),
        "model deadline elapsed; outcome may be unknown"
    );
    assert_eq!(admit_execution(Waited::Answered(Ok(()))), Ok(()));
    assert_eq!(admit_execution(Waited::Answered(broken())), Err(host_error()));
    assert_eq!(
        admit_execution(Waited::Deadline).unwrap_err().message(),
        "host model admission deadline elapsed"
    );
    assert_eq!(end_execution(Some(Ok(7))), Ok(7));
    assert_eq!(end_execution(None::<Result<u8, PermitError>>), Err(PermitError::DeadlineElapsed));
}
