//! Native jobs of a session.
use model_permits::authority::{IssueReads, ModelPermit, PermitState};
use model_permits::cpu_jobs::{
    Authority, CpuJobReply, CpuJobRequest, CpuJobStep, CpuJobs, JobLimits, JobWorkload,
    DEFAULT_JOB_MS,
};
use model_permits::model::{
    Admission, AdmittedWork, DispatchState, Pool, RequestClass, RequestEstimate,
    RequestReservation, Units, WorkIdentity,
};

fn request() -> RequestReservation {
    RequestReservation {
        identity: WorkIdentity {
            campaign_id: "campaign".into(),
            work_id: "work".into(),
            attempt_id: "attempt-1".into(),
            generation: 1,
            instruction_revision: 1,
            class: RequestClass::Work,
        },
        estimate: RequestEstimate {
            base_url: "https://example.invalid".into(),
            model: "fake".into(),
            provider: "fake".into(),
            pricing_revision: "1".into(),
            max_request_bytes: 1000,
            input_tokens: 20,
            output_tokens: 10,
            input_micro_usd_per_million: 1_000_000,
            output_micro_usd_per_million: 1_000_000,
            other_micro_usd: 0,
        },
    }
}

fn issue(state: &mut PermitState, lease: Option<u64>) -> ModelPermit {
    let funding = AdmittedWork {
        dispatch_id: "dispatch".into(),
        admission: Admission {
            work_id: "work".into(),
            campaign_id: "campaign".into(),
            objective: "bounded".into(),
            generation: 1,
            instruction_revision: 1,
            pool: Pool::Work,
            upper_bound: Units { tokens: 100, cost_micro_usd: 100 },
        },
        state: DispatchState::Registered { worker_id: "worker".into() },
    };
    let reads = IssueReads { bound: Ok(()), funding: Ok(()), revision: Ok(1) };
    state.issue_model_permit(request(), funding, None, lease, reads).unwrap()
}

const LIMITS: JobLimits = JobLimits { max_cpu_jobs: 2, max_gpu_jobs: 3, granted_gpu_jobs: None };

type Request = CpuJobRequest<&'static str>;
type Reply = CpuJobReply<Vec<String>>;

/// Serve a request with a slot that is always free.
fn serve(
    jobs: &mut CpuJobs,
    authority: Authority<'_>,
    permit: &ModelPermit,
    ask: Request,
) -> Reply {
    let brief = matches!(ask, CpuJobRequest::TryAcquire);
    match jobs.request_store(authority, permit, &request(), ask, false, &LIMITS) {
        CpuJobStep::Denied => CpuJobReply::Denied,
        CpuJobStep::Busy => CpuJobReply::Busy,
        CpuJobStep::Profile { .. } => panic!("no profile was asked for"),
        CpuJobStep::Release { id, .. } => jobs.released(id, true),
        CpuJobStep::Acquire { .. } => jobs.acquired(brief, Ok(Some(vec![])), false).0,
    }
}

#[test]
fn cpu_job_busy_authority_never_blocks_historical_release() {
    let mut state = PermitState::new();
    let permit = issue(&mut state, None);
    let mut jobs = CpuJobs::default();
    let mut foreign = CpuJobs::default();
    let mut first = None;
    let mut last = 0;
    for _ in 0..1024 {
        let CpuJobReply::Acquired { permit: cpu } =
            serve(&mut jobs, Authority::Free(&state), &permit, CpuJobRequest::TryAcquire)
        else {
            panic!()
        };
        first.get_or_insert(cpu);
        last = cpu;
        assert_eq!(jobs.running(), 1);
        assert!(matches!(
            serve(
                &mut foreign,
                Authority::Free(&state),
                &permit,
                CpuJobRequest::Release { permit: cpu }
            ),
            CpuJobReply::Denied
        ));
        assert!(matches!(
            serve(
                &mut jobs,
                Authority::Free(&state),
                &permit,
                CpuJobRequest::Release { permit: cpu }
            ),
            CpuJobReply::Released
        ));
        assert_eq!(jobs.running(), 0);
    }
    assert!(matches!(
        serve(
            &mut jobs,
            Authority::Free(&state),
            &permit,
            CpuJobRequest::Release { permit: first.unwrap() }
        ),
        CpuJobReply::Released
    ));
    let future = last.wrapping_add(1);
    assert!(matches!(
        serve(
            &mut jobs,
            Authority::Free(&state),
            &permit,
            CpuJobRequest::Release { permit: future }
        ),
        CpuJobReply::Denied
    ));
    let CpuJobReply::Acquired { permit: cpu } =
        serve(&mut jobs, Authority::Free(&state), &permit, CpuJobRequest::TryAcquire)
    else {
        panic!()
    };
    assert!(matches!(
        serve(&mut jobs, Authority::Busy, &permit, CpuJobRequest::TryAcquire),
        CpuJobReply::Busy
    ));
    assert!(matches!(
        serve(&mut jobs, Authority::Busy, &permit, CpuJobRequest::Release { permit: cpu }),
        CpuJobReply::Released
    ));
}

#[test]
fn a_busy_or_broken_authority_grants_nothing() {
    let mut state = PermitState::new();
    let permit = issue(&mut state, None);
    let jobs = CpuJobs::default();
    let ask = |authority, ask: Request| jobs.request_store(authority, &permit, &request(), ask, false, &LIMITS);
    assert!(matches!(ask(Authority::Busy, CpuJobRequest::Profile), CpuJobStep::Denied));
    assert!(matches!(ask(Authority::Broken, CpuJobRequest::TryAcquire), CpuJobStep::Denied));
    assert!(matches!(
        ask(
            Authority::Busy,
            CpuJobRequest::Acquire { workload: JobWorkload::Other("gpu"), max_duration_ms: 1 }
        ),
        CpuJobStep::Busy
    ));
}

#[test]
fn a_profile_shows_the_narrower_bound() {
    let mut state = PermitState::new();
    let permit = issue(&mut state, None);
    let jobs = CpuJobs::default();
    for (granted, shown) in [(None, 0), (Some(2), 2), (Some(3), 3), (Some(9), 3)] {
        let limits = JobLimits { granted_gpu_jobs: granted, ..LIMITS };
        let step = jobs.request_store(
            Authority::Free(&state),
            &permit,
            &request(),
            Request::Profile,
            false,
            &limits,
        );
        assert!(matches!(
            step,
            CpuJobStep::Profile { max_cpu_jobs: 2, max_gpu_jobs } if max_gpu_jobs == shown
        ));
    }
}

#[test]
fn a_job_gets_what_it_asked_for() {
    let mut state = PermitState::new();
    let permit = issue(&mut state, None);
    let mut jobs = CpuJobs::default();
    let step = jobs.request_store(
        Authority::Free(&state),
        &permit,
        &request(),
        Request::Acquire { workload: JobWorkload::Other("gpu"), max_duration_ms: 7 },
        false,
        &LIMITS,
    );
    let CpuJobStep::Acquire { origin, id, workload: JobWorkload::Other("gpu"), max_duration_ms: 7 } =
        step
    else {
        panic!()
    };
    assert_eq!(id, origin.wrapping_add(1));
    let (reply, again) = jobs.acquired(false, Ok(Some(vec!["gpu0".to_string()])), false);
    assert!(!again);
    assert!(matches!(
        reply,
        CpuJobReply::Granted { permit, device_ids } if permit == id && device_ids == ["gpu0"]
    ));
    let brief = jobs.request_store(
        Authority::Free(&state),
        &permit,
        &request(),
        Request::TryAcquire,
        false,
        &LIMITS,
    );
    assert!(matches!(
        brief,
        CpuJobStep::Acquire { id: next, workload: JobWorkload::Cpu, max_duration_ms: DEFAULT_JOB_MS, .. }
            if next == id.wrapping_add(1)
    ));
    assert!(matches!(jobs.acquired::<()>(true, Ok(None), false), (CpuJobReply::Busy, false)));
    assert!(matches!(jobs.acquired::<()>(true, Err(()), false), (CpuJobReply::Denied, false)));
    // Neither used the id up.
    let (reply, _) = jobs.acquired(true, Ok(Some(())), false);
    assert!(matches!(reply, CpuJobReply::Acquired { permit } if permit == id.wrapping_add(1)));
    assert!(matches!(jobs.released::<()>(id, false), CpuJobReply::Denied));
    assert_eq!(jobs.running(), 2);
}

#[test]
fn a_lease_that_closes_meanwhile_gives_the_slot_back() {
    let mut state = PermitState::new();
    let permit = issue(&mut state, Some(5));
    let mut jobs = CpuJobs::default();
    let CpuJobStep::Acquire { id, .. } = jobs.request_store(
        Authority::Free(&state),
        &permit,
        &request(),
        Request::TryAcquire,
        false,
        &LIMITS,
    ) else {
        panic!()
    };
    assert!(matches!(jobs.acquired(true, Ok(Some(())), true), (CpuJobReply::Denied, true)));
    assert_eq!(jobs.running(), 0);
    // Its id stays used, and releasable after the lease closed and the permit was revoked.
    state.host_revoke_model_permit(&permit).unwrap();
    assert!(matches!(
        jobs.request_store(
            Authority::Free(&state),
            &permit,
            &request(),
            Request::Unspawned { permit: id },
            true,
            &LIMITS
        ),
        CpuJobStep::Release { unspawned: true, id: released, .. } if released == id
    ));
    assert!(matches!(
        jobs.request_store(
            Authority::Free(&state),
            &permit,
            &request(),
            Request::TryAcquire,
            false,
            &LIMITS
        ),
        CpuJobStep::Denied
    ));
}
