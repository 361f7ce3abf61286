//! What accounting, boundaries, launches and their events come to, stated of any
//! answer that the operations give.
use vstd::prelude::*;
use crate::authority::{Grant, ModelPermit, PermitLease, PermitState};
use crate::boundary;
use crate::boundary::BoundaryPlan;
use crate::context;
use crate::context::{
    Completion, ContextReads, ModelResultRecord, ModelSummary, WorkContextSnapshot,
};
use crate::cpu_jobs::{Authority, CpuJobRequest, CpuJobStep, CpuJobs, JobLimits};
use crate::dispatch;
use crate::dispatch::{
    Billing, DispatchReads, DispatchRecord, DispatchStep, PermitAccounting, PermittedAccounting,
};
use crate::errors::PermitError;
use crate::events;
use crate::events::{Collector, EventEnvelope, EventKind};
use crate::launch;
use crate::launch::{
    ClaimReads, Cleanup, ExecutionRecord, Launch, LaunchAction, LaunchEvent, LaunchPhase,
    LaunchResult, PrepareReads, Waited, WorkRequest, WorkStanding,
};
use crate::ledger::{Hold, Ledger};
use crate::model::{Admission, AdmittedWork, DispatchState, RequestReservation};
use crate::outside;
use crate::permit_laws;
use crate::text;
use crate::wait;
use crate::wait::{WaitAction, WaitEvent, WaitPhase};
use crate::work_laws;

verus! {

/// A request is named under a permit that is there and by a valid id, and then under
/// both as they are.
pub proof fn requests_are_named_by_valid_ids<'a>(
    permit: Option<&'a ModelPermit>,
    request_id: &'a str,
    res: Result<PermitAccounting<'a>, PermitError>,
    now: u64,
    deadline: u64,
    begun: Result<(), PermitError>,
)
    requires
        call_ensures(dispatch::model_permit_accounting, (permit, request_id), res),
        call_ensures(dispatch::begin_execution, (permit, request_id, now, deadline), begun),
    ensures
        res is Ok <==> permit is Some && text::valid_id(request_id@),
        permit is None ==> res->Err_0 is MissingModelPermit,
        permit is Some && res is Err ==> res->Err_0 is InvalidRequestId,
        res is Ok ==> res->Ok_0.permit == permit->0 && res->Ok_0.request_id@ == request_id@,
        begun is Ok <==> now < deadline && permit is Some && text::valid_id(request_id@),
        now >= deadline ==> begun->Err_0 is DeadlineElapsed,
        now < deadline && permit is None ==> begun->Err_0 is MissingModelPermit,
        now < deadline && permit is Some && begun is Err ==> begun->Err_0 is InvalidRequestId,
{
}

/// Reserving and claiming answer for the grant of the permit that they go under, and
/// under the id that they name; claiming within a deadline answers as claiming does,
/// in time and for a valid id.
pub proof fn accounting_goes_under_its_own_permit<'a>(
    accounting: PermitAccounting<'a>,
    permitted: PermittedAccounting<'a>,
    state: PermitState,
    request: RequestReservation,
    now: u64,
    closed: bool,
    reads: DispatchReads,
    taken: Result<DispatchStep, PermitError>,
    claimed: Result<DispatchStep, PermitError>,
    timed: Result<DispatchStep, PermitError>,
)
    requires
        accounting.permit == permitted.permit,
        accounting.request_id@ == permitted.request_id@,
        call_ensures(
            PermitAccounting::reserve_only,
            (&accounting, &state, &request, closed, reads),
            taken,
        ),
        call_ensures(
            PermitAccounting::reserve,
            (&accounting, &state, &request, closed, reads),
            claimed,
        ),
        call_ensures(
            PermittedAccounting::reserve,
            (&permitted, &state, &request, now, closed, reads),
            timed,
        ),
    ensures
        claimed is Ok ==> taken is Ok,
        taken is Ok ==> {
            let nonce = accounting.permit.nonce();
            let grant = state@.grants[nonce];
            let key = outside::json_pair_text(grant.funding.dispatch_id@, accounting.request_id@);
            &&& state@.grants.dom().contains(nonce)
            &&& grant.active && !grant.paused && (grant.lease is None || !closed)
            &&& grant.request@ == request@
            &&& reads.revision == Ok::<_, String>(request.identity.instruction_revision)
            &&& reads.prior->Ok_0 is None ==> {
                &&& taken->Ok_0 is Reserve && taken->Ok_0->Reserve_key@ == key
                &&& taken->Ok_0->owner == grant.owner
                &&& claimed is Ok && claimed->Ok_0 is Reserve
                &&& claimed->Ok_0->Reserve_key@ == key && claimed->Ok_0->owner == grant.owner
            }
            &&& reads.prior->Ok_0 is Some ==> {
                &&& taken->Ok_0 is Write && taken->Ok_0->Write_key@ == key
                &&& taken->Ok_0->record == reads.prior->Ok_0->0
                &&& claimed is Ok ==> claimed->Ok_0 is Write && claimed->Ok_0->Write_key@ == key
                    && claimed->Ok_0->record.claimed
            }
        },
        timed is Ok <==> now < permitted.deadline && text::valid_id(permitted.request_id@)
            && claimed is Ok,
        now >= permitted.deadline ==> timed->Err_0 is DeadlineBeforeReservation,
        now < permitted.deadline && !text::valid_id(permitted.request_id@)
            ==> timed->Err_0 is InvalidRequestId,
        now < permitted.deadline && text::valid_id(permitted.request_id@) && claimed is Err
            ==> timed->Err_0 == claimed->Err_0,
{
    permit_laws::reservations_are_taken_under_live_permits(
        state@.grant(accounting.permit.nonce()),
        request,
        closed,
        reads,
    );
    permit_laws::claims_take_what_was_reserved(
        state@.grant(accounting.permit.nonce()),
        request,
        closed,
        reads,
    );
}

/// Once a claim is stored the call goes out, unless its time or its launch is over;
/// and usage is billed for the request of the permit, to its own allocation.
pub proof fn calls_are_billed_to_their_permit<'a>(
    accounting: PermitAccounting<'a>,
    permitted: PermittedAccounting<'a>,
    state: PermitState,
    now: u64,
    closed: bool,
    gone: Result<(), PermitError>,
    receipt: String,
    record: Result<Option<DispatchRecord>, String>,
    billed: Result<Billing, PermitError>,
    timed: Result<Billing, PermitError>,
    key: Option<String>,
)
    requires
        accounting.permit == permitted.permit,
        accounting.request_id@ == permitted.request_id@,
        call_ensures(PermittedAccounting::reserved, (&permitted, &state, now, closed), gone),
        call_ensures(PermitAccounting::reconcile, (&accounting, &state, &receipt, record), billed),
        call_ensures(
            PermittedAccounting::reconcile,
            (&permitted, &state, &receipt, record),
            timed,
        ),
        call_ensures(PermitAccounting::key, (&accounting, &state), key),
    ensures
        ({
            let nonce = accounting.permit.nonce();
            let known = state@.grants.dom().contains(nonce);
            let grant = state@.grants[nonce];
            &&& gone is Ok <==> known && now < permitted.deadline && (grant.lease is None
                || !closed)
            &&& !known ==> gone->Err_0 is UnknownModelPermit
            &&& known && gone is Err ==> gone->Err_0 is DeadlineAfterReservation
            &&& billed is Ok <==> known && record is Ok && record->Ok_0 is Some && ({
                let kept = record->Ok_0->0;
                kept.schema_version == 1 && kept.request@ == grant.request@ && kept.receipt@
                    == receipt@
            })
            &&& billed is Ok ==> billed->Ok_0.request == grant.request && billed->Ok_0.dispatch_id
                == grant.funding.dispatch_id
            &&& timed is Ok <==> text::valid_id(permitted.request_id@) && billed is Ok
            &&& timed is Ok ==> timed->Ok_0 == billed->Ok_0
            &&& !text::valid_id(permitted.request_id@) ==> timed->Err_0 is InvalidRequestId
            &&& key is Some <==> known
            &&& known ==> key->0@ == outside::json_pair_text(
                grant.funding.dispatch_id@,
                accounting.request_id@,
            )
        }),
{
}

/// A provider call waits for a slot of the host until its deadline, and ends with
/// what came of it, or with its deadline where nothing came.
pub proof fn calls_end_with_what_came<C>(
    waited: Waited,
    admitted: Result<(), PermitError>,
    outcome: Option<Result<C, PermitError>>,
    ended: Result<C, PermitError>,
)
    requires
        call_ensures(dispatch::admit_execution, (waited,), admitted),
        call_ensures(dispatch::end_execution::<C>, (outcome,), ended),
    ensures
        admitted is Ok <==> waited is Answered && waited->0 is Ok,
        waited is Answered && admitted is Err ==> admitted->Err_0 == PermitError::Host(
            waited->0->Err_0,
        ),
        !(waited is Answered) ==> admitted->Err_0 is ModelAdmissionDeadline,
        outcome is Some ==> ended == outcome->0,
        outcome is None ==> ended is Err && ended->Err_0 is DeadlineElapsed,
{
}

/// What a boundary reserves is the request as it moved, for its own owner and not
/// claimed yet; an acknowledged one is that of the admission of the permit, and a
/// completed one is at the revision of the permit.
pub proof fn boundaries_are_kept_for_their_admission(
    plan: BoundaryPlan,
    receipt: String,
    record: DispatchRecord,
    state: PermitState,
    permit: ModelPermit,
    closed: bool,
    funding: Result<(), String>,
    acknowledged: Result<Admission, PermitError>,
    completed: Result<(Admission, u64), PermitError>,
)
    requires
        call_ensures(BoundaryPlan::record, (&plan, receipt), record),
        call_ensures(
            boundary::acknowledge_model_boundary,
            (&state, &permit, closed, funding),
            acknowledged,
        ),
        call_ensures(boundary::completed_boundary, (&state, &permit), completed),
    ensures
        record.schema_version == 1 && !record.claimed && record.receipt == receipt,
        record.owner == plan.owner && record.request == plan.request,
        ({
            let known = state@.grants.dom().contains(permit.nonce());
            let grant = state@.grants[permit.nonce()];
            &&& acknowledged is Ok <==> known && state@.authorizes(
                permit.nonce(),
                grant.request,
                closed,
            ) && funding is Ok
            &&& acknowledged is Ok ==> acknowledged->Ok_0 == grant.funding.admission
            &&& completed is Ok <==> known
            &&& !known ==> completed->Err_0 is Protocol
            &&& known ==> ({
                let (admission, revision) = completed->Ok_0;
                admission == grant.funding.admission && revision
                    == grant.request.identity.instruction_revision
            })
        }),
{
}

/// A context is recorded in the campaign of the funding, and shows the work of the
/// permit under the id of the request.
pub proof fn contexts_are_kept_for_their_work<R, M>(
    state: PermitState,
    permit: ModelPermit,
    id: String,
    metadata: Option<M>,
    metadata_valid: bool,
    questions_available: bool,
    closed: bool,
    reads: ContextReads<R>,
    recorded: Result<(String, WorkContextSnapshot<R, M>), PermitError>,
)
    requires
        call_ensures(
            context::record_work_context::<R, M>,
            (
                &state,
                &permit,
                id,
                metadata,
                metadata_valid,
                questions_available,
                closed,
                reads,
            ),
            recorded,
        ),
    ensures
        recorded is Ok ==> ({
            let grant = state@.grants[permit.nonce()];
            let (campaign_id, snapshot) = recorded->Ok_0;
            &&& state@.authorizes(permit.nonce(), grant.request, closed) && metadata_valid
            &&& campaign_id == grant.funding.admission.campaign_id
            &&& snapshot.work_id == grant.request.identity.work_id
            &&& snapshot.request_id == id
            &&& snapshot.objective == grant.funding.admission.objective
            &&& snapshot.worker_claims_informational_only == metadata
        }),
{
    work_laws::contexts_are_recorded_under_a_permit(
        state@,
        permit.nonce(),
        metadata_valid,
        questions_available,
        closed,
        reads,
    );
}

/// A result is recorded for the work and the attempt of the permit, in the campaign
/// of its funding: whole up to 1 MiB, and beyond as a gap that names its id and its
/// length.
pub proof fn results_are_kept_up_to_a_bound(
    state: PermitState,
    permit: ModelPermit,
    id: &str,
    bytes: &[u8],
    kept: Result<ModelResultRecord, PermitError>,
)
    requires
        call_ensures(context::record_model_context_result, (&state, &permit, id, bytes), kept),
    ensures
        kept is Ok <==> state@.grants.dom().contains(permit.nonce()),
        kept is Err ==> kept->Err_0 is Protocol,
        kept is Ok ==> ({
            let grant = state@.grants[permit.nonce()];
            let record = kept->Ok_0;
            &&& record.campaign_id == grant.funding.admission.campaign_id
            &&& record.work_id == grant.request.identity.work_id
            &&& record.attempt_id == grant.request.identity.attempt_id
            &&& record.gap is Some <==> bytes@.len() > 1024 * 1024
            &&& record.gap is Some ==> record.gap->0@ == context::gap_text(
                id@,
                bytes@.len(),
                outside::json_at(bytes@, "/snapshot"@),
                outside::json_at(bytes@, "/succeeded"@),
                outside::json_at(bytes@, "/completion/usage"@),
                outside::json_at(bytes@, "/input_message_count"@),
            )
        }),
{
}

/// A summary names its request and shows its snapshot and the number of messages as
/// they are, the redacted names of its tools one by one, and the redacted completion
/// where there was one: only then did the call succeed.
pub proof fn summaries_show_what_was_retained<S, U: Copy, F: Fn(&String) -> String>(
    request_id: String,
    snapshot: S,
    completion: Option<&Completion<U>>,
    input_message_count: usize,
    tools: Vec<String>,
    redact: F,
    summary: ModelSummary<S, U>,
    i: int,
)
    requires
        call_ensures(
            context::summarize::<S, U, F>,
            (request_id, snapshot, completion, input_message_count, &tools, &redact),
            summary,
        ),
    ensures
        summary.schema_version == 1 && summary.request_id == request_id,
        summary.snapshot == snapshot && summary.input_message_count == input_message_count,
        summary.succeeded <==> completion is Some,
        summary.completion is Some <==> completion is Some,
        completion is Some ==> {
            let kept = summary.completion->0;
            &&& kept.usage == completion->0.usage
            &&& kept.tool_calls@.len() == completion->0.tool_calls@.len()
            &&& call_ensures(redact, (&completion->0.text,), kept.text)
        },
        summary.tool_names@.len() == tools@.len(),
        0 <= i < tools@.len() ==> call_ensures(redact, (&tools@[i],), summary.tool_names@[i]),
{
    if 0 <= i < tools@.len() {
        assert(tools@[i] == tools@[i]);
    }
}

/// What a worker asks of the native jobs is decided for its own permit, on what the
/// authority says where it is free. Where it is busy a job may come back later; where
/// it is broken nothing is taken.
pub proof fn jobs_are_decided_for_their_permit<'a, W>(
    jobs: CpuJobs,
    authority: Authority<'a>,
    permit: ModelPermit,
    reservation: RequestReservation,
    request: CpuJobRequest<W>,
    closed: bool,
    limits: JobLimits,
    step: CpuJobStep<W>,
)
    requires
        call_ensures(
            CpuJobs::request_store::<W>,
            (&jobs, authority, &permit, &reservation, request, closed, &limits),
            step,
        ),
    ensures
        step is Acquire || step is Profile ==> authority is Free && authority->0@.authorizes(
            permit.nonce(),
            reservation,
            closed,
        ),
        step is Busy <==> authority is Busy && (request is TryAcquire || request is Acquire),
        step is Release ==> request is Release || request is Unspawned,
        (request is TryAcquire || request is Acquire) && authority is Free
            && authority->0@.authorizes(permit.nonce(), reservation, closed) && jobs@.issued
            < u64::MAX ==> step is Acquire && step->Acquire_id == jobs@.next_id(),
        request is Profile && authority is Free && authority->0@.authorizes(
            permit.nonce(),
            reservation,
            closed,
        ) ==> step is Profile,
{
}

/// A launch begins with its slots, or with its preparation where it has them; from
/// then on, a worker whose events came through, that was not cancelled and that
/// exited well is settled without a gap, however its group went away as long as it
/// did; and once it is settled and not parked, its events are the result. Failed
/// events come of a bad exit only.
pub proof fn launches_end_as_their_worker_did(
    deadline: u64,
    admitted: bool,
    lease: PermitLease,
    begun: (Launch, LaunchAction),
    launch: Launch,
    success: bool,
    cleanup: Cleanup,
    reaped: (Launch, LaunchAction),
    settled: (Launch, LaunchAction),
)
    requires
        call_ensures(Launch::begin, (deadline, admitted, lease), begun),
        launch.phase == (LaunchPhase::Reaping { collected: Ok(()), cancelled: false }),
        cleanup != Cleanup::Failed,
        call_ensures(
            Launch::step,
            (launch, LaunchEvent::Reaped { exit: Some(success), cleanup }),
            reaped,
        ),
        call_ensures(Launch::step, (reaped.0, LaunchEvent::Settled(Ok(false))), settled),
    ensures
        begun.0.deadline == deadline && begun.0.lease == lease,
        admitted ==> begun.0.phase is Preparing && begun.1 is Prepare,
        !admitted ==> begun.0.phase is Residency && begun.1 is AdmitResidency,
        success ==> reaped.1 is Settle && settled.1 == LaunchAction::Finish(LaunchResult::Events),
        !success ==> reaped.1 is RecordGap,
{
}

/// A launch that may be made has a deadline that is neither behind that of its
/// session nor behind that of its work, and is one of the two.
pub proof fn launches_get_the_earlier_deadline(
    funding: AdmittedWork,
    reservation: RequestReservation,
    work: WorkRequest,
    now: u64,
    deadline: u64,
    now_ms: u128,
    refs_valid: bool,
    absolute: bool,
    res: Result<u64, PermitError>,
)
    requires
        call_ensures(
            launch::begin_launch,
            (&funding, &reservation, &work, now, deadline, now_ms, refs_valid, absolute),
            res,
        ),
    ensures
        res is Ok ==> {
            let left = work.deadline_ms - now_ms;
            &&& res->Ok_0 <= deadline && res->Ok_0 <= now + left
            &&& res->Ok_0 == deadline || res->Ok_0 == now + left
            &&& now < res->Ok_0
        },
        res is Err ==> res->Err_0 is Protocol,
        now < deadline && now_ms < work.deadline_ms && work.work_id@ == funding.admission.work_id@
            && work.generation == funding.admission.generation && work.objective@
            == funding.admission.objective@ && work.assignment > 0 && work.context_refs <= 4
            && refs_valid && absolute && (work.attempt is None || work.attempt->0@
            == reservation.identity.attempt_id@) ==> res is Ok,
{
}

/// A launch is prepared for the worker that the store has registered, on traces that
/// are apart from both directories of the worker; and claimed under its dispatch, or
/// under its dispatch and attempt where it is of one.
pub proof fn launches_run_the_registered_worker(
    traces: Vec<String>,
    workspace: Vec<String>,
    home: Vec<String>,
    funding: AdmittedWork,
    reservation: RequestReservation,
    work: WorkRequest,
    reads: PrepareReads,
    prepared: Result<String, PermitError>,
    claims: ClaimReads,
    claimed: Result<String, PermitError>,
    state: DispatchState,
    worker: Result<String, PermitError>,
    checked: Result<(), PermitError>,
)
    requires
        call_ensures(
            launch::prepare_launch,
            (&traces, &workspace, &home, &funding, &reservation, &work, reads),
            prepared,
        ),
        call_ensures(launch::claim_launch, (&funding, &reservation, &work, claims), claimed),
        call_ensures(launch::registered_worker, (state,), worker),
        call_ensures(launch::check_paths, (&traces, &workspace, &home), checked),
    ensures
        checked is Ok <==> {
            &&& !launch::within(traces@, workspace@) && !launch::within(workspace@, traces@)
            &&& !launch::within(traces@, home@) && !launch::within(home@, traces@)
        },
        checked is Err ==> checked->Err_0 is Protocol && prepared is Err,
        prepared is Ok ==> reads.registered is Ok && reads.registered->Ok_0 is Registered
            && prepared->Ok_0 == reads.registered->Ok_0->worker_id,
        claimed is Ok && work.attempt is None ==> claimed->Ok_0@ == funding.dispatch_id@,
        claimed is Ok && work.attempt is Some ==> claimed->Ok_0@ == outside::json_pair_text(
            funding.dispatch_id@,
            work.attempt->0@,
        ),
        worker is Ok <==> state is Registered,
        worker is Ok ==> worker->Ok_0 == state->worker_id,
        worker is Err ==> worker->Err_0 is Protocol,
{
}

/// A pin names one digest only, in two lower-case hexadecimal digits for each byte:
/// it is met exactly by that digest, and two digests that meet it are the same.
pub proof fn pins_name_one_build(
    one: Vec<u8>,
    two: Vec<u8>,
    pin: String,
    first: Result<(), PermitError>,
    second: Result<(), PermitError>,
)
    requires
        call_ensures(launch::check_digest, (&one, &pin), first),
        call_ensures(launch::check_digest, (&two, &pin), second),
    ensures
        first is Ok <==> pin@.len() == 2 * one@.len() && forall|i: int|
            0 <= i < one@.len() ==> permit_laws::holds_byte(pin@, 2 * i, #[trigger] one@[i]),
        first is Ok && second is Ok ==> one@ == two@,
        first is Err ==> first->Err_0 is BuildPinMismatch,
{
    permit_laws::bytes_are_written_in_hexadecimal(one@);
    permit_laws::bytes_are_written_in_hexadecimal(two@);
    if first is Ok && second is Ok {
        assert(one@.len() == two@.len());
        assert forall|i: int| 0 <= i < one@.len() implies one@[i] == two@[i] by {
            assert(permit_laws::holds_byte(pin@, 2 * i, one@[i]));
            assert(permit_laws::holds_byte(pin@, 2 * i, two@[i]));
        }
        assert(one@ =~= two@);
    }
    if pin@.len() == 2 * one@.len() && forall|i: int|
        0 <= i < one@.len() ==> permit_laws::holds_byte(pin@, 2 * i, #[trigger] one@[i]) {
        let written = text::hex(one@);
        assert forall|k: int| 0 <= k < pin@.len() implies pin@[k] == written[k] by {
            let i = k / 2;
            assert(permit_laws::holds_byte(pin@, 2 * i, one@[i]));
            assert(permit_laws::holds_byte(written, 2 * i, one@[i]));
            assert(k == 2 * i || k == 2 * i + 1);
        }
        assert(pin@ =~= written);
    }
}

/// A channel that ends is well only where its work is not parked; what is left of
/// work that failed or was cancelled says that not all of it was retained, and why.
pub proof fn parked_channels_do_not_end_well(
    standing: Option<WorkStanding>,
    parked: bool,
    ended: Result<(), PermitError>,
    gap: String,
)
    requires
        call_ensures(launch::is_parked, (standing,), parked),
        call_ensures(launch::channel_ended, (standing,), ended),
        call_ensures(launch::retention_gap, (), gap),
    ensures
        parked <==> standing is Some && (standing->0.waits || standing->0.cancellation_requested),
        ended is Ok <==> !parked,
        ended is Err ==> ended->Err_0 is Protocol,
        gap@ == seq!['{'] + work_laws::member("full_retention"@, "false"@) + seq![',']
            + work_laws::member(
            "reason"@,
            "\"work failed or cancelled; unexported live outputs are unavailable\""@,
        ) + seq!['}'],
{
    reveal_strlit("full_retention");
    reveal_strlit("false");
    reveal_strlit("reason");
    reveal_strlit("\"work failed or cancelled; unexported live outputs are unavailable\"");
    reveal_strlit(
        "{\"full_retention\":false,\"reason\":\"work failed or cancelled; unexported live outputs are unavailable\"}",
    );
    assert(gap@ =~= seq!['{'] + work_laws::member("full_retention"@, "false"@) + seq![',']
        + work_laws::member(
        "reason"@,
        "\"work failed or cancelled; unexported live outputs are unavailable\""@,
    ) + seq!['}']);
}

/// Events are believed where each of them is the worker's own; then they are what was
/// parsed.
pub proof fn parsed_events_are_of_their_worker<K>(
    parsed: Option<Vec<EventEnvelope<K>>>,
    worker_id: String,
    res: Result<Vec<EventEnvelope<K>>, PermitError>,
)
    requires
        call_ensures(events::parse_events::<K>, (parsed, &worker_id), res),
    ensures
        res is Ok <==> parsed is Some && forall|i: int|
            0 <= i < parsed->0@.len() ==> (#[trigger] parsed->0@[i]).of_worker(worker_id@),
        res is Ok ==> res->Ok_0 == parsed->0,
        res is Err ==> res->Err_0 is Protocol,
{
}

/// A line that begins with a brace may have 64 MiB, any other one frame; and what is
/// reported in the end must fit into a frame.
pub proof fn lines_fit_their_bound(
    first: Option<u8>,
    size: u64,
    max_frame: u64,
    bound: u64,
    checked: Result<(), PermitError>,
    total: usize,
    frame: usize,
    confirmed: Result<(), PermitError>,
)
    requires
        call_ensures(events::line_bound, (first, max_frame), bound),
        call_ensures(events::check_line, (first, size, max_frame), checked),
        call_ensures(events::confirm, (total, frame), confirmed),
    ensures
        first == Some('{' as u8) ==> bound == 64 * 1024 * 1024,
        first != Some('{' as u8) ==> bound == max_frame,
        checked is Ok <==> size <= bound,
        checked is Err ==> checked->Err_0 is Protocol,
        confirmed is Ok <==> total <= frame,
        confirmed is Err ==> confirmed->Err_0 is Protocol,
{
    assert('{' as u8 == 123u8);
}

/// A trace holds the redacted text of what a tool was given and gave back, and
/// everything else as it is.
pub proof fn traces_are_redacted<F: Fn(&String) -> String>(
    kind: EventKind,
    redact: F,
    traced: EventKind,
)
    requires
        call_ensures(events::traced_kind::<F>, (&kind, &redact), traced),
    ensures
        kind is ToolStarted ==> traced is ToolStarted && call_ensures(
            redact,
            (&kind->arguments,),
            traced->arguments,
        ),
        kind is ToolFinished ==> traced is ToolFinished && call_ensures(
            redact,
            (&kind->output,),
            traced->output,
        ),
        !(kind is ToolStarted || kind is ToolFinished) ==> traced == kind,
{
}

/// A collection begins empty; it ends with all its events where they fit into a
/// frame, and without the raw ones where they do not, and says which.
pub proof fn collections_end_with_what_fits<K>(
    max_frame: usize,
    new: Collector<K>,
    collector: Collector<K>,
    size: usize,
    concluded: (Vec<EventEnvelope<K>>, bool),
)
    requires
        call_ensures(Collector::<K>::new, (max_frame,), new),
        call_ensures(Collector::<K>::conclude, (collector, size), concluded),
    ensures
        new@.events.len() == 0 && new@.retained == 0 && new@.semantic_bytes == 0,
        new@.max_frame == max_frame && new@.seen == Map::<u64, Seq<u8>>::empty(),
        concluded.1 <==> size > collector@.max_frame,
        !concluded.1 ==> concluded.0@ == collector@.events,
        concluded.1 ==> concluded.0@ == events::semantic(collector@.events),
{
}

/// Of a worker that did not exit well, as many events are reported as there were,
/// in order: each candidate as failed, and the others unchanged.
pub proof fn failed_workers_report_every_event<K>(
    given: Vec<EventEnvelope<K>>,
    reported: Vec<EventEnvelope<K>>,
    i: int,
)
    requires
        call_ensures(launch::fail_candidates::<K>, (given,), reported),
        0 <= i < given@.len(),
    ensures
        reported@.len() == given@.len(),
        !(given@[i].kind is WorkCandidate) ==> reported@[i] == given@[i],
        given@[i].kind is WorkCandidate ==> reported@[i].kind is WorkCandidate
            && reported@[i].kind->failure is Some && reported@[i].event_id == given@[i].event_id
            && reported@[i].content == given@[i].content,
{
    assert(launch::failed_event(given@[i], reported@[i]));
}

/// A ledger holds under each key the last of what was given for it, and says whether
/// admissions are paused.
pub proof fn ledgers_hold_the_last_entry(
    reservations: Vec<(String, Hold)>,
    allocations: Vec<(String, bool)>,
    admissions_paused: bool,
    book: Ledger,
    i: int,
    j: int,
)
    requires
        call_ensures(Ledger::new, (reservations, allocations, admissions_paused), book),
        0 <= i < reservations@.len(),
        forall|k: int|
            i < k < reservations@.len() ==> (#[trigger] reservations@[k]).0@
                != reservations@[i].0@,
        0 <= j < allocations@.len(),
        forall|k: int|
            j < k < allocations@.len() ==> (#[trigger] allocations@[k]).0@ != allocations@[j].0@,
    ensures
        book@.admissions_paused == admissions_paused,
        book@.hold(reservations@[i].0@) == Some(reservations@[i].1),
        book@.allocation(allocations@[j].0@) == Some(allocations@[j].1),
{
    permit_laws::the_last_entry_of_a_key_counts(reservations@, i);
    permit_laws::the_last_entry_of_a_key_counts(allocations@, j);
}

/// A permit is the current one of some work where its capability stands there, and the
/// lease of the work is that of its grant; work without one has no lease.
pub proof fn current_leases_are_those_of_the_grant(
    state: PermitState,
    work: &str,
    permit: ModelPermit,
    current: bool,
    lease: Option<u64>,
    grant: Option<&Grant>,
)
    requires
        call_ensures(PermitState::is_current, (&state, work, &permit), current),
        call_ensures(PermitState::current_lease, (&state, work), lease),
        call_ensures(PermitState::grant, (&state, &permit), grant),
    ensures
        current <==> state@.current.dom().contains(work@) && state@.current[work@]
            == permit.nonce(),
        grant is Some <==> state@.grants.dom().contains(permit.nonce()),
        grant is Some ==> *grant->0 == state@.grants[permit.nonce()],
        current && grant is Some ==> lease == grant->0.lease,
        current && grant is None ==> lease is None,
        !state@.current.dom().contains(work@) ==> lease is None,
{
}

/// What a worker printed is read where it is UTF-8: as its lines that begin with a
/// brace, one by one and in order.
pub proof fn printed_lines_are_read(
    bytes: &[u8],
    res: Result<Vec<Vec<u8>>, PermitError>,
    i: int,
)
    requires
        call_ensures(events::event_lines, (bytes,), res),
    ensures
        res is Ok <==> vstd::utf8::valid_utf8(bytes@),
        res is Err ==> res->Err_0 is Protocol,
        res is Ok ==> res->Ok_0@.len() == events::brace_lines(bytes@, 0).len(),
        res is Ok && 0 <= i < res->Ok_0@.len() ==> res->Ok_0@[i]@ == events::brace_lines(
            bytes@,
            0,
        )[i],
{
    if res is Ok && 0 <= i < res->Ok_0@.len() {
        let lines = res->Ok_0@.map_values(|line: Vec<u8>| line@);
        assert(lines[i] == res->Ok_0@[i]@);
    }
}

/// An image meets a pin where its SHA-256 digest does.
pub proof fn images_meet_the_pin_of_their_digest(
    image: &[u8],
    digest: Vec<u8>,
    pin: String,
    checked: Result<(), PermitError>,
    met: Result<(), PermitError>,
)
    requires
        digest@ == outside::sha256_of(image@),
        call_ensures(launch::check_build_pin, (image, &pin), checked),
        call_ensures(launch::check_digest, (&digest, &pin), met),
    ensures
        checked is Ok <==> met is Ok,
        checked is Err ==> checked->Err_0 is BuildPinMismatch,
{
}

/// A lease is opened under its id and not closed. A new authority knows nothing. A
/// permit shows nothing of its secret.
pub proof fn authorities_begin_empty(
    id: u64,
    lease: PermitLease,
    state: PermitState,
    permit: ModelPermit,
    shown: String,
)
    requires
        call_ensures(PermitLease::open, (id,), lease),
        call_ensures(PermitState::new, (), state),
        call_ensures(ModelPermit::redacted, (&permit,), shown),
    ensures
        lease.id_spec() == id && !lease.closed_spec(),
        state@.grants == Map::<u128, Grant>::empty(),
        state@.current == Map::<Seq<char>, u128>::empty(),
        shown@ == "ModelPermit([REDACTED])"@,
{
}

/// A typed attempt is let run on its own execution, which is of the same work and not
/// over; other work also without one.
pub proof fn attempts_run_on_their_execution(
    record: Result<Option<ExecutionRecord>, String>,
    funding: AdmittedWork,
    reservation: RequestReservation,
    work: WorkRequest,
    res: Result<(), PermitError>,
    other: WorkRequest,
    same: bool,
)
    requires
        call_ensures(launch::validate_execution, (record, &funding, &reservation, &work), res),
        call_ensures(WorkRequest::same, (&work, &other), same),
    ensures
        res is Ok ==> record is Ok && (record->Ok_0 is Some || work.attempt is None),
        res is Ok && record->Ok_0 is Some ==> {
            let kept = record->Ok_0->0;
            &&& kept.phase is ExecutingUnknown && !kept.settled
            &&& kept.work.work_id@ == work.work_id@ && kept.work.content@ == work.content@
            &&& kept.funding.dispatch_id@ == funding.dispatch_id@
            &&& kept.model@ == reservation@
        },
        record == Ok::<_, String>(None::<ExecutionRecord>) && work.attempt is None ==> res is Ok,
        same ==> work.work_id@ == other.work_id@ && work.objective@ == other.objective@
            && work.generation == other.generation && work.content@ == other.content@,
        work == other ==> same,
{
}

/// A wait takes its steps as they are laid out, and a slot is had on a good answer.
pub proof fn waits_take_their_steps(
    phase: WaitPhase,
    event: WaitEvent,
    step: (WaitPhase, WaitAction),
    waited: Waited,
    admitted: Result<(), PermitError>,
)
    requires
        call_ensures(wait::wait_step, (phase, event), step),
        call_ensures(launch::admit_capacity, (waited,), admitted),
    ensures
        step.1 is Answer ==> phase is Resuming && event is Resumed && event->Resumed_0 is Ok,
        phase is Resuming && event is Resumed && event->Resumed_0 is Ok ==> step.1 is Answer,
        phase is Starting && event is Started && event->Started_0 is Ok
            ==> step.1 is ReleaseAndPoll && step.0 is Polling,
        phase is Polling && event is Polled && event->Polled_0 == Ok::<_, PermitError>(true)
            ==> step.1 is Reacquire && step.0 is Reacquiring,
        phase is Polling && event is Polled && event->Polled_0 == Ok::<_, PermitError>(false)
            ==> step.1 is Sleep && step.0 is Sleeping,
        phase is Sleeping && event is Slept ==> step.1 is Poll && step.0 is Polling,
        admitted is Ok <==> waited is Answered && waited->0 is Ok,
{
}

/// A reservation or claim is asked for in one call, told apart by `claim` alone; its
/// record is of the request and the receipt, and claimed where it was a claim.
pub proof fn reserving_and_claiming_differ_by_the_claim<'a>(
    accounting: PermitAccounting<'a>,
    state: PermitState,
    request: RequestReservation,
    claim: bool,
    closed: bool,
    reads: DispatchReads,
    asked: Result<DispatchStep, PermitError>,
    taken: Result<DispatchStep, PermitError>,
    claimed: Result<DispatchStep, PermitError>,
    owner: String,
    receipt: String,
    record: DispatchRecord,
)
    requires
        call_ensures(
            PermitAccounting::reserve_or_claim,
            (&accounting, &state, &request, claim, closed, reads),
            asked,
        ),
        call_ensures(
            PermitAccounting::reserve_only,
            (&accounting, &state, &request, closed, reads),
            taken,
        ),
        call_ensures(
            PermitAccounting::reserve,
            (&accounting, &state, &request, closed, reads),
            claimed,
        ),
        call_ensures(dispatch::reserved, (owner, request, receipt, claim), record),
    ensures
        claim ==> (asked is Ok <==> claimed is Ok),
        !claim ==> (asked is Ok <==> taken is Ok),
        claim && asked is Err ==> asked->Err_0 == claimed->Err_0,
        !claim && asked is Err ==> asked->Err_0 == taken->Err_0,
        record.owner == owner && record.request == request && record.receipt == receipt,
        record.claimed == claim && record.schema_version == 1,
{
}

} // verus!
