//! Launching a worker: what must hold before it runs, what its claim leaves
//! behind, and what comes of it once it has ended.
use vstd::prelude::*;
use vstd::string::*;
use crate::authority::{ModelPermit, PermitLease, PermitState};
use crate::errors::PermitError;
use crate::events::{EventEnvelope, EventKind};
use crate::ledger::{Ledger, Usage};
use crate::model::{AdmittedWork, DispatchState, RequestReservation};
use crate::outside;
use crate::text;

verus! {

/// What a worker is asked to do: what the host decides on, and the rest of it.
#[derive(Debug)]
pub struct WorkRequest {
    pub work_id: String,
    pub objective: String,
    pub generation: u64,
    pub assignment: u64,
    /// Milliseconds since the epoch.
    pub deadline_ms: u64,
    /// How many resources were selected for it.
    pub context_refs: usize,
    /// The id of the typed attempt that the request belongs to, if it does.
    pub attempt: Option<String>,
    /// The whole request as JSON text, with what the host does not decide on.
    pub content: String,
}

impl WorkRequest {
    /// Whether two requests are the same in every part.
    pub open spec fn same_as(&self, other: &WorkRequest) -> bool {
        &&& self.work_id@ == other.work_id@
        &&& self.objective@ == other.objective@
        &&& self.generation == other.generation
        &&& self.assignment == other.assignment
        &&& self.deadline_ms == other.deadline_ms
        &&& self.context_refs == other.context_refs
        &&& match (self.attempt, other.attempt) {
            (Some(one), Some(two)) => one@ == two@,
            (None, None) => true,
            _ => false,
        }
        &&& self.content@ == other.content@
    }

    /// Whether two requests are the same in every part.
    pub fn same(&self, other: &WorkRequest) -> (res: bool)
        ensures
            res == self.same_as(other),
    {
        let attempts = match (&self.attempt, &other.attempt) {
            (Some(one), Some(two)) => *one == *two,
            (None, None) => true,
            _ => false,
        };
        self.work_id == other.work_id && self.objective == other.objective && self.generation
            == other.generation && self.assignment == other.assignment && self.deadline_ms
            == other.deadline_ms && self.context_refs == other.context_refs && attempts
            && self.content == other.content
    }
}

/// How a review of an execution ended.
#[derive(Clone, Copy, Debug, PartialEq, Eq, Structural)]
pub enum Evaluation {
    Accepted,
    AcceptedHuman,
    Rejected,
    Unverified,
}

/// How far an execution came.
#[derive(Clone, Copy, Debug, PartialEq, Eq, Structural)]
pub enum ExecutionPhase {
    ExecutingUnknown,
    EvidenceReady,
    AwaitingVerification,
    AwaitingAcceptance,
    ReviewingUnknown,
    Reviewed(Evaluation),
}

/// What the store holds of the execution of a piece of work.
pub struct ExecutionRecord {
    pub work: WorkRequest,
    pub funding: AdmittedWork,
    pub model: RequestReservation,
    pub phase: ExecutionPhase,
    pub settled: bool,
}

/// Whether the execution that the store holds is the one at hand, and is under
/// way.
pub open spec fn execution_current(
    record: ExecutionRecord,
    funding: AdmittedWork,
    reservation: RequestReservation,
    work: WorkRequest,
) -> bool {
    &&& record.work.same_as(&work)
    &&& record.funding.same_as(&funding)
    &&& record.model@ == reservation@
    &&& record.phase == ExecutionPhase::ExecutingUnknown
    &&& !record.settled
}

/// Why the execution that the store holds does not allow a launch, if it does
/// not. A typed attempt needs one; any other launch only must not go against one.
pub open spec fn execution_refusal(
    record: Result<Option<ExecutionRecord>, String>,
    funding: AdmittedWork,
    reservation: RequestReservation,
    work: WorkRequest,
) -> Option<PermitError> {
    match record {
        Err(error) => Some(PermitError::Host(error)),
        Ok(Some(record)) => if execution_current(record, funding, reservation, work) {
            None
        } else {
            Some(PermitError::Protocol)
        },
        Ok(None) => if work.attempt is Some {
            Some(PermitError::Protocol)
        } else {
            None
        },
    }
}

/// Whether the execution that the store holds allows a launch.
pub fn validate_execution(
    record: Result<Option<ExecutionRecord>, String>,
    funding: &AdmittedWork,
    reservation: &RequestReservation,
    work: &WorkRequest,
) -> (res: Result<(), PermitError>)
    ensures
        match execution_refusal(record, *funding, *reservation, *work) {
            Some(error) => res == Err::<(), _>(error),
            None => res is Ok,
        },
{
    match record {
        Err(error) => Err(PermitError::Host(error)),
        Ok(Some(record)) => if record.work.same(work) && record.funding.same(funding)
            && record.model.same(reservation) && record.phase == ExecutionPhase::ExecutingUnknown
            && !record.settled {
            Ok(())
        } else {
            Err(PermitError::Protocol)
        },
        Ok(None) => if work.attempt.is_some() {
            Err(PermitError::Protocol)
        } else {
            Ok(())
        },
    }
}

/// How many resources a request may have.
pub const MAX_CONTEXT_REFS: usize = 4;

/// Whether a launch may begin. `now` and `deadline` are milliseconds of the
/// host's clock, `now_ms` milliseconds since the epoch; `refs_valid` says whether
/// every selected resource is well formed, `absolute` whether the paths of the
/// executable, the workspace and the home are absolute.
pub open spec fn launch_allowed(
    funding: AdmittedWork,
    reservation: RequestReservation,
    work: WorkRequest,
    now: u64,
    deadline: u64,
    now_ms: u128,
    refs_valid: bool,
    absolute: bool,
) -> bool {
    &&& now < deadline
    &&& now_ms < work.deadline_ms
    &&& work.work_id@ == funding.admission.work_id@
    &&& work.generation == funding.admission.generation
    &&& work.objective@ == funding.admission.objective@
    &&& work.assignment != 0
    &&& work.context_refs <= MAX_CONTEXT_REFS
    &&& refs_valid
    &&& work.attempt matches Some(attempt) ==> attempt@ == reservation.identity.attempt_id@
    &&& absolute
}

/// When a launch must have ended: by the host's deadline and by the request's.
pub open spec fn launch_deadline(work: WorkRequest, now: u64, deadline: u64, now_ms: u128) -> u64 {
    if now + (work.deadline_ms - now_ms) <= deadline {
        (now + (work.deadline_ms - now_ms)) as u64
    } else {
        deadline
    }
}

/// Whether a launch may begin, and when it must have ended.
pub fn begin_launch(
    funding: &AdmittedWork,
    reservation: &RequestReservation,
    work: &WorkRequest,
    now: u64,
    deadline: u64,
    now_ms: u128,
    refs_valid: bool,
    absolute: bool,
) -> (res: Result<u64, PermitError>)
    ensures
        if launch_allowed(
            *funding,
            *reservation,
            *work,
            now,
            deadline,
            now_ms,
            refs_valid,
            absolute,
        ) {
            res == Ok::<_, PermitError>(launch_deadline(*work, now, deadline, now_ms))
        } else {
            res == Err::<u64, _>(PermitError::Protocol)
        },
{
    let attempt_matches = match &work.attempt {
        Some(attempt) => *attempt == reservation.identity.attempt_id,
        None => true,
    };
    if deadline <= now || work.deadline_ms as u128 <= now_ms || work.work_id
        != funding.admission.work_id || work.generation != funding.admission.generation
        || work.objective != funding.admission.objective || work.assignment == 0
        || work.context_refs > MAX_CONTEXT_REFS || !refs_valid || !attempt_matches || !absolute {
        return Err(PermitError::Protocol);
    }
    let left: u64 = (work.deadline_ms as u128 - now_ms) as u64;
    match now.checked_add(left) {
        Some(limit) => if limit <= deadline {
            Ok(limit)
        } else {
            Ok(deadline)
        },
        None => Ok(deadline),
    }
}

/// Whether one canonical path, as its components, is at or below another.
pub open spec fn within(path: Seq<String>, directory: Seq<String>) -> bool {
    directory.len() <= path.len() && forall|i: int|
        0 <= i < directory.len() ==> (#[trigger] path[i])@ == directory[i]@
}

fn is_within(path: &Vec<String>, directory: &Vec<String>) -> (res: bool)
    ensures
        res == within(path@, directory@),
{
    if directory.len() > path.len() {
        return false;
    }
    let mut i: usize = 0;
    while i < directory.len()
        invariant
            i <= directory@.len() <= path@.len(),
            forall|j: int| 0 <= j < i ==> (#[trigger] path@[j])@ == directory@[j]@,
        decreases directory.len() - i,
    {
        if path[i] != directory[i] {
            assert(path@[i as int]@ != directory@[i as int]@);
            return false;
        }
        i = i + 1;
    }
    true
}

/// Neither path is at or below the other.
pub open spec fn apart(one: Seq<String>, two: Seq<String>) -> bool {
    !within(one, two) && !within(two, one)
}

/// Whether a worker's directories stay apart from the host's traces. Each path is
/// canonical, and given as its components.
pub fn check_paths(
    traces: &Vec<String>,
    workspace: &Vec<String>,
    home: &Vec<String>,
) -> (res: Result<(), PermitError>)
    ensures
        if apart(traces@, workspace@) && apart(traces@, home@) {
            res is Ok
        } else {
            res == Err::<(), _>(PermitError::Protocol)
        },
{
    if is_within(traces, workspace) || is_within(workspace, traces) || is_within(traces, home)
        || is_within(home, traces) {
        Err(PermitError::Protocol)
    } else {
        Ok(())
    }
}

/// The worker that admitted work was registered for.
pub fn registered_worker(state: DispatchState) -> (res: Result<String, PermitError>)
    ensures
        match state {
            DispatchState::Registered { worker_id } => res == Ok::<_, PermitError>(worker_id),
            _ => res == Err::<String, _>(PermitError::Protocol),
        },
{
    match state {
        DispatchState::Registered { worker_id } => Ok(worker_id),
        _ => Err(PermitError::Protocol),
    }
}

/// What the host read before it issues the permit of a launch.
pub struct PrepareReads {
    /// Whether every selected resource can be read.
    pub resources: Result<(), String>,
    /// Whether the funding is what the store admitted.
    pub funding: Result<(), String>,
    /// The execution of the work, if there is one.
    pub execution: Result<Option<ExecutionRecord>, String>,
    /// How far the dispatch of the work came.
    pub registered: Result<DispatchState, String>,
}

/// Why a launch is not prepared, if it is not. The first reason counts.
pub open spec fn prepare_refusal(
    separate: bool,
    funding: AdmittedWork,
    reservation: RequestReservation,
    work: WorkRequest,
    reads: PrepareReads,
) -> Option<PermitError> {
    let execution = execution_refusal(reads.execution, funding, reservation, work);
    if !separate {
        Some(PermitError::Protocol)
    } else if reads.resources is Err {
        Some(PermitError::Host(reads.resources->Err_0))
    } else if reads.funding is Err {
        Some(PermitError::Host(reads.funding->Err_0))
    } else if execution is Some {
        execution
    } else if reads.registered is Err {
        Some(PermitError::Host(reads.registered->Err_0))
    } else if !(reads.registered->Ok_0 is Registered) {
        Some(PermitError::Protocol)
    } else {
        None
    }
}

/// Whether a launch may be given a permit, and as which worker it runs. The paths
/// are canonical, and given as their components.
pub fn prepare_launch(
    traces: &Vec<String>,
    workspace: &Vec<String>,
    home: &Vec<String>,
    funding: &AdmittedWork,
    reservation: &RequestReservation,
    work: &WorkRequest,
    reads: PrepareReads,
) -> (res: Result<String, PermitError>)
    ensures
        match prepare_refusal(
            apart(traces@, workspace@) && apart(traces@, home@),
            *funding,
            *reservation,
            *work,
            reads,
        ) {
            Some(error) => res == Err::<String, _>(error),
            None => res == Ok::<_, PermitError>(reads.registered->Ok_0->worker_id),
        },
{
    if let Err(error) = check_paths(traces, workspace, home) {
        return Err(error);
    }
    if let Err(error) = reads.resources {
        return Err(PermitError::Host(error));
    }
    if let Err(error) = reads.funding {
        return Err(PermitError::Host(error));
    }
    if let Err(error) = validate_execution(reads.execution, funding, reservation, work) {
        return Err(error);
    }
    match reads.registered {
        Err(error) => Err(PermitError::Host(error)),
        Ok(state) => registered_worker(state),
    }
}

/// What the host read, in one write transaction, before it claims a launch.
pub struct ClaimReads {
    /// Whether the funding is what the store admitted.
    pub funding: Result<(), String>,
    /// The ledger of the campaign.
    pub ledger: Result<Ledger, String>,
    /// The execution of the work, if there is one.
    pub execution: Result<Option<ExecutionRecord>, String>,
    /// Whether a launch stands under the launch's key.
    pub launched: Result<bool, String>,
}

/// The key of a launch: one per allocation, or one per typed attempt of it.
pub open spec fn launch_key(funding: AdmittedWork, work: WorkRequest) -> Seq<char> {
    match work.attempt {
        Some(attempt) => outside::json_pair_text(funding.dispatch_id@, attempt@),
        None => funding.dispatch_id@,
    }
}

/// The key of a launch.
pub fn key_of_launch(funding: &AdmittedWork, work: &WorkRequest) -> (res: String)
    ensures
        res@ == launch_key(*funding, *work),
{
    match &work.attempt {
        Some(attempt) => outside::json_pair(&funding.dispatch_id, attempt),
        None => funding.dispatch_id.clone(),
    }
}

/// Why a launch is not claimed, if it is not. The first reason counts.
pub open spec fn launch_refusal(
    funding: AdmittedWork,
    reservation: RequestReservation,
    work: WorkRequest,
    reads: ClaimReads,
) -> Option<PermitError> {
    let hold = reads.ledger->Ok_0@.hold(funding.dispatch_id@);
    let execution = execution_refusal(reads.execution, funding, reservation, work);
    if reads.funding is Err {
        Some(PermitError::Host(reads.funding->Err_0))
    } else if reads.ledger is Err {
        Some(PermitError::Host(reads.ledger->Err_0))
    } else if hold is None || reads.ledger->Ok_0@.admissions_paused
        || hold->0.cancellation_requested || hold->0.usage != Usage::Unknown {
        Some(PermitError::Protocol)
    } else if execution is Some {
        execution
    } else if reads.launched is Err {
        Some(PermitError::Host(reads.launched->Err_0))
    } else if reads.launched->Ok_0 {
        Some(PermitError::Protocol)
    } else {
        None
    }
}

/// Whether a launch may be claimed, under the key that is handed back. A claim
/// survives a failed start and a restart: what is not known to have ended is
/// never started again.
pub fn claim_launch(
    funding: &AdmittedWork,
    reservation: &RequestReservation,
    work: &WorkRequest,
    reads: ClaimReads,
) -> (res: Result<String, PermitError>)
    ensures
        match launch_refusal(*funding, *reservation, *work, reads) {
            Some(error) => res == Err::<String, _>(error),
            None => res matches Ok(key) && key@ == launch_key(*funding, *work),
        },
{
    if let Err(error) = reads.funding {
        return Err(PermitError::Host(error));
    }
    let ledger = match reads.ledger {
        Err(error) => {
            return Err(PermitError::Host(error));
        },
        Ok(ledger) => ledger,
    };
    match ledger.hold(&funding.dispatch_id) {
        None => {
            return Err(PermitError::Protocol);
        },
        Some(hold) => {
            if ledger.admissions_paused() || hold.cancellation_requested || !matches!(
                hold.usage,
                Usage::Unknown
            ) {
                return Err(PermitError::Protocol);
            }
        },
    }
    if let Err(error) = validate_execution(reads.execution, funding, reservation, work) {
        return Err(error);
    }
    match reads.launched {
        Err(error) => Err(PermitError::Host(error)),
        Ok(launched) => if launched {
            Err(PermitError::Protocol)
        } else {
            Ok(key_of_launch(funding, work))
        },
    }
}

/// The claim of a launch was made durable, or was not: then its permit is
/// revoked.
pub fn settle_claim(
    state: &mut PermitState,
    permit: ModelPermit,
    claim: Result<(), PermitError>,
) -> (res: Result<ModelPermit, PermitError>)
    ensures
        match claim {
            Ok(_) => res == Ok::<_, PermitError>(permit) && final(state)@ == old(state)@,
            Err(error) => res == Err::<ModelPermit, _>(error) && final(state)@ == if old(
                state,
            )@.grant(permit.nonce()) is Some {
                old(state)@.deactivated(permit.nonce())
            } else {
                old(state)@
            },
        },
        old(state)@.well_formed() ==> final(state)@.well_formed(),
{
    match claim {
        Ok(_) => Ok(permit),
        Err(error) => {
            let _ = state.host_revoke_model_permit(&permit);
            Err(error)
        },
    }
}

/// How waiting for a slot of the host ended.
pub enum Waited {
    /// The work was cancelled meanwhile.
    Cancelled,
    /// The deadline passed.
    Deadline,
    /// The host answered.
    Answered(Result<(), String>),
}

/// Why a launch got no slot of the host, if it did not.
pub open spec fn capacity_refusal(waited: Waited) -> Option<PermitError> {
    match waited {
        Waited::Cancelled => Some(PermitError::AdmissionCancelled),
        Waited::Deadline => Some(PermitError::AdmissionDeadline),
        Waited::Answered(Err(error)) => Some(PermitError::Host(error)),
        Waited::Answered(Ok(_)) => None,
    }
}

/// Whether a launch got a slot of the host.
pub fn admit_capacity(waited: Waited) -> (res: Result<(), PermitError>)
    ensures
        match capacity_refusal(waited) {
            Some(error) => res == Err::<(), _>(error),
            None => res is Ok,
        },
{
    match waited {
        Waited::Cancelled => Err(PermitError::AdmissionCancelled),
        Waited::Deadline => Err(PermitError::AdmissionDeadline),
        Waited::Answered(Err(error)) => Err(PermitError::Host(error)),
        Waited::Answered(Ok(_)) => Ok(()),
    }
}

/// Whether a worker that continues an earlier one runs the binary that the
/// continuation was made for: `image` is what it runs, `pin` the SHA-256 digest
/// that is expected of it, in hexadecimal.
pub fn check_build_pin(image: &[u8], pin: &String) -> (res: Result<(), PermitError>)
    ensures
        if text::hex(outside::sha256_of(image@)) == pin@ {
            res is Ok
        } else {
            res == Err::<(), _>(PermitError::BuildPinMismatch)
        },
{
    check_digest(&outside::sha256(image), pin)
}

/// Whether the digest of a binary is the one that is expected, in hexadecimal.
pub fn check_digest(digest: &Vec<u8>, pin: &String) -> (res: Result<(), PermitError>)
    ensures
        if text::hex(digest@) == pin@ {
            res is Ok
        } else {
            res == Err::<(), _>(PermitError::BuildPinMismatch)
        },
{
    if text::hex_text(digest) != *pin {
        Err(PermitError::BuildPinMismatch)
    } else {
        Ok(())
    }
}

/// What the owner of a launch holds while its worker runs.
pub struct LaunchGuard {
    /// Whether a process group may still run.
    pub running: bool,
    pub holds_execution: bool,
    pub holds_residency: bool,
    pub lease: PermitLease,
}

/// What is to be done when the owner of a launch goes away.
#[derive(Clone, Copy, Debug, PartialEq, Eq, Structural)]
pub struct Abandonment {
    /// Keep the slots taken: nobody knows that the worker has ended.
    pub retain_execution: bool,
    pub retain_residency: bool,
    /// Kill the worker's process group.
    pub kill: bool,
}

impl LaunchGuard {
    /// The owner goes away. The lease is closed in any case.
    pub fn abandon(&mut self) -> (res: Abandonment)
        ensures
            res.kill == old(self).running,
            res.retain_execution == (old(self).running && old(self).holds_execution),
            res.retain_residency == (old(self).running && old(self).holds_residency),
            final(self).lease.closed_spec(),
            final(self).lease.id_spec() == old(self).lease.id_spec(),
            final(self).running == old(self).running,
            final(self).holds_execution == (old(self).holds_execution && !old(self).running),
            final(self).holds_residency == (old(self).holds_residency && !old(self).running),
    {
        let res = Abandonment {
            retain_execution: self.running && self.holds_execution,
            retain_residency: self.running && self.holds_residency,
            kill: self.running,
        };
        if self.running {
            self.holds_execution = false;
            self.holds_residency = false;
        }
        self.lease.close();
        res
    }

    /// The worker was killed and reaped: its slots are free again.
    pub fn reaped(&mut self)
        ensures
            !final(self).running,
            !final(self).holds_execution,
            !final(self).holds_residency,
            final(self).lease == old(self).lease,
    {
        self.running = false;
        self.holds_execution = false;
        self.holds_residency = false;
    }
}

/// What the store says of a piece of work: whether it waits, and whether its
/// cancellation was requested.
#[derive(Clone, Copy, Debug, PartialEq, Eq, Structural)]
pub struct WorkStanding {
    pub waits: bool,
    pub cancellation_requested: bool,
}

/// Whether a piece of work is parked: it waits, or is to be cancelled. Where the
/// store cannot say, it is not.
pub open spec fn parked(standing: Option<WorkStanding>) -> bool {
    standing matches Some(standing) && (standing.waits || standing.cancellation_requested)
}

/// Whether a piece of work is parked.
pub fn is_parked(standing: Option<WorkStanding>) -> (res: bool)
    ensures
        res == parked(standing),
{
    match standing {
        Some(standing) => standing.waits || standing.cancellation_requested,
        None => false,
    }
}

/// Whether a launch goes on once its channel has ended: a clean end is one too,
/// but a parked worker has nothing more to say.
pub fn channel_ended(standing: Option<WorkStanding>) -> (res: Result<(), PermitError>)
    ensures
        if parked(standing) {
            res == Err::<(), _>(PermitError::Protocol)
        } else {
            res is Ok
        },
{
    if is_parked(standing) {
        Err(PermitError::Protocol)
    } else {
        Ok(())
    }
}

/// How killing a worker's process group went.
#[derive(Clone, Copy, Debug, PartialEq, Eq, Structural)]
pub enum Cleanup {
    Killed,
    /// There was no group any more.
    Gone,
    Failed,
}

/// What is recorded in the place of the outputs that a worker did not export.
pub fn retention_gap() -> (res: String)
    ensures
        res@
            == "{\"full_retention\":false,\"reason\":\"work failed or cancelled; unexported live outputs are unavailable\"}"@,
{
    "{\"full_retention\":false,\"reason\":\"work failed or cancelled; unexported live outputs are unavailable\"}".to_owned()
}

/// An event as it is reported of a worker that exited unsuccessfully: a result
/// is a failure.
pub open spec fn failed_event<K>(event: EventEnvelope<K>, reported: EventEnvelope<K>) -> bool {
    if event.kind is WorkCandidate {
        &&& reported.kind matches EventKind::WorkCandidate { failure: Some(message) }
        &&& message@ == "worker exited unsuccessfully"@
        &&& reported == (EventEnvelope { kind: reported.kind, ..event })
    } else {
        reported == event
    }
}

/// The events of a worker that exited unsuccessfully, as they are reported: its
/// output counts, but no result of it does.
pub fn fail_candidates<K>(events: Vec<EventEnvelope<K>>) -> (res: Vec<EventEnvelope<K>>)
    ensures
        res@.len() == events@.len(),
        forall|i: int|
            0 <= i < events@.len() ==> failed_event(#[trigger] events@[i], res@[i]),
{
    let ghost all = events@;
    let mut reported: Vec<EventEnvelope<K>> = Vec::new();
    for event in iter: events
        invariant
            iter.seq() == all,
            reported@.len() == iter.index(),
            forall|i: int| 0 <= i < iter.index() ==> failed_event(#[trigger] all[i], reported@[i]),
    {
        let ghost given = event;
        let mut event = event;
        if matches!(event.kind, EventKind::WorkCandidate { .. }) {
            event.kind =
            EventKind::WorkCandidate { failure: Some("worker exited unsuccessfully".to_owned()) };
        }
        assert(failed_event(given, event));
        reported.push(event);
    }
    reported
}

/// How far a launch came.
pub enum LaunchPhase {
    /// Waiting for a place among the resident workers.
    Residency,
    /// Waiting for a place among the executing ones.
    Execution,
    /// Checking, issuing the permit and claiming the launch.
    Preparing,
    /// The claim is durable; nothing was started.
    Claimed,
    Spawning,
    Running,
    /// Killing the worker's process group and reaping its leader.
    Reaping { collected: Result<(), PermitError>, cancelled: bool },
    /// Recording that outputs are missing.
    Gap { collected: Result<(), PermitError>, cancelled: bool, success: bool },
    /// Asking whether the work is parked, and acknowledging its end if it is.
    Settling { collected: Result<(), PermitError>, cancelled: bool, success: bool },
    Ended,
}

/// What happened to a launch.
pub enum LaunchEvent {
    Waited(Waited),
    Prepared(Result<(), PermitError>),
    /// The host looked, at `now`, whether the work was cancelled.
    Checked { cancelled: bool, now: u64 },
    Spawned(bool),
    /// The worker's channel and output ended.
    Ran(Result<(), PermitError>),
    /// The work was cancelled while its worker ran.
    CancelRequested,
    /// The group was killed. `exit` says whether the worker exited successfully;
    /// it is absent where it was not reaped in time.
    Reaped { exit: Option<bool>, cleanup: Cleanup },
    GapRecorded(Result<(), String>),
    /// Whether the work was parked.
    Settled(Result<bool, String>),
}

/// What comes of a launch.
pub enum LaunchResult {
    /// No events.
    Nothing,
    /// The events that were collected.
    Events,
    /// The events that were collected, with every result a failure.
    FailedEvents,
    Refused(PermitError),
}

/// What the host does next for a launch.
pub enum LaunchAction {
    AdmitResidency,
    AdmitExecution,
    Prepare,
    CheckCancellation,
    Spawn,
    Run,
    /// Kill the process group and reap its leader; the lease is closed.
    KillAndReap,
    RecordGap,
    Settle,
    Finish(LaunchResult),
    Ignore,
}

/// A launch: how far it came, when it must have started its worker, and the lease
/// that its permit is issued under. The launch owns the lease from its beginning,
/// so that a permit that is issued late finds it closed.
pub struct Launch {
    pub deadline: u64,
    pub phase: LaunchPhase,
    pub lease: PermitLease,
}

impl Launch {
    pub open spec fn to(self, phase: LaunchPhase) -> Launch {
        Launch { phase, ..self }
    }

    /// The launch with its lease closed.
    pub open spec fn shut(self) -> Launch {
        Launch { lease: self.lease.shut(), ..self }
    }

    /// The launch ended: its lease is closed, whatever it ended with.
    pub open spec fn over(self, result: LaunchResult) -> (Launch, LaunchAction) {
        (self.shut().to(LaunchPhase::Ended), LaunchAction::Finish(result))
    }

    /// The launch after its owner went away.
    pub open spec fn abandoned(self) -> Launch {
        self.shut().to(LaunchPhase::Ended)
    }

    pub open spec fn refused(self, error: PermitError) -> (Launch, LaunchAction) {
        self.over(LaunchResult::Refused(error))
    }

    /// What comes of a launch whose worker has ended. A parked one leaves
    /// nothing; else what was collected counts, but no result of a worker that
    /// exited unsuccessfully.
    pub open spec fn result_of(
        collected: Result<(), PermitError>,
        cancelled: bool,
        success: bool,
        parked: bool,
    ) -> LaunchResult {
        if parked {
            LaunchResult::Nothing
        } else {
            match collected {
                Err(error) => LaunchResult::Refused(error),
                Ok(_) => if cancelled {
                    LaunchResult::Nothing
                } else if success {
                    LaunchResult::Events
                } else {
                    LaunchResult::FailedEvents
                },
            }
        }
    }

    /// What an event leads to. What comes out of turn ends the launch.
    pub open spec fn next(self, event: LaunchEvent) -> (Launch, LaunchAction) {
        match (self.phase, event) {
            (LaunchPhase::Ended, _) => (self, LaunchAction::Ignore),
            (LaunchPhase::Residency, LaunchEvent::Waited(waited)) => match capacity_refusal(
                waited,
            ) {
                Some(error) => self.refused(error),
                None => (self.to(LaunchPhase::Execution), LaunchAction::AdmitExecution),
            },
            (LaunchPhase::Execution, LaunchEvent::Waited(waited)) => match capacity_refusal(
                waited,
            ) {
                Some(error) => self.refused(error),
                None => (self.to(LaunchPhase::Preparing), LaunchAction::Prepare),
            },
            (LaunchPhase::Preparing, LaunchEvent::Prepared(Ok(_))) => (
                self.to(LaunchPhase::Claimed),
                LaunchAction::CheckCancellation,
            ),
            (LaunchPhase::Preparing, LaunchEvent::Prepared(Err(error))) => self.refused(error),
            (LaunchPhase::Claimed, LaunchEvent::Checked { cancelled, now }) => if cancelled {
                self.over(LaunchResult::Nothing)
            } else if now >= self.deadline {
                self.refused(PermitError::Protocol)
            } else {
                (self.to(LaunchPhase::Spawning), LaunchAction::Spawn)
            },
            (LaunchPhase::Spawning, LaunchEvent::Spawned(true)) => (
                self.to(LaunchPhase::Running),
                LaunchAction::Run,
            ),
            (LaunchPhase::Running, LaunchEvent::Ran(collected)) => (
                self.shut().to(LaunchPhase::Reaping { collected, cancelled: false }),
                LaunchAction::KillAndReap,
            ),
            (LaunchPhase::Running, LaunchEvent::CancelRequested) => (
                self.shut().to(LaunchPhase::Reaping { collected: Ok(()), cancelled: true }),
                LaunchAction::KillAndReap,
            ),
            (
                LaunchPhase::Reaping { collected, cancelled },
                LaunchEvent::Reaped { exit: Some(success), cleanup },
            ) => if cleanup == Cleanup::Failed {
                self.refused(PermitError::Protocol)
            } else if collected is Err || cancelled || !success {
                (
                    self.to(LaunchPhase::Gap { collected, cancelled, success }),
                    LaunchAction::RecordGap,
                )
            } else {
                (
                    self.to(LaunchPhase::Settling { collected, cancelled, success }),
                    LaunchAction::Settle,
                )
            },
            (
                LaunchPhase::Gap { collected, cancelled, success },
                LaunchEvent::GapRecorded(Ok(_)),
            ) => (
                self.to(LaunchPhase::Settling { collected, cancelled, success }),
                LaunchAction::Settle,
            ),
            (LaunchPhase::Gap { .. }, LaunchEvent::GapRecorded(Err(error))) => self.refused(
                PermitError::Host(error),
            ),
            (
                LaunchPhase::Settling { collected, cancelled, success },
                LaunchEvent::Settled(Ok(parked)),
            ) => self.over(Launch::result_of(collected, cancelled, success, parked)),
            (LaunchPhase::Settling { .. }, LaunchEvent::Settled(Err(error))) => self.refused(
                PermitError::Host(error),
            ),
            _ => self.refused(PermitError::Protocol),
        }
    }

    /// A launch that begins under its lease, with or without its places among the
    /// workers.
    pub fn begin(deadline: u64, admitted: bool, lease: PermitLease) -> (res: (
        Launch,
        LaunchAction,
    ))
        ensures
            res == if admitted {
                (Launch { deadline, phase: LaunchPhase::Preparing, lease }, LaunchAction::Prepare)
            } else {
                (
                    Launch { deadline, phase: LaunchPhase::Residency, lease },
                    LaunchAction::AdmitResidency,
                )
            },
    {
        if admitted {
            (Launch { deadline, phase: LaunchPhase::Preparing, lease }, LaunchAction::Prepare)
        } else {
            (
                Launch { deadline, phase: LaunchPhase::Residency, lease },
                LaunchAction::AdmitResidency,
            )
        }
    }

    /// The launch's owner goes away, at whatever point: the lease is closed.
    pub fn abandon(&mut self)
        ensures
            *final(self) == old(self).abandoned(),
            final(self).lease.closed_spec(),
            final(self).lease.id_spec() == old(self).lease.id_spec(),
    {
        self.lease.close();
        self.phase = LaunchPhase::Ended;
    }

    /// What an event leads to.
    pub fn step(self, event: LaunchEvent) -> (res: (Launch, LaunchAction))
        ensures
            res == self.next(event),
    {
        let Launch { deadline, phase, lease } = self;
        let mut lease = lease;
        let (phase, action): (LaunchPhase, LaunchAction) = match (phase, event) {
            (LaunchPhase::Ended, _) => (LaunchPhase::Ended, LaunchAction::Ignore),
            (LaunchPhase::Residency, LaunchEvent::Waited(waited)) => match admit_capacity(waited) {
                Err(error) => refusal(error),
                Ok(_) => (LaunchPhase::Execution, LaunchAction::AdmitExecution),
            },
            (LaunchPhase::Execution, LaunchEvent::Waited(waited)) => match admit_capacity(waited) {
                Err(error) => refusal(error),
                Ok(_) => (LaunchPhase::Preparing, LaunchAction::Prepare),
            },
            (LaunchPhase::Preparing, LaunchEvent::Prepared(Ok(_))) => (
                LaunchPhase::Claimed,
                LaunchAction::CheckCancellation,
            ),
            (LaunchPhase::Preparing, LaunchEvent::Prepared(Err(error))) => refusal(error),
            (LaunchPhase::Claimed, LaunchEvent::Checked { cancelled, now }) => if cancelled {
                (LaunchPhase::Ended, LaunchAction::Finish(LaunchResult::Nothing))
            } else if now >= deadline {
                refusal(PermitError::Protocol)
            } else {
                (LaunchPhase::Spawning, LaunchAction::Spawn)
            },
            (LaunchPhase::Spawning, LaunchEvent::Spawned(true)) => (
                LaunchPhase::Running,
                LaunchAction::Run,
            ),
            (LaunchPhase::Running, LaunchEvent::Ran(collected)) => (
                LaunchPhase::Reaping { collected, cancelled: false },
                LaunchAction::KillAndReap,
            ),
            (LaunchPhase::Running, LaunchEvent::CancelRequested) => (
                LaunchPhase::Reaping { collected: Ok(()), cancelled: true },
                LaunchAction::KillAndReap,
            ),
            (
                LaunchPhase::Reaping { collected, cancelled },
                LaunchEvent::Reaped { exit: Some(success), cleanup },
            ) => if cleanup == Cleanup::Failed {
                refusal(PermitError::Protocol)
            } else if collected.is_err() || cancelled || !success {
                (LaunchPhase::Gap { collected, cancelled, success }, LaunchAction::RecordGap)
            } else {
                (LaunchPhase::Settling { collected, cancelled, success }, LaunchAction::Settle)
            },
            (
                LaunchPhase::Gap { collected, cancelled, success },
                LaunchEvent::GapRecorded(Ok(_)),
            ) => (LaunchPhase::Settling { collected, cancelled, success }, LaunchAction::Settle),
            (LaunchPhase::Gap { .. }, LaunchEvent::GapRecorded(Err(error))) => refusal(
                PermitError::Host(error),
            ),
            (
                LaunchPhase::Settling { collected, cancelled, success },
                LaunchEvent::Settled(Ok(parked)),
            ) => {
                let result = if parked {
                    LaunchResult::Nothing
                } else {
                    match collected {
                        Err(error) => LaunchResult::Refused(error),
                        Ok(_) => if cancelled {
                            LaunchResult::Nothing
                        } else if success {
                            LaunchResult::Events
                        } else {
                            LaunchResult::FailedEvents
                        },
                    }
                };
                (LaunchPhase::Ended, LaunchAction::Finish(result))
            },
            (LaunchPhase::Settling { .. }, LaunchEvent::Settled(Err(error))) => refusal(
                PermitError::Host(error),
            ),
            _ => refusal(PermitError::Protocol),
        };
        if matches!(action, LaunchAction::Finish(_) | LaunchAction::KillAndReap) {
            lease.close();
        }
        (Launch { deadline, phase, lease }, action)
    }
}

fn refusal(error: PermitError) -> (res: (LaunchPhase, LaunchAction))
    ensures
        res == (LaunchPhase::Ended, LaunchAction::Finish(LaunchResult::Refused(error))),
{
    (LaunchPhase::Ended, LaunchAction::Finish(LaunchResult::Refused(error)))
}

} // verus!
