//! What the operations that change something leave behind, stated of any call.
use vstd::prelude::*;
use crate::authority::{IssueReads, ModelPermit, PermitLease, PermitState};
use crate::boundary::{Boundary, BoundaryPlan};
use crate::cpu_jobs::{CpuJobReply, CpuJobs};
use crate::errors::PermitError;
use crate::events::{Collector, EventEnvelope};
use crate::launch;
use crate::launch::{Abandonment, Launch, LaunchGuard};
use crate::model::{AdmittedWork, RequestReservation};
use crate::outside;
use crate::permit_laws;
use crate::upload::{UploadProgress, UploadReply};
use crate::wait;
use crate::wait::ResumeStanding;

verus! {

/// Pausing a permit that is known pauses its grant, going on with it ends that where
/// nothing holds it, and revoking it makes it inactive; none of them touches
/// anything else, and a permit that is not known is refused without a change.
pub proof fn permits_are_paused_resumed_and_revoked(
    permit: ModelPermit,
    work_id: String,
    now: u64,
    deadline: u64,
    closed: bool,
    standing: Result<ResumeStanding, String>,
    other: u128,
)
    requires
        other != permit.nonce(),
    ensures
        forall|state: &mut PermitState, res: Result<(), PermitError>| #[trigger]
            call_ensures(wait::pause, (state, &permit), res) ==> {
                let before = (*state)@;
                let after = (*final(state))@;
                let known = before.grants.dom().contains(permit.nonce());
                &&& res is Ok <==> known
                &&& !known ==> res->Err_0 is UnknownPermit && after == before
                &&& known ==> after.grants[permit.nonce()].paused
                    && after.grants[permit.nonce()].active
                    == before.grants[permit.nonce()].active
                &&& after.current == before.current
                &&& before.grants.dom().contains(other) ==> after.grants[other]
                    == before.grants[other]
            },
        forall|state: &mut PermitState, res: Result<(), PermitError>| #[trigger]
            call_ensures(
                wait::resume_execution,
                (state, &permit, &work_id, now, deadline, closed, standing),
                res,
            ) ==> {
                let before = (*state)@;
                let after = (*final(state))@;
                &&& res is Ok <==> before.suspended(permit.nonce(), work_id@, closed) && now
                    < deadline && standing is Ok && standing->Ok_0.active
                    && !standing->Ok_0.waits && !standing->Ok_0.cancellation_requested
                    && !standing->Ok_0.terminal
                &&& res is Err ==> after == before
                &&& res is Ok ==> !after.grants[permit.nonce()].paused
                    && after.grants[permit.nonce()].active
                &&& after.current == before.current
                &&& before.grants.dom().contains(other) ==> after.grants[other]
                    == before.grants[other]
            },
        forall|state: &mut PermitState, res: Result<(), PermitError>| #[trigger]
            call_ensures(PermitState::host_revoke_model_permit, (state, &permit), res) ==> {
                let before = (*state)@;
                let after = (*final(state))@;
                let known = before.grants.dom().contains(permit.nonce());
                &&& res is Ok <==> known
                &&& !known ==> res->Err_0 is UnknownPermit && after == before
                &&& known ==> !after.grants[permit.nonce()].active
                    && after.grants[permit.nonce()].request
                    == before.grants[permit.nonce()].request
                &&& after.current == before.current
                &&& before.grants.dom().contains(other) ==> after.grants[other]
                    == before.grants[other]
            },
{
}

/// A permit that is issued allows its request at once, on its funding and under the
/// lease that it was issued with; the one that it replaces allows nothing more, and a
/// permit that is not issued changes nothing.
pub proof fn issued_permits_allow_their_request(
    request: RequestReservation,
    funding: AdmittedWork,
    replace: Option<&ModelPermit>,
    lease: Option<u64>,
    reads: IssueReads,
)
    ensures
        forall|state: &mut PermitState, res: Result<ModelPermit, PermitError>| #[trigger]
            call_ensures(
                PermitState::issue_model_permit,
                (state, request, funding, replace, lease, reads),
                res,
            ) ==> {
                let before = (*state)@;
                let after = (*final(state))@;
                let nonce = res->Ok_0.nonce();
                &&& res is Err ==> after == before
                &&& res is Ok ==> after.authorizes(nonce, request, false)
                    && after.grants[nonce].funding == funding && after.grants[nonce].lease == lease
                &&& res is Ok && replace is Some && replace->0.nonce() != nonce
                    ==> !after.grants[replace->0.nonce()].active
                &&& res is Ok ==> permit_laws::fits_its_funding(request, funding)
                &&& reads.bound is Err ==> res == Err::<ModelPermit, _>(
                    PermitError::Host(reads.bound->Err_0),
                )
                &&& permit_laws::fits_its_funding(request, funding) && reads.bound is Ok
                    && reads.funding is Ok && reads.revision == Ok::<_, String>(
                    request.identity.instruction_revision,
                ) && replace is None && !before.current.dom().contains(request.identity.work_id@)
                    ==> res is Ok
            },
        forall|state: &mut PermitState, res: Result<ModelPermit, PermitError>| #[trigger]
            call_ensures(
                PermitState::host_issue_model_permit,
                (state, request, funding, replace, reads),
                res,
            ) ==> {
                let before = (*state)@;
                let after = (*final(state))@;
                let nonce = res->Ok_0.nonce();
                &&& res is Err ==> after == before
                &&& res is Ok ==> after.authorizes(nonce, request, true)
                    && after.grants[nonce].funding == funding && after.grants[nonce].lease is None
                &&& permit_laws::fits_its_funding(request, funding) && reads.bound is Ok
                    && reads.funding is Ok && reads.revision == Ok::<_, String>(
                    request.identity.instruction_revision,
                ) && replace is None && !before.current.dom().contains(request.identity.work_id@)
                    ==> res is Ok
            },
{
}

/// A launch gets a permit under its own lease: outside a typed attempt only for work
/// that has none, and in one also in place of a permit whose launch is closed.
pub proof fn launches_get_a_permit_of_their_own(
    request: RequestReservation,
    funding: AdmittedWork,
    work: &str,
    typed: bool,
    prior_closed: bool,
    lease: u64,
    reads: IssueReads,
)
    requires
        work@ == request.identity.work_id@,
    ensures
        forall|state: &mut PermitState, res: Result<ModelPermit, PermitError>| #[trigger]
            call_ensures(
                PermitState::issue_for_launch,
                (state, request, funding, work, typed, prior_closed, lease, reads),
                res,
            ) ==> {
                let before = (*state)@;
                let after = (*final(state))@;
                let nonce = res->Ok_0.nonce();
                let held = before.current.dom().contains(work@);
                let prior = before.current[work@];
                &&& res is Err ==> after == before
                &&& res is Ok ==> after.authorizes(nonce, request, false)
                    && after.grants[nonce].lease == Some(lease) && after.grants[nonce].funding
                    == funding
                &&& res is Ok && held ==> typed && prior_closed && before.grants[prior].lease is Some
                &&& res is Ok && held && prior != nonce ==> !after.grants[prior].active
                &&& permit_laws::fits_its_funding(request, funding) && reads.bound is Ok
                    && reads.funding is Ok && reads.revision == Ok::<_, String>(
                    request.identity.instruction_revision,
                ) && (held ==> typed && prior_closed && before.grants.dom().contains(prior)
                    && before.grants[prior].lease is Some) ==> res is Ok
            },
{
}

/// A launch that is claimed keeps its permit; one that is not has it revoked, and is
/// refused with the error of the claim.
pub proof fn unclaimed_launches_lose_their_permit(
    permit: ModelPermit,
    claim: Result<(), PermitError>,
    other: u128,
)
    requires
        other != permit.nonce(),
    ensures
        forall|state: &mut PermitState, res: Result<ModelPermit, PermitError>| #[trigger]
            call_ensures(launch::settle_claim, (state, permit, claim), res) ==> {
                let before = (*state)@;
                let after = (*final(state))@;
                &&& claim is Ok ==> res == Ok::<_, PermitError>(permit) && after == before
                &&& claim is Err ==> res == Err::<ModelPermit, _>(claim->Err_0)
                &&& claim is Err && before.grants.dom().contains(permit.nonce())
                    ==> !after.grants[permit.nonce()].active
                &&& after.current == before.current
                &&& before.grants.dom().contains(other) ==> after.grants[other]
                    == before.grants[other]
            },
{
}

/// A boundary that moves the revision hands the work over to its new capability; one
/// that does not changes nothing. Either way its request and itself are handed on.
pub proof fn boundaries_hand_the_work_over(
    plan: BoundaryPlan,
    permit: ModelPermit,
)
    ensures
        forall|
            state: &mut PermitState,
            res: Result<(Option<ModelPermit>, RequestReservation, Boundary), PermitError>,
        | #[trigger]
            call_ensures(BoundaryPlan::apply, (plan, state, &permit), res) ==> {
                let before = (*state)@;
                let after = (*final(state))@;
                let known = before.grants.dom().contains(permit.nonce());
                let (next, request, boundary) = res->Ok_0;
                let moved = after.grants[plan.next->0.nonce()];
                &&& res is Ok <==> plan.next is None || known
                &&& res is Err ==> res->Err_0 is UnknownPermit && after == before
                &&& res is Ok ==> next == plan.next && request == plan.request && boundary
                    == plan.boundary
                &&& plan.next is None ==> after == before
                &&& plan.next is Some && known ==> {
                    &&& after.authorizes(plan.next->0.nonce(), plan.request, false)
                    &&& moved.owner == plan.owner
                    &&& plan.next->0.nonce() != permit.nonce() ==> {
                        &&& !after.grants[permit.nonce()].active
                        &&& moved.funding == before.grants[permit.nonce()].funding
                        &&& moved.lease == before.grants[permit.nonce()].lease
                    }
                }
            },
{
}

/// A job that was given back no longer runs. One that was granted runs under the next
/// id, and is told so with its devices or briefly as it was asked; one that was
/// granted too late does not run and is given back, but its id is used up. Nothing
/// else changes.
pub proof fn jobs_run_until_they_are_given_back<D>(
    id: u128,
    given_back: bool,
    brief: bool,
    outcome: Result<Option<D>, ()>,
    closed: bool,
)
    ensures
        forall|jobs: &mut CpuJobs, res: CpuJobReply<D>| #[trigger]
            call_ensures(CpuJobs::released::<D>, (jobs, id, given_back), res) ==> {
                let before = (*jobs)@;
                let after = (*final(jobs))@;
                &&& res is Released <==> given_back
                &&& res is Denied <==> !given_back
                &&& after.origin == before.origin && after.issued == before.issued
                &&& forall|n: u128| #[trigger]
                    after.active.contains(n) <==> before.active.contains(n) && !(given_back && n
                        == id)
            },
        forall|jobs: &mut CpuJobs, res: (CpuJobReply<D>, bool)| #[trigger]
            call_ensures(CpuJobs::acquired::<D>, (jobs, brief, outcome, closed), res) ==> {
                let before = (*jobs)@;
                let after = (*final(jobs))@;
                let granted = outcome is Ok && outcome->Ok_0 is Some;
                let (reply, give_back) = res;
                &&& after.origin == before.origin
                &&& after.issued == before.issued + (if granted { 1int } else { 0int })
                &&& give_back <==> granted && closed
                &&& reply is Busy <==> outcome is Ok && outcome->Ok_0 is None
                &&& reply is Denied <==> outcome is Err || granted && closed
                &&& reply is Acquired <==> granted && !closed && brief
                &&& reply is Granted <==> granted && !closed && !brief
                &&& reply is Acquired ==> reply->Acquired_permit == before.next_id()
                &&& reply is Granted ==> reply->Granted_permit == before.next_id()
                    && reply->device_ids == outcome->Ok_0->0
                &&& forall|n: u128| #[trigger]
                    after.active.contains(n) <==> before.active.contains(n) || granted && !closed
                        && n == before.next_id()
            },
{
}

/// Each part of an export counts as one, and another may follow exactly where it was
/// accepted.
pub proof fn parts_follow_while_they_are_accepted<R>(reply: UploadReply<R>)
    ensures
        forall|progress: &mut UploadProgress, more: bool| #[trigger]
            call_ensures(UploadProgress::answered::<R>, (progress, &reply), more) ==> {
                &&& (*final(progress)).parts == (*progress).parts + 1
                &&& more <==> reply is Accepted
            },
{
}

/// A lease that is closed stays the same lease. A launch that is given up is over and
/// closes its lease. A guard that is dropped closes its lease, and where its worker
/// still runs has it killed and says which of its slots are to be kept from others; a
/// worker that was reaped leaves no slot behind.
pub proof fn abandoned_launches_close_their_lease()
    ensures
        forall|lease: &mut PermitLease| #[trigger]
            call_ensures(PermitLease::close, (lease,), ()) ==> {
                &&& (*final(lease)).closed_spec()
                &&& (*final(lease)).id_spec() == (*lease).id_spec()
            },
        forall|launch: &mut Launch| #[trigger]
            call_ensures(Launch::abandon, (launch,), ()) ==> {
                &&& (*final(launch)).phase is Ended
                &&& (*final(launch)).lease.closed_spec()
                &&& (*final(launch)).lease.id_spec() == (*launch).lease.id_spec()
            },
        forall|guard: &mut LaunchGuard, left: Abandonment| #[trigger]
            call_ensures(LaunchGuard::abandon, (guard,), left) ==> {
                let before = *guard;
                let after = *final(guard);
                &&& after.lease.closed_spec() && after.lease.id_spec() == before.lease.id_spec()
                &&& left.kill <==> before.running
                &&& left.retain_execution <==> before.running && before.holds_execution
                &&& left.retain_residency <==> before.running && before.holds_residency
                &&& after.running == before.running
                &&& after.holds_execution <==> before.holds_execution && !before.running
                &&& after.holds_residency <==> before.holds_residency && !before.running
            },
        forall|guard: &mut LaunchGuard| #[trigger]
            call_ensures(LaunchGuard::reaped, (guard,), ()) ==> {
                let after = *final(guard);
                &&& !after.running && !after.holds_execution && !after.holds_residency
                &&& after.lease == (*guard).lease
            },
{
}

/// A line is seen by its SHA-256 digest: a new id is seen in that form and told as new,
/// the same line again is told as not new, and another line under a seen id is
/// refused. What was collected does not change by it.
pub proof fn lines_are_seen_once<K>(event_id: u64, line: &[u8])
    ensures
        forall|collector: &mut Collector<K>, res: Result<bool, PermitError>| #[trigger]
            call_ensures(Collector::<K>::observe, (collector, event_id, line), res) ==> {
                let before = (*collector)@;
                let after = (*final(collector))@;
                let seen = before.seen.dom().contains(event_id);
                let digest = outside::sha256_of(line@);
                &&& res is Ok <==> if seen {
                    before.seen[event_id] == digest
                } else {
                    before.seen.dom().len() < 20_000
                }
                &&& res is Ok ==> (res->Ok_0 <==> !seen) && after.seen.dom().contains(event_id)
                    && after.seen[event_id] == digest
                &&& res is Err ==> res->Err_0 is Protocol && after == before
                &&& after.events == before.events
            },
{
}

/// An event is kept behind the others or let go whole; it is let go exactly where it
/// is raw and does not fit into a frame with everything before it.
pub proof fn events_are_kept_or_let_go<K>(event: EventEnvelope<K>, size: usize)
    ensures
        forall|collector: &mut Collector<K>, res: Result<(), PermitError>| #[trigger]
            call_ensures(Collector::<K>::keep, (collector, event, size), res) ==> {
                let before = (*collector)@;
                let after = (*final(collector))@;
                let raw = event.kind is ToolStarted || event.kind is ToolFinished;
                let large = before.retained + size > before.max_frame;
                before.max_frame < usize::MAX ==> {
                    &&& raw && large ==> res is Ok && after == before
                    &&& raw && !large ==> (res is Ok <==> before.events.len() < 20_000)
                    &&& !raw ==> (res is Ok <==> before.semantic_bytes + size <= before.max_frame
                        && before.events.len() < 20_000)
                    &&& res is Ok && !(raw && large) ==> after.events == before.events.push(event)
                    &&& res is Err ==> res->Err_0 is Protocol && after == before
                }
            },
{
}

} // verus!
