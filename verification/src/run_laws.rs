//! What holds of whole runs: of sessions, launches, waits, jobs and output,
//! whatever happens in them and in whatever order.
use vstd::prelude::*;
use crate::authority;
use crate::authority::{IssueReads, PermitStateView};
use crate::boundary;
use crate::boundary::BoundaryReads;
use crate::control;
use crate::control::ControlRequest;
use crate::cpu_jobs;
use crate::cpu_jobs::{CpuJobRequest, CpuJobsView, JobLimits};
use crate::dispatch;
use crate::dispatch::DispatchReads;
use crate::errors::PermitError;
use crate::events;
use crate::events::{CollectorView, EventEnvelope};
use crate::launch::{Launch, LaunchAction, LaunchEvent, LaunchPhase, LaunchResult};
use crate::laws;
use crate::laws::{Change, LaunchClaim};
use crate::ledger::Ledger;
use crate::model::{AdmittedWork, RequestReservation};
use crate::session;
use crate::session::{Action, Event, Frame, Phase, Session};
use crate::upload;
use crate::wait;
use crate::wait::{WaitAction, WaitEvent, WaitPhase};
use crate::web;
use crate::web::{CampaignWeb, WebPolicy};

verus! {

/// A session after some events, and what the host did on the way.
pub open spec fn session_run(start: Session, events: Seq<Event>) -> (Session, Seq<Action>)
    decreases events.len(),
{
    if events.len() == 0 {
        (start, Seq::empty())
    } else {
        let before = session_run(start, events.drop_last());
        let after = before.0.next(events.last());
        (after.0, before.1.push(after.1))
    }
}

/// How often the provider was called.
pub open spec fn executions(actions: Seq<Action>) -> nat
    decreases actions.len(),
{
    if actions.len() == 0 {
        0
    } else {
        executions(actions.drop_last()) + if actions.last() is Execute {
            1nat
        } else {
            0nat
        }
    }
}

/// How many exports were begun.
pub open spec fn exports(actions: Seq<Action>) -> nat
    decreases actions.len(),
{
    if actions.len() == 0 {
        0
    } else {
        exports(actions.drop_last()) + if actions.last() is ServeUpload {
            1nat
        } else {
            0nat
        }
    }
}

/// Whether a model request was counted and its provider call is still to come.
pub open spec fn owes_execution(phase: Phase) -> bool {
    phase is Preparing || phase is Recording || phase is AwaitingAck || phase is Acknowledging
}

proof fn budgets_hold_on_the_way(start: Session, events: Seq<Event>)
    requires
        start.phase is Idle,
        start.regular_requests == 0,
        start.uploads == 0,
        start.uploaded_bytes == 0,
    ensures
        ({
            let end = session_run(start, events);
            &&& end.0.max_requests == start.max_requests
            &&& end.0.within_budget()
            &&& executions(end.1) + (if owes_execution(end.0.phase) {
                1nat
            } else {
                0nat
            }) <= end.0.regular_requests
            &&& exports(end.1) == end.0.uploads
        }),
    decreases events.len(),
{
    if events.len() > 0 {
        budgets_hold_on_the_way(start, events.drop_last());
        let before = session_run(start, events.drop_last());
        let after = before.0.next(events.last());
        assert(before.1.push(after.1).drop_last() == before.1);
    }
}

/// A session never calls its provider more often than its budget of requests,
/// begins no more than 256 exports, and exports no more than 128 MiB: whatever
/// its worker sends.
pub proof fn sessions_stay_within_their_budget(start: Session, events: Seq<Event>)
    requires
        start.phase is Idle,
        start.regular_requests == 0,
        start.uploads == 0,
        start.uploaded_bytes == 0,
    ensures
        executions(session_run(start, events).1) <= start.max_requests,
        exports(session_run(start, events).1) <= session::MAX_UPLOADS,
        session_run(start, events).0.uploaded_bytes <= session::MAX_UPLOADED_BYTES,
        session_run(start, events).0.regular_requests <= start.max_requests,
{
    budgets_hold_on_the_way(start, events);
}

/// Asking for CPU jobs costs nothing of a session's budget.
pub proof fn cpu_jobs_cost_no_requests(session: Session)
    requires
        session.phase is Idle,
    ensures
        ({
            let after = session.next(Event::Frame { frame: Frame::CpuJob, pipelined: false });
            &&& after.1 is ServeCpuJob
            &&& after.0 == session.to(Phase::Background)
            &&& after.0.next(Event::Done(Ok(()))) == (session, Action::ReadFrame)
        }),
{
}

/// The provider is called only where no boundary was due, or the one that was is
/// durably acknowledged; and only the exact id and cursor acknowledge one.
pub proof fn boundaries_come_before_the_provider(session: Session, event: Event)
    ensures
        session.next(event).1 is Execute ==> session.phase is Acknowledging || session.phase
            == (Phase::Recording { due: None }),
        session.next(event).0.phase is Acknowledging && !(session.phase is Acknowledging)
            ==> (session.phase matches Phase::AwaitingAck { id, cursor } && (event matches Event::Frame {
            frame: Frame::BoundaryAck { id: acked, cursor: at },
            ..
        } && acked@ == id@ && at == cursor)),
{
}

/// A worker is told of success only where the provider call succeeded and its
/// boundary was marked as completed; one that failed ends the session after its
/// reply.
pub proof fn success_is_never_made_up(session: Session, event: Event)
    ensures
        session.next(event).1 == (Action::Reply { succeeded: true }) ==> session.phase is Completing,
        session.next(event).0.phase is Completing && !(session.phase is Completing)
            ==> session.phase == (Phase::Concluding { succeeded: true }),
        session.next(event).0.phase == (Phase::Concluding { succeeded: true }) && session.phase
            != (Phase::Concluding { succeeded: true }) ==> event == (Event::Executed {
            succeeded: true,
        }) && session.phase is Executing,
        session.phase == (Phase::Replying { succeeded: false }) && !(session.next(
            event,
        ).1 is Ignore) ==> session.next(event).1 is End,
{
}

/// A control request is answered, and its answer does not end the session: where
/// it is not admitted or is refused the answer is a denial, else it is what the
/// request came to, and either way the next frame is read.
pub proof fn denials_do_not_end_the_session<R>(
    session: Session,
    state: PermitStateView,
    nonce: u128,
    reservation: RequestReservation,
    request: ControlRequest,
    closed: bool,
    valid: Result<(), String>,
    funding: Result<(), String>,
    enrolled: Result<(), String>,
    admitted: bool,
    outcome: Result<R, PermitError>,
)
    requires
        session.phase is Idle,
        session.regular_requests < session.max_requests,
        control::control_refusal(
            state,
            nonce,
            reservation,
            request,
            closed,
            valid,
            funding,
            enrolled,
        ) is Some ==> outcome is Err,
    ensures
        ({
            let asked = session.next(Event::Frame { frame: Frame::Control, pipelined: false });
            &&& asked.1 is ServeControl
            &&& asked.0.next(Event::Done(Ok(()))) == (session.counted(), Action::ReadFrame)
        }),
        !admitted || control::control_refusal(
            state,
            nonce,
            reservation,
            request,
            closed,
            valid,
            funding,
            enrolled,
        ) is Some ==> control::control_answer(admitted, outcome) is None,
        admitted && outcome is Ok ==> control::control_answer(admitted, outcome) == Some(
            outcome->Ok_0,
        ),
{
}

/// A peer that writes while it is not its turn, or sends more than one frame at a
/// time, loses its session.
pub proof fn pipelining_ends_the_session(session: Session, frame: Frame)
    requires
        !(session.phase is Ended),
    ensures
        session.watched() ==> session.next(Event::Peer) == session.ended(PermitError::Protocol),
        session.phase is Idle ==> session.next(Event::Frame { frame, pipelined: true })
            == session.ended(PermitError::Protocol),
{
}

/// What has ended does nothing more.
pub proof fn ended_sessions_do_nothing(start: Session, events: Seq<Event>)
    requires
        start.phase is Ended,
    ensures
        session_run(start, events).0 == start,
        executions(session_run(start, events).1) == 0,
    decreases events.len(),
{
    if events.len() > 0 {
        ended_sessions_do_nothing(start, events.drop_last());
        let before = session_run(start, events.drop_last());
        let after = before.0.next(events.last());
        assert(before.1.push(after.1).drop_last() == before.1);
    }
}

/// A launch after some events, and what the host did on the way.
pub open spec fn launch_run(start: Launch, events: Seq<LaunchEvent>) -> (Launch, Seq<LaunchAction>)
    decreases events.len(),
{
    if events.len() == 0 {
        (start, Seq::empty())
    } else {
        let before = launch_run(start, events.drop_last());
        let after = before.0.next(events.last());
        (after.0, before.1.push(after.1))
    }
}

/// How often a worker was started.
pub open spec fn spawns(actions: Seq<LaunchAction>) -> nat
    decreases actions.len(),
{
    if actions.len() == 0 {
        0
    } else {
        spawns(actions.drop_last()) + if actions.last() is Spawn {
            1nat
        } else {
            0nat
        }
    }
}

/// Whether a launch has not yet decided on starting its worker.
pub open spec fn before_start(phase: LaunchPhase) -> bool {
    phase is Residency || phase is Execution || phase is Preparing || phase is Claimed
}

/// A launch starts at most one worker, whatever happens.
pub proof fn a_launch_starts_one_worker(start: Launch, events: Seq<LaunchEvent>)
    requires
        before_start(start.phase),
    ensures
        spawns(launch_run(start, events).1) + (if before_start(launch_run(start, events).0.phase) {
            1nat
        } else {
            0nat
        }) <= 1,
    decreases events.len(),
{
    if events.len() > 0 {
        a_launch_starts_one_worker(start, events.drop_last());
        let before = launch_run(start, events.drop_last());
        let after = before.0.next(events.last());
        assert(before.1.push(after.1).drop_last() == before.1);
    }
}

/// One launch of a history: its claim, and what happened to it.
pub struct LaunchTry {
    pub claim: LaunchClaim,
    pub start: Launch,
    pub events: Seq<LaunchEvent>,
}

/// Whether a launch was told that it is prepared.
pub open spec fn told_prepared(events: Seq<LaunchEvent>) -> bool {
    exists|i: int|
        0 <= i < events.len() && (#[trigger] events[i] matches LaunchEvent::Prepared(prepared)
            && prepared is Ok)
}

impl LaunchTry {
    /// Whether a launch began as launches do, and was told that it is prepared
    /// only where its claim went through.
    pub open spec fn honest(self) -> bool {
        &&& self.start.phase is Residency || self.start.phase is Execution
            || self.start.phase is Preparing
        &&& told_prepared(self.events) ==> self.claim.goes_through()
    }

    /// How many workers the launch started.
    pub open spec fn starts(self) -> nat {
        spawns(launch_run(self.start, self.events).1)
    }
}

/// The claims of some launches.
pub open spec fn claims_in(tries: Seq<LaunchTry>) -> Seq<LaunchClaim> {
    Seq::new(tries.len(), |i: int| tries[i].claim)
}

/// How many workers were started under a key.
pub open spec fn starts_of(tries: Seq<LaunchTry>, key: Seq<char>) -> nat
    decreases tries.len(),
{
    if tries.len() == 0 {
        0
    } else {
        starts_of(tries.drop_last(), key) + if tries.last().claim.key() == key {
            tries.last().starts()
        } else {
            0nat
        }
    }
}

proof fn nothing_starts_unprepared(start: Launch, events: Seq<LaunchEvent>)
    requires
        start.phase is Residency || start.phase is Execution || start.phase is Preparing,
        !told_prepared(events),
    ensures
        spawns(launch_run(start, events).1) == 0,
        ({
            let phase = launch_run(start, events).0.phase;
            phase is Residency || phase is Execution || phase is Preparing || phase is Ended
        }),
    decreases events.len(),
{
    if events.len() > 0 {
        let fewer = events.drop_last();
        assert(!told_prepared(fewer)) by {
            if told_prepared(fewer) {
                let i = choose|i: int|
                    0 <= i < fewer.len() && (#[trigger] fewer[i] matches LaunchEvent::Prepared(
                        prepared,
                    ) && prepared is Ok);
                assert(events[i] == fewer[i]);
            }
        }
        nothing_starts_unprepared(start, fewer);
        let before = launch_run(start, fewer);
        let after = before.0.next(events.last());
        assert(events[events.len() - 1] == events.last());
        assert(before.1.push(after.1).drop_last() == before.1);
    }
}

/// Over any history of launches, with whatever failed starts, cancellations,
/// abandoned owners and restarts: under one key at most one worker is started, and
/// none where the key was claimed before.
pub proof fn no_history_starts_a_launch_twice(
    launched: Set<Seq<char>>,
    tries: Seq<LaunchTry>,
    key: Seq<char>,
)
    requires
        laws::all_read(launched, claims_in(tries)),
        forall|i: int| 0 <= i < tries.len() ==> (#[trigger] tries[i]).honest(),
    ensures
        starts_of(tries, key) <= laws::launches_of(claims_in(tries), key),
        starts_of(tries, key) + (if launched.contains(key) {
            1nat
        } else {
            0nat
        }) <= 1,
    decreases tries.len(),
{
    laws::no_run_claims_a_launch_twice(launched, claims_in(tries), key);
    if tries.len() > 0 {
        let fewer = tries.drop_last();
        let last = tries.last();
        assert(claims_in(tries).drop_last() == claims_in(fewer));
        assert forall|i: int| 0 <= i < fewer.len() implies (#[trigger] fewer[i]).honest() by {
            assert(fewer[i] == tries[i]);
        }
        no_history_starts_a_launch_twice(launched, fewer, key);
        assert(tries[tries.len() - 1].honest());
        a_launch_starts_one_worker(last.start, last.events);
        if !told_prepared(last.events) {
            nothing_starts_unprepared(last.start, last.events);
        }
    }
}

/// A worker is started only in time, only where its work was not cancelled, and
/// only on a claim that is durable.
pub proof fn workers_start_on_a_claim(launch: Launch, event: LaunchEvent)
    ensures
        launch.next(event).1 is Spawn ==> launch.phase is Claimed && (event matches LaunchEvent::Checked {
            cancelled,
            now,
        } && !cancelled && now < launch.deadline),
        launch.next(event).0.phase is Claimed && !(launch.phase is Claimed)
            ==> launch.phase is Preparing && (event matches LaunchEvent::Prepared(prepared)
            && prepared is Ok),
{
}

/// The events of a worker are handed out only once its group was killed and its
/// leader reaped, its work is not parked, and its output was collected whole;
/// results count only where it exited successfully. Where it did not, a gap was
/// recorded first.
pub proof fn events_come_from_reaped_workers(launch: Launch, event: LaunchEvent)
    ensures
        launch.next(event).1 == LaunchAction::Finish(LaunchResult::Events) ==> (
        launch.phase matches LaunchPhase::Settling { collected, cancelled, success } && collected is Ok
            && !cancelled && success) && event == LaunchEvent::Settled(Ok(false)),
        launch.next(event).1 == LaunchAction::Finish(LaunchResult::FailedEvents) ==> (
        launch.phase matches LaunchPhase::Settling { collected, cancelled, success } && collected is Ok
            && !cancelled && !success) && event == LaunchEvent::Settled(Ok(false)),
        launch.next(event).0.phase is Settling && !(launch.phase is Settling) ==> launch.phase is Gap
            || launch.phase is Reaping && (launch.next(event).0.phase matches LaunchPhase::Settling {
            collected,
            cancelled,
            success,
        } && collected is Ok && !cancelled && success),
        launch.next(event).0.phase is Reaping && !(launch.phase is Reaping) ==> launch.next(
            event,
        ).1 is KillAndReap,
{
}

/// Whether a launch returned: it said what came of it.
pub open spec fn returned(actions: Seq<LaunchAction>) -> bool {
    exists|i: int| 0 <= i < actions.len() && #[trigger] actions[i] is Finish
}

/// A launch as it is left behind: after some events, and after its owner went
/// away where it did.
pub open spec fn left_behind(start: Launch, events: Seq<LaunchEvent>, dropped: bool) -> Launch {
    let end = launch_run(start, events).0;
    if dropped {
        end.abandoned()
    } else {
        end
    }
}

/// Every way out of a launch closes its lease: success, failure, cancellation, a
/// deadline at any point, and an owner that goes away. So does killing its worker,
/// before it is reaped.
pub proof fn every_return_closes_the_lease(
    start: Launch,
    events: Seq<LaunchEvent>,
    dropped: bool,
)
    requires
        before_start(start.phase),
    ensures
        returned(launch_run(start, events).1) || dropped ==> left_behind(
            start,
            events,
            dropped,
        ).lease.closed_spec(),
        returned(launch_run(start, events).1) <==> launch_run(start, events).0.phase is Ended,
        launch_run(start, events).0.phase is Reaping ==> launch_run(
            start,
            events,
        ).0.lease.closed_spec(),
        left_behind(start, events, dropped).lease.id_spec() == start.lease.id_spec(),
    decreases events.len(),
{
    start.lease.shut_is_closed();
    let end = launch_run(start, events);
    end.0.lease.shut_is_closed();
    if events.len() > 0 {
        every_return_closes_the_lease(start, events.drop_last(), false);
        let before = launch_run(start, events.drop_last());
        let after = before.0.next(events.last());
        before.0.lease.shut_is_closed();
        if returned(before.1) {
            let i = choose|i: int| 0 <= i < before.1.len() && #[trigger] before.1[i] is Finish;
            assert(end.1[i] is Finish);
        }
        if after.1 is Finish {
            assert(end.1[before.1.len() as int] is Finish);
        }
        if returned(end.1) && !(after.1 is Finish) {
            let i = choose|i: int| 0 <= i < end.1.len() && #[trigger] end.1[i] is Finish;
            assert(before.1[i] is Finish);
        }
    }
}

/// However a launch returned, and whenever its permit was issued, be it after
/// that: the permit, and every one that took over from it at a boundary, allows
/// nothing from then on. No request is reserved or claimed under it, and no
/// control request is served.
pub proof fn no_launch_leaves_a_live_permit(
    start: Launch,
    events: Seq<LaunchEvent>,
    dropped: bool,
    before: PermitStateView,
    request: RequestReservation,
    funding: AdmittedWork,
    replace: Option<u128>,
    issue_reads: IssueReads,
    nonce: u128,
    owner: String,
    later: Seq<Change>,
    held: u128,
    asked: RequestReservation,
    claim: bool,
    reads: DispatchReads,
    control_request: ControlRequest,
    valid: Result<(), String>,
    funded: Result<(), String>,
    enrolled: Result<(), String>,
)
    requires
        before_start(start.phase),
        dropped || returned(launch_run(start, events).1),
        before.well_formed(),
        before.issue_refusal(request, funding, replace, issue_reads) is None,
        !before.grants.dom().contains(nonce),
        laws::all_possible(
            before.issued(
                replace,
                nonce,
                authority::fresh_grant(owner, request, funding, Some(start.lease.id_spec())),
            ),
            later,
        ),
    ensures
        ({
            let lease = left_behind(start, events, dropped).lease;
            let now = laws::changed(
                before.issued(
                    replace,
                    nonce,
                    authority::fresh_grant(owner, request, funding, Some(start.lease.id_spec())),
                ),
                later,
            );
            let closed = lease.closes_spec(now.grants[held]);
            &&& now.grants.dom().contains(nonce)
            &&& now.grants[nonce].lease == Some(start.lease.id_spec())
            &&& now.grants.dom().contains(held) && now.grants[held].lease == Some(
                start.lease.id_spec(),
            ) ==> {
                &&& closed
                &&& !now.authorizes(held, asked, closed)
                &&& dispatch::dispatch_refusal(now.grant(held), asked, claim, closed, reads)
                    == Some(PermitError::RevokedOrMismatched)
                &&& control::control_refusal(
                    now,
                    held,
                    asked,
                    control_request,
                    closed,
                    valid,
                    funded,
                    enrolled,
                ) is Some
            }
        }),
{
    every_return_closes_the_lease(start, events, dropped);
    let grant = authority::fresh_grant(owner, request, funding, Some(start.lease.id_spec()));
    let issued = before.issued(replace, nonce, grant);
    laws::issuing_keeps_one_policy_per_work(
        before,
        request,
        funding,
        replace,
        issue_reads,
        nonce,
        grant,
    );
    laws::the_authority_keeps_its_promises(issued, later);
    assert(issued.grants.dom().contains(nonce));
}

/// A worker that was suspended is answered only once it has its execution slot
/// and its permit back; it is denied only where it was never suspended.
pub proof fn waiters_are_answered_with_their_slot(phase: WaitPhase, event: WaitEvent)
    ensures
        wait::wait_next(phase, event).1 is Answer ==> phase is Resuming && (
        event matches WaitEvent::Resumed(resumed) && resumed is Ok),
        wait::wait_next(phase, event).0 is Resuming && !(phase is Resuming) ==> phase is Reacquiring
            && (event matches WaitEvent::Reacquired(waited) && wait::reacquire_refusal(
            waited,
        ) is None),
        wait::wait_next(phase, event).1 is Deny ==> phase is Starting,
{
}

/// An execution slot is given up only once its worker is durably suspended.
pub proof fn slots_are_given_up_on_suspension(phase: WaitPhase, event: WaitEvent)
    ensures
        wait::wait_next(phase, event).1 is ReleaseAndPoll ==> phase is Starting && (
        event matches WaitEvent::Started(started) && started is Ok),
{
}

/// A wait under one permit, with the authority around it: how far the wait came,
/// whether its worker has its execution slot and its place among the resident
/// ones, and every grant.
pub struct Parking {
    pub phase: WaitPhase,
    pub holds_slot: bool,
    pub holds_residency: bool,
    pub state: PermitStateView,
}

/// What happens while a worker waits: something to the wait itself, or a change
/// that anyone else makes to the authority.
pub enum Happening {
    Wait(WaitEvent),
    Other(Change),
}

impl Parking {
    /// Whether the worker was suspended and not answered since.
    pub open spec fn parked(self) -> bool {
        self.phase is Polling || self.phase is Sleeping || self.phase is Reacquiring
            || self.phase is Resuming || self.phase is Cancelling
    }

    /// Whether something can happen: others change what the library lets them
    /// change, and nobody else pauses the permit or lets it go on.
    pub open spec fn can(self, nonce: u128, happening: Happening) -> bool {
        match happening {
            Happening::Wait(_) => true,
            Happening::Other(change) => change.possible(self.state) && !(
            change matches Change::Pause { nonce: other, .. } && other == nonce),
        }
    }

    /// What something leads to. Suspension pauses the permit and gives the slot
    /// up; the slot is had again before the worker goes on, and the permit goes on
    /// with the answer.
    pub open spec fn after(self, nonce: u128, happening: Happening) -> Parking {
        match happening {
            Happening::Other(change) => Parking { state: change.apply(self.state), ..self },
            Happening::Wait(event) => {
                let next = wait::wait_next(self.phase, event);
                if next.1 is ReleaseAndPoll {
                    Parking {
                        phase: next.0,
                        holds_slot: false,
                        state: self.state.with_pause(nonce, true),
                        ..self
                    }
                } else if next.1 is Resume {
                    Parking { phase: next.0, holds_slot: true, ..self }
                } else if next.1 is Answer {
                    Parking { phase: next.0, state: self.state.with_pause(nonce, false), ..self }
                } else {
                    Parking { phase: next.0, ..self }
                }
            },
        }
    }
}

/// A wait after some things happened.
pub open spec fn parking_run(start: Parking, nonce: u128, happenings: Seq<Happening>) -> Parking
    decreases happenings.len(),
{
    if happenings.len() == 0 {
        start
    } else {
        parking_run(start, nonce, happenings.drop_last()).after(nonce, happenings.last())
    }
}

/// Whether each thing could happen when it did.
pub open spec fn all_can(start: Parking, nonce: u128, happenings: Seq<Happening>) -> bool
    decreases happenings.len(),
{
    happenings.len() > 0 ==> all_can(start, nonce, happenings.drop_last()) && parking_run(
        start,
        nonce,
        happenings.drop_last(),
    ).can(nonce, happenings.last())
}

proof fn parking_holds_on_the_way(start: Parking, nonce: u128, happenings: Seq<Happening>)
    requires
        start.phase is Starting,
        start.holds_slot,
        start.state.well_formed(),
        start.state.grants.dom().contains(nonce),
        all_can(start, nonce, happenings),
    ensures
        ({
            let now = parking_run(start, nonce, happenings);
            &&& now.state.well_formed()
            &&& now.state.grants.dom().contains(nonce)
            &&& now.parked() ==> now.state.grants[nonce].paused
            &&& now.parked() ==> now.holds_slot == (now.phase is Resuming)
            &&& now.phase is Starting ==> now.holds_slot
            &&& now.holds_residency == start.holds_residency
        }),
    decreases happenings.len(),
{
    if happenings.len() > 0 {
        parking_holds_on_the_way(start, nonce, happenings.drop_last());
        let before = parking_run(start, nonce, happenings.drop_last());
        match happenings.last() {
            Happening::Other(change) => {
                laws::a_change_keeps_the_promises(before.state, change);
            },
            Happening::Wait(event) => {
                laws::pausing_keeps_one_policy_per_work(before.state, nonce, true);
                laws::pausing_keeps_one_policy_per_work(before.state, nonce, false);
            },
        }
    }
}

/// From the suspension of a worker until its wait returns, whatever else is
/// issued, revoked, moved and paused meanwhile: its permit is paused, and under it
/// nothing is reserved or claimed, no control request is served, and no second
/// wait, boundary, export or lookup begins. Its execution slot is free for others
/// until the wait is over and the slot is had again; its place among the resident
/// workers stays taken. Nor is another permit issued for the work, wherever the
/// store does not admit its funding while it holds it as suspended: not in the
/// place of this one, and not to a launch.
pub proof fn parked_workers_are_fenced(
    start: Parking,
    nonce: u128,
    happenings: Seq<Happening>,
    request: RequestReservation,
    claim: bool,
    closed: bool,
    reads: DispatchReads,
    control_request: ControlRequest,
    boundary_reads: BoundaryReads,
    now_ms: u64,
    deadline: u64,
    chunk: bool,
    funded: Result<(), String>,
    other: Result<(), String>,
    ledger: Result<Ledger, String>,
    parents: Seq<Result<Option<String>, String>>,
    wanted: RequestReservation,
    funding: AdmittedWork,
    replace: Option<u128>,
    issue_reads: IssueReads,
)
    requires
        start.phase is Starting,
        start.holds_slot,
        start.state.well_formed(),
        start.state.grants.dom().contains(nonce),
        all_can(start, nonce, happenings),
        parking_run(start, nonce, happenings).parked(),
    ensures
        ({
            let now = parking_run(start, nonce, happenings);
            let state = now.state;
            &&& state.grants.dom().contains(nonce) && state.grants[nonce].paused
            &&& !state.authorizes(nonce, request, closed)
            &&& dispatch::dispatch_refusal(state.grant(nonce), request, claim, closed, reads)
                == Some(PermitError::RevokedOrMismatched)
            &&& control::control_refusal(
                state,
                nonce,
                request,
                control_request,
                closed,
                other,
                funded,
                other,
            ) is Some
            &&& wait::wait_refusal(
                state,
                nonce,
                request,
                now_ms,
                deadline,
                closed,
                other,
                parents,
            ) is Some
            &&& boundary::boundary_refusal(
                state,
                nonce,
                request,
                now_ms,
                deadline,
                closed,
                boundary_reads,
            ) is Some
            &&& upload::upload_refusal(
                state,
                nonce,
                request,
                chunk,
                now_ms,
                deadline,
                closed,
                funded,
                ledger,
            ) is Some
            &&& web::web_authority_refusal(
                state,
                nonce,
                request,
                now_ms,
                deadline,
                closed,
                funded,
            ) is Some
            &&& issue_reads.funding is Err ==> state.issue_refusal(
                wanted,
                funding,
                replace,
                issue_reads,
            ) is Some
            &&& now.holds_slot <==> now.phase is Resuming
            &&& now.holds_residency == start.holds_residency
        }),
{
    parking_holds_on_the_way(start, nonce, happenings);
}

/// A wait that was revoked, closed or ran out of time cancels its work before the
/// session ends.
pub proof fn broken_waits_cancel_their_work(error: PermitError)
    ensures
        ({
            let cancelling = wait::wait_next(WaitPhase::Polling, WaitEvent::Polled(Err(error)));
            &&& cancelling.1 is CancelWork
            &&& wait::wait_next(cancelling.0, WaitEvent::Cancelled(Ok(()))).1 == WaitAction::Fail(
                error,
            )
        }),
{
}

/// The ids of a session's jobs are all different.
pub proof fn job_ids_differ(origin: u128, one: u64, two: u64)
    requires
        cpu_jobs::job_id(origin, one as int) == cpu_jobs::job_id(origin, two as int),
    ensures
        one == two,
{
}

/// An id that is issued next was never issued before; from then on it is the
/// session's own, as everything that was its own before.
pub proof fn issued_ids_stay_releasable(jobs: CpuJobsView, later: CpuJobsView, id: u128)
    requires
        jobs.issued < u64::MAX,
        later.origin == jobs.origin,
        later.issued == jobs.issued + 1,
    ensures
        !jobs.owns(jobs.next_id()),
        later.owns(jobs.next_id()),
        jobs.owns(id) ==> later.owns(id),
        later.owns(id) && !jobs.owns(id) ==> id == jobs.next_id(),
{
}

/// Giving a job back needs no authority: what was issued can be released after
/// revocation, pause or replacement, under a busy authority, and by any permit.
pub proof fn releases_need_no_authority<W>(
    jobs: CpuJobsView,
    one: Option<PermitStateView>,
    two: Option<PermitStateView>,
    busy_one: bool,
    busy_two: bool,
    nonce_one: u128,
    nonce_two: u128,
    reservation: RequestReservation,
    request: CpuJobRequest<W>,
    closed_one: bool,
    closed_two: bool,
    limits: JobLimits,
)
    requires
        request is Release || request is Unspawned,
    ensures
        jobs.step_for(one, busy_one, nonce_one, reservation, request, closed_one, limits)
            == jobs.step_for(two, busy_two, nonce_two, reservation, request, closed_two, limits),
        request matches CpuJobRequest::Release { permit } ==> (jobs.step_for(
            one,
            busy_one,
            nonce_one,
            reservation,
            request,
            closed_one,
            limits,
        ) is Release <==> jobs.owns(permit)),
{
}

/// Every job that runs was issued to its session: taking a slot and giving one
/// back keep this.
pub proof fn running_jobs_were_issued(jobs: CpuJobsView, id: u128)
    requires
        jobs.well_formed(),
        jobs.issued < u64::MAX,
    ensures
        (CpuJobsView { active: jobs.active.remove(id), ..jobs }).well_formed(),
        (CpuJobsView {
            active: jobs.active.insert(jobs.next_id()),
            issued: (jobs.issued + 1) as u64,
            ..jobs
        }).well_formed(),
        (CpuJobsView { issued: (jobs.issued + 1) as u64, ..jobs }).well_formed(),
{
    let later = CpuJobsView { issued: (jobs.issued + 1) as u64, ..jobs };
    issued_ids_stay_releasable(jobs, later, id);
    assert forall|other: u128| jobs.owns(other) implies #[trigger] later.owns(other) by {}
}

/// What is collected of a worker stays bounded: at most 20 000 events, at most a
/// frame of anything but raw tool text.
pub open spec fn collection_bounded<K>(collector: CollectorView<K>) -> bool {
    &&& collector.events.len() <= events::MAX_EVENTS
    &&& collector.seen.dom().finite()
    &&& collector.seen.dom().len() <= events::MAX_EVENTS
    &&& collector.semantic_bytes <= collector.max_frame
}

/// Seeing an event and keeping one keep what is collected bounded.
pub proof fn collection_stays_bounded<K>(
    collector: CollectorView<K>,
    event: EventEnvelope<K>,
    digest: Seq<u8>,
    size: usize,
)
    requires
        collection_bounded(collector),
    ensures
        collector.observed(event.event_id, digest) matches Ok(seen) ==> collection_bounded(seen.1),
        collector.kept(event, size) matches Ok(after) ==> collection_bounded(after),
{
}

/// Nothing but raw tool text is ever let go: a new event of any other kind is
/// kept, behind those before it, or ends the launch.
pub proof fn semantic_events_are_kept<K>(
    collector: CollectorView<K>,
    event: EventEnvelope<K>,
    size: usize,
)
    requires
        !event.raw(),
    ensures
        collector.kept(event, size) matches Ok(after) ==> after.events == collector.events.push(
            event,
        ),
{
}

/// Raw tool text that is let go leaves everything as it is, and is let go only
/// beyond a frame.
pub proof fn raw_text_is_let_go_beyond_a_frame<K>(
    collector: CollectorView<K>,
    event: EventEnvelope<K>,
    size: usize,
)
    requires
        event.raw(),
    ensures
        collector.kept(event, size) matches Ok(after) ==> after.events == collector.events.push(
            event,
        ) || after == collector && collector.retained + size > collector.max_frame,
{
}

/// A line that is printed again counts once; the same event id on a line with
/// another digest ends the launch.
pub proof fn repeated_events_count_once<K>(
    collector: CollectorView<K>,
    event_id: u64,
    digest: Seq<u8>,
    other: Seq<u8>,
)
    requires
        collector.observed(event_id, digest) is Ok,
    ensures
        ({
            let after = collector.observed(event_id, digest)->Ok_0;
            &&& after.1.observed(event_id, digest) == Ok::<_, PermitError>((false, after.1))
            &&& other != digest ==> after.1.observed(event_id, other) == Err::<
                (bool, CollectorView<K>),
                _,
            >(PermitError::Protocol)
        }),
{
}

/// Letting raw tool text go leaves no such text, and letting it go twice is
/// letting it go once.
pub proof fn letting_go_leaves_no_raw_text<K>(all: Seq<EventEnvelope<K>>)
    ensures
        forall|i: int|
            0 <= i < events::semantic(all).len() ==> !(#[trigger] events::semantic(all)[i]).raw(),
        events::semantic(events::semantic(all)) == events::semantic(all),
    decreases all.len(),
{
    if all.len() > 0 {
        letting_go_leaves_no_raw_text(all.drop_last());
        if !all.last().raw() {
            let kept = events::semantic(all.drop_last());
            assert(kept.push(all.last()).drop_last() == kept);
        }
    }
}

/// An event as a worker printed it: the digest of its line, and the line's size.
pub struct Printed<K> {
    pub event: EventEnvelope<K>,
    pub digest: Seq<u8>,
    pub size: usize,
}

/// What is collected once a printed event was seen and, where it is a new one,
/// kept.
pub open spec fn taken<K>(collector: CollectorView<K>, printed: Printed<K>) -> Result<
    CollectorView<K>,
    PermitError,
> {
    match collector.observed(printed.event.event_id, printed.digest) {
        Err(error) => Err(error),
        Ok((new, after)) => if new {
            after.kept(printed.event, printed.size)
        } else {
            Ok(after)
        },
    }
}

/// What is collected of everything that a worker printed. What breaks the protocol
/// ends the launch.
pub open spec fn collection_run<K>(
    start: CollectorView<K>,
    printed: Seq<Printed<K>>,
) -> Result<CollectorView<K>, PermitError>
    decreases printed.len(),
{
    if printed.len() == 0 {
        Ok(start)
    } else {
        match collection_run(start, printed.drop_last()) {
            Err(error) => Err(error),
            Ok(before) => taken(before, printed.last()),
        }
    }
}

/// No two events share an id.
pub open spec fn distinct_events<K>(all: Seq<EventEnvelope<K>>) -> bool {
    forall|i: int, j: int|
        0 <= i < j < all.len() ==> (#[trigger] all[i]).event_id != (#[trigger] all[j]).event_id
}

/// No two kept events share an id, and the id of each is remembered.
pub open spec fn ids_distinct<K>(collector: CollectorView<K>) -> bool {
    &&& distinct_events(collector.events)
    &&& forall|i: int|
        0 <= i < collector.events.len() ==> collector.seen.dom().contains(
            (#[trigger] collector.events[i]).event_id,
        )
}

/// Seeing an event, and keeping it where it is a new one, keep the ids of events
/// distinct.
pub proof fn taking_keeps_ids_distinct<K>(collector: CollectorView<K>, printed: Printed<K>)
    requires
        ids_distinct(collector),
    ensures
        taken(collector, printed) matches Ok(after) ==> ids_distinct(after),
{
    if let Ok(after) = taken(collector, printed) {
        assert forall|i: int| 0 <= i < after.events.len() implies after.seen.dom().contains(
            (#[trigger] after.events[i]).event_id,
        ) by {
            if i < collector.events.len() {
                assert(after.events[i] == collector.events[i]);
            }
        }
        assert forall|i: int, j: int| 0 <= i < j < after.events.len() implies (
        #[trigger] after.events[i]).event_id != (#[trigger] after.events[j]).event_id by {
            assert(after.events[i] == collector.events[i]);
            if j < collector.events.len() {
                assert(after.events[j] == collector.events[j]);
            }
        }
    }
}

/// Where each kept event stands among all of them, in order.
pub open spec fn places<K>(
    kept: Seq<EventEnvelope<K>>,
    all: Seq<EventEnvelope<K>>,
    at: Seq<int>,
) -> bool {
    &&& at.len() == kept.len()
    &&& forall|i: int|
        0 <= i < at.len() ==> 0 <= #[trigger] at[i] < all.len() && kept[i] == all[at[i]]
    &&& forall|i: int, j: int| 0 <= i < j < at.len() ==> #[trigger] at[i] < #[trigger] at[j]
}

/// What is kept stands in the order in which it came.
pub open spec fn in_order<K>(kept: Seq<EventEnvelope<K>>, all: Seq<EventEnvelope<K>>) -> bool {
    exists|at: Seq<int>| places(kept, all, at)
}

/// The events that a worker printed.
pub open spec fn events_in<K>(printed: Seq<Printed<K>>) -> Seq<EventEnvelope<K>> {
    Seq::new(printed.len(), |i: int| printed[i].event)
}

/// Whether an event with this id was printed.
pub open spec fn printed_id<K>(printed: Seq<Printed<K>>, id: u64) -> bool {
    exists|i: int| 0 <= i < printed.len() && (#[trigger] printed[i]).event.event_id == id
}

/// Whether a printed event is the first of its id.
pub open spec fn first_of_its_id<K>(printed: Seq<Printed<K>>, i: int) -> bool {
    !printed_id(printed.take(i), printed[i].event.event_id)
}

proof fn order_outlasts_more<K>(
    kept: Seq<EventEnvelope<K>>,
    all: Seq<EventEnvelope<K>>,
    last: EventEnvelope<K>,
)
    requires
        in_order(kept, all),
    ensures
        in_order(kept, all.push(last)),
        in_order(kept.push(last), all.push(last)),
{
    let at = choose|at: Seq<int>| places(kept, all, at);
    assert(places(kept, all.push(last), at));
    assert(places(kept.push(last), all.push(last), at.push(all.len() as int)));
}

proof fn what_was_printed_is_remembered<K>(start: CollectorView<K>, printed: Seq<Printed<K>>)
    requires
        start.seen == Map::<u64, Seq<u8>>::empty(),
    ensures
        collection_run(start, printed) matches Ok(after) ==> forall|id: u64| #[trigger]
            after.seen.dom().contains(id) <==> printed_id(printed, id),
    decreases printed.len(),
{
    if printed.len() > 0 && collection_run(start, printed) is Ok {
        let fewer = printed.drop_last();
        let last = printed.last();
        what_was_printed_is_remembered(start, fewer);
        let before = collection_run(start, fewer)->Ok_0;
        let after = collection_run(start, printed)->Ok_0;
        assert forall|id: u64| #[trigger] after.seen.dom().contains(id) <==> printed_id(
            printed,
            id,
        ) by {
            assert(after.seen.dom().contains(id) <==> before.seen.dom().contains(id) || id
                == last.event.event_id);
            if printed_id(fewer, id) {
                let i = choose|i: int|
                    0 <= i < fewer.len() && (#[trigger] fewer[i]).event.event_id == id;
                assert(printed[i].event.event_id == id);
            }
            if id == last.event.event_id {
                assert(printed[printed.len() - 1].event.event_id == id);
            }
            if printed_id(printed, id) && id != last.event.event_id {
                let i = choose|i: int|
                    0 <= i < printed.len() && (#[trigger] printed[i]).event.event_id == id;
                assert(fewer[i].event.event_id == id);
            }
        }
    }
}

proof fn what_is_kept_came_in_order<K>(start: CollectorView<K>, printed: Seq<Printed<K>>)
    requires
        start.events.len() == 0,
    ensures
        collection_run(start, printed) matches Ok(after) ==> ids_distinct(after) && in_order(
            after.events,
            events_in(printed),
        ),
    decreases printed.len(),
{
    if printed.len() == 0 {
        assert(places(start.events, events_in(printed), Seq::<int>::empty()));
    } else if collection_run(start, printed) is Ok {
        let fewer = printed.drop_last();
        let last = printed.last();
        what_is_kept_came_in_order(start, fewer);
        let before = collection_run(start, fewer)->Ok_0;
        taking_keeps_ids_distinct(before, last);
        assert(events_in(printed) == events_in(fewer).push(last.event));
        order_outlasts_more(before.events, events_in(fewer), last.event);
    }
}

proof fn what_came_first_is_kept<K>(start: CollectorView<K>, printed: Seq<Printed<K>>, i: int)
    requires
        start.seen == Map::<u64, Seq<u8>>::empty(),
        collection_run(start, printed) is Ok,
        0 <= i < printed.len(),
        first_of_its_id(printed, i),
        !printed[i].event.raw(),
    ensures
        collection_run(start, printed)->Ok_0.events.contains(printed[i].event),
    decreases printed.len(),
{
    let fewer = printed.drop_last();
    let before = collection_run(start, fewer)->Ok_0;
    let after = collection_run(start, printed)->Ok_0;
    if i < fewer.len() {
        assert(fewer.take(i) == printed.take(i));
        what_came_first_is_kept(start, fewer, i);
        let k = choose|k: int|
            0 <= k < before.events.len() && before.events[k] == printed[i].event;
        assert(after.events[k] == printed[i].event);
    } else {
        assert(printed.take(i) == fewer);
        what_was_printed_is_remembered(start, fewer);
        assert(!before.seen.dom().contains(printed[i].event.event_id));
        assert(after.events[before.events.len() as int] == printed[i].event);
    }
}

/// The collection of a whole run. Of everything that a worker printed, whatever it
/// is and however often: no two kept events share an id, each kept id is
/// remembered, and so is every printed one and no other; what is kept stands in the
/// order in which it came; and what first came under an id and holds no raw tool
/// text is kept.
pub proof fn every_event_is_kept_once_and_in_order<K>(
    start: CollectorView<K>,
    printed: Seq<Printed<K>>,
)
    requires
        start.events.len() == 0,
        start.seen == Map::<u64, Seq<u8>>::empty(),
        collection_run(start, printed) is Ok,
    ensures
        ({
            let after = collection_run(start, printed)->Ok_0;
            &&& ids_distinct(after)
            &&& forall|id: u64| #[trigger]
                after.seen.dom().contains(id) <==> printed_id(printed, id)
            &&& in_order(after.events, events_in(printed))
            &&& forall|i: int|
                0 <= i < printed.len() && first_of_its_id(printed, i)
                    && !(#[trigger] printed[i]).event.raw() ==> after.events.contains(
                    printed[i].event,
                )
        }),
{
    what_was_printed_is_remembered(start, printed);
    what_is_kept_came_in_order(start, printed);
    let after = collection_run(start, printed)->Ok_0;
    assert forall|i: int|
        0 <= i < printed.len() && first_of_its_id(printed, i)
            && !(#[trigger] printed[i]).event.raw() implies after.events.contains(
        printed[i].event,
    ) by {
        what_came_first_is_kept(start, printed, i);
    }
}

proof fn letting_go_keeps_order<K>(all: Seq<EventEnvelope<K>>)
    ensures
        in_order(events::semantic(all), all),
        forall|event: EventEnvelope<K>| #[trigger]
            events::semantic(all).contains(event) <==> all.contains(event) && !event.raw(),
    decreases all.len(),
{
    if all.len() == 0 {
        assert(places(events::semantic(all), all, Seq::<int>::empty()));
    } else {
        let fewer = all.drop_last();
        let last = all.last();
        letting_go_keeps_order(fewer);
        assert(all == fewer.push(last));
        order_outlasts_more(events::semantic(fewer), fewer, last);
        let before = events::semantic(fewer);
        let after = events::semantic(all);
        assert forall|event: EventEnvelope<K>| #[trigger]
            after.contains(event) <==> all.contains(event) && !event.raw() by {
            if after.contains(event) {
                let i = choose|i: int| 0 <= i < after.len() && after[i] == event;
                if i < before.len() {
                    assert(before[i] == event);
                    assert(before.contains(event));
                    let j = choose|j: int| 0 <= j < fewer.len() && fewer[j] == event;
                    assert(all[j] == event);
                } else {
                    assert(all[all.len() - 1] == event);
                }
            }
            if all.contains(event) && !event.raw() {
                let j = choose|j: int| 0 <= j < all.len() && all[j] == event;
                if j < fewer.len() {
                    assert(fewer[j] == event);
                    assert(before.contains(event));
                    let i = choose|i: int| 0 <= i < before.len() && before[i] == event;
                    assert(after[i] == event);
                } else {
                    assert(after[before.len() as int] == event);
                }
            }
        }
    }
}

/// What a launch hands out at the end: letting raw tool text go keeps the ids of
/// events distinct, keeps them in the order in which they came, and lets go of
/// nothing else.
pub proof fn concluding_keeps_ids_and_order<K>(
    kept: Seq<EventEnvelope<K>>,
    all: Seq<EventEnvelope<K>>,
)
    requires
        distinct_events(kept),
        in_order(kept, all),
    ensures
        distinct_events(events::semantic(kept)),
        in_order(events::semantic(kept), all),
        forall|event: EventEnvelope<K>| #[trigger]
            events::semantic(kept).contains(event) <==> kept.contains(event) && !event.raw(),
{
    letting_go_keeps_order(kept);
    let rest = events::semantic(kept);
    let inner = choose|at: Seq<int>| places(rest, kept, at);
    let outer = choose|at: Seq<int>| places(kept, all, at);
    let at = Seq::new(inner.len(), |i: int| outer[inner[i]]);
    assert forall|i: int| 0 <= i < at.len() implies 0 <= #[trigger] at[i] < all.len() && rest[i]
        == all[at[i]] by {
        assert(0 <= inner[i] < kept.len());
        assert(0 <= outer[inner[i]] < all.len());
    }
    assert forall|i: int, j: int| 0 <= i < j < at.len() implies #[trigger] at[i]
        < #[trigger] at[j] by {
        assert(inner[i] < inner[j]);
        assert(0 <= inner[i] && inner[j] < outer.len());
    }
    assert(places(rest, all, at));
    assert forall|i: int, j: int| 0 <= i < j < rest.len() implies (#[trigger] rest[i]).event_id
        != (#[trigger] rest[j]).event_id by {
        assert(inner[i] < inner[j]);
        assert(kept[inner[i]].event_id != kept[inner[j]].event_id);
    }
}

/// A lookup is never allowed more than its campaign, nor more than its host, and
/// all its requests together never more than that many times one of them.
pub proof fn lookups_stay_within_both_allowances(
    grant: CampaignWeb,
    configured: WebPolicy,
    reservation: RequestReservation,
    bound: (u64, u64),
)
    requires
        web::policy_refusal(grant, configured, Some(bound)) is None,
    ensures
        ({
            let policy = web::narrowed(grant, configured, reservation, bound);
            &&& policy.max_requests <= grant.max_requests
            &&& policy.max_requests <= configured.max_requests
            &&& policy.max_server_calls <= grant.max_server_calls
            &&& policy.max_server_calls <= configured.max_server_calls
            &&& policy.turn_tokens == bound.0 * policy.max_requests
            &&& policy.turn_cost_micro_usd == bound.1 * policy.max_requests
            &&& policy.max_request_cost_micro_usd == bound.1
        }),
{
    let requests = web::smaller(grant.max_requests, configured.max_requests);
    assert(0 <= bound.0 * requests) by (nonlinear_arith)
        requires
            0 <= bound.0,
            0 <= requests,
    ;
    assert(0 <= bound.1 * requests) by (nonlinear_arith)
        requires
            0 <= bound.1,
            0 <= requests,
    ;
}

} // verus!
