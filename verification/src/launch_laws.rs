//! What a launch needs, what its steps lead to, and what becomes of the events of
//! its worker.
use vstd::prelude::*;
use crate::errors::PermitError;
use crate::events;
use crate::events::{CollectorView, EventEnvelope};
use crate::launch;
use crate::launch::{
    ClaimReads, Cleanup, ExecutionRecord, Launch, LaunchAction, LaunchEvent, LaunchPhase,
    LaunchResult, PrepareReads, Waited, WorkRequest, WorkStanding,
};
use crate::model::{AdmittedWork, RequestReservation};
use crate::outside;

verus! {

/// Whether a launch ended with this result and closed its lease.
pub open spec fn finishes(step: (Launch, LaunchAction), result: LaunchResult) -> bool {
    &&& step.0.phase is Ended
    &&& step.1 == LaunchAction::Finish(result)
    &&& step.0.lease.closed_spec()
}

/// A worker that ran to its end and exited well is settled without a gap, however
/// its process group went away as long as it did, and its events are the result.
pub proof fn workers_that_exit_well_are_believed(launch: Launch, cleanup: Cleanup, parked: bool)
    requires
        launch.phase == (LaunchPhase::Reaping { collected: Ok(()), cancelled: false }),
        cleanup != Cleanup::Failed,
    ensures
        ({
            let reaped = launch.next(LaunchEvent::Reaped { exit: Some(true), cleanup });
            let settled = reaped.0.next(LaunchEvent::Settled(Ok(parked)));
            &&& reaped.1 is Settle
            &&& !parked ==> finishes(settled, LaunchResult::Events)
            &&& parked ==> finishes(settled, LaunchResult::Nothing)
        }),
{
    launch.lease.shut_is_closed();
}

/// From its exit to its result: a gap is recorded exactly where the events did not
/// come through, the work was cancelled, or the worker did not exit well; whatever
/// killing its group came to otherwise. Parked work has no result, one that failed
/// to come through is refused with its own error, cancelled work has none, and only
/// what is left is reported, as failed exactly where the worker did not exit well.
pub proof fn results_come_of_the_exit(
    launch: Launch,
    collected: Result<(), PermitError>,
    cancelled: bool,
    success: bool,
    cleanup: Cleanup,
    parked: bool,
)
    requires
        launch.phase == (LaunchPhase::Reaping { collected, cancelled }),
        cleanup != Cleanup::Failed,
    ensures
        ({
            let reaped = launch.next(LaunchEvent::Reaped { exit: Some(success), cleanup });
            let gap = collected is Err || cancelled || !success;
            let ready = if gap {
                reaped.0.next(LaunchEvent::GapRecorded(Ok(())))
            } else {
                reaped
            };
            let settled = ready.0.next(LaunchEvent::Settled(Ok(parked)));
            &&& gap <==> reaped.1 is RecordGap
            &&& ready.1 is Settle
            &&& settled.0.phase is Ended && settled.1 is Finish
            &&& settled.1->0 is Nothing <==> parked || collected is Ok && cancelled
            &&& settled.1->0 is Refused <==> !parked && collected is Err
            &&& settled.1->0 is Refused ==> settled.1->0->Refused_0 == collected->Err_0
            &&& settled.1->0 is FailedEvents <==> !parked && collected is Ok && !cancelled
                && !success
            &&& settled.1->0 is Events <==> !parked && collected is Ok && !cancelled && success
        }),
{
}

/// A worker whose group could not be killed, or whose exit is unknown, is refused.
/// What cannot be recorded or settled is refused with its own error.
pub proof fn unknown_ends_are_refused(
    launch: Launch,
    collected: Result<(), PermitError>,
    cancelled: bool,
    success: bool,
    exit: Option<bool>,
    cleanup: Cleanup,
    failure: String,
)
    ensures
        launch.phase == (LaunchPhase::Reaping { collected, cancelled }) && (exit is None || cleanup
            == Cleanup::Failed) ==> finishes(
            launch.next(LaunchEvent::Reaped { exit, cleanup }),
            LaunchResult::Refused(PermitError::Protocol),
        ),
        launch.phase == (LaunchPhase::Gap { collected, cancelled, success }) ==> finishes(
            launch.next(LaunchEvent::GapRecorded(Err(failure))),
            LaunchResult::Refused(PermitError::Host(failure)),
        ),
        launch.phase == (LaunchPhase::Settling { collected, cancelled, success }) ==> finishes(
            launch.next(LaunchEvent::Settled(Err(failure))),
            LaunchResult::Refused(PermitError::Host(failure)),
        ),
{
    launch.lease.shut_is_closed();
}

/// From its request to its worker: a launch that gets both slots, is prepared and
/// claimed, is not cancelled and still in time starts its worker, and nothing
/// closes its lease before the worker is done. Then it is reaped with what was
/// collected.
pub proof fn launches_run_their_worker(
    launch: Launch,
    now: u64,
    collected: Result<(), PermitError>,
)
    requires
        launch.phase is Residency,
        now < launch.deadline,
    ensures
        ({
            let resident = launch.next(LaunchEvent::Waited(Waited::Answered(Ok(()))));
            let admitted = resident.0.next(LaunchEvent::Waited(Waited::Answered(Ok(()))));
            let claimed = admitted.0.next(LaunchEvent::Prepared(Ok(())));
            let checked = claimed.0.next(LaunchEvent::Checked { cancelled: false, now });
            let spawned = checked.0.next(LaunchEvent::Spawned(true));
            let ran = spawned.0.next(LaunchEvent::Ran(collected));
            let stopped = spawned.0.next(LaunchEvent::CancelRequested);
            &&& resident.1 is AdmitExecution
            &&& admitted.1 is Prepare
            &&& claimed.1 is CheckCancellation
            &&& checked.1 is Spawn
            &&& spawned.1 is Run
            &&& spawned.0.lease == launch.lease && spawned.0.deadline == launch.deadline
            &&& ran.1 is KillAndReap && ran.0.lease.closed_spec()
            &&& ran.0.phase == (LaunchPhase::Reaping { collected, cancelled: false })
            &&& stopped.1 is KillAndReap && stopped.0.lease.closed_spec()
            &&& stopped.0.phase == (LaunchPhase::Reaping { collected: Ok(()), cancelled: true })
        }),
{
    launch.lease.shut_is_closed();
}

/// A launch that gets no slot is refused with what the host said of it, and one that
/// could not be prepared with that error. One that was cancelled before its worker
/// started has no result, one that came too late is refused, and so is one whose
/// worker did not start.
pub proof fn launches_stop_before_their_worker(
    launch: Launch,
    failure: String,
    error: PermitError,
    cancelled: bool,
    now: u64,
)
    ensures
        launch.phase is Residency || launch.phase is Execution ==> {
            &&& finishes(
                launch.next(LaunchEvent::Waited(Waited::Cancelled)),
                LaunchResult::Refused(PermitError::AdmissionCancelled),
            )
            &&& finishes(
                launch.next(LaunchEvent::Waited(Waited::Deadline)),
                LaunchResult::Refused(PermitError::AdmissionDeadline),
            )
            &&& finishes(
                launch.next(LaunchEvent::Waited(Waited::Answered(Err(failure)))),
                LaunchResult::Refused(PermitError::Host(failure)),
            )
        },
        launch.phase is Preparing ==> finishes(
            launch.next(LaunchEvent::Prepared(Err(error))),
            LaunchResult::Refused(error),
        ),
        launch.phase is Claimed ==> {
            let checked = launch.next(LaunchEvent::Checked { cancelled, now });
            &&& cancelled ==> finishes(checked, LaunchResult::Nothing)
            &&& !cancelled && now >= launch.deadline ==> finishes(
                checked,
                LaunchResult::Refused(PermitError::Protocol),
            )
            &&& !cancelled && now < launch.deadline ==> checked.1 is Spawn
                && checked.0.phase is Spawning
        },
        launch.phase is Spawning ==> finishes(
            launch.next(LaunchEvent::Spawned(false)),
            LaunchResult::Refused(PermitError::Protocol),
        ),
{
    launch.lease.shut_is_closed();
}

/// What does not belong to the step that a launch is at refuses it, and nothing
/// happens after its end.
pub proof fn launches_go_step_by_step(launch: Launch, event: LaunchEvent)
    ensures
        ({
            let after = launch.next(event);
            let fits = match launch.phase {
                LaunchPhase::Residency | LaunchPhase::Execution => event is Waited,
                LaunchPhase::Preparing => event is Prepared,
                LaunchPhase::Claimed => event is Checked,
                LaunchPhase::Spawning => event is Spawned,
                LaunchPhase::Running => event is Ran || event is CancelRequested,
                LaunchPhase::Reaping { .. } => event is Reaped,
                LaunchPhase::Gap { .. } => event is GapRecorded,
                LaunchPhase::Settling { .. } => event is Settled,
                LaunchPhase::Ended => false,
            };
            &&& launch.phase is Ended ==> after == (launch, LaunchAction::Ignore)
            &&& !(launch.phase is Ended) && !fits ==> finishes(
                after,
                LaunchResult::Refused(PermitError::Protocol),
            )
        }),
        launch.abandoned().phase is Ended,
        launch.abandoned().lease.closed_spec(),
{
    launch.lease.shut_is_closed();
}

/// Work is the same exactly where it agrees in every part, its attempt included.
pub proof fn work_is_the_same_in_every_part(one: WorkRequest, two: WorkRequest)
    ensures
        one.same_as(&two) <==> {
            &&& one.work_id@ == two.work_id@
            &&& one.objective@ == two.objective@
            &&& one.generation == two.generation
            &&& one.assignment == two.assignment
            &&& one.deadline_ms == two.deadline_ms
            &&& one.context_refs == two.context_refs
            &&& one.attempt is Some == two.attempt is Some
            &&& one.attempt is Some && two.attempt is Some ==> one.attempt->0@ == two.attempt->0@
            &&& one.content@ == two.content@
        },
{
}

/// A typed attempt runs on its execution: one of the same work, funding and model
/// that is still executing and not settled. Without a record only work that is no
/// typed attempt may run.
pub proof fn executions_are_of_the_same_work(
    record: Result<Option<ExecutionRecord>, String>,
    funding: AdmittedWork,
    reservation: RequestReservation,
    work: WorkRequest,
)
    ensures
        ({
            let refusal = launch::execution_refusal(record, funding, reservation, work);
            let kept = record->Ok_0->0;
            let read = record is Ok;
            let fits = read && if record->Ok_0 is Some {
                &&& kept.work.same_as(&work)
                &&& kept.funding.same_as(&funding)
                &&& kept.model@ == reservation@
                &&& kept.phase is ExecutingUnknown
                &&& !kept.settled
            } else {
                work.attempt is None
            };
            &&& refusal is None <==> fits
            &&& !read ==> refusal == Some(PermitError::Host(record->Err_0))
            &&& read && !fits ==> refusal == Some(PermitError::Protocol)
        }),
{
}

/// A launch may be made in time, for the work that was funded, at its generation and
/// with its objective, under an assignment, with at most four valid resources, for
/// the attempt of the request where it is of one, and on absolute paths.
pub proof fn launches_are_of_funded_work(
    funding: AdmittedWork,
    reservation: RequestReservation,
    work: WorkRequest,
    now: u64,
    deadline: u64,
    now_ms: u128,
    refs_valid: bool,
    absolute: bool,
)
    ensures
        launch::launch_allowed(
            funding,
            reservation,
            work,
            now,
            deadline,
            now_ms,
            refs_valid,
            absolute,
        ) <==> {
            &&& now < deadline
            &&& now_ms < work.deadline_ms
            &&& work.work_id@ == funding.admission.work_id@
            &&& work.generation == funding.admission.generation
            &&& work.objective@ == funding.admission.objective@
            &&& work.assignment > 0
            &&& work.context_refs < 5
            &&& refs_valid
            &&& absolute
            &&& work.attempt is None || work.attempt->0@ == reservation.identity.attempt_id@
        },
{
}

/// A launch ends when the time of its work is over, or with its session if that is
/// earlier.
pub proof fn launches_end_with_their_work(
    work: WorkRequest,
    now: u64,
    deadline: u64,
    now_ms: u128,
)
    requires
        now_ms < work.deadline_ms,
    ensures
        ({
            let end = launch::launch_deadline(work, now, deadline, now_ms);
            let left = work.deadline_ms - now_ms;
            &&& end <= deadline
            &&& end <= now + left
            &&& end == deadline || end == now + left
        }),
{
}

/// A path is within a directory where it is that directory or goes on from it, part
/// by part; two paths are apart where neither is within the other.
pub proof fn paths_go_on_from_their_directory(
    directory: Seq<String>,
    rest: Seq<String>,
    other: Seq<String>,
    i: int,
)
    ensures
        launch::within(directory + rest, directory),
        launch::within(directory, directory),
        launch::within(other, directory) ==> other.len() >= directory.len(),
        0 <= i < directory.len() && i < other.len() && other[i]@ != directory[i]@
            ==> !launch::within(other, directory),
        other.len() < directory.len() ==> !launch::within(other, directory),
        launch::apart(other, directory) <==> !launch::within(other, directory)
            && !launch::within(directory, other),
{
    assert forall|j: int| 0 <= j < directory.len() implies (#[trigger] (directory + rest)[j])@
        == directory[j]@ by {
        assert((directory + rest)[j] == directory[j]);
    }
}

/// A launch is prepared where its directories are apart, its resources and funding
/// are there, its execution is of the same work, and the store has it registered.
pub proof fn launches_are_prepared_for_registered_work(
    separate: bool,
    funding: AdmittedWork,
    reservation: RequestReservation,
    work: WorkRequest,
    reads: PrepareReads,
)
    ensures
        ({
            let refusal = launch::prepare_refusal(separate, funding, reservation, work, reads);
            let execution = launch::execution_refusal(reads.execution, funding, reservation, work);
            let supplied = separate && reads.resources is Ok;
            let funded = supplied && reads.funding is Ok;
            let executing = funded && execution is None;
            let read = executing && reads.registered is Ok;
            &&& refusal is None <==> read && reads.registered->Ok_0 is Registered
            &&& !separate ==> refusal == Some(PermitError::Protocol)
            &&& separate && !supplied ==> refusal == Some(PermitError::Host(reads.resources->Err_0))
            &&& supplied && !funded ==> refusal == Some(PermitError::Host(reads.funding->Err_0))
            &&& funded && !executing ==> refusal == execution
            &&& executing && !read ==> refusal == Some(PermitError::Host(reads.registered->Err_0))
            &&& read && refusal is Some ==> refusal == Some(PermitError::Protocol)
        }),
{
}

/// A launch is claimed where its funding is there, its hold may still be spent while
/// admissions go on, its execution is of the same work, and it was not claimed
/// before.
pub proof fn launches_are_claimed_on_an_open_hold(
    funding: AdmittedWork,
    reservation: RequestReservation,
    work: WorkRequest,
    reads: ClaimReads,
)
    ensures
        ({
            let refusal = launch::launch_refusal(funding, reservation, work, reads);
            let execution = launch::execution_refusal(reads.execution, funding, reservation, work);
            let book = reads.ledger->Ok_0@;
            let id = funding.dispatch_id@;
            let funded = reads.funding is Ok;
            let booked = funded && reads.ledger is Ok;
            let open = booked && book.reservations.dom().contains(id) && !book.admissions_paused
                && !book.reservations[id].cancellation_requested
                && book.reservations[id].usage is Unknown;
            let executing = open && execution is None;
            let read = executing && reads.launched is Ok;
            &&& refusal is None <==> read && !reads.launched->Ok_0
            &&& !funded ==> refusal == Some(PermitError::Host(reads.funding->Err_0))
            &&& funded && !booked ==> refusal == Some(PermitError::Host(reads.ledger->Err_0))
            &&& booked && !open ==> refusal == Some(PermitError::Protocol)
            &&& open && !executing ==> refusal == execution
            &&& executing && !read ==> refusal == Some(PermitError::Host(reads.launched->Err_0))
            &&& read && refusal is Some ==> refusal == Some(PermitError::Protocol)
        }),
        work.attempt is None ==> launch::launch_key(funding, work) == funding.dispatch_id@,
        work.attempt is Some ==> launch::launch_key(funding, work) == outside::json_pair_text(
            funding.dispatch_id@,
            work.attempt->0@,
        ),
{
}

/// A slot was had exactly where the host answered with one; and a worker is parked
/// exactly where the store has its work waiting or to be cancelled.
pub proof fn slots_are_had_on_a_good_answer(waited: Waited, standing: Option<WorkStanding>)
    ensures
        launch::capacity_refusal(waited) is None <==> waited is Answered && waited->0 is Ok,
        waited is Cancelled ==> launch::capacity_refusal(waited) == Some(
            PermitError::AdmissionCancelled,
        ),
        waited is Deadline ==> launch::capacity_refusal(waited) == Some(
            PermitError::AdmissionDeadline,
        ),
        waited is Answered && waited->0 is Err ==> launch::capacity_refusal(waited) == Some(
            PermitError::Host(waited->0->Err_0),
        ),
        launch::parked(standing) <==> standing is Some && (standing->0.waits
            || standing->0.cancellation_requested),
{
}

/// Of a worker that did not exit well, a candidate is reported as failed and in all
/// else as it was; everything else is reported unchanged.
pub proof fn failed_workers_change_candidates_only<K>(
    event: EventEnvelope<K>,
    reported: EventEnvelope<K>,
)
    requires
        launch::failed_event(event, reported),
    ensures
        !(event.kind is WorkCandidate) ==> reported == event,
        event.kind is WorkCandidate ==> {
            &&& reported.kind is WorkCandidate
            &&& reported.kind->failure is Some
            &&& reported.kind->failure->0@ == "worker exited unsuccessfully"@
            &&& reported.event_id == event.event_id
            &&& reported.session_id == event.session_id
            &&& reported.task_id == event.task_id
            &&& reported.actor == event.actor
            &&& reported.conversation_id == event.conversation_id
            &&& reported.parent_task_id == event.parent_task_id
            &&& reported.content == event.content
        },
{
}

/// An event is of a worker where its session, its actor and its task all are that
/// worker, and it belongs to no conversation and to no other task; it is raw where
/// a tool started or finished.
pub proof fn events_name_their_worker_throughout<K>(
    event: EventEnvelope<K>,
    worker_id: Seq<char>,
)
    ensures
        event.of_worker(worker_id) <==> {
            &&& event.session_id@ == worker_id
            &&& event.actor is Worker && event.actor->id@ == worker_id
            &&& event.task_id is Some && event.task_id->0@ == worker_id
            &&& event.conversation_id is None
            &&& event.parent_task_id is None
        },
        event.raw() <==> event.kind is ToolStarted || event.kind is ToolFinished,
{
}

/// Of each id the first form counts: an id that was not seen is new as long as there
/// are fewer than 20,000, one that was seen in the same form is not, and one that
/// was seen in another form is refused. Nothing else changes.
pub proof fn ids_are_seen_in_one_form<K>(
    collector: CollectorView<K>,
    event_id: u64,
    digest: Seq<u8>,
    other: u64,
)
    requires
        other != event_id,
    ensures
        ({
            let observed = collector.observed(event_id, digest);
            let seen = collector.seen.dom().contains(event_id);
            let full = collector.seen.dom().len() >= 20_000;
            &&& observed is Ok <==> if seen {
                collector.seen[event_id] == digest
            } else {
                !full
            }
            &&& observed is Err ==> observed->Err_0 is Protocol
            &&& observed is Ok ==> {
                let (new, after) = observed->Ok_0;
                &&& new <==> !seen
                &&& after.seen.dom().contains(event_id) && after.seen[event_id] == digest
                &&& after.seen.dom().contains(other) == collector.seen.dom().contains(other)
                &&& collector.seen.dom().contains(other) ==> after.seen[other]
                    == collector.seen[other]
                &&& after.events == collector.events
                &&& after.retained == collector.retained
                &&& after.semantic_bytes == collector.semantic_bytes
                &&& after.max_frame == collector.max_frame
            }
        }),
{
}

/// An event is kept behind the others, and its size is counted, unless it is raw and
/// would not fit into a frame with everything before it: then it is let go, and
/// nothing changes. One that is not raw is refused where it does not fit with the
/// others that are not, and any where 20,000 are kept. Sizes are counted up to the
/// largest there is.
pub proof fn events_are_kept_while_they_fit<K>(
    collector: CollectorView<K>,
    event: EventEnvelope<K>,
    size: usize,
)
    ensures
        ({
            let kept = collector.kept(event, size);
            let raw = event.kind is ToolStarted || event.kind is ToolFinished;
            let retained: int = if collector.retained + size <= usize::MAX {
                collector.retained + size
            } else {
                usize::MAX as int
            };
            let semantic_bytes: int = if collector.semantic_bytes + size <= usize::MAX {
                collector.semantic_bytes + size
            } else {
                usize::MAX as int
            };
            let full = collector.events.len() >= 20_000;
            let dropped = raw && retained > collector.max_frame;
            let fits = raw || semantic_bytes <= collector.max_frame;
            &&& dropped ==> kept == Ok::<_, PermitError>(collector)
            &&& kept is Ok <==> dropped || fits && !full
            &&& kept is Err ==> kept->Err_0 is Protocol
            &&& !dropped && fits && !full ==> {
                let after = kept->Ok_0;
                &&& after.events == collector.events.push(event)
                &&& after.retained == retained
                &&& raw ==> after.semantic_bytes == collector.semantic_bytes
                &&& !raw ==> after.semantic_bytes == semantic_bytes
                &&& after.seen == collector.seen
                &&& after.max_frame == collector.max_frame
            }
        }),
{
}

/// Sizes beyond what can be counted are counted as the largest there is.
pub proof fn sizes_stop_at_the_largest(one: usize, two: usize)
    ensures
        one + two <= usize::MAX ==> events::saturated(one, two) == one + two,
        one + two > usize::MAX ==> events::saturated(one, two) == usize::MAX,
{
}

/// What is left without raw events are the others in order: one list after another
/// leaves what each leaves, and of a single event itself exactly where it is not
/// raw.
pub proof fn other_events_stay_in_order<K>(
    some: Seq<EventEnvelope<K>>,
    more: Seq<EventEnvelope<K>>,
)
    ensures
        some.len() == 0 ==> events::semantic(some) == Seq::<EventEnvelope<K>>::empty(),
        some.len() == 1 ==> events::semantic(some) == (if some[0].kind is ToolStarted
            || some[0].kind is ToolFinished {
            seq![]
        } else {
            some
        }),
        events::semantic(some + more) == events::semantic(some) + events::semantic(more),
    decreases more.len(),
{
    if some.len() == 1 {
        assert(events::semantic(some.drop_last()) =~= Seq::empty());
        assert(seq![some[0]] =~= some);
        assert(events::semantic(some) =~= (if some[0].kind is ToolStarted
            || some[0].kind is ToolFinished { seq![] } else { some }));
    }
    if more.len() == 0 {
        assert(some + more =~= some);
    } else {
        assert((some + more).drop_last() =~= some + more.drop_last());
        other_events_stay_in_order(some, more.drop_last());
    }
}

proof fn lines_end_at_the_line_feed(line: Seq<u8>, rest: Seq<u8>, from: int)
    requires
        0 <= from <= line.len(),
        forall|i: int| 0 <= i < line.len() ==> #[trigger] line[i] != 10u8,
    ensures
        events::line_end(line + seq![10u8] + rest, from) == line.len(),
        events::line_end(line, from) == line.len(),
    decreases line.len() - from,
{
    let all = line + seq![10u8] + rest;
    if from < line.len() {
        assert(all[from] == line[from]);
        lines_end_at_the_line_feed(line, rest, from + 1);
    } else {
        assert(all[from] == 10u8);
    }
}

proof fn lines_end_alike_behind_others(before: Seq<u8>, rest: Seq<u8>, from: int)
    requires
        0 <= from,
    ensures
        events::line_end(before + rest, before.len() + from) == before.len() + events::line_end(
            rest,
            from,
        ),
    decreases rest.len() - from,
{
    let all = before + rest;
    if from < rest.len() {
        assert(all[before.len() + from] == rest[from]);
        if rest[from] != 10u8 {
            lines_end_alike_behind_others(before, rest, from + 1);
        }
    }
}

proof fn lines_are_found_behind_others(before: Seq<u8>, rest: Seq<u8>, from: int)
    requires
        0 <= from,
    ensures
        events::brace_lines(before + rest, before.len() + from) == events::brace_lines(rest, from),
    decreases rest.len() - from,
{
    let all = before + rest;
    if from < rest.len() {
        lines_end_alike_behind_others(before, rest, from);
        let end = events::line_end(rest, from);
        if from <= end < rest.len() {
            assert(all.subrange(before.len() + from, before.len() + end) =~= rest.subrange(
                from,
                end,
            ));
            lines_are_found_behind_others(before, rest, end + 1);
        } else {
            assert(all.subrange(before.len() + from, all.len() as int) =~= rest.subrange(
                from,
                rest.len() as int,
            ));
        }
    }
}

/// The lines of a printed text that begin with a brace, without their line ends: a
/// text that begins with a line has that line first, if it begins with a brace, and
/// then those of what is behind its line feed. A carriage return before the line
/// feed belongs to the line end.
pub proof fn lines_are_taken_one_by_one(line: Seq<u8>, rest: Seq<u8>)
    requires
        forall|i: int| 0 <= i < line.len() ==> #[trigger] line[i] != 10u8,
    ensures
        ({
            let shown = if line.len() > 0 && line.last() == 13u8 {
                line.drop_last()
            } else {
                line
            };
            let behind = events::brace_lines(rest, 0);
            events::brace_lines(line + seq![10u8] + rest, 0) == (if shown.len() > 0 && shown[0]
                == '{' as u8 {
                seq![shown] + behind
            } else {
                behind
            })
        }),
        events::brace_lines(line, 0) == (if line.len() > 0 && line[0] == '{' as u8 {
            seq![line]
        } else {
            seq![]
        }),
{
    let all = line + seq![10u8] + rest;
    lines_end_at_the_line_feed(line, rest, 0);
    let before = line + seq![10u8];
    assert(all =~= before + rest);
    lines_are_found_behind_others(before, rest, 0);
    assert(all.subrange(0, line.len() as int) =~= line);
    assert(line.subrange(0, line.len() as int) =~= line);
    assert('{' as u8 == 123u8);
}

} // verus!
