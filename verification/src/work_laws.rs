//! What lets a worker wait, export its output and see its context.
use vstd::prelude::*;
use crate::authority::{Grant, PermitStateView};
use crate::context;
use crate::context::{Completion, ContextReads, Question, WorkContextSnapshot};
use crate::control;
use crate::errors::PermitError;
use crate::launch::Waited;
use crate::ledger::Ledger;
use crate::model::{RequestClass, RequestReservation, WorkIdentity};
use crate::outside;
use crate::text;
use crate::upload;
use crate::wait;
use crate::wait::{ResumeStanding, WaitAction, WaitEvent, WaitPhase};

verus! {

/// A worker that waits has until five seconds past its timeout to go on, or until
/// its session ends if that is earlier; an export has four minutes, or until then.
pub proof fn waits_and_exports_end_with_their_session(deadline: u64, now: u64, timeout_ms: u64)
    ensures
        ({
            let end = wait::resume_deadline_spec(deadline, now, timeout_ms);
            &&& end <= deadline
            &&& end <= now + timeout_ms + 5000
            &&& end == deadline || end == now + timeout_ms + 5000
        }),
        ({
            let end = upload::upload_deadline_spec(deadline, now);
            &&& end <= deadline
            &&& end <= now + 4 * 60 * 1000
            &&& end == deadline || end == now + 4 * 60 * 1000
        }),
{
}

/// A worker may wait where a permit of the work class allows its request in time,
/// the work is enrolled, and everything that it waits for is a child of its own.
pub proof fn workers_wait_for_their_children(
    state: PermitStateView,
    nonce: u128,
    binding: RequestReservation,
    now: u64,
    resume_by: u64,
    closed: bool,
    enrolled: Result<(), String>,
    parents: Seq<Result<Option<String>, String>>,
)
    ensures
        ({
            let refusal = wait::wait_refusal(
                state,
                nonce,
                binding,
                now,
                resume_by,
                closed,
                enrolled,
                parents,
            );
            let known = state.grants.dom().contains(nonce);
            let allowed = known && state.authorizes(nonce, binding, closed)
                && binding.identity.class == RequestClass::Work && now < resume_by;
            let ready = allowed && enrolled is Ok;
            &&& !known ==> refusal == Some(PermitError::UnknownPermit)
            &&& known && !allowed ==> refusal == Some(PermitError::InvalidWaitAuthority)
            &&& allowed && !ready ==> refusal == Some(PermitError::Host(enrolled->Err_0))
            &&& ready ==> refusal == control::children_refusal(
                parents,
                binding.identity.work_id@,
                PermitError::WaitNeedsChildren,
            )
        }),
{
}

/// A worker goes on where its permit is the suspended one of the work in time, and
/// the work is active, no longer waits, and is neither cancelled nor over.
pub proof fn workers_go_on_when_nothing_holds_them(
    state: PermitStateView,
    nonce: u128,
    work_id: Seq<char>,
    now: u64,
    deadline: u64,
    closed: bool,
    standing: Result<ResumeStanding, String>,
)
    ensures
        ({
            let refusal = wait::resume_refusal(
                state,
                nonce,
                work_id,
                now,
                deadline,
                closed,
                standing,
            );
            let allowed = state.suspended(nonce, work_id, closed) && now < deadline;
            let read = allowed && standing is Ok;
            let work = standing->Ok_0;
            &&& refusal is None <==> read && work.active && !work.waits
                && !work.cancellation_requested && !work.terminal
            &&& !allowed ==> refusal == Some(PermitError::Protocol)
            &&& allowed && !read ==> refusal == Some(PermitError::Host(standing->Err_0))
            &&& read && refusal is Some ==> refusal == Some(PermitError::Protocol)
        }),
{
}

/// What a phase of waiting becomes after so many looks at work that is not over.
pub open spec fn after_looks(phase: WaitPhase, looks: nat) -> WaitPhase
    decreases looks,
{
    if looks == 0 {
        phase
    } else {
        wait::wait_next(
            wait::wait_next(
                after_looks(phase, (looks - 1) as nat),
                WaitEvent::Polled(Ok(false)),
            ).0,
            WaitEvent::Slept,
        ).0
    }
}

/// A wait that is allowed gives up its slot and looks at the work, sleeping a fiftieth
/// of a second after each look, as often as it takes. Once the work is over it takes a slot again,
/// goes on with its permit, and is answered.
pub proof fn waits_last_until_the_work_is_over(looks: nat)
    ensures
        ({
            let started = wait::wait_next(WaitPhase::Starting, WaitEvent::Started(Ok(())));
            let looking = after_looks(started.0, looks);
            let not_yet = wait::wait_next(looking, WaitEvent::Polled(Ok(false)));
            let again = wait::wait_next(not_yet.0, WaitEvent::Slept);
            let over = wait::wait_next(looking, WaitEvent::Polled(Ok(true)));
            let back = wait::wait_next(over.0, WaitEvent::Reacquired(Waited::Answered(Ok(()))));
            let resumed = wait::wait_next(back.0, WaitEvent::Resumed(Ok(())));
            &&& started.1 is ReleaseAndPoll
            &&& not_yet.1 is Sleep
            &&& again.1 is Poll && again.0 == looking
            &&& over.1 is Reacquire
            &&& back.1 is Resume
            &&& resumed.1 is Answer && resumed.0 is Ended
        }),
        50 * wait::POLL_MS == 1000,
    decreases looks,
{
    let started = wait::wait_next(WaitPhase::Starting, WaitEvent::Started(Ok(()))).0;
    assert(started is Polling);
    if looks > 0 {
        waits_last_until_the_work_is_over((looks - 1) as nat);
    }
    assert(after_looks(started, looks) is Polling);
}

/// A wait that is refused is denied. One that fails while it looks has its work
/// cancelled, and fails with its own error once that is done, or with that of the
/// cancelling. One that gets no slot in time, or cannot go on, fails as such.
pub proof fn waits_fail_with_their_own_error(
    error: PermitError,
    failure: String,
    done: Result<(), String>,
)
    ensures
        ({
            let denied = wait::wait_next(WaitPhase::Starting, WaitEvent::Started(Err(error)));
            denied.1 is Deny && denied.0 is Ended
        }),
        ({
            let broken = wait::wait_next(WaitPhase::Polling, WaitEvent::Polled(Err(error)));
            let cancelled = wait::wait_next(broken.0, WaitEvent::Cancelled(done));
            &&& broken.1 is CancelWork
            &&& cancelled.0 is Ended
            &&& done is Ok ==> cancelled.1 == WaitAction::Fail(error)
            &&& done is Err ==> cancelled.1 == WaitAction::Fail(PermitError::Host(done->Err_0))
        }),
        ({
            let late = wait::wait_next(
                WaitPhase::Reacquiring,
                WaitEvent::Reacquired(Waited::Deadline),
            );
            let dropped = wait::wait_next(
                WaitPhase::Reacquiring,
                WaitEvent::Reacquired(Waited::Cancelled),
            );
            let refused = wait::wait_next(
                WaitPhase::Reacquiring,
                WaitEvent::Reacquired(Waited::Answered(Err(failure))),
            );
            &&& late.0 is Ended && late.1 == WaitAction::Fail(PermitError::ResumeDeadline)
            &&& dropped.0 is Ended && dropped.1 == WaitAction::Fail(PermitError::ResumeDeadline)
            &&& refused.0 is Ended && refused.1 == WaitAction::Fail(PermitError::Host(failure))
        }),
        ({
            let stopped = wait::wait_next(WaitPhase::Resuming, WaitEvent::Resumed(Err(error)));
            stopped.0 is Ended && stopped.1 == WaitAction::Fail(error)
        }),
{
}

/// What does not belong to the step that a wait is at ends it, and nothing happens
/// after its end.
pub proof fn waits_go_step_by_step(phase: WaitPhase, event: WaitEvent)
    ensures
        ({
            let after = wait::wait_next(phase, event);
            let fits = match phase {
                WaitPhase::Starting => event is Started,
                WaitPhase::Polling => event is Polled,
                WaitPhase::Sleeping => event is Slept,
                WaitPhase::Reacquiring => event is Reacquired,
                WaitPhase::Resuming => event is Resumed,
                WaitPhase::Cancelling { .. } => event is Cancelled,
                WaitPhase::Ended => false,
            };
            &&& phase is Ended ==> after.0 is Ended && after.1 is Ignore
            &&& !(phase is Ended) && !fits ==> after.0 is Ended && after.1
                == WaitAction::Fail(PermitError::Protocol)
        }),
{
}

/// An export goes on where a permit of the work class allows its request in time.
/// It begins only where the store also admits the funding and no hold of it is
/// open any more; its later parts need no more than the permit.
pub proof fn exports_begin_when_accounting_is_final(
    state: PermitStateView,
    nonce: u128,
    binding: RequestReservation,
    chunk: bool,
    now: u64,
    deadline: u64,
    closed: bool,
    funding: Result<(), String>,
    ledger: Result<Ledger, String>,
)
    ensures
        ({
            let refusal = upload::upload_refusal(
                state,
                nonce,
                binding,
                chunk,
                now,
                deadline,
                closed,
                funding,
                ledger,
            );
            let known = state.grants.dom().contains(nonce);
            let allowed = known && state.authorizes(nonce, binding, closed)
                && binding.identity.class == RequestClass::Work && now < deadline;
            let funded = allowed && funding is Ok;
            let read = funded && ledger is Ok;
            let settled = read && !ledger->Ok_0@.accounting_open(
                state.grants[nonce].funding.dispatch_id@,
            );
            &&& refusal is None <==> allowed && chunk || settled
            &&& !known ==> refusal == Some(PermitError::UnknownPermit)
            &&& known && !allowed ==> refusal == Some(PermitError::InvalidOutputAuthority)
            &&& allowed && !chunk && !funded ==> refusal == Some(
                PermitError::Host(funding->Err_0),
            )
            &&& funded && !chunk && !read ==> refusal == Some(PermitError::Host(ledger->Err_0))
            &&& read && !chunk && !settled ==> refusal == Some(PermitError::ExportNotFinal)
        }),
{
}

/// An export has room for 64 MiB in parts of 32 KiB, its beginning and its end.
pub proof fn exports_have_room_for_their_parts()
    ensures
        (upload::MAX_UPLOAD_PARTS - 2) * 32_768 == 67_108_864,
{
}

/// Among the open questions are exactly those that nobody answered, that are still
/// in time, and that were asked at this generation and revision: in the order in
/// which they were asked, as one more list after the other shows.
pub proof fn open_questions_are_listed_in_order(
    some: Seq<Question>,
    more: Seq<Question>,
    identity: WorkIdentity,
    now_ms: u64,
)
    ensures
        some.len() == 0 ==> context::pending_ids(some, identity, now_ms) == Seq::<String>::empty(),
        some.len() == 1 ==> context::pending_ids(some, identity, now_ms) == (if !some[0].answered
            && now_ms < some[0].deadline_ms && some[0].generation == identity.generation
            && some[0].instruction_revision == identity.instruction_revision {
            seq![some[0].request_id]
        } else {
            seq![]
        }),
        context::pending_ids(some + more, identity, now_ms) == context::pending_ids(
            some,
            identity,
            now_ms,
        ) + context::pending_ids(more, identity, now_ms),
    decreases more.len(),
{
    if some.len() == 1 {
        assert(context::pending_ids(some.drop_last(), identity, now_ms) =~= Seq::empty());
    }
    if more.len() == 0 {
        assert(some + more =~= some);
    } else {
        let all = some + more;
        assert(all.drop_last() =~= some + more.drop_last());
        open_questions_are_listed_in_order(some, more.drop_last(), identity, now_ms);
    }
}

/// The context of a request is recorded where its permit is live and what the worker
/// claims is valid, and where the store has everything that belongs to it.
pub proof fn contexts_are_recorded_under_a_permit<R>(
    state: PermitStateView,
    nonce: u128,
    metadata_valid: bool,
    questions_available: bool,
    closed: bool,
    reads: ContextReads<R>,
)
    ensures
        ({
            let refusal = context::context_refusal(
                state,
                nonce,
                metadata_valid,
                questions_available,
                closed,
                reads,
            );
            let grant = state.grants[nonce];
            let identity = grant.request.identity;
            let allowed = state.grants.dom().contains(nonce) && state.authorizes(
                nonce,
                grant.request,
                closed,
            ) && metadata_valid;
            let funded = allowed && reads.funding is Ok;
            let booked = funded && reads.ledger is Ok;
            let held = reads.ledger->Ok_0@.allocations.dom().contains(grant.funding.dispatch_id@);
            let left = booked && (!held || reads.available is Ok);
            let executed = left && reads.execution is Ok;
            let execution = reads.execution->Ok_0;
            let own = executed && (execution is None || {
                &&& execution->0.attempt_id@ == identity.attempt_id@
                &&& execution->0.generation == identity.generation
                &&& execution->0.campaign_id@ == identity.campaign_id@
            });
            let assigned = own && (execution is Some || reads.assignment is Ok);
            let asked = assigned && (!questions_available || reads.questions is Ok);
            &&& refusal is None <==> asked
            &&& !allowed ==> refusal == Some(PermitError::Protocol)
            &&& allowed && !funded ==> refusal == Some(PermitError::Host(reads.funding->Err_0))
            &&& funded && !booked ==> refusal == Some(PermitError::Host(reads.ledger->Err_0))
            &&& booked && !left ==> refusal == Some(PermitError::Host(reads.available->Err_0))
            &&& left && !executed ==> refusal == Some(PermitError::Host(reads.execution->Err_0))
            &&& executed && !own ==> refusal == Some(PermitError::SnapshotIdentityMismatch)
            &&& own && !assigned ==> refusal == Some(PermitError::Host(reads.assignment->Err_0))
            &&& assigned && !asked ==> refusal == Some(PermitError::Host(reads.questions->Err_0))
        }),
{
}

/// A snapshot names the request and its own work, shows the admitted objective and
/// what the worker claims, the open questions where they belong to it, what is left
/// of the allocation where there is one, and the resources of the execution, or of
/// the assignment where nothing executes. It says neither that the work stops nor
/// that it can be taken up again.
pub proof fn snapshots_show_the_request<R, M>(
    snapshot: WorkContextSnapshot<R, M>,
    grant: Grant,
    id: String,
    metadata: Option<M>,
    questions_available: bool,
    reads: ContextReads<R>,
)
    requires
        context::snapshot_agrees(snapshot, grant, id, metadata, questions_available, reads),
    ensures
        snapshot.stopping is None && !snapshot.reattachable && snapshot.schema_version == 1,
        snapshot.work_id == grant.request.identity.work_id,
        snapshot.attempt_id == grant.request.identity.attempt_id,
        snapshot.generation == grant.request.identity.generation,
        snapshot.instruction_revision == grant.request.identity.instruction_revision,
        snapshot.request_id == id,
        snapshot.objective == grant.funding.admission.objective,
        snapshot.worker_claims_informational_only == metadata,
        snapshot.pending_question_refs is Some <==> questions_available,
        questions_available ==> snapshot.pending_question_refs->0@ == context::pending_ids(
            reads.questions->Ok_0@,
            grant.request.identity,
            reads.now_ms,
        ),
        ({
            let held = reads.ledger->Ok_0@.allocations.dom().contains(grant.funding.dispatch_id@);
            let left = reads.available->Ok_0;
            &&& held ==> snapshot.remaining_tokens == Some(left.tokens)
                && snapshot.remaining_cost_micro_usd == Some(left.cost_micro_usd)
            &&& !held ==> snapshot.remaining_tokens is None
                && snapshot.remaining_cost_micro_usd is None
        }),
        ({
            let execution = reads.execution->Ok_0;
            let assignment = reads.assignment->Ok_0;
            &&& execution is Some ==> snapshot.selected_resource_refs@
                == execution->0.context_refs@
            &&& execution is None && assignment is Some ==> snapshot.selected_resource_refs@
                == assignment->0@
            &&& execution is None && assignment is None ==> snapshot.selected_resource_refs@.len()
                == 0
        }),
{
}

/// One member of a JSON object: its name in quotes, a colon and its value.
pub open spec fn member(name: Seq<char>, value: Seq<char>) -> Seq<char> {
    seq!['"'] + name + seq!['"', ':'] + value
}

/// What stands in place of a result that is too long is one JSON object, with its
/// members in the order of their names: how long the result was, that it was not
/// retained and why, and everything else that a result says beside its output.
pub proof fn gaps_say_what_was_let_go(
    id: Seq<char>,
    original_bytes: nat,
    snapshot: Seq<char>,
    succeeded: Seq<char>,
    usage: Seq<char>,
    input_message_count: Seq<char>,
)
    ensures
        context::gap_text(id, original_bytes, snapshot, succeeded, usage, input_message_count)
            == seq!['{'] + member("input_message_count"@, input_message_count) + seq![',']
            + member("original_bytes"@, text::decimal(original_bytes)) + seq![','] + member(
            "output_retained"@,
            "false"@,
        ) + seq![','] + member("reason"@, "\"exceeds_1_mib\""@) + seq![','] + member(
            "request_id"@,
            outside::json_string(id),
        ) + seq![','] + member("schema_version"@, "1"@) + seq![','] + member(
            "snapshot"@,
            snapshot,
        ) + seq![','] + member("succeeded"@, succeeded) + seq![','] + member("usage"@, usage)
            + seq!['}'],
{
    reveal_strlit("input_message_count");
    reveal_strlit("original_bytes");
    reveal_strlit("output_retained");
    reveal_strlit("false");
    reveal_strlit("reason");
    reveal_strlit("\"exceeds_1_mib\"");
    reveal_strlit("request_id");
    reveal_strlit("schema_version");
    reveal_strlit("1");
    reveal_strlit("snapshot");
    reveal_strlit("succeeded");
    reveal_strlit("usage");
    reveal_strlit("{\"input_message_count\":");
    reveal_strlit(",\"original_bytes\":");
    reveal_strlit(",\"output_retained\":false,\"reason\":\"exceeds_1_mib\",\"request_id\":");
    reveal_strlit(",\"schema_version\":1,\"snapshot\":");
    reveal_strlit(",\"succeeded\":");
    reveal_strlit(",\"usage\":");
    reveal_strlit("}");
    let digits = text::decimal(original_bytes);
    let name = outside::json_string(id);
    assert("{\"input_message_count\":"@ =~= seq!['{'] + member("input_message_count"@, seq![]));
    assert(",\"original_bytes\":"@ =~= seq![','] + member("original_bytes"@, seq![]));
    assert(",\"output_retained\":false,\"reason\":\"exceeds_1_mib\",\"request_id\":"@ =~= seq![',']
        + member("output_retained"@, "false"@) + seq![','] + member(
        "reason"@,
        "\"exceeds_1_mib\""@,
    ) + seq![','] + member("request_id"@, seq![]));
    assert(",\"schema_version\":1,\"snapshot\":"@ =~= seq![','] + member("schema_version"@, "1"@)
        + seq![','] + member("snapshot"@, seq![]));
    assert(",\"succeeded\":"@ =~= seq![','] + member("succeeded"@, seq![]));
    assert(",\"usage\":"@ =~= seq![','] + member("usage"@, seq![]));
    assert("}"@ =~= seq!['}']);
    members_grow("input_message_count"@, input_message_count);
    members_grow("original_bytes"@, digits);
    members_grow("request_id"@, name);
    members_grow("snapshot"@, snapshot);
    members_grow("succeeded"@, succeeded);
    members_grow("usage"@, usage);
    assert(context::gap_text(id, original_bytes, snapshot, succeeded, usage, input_message_count)
        =~= seq!['{'] + member("input_message_count"@, input_message_count) + seq![','] + member(
        "original_bytes"@,
        digits,
    ) + seq![','] + member("output_retained"@, "false"@) + seq![','] + member(
        "reason"@,
        "\"exceeds_1_mib\""@,
    ) + seq![','] + member("request_id"@, name) + seq![','] + member("schema_version"@, "1"@)
        + seq![','] + member("snapshot"@, snapshot) + seq![','] + member("succeeded"@, succeeded)
        + seq![','] + member("usage"@, usage) + seq!['}']);
}

proof fn members_grow(name: Seq<char>, value: Seq<char>)
    ensures
        member(name, value) == member(name, seq![]) + value,
{
    assert(member(name, value) =~= member(name, seq![]) + value);
}

/// What is retained of a completion is the redacted form of each of its texts, call
/// by call, with the usage as it was, and no call or reason more or less.
pub proof fn completions_are_retained_redacted<U, F: Fn(&String) -> String>(
    redact: F,
    original: Completion<U>,
    retained: Completion<U>,
    i: int,
)
    requires
        context::completion_redacted(redact, original, retained),
    ensures
        call_ensures(redact, (&original.text,), retained.text),
        retained.usage == original.usage,
        retained.tool_calls@.len() == original.tool_calls@.len(),
        0 <= i < original.tool_calls@.len() ==> {
            let call = original.tool_calls@[i];
            let kept = retained.tool_calls@[i];
            &&& call_ensures(redact, (&call.id,), kept.id)
            &&& call_ensures(redact, (&call.name,), kept.name)
            &&& call_ensures(redact, (&call.arguments,), kept.arguments)
        },
        original.finish_reason is None ==> retained.finish_reason is None,
        original.finish_reason is Some ==> retained.finish_reason is Some && call_ensures(
            redact,
            (&original.finish_reason->0,),
            retained.finish_reason->0,
        ),
{
}

} // verus!
