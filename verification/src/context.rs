//! What is recorded of a model request: observations, never a second source of
//! authority or budget.
use vstd::prelude::*;
use vstd::string::*;
use crate::authority::{Grant, ModelPermit, PermitState, PermitStateView};
use crate::errors::PermitError;
use crate::ledger::Ledger;
use crate::model::{Units, WorkIdentity};
use crate::outside;
use crate::text;

verus! {

/// What the store holds of the execution of a piece of work.
pub struct ExecutionPolicy<R> {
    pub attempt_id: String,
    pub generation: u64,
    pub campaign_id: String,
    pub context_refs: Vec<R>,
}

/// A question that a worker asked.
pub struct Question {
    pub request_id: String,
    pub answered: bool,
    pub deadline_ms: u64,
    pub generation: u64,
    pub instruction_revision: u64,
}

/// What the host read before it records a context. `R` refers to a resource.
pub struct ContextReads<R> {
    /// Whether the grant's funding is what the store admitted.
    pub funding: Result<(), String>,
    /// The ledger of the grant's campaign.
    pub ledger: Result<Ledger, String>,
    /// The remainder of the grant's allocation.
    pub available: Result<Units, String>,
    /// The execution of the grant's work, if there is one.
    pub execution: Result<Option<ExecutionPolicy<R>>, String>,
    /// The resources of the attempt's assignment, if there is one.
    pub assignment: Result<Option<Vec<R>>, String>,
    /// The questions of the grant's work.
    pub questions: Result<Vec<Question>, String>,
    /// The time, in milliseconds since the epoch.
    pub now_ms: u64,
}

/// The context of one model request. `M` is what the worker claims of itself.
pub struct WorkContextSnapshot<R, M> {
    /// Why the work is being stopped: never, while it asks for a model.
    pub stopping: Option<String>,
    pub schema_version: u32,
    pub work_id: String,
    pub attempt_id: String,
    pub generation: u64,
    pub instruction_revision: u64,
    pub request_id: String,
    pub objective: String,
    pub worker_claims_informational_only: Option<M>,
    pub pending_question_refs: Option<Vec<String>>,
    pub remaining_tokens: Option<u64>,
    pub remaining_cost_micro_usd: Option<u64>,
    pub selected_resource_refs: Vec<R>,
    pub reattachable: bool,
}

/// Whether a question still waits for its answer, at the revision at hand.
pub open spec fn pending(question: Question, identity: WorkIdentity, now_ms: u64) -> bool {
    &&& !question.answered
    &&& question.deadline_ms > now_ms
    &&& question.generation == identity.generation
    &&& question.instruction_revision == identity.instruction_revision
}

/// The ids of the questions that still wait, in order.
pub open spec fn pending_ids(
    questions: Seq<Question>,
    identity: WorkIdentity,
    now_ms: u64,
) -> Seq<String>
    decreases questions.len(),
{
    if questions.len() == 0 {
        Seq::empty()
    } else {
        let earlier = pending_ids(questions.drop_last(), identity, now_ms);
        if pending(questions.last(), identity, now_ms) {
            earlier.push(questions.last().request_id)
        } else {
            earlier
        }
    }
}

/// Whether the execution that the store holds is the grant's own.
pub open spec fn execution_matches<R>(
    execution: ExecutionPolicy<R>,
    identity: WorkIdentity,
) -> bool {
    &&& execution.attempt_id@ == identity.attempt_id@
    &&& execution.generation == identity.generation
    &&& execution.campaign_id@ == identity.campaign_id@
}

/// Why a context is not recorded, if it is not. The first reason counts.
pub open spec fn context_refusal<R>(
    state: PermitStateView,
    nonce: u128,
    metadata_valid: bool,
    questions_available: bool,
    closed: bool,
    reads: ContextReads<R>,
) -> Option<PermitError> {
    let grant = state.grants[nonce];
    if !state.grants.dom().contains(nonce) || !state.authorizes(nonce, grant.request, closed)
        || !metadata_valid {
        Some(PermitError::Protocol)
    } else if reads.funding is Err {
        Some(PermitError::Host(reads.funding->Err_0))
    } else if reads.ledger is Err {
        Some(PermitError::Host(reads.ledger->Err_0))
    } else if reads.ledger->Ok_0@.allocation(grant.funding.dispatch_id@) is Some && reads.available is Err {
        Some(PermitError::Host(reads.available->Err_0))
    } else if reads.execution is Err {
        Some(PermitError::Host(reads.execution->Err_0))
    } else if reads.execution->Ok_0 is Some && !execution_matches(
        reads.execution->Ok_0->0,
        grant.request.identity,
    ) {
        Some(PermitError::SnapshotIdentityMismatch)
    } else if reads.execution->Ok_0 is None && reads.assignment is Err {
        Some(PermitError::Host(reads.assignment->Err_0))
    } else if questions_available && reads.questions is Err {
        Some(PermitError::Host(reads.questions->Err_0))
    } else {
        None
    }
}

/// The resources that were selected for an attempt: those of its execution, else
/// those of its assignment, else none.
pub open spec fn selected_refs<R>(reads: ContextReads<R>) -> Seq<R> {
    match reads.execution->Ok_0 {
        Some(execution) => execution.context_refs@,
        None => match reads.assignment->Ok_0 {
            Some(refs) => refs@,
            None => Seq::empty(),
        },
    }
}

/// What is left of the grant's allocation, where the ledger has it.
pub open spec fn remaining<R>(grant: Grant, reads: ContextReads<R>) -> Option<Units> {
    if reads.ledger->Ok_0@.allocation(grant.funding.dispatch_id@) is Some {
        Some(reads.available->Ok_0)
    } else {
        None
    }
}

/// What the context of a request holds.
pub open spec fn snapshot_agrees<R, M>(
    snapshot: WorkContextSnapshot<R, M>,
    grant: Grant,
    id: String,
    metadata: Option<M>,
    questions_available: bool,
    reads: ContextReads<R>,
) -> bool {
    let identity = grant.request.identity;
    let left = remaining(grant, reads);
    &&& snapshot.stopping is None
    &&& snapshot.schema_version == 1
    &&& snapshot.work_id == identity.work_id
    &&& snapshot.attempt_id == identity.attempt_id
    &&& snapshot.generation == identity.generation
    &&& snapshot.instruction_revision == identity.instruction_revision
    &&& snapshot.request_id == id
    &&& snapshot.objective == grant.funding.admission.objective
    &&& snapshot.worker_claims_informational_only == metadata
    &&& match snapshot.pending_question_refs {
        Some(refs) => questions_available && refs@ == pending_ids(
            reads.questions->Ok_0@,
            identity,
            reads.now_ms,
        ),
        None => !questions_available,
    }
    &&& match left {
        Some(units) => snapshot.remaining_tokens == Some(units.tokens)
            && snapshot.remaining_cost_micro_usd == Some(units.cost_micro_usd),
        None => snapshot.remaining_tokens is None && snapshot.remaining_cost_micro_usd is None,
    }
    &&& snapshot.selected_resource_refs@ == selected_refs(reads)
    &&& !snapshot.reattachable
}

fn pending_refs(questions: &Vec<Question>, identity: &WorkIdentity, now_ms: u64) -> (res: Vec<
    String,
>)
    ensures
        res@ == pending_ids(questions@, *identity, now_ms),
{
    let mut refs: Vec<String> = Vec::new();
    let mut i: usize = 0;
    while i < questions.len()
        invariant
            i <= questions.len(),
            refs@ == pending_ids(questions@.take(i as int), *identity, now_ms),
        decreases questions.len() - i,
    {
        let question = &questions[i];
        assert(questions@.take(i + 1).drop_last() == questions@.take(i as int));
        if !question.answered && question.deadline_ms > now_ms && question.generation
            == identity.generation && question.instruction_revision
            == identity.instruction_revision {
            refs.push(question.request_id.clone());
        }
        i = i + 1;
    }
    assert(questions@.take(i as int) == questions@);
    refs
}

/// The context to record before a model request, and the campaign it belongs to.
/// `metadata_valid` says whether the worker's claims, if any, are well formed.
pub fn record_work_context<R, M>(
    state: &PermitState,
    permit: &ModelPermit,
    id: String,
    metadata: Option<M>,
    metadata_valid: bool,
    questions_available: bool,
    closed: bool,
    reads: ContextReads<R>,
) -> (res: Result<(String, WorkContextSnapshot<R, M>), PermitError>)
    ensures
        match context_refusal(
            state@,
            permit.nonce(),
            metadata_valid,
            questions_available,
            closed,
            reads,
        ) {
            Some(error) => res == Err::<(String, WorkContextSnapshot<R, M>), _>(error),
            None => res matches Ok(done) && done.0
                == state@.grants[permit.nonce()].funding.admission.campaign_id && snapshot_agrees(
                done.1,
                state@.grants[permit.nonce()],
                id,
                metadata,
                questions_available,
                reads,
            ),
        },
{
    let grant = match state.grant(permit) {
        None => {
            return Err(PermitError::Protocol);
        },
        Some(grant) => grant,
    };
    if !state.is_authorized(permit, &grant.request, closed) || !metadata_valid {
        return Err(PermitError::Protocol);
    }
    if let Err(error) = reads.funding {
        return Err(PermitError::Host(error));
    }
    let ledger = match reads.ledger {
        Err(error) => {
            return Err(PermitError::Host(error));
        },
        Ok(ledger) => ledger,
    };
    let mut remaining_tokens: Option<u64> = None;
    let mut remaining_cost_micro_usd: Option<u64> = None;
    if ledger.allocation(&grant.funding.dispatch_id).is_some() {
        match reads.available {
            Err(error) => {
                return Err(PermitError::Host(error));
            },
            Ok(units) => {
                remaining_tokens = Some(units.tokens);
                remaining_cost_micro_usd = Some(units.cost_micro_usd);
            },
        }
    }
    let identity = &grant.request.identity;
    let selected_resource_refs = match reads.execution {
        Err(error) => {
            return Err(PermitError::Host(error));
        },
        Ok(Some(execution)) => {
            if execution.attempt_id != identity.attempt_id || execution.generation
                != identity.generation || execution.campaign_id != identity.campaign_id {
                return Err(PermitError::SnapshotIdentityMismatch);
            }
            execution.context_refs
        },
        Ok(None) => match reads.assignment {
            Err(error) => {
                return Err(PermitError::Host(error));
            },
            Ok(Some(refs)) => refs,
            Ok(None) => Vec::new(),
        },
    };
    let pending_question_refs = if questions_available {
        match reads.questions {
            Err(error) => {
                return Err(PermitError::Host(error));
            },
            Ok(questions) => Some(pending_refs(&questions, identity, reads.now_ms)),
        }
    } else {
        None
    };
    Ok(
        (
            grant.funding.admission.campaign_id.clone(),
            WorkContextSnapshot {
                stopping: None,
                schema_version: 1,
                work_id: identity.work_id.clone(),
                attempt_id: identity.attempt_id.clone(),
                generation: identity.generation,
                instruction_revision: identity.instruction_revision,
                request_id: id,
                objective: grant.funding.admission.objective.clone(),
                worker_claims_informational_only: metadata,
                pending_question_refs,
                remaining_tokens,
                remaining_cost_micro_usd,
                selected_resource_refs,
                reattachable: false,
            },
        ),
    )
}

/// The largest outcome that is retained as it is: 1 MiB.
pub const MAX_RETAINED_RESULT: usize = 1_048_576;

/// The document that stands for an outcome that was too large to retain, from
/// the JSON text of the parts that are kept of it.
pub open spec fn gap_text(
    id: Seq<char>,
    original_bytes: nat,
    snapshot: Seq<char>,
    succeeded: Seq<char>,
    usage: Seq<char>,
    input_message_count: Seq<char>,
) -> Seq<char> {
    "{\"input_message_count\":"@ + input_message_count + ",\"original_bytes\":"@ + text::decimal(
        original_bytes,
    ) + ",\"output_retained\":false,\"reason\":\"exceeds_1_mib\",\"request_id\":"@
        + outside::json_string(id) + ",\"schema_version\":1,\"snapshot\":"@ + snapshot
        + ",\"succeeded\":"@ + succeeded + ",\"usage\":"@ + usage + "}"@
}

/// The document that stands for an outcome that was too large to retain. It says
/// so: an outcome is never cut into something that is no JSON document.
pub fn gap_document(
    id: &str,
    original_bytes: u64,
    snapshot: &str,
    succeeded: &str,
    usage: &str,
    input_message_count: &str,
) -> (res: String)
    ensures
        res@ == gap_text(
            id@,
            original_bytes as nat,
            snapshot@,
            succeeded@,
            usage@,
            input_message_count@,
        ),
{
    let mut document = "{\"input_message_count\":".to_owned();
    document.append(input_message_count);
    document.append(",\"original_bytes\":");
    document.append(&text::decimal_text(original_bytes));
    document.append(",\"output_retained\":false,\"reason\":\"exceeds_1_mib\",\"request_id\":");
    document.append(&outside::json_quote(id));
    document.append(",\"schema_version\":1,\"snapshot\":");
    document.append(snapshot);
    document.append(",\"succeeded\":");
    document.append(succeeded);
    document.append(",\"usage\":");
    document.append(usage);
    document.append("}");
    document
}

/// Where the outcome of a model request is recorded, and what.
pub struct ModelResultRecord {
    pub campaign_id: String,
    pub work_id: String,
    pub attempt_id: String,
    /// What is recorded in place of the outcome, where it is too large.
    pub gap: Option<String>,
}

/// Where the outcome of a model request is recorded, and what. An outcome may be
/// recorded after the permit lost its activity.
pub fn record_model_context_result(
    state: &PermitState,
    permit: &ModelPermit,
    id: &str,
    bytes: &[u8],
) -> (res: Result<ModelResultRecord, PermitError>)
    ensures
        match state@.grant(permit.nonce()) {
            None => res == Err::<ModelResultRecord, _>(PermitError::Protocol),
            Some(grant) => res matches Ok(record) && record.campaign_id
                == grant.funding.admission.campaign_id && record.work_id
                == grant.request.identity.work_id && record.attempt_id
                == grant.request.identity.attempt_id && match record.gap {
                None => bytes@.len() <= MAX_RETAINED_RESULT,
                Some(gap) => bytes@.len() > MAX_RETAINED_RESULT && gap@ == gap_text(
                    id@,
                    bytes@.len(),
                    outside::json_at(bytes@, "/snapshot"@),
                    outside::json_at(bytes@, "/succeeded"@),
                    outside::json_at(bytes@, "/completion/usage"@),
                    outside::json_at(bytes@, "/input_message_count"@),
                ),
            },
        },
{
    match state.grant(permit) {
        None => Err(PermitError::Protocol),
        Some(grant) => {
            let gap = if bytes.len() > MAX_RETAINED_RESULT {
                Some(
                    gap_document(
                        id,
                        bytes.len() as u64,
                        &outside::json_pointer(bytes, "/snapshot"),
                        &outside::json_pointer(bytes, "/succeeded"),
                        &outside::json_pointer(bytes, "/completion/usage"),
                        &outside::json_pointer(bytes, "/input_message_count"),
                    ),
                )
            } else {
                None
            };
            Ok(
                ModelResultRecord {
                    campaign_id: grant.funding.admission.campaign_id.clone(),
                    work_id: grant.request.identity.work_id.clone(),
                    attempt_id: grant.request.identity.attempt_id.clone(),
                    gap,
                },
            )
        },
    }
}

/// A call of a tool that a model asked for.
pub struct ToolCall {
    pub id: String,
    pub name: String,
    pub arguments: String,
}

/// What a provider answered. `U` is what it says it used.
pub struct Completion<U> {
    pub text: String,
    pub tool_calls: Vec<ToolCall>,
    pub usage: U,
    pub finish_reason: Option<String>,
}

/// Each text of a tool call, redacted.
pub open spec fn call_redacted<F: Fn(&String) -> String>(
    redact: F,
    original: ToolCall,
    retained: ToolCall,
) -> bool {
    &&& call_ensures(redact, (&original.id,), retained.id)
    &&& call_ensures(redact, (&original.name,), retained.name)
    &&& call_ensures(redact, (&original.arguments,), retained.arguments)
}

/// Each text of a completion, redacted; its calls in order; its usage as it is.
pub open spec fn completion_redacted<U, F: Fn(&String) -> String>(
    redact: F,
    original: Completion<U>,
    retained: Completion<U>,
) -> bool {
    &&& call_ensures(redact, (&original.text,), retained.text)
    &&& retained.tool_calls@.len() == original.tool_calls@.len()
    &&& forall|i: int|
        0 <= i < original.tool_calls@.len() ==> call_redacted(
            redact,
            #[trigger] original.tool_calls@[i],
            retained.tool_calls@[i],
        )
    &&& retained.usage == original.usage
    &&& match original.finish_reason {
        Some(reason) => retained.finish_reason matches Some(kept) && call_ensures(
            redact,
            (&reason,),
            kept,
        ),
        None => retained.finish_reason is None,
    }
}

/// What is retained of a completion: every text of it goes through `redact`.
pub fn retained_completion<U: Copy, F: Fn(&String) -> String>(
    original: &Completion<U>,
    redact: &F,
) -> (res: Completion<U>)
    requires
        forall|text: &String| call_requires(*redact, (text,)),
    ensures
        completion_redacted(*redact, *original, res),
{
    let text = redact(&original.text);
    let mut tool_calls: Vec<ToolCall> = Vec::new();
    let mut i: usize = 0;
    while i < original.tool_calls.len()
        invariant
            forall|text: &String| call_requires(*redact, (text,)),
            i <= original.tool_calls.len(),
            tool_calls@.len() == i,
            forall|j: int|
                0 <= j < i ==> call_redacted(
                    *redact,
                    #[trigger] original.tool_calls@[j],
                    tool_calls@[j],
                ),
        decreases original.tool_calls.len() - i,
    {
        let call = &original.tool_calls[i];
        let id = redact(&call.id);
        let name = redact(&call.name);
        let arguments = redact(&call.arguments);
        tool_calls.push(ToolCall { id, name, arguments });
        i = i + 1;
    }
    let finish_reason = match &original.finish_reason {
        Some(reason) => Some(redact(reason)),
        None => None,
    };
    Completion { text, tool_calls, usage: original.usage, finish_reason }
}

/// What is recorded of a model request once it ended. `S` refers to the recorded
/// context.
pub struct ModelSummary<S, U> {
    pub schema_version: u32,
    pub request_id: String,
    pub snapshot: S,
    pub succeeded: bool,
    pub completion: Option<Completion<U>>,
    pub input_message_count: usize,
    pub tool_names: Vec<String>,
}

/// What is recorded of a model request once it ended: never the provider's own
/// words on a failure, and no text that did not go through `redact`.
pub fn summarize<S, U: Copy, F: Fn(&String) -> String>(
    request_id: String,
    snapshot: S,
    completion: Option<&Completion<U>>,
    input_message_count: usize,
    tools: &Vec<String>,
    redact: &F,
) -> (res: ModelSummary<S, U>)
    requires
        forall|text: &String| call_requires(*redact, (text,)),
    ensures
        res.schema_version == 1,
        res.request_id == request_id,
        res.snapshot == snapshot,
        res.succeeded == completion is Some,
        match completion {
            Some(original) => res.completion matches Some(kept) && completion_redacted(
                *redact,
                *original,
                kept,
            ),
            None => res.completion is None,
        },
        res.input_message_count == input_message_count,
        res.tool_names@.len() == tools@.len(),
        forall|i: int|
            0 <= i < tools@.len() ==> call_ensures(
                *redact,
                (&#[trigger] tools@[i],),
                res.tool_names@[i],
            ),
{
    let retained = match completion {
        Some(original) => Some(retained_completion(original, redact)),
        None => None,
    };
    let mut tool_names: Vec<String> = Vec::new();
    let mut i: usize = 0;
    while i < tools.len()
        invariant
            forall|text: &String| call_requires(*redact, (text,)),
            i <= tools.len(),
            tool_names@.len() == i,
            forall|j: int|
                0 <= j < i ==> call_ensures(*redact, (&#[trigger] tools@[j],), tool_names@[j]),
        decreases tools.len() - i,
    {
        let name = redact(&tools[i]);
        tool_names.push(name);
        i = i + 1;
    }
    ModelSummary {
        schema_version: 1,
        request_id,
        snapshot,
        succeeded: completion.is_some(),
        completion: retained,
        input_message_count,
        tool_names,
    }
}

} // verus!
