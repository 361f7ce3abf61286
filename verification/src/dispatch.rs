//! Reserving, claiming and billing one logical provider request.
use vstd::prelude::*;
use crate::authority::{Grant, ModelPermit, PermitState};
use crate::authority;
use crate::errors::PermitError;
use crate::launch::Waited;
use crate::ledger::{Hold, Ledger, Usage};
use crate::model::{AdmittedWork, RequestReservation};
use crate::outside;
use crate::text;

verus! {

/// The durable record of one logical request.
#[derive(Debug)]
pub struct DispatchRecord {
    pub schema_version: u32,
    pub owner: String,
    pub request: RequestReservation,
    pub receipt: String,
    pub claimed: bool,
}

impl Clone for DispatchRecord {
    fn clone(&self) -> (res: Self)
        ensures
            res == *self,
    {
        DispatchRecord {
            schema_version: self.schema_version,
            owner: self.owner.clone(),
            request: self.request.clone(),
            receipt: self.receipt.clone(),
            claimed: self.claimed,
        }
    }
}

/// The key of a request's record: ids deduplicate within one allocation.
pub open spec fn dispatch_key(dispatch_id: Seq<char>, request_id: Seq<char>) -> Seq<char> {
    outside::json_pair_text(dispatch_id, request_id)
}

/// One logical provider request under a permit. Its id deduplicates within the
/// funding allocation, across permits, attempts and restarts; it confers no
/// authority.
pub struct PermitAccounting<'a> {
    pub permit: &'a ModelPermit,
    pub request_id: &'a str,
}

/// Name a request under a permit.
pub fn model_permit_accounting<'a>(
    permit: Option<&'a ModelPermit>,
    request_id: &'a str,
) -> (res: Result<PermitAccounting<'a>, PermitError>)
    ensures
        match permit {
            None => res == Err::<PermitAccounting, _>(PermitError::MissingModelPermit),
            Some(permit) => if text::valid_id(request_id@) {
                res matches Ok(accounting) && accounting.permit == permit
                    && accounting.request_id@ == request_id@
            } else {
                res == Err::<PermitAccounting, _>(PermitError::InvalidRequestId)
            },
        },
{
    match permit {
        None => Err(PermitError::MissingModelPermit),
        Some(permit) => if text::is_valid_id(request_id) {
            Ok(PermitAccounting { permit, request_id })
        } else {
            Err(PermitError::InvalidRequestId)
        },
    }
}

/// What the host read, in one write transaction, before it reserves or claims.
pub struct DispatchReads {
    /// Whether the grant's funding is what the store admitted.
    pub funding: Result<(), String>,
    /// The instruction revision that the store holds as applied.
    pub revision: Result<u64, String>,
    /// The record under the request's key.
    pub prior: Result<Option<DispatchRecord>, String>,
    /// The ledger of the request's campaign.
    pub ledger: Result<Ledger, String>,
    /// Whether the grant's allocation has a computable remainder.
    pub available: Result<(), String>,
}

/// Whether a hold of a ledger may still be spent: nothing paused, closed,
/// cancelled or settled.
pub open spec fn hold_dispatchable(
    ledger: Ledger,
    hold: Hold,
    dispatch_id: Seq<char>,
) -> bool {
    &&& !ledger@.admissions_paused
    &&& ledger@.allocation(dispatch_id) == Some(false)
    &&& !hold.cancellation_requested
    &&& hold.usage == Usage::Unknown
}

/// Why the record of an earlier call does not allow a claim, if it does not.
pub open spec fn claim_refusal(
    grant: Grant,
    record: DispatchRecord,
    ledger: Result<Ledger, String>,
    available: Result<(), String>,
) -> Option<PermitError> {
    if record.claimed {
        Some(PermitError::AlreadyClaimed)
    } else if record.owner@ != grant.owner@ {
        Some(PermitError::HistoricalPermit)
    } else if ledger is Err {
        Some(PermitError::Host(ledger->Err_0))
    } else if ledger->Ok_0@.hold(record.receipt@) is None {
        Some(PermitError::MissingHold)
    } else if available is Err {
        Some(PermitError::Host(available->Err_0))
    } else if !hold_dispatchable(
        ledger->Ok_0,
        ledger->Ok_0@.hold(record.receipt@)->0,
        grant.funding.dispatch_id@,
    ) {
        Some(PermitError::NotDispatchable)
    } else {
        None
    }
}

/// Why a reservation or a claim is refused, if it is. The first reason counts.
pub open spec fn dispatch_refusal(
    grant: Option<Grant>,
    request: RequestReservation,
    claim: bool,
    closed: bool,
    reads: DispatchReads,
) -> Option<PermitError> {
    if grant is None {
        Some(PermitError::UnknownModelPermit)
    } else if !grant->0.live(closed) || grant->0.request@ != request@ {
        Some(PermitError::RevokedOrMismatched)
    } else if reads.funding is Err {
        Some(PermitError::Host(reads.funding->Err_0))
    } else if reads.revision is Err {
        Some(PermitError::Host(reads.revision->Err_0))
    } else if reads.revision->Ok_0 != request.identity.instruction_revision {
        Some(PermitError::HistoricalRevision)
    } else if reads.prior is Err {
        Some(PermitError::Host(reads.prior->Err_0))
    } else {
        match reads.prior->Ok_0 {
            None => None,
            Some(record) => if record.schema_version != 1 || record.request@ != request@ {
                Some(PermitError::RequestScopeConflict)
            } else if claim {
                claim_refusal(grant->0, record, reads.ledger, reads.available)
            } else {
                None
            },
        }
    }
}

/// The record of a request that was reserved just now.
pub open spec fn first_record(
    owner: String,
    request: RequestReservation,
    receipt: String,
    claim: bool,
) -> DispatchRecord {
    DispatchRecord { schema_version: 1, owner, request, receipt, claimed: claim }
}

/// What is left to do, in the same transaction, once a call is allowed.
pub enum DispatchStep {
    /// No call came by this id before: reserve the request against the grant's
    /// funding, then store `reserved` of the receipt.
    Reserve { key: String, owner: String },
    /// Store the record, and hand its receipt out.
    Write { key: String, record: DispatchRecord },
}

/// What an allowed call leaves to do: a first one reserves, under the grant's
/// owner; a later one keeps the record, claimed if it was or now is.
pub open spec fn step_agrees(
    step: DispatchStep,
    grant: Grant,
    request_id: Seq<char>,
    claim: bool,
    reads: DispatchReads,
) -> bool {
    match reads.prior->Ok_0 {
        None => step matches DispatchStep::Reserve { key, owner } && key@ == dispatch_key(
            grant.funding.dispatch_id@,
            request_id,
        ) && owner == grant.owner,
        Some(prior) => step matches DispatchStep::Write { key, record } && key@ == dispatch_key(
            grant.funding.dispatch_id@,
            request_id,
        ) && record == (DispatchRecord { claimed: prior.claimed || claim, ..prior }),
    }
}

/// The record to store after a first reservation.
pub fn reserved(
    owner: String,
    request: RequestReservation,
    receipt: String,
    claim: bool,
) -> (res: DispatchRecord)
    ensures
        res == first_record(owner, request, receipt, claim),
{
    DispatchRecord { schema_version: 1, owner, request, receipt, claimed: claim }
}

fn check_claim(
    grant: &Grant,
    record: &DispatchRecord,
    ledger: Result<Ledger, String>,
    available: Result<(), String>,
) -> (res: Result<(), PermitError>)
    ensures
        match claim_refusal(*grant, *record, ledger, available) {
            Some(error) => res == Err::<(), _>(error),
            None => res is Ok,
        },
{
    if record.claimed {
        return Err(PermitError::AlreadyClaimed);
    }
    if record.owner != grant.owner {
        return Err(PermitError::HistoricalPermit);
    }
    let ledger = match ledger {
        Err(error) => {
            return Err(PermitError::Host(error));
        },
        Ok(ledger) => ledger,
    };
    let hold = match ledger.hold(&record.receipt) {
        None => {
            return Err(PermitError::MissingHold);
        },
        Some(hold) => hold,
    };
    if let Err(error) = available {
        return Err(PermitError::Host(error));
    }
    let open = match ledger.allocation(&grant.funding.dispatch_id) {
        Some(closed) => !closed,
        None => false,
    };
    if ledger.admissions_paused() || !open || hold.cancellation_requested || !matches!(
        hold.usage,
        Usage::Unknown
    ) {
        return Err(PermitError::NotDispatchable);
    }
    Ok(())
}

impl PermitAccounting<'_> {
    /// The key of the request's record, where the permit is known.
    pub fn key(&self, state: &PermitState) -> (res: Option<String>)
        ensures
            match state@.grant(self.permit.nonce()) {
                Some(grant) => res matches Some(key) && key@ == dispatch_key(
                    grant.funding.dispatch_id@,
                    self.request_id@,
                ),
                None => res is None,
            },
    {
        match state.grant(self.permit) {
            Some(grant) => Some(outside::json_pair(&grant.funding.dispatch_id, self.request_id)),
            None => None,
        }
    }

    /// Reserve a request, or claim its one dispatch. `closed` says whether the
    /// lease that the grant names has been closed.
    pub fn reserve_or_claim(
        &self,
        state: &PermitState,
        request: &RequestReservation,
        claim: bool,
        closed: bool,
        reads: DispatchReads,
    ) -> (res: Result<DispatchStep, PermitError>)
        ensures
            match dispatch_refusal(
                state@.grant(self.permit.nonce()),
                *request,
                claim,
                closed,
                reads,
            ) {
                Some(error) => res == Err::<DispatchStep, _>(error),
                None => res matches Ok(step) && step_agrees(
                    step,
                    state@.grants[self.permit.nonce()],
                    self.request_id@,
                    claim,
                    reads,
                ),
            },
    {
        let grant = match state.grant(self.permit) {
            None => {
                return Err(PermitError::UnknownModelPermit);
            },
            Some(grant) => grant,
        };
        if !grant.is_live(closed) || !grant.request.same(request) {
            return Err(PermitError::RevokedOrMismatched);
        }
        if let Err(error) = reads.funding {
            return Err(PermitError::Host(error));
        }
        match reads.revision {
            Err(error) => {
                return Err(PermitError::Host(error));
            },
            Ok(revision) => {
                if revision != request.identity.instruction_revision {
                    return Err(PermitError::HistoricalRevision);
                }
            },
        }
        let key = outside::json_pair(&grant.funding.dispatch_id, self.request_id);
        match reads.prior {
            Err(error) => Err(PermitError::Host(error)),
            Ok(None) => Ok(DispatchStep::Reserve { key, owner: grant.owner.clone() }),
            Ok(Some(record)) => {
                if record.schema_version != 1 || !record.request.same(request) {
                    return Err(PermitError::RequestScopeConflict);
                }
                if claim {
                    if let Err(error) = check_claim(grant, &record, reads.ledger, reads.available) {
                        return Err(error);
                    }
                }
                let mut record = record;
                if claim {
                    record.claimed = true;
                }
                Ok(DispatchStep::Write { key, record })
            },
        }
    }

    /// Reserve a request. Doing so twice is doing so once, and is no permission
    /// to execute it.
    pub fn reserve_only(
        &self,
        state: &PermitState,
        request: &RequestReservation,
        closed: bool,
        reads: DispatchReads,
    ) -> (res: Result<DispatchStep, PermitError>)
        ensures
            match dispatch_refusal(
                state@.grant(self.permit.nonce()),
                *request,
                false,
                closed,
                reads,
            ) {
                Some(error) => res == Err::<DispatchStep, _>(error),
                None => res matches Ok(step) && step_agrees(
                    step,
                    state@.grants[self.permit.nonce()],
                    self.request_id@,
                    false,
                    reads,
                ),
            },
    {
        self.reserve_or_claim(state, request, false, closed, reads)
    }

    /// Claim a request's one dispatch, reserving it first where nothing did.
    pub fn reserve(
        &self,
        state: &PermitState,
        request: &RequestReservation,
        closed: bool,
        reads: DispatchReads,
    ) -> (res: Result<DispatchStep, PermitError>)
        ensures
            match dispatch_refusal(
                state@.grant(self.permit.nonce()),
                *request,
                true,
                closed,
                reads,
            ) {
                Some(error) => res == Err::<DispatchStep, _>(error),
                None => res matches Ok(step) && step_agrees(
                    step,
                    state@.grants[self.permit.nonce()],
                    self.request_id@,
                    true,
                    reads,
                ),
            },
    {
        self.reserve_or_claim(state, request, true, closed, reads)
    }

    /// Bill a request's usage. Revocation fences new requests, not the evidence
    /// of what earlier ones spent: the grant need not be active.
    pub fn reconcile(
        &self,
        state: &PermitState,
        receipt: &String,
        record: Result<Option<DispatchRecord>, String>,
    ) -> (res: Result<Billing, PermitError>)
        ensures
            match reconcile_refusal(state@.grant(self.permit.nonce()), receipt@, record) {
                Some(error) => res == Err::<Billing, _>(error),
                None => {
                    let grant = state@.grants[self.permit.nonce()];
                    res == Ok::<_, PermitError>(
                        Billing { request: grant.request, dispatch_id: grant.funding.dispatch_id },
                    )
                },
            },
    {
        let grant = match state.grant(self.permit) {
            None => {
                return Err(PermitError::UnknownModelPermit);
            },
            Some(grant) => grant,
        };
        match record {
            Err(error) => Err(PermitError::Host(error)),
            Ok(None) => Err(PermitError::UnknownRequestId),
            Ok(Some(record)) => if record.schema_version != 1 || !record.request.same(
                &grant.request,
            ) || record.receipt != *receipt {
                Err(PermitError::ReconciliationMismatch)
            } else {
                Ok(
                    Billing {
                        request: grant.request.clone(),
                        dispatch_id: grant.funding.dispatch_id.clone(),
                    },
                )
            },
        }
    }
}

/// What usage is billed to.
pub struct Billing {
    pub request: RequestReservation,
    pub dispatch_id: String,
}

/// Why usage is not billed, if it is not. The first reason counts.
pub open spec fn reconcile_refusal(
    grant: Option<Grant>,
    receipt: Seq<char>,
    record: Result<Option<DispatchRecord>, String>,
) -> Option<PermitError> {
    if grant is None {
        Some(PermitError::UnknownModelPermit)
    } else {
        match record {
            Err(error) => Some(PermitError::Host(error)),
            Ok(None) => Some(PermitError::UnknownRequestId),
            Ok(Some(record)) => if record.schema_version != 1 || record.request@
                != grant->0.request@ || record.receipt@ != receipt {
                Some(PermitError::ReconciliationMismatch)
            } else {
                None
            },
        }
    }
}

/// The accounting of one execution that must end by a deadline. Times are
/// milliseconds of one clock.
pub struct PermittedAccounting<'a> {
    pub permit: &'a ModelPermit,
    pub request_id: &'a str,
    pub deadline: u64,
}

impl PermittedAccounting<'_> {
    /// Claim the dispatch, unless the deadline has passed.
    pub fn reserve(
        &self,
        state: &PermitState,
        request: &RequestReservation,
        now: u64,
        closed: bool,
        reads: DispatchReads,
    ) -> (res: Result<DispatchStep, PermitError>)
        ensures
            if now >= self.deadline {
                res == Err::<DispatchStep, _>(PermitError::DeadlineBeforeReservation)
            } else if !text::valid_id(self.request_id@) {
                res == Err::<DispatchStep, _>(PermitError::InvalidRequestId)
            } else {
                match dispatch_refusal(
                    state@.grant(self.permit.nonce()),
                    *request,
                    true,
                    closed,
                    reads,
                ) {
                    Some(error) => res == Err::<DispatchStep, _>(error),
                    None => res matches Ok(step) && step_agrees(
                        step,
                        state@.grants[self.permit.nonce()],
                        self.request_id@,
                        true,
                        reads,
                    ),
                }
            },
    {
        if now >= self.deadline {
            return Err(PermitError::DeadlineBeforeReservation);
        }
        match model_permit_accounting(Some(self.permit), self.request_id) {
            Err(error) => Err(error),
            Ok(accounting) => accounting.reserve_or_claim(state, request, true, closed, reads),
        }
    }

    /// Whether the provider may be called once the claim is durable: never after
    /// the deadline, nor once the launch closed its lease.
    pub fn reserved(&self, state: &PermitState, now: u64, closed: bool) -> (res: Result<
        (),
        PermitError,
    >)
        ensures
            match state@.grant(self.permit.nonce()) {
                None => res == Err::<(), _>(PermitError::UnknownModelPermit),
                Some(grant) => if now >= self.deadline || grant.lease is Some && closed {
                    res == Err::<(), _>(PermitError::DeadlineAfterReservation)
                } else {
                    res is Ok
                },
            },
    {
        match state.grant(self.permit) {
            None => Err(PermitError::UnknownModelPermit),
            Some(grant) => if now >= self.deadline || grant.lease.is_some() && closed {
                Err(PermitError::DeadlineAfterReservation)
            } else {
                Ok(())
            },
        }
    }

    /// Bill the usage, whatever the time.
    pub fn reconcile(
        &self,
        state: &PermitState,
        receipt: &String,
        record: Result<Option<DispatchRecord>, String>,
    ) -> (res: Result<Billing, PermitError>)
        ensures
            if !text::valid_id(self.request_id@) {
                res == Err::<Billing, _>(PermitError::InvalidRequestId)
            } else {
                match reconcile_refusal(state@.grant(self.permit.nonce()), receipt@, record) {
                    Some(error) => res == Err::<Billing, _>(error),
                    None => {
                        let grant = state@.grants[self.permit.nonce()];
                        res == Ok::<_, PermitError>(
                            Billing {
                                request: grant.request,
                                dispatch_id: grant.funding.dispatch_id,
                            },
                        )
                    },
                }
            },
    {
        match model_permit_accounting(Some(self.permit), self.request_id) {
            Err(error) => Err(error),
            Ok(accounting) => accounting.reconcile(state, receipt, record),
        }
    }
}

/// Whether an execution may begin: in time, under a permit, by a name.
pub fn begin_execution(
    permit: Option<&ModelPermit>,
    request_id: &str,
    now: u64,
    deadline: u64,
) -> (res: Result<(), PermitError>)
    ensures
        if now >= deadline {
            res == Err::<(), _>(PermitError::DeadlineElapsed)
        } else if permit is None {
            res == Err::<(), _>(PermitError::MissingModelPermit)
        } else if !text::valid_id(request_id@) {
            res == Err::<(), _>(PermitError::InvalidRequestId)
        } else {
            res is Ok
        },
{
    if now >= deadline {
        return Err(PermitError::DeadlineElapsed);
    }
    match model_permit_accounting(permit, request_id) {
        Err(error) => Err(error),
        Ok(_) => Ok(()),
    }
}

/// Whether an execution got its place among the host's model calls.
pub fn admit_execution(waited: Waited) -> (res: Result<(), PermitError>)
    ensures
        match waited {
            Waited::Answered(Ok(_)) => res is Ok,
            Waited::Answered(Err(error)) => res == Err::<(), _>(PermitError::Host(error)),
            _ => res == Err::<(), _>(PermitError::ModelAdmissionDeadline),
        },
{
    match waited {
        Waited::Answered(Ok(_)) => Ok(()),
        Waited::Answered(Err(error)) => Err(PermitError::Host(error)),
        _ => Err(PermitError::ModelAdmissionDeadline),
    }
}

/// What comes of an execution: what the provider call came to, or, where the
/// deadline passed first, that nobody knows.
pub fn end_execution<C>(outcome: Option<Result<C, PermitError>>) -> (res: Result<C, PermitError>)
    ensures
        res == match outcome {
            Some(result) => result,
            None => Err(PermitError::DeadlineElapsed),
        },
{
    match outcome {
        Some(result) => result,
        None => Err(PermitError::DeadlineElapsed),
    }
}

} // verus!
