//! A worker that waits for its children: its transport stays, its execution slot
//! does not.
use vstd::prelude::*;
use crate::authority::{ModelPermit, PermitState, PermitStateView};
use crate::control;
use crate::errors::PermitError;
use crate::launch::Waited;
use crate::model::{AdmittedWork, RequestClass, RequestReservation};

verus! {

/// How long after the end of a wait its worker may take to get its slot back, in
/// milliseconds.
pub const RESUME_GRACE_MS: u64 = 5_000;

/// How often a wait is looked at, in milliseconds.
pub const POLL_MS: u64 = 20;

/// How many resident workers a host must have room for before one may wait.
pub const MIN_RESIDENTS: usize = 2;

/// Whether a wait is considered at all.
pub fn admit_wait(allowed: bool, valid: bool, residents: usize) -> (res: bool)
    ensures
        res == (allowed && valid && residents >= MIN_RESIDENTS),
{
    allowed && valid && residents >= MIN_RESIDENTS
}

/// When a wait that begins now must have given way to its worker again.
pub open spec fn resume_deadline_spec(deadline: u64, now: u64, timeout_ms: u64) -> u64 {
    if now + timeout_ms + RESUME_GRACE_MS <= deadline {
        (now + timeout_ms + RESUME_GRACE_MS) as u64
    } else {
        deadline
    }
}

/// When a wait that begins now must have given way to its worker again.
pub fn resume_deadline(deadline: u64, now: u64, timeout_ms: u64) -> (res: u64)
    ensures
        res == resume_deadline_spec(deadline, now, timeout_ms),
        res <= deadline,
{
    let limit: u128 = now as u128 + timeout_ms as u128 + RESUME_GRACE_MS as u128;
    if limit <= deadline as u128 {
        limit as u64
    } else {
        deadline
    }
}

/// Why a wait does not begin, if it does not. The first reason counts.
/// `enrolled` says whether the asking work may control others, `parents` the
/// parent of each piece of work that it waits for.
pub open spec fn wait_refusal(
    state: PermitStateView,
    nonce: u128,
    binding: RequestReservation,
    now: u64,
    resume_by: u64,
    closed: bool,
    enrolled: Result<(), String>,
    parents: Seq<Result<Option<String>, String>>,
) -> Option<PermitError> {
    if !state.grants.dom().contains(nonce) {
        Some(PermitError::UnknownPermit)
    } else if !state.authorizes(nonce, binding, closed) || binding.identity.class
        != RequestClass::Work || now >= resume_by {
        Some(PermitError::InvalidWaitAuthority)
    } else if enrolled is Err {
        Some(PermitError::Host(enrolled->Err_0))
    } else {
        control::children_refusal(
            parents,
            binding.identity.work_id@,
            PermitError::WaitNeedsChildren,
        )
    }
}

/// Whether a worker may wait, and the funding under which the host then suspends
/// it: durably, before `pause`, and with the authority held meanwhile.
pub fn authorize_wait(
    state: &PermitState,
    permit: &ModelPermit,
    binding: &RequestReservation,
    now: u64,
    resume_by: u64,
    closed: bool,
    enrolled: Result<(), String>,
    parents: &Vec<Result<Option<String>, String>>,
) -> (res: Result<AdmittedWork, PermitError>)
    ensures
        match wait_refusal(
            state@,
            permit.nonce(),
            *binding,
            now,
            resume_by,
            closed,
            enrolled,
            parents@,
        ) {
            Some(error) => res == Err::<AdmittedWork, _>(error),
            None => res == Ok::<_, PermitError>(state@.grants[permit.nonce()].funding),
        },
{
    let grant = match state.grant(permit) {
        None => {
            return Err(PermitError::UnknownPermit);
        },
        Some(grant) => grant,
    };
    if !state.is_authorized(permit, binding, closed) || binding.identity.class
        != RequestClass::Work || now >= resume_by {
        return Err(PermitError::InvalidWaitAuthority);
    }
    if let Err(error) = enrolled {
        return Err(PermitError::Host(error));
    }
    match control::first_non_child(
        parents,
        &binding.identity.work_id,
        PermitError::WaitNeedsChildren,
    ) {
        Some(error) => Err(error),
        None => Ok(grant.funding.clone()),
    }
}

/// The worker was suspended: its grant is paused, and denies every request.
pub fn pause(state: &mut PermitState, permit: &ModelPermit) -> (res: Result<(), PermitError>)
    ensures
        match old(state)@.grant(permit.nonce()) {
            Some(_) => res is Ok && final(state)@ == old(state)@.with_pause(permit.nonce(), true),
            None => res == Err::<(), _>(PermitError::UnknownPermit) && final(state)@ == old(
                state,
            )@,
        },
        old(state)@.well_formed() ==> final(state)@.well_formed(),
{
    if state.grant(permit).is_none() {
        return Err(PermitError::UnknownPermit);
    }
    state.set_paused(permit, true);
    Ok(())
}

/// Whether a wait goes on: it may be looked at while its worker is suspended, and
/// in time.
pub fn check_poll(
    state: &PermitState,
    permit: &ModelPermit,
    work_id: &String,
    now: u64,
    resume_by: u64,
    closed: bool,
) -> (res: Result<(), PermitError>)
    ensures
        if state@.grant(permit.nonce()) is None {
            res == Err::<(), _>(PermitError::UnknownPermit)
        } else if !state@.suspended(permit.nonce(), work_id@, closed) || now >= resume_by {
            res == Err::<(), _>(PermitError::WaitOver)
        } else {
            res is Ok
        },
{
    if state.grant(permit).is_none() {
        return Err(PermitError::UnknownPermit);
    }
    if !state.is_suspended(permit, work_id, closed) || now >= resume_by {
        return Err(PermitError::WaitOver);
    }
    Ok(())
}

/// What the store says of work that is to go on.
#[derive(Clone, Copy, Debug, PartialEq, Eq, Structural)]
pub struct ResumeStanding {
    pub active: bool,
    pub waits: bool,
    pub cancellation_requested: bool,
    pub terminal: bool,
}

/// Why a worker does not go on, if it does not. The first reason counts.
pub open spec fn resume_refusal(
    state: PermitStateView,
    nonce: u128,
    work_id: Seq<char>,
    now: u64,
    deadline: u64,
    closed: bool,
    standing: Result<ResumeStanding, String>,
) -> Option<PermitError> {
    if !state.suspended(nonce, work_id, closed) || now >= deadline {
        Some(PermitError::Protocol)
    } else {
        match standing {
            Err(error) => Some(PermitError::Host(error)),
            Ok(standing) => if !standing.active || standing.waits
                || standing.cancellation_requested || standing.terminal {
                Some(PermitError::Protocol)
            } else {
                None
            },
        }
    }
}

/// Let a worker go on that has its execution slot back: its grant is paused no
/// more.
pub fn resume_execution(
    state: &mut PermitState,
    permit: &ModelPermit,
    work_id: &String,
    now: u64,
    deadline: u64,
    closed: bool,
    standing: Result<ResumeStanding, String>,
) -> (res: Result<(), PermitError>)
    ensures
        match resume_refusal(
            old(state)@,
            permit.nonce(),
            work_id@,
            now,
            deadline,
            closed,
            standing,
        ) {
            Some(error) => res == Err::<(), _>(error) && final(state)@ == old(state)@,
            None => res is Ok && final(state)@ == old(state)@.with_pause(permit.nonce(), false),
        },
        old(state)@.well_formed() ==> final(state)@.well_formed(),
{
    if !state.is_suspended(permit, work_id, closed) || now >= deadline {
        return Err(PermitError::Protocol);
    }
    match standing {
        Err(error) => Err(PermitError::Host(error)),
        Ok(standing) => {
            if !standing.active || standing.waits || standing.cancellation_requested
                || standing.terminal {
                return Err(PermitError::Protocol);
            }
            state.set_paused(permit, false);
            Ok(())
        },
    }
}

/// How far a wait came.
pub enum WaitPhase {
    /// Suspending the worker.
    Starting,
    /// Suspended: looking whether the children are done.
    Polling,
    /// Suspended: until the next look.
    Sleeping,
    /// The wait is over; waiting for the execution slot.
    Reacquiring,
    /// Letting the worker go on.
    Resuming,
    /// The wait cannot end well: cancelling the work.
    Cancelling { error: PermitError },
    Ended,
}

/// What happened to a wait.
pub enum WaitEvent {
    /// The worker was suspended, or may not wait.
    Started(Result<(), PermitError>),
    /// Whether the children are done.
    Polled(Result<bool, PermitError>),
    Slept,
    /// How waiting for the execution slot ended.
    Reacquired(Waited),
    Resumed(Result<(), PermitError>),
    Cancelled(Result<(), String>),
}

/// What the host does next for a wait.
pub enum WaitAction {
    Start,
    /// Give the execution slot up, then look.
    ReleaseAndPoll,
    Poll,
    Sleep,
    Reacquire,
    Resume,
    CancelWork,
    /// Answer the worker with a denial; it was never suspended.
    Deny,
    /// Answer the worker; it has its slot.
    Answer,
    /// End the worker's session.
    Fail(PermitError),
    Ignore,
}

/// Why a slot was not had again, if it was not.
pub open spec fn reacquire_refusal(waited: Waited) -> Option<PermitError> {
    match waited {
        Waited::Answered(Ok(_)) => None,
        Waited::Answered(Err(error)) => Some(PermitError::Host(error)),
        _ => Some(PermitError::ResumeDeadline),
    }
}

/// What an event leads to. What comes out of turn ends the wait.
pub open spec fn wait_next(phase: WaitPhase, event: WaitEvent) -> (WaitPhase, WaitAction) {
    match (phase, event) {
        (WaitPhase::Ended, _) => (WaitPhase::Ended, WaitAction::Ignore),
        (WaitPhase::Starting, WaitEvent::Started(Ok(_))) => (
            WaitPhase::Polling,
            WaitAction::ReleaseAndPoll,
        ),
        (WaitPhase::Starting, WaitEvent::Started(Err(_))) => (WaitPhase::Ended, WaitAction::Deny),
        (WaitPhase::Polling, WaitEvent::Polled(Ok(true))) => (
            WaitPhase::Reacquiring,
            WaitAction::Reacquire,
        ),
        (WaitPhase::Polling, WaitEvent::Polled(Ok(false))) => (
            WaitPhase::Sleeping,
            WaitAction::Sleep,
        ),
        (WaitPhase::Polling, WaitEvent::Polled(Err(error))) => (
            WaitPhase::Cancelling { error },
            WaitAction::CancelWork,
        ),
        (WaitPhase::Sleeping, WaitEvent::Slept) => (WaitPhase::Polling, WaitAction::Poll),
        (WaitPhase::Reacquiring, WaitEvent::Reacquired(waited)) => match reacquire_refusal(
            waited,
        ) {
            Some(error) => (WaitPhase::Ended, WaitAction::Fail(error)),
            None => (WaitPhase::Resuming, WaitAction::Resume),
        },
        (WaitPhase::Resuming, WaitEvent::Resumed(Ok(_))) => (WaitPhase::Ended, WaitAction::Answer),
        (WaitPhase::Resuming, WaitEvent::Resumed(Err(error))) => (
            WaitPhase::Ended,
            WaitAction::Fail(error),
        ),
        (WaitPhase::Cancelling { error }, WaitEvent::Cancelled(Ok(_))) => (
            WaitPhase::Ended,
            WaitAction::Fail(error),
        ),
        (WaitPhase::Cancelling { .. }, WaitEvent::Cancelled(Err(error))) => (
            WaitPhase::Ended,
            WaitAction::Fail(PermitError::Host(error)),
        ),
        _ => (WaitPhase::Ended, WaitAction::Fail(PermitError::Protocol)),
    }
}

/// What an event leads to.
pub fn wait_step(phase: WaitPhase, event: WaitEvent) -> (res: (WaitPhase, WaitAction))
    ensures
        res == wait_next(phase, event),
{
    match (phase, event) {
        (WaitPhase::Ended, _) => (WaitPhase::Ended, WaitAction::Ignore),
        (WaitPhase::Starting, WaitEvent::Started(Ok(_))) => (
            WaitPhase::Polling,
            WaitAction::ReleaseAndPoll,
        ),
        (WaitPhase::Starting, WaitEvent::Started(Err(_))) => (WaitPhase::Ended, WaitAction::Deny),
        (WaitPhase::Polling, WaitEvent::Polled(Ok(done))) => if done {
            (WaitPhase::Reacquiring, WaitAction::Reacquire)
        } else {
            (WaitPhase::Sleeping, WaitAction::Sleep)
        },
        (WaitPhase::Polling, WaitEvent::Polled(Err(error))) => (
            WaitPhase::Cancelling { error },
            WaitAction::CancelWork,
        ),
        (WaitPhase::Sleeping, WaitEvent::Slept) => (WaitPhase::Polling, WaitAction::Poll),
        (WaitPhase::Reacquiring, WaitEvent::Reacquired(waited)) => match waited {
            Waited::Answered(Ok(_)) => (WaitPhase::Resuming, WaitAction::Resume),
            Waited::Answered(Err(error)) => (
                WaitPhase::Ended,
                WaitAction::Fail(PermitError::Host(error)),
            ),
            _ => (WaitPhase::Ended, WaitAction::Fail(PermitError::ResumeDeadline)),
        },
        (WaitPhase::Resuming, WaitEvent::Resumed(Ok(_))) => (WaitPhase::Ended, WaitAction::Answer),
        (WaitPhase::Resuming, WaitEvent::Resumed(Err(error))) => (
            WaitPhase::Ended,
            WaitAction::Fail(error),
        ),
        (WaitPhase::Cancelling { error }, WaitEvent::Cancelled(Ok(_))) => (
            WaitPhase::Ended,
            WaitAction::Fail(error),
        ),
        (WaitPhase::Cancelling { .. }, WaitEvent::Cancelled(Err(error))) => (
            WaitPhase::Ended,
            WaitAction::Fail(PermitError::Host(error)),
        ),
        _ => (WaitPhase::Ended, WaitAction::Fail(PermitError::Protocol)),
    }
}

} // verus!
