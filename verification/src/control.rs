//! What a worker may ask of its host besides a model: on whom, and under which
//! scope.
use vstd::prelude::*;
use vstd::string::*;
use crate::authority::{Grant, ModelPermit, PermitState, PermitStateView};
use crate::errors::PermitError;
use crate::launch::{Evaluation, ExecutionPhase};
use crate::model::{DispatchState, RequestClass, RequestReservation, WorkIdentity};

verus! {

/// Whose things a request is about.
#[derive(Clone, Copy, Debug, PartialEq, Eq, Structural)]
pub enum Scope {
    CurrentWork,
    CurrentCampaign,
}

/// A request, as far as authority depends on it.
#[derive(Debug)]
pub enum ControlRequest {
    Todo { scope: Scope },
    Monitor { scope: Scope },
    Resource,
    Templates,
    Wait,
    Spawn,
    Group,
    Propose,
    ProposeGroup,
    Cancel { work_id: String, generation: u64 },
    GroupStatus { group_id: String },
    GroupResize { group_id: String, expected_revision: u64, max_running: u64 },
    Status { work_id: String },
    List,
    Result { work_id: String, revision: Option<u64> },
    Send { work_id: String, command_id: String },
    Steer { work_id: String, command_id: String, expected_revision: u64 },
}

/// A piece of work of a campaign.
#[derive(Debug)]
pub struct WorkAddress {
    pub campaign_id: String,
    pub work_id: String,
}

/// Whose todos a request is about.
#[derive(Debug)]
pub enum TodoScope {
    Work { work_id: String },
    Campaign { campaign_id: String },
}

/// Whose state a request is about.
#[derive(Debug)]
pub enum MonitorScope {
    Work { campaign_id: String, work_id: String },
    Campaign { campaign_id: String },
}

/// What the host does for a request. `actor` is the work that asks.
#[derive(Debug)]
pub enum ControlStep {
    Todo { scope: TodoScope, actor: WorkAddress },
    Monitor { sampled: MonitorScope },
    Resource { campaign_id: String },
    Templates { actor: WorkAddress },
    /// Admit work from the catalog; `with_context` says whether resources may be
    /// attached to it.
    Admit { actor: WorkAddress, with_context: bool },
    /// Cancel the target, once `check_cancel` allowed it.
    Cancel { actor: WorkAddress, target: WorkAddress, generation: u64 },
    /// Report on a group, once `check_members` allowed it, and resize it first
    /// where that is asked: the revision that is expected, and the new size.
    Group { actor: WorkAddress, group_id: String, resize: Option<(u64, u64)> },
    Status { actor: WorkAddress, target: WorkAddress },
    List { actor: WorkAddress },
    /// The result of the target, the current one where no revision is named.
    Result { actor: WorkAddress, target: WorkAddress, revision: Option<u64> },
    Send { actor: WorkAddress, target: WorkAddress, command_id: String },
    Steer { actor: WorkAddress, target: WorkAddress, command_id: String, expected_revision: u64 },
}

/// A piece of work of the campaign that asks.
pub open spec fn address(identity: WorkIdentity, work_id: String) -> WorkAddress {
    WorkAddress { campaign_id: identity.campaign_id, work_id }
}

/// The work that asks.
pub open spec fn actor(identity: WorkIdentity) -> WorkAddress {
    address(identity, identity.work_id)
}

/// What the host does for a request of an identity. Scopes come from the
/// identity; a request names no campaign.
pub open spec fn step_of(identity: WorkIdentity, request: ControlRequest) -> Option<ControlStep> {
    match request {
        ControlRequest::Todo { scope } => Some(
            ControlStep::Todo {
                scope: match scope {
                    Scope::CurrentWork => TodoScope::Work { work_id: identity.work_id },
                    Scope::CurrentCampaign => TodoScope::Campaign {
                        campaign_id: identity.campaign_id,
                    },
                },
                actor: actor(identity),
            },
        ),
        ControlRequest::Monitor { scope } => Some(
            ControlStep::Monitor {
                sampled: match scope {
                    Scope::CurrentWork => MonitorScope::Work {
                        campaign_id: identity.campaign_id,
                        work_id: identity.work_id,
                    },
                    Scope::CurrentCampaign => MonitorScope::Campaign {
                        campaign_id: identity.campaign_id,
                    },
                },
            },
        ),
        ControlRequest::Resource => Some(
            ControlStep::Resource { campaign_id: identity.campaign_id },
        ),
        ControlRequest::Templates => Some(ControlStep::Templates { actor: actor(identity) }),
        ControlRequest::Wait => None,
        ControlRequest::Spawn | ControlRequest::Group => Some(
            ControlStep::Admit { actor: actor(identity), with_context: false },
        ),
        ControlRequest::Propose | ControlRequest::ProposeGroup => Some(
            ControlStep::Admit { actor: actor(identity), with_context: true },
        ),
        ControlRequest::Cancel { work_id, generation } => Some(
            ControlStep::Cancel {
                actor: actor(identity),
                target: address(identity, work_id),
                generation,
            },
        ),
        ControlRequest::GroupStatus { group_id } => Some(
            ControlStep::Group { actor: actor(identity), group_id, resize: None },
        ),
        ControlRequest::GroupResize { group_id, expected_revision, max_running } => Some(
            ControlStep::Group {
                actor: actor(identity),
                group_id,
                resize: Some((expected_revision, max_running)),
            },
        ),
        ControlRequest::Status { work_id } => Some(
            ControlStep::Status { actor: actor(identity), target: address(identity, work_id) },
        ),
        ControlRequest::List => Some(ControlStep::List { actor: actor(identity) }),
        ControlRequest::Result { work_id, revision } => Some(
            ControlStep::Result {
                actor: actor(identity),
                target: address(identity, work_id),
                revision,
            },
        ),
        ControlRequest::Send { work_id, command_id } => Some(
            ControlStep::Send {
                actor: actor(identity),
                target: address(identity, work_id),
                command_id,
            },
        ),
        ControlRequest::Steer { work_id, command_id, expected_revision } => Some(
            ControlStep::Steer {
                actor: actor(identity),
                target: address(identity, work_id),
                command_id,
                expected_revision,
            },
        ),
    }
}

/// Whether a request is about the asking scope itself, and so depends on its
/// funding rather than on its enrolment.
pub open spec fn on_own_scope(request: ControlRequest) -> bool {
    request is Todo || request is Monitor || request is Resource
}

/// Why a request is refused, if it is. The first reason counts. `valid` is what
/// is wrong with the request's content if anything is, `funding` whether the
/// grant's funding is what the store admitted, `enrolled` whether the asking work
/// may control others.
pub open spec fn control_refusal(
    state: PermitStateView,
    nonce: u128,
    reservation: RequestReservation,
    request: ControlRequest,
    closed: bool,
    valid: Result<(), String>,
    funding: Result<(), String>,
    enrolled: Result<(), String>,
) -> Option<PermitError> {
    if valid is Err {
        Some(PermitError::Host(valid->Err_0))
    } else if !state.grants.dom().contains(nonce) {
        Some(PermitError::UnknownPermit)
    } else if !state.authorizes(nonce, reservation, closed) || reservation.identity.class
        != RequestClass::Work {
        Some(PermitError::RevokedControl)
    } else if on_own_scope(request) {
        match funding {
            Err(error) => Some(PermitError::Host(error)),
            Ok(_) => None,
        }
    } else if enrolled is Err {
        Some(PermitError::Host(enrolled->Err_0))
    } else if request is Wait {
        Some(PermitError::WaitNeedsBoundary)
    } else {
        None
    }
}

fn address_of(identity: &WorkIdentity, work_id: String) -> (res: WorkAddress)
    ensures
        res == address(*identity, work_id),
{
    WorkAddress { campaign_id: identity.campaign_id.clone(), work_id }
}

fn actor_of(identity: &WorkIdentity) -> (res: WorkAddress)
    ensures
        res == actor(*identity),
{
    WorkAddress { campaign_id: identity.campaign_id.clone(), work_id: identity.work_id.clone() }
}

fn plan(identity: &WorkIdentity, request: ControlRequest) -> (res: Option<ControlStep>)
    ensures
        res == step_of(*identity, request),
{
    match request {
        ControlRequest::Todo { scope } => Some(
            ControlStep::Todo {
                scope: match scope {
                    Scope::CurrentWork => TodoScope::Work { work_id: identity.work_id.clone() },
                    Scope::CurrentCampaign => TodoScope::Campaign {
                        campaign_id: identity.campaign_id.clone(),
                    },
                },
                actor: actor_of(identity),
            },
        ),
        ControlRequest::Monitor { scope } => Some(
            ControlStep::Monitor {
                sampled: match scope {
                    Scope::CurrentWork => MonitorScope::Work {
                        campaign_id: identity.campaign_id.clone(),
                        work_id: identity.work_id.clone(),
                    },
                    Scope::CurrentCampaign => MonitorScope::Campaign {
                        campaign_id: identity.campaign_id.clone(),
                    },
                },
            },
        ),
        ControlRequest::Resource => Some(
            ControlStep::Resource { campaign_id: identity.campaign_id.clone() },
        ),
        ControlRequest::Templates => Some(ControlStep::Templates { actor: actor_of(identity) }),
        ControlRequest::Wait => None,
        ControlRequest::Spawn | ControlRequest::Group => Some(
            ControlStep::Admit { actor: actor_of(identity), with_context: false },
        ),
        ControlRequest::Propose | ControlRequest::ProposeGroup => Some(
            ControlStep::Admit { actor: actor_of(identity), with_context: true },
        ),
        ControlRequest::Cancel { work_id, generation } => Some(
            ControlStep::Cancel {
                actor: actor_of(identity),
                target: address_of(identity, work_id),
                generation,
            },
        ),
        ControlRequest::GroupStatus { group_id } => Some(
            ControlStep::Group { actor: actor_of(identity), group_id, resize: None },
        ),
        ControlRequest::GroupResize { group_id, expected_revision, max_running } => Some(
            ControlStep::Group {
                actor: actor_of(identity),
                group_id,
                resize: Some((expected_revision, max_running)),
            },
        ),
        ControlRequest::Status { work_id } => Some(
            ControlStep::Status {
                actor: actor_of(identity),
                target: address_of(identity, work_id),
            },
        ),
        ControlRequest::List => Some(ControlStep::List { actor: actor_of(identity) }),
        ControlRequest::Result { work_id, revision } => Some(
            ControlStep::Result {
                actor: actor_of(identity),
                target: address_of(identity, work_id),
                revision,
            },
        ),
        ControlRequest::Send { work_id, command_id } => Some(
            ControlStep::Send {
                actor: actor_of(identity),
                target: address_of(identity, work_id),
                command_id,
            },
        ),
        ControlRequest::Steer { work_id, command_id, expected_revision } => Some(
            ControlStep::Steer {
                actor: actor_of(identity),
                target: address_of(identity, work_id),
                command_id,
                expected_revision,
            },
        ),
    }
}

/// What the host does for a request of a worker. `closed` says whether the lease
/// that the grant names has been closed; for the rest see `control_refusal`.
pub fn broker_control(
    state: &PermitState,
    permit: &ModelPermit,
    reservation: &RequestReservation,
    request: ControlRequest,
    closed: bool,
    valid: Result<(), String>,
    funding: Result<(), String>,
    enrolled: Result<(), String>,
) -> (res: Result<ControlStep, PermitError>)
    ensures
        match control_refusal(
            state@,
            permit.nonce(),
            *reservation,
            request,
            closed,
            valid,
            funding,
            enrolled,
        ) {
            Some(error) => res == Err::<ControlStep, _>(error),
            None => step_of(state@.grants[permit.nonce()].request.identity, request) is Some
                && res == Ok::<_, PermitError>(
                step_of(state@.grants[permit.nonce()].request.identity, request)->0,
            ),
        },
{
    if let Err(error) = valid {
        return Err(PermitError::Host(error));
    }
    let grant = match state.grant(permit) {
        None => {
            return Err(PermitError::UnknownPermit);
        },
        Some(grant) => grant,
    };
    if !state.is_authorized(permit, reservation, closed) || reservation.identity.class
        != RequestClass::Work {
        return Err(PermitError::RevokedControl);
    }
    if matches!(
        request,
        ControlRequest::Todo { .. } | ControlRequest::Monitor { .. } | ControlRequest::Resource
    ) {
        if let Err(error) = funding {
            return Err(PermitError::Host(error));
        }
    } else if let Err(error) = enrolled {
        return Err(PermitError::Host(error));
    }
    match plan(&grant.request.identity, request) {
        Some(step) => Ok(step),
        None => Err(PermitError::WaitNeedsBoundary),
    }
}

/// Whether a piece of work, whose parent was read, is a direct child of another.
pub open spec fn direct_child(parent: Option<String>, of: Seq<char>) -> bool {
    parent matches Some(parent) && parent@ == of
}

fn is_direct_child(parent: &Option<String>, of: &String) -> (res: bool)
    ensures
        res == direct_child(*parent, of@),
{
    match parent {
        Some(parent) => *parent == *of,
        None => false,
    }
}

/// Whether work may cancel a target, whose parent was read: only its direct
/// parent may.
pub fn check_cancel(parent: Result<Option<String>, String>, actor: &String) -> (res: Result<
    (),
    PermitError,
>)
    ensures
        match parent {
            Err(error) => res == Err::<(), _>(PermitError::Host(error)),
            Ok(parent) => if direct_child(parent, actor@) {
                res is Ok
            } else {
                res == Err::<(), _>(PermitError::NotDirectParent)
            },
        },
{
    match parent {
        Err(error) => Err(PermitError::Host(error)),
        Ok(parent) => if is_direct_child(&parent, actor) {
            Ok(())
        } else {
            Err(PermitError::NotDirectParent)
        },
    }
}

/// Why not every piece of work is a direct child, if not every one is: the first
/// that is not, or could not be read, tells.
pub open spec fn children_refusal(
    parents: Seq<Result<Option<String>, String>>,
    of: Seq<char>,
    error: PermitError,
) -> Option<PermitError>
    decreases parents.len(),
{
    if parents.len() == 0 {
        None
    } else {
        match parents[0] {
            Err(failure) => Some(PermitError::Host(failure)),
            Ok(parent) => if direct_child(parent, of) {
                children_refusal(parents.subrange(1, parents.len() as int), of, error)
            } else {
                Some(error)
            },
        }
    }
}

pub(crate) fn first_non_child(
    parents: &Vec<Result<Option<String>, String>>,
    of: &String,
    error: PermitError,
) -> (res: Option<PermitError>)
    ensures
        res == children_refusal(parents@, of@, error),
{
    let mut i: usize = 0;
    assert(parents@.subrange(0, parents.len() as int) == parents@);
    while i < parents.len()
        invariant
            i <= parents.len(),
            children_refusal(parents@, of@, error) == children_refusal(
                parents@.subrange(i as int, parents.len() as int),
                of@,
                error,
            ),
        decreases parents.len() - i,
    {
        let ghost rest = parents@.subrange(i as int, parents.len() as int);
        assert(rest.subrange(1, rest.len() as int) == parents@.subrange(
            i + 1,
            parents.len() as int,
        ));
        match &parents[i] {
            Err(failure) => {
                return Some(PermitError::Host(failure.clone()));
            },
            Ok(parent) => {
                if !is_direct_child(parent, of) {
                    return Some(error);
                }
            },
        }
        i = i + 1;
    }
    None
}

/// Whether work may see or resize a group, given the parent of each member:
/// ancestry of the group is no authority, every member must be a direct child.
pub fn check_members(
    parents: &Vec<Result<Option<String>, String>>,
    actor: &String,
) -> (res: Result<(), PermitError>)
    ensures
        match children_refusal(parents@, actor@, PermitError::GroupOwnershipDenied) {
            Some(error) => res == Err::<(), _>(error),
            None => res is Ok,
        },
{
    match first_non_child(parents, actor, PermitError::GroupOwnershipDenied) {
        Some(error) => Err(error),
        None => Ok(()),
    }
}

/// A group as it is reported.
#[derive(Clone, Copy, Debug, PartialEq, Eq, Structural)]
pub struct GroupState {
    pub revision: u64,
    pub max_running: u64,
    pub cancellation_requested: bool,
}

/// What a worker learns of a group: its state, after the resize where there was
/// one, how many members run, and how many there are.
#[derive(Debug)]
pub struct GroupReply {
    pub group_id: String,
    pub group: GroupState,
    pub active: usize,
    pub total: usize,
}

/// What a worker learns of a group.
pub fn report_group(
    group_id: String,
    before: GroupState,
    resized: Option<GroupState>,
    active: usize,
    total: usize,
) -> (res: GroupReply)
    ensures
        res == (GroupReply {
            group_id,
            group: match resized {
                Some(group) => group,
                None => before,
            },
            active,
            total,
        }),
{
    let group = match resized {
        Some(group) => group,
        None => before,
    };
    GroupReply { group_id, group, active, total }
}

/// What a worker learns of how far a dispatch came: not who the worker is.
#[derive(Clone, Copy, Debug, PartialEq, Eq, Structural)]
pub enum AdmissionState {
    Admitted,
    DispatchingUnknown,
    Registered,
    ConfirmedUnspent,
    Cancelled,
}

/// What a worker learns of how far a dispatch came.
pub open spec fn admission_state_spec(state: DispatchState) -> AdmissionState {
    match state {
        DispatchState::Admitted => AdmissionState::Admitted,
        DispatchState::DispatchingUnknown => AdmissionState::DispatchingUnknown,
        DispatchState::Registered { .. } => AdmissionState::Registered,
        DispatchState::ConfirmedUnspent => AdmissionState::ConfirmedUnspent,
        DispatchState::Cancelled => AdmissionState::Cancelled,
    }
}

/// What a worker learns of how far a dispatch came.
pub fn admission_state(state: &DispatchState) -> (res: AdmissionState)
    ensures
        res == admission_state_spec(*state),
{
    match state {
        DispatchState::Admitted => AdmissionState::Admitted,
        DispatchState::DispatchingUnknown => AdmissionState::DispatchingUnknown,
        DispatchState::Registered { .. } => AdmissionState::Registered,
        DispatchState::ConfirmedUnspent => AdmissionState::ConfirmedUnspent,
        DispatchState::Cancelled => AdmissionState::Cancelled,
    }
}

/// What a worker learns of how far a result came.
#[derive(Clone, Copy, Debug, PartialEq, Eq, Structural)]
pub enum ResultPhase {
    ReworkPending,
    ExecutingUnknown,
    EvidenceReady,
    AwaitingVerification,
    AwaitingAcceptance,
    AcceptedHuman,
    ReviewingUnknown,
    Accepted,
    Rejected,
    Unverified,
}

/// What a worker learns of how far a result came. Rework that is pending comes
/// before anything else.
pub open spec fn result_phase_spec(rework_pending: bool, phase: ExecutionPhase) -> ResultPhase {
    if rework_pending {
        ResultPhase::ReworkPending
    } else {
        match phase {
            ExecutionPhase::ExecutingUnknown => ResultPhase::ExecutingUnknown,
            ExecutionPhase::EvidenceReady => ResultPhase::EvidenceReady,
            ExecutionPhase::AwaitingVerification => ResultPhase::AwaitingVerification,
            ExecutionPhase::AwaitingAcceptance => ResultPhase::AwaitingAcceptance,
            ExecutionPhase::ReviewingUnknown => ResultPhase::ReviewingUnknown,
            ExecutionPhase::Reviewed(Evaluation::AcceptedHuman) => ResultPhase::AcceptedHuman,
            ExecutionPhase::Reviewed(Evaluation::Accepted) => ResultPhase::Accepted,
            ExecutionPhase::Reviewed(Evaluation::Rejected) => ResultPhase::Rejected,
            ExecutionPhase::Reviewed(Evaluation::Unverified) => ResultPhase::Unverified,
        }
    }
}

/// What a worker learns of how far a result came.
pub fn result_phase(rework_pending: bool, phase: ExecutionPhase) -> (res: ResultPhase)
    ensures
        res == result_phase_spec(rework_pending, phase),
{
    if rework_pending {
        return ResultPhase::ReworkPending;
    }
    match phase {
        ExecutionPhase::ExecutingUnknown => ResultPhase::ExecutingUnknown,
        ExecutionPhase::EvidenceReady => ResultPhase::EvidenceReady,
        ExecutionPhase::AwaitingVerification => ResultPhase::AwaitingVerification,
        ExecutionPhase::AwaitingAcceptance => ResultPhase::AwaitingAcceptance,
        ExecutionPhase::ReviewingUnknown => ResultPhase::ReviewingUnknown,
        ExecutionPhase::Reviewed(Evaluation::AcceptedHuman) => ResultPhase::AcceptedHuman,
        ExecutionPhase::Reviewed(Evaluation::Accepted) => ResultPhase::Accepted,
        ExecutionPhase::Reviewed(Evaluation::Rejected) => ResultPhase::Rejected,
        ExecutionPhase::Reviewed(Evaluation::Unverified) => ResultPhase::Unverified,
    }
}

/// Whether a control request is served at all: the host allowed its kind, and
/// there is time left. One that is not is denied.
pub fn admit_control(allowed: bool, now: u64, deadline: u64) -> (res: bool)
    ensures
        res == (allowed && now < deadline),
{
    allowed && now < deadline
}

/// What a worker is answered: what its request came to where it was served and
/// went well, else nothing, which is a denial.
pub open spec fn control_answer<R>(admitted: bool, outcome: Result<R, PermitError>) -> Option<R> {
    match outcome {
        Ok(reply) => if admitted {
            Some(reply)
        } else {
            None
        },
        Err(_) => None,
    }
}

/// What a worker is answered. A denial tells it nothing of the reason, and does
/// not end its session.
pub fn answer_control<R>(admitted: bool, outcome: Result<R, PermitError>) -> (res: Option<R>)
    ensures
        res == control_answer(admitted, outcome),
{
    match outcome {
        Ok(reply) => if admitted {
            Some(reply)
        } else {
            None
        },
        Err(_) => None,
    }
}

/// The launch that learns of a cancellation once it was requested: that of the
/// target, at the generation that was named.
pub fn launch_to_cancel(step: &ControlStep) -> (res: Option<(String, String, u64)>)
    ensures
        res == match *step {
            ControlStep::Cancel { target, generation, .. } => Some(
                (target.campaign_id, target.work_id, generation),
            ),
            _ => None::<(String, String, u64)>,
        },
{
    match step {
        ControlStep::Cancel { target, generation, .. } => Some(
            (target.campaign_id.clone(), target.work_id.clone(), *generation),
        ),
        _ => None,
    }
}

/// Why a todo request failed. `E` is any reason but a failed store.
pub enum TodoError<E> {
    Storage { message: String },
    Other(E),
}

/// What a worker learns of a failed todo request: nothing of the store.
pub fn shown_todo_error<E>(error: TodoError<E>) -> (res: TodoError<E>)
    ensures
        match error {
            TodoError::Storage { .. } => res matches TodoError::Storage { message } && message@
                == "todo storage unavailable"@,
            TodoError::Other(_) => res == error,
        },
{
    match error {
        TodoError::Storage { .. } => TodoError::Storage {
            message: "todo storage unavailable".to_owned(),
        },
        TodoError::Other(error) => TodoError::Other(error),
    }
}

/// Why there is no sample of a scope. `E` is any reason but a failed store.
pub enum MonitorError<E> {
    Unavailable,
    Other(E),
}

/// A sample, with how much of the host is free where the host tells the worker.
/// A host that tells, but cannot say, has no sample either.
pub fn with_capacities<P, C, E>(
    sample: Result<P, MonitorError<E>>,
    told: bool,
    capacities: Result<C, ()>,
) -> (res: Result<(P, Option<C>), MonitorError<E>>)
    ensures
        match sample {
            Err(error) => res == Err::<(P, Option<C>), _>(error),
            Ok(payload) => if !told {
                res == Ok::<_, MonitorError<E>>((payload, None::<C>))
            } else {
                match capacities {
                    Ok(free) => res == Ok::<_, MonitorError<E>>((payload, Some(free))),
                    Err(_) => res == Err::<(P, Option<C>), _>(MonitorError::<E>::Unavailable),
                }
            },
        },
{
    match sample {
        Err(error) => Err(error),
        Ok(payload) => if !told {
            Ok((payload, None))
        } else {
            match capacities {
                Ok(free) => Ok((payload, Some(free))),
                Err(_) => Err(MonitorError::Unavailable),
            }
        },
    }
}

} // verus!
