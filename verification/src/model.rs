//! The plain values that authority is decided on.
use vstd::prelude::*;

verus! {

/// What a model request is for.
#[derive(Clone, Copy, Debug, PartialEq, Eq, Structural)]
pub enum RequestClass {
    Work,
    Compaction,
    Verification,
}

/// The allowance that pays for a piece of work.
#[derive(Clone, Copy, Debug, PartialEq, Eq, Structural)]
pub enum Pool {
    Work,
    Verification,
}

/// An amount of model allowance.
#[derive(Clone, Copy, Debug, PartialEq, Eq, Structural)]
pub struct Units {
    pub tokens: u64,
    pub cost_micro_usd: u64,
}

/// The pool that pays for a class of request.
pub open spec fn pool_of_spec(class: RequestClass) -> Pool {
    match class {
        RequestClass::Verification => Pool::Verification,
        _ => Pool::Work,
    }
}

/// The pool that pays for a class of request.
pub fn pool_of(class: RequestClass) -> (pool: Pool)
    ensures
        pool == pool_of_spec(class),
{
    match class {
        RequestClass::Work | RequestClass::Compaction => Pool::Work,
        RequestClass::Verification => Pool::Verification,
    }
}

/// The exact attempt that a request is made for.
#[derive(Debug)]
pub struct WorkIdentity {
    pub campaign_id: String,
    pub work_id: String,
    pub attempt_id: String,
    pub generation: u64,
    pub instruction_revision: u64,
    pub class: RequestClass,
}

#[verifier::ext_equal]
pub struct WorkIdentityView {
    pub campaign_id: Seq<char>,
    pub work_id: Seq<char>,
    pub attempt_id: Seq<char>,
    pub generation: u64,
    pub instruction_revision: u64,
    pub class: RequestClass,
}

impl View for WorkIdentity {
    type V = WorkIdentityView;

    open spec fn view(&self) -> WorkIdentityView {
        WorkIdentityView {
            campaign_id: self.campaign_id@,
            work_id: self.work_id@,
            attempt_id: self.attempt_id@,
            generation: self.generation,
            instruction_revision: self.instruction_revision,
            class: self.class,
        }
    }
}

impl Clone for WorkIdentity {
    fn clone(&self) -> (res: Self)
        ensures
            res == *self,
    {
        WorkIdentity {
            campaign_id: self.campaign_id.clone(),
            work_id: self.work_id.clone(),
            attempt_id: self.attempt_id.clone(),
            generation: self.generation,
            instruction_revision: self.instruction_revision,
            class: self.class,
        }
    }
}

impl WorkIdentity {
    /// Whether two identities hold the same values.
    pub fn same(&self, other: &WorkIdentity) -> (res: bool)
        ensures
            res == (self@ == other@),
    {
        self.campaign_id == other.campaign_id && self.work_id == other.work_id && self.attempt_id
            == other.attempt_id && self.generation == other.generation
            && self.instruction_revision == other.instruction_revision && self.class == other.class
    }
}

/// What one request may cost at most, and where it may be sent.
#[derive(Debug)]
pub struct RequestEstimate {
    pub base_url: String,
    pub model: String,
    pub provider: String,
    pub pricing_revision: String,
    pub max_request_bytes: u64,
    pub input_tokens: u64,
    pub output_tokens: u64,
    pub input_micro_usd_per_million: u64,
    pub output_micro_usd_per_million: u64,
    pub other_micro_usd: u64,
}

#[verifier::ext_equal]
pub struct RequestEstimateView {
    pub base_url: Seq<char>,
    pub model: Seq<char>,
    pub provider: Seq<char>,
    pub pricing_revision: Seq<char>,
    pub max_request_bytes: u64,
    pub input_tokens: u64,
    pub output_tokens: u64,
    pub input_micro_usd_per_million: u64,
    pub output_micro_usd_per_million: u64,
    pub other_micro_usd: u64,
}

impl View for RequestEstimate {
    type V = RequestEstimateView;

    open spec fn view(&self) -> RequestEstimateView {
        RequestEstimateView {
            base_url: self.base_url@,
            model: self.model@,
            provider: self.provider@,
            pricing_revision: self.pricing_revision@,
            max_request_bytes: self.max_request_bytes,
            input_tokens: self.input_tokens,
            output_tokens: self.output_tokens,
            input_micro_usd_per_million: self.input_micro_usd_per_million,
            output_micro_usd_per_million: self.output_micro_usd_per_million,
            other_micro_usd: self.other_micro_usd,
        }
    }
}

impl Clone for RequestEstimate {
    fn clone(&self) -> (res: Self)
        ensures
            res == *self,
    {
        RequestEstimate {
            base_url: self.base_url.clone(),
            model: self.model.clone(),
            provider: self.provider.clone(),
            pricing_revision: self.pricing_revision.clone(),
            max_request_bytes: self.max_request_bytes,
            input_tokens: self.input_tokens,
            output_tokens: self.output_tokens,
            input_micro_usd_per_million: self.input_micro_usd_per_million,
            output_micro_usd_per_million: self.output_micro_usd_per_million,
            other_micro_usd: self.other_micro_usd,
        }
    }
}

impl RequestEstimate {
    /// Whether two estimates hold the same values.
    pub fn same(&self, other: &RequestEstimate) -> (res: bool)
        ensures
            res == (self@ == other@),
    {
        self.base_url == other.base_url && self.model == other.model && self.provider
            == other.provider && self.pricing_revision == other.pricing_revision
            && self.max_request_bytes == other.max_request_bytes && self.input_tokens
            == other.input_tokens && self.output_tokens == other.output_tokens
            && self.input_micro_usd_per_million == other.input_micro_usd_per_million
            && self.output_micro_usd_per_million == other.output_micro_usd_per_million
            && self.other_micro_usd == other.other_micro_usd
    }
}

/// One provider request: whose it is, and its bound.
#[derive(Debug)]
pub struct RequestReservation {
    pub identity: WorkIdentity,
    pub estimate: RequestEstimate,
}

#[verifier::ext_equal]
pub struct RequestReservationView {
    pub identity: WorkIdentityView,
    pub estimate: RequestEstimateView,
}

impl View for RequestReservation {
    type V = RequestReservationView;

    open spec fn view(&self) -> RequestReservationView {
        RequestReservationView { identity: self.identity@, estimate: self.estimate@ }
    }
}

impl Clone for RequestReservation {
    fn clone(&self) -> (res: Self)
        ensures
            res == *self,
    {
        RequestReservation { identity: self.identity.clone(), estimate: self.estimate.clone() }
    }
}

impl RequestReservation {
    /// Whether two requests hold the same values in every field.
    pub fn same(&self, other: &RequestReservation) -> (res: bool)
        ensures
            res == (self@ == other@),
    {
        self.identity.same(&other.identity) && self.estimate.same(&other.estimate)
    }
}

/// The host's decision to fund a piece of work.
#[derive(Debug)]
pub struct Admission {
    pub work_id: String,
    pub campaign_id: String,
    pub objective: String,
    pub generation: u64,
    pub instruction_revision: u64,
    pub pool: Pool,
    pub upper_bound: Units,
}

impl Clone for Admission {
    fn clone(&self) -> (res: Self)
        ensures
            res == *self,
    {
        Admission {
            work_id: self.work_id.clone(),
            campaign_id: self.campaign_id.clone(),
            objective: self.objective.clone(),
            generation: self.generation,
            instruction_revision: self.instruction_revision,
            pool: self.pool,
            upper_bound: self.upper_bound,
        }
    }
}

impl Admission {
    /// Whether two admissions hold the same values.
    pub open spec fn same_as(&self, other: &Admission) -> bool {
        &&& self.work_id@ == other.work_id@
        &&& self.campaign_id@ == other.campaign_id@
        &&& self.objective@ == other.objective@
        &&& self.generation == other.generation
        &&& self.instruction_revision == other.instruction_revision
        &&& self.pool == other.pool
        &&& self.upper_bound == other.upper_bound
    }

    /// Whether two admissions hold the same values.
    pub fn same(&self, other: &Admission) -> (res: bool)
        ensures
            res == self.same_as(other),
    {
        self.work_id == other.work_id && self.campaign_id == other.campaign_id && self.objective
            == other.objective && self.generation == other.generation && self.instruction_revision
            == other.instruction_revision && self.pool == other.pool && self.upper_bound
            == other.upper_bound
    }
}

/// How far the dispatch of admitted work came.
#[derive(Debug)]
pub enum DispatchState {
    Admitted,
    DispatchingUnknown,
    Registered { worker_id: String },
    ConfirmedUnspent,
    Cancelled,
}

impl Clone for DispatchState {
    fn clone(&self) -> (res: Self)
        ensures
            res == *self,
    {
        match self {
            DispatchState::Admitted => DispatchState::Admitted,
            DispatchState::DispatchingUnknown => DispatchState::DispatchingUnknown,
            DispatchState::Registered { worker_id } => DispatchState::Registered {
                worker_id: worker_id.clone(),
            },
            DispatchState::ConfirmedUnspent => DispatchState::ConfirmedUnspent,
            DispatchState::Cancelled => DispatchState::Cancelled,
        }
    }
}

impl DispatchState {
    /// Whether two dispatches came equally far, with the same worker.
    pub open spec fn same_as(&self, other: &DispatchState) -> bool {
        match (self, other) {
            (DispatchState::Admitted, DispatchState::Admitted) => true,
            (DispatchState::DispatchingUnknown, DispatchState::DispatchingUnknown) => true,
            (
                DispatchState::Registered { worker_id: one },
                DispatchState::Registered { worker_id: two },
            ) => one@ == two@,
            (DispatchState::ConfirmedUnspent, DispatchState::ConfirmedUnspent) => true,
            (DispatchState::Cancelled, DispatchState::Cancelled) => true,
            _ => false,
        }
    }

    /// Whether two dispatches came equally far, with the same worker.
    pub fn same(&self, other: &DispatchState) -> (res: bool)
        ensures
            res == self.same_as(other),
    {
        match (self, other) {
            (DispatchState::Admitted, DispatchState::Admitted) => true,
            (DispatchState::DispatchingUnknown, DispatchState::DispatchingUnknown) => true,
            (
                DispatchState::Registered { worker_id: one },
                DispatchState::Registered { worker_id: two },
            ) => *one == *two,
            (DispatchState::ConfirmedUnspent, DispatchState::ConfirmedUnspent) => true,
            (DispatchState::Cancelled, DispatchState::Cancelled) => true,
            _ => false,
        }
    }
}

/// Admitted work: its admission, the allocation that funds it, and how far its
/// dispatch came.
#[derive(Debug)]
pub struct AdmittedWork {
    pub dispatch_id: String,
    pub admission: Admission,
    pub state: DispatchState,
}

impl AdmittedWork {
    /// Whether two pieces of admitted work hold the same values.
    pub open spec fn same_as(&self, other: &AdmittedWork) -> bool {
        &&& self.dispatch_id@ == other.dispatch_id@
        &&& self.admission.same_as(&other.admission)
        &&& self.state.same_as(&other.state)
    }

    /// Whether two pieces of admitted work hold the same values.
    pub fn same(&self, other: &AdmittedWork) -> (res: bool)
        ensures
            res == self.same_as(other),
    {
        self.dispatch_id == other.dispatch_id && self.admission.same(&other.admission)
            && self.state.same(&other.state)
    }
}

impl Clone for AdmittedWork {
    fn clone(&self) -> (res: Self)
        ensures
            res == *self,
    {
        AdmittedWork {
            dispatch_id: self.dispatch_id.clone(),
            admission: self.admission.clone(),
            state: self.state.clone(),
        }
    }
}

} // verus!
