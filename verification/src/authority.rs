//! The permit authority: which grant each capability names, and which
//! capability is the current one of each piece of work.
use std::collections::HashMap;
use vstd::hash_map::StringHashMap;
use vstd::prelude::*;
use crate::errors::PermitError;
use crate::laws;
use crate::model;
use crate::model::{AdmittedWork, RequestReservation, RequestReservationView};
use crate::outside;
use crate::text;

verus! {

broadcast use vstd::std_specs::hash::group_hash_axioms;

/// The capability to spend under one grant. Only issuance makes one; it cannot
/// be copied, written out or read back.
pub struct ModelPermit {
    nonce: u128,
}

impl ModelPermit {
    /// The secret by which the authority knows the capability.
    pub closed spec fn nonce(&self) -> u128 {
        self.nonce
    }

    fn of(nonce: u128) -> (res: ModelPermit)
        ensures
            res.nonce() == nonce,
    {
        ModelPermit { nonce }
    }

    /// A capability under a secret that was drawn for it. It stands for nothing
    /// until a grant is installed under it.
    pub(crate) fn draw() -> (res: ModelPermit)
        ensures
            outside::random_form(res.nonce()),
    {
        ModelPermit { nonce: outside::random_uuid() }
    }

    /// What may be shown of a capability: nothing but that it is one.
    pub fn redacted(&self) -> (res: String)
        ensures
            res@ == "ModelPermit([REDACTED])"@,
    {
        "ModelPermit([REDACTED])".to_owned()
    }
}

/// The launch-side end of the grants of one launch. Closing it denies every
/// grant that names it; the grants stay, for billing and replacement.
pub struct PermitLease {
    id: u64,
    closed: bool,
}

impl PermitLease {
    /// The number by which grants name the lease.
    pub closed spec fn id_spec(&self) -> u64 {
        self.id
    }

    /// Whether the lease has been closed.
    pub closed spec fn closed_spec(&self) -> bool {
        self.closed
    }

    /// The lease, closed.
    pub closed spec fn shut(self) -> PermitLease {
        PermitLease { closed: true, ..self }
    }

    /// Closing a lease closes it, keeps its number, and is for good.
    pub proof fn shut_is_closed(self)
        ensures
            self.shut().closed_spec(),
            self.shut().id_spec() == self.id_spec(),
            self.shut().shut() == self.shut(),
            self.closed_spec() ==> self.shut() == self,
    {
    }

    /// An open lease.
    pub fn open(id: u64) -> (res: PermitLease)
        ensures
            res.id_spec() == id,
            !res.closed_spec(),
    {
        PermitLease { id, closed: false }
    }

    /// Close the lease, for good.
    pub fn close(&mut self)
        ensures
            *final(self) == old(self).shut(),
            final(self).closed_spec(),
            final(self).id_spec() == old(self).id_spec(),
    {
        self.closed = true;
    }

    /// Whether the lease has been closed.
    pub fn is_closed(&self) -> (res: bool)
        ensures
            res == self.closed_spec(),
    {
        self.closed
    }

    /// The number by which grants name the lease.
    pub fn id(&self) -> (res: u64)
        ensures
            res == self.id_spec(),
    {
        self.id
    }
}

/// What a capability stands for.
pub struct Grant {
    /// Public evidence of who reserved, independent of the capability's secret.
    pub owner: String,
    pub request: RequestReservation,
    pub funding: AdmittedWork,
    pub active: bool,
    pub paused: bool,
    /// The lease of the launch that the grant was issued to, if there is one.
    pub lease: Option<u64>,
}

impl Grant {
    /// Whether the grant allows anything new, given whether its lease has been
    /// closed.
    pub open spec fn live(&self, closed: bool) -> bool {
        self.active && !self.paused && !(self.lease is Some && closed)
    }

    /// Whether the grant allows anything new, given whether its lease has been
    /// closed.
    pub fn is_live(&self, closed: bool) -> (res: bool)
        ensures
            res == self.live(closed),
    {
        self.active && !self.paused && !(self.lease.is_some() && closed)
    }
}

impl PermitLease {
    /// Whether this lease, closed, closes a grant: the grant names it.
    pub open spec fn closes_spec(&self, grant: Grant) -> bool {
        grant.lease == Some(self.id_spec()) && self.closed_spec()
    }

    /// Whether this lease, closed, closes a grant: the grant names it.
    pub fn closes(&self, grant: &Grant) -> (res: bool)
        ensures
            res == self.closes_spec(*grant),
    {
        match grant.lease {
            Some(id) => id == self.id && self.closed,
            None => false,
        }
    }
}

/// Every grant of this process, by the secret of its capability, and the
/// current capability of each piece of work.
pub struct PermitState {
    grants: HashMap<u128, Grant>,
    current: StringHashMap<u128>,
}

#[verifier::ext_equal]
pub struct PermitStateView {
    pub grants: Map<u128, Grant>,
    pub current: Map<Seq<char>, u128>,
}

impl View for PermitState {
    type V = PermitStateView;

    closed spec fn view(&self) -> PermitStateView {
        PermitStateView { grants: self.grants@, current: self.current@ }
    }
}

impl PermitStateView {
    pub open spec fn grant(&self, nonce: u128) -> Option<Grant> {
        if self.grants.dom().contains(nonce) {
            Some(self.grants[nonce])
        } else {
            None
        }
    }

    pub open spec fn current_of(&self, work: Seq<char>) -> Option<u128> {
        if self.current.dom().contains(work) {
            Some(self.current[work])
        } else {
            None
        }
    }

    /// Whether the capability of `nonce` allows, now, exactly this request: its
    /// grant is live and for this request, and it is the current one of the work.
    pub open spec fn authorizes(
        &self,
        nonce: u128,
        request: RequestReservation,
        closed: bool,
    ) -> bool {
        &&& self.grants.dom().contains(nonce)
        &&& self.grants[nonce].live(closed)
        &&& self.grants[nonce].request@ == request@
        &&& self.current_of(request.identity.work_id@) == Some(nonce)
    }

    /// One current exact policy per piece of work: the current capability of a
    /// piece of work has a grant for that work, and only current capabilities
    /// are active.
    pub open spec fn well_formed(&self) -> bool {
        &&& forall|work: Seq<char>| #[trigger]
            self.current.dom().contains(work) ==> self.grants.dom().contains(self.current[work])
                && self.grants[self.current[work]].request.identity.work_id@ == work
        &&& forall|nonce: u128| #[trigger]
            self.grants.dom().contains(nonce) && self.grants[nonce].active ==> self.current_of(
                self.grants[nonce].request.identity.work_id@,
            ) == Some(nonce)
    }

    /// The state after the grant of `nonce` lost its activity.
    pub open spec fn deactivated(&self, nonce: u128) -> PermitStateView {
        PermitStateView {
            grants: self.grants.insert(nonce, Grant { active: false, ..self.grants[nonce] }),
            current: self.current,
        }
    }

    /// The state after `grant` became the current one of its work, under `nonce`.
    pub open spec fn installed(&self, nonce: u128, grant: Grant) -> PermitStateView {
        PermitStateView {
            grants: self.grants.insert(nonce, grant),
            current: self.current.insert(grant.request.identity.work_id@, nonce),
        }
    }
}

impl PermitState {
    /// No grants.
    pub fn new() -> (res: PermitState)
        ensures
            res@.grants == Map::<u128, Grant>::empty(),
            res@.current == Map::<Seq<char>, u128>::empty(),
            res@.well_formed(),
    {
        PermitState { grants: HashMap::new(), current: StringHashMap::new() }
    }

    /// The grant that a capability stands for.
    pub fn grant(&self, permit: &ModelPermit) -> (res: Option<&Grant>)
        ensures
            res matches Some(grant) ==> self@.grant(permit.nonce()) == Some(*grant),
            res is None ==> self@.grant(permit.nonce()) is None,
    {
        self.grants.get(&permit.nonce)
    }

    /// Whether a capability is the current one of a piece of work.
    pub fn is_current(&self, work: &str, permit: &ModelPermit) -> (res: bool)
        ensures
            res == (self@.current_of(work@) == Some(permit.nonce())),
    {
        match self.current.get(work) {
            Some(nonce) => *nonce == permit.nonce,
            None => false,
        }
    }

    /// Whether a capability allows, now, exactly this request.
    pub fn is_authorized(
        &self,
        permit: &ModelPermit,
        request: &RequestReservation,
        closed: bool,
    ) -> (res: bool)
        ensures
            res == self@.authorizes(permit.nonce(), *request, closed),
    {
        match self.grant(permit) {
            Some(grant) => grant.is_live(closed) && grant.request.same(request) && self.is_current(
                &request.identity.work_id,
                permit,
            ),
            None => false,
        }
    }

    fn deactivate(&mut self, nonce: u128) -> (res: bool)
        ensures
            res == old(self)@.grants.dom().contains(nonce),
            res ==> final(self)@ == old(self)@.deactivated(nonce),
            !res ==> final(self)@ == old(self)@,
    {
        match self.grants.remove(&nonce) {
            Some(grant) => {
                let mut grant = grant;
                grant.active = false;
                self.grants.insert(nonce, grant);
                true
            },
            None => false,
        }
    }

    fn install(&mut self, nonce: u128, grant: Grant)
        ensures
            final(self)@ == old(self)@.installed(nonce, grant),
    {
        self.current.insert(grant.request.identity.work_id.clone(), nonce);
        self.grants.insert(nonce, grant);
    }
}

/// What the host read before it issues a permit.
pub struct IssueReads {
    /// Whether the request's estimate has an upper bound.
    pub bound: Result<(), String>,
    /// Whether the funding is what the store admitted.
    pub funding: Result<(), String>,
    /// The instruction revision that the store holds as applied.
    pub revision: Result<u64, String>,
}

/// Whether a request stays within what its funding was admitted for.
pub open spec fn scope_matches(request: RequestReservation, funding: AdmittedWork) -> bool {
    let identity = request.identity;
    let admission = funding.admission;
    &&& identity.campaign_id@ == admission.campaign_id@
    &&& identity.work_id@ == admission.work_id@
    &&& identity.generation == admission.generation
    &&& identity.generation != 0
    &&& identity.instruction_revision != 0
    &&& model::pool_of_spec(identity.class) == admission.pool
    &&& text::valid_id(identity.campaign_id@)
    &&& text::valid_id(identity.work_id@)
    &&& text::valid_id(identity.attempt_id@)
}

fn in_scope(request: &RequestReservation, funding: &AdmittedWork) -> (res: bool)
    ensures
        res == scope_matches(*request, *funding),
{
    let identity = &request.identity;
    let admission = &funding.admission;
    identity.campaign_id == admission.campaign_id && identity.work_id == admission.work_id
        && identity.generation == admission.generation && identity.generation != 0
        && identity.instruction_revision != 0 && model::pool_of(identity.class) == admission.pool
        && text::is_valid_id(&identity.campaign_id) && text::is_valid_id(&identity.work_id)
        && text::is_valid_id(&identity.attempt_id)
}

impl PermitStateView {
    /// Why a permit is not issued, if it is not. The first reason counts.
    pub open spec fn issue_refusal(
        &self,
        request: RequestReservation,
        funding: AdmittedWork,
        replace: Option<u128>,
        reads: IssueReads,
    ) -> Option<PermitError> {
        if reads.bound is Err {
            Some(PermitError::Host(reads.bound->Err_0))
        } else if !scope_matches(request, funding) {
            Some(PermitError::ScopeMismatch)
        } else if self.current_of(request.identity.work_id@) != replace {
            Some(PermitError::ReplacementConflict)
        } else if reads.funding is Err {
            Some(PermitError::Host(reads.funding->Err_0))
        } else if reads.revision is Err {
            Some(PermitError::Host(reads.revision->Err_0))
        } else if reads.revision->Ok_0 != request.identity.instruction_revision {
            Some(PermitError::PermitRevisionMismatch)
        } else if replace is Some && !self.grants.dom().contains(replace->0) {
            Some(PermitError::UnknownPermit)
        } else {
            None
        }
    }

    /// The state after a permit was issued under `nonce`: the replaced one, if
    /// any, is inactive, and the new one is current.
    pub open spec fn issued(
        &self,
        replace: Option<u128>,
        nonce: u128,
        grant: Grant,
    ) -> PermitStateView {
        match replace {
            Some(previous) => self.deactivated(previous).installed(nonce, grant),
            None => self.installed(nonce, grant),
        }
    }
}

/// The secret of a capability, where there is one.
pub open spec fn nonce_of(permit: Option<&ModelPermit>) -> Option<u128> {
    match permit {
        Some(permit) => Some(permit.nonce()),
        None => None,
    }
}

/// A grant as it is issued.
pub open spec fn fresh_grant(
    owner: String,
    request: RequestReservation,
    funding: AdmittedWork,
    lease: Option<u64>,
) -> Grant {
    Grant { owner, request, funding, active: true, paused: false, lease }
}

impl PermitState {
    /// Issue a permit under a secret and an owner that were drawn for it. One
    /// current exact policy per piece of work; replacing one takes the current
    /// capability, even a revoked one.
    fn issue_drawn(
        &mut self,
        request: RequestReservation,
        funding: AdmittedWork,
        replace: Option<&ModelPermit>,
        lease: Option<u64>,
        reads: IssueReads,
        nonce: u128,
        owner: String,
    ) -> (res: Result<ModelPermit, PermitError>)
        ensures
            match old(self)@.issue_refusal(request, funding, nonce_of(replace), reads) {
                Some(error) => res == Err::<ModelPermit, _>(error) && final(self)@ == old(self)@,
                None => res matches Ok(permit) && permit.nonce() == nonce && final(self)@ == old(
                    self,
                )@.issued(
                    nonce_of(replace),
                    nonce,
                    fresh_grant(owner, request, funding, lease),
                ),
            },
            old(self)@.well_formed() && (res matches Ok(permit) && !old(
                self,
            )@.grants.dom().contains(permit.nonce())) ==> final(self)@.well_formed(),
    {
        let ghost given = reads;
        if let Err(error) = reads.bound {
            return Err(PermitError::Host(error));
        }
        if !in_scope(&request, &funding) {
            return Err(PermitError::ScopeMismatch);
        }
        let current: Option<u128> = match self.current.get(&request.identity.work_id) {
            Some(current) => Some(*current),
            None => None,
        };
        let replaced: Option<u128> = match replace {
            Some(permit) => Some(permit.nonce),
            None => None,
        };
        if current != replaced {
            return Err(PermitError::ReplacementConflict);
        }
        if let Err(error) = reads.funding {
            return Err(PermitError::Host(error));
        }
        match reads.revision {
            Err(error) => {
                return Err(PermitError::Host(error));
            },
            Ok(revision) => {
                if revision != request.identity.instruction_revision {
                    return Err(PermitError::PermitRevisionMismatch);
                }
            },
        }
        if let Some(previous) = replaced {
            if !self.deactivate(previous) {
                return Err(PermitError::UnknownPermit);
            }
        }
        proof {
            if old(self)@.well_formed() && !old(self)@.grants.dom().contains(nonce) {
                laws::issuing_keeps_one_policy_per_work(
                    old(self)@,
                    request,
                    funding,
                    replaced,
                    given,
                    nonce,
                    fresh_grant(owner, request, funding, lease),
                );
            }
        }
        self.install(nonce, Grant { owner, request, funding, active: true, paused: false, lease });
        Ok(ModelPermit::of(nonce))
    }

    /// Issue a permit: the host's own decision. Issuing allocates no allowance
    /// and reopens no funding. `lease` names the launch that may close it.
    pub fn issue_model_permit(
        &mut self,
        request: RequestReservation,
        funding: AdmittedWork,
        replace: Option<&ModelPermit>,
        lease: Option<u64>,
        reads: IssueReads,
    ) -> (res: Result<ModelPermit, PermitError>)
        ensures
            match old(self)@.issue_refusal(request, funding, nonce_of(replace), reads) {
                Some(error) => res == Err::<ModelPermit, _>(error) && final(self)@ == old(self)@,
                None => res matches Ok(permit) && outside::random_form(permit.nonce()) && exists|
                    owner: String,
                    drawn: u128,
                |
                    owner@ == #[trigger] outside::uuid_form(drawn) && outside::random_form(drawn)
                        && final(self)@ == old(
                        self,
                    )@.issued(
                        nonce_of(replace),
                        permit.nonce(),
                        #[trigger] fresh_grant(owner, request, funding, lease),
                    ),
            },
            old(self)@.well_formed() && (res matches Ok(permit) && !old(
                self,
            )@.grants.dom().contains(permit.nonce())) ==> final(self)@.well_formed(),
    {
        let nonce: u128 = outside::random_uuid();
        let drawn: u128 = outside::random_uuid();
        let owner = outside::uuid_text(drawn);
        assert(owner@ == outside::uuid_form(drawn));
        assert(fresh_grant(owner, request, funding, lease).owner == owner);
        self.issue_drawn(request, funding, replace, lease, reads, nonce, owner)
    }

    /// Issue a permit that no launch can close.
    pub fn host_issue_model_permit(
        &mut self,
        request: RequestReservation,
        funding: AdmittedWork,
        replace: Option<&ModelPermit>,
        reads: IssueReads,
    ) -> (res: Result<ModelPermit, PermitError>)
        ensures
            match old(self)@.issue_refusal(request, funding, nonce_of(replace), reads) {
                Some(error) => res == Err::<ModelPermit, _>(error) && final(self)@ == old(self)@,
                None => res matches Ok(permit) && outside::random_form(permit.nonce()) && exists|
                    owner: String,
                    drawn: u128,
                |
                    owner@ == #[trigger] outside::uuid_form(drawn) && outside::random_form(drawn)
                        && final(self)@ == old(
                        self,
                    )@.issued(
                        nonce_of(replace),
                        permit.nonce(),
                        #[trigger] fresh_grant(owner, request, funding, None),
                    ),
            },
            old(self)@.well_formed() && (res matches Ok(permit) && !old(
                self,
            )@.grants.dom().contains(permit.nonce())) ==> final(self)@.well_formed(),
    {
        self.issue_model_permit(request, funding, replace, None, reads)
    }

    /// Revoke a permit: its grant stays, inactive. Revoking twice is harmless.
    pub fn host_revoke_model_permit(&mut self, permit: &ModelPermit) -> (res: Result<
        (),
        PermitError,
    >)
        ensures
            match old(self)@.grant(permit.nonce()) {
                Some(_) => res is Ok && final(self)@ == old(self)@.deactivated(permit.nonce()),
                None => res == Err::<(), _>(PermitError::UnknownPermit) && final(self)@ == old(
                    self,
                )@,
            },
            old(self)@.well_formed() ==> final(self)@.well_formed(),
    {
        proof {
            if old(self)@.well_formed() && old(self)@.grants.dom().contains(permit.nonce()) {
                laws::revoking_keeps_one_policy_per_work(old(self)@, permit.nonce());
            }
        }
        if self.deactivate(permit.nonce) {
            Ok(())
        } else {
            Err(PermitError::UnknownPermit)
        }
    }
}

impl PermitStateView {
    /// The state after the grant of `nonce` gave way, at a boundary, to one for
    /// `request` under `next`. The new one has its funding and its lease.
    pub open spec fn superseded(
        &self,
        nonce: u128,
        next: u128,
        owner: String,
        request: RequestReservation,
    ) -> PermitStateView {
        let grant = self.grants[nonce];
        self.deactivated(nonce).installed(
            next,
            fresh_grant(owner, request, grant.funding, grant.lease),
        )
    }
}

impl PermitState {
    /// Put a grant for `request` in the place of a permit's grant.
    pub(crate) fn supersede(
        &mut self,
        permit: &ModelPermit,
        next: &ModelPermit,
        owner: String,
        request: RequestReservation,
    ) -> (res: Result<(), PermitError>)
        ensures
            match old(self)@.grant(permit.nonce()) {
                None => res == Err::<(), _>(PermitError::UnknownPermit) && final(self)@ == old(
                    self,
                )@,
                Some(_) => res is Ok && final(self)@ == old(self)@.superseded(
                    permit.nonce(),
                    next.nonce(),
                    owner,
                    request,
                ),
            },
    {
        let (funding, lease) = match self.grants.get(&permit.nonce) {
            None => {
                return Err(PermitError::UnknownPermit);
            },
            Some(grant) => (grant.funding.clone(), grant.lease),
        };
        self.deactivate(permit.nonce);
        self.install(
            next.nonce,
            Grant { owner, request, funding, active: true, paused: false, lease },
        );
        Ok(())
    }
}

impl PermitStateView {
    /// Which capability a launch takes over from: none for a launch outside a
    /// typed attempt; for one inside, the current one of the work, if there is
    /// one, provided that its own launch has closed.
    pub open spec fn launch_replaces(
        &self,
        work: Seq<char>,
        typed: bool,
        prior_closed: bool,
    ) -> Result<Option<u128>, PermitError> {
        if !typed {
            Ok(None)
        } else {
            match self.current_of(work) {
                None => Ok(None),
                Some(nonce) => match self.grant(nonce) {
                    None => Err(PermitError::Protocol),
                    Some(grant) => if grant.lease is Some && prior_closed {
                        Ok(Some(nonce))
                    } else {
                        Err(PermitError::Protocol)
                    },
                },
            }
        }
    }
}

impl PermitState {
    /// The lease that the current grant of a piece of work names, if there is
    /// such a grant and it names one.
    pub fn current_lease(&self, work: &str) -> (res: Option<u64>)
        ensures
            res == match self@.current_of(work@) {
                None => None::<u64>,
                Some(nonce) => match self@.grant(nonce) {
                    None => None,
                    Some(grant) => grant.lease,
                },
            },
    {
        match self.current.get(work) {
            None => None,
            Some(nonce) => match self.grants.get(nonce) {
                None => None,
                Some(grant) => grant.lease,
            },
        }
    }

    /// Issue the permit of a launch of `work`, under the launch's own lease.
    /// `typed` says that the launch belongs to a typed attempt, `prior_closed`
    /// whether the lease that the current grant of the work names was closed.
    pub fn issue_for_launch(
        &mut self,
        request: RequestReservation,
        funding: AdmittedWork,
        work: &str,
        typed: bool,
        prior_closed: bool,
        lease: u64,
        reads: IssueReads,
    ) -> (res: Result<ModelPermit, PermitError>)
        ensures
            match old(self)@.launch_replaces(work@, typed, prior_closed) {
                Err(error) => res == Err::<ModelPermit, _>(error) && final(self)@ == old(self)@,
                Ok(replace) => match old(self)@.issue_refusal(request, funding, replace, reads) {
                    Some(error) => res == Err::<ModelPermit, _>(error) && final(self)@ == old(
                        self,
                    )@,
                    None => res matches Ok(permit) && outside::random_form(permit.nonce()) && exists|
                        owner: String,
                        drawn: u128,
                    |
                        owner@ == #[trigger] outside::uuid_form(drawn) && outside::random_form(
                            drawn,
                        ) && final(self)@ == old(
                            self,
                        )@.issued(
                            replace,
                            permit.nonce(),
                            #[trigger] fresh_grant(owner, request, funding, Some(lease)),
                        ),
                },
            },
            old(self)@.well_formed() && (res matches Ok(permit) && !old(
                self,
            )@.grants.dom().contains(permit.nonce())) ==> final(self)@.well_formed(),
    {
        let mut replacement: Option<ModelPermit> = None;
        if typed {
            if let Some(nonce) = self.current.get(work) {
                match self.grants.get(nonce) {
                    None => {
                        return Err(PermitError::Protocol);
                    },
                    Some(grant) => {
                        if !(grant.lease.is_some() && prior_closed) {
                            return Err(PermitError::Protocol);
                        }
                    },
                }
                replacement = Some(ModelPermit::of(*nonce));
            }
        }
        match &replacement {
            Some(previous) => self.issue_model_permit(
                request,
                funding,
                Some(previous),
                Some(lease),
                reads,
            ),
            None => self.issue_model_permit(request, funding, None, Some(lease), reads),
        }
    }
}

impl PermitStateView {
    /// The state after the grant of `nonce` was paused, or was not any more.
    pub open spec fn with_pause(&self, nonce: u128, paused: bool) -> PermitStateView {
        PermitStateView {
            grants: self.grants.insert(nonce, Grant { paused, ..self.grants[nonce] }),
            current: self.current,
        }
    }

    /// Whether the capability of `nonce` is that of a worker that waits: active,
    /// paused, under an open lease, and the current one of `work`.
    pub open spec fn suspended(&self, nonce: u128, work: Seq<char>, closed: bool) -> bool {
        &&& self.grants.dom().contains(nonce)
        &&& self.grants[nonce].active
        &&& self.grants[nonce].paused
        &&& !(self.grants[nonce].lease is Some && closed)
        &&& self.current_of(work) == Some(nonce)
    }
}

impl PermitState {
    /// Whether a capability is that of a worker that waits.
    pub fn is_suspended(&self, permit: &ModelPermit, work: &str, closed: bool) -> (res: bool)
        ensures
            res == self@.suspended(permit.nonce(), work@, closed),
    {
        match self.grant(permit) {
            Some(grant) => grant.active && grant.paused && !(grant.lease.is_some() && closed)
                && self.is_current(work, permit),
            None => false,
        }
    }

    /// Pause the grant of a permit, or let it go on.
    pub(crate) fn set_paused(&mut self, permit: &ModelPermit, paused: bool)
        ensures
            final(self)@ == if old(self)@.grants.dom().contains(permit.nonce()) {
                old(self)@.with_pause(permit.nonce(), paused)
            } else {
                old(self)@
            },
            old(self)@.well_formed() ==> final(self)@.well_formed(),
    {
        proof {
            if old(self)@.well_formed() && old(self)@.grants.dom().contains(permit.nonce()) {
                laws::pausing_keeps_one_policy_per_work(old(self)@, permit.nonce(), paused);
            }
        }
        match self.grants.remove(&permit.nonce) {
            Some(grant) => {
                let mut grant = grant;
                grant.paused = paused;
                self.grants.insert(permit.nonce, grant);
            },
            None => {},
        }
    }
}

} // verus!
