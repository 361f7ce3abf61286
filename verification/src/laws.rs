//! What holds of the authority as a whole, whatever is asked of it and in
//! whatever order.
use vstd::prelude::*;
use crate::authority;
use crate::authority::{Grant, IssueReads, PermitLease, PermitStateView};
use crate::boundary;
use crate::boundary::BoundaryReads;
use crate::context;
use crate::context::{ContextReads, WorkContextSnapshot};
use crate::control;
use crate::control::{ControlRequest, ControlStep, MonitorScope, TodoScope};
use crate::dispatch;
use crate::dispatch::{DispatchReads, DispatchRecord};
use crate::errors::PermitError;
use crate::launch;
use crate::launch::{ClaimReads, ExecutionRecord, PrepareReads, WorkRequest};
use crate::ledger::Ledger;
use crate::model;
use crate::model::{AdmittedWork, RequestReservation, WorkIdentity};
use crate::outside;
use crate::upload;
use crate::wait;
use crate::web;

verus! {

/// Issuing a permit under a secret that no grant has keeps one current exact
/// policy per piece of work.
pub proof fn issuing_keeps_one_policy_per_work(
    state: PermitStateView,
    request: RequestReservation,
    funding: AdmittedWork,
    replace: Option<u128>,
    reads: IssueReads,
    nonce: u128,
    grant: Grant,
)
    requires
        state.well_formed(),
        state.issue_refusal(request, funding, replace, reads) is None,
        !state.grants.dom().contains(nonce),
        grant.request == request,
    ensures
        state.issued(replace, nonce, grant).well_formed(),
{
    let after = state.issued(replace, nonce, grant);
    let work = request.identity.work_id@;
    assert forall|w: Seq<char>| #[trigger]
        after.current.dom().contains(w) implies after.grants.dom().contains(after.current[w])
        && after.grants[after.current[w]].request.identity.work_id@ == w by {
        if w != work {
            assert(state.current.dom().contains(w));
            assert(state.grants.dom().contains(state.current[w]));
        }
    }
    assert forall|n: u128| #[trigger]
        after.grants.dom().contains(n) && after.grants[n].active implies after.current_of(
        after.grants[n].request.identity.work_id@,
    ) == Some(n) by {
        if n != nonce {
            assert(state.grants.dom().contains(n));
            assert(state.grants[n].active);
            assert(state.current_of(state.grants[n].request.identity.work_id@) == Some(n));
        }
    }
}

/// Revoking a permit keeps one current exact policy per piece of work.
pub proof fn revoking_keeps_one_policy_per_work(state: PermitStateView, nonce: u128)
    requires
        state.well_formed(),
        state.grants.dom().contains(nonce),
    ensures
        state.deactivated(nonce).well_formed(),
{
    let after = state.deactivated(nonce);
    assert forall|w: Seq<char>| #[trigger]
        after.current.dom().contains(w) implies after.grants.dom().contains(after.current[w])
        && after.grants[after.current[w]].request.identity.work_id@ == w by {
        assert(state.current.dom().contains(w));
    }
    assert forall|n: u128| #[trigger]
        after.grants.dom().contains(n) && after.grants[n].active implies after.current_of(
        after.grants[n].request.identity.work_id@,
    ) == Some(n) by {
        assert(state.grants.dom().contains(n));
    }
}

/// Putting a grant for the same work in the place of the current one, under a
/// secret that no grant has, keeps one current exact policy per piece of work.
pub proof fn superseding_keeps_one_policy_per_work(
    state: PermitStateView,
    nonce: u128,
    next: u128,
    owner: String,
    request: RequestReservation,
)
    requires
        state.well_formed(),
        state.grants.dom().contains(nonce),
        state.grants[nonce].request.identity.work_id@ == request.identity.work_id@,
        state.current_of(request.identity.work_id@) == Some(nonce),
        !state.grants.dom().contains(next),
    ensures
        state.superseded(nonce, next, owner, request).well_formed(),
{
    let after = state.superseded(nonce, next, owner, request);
    let work = request.identity.work_id@;
    assert forall|w: Seq<char>| #[trigger]
        after.current.dom().contains(w) implies after.grants.dom().contains(after.current[w])
        && after.grants[after.current[w]].request.identity.work_id@ == w by {
        if w != work {
            assert(state.current.dom().contains(w));
        }
    }
    assert forall|n: u128| #[trigger]
        after.grants.dom().contains(n) && after.grants[n].active implies after.current_of(
        after.grants[n].request.identity.work_id@,
    ) == Some(n) by {
        if n != next {
            assert(state.grants.dom().contains(n));
        }
    }
}

/// Moving a permit to a new revision, under a secret that no grant has, keeps one
/// current exact policy per piece of work.
pub proof fn boundaries_keep_one_policy_per_work(
    state: PermitStateView,
    nonce: u128,
    request: RequestReservation,
    revision: u64,
    closed: bool,
    next: u128,
    owner: String,
)
    requires
        state.well_formed(),
        state.authorizes(nonce, request, closed),
        !state.grants.dom().contains(next),
    ensures
        state.superseded(
            nonce,
            next,
            owner,
            boundary::at_revision(request, revision),
        ).well_formed(),
{
    assert(state.grants[nonce].request@.identity.work_id == request@.identity.work_id);
    superseding_keeps_one_policy_per_work(
        state,
        nonce,
        next,
        owner,
        boundary::at_revision(request, revision),
    );
}

/// Pausing a permit, or letting it go on, keeps one current exact policy per
/// piece of work.
pub proof fn pausing_keeps_one_policy_per_work(state: PermitStateView, nonce: u128, paused: bool)
    requires
        state.well_formed(),
        state.grants.dom().contains(nonce),
    ensures
        state.with_pause(nonce, paused).well_formed(),
{
    let after = state.with_pause(nonce, paused);
    assert forall|w: Seq<char>| #[trigger]
        after.current.dom().contains(w) implies after.grants.dom().contains(after.current[w])
        && after.grants[after.current[w]].request.identity.work_id@ == w by {
        assert(state.current.dom().contains(w));
    }
    assert forall|n: u128| #[trigger]
        after.grants.dom().contains(n) && after.grants[n].active implies after.current_of(
        after.grants[n].request.identity.work_id@,
    ) == Some(n) by {
        assert(state.grants.dom().contains(n));
    }
}

/// At most one capability of a piece of work is active.
pub proof fn one_active_permit_per_work(state: PermitStateView, one: u128, two: u128)
    requires
        state.well_formed(),
        state.grants.dom().contains(one),
        state.grants.dom().contains(two),
        state.grants[one].active,
        state.grants[two].active,
        state.grants[one].request.identity.work_id@ == state.grants[two].request.identity.work_id@,
    ensures
        one == two,
{
    assert(state.current_of(state.grants[one].request.identity.work_id@) == Some(one));
    assert(state.current_of(state.grants[two].request.identity.work_id@) == Some(two));
}

/// Replacing a permit takes the current capability: with any other one, or with
/// none where there is one, nothing is issued.
pub proof fn replacing_takes_the_current_capability(
    state: PermitStateView,
    request: RequestReservation,
    funding: AdmittedWork,
    replace: Option<u128>,
    reads: IssueReads,
)
    requires
        replace != state.current_of(request.identity.work_id@),
    ensures
        state.issue_refusal(request, funding, replace, reads) is Some,
{
}

/// A revoked capability replaces as well as an active one.
pub proof fn a_revoked_capability_still_replaces(
    state: PermitStateView,
    request: RequestReservation,
    funding: AdmittedWork,
    replace: Option<u128>,
    reads: IssueReads,
    revoked: u128,
)
    requires
        state.grants.dom().contains(revoked),
    ensures
        state.deactivated(revoked).issue_refusal(request, funding, replace, reads)
            == state.issue_refusal(request, funding, replace, reads),
{
    assert(state.deactivated(revoked).grants.dom() =~= state.grants.dom());
}

/// What is kept of a grant, whatever happens: who reserved, what for, on whose
/// funding, and for which launch.
pub open spec fn same_evidence(before: Grant, after: Grant) -> bool {
    &&& after.owner == before.owner
    &&& after.request == before.request
    &&& after.funding == before.funding
    &&& after.lease == before.lease
}

/// No grant is lost, none loses its evidence, and none that was inactive is
/// active again.
pub open spec fn history_kept(before: PermitStateView, after: PermitStateView) -> bool {
    forall|n: u128| #[trigger]
        before.grants.dom().contains(n) ==> after.grants.dom().contains(n) && same_evidence(
            before.grants[n],
            after.grants[n],
        ) && (after.grants[n].active ==> before.grants[n].active)
}

/// Issuing under a secret that no grant has, revoking, moving to a new revision
/// and pausing all keep the history of grants: what was revoked or replaced never
/// lives again.
pub proof fn revoked_permits_never_live_again(
    state: PermitStateView,
    nonce: u128,
    fresh: u128,
    replace: Option<u128>,
    grant: Grant,
    owner: String,
    request: RequestReservation,
    paused: bool,
)
    requires
        state.grants.dom().contains(nonce),
        replace is Some ==> state.grants.dom().contains(replace->0),
        !state.grants.dom().contains(fresh),
    ensures
        history_kept(state, state.issued(replace, fresh, grant)),
        history_kept(state, state.deactivated(nonce)),
        history_kept(state, state.superseded(nonce, fresh, owner, request)),
        history_kept(state, state.with_pause(nonce, paused)),
{
}

/// A permit that was revoked, that is paused, or whose launch has closed allows
/// nothing new: no request, no reservation, no claim.
pub proof fn fenced_permits_allow_nothing_new(
    state: PermitStateView,
    nonce: u128,
    request: RequestReservation,
    closed: bool,
    claim: bool,
    reads: DispatchReads,
)
    requires
        state.grants.dom().contains(nonce),
        !state.grants[nonce].active || state.grants[nonce].paused || state.grants[nonce].lease is Some
            && closed,
    ensures
        !state.authorizes(nonce, request, closed),
        dispatch::dispatch_refusal(state.grant(nonce), request, claim, closed, reads) == Some(
            PermitError::RevokedOrMismatched,
        ),
{
}

/// Closing a lease fences every grant that names it, the one that took over at a
/// boundary as well: each allows something exactly as long as it would have
/// under an open lease, and nothing once it is closed.
pub proof fn closing_a_lease_fences_its_grants(
    state: PermitStateView,
    lease: PermitLease,
    nonce: u128,
    next: u128,
    owner: String,
    moved: RequestReservation,
    request: RequestReservation,
)
    requires
        state.grants.dom().contains(nonce),
        state.grants[nonce].lease == Some(lease.id_spec()),
    ensures
        lease.closed_spec() ==> !state.authorizes(
            nonce,
            request,
            lease.closes_spec(state.grants[nonce]),
        ),
        ({
            let after = state.superseded(nonce, next, owner, moved);
            lease.closed_spec() ==> !after.authorizes(
                next,
                request,
                lease.closes_spec(after.grants[next]),
            )
        }),
        !lease.closed_spec() ==> state.authorizes(
            nonce,
            request,
            lease.closes_spec(state.grants[nonce]),
        ) == state.authorizes(nonce, request, false),
{
}

/// A capability that this authority never issued allows nothing.
pub proof fn unknown_permits_allow_nothing(
    state: PermitStateView,
    nonce: u128,
    request: RequestReservation,
    closed: bool,
    claim: bool,
    reads: DispatchReads,
)
    requires
        !state.grants.dom().contains(nonce),
    ensures
        !state.authorizes(nonce, request, closed),
        dispatch::dispatch_refusal(state.grant(nonce), request, claim, closed, reads) == Some(
            PermitError::UnknownModelPermit,
        ),
{
}

/// A permit allows exactly its own request: one that differs in any field is
/// refused.
pub proof fn any_other_request_is_refused(
    state: PermitStateView,
    nonce: u128,
    request: RequestReservation,
    closed: bool,
    claim: bool,
    reads: DispatchReads,
)
    requires
        state.grants.dom().contains(nonce),
        state.grants[nonce].request@ != request@,
    ensures
        !state.authorizes(nonce, request, closed),
        dispatch::dispatch_refusal(state.grant(nonce), request, claim, closed, reads) == Some(
            PermitError::RevokedOrMismatched,
        ),
{
}

/// Revoking, replacing, pausing and closing fence new requests, not the billing
/// of earlier ones: whatever kept a grant's evidence bills as before.
pub proof fn billing_outlives_the_permit(
    before: PermitStateView,
    after: PermitStateView,
    nonce: u128,
    receipt: Seq<char>,
    record: Result<Option<DispatchRecord>, String>,
)
    requires
        before.grants.dom().contains(nonce),
        history_kept(before, after),
    ensures
        dispatch::reconcile_refusal(after.grant(nonce), receipt, record)
            == dispatch::reconcile_refusal(before.grant(nonce), receipt, record),
        after.grants[nonce].request == before.grants[nonce].request,
        after.grants[nonce].funding == before.grants[nonce].funding,
{
}

/// Letting a paused permit go on undoes its pause, and nothing else.
pub proof fn resuming_undoes_pausing(state: PermitStateView, nonce: u128)
    requires
        state.grants.dom().contains(nonce),
        !state.grants[nonce].paused,
    ensures
        state.with_pause(nonce, true).with_pause(nonce, false) == state,
{
    let round = state.with_pause(nonce, true).with_pause(nonce, false);
    assert(round.grants =~= state.grants);
}

/// At a boundary the permit of the old revision gives way: the new one has its
/// funding and its lease, allows its own request, and the old one allows nothing.
pub proof fn a_boundary_moves_the_authority(
    state: PermitStateView,
    nonce: u128,
    request: RequestReservation,
    revision: u64,
    closed: bool,
    next: u128,
    owner: String,
)
    requires
        state.authorizes(nonce, request, closed),
        next != nonce,
    ensures
        ({
            let moved = boundary::at_revision(request, revision);
            let after = state.superseded(nonce, next, owner, moved);
            &&& after.authorizes(next, moved, closed)
            &&& after.grants[next].funding == state.grants[nonce].funding
            &&& after.grants[next].lease == state.grants[nonce].lease
            &&& forall|any: RequestReservation| !#[trigger] after.authorizes(nonce, any, closed)
        }),
{
}

/// The escape of a character tells where it ends, and which character it is.
proof fn escapes_are_told_apart(one: char, two: char, after_one: Seq<char>, after_two: Seq<char>)
    requires
        outside::json_char(one) + after_one == outside::json_char(two) + after_two,
    ensures
        one == two,
        after_one == after_two,
{
    let left = outside::json_char(one) + after_one;
    let right = outside::json_char(two) + after_two;
    assert(left[0] == right[0]);
    if left[0] == '\\' {
        assert(left[1] == right[1]);
        if left[1] == 'u' {
            assert(left[4] == right[4]);
            assert(left[5] == right[5]);
        }
    }
    assert(one == two);
    let len = outside::json_char(one).len() as int;
    assert(after_one == left.subrange(len, left.len() as int));
    assert(after_two == right.subrange(len, right.len() as int));
}

/// A quoted string tells where it ends, and which string it is.
proof fn quoted_strings_are_told_apart(
    one: Seq<char>,
    two: Seq<char>,
    after_one: Seq<char>,
    after_two: Seq<char>,
)
    requires
        outside::json_escaped(one) + seq!['"'] + after_one == outside::json_escaped(two) + seq!['"']
            + after_two,
    ensures
        one == two,
        after_one == after_two,
    decreases one.len(),
{
    let left = outside::json_escaped(one) + seq!['"'] + after_one;
    let right = outside::json_escaped(two) + seq!['"'] + after_two;
    assert(left[0] == right[0]);
    if one.len() == 0 || two.len() == 0 {
        if one.len() > 0 {
            assert(left[0] == outside::json_char(one[0])[0]);
        }
        if two.len() > 0 {
            assert(right[0] == outside::json_char(two[0])[0]);
        }
        assert(one == two);
        assert(after_one == left.subrange(1, left.len() as int));
        assert(after_two == right.subrange(1, right.len() as int));
    } else {
        let rest_one = one.subrange(1, one.len() as int);
        let rest_two = two.subrange(1, two.len() as int);
        let tail_one = outside::json_escaped(rest_one) + seq!['"'] + after_one;
        let tail_two = outside::json_escaped(rest_two) + seq!['"'] + after_two;
        assert(left == outside::json_char(one[0]) + tail_one);
        assert(right == outside::json_char(two[0]) + tail_two);
        escapes_are_told_apart(one[0], two[0], tail_one, tail_two);
        quoted_strings_are_told_apart(rest_one, rest_two, after_one, after_two);
        assert(one == seq![one[0]] + rest_one);
        assert(two == seq![two[0]] + rest_two);
    }
}

/// Two requests share a record only where both their allocation and their id are
/// the same; so do two launches of typed attempts.
pub proof fn keys_are_told_apart(
    dispatch_one: Seq<char>,
    id_one: Seq<char>,
    dispatch_two: Seq<char>,
    id_two: Seq<char>,
)
    requires
        dispatch::dispatch_key(dispatch_one, id_one) == dispatch::dispatch_key(dispatch_two, id_two),
    ensures
        dispatch_one == dispatch_two,
        id_one == id_two,
{
    let close: Seq<char> = seq![']'];
    let tail_one = outside::json_escaped(id_one) + seq!['"'] + close;
    let tail_two = outside::json_escaped(id_two) + seq!['"'] + close;
    let next_one = seq![',', '"'] + tail_one;
    let next_two = seq![',', '"'] + tail_two;
    let left = dispatch::dispatch_key(dispatch_one, id_one);
    let right = dispatch::dispatch_key(dispatch_two, id_two);
    let body_one = outside::json_escaped(dispatch_one) + seq!['"'] + next_one;
    let body_two = outside::json_escaped(dispatch_two) + seq!['"'] + next_two;
    assert(left == seq!['[', '"'] + body_one);
    assert(right == seq!['[', '"'] + body_two);
    assert(body_one == left.subrange(2, left.len() as int));
    assert(body_two == right.subrange(2, right.len() as int));
    quoted_strings_are_told_apart(dispatch_one, dispatch_two, next_one, next_two);
    assert(tail_one == next_one.subrange(2, next_one.len() as int));
    assert(tail_two == next_two.subrange(2, next_two.len() as int));
    quoted_strings_are_told_apart(id_one, id_two, close, close);
}

/// What stands under a request's key once an allowed call is done: `receipt` is
/// that of the reservation, where the call made one.
pub open spec fn stored_after(
    grant: Grant,
    request: RequestReservation,
    claim: bool,
    reads: DispatchReads,
    receipt: String,
) -> DispatchRecord {
    match reads.prior->Ok_0 {
        None => dispatch::first_record(grant.owner, request, receipt, claim),
        Some(prior) => DispatchRecord { claimed: prior.claimed || claim, ..prior },
    }
}

/// A request is dispatched at most once. Once a claim went through, every later
/// claim on what then stands under the key is refused: by any permit, under any
/// authority, after any restart.
pub proof fn a_request_is_dispatched_at_most_once(
    first: Grant,
    request: RequestReservation,
    closed: bool,
    reads: DispatchReads,
    receipt: String,
    later: Option<Grant>,
    later_request: RequestReservation,
    later_closed: bool,
    later_reads: DispatchReads,
)
    requires
        dispatch::dispatch_refusal(Some(first), request, true, closed, reads) is None,
        later_reads.prior == Ok::<_, String>(
            Some(stored_after(first, request, true, reads, receipt)),
        ),
    ensures
        dispatch::dispatch_refusal(later, later_request, true, later_closed, later_reads) is Some,
{
}

/// A claim is for good: no later call makes a claimed request unclaimed.
pub proof fn claims_are_never_undone(
    grant: Grant,
    request: RequestReservation,
    claim: bool,
    reads: DispatchReads,
    receipt: String,
    prior: DispatchRecord,
)
    requires
        reads.prior == Ok::<_, String>(Some(prior)),
        prior.claimed,
    ensures
        stored_after(grant, request, claim, reads, receipt).claimed,
{
}

/// Reserving twice is reserving once: the second time leaves the record, and so
/// the receipt, as it is; and where the host reads nothing that refuses it, the
/// second time is allowed whenever the first was.
pub proof fn reserving_is_idempotent(
    grant: Grant,
    request: RequestReservation,
    closed: bool,
    reads: DispatchReads,
    receipt: String,
    again: DispatchReads,
    unused: String,
)
    requires
        dispatch::dispatch_refusal(Some(grant), request, false, closed, reads) is None,
        again.funding is Ok,
        again.revision == reads.revision,
        again.prior == Ok::<_, String>(Some(stored_after(grant, request, false, reads, receipt))),
    ensures
        dispatch::dispatch_refusal(Some(grant), request, false, closed, again) is None,
        stored_after(grant, request, false, again, unused) == stored_after(
            grant,
            request,
            false,
            reads,
            receipt,
        ),
{
}

/// A reservation is no permission to execute, and a permit claims its own ones
/// only: what another owner reserved is refused.
pub proof fn only_the_owner_claims(
    grant: Grant,
    request: RequestReservation,
    closed: bool,
    reads: DispatchReads,
    prior: DispatchRecord,
)
    requires
        reads.prior == Ok::<_, String>(Some(prior)),
        prior.owner@ != grant.owner@,
    ensures
        dispatch::dispatch_refusal(Some(grant), request, true, closed, reads) is Some,
{
}

/// A request id names one request: with another one under it, nothing is
/// reserved, claimed or billed.
pub proof fn a_request_id_names_one_request(
    grant: Grant,
    request: RequestReservation,
    claim: bool,
    closed: bool,
    reads: DispatchReads,
    receipt: Seq<char>,
    prior: DispatchRecord,
)
    requires
        reads.prior == Ok::<_, String>(Some(prior)),
        prior.request@ != request@,
    ensures
        dispatch::dispatch_refusal(Some(grant), request, claim, closed, reads) is Some,
        prior.request@ != grant.request@ ==> dispatch::reconcile_refusal(
            Some(grant),
            receipt,
            reads.prior,
        ) == Some(PermitError::ReconciliationMismatch),
{
}

/// A hold that was cancelled or settled, or whose allocation or campaign was
/// closed or paused, is never dispatched.
pub proof fn dead_holds_are_not_dispatched(
    grant: Grant,
    request: RequestReservation,
    closed: bool,
    reads: DispatchReads,
    prior: DispatchRecord,
    ledger: Ledger,
)
    requires
        reads.prior == Ok::<_, String>(Some(prior)),
        reads.ledger == Ok::<_, String>(ledger),
        match ledger@.hold(prior.receipt@) {
            None => true,
            Some(hold) => !dispatch::hold_dispatchable(ledger, hold, grant.funding.dispatch_id@),
        },
    ensures
        dispatch::dispatch_refusal(Some(grant), request, true, closed, reads) is Some,
{
}

/// What a boundary reserves can be claimed by the permit that it leaves in
/// charge, and by no other owner's: the record names that permit's owner.
pub proof fn a_boundary_reserves_for_its_own_permit(
    state: PermitStateView,
    nonce: u128,
    next: u128,
    owner: String,
    request: RequestReservation,
    receipt: String,
)
    requires
        state.grants.dom().contains(nonce),
    ensures
        dispatch::first_record(owner, request, receipt, false).owner == state.superseded(
            nonce,
            next,
            owner,
            request,
        ).grants[next].owner,
        dispatch::first_record(owner, request, receipt, false).request == state.superseded(
            nonce,
            next,
            owner,
            request,
        ).grants[next].request,
        !dispatch::first_record(owner, request, receipt, false).claimed,
{
}

/// A change of the authority: what issuing, revoking, a boundary, a wait and its
/// end do to it.
pub enum Change {
    Issue {
        request: RequestReservation,
        funding: AdmittedWork,
        replace: Option<u128>,
        reads: IssueReads,
        nonce: u128,
        owner: String,
        lease: Option<u64>,
    },
    Revoke { nonce: u128 },
    Move {
        nonce: u128,
        request: RequestReservation,
        revision: u64,
        closed: bool,
        next: u128,
        owner: String,
    },
    Pause { nonce: u128, paused: bool },
}

impl Change {
    /// Whether a change is one that the library makes, under a secret that was
    /// never drawn before where it draws one.
    pub open spec fn possible(self, state: PermitStateView) -> bool {
        match self {
            Change::Issue { request, funding, replace, reads, nonce, .. } => state.issue_refusal(
                request,
                funding,
                replace,
                reads,
            ) is None && !state.grants.dom().contains(nonce),
            Change::Revoke { nonce } => state.grants.dom().contains(nonce),
            Change::Move { nonce, request, closed, next, .. } => state.authorizes(
                nonce,
                request,
                closed,
            ) && !state.grants.dom().contains(next),
            Change::Pause { nonce, .. } => state.grants.dom().contains(nonce),
        }
    }

    /// The authority after a change.
    pub open spec fn apply(self, state: PermitStateView) -> PermitStateView {
        match self {
            Change::Issue { request, funding, replace, nonce, owner, lease, .. } => state.issued(
                replace,
                nonce,
                authority::fresh_grant(owner, request, funding, lease),
            ),
            Change::Revoke { nonce } => state.deactivated(nonce),
            Change::Move { nonce, request, revision, next, owner, .. } => state.superseded(
                nonce,
                next,
                owner,
                boundary::at_revision(request, revision),
            ),
            Change::Pause { nonce, paused } => state.with_pause(nonce, paused),
        }
    }
}

/// The authority after some changes.
pub open spec fn changed(start: PermitStateView, changes: Seq<Change>) -> PermitStateView
    decreases changes.len(),
{
    if changes.len() == 0 {
        start
    } else {
        changes.last().apply(changed(start, changes.drop_last()))
    }
}

/// Whether each change was possible when it was made.
pub open spec fn all_possible(start: PermitStateView, changes: Seq<Change>) -> bool
    decreases changes.len(),
{
    changes.len() > 0 ==> all_possible(start, changes.drop_last()) && changes.last().possible(
        changed(start, changes.drop_last()),
    )
}

/// A change keeps one current exact policy per piece of work, and the history of
/// grants.
pub proof fn a_change_keeps_the_promises(state: PermitStateView, change: Change)
    requires
        state.well_formed(),
        change.possible(state),
    ensures
        change.apply(state).well_formed(),
        history_kept(state, change.apply(state)),
{
    match change {
        Change::Issue { request, funding, replace, reads, nonce, owner, lease } => {
            let grant = authority::fresh_grant(owner, request, funding, lease);
            issuing_keeps_one_policy_per_work(
                state,
                request,
                funding,
                replace,
                reads,
                nonce,
                grant,
            );
        },
        Change::Revoke { nonce } => {
            revoking_keeps_one_policy_per_work(state, nonce);
        },
        Change::Move { nonce, request, revision, closed, next, owner } => {
            boundaries_keep_one_policy_per_work(
                state,
                nonce,
                request,
                revision,
                closed,
                next,
                owner,
            );
        },
        Change::Pause { nonce, paused } => {
            pausing_keeps_one_policy_per_work(state, nonce, paused);
        },
    }
}

/// Whatever is issued, revoked, moved and paused, in whatever order: there is one
/// current exact policy per piece of work, no grant is lost or changes what it
/// stands for, and none that was revoked or replaced lives again.
pub proof fn the_authority_keeps_its_promises(start: PermitStateView, changes: Seq<Change>)
    requires
        start.well_formed(),
        all_possible(start, changes),
    ensures
        changed(start, changes).well_formed(),
        history_kept(start, changed(start, changes)),
    decreases changes.len(),
{
    if changes.len() > 0 {
        let before = changed(start, changes.drop_last());
        the_authority_keeps_its_promises(start, changes.drop_last());
        a_change_keeps_the_promises(before, changes.last());
        let after = changed(start, changes);
        assert forall|n: u128| #[trigger]
            start.grants.dom().contains(n) implies after.grants.dom().contains(n) && same_evidence(
            start.grants[n],
            after.grants[n],
        ) && (after.grants[n].active ==> start.grants[n].active) by {
            assert(before.grants.dom().contains(n));
        }
    }
}

/// A request of any revision but the one that the host has applied is refused, so
/// is a permit for one.
pub proof fn only_the_applied_revision_counts(
    state: PermitStateView,
    nonce: u128,
    request: RequestReservation,
    funding: AdmittedWork,
    replace: Option<u128>,
    claim: bool,
    closed: bool,
    reads: DispatchReads,
    issue_reads: IssueReads,
    applied: u64,
)
    requires
        reads.revision == Ok::<_, String>(applied),
        issue_reads.revision == Ok::<_, String>(applied),
        request.identity.instruction_revision != applied,
    ensures
        dispatch::dispatch_refusal(state.grant(nonce), request, claim, closed, reads) is Some,
        state.issue_refusal(request, funding, replace, issue_reads) is Some,
{
}

/// A boundary moves a permit's revision, and nothing else of its request: not
/// whose it is, its generation, its class or its price.
pub proof fn boundaries_move_only_the_revision(request: RequestReservation, revision: u64)
    ensures
        ({
            let moved = boundary::at_revision(request, revision);
            &&& moved.estimate == request.estimate
            &&& moved.identity.campaign_id == request.identity.campaign_id
            &&& moved.identity.work_id == request.identity.work_id
            &&& moved.identity.attempt_id == request.identity.attempt_id
            &&& moved.identity.generation == request.identity.generation
            &&& moved.identity.class == request.identity.class
            &&& boundary::at_revision(moved, request.identity.instruction_revision) == request
        }),
{
}

/// What is issued stays within its funding: the permit is for the campaign, the
/// work, the generation and the pool that were admitted, and names them.
pub proof fn permits_stay_within_their_funding(
    state: PermitStateView,
    request: RequestReservation,
    funding: AdmittedWork,
    replace: Option<u128>,
    reads: IssueReads,
)
    requires
        state.issue_refusal(request, funding, replace, reads) is None,
    ensures
        request.identity.campaign_id@ == funding.admission.campaign_id@,
        request.identity.work_id@ == funding.admission.work_id@,
        request.identity.generation == funding.admission.generation,
        request.identity.generation != 0,
        model::pool_of_spec(request.identity.class) == funding.admission.pool,
        reads.funding is Ok,
{
}

/// With a launch under its key, or without the funding that pays for it, a launch
/// is not claimed.
pub proof fn a_claimed_launch_is_not_claimed_again(
    funding: AdmittedWork,
    reservation: RequestReservation,
    work: WorkRequest,
    reads: ClaimReads,
)
    requires
        reads.launched == Ok::<_, String>(true) || reads.funding is Err,
    ensures
        launch::launch_refusal(funding, reservation, work, reads) is Some,
{
}

/// A typed attempt is launched only by the execution that the store holds for it:
/// neither without one, nor with another attempt, assignment or request, nor on
/// another funding or model.
pub proof fn typed_attempts_need_their_execution(
    funding: AdmittedWork,
    reservation: RequestReservation,
    work: WorkRequest,
    reads: ClaimReads,
)
    requires
        work.attempt is Some,
        launch::launch_refusal(funding, reservation, work, reads) is None,
    ensures
        reads.execution matches Ok(Some(record)) && launch::execution_current(
            record,
            funding,
            reservation,
            work,
        ) && (record.work.attempt matches Some(attempt) && attempt@ == work.attempt->0@)
            && record.work.assignment == work.assignment,
{
}

/// Dropping its attempt does not get a request around the execution that the
/// store holds for it, and changing any other part of it does not either: with
/// an execution of another request there is neither a permit nor a claim.
pub proof fn a_changed_request_is_not_launched(
    separate: bool,
    funding: AdmittedWork,
    reservation: RequestReservation,
    work: WorkRequest,
    record: ExecutionRecord,
    prepare_reads: PrepareReads,
    claim_reads: ClaimReads,
)
    requires
        prepare_reads.execution == Ok::<_, String>(Some(record)),
        claim_reads.execution == Ok::<_, String>(Some(record)),
        record.work.work_id@ != work.work_id@ || record.work.objective@ != work.objective@
            || record.work.generation != work.generation || record.work.assignment
            != work.assignment || record.work.deadline_ms != work.deadline_ms
            || record.work.context_refs != work.context_refs || (record.work.attempt is Some) != (
        work.attempt is Some) || (record.work.attempt is Some && work.attempt is Some
            && record.work.attempt->0@ != work.attempt->0@) || record.work.content@
            != work.content@,
    ensures
        launch::execution_refusal(prepare_reads.execution, funding, reservation, work) == Some(
            PermitError::Protocol,
        ),
        launch::prepare_refusal(separate, funding, reservation, work, prepare_reads) is Some,
        launch::launch_refusal(funding, reservation, work, claim_reads) is Some,
{
}

/// A launch that is not of a typed attempt never takes over from another; one
/// that is takes over only from a launch that has closed.
pub proof fn launches_replace_closed_ones_only(
    state: PermitStateView,
    work: Seq<char>,
    typed: bool,
    prior_closed: bool,
    previous: u128,
)
    requires
        state.launch_replaces(work, typed, prior_closed) == Ok::<_, PermitError>(Some(previous)),
    ensures
        typed,
        prior_closed,
        state.current_of(work) == Some(previous),
        state.grants[previous].lease is Some,
        forall|request: RequestReservation| !#[trigger] state.authorizes(previous, request, true),
{
}

/// Group control takes every member: it is allowed exactly where each member was
/// read and is a direct child.
pub proof fn groups_take_every_member(
    parents: Seq<Result<Option<String>, String>>,
    of: Seq<char>,
    error: PermitError,
)
    ensures
        control::children_refusal(parents, of, error) is None <==> forall|i: int|
            0 <= i < parents.len() ==> (#[trigger] parents[i] matches Ok(parent)
                && control::direct_child(parent, of)),
    decreases parents.len(),
{
    if parents.len() > 0 {
        let rest = parents.subrange(1, parents.len() as int);
        groups_take_every_member(rest, of, error);
        assert(forall|i: int| 0 <= i < rest.len() ==> rest[i] == #[trigger] parents[i + 1]);
        if control::children_refusal(parents, of, error) is None {
            assert forall|i: int| 0 <= i < parents.len() implies (#[trigger] parents[i] matches Ok(
                parent,
            ) && control::direct_child(parent, of)) by {
                if i > 0 {
                    assert(rest[i - 1] == parents[i]);
                }
            }
        } else if forall|i: int|
            0 <= i < parents.len() ==> (#[trigger] parents[i] matches Ok(parent)
                && control::direct_child(parent, of)) {
            assert forall|i: int| 0 <= i < rest.len() implies (#[trigger] rest[i] matches Ok(parent)
                && control::direct_child(parent, of)) by {
                assert(rest[i] == parents[i + 1]);
            }
            assert(parents[0] is Ok);
        }
    }
}

/// What a worker controls is of its own campaign, whatever it asks for.
pub proof fn controls_stay_in_their_campaign(identity: WorkIdentity, request: ControlRequest)
    ensures
        match control::step_of(identity, request) {
            None => request is Wait,
            Some(ControlStep::Todo { scope, actor }) => actor == control::actor(identity) && (scope
                == (TodoScope::Work { work_id: identity.work_id }) || scope == (
            TodoScope::Campaign { campaign_id: identity.campaign_id })),
            Some(ControlStep::Monitor { sampled }) => match sampled {
                MonitorScope::Work { campaign_id, work_id } => campaign_id == identity.campaign_id
                    && work_id == identity.work_id,
                MonitorScope::Campaign { campaign_id } => campaign_id == identity.campaign_id,
            },
            Some(ControlStep::Resource { campaign_id }) => campaign_id == identity.campaign_id,
            Some(ControlStep::Templates { actor }) => actor == control::actor(identity),
            Some(ControlStep::Admit { actor, .. }) => actor == control::actor(identity),
            Some(ControlStep::Group { actor, .. }) => actor == control::actor(identity),
            Some(ControlStep::List { actor }) => actor == control::actor(identity),
            Some(ControlStep::Cancel { actor, target, .. }) => actor == control::actor(identity)
                && target.campaign_id == identity.campaign_id,
            Some(ControlStep::Status { actor, target }) => actor == control::actor(identity)
                && target.campaign_id == identity.campaign_id,
            Some(ControlStep::Result { actor, target, .. }) => actor == control::actor(identity)
                && target.campaign_id == identity.campaign_id,
            Some(ControlStep::Send { actor, target, .. }) => actor == control::actor(identity)
                && target.campaign_id == identity.campaign_id,
            Some(ControlStep::Steer { actor, target, .. }) => actor == control::actor(identity)
                && target.campaign_id == identity.campaign_id,
        },
{
}

/// Recording the context of a request again, where nothing changed, records the
/// same context.
pub proof fn repeated_contexts_are_the_same<R, M>(
    one: WorkContextSnapshot<R, M>,
    two: WorkContextSnapshot<R, M>,
    grant: Grant,
    id: String,
    metadata: Option<M>,
    questions_available: bool,
    reads: ContextReads<R>,
)
    requires
        context::snapshot_agrees(one, grant, id, metadata, questions_available, reads),
        context::snapshot_agrees(two, grant, id, metadata, questions_available, reads),
    ensures
        one.stopping == two.stopping,
        one.schema_version == two.schema_version,
        one.work_id == two.work_id,
        one.attempt_id == two.attempt_id,
        one.generation == two.generation,
        one.instruction_revision == two.instruction_revision,
        one.request_id == two.request_id,
        one.objective == two.objective,
        one.worker_claims_informational_only == two.worker_claims_informational_only,
        match (one.pending_question_refs, two.pending_question_refs) {
            (Some(first), Some(second)) => first@ == second@,
            (None, None) => true,
            _ => false,
        },
        one.remaining_tokens == two.remaining_tokens,
        one.remaining_cost_micro_usd == two.remaining_cost_micro_usd,
        one.selected_resource_refs@ == two.selected_resource_refs@,
        one.reattachable == two.reattachable,
{
}

/// Every kind of service needs a live permit that is the current one, for exactly
/// the request at hand: without one there is no boundary, no export, no control,
/// no wait and no lookup.
pub proof fn every_service_needs_authority(
    state: PermitStateView,
    nonce: u128,
    request: RequestReservation,
    closed: bool,
    now: u64,
    deadline: u64,
    chunk: bool,
    asked: ControlRequest,
    boundary_reads: BoundaryReads,
    funding: Result<(), String>,
    other: Result<(), String>,
    ledger: Result<Ledger, String>,
    parents: Seq<Result<Option<String>, String>>,
)
    requires
        !state.authorizes(nonce, request, closed),
    ensures
        boundary::boundary_refusal(state, nonce, request, now, deadline, closed, boundary_reads) is Some,
        upload::upload_refusal(state, nonce, request, chunk, now, deadline, closed, funding, ledger) is Some,
        control::control_refusal(state, nonce, request, asked, closed, other, funding, other) is Some,
        wait::wait_refusal(state, nonce, request, now, deadline, closed, funding, parents) is Some,
        web::web_authority_refusal(state, nonce, request, now, deadline, closed, funding) is Some,
{
}

/// A call that went through and left a record: a reservation or a claim, or the
/// reservation that a boundary makes.
pub enum Call {
    Dispatch {
        grant: Grant,
        id: Seq<char>,
        request: RequestReservation,
        claim: bool,
        closed: bool,
        reads: DispatchReads,
        receipt: String,
    },
    Boundary {
        grant: Grant,
        id: Seq<char>,
        owner: String,
        request: RequestReservation,
        receipt: String,
    },
}

/// What stands under a key, if anything does.
pub open spec fn under(table: Map<Seq<char>, DispatchRecord>, key: Seq<char>) -> Option<
    DispatchRecord,
> {
    if table.dom().contains(key) {
        Some(table[key])
    } else {
        None
    }
}

impl Call {
    /// The key of a call's record.
    pub open spec fn key(self) -> Seq<char> {
        match self {
            Call::Dispatch { grant, id, .. } => dispatch::dispatch_key(
                grant.funding.dispatch_id@,
                id,
            ),
            Call::Boundary { grant, id, .. } => dispatch::dispatch_key(
                grant.funding.dispatch_id@,
                id,
            ),
        }
    }

    /// Whether a call goes through on what stands in the table: it read what
    /// stands there, and nothing refused it.
    pub open spec fn goes_through(self, table: Map<Seq<char>, DispatchRecord>) -> bool {
        match self {
            Call::Dispatch { grant, request, claim, closed, reads, .. } => reads.prior == Ok::<
                _,
                String,
            >(under(table, self.key())) && dispatch::dispatch_refusal(
                Some(grant),
                request,
                claim,
                closed,
                reads,
            ) is None,
            Call::Boundary { .. } => under(table, self.key()) is None,
        }
    }

    /// The record that a call leaves.
    pub open spec fn leaves(self) -> DispatchRecord {
        match self {
            Call::Dispatch { grant, request, claim, reads, receipt, .. } => stored_after(
                grant,
                request,
                claim,
                reads,
                receipt,
            ),
            Call::Boundary { owner, request, receipt, .. } => dispatch::first_record(
                owner,
                request,
                receipt,
                false,
            ),
        }
    }

    /// Whether a call is a claim under a key.
    pub open spec fn claims(self, key: Seq<char>) -> bool {
        self.key() == key && (self matches Call::Dispatch { claim, .. } && claim)
    }
}

/// The table after some calls.
pub open spec fn table_after(table: Map<Seq<char>, DispatchRecord>, calls: Seq<Call>) -> Map<
    Seq<char>,
    DispatchRecord,
>
    decreases calls.len(),
{
    if calls.len() == 0 {
        table
    } else {
        table_after(table, calls.drop_last()).insert(calls.last().key(), calls.last().leaves())
    }
}

/// Whether each call went through when it was made.
pub open spec fn all_go_through(table: Map<Seq<char>, DispatchRecord>, calls: Seq<Call>) -> bool
    decreases calls.len(),
{
    calls.len() > 0 ==> all_go_through(table, calls.drop_last()) && calls.last().goes_through(
        table_after(table, calls.drop_last()),
    )
}

/// How often a key was claimed.
pub open spec fn claims_of(calls: Seq<Call>, key: Seq<char>) -> nat
    decreases calls.len(),
{
    if calls.len() == 0 {
        0
    } else {
        claims_of(calls.drop_last(), key) + if calls.last().claims(key) {
            1nat
        } else {
            0nat
        }
    }
}

proof fn a_claim_stays_in_the_table(
    table: Map<Seq<char>, DispatchRecord>,
    calls: Seq<Call>,
    key: Seq<char>,
)
    requires
        all_go_through(table, calls),
    ensures
        claims_of(calls, key) <= 1,
        claims_of(calls, key) == 1 ==> under(table_after(table, calls), key) is Some && under(
            table_after(table, calls),
            key,
        )->0.claimed,
    decreases calls.len(),
{
    if calls.len() > 0 {
        a_claim_stays_in_the_table(table, calls.drop_last(), key);
    }
}

/// Whatever reserves, claims and boundaries go through, by whichever permits,
/// under whichever authorities and over however many restarts: a request of an
/// allocation is claimed at most once.
pub proof fn no_run_dispatches_a_request_twice(
    table: Map<Seq<char>, DispatchRecord>,
    calls: Seq<Call>,
    dispatch_id: Seq<char>,
    id: Seq<char>,
)
    requires
        all_go_through(table, calls),
    ensures
        claims_of(calls, dispatch::dispatch_key(dispatch_id, id)) <= 1,
{
    a_claim_stays_in_the_table(table, calls, dispatch::dispatch_key(dispatch_id, id));
}

/// A claim of a launch, on what it read. `committed` says whether the host made
/// it durable where nothing refused it; a claim may be durable though its owner
/// has gone away, and may not be though nothing refused it.
pub struct LaunchClaim {
    pub funding: AdmittedWork,
    pub reservation: RequestReservation,
    pub work: WorkRequest,
    pub reads: ClaimReads,
    pub committed: bool,
}

impl LaunchClaim {
    /// The key of the launch.
    pub open spec fn key(self) -> Seq<char> {
        launch::launch_key(self.funding, self.work)
    }

    /// Whether the claim read what stands in the table, where it could read it.
    pub open spec fn reads_of(self, launched: Set<Seq<char>>) -> bool {
        self.reads.launched matches Ok(found) ==> found == launched.contains(self.key())
    }

    /// Whether the claim goes through: nothing refused it, and it is durable.
    pub open spec fn goes_through(self) -> bool {
        &&& launch::launch_refusal(self.funding, self.reservation, self.work, self.reads) is None
        &&& self.committed
    }
}

/// The keys that are claimed after some claims. A failed start and a restart take
/// none of them back.
pub open spec fn launched_after(launched: Set<Seq<char>>, claims: Seq<LaunchClaim>) -> Set<
    Seq<char>,
>
    decreases claims.len(),
{
    if claims.len() == 0 {
        launched
    } else {
        let before = launched_after(launched, claims.drop_last());
        if claims.last().goes_through() {
            before.insert(claims.last().key())
        } else {
            before
        }
    }
}

/// Whether each claim read what stood in the table when it was made.
pub open spec fn all_read(launched: Set<Seq<char>>, claims: Seq<LaunchClaim>) -> bool
    decreases claims.len(),
{
    claims.len() > 0 ==> all_read(launched, claims.drop_last()) && claims.last().reads_of(
        launched_after(launched, claims.drop_last()),
    )
}

/// How many claims under a key went through.
pub open spec fn launches_of(claims: Seq<LaunchClaim>, key: Seq<char>) -> nat
    decreases claims.len(),
{
    if claims.len() == 0 {
        0
    } else {
        launches_of(claims.drop_last(), key) + if claims.last().goes_through()
            && claims.last().key() == key {
            1nat
        } else {
            0nat
        }
    }
}

/// Whatever launches are claimed, by whichever owners and over however many failed
/// starts and restarts: under one key at most one claim goes through, none where
/// the key was claimed before, and from then on the key stays claimed.
pub proof fn no_run_claims_a_launch_twice(
    launched: Set<Seq<char>>,
    claims: Seq<LaunchClaim>,
    key: Seq<char>,
)
    requires
        all_read(launched, claims),
    ensures
        launches_of(claims, key) + (if launched.contains(key) {
            1nat
        } else {
            0nat
        }) <= 1,
        launched_after(launched, claims).contains(key) <==> launched.contains(key) || launches_of(
            claims,
            key,
        ) == 1,
    decreases claims.len(),
{
    if claims.len() > 0 {
        no_run_claims_a_launch_twice(launched, claims.drop_last(), key);
    }
}

/// Two launches of typed attempts have one key only where both their allocation
/// and their attempt are the same: two attempts of one allocation have different
/// keys, and so have two allocations. Two launches outside of attempts have one
/// key only where their allocation is the same.
pub proof fn attempts_have_their_own_keys(
    funding_one: AdmittedWork,
    work_one: WorkRequest,
    funding_two: AdmittedWork,
    work_two: WorkRequest,
)
    requires
        launch::launch_key(funding_one, work_one) == launch::launch_key(funding_two, work_two),
        (work_one.attempt is Some) == (work_two.attempt is Some),
    ensures
        funding_one.dispatch_id@ == funding_two.dispatch_id@,
        work_one.attempt is Some ==> work_one.attempt->0@ == work_two.attempt->0@,
{
    if work_one.attempt is Some {
        keys_are_told_apart(
            funding_one.dispatch_id@,
            work_one.attempt->0@,
            funding_two.dispatch_id@,
            work_two.attempt->0@,
        );
    }
}

} // verus!
