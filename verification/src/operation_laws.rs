//! What the services of a session answer, stated of any answer that they give.
use vstd::prelude::*;
use crate::authority::{ModelPermit, PermitState};
use crate::boundary;
use crate::boundary::{Boundary, BoundaryReads, HostMessage, Prepared};
use crate::control;
use crate::control::{ControlRequest, ControlStep, GroupReply, GroupState, MonitorError, TodoError};
use crate::errors::PermitError;
use crate::laws;
use crate::ledger::Ledger;
use crate::model::{AdmittedWork, RequestClass, RequestReservation};
use crate::outside;
use crate::service_laws;
use crate::session::{Action, Event, Frame, Session};
use crate::session_laws;
use crate::upload;
use crate::upload::{UploadAction, UploadProgress, UploadReply};
use crate::wait;
use crate::web;
use crate::web::{
    BrokerPolicy, CampaignWeb, Control, LookupStep, WebCompletion, WebLookup, WebPolicy, WebReply,
    WebStatus,
};
use crate::web_laws;

verus! {

/// A session begins for a worker that was admitted, with nothing used; and in an idle
/// session with requests left, whatever number came before, a frame of a valid model
/// request is answered by preparing its boundary and counting one more, and a work,
/// waiting or control frame by serving it.
pub proof fn sessions_serve_what_they_allow(
    admitted: bool,
    max_requests: u64,
    begun: Result<Session, PermitError>,
    session: Session,
    frame: Frame,
    step: (Session, Action),
)
    requires
        call_ensures(Session::begin, (admitted, max_requests), begun),
        call_ensures(Session::step, (session, Event::Frame { frame, pipelined: false }), step),
    ensures
        begun is Ok <==> admitted,
        admitted ==> {
            let new = begun->Ok_0;
            &&& new.phase is Idle && new.max_requests == max_requests
            &&& new.regular_requests == 0 && new.uploads == 0 && new.uploaded_bytes == 0
        },
        !admitted ==> begun->Err_0 is Protocol,
        session.phase is Idle && session.regular_requests < session.max_requests ==> {
            let served = step.1;
            &&& frame is Work ==> served is ServeWork
            &&& frame is Wait ==> served is ServeWait
            &&& frame is Control ==> served is ServeControl
            &&& frame is Model && frame->invalid is None ==> served is PrepareBoundary
            &&& frame is Work || frame is Wait || frame is Control || frame is Model
                && frame->invalid is None ==> session_laws::one_more_request(session, step.0)
        },
{
}

/// What a boundary tells: one message for its objective, one for its instructions
/// where it has any, and one for what other work said where anything was said; the
/// last of these is the user's, and every other one is the system's.
pub proof fn boundaries_are_told_in_messages(
    boundary: Boundary,
    messages: Vec<HostMessage>,
    i: int,
)
    requires
        call_ensures(boundary::boundary_messages, (&boundary,), messages),
        0 <= i < messages@.len(),
    ensures
        ({
            let instructed: int = if boundary.instructions is Some { 1 } else { 0 };
            let spoken: int = if boundary.context_messages@.len() > 0 { 1 } else { 0 };
            &&& messages@.len() == 1 + instructed + spoken
            &&& messages@[i].role is User <==> boundary.context_messages@.len() > 0 && i + 1
                == messages@.len()
            &&& messages@[i].text@ == boundary::boundary_messages_spec(boundary)[i].1
        }),
{
    service_laws::boundaries_tell_all_they_hold(boundary);
    let told = messages@.map_values(|message: HostMessage| message@);
    assert(told.len() == messages@.len());
    assert(told[i] == messages@[i]@);
    if boundary.instructions is Some {
        assert(told[1] == messages@[1]@);
    }
}

/// A control that is served is planned on behalf of the work that holds the permit,
/// in its campaign, on the work that the request names.
pub proof fn controls_are_planned_for_the_holder(
    state: PermitState,
    permit: ModelPermit,
    reservation: RequestReservation,
    request: ControlRequest,
    closed: bool,
    valid: Result<(), String>,
    funding: Result<(), String>,
    enrolled: Result<(), String>,
    planned: Result<ControlStep, PermitError>,
)
    requires
        call_ensures(
            control::broker_control,
            (&state, &permit, &reservation, request, closed, valid, funding, enrolled),
            planned,
        ),
    ensures
        planned is Ok ==> {
            let holder = state@.grants[permit.nonce()].request.identity;
            let step = planned->Ok_0;
            &&& !(request is Wait)
            &&& request is Send ==> step is Send && step->Send_target.work_id
                == request->Send_work_id && step->Send_target.campaign_id == holder.campaign_id
                && step->Send_actor.work_id == holder.work_id && step->Send_command_id
                == request->Send_command_id
            &&& request is Steer ==> step is Steer && step->Steer_target.work_id
                == request->Steer_work_id && step->Steer_target.campaign_id == holder.campaign_id
                && step->Steer_actor.work_id == holder.work_id
            &&& request is Result ==> step is Result && step->Result_target.work_id
                == request->Result_work_id && step->Result_target.campaign_id
                == holder.campaign_id && step->Result_actor.work_id == holder.work_id
            &&& request is Status ==> step is Status && step->Status_target.work_id
                == request->Status_work_id && step->Status_target.campaign_id
                == holder.campaign_id && step->Status_actor.work_id == holder.work_id
            &&& request is Cancel ==> step is Cancel && step->Cancel_target.work_id
                == request->Cancel_work_id && step->Cancel_target.campaign_id
                == holder.campaign_id && step->Cancel_actor.work_id == holder.work_id
        },
        state@.authorizes(permit.nonce(), reservation, closed) && reservation.identity.class
            == RequestClass::Work && valid is Ok && funding is Ok && enrolled is Ok
            && !(request is Wait) ==> planned is Ok,
{
    service_laws::controls_reach_the_work_they_name(
        state@.grants[permit.nonce()].request.identity,
        request,
    );
}

/// Only the parent of some work may cancel it.
pub proof fn parents_cancel_their_children(
    parent: Result<Option<String>, String>,
    actor: String,
    res: Result<(), PermitError>,
)
    requires
        call_ensures(control::check_cancel, (parent, &actor), res),
    ensures
        res is Ok <==> parent is Ok && parent->Ok_0 is Some && parent->Ok_0->0@ == actor@,
        parent is Err ==> res->Err_0 == PermitError::Host(parent->Err_0),
        parent is Ok && res is Err ==> res->Err_0 is NotDirectParent,
{
}

/// A group is reported under its id with its counts, as it is after it was resized
/// where it was.
pub proof fn groups_are_reported_as_they_are(
    group_id: String,
    before: GroupState,
    resized: Option<GroupState>,
    active: usize,
    total: usize,
    reply: GroupReply,
)
    requires
        call_ensures(control::report_group, (group_id, before, resized, active, total), reply),
    ensures
        reply.group_id == group_id,
        reply.active == active,
        reply.total == total,
        resized is None ==> reply.group == before,
        resized is Some ==> reply.group == resized->0,
{
}

/// A control is admitted where it is allowed and in time; only a cancelling one ends
/// a launch, that of its target at its generation.
pub proof fn controls_are_admitted_in_time(
    allowed: bool,
    now: u64,
    deadline: u64,
    admitted: bool,
    step: ControlStep,
    ended: Option<(String, String, u64)>,
)
    requires
        call_ensures(control::admit_control, (allowed, now, deadline), admitted),
        call_ensures(control::launch_to_cancel, (&step,), ended),
    ensures
        admitted <==> allowed && now < deadline,
        ended is Some <==> step is Cancel,
        step is Cancel ==> {
            let (campaign_id, work_id, generation) = ended->0;
            &&& campaign_id == step->Cancel_target.campaign_id
            &&& work_id == step->Cancel_target.work_id
            &&& generation == step->generation
        },
{
}

/// What went wrong in the storage of a task list is not shown; other errors are, as
/// they are.
pub proof fn storage_errors_are_not_shown<E>(error: TodoError<E>, shown: TodoError<E>)
    requires
        call_ensures(control::shown_todo_error::<E>, (error,), shown),
    ensures
        error is Other ==> shown == error,
        error is Storage ==> shown is Storage && shown->message@ == "todo storage unavailable"@,
{
}

/// A sample is told with what is free where that is asked for and known. Where it is
/// asked for and not known, nothing is told, and an error of the sample itself comes
/// before both.
pub proof fn samples_are_told_with_what_is_free<P, C, E>(
    sample: Result<P, MonitorError<E>>,
    told: bool,
    capacities: Result<C, ()>,
    res: Result<(P, Option<C>), MonitorError<E>>,
)
    requires
        call_ensures(control::with_capacities::<P, C, E>, (sample, told, capacities), res),
    ensures
        res is Ok <==> sample is Ok && (told ==> capacities is Ok),
        sample is Err ==> res->Err_0 == sample->Err_0,
        sample is Ok && res is Err ==> res->Err_0 is Unavailable,
        res is Ok ==> {
            let (payload, free) = res->Ok_0;
            &&& payload == sample->Ok_0
            &&& free is Some <==> told
            &&& told ==> free->0 == capacities->Ok_0
        },
{
}

/// A lookup that is valid, enabled, allowed and within its other bounds is let go
/// with the number of calls that it makes, one for a search and one for each URL of
/// a fetch, exactly where what was set aside pays for these; and a lookup that is
/// let go is all of that.
pub proof fn lookups_are_let_go_with_their_calls(
    policy: BrokerPolicy,
    grant: CampaignWeb,
    configured: WebPolicy,
    control: Control,
    is_web: bool,
    lookup: WebLookup,
    caller_id: String,
    reservation: RequestReservation,
    valid: Result<(), String>,
    res: Result<u8, PermitError>,
)
    requires
        policy.web == Some((grant, configured)),
        lookup is Fetch ==> lookup->urls < 256,
        call_ensures(
            web::check_web,
            (&policy, control, is_web, lookup, &caller_id, &reservation, valid),
            res,
        ),
    ensures
        ({
            let calls: int = if lookup is Search { 1 } else { lookup->urls as int };
            &&& res is Ok <==> {
                &&& valid is Ok
                &&& is_web
                &&& configured.enabled
                &&& policy.allowed@.contains(control)
                &&& web_laws::is_permitted(
                    lookup,
                    caller_id@,
                    reservation,
                    grant,
                    configured,
                )
                &&& 1 <= reservation.estimate.output_tokens <= 8192
                &&& reservation.estimate.other_micro_usd >= configured.server_call_micro_usd
                    * calls
            }
            &&& res is Ok ==> res->Ok_0 == calls
        }),
{
    if lookup is Fetch {
        assert(lookup->urls as int % 256 == lookup->urls);
    }
    web_laws::lookups_are_allowed_within_the_policy(
        policy,
        control,
        is_web,
        lookup,
        caller_id@,
        reservation,
        valid,
    );
}

/// A policy gets a valid allowance with what the host configured and with the two
/// controls that use it; where the host has the web disabled it stays as it was.
pub proof fn policies_get_valid_allowances(
    policy: BrokerPolicy,
    grant: CampaignWeb,
    configured: WebPolicy,
    valid: Result<(), String>,
    res: Result<BrokerPolicy, PermitError>,
    control: Control,
)
    requires
        call_ensures(BrokerPolicy::with_web, (policy, grant, configured, valid), res),
    ensures
        res is Ok <==> valid is Ok && web::allowance_valid(grant),
        valid is Err ==> res->Err_0 == PermitError::Host(valid->Err_0),
        valid is Ok && res is Err ==> res->Err_0 is InvalidWebAllowance,
        res is Ok && !configured.enabled ==> res->Ok_0 == policy,
        res is Ok && configured.enabled ==> {
            let host = res->Ok_0;
            &&& host.web == Some((grant, configured))
            &&& host.resident_capacity == policy.resident_capacity
            &&& host.allowed@.contains(control) <==> policy.allowed@.contains(control) || control
                == Control::WebSearch || control == Control::WebFetch
        },
{
    if res is Ok && configured.enabled {
        let first = policy.allowed@;
        let second = web::with_control(first, Control::WebSearch);
        let third = web::with_control(second, Control::WebFetch);
        added_controls_are_allowed(first, Control::WebSearch, control);
        added_controls_are_allowed(second, Control::WebFetch, control);
        assert(third == res->Ok_0.allowed@);
    }
}

proof fn added_controls_are_allowed(allowed: Seq<Control>, added: Control, control: Control)
    ensures
        web::with_control(allowed, added).contains(control) <==> allowed.contains(control)
            || control == added,
{
    let after = web::with_control(allowed, added);
    if allowed.contains(control) {
        let i = choose|i: int| 0 <= i < allowed.len() && allowed[i] == control;
        assert(after[i] == control);
    }
    if control == added && !allowed.contains(added) {
        assert(after[allowed.len() as int] == control);
    }
}

/// A policy begins with nothing allowed and room for 64 residents, allows exactly the
/// controls that it is given, and a lookup has the time of its allowance, or a minute
/// without one.
pub proof fn policies_allow_what_they_are_given(
    new: BrokerPolicy,
    policy: BrokerPolicy,
    controls: Vec<Control>,
    given: BrokerPolicy,
    control: Control,
    allows: bool,
    seconds: u64,
)
    requires
        call_ensures(BrokerPolicy::new, (), new),
        call_ensures(BrokerPolicy::with_controls, (policy, controls), given),
        call_ensures(BrokerPolicy::allows, (&given, control), allows),
        call_ensures(web::web_timeout_secs, (&policy,), seconds),
    ensures
        new.resident_capacity == 64 && new.allowed@.len() == 0 && new.web is None,
        given.resident_capacity == policy.resident_capacity && given.web == policy.web,
        allows <==> controls@.contains(control),
        policy.web is None ==> seconds == 60,
        policy.web is Some ==> seconds == ({
            let (grant, configured) = policy.web->0;
            configured.timeout_secs
        }),
{
}

/// A caller gets an allowance where its requests can be counted, and then the one
/// that both sides allow.
pub proof fn allowances_follow_both_sides(
    grant: CampaignWeb,
    configured: WebPolicy,
    reservation: RequestReservation,
    bound: Option<(u64, u64)>,
    res: Result<WebPolicy, PermitError>,
)
    requires
        call_ensures(web::web_policy, (&grant, &configured, &reservation, bound), res),
    ensures
        ({
            let (tokens, cost) = bound->0;
            let requests: int = if grant.max_requests < configured.max_requests {
                grant.max_requests as int
            } else {
                configured.max_requests as int
            };
            &&& res is Ok <==> bound is Some && tokens * requests <= u64::MAX && cost * requests
                <= u64::MAX
            &&& res is Ok ==> res->Ok_0.max_requests == requests && res->Ok_0.turn_tokens
                == tokens * requests && res->Ok_0.turn_cost_micro_usd == cost * requests
                && res->Ok_0.max_request_cost_micro_usd == cost
        }),
{
}

/// What was answered before is answered again, what failed before fails again, and
/// only what was never asked is looked up.
pub proof fn lookups_are_made_once<R>(
    stored: Result<Option<Result<R, String>>, String>,
    res: Result<LookupStep<R>, PermitError>,
)
    requires
        call_ensures(web::lookup_step::<R>, (stored,), res),
    ensures
        res is Ok && res->Ok_0 is LookUp <==> stored is Ok && stored->Ok_0 is None,
        res is Ok && res->Ok_0 is Answer <==> stored is Ok && stored->Ok_0 is Some
            && stored->Ok_0->0 is Ok,
        res is Ok && res->Ok_0 is Answer ==> res->Ok_0->Answer_0 == stored->Ok_0->0->Ok_0,
        stored is Err ==> res->Err_0 == PermitError::Host(stored->Err_0),
        stored is Ok && res is Err ==> res->Err_0 == PermitError::Host(stored->Ok_0->0->Err_0),
{
}

/// A lookup whose use is not known is never told as grounded; any other status is
/// told as it is, with the result and the use that came with it. One that did not
/// come back failed, and its use is unknown.
pub proof fn grounded_lookups_have_a_known_use<U, R>(
    status: WebStatus,
    usage_known: bool,
    told: WebStatus,
    completion: Option<WebCompletion<U, R>>,
    settled: (Option<U>, Result<(WebStatus, R), PermitError>),
)
    requires
        call_ensures(web::believed, (status, usage_known), told),
        call_ensures(web::settle_lookup::<U, R>, (completion,), settled),
    ensures
        told is Grounded <==> status is Grounded && usage_known,
        told is Unverified <==> status is Unverified || status is Grounded && !usage_known,
        told is Other <==> status is Other,
        completion is None ==> settled.0 is None && settled.1 is Err
            && settled.1->Err_0 is WebFailed,
        completion is Some ==> {
            let done = completion->0;
            let (shown, result) = settled.1->Ok_0;
            &&& settled.1 is Ok
            &&& settled.0 == done.usage
            &&& result == done.result
            &&& shown is Grounded <==> done.status is Grounded && done.usage is Some
            &&& shown is Other <==> done.status is Other
        },
{
}

/// A lookup may not use the server more often than the calls that it was let go with,
/// searches and fetches together; what is not reported was not used.
pub proof fn uses_stay_within_the_calls(
    searches: Option<u64>,
    fetches: Option<u64>,
    calls: u8,
    res: Result<(), PermitError>,
)
    requires
        call_ensures(web::check_uses, (searches, fetches, calls), res),
    ensures
        ({
            let searched: int = if searches is Some { searches->0 as int } else { 0 };
            let fetched: int = if fetches is Some { fetches->0 as int } else { 0 };
            &&& res is Ok <==> searched + fetched <= calls
            &&& res is Err ==> res->Err_0 is WebUseExceeded
        }),
{
}

/// A search is answered as a search and a fetch as a fetch, with the result; what
/// failed is denied, whatever the reason.
pub proof fn lookups_are_answered_as_what_they_are<R>(
    search: bool,
    outcome: Result<R, PermitError>,
    reply: WebReply<R>,
    campaign_id: String,
    scope: String,
)
    requires
        call_ensures(web::answer_web::<R>, (search, outcome), reply),
        call_ensures(web::web_scope, (&campaign_id,), scope),
    ensures
        reply is Denied <==> outcome is Err,
        reply is Search <==> outcome is Ok && search,
        reply is Fetch <==> outcome is Ok && !search,
        reply is Search ==> reply->Search_0 == outcome->Ok_0,
        reply is Fetch ==> reply->Fetch_0 == outcome->Ok_0,
        scope@ == outside::json_pair_text("campaign"@, campaign_id@),
{
}

/// A worker may wait where it is allowed to, its request is valid, and another
/// resident is there for the work that it waits for. It then waits on its own
/// funding.
pub proof fn waits_need_another_resident(
    allowed: bool,
    valid: bool,
    residents: usize,
    admitted: bool,
    state: PermitState,
    permit: ModelPermit,
    binding: RequestReservation,
    now: u64,
    resume_by: u64,
    closed: bool,
    enrolled: Result<(), String>,
    parents: Vec<Result<Option<String>, String>>,
    res: Result<AdmittedWork, PermitError>,
)
    requires
        call_ensures(wait::admit_wait, (allowed, valid, residents), admitted),
        call_ensures(
            wait::authorize_wait,
            (&state, &permit, &binding, now, resume_by, closed, enrolled, &parents),
            res,
        ),
    ensures
        admitted <==> allowed && valid && residents > 1,
        res is Ok ==> {
            &&& state@.authorizes(permit.nonce(), binding, closed)
            &&& binding.identity.class == RequestClass::Work
            &&& now < resume_by
            &&& enrolled is Ok
            &&& res->Ok_0 == state@.grants[permit.nonce()].funding
        },
        state@.authorizes(permit.nonce(), binding, closed) && binding.identity.class
            == RequestClass::Work && now < resume_by && enrolled is Ok && (forall|j: int|
            0 <= j < parents@.len() ==> (#[trigger] parents@[j]) is Ok && parents@[j]->Ok_0 is Some
                && parents@[j]->Ok_0->0@ == binding.identity.work_id@) ==> res is Ok,
{
    if forall|j: int|
        0 <= j < parents@.len() ==> (#[trigger] parents@[j]) is Ok && parents@[j]->Ok_0 is Some
            && parents@[j]->Ok_0->0@ == binding.identity.work_id@ {
        service_laws::own_children_are_never_refused(
            parents@,
            binding.identity.work_id@,
            PermitError::WaitNeedsChildren,
        );
    }
}

/// A wait goes on looking as long as its permit is the suspended one of the work and
/// it is in time.
pub proof fn looking_goes_on_while_suspended(
    state: PermitState,
    permit: ModelPermit,
    work_id: String,
    now: u64,
    resume_by: u64,
    closed: bool,
    res: Result<(), PermitError>,
)
    requires
        call_ensures(
            wait::check_poll,
            (&state, &permit, &work_id, now, resume_by, closed),
            res,
        ),
    ensures
        res is Ok <==> state@.suspended(permit.nonce(), work_id@, closed) && now < resume_by,
        !state@.grants.dom().contains(permit.nonce()) ==> res->Err_0 is UnknownPermit,
        state@.grants.dom().contains(permit.nonce()) && res is Err ==> res->Err_0 is WaitOver,
{
}

/// An export stays open in time while its peer is there and its launch is not
/// closed. Its first part begins it and every other is applied, unless it is not
/// authorized; what comes of a part is told as it is, a failure as a denial, and
/// after 2050 parts, or on any other frame, the session ends.
pub proof fn exports_go_part_by_part<R>(
    now: u64,
    deadline: u64,
    peer_gone: bool,
    closed: bool,
    open: bool,
    begun: UploadProgress,
    progress: UploadProgress,
    authorized: Result<(), PermitError>,
    action: UploadAction,
    outcome: Result<UploadReply<R>, String>,
    reply: UploadReply<R>,
    is_part: bool,
    received: Result<(), PermitError>,
)
    requires
        call_ensures(upload::upload_still_open, (now, deadline, peer_gone, closed), open),
        call_ensures(UploadProgress::begin, (), begun),
        call_ensures(UploadProgress::action, (&progress, &authorized), action),
        call_ensures(UploadProgress::reply::<R>, (outcome,), reply),
        call_ensures(UploadProgress::received, (&progress, is_part), received),
    ensures
        open <==> now < deadline && !peer_gone && !closed,
        begun.parts == 0,
        action is Deny <==> authorized is Err,
        action is Begin <==> authorized is Ok && progress.parts == 0,
        action is Apply <==> authorized is Ok && progress.parts > 0,
        outcome is Ok ==> reply == outcome->Ok_0,
        outcome is Err ==> reply is Denied,
        received is Ok <==> is_part && progress.parts < 2050,
        received is Err ==> received->Err_0 is Protocol,
{
}

/// Every service but a later part of an export looks at the store: a lookup goes out,
/// and an export begins, under a permit that allows the request in time and whose
/// funding is there. An export is work, begins once its accounting is final, and its
/// later parts need no more than the permit.
pub proof fn services_go_under_a_permit_in_time(
    state: PermitState,
    permit: ModelPermit,
    binding: RequestReservation,
    chunk: bool,
    now: u64,
    deadline: u64,
    closed: bool,
    funding: Result<(), String>,
    ledger: Result<Ledger, String>,
    looked: Result<(), PermitError>,
    exported: Result<(), PermitError>,
    authorized: bool,
)
    requires
        call_ensures(
            web::authorize_web,
            (&state, &permit, &binding, now, deadline, closed, funding),
            looked,
        ),
        call_ensures(
            upload::authorize_upload,
            (&state, &permit, &binding, chunk, now, deadline, closed, funding, ledger),
            exported,
        ),
        call_ensures(PermitState::is_authorized, (&state, &permit, &binding, closed), authorized),
    ensures
        looked is Ok <==> authorized && now < deadline && funding is Ok,
        exported is Ok <==> authorized && now < deadline && binding.identity.class
            == RequestClass::Work && (chunk || funding is Ok && ledger is Ok
            && !ledger->Ok_0@.accounting_open(
            state@.grants[permit.nonce()].funding.dispatch_id@,
        )),
        authorized <==> {
            let nonce = permit.nonce();
            let grant = state@.grants[nonce];
            &&& state@.grants.dom().contains(nonce)
            &&& grant.active && !grant.paused && (grant.lease is None || !closed)
            &&& grant.request@ == binding@
            &&& state@.current.dom().contains(binding.identity.work_id@)
            &&& state@.current[binding.identity.work_id@] == nonce
        },
{
}

/// A boundary is prepared under a permit that allows the request in time, and then
/// follows what is due.
pub proof fn boundaries_go_under_a_permit_in_time(
    state: PermitState,
    permit: ModelPermit,
    request: RequestReservation,
    id: &str,
    now: u64,
    deadline: u64,
    closed: bool,
    reads: BoundaryReads,
    res: Result<Prepared, PermitError>,
)
    requires
        call_ensures(
            boundary::prepare_model_boundary,
            (&state, &permit, request, id, now, deadline, closed, reads),
            res,
        ),
    ensures
        res is Ok <==> {
            &&& state@.authorizes(permit.nonce(), request, closed)
            &&& now < deadline
            &&& reads.funding is Ok
            &&& reads.boundary is Ok
            &&& reads.boundary->Ok_0 is Some ==> reads.reserved is Ok && !reads.reserved->Ok_0
        },
        res is Ok ==> (res->Ok_0 is Due <==> reads.boundary->Ok_0 is Some),
        res is Ok && res->Ok_0 is Unchanged ==> res->Ok_0->Unchanged_0 == request,
        res is Ok && res->Ok_0 is Due ==> {
            let plan = res->Ok_0->Due_0;
            &&& plan.boundary == reads.boundary->Ok_0->0
            &&& plan.request.identity.instruction_revision == plan.boundary.instruction_revision
            &&& plan.request.identity.work_id == request.identity.work_id
            &&& plan.request.estimate == request.estimate
            &&& plan.key@ == outside::json_pair_text(
                state@.grants[permit.nonce()].funding.dispatch_id@,
                id@,
            )
        },
{
}

/// The members of a group are taken where each of them is a child of the one who asks;
/// and each thing that ends by itself ends no later than the session that it is part
/// of.
pub proof fn members_and_deadlines_are_checked(
    parents: Vec<Result<Option<String>, String>>,
    actor: String,
    members: Result<(), PermitError>,
    deadline: u64,
    now: u64,
    span: u64,
    exported: u64,
    resumed: u64,
    looked: u64,
)
    requires
        call_ensures(control::check_members, (&parents, &actor), members),
        call_ensures(upload::upload_deadline, (deadline, now), exported),
        call_ensures(wait::resume_deadline, (deadline, now, span), resumed),
        call_ensures(web::web_deadline, (deadline, now, span), looked),
    ensures
        members is Ok <==> forall|i: int|
            0 <= i < parents@.len() ==> (#[trigger] parents@[i]) is Ok && parents@[i]->Ok_0 is Some
                && parents@[i]->Ok_0->0@ == actor@,
        exported <= deadline && exported <= now + 240_000,
        exported == deadline || exported == now + 240_000,
        resumed <= deadline && resumed <= now + span + 5_000,
        resumed == deadline || resumed == now + span + 5_000,
        looked <= deadline && looked <= now + 1000 * span,
        looked == deadline || looked == now + 1000 * span,
{
    laws::groups_take_every_member(parents@, actor@, PermitError::GroupOwnershipDenied);
}

} // verus!
