//! What a web lookup may cost, and what allows it.
use vstd::prelude::*;
use crate::authority::PermitStateView;
use crate::errors::PermitError;
use crate::model::{RequestClass, RequestReservation};
use crate::outside;
use crate::text;
use crate::web;
use crate::web::{BrokerPolicy, CampaignWeb, Control, WebLookup, WebPolicy};

verus! {

/// How many calls a lookup makes: one for a search, one for each URL of a fetch,
/// counted in eight bits.
pub open spec fn calls_made(lookup: WebLookup) -> int {
    match lookup {
        WebLookup::Search => 1,
        WebLookup::Fetch { urls } => urls as int % 256,
    }
}

/// Whether a lookup is one that the work may make at all, whatever it costs: it
/// asks for itself, as work, at the provider that the campaign named, within the
/// URLs and the input tokens that were configured, and for one to 8192 output
/// tokens.
pub open spec fn is_permitted(
    lookup: WebLookup,
    caller_id: Seq<char>,
    reservation: RequestReservation,
    grant: CampaignWeb,
    configured: WebPolicy,
) -> bool {
    &&& caller_id == reservation.identity.work_id@
    &&& reservation.identity.class == RequestClass::Work
    &&& reservation.estimate.provider@ == grant.inference_provider@
    &&& !text::same_but_case(reservation.estimate.provider@, "openrouter"@)
    &&& calls_made(lookup) <= configured.max_fetch_urls
    &&& configured.input_tokens <= reservation.estimate.input_tokens
}

/// A lookup within its other bounds is allowed exactly where what the request set
/// aside beyond its tokens pays for the calls that the lookup itself makes: one for
/// a search, and one for each URL of a fetch. How many URLs a fetch might have had
/// plays no part in it.
pub proof fn lookups_pay_for_their_own_calls(
    policy: BrokerPolicy,
    grant: CampaignWeb,
    configured: WebPolicy,
    control: Control,
    lookup: WebLookup,
    caller_id: Seq<char>,
    reservation: RequestReservation,
    valid: Result<(), String>,
)
    requires
        valid is Ok,
        policy.web == Some((grant, configured)),
        configured.enabled,
        policy.allowed@.contains(control),
        1 <= reservation.estimate.output_tokens <= 8192,
        is_permitted(lookup, caller_id, reservation, grant, configured),
        lookup is Fetch ==> lookup->urls < 256,
    ensures
        ({
            let calls: int = if lookup is Search { 1 } else { lookup->urls as int };
            web::web_refusal(
                policy,
                control,
                true,
                lookup,
                caller_id,
                reservation,
                valid,
            ) is None <==> reservation.estimate.other_micro_usd
                >= configured.server_call_micro_usd * calls
        }),
{
    if lookup is Fetch {
        assert(lookup->urls as int % 256 == lookup->urls);
    }
}

/// What a lookup comes to, whatever was asked: the first of these that fails is what
/// the refusal says.
pub proof fn lookups_are_allowed_within_the_policy(
    policy: BrokerPolicy,
    control: Control,
    is_web: bool,
    lookup: WebLookup,
    caller_id: Seq<char>,
    reservation: RequestReservation,
    valid: Result<(), String>,
)
    ensures
        ({
            let refusal = web::web_refusal(
                policy,
                control,
                is_web,
                lookup,
                caller_id,
                reservation,
                valid,
            );
            let granted = valid is Ok && policy.web is Some;
            let (grant, configured) = policy.web->0;
            let fee = configured.server_call_micro_usd * calls_made(lookup);
            let routed = granted && configured.enabled && exists|i: int|
                0 <= i < policy.allowed@.len() && #[trigger] policy.allowed@[i] == control;
            let asked = routed && is_web;
            let permitted = asked && is_permitted(
                lookup,
                caller_id,
                reservation,
                grant,
                configured,
            );
            let payable = permitted && fee <= u64::MAX;
            let paid = payable && fee <= reservation.estimate.other_micro_usd && 1
                <= reservation.estimate.output_tokens <= 8192;
            &&& refusal is None <==> paid
            &&& valid is Err ==> refusal == Some(PermitError::Host(valid->Err_0))
            &&& valid is Ok && !granted ==> refusal == Some(PermitError::NoWebAllowance)
            &&& granted && !routed ==> refusal == Some(PermitError::WebControlDenied)
            &&& routed && !asked ==> refusal == Some(PermitError::NotWeb)
            &&& asked && !permitted ==> refusal == Some(PermitError::WebBoundsExceeded)
            &&& permitted && !payable ==> refusal == Some(PermitError::FeeOverflow)
            &&& payable && !paid ==> refusal == Some(PermitError::WebBoundsExceeded)
        }),
{
    if lookup is Fetch {
        let urls = lookup->urls;
        assert(web::calls_of(lookup) as int == urls as int % 256);
    }
}

/// Allowing more URLs in a fetch changes nothing for a lookup that was within the
/// bound: it neither costs more nor is refused.
pub proof fn a_wider_bound_changes_no_lookup(
    policy: BrokerPolicy,
    wider: BrokerPolicy,
    grant: CampaignWeb,
    configured: WebPolicy,
    widened: WebPolicy,
    control: Control,
    is_web: bool,
    lookup: WebLookup,
    caller_id: Seq<char>,
    reservation: RequestReservation,
    valid: Result<(), String>,
)
    requires
        policy.web == Some((grant, configured)),
        wider.web == Some((grant, widened)),
        policy.allowed@ == wider.allowed@,
        configured.enabled == widened.enabled,
        configured.server_call_micro_usd == widened.server_call_micro_usd,
        configured.input_tokens == widened.input_tokens,
        calls_made(lookup) <= configured.max_fetch_urls <= widened.max_fetch_urls,
    ensures
        web::web_refusal(policy, control, is_web, lookup, caller_id, reservation, valid)
            == web::web_refusal(wider, control, is_web, lookup, caller_id, reservation, valid),
{
    lookups_are_allowed_within_the_policy(
        policy,
        control,
        is_web,
        lookup,
        caller_id,
        reservation,
        valid,
    );
    lookups_are_allowed_within_the_policy(
        wider,
        control,
        is_web,
        lookup,
        caller_id,
        reservation,
        valid,
    );
}

/// A campaign may allow one to four requests and one to sixteen calls, at a provider
/// whose name has one to 128 bytes and no white space or control characters, and
/// which is not the one that only routes to others, in any case.
pub proof fn allowances_are_small(grant: CampaignWeb)
    ensures
        web::allowance_valid(grant) <==> {
            let provider = grant.inference_provider@;
            &&& 0 < grant.max_requests < 5
            &&& 0 < grant.max_server_calls < 17
            &&& provider.len() > 0
            &&& vstd::utf8::encode_utf8(provider).len() <= 128
            &&& !text::same_but_case(provider, "openrouter"@)
            &&& forall|i: int|
                0 <= i < provider.len() ==> !outside::control_char(#[trigger] provider[i])
                    && !outside::white_space(provider[i])
        },
        web::routes(grant.inference_provider@) <==> text::same_but_case(
            grant.inference_provider@,
            "openrouter"@,
        ),
        text::blank(Seq::empty()),
{
    let provider = grant.inference_provider@;
    if provider.len() > 0 && text::plain_word(provider) {
        assert(!outside::white_space(provider[0]));
    }
}

/// A lookup ends when its time is over, or with the session if that is earlier.
pub proof fn lookups_end_in_time(deadline: u64, now: u64, timeout_secs: u64)
    ensures
        ({
            let end = web::web_deadline_spec(deadline, now, timeout_secs);
            &&& end <= deadline
            &&& end <= now + 1000 * timeout_secs
            &&& end == deadline || end == now + 1000 * timeout_secs
        }),
{
}

/// The allowance of one caller: as many requests and calls as both the campaign and
/// the host allow, the tokens that the request itself estimates, what one request
/// may cost, and for all of them together that many times as much. Prices are
/// hidden, and the rest is as the host has it.
pub proof fn callers_get_the_smaller_allowance(
    grant: CampaignWeb,
    configured: WebPolicy,
    reservation: RequestReservation,
    bound: (u64, u64),
)
    requires
        web::policy_refusal(grant, configured, Some(bound)) is None,
    ensures
        ({
            let allowance = web::narrowed(grant, configured, reservation, bound);
            let (tokens, cost) = bound;
            &&& allowance.max_requests <= grant.max_requests
            &&& allowance.max_requests <= configured.max_requests
            &&& allowance.max_requests == grant.max_requests || allowance.max_requests
                == configured.max_requests
            &&& allowance.max_server_calls <= grant.max_server_calls
            &&& allowance.max_server_calls <= configured.max_server_calls
            &&& allowance.max_server_calls == grant.max_server_calls
                || allowance.max_server_calls == configured.max_server_calls
            &&& allowance.input_tokens == reservation.estimate.input_tokens
            &&& allowance.output_tokens == reservation.estimate.output_tokens
            &&& allowance.input_micro_usd_per_million is None
            &&& allowance.output_micro_usd_per_million is None
            &&& allowance.max_request_cost_micro_usd == cost
            &&& allowance.turn_tokens == tokens * allowance.max_requests
            &&& allowance.turn_cost_micro_usd == cost * allowance.max_requests
            &&& allowance.enabled == configured.enabled
            &&& allowance.max_fetch_urls == configured.max_fetch_urls
            &&& allowance.server_call_micro_usd == configured.server_call_micro_usd
            &&& allowance.timeout_secs == configured.timeout_secs
        }),
{
}

/// An allowance is given where the request has a bound and as many of them as both
/// sides allow can be counted, in tokens and in cost.
pub proof fn allowances_are_given_where_they_can_be_counted(
    grant: CampaignWeb,
    configured: WebPolicy,
    bound: Option<(u64, u64)>,
)
    ensures
        ({
            let refusal = web::policy_refusal(grant, configured, bound);
            let (tokens, cost) = bound->0;
            let requests: int = if grant.max_requests < configured.max_requests {
                grant.max_requests as int
            } else {
                configured.max_requests as int
            };
            let bounded = bound is Some;
            let counted = bounded && tokens * requests <= u64::MAX;
            &&& refusal is None <==> counted && cost * requests <= u64::MAX
            &&& !bounded ==> refusal == Some(PermitError::InvalidWebEstimate)
            &&& bounded && !counted ==> refusal == Some(PermitError::TokenOverflow)
            &&& counted && cost * requests > u64::MAX ==> refusal == Some(
                PermitError::CostOverflow,
            )
        }),
{
}

/// A lookup goes out where a permit allows the request before the deadline and the
/// store admits its funding.
pub proof fn lookups_go_out_under_a_permit(
    state: PermitStateView,
    nonce: u128,
    binding: RequestReservation,
    now: u64,
    deadline: u64,
    closed: bool,
    funding: Result<(), String>,
)
    ensures
        ({
            let refusal = web::web_authority_refusal(
                state,
                nonce,
                binding,
                now,
                deadline,
                closed,
                funding,
            );
            let known = state.grants.dom().contains(nonce);
            let allowed = known && state.authorizes(nonce, binding, closed) && now < deadline;
            &&& refusal is None <==> allowed && funding is Ok
            &&& !known ==> refusal == Some(PermitError::UnknownPermit)
            &&& known && !allowed ==> refusal == Some(PermitError::RevokedWebAuthority)
            &&& allowed && funding is Err ==> refusal == Some(PermitError::Host(funding->Err_0))
        }),
{
}

/// A policy keeps its controls in the order in which they were first allowed: what
/// was allowed stays where it was, and a new one comes last.
pub proof fn controls_keep_their_order(allowed: Seq<Control>, control: Control)
    ensures
        ({
            let after = web::with_control(allowed, control);
            &&& after.take(allowed.len() as int) == allowed
            &&& allowed.contains(control) ==> after.len() == allowed.len()
            &&& !allowed.contains(control) ==> after.len() == allowed.len() + 1 && after.last()
                == control
        }),
{
    assert(web::with_control(allowed, control).take(allowed.len() as int) =~= allowed);
}

} // verus!
