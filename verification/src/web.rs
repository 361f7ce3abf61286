//! Web lookups on a campaign's allowance: what a worker may look up, at what
//! price, and what is believed of the answer.
use vstd::prelude::*;
use crate::authority::{ModelPermit, PermitState, PermitStateView};
use crate::errors::PermitError;
use crate::model::{RequestClass, RequestReservation};
use crate::outside;
use crate::text;

verus! {

/// A kind of control request that the host allows or does not.
#[derive(Clone, Copy, Debug, PartialEq, Eq, Structural)]
pub enum Control {
    Templates,
    Spawn,
    Group,
    Propose,
    ProposeGroup,
    Cancel,
    GroupStatus,
    GroupResize,
    Status,
    List,
    Result,
    Send,
    Steer,
    Wait,
    Resource,
    Todo,
    Monitor,
    MonitorAvailability,
    WebSearch,
    WebFetch,
}

/// What a campaign allows of the web.
#[derive(Debug)]
pub struct CampaignWeb {
    pub max_requests: u32,
    pub max_server_calls: u32,
    pub inference_provider: String,
}

/// What the host allows of the web. Times are seconds, prices millionths of a
/// dollar.
#[derive(Clone, Copy, Debug, PartialEq, Eq, Structural)]
pub struct WebPolicy {
    pub enabled: bool,
    pub max_requests: u32,
    pub max_server_calls: u32,
    pub max_fetch_urls: u8,
    pub server_call_micro_usd: u64,
    pub timeout_secs: u64,
    pub input_tokens: u64,
    pub output_tokens: u64,
    pub input_micro_usd_per_million: Option<u64>,
    pub output_micro_usd_per_million: Option<u64>,
    pub max_request_cost_micro_usd: u64,
    pub turn_tokens: u64,
    pub turn_cost_micro_usd: u64,
}

/// How many resident workers a host has room for unless it says otherwise.
pub const DEFAULT_RESIDENTS: usize = 64;

/// How long a lookup may take where no policy says so, in seconds.
pub const DEFAULT_WEB_SECS: u64 = 60;

/// What a host lets its workers ask for.
pub struct BrokerPolicy {
    pub resident_capacity: usize,
    /// The kinds of control request that it allows, each once.
    pub allowed: Vec<Control>,
    pub web: Option<(CampaignWeb, WebPolicy)>,
}

/// Whether a provider is the one that only routes to others.
pub open spec fn routes(provider: Seq<char>) -> bool {
    text::same_but_case(provider, "openrouter"@)
}

/// Whether a campaign's allowance is within what any host allows.
pub open spec fn allowance_valid(grant: CampaignWeb) -> bool {
    &&& 1 <= grant.max_requests <= 4
    &&& 1 <= grant.max_server_calls <= 16
    &&& !text::blank(grant.inference_provider@)
    &&& text::byte_len(grant.inference_provider@) <= 128
    &&& !routes(grant.inference_provider@)
    &&& text::plain_word(grant.inference_provider@)
}

/// Some kinds of control request, and one more.
pub open spec fn with_control(allowed: Seq<Control>, control: Control) -> Seq<Control> {
    if allowed.contains(control) {
        allowed
    } else {
        allowed.push(control)
    }
}

/// Some kinds of control request, and some more: each once, in the order in which
/// they came first.
pub open spec fn with_all(allowed: Seq<Control>, controls: Seq<Control>) -> Seq<Control>
    decreases controls.len(),
{
    if controls.len() == 0 {
        allowed
    } else {
        with_control(with_all(allowed, controls.drop_last()), controls.last())
    }
}

/// Adding kinds of control request to some that name none twice allows both, no
/// others, and names none twice.
pub proof fn controls_are_allowed_once(allowed: Seq<Control>, controls: Seq<Control>)
    requires
        allowed.no_duplicates(),
    ensures
        with_all(allowed, controls).no_duplicates(),
        forall|control: Control| #[trigger]
            with_all(allowed, controls).contains(control) <==> allowed.contains(control)
                || controls.contains(control),
    decreases controls.len(),
{
    if controls.len() > 0 {
        let fewer = controls.drop_last();
        controls_are_allowed_once(allowed, fewer);
        let before = with_all(allowed, fewer);
        let after = with_all(allowed, controls);
        assert forall|control: Control| #[trigger] after.contains(control) <==> allowed.contains(
            control,
        ) || controls.contains(control) by {
            assert(controls == fewer.push(controls.last()));
            if before.contains(control) {
                let i = choose|i: int| 0 <= i < before.len() && before[i] == control;
                assert(after[i] == control);
            }
            if fewer.contains(control) {
                let i = choose|i: int| 0 <= i < fewer.len() && fewer[i] == control;
                assert(controls[i] == control);
            }
            if control == controls.last() {
                assert(controls[controls.len() - 1] == control);
                if !before.contains(control) {
                    assert(after[before.len() as int] == control);
                }
            }
            if after.contains(control) && !before.contains(control) {
                let i = choose|i: int| 0 <= i < after.len() && after[i] == control;
                assert(i == before.len());
            }
            if controls.contains(control) && control != controls.last() {
                let i = choose|i: int| 0 <= i < controls.len() && controls[i] == control;
                assert(fewer[i] == control);
            }
        }
    }
}

fn contains_control(allowed: &Vec<Control>, control: Control) -> (res: bool)
    ensures
        res == allowed@.contains(control),
{
    let mut i: usize = 0;
    while i < allowed.len()
        invariant
            i <= allowed.len(),
            forall|j: int| 0 <= j < i ==> allowed@[j] != control,
        decreases allowed.len() - i,
    {
        if allowed[i] == control {
            assert(allowed@[i as int] == control);
            return true;
        }
        i = i + 1;
    }
    false
}

fn add_control(allowed: &mut Vec<Control>, control: Control)
    ensures
        final(allowed)@ == with_control(old(allowed)@, control),
{
    if !contains_control(allowed, control) {
        allowed.push(control);
    }
}

impl BrokerPolicy {
    /// No kind of control request is named twice.
    pub open spec fn well_formed(&self) -> bool {
        self.allowed@.no_duplicates()
    }

    /// A host that allows nothing.
    pub fn new() -> (res: BrokerPolicy)
        ensures
            res.resident_capacity == DEFAULT_RESIDENTS,
            res.allowed@ == Seq::<Control>::empty(),
            res.web is None,
            res.well_formed(),
    {
        BrokerPolicy { resident_capacity: DEFAULT_RESIDENTS, allowed: Vec::new(), web: None }
    }

    /// Allow these kinds of control request, and no others.
    pub fn with_controls(self, controls: Vec<Control>) -> (res: BrokerPolicy)
        ensures
            res.allowed@ == with_all(Seq::empty(), controls@),
            res.resident_capacity == self.resident_capacity,
            res.web == self.web,
            res.well_formed(),
            forall|control: Control| #[trigger]
                res.allowed@.contains(control) <==> controls@.contains(control),
    {
        let mut allowed: Vec<Control> = Vec::new();
        let mut i: usize = 0;
        while i < controls.len()
            invariant
                i <= controls.len(),
                allowed@ == with_all(Seq::empty(), controls@.take(i as int)),
            decreases controls.len() - i,
        {
            assert(controls@.take(i + 1).drop_last() == controls@.take(i as int));
            add_control(&mut allowed, controls[i]);
            i = i + 1;
        }
        assert(controls@.take(i as int) == controls@);
        proof {
            controls_are_allowed_once(Seq::empty(), controls@);
        }
        BrokerPolicy { allowed, ..self }
    }

    /// Whether a kind of control request is allowed.
    pub fn allows(&self, control: Control) -> (res: bool)
        ensures
            res == self.allowed@.contains(control),
    {
        contains_control(&self.allowed, control)
    }

    /// Allow a campaign's web lookups, where the host's policy is enabled.
    /// `valid` says what is wrong with the policy if anything is.
    pub fn with_web(self, grant: CampaignWeb, policy: WebPolicy, valid: Result<(), String>) -> (res:
        Result<BrokerPolicy, PermitError>)
        ensures
            match valid {
                Err(error) => res == Err::<BrokerPolicy, _>(PermitError::Host(error)),
                Ok(_) => if !allowance_valid(grant) {
                    res == Err::<BrokerPolicy, _>(PermitError::InvalidWebAllowance)
                } else if !policy.enabled {
                    res == Ok::<_, PermitError>(self)
                } else {
                    res matches Ok(host) && host.resident_capacity == self.resident_capacity
                        && host.allowed@ == with_control(
                        with_control(self.allowed@, Control::WebSearch),
                        Control::WebFetch,
                    ) && host.web == Some((grant, policy))
                },
            },
            self.well_formed() ==> (res matches Ok(host) ==> host.well_formed()),
    {
        if let Err(error) = valid {
            return Err(PermitError::Host(error));
        }
        if grant.max_requests < 1 || grant.max_requests > 4 || grant.max_server_calls < 1
            || grant.max_server_calls > 16 || text::is_blank(&grant.inference_provider)
            || text::text_len(&grant.inference_provider) > 128 || text::is_same_but_case(
            &grant.inference_provider,
            "openrouter",
        ) || !text::is_plain_word(&grant.inference_provider) {
            return Err(PermitError::InvalidWebAllowance);
        }
        if !policy.enabled {
            return Ok(self);
        }
        let mut allowed = self.allowed;
        add_control(&mut allowed, Control::WebSearch);
        add_control(&mut allowed, Control::WebFetch);
        Ok(
            BrokerPolicy {
                resident_capacity: self.resident_capacity,
                allowed,
                web: Some((grant, policy)),
            },
        )
    }
}

/// A lookup: a search, or a number of pages to fetch.
#[derive(Clone, Copy, Debug, PartialEq, Eq, Structural)]
pub enum WebLookup {
    Search,
    Fetch { urls: usize },
}

/// How many calls of a server a lookup makes.
pub open spec fn calls_of(lookup: WebLookup) -> u8 {
    match lookup {
        WebLookup::Fetch { urls } => (urls % 256) as u8,
        WebLookup::Search => 1,
    }
}

/// When a lookup that begins now must have ended.
pub open spec fn web_deadline_spec(deadline: u64, now: u64, timeout_secs: u64) -> u64 {
    if now + 1000 * timeout_secs <= deadline {
        (now + 1000 * timeout_secs) as u64
    } else {
        deadline
    }
}

/// When a lookup that begins now must have ended.
pub fn web_deadline(deadline: u64, now: u64, timeout_secs: u64) -> (res: u64)
    ensures
        res == web_deadline_spec(deadline, now, timeout_secs),
        res <= deadline,
{
    let limit: u128 = now as u128 + 1000 * timeout_secs as u128;
    if limit <= deadline as u128 {
        limit as u64
    } else {
        deadline
    }
}

/// How long a lookup may take, in seconds.
pub fn web_timeout_secs(policy: &BrokerPolicy) -> (res: u64)
    ensures
        res == match policy.web {
            Some(web) => web.1.timeout_secs,
            None => DEFAULT_WEB_SECS,
        },
{
    match &policy.web {
        Some(web) => web.1.timeout_secs,
        None => DEFAULT_WEB_SECS,
    }
}

/// Whether a lookup stays within its reservation, but for its fees.
pub open spec fn within_bounds(
    caller_id: Seq<char>,
    reservation: RequestReservation,
    grant: CampaignWeb,
    configured: WebPolicy,
    calls: u8,
) -> bool {
    &&& caller_id == reservation.identity.work_id@
    &&& reservation.identity.class == RequestClass::Work
    &&& reservation.estimate.provider@ == grant.inference_provider@
    &&& !routes(reservation.estimate.provider@)
    &&& calls <= configured.max_fetch_urls
    &&& configured.input_tokens <= reservation.estimate.input_tokens
}

/// Why a lookup is refused before it waits for its turn, if it is. The first
/// reason counts. `control` is the kind of the request, `is_web` whether it is a
/// web request at all; `valid` says what is wrong with it if anything is.
pub open spec fn web_refusal(
    policy: BrokerPolicy,
    control: Control,
    is_web: bool,
    lookup: WebLookup,
    caller_id: Seq<char>,
    reservation: RequestReservation,
    valid: Result<(), String>,
) -> Option<PermitError> {
    if valid is Err {
        Some(PermitError::Host(valid->Err_0))
    } else if policy.web is None {
        Some(PermitError::NoWebAllowance)
    } else {
        let web = policy.web->0;
        let grant = web.0;
        let configured = web.1;
        let fee = configured.server_call_micro_usd * calls_of(lookup);
        if !configured.enabled || !policy.allowed@.contains(control) {
            Some(PermitError::WebControlDenied)
        } else if !is_web {
            Some(PermitError::NotWeb)
        } else if !within_bounds(caller_id, reservation, grant, configured, calls_of(lookup)) {
            Some(PermitError::WebBoundsExceeded)
        } else if fee > u64::MAX {
            Some(PermitError::FeeOverflow)
        } else if reservation.estimate.other_micro_usd < fee || !(1
            <= reservation.estimate.output_tokens <= 8192) {
            Some(PermitError::WebBoundsExceeded)
        } else {
            None
        }
    }
}

fn count_calls(lookup: WebLookup) -> (res: u8)
    ensures
        res == calls_of(lookup),
{
    match lookup {
        WebLookup::Fetch { urls } => (urls % 256) as u8,
        WebLookup::Search => 1,
    }
}

/// Whether a lookup is within what was allowed and reserved, and how many calls
/// of a server it makes. For the parameters see `web_refusal`.
pub fn check_web(
    policy: &BrokerPolicy,
    control: Control,
    is_web: bool,
    lookup: WebLookup,
    caller_id: &String,
    reservation: &RequestReservation,
    valid: Result<(), String>,
) -> (res: Result<u8, PermitError>)
    ensures
        match web_refusal(*policy, control, is_web, lookup, caller_id@, *reservation, valid) {
            Some(error) => res == Err::<u8, _>(error),
            None => res == Ok::<_, PermitError>(calls_of(lookup)),
        },
{
    if let Err(error) = valid {
        return Err(PermitError::Host(error));
    }
    let (grant, configured) = match &policy.web {
        None => {
            return Err(PermitError::NoWebAllowance);
        },
        Some(web) => (&web.0, &web.1),
    };
    if !configured.enabled || !policy.allows(control) {
        return Err(PermitError::WebControlDenied);
    }
    if !is_web {
        return Err(PermitError::NotWeb);
    }
    let calls: u8 = count_calls(lookup);
    let estimate = &reservation.estimate;
    if *caller_id != reservation.identity.work_id || reservation.identity.class
        != RequestClass::Work || estimate.provider != grant.inference_provider
        || text::is_same_but_case(&estimate.provider, "openrouter") || calls
        > configured.max_fetch_urls || estimate.input_tokens < configured.input_tokens {
        return Err(PermitError::WebBoundsExceeded);
    }
    match configured.server_call_micro_usd.checked_mul(calls as u64) {
        None => Err(PermitError::FeeOverflow),
        Some(fee) => if estimate.other_micro_usd < fee || estimate.output_tokens < 1
            || estimate.output_tokens > 8192 {
            Err(PermitError::WebBoundsExceeded)
        } else {
            Ok(calls)
        },
    }
}

/// The smaller of two numbers.
pub open spec fn smaller(one: u32, two: u32) -> u32 {
    if one <= two {
        one
    } else {
        two
    }
}

/// Why there is no policy for a lookup, if there is none: `bound` is the most
/// that one request may take, in tokens and in millionths of a dollar.
pub open spec fn policy_refusal(
    grant: CampaignWeb,
    configured: WebPolicy,
    bound: Option<(u64, u64)>,
) -> Option<PermitError> {
    let requests = smaller(grant.max_requests, configured.max_requests);
    match bound {
        None => Some(PermitError::InvalidWebEstimate),
        Some(bound) => if bound.0 * requests > u64::MAX {
            Some(PermitError::TokenOverflow)
        } else if bound.1 * requests > u64::MAX {
            Some(PermitError::CostOverflow)
        } else {
            None
        },
    }
}

/// The policy of one lookup: the narrower of the campaign's and the host's
/// numbers, at the price that was reserved.
pub open spec fn narrowed(
    grant: CampaignWeb,
    configured: WebPolicy,
    reservation: RequestReservation,
    bound: (u64, u64),
) -> WebPolicy {
    let requests = smaller(grant.max_requests, configured.max_requests);
    WebPolicy {
        max_requests: requests,
        max_server_calls: smaller(grant.max_server_calls, configured.max_server_calls),
        input_tokens: reservation.estimate.input_tokens,
        output_tokens: reservation.estimate.output_tokens,
        input_micro_usd_per_million: None,
        output_micro_usd_per_million: None,
        max_request_cost_micro_usd: bound.1,
        turn_tokens: (bound.0 * requests) as u64,
        turn_cost_micro_usd: (bound.1 * requests) as u64,
        ..configured
    }
}

fn smaller_of(one: u32, two: u32) -> (res: u32)
    ensures
        res == smaller(one, two),
{
    if one <= two {
        one
    } else {
        two
    }
}

/// The policy of one lookup. `bound` is the most that one request may take, in
/// tokens and in millionths of a dollar, where that can be computed.
pub fn web_policy(
    grant: &CampaignWeb,
    configured: &WebPolicy,
    reservation: &RequestReservation,
    bound: Option<(u64, u64)>,
) -> (res: Result<WebPolicy, PermitError>)
    ensures
        match policy_refusal(*grant, *configured, bound) {
            Some(error) => res == Err::<WebPolicy, _>(error),
            None => res == Ok::<_, PermitError>(
                narrowed(*grant, *configured, *reservation, bound->0),
            ),
        },
{
    let (tokens, cost): (u64, u64) = match bound {
        None => {
            return Err(PermitError::InvalidWebEstimate);
        },
        Some(bound) => bound,
    };
    let max_requests: u32 = smaller_of(grant.max_requests, configured.max_requests);
    let turn_tokens: u64 = match tokens.checked_mul(max_requests as u64) {
        None => {
            return Err(PermitError::TokenOverflow);
        },
        Some(total) => total,
    };
    let turn_cost_micro_usd: u64 = match cost.checked_mul(max_requests as u64) {
        None => {
            return Err(PermitError::CostOverflow);
        },
        Some(total) => total,
    };
    Ok(
        WebPolicy {
            max_requests,
            max_server_calls: smaller_of(grant.max_server_calls, configured.max_server_calls),
            input_tokens: reservation.estimate.input_tokens,
            output_tokens: reservation.estimate.output_tokens,
            input_micro_usd_per_million: None,
            output_micro_usd_per_million: None,
            max_request_cost_micro_usd: cost,
            turn_tokens,
            turn_cost_micro_usd,
            ..*configured
        },
    )
}

/// The scope under which a campaign's lookups are remembered.
pub fn web_scope(campaign_id: &String) -> (res: String)
    ensures
        res@ == outside::json_pair_text("campaign"@, campaign_id@),
{
    outside::json_pair("campaign", campaign_id)
}

/// Why a lookup has no authority, if it has none. The first reason counts.
pub open spec fn web_authority_refusal(
    state: PermitStateView,
    nonce: u128,
    binding: RequestReservation,
    now: u64,
    deadline: u64,
    closed: bool,
    funding: Result<(), String>,
) -> Option<PermitError> {
    if !state.grants.dom().contains(nonce) {
        Some(PermitError::UnknownPermit)
    } else if !state.authorizes(nonce, binding, closed) || now >= deadline {
        Some(PermitError::RevokedWebAuthority)
    } else if funding is Err {
        Some(PermitError::Host(funding->Err_0))
    } else {
        None
    }
}

/// Whether a lookup may be reserved now.
pub fn authorize_web(
    state: &PermitState,
    permit: &ModelPermit,
    binding: &RequestReservation,
    now: u64,
    deadline: u64,
    closed: bool,
    funding: Result<(), String>,
) -> (res: Result<(), PermitError>)
    ensures
        match web_authority_refusal(
            state@,
            permit.nonce(),
            *binding,
            now,
            deadline,
            closed,
            funding,
        ) {
            Some(error) => res == Err::<(), _>(error),
            None => res is Ok,
        },
{
    if state.grant(permit).is_none() {
        return Err(PermitError::UnknownPermit);
    }
    if !state.is_authorized(permit, binding, closed) || now >= deadline {
        return Err(PermitError::RevokedWebAuthority);
    }
    match funding {
        Err(error) => Err(PermitError::Host(error)),
        Ok(_) => Ok(()),
    }
}

/// What the host does for a lookup that was reserved.
pub enum LookupStep<R> {
    /// An earlier lookup with the same id was settled: answer with what it came
    /// to. Nothing is claimed and no provider is called.
    Answer(R),
    /// Claim the request, then look it up, once.
    LookUp,
}

/// What is left to do for a lookup. `stored` is what the host's reservation gave
/// back: the settled outcome of an earlier lookup with the same id, if there was
/// one.
pub fn lookup_step<R>(stored: Result<Option<Result<R, String>>, String>) -> (res: Result<
    LookupStep<R>,
    PermitError,
>)
    ensures
        match stored {
            Err(error) => res == Err::<LookupStep<R>, _>(PermitError::Host(error)),
            Ok(None) => res == Ok::<_, PermitError>(LookupStep::<R>::LookUp),
            Ok(Some(Ok(result))) => res == Ok::<_, PermitError>(LookupStep::Answer(result)),
            Ok(Some(Err(error))) => res == Err::<LookupStep<R>, _>(PermitError::Host(error)),
        },
{
    match stored {
        Err(error) => Err(PermitError::Host(error)),
        Ok(None) => Ok(LookupStep::LookUp),
        Ok(Some(Ok(result))) => Ok(LookupStep::Answer(result)),
        Ok(Some(Err(error))) => Err(PermitError::Host(error)),
    }
}

/// What is believed of an answer.
#[derive(Clone, Copy, Debug, PartialEq, Eq, Structural)]
pub enum WebStatus {
    Grounded,
    Unverified,
    /// Any other standing.
    Other,
}

/// What is believed of an answer whose usage is known or not: nothing is taken
/// as grounded that may not have been paid for.
pub fn believed(status: WebStatus, usage_known: bool) -> (res: WebStatus)
    ensures
        res == if status == WebStatus::Grounded && !usage_known {
            WebStatus::Unverified
        } else {
            status
        },
{
    if status == WebStatus::Grounded && !usage_known {
        WebStatus::Unverified
    } else {
        status
    }
}

/// What a lookup brought. `U` is what it used, where that is known.
pub struct WebCompletion<U, R> {
    pub usage: Option<U>,
    pub status: WebStatus,
    pub result: R,
}

/// What is remembered of a lookup: what it used, and its answer. One that failed,
/// or did not end in time, may have been paid for.
pub fn settle_lookup<U, R>(completion: Option<WebCompletion<U, R>>) -> (res: (
    Option<U>,
    Result<(WebStatus, R), PermitError>,
))
    ensures
        match completion {
            None => res == (None::<U>, Err::<(WebStatus, R), _>(PermitError::WebFailed)),
            Some(done) => res.0 == done.usage && (res.1 matches Ok(answer) && answer.1
                == done.result && answer.0 == if done.status == WebStatus::Grounded
                && done.usage is None {
                WebStatus::Unverified
            } else {
                done.status
            }),
        },
{
    match completion {
        None => (None, Err(PermitError::WebFailed)),
        Some(done) => {
            let status = believed(done.status, done.usage.is_some());
            (done.usage, Ok((status, done.result)))
        },
    }
}

/// Whether a server was used no more often than a lookup may.
pub fn check_uses(searches: Option<u64>, fetches: Option<u64>, calls: u8) -> (res: Result<
    (),
    PermitError,
>)
    ensures
        if searches.unwrap_or(0) + fetches.unwrap_or(0) > calls {
            res == Err::<(), _>(PermitError::WebUseExceeded)
        } else {
            res is Ok
        },
{
    let searches: u64 = match searches {
        Some(uses) => uses,
        None => 0,
    };
    let fetches: u64 = match fetches {
        Some(uses) => uses,
        None => 0,
    };
    if searches.saturating_add(fetches) > calls as u64 {
        Err(PermitError::WebUseExceeded)
    } else {
        Ok(())
    }
}

/// What a worker is answered: a lookup that failed in any way is denied.
pub enum WebReply<R> {
    Denied,
    Search(R),
    Fetch(R),
}

/// What a worker is answered.
pub fn answer_web<R>(search: bool, outcome: Result<R, PermitError>) -> (res: WebReply<R>)
    ensures
        res == match outcome {
            Err(_) => WebReply::<R>::Denied,
            Ok(result) => if search {
                WebReply::Search(result)
            } else {
                WebReply::Fetch(result)
            },
        },
{
    match outcome {
        Err(_) => WebReply::Denied,
        Ok(result) => if search {
            WebReply::Search(result)
        } else {
            WebReply::Fetch(result)
        },
    }
}

} // verus!
