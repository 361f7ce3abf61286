//! What permits, their accounting and native jobs come to, in terms of the plain
//! values that go in and come out.
use vstd::prelude::*;
use crate::authority;
use crate::authority::{Grant, IssueReads, PermitLease, PermitStateView};
use crate::cpu_jobs;
use crate::cpu_jobs::{CpuJobRequest, CpuJobStep, CpuJobsView, JobLimits};
use crate::dispatch;
use crate::dispatch::{DispatchReads, DispatchRecord, DispatchStep};
use crate::errors::PermitError;
use crate::ledger;
use crate::ledger::LedgerView;
use crate::model;
use crate::model::{AdmittedWork, Pool, RequestClass, RequestReservation};
use crate::outside;
use crate::text;

verus! {

/// Two requests are the same exactly where they agree in every field.
pub proof fn requests_are_the_same_in_every_field(
    one: RequestReservation,
    two: RequestReservation,
)
    ensures
        one@ == two@ <==> {
            &&& one.identity.campaign_id@ == two.identity.campaign_id@
            &&& one.identity.work_id@ == two.identity.work_id@
            &&& one.identity.attempt_id@ == two.identity.attempt_id@
            &&& one.identity.generation == two.identity.generation
            &&& one.identity.instruction_revision == two.identity.instruction_revision
            &&& one.identity.class == two.identity.class
            &&& one.estimate.base_url@ == two.estimate.base_url@
            &&& one.estimate.model@ == two.estimate.model@
            &&& one.estimate.provider@ == two.estimate.provider@
            &&& one.estimate.pricing_revision@ == two.estimate.pricing_revision@
            &&& one.estimate.max_request_bytes == two.estimate.max_request_bytes
            &&& one.estimate.input_tokens == two.estimate.input_tokens
            &&& one.estimate.output_tokens == two.estimate.output_tokens
            &&& one.estimate.input_micro_usd_per_million
                == two.estimate.input_micro_usd_per_million
            &&& one.estimate.output_micro_usd_per_million
                == two.estimate.output_micro_usd_per_million
            &&& one.estimate.other_micro_usd == two.estimate.other_micro_usd
        },
        one@.identity == one.identity@ && one@.estimate == one.estimate@,
{
}

/// Two pieces of admitted work are the same exactly where they agree in every
/// field, and their dispatches came equally far with the same worker.
pub proof fn funding_is_the_same_in_every_field(one: AdmittedWork, two: AdmittedWork)
    ensures
        one.same_as(&two) <==> {
            &&& one.dispatch_id@ == two.dispatch_id@
            &&& one.admission.work_id@ == two.admission.work_id@
            &&& one.admission.campaign_id@ == two.admission.campaign_id@
            &&& one.admission.objective@ == two.admission.objective@
            &&& one.admission.generation == two.admission.generation
            &&& one.admission.instruction_revision == two.admission.instruction_revision
            &&& one.admission.pool == two.admission.pool
            &&& one.admission.upper_bound.tokens == two.admission.upper_bound.tokens
            &&& one.admission.upper_bound.cost_micro_usd == two.admission.upper_bound.cost_micro_usd
            &&& one.state is Admitted == two.state is Admitted
            &&& one.state is DispatchingUnknown == two.state is DispatchingUnknown
            &&& one.state is Registered == two.state is Registered
            &&& one.state is ConfirmedUnspent == two.state is ConfirmedUnspent
            &&& one.state is Cancelled == two.state is Cancelled
            &&& one.state is Registered && two.state is Registered ==> one.state->worker_id@
                == two.state->worker_id@
        },
{
}

/// Verification is paid for from its own pool, and nothing else is.
pub proof fn verification_has_its_own_pool(class: RequestClass)
    ensures
        model::pool_of_spec(class) == Pool::Verification <==> class == RequestClass::Verification,
        model::pool_of_spec(class) == Pool::Work <==> class == RequestClass::Work || class
            == RequestClass::Compaction,
{
}

/// An id names something where some character of it is no white space, and it
/// takes at most 256 bytes. One character that is no white space anywhere is
/// enough, and what is appended to an id can only make it too long.
pub proof fn ids_are_short_and_not_blank(id: Seq<char>, more: Seq<char>)
    ensures
        text::valid_id(id) <==> vstd::utf8::encode_utf8(id).len() <= 256 && exists|i: int|
            0 <= i < id.len() && !outside::white_space(#[trigger] id[i]),
        text::blank(id + more) <==> text::blank(id) && text::blank(more),
        text::byte_len(id) == vstd::utf8::encode_utf8(id).len(),
{
    let all = id + more;
    if text::blank(all) {
        assert forall|i: int| 0 <= i < id.len() implies outside::white_space(#[trigger] id[i]) by {
            assert(all[i] == id[i]);
        }
        assert forall|i: int| 0 <= i < more.len() implies outside::white_space(
            #[trigger] more[i],
        ) by {
            assert(all[id.len() + i] == more[i]);
        }
    }
    if text::blank(id) && text::blank(more) {
        assert forall|i: int| 0 <= i < all.len() implies outside::white_space(
            #[trigger] all[i],
        ) by {
            if i >= id.len() {
                assert(all[i] == more[i - id.len()]);
            }
        }
    }
}

/// The number that decimal digits stand for.
pub open spec fn number_of(digits: Seq<char>) -> int
    decreases digits.len(),
{
    if digits.len() == 0 {
        0
    } else {
        10 * number_of(digits.drop_last()) + (digits.last() as int - '0' as int)
    }
}

/// A number that is written down is read back as itself: it is written in decimal
/// digits only, and without leading zeros.
pub proof fn numbers_are_read_back(value: nat)
    ensures
        number_of(text::decimal(value)) == value,
        text::decimal(value).len() > 0,
        forall|i: int|
            0 <= i < text::decimal(value).len() ==> '0' <= #[trigger] text::decimal(value)[i]
                <= '9',
        value > 0 ==> text::decimal(value)[0] != '0',
    decreases value,
{
    if value >= 10 {
        numbers_are_read_back(value / 10);
        let digits = text::decimal(value);
        assert(digits.drop_last() == text::decimal(value / 10));
        assert(digits[0] == text::decimal(value / 10)[0]);
        assert(text::digit(value % 10) as int == 48 + value % 10);
        assert forall|i: int| 0 <= i < digits.len() implies '0' <= #[trigger] digits[i] <= '9' by {
            if i < digits.len() - 1 {
                assert(digits[i] == text::decimal(value / 10)[i]);
            }
        }
    } else {
        let digits = text::decimal(value);
        assert(digits.drop_last() == Seq::<char>::empty());
        assert(text::digit(value) as int == 48 + value);
        assert(number_of(digits.drop_last()) == 0);
    }
}

/// Joining one text gives that text, joining none gives nothing, and joining some
/// and then more is joining both with the separator between them: so every text
/// stands there whole, and in order.
pub proof fn joined_texts_stand_in_order(
    some: Seq<String>,
    more: Seq<String>,
    separator: Seq<char>,
)
    ensures
        some.len() == 0 ==> text::joined(some, separator) == Seq::<char>::empty(),
        some.len() == 1 ==> text::joined(some, separator) == some[0]@,
        some.len() > 0 && more.len() > 0 ==> text::joined(some + more, separator) == text::joined(
            some,
            separator,
        ) + separator + text::joined(more, separator),
    decreases more.len(),
{
    if some.len() > 0 && more.len() > 0 {
        let all = some + more;
        assert(all.last() == more.last());
        assert(all.drop_last() == some + more.drop_last());
        if more.len() > 1 {
            joined_texts_stand_in_order(some, more.drop_last(), separator);
            assert(text::joined(all, separator) =~= text::joined(some, separator) + separator
                + text::joined(more, separator));
        } else {
            assert(all.drop_last() == some);
        }
    }
}

/// The number that a hexadecimal digit stands for.
pub open spec fn digit_value(digit: char) -> int {
    if '0' <= digit <= '9' {
        digit as int - '0' as int
    } else {
        digit as int - 'a' as int + 10
    }
}

/// Whether a text holds a byte as two hexadecimal digits in lower case.
pub open spec fn holds_byte(digits: Seq<char>, at: int, byte: u8) -> bool {
    let high = digits[at];
    let low = digits[at + 1];
    &&& '0' <= high <= '9' || 'a' <= high <= 'f'
    &&& '0' <= low <= '9' || 'a' <= low <= 'f'
    &&& byte == 16 * digit_value(high) + digit_value(low)
}

/// Every byte is written as its own two hexadecimal digits, in order and in lower
/// case, so that different bytes are written differently.
pub proof fn bytes_are_written_in_hexadecimal(bytes: Seq<u8>)
    ensures
        text::hex(bytes).len() == 2 * bytes.len(),
        forall|i: int|
            0 <= i < bytes.len() ==> holds_byte(text::hex(bytes), 2 * i, #[trigger] bytes[i]),
    decreases bytes.len(),
{
    if bytes.len() > 0 {
        let fewer = bytes.drop_last();
        bytes_are_written_in_hexadecimal(fewer);
        let last = bytes.last() as int;
        assert(0 <= last / 16 < 16 && 0 <= last % 16 < 16 && last == 16 * (last / 16) + last % 16);
        assert forall|i: int| 0 <= i < bytes.len() implies holds_byte(
            text::hex(bytes),
            2 * i,
            #[trigger] bytes[i],
        ) by {
            if i < fewer.len() {
                assert(fewer[i] == bytes[i]);
                assert(text::hex(bytes)[2 * i] == text::hex(fewer)[2 * i]);
                assert(text::hex(bytes)[2 * i + 1] == text::hex(fewer)[2 * i + 1]);
            } else {
                assert(text::hex(bytes)[2 * i] == outside::hex_digit(last / 16));
                assert(text::hex(bytes)[2 * i + 1] == outside::hex_digit(last % 16));
            }
        }
    }
}

/// Two texts are the same but for case where they are equally long and each
/// character is the other's, or one is a letter from A to Z and the other the same
/// letter in lower case.
pub proof fn only_the_case_of_letters_is_ignored(one: Seq<char>, two: Seq<char>)
    ensures
        text::same_but_case(one, two) <==> one.len() == two.len() && forall|i: int|
            0 <= i < one.len() ==> {
                let (a, b) = (#[trigger] one[i] as int, two[i] as int);
                ||| a == b
                ||| 'A' as int <= a <= 'Z' as int && b == a + 32
                ||| 'A' as int <= b <= 'Z' as int && a == b + 32
            },
        text::same_but_case(one, two) == text::same_but_case(two, one),
        text::same_but_case(one, one),
{
    assert(one.len() == two.len() ==> forall|i: int|
        0 <= i < one.len() ==> (text::folded(#[trigger] one[i]) == text::folded(two[i]) <==> {
            let (a, b) = (one[i] as int, two[i] as int);
            ||| a == b
            ||| 'A' as int <= a <= 'Z' as int && b == a + 32
            ||| 'A' as int <= b <= 'Z' as int && a == b + 32
        }));
    if text::same_but_case(two, one) {
        assert forall|i: int| 0 <= i < one.len() implies text::folded(#[trigger] one[i])
            == text::folded(two[i]) by {
            assert(text::folded(two[i]) == text::folded(one[i]));
        }
    }
    if text::same_but_case(one, two) {
        assert forall|i: int| 0 <= i < two.len() implies text::folded(#[trigger] two[i])
            == text::folded(one[i]) by {
            assert(text::folded(one[i]) == text::folded(two[i]));
        }
    }
}

/// A capability allows exactly the request of its grant, and only while the grant
/// is active, not paused and not closed, and the capability is the current one of
/// the work.
pub proof fn a_permit_allows_its_own_request_only(
    state: PermitStateView,
    nonce: u128,
    request: RequestReservation,
    closed: bool,
)
    ensures
        state.authorizes(nonce, request, closed) <==> {
            &&& state.grants.dom().contains(nonce)
            &&& state.grants[nonce].active
            &&& !state.grants[nonce].paused
            &&& state.grants[nonce].lease is None || !closed
            &&& state.grants[nonce].request@ == request@
            &&& state.current.dom().contains(request.identity.work_id@)
            &&& state.current[request.identity.work_id@] == nonce
        },
        state.grant(nonce) == (if state.grants.dom().contains(nonce) {
            Some(state.grants[nonce])
        } else {
            None
        }),
{
}

/// A capability is that of a worker that waits where its grant is active and
/// paused but not closed, and it is the current one of the work.
pub proof fn waiting_permits_are_active_and_paused(
    state: PermitStateView,
    nonce: u128,
    work: Seq<char>,
    closed: bool,
)
    ensures
        state.suspended(nonce, work, closed) <==> {
            &&& state.grants.dom().contains(nonce)
            &&& state.grants[nonce].active
            &&& state.grants[nonce].paused
            &&& state.grants[nonce].lease is None || !closed
            &&& state.current.dom().contains(work)
            &&& state.current[work] == nonce
        },
{
}

/// A lease closes the grants that name it, once it is closed, and no others; a
/// grant that names none is closed by none.
pub proof fn leases_close_what_names_them(lease: PermitLease, grant: Grant, closed: bool)
    ensures
        lease.closes_spec(grant) <==> lease.closed_spec() && grant.lease is Some && grant.lease->0
            == lease.id_spec(),
        grant.live(closed) <==> grant.active && !grant.paused && (grant.lease is None || !closed),
{
}

/// Whether a request and its funding are of one piece of work, at the same
/// generation and from the right pool, and are named properly.
pub open spec fn fits_its_funding(request: RequestReservation, funding: AdmittedWork) -> bool {
    &&& request.identity.campaign_id@ == funding.admission.campaign_id@
    &&& request.identity.work_id@ == funding.admission.work_id@
    &&& request.identity.generation == funding.admission.generation
    &&& request.identity.generation > 0
    &&& request.identity.instruction_revision > 0
    &&& (request.identity.class == RequestClass::Verification) == (funding.admission.pool
        == Pool::Verification)
    &&& text::valid_id(request.identity.campaign_id@)
    &&& text::valid_id(request.identity.work_id@)
    &&& text::valid_id(request.identity.attempt_id@)
}

/// A permit is issued where the request has a bound, fits its funding, names the
/// current capability of the work as the one to replace, and the store admits the
/// funding at the request's own revision; and each of these, where it is the first
/// that fails, is what the refusal says.
pub proof fn permits_are_issued_for_funded_work(
    state: PermitStateView,
    request: RequestReservation,
    funding: AdmittedWork,
    replace: Option<u128>,
    reads: IssueReads,
)
    ensures
        ({
            let refusal = state.issue_refusal(request, funding, replace, reads);
            let work = request.identity.work_id@;
            let bounded = reads.bound is Ok;
            let fits = bounded && fits_its_funding(request, funding);
            let replaces = fits && match replace {
                None => !state.current.dom().contains(work),
                Some(nonce) => state.current.dom().contains(work) && state.current[work] == nonce,
            };
            let funded = replaces && reads.funding is Ok;
            let read = funded && reads.revision is Ok;
            let applied = read && reads.revision->Ok_0 == request.identity.instruction_revision;
            let known = replace is None || state.grants.dom().contains(replace->0);
            &&& refusal is None <==> applied && known
            &&& !bounded ==> refusal == Some(PermitError::Host(reads.bound->Err_0))
            &&& bounded && !fits ==> refusal == Some(PermitError::ScopeMismatch)
            &&& fits && !replaces ==> refusal == Some(PermitError::ReplacementConflict)
            &&& replaces && !funded ==> refusal == Some(PermitError::Host(reads.funding->Err_0))
            &&& funded && !read ==> refusal == Some(PermitError::Host(reads.revision->Err_0))
            &&& read && !applied ==> refusal == Some(PermitError::PermitRevisionMismatch)
            &&& applied && !known ==> refusal == Some(PermitError::UnknownPermit)
        }),
{
}

/// Issuing a permit makes it the current one of its work, active and not paused,
/// for exactly this request, funding and launch; the one that it replaces keeps
/// everything but its activity, and nothing else changes.
pub proof fn issuing_changes_one_work_only(
    state: PermitStateView,
    replace: Option<u128>,
    nonce: u128,
    owner: String,
    request: RequestReservation,
    funding: AdmittedWork,
    lease: Option<u64>,
    other: u128,
    work: Seq<char>,
)
    requires
        replace != Some(nonce),
        other != nonce,
        work != request.identity.work_id@,
    ensures
        ({
            let after = state.issued(
                replace,
                nonce,
                authority::fresh_grant(owner, request, funding, lease),
            );
            let issued = after.grants[nonce];
            &&& after.grants.dom().contains(nonce)
            &&& issued.owner == owner && issued.request == request && issued.funding == funding
            &&& issued.active && !issued.paused && issued.lease == lease
            &&& after.current.dom().contains(request.identity.work_id@)
            &&& after.current[request.identity.work_id@] == nonce
            &&& after.current.dom().contains(work) == state.current.dom().contains(work)
            &&& state.current.dom().contains(work) ==> after.current[work] == state.current[work]
            &&& replace == Some(other) ==> {
                &&& !after.grants[other].active
                &&& after.grants[other].owner == state.grants[other].owner
                &&& after.grants[other].request == state.grants[other].request
                &&& after.grants[other].funding == state.grants[other].funding
                &&& after.grants[other].paused == state.grants[other].paused
                &&& after.grants[other].lease == state.grants[other].lease
            }
            &&& replace != Some(other) ==> {
                &&& after.grants.dom().contains(other) == state.grants.dom().contains(other)
                &&& state.grants.dom().contains(other) ==> after.grants[other]
                    == state.grants[other]
            }
        }),
{
}

/// Revoking and pausing a permit change that one property of its grant, and
/// nothing else of the authority: the capability stays the current one.
pub proof fn revoking_and_pausing_change_one_grant(
    state: PermitStateView,
    nonce: u128,
    paused: bool,
    other: u128,
)
    requires
        state.grants.dom().contains(nonce),
        other != nonce,
    ensures
        ({
            let revoked = state.deactivated(nonce);
            let held = state.with_pause(nonce, paused);
            let before = state.grants[nonce];
            &&& revoked.current == state.current && held.current == state.current
            &&& revoked.grants.dom().contains(nonce) && held.grants.dom().contains(nonce)
            &&& !revoked.grants[nonce].active && revoked.grants[nonce].paused == before.paused
            &&& held.grants[nonce].active == before.active && held.grants[nonce].paused == paused
            &&& revoked.grants[nonce].owner == before.owner && held.grants[nonce].owner
                == before.owner
            &&& revoked.grants[nonce].request == before.request && held.grants[nonce].request
                == before.request
            &&& revoked.grants[nonce].funding == before.funding && held.grants[nonce].funding
                == before.funding
            &&& revoked.grants[nonce].lease == before.lease && held.grants[nonce].lease
                == before.lease
            &&& revoked.grants.dom().contains(other) == state.grants.dom().contains(other)
            &&& held.grants.dom().contains(other) == state.grants.dom().contains(other)
            &&& state.grants.dom().contains(other) ==> revoked.grants[other] == state.grants[other]
                && held.grants[other] == state.grants[other]
        }),
{
}

/// At a boundary a permit gives way to one under a new secret and owner, for the
/// request at hand, on the same funding and under the same lease; nothing of any
/// other work changes.
pub proof fn boundaries_change_one_work_only(
    state: PermitStateView,
    nonce: u128,
    next: u128,
    owner: String,
    request: RequestReservation,
    other: u128,
    work: Seq<char>,
)
    requires
        state.grants.dom().contains(nonce),
        next != nonce,
        other != nonce,
        other != next,
        work != request.identity.work_id@,
    ensures
        ({
            let after = state.superseded(nonce, next, owner, request);
            let before = state.grants[nonce];
            let moved = after.grants[next];
            &&& after.grants.dom().contains(next) && after.grants.dom().contains(nonce)
            &&& moved.owner == owner && moved.request == request && moved.funding == before.funding
            &&& moved.active && !moved.paused && moved.lease == before.lease
            &&& !after.grants[nonce].active && after.grants[nonce].owner == before.owner
            &&& after.grants[nonce].request == before.request && after.grants[nonce].funding
                == before.funding
            &&& after.current.dom().contains(request.identity.work_id@)
            &&& after.current[request.identity.work_id@] == next
            &&& after.current.dom().contains(work) == state.current.dom().contains(work)
            &&& state.current.dom().contains(work) ==> after.current[work] == state.current[work]
            &&& after.grants.dom().contains(other) == state.grants.dom().contains(other)
            &&& state.grants.dom().contains(other) ==> after.grants[other] == state.grants[other]
        }),
{
}

/// A launch outside a typed attempt takes over from nothing, nor does the first one
/// of its work. One of a typed attempt takes over from the current capability, and
/// is refused while that one's own launch is not closed, or can never be.
pub proof fn launches_take_over_from_closed_ones(
    state: PermitStateView,
    work: Seq<char>,
    typed: bool,
    prior_closed: bool,
)
    ensures
        ({
            let replaces = state.launch_replaces(work, typed, prior_closed);
            let held = state.current.dom().contains(work);
            let nonce = state.current[work];
            let ended = state.grants.dom().contains(nonce) && state.grants[nonce].lease is Some
                && prior_closed;
            &&& !typed || !held ==> replaces == Ok::<_, PermitError>(None::<u128>)
            &&& typed && held && ended ==> replaces == Ok::<_, PermitError>(Some(nonce))
            &&& typed && held && !ended ==> replaces == Err::<Option<u128>, _>(
                PermitError::Protocol,
            )
        }),
{
}

/// A reservation is taken where a live permit asks for its own request at the
/// revision that the store applied, and no other request stands under its id.
pub proof fn reservations_are_taken_under_live_permits(
    grant: Option<Grant>,
    request: RequestReservation,
    closed: bool,
    reads: DispatchReads,
)
    ensures
        ({
            let refusal = dispatch::dispatch_refusal(grant, request, false, closed, reads);
            let known = grant is Some;
            let live = known && grant->0.active && !grant->0.paused && (grant->0.lease is None
                || !closed) && grant->0.request@ == request@;
            let funded = live && reads.funding is Ok;
            let read = funded && reads.revision is Ok;
            let applied = read && reads.revision->Ok_0 == request.identity.instruction_revision;
            let found = applied && reads.prior is Ok;
            let free = found && match reads.prior->Ok_0 {
                None => true,
                Some(record) => record.schema_version == 1 && record.request@ == request@,
            };
            &&& refusal is None <==> free
            &&& !known ==> refusal == Some(PermitError::UnknownModelPermit)
            &&& known && !live ==> refusal == Some(PermitError::RevokedOrMismatched)
            &&& live && !funded ==> refusal == Some(PermitError::Host(reads.funding->Err_0))
            &&& funded && !read ==> refusal == Some(PermitError::Host(reads.revision->Err_0))
            &&& read && !applied ==> refusal == Some(PermitError::HistoricalRevision)
            &&& applied && !found ==> refusal == Some(PermitError::Host(reads.prior->Err_0))
            &&& found && !free ==> refusal == Some(PermitError::RequestScopeConflict)
        }),
{
}

/// A claim goes through wherever a reservation would be taken and nothing was
/// reserved before; and where something was, only if it is not claimed yet, was
/// reserved by the same owner, and its hold may still be spent.
pub proof fn claims_take_what_was_reserved(
    grant: Option<Grant>,
    request: RequestReservation,
    closed: bool,
    reads: DispatchReads,
)
    ensures
        ({
            let taken = dispatch::dispatch_refusal(grant, request, false, closed, reads);
            let refusal = dispatch::dispatch_refusal(grant, request, true, closed, reads);
            let record = reads.prior->Ok_0->0;
            let unclaimed = !record.claimed;
            let own = unclaimed && record.owner@ == grant->0.owner@;
            let read = own && reads.ledger is Ok;
            let book = reads.ledger->Ok_0@;
            let held = read && book.reservations.dom().contains(record.receipt@);
            let hold = book.reservations[record.receipt@];
            let left = held && reads.available is Ok;
            let id = grant->0.funding.dispatch_id@;
            let spendable = left && !book.admissions_paused && book.allocations.dom().contains(id)
                && !book.allocations[id] && !hold.cancellation_requested && hold.usage is Unknown;
            &&& taken is Some ==> refusal == taken
            &&& taken is None && reads.prior->Ok_0 is None ==> refusal is None
            &&& taken is None && reads.prior->Ok_0 is Some ==> {
                &&& refusal is None <==> spendable
                &&& !unclaimed ==> refusal == Some(PermitError::AlreadyClaimed)
                &&& unclaimed && !own ==> refusal == Some(PermitError::HistoricalPermit)
                &&& own && !read ==> refusal == Some(PermitError::Host(reads.ledger->Err_0))
                &&& read && !held ==> refusal == Some(PermitError::MissingHold)
                &&& held && !left ==> refusal == Some(PermitError::Host(reads.available->Err_0))
                &&& left && !spendable ==> refusal == Some(PermitError::NotDispatchable)
            }
        }),
{
}

/// What an allowed call stores stands under the JSON pair of its allocation and its
/// id. A first call reserves under the grant's own owner; a later one stores the
/// record as it was, but for a claim that is added.
pub proof fn calls_keep_the_record(
    step: DispatchStep,
    grant: Grant,
    request_id: Seq<char>,
    claim: bool,
    reads: DispatchReads,
    owner: String,
    request: RequestReservation,
    receipt: String,
)
    requires
        reads.prior is Ok,
        dispatch::step_agrees(step, grant, request_id, claim, reads),
    ensures
        ({
            let key = outside::json_pair_text(grant.funding.dispatch_id@, request_id);
            match reads.prior->Ok_0 {
                None => step is Reserve && step->Reserve_key@ == key && step->owner == grant.owner,
                Some(prior) => {
                    &&& step is Write && step->Write_key@ == key
                    &&& step->record.schema_version == prior.schema_version
                    &&& step->record.owner == prior.owner
                    &&& step->record.request == prior.request
                    &&& step->record.receipt == prior.receipt
                    &&& step->record.claimed <==> prior.claimed || claim
                },
            }
        }),
        ({
            let first = dispatch::first_record(owner, request, receipt, claim);
            &&& first.schema_version == 1 && first.owner == owner && first.request == request
            &&& first.receipt == receipt && first.claimed == claim
        }),
{
}

/// Usage is billed where the permit is known and the record under the id is of its
/// own request and of this receipt, whatever else became of the permit.
pub proof fn usage_is_billed_to_its_receipt(
    grant: Option<Grant>,
    receipt: Seq<char>,
    record: Result<Option<DispatchRecord>, String>,
)
    ensures
        ({
            let refusal = dispatch::reconcile_refusal(grant, receipt, record);
            let known = grant is Some;
            let read = known && record is Ok;
            let found = read && record->Ok_0 is Some;
            let kept = record->Ok_0->0;
            let own = found && kept.schema_version == 1 && kept.request@ == grant->0.request@
                && kept.receipt@ == receipt;
            &&& refusal is None <==> own
            &&& !known ==> refusal == Some(PermitError::UnknownModelPermit)
            &&& known && !read ==> refusal == Some(PermitError::Host(record->Err_0))
            &&& read && !found ==> refusal == Some(PermitError::UnknownRequestId)
            &&& found && !own ==> refusal == Some(PermitError::ReconciliationMismatch)
        }),
{
}

/// Of several entries of one key the last counts.
pub proof fn the_last_entry_of_a_key_counts<V>(entries: Seq<(String, V)>, i: int)
    requires
        0 <= i < entries.len(),
        forall|j: int| i < j < entries.len() ==> (#[trigger] entries[j]).0@ != entries[i].0@,
    ensures
        ledger::lookup(ledger::collected(entries), entries[i].0@) == Some(entries[i].1),
    decreases entries.len(),
{
    let fewer = entries.drop_last();
    if i < fewer.len() {
        assert(entries[entries.len() - 1].0@ != entries[i].0@);
        assert forall|j: int| i < j < fewer.len() implies (#[trigger] fewer[j]).0@
            != fewer[i].0@ by {
            assert(entries[j].0@ != entries[i].0@);
        }
        the_last_entry_of_a_key_counts(fewer, i);
    }
}

/// A key without an entry has no value.
pub proof fn keys_without_an_entry_have_no_value<V>(entries: Seq<(String, V)>, key: Seq<char>)
    requires
        forall|j: int| 0 <= j < entries.len() ==> (#[trigger] entries[j]).0@ != key,
    ensures
        ledger::lookup(ledger::collected(entries), key) is None,
    decreases entries.len(),
{
    if entries.len() > 0 {
        let fewer = entries.drop_last();
        assert forall|j: int| 0 <= j < fewer.len() implies (#[trigger] fewer[j]).0@ != key by {
            assert(entries[j].0@ != key);
        }
        keys_without_an_entry_have_no_value(fewer, key);
        assert(entries[entries.len() - 1].0@ != key);
    }
}

/// Accounting is open as long as some hold of the allocation has no final usage;
/// holds of other allocations, or of none, do not count.
pub proof fn accounting_is_open_until_every_hold_is_final(
    book: LedgerView,
    dispatch_id: Seq<char>,
    receipt: Seq<char>,
)
    ensures
        book.accounting_open(dispatch_id) <==> exists|r: Seq<char>| #[trigger]
            book.reservations.dom().contains(r) && book.reservations[r].allocation is Some
                && book.reservations[r].allocation->0@ == dispatch_id
                && book.reservations[r].usage is Unknown,
        book.hold(receipt) == (if book.reservations.dom().contains(receipt) {
            Some(book.reservations[receipt])
        } else {
            None
        }),
        book.allocation(dispatch_id) == (if book.allocations.dom().contains(dispatch_id) {
            Some(book.allocations[dispatch_id])
        } else {
            None
        }),
{
    if book.accounting_open(dispatch_id) {
        let r = choose|r: Seq<char>| #[trigger]
            book.reservations.dom().contains(r) && ledger::open_hold(
                book.reservations[r],
                dispatch_id,
            );
        assert(book.reservations[r].usage is Unknown);
    }
    if exists|r: Seq<char>| #[trigger]
        book.reservations.dom().contains(r) && book.reservations[r].allocation is Some
            && book.reservations[r].allocation->0@ == dispatch_id
            && book.reservations[r].usage is Unknown {
        let r = choose|r: Seq<char>| #[trigger]
            book.reservations.dom().contains(r) && book.reservations[r].allocation is Some
                && book.reservations[r].allocation->0@ == dispatch_id
                && book.reservations[r].usage is Unknown;
        assert(ledger::open_hold(book.reservations[r], dispatch_id));
    }
}

/// How many ids there are.
pub open spec fn id_range() -> int {
    0x1_0000_0000_0000_0000_0000_0000_0000_0000int
}

/// The ids of a session's jobs count up from the one behind its origin, around the
/// end of the range: the session owns those that it issued, and the next one is the
/// one behind them.
pub proof fn job_ids_count_up(jobs: CpuJobsView, id: u128)
    ensures
        jobs.owns(id) <==> exists|n: int|
            1 <= n <= jobs.issued && id as int == #[trigger] ((jobs.origin + n) % id_range()),
        jobs.next_id() as int == (jobs.origin + jobs.issued + 1) % id_range(),
        !jobs.owns(jobs.origin),
{
    let n = cpu_jobs::distance(jobs.origin, id);
    assert(id as int == (jobs.origin + n) % id_range());
    if exists|n: int|
        1 <= n <= jobs.issued && id as int == #[trigger] ((jobs.origin + n) % id_range()) {
        let m = choose|n: int|
            1 <= n <= jobs.issued && id as int == #[trigger] ((jobs.origin + n) % id_range());
        if jobs.origin + m < id_range() {
            assert((jobs.origin + m) % id_range() == jobs.origin + m);
        } else {
            assert((jobs.origin + m) % id_range() == jobs.origin + m - id_range());
        }
    }
    let next = jobs.origin + jobs.issued + 1;
    if next < id_range() {
        assert(next % id_range() == next);
    } else {
        assert(next % id_range() == next - id_range());
    }
}

/// What was issued to a session is given back whenever it asks, marked as never
/// started where it says so; anything else is denied.
pub proof fn jobs_are_given_back_by_their_session<W>(
    jobs: CpuJobsView,
    authority: Option<PermitStateView>,
    busy: bool,
    nonce: u128,
    reservation: RequestReservation,
    id: u128,
    closed: bool,
    limits: JobLimits,
)
    ensures
        ({
            let ended = jobs.step_for::<W>(
                authority,
                busy,
                nonce,
                reservation,
                CpuJobRequest::Release { permit: id },
                closed,
                limits,
            );
            let unspawned = jobs.step_for::<W>(
                authority,
                busy,
                nonce,
                reservation,
                CpuJobRequest::Unspawned { permit: id },
                closed,
                limits,
            );
            if jobs.owns(id) {
                &&& ended == (CpuJobStep::<W>::Release { origin: jobs.origin, id, unspawned: false })
                &&& unspawned == (CpuJobStep::<W>::Release {
                    origin: jobs.origin,
                    id,
                    unspawned: true,
                })
            } else {
                ended is Denied && unspawned is Denied
            }
        }),
{
}

/// A job is taken under a permit that allows the request, with the workload and the
/// duration that it asked for, or two minutes of a plain CPU where it asked for
/// nothing. Without such a permit it is denied, and told to come back where the
/// authority is only busy.
pub proof fn jobs_are_taken_under_a_permit<W>(
    jobs: CpuJobsView,
    authority: Option<PermitStateView>,
    busy: bool,
    nonce: u128,
    reservation: RequestReservation,
    request: CpuJobRequest<W>,
    closed: bool,
    limits: JobLimits,
)
    requires
        request is TryAcquire || request is Acquire,
    ensures
        ({
            let step = jobs.step_for(
                authority,
                busy,
                nonce,
                reservation,
                request,
                closed,
                limits,
            );
            &&& authority is None && busy ==> step is Busy
            &&& authority is None && !busy ==> step is Denied
            &&& authority is Some && !authority->0.authorizes(nonce, reservation, closed)
                ==> step is Denied
            &&& authority is Some && authority->0.authorizes(nonce, reservation, closed)
                && jobs.issued < u64::MAX ==> {
                &&& step is Acquire
                &&& step->Acquire_origin == jobs.origin
                &&& step->Acquire_id == jobs.next_id()
                &&& request is Acquire ==> step->workload == request->workload
                    && step->max_duration_ms == request->max_duration_ms
                &&& request is TryAcquire ==> step->workload is Cpu && step->max_duration_ms
                    == 120_000
            }
            &&& authority is Some && jobs.issued == u64::MAX ==> step is Denied
            &&& step is Acquire ==> authority is Some && jobs.issued < u64::MAX
        }),
{
}

/// A profile shows the host's own CPU jobs, and as many GPU jobs as both the host
/// has and the work was granted; without a permit that allows the request it is
/// denied, and never deferred.
pub proof fn profiles_show_what_both_allow<W>(
    jobs: CpuJobsView,
    authority: Option<PermitStateView>,
    busy: bool,
    nonce: u128,
    reservation: RequestReservation,
    closed: bool,
    limits: JobLimits,
)
    ensures
        ({
            let step = jobs.step_for::<W>(
                authority,
                busy,
                nonce,
                reservation,
                CpuJobRequest::Profile,
                closed,
                limits,
            );
            let granted = if limits.granted_gpu_jobs is Some {
                limits.granted_gpu_jobs->0 as int
            } else {
                0
            };
            if authority is Some && authority->0.authorizes(nonce, reservation, closed) {
                &&& step is Profile
                &&& step->max_cpu_jobs == limits.max_cpu_jobs
                &&& step->max_gpu_jobs <= limits.max_gpu_jobs
                &&& step->max_gpu_jobs <= granted
                &&& step->max_gpu_jobs == limits.max_gpu_jobs || step->max_gpu_jobs == granted
            } else {
                step is Denied
            }
        }),
{
}

/// Each kind of refusal is told in words of its own, and what the host said of a
/// failure in the host's words.
pub proof fn refusals_are_told_in_their_own_words(error: PermitError)
    ensures
        error is Host ==> error.text() == error->Host_0@,
        error is Protocol ==> error.text() == "protocol error"@,
        error is UnknownPermit ==> error.text() == "unknown permit"@,
        error is UnknownModelPermit ==> error.text() == "unknown model permit"@,
        error is MissingModelPermit ==> error.text() == "missing model permit"@,
        error is InvalidRequestId ==> error.text() == "invalid model request id"@,
        error is ScopeMismatch ==> error.text() == "permit scope mismatch"@,
        error is ReplacementConflict ==> error.text() == "permit replacement conflict"@,
        error is PermitRevisionMismatch ==> error.text() == "permit instruction revision mismatch"@,
        error is RevokedOrMismatched ==> error.text() == "revoked or mismatched model permit"@,
        error is HistoricalRevision ==> error.text() == "historical instruction revision"@,
        error is RequestScopeConflict ==> error.text() == "model request id scope conflict"@,
        error is AlreadyClaimed ==> error.text()
            == "model dispatch already claimed; outcome may be unknown"@,
        error is HistoricalPermit ==> error.text()
            == "model reservation belongs to a historical permit"@,
        error is MissingHold ==> error.text() == "missing model hold"@,
        error is NotDispatchable ==> error.text() == "model reservation no longer dispatchable"@,
        error is UnknownRequestId ==> error.text() == "unknown model request id"@,
        error is ReconciliationMismatch ==> error.text() == "model reconciliation scope mismatch"@,
        error is InvalidBoundaryAuthority ==> error.text() == "invalid boundary authority"@,
        error is BoundaryAlreadyReserved ==> error.text()
            == "boundary request already reserved; outcome may be unknown"@,
        error is InvalidDeliveryAuthority ==> error.text() == "invalid delivery authority"@,
        error is DeadlineElapsed ==> error.text()
            == "model deadline elapsed; outcome may be unknown"@,
        error is DeadlineBeforeReservation ==> error.text()
            == "model deadline elapsed before reservation"@,
        error is DeadlineAfterReservation ==> error.text()
            == "model deadline elapsed after reservation"@,
        error is ChannelDeadline ==> error.text() == "private model channel deadline"@,
        error is SnapshotIdentityMismatch ==> error.text()
            == "snapshot execution identity mismatch"@,
        error is InvalidOutputAuthority ==> error.text() == "invalid output authority"@,
        error is ExportNotFinal ==> error.text()
            == "output export requires final model accounting"@,
        error is AdmissionCancelled ==> error.text()
            == "host capacity admission cancelled before spawn"@,
        error is AdmissionDeadline ==> error.text() == "host capacity admission deadline elapsed"@,
        error is BuildPinMismatch ==> error.text()
            == "continuation configuration mismatch: actual launched binary build pin"@,
        error is RevokedControl ==> error.text() == "revoked or mismatched permit"@,
        error is WaitNeedsBoundary ==> error.text() == "wait requires asynchronous host boundary"@,
        error is NotDirectParent ==> error.text() == "only direct parent may cancel"@,
        error is GroupOwnershipDenied ==> error.text() == "group ownership denied"@,
        error is InvalidWaitAuthority ==> error.text() == "invalid wait authority"@,
        error is WaitNeedsChildren ==> error.text() == "wait requires direct children"@,
        error is WaitOver ==> error.text()
            == "wait cancelled, revoked, or resume deadline elapsed"@,
        error is ResumeDeadline ==> error.text() == "host execution resume deadline elapsed"@,
        error is InvalidWebAllowance ==> error.text() == "invalid campaign web allowance"@,
        error is NoWebAllowance ==> error.text() == "no campaign web allowance"@,
        error is WebControlDenied ==> error.text() == "web control denied"@,
        error is NotWeb ==> error.text() == "not web"@,
        error is FeeOverflow ==> error.text() == "fee overflow"@,
        error is WebBoundsExceeded ==> error.text()
            == "web request exceeds admitted model/fee bounds"@,
        error is InvalidWebEstimate ==> error.text() == "invalid web estimate"@,
        error is TokenOverflow ==> error.text() == "token overflow"@,
        error is CostOverflow ==> error.text() == "cost overflow"@,
        error is RevokedWebAuthority ==> error.text() == "revoked web authority"@,
        error is WebUseExceeded ==> error.text() == "web server use bound exceeded"@,
        error is WebFailed ==> error.text()
            == "web retrieval denied or failed; spend may be unknown"@,
        error is ModelAdmissionDeadline ==> error.text()
            == "host model admission deadline elapsed"@,
{
}

} // verus!
