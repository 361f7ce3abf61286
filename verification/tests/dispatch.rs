//! Every reason not to reserve, claim or bill, and what closing a lease does.
use model_permits::authority::{IssueReads, ModelPermit, PermitLease, PermitState};
use model_permits::dispatch::{
    model_permit_accounting, reserved, DispatchReads, DispatchRecord, DispatchStep,
};
use model_permits::errors::PermitError;
use model_permits::events::Collector;
use model_permits::launch::check_digest;
use model_permits::ledger::{Hold, Ledger, Usage};
use model_permits::model::{
    pool_of, Admission, AdmittedWork, DispatchState, Pool, RequestClass, RequestEstimate,
    RequestReservation, Units, WorkIdentity,
};
use model_permits::text::{
    decimal_text, hex_text, is_blank, is_plain_word, is_same_but_case, is_valid_id, join, text_len,
};

fn request() -> RequestReservation {
    RequestReservation {
        identity: WorkIdentity {
            campaign_id: "campaign".into(),
            work_id: "work".into(),
            attempt_id: "attempt-1".into(),
            generation: 1,
            instruction_revision: 1,
            class: RequestClass::Work,
        },
        estimate: RequestEstimate {
            base_url: "https://example.invalid".into(),
            model: "fake".into(),
            provider: "fake".into(),
            pricing_revision: "1".into(),
            max_request_bytes: 1000,
            input_tokens: 20,
            output_tokens: 10,
            input_micro_usd_per_million: 1_000_000,
            output_micro_usd_per_million: 1_000_000,
            other_micro_usd: 0,
        },
    }
}

fn funding() -> AdmittedWork {
    AdmittedWork {
        dispatch_id: "dispatch".into(),
        admission: Admission {
            work_id: "work".into(),
            campaign_id: "campaign".into(),
            objective: "bounded".into(),
            generation: 1,
            instruction_revision: 1,
            pool: Pool::Work,
            upper_bound: Units { tokens: 100, cost_micro_usd: 100 },
        },
        state: DispatchState::Registered { worker_id: "worker".into() },
    }
}

fn reads() -> IssueReads {
    IssueReads { bound: Ok(()), funding: Ok(()), revision: Ok(1) }
}

fn broken<T>() -> Result<T, String> {
    Err("broken".to_string())
}

fn host_error() -> PermitError {
    PermitError::Host("broken".to_string())
}

fn issued() -> (PermitState, ModelPermit) {
    let mut state = PermitState::new();
    let permit = state.issue_model_permit(request(), funding(), None, Some(1), reads()).unwrap();
    (state, permit)
}

fn hold(usage: Usage, cancellation_requested: bool) -> Vec<(String, Hold)> {
    let allocation = Some("dispatch".into());
    vec![("receipt".into(), Hold { allocation, usage, cancellation_requested })]
}

fn allocation(closed: bool) -> Vec<(String, bool)> {
    vec![("dispatch".into(), closed)]
}

fn ledger() -> Ledger {
    Ledger::new(hold(Usage::Unknown, false), allocation(false), false)
}

/// What is read before a request that its own permit reserved is claimed.
fn dispatch_reads(state: &PermitState, permit: &ModelPermit) -> DispatchReads {
    let owner = state.grant(permit).unwrap().owner.clone();
    DispatchReads {
        funding: Ok(()),
        revision: Ok(1),
        prior: Ok(Some(reserved(owner, request(), "receipt".into(), false))),
        ledger: Ok(ledger()),
        available: Ok(()),
    }
}

fn claim_with(change: impl Fn(&mut DispatchReads)) -> Result<DispatchStep, PermitError> {
    let (state, permit) = issued();
    let mut reads = dispatch_reads(&state, &permit);
    change(&mut reads);
    let accounting = model_permit_accounting(Some(&permit), "id").unwrap();
    accounting.reserve(&state, &request(), false, reads)
}

fn prior(reads: &mut DispatchReads) -> &mut DispatchRecord {
    reads.prior.as_mut().unwrap().as_mut().unwrap()
}

#[test]
fn every_reason_not_to_claim() {
    let Ok(DispatchStep::Write { key, record }) = claim_with(|_| {}) else { panic!() };
    assert_eq!(key, "[\"dispatch\",\"id\"]");
    assert!(record.claimed && record.receipt == "receipt" && record.schema_version == 1);
    let refuse = |change: fn(&mut DispatchReads)| claim_with(change).err().unwrap();
    assert_eq!(refuse(|reads| reads.funding = broken()), host_error());
    assert_eq!(refuse(|reads| reads.revision = broken()), host_error());
    assert_eq!(refuse(|reads| reads.revision = Ok(2)), PermitError::HistoricalRevision);
    assert_eq!(refuse(|reads| reads.prior = broken()), host_error());
    assert_eq!(
        refuse(|reads| prior(reads).schema_version = 2),
        PermitError::RequestScopeConflict
    );
    assert_eq!(
        refuse(|reads| prior(reads).request.estimate.model.push('x')),
        PermitError::RequestScopeConflict
    );
    assert_eq!(refuse(|reads| prior(reads).claimed = true), PermitError::AlreadyClaimed);
    assert_eq!(refuse(|reads| prior(reads).owner.push('x')), PermitError::HistoricalPermit);
    assert_eq!(refuse(|reads| reads.ledger = broken()), host_error());
    assert_eq!(refuse(|reads| prior(reads).receipt.push('x')), PermitError::MissingHold);
    assert_eq!(refuse(|reads| reads.available = broken()), host_error());
    let unknown = || hold(Usage::Unknown, false);
    let settled = Usage::Final(Units { tokens: 1, cost_micro_usd: 1 });
    for (holds, allocations, paused) in [
        (unknown(), allocation(false), true),
        (unknown(), allocation(true), false),
        (unknown(), Vec::new(), false),
        (hold(Usage::Unknown, true), allocation(false), false),
        (hold(settled, false), allocation(false), false),
    ] {
        let (state, permit) = issued();
        let mut reads = dispatch_reads(&state, &permit);
        reads.ledger = Ok(Ledger::new(holds, allocations, paused));
        let accounting = model_permit_accounting(Some(&permit), "id").unwrap();
        assert_eq!(
            accounting.reserve(&state, &request(), false, reads).err(),
            Some(PermitError::NotDispatchable)
        );
    }
}

#[test]
fn a_ledger_names_nothing_twice() {
    let mut holds = hold(Usage::Unknown, true);
    holds.extend(hold(Usage::Final(Units { tokens: 7, cost_micro_usd: 7 }), false));
    let mut allocations = allocation(true);
    allocations.push(("other".into(), true));
    allocations.extend(allocation(false));
    let ledger = Ledger::new(holds, allocations, true);
    let found = ledger.hold(&"receipt".to_string()).unwrap();
    assert!(!found.cancellation_requested);
    assert_eq!(found.usage, Usage::Final(Units { tokens: 7, cost_micro_usd: 7 }));
    assert!(ledger.hold(&"missing".to_string()).is_none());
    assert_eq!(ledger.allocation(&"dispatch".to_string()), Some(false));
    assert_eq!(ledger.allocation(&"other".to_string()), Some(true));
    assert_eq!(ledger.allocation(&"missing".to_string()), None);
    assert!(ledger.admissions_paused());
    // The hold that was not final gave way to one that is.
    assert!(!ledger.accounting_open(&"dispatch".to_string()));
    let open = Ledger::new(hold(Usage::Unknown, false), Vec::new(), false);
    assert!(open.accounting_open(&"dispatch".to_string()));
    assert!(!open.accounting_open(&"other".to_string()));
}

#[test]
fn reserving_reads_no_ledger_and_keeps_the_record() {
    let (state, permit) = issued();
    let accounting = model_permit_accounting(Some(&permit), "id").unwrap();
    let mut reads = dispatch_reads(&state, &permit);
    reads.ledger = broken();
    prior(&mut reads).owner = "someone else".into();
    prior(&mut reads).claimed = true;
    let step = accounting.reserve_only(&state, &request(), false, reads);
    let Ok(DispatchStep::Write { record, .. }) = step else { panic!() };
    assert!(record.claimed && record.owner == "someone else");
    let mut first = dispatch_reads(&state, &permit);
    first.prior = Ok(None);
    let step = accounting.reserve(&state, &request(), false, first);
    let Ok(DispatchStep::Reserve { key, owner }) = step else { panic!() };
    assert_eq!(key, accounting.key(&state).unwrap());
    assert_eq!(owner, state.grant(&permit).unwrap().owner);
    let record = reserved(owner, request(), "r".into(), true);
    assert!(record.claimed && record.schema_version == 1 && record.request.same(&request()));
}

#[test]
fn billing_needs_the_record_and_not_the_permit() {
    let (mut state, permit) = issued();
    let record = |change: fn(&mut DispatchRecord)| {
        let mut record = reserved("owner".into(), request(), "receipt".into(), true);
        change(&mut record);
        Ok(Some(record))
    };
    let receipt = "receipt".to_string();
    state.host_revoke_model_permit(&permit).unwrap();
    let accounting = model_permit_accounting(Some(&permit), "id").unwrap();
    let billing = accounting.reconcile(&state, &receipt, record(|_| {})).ok().unwrap();
    assert_eq!(billing.dispatch_id, "dispatch");
    assert!(billing.request.same(&request()));
    let refuse = |record| accounting.reconcile(&state, &receipt, record).err().unwrap();
    assert_eq!(refuse(broken()), host_error());
    assert_eq!(refuse(Ok(None)).message(), "unknown model request id");
    let mismatch = "model reconciliation scope mismatch";
    assert_eq!(refuse(record(|record| record.schema_version = 0)).message(), mismatch);
    assert_eq!(refuse(record(|record| record.request.identity.generation = 2)).message(), mismatch);
    assert_eq!(refuse(record(|record| record.receipt.push('x'))).message(), mismatch);
    let stranger = issued().1;
    let unknown = model_permit_accounting(Some(&stranger), "id").unwrap();
    assert_eq!(
        unknown.reconcile(&state, &receipt, record(|_| {})).err(),
        Some(PermitError::UnknownModelPermit)
    );
    assert_eq!(unknown.key(&state), None);
}

#[test]
fn closing_a_lease_fences_its_own_grants_only() {
    let (state, permit) = issued();
    let grant = state.grant(&permit).unwrap();
    let mut own = PermitLease::open(1);
    let mut other = PermitLease::open(2);
    assert!(!own.closes(grant));
    other.close();
    assert!(!other.closes(grant));
    own.close();
    assert!(own.closes(grant));
    assert!(!state.is_authorized(&permit, &request(), own.closes(grant)));
    assert!(state.is_authorized(&permit, &request(), other.closes(grant)));
    let accounting = model_permit_accounting(Some(&permit), "id").unwrap();
    assert_eq!(
        accounting.reserve(&state, &request(), true, dispatch_reads(&state, &permit)).err(),
        Some(PermitError::RevokedOrMismatched)
    );
}

#[test]
fn a_revoked_capability_still_replaces_its_own() {
    let (mut state, permit) = issued();
    state.host_revoke_model_permit(&permit).unwrap();
    let stranger = issued().1;
    assert_eq!(
        state.host_issue_model_permit(request(), funding(), Some(&stranger), reads()).err(),
        Some(PermitError::ReplacementConflict)
    );
    let next = state.host_issue_model_permit(request(), funding(), Some(&permit), reads()).unwrap();
    assert!(state.is_current("work", &next));
    assert!(!state.is_current("work", &permit) && !state.is_current("other", &next));
    assert!(!state.grant(&permit).unwrap().active);
    assert!(state.grant(&next).unwrap().is_live(true));
}

#[test]
fn digests_tell_lines_and_binaries_apart() {
    let mut collector: Collector<()> = Collector::new(10);
    assert_eq!(collector.observe_digest(1, vec![1, 2]), Ok(true));
    assert_eq!(collector.observe_digest(1, vec![1, 2]), Ok(false));
    assert_eq!(collector.observe_digest(1, vec![1, 3]), Err(PermitError::Protocol));
    assert_eq!(collector.observe_digest(1, vec![1]), Err(PermitError::Protocol));
    assert_eq!(check_digest(&vec![0, 0xaf, 0x10], &"00af10".to_string()), Ok(()));
    assert!(check_digest(&vec![0, 0xaf, 0x10], &"00AF10".to_string()).is_err());
}

#[test]
fn texts_are_measured_and_written() {
    assert!(is_blank("") && is_blank(" \t\u{85}\u{a0}\u{1680}\u{2003}\u{202f}\u{205f}\u{3000}\r\n"));
    assert!(!is_blank("\u{200b}") && !is_blank(" x ") && !is_blank("\u{180e}"));
    assert_eq!(text_len("\u{e9}\u{1f600}"), 6);
    assert!(is_valid_id("x") && is_valid_id(&"x".repeat(256)));
    assert!(!is_valid_id("") && !is_valid_id(&"x".repeat(257)));
    for number in [0, 7, 10, 1_048_577, u64::MAX] {
        assert_eq!(decimal_text(number), number.to_string());
    }
    assert_eq!(hex_text(&vec![]), "");
    assert_eq!(hex_text(&vec![0x01, 0x9a, 0xff]), "019aff");
    assert_eq!(join(&vec![], ","), "");
    assert_eq!(join(&vec!["a".into()], ","), "a");
    assert_eq!(join(&vec!["a".into(), "".into(), "c".into()], ", "), "a, , c");
    assert!(is_same_but_case("OpenRouter", "openrouter") && is_same_but_case("", ""));
    assert!(!is_same_but_case("openrouter", "openroute") && !is_same_but_case("openrout", "openrouter"));
    assert!(!is_same_but_case("\u{212a}", "k") && !is_same_but_case("@", "`"));
    assert!(is_plain_word("") && is_plain_word("a-b\u{e9}"));
    assert!(!is_plain_word("a b") && !is_plain_word("a\u{9f}") && !is_plain_word("\u{7f}"));
    assert_eq!(pool_of(RequestClass::Work), Pool::Work);
    assert_eq!(pool_of(RequestClass::Compaction), Pool::Work);
    assert_eq!(pool_of(RequestClass::Verification), Pool::Verification);
}
