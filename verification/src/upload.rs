//! Exporting a worker's output, part by part, under its permit.
use vstd::prelude::*;
use crate::authority::{ModelPermit, PermitState, PermitStateView};
use crate::errors::PermitError;
use crate::ledger::Ledger;
use crate::model::{RequestClass, RequestReservation};

verus! {

/// How long one export may take, in milliseconds.
pub const MAX_UPLOAD_MS: u64 = 240_000;

/// How many parts one export may have: 64 MiB in parts of 32 KiB, its beginning
/// and its end.
pub const MAX_UPLOAD_PARTS: u64 = 2050;

/// When an export that begins now must have ended.
pub open spec fn upload_deadline_spec(deadline: u64, now: u64) -> u64 {
    if now + MAX_UPLOAD_MS <= deadline {
        (now + MAX_UPLOAD_MS) as u64
    } else {
        deadline
    }
}

/// When an export that begins now must have ended.
pub fn upload_deadline(deadline: u64, now: u64) -> (res: u64)
    ensures
        res == upload_deadline_spec(deadline, now),
        res <= deadline,
        res <= now + MAX_UPLOAD_MS,
{
    match now.checked_add(MAX_UPLOAD_MS) {
        Some(limit) => if limit <= deadline {
            limit
        } else {
            deadline
        },
        None => deadline,
    }
}

/// Why a part of an export is refused, if it is. The first reason counts.
/// `chunk` tells a part in the middle from the beginning and the end, before
/// which all of the work's accounting must be final.
pub open spec fn upload_refusal(
    state: PermitStateView,
    nonce: u128,
    binding: RequestReservation,
    chunk: bool,
    now: u64,
    deadline: u64,
    closed: bool,
    funding: Result<(), String>,
    ledger: Result<Ledger, String>,
) -> Option<PermitError> {
    if !state.grants.dom().contains(nonce) {
        Some(PermitError::UnknownPermit)
    } else if !state.authorizes(nonce, binding, closed) || binding.identity.class
        != RequestClass::Work || now >= deadline {
        Some(PermitError::InvalidOutputAuthority)
    } else if chunk {
        None
    } else if funding is Err {
        Some(PermitError::Host(funding->Err_0))
    } else if ledger is Err {
        Some(PermitError::Host(ledger->Err_0))
    } else if ledger->Ok_0@.accounting_open(state.grants[nonce].funding.dispatch_id@) {
        Some(PermitError::ExportNotFinal)
    } else {
        None
    }
}

/// Whether a part of an export may be applied.
pub fn authorize_upload(
    state: &PermitState,
    permit: &ModelPermit,
    binding: &RequestReservation,
    chunk: bool,
    now: u64,
    deadline: u64,
    closed: bool,
    funding: Result<(), String>,
    ledger: Result<Ledger, String>,
) -> (res: Result<(), PermitError>)
    ensures
        match upload_refusal(
            state@,
            permit.nonce(),
            *binding,
            chunk,
            now,
            deadline,
            closed,
            funding,
            ledger,
        ) {
            Some(error) => res == Err::<(), _>(error),
            None => res is Ok,
        },
{
    let grant = match state.grant(permit) {
        None => {
            return Err(PermitError::UnknownPermit);
        },
        Some(grant) => grant,
    };
    if !state.is_authorized(permit, binding, closed) || binding.identity.class
        != RequestClass::Work || now >= deadline {
        return Err(PermitError::InvalidOutputAuthority);
    }
    if chunk {
        return Ok(());
    }
    if let Err(error) = funding {
        return Err(PermitError::Host(error));
    }
    match ledger {
        Err(error) => Err(PermitError::Host(error)),
        Ok(ledger) => if ledger.accounting_open(&grant.funding.dispatch_id) {
            Err(PermitError::ExportNotFinal)
        } else {
            Ok(())
        },
    }
}

/// Whether what a part changed may be kept, asked again just before it is: in
/// time, with someone to answer to, under an open lease.
pub fn upload_still_open(now: u64, deadline: u64, peer_gone: bool, closed: bool) -> (res: bool)
    ensures
        res == (now < deadline && !peer_gone && !closed),
{
    now < deadline && !peer_gone && !closed
}

/// What a part of an export is answered. `R` is what a finished one is answered.
pub enum UploadReply<R> {
    Accepted { offset: u64 },
    Ready(R),
    Denied,
}

/// What the host does with a part.
#[derive(Clone, Copy, Debug, PartialEq, Eq, Structural)]
pub enum UploadAction {
    /// Begin the export with it, and accept it at offset zero.
    Begin,
    /// Apply it to the export under way.
    Apply,
    /// Deny it.
    Deny,
}

/// An export under way: how many parts were answered.
pub struct UploadProgress {
    pub parts: u64,
}

impl UploadProgress {
    /// An export of which nothing was answered yet.
    pub fn begin() -> (res: UploadProgress)
        ensures
            res.parts == 0,
    {
        UploadProgress { parts: 0 }
    }

    /// What the host does with a part, given whether it may be applied.
    pub fn action(&self, authorized: &Result<(), PermitError>) -> (res: UploadAction)
        ensures
            res == if authorized is Err {
                UploadAction::Deny
            } else if self.parts == 0 {
                UploadAction::Begin
            } else {
                UploadAction::Apply
            },
    {
        if authorized.is_err() {
            UploadAction::Deny
        } else if self.parts == 0 {
            UploadAction::Begin
        } else {
            UploadAction::Apply
        }
    }

    /// What a part is answered, from what came of it: a failure is a denial.
    pub fn reply<R>(outcome: Result<UploadReply<R>, String>) -> (res: UploadReply<R>)
        ensures
            res == match outcome {
                Ok(reply) => reply,
                Err(_) => UploadReply::Denied,
            },
    {
        match outcome {
            Ok(reply) => reply,
            Err(_) => UploadReply::Denied,
        }
    }

    /// A part was answered. Returns whether another one is to be read: any
    /// answer but an acceptance is the last.
    pub fn answered<R>(&mut self, reply: &UploadReply<R>) -> (res: bool)
        requires
            old(self).parts < MAX_UPLOAD_PARTS,
        ensures
            final(self).parts == old(self).parts + 1,
            res == *reply is Accepted,
    {
        self.parts = self.parts + 1;
        matches!(reply, UploadReply::Accepted { .. })
    }

    /// The next frame came: only a part of an export may, and not too many. What
    /// breaks this ends the session.
    pub fn received(&self, is_part: bool) -> (res: Result<(), PermitError>)
        ensures
            if is_part && self.parts < MAX_UPLOAD_PARTS {
                res is Ok
            } else {
                res == Err::<(), _>(PermitError::Protocol)
            },
    {
        if is_part && self.parts < MAX_UPLOAD_PARTS {
            Ok(())
        } else {
            Err(PermitError::Protocol)
        }
    }
}

} // verus!
