//! Why a request is refused.
use vstd::prelude::*;
use vstd::string::*;

verus! {

/// A refusal. `Host` carries what a host collaborator answered; every other
/// accounting refusal has one fixed message.
#[derive(Debug, PartialEq, Eq)]
pub enum PermitError {
    Protocol,
    Host(String),
    UnknownPermit,
    UnknownModelPermit,
    MissingModelPermit,
    InvalidRequestId,
    ScopeMismatch,
    ReplacementConflict,
    PermitRevisionMismatch,
    RevokedOrMismatched,
    HistoricalRevision,
    RequestScopeConflict,
    AlreadyClaimed,
    HistoricalPermit,
    MissingHold,
    NotDispatchable,
    UnknownRequestId,
    ReconciliationMismatch,
    InvalidBoundaryAuthority,
    BoundaryAlreadyReserved,
    InvalidDeliveryAuthority,
    DeadlineElapsed,
    DeadlineBeforeReservation,
    DeadlineAfterReservation,
    ChannelDeadline,
    SnapshotIdentityMismatch,
    InvalidOutputAuthority,
    ExportNotFinal,
    AdmissionCancelled,
    AdmissionDeadline,
    BuildPinMismatch,
    RevokedControl,
    WaitNeedsBoundary,
    NotDirectParent,
    GroupOwnershipDenied,
    InvalidWaitAuthority,
    WaitNeedsChildren,
    WaitOver,
    ResumeDeadline,
    InvalidWebAllowance,
    NoWebAllowance,
    WebControlDenied,
    NotWeb,
    FeeOverflow,
    WebBoundsExceeded,
    InvalidWebEstimate,
    TokenOverflow,
    CostOverflow,
    RevokedWebAuthority,
    WebUseExceeded,
    WebFailed,
    ModelAdmissionDeadline,
}

impl PermitError {
    /// The message that a refusal is reported with.
    pub open spec fn text(&self) -> Seq<char> {
        match self {
            PermitError::Protocol => "protocol error"@,
            PermitError::Host(message) => message@,
            PermitError::UnknownPermit => "unknown permit"@,
            PermitError::UnknownModelPermit => "unknown model permit"@,
            PermitError::MissingModelPermit => "missing model permit"@,
            PermitError::InvalidRequestId => "invalid model request id"@,
            PermitError::ScopeMismatch => "permit scope mismatch"@,
            PermitError::ReplacementConflict => "permit replacement conflict"@,
            PermitError::PermitRevisionMismatch => "permit instruction revision mismatch"@,
            PermitError::RevokedOrMismatched => "revoked or mismatched model permit"@,
            PermitError::HistoricalRevision => "historical instruction revision"@,
            PermitError::RequestScopeConflict => "model request id scope conflict"@,
            PermitError::AlreadyClaimed =>
                "model dispatch already claimed; outcome may be unknown"@,
            PermitError::HistoricalPermit => "model reservation belongs to a historical permit"@,
            PermitError::MissingHold => "missing model hold"@,
            PermitError::NotDispatchable => "model reservation no longer dispatchable"@,
            PermitError::UnknownRequestId => "unknown model request id"@,
            PermitError::ReconciliationMismatch => "model reconciliation scope mismatch"@,
            PermitError::InvalidBoundaryAuthority => "invalid boundary authority"@,
            PermitError::BoundaryAlreadyReserved =>
                "boundary request already reserved; outcome may be unknown"@,
            PermitError::InvalidDeliveryAuthority => "invalid delivery authority"@,
            PermitError::DeadlineElapsed => "model deadline elapsed; outcome may be unknown"@,
            PermitError::DeadlineBeforeReservation => "model deadline elapsed before reservation"@,
            PermitError::DeadlineAfterReservation => "model deadline elapsed after reservation"@,
            PermitError::ChannelDeadline => "private model channel deadline"@,
            PermitError::SnapshotIdentityMismatch => "snapshot execution identity mismatch"@,
            PermitError::InvalidOutputAuthority => "invalid output authority"@,
            PermitError::ExportNotFinal => "output export requires final model accounting"@,
            PermitError::AdmissionCancelled => "host capacity admission cancelled before spawn"@,
            PermitError::AdmissionDeadline => "host capacity admission deadline elapsed"@,
            PermitError::BuildPinMismatch => "continuation configuration mismatch: actual launched binary build pin"@,
            PermitError::RevokedControl => "revoked or mismatched permit"@,
            PermitError::WaitNeedsBoundary => "wait requires asynchronous host boundary"@,
            PermitError::NotDirectParent => "only direct parent may cancel"@,
            PermitError::GroupOwnershipDenied => "group ownership denied"@,
            PermitError::InvalidWaitAuthority => "invalid wait authority"@,
            PermitError::WaitNeedsChildren => "wait requires direct children"@,
            PermitError::WaitOver => "wait cancelled, revoked, or resume deadline elapsed"@,
            PermitError::ResumeDeadline => "host execution resume deadline elapsed"@,
            PermitError::InvalidWebAllowance => "invalid campaign web allowance"@,
            PermitError::NoWebAllowance => "no campaign web allowance"@,
            PermitError::WebControlDenied => "web control denied"@,
            PermitError::NotWeb => "not web"@,
            PermitError::FeeOverflow => "fee overflow"@,
            PermitError::WebBoundsExceeded => "web request exceeds admitted model/fee bounds"@,
            PermitError::InvalidWebEstimate => "invalid web estimate"@,
            PermitError::TokenOverflow => "token overflow"@,
            PermitError::CostOverflow => "cost overflow"@,
            PermitError::RevokedWebAuthority => "revoked web authority"@,
            PermitError::WebUseExceeded => "web server use bound exceeded"@,
            PermitError::WebFailed => "web retrieval denied or failed; spend may be unknown"@,
            PermitError::ModelAdmissionDeadline => "host model admission deadline elapsed"@,
        }
    }

    /// The message that a refusal is reported with.
    pub fn message(&self) -> (res: String)
        ensures
            res@ == self.text(),
    {
        let text: &str = match self {
            PermitError::Protocol => "protocol error",
            PermitError::Host(message) => message.as_str(),
            PermitError::UnknownPermit => "unknown permit",
            PermitError::UnknownModelPermit => "unknown model permit",
            PermitError::MissingModelPermit => "missing model permit",
            PermitError::InvalidRequestId => "invalid model request id",
            PermitError::ScopeMismatch => "permit scope mismatch",
            PermitError::ReplacementConflict => "permit replacement conflict",
            PermitError::PermitRevisionMismatch => "permit instruction revision mismatch",
            PermitError::RevokedOrMismatched => "revoked or mismatched model permit",
            PermitError::HistoricalRevision => "historical instruction revision",
            PermitError::RequestScopeConflict => "model request id scope conflict",
            PermitError::AlreadyClaimed => "model dispatch already claimed; outcome may be unknown",
            PermitError::HistoricalPermit => "model reservation belongs to a historical permit",
            PermitError::MissingHold => "missing model hold",
            PermitError::NotDispatchable => "model reservation no longer dispatchable",
            PermitError::UnknownRequestId => "unknown model request id",
            PermitError::ReconciliationMismatch => "model reconciliation scope mismatch",
            PermitError::InvalidBoundaryAuthority => "invalid boundary authority",
            PermitError::BoundaryAlreadyReserved =>
                "boundary request already reserved; outcome may be unknown",
            PermitError::InvalidDeliveryAuthority => "invalid delivery authority",
            PermitError::DeadlineElapsed => "model deadline elapsed; outcome may be unknown",
            PermitError::DeadlineBeforeReservation => "model deadline elapsed before reservation",
            PermitError::DeadlineAfterReservation => "model deadline elapsed after reservation",
            PermitError::ChannelDeadline => "private model channel deadline",
            PermitError::SnapshotIdentityMismatch => "snapshot execution identity mismatch",
            PermitError::InvalidOutputAuthority => "invalid output authority",
            PermitError::ExportNotFinal => "output export requires final model accounting",
            PermitError::AdmissionCancelled => "host capacity admission cancelled before spawn",
            PermitError::AdmissionDeadline => "host capacity admission deadline elapsed",
            PermitError::BuildPinMismatch => "continuation configuration mismatch: actual launched binary build pin",
            PermitError::RevokedControl => "revoked or mismatched permit",
            PermitError::WaitNeedsBoundary => "wait requires asynchronous host boundary",
            PermitError::NotDirectParent => "only direct parent may cancel",
            PermitError::GroupOwnershipDenied => "group ownership denied",
            PermitError::InvalidWaitAuthority => "invalid wait authority",
            PermitError::WaitNeedsChildren => "wait requires direct children",
            PermitError::WaitOver => "wait cancelled, revoked, or resume deadline elapsed",
            PermitError::ResumeDeadline => "host execution resume deadline elapsed",
            PermitError::InvalidWebAllowance => "invalid campaign web allowance",
            PermitError::NoWebAllowance => "no campaign web allowance",
            PermitError::WebControlDenied => "web control denied",
            PermitError::NotWeb => "not web",
            PermitError::FeeOverflow => "fee overflow",
            PermitError::WebBoundsExceeded => "web request exceeds admitted model/fee bounds",
            PermitError::InvalidWebEstimate => "invalid web estimate",
            PermitError::TokenOverflow => "token overflow",
            PermitError::CostOverflow => "cost overflow",
            PermitError::RevokedWebAuthority => "revoked web authority",
            PermitError::WebUseExceeded => "web server use bound exceeded",
            PermitError::WebFailed => "web retrieval denied or failed; spend may be unknown",
            PermitError::ModelAdmissionDeadline => "host model admission deadline elapsed",
        };
        text.to_owned()
    }
}

} // verus!
