//! Caller-visible errors. Every rejected call surfaces one of these and
//! leaves the state untouched.
use vstd::prelude::*;

verus! {

#[derive(Clone, Copy, Debug, PartialEq, Eq, Structural)]
pub enum Error {
    InvalidIASSigningCert,
    InvalidIASReportSignature,
    InvalidQuoteStatus,
    OutdatedIASReport,
    BadIASReport,
    InvalidRuntimeInfo,
    InvalidRuntimeInfoHash,
    MinerNotFound,
    BadMachineId,
    InvalidPubKey,
    InvalidSignature,
    InvalidSignatureBadLen,
    FailedToVerify,
    /// Not a controller account.
    NotController,
    /// Not a stash account.
    NotStash,
    /// Controller not found.
    ControllerNotFound,
    /// Stash not found.
    StashNotFound,
    /// Stash already bonded.
    AlreadyBonded,
    /// Controller already paired.
    AlreadyPaired,
    /// Commission is not between 0 and 100.
    InvalidCommission,
    /// Cannot decode the message.
    InvalidMessage,
    /// Wrong sequence number of a message.
    BadMessageSequence,
    /// Failed to deposit tokens into the custody account.
    CannotDeposit,
    /// Failed to withdraw tokens from the custody account.
    CannotWithdraw,
    /// Bad input parameter.
    InvalidInput,
    /// Bad input parameter length.
    InvalidInputBadLength,
    /// Invalid contract.
    InvalidContract,
    /// Internal error.
    InternalError,
    /// Wrong MRENCLAVE.
    WrongMREnclave,
    /// Wrong MRENCLAVE whitelist index.
    WrongWhitelistIndex,
    /// MRENCLAVE already exists.
    MREnclaveAlreadyExist,
    /// MRENCLAVE not found.
    MREnclaveNotFound,
    /// Not a legal state transition.
    InvalidState,
    /// The offline report is beyond the slash window.
    TooAncientReport,
    /// The reported worker is still alive.
    ReportedWorkerStillAlive,
    /// The reported worker is not mining.
    ReportedWorkerNotMining,
    /// The report has an invalid proof.
    InvalidProof,
    /// Access not allowed due to a permission issue.
    NotAllowed,
    /// Unable to parse the quote body.
    UnknownQuoteBodyFormat,
}

/// Failures of the hardware-attestation collaborator, mapped into this
/// module's error space below.
#[derive(Clone, Copy, Debug, PartialEq, Eq, Structural)]
pub enum AttestationError {
    InvalidIASSigningCert,
    InvalidReport,
    InvalidQuoteStatus,
    BadIASReport,
    OutdatedIASReport,
    UnknownQuoteBodyFormat,
}

impl From<AttestationError> for Error {
    fn from(err: AttestationError) -> (r: Self) {
        match err {
            AttestationError::InvalidIASSigningCert => Self::InvalidIASSigningCert,
            AttestationError::InvalidReport => Self::InvalidInput,
            AttestationError::InvalidQuoteStatus => Self::InvalidQuoteStatus,
            AttestationError::BadIASReport => Self::BadIASReport,
            AttestationError::OutdatedIASReport => Self::OutdatedIASReport,
            AttestationError::UnknownQuoteBodyFormat => Self::UnknownQuoteBodyFormat,
        }
    }
}

impl vstd::std_specs::convert::FromSpecImpl<AttestationError> for Error {
    open spec fn obeys_from_spec() -> bool {
        true
    }

    open spec fn from_spec(err: AttestationError) -> Self {
        match err {
            AttestationError::InvalidIASSigningCert => Self::InvalidIASSigningCert,
            AttestationError::InvalidReport => Self::InvalidInput,
            AttestationError::InvalidQuoteStatus => Self::InvalidQuoteStatus,
            AttestationError::BadIASReport => Self::BadIASReport,
            AttestationError::OutdatedIASReport => Self::OutdatedIASReport,
            AttestationError::UnknownQuoteBodyFormat => Self::UnknownQuoteBodyFormat,
        }
    }
}

} // verus!
