//! What a session operation can fail with.

use vstd::prelude::*;

verus! {

/// Why a session operation was refused.
#[derive(Debug, Clone, Copy, PartialEq, Eq, Structural)]
pub enum TwoMlsPqError {
    /// A malformed frame, or a group operation that failed.
    Mls,
    InvalidKeyPackage,
    /// The peer's key package pair offers no post-quantum half.
    PqNotAvailable,
    /// A key package or a welcome is not of the session's cipher suite.
    CipherSuiteMismatch,
    /// A client id is empty, which is reserved.
    InvalidClientId,
    /// A welcome's app-state binding is not the expected one.
    AppBindingMismatch,
    /// A bootstrap key package is not the one committed to at establishment.
    BootstrapKpMismatch,
    /// A key package or a welcome names another principal than the peer.
    RemoteIdentityMismatch,
    /// A welcome other than the joined one arrived on a live session.
    UnexpectedWelcome,
    SessionNotEstablished,
    /// A precondition does not hold now; nothing was changed.
    SessionNotReady,
    /// The app-layer approval names no acceptable proposal.
    ProposalRejected,
    /// A credential is not authorized (yet); retrying later can succeed.
    CredentialRejected,
    DecryptionFailed,
    /// A commit between ours and the received one was never seen.
    EpochDesync,
    /// A commit attests epochs that its groups are not at.
    ApqInfoMismatch,
    /// A side-band frame that was already answered.
    DuplicateSideBand,
    /// The bind's classical commit failed after its reservation was spent.
    BindDischargeFailed,
    /// A peer's bind failed to apply after its secret was spent; receiving is broken.
    BindApplyFailed,
    SinkAlreadyInstalled,
    ArchiveInvalid,
}

/// The result of a session operation.
pub type Result<T> = std::result::Result<T, TwoMlsPqError>;

} // verus!
