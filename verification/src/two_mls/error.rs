//! What an operation of the classical surface can fail with.

use mls_rs::error::MlsError;
use vstd::prelude::*;

verus! {

/// An MLS library error. The session never looks inside one.
#[verifier::external_type_specification]
#[verifier::external_body]
pub struct ExMlsError(MlsError);

/// Why an operation was refused.
#[derive(Debug, Clone, Copy, PartialEq, Eq, Structural)]
pub enum TwoMlsError {
    Mls,
    InvalidKeyPackage,
    MissingWelcome,
    PskBinding,
    SessionNotEstablished,
    SessionNotReady,
    ProposalRejected,
    DecryptionFailed,
    ArchiveInvalid,
}

/// The text that describes an error.
pub open spec fn message_of(e: TwoMlsError) -> Seq<char> {
    match e {
        TwoMlsError::Mls => "MLS group error"@,
        TwoMlsError::InvalidKeyPackage => "invalid key package"@,
        TwoMlsError::MissingWelcome => "missing welcome"@,
        TwoMlsError::PskBinding => "PSK binding failure"@,
        TwoMlsError::SessionNotEstablished => "session not established"@,
        TwoMlsError::SessionNotReady => "session not ready for encryption"@,
        TwoMlsError::ProposalRejected => "proposal rejected by app layer"@,
        TwoMlsError::DecryptionFailed => "decryption failed"@,
        TwoMlsError::ArchiveInvalid => "archive corrupt or incompatible"@,
    }
}

impl TwoMlsError {
    /// The text that describes the error.
    pub fn message(&self) -> (r: &'static str)
        ensures
            r@ == message_of(*self),
    {
        match self {
            TwoMlsError::Mls => "MLS group error",
            TwoMlsError::InvalidKeyPackage => "invalid key package",
            TwoMlsError::MissingWelcome => "missing welcome",
            TwoMlsError::PskBinding => "PSK binding failure",
            TwoMlsError::SessionNotEstablished => "session not established",
            TwoMlsError::SessionNotReady => "session not ready for encryption",
            TwoMlsError::ProposalRejected => "proposal rejected by app layer",
            TwoMlsError::DecryptionFailed => "decryption failed",
            TwoMlsError::ArchiveInvalid => "archive corrupt or incompatible",
        }
    }
}

impl From<MlsError> for TwoMlsError {
    fn from(_e: MlsError) -> (r: TwoMlsError) {
        TwoMlsError::Mls
    }
}

impl vstd::std_specs::convert::FromSpecImpl<MlsError> for TwoMlsError {
    open spec fn obeys_from_spec() -> bool {
        true
    }

    open spec fn from_spec(_e: MlsError) -> TwoMlsError {
        TwoMlsError::Mls
    }
}

/// The result of an operation of the classical surface.
pub type Result<T> = std::result::Result<T, TwoMlsError>;

} // verus!
