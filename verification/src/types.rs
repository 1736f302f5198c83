//! Identifiers and records that both session kinds share.

use vstd::prelude::*;
use crate::bytes::{bytes_eq, copy_bytes};

verus! {

/// DID-scoped client identifier.
#[derive(Debug, Clone, PartialEq, Eq)]
pub struct ClientId {
    pub bytes: Vec<u8>,
}

impl View for ClientId {
    type V = Seq<u8>;

    open spec fn view(&self) -> Seq<u8> {
        self.bytes@
    }
}

impl ClientId {
    /// An equal id.
    pub fn copy(&self) -> (r: ClientId)
        ensures
            r@ == self@,
    {
        ClientId { bytes: copy_bytes(self.bytes.as_slice()) }
    }

    /// Whether both ids hold the same bytes.
    pub fn same(&self, other: &ClientId) -> (r: bool)
        ensures
            r == (self@ == other@),
    {
        bytes_eq(self.bytes.as_slice(), other.bytes.as_slice())
    }
}

/// The bytes of an optional client id.
pub open spec fn opt_id(o: Option<ClientId>) -> Option<Seq<u8>> {
    match o {
        Some(id) => Some(id@),
        None => None,
    }
}

/// MLS group identifier.
#[derive(Debug, Clone, PartialEq, Eq)]
pub struct MlsGroupId {
    pub bytes: Vec<u8>,
}

impl View for MlsGroupId {
    type V = Seq<u8>;

    open spec fn view(&self) -> Seq<u8> {
        self.bytes@
    }
}

/// Session identifier, derived from both parties' client ids when the session is founded,
/// so both sides have the same one.
#[derive(Debug, Clone, PartialEq, Eq)]
pub struct SessionId {
    pub bytes: Vec<u8>,
}

impl View for SessionId {
    type V = Seq<u8>;

    open spec fn view(&self) -> Seq<u8> {
        self.bytes@
    }
}

/// Transport channel identifier, derived per epoch from a group's exporter.
#[derive(Debug, Clone, PartialEq, Eq)]
pub struct RendezvousId {
    pub bytes: Vec<u8>,
}

impl View for RendezvousId {
    type V = Seq<u8>;

    open spec fn view(&self) -> Seq<u8> {
        self.bytes@
    }
}

/// A paired key package: a classical one and a PQ one, each MLS-encoded.
#[derive(Debug, Clone, PartialEq, Eq)]
pub struct CombinerKeyPackage {
    pub classical: Vec<u8>,
    pub pq: Vec<u8>,
}

/// Opaque serialised session state.
#[derive(Debug, Clone, PartialEq, Eq)]
pub struct Archive {
    pub bytes: Vec<u8>,
}

impl View for Archive {
    type V = Seq<u8>;

    open spec fn view(&self) -> Seq<u8> {
        self.bytes@
    }
}

/// The channel of one epoch.
#[derive(Debug, Clone, PartialEq, Eq)]
pub struct EpochRendezvous {
    pub epoch: u64,
    pub rendezvous_id: RendezvousId,
}

/// Decrypted application message with its verified sender identity.
#[derive(Debug, Clone, PartialEq, Eq)]
pub struct MlsSenderMessage {
    pub app_message_data: Vec<u8>,
    pub sender_client_id: ClientId,
    pub epoch: u64,
}

/// What an applied remote commit changed. `new_sender` is `None` unless the sender's own
/// credential moved.
#[derive(Debug, Clone, PartialEq, Eq)]
pub struct CommitResult {
    pub new_sender: Option<ClientId>,
    pub new_recipient: ClientId,
}

} // verus!
