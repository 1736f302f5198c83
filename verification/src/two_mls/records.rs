//! What the operations of the classical surface report.

use vstd::prelude::*;
use crate::types::{
    ClientId, CommitResult, EpochRendezvous, MlsGroupId, MlsSenderMessage,
};

verus! {

/// The hash type of a SHA-256 digest.
pub const HASH_TYPE_SHA256: u8 = 0x12;

/// A digest and the hash it was made with. The app identifies a proposal by it.
#[derive(Debug, Clone, PartialEq, Eq)]
pub struct TwoMlsDigest {
    pub hash_type: u8,
    pub digest: Vec<u8>,
}

impl View for TwoMlsDigest {
    type V = (u8, Seq<u8>);

    open spec fn view(&self) -> (u8, Seq<u8>) {
        (self.hash_type, self.digest@)
    }
}

impl TwoMlsDigest {
    /// A SHA-256 digest.
    pub fn sha256(digest: Vec<u8>) -> (r: TwoMlsDigest)
        ensures
            r@ == (HASH_TYPE_SHA256, digest@),
    {
        TwoMlsDigest { hash_type: HASH_TYPE_SHA256, digest }
    }
}

/// A prepared round. The app binds `proposal_hash` into its plaintext before encrypting.
/// `did_commit` is false while there is no reason to commit.
#[derive(Debug, Clone, PartialEq, Eq)]
pub struct PrepareEncryptResult {
    pub proposal_hash: TwoMlsDigest,
    pub commited_remote_client_id: Option<ClientId>,
    pub did_commit: bool,
}

/// An encrypted message.
#[derive(Debug, Clone, PartialEq, Eq)]
pub struct EncryptResult {
    pub cipher_text: Vec<u8>,
    pub sender: ClientId,
    pub recipient: ClientId,
    pub epoch: u64,
}

/// A peer's proposal that awaits the app's approval. `proposing` is the client proposed,
/// which differs from the sender where a client proposes its own rotation.
#[derive(Debug, Clone, PartialEq, Eq)]
pub struct QueuedRemoteProposal {
    pub digest: TwoMlsDigest,
    pub sender: ClientId,
    pub proposing: ClientId,
    /// The digest of the receive group's id, which orders it.
    pub context: TwoMlsDigest,
}

/// What a received message held.
#[derive(Debug, Clone, PartialEq, Eq)]
pub struct DecryptResult {
    pub application_message: Option<MlsSenderMessage>,
    pub proposal: Option<QueuedRemoteProposal>,
    pub remote_commit: Option<CommitResult>,
}

/// The credential of one direction: settled, or with a rotation under way.
#[derive(Debug, Clone, PartialEq, Eq)]
pub enum AgentState {
    Sync { client_id: ClientId },
    Pending { old: ClientId, new: ClientId },
}

impl View for AgentState {
    type V = (Seq<u8>, Option<Seq<u8>>);

    /// The active id, and the id a rotation is under way to.
    open spec fn view(&self) -> (Seq<u8>, Option<Seq<u8>>) {
        match self {
            AgentState::Sync { client_id } => (client_id@, None),
            AgentState::Pending { old, new } => (old@, Some(new@)),
        }
    }
}

/// The send group, and the channels to listen on by its epochs.
#[derive(Debug, Clone, PartialEq, Eq)]
pub struct ListenChannels {
    pub send_group_id: MlsGroupId,
    pub rendezvous_by_epoch: Vec<EpochRendezvous>,
}

} // verus!
