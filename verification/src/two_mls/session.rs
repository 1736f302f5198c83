//! A session as callers of the classical stack see it: the classical half of each group, and
//! errors of the classical surface.

use vstd::prelude::*;
use crate::pq::archive::{is_restored_from, ArchiveMaterial, LoadedMaterial};
use crate::pq::error::TwoMlsPqError;
use crate::pq::incoming::{self, IncomingOutcome};
use crate::pq::laws::{all_loaded, law_restore_gives_back};
use crate::pq::messaging::{
    self, channels, finish_encrypt, Encrypted, Outbound, ProcessedProposal,
};
use crate::pq::prepare::{self, is_commit, listening, round_settled, PrepareOutcome};
use crate::pq::providers::sha256_of;
use crate::pq::state::{keys, CombinerGroup, PrincipalState, TwoMlsPqSession};
use crate::types::{
    opt_id, Archive, ClientId, MlsGroupId, MlsSenderMessage, RendezvousId, SessionId,
};
use super::error::{Result, TwoMlsError};
use super::records::{
    AgentState, DecryptResult, EncryptResult, ListenChannels, PrepareEncryptResult,
    QueuedRemoteProposal, TwoMlsDigest, HASH_TYPE_SHA256,
};

verus! {

/// The error of the classical surface that an error of the session is reported as.
pub open spec fn surface_error(e: TwoMlsPqError) -> TwoMlsError {
    match e {
        TwoMlsPqError::Mls => TwoMlsError::Mls,
        TwoMlsPqError::InvalidKeyPackage
        | TwoMlsPqError::PqNotAvailable
        | TwoMlsPqError::CipherSuiteMismatch
        | TwoMlsPqError::InvalidClientId
        | TwoMlsPqError::BootstrapKpMismatch
        | TwoMlsPqError::RemoteIdentityMismatch => TwoMlsError::InvalidKeyPackage,
        TwoMlsPqError::AppBindingMismatch
        | TwoMlsPqError::ApqInfoMismatch
        | TwoMlsPqError::BindDischargeFailed
        | TwoMlsPqError::BindApplyFailed => TwoMlsError::PskBinding,
        TwoMlsPqError::SessionNotEstablished => TwoMlsError::SessionNotEstablished,
        TwoMlsPqError::SessionNotReady
        | TwoMlsPqError::DuplicateSideBand
        | TwoMlsPqError::SinkAlreadyInstalled => TwoMlsError::SessionNotReady,
        TwoMlsPqError::ProposalRejected
        | TwoMlsPqError::CredentialRejected => TwoMlsError::ProposalRejected,
        TwoMlsPqError::DecryptionFailed
        | TwoMlsPqError::EpochDesync
        | TwoMlsPqError::UnexpectedWelcome => TwoMlsError::DecryptionFailed,
        TwoMlsPqError::ArchiveInvalid => TwoMlsError::ArchiveInvalid,
    }
}

/// Report an error of the session as one of the classical surface.
pub fn map_session_err(e: TwoMlsPqError) -> (r: TwoMlsError)
    ensures
        r == surface_error(e),
{
    match e {
        TwoMlsPqError::Mls => TwoMlsError::Mls,
        TwoMlsPqError::InvalidKeyPackage
        | TwoMlsPqError::PqNotAvailable
        | TwoMlsPqError::CipherSuiteMismatch
        | TwoMlsPqError::InvalidClientId
        | TwoMlsPqError::BootstrapKpMismatch
        | TwoMlsPqError::RemoteIdentityMismatch => TwoMlsError::InvalidKeyPackage,
        TwoMlsPqError::AppBindingMismatch
        | TwoMlsPqError::ApqInfoMismatch
        | TwoMlsPqError::BindDischargeFailed
        | TwoMlsPqError::BindApplyFailed => TwoMlsError::PskBinding,
        TwoMlsPqError::SessionNotEstablished => TwoMlsError::SessionNotEstablished,
        TwoMlsPqError::SessionNotReady
        | TwoMlsPqError::DuplicateSideBand
        | TwoMlsPqError::SinkAlreadyInstalled => TwoMlsError::SessionNotReady,
        TwoMlsPqError::ProposalRejected
        | TwoMlsPqError::CredentialRejected => TwoMlsError::ProposalRejected,
        TwoMlsPqError::DecryptionFailed
        | TwoMlsPqError::EpochDesync
        | TwoMlsPqError::UnexpectedWelcome => TwoMlsError::DecryptionFailed,
        TwoMlsPqError::ArchiveInvalid => TwoMlsError::ArchiveInvalid,
    }
}

/// A live session: two send groups, one per direction.
#[derive(Debug, Clone, PartialEq, Eq)]
pub struct TwoMlsSession {
    pub inner: TwoMlsPqSession,
}

/// Whether `r` reports a prepared round.
pub open spec fn reports_round(
    q: crate::pq::error::Result<prepare::PrepareEncryptResult>,
    r: Result<Option<PrepareEncryptResult>>,
) -> bool {
    match q {
        Err(e) => r == Err::<Option<PrepareEncryptResult>, TwoMlsError>(surface_error(e)),
        Ok(p) => {
            &&& r matches Ok(Some(o))
            &&& o.proposal_hash@ == (HASH_TYPE_SHA256, p.proposal_hash@)
            &&& o.commited_remote_client_id == p.committed_remote_client_id
            &&& o.did_commit == p.did_commit
        },
    }
}

/// Whether `r` reports an encrypted message; `envelope` is what sealing its envelope gave.
pub open spec fn reports_message(
    q: crate::pq::error::Result<Encrypted>,
    envelope: crate::pq::error::Result<Vec<u8>>,
    r: Result<EncryptResult>,
) -> bool {
    match q {
        Err(e) => r == Err::<EncryptResult, TwoMlsError>(surface_error(e)),
        Ok(m) => if m.outbound is Envelope && envelope is Err {
            r == Err::<EncryptResult, TwoMlsError>(surface_error(envelope->Err_0))
        } else {
            &&& r matches Ok(o)
            &&& o.cipher_text@ == match m.outbound {
                Outbound::Frame { cipher_text } => cipher_text@,
                Outbound::Envelope { .. } => envelope->Ok_0@,
            }
            &&& o.sender == m.sender
            &&& o.recipient == m.recipient
            &&& o.epoch == m.epochs.classical_epoch
        },
    }
}

/// Whether `r` reports a received message. A frame that is ahead of the receive group, with a
/// commit between that was never seen, is reported as nothing: no later frame mends that, and
/// the caller is to join anew.
pub open spec fn reports_incoming(
    q: crate::pq::error::Result<Option<incoming::DecryptResult>>,
    r: Result<Option<DecryptResult>>,
) -> bool {
    match q {
        Err(TwoMlsPqError::EpochDesync) => r matches Ok(None),
        Err(e) => r == Err::<Option<DecryptResult>, TwoMlsError>(surface_error(e)),
        Ok(None) => r matches Ok(None),
        Ok(Some(d)) => {
            &&& r matches Ok(Some(o))
            &&& o.application_message == d.application_message
            &&& o.remote_commit == d.remote_commit
            &&& match (d.proposal, o.proposal) {
                (None, None) => true,
                (Some(p), Some(n)) => {
                    &&& n.digest@ == (HASH_TYPE_SHA256, p.digest@)
                    &&& n.sender == p.sender
                    &&& n.proposing == p.proposing
                    &&& n.context@ == (HASH_TYPE_SHA256, p.context@)
                },
                _ => false,
            }
        },
    }
}

/// The state of a direction's credential.
fn agent_state(s: PrincipalState) -> (r: AgentState)
    ensures
        r@ == s@,
{
    match s {
        PrincipalState::Sync { client_id } => AgentState::Sync { client_id },
        PrincipalState::Pending { old, new } => AgentState::Pending { old, new },
    }
}

/// Whether `r` is what restoring an archive gives.
pub open spec fn reports_restore(
    archive: Seq<u8>,
    loaded: LoadedMaterial,
    r: Result<TwoMlsSession>,
) -> bool {
    match r {
        Ok(s) => is_restored_from(archive, loaded, Ok(s.inner)),
        Err(e) => exists|q: TwoMlsPqError| #[trigger]
            surface_error(q) == e && is_restored_from(archive, loaded, Err(q)),
    }
}

/// Whether `r` is the archive of a session, made with what the host gave.
pub open spec fn reports_archive(s: TwoMlsSession, m: ArchiveMaterial, r: Result<Archive>) -> bool {
    match r {
        Ok(a) => s.inner.is_blob_of(m, true, Ok(a.bytes)),
        Err(e) => exists|q: TwoMlsPqError| #[trigger]
            surface_error(q) == e && s.inner.is_blob_of(m, true, Err(q)),
    }
}

/// Whether the host loads the groups of a session as they were, and the rest of it too.
pub open spec fn loads_back(s: TwoMlsSession, loaded: LoadedMaterial) -> bool {
    &&& all_loaded(s.inner, loaded)
    &&& loaded.send_group matches Ok(g) && s.inner.send_group == Some(g)
    &&& s.inner.recv_group matches Some(g) ==> loaded.recv_group == Ok::<
        CombinerGroup,
        TwoMlsPqError,
    >(g)
}

/// An archive restores to the session that it was made of: where the host loads the groups
/// back, every archive that a live session makes is restored, to a live session of the same
/// id, with the same groups, in the same state on both sides.
pub proof fn law_archive_gives_back(
    s: TwoMlsSession,
    m: ArchiveMaterial,
    archive: Archive,
    loaded: LoadedMaterial,
    r: Result<TwoMlsSession>,
)
    requires
        s.inner.wf(),
        s.inner.live(),
        reports_archive(s, m, Ok(archive)),
        loads_back(s, loaded),
        reports_restore(archive@, loaded, r),
    ensures
        ({
            &&& r matches Ok(t)
            &&& t.inner.wf()
            &&& t.inner.live()
            &&& t.inner.session_id@ == s.inner.session_id@
            &&& t.inner.send_group == s.inner.send_group
            &&& t.inner.recv_group == s.inner.recv_group
            &&& t.inner.my_state@ == s.inner.my_state@
            &&& t.inner.their_state@ == s.inner.their_state@
        }),
{
    match r {
        Ok(t) => {
            law_restore_gives_back(s.inner, m, archive.bytes, loaded, Ok(t.inner));
        },
        Err(e) => {
            let q = choose|q: TwoMlsPqError| #[trigger]
                surface_error(q) == e && is_restored_from(archive@, loaded, Err(q));
            law_restore_gives_back(s.inner, m, archive.bytes, loaded, Err(q));
        },
    }
}

impl TwoMlsSession {
    /// Restore a session. `loaded` is what the host loaded from what `decode_wire` reads in
    /// the archive.
    pub fn from_archive(archive: Archive, loaded: LoadedMaterial) -> (r: Result<TwoMlsSession>)
        ensures
            reports_restore(archive@, loaded, r),
    {
        match TwoMlsPqSession::from_archive(&archive, loaded) {
            Ok(inner) => Ok(TwoMlsSession { inner }),
            Err(e) => {
                proof {
                    assert(is_restored_from(
                        archive@,
                        loaded,
                        Err::<TwoMlsPqSession, TwoMlsPqError>(e),
                    ));
                }
                Err(map_session_err(e))
            },
        }
    }

    /// The digest of the receive group's id, which identity introductions bind.
    pub fn proposal_context(&self) -> (r: Option<TwoMlsDigest>)
        ensures
            match (self.inner.recv_group, r) {
                (None, None) => true,
                (Some(g), Some(d)) => d@ == (HASH_TYPE_SHA256, sha256_of(g.classical.group_id@)),
                _ => false,
            },
    {
        match self.inner.proposal_context() {
            Some(digest) => Some(TwoMlsDigest::sha256(digest)),
            None => None,
        }
    }

    /// The channel to post to, once there is a receive group.
    pub fn send_rendezvous(&self) -> (r: Result<Option<RendezvousId>>)
        ensures
            match (self.inner.recv_group, r) {
                (None, Ok(None)) => true,
                (Some(g), Ok(Some(id))) => id@ == g.classical.rendezvous@,
                _ => false,
            },
    {
        Ok(self.inner.send_rendezvous())
    }

    /// Serialise the session.
    pub fn archive(&mut self, material: ArchiveMaterial) -> (r: Result<Archive>)
        requires
            old(self).inner.wf(),
            material.candidates@.len() == old(self).inner.staged_candidates@.len(),
        ensures
            final(self).inner.wf(),
            old(self).inner.sound() ==> final(self).inner.sound(),
            old(self).inner.live() ==> final(self).inner.live(),
            final(self).inner.since(old(self).inner),
            listening(old(self).inner, true, final(self).inner),
            reports_archive(*final(self), material, r),
    {
        match self.inner.archive(material) {
            Ok(a) => Ok(a),
            Err(e) => Err(map_session_err(e)),
        }
    }

    /// Settle a round that was carried out as the session's plan said.
    pub fn prepare_to_encrypt(&mut self, proposing: Option<ClientId>, out: PrepareOutcome) -> (r:
        Result<Option<PrepareEncryptResult>>)
        requires
            old(self).inner.wf(),
        ensures
            final(self).inner.wf(),
            old(self).inner.sound() ==> final(self).inner.sound(),
            old(self).inner.live() && is_commit(old(self).inner, out.round.commit)
                ==> final(self).inner.live(),
            final(self).inner.since(old(self).inner),
            exists|q: crate::pq::error::Result<prepare::PrepareEncryptResult>| #[trigger]
                round_settled(
                    old(self).inner,
                    opt_id(proposing),
                    out,
                    final(self).inner,
                    q,
                ) && reports_round(q, r),
    {
        let q = self.inner.prepare_to_encrypt(proposing, out);
        let ghost seen = q;
        let r = match q {
            Err(e) => Err(map_session_err(e)),
            Ok(p) => Ok(
                Some(
                    PrepareEncryptResult {
                        proposal_hash: TwoMlsDigest::sha256(p.proposal_hash),
                        commited_remote_client_id: p.committed_remote_client_id,
                        did_commit: p.did_commit,
                    },
                ),
            ),
        };
        proof {
            assert(reports_round(seen, r));
        }
        r
    }

    /// Encrypt: `app` is what encrypting the app message in the send group gave, and
    /// `envelope` what sealing an establishment envelope gave, where it goes out as one.
    pub fn encrypt(
        &mut self,
        app: Option<Vec<u8>>,
        envelope: crate::pq::error::Result<Vec<u8>>,
    ) -> (r: Result<EncryptResult>)
        requires
            old(self).inner.wf(),
        ensures
            final(self).inner.wf(),
            old(self).inner.sound() ==> final(self).inner.sound(),
            old(self).inner.live() ==> final(self).inner.live(),
            final(self).inner.since(old(self).inner),
            final(self).inner == old(self).inner.after_encrypt(),
            exists|q: crate::pq::error::Result<Encrypted>| #[trigger]
                old(self).inner.encrypted_as(app, q) && reports_message(q, envelope, r),
    {
        let q = self.inner.encrypt(app);
        let ghost seen = q;
        let r = match q {
            Err(e) => Err(map_session_err(e)),
            Ok(m) => match finish_encrypt(m, envelope) {
                Err(e) => Err(map_session_err(e)),
                Ok(done) => Ok(
                    EncryptResult {
                        cipher_text: done.cipher_text,
                        sender: done.sender,
                        recipient: done.recipient,
                        epoch: done.epochs.classical_epoch,
                    },
                ),
            },
        };
        proof {
            assert(reports_message(seen, envelope, r));
        }
        r
    }

    /// Process an inbound blob that was carried out as the session's plan said. Nothing is
    /// reported where there is nothing to report, and where a rejoin is needed.
    pub fn process_incoming(&mut self, ciphertext: Vec<u8>, out: IncomingOutcome) -> (r: Result<
        Option<DecryptResult>,
    >)
        requires
            old(self).inner.wf(),
        ensures
            final(self).inner.wf(),
            old(self).inner.sound() ==> final(self).inner.sound(),
            old(self).inner.live() ==> final(self).inner.live(),
            final(self).inner.since(old(self).inner),
            exists|q: crate::pq::error::Result<Option<incoming::DecryptResult>>| #[trigger]
                old(self).inner.blob_processed(ciphertext@, out, final(self).inner, q)
                    && reports_incoming(q, r),
    {
        let q = self.inner.process_incoming(ciphertext, out);
        let ghost seen = q;
        let r = match q {
            Err(TwoMlsPqError::EpochDesync) => Ok(None),
            Err(e) => Err(map_session_err(e)),
            Ok(None) => Ok(None),
            Ok(Some(d)) => {
                let incoming::DecryptResult { application_message, proposal, remote_commit } = d;
                let proposal = match proposal {
                    None => None,
                    Some(p) => Some(
                        QueuedRemoteProposal {
                            digest: TwoMlsDigest::sha256(p.digest),
                            sender: p.sender,
                            proposing: p.proposing,
                            context: TwoMlsDigest::sha256(p.context),
                        },
                    ),
                };
                Ok(Some(DecryptResult { application_message, proposal, remote_commit }))
            },
        };
        proof {
            assert(reports_incoming(seen, r));
        }
        r
    }

    /// Approve the peer's offer by its digest. A digest of another hash names none.
    pub fn queue_proposal(&mut self, digest: TwoMlsDigest, processed: &ProcessedProposal) -> (r:
        Result<()>)
        requires
            old(self).inner.wf(),
        ensures
            final(self).inner.wf(),
            old(self).inner.sound() ==> final(self).inner.sound(),
            old(self).inner.live() ==> final(self).inner.live(),
            final(self).inner.since(old(self).inner),
            if digest.hash_type != HASH_TYPE_SHA256 {
                &&& r == Err::<(), TwoMlsError>(TwoMlsError::ProposalRejected)
                &&& *final(self) == *old(self)
            } else {
                exists|q: crate::pq::error::Result<()>| #[trigger]
                    old(self).inner.offer_settled(
                        digest.digest@,
                        *processed,
                        final(self).inner,
                        q,
                    ) && r == match q {
                        Ok(()) => Ok::<(), TwoMlsError>(()),
                        Err(e) => Err(surface_error(e)),
                    }
            },
    {
        if digest.hash_type != HASH_TYPE_SHA256 {
            return Err(TwoMlsError::ProposalRejected);
        }
        match self.inner.queue_proposal(digest.digest.as_slice(), processed) {
            Ok(()) => Ok(()),
            Err(e) => Err(map_session_err(e)),
        }
    }

    /// Acknowledge a re-delivered establishment frame by the token it was routed under.
    pub fn forwarded(&self, header_decrypted: Vec<u8>) -> (r: Result<Option<MlsSenderMessage>>)
        ensures
            r == match self.inner.spawn_token {
                None => Err::<Option<MlsSenderMessage>, TwoMlsError>(TwoMlsError::SessionNotReady),
                Some(token) => if token@ == header_decrypted@ {
                    Ok(None)
                } else {
                    Err(TwoMlsError::DecryptionFailed)
                },
            },
    {
        match self.inner.forwarded(header_decrypted.as_slice()) {
            Ok(m) => Ok(m),
            Err(e) => Err(map_session_err(e)),
        }
    }

    /// The channels to listen on, one per retained epoch of the send group.
    pub fn should_listen_on(&mut self) -> (r: Result<ListenChannels>)
        requires
            old(self).inner.wf(),
        ensures
            final(self).inner.wf(),
            old(self).inner.sound() ==> final(self).inner.sound(),
            old(self).inner.live() ==> final(self).inner.live(),
            final(self).inner.since(old(self).inner),
            listening(old(self).inner, true, final(self).inner),
            match old(self).inner.send_group {
                None => r == Err::<ListenChannels, TwoMlsError>(TwoMlsError::SessionNotReady),
                Some(g) => {
                    &&& r matches Ok(l)
                    &&& l.send_group_id@ == g.classical.group_id@
                    &&& channels(l.rendezvous_by_epoch@) == keys(
                        final(self).inner.listen_rendezvous@,
                    )
                },
            },
    {
        match self.inner.should_listen_on() {
            Err(e) => Err(map_session_err(e)),
            Ok(l) => {
                let messaging::ListenChannels { send_group, rendezvous_by_epoch } = l;
                Ok(ListenChannels { send_group_id: send_group.classical, rendezvous_by_epoch })
            },
        }
    }

    /// Whether both directions have their group.
    pub fn is_established(&self) -> (r: bool)
        ensures
            r == (self.inner.send_group is Some && self.inner.recv_group is Some),
    {
        self.inner.is_established()
    }

    pub fn active_session_id(&self) -> (r: SessionId)
        ensures
            r@ == self.inner.session_id@,
    {
        self.inner.active_session_id()
    }

    pub fn my_agent_state(&self) -> (r: AgentState)
        ensures
            r@ == self.inner.my_state@,
    {
        agent_state(self.inner.my_principal_state())
    }

    pub fn their_agent_state(&self) -> (r: AgentState)
        ensures
            r@ == self.inner.their_state@,
    {
        agent_state(self.inner.their_principal_state())
    }

    /// The classical id of the receive group.
    pub fn receive_group_id(&self) -> (r: Option<MlsGroupId>)
        ensures
            match (self.inner.recv_group, r) {
                (None, None) => true,
                (Some(g), Some(id)) => id@ == g.classical.group_id@,
                _ => false,
            },
    {
        match self.inner.receive_group_id() {
            None => None,
            Some(id) => Some(id.classical),
        }
    }

    pub fn has_receive_group(&self) -> (r: bool)
        ensures
            r == (self.inner.recv_group is Some),
    {
        self.inner.has_receive_group()
    }
}

} // verus!
