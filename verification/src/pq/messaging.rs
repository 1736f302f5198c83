//! The message path: encrypting, approving the peer's proposals, staging rotations, and where
//! to listen and post.

use vstd::prelude::*;
use crate::bytes::{
    all_bytes, bytes_eq, contains_bytes, copy_bytes, copy_opt, opt_bytes, opt_bytes_is,
};
use crate::types::{
    opt_id, ClientId, EpochRendezvous, MlsGroupId, MlsSenderMessage, RendezvousId, SessionId,
};
use super::error::{Result, TwoMlsPqError};
use super::establish::EnvelopeSections;
use super::frames::{
    encode_message_frame, encode_pre_establishment_app, encode_proposal_section, parts3, section,
    tagged, MESSAGE_FRAME_TAG, PRE_ESTABLISHMENT_APP_TAG,
};
use super::persist::begun;
use super::prepare::{listening, map_credential_err, refusal_error, MlsRefusal};
use super::providers::{mls_epoch_of, mls_message_epoch, sha256, sha256_of};
use super::sealing::{cannot_seal, freshly_sealed};
use super::state::{
    apq_epochs, keys, push_step, steps, ApqEpochs, AuthKind, AuthUpdate, BlobKind, CombinerGroup,
    EpochKey, PeerProposal, PrincipalState, TwoMlsPqSession, CANDIDATE_WINDOW,
};

verus! {

// ---- encrypting ----

/// What an encrypted message goes out as.
#[derive(Debug)]
pub enum Outbound {
    /// A sealed message frame.
    Frame { cipher_text: Vec<u8> },
    /// An establishment envelope, which the host is to seal to the peer's key package.
    Envelope { sections: EnvelopeSections },
}

/// An encrypted message.
#[derive(Debug)]
pub struct Encrypted {
    pub outbound: Outbound,
    pub sender: ClientId,
    pub recipient: ClientId,
    pub epochs: ApqEpochs,
    /// The sequence number that must be durable before the message is sent.
    pub depends_on_seq: u64,
}

/// An encrypted message as it goes on the wire.
#[derive(Debug, Clone, PartialEq, Eq)]
pub struct EncryptResult {
    pub cipher_text: Vec<u8>,
    pub sender: ClientId,
    pub recipient: ClientId,
    pub epochs: ApqEpochs,
    pub depends_on_seq: u64,
}

/// Complete an encrypted message; `envelope` is what sealing its envelope gave, if it is one.
pub fn finish_encrypt(message: Encrypted, envelope: Result<Vec<u8>>) -> (r: Result<EncryptResult>)
    ensures
        match (message.outbound, envelope) {
            (Outbound::Envelope { .. }, Err(e)) => r == Err::<EncryptResult, TwoMlsPqError>(e),
            (outbound, _) => {
                &&& r matches Ok(done)
                &&& done.cipher_text@ == match outbound {
                    Outbound::Frame { cipher_text } => cipher_text@,
                    Outbound::Envelope { .. } => envelope->Ok_0@,
                }
                &&& done.sender == message.sender
                &&& done.recipient == message.recipient
                &&& done.epochs == message.epochs
                &&& done.depends_on_seq == message.depends_on_seq
            },
        },
{
    let Encrypted { outbound, sender, recipient, epochs, depends_on_seq } = message;
    let cipher_text = match outbound {
        Outbound::Frame { cipher_text } => cipher_text,
        Outbound::Envelope { .. } => match envelope {
            Err(e) => return Err(e),
            Ok(sealed) => sealed,
        },
    };
    Ok(EncryptResult { cipher_text, sender, recipient, epochs, depends_on_seq })
}

/// The message frame that carries a staple, a staged proposal and an app message.
pub open spec fn frame_of(
    staple: Seq<u8>,
    proposing: Seq<u8>,
    proposal: Seq<u8>,
    app: Seq<u8>,
) -> Seq<u8> {
    tagged(MESSAGE_FRAME_TAG, parts3(staple, section(proposing) + proposal, app))
}

impl TwoMlsPqSession {
    /// Whether a prepared round is there to be encrypted: a staged proposal, or none while
    /// the receive group does not exist.
    pub open spec fn can_encrypt(&self) -> bool {
        &&& self.pending_proposal_hash is Some
        &&& self.pending_proposal_message is Some || self.recv_group is None
        &&& self.send_group is Some
    }

    /// The session once it has encrypted: the prepared round is used up.
    pub open spec fn after_encrypt(&self) -> TwoMlsPqSession {
        if self.pending_proposal_hash is Some {
            TwoMlsPqSession {
                pending_proposal_hash: None,
                pending_proposal_message: None,
                ..begun(*self, BlobKind::Core)
            }
        } else {
            begun(*self, BlobKind::Core)
        }
    }

    /// Whether `r` is what encrypting gives; `app` is what encrypting the app message gave.
    pub open spec fn encrypted_as(&self, app: Option<Vec<u8>>, r: Result<Encrypted>) -> bool {
        if !self.can_encrypt() {
            r == Err::<Encrypted, TwoMlsPqError>(TwoMlsPqError::SessionNotReady)
        } else {
            match app {
                None => r == Err::<Encrypted, TwoMlsPqError>(TwoMlsPqError::Mls),
                Some(app) => match self.pending_proposal_message {
                    Some(staged) => if self.current_staple@.len() == 0 {
                        r == Err::<Encrypted, TwoMlsPqError>(TwoMlsPqError::SessionNotReady)
                    } else {
                        match self.recv_group {
                            None => r == Err::<Encrypted, TwoMlsPqError>(
                                TwoMlsPqError::SessionNotEstablished,
                            ),
                            Some(recv) => match r {
                                Ok(m) => {
                                    &&& self.is_addressed(m)
                                    &&& m.outbound matches Outbound::Frame { cipher_text }
                                    &&& freshly_sealed(
                                        cipher_text@,
                                        recv.classical.header_key@,
                                        frame_of(
                                            self.current_staple@,
                                            staged.proposing@,
                                            staged.message@,
                                            app@,
                                        ),
                                    )
                                },
                                Err(e) => {
                                    &&& e == TwoMlsPqError::Mls
                                    &&& cannot_seal(
                                        recv.classical.header_key@,
                                        frame_of(
                                            self.current_staple@,
                                            staged.proposing@,
                                            staged.message@,
                                            app@,
                                        ),
                                    )
                                },
                            },
                        }
                    },
                    None => match r {
                        Ok(m) => {
                            &&& self.can_envelope()
                            &&& self.is_addressed(m)
                            &&& m.outbound matches Outbound::Envelope { sections }
                            &&& self.is_envelope(
                                sections,
                                Some(seq![PRE_ESTABLISHMENT_APP_TAG] + app@),
                            )
                        },
                        Err(e) => !self.can_envelope() && e == TwoMlsPqError::SessionNotReady,
                    },
                },
            }
        }
    }

    /// The authenticated data that the host is to encrypt the app message with. An error
    /// means not to advance the sender ratchet.
    pub fn encrypt_plan(&self) -> (r: Result<Vec<u8>>)
        ensures
            match r {
                Ok(aad) => self.can_encrypt() && opt_bytes(self.pending_proposal_hash) == Some(
                    aad@,
                ),
                Err(e) => !self.can_encrypt() && e == TwoMlsPqError::SessionNotReady,
            },
    {
        if self.pending_proposal_message.is_none() && self.recv_group.is_some() {
            return Err(TwoMlsPqError::SessionNotReady);
        }
        if self.send_group.is_none() {
            return Err(TwoMlsPqError::SessionNotReady);
        }
        match &self.pending_proposal_hash {
            None => Err(TwoMlsPqError::SessionNotReady),
            Some(hash) => Ok(copy_bytes(hash.as_slice())),
        }
    }

    /// Encrypt in the send group: `app` is what encrypting the app message gave, if it did. A
    /// prepared round is used up, whatever comes of it.
    ///
    /// On an established session the message goes out as one sealed frame of staple,
    /// proposal and app message; before that as an establishment envelope, which any single
    /// delivery suffices to join from.
    pub fn encrypt(&mut self, app: Option<Vec<u8>>) -> (r: Result<Encrypted>)
        requires
            old(self).wf(),
        ensures
            final(self).wf(),
            old(self).sound() ==> final(self).sound(),
            old(self).live() ==> final(self).live(),
            final(self).since(*old(self)),
            old(self).side_band_settled() && r is Ok ==> final(self).side_band_settled(),
            *final(self) == old(self).after_encrypt(),
            old(self).encrypted_as(app, r),
    {
        self.begin_mutation(BlobKind::Core);
        if self.pending_proposal_hash.is_none() {
            return Err(TwoMlsPqError::SessionNotReady);
        }
        self.pending_proposal_hash = None;
        let staged = self.pending_proposal_message.take();
        if staged.is_none() && self.recv_group.is_some() {
            return Err(TwoMlsPqError::SessionNotReady);
        }
        let epochs = match &self.send_group {
            None => return Err(TwoMlsPqError::SessionNotReady),
            Some(send) => apq_epochs(send),
        };
        let app = match app {
            None => return Err(TwoMlsPqError::Mls),
            Some(app) => app,
        };
        let sender = self.my_state.client_id();
        let recipient = self.their_state.client_id();
        let outbound = match staged {
            Some(staged) => {
                if self.current_staple.is_empty() {
                    return Err(TwoMlsPqError::SessionNotReady);
                }
                let frame = encode_message_frame(
                    self.current_staple.as_slice(),
                    encode_proposal_section(
                        staged.proposing.as_slice(),
                        staged.message.as_slice(),
                    ),
                    app,
                );
                match self.seal(frame.as_slice()) {
                    Err(e) => return Err(e),
                    Ok(cipher_text) => Outbound::Frame { cipher_text },
                }
            },
            None => {
                let stapled = encode_pre_establishment_app(app.as_slice());
                match self.compose_initial_envelope(Some(stapled)) {
                    Err(e) => return Err(e),
                    Ok(sections) => Outbound::Envelope { sections },
                }
            },
        };
        Ok(
            Encrypted {
                outbound,
                sender,
                recipient,
                epochs,
                depends_on_seq: self.current_staple_seq,
            },
        )
    }

    /// Whether a message goes from this session's active id to the peer's, at the send
    /// group's epochs, and waits for what its staple waits for.
    pub open spec fn is_addressed(&self, m: Encrypted) -> bool {
        &&& m.sender@ == self.my_state@.0
        &&& m.recipient@ == self.their_state@.0
        &&& self.send_group matches Some(g)
        &&& m.epochs.classical_epoch == g.classical.epoch
        &&& m.epochs.pq_epoch == match g.pq {
            Some(pq) => pq.epoch,
            None => 0,
        }
        &&& m.depends_on_seq == self.current_staple_seq
    }
}

// ---- approving the peer's proposal ----

/// What processing a message as a proposal in the send group gave.
#[derive(Debug)]
pub enum ProcessedProposal {
    /// It was refused.
    Refused { refusal: MlsRefusal },
    /// It is a message of another kind.
    NotAProposal,
    Proposal {
        /// The sender's leaf, if a member sent it.
        member: Option<u32>,
        is_update: bool,
        /// The id in the new leaf, if its credential is a basic one.
        leaf: Option<Vec<u8>>,
        authenticated_data: Vec<u8>,
    },
}

/// Whether a proposal is an update that the other member sent, which covers that member's
/// own leaf.
pub open spec fn is_peer_update(member: Option<u32>, is_update: bool, my_index: u32) -> bool {
    is_update && member is Some && member != Some(my_index)
}

/// Require a proposal to be an update that the other member sent.
pub fn require_peer_update(member: Option<u32>, is_update: bool, my_index: u32) -> (r: Result<()>)
    ensures
        r == if is_peer_update(member, is_update, my_index) {
            Ok::<(), TwoMlsPqError>(())
        } else {
            Err(TwoMlsPqError::ProposalRejected)
        },
{
    let from_peer = match member {
        Some(index) => index != my_index,
        None => false,
    };
    if is_update && from_peer {
        Ok(())
    } else {
        Err(TwoMlsPqError::ProposalRejected)
    }
}

/// Whether a processed offer is the peer's own update to the id that the offer declares.
pub open spec fn update_verdict(
    processed: ProcessedProposal,
    my_index: u32,
    proposing: Seq<u8>,
) -> Result<()> {
    match processed {
        ProcessedProposal::Refused { refusal } => Err(refusal_error(refusal)),
        ProcessedProposal::NotAProposal => Err(TwoMlsPqError::Mls),
        ProcessedProposal::Proposal { member, is_update, leaf, .. } => if is_peer_update(
            member,
            is_update,
            my_index,
        ) && opt_bytes(leaf) == Some(proposing) {
            Ok(())
        } else {
            Err(TwoMlsPqError::ProposalRejected)
        },
    }
}

/// Why an offer is refused, or that it is not.
pub fn validate_update(processed: &ProcessedProposal, my_index: u32, proposing: &[u8]) -> (r:
    Result<()>)
    ensures
        r == update_verdict(*processed, my_index, proposing@),
{
    match processed {
        ProcessedProposal::Refused { refusal } => Err(map_credential_err(*refusal)),
        ProcessedProposal::NotAProposal => Err(TwoMlsPqError::Mls),
        ProcessedProposal::Proposal { member, is_update, leaf, .. } => {
            match require_peer_update(*member, *is_update, my_index) {
                Err(e) => return Err(e),
                Ok(()) => {},
            }
            if opt_bytes_is(leaf, proposing) {
                Ok(())
            } else {
                Err(TwoMlsPqError::ProposalRejected)
            }
        },
    }
}

impl TwoMlsPqSession {
    /// Why the peer's offer is refused against the send group, or that it is not.
    pub open spec fn offer_verdict(
        &self,
        offer: PeerProposal,
        processed: ProcessedProposal,
    ) -> Result<()> {
        if mls_epoch_of(offer.message@) is None {
            Err(TwoMlsPqError::Mls)
        } else {
            match self.send_group {
                None => Err(TwoMlsPqError::SessionNotReady),
                Some(g) => update_verdict(processed, g.classical.my_index, offer.proposing@),
            }
        }
    }

    /// Validate the peer's offer against the send group. `processed` is what processing the
    /// offer in the group gave, with nothing of it left cached there.
    pub fn validate_offered_update(
        &self,
        offer: &PeerProposal,
        processed: &ProcessedProposal,
    ) -> (r: Result<()>)
        ensures
            r == self.offer_verdict(*offer, *processed),
    {
        if mls_message_epoch(offer.message.as_slice()).is_none() {
            return Err(TwoMlsPqError::Mls);
        }
        match &self.send_group {
            None => Err(TwoMlsPqError::SessionNotReady),
            Some(send) => validate_update(
                processed,
                send.classical.my_index,
                offer.proposing.as_slice(),
            ),
        }
    }

    /// What approving by a digest changes and reports.
    pub open spec fn offer_settled(
        &self,
        digest: Seq<u8>,
        processed: ProcessedProposal,
        now: TwoMlsPqSession,
        r: Result<()>,
    ) -> bool {
        match self.offered_proposal {
            None => {
                &&& r == Err::<(), TwoMlsPqError>(TwoMlsPqError::ProposalRejected)
                &&& now == *self
            },
            Some(offer) => {
                let verdict = if offer.digest@ != digest {
                    Err(TwoMlsPqError::ProposalRejected)
                } else {
                    self.offer_verdict(offer, processed)
                };
                &&& r == verdict
                &&& match verdict {
                    Err(_) => now == begun(*self, BlobKind::Core),
                    Ok(()) => {
                        &&& now == (TwoMlsPqSession {
                            offered_proposal: None,
                            queued_proposal: Some(offer),
                            auth_updates: now.auth_updates,
                            ..begun(*self, BlobKind::Core)
                        })
                        &&& steps(now.auth_updates@) == steps(
                            self.auth_updates@,
                        ).push((AuthKind::AuthorizeTheirs, offer.proposing@))
                    },
                }
            },
        }
    }

    /// Approve the peer's offer by its digest, so that the next round folds it. Approving is
    /// the app's authorization of the credential it carries. The latest approval wins; a
    /// refused one leaves the offer and the queue as they are, and one without any offer
    /// changes nothing at all.
    pub fn queue_proposal(&mut self, digest: &[u8], processed: &ProcessedProposal) -> (r: Result<
        (),
    >)
        requires
            old(self).wf(),
        ensures
            final(self).wf(),
            old(self).sound() ==> final(self).sound(),
            old(self).live() ==> final(self).live(),
            final(self).since(*old(self)),
            old(self).side_band_settled() && r is Ok ==> final(self).side_band_settled(),
            old(self).offer_settled(digest@, *processed, *final(self), r),
    {
        match &self.offered_proposal {
            None => return Err(TwoMlsPqError::ProposalRejected),
            Some(_) => {},
        }
        self.begin_mutation(BlobKind::Core);
        match self.offered_proposal.take() {
            None => Err(TwoMlsPqError::ProposalRejected),
            Some(offer) => {
                if !bytes_eq(offer.digest.as_slice(), digest) {
                    self.offered_proposal = Some(offer);
                    return Err(TwoMlsPqError::ProposalRejected);
                }
                match self.validate_offered_update(&offer, processed) {
                    Err(e) => {
                        self.offered_proposal = Some(offer);
                        Err(e)
                    },
                    Ok(()) => {
                        push_step(
                            &mut self.auth_updates,
                            AuthKind::AuthorizeTheirs,
                            offer.proposing.as_slice(),
                        );
                        self.queued_proposal = Some(offer);
                        Ok(())
                    },
                }
            },
        }
    }

    /// The peer's id that the next round would commit, if a proposal is queued.
    pub fn queued_remote_successor(&self) -> (r: Option<ClientId>)
        ensures
            opt_id(r) == match self.queued_proposal {
                Some(p) => Some(p.proposing@),
                None => None,
            },
    {
        match &self.queued_proposal {
            Some(p) => Some(ClientId { bytes: copy_bytes(p.proposing.as_slice()) }),
            None => None,
        }
    }
}

// ---- rotating ----

impl TwoMlsPqSession {
    /// Whether an id is already a candidate in flight, or the one that waits for room.
    pub open spec fn is_candidate(&self, id: Seq<u8>) -> bool {
        all_bytes(self.staged_candidates@).contains(id) || opt_bytes(self.deferred_candidate)
            == Some(id)
    }

    /// Whether staging `id` is to mint a principal for it: it is a new candidate, and there
    /// is room.
    pub fn mints_candidate(&self, id: &[u8]) -> (r: bool)
        ensures
            r == (id@.len() > 0 && !self.is_candidate(id@) && self.staged_candidates@.len()
                < CANDIDATE_WINDOW),
    {
        id.len() > 0 && !contains_bytes(&self.staged_candidates, id) && !opt_bytes_is(
            &self.deferred_candidate,
            id,
        ) && self.staged_candidates.len() < CANDIDATE_WINDOW
    }

    /// Stage a candidate for the own next id. `minted` is what minting its principal gave; it
    /// is looked at only if `mints_candidate`. With no room the request waits, replacing one
    /// that waits already: a candidate in flight is never evicted, for the peer may commit
    /// any of them. Staging a candidate again changes nothing.
    pub fn stage_rotation(&mut self, new_client_id: Vec<u8>, minted: Result<()>) -> (r: Result<()>)
        requires
            old(self).wf(),
        ensures
            final(self).wf(),
            old(self).sound() ==> final(self).sound(),
            old(self).live() ==> final(self).live(),
            final(self).since(*old(self)),
            old(self).side_band_settled() && r is Ok ==> final(self).side_band_settled(),
            if new_client_id@.len() == 0 {
                &&& r == Err::<(), TwoMlsPqError>(TwoMlsPqError::InvalidClientId)
                &&& *final(self) == *old(self)
            } else if old(self).is_candidate(new_client_id@) {
                r is Ok && *final(self) == *old(self)
            } else if old(self).staged_candidates@.len() < CANDIDATE_WINDOW {
                match minted {
                    Err(e) => {
                        &&& r == Err::<(), TwoMlsPqError>(e)
                        &&& *final(self) == begun(*old(self), BlobKind::Core)
                    },
                    Ok(()) => {
                        &&& r is Ok
                        &&& *final(self) == (TwoMlsPqSession {
                            staged_candidates: final(self).staged_candidates,
                            my_state: final(self).my_state,
                            auth_updates: final(self).auth_updates,
                            ..begun(*old(self), BlobKind::Core)
                        })
                        &&& all_bytes(final(self).staged_candidates@) == all_bytes(
                            old(self).staged_candidates@,
                        ).push(new_client_id@)
                        &&& final(self).my_state@ == (old(self).my_state@.0, Some(new_client_id@))
                        &&& steps(final(self).auth_updates@) == steps(old(self).auth_updates@).push(
                            (AuthKind::AuthorizeMine, new_client_id@),
                        )
                    },
                }
            } else {
                &&& r is Ok
                &&& *final(self) == (TwoMlsPqSession {
                    deferred_candidate: final(self).deferred_candidate,
                    my_state: final(self).my_state,
                    ..begun(*old(self), BlobKind::Core)
                })
                &&& opt_bytes(final(self).deferred_candidate) == Some(new_client_id@)
                &&& final(self).my_state@ == (old(self).my_state@.0, Some(new_client_id@))
            },
    {
        if new_client_id.is_empty() {
            return Err(TwoMlsPqError::InvalidClientId);
        }
        if contains_bytes(&self.staged_candidates, new_client_id.as_slice()) || opt_bytes_is(
            &self.deferred_candidate,
            new_client_id.as_slice(),
        ) {
            return Ok(());
        }
        self.begin_mutation(BlobKind::Core);
        let ghost before = self.staged_candidates@;
        if self.staged_candidates.len() < CANDIDATE_WINDOW {
            match minted {
                Err(e) => return Err(e),
                Ok(()) => {},
            }
            push_step(&mut self.auth_updates, AuthKind::AuthorizeMine, new_client_id.as_slice());
            self.staged_candidates.push(copy_bytes(new_client_id.as_slice()));
            proof {
                assert(all_bytes(self.staged_candidates@) =~= all_bytes(before).push(
                    new_client_id@,
                ));
            }
        } else {
            self.deferred_candidate = Some(copy_bytes(new_client_id.as_slice()));
        }
        self.my_state = PrincipalState::Pending {
            old: self.my_state.client_id(),
            new: ClientId { bytes: new_client_id },
        };
        Ok(())
    }

    /// The steps that the authentication service has not taken yet, in order.
    pub fn take_auth_updates(&mut self) -> (r: Vec<AuthUpdate>)
        ensures
            steps(r@) == steps(old(self).auth_updates@),
            *final(self) == (TwoMlsPqSession {
                auth_updates: final(self).auth_updates,
                ..*old(self)
            }),
            final(self).auth_updates@.len() == 0,
            old(self).wf() ==> final(self).wf(),
            old(self).sound() ==> final(self).sound(),
            old(self).live() ==> final(self).live(),
            old(self).wf() ==> final(self).since(*old(self)),
            old(self).side_band_settled() ==> final(self).side_band_settled(),
    {
        let mut out: Vec<AuthUpdate> = Vec::new();
        out.append(&mut self.auth_updates);
        proof {
            assert(out@ =~= old(self).auth_updates@);
        }
        out
    }
}

// ---- routing ----

/// The ids of a Combiner group; the PQ one is empty while that half is deferred.
#[derive(Debug, Clone, PartialEq, Eq)]
pub struct CombinerGroupId {
    pub classical: MlsGroupId,
    pub pq: MlsGroupId,
}

/// Whether `id` names `g`.
pub open spec fn names_group(id: CombinerGroupId, g: CombinerGroup) -> bool {
    &&& id.classical@ == g.classical.group_id@
    &&& id.pq@ == match g.pq {
        Some(pq) => pq.group_id@,
        None => Seq::empty(),
    }
}

/// The ids of a group.
fn group_id_of(g: &CombinerGroup) -> (r: CombinerGroupId)
    ensures
        names_group(r, *g),
{
    CombinerGroupId {
        classical: MlsGroupId { bytes: copy_bytes(g.classical.group_id.as_slice()) },
        pq: MlsGroupId {
            bytes: match &g.pq {
                Some(pq) => copy_bytes(pq.group_id.as_slice()),
                None => Vec::new(),
            },
        },
    }
}

/// The send group, and the addresses to listen on by its epochs.
#[derive(Debug, Clone, PartialEq, Eq)]
pub struct ListenChannels {
    pub send_group: CombinerGroupId,
    pub rendezvous_by_epoch: Vec<EpochRendezvous>,
}

/// The epochs and addresses of a list of channels.
pub open spec fn channels(v: Seq<EpochRendezvous>) -> Seq<(u64, Seq<u8>)> {
    Seq::new(v.len(), |i: int| (v[i].epoch, v[i].rendezvous_id@))
}

/// A window as a list of channels.
fn window_channels(w: &Vec<EpochKey>) -> (r: Vec<EpochRendezvous>)
    ensures
        channels(r@) == keys(w@),
{
    let mut out: Vec<EpochRendezvous> = Vec::new();
    let mut i: usize = 0;
    while i < w.len()
        invariant
            i <= w.len(),
            out@.len() == i,
            forall|j: int|
                0 <= j < i ==> (#[trigger] out@[j]).epoch == w@[j].epoch
                    && out@[j].rendezvous_id@ == w@[j].key@,
        decreases w.len() - i,
    {
        out.push(
            EpochRendezvous {
                epoch: w[i].epoch,
                rendezvous_id: RendezvousId { bytes: copy_bytes(w[i].key.as_slice()) },
            },
        );
        i += 1;
    }
    proof {
        assert(channels(out@) =~= keys(w@));
    }
    out
}

impl TwoMlsPqSession {
    /// The addresses that the transport should listen on, one per retained epoch of the send
    /// group, its current one among them.
    pub fn should_listen_on(&mut self) -> (r: Result<ListenChannels>)
        requires
            old(self).wf(),
        ensures
            final(self).wf(),
            old(self).sound() ==> final(self).sound(),
            old(self).live() ==> final(self).live(),
            final(self).since(*old(self)),
            old(self).side_band_settled() && r is Ok ==> final(self).side_band_settled(),
            listening(*old(self), true, *final(self)),
            match old(self).send_group {
                None => r == Err::<ListenChannels, TwoMlsPqError>(TwoMlsPqError::SessionNotReady),
                Some(g) => {
                    &&& r matches Ok(l)
                    &&& names_group(l.send_group, g)
                    &&& channels(l.rendezvous_by_epoch@) == keys(final(self).listen_rendezvous@)
                },
            },
    {
        self.record_listen_rendezvous();
        match &self.send_group {
            None => Err(TwoMlsPqError::SessionNotReady),
            Some(send) => Ok(
                ListenChannels {
                    send_group: group_id_of(send),
                    rendezvous_by_epoch: window_channels(&self.listen_rendezvous),
                },
            ),
        }
    }

    /// The address to post outbound frames to. The receive group is the peer's send group, so
    /// the peer listens there.
    pub fn send_rendezvous(&self) -> (r: Option<RendezvousId>)
        ensures
            match (self.recv_group, r) {
                (None, None) => true,
                (Some(g), Some(id)) => id@ == g.classical.rendezvous@,
                _ => false,
            },
    {
        match &self.recv_group {
            None => None,
            Some(recv) => Some(
                RendezvousId { bytes: copy_bytes(recv.classical.rendezvous.as_slice()) },
            ),
        }
    }

    /// The digest of the receive group's classical id, which identity introductions bind.
    pub fn proposal_context(&self) -> (r: Option<Vec<u8>>)
        ensures
            opt_bytes(r) == match self.recv_group {
                Some(g) => Some(sha256_of(g.classical.group_id@)),
                None => None,
            },
    {
        match &self.recv_group {
            None => None,
            Some(recv) => Some(sha256(recv.classical.group_id.as_slice())),
        }
    }

    /// Acknowledge a re-delivered establishment frame that was routed here. The token must be
    /// the one that this session was spawned under; nothing is held here for it.
    pub fn forwarded(&self, spawn_token: &[u8]) -> (r: Result<Option<MlsSenderMessage>>)
        ensures
            match self.spawn_token {
                None => r == Err::<Option<MlsSenderMessage>, TwoMlsPqError>(
                    TwoMlsPqError::SessionNotReady,
                ),
                Some(token) => if token@ == spawn_token@ {
                    r == Ok::<Option<MlsSenderMessage>, TwoMlsPqError>(None)
                } else {
                    r == Err::<Option<MlsSenderMessage>, TwoMlsPqError>(
                        TwoMlsPqError::DecryptionFailed,
                    )
                },
            },
    {
        match &self.spawn_token {
            None => Err(TwoMlsPqError::SessionNotReady),
            Some(token) => {
                if bytes_eq(token.as_slice(), spawn_token) {
                    Ok(None)
                } else {
                    Err(TwoMlsPqError::DecryptionFailed)
                }
            },
        }
    }
}

// ---- what a session says of itself ----

impl TwoMlsPqSession {
    /// Whether both directions have their PQ half.
    pub fn is_fully_established(&self) -> (r: bool)
        ensures
            r == self.spec_pq_halves_live(),
    {
        let send = match &self.send_group {
            Some(g) => g.pq.is_some(),
            None => false,
        };
        let recv = match &self.recv_group {
            Some(g) => g.pq.is_some(),
            None => false,
        };
        send && recv
    }

    /// The send group's epochs, 0 where a group does not exist yet.
    pub fn epochs(&self) -> (r: ApqEpochs)
        ensures
            r.classical_epoch == match self.send_group {
                Some(g) => g.classical.epoch,
                None => 0,
            },
            r.pq_epoch == match super::state::pq_epoch_of(self.send_group) {
                Some(epoch) => epoch,
                None => 0,
            },
    {
        match &self.send_group {
            Some(send) => apq_epochs(send),
            None => ApqEpochs { pq_epoch: 0, classical_epoch: 0 },
        }
    }

    /// Whether both directions have their group.
    pub fn is_established(&self) -> (r: bool)
        ensures
            r == (self.send_group is Some && self.recv_group is Some),
    {
        self.send_group.is_some() && self.recv_group.is_some()
    }

    pub fn has_receive_group(&self) -> (r: bool)
        ensures
            r == (self.recv_group is Some),
    {
        self.recv_group.is_some()
    }

    pub fn active_session_id(&self) -> (r: SessionId)
        ensures
            r@ == self.session_id@,
    {
        SessionId { bytes: copy_bytes(self.session_id.bytes.as_slice()) }
    }

    pub fn my_principal_state(&self) -> (r: PrincipalState)
        ensures
            r@ == self.my_state@,
    {
        self.my_state.copy()
    }

    pub fn their_principal_state(&self) -> (r: PrincipalState)
        ensures
            r@ == self.their_state@,
    {
        self.their_state.copy()
    }

    /// The app-state binding that the session was founded with.
    pub fn app_binding(&self) -> (r: Option<Vec<u8>>)
        ensures
            opt_bytes(r) == match self.send_group {
                Some(g) => opt_bytes(g.app_binding),
                None => None,
            },
    {
        match &self.send_group {
            Some(send) => copy_opt(&send.app_binding),
            None => None,
        }
    }

    /// The ids of the receive group.
    pub fn receive_group_id(&self) -> (r: Option<CombinerGroupId>)
        ensures
            match (self.recv_group, r) {
                (None, None) => true,
                (Some(g), Some(id)) => names_group(id, g),
                _ => false,
            },
    {
        match &self.recv_group {
            None => None,
            Some(recv) => Some(group_id_of(recv)),
        }
    }

    /// Whether the next side-band operation is this side's.
    pub fn my_pq_turn(&self) -> (r: bool)
        ensures
            r == self.pq_turn_mine,
    {
        self.pq_turn_mine
    }

    /// Whether receiving is broken: a peer's bind failed to apply with its secret spent.
    pub fn pq_receive_broken(&self) -> (r: bool)
        ensures
            r == self.bind_apply_broken,
    {
        self.bind_apply_broken
    }
}

} // verus!
