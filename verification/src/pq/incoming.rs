//! Receiving: welcomes, message frames and the app messages of establishment envelopes.
//!
//! `incoming_plan` opens a frame and says which group operations the host is to carry out, in
//! order, stopping at the first that fails; between the staple and the app message,
//! `staple_stands` says whether to go on. `process_incoming` takes what they gave, settles
//! the session's state and reports the frame. What an operation spent before a later one
//! failed stays spent.

use vstd::prelude::*;
use crate::bytes::{
    all_bytes, bytes_eq, contains_bytes, copy_bytes, first_byte, opt_bytes, opt_bytes_eq,
    opt_bytes_is, starts_with, tail,
};
use crate::types::{opt_id, ClientId, CommitResult, MlsSenderMessage};
use super::error::{Result, TwoMlsPqError};
use super::frames::{
    decode_apq_private_message, decode_apq_welcome, decode_message_frame, decode_proposal_section,
    kind_of_tag, message_parts, pq_frame_kind, proposal_parts, read2, APQ_PRIVATE_MESSAGE_TAG,
    APQ_TAG, MESSAGE_FRAME_TAG, PRE_ESTABLISHMENT_APP_TAG,
};
use super::key_packages::{validate_welcome_halves, welcome_halves_check};
use super::messaging::{update_verdict, validate_update, ProcessedProposal};
use super::persist::begun;
use super::prepare::MlsRefusal;
use super::providers::{mls_epoch_of, mls_message_epoch, sha256, sha256_of, wipe};
use super::sealing::opened_or_raw;
use super::state::{
    ledger_has, pq_epoch_of, push_step, steps, ApqInfoUpdate, AuthKind, BlobKind, CombinerGroup,
    ExportedPsk, GroupHalf, PeerProposal, PqInflight, PrincipalState, PskRef, TwoMlsPqSession,
    SEND_PSK_WINDOW,
};
use super::windows::{ledger_with, remember_error, retired_after};

verus! {

// ---- injecting the ledger ----

impl TwoMlsPqSession {
    /// Why injecting the send PSK ledger fails. Without a send group there is none to inject.
    pub open spec fn inject_error(&self, psk: Result<ExportedPsk>) -> Option<TwoMlsPqError> {
        match self.send_group {
            None => None,
            Some(g) => remember_error(self.send_psk_ledger@, g.classical.epoch, psk),
        }
    }

    /// Whether `now` holds the ledger as it is once it was injected: with the current epoch's
    /// PSK, and nothing left to retire. A failed injection leaves it as it was.
    pub open spec fn ledger_injected(&self, psk: Result<ExportedPsk>, now: TwoMlsPqSession) -> bool {
        match self.send_group {
            None => {
                &&& now.send_psk_ledger == self.send_psk_ledger
                &&& now.retired_send_psks == self.retired_send_psks
            },
            Some(g) => {
                &&& now.send_psk_ledger@ == ledger_with(
                    self.send_psk_ledger@,
                    g.classical.epoch,
                    psk,
                )
                &&& now.retired_send_psks@ == if self.inject_error(psk) is Some {
                    self.retired_send_psks@
                } else {
                    Seq::empty()
                }
            },
        }
    }

    /// Inject the ledger if there is a send group.
    fn inject_ledger(&mut self, psk: Result<ExportedPsk>) -> (r: Result<()>)
        requires
            old(self).wf(),
        ensures
            final(self).wf(),
            old(self).sound() ==> final(self).sound(),
            old(self).live() ==> final(self).live(),
            final(self).since(*old(self)),
            old(self).side_band_settled() && r is Ok ==> final(self).side_band_settled(),
            *final(self) == (TwoMlsPqSession {
                send_psk_ledger: final(self).send_psk_ledger,
                retired_send_psks: final(self).retired_send_psks,
                ..*old(self)
            }),
            old(self).ledger_injected(psk, *final(self)),
            r == match old(self).inject_error(psk) {
                Some(e) => Err::<(), TwoMlsPqError>(e),
                None => Ok(()),
            },
    {
        if self.send_group.is_some() {
            let r = self.inject_send_psks(psk);
            proof {
                assert(self.retired_send_psks@.len() == 0 ==> self.retired_send_psks@
                    =~= Seq::empty());
            }
            match r {
                Err(e) => Err(e),
                Ok(_) => Ok(()),
            }
        } else {
            Ok(())
        }
    }
}

// ---- welcomes ----

/// What joining from a welcome gave.
#[derive(Debug)]
pub struct JoinOutcome {
    /// The joined group, its halves checked against each other.
    pub joined: Result<CombinerGroup>,
    /// Whether the joined PQ half carries no app-state binding of its own.
    pub pq_unbound: Result<()>,
}

impl TwoMlsPqSession {
    /// Why a welcome is refused that is not the first, once the ledger is injected.
    pub open spec fn welcome_error(&self, welcome: Seq<u8>, out: JoinOutcome) -> Option<
        TwoMlsPqError,
    > {
        match read2(welcome, APQ_TAG) {
            None => Some(TwoMlsPqError::Mls),
            Some((classical, pq)) => match welcome_halves_check(self.suite, classical, pq) {
                Err(e) => Some(e),
                Ok(()) => match out.joined {
                    Err(e) => Some(e),
                    Ok(joined) => match self.send_group {
                        None => Some(TwoMlsPqError::SessionNotEstablished),
                        Some(send) => if opt_bytes(joined.app_binding) != opt_bytes(
                            send.app_binding,
                        ) {
                            Some(TwoMlsPqError::AppBindingMismatch)
                        } else if joined.pq is Some && out.pq_unbound is Err {
                            Some(out.pq_unbound->Err_0)
                        } else {
                            None
                        },
                    },
                },
            },
        }
    }

    /// What processing a welcome changes and reports. The welcome that the receive group was
    /// joined from can come again and changes nothing; another one is refused.
    pub open spec fn welcomed(
        &self,
        welcome: Seq<u8>,
        psk: Result<ExportedPsk>,
        out: JoinOutcome,
        now: TwoMlsPqSession,
        r: Result<()>,
    ) -> bool {
        if self.recv_group is Some {
            &&& now == *self
            &&& r == if opt_bytes(self.joined_welcome_digest) == Some(sha256_of(welcome)) {
                Ok::<(), TwoMlsPqError>(())
            } else {
                Err(TwoMlsPqError::UnexpectedWelcome)
            }
        } else {
            let error = match self.inject_error(psk) {
                Some(e) => Some(e),
                None => self.welcome_error(welcome, out),
            };
            &&& self.ledger_injected(psk, now)
            &&& match error {
                Some(e) => {
                    &&& r == Err::<(), TwoMlsPqError>(e)
                    &&& now == (TwoMlsPqSession {
                        send_psk_ledger: now.send_psk_ledger,
                        retired_send_psks: now.retired_send_psks,
                        ..*self
                    })
                },
                None => {
                    let joined = out.joined->Ok_0;
                    &&& r is Ok
                    &&& now == (TwoMlsPqSession {
                        send_psk_ledger: now.send_psk_ledger,
                        retired_send_psks: now.retired_send_psks,
                        recv_group: Some(joined),
                        joined_welcome_digest: now.joined_welcome_digest,
                        their_state: now.their_state,
                        auth_updates: now.auth_updates,
                        initial_their_kp: None,
                        initial_app_payload: None,
                        initial_return_kp: None,
                        pending_outbound: None,
                        ..*self
                    })
                    &&& opt_bytes(now.joined_welcome_digest) == Some(sha256_of(welcome))
                    &&& now.their_state@ == (joined.classical.peer_leaf@, None::<Seq<u8>>)
                    &&& steps(now.auth_updates@) == steps(self.auth_updates@).push(
                        (AuthKind::CommitTheirs, joined.classical.peer_leaf@),
                    )
                },
            }
        }
    }

    /// Join the receive group from a welcome, adopting the creator's id as the peer's. What
    /// the session kept for its establishment envelopes is dropped with it. This is the step
    /// that `process_incoming` takes for a welcome, alone or stapled; by itself it is neither
    /// counted nor pushed.
    pub fn process_welcome(
        &mut self,
        welcome: &[u8],
        psk: Result<ExportedPsk>,
        out: JoinOutcome,
    ) -> (r: Result<()>)
        requires
            old(self).wf(),
        ensures
            final(self).wf(),
            old(self).sound() ==> final(self).sound(),
            old(self).live() ==> final(self).live(),
            final(self).since(*old(self)),
            old(self).side_band_settled() && r is Ok ==> final(self).side_band_settled(),
            old(self).welcomed(welcome@, psk, out, *final(self), r),
    {
        let JoinOutcome { joined, pq_unbound } = out;
        let digest = sha256(welcome);
        if self.recv_group.is_some() {
            if opt_bytes_is(&self.joined_welcome_digest, digest.as_slice()) {
                return Ok(());
            }
            return Err(TwoMlsPqError::UnexpectedWelcome);
        }
        match self.inject_ledger(psk) {
            Err(e) => return Err(e),
            Ok(()) => {},
        }
        let (classical, pq) = match decode_apq_welcome(welcome) {
            Err(e) => return Err(e),
            Ok(halves) => halves,
        };
        match validate_welcome_halves(self.suite, classical.as_slice(), pq.as_slice()) {
            Err(e) => return Err(e),
            Ok(()) => {},
        }
        let joined = match joined {
            Err(e) => return Err(e),
            Ok(g) => g,
        };
        match &self.send_group {
            None => return Err(TwoMlsPqError::SessionNotEstablished),
            Some(send) => {
                if !opt_bytes_eq(&joined.app_binding, &send.app_binding) {
                    return Err(TwoMlsPqError::AppBindingMismatch);
                }
            },
        }
        if joined.pq.is_some() {
            match pq_unbound {
                Err(e) => return Err(e),
                Ok(()) => {},
            }
        }
        push_step(
            &mut self.auth_updates,
            AuthKind::CommitTheirs,
            joined.classical.peer_leaf.as_slice(),
        );
        self.their_state = PrincipalState::Sync {
            client_id: ClientId { bytes: copy_bytes(joined.classical.peer_leaf.as_slice()) },
        };
        self.recv_group = Some(joined);
        self.joined_welcome_digest = Some(digest);
        self.initial_their_kp = None;
        self.initial_app_payload = None;
        self.initial_return_kp = None;
        self.pending_outbound = None;
        Ok(())
    }
}

// ---- the order of staples ----

/// What a stapled commit is, relative to the receive group's epoch.
#[derive(Debug, Clone, Copy, PartialEq, Eq, Structural)]
pub enum StapleAction {
    /// It was applied off an earlier frame.
    Skip,
    /// It is the next commit.
    Apply,
}

impl TwoMlsPqSession {
    /// The order of staples: an older commit is skipped, the next one is applied, and one
    /// further ahead means that a commit between was never seen.
    pub open spec fn staple_order(&self, commit: Seq<u8>) -> Result<StapleAction> {
        match mls_epoch_of(commit) {
            None => Err(TwoMlsPqError::DecryptionFailed),
            Some(None) => Err(TwoMlsPqError::DecryptionFailed),
            Some(Some(epoch)) => match self.recv_group {
                None => Err(TwoMlsPqError::SessionNotEstablished),
                Some(g) => if epoch < g.classical.epoch {
                    Ok(StapleAction::Skip)
                } else if epoch == g.classical.epoch {
                    Ok(StapleAction::Apply)
                } else {
                    Err(TwoMlsPqError::EpochDesync)
                },
            },
        }
    }

    /// Place a stapled commit in the order.
    pub fn staple_epoch_action(&self, commit: &[u8]) -> (r: Result<StapleAction>)
        ensures
            r == self.staple_order(commit@),
    {
        let epoch: u64 = match mls_message_epoch(commit) {
            Some(Some(epoch)) => epoch,
            _ => return Err(TwoMlsPqError::DecryptionFailed),
        };
        match &self.recv_group {
            None => Err(TwoMlsPqError::SessionNotEstablished),
            Some(recv) => {
                if epoch < recv.classical.epoch {
                    Ok(StapleAction::Skip)
                } else if epoch == recv.classical.epoch {
                    Ok(StapleAction::Apply)
                } else {
                    Err(TwoMlsPqError::EpochDesync)
                }
            },
        }
    }
}

/// What a staple did: whether it was applied, and the ids that it moved.
#[derive(Debug)]
pub struct StapleMoves {
    pub applied: bool,
    /// The peer's new id, if its leaf moved.
    pub new_sender: Option<Vec<u8>>,
    /// Our new id, if our leaf moved.
    pub canonicalized_own: Option<Vec<u8>>,
}

impl View for StapleMoves {
    type V = (bool, Option<Seq<u8>>, Option<Seq<u8>>);

    open spec fn view(&self) -> (bool, Option<Seq<u8>>, Option<Seq<u8>>) {
        (self.applied, opt_bytes(self.new_sender), opt_bytes(self.canonicalized_own))
    }
}

/// The id that a leaf moved to.
pub open spec fn moved(before: Seq<u8>, after: Seq<u8>) -> Option<Seq<u8>> {
    if before == after {
        None
    } else {
        Some(after)
    }
}

/// The id that a leaf moved to.
fn moved_to(before: &[u8], after: &[u8]) -> (r: Option<Vec<u8>>)
    ensures
        opt_bytes(r) == moved(before@, after@),
{
    if bytes_eq(before, after) {
        None
    } else {
        Some(copy_bytes(after))
    }
}

/// What applying a commit to the receive group moved.
pub open spec fn leaf_moves(before: GroupHalf, after: GroupHalf) -> (
    bool,
    Option<Seq<u8>>,
    Option<Seq<u8>>,
) {
    (true, moved(before.peer_leaf@, after.peer_leaf@), moved(before.my_leaf@, after.my_leaf@))
}

// ---- a plain commit ----

/// What processing a stapled commit in the receive group gave.
#[derive(Debug)]
pub enum CommitProcessed {
    Refused { refusal: MlsRefusal },
    NotACommit,
    Commit {
        /// The classical half as the commit left it.
        half: GroupHalf,
        /// What the commit attests, if it does; an error if that cannot be read.
        attestation: Result<Option<ApqInfoUpdate>>,
        /// Whether the group still has exactly two members.
        two_party: bool,
    },
}

impl TwoMlsPqSession {
    /// The receive group with its classical half replaced.
    pub open spec fn with_recv_classical(&self, half: GroupHalf) -> Option<CombinerGroup> {
        match self.recv_group {
            None => None,
            Some(g) => Some(CombinerGroup { classical: half, ..g }),
        }
    }

    /// Why an applied commit is refused: it attests epochs that the halves are not at, or
    /// the group is no longer of two members.
    pub open spec fn applied_error(
        &self,
        half: GroupHalf,
        attestation: Result<Option<ApqInfoUpdate>>,
        two_party: bool,
    ) -> Option<TwoMlsPqError> {
        match attestation {
            Err(e) => Some(e),
            Ok(Some(a)) if pq_epoch_of(self.recv_group) != Some(a.pq_epoch) || a.t_epoch
                != half.epoch => Some(TwoMlsPqError::ApqInfoMismatch),
            Ok(_) => if two_party {
                None
            } else {
                Some(TwoMlsPqError::Mls)
            },
        }
    }

    /// What applying a plain commit changes and reports.
    pub open spec fn commit_applied(
        &self,
        psk: Result<ExportedPsk>,
        out: CommitProcessed,
        now: TwoMlsPqSession,
        r: Result<StapleMoves>,
    ) -> bool {
        &&& self.ledger_injected(psk, now)
        &&& now == (TwoMlsPqSession {
            send_psk_ledger: now.send_psk_ledger,
            retired_send_psks: now.retired_send_psks,
            recv_group: now.recv_group,
            ..*self
        })
        &&& match self.inject_error(psk) {
            Some(e) => {
                &&& r == Err::<StapleMoves, TwoMlsPqError>(e)
                &&& now.recv_group == self.recv_group
            },
            None => match out {
                CommitProcessed::Refused { refusal } => {
                    &&& r == Err::<StapleMoves, TwoMlsPqError>(
                        if refusal == MlsRefusal::Other {
                            TwoMlsPqError::DecryptionFailed
                        } else {
                            TwoMlsPqError::CredentialRejected
                        },
                    )
                    &&& now.recv_group == self.recv_group
                },
                CommitProcessed::NotACommit => {
                    &&& r == Err::<StapleMoves, TwoMlsPqError>(TwoMlsPqError::DecryptionFailed)
                    &&& now.recv_group == self.recv_group
                },
                CommitProcessed::Commit { half, attestation, two_party } => {
                    &&& now.recv_group == self.with_recv_classical(half)
                    &&& match self.applied_error(half, attestation, two_party) {
                        Some(e) => r == Err::<StapleMoves, TwoMlsPqError>(e),
                        None => r matches Ok(m) && m@ == leaf_moves(
                            self.recv_group->0.classical,
                            half,
                        ),
                    }
                },
            },
        }
    }

    /// Apply a plain stapled commit.
    fn apply_commit(&mut self, psk: Result<ExportedPsk>, out: CommitProcessed) -> (r: Result<
        StapleMoves,
    >)
        requires
            old(self).wf(),
            old(self).recv_group is Some,
        ensures
            final(self).wf(),
            old(self).sound() ==> final(self).sound(),
            old(self).live() ==> final(self).live(),
            final(self).since(*old(self)),
            old(self).side_band_settled() && r is Ok ==> final(self).side_band_settled(),
            old(self).commit_applied(psk, out, *final(self), r),
    {
        match self.inject_ledger(psk) {
            Err(e) => return Err(e),
            Ok(()) => {},
        }
        match out {
            CommitProcessed::Refused { refusal } => match refusal {
                MlsRefusal::Other => Err(TwoMlsPqError::DecryptionFailed),
                _ => Err(TwoMlsPqError::CredentialRejected),
            },
            CommitProcessed::NotACommit => Err(TwoMlsPqError::DecryptionFailed),
            CommitProcessed::Commit { half, attestation, two_party } => {
                let recv = match self.recv_group.take() {
                    Some(g) => g,
                    None => return Err(TwoMlsPqError::SessionNotEstablished),
                };
                let new_sender = moved_to(
                    recv.classical.peer_leaf.as_slice(),
                    half.peer_leaf.as_slice(),
                );
                let canonicalized_own = moved_to(
                    recv.classical.my_leaf.as_slice(),
                    half.my_leaf.as_slice(),
                );
                let t_epoch: u64 = half.epoch;
                let pq_epoch: Option<u64> = match &recv.pq {
                    Some(pq) => Some(pq.epoch),
                    None => None,
                };
                self.recv_group = Some(
                    CombinerGroup { classical: half, pq: recv.pq, app_binding: recv.app_binding },
                );
                match attestation {
                    Err(e) => return Err(e),
                    Ok(Some(a)) => {
                        let truthful = match pq_epoch {
                            Some(pq) => a.t_epoch == t_epoch && a.pq_epoch == pq,
                            None => false,
                        };
                        if !truthful {
                            return Err(TwoMlsPqError::ApqInfoMismatch);
                        }
                    },
                    Ok(None) => {},
                }
                if !two_party {
                    return Err(TwoMlsPqError::Mls);
                }
                Ok(StapleMoves { applied: true, new_sender, canonicalized_own })
            },
        }
    }
}

// ---- a bind ----

/// What applying a bind's PQ commit gave.
#[derive(Debug)]
pub struct PqApplied {
    /// The PQ half as the commit left it.
    pub half: GroupHalf,
    pub attestation: ApqInfoUpdate,
}

/// What applying a bind's classical commit gave.
#[derive(Debug)]
pub struct ClassicalApplied {
    /// The classical half as the commit left it.
    pub half: GroupHalf,
    pub attestation: Option<ApqInfoUpdate>,
    /// Whether the group still has exactly two members.
    pub two_party: bool,
}

/// What the steps of applying a bind gave.
#[derive(Debug)]
pub struct BindOutcome {
    /// Exporting the round's secret from the send group's PQ half, where it is not held.
    pub secret: Result<()>,
    pub pq: Option<PqApplied>,
    pub classical: Option<ClassicalApplied>,
}

impl TwoMlsPqSession {
    /// Whether this side is the responder of a round whose secret it exports from its own
    /// send group.
    pub open spec fn exports_bind_secret(&self) -> bool {
        self.pq_inflight matches Some(p) && (p is BootstrapResponded || p is RekeyResponded)
    }

    /// Why a bind's secret cannot be had: this side is not the responder of a round, or the
    /// secret cannot be exported.
    pub open spec fn secret_error(&self, secret: Result<()>) -> Option<TwoMlsPqError> {
        if self.pq_inflight matches Some(p) && p is Responding {
            None
        } else if !self.exports_bind_secret() || pq_epoch_of(self.send_group) is None {
            Some(TwoMlsPqError::SessionNotReady)
        } else {
            match secret {
                Err(e) => Some(e),
                Ok(()) => None,
            }
        }
    }

    /// Whether a bind's PQ commit is applied.
    pub open spec fn bind_pq_applies(&self, psk: Result<ExportedPsk>, out: BindOutcome) -> bool {
        self.inject_error(psk) is None && pq_epoch_of(self.recv_group) is Some && out.pq is Some
    }

    /// The receive group once a bind was applied as far as it could be.
    pub open spec fn bind_recv(&self, psk: Result<ExportedPsk>, out: BindOutcome) -> Option<
        CombinerGroup,
    > {
        if !self.bind_pq_applies(psk, out) {
            self.recv_group
        } else {
            let g = CombinerGroup { pq: Some(out.pq->0.half), ..self.recv_group->0 };
            match out.classical {
                None => Some(g),
                Some(c) => Some(CombinerGroup { classical: c.half, ..g }),
            }
        }
    }

    /// Whether a bind applies: both commits did, they attest the same epochs, the halves are
    /// at those epochs, and the group is still of two members.
    pub open spec fn bind_applies(&self, psk: Result<ExportedPsk>, out: BindOutcome) -> bool {
        &&& self.bind_pq_applies(psk, out)
        &&& out.classical matches Some(c)
        &&& c.attestation == Some(out.pq->0.attestation)
        &&& out.pq->0.attestation.pq_epoch == out.pq->0.half.epoch
        &&& out.pq->0.attestation.t_epoch == c.half.epoch
        &&& c.two_party
    }

    /// What applying a bind changes and reports. The round's secret is spent first, so a bind
    /// that then does not apply breaks receiving; one that does passes the turn to this side
    /// and ends the round.
    pub open spec fn bind_applied(
        &self,
        psk: Result<ExportedPsk>,
        out: BindOutcome,
        now: TwoMlsPqSession,
        r: Result<StapleMoves>,
    ) -> bool {
        match self.secret_error(out.secret) {
            Some(e) => {
                &&& r == Err::<StapleMoves, TwoMlsPqError>(e)
                &&& now == (TwoMlsPqSession {
                    pq_inflight: if self.exports_bind_secret() {
                        None
                    } else {
                        self.pq_inflight
                    },
                    ..*self
                })
            },
            None => {
                &&& self.ledger_injected(psk, now)
                &&& now == (TwoMlsPqSession {
                    send_psk_ledger: now.send_psk_ledger,
                    retired_send_psks: now.retired_send_psks,
                    recv_group: self.bind_recv(psk, out),
                    pq_inflight: None,
                    last_send_pq_exported: if self.exports_bind_secret() {
                        pq_epoch_of(self.send_group)
                    } else {
                        self.last_send_pq_exported
                    },
                    bind_apply_broken: !self.bind_applies(psk, out) || self.bind_apply_broken,
                    pq_turn_mine: self.bind_applies(psk, out) || self.pq_turn_mine,
                    pending_side_band: if self.bind_applies(psk, out) {
                        None
                    } else {
                        self.pending_side_band
                    },
                    ..*self
                })
                &&& if self.bind_applies(psk, out) {
                    r matches Ok(m) && m@ == leaf_moves(
                        self.recv_group->0.classical,
                        out.classical->0.half,
                    )
                } else {
                    r == Err::<StapleMoves, TwoMlsPqError>(TwoMlsPqError::BindApplyFailed)
                }
            },
        }
    }

    /// Note that the send group's cross-party PSK was exported at its current PQ epoch.
    pub(crate) fn export_cross_from_send_pq(&mut self, exported: Result<()>) -> (r: Result<()>)
        ensures
            r == match pq_epoch_of(old(self).send_group) {
                None => Err::<(), TwoMlsPqError>(TwoMlsPqError::SessionNotReady),
                Some(_) => match exported {
                    Err(e) => Err(e),
                    Ok(()) => Ok(()),
                },
            },
            *final(self) == (TwoMlsPqSession {
                last_send_pq_exported: if r is Ok {
                    pq_epoch_of(old(self).send_group)
                } else {
                    old(self).last_send_pq_exported
                },
                ..*old(self)
            }),
            old(self).wf() ==> final(self).wf(),
            old(self).sound() ==> final(self).sound(),
            old(self).live() ==> final(self).live(),
            old(self).wf() ==> final(self).since(*old(self)),
            old(self).side_band_settled() && r is Ok ==> final(self).side_band_settled(),
    {
        let epoch: u64 = match &self.send_group {
            None => return Err(TwoMlsPqError::SessionNotReady),
            Some(send) => match &send.pq {
                None => return Err(TwoMlsPqError::SessionNotReady),
                Some(pq) => pq.epoch,
            },
        };
        match exported {
            Err(e) => Err(e),
            Ok(()) => {
                self.last_send_pq_exported = Some(epoch);
                Ok(())
            },
        }
    }

    /// Apply both commits of a bind to the receive group and verify what they attest.
    fn apply_bind(
        &mut self,
        psk: Result<ExportedPsk>,
        pq: Option<PqApplied>,
        classical: Option<ClassicalApplied>,
    ) -> (r: Option<StapleMoves>)
        requires
            old(self).wf(),
            old(self).recv_group is Some,
        ensures
            final(self).wf(),
            old(self).sound() ==> final(self).sound(),
            old(self).live() ==> final(self).live(),
            final(self).since(*old(self)),
            old(self).side_band_settled() ==> final(self).side_band_settled(),
            ({
                let out = BindOutcome { secret: Ok(()), pq, classical };
                &&& old(self).ledger_injected(psk, *final(self))
                &&& *final(self) == (TwoMlsPqSession {
                    send_psk_ledger: final(self).send_psk_ledger,
                    retired_send_psks: final(self).retired_send_psks,
                    recv_group: old(self).bind_recv(psk, out),
                    ..*old(self)
                })
                &&& if old(self).bind_applies(psk, out) {
                    r matches Some(m) && m@ == leaf_moves(
                        old(self).recv_group->0.classical,
                        classical->0.half,
                    )
                } else {
                    r is None
                }
            }),
    {
        match self.inject_ledger(psk) {
            Err(_) => return None,
            Ok(()) => {},
        }
        let has_pq = match &self.recv_group {
            Some(recv) => recv.pq.is_some(),
            None => false,
        };
        if !has_pq {
            return None;
        }
        let PqApplied { half: pq_half, attestation: pq_attestation } = match pq {
            None => return None,
            Some(applied) => applied,
        };
        let recv = match self.recv_group.take() {
            None => return None,
            Some(g) => g,
        };
        let pq_epoch: u64 = pq_half.epoch;
        let ClassicalApplied { half, attestation, two_party } = match classical {
            None => {
                self.recv_group = Some(
                    CombinerGroup {
                        classical: recv.classical,
                        pq: Some(pq_half),
                        app_binding: recv.app_binding,
                    },
                );
                return None;
            },
            Some(applied) => applied,
        };
        let new_sender = moved_to(
            recv.classical.peer_leaf.as_slice(),
            half.peer_leaf.as_slice(),
        );
        let canonicalized_own = moved_to(
            recv.classical.my_leaf.as_slice(),
            half.my_leaf.as_slice(),
        );
        let t_epoch: u64 = half.epoch;
        self.recv_group = Some(
            CombinerGroup {
                classical: half,
                pq: Some(pq_half),
                app_binding: recv.app_binding,
            },
        );
        match attestation {
            None => return None,
            Some(a) => {
                if a != pq_attestation || pq_attestation.pq_epoch != pq_epoch || a.t_epoch
                    != t_epoch {
                    return None;
                }
            },
        }
        if !two_party {
            return None;
        }
        Some(StapleMoves { applied: true, new_sender, canonicalized_own })
    }

    /// Apply a stapled bind, which ends the round that this side responded in.
    fn apply_bind_staple(&mut self, psk: Result<ExportedPsk>, out: BindOutcome) -> (r: Result<
        StapleMoves,
    >)
        requires
            old(self).wf(),
            old(self).recv_group is Some,
        ensures
            final(self).wf(),
            old(self).sound() ==> final(self).sound(),
            old(self).live() ==> final(self).live(),
            final(self).since(*old(self)),
            old(self).side_band_settled() && r is Ok ==> final(self).side_band_settled(),
            old(self).bind_applied(psk, out, *final(self), r),
    {
        let BindOutcome { secret, pq, classical } = out;
        match self.pq_inflight.take() {
            Some(PqInflight::Responding { secret: held }) => {
                let mut held = held;
                wipe(&mut held);
            },
            Some(PqInflight::BootstrapResponded) | Some(PqInflight::RekeyResponded) => {
                match self.export_cross_from_send_pq(secret) {
                    Err(e) => return Err(e),
                    Ok(()) => {},
                }
            },
            other => {
                self.pq_inflight = other;
                return Err(TwoMlsPqError::SessionNotReady);
            },
        }
        match self.apply_bind(psk, pq, classical) {
            None => {
                self.bind_apply_broken = true;
                Err(TwoMlsPqError::BindApplyFailed)
            },
            Some(moves) => {
                self.pq_turn_mine = true;
                self.pending_side_band = None;
                Ok(moves)
            },
        }
    }
}

// ---- the ids that a staple moved ----

impl TwoMlsPqSession {
    /// Whether our leaf moving to `id` is one of our candidates winning.
    pub open spec fn wins(&self, id: Seq<u8>) -> bool {
        id != self.client_id@ && all_bytes(self.staged_candidates@).contains(id)
    }

    /// What the ids that a staple moved change. The peer's leaf moving is the peer's id from
    /// then on. Our leaf moving is a candidate of ours winning, after which none is in
    /// flight; to the id that we run under already it only settles that one.
    pub open spec fn moves_noted(
        &self,
        new_sender: Option<Seq<u8>>,
        own: Option<Seq<u8>>,
        now: TwoMlsPqSession,
        r: Result<()>,
    ) -> bool {
        let refused = own matches Some(id) && id != self.client_id@ && !self.wins(id);
        let won = own matches Some(id) && self.wins(id);
        &&& r == if refused {
            Err::<(), TwoMlsPqError>(TwoMlsPqError::CredentialRejected)
        } else {
            Ok(())
        }
        &&& now == (TwoMlsPqSession {
            client_id: now.client_id,
            staged_candidates: now.staged_candidates,
            my_state: now.my_state,
            their_state: now.their_state,
            auth_updates: now.auth_updates,
            ..*self
        })
        &&& now.their_state@ == match new_sender {
            Some(id) => (id, None),
            None => self.their_state@,
        }
        &&& steps(now.auth_updates@) == steps(self.auth_updates@) + (match new_sender {
            Some(id) => seq![(AuthKind::CommitTheirs, id)],
            None => Seq::empty(),
        }) + (match own {
            Some(id) if !refused => seq![(AuthKind::CommitMine, id)],
            _ => Seq::empty(),
        })
        &&& if won {
            &&& now.client_id@ == own->0
            &&& now.staged_candidates@.len() == 0
            &&& now.my_state@ == (own->0, None::<Seq<u8>>)
        } else {
            &&& now.client_id == self.client_id
            &&& now.staged_candidates == self.staged_candidates
            &&& now.my_state == self.my_state
        }
    }

    /// Note the ids that a staple moved.
    fn note_moves(&mut self, new_sender: &Option<Vec<u8>>, own: Option<Vec<u8>>) -> (r: Result<()>)
        requires
            old(self).wf(),
        ensures
            final(self).wf(),
            old(self).sound() ==> final(self).sound(),
            old(self).live() ==> final(self).live(),
            final(self).since(*old(self)),
            old(self).side_band_settled() && r is Ok ==> final(self).side_band_settled(),
            old(self).moves_noted(opt_bytes(*new_sender), opt_bytes(own), *final(self), r),
    {
        match new_sender {
            Some(id) => {
                push_step(&mut self.auth_updates, AuthKind::CommitTheirs, id.as_slice());
                self.their_state = PrincipalState::Sync {
                    client_id: ClientId { bytes: copy_bytes(id.as_slice()) },
                };
            },
            None => {},
        }
        let ghost theirs = match opt_bytes(*new_sender) {
            Some(id) => seq![(AuthKind::CommitTheirs, id)],
            None => Seq::empty(),
        };
        proof {
            assert(steps(self.auth_updates@) =~= steps(old(self).auth_updates@) + theirs);
            assert(steps(old(self).auth_updates@) + theirs + Seq::empty() =~= steps(
                old(self).auth_updates@,
            ) + theirs);
        }
        match own {
            None => Ok(()),
            Some(id) => {
                proof {
                    let before = steps(old(self).auth_updates@);
                    assert((before + theirs).push((AuthKind::CommitMine, id@)) =~= before + theirs
                        + seq![(AuthKind::CommitMine, id@)]);
                }
                if bytes_eq(id.as_slice(), self.client_id.bytes.as_slice()) {
                    push_step(&mut self.auth_updates, AuthKind::CommitMine, id.as_slice());
                    return Ok(());
                }
                if !contains_bytes(&self.staged_candidates, id.as_slice()) {
                    return Err(TwoMlsPqError::CredentialRejected);
                }
                push_step(&mut self.auth_updates, AuthKind::CommitMine, id.as_slice());
                self.staged_candidates = Vec::new();
                self.my_state = PrincipalState::Sync {
                    client_id: ClientId { bytes: copy_bytes(id.as_slice()) },
                };
                self.client_id = ClientId { bytes: id };
                Ok(())
            },
        }
    }
}

// ---- a staple ----

/// What the steps of a staple gave. A step that was not in the plan, or not reached, is not
/// looked at.
#[derive(Debug)]
pub struct StapleOutcome {
    /// Exporting the send group's PSK at its current epoch, to inject the ledger.
    pub send_psk: Result<ExportedPsk>,
    pub join: JoinOutcome,
    pub bind: BindOutcome,
    pub commit: CommitProcessed,
}

/// What processing a welcome moved of the peer's id, seen from a frame that carries it.
pub open spec fn adoption(before: TwoMlsPqSession, after: TwoMlsPqSession) -> (
    bool,
    Option<Seq<u8>>,
    Option<Seq<u8>>,
) {
    let new_sender = moved(before.their_state@.0, after.their_state@.0);
    (new_sender is Some, new_sender, None)
}

/// The result without its value.
pub open spec fn outcome<T>(r: Result<T>) -> Result<()> {
    match r {
        Ok(_) => Ok(()),
        Err(e) => Err(e),
    }
}

impl TwoMlsPqSession {
    /// What processing a staple changes and reports: a welcome joins or repeats, a commit or
    /// a bind is applied if it is the next one.
    pub open spec fn staple_processed(
        &self,
        staple: Seq<u8>,
        out: StapleOutcome,
        now: TwoMlsPqSession,
        r: Result<StapleMoves>,
    ) -> bool {
        if first_byte(staple) == Some(APQ_TAG) {
            &&& self.welcomed(staple, out.send_psk, out.join, now, outcome(r))
            &&& r matches Ok(m) ==> m@ == adoption(*self, now)
        } else {
            let is_bind = first_byte(staple) == Some(APQ_PRIVATE_MESSAGE_TAG);
            if is_bind && read2(staple, APQ_PRIVATE_MESSAGE_TAG) is None {
                &&& r == Err::<StapleMoves, TwoMlsPqError>(TwoMlsPqError::Mls)
                &&& now == *self
            } else {
                let commit = match read2(staple, APQ_PRIVATE_MESSAGE_TAG) {
                    Some((t_message, _)) if is_bind => t_message,
                    _ => staple,
                };
                match self.staple_order(commit) {
                    Err(e) => r == Err::<StapleMoves, TwoMlsPqError>(e) && now == *self,
                    Ok(StapleAction::Skip) => {
                        &&& r matches Ok(m) && m@ == (false, None::<Seq<u8>>, None::<Seq<u8>>)
                        &&& now == *self
                    },
                    Ok(StapleAction::Apply) => if is_bind {
                        self.bind_applied(out.send_psk, out.bind, now, r)
                    } else {
                        self.commit_applied(out.send_psk, out.commit, now, r)
                    },
                }
            }
        }
    }

    /// Process the staple of a message frame.
    fn process_staple(&mut self, staple: &[u8], out: StapleOutcome) -> (r: Result<StapleMoves>)
        requires
            old(self).wf(),
        ensures
            final(self).wf(),
            old(self).sound() ==> final(self).sound(),
            old(self).live() ==> final(self).live(),
            final(self).since(*old(self)),
            old(self).side_band_settled() && r is Ok ==> final(self).side_band_settled(),
            old(self).staple_processed(staple@, out, *final(self), r),
    {
        let StapleOutcome { send_psk, join, bind, commit } = out;
        if starts_with(staple, APQ_TAG) {
            let prior = self.their_state.client_id();
            match self.process_welcome(staple, send_psk, join) {
                Err(e) => return Err(e),
                Ok(()) => {},
            }
            let adopted = self.their_state.client_id();
            let new_sender = moved_to(prior.bytes.as_slice(), adopted.bytes.as_slice());
            return Ok(
                StapleMoves { applied: new_sender.is_some(), new_sender, canonicalized_own: None },
            );
        }
        let is_bind = starts_with(staple, APQ_PRIVATE_MESSAGE_TAG);
        let action = if is_bind {
            match decode_apq_private_message(staple) {
                Err(e) => return Err(e),
                Ok((t_message, _)) => self.staple_epoch_action(t_message.as_slice()),
            }
        } else {
            self.staple_epoch_action(staple)
        };
        match action {
            Err(e) => Err(e),
            Ok(StapleAction::Skip) => Ok(
                StapleMoves { applied: false, new_sender: None, canonicalized_own: None },
            ),
            Ok(StapleAction::Apply) => {
                if is_bind {
                    self.apply_bind_staple(send_psk, bind)
                } else {
                    self.apply_commit(send_psk, commit)
                }
            },
        }
    }
}

// ---- frames ----

/// A decrypted app message.
#[derive(Debug)]
pub struct AppMessage {
    /// The id in the sender's leaf.
    pub sender: Vec<u8>,
    pub data: Vec<u8>,
}

/// What the steps of receiving a frame gave. A step that was not in the plan, or not reached,
/// is not looked at.
#[derive(Debug)]
pub struct IncomingOutcome {
    pub staple: StapleOutcome,
    /// Decrypting the app message in the receive group.
    pub app: Option<AppMessage>,
    /// Processing the offered proposal in the send group, with nothing of it left cached
    /// there.
    pub offer: ProcessedProposal,
}

/// A peer's proposal that awaits the app's approval.
#[derive(Debug, Clone, PartialEq, Eq)]
pub struct QueuedRemoteProposal {
    pub digest: Vec<u8>,
    pub sender: ClientId,
    /// The id that the proposal is for.
    pub proposing: ClientId,
    /// The digest of the receive group's classical id, which orders it.
    pub context: Vec<u8>,
}

/// What a received frame held.
#[derive(Debug, Clone, PartialEq, Eq)]
pub struct DecryptResult {
    pub application_message: Option<MlsSenderMessage>,
    pub proposal: Option<QueuedRemoteProposal>,
    /// Present on the frame whose staple was applied.
    pub remote_commit: Option<CommitResult>,
}

impl TwoMlsPqSession {
    /// Whether an offer proves that the peer has applied our send group's current epoch: it
    /// validates there.
    pub open spec fn is_evidence(
        &self,
        proposing: Seq<u8>,
        message: Seq<u8>,
        processed: ProcessedProposal,
    ) -> bool {
        &&& mls_epoch_of(message) is Some
        &&& self.send_group matches Some(g)
        &&& update_verdict(processed, g.classical.my_index, proposing) is Ok
    }

    /// The watermark once an offer was seen. It never goes back.
    pub open spec fn watermark_after(
        &self,
        proposing: Seq<u8>,
        message: Seq<u8>,
        processed: ProcessedProposal,
    ) -> Option<u64> {
        if self.is_evidence(proposing, message, processed) {
            let epoch = self.send_group->0.classical.epoch;
            match self.peer_applied_send_epoch {
                Some(mark) if mark > epoch => Some(mark),
                _ => Some(epoch),
            }
        } else {
            self.peer_applied_send_epoch
        }
    }

    /// Why a frame is not read once its staple is in.
    pub open spec fn read_error(&self, section: Seq<u8>, app: Option<AppMessage>) -> Option<
        TwoMlsPqError,
    > {
        if self.recv_group is None {
            Some(TwoMlsPqError::SessionNotEstablished)
        } else if app is None {
            Some(TwoMlsPqError::DecryptionFailed)
        } else if self.send_group is None {
            Some(TwoMlsPqError::SessionNotEstablished)
        } else if proposal_parts(section) is None {
            Some(TwoMlsPqError::Mls)
        } else {
            None
        }
    }

    /// Whether `m` is the app message that was decrypted in the receive group.
    pub open spec fn is_app_message(&self, app: AppMessage, m: MlsSenderMessage) -> bool {
        &&& m.app_message_data@ == app.data@
        &&& m.sender_client_id@ == app.sender@
        &&& self.recv_group matches Some(g)
        &&& m.epoch == g.classical.epoch
    }

    /// What reading a frame changes and reports once its staple is in: the offered proposal
    /// replaces the one before.
    pub open spec fn frame_read(
        &self,
        section: Seq<u8>,
        app: Option<AppMessage>,
        offer: ProcessedProposal,
        applied: bool,
        new_sender: Option<Seq<u8>>,
        now: TwoMlsPqSession,
        r: Result<Option<DecryptResult>>,
    ) -> bool {
        match self.read_error(section, app) {
            Some(e) => r == Err::<Option<DecryptResult>, TwoMlsPqError>(e) && now == *self,
            None => {
                let (proposing, message) = proposal_parts(section)->0;
                &&& now == (TwoMlsPqSession {
                    peer_applied_send_epoch: self.watermark_after(proposing, message, offer),
                    offered_proposal: now.offered_proposal,
                    ..*self
                })
                &&& now.offered_proposal matches Some(o)
                &&& o.digest@ == sha256_of(message)
                &&& o.proposing@ == proposing
                &&& o.message@ == message
                &&& r matches Ok(Some(d))
                &&& d.application_message matches Some(m) && self.is_app_message(app->0, m)
                &&& d.proposal matches Some(p)
                &&& p.digest@ == sha256_of(message)
                &&& p.sender@ == app->0.sender@
                &&& p.proposing@ == proposing
                &&& p.context@ == sha256_of(self.recv_group->0.classical.group_id@)
                &&& match d.remote_commit {
                    None => !applied,
                    Some(c) => {
                        &&& applied
                        &&& opt_id(c.new_sender) == new_sender
                        &&& c.new_recipient@ == self.my_state@.0
                    },
                }
            },
        }
    }

    /// Read a frame whose staple is in.
    fn read_frame(
        &mut self,
        section: &[u8],
        app: Option<AppMessage>,
        offer: &ProcessedProposal,
        applied: bool,
        new_sender: Option<Vec<u8>>,
    ) -> (r: Result<Option<DecryptResult>>)
        requires
            old(self).wf(),
        ensures
            final(self).wf(),
            old(self).sound() ==> final(self).sound(),
            old(self).live() ==> final(self).live(),
            final(self).since(*old(self)),
            old(self).side_band_settled() && r is Ok ==> final(self).side_band_settled(),
            old(self).frame_read(
                section@,
                app,
                *offer,
                applied,
                opt_bytes(new_sender),
                *final(self),
                r,
            ),
    {
        let (epoch, context): (u64, Vec<u8>) = match &self.recv_group {
            None => return Err(TwoMlsPqError::SessionNotEstablished),
            Some(recv) => (recv.classical.epoch, sha256(recv.classical.group_id.as_slice())),
        };
        let AppMessage { sender, data } = match app {
            None => return Err(TwoMlsPqError::DecryptionFailed),
            Some(m) => m,
        };
        let (my_index, send_epoch): (u32, u64) = match &self.send_group {
            None => return Err(TwoMlsPqError::SessionNotEstablished),
            Some(send) => (send.classical.my_index, send.classical.epoch),
        };
        let (proposing, message) = match decode_proposal_section(section) {
            Err(e) => return Err(e),
            Ok(parts) => parts,
        };
        let digest = sha256(message.as_slice());
        if mls_message_epoch(message.as_slice()).is_some() && validate_update(
            offer,
            my_index,
            proposing.as_slice(),
        ).is_ok() {
            self.peer_applied_send_epoch = match self.peer_applied_send_epoch {
                Some(mark) => {
                    if mark > send_epoch {
                        Some(mark)
                    } else {
                        Some(send_epoch)
                    }
                },
                None => Some(send_epoch),
            };
        }
        let proposal = QueuedRemoteProposal {
            digest: copy_bytes(digest.as_slice()),
            sender: ClientId { bytes: copy_bytes(sender.as_slice()) },
            proposing: ClientId { bytes: copy_bytes(proposing.as_slice()) },
            context,
        };
        self.offered_proposal = Some(PeerProposal { digest, proposing, message });
        let remote_commit = if applied {
            Some(
                CommitResult {
                    new_sender: match new_sender {
                        Some(id) => Some(ClientId { bytes: id }),
                        None => None,
                    },
                    new_recipient: self.my_state.client_id(),
                },
            )
        } else {
            None
        };
        Ok(
            Some(
                DecryptResult {
                    application_message: Some(
                        MlsSenderMessage {
                            app_message_data: data,
                            sender_client_id: ClientId { bytes: sender },
                            epoch,
                        },
                    ),
                    proposal: Some(proposal),
                    remote_commit,
                },
            ),
        )
    }

    /// What follows a staple: the ids that it moved are noted, then the frame is read.
    pub open spec fn staple_followed(
        &self,
        section: Seq<u8>,
        out: IncomingOutcome,
        moves: (bool, Option<Seq<u8>>, Option<Seq<u8>>),
        now: TwoMlsPqSession,
        r: Result<Option<DecryptResult>>,
    ) -> bool {
        exists|noted: TwoMlsPqSession, v: Result<()>| #[trigger]
            self.moves_noted(moves.1, moves.2, noted, v) && match v {
                Err(e) => r == Err::<Option<DecryptResult>, TwoMlsPqError>(e) && now == noted,
                Ok(()) => noted.frame_read(section, out.app, out.offer, moves.0, moves.1, now, r),
            }
    }

    /// What a message frame changes and reports: its staple is processed first, then the ids
    /// that the staple moved are noted, then the app message and the proposal are read. The
    /// first step that fails is where it ends.
    pub open spec fn message_processed(
        &self,
        frame: Seq<u8>,
        out: IncomingOutcome,
        now: TwoMlsPqSession,
        r: Result<Option<DecryptResult>>,
    ) -> bool {
        match message_parts(frame) {
            None => {
                &&& r == Err::<Option<DecryptResult>, TwoMlsPqError>(TwoMlsPqError::Mls)
                &&& now == *self
            },
            Some((staple, section, app)) => if mls_epoch_of(app) is None {
                &&& r == Err::<Option<DecryptResult>, TwoMlsPqError>(
                    TwoMlsPqError::DecryptionFailed,
                )
                &&& now == *self
            } else {
                exists|stapled: TwoMlsPqSession, moves: Result<StapleMoves>| #[trigger]
                    self.staple_processed(staple, out.staple, stapled, moves) && match moves {
                        Err(e) => r == Err::<Option<DecryptResult>, TwoMlsPqError>(e) && now
                            == stapled,
                        Ok(m) => stapled.staple_followed(section, out, m@, now, r),
                    }
            },
        }
    }

    /// Process a message frame.
    fn process_message(&mut self, frame: &[u8], out: IncomingOutcome) -> (r: Result<
        Option<DecryptResult>,
    >)
        requires
            old(self).wf(),
        ensures
            final(self).wf(),
            old(self).sound() ==> final(self).sound(),
            old(self).live() ==> final(self).live(),
            final(self).since(*old(self)),
            old(self).side_band_settled() && r is Ok ==> final(self).side_band_settled(),
            old(self).message_processed(frame@, out, *final(self), r),
    {
        let IncomingOutcome { staple: staple_out, app: app_out, offer } = out;
        let (staple, section, app) = match decode_message_frame(frame) {
            Err(e) => return Err(e),
            Ok(parts) => parts,
        };
        if mls_message_epoch(app.as_slice()).is_none() {
            return Err(TwoMlsPqError::DecryptionFailed);
        }
        let moves = self.process_staple(staple.as_slice(), staple_out);
        let ghost stapled = *self;
        let ghost staple_result = moves;
        proof {
            assert(old(self).staple_processed(staple@, out.staple, stapled, staple_result));
        }
        let StapleMoves { applied, new_sender, canonicalized_own } = match moves {
            Err(e) => return Err(e),
            Ok(m) => m,
        };
        let ghost seen = (applied, opt_bytes(new_sender), opt_bytes(canonicalized_own));
        let noted = self.note_moves(&new_sender, canonicalized_own);
        let ghost after = *self;
        proof {
            assert(stapled.moves_noted(seen.1, seen.2, after, noted));
        }
        match noted {
            Err(e) => {
                proof {
                    assert(stapled.staple_followed(
                        section@,
                        out,
                        seen,
                        *self,
                        Err::<Option<DecryptResult>, TwoMlsPqError>(e),
                    ));
                }
                return Err(e);
            },
            Ok(()) => {},
        }
        let r = self.read_frame(section.as_slice(), app_out, &offer, applied, new_sender);
        proof {
            assert(after.frame_read(section@, out.app, out.offer, seen.0, seen.1, *self, r));
            assert(stapled.staple_followed(section@, out, seen, *self, r));
        }
        r
    }

    /// What the app message of an establishment envelope reports. It changes nothing.
    pub open spec fn envelope_app_read(
        &self,
        message: Seq<u8>,
        app: Option<AppMessage>,
        r: Result<Option<DecryptResult>>,
    ) -> bool {
        if mls_epoch_of(message) is None {
            r == Err::<Option<DecryptResult>, TwoMlsPqError>(TwoMlsPqError::DecryptionFailed)
        } else if self.recv_group is None {
            r == Err::<Option<DecryptResult>, TwoMlsPqError>(TwoMlsPqError::SessionNotEstablished)
        } else {
            match app {
                None => r == Err::<Option<DecryptResult>, TwoMlsPqError>(
                    TwoMlsPqError::DecryptionFailed,
                ),
                Some(a) => {
                    &&& r matches Ok(Some(d))
                    &&& d.application_message matches Some(m) && self.is_app_message(a, m)
                    &&& d.proposal is None
                    &&& d.remote_commit is None
                },
            }
        }
    }

    /// Read the app message of an establishment envelope.
    fn process_envelope_app(&self, message: &[u8], app: Option<AppMessage>) -> (r: Result<
        Option<DecryptResult>,
    >)
        ensures
            self.envelope_app_read(message@, app, r),
    {
        if mls_message_epoch(message).is_none() {
            return Err(TwoMlsPqError::DecryptionFailed);
        }
        let epoch: u64 = match &self.recv_group {
            None => return Err(TwoMlsPqError::SessionNotEstablished),
            Some(recv) => recv.classical.epoch,
        };
        match app {
            None => Err(TwoMlsPqError::DecryptionFailed),
            Some(m) => Ok(
                Some(
                    DecryptResult {
                        application_message: Some(
                            MlsSenderMessage {
                                app_message_data: m.data,
                                sender_client_id: ClientId { bytes: m.sender },
                                epoch,
                            },
                        ),
                        proposal: None,
                        remote_commit: None,
                    },
                ),
            ),
        }
    }

    /// What a standalone welcome reports: the peer's id, if joining adopted another one.
    pub open spec fn welcome_report(
        &self,
        now: TwoMlsPqSession,
        r: Result<Option<DecryptResult>>,
    ) -> bool {
        match r {
            Err(_) => true,
            Ok(None) => now.their_state@.0 == self.their_state@.0,
            Ok(Some(d)) => {
                &&& now.their_state@.0 != self.their_state@.0
                &&& d.application_message is None
                &&& d.proposal is None
                &&& d.remote_commit matches Some(c)
                &&& opt_id(c.new_sender) == Some(now.their_state@.0)
                &&& c.new_recipient@ == now.my_state@.0
            },
        }
    }

    /// What an opened frame changes and reports, by its first byte.
    pub open spec fn frame_processed(
        &self,
        frame: Seq<u8>,
        out: IncomingOutcome,
        now: TwoMlsPqSession,
        r: Result<Option<DecryptResult>>,
    ) -> bool {
        let tag = first_byte(frame);
        if self.bind_apply_broken {
            &&& r == Err::<Option<DecryptResult>, TwoMlsPqError>(TwoMlsPqError::BindApplyFailed)
            &&& now == *self
        } else if tag == Some(APQ_TAG) {
            &&& self.welcomed(frame, out.staple.send_psk, out.staple.join, now, outcome(r))
            &&& self.welcome_report(now, r)
        } else if tag == Some(MESSAGE_FRAME_TAG) {
            self.message_processed(frame, out, now, r)
        } else if tag == Some(PRE_ESTABLISHMENT_APP_TAG) {
            &&& self.envelope_app_read(frame.subrange(1, frame.len() as int), out.app, r)
            &&& now == *self
        } else {
            &&& r == Err::<Option<DecryptResult>, TwoMlsPqError>(
                if tag matches Some(t) && kind_of_tag(t) is Some {
                    TwoMlsPqError::SessionNotReady
                } else {
                    TwoMlsPqError::DecryptionFailed
                },
            )
            &&& now == *self
        }
    }

    /// Process an opened frame.
    fn process_incoming_inner(&mut self, frame: &[u8], out: IncomingOutcome) -> (r: Result<
        Option<DecryptResult>,
    >)
        requires
            old(self).wf(),
        ensures
            final(self).wf(),
            old(self).sound() ==> final(self).sound(),
            old(self).live() ==> final(self).live(),
            final(self).since(*old(self)),
            old(self).side_band_settled() && r is Ok ==> final(self).side_band_settled(),
            old(self).frame_processed(frame@, out, *final(self), r),
    {
        if self.bind_apply_broken {
            return Err(TwoMlsPqError::BindApplyFailed);
        }
        if starts_with(frame, APQ_TAG) {
            let prior = self.their_state.client_id();
            match self.process_welcome(frame, out.staple.send_psk, out.staple.join) {
                Err(e) => return Err(e),
                Ok(()) => {},
            }
            let adopted = self.their_state.client_id();
            if adopted.same(&prior) {
                return Ok(None);
            }
            return Ok(
                Some(
                    DecryptResult {
                        application_message: None,
                        proposal: None,
                        remote_commit: Some(
                            CommitResult {
                                new_sender: Some(adopted),
                                new_recipient: self.my_state.client_id(),
                            },
                        ),
                    },
                ),
            );
        }
        if starts_with(frame, MESSAGE_FRAME_TAG) {
            return self.process_message(frame, out);
        }
        if starts_with(frame, PRE_ESTABLISHMENT_APP_TAG) {
            return self.process_envelope_app(tail(frame, 1), out.app);
        }
        if frame.len() > 0 && pq_frame_kind(frame[0]).is_some() {
            return Err(TwoMlsPqError::SessionNotReady);
        }
        Err(TwoMlsPqError::DecryptionFailed)
    }

    /// The epochs of both directions' PQ halves.
    pub open spec fn spec_pq_epochs(&self) -> (Option<u64>, Option<u64>) {
        (pq_epoch_of(self.send_group), pq_epoch_of(self.recv_group))
    }

    /// The epochs of both directions' PQ halves.
    pub fn pq_epochs(&self) -> (r: (Option<u64>, Option<u64>))
        ensures
            r == self.spec_pq_epochs(),
    {
        let send = match &self.send_group {
            Some(g) => match &g.pq {
                Some(pq) => Some(pq.epoch),
                None => None,
            },
            None => None,
        };
        let recv = match &self.recv_group {
            Some(g) => match &g.pq {
                Some(pq) => Some(pq.epoch),
                None => None,
            },
            None => None,
        };
        (send, recv)
    }

    /// What an inbound blob changes and reports: a processed frame is counted and pushed, with
    /// the PQ trees if a PQ epoch moved; a refused one is neither.
    pub open spec fn blob_processed(
        &self,
        blob: Seq<u8>,
        out: IncomingOutcome,
        now: TwoMlsPqSession,
        r: Result<Option<DecryptResult>>,
    ) -> bool {
        exists|mid: TwoMlsPqSession| #[trigger]
            self.frame_processed(opened_or_raw(*self, blob), out, mid, r) && now == if r is Err {
                mid
            } else if mid.spec_pq_epochs() == self.spec_pq_epochs() {
                begun(mid, BlobKind::Core)
            } else {
                begun(mid, BlobKind::Checkpoint)
            }
    }

    /// Process an inbound blob, sealed or opened before, that was carried out as
    /// `incoming_plan` said. A processed frame is counted and pushed, with the PQ trees if a
    /// PQ epoch moved; a refused one is neither counted nor pushed.
    pub fn process_incoming(&mut self, blob: Vec<u8>, out: IncomingOutcome) -> (r: Result<
        Option<DecryptResult>,
    >)
        requires
            old(self).wf(),
        ensures
            final(self).wf(),
            old(self).sound() ==> final(self).sound(),
            old(self).live() ==> final(self).live(),
            final(self).since(*old(self)),
            old(self).side_band_settled() && r is Ok ==> final(self).side_band_settled(),
            old(self).blob_processed(blob@, out, *final(self), r),
    {
        let frame = self.open_or_raw(blob);
        let before = self.pq_epochs();
        let r = self.process_incoming_inner(frame.as_slice(), out);
        let ghost now = *self;
        proof {
            assert(old(self).frame_processed(opened_or_raw(*old(self), blob@), out, now, r));
        }
        if r.is_ok() {
            let after = self.pq_epochs();
            if before.0 == after.0 && before.1 == after.1 {
                self.begin_mutation(BlobKind::Core);
            } else {
                self.begin_mutation(BlobKind::Checkpoint);
            }
        }
        r
    }
}

// ---- the plan ----

/// Injecting the send PSK ledger into the stores that the groups resolve from.
#[derive(Debug)]
pub struct InjectPlan {
    /// Export the send group's PSK at its current epoch first.
    pub export: bool,
    /// The ids to delete from the stores.
    pub forget: Vec<PskRef>,
}

/// The ids and components of a list of PSK references.
pub open spec fn psk_refs(v: Seq<PskRef>) -> Seq<(u32, Seq<u8>)> {
    Seq::new(v.len(), |i: int| (v[i].component_id, v[i].psk_id@))
}

/// Joining from a welcome.
#[derive(Debug)]
pub struct JoinPlan {
    pub inject: Option<InjectPlan>,
    /// The classical half and the PQ half, empty if deferred; an error means to stop here.
    pub halves: Result<(Vec<u8>, Vec<u8>)>,
}

/// Where a bind's secret comes from.
#[derive(Debug)]
pub enum BindSecret {
    /// It is held since this side sealed it.
    Held { secret: Vec<u8> },
    /// It is exported from the send group's PQ half.
    Export,
}

/// What the host is to carry out for a staple.
#[derive(Debug)]
pub enum StaplePlan {
    /// Nothing: the staple was processed before.
    Nothing,
    Join { plan: JoinPlan },
    Commit { inject: Option<InjectPlan>, message: Vec<u8> },
    Bind {
        secret: BindSecret,
        inject: Option<InjectPlan>,
        classical_message: Vec<u8>,
        pq_message: Vec<u8>,
    },
}

/// What the host is to carry out for a frame.
#[derive(Debug)]
pub enum IncomingPlan {
    Welcome { staple: StaplePlan },
    Message {
        staple: StaplePlan,
        /// The app message to decrypt in the receive group.
        app: Vec<u8>,
        /// The proposal section; what it offers is to be processed in the send group.
        proposal: Vec<u8>,
    },
    App { app: Vec<u8> },
}

impl TwoMlsPqSession {
    /// Whether `plan` is how the ledger is injected now.
    pub open spec fn is_inject_plan(&self, plan: Option<InjectPlan>) -> bool {
        match (self.send_group, plan) {
            (None, None) => true,
            (Some(g), Some(p)) => {
                &&& p.export == !ledger_has(self.send_psk_ledger@, g.classical.epoch)
                &&& psk_refs(p.forget@) == psk_refs(
                    if p.export {
                        retired_after(self.send_psk_ledger@, self.retired_send_psks@)
                    } else {
                        self.retired_send_psks@
                    },
                )
            },
            _ => false,
        }
    }

    /// How the ledger is injected now.
    fn inject_plan(&self) -> (r: Option<InjectPlan>)
        ensures
            self.is_inject_plan(r),
    {
        if self.send_group.is_none() {
            return None;
        }
        let export = self.needs_send_psk();
        let mut forget: Vec<PskRef> = Vec::new();
        let mut i: usize = 0;
        while i < self.retired_send_psks.len()
            invariant
                i <= self.retired_send_psks.len(),
                forget@.len() == i,
                forall|j: int|
                    0 <= j < i ==> (#[trigger] forget@[j]).component_id
                        == self.retired_send_psks@[j].component_id && forget@[j].psk_id@
                        == self.retired_send_psks@[j].psk_id@,
            decreases self.retired_send_psks.len() - i,
        {
            forget.push(
                PskRef {
                    component_id: self.retired_send_psks[i].component_id,
                    psk_id: copy_bytes(self.retired_send_psks[i].psk_id.as_slice()),
                },
            );
            i += 1;
        }
        if export && self.send_psk_ledger.len() >= SEND_PSK_WINDOW {
            let oldest = &self.send_psk_ledger[0].exported;
            forget.push(
                PskRef {
                    component_id: oldest.component_id,
                    psk_id: copy_bytes(oldest.psk_id.as_slice()),
                },
            );
        }
        proof {
            assert(psk_refs(forget@) =~= psk_refs(
                if export {
                    retired_after(self.send_psk_ledger@, self.retired_send_psks@)
                } else {
                    self.retired_send_psks@
                },
            ));
        }
        Some(InjectPlan { export, forget })
    }

    /// Whether `plan` is what a welcome asks of the host. A welcome that was joined from
    /// before asks nothing.
    pub open spec fn is_welcome_plan(&self, welcome: Seq<u8>, plan: Result<StaplePlan>) -> bool {
        if self.recv_group is Some {
            if opt_bytes(self.joined_welcome_digest) == Some(sha256_of(welcome)) {
                plan matches Ok(StaplePlan::Nothing)
            } else {
                plan == Err::<StaplePlan, TwoMlsPqError>(TwoMlsPqError::UnexpectedWelcome)
            }
        } else {
            &&& plan matches Ok(StaplePlan::Join { plan: join })
            &&& self.is_inject_plan(join.inject)
            &&& match read2(welcome, APQ_TAG) {
                None => join.halves == Err::<(Vec<u8>, Vec<u8>), TwoMlsPqError>(
                    TwoMlsPqError::Mls,
                ),
                Some((classical, pq)) => match welcome_halves_check(self.suite, classical, pq) {
                    Err(e) => join.halves == Err::<(Vec<u8>, Vec<u8>), TwoMlsPqError>(e),
                    Ok(()) => join.halves matches Ok((c, p)) && c@ == classical && p@ == pq,
                },
            }
        }
    }

    /// What a welcome asks of the host.
    fn welcome_plan(&self, welcome: &[u8]) -> (r: Result<StaplePlan>)
        ensures
            self.is_welcome_plan(welcome@, r),
    {
        if self.recv_group.is_some() {
            let digest = sha256(welcome);
            if opt_bytes_is(&self.joined_welcome_digest, digest.as_slice()) {
                return Ok(StaplePlan::Nothing);
            }
            return Err(TwoMlsPqError::UnexpectedWelcome);
        }
        let halves = match decode_apq_welcome(welcome) {
            Err(e) => Err(e),
            Ok((classical, pq)) => match validate_welcome_halves(
                self.suite,
                classical.as_slice(),
                pq.as_slice(),
            ) {
                Err(e) => Err(e),
                Ok(()) => Ok((classical, pq)),
            },
        };
        Ok(StaplePlan::Join { plan: JoinPlan { inject: self.inject_plan(), halves } })
    }

    /// Whether `plan` is what a staple asks of the host.
    pub open spec fn is_staple_plan(&self, staple: Seq<u8>, plan: Result<StaplePlan>) -> bool {
        if first_byte(staple) == Some(APQ_TAG) {
            self.is_welcome_plan(staple, plan)
        } else if first_byte(staple) == Some(APQ_PRIVATE_MESSAGE_TAG) {
            match read2(staple, APQ_PRIVATE_MESSAGE_TAG) {
                None => plan == Err::<StaplePlan, TwoMlsPqError>(TwoMlsPqError::Mls),
                Some((t_message, pq_commit)) => match self.staple_order(t_message) {
                    Err(e) => plan == Err::<StaplePlan, TwoMlsPqError>(e),
                    Ok(StapleAction::Skip) => plan matches Ok(StaplePlan::Nothing),
                    Ok(StapleAction::Apply) => match self.pq_inflight {
                        Some(PqInflight::Responding { secret }) => {
                            &&& plan matches Ok(
                                StaplePlan::Bind {
                                    secret: from,
                                    inject,
                                    classical_message,
                                    pq_message,
                                },
                            )
                            &&& from matches BindSecret::Held { secret: held } && held@ == secret@
                            &&& self.is_inject_plan(inject)
                            &&& classical_message@ == t_message
                            &&& pq_message@ == pq_commit
                        },
                        _ => if self.exports_bind_secret() && pq_epoch_of(self.send_group) is Some {
                            &&& plan matches Ok(
                                StaplePlan::Bind {
                                    secret: from,
                                    inject,
                                    classical_message,
                                    pq_message,
                                },
                            )
                            &&& from is Export
                            &&& self.is_inject_plan(inject)
                            &&& classical_message@ == t_message
                            &&& pq_message@ == pq_commit
                        } else {
                            plan == Err::<StaplePlan, TwoMlsPqError>(
                                TwoMlsPqError::SessionNotReady,
                            )
                        },
                    },
                },
            }
        } else {
            match self.staple_order(staple) {
                Err(e) => plan == Err::<StaplePlan, TwoMlsPqError>(e),
                Ok(StapleAction::Skip) => plan matches Ok(StaplePlan::Nothing),
                Ok(StapleAction::Apply) => {
                    &&& plan matches Ok(StaplePlan::Commit { inject, message })
                    &&& self.is_inject_plan(inject)
                    &&& message@ == staple
                },
            }
        }
    }

    /// What a staple asks of the host.
    fn staple_plan(&self, staple: &[u8]) -> (r: Result<StaplePlan>)
        ensures
            self.is_staple_plan(staple@, r),
    {
        if starts_with(staple, APQ_TAG) {
            return self.welcome_plan(staple);
        }
        if starts_with(staple, APQ_PRIVATE_MESSAGE_TAG) {
            let (classical_message, pq_message) = match decode_apq_private_message(staple) {
                Err(e) => return Err(e),
                Ok(parts) => parts,
            };
            match self.staple_epoch_action(classical_message.as_slice()) {
                Err(e) => return Err(e),
                Ok(StapleAction::Skip) => return Ok(StaplePlan::Nothing),
                Ok(StapleAction::Apply) => {},
            }
            let has_send_pq = match &self.send_group {
                Some(send) => send.pq.is_some(),
                None => false,
            };
            let secret = match &self.pq_inflight {
                Some(PqInflight::Responding { secret }) => BindSecret::Held {
                    secret: copy_bytes(secret.as_slice()),
                },
                Some(PqInflight::BootstrapResponded) | Some(PqInflight::RekeyResponded) => {
                    if !has_send_pq {
                        return Err(TwoMlsPqError::SessionNotReady);
                    }
                    BindSecret::Export
                },
                _ => return Err(TwoMlsPqError::SessionNotReady),
            };
            return Ok(
                StaplePlan::Bind {
                    secret,
                    inject: self.inject_plan(),
                    classical_message,
                    pq_message,
                },
            );
        }
        match self.staple_epoch_action(staple) {
            Err(e) => Err(e),
            Ok(StapleAction::Skip) => Ok(StaplePlan::Nothing),
            Ok(StapleAction::Apply) => Ok(
                StaplePlan::Commit { inject: self.inject_plan(), message: copy_bytes(staple) },
            ),
        }
    }

    /// Whether `plan` is what an opened frame asks of the host.
    pub open spec fn is_incoming_plan(&self, frame: Seq<u8>, plan: Result<IncomingPlan>) -> bool {
        let tag = first_byte(frame);
        if self.bind_apply_broken {
            plan == Err::<IncomingPlan, TwoMlsPqError>(TwoMlsPqError::BindApplyFailed)
        } else if tag == Some(APQ_TAG) {
            match plan {
                Err(e) => self.is_welcome_plan(frame, Err(e)),
                Ok(IncomingPlan::Welcome { staple }) => self.is_welcome_plan(frame, Ok(staple)),
                Ok(_) => false,
            }
        } else if tag == Some(MESSAGE_FRAME_TAG) {
            match message_parts(frame) {
                None => plan == Err::<IncomingPlan, TwoMlsPqError>(TwoMlsPqError::Mls),
                Some((s, p, a)) => if mls_epoch_of(a) is None {
                    plan == Err::<IncomingPlan, TwoMlsPqError>(TwoMlsPqError::DecryptionFailed)
                } else {
                    match plan {
                        Err(e) => self.is_staple_plan(s, Err(e)),
                        Ok(IncomingPlan::Message { staple, app, proposal }) => {
                            &&& self.is_staple_plan(s, Ok(staple))
                            &&& app@ == a
                            &&& proposal@ == p
                        },
                        Ok(_) => false,
                    }
                },
            }
        } else if tag == Some(PRE_ESTABLISHMENT_APP_TAG) {
            let message = frame.subrange(1, frame.len() as int);
            if mls_epoch_of(message) is None {
                plan == Err::<IncomingPlan, TwoMlsPqError>(TwoMlsPqError::DecryptionFailed)
            } else if self.recv_group is None {
                plan == Err::<IncomingPlan, TwoMlsPqError>(TwoMlsPqError::SessionNotEstablished)
            } else {
                plan matches Ok(IncomingPlan::App { app }) && app@ == message
            }
        } else {
            plan == Err::<IncomingPlan, TwoMlsPqError>(
                if tag matches Some(t) && kind_of_tag(t) is Some {
                    TwoMlsPqError::SessionNotReady
                } else {
                    TwoMlsPqError::DecryptionFailed
                },
            )
        }
    }

    /// What an inbound blob asks of the host. An error is what `process_incoming` will report
    /// without any group operation.
    pub fn incoming_plan(&self, blob: Vec<u8>) -> (r: Result<IncomingPlan>)
        ensures
            self.is_incoming_plan(opened_or_raw(*self, blob@), r),
    {
        let frame = self.open_or_raw(blob);
        if self.bind_apply_broken {
            return Err(TwoMlsPqError::BindApplyFailed);
        }
        if starts_with(frame.as_slice(), APQ_TAG) {
            return match self.welcome_plan(frame.as_slice()) {
                Err(e) => Err(e),
                Ok(staple) => Ok(IncomingPlan::Welcome { staple }),
            };
        }
        if starts_with(frame.as_slice(), MESSAGE_FRAME_TAG) {
            let (staple, proposal, app) = match decode_message_frame(frame.as_slice()) {
                Err(e) => return Err(e),
                Ok(parts) => parts,
            };
            if mls_message_epoch(app.as_slice()).is_none() {
                return Err(TwoMlsPqError::DecryptionFailed);
            }
            return match self.staple_plan(staple.as_slice()) {
                Err(e) => Err(e),
                Ok(staple) => Ok(IncomingPlan::Message { staple, app, proposal }),
            };
        }
        if starts_with(frame.as_slice(), PRE_ESTABLISHMENT_APP_TAG) {
            let app = copy_bytes(tail(frame.as_slice(), 1));
            if mls_message_epoch(app.as_slice()).is_none() {
                return Err(TwoMlsPqError::DecryptionFailed);
            }
            if self.recv_group.is_none() {
                return Err(TwoMlsPqError::SessionNotEstablished);
            }
            return Ok(IncomingPlan::App { app });
        }
        if frame.len() > 0 && pq_frame_kind(frame[0]).is_some() {
            return Err(TwoMlsPqError::SessionNotReady);
        }
        Err(TwoMlsPqError::DecryptionFailed)
    }
}

// ---- between the staple and the message ----

impl TwoMlsPqSession {
    /// Whether our leaf may be where a commit left it: it stayed, or it moved to the id that
    /// we run under or to one of our candidates.
    pub open spec fn own_leaf_settles(&self, after: GroupHalf) -> bool {
        match self.recv_group {
            None => true,
            Some(g) => {
                ||| after.my_leaf@ == g.classical.my_leaf@
                ||| after.my_leaf@ == self.client_id@
                ||| all_bytes(self.staged_candidates@).contains(after.my_leaf@)
            },
        }
    }

    /// Whether our leaf may be where a commit left it.
    fn settles(&self, after: &GroupHalf) -> (r: bool)
        ensures
            r == self.own_leaf_settles(*after),
    {
        match &self.recv_group {
            None => true,
            Some(recv) => {
                bytes_eq(after.my_leaf.as_slice(), recv.classical.my_leaf.as_slice()) || bytes_eq(
                    after.my_leaf.as_slice(),
                    self.client_id.bytes.as_slice(),
                ) || contains_bytes(&self.staged_candidates, after.my_leaf.as_slice())
            },
        }
    }

    /// Whether a staple that was carried out stands, so that the frame is read on.
    pub open spec fn stands(&self, plan: StaplePlan, out: StapleOutcome) -> bool {
        match plan {
            StaplePlan::Nothing => true,
            StaplePlan::Join { plan: join } => {
                &&& self.inject_error(out.send_psk) is None
                &&& join.halves is Ok
                &&& out.join.joined matches Ok(joined)
                &&& self.send_group matches Some(send)
                &&& opt_bytes(joined.app_binding) == opt_bytes(send.app_binding)
                &&& joined.pq is Some ==> out.join.pq_unbound is Ok
            },
            StaplePlan::Commit { .. } => {
                &&& self.inject_error(out.send_psk) is None
                &&& out.commit matches CommitProcessed::Commit { half, attestation, two_party }
                &&& self.applied_error(half, attestation, two_party) is None
                &&& self.own_leaf_settles(half)
            },
            StaplePlan::Bind { .. } => {
                &&& self.secret_error(out.bind.secret) is None
                &&& self.bind_applies(out.send_psk, out.bind)
                &&& self.own_leaf_settles(out.bind.classical->0.half)
            },
        }
    }

    /// Whether injecting the ledger succeeds.
    fn injects(&self, psk: &Result<ExportedPsk>) -> (r: bool)
        ensures
            r == (self.inject_error(*psk) is None),
    {
        psk.is_ok() || !self.needs_send_psk()
    }

    /// Whether a staple that was carried out stands. The host asks before it decrypts the
    /// frame's app message: a frame whose staple does not stand is not read, and its message
    /// can still be decrypted when it comes again.
    pub fn staple_stands(&self, plan: &StaplePlan, out: &StapleOutcome) -> (r: bool)
        ensures
            r == self.stands(*plan, *out),
    {
        match plan {
            StaplePlan::Nothing => true,
            StaplePlan::Join { plan: join } => {
                if !self.injects(&out.send_psk) || join.halves.is_err() {
                    return false;
                }
                match (&out.join.joined, &self.send_group) {
                    (Ok(joined), Some(send)) => {
                        opt_bytes_eq(&joined.app_binding, &send.app_binding) && (
                        joined.pq.is_none() || out.join.pq_unbound.is_ok())
                    },
                    _ => false,
                }
            },
            StaplePlan::Commit { .. } => {
                if !self.injects(&out.send_psk) {
                    return false;
                }
                match &out.commit {
                    CommitProcessed::Commit { half, attestation, two_party } => {
                        let pq_epoch: Option<u64> = self.pq_epochs().1;
                        let truthful = match attestation {
                            Err(_) => false,
                            Ok(None) => true,
                            Ok(Some(a)) => match pq_epoch {
                                Some(epoch) => a.pq_epoch == epoch && a.t_epoch == half.epoch,
                                None => false,
                            },
                        };
                        truthful && *two_party && self.settles(half)
                    },
                    _ => false,
                }
            },
            StaplePlan::Bind { .. } => {
                let spent = match &self.pq_inflight {
                    Some(PqInflight::Responding { .. }) => true,
                    Some(PqInflight::BootstrapResponded) | Some(PqInflight::RekeyResponded) => {
                        self.pq_epochs().0.is_some() && out.bind.secret.is_ok()
                    },
                    _ => false,
                };
                if !spent || !self.injects(&out.send_psk) || self.pq_epochs().1.is_none() {
                    return false;
                }
                match (&out.bind.pq, &out.bind.classical) {
                    (Some(pq), Some(c)) => {
                        let attested = match c.attestation {
                            Some(a) => a == pq.attestation,
                            None => false,
                        };
                        attested && pq.attestation.pq_epoch == pq.half.epoch
                            && pq.attestation.t_epoch == c.half.epoch && c.two_party
                            && self.settles(&c.half)
                    },
                    _ => false,
                }
            },
        }
    }
}

} // verus!
