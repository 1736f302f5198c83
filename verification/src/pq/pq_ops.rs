//! The PQ side-band: the ratchet round, the bootstrap of a deferred PQ half, and the re-key.
//!
//! Every round is three legs, and one round is open at a time. The initiator begins, the
//! responder answers, and the initiator closes with a bind, whose PQ commit lands at once and
//! whose classical commit is owed to the next committing round.
//!
//! The preconditions of every operation are checked before it is counted, so a call that
//! fails one of them changes nothing. What needs the PQ groups or a KEM is carried out by the
//! host between an operation's plan and its settling; what it spent before a later step
//! failed stays spent.

use vstd::prelude::*;
use crate::bytes::{all_bytes, bytes_eq, contains_bytes, copy_bytes, copy_opt, opt_bytes};
use crate::types::{opt_id, ClientId};
use super::error::{Result, TwoMlsPqError};
use super::frames::{
    decode_bootstrap_welcome, decode_pq_rekey_commit, encode_bootstrap_welcome,
    encode_pq_rekey_commit, parts2, read2, tag_payload, tagged, untag_payload, PQ_BOOTSTRAP_KP_TAG,
    PQ_BOOTSTRAP_WELCOME_TAG, PQ_CT_TAG, PQ_EK_TAG, PQ_REKEY_COMMIT_TAG, PQ_REKEY_UPD_TAG,
};
use super::incoming::CommitProcessed;
use super::key_packages::{
    check_key_package_suite, check_welcome_suite, key_package_suite_check, parse_mls_key_package,
    welcome_suite_check,
};
use super::messaging::{is_peer_update, require_peer_update, ProcessedProposal};
use super::persist::begun;
use super::prepare::{map_credential_err, refusal_error, CommitOutput, MlsRefusal};
use super::providers::{key_package_of, mls_epoch_of, mls_message_epoch, sha256, sha256_of, wipe};
use super::sealing::{cannot_seal, freshly_sealed, opened_or_raw};
use super::state::{
    has_pq, keys, pq_epoch_of, pq_exports, ApqInfoUpdate, BlobKind, CombinerGroup, ExportedPsk,
    GroupHalf, OwedBind, PqInflight, RetainedFrame, TwoMlsPqSession, PQ_HEADER_WINDOW,
};
use super::windows::{inserted, ledger_with, newest, remember_error, retired_with, window_has};

verus! {

// ---- frames of one payload ----

/// The payload behind `tag`, if a frame has that tag.
pub open spec fn payload_of(frame: Seq<u8>, tag: u8) -> Option<Seq<u8>> {
    if frame.len() > 0 && frame[0] == tag {
        Some(frame.subrange(1, frame.len() as int))
    } else {
        None
    }
}

/// Read the payload behind `tag`.
fn payload(frame: &[u8], tag: u8) -> (r: Result<Vec<u8>>)
    ensures
        match payload_of(frame@, tag) {
            Some(p) => r matches Ok(v) && v@ == p,
            None => r == Err::<Vec<u8>, TwoMlsPqError>(TwoMlsPqError::Mls),
        },
{
    let r = untag_payload(frame, tag);
    proof {
        if r is Ok {
            assert(frame@.subrange(1, frame@.len() as int) =~= r->Ok_0@);
        }
    }
    r
}

// ---- shared steps ----

impl TwoMlsPqSession {
    /// The side-band window once it holds the send group's current PQ epoch.
    pub open spec fn header_keys_recorded(&self, send_group: Option<CombinerGroup>) -> Seq<
        (u64, Seq<u8>),
    > {
        let w = keys(self.recv_header_keys_pq@);
        match send_group {
            None => w,
            Some(g) => match g.pq {
                None => w,
                Some(pq) => if window_has(w, pq.epoch) {
                    w
                } else {
                    newest(inserted(w, pq.epoch, pq.header_key@), PQ_HEADER_WINDOW as nat)
                },
            },
        }
    }

    /// Whether `now` is a session that has just begun a round: its frame is kept for
    /// re-sending with the seal that is returned, and the round is under way.
    pub open spec fn round_begun(
        &self,
        frame: Seq<u8>,
        inflight: PqInflight,
        sealed: Seq<u8>,
        now: TwoMlsPqSession,
    ) -> bool {
        &&& now == (TwoMlsPqSession {
            pq_inflight: Some(inflight),
            pending_side_band: now.pending_side_band,
            ..*self
        })
        &&& now.pending_side_band matches Some(kept)
        &&& kept.frame@ == frame
        &&& opt_bytes(kept.seal) == Some(sealed)
        &&& self.side_band_key() matches Some(key) && freshly_sealed(sealed, key, frame)
    }

    /// Whether a round's first frame cannot be sealed for the peer.
    pub open spec fn cannot_begin(&self, frame: Seq<u8>) -> bool {
        self.side_band_key() matches Some(key) ==> cannot_seal(key, frame)
    }

    /// Seal a round's first frame and keep it.
    fn open_round(&mut self, frame: Vec<u8>, inflight: PqInflight) -> (r: Result<Vec<u8>>)
        ensures
            old(self).wf() ==> final(self).wf(),
            old(self).sound() ==> final(self).sound(),
            old(self).live() ==> final(self).live(),
            old(self).wf() ==> final(self).since(*old(self)),
            old(self).side_band_settled() && r is Ok ==> final(self).side_band_settled(),
            match r {
                Ok(sealed) => old(self).round_begun(frame@, inflight, sealed@, *final(self)),
                Err(e) => {
                    &&& *final(self) == *old(self)
                    &&& old(self).cannot_begin(frame@)
                    &&& e == if old(self).recv_group is None {
                        TwoMlsPqError::SessionNotEstablished
                    } else {
                        TwoMlsPqError::Mls
                    }
                },
            },
    {
        let sealed = match self.seal_side_band(frame.as_slice()) {
            Err(e) => return Err(e),
            Ok(sealed) => sealed,
        };
        self.pq_inflight = Some(inflight);
        self.pending_side_band = Some(RetainedFrame::seeded(frame, sealed.as_slice()));
        Ok(sealed)
    }

    /// The attestation of a bind: the epochs that both halves of the send group will be at.
    pub open spec fn reservation(&self) -> Result<ApqInfoUpdate> {
        match self.send_group {
            None => Err(TwoMlsPqError::SessionNotReady),
            Some(g) => match g.pq {
                None => Err(TwoMlsPqError::SessionNotReady),
                Some(pq) => if g.classical.epoch == u64::MAX || pq.epoch == u64::MAX {
                    Err(TwoMlsPqError::Mls)
                } else {
                    Ok(
                        ApqInfoUpdate {
                            t_epoch: (g.classical.epoch + 1) as u64,
                            pq_epoch: (pq.epoch + 1) as u64,
                        },
                    )
                },
            },
        }
    }

    /// Reserve the epochs of a bind.
    pub fn reserve(&self) -> (r: Result<ApqInfoUpdate>)
        ensures
            r == self.reservation(),
    {
        match &self.send_group {
            None => Err(TwoMlsPqError::SessionNotReady),
            Some(send) => match &send.pq {
                None => Err(TwoMlsPqError::SessionNotReady),
                Some(pq) => {
                    if send.classical.epoch == u64::MAX || pq.epoch == u64::MAX {
                        Err(TwoMlsPqError::Mls)
                    } else {
                        Ok(
                            ApqInfoUpdate {
                                t_epoch: send.classical.epoch + 1,
                                pq_epoch: pq.epoch + 1,
                            },
                        )
                    }
                },
            },
        }
    }
}

/// What injecting a round's secret into the send group's PQ half gave.
#[derive(Debug)]
pub struct PqCommitOutput {
    /// The PQ half as the commit left it.
    pub half: GroupHalf,
    /// The encoded commit.
    pub commit: Vec<u8>,
}

/// Whether a bind's PQ commit, if it landed, took the send group's PQ half one epoch on, with a
/// header key of its length.
pub open spec fn is_pq_commit(s: TwoMlsPqSession, out: Result<PqCommitOutput>) -> bool {
    out matches Ok(c) ==> pq_exports(c.half) && (pq_epoch_of(s.send_group) matches Some(epoch)
        ==> c.half.epoch == epoch + 1)
}

impl TwoMlsPqSession {
    /// Why a bind's PQ commit fails.
    pub open spec fn owe_error(&self, out: Result<PqCommitOutput>) -> Option<TwoMlsPqError> {
        match self.reservation() {
            Err(e) => Some(e),
            Ok(_) => match out {
                Err(e) => Some(e),
                Ok(_) => None,
            },
        }
    }

    /// The send group once a bind's PQ commit landed.
    pub open spec fn with_send_pq(&self, half: GroupHalf) -> Option<CombinerGroup> {
        match self.send_group {
            None => None,
            Some(g) => Some(CombinerGroup { pq: Some(half), ..g }),
        }
    }

    /// The bind that is owed once its PQ commit landed.
    pub open spec fn owed(&self, commit: Vec<u8>) -> OwedBind {
        OwedBind {
            pq_commit: commit,
            t_epoch: self.reservation()->Ok_0.t_epoch,
            pq_epoch: self.reservation()->Ok_0.pq_epoch,
        }
    }

    /// Take the send group past a bind's PQ commit, and owe the classical one.
    fn commit_pq_and_owe_bind(&mut self, out: Result<PqCommitOutput>) -> (r: Result<()>)
        ensures
            old(self).wf() ==> final(self).wf(),
            old(self).sound() ==> final(self).sound(),
            old(self).live() && is_pq_commit(*old(self), out) ==> final(self).live(),
            old(self).wf() ==> final(self).since(*old(self)),
            old(self).side_band_settled() && r is Ok ==> final(self).side_band_settled(),
            match old(self).owe_error(out) {
                Some(e) => r == Err::<(), TwoMlsPqError>(e) && *final(self) == *old(self),
                None => r is Ok && *final(self) == (TwoMlsPqSession {
                    send_group: old(self).with_send_pq(out->Ok_0.half),
                    owed_bind: Some(old(self).owed(out->Ok_0.commit)),
                    ..*old(self)
                }),
            },
    {
        let attestation = match self.reserve() {
            Err(e) => return Err(e),
            Ok(a) => a,
        };
        let PqCommitOutput { half, commit } = match out {
            Err(e) => return Err(e),
            Ok(out) => out,
        };
        match self.send_group.take() {
            None => {},
            Some(g) => {
                self.send_group = Some(
                    CombinerGroup {
                        classical: g.classical,
                        pq: Some(half),
                        app_binding: g.app_binding,
                    },
                );
            },
        }
        self.owed_bind = Some(
            OwedBind {
                pq_commit: commit,
                t_epoch: attestation.t_epoch,
                pq_epoch: attestation.pq_epoch,
            },
        );
        Ok(())
    }

    /// What keeps any bind from being made: a prepared round is still to be encrypted, or
    /// another bind is owed. Either would be displaced.
    pub open spec fn bind_blocked(&self) -> bool {
        self.pending_proposal_hash is Some || self.owed_bind is Some
    }

    /// What a bind changes once its round's secret is at hand: the round is over, its frame
    /// is dropped, and the classical half is owed. The turn is kept until that is discharged.
    pub open spec fn bound(&self, out: PqCommitOutput, now: TwoMlsPqSession) -> bool {
        &&& now == (TwoMlsPqSession {
            pq_inflight: None,
            send_group: self.with_send_pq(out.half),
            owed_bind: Some(self.owed(out.commit)),
            pending_side_band: None,
            recv_header_keys_pq: now.recv_header_keys_pq,
            ..*self
        })
        &&& keys(now.recv_header_keys_pq@) == self.header_keys_recorded(
            self.with_send_pq(out.half),
        )
    }

    /// Whether `now` and `r` are what a bind made in this state gives.
    pub open spec fn closed_by_bind(
        &self,
        commit: Result<PqCommitOutput>,
        now: TwoMlsPqSession,
        r: Result<()>,
    ) -> bool {
        match self.owe_error(commit) {
            Some(e) => r == Err::<(), TwoMlsPqError>(e) && now == *self,
            None => r is Ok && self.bound(commit->Ok_0, now),
        }
    }

    /// Close a round with its bind.
    fn close_with_bind(&mut self, commit: Result<PqCommitOutput>) -> (r: Result<()>)
        requires
            old(self).wf(),
        ensures
            final(self).wf(),
            old(self).sound() ==> final(self).sound(),
            old(self).live() && is_pq_commit(*old(self), commit) ==> final(self).live(),
            final(self).since(*old(self)),
            old(self).side_band_settled() && r is Ok ==> final(self).side_band_settled(),
            old(self).closed_by_bind(commit, *final(self), r),
    {
        match self.commit_pq_and_owe_bind(commit) {
            Err(e) => return Err(e),
            Ok(()) => {},
        }
        self.pq_inflight = None;
        self.pending_side_band = None;
        self.record_pq_header_key();
        Ok(())
    }
}

// ---- the ratchet ----

/// The keys of a round's ephemeral.
#[derive(Debug)]
pub struct Ephemeral {
    pub dk: Vec<u8>,
    pub ek: Vec<u8>,
}

impl TwoMlsPqSession {
    /// Why a ratchet round cannot begin.
    pub open spec fn ratchet_begin_guard(&self) -> Option<TwoMlsPqError> {
        if self.recv_group is None {
            Some(TwoMlsPqError::SessionNotEstablished)
        } else if self.pq_inflight is Some {
            Some(TwoMlsPqError::SessionNotReady)
        } else {
            None
        }
    }

    /// Whether a ratchet round can begin, so that an ephemeral is to be generated.
    pub fn pq_ratchet_begin_plan(&self) -> (r: Result<()>)
        ensures
            r == match self.ratchet_begin_guard() {
                Some(e) => Err::<(), TwoMlsPqError>(e),
                None => Ok(()),
            },
    {
        if self.recv_group.is_none() {
            return Err(TwoMlsPqError::SessionNotEstablished);
        }
        if self.pq_inflight.is_some() {
            return Err(TwoMlsPqError::SessionNotReady);
        }
        Ok(())
    }

    /// Begin a ratchet round with a fresh ephemeral: the sealed frame with its encapsulation
    /// key.
    pub fn pq_ratchet_begin(&mut self, ephemeral: Result<Ephemeral>) -> (r: Result<Vec<u8>>)
        ensures
            old(self).wf() ==> final(self).wf(),
            old(self).sound() ==> final(self).sound(),
            old(self).live() ==> final(self).live(),
            old(self).wf() ==> final(self).since(*old(self)),
            old(self).side_band_settled() && r is Ok ==> final(self).side_band_settled(),
            match old(self).ratchet_begin_guard() {
                Some(e) => r == Err::<Vec<u8>, TwoMlsPqError>(e) && *final(self) == *old(self),
                None => {
                    let s = begun(*old(self), BlobKind::Checkpoint);
                    match ephemeral {
                        Err(e) => r == Err::<Vec<u8>, TwoMlsPqError>(e) && *final(self) == s,
                        Ok(eph) => match r {
                            Ok(sealed) => s.round_begun(
                                seq![PQ_EK_TAG] + eph.ek@,
                                (PqInflight::Initiating { dk: eph.dk, ek: eph.ek }),
                                sealed@,
                                *final(self),
                            ),
                            Err(e) => {
                                &&& e == TwoMlsPqError::Mls
                                &&& *final(self) == s
                                &&& s.cannot_begin(seq![PQ_EK_TAG] + eph.ek@)
                            },
                        },
                    }
                },
            },
    {
        match self.pq_ratchet_begin_plan() {
            Err(e) => return Err(e),
            Ok(()) => {},
        }
        self.begin_mutation(BlobKind::Checkpoint);
        let Ephemeral { dk, ek } = match ephemeral {
            Err(e) => return Err(e),
            Ok(eph) => eph,
        };
        let frame = tag_payload(PQ_EK_TAG, ek.as_slice());
        self.open_round(frame, PqInflight::Initiating { dk, ek })
    }
}

/// What a ratchet round's secret is sealed with: the initiator's encapsulation key, and the
/// PSK that binds it to the receive group's PQ epoch.
#[derive(Debug)]
pub struct SealPlan {
    pub ek: Vec<u8>,
    pub psk: Vec<u8>,
}

/// A round's fresh secret, and its ciphertext.
#[derive(Debug)]
pub struct SealedSecret {
    pub secret: Vec<u8>,
    pub ct: Vec<u8>,
}

impl TwoMlsPqSession {
    /// Why a ratchet round's first frame is not answered. One that was answered already is a
    /// duplicate.
    pub open spec fn ratchet_respond_guard(&self, blob: Seq<u8>) -> Option<TwoMlsPqError> {
        if payload_of(opened_or_raw(*self, blob), PQ_EK_TAG) is None {
            Some(TwoMlsPqError::Mls)
        } else {
            match self.pq_inflight {
                Some(PqInflight::Responding { .. }) => Some(TwoMlsPqError::DuplicateSideBand),
                Some(_) => Some(TwoMlsPqError::SessionNotReady),
                None => None,
            }
        }
    }

    /// Check a ratchet round's first frame and read its encapsulation key.
    fn ratchet_respond_check(&self, ek_msg: Vec<u8>) -> (r: Result<Vec<u8>>)
        ensures
            match self.ratchet_respond_guard(ek_msg@) {
                Some(e) => r == Err::<Vec<u8>, TwoMlsPqError>(e),
                None => r matches Ok(ek) && payload_of(opened_or_raw(*self, ek_msg@), PQ_EK_TAG)
                    == Some(ek@),
            },
    {
        let frame = self.open_or_raw(ek_msg);
        let ek = match payload(frame.as_slice(), PQ_EK_TAG) {
            Err(e) => return Err(e),
            Ok(ek) => ek,
        };
        match &self.pq_inflight {
            Some(PqInflight::Responding { .. }) => Err(TwoMlsPqError::DuplicateSideBand),
            Some(_) => Err(TwoMlsPqError::SessionNotReady),
            None => Ok(ek),
        }
    }

    /// What a fresh secret is to be sealed with to answer a ratchet round's first frame.
    pub fn pq_ratchet_respond_plan(&self, ek_msg: Vec<u8>) -> (r: Result<SealPlan>)
        ensures
            match self.ratchet_respond_guard(ek_msg@) {
                Some(e) => r == Err::<SealPlan, TwoMlsPqError>(e),
                None => if !has_pq(self.recv_group) {
                    r == Err::<SealPlan, TwoMlsPqError>(TwoMlsPqError::SessionNotReady)
                } else {
                    &&& r matches Ok(plan)
                    &&& payload_of(opened_or_raw(*self, ek_msg@), PQ_EK_TAG) == Some(plan.ek@)
                    &&& self.recv_group matches Some(g) && g.pq matches Some(pq)
                        && plan.psk@ == pq.ct_seal_psk@
                },
            },
    {
        let ek = match self.ratchet_respond_check(ek_msg) {
            Err(e) => return Err(e),
            Ok(ek) => ek,
        };
        match &self.recv_group {
            Some(recv) => match &recv.pq {
                Some(pq) => Ok(SealPlan { ek, psk: copy_bytes(pq.ct_seal_psk.as_slice()) }),
                None => Err(TwoMlsPqError::SessionNotReady),
            },
            None => Err(TwoMlsPqError::SessionNotReady),
        }
    }

    /// Answer a ratchet round's first frame: hold the sealed secret until the bind, and keep
    /// its ciphertext for re-sending.
    pub fn pq_ratchet_respond(&mut self, ek_msg: Vec<u8>, sealed: Result<SealedSecret>) -> (r:
        Result<()>)
        ensures
            old(self).wf() ==> final(self).wf(),
            old(self).sound() ==> final(self).sound(),
            old(self).live() ==> final(self).live(),
            old(self).wf() ==> final(self).since(*old(self)),
            old(self).side_band_settled() && r is Ok ==> final(self).side_band_settled(),
            match old(self).ratchet_respond_guard(ek_msg@) {
                Some(e) => r == Err::<(), TwoMlsPqError>(e) && *final(self) == *old(self),
                None => {
                    let s = begun(*old(self), BlobKind::Checkpoint);
                    if !has_pq(s.recv_group) {
                        &&& r == Err::<(), TwoMlsPqError>(TwoMlsPqError::SessionNotReady)
                        &&& *final(self) == s
                    } else {
                        match sealed {
                            Err(e) => r == Err::<(), TwoMlsPqError>(e) && *final(self) == s,
                            Ok(out) => {
                                &&& r is Ok
                                &&& *final(self) == (TwoMlsPqSession {
                                    pq_inflight: Some(
                                        PqInflight::Responding { secret: out.secret },
                                    ),
                                    pending_side_band: final(self).pending_side_band,
                                    ..s
                                })
                                &&& final(self).pending_side_band matches Some(kept)
                                &&& kept.frame@ == seq![PQ_CT_TAG] + out.ct@
                                &&& kept.seal is None
                            },
                        }
                    }
                },
            },
    {
        match self.ratchet_respond_check(ek_msg) {
            Err(e) => return Err(e),
            Ok(_) => {},
        }
        self.begin_mutation(BlobKind::Checkpoint);
        let live = match &self.recv_group {
            Some(recv) => recv.pq.is_some(),
            None => false,
        };
        if !live {
            return Err(TwoMlsPqError::SessionNotReady);
        }
        let SealedSecret { secret, ct } = match sealed {
            Err(e) => return Err(e),
            Ok(out) => out,
        };
        self.pq_inflight = Some(PqInflight::Responding { secret });
        self.pending_side_band = Some(
            RetainedFrame::unsealed(tag_payload(PQ_CT_TAG, ct.as_slice())),
        );
        Ok(())
    }
}

/// What a ratchet round's secret is opened with, and the reservation of the bind that is then
/// to be committed.
#[derive(Debug)]
pub struct OpenPlan {
    pub dk: Vec<u8>,
    pub ct: Vec<u8>,
    pub psk: Vec<u8>,
    /// An error means not to commit.
    pub attestation: Result<ApqInfoUpdate>,
    /// Export the departing classical epoch's PSK before committing.
    pub export_departing: bool,
}

/// What the steps of a ratchet bind gave.
#[derive(Debug)]
pub struct RatchetBindOutcome {
    /// Opening the secret.
    pub opened: Result<()>,
    pub departing_psk: Result<ExportedPsk>,
    pub commit: Result<PqCommitOutput>,
}

impl TwoMlsPqSession {
    /// Why a ratchet round's answer is not bound, before its secret is opened. One that was
    /// bound already is a duplicate.
    pub open spec fn ratchet_bind_guard(&self, blob: Seq<u8>) -> Option<TwoMlsPqError> {
        if payload_of(opened_or_raw(*self, blob), PQ_CT_TAG) is None {
            Some(TwoMlsPqError::Mls)
        } else if self.bind_blocked() {
            Some(TwoMlsPqError::SessionNotReady)
        } else {
            match self.pq_inflight {
                Some(PqInflight::Initiating { .. }) => if has_pq(self.send_group) {
                    None
                } else {
                    Some(TwoMlsPqError::SessionNotReady)
                },
                None => if self.pq_turn_mine {
                    Some(TwoMlsPqError::SessionNotReady)
                } else {
                    Some(TwoMlsPqError::DuplicateSideBand)
                },
                _ => Some(TwoMlsPqError::SessionNotReady),
            }
        }
    }

    /// What the secret of a ratchet round's answer is to be opened with, and what is to be
    /// committed then.
    pub fn pq_ratchet_bind_plan(&self, ct_msg: Vec<u8>) -> (r: Result<OpenPlan>)
        ensures
            match self.ratchet_bind_guard(ct_msg@) {
                Some(e) => r == Err::<OpenPlan, TwoMlsPqError>(e),
                None => {
                    &&& r matches Ok(plan)
                    &&& self.pq_inflight matches Some(PqInflight::Initiating { dk, .. })
                        && plan.dk@ == dk@
                    &&& payload_of(opened_or_raw(*self, ct_msg@), PQ_CT_TAG) == Some(plan.ct@)
                    &&& self.send_group matches Some(g) && g.pq matches Some(pq) && plan.psk@
                        == pq.ct_seal_psk@
                    &&& plan.attestation == self.reservation()
                    &&& plan.export_departing == self.spec_needs_send_psk()
                },
            },
    {
        let frame = self.open_or_raw(ct_msg);
        let ct = match payload(frame.as_slice(), PQ_CT_TAG) {
            Err(e) => return Err(e),
            Ok(ct) => ct,
        };
        if self.pending_proposal_hash.is_some() || self.owed_bind.is_some() {
            return Err(TwoMlsPqError::SessionNotReady);
        }
        let dk = match &self.pq_inflight {
            Some(PqInflight::Initiating { dk, .. }) => copy_bytes(dk.as_slice()),
            None => {
                if self.pq_turn_mine {
                    return Err(TwoMlsPqError::SessionNotReady);
                }
                return Err(TwoMlsPqError::DuplicateSideBand);
            },
            _ => return Err(TwoMlsPqError::SessionNotReady),
        };
        match &self.send_group {
            Some(send) => match &send.pq {
                Some(pq) => Ok(
                    OpenPlan {
                        dk,
                        ct,
                        psk: copy_bytes(pq.ct_seal_psk.as_slice()),
                        attestation: self.reserve(),
                        export_departing: self.needs_send_psk(),
                    },
                ),
                None => Err(TwoMlsPqError::SessionNotReady),
            },
            None => Err(TwoMlsPqError::SessionNotReady),
        }
    }

    /// Bind a ratchet round's answer: commit the opened secret into the send group's PQ half,
    /// and owe the classical half. An answer that does not open changes nothing.
    pub fn pq_ratchet_bind(&mut self, ct_msg: Vec<u8>, out: RatchetBindOutcome) -> (r: Result<()>)
        requires
            old(self).wf(),
        ensures
            final(self).wf(),
            old(self).sound() ==> final(self).sound(),
            old(self).live() && is_pq_commit(*old(self), out.commit) ==> final(self).live(),
            final(self).since(*old(self)),
            old(self).side_band_settled() && r is Ok ==> final(self).side_band_settled(),
            match old(self).ratchet_bind_guard(ct_msg@) {
                Some(e) => r == Err::<(), TwoMlsPqError>(e) && *final(self) == *old(self),
                None => match out.opened {
                    Err(e) => r == Err::<(), TwoMlsPqError>(e) && *final(self) == *old(self),
                    Ok(()) => {
                        let s = begun(*old(self), BlobKind::Checkpoint);
                        let epoch = s.send_group->0.classical.epoch;
                        let ledger = s.send_psk_ledger@;
                        match remember_error(ledger, epoch, out.departing_psk) {
                            Some(e) => {
                                &&& r == Err::<(), TwoMlsPqError>(e)
                                &&& *final(self) == (TwoMlsPqSession {
                                    send_psk_ledger: final(self).send_psk_ledger,
                                    retired_send_psks: final(self).retired_send_psks,
                                    ..s
                                })
                                &&& final(self).send_psk_ledger@ == ledger
                                &&& final(self).retired_send_psks@ == s.retired_send_psks@
                            },
                            None => {
                                &&& final(self).send_psk_ledger@ == ledger_with(
                                    ledger,
                                    epoch,
                                    out.departing_psk,
                                )
                                &&& final(self).retired_send_psks@ == retired_with(
                                    ledger,
                                    s.retired_send_psks@,
                                    epoch,
                                    out.departing_psk,
                                )
                                &&& (TwoMlsPqSession {
                                    send_psk_ledger: final(self).send_psk_ledger,
                                    retired_send_psks: final(self).retired_send_psks,
                                    pq_inflight: None,
                                    ..s
                                }).closed_by_bind(out.commit, *final(self), r)
                            },
                        }
                    },
                },
            },
    {
        match self.pq_ratchet_bind_plan(ct_msg) {
            Err(e) => return Err(e),
            Ok(_) => {},
        }
        let RatchetBindOutcome { opened, departing_psk, commit } = out;
        match opened {
            Err(e) => return Err(e),
            Ok(()) => {},
        }
        self.begin_mutation(BlobKind::Checkpoint);
        match self.remember_send_psk(departing_psk) {
            Err(e) => return Err(e),
            Ok(()) => {},
        }
        match self.pq_inflight.take() {
            Some(PqInflight::Initiating { dk, ek: _ }) => {
                let mut dk = dk;
                wipe(&mut dk);
            },
            other => {
                self.pq_inflight = other;
                return Err(TwoMlsPqError::SessionNotReady);
            },
        }
        self.close_with_bind(commit)
    }
}

// ---- the re-key ----

/// The update that a re-key proposes in the receive group's PQ half.
#[derive(Debug)]
pub struct RekeyPlan {
    /// Move the own leaf to this id, announcing it; else refresh its keys only.
    pub handoff: Option<Vec<u8>>,
}

impl TwoMlsPqSession {
    /// Why a re-key cannot begin.
    pub open spec fn rekey_begin_guard(&self) -> Option<TwoMlsPqError> {
        if !self.pq_turn_mine || self.pq_inflight is Some || !has_pq(self.send_group) {
            Some(TwoMlsPqError::SessionNotReady)
        } else {
            None
        }
    }

    /// Whether a handoff names the id that the session runs under, as it must.
    pub open spec fn hands_off(&self, rotating: Option<Seq<u8>>) -> bool {
        rotating matches Some(id) ==> id == self.client_id@
    }

    /// Whether a handoff names the id that the session runs under.
    fn handoff_ok(&self, rotating: &Option<ClientId>) -> (r: bool)
        ensures
            r == self.hands_off(opt_id(*rotating)),
    {
        match rotating {
            Some(id) => id.same(&self.client_id),
            None => true,
        }
    }

    fn rekey_begin_check(&self) -> (r: Result<()>)
        ensures
            r == match self.rekey_begin_guard() {
                Some(e) => Err::<(), TwoMlsPqError>(e),
                None => Ok(()),
            },
    {
        let live = match &self.send_group {
            Some(send) => send.pq.is_some(),
            None => false,
        };
        if !self.pq_turn_mine || self.pq_inflight.is_some() || !live {
            return Err(TwoMlsPqError::SessionNotReady);
        }
        Ok(())
    }

    /// The update that a re-key is to propose.
    pub fn pq_rekey_begin_plan(&self, rotating: &Option<ClientId>) -> (r: Result<RekeyPlan>)
        ensures
            if self.rekey_begin_guard() is Some || !self.hands_off(opt_id(*rotating)) || !has_pq(
                self.recv_group,
            ) {
                r == Err::<RekeyPlan, TwoMlsPqError>(TwoMlsPqError::SessionNotReady)
            } else {
                r matches Ok(plan) && opt_bytes(plan.handoff) == opt_id(*rotating)
            },
    {
        match self.rekey_begin_check() {
            Err(e) => return Err(e),
            Ok(()) => {},
        }
        let live = match &self.recv_group {
            Some(recv) => recv.pq.is_some(),
            None => false,
        };
        if !live || !self.handoff_ok(rotating) {
            return Err(TwoMlsPqError::SessionNotReady);
        }
        Ok(
            RekeyPlan {
                handoff: match rotating {
                    Some(id) => Some(copy_bytes(id.bytes.as_slice())),
                    None => None,
                },
            },
        )
    }

    /// Begin a re-key with an update of the own leaf in the peer's PQ half: the sealed frame
    /// with the proposal. No epoch moves until the responder commits it.
    pub fn pq_rekey_begin(
        &mut self,
        rotating: &Option<ClientId>,
        proposal: std::result::Result<Vec<u8>, MlsRefusal>,
    ) -> (r: Result<Vec<u8>>)
        ensures
            old(self).wf() ==> final(self).wf(),
            old(self).sound() ==> final(self).sound(),
            old(self).live() ==> final(self).live(),
            old(self).wf() ==> final(self).since(*old(self)),
            old(self).side_band_settled() && r is Ok ==> final(self).side_band_settled(),
            match old(self).rekey_begin_guard() {
                Some(e) => r == Err::<Vec<u8>, TwoMlsPqError>(e) && *final(self) == *old(self),
                None => {
                    let s = begun(*old(self), BlobKind::Checkpoint);
                    if !s.hands_off(opt_id(*rotating)) || !has_pq(s.recv_group) {
                        &&& r == Err::<Vec<u8>, TwoMlsPqError>(TwoMlsPqError::SessionNotReady)
                        &&& *final(self) == s
                    } else {
                        match proposal {
                            Err(refusal) => {
                                &&& r == Err::<Vec<u8>, TwoMlsPqError>(
                                    if *rotating is Some {
                                        refusal_error(refusal)
                                    } else {
                                        TwoMlsPqError::Mls
                                    },
                                )
                                &&& *final(self) == s
                            },
                            Ok(p) => match r {
                                Ok(sealed) => s.round_begun(
                                    seq![PQ_REKEY_UPD_TAG] + p@,
                                    PqInflight::RekeyInitiated,
                                    sealed@,
                                    *final(self),
                                ),
                                Err(e) => {
                                    &&& e == TwoMlsPqError::Mls
                                    &&& *final(self) == s
                                    &&& s.cannot_begin(seq![PQ_REKEY_UPD_TAG] + p@)
                                },
                            },
                        }
                    }
                },
            },
    {
        match self.rekey_begin_check() {
            Err(e) => return Err(e),
            Ok(()) => {},
        }
        self.begin_mutation(BlobKind::Checkpoint);
        if !self.handoff_ok(rotating) {
            return Err(TwoMlsPqError::SessionNotReady);
        }
        let live = match &self.recv_group {
            Some(recv) => recv.pq.is_some(),
            None => false,
        };
        if !live {
            return Err(TwoMlsPqError::SessionNotReady);
        }
        let proposal = match proposal {
            Err(refusal) => {
                if rotating.is_some() {
                    return Err(map_credential_err(refusal));
                }
                return Err(TwoMlsPqError::Mls);
            },
            Ok(p) => p,
        };
        let frame = tag_payload(PQ_REKEY_UPD_TAG, proposal.as_slice());
        self.open_round(frame, PqInflight::RekeyInitiated)
    }
}

/// What answering a re-key asks of the host, in order.
#[derive(Debug)]
pub struct RekeyRespondPlan {
    /// Export the receive group's cross-party PSK and bind it into the commit.
    pub export_cross: bool,
    /// Apply this proposal in the send group's PQ half, so that the commit folds it, if it
    /// passes `check_rekey_proposal` for the own leaf at `my_index`.
    pub proposal: Vec<u8>,
    pub my_index: u32,
    /// Move the own leaf to the id that the session runs under.
    pub handoff: bool,
}

/// What the steps of answering a re-key gave.
#[derive(Debug)]
pub struct RekeyRespondOutcome {
    pub cross_psk: Result<()>,
    pub processed: ProcessedProposal,
    pub commit: std::result::Result<CommitOutput, MlsRefusal>,
}

/// Why a processed re-key proposal is not committed: it is not the peer's own update, or it
/// announces an id that is not canonical for the peer.
pub open spec fn rekey_proposal_error(
    processed: ProcessedProposal,
    my_index: u32,
    canonical: Seq<Seq<u8>>,
) -> Option<TwoMlsPqError> {
    match processed {
        ProcessedProposal::Refused { .. } => Some(TwoMlsPqError::Mls),
        ProcessedProposal::NotAProposal => Some(TwoMlsPqError::Mls),
        ProcessedProposal::Proposal { member, is_update, authenticated_data, .. } => if !is_peer_update(
            member,
            is_update,
            my_index,
        ) {
            Some(TwoMlsPqError::ProposalRejected)
        } else if authenticated_data@.len() > 0 && !canonical.contains(authenticated_data@) {
            Some(TwoMlsPqError::CredentialRejected)
        } else {
            None
        },
    }
}

/// The id that a processed re-key proposal announces.
pub open spec fn announced_id(processed: ProcessedProposal) -> Option<Seq<u8>> {
    match processed {
        ProcessedProposal::Proposal { authenticated_data, .. } => if authenticated_data@.len()
            > 0 {
            Some(authenticated_data@)
        } else {
            None
        },
        _ => None,
    }
}

/// Check a processed re-key proposal; the id it announces. The host asks before it commits: a
/// proposal that does not pass is dropped from the group's cache.
pub fn check_rekey_proposal(
    processed: &ProcessedProposal,
    my_index: u32,
    canonical_theirs: &Vec<Vec<u8>>,
) -> (r: Result<Option<ClientId>>)
    ensures
        match rekey_proposal_error(*processed, my_index, all_bytes(canonical_theirs@)) {
            Some(e) => r == Err::<Option<ClientId>, TwoMlsPqError>(e),
            None => r matches Ok(id) && opt_id(id) == announced_id(*processed),
        },
{
    match processed {
        ProcessedProposal::Refused { .. } => Err(TwoMlsPqError::Mls),
        ProcessedProposal::NotAProposal => Err(TwoMlsPqError::Mls),
        ProcessedProposal::Proposal { member, is_update, leaf: _, authenticated_data } => {
            match require_peer_update(*member, *is_update, my_index) {
                Err(e) => return Err(e),
                Ok(()) => {},
            }
            if authenticated_data.is_empty() {
                return Ok(None);
            }
            if !contains_bytes(canonical_theirs, authenticated_data.as_slice()) {
                return Err(TwoMlsPqError::CredentialRejected);
            }
            Ok(Some(ClientId { bytes: copy_bytes(authenticated_data.as_slice()) }))
        },
    }
}

impl TwoMlsPqSession {
    /// Why a re-key's proposal is not answered. No PQ commit may land while a bind is owed.
    pub open spec fn rekey_respond_guard(&self, blob: Seq<u8>) -> Option<TwoMlsPqError> {
        match payload_of(opened_or_raw(*self, blob), PQ_REKEY_UPD_TAG) {
            None => Some(TwoMlsPqError::Mls),
            Some(proposal) => if mls_epoch_of(proposal) is None {
                Some(TwoMlsPqError::Mls)
            } else if self.pq_inflight is Some || self.owed_bind is Some {
                Some(TwoMlsPqError::SessionNotReady)
            } else {
                None
            },
        }
    }

    /// Whether the receive group's PQ half has moved since its cross-party PSK was last
    /// exported.
    pub open spec fn cross_due_pq(&self) -> bool {
        pq_epoch_of(self.recv_group) != self.last_cross_injected_pq
    }

    fn rekey_respond_check(&self, upd_msg: Vec<u8>) -> (r: Result<Vec<u8>>)
        ensures
            match self.rekey_respond_guard(upd_msg@) {
                Some(e) => r == Err::<Vec<u8>, TwoMlsPqError>(e),
                None => r matches Ok(p) && payload_of(
                    opened_or_raw(*self, upd_msg@),
                    PQ_REKEY_UPD_TAG,
                ) == Some(p@),
            },
    {
        let frame = self.open_or_raw(upd_msg);
        let proposal = match payload(frame.as_slice(), PQ_REKEY_UPD_TAG) {
            Err(e) => return Err(e),
            Ok(p) => p,
        };
        if mls_message_epoch(proposal.as_slice()).is_none() {
            return Err(TwoMlsPqError::Mls);
        }
        if self.pq_inflight.is_some() || self.owed_bind.is_some() {
            return Err(TwoMlsPqError::SessionNotReady);
        }
        Ok(proposal)
    }

    /// What answering a re-key's proposal asks of the host.
    pub fn pq_rekey_respond_plan(&self, upd_msg: Vec<u8>) -> (r: Result<RekeyRespondPlan>)
        ensures
            match self.rekey_respond_guard(upd_msg@) {
                Some(e) => r == Err::<RekeyRespondPlan, TwoMlsPqError>(e),
                None => if !self.spec_pq_halves_live() {
                    r == Err::<RekeyRespondPlan, TwoMlsPqError>(TwoMlsPqError::SessionNotReady)
                } else {
                    &&& r matches Ok(plan)
                    &&& plan.export_cross == self.cross_due_pq()
                    &&& payload_of(opened_or_raw(*self, upd_msg@), PQ_REKEY_UPD_TAG) == Some(
                        plan.proposal@,
                    )
                    &&& self.send_group matches Some(g) && g.pq matches Some(pq)
                        && plan.my_index == pq.my_index && plan.handoff == (pq.my_leaf@
                        != self.client_id@)
                },
            },
    {
        let proposal = match self.rekey_respond_check(upd_msg) {
            Err(e) => return Err(e),
            Ok(p) => p,
        };
        let recv_epoch: u64 = match &self.recv_group {
            Some(recv) => match &recv.pq {
                Some(pq) => pq.epoch,
                None => return Err(TwoMlsPqError::SessionNotReady),
            },
            None => return Err(TwoMlsPqError::SessionNotReady),
        };
        let export_cross = match self.last_cross_injected_pq {
            Some(at) => at != recv_epoch,
            None => true,
        };
        match &self.send_group {
            Some(send) => match &send.pq {
                Some(pq) => Ok(
                    RekeyRespondPlan {
                        export_cross,
                        proposal,
                        my_index: pq.my_index,
                        handoff: !bytes_eq(
                            pq.my_leaf.as_slice(),
                            self.client_id.bytes.as_slice(),
                        ),
                    },
                ),
                None => Err(TwoMlsPqError::SessionNotReady),
            },
            None => Err(TwoMlsPqError::SessionNotReady),
        }
    }

    /// Why answering a re-key fails once its proposal passed the guard, and whether the
    /// commit had landed by then.
    pub open spec fn rekey_respond_stop(
        &self,
        canonical: Seq<Seq<u8>>,
        out: RekeyRespondOutcome,
    ) -> Option<(bool, TwoMlsPqError)> {
        if !has_pq(self.recv_group) {
            Some((false, TwoMlsPqError::SessionNotReady))
        } else if self.cross_due_pq() && out.cross_psk is Err {
            Some((false, out.cross_psk->Err_0))
        } else if !has_pq(self.send_group) {
            Some((false, TwoMlsPqError::SessionNotReady))
        } else {
            match rekey_proposal_error(
                out.processed,
                self.send_group->0.pq->0.my_index,
                canonical,
            ) {
                Some(e) => Some((false, e)),
                None => match out.commit {
                    Err(refusal) => Some((false, refusal_error(refusal))),
                    Ok(c) => if !c.two_party || c.message is None {
                        Some((true, TwoMlsPqError::Mls))
                    } else {
                        None
                    },
                },
            }
        }
    }

    /// Answer a re-key: commit the peer's update in the own PQ half, which moves both leaves,
    /// and keep the commit for re-sending. `canonical_theirs` are the ids that the peer's
    /// credential sequence has been through; the update may announce only one of them.
    /// Reports the announced id.
    pub fn pq_rekey_respond(
        &mut self,
        upd_msg: Vec<u8>,
        canonical_theirs: &Vec<Vec<u8>>,
        out: RekeyRespondOutcome,
    ) -> (r: Result<Option<ClientId>>)
        requires
            old(self).wf(),
        ensures
            final(self).wf(),
            old(self).sound() ==> final(self).sound(),
            old(self).live() && (out.commit matches Ok(c) ==> pq_exports(c.half))
                ==> final(self).live(),
            final(self).since(*old(self)),
            old(self).side_band_settled() && r is Ok ==> final(self).side_band_settled(),
            match old(self).rekey_respond_guard(upd_msg@) {
                Some(e) => {
                    &&& r == Err::<Option<ClientId>, TwoMlsPqError>(e)
                    &&& *final(self) == *old(self)
                },
                None => {
                    let s = begun(*old(self), BlobKind::Checkpoint);
                    let canonical = all_bytes(canonical_theirs@);
                    // The exporter leaf is spent once it is exported.
                    let spent = TwoMlsPqSession {
                        last_cross_injected_pq: if has_pq(s.recv_group) && !(s.cross_due_pq()
                            && out.cross_psk is Err) {
                            pq_epoch_of(s.recv_group)
                        } else {
                            s.last_cross_injected_pq
                        },
                        ..s
                    };
                    match s.rekey_respond_stop(canonical, out) {
                        Some((landed, e)) => {
                            &&& r == Err::<Option<ClientId>, TwoMlsPqError>(e)
                            &&& *final(self) == if landed {
                                TwoMlsPqSession {
                                    send_group: s.with_send_pq(out.commit->Ok_0.half),
                                    ..spent
                                }
                            } else {
                                spent
                            }
                        },
                        None => {
                            let c = out.commit->Ok_0;
                            &&& r matches Ok(id) && opt_id(id) == announced_id(out.processed)
                            &&& *final(self) == (TwoMlsPqSession {
                                send_group: s.with_send_pq(c.half),
                                pq_inflight: Some(PqInflight::RekeyResponded),
                                pending_side_band: final(self).pending_side_band,
                                recv_header_keys_pq: final(self).recv_header_keys_pq,
                                ..spent
                            })
                            &&& final(self).pending_side_band matches Some(kept)
                            &&& kept.frame@ == tagged(
                                PQ_REKEY_COMMIT_TAG,
                                parts2(c.message->0@, Seq::empty()),
                            )
                            &&& kept.seal is None
                            &&& keys(final(self).recv_header_keys_pq@) == s.header_keys_recorded(
                                s.with_send_pq(c.half),
                            )
                        },
                    }
                },
            },
    {
        match self.rekey_respond_check(upd_msg) {
            Err(e) => return Err(e),
            Ok(_) => {},
        }
        let RekeyRespondOutcome { cross_psk, processed, commit } = out;
        self.begin_mutation(BlobKind::Checkpoint);
        let recv_epoch: u64 = match &self.recv_group {
            Some(recv) => match &recv.pq {
                Some(pq) => pq.epoch,
                None => return Err(TwoMlsPqError::SessionNotReady),
            },
            None => return Err(TwoMlsPqError::SessionNotReady),
        };
        let bound = match self.last_cross_injected_pq {
            Some(at) => at == recv_epoch,
            None => false,
        };
        if !bound {
            match cross_psk {
                Err(e) => return Err(e),
                Ok(()) => {},
            }
            self.last_cross_injected_pq = Some(recv_epoch);
        }
        let my_index: u32 = match &self.send_group {
            Some(send) => match &send.pq {
                Some(pq) => pq.my_index,
                None => return Err(TwoMlsPqError::SessionNotReady),
            },
            None => return Err(TwoMlsPqError::SessionNotReady),
        };
        let rotated = match check_rekey_proposal(&processed, my_index, canonical_theirs) {
            Err(e) => return Err(e),
            Ok(id) => id,
        };
        let CommitOutput { half, two_party, message } = match commit {
            Err(refusal) => return Err(map_credential_err(refusal)),
            Ok(c) => c,
        };
        match self.send_group.take() {
            None => {},
            Some(g) => {
                self.send_group = Some(
                    CombinerGroup {
                        classical: g.classical,
                        pq: Some(half),
                        app_binding: g.app_binding,
                    },
                );
            },
        }
        if !two_party {
            return Err(TwoMlsPqError::Mls);
        }
        let commit_bytes = match message {
            None => return Err(TwoMlsPqError::Mls),
            Some(m) => m,
        };
        let none: Vec<u8> = Vec::new();
        self.pq_inflight = Some(PqInflight::RekeyResponded);
        self.pending_side_band = Some(
            RetainedFrame::unsealed(encode_pq_rekey_commit(commit_bytes, none)),
        );
        self.record_pq_header_key();
        Ok(rotated)
    }
}

/// What closing a re-key asks of the host, in order.
#[derive(Debug)]
pub struct RekeyApplyPlan {
    /// Export the send group's cross-party PSK, which the commit may refer to.
    pub export_send: bool,
    /// Apply this commit to the receive group's PQ half, then, if `rekey_commit_stands`,
    /// export its cross-party PSK at the new epoch.
    pub commit: Vec<u8>,
    /// Inject that PSK into the send group's PQ half with this attestation; an error means
    /// not to.
    pub attestation: Result<ApqInfoUpdate>,
}

/// What the steps of closing a re-key gave.
#[derive(Debug)]
pub struct RekeyApplyOutcome {
    pub send_psk: Result<()>,
    /// The receive group's PQ half is the one that the commit applies to.
    pub applied: CommitProcessed,
    pub secret: Result<()>,
    pub commit: Result<PqCommitOutput>,
}

/// Whether an applied re-key commit stands: it attests nothing, for the bind that answers it
/// does, and leaves the group of two members.
pub open spec fn is_rekey_commit(applied: CommitProcessed) -> bool {
    applied matches CommitProcessed::Commit { attestation, two_party, .. } && attestation
        == Ok::<Option<ApqInfoUpdate>, TwoMlsPqError>(None) && two_party
}

/// Whether an applied re-key commit stands. The host asks before it makes the bind.
pub fn rekey_commit_stands(applied: &CommitProcessed) -> (r: bool)
    ensures
        r == is_rekey_commit(*applied),
{
    match applied {
        CommitProcessed::Commit { attestation, two_party, .. } => {
            let attests_nothing = match attestation {
                Ok(None) => true,
                _ => false,
            };
            attests_nothing && *two_party
        },
        _ => false,
    }
}

impl TwoMlsPqSession {
    /// Note that the receive group's cross-party PSK was exported at its current PQ epoch.
    fn export_cross_from_recv_pq(&mut self, exported: Result<()>) -> (r: Result<()>)
        ensures
            r == match pq_epoch_of(old(self).recv_group) {
                None => Err::<(), TwoMlsPqError>(TwoMlsPqError::SessionNotReady),
                Some(_) => match exported {
                    Err(e) => Err(e),
                    Ok(()) => Ok(()),
                },
            },
            *final(self) == (TwoMlsPqSession {
                last_cross_injected_pq: if r is Ok {
                    pq_epoch_of(old(self).recv_group)
                } else {
                    old(self).last_cross_injected_pq
                },
                ..*old(self)
            }),
            old(self).wf() ==> final(self).wf(),
            old(self).sound() ==> final(self).sound(),
            old(self).live() ==> final(self).live(),
            old(self).wf() ==> final(self).since(*old(self)),
            old(self).side_band_settled() && r is Ok ==> final(self).side_band_settled(),
    {
        let epoch: u64 = match &self.recv_group {
            None => return Err(TwoMlsPqError::SessionNotReady),
            Some(recv) => match &recv.pq {
                None => return Err(TwoMlsPqError::SessionNotReady),
                Some(pq) => pq.epoch,
            },
        };
        match exported {
            Err(e) => Err(e),
            Ok(()) => {
                self.last_cross_injected_pq = Some(epoch);
                Ok(())
            },
        }
    }

    /// Why a re-key's commit is not applied. One that was applied already is a duplicate.
    pub open spec fn rekey_apply_guard(&self, blob: Seq<u8>) -> Option<TwoMlsPqError> {
        if read2(opened_or_raw(*self, blob), PQ_REKEY_COMMIT_TAG) is None {
            Some(TwoMlsPqError::Mls)
        } else if self.bind_blocked() {
            Some(TwoMlsPqError::SessionNotReady)
        } else {
            match self.pq_inflight {
                Some(PqInflight::RekeyInitiated) => None,
                None => if self.pq_turn_mine {
                    Some(TwoMlsPqError::SessionNotReady)
                } else {
                    Some(TwoMlsPqError::DuplicateSideBand)
                },
                _ => Some(TwoMlsPqError::SessionNotReady),
            }
        }
    }

    fn rekey_apply_check(&self, msg: Vec<u8>) -> (r: Result<Vec<u8>>)
        ensures
            match self.rekey_apply_guard(msg@) {
                Some(e) => r == Err::<Vec<u8>, TwoMlsPqError>(e),
                None => {
                    &&& r matches Ok(c)
                    &&& read2(opened_or_raw(*self, msg@), PQ_REKEY_COMMIT_TAG) matches Some(
                        (commit, _),
                    )
                    &&& c@ == commit
                },
            },
    {
        let frame = self.open_or_raw(msg);
        let (commit, _) = match decode_pq_rekey_commit(frame.as_slice()) {
            Err(e) => return Err(e),
            Ok(parts) => parts,
        };
        if self.pending_proposal_hash.is_some() || self.owed_bind.is_some() {
            return Err(TwoMlsPqError::SessionNotReady);
        }
        match &self.pq_inflight {
            Some(PqInflight::RekeyInitiated) => Ok(commit),
            None => {
                if self.pq_turn_mine {
                    Err(TwoMlsPqError::SessionNotReady)
                } else {
                    Err(TwoMlsPqError::DuplicateSideBand)
                }
            },
            _ => Err(TwoMlsPqError::SessionNotReady),
        }
    }

    /// Whether the send group's PQ half has moved since its cross-party PSK was last
    /// exported.
    pub open spec fn send_export_due(&self) -> bool {
        pq_epoch_of(self.send_group) != self.last_send_pq_exported
    }

    /// What closing a re-key asks of the host.
    pub fn pq_rekey_apply_plan(&self, msg: Vec<u8>) -> (r: Result<RekeyApplyPlan>)
        ensures
            match self.rekey_apply_guard(msg@) {
                Some(e) => r == Err::<RekeyApplyPlan, TwoMlsPqError>(e),
                None => {
                    let commit = match read2(opened_or_raw(*self, msg@), PQ_REKEY_COMMIT_TAG) {
                        Some((commit, _)) => commit,
                        None => Seq::empty(),
                    };
                    if mls_epoch_of(commit) is None {
                        r == Err::<RekeyApplyPlan, TwoMlsPqError>(TwoMlsPqError::Mls)
                    } else if !self.spec_pq_halves_live() {
                        r == Err::<RekeyApplyPlan, TwoMlsPqError>(TwoMlsPqError::SessionNotReady)
                    } else {
                        &&& r matches Ok(plan)
                        &&& plan.export_send == self.send_export_due()
                        &&& plan.commit@ == commit
                        &&& plan.attestation == self.reservation()
                    }
                },
            },
    {
        let commit = match self.rekey_apply_check(msg) {
            Err(e) => return Err(e),
            Ok(c) => c,
        };
        if mls_message_epoch(commit.as_slice()).is_none() {
            return Err(TwoMlsPqError::Mls);
        }
        if !self.is_fully_established() {
            return Err(TwoMlsPqError::SessionNotReady);
        }
        let export_send = match &self.send_group {
            Some(send) => match &send.pq {
                Some(pq) => match self.last_send_pq_exported {
                    Some(at) => at != pq.epoch,
                    None => true,
                },
                None => false,
            },
            None => false,
        };
        Ok(RekeyApplyPlan { export_send, commit, attestation: self.reserve() })
    }

    /// The receive group with its PQ half replaced.
    pub open spec fn with_recv_pq(&self, half: GroupHalf) -> Option<CombinerGroup> {
        match self.recv_group {
            None => None,
            Some(g) => Some(CombinerGroup { pq: Some(half), ..g }),
        }
    }

    /// Where applying a re-key's commit ends: the first error and the state there, or none
    /// and the state that the bind is then made in. The round is over once the commit is
    /// applied, and not before, so a commit that is refused for now can come again.
    pub open spec fn rekey_applied(&self, commit: Seq<u8>, out: RekeyApplyOutcome) -> (
        Option<TwoMlsPqError>,
        TwoMlsPqSession,
    ) {
        if mls_epoch_of(commit) is None {
            (Some(TwoMlsPqError::Mls), *self)
        } else if !has_pq(self.send_group) {
            (Some(TwoMlsPqError::SessionNotReady), *self)
        } else if self.send_export_due() && out.send_psk is Err {
            (Some(out.send_psk->Err_0), *self)
        } else {
            let exported = TwoMlsPqSession {
                last_send_pq_exported: pq_epoch_of(self.send_group),
                ..*self
            };
            if !has_pq(self.recv_group) {
                (Some(TwoMlsPqError::SessionNotReady), exported)
            } else {
                match out.applied {
                    CommitProcessed::Refused { refusal } => (
                        Some(refusal_error(refusal)),
                        exported,
                    ),
                    CommitProcessed::NotACommit => (Some(TwoMlsPqError::Mls), exported),
                    CommitProcessed::Commit { half, attestation, two_party } => {
                        let applied = TwoMlsPqSession {
                            recv_group: self.with_recv_pq(half),
                            ..exported
                        };
                        if attestation is Err {
                            (Some(attestation->Err_0), applied)
                        } else if attestation->Ok_0 is Some {
                            (Some(TwoMlsPqError::ApqInfoMismatch), applied)
                        } else if !two_party {
                            (Some(TwoMlsPqError::Mls), applied)
                        } else {
                            let over = TwoMlsPqSession { pq_inflight: None, ..applied };
                            match out.secret {
                                Err(e) => (Some(e), over),
                                Ok(()) => (
                                    None,
                                    TwoMlsPqSession {
                                        last_cross_injected_pq: Some(half.epoch),
                                        ..over
                                    },
                                ),
                            }
                        }
                    },
                }
            }
        }
    }

    /// Close a re-key: apply the responder's commit to the receive group's PQ half, and bind
    /// the secret that only its new epoch gives.
    #[verifier::rlimit(40)]
    pub fn pq_rekey_apply(&mut self, msg: Vec<u8>, out: RekeyApplyOutcome) -> (r: Result<()>)
        requires
            old(self).wf(),
        ensures
            final(self).wf(),
            old(self).sound() ==> final(self).sound(),
            old(self).live() && is_pq_commit(*old(self), out.commit) ==> final(self).live(),
            final(self).since(*old(self)),
            old(self).side_band_settled() && r is Ok ==> final(self).side_band_settled(),
            match old(self).rekey_apply_guard(msg@) {
                Some(e) => r == Err::<(), TwoMlsPqError>(e) && *final(self) == *old(self),
                None => {
                    let commit = match read2(
                        opened_or_raw(*old(self), msg@),
                        PQ_REKEY_COMMIT_TAG,
                    ) {
                        Some((commit, _)) => commit,
                        None => Seq::empty(),
                    };
                    let (error, at) = begun(*old(self), BlobKind::Checkpoint).rekey_applied(
                        commit,
                        out,
                    );
                    match error {
                        Some(e) => r == Err::<(), TwoMlsPqError>(e) && *final(self) == at,
                        None => at.closed_by_bind(out.commit, *final(self), r),
                    }
                },
            },
    {
        let commit_bytes = match self.rekey_apply_check(msg) {
            Err(e) => return Err(e),
            Ok(c) => c,
        };
        let RekeyApplyOutcome { send_psk, applied, secret, commit } = out;
        self.begin_mutation(BlobKind::Checkpoint);
        if mls_message_epoch(commit_bytes.as_slice()).is_none() {
            return Err(TwoMlsPqError::Mls);
        }
        let send_epoch: u64 = match &self.send_group {
            Some(send) => match &send.pq {
                Some(pq) => pq.epoch,
                None => return Err(TwoMlsPqError::SessionNotReady),
            },
            None => return Err(TwoMlsPqError::SessionNotReady),
        };
        let registered = match self.last_send_pq_exported {
            Some(at) => at == send_epoch,
            None => false,
        };
        if !registered {
            match self.export_cross_from_send_pq(send_psk) {
                Err(e) => return Err(e),
                Ok(()) => {},
            }
        }
        let live = match &self.recv_group {
            Some(recv) => recv.pq.is_some(),
            None => false,
        };
        if !live {
            return Err(TwoMlsPqError::SessionNotReady);
        }
        match applied {
            CommitProcessed::Refused { refusal } => return Err(map_credential_err(refusal)),
            CommitProcessed::NotACommit => return Err(TwoMlsPqError::Mls),
            CommitProcessed::Commit { half, attestation, two_party } => {
                match self.recv_group.take() {
                    None => {},
                    Some(g) => {
                        self.recv_group = Some(
                            CombinerGroup {
                                classical: g.classical,
                                pq: Some(half),
                                app_binding: g.app_binding,
                            },
                        );
                    },
                }
                match attestation {
                    Err(e) => return Err(e),
                    Ok(Some(_)) => return Err(TwoMlsPqError::ApqInfoMismatch),
                    Ok(None) => {},
                }
                if !two_party {
                    return Err(TwoMlsPqError::Mls);
                }
            },
        }
        self.pq_inflight = None;
        match self.export_cross_from_recv_pq(secret) {
            Err(e) => return Err(e),
            Ok(()) => {},
        }
        self.close_with_bind(commit)
    }
}

// ---- the bootstrap ----

impl TwoMlsPqSession {
    /// Whether the bootstrap of the receive group's PQ half can begin.
    pub open spec fn can_bootstrap(&self, rotating: Option<Seq<u8>>) -> bool {
        &&& self.pq_turn_mine
        &&& self.pq_inflight is None
        &&& self.hands_off(rotating)
        &&& self.send_group is Some
        &&& self.recv_group is Some && !has_pq(self.recv_group)
    }

    /// Whether a PQ key package is to be minted for the bootstrap: the one that was committed
    /// to is sent where it is still at hand.
    pub fn pq_bootstrap_begin_plan(&self, rotating: &Option<ClientId>) -> (r: Result<bool>)
        ensures
            r == if self.can_bootstrap(opt_id(*rotating)) {
                Ok::<bool, TwoMlsPqError>(self.bootstrap_kp is None)
            } else {
                Err(TwoMlsPqError::SessionNotReady)
            },
    {
        let deferred = match &self.recv_group {
            Some(recv) => recv.pq.is_none(),
            None => false,
        };
        if self.pq_turn_mine && self.pq_inflight.is_none() && self.handoff_ok(rotating)
            && self.send_group.is_some() && deferred {
            Ok(self.bootstrap_kp.is_none())
        } else {
            Err(TwoMlsPqError::SessionNotReady)
        }
    }

    /// Begin the bootstrap: the sealed frame with this side's PQ key package, which the peer
    /// creates its deferred half around. The committed key package is used up by it.
    pub fn pq_bootstrap_begin(
        &mut self,
        rotating: &Option<ClientId>,
        minted: Result<Vec<u8>>,
    ) -> (r: Result<Vec<u8>>)
        ensures
            old(self).wf() ==> final(self).wf(),
            old(self).sound() ==> final(self).sound(),
            old(self).live() ==> final(self).live(),
            old(self).wf() ==> final(self).since(*old(self)),
            old(self).side_band_settled() && r is Ok ==> final(self).side_band_settled(),
            if !old(self).can_bootstrap(opt_id(*rotating)) {
                &&& r == Err::<Vec<u8>, TwoMlsPqError>(TwoMlsPqError::SessionNotReady)
                &&& *final(self) == *old(self)
            } else {
                let s = begun(*old(self), BlobKind::Checkpoint);
                if s.bootstrap_kp is None && minted is Err {
                    &&& r == Err::<Vec<u8>, TwoMlsPqError>(minted->Err_0)
                    &&& *final(self) == s
                } else {
                    let kp = match s.bootstrap_kp {
                        Some(kp) => kp@,
                        None => minted->Ok_0@,
                    };
                    match r {
                        Ok(sealed) => (TwoMlsPqSession { bootstrap_kp: None, ..s }).round_begun(
                            seq![PQ_BOOTSTRAP_KP_TAG] + kp,
                            PqInflight::BootstrapInitiated,
                            sealed@,
                            *final(self),
                        ),
                        Err(e) => {
                            &&& e == TwoMlsPqError::Mls
                            &&& *final(self) == s
                            &&& s.cannot_begin(seq![PQ_BOOTSTRAP_KP_TAG] + kp)
                        },
                    }
                }
            },
    {
        match self.pq_bootstrap_begin_plan(rotating) {
            Err(e) => return Err(e),
            Ok(_) => {},
        }
        self.begin_mutation(BlobKind::Checkpoint);
        let frame = match &self.bootstrap_kp {
            Some(kp) => tag_payload(PQ_BOOTSTRAP_KP_TAG, kp.as_slice()),
            None => match minted {
                Err(e) => return Err(e),
                Ok(kp) => tag_payload(PQ_BOOTSTRAP_KP_TAG, kp.as_slice()),
            },
        };
        match self.open_round(frame, PqInflight::BootstrapInitiated) {
            Err(e) => Err(e),
            Ok(sealed) => {
                self.bootstrap_kp = None;
                Ok(sealed)
            },
        }
    }
}

/// A PQ half created around a peer's key package, and its welcome.
#[derive(Debug)]
pub struct CreatedHalf {
    pub half: GroupHalf,
    pub welcome: Vec<u8>,
}

impl TwoMlsPqSession {
    /// Why a bootstrap key package is not the peer's: it is not the one that the peer
    /// committed to at establishment or, where no commitment is known, it names another
    /// principal.
    pub open spec fn bootstrap_kp_error(&self, kp: Seq<u8>) -> Option<TwoMlsPqError> {
        match self.expected_bootstrap_kp_commitment {
            Some(commitment) => if commitment@ == sha256_of(kp) {
                None
            } else {
                Some(TwoMlsPqError::BootstrapKpMismatch)
            },
            None => if key_package_of(kp) matches Some((id, _)) && id == self.their_state@.0 {
                None
            } else {
                Some(TwoMlsPqError::RemoteIdentityMismatch)
            },
        }
    }

    /// Why a bootstrap key package is not answered. One that was answered already is a
    /// duplicate.
    pub open spec fn bootstrap_respond_guard(&self, blob: Seq<u8>) -> Option<TwoMlsPqError> {
        match payload_of(opened_or_raw(*self, blob), PQ_BOOTSTRAP_KP_TAG) {
            None => Some(TwoMlsPqError::Mls),
            Some(kp) => match key_package_suite_check(kp, self.suite.pq) {
                Err(e) => Some(e),
                Ok(()) => match self.bootstrap_kp_error(kp) {
                    Some(e) => Some(e),
                    None => if has_pq(self.send_group) {
                        Some(TwoMlsPqError::DuplicateSideBand)
                    } else {
                        None
                    },
                },
            },
        }
    }

    /// The key package that the send group's PQ half is to be created around.
    pub fn pq_bootstrap_respond_plan(&self, kp_msg: Vec<u8>) -> (r: Result<Vec<u8>>)
        ensures
            match self.bootstrap_respond_guard(kp_msg@) {
                Some(e) => r == Err::<Vec<u8>, TwoMlsPqError>(e),
                None => r matches Ok(kp) && payload_of(
                    opened_or_raw(*self, kp_msg@),
                    PQ_BOOTSTRAP_KP_TAG,
                ) == Some(kp@),
            },
    {
        let frame = self.open_or_raw(kp_msg);
        let kp = match payload(frame.as_slice(), PQ_BOOTSTRAP_KP_TAG) {
            Err(e) => return Err(e),
            Ok(kp) => kp,
        };
        match check_key_package_suite(kp.as_slice(), self.suite.pq) {
            Err(e) => return Err(e),
            Ok(()) => {},
        }
        match &self.expected_bootstrap_kp_commitment {
            Some(commitment) => {
                let digest = sha256(kp.as_slice());
                if !bytes_eq(commitment.as_slice(), digest.as_slice()) {
                    return Err(TwoMlsPqError::BootstrapKpMismatch);
                }
            },
            None => {
                let named = match parse_mls_key_package(kp.as_slice()) {
                    Err(e) => return Err(e),
                    Ok((id, _)) => id,
                };
                if !named.same(&self.their_state.client_id()) {
                    return Err(TwoMlsPqError::RemoteIdentityMismatch);
                }
            },
        }
        let up = match &self.send_group {
            Some(send) => send.pq.is_some(),
            None => false,
        };
        if up {
            return Err(TwoMlsPqError::DuplicateSideBand);
        }
        Ok(kp)
    }

    /// Answer the bootstrap: the send group gets its PQ half, whose welcome is kept for
    /// re-sending.
    pub fn pq_bootstrap_respond(&mut self, kp_msg: Vec<u8>, created: Result<CreatedHalf>) -> (r:
        Result<()>)
        requires
            old(self).wf(),
        ensures
            final(self).wf(),
            old(self).sound() ==> final(self).sound(),
            old(self).live() && (created matches Ok(c) ==> pq_exports(c.half))
                ==> final(self).live(),
            final(self).since(*old(self)),
            old(self).side_band_settled() && r is Ok ==> final(self).side_band_settled(),
            match old(self).bootstrap_respond_guard(kp_msg@) {
                Some(e) => r == Err::<(), TwoMlsPqError>(e) && *final(self) == *old(self),
                None => {
                    let s = begun(*old(self), BlobKind::Checkpoint);
                    if s.send_group is None {
                        &&& r == Err::<(), TwoMlsPqError>(TwoMlsPqError::SessionNotReady)
                        &&& *final(self) == s
                    } else {
                        match created {
                            Err(e) => r == Err::<(), TwoMlsPqError>(e) && *final(self) == s,
                            Ok(c) => {
                                &&& r is Ok
                                &&& *final(self) == (TwoMlsPqSession {
                                    send_group: s.with_send_pq(c.half),
                                    pq_inflight: Some(PqInflight::BootstrapResponded),
                                    pending_side_band: final(self).pending_side_band,
                                    recv_header_keys_pq: final(self).recv_header_keys_pq,
                                    ..s
                                })
                                &&& final(self).pending_side_band matches Some(kept)
                                &&& kept.frame@ == seq![PQ_BOOTSTRAP_WELCOME_TAG] + c.welcome@
                                &&& kept.seal is None
                                &&& keys(final(self).recv_header_keys_pq@)
                                    == s.header_keys_recorded(s.with_send_pq(c.half))
                            },
                        }
                    }
                },
            },
    {
        match self.pq_bootstrap_respond_plan(kp_msg) {
            Err(e) => return Err(e),
            Ok(_) => {},
        }
        self.begin_mutation(BlobKind::Checkpoint);
        if self.send_group.is_none() {
            return Err(TwoMlsPqError::SessionNotReady);
        }
        let CreatedHalf { half, welcome } = match created {
            Err(e) => return Err(e),
            Ok(c) => c,
        };
        match self.send_group.take() {
            None => {},
            Some(g) => {
                self.send_group = Some(
                    CombinerGroup {
                        classical: g.classical,
                        pq: Some(half),
                        app_binding: g.app_binding,
                    },
                );
            },
        }
        self.pq_inflight = Some(PqInflight::BootstrapResponded);
        self.pending_side_band = Some(
            RetainedFrame::unsealed(encode_bootstrap_welcome(welcome)),
        );
        self.record_pq_header_key();
        Ok(())
    }
}

/// What closing the bootstrap asks of the host, in order.
#[derive(Debug)]
pub struct BootstrapBindPlan {
    /// The private half of the committed key package, to be made available for the join.
    pub key_package_secret: Option<Vec<u8>>,
    /// Join the receive group's PQ half from this, then export its cross-party PSK.
    pub welcome: Vec<u8>,
    /// Inject that PSK into the send group's PQ half with this attestation; an error means
    /// not to.
    pub attestation: Result<ApqInfoUpdate>,
}

/// What the steps of closing the bootstrap gave.
#[derive(Debug)]
pub struct BootstrapBindOutcome {
    /// The joined half, checked against its classical partner.
    pub joined: Result<GroupHalf>,
    pub secret: Result<()>,
    pub commit: Result<PqCommitOutput>,
}

impl TwoMlsPqSession {
    /// Why a bootstrap's welcome is not joined.
    pub open spec fn bootstrap_bind_guard(&self, blob: Seq<u8>) -> Option<TwoMlsPqError> {
        match payload_of(opened_or_raw(*self, blob), PQ_BOOTSTRAP_WELCOME_TAG) {
            None => Some(TwoMlsPqError::Mls),
            Some(welcome) => match welcome_suite_check(welcome, self.suite.pq) {
                Err(e) => Some(e),
                Ok(()) => if self.pq_inflight != Some(PqInflight::BootstrapInitiated) {
                    Some(TwoMlsPqError::SessionNotReady)
                } else if has_pq(self.recv_group) {
                    Some(TwoMlsPqError::DuplicateSideBand)
                } else if self.bind_blocked() {
                    Some(TwoMlsPqError::SessionNotReady)
                } else {
                    None
                },
            },
        }
    }

    /// What closing the bootstrap asks of the host.
    pub fn pq_bootstrap_bind_plan(&self, welcome_msg: Vec<u8>) -> (r: Result<BootstrapBindPlan>)
        ensures
            match self.bootstrap_bind_guard(welcome_msg@) {
                Some(e) => r == Err::<BootstrapBindPlan, TwoMlsPqError>(e),
                None => {
                    &&& r matches Ok(plan)
                    &&& opt_bytes(plan.key_package_secret) == opt_bytes(self.bootstrap_kp_secret)
                    &&& payload_of(
                        opened_or_raw(*self, welcome_msg@),
                        PQ_BOOTSTRAP_WELCOME_TAG,
                    ) == Some(plan.welcome@)
                    &&& plan.attestation == self.reservation()
                },
            },
    {
        let frame = self.open_or_raw(welcome_msg);
        let welcome = match decode_bootstrap_welcome(frame.as_slice()) {
            Err(e) => return Err(e),
            Ok(w) => w,
        };
        proof {
            assert(frame@.subrange(1, frame@.len() as int) =~= welcome@);
        }
        match check_welcome_suite(welcome.as_slice(), self.suite.pq) {
            Err(e) => return Err(e),
            Ok(()) => {},
        }
        match &self.pq_inflight {
            Some(PqInflight::BootstrapInitiated) => {},
            _ => return Err(TwoMlsPqError::SessionNotReady),
        }
        let up = match &self.recv_group {
            Some(recv) => recv.pq.is_some(),
            None => false,
        };
        if up {
            return Err(TwoMlsPqError::DuplicateSideBand);
        }
        if self.pending_proposal_hash.is_some() || self.owed_bind.is_some() {
            return Err(TwoMlsPqError::SessionNotReady);
        }
        Ok(
            BootstrapBindPlan {
                key_package_secret: copy_opt(&self.bootstrap_kp_secret),
                welcome,
                attestation: self.reserve(),
            },
        )
    }

    /// Where joining a bootstrap's welcome ends: the first error and the state there, or none
    /// and the state that the bind is then made in.
    pub open spec fn bootstrap_joined(&self, out: BootstrapBindOutcome) -> (
        Option<TwoMlsPqError>,
        TwoMlsPqSession,
    ) {
        if self.recv_group is None {
            (Some(TwoMlsPqError::SessionNotReady), *self)
        } else {
            match out.joined {
                Err(e) => (Some(e), *self),
                Ok(half) => {
                    let joined = TwoMlsPqSession {
                        recv_group: self.with_recv_pq(half),
                        bootstrap_kp_secret: None,
                        ..*self
                    };
                    match out.secret {
                        Err(e) => (Some(e), joined),
                        Ok(()) => (
                            None,
                            TwoMlsPqSession { last_cross_injected_pq: Some(half.epoch), ..joined },
                        ),
                    }
                },
            }
        }
    }

    /// Close the bootstrap: join the peer's new PQ half, and bind the secret that only its
    /// members can derive.
    pub fn pq_bootstrap_bind(&mut self, welcome_msg: Vec<u8>, out: BootstrapBindOutcome) -> (r:
        Result<()>)
        requires
            old(self).wf(),
        ensures
            final(self).wf(),
            old(self).sound() ==> final(self).sound(),
            old(self).live() && is_pq_commit(*old(self), out.commit) ==> final(self).live(),
            final(self).since(*old(self)),
            old(self).side_band_settled() && r is Ok ==> final(self).side_band_settled(),
            match old(self).bootstrap_bind_guard(welcome_msg@) {
                Some(e) => r == Err::<(), TwoMlsPqError>(e) && *final(self) == *old(self),
                None => {
                    let (error, at) = begun(*old(self), BlobKind::Checkpoint).bootstrap_joined(out);
                    match error {
                        Some(e) => r == Err::<(), TwoMlsPqError>(e) && *final(self) == at,
                        None => at.closed_by_bind(out.commit, *final(self), r),
                    }
                },
            },
    {
        match self.pq_bootstrap_bind_plan(welcome_msg) {
            Err(e) => return Err(e),
            Ok(_) => {},
        }
        let BootstrapBindOutcome { joined, secret, commit } = out;
        self.begin_mutation(BlobKind::Checkpoint);
        if self.recv_group.is_none() {
            return Err(TwoMlsPqError::SessionNotReady);
        }
        let half = match joined {
            Err(e) => return Err(e),
            Ok(half) => half,
        };
        match self.recv_group.take() {
            None => {},
            Some(g) => {
                self.recv_group = Some(
                    CombinerGroup {
                        classical: g.classical,
                        pq: Some(half),
                        app_binding: g.app_binding,
                    },
                );
            },
        }
        match self.bootstrap_kp_secret.take() {
            None => {},
            Some(secret_bytes) => {
                let mut secret_bytes = secret_bytes;
                wipe(&mut secret_bytes);
            },
        }
        match self.export_cross_from_recv_pq(secret) {
            Err(e) => return Err(e),
            Ok(()) => {},
        }
        self.close_with_bind(commit)
    }
}

} // verus!
