//! Preparing a round: whether to commit in the own send group, and which update to propose
//! in the peer's.
//!
//! `prepare_plan` says which group operations the host is to carry out, in order, stopping at
//! the first that fails; `prepare_to_encrypt` takes what they gave and settles the session's
//! state. What an operation spent before a later one failed stays spent.

use vstd::prelude::*;
use crate::bytes::{
    all_bytes, bytes_eq, contains_bytes, copy_bytes, first_byte, opt_bytes, starts_with,
};
use crate::types::{opt_id, ClientId};
use super::error::{Result, TwoMlsPqError};
use super::frames::{
    encode_apq_private_message, parts2, tagged, APQ_PRIVATE_MESSAGE_TAG, APQ_TAG,
};
use super::persist::begun;
use super::providers::{mls_epoch_of, mls_message_epoch, sha256, sha256_of};
use super::state::{
    classical_epoch_of, classical_exports, keys, ledger_has, push_step, steps, ApqInfoUpdate,
    AuthKind, BlobKind, CombinerGroup, ExportedPsk, GroupHalf, OwedBind, PeerProposal,
    PrincipalState, PskEntry, PskRef, StagedProposal, TwoMlsPqSession, CANDIDATE_WINDOW,
    SEND_PSK_WINDOW,
};
use super::windows::{ledger_with, listen_recorded, remember_error, retired_with};

verus! {

/// Why the host's MLS layer refused an operation.
#[derive(Debug, Clone, Copy, PartialEq, Eq, Structural)]
pub enum MlsRefusal {
    /// The new credential is no valid successor of the old one.
    InvalidSuccessor,
    /// The authentication service refused a credential.
    IdentityProvider,
    /// Anything else.
    Other,
}

/// The error that a refused group operation is reported as.
pub open spec fn refusal_error(refusal: MlsRefusal) -> TwoMlsPqError {
    match refusal {
        MlsRefusal::InvalidSuccessor => TwoMlsPqError::CredentialRejected,
        MlsRefusal::IdentityProvider => TwoMlsPqError::CredentialRejected,
        MlsRefusal::Other => TwoMlsPqError::Mls,
    }
}

/// Report a refusal of a credential as such: it can succeed later, once the app authorizes
/// the credential.
pub fn map_credential_err(refusal: MlsRefusal) -> (r: TwoMlsPqError)
    ensures
        r == refusal_error(refusal),
{
    match refusal {
        MlsRefusal::InvalidSuccessor | MlsRefusal::IdentityProvider => {
            TwoMlsPqError::CredentialRejected
        },
        MlsRefusal::Other => TwoMlsPqError::Mls,
    }
}

// ---- the decisions ----

impl TwoMlsPqSession {
    /// The license to commit without a fold: the peer has applied our send group's current
    /// epoch, so nothing of ours is outstanding.
    pub open spec fn licensed(&self) -> bool {
        match self.send_group {
            Some(g) => self.peer_applied_send_epoch matches Some(applied) && applied
                >= g.classical.epoch,
            None => false,
        }
    }

    /// Whether the next round commits: it folds an approved proposal, or discharges an owed
    /// bind under the license.
    pub open spec fn commits(&self) -> bool {
        self.queued_proposal is Some || (self.owed_bind is Some && self.licensed())
    }

    /// Whether a commit has new entropy of the peer to bind: the receive group has moved
    /// since the last time.
    pub open spec fn cross_due(&self) -> bool {
        classical_epoch_of(self.recv_group) != self.last_cross_injected
    }

    /// Whether the send group's own leaf still carries another id than the session runs
    /// under.
    pub open spec fn handoff_due(&self) -> bool {
        self.send_group matches Some(g) && g.classical.my_leaf@ != self.client_id@
    }

    /// Whether a deferred rotation is taken up: nothing else was selected, and there is room.
    pub open spec fn promotes(&self, selected: Option<Seq<u8>>) -> bool {
        &&& selected is None
        &&& self.deferred_candidate is Some
        &&& self.staged_candidates@.len() < CANDIDATE_WINDOW
    }

    /// The candidate that the round proposes, if any.
    pub open spec fn chosen(&self, selected: Option<Seq<u8>>) -> Option<Seq<u8>> {
        if self.promotes(selected) {
            opt_bytes(self.deferred_candidate)
        } else {
            selected
        }
    }

    /// Whether the chosen candidate, if there is one, is in flight by the time it is
    /// proposed.
    pub open spec fn chosen_is_staged(&self, selected: Option<Seq<u8>>) -> bool {
        ||| self.promotes(selected)
        ||| selected is None
        ||| selected matches Some(id) && all_bytes(self.staged_candidates@).contains(id)
    }

    /// Whether the proposal carries an identity: a candidate's, or the session's own while
    /// the receive group's leaf lags behind it.
    pub open spec fn proposes_identity(&self, selected: Option<Seq<u8>>) -> bool {
        ||| self.chosen(selected) is Some
        ||| self.recv_group matches Some(g) && g.classical.my_leaf@ != self.client_id@
    }

    /// Why an owed bind cannot be discharged: its reserved epochs no longer hold.
    pub open spec fn reservation_error(&self, owed: OwedBind) -> Option<TwoMlsPqError> {
        match self.send_group {
            None => Some(TwoMlsPqError::SessionNotReady),
            Some(g) => match g.pq {
                None => Some(TwoMlsPqError::SessionNotReady),
                Some(pq) => if g.classical.epoch + 1 != owed.t_epoch || pq.epoch
                    != owed.pq_epoch {
                    Some(TwoMlsPqError::EpochDesync)
                } else {
                    None
                },
            },
        }
    }

    /// Whether the peer has applied our send group's current epoch.
    pub fn peer_applied_our_send_epoch(&self) -> (r: Result<bool>)
        ensures
            r == match self.send_group {
                Some(_) => Ok::<bool, TwoMlsPqError>(self.licensed()),
                None => Err(TwoMlsPqError::SessionNotReady),
            },
    {
        match &self.send_group {
            None => Err(TwoMlsPqError::SessionNotReady),
            Some(send) => Ok(
                match self.peer_applied_send_epoch {
                    Some(applied) => applied >= send.classical.epoch,
                    None => false,
                },
            ),
        }
    }

    /// Check the reservation of an owed bind against the groups as they are.
    fn check_reservation(&self, owed: &OwedBind) -> (r: Result<()>)
        ensures
            r == match self.reservation_error(*owed) {
                Some(e) => Err::<(), TwoMlsPqError>(e),
                None => Ok(()),
            },
    {
        match &self.send_group {
            None => Err(TwoMlsPqError::SessionNotReady),
            Some(send) => match &send.pq {
                None => Err(TwoMlsPqError::SessionNotReady),
                Some(pq) => {
                    if send.classical.epoch == u64::MAX || send.classical.epoch + 1 != owed.t_epoch
                        || pq.epoch != owed.pq_epoch {
                        Err(TwoMlsPqError::EpochDesync)
                    } else {
                        Ok(())
                    }
                },
            },
        }
    }
}

// ---- the plan ----

/// The commit that the host is to build in the send group. The steps are in order.
#[derive(Debug)]
pub struct CommitPlan {
    /// Export the departing epoch's PSK, which a peer frame in flight may refer to.
    pub export_departing: bool,
    /// Export the receive group's cross-party PSK and bind it into the commit.
    pub export_cross: bool,
    /// Apply this approved proposal of the peer, so that the commit folds exactly it.
    pub fold: Option<Vec<u8>>,
    /// Export the owed bind's PSK, and bind it and this attestation into the commit; an
    /// error means to stop here.
    pub bind: Option<Result<ApqInfoUpdate>>,
    /// Move the own leaf to the id that the session runs under.
    pub handoff: bool,
}

/// The identity that the proposed update carries.
#[derive(Debug, PartialEq, Eq)]
pub enum ProposedIdentity {
    /// A rotation candidate's.
    Candidate { id: Vec<u8> },
    /// The one that the session runs under, which the leaf lags behind.
    Current,
    /// The leaf's own, with fresh keys.
    Unchanged,
}

/// What the host is to carry out for a round.
#[derive(Debug)]
pub enum PreparePlan {
    /// Nothing: no receive group exists to propose into.
    PreEstablishment,
    Ratchet {
        commit: Option<CommitPlan>,
        /// Mint the principal of this candidate first.
        mint: Option<Vec<u8>>,
        /// Propose an update of this identity; an error means not to.
        identity: Result<ProposedIdentity>,
    },
}

/// Whether `plan` is the commit that the session's next round makes.
pub open spec fn is_commit_plan(s: TwoMlsPqSession, plan: CommitPlan) -> bool {
    &&& plan.export_departing == s.spec_needs_send_psk()
    &&& plan.export_cross == s.cross_due()
    &&& opt_bytes(plan.fold) == match s.queued_proposal {
        Some(p) => Some(p.message@),
        None => None,
    }
    &&& plan.bind == match s.owed_bind {
        None => None::<Result<ApqInfoUpdate>>,
        Some(owed) => match s.reservation_error(owed) {
            Some(e) => Some(Err(e)),
            None => Some(Ok(ApqInfoUpdate { t_epoch: owed.t_epoch, pq_epoch: owed.pq_epoch })),
        },
    }
    &&& plan.handoff == s.handoff_due()
}

/// Whether `identity` is what the session's next round proposes.
pub open spec fn is_proposed_identity(
    s: TwoMlsPqSession,
    selected: Option<Seq<u8>>,
    identity: Result<ProposedIdentity>,
) -> bool {
    if !s.chosen_is_staged(selected) {
        identity == Err::<ProposedIdentity, TwoMlsPqError>(TwoMlsPqError::SessionNotReady)
    } else {
        match s.chosen(selected) {
            Some(id) => identity matches Ok(ProposedIdentity::Candidate { id: proposed })
                && proposed@ == id,
            None => if s.proposes_identity(selected) {
                identity matches Ok(ProposedIdentity::Current)
            } else {
                identity matches Ok(ProposedIdentity::Unchanged)
            },
        }
    }
}

impl TwoMlsPqSession {
    /// The commit of the next round.
    fn commit_plan(&self) -> (r: CommitPlan)
        ensures
            is_commit_plan(*self, r),
    {
        let export_cross = match &self.recv_group {
            None => self.last_cross_injected.is_some(),
            Some(recv) => match self.last_cross_injected {
                Some(at) => at != recv.classical.epoch,
                None => true,
            },
        };
        let bind = match &self.owed_bind {
            None => None,
            Some(owed) => match self.check_reservation(owed) {
                Err(e) => Some(Err(e)),
                Ok(()) => Some(
                    Ok(ApqInfoUpdate { t_epoch: owed.t_epoch, pq_epoch: owed.pq_epoch }),
                ),
            },
        };
        let handoff = match &self.send_group {
            None => false,
            Some(send) => !bytes_eq(
                send.classical.my_leaf.as_slice(),
                self.client_id.bytes.as_slice(),
            ),
        };
        CommitPlan {
            export_departing: self.needs_send_psk(),
            export_cross,
            fold: match &self.queued_proposal {
                Some(p) => Some(copy_bytes(p.message.as_slice())),
                None => None,
            },
            bind,
            handoff,
        }
    }

    /// The identity that the next round proposes.
    fn proposed_identity(&self, selected: &Option<ClientId>) -> (r: Result<ProposedIdentity>)
        ensures
            is_proposed_identity(*self, opt_id(*selected), r),
    {
        match selected {
            Some(id) => {
                if contains_bytes(&self.staged_candidates, id.bytes.as_slice()) {
                    Ok(ProposedIdentity::Candidate { id: copy_bytes(id.bytes.as_slice()) })
                } else {
                    Err(TwoMlsPqError::SessionNotReady)
                }
            },
            None => {
                if self.staged_candidates.len() < CANDIDATE_WINDOW {
                    match &self.deferred_candidate {
                        Some(id) => return Ok(
                            ProposedIdentity::Candidate { id: copy_bytes(id.as_slice()) },
                        ),
                        None => {},
                    }
                }
                match &self.recv_group {
                    Some(recv) => {
                        if bytes_eq(
                            recv.classical.my_leaf.as_slice(),
                            self.client_id.bytes.as_slice(),
                        ) {
                            Ok(ProposedIdentity::Unchanged)
                        } else {
                            Ok(ProposedIdentity::Current)
                        }
                    },
                    None => Ok(ProposedIdentity::Unchanged),
                }
            },
        }
    }

    /// What the host is to carry out for a round that proposes `selected`, or what is due.
    pub fn prepare_plan(&self, selected: &Option<ClientId>) -> (r: Result<PreparePlan>)
        ensures
            if self.recv_group is None {
                match r {
                    Ok(p) => p == PreparePlan::PreEstablishment && self.can_prepare_envelope(
                        opt_id(*selected),
                    ),
                    Err(e) => e == TwoMlsPqError::SessionNotReady && !self.can_prepare_envelope(
                        opt_id(*selected),
                    ),
                }
            } else if self.send_group is None {
                r == Err::<PreparePlan, TwoMlsPqError>(TwoMlsPqError::SessionNotReady)
            } else {
                &&& r matches Ok(PreparePlan::Ratchet { commit, mint, identity })
                &&& commit is Some <==> self.commits()
                &&& commit matches Some(plan) ==> is_commit_plan(*self, plan)
                &&& opt_bytes(mint) == if self.promotes(opt_id(*selected)) {
                    opt_bytes(self.deferred_candidate)
                } else {
                    None
                }
                &&& is_proposed_identity(*self, opt_id(*selected), identity)
            },
    {
        if self.recv_group.is_none() {
            if selected.is_some() || self.initial_their_kp.is_none() || !starts_with(
                self.current_staple.as_slice(),
                APQ_TAG,
            ) {
                return Err(TwoMlsPqError::SessionNotReady);
            }
            return Ok(PreparePlan::PreEstablishment);
        }
        let licensed = match self.peer_applied_our_send_epoch() {
            Err(e) => return Err(e),
            Ok(licensed) => licensed,
        };
        let commit = if self.queued_proposal.is_some() || (self.owed_bind.is_some() && licensed) {
            Some(self.commit_plan())
        } else {
            None
        };
        let mint = if selected.is_none() && self.staged_candidates.len() < CANDIDATE_WINDOW {
            match &self.deferred_candidate {
                Some(id) => Some(copy_bytes(id.as_slice())),
                None => None,
            }
        } else {
            None
        };
        let identity = self.proposed_identity(selected);
        Ok(PreparePlan::Ratchet { commit, mint, identity })
    }

    /// Whether a round before the receive group exists can be prepared: nothing is selected,
    /// for there is no group to propose into, and the paired `encrypt` can compose an
    /// envelope.
    pub open spec fn can_prepare_envelope(&self, selected: Option<Seq<u8>>) -> bool {
        &&& selected is None
        &&& self.initial_their_kp is Some
        &&& first_byte(self.current_staple@) == Some(APQ_TAG)
    }
}

// ---- settling ----

/// What building and applying a commit in the send group gave.
#[derive(Debug)]
pub struct CommitOutput {
    /// The classical half as the commit left it.
    pub half: GroupHalf,
    /// Whether the group still has exactly two members.
    pub two_party: bool,
    /// The encoded commit.
    pub message: Option<Vec<u8>>,
}

/// What the steps of the commit gave, once the fold is in.
#[derive(Debug)]
pub struct CommitOutcome {
    /// Exporting the owed bind's PSK.
    pub bind_psk: Result<()>,
    /// Building and applying the commit.
    pub built: std::result::Result<CommitOutput, MlsRefusal>,
    /// The PSK of the epoch that the commit made.
    pub new_psk: Result<ExportedPsk>,
}

/// What the steps of proposing the update gave.
#[derive(Debug)]
pub struct UpdateOutcome {
    /// Minting the candidate's principal.
    pub minted: Result<()>,
    /// The encoded update proposal.
    pub message: std::result::Result<Vec<u8>, MlsRefusal>,
}

/// What the steps of the committing part of a round gave.
#[derive(Debug)]
pub struct RoundOutcome {
    pub departing_psk: Result<ExportedPsk>,
    pub cross_psk: Result<()>,
    pub fold: std::result::Result<(), MlsRefusal>,
    pub commit: CommitOutcome,
}

/// What the steps of a plan gave. A step that was not in the plan, or not reached, is not
/// looked at.
#[derive(Debug)]
pub struct PrepareOutcome {
    pub round: RoundOutcome,
    pub update: UpdateOutcome,
}

/// A prepared round.
#[derive(Debug, Clone, PartialEq, Eq)]
pub struct PrepareEncryptResult {
    pub proposal_message: Vec<u8>,
    pub proposal_hash: Vec<u8>,
    /// The peer's id that this round's commit made canonical; present only on a fold.
    pub committed_remote_client_id: Option<ClientId>,
    pub did_commit: bool,
}

/// The steps at which preparing a round can fail, in order.
#[derive(Debug, Clone, Copy, PartialEq, Eq, Structural)]
pub enum PrepareStep {
    Departing,
    Cross,
    Fold,
    Reservation,
    BindExport,
    Commit,
    Roster,
    NewPsk,
    Encoding,
    Mint,
    Selection,
    Proposal,
}

impl PrepareStep {
    /// The step's place in the order.
    pub open spec fn place(self) -> int {
        match self {
            PrepareStep::Departing => 1,
            PrepareStep::Cross => 2,
            PrepareStep::Fold => 3,
            PrepareStep::Reservation => 4,
            PrepareStep::BindExport => 5,
            PrepareStep::Commit => 6,
            PrepareStep::Roster => 7,
            PrepareStep::NewPsk => 8,
            PrepareStep::Encoding => 9,
            PrepareStep::Mint => 10,
            PrepareStep::Selection => 11,
            PrepareStep::Proposal => 12,
        }
    }
}

/// Where a round stops, and the error there.
pub type PrepareStop = Option<(PrepareStep, TwoMlsPqError)>;

/// Whether a round gets past a step.
pub open spec fn past(stop: PrepareStop, step: PrepareStep) -> bool {
    match stop {
        Some((at, _)) => at.place() > step.place(),
        None => true,
    }
}

/// Where the commit itself stops, once the fold is in. `ledger` is the ledger by then.
pub open spec fn commit_stop(
    s: TwoMlsPqSession,
    ledger: Seq<PskEntry>,
    out: CommitOutcome,
) -> PrepareStop {
    if s.owed_bind matches Some(owed) && s.reservation_error(owed) is Some {
        Some((PrepareStep::Reservation, s.reservation_error(s.owed_bind->0)->0))
    } else if s.owed_bind is Some && out.bind_psk is Err {
        Some((PrepareStep::BindExport, out.bind_psk->Err_0))
    } else {
        match out.built {
            Err(refusal) => Some((PrepareStep::Commit, refusal_error(refusal))),
            Ok(c) => if !c.two_party {
                Some((PrepareStep::Roster, TwoMlsPqError::Mls))
            } else {
                match remember_error(ledger, c.half.epoch, out.new_psk) {
                    Some(e) => Some((PrepareStep::NewPsk, e)),
                    None => if c.message is None {
                        Some((PrepareStep::Encoding, TwoMlsPqError::Mls))
                    } else {
                        None
                    },
                }
            },
        }
    }
}

/// Where proposing the update stops.
pub open spec fn propose_stop(
    s: TwoMlsPqSession,
    selected: Option<Seq<u8>>,
    out: UpdateOutcome,
) -> PrepareStop {
    if s.promotes(selected) && out.minted is Err {
        Some((PrepareStep::Mint, out.minted->Err_0))
    } else if !s.chosen_is_staged(selected) {
        Some((PrepareStep::Selection, TwoMlsPqError::SessionNotReady))
    } else {
        match out.message {
            Err(refusal) => Some(
                (
                    PrepareStep::Proposal,
                    if s.proposes_identity(selected) {
                        refusal_error(refusal)
                    } else {
                        TwoMlsPqError::Mls
                    },
                ),
            ),
            Ok(_) => None,
        }
    }
}

/// The ledger once the departing epoch's PSK is in it.
pub open spec fn departing_ledger(
    s: TwoMlsPqSession,
    out: RoundOutcome,
) -> Seq<PskEntry> {
    ledger_with(s.send_psk_ledger@, s.send_group->0.classical.epoch, out.departing_psk)
}

/// The retired ids by then.
pub open spec fn departing_retired(
    s: TwoMlsPqSession,
    out: RoundOutcome,
) -> Seq<PskRef> {
    retired_with(
        s.send_psk_ledger@,
        s.retired_send_psks@,
        s.send_group->0.classical.epoch,
        out.departing_psk,
    )
}

/// Where the committing part of a round stops. Any failure of the commit itself while a bind
/// is being discharged is fatal, for the reservation is spent.
pub open spec fn round_stop(
    s: TwoMlsPqSession,
    folded: Option<PeerProposal>,
    out: RoundOutcome,
) -> PrepareStop {
    match remember_error(
        s.send_psk_ledger@,
        s.send_group->0.classical.epoch,
        out.departing_psk,
    ) {
        Some(e) => Some((PrepareStep::Departing, e)),
        None => if s.cross_due() && out.cross_psk is Err {
            Some((PrepareStep::Cross, out.cross_psk->Err_0))
        } else if folded is Some && mls_epoch_of(folded->0.message@) is None {
            Some((PrepareStep::Fold, TwoMlsPqError::Mls))
        } else if folded is Some && out.fold is Err {
            Some((PrepareStep::Fold, refusal_error(out.fold->Err_0)))
        } else {
            match commit_stop(s, departing_ledger(s, out), out.commit) {
                Some((at, e)) => Some(
                    (
                        at,
                        if s.owed_bind is Some {
                            TwoMlsPqError::BindDischargeFailed
                        } else {
                            e
                        },
                    ),
                ),
                None => None,
            }
        },
    }
}

/// Where a round of an established session stops.
pub open spec fn prepare_stop(
    s: TwoMlsPqSession,
    selected: Option<Seq<u8>>,
    out: PrepareOutcome,
) -> PrepareStop {
    if s.commits() && round_stop(s, s.queued_proposal, out.round) is Some {
        round_stop(s, s.queued_proposal, out.round)
    } else {
        propose_stop(s, selected, out.update)
    }
}

/// Whether folding `folded` moves the peer's id.
pub open spec fn moves_peer(s: TwoMlsPqSession, folded: Option<PeerProposal>) -> bool {
    folded is Some && folded->0.proposing@ != s.their_state@.0
}

/// What the commit puts into the staple: the commit, with the PQ commit it binds if it
/// discharged one.
pub open spec fn staple_of(owed: Option<OwedBind>, message: Seq<u8>) -> Seq<u8> {
    match owed {
        Some(o) => tagged(APQ_PRIVATE_MESSAGE_TAG, parts2(message, o.pq_commit@)),
        None => message,
    }
}

/// The step that folding `folded` takes in the peer's credential sequence.
pub open spec fn fold_steps(
    s: TwoMlsPqSession,
    folded: Option<PeerProposal>,
) -> Seq<(AuthKind, Seq<u8>)> {
    if moves_peer(s, folded) {
        seq![(AuthKind::CommitTheirs, folded->0.proposing@)]
    } else {
        Seq::empty()
    }
}

/// Whether a commit that the host built is one: it does not set the send group back, its
/// exporters have their lengths, and it is encoded as an MLS message.
pub open spec fn is_commit(s: TwoMlsPqSession, out: CommitOutcome) -> bool {
    out.built matches Ok(c) ==> {
        &&& c.half.epoch >= s.send_group->0.classical.epoch
        &&& classical_exports(c.half)
        &&& c.message matches Some(m) ==> first_byte(m@) == Some(0u8)
    }
}

/// What a commit that stopped at `stop`, or did not, has changed of the session, by then at
/// `s`, but for the ledger.
pub open spec fn committed_but_ledger(
    s: TwoMlsPqSession,
    folded: Option<PeerProposal>,
    out: CommitOutcome,
    stop: PrepareStop,
    now: TwoMlsPqSession,
) -> bool {
    &&& now == (TwoMlsPqSession {
        send_group: now.send_group,
        send_psk_ledger: now.send_psk_ledger,
        retired_send_psks: now.retired_send_psks,
        owed_bind: None,
        pq_turn_mine: now.pq_turn_mine,
        their_state: now.their_state,
        auth_updates: now.auth_updates,
        current_staple: now.current_staple,
        current_staple_seq: now.current_staple_seq,
        offered_proposal: now.offered_proposal,
        ..s
    })
    &&& now.pq_turn_mine == if s.owed_bind is Some && past(stop, PrepareStep::BindExport) {
        false
    } else {
        s.pq_turn_mine
    }
    &&& now.send_group == if past(stop, PrepareStep::Commit) {
        Some(CombinerGroup { classical: out.built->Ok_0.half, ..s.send_group->0 })
    } else {
        s.send_group
    }
    &&& if past(stop, PrepareStep::Roster) {
        &&& now.their_state@ == if moves_peer(s, folded) {
            (folded->0.proposing@, None)
        } else {
            s.their_state@
        }
        &&& steps(now.auth_updates@) == steps(s.auth_updates@) + fold_steps(s, folded)
    } else {
        now.their_state == s.their_state && now.auth_updates == s.auth_updates
    }
    &&& if past(stop, PrepareStep::Encoding) {
        &&& now.current_staple@ == staple_of(s.owed_bind, out.built->Ok_0.message->0@)
        &&& now.current_staple_seq == s.state_seq
        &&& now.offered_proposal is None
    } else {
        &&& now.current_staple == s.current_staple
        &&& now.current_staple_seq == s.current_staple_seq
        &&& now.offered_proposal == s.offered_proposal
    }
}

/// What a commit that stopped at `stop`, or did not, has changed of the session, by then at
/// `s`.
pub open spec fn committed(
    s: TwoMlsPqSession,
    folded: Option<PeerProposal>,
    out: CommitOutcome,
    stop: PrepareStop,
    now: TwoMlsPqSession,
) -> bool {
    &&& committed_but_ledger(s, folded, out, stop, now)
    &&& if past(stop, PrepareStep::NewPsk) {
        let epoch = out.built->Ok_0.half.epoch;
        &&& now.send_psk_ledger@ == ledger_with(s.send_psk_ledger@, epoch, out.new_psk)
        &&& now.retired_send_psks@ == retired_with(
            s.send_psk_ledger@,
            s.retired_send_psks@,
            epoch,
            out.new_psk,
        )
    } else {
        &&& now.send_psk_ledger@ == s.send_psk_ledger@
        &&& now.retired_send_psks@ == s.retired_send_psks@
    }
}

impl TwoMlsPqSession {
    /// The classical half of an owed bind: check its reservation, and pass the turn once its
    /// PSK is exported. The bind is no longer owed, whatever comes of it.
    fn discharge_owed_bind(&mut self, bind_psk: Result<()>) -> (r: Result<Option<Vec<u8>>>)
        ensures
            *final(self) == (TwoMlsPqSession {
                owed_bind: None,
                pq_turn_mine: final(self).pq_turn_mine,
                ..*old(self)
            }),
            old(self).wf() ==> final(self).wf(),
            old(self).sound() ==> final(self).sound(),
            old(self).live() ==> final(self).live(),
            old(self).wf() ==> final(self).since(*old(self)),
            old(self).side_band_settled() && r is Ok ==> final(self).side_band_settled(),
            match old(self).owed_bind {
                None => r matches Ok(None) && final(self).pq_turn_mine == old(self).pq_turn_mine,
                Some(owed) => match old(self).reservation_error(owed) {
                    Some(e) => r == Err::<Option<Vec<u8>>, TwoMlsPqError>(e)
                        && final(self).pq_turn_mine == old(self).pq_turn_mine,
                    None => match bind_psk {
                        Err(e) => r == Err::<Option<Vec<u8>>, TwoMlsPqError>(e)
                            && final(self).pq_turn_mine == old(self).pq_turn_mine,
                        Ok(()) => r matches Ok(Some(c)) && c == owed.pq_commit
                            && !final(self).pq_turn_mine,
                    },
                },
            },
    {
        match self.owed_bind.take() {
            None => Ok(None),
            Some(owed) => {
                match self.check_reservation(&owed) {
                    Err(e) => return Err(e),
                    Ok(()) => {},
                }
                match bind_psk {
                    Err(e) => return Err(e),
                    Ok(()) => {},
                }
                self.pq_turn_mine = false;
                Ok(Some(owed.pq_commit))
            },
        }
    }

    /// The destructive part of a committing round: discharge an owed bind, take the send
    /// group past the commit, canonicalize the folded credential, and set the staple.
    fn discharge_and_commit(
        &mut self,
        folded: &Option<PeerProposal>,
        out: CommitOutcome,
    ) -> (r: Result<()>)
        requires
            old(self).wf(),
            old(self).send_group is Some,
        ensures
            final(self).wf(),
            old(self).sound() ==> final(self).sound(),
            old(self).live() && is_commit(*old(self), out) ==> final(self).live(),
            final(self).since(*old(self)),
            old(self).side_band_settled() && r is Ok ==> final(self).side_band_settled(),
            ({
                let stop = commit_stop(*old(self), old(self).send_psk_ledger@, out);
                &&& r == match stop {
                    Some((_, e)) => Err::<(), TwoMlsPqError>(e),
                    None => Ok(()),
                }
                &&& committed(*old(self), *folded, out, stop, *final(self))
            }),
    {
        let CommitOutcome { bind_psk, built, new_psk } = out;
        let pq_commit = match self.discharge_owed_bind(bind_psk) {
            Err(e) => return Err(e),
            Ok(c) => c,
        };
        let CommitOutput { half, two_party, message } = match built {
            Err(refusal) => return Err(map_credential_err(refusal)),
            Ok(c) => c,
        };
        match self.send_group.take() {
            Some(g) => {
                self.send_group = Some(
                    CombinerGroup { classical: half, pq: g.pq, app_binding: g.app_binding },
                );
            },
            None => {},
        }
        if !two_party {
            return Err(TwoMlsPqError::Mls);
        }
        match folded {
            Some(p) => {
                let theirs = self.their_state.client_id();
                if !bytes_eq(p.proposing.as_slice(), theirs.bytes.as_slice()) {
                    push_step(
                        &mut self.auth_updates,
                        AuthKind::CommitTheirs,
                        p.proposing.as_slice(),
                    );
                    self.their_state = PrincipalState::Sync {
                        client_id: ClientId { bytes: copy_bytes(p.proposing.as_slice()) },
                    };
                }
            },
            None => {},
        }
        proof {
            assert(steps(self.auth_updates@) =~= steps(old(self).auth_updates@) + fold_steps(
                *old(self),
                *folded,
            ));
        }
        match self.remember_send_psk(new_psk) {
            Err(e) => return Err(e),
            Ok(()) => {},
        }
        let cl_commit = match message {
            None => return Err(TwoMlsPqError::Mls),
            Some(m) => m,
        };
        self.current_staple = match pq_commit {
            Some(pq) => encode_apq_private_message(cl_commit, pq),
            None => cl_commit,
        };
        self.current_staple_seq = self.state_seq;
        self.offered_proposal = None;
        Ok(())
    }
}

/// The step that taking up a deferred rotation takes in our credential sequence.
pub open spec fn promotion_steps(
    s: TwoMlsPqSession,
    selected: Option<Seq<u8>>,
) -> Seq<(AuthKind, Seq<u8>)> {
    if s.promotes(selected) {
        seq![(AuthKind::AuthorizeMine, s.deferred_candidate->0@)]
    } else {
        Seq::empty()
    }
}

/// What proposing the update changed of the session `s`, where it stopped at `stop` or did
/// not.
pub open spec fn proposed(
    s: TwoMlsPqSession,
    selected: Option<Seq<u8>>,
    out: UpdateOutcome,
    stop: PrepareStop,
    now: TwoMlsPqSession,
) -> bool {
    &&& now == (TwoMlsPqSession {
        deferred_candidate: now.deferred_candidate,
        staged_candidates: now.staged_candidates,
        my_state: now.my_state,
        auth_updates: now.auth_updates,
        pending_proposal_message: now.pending_proposal_message,
        pending_proposal_hash: now.pending_proposal_hash,
        ..s
    })
    &&& now.deferred_candidate == if s.promotes(selected) {
        None
    } else {
        s.deferred_candidate
    }
    &&& if past(stop, PrepareStep::Mint) {
        &&& all_bytes(now.staged_candidates@) == if s.promotes(selected) {
            all_bytes(s.staged_candidates@).push(s.deferred_candidate->0@)
        } else {
            all_bytes(s.staged_candidates@)
        }
        &&& now.my_state@ == if s.promotes(selected) {
            (s.client_id@, opt_bytes(s.deferred_candidate))
        } else {
            s.my_state@
        }
        &&& steps(now.auth_updates@) == steps(s.auth_updates@) + promotion_steps(s, selected)
    } else {
        &&& now.staged_candidates == s.staged_candidates
        &&& now.my_state == s.my_state
        &&& now.auth_updates == s.auth_updates
    }
    &&& if past(stop, PrepareStep::Proposal) {
        let message = out.message->Ok_0@;
        &&& now.pending_proposal_message matches Some(p)
        &&& p.message@ == message
        &&& p.proposing@ == match s.chosen(selected) {
            Some(id) => id,
            None => s.client_id@,
        }
        &&& opt_bytes(now.pending_proposal_hash) == Some(sha256_of(message))
    } else {
        &&& now.pending_proposal_message == s.pending_proposal_message
        &&& now.pending_proposal_hash == s.pending_proposal_hash
    }
}

impl TwoMlsPqSession {
    /// Take up a deferred rotation if one is due, and note the proposed update for the frame
    /// that will carry it.
    fn stage_update(&mut self, selected: &Option<ClientId>, out: UpdateOutcome) -> (r: Result<
        (Vec<u8>, Vec<u8>),
    >)
        requires
            old(self).wf(),
        ensures
            final(self).wf(),
            old(self).sound() ==> final(self).sound(),
            old(self).live() ==> final(self).live(),
            final(self).since(*old(self)),
            old(self).side_band_settled() && r is Ok ==> final(self).side_band_settled(),
            ({
                let stop = propose_stop(*old(self), opt_id(*selected), out);
                &&& proposed(*old(self), opt_id(*selected), out, stop, *final(self))
                &&& match stop {
                    Some((_, e)) => r == Err::<(Vec<u8>, Vec<u8>), TwoMlsPqError>(e),
                    None => {
                        &&& r matches Ok((message, hash))
                        &&& message@ == out.message->Ok_0@
                        &&& hash@ == sha256_of(message@)
                    },
                }
            }),
    {
        let UpdateOutcome { minted, message } = out;
        let identity = self.proposed_identity(selected);
        if selected.is_none() && self.staged_candidates.len() < CANDIDATE_WINDOW {
            match self.deferred_candidate.take() {
                Some(id) => {
                    match minted {
                        Err(e) => return Err(e),
                        Ok(()) => {},
                    }
                    push_step(&mut self.auth_updates, AuthKind::AuthorizeMine, id.as_slice());
                    self.my_state = PrincipalState::Pending {
                        old: self.client_id.copy(),
                        new: ClientId { bytes: copy_bytes(id.as_slice()) },
                    };
                    self.staged_candidates.push(id);
                },
                None => {},
            }
        }
        proof {
            let id = opt_id(*selected);
            assert(steps(self.auth_updates@) =~= steps(old(self).auth_updates@)
                + promotion_steps(*old(self), id));
            if old(self).promotes(id) {
                assert(all_bytes(self.staged_candidates@) =~= all_bytes(
                    old(self).staged_candidates@,
                ).push(old(self).deferred_candidate->0@));
            }
        }
        let (proposing, carries) = match identity {
            Err(e) => return Err(e),
            Ok(ProposedIdentity::Candidate { id }) => (id, true),
            Ok(ProposedIdentity::Current) => (copy_bytes(self.client_id.bytes.as_slice()), true),
            Ok(ProposedIdentity::Unchanged) => {
                (copy_bytes(self.client_id.bytes.as_slice()), false)
            },
        };
        let message = match message {
            Err(refusal) => {
                if carries {
                    return Err(map_credential_err(refusal));
                }
                return Err(TwoMlsPqError::Mls);
            },
            Ok(m) => m,
        };
        let hash = sha256(message.as_slice());
        self.pending_proposal_message = Some(
            StagedProposal { proposing, message: copy_bytes(message.as_slice()) },
        );
        self.pending_proposal_hash = Some(copy_bytes(hash.as_slice()));
        Ok((message, hash))
    }
}

/// What preparing a round of an established session changed of the session `s`, where the
/// round stopped or did not.
pub open spec fn prepared(
    s: TwoMlsPqSession,
    selected: Option<Seq<u8>>,
    out: PrepareOutcome,
    now: TwoMlsPqSession,
) -> bool {
    let stop = prepare_stop(s, selected, out);
    let folded = s.queued_proposal;
    let built = out.round.commit.built->Ok_0;
    &&& now == (TwoMlsPqSession {
        queued_proposal: None,
        send_group: now.send_group,
        send_psk_ledger: now.send_psk_ledger,
        retired_send_psks: now.retired_send_psks,
        last_cross_injected: now.last_cross_injected,
        owed_bind: now.owed_bind,
        pq_turn_mine: now.pq_turn_mine,
        their_state: now.their_state,
        auth_updates: now.auth_updates,
        current_staple: now.current_staple,
        current_staple_seq: now.current_staple_seq,
        offered_proposal: now.offered_proposal,
        deferred_candidate: now.deferred_candidate,
        staged_candidates: now.staged_candidates,
        my_state: now.my_state,
        pending_proposal_message: now.pending_proposal_message,
        pending_proposal_hash: now.pending_proposal_hash,
        ..s
    })
    // The cross-party PSK is spent once it is exported, whatever comes of the commit.
    &&& now.last_cross_injected == if s.commits() && past(stop, PrepareStep::Cross) {
        classical_epoch_of(s.recv_group)
    } else {
        s.last_cross_injected
    }
    // So is the owed bind, once the commit is begun.
    &&& now.owed_bind == if s.commits() && past(stop, PrepareStep::Fold) {
        None
    } else {
        s.owed_bind
    }
    &&& now.pq_turn_mine == if s.commits() && s.owed_bind is Some && past(
        stop,
        PrepareStep::BindExport,
    ) {
        false
    } else {
        s.pq_turn_mine
    }
    &&& now.send_group == if s.commits() && past(stop, PrepareStep::Commit) {
        Some(CombinerGroup { classical: built.half, ..s.send_group->0 })
    } else {
        s.send_group
    }
    &&& now.send_psk_ledger@ == if !s.commits() || !past(stop, PrepareStep::Departing) {
        s.send_psk_ledger@
    } else if !past(stop, PrepareStep::NewPsk) {
        departing_ledger(s, out.round)
    } else {
        ledger_with(departing_ledger(s, out.round), built.half.epoch, out.round.commit.new_psk)
    }
    &&& now.retired_send_psks@ == if !s.commits() || !past(stop, PrepareStep::Departing) {
        s.retired_send_psks@
    } else if !past(stop, PrepareStep::NewPsk) {
        departing_retired(s, out.round)
    } else {
        retired_with(
            departing_ledger(s, out.round),
            departing_retired(s, out.round),
            built.half.epoch,
            out.round.commit.new_psk,
        )
    }
    // A committed credential of the peer is the peer's id from then on.
    &&& now.their_state@ == if s.commits() && past(stop, PrepareStep::Roster) && moves_peer(
        s,
        folded,
    ) {
        (folded->0.proposing@, None)
    } else {
        s.their_state@
    }
    &&& now.current_staple@ == if s.commits() && past(stop, PrepareStep::Encoding) {
        staple_of(s.owed_bind, built.message->0@)
    } else {
        s.current_staple@
    }
    &&& now.current_staple_seq == if s.commits() && past(stop, PrepareStep::Encoding) {
        s.state_seq
    } else {
        s.current_staple_seq
    }
    &&& now.offered_proposal == if s.commits() && past(stop, PrepareStep::Encoding) {
        None
    } else {
        s.offered_proposal
    }
    // A deferred rotation is taken up after the commit.
    &&& now.deferred_candidate == if s.promotes(selected) && past(stop, PrepareStep::Encoding) {
        None
    } else {
        s.deferred_candidate
    }
    &&& all_bytes(now.staged_candidates@) == if s.promotes(selected) && past(
        stop,
        PrepareStep::Mint,
    ) {
        all_bytes(s.staged_candidates@).push(s.deferred_candidate->0@)
    } else {
        all_bytes(s.staged_candidates@)
    }
    &&& now.my_state@ == if s.promotes(selected) && past(stop, PrepareStep::Mint) {
        (s.client_id@, opt_bytes(s.deferred_candidate))
    } else {
        s.my_state@
    }
    &&& steps(now.auth_updates@) == steps(s.auth_updates@) + (if s.commits() && past(
        stop,
        PrepareStep::Roster,
    ) {
        fold_steps(s, folded)
    } else {
        Seq::empty()
    }) + (if past(stop, PrepareStep::Mint) {
        promotion_steps(s, selected)
    } else {
        Seq::empty()
    })
    &&& if past(stop, PrepareStep::Proposal) {
        let message = out.update.message->Ok_0@;
        &&& now.pending_proposal_message matches Some(p)
        &&& p.message@ == message
        &&& p.proposing@ == match s.chosen(selected) {
            Some(id) => id,
            None => s.client_id@,
        }
        &&& opt_bytes(now.pending_proposal_hash) == Some(sha256_of(message))
    } else {
        &&& now.pending_proposal_message == s.pending_proposal_message
        &&& now.pending_proposal_hash == s.pending_proposal_hash
    }
}

/// Whether `r` reports what a round of an established session gave.
pub open spec fn prepare_report(
    s: TwoMlsPqSession,
    selected: Option<Seq<u8>>,
    out: PrepareOutcome,
    r: Result<PrepareEncryptResult>,
) -> bool {
    match prepare_stop(s, selected, out) {
        Some((_, e)) => r == Err::<PrepareEncryptResult, TwoMlsPqError>(e),
        None => {
            &&& r matches Ok(p)
            &&& p.proposal_message@ == out.update.message->Ok_0@
            &&& p.proposal_hash@ == sha256_of(p.proposal_message@)
            &&& p.did_commit == s.commits()
            &&& opt_id(p.committed_remote_client_id) == match s.queued_proposal {
                Some(folded) => Some(folded.proposing@),
                None => None,
            }
        },
    }
}

/// What the committing part of a round changed of the session `s`, where it stopped at
/// `stop` or did not.
pub open spec fn round_committed(
    s: TwoMlsPqSession,
    folded: Option<PeerProposal>,
    out: RoundOutcome,
    stop: PrepareStop,
    now: TwoMlsPqSession,
) -> bool {
    let spent = TwoMlsPqSession {
        send_psk_ledger: now.send_psk_ledger,
        retired_send_psks: now.retired_send_psks,
        last_cross_injected: now.last_cross_injected,
        ..s
    };
    &&& now.last_cross_injected == if past(stop, PrepareStep::Cross) {
        classical_epoch_of(s.recv_group)
    } else {
        s.last_cross_injected
    }
    &&& if past(stop, PrepareStep::Fold) {
        let entered = TwoMlsPqSession {
            last_cross_injected: now.last_cross_injected,
            ..s
        };
        &&& committed_but_ledger(entered, folded, out.commit, stop, now)
        &&& if past(stop, PrepareStep::NewPsk) {
            let half = out.commit.built->Ok_0.half;
            &&& now.send_psk_ledger@ == ledger_with(
                departing_ledger(s, out),
                half.epoch,
                out.commit.new_psk,
            )
            &&& now.retired_send_psks@ == retired_with(
                departing_ledger(s, out),
                departing_retired(s, out),
                half.epoch,
                out.commit.new_psk,
            )
        } else {
            &&& now.send_psk_ledger@ == departing_ledger(s, out)
            &&& now.retired_send_psks@ == departing_retired(s, out)
        }
    } else {
        &&& now == spent
        &&& now.send_psk_ledger@ == if past(stop, PrepareStep::Departing) {
            departing_ledger(s, out)
        } else {
            s.send_psk_ledger@
        }
        &&& now.retired_send_psks@ == if past(stop, PrepareStep::Departing) {
            departing_retired(s, out)
        } else {
            s.retired_send_psks@
        }
    }
}

impl TwoMlsPqSession {
    /// The committing part of a round: spend what the commit binds, then commit.
    fn commit_round(&mut self, folded: &Option<PeerProposal>, out: RoundOutcome) -> (r: Result<
        (),
    >)
        requires
            old(self).wf(),
            old(self).recv_group is Some,
            old(self).send_group is Some,
        ensures
            final(self).wf(),
            old(self).sound() ==> final(self).sound(),
            old(self).live() && is_commit(*old(self), out.commit) ==> final(self).live(),
            final(self).since(*old(self)),
            old(self).side_band_settled() && r is Ok ==> final(self).side_band_settled(),
            ({
                let stop = round_stop(*old(self), *folded, out);
                &&& r == match stop {
                    Some((_, e)) => Err::<(), TwoMlsPqError>(e),
                    None => Ok(()),
                }
                &&& round_committed(*old(self), *folded, out, stop, *final(self))
            }),
    {
        let RoundOutcome { departing_psk, cross_psk, fold, commit } = out;
        match self.remember_send_psk(departing_psk) {
            Err(e) => return Err(e),
            Ok(()) => {},
        }
        let recv_epoch: u64 = match &self.recv_group {
            Some(recv) => recv.classical.epoch,
            None => return Err(TwoMlsPqError::SessionNotReady),
        };
        let bound = match self.last_cross_injected {
            Some(at) => at == recv_epoch,
            None => false,
        };
        if !bound {
            match cross_psk {
                Err(e) => return Err(e),
                Ok(()) => {},
            }
            // The exporter leaf is spent: a retry at this epoch must not export again.
            self.last_cross_injected = Some(recv_epoch);
        }
        match folded {
            Some(p) => {
                if mls_message_epoch(p.message.as_slice()).is_none() {
                    return Err(TwoMlsPqError::Mls);
                }
                match fold {
                    Err(refusal) => return Err(map_credential_err(refusal)),
                    Ok(()) => {},
                }
            },
            None => {},
        }
        let discharging = self.owed_bind.is_some();
        match self.discharge_and_commit(folded, commit) {
            Err(e) => {
                if discharging {
                    return Err(TwoMlsPqError::BindDischargeFailed);
                }
                Err(e)
            },
            Ok(()) => Ok(()),
        }
    }

    /// Whether the ledger holds the PSK of `epoch`, once the departing epoch's is in it.
    fn departing_ledger_holds(&self, departing_psk: &Result<ExportedPsk>, epoch: u64) -> (r: bool)
        requires
            self.send_group is Some,
        ensures
            r == ledger_has(
                ledger_with(
                    self.send_psk_ledger@,
                    self.send_group->0.classical.epoch,
                    *departing_psk,
                ),
                epoch,
            ),
    {
        let ghost after = ledger_with(
            self.send_psk_ledger@,
            self.send_group->0.classical.epoch,
            *departing_psk,
        );
        let added = self.needs_send_psk() && departing_psk.is_ok();
        let mut i: usize = 0;
        if added {
            let at = match &self.send_group {
                Some(send) => send.classical.epoch == epoch,
                None => false,
            };
            if at {
                proof {
                    assert(after[after.len() - 1].epoch == epoch);
                }
                return true;
            }
            if self.send_psk_ledger.len() >= SEND_PSK_WINDOW {
                i = 1;
            }
        }
        let ghost from = i as int;
        proof {
            assert forall|j: int| 0 <= j < after.len() implies (#[trigger] after[j]).epoch == (
            if j + from < self.send_psk_ledger@.len() {
                self.send_psk_ledger@[j + from].epoch
            } else {
                self.send_group->0.classical.epoch
            }) by {}
        }
        while i < self.send_psk_ledger.len()
            invariant
                after == ledger_with(
                    self.send_psk_ledger@,
                    self.send_group->0.classical.epoch,
                    *departing_psk,
                ),
                from <= i <= self.send_psk_ledger.len(),
                after.len() >= self.send_psk_ledger@.len() - from,
                forall|j: int|
                    0 <= j < after.len() && j + from < self.send_psk_ledger@.len()
                        ==> (#[trigger] after[j]).epoch == self.send_psk_ledger@[j + from].epoch,
                forall|j: int| 0 <= j < i - from ==> (#[trigger] after[j]).epoch != epoch,
            decreases self.send_psk_ledger.len() - i,
        {
            if self.send_psk_ledger[i].epoch == epoch {
                proof {
                    assert(after[i - from].epoch == epoch);
                }
                return true;
            }
            i += 1;
        }
        false
    }

    /// Whether the committing part of the round stands, so that its update is to be proposed:
    /// none of its steps failed, and it left the group with its two members.
    pub fn round_stands(&self, out: &RoundOutcome) -> (r: bool)
        requires
            self.send_group is Some,
        ensures
            r == (round_stop(*self, self.queued_proposal, *out) is None),
    {
        if out.departing_psk.is_err() && self.needs_send_psk() {
            return false;
        }
        let bound = match (&self.recv_group, self.last_cross_injected) {
            (Some(recv), Some(at)) => at == recv.classical.epoch,
            (None, None) => true,
            _ => false,
        };
        if !bound && out.cross_psk.is_err() {
            return false;
        }
        match &self.queued_proposal {
            Some(folded) => {
                if mls_message_epoch(folded.message.as_slice()).is_none() || out.fold.is_err() {
                    return false;
                }
            },
            None => {},
        }
        match &self.owed_bind {
            Some(owed) => {
                if self.check_reservation(owed).is_err() || out.commit.bind_psk.is_err() {
                    return false;
                }
            },
            None => {},
        }
        match &out.commit.built {
            Err(_) => false,
            Ok(c) => c.two_party && c.message.is_some() && (out.commit.new_psk.is_ok()
                || self.departing_ledger_holds(&out.departing_psk, c.half.epoch)),
        }
    }

    /// A round of an established session: commit in the own send group if there is reason
    /// to, and stage an update of the own leaf for the peer to commit.
    fn prepare_ratchet_commit(&mut self, selected: Option<ClientId>, out: PrepareOutcome) -> (r:
        Result<PrepareEncryptResult>)
        requires
            old(self).wf(),
            old(self).recv_group is Some,
        ensures
            final(self).wf(),
            old(self).sound() ==> final(self).sound(),
            old(self).live() && is_commit(*old(self), out.round.commit) ==> final(self).live(),
            final(self).since(*old(self)),
            old(self).side_band_settled() && r is Ok ==> final(self).side_band_settled(),
            match old(self).send_group {
                None => {
                    &&& r == Err::<PrepareEncryptResult, TwoMlsPqError>(
                        TwoMlsPqError::SessionNotReady,
                    )
                    &&& *final(self) == (TwoMlsPqSession { queued_proposal: None, ..*old(self) })
                },
                Some(_) => {
                    &&& prepared(*old(self), opt_id(selected), out, *final(self))
                    &&& prepare_report(*old(self), opt_id(selected), out, r)
                },
            },
    {
        let PrepareOutcome { round, update } = out;
        let folded = self.queued_proposal.take();
        let licensed = match self.peer_applied_our_send_epoch() {
            Err(e) => return Err(e),
            Ok(licensed) => licensed,
        };
        let did_commit = folded.is_some() || (self.owed_bind.is_some() && licensed);
        if did_commit {
            match self.commit_round(&folded, round) {
                Err(e) => return Err(e),
                Ok(()) => {},
            }
        }
        let (proposal_message, proposal_hash) = match self.stage_update(&selected, update) {
            Err(e) => return Err(e),
            Ok(staged) => staged,
        };
        let committed_remote_client_id = match &folded {
            Some(_) => Some(self.their_state.client_id()),
            None => None,
        };
        Ok(
            PrepareEncryptResult {
                proposal_message,
                proposal_hash,
                committed_remote_client_id,
                did_commit,
            },
        )
    }

    /// A round before the receive group exists: nothing can be proposed or folded, so only
    /// the app message's authenticated data is set, to the digest of the welcome.
    fn prepare_pre_establishment(&mut self, selected: Option<ClientId>) -> (r: Result<
        PrepareEncryptResult,
    >)
        ensures
            old(self).wf() ==> final(self).wf(),
            old(self).sound() ==> final(self).sound(),
            old(self).live() ==> final(self).live(),
            old(self).wf() ==> final(self).since(*old(self)),
            old(self).side_band_settled() && r is Ok ==> final(self).side_band_settled(),
            envelope_prepared(*old(self), opt_id(selected), *final(self), r),
    {
        if selected.is_some() || self.initial_their_kp.is_none() || !starts_with(
            self.current_staple.as_slice(),
            APQ_TAG,
        ) {
            return Err(TwoMlsPqError::SessionNotReady);
        }
        let proposal_hash = sha256(self.current_staple.as_slice());
        self.pending_proposal_hash = Some(copy_bytes(proposal_hash.as_slice()));
        self.pending_proposal_message = None;
        let proposal_message: Vec<u8> = Vec::new();
        Ok(
            PrepareEncryptResult {
                proposal_message,
                proposal_hash,
                committed_remote_client_id: None,
                did_commit: false,
            },
        )
    }

    /// Settle a round that was carried out as `prepare_plan` said. It is counted as one
    /// state-advancing operation, failed or not; a round that succeeded listens on the send
    /// group's current epoch.
    pub fn prepare_to_encrypt(&mut self, proposing: Option<ClientId>, out: PrepareOutcome) -> (r:
        Result<PrepareEncryptResult>)
        requires
            old(self).wf(),
        ensures
            final(self).wf(),
            old(self).sound() ==> final(self).sound(),
            old(self).live() && is_commit(*old(self), out.round.commit) ==> final(self).live(),
            final(self).since(*old(self)),
            old(self).side_band_settled() && r is Ok ==> final(self).side_band_settled(),
            round_settled(*old(self), opt_id(proposing), out, *final(self), r),
    {
        self.begin_mutation(BlobKind::Core);
        let r = if self.recv_group.is_none() {
            self.prepare_pre_establishment(proposing)
        } else {
            self.prepare_ratchet_commit(proposing, out)
        };
        if r.is_ok() {
            self.record_listen_rendezvous();
        }
        r
    }
}

/// What preparing a round before the receive group exists changed, and what it reports.
pub open spec fn envelope_prepared(
    s: TwoMlsPqSession,
    selected: Option<Seq<u8>>,
    now: TwoMlsPqSession,
    r: Result<PrepareEncryptResult>,
) -> bool {
    if s.can_prepare_envelope(selected) {
        &&& now == (TwoMlsPqSession {
            pending_proposal_hash: now.pending_proposal_hash,
            pending_proposal_message: None,
            ..s
        })
        &&& opt_bytes(now.pending_proposal_hash) == Some(sha256_of(s.current_staple@))
        &&& r matches Ok(p)
        &&& p.proposal_message@.len() == 0
        &&& p.proposal_hash@ == sha256_of(s.current_staple@)
        &&& p.committed_remote_client_id is None
        &&& !p.did_commit
    } else {
        &&& r == Err::<PrepareEncryptResult, TwoMlsPqError>(TwoMlsPqError::SessionNotReady)
        &&& now == s
    }
}

/// What preparing a round changed, and what it reports, in either stage of the session.
pub open spec fn round_prepared(
    s: TwoMlsPqSession,
    selected: Option<Seq<u8>>,
    out: PrepareOutcome,
    now: TwoMlsPqSession,
    r: Result<PrepareEncryptResult>,
) -> bool {
    if s.recv_group is None {
        envelope_prepared(s, selected, now, r)
    } else if s.send_group is None {
        &&& r == Err::<PrepareEncryptResult, TwoMlsPqError>(TwoMlsPqError::SessionNotReady)
        &&& now == (TwoMlsPqSession { queued_proposal: None, ..s })
    } else {
        prepared(s, selected, out, now) && prepare_report(s, selected, out, r)
    }
}

/// Whether `now` is `s` once it listens on its send group's current epoch, if it was to.
pub open spec fn listening(s: TwoMlsPqSession, record: bool, now: TwoMlsPqSession) -> bool {
    &&& now == (TwoMlsPqSession {
        listen_rendezvous: now.listen_rendezvous,
        recv_header_keys: now.recv_header_keys,
        ..s
    })
    &&& if record && s.send_group is Some {
        let half = s.send_group->0.classical;
        let listen = keys(s.listen_rendezvous@);
        &&& keys(now.listen_rendezvous@) == listen_recorded(listen, half, half.rendezvous@, listen)
        &&& keys(now.recv_header_keys@) == listen_recorded(
            keys(s.recv_header_keys@),
            half,
            half.header_key@,
            listen,
        )
    } else {
        now == s
    }
}

/// What `prepare_to_encrypt` changes and reports: the round is counted and prepared, and one
/// that succeeded listens on the send group's current epoch.
pub open spec fn round_settled(
    before: TwoMlsPqSession,
    selected: Option<Seq<u8>>,
    out: PrepareOutcome,
    now: TwoMlsPqSession,
    r: Result<PrepareEncryptResult>,
) -> bool {
    let s = begun(before, BlobKind::Core);
    let mid = TwoMlsPqSession {
        listen_rendezvous: s.listen_rendezvous,
        recv_header_keys: s.recv_header_keys,
        ..now
    };
    round_prepared(s, selected, out, mid, r) && listening(mid, r is Ok, now)
}

} // verus!
