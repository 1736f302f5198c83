//! The session's state: what it knows of its two Combiner groups, its windows, slots and
//! watermarks.
//!
//! The MLS groups themselves live with the host, which carries out the group operations
//! that the session decides on. `GroupHalf` holds what the session reads of one group, as
//! plain values; after an operation on a group the host reports the group's new half.

use vstd::prelude::*;
use crate::bytes::{all_bytes, copy_bytes, first_byte, opt_bytes};
use crate::types::{ClientId, CombinerKeyPackage, SessionId};
use super::frames::{APQ_PRIVATE_MESSAGE_TAG, APQ_TAG};
use super::providers::{DIGEST_LEN, HEADER_KEY_LEN};

verus! {

/// Depth of the send PSK ledger: one entry per send-group epoch.
pub const SEND_PSK_WINDOW: usize = 8;

/// How many rotation candidates can be in flight.
pub const CANDIDATE_WINDOW: usize = 4;

/// Depth of the side-band header window.
pub const PQ_HEADER_WINDOW: usize = 4;

/// Length of a rendezvous address.
pub const RENDEZVOUS_LEN: usize = 32;

/// The cipher suite pair of a session.
#[derive(Debug, Clone, Copy, PartialEq, Eq, Structural)]
pub struct ApqCipherSuite {
    pub classical: u16,
    pub pq: u16,
}

/// X25519 with ChaCha20-Poly1305.
pub const CLASSICAL_SUITE: u16 = 0x0003;

/// ML-KEM-768.
pub const PQ_SUITE: u16 = 0xFDEA;

/// The suite pair that sessions run under.
pub open spec fn apq_suite() -> ApqCipherSuite {
    ApqCipherSuite { classical: CLASSICAL_SUITE, pq: PQ_SUITE }
}

/// The epochs of a Combiner group.
#[derive(Debug, Clone, Copy, PartialEq, Eq, Structural)]
pub struct ApqEpochs {
    pub pq_epoch: u64,
    pub classical_epoch: u64,
}

/// What the session reads of one two-member MLS group.
#[derive(Debug, Clone, PartialEq, Eq)]
pub struct GroupHalf {
    pub group_id: Vec<u8>,
    pub epoch: u64,
    /// Index of this side's leaf.
    pub my_index: u32,
    /// Client id in this side's leaf.
    pub my_leaf: Vec<u8>,
    /// Client id in the peer's leaf.
    pub peer_leaf: Vec<u8>,
    /// The rendezvous exporter at this epoch.
    pub rendezvous: Vec<u8>,
    /// The header key exporter at this epoch.
    pub header_key: Vec<u8>,
    /// The exporter at this epoch that keys the seal over a ratchet round's secret.
    pub ct_seal_psk: Vec<u8>,
    /// Prior epochs that the group's storage still holds.
    pub retained: Vec<u64>,
}

/// A classical group and, unless it is deferred, its PQ partner.
#[derive(Debug, Clone, PartialEq, Eq)]
pub struct CombinerGroup {
    pub classical: GroupHalf,
    pub pq: Option<GroupHalf>,
    /// The app-state binding in the classical half's group context.
    pub app_binding: Option<Vec<u8>>,
}

/// Whether the exporters of a classical half have their lengths.
pub open spec fn classical_exports(half: GroupHalf) -> bool {
    half.rendezvous@.len() == RENDEZVOUS_LEN && half.header_key@.len() == HEADER_KEY_LEN
}

/// Whether the header key of a PQ half has its length.
pub open spec fn pq_exports(half: GroupHalf) -> bool {
    half.header_key@.len() == HEADER_KEY_LEN
}

/// Whether the exporters of a group have their lengths.
pub open spec fn group_exports(g: CombinerGroup) -> bool {
    classical_exports(g.classical) && (g.pq matches Some(pq) ==> pq_exports(pq))
}

/// Whether bytes begin as a staple does: an encoded MLS message, a welcome, or a commit with
/// the PQ one that it binds.
pub open spec fn is_staple(staple: Seq<u8>) -> bool {
    let tag = first_byte(staple);
    tag == Some(0u8) || tag == Some(APQ_TAG) || tag == Some(APQ_PRIVATE_MESSAGE_TAG)
}

/// The epoch of a group's PQ half, if it has one.
pub open spec fn pq_epoch_of(g: Option<CombinerGroup>) -> Option<u64> {
    match g {
        Some(g) => match g.pq {
            Some(pq) => Some(pq.epoch),
            None => None,
        },
        None => None,
    }
}

/// The epoch of a group's classical half.
pub open spec fn classical_epoch_of(g: Option<CombinerGroup>) -> Option<u64> {
    match g {
        Some(g) => Some(g.classical.epoch),
        None => None,
    }
}

/// Whether a group is there with its PQ half.
pub open spec fn has_pq(g: Option<CombinerGroup>) -> bool {
    pq_epoch_of(g) is Some
}

/// A party's credential: settled, or with a rotation under way.
#[derive(Debug, Clone, PartialEq, Eq)]
pub enum PrincipalState {
    Sync { client_id: ClientId },
    Pending { old: ClientId, new: ClientId },
}

impl View for PrincipalState {
    type V = (Seq<u8>, Option<Seq<u8>>);

    /// The active id, and the id a rotation is under way to.
    open spec fn view(&self) -> (Seq<u8>, Option<Seq<u8>>) {
        match self {
            PrincipalState::Sync { client_id } => (client_id@, None),
            PrincipalState::Pending { old, new } => (old@, Some(new@)),
        }
    }
}

impl PrincipalState {
    /// The active id: the old one while a rotation is under way.
    pub fn client_id(&self) -> (r: ClientId)
        ensures
            r@ == self@.0,
    {
        match self {
            PrincipalState::Sync { client_id } => client_id.copy(),
            PrincipalState::Pending { old, .. } => old.copy(),
        }
    }

    /// An equal state.
    pub fn copy(&self) -> (r: PrincipalState)
        ensures
            r@ == self@,
    {
        match self {
            PrincipalState::Sync { client_id } => PrincipalState::Sync {
                client_id: client_id.copy(),
            },
            PrincipalState::Pending { old, new } => PrincipalState::Pending {
                old: old.copy(),
                new: new.copy(),
            },
        }
    }
}

/// A value captured at one epoch.
#[derive(Debug, Clone, PartialEq, Eq)]
pub struct EpochKey {
    pub epoch: u64,
    pub key: Vec<u8>,
}

/// The epochs and values of a window.
pub open spec fn keys(w: Seq<EpochKey>) -> Seq<(u64, Seq<u8>)> {
    Seq::new(w.len(), |i: int| (w[i].epoch, w[i].key@))
}

/// The epochs ascend.
pub open spec fn ascending(w: Seq<(u64, Seq<u8>)>) -> bool {
    forall|i: int, j: int| 0 <= i < j < w.len() ==> (#[trigger] w[i]).0 < (#[trigger] w[j]).0
}

/// Whether every value of a window has this length.
pub open spec fn value_lengths(w: Seq<(u64, Seq<u8>)>, len: nat) -> bool {
    forall|i: int| 0 <= i < w.len() ==> (#[trigger] w[i]).1.len() == len
}

/// The epochs of a window.
pub open spec fn epochs(w: Seq<(u64, Seq<u8>)>) -> Seq<u64> {
    Seq::new(w.len(), |i: int| w[i].0)
}

/// A cross-party PSK exported from a group.
#[derive(Debug, Clone, PartialEq, Eq)]
pub struct ExportedPsk {
    pub component_id: u32,
    pub psk_id: Vec<u8>,
    pub psk: Vec<u8>,
}

/// An exported PSK by its id alone.
#[derive(Debug, Clone, PartialEq, Eq)]
pub struct PskRef {
    pub component_id: u32,
    pub psk_id: Vec<u8>,
}

/// The PSK of one send-group epoch.
#[derive(Debug, Clone, PartialEq, Eq)]
pub struct PskEntry {
    pub epoch: u64,
    pub exported: ExportedPsk,
}

/// A PQ commit that has landed and whose classical partner is still to come. The epochs are
/// reservations: the classical commit must land on `t_epoch` while the PQ half is still at
/// `pq_epoch`.
#[derive(Debug, Clone, PartialEq, Eq)]
pub struct OwedBind {
    pub pq_commit: Vec<u8>,
    pub t_epoch: u64,
    pub pq_epoch: u64,
}

/// The epochs that a commit attests of both halves.
#[derive(Debug, Clone, Copy, PartialEq, Eq, Structural)]
pub struct ApqInfoUpdate {
    pub t_epoch: u64,
    pub pq_epoch: u64,
}

/// The side-band round that is under way, and the secret it holds.
#[derive(Debug, Clone, PartialEq, Eq)]
pub enum PqInflight {
    /// Ratchet initiator: the ephemeral's decapsulation and encapsulation keys.
    Initiating { dk: Vec<u8>, ek: Vec<u8> },
    /// Bootstrap initiator, awaiting the welcome.
    BootstrapInitiated,
    /// Bootstrap responder, awaiting the bind.
    BootstrapResponded,
    /// Ratchet responder: the secret it sealed.
    Responding { secret: Vec<u8> },
    /// Re-key initiator, awaiting the commit.
    RekeyInitiated,
    /// Re-key responder, awaiting the bind.
    RekeyResponded,
}

/// The outbound side-band frame, kept for re-sending. The seal cache is part of it, so it
/// goes with the frame it seals.
#[derive(Debug, Clone, PartialEq, Eq)]
pub struct RetainedFrame {
    pub frame: Vec<u8>,
    pub seal: Option<Vec<u8>>,
}

impl RetainedFrame {
    /// Retain `frame` with the seal that is about to be sent.
    pub fn seeded(frame: Vec<u8>, sealed: &[u8]) -> (r: RetainedFrame)
        ensures
            r.frame == frame,
            opt_bytes(r.seal) == Some(sealed@),
    {
        RetainedFrame { frame, seal: Some(copy_bytes(sealed)) }
    }

    /// Retain `frame` with no seal yet.
    pub fn unsealed(frame: Vec<u8>) -> (r: RetainedFrame)
        ensures
            r.frame == frame,
            r.seal is None,
    {
        RetainedFrame { frame, seal: None }
    }
}

/// This side's update proposal, with the id its new leaf carries.
#[derive(Debug, Clone, PartialEq, Eq)]
pub struct StagedProposal {
    pub proposing: Vec<u8>,
    pub message: Vec<u8>,
}

/// A peer's update proposal: its digest, the id its new leaf carries, and the message.
#[derive(Debug, Clone, PartialEq, Eq)]
pub struct PeerProposal {
    pub digest: Vec<u8>,
    pub proposing: Vec<u8>,
    pub message: Vec<u8>,
}

/// What a step does in a party's credential sequence.
#[derive(Debug, Clone, Copy, PartialEq, Eq, Structural)]
pub enum AuthKind {
    /// The id may become ours.
    AuthorizeMine,
    /// The id has become ours.
    CommitMine,
    /// The id may become the peer's.
    AuthorizeTheirs,
    /// The id has become the peer's.
    CommitTheirs,
}

/// A step in a party's credential sequence that the host's authentication service takes.
#[derive(Debug, Clone, PartialEq, Eq)]
pub struct AuthUpdate {
    pub kind: AuthKind,
    pub id: Vec<u8>,
}

/// The kinds and ids of a list of steps.
pub open spec fn steps(s: Seq<AuthUpdate>) -> Seq<(AuthKind, Seq<u8>)> {
    Seq::new(s.len(), |i: int| (s[i].kind, s[i].id@))
}

/// Add a step.
pub(crate) fn push_step(list: &mut Vec<AuthUpdate>, kind: AuthKind, id: &[u8])
    ensures
        steps(final(list)@) == steps(old(list)@).push((kind, id@)),
{
    list.push(AuthUpdate { kind, id: copy_bytes(id) });
    proof {
        assert(steps(list@) =~= steps(old(list)@).push((kind, id@)));
    }
}

/// What a pushed blob holds.
#[derive(Debug, Clone, Copy, PartialEq, Eq, Structural)]
pub enum BlobKind {
    /// Everything but the PQ trees.
    Core,
    /// Everything.
    Checkpoint,
}

/// A blob that is to be pushed to the persistence hook.
#[derive(Debug, Clone, Copy, PartialEq, Eq, Structural)]
pub struct Push {
    pub seq: u64,
    pub kind: BlobKind,
}

/// A session of two Combiner send groups, one per direction.
#[derive(Debug, Clone, PartialEq, Eq)]
pub struct TwoMlsPqSession {
    /// The principal this side runs under.
    pub client_id: ClientId,
    pub suite: ApqCipherSuite,
    pub send_group: Option<CombinerGroup>,
    pub recv_group: Option<CombinerGroup>,
    /// The establishment frame that is still to be handed out.
    pub pending_outbound: Option<Vec<u8>>,
    /// The app message's authenticated data; set by `prepare_to_encrypt`.
    pub pending_proposal_hash: Option<Vec<u8>>,
    /// What every outbound message frame carries: the latest send-group commit, or the send
    /// group's welcome until there is one.
    pub current_staple: Vec<u8>,
    /// The sequence number at which the staple was set.
    pub current_staple_seq: u64,
    pub pending_proposal_message: Option<StagedProposal>,
    /// Digest of the welcome that the receive group was joined from.
    pub joined_welcome_digest: Option<Vec<u8>>,
    /// The peer's proposal that awaits approval.
    pub offered_proposal: Option<PeerProposal>,
    /// The approved proposal that awaits our next commit.
    pub queued_proposal: Option<PeerProposal>,
    /// Ids of the rotation candidates in flight, oldest first. None is ever evicted: the
    /// peer may commit any of them.
    pub staged_candidates: Vec<Vec<u8>>,
    /// A rotation request that waits for room in the window.
    pub deferred_candidate: Option<Vec<u8>>,
    pub pq_inflight: Option<PqInflight>,
    pub session_id: SessionId,
    /// Counts the state-advancing operations.
    pub state_seq: u64,
    pub my_state: PrincipalState,
    pub their_state: PrincipalState,
    pub pending_side_band: Option<RetainedFrame>,
    pub owed_bind: Option<OwedBind>,
    /// Whether the next side-band operation is this side's.
    pub pq_turn_mine: bool,
    /// A peer's bind failed to apply with its secret spent. Not archived.
    pub bind_apply_broken: bool,
    pub send_psk_ledger: Vec<PskEntry>,
    /// Evicted PSKs that the stores may still hold.
    pub retired_send_psks: Vec<PskRef>,
    /// The receive-group epoch that a cross-party PSK was last bound from.
    pub last_cross_injected: Option<u64>,
    /// The highest epoch of our send group that the peer has demonstrably applied.
    pub peer_applied_send_epoch: Option<u64>,
    /// The receive-group PQ epoch that a cross-party PSK was last exported from.
    pub last_cross_injected_pq: Option<u64>,
    /// The send-group PQ epoch that a cross-party PSK was last exported from.
    pub last_send_pq_exported: Option<u64>,
    /// Listen addresses by send-group epoch.
    pub listen_rendezvous: Vec<EpochKey>,
    /// Header keys by send-group epoch, in lockstep with the listen addresses.
    pub recv_header_keys: Vec<EpochKey>,
    /// Side-band header keys by send-group PQ epoch.
    pub recv_header_keys_pq: Vec<EpochKey>,
    /// The token an accepting session was spawned under.
    pub spawn_token: Option<Vec<u8>>,
    /// The key package an initiating session seals its envelopes to.
    pub initial_their_kp: Option<CombinerKeyPackage>,
    pub initial_app_payload: Option<Vec<u8>>,
    pub initial_return_kp: Option<Vec<u8>>,
    /// The committed bootstrap key package, until it is sent.
    pub bootstrap_kp: Option<Vec<u8>>,
    /// The private half of the committed bootstrap key package.
    pub bootstrap_kp_secret: Option<Vec<u8>>,
    /// The commitment that the peer's bootstrap key package must hash to.
    pub expected_bootstrap_kp_commitment: Option<Vec<u8>>,
    /// Whether a persistence hook is attached.
    pub sink_installed: bool,
    /// The blob that the last operation wants pushed.
    pub push: Option<Push>,
    /// Steps for the authentication service, in order.
    pub auth_updates: Vec<AuthUpdate>,
}

/// The epochs of the ledger's entries are all different.
pub open spec fn ledger_epochs_distinct(l: Seq<PskEntry>) -> bool {
    forall|i: int, j: int|
        0 <= i < j < l.len() ==> (#[trigger] l[i]).epoch != (#[trigger] l[j]).epoch
}

/// Whether the ledger holds an entry of this epoch.
pub open spec fn ledger_has(l: Seq<PskEntry>, epoch: u64) -> bool {
    exists|i: int| 0 <= i < l.len() && (#[trigger] l[i]).epoch == epoch
}

impl TwoMlsPqSession {
    /// What holds of every session, a restored one too: the ledger is bounded, the windows
    /// are in order, and the staple was set no later than now.
    pub open spec fn wf(&self) -> bool {
        &&& self.send_psk_ledger@.len() <= SEND_PSK_WINDOW
        &&& ascending(keys(self.listen_rendezvous@))
        &&& ascending(keys(self.recv_header_keys@))
        &&& ascending(keys(self.recv_header_keys_pq@))
        &&& self.current_staple_seq <= self.state_seq
    }

    /// What holds besides of a session that was founded here, and is kept by every operation:
    /// no epoch is in the ledger twice, the candidates and the side-band window are bounded,
    /// the session listens on exactly the epochs that it holds a header key of, no candidate is
    /// there twice, and an established session keeps nothing of its establishment envelopes.
    pub open spec fn sound(&self) -> bool {
        &&& ledger_epochs_distinct(self.send_psk_ledger@)
        &&& self.staged_candidates@.len() <= CANDIDATE_WINDOW
        &&& epochs(keys(self.listen_rendezvous@)) == epochs(keys(self.recv_header_keys@))
        &&& self.recv_header_keys_pq@.len() <= PQ_HEADER_WINDOW
        &&& all_bytes(self.staged_candidates@).no_duplicates()
        &&& self.deferred_candidate matches Some(id) ==> !all_bytes(
            self.staged_candidates@,
        ).contains(id@)
        &&& self.recv_group is Some ==> self.initial_their_kp is None && self.initial_app_payload
            is None && self.initial_return_kp is None
    }

    /// What holds of a session whose host reports its groups truthfully, and is kept by every
    /// operation: it runs the suite pair of this build and has a send group; what is a digest,
    /// an address or a header key has that length; the staple is of one of its forms; the peer
    /// has not applied what was never committed; and an owed bind can be discharged.
    pub open spec fn live(&self) -> bool {
        &&& self.suite == apq_suite()
        &&& self.send_group matches Some(g) && group_exports(g)
        &&& self.pending_proposal_hash matches Some(d) ==> d@.len() == DIGEST_LEN
        &&& self.offered_proposal matches Some(p) ==> p.digest@.len() == DIGEST_LEN
        &&& self.queued_proposal matches Some(p) ==> p.digest@.len() == DIGEST_LEN
        &&& self.joined_welcome_digest matches Some(d) ==> d@.len() == DIGEST_LEN
        &&& value_lengths(keys(self.listen_rendezvous@), RENDEZVOUS_LEN as nat)
        &&& value_lengths(keys(self.recv_header_keys@), HEADER_KEY_LEN as nat)
        &&& value_lengths(keys(self.recv_header_keys_pq@), HEADER_KEY_LEN as nat)
        &&& is_staple(self.current_staple@)
        &&& self.peer_applied_send_epoch matches Some(applied) ==> applied
            <= self.send_group->0.classical.epoch
        &&& self.owed_bind matches Some(owed) ==> self.reservation_error(owed) is None
    }

    /// The side-band slot is empty whenever no round is open. An operation that succeeds keeps
    /// it so; one that fails after its round's secret is spent does not.
    pub open spec fn side_band_settled(&self) -> bool {
        self.pq_inflight is None ==> self.pending_side_band is None
    }

    /// What no operation takes back, from `s` to now: a group, the welcome that the receive
    /// group was joined from, the evidence of what the peer has applied, a sequence number, or
    /// that receiving is broken; and what the session was founded with stays.
    pub open spec fn since(&self, s: TwoMlsPqSession) -> bool {
        &&& self.suite == s.suite
        &&& self.session_id == s.session_id
        &&& self.spawn_token == s.spawn_token
        &&& self.expected_bootstrap_kp_commitment == s.expected_bootstrap_kp_commitment
        &&& self.state_seq >= s.state_seq
        &&& self.current_staple_seq >= s.current_staple_seq
        &&& s.send_group is Some ==> self.send_group is Some
        &&& s.recv_group is Some ==> self.recv_group is Some
        &&& s.recv_group is Some ==> self.joined_welcome_digest == s.joined_welcome_digest
        &&& s.peer_applied_send_epoch matches Some(before) ==> self.peer_applied_send_epoch
            matches Some(applied) && applied >= before
        &&& s.bind_apply_broken ==> self.bind_apply_broken
        &&& s.sink_installed ==> self.sink_installed
    }

    /// Both directions have their PQ half.
    pub open spec fn spec_pq_halves_live(&self) -> bool {
        has_pq(self.send_group) && has_pq(self.recv_group)
    }
}

/// The epoch pair of a Combiner group: the PQ epoch is 0 while that half is deferred.
pub fn apq_epochs(group: &CombinerGroup) -> (r: ApqEpochs)
    ensures
        r.classical_epoch == group.classical.epoch,
        r.pq_epoch == match group.pq {
            Some(pq) => pq.epoch,
            None => 0,
        },
{
    ApqEpochs {
        pq_epoch: match &group.pq {
            Some(pq) => pq.epoch,
            None => 0,
        },
        classical_epoch: group.classical.epoch,
    }
}

} // verus!
