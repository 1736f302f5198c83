//! What the operations leave alone, said of their calls: the side-band does not touch what the
//! messages are about, nor the messages what the side-band is about, whether they succeed or not.

use vstd::prelude::*;
use crate::types::ClientId;
use super::error::Result;
use super::frames::SideBandSealing;
use super::incoming::{DecryptResult, IncomingOutcome};
use super::messaging::{Encrypted, ListenChannels, ProcessedProposal};
use super::pq_ops::{
    BootstrapBindOutcome, CreatedHalf, Ephemeral, RatchetBindOutcome, RekeyApplyOutcome,
    RekeyRespondOutcome, SealedSecret,
};
use super::prepare::{MlsRefusal, PrepareEncryptResult, PrepareOutcome};
use super::reception::lemma_reception_leaves;
use super::state::{Push, TwoMlsPqSession};

verus! {

/// What a session was founded with is as it was.
pub open spec fn leaves_founding(s: TwoMlsPqSession, now: TwoMlsPqSession) -> bool {
    &&& now.session_id == s.session_id
    &&& now.suite == s.suite
    &&& now.spawn_token == s.spawn_token
    &&& now.expected_bootstrap_kp_commitment == s.expected_bootstrap_kp_commitment
    &&& now.sink_installed == s.sink_installed
}

/// The credentials of both sides, and the steps of them, are as they were.
pub open spec fn leaves_credentials(s: TwoMlsPqSession, now: TwoMlsPqSession) -> bool {
    &&& now.client_id == s.client_id
    &&& now.my_state == s.my_state
    &&& now.their_state == s.their_state
    &&& now.staged_candidates == s.staged_candidates
    &&& now.deferred_candidate == s.deferred_candidate
    &&& now.auth_updates == s.auth_updates
}

/// The proposals of the peer, the prepared round and the staple are as they were.
pub open spec fn leaves_rounds(s: TwoMlsPqSession, now: TwoMlsPqSession) -> bool {
    &&& now.offered_proposal == s.offered_proposal
    &&& now.queued_proposal == s.queued_proposal
    &&& now.pending_proposal_hash == s.pending_proposal_hash
    &&& now.pending_proposal_message == s.pending_proposal_message
    &&& now.current_staple == s.current_staple
    &&& now.current_staple_seq == s.current_staple_seq
    &&& now.last_cross_injected == s.last_cross_injected
    &&& now.peer_applied_send_epoch == s.peer_applied_send_epoch
}

/// What is kept of the establishment is as it was.
pub open spec fn leaves_establishment(s: TwoMlsPqSession, now: TwoMlsPqSession) -> bool {
    &&& now.joined_welcome_digest == s.joined_welcome_digest
    &&& now.pending_outbound == s.pending_outbound
    &&& now.initial_their_kp == s.initial_their_kp
    &&& now.initial_app_payload == s.initial_app_payload
    &&& now.initial_return_kp == s.initial_return_kp
}

/// The ledger is as it was.
pub open spec fn leaves_ledger(s: TwoMlsPqSession, now: TwoMlsPqSession) -> bool {
    &&& now.send_psk_ledger == s.send_psk_ledger
    &&& now.retired_send_psks == s.retired_send_psks
}

/// The windows of the classical epochs are as they were.
pub open spec fn leaves_listening(s: TwoMlsPqSession, now: TwoMlsPqSession) -> bool {
    &&& now.listen_rendezvous == s.listen_rendezvous
    &&& now.recv_header_keys == s.recv_header_keys
}

/// The side-band is as it was: its round, its frame, its turn and what it owes.
pub open spec fn leaves_side_band(s: TwoMlsPqSession, now: TwoMlsPqSession) -> bool {
    &&& now.pq_inflight == s.pq_inflight
    &&& now.pending_side_band == s.pending_side_band
    &&& now.pq_turn_mine == s.pq_turn_mine
    &&& now.owed_bind == s.owed_bind
    &&& now.bind_apply_broken == s.bind_apply_broken
    &&& leaves_pq_keys(s, now)
}

/// The keys and marks of the PQ epochs are as they were.
pub open spec fn leaves_pq_keys(s: TwoMlsPqSession, now: TwoMlsPqSession) -> bool {
    &&& now.recv_header_keys_pq == s.recv_header_keys_pq
    &&& now.bootstrap_kp == s.bootstrap_kp
    &&& now.bootstrap_kp_secret == s.bootstrap_kp_secret
    &&& now.last_cross_injected_pq == s.last_cross_injected_pq
    &&& now.last_send_pq_exported == s.last_send_pq_exported
}

/// Nothing that the messages are about was touched.
pub open spec fn leaves_messages(s: TwoMlsPqSession, now: TwoMlsPqSession) -> bool {
    &&& leaves_founding(s, now)
    &&& leaves_credentials(s, now)
    &&& leaves_rounds(s, now)
    &&& leaves_establishment(s, now)
    &&& leaves_listening(s, now)
    &&& now.bind_apply_broken == s.bind_apply_broken
}

/// Beginning a ratchet round touches the round and its frame alone.
pub proof fn law_ratchet_begin_leaves_the_rest(
    s: &mut TwoMlsPqSession,
    ephemeral: Result<Ephemeral>,
    r: Result<Vec<u8>>,
)
    requires
        call_ensures(TwoMlsPqSession::pq_ratchet_begin, (s, ephemeral), r),
    ensures
        leaves_messages(*old(s), *final(s)),
        leaves_ledger(*old(s), *final(s)),
        leaves_pq_keys(*old(s), *final(s)),
        final(s).send_group == old(s).send_group,
        final(s).recv_group == old(s).recv_group,
        final(s).owed_bind == old(s).owed_bind,
        final(s).pq_turn_mine == old(s).pq_turn_mine,
        r is Err ==> leaves_side_band(*old(s), *final(s)),
{
}

/// Answering a ratchet round touches the round and its frame alone.
pub proof fn law_ratchet_respond_leaves_the_rest(
    s: &mut TwoMlsPqSession,
    msg: Vec<u8>,
    sealed: Result<SealedSecret>,
    r: Result<()>,
)
    requires
        call_ensures(TwoMlsPqSession::pq_ratchet_respond, (s, msg, sealed), r),
    ensures
        leaves_messages(*old(s), *final(s)),
        leaves_ledger(*old(s), *final(s)),
        leaves_pq_keys(*old(s), *final(s)),
        final(s).send_group == old(s).send_group,
        final(s).recv_group == old(s).recv_group,
        final(s).owed_bind == old(s).owed_bind,
        final(s).pq_turn_mine == old(s).pq_turn_mine,
        r is Err ==> leaves_side_band(*old(s), *final(s)),
{
}

/// Binding a ratchet round touches the send group's PQ half, its keys, the ledger and the side-band
/// alone.
pub proof fn law_ratchet_bind_leaves_the_rest(
    s: &mut TwoMlsPqSession,
    msg: Vec<u8>,
    out: RatchetBindOutcome,
    r: Result<()>,
)
    requires
        call_ensures(TwoMlsPqSession::pq_ratchet_bind, (s, msg, out), r),
    ensures
        leaves_messages(*old(s), *final(s)),
        final(s).recv_group == old(s).recv_group,
        final(s).pq_turn_mine == old(s).pq_turn_mine,
        final(s).bootstrap_kp == old(s).bootstrap_kp,
        final(s).bootstrap_kp_secret == old(s).bootstrap_kp_secret,
        final(s).last_cross_injected_pq == old(s).last_cross_injected_pq,
        final(s).last_send_pq_exported == old(s).last_send_pq_exported,
        r is Err ==> final(s).send_group == old(s).send_group && final(s).owed_bind
            == old(s).owed_bind,
{
}

/// Beginning a re-key touches the round and its frame alone.
pub proof fn law_rekey_begin_leaves_the_rest(
    s: &mut TwoMlsPqSession,
    rotating: &Option<ClientId>,
    proposal: std::result::Result<Vec<u8>, MlsRefusal>,
    r: Result<Vec<u8>>,
)
    requires
        call_ensures(TwoMlsPqSession::pq_rekey_begin, (s, rotating, proposal), r),
    ensures
        leaves_messages(*old(s), *final(s)),
        leaves_ledger(*old(s), *final(s)),
        leaves_pq_keys(*old(s), *final(s)),
        final(s).send_group == old(s).send_group,
        final(s).recv_group == old(s).recv_group,
        final(s).owed_bind == old(s).owed_bind,
        final(s).pq_turn_mine == old(s).pq_turn_mine,
        r is Err ==> leaves_side_band(*old(s), *final(s)),
{
}

/// Answering a re-key touches the send group's PQ half, its keys and the side-band alone.
pub proof fn law_rekey_respond_leaves_the_rest(
    s: &mut TwoMlsPqSession,
    msg: Vec<u8>,
    canonical: &Vec<Vec<u8>>,
    out: RekeyRespondOutcome,
    r: Result<Option<ClientId>>,
)
    requires
        call_ensures(TwoMlsPqSession::pq_rekey_respond, (s, msg, canonical, out), r),
    ensures
        leaves_messages(*old(s), *final(s)),
        leaves_ledger(*old(s), *final(s)),
        final(s).recv_group == old(s).recv_group,
        final(s).owed_bind == old(s).owed_bind,
        final(s).pq_turn_mine == old(s).pq_turn_mine,
        final(s).bootstrap_kp == old(s).bootstrap_kp,
        final(s).bootstrap_kp_secret == old(s).bootstrap_kp_secret,
        final(s).last_send_pq_exported == old(s).last_send_pq_exported,
        r is Err ==> final(s).pq_inflight == old(s).pq_inflight && final(s).pending_side_band
            == old(s).pending_side_band,
{
}

/// Closing a re-key touches the PQ halves, their keys and the side-band alone.
pub proof fn law_rekey_apply_leaves_the_rest(
    s: &mut TwoMlsPqSession,
    msg: Vec<u8>,
    out: RekeyApplyOutcome,
    r: Result<()>,
)
    requires
        call_ensures(TwoMlsPqSession::pq_rekey_apply, (s, msg, out), r),
    ensures
        leaves_messages(*old(s), *final(s)),
        leaves_ledger(*old(s), *final(s)),
        final(s).pq_turn_mine == old(s).pq_turn_mine,
        final(s).bootstrap_kp == old(s).bootstrap_kp,
        final(s).bootstrap_kp_secret == old(s).bootstrap_kp_secret,
        r is Err ==> final(s).send_group == old(s).send_group && final(s).owed_bind
            == old(s).owed_bind && final(s).pending_side_band == old(s).pending_side_band,
{
}

/// Beginning a bootstrap touches the round, its frame and the key package that it sends alone.
pub proof fn law_bootstrap_begin_leaves_the_rest(
    s: &mut TwoMlsPqSession,
    rotating: &Option<ClientId>,
    minted: Result<Vec<u8>>,
    r: Result<Vec<u8>>,
)
    requires
        call_ensures(TwoMlsPqSession::pq_bootstrap_begin, (s, rotating, minted), r),
    ensures
        leaves_messages(*old(s), *final(s)),
        leaves_ledger(*old(s), *final(s)),
        final(s).send_group == old(s).send_group,
        final(s).recv_group == old(s).recv_group,
        final(s).owed_bind == old(s).owed_bind,
        final(s).pq_turn_mine == old(s).pq_turn_mine,
        final(s).recv_header_keys_pq == old(s).recv_header_keys_pq,
        final(s).bootstrap_kp_secret == old(s).bootstrap_kp_secret,
        r is Err ==> leaves_side_band(*old(s), *final(s)),
{
}

/// Answering a bootstrap touches the send group's PQ half, its keys and the side-band alone.
pub proof fn law_bootstrap_respond_leaves_the_rest(
    s: &mut TwoMlsPqSession,
    msg: Vec<u8>,
    created: Result<CreatedHalf>,
    r: Result<()>,
)
    requires
        call_ensures(TwoMlsPqSession::pq_bootstrap_respond, (s, msg, created), r),
    ensures
        leaves_messages(*old(s), *final(s)),
        leaves_ledger(*old(s), *final(s)),
        final(s).recv_group == old(s).recv_group,
        final(s).owed_bind == old(s).owed_bind,
        final(s).pq_turn_mine == old(s).pq_turn_mine,
        final(s).bootstrap_kp == old(s).bootstrap_kp,
        final(s).bootstrap_kp_secret == old(s).bootstrap_kp_secret,
        final(s).last_cross_injected_pq == old(s).last_cross_injected_pq,
        final(s).last_send_pq_exported == old(s).last_send_pq_exported,
        r is Err ==> leaves_side_band(*old(s), *final(s)) && final(s).send_group
            == old(s).send_group,
{
}

/// Closing a bootstrap touches the PQ halves, their keys and the side-band alone.
pub proof fn law_bootstrap_bind_leaves_the_rest(
    s: &mut TwoMlsPqSession,
    msg: Vec<u8>,
    out: BootstrapBindOutcome,
    r: Result<()>,
)
    requires
        call_ensures(TwoMlsPqSession::pq_bootstrap_bind, (s, msg, out), r),
    ensures
        leaves_messages(*old(s), *final(s)),
        leaves_ledger(*old(s), *final(s)),
        final(s).pq_turn_mine == old(s).pq_turn_mine,
        final(s).bootstrap_kp == old(s).bootstrap_kp,
        final(s).last_send_pq_exported == old(s).last_send_pq_exported,
        r is Err ==> final(s).send_group == old(s).send_group && final(s).owed_bind
            == old(s).owed_bind && final(s).pending_side_band == old(s).pending_side_band,
{
}

/// Encrypting touches the prepared round alone.
pub proof fn law_encrypt_leaves_the_rest(
    s: &mut TwoMlsPqSession,
    app: Option<Vec<u8>>,
    r: Result<Encrypted>,
)
    requires
        call_ensures(TwoMlsPqSession::encrypt, (s, app), r),
    ensures
        leaves_founding(*old(s), *final(s)),
        leaves_credentials(*old(s), *final(s)),
        leaves_establishment(*old(s), *final(s)),
        leaves_ledger(*old(s), *final(s)),
        leaves_listening(*old(s), *final(s)),
        leaves_side_band(*old(s), *final(s)),
        final(s).send_group == old(s).send_group,
        final(s).recv_group == old(s).recv_group,
        final(s).offered_proposal == old(s).offered_proposal,
        final(s).queued_proposal == old(s).queued_proposal,
        final(s).peer_applied_send_epoch == old(s).peer_applied_send_epoch,
        final(s).last_cross_injected == old(s).last_cross_injected,
        final(s).current_staple == old(s).current_staple,
        final(s).current_staple_seq == old(s).current_staple_seq,
{
}

/// Approving touches the peer's proposals and the steps alone.
pub proof fn law_approval_leaves_the_rest(
    s: &mut TwoMlsPqSession,
    digest: &[u8],
    processed: &ProcessedProposal,
    r: Result<()>,
)
    requires
        call_ensures(TwoMlsPqSession::queue_proposal, (s, digest, processed), r),
    ensures
        leaves_founding(*old(s), *final(s)),
        leaves_establishment(*old(s), *final(s)),
        leaves_ledger(*old(s), *final(s)),
        leaves_listening(*old(s), *final(s)),
        leaves_side_band(*old(s), *final(s)),
        final(s).send_group == old(s).send_group,
        final(s).recv_group == old(s).recv_group,
        final(s).client_id == old(s).client_id,
        final(s).my_state == old(s).my_state,
        final(s).their_state == old(s).their_state,
        final(s).staged_candidates == old(s).staged_candidates,
        final(s).deferred_candidate == old(s).deferred_candidate,
        final(s).pending_proposal_hash == old(s).pending_proposal_hash,
        final(s).pending_proposal_message == old(s).pending_proposal_message,
        final(s).current_staple == old(s).current_staple,
        final(s).current_staple_seq == old(s).current_staple_seq,
        final(s).peer_applied_send_epoch == old(s).peer_applied_send_epoch,
        final(s).last_cross_injected == old(s).last_cross_injected,
{
}

/// Staging a rotation touches our own credential alone.
pub proof fn law_rotation_leaves_the_rest(
    s: &mut TwoMlsPqSession,
    id: Vec<u8>,
    minted: Result<()>,
    r: Result<()>,
)
    requires
        call_ensures(TwoMlsPqSession::stage_rotation, (s, id, minted), r),
    ensures
        leaves_founding(*old(s), *final(s)),
        leaves_rounds(*old(s), *final(s)),
        leaves_establishment(*old(s), *final(s)),
        leaves_ledger(*old(s), *final(s)),
        leaves_listening(*old(s), *final(s)),
        leaves_side_band(*old(s), *final(s)),
        final(s).send_group == old(s).send_group,
        final(s).recv_group == old(s).recv_group,
        final(s).their_state == old(s).their_state,
        final(s).client_id == old(s).client_id,
        r is Err ==> leaves_credentials(*old(s), *final(s)),
{
}

/// A round touches neither the receive group nor the round of the side-band, and what a session was
/// founded with stays; without a commit it leaves the ledger and what is owed alone.
pub proof fn law_round_leaves_the_rest(
    s: &mut TwoMlsPqSession,
    proposing: Option<ClientId>,
    out: PrepareOutcome,
    r: Result<PrepareEncryptResult>,
)
    requires
        call_ensures(TwoMlsPqSession::prepare_to_encrypt, (s, proposing, out), r),
    ensures
        leaves_founding(*old(s), *final(s)),
        leaves_establishment(*old(s), *final(s)),
        leaves_pq_keys(*old(s), *final(s)),
        final(s).recv_group == old(s).recv_group,
        final(s).pq_inflight == old(s).pq_inflight,
        final(s).pending_side_band == old(s).pending_side_band,
        final(s).bind_apply_broken == old(s).bind_apply_broken,
        final(s).client_id == old(s).client_id,
        final(s).peer_applied_send_epoch == old(s).peer_applied_send_epoch,
        r is Err ==> leaves_listening(*old(s), *final(s)),
        r matches Ok(p) && !p.did_commit ==> final(s).send_psk_ledger@ == old(s).send_psk_ledger@
            && final(s).retired_send_psks@ == old(s).retired_send_psks@ && final(s).owed_bind
            == old(s).owed_bind && final(s).pq_turn_mine == old(s).pq_turn_mine,
{
}

/// What comes in touches neither the send group nor the windows, nor what a session was founded
/// with or has staged to propose.
pub proof fn law_reception_leaves_the_rest(
    s: &mut TwoMlsPqSession,
    blob: Vec<u8>,
    out: IncomingOutcome,
    r: Result<Option<DecryptResult>>,
)
    requires
        call_ensures(TwoMlsPqSession::process_incoming, (s, blob, out), r),
    ensures
        leaves_founding(*old(s), *final(s)),
        leaves_listening(*old(s), *final(s)),
        final(s).send_group == old(s).send_group,
        final(s).current_staple == old(s).current_staple,
        final(s).queued_proposal == old(s).queued_proposal,
        final(s).pending_proposal_hash == old(s).pending_proposal_hash,
        final(s).pending_proposal_message == old(s).pending_proposal_message,
        final(s).deferred_candidate == old(s).deferred_candidate,
        final(s).last_cross_injected == old(s).last_cross_injected,
        final(s).owed_bind == old(s).owed_bind,
        final(s).recv_header_keys_pq == old(s).recv_header_keys_pq,
        final(s).bootstrap_kp == old(s).bootstrap_kp,
        final(s).bootstrap_kp_secret == old(s).bootstrap_kp_secret,
        final(s).last_cross_injected_pq == old(s).last_cross_injected_pq,
{
    lemma_reception_leaves(*old(s), blob@, out, *final(s), r);
}

/// Handing the side-band frame out, taking a push and asking where to listen change nothing but
/// what they are about.
pub proof fn law_hand_outs_leave_the_rest(
    s: &mut TwoMlsPqSession,
    sealing: SideBandSealing,
    frame: Option<Vec<u8>>,
    t: &mut TwoMlsPqSession,
    push: Option<Push>,
    u: &mut TwoMlsPqSession,
    l: Result<ListenChannels>,
)
    requires
        call_ensures(TwoMlsPqSession::pq_pending_outbound, (s, sealing), frame),
        call_ensures(TwoMlsPqSession::take_push, (t,), push),
        call_ensures(TwoMlsPqSession::should_listen_on, (u,), l),
    ensures
        *final(s) == (TwoMlsPqSession {
            pending_side_band: final(s).pending_side_band,
            ..*old(s)
        }),
        push == old(t).push,
        *final(t) == (TwoMlsPqSession { push: None, ..*old(t) }),
        *final(u) == (TwoMlsPqSession {
            listen_rendezvous: final(u).listen_rendezvous,
            recv_header_keys: final(u).recv_header_keys,
            ..*old(u)
        }),
        l is Ok <==> old(u).send_group is Some,
{
}

} // verus!
