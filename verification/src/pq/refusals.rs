//! When the operations refuse, said of their calls: which inputs are taken, what is said of the
//! others, and that what is asked beforehand is answered as the operation then decides.

use vstd::prelude::*;
use crate::bytes::{all_bytes, first_byte, opt_bytes};
use crate::types::{ClientId, CombinerKeyPackage};
use super::conduct::current_id;
use super::error::{Result, TwoMlsPqError};
use super::establish::{
    accept_plan, check_joined, initiate_plan, AcceptPlan, Accepted, InitiatePlan, Initiated,
};
use super::frames::{
    read2, APQ_TAG, PQ_BOOTSTRAP_KP_TAG, PQ_CT_TAG, PQ_EK_TAG, PQ_REKEY_COMMIT_TAG,
};
use super::incoming::{CommitProcessed, DecryptResult, IncomingOutcome};
use super::key_packages::key_package_suite_check;
use super::messaging::{Encrypted, ProcessedProposal};
use super::pq_ops::{
    rekey_commit_stands, BootstrapBindOutcome, CreatedHalf, Ephemeral, RatchetBindOutcome,
    RekeyApplyOutcome, RekeyRespondOutcome, SealedSecret,
};
use super::prepare::{
    departing_ledger, MlsRefusal, PrepareEncryptResult, PrepareOutcome, RoundOutcome,
};
use super::providers::{key_package_of, mls_epoch_of, sha256_of};
use super::reception::{applies_commit, lemma_applied_commit};
use super::sealing::opened_or_raw;
use super::side_band::pq_half;
use super::state::{
    ledger_has, ApqCipherSuite, ApqInfoUpdate, BlobKind, CombinerGroup, PeerProposal,
    TwoMlsPqSession,
};

verus! {

// ---- rounds ----

/// A round of an established session succeeds exactly where everything that it asks for was done:
/// if it commits, the PSKs that it needs were exported, the approved proposal was taken in, an
/// owed bind still fits and its secret was exported, and the commit was built, leaves two members
/// and is there; and in any case a rotation that it takes up was minted, the id that was asked for
/// is staged, and the update was proposed.
pub proof fn law_round_succeeds_when_all_was_done(
    s: &mut TwoMlsPqSession,
    proposing: Option<ClientId>,
    out: PrepareOutcome,
    r: Result<PrepareEncryptResult>,
)
    requires
        call_ensures(TwoMlsPqSession::prepare_to_encrypt, (s, proposing, out), r),
        old(s).recv_group is Some,
        old(s).send_group is Some,
        old(s).queued_proposal matches Some(p) ==> mls_epoch_of(p.message@) is Some,
    ensures
        r is Ok <==> {
            let g = old(s).send_group->0;
            let commits = old(s).queued_proposal is Some || (old(s).owed_bind is Some && old(
                s,
            ).peer_applied_send_epoch is Some && old(s).peer_applied_send_epoch->0
                >= g.classical.epoch);
            let takes_up = proposing is None && old(s).deferred_candidate is Some && old(
                s,
            ).staged_candidates@.len() < 4;
            &&& commits ==> {
                &&& out.round.departing_psk is Ok || ledger_has(
                    old(s).send_psk_ledger@,
                    g.classical.epoch,
                )
                &&& out.round.cross_psk is Ok || old(s).last_cross_injected == Some(
                    old(s).recv_group->0.classical.epoch,
                )
                &&& old(s).queued_proposal is Some ==> out.round.fold is Ok
                &&& old(s).owed_bind matches Some(owed) ==> {
                    &&& g.pq is Some
                    &&& g.classical.epoch + 1 == owed.t_epoch
                    &&& g.pq->0.epoch == owed.pq_epoch
                    &&& out.round.commit.bind_psk is Ok
                }
                &&& out.round.commit.built matches Ok(c)
                &&& c.two_party
                &&& c.message is Some
                &&& out.round.commit.new_psk is Ok || ledger_has(
                    departing_ledger(*old(s), out.round),
                    c.half.epoch,
                )
            }
            &&& takes_up ==> out.update.minted is Ok
            &&& proposing matches Some(id) ==> all_bytes(old(s).staged_candidates@).contains(
                id.bytes@,
            )
            &&& out.update.message is Ok
        },
{
}

/// A commit that failed with a bind to discharge is said to have failed so, and the bind is lost;
/// any other failure of a commit is said as it is, a refused credential as that.
pub proof fn law_failed_discharge_is_said(
    s: &mut TwoMlsPqSession,
    proposing: Option<ClientId>,
    out: PrepareOutcome,
    r: Result<PrepareEncryptResult>,
)
    requires
        call_ensures(TwoMlsPqSession::prepare_to_encrypt, (s, proposing, out), r),
        old(s).recv_group is Some,
        old(s).send_group is Some,
        old(s).queued_proposal matches Some(p) && mls_epoch_of(p.message@) is Some,
        out.round.departing_psk is Ok,
        out.round.cross_psk is Ok,
        out.round.fold is Ok,
        out.round.commit.built is Err,
    ensures
        old(s).owed_bind is Some ==> r == Err::<PrepareEncryptResult, TwoMlsPqError>(
            TwoMlsPqError::BindDischargeFailed,
        ) && final(s).owed_bind is None,
        old(s).owed_bind is None ==> r == Err::<PrepareEncryptResult, TwoMlsPqError>(
            if out.round.commit.built->Err_0 == MlsRefusal::Other {
                TwoMlsPqError::Mls
            } else {
                TwoMlsPqError::CredentialRejected
            },
        ),
        final(s).send_group == old(s).send_group,
        final(s).current_staple@ == old(s).current_staple@,
        final(s).queued_proposal is None,
{
}

/// Whether the host may go on after the commit is answered as the round then decides it.
pub proof fn law_round_stands_as_it_is_settled(
    s: &mut TwoMlsPqSession,
    proposing: Option<ClientId>,
    out: PrepareOutcome,
    r: Result<PrepareEncryptResult>,
    t: &TwoMlsPqSession,
    round: &RoundOutcome,
    stands: bool,
)
    requires
        call_ensures(TwoMlsPqSession::prepare_to_encrypt, (s, proposing, out), r),
        *t == *old(s),
        *round == out.round,
        call_ensures(TwoMlsPqSession::round_stands, (t, round), stands),
        old(s).recv_group is Some,
        old(s).send_group is Some,
    ensures
        r matches Ok(p) && p.did_commit ==> stands,
        old(s).queued_proposal is Some && !stands ==> r is Err,
        old(s).queued_proposal is Some && stands ==> final(s).current_staple_seq
            == final(s).state_seq,
{
}

/// After a commit the ledger holds the PSK of the new epoch, so that the peer can refer to it.
pub proof fn law_commit_remembers_its_epoch(
    s: &mut TwoMlsPqSession,
    proposing: Option<ClientId>,
    out: PrepareOutcome,
    p: PrepareEncryptResult,
)
    requires
        call_ensures(TwoMlsPqSession::prepare_to_encrypt, (s, proposing, out), Ok(p)),
        p.did_commit,
    ensures
        ledger_has(final(s).send_psk_ledger@, final(s).send_group->0.classical.epoch),
        final(s).send_group->0.classical.epoch != old(s).send_group->0.classical.epoch
            && !ledger_has(
            departing_ledger(*old(s), out.round),
            final(s).send_group->0.classical.epoch,
        ) ==> final(s).send_psk_ledger@.last().exported == out.round.commit.new_psk->Ok_0,
{
    let l = final(s).send_psk_ledger@;
    let before = departing_ledger(*old(s), out.round);
    let epoch = final(s).send_group->0.classical.epoch;
    if !ledger_has(before, epoch) {
        assert(l.last().epoch == epoch);
    }
}

// ---- offers and rotations ----

/// An offer that is found good beforehand is the one that is then approved.
pub proof fn law_offer_is_judged_alike(
    s: &mut TwoMlsPqSession,
    digest: &[u8],
    processed: &ProcessedProposal,
    r: Result<()>,
    t: &TwoMlsPqSession,
    offer: &PeerProposal,
    verdict: Result<()>,
)
    requires
        call_ensures(TwoMlsPqSession::queue_proposal, (s, digest, processed), r),
        *t == *old(s),
        old(s).offered_proposal == Some(*offer),
        call_ensures(TwoMlsPqSession::validate_offered_update, (t, offer, processed), verdict),
    ensures
        offer.digest@ == digest@ ==> r == verdict,
        offer.digest@ != digest@ ==> r == Err::<(), TwoMlsPqError>(TwoMlsPqError::ProposalRejected),
{
}

/// Whether staging an id will need its principal minted is answered as staging then decides: it
/// does exactly for a new id while a place is free.
pub proof fn law_minting_is_foretold(
    s: &mut TwoMlsPqSession,
    id: Vec<u8>,
    e: TwoMlsPqError,
    r: Result<()>,
    t: &TwoMlsPqSession,
    bytes: &[u8],
    mints: bool,
)
    requires
        call_ensures(TwoMlsPqSession::stage_rotation, (s, id, Err(e)), r),
        *t == *old(s),
        bytes@ == id@,
        call_ensures(TwoMlsPqSession::mints_candidate, (t, bytes), mints),
        e != TwoMlsPqError::InvalidClientId,
    ensures
        mints <==> r == Err::<(), TwoMlsPqError>(e),
        id@.len() == 0 ==> r == Err::<(), TwoMlsPqError>(TwoMlsPqError::InvalidClientId)
            && *final(s) == *old(s),
        mints ==> old(s).staged_candidates@.len() < 4 && !all_bytes(
            old(s).staged_candidates@,
        ).contains(id@),
        r is Ok && !mints && *final(s) != *old(s) ==> opt_bytes(final(s).deferred_candidate)
            == Some(id@),
        id@.len() > 0 && all_bytes(old(s).staged_candidates@).contains(id@) ==> r is Ok && *final(s)
            == *old(s),
        id@.len() > 0 && !all_bytes(old(s).staged_candidates@).contains(id@) && opt_bytes(
            old(s).deferred_candidate,
        ) != Some(id@) && old(s).staged_candidates@.len() >= 4 ==> r is Ok && opt_bytes(
            final(s).deferred_candidate,
        ) == Some(id@) && final(s).staged_candidates == old(s).staged_candidates,
{
}

// ---- what comes in ----

/// A welcome to a session that has joined is answered by its digest: the one that was joined from
/// changes nothing, another is refused.
pub proof fn law_another_welcome_is_refused(
    s: &mut TwoMlsPqSession,
    blob: Vec<u8>,
    out: IncomingOutcome,
    r: Result<Option<DecryptResult>>,
)
    requires
        call_ensures(TwoMlsPqSession::process_incoming, (s, blob, out), r),
        !old(s).bind_apply_broken,
        old(s).recv_group is Some,
        first_byte(opened_or_raw(*old(s), blob@)) == Some(APQ_TAG),
    ensures
        r is Ok <==> opt_bytes(old(s).joined_welcome_digest) == Some(
            sha256_of(opened_or_raw(*old(s), blob@)),
        ),
        r is Ok ==> r matches Ok(None),
        r is Err ==> r == Err::<Option<DecryptResult>, TwoMlsPqError>(
            TwoMlsPqError::UnexpectedWelcome,
        ) && *final(s) == *old(s),
        final(s).recv_group == old(s).recv_group,
        final(s).their_state == old(s).their_state,
        final(s).auth_updates == old(s).auth_updates,
{
}

/// Why a plain commit of the receive group's epoch is refused: the host refused it, a credential
/// or else; it was none; what it attests does not fit; it did not leave two members; or it moved
/// our leaf to an id that is not ours.
pub proof fn law_refused_commit_is_said(
    s: &mut TwoMlsPqSession,
    blob: Vec<u8>,
    out: IncomingOutcome,
    r: Result<Option<DecryptResult>>,
    staple: Seq<u8>,
)
    requires
        call_ensures(TwoMlsPqSession::process_incoming, (s, blob, out), r),
        applies_commit(*old(s), blob@, staple),
        out.staple.send_psk is Ok,
    ensures
        out.staple.commit matches CommitProcessed::Refused { refusal } ==> r == Err::<
            Option<DecryptResult>,
            TwoMlsPqError,
        >(
            if refusal == MlsRefusal::Other {
                TwoMlsPqError::DecryptionFailed
            } else {
                TwoMlsPqError::CredentialRejected
            },
        ) && final(s).recv_group == old(s).recv_group,
        out.staple.commit is NotACommit ==> r == Err::<Option<DecryptResult>, TwoMlsPqError>(
            TwoMlsPqError::DecryptionFailed,
        ) && final(s).recv_group == old(s).recv_group,
        out.staple.commit matches CommitProcessed::Commit { half, attestation, two_party } ==> {
            &&& attestation is Ok && attestation->Ok_0 is Some && (pq_half(old(s).recv_group)
                is None || pq_half(old(s).recv_group)->0.epoch
                != attestation->Ok_0->0.pq_epoch || attestation->Ok_0->0.t_epoch != half.epoch)
                ==> r == Err::<Option<DecryptResult>, TwoMlsPqError>(
                TwoMlsPqError::ApqInfoMismatch,
            )
            &&& attestation == Ok::<Option<ApqInfoUpdate>, TwoMlsPqError>(None)
                && !two_party ==> r == Err::<Option<DecryptResult>, TwoMlsPqError>(
                TwoMlsPqError::Mls,
            )
            &&& attestation == Ok::<Option<ApqInfoUpdate>, TwoMlsPqError>(None)
                && two_party && half.my_leaf@ != old(s).recv_group->0.classical.my_leaf@
                && half.my_leaf@ != old(s).client_id.bytes@ && !all_bytes(
                old(s).staged_candidates@,
            ).contains(half.my_leaf@) ==> r == Err::<Option<DecryptResult>, TwoMlsPqError>(
                TwoMlsPqError::CredentialRejected,
            )
        },
{
    lemma_applied_commit(*old(s), blob@, out, *final(s), r, staple);
}

// ---- the side-band ----

/// A frame of a ratchet round that comes a second time is told from one that comes out of turn.
pub proof fn law_repeated_ratchet_frames_are_duplicates(
    s: &mut TwoMlsPqSession,
    msg: Vec<u8>,
    sealed: Result<SealedSecret>,
    r: Result<()>,
    t: &mut TwoMlsPqSession,
    ct: Vec<u8>,
    out: RatchetBindOutcome,
    q: Result<()>,
)
    requires
        call_ensures(TwoMlsPqSession::pq_ratchet_respond, (s, msg, sealed), r),
        first_byte(opened_or_raw(*old(s), msg@)) == Some(PQ_EK_TAG),
        call_ensures(TwoMlsPqSession::pq_ratchet_bind, (t, ct, out), q),
        first_byte(opened_or_raw(*old(t), ct@)) == Some(PQ_CT_TAG),
    ensures
        old(s).pq_inflight matches Some(p) ==> *final(s) == *old(s) && r == Err::<
            (),
            TwoMlsPqError,
        >(
            if p is Responding {
                TwoMlsPqError::DuplicateSideBand
            } else {
                TwoMlsPqError::SessionNotReady
            },
        ),
        old(t).owed_bind is Some || old(t).pending_proposal_hash is Some ==> q == Err::<
            (),
            TwoMlsPqError,
        >(TwoMlsPqError::SessionNotReady) && *final(t) == *old(t),
        old(t).owed_bind is None && old(t).pending_proposal_hash is None && old(t).pq_inflight
            is None ==> *final(t) == *old(t) && q == Err::<(), TwoMlsPqError>(
            if old(t).pq_turn_mine {
                TwoMlsPqError::SessionNotReady
            } else {
                TwoMlsPqError::DuplicateSideBand
            },
        ),
        out.opened is Err ==> q is Err && *final(t) == *old(t),
{
}

/// A re-key's commit that comes a second time is told from one that comes out of turn; and one
/// that attests anything, or does not leave two members, is no re-key's.
pub proof fn law_repeated_rekey_commit_is_a_duplicate(
    s: &mut TwoMlsPqSession,
    msg: Vec<u8>,
    out: RekeyApplyOutcome,
    r: Result<()>,
    applied: &CommitProcessed,
    stands: bool,
)
    requires
        call_ensures(TwoMlsPqSession::pq_rekey_apply, (s, msg, out), r),
        read2(opened_or_raw(*old(s), msg@), PQ_REKEY_COMMIT_TAG) is Some,
        *applied == out.applied,
        call_ensures(rekey_commit_stands, (applied,), stands),
    ensures
        old(s).owed_bind is None && old(s).pending_proposal_hash is None && old(s).pq_inflight
            is None ==> *final(s) == *old(s) && r == Err::<(), TwoMlsPqError>(
            if old(s).pq_turn_mine {
                TwoMlsPqError::SessionNotReady
            } else {
                TwoMlsPqError::DuplicateSideBand
            },
        ),
        old(s).owed_bind is Some || old(s).pending_proposal_hash is Some ==> r == Err::<
            (),
            TwoMlsPqError,
        >(TwoMlsPqError::SessionNotReady) && *final(s) == *old(s),
        r is Ok ==> stands,
        stands <==> (out.applied matches CommitProcessed::Commit { attestation, two_party, .. }
            && attestation == Ok::<Option<ApqInfoUpdate>, TwoMlsPqError>(None)
            && two_party),
{
}

/// A bootstrap key package that is not the one committed to is refused, and changes nothing.
pub proof fn law_other_key_package_is_refused(
    s: &mut TwoMlsPqSession,
    msg: Vec<u8>,
    created: Result<CreatedHalf>,
    r: Result<()>,
    kp: Seq<u8>,
)
    requires
        call_ensures(TwoMlsPqSession::pq_bootstrap_respond, (s, msg, created), r),
        opened_or_raw(*old(s), msg@) == seq![PQ_BOOTSTRAP_KP_TAG] + kp,
        key_package_suite_check(kp, old(s).suite.pq) is Ok,
    ensures
        old(s).expected_bootstrap_kp_commitment matches Some(c) ==> c@ != sha256_of(kp) ==> r
            == Err::<(), TwoMlsPqError>(TwoMlsPqError::BootstrapKpMismatch) && *final(s) == *old(s),
        old(s).expected_bootstrap_kp_commitment is None && (
        key_package_of(kp)->0).0 != current_id(old(s).their_state) ==> r == Err::<
            (),
            TwoMlsPqError,
        >(TwoMlsPqError::RemoteIdentityMismatch) && *final(s) == *old(s),
{
    let frame = opened_or_raw(*old(s), msg@);
    assert(frame[0] == PQ_BOOTSTRAP_KP_TAG);
    assert(frame.subrange(1, frame.len() as int) =~= kp);
}

/// The operations of the side-band are pushed whole, since the PQ trees move with them; each is
/// counted once it gets past its checks.
pub proof fn law_side_band_operations_are_pushed_whole(
    s: &mut TwoMlsPqSession,
    ephemeral: Ephemeral,
    sent: Vec<u8>,
    t: &mut TwoMlsPqSession,
    msg: Vec<u8>,
    out: RatchetBindOutcome,
    u: &mut TwoMlsPqSession,
    upd: Vec<u8>,
    canonical: &Vec<Vec<u8>>,
    answer: RekeyRespondOutcome,
    id: Option<ClientId>,
)
    requires
        call_ensures(TwoMlsPqSession::pq_ratchet_begin, (s, Ok(ephemeral)), Ok(sent)),
        call_ensures(TwoMlsPqSession::pq_ratchet_bind, (t, msg, out), Ok(())),
        call_ensures(TwoMlsPqSession::pq_rekey_respond, (u, upd, canonical, answer), Ok(id)),
        old(s).state_seq < u64::MAX,
        old(t).state_seq < u64::MAX,
        old(u).state_seq < u64::MAX,
    ensures
        final(s).state_seq == old(s).state_seq + 1,
        final(t).state_seq == old(t).state_seq + 1,
        final(u).state_seq == old(u).state_seq + 1,
        final(s).push is Some <==> old(s).sink_installed,
        final(t).push is Some <==> old(t).sink_installed,
        final(u).push is Some <==> old(u).sink_installed,
        final(s).push matches Some(p) ==> p.kind == BlobKind::Checkpoint && p.seq
            == final(s).state_seq,
        final(t).push matches Some(p) ==> p.kind == BlobKind::Checkpoint && p.seq
            == final(t).state_seq,
        final(u).push matches Some(p) ==> p.kind == BlobKind::Checkpoint && p.seq
            == final(u).state_seq,
        ledger_has(final(t).send_psk_ledger@, old(t).send_group->0.classical.epoch),
        final(u).last_cross_injected_pq == Some(pq_half(old(u).recv_group)->0.epoch),
{
    let l = final(t).send_psk_ledger@;
    let epoch = old(t).send_group->0.classical.epoch;
    if !ledger_has(old(t).send_psk_ledger@, epoch) {
        assert(l.last().epoch == epoch);
    }
}

/// So are the others of them.
pub proof fn law_side_band_answers_are_pushed_whole(
    s: &mut TwoMlsPqSession,
    ek: Vec<u8>,
    sealed: SealedSecret,
    t: &mut TwoMlsPqSession,
    msg: Vec<u8>,
    out: RekeyApplyOutcome,
    u: &mut TwoMlsPqSession,
    kp: Vec<u8>,
    created: CreatedHalf,
    v: &mut TwoMlsPqSession,
    welcome: Vec<u8>,
    bound: BootstrapBindOutcome,
)
    requires
        call_ensures(TwoMlsPqSession::pq_ratchet_respond, (s, ek, Ok(sealed)), Ok(())),
        call_ensures(TwoMlsPqSession::pq_rekey_apply, (t, msg, out), Ok(())),
        call_ensures(TwoMlsPqSession::pq_bootstrap_respond, (u, kp, Ok(created)), Ok(())),
        call_ensures(TwoMlsPqSession::pq_bootstrap_bind, (v, welcome, bound), Ok(())),
        old(s).state_seq < u64::MAX,
        old(t).state_seq < u64::MAX,
        old(u).state_seq < u64::MAX,
        old(v).state_seq < u64::MAX,
    ensures
        final(s).state_seq == old(s).state_seq + 1,
        final(t).state_seq == old(t).state_seq + 1,
        final(u).state_seq == old(u).state_seq + 1,
        final(v).state_seq == old(v).state_seq + 1,
        final(s).push is Some <==> old(s).sink_installed,
        final(t).push is Some <==> old(t).sink_installed,
        final(u).push is Some <==> old(u).sink_installed,
        final(v).push is Some <==> old(v).sink_installed,
        final(s).push matches Some(p) ==> p.kind == BlobKind::Checkpoint && p.seq
            == final(s).state_seq,
        final(t).push matches Some(p) ==> p.kind == BlobKind::Checkpoint && p.seq
            == final(t).state_seq,
        final(u).push matches Some(p) ==> p.kind == BlobKind::Checkpoint && p.seq
            == final(u).state_seq,
        final(v).push matches Some(p) ==> p.kind == BlobKind::Checkpoint && p.seq
            == final(v).state_seq,
{
}

/// A message, an approval and a rotation are counted, and pushed without the PQ trees.
pub proof fn law_other_operations_are_pushed_without_the_trees(
    s: &mut TwoMlsPqSession,
    app: Option<Vec<u8>>,
    sent: Result<Encrypted>,
    t: &mut TwoMlsPqSession,
    digest: &[u8],
    processed: &ProcessedProposal,
    r: Result<()>,
    u: &mut TwoMlsPqSession,
    id: Vec<u8>,
    minted: Result<()>,
    q: Result<()>,
)
    requires
        call_ensures(TwoMlsPqSession::encrypt, (s, app), sent),
        call_ensures(TwoMlsPqSession::queue_proposal, (t, digest, processed), r),
        old(t).offered_proposal is Some,
        call_ensures(TwoMlsPqSession::stage_rotation, (u, id, minted), q),
        old(s).state_seq < u64::MAX,
        old(t).state_seq < u64::MAX,
        old(u).state_seq < u64::MAX,
    ensures
        final(u).state_seq == old(u).state_seq + 1 || *final(u) == *old(u),
        *final(u) != *old(u) ==> (final(u).push is Some <==> old(u).sink_installed),
        *final(u) != *old(u) && final(u).push is Some ==> final(u).push->0.kind == BlobKind::Core
            && final(u).push->0.seq == final(u).state_seq,
        final(s).state_seq == old(s).state_seq + 1,
        final(t).state_seq == old(t).state_seq + 1,
        final(s).push is Some <==> old(s).sink_installed,
        final(t).push is Some <==> old(t).sink_installed,
        final(s).push matches Some(p) ==> p.kind == BlobKind::Core && p.seq == final(s).state_seq,
        final(t).push matches Some(p) ==> p.kind == BlobKind::Core && p.seq == final(t).state_seq,
{
}

// ---- founding ----

/// What may be initiated is answered beforehand as initiating then decides, with the id and the
/// session that it then has.
pub proof fn law_initiating_is_foretold(
    me: ClientId,
    suite: ApqCipherSuite,
    theirs: CombinerKeyPackage,
    binding: &Option<Vec<u8>>,
    made: Initiated,
    r: Result<TwoMlsPqSession>,
    as_me: &ClientId,
    kp: &CombinerKeyPackage,
    plan: Result<InitiatePlan>,
)
    requires
        call_ensures(TwoMlsPqSession::initiate, (me, suite, theirs, binding, made), r),
        *as_me == me,
        *kp == theirs,
        call_ensures(initiate_plan, (as_me, suite, kp, binding), plan),
    ensures
        plan is Ok <==> r is Ok,
        plan is Err ==> r is Err && r->Err_0 == plan->Err_0,
        plan matches Ok(p) ==> {
            &&& r matches Ok(s)
            &&& s.session_id@ == p.session_id@
            &&& current_id(s.their_state) == p.their_id.bytes@
        },
{
}

/// What may be accepted is answered beforehand as accepting then decides, up to what was joined,
/// and what was joined is judged alike; the halves of the welcome are handed over as they came.
pub proof fn law_accepting_is_foretold(
    invited: ClientId,
    dedicated: Option<ClientId>,
    suite: ApqCipherSuite,
    made: Accepted,
    welcome: &[u8],
    their_kp: &[u8],
    commitment: Vec<u8>,
    token: Option<Vec<u8>>,
    binding: &Option<Vec<u8>>,
    r: Result<TwoMlsPqSession>,
    as_invited: &ClientId,
    digest: &[u8],
    plan: Result<AcceptPlan>,
    them: &ClientId,
    joined: &CombinerGroup,
    verdict: Result<()>,
)
    requires
        call_ensures(
            TwoMlsPqSession::accept_with,
            (invited, dedicated, suite, made, welcome, their_kp, commitment, token, binding),
            r,
        ),
        *as_invited == invited,
        digest@ == commitment@,
        call_ensures(accept_plan, (as_invited, suite, welcome, their_kp, digest, binding), plan),
        plan matches Ok(p) ==> them.bytes@ == p.their_id.bytes@,
        *joined == made.recv_group,
        call_ensures(check_joined, (them, joined, made.pq_unbound, binding), verdict),
    ensures
        r is Ok <==> plan is Ok && verdict is Ok,
        plan is Err ==> r is Err && r->Err_0 == plan->Err_0,
        plan is Ok && verdict is Err ==> r is Err && r->Err_0 == verdict->Err_0,
        plan matches Ok(p) ==> {
            &&& read2(welcome@, APQ_TAG) == Some((p.classical_welcome@, p.pq_welcome@))
            &&& r matches Ok(s) ==> s.session_id@ == p.session_id@ && current_id(s.their_state)
                == p.their_id.bytes@
        },
{
}

} // verus!
