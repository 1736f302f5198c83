//! The rounds of the side-band, said of the calls on both sides: what one side sends, the other is
//! to answer with, and what each then holds.

use vstd::prelude::*;
use crate::bytes::{all_bytes, opt_bytes};
use crate::types::{opt_id, ClientId};
use super::error::{Result, TwoMlsPqError};
use super::frames::{
    is_tagged, lemma_read2, parts2, SideBandSealing, PQ_BOOTSTRAP_KP_TAG, PQ_BOOTSTRAP_WELCOME_TAG,
    PQ_CT_TAG, PQ_EK_TAG, PQ_REKEY_COMMIT_TAG, PQ_REKEY_UPD_TAG,
};
use super::incoming::CommitProcessed;
use super::key_packages::key_package_suite_check;
use super::messaging::ProcessedProposal;
use super::pq_ops::{
    BootstrapBindOutcome, BootstrapBindPlan, CreatedHalf, Ephemeral, OpenPlan, RatchetBindOutcome,
    RekeyApplyOutcome, RekeyApplyPlan, RekeyPlan, RekeyRespondOutcome, RekeyRespondPlan, SealPlan,
    SealedSecret,
};
use super::providers::{header_open_of, mls_epoch_of, sha256_of, HEADER_NONCE_LEN};
use super::retention::lemma_first_place;
use super::sealing::{
    header_candidates, law_sealed_frame_opens, opened_or_raw, sealed_as,
};
use super::state::{
    ledger_has, ApqInfoUpdate, CombinerGroup, EpochKey, GroupHalf, PqInflight, TwoMlsPqSession,
};

verus! {

/// The key that a side's outbound side-band frames are sealed under: that of the receive group's
/// PQ half, or of its classical half while there is none.
pub open spec fn outbound_key(s: TwoMlsPqSession) -> Option<Seq<u8>> {
    match s.recv_group {
        Some(g) => match g.pq {
            Some(pq) => Some(pq.header_key@),
            None => Some(g.classical.header_key@),
        },
        None => None,
    }
}

/// Whether a window holds a key, of whatever epoch.
pub open spec fn holds_key(w: Seq<EpochKey>, key: Seq<u8>) -> bool {
    exists|i: int| 0 <= i < w.len() && (#[trigger] w[i]).key@ == key
}

/// Whether a blob that is sealed under `key` reaches a side: it holds that key, and no other one
/// opens the blob.
pub open spec fn reaches(s: TwoMlsPqSession, key: Seq<u8>, blob: Seq<u8>) -> bool {
    &&& holds_key(s.recv_header_keys@, key) || holds_key(s.recv_header_keys_pq@, key)
    &&& forall|other: Seq<u8>|
        other != key ==> #[trigger] header_open_of(
            other,
            blob.subrange(0, HEADER_NONCE_LEN as int),
            blob.subrange(HEADER_NONCE_LEN as int, blob.len() as int),
        ) is None
}

/// The first place at which a side tries a key that a blob reaches it under; none before it opens
/// the blob.
pub proof fn lemma_first_candidate(s: TwoMlsPqSession, key: Seq<u8>, blob: Seq<u8>) -> (i: int)
    requires
        reaches(s, key, blob),
    ensures
        0 <= i < header_candidates(s).len(),
        header_candidates(s)[i] == key,
        forall|j: int|
            0 <= j < i ==> header_open_of(
                #[trigger] header_candidates(s)[j],
                blob.subrange(0, HEADER_NONCE_LEN as int),
                blob.subrange(HEADER_NONCE_LEN as int, blob.len() as int),
            ) is None,
{
    let c = header_candidates(s);
    let (a, b) = (s.recv_header_keys@, s.recv_header_keys_pq@);
    let n = if holds_key(a, key) {
        let i = choose|i: int| 0 <= i < a.len() && (#[trigger] a[i]).key@ == key;
        a.len() - 1 - i
    } else {
        let i = choose|i: int| 0 <= i < b.len() && (#[trigger] b[i]).key@ == key;
        a.len() + (b.len() - 1 - i)
    };
    assert(c[n] == key);
    lemma_first_place(c, key, n)
}

/// A blob that reaches a side opens to the frame that was sealed.
pub proof fn lemma_reaches(s: TwoMlsPqSession, key: Seq<u8>, blob: Seq<u8>, frame: Seq<u8>)
    requires
        sealed_as(blob, key, frame),
        reaches(s, key, blob),
    ensures
        opened_or_raw(s, blob) == frame,
{
    let i = lemma_first_candidate(s, key, blob);
    law_sealed_frame_opens(s, blob, key, frame, i);
}

/// A frame that is sealed under any header key that a side holds, of a classical or of a PQ epoch,
/// opens, unless another key opens it too.
pub proof fn law_held_keys_open(
    s: &TwoMlsPqSession,
    key: Seq<u8>,
    blob: Vec<u8>,
    frame: Seq<u8>,
    opened: Vec<u8>,
)
    requires
        sealed_as(blob@, key, frame),
        reaches(*s, key, blob@),
        call_ensures(TwoMlsPqSession::open_or_raw, (s, blob), opened),
    ensures
        opened@ == frame,
{
    lemma_reaches(*s, key, blob@, frame);
}

/// The PQ half of a group.
pub open spec fn pq_half(g: Option<CombinerGroup>) -> Option<GroupHalf> {
    match g {
        Some(g) => g.pq,
        None => None,
    }
}

// ---- the ratchet ----

/// A ratchet round's first frame gives its responder the encapsulation key that it was begun
/// with, and the secret that it shares with the initiator of the group that the round is in.
pub proof fn law_ratchet_key_reaches_the_responder(
    s: &mut TwoMlsPqSession,
    ephemeral: Ephemeral,
    sent: Vec<u8>,
    peer: &TwoMlsPqSession,
    plan: Result<SealPlan>,
)
    requires
        call_ensures(TwoMlsPqSession::pq_ratchet_begin, (s, Ok(ephemeral)), Ok(sent)),
        outbound_key(*old(s)) matches Some(key) && reaches(*peer, key, sent@),
        call_ensures(TwoMlsPqSession::pq_ratchet_respond_plan, (peer, sent), plan),
    ensures
        plan is Ok <==> peer.pq_inflight is None && pq_half(peer.recv_group) is Some,
        plan matches Ok(p) ==> {
            &&& p.ek@ == ephemeral.ek@
            &&& p.psk@ == pq_half(peer.recv_group)->0.ct_seal_psk@
        },
        old(s).pq_inflight is None,
        final(s).pq_inflight matches Some(PqInflight::Initiating { dk, ek }) && dk@
            == ephemeral.dk@ && ek@ == ephemeral.ek@,
        final(s).pq_turn_mine == old(s).pq_turn_mine,
        final(s).send_group == old(s).send_group,
        final(s).recv_group == old(s).recv_group,
{
    let frame = seq![PQ_EK_TAG] + ephemeral.ek@;
    lemma_reaches(*peer, outbound_key(*old(s))->0, sent@, frame);
    assert(frame.subrange(1, frame.len() as int) =~= ephemeral.ek@);
}

/// The answer that a ratchet round's responder then hands out gives the initiator the ciphertext
/// that was sealed, to be opened with the key that the round was begun with; and the responder
/// holds the secret until the bind.
pub proof fn law_ratchet_answer_reaches_the_initiator(
    s: &mut TwoMlsPqSession,
    msg: Vec<u8>,
    sealed: SealedSecret,
    t: &mut TwoMlsPqSession,
    sent: Vec<u8>,
    peer: &TwoMlsPqSession,
    plan: Result<OpenPlan>,
)
    requires
        call_ensures(TwoMlsPqSession::pq_ratchet_respond, (s, msg, Ok(sealed)), Ok(())),
        *old(t) == *final(s),
        call_ensures(TwoMlsPqSession::hand_out, (t, SideBandSealing::Fresh), Some(sent)),
        outbound_key(*old(t)) matches Some(key) && reaches(*peer, key, sent@),
        call_ensures(TwoMlsPqSession::pq_ratchet_bind_plan, (peer, sent), plan),
    ensures
        final(s).pq_inflight matches Some(PqInflight::Responding { secret }) && secret@
            == sealed.secret@,
        plan matches Ok(p) ==> {
            &&& peer.pq_inflight matches Some(PqInflight::Initiating { dk, .. }) && p.dk@ == dk@
            &&& p.ct@ == sealed.ct@
            &&& p.psk@ == pq_half(peer.send_group)->0.ct_seal_psk@
        },
        peer.pq_inflight is Some && peer.pq_inflight->0 is Initiating && pq_half(peer.send_group)
            is Some && peer.owed_bind is None && peer.pending_proposal_hash is None ==> plan is Ok,
        final(s).pq_turn_mine == old(s).pq_turn_mine,
        final(s).send_group == old(s).send_group,
        final(s).recv_group == old(s).recv_group,
{
    let frame = seq![PQ_CT_TAG] + sealed.ct@;
    lemma_reaches(*peer, outbound_key(*old(t))->0, sent@, frame);
    assert(frame.subrange(1, frame.len() as int) =~= sealed.ct@);
}

/// Whether a bind closed a round: the PQ half is past its commit and the rest of the send group is
/// as it was; the commit is owed with the epochs that both halves reach next; the round is over
/// and its frame is gone; and the turn is not passed yet.
pub open spec fn bound_by(
    s: TwoMlsPqSession,
    half: GroupHalf,
    commit: Seq<u8>,
    now: TwoMlsPqSession,
) -> bool {
    &&& s.send_group matches Some(was)
    &&& now.send_group matches Some(is)
    &&& is.pq == Some(half)
    &&& is.classical == was.classical
    &&& is.app_binding == was.app_binding
    &&& was.pq matches Some(pq)
    &&& now.owed_bind matches Some(owed)
    &&& owed.pq_commit@ == commit
    &&& owed.t_epoch == was.classical.epoch + 1
    &&& owed.pq_epoch == pq.epoch + 1
    &&& now.pq_inflight is None
    &&& now.pending_side_band is None
    &&& now.pq_turn_mine == s.pq_turn_mine
    &&& now.current_staple == s.current_staple
}

/// A bound ratchet round owes its commit.
pub proof fn law_ratchet_bind_owes_its_commit(
    s: &mut TwoMlsPqSession,
    msg: Vec<u8>,
    out: RatchetBindOutcome,
)
    requires
        call_ensures(TwoMlsPqSession::pq_ratchet_bind, (s, msg, out), Ok(())),
    ensures
        out.opened is Ok,
        out.commit matches Ok(c) && bound_by(*old(s), c.half, c.commit@, *final(s)),
        final(s).recv_group == old(s).recv_group,
        old(s).owed_bind is None,
        old(s).pq_inflight matches Some(PqInflight::Initiating { .. }),
{
}

/// A closed re-key owes its commit, and the receive group's PQ half is past the peer's.
pub proof fn law_rekey_bind_owes_its_commit(
    s: &mut TwoMlsPqSession,
    msg: Vec<u8>,
    out: RekeyApplyOutcome,
)
    requires
        call_ensures(TwoMlsPqSession::pq_rekey_apply, (s, msg, out), Ok(())),
    ensures
        out.commit matches Ok(c) && bound_by(*old(s), c.half, c.commit@, *final(s)),
        out.applied matches CommitProcessed::Commit {
            half,
            attestation,
            two_party,
        } && {
            &&& pq_half(final(s).recv_group) == Some(half)
            &&& attestation == Ok::<Option<ApqInfoUpdate>, TwoMlsPqError>(None)
            &&& two_party
            &&& final(s).last_cross_injected_pq == Some(half.epoch)
        },
        final(s).recv_group->0.classical == old(s).recv_group->0.classical,
        final(s).last_send_pq_exported == Some(pq_half(old(s).send_group)->0.epoch),
        out.secret is Ok,
        old(s).owed_bind is None,
        old(s).pq_inflight == Some(PqInflight::RekeyInitiated),
{
}

/// A secret is exported of one PQ epoch once: closing a re-key is planned to export the send
/// group's exactly where that epoch was not exported of before, and a second one then is not.
pub proof fn law_epoch_is_exported_of_once(
    s: &TwoMlsPqSession,
    msg: Vec<u8>,
    plan: RekeyApplyPlan,
)
    requires
        call_ensures(TwoMlsPqSession::pq_rekey_apply_plan, (s, msg), Ok(plan)),
    ensures
        plan.export_send <==> s.last_send_pq_exported != Some(pq_half(s.send_group)->0.epoch),
        plan.attestation matches Ok(a) ==> {
            &&& a.t_epoch == s.send_group->0.classical.epoch + 1
            &&& a.pq_epoch == pq_half(s.send_group)->0.epoch + 1
        },
        pq_half(s.send_group) is Some,
        pq_half(s.recv_group) is Some,
        s.pq_inflight == Some(PqInflight::RekeyInitiated),
{
}

/// The PSK of the epoch that a ratchet round's bind departs from is exported exactly where it is not
/// remembered yet, and the bind attests the next epochs of both halves.
pub proof fn law_bind_is_planned_for_the_next_epochs(
    s: &TwoMlsPqSession,
    msg: Vec<u8>,
    plan: OpenPlan,
)
    requires
        call_ensures(TwoMlsPqSession::pq_ratchet_bind_plan, (s, msg), Ok(plan)),
    ensures
        plan.export_departing <==> !ledger_has(
            s.send_psk_ledger@,
            s.send_group->0.classical.epoch,
        ),
        plan.attestation matches Ok(a) ==> {
            &&& a.t_epoch == s.send_group->0.classical.epoch + 1
            &&& a.pq_epoch == pq_half(s.send_group)->0.epoch + 1
        },
        s.owed_bind is None,
        s.pending_proposal_hash is None,
{
}

/// Who may begin: a bootstrap or a re-key on this side's turn only, for no id but its own, with no
/// round open; the bootstrap while the receive group has no PQ half, the re-key once both have.
pub proof fn law_rounds_are_begun_in_turn(
    s: &TwoMlsPqSession,
    rotating: &Option<ClientId>,
    ratchet: Result<()>,
    rekey: Result<RekeyPlan>,
    bootstrap: Result<bool>,
)
    requires
        call_ensures(TwoMlsPqSession::pq_ratchet_begin_plan, (s,), ratchet),
        call_ensures(TwoMlsPqSession::pq_rekey_begin_plan, (s, rotating), rekey),
        call_ensures(TwoMlsPqSession::pq_bootstrap_begin_plan, (s, rotating), bootstrap),
    ensures
        ratchet is Ok <==> s.recv_group is Some && s.pq_inflight is None,
        rekey is Ok <==> {
            &&& s.pq_turn_mine
            &&& s.pq_inflight is None
            &&& pq_half(s.send_group) is Some
            &&& pq_half(s.recv_group) is Some
            &&& *rotating is None || (*rotating)->0.bytes@ == s.client_id.bytes@
        },
        bootstrap is Ok <==> {
            &&& s.pq_turn_mine
            &&& s.pq_inflight is None
            &&& s.send_group is Some
            &&& s.recv_group is Some
            &&& pq_half(s.recv_group) is None
            &&& *rotating is None || (*rotating)->0.bytes@ == s.client_id.bytes@
        },
        bootstrap matches Ok(mint) ==> (mint <==> s.bootstrap_kp is None),
        rekey matches Ok(p) ==> opt_bytes(p.handoff) == opt_id(*rotating),
{
}

/// A closed bootstrap owes its commit, and the receive group has the PQ half that was joined.
pub proof fn law_bootstrap_bind_owes_its_commit(
    s: &mut TwoMlsPqSession,
    msg: Vec<u8>,
    out: BootstrapBindOutcome,
)
    requires
        call_ensures(TwoMlsPqSession::pq_bootstrap_bind, (s, msg, out), Ok(())),
    ensures
        out.commit matches Ok(c) && bound_by(*old(s), c.half, c.commit@, *final(s)),
        out.joined matches Ok(half) && pq_half(final(s).recv_group) == Some(half)
            && final(s).last_cross_injected_pq == Some(half.epoch),
        pq_half(old(s).recv_group) is None,
        final(s).recv_group->0.classical == old(s).recv_group->0.classical,
        final(s).bootstrap_kp_secret is None,
        out.secret is Ok,
        old(s).owed_bind is None,
        old(s).pq_inflight == Some(PqInflight::BootstrapInitiated),
{
}

// ---- the re-key ----

/// A re-key's first frame gives its responder the update that was proposed. It is begun on this
/// side's turn only, and for no id but the one that this side runs under.
pub proof fn law_rekey_update_reaches_the_responder(
    s: &mut TwoMlsPqSession,
    rotating: &Option<ClientId>,
    proposal: Vec<u8>,
    sent: Vec<u8>,
    peer: &TwoMlsPqSession,
    plan: Result<RekeyRespondPlan>,
)
    requires
        call_ensures(TwoMlsPqSession::pq_rekey_begin, (s, rotating, Ok(proposal)), Ok(sent)),
        outbound_key(*old(s)) matches Some(key) && reaches(*peer, key, sent@),
        call_ensures(TwoMlsPqSession::pq_rekey_respond_plan, (peer, sent), plan),
    ensures
        plan matches Ok(p) ==> {
            &&& p.proposal@ == proposal@
            &&& p.my_index == pq_half(peer.send_group)->0.my_index
            &&& p.handoff <==> pq_half(peer.send_group)->0.my_leaf@ != peer.client_id.bytes@
            &&& p.export_cross <==> peer.last_cross_injected_pq != Some(
                pq_half(peer.recv_group)->0.epoch,
            )
        },
        peer.pq_inflight is None && peer.owed_bind is None && pq_half(peer.send_group) is Some
            && pq_half(peer.recv_group) is Some && mls_epoch_of(proposal@) is Some ==> plan is Ok,
        old(s).pq_turn_mine,
        old(s).pq_inflight is None,
        *rotating matches Some(id) ==> id.bytes@ == old(s).client_id.bytes@,
        final(s).pq_inflight == Some(PqInflight::RekeyInitiated),
        final(s).pq_turn_mine,
        final(s).send_group == old(s).send_group,
        final(s).recv_group == old(s).recv_group,
{
    let frame = seq![PQ_REKEY_UPD_TAG] + proposal@;
    lemma_reaches(*peer, outbound_key(*old(s))->0, sent@, frame);
    assert(frame.subrange(1, frame.len() as int) =~= proposal@);
}

/// Answering a re-key takes nothing but an update of the peer's, under an id that is the peer's by
/// agreement if it announces one; the commit lands on the PQ half of the send group, and is what
/// the initiator is then handed to apply.
pub proof fn law_rekey_answer_reaches_the_initiator(
    s: &mut TwoMlsPqSession,
    msg: Vec<u8>,
    canonical: &Vec<Vec<u8>>,
    out: RekeyRespondOutcome,
    id: Option<ClientId>,
    t: &mut TwoMlsPqSession,
    sent: Vec<u8>,
    peer: &TwoMlsPqSession,
    plan: Result<RekeyApplyPlan>,
)
    requires
        call_ensures(TwoMlsPqSession::pq_rekey_respond, (s, msg, canonical, out), Ok(id)),
        *old(t) == *final(s),
        call_ensures(TwoMlsPqSession::hand_out, (t, SideBandSealing::Fresh), Some(sent)),
        outbound_key(*old(t)) matches Some(key) && reaches(*peer, key, sent@),
        call_ensures(TwoMlsPqSession::pq_rekey_apply_plan, (peer, sent), plan),
    ensures
        id matches Some(announced) ==> all_bytes(canonical@).contains(announced.bytes@),
        out.processed matches ProcessedProposal::Proposal { authenticated_data, .. } && opt_id(id)
            == (if authenticated_data@.len() > 0 {
            Some(authenticated_data@)
        } else {
            None
        }),
        out.commit matches Ok(c) && {
            &&& c.two_party
            &&& c.message matches Some(m)
            &&& pq_half(final(s).send_group) == Some(c.half)
            &&& plan is Ok && 0 < m@.len() <= u32::MAX ==> plan->Ok_0.commit@ == m@
        },
        final(s).send_group->0.classical == old(s).send_group->0.classical,
        final(s).recv_group == old(s).recv_group,
        final(s).pq_inflight == Some(PqInflight::RekeyResponded),
        final(s).pq_turn_mine == old(s).pq_turn_mine,
        old(s).pq_inflight is None,
        old(s).owed_bind is None,
{
    let m = out.commit->Ok_0.message->0@;
    let frame = final(s).pending_side_band->0.frame@;
    lemma_reaches(*peer, outbound_key(*old(t))->0, sent@, frame);
    if 0 < m.len() <= u32::MAX {
        let none = Seq::<u8>::empty();
        let q = parts2(m, none);
        assert(q[0] == m && q[1] == none);
        assert(is_tagged(frame, PQ_REKEY_COMMIT_TAG, q));
        lemma_read2(frame, PQ_REKEY_COMMIT_TAG, m, none);
    }
}

// ---- the bootstrap ----

/// A bootstrap's first frame gives its responder the key package that was committed to, or else
/// the one that was made for it; it is answered exactly if it hashes to the commitment that the
/// responder holds, is of the suite, and the responder has no PQ half yet.
pub proof fn law_bootstrap_key_package_reaches_the_responder(
    s: &mut TwoMlsPqSession,
    rotating: &Option<ClientId>,
    minted: Result<Vec<u8>>,
    sent: Vec<u8>,
    peer: &TwoMlsPqSession,
    plan: Result<Vec<u8>>,
)
    requires
        call_ensures(TwoMlsPqSession::pq_bootstrap_begin, (s, rotating, minted), Ok(sent)),
        outbound_key(*old(s)) matches Some(key) && reaches(*peer, key, sent@),
        call_ensures(TwoMlsPqSession::pq_bootstrap_respond_plan, (peer, sent), plan),
    ensures
        ({
            let kp = match old(s).bootstrap_kp {
                Some(kp) => kp@,
                None => minted->Ok_0@,
            };
            &&& plan matches Ok(p) ==> p@ == kp
            &&& peer.expected_bootstrap_kp_commitment is Some
                && peer.expected_bootstrap_kp_commitment->0@ != sha256_of(kp) ==> plan is Err
            &&& peer.expected_bootstrap_kp_commitment is Some
                && peer.expected_bootstrap_kp_commitment->0@ == sha256_of(kp)
                && key_package_suite_check(kp, peer.suite.pq) is Ok && pq_half(peer.send_group)
                is None ==> plan is Ok
            &&& pq_half(peer.send_group) is Some ==> plan is Err
        }),
        old(s).pq_turn_mine,
        old(s).pq_inflight is None,
        pq_half(old(s).recv_group) is None,
        final(s).bootstrap_kp is None,
        final(s).bootstrap_kp_secret == old(s).bootstrap_kp_secret,
        final(s).pq_inflight == Some(PqInflight::BootstrapInitiated),
        final(s).pq_turn_mine,
{
    let kp = match old(s).bootstrap_kp {
        Some(kp) => kp@,
        None => minted->Ok_0@,
    };
    let frame = seq![PQ_BOOTSTRAP_KP_TAG] + kp;
    lemma_reaches(*peer, outbound_key(*old(s))->0, sent@, frame);
    assert(frame.subrange(1, frame.len() as int) =~= kp);
}

/// Answering a bootstrap gives the send group the PQ half that was made, and the initiator the
/// welcome to it, to be joined with the private half that it kept.
pub proof fn law_bootstrap_answer_reaches_the_initiator(
    s: &mut TwoMlsPqSession,
    msg: Vec<u8>,
    created: CreatedHalf,
    t: &mut TwoMlsPqSession,
    sent: Vec<u8>,
    peer: &TwoMlsPqSession,
    plan: Result<BootstrapBindPlan>,
)
    requires
        call_ensures(TwoMlsPqSession::pq_bootstrap_respond, (s, msg, Ok(created)), Ok(())),
        *old(t) == *final(s),
        call_ensures(TwoMlsPqSession::hand_out, (t, SideBandSealing::Fresh), Some(sent)),
        outbound_key(*old(t)) matches Some(key) && reaches(*peer, key, sent@),
        call_ensures(TwoMlsPqSession::pq_bootstrap_bind_plan, (peer, sent), plan),
    ensures
        plan matches Ok(p) ==> {
            &&& p.welcome@ == created.welcome@
            &&& opt_bytes(p.key_package_secret) == opt_bytes(peer.bootstrap_kp_secret)
        },
        pq_half(old(s).send_group) is None,
        pq_half(final(s).send_group) == Some(created.half),
        final(s).send_group->0.classical == old(s).send_group->0.classical,
        final(s).recv_group == old(s).recv_group,
        final(s).pq_inflight == Some(PqInflight::BootstrapResponded),
        final(s).pq_turn_mine == old(s).pq_turn_mine,
{
    let frame = seq![PQ_BOOTSTRAP_WELCOME_TAG] + created.welcome@;
    lemma_reaches(*peer, outbound_key(*old(t))->0, sent@, frame);
    assert(frame.subrange(1, frame.len() as int) =~= created.welcome@);
}

/// The first frame of a round can be sent again as it was: asked for in its stable form, it is the
/// very blob that beginning the round gave, and it stays the frame to send until the round is over.
pub proof fn law_first_frame_is_sent_again(
    s: &mut TwoMlsPqSession,
    ephemeral: Ephemeral,
    ek: Vec<u8>,
    s2: &mut TwoMlsPqSession,
    ek_again: Option<Vec<u8>>,
    t: &mut TwoMlsPqSession,
    rotating: &Option<ClientId>,
    proposal: Vec<u8>,
    upd: Vec<u8>,
    t2: &mut TwoMlsPqSession,
    upd_again: Option<Vec<u8>>,
    u: &mut TwoMlsPqSession,
    minted: Result<Vec<u8>>,
    kp: Vec<u8>,
    u2: &mut TwoMlsPqSession,
    kp_again: Option<Vec<u8>>,
)
    requires
        call_ensures(TwoMlsPqSession::pq_ratchet_begin, (s, Ok(ephemeral)), Ok(ek)),
        *old(s2) == *final(s),
        call_ensures(
            TwoMlsPqSession::pq_pending_outbound,
            (s2, SideBandSealing::Stable),
            ek_again,
        ),
        call_ensures(TwoMlsPqSession::pq_rekey_begin, (t, rotating, Ok(proposal)), Ok(upd)),
        *old(t2) == *final(t),
        call_ensures(
            TwoMlsPqSession::pq_pending_outbound,
            (t2, SideBandSealing::Stable),
            upd_again,
        ),
        call_ensures(TwoMlsPqSession::pq_bootstrap_begin, (u, rotating, minted), Ok(kp)),
        *old(u2) == *final(u),
        call_ensures(
            TwoMlsPqSession::pq_pending_outbound,
            (u2, SideBandSealing::Stable),
            kp_again,
        ),
    ensures
        opt_bytes(ek_again) == Some(ek@),
        opt_bytes(upd_again) == Some(upd@),
        opt_bytes(kp_again) == Some(kp@),
        *final(s2) == *final(s),
        *final(t2) == *final(t),
        *final(u2) == *final(u),
{
}

/// The epochs that a bind reserves are the next of both halves.
pub proof fn law_reservation_is_the_next_epochs(
    s: &TwoMlsPqSession,
    r: Result<ApqInfoUpdate>,
)
    requires
        call_ensures(TwoMlsPqSession::reserve, (s,), r),
        s.send_group matches Some(g) && g.pq is Some,
    ensures
        ({
            let g = s.send_group->0;
            let pq = g.pq->0;
            match r {
                Ok(a) => a.t_epoch == g.classical.epoch + 1 && a.pq_epoch == pq.epoch + 1,
                Err(e) => g.classical.epoch == u64::MAX || pq.epoch == u64::MAX,
            }
        }),
{
}

} // verus!
