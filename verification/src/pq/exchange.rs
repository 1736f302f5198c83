//! A message from one side to the other, said of the calls on both: what the host is handed of it,
//! and that the two sides speak of the same message, proposal and address.

use vstd::prelude::*;
use crate::bytes::{first_byte, opt_bytes};
use crate::types::{ClientId, MlsSenderMessage, RendezvousId, SessionId};
use super::conduct::{current_id, next_id};
use super::error::{Result, TwoMlsPqError};
use super::frames::{
    message_parts, proposal_parts, read2, OpenedFrame, OpenedFrameKind, PqFrameKind,
    APQ_PRIVATE_MESSAGE_TAG, APQ_TAG, MESSAGE_FRAME_TAG,
};
use super::incoming::{
    psk_refs, BindSecret, DecryptResult, IncomingOutcome, IncomingPlan, InjectPlan, StaplePlan,
};
use super::laws::{frame_fits, law_message_is_read_as_written};
use super::messaging::{
    channels, finish_encrypt, CombinerGroupId, Encrypted, EncryptResult, ListenChannels, Outbound,
};
use super::prepare::{PrepareEncryptResult, PrepareOutcome};
use super::providers::{header_open_of, mls_epoch_of, HEADER_NONCE_LEN};
use super::reception::lemma_message_is_reported;
use super::retention::lemma_listening_captures;
use super::sealing::{
    header_candidates, law_sealed_frame_opens, open_with, opened_or_raw, sealed_as,
};
use super::side_band::{
    holds_key, lemma_first_candidate, lemma_reaches, outbound_key, reaches,
};
use super::state::{keys, ledger_has, ApqEpochs, PqInflight, PrincipalState, TwoMlsPqSession};
use super::windows::{entries, lemma_entries_are_keys};

verus! {

/// A message that reaches the other side is what was written: the same staple, the proposal that
/// was staged under the id that it proposes, and the app message.
pub proof fn lemma_sent_is_read(
    s: TwoMlsPqSession,
    app: Vec<u8>,
    sent: Encrypted,
    peer: TwoMlsPqSession,
)
    requires
        s.encrypted_as(Some(app), Ok(sent)),
        frame_fits(s, app@),
        sent.outbound matches Outbound::Frame { cipher_text } && s.recv_group is Some && reaches(
            peer,
            s.recv_group->0.classical.header_key@,
            cipher_text@,
        ),
    ensures
        ({
            let blob = sent.outbound->cipher_text@;
            let frame = opened_or_raw(peer, blob);
            let staged = s.pending_proposal_message->0;
            &&& first_byte(frame) == Some(MESSAGE_FRAME_TAG)
            &&& message_parts(frame) matches Some((staple, carried, a))
            &&& staple == s.current_staple@
            &&& a == app@
            &&& proposal_parts(carried) == Some((staged.proposing@, staged.message@))
        }),
{
    let blob = sent.outbound->cipher_text@;
    let key = s.recv_group->0.classical.header_key@;
    let staged = s.pending_proposal_message->0;
    let i = lemma_first_candidate(peer, key, blob);
    law_message_is_read_as_written(
        peer,
        blob,
        key,
        s.current_staple@,
        staged.proposing@,
        staged.message@,
        app@,
        i,
    );
}

/// The host on the other side is handed exactly what was sent: the app message to decrypt and the
/// proposal section to process, and of the staple what is to be done with it.
pub proof fn law_host_is_handed_what_was_sent(
    s: &mut TwoMlsPqSession,
    app: Vec<u8>,
    sent: Encrypted,
    blob: Vec<u8>,
    peer: &TwoMlsPqSession,
    plan: Result<IncomingPlan>,
)
    requires
        call_ensures(TwoMlsPqSession::encrypt, (s, Some(app)), Ok(sent)),
        frame_fits(*old(s), app@),
        mls_epoch_of(app@) is Some,
        sent.outbound == (Outbound::Frame { cipher_text: blob }),
        old(s).recv_group is Some,
        reaches(*peer, old(s).recv_group->0.classical.header_key@, blob@),
        call_ensures(TwoMlsPqSession::incoming_plan, (peer, blob), plan),
        !peer.bind_apply_broken,
    ensures
        plan matches Ok(p) ==> {
            &&& p matches IncomingPlan::Message { staple, app: a, proposal }
            &&& a@ == app@
            &&& proposal_parts(proposal@) matches Some((id, message))
            &&& id == old(s).pending_proposal_message->0.proposing@
            &&& message == old(s).pending_proposal_message->0.message@
            &&& staple matches StaplePlan::Commit { message: m, .. } ==> m@
                == old(s).current_staple@
            &&& staple matches StaplePlan::Bind { classical_message, pq_message, .. } ==> read2(
                old(s).current_staple@,
                APQ_PRIVATE_MESSAGE_TAG,
            ) == Some((classical_message@, pq_message@))
            &&& staple matches StaplePlan::Join { plan: j } ==> j.halves is Ok ==> read2(
                old(s).current_staple@,
                APQ_TAG,
            ) == Some((j.halves->Ok_0.0@, j.halves->Ok_0.1@))
        },
{
    lemma_sent_is_read(*old(s), app, sent, *peer);
}

/// Before it is answered, a session's message goes out in an envelope, marked as an establishment
/// message; and the host on the other side, once that has joined, is handed that message.
pub proof fn law_establishment_message_is_handed_over(
    s: &mut TwoMlsPqSession,
    app: Vec<u8>,
    sent: Encrypted,
    blob: Vec<u8>,
    peer: &TwoMlsPqSession,
    plan: Result<IncomingPlan>,
)
    requires
        call_ensures(TwoMlsPqSession::encrypt, (s, Some(app)), Ok(sent)),
        old(s).pending_proposal_message is None,
        sent.outbound matches Outbound::Envelope { sections } && sections.stapled is Some
            && opened_or_raw(*peer, blob@) == sections.stapled->0@,
        call_ensures(TwoMlsPqSession::incoming_plan, (peer, blob), plan),
        !peer.bind_apply_broken,
        peer.recv_group is Some,
        mls_epoch_of(app@) is Some,
    ensures
        plan matches Ok(IncomingPlan::App { app: a }) && a@ == app@,
        opt_bytes((sent.outbound->sections).app_payload) == opt_bytes(old(s).initial_app_payload),
        old(s).initial_app_payload is None ==> opt_bytes((sent.outbound->sections).welcome) == Some(
            old(s).current_staple@,
        ),
{
    let frame = opened_or_raw(*peer, blob@);
    assert(frame == seq![0x07u8] + app@);
    assert(frame.subrange(1, frame.len() as int) =~= app@);
}

/// The proposal that a side prepared is the one that the other is offered, under the digest that
/// the side was told, with the id that it proposes.
pub proof fn law_prepared_proposal_is_what_is_offered(
    s: &mut TwoMlsPqSession,
    proposing: Option<ClientId>,
    made: PrepareOutcome,
    p: PrepareEncryptResult,
    t: &mut TwoMlsPqSession,
    app: Vec<u8>,
    sent: Encrypted,
    blob: Vec<u8>,
    peer: &mut TwoMlsPqSession,
    plan: StaplePlan,
    out: IncomingOutcome,
    r: Result<Option<DecryptResult>>,
)
    requires
        call_ensures(TwoMlsPqSession::prepare_to_encrypt, (s, proposing, made), Ok(p)),
        *old(t) == *final(s),
        call_ensures(TwoMlsPqSession::encrypt, (t, Some(app)), Ok(sent)),
        frame_fits(*old(t), app@),
        mls_epoch_of(app@) is Some,
        sent.outbound == (Outbound::Frame { cipher_text: blob }),
        old(t).recv_group is Some,
        reaches(*old(peer), old(t).recv_group->0.classical.header_key@, blob@),
        call_ensures(TwoMlsPqSession::process_incoming, (peer, blob, out), r),
        old(peer).is_staple_plan(old(t).current_staple@, Ok(plan)),
        old(peer).stands(plan, out.staple),
        !old(peer).bind_apply_broken,
        old(peer).send_group is Some,
        out.app is Some,
    ensures
        ({
            &&& r matches Ok(Some(d))
            &&& d.proposal matches Some(offer)
            &&& offer.digest@ == p.proposal_hash@
            &&& offer.proposing.bytes@ == final(s).pending_proposal_message->0.proposing@
            &&& final(peer).offered_proposal matches Some(held)
            &&& held.message@ == p.proposal_message@
            &&& d.application_message matches Some(m)
            &&& m.app_message_data@ == out.app->0.data@
        }),
{
    lemma_sent_is_read(*old(t), app, sent, *old(peer));
    let staged = old(t).pending_proposal_message->0;
    lemma_message_is_reported(
        *old(peer),
        blob@,
        old(t).current_staple@,
        staged.proposing@,
        staged.message@,
        plan,
        out,
        *final(peer),
        r,
    );
}

/// What the host is to do before a commit of the peer is processed: export the PSK of the current
/// epoch if it is not remembered, and forget what was retired before, and what then falls out.
pub proof fn law_plan_forgets_what_is_retired(
    peer: &TwoMlsPqSession,
    blob: Vec<u8>,
    staple: Seq<u8>,
    message: Vec<u8>,
    inject: InjectPlan,
    app: Vec<u8>,
    proposal: Vec<u8>,
)
    requires
        call_ensures(
            TwoMlsPqSession::incoming_plan,
            (peer, blob),
            Ok(
                IncomingPlan::Message {
                    staple: StaplePlan::Commit { inject: Some(inject), message },
                    app,
                    proposal,
                },
            ),
        ),
    ensures
        ({
            &&& peer.send_group matches Some(g)
            &&& inject.export <==> !ledger_has(peer.send_psk_ledger@, g.classical.epoch)
            &&& inject.forget@.len() == peer.retired_send_psks@.len() + (if inject.export
                && peer.send_psk_ledger@.len() + 1 > 8 {
                1int
            } else {
                0
            })
            &&& forall|i: int|
                0 <= i < peer.retired_send_psks@.len() ==> (#[trigger] inject.forget@[i]).psk_id@
                    == peer.retired_send_psks@[i].psk_id@
            &&& inject.export && peer.send_psk_ledger@.len() + 1 > 8
                ==> inject.forget@.last().psk_id@ == peer.send_psk_ledger@[0].exported.psk_id@
        }),
{
    let gone = peer.retired_send_psks@;
    let f = inject.forget@;
    assert(psk_refs(f).len() == f.len() && psk_refs(gone).len() == gone.len());
    assert forall|i: int| 0 <= i < f.len() implies psk_refs(f)[i].1 == (
    #[trigger] f[i]).psk_id@ by {}
    assert forall|i: int| 0 <= i < gone.len() implies psk_refs(gone)[i].1 == (
    #[trigger] gone[i]).psk_id@ by {}
    assert forall|i: int| 0 <= i < gone.len() implies (#[trigger] f[i]).psk_id@
        == gone[i].psk_id@ by {
        assert(psk_refs(f)[i].1 == f[i].psk_id@);
    }
    if inject.export && peer.send_psk_ledger@.len() + 1 > 8 {
        assert(psk_refs(f).last().1 == f.last().psk_id@);
    }
}

/// Where a bind's secret comes from: the responder of a ratchet round uses the one that it sealed,
/// the other responders export theirs; a side that answered no round is not to apply a bind.
pub proof fn law_bind_uses_the_rounds_secret(
    peer: &TwoMlsPqSession,
    blob: Vec<u8>,
    secret: BindSecret,
    inject: Option<InjectPlan>,
    classical_message: Vec<u8>,
    pq_message: Vec<u8>,
    app: Vec<u8>,
    proposal: Vec<u8>,
)
    requires
        call_ensures(
            TwoMlsPqSession::incoming_plan,
            (peer, blob),
            Ok(
                IncomingPlan::Message {
                    staple: StaplePlan::Bind { secret, inject, classical_message, pq_message },
                    app,
                    proposal,
                },
            ),
        ),
    ensures
        match secret {
            BindSecret::Held { secret: held } => peer.pq_inflight matches Some(
                PqInflight::Responding { secret: kept },
            ) && held@ == kept@,
            BindSecret::Export => peer.pq_inflight == Some(PqInflight::BootstrapResponded)
                || peer.pq_inflight == Some(PqInflight::RekeyResponded),
        },
{
}

/// Completing a message changes nothing of it: it goes out as its frame, or as the sealed envelope
/// where it is one, between the same ends, in the same epochs and after the same operation.
pub proof fn law_completed_message_is_the_same(
    m: Encrypted,
    envelope: Result<Vec<u8>>,
    r: Result<EncryptResult>,
)
    requires
        call_ensures(finish_encrypt, (m, envelope), r),
    ensures
        r is Err <==> m.outbound is Envelope && envelope is Err,
        r matches Ok(done) ==> {
            &&& done.sender == m.sender
            &&& done.recipient == m.recipient
            &&& done.epochs == m.epochs
            &&& done.depends_on_seq == m.depends_on_seq
            &&& m.outbound matches Outbound::Frame { cipher_text } ==> done.cipher_text@
                == cipher_text@
            &&& m.outbound is Envelope ==> envelope is Ok && done.cipher_text@
                == envelope->Ok_0@
        },
{
}

/// The address that one side posts to is one that the other listens on, wherever the first's view
/// of the group is the second's current one or one that it still listens on.
pub proof fn law_posts_where_the_other_listens(
    s: &TwoMlsPqSession,
    to: Option<RendezvousId>,
    peer: &mut TwoMlsPqSession,
    l: ListenChannels,
)
    requires
        call_ensures(TwoMlsPqSession::send_rendezvous, (s,), to),
        call_ensures(TwoMlsPqSession::should_listen_on, (peer,), Ok(l)),
        s.recv_group is Some,
        old(peer).send_group is Some,
        s.recv_group->0.classical.rendezvous@ == old(peer).send_group->0.classical.rendezvous@,
        forall|i: int|
            0 <= i < old(peer).listen_rendezvous@.len() && (
            #[trigger] old(peer).listen_rendezvous@[i]).epoch
                == old(peer).send_group->0.classical.epoch
                ==> old(peer).listen_rendezvous@[i].key@
                == old(peer).send_group->0.classical.rendezvous@,
    ensures
        ({
            &&& to matches Some(id)
            &&& exists|i: int|
                0 <= i < l.rendezvous_by_epoch@.len() && (
                #[trigger] l.rendezvous_by_epoch@[i]).rendezvous_id@ == id@
                    && l.rendezvous_by_epoch@[i].epoch == old(peer).send_group->0.classical.epoch
        }),
        l.send_group.classical@ == old(peer).send_group->0.classical.group_id@,
{
    let half = old(peer).send_group->0.classical;
    let w = final(peer).listen_rendezvous@;
    let was = old(peer).listen_rendezvous@;
    let v = l.rendezvous_by_epoch@;
    assert(channels(v).len() == v.len());
    assert forall|i: int| 0 <= i < v.len() implies channels(v)[i] == ((
    #[trigger] v[i]).epoch, v[i].rendezvous_id@) by {}
    let e = (half.epoch, half.rendezvous@);
    lemma_entries_are_keys(w, e);
    lemma_listening_captures(*old(peer), *final(peer));
    let held = exists|i: int| 0 <= i < was.len() && (#[trigger] was[i]).epoch == half.epoch;
    if held {
        let i = choose|i: int| 0 <= i < was.len() && (#[trigger] was[i]).epoch == half.epoch;
        assert(entries(was).contains(e));
    }
    assert(entries(w).contains(e));
    let i = choose|i: int| 0 <= i < keys(w).len() && keys(w)[i] == e;
    assert(channels(v)[i] == e);
    assert(v[i].rendezvous_id@ == half.rendezvous@);
}

/// What a session says of itself is what its groups and its state are.
pub proof fn law_session_says_what_it_is(
    s: &TwoMlsPqSession,
    established: bool,
    full: bool,
    has_receive: bool,
    epochs: ApqEpochs,
    pq: (Option<u64>, Option<u64>),
    id: SessionId,
    binding: Option<Vec<u8>>,
    group: Option<CombinerGroupId>,
    turn: bool,
    broken: bool,
    seq: u64,
)
    requires
        call_ensures(TwoMlsPqSession::is_established, (s,), established),
        call_ensures(TwoMlsPqSession::is_fully_established, (s,), full),
        call_ensures(TwoMlsPqSession::has_receive_group, (s,), has_receive),
        call_ensures(TwoMlsPqSession::epochs, (s,), epochs),
        call_ensures(TwoMlsPqSession::pq_epochs, (s,), pq),
        call_ensures(TwoMlsPqSession::active_session_id, (s,), id),
        call_ensures(TwoMlsPqSession::app_binding, (s,), binding),
        call_ensures(TwoMlsPqSession::receive_group_id, (s,), group),
        call_ensures(TwoMlsPqSession::my_pq_turn, (s,), turn),
        call_ensures(TwoMlsPqSession::pq_receive_broken, (s,), broken),
        call_ensures(TwoMlsPqSession::state_seq, (s,), seq),
    ensures
        established <==> s.send_group is Some && s.recv_group is Some,
        full <==> established && pq.0 is Some && pq.1 is Some,
        has_receive <==> s.recv_group is Some,
        group is Some <==> has_receive,
        s.send_group matches Some(g) ==> {
            &&& epochs.classical_epoch == g.classical.epoch
            &&& opt_bytes(binding) == opt_bytes(g.app_binding)
            &&& g.pq matches Some(half) ==> pq.0 == Some(half.epoch) && epochs.pq_epoch
                == half.epoch
            &&& g.pq is None ==> pq.0 is None && epochs.pq_epoch == 0
        },
        s.recv_group matches Some(g) ==> {
            &&& group matches Some(named)
            &&& named.classical@ == g.classical.group_id@
            &&& g.pq matches Some(half) ==> named.pq@ == half.group_id@ && pq.1 == Some(half.epoch)
            &&& g.pq is None ==> named.pq@.len() == 0 && pq.1 is None
        },
        id.bytes@ == s.session_id.bytes@,
        turn == s.pq_turn_mine,
        broken == s.bind_apply_broken,
        seq == s.state_seq,
{
}

/// The states of both sides are shown as they are.
pub proof fn law_session_shows_both_ids(
    s: &TwoMlsPqSession,
    mine: PrincipalState,
    theirs: PrincipalState,
)
    requires
        call_ensures(TwoMlsPqSession::my_principal_state, (s,), mine),
        call_ensures(TwoMlsPqSession::their_principal_state, (s,), theirs),
    ensures
        current_id(mine) == current_id(s.my_state),
        next_id(mine) == next_id(s.my_state),
        current_id(theirs) == current_id(s.their_state),
        next_id(theirs) == next_id(s.their_state),
{
}

/// A frame that reaches a side is routed by its first byte: welcomes and messages to where messages
/// are processed, each frame of the side-band to its own step, and any other is not decrypted.
pub proof fn law_opened_frame_is_routed(
    s: &TwoMlsPqSession,
    key: Seq<u8>,
    blob: Vec<u8>,
    frame: Seq<u8>,
    r: Result<Option<OpenedFrame>>,
)
    requires
        sealed_as(blob@, key, frame),
        reaches(*s, key, blob@),
        call_ensures(TwoMlsPqSession::open_incoming, (s, blob), r),
        frame.len() > 0,
    ensures
        r matches Ok(o) ==> o is Some && o->0.frame@ == frame,
        r is Err ==> r->Err_0 == TwoMlsPqError::DecryptionFailed,
        r is Ok && r->Ok_0->0.kind == OpenedFrameKind::Message <==> frame[0] == 0x01 || frame[0]
            == 0x03,
        r is Ok && r->Ok_0->0.kind == (OpenedFrameKind::PqSideBand {
            kind: PqFrameKind::RatchetEphemeralKey,
        }) <==> frame[0] == 0x0F,
        r is Ok && r->Ok_0->0.kind == (OpenedFrameKind::PqSideBand {
            kind: PqFrameKind::RatchetCiphertext,
        }) <==> frame[0] == 0x11,
        r is Ok && r->Ok_0->0.kind == (OpenedFrameKind::PqSideBand {
            kind: PqFrameKind::BootstrapKeyPackage,
        }) <==> frame[0] == 0x09,
        r is Ok && r->Ok_0->0.kind == (OpenedFrameKind::PqSideBand {
            kind: PqFrameKind::BootstrapWelcome,
        }) <==> frame[0] == 0x0B,
        r is Ok && r->Ok_0->0.kind == (OpenedFrameKind::PqSideBand {
            kind: PqFrameKind::RekeyUpdate,
        }) <==> frame[0] == 0x15,
        r is Ok && r->Ok_0->0.kind == (OpenedFrameKind::PqSideBand {
            kind: PqFrameKind::RekeyCommit,
        }) <==> frame[0] == 0x17,
        frame[0] > 0x17 || frame[0] % 2 == 0 || frame[0] == 0x05 || frame[0] == 0x07 ==> r is Err,
{
    let i = lemma_first_candidate(*s, key, blob@);
    law_sealed_frame_opens(*s, blob@, key, frame, i);
}

/// What one side seals, the other opens to the same frame: a message under the header key of the
/// receive group's classical half, a side-band frame under the key that its frames go out under.
pub proof fn law_sealed_is_opened(
    s: &TwoMlsPqSession,
    frame: &[u8],
    message: Vec<u8>,
    side_band: Vec<u8>,
    peer: &TwoMlsPqSession,
    first: Vec<u8>,
    second: Vec<u8>,
)
    requires
        call_ensures(TwoMlsPqSession::seal, (s, frame), Ok(message)),
        call_ensures(TwoMlsPqSession::seal_side_band, (s, frame), Ok(side_band)),
        s.recv_group is Some,
        reaches(*peer, s.recv_group->0.classical.header_key@, message@),
        outbound_key(*s) is Some,
        reaches(*peer, outbound_key(*s)->0, side_band@),
        call_ensures(TwoMlsPqSession::open_or_raw, (peer, message), first),
        call_ensures(TwoMlsPqSession::open_or_raw, (peer, side_band), second),
    ensures
        first@ == frame@,
        second@ == frame@,
{
    lemma_reaches(*peer, s.recv_group->0.classical.header_key@, message@, frame@);
    lemma_reaches(*peer, outbound_key(*s)->0, side_band@, frame@);
}

/// A blob that no key that is held opens is taken as it is, and nothing is made of it.
pub proof fn law_unopened_blob_is_raw(
    s: &TwoMlsPqSession,
    blob: Vec<u8>,
    raw: Vec<u8>,
    bytes: &[u8],
    tried: Option<Vec<u8>>,
    routed: Result<Option<OpenedFrame>>,
)
    requires
        call_ensures(TwoMlsPqSession::open_or_raw, (s, blob), raw),
        bytes@ == blob@,
        call_ensures(TwoMlsPqSession::try_open, (s, bytes), tried),
        call_ensures(TwoMlsPqSession::open_incoming, (s, blob), routed),
        forall|key: Seq<u8>|
            holds_key(s.recv_header_keys@, key) || holds_key(s.recv_header_keys_pq@, key)
                ==> #[trigger] header_open_of(
                key,
                blob@.subrange(0, HEADER_NONCE_LEN as int),
                blob@.subrange(HEADER_NONCE_LEN as int, blob@.len() as int),
            ) is None,
    ensures
        raw@ == blob@,
        tried is None,
        routed matches Ok(None),
{
    let c = header_candidates(*s);
    let nonce = blob@.subrange(0, HEADER_NONCE_LEN as int);
    let ct = blob@.subrange(HEADER_NONCE_LEN as int, blob@.len() as int);
    let (a, b) = (s.recv_header_keys@, s.recv_header_keys_pq@);
    assert forall|i: int| 0 <= i < c.len() implies header_open_of(
        #[trigger] c[i],
        nonce,
        ct,
    ) is None by {
        if i < a.len() {
            assert(a[a.len() - 1 - i].key@ == c[i]);
            assert(holds_key(a, c[i]));
        } else {
            assert(b[b.len() - 1 - (i - a.len())].key@ == c[i]);
            assert(holds_key(b, c[i]));
        }
    }
    lemma_nothing_opens(c, nonce, ct);
}

/// Keys that do not open a blob open nothing of it.
proof fn lemma_nothing_opens(keys: Seq<Seq<u8>>, nonce: Seq<u8>, ct: Seq<u8>)
    requires
        forall|i: int| 0 <= i < keys.len() ==> header_open_of(#[trigger] keys[i], nonce, ct) is None,
    ensures
        open_with(keys, nonce, ct) is None,
    decreases keys.len(),
{
    if keys.len() > 0 {
        let rest = keys.subrange(1, keys.len() as int);
        assert forall|i: int| 0 <= i < rest.len() implies header_open_of(
            #[trigger] rest[i],
            nonce,
            ct,
        ) is None by {
            assert(rest[i] == keys[i + 1]);
        }
        assert(header_open_of(keys[0], nonce, ct) is None);
        lemma_nothing_opens(rest, nonce, ct);
    }
}

/// A frame that is re-delivered is acknowledged by the token of the session that it spawned, and by
/// no other.
pub proof fn law_token_is_acknowledged(
    s: &TwoMlsPqSession,
    token: &[u8],
    r: Result<Option<MlsSenderMessage>>,
)
    requires
        call_ensures(TwoMlsPqSession::forwarded, (s, token), r),
    ensures
        r is Ok <==> s.spawn_token is Some && s.spawn_token->0@ == token@,
        r is Ok ==> r->Ok_0 is None,
        s.spawn_token is None ==> r == Err::<Option<MlsSenderMessage>, TwoMlsPqError>(
            TwoMlsPqError::SessionNotReady,
        ),
        s.spawn_token is Some && r is Err ==> r->Err_0 == TwoMlsPqError::DecryptionFailed,
{
}

} // verus!
