//! What comes of an inbound frame, said of the calls that process it: what the caller is told, and
//! what of the session is then different.

use vstd::prelude::*;
use crate::bytes::{all_bytes, first_byte, opt_bytes};
use super::conduct::{adds_to, current_id, lemma_adds_to};
use super::error::{Result, TwoMlsPqError};
use super::frames::{
    kind_of_tag, message_parts, proposal_parts, read2, APQ_PRIVATE_MESSAGE_TAG, APQ_TAG,
    MESSAGE_FRAME_TAG, PRE_ESTABLISHMENT_APP_TAG,
};
use super::incoming::{
    CommitProcessed, DecryptResult, IncomingOutcome, IncomingPlan, JoinOutcome, StapleAction,
    StapleMoves, StapleOutcome, StaplePlan,
};
use super::laws::{law_refused_frame_is_reported, law_staple_stands_iff_read_on};
use super::messaging::ProcessedProposal;
use super::persist::begun;
use super::providers::{mls_epoch_of, mls_suite_of, sha256_of};
use super::scope::{leaves_founding, leaves_listening};
use super::sealing::opened_or_raw;
use super::state::{ledger_has, steps, AuthKind, BlobKind, ExportedPsk, TwoMlsPqSession};
use super::windows::{ledger_with, remember_error};

verus! {

/// The session between opening a frame and counting it.
proof fn lemma_before_it_is_counted(
    s: TwoMlsPqSession,
    blob: Seq<u8>,
    out: IncomingOutcome,
    now: TwoMlsPqSession,
    r: Result<Option<DecryptResult>>,
) -> (mid: TwoMlsPqSession)
    requires
        s.blob_processed(blob, out, now, r),
    ensures
        s.frame_processed(opened_or_raw(s, blob), out, mid, r),
        now == if r is Err {
            mid
        } else if mid.spec_pq_epochs() == s.spec_pq_epochs() {
            begun(mid, BlobKind::Core)
        } else {
            begun(mid, BlobKind::Checkpoint)
        },
{
    choose|mid: TwoMlsPqSession| #[trigger]
        s.frame_processed(opened_or_raw(s, blob), out, mid, r) && now == if r is Err {
            mid
        } else if mid.spec_pq_epochs() == s.spec_pq_epochs() {
            begun(mid, BlobKind::Core)
        } else {
            begun(mid, BlobKind::Checkpoint)
        }
}

/// Whether a frame has the parts of a message frame, with an app message that can be read.
pub open spec fn carries_message(frame: Seq<u8>) -> bool {
    message_parts(frame) matches Some((staple, carried, app)) && mls_epoch_of(app) is Some
}

/// The session after a message frame's staple, and after the ids that it moved were noted.
proof fn lemma_steps_of_a_message(
    s: TwoMlsPqSession,
    frame: Seq<u8>,
    out: IncomingOutcome,
    now: TwoMlsPqSession,
    r: Result<Option<DecryptResult>>,
) -> (w: (TwoMlsPqSession, Result<StapleMoves>, TwoMlsPqSession, Result<()>))
    requires
        s.message_processed(frame, out, now, r),
        carries_message(frame),
    ensures
        ({
            let (stapled, moves, noted, v) = w;
            let (staple, carried, app) = message_parts(frame)->0;
            &&& s.staple_processed(staple, out.staple, stapled, moves)
            &&& match moves {
                Err(e) => r == Err::<Option<DecryptResult>, TwoMlsPqError>(e) && now == stapled,
                Ok(m) => {
                    &&& stapled.moves_noted(m@.1, m@.2, noted, v)
                    &&& match v {
                        Err(e) => r == Err::<Option<DecryptResult>, TwoMlsPqError>(e) && now
                            == noted,
                        Ok(()) => noted.frame_read(
                            carried,
                            out.app,
                            out.offer,
                            m@.0,
                            m@.1,
                            now,
                            r,
                        ),
                    }
                },
            }
        }),
{
    let (staple, carried, app) = message_parts(frame)->0;
    let (stapled, moves) = choose|stapled: TwoMlsPqSession, moves: Result<StapleMoves>| #[trigger]
        s.staple_processed(staple, out.staple, stapled, moves) && match moves {
            Err(e) => r == Err::<Option<DecryptResult>, TwoMlsPqError>(e) && now == stapled,
            Ok(m) => stapled.staple_followed(carried, out, m@, now, r),
        };
    match moves {
        Err(e) => (stapled, moves, stapled, Ok(())),
        Ok(m) => {
            let (noted, v) = choose|noted: TwoMlsPqSession, v: Result<()>| #[trigger]
                stapled.moves_noted(m@.1, m@.2, noted, v) && match v {
                    Err(e) => r == Err::<Option<DecryptResult>, TwoMlsPqError>(e) && now == noted,
                    Ok(()) => noted.frame_read(carried, out.app, out.offer, m@.0, m@.1, now, r),
                };
            (stapled, moves, noted, v)
        },
    }
}

/// Nothing that comes in changes what the session sends.
pub proof fn lemma_reception_keeps_the_staple(
    s: TwoMlsPqSession,
    blob: Seq<u8>,
    out: IncomingOutcome,
    now: TwoMlsPqSession,
    r: Result<Option<DecryptResult>>,
)
    requires
        s.blob_processed(blob, out, now, r),
    ensures
        now.current_staple == s.current_staple,
        now.current_staple_seq == s.current_staple_seq,
        now.send_group == s.send_group,
        now.queued_proposal == s.queued_proposal,
        now.owed_bind == s.owed_bind,
        now.pending_proposal_message == s.pending_proposal_message,
        now.pending_proposal_hash == s.pending_proposal_hash,
{
    let mid = lemma_before_it_is_counted(s, blob, out, now, r);
    let frame = opened_or_raw(s, blob);
    if !s.bind_apply_broken && first_byte(frame) == Some(MESSAGE_FRAME_TAG) {
        if carries_message(frame) {
            let (stapled, moves, noted, v) = lemma_steps_of_a_message(s, frame, out, mid, r);
        }
    }
}

/// What nothing that comes in touches.
pub proof fn lemma_reception_leaves(
    s: TwoMlsPqSession,
    blob: Seq<u8>,
    out: IncomingOutcome,
    now: TwoMlsPqSession,
    r: Result<Option<DecryptResult>>,
)
    requires
        s.blob_processed(blob, out, now, r),
    ensures
        leaves_founding(s, now),
        leaves_listening(s, now),
        now.send_group == s.send_group,
        now.current_staple == s.current_staple,
        now.queued_proposal == s.queued_proposal,
        now.pending_proposal_hash == s.pending_proposal_hash,
        now.pending_proposal_message == s.pending_proposal_message,
        now.deferred_candidate == s.deferred_candidate,
        now.last_cross_injected == s.last_cross_injected,
        now.owed_bind == s.owed_bind,
        now.recv_header_keys_pq == s.recv_header_keys_pq,
        now.bootstrap_kp == s.bootstrap_kp,
        now.bootstrap_kp_secret == s.bootstrap_kp_secret,
        now.last_cross_injected_pq == s.last_cross_injected_pq,
{
    let mid = lemma_before_it_is_counted(s, blob, out, now, r);
    let frame = opened_or_raw(s, blob);
    if !s.bind_apply_broken && first_byte(frame) == Some(MESSAGE_FRAME_TAG) {
        if carries_message(frame) {
            let (stapled, moves, noted, v) = lemma_steps_of_a_message(s, frame, out, mid, r);
        }
    }
}

/// Nothing that comes in changes what the session sends, or what it has approved or prepared.
pub proof fn law_reception_keeps_what_is_sent(
    s: &mut TwoMlsPqSession,
    blob: Vec<u8>,
    out: IncomingOutcome,
    r: Result<Option<DecryptResult>>,
)
    requires
        call_ensures(TwoMlsPqSession::process_incoming, (s, blob, out), r),
    ensures
        final(s).current_staple == old(s).current_staple,
        final(s).current_staple_seq == old(s).current_staple_seq,
        final(s).send_group == old(s).send_group,
        final(s).queued_proposal == old(s).queued_proposal,
        final(s).owed_bind == old(s).owed_bind,
        final(s).pending_proposal_message == old(s).pending_proposal_message,
        final(s).pending_proposal_hash == old(s).pending_proposal_hash,
{
    lemma_reception_keeps_the_staple(*old(s), blob@, out, *final(s), r);
}

/// Whether a frame that opens from `blob` is a message frame of these parts, and what its staple
/// asked for was done and stands, so that it is read on.
pub open spec fn reads_on(
    s: TwoMlsPqSession,
    blob: Seq<u8>,
    staple: Seq<u8>,
    proposing: Seq<u8>,
    proposal: Seq<u8>,
    plan: StaplePlan,
    out: IncomingOutcome,
) -> bool {
    let frame = opened_or_raw(s, blob);
    &&& first_byte(frame) == Some(MESSAGE_FRAME_TAG)
    &&& message_parts(frame) matches Some((st, carried, app))
    &&& st == staple
    &&& proposal_parts(carried) == Some((proposing, proposal))
    &&& mls_epoch_of(app) is Some
    &&& s.is_staple_plan(staple, Ok(plan))
    &&& s.stands(plan, out.staple)
    &&& !s.bind_apply_broken
    &&& s.send_group is Some
}

/// Whether a result reports an app message and the proposal that came with it, and the session
/// holds that proposal as offered.
pub open spec fn reports_all(
    out: IncomingOutcome,
    proposing: Seq<u8>,
    proposal: Seq<u8>,
    now: TwoMlsPqSession,
    r: Result<Option<DecryptResult>>,
) -> bool {
    &&& r matches Ok(Some(d))
    &&& now.recv_group matches Some(g)
    &&& d.application_message matches Some(m)
    &&& m.app_message_data@ == out.app->0.data@
    &&& m.sender_client_id.bytes@ == out.app->0.sender@
    &&& m.epoch == g.classical.epoch
    &&& d.proposal matches Some(p)
    &&& p.digest@ == sha256_of(proposal)
    &&& p.proposing.bytes@ == proposing
    &&& p.sender.bytes@ == out.app->0.sender@
    &&& p.context@ == sha256_of(g.classical.group_id@)
    &&& now.offered_proposal matches Some(offer)
    &&& offer.digest@ == p.digest@
    &&& offer.proposing@ == proposing
    &&& offer.message@ == proposal
}

/// A frame that is read on is reported whole.
pub proof fn lemma_message_is_reported(
    s: TwoMlsPqSession,
    blob: Seq<u8>,
    staple: Seq<u8>,
    proposing: Seq<u8>,
    proposal: Seq<u8>,
    plan: StaplePlan,
    out: IncomingOutcome,
    now: TwoMlsPqSession,
    r: Result<Option<DecryptResult>>,
)
    requires
        s.blob_processed(blob, out, now, r),
        reads_on(s, blob, staple, proposing, proposal, plan, out),
        out.app is Some,
    ensures
        reports_all(out, proposing, proposal, now, r),
{
    let mid = lemma_before_it_is_counted(s, blob, out, now, r);
    let frame = opened_or_raw(s, blob);
    let (stapled, moves, noted, v) = lemma_steps_of_a_message(s, frame, out, mid, r);
    law_staple_stands_iff_read_on(s, staple, plan, out.staple, stapled, moves, noted, v);
}

/// What was decrypted out of a frame that is read on reaches the caller: the app message, with
/// the sender's id and the epoch that the receive group is then in, and the proposal that came
/// with it, under the digest by which it can be approved.
pub proof fn law_message_reaches_the_caller(
    s: &mut TwoMlsPqSession,
    blob: Vec<u8>,
    staple: Seq<u8>,
    proposing: Seq<u8>,
    proposal: Seq<u8>,
    plan: StaplePlan,
    out: IncomingOutcome,
    r: Result<Option<DecryptResult>>,
)
    requires
        call_ensures(TwoMlsPqSession::process_incoming, (s, blob, out), r),
        reads_on(*old(s), blob@, staple, proposing, proposal, plan, out),
        out.app is Some,
    ensures
        reports_all(out, proposing, proposal, *final(s), r),
{
    lemma_message_is_reported(
        *old(s),
        blob@,
        staple,
        proposing,
        proposal,
        plan,
        out,
        *final(s),
        r,
    );
}

/// A message whose staple does not stand, or whose app message does not decrypt, tells the caller
/// nothing and offers nothing.
pub proof fn law_unread_message_offers_nothing(
    s: &mut TwoMlsPqSession,
    blob: Vec<u8>,
    out: IncomingOutcome,
    r: Result<Option<DecryptResult>>,
)
    requires
        call_ensures(TwoMlsPqSession::process_incoming, (s, blob, out), r),
        r is Err,
    ensures
        final(s).offered_proposal == old(s).offered_proposal,
        final(s).peer_applied_send_epoch == old(s).peer_applied_send_epoch,
        final(s).state_seq == old(s).state_seq,
        final(s).push == old(s).push,
{
    let mid = lemma_before_it_is_counted(*old(s), blob@, out, *final(s), r);
    let frame = opened_or_raw(*old(s), blob@);
    if !old(s).bind_apply_broken && first_byte(frame) == Some(MESSAGE_FRAME_TAG) {
        if carries_message(frame) {
            let (stapled, moves, noted, v) = lemma_steps_of_a_message(
                *old(s),
                frame,
                out,
                mid,
                r,
            );
        }
    }
}

/// A frame that is no welcome, no message and no establishment message changes nothing: one of
/// the side-band is said not to belong here, any other does not decrypt.
pub proof fn law_other_frames_are_refused(
    s: &mut TwoMlsPqSession,
    blob: Vec<u8>,
    out: IncomingOutcome,
    r: Result<Option<DecryptResult>>,
)
    requires
        call_ensures(TwoMlsPqSession::process_incoming, (s, blob, out), r),
        !old(s).bind_apply_broken,
        ({
            let tag = first_byte(opened_or_raw(*old(s), blob@));
            &&& tag != Some(APQ_TAG)
            &&& tag != Some(MESSAGE_FRAME_TAG)
            &&& tag != Some(PRE_ESTABLISHMENT_APP_TAG)
        }),
    ensures
        *final(s) == *old(s),
        r == Err::<Option<DecryptResult>, TwoMlsPqError>(TwoMlsPqError::SessionNotReady) || r
            == Err::<Option<DecryptResult>, TwoMlsPqError>(TwoMlsPqError::DecryptionFailed),
        r == Err::<Option<DecryptResult>, TwoMlsPqError>(TwoMlsPqError::SessionNotReady) <==> {
            let tag = first_byte(opened_or_raw(*old(s), blob@));
            tag is Some && kind_of_tag(tag->0) is Some
        },
{
    let mid = lemma_before_it_is_counted(*old(s), blob@, out, *final(s), r);
}

/// Once applying a bind went wrong halfway, nothing more is received.
pub proof fn law_broken_receiver_reads_nothing(
    s: &mut TwoMlsPqSession,
    blob: Vec<u8>,
    out: IncomingOutcome,
    r: Result<Option<DecryptResult>>,
)
    requires
        call_ensures(TwoMlsPqSession::process_incoming, (s, blob, out), r),
        old(s).bind_apply_broken,
    ensures
        r == Err::<Option<DecryptResult>, TwoMlsPqError>(TwoMlsPqError::BindApplyFailed),
        *final(s) == *old(s),
{
    let mid = lemma_before_it_is_counted(*old(s), blob@, out, *final(s), r);
}

/// What comes in can commit the peer's id, as the one that the peer then has, and can commit an
/// id of ours that we run under or have staged. It authorizes none.
pub proof fn law_reception_commits_only(
    s: &mut TwoMlsPqSession,
    blob: Vec<u8>,
    out: IncomingOutcome,
    r: Result<Option<DecryptResult>>,
)
    requires
        call_ensures(TwoMlsPqSession::process_incoming, (s, blob, out), r),
    ensures
        adds_to(old(s).auth_updates@, final(s).auth_updates@),
        forall|i: int|
            old(s).auth_updates@.len() <= i < final(s).auth_updates@.len() ==> {
                let step = #[trigger] final(s).auth_updates@[i];
                ||| step.kind == AuthKind::CommitTheirs && step.id@ == current_id(
                    final(s).their_state,
                )
                ||| step.kind == AuthKind::CommitMine && step.id@ == final(s).client_id.bytes@ && (
                step.id@ == old(s).client_id.bytes@ || all_bytes(
                    old(s).staged_candidates@,
                ).contains(step.id@))
            },
        current_id(final(s).their_state) != current_id(old(s).their_state) ==> exists|i: int|
            old(s).auth_updates@.len() <= i < final(s).auth_updates@.len() && (
            #[trigger] final(s).auth_updates@[i]).kind == AuthKind::CommitTheirs,
        final(s).client_id.bytes@ != old(s).client_id.bytes@ ==> {
            &&& all_bytes(old(s).staged_candidates@).contains(final(s).client_id.bytes@)
            &&& current_id(final(s).my_state) == final(s).client_id.bytes@
            &&& final(s).staged_candidates@.len() == 0
        },
{
    let mid = lemma_before_it_is_counted(*old(s), blob@, out, *final(s), r);
    let frame = opened_or_raw(*old(s), blob@);
    let was = old(s).auth_updates@;
    let is = final(s).auth_updates@;
    let none = Seq::<(AuthKind, Seq<u8>)>::empty();
    if !old(s).bind_apply_broken && first_byte(frame) == Some(MESSAGE_FRAME_TAG)
        && carries_message(frame) {
        let (staple, carried, app) = message_parts(frame)->0;
        let (stapled, moves, noted, v) = lemma_steps_of_a_message(*old(s), frame, out, mid, r);
        let joined = first_byte(staple) == Some(APQ_TAG) && old(s).recv_group is None && moves
            is Ok;
        let first = if joined {
            seq![(AuthKind::CommitTheirs, stapled.recv_group->0.classical.peer_leaf@)]
        } else {
            none
        };
        assert(steps(stapled.auth_updates@) =~= steps(was) + first);
        assert(stapled.client_id == old(s).client_id);
        assert(stapled.staged_candidates == old(s).staged_candidates);
        if let Ok(m) = moves {
            let (new_sender, own) = (m@.1, m@.2);
            let second = match new_sender {
                Some(id) => seq![(AuthKind::CommitTheirs, id)],
                None => none,
            };
            let third = match own {
                Some(id) => if id == stapled.client_id@ || stapled.wins(id) {
                    seq![(AuthKind::CommitMine, id)]
                } else {
                    none
                },
                None => none,
            };
            let more = first + second + third;
            assert(steps(noted.auth_updates@) =~= steps(was) + more);
            assert(final(s).auth_updates == noted.auth_updates);
            if joined {
                assert(own is None);
                assert(new_sender is None || new_sender == Some(first[0].1));
            }
            lemma_adds_to(was, is, more);
            if first.len() > 0 {
                assert(is[was.len() as int].kind == AuthKind::CommitTheirs);
            } else if second.len() > 0 {
                assert(more[0] == second[0]);
                assert(is[was.len() as int].kind == AuthKind::CommitTheirs);
            }
        } else {
            lemma_adds_to(was, is, first);
        }
    } else if !old(s).bind_apply_broken && first_byte(frame) == Some(APQ_TAG) && old(s).recv_group
        is None && r is Ok {
        let more = seq![(AuthKind::CommitTheirs, final(s).recv_group->0.classical.peer_leaf@)];
        assert(steps(is) =~= steps(was) + more);
        lemma_adds_to(was, is, more);
        assert(is[was.len() as int].kind == AuthKind::CommitTheirs);
    } else {
        assert(steps(is) =~= steps(was) + none);
        lemma_adds_to(was, is, none);
    }
}

/// Whether what is reported of the peer's commits is what they did: a reported commit names the
/// ids that both sides then have, the peer's where it moved; and a commit that was applied, or
/// moved the peer's id, is reported.
pub open spec fn reports_commits(
    s: TwoMlsPqSession,
    now: TwoMlsPqSession,
    d: Option<DecryptResult>,
) -> bool {
    &&& d matches Some(o) ==> o.remote_commit matches Some(c) ==> {
        &&& c.new_recipient.bytes@ == current_id(now.my_state)
        &&& c.new_sender matches Some(id) ==> id.bytes@ == current_id(now.their_state)
    }
    &&& current_id(now.their_state) != current_id(s.their_state) ==> {
        &&& d matches Some(o)
        &&& o.remote_commit matches Some(c)
        &&& c.new_sender is Some
    }
    &&& s.recv_group is Some && now.recv_group != s.recv_group ==> {
        &&& d matches Some(o)
        &&& o.remote_commit is Some
    }
}

/// The peer's commits are reported as what they did.
pub proof fn lemma_commits_are_reported(
    s: TwoMlsPqSession,
    blob: Seq<u8>,
    out: IncomingOutcome,
    now: TwoMlsPqSession,
    d: Option<DecryptResult>,
)
    requires
        s.blob_processed(blob, out, now, Ok(d)),
    ensures
        reports_commits(s, now, d),
{
    let r = Ok::<Option<DecryptResult>, TwoMlsPqError>(d);
    let mid = lemma_before_it_is_counted(s, blob, out, now, r);
    let frame = opened_or_raw(s, blob);
    if !s.bind_apply_broken && first_byte(frame) == Some(MESSAGE_FRAME_TAG) {
        if carries_message(frame) {
            let (stapled, moves, noted, v) = lemma_steps_of_a_message(s, frame, out, mid, r);
        }
    }
}

/// A commit of the peer is reported with the ids that both sides have after it, and none that was
/// applied goes unreported.
pub proof fn law_commit_reaches_the_caller(
    s: &mut TwoMlsPqSession,
    blob: Vec<u8>,
    out: IncomingOutcome,
    d: Option<DecryptResult>,
)
    requires
        call_ensures(TwoMlsPqSession::process_incoming, (s, blob, out), Ok(d)),
    ensures
        reports_commits(*old(s), *final(s), d),
{
    lemma_commits_are_reported(*old(s), blob@, out, *final(s), d);
}

/// A frame that was processed is counted, and what it changed is to be pushed: the whole session
/// if a PQ epoch moved, else the part without the PQ trees.
pub proof fn law_processed_frame_is_counted(
    s: &mut TwoMlsPqSession,
    blob: Vec<u8>,
    out: IncomingOutcome,
    d: Option<DecryptResult>,
)
    requires
        call_ensures(TwoMlsPqSession::process_incoming, (s, blob, out), Ok(d)),
        old(s).state_seq < u64::MAX,
    ensures
        final(s).state_seq == old(s).state_seq + 1,
        final(s).push is Some <==> old(s).sink_installed,
        final(s).push matches Some(p) ==> {
            &&& p.seq == final(s).state_seq
            &&& p.kind == BlobKind::Core <==> (match (old(s).recv_group, final(s).recv_group) {
                (Some(a), Some(b)) => match (a.pq, b.pq) {
                    (Some(x), Some(y)) => x.epoch == y.epoch,
                    (None, None) => true,
                    _ => false,
                },
                (None, Some(b)) => b.pq is None,
                _ => true,
            })
        },
{
    let r = Ok::<Option<DecryptResult>, TwoMlsPqError>(d);
    let mid = lemma_before_it_is_counted(*old(s), blob@, out, *final(s), r);
    lemma_reception_keeps_the_staple(*old(s), blob@, out, *final(s), r);
    let frame = opened_or_raw(*old(s), blob@);
    if !old(s).bind_apply_broken && first_byte(frame) == Some(MESSAGE_FRAME_TAG) {
        if carries_message(frame) {
            let (stapled, moves, noted, v) = lemma_steps_of_a_message(
                *old(s),
                frame,
                out,
                mid,
                r,
            );
        }
    }
}

/// The first welcome founds the receive group: the session has then the group that was joined, and
/// the creator's id is the peer's. It is taken only where the joined group is bound to what our
/// own is bound to; what was kept for the establishment is dropped.
pub proof fn law_welcome_founds_the_receive_group(
    s: &mut TwoMlsPqSession,
    blob: Vec<u8>,
    out: IncomingOutcome,
    d: Option<DecryptResult>,
)
    requires
        call_ensures(TwoMlsPqSession::process_incoming, (s, blob, out), Ok(d)),
        first_byte(opened_or_raw(*old(s), blob@)) == Some(APQ_TAG),
        old(s).recv_group is None,
    ensures
        ({
            &&& out.staple.join.joined matches Ok(joined)
            &&& final(s).recv_group == Some(joined)
            &&& current_id(final(s).their_state) == joined.classical.peer_leaf@
            &&& old(s).send_group matches Some(send)
            &&& opt_bytes(joined.app_binding) == opt_bytes(send.app_binding)
            &&& joined.pq is Some ==> out.staple.join.pq_unbound is Ok
        }),
        read2(opened_or_raw(*old(s), blob@), APQ_TAG) matches Some((classical, pq)) && {
            &&& classical.len() > 0 ==> mls_suite_of(classical) == Some(
                Some(old(s).suite.classical),
            )
            &&& pq.len() > 0 ==> mls_suite_of(pq) == Some(Some(old(s).suite.pq))
        },
        opt_bytes(final(s).joined_welcome_digest) == Some(
            sha256_of(opened_or_raw(*old(s), blob@)),
        ),
        final(s).initial_their_kp is None,
        final(s).initial_app_payload is None,
        final(s).initial_return_kp is None,
        final(s).pending_outbound is None,
        d is Some <==> current_id(final(s).their_state) != current_id(old(s).their_state),
        d matches Some(o) ==> o.application_message is None && o.proposal is None,
{
    let r = Ok::<Option<DecryptResult>, TwoMlsPqError>(d);
    let mid = lemma_before_it_is_counted(*old(s), blob@, out, *final(s), r);
}

/// Joining by itself does what a welcome that comes in does, but is neither counted nor pushed: the
/// group is the one that was joined, and the creator's id is committed as the peer's.
pub proof fn law_joining_commits_the_creator(
    s: &mut TwoMlsPqSession,
    welcome: &[u8],
    psk: Result<ExportedPsk>,
    out: JoinOutcome,
    r: Result<()>,
)
    requires
        call_ensures(TwoMlsPqSession::process_welcome, (s, welcome, psk, out), r),
    ensures
        old(s).recv_group is None && r is Ok ==> {
            &&& out.joined matches Ok(joined)
            &&& final(s).recv_group == Some(joined)
            &&& current_id(final(s).their_state) == joined.classical.peer_leaf@
            &&& final(s).auth_updates@.len() == old(s).auth_updates@.len() + 1
            &&& final(s).auth_updates@.last().kind == AuthKind::CommitTheirs
            &&& final(s).auth_updates@.last().id@ == joined.classical.peer_leaf@
            &&& opt_bytes(final(s).joined_welcome_digest) == Some(sha256_of(welcome@))
            &&& opt_bytes(joined.app_binding) == opt_bytes(old(s).send_group->0.app_binding)
        },
        old(s).recv_group is None && out.joined is Ok && old(s).send_group is Some && opt_bytes(
            (out.joined->Ok_0).app_binding,
        ) != opt_bytes(old(s).send_group->0.app_binding) ==> r is Err,
        r is Err ==> {
            &&& final(s).recv_group == old(s).recv_group
            &&& final(s).their_state == old(s).their_state
            &&& final(s).auth_updates == old(s).auth_updates
            &&& final(s).joined_welcome_digest == old(s).joined_welcome_digest
        },
        final(s).state_seq == old(s).state_seq,
        final(s).push == old(s).push,
        final(s).send_group == old(s).send_group,
        final(s).client_id == old(s).client_id,
{
    if old(s).recv_group is None && r is Ok {
        let id = out.joined->Ok_0.classical.peer_leaf@;
        let (was, is) = (old(s).auth_updates@, final(s).auth_updates@);
        assert(steps(is) =~= steps(was) + seq![(AuthKind::CommitTheirs, id)]);
        lemma_adds_to(was, is, seq![(AuthKind::CommitTheirs, id)]);
    }
}

/// Where a commit stands in the order of the receive group's epochs.
pub proof fn law_commits_are_ordered_by_epoch(
    s: &TwoMlsPqSession,
    commit: &[u8],
    r: Result<StapleAction>,
)
    requires
        call_ensures(TwoMlsPqSession::staple_epoch_action, (s, commit), r),
    ensures
        mls_epoch_of(commit@) is Some && mls_epoch_of(commit@)->0 is Some && s.recv_group is Some
            ==> {
            let at = s.recv_group->0.classical.epoch;
            let epoch = (mls_epoch_of(commit@)->0)->0;
            &&& r == Ok::<StapleAction, TwoMlsPqError>(StapleAction::Skip) <==> epoch < at
            &&& r == Ok::<StapleAction, TwoMlsPqError>(StapleAction::Apply) <==> epoch == at
            &&& r == Err::<StapleAction, TwoMlsPqError>(TwoMlsPqError::EpochDesync) <==> epoch > at
        },
        mls_epoch_of(commit@) is None || mls_epoch_of(commit@)->0 is None ==> r == Err::<
            StapleAction,
            TwoMlsPqError,
        >(TwoMlsPqError::DecryptionFailed),
{
}

/// What the host is told of a frame is how it is then processed: one that is refused to the host is
/// refused for the same reason; one whose staple the host is told does not stand is refused; and
/// one that stands and was decrypted is read.
pub proof fn law_frame_is_foretold(
    s: &mut TwoMlsPqSession,
    blob: Vec<u8>,
    out: IncomingOutcome,
    r: Result<Option<DecryptResult>>,
    t: &TwoMlsPqSession,
    again: Vec<u8>,
    plan: Result<IncomingPlan>,
    staple: &StaplePlan,
    outcome: &StapleOutcome,
    stands: bool,
)
    requires
        call_ensures(TwoMlsPqSession::process_incoming, (s, blob, out), r),
        *t == *old(s),
        again@ == blob@,
        call_ensures(TwoMlsPqSession::incoming_plan, (t, again), plan),
        plan matches Ok(IncomingPlan::Message { staple: st, .. }) ==> st == *staple,
        *outcome == out.staple,
        call_ensures(TwoMlsPqSession::staple_stands, (t, staple, outcome), stands),
    ensures
        plan is Err ==> r is Err && r->Err_0 == plan->Err_0,
        plan matches Ok(IncomingPlan::Message { proposal, .. }) ==> {
            &&& !stands ==> r is Err
            &&& stands && out.app is Some && old(s).send_group is Some && proposal_parts(proposal@)
                is Some ==> r is Ok
            &&& out.app is None ==> r is Err
        },
{
    let mid = lemma_before_it_is_counted(*old(s), blob@, out, *final(s), r);
    let frame = opened_or_raw(*old(s), blob@);
    if let Err(e) = plan {
        law_refused_frame_is_reported(*old(s), frame, e, out, mid, r);
    }
    if let Ok(IncomingPlan::Message { staple: st, app, proposal }) = plan {
        let (staple_bytes, carried, a) = message_parts(frame)->0;
        let (stapled, moves, noted, v) = lemma_steps_of_a_message(*old(s), frame, out, mid, r);
        law_staple_stands_iff_read_on(
            *old(s),
            staple_bytes,
            st,
            out.staple,
            stapled,
            moves,
            noted,
            v,
        );
    }
}

/// A ledger that took the PSK of the send group's epoch in holds one of that epoch.
proof fn lemma_ledger_gains(s: TwoMlsPqSession, psk: Result<ExportedPsk>)
    ensures
        s.send_group is Some && remember_error(
            s.send_psk_ledger@,
            s.send_group->0.classical.epoch,
            psk,
        ) is None ==> ledger_has(
            ledger_with(s.send_psk_ledger@, s.send_group->0.classical.epoch, psk),
            s.send_group->0.classical.epoch,
        ),
{
    let l = s.send_psk_ledger@;
    let epoch = s.send_group->0.classical.epoch;
    if !ledger_has(l, epoch) && psk is Ok {
        assert(ledger_with(l, epoch, psk).last().epoch == epoch);
    }
}

/// A message whose staple is a plain commit: it is applied exactly at the receive group's epoch,
/// passed over below it, and refused above it. Applied, it replaces the classical half alone, has
/// to leave two members, and attests no PQ epoch but the one that the receive group is in.
pub proof fn law_plain_commit_applies_in_order(
    s: &mut TwoMlsPqSession,
    blob: Vec<u8>,
    out: IncomingOutcome,
    r: Result<Option<DecryptResult>>,
    staple: Seq<u8>,
    epoch: u64,
)
    requires
        call_ensures(TwoMlsPqSession::process_incoming, (s, blob, out), r),
        !old(s).bind_apply_broken,
        old(s).recv_group is Some,
        ({
            let frame = opened_or_raw(*old(s), blob@);
            &&& first_byte(frame) == Some(MESSAGE_FRAME_TAG)
            &&& carries_message(frame)
            &&& message_parts(frame) matches Some((st, carried, app)) && st == staple
        }),
        first_byte(staple) != Some(APQ_TAG),
        first_byte(staple) != Some(APQ_PRIVATE_MESSAGE_TAG),
        mls_epoch_of(staple) == Some(Some(epoch)),
    ensures
        epoch > old(s).recv_group->0.classical.epoch ==> r == Err::<
            Option<DecryptResult>,
            TwoMlsPqError,
        >(TwoMlsPqError::EpochDesync) && *final(s) == *old(s),
        epoch < old(s).recv_group->0.classical.epoch ==> final(s).recv_group == old(s).recv_group
            && (r matches Ok(Some(d)) ==> d.remote_commit is None),
        epoch == old(s).recv_group->0.classical.epoch && r is Ok ==> {
            &&& out.staple.commit matches CommitProcessed::Commit { half, attestation, two_party }
            &&& two_party
            &&& final(s).recv_group matches Some(g)
            &&& g.classical == half
            &&& g.pq == old(s).recv_group->0.pq
            &&& g.app_binding == old(s).recv_group->0.app_binding
            &&& attestation matches Ok(a)
            &&& a matches Some(u) ==> u.t_epoch == half.epoch && g.pq is Some && u.pq_epoch
                == g.pq->0.epoch
            &&& r matches Ok(Some(d))
            &&& d.remote_commit matches Some(c)
            &&& match c.new_sender {
                Some(id) => id.bytes@ == half.peer_leaf@ && half.peer_leaf@ != old(
                    s,
                ).recv_group->0.classical.peer_leaf@,
                None => half.peer_leaf@ == old(s).recv_group->0.classical.peer_leaf@,
            }
            &&& half.my_leaf@ != old(s).recv_group->0.classical.my_leaf@ ==> half.my_leaf@
                == final(s).client_id.bytes@
            &&& old(s).send_group matches Some(own) ==> {
                &&& final(s).retired_send_psks@.len() == 0
                &&& ledger_has(final(s).send_psk_ledger@, own.classical.epoch)
            }
        },
        final(s).pq_turn_mine == old(s).pq_turn_mine,
        final(s).pq_inflight == old(s).pq_inflight,
        !final(s).bind_apply_broken,
{
    let mid = lemma_before_it_is_counted(*old(s), blob@, out, *final(s), r);
    let frame = opened_or_raw(*old(s), blob@);
    let (stapled, moves, noted, v) = lemma_steps_of_a_message(*old(s), frame, out, mid, r);
    lemma_ledger_gains(*old(s), out.staple.send_psk);
}

/// A message whose staple is a bind: it is applied at the receive group's epoch only, by the side
/// that answered the round. Applied, it replaces both halves, which attest each other's epochs,
/// and the round is over and the turn taken. Where it fails once its secret is spent, the
/// receiver is broken.
pub proof fn law_bind_applies_both_halves(
    s: &mut TwoMlsPqSession,
    blob: Vec<u8>,
    out: IncomingOutcome,
    r: Result<Option<DecryptResult>>,
    staple: Seq<u8>,
    commit: Seq<u8>,
    pq_commit: Seq<u8>,
    epoch: u64,
)
    requires
        call_ensures(TwoMlsPqSession::process_incoming, (s, blob, out), r),
        !old(s).bind_apply_broken,
        old(s).recv_group is Some,
        ({
            let frame = opened_or_raw(*old(s), blob@);
            &&& first_byte(frame) == Some(MESSAGE_FRAME_TAG)
            &&& carries_message(frame)
            &&& message_parts(frame) matches Some((st, carried, app)) && st == staple
        }),
        first_byte(staple) == Some(APQ_PRIVATE_MESSAGE_TAG),
        read2(staple, APQ_PRIVATE_MESSAGE_TAG) == Some((commit, pq_commit)),
        mls_epoch_of(commit) == Some(Some(epoch)),
    ensures
        epoch > old(s).recv_group->0.classical.epoch ==> r == Err::<
            Option<DecryptResult>,
            TwoMlsPqError,
        >(TwoMlsPqError::EpochDesync) && *final(s) == *old(s),
        epoch < old(s).recv_group->0.classical.epoch ==> final(s).recv_group == old(s).recv_group
            && final(s).pq_inflight == old(s).pq_inflight && final(s).pq_turn_mine == old(
            s,
        ).pq_turn_mine && !final(s).bind_apply_broken,
        epoch == old(s).recv_group->0.classical.epoch && r is Ok ==> {
            &&& old(s).pq_inflight is Some
            &&& old(s).pq_inflight->0 is Responding || old(s).pq_inflight->0 is BootstrapResponded
                || old(s).pq_inflight->0 is RekeyResponded
            &&& out.staple.bind.pq matches Some(p)
            &&& out.staple.bind.classical matches Some(c)
            &&& final(s).recv_group matches Some(g)
            &&& g.classical == c.half
            &&& g.pq == Some(p.half)
            &&& g.app_binding == old(s).recv_group->0.app_binding
            &&& c.attestation == Some(p.attestation)
            &&& p.attestation.t_epoch == c.half.epoch
            &&& p.attestation.pq_epoch == p.half.epoch
            &&& c.two_party
            &&& final(s).pq_inflight is None
            &&& final(s).pending_side_band is None
            &&& final(s).pq_turn_mine
            &&& !final(s).bind_apply_broken
            &&& r matches Ok(Some(d)) && d.remote_commit is Some
            &&& final(s).last_send_pq_exported == if old(s).pq_inflight->0 is Responding {
                old(s).last_send_pq_exported
            } else {
                Some(old(s).send_group->0.pq->0.epoch)
            }
            &&& old(s).send_group matches Some(own) ==> {
                &&& final(s).retired_send_psks@.len() == 0
                &&& ledger_has(final(s).send_psk_ledger@, own.classical.epoch)
            }
        },
        final(s).bind_apply_broken <==> r == Err::<Option<DecryptResult>, TwoMlsPqError>(
            TwoMlsPqError::BindApplyFailed,
        ) && epoch == old(s).recv_group->0.classical.epoch && (old(s).pq_inflight is Some && (old(
            s,
        ).pq_inflight->0 is Responding || out.staple.bind.secret is Ok)),
{
    let mid = lemma_before_it_is_counted(*old(s), blob@, out, *final(s), r);
    let frame = opened_or_raw(*old(s), blob@);
    let (stapled, moves, noted, v) = lemma_steps_of_a_message(*old(s), frame, out, mid, r);
    lemma_ledger_gains(*old(s), out.staple.send_psk);
}

/// An establishment envelope's app message is read in the receive group, and changes nothing but
/// the count.
pub proof fn law_envelope_message_reaches_the_caller(
    s: &mut TwoMlsPqSession,
    blob: Vec<u8>,
    out: IncomingOutcome,
    d: Option<DecryptResult>,
)
    requires
        call_ensures(TwoMlsPqSession::process_incoming, (s, blob, out), Ok(d)),
        first_byte(opened_or_raw(*old(s), blob@)) == Some(PRE_ESTABLISHMENT_APP_TAG),
    ensures
        ({
            &&& d matches Some(o)
            &&& out.app matches Some(app)
            &&& o.application_message matches Some(m)
            &&& m.app_message_data@ == app.data@
            &&& m.sender_client_id.bytes@ == app.sender@
            &&& old(s).recv_group matches Some(g) && m.epoch == g.classical.epoch
            &&& o.proposal is None
            &&& o.remote_commit is None
        }),
        final(s).recv_group == old(s).recv_group,
        final(s).offered_proposal == old(s).offered_proposal,
        final(s).auth_updates == old(s).auth_updates,
{
    let r = Ok::<Option<DecryptResult>, TwoMlsPqError>(d);
    let mid = lemma_before_it_is_counted(*old(s), blob@, out, *final(s), r);
}

/// What the peer has applied of our commits goes up only, and only to the epoch that our send
/// group is in, by an offer that the peer made in it.
pub proof fn law_only_an_offer_shows_what_was_applied(
    s: &mut TwoMlsPqSession,
    blob: Vec<u8>,
    out: IncomingOutcome,
    r: Result<Option<DecryptResult>>,
)
    requires
        call_ensures(TwoMlsPqSession::process_incoming, (s, blob, out), r),
        final(s).peer_applied_send_epoch != old(s).peer_applied_send_epoch,
    ensures
        r is Ok,
        old(s).send_group matches Some(g) && final(s).peer_applied_send_epoch == Some(
            g.classical.epoch,
        ),
        old(s).peer_applied_send_epoch matches Some(mark) ==> mark
            <= final(s).peer_applied_send_epoch->0,
        out.offer matches ProcessedProposal::Proposal { member, is_update, .. } && is_update
            && member is Some && member->0 != old(s).send_group->0.classical.my_index,
{
    let mid = lemma_before_it_is_counted(*old(s), blob@, out, *final(s), r);
    let frame = opened_or_raw(*old(s), blob@);
    if !old(s).bind_apply_broken && first_byte(frame) == Some(MESSAGE_FRAME_TAG) {
        if carries_message(frame) {
            let (stapled, moves, noted, v) = lemma_steps_of_a_message(
                *old(s),
                frame,
                out,
                mid,
                r,
            );
        }
    }
}

/// An offer that the peer made in our send group's current epoch shows that the peer has applied it,
/// which licenses the next commit.
pub proof fn law_offer_in_our_epoch_licenses(
    s: &mut TwoMlsPqSession,
    blob: Vec<u8>,
    staple: Seq<u8>,
    proposing: Seq<u8>,
    proposal: Seq<u8>,
    plan: StaplePlan,
    out: IncomingOutcome,
    r: Result<Option<DecryptResult>>,
    t: &TwoMlsPqSession,
    licensed: Result<bool>,
)
    requires
        call_ensures(TwoMlsPqSession::process_incoming, (s, blob, out), r),
        reads_on(*old(s), blob@, staple, proposing, proposal, plan, out),
        out.app is Some,
        mls_epoch_of(proposal) is Some,
        out.offer matches ProcessedProposal::Proposal { member, is_update, leaf, .. } && {
            &&& is_update
            &&& member is Some
            &&& member->0 != old(s).send_group->0.classical.my_index
            &&& leaf is Some
            &&& leaf->0@ == proposing
        },
        *t == *final(s),
        call_ensures(TwoMlsPqSession::peer_applied_our_send_epoch, (t,), licensed),
    ensures
        licensed == Ok::<bool, TwoMlsPqError>(true),
{
    let mid = lemma_before_it_is_counted(*old(s), blob@, out, *final(s), r);
    let frame = opened_or_raw(*old(s), blob@);
    let (stapled, moves, noted, v) = lemma_steps_of_a_message(*old(s), frame, out, mid, r);
    law_staple_stands_iff_read_on(*old(s), staple, plan, out.staple, stapled, moves, noted, v);
}

/// Whether a blob opens to a message frame whose staple is a plain commit of the epoch that the
/// receive group is in.
pub open spec fn applies_commit(s: TwoMlsPqSession, blob: Seq<u8>, staple: Seq<u8>) -> bool {
    let frame = opened_or_raw(s, blob);
    &&& !s.bind_apply_broken
    &&& first_byte(frame) == Some(MESSAGE_FRAME_TAG)
    &&& carries_message(frame)
    &&& message_parts(frame) matches Some((st, carried, app))
    &&& st == staple
    &&& first_byte(staple) != Some(APQ_TAG)
    &&& first_byte(staple) != Some(APQ_PRIVATE_MESSAGE_TAG)
    &&& s.recv_group matches Some(g)
    &&& mls_epoch_of(staple) == Some(Some(g.classical.epoch))
}

/// What comes of such a frame.
pub proof fn lemma_applied_commit(
    s: TwoMlsPqSession,
    blob: Seq<u8>,
    out: IncomingOutcome,
    now: TwoMlsPqSession,
    r: Result<Option<DecryptResult>>,
    staple: Seq<u8>,
)
    requires
        s.blob_processed(blob, out, now, r),
        applies_commit(s, blob, staple),
    ensures
        exists|stapled: TwoMlsPqSession, moves: Result<StapleMoves>|
            {
                &&& #[trigger] s.commit_applied(
                    out.staple.send_psk,
                    out.staple.commit,
                    stapled,
                    moves,
                )
                &&& match moves {
                    Err(e) => r == Err::<Option<DecryptResult>, TwoMlsPqError>(e)
                        && now.recv_group == stapled.recv_group,
                    Ok(m) => m@.2 matches Some(id) && id != s.client_id@ && !s.wins(id) ==> r
                        == Err::<Option<DecryptResult>, TwoMlsPqError>(
                        TwoMlsPqError::CredentialRejected,
                    ),
                }
            },
{
    let mid = lemma_before_it_is_counted(s, blob, out, now, r);
    let frame = opened_or_raw(s, blob);
    let (stapled, moves, noted, v) = lemma_steps_of_a_message(s, frame, out, mid, r);
    assert(s.commit_applied(out.staple.send_psk, out.staple.commit, stapled, moves));
}

} // verus!
