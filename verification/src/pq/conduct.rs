//! What the operations do, said of their calls: of what goes in, what comes out, and what of the
//! session is then different. Where two calls belong together, on one side or on both, it is
//! said how the second answers the first.

use vstd::prelude::*;
use crate::bytes::{all_bytes, first_byte, opt_bytes};
use crate::types::{opt_id, ClientId};
use super::error::{Result, TwoMlsPqError};
use super::frames::{
    is_tagged, lemma_read2, parts2, read2, APQ_PRIVATE_MESSAGE_TAG,
};
use super::incoming::{DecryptResult, IncomingOutcome};
use super::messaging::{Encrypted, ProcessedProposal};
use super::persist::begun;
use super::prepare::{
    fold_steps, past, prepare_stop, promotion_steps, round_settled, PrepareEncryptResult,
    MlsRefusal, PrepareOutcome, PreparePlan, PrepareStep, ProposedIdentity,
};
use super::providers::{mls_epoch_of, sha256_of};
use super::reception::lemma_reception_keeps_the_staple;
use super::scope::leaves_rounds;
use super::state::{
    steps, AuthKind, AuthUpdate, BlobKind, PrincipalState, TwoMlsPqSession,
};

verus! {

/// The id of a principal now, whether or not it is to change.
pub open spec fn current_id(p: PrincipalState) -> Seq<u8> {
    match p {
        PrincipalState::Sync { client_id } => client_id.bytes@,
        PrincipalState::Pending { old, new } => old.bytes@,
    }
}

/// The id that a principal is to change to, if it is to.
pub open spec fn next_id(p: PrincipalState) -> Option<Seq<u8>> {
    match p {
        PrincipalState::Sync { client_id } => None,
        PrincipalState::Pending { old, new } => Some(new.bytes@),
    }
}

// ---- the steps of the credential sequences ----

/// Whether `is` is `was` with steps added at its end.
pub open spec fn adds_to(was: Seq<AuthUpdate>, is: Seq<AuthUpdate>) -> bool {
    &&& was.len() <= is.len()
    &&& forall|i: int|
        0 <= i < was.len() ==> (#[trigger] is[i]).kind == was[i].kind && is[i].id@ == was[i].id@
}

/// One list of steps continues another if its kinds and ids do.
pub proof fn lemma_adds_to(
    was: Seq<AuthUpdate>,
    is: Seq<AuthUpdate>,
    more: Seq<(AuthKind, Seq<u8>)>,
)
    requires
        steps(is) == steps(was) + more,
    ensures
        adds_to(was, is),
        is.len() == was.len() + more.len(),
        forall|i: int|
            was.len() <= i < is.len() ==> (#[trigger] is[i]).kind == more[i - was.len()].0
                && is[i].id@ == more[i - was.len()].1,
{
    assert(steps(is).len() == is.len() && steps(was).len() == was.len());
    assert forall|i: int| 0 <= i < is.len() implies steps(is)[i] == ((#[trigger] is[i]).kind, is[
        i
    ].id@) by {}
    assert forall|i: int| 0 <= i < was.len() implies (#[trigger] is[i]).kind == was[i].kind && is[
        i
    ].id@ == was[i].id@ by {
        assert(steps(is)[i] == (steps(was) + more)[i]);
        assert(steps(was)[i] == (was[i].kind, was[i].id@));
    }
    assert forall|i: int| was.len() <= i < is.len() implies (#[trigger] is[i]).kind == more[i
        - was.len()].0 && is[i].id@ == more[i - was.len()].1 by {
        assert(steps(is)[i] == (steps(was) + more)[i]);
    }
}

/// An approval adds one step, and it authorizes for the peer the id that the peer offered. A
/// refusal adds none.
pub proof fn law_approval_authorizes_the_peer(
    s: &mut TwoMlsPqSession,
    digest: &[u8],
    processed: &ProcessedProposal,
    r: Result<()>,
)
    requires
        call_ensures(TwoMlsPqSession::queue_proposal, (s, digest, processed), r),
    ensures
        adds_to(old(s).auth_updates@, final(s).auth_updates@),
        final(s).auth_updates@.len() == old(s).auth_updates@.len() + (if r is Ok {
            1int
        } else {
            0
        }),
        r is Ok ==> {
            &&& old(s).offered_proposal is Some
            &&& final(s).auth_updates@.last().kind == AuthKind::AuthorizeTheirs
            &&& final(s).auth_updates@.last().id@ == old(s).offered_proposal->0.proposing@
        },
{
    if r is Ok {
        let id = old(s).offered_proposal->0.proposing@;
        assert(steps(final(s).auth_updates@) =~= steps(old(s).auth_updates@)
            + seq![(AuthKind::AuthorizeTheirs, id)]);
        lemma_adds_to(
            old(s).auth_updates@,
            final(s).auth_updates@,
            seq![(AuthKind::AuthorizeTheirs, id)],
        );
    }
}

/// Approving takes the proposal that was offered under the digest, as it was offered, and no
/// other: it is the one to fold, it is offered no more, and its id is the peer's successor.
pub proof fn law_approval_takes_what_was_offered(
    s: &mut TwoMlsPqSession,
    digest: &[u8],
    processed: &ProcessedProposal,
    r: Result<()>,
    t: &TwoMlsPqSession,
    successor: Option<ClientId>,
)
    requires
        call_ensures(TwoMlsPqSession::queue_proposal, (s, digest, processed), r),
        *t == *final(s),
        call_ensures(TwoMlsPqSession::queued_remote_successor, (t,), successor),
    ensures
        r is Ok ==> {
            &&& old(s).offered_proposal matches Some(offer)
            &&& offer.digest@ == digest@
            &&& final(s).queued_proposal == Some(offer)
            &&& final(s).offered_proposal is None
            &&& successor matches Some(id) && id.bytes@ == offer.proposing@
        },
        r is Err ==> {
            &&& final(s).queued_proposal == old(s).queued_proposal
            &&& final(s).offered_proposal == old(s).offered_proposal
        },
        current_id(final(s).their_state) == current_id(old(s).their_state),
        current_id(final(s).my_state) == current_id(old(s).my_state),
        final(s).send_group == old(s).send_group,
        final(s).recv_group == old(s).recv_group,
{
}

/// A round adds at most two steps: it commits for the peer the id that was approved, and it
/// authorizes as ours the rotation that was put off. So folding a peer's proposal never
/// authorizes or commits an id as ours.
pub proof fn law_round_commits_for_the_peer(
    s: &mut TwoMlsPqSession,
    proposing: Option<ClientId>,
    out: PrepareOutcome,
    r: Result<PrepareEncryptResult>,
)
    requires
        call_ensures(TwoMlsPqSession::prepare_to_encrypt, (s, proposing, out), r),
    ensures
        adds_to(old(s).auth_updates@, final(s).auth_updates@),
        final(s).auth_updates@.len() <= old(s).auth_updates@.len() + 2,
        forall|i: int|
            old(s).auth_updates@.len() <= i < final(s).auth_updates@.len() ==> {
                let step = #[trigger] final(s).auth_updates@[i];
                ||| step.kind == AuthKind::CommitTheirs && old(s).queued_proposal is Some
                    && step.id@ == old(s).queued_proposal->0.proposing@
                ||| step.kind == AuthKind::AuthorizeMine && proposing is None && old(
                    s,
                ).deferred_candidate is Some && step.id@ == old(s).deferred_candidate->0@
            },
        r is Ok && old(s).recv_group is Some && old(s).queued_proposal is Some && old(
            s,
        ).queued_proposal->0.proposing@ != current_id(old(s).their_state) ==> exists|i: int|
            old(s).auth_updates@.len() <= i < final(s).auth_updates@.len() && (
            #[trigger] final(s).auth_updates@[i]).kind == AuthKind::CommitTheirs,
{
    let was = old(s).auth_updates@;
    let is = final(s).auth_updates@;
    let b = begun(*old(s), BlobKind::Core);
    let selected = opt_id(proposing);
    let stop = prepare_stop(b, selected, out);
    let none = Seq::<(AuthKind, Seq<u8>)>::empty();
    let more = if b.recv_group is None || b.send_group is None {
        none
    } else {
        (if b.commits() && past(stop, PrepareStep::Roster) {
            fold_steps(b, b.queued_proposal)
        } else {
            none
        }) + (if past(stop, PrepareStep::Mint) {
            promotion_steps(b, selected)
        } else {
            none
        })
    };
    assert(steps(is) =~= steps(was) + more);
    lemma_adds_to(was, is, more);
    if r is Ok && old(s).recv_group is Some && old(s).queued_proposal is Some && old(
        s,
    ).queued_proposal->0.proposing@ != current_id(old(s).their_state) {
        assert(more[0] == fold_steps(b, b.queued_proposal)[0]);
        assert(is[was.len() as int].kind == AuthKind::CommitTheirs);
    }
}

/// Staging a rotation adds no step but that it authorizes the new id as ours, once.
pub proof fn law_rotation_authorizes_our_id(
    s: &mut TwoMlsPqSession,
    id: Vec<u8>,
    minted: Result<()>,
    r: Result<()>,
)
    requires
        call_ensures(TwoMlsPqSession::stage_rotation, (s, id, minted), r),
    ensures
        adds_to(old(s).auth_updates@, final(s).auth_updates@),
        final(s).auth_updates@.len() <= old(s).auth_updates@.len() + 1,
        final(s).auth_updates@.len() > old(s).auth_updates@.len() ==> {
            &&& r is Ok
            &&& final(s).auth_updates@.last().kind == AuthKind::AuthorizeMine
            &&& final(s).auth_updates@.last().id@ == id@
        },
        r is Ok ==> all_bytes(final(s).staged_candidates@).contains(id@) || opt_bytes(
            final(s).deferred_candidate,
        ) == Some(id@),
        r is Ok && *final(s) != *old(s) ==> next_id(final(s).my_state) == Some(id@),
        current_id(final(s).my_state) == current_id(old(s).my_state),
        final(s).their_state == old(s).their_state,
        final(s).client_id == old(s).client_id,
        r is Err ==> final(s).staged_candidates == old(s).staged_candidates,
{
    let was = old(s).auth_updates@;
    let is = final(s).auth_updates@;
    let none = Seq::<(AuthKind, Seq<u8>)>::empty();
    if steps(is) == steps(was) {
        assert(steps(is) =~= steps(was) + none);
        lemma_adds_to(was, is, none);
    } else {
        let more = seq![(AuthKind::AuthorizeMine, id@)];
        assert(steps(is) =~= steps(was) + more);
        lemma_adds_to(was, is, more);
        assert(all_bytes(final(s).staged_candidates@).last() == id@);
    }
    if old(s).is_candidate(id@) {
        assert(*final(s) == *old(s) || id@.len() == 0);
    }
}

/// Taking the steps hands out every one in order, and leaves none.
pub proof fn law_steps_are_handed_out_once(
    s: &mut TwoMlsPqSession,
    r: Vec<AuthUpdate>,
    t: &mut TwoMlsPqSession,
    again: Vec<AuthUpdate>,
)
    requires
        call_ensures(TwoMlsPqSession::take_auth_updates, (s,), r),
        *old(t) == *final(s),
        call_ensures(TwoMlsPqSession::take_auth_updates, (t,), again),
    ensures
        r@.len() == old(s).auth_updates@.len(),
        adds_to(old(s).auth_updates@, r@),
        again@.len() == 0,
{
    let none = Seq::<(AuthKind, Seq<u8>)>::empty();
    assert(steps(r@) =~= steps(old(s).auth_updates@) + none);
    lemma_adds_to(old(s).auth_updates@, r@, none);
    assert(steps(again@).len() == 0);
    assert(steps(again@).len() == again@.len());
}

// ---- a round ----

/// What a round announces: its proposal and the digest of that proposal, which the app message
/// is then to be bound to; and the proposal is the one that is sent with it.
pub proof fn law_round_is_bound_to_its_proposal(
    s: &mut TwoMlsPqSession,
    proposing: Option<ClientId>,
    out: PrepareOutcome,
    p: PrepareEncryptResult,
    t: &TwoMlsPqSession,
    aad: Result<Vec<u8>>,
)
    requires
        call_ensures(TwoMlsPqSession::prepare_to_encrypt, (s, proposing, out), Ok(p)),
        *t == *final(s),
        call_ensures(TwoMlsPqSession::encrypt_plan, (t,), aad),
        old(s).send_group is Some,
    ensures
        aad matches Ok(bytes) && bytes@ == p.proposal_hash@,
        old(s).recv_group is Some ==> {
            &&& p.proposal_hash@ == sha256_of(p.proposal_message@)
            &&& out.update.message matches Ok(m) && m@ == p.proposal_message@
            &&& final(s).pending_proposal_message matches Some(staged) && staged.message@
                == p.proposal_message@
        },
        old(s).recv_group is None ==> {
            &&& p.proposal_hash@ == sha256_of(old(s).current_staple@)
            &&& p.proposal_message@.len() == 0
            &&& !p.did_commit
        },
{
}

/// Whose id a round proposes: the one that was asked for, which has to be staged; else the rotation
/// that was put off, if a place is free for it, which is then staged; else the current one.
pub proof fn law_round_proposes_an_id_of_ours(
    s: &mut TwoMlsPqSession,
    proposing: Option<ClientId>,
    out: PrepareOutcome,
    p: PrepareEncryptResult,
)
    requires
        call_ensures(TwoMlsPqSession::prepare_to_encrypt, (s, proposing, out), Ok(p)),
        old(s).recv_group is Some,
    ensures
        ({
            &&& final(s).pending_proposal_message matches Some(staged)
            &&& match proposing {
                Some(id) => {
                    &&& staged.proposing@ == id.bytes@
                    &&& all_bytes(old(s).staged_candidates@).contains(id.bytes@)
                    &&& final(s).deferred_candidate == old(s).deferred_candidate
                },
                None => if old(s).deferred_candidate is Some && old(s).staged_candidates@.len()
                    < 4 {
                    &&& staged.proposing@ == old(s).deferred_candidate->0@
                    &&& all_bytes(final(s).staged_candidates@).contains(staged.proposing@)
                    &&& final(s).deferred_candidate is None
                    &&& next_id(final(s).my_state) == Some(staged.proposing@)
                } else {
                    &&& staged.proposing@ == old(s).client_id.bytes@
                    &&& final(s).deferred_candidate == old(s).deferred_candidate
                },
            }
        }),
{
    let b = begun(*old(s), BlobKind::Core);
    let selected = opt_id(proposing);
    if b.promotes(selected) {
        let d = b.deferred_candidate->0@;
        assert(all_bytes(final(s).staged_candidates@).last() == d);
        assert(all_bytes(final(s).staged_candidates@).contains(d));
    }
}

/// Exactly a committing round changes what the session sends: the staple is then the commit that
/// was built, with the PQ commit of the bind that was owed, and the send group is past it. The
/// PQ half of the send group is left as it is.
pub proof fn law_round_staples_its_commit(
    s: &mut TwoMlsPqSession,
    proposing: Option<ClientId>,
    out: PrepareOutcome,
    p: PrepareEncryptResult,
)
    requires
        call_ensures(TwoMlsPqSession::prepare_to_encrypt, (s, proposing, out), Ok(p)),
    ensures
        p.did_commit ==> {
            &&& out.round.commit.built matches Ok(built)
            &&& built.message matches Some(m)
            &&& match old(s).owed_bind {
                None => final(s).current_staple@ == m@,
                Some(owed) => m@.len() > 0 && owed.pq_commit@.len() > 0 && m@.len() <= u32::MAX
                    && owed.pq_commit@.len() <= u32::MAX ==> {
                    &&& first_byte(final(s).current_staple@) == Some(APQ_PRIVATE_MESSAGE_TAG)
                    &&& read2(final(s).current_staple@, APQ_PRIVATE_MESSAGE_TAG) == Some(
                        (m@, owed.pq_commit@),
                    )
                },
            }
            &&& final(s).send_group matches Some(g)
            &&& g.classical == built.half
            &&& old(s).send_group matches Some(before)
            &&& g.pq == before.pq
            &&& g.app_binding == before.app_binding
            &&& final(s).owed_bind is None
            &&& final(s).queued_proposal is None
            &&& final(s).offered_proposal is None
        },
        !p.did_commit ==> {
            &&& final(s).current_staple@ == old(s).current_staple@
            &&& final(s).current_staple_seq == old(s).current_staple_seq
            &&& final(s).send_group == old(s).send_group
            &&& final(s).owed_bind == old(s).owed_bind
            &&& final(s).offered_proposal == old(s).offered_proposal
            &&& current_id(final(s).their_state) == current_id(old(s).their_state)
        },
        final(s).recv_group == old(s).recv_group,
        final(s).client_id == old(s).client_id,
        current_id(final(s).my_state) == current_id(old(s).my_state) || current_id(
            final(s).my_state,
        ) == old(s).client_id.bytes@,
{
    if p.did_commit && old(s).owed_bind is Some {
        let m = out.round.commit.built->Ok_0.message->0@;
        let c = old(s).owed_bind->0.pq_commit@;
        if m.len() > 0 && c.len() > 0 && m.len() <= u32::MAX && c.len() <= u32::MAX {
            let q = parts2(m, c);
            assert(q[0] == m && q[1] == c);
            assert(is_tagged(final(s).current_staple@, APQ_PRIVATE_MESSAGE_TAG, q));
            lemma_read2(final(s).current_staple@, APQ_PRIVATE_MESSAGE_TAG, m, c);
        }
    }
}

/// The peer's id that a round reports committed is the approved one, it is reported exactly where
/// one was approved, and it is the peer's id from then on.
pub proof fn law_round_reports_the_peer_it_committed(
    s: &mut TwoMlsPqSession,
    proposing: Option<ClientId>,
    out: PrepareOutcome,
    p: PrepareEncryptResult,
)
    requires
        call_ensures(TwoMlsPqSession::prepare_to_encrypt, (s, proposing, out), Ok(p)),
        old(s).recv_group is Some,
    ensures
        match old(s).queued_proposal {
            None => {
                &&& p.committed_remote_client_id is None
                &&& current_id(final(s).their_state) == current_id(old(s).their_state)
            },
            Some(approved) => {
                &&& p.did_commit
                &&& p.committed_remote_client_id matches Some(id)
                &&& id.bytes@ == approved.proposing@
                &&& current_id(final(s).their_state) == id.bytes@
                &&& id.bytes@ != current_id(old(s).their_state) ==> next_id(final(s).their_state)
                    is None
            },
        },
        p.did_commit && old(s).owed_bind is Some ==> !final(s).pq_turn_mine,
        old(s).owed_bind is None || !p.did_commit ==> final(s).pq_turn_mine == old(s).pq_turn_mine,
        p.did_commit && old(s).queued_proposal is None ==> old(s).owed_bind is Some,
{
}

/// What a round is to do is what it then does: it is planned to fold the approved proposal and no
/// other, and to bind the peer's new epoch exactly where the receive group moved since the last
/// time; and a round that commits has then bound the epoch that it found.
pub proof fn law_round_folds_what_was_approved(
    s: &mut TwoMlsPqSession,
    proposing: Option<ClientId>,
    out: PrepareOutcome,
    p: PrepareEncryptResult,
    t: &TwoMlsPqSession,
    plan: Result<PreparePlan>,
)
    requires
        *t == *old(s),
        call_ensures(TwoMlsPqSession::prepare_plan, (t, &proposing), plan),
        call_ensures(TwoMlsPqSession::prepare_to_encrypt, (s, proposing, out), Ok(p)),
        old(s).recv_group is Some,
        plan is Ok,
    ensures
        ({
            &&& plan->Ok_0 matches PreparePlan::Ratchet { commit, .. }
            &&& commit is Some <==> p.did_commit
            &&& commit matches Some(c) ==> {
                &&& match old(s).queued_proposal {
                    Some(approved) => c.fold matches Some(m) && m@ == approved.message@,
                    None => c.fold is None,
                }
                &&& c.export_cross <==> old(s).last_cross_injected != Some(
                    old(s).recv_group->0.classical.epoch,
                )
                &&& c.bind is Some <==> old(s).owed_bind is Some
                &&& final(s).last_cross_injected == Some(old(s).recv_group->0.classical.epoch)
            }
        }),
        !p.did_commit ==> final(s).last_cross_injected == old(s).last_cross_injected,
{
}

/// What a round is planned to propose is what it proposes: under a plan that names a candidate,
/// the round sends that candidate's id; under any other, the id that this side runs under. The
/// proposal carries an identity for it where the receive group's leaf lags behind.
pub proof fn law_round_proposes_what_was_planned(
    s: &mut TwoMlsPqSession,
    proposing: Option<ClientId>,
    out: PrepareOutcome,
    p: PrepareEncryptResult,
    t: &TwoMlsPqSession,
    plan: Result<PreparePlan>,
)
    requires
        *t == *old(s),
        call_ensures(TwoMlsPqSession::prepare_plan, (t, &proposing), plan),
        call_ensures(TwoMlsPqSession::prepare_to_encrypt, (s, proposing, out), Ok(p)),
        old(s).recv_group is Some,
    ensures
        ({
            &&& plan matches Ok(PreparePlan::Ratchet { commit, mint, identity })
            &&& final(s).pending_proposal_message matches Some(staged)
            &&& identity matches Ok(i)
            &&& match i {
                ProposedIdentity::Candidate { id } => id@ == staged.proposing@,
                ProposedIdentity::Current => {
                    &&& staged.proposing@ == old(s).client_id.bytes@
                    &&& old(s).recv_group->0.classical.my_leaf@ != old(s).client_id.bytes@
                },
                ProposedIdentity::Unchanged => {
                    &&& staged.proposing@ == old(s).client_id.bytes@
                    &&& old(s).recv_group->0.classical.my_leaf@ == old(s).client_id.bytes@
                },
            }
            &&& mint matches Some(id) ==> id@ == staged.proposing@ && out.update.minted is Ok
            &&& commit matches Some(c) ==> {
                &&& c.handoff <==> old(s).send_group->0.classical.my_leaf@ != old(
                    s,
                ).client_id.bytes@
                &&& c.bind matches Some(b) ==> {
                    &&& b matches Ok(a)
                    &&& old(s).owed_bind matches Some(owed)
                    &&& a.t_epoch == owed.t_epoch
                    &&& a.pq_epoch == owed.pq_epoch
                    &&& old(s).send_group->0.classical.epoch + 1 == owed.t_epoch
                    &&& old(s).send_group->0.pq is Some
                    &&& old(s).send_group->0.pq->0.epoch == owed.pq_epoch
                }
                &&& out.round.commit.built matches Ok(b) && b.two_party
            }
        }),
{
}

/// When a round commits: where a proposal of the peer was approved, or where a bind is owed and the
/// peer has applied everything of ours. So no two commits of ours are ever outstanding but by the
/// peer's own wish.
pub proof fn law_round_commits_when_it_may(
    s: &mut TwoMlsPqSession,
    proposing: Option<ClientId>,
    out: PrepareOutcome,
    p: PrepareEncryptResult,
    t: &TwoMlsPqSession,
    applied: Result<bool>,
)
    requires
        *t == *old(s),
        call_ensures(TwoMlsPqSession::peer_applied_our_send_epoch, (t,), applied),
        call_ensures(TwoMlsPqSession::prepare_to_encrypt, (s, proposing, out), Ok(p)),
        old(s).recv_group is Some,
    ensures
        p.did_commit <==> old(s).queued_proposal is Some || (old(s).owed_bind is Some && applied
            == Ok::<bool, TwoMlsPqError>(true)),
        applied == Ok::<bool, TwoMlsPqError>(true) <==> old(s).send_group is Some && old(
            s,
        ).peer_applied_send_epoch is Some && old(s).peer_applied_send_epoch->0 >= old(
            s,
        ).send_group->0.classical.epoch,
{
}

/// A round is counted whether or not it succeeds, and what is approved is used up by it; without a
/// receive group it proposes nothing and only announces the welcome.
pub proof fn law_round_is_counted(
    s: &mut TwoMlsPqSession,
    proposing: Option<ClientId>,
    out: PrepareOutcome,
    r: Result<PrepareEncryptResult>,
)
    requires
        call_ensures(TwoMlsPqSession::prepare_to_encrypt, (s, proposing, out), r),
        old(s).state_seq < u64::MAX,
    ensures
        final(s).state_seq == old(s).state_seq + 1,
        final(s).push is Some <==> old(s).sink_installed,
        final(s).push matches Some(p) ==> p.seq == final(s).state_seq && p.kind == BlobKind::Core,
        old(s).recv_group is Some ==> final(s).queued_proposal is None,
        final(s).recv_group == old(s).recv_group,
        final(s).pq_inflight == old(s).pq_inflight,
        final(s).pending_side_band == old(s).pending_side_band,
{
}

/// An offer is approved exactly if it is an update that the peer made of its own leaf, to the id
/// that it announced, under the digest that it was offered with.
pub proof fn law_only_a_peers_own_update_is_approved(
    s: &mut TwoMlsPqSession,
    digest: &[u8],
    processed: &ProcessedProposal,
    r: Result<()>,
)
    requires
        call_ensures(TwoMlsPqSession::queue_proposal, (s, digest, processed), r),
        old(s).send_group is Some,
        old(s).offered_proposal is Some,
        mls_epoch_of(old(s).offered_proposal->0.message@) is Some,
    ensures
        r is Ok <==> {
            let offer = old(s).offered_proposal->0;
            &&& offer.digest@ == digest@
            &&& *processed matches ProcessedProposal::Proposal { member, is_update, leaf, .. }
            &&& is_update
            &&& member is Some
            &&& member->0 != old(s).send_group->0.classical.my_index
            &&& leaf is Some
            &&& leaf->0@ == offer.proposing@
        },
        r is Err && old(s).offered_proposal->0.digest@ == digest@ ==> r == Err::<
            (),
            TwoMlsPqError,
        >(
            match *processed {
                ProcessedProposal::Refused { refusal } => if refusal == MlsRefusal::Other {
                    TwoMlsPqError::Mls
                } else {
                    TwoMlsPqError::CredentialRejected
                },
                ProcessedProposal::NotAProposal => TwoMlsPqError::Mls,
                _ => TwoMlsPqError::ProposalRejected,
            },
        ),
{
}

// ---- a message ----

/// A message names the ids that both sides run under, the epochs of the group that it was made
/// in, and the operation that must be durable before it is sent.
pub proof fn law_message_names_both_ends(
    s: &mut TwoMlsPqSession,
    app: Option<Vec<u8>>,
    sent: Encrypted,
)
    requires
        call_ensures(TwoMlsPqSession::encrypt, (s, app), Ok(sent)),
    ensures
        sent.sender.bytes@ == current_id(old(s).my_state),
        sent.recipient.bytes@ == current_id(old(s).their_state),
        sent.depends_on_seq == old(s).current_staple_seq,
        old(s).send_group matches Some(g) && {
            &&& sent.epochs.classical_epoch == g.classical.epoch
            &&& sent.epochs.pq_epoch == (match g.pq {
                Some(pq) => pq.epoch,
                None => 0,
            })
        },
        final(s).current_staple == old(s).current_staple,
        final(s).current_staple_seq == old(s).current_staple_seq,
        final(s).send_group == old(s).send_group,
        final(s).recv_group == old(s).recv_group,
        final(s).auth_updates == old(s).auth_updates,
{
}

/// A prepared round is encrypted once: whether or not a message came of it, the next one needs a
/// round of its own.
pub proof fn law_round_is_encrypted_once(
    s: &mut TwoMlsPqSession,
    app: Option<Vec<u8>>,
    sent: Result<Encrypted>,
    t: &mut TwoMlsPqSession,
    more: Option<Vec<u8>>,
    again: Result<Encrypted>,
)
    requires
        call_ensures(TwoMlsPqSession::encrypt, (s, app), sent),
        *old(t) == *final(s),
        call_ensures(TwoMlsPqSession::encrypt, (t, more), again),
    ensures
        again == Err::<Encrypted, TwoMlsPqError>(TwoMlsPqError::SessionNotReady),
{
}

// ---- what a message depends on ----

/// Whether the session went from one state to the next by an operation that made no commit of
/// its own: it encrypted, it processed what came in, it approved or refused an offer, it prepared
/// a round without a commit, or it left the rounds alone, as the operations of the side-band and a
/// rotation do.
pub open spec fn uncommitted(s: TwoMlsPqSession, now: TwoMlsPqSession) -> bool {
    ||| exists|app: Option<Vec<u8>>, r: Result<Encrypted>| #[trigger]
        s.encrypted_as(app, r) && now == s.after_encrypt()
    ||| exists|blob: Seq<u8>, out: IncomingOutcome, r: Result<Option<DecryptResult>>| #[trigger]
        s.blob_processed(blob, out, now, r)
    ||| exists|digest: Seq<u8>, processed: ProcessedProposal, r: Result<()>| #[trigger]
        s.offer_settled(digest, processed, now, r)
    ||| exists|selected: Option<Seq<u8>>, out: PrepareOutcome, p: PrepareEncryptResult|
        (#[trigger] round_settled(s, selected, out, now, Ok(p))) && !p.did_commit
    ||| leaves_rounds(s, now)
}

/// An operation without a commit of its own leaves the staple and its date alone.
proof fn lemma_uncommitted_keeps_the_date(s: TwoMlsPqSession, now: TwoMlsPqSession)
    requires
        uncommitted(s, now),
    ensures
        now.current_staple_seq == s.current_staple_seq,
        now.current_staple@ == s.current_staple@,
{
    if exists|blob: Seq<u8>, out: IncomingOutcome, r: Result<Option<DecryptResult>>| #[trigger]
        s.blob_processed(blob, out, now, r) {
        let (blob, out, r) = choose|
            blob: Seq<u8>,
            out: IncomingOutcome,
            r: Result<Option<DecryptResult>>,
        | #[trigger] s.blob_processed(blob, out, now, r);
        lemma_reception_keeps_the_staple(s, blob, out, now, r);
    }
}

/// A message depends on the operation that made its staple: after a round that committed, every
/// message depends on that round's sequence number until the next commit, however many
/// operations lie between.
pub proof fn law_message_depends_on_its_commit(
    s: &mut TwoMlsPqSession,
    proposing: Option<ClientId>,
    out: PrepareOutcome,
    p: PrepareEncryptResult,
    run: Seq<TwoMlsPqSession>,
    t: &mut TwoMlsPqSession,
    app: Option<Vec<u8>>,
    sent: Encrypted,
)
    requires
        call_ensures(TwoMlsPqSession::prepare_to_encrypt, (s, proposing, out), Ok(p)),
        p.did_commit,
        run.len() > 0,
        run[0] == *final(s),
        forall|i: int| 0 <= i < run.len() - 1 ==> uncommitted(#[trigger] run[i], run[i + 1]),
        *old(t) == run.last(),
        call_ensures(TwoMlsPqSession::encrypt, (t, app), Ok(sent)),
    ensures
        sent.depends_on_seq == final(s).state_seq,
        old(s).state_seq < u64::MAX ==> sent.depends_on_seq == old(s).state_seq + 1,
{
    assert(final(s).current_staple_seq == final(s).state_seq);
    lemma_date_is_kept(run, (run.len() - 1) as nat);
}

/// Along a run without a commit the staple's date is that of its beginning.
proof fn lemma_date_is_kept(run: Seq<TwoMlsPqSession>, n: nat)
    requires
        n < run.len(),
        forall|i: int| 0 <= i < run.len() - 1 ==> uncommitted(#[trigger] run[i], run[i + 1]),
    ensures
        run[n as int].current_staple_seq == run[0].current_staple_seq,
        run[n as int].current_staple@ == run[0].current_staple@,
    decreases n,
{
    if n > 0 {
        lemma_date_is_kept(run, (n - 1) as nat);
        assert(uncommitted(run[n - 1], run[n - 1 + 1]));
        lemma_uncommitted_keeps_the_date(run[n - 1], run[n as int]);
    }
}

} // verus!
