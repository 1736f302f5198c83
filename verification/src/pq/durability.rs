//! What outlasts an operation, said of the calls: what an archive gives back, what is to be pushed
//! and when, and what is handed out once or again.

use vstd::prelude::*;
use crate::bytes::{all_bytes, opt_bytes};
use crate::types::Archive;
use super::archive::{
    archive_bytes, archive_fits, check_archive, decode_wire, is_restored_from, law_archives_read_back,
    ledger_view, refs_view, ArchiveMaterial, LoadedMaterial, SessionArchive,
};
use super::codec::lemma_bytes_view;
use super::conduct::{current_id, next_id};
use super::error::{Result, TwoMlsPqError};
use super::frames::SideBandSealing;
use super::laws::{all_loaded, law_restore_gives_back};
use super::persist::persisted_outcome;
use super::sealing::sealed_as;
use super::side_band::outbound_key;
use super::state::{
    apq_suite, keys, BlobKind, EpochKey, PeerProposal, PqInflight, PskEntry, PskRef, Push,
    TwoMlsPqSession,
};

verus! {

// ---- archives ----

/// Whether two windows hold the same, entry by entry.
pub open spec fn same_window(a: Seq<EpochKey>, b: Seq<EpochKey>) -> bool {
    &&& a.len() == b.len()
    &&& forall|i: int|
        0 <= i < a.len() ==> (#[trigger] a[i]).epoch == b[i].epoch && a[i].key@ == b[i].key@
}

/// Whether two ledgers hold the same, entry by entry.
pub open spec fn same_ledger(a: Seq<PskEntry>, b: Seq<PskEntry>) -> bool {
    &&& a.len() == b.len()
    &&& forall|i: int|
        0 <= i < a.len() ==> {
            &&& (#[trigger] a[i]).epoch == b[i].epoch
            &&& a[i].exported.component_id == b[i].exported.component_id
            &&& a[i].exported.psk_id@ == b[i].exported.psk_id@
            &&& a[i].exported.psk@ == b[i].exported.psk@
        }
}

/// Whether two lists of retired PSKs name the same.
pub open spec fn same_refs(a: Seq<PskRef>, b: Seq<PskRef>) -> bool {
    &&& a.len() == b.len()
    &&& forall|i: int|
        0 <= i < a.len() ==> (#[trigger] a[i]).component_id == b[i].component_id && a[i].psk_id@
            == b[i].psk_id@
}

/// Whether two proposals of the peer are the same.
pub open spec fn same_proposal(a: Option<PeerProposal>, b: Option<PeerProposal>) -> bool {
    match (a, b) {
        (Some(p), Some(q)) => p.digest@ == q.digest@ && p.proposing@ == q.proposing@ && p.message@
            == q.message@,
        (None, None) => true,
        _ => false,
    }
}

/// Whether two sessions are in the same round of the side-band, with the same secrets.
pub open spec fn same_round(a: Option<PqInflight>, b: Option<PqInflight>) -> bool {
    match (a, b) {
        (None, None) => true,
        (
            Some(PqInflight::Initiating { dk, ek }),
            Some(PqInflight::Initiating { dk: dk2, ek: ek2 }),
        ) => dk@ == dk2@ && ek@ == ek2@,
        (
            Some(PqInflight::Responding { secret }),
            Some(PqInflight::Responding { secret: secret2 }),
        ) => secret@ == secret2@,
        (Some(p), Some(q)) => p == q,
        _ => false,
    }
}

proof fn lemma_same_window(a: Seq<EpochKey>, b: Seq<EpochKey>)
    requires
        keys(a) == keys(b),
    ensures
        same_window(a, b),
{
    assert(keys(a).len() == a.len() && keys(b).len() == b.len());
    assert forall|i: int| 0 <= i < a.len() implies (#[trigger] a[i]).epoch == b[i].epoch && a[
        i
    ].key@ == b[i].key@ by {
        assert(keys(a)[i] == (a[i].epoch, a[i].key@));
        assert(keys(b)[i] == (b[i].epoch, b[i].key@));
    }
}

proof fn lemma_same_ledger(a: Seq<PskEntry>, b: Seq<PskEntry>)
    requires
        ledger_view(a) == ledger_view(b),
    ensures
        same_ledger(a, b),
{
    assert(ledger_view(a).len() == a.len() && ledger_view(b).len() == b.len());
    assert forall|i: int| 0 <= i < a.len() implies {
        &&& (#[trigger] a[i]).epoch == b[i].epoch
        &&& a[i].exported.component_id == b[i].exported.component_id
        &&& a[i].exported.psk_id@ == b[i].exported.psk_id@
        &&& a[i].exported.psk@ == b[i].exported.psk@
    } by {
        assert(ledger_view(a)[i] == ledger_view(b)[i]);
    }
}

proof fn lemma_same_refs(a: Seq<PskRef>, b: Seq<PskRef>)
    requires
        refs_view(a) == refs_view(b),
    ensures
        same_refs(a, b),
{
    assert(refs_view(a).len() == a.len() && refs_view(b).len() == b.len());
    assert forall|i: int| 0 <= i < a.len() implies (#[trigger] a[i]).component_id
        == b[i].component_id && a[i].psk_id@ == b[i].psk_id@ by {
        assert(refs_view(a)[i] == refs_view(b)[i]);
    }
}

/// An archive gives the session back as it was archived, field by field; what belongs to one
/// process alone starts anew. The staple counts as durable with the archive.
pub proof fn law_archive_restores_every_field(
    s: &mut TwoMlsPqSession,
    material: ArchiveMaterial,
    archive: Archive,
    loaded: LoadedMaterial,
    blob: &Archive,
    r: Result<TwoMlsPqSession>,
)
    requires
        old(s).wf(),
        old(s).live(),
        call_ensures(TwoMlsPqSession::archive, (s, material), Ok(archive)),
        *blob == archive,
        call_ensures(TwoMlsPqSession::from_archive, (blob, loaded), r),
        all_loaded(*final(s), loaded),
        loaded.send_group matches Ok(g) && final(s).send_group == Some(g),
        final(s).recv_group is Some ==> final(s).recv_group == Some(loaded.recv_group->Ok_0),
    ensures
        ({
            &&& r matches Ok(t)
            &&& t.send_group == final(s).send_group
            &&& t.recv_group == final(s).recv_group
            &&& t.session_id.bytes@ == final(s).session_id.bytes@
            &&& t.client_id.bytes@ == final(s).client_id.bytes@
            &&& t.state_seq == final(s).state_seq
            &&& t.current_staple@ == final(s).current_staple@
            &&& t.current_staple_seq == final(s).state_seq
            &&& current_id(t.my_state) == current_id(final(s).my_state)
            &&& next_id(t.my_state) == next_id(final(s).my_state)
            &&& current_id(t.their_state) == current_id(final(s).their_state)
            &&& next_id(t.their_state) == next_id(final(s).their_state)
            &&& t.pq_turn_mine == final(s).pq_turn_mine
            &&& same_round(t.pq_inflight, final(s).pq_inflight)
            &&& same_proposal(t.offered_proposal, final(s).offered_proposal)
            &&& same_proposal(t.queued_proposal, final(s).queued_proposal)
            &&& same_ledger(t.send_psk_ledger@, final(s).send_psk_ledger@)
            &&& same_refs(t.retired_send_psks@, final(s).retired_send_psks@)
            &&& same_window(t.listen_rendezvous@, final(s).listen_rendezvous@)
            &&& same_window(t.recv_header_keys@, final(s).recv_header_keys@)
            &&& same_window(t.recv_header_keys_pq@, final(s).recv_header_keys_pq@)
            &&& t.last_cross_injected == final(s).last_cross_injected
            &&& t.last_cross_injected_pq == final(s).last_cross_injected_pq
            &&& t.last_send_pq_exported == final(s).last_send_pq_exported
            &&& t.peer_applied_send_epoch == final(s).peer_applied_send_epoch
            &&& all_bytes(t.staged_candidates@) == all_bytes(final(s).staged_candidates@)
            &&& opt_bytes(t.deferred_candidate) == opt_bytes(final(s).deferred_candidate)
            &&& opt_bytes(t.pending_outbound) == opt_bytes(final(s).pending_outbound)
            &&& opt_bytes(t.pending_proposal_hash) == opt_bytes(final(s).pending_proposal_hash)
            &&& opt_bytes(t.joined_welcome_digest) == opt_bytes(final(s).joined_welcome_digest)
            &&& opt_bytes(t.spawn_token) == opt_bytes(final(s).spawn_token)
            &&& opt_bytes(t.bootstrap_kp) == opt_bytes(final(s).bootstrap_kp)
            &&& opt_bytes(t.bootstrap_kp_secret) == opt_bytes(final(s).bootstrap_kp_secret)
            &&& opt_bytes(t.expected_bootstrap_kp_commitment) == opt_bytes(
                final(s).expected_bootstrap_kp_commitment,
            )
            &&& opt_bytes(t.initial_app_payload) == opt_bytes(final(s).initial_app_payload)
            &&& opt_bytes(t.initial_return_kp) == opt_bytes(final(s).initial_return_kp)
            &&& !t.bind_apply_broken
            &&& !t.sink_installed
            &&& t.push is None
            &&& t.auth_updates@.len() == 0
        }),
        ({
            &&& r matches Ok(t)
            &&& match (t.owed_bind, final(s).owed_bind) {
                (Some(p), Some(q)) => p.pq_commit@ == q.pq_commit@ && p.t_epoch == q.t_epoch
                    && p.pq_epoch == q.pq_epoch,
                (None, None) => true,
                _ => false,
            }
            &&& match (t.pending_side_band, final(s).pending_side_band) {
                (Some(p), Some(q)) => p.frame@ == q.frame@ && p.seal is None,
                (None, None) => true,
                _ => false,
            }
            &&& match (t.pending_proposal_message, final(s).pending_proposal_message) {
                (Some(p), Some(q)) => p.proposing@ == q.proposing@ && p.message@ == q.message@,
                (None, None) => true,
                _ => false,
            }
            &&& match (t.initial_their_kp, final(s).initial_their_kp) {
                (Some(p), Some(q)) => p.classical@ == q.classical@ && p.pq@ == q.pq@,
                (None, None) => true,
                _ => false,
            }
        }),
{
    law_restore_gives_back(*final(s), material, archive.bytes, loaded, r);
    let t = r->Ok_0;
    lemma_same_window(t.listen_rendezvous@, final(s).listen_rendezvous@);
    lemma_same_window(t.recv_header_keys@, final(s).recv_header_keys@);
    lemma_same_window(t.recv_header_keys_pq@, final(s).recv_header_keys_pq@);
    lemma_same_ledger(t.send_psk_ledger@, final(s).send_psk_ledger@);
    lemma_same_refs(t.retired_send_psks@, final(s).retired_send_psks@);
}

/// What the host gave to be archived is what it reads back to restore with: its keys, its
/// credential sequences and the snapshots of the groups, with both halves of each.
pub proof fn law_host_reads_back_what_it_gave(
    s: &mut TwoMlsPqSession,
    material: ArchiveMaterial,
    archive: Archive,
    blob: &Archive,
    r: Result<SessionArchive>,
)
    requires
        old(s).live(),
        call_ensures(TwoMlsPqSession::archive, (s, material), Ok(archive)),
        *blob == archive,
        call_ensures(decode_wire, (blob,), r),
    ensures
        ({
            &&& r matches Ok(w)
            &&& w.client.1.deep_view() == material.client.deep_view()
            &&& w.auth_mine.deep_view() == material.auth_mine.deep_view()
            &&& w.auth_theirs.deep_view() == material.auth_theirs.deep_view()
            &&& material.send_group matches Ok(g)
            &&& w.send_group.deep_view() == g.deep_view()
            &&& w.recv_group is Some <==> final(s).recv_group is Some
            &&& w.recv_group matches Some(h) ==> material.recv_group is Ok && h.deep_view()
                == (material.recv_group->Ok_0).deep_view()
            &&& w.state_seq == final(s).state_seq
            &&& w.send_pq_epoch == (match final(s).send_group->0.pq {
                Some(pq) => Some(pq.epoch),
                None => None,
            })
        }),
{
    let written = choose|w: SessionArchive| #[trigger]
        final(s).archived_as(material, true, w) && archive_fits(w.parts().deep_view())
            && archive.bytes@ == archive_bytes(final(s).suite, w.parts().deep_view());
    let v = written.parts().deep_view();
    if let Ok(w) = r {
        law_archives_read_back(final(s).suite, v, apq_suite(), w.parts().deep_view());
    }
    assert(archive_bytes(apq_suite(), v) == archive.bytes@);
}

/// A core blob leaves the PQ halves out of both groups, and has the classical ones.
pub proof fn law_core_leaves_the_trees_out(
    s: &mut TwoMlsPqSession,
    material: ArchiveMaterial,
    bytes: Vec<u8>,
    blob: &Archive,
    r: Result<SessionArchive>,
)
    requires
        old(s).live(),
        call_ensures(TwoMlsPqSession::encode_core, (s, material), Ok(bytes)),
        blob.bytes == bytes,
        call_ensures(decode_wire, (blob,), r),
    ensures
        ({
            &&& r matches Ok(w)
            &&& w.send_group.1 is None
            &&& material.send_group matches Ok(g)
            &&& w.send_group.0.deep_view() == g.0.deep_view()
            &&& w.recv_group matches Some(h) ==> h.1 is None
            &&& w.recv_group is Some <==> final(s).recv_group is Some
            &&& w.state_seq == final(s).state_seq
            &&& w.current_staple.deep_view() == final(s).current_staple.deep_view()
        }),
{
    let written = choose|w: SessionArchive| #[trigger]
        final(s).archived_as(material, false, w) && archive_fits(w.parts().deep_view())
            && bytes@ == archive_bytes(final(s).suite, w.parts().deep_view());
    let v = written.parts().deep_view();
    lemma_bytes_view(written.current_staple);
    lemma_bytes_view(final(s).current_staple);
    if let Ok(w) = r {
        law_archives_read_back(final(s).suite, v, apq_suite(), w.parts().deep_view());
        lemma_bytes_view(w.current_staple);
    }
    assert(archive_bytes(apq_suite(), v) == bytes@);
}

/// An archive is taken only if what it holds can be: no more of the ledger than is kept, digests,
/// addresses and header keys of their lengths, and a staple of one of its forms.
pub proof fn law_implausible_archive_is_refused(w: &SessionArchive, r: Result<()>)
    requires
        call_ensures(check_archive, (w,), r),
    ensures
        r is Ok <==> {
            &&& w.send_psk_ledger@.len() <= 8
            &&& w.pending_proposal_hash matches Some(d) ==> d@.len() == 32
            &&& w.joined_welcome_digest matches Some(d) ==> d@.len() == 32
            &&& w.offered_proposal matches Some(o) ==> o.0@.len() == 32
            &&& w.queued_proposal matches Some(q) ==> q.0@.len() == 32
            &&& forall|i: int|
                0 <= i < w.listen_rendezvous@.len() ==> (
                #[trigger] w.listen_rendezvous@[i]).1@.len() == 32
            &&& forall|i: int|
                0 <= i < w.recv_header_keys@.len() ==> (
                #[trigger] w.recv_header_keys@[i]).1@.len() == 32
            &&& forall|i: int|
                0 <= i < w.recv_header_keys_pq@.len() ==> (
                #[trigger] w.recv_header_keys_pq@[i]).1@.len() == 32
            &&& w.current_staple@.len() > 0
            &&& w.current_staple@[0] == 0x00 || w.current_staple@[0] == 0x01
                || w.current_staple@[0] == 0x1B
        },
        r is Err ==> r->Err_0 == TwoMlsPqError::ArchiveInvalid,
{
}

/// Without a checkpoint nothing is restored; with a checkpoint alone, it is what is restored.
pub proof fn law_checkpoint_is_needed(
    core: &Option<Archive>,
    checkpoint: &Option<Archive>,
    loaded: LoadedMaterial,
    r: Result<TwoMlsPqSession>,
)
    requires
        call_ensures(TwoMlsPqSession::from_persisted, (core, checkpoint, loaded), r),
    ensures
        *checkpoint is None ==> r == Err::<TwoMlsPqSession, TwoMlsPqError>(
            TwoMlsPqError::ArchiveInvalid,
        ),
        *checkpoint is Some && *core is None ==> is_restored_from(
            (*checkpoint)->0@,
            loaded,
            r,
        ),
{
}

// ---- pushes ----

/// A hook is attached once, and is given the whole session first; an operation's blob is to be
/// pushed once, under the operation's own number.
pub proof fn law_hook_is_attached_once(
    s: &mut TwoMlsPqSession,
    first: Result<()>,
    t: &mut TwoMlsPqSession,
    push: Option<Push>,
    u: &mut TwoMlsPqSession,
    second: Result<()>,
    v: &mut TwoMlsPqSession,
    again: Option<Push>,
)
    requires
        !old(s).sink_installed,
        call_ensures(TwoMlsPqSession::install_sink, (s,), first),
        *old(t) == *final(s),
        call_ensures(TwoMlsPqSession::take_push, (t,), push),
        *old(u) == *final(t),
        call_ensures(TwoMlsPqSession::install_sink, (u,), second),
        *old(v) == *final(u),
        call_ensures(TwoMlsPqSession::take_push, (v,), again),
    ensures
        first is Ok,
        push matches Some(p) && p.kind == BlobKind::Checkpoint && p.seq == old(s).state_seq,
        final(t).push is None,
        second == Err::<(), TwoMlsPqError>(TwoMlsPqError::SinkAlreadyInstalled),
        again is None,
        final(v).state_seq == old(s).state_seq,
{
}

/// A persisted operation reports its own failure; a success counts only if its blob was encoded.
pub proof fn law_success_counts_when_it_is_encoded(
    result: Result<u64>,
    encoded: Result<()>,
    r: Result<u64>,
)
    requires
        call_ensures(persisted_outcome::<u64>, (result, encoded), r),
    ensures
        r is Ok <==> result is Ok && encoded is Ok,
        result is Err ==> r == result,
        r is Ok ==> r == result,
        result is Ok && encoded is Err ==> r == Err::<u64, TwoMlsPqError>(encoded->Err_0),
{
}

// ---- hand-outs ----

/// Taking the side-band frame hands it out sealed for the peer and drops it, so that the next call
/// has nothing; it is counted as an operation.
pub proof fn law_taken_frame_is_gone(
    s: &mut TwoMlsPqSession,
    first: Option<Vec<u8>>,
    t: &mut TwoMlsPqSession,
    second: Option<Vec<u8>>,
)
    requires
        call_ensures(TwoMlsPqSession::pq_take_pending_outbound, (s,), first),
        *old(t) == *final(s),
        call_ensures(TwoMlsPqSession::pq_take_pending_outbound, (t,), second),
    ensures
        first matches Some(b) ==> {
            &&& old(s).pending_side_band matches Some(kept)
            &&& outbound_key(*old(s)) matches Some(key)
            &&& sealed_as(b@, key, kept.frame@)
        },
        old(s).pending_side_band is None ==> first is None && *final(s) == *old(s),
        old(s).pending_side_band is Some && old(s).state_seq < u64::MAX ==> final(s).state_seq
            == old(s).state_seq + 1,
        old(s).pending_side_band is Some ==> {
            &&& final(s).push is Some <==> old(s).sink_installed
            &&& final(s).push matches Some(p) ==> p.kind == BlobKind::Core && p.seq
                == final(s).state_seq
        },
        second is None,
        final(s).pending_side_band is None,
        final(s).pq_inflight == old(s).pq_inflight,
        final(s).pq_turn_mine == old(s).pq_turn_mine,
{
}

/// Handing the side-band frame out keeps it for another time: each hand-out is the frame sealed for
/// the peer, and the stable form is the same bytes each time.
pub proof fn law_side_band_frame_is_handed_out_again(
    s: &mut TwoMlsPqSession,
    sealing: SideBandSealing,
    first: Vec<u8>,
    t: &mut TwoMlsPqSession,
    second: Vec<u8>,
)
    requires
        call_ensures(TwoMlsPqSession::pq_pending_outbound, (s, sealing), Some(first)),
        *old(t) == *final(s),
        call_ensures(TwoMlsPqSession::pq_pending_outbound, (t, sealing), Some(second)),
    ensures
        old(s).pending_side_band is Some,
        final(s).pending_side_band is Some,
        final(s).pending_side_band->0.frame == old(s).pending_side_band->0.frame,
        final(t).pending_side_band->0.frame == old(s).pending_side_band->0.frame,
        sealing == SideBandSealing::Stable ==> second@ == first@,
        sealing == SideBandSealing::Fresh || old(s).pending_side_band->0.seal is None ==> {
            &&& outbound_key(*old(s)) matches Some(key)
            &&& sealed_as(first@, key, old(s).pending_side_band->0.frame@)
        },
        final(s).state_seq == old(s).state_seq,
        final(s).pq_inflight == old(s).pq_inflight,
{
}

} // verus!
