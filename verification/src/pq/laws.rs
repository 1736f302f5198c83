//! What holds across operations: of a session that is archived and restored, of a frame that
//! one side writes and the other reads, and of the rounds and rotations between them.

use vstd::prelude::*;
use crate::bytes::{all_bytes, first_byte, opt_bytes};
use super::archive::{
    archive_bytes, archive_fits, carries, identity_ids, inflight_view, is_archive,
    is_restored, is_restored_from, is_unreadable, law_archives_read_back, ledger_view,
    proposal_view, reconciled, refs_view, restore_error, window_lengths, wire_inflight_view,
    wire_keys, wire_ledger_view, wire_refs_view, ArchiveMaterial, LoadedMaterial, SessionArchive,
    WireEpochKey, WireIdentity, WirePskEntry, WirePskRef,
};
use super::codec::lemma_bytes_view;
use super::error::{Result, TwoMlsPqError};
use super::frames::{
    is_proposal_section, is_tagged, law_proposal_section_round_trips, lemma_read3, message_parts,
    parts3, proposal_parts, read2, section, OpenedFrame, OpenedFrameKind, SideBandSealing,
    APQ_PRIVATE_MESSAGE_TAG, APQ_TAG, MESSAGE_FRAME_TAG,
};
use super::incoming::{
    BindOutcome, CommitProcessed, DecryptResult, IncomingOutcome, JoinOutcome, StapleAction,
    StapleMoves, StapleOutcome, StaplePlan,
};
use super::messaging::{frame_of, Encrypted, Outbound, ProcessedProposal};
use super::persist::begun;
use super::pq_ops::PqCommitOutput;
use super::prepare::{
    listening, prepare_stop, prepared, round_settled, PrepareEncryptResult, PrepareOutcome,
};
use super::providers::{
    header_open_of, mls_epoch_of, sha256_of, DIGEST_LEN, HEADER_KEY_LEN, HEADER_NONCE_LEN,
};
use super::sealing::{
    cannot_seal, freshly_sealed, header_candidates, law_sealed_frame_opens, opened_as, opened_or_raw, sealed_as,
};
use super::state::{
    apq_suite, keys, value_lengths, BlobKind, ExportedPsk, TwoMlsPqSession, RENDEZVOUS_LEN,
};
use super::windows::{kept_below, law_recorded_epochs, law_routable_iff_openable, window_has};

verus! {

// ---- archives ----

/// Whether two sessions agree in everything that an archive carries.
pub open spec fn agree(s: TwoMlsPqSession, t: TwoMlsPqSession) -> bool {
    &&& t.state_seq == s.state_seq
    &&& t.session_id@ == s.session_id@
    &&& t.client_id@ == s.client_id@
    &&& t.my_state@ == s.my_state@
    &&& t.their_state@ == s.their_state@
    &&& t.pq_turn_mine == s.pq_turn_mine
    &&& opt_bytes(t.spawn_token) == opt_bytes(s.spawn_token)
    &&& t.recv_group is Some <==> s.recv_group is Some
    &&& ledger_view(t.send_psk_ledger@) == ledger_view(s.send_psk_ledger@)
    &&& refs_view(t.retired_send_psks@) == refs_view(s.retired_send_psks@)
    &&& t.last_cross_injected == s.last_cross_injected
    &&& t.last_cross_injected_pq == s.last_cross_injected_pq
    &&& t.last_send_pq_exported == s.last_send_pq_exported
    &&& t.peer_applied_send_epoch == s.peer_applied_send_epoch
    &&& keys(t.listen_rendezvous@) == keys(s.listen_rendezvous@)
    &&& keys(t.recv_header_keys@) == keys(s.recv_header_keys@)
    &&& keys(t.recv_header_keys_pq@) == keys(s.recv_header_keys_pq@)
    &&& opt_bytes(t.pending_outbound) == opt_bytes(s.pending_outbound)
    &&& opt_bytes(t.pending_proposal_hash) == opt_bytes(s.pending_proposal_hash)
    &&& t.current_staple@ == s.current_staple@
    &&& match (t.pending_proposal_message, s.pending_proposal_message) {
        (Some(p), Some(q)) => p.proposing@ == q.proposing@ && p.message@ == q.message@,
        (None, None) => true,
        _ => false,
    }
    &&& opt_bytes(t.joined_welcome_digest) == opt_bytes(s.joined_welcome_digest)
    &&& proposal_view(t.offered_proposal) == proposal_view(s.offered_proposal)
    &&& proposal_view(t.queued_proposal) == proposal_view(s.queued_proposal)
    &&& all_bytes(t.staged_candidates@) == all_bytes(s.staged_candidates@)
    &&& opt_bytes(t.deferred_candidate) == opt_bytes(s.deferred_candidate)
    &&& match (t.pending_side_band, s.pending_side_band) {
        (Some(p), Some(q)) => p.frame@ == q.frame@,
        (None, None) => true,
        _ => false,
    }
    &&& match (t.pq_inflight, s.pq_inflight) {
        (Some(p), Some(q)) => inflight_view(p) == inflight_view(q),
        (None, None) => true,
        _ => false,
    }
    &&& match (t.owed_bind, s.owed_bind) {
        (Some(p), Some(q)) => p.pq_commit@ == q.pq_commit@ && p.t_epoch == q.t_epoch && p.pq_epoch
            == q.pq_epoch,
        (None, None) => true,
        _ => false,
    }
    &&& match (t.initial_their_kp, s.initial_their_kp) {
        (Some(p), Some(q)) => p.classical@ == q.classical@ && p.pq@ == q.pq@,
        (None, None) => true,
        _ => false,
    }
    &&& opt_bytes(t.initial_app_payload) == opt_bytes(s.initial_app_payload)
    &&& opt_bytes(t.initial_return_kp) == opt_bytes(s.initial_return_kp)
    &&& opt_bytes(t.bootstrap_kp) == opt_bytes(s.bootstrap_kp)
    &&& opt_bytes(t.bootstrap_kp_secret) == opt_bytes(s.bootstrap_kp_secret)
    &&& opt_bytes(t.expected_bootstrap_kp_commitment) == opt_bytes(
        s.expected_bootstrap_kp_commitment,
    )
}

proof fn lemma_opt_view(o: Option<Vec<u8>>)
    ensures
        o.deep_view() == opt_bytes(o),
{
    match o {
        Some(v) => lemma_bytes_view(v),
        None => {},
    }
}

proof fn lemma_ledger_views(a: Vec<WirePskEntry>, b: Vec<WirePskEntry>)
    requires
        a.deep_view() == b.deep_view(),
    ensures
        wire_ledger_view(a@) == wire_ledger_view(b@),
{
    let va = a.deep_view();
    let vb = b.deep_view();
    assert(va.len() == a@.len() && vb.len() == b@.len());
    assert forall|i: int| 0 <= i < a@.len() implies wire_ledger_view(a@)[i] == wire_ledger_view(
        b@,
    )[i] by {
        assert(va[i] == a@[i].deep_view());
        assert(vb[i] == b@[i].deep_view());
        lemma_bytes_view(((a@[i].1).1).0);
        lemma_bytes_view(((a@[i].1).1).1);
        lemma_bytes_view(((b@[i].1).1).0);
        lemma_bytes_view(((b@[i].1).1).1);
    }
    assert(wire_ledger_view(a@) =~= wire_ledger_view(b@));
}

proof fn lemma_refs_views(a: Vec<WirePskRef>, b: Vec<WirePskRef>)
    requires
        a.deep_view() == b.deep_view(),
    ensures
        wire_refs_view(a@) == wire_refs_view(b@),
{
    let va = a.deep_view();
    let vb = b.deep_view();
    assert(va.len() == a@.len() && vb.len() == b@.len());
    assert forall|i: int| 0 <= i < a@.len() implies wire_refs_view(a@)[i] == wire_refs_view(b@)[i] by {
        assert(va[i] == a@[i].deep_view());
        assert(vb[i] == b@[i].deep_view());
        lemma_bytes_view(a@[i].1);
        lemma_bytes_view(b@[i].1);
    }
    assert(wire_refs_view(a@) =~= wire_refs_view(b@));
}

proof fn lemma_window_views(a: Vec<WireEpochKey>, b: Vec<WireEpochKey>)
    requires
        a.deep_view() == b.deep_view(),
    ensures
        wire_keys(a@) == wire_keys(b@),
{
    let va = a.deep_view();
    let vb = b.deep_view();
    assert(va.len() == a@.len() && vb.len() == b@.len());
    assert forall|i: int| 0 <= i < a@.len() implies wire_keys(a@)[i] == wire_keys(b@)[i] by {
        assert(va[i] == a@[i].deep_view());
        assert(vb[i] == b@[i].deep_view());
        lemma_bytes_view(a@[i].1);
        lemma_bytes_view(b@[i].1);
    }
    assert(wire_keys(a@) =~= wire_keys(b@));
}

proof fn lemma_identity_views(a: Vec<WireIdentity>, b: Vec<WireIdentity>)
    requires
        a.deep_view() == b.deep_view(),
    ensures
        identity_ids(a@) == identity_ids(b@),
{
    let va = a.deep_view();
    let vb = b.deep_view();
    assert(va.len() == a@.len() && vb.len() == b@.len());
    assert forall|i: int| 0 <= i < a@.len() implies identity_ids(a@)[i] == identity_ids(b@)[i] by {
        assert(va[i] == a@[i].deep_view());
        assert(vb[i] == b@[i].deep_view());
        lemma_bytes_view(a@[i].0);
        lemma_bytes_view(b@[i].0);
    }
    assert(identity_ids(a@) =~= identity_ids(b@));
}

/// Archives of the same parts carry the same sessions.
proof fn lemma_same_parts_agree(
    s: TwoMlsPqSession,
    a: SessionArchive,
    t: TwoMlsPqSession,
    b: SessionArchive,
)
    requires
        carries(s, a),
        carries(t, b),
        a.parts().deep_view() == b.parts().deep_view(),
    ensures
        agree(s, t),
{
    lemma_bytes_view(a.session_id);
    lemma_bytes_view(b.session_id);
    lemma_bytes_view(a.client.0);
    lemma_bytes_view(b.client.0);
    lemma_bytes_view(a.my_state.0);
    lemma_bytes_view(b.my_state.0);
    lemma_opt_view(a.my_state.1);
    lemma_opt_view(b.my_state.1);
    lemma_bytes_view(a.their_state.0);
    lemma_bytes_view(b.their_state.0);
    lemma_opt_view(a.their_state.1);
    lemma_opt_view(b.their_state.1);
    lemma_opt_view(a.spawn_token);
    lemma_opt_view(b.spawn_token);
    lemma_ledger_views(a.send_psk_ledger, b.send_psk_ledger);
    lemma_refs_views(a.retired_send_psks, b.retired_send_psks);
    lemma_window_views(a.listen_rendezvous, b.listen_rendezvous);
    lemma_window_views(a.recv_header_keys, b.recv_header_keys);
    lemma_window_views(a.recv_header_keys_pq, b.recv_header_keys_pq);
    lemma_opt_view(a.pending_outbound);
    lemma_opt_view(b.pending_outbound);
    lemma_opt_view(a.pending_proposal_hash);
    lemma_opt_view(b.pending_proposal_hash);
    lemma_bytes_view(a.current_staple);
    lemma_bytes_view(b.current_staple);
    lemma_staged_views(a, b);
    lemma_opt_view(a.joined_welcome_digest);
    lemma_opt_view(b.joined_welcome_digest);
    lemma_identity_views(a.staged_candidates, b.staged_candidates);
    lemma_opt_view(a.deferred_candidate);
    lemma_opt_view(b.deferred_candidate);
    lemma_opt_view(a.pending_side_band);
    lemma_opt_view(b.pending_side_band);
    lemma_opt_view(a.initial_app_payload);
    lemma_opt_view(b.initial_app_payload);
    lemma_opt_view(a.initial_return_kp);
    lemma_opt_view(b.initial_return_kp);
    lemma_opt_view(a.bootstrap_kp);
    lemma_opt_view(b.bootstrap_kp);
    lemma_opt_view(a.bootstrap_kp_secret);
    lemma_opt_view(b.bootstrap_kp_secret);
    lemma_opt_view(a.expected_bootstrap_kp_commitment);
    lemma_opt_view(b.expected_bootstrap_kp_commitment);
}

/// The nested optional parts of archives of the same parts are the same.
proof fn lemma_staged_views(a: SessionArchive, b: SessionArchive)
    requires
        a.parts().deep_view() == b.parts().deep_view(),
    ensures
        match (a.pending_proposal_message, b.pending_proposal_message) {
            (Some(p), Some(q)) => p.0@ == q.0@ && p.1@ == q.1@,
            (None, None) => true,
            _ => false,
        },
        match (a.offered_proposal, b.offered_proposal) {
            (Some(p), Some(q)) => p.0@ == q.0@ && (p.1).0@ == (q.1).0@ && (p.1).1@ == (q.1).1@,
            (None, None) => true,
            _ => false,
        },
        match (a.queued_proposal, b.queued_proposal) {
            (Some(p), Some(q)) => p.0@ == q.0@ && (p.1).0@ == (q.1).0@ && (p.1).1@ == (q.1).1@,
            (None, None) => true,
            _ => false,
        },
        match (a.pq_inflight, b.pq_inflight) {
            (Some(p), Some(q)) => wire_inflight_view(p) == wire_inflight_view(q),
            (None, None) => true,
            _ => false,
        },
        match (a.owed_bind, b.owed_bind) {
            (Some(p), Some(q)) => p.0@ == q.0@ && p.1 == q.1,
            (None, None) => true,
            _ => false,
        },
        match (a.initial_their_kp, b.initial_their_kp) {
            (Some(p), Some(q)) => p.0@ == q.0@ && p.1@ == q.1@,
            (None, None) => true,
            _ => false,
        },
{
    assert(a.pending_proposal_message.deep_view() == b.pending_proposal_message.deep_view());
    assert(a.offered_proposal.deep_view() == b.offered_proposal.deep_view());
    assert(a.queued_proposal.deep_view() == b.queued_proposal.deep_view());
    assert(a.pq_inflight.deep_view() == b.pq_inflight.deep_view());
    assert(a.owed_bind.deep_view() == b.owed_bind.deep_view());
    assert(a.initial_their_kp.deep_view() == b.initial_their_kp.deep_view());
    match (a.pending_proposal_message, b.pending_proposal_message) {
        (Some(p), Some(q)) => {
            lemma_bytes_view(p.0);
            lemma_bytes_view(q.0);
            lemma_bytes_view(p.1);
            lemma_bytes_view(q.1);
        },
        _ => {},
    }
    match (a.offered_proposal, b.offered_proposal) {
        (Some(p), Some(q)) => {
            lemma_bytes_view(p.0);
            lemma_bytes_view(q.0);
            lemma_bytes_view((p.1).0);
            lemma_bytes_view((q.1).0);
            lemma_bytes_view((p.1).1);
            lemma_bytes_view((q.1).1);
        },
        _ => {},
    }
    match (a.queued_proposal, b.queued_proposal) {
        (Some(p), Some(q)) => {
            lemma_bytes_view(p.0);
            lemma_bytes_view(q.0);
            lemma_bytes_view((p.1).0);
            lemma_bytes_view((q.1).0);
            lemma_bytes_view((p.1).1);
            lemma_bytes_view((q.1).1);
        },
        _ => {},
    }
    match (a.pq_inflight, b.pq_inflight) {
        (Some(p), Some(q)) => {
            lemma_opt_view((p.1).1);
            lemma_opt_view((q.1).1);
            match ((p.1).0, (q.1).0) {
                (Some(x), Some(y)) => {
                    lemma_bytes_view(x.0);
                    lemma_bytes_view(y.0);
                    lemma_bytes_view(x.1);
                    lemma_bytes_view(y.1);
                },
                _ => {},
            }
        },
        _ => {},
    }
    match (a.owed_bind, b.owed_bind) {
        (Some(p), Some(q)) => {
            lemma_bytes_view(p.0);
            lemma_bytes_view(q.0);
        },
        _ => {},
    }
    match (a.initial_their_kp, b.initial_their_kp) {
        (Some(p), Some(q)) => {
            lemma_bytes_view(p.0);
            lemma_bytes_view(q.0);
            lemma_bytes_view(p.1);
            lemma_bytes_view(q.1);
        },
        _ => {},
    }
}

/// Whether everything of a session was loaded.
pub open spec fn all_loaded(s: TwoMlsPqSession, m: LoadedMaterial) -> bool {
    &&& m.client is Ok
    &&& m.candidates is Ok
    &&& m.send_group is Ok
    &&& s.recv_group is Some ==> m.recv_group is Ok
    &&& m.psks is Ok
}

proof fn lemma_window_plausible(w: Vec<WireEpochKey>, len: nat)
    requires
        value_lengths(wire_keys(w@), len),
    ensures
        window_lengths(w@, len),
{
    assert forall|i: int| 0 <= i < w@.len() implies (#[trigger] w@[i]).1@.len() == len by {
        assert(wire_keys(w@)[i].1.len() == len);
    }
}

/// An archive that reads as the one of a live session does is restored.
proof fn lemma_live_archive_is_restored(
    s: TwoMlsPqSession,
    m: ArchiveMaterial,
    written: SessionArchive,
    read: SessionArchive,
    loaded: LoadedMaterial,
)
    requires
        s.wf(),
        s.live(),
        s.archived_as(m, true, written),
        written.parts().deep_view() == read.parts().deep_view(),
        all_loaded(s, loaded),
    ensures
        restore_error(read, loaded) is None,
{
    let (a, b) = (written, read);
    lemma_ledger_views(a.send_psk_ledger, b.send_psk_ledger);
    assert(wire_ledger_view(b.send_psk_ledger@).len() == ledger_view(s.send_psk_ledger@).len());
    lemma_window_views(a.listen_rendezvous, b.listen_rendezvous);
    lemma_window_views(a.recv_header_keys, b.recv_header_keys);
    lemma_window_views(a.recv_header_keys_pq, b.recv_header_keys_pq);
    lemma_window_plausible(b.listen_rendezvous, RENDEZVOUS_LEN as nat);
    lemma_window_plausible(b.recv_header_keys, HEADER_KEY_LEN as nat);
    lemma_window_plausible(b.recv_header_keys_pq, HEADER_KEY_LEN as nat);
    lemma_opt_view(a.pending_proposal_hash);
    lemma_opt_view(b.pending_proposal_hash);
    lemma_opt_view(a.joined_welcome_digest);
    lemma_opt_view(b.joined_welcome_digest);
    lemma_bytes_view(a.current_staple);
    lemma_bytes_view(b.current_staple);
    lemma_staged_views(a, b);
}

/// Sessions that agree are sound alike.
proof fn lemma_agreeing_is_sound(s: TwoMlsPqSession, t: TwoMlsPqSession)
    requires
        agree(s, t),
        s.sound(),
    ensures
        t.sound(),
{
    let (a, b) = (s.send_psk_ledger@, t.send_psk_ledger@);
    assert(ledger_view(a).len() == a.len() && ledger_view(b).len() == b.len());
    assert forall|i: int, j: int| 0 <= i < j < b.len() implies (#[trigger] b[i]).epoch != (
    #[trigger] b[j]).epoch by {
        assert(ledger_view(b)[i].0 == a[i].epoch);
        assert(ledger_view(b)[j].0 == a[j].epoch);
    }
    assert(all_bytes(t.staged_candidates@).len() == t.staged_candidates@.len());
    assert(all_bytes(s.staged_candidates@).len() == s.staged_candidates@.len());
    assert(keys(t.recv_header_keys_pq@).len() == t.recv_header_keys_pq@.len());
    assert(keys(s.recv_header_keys_pq@).len() == s.recv_header_keys_pq@.len());
}

/// Restoring gives back what was archived: the blob of a live session is restored, where the
/// host loads what it put in, and the restored session agrees with the archived one in
/// everything that an archive carries. It has the groups that were loaded. It is sound if that
/// one was, and live if its send group is loaded as it was.
pub proof fn law_restore_gives_back(
    s: TwoMlsPqSession,
    m: ArchiveMaterial,
    blob: Vec<u8>,
    loaded: LoadedMaterial,
    r: Result<TwoMlsPqSession>,
)
    requires
        s.wf(),
        s.live(),
        s.is_blob_of(m, true, Ok(blob)),
        all_loaded(s, loaded),
        is_restored_from(blob@, loaded, r),
    ensures
        ({
            &&& r matches Ok(t)
            &&& t.wf()
            &&& agree(s, t)
            &&& t.send_group == Some(loaded.send_group->Ok_0)
            &&& s.recv_group is Some ==> t.recv_group == Some(loaded.recv_group->Ok_0)
            &&& s.sound() ==> t.sound()
            &&& loaded.send_group->Ok_0 == s.send_group->0 ==> t.live()
        }),
{
    let written = choose|w: SessionArchive| #[trigger]
        s.archived_as(m, true, w) && archive_fits(w.parts().deep_view()) && blob@
            == archive_bytes(s.suite, w.parts().deep_view());
    let v = written.parts().deep_view();
    assert(blob@ == archive_bytes(apq_suite(), v));
    assert(!is_unreadable(blob@));
    let read = choose|w: SessionArchive| #[trigger]
        is_archive(blob@, w) && is_restored(w, loaded, r);
    law_archives_read_back(s.suite, v, apq_suite(), read.parts().deep_view());
    lemma_live_archive_is_restored(s, m, written, read, loaded);
    if let Ok(t) = r {
        lemma_same_parts_agree(s, written, t, read);
        if s.sound() {
            lemma_agreeing_is_sound(s, t);
        }
    }
}

/// A core and the checkpoint before it are the full archive of the session at the core, as
/// long as the PQ trees have not moved between.
pub proof fn law_core_completes_checkpoint(
    earlier: TwoMlsPqSession,
    ck_material: ArchiveMaterial,
    ck: SessionArchive,
    later: TwoMlsPqSession,
    material: ArchiveMaterial,
    core: SessionArchive,
)
    requires
        earlier.archived_as(ck_material, true, ck),
        later.archived_as(material, false, core),
        later.state_seq > earlier.state_seq,
        later.spec_pq_epochs() == earlier.spec_pq_epochs(),
        (material.send_group->Ok_0).1 == (ck_material.send_group->Ok_0).1,
        earlier.recv_group is Some ==> later.recv_group is Some && (material.recv_group->Ok_0).1
            == (ck_material.recv_group->Ok_0).1,
        earlier.recv_group is None && later.recv_group is Some ==> (
        material.recv_group->Ok_0).1 is None,
    ensures
        reconciled(core, ck) matches Ok(w) && later.archived_as(material, true, w),
{
}

/// A checkpoint that is no older than the core is the whole archive.
pub proof fn law_checkpoint_supersedes_core(core: SessionArchive, ck: SessionArchive)
    requires
        ck.state_seq >= core.state_seq,
    ensures
        reconciled(core, ck) == Ok::<SessionArchive, TwoMlsPqError>(ck),
{
}

/// A core whose PQ trees are at other epochs than a checkpoint's is not put together with it.
pub proof fn law_stale_checkpoint_is_refused(core: SessionArchive, ck: SessionArchive)
    requires
        ck.state_seq < core.state_seq,
        (core.send_pq_epoch, core.recv_pq_epoch) != (ck.send_pq_epoch, ck.recv_pq_epoch),
    ensures
        reconciled(core, ck) == Err::<SessionArchive, TwoMlsPqError>(TwoMlsPqError::ArchiveInvalid),
{
}

// ---- over any number of operations ----

/// What no operation takes back, no run of operations takes back.
pub proof fn law_nothing_is_taken_back(
    s: TwoMlsPqSession,
    between: TwoMlsPqSession,
    now: TwoMlsPqSession,
)
    requires
        between.since(s),
        now.since(between),
    ensures
        now.since(s),
{
}

// ---- frames between the two sides ----

/// A message is read as it was written: the receiver that opens a frame finds the sender's
/// staple, the id and the proposal that the sender staged, and the app message.
pub proof fn law_message_is_read_as_written(
    receiver: TwoMlsPqSession,
    blob: Seq<u8>,
    key: Seq<u8>,
    staple: Seq<u8>,
    proposing: Seq<u8>,
    proposal: Seq<u8>,
    app: Seq<u8>,
    i: int,
)
    requires
        sealed_as(blob, key, frame_of(staple, proposing, proposal, app)),
        0 <= i < header_candidates(receiver).len(),
        header_candidates(receiver)[i] == key,
        forall|j: int|
            0 <= j < i ==> header_open_of(
                #[trigger] header_candidates(receiver)[j],
                blob.subrange(0, HEADER_NONCE_LEN as int),
                blob.subrange(HEADER_NONCE_LEN as int, blob.len() as int),
            ) is None,
        0 < staple.len() <= u32::MAX,
        0 < proposing.len(),
        0 < proposal.len(),
        4 + proposing.len() + proposal.len() <= u32::MAX,
        0 < app.len() <= u32::MAX,
    ensures
        ({
            let frame = opened_or_raw(receiver, blob);
            &&& first_byte(frame) == Some(MESSAGE_FRAME_TAG)
            &&& message_parts(frame) == Some((staple, section(proposing) + proposal, app))
            &&& proposal_parts(section(proposing) + proposal) == Some((proposing, proposal))
        }),
{
    let frame = frame_of(staple, proposing, proposal, app);
    law_sealed_frame_opens(receiver, blob, key, frame, i);
    let carried = section(proposing) + proposal;
    let p = parts3(staple, carried, app);
    assert(carried.len() == 4 + proposing.len() + proposal.len());
    assert(p[0] == staple && p[1] == carried && p[2] == app);
    assert(is_tagged(frame, MESSAGE_FRAME_TAG, p));
    lemma_read3(frame, MESSAGE_FRAME_TAG, staple, carried, app);
    assert(frame[0] == MESSAGE_FRAME_TAG);
    let w = (proposing, proposal);
    law_proposal_section_round_trips(proposing, proposal, proposing, proposal);
    assert(is_proposal_section(carried, w.0, w.1));
    let q = proposal_parts(carried)->0;
    law_proposal_section_round_trips(proposing, proposal, q.0, q.1);
}

/// So is it opened: as a message, whole.
pub proof fn law_message_opens_for_its_receiver(
    receiver: TwoMlsPqSession,
    blob: Seq<u8>,
    key: Seq<u8>,
    staple: Seq<u8>,
    proposing: Seq<u8>,
    proposal: Seq<u8>,
    app: Seq<u8>,
    i: int,
    r: Result<Option<OpenedFrame>>,
)
    requires
        sealed_as(blob, key, frame_of(staple, proposing, proposal, app)),
        0 <= i < header_candidates(receiver).len(),
        header_candidates(receiver)[i] == key,
        forall|j: int|
            0 <= j < i ==> header_open_of(
                #[trigger] header_candidates(receiver)[j],
                blob.subrange(0, HEADER_NONCE_LEN as int),
                blob.subrange(HEADER_NONCE_LEN as int, blob.len() as int),
            ) is None,
        0 < staple.len() <= u32::MAX,
        0 < proposing.len(),
        0 < proposal.len(),
        4 + proposing.len() + proposal.len() <= u32::MAX,
        0 < app.len() <= u32::MAX,
        opened_as(receiver, blob, r),
    ensures
        ({
            &&& r matches Ok(Some(o))
            &&& o.kind == OpenedFrameKind::Message
            &&& o.frame@ == frame_of(staple, proposing, proposal, app)
            &&& message_parts(o.frame@) == Some((staple, section(proposing) + proposal, app))
        }),
{
    law_message_is_read_as_written(receiver, blob, key, staple, proposing, proposal, app, i);
    law_sealed_frame_opens(receiver, blob, key, frame_of(staple, proposing, proposal, app), i);
    let frame = frame_of(staple, proposing, proposal, app);
    assert(frame[0] == MESSAGE_FRAME_TAG);
}

/// The peer listens where this side posts: a session listens on its send group's current
/// epoch, and on what it captured of that epoch.
pub proof fn law_current_epoch_is_listened_on(s: TwoMlsPqSession, now: TwoMlsPqSession)
    requires
        s.wf(),
        s.sound(),
        s.send_group is Some,
        listening(s, true, now),
    ensures
        window_has(keys(now.listen_rendezvous@), s.send_group->0.classical.epoch),
        window_has(keys(now.recv_header_keys@), s.send_group->0.classical.epoch),
        !window_has(keys(s.listen_rendezvous@), s.send_group->0.classical.epoch) ==> keys(
            now.listen_rendezvous@,
        ).contains(
            (s.send_group->0.classical.epoch, s.send_group->0.classical.rendezvous@),
        ),
{
    let half = s.send_group->0.classical;
    let w = keys(s.listen_rendezvous@);
    law_routable_iff_openable(s, half.epoch);
    if !window_has(w, half.epoch) {
        law_recorded_epochs(w, half.epoch, half.rendezvous@, half.retained@, half.epoch);
        law_recorded_epochs(
            keys(s.recv_header_keys@),
            half.epoch,
            half.header_key@,
            half.retained@,
            half.epoch,
        );
        let below = kept_below(w, half.epoch, half.retained@);
        assert(keys(now.listen_rendezvous@)[below.len() as int] == (
            half.epoch,
            half.rendezvous@,
        ));
    }
}

// ---- welcomes and staples ----

/// The welcome that a session joined from can come again, and changes nothing; any other
/// welcome is refused, and changes nothing either.
pub proof fn law_welcome_is_idempotent(
    s: TwoMlsPqSession,
    welcome: Seq<u8>,
    psk: Result<ExportedPsk>,
    out: JoinOutcome,
    joined: TwoMlsPqSession,
    again: Seq<u8>,
    psk_again: Result<ExportedPsk>,
    out_again: JoinOutcome,
    now: TwoMlsPqSession,
    r: Result<()>,
)
    requires
        s.welcomed(welcome, psk, out, joined, Ok(())),
        joined.welcomed(again, psk_again, out_again, now, r),
    ensures
        now == joined,
        r is Ok <==> sha256_of(again) == sha256_of(welcome),
        r matches Err(e) ==> e == TwoMlsPqError::UnexpectedWelcome,
{
}

/// However a receive group was joined, the welcome that it was joined from can come again and
/// changes nothing; any other is refused, and changes nothing either.
pub proof fn law_joined_welcome_alone_returns(
    s: TwoMlsPqSession,
    welcome: Seq<u8>,
    again: Seq<u8>,
    psk: Result<ExportedPsk>,
    out: JoinOutcome,
    now: TwoMlsPqSession,
    r: Result<()>,
)
    requires
        s.recv_group is Some,
        opt_bytes(s.joined_welcome_digest) == Some(sha256_of(welcome)),
        s.welcomed(again, psk, out, now, r),
    ensures
        now == s,
        again == welcome ==> r == Ok::<(), TwoMlsPqError>(()),
        sha256_of(again) != sha256_of(welcome) ==> r == Err::<(), TwoMlsPqError>(
            TwoMlsPqError::UnexpectedWelcome,
        ),
{
}

/// A staple stands exactly if processing it and noting the ids that it moved both succeed: the
/// host is told to go on with a frame if and only if the session will read it.
pub proof fn law_staple_stands_iff_read_on(
    s: TwoMlsPqSession,
    staple: Seq<u8>,
    plan: StaplePlan,
    out: StapleOutcome,
    stapled: TwoMlsPqSession,
    moves: Result<StapleMoves>,
    noted: TwoMlsPqSession,
    v: Result<()>,
)
    requires
        s.is_staple_plan(staple, Ok(plan)),
        s.staple_processed(staple, out, stapled, moves),
        moves matches Ok(m) ==> stapled.moves_noted(m@.1, m@.2, noted, v),
    ensures
        s.stands(plan, out) <==> moves is Ok && v is Ok,
{
}

/// What refuses a frame before any group operation is what is reported of it.
pub proof fn law_refused_frame_is_reported(
    s: TwoMlsPqSession,
    frame: Seq<u8>,
    e: TwoMlsPqError,
    out: IncomingOutcome,
    now: TwoMlsPqSession,
    r: Result<Option<DecryptResult>>,
)
    requires
        s.is_incoming_plan(frame, Err(e)),
        s.frame_processed(frame, out, now, r),
    ensures
        r == Err::<Option<DecryptResult>, TwoMlsPqError>(e),
{
}

/// A stapled commit is applied once: by the next frame that carries it, it is skipped.
pub proof fn law_commit_applies_once(
    s: TwoMlsPqSession,
    commit: Seq<u8>,
    psk: Result<ExportedPsk>,
    out: CommitProcessed,
    now: TwoMlsPqSession,
    r: Result<StapleMoves>,
)
    requires
        s.staple_order(commit) == Ok::<StapleAction, TwoMlsPqError>(StapleAction::Apply),
        s.commit_applied(psk, out, now, r),
        r is Ok,
        out->half.epoch > s.recv_group->0.classical.epoch,
    ensures
        now.staple_order(commit) == Ok::<StapleAction, TwoMlsPqError>(StapleAction::Skip),
{
}

/// So is a bind.
pub proof fn law_bind_applies_once(
    s: TwoMlsPqSession,
    commit: Seq<u8>,
    psk: Result<ExportedPsk>,
    out: BindOutcome,
    now: TwoMlsPqSession,
    r: Result<StapleMoves>,
)
    requires
        s.staple_order(commit) == Ok::<StapleAction, TwoMlsPqError>(StapleAction::Apply),
        s.bind_applied(psk, out, now, r),
        r is Ok,
        out.classical->0.half.epoch > s.recv_group->0.classical.epoch,
    ensures
        now.staple_order(commit) == Ok::<StapleAction, TwoMlsPqError>(StapleAction::Skip),
{
}

/// A staple that is skipped is skipped for good: the receive group's epoch only grows.
pub proof fn law_skipped_staple_stays_skipped(
    s: TwoMlsPqSession,
    now: TwoMlsPqSession,
    commit: Seq<u8>,
)
    requires
        s.staple_order(commit) == Ok::<StapleAction, TwoMlsPqError>(StapleAction::Skip),
        s.recv_group is Some,
        now.recv_group is Some,
        now.recv_group->0.classical.epoch >= s.recv_group->0.classical.epoch,
    ensures
        now.staple_order(commit) == Ok::<StapleAction, TwoMlsPqError>(StapleAction::Skip),
{
}

// ---- a lost commit ----

/// The commit that a staple other than a welcome carries: the classical one of a bind, else the
/// staple itself.
pub open spec fn stapled_commit(staple: Seq<u8>) -> Seq<u8> {
    match read2(staple, APQ_PRIVATE_MESSAGE_TAG) {
        Some((t_message, _)) if first_byte(staple) == Some(APQ_PRIVATE_MESSAGE_TAG) => t_message,
        _ => staple,
    }
}

/// Every frame carries the staple until the next commit: encrypting keeps it, and so does a
/// round that does not commit.
pub proof fn law_staple_rides_on(
    s: TwoMlsPqSession,
    selected: Option<Seq<u8>>,
    out: PrepareOutcome,
    now: TwoMlsPqSession,
    r: Result<PrepareEncryptResult>,
)
    requires
        !s.commits(),
        round_settled(s, selected, out, now, r),
    ensures
        now.current_staple@ == s.current_staple@,
        s.after_encrypt().current_staple@ == s.current_staple@,
{
}

/// Whether a frame is received as its host carried it out: the seal comes off, the staple
/// stands, and the app message is decrypted.
pub open spec fn is_carried_out(
    receiver: TwoMlsPqSession,
    sender: TwoMlsPqSession,
    app: Seq<u8>,
    blob: Seq<u8>,
    i: int,
    plan: StaplePlan,
    out: IncomingOutcome,
) -> bool {
    &&& 0 <= i < header_candidates(receiver).len()
    &&& header_candidates(receiver)[i] == sender.recv_group->0.classical.header_key@
    &&& forall|j: int|
        0 <= j < i ==> header_open_of(
            #[trigger] header_candidates(receiver)[j],
            blob.subrange(0, HEADER_NONCE_LEN as int),
            blob.subrange(HEADER_NONCE_LEN as int, blob.len() as int),
        ) is None
    &&& mls_epoch_of(app) is Some
    &&& receiver.is_staple_plan(sender.current_staple@, Ok(plan))
    &&& receiver.stands(plan, out.staple)
    &&& out.app is Some
}

/// Whether the parts of the frame that a session is to send are there and fit their length
/// fields.
pub open spec fn frame_fits(s: TwoMlsPqSession, app: Seq<u8>) -> bool {
    &&& 0 < s.current_staple@.len() <= u32::MAX
    &&& s.pending_proposal_message matches Some(staged)
    &&& 0 < staged.proposing@.len()
    &&& 0 < staged.message@.len()
    &&& 4 + staged.proposing@.len() + staged.message@.len() <= u32::MAX
    &&& 0 < app.len() <= u32::MAX
}

/// What an established session makes of a frame that was carried out: it reports the app
/// message, and a commit exactly if it applied one.
proof fn lemma_frame_is_read(
    sender: TwoMlsPqSession,
    app: Vec<u8>,
    sent: Encrypted,
    receiver: TwoMlsPqSession,
    i: int,
    plan: StaplePlan,
    out: IncomingOutcome,
    now: TwoMlsPqSession,
    r: Result<Option<DecryptResult>>,
)
    requires
        sender.encrypted_as(Some(app), Ok(sent)),
        frame_fits(sender, app@),
        first_byte(sender.current_staple@) != Some(APQ_TAG),
        sent.outbound matches Outbound::Frame { cipher_text } && is_carried_out(
            receiver,
            sender,
            app@,
            cipher_text@,
            i,
            plan,
            out,
        ) && receiver.blob_processed(cipher_text@, out, now, r),
        !receiver.bind_apply_broken,
        receiver.send_group is Some,
    ensures
        ({
            let commit = stapled_commit(sender.current_staple@);
            &&& r matches Ok(Some(d))
            &&& d.application_message matches Some(m) && m.app_message_data@ == out.app->0.data@
                && m.sender_client_id@ == out.app->0.sender@
            &&& d.remote_commit is Some <==> receiver.staple_order(commit) == Ok::<
                StapleAction,
                TwoMlsPqError,
            >(StapleAction::Apply)
        }),
{
    let blob = sent.outbound->cipher_text@;
    let staple = sender.current_staple@;
    let staged = sender.pending_proposal_message->0;
    let key = sender.recv_group->0.classical.header_key@;
    law_message_is_read_as_written(
        receiver,
        blob,
        key,
        staple,
        staged.proposing@,
        staged.message@,
        app@,
        i,
    );
    let frame = opened_or_raw(receiver, blob);
    let mid = choose|mid: TwoMlsPqSession| #[trigger]
        receiver.frame_processed(frame, out, mid, r) && now == if r is Err {
            mid
        } else if mid.spec_pq_epochs() == receiver.spec_pq_epochs() {
            begun(mid, BlobKind::Core)
        } else {
            begun(mid, BlobKind::Checkpoint)
        };
    assert(receiver.message_processed(frame, out, mid, r));
    let carried = section(staged.proposing@) + staged.message@;
    let (stapled, moves) = choose|stapled: TwoMlsPqSession, moves: Result<StapleMoves>| #[trigger]
        receiver.staple_processed(staple, out.staple, stapled, moves) && match moves {
            Err(e) => r == Err::<Option<DecryptResult>, TwoMlsPqError>(e) && mid == stapled,
            Ok(m) => stapled.staple_followed(carried, out, m@, mid, r),
        };
    if let Ok(m) = moves {
        let (noted, v) = choose|noted: TwoMlsPqSession, v: Result<()>| #[trigger]
            stapled.moves_noted(m@.1, m@.2, noted, v) && match v {
                Err(e) => r == Err::<Option<DecryptResult>, TwoMlsPqError>(e) && mid == noted,
                Ok(()) => noted.frame_read(carried, out.app, out.offer, m@.0, m@.1, mid, r),
            };
        law_staple_stands_iff_read_on(
            receiver,
            staple,
            plan,
            out.staple,
            stapled,
            moves,
            noted,
            v,
        );
        assert(noted.recv_group == stapled.recv_group && noted.send_group == stapled.send_group);
        assert(noted.read_error(carried, out.app) is None);
    } else {
        law_staple_stands_iff_read_on(
            receiver,
            staple,
            plan,
            out.staple,
            stapled,
            moves,
            stapled,
            Ok(()),
        );
    }
}

/// Any single later frame heals a lost commit. A session commits, and no frame of that round
/// arrives; whatever frame it sends next without another commit, the peer that was at the epoch
/// before takes the commit from the staple, reports it, and reads the message. From then on
/// the same staple is skipped.
pub proof fn law_later_frame_heals_lost_commit(
    committed: TwoMlsPqSession,
    selected: Option<Seq<u8>>,
    round: PrepareOutcome,
    later: TwoMlsPqSession,
    prepared: Result<PrepareEncryptResult>,
    app: Vec<u8>,
    sent: Encrypted,
    receiver: TwoMlsPqSession,
    i: int,
    plan: StaplePlan,
    out: IncomingOutcome,
    now: TwoMlsPqSession,
    r: Result<Option<DecryptResult>>,
)
    requires
        first_byte(committed.current_staple@) != Some(APQ_TAG),
        !committed.after_encrypt().commits(),
        round_settled(committed.after_encrypt(), selected, round, later, prepared),
        later.encrypted_as(Some(app), Ok(sent)),
        frame_fits(later, app@),
        sent.outbound matches Outbound::Frame { cipher_text } && is_carried_out(
            receiver,
            later,
            app@,
            cipher_text@,
            i,
            plan,
            out,
        ) && receiver.blob_processed(cipher_text@, out, now, r),
        !receiver.bind_apply_broken,
        receiver.send_group is Some,
        receiver.staple_order(stapled_commit(committed.current_staple@)) == Ok::<
            StapleAction,
            TwoMlsPqError,
        >(StapleAction::Apply),
    ensures
        ({
            &&& r matches Ok(Some(d))
            &&& d.application_message matches Some(m) && m.app_message_data@ == out.app->0.data@
            &&& d.remote_commit is Some
        }),
        now.recv_group matches Some(g) && g.classical.epoch
            > receiver.recv_group->0.classical.epoch ==> now.staple_order(
            stapled_commit(committed.current_staple@),
        ) == Ok::<StapleAction, TwoMlsPqError>(StapleAction::Skip),
{
    law_staple_rides_on(committed.after_encrypt(), selected, round, later, prepared);
    lemma_frame_is_read(later, app, sent, receiver, i, plan, out, now, r);
}

/// A frame whose staple was applied off an earlier one reports its message and no commit.
pub proof fn law_repeated_staple_is_silent(
    sender: TwoMlsPqSession,
    app: Vec<u8>,
    sent: Encrypted,
    receiver: TwoMlsPqSession,
    i: int,
    plan: StaplePlan,
    out: IncomingOutcome,
    now: TwoMlsPqSession,
    r: Result<Option<DecryptResult>>,
)
    requires
        first_byte(sender.current_staple@) != Some(APQ_TAG),
        sender.encrypted_as(Some(app), Ok(sent)),
        frame_fits(sender, app@),
        sent.outbound matches Outbound::Frame { cipher_text } && is_carried_out(
            receiver,
            sender,
            app@,
            cipher_text@,
            i,
            plan,
            out,
        ) && receiver.blob_processed(cipher_text@, out, now, r),
        !receiver.bind_apply_broken,
        receiver.send_group is Some,
        receiver.staple_order(stapled_commit(sender.current_staple@)) == Ok::<
            StapleAction,
            TwoMlsPqError,
        >(StapleAction::Skip),
    ensures
        ({
            &&& r matches Ok(Some(d))
            &&& d.application_message matches Some(m) && m.app_message_data@ == out.app->0.data@
            &&& d.remote_commit is None
        }),
{
    lemma_frame_is_read(sender, app, sent, receiver, i, plan, out, now, r);
}

// ---- evidence ----

/// Whether a watermark is not ahead of the send group.
pub open spec fn not_ahead(mark: Option<u64>, s: TwoMlsPqSession) -> bool {
    mark matches Some(epoch) ==> epoch <= s.send_group->0.classical.epoch
}

/// The watermark of what the peer has applied never goes back, and never runs ahead of our
/// send group; an offer that does not validate leaves it as it is.
pub proof fn law_watermark_is_evidence(
    s: TwoMlsPqSession,
    proposing: Seq<u8>,
    message: Seq<u8>,
    processed: ProcessedProposal,
)
    ensures
        ({
            let after = s.watermark_after(proposing, message, processed);
            &&& s.peer_applied_send_epoch matches Some(before) ==> after matches Some(mark)
                && mark >= before
            &&& !s.is_evidence(proposing, message, processed) ==> after
                == s.peer_applied_send_epoch
            &&& s.send_group is Some && not_ahead(s.peer_applied_send_epoch, s) ==> not_ahead(
                after,
                s,
            )
        }),
{
}

/// A session commits for a reason only: it folds a proposal that the app approved, or it
/// discharges a bind while the peer has applied all that came before.
pub proof fn law_commit_needs_a_reason(s: TwoMlsPqSession)
    ensures
        s.commits() ==> s.queued_proposal is Some || (s.owed_bind is Some && s.licensed()),
        s.queued_proposal is None && s.peer_applied_send_epoch is None ==> !s.commits(),
{
}

// ---- rotation ----

/// No candidate in flight is ever evicted: a round keeps them all, in order, and adds at most
/// the deferred one at the end.
pub proof fn law_round_keeps_candidates(
    s: TwoMlsPqSession,
    selected: Option<Seq<u8>>,
    out: PrepareOutcome,
    now: TwoMlsPqSession,
)
    requires
        prepared(s, selected, out, now),
    ensures
        all_bytes(s.staged_candidates@).is_prefix_of(all_bytes(now.staged_candidates@)),
        now.staged_candidates@.len() <= s.staged_candidates@.len() + 1,
{
    let before = all_bytes(s.staged_candidates@);
    let after = all_bytes(now.staged_candidates@);
    assert(before =~= after.subrange(0, before.len() as int));
    assert(after.len() == now.staged_candidates@.len());
}

/// Candidates leave only by one of them winning: then it is the id that the session runs
/// under, and none is in flight.
pub proof fn law_candidates_leave_by_winning(
    s: TwoMlsPqSession,
    new_sender: Option<Seq<u8>>,
    own: Option<Seq<u8>>,
    now: TwoMlsPqSession,
    r: Result<()>,
)
    requires
        s.moves_noted(new_sender, own, now, r),
        now.staged_candidates@ != s.staged_candidates@,
    ensures
        r is Ok,
        own matches Some(id) && all_bytes(s.staged_candidates@).contains(id) && now.client_id@
            == id && now.my_state@ == (id, None::<Seq<u8>>),
        now.staged_candidates@.len() == 0,
{
}

// ---- the side-band ----

/// A run of hand-outs of the retained side-band frame, between which nothing replaces or clears
/// it: what each was asked of, what it left, and what it gave.
pub open spec fn is_hand_out_run(
    before: Seq<TwoMlsPqSession>,
    asked: Seq<SideBandSealing>,
    after: Seq<TwoMlsPqSession>,
    gave: Seq<Option<Vec<u8>>>,
) -> bool {
    &&& asked.len() == before.len()
    &&& after.len() == before.len()
    &&& gave.len() == before.len()
    &&& forall|i: int|
        0 <= i < before.len() ==> (#[trigger] before[i]).handed_out(asked[i], after[i], gave[i])
    &&& forall|i: int|
        0 <= i < before.len() - 1 ==> before[i + 1].pending_side_band == (
        #[trigger] after[i]).pending_side_band
}

/// Through a run of hand-outs the frame stays as it is, and so does its seal once there is one.
proof fn lemma_run_keeps_frame(
    before: Seq<TwoMlsPqSession>,
    asked: Seq<SideBandSealing>,
    after: Seq<TwoMlsPqSession>,
    gave: Seq<Option<Vec<u8>>>,
    i: int,
    j: int,
)
    requires
        is_hand_out_run(before, asked, after, gave),
        0 <= i <= j < before.len(),
    ensures
        before[i].pending_side_band is None ==> before[j].pending_side_band is None,
        before[i].pending_side_band matches Some(kept) ==> {
            &&& before[j].pending_side_band matches Some(held)
            &&& held.frame == kept.frame
            &&& kept.seal is Some ==> held == kept
        },
    decreases j - i,
{
    if i < j {
        lemma_run_keeps_frame(before, asked, after, gave, i, j - 1);
        assert(before[j - 1].handed_out(asked[j - 1], after[j - 1], gave[j - 1]));
        assert(before[j - 1 + 1].pending_side_band == after[j - 1].pending_side_band);
    }
}

/// Handing the retained frame out keeps it: however often it is handed out, the same frame
/// stays retained, no hand-out is counted, and every one that gives bytes gives that frame
/// sealed for this hand-out, or, if it is stable, under the seal that it is kept with. One that
/// gives nothing could not seal it. Without a frame there is nothing to give.
pub proof fn law_hand_outs_keep_the_frame(
    before: Seq<TwoMlsPqSession>,
    asked: Seq<SideBandSealing>,
    after: Seq<TwoMlsPqSession>,
    gave: Seq<Option<Vec<u8>>>,
    i: int,
)
    requires
        is_hand_out_run(before, asked, after, gave),
        0 <= i < before.len(),
    ensures
        after[i].state_seq == before[i].state_seq,
        match before[0].pending_side_band {
            None => gave[i] is None && after[i].pending_side_band is None,
            Some(kept) => {
                &&& after[i].pending_side_band matches Some(held)
                &&& held.frame == kept.frame
                &&& gave[i] is None ==> (before[i].side_band_key() matches Some(key)
                    ==> cannot_seal(key, kept.frame@))
                &&& gave[i] matches Some(b) ==> {
                    ||| asked[i] == SideBandSealing::Stable && opt_bytes(
                        before[i].pending_side_band->0.seal,
                    ) == Some(b@)
                    ||| before[i].side_band_key() matches Some(key) && freshly_sealed(
                        b@,
                        key,
                        kept.frame@,
                    )
                }
            },
        },
{
    lemma_run_keeps_frame(before, asked, after, gave, 0, i);
    assert(before[i].handed_out(asked[i], after[i], gave[i]));
}

/// Stable hand-outs repeat: once one has given bytes, every later stable one gives the same,
/// with fresh ones in between too, for as long as the frame is not replaced.
pub proof fn law_stable_hand_outs_repeat(
    before: Seq<TwoMlsPqSession>,
    asked: Seq<SideBandSealing>,
    after: Seq<TwoMlsPqSession>,
    gave: Seq<Option<Vec<u8>>>,
    i: int,
    j: int,
)
    requires
        is_hand_out_run(before, asked, after, gave),
        0 <= i <= j < before.len(),
        asked[i] == SideBandSealing::Stable,
        asked[j] == SideBandSealing::Stable,
        gave[i] is Some,
    ensures
        opt_bytes(gave[j]) == opt_bytes(gave[i]),
{
    assert(before[i].handed_out(asked[i], after[i], gave[i]));
    if i < j {
        assert(before[i + 1].pending_side_band == after[i].pending_side_band);
        lemma_run_keeps_frame(before, asked, after, gave, i + 1, j);
        assert(before[j].handed_out(asked[j], after[j], gave[j]));
    }
}

/// A frame that is kept with its seal is given out under that seal, by every stable hand-out
/// of the run.
pub proof fn law_seeded_seal_is_handed_out(
    before: Seq<TwoMlsPqSession>,
    asked: Seq<SideBandSealing>,
    after: Seq<TwoMlsPqSession>,
    gave: Seq<Option<Vec<u8>>>,
    sealed: Seq<u8>,
    i: int,
)
    requires
        is_hand_out_run(before, asked, after, gave),
        0 <= i < before.len(),
        before[0].pending_side_band matches Some(kept) && opt_bytes(kept.seal) == Some(sealed),
        asked[i] == SideBandSealing::Stable,
    ensures
        opt_bytes(gave[i]) == Some(sealed),
        after[i] == before[i],
{
    lemma_run_keeps_frame(before, asked, after, gave, 0, i);
    assert(before[i].handed_out(asked[i], after[i], gave[i]));
}

/// One round at a time: while one is under way, none can begin, and no ratchet or re-key of
/// the peer is answered.
pub proof fn law_one_round_at_a_time(
    s: TwoMlsPqSession,
    rotating: Option<Seq<u8>>,
    blob: Seq<u8>,
)
    requires
        s.pq_inflight is Some,
    ensures
        s.ratchet_begin_guard() is Some,
        s.rekey_begin_guard() is Some,
        !s.can_bootstrap(rotating),
        s.ratchet_respond_guard(blob) is Some,
        s.rekey_respond_guard(blob) is Some,
{
}

/// While a bind is owed no other PQ commit lands in the send group, so its reservation stays
/// good.
pub proof fn law_owed_bind_blocks_pq_commits(s: TwoMlsPqSession, blob: Seq<u8>)
    requires
        s.owed_bind is Some,
    ensures
        s.ratchet_bind_guard(blob) is Some,
        s.rekey_apply_guard(blob) is Some,
        s.bootstrap_bind_guard(blob) is Some,
        s.rekey_respond_guard(blob) is Some,
{
}

/// A bind that has just been made can be discharged, and the next round does so once the peer
/// has caught up.
pub proof fn law_owed_bind_is_dischargeable(
    s: TwoMlsPqSession,
    out: PqCommitOutput,
    now: TwoMlsPqSession,
)
    requires
        s.reservation() is Ok,
        s.bound(out, now),
        out.half.epoch == s.reservation()->Ok_0.pq_epoch,
    ensures
        now.owed_bind matches Some(owed) && now.reservation_error(owed) is None,
        now.licensed() ==> now.commits(),
{
}

/// The turn passes with the bind: the side that discharges one gives the turn away.
pub proof fn law_discharge_passes_the_turn(
    s: TwoMlsPqSession,
    selected: Option<Seq<u8>>,
    out: PrepareOutcome,
    now: TwoMlsPqSession,
)
    requires
        s.owed_bind is Some,
        s.commits(),
        prepared(s, selected, out, now),
        prepare_stop(s, selected, out) is None,
    ensures
        !now.pq_turn_mine,
        now.owed_bind is None,
{
}

/// The side that applies a bind takes the turn, and its round is over.
pub proof fn law_applied_bind_takes_the_turn(
    s: TwoMlsPqSession,
    psk: Result<ExportedPsk>,
    out: BindOutcome,
    now: TwoMlsPqSession,
    r: Result<StapleMoves>,
)
    requires
        s.bind_applied(psk, out, now, r),
        r is Ok,
    ensures
        now.pq_turn_mine,
        now.pq_inflight is None,
        now.pending_side_band is None,
{
}

} // verus!
