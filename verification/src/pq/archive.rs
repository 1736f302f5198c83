//! Archives: a session as one versioned blob, and as two that are pushed apart and put
//! together again at restore.
//!
//! The group snapshots, the signing keys and the authentication service's sequences are the
//! host's: it exports them into an archive and loads them from one, as opaque strings.
//! Everything else of a session is written and checked here.

use vstd::prelude::*;
use crate::bytes::{all_bytes, copy_bytes, copy_opt, opt_bytes};
use crate::types::{Archive, ClientId, CombinerKeyPackage, SessionId};
use super::codec::{blob_fits, blob_of, decode_blob, encode_blob, law_blobs_read_back};
use super::error::{Result, TwoMlsPqError};
use super::frames::{APQ_PRIVATE_MESSAGE_TAG, APQ_TAG};
use super::prepare::listening;
use super::providers::{DIGEST_LEN, HEADER_KEY_LEN};
use super::sealing::header_key_len;
use super::state::{
    apq_suite, ascending, group_exports, is_staple, keys, pq_epoch_of, value_lengths,
    ApqCipherSuite, CombinerGroup, EpochKey, ExportedPsk, OwedBind, PeerProposal, PqInflight,
    PrincipalState, PskEntry, PskRef, RetainedFrame, StagedProposal, TwoMlsPqSession,
    CLASSICAL_SUITE, PQ_SUITE, RENDEZVOUS_LEN, SEND_PSK_WINDOW,
};
use super::windows::{
    inserted, lemma_inserted_ascending, lemma_inserted_last, lemma_newest_lengths, window_insert,
};

verus! {

/// The version of the archive layout. It covers the whole layout: an archive of another
/// version is refused.
pub const SESSION_ARCHIVE_VERSION: u8 = 9;

// ---- what is written ----

/// A principal state: the active id, and the one that a rotation is under way to.
pub type WirePrincipalState = (Vec<u8>, Option<Vec<u8>>);

/// An epoch and its address or key.
pub type WireEpochKey = (u64, Vec<u8>);

/// A ledger entry: epoch, component, id and PSK.
pub type WirePskEntry = (u64, (u32, (Vec<u8>, Vec<u8>)));

/// A retired PSK: component and id.
pub type WirePskRef = (u32, Vec<u8>);

/// A peer's offered proposal: digest, message and proposing id.
pub type WireOffered = (Vec<u8>, (Vec<u8>, Vec<u8>));

/// An approved proposal: digest, proposing id and message.
pub type WireQueued = (Vec<u8>, (Vec<u8>, Vec<u8>));

/// The own staged proposal: proposing id and message.
pub type WireStaged = (Vec<u8>, Vec<u8>);

/// A party's credential sequence: the ids it went through, and those it may move to.
pub type WireSequence = (Vec<Vec<u8>>, Vec<Vec<u8>>);

/// Key packages of one half: storage id and data.
pub type WireKeyPackages = Vec<(Vec<u8>, Vec<u8>)>;

/// The keys of a signing identity: classical and PQ signing key, and the key packages retained
/// for each half.
pub type WireIdentityKeys = (Vec<u8>, (Vec<u8>, (WireKeyPackages, WireKeyPackages)));

/// A signing identity: client id and keys.
pub type WireIdentity = (Vec<u8>, WireIdentityKeys);

/// The snapshots of a group's halves.
pub type WireGroup = (Vec<u8>, Option<Vec<u8>>);

/// The round under way: its kind, the ephemeral's keys and the held secret.
pub type WireInflight = (u8, (Option<(Vec<u8>, Vec<u8>)>, Option<Vec<u8>>));

/// An owed bind: PQ commit, classical epoch and PQ epoch.
pub type WireOwedBind = (Vec<u8>, (u64, u64));

/// The persisted form of a session.
#[derive(Debug)]
pub struct SessionArchive {
    pub state_seq: u64,
    /// The PQ epochs of both directions when this was written.
    pub send_pq_epoch: Option<u64>,
    pub recv_pq_epoch: Option<u64>,
    pub session_id: Vec<u8>,
    pub client: WireIdentity,
    pub my_state: WirePrincipalState,
    pub their_state: WirePrincipalState,
    pub pq_turn_mine: bool,
    pub spawn_token: Option<Vec<u8>>,
    pub send_group: WireGroup,
    pub recv_group: Option<WireGroup>,
    pub send_psk_ledger: Vec<WirePskEntry>,
    pub retired_send_psks: Vec<WirePskRef>,
    pub last_cross_injected: Option<u64>,
    pub last_cross_injected_pq: Option<u64>,
    pub last_send_pq_exported: Option<u64>,
    pub peer_applied_send_epoch: Option<u64>,
    pub listen_rendezvous: Vec<WireEpochKey>,
    pub recv_header_keys: Vec<WireEpochKey>,
    pub recv_header_keys_pq: Vec<WireEpochKey>,
    pub pending_outbound: Option<Vec<u8>>,
    pub pending_proposal_hash: Option<Vec<u8>>,
    pub current_staple: Vec<u8>,
    pub pending_proposal_message: Option<WireStaged>,
    pub joined_welcome_digest: Option<Vec<u8>>,
    pub offered_proposal: Option<WireOffered>,
    pub queued_proposal: Option<WireQueued>,
    pub staged_candidates: Vec<WireIdentity>,
    pub deferred_candidate: Option<Vec<u8>>,
    pub auth_mine: WireSequence,
    pub auth_theirs: WireSequence,
    pub pending_side_band: Option<Vec<u8>>,
    pub pq_inflight: Option<WireInflight>,
    pub owed_bind: Option<WireOwedBind>,
    pub initial_their_kp: Option<(Vec<u8>, Vec<u8>)>,
    pub initial_app_payload: Option<Vec<u8>>,
    pub initial_return_kp: Option<Vec<u8>>,
    pub bootstrap_kp: Option<Vec<u8>>,
    pub bootstrap_kp_secret: Option<Vec<u8>>,
    pub expected_bootstrap_kp_commitment: Option<Vec<u8>>,
}

/// Sequence number, PQ epochs and session id.
pub type HeadParts = (u64, (Option<u64>, (Option<u64>, Vec<u8>)));

/// Identity, both states, turn and token.
pub type PartyParts = (
    WireIdentity,
    (WirePrincipalState, (WirePrincipalState, (bool, Option<Vec<u8>>))),
);

/// Both groups, the ledger and the watermarks.
pub type GroupParts = (
    WireGroup,
    (
        Option<WireGroup>,
        (
            Vec<WirePskEntry>,
            (
                Vec<WirePskRef>,
                (Option<u64>, (Option<u64>, (Option<u64>, Option<u64>))),
            ),
        ),
    ),
);

/// The windows.
pub type WindowParts = (Vec<WireEpochKey>, (Vec<WireEpochKey>, Vec<WireEpochKey>));

/// The parked frames, the staple and the proposals.
pub type FrameParts = (
    Option<Vec<u8>>,
    (
        Option<Vec<u8>>,
        (
            Vec<u8>,
            (
                Option<WireStaged>,
                (Option<Vec<u8>>, (Option<WireOffered>, Option<WireQueued>)),
            ),
        ),
    ),
);

/// The candidates and the credential sequences.
pub type RotationParts = (
    Vec<WireIdentity>,
    (Option<Vec<u8>>, (WireSequence, WireSequence)),
);

/// The side-band.
pub type RoundParts = (Option<Vec<u8>>, (Option<WireInflight>, Option<WireOwedBind>));

/// What is kept for establishment and bootstrap.
pub type EstablishmentParts = (
    Option<(Vec<u8>, Vec<u8>)>,
    (
        Option<Vec<u8>>,
        (Option<Vec<u8>>, (Option<Vec<u8>>, (Option<Vec<u8>>, Option<Vec<u8>>))),
    ),
);

/// An archive, field by field in the order of its layout.
pub type ArchiveParts = (
    HeadParts,
    (
        PartyParts,
        (
            GroupParts,
            (WindowParts, (FrameParts, (RotationParts, (RoundParts, EstablishmentParts)))),
        ),
    ),
);

impl SessionArchive {
    /// The fields in the order of the layout.
    pub open spec fn parts(self) -> ArchiveParts {
        (
            (
                self.state_seq,
                (self.send_pq_epoch, (self.recv_pq_epoch, self.session_id)),
            ),
            (
                (
                    self.client,
                    (self.my_state, (self.their_state, (self.pq_turn_mine, self.spawn_token))),
                ),
                (
                    (
                        self.send_group,
                        (
                            self.recv_group,
                            (
                                self.send_psk_ledger,
                                (
                                    self.retired_send_psks,
                                    (
                                        self.last_cross_injected,
                                        (
                                            self.last_cross_injected_pq,
                                            (
                                                self.last_send_pq_exported,
                                                self.peer_applied_send_epoch,
                                            ),
                                        ),
                                    ),
                                ),
                            ),
                        ),
                    ),
                    (
                        (
                            self.listen_rendezvous,
                            (self.recv_header_keys, self.recv_header_keys_pq),
                        ),
                        (
                            (
                                self.pending_outbound,
                                (
                                    self.pending_proposal_hash,
                                    (
                                        self.current_staple,
                                        (
                                            self.pending_proposal_message,
                                            (
                                                self.joined_welcome_digest,
                                                (self.offered_proposal, self.queued_proposal),
                                            ),
                                        ),
                                    ),
                                ),
                            ),
                            (
                                (
                                    self.staged_candidates,
                                    (
                                        self.deferred_candidate,
                                        (self.auth_mine, self.auth_theirs),
                                    ),
                                ),
                                (
                                    (
                                        self.pending_side_band,
                                        (self.pq_inflight, self.owed_bind),
                                    ),
                                    (
                                        self.initial_their_kp,
                                        (
                                            self.initial_app_payload,
                                            (
                                                self.initial_return_kp,
                                                (
                                                    self.bootstrap_kp,
                                                    (
                                                        self.bootstrap_kp_secret,
                                                        self.expected_bootstrap_kp_commitment,
                                                    ),
                                                ),
                                            ),
                                        ),
                                    ),
                                ),
                            ),
                        ),
                    ),
                ),
            ),
        )
    }

    /// Take the fields in the order of the layout.
    fn into_parts(self) -> (r: ArchiveParts)
        ensures
            r == self.parts(),
    {
        (
            (
                self.state_seq,
                (self.send_pq_epoch, (self.recv_pq_epoch, self.session_id)),
            ),
            (
                (
                    self.client,
                    (self.my_state, (self.their_state, (self.pq_turn_mine, self.spawn_token))),
                ),
                (
                    (
                        self.send_group,
                        (
                            self.recv_group,
                            (
                                self.send_psk_ledger,
                                (
                                    self.retired_send_psks,
                                    (
                                        self.last_cross_injected,
                                        (
                                            self.last_cross_injected_pq,
                                            (
                                                self.last_send_pq_exported,
                                                self.peer_applied_send_epoch,
                                            ),
                                        ),
                                    ),
                                ),
                            ),
                        ),
                    ),
                    (
                        (
                            self.listen_rendezvous,
                            (self.recv_header_keys, self.recv_header_keys_pq),
                        ),
                        (
                            (
                                self.pending_outbound,
                                (
                                    self.pending_proposal_hash,
                                    (
                                        self.current_staple,
                                        (
                                            self.pending_proposal_message,
                                            (
                                                self.joined_welcome_digest,
                                                (self.offered_proposal, self.queued_proposal),
                                            ),
                                        ),
                                    ),
                                ),
                            ),
                            (
                                (
                                    self.staged_candidates,
                                    (
                                        self.deferred_candidate,
                                        (self.auth_mine, self.auth_theirs),
                                    ),
                                ),
                                (
                                    (
                                        self.pending_side_band,
                                        (self.pq_inflight, self.owed_bind),
                                    ),
                                    (
                                        self.initial_their_kp,
                                        (
                                            self.initial_app_payload,
                                            (
                                                self.initial_return_kp,
                                                (
                                                    self.bootstrap_kp,
                                                    (
                                                        self.bootstrap_kp_secret,
                                                        self.expected_bootstrap_kp_commitment,
                                                    ),
                                                ),
                                            ),
                                        ),
                                    ),
                                ),
                            ),
                        ),
                    ),
                ),
            ),
        )
    }

    /// Name the fields that were read in the order of the layout.
    fn from_parts(parts: ArchiveParts) -> (r: SessionArchive)
        ensures
            r.parts() == parts,
    {
        let (
            (
                state_seq,
                (send_pq_epoch, (recv_pq_epoch, session_id)),
            ),
            (
                (
                    client,
                    (my_state, (their_state, (pq_turn_mine, spawn_token))),
                ),
                (
                    (
                        send_group,
                        (
                            recv_group,
                            (
                                send_psk_ledger,
                                (
                                    retired_send_psks,
                                    (
                                        last_cross_injected,
                                        (
                                            last_cross_injected_pq,
                                            (
                                                last_send_pq_exported,
                                                peer_applied_send_epoch,
                                            ),
                                        ),
                                    ),
                                ),
                            ),
                        ),
                    ),
                    (
                        (
                            listen_rendezvous,
                            (recv_header_keys, recv_header_keys_pq),
                        ),
                        (
                            (
                                pending_outbound,
                                (
                                    pending_proposal_hash,
                                    (
                                        current_staple,
                                        (
                                            pending_proposal_message,
                                            (
                                                joined_welcome_digest,
                                                (offered_proposal, queued_proposal),
                                            ),
                                        ),
                                    ),
                                ),
                            ),
                            (
                                (
                                    staged_candidates,
                                    (
                                        deferred_candidate,
                                        (auth_mine, auth_theirs),
                                    ),
                                ),
                                (
                                    (
                                        pending_side_band,
                                        (pq_inflight, owed_bind),
                                    ),
                                    (
                                        initial_their_kp,
                                        (
                                            initial_app_payload,
                                            (
                                                initial_return_kp,
                                                (
                                                    bootstrap_kp,
                                                    (
                                                        bootstrap_kp_secret,
                                                        expected_bootstrap_kp_commitment,
                                                    ),
                                                ),
                                            ),
                                        ),
                                    ),
                                ),
                            ),
                        ),
                    ),
                ),
            ),
        ) = parts;
        SessionArchive {
            state_seq,
            send_pq_epoch,
            recv_pq_epoch,
            session_id,
            client,
            my_state,
            their_state,
            pq_turn_mine,
            spawn_token,
            send_group,
            recv_group,
            send_psk_ledger,
            retired_send_psks,
            last_cross_injected,
            last_cross_injected_pq,
            last_send_pq_exported,
            peer_applied_send_epoch,
            listen_rendezvous,
            recv_header_keys,
            recv_header_keys_pq,
            pending_outbound,
            pending_proposal_hash,
            current_staple,
            pending_proposal_message,
            joined_welcome_digest,
            offered_proposal,
            queued_proposal,
            staged_candidates,
            deferred_candidate,
            auth_mine,
            auth_theirs,
            pending_side_band,
            pq_inflight,
            owed_bind,
            initial_their_kp,
            initial_app_payload,
            initial_return_kp,
            bootstrap_kp,
            bootstrap_kp_secret,
            expected_bootstrap_kp_commitment,
        }
    }
}

// ---- blobs ----

/// What an archive holds.
pub type ArchiveView = <ArchiveParts as DeepView>::V;

/// The blob of an archive: the version, the suite pair, then the fields.
pub open spec fn archive_bytes(suite: ApqCipherSuite, v: ArchiveView) -> Seq<u8> {
    blob_of::<ArchiveParts>(SESSION_ARCHIVE_VERSION, suite.classical, suite.pq, v)
}

/// Whether every part of an archive is short enough to be written.
pub open spec fn archive_fits(v: ArchiveView) -> bool {
    blob_fits::<ArchiveParts>(v)
}

/// Whether a blob is the archive `w`.
pub open spec fn is_archive(blob: Seq<u8>, w: SessionArchive) -> bool {
    &&& archive_fits(w.parts().deep_view())
    &&& blob == archive_bytes(apq_suite(), w.parts().deep_view())
}

/// Whether a blob is no archive at all.
pub open spec fn is_unreadable(blob: Seq<u8>) -> bool {
    forall|v: ArchiveView|
        archive_fits(v) ==> blob != #[trigger] archive_bytes(apq_suite(), v)
}

/// A blob holds one archive only, and of one suite pair.
pub proof fn law_archives_read_back(
    s: ApqCipherSuite,
    a: ArchiveView,
    t: ApqCipherSuite,
    b: ArchiveView,
)
    requires
        archive_fits(a),
        archive_fits(b),
        archive_bytes(s, a) == archive_bytes(t, b),
    ensures
        s == t,
        a == b,
{
    law_blobs_read_back::<ArchiveParts>(
        SESSION_ARCHIVE_VERSION,
        s.classical,
        s.pq,
        a,
        SESSION_ARCHIVE_VERSION,
        t.classical,
        t.pq,
        b,
    );
}

/// Write an archive.
pub fn encode_archive(suite: ApqCipherSuite, wire: SessionArchive) -> (r: Result<Vec<u8>>)
    ensures
        match r {
            Ok(b) => {
                &&& archive_fits(wire.parts().deep_view())
                &&& b@ == archive_bytes(suite, wire.parts().deep_view())
            },
            Err(e) => {
                &&& !archive_fits(wire.parts().deep_view())
                &&& e == TwoMlsPqError::ArchiveInvalid
            },
        },
{
    let parts = wire.into_parts();
    match encode_blob(SESSION_ARCHIVE_VERSION, suite.classical, suite.pq, &parts) {
        Some(blob) => Ok(blob),
        None => Err(TwoMlsPqError::ArchiveInvalid),
    }
}

/// Read an archive. One of another version or suite pair is refused, and so is one that
/// something follows.
pub fn decode_wire(archive: &Archive) -> (r: Result<SessionArchive>)
    ensures
        match r {
            Ok(w) => is_archive(archive@, w),
            Err(e) => e == TwoMlsPqError::ArchiveInvalid && is_unreadable(archive@),
        },
{
    match decode_blob::<ArchiveParts>(
        SESSION_ARCHIVE_VERSION,
        CLASSICAL_SUITE,
        PQ_SUITE,
        archive.bytes.as_slice(),
    ) {
        None => Err(TwoMlsPqError::ArchiveInvalid),
        Some(parts) => Ok(SessionArchive::from_parts(parts)),
    }
}

// ---- two blobs ----

/// What a core and a checkpoint are put together as. The PQ trees come from the checkpoint;
/// everything else from the newer of the two, and from the checkpoint where neither is. A
/// newer core whose PQ epochs are not the checkpoint's, or which has lost the receive group,
/// does not go with it.
pub open spec fn reconciled(core: SessionArchive, ck: SessionArchive) -> Result<SessionArchive> {
    if ck.state_seq >= core.state_seq {
        Ok(ck)
    } else if core.send_pq_epoch != ck.send_pq_epoch || core.recv_pq_epoch != ck.recv_pq_epoch {
        Err(TwoMlsPqError::ArchiveInvalid)
    } else {
        let send_group = (core.send_group.0, ck.send_group.1);
        match (core.recv_group, ck.recv_group) {
            (Some(recv), Some(theirs)) => Ok(
                SessionArchive { send_group, recv_group: Some((recv.0, theirs.1)), ..core },
            ),
            (Some(recv), None) => Ok(
                SessionArchive { send_group, recv_group: Some((recv.0, None)), ..core },
            ),
            (None, None) => Ok(SessionArchive { send_group, ..core }),
            (None, Some(_)) => Err(TwoMlsPqError::ArchiveInvalid),
        }
    }
}

/// Put a core and a checkpoint together.
fn reconcile(core: SessionArchive, checkpoint: SessionArchive) -> (r: Result<SessionArchive>)
    ensures
        r == reconciled(core, checkpoint),
{
    if checkpoint.state_seq >= core.state_seq {
        return Ok(checkpoint);
    }
    let same_send = match (core.send_pq_epoch, checkpoint.send_pq_epoch) {
        (Some(a), Some(b)) => a == b,
        (None, None) => true,
        _ => false,
    };
    let same_recv = match (core.recv_pq_epoch, checkpoint.recv_pq_epoch) {
        (Some(a), Some(b)) => a == b,
        (None, None) => true,
        _ => false,
    };
    if !same_send || !same_recv {
        return Err(TwoMlsPqError::ArchiveInvalid);
    }
    let mut merged = core;
    let (send_classical, _) = merged.send_group;
    let (_, send_pq) = checkpoint.send_group;
    merged.send_group = (send_classical, send_pq);
    match (merged.recv_group, checkpoint.recv_group) {
        (Some((recv_classical, _)), Some((_, recv_pq))) => {
            merged.recv_group = Some((recv_classical, recv_pq));
        },
        (Some((recv_classical, _)), None) => {
            merged.recv_group = Some((recv_classical, None));
        },
        (None, None) => {
            merged.recv_group = None;
        },
        (None, Some(_)) => {
            return Err(TwoMlsPqError::ArchiveInvalid);
        },
    }
    Ok(merged)
}

/// Put the last pushed core and the last pushed checkpoint together. The checkpoint must be
/// there; alone it is enough.
pub fn reconcile_persisted(core: &Option<Archive>, checkpoint: &Option<Archive>) -> (r: Result<
    SessionArchive,
>)
    ensures
        match (*checkpoint, *core) {
            (None, _) => r == Err::<SessionArchive, TwoMlsPqError>(TwoMlsPqError::ArchiveInvalid),
            (Some(ck_blob), None) => match r {
                Ok(w) => is_archive(ck_blob@, w),
                Err(e) => e == TwoMlsPqError::ArchiveInvalid && is_unreadable(ck_blob@),
            },
            (Some(ck_blob), Some(core_blob)) => {
                ||| is_unreadable(ck_blob@) && r == Err::<SessionArchive, TwoMlsPqError>(
                    TwoMlsPqError::ArchiveInvalid,
                )
                ||| is_unreadable(core_blob@) && r == Err::<SessionArchive, TwoMlsPqError>(
                    TwoMlsPqError::ArchiveInvalid,
                )
                ||| exists|c: SessionArchive, ck: SessionArchive|
                    is_archive(core_blob@, c) && is_archive(ck_blob@, ck) && r
                        == #[trigger] reconciled(c, ck)
            },
        },
{
    let ck = match checkpoint {
        None => return Err(TwoMlsPqError::ArchiveInvalid),
        Some(blob) => match decode_wire(blob) {
            Err(e) => return Err(e),
            Ok(w) => w,
        },
    };
    match core {
        None => Ok(ck),
        Some(blob) => match decode_wire(blob) {
            Err(e) => Err(e),
            Ok(c) => reconcile(c, ck),
        },
    }
}

// ---- fields ----

/// A written principal state, part by part.
pub open spec fn wire_state_view(w: WirePrincipalState) -> (Seq<u8>, Option<Seq<u8>>) {
    (w.0@, opt_bytes(w.1))
}

/// Whether two principal states are the same: both settled on one id, or both moving between
/// the same two.
pub open spec fn same_state(s: PrincipalState, t: PrincipalState) -> bool {
    match (s, t) {
        (PrincipalState::Sync { client_id: a }, PrincipalState::Sync { client_id: b }) => a@ == b@,
        (
            PrincipalState::Pending { old: a, new: b },
            PrincipalState::Pending { old: c, new: d },
        ) => a@ == c@ && b@ == d@,
        _ => false,
    }
}

/// Whether `w` is what a principal state is written as: the active id, and the id that it is
/// moving to if it is.
pub open spec fn state_written(s: PrincipalState, w: WirePrincipalState) -> bool {
    match s {
        PrincipalState::Sync { client_id } => w.0@ == client_id@ && w.1 is None,
        PrincipalState::Pending { old: from, new: to } => w.0@ == from@ && opt_bytes(w.1) == Some(
            to@,
        ),
    }
}

/// Whether `s` is what a written principal state is read as.
pub open spec fn state_read(w: WirePrincipalState, s: PrincipalState) -> bool {
    match w.1 {
        None => s matches PrincipalState::Sync { client_id } && client_id@ == w.0@,
        Some(pending) => s matches PrincipalState::Pending { old: from, new: to } && from@ == w.0@
            && to@ == pending@,
    }
}

/// Write a principal state.
pub fn wire_principal_state(state: &PrincipalState) -> (r: WirePrincipalState)
    ensures
        state_written(*state, r),
        wire_state_view(r) == state@,
{
    match state {
        PrincipalState::Sync { client_id } => (copy_bytes(client_id.bytes.as_slice()), None),
        PrincipalState::Pending { old, new } => (
            copy_bytes(old.bytes.as_slice()),
            Some(copy_bytes(new.bytes.as_slice())),
        ),
    }
}

/// Read a principal state.
pub fn principal_state_from_wire(wire: WirePrincipalState) -> (r: PrincipalState)
    ensures
        state_read(wire, r),
        r@ == wire_state_view(wire),
{
    let (active, pending_new) = wire;
    match pending_new {
        None => PrincipalState::Sync { client_id: ClientId { bytes: active } },
        Some(new) => PrincipalState::Pending {
            old: ClientId { bytes: active },
            new: ClientId { bytes: new },
        },
    }
}

/// A principal state is read back as it was written, whatever it is: the id that is left and
/// the id that is taken up never change places.
pub proof fn law_principal_state_reads_back(
    s: PrincipalState,
    w: WirePrincipalState,
    t: PrincipalState,
)
    requires
        state_written(s, w),
        state_read(w, t),
    ensures
        same_state(s, t),
        t@ == s@,
{
}

/// And a written principal state that is read is written again as it was.
pub proof fn law_written_state_is_kept(
    w: WirePrincipalState,
    s: PrincipalState,
    again: WirePrincipalState,
)
    requires
        state_read(w, s),
        state_written(s, again),
    ensures
        wire_state_view(again) == wire_state_view(w),
{
}

/// What a round under way is written as: each kind under a number of its own, with the
/// secrets that the kind holds and no others.
pub open spec fn inflight_view(p: PqInflight) -> (u8, Option<(Seq<u8>, Seq<u8>)>, Option<Seq<u8>>) {
    match p {
        PqInflight::Initiating { dk, ek } => (0, Some((dk@, ek@)), None),
        PqInflight::Responding { secret } => (1, None, Some(secret@)),
        PqInflight::RekeyInitiated => (2, None, None),
        PqInflight::RekeyResponded => (3, None, None),
        PqInflight::BootstrapInitiated => (4, None, None),
        PqInflight::BootstrapResponded => (5, None, None),
    }
}

/// A written round, part by part.
pub open spec fn wire_inflight_view(w: WireInflight) -> (
    u8,
    Option<(Seq<u8>, Seq<u8>)>,
    Option<Seq<u8>>,
) {
    let ephemeral = match (w.1).0 {
        Some(keys) => Some((keys.0@, keys.1@)),
        None => None,
    };
    (w.0, ephemeral, opt_bytes((w.1).1))
}

/// Whether two rounds under way are the same, in kind and in the secrets that they hold.
pub open spec fn same_round(p: PqInflight, q: PqInflight) -> bool {
    match (p, q) {
        (PqInflight::Initiating { dk: a, ek: b }, PqInflight::Initiating { dk: c, ek: d }) => a@
            == c@ && b@ == d@,
        (PqInflight::Responding { secret: a }, PqInflight::Responding { secret: b }) => a@ == b@,
        (PqInflight::RekeyInitiated, PqInflight::RekeyInitiated) => true,
        (PqInflight::RekeyResponded, PqInflight::RekeyResponded) => true,
        (PqInflight::BootstrapInitiated, PqInflight::BootstrapInitiated) => true,
        (PqInflight::BootstrapResponded, PqInflight::BootstrapResponded) => true,
        _ => false,
    }
}

/// Write a round under way.
pub fn wire_pq_inflight(inflight: &PqInflight) -> (r: WireInflight)
    ensures
        wire_inflight_view(r) == inflight_view(*inflight),
{
    match inflight {
        PqInflight::Initiating { dk, ek } => (
            0,
            (Some((copy_bytes(dk.as_slice()), copy_bytes(ek.as_slice()))), None),
        ),
        PqInflight::Responding { secret } => (1, (None, Some(copy_bytes(secret.as_slice())))),
        PqInflight::RekeyInitiated => (2, (None, None)),
        PqInflight::RekeyResponded => (3, (None, None)),
        PqInflight::BootstrapInitiated => (4, (None, None)),
        PqInflight::BootstrapResponded => (5, (None, None)),
    }
}

/// Whether a written round is one: its kind is known, and it holds the secrets of that kind
/// and no others.
pub open spec fn is_inflight(w: WireInflight) -> bool {
    let ephemeral = (w.1).0 is Some;
    let secret = (w.1).1 is Some;
    if w.0 == 0 {
        ephemeral && !secret
    } else if w.0 == 1 {
        !ephemeral && secret
    } else {
        w.0 <= 5 && !ephemeral && !secret
    }
}

/// Whether `r` is what a written round is read as. An unknown kind, or secrets that the kind
/// does not hold, are refused.
pub open spec fn round_read(w: WireInflight, r: Result<PqInflight>) -> bool {
    match r {
        Ok(p) => is_inflight(w) && inflight_view(p) == wire_inflight_view(w),
        Err(e) => !is_inflight(w) && e == TwoMlsPqError::ArchiveInvalid,
    }
}

/// Read a round under way.
pub fn pq_inflight_from_wire(wire: WireInflight) -> (r: Result<PqInflight>)
    ensures
        round_read(wire, r),
{
    let (kind, (ephemeral, secret)) = wire;
    match (kind, ephemeral, secret) {
        (0, Some((dk, ek)), None) => Ok(PqInflight::Initiating { dk, ek }),
        (1, None, Some(secret)) => Ok(PqInflight::Responding { secret }),
        (2, None, None) => Ok(PqInflight::RekeyInitiated),
        (3, None, None) => Ok(PqInflight::RekeyResponded),
        (4, None, None) => Ok(PqInflight::BootstrapInitiated),
        (5, None, None) => Ok(PqInflight::BootstrapResponded),
        _ => Err(TwoMlsPqError::ArchiveInvalid),
    }
}

/// A written round is always accepted, and read back as the round that it was, with the same
/// secrets.
pub proof fn law_round_reads_back(p: PqInflight, w: WireInflight, r: Result<PqInflight>)
    requires
        wire_inflight_view(w) == inflight_view(p),
        round_read(w, r),
    ensures
        r matches Ok(q) && same_round(p, q),
{
}

/// The entries of a ledger: epoch, component, id and PSK.
pub open spec fn ledger_view(l: Seq<PskEntry>) -> Seq<(u64, u32, Seq<u8>, Seq<u8>)> {
    Seq::new(
        l.len(),
        |i: int|
            (
                l[i].epoch,
                l[i].exported.component_id,
                l[i].exported.psk_id@,
                l[i].exported.psk@,
            ),
    )
}

/// The entries of a written ledger.
pub open spec fn wire_ledger_view(w: Seq<WirePskEntry>) -> Seq<(u64, u32, Seq<u8>, Seq<u8>)> {
    Seq::new(
        w.len(),
        |i: int| (w[i].0, (w[i].1).0, ((w[i].1).1).0@, ((w[i].1).1).1@),
    )
}

/// Write a ledger.
fn wire_ledger(l: &Vec<PskEntry>) -> (r: Vec<WirePskEntry>)
    ensures
        wire_ledger_view(r@) == ledger_view(l@),
{
    let mut out: Vec<WirePskEntry> = Vec::new();
    let mut i: usize = 0;
    while i < l.len()
        invariant
            i <= l.len(),
            out@.len() == i,
            forall|j: int|
                0 <= j < i ==> #[trigger] wire_ledger_view(out@)[j] == ledger_view(l@)[j],
        decreases l.len() - i,
    {
        let e = &l[i];
        let ghost before = out@;
        out.push(
            (
                e.epoch,
                (
                    e.exported.component_id,
                    (
                        copy_bytes(e.exported.psk_id.as_slice()),
                        copy_bytes(e.exported.psk.as_slice()),
                    ),
                ),
            ),
        );
        proof {
            assert forall|j: int| 0 <= j < i + 1 implies #[trigger] wire_ledger_view(out@)[j]
                == ledger_view(l@)[j] by {
                if j < i {
                    assert(wire_ledger_view(before)[j] == ledger_view(l@)[j]);
                    assert(out@[j] == before[j]);
                }
            }
        }
        i += 1;
    }
    proof {
        assert(wire_ledger_view(out@) =~= ledger_view(l@));
    }
    out
}

/// Read a ledger.
fn ledger_from_wire(w: Vec<WirePskEntry>) -> (r: Vec<PskEntry>)
    ensures
        ledger_view(r@) == wire_ledger_view(w@),
        r@.len() == w@.len(),
{
    let mut out: Vec<PskEntry> = Vec::new();
    let mut i: usize = 0;
    while i < w.len()
        invariant
            i <= w.len(),
            out@.len() == i,
            forall|j: int|
                0 <= j < i ==> #[trigger] ledger_view(out@)[j] == wire_ledger_view(w@)[j],
        decreases w.len() - i,
    {
        let e = &w[i];
        let ghost before = out@;
        out.push(
            PskEntry {
                epoch: e.0,
                exported: ExportedPsk {
                    component_id: (e.1).0,
                    psk_id: copy_bytes(((e.1).1).0.as_slice()),
                    psk: copy_bytes(((e.1).1).1.as_slice()),
                },
            },
        );
        proof {
            assert forall|j: int| 0 <= j < i + 1 implies #[trigger] ledger_view(out@)[j]
                == wire_ledger_view(w@)[j] by {
                if j < i {
                    assert(ledger_view(before)[j] == wire_ledger_view(w@)[j]);
                    assert(out@[j] == before[j]);
                }
            }
        }
        i += 1;
    }
    proof {
        assert(ledger_view(out@) =~= wire_ledger_view(w@));
    }
    out
}

/// The components and ids of retired PSKs.
pub open spec fn refs_view(r: Seq<PskRef>) -> Seq<(u32, Seq<u8>)> {
    Seq::new(r.len(), |i: int| (r[i].component_id, r[i].psk_id@))
}

/// The components and ids of written retired PSKs.
pub open spec fn wire_refs_view(w: Seq<WirePskRef>) -> Seq<(u32, Seq<u8>)> {
    Seq::new(w.len(), |i: int| (w[i].0, w[i].1@))
}

/// Write the retired PSKs.
fn wire_refs(l: &Vec<PskRef>) -> (r: Vec<WirePskRef>)
    ensures
        wire_refs_view(r@) == refs_view(l@),
{
    let mut out: Vec<WirePskRef> = Vec::new();
    let mut i: usize = 0;
    while i < l.len()
        invariant
            i <= l.len(),
            out@.len() == i,
            forall|j: int|
                0 <= j < i ==> (#[trigger] out@[j]).0 == l@[j].component_id && out@[j].1@
                    == l@[j].psk_id@,
        decreases l.len() - i,
    {
        out.push((l[i].component_id, copy_bytes(l[i].psk_id.as_slice())));
        i += 1;
    }
    proof {
        assert(wire_refs_view(out@) =~= refs_view(l@));
    }
    out
}

/// Read the retired PSKs.
fn refs_from_wire(w: Vec<WirePskRef>) -> (r: Vec<PskRef>)
    ensures
        refs_view(r@) == wire_refs_view(w@),
{
    let mut out: Vec<PskRef> = Vec::new();
    let mut i: usize = 0;
    while i < w.len()
        invariant
            i <= w.len(),
            out@.len() == i,
            forall|j: int|
                0 <= j < i ==> (#[trigger] out@[j]).component_id == w@[j].0 && out@[j].psk_id@
                    == w@[j].1@,
        decreases w.len() - i,
    {
        out.push(PskRef { component_id: w[i].0, psk_id: copy_bytes(w[i].1.as_slice()) });
        i += 1;
    }
    proof {
        assert(refs_view(out@) =~= wire_refs_view(w@));
    }
    out
}

/// The epochs and values of a written window.
pub open spec fn wire_keys(w: Seq<WireEpochKey>) -> Seq<(u64, Seq<u8>)> {
    Seq::new(w.len(), |i: int| (w[i].0, w[i].1@))
}

/// A written window in order, with the last value of each epoch.
pub open spec fn collected(w: Seq<(u64, Seq<u8>)>) -> Seq<(u64, Seq<u8>)>
    decreases w.len(),
{
    if w.len() == 0 {
        w
    } else {
        inserted(collected(w.drop_last()), w.last().0, w.last().1)
    }
}

/// A collected window is in order.
proof fn lemma_collected_ascending(w: Seq<(u64, Seq<u8>)>)
    ensures
        ascending(collected(w)),
    decreases w.len(),
{
    if w.len() > 0 {
        lemma_collected_ascending(w.drop_last());
        lemma_inserted_ascending(collected(w.drop_last()), w.last().0, w.last().1);
    }
}

/// Collecting keeps the lengths of the values.
proof fn lemma_collected_lengths(w: Seq<(u64, Seq<u8>)>, len: nat)
    requires
        value_lengths(w, len),
    ensures
        value_lengths(collected(w), len),
    decreases w.len(),
{
    if w.len() > 0 {
        let t = w.drop_last();
        assert forall|i: int| 0 <= i < t.len() implies (#[trigger] t[i]).1.len() == len by {
            assert(w[i].1.len() == len);
        }
        lemma_collected_lengths(t, len);
        assert(w[w.len() - 1] == w.last());
        lemma_newest_lengths(collected(t), w.last().0, w.last().1, 0);
    }
}

/// A window that is in order is collected as it is.
pub proof fn lemma_collected_in_order(w: Seq<(u64, Seq<u8>)>)
    requires
        ascending(w),
    ensures
        collected(w) == w,
    decreases w.len(),
{
    if w.len() > 0 {
        let t = w.drop_last();
        assert forall|i: int, j: int| 0 <= i < j < t.len() implies (#[trigger] t[i]).0 < (
        #[trigger] t[j]).0 by {
            assert(w[i].0 < w[j].0);
        }
        lemma_collected_in_order(t);
        assert forall|i: int| 0 <= i < t.len() implies (#[trigger] t[i]).0 < w.last().0 by {
            assert(w[i].0 < w[w.len() - 1].0);
        }
        lemma_inserted_last(t, w.last().0, w.last().1);
        assert(t.push(w.last()) =~= w);
    }
}

/// Write a window.
fn wire_window(w: &Vec<EpochKey>) -> (r: Vec<WireEpochKey>)
    ensures
        wire_keys(r@) == keys(w@),
{
    let mut out: Vec<WireEpochKey> = Vec::new();
    let mut i: usize = 0;
    while i < w.len()
        invariant
            i <= w.len(),
            out@.len() == i,
            forall|j: int|
                0 <= j < i ==> (#[trigger] out@[j]).0 == w@[j].epoch && out@[j].1@ == w@[j].key@,
        decreases w.len() - i,
    {
        out.push((w[i].epoch, copy_bytes(w[i].key.as_slice())));
        i += 1;
    }
    proof {
        assert(wire_keys(out@) =~= keys(w@));
    }
    out
}

/// Read a window.
fn window_from_wire(w: Vec<WireEpochKey>) -> (r: Vec<EpochKey>)
    ensures
        keys(r@) == collected(wire_keys(w@)),
        ascending(keys(r@)),
{
    let mut out: Vec<EpochKey> = Vec::new();
    let mut i: usize = 0;
    let ghost all = wire_keys(w@);
    proof {
        assert(all.subrange(0, 0) =~= Seq::empty());
        assert(keys(out@) =~= Seq::empty());
    }
    while i < w.len()
        invariant
            i <= w.len(),
            all == wire_keys(w@),
            keys(out@) == collected(all.subrange(0, i as int)),
        decreases w.len() - i,
    {
        proof {
            let t = all.subrange(0, i + 1);
            assert(t.drop_last() =~= all.subrange(0, i as int));
            assert(t.last() == all[i as int]);
        }
        out = window_insert(&out, w[i].0, w[i].1.as_slice());
        i += 1;
    }
    proof {
        assert(all.subrange(0, all.len() as int) =~= all);
        lemma_collected_ascending(all);
    }
    out
}

// ---- a session and its archive ----

/// The client ids of a list of identities.
pub open spec fn identity_ids(w: Seq<WireIdentity>) -> Seq<Seq<u8>> {
    Seq::new(w.len(), |i: int| w[i].0@)
}

/// The parts of an optional proposal of the peer: digest, proposing id and message.
pub open spec fn proposal_view(p: Option<PeerProposal>) -> Option<(Seq<u8>, Seq<u8>, Seq<u8>)> {
    match p {
        Some(p) => Some((p.digest@, p.proposing@, p.message@)),
        None => None,
    }
}

/// Whether `w` is the archive of what `s` holds, the snapshots, keys and sequences of the
/// host aside.
pub open spec fn carries(s: TwoMlsPqSession, w: SessionArchive) -> bool {
    &&& w.state_seq == s.state_seq
    &&& w.session_id@ == s.session_id@
    &&& w.client.0@ == s.client_id@
    &&& (w.my_state.0@, opt_bytes(w.my_state.1)) == s.my_state@
    &&& (w.their_state.0@, opt_bytes(w.their_state.1)) == s.their_state@
    &&& w.pq_turn_mine == s.pq_turn_mine
    &&& opt_bytes(w.spawn_token) == opt_bytes(s.spawn_token)
    &&& s.send_group is Some
    &&& w.recv_group is Some <==> s.recv_group is Some
    &&& wire_ledger_view(w.send_psk_ledger@) == ledger_view(s.send_psk_ledger@)
    &&& wire_refs_view(w.retired_send_psks@) == refs_view(s.retired_send_psks@)
    &&& w.last_cross_injected == s.last_cross_injected
    &&& w.last_cross_injected_pq == s.last_cross_injected_pq
    &&& w.last_send_pq_exported == s.last_send_pq_exported
    &&& w.peer_applied_send_epoch == s.peer_applied_send_epoch
    &&& collected(wire_keys(w.listen_rendezvous@)) == keys(s.listen_rendezvous@)
    &&& collected(wire_keys(w.recv_header_keys@)) == keys(s.recv_header_keys@)
    &&& collected(wire_keys(w.recv_header_keys_pq@)) == keys(s.recv_header_keys_pq@)
    &&& opt_bytes(w.pending_outbound) == opt_bytes(s.pending_outbound)
    &&& opt_bytes(w.pending_proposal_hash) == opt_bytes(s.pending_proposal_hash)
    &&& w.current_staple@ == s.current_staple@
    &&& match (w.pending_proposal_message, s.pending_proposal_message) {
        (Some(p), Some(q)) => p.0@ == q.proposing@ && p.1@ == q.message@,
        (None, None) => true,
        _ => false,
    }
    &&& opt_bytes(w.joined_welcome_digest) == opt_bytes(s.joined_welcome_digest)
    &&& proposal_view(s.offered_proposal) == match w.offered_proposal {
        Some(o) => Some((o.0@, (o.1).1@, (o.1).0@)),
        None => None,
    }
    &&& proposal_view(s.queued_proposal) == match w.queued_proposal {
        Some(q) => Some((q.0@, (q.1).0@, (q.1).1@)),
        None => None,
    }
    &&& identity_ids(w.staged_candidates@) == all_bytes(s.staged_candidates@)
    &&& opt_bytes(w.deferred_candidate) == opt_bytes(s.deferred_candidate)
    &&& opt_bytes(w.pending_side_band) == match s.pending_side_band {
        Some(kept) => Some(kept.frame@),
        None => None,
    }
    &&& match (w.pq_inflight, s.pq_inflight) {
        (Some(p), Some(q)) => wire_inflight_view(p) == inflight_view(q),
        (None, None) => true,
        _ => false,
    }
    &&& match (w.owed_bind, s.owed_bind) {
        (Some(p), Some(q)) => p.0@ == q.pq_commit@ && (p.1).0 == q.t_epoch && (p.1).1
            == q.pq_epoch,
        (None, None) => true,
        _ => false,
    }
    &&& match (w.initial_their_kp, s.initial_their_kp) {
        (Some(p), Some(q)) => p.0@ == q.classical@ && p.1@ == q.pq@,
        (None, None) => true,
        _ => false,
    }
    &&& opt_bytes(w.initial_app_payload) == opt_bytes(s.initial_app_payload)
    &&& opt_bytes(w.initial_return_kp) == opt_bytes(s.initial_return_kp)
    &&& opt_bytes(w.bootstrap_kp) == opt_bytes(s.bootstrap_kp)
    &&& opt_bytes(w.bootstrap_kp_secret) == opt_bytes(s.bootstrap_kp_secret)
    &&& opt_bytes(w.expected_bootstrap_kp_commitment) == opt_bytes(
        s.expected_bootstrap_kp_commitment,
    )
}

/// What the host puts into an archive.
#[derive(Debug)]
pub struct ArchiveMaterial {
    pub client: WireIdentityKeys,
    /// The keys of the rotation candidates, in the session's order.
    pub candidates: Vec<WireIdentityKeys>,
    pub auth_mine: WireSequence,
    pub auth_theirs: WireSequence,
    /// The snapshots of the send group.
    pub send_group: Result<WireGroup>,
    /// The snapshots of the receive group; looked at only if there is one.
    pub recv_group: Result<WireGroup>,
}

/// A snapshot entry as it goes into a blob: without the PQ tree in a core.
pub open spec fn entry_of(entry: WireGroup, include_pq: bool) -> WireGroup {
    if include_pq {
        entry
    } else {
        (entry.0, None)
    }
}

/// Whether a snapshot entry that is to hold the PQ tree does so exactly where the group has a
/// PQ half.
pub open spec fn is_whole(entry: WireGroup, pq_epoch: Option<u64>, include_pq: bool) -> bool {
    include_pq ==> (entry.1 is Some <==> pq_epoch is Some)
}

/// A snapshot entry as it goes into a blob. One that is to be whole must be.
fn group_entry(entry: WireGroup, pq_epoch: Option<u64>, include_pq: bool) -> (r: Result<WireGroup>)
    ensures
        r == if is_whole(entry, pq_epoch, include_pq) {
            Ok(entry_of(entry, include_pq))
        } else {
            Err::<WireGroup, TwoMlsPqError>(TwoMlsPqError::ArchiveInvalid)
        },
{
    if include_pq {
        if entry.1.is_some() == pq_epoch.is_some() {
            Ok(entry)
        } else {
            Err(TwoMlsPqError::ArchiveInvalid)
        }
    } else {
        let (classical, _) = entry;
        Ok((classical, None))
    }
}

/// Write the candidates' identities.
fn wire_candidates(ids: &Vec<Vec<u8>>, candidates: Vec<WireIdentityKeys>) -> (r: Vec<WireIdentity>)
    requires
        candidates@.len() == ids@.len(),
    ensures
        identity_ids(r@) == all_bytes(ids@),
        r@.len() == ids@.len(),
        forall|i: int| 0 <= i < r@.len() ==> (#[trigger] r@[i]).1 == candidates@[i],
{
    let mut left = candidates;
    let mut out: Vec<WireIdentity> = Vec::new();
    while out.len() < ids.len()
        invariant
            out@.len() + left@.len() == ids@.len(),
            candidates@.len() == ids@.len(),
            forall|j: int|
                0 <= j < left@.len() ==> #[trigger] left@[j] == candidates@[out@.len() + j],
            forall|j: int|
                0 <= j < out@.len() ==> (#[trigger] out@[j]).0@ == ids@[j]@ && out@[j].1
                    == candidates@[j],
        decreases left.len(),
    {
        let i: usize = out.len();
        let ghost before = left@;
        let keys = left.remove(0);
        proof {
            assert(keys == before[0]);
            assert forall|j: int| 0 <= j < left@.len() implies #[trigger] left@[j] == candidates@[i
                + 1 + j] by {
                assert(left@[j] == before[j + 1]);
            }
        }
        out.push((copy_bytes(ids[i].as_slice()), keys));
    }
    proof {
        assert(identity_ids(out@) =~= all_bytes(ids@));
    }
    out
}

impl TwoMlsPqSession {
    /// Why an archive cannot be made: a snapshot is missing, or one that goes out whole has a
    /// PQ tree where the group has no PQ half, or none where it has one.
    pub open spec fn archive_error(&self, m: ArchiveMaterial, include_pq: bool) -> Option<
        TwoMlsPqError,
    > {
        if self.send_group is None {
            Some(TwoMlsPqError::SessionNotReady)
        } else if m.send_group is Err {
            Some(m.send_group->Err_0)
        } else if !is_whole(m.send_group->Ok_0, pq_epoch_of(self.send_group), include_pq) {
            Some(TwoMlsPqError::ArchiveInvalid)
        } else if self.recv_group is Some && m.recv_group is Err {
            Some(m.recv_group->Err_0)
        } else if self.recv_group is Some && !is_whole(
            m.recv_group->Ok_0,
            pq_epoch_of(self.recv_group),
            include_pq,
        ) {
            Some(TwoMlsPqError::ArchiveInvalid)
        } else {
            None
        }
    }

    /// Whether `w` is the archive of the session, made with what the host gave.
    pub open spec fn archived_as(
        &self,
        m: ArchiveMaterial,
        include_pq: bool,
        w: SessionArchive,
    ) -> bool {
        &&& carries(*self, w)
        &&& (w.send_pq_epoch, w.recv_pq_epoch) == self.spec_pq_epochs()
        &&& is_whole(w.send_group, w.send_pq_epoch, include_pq)
        &&& w.recv_group matches Some(recv) ==> is_whole(recv, w.recv_pq_epoch, include_pq)
        &&& w.client.1 == m.client
        &&& w.staged_candidates@.len() == m.candidates@.len()
        &&& forall|i: int|
            0 <= i < m.candidates@.len() ==> (#[trigger] w.staged_candidates@[i]).1
                == m.candidates@[i]
        &&& w.auth_mine == m.auth_mine
        &&& w.auth_theirs == m.auth_theirs
        &&& w.send_group == entry_of(m.send_group->Ok_0, include_pq)
        &&& w.recv_group == if self.recv_group is Some {
            Some(entry_of(m.recv_group->Ok_0, include_pq))
        } else {
            None
        }
        &&& wire_keys(w.listen_rendezvous@) == keys(self.listen_rendezvous@)
        &&& wire_keys(w.recv_header_keys@) == keys(self.recv_header_keys@)
        &&& wire_keys(w.recv_header_keys_pq@) == keys(self.recv_header_keys_pq@)
    }

    /// Make the archive of the session. A core leaves the PQ trees out, and says which epochs
    /// they were at; any other archive holds the PQ tree of every group that has a PQ half. The session listens on its current epoch from then on, so that what is
    /// written agrees with the snapshots.
    pub fn build_archive_wire(&mut self, include_pq: bool, material: ArchiveMaterial) -> (r: Result<
        SessionArchive,
    >)
        requires
            old(self).wf(),
            material.candidates@.len() == old(self).staged_candidates@.len(),
        ensures
            final(self).wf(),
            old(self).sound() ==> final(self).sound(),
            old(self).live() ==> final(self).live(),
            final(self).since(*old(self)),
            old(self).side_band_settled() && r is Ok ==> final(self).side_band_settled(),
            listening(*old(self), true, *final(self)),
            match old(self).archive_error(material, include_pq) {
                Some(e) => r == Err::<SessionArchive, TwoMlsPqError>(e),
                None => r matches Ok(w) && final(self).archived_as(material, include_pq, w),
            },
    {
        self.record_listen_rendezvous();
        let ArchiveMaterial { client, candidates, auth_mine, auth_theirs, send_group, recv_group } =
            material;
        if self.send_group.is_none() {
            return Err(TwoMlsPqError::SessionNotReady);
        }
        let (send_pq_epoch, recv_pq_epoch) = self.pq_epochs();
        let send_group = match send_group {
            Err(e) => return Err(e),
            Ok(entry) => match group_entry(entry, send_pq_epoch, include_pq) {
                Err(e) => return Err(e),
                Ok(entry) => entry,
            },
        };
        let recv_group = if self.recv_group.is_some() {
            match recv_group {
                Err(e) => return Err(e),
                Ok(entry) => match group_entry(entry, recv_pq_epoch, include_pq) {
                    Err(e) => return Err(e),
                    Ok(entry) => Some(entry),
                },
            }
        } else {
            None
        };
        proof {
            lemma_collected_in_order(keys(self.listen_rendezvous@));
            lemma_collected_in_order(keys(self.recv_header_keys@));
            lemma_collected_in_order(keys(self.recv_header_keys_pq@));
        }
        Ok(
            SessionArchive {
                state_seq: self.state_seq,
                send_pq_epoch,
                recv_pq_epoch,
                session_id: copy_bytes(self.session_id.bytes.as_slice()),
                client: (copy_bytes(self.client_id.bytes.as_slice()), client),
                my_state: wire_principal_state(&self.my_state),
                their_state: wire_principal_state(&self.their_state),
                pq_turn_mine: self.pq_turn_mine,
                spawn_token: copy_opt(&self.spawn_token),
                send_group,
                recv_group,
                send_psk_ledger: wire_ledger(&self.send_psk_ledger),
                retired_send_psks: wire_refs(&self.retired_send_psks),
                last_cross_injected: self.last_cross_injected,
                last_cross_injected_pq: self.last_cross_injected_pq,
                last_send_pq_exported: self.last_send_pq_exported,
                peer_applied_send_epoch: self.peer_applied_send_epoch,
                listen_rendezvous: wire_window(&self.listen_rendezvous),
                recv_header_keys: wire_window(&self.recv_header_keys),
                recv_header_keys_pq: wire_window(&self.recv_header_keys_pq),
                pending_outbound: copy_opt(&self.pending_outbound),
                pending_proposal_hash: copy_opt(&self.pending_proposal_hash),
                current_staple: copy_bytes(self.current_staple.as_slice()),
                pending_proposal_message: match &self.pending_proposal_message {
                    Some(p) => Some(
                        (copy_bytes(p.proposing.as_slice()), copy_bytes(p.message.as_slice())),
                    ),
                    None => None,
                },
                joined_welcome_digest: copy_opt(&self.joined_welcome_digest),
                offered_proposal: match &self.offered_proposal {
                    Some(p) => Some(
                        (
                            copy_bytes(p.digest.as_slice()),
                            (copy_bytes(p.message.as_slice()), copy_bytes(p.proposing.as_slice())),
                        ),
                    ),
                    None => None,
                },
                queued_proposal: match &self.queued_proposal {
                    Some(p) => Some(
                        (
                            copy_bytes(p.digest.as_slice()),
                            (copy_bytes(p.proposing.as_slice()), copy_bytes(p.message.as_slice())),
                        ),
                    ),
                    None => None,
                },
                staged_candidates: wire_candidates(&self.staged_candidates, candidates),
                deferred_candidate: copy_opt(&self.deferred_candidate),
                auth_mine,
                auth_theirs,
                pending_side_band: match &self.pending_side_band {
                    Some(kept) => Some(copy_bytes(kept.frame.as_slice())),
                    None => None,
                },
                pq_inflight: match &self.pq_inflight {
                    Some(p) => Some(wire_pq_inflight(p)),
                    None => None,
                },
                owed_bind: match &self.owed_bind {
                    Some(o) => Some(
                        (copy_bytes(o.pq_commit.as_slice()), (o.t_epoch, o.pq_epoch)),
                    ),
                    None => None,
                },
                initial_their_kp: match &self.initial_their_kp {
                    Some(kp) => Some(
                        (copy_bytes(kp.classical.as_slice()), copy_bytes(kp.pq.as_slice())),
                    ),
                    None => None,
                },
                initial_app_payload: copy_opt(&self.initial_app_payload),
                initial_return_kp: copy_opt(&self.initial_return_kp),
                bootstrap_kp: copy_opt(&self.bootstrap_kp),
                bootstrap_kp_secret: copy_opt(&self.bootstrap_kp_secret),
                expected_bootstrap_kp_commitment: copy_opt(&self.expected_bootstrap_kp_commitment),
            },
        )
    }
}

// ---- restoring ----

/// Whether every value of a written window has this length.
pub open spec fn window_lengths(w: Seq<WireEpochKey>, len: nat) -> bool {
    forall|i: int| 0 <= i < w.len() ==> (#[trigger] w[i]).1@.len() == len
}

/// Whether every value of a written window has this length.
fn window_lengths_ok(w: &Vec<WireEpochKey>, len: usize) -> (r: bool)
    ensures
        r == window_lengths(w@, len as nat),
{
    let mut i: usize = 0;
    while i < w.len()
        invariant
            i <= w.len(),
            forall|j: int| 0 <= j < i ==> (#[trigger] w@[j]).1@.len() == len,
        decreases w.len() - i,
    {
        if w[i].1.len() != len {
            return false;
        }
        i += 1;
    }
    true
}

/// Whether an optional digest is of a digest's length.
pub open spec fn is_digest(d: Option<Vec<u8>>) -> bool {
    d matches Some(v) ==> v@.len() == DIGEST_LEN
}

/// Whether an optional digest is of a digest's length.
fn digest_ok(d: &Option<Vec<u8>>) -> (r: bool)
    ensures
        r == is_digest(*d),
{
    match d {
        Some(v) => v.len() == DIGEST_LEN,
        None => true,
    }
}

/// Whether an archive can be of a live session: its ledger is bounded, what should be a
/// digest, an address or a header key is of that length, and the staple is of one of its
/// forms: a welcome, a commit, or a commit with the PQ one that it binds.
pub open spec fn is_plausible(w: SessionArchive) -> bool {
    &&& w.send_psk_ledger@.len() <= SEND_PSK_WINDOW
    &&& is_digest(w.pending_proposal_hash)
    &&& w.offered_proposal matches Some(o) ==> o.0@.len() == DIGEST_LEN
    &&& w.queued_proposal matches Some(q) ==> q.0@.len() == DIGEST_LEN
    &&& is_digest(w.joined_welcome_digest)
    &&& window_lengths(w.listen_rendezvous@, RENDEZVOUS_LEN as nat)
    &&& window_lengths(w.recv_header_keys@, HEADER_KEY_LEN as nat)
    &&& window_lengths(w.recv_header_keys_pq@, HEADER_KEY_LEN as nat)
    &&& is_staple(w.current_staple@)
}

/// Check that an archive can be of a live session.
pub fn check_archive(w: &SessionArchive) -> (r: Result<()>)
    ensures
        r == if is_plausible(*w) {
            Ok::<(), TwoMlsPqError>(())
        } else {
            Err(TwoMlsPqError::ArchiveInvalid)
        },
{
    if w.send_psk_ledger.len() > SEND_PSK_WINDOW {
        return Err(TwoMlsPqError::ArchiveInvalid);
    }
    let offered_ok = match &w.offered_proposal {
        Some(o) => o.0.len() == DIGEST_LEN,
        None => true,
    };
    let queued_ok = match &w.queued_proposal {
        Some(q) => q.0.len() == DIGEST_LEN,
        None => true,
    };
    if !digest_ok(&w.pending_proposal_hash) || !offered_ok || !queued_ok || !digest_ok(
        &w.joined_welcome_digest,
    ) {
        return Err(TwoMlsPqError::ArchiveInvalid);
    }
    if !window_lengths_ok(&w.listen_rendezvous, RENDEZVOUS_LEN) {
        return Err(TwoMlsPqError::ArchiveInvalid);
    }
    let key_len: usize = match header_key_len() {
        Err(e) => return Err(e),
        Ok(n) => n,
    };
    if !window_lengths_ok(&w.recv_header_keys, key_len) || !window_lengths_ok(
        &w.recv_header_keys_pq,
        key_len,
    ) {
        return Err(TwoMlsPqError::ArchiveInvalid);
    }
    if w.current_staple.len() == 0 {
        return Err(TwoMlsPqError::ArchiveInvalid);
    }
    let tag: u8 = w.current_staple[0];
    if tag != 0 && tag != APQ_TAG && tag != APQ_PRIVATE_MESSAGE_TAG {
        return Err(TwoMlsPqError::ArchiveInvalid);
    }
    Ok(())
}

/// What the host loaded from an archive, in order.
#[derive(Debug)]
pub struct LoadedMaterial {
    /// Rebuilding the current identity.
    pub client: Result<()>,
    /// Rebuilding the candidates' identities.
    pub candidates: Result<()>,
    pub send_group: Result<CombinerGroup>,
    /// Looked at only if the archive has a receive group.
    pub recv_group: Result<CombinerGroup>,
    /// Rebuilding the ledger's PSKs.
    pub psks: Result<()>,
}

/// Why an archive is not restored.
pub open spec fn restore_error(w: SessionArchive, m: LoadedMaterial) -> Option<TwoMlsPqError> {
    if !is_plausible(w) {
        Some(TwoMlsPqError::ArchiveInvalid)
    } else if m.client is Err {
        Some(m.client->Err_0)
    } else if m.candidates is Err {
        Some(m.candidates->Err_0)
    } else if w.pq_inflight is Some && !is_inflight(w.pq_inflight->0) {
        Some(TwoMlsPqError::ArchiveInvalid)
    } else if m.send_group is Err {
        Some(m.send_group->Err_0)
    } else if w.recv_group is Some && m.recv_group is Err {
        Some(m.recv_group->Err_0)
    } else if m.psks is Err {
        Some(m.psks->Err_0)
    } else {
        None
    }
}

/// Whether `s` is the session that an archive and what was loaded from it restore to. What is
/// not archived starts afresh: no hook is attached, nothing is to be pushed or told, no seal
/// is cached, receiving works, and the staple waits for the archived sequence number, which is
/// never too early.
pub open spec fn restored(s: TwoMlsPqSession, w: SessionArchive, m: LoadedMaterial) -> bool {
    &&& carries(s, w)
    &&& s.suite == apq_suite()
    &&& s.send_group == Some(m.send_group->Ok_0)
    &&& s.recv_group == if w.recv_group is Some {
        Some(m.recv_group->Ok_0)
    } else {
        None
    }
    &&& s.current_staple_seq == w.state_seq
    &&& !s.bind_apply_broken
    &&& !s.sink_installed
    &&& s.push is None
    &&& s.auth_updates@.len() == 0
    &&& s.pending_side_band matches Some(kept) ==> kept.seal is None
}

/// Whether the send group that was loaded is the archived one as far as the session can tell:
/// its exporters have their lengths, it is not behind what the peer has applied of it, and it
/// is at the epochs that an owed bind reserved.
pub open spec fn loads_group(w: SessionArchive, m: LoadedMaterial) -> bool {
    &&& m.send_group matches Ok(g) && group_exports(g)
    &&& w.peer_applied_send_epoch matches Some(applied) ==> applied
        <= m.send_group->Ok_0.classical.epoch
    &&& w.owed_bind matches Some(owed) ==> m.send_group->Ok_0.classical.epoch + 1 == (owed.1).0
        && pq_epoch_of(Some(m.send_group->Ok_0)) == Some((owed.1).1)
}

/// The client ids of written identities.
fn ids_from_wire(w: Vec<WireIdentity>) -> (r: Vec<Vec<u8>>)
    ensures
        all_bytes(r@) == identity_ids(w@),
{
    let mut out: Vec<Vec<u8>> = Vec::new();
    let mut i: usize = 0;
    while i < w.len()
        invariant
            i <= w.len(),
            out@.len() == i,
            forall|j: int| 0 <= j < i ==> (#[trigger] out@[j])@ == w@[j].0@,
        decreases w.len() - i,
    {
        out.push(copy_bytes(w[i].0.as_slice()));
        i += 1;
    }
    proof {
        assert(all_bytes(out@) =~= identity_ids(w@));
    }
    out
}

/// Restore a session from an archive and what was loaded from it.
pub fn session_from_wire(wire: SessionArchive, loaded: LoadedMaterial) -> (r: Result<
    TwoMlsPqSession,
>)
    ensures
        match restore_error(wire, loaded) {
            Some(e) => r == Err::<TwoMlsPqSession, TwoMlsPqError>(e),
            None => {
                &&& r matches Ok(s)
                &&& s.wf()
                &&& restored(s, wire, loaded)
                &&& loads_group(wire, loaded) ==> s.live()
            },
        },
{
    match check_archive(&wire) {
        Err(e) => return Err(e),
        Ok(()) => {},
    }
    let LoadedMaterial { client, candidates, send_group, recv_group, psks } = loaded;
    match client {
        Err(e) => return Err(e),
        Ok(()) => {},
    }
    match candidates {
        Err(e) => return Err(e),
        Ok(()) => {},
    }
    let pq_inflight = match wire.pq_inflight {
        None => None,
        Some(p) => match pq_inflight_from_wire(p) {
            Err(e) => return Err(e),
            Ok(p) => Some(p),
        },
    };
    let send_group = match send_group {
        Err(e) => return Err(e),
        Ok(g) => g,
    };
    let recv_group = match wire.recv_group {
        None => None,
        Some(_) => match recv_group {
            Err(e) => return Err(e),
            Ok(g) => Some(g),
        },
    };
    match psks {
        Err(e) => return Err(e),
        Ok(()) => {},
    }
    let (client_id, _) = wire.client;
    proof {
        lemma_collected_lengths(wire_keys(wire.listen_rendezvous@), RENDEZVOUS_LEN as nat);
        lemma_collected_lengths(wire_keys(wire.recv_header_keys@), HEADER_KEY_LEN as nat);
        lemma_collected_lengths(wire_keys(wire.recv_header_keys_pq@), HEADER_KEY_LEN as nat);
    }
    Ok(
        TwoMlsPqSession {
            client_id: ClientId { bytes: client_id },
            suite: ApqCipherSuite { classical: CLASSICAL_SUITE, pq: PQ_SUITE },
            send_group: Some(send_group),
            recv_group,
            pending_outbound: wire.pending_outbound,
            pending_proposal_hash: wire.pending_proposal_hash,
            current_staple: wire.current_staple,
            current_staple_seq: wire.state_seq,
            pending_proposal_message: match wire.pending_proposal_message {
                Some((proposing, message)) => Some(StagedProposal { proposing, message }),
                None => None,
            },
            joined_welcome_digest: wire.joined_welcome_digest,
            offered_proposal: match wire.offered_proposal {
                Some((digest, (message, proposing))) => Some(
                    PeerProposal { digest, proposing, message },
                ),
                None => None,
            },
            queued_proposal: match wire.queued_proposal {
                Some((digest, (proposing, message))) => Some(
                    PeerProposal { digest, proposing, message },
                ),
                None => None,
            },
            staged_candidates: ids_from_wire(wire.staged_candidates),
            deferred_candidate: wire.deferred_candidate,
            pq_inflight,
            session_id: SessionId { bytes: wire.session_id },
            state_seq: wire.state_seq,
            my_state: principal_state_from_wire(wire.my_state),
            their_state: principal_state_from_wire(wire.their_state),
            pending_side_band: match wire.pending_side_band {
                Some(frame) => Some(RetainedFrame::unsealed(frame)),
                None => None,
            },
            owed_bind: match wire.owed_bind {
                Some((pq_commit, (t_epoch, pq_epoch))) => Some(
                    OwedBind { pq_commit, t_epoch, pq_epoch },
                ),
                None => None,
            },
            pq_turn_mine: wire.pq_turn_mine,
            bind_apply_broken: false,
            send_psk_ledger: ledger_from_wire(wire.send_psk_ledger),
            retired_send_psks: refs_from_wire(wire.retired_send_psks),
            last_cross_injected: wire.last_cross_injected,
            peer_applied_send_epoch: wire.peer_applied_send_epoch,
            last_cross_injected_pq: wire.last_cross_injected_pq,
            last_send_pq_exported: wire.last_send_pq_exported,
            listen_rendezvous: window_from_wire(wire.listen_rendezvous),
            recv_header_keys: window_from_wire(wire.recv_header_keys),
            recv_header_keys_pq: window_from_wire(wire.recv_header_keys_pq),
            spawn_token: wire.spawn_token,
            initial_their_kp: match wire.initial_their_kp {
                Some((classical, pq)) => Some(CombinerKeyPackage { classical, pq }),
                None => None,
            },
            initial_app_payload: wire.initial_app_payload,
            initial_return_kp: wire.initial_return_kp,
            bootstrap_kp: wire.bootstrap_kp,
            bootstrap_kp_secret: wire.bootstrap_kp_secret,
            expected_bootstrap_kp_commitment: wire.expected_bootstrap_kp_commitment,
            sink_installed: false,
            push: None,
            auth_updates: Vec::new(),
        },
    )
}

impl TwoMlsPqSession {
    /// The session as one blob, PQ trees included.
    pub fn encode_checkpoint(&mut self, material: ArchiveMaterial) -> (r: Result<Vec<u8>>)
        requires
            old(self).wf(),
            material.candidates@.len() == old(self).staged_candidates@.len(),
        ensures
            final(self).wf(),
            old(self).sound() ==> final(self).sound(),
            old(self).live() ==> final(self).live(),
            final(self).since(*old(self)),
            old(self).side_band_settled() && r is Ok ==> final(self).side_band_settled(),
            listening(*old(self), true, *final(self)),
            final(self).is_blob_of(material, true, r),
    {
        match self.build_archive_wire(true, material) {
            Err(e) => Err(e),
            Ok(wire) => encode_archive(self.suite, wire),
        }
    }

    /// The session as one blob without the PQ trees.
    pub fn encode_core(&mut self, material: ArchiveMaterial) -> (r: Result<Vec<u8>>)
        requires
            old(self).wf(),
            material.candidates@.len() == old(self).staged_candidates@.len(),
        ensures
            final(self).wf(),
            old(self).sound() ==> final(self).sound(),
            old(self).live() ==> final(self).live(),
            final(self).since(*old(self)),
            old(self).side_band_settled() && r is Ok ==> final(self).side_band_settled(),
            listening(*old(self), true, *final(self)),
            final(self).is_blob_of(material, false, r),
    {
        match self.build_archive_wire(false, material) {
            Err(e) => Err(e),
            Ok(wire) => encode_archive(self.suite, wire),
        }
    }

    /// Whether `r` is the blob of the session, made with what the host gave, or why there is
    /// none: a snapshot is missing or not whole, or a part is too long.
    pub open spec fn is_blob_of(
        &self,
        m: ArchiveMaterial,
        include_pq: bool,
        r: Result<Vec<u8>>,
    ) -> bool {
        match self.archive_error(m, include_pq) {
            Some(e) => r == Err::<Vec<u8>, TwoMlsPqError>(e),
            None => exists|w: SessionArchive| #[trigger]
                self.archived_as(m, include_pq, w) && match r {
                    Ok(b) => archive_fits(w.parts().deep_view()) && b@ == archive_bytes(
                        self.suite,
                        w.parts().deep_view(),
                    ),
                    Err(e) => !archive_fits(w.parts().deep_view()) && e
                        == TwoMlsPqError::ArchiveInvalid,
                },
        }
    }

    /// Serialise the session as one blob. A session can be archived at any time, in the middle
    /// of a round too.
    pub fn archive(&mut self, material: ArchiveMaterial) -> (r: Result<Archive>)
        requires
            old(self).wf(),
            material.candidates@.len() == old(self).staged_candidates@.len(),
        ensures
            final(self).wf(),
            old(self).sound() ==> final(self).sound(),
            old(self).live() ==> final(self).live(),
            final(self).since(*old(self)),
            old(self).side_band_settled() && r is Ok ==> final(self).side_band_settled(),
            listening(*old(self), true, *final(self)),
            match r {
                Ok(a) => final(self).is_blob_of(material, true, Ok(a.bytes)),
                Err(e) => final(self).is_blob_of(material, true, Err(e)),
            },
    {
        match self.encode_checkpoint(material) {
            Ok(bytes) => Ok(Archive { bytes }),
            Err(e) => Err(e),
        }
    }

    /// Restore a session from one blob. `loaded` is what the host loaded from what
    /// `decode_wire` reads in it.
    pub fn from_archive(archive: &Archive, loaded: LoadedMaterial) -> (r: Result<TwoMlsPqSession>)
        ensures
            is_restored_from(archive@, loaded, r),
    {
        match decode_wire(archive) {
            Err(e) => Err(e),
            Ok(wire) => {
                let r = session_from_wire(wire, loaded);
                proof {
                    assert(is_archive(archive@, wire));
                }
                r
            },
        }
    }

    /// Restore a session from the last pushed core and the last pushed checkpoint. `loaded` is
    /// what the host loaded from what `reconcile_persisted` makes of them.
    pub fn from_persisted(
        core: &Option<Archive>,
        checkpoint: &Option<Archive>,
        loaded: LoadedMaterial,
    ) -> (r: Result<TwoMlsPqSession>)
        ensures
            match (*checkpoint, *core) {
                (None, _) => r == Err::<TwoMlsPqSession, TwoMlsPqError>(
                    TwoMlsPqError::ArchiveInvalid,
                ),
                (Some(ck), None) => is_restored_from(ck@, loaded, r),
                (Some(ck), Some(c)) => {
                    ||| is_unreadable(ck@) && r == Err::<TwoMlsPqSession, TwoMlsPqError>(
                        TwoMlsPqError::ArchiveInvalid,
                    )
                    ||| is_unreadable(c@) && r == Err::<TwoMlsPqSession, TwoMlsPqError>(
                        TwoMlsPqError::ArchiveInvalid,
                    )
                    ||| exists|a: SessionArchive, b: SessionArchive|
                        is_archive(c@, a) && is_archive(ck@, b) && match #[trigger] reconciled(
                            a,
                            b,
                        ) {
                            Err(e) => r == Err::<TwoMlsPqSession, TwoMlsPqError>(e),
                            Ok(w) => is_restored(w, loaded, r),
                        }
                },
            },
    {
        match reconcile_persisted(core, checkpoint) {
            Err(e) => Err(e),
            Ok(wire) => session_from_wire(wire, loaded),
        }
    }
}

/// Whether `r` is what restoring an archive gives.
pub open spec fn is_restored(
    w: SessionArchive,
    loaded: LoadedMaterial,
    r: Result<TwoMlsPqSession>,
) -> bool {
    match restore_error(w, loaded) {
        Some(e) => r == Err::<TwoMlsPqSession, TwoMlsPqError>(e),
        None => {
            &&& r matches Ok(s)
            &&& s.wf()
            &&& restored(s, w, loaded)
            &&& loads_group(w, loaded) ==> s.live()
        },
    }
}

/// Whether `r` is what restoring a blob gives.
pub open spec fn is_restored_from(
    blob: Seq<u8>,
    loaded: LoadedMaterial,
    r: Result<TwoMlsPqSession>,
) -> bool {
    ||| is_unreadable(blob) && r == Err::<TwoMlsPqSession, TwoMlsPqError>(
        TwoMlsPqError::ArchiveInvalid,
    )
    ||| exists|w: SessionArchive| #[trigger] is_archive(blob, w) && is_restored(w, loaded, r)
}

} // verus!
