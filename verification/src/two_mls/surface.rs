//! What a caller of the classical surface sees, said of the calls: what of a message, a round or an
//! offer reaches it, and how one call answers another.

use std::sync::Arc;
use vstd::prelude::*;
use crate::bytes::first_byte;
use crate::pq::archive::{ArchiveMaterial, LoadedMaterial};
use crate::pq::conduct::{current_id, lemma_adds_to, next_id};
use crate::pq::error::TwoMlsPqError;
use crate::pq::frames::{message_parts, APQ_PRIVATE_MESSAGE_TAG, APQ_TAG, MESSAGE_FRAME_TAG};
use crate::pq::incoming::{self, IncomingOutcome, StaplePlan};
use crate::pq::messaging::{channels, frame_of, ProcessedProposal};
use crate::pq::prepare::PrepareOutcome;
use crate::pq::providers::{key_package_framing, key_package_of, mls_epoch_of, sha256_of};
use crate::pq::reception::{
    carries_message, lemma_commits_are_reported, lemma_message_is_reported, reads_on,
};
use crate::pq::sealing::{opened_or_raw, sealed_as};
use crate::pq::state::{keys, steps, AuthKind, GroupHalf, TwoMlsPqSession};
use crate::types::{
    Archive, ClientId, CombinerKeyPackage, MlsGroupId, MlsSenderMessage, RendezvousId, SessionId,
};
use super::cipher_suite::MlsCipherSuite;
use super::error::{Result, TwoMlsError};
use super::key_packages::{
    parse_combiner_key_package, parse_mls_key_package, MlsKeyPackage, ParsedCombinerKeyPackage,
    TwoMlsClient,
};
use super::psk::{export_psk, law_psk_id_encoding_is_injective, BoundPsk, PskId};
use super::records::{
    AgentState, DecryptResult, EncryptResult, ListenChannels, PrepareEncryptResult, TwoMlsDigest,
};
use super::session::{
    law_archive_gives_back, loads_back, map_session_err, reports_incoming, TwoMlsSession,
};

verus! {

/// What was decrypted out of a frame that the session reads reaches the caller: where the
/// frame's staple stands and its app message was decrypted, the caller gets the data, the
/// sender's id and the epoch, and the proposal that came with it under its digest.
pub proof fn law_message_reaches_the_caller(
    s: &mut TwoMlsSession,
    blob: Vec<u8>,
    staple: Seq<u8>,
    proposing: Seq<u8>,
    proposal: Seq<u8>,
    plan: StaplePlan,
    out: IncomingOutcome,
    r: Result<Option<DecryptResult>>,
)
    requires
        call_ensures(TwoMlsSession::process_incoming, (s, blob, out), r),
        reads_on(old(s).inner, blob@, staple, proposing, proposal, plan, out),
        out.app is Some,
    ensures
        ({
            &&& r matches Ok(Some(d))
            &&& final(s).inner.recv_group matches Some(g)
            &&& d.application_message matches Some(m)
            &&& m.app_message_data@ == out.app->0.data@
            &&& m.sender_client_id.bytes@ == out.app->0.sender@
            &&& m.epoch == g.classical.epoch
            &&& d.proposal matches Some(p)
            &&& p.digest.hash_type == 0x12
            &&& p.digest.digest@ == sha256_of(proposal)
            &&& p.proposing.bytes@ == proposing
            &&& p.sender.bytes@ == out.app->0.sender@
            &&& p.context.hash_type == 0x12
            &&& p.context.digest@ == sha256_of(g.classical.group_id@)
            &&& final(s).inner.offered_proposal matches Some(offer)
            &&& offer.digest@ == p.digest.digest@
            &&& offer.message@ == proposal
        }),
{
    let q = choose|q: crate::pq::error::Result<Option<incoming::DecryptResult>>| #[trigger]
        old(s).inner.blob_processed(blob@, out, final(s).inner, q) && reports_incoming(q, r);
    lemma_message_is_reported(
        old(s).inner,
        blob@,
        staple,
        proposing,
        proposal,
        plan,
        out,
        final(s).inner,
        q,
    );
}

/// A commit of the peer reaches the caller with the ids that both sides have after it, and none
/// that was applied goes unreported.
pub proof fn law_commit_reaches_the_caller(
    s: &mut TwoMlsSession,
    blob: Vec<u8>,
    out: IncomingOutcome,
    d: DecryptResult,
)
    requires
        call_ensures(TwoMlsSession::process_incoming, (s, blob, out), Ok(Some(d))),
    ensures
        d.remote_commit matches Some(c) ==> {
            &&& c.new_recipient.bytes@ == current_id(final(s).inner.my_state)
            &&& c.new_sender matches Some(id) ==> id.bytes@ == current_id(
                final(s).inner.their_state,
            )
        },
        current_id(final(s).inner.their_state) != current_id(old(s).inner.their_state) ==> {
            &&& d.remote_commit matches Some(c)
            &&& c.new_sender is Some
        },
        old(s).inner.recv_group is Some && final(s).inner.recv_group != old(s).inner.recv_group
            ==> d.remote_commit is Some,
{
    let r = Ok::<Option<DecryptResult>, TwoMlsError>(Some(d));
    let q = choose|q: crate::pq::error::Result<Option<incoming::DecryptResult>>| #[trigger]
        old(s).inner.blob_processed(blob@, out, final(s).inner, q) && reports_incoming(q, r);
    lemma_commits_are_reported(old(s).inner, blob@, out, final(s).inner, q->Ok_0);
}

/// A frame that is ahead of the receive group, with a commit between that never came, is reported
/// as nothing, and changes nothing: the caller is to join anew.
pub proof fn law_missed_commit_is_reported_as_nothing(
    s: &mut TwoMlsSession,
    blob: Vec<u8>,
    out: IncomingOutcome,
    r: Result<Option<DecryptResult>>,
)
    requires
        call_ensures(TwoMlsSession::process_incoming, (s, blob, out), r),
        !old(s).inner.bind_apply_broken,
        ({
            let frame = opened_or_raw(old(s).inner, blob@);
            &&& first_byte(frame) == Some(MESSAGE_FRAME_TAG)
            &&& carries_message(frame)
            &&& message_parts(frame) matches Some((staple, carried, app))
            &&& first_byte(staple) != Some(APQ_TAG)
            &&& first_byte(staple) != Some(APQ_PRIVATE_MESSAGE_TAG)
            &&& mls_epoch_of(staple) matches Some(Some(epoch))
            &&& old(s).inner.recv_group matches Some(g)
            &&& epoch > g.classical.epoch
        }),
    ensures
        r matches Ok(None),
        *final(s) == *old(s),
{
}

/// The offer that was reported with a message is approved under the digest that it was reported
/// with, if it is an update that the session takes; a digest of another hash names no offer.
pub proof fn law_offer_is_approved_by_its_digest(
    s: &mut TwoMlsSession,
    digest: TwoMlsDigest,
    processed: &ProcessedProposal,
    r: Result<()>,
)
    requires
        call_ensures(TwoMlsSession::queue_proposal, (s, digest, processed), r),
    ensures
        r is Ok ==> {
            &&& old(s).inner.offered_proposal matches Some(offer)
            &&& digest.hash_type == 0x12
            &&& offer.digest@ == digest.digest@
            &&& final(s).inner.queued_proposal == Some(offer)
            &&& final(s).inner.offered_proposal is None
            &&& final(s).inner.auth_updates@.len() == old(s).inner.auth_updates@.len() + 1
            &&& final(s).inner.auth_updates@.last().kind == AuthKind::AuthorizeTheirs
            &&& final(s).inner.auth_updates@.last().id@ == offer.proposing@
        },
        r is Err ==> {
            &&& final(s).inner.queued_proposal == old(s).inner.queued_proposal
            &&& final(s).inner.offered_proposal == old(s).inner.offered_proposal
            &&& final(s).inner.auth_updates == old(s).inner.auth_updates
        },
        digest.hash_type != 0x12 ==> r == Err::<(), TwoMlsError>(TwoMlsError::ProposalRejected)
            && *final(s) == *old(s),
        old(s).inner.offered_proposal is None || old(s).inner.offered_proposal->0.digest@
            != digest.digest@ ==> r == Err::<(), TwoMlsError>(TwoMlsError::ProposalRejected),
{
    if r is Ok {
        let id = old(s).inner.offered_proposal->0.proposing@;
        let (was, is) = (old(s).inner.auth_updates@, final(s).inner.auth_updates@);
        assert(steps(is) =~= steps(was) + seq![(AuthKind::AuthorizeTheirs, id)]);
        lemma_adds_to(was, is, seq![(AuthKind::AuthorizeTheirs, id)]);
    }
}

/// What is reported of a prepared round: the digest that its app message is to be bound to, and
/// the id of the peer that it committed, exactly where one was approved. It says that it committed
/// exactly where the send group moved.
pub proof fn law_round_is_reported(
    s: &mut TwoMlsSession,
    proposing: Option<ClientId>,
    out: PrepareOutcome,
    r: Result<Option<PrepareEncryptResult>>,
    t: &TwoMlsPqSession,
    aad: crate::pq::error::Result<Vec<u8>>,
)
    requires
        call_ensures(TwoMlsSession::prepare_to_encrypt, (s, proposing, out), r),
        r is Ok,
        *t == final(s).inner,
        call_ensures(TwoMlsPqSession::encrypt_plan, (t,), aad),
        old(s).inner.send_group is Some,
    ensures
        ({
            &&& r matches Ok(Some(p))
            &&& aad matches Ok(bytes)
            &&& p.proposal_hash.hash_type == 0x12
            &&& p.proposal_hash.digest@ == bytes@
            &&& old(s).inner.recv_group is Some ==> p.proposal_hash.digest@ == sha256_of(
                out.update.message->Ok_0@,
            )
            &&& !p.did_commit ==> {
                &&& final(s).inner.send_group == old(s).inner.send_group
                &&& final(s).inner.current_staple@ == old(s).inner.current_staple@
            }
            &&& p.did_commit ==> final(s).inner.current_staple_seq == final(s).inner.state_seq
                && final(s).inner.send_group->0.classical == out.round.commit.built->Ok_0.half
            &&& old(s).inner.recv_group is Some ==> match old(s).inner.queued_proposal {
                Some(approved) => p.did_commit && p.commited_remote_client_id is Some
                    && p.commited_remote_client_id->0.bytes@ == approved.proposing@ && current_id(
                    final(s).inner.their_state,
                ) == approved.proposing@,
                None => p.commited_remote_client_id is None,
            }
        }),
{
}

/// What is sent: an established session's message is its frame, sealed under the receive group's
/// header key, with the staple, the staged proposal and the app message in it; before that it is
/// the envelope that was sealed. It names both ends and the send group's epoch.
pub proof fn law_message_is_sent_whole(
    s: &mut TwoMlsSession,
    app: Option<Vec<u8>>,
    envelope: crate::pq::error::Result<Vec<u8>>,
    sent: EncryptResult,
)
    requires
        call_ensures(TwoMlsSession::encrypt, (s, app, envelope), Ok(sent)),
    ensures
        sent.sender.bytes@ == current_id(old(s).inner.my_state),
        sent.recipient.bytes@ == current_id(old(s).inner.their_state),
        old(s).inner.send_group matches Some(g) && sent.epoch == g.classical.epoch,
        app is Some,
        match old(s).inner.pending_proposal_message {
            Some(staged) => old(s).inner.recv_group matches Some(g) && sealed_as(
                sent.cipher_text@,
                g.classical.header_key@,
                frame_of(
                    old(s).inner.current_staple@,
                    staged.proposing@,
                    staged.message@,
                    app->0@,
                ),
            ),
            None => envelope matches Ok(e) && sent.cipher_text@ == e@,
        },
        final(s).inner.pending_proposal_hash is None,
{
}

/// Which errors of the session a caller sees as which: each kind of the surface stands for its
/// own and for no other.
pub proof fn law_errors_are_told_apart(e: TwoMlsPqError, r: TwoMlsError)
    requires
        call_ensures(map_session_err, (e,), r),
    ensures
        r == TwoMlsError::Mls <==> e == TwoMlsPqError::Mls,
        r == TwoMlsError::ArchiveInvalid <==> e == TwoMlsPqError::ArchiveInvalid,
        r == TwoMlsError::SessionNotEstablished <==> e == TwoMlsPqError::SessionNotEstablished,
        r == TwoMlsError::SessionNotReady <==> e == TwoMlsPqError::SessionNotReady || e
            == TwoMlsPqError::DuplicateSideBand || e == TwoMlsPqError::SinkAlreadyInstalled,
        r == TwoMlsError::ProposalRejected <==> e == TwoMlsPqError::ProposalRejected || e
            == TwoMlsPqError::CredentialRejected,
        r == TwoMlsError::DecryptionFailed <==> e == TwoMlsPqError::DecryptionFailed || e
            == TwoMlsPqError::EpochDesync || e == TwoMlsPqError::UnexpectedWelcome,
        r == TwoMlsError::PskBinding <==> e == TwoMlsPqError::AppBindingMismatch || e
            == TwoMlsPqError::ApqInfoMismatch || e == TwoMlsPqError::BindDischargeFailed || e
            == TwoMlsPqError::BindApplyFailed,
        r == TwoMlsError::InvalidKeyPackage <==> e == TwoMlsPqError::InvalidKeyPackage || e
            == TwoMlsPqError::PqNotAvailable || e == TwoMlsPqError::CipherSuiteMismatch || e
            == TwoMlsPqError::InvalidClientId || e == TwoMlsPqError::BootstrapKpMismatch || e
            == TwoMlsPqError::RemoteIdentityMismatch,
{
}

/// The states that a caller sees are those of the session: the id that each side runs under, and
/// the id that a rotation is under way to.
pub proof fn law_states_are_shown(s: &TwoMlsSession, mine: AgentState, theirs: AgentState)
    requires
        call_ensures(TwoMlsSession::my_agent_state, (s,), mine),
        call_ensures(TwoMlsSession::their_agent_state, (s,), theirs),
    ensures
        match mine {
            AgentState::Sync { client_id } => client_id.bytes@ == current_id(s.inner.my_state)
                && next_id(s.inner.my_state) is None,
            AgentState::Pending { old: was, new: is } => was.bytes@ == current_id(
                s.inner.my_state,
            ) && next_id(s.inner.my_state) == Some(is.bytes@),
        },
        match theirs {
            AgentState::Sync { client_id } => client_id.bytes@ == current_id(s.inner.their_state)
                && next_id(s.inner.their_state) is None,
            AgentState::Pending { old: was, new: is } => was.bytes@ == current_id(
                s.inner.their_state,
            ) && next_id(s.inner.their_state) == Some(is.bytes@),
        },
{
}

/// The context that an offer is reported under is the session's own, as it says it.
pub proof fn law_context_is_the_receive_group(
    s: &TwoMlsSession,
    context: Option<TwoMlsDigest>,
    established: bool,
)
    requires
        call_ensures(TwoMlsSession::proposal_context, (s,), context),
        call_ensures(TwoMlsSession::has_receive_group, (s,), established),
    ensures
        established <==> context is Some,
        context matches Some(d) ==> d.hash_type == 0x12 && d.digest@ == sha256_of(
            s.inner.recv_group->0.classical.group_id@,
        ),
{
}

/// The channels that a caller sees are the session's: it posts to the address of the receive group's
/// epoch, and listens under the send group's id on what the session listens on.
pub proof fn law_channels_are_shown(
    s: &TwoMlsSession,
    to: Result<Option<RendezvousId>>,
    group: Option<MlsGroupId>,
    established: bool,
    id: SessionId,
    t: &mut TwoMlsSession,
    l: ListenChannels,
)
    requires
        call_ensures(TwoMlsSession::send_rendezvous, (s,), to),
        call_ensures(TwoMlsSession::receive_group_id, (s,), group),
        call_ensures(TwoMlsSession::is_established, (s,), established),
        call_ensures(TwoMlsSession::active_session_id, (s,), id),
        call_ensures(TwoMlsSession::should_listen_on, (t,), Ok(l)),
    ensures
        match s.inner.recv_group {
            Some(g) => {
                &&& to matches Ok(Some(at)) && at@ == g.classical.rendezvous@
                &&& group matches Some(named) && named@ == g.classical.group_id@
            },
            None => to matches Ok(None) && group is None,
        },
        established <==> s.inner.send_group is Some && s.inner.recv_group is Some,
        id@ == s.inner.session_id@,
        old(t).inner.send_group matches Some(g) && l.send_group_id@ == g.classical.group_id@,
        l.rendezvous_by_epoch@.len() == final(t).inner.listen_rendezvous@.len(),
        forall|i: int|
            0 <= i < l.rendezvous_by_epoch@.len() ==> {
                &&& (#[trigger] l.rendezvous_by_epoch@[i]).epoch
                    == final(t).inner.listen_rendezvous@[i].epoch
                &&& l.rendezvous_by_epoch@[i].rendezvous_id@
                    == final(t).inner.listen_rendezvous@[i].key@
            },
{
    let v = l.rendezvous_by_epoch@;
    let w = final(t).inner.listen_rendezvous@;
    assert(channels(v).len() == v.len() && keys(w).len() == w.len());
    assert forall|i: int| 0 <= i < v.len() implies (#[trigger] v[i]).epoch == w[i].epoch && v[
        i
    ].rendezvous_id@ == w[i].key@ by {
        assert(channels(v)[i] == (v[i].epoch, v[i].rendezvous_id@));
        assert(keys(w)[i] == (w[i].epoch, w[i].key@));
    }
}

/// A session that was archived and is restored, with what the host loads back, is the session that
/// it was: its groups, its ids on both sides, its number and its staple.
pub proof fn law_archived_session_is_restored(
    s: &mut TwoMlsSession,
    material: ArchiveMaterial,
    archive: Archive,
    loaded: LoadedMaterial,
    r: Result<TwoMlsSession>,
)
    requires
        old(s).inner.wf(),
        old(s).inner.live(),
        call_ensures(TwoMlsSession::archive, (s, material), Ok(archive)),
        call_ensures(TwoMlsSession::from_archive, (archive, loaded), r),
        loads_back(*final(s), loaded),
    ensures
        ({
            &&& r matches Ok(t)
            &&& t.inner.send_group == final(s).inner.send_group
            &&& t.inner.recv_group == final(s).inner.recv_group
            &&& t.inner.session_id@ == final(s).inner.session_id@
            &&& current_id(t.inner.my_state) == current_id(final(s).inner.my_state)
            &&& next_id(t.inner.my_state) == next_id(final(s).inner.my_state)
            &&& current_id(t.inner.their_state) == current_id(final(s).inner.their_state)
            &&& next_id(t.inner.their_state) == next_id(final(s).inner.their_state)
        }),
        final(s).inner.send_group == old(s).inner.send_group,
        final(s).inner.recv_group == old(s).inner.recv_group,
        final(s).inner.state_seq == old(s).inner.state_seq,
{
    law_archive_gives_back(*final(s), material, archive, loaded, r);
}

/// A re-delivered frame is acknowledged by the token of the session, and by no other.
pub proof fn law_token_is_acknowledged(
    s: &TwoMlsSession,
    token: Vec<u8>,
    r: Result<Option<MlsSenderMessage>>,
)
    requires
        call_ensures(TwoMlsSession::forwarded, (s, token), r),
    ensures
        r is Ok <==> s.inner.spawn_token is Some && s.inner.spawn_token->0@ == token@,
        r is Ok ==> r->Ok_0 is None,
        r is Err ==> r->Err_0 == (if s.inner.spawn_token is None {
            TwoMlsError::SessionNotReady
        } else {
            TwoMlsError::DecryptionFailed
        }),
{
}

// ---- PSKs ----

/// An exported secret is bound to the group and the epoch that it was exported in, whole; one of
/// another length is refused.
pub proof fn law_psk_is_bound_to_its_epoch(
    half: &GroupHalf,
    exported: Option<Vec<u8>>,
    r: Result<BoundPsk>,
    psk: &BoundPsk,
    bytes: &[u8],
)
    requires
        call_ensures(export_psk, (half, exported), r),
        r matches Ok(p) ==> *psk == p && call_ensures(BoundPsk::as_bytes, (psk,), bytes),
    ensures
        r is Ok <==> exported is Some && exported->0@.len() == 32,
        r matches Ok(p) ==> {
            &&& p@.1 == (half.epoch, half.group_id@)
            &&& bytes@ == exported->0@
        },
        r is Err ==> r->Err_0 == TwoMlsError::PskBinding,
{
}

/// The ids of two PSKs are written alike only if they are of one group and one epoch.
pub proof fn law_psk_ids_are_written_apart(a: &PskId, x: Vec<u8>, b: &PskId, y: Vec<u8>)
    requires
        call_ensures(PskId::encoded, (a,), x),
        call_ensures(PskId::encoded, (b,), y),
        x@ == y@,
    ensures
        a.epoch == b.epoch,
        a.group_id@ == b.group_id@,
{
    law_psk_id_encoding_is_injective(*a, *b);
}

// ---- key packages ----

/// A generated key package says what it was generated for, to whoever parses it; and the client
/// keeps its private half, after those that it kept before.
pub proof fn law_generated_key_package_parses(
    c: &mut TwoMlsClient,
    suite: Arc<MlsCipherSuite>,
    message: Vec<u8>,
    d: &TwoMlsClient,
    id: ClientId,
    parsed: Result<MlsKeyPackage>,
)
    requires
        call_ensures(TwoMlsClient::generate_key_package, (c, suite), Ok(message)),
        *d == *old(c),
        call_ensures(TwoMlsClient::client_id, (d,), id),
        call_ensures(parse_mls_key_package, (message,), parsed),
    ensures
        parsed matches Ok(p) && p.client_id@ == id@ && p.cipher_suite@ == suite@,
        final(c).spec_kept().len() == old(c).spec_kept().len() + 1,
        forall|i: int|
            0 <= i < old(c).spec_kept().len() ==> final(c).spec_kept()[i] == #[trigger] old(
                c,
            ).spec_kept()[i],
        message@ == key_package_framing() + final(c).spec_kept().last().key_package@,
        final(c).spec_client_id() == old(c).spec_client_id(),
        final(c).spec_signing_key() == old(c).spec_signing_key(),
{
}

/// A generated pair is of one client, of the classical suite and of the PQ one, and both private
/// halves are kept.
pub proof fn law_generated_pair_parses(
    c: &mut TwoMlsClient,
    pair: CombinerKeyPackage,
    d: &TwoMlsClient,
    id: ClientId,
    parsed: Result<ParsedCombinerKeyPackage>,
)
    requires
        call_ensures(TwoMlsClient::generate_combiner_key_package, (c,), Ok(pair)),
        *d == *old(c),
        call_ensures(TwoMlsClient::client_id, (d,), id),
        call_ensures(parse_combiner_key_package, (pair,), parsed),
    ensures
        parsed matches Ok(p) && p.client_id@ == id@ && p.classical_suite@ == 0x0003
            && p.pq_suite@ == 0xFE4C,
        final(c).spec_kept().len() == old(c).spec_kept().len() + 2,
        pair.classical@ == key_package_framing() + final(c).spec_kept()[old(
            c,
        ).spec_kept().len() as int].key_package@,
        pair.pq@ == key_package_framing() + final(c).spec_kept().last().key_package@,
{
}

/// A client's id is the public half of its signing key, and a key of another length makes none.
pub proof fn law_client_is_named_by_its_key(
    signing_key: Vec<u8>,
    r: Result<TwoMlsClient>,
    c: &TwoMlsClient,
    id: ClientId,
    key: &[u8],
)
    requires
        call_ensures(TwoMlsClient::new, (signing_key,), r),
        r matches Ok(made) ==> *c == made && call_ensures(TwoMlsClient::client_id, (c,), id)
            && call_ensures(TwoMlsClient::signing_key, (c,), key),
    ensures
        r is Ok <==> signing_key@.len() == 64,
        r is Ok ==> id@ == signing_key@.subrange(32, 64) && key@ == signing_key@,
{
}

/// A pair is taken for one client only if both halves name it; what is parsed is what they say.
pub proof fn law_pair_is_of_one_client(
    kp: CombinerKeyPackage,
    r: Result<ParsedCombinerKeyPackage>,
)
    requires
        call_ensures(parse_combiner_key_package, (kp,), r),
    ensures
        r matches Ok(p) ==> {
            &&& key_package_of(kp.classical@) == Some((p.client_id@, p.classical_suite@))
            &&& key_package_of(kp.pq@) == Some((p.client_id@, p.pq_suite@))
        },
        r is Err ==> r->Err_0 == TwoMlsError::InvalidKeyPackage && (key_package_of(kp.classical@)
            is None || key_package_of(kp.pq@) is None || (key_package_of(kp.classical@)->0).0 != (
        key_package_of(kp.pq@)->0).0),
{
}

} // verus!
