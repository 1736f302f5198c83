//! How a session comes about, said of the calls on both sides: what each starts from, that they
//! name one session, and what an initiating one sends until it is answered.

use vstd::prelude::*;
use crate::bytes::{first_byte, opt_bytes};
use crate::types::{ClientId, CombinerKeyPackage, SessionId};
use super::conduct::{current_id, next_id};
use super::error::{Result, TwoMlsPqError};
use super::establish::{Accepted, EnvelopeSections, Initiated};
use super::frames::{
    is_tagged, law_tagged_frames_round_trip, lemma_read2, parts2, read2, APQ_TAG,
};
use super::key_packages::{
    decode_combiner_key_package, derive_session_id, encode_combiner_key_package,
    law_session_id_is_symmetric, COMBINER_KP_VERSION,
};
use super::providers::{key_package_of, mls_suite_of, sha256_of};
use super::sealing::sealed_as;
use super::state::{
    keys, steps, ApqCipherSuite, AuthKind, BlobKind, CombinerGroup, EpochKey, TwoMlsPqSession,
};

verus! {

/// A window of one entry holds just that.
proof fn lemma_one_entry(w: Seq<EpochKey>, epoch: u64, key: Seq<u8>)
    requires
        keys(w) == seq![(epoch, key)],
    ensures
        w.len() == 1,
        w[0].epoch == epoch,
        w[0].key@ == key,
{
    assert(keys(w).len() == w.len());
    assert(keys(w)[0] == (w[0].epoch, w[0].key@));
}

/// Whether a session starts from its send group: it listens on that group's epoch, holds its header
/// keys, remembers its PSK, runs under one id, and has done nothing yet.
pub open spec fn starts_from(
    s: TwoMlsPqSession,
    g: CombinerGroup,
    me: Seq<u8>,
    them: Seq<u8>,
) -> bool {
    &&& s.send_group == Some(g)
    &&& s.client_id.bytes@ == me
    &&& current_id(s.my_state) == me
    &&& next_id(s.my_state) is None
    &&& current_id(s.their_state) == them
    &&& next_id(s.their_state) is None
    &&& s.listen_rendezvous@.len() == 1
    &&& s.listen_rendezvous@[0].epoch == g.classical.epoch
    &&& s.listen_rendezvous@[0].key@ == g.classical.rendezvous@
    &&& s.recv_header_keys@.len() == 1
    &&& s.recv_header_keys@[0].epoch == g.classical.epoch
    &&& s.recv_header_keys@[0].key@ == g.classical.header_key@
    &&& match g.pq {
        Some(pq) => s.recv_header_keys_pq@.len() == 1 && s.recv_header_keys_pq@[0].epoch
            == pq.epoch && s.recv_header_keys_pq@[0].key@ == pq.header_key@,
        None => s.recv_header_keys_pq@.len() == 0,
    }
    &&& s.send_psk_ledger@.len() == 1
    &&& s.send_psk_ledger@[0].epoch == g.classical.epoch
    &&& s.retired_send_psks@.len() == 0
    &&& s.state_seq == 0
    &&& s.current_staple_seq == 0
    &&& s.push is None
    &&& !s.sink_installed
    &&& !s.bind_apply_broken
    &&& s.pq_inflight is None
    &&& s.pending_side_band is None
    &&& s.owed_bind is None
    &&& s.offered_proposal is None
    &&& s.queued_proposal is None
    &&& s.pending_proposal_hash is None
    &&& s.pending_proposal_message is None
    &&& s.peer_applied_send_epoch is None
    &&& s.staged_candidates@.len() == 0
    &&& s.deferred_candidate is None
}

/// An initiated session starts from the group that was made toward the key packages: their one id
/// is the peer's, the staple is the welcome to both halves, and the first turn is its own.
pub proof fn law_initiated_session_starts_anew(
    me: ClientId,
    suite: ApqCipherSuite,
    theirs: CombinerKeyPackage,
    binding: &Option<Vec<u8>>,
    made: Initiated,
    s: TwoMlsPqSession,
)
    requires
        call_ensures(TwoMlsPqSession::initiate, (me, suite, theirs, binding, made), Ok(s)),
    ensures
        key_package_of(theirs.classical@) matches Some((id, _)) && starts_from(
            s,
            made.send_group,
            me.bytes@,
            id,
        ),
        s.send_psk_ledger@[0].exported == made.send_psk,
        s.recv_group is None,
        s.pq_turn_mine,
        s.suite == suite,
        s.auth_updates@.len() == 0,
        s.pending_outbound is None,
        s.initial_their_kp == Some(theirs),
        s.initial_app_payload is None,
        s.initial_return_kp is None,
        s.bootstrap_kp == Some(made.bootstrap_kp),
        s.bootstrap_kp_secret == Some(made.bootstrap_kp_secret),
        s.spawn_token is None,
        first_byte(s.current_staple@) == Some(APQ_TAG),
        made.classical_welcome@.len() <= u32::MAX && made.pq_welcome@.len() <= u32::MAX ==> read2(
            s.current_staple@,
            APQ_TAG,
        ) == Some((made.classical_welcome@, made.pq_welcome@)),
{
    let g = made.send_group;
    lemma_one_entry(s.listen_rendezvous@, g.classical.epoch, g.classical.rendezvous@);
    lemma_one_entry(s.recv_header_keys@, g.classical.epoch, g.classical.header_key@);
    match g.pq {
        Some(pq) => lemma_one_entry(s.recv_header_keys_pq@, pq.epoch, pq.header_key@),
        None => assert(keys(s.recv_header_keys_pq@).len() == 0),
    }
    let (a, b) = (made.classical_welcome@, made.pq_welcome@);
    let q = parts2(a, b);
    assert(q[0] == a && q[1] == b);
    if a.len() <= u32::MAX && b.len() <= u32::MAX {
        assert(is_tagged(s.current_staple@, APQ_TAG, q));
        lemma_read2(s.current_staple@, APQ_TAG, a, b);
    }
}

/// A session is initiated exactly toward a key package pair of the suite, under one id in both,
/// and with no empty binding; what is wrong otherwise is said.
pub proof fn law_initiate_checks_the_pair(
    me: ClientId,
    suite: ApqCipherSuite,
    theirs: CombinerKeyPackage,
    binding: &Option<Vec<u8>>,
    made: Initiated,
    r: Result<TwoMlsPqSession>,
)
    requires
        call_ensures(TwoMlsPqSession::initiate, (me, suite, theirs, binding, made), r),
    ensures
        r is Ok <==> {
            &&& *binding is None || (*binding)->0@.len() > 0
            &&& key_package_of(theirs.classical@) matches Some((a, cs))
            &&& key_package_of(theirs.pq@) matches Some((b, ps))
            &&& cs == suite.classical
            &&& ps == suite.pq
            &&& a == b
        },
        *binding is Some && (*binding)->0@.len() == 0 ==> r == Err::<
            TwoMlsPqSession,
            TwoMlsPqError,
        >(TwoMlsPqError::AppBindingMismatch),
        r is Err && (*binding is None || (*binding)->0@.len() > 0) ==> r == Err::<
            TwoMlsPqSession,
            TwoMlsPqError,
        >(
            match (key_package_of(theirs.classical@), key_package_of(theirs.pq@)) {
                (Some((a, cs)), Some((b, ps))) => if cs == suite.classical && ps == suite.pq {
                    TwoMlsPqError::InvalidKeyPackage
                } else if cs == suite.classical && ps == suite.classical {
                    TwoMlsPqError::PqNotAvailable
                } else {
                    TwoMlsPqError::CipherSuiteMismatch
                },
                _ => TwoMlsPqError::InvalidKeyPackage,
            },
        ),
{
}

/// An accepted session starts from the group that was made in answer, in the group that was
/// joined: the peer's id is its key package's. It runs under the dedicated id if there is one,
/// which is then committed as ours, and the peer's as theirs. The first turn is the peer's.
pub proof fn law_accepted_session_starts_anew(
    invited: ClientId,
    dedicated: Option<ClientId>,
    suite: ApqCipherSuite,
    made: Accepted,
    welcome: &[u8],
    their_kp: &[u8],
    commitment: Vec<u8>,
    token: Option<Vec<u8>>,
    binding: &Option<Vec<u8>>,
    s: TwoMlsPqSession,
)
    requires
        call_ensures(
            TwoMlsPqSession::accept_with,
            (invited, dedicated, suite, made, welcome, their_kp, commitment, token, binding),
            Ok(s),
        ),
    ensures
        key_package_of(their_kp@) matches Some((id, _)) && starts_from(
            s,
            made.send_group,
            match dedicated {
                Some(own) => own.bytes@,
                None => invited.bytes@,
            },
            id,
        ),
        s.send_psk_ledger@[0].exported == made.send_psk,
        s.recv_group == Some(made.recv_group),
        !s.pq_turn_mine,
        s.suite == suite,
        s.spawn_token == token,
        s.initial_their_kp is None,
        s.bootstrap_kp is None,
        s.bootstrap_kp_secret is None,
        opt_bytes(s.expected_bootstrap_kp_commitment) == Some(commitment@),
        opt_bytes(s.joined_welcome_digest) == Some(sha256_of(welcome@)),
        s.last_cross_injected == Some(made.recv_group.classical.epoch),
        opt_bytes(s.pending_outbound) == Some(s.current_staple@),
        first_byte(s.current_staple@) == Some(APQ_TAG),
        made.classical_welcome@.len() <= u32::MAX ==> read2(s.current_staple@, APQ_TAG) == Some(
            (made.classical_welcome@, Seq::<u8>::empty()),
        ),
        match dedicated {
            None => s.auth_updates@.len() == 0,
            Some(own) => {
                &&& s.auth_updates@.len() == 2
                &&& s.auth_updates@[0].kind == AuthKind::CommitMine
                &&& s.auth_updates@[0].id@ == own.bytes@
                &&& s.auth_updates@[1].kind == AuthKind::CommitTheirs
                &&& s.auth_updates@[1].id@ == current_id(s.their_state)
            },
        },
{
    let g = made.send_group;
    lemma_one_entry(s.listen_rendezvous@, g.classical.epoch, g.classical.rendezvous@);
    lemma_one_entry(s.recv_header_keys@, g.classical.epoch, g.classical.header_key@);
    match g.pq {
        Some(pq) => lemma_one_entry(s.recv_header_keys_pq@, pq.epoch, pq.header_key@),
        None => assert(keys(s.recv_header_keys_pq@).len() == 0),
    }
    let (a, b) = (made.classical_welcome@, Seq::<u8>::empty());
    let q = parts2(a, b);
    assert(q[0] == a && q[1] == b);
    if a.len() <= u32::MAX {
        assert(is_tagged(s.current_staple@, APQ_TAG, q));
        lemma_read2(s.current_staple@, APQ_TAG, a, b);
    }
    let l = s.auth_updates@;
    assert(steps(l).len() == l.len());
    if dedicated is Some {
        assert(steps(l)[0] == (l[0].kind, l[0].id@));
        assert(steps(l)[1] == (l[1].kind, l[1].id@));
    }
}

/// A welcome is accepted only from the one whose key package came with it: both halves of the
/// joined group name that id for the peer, the group is bound to what was expected and its PQ half
/// to nothing of its own, the commitment is a digest, and all is of the suite.
pub proof fn law_accept_checks_the_peer(
    invited: ClientId,
    dedicated: Option<ClientId>,
    suite: ApqCipherSuite,
    made: Accepted,
    welcome: &[u8],
    their_kp: &[u8],
    commitment: Vec<u8>,
    token: Option<Vec<u8>>,
    binding: &Option<Vec<u8>>,
    r: Result<TwoMlsPqSession>,
)
    requires
        call_ensures(
            TwoMlsPqSession::accept_with,
            (invited, dedicated, suite, made, welcome, their_kp, commitment, token, binding),
            r,
        ),
    ensures
        r is Ok <==> {
            &&& *binding is None || (*binding)->0@.len() > 0
            &&& commitment@.len() == 32
            &&& key_package_of(their_kp@) matches Some((id, cs))
            &&& cs == suite.classical
            &&& read2(welcome@, APQ_TAG) matches Some((classical, pq))
            &&& classical.len() > 0 ==> mls_suite_of(classical) == Some(Some(suite.classical))
            &&& pq.len() > 0 ==> mls_suite_of(pq) == Some(Some(suite.pq))
            &&& made.recv_group.classical.peer_leaf@ == id
            &&& made.recv_group.pq is Some ==> made.recv_group.pq->0.peer_leaf@ == id
                && made.pq_unbound is Ok
            &&& opt_bytes(made.recv_group.app_binding) == opt_bytes(*binding)
        },
        r matches Err(TwoMlsPqError::RemoteIdentityMismatch) && made.pq_unbound is Ok ==> {
            &&& key_package_of(their_kp@) matches Some((id, _))
            &&& made.recv_group.classical.peer_leaf@ != id || (made.recv_group.pq is Some
                && made.recv_group.pq->0.peer_leaf@ != id)
        },
{
}

/// Accepting without a dedicated principal or a token is accepting under the invited one.
pub proof fn law_accept_is_accept_with_nothing_more(
    me: ClientId,
    suite: ApqCipherSuite,
    made: Accepted,
    welcome: &[u8],
    their_kp: &[u8],
    commitment: Vec<u8>,
    binding: &Option<Vec<u8>>,
    r: Result<TwoMlsPqSession>,
    with: Result<TwoMlsPqSession>,
)
    requires
        call_ensures(
            TwoMlsPqSession::accept,
            (me, suite, made, welcome, their_kp, commitment, binding),
            r,
        ),
        call_ensures(
            TwoMlsPqSession::accept_with,
            (me, None, suite, made, welcome, their_kp, commitment, None, binding),
            with,
        ),
    ensures
        r is Ok <==> with is Ok,
        r is Err ==> r == with,
        r matches Ok(s) ==> {
            &&& with matches Ok(t)
            &&& s.session_id@ == t.session_id@
            &&& s.client_id@ == t.client_id@
            &&& s.send_group == t.send_group
            &&& s.recv_group == t.recv_group
            &&& s.pq_turn_mine == t.pq_turn_mine
            &&& s.spawn_token is None
            &&& s.auth_updates@.len() == 0
            &&& current_id(s.their_state) == current_id(t.their_state)
            &&& s.current_staple@ == t.current_staple@
        },
{
    if let Ok(s) = r {
        assert(steps(s.auth_updates@).len() == s.auth_updates@.len());
    }
}

/// Both sides name one session, whoever began it and under whatever principal it was accepted; the
/// first turn is the initiator's and only its; and each has the other for its peer.
pub proof fn law_both_sides_name_one_session(
    a: ClientId,
    suite: ApqCipherSuite,
    kp_b: CombinerKeyPackage,
    binding_a: &Option<Vec<u8>>,
    initiated: Initiated,
    s: TwoMlsPqSession,
    b: ClientId,
    dedicated: Option<ClientId>,
    accepted: Accepted,
    welcome: &[u8],
    kp_a: &[u8],
    commitment: Vec<u8>,
    token: Option<Vec<u8>>,
    binding_b: &Option<Vec<u8>>,
    t: TwoMlsPqSession,
)
    requires
        call_ensures(TwoMlsPqSession::initiate, (a, suite, kp_b, binding_a, initiated), Ok(s)),
        call_ensures(
            TwoMlsPqSession::accept_with,
            (b, dedicated, suite, accepted, welcome, kp_a, commitment, token, binding_b),
            Ok(t),
        ),
        key_package_of(kp_b.classical@) matches Some((id, _)) && id == b.bytes@,
        key_package_of(kp_a@) matches Some((id, _)) && id == a.bytes@,
    ensures
        s.session_id@ == t.session_id@,
        s.pq_turn_mine && !t.pq_turn_mine,
        current_id(s.their_state) == b.bytes@,
        current_id(t.their_state) == a.bytes@,
        dedicated is None ==> current_id(t.my_state) == current_id(s.their_state),
{
    law_session_id_is_symmetric(a.bytes@, b.bytes@);
}

/// The commitment that an initiated session announces is the digest of the key package that it
/// will bootstrap with; so the one that accepted it with that commitment will take that key
/// package and no other.
pub proof fn law_commitment_is_to_the_key_package(
    me: ClientId,
    suite: ApqCipherSuite,
    theirs: CombinerKeyPackage,
    binding: &Option<Vec<u8>>,
    made: Initiated,
    s: TwoMlsPqSession,
    t: &TwoMlsPqSession,
    announced: Option<Vec<u8>>,
)
    requires
        call_ensures(TwoMlsPqSession::initiate, (me, suite, theirs, binding, made), Ok(s)),
        *t == s,
        call_ensures(TwoMlsPqSession::bootstrap_kp_commitment, (t,), announced),
    ensures
        opt_bytes(announced) == Some(sha256_of(made.bootstrap_kp@)),
{
}

/// Until it is answered an initiating session sends envelopes: the app's payload alone where the
/// app gave one, else the welcome and the return key package that it gave; and with them whatever
/// is stapled.
pub proof fn law_envelope_holds_what_was_given(
    s: &TwoMlsPqSession,
    stapled: Option<Vec<u8>>,
    e: EnvelopeSections,
)
    requires
        call_ensures(TwoMlsPqSession::compose_initial_envelope, (s, stapled), Ok(e)),
    ensures
        s.initial_their_kp is Some,
        opt_bytes(e.stapled) == opt_bytes(stapled),
        match s.initial_app_payload {
            Some(payload) => {
                &&& opt_bytes(e.app_payload) == Some(payload@)
                &&& e.welcome is None
                &&& e.return_kp is None
            },
            None => {
                &&& e.app_payload is None
                &&& opt_bytes(e.welcome) == Some(s.current_staple@)
                &&& opt_bytes(e.return_kp) == opt_bytes(s.initial_return_kp)
            },
        },
{
}

/// A payload that is attached is what the envelopes carry from then on, and is kept only while
/// there is an envelope to come.
pub proof fn law_attached_payload_is_sent(
    s: &mut TwoMlsPqSession,
    payload: Vec<u8>,
    r: Result<EnvelopeSections>,
)
    requires
        call_ensures(TwoMlsPqSession::set_initial_app_payload, (s, payload), r),
    ensures
        r matches Ok(e) ==> {
            &&& opt_bytes(e.app_payload) == Some(payload@)
            &&& e.welcome is None
            &&& e.return_kp is None
            &&& e.stapled is None
            &&& final(s).initial_app_payload == Some(payload)
        },
        r is Ok <==> old(s).recv_group is None && old(s).initial_their_kp is Some && first_byte(
            old(s).current_staple@,
        ) == Some(APQ_TAG),
        old(s).recv_group is Some ==> final(s).initial_app_payload == old(s).initial_app_payload,
        final(s).initial_return_kp == old(s).initial_return_kp,
        final(s).current_staple == old(s).current_staple,
        final(s).send_group == old(s).send_group,
        old(s).state_seq < u64::MAX ==> final(s).state_seq == old(s).state_seq + 1,
        final(s).push matches Some(p) ==> p.kind == BlobKind::Core && p.seq == final(s).state_seq,
{
}

/// A return key package that is attached goes with the welcome, unless the app's payload is sent in
/// their place.
pub proof fn law_attached_key_package_is_sent(
    s: &mut TwoMlsPqSession,
    key_package: Vec<u8>,
    r: Result<EnvelopeSections>,
)
    requires
        call_ensures(TwoMlsPqSession::set_initial_return_key_package, (s, key_package), r),
    ensures
        r matches Ok(e) ==> {
            &&& final(s).initial_return_kp == Some(key_package)
            &&& old(s).initial_app_payload is None ==> {
                &&& opt_bytes(e.return_kp) == Some(key_package@)
                &&& opt_bytes(e.welcome) == Some(old(s).current_staple@)
            }
            &&& old(s).initial_app_payload is Some ==> e.return_kp is None && e.welcome is None
            &&& opt_bytes(e.app_payload) == opt_bytes(old(s).initial_app_payload)
        },
        r is Ok <==> old(s).recv_group is None && old(s).initial_their_kp is Some && first_byte(
            old(s).current_staple@,
        ) == Some(APQ_TAG),
        final(s).initial_app_payload == old(s).initial_app_payload,
        old(s).recv_group is Some ==> final(s).initial_return_kp == old(s).initial_return_kp,
        final(s).current_staple == old(s).current_staple,
        old(s).state_seq < u64::MAX ==> final(s).state_seq == old(s).state_seq + 1,
        final(s).push matches Some(p) ==> p.kind == BlobKind::Core && p.seq == final(s).state_seq,
{
}

/// A parked envelope is handed out as it is, once, and counted; the messages that follow depend on
/// the operation that it was parked after.
pub proof fn law_parked_envelope_is_handed_out_once(
    s: &mut TwoMlsPqSession,
    envelope: Vec<u8>,
    t: &mut TwoMlsPqSession,
    first: Option<Vec<u8>>,
    u: &mut TwoMlsPqSession,
    second: Option<Vec<u8>>,
)
    requires
        call_ensures(TwoMlsPqSession::park_envelope, (s, envelope), ()),
        *old(t) == *final(s),
        call_ensures(TwoMlsPqSession::pending_outbound, (t,), first),
        *old(u) == *final(t),
        call_ensures(TwoMlsPqSession::pending_outbound, (u,), second),
        old(s).recv_group is None,
    ensures
        opt_bytes(first) == Some(envelope@),
        second is None,
        final(s).current_staple_seq == old(s).state_seq,
        final(s).state_seq == old(s).state_seq,
        final(s).current_staple == old(s).current_staple,
        old(t).state_seq < u64::MAX ==> final(t).state_seq == old(t).state_seq + 1,
        final(t).push is Some <==> old(t).sink_installed,
        final(t).push matches Some(p) ==> p.kind == BlobKind::Core && p.seq == final(t).state_seq,
        *final(u) == *old(u),
{
}

/// An accepted session's return welcome is handed out once, sealed under the header key of the
/// group that it joined.
pub proof fn law_return_welcome_is_handed_out_once(
    s: &mut TwoMlsPqSession,
    first: Option<Vec<u8>>,
    t: &mut TwoMlsPqSession,
    second: Option<Vec<u8>>,
)
    requires
        call_ensures(TwoMlsPqSession::pending_outbound, (s,), first),
        *old(t) == *final(s),
        call_ensures(TwoMlsPqSession::pending_outbound, (t,), second),
        old(s).recv_group is Some,
    ensures
        first matches Some(b) ==> old(s).pending_outbound is Some && sealed_as(
            b@,
            old(s).recv_group->0.classical.header_key@,
            old(s).pending_outbound->0@,
        ),
        old(s).pending_outbound is None ==> first is None && *final(s) == *old(s),
        second is None,
        final(s).pending_outbound is None,
{
}

/// Until the first commit the welcome can be had as it is; after that there is none to be had.
pub proof fn law_welcome_is_had_until_the_first_commit(
    s: &TwoMlsPqSession,
    welcome: Option<Vec<u8>>,
)
    requires
        call_ensures(TwoMlsPqSession::initial_welcome, (s,), welcome),
    ensures
        welcome is Some <==> first_byte(s.current_staple@) == Some(0x01u8),
        welcome matches Some(w) ==> w@ == s.current_staple@,
{
}

/// A key package pair that was written is read as no other than it was.
pub proof fn law_written_pair_is_read(
    kp: CombinerKeyPackage,
    bytes: Vec<u8>,
    r: Result<CombinerKeyPackage>,
)
    requires
        call_ensures(encode_combiner_key_package, (kp,), bytes),
        call_ensures(decode_combiner_key_package, (bytes,), r),
        kp.classical@.len() <= u32::MAX,
        kp.pq@.len() <= u32::MAX,
    ensures
        r matches Ok(q) ==> q.classical@ == kp.classical@ && q.pq@ == kp.pq@,
{
    let (a, b) = (kp.classical@, kp.pq@);
    let p = parts2(a, b);
    assert(p[0] == a && p[1] == b);
    assert(is_tagged(bytes@, COMBINER_KP_VERSION, parts2(a, b)));
    if let Ok(q) = r {
        let read = parts2(q.classical@, q.pq@);
        assert(read[0] == q.classical@ && read[1] == q.pq@);
        law_tagged_frames_round_trip(COMBINER_KP_VERSION, p, read);
        assert(read[0] == a && read[1] == b);
    }
}

/// One id for one pair of clients, whichever of them derives it.
pub proof fn law_session_id_is_derived_alike(
    a: &ClientId,
    b: &ClientId,
    x: SessionId,
    y: SessionId,
)
    requires
        call_ensures(derive_session_id, (a, b), x),
        call_ensures(derive_session_id, (b, a), y),
    ensures
        x.bytes@ == y.bytes@,
{
    law_session_id_is_symmetric(a.bytes@, b.bytes@);
}

} // verus!
