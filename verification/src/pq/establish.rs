//! Founding a session: initiating toward a peer's key package, accepting a welcome, and the
//! envelopes that an initiating session sends until the return welcome arrives.
//!
//! The host creates and joins the groups and seals the envelopes; what it may do so with,
//! and what a session then starts from, is decided here.

use vstd::prelude::*;
use crate::bytes::{
    bytes_eq, copy_bytes, copy_opt, first_byte, opt_bytes, opt_bytes_eq, starts_with,
};
use crate::types::{ClientId, CombinerKeyPackage, SessionId};
use super::error::{Result, TwoMlsPqError};
use super::frames::{decode_apq_welcome, encode_apq_welcome, parts2, read2, tagged, APQ_TAG};
use super::key_packages::{
    check_key_package_suite, combiner_kp_check, derive_session_id, key_package_suite_check,
    parse_mls_key_package, session_id_preimage, validate_combiner_kp, validate_welcome_halves,
    welcome_halves_check,
};
use super::persist::begun;
use super::providers::{key_package_of, sha256, sha256_of, DIGEST_LEN};
use super::state::{
    apq_suite, epochs, group_exports, keys, push_step, steps, ApqCipherSuite, AuthKind, AuthUpdate, BlobKind, CombinerGroup,
    EpochKey, ExportedPsk, PrincipalState, PskEntry, TwoMlsPqSession,
};

verus! {

// ---- initiating ----

/// What a session is initiated with: the peer's id and the session id.
#[derive(Debug)]
pub struct InitiatePlan {
    pub their_id: ClientId,
    pub session_id: SessionId,
}

/// Whether an app-state binding is present and empty, which is reserved.
pub open spec fn empty_binding(b: Option<Vec<u8>>) -> bool {
    b matches Some(v) && v@.len() == 0
}

/// Whom a session may be initiated toward. An empty binding is refused before anything else;
/// then the peer's key package pair is validated.
pub open spec fn initiate_check(
    suite: ApqCipherSuite,
    their_key_package: CombinerKeyPackage,
    app_binding: Option<Vec<u8>>,
) -> Result<Seq<u8>> {
    if empty_binding(app_binding) {
        Err(TwoMlsPqError::AppBindingMismatch)
    } else {
        combiner_kp_check(
            suite,
            key_package_of(their_key_package.classical@),
            key_package_of(their_key_package.pq@),
        )
    }
}

/// Check what a session is to be initiated with.
pub fn initiate_plan(
    client_id: &ClientId,
    suite: ApqCipherSuite,
    their_key_package: &CombinerKeyPackage,
    app_binding: &Option<Vec<u8>>,
) -> (r: Result<InitiatePlan>)
    ensures
        match initiate_check(suite, *their_key_package, *app_binding) {
            Err(e) => r == Err::<InitiatePlan, TwoMlsPqError>(e),
            Ok(id) => {
                &&& r matches Ok(plan)
                &&& plan.their_id@ == id
                &&& plan.session_id@ == sha256_of(session_id_preimage(client_id@, id))
            },
        },
{
    match app_binding {
        Some(b) => {
            if b.is_empty() {
                return Err(TwoMlsPqError::AppBindingMismatch);
            }
        },
        None => {},
    }
    match validate_combiner_kp(suite, their_key_package) {
        Err(e) => Err(e),
        Ok(their_id) => {
            let session_id = derive_session_id(client_id, &their_id);
            Ok(InitiatePlan { their_id, session_id })
        },
    }
}

/// What the host made to initiate a session: the send group, the welcome to each of its
/// halves, the send group's PSK, and the bootstrap key package with its private half.
#[derive(Debug)]
pub struct Initiated {
    pub send_group: CombinerGroup,
    pub classical_welcome: Vec<u8>,
    pub pq_welcome: Vec<u8>,
    pub send_psk: ExportedPsk,
    pub bootstrap_kp: Vec<u8>,
    pub bootstrap_kp_secret: Vec<u8>,
}

/// A session at its founding, before anything is recorded of its groups.
pub open spec fn is_blank(
    s: TwoMlsPqSession,
    client_id: Seq<u8>,
    suite: ApqCipherSuite,
    staple: Seq<u8>,
    session_id: Seq<u8>,
    their_id: Seq<u8>,
    initiated: bool,
) -> bool {
    &&& s.client_id@ == client_id
    &&& s.suite == suite
    &&& s.pending_proposal_hash is None
    &&& s.current_staple@ == staple
    &&& s.current_staple_seq == 0
    &&& s.pending_proposal_message is None
    &&& s.offered_proposal is None
    &&& s.queued_proposal is None
    &&& s.staged_candidates@.len() == 0
    &&& s.deferred_candidate is None
    &&& s.pq_inflight is None
    &&& s.session_id@ == session_id
    &&& s.state_seq == 0
    &&& s.my_state@ == (client_id, None::<Seq<u8>>)
    &&& s.their_state@ == (their_id, None::<Seq<u8>>)
    &&& s.pending_side_band is None
    &&& s.owed_bind is None
    &&& s.pq_turn_mine == initiated
    &&& !s.bind_apply_broken
    &&& s.retired_send_psks@.len() == 0
    &&& s.peer_applied_send_epoch is None
    &&& s.last_cross_injected_pq is None
    &&& s.last_send_pq_exported is None
    &&& s.initial_app_payload is None
    &&& s.initial_return_kp is None
    &&& !s.sink_installed
    &&& s.push is None
}

/// Assemble a session that has no group recorded yet.
fn build_session(
    client_id: ClientId,
    suite: ApqCipherSuite,
    send_group: CombinerGroup,
    recv_group: Option<CombinerGroup>,
    staple: Vec<u8>,
    session_id: SessionId,
    their_id: ClientId,
    initiated: bool,
    joined_welcome_digest: Option<Vec<u8>>,
) -> (r: TwoMlsPqSession)
    ensures
        is_blank(r, client_id@, suite, staple@, session_id@, their_id@, initiated),
        r.wf(),
        r.sound(),
        r.send_group == Some(send_group),
        r.recv_group == recv_group,
        opt_bytes(r.pending_outbound) == Some(staple@),
        r.joined_welcome_digest == joined_welcome_digest,
        r.send_psk_ledger@.len() == 0,
        r.listen_rendezvous@.len() == 0,
        r.recv_header_keys@.len() == 0,
        r.recv_header_keys_pq@.len() == 0,
        r.last_cross_injected is None,
        r.spawn_token is None,
        r.initial_their_kp is None,
        r.bootstrap_kp is None,
        r.bootstrap_kp_secret is None,
        r.expected_bootstrap_kp_commitment is None,
        r.auth_updates@.len() == 0,
{
    let my_state = PrincipalState::Sync { client_id: client_id.copy() };
    let pending = copy_bytes(staple.as_slice());
    let listen_rendezvous: Vec<EpochKey> = Vec::new();
    let recv_header_keys: Vec<EpochKey> = Vec::new();
    proof {
        assert(epochs(keys(listen_rendezvous@)) =~= epochs(keys(recv_header_keys@)));
    }
    TwoMlsPqSession {
        client_id,
        suite,
        send_group: Some(send_group),
        recv_group,
        pending_outbound: Some(pending),
        pending_proposal_hash: None,
        current_staple: staple,
        current_staple_seq: 0,
        pending_proposal_message: None,
        joined_welcome_digest,
        offered_proposal: None,
        queued_proposal: None,
        staged_candidates: Vec::new(),
        deferred_candidate: None,
        pq_inflight: None,
        session_id,
        state_seq: 0,
        my_state,
        their_state: PrincipalState::Sync { client_id: their_id },
        pending_side_band: None,
        owed_bind: None,
        pq_turn_mine: initiated,
        bind_apply_broken: false,
        send_psk_ledger: Vec::new(),
        retired_send_psks: Vec::new(),
        last_cross_injected: None,
        peer_applied_send_epoch: None,
        last_cross_injected_pq: None,
        last_send_pq_exported: None,
        listen_rendezvous,
        recv_header_keys,
        recv_header_keys_pq: Vec::new(),
        spawn_token: None,
        initial_their_kp: None,
        initial_app_payload: None,
        initial_return_kp: None,
        bootstrap_kp: None,
        bootstrap_kp_secret: None,
        expected_bootstrap_kp_commitment: None,
        sink_installed: false,
        push: None,
        auth_updates: Vec::new(),
    }
}

/// Whether a session has recorded the send group it was founded with: its PSK, its listen
/// address and header key, and its side-band header key if its PQ half exists.
pub open spec fn founded_with(s: TwoMlsPqSession, g: CombinerGroup, psk: ExportedPsk) -> bool {
    &&& s.send_group == Some(g)
    &&& s.send_psk_ledger@ == seq![PskEntry { epoch: g.classical.epoch, exported: psk }]
    &&& keys(s.listen_rendezvous@) == seq![(g.classical.epoch, g.classical.rendezvous@)]
    &&& keys(s.recv_header_keys@) == seq![(g.classical.epoch, g.classical.header_key@)]
    &&& keys(s.recv_header_keys_pq@) == match g.pq {
        Some(pq) => seq![(pq.epoch, pq.header_key@)],
        None => Seq::empty(),
    }
}

/// Record the founding epoch of the send group.
fn record_founding(s: &mut TwoMlsPqSession, psk: ExportedPsk)
    requires
        old(s).wf(),
        old(s).send_group is Some,
        old(s).send_psk_ledger@.len() == 0,
        old(s).retired_send_psks@.len() == 0,
        old(s).listen_rendezvous@.len() == 0,
        old(s).recv_header_keys@.len() == 0,
        old(s).recv_header_keys_pq@.len() == 0,
    ensures
        final(s).wf(),
        old(s).sound() ==> final(s).sound(),
        old(s).live() ==> final(s).live(),
        final(s).since(*old(s)),
        old(s).side_band_settled() ==> final(s).side_band_settled(),
        old(s).send_group matches Some(g) && founded_with(*final(s), g, psk),
        final(s).retired_send_psks@.len() == 0,
        *final(s) == (TwoMlsPqSession {
            send_psk_ledger: final(s).send_psk_ledger,
            retired_send_psks: final(s).retired_send_psks,
            listen_rendezvous: final(s).listen_rendezvous,
            recv_header_keys: final(s).recv_header_keys,
            recv_header_keys_pq: final(s).recv_header_keys_pq,
            ..*old(s)
        }),
{
    let ghost g = s.send_group->0;
    proof {
        reveal(Seq::filter);
        assert(keys(s.listen_rendezvous@) =~= Seq::empty());
        assert(keys(s.recv_header_keys@) =~= Seq::empty());
        assert(keys(s.recv_header_keys_pq@) =~= Seq::empty());
        assert(s.spec_needs_send_psk());
    }
    let _r = s.remember_send_psk(Ok(psk));
    s.record_listen_rendezvous();
    s.record_pq_header_key();
    proof {
        assert(s.send_psk_ledger@ =~= seq![PskEntry { epoch: g.classical.epoch, exported: psk }]);
        assert(keys(s.listen_rendezvous@) =~= seq![(g.classical.epoch, g.classical.rendezvous@)]);
        assert(keys(s.recv_header_keys@) =~= seq![(g.classical.epoch, g.classical.header_key@)]);
        match g.pq {
            Some(pq) => {
                assert(keys(s.recv_header_keys_pq@) =~= seq![(pq.epoch, pq.header_key@)]);
            },
            None => {},
        }
    }
}

/// The session that initiating founds: toward the peer that the key package pair names, with
/// the welcome as its staple.
pub open spec fn initiated_session(
    s: TwoMlsPqSession,
    client_id: Seq<u8>,
    suite: ApqCipherSuite,
    their_id: Seq<u8>,
    their_key_package: CombinerKeyPackage,
    made: Initiated,
) -> bool {
    &&& s.wf()
    &&& s.sound()
    &&& suite == apq_suite() && group_exports(made.send_group) ==> s.live()
    &&& is_blank(
        s,
        client_id,
        suite,
        tagged(APQ_TAG, parts2(made.classical_welcome@, made.pq_welcome@)),
        sha256_of(session_id_preimage(client_id, their_id)),
        their_id,
        true,
    )
    &&& founded_with(s, made.send_group, made.send_psk)
    &&& s.recv_group is None
    &&& s.pending_outbound is None
    &&& s.joined_welcome_digest is None
    &&& s.last_cross_injected is None
    &&& s.spawn_token is None
    &&& s.initial_their_kp == Some(their_key_package)
    &&& s.bootstrap_kp == Some(made.bootstrap_kp)
    &&& s.bootstrap_kp_secret == Some(made.bootstrap_kp_secret)
    &&& s.expected_bootstrap_kp_commitment is None
    &&& s.auth_updates@.len() == 0
}

impl TwoMlsPqSession {
    /// The session that an initiated send group founds, if it may be initiated with this
    /// binding toward this key package pair. Its welcome is the staple; the envelope that
    /// first carries it is to be sealed and parked next (`compose_initial_envelope`,
    /// `park_envelope`).
    pub fn initiate(
        client_id: ClientId,
        suite: ApqCipherSuite,
        their_key_package: CombinerKeyPackage,
        app_binding: &Option<Vec<u8>>,
        made: Initiated,
    ) -> (r: Result<TwoMlsPqSession>)
        ensures
            match initiate_check(suite, their_key_package, *app_binding) {
                Err(e) => r == Err::<TwoMlsPqSession, TwoMlsPqError>(e),
                Ok(their_id) => {
                    &&& r matches Ok(s)
                    &&& initiated_session(
                        s,
                        client_id@,
                        suite,
                        their_id,
                        their_key_package,
                        made,
                    )
                },
            },
    {
        let plan = match initiate_plan(&client_id, suite, &their_key_package, app_binding) {
            Err(e) => return Err(e),
            Ok(plan) => plan,
        };
        let welcome = encode_apq_welcome(made.classical_welcome, made.pq_welcome);
        let mut s = build_session(
            client_id,
            suite,
            made.send_group,
            None,
            welcome,
            plan.session_id,
            plan.their_id,
            true,
            None,
        );
        s.pending_outbound = None;
        s.initial_their_kp = Some(their_key_package);
        s.bootstrap_kp = Some(made.bootstrap_kp);
        s.bootstrap_kp_secret = Some(made.bootstrap_kp_secret);
        record_founding(&mut s, made.send_psk);
        Ok(s)
    }
}

// ---- the establishment envelope ----

/// What an establishment envelope carries: either the host's self-sufficient payload alone,
/// or the bare welcome and the return key package; and the app message, if any.
#[derive(Debug)]
pub struct EnvelopeSections {
    pub app_payload: Option<Vec<u8>>,
    pub welcome: Option<Vec<u8>>,
    pub return_kp: Option<Vec<u8>>,
    pub stapled: Option<Vec<u8>>,
}

impl TwoMlsPqSession {
    /// Whether the session can still send establishment envelopes: it initiated toward a key
    /// package and its welcome is still the staple.
    pub open spec fn can_envelope(&self) -> bool {
        self.initial_their_kp is Some && first_byte(self.current_staple@) == Some(APQ_TAG)
    }

    /// Whether `e` is the envelope of the session as it is, with this app message.
    pub open spec fn is_envelope(&self, e: EnvelopeSections, stapled: Option<Seq<u8>>) -> bool {
        &&& opt_bytes(e.stapled) == stapled
        &&& opt_bytes(e.app_payload) == opt_bytes(self.initial_app_payload)
        &&& opt_bytes(e.welcome) == if self.initial_app_payload is Some {
            None
        } else {
            Some(self.current_staple@)
        }
        &&& opt_bytes(e.return_kp) == if self.initial_app_payload is Some {
            None
        } else {
            opt_bytes(self.initial_return_kp)
        }
    }

    /// Compose an establishment envelope, which the host seals to the peer's key package.
    pub fn compose_initial_envelope(&self, stapled: Option<Vec<u8>>) -> (r: Result<
        EnvelopeSections,
    >)
        ensures
            match r {
                Ok(e) => self.can_envelope() && self.is_envelope(e, opt_bytes(stapled)),
                Err(e) => !self.can_envelope() && e == TwoMlsPqError::SessionNotReady,
            },
    {
        if self.initial_their_kp.is_none() || !starts_with(
            self.current_staple.as_slice(),
            APQ_TAG,
        ) {
            return Err(TwoMlsPqError::SessionNotReady);
        }
        match &self.initial_app_payload {
            Some(payload) => Ok(
                EnvelopeSections {
                    app_payload: Some(copy_bytes(payload.as_slice())),
                    welcome: None,
                    return_kp: None,
                    stapled,
                },
            ),
            None => Ok(
                EnvelopeSections {
                    app_payload: None,
                    welcome: Some(copy_bytes(self.current_staple.as_slice())),
                    return_kp: copy_opt(&self.initial_return_kp),
                    stapled,
                },
            ),
        }
    }

    /// Park a sealed envelope for hand-out. Frames that carry its material wait for this
    /// operation's persistence.
    pub fn park_envelope(&mut self, envelope: Vec<u8>)
        ensures
            *final(self) == (TwoMlsPqSession {
                pending_outbound: Some(envelope),
                current_staple_seq: old(self).state_seq,
                ..*old(self)
            }),
            old(self).wf() ==> final(self).wf(),
            old(self).sound() ==> final(self).sound(),
            old(self).live() ==> final(self).live(),
            old(self).wf() ==> final(self).since(*old(self)),
            old(self).side_band_settled() ==> final(self).side_band_settled(),
    {
        self.pending_outbound = Some(envelope);
        self.current_staple_seq = self.state_seq;
    }

    /// Whether an attachment to the establishment envelope can still be set.
    pub open spec fn can_attach(&self) -> bool {
        self.recv_group is None && self.initial_their_kp is Some
    }

    /// Attach the host's app-layer welcome, and compose the envelope that is to replace the
    /// parked one.
    pub fn set_initial_app_payload(&mut self, payload: Vec<u8>) -> (r: Result<EnvelopeSections>)
        ensures
            old(self).wf() ==> final(self).wf(),
            old(self).sound() ==> final(self).sound(),
            old(self).live() ==> final(self).live(),
            old(self).wf() ==> final(self).since(*old(self)),
            old(self).side_band_settled() && r is Ok ==> final(self).side_band_settled(),
            if old(self).can_attach() {
                let after = TwoMlsPqSession {
                    initial_app_payload: Some(payload),
                    ..begun(*old(self), BlobKind::Core)
                };
                &&& *final(self) == after
                &&& match r {
                    Ok(e) => after.can_envelope() && after.is_envelope(e, None),
                    Err(e) => !after.can_envelope() && e == TwoMlsPqError::SessionNotReady,
                }
            } else {
                &&& r == Err::<EnvelopeSections, TwoMlsPqError>(TwoMlsPqError::SessionNotReady)
                &&& *final(self) == begun(*old(self), BlobKind::Core)
            },
    {
        self.begin_mutation(BlobKind::Core);
        if self.recv_group.is_some() || self.initial_their_kp.is_none() {
            return Err(TwoMlsPqError::SessionNotReady);
        }
        self.initial_app_payload = Some(payload);
        self.compose_initial_envelope(None)
    }

    /// Attach the classical return key package for envelopes without a host payload, and
    /// compose the envelope that is to replace the parked one.
    pub fn set_initial_return_key_package(&mut self, key_package: Vec<u8>) -> (r: Result<
        EnvelopeSections,
    >)
        ensures
            old(self).wf() ==> final(self).wf(),
            old(self).sound() ==> final(self).sound(),
            old(self).live() ==> final(self).live(),
            old(self).wf() ==> final(self).since(*old(self)),
            old(self).side_band_settled() && r is Ok ==> final(self).side_band_settled(),
            if old(self).can_attach() {
                let after = TwoMlsPqSession {
                    initial_return_kp: Some(key_package),
                    ..begun(*old(self), BlobKind::Core)
                };
                &&& *final(self) == after
                &&& match r {
                    Ok(e) => after.can_envelope() && after.is_envelope(e, None),
                    Err(e) => !after.can_envelope() && e == TwoMlsPqError::SessionNotReady,
                }
            } else {
                &&& r == Err::<EnvelopeSections, TwoMlsPqError>(TwoMlsPqError::SessionNotReady)
                &&& *final(self) == begun(*old(self), BlobKind::Core)
            },
    {
        self.begin_mutation(BlobKind::Core);
        if self.recv_group.is_some() || self.initial_their_kp.is_none() {
            return Err(TwoMlsPqError::SessionNotReady);
        }
        self.initial_return_kp = Some(key_package);
        self.compose_initial_envelope(None)
    }

    /// The session's own welcome while it is still the staple.
    pub fn initial_welcome(&self) -> (r: Option<Vec<u8>>)
        ensures
            opt_bytes(r) == if first_byte(self.current_staple@) == Some(APQ_TAG) {
                Some(self.current_staple@)
            } else {
                None
            },
    {
        if starts_with(self.current_staple.as_slice(), APQ_TAG) {
            Some(copy_bytes(self.current_staple.as_slice()))
        } else {
            None
        }
    }

    /// The commitment to the bootstrap key package, until the key package is sent.
    pub fn bootstrap_kp_commitment(&self) -> (r: Option<Vec<u8>>)
        ensures
            opt_bytes(r) == match self.bootstrap_kp {
                Some(kp) => Some(sha256_of(kp@)),
                None => None,
            },
    {
        match &self.bootstrap_kp {
            Some(kp) => Some(sha256(kp.as_slice())),
            None => None,
        }
    }
}

// ---- accepting ----

/// What a welcome is accepted with: the peer's id, the session id and the two halves.
#[derive(Debug)]
pub struct AcceptPlan {
    pub their_id: ClientId,
    pub session_id: SessionId,
    pub classical_welcome: Vec<u8>,
    pub pq_welcome: Vec<u8>,
}

/// Why a welcome cannot be accepted, before it is joined. An empty expected binding comes
/// first, then a commitment that is no digest.
pub open spec fn accept_refusal(
    suite: ApqCipherSuite,
    welcome: Seq<u8>,
    their_kp: Seq<u8>,
    commitment: Seq<u8>,
    expected: Option<Vec<u8>>,
) -> Option<TwoMlsPqError> {
    if empty_binding(expected) {
        Some(TwoMlsPqError::AppBindingMismatch)
    } else if commitment.len() != DIGEST_LEN {
        Some(TwoMlsPqError::BootstrapKpMismatch)
    } else {
        match key_package_suite_check(their_kp, suite.classical) {
            Err(e) => Some(e),
            Ok(()) => match read2(welcome, APQ_TAG) {
                None => Some(TwoMlsPqError::Mls),
                Some((classical, pq)) => match welcome_halves_check(suite, classical, pq) {
                    Err(e) => Some(e),
                    Ok(()) => None,
                },
            },
        }
    }
}

/// Check what a welcome is to be accepted with. `client_id` is the invitation identity that
/// the peer initiated toward: the session id derives from it, whatever principal the session
/// then runs under.
pub fn accept_plan(
    client_id: &ClientId,
    suite: ApqCipherSuite,
    welcome: &[u8],
    their_classical_key_package: &[u8],
    bootstrap_kp_commitment: &[u8],
    expected_app_binding: &Option<Vec<u8>>,
) -> (r: Result<AcceptPlan>)
    ensures
        match accept_refusal(
            suite,
            welcome@,
            their_classical_key_package@,
            bootstrap_kp_commitment@,
            *expected_app_binding,
        ) {
            Some(e) => r == Err::<AcceptPlan, TwoMlsPqError>(e),
            None => {
                &&& r matches Ok(plan)
                &&& read2(welcome@, APQ_TAG) == Some(
                    (plan.classical_welcome@, plan.pq_welcome@),
                )
                &&& key_package_of(their_classical_key_package@) matches Some((id, _))
                &&& plan.their_id@ == id
                &&& plan.session_id@ == sha256_of(session_id_preimage(client_id@, id))
            },
        },
{
    match expected_app_binding {
        Some(b) => {
            if b.is_empty() {
                return Err(TwoMlsPqError::AppBindingMismatch);
            }
        },
        None => {},
    }
    if bootstrap_kp_commitment.len() != DIGEST_LEN {
        return Err(TwoMlsPqError::BootstrapKpMismatch);
    }
    match check_key_package_suite(their_classical_key_package, suite.classical) {
        Err(e) => return Err(e),
        Ok(()) => {},
    }
    let their_id = match parse_mls_key_package(their_classical_key_package) {
        Err(e) => return Err(e),
        Ok((id, _)) => id,
    };
    let session_id = derive_session_id(client_id, &their_id);
    let (classical_welcome, pq_welcome) = match decode_apq_welcome(welcome) {
        Err(e) => return Err(e),
        Ok(halves) => halves,
    };
    match validate_welcome_halves(suite, classical_welcome.as_slice(), pq_welcome.as_slice()) {
        Err(e) => return Err(e),
        Ok(()) => {},
    }
    Ok(AcceptPlan { their_id, session_id, classical_welcome, pq_welcome })
}

/// Why a joined group cannot be accepted: its creator is not the one that the key package
/// names, in either half, or its app-state binding is not the expected one, or its PQ half
/// carries one of its own.
pub open spec fn joined_refusal(
    their_id: Seq<u8>,
    joined: CombinerGroup,
    pq_unbound: Result<()>,
    expected: Option<Vec<u8>>,
) -> Option<TwoMlsPqError> {
    if joined.classical.peer_leaf@ != their_id {
        Some(TwoMlsPqError::RemoteIdentityMismatch)
    } else if joined.pq matches Some(pq) && pq.peer_leaf@ != their_id {
        Some(TwoMlsPqError::RemoteIdentityMismatch)
    } else if opt_bytes(joined.app_binding) != opt_bytes(expected) {
        Some(TwoMlsPqError::AppBindingMismatch)
    } else if joined.pq is Some && pq_unbound is Err {
        Some(pq_unbound->Err_0)
    } else {
        None
    }
}

/// Check a joined group before anything of the caller's is consumed. `pq_unbound` is what the
/// host found of the joined PQ half: whether it carries no app-state binding of its own.
pub fn check_joined(
    their_id: &ClientId,
    joined: &CombinerGroup,
    pq_unbound: Result<()>,
    expected_app_binding: &Option<Vec<u8>>,
) -> (r: Result<()>)
    ensures
        r == match joined_refusal(their_id@, *joined, pq_unbound, *expected_app_binding) {
            Some(e) => Err::<(), TwoMlsPqError>(e),
            None => Ok(()),
        },
{
    if !bytes_eq(joined.classical.peer_leaf.as_slice(), their_id.bytes.as_slice()) {
        return Err(TwoMlsPqError::RemoteIdentityMismatch);
    }
    match &joined.pq {
        Some(pq) => {
            if !bytes_eq(pq.peer_leaf.as_slice(), their_id.bytes.as_slice()) {
                return Err(TwoMlsPqError::RemoteIdentityMismatch);
            }
        },
        None => {},
    }
    if !opt_bytes_eq(&joined.app_binding, expected_app_binding) {
        return Err(TwoMlsPqError::AppBindingMismatch);
    }
    match (&joined.pq, pq_unbound) {
        (Some(_), Err(e)) => Err(e),
        _ => Ok(()),
    }
}

/// What the host made to accept a welcome: the joined receive group, the send group created
/// in return with its classical welcome, and the send group's PSK.
#[derive(Debug)]
pub struct Accepted {
    pub recv_group: CombinerGroup,
    /// Whether the joined PQ half carries no app-state binding of its own.
    pub pq_unbound: Result<()>,
    pub send_group: CombinerGroup,
    pub classical_welcome: Vec<u8>,
    pub send_psk: ExportedPsk,
}

/// The authentication steps of a session that runs under a dedicated principal.
pub open spec fn dedicated_steps(
    dedicated: Option<ClientId>,
    their_id: Seq<u8>,
) -> Seq<(AuthKind, Seq<u8>)> {
    match dedicated {
        None => Seq::empty(),
        Some(id) => seq![(AuthKind::CommitMine, id@), (AuthKind::CommitTheirs, their_id)],
    }
}

/// The session that accepting a welcome founds: with the peer that the key package names,
/// under `me`, and with the return welcome, its PQ slot empty, as its staple. The session id
/// derives from the invitation identity.
pub open spec fn accepted_session(
    s: TwoMlsPqSession,
    invitation_id: Seq<u8>,
    dedicated: Option<ClientId>,
    suite: ApqCipherSuite,
    their_id: Seq<u8>,
    made: Accepted,
    welcome: Seq<u8>,
    commitment: Seq<u8>,
    spawn_token: Option<Vec<u8>>,
) -> bool {
    let staple = tagged(APQ_TAG, parts2(made.classical_welcome@, Seq::empty()));
    let me = match dedicated {
        Some(id) => id@,
        None => invitation_id,
    };
    &&& s.wf()
    &&& s.sound()
    &&& suite == apq_suite() && group_exports(made.send_group) ==> s.live()
    &&& is_blank(
        s,
        me,
        suite,
        staple,
        sha256_of(session_id_preimage(invitation_id, their_id)),
        their_id,
        false,
    )
    &&& founded_with(s, made.send_group, made.send_psk)
    &&& s.recv_group == Some(made.recv_group)
    &&& opt_bytes(s.pending_outbound) == Some(staple)
    &&& opt_bytes(s.joined_welcome_digest) == Some(sha256_of(welcome))
    &&& s.last_cross_injected == Some(made.recv_group.classical.epoch)
    &&& s.spawn_token == spawn_token
    &&& s.initial_their_kp is None
    &&& s.bootstrap_kp is None
    &&& s.bootstrap_kp_secret is None
    &&& opt_bytes(s.expected_bootstrap_kp_commitment) == Some(commitment)
    &&& steps(s.auth_updates@) == dedicated_steps(dedicated, their_id)
}

impl TwoMlsPqSession {
    /// The session that accepting a welcome founds. Whatever would have kept the welcome from
    /// being joined is refused here too, before what was joined is looked at. The session runs
    /// under the dedicated principal if there is one, else under the invitation identity.
    pub fn accept_with(
        invitation_id: ClientId,
        dedicated: Option<ClientId>,
        suite: ApqCipherSuite,
        made: Accepted,
        welcome: &[u8],
        their_classical_key_package: &[u8],
        bootstrap_kp_commitment: Vec<u8>,
        spawn_token: Option<Vec<u8>>,
        expected_app_binding: &Option<Vec<u8>>,
    ) -> (r: Result<TwoMlsPqSession>)
        ensures
            match accept_refusal(
                suite,
                welcome@,
                their_classical_key_package@,
                bootstrap_kp_commitment@,
                *expected_app_binding,
            ) {
                Some(e) => r == Err::<TwoMlsPqSession, TwoMlsPqError>(e),
                None => {
                    &&& key_package_of(their_classical_key_package@) matches Some((their_id, _))
                    &&& match joined_refusal(
                        their_id,
                        made.recv_group,
                        made.pq_unbound,
                        *expected_app_binding,
                    ) {
                        Some(e) => r == Err::<TwoMlsPqSession, TwoMlsPqError>(e),
                        None => {
                            &&& r matches Ok(s)
                            &&& accepted_session(
                                s,
                                invitation_id@,
                                dedicated,
                                suite,
                                their_id,
                                made,
                                welcome@,
                                bootstrap_kp_commitment@,
                                spawn_token,
                            )
                        },
                    }
                },
            },
    {
        let plan = match accept_plan(
            &invitation_id,
            suite,
            welcome,
            their_classical_key_package,
            bootstrap_kp_commitment.as_slice(),
            expected_app_binding,
        ) {
            Err(e) => return Err(e),
            Ok(plan) => plan,
        };
        match check_joined(
            &plan.their_id,
            &made.recv_group,
            made.pq_unbound,
            expected_app_binding,
        ) {
            Err(e) => return Err(e),
            Ok(()) => {},
        }
        let mut auth: Vec<AuthUpdate> = Vec::new();
        proof {
            assert(steps(auth@) =~= Seq::empty());
        }
        let me = match &dedicated {
            Some(id) => {
                push_step(&mut auth, AuthKind::CommitMine, id.bytes.as_slice());
                push_step(&mut auth, AuthKind::CommitTheirs, plan.their_id.bytes.as_slice());
                proof {
                    assert(steps(auth@) =~= dedicated_steps(dedicated, plan.their_id@));
                }
                id.copy()
            },
            None => invitation_id,
        };
        let cross_epoch: u64 = made.recv_group.classical.epoch;
        let none: Vec<u8> = Vec::new();
        let return_welcome = encode_apq_welcome(made.classical_welcome, none);
        let mut s = build_session(
            me,
            suite,
            made.send_group,
            Some(made.recv_group),
            return_welcome,
            plan.session_id,
            plan.their_id,
            false,
            Some(sha256(welcome)),
        );
        s.last_cross_injected = Some(cross_epoch);
        s.expected_bootstrap_kp_commitment = Some(bootstrap_kp_commitment);
        s.auth_updates = auth;
        record_founding(&mut s, made.send_psk);
        s.spawn_token = spawn_token;
        Ok(s)
    }

    /// The session that accepting a welcome founds, under the invitation identity and without
    /// a spawn token.
    pub fn accept(
        client_id: ClientId,
        suite: ApqCipherSuite,
        made: Accepted,
        welcome: &[u8],
        their_classical_key_package: &[u8],
        bootstrap_kp_commitment: Vec<u8>,
        expected_app_binding: &Option<Vec<u8>>,
    ) -> (r: Result<TwoMlsPqSession>)
        ensures
            match accept_refusal(
                suite,
                welcome@,
                their_classical_key_package@,
                bootstrap_kp_commitment@,
                *expected_app_binding,
            ) {
                Some(e) => r == Err::<TwoMlsPqSession, TwoMlsPqError>(e),
                None => {
                    &&& key_package_of(their_classical_key_package@) matches Some((their_id, _))
                    &&& match joined_refusal(
                        their_id,
                        made.recv_group,
                        made.pq_unbound,
                        *expected_app_binding,
                    ) {
                        Some(e) => r == Err::<TwoMlsPqSession, TwoMlsPqError>(e),
                        None => {
                            &&& r matches Ok(s)
                            &&& accepted_session(
                                s,
                                client_id@,
                                None,
                                suite,
                                their_id,
                                made,
                                welcome@,
                                bootstrap_kp_commitment@,
                                None,
                            )
                        },
                    }
                },
            },
    {
        Self::accept_with(
            client_id,
            None,
            suite,
            made,
            welcome,
            their_classical_key_package,
            bootstrap_kp_commitment,
            None,
            expected_app_binding,
        )
    }
}

} // verus!
