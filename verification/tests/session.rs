//! Sessions of two parties, driven end to end. The groups are a toy: each is a shared secret
//! that commits hash forward, framed as MLS messages. Everything that a session decides,
//! seals, frames and restores is the library's.

use mls_rs::client_builder::MlsConfig;
use mls_rs::identity::basic::{BasicCredential, BasicIdentityProvider};
use mls_rs::identity::SigningIdentity;
use mls_rs::{CipherSuite, CipherSuiteProvider, Client, CryptoProvider};
use mls_rs_crypto_awslc::AwsLcCryptoProvider;
use std::cell::RefCell;
use std::collections::HashMap;
use std::rc::Rc;
use two_mls_pq::pq::archive::{
    decode_wire, encode_archive, pq_inflight_from_wire, principal_state_from_wire,
    reconcile_persisted, wire_pq_inflight, wire_principal_state, ArchiveMaterial, LoadedMaterial,
    SessionArchive, WireGroup, WireIdentityKeys, SESSION_ARCHIVE_VERSION,
};
use two_mls_pq::pq::error::{Result, TwoMlsPqError};
use two_mls_pq::pq::establish::{
    accept_plan, check_joined, initiate_plan, Accepted, EnvelopeSections, Initiated,
};
use two_mls_pq::pq::frames::{
    decode_apq_welcome, decode_message_frame, decode_proposal_section, encode_apq_welcome,
    encode_message_frame, encode_pq_rekey_commit, encode_proposal_section, OpenedFrame,
    OpenedFrameKind, PqFrameKind, SideBandSealing, APQ_PRIVATE_MESSAGE_TAG, APQ_TAG,
    INITIAL_ENVELOPE_TAG, MESSAGE_FRAME_TAG, PQ_BOOTSTRAP_KP_TAG, PQ_CT_TAG, PQ_EK_TAG,
};
use two_mls_pq::pq::incoming::{
    AppMessage, BindOutcome, BindSecret, ClassicalApplied, CommitProcessed, DecryptResult,
    IncomingOutcome, IncomingPlan, InjectPlan, JoinOutcome, PqApplied, StapleOutcome, StaplePlan,
};
use two_mls_pq::pq::key_packages::{decode_combiner_key_package, encode_combiner_key_package};
use two_mls_pq::pq::messaging::{
    finish_encrypt, CombinerGroupId, EncryptResult, ListenChannels, Outbound, ProcessedProposal,
};
use two_mls_pq::pq::persist::persisted_outcome;
use two_mls_pq::pq::pq_ops::{
    check_rekey_proposal, rekey_commit_stands, BootstrapBindOutcome, CreatedHalf, Ephemeral,
    PqCommitOutput, RatchetBindOutcome, RekeyApplyOutcome, RekeyRespondOutcome, SealedSecret,
};
use two_mls_pq::pq::prepare::{
    CommitOutcome, CommitOutput, MlsRefusal, PrepareEncryptResult, PrepareOutcome, PreparePlan,
    ProposedIdentity, RoundOutcome, UpdateOutcome,
};
use two_mls_pq::pq::sealing::{header_key_len, seal_with, seal_with_nonce};
use two_mls_pq::pq::state::{
    ApqCipherSuite, ApqEpochs, ApqInfoUpdate, AuthKind, BlobKind, CombinerGroup, ExportedPsk,
    GroupHalf, OwedBind, PqInflight, PrincipalState, TwoMlsPqSession, CANDIDATE_WINDOW, CLASSICAL_SUITE,
    PQ_SUITE,
};
use two_mls_pq::two_mls::error::TwoMlsError;
use two_mls_pq::two_mls::records::{AgentState, TwoMlsDigest, HASH_TYPE_SHA256};
use two_mls_pq::two_mls::session::TwoMlsSession;
use two_mls_pq::types::{Archive, ClientId, CombinerKeyPackage, RendezvousId, SessionId};

const SUITE: ApqCipherSuite = ApqCipherSuite { classical: CLASSICAL_SUITE, pq: PQ_SUITE };

fn ok<T>(r: Result<T>) -> T {
    match r {
        Ok(v) => v,
        Err(e) => panic!("unexpected error {e:?}"),
    }
}

fn some<T>(o: Option<T>) -> T {
    match o {
        Some(v) => v,
        None => panic!("unexpected None"),
    }
}

fn err<T>(r: Result<T>) -> TwoMlsPqError {
    match r {
        Ok(_) => panic!("unexpected success"),
        Err(e) => e,
    }
}

fn hash(parts: &[&[u8]]) -> Vec<u8> {
    let mut all = Vec::new();
    for p in parts {
        all.extend_from_slice(&(p.len() as u32).to_le_bytes());
        all.extend_from_slice(p);
    }
    mls_rs_crypto_awslc::sha256(&all).to_vec()
}

fn random(len: usize) -> Vec<u8> {
    let suite = some(
        AwsLcCryptoProvider::new().cipher_suite_provider(CipherSuite::CURVE25519_CHACHA),
    );
    let mut out = vec![0u8; len];
    if suite.random_bytes(&mut out).is_err() {
        panic!("no randomness");
    }
    out
}

// ---- plain serialisation ----

fn put(out: &mut Vec<u8>, part: &[u8]) {
    out.extend_from_slice(&(part.len() as u32).to_le_bytes());
    out.extend_from_slice(part);
}

fn put_opt(out: &mut Vec<u8>, part: &Option<Vec<u8>>) {
    match part {
        Some(p) => {
            out.push(1);
            put(out, p);
        }
        None => out.push(0),
    }
}

struct Reader<'a> {
    rest: &'a [u8],
}

impl<'a> Reader<'a> {
    fn byte(&mut self) -> Option<u8> {
        let (b, rest) = self.rest.split_first()?;
        self.rest = rest;
        Some(*b)
    }

    fn word(&mut self) -> Option<u64> {
        if self.rest.len() < 8 {
            return None;
        }
        let (w, rest) = self.rest.split_at(8);
        self.rest = rest;
        Some(u64::from_le_bytes([w[0], w[1], w[2], w[3], w[4], w[5], w[6], w[7]]))
    }

    fn part(&mut self) -> Option<Vec<u8>> {
        if self.rest.len() < 4 {
            return None;
        }
        let (l, rest) = self.rest.split_at(4);
        let len = u32::from_le_bytes([l[0], l[1], l[2], l[3]]) as usize;
        if rest.len() < len {
            return None;
        }
        let (p, rest) = rest.split_at(len);
        self.rest = rest;
        Some(p.to_vec())
    }

    fn opt(&mut self) -> Option<Option<Vec<u8>>> {
        match self.byte()? {
            0 => Some(None),
            _ => Some(Some(self.part()?)),
        }
    }
}

// ---- MLS framing ----

fn mls_vec(out: &mut Vec<u8>, part: &[u8]) {
    let n = part.len();
    if n < 64 {
        out.push(n as u8);
    } else if n < 16384 {
        out.extend_from_slice(&((n as u16) | 0x4000).to_be_bytes());
    } else {
        out.extend_from_slice(&((n as u32) | 0x8000_0000).to_be_bytes());
    }
    out.extend_from_slice(part);
}

fn mls_unvec<'a>(bytes: &'a [u8]) -> Option<(Vec<u8>, &'a [u8])> {
    let first = *bytes.first()?;
    let (head, n) = match first >> 6 {
        0 => (1, first as usize),
        1 => (2, (u16::from_be_bytes([first & 0x3F, *bytes.get(1)?])) as usize),
        2 => (
            4,
            u32::from_be_bytes([first & 0x3F, *bytes.get(1)?, *bytes.get(2)?, *bytes.get(3)?])
                as usize,
        ),
        _ => return None,
    };
    let rest = bytes.get(head..)?;
    if rest.len() < n {
        return None;
    }
    Some((rest[..n].to_vec(), &rest[n..]))
}

const APP: u8 = 1;
const PROPOSAL: u8 = 2;
const COMMIT: u8 = 3;

/// A private message as it is framed: group, epoch, content type, authenticated data, sender
/// data and ciphertext.
struct Message {
    gid: Vec<u8>,
    epoch: u64,
    kind: u8,
    aad: Vec<u8>,
    body: Vec<u8>,
}

impl Message {
    fn encode(&self) -> Vec<u8> {
        let mut out = vec![0, 1, 0, 2];
        mls_vec(&mut out, &self.gid);
        out.extend_from_slice(&self.epoch.to_be_bytes());
        out.push(self.kind);
        mls_vec(&mut out, &self.aad);
        mls_vec(&mut out, &[0u8; 28]);
        mls_vec(&mut out, &self.body);
        out
    }

    fn decode(bytes: &[u8]) -> Option<Message> {
        let rest = bytes.strip_prefix(&[0, 1, 0, 2])?;
        let (gid, rest) = mls_unvec(rest)?;
        if rest.len() < 9 {
            return None;
        }
        let mut e = [0u8; 8];
        e.copy_from_slice(&rest[..8]);
        let kind = rest[8];
        let (aad, rest) = mls_unvec(&rest[9..])?;
        let (_, rest) = mls_unvec(rest)?;
        let (body, _) = mls_unvec(rest)?;
        Some(Message { gid, epoch: u64::from_be_bytes(e), kind, aad, body })
    }
}

// ---- a toy group ----

/// Prior epochs that a group's storage keeps.
const RETENTION: usize = 3;

#[derive(Clone)]
struct Group {
    suite: u16,
    gid: Vec<u8>,
    epoch: u64,
    secret: Vec<u8>,
    /// The ids of the creator's and the joiner's leaf.
    leaves: [Vec<u8>; 2],
    me: usize,
    prior: Vec<(u64, Vec<u8>)>,
    /// Whether the cross-party PSK of this epoch is spent.
    exported: bool,
    binding: Option<Vec<u8>>,
}

struct Commit {
    message: Vec<u8>,
}

impl Group {
    fn create(
        suite: u16,
        gid: Vec<u8>,
        me: &[u8],
        peer: &[u8],
        binding: Option<Vec<u8>>,
        psks: &[(Vec<u8>, Vec<u8>)],
        kp: &[u8],
    ) -> (Group, Vec<u8>) {
        let seed = random(32);
        let mut secret = hash(&[&seed, b"create"]);
        for (id, value) in psks {
            secret = hash(&[&secret, id, value]);
        }
        let group = Group {
            suite,
            gid: gid.clone(),
            epoch: 1,
            secret,
            leaves: [me.to_vec(), peer.to_vec()],
            me: 0,
            prior: Vec::new(),
            exported: false,
            binding: binding.clone(),
        };
        let mut info = Vec::new();
        put(&mut info, &hash(&[kp]));
        put(&mut info, &gid);
        put(&mut info, &seed);
        put(&mut info, me);
        put(&mut info, peer);
        put_opt(&mut info, &binding);
        info.push(psks.len() as u8);
        for (id, _) in psks {
            put(&mut info, id);
        }
        let mut welcome = vec![0, 1, 0, 3];
        welcome.extend_from_slice(&suite.to_be_bytes());
        mls_vec(&mut welcome, &[]);
        mls_vec(&mut welcome, &info);
        (group, welcome)
    }

    fn join(
        welcome: &[u8],
        owned: &[Vec<u8>],
        store: &HashMap<Vec<u8>, Vec<u8>>,
    ) -> Option<Group> {
        let rest = welcome.strip_prefix(&[0, 1, 0, 3])?;
        let suite = u16::from_be_bytes([*rest.first()?, *rest.get(1)?]);
        let (_, rest) = mls_unvec(&rest[2..])?;
        let (info, _) = mls_unvec(rest)?;
        let mut r = Reader { rest: &info };
        let addressed = r.part()?;
        if !owned.iter().any(|kp| hash(&[kp]) == addressed) {
            return None;
        }
        let gid = r.part()?;
        let seed = r.part()?;
        let creator = r.part()?;
        let joiner = r.part()?;
        let binding = r.opt()?;
        let mut secret = hash(&[&seed, b"create"]);
        for _ in 0..r.byte()? {
            let id = r.part()?;
            let value = store.get(&id)?;
            secret = hash(&[&secret, &id, value]);
        }
        Some(Group {
            suite,
            gid,
            epoch: 1,
            secret,
            leaves: [creator, joiner],
            me: 1,
            prior: Vec::new(),
            exported: false,
            binding,
        })
    }

    fn half(&self) -> GroupHalf {
        GroupHalf {
            group_id: self.gid.clone(),
            epoch: self.epoch,
            my_index: self.me as u32,
            my_leaf: self.leaves[self.me].clone(),
            peer_leaf: self.leaves[1 - self.me].clone(),
            rendezvous: hash(&[&self.secret, b"rendezvous"]),
            header_key: hash(&[&self.secret, b"header"]),
            ct_seal_psk: hash(&[&self.secret, b"ct"]),
            retained: self.prior.iter().map(|(e, _)| *e).collect(),
        }
    }

    fn secret_at(&self, epoch: u64) -> Option<Vec<u8>> {
        if epoch == self.epoch {
            return Some(self.secret.clone());
        }
        self.prior.iter().find(|(e, _)| *e == epoch).map(|(_, s)| s.clone())
    }

    fn frame(&self, kind: u8, aad: &[u8], content: &[u8]) -> Vec<u8> {
        let mut body = vec![self.me as u8];
        put(&mut body, content);
        let mac = hash(&[&self.secret, &[kind], aad, &body]);
        body.extend_from_slice(&mac);
        Message { gid: self.gid.clone(), epoch: self.epoch, kind, aad: aad.to_vec(), body }.encode()
    }

    /// The sender, the authenticated data and the content of a message of this group.
    fn unframe(&self, bytes: &[u8], kind: u8) -> Option<(usize, Vec<u8>, Vec<u8>, u64)> {
        let m = Message::decode(bytes)?;
        if m.gid != self.gid || m.kind != kind || m.body.len() < 33 {
            return None;
        }
        let secret = self.secret_at(m.epoch)?;
        let (body, mac) = m.body.split_at(m.body.len() - 32);
        if hash(&[&secret, &[kind], &m.aad, body]) != mac {
            return None;
        }
        let sender = body[0] as usize;
        if sender == self.me || sender > 1 {
            return None;
        }
        let content = Reader { rest: &body[1..] }.part()?;
        Some((sender, m.aad, content, m.epoch))
    }

    /// The id of this epoch's cross-party PSK: the epoch, then the group.
    fn psk_id(&self) -> Vec<u8> {
        let mut id = self.epoch.to_le_bytes().to_vec();
        id.extend_from_slice(&self.gid);
        id
    }

    /// Export the cross-party PSK. Once per epoch.
    fn export_cross(&mut self) -> Result<ExportedPsk> {
        if self.exported {
            return Err(TwoMlsPqError::Mls);
        }
        self.exported = true;
        Ok(ExportedPsk {
            component_id: 7,
            psk_id: self.psk_id(),
            psk: hash(&[&self.secret, b"cross"]),
        })
    }

    /// The PSK that binds a classical commit to this PQ epoch.
    fn apq_psk(&self) -> (Vec<u8>, Vec<u8>) {
        let mut id = b"apq".to_vec();
        id.extend_from_slice(&self.psk_id());
        (id, hash(&[&self.secret, b"apq"]))
    }

    fn propose(&self, leaf: &[u8], announced: &[u8]) -> Vec<u8> {
        self.frame(PROPOSAL, announced, leaf)
    }

    fn process_proposal(&self, bytes: &[u8]) -> ProcessedProposal {
        match self.unframe(bytes, PROPOSAL) {
            Some((sender, aad, leaf, epoch)) if epoch == self.epoch => {
                ProcessedProposal::Proposal {
                    member: Some(sender as u32),
                    is_update: true,
                    leaf: Some(leaf),
                    authenticated_data: aad,
                }
            }
            _ => ProcessedProposal::Refused { refusal: MlsRefusal::Other },
        }
    }

    fn advance(&mut self, content: &[u8], values: &[Vec<u8>]) {
        self.prior.push((self.epoch, self.secret.clone()));
        if self.prior.len() > RETENTION {
            self.prior.remove(0);
        }
        let mut next = hash(&[&self.secret, content]);
        for v in values {
            next = hash(&[&next, v]);
        }
        self.secret = next;
        self.epoch += 1;
        self.exported = false;
    }

    fn commit(
        &mut self,
        own_leaf: &[u8],
        folded: Option<Vec<u8>>,
        psks: &[(Vec<u8>, Vec<u8>)],
        attestation: Option<ApqInfoUpdate>,
    ) -> Commit {
        let mut content = Vec::new();
        put(&mut content, own_leaf);
        put_opt(&mut content, &folded);
        match attestation {
            Some(a) => {
                content.push(1);
                content.extend_from_slice(&a.t_epoch.to_le_bytes());
                content.extend_from_slice(&a.pq_epoch.to_le_bytes());
            }
            None => content.push(0),
        }
        content.push(psks.len() as u8);
        for (id, _) in psks {
            put(&mut content, id);
        }
        put(&mut content, &random(32));
        let message = self.frame(COMMIT, &[], &content);
        let values: Vec<Vec<u8>> = psks.iter().map(|(_, v)| v.clone()).collect();
        self.advance(&content, &values);
        self.leaves[self.me] = own_leaf.to_vec();
        if let Some(leaf) = folded {
            self.leaves[1 - self.me] = leaf;
        }
        Commit { message }
    }

    fn apply(
        &mut self,
        bytes: &[u8],
        store: &HashMap<Vec<u8>, Vec<u8>>,
    ) -> Option<Option<ApqInfoUpdate>> {
        let (sender, _, content, epoch) = self.unframe(bytes, COMMIT)?;
        if epoch != self.epoch {
            return None;
        }
        let mut r = Reader { rest: &content };
        let leaf = r.part()?;
        let folded = r.opt()?;
        let attestation = match r.byte()? {
            0 => None,
            _ => Some(ApqInfoUpdate { t_epoch: r.word()?, pq_epoch: r.word()? }),
        };
        let mut values = Vec::new();
        for _ in 0..r.byte()? {
            values.push(store.get(&r.part()?)?.clone());
        }
        self.advance(&content, &values);
        self.leaves[sender] = leaf;
        if let Some(mine) = folded {
            self.leaves[self.me] = mine;
        }
        Some(attestation)
    }

    fn snapshot(&self) -> Vec<u8> {
        let mut out = Vec::new();
        out.extend_from_slice(&(self.suite as u64).to_le_bytes());
        put(&mut out, &self.gid);
        out.extend_from_slice(&self.epoch.to_le_bytes());
        put(&mut out, &self.secret);
        put(&mut out, &self.leaves[0]);
        put(&mut out, &self.leaves[1]);
        out.push(self.me as u8);
        out.push(self.exported as u8);
        put_opt(&mut out, &self.binding);
        out.push(self.prior.len() as u8);
        for (e, s) in &self.prior {
            out.extend_from_slice(&e.to_le_bytes());
            put(&mut out, s);
        }
        out
    }

    fn load(bytes: &[u8]) -> Option<Group> {
        let mut r = Reader { rest: bytes };
        let suite = r.word()? as u16;
        let gid = r.part()?;
        let epoch = r.word()?;
        let secret = r.part()?;
        let leaves = [r.part()?, r.part()?];
        let me = r.byte()? as usize;
        let exported = r.byte()? != 0;
        let binding = r.opt()?;
        let mut prior = Vec::new();
        for _ in 0..r.byte()? {
            let e = r.word()?;
            prior.push((e, r.part()?));
        }
        Some(Group { suite, gid, epoch, secret, leaves, me, prior, exported, binding })
    }
}

#[derive(Clone)]
struct Pair {
    classical: Group,
    pq: Option<Group>,
}

impl Pair {
    fn combiner(&self) -> CombinerGroup {
        CombinerGroup {
            classical: self.classical.half(),
            pq: self.pq.as_ref().map(|g| g.half()),
            app_binding: self.classical.binding.clone(),
        }
    }

    fn wire(&self) -> WireGroup {
        (self.classical.snapshot(), self.pq.as_ref().map(|g| g.snapshot()))
    }

    fn load(wire: &WireGroup) -> Result<Pair> {
        let classical = Group::load(&wire.0).ok_or(TwoMlsPqError::ArchiveInvalid)?;
        let pq = match &wire.1 {
            Some(b) => Some(Group::load(b).ok_or(TwoMlsPqError::ArchiveInvalid)?),
            None => None,
        };
        Ok(Pair { classical, pq })
    }
}

// ---- principals ----

/// An identity and the key packages whose private halves it holds.
#[derive(Clone)]
struct Principal {
    id: Vec<u8>,
    owned: Rc<RefCell<Vec<Vec<u8>>>>,
}

fn test_client_id() -> Vec<u8> {
    random(32)
}

fn make_client() -> Principal {
    Principal { id: test_client_id(), owned: Rc::new(RefCell::new(Vec::new())) }
}

fn mls_client(id: &[u8], suite: CipherSuite) -> Client<impl MlsConfig> {
    let crypto = AwsLcCryptoProvider::new();
    let provider = some(crypto.cipher_suite_provider(suite));
    let (secret, public) = match provider.signature_key_generate() {
        Ok(pair) => pair,
        Err(_) => panic!("no signing key"),
    };
    let identity = SigningIdentity::new(
        BasicCredential::new(id.to_vec()).into_credential(),
        public,
    );
    Client::builder()
        .identity_provider(BasicIdentityProvider::new())
        .crypto_provider(crypto)
        .signing_identity(identity, secret, suite)
        .build()
}

fn key_package_bytes(id: &[u8], suite: CipherSuite) -> Vec<u8> {
    let client = mls_client(id, suite);
    let made = client.generate_key_package_message(Default::default(), Default::default(), None);
    match made {
        Ok(m) => match m.to_bytes() {
            Ok(b) => b,
            Err(_) => panic!("key package does not encode"),
        },
        Err(_) => panic!("no key package"),
    }
}

impl Principal {
    fn client_id(&self) -> ClientId {
        ClientId { bytes: self.id.clone() }
    }

    fn key_package(&self, suite: CipherSuite) -> Vec<u8> {
        let kp = key_package_bytes(&self.id, suite);
        self.owned.borrow_mut().push(kp.clone());
        kp
    }
}

fn make_classical_kp(p: &Principal) -> Vec<u8> {
    p.key_package(CipherSuite::CURVE25519_CHACHA)
}

fn make_pq_kp(p: &Principal) -> Vec<u8> {
    p.key_package(CipherSuite::ML_KEM_768)
}

fn make_combiner_kp(p: &Principal) -> CombinerKeyPackage {
    CombinerKeyPackage { classical: make_classical_kp(p), pq: make_pq_kp(p) }
}

// ---- the establishment envelope ----

fn keystream(key: &[u8], nonce: &[u8], data: &[u8]) -> Vec<u8> {
    let mut out = Vec::new();
    for (i, chunk) in data.chunks(32).enumerate() {
        let block = hash(&[key, nonce, &(i as u64).to_le_bytes()]);
        out.extend(chunk.iter().zip(block.iter()).map(|(a, b)| a ^ b));
    }
    out
}

/// Seal an envelope to a key package.
fn seal_envelope(kp: &[u8], sections: &EnvelopeSections) -> Vec<u8> {
    let mut plain = Vec::new();
    put_opt(&mut plain, &sections.app_payload);
    put_opt(&mut plain, &sections.welcome);
    put_opt(&mut plain, &sections.return_kp);
    put_opt(&mut plain, &sections.stapled);
    let nonce = random(16);
    let mut out = vec![0x05];
    out.extend_from_slice(&nonce);
    out.extend_from_slice(&keystream(&hash(&[kp]), &nonce, &plain));
    out
}

struct Opened {
    app_payload: Option<Vec<u8>>,
    welcome: Option<Vec<u8>>,
    stapled: Option<Vec<u8>>,
}

fn open_envelope(kp: &[u8], blob: &[u8]) -> Opened {
    let plain = keystream(&hash(&[kp]), &blob[1..17], &blob[17..]);
    let mut r = Reader { rest: &plain };
    let app_payload = some(r.opt());
    let welcome = some(r.opt());
    let _return_kp = some(r.opt());
    let stapled = some(r.opt());
    Opened { app_payload, welcome, stapled }
}

// ---- a party ----

type Pushes = Rc<RefCell<Vec<(u64, BlobKind, Vec<u8>)>>>;

/// What a party's host holds besides the session: groups, PSK store, credential sequences and
/// key packages.
struct Host {
    send: Option<Pair>,
    recv: Option<Pair>,
    store: HashMap<Vec<u8>, Vec<u8>>,
    mine: (Vec<Vec<u8>>, Vec<Vec<u8>>),
    theirs: (Vec<Vec<u8>>, Vec<Vec<u8>>),
    owned: Vec<Vec<u8>>,
    sink: Option<Pushes>,
    deferred_pq_gid: Vec<u8>,
}

struct Inner {
    s: TwoMlsPqSession,
    h: Host,
}

struct Party {
    inner: RefCell<Inner>,
}

fn no<T>() -> Result<T> {
    Err(TwoMlsPqError::Mls)
}

fn empty_staple() -> StapleOutcome {
    StapleOutcome {
        send_psk: no(),
        join: JoinOutcome { joined: no(), pq_unbound: Ok(()) },
        bind: BindOutcome { secret: no(), pq: None, classical: None },
        commit: CommitProcessed::NotACommit,
    }
}

impl Inner {
    /// Tell the authentication service what is new, and push the blob that is due.
    fn flush(&mut self) {
        for step in self.s.take_auth_updates() {
            let seq = match step.kind {
                AuthKind::AuthorizeMine | AuthKind::CommitMine => &mut self.h.mine,
                AuthKind::AuthorizeTheirs | AuthKind::CommitTheirs => &mut self.h.theirs,
            };
            match step.kind {
                AuthKind::AuthorizeMine | AuthKind::AuthorizeTheirs => seq.1.push(step.id),
                AuthKind::CommitMine | AuthKind::CommitTheirs => {
                    seq.0.push(step.id);
                    seq.1.clear();
                }
            }
        }
        if let Some(push) = self.s.take_push() {
            let material = self.material();
            let blob = match push.kind {
                BlobKind::Core => ok(self.s.encode_core(material)),
                BlobKind::Checkpoint => ok(self.s.encode_checkpoint(material)),
            };
            if let Some(sink) = &self.h.sink {
                sink.borrow_mut().push((push.seq, push.kind, blob));
            }
        }
    }

    fn material(&self) -> ArchiveMaterial {
        let kps: Vec<(Vec<u8>, Vec<u8>)> =
            self.h.owned.iter().map(|kp| (hash(&[kp]), kp.clone())).collect();
        let keys = |id: &[u8]| -> WireIdentityKeys {
            (hash(&[id, b"classical"]), (hash(&[id, b"pq"]), (kps.clone(), Vec::new())))
        };
        ArchiveMaterial {
            client: keys(&self.s.client_id.bytes),
            candidates: self.s.staged_candidates.iter().map(|id| keys(id)).collect(),
            auth_mine: self.h.mine.clone(),
            auth_theirs: self.h.theirs.clone(),
            send_group: self.h.send.as_ref().map(|p| p.wire()).ok_or(TwoMlsPqError::Mls),
            recv_group: self.h.recv.as_ref().map(|p| p.wire()).ok_or(TwoMlsPqError::Mls),
        }
    }

    /// Carry out the injection of the send PSK ledger.
    fn inject(&mut self, plan: &Option<InjectPlan>) -> Result<ExportedPsk> {
        let mut exported = no();
        if let Some(p) = plan {
            for entry in &self.s.send_psk_ledger {
                self.h.store.insert(entry.exported.psk_id.clone(), entry.exported.psk.clone());
            }
            if p.export {
                exported = match &mut self.h.send {
                    Some(pair) => pair.classical.export_cross(),
                    None => no(),
                };
                if let Ok(psk) = &exported {
                    self.h.store.insert(psk.psk_id.clone(), psk.psk.clone());
                }
            }
            for gone in &p.forget {
                self.h.store.remove(&gone.psk_id);
            }
        }
        exported
    }

    fn prepare(&mut self, proposing: Option<ClientId>) -> Result<PrepareEncryptResult> {
        let mut out = PrepareOutcome {
            round: RoundOutcome {
                departing_psk: no(),
                cross_psk: no(),
                fold: Err(MlsRefusal::Other),
                commit: CommitOutcome {
                    bind_psk: no(),
                    built: Err(MlsRefusal::Other),
                    new_psk: no(),
                },
            },
            update: UpdateOutcome { minted: Ok(()), message: Err(MlsRefusal::Other) },
        };
        if let Ok(PreparePlan::Ratchet { commit, mint: _, identity }) =
            self.s.prepare_plan(&proposing)
        {
            let mut going = true;
            if let Some(plan) = commit {
                let mut stopped = false;
                let send = some(self.h.send.as_mut());
                let recv = some(self.h.recv.as_mut());
                let mut psks = Vec::new();
                if plan.export_departing {
                    out.round.departing_psk = send.classical.export_cross();
                }
                if plan.export_cross {
                    match recv.classical.export_cross() {
                        Ok(psk) => {
                            psks.push((psk.psk_id, psk.psk));
                            out.round.cross_psk = Ok(());
                        }
                        Err(e) => {
                            out.round.cross_psk = Err(e);
                            stopped = true;
                        }
                    }
                }
                let mut folded = None;
                if let Some(message) = &plan.fold {
                    match send.classical.process_proposal(message) {
                        ProcessedProposal::Proposal { leaf, .. } => {
                            folded = leaf;
                            out.round.fold = Ok(());
                        }
                        _ => stopped = true,
                    }
                }
                let mut attestation = None;
                match plan.bind {
                    None => {}
                    Some(Err(_)) => stopped = true,
                    Some(Ok(a)) => {
                        let pq = some(send.pq.as_ref());
                        psks.push(pq.apq_psk());
                        out.round.commit.bind_psk = Ok(());
                        attestation = Some(a);
                    }
                }
                if !stopped {
                    let leaf = if plan.handoff {
                        self.s.client_id.bytes.clone()
                    } else {
                        send.classical.leaves[send.classical.me].clone()
                    };
                    let made = send.classical.commit(&leaf, folded, &psks, attestation);
                    out.round.commit.built = Ok(CommitOutput {
                        half: send.classical.half(),
                        two_party: true,
                        message: Some(made.message),
                    });
                    out.round.commit.new_psk = send.classical.export_cross();
                }
                going = self.s.round_stands(&out.round);
            }
            if let (true, Ok(identity)) = (going, identity) {
                let recv = some(self.h.recv.as_ref());
                let leaf = match identity {
                    ProposedIdentity::Candidate { id } => id,
                    ProposedIdentity::Current => self.s.client_id.bytes.clone(),
                    ProposedIdentity::Unchanged => {
                        recv.classical.leaves[recv.classical.me].clone()
                    }
                };
                out.update.message = Ok(recv.classical.propose(&leaf, &[]));
            }
        }
        let r = self.s.prepare_to_encrypt(proposing, out);
        self.flush();
        r
    }

    fn encrypt(&mut self, data: Vec<u8>) -> Result<EncryptResult> {
        let app = match self.s.encrypt_plan() {
            Ok(aad) => self.h.send.as_ref().map(|p| p.classical.frame(APP, &aad, &data)),
            Err(_) => None,
        };
        let kp = self.s.initial_their_kp.as_ref().map(|kp| kp.pq.clone());
        let r = match self.s.encrypt(app) {
            Err(e) => Err(e),
            Ok(m) => {
                let envelope = match (&m.outbound, &kp) {
                    (Outbound::Envelope { sections }, Some(kp)) => Ok(seal_envelope(kp, sections)),
                    _ => no(),
                };
                finish_encrypt(m, envelope)
            }
        };
        self.flush();
        r
    }

    /// Carry out what a staple asks for.
    fn staple(&mut self, plan: &StaplePlan) -> StapleOutcome {
        let mut out = empty_staple();
        match plan {
            StaplePlan::Nothing => {}
            StaplePlan::Join { plan } => {
                out.send_psk = self.inject(&plan.inject);
                if let Ok((classical, pq)) = &plan.halves {
                    let joined = Group::join(classical, &self.h.owned, &self.h.store);
                    let partner = if pq.is_empty() {
                        Some(None)
                    } else {
                        Group::join(pq, &self.h.owned, &self.h.store).map(Some)
                    };
                    if let (Some(c), Some(p)) = (joined, partner) {
                        let pair = Pair { classical: c, pq: p };
                        out.join.joined = Ok(pair.combiner());
                        self.h.recv = Some(pair);
                    }
                }
            }
            StaplePlan::Commit { inject, message } => {
                out.send_psk = self.inject(inject);
                let recv = some(self.h.recv.as_mut());
                match recv.classical.apply(message, &self.h.store) {
                    Some(attestation) => {
                        out.commit = CommitProcessed::Commit {
                            half: recv.classical.half(),
                            attestation: Ok(attestation),
                            two_party: true,
                        };
                    }
                    None => {
                        out.commit = CommitProcessed::Refused { refusal: MlsRefusal::Other };
                    }
                }
            }
            StaplePlan::Bind { secret, inject, classical_message, pq_message } => {
                let value = match secret {
                    BindSecret::Held { secret } => {
                        out.bind.secret = Ok(());
                        Some((b"round".to_vec(), secret.clone()))
                    }
                    BindSecret::Export => {
                        let pq = some(some(self.h.send.as_mut()).pq.as_mut());
                        match pq.export_cross() {
                            Ok(psk) => {
                                out.bind.secret = Ok(());
                                Some((psk.psk_id, psk.psk))
                            }
                            Err(e) => {
                                out.bind.secret = Err(e);
                                None
                            }
                        }
                    }
                };
                if let Some((id, value)) = value {
                    self.h.store.insert(id.clone(), value);
                    out.send_psk = self.inject(inject);
                    let recv = some(self.h.recv.as_mut());
                    if let Some(pq) = recv.pq.as_mut() {
                        if let Some(Some(attestation)) = pq.apply(pq_message, &self.h.store) {
                            out.bind.pq = Some(PqApplied { half: pq.half(), attestation });
                            let (apq_id, apq) = pq.apq_psk();
                            self.h.store.insert(apq_id, apq);
                            if let Some(a) = recv.classical.apply(classical_message, &self.h.store)
                            {
                                out.bind.classical = Some(ClassicalApplied {
                                    half: recv.classical.half(),
                                    attestation: a,
                                    two_party: true,
                                });
                            }
                        }
                    }
                    self.h.store.remove(&id);
                }
            }
        }
        out
    }

    fn app_message(&self, bytes: &[u8]) -> Option<AppMessage> {
        let recv = self.h.recv.as_ref()?;
        let (sender, _, data, _) = recv.classical.unframe(bytes, APP)?;
        Some(AppMessage { sender: recv.classical.leaves[sender].clone(), data })
    }

    fn process(&mut self, blob: Vec<u8>) -> Result<Option<DecryptResult>> {
        let mut out = IncomingOutcome {
            staple: empty_staple(),
            app: None,
            offer: ProcessedProposal::NotAProposal,
        };
        let before = self.s.clone();
        match before.incoming_plan(blob.clone()) {
            Err(_) => {}
            Ok(IncomingPlan::Welcome { staple }) => out.staple = self.staple(&staple),
            Ok(IncomingPlan::App { app }) => out.app = self.app_message(&app),
            Ok(IncomingPlan::Message { staple, app, proposal }) => {
                out.staple = self.staple(&staple);
                if before.staple_stands(&staple, &out.staple) {
                    out.app = self.app_message(&app);
                    if let (Ok((_, message)), Some(send)) =
                        (decode_proposal_section(&proposal), &self.h.send)
                    {
                        out.offer = send.classical.process_proposal(&message);
                    }
                }
            }
        }
        let r = self.s.process_incoming(blob, out);
        self.flush();
        r
    }
}

impl Party {
    fn new(s: TwoMlsPqSession, h: Host) -> Party {
        let party = Party { inner: RefCell::new(Inner { s, h }) };
        party.inner.borrow_mut().flush();
        party
    }

    fn with<T>(&self, f: impl FnOnce(&TwoMlsPqSession) -> T) -> T {
        f(&self.inner.borrow().s)
    }

    fn act<T>(&self, f: impl FnOnce(&mut Inner) -> T) -> T {
        let mut inner = self.inner.borrow_mut();
        let r = f(&mut inner);
        inner.flush();
        r
    }

    fn initiate(
        me: &Principal,
        their_kp: CombinerKeyPackage,
        app_binding: Option<Vec<u8>>,
    ) -> Result<Party> {
        let plan = initiate_plan(&me.client_id(), SUITE, &their_kp, &app_binding)?;
        let (classical, classical_welcome) = Group::create(
            CLASSICAL_SUITE,
            random(16),
            &me.id,
            &plan.their_id.bytes,
            app_binding.clone(),
            &[],
            &their_kp.classical,
        );
        let (pq, pq_welcome) = Group::create(
            PQ_SUITE,
            random(16),
            &me.id,
            &plan.their_id.bytes,
            None,
            &[],
            &their_kp.pq,
        );
        let mut pair = Pair { classical, pq: Some(pq) };
        let send_psk = pair.classical.export_cross()?;
        let bootstrap_kp = key_package_bytes(&me.id, CipherSuite::ML_KEM_768);
        let theirs = plan.their_id.bytes.clone();
        let kp_pq = their_kp.pq.clone();
        let mut s = TwoMlsPqSession::initiate(
            me.client_id(),
            SUITE,
            their_kp,
            &app_binding,
            Initiated {
                send_group: pair.combiner(),
                classical_welcome,
                pq_welcome,
                send_psk,
                bootstrap_kp_secret: bootstrap_kp.clone(),
                bootstrap_kp,
            },
        )?;
        let sections = s.compose_initial_envelope(None)?;
        s.park_envelope(seal_envelope(&kp_pq, &sections));
        let h = Host {
            send: Some(pair),
            recv: None,
            store: HashMap::new(),
            mine: (vec![me.id.clone()], Vec::new()),
            theirs: (vec![theirs], Vec::new()),
            owned: me.owned.borrow().clone(),
            sink: None,
            deferred_pq_gid: Vec::new(),
        };
        Ok(Party::new(s, h))
    }

    fn accept_with(
        me: &Principal,
        dedicated: Option<Vec<u8>>,
        welcome: Vec<u8>,
        their_kp: Vec<u8>,
        commitment: Vec<u8>,
        token: Option<Vec<u8>>,
        expected: Option<Vec<u8>>,
    ) -> Result<Party> {
        let plan =
            accept_plan(&me.client_id(), SUITE, &welcome, &their_kp, &commitment, &expected)?;
        let owned = me.owned.borrow().clone();
        let store = HashMap::new();
        let classical = Group::join(&plan.classical_welcome, &owned, &store)
            .ok_or(TwoMlsPqError::Mls)?;
        let pq = Group::join(&plan.pq_welcome, &owned, &store).ok_or(TwoMlsPqError::Mls)?;
        let pq_unbound = match pq.binding {
            Some(_) => Err(TwoMlsPqError::AppBindingMismatch),
            None => Ok(()),
        };
        let mut recv = Pair { classical, pq: Some(pq) };
        check_joined(&plan.their_id, &recv.combiner(), pq_unbound, &expected)?;
        let bound = recv.classical.export_cross()?;
        let id = dedicated.clone().unwrap_or(me.id.clone());
        let (send, classical_welcome) = Group::create(
            CLASSICAL_SUITE,
            random(16),
            &id,
            &plan.their_id.bytes,
            recv.classical.binding.clone(),
            &[(bound.psk_id, bound.psk)],
            &their_kp,
        );
        let mut send = Pair { classical: send, pq: None };
        let send_psk = send.classical.export_cross()?;
        let theirs = plan.their_id.bytes.clone();
        let s = TwoMlsPqSession::accept_with(
            me.client_id(),
            dedicated.map(|bytes| ClientId { bytes }),
            SUITE,
            Accepted {
                recv_group: recv.combiner(),
                pq_unbound,
                send_group: send.combiner(),
                classical_welcome,
                send_psk,
            },
            &welcome,
            &their_kp,
            commitment,
            token,
            &expected,
        )?;
        let h = Host {
            send: Some(send),
            recv: Some(recv),
            store,
            mine: (vec![id], Vec::new()),
            theirs: (vec![theirs], Vec::new()),
            owned,
            sink: None,
            deferred_pq_gid: random(16),
        };
        Ok(Party::new(s, h))
    }

    fn accept(me: &Principal, welcome: Vec<u8>, their_kp: Vec<u8>, commitment: Vec<u8>) -> Result<Party> {
        Party::accept_with(me, None, welcome, their_kp, commitment, None, None)
    }

    fn prepare_to_encrypt(&self, proposing: Option<ClientId>) -> Result<PrepareEncryptResult> {
        self.inner.borrow_mut().prepare(proposing)
    }

    fn encrypt(&self, data: Vec<u8>) -> Result<EncryptResult> {
        self.inner.borrow_mut().encrypt(data)
    }

    fn process_incoming(&self, blob: Vec<u8>) -> Result<Option<DecryptResult>> {
        self.inner.borrow_mut().process(blob)
    }

    fn open_incoming(&self, blob: Vec<u8>) -> Result<Option<OpenedFrame>> {
        self.with(|s| s.open_incoming(blob))
    }

    fn queue_proposal(&self, digest: Vec<u8>) -> Result<()> {
        self.act(|i| {
            let processed = match (&i.s.offered_proposal, &i.h.send) {
                (Some(offer), Some(send)) => send.classical.process_proposal(&offer.message),
                _ => ProcessedProposal::NotAProposal,
            };
            i.s.queue_proposal(&digest, &processed)
        })
    }

    fn stage_rotation(&self, id: Vec<u8>) -> Result<()> {
        self.act(|i| i.s.stage_rotation(id, Ok(())))
    }

    fn queued_remote_successor(&self) -> Option<ClientId> {
        self.with(|s| s.queued_remote_successor())
    }

    fn should_listen_on(&self) -> Result<ListenChannels> {
        self.act(|i| i.s.should_listen_on())
    }

    fn send_rendezvous(&self) -> Option<RendezvousId> {
        self.with(|s| s.send_rendezvous())
    }

    fn pending_outbound(&self) -> Option<Vec<u8>> {
        self.act(|i| i.s.pending_outbound())
    }

    fn initial_welcome(&self) -> Vec<u8> {
        some(self.with(|s| s.initial_welcome()))
    }

    fn commitment(&self) -> Vec<u8> {
        some(self.with(|s| s.bootstrap_kp_commitment()))
    }

    fn my_principal_state(&self) -> PrincipalState {
        self.with(|s| s.my_principal_state())
    }

    fn their_principal_state(&self) -> PrincipalState {
        self.with(|s| s.their_principal_state())
    }

    fn is_established(&self) -> bool {
        self.with(|s| s.is_established())
    }

    fn is_fully_established(&self) -> bool {
        self.with(|s| s.is_fully_established())
    }

    fn has_receive_group(&self) -> bool {
        self.with(|s| s.has_receive_group())
    }

    fn receive_group_id(&self) -> Option<CombinerGroupId> {
        self.with(|s| s.receive_group_id())
    }

    fn proposal_context(&self) -> Option<Vec<u8>> {
        self.with(|s| s.proposal_context())
    }

    fn active_session_id(&self) -> SessionId {
        self.with(|s| s.active_session_id())
    }

    fn epochs(&self) -> ApqEpochs {
        self.with(|s| s.epochs())
    }

    fn state_seq(&self) -> u64 {
        self.with(|s| s.state_seq())
    }

    fn my_pq_turn(&self) -> bool {
        self.with(|s| s.my_pq_turn())
    }

    fn forwarded(&self, token: Vec<u8>) -> Result<Option<two_mls_pq::types::MlsSenderMessage>> {
        self.with(|s| s.forwarded(&token))
    }

    // ---- the side-band ----

    fn pq_pending_outbound(&self, sealing: SideBandSealing) -> Option<Vec<u8>> {
        self.act(|i| i.s.pq_pending_outbound(sealing))
    }

    fn pq_take_pending_outbound(&self) -> Option<Vec<u8>> {
        self.act(|i| i.s.pq_take_pending_outbound())
    }

    fn pq_ratchet_begin(&self) -> Result<Vec<u8>> {
        self.act(|i| {
            let ephemeral = i.s.pq_ratchet_begin_plan().map(|()| {
                let dk = random(32);
                Ephemeral { ek: hash(&[&dk, b"ek"]), dk }
            });
            i.s.pq_ratchet_begin(ephemeral)
        })
    }

    fn pq_ratchet_respond(&self, msg: Vec<u8>) -> Result<()> {
        self.act(|i| {
            let sealed = i.s.pq_ratchet_respond_plan(msg.clone()).map(|plan| {
                let secret = random(32);
                let mut ct = keystream(&plan.ek, b"kem", &secret);
                let mac = hash(&[&plan.psk, &plan.ek, &ct]);
                ct.extend_from_slice(&mac);
                SealedSecret { secret, ct }
            });
            i.s.pq_ratchet_respond(msg, sealed)
        })
    }

    fn pq_ratchet_bind(&self, msg: Vec<u8>) -> Result<()> {
        self.act(|i| {
            let mut out =
                RatchetBindOutcome { opened: no(), departing_psk: no(), commit: no() };
            if let Ok(plan) = i.s.pq_ratchet_bind_plan(msg.clone()) {
                let ek = hash(&[&plan.dk, b"ek"]);
                if plan.ct.len() == 64 && hash(&[&plan.psk, &ek, &plan.ct[..32]]) == plan.ct[32..] {
                    out.opened = Ok(());
                    let secret = keystream(&ek, b"kem", &plan.ct[..32]);
                    let send = some(i.h.send.as_mut());
                    if plan.export_departing {
                        out.departing_psk = send.classical.export_cross();
                    }
                    if let Ok(a) = plan.attestation {
                        let pq = some(send.pq.as_mut());
                        let leaf = pq.leaves[pq.me].clone();
                        let made =
                            pq.commit(&leaf, None, &[(b"round".to_vec(), secret)], Some(a));
                        out.commit = Ok(PqCommitOutput { half: pq.half(), commit: made.message });
                    }
                }
            }
            i.s.pq_ratchet_bind(msg, out)
        })
    }

    fn pq_rekey_begin(&self, rotating: Option<ClientId>) -> Result<Vec<u8>> {
        self.act(|i| {
            let mut proposal = Err(MlsRefusal::Other);
            if let Ok(plan) = i.s.pq_rekey_begin_plan(&rotating) {
                let pq = some(some(i.h.recv.as_ref()).pq.as_ref());
                let leaf = plan.handoff.clone().unwrap_or(pq.leaves[pq.me].clone());
                proposal = Ok(pq.propose(&leaf, &plan.handoff.unwrap_or_default()));
            }
            i.s.pq_rekey_begin(&rotating, proposal)
        })
    }

    fn pq_rekey_respond(&self, msg: Vec<u8>) -> Result<Option<ClientId>> {
        self.act(|i| {
            let mut out = RekeyRespondOutcome {
                cross_psk: no(),
                processed: ProcessedProposal::NotAProposal,
                commit: Err(MlsRefusal::Other),
            };
            let canonical = i.h.theirs.0.clone();
            if let Ok(plan) = i.s.pq_rekey_respond_plan(msg.clone()) {
                let mut psks = Vec::new();
                if plan.export_cross {
                    let recv = some(some(i.h.recv.as_mut()).pq.as_mut());
                    if let Ok(psk) = recv.export_cross() {
                        psks.push((psk.psk_id, psk.psk));
                        out.cross_psk = Ok(());
                    }
                }
                let pq = some(some(i.h.send.as_mut()).pq.as_mut());
                out.processed = pq.process_proposal(&plan.proposal);
                let passes = check_rekey_proposal(&out.processed, plan.my_index, &canonical);
                if let (ProcessedProposal::Proposal { leaf: Some(leaf), .. }, Ok(_)) =
                    (&out.processed, passes)
                {
                    let mine = if plan.handoff {
                        i.s.client_id.bytes.clone()
                    } else {
                        pq.leaves[pq.me].clone()
                    };
                    let made = pq.commit(&mine, Some(leaf.clone()), &psks, None);
                    out.commit = Ok(CommitOutput {
                        half: pq.half(),
                        two_party: true,
                        message: Some(made.message),
                    });
                }
            }
            i.s.pq_rekey_respond(msg, &canonical, out)
        })
    }

    fn pq_rekey_apply(&self, msg: Vec<u8>) -> Result<()> {
        self.act(|i| {
            let mut out = RekeyApplyOutcome {
                send_psk: no(),
                applied: CommitProcessed::NotACommit,
                secret: no(),
                commit: no(),
            };
            if let Ok(plan) = i.s.pq_rekey_apply_plan(msg.clone()) {
                let Host { send, recv, store, .. } = &mut i.h;
                let send = some(some(send.as_mut()).pq.as_mut());
                let recv = some(some(recv.as_mut()).pq.as_mut());
                if plan.export_send {
                    out.send_psk = send.export_cross().map(|psk| {
                        store.insert(psk.psk_id, psk.psk);
                    });
                }
                match recv.apply(&plan.commit, store) {
                    Some(attestation) => {
                        out.applied = CommitProcessed::Commit {
                            half: recv.half(),
                            attestation: Ok(attestation),
                            two_party: true,
                        };
                        if !rekey_commit_stands(&out.applied) {
                            return i.s.pq_rekey_apply(msg, out);
                        }
                        if let Ok(psk) = recv.export_cross() {
                            out.secret = Ok(());
                            if let Ok(a) = plan.attestation {
                                let leaf = send.leaves[send.me].clone();
                                let made =
                                    send.commit(&leaf, None, &[(psk.psk_id, psk.psk)], Some(a));
                                out.commit = Ok(PqCommitOutput {
                                    half: send.half(),
                                    commit: made.message,
                                });
                            }
                        }
                    }
                    None => {
                        out.applied = CommitProcessed::Refused { refusal: MlsRefusal::Other };
                    }
                }
            }
            i.s.pq_rekey_apply(msg, out)
        })
    }

    fn pq_bootstrap_begin(&self, rotating: Option<ClientId>) -> Result<Vec<u8>> {
        self.act(|i| {
            let id = i.s.client_id.bytes.clone();
            let kept = i.s.bootstrap_kp.clone();
            let minted = match i.s.pq_bootstrap_begin_plan(&rotating) {
                Ok(true) => {
                    let kp = key_package_bytes(&id, CipherSuite::ML_KEM_768);
                    i.h.owned.push(kp.clone());
                    Ok(kp)
                }
                _ => no(),
            };
            if let Some(kp) = kept {
                i.h.owned.push(kp);
            }
            i.s.pq_bootstrap_begin(&rotating, minted)
        })
    }

    fn pq_bootstrap_respond(&self, msg: Vec<u8>) -> Result<()> {
        self.act(|i| {
            let created = i.s.pq_bootstrap_respond_plan(msg.clone()).map(|kp| {
                let me = i.s.client_id.bytes.clone();
                let theirs = i.s.their_principal_state().client_id().bytes;
                let send = some(i.h.send.as_mut());
                let gid = i.h.deferred_pq_gid.clone();
                let (group, welcome) =
                    Group::create(PQ_SUITE, gid, &me, &theirs, None, &[], &kp);
                let half = group.half();
                send.pq = Some(group);
                CreatedHalf { half, welcome }
            });
            i.s.pq_bootstrap_respond(msg, created)
        })
    }

    fn pq_bootstrap_bind(&self, msg: Vec<u8>) -> Result<()> {
        self.act(|i| {
            let mut out = BootstrapBindOutcome { joined: no(), secret: no(), commit: no() };
            if let Ok(plan) = i.s.pq_bootstrap_bind_plan(msg.clone()) {
                if let Some(kp) = plan.key_package_secret {
                    i.h.owned.push(kp);
                }
                if let Some(mut joined) = Group::join(&plan.welcome, &i.h.owned, &i.h.store) {
                    out.joined = Ok(joined.half());
                    if let Ok(psk) = joined.export_cross() {
                        out.secret = Ok(());
                        if let Ok(a) = plan.attestation {
                            let pq = some(some(i.h.send.as_mut()).pq.as_mut());
                            let leaf = pq.leaves[pq.me].clone();
                            let made =
                                pq.commit(&leaf, None, &[(psk.psk_id, psk.psk)], Some(a));
                            out.commit =
                                Ok(PqCommitOutput { half: pq.half(), commit: made.message });
                        }
                    }
                    some(i.h.recv.as_mut()).pq = Some(joined);
                }
            }
            i.s.pq_bootstrap_bind(msg, out)
        })
    }

    // ---- persistence ----

    fn archive(&self) -> Result<Archive> {
        self.act(|i| {
            let material = i.material();
            i.s.archive(material)
        })
    }

    fn install_sink(&self, sink: Pushes) -> Result<()> {
        self.act(|i| {
            let r = i.s.install_sink();
            if r.is_ok() {
                i.h.sink = Some(sink);
            }
            r
        })
    }

    fn load(wire: &SessionArchive) -> (LoadedMaterial, Result<Host>) {
        let send = Pair::load(&wire.send_group);
        let recv = match &wire.recv_group {
            Some(g) => Pair::load(g).map(Some),
            None => Ok(None),
        };
        let loaded = LoadedMaterial {
            client: Ok(()),
            candidates: Ok(()),
            send_group: send.as_ref().map(|p| p.combiner()).map_err(|e| *e),
            recv_group: match &recv {
                Ok(Some(p)) => Ok(p.combiner()),
                Ok(None) => no(),
                Err(e) => Err(*e),
            },
            psks: Ok(()),
        };
        let host = match (send, recv) {
            (Ok(send), Ok(recv)) => Ok(Host {
                send: Some(send),
                recv,
                store: HashMap::new(),
                mine: wire.auth_mine.clone(),
                theirs: wire.auth_theirs.clone(),
                owned: ((wire.client.1).1).1 .0.iter().map(|(_, kp)| kp.clone()).collect(),
                sink: None,
                deferred_pq_gid: random(16),
            }),
            _ => Err(TwoMlsPqError::ArchiveInvalid),
        };
        (loaded, host)
    }

    fn from_archive(archive: Archive) -> Result<Party> {
        let wire = decode_wire(&archive)?;
        let (loaded, host) = Party::load(&wire);
        let s = TwoMlsPqSession::from_archive(&archive, loaded)?;
        Ok(Party::new(s, host?))
    }

    fn from_persisted(core: Option<Archive>, checkpoint: Option<Archive>) -> Result<Party> {
        let wire = reconcile_persisted(&core, &checkpoint)?;
        let (loaded, host) = Party::load(&wire);
        let s = TwoMlsPqSession::from_persisted(&core, &checkpoint, loaded)?;
        Ok(Party::new(s, host?))
    }
}

fn kinds(sink: &Pushes) -> Vec<BlobKind> {
    sink.borrow().iter().map(|(_, k, _)| *k).collect()
}

fn latest(sink: &Pushes, kind: BlobKind) -> Option<Archive> {
    sink.borrow()
        .iter()
        .filter(|(_, k, _)| *k == kind)
        .max_by_key(|(seq, _, _)| *seq)
        .map(|(_, _, bytes)| Archive { bytes: bytes.clone() })
}

fn new_sink() -> Pushes {
    Rc::new(RefCell::new(Vec::new()))
}

/// Restore a session through the push path.
fn round_trip(session: &Party) -> Party {
    let sink = new_sink();
    ok(session.install_sink(sink.clone()));
    ok(Party::from_persisted(latest(&sink, BlobKind::Core), latest(&sink, BlobKind::Checkpoint)))
}

fn establish_sessions() -> (Party, Party) {
    let alice = make_client();
    let bob = make_client();
    let alice_kp = make_classical_kp(&alice);
    let bob_kp = make_combiner_kp(&bob);

    let alice_session = ok(Party::initiate(&alice, bob_kp.clone(), None));
    let envelope = some(alice_session.pending_outbound());
    let opened = open_envelope(&bob_kp.pq, &envelope);
    let bob_session = ok(Party::accept_with(
        &bob,
        None,
        some(opened.welcome),
        alice_kp,
        alice_session.commitment(),
        Some(b"establish".to_vec()),
        None,
    ));

    let welcome_b = some(bob_session.pending_outbound());
    ok(alice_session.process_incoming(welcome_b));
    (alice_session, bob_session)
}

fn establish_confirmed_sessions() -> (Party, Party) {
    let (alice_session, bob_session) = establish_sessions();
    message_round(&alice_session, &bob_session, b"confirm-a");
    message_round(&bob_session, &alice_session, b"confirm-b");
    (alice_session, bob_session)
}

/// One plain application round: `sender` encrypts, `receiver` decrypts, payload matches.
fn message_round(sender: &Party, receiver: &Party, payload: &[u8]) {
    ok(sender.prepare_to_encrypt(None));
    let enc = ok(sender.encrypt(payload.to_vec()));
    let got = some(ok(receiver.process_incoming(enc.cipher_text)));
    assert_eq!(some(got.application_message).app_message_data, payload);
}

/// Send the owed bind to the responder, with a message: the responder's evidence comes first
/// where the initiator still lacks it.
fn discharge(initiator: &Party, responder: &Party, payload: &[u8]) -> Vec<u8> {
    if !initiator.with(|s| s.peer_applied_our_send_epoch() == Ok(true)) {
        message_round(responder, initiator, b"evidence");
    }
    assert!(ok(initiator.prepare_to_encrypt(None)).did_commit);
    let enc = ok(initiator.encrypt(payload.to_vec()));
    let got = some(ok(responder.process_incoming(enc.cipher_text)));
    some(got.application_message).app_message_data
}

/// Bootstrap the deferred halves.
fn bootstrap(alice: &Party, bob: &Party) {
    let kp = ok(alice.pq_bootstrap_begin(None));
    ok(bob.pq_bootstrap_respond(kp));
    let welcome = some(bob.pq_take_pending_outbound());
    ok(alice.pq_bootstrap_bind(welcome));
    assert_eq!(discharge(alice, bob, b"bootstrap"), b"bootstrap");
}

/// Both directions have their PQ half, and the turn is bob's.
fn establish_full() -> (Party, Party) {
    let (alice, bob) = establish_confirmed_sessions();
    bootstrap(&alice, &bob);
    (alice, bob)
}

/// One ratchet round; what the responder received with the bind.
fn ratchet_round(initiator: &Party, responder: &Party, payload: &[u8]) -> Vec<u8> {
    let ek = ok(initiator.pq_ratchet_begin());
    ok(responder.pq_ratchet_respond(ek));
    let ct = some(responder.pq_take_pending_outbound());
    ok(initiator.pq_ratchet_bind(ct));
    discharge(initiator, responder, payload)
}

/// One re-key round with `initiator` holding the turn.
fn rekey_round(initiator: &Party, responder: &Party) {
    let upd = ok(initiator.pq_rekey_begin(None));
    assert_eq!(
        some(ok(responder.open_incoming(upd.clone()))).kind,
        OpenedFrameKind::PqSideBand { kind: PqFrameKind::RekeyUpdate }
    );
    // A rotation-less re-key announces no credential.
    assert!(ok(responder.pq_rekey_respond(upd)).is_none());
    let reply = some(responder.pq_take_pending_outbound());
    ok(initiator.pq_rekey_apply(reply));
    assert_eq!(discharge(initiator, responder, b"rekey"), b"rekey");
}

/// `peer` staples an update; `committer` approves it and its next send commits it.
fn approved_commit_round(committer: &Party, peer: &Party) {
    ok(peer.prepare_to_encrypt(None));
    let upd = ok(peer.encrypt(b"upd".to_vec()));
    let got = some(ok(committer.process_incoming(upd.cipher_text)));
    ok(committer.queue_proposal(some(got.proposal).digest));
    let prepared = ok(committer.prepare_to_encrypt(None));
    assert!(prepared.did_commit);
    let frame = ok(committer.encrypt(b"commit".to_vec()));
    some(ok(peer.process_incoming(frame.cipher_text)));
}

/// One full credential rotation of `party`.
fn rotate_round(party: &Party, peer: &Party, new_id: ClientId) {
    ok(party.stage_rotation(new_id.bytes.clone()));
    assert!(matches!(party.my_principal_state(), PrincipalState::Pending { .. }));
    ok(party.prepare_to_encrypt(Some(new_id.clone())));
    let enc = ok(party.encrypt(b"rotate".to_vec()));
    let got = some(ok(peer.process_incoming(enc.cipher_text)));
    let offered = some(got.proposal);
    assert_eq!(offered.proposing.bytes, new_id.bytes);
    ok(peer.queue_proposal(offered.digest));
    let prepared = ok(peer.prepare_to_encrypt(None));
    assert!(prepared.did_commit);
    assert_eq!(some(prepared.committed_remote_client_id).bytes, new_id.bytes);
    assert_eq!(peer.their_principal_state().client_id().bytes, new_id.bytes);
    let frame = ok(peer.encrypt(b"canonicalize".to_vec()));
    let got = some(ok(party.process_incoming(frame.cipher_text)));
    let commit = some(got.remote_commit);
    assert_eq!(commit.new_recipient.bytes, new_id.bytes);
    assert_eq!(party.my_principal_state().client_id().bytes, new_id.bytes);
    assert!(matches!(party.my_principal_state(), PrincipalState::Sync { .. }));
}

/// Drive one round from `from` to `to`; what `to` received.
fn r_from(from: &Party, to: &Party, msg: &[u8]) -> DecryptResult {
    ok(from.prepare_to_encrypt(None));
    let enc = ok(from.encrypt(msg.to_vec()));
    some(ok(to.process_incoming(enc.cipher_text)))
}

/// The opened frame of a blob that `receiver` can open.
fn open_frame(receiver: &Party, blob: &[u8]) -> Vec<u8> {
    some(ok(receiver.open_incoming(blob.to_vec()))).frame
}

/// The staple of a message frame that `receiver` can open.
fn frame_staple(receiver: &Party, blob: &[u8]) -> Vec<u8> {
    let (staple, _, _) = ok(decode_message_frame(&open_frame(receiver, blob)));
    staple
}

// ---- establishment, messaging and persistence ----

#[test]
fn test_pq_bootstrap_begin_requires_turn() {
    let (_alice, bob) = establish_sessions();
    // The acceptor does not hold the turn and cannot begin the bootstrap.
    assert_eq!(err(bob.pq_bootstrap_begin(None)), TwoMlsPqError::SessionNotReady);
}

#[test]
fn test_pq_bootstrap_respond_rejects_wrong_suite_key_package() {
    let (_alice, bob) = establish_sessions();
    // A bootstrap KP must be the PQ suite (0xFDEA). Forge a bootstrap frame carrying a
    // classical-suite KP instead: the suite check rejects it before any group is stood up,
    // rather than surfacing later as an opaque mls-rs error.
    let stranger = make_client();
    let classical_kp = make_classical_kp(&stranger);
    let mut kp_msg = vec![PQ_BOOTSTRAP_KP_TAG];
    kp_msg.extend_from_slice(&classical_kp);
    assert_eq!(err(bob.pq_bootstrap_respond(kp_msg)), TwoMlsPqError::CipherSuiteMismatch);
}

#[test]
fn test_initiate_stores_outbound_welcome() {
    let alice = make_client();
    let bob = make_client();
    let bob_kp = make_combiner_kp(&bob);
    let session = ok(Party::initiate(&alice, bob_kp, None));
    assert!(session.pending_outbound().is_some());
}

#[test]
fn test_pending_outbound_returns_none_after_take() {
    let alice = make_client();
    let bob = make_client();
    let bob_kp = make_combiner_kp(&bob);
    let session = ok(Party::initiate(&alice, bob_kp, None));
    let first = session.pending_outbound();
    let second = session.pending_outbound();
    assert!(first.is_some());
    assert!(second.is_none());
}

#[test]
fn test_is_established_false_before_both_groups_ready() {
    let alice = make_client();
    let bob = make_client();
    let bob_kp = make_combiner_kp(&bob);
    let session = ok(Party::initiate(&alice, bob_kp, None));
    assert!(!session.is_established());
}

#[test]
fn test_accept_stores_outbound_welcome() {
    let alice = make_client();
    let bob = make_client();
    let alice_kp = make_classical_kp(&alice);
    let bob_kp = make_combiner_kp(&bob);

    let alice_session = ok(Party::initiate(&alice, bob_kp, None));
    let apq_welcome_a = alice_session.initial_welcome();

    let bob_session = ok(Party::accept(&bob, apq_welcome_a, alice_kp, alice_session.commitment()));
    assert!(bob_session.pending_outbound().is_some());
}

#[test]
fn test_full_establishment_sequence_combiner() {
    let (alice_session, bob_session) = establish_sessions();
    assert!(bob_session.is_established(), "bob should be established");
    assert!(
        alice_session.is_established(),
        "alice should be established"
    );
}

#[test]
fn test_routing_available_from_birth_post_after_establishment() {
    let alice = make_client();
    let bob = make_client();
    let alice_kp = make_classical_kp(&alice);
    let bob_kp = make_combiner_kp(&bob);

    // Initiator: listening works immediately (send group @ classical epoch 1);
    // nowhere to post until the return welcome stands up the recv group.
    let alice_s = ok(Party::initiate(&alice, bob_kp, None));
    let listen_a = ok(alice_s.should_listen_on());
    assert!(!listen_a.send_group.classical.bytes.is_empty());
    assert!(!listen_a.send_group.pq.bytes.is_empty());
    assert_eq!(listen_a.rendezvous_by_epoch.len(), 1);
    assert_eq!(listen_a.rendezvous_by_epoch[0].epoch, 1);
    assert_eq!(
        listen_a.rendezvous_by_epoch[0].rendezvous_id.bytes.len(),
        32
    );
    assert!(alice_s.send_rendezvous().is_none());

    // Acceptor: posts immediately - its recv group is the initiator's send
    // group, so its post address is the initiator's listen address verbatim.
    let welcome_a = alice_s.initial_welcome();
    let bob_s = ok(Party::accept(&bob, welcome_a, alice_kp, alice_s.commitment()));
    let bob_post = some(bob_s.send_rendezvous());
    assert_eq!(
        bob_post.bytes,
        listen_a.rendezvous_by_epoch[0].rendezvous_id.bytes
    );
    // The acceptor's own send group listens too - classical-only before the bootstrap.
    let listen_b = ok(bob_s.should_listen_on());
    assert!(!listen_b.send_group.classical.bytes.is_empty());
    assert!(listen_b.send_group.pq.bytes.is_empty());
    assert_eq!(listen_b.rendezvous_by_epoch.len(), 1);

    // Initiator joins in-band from the stapled return welcome and can post;
    // its address is in the acceptor's listen set.
    let welcome_b = some(bob_s.pending_outbound());
    ok(alice_s.process_incoming(welcome_b));
    let alice_post = some(alice_s.send_rendezvous());
    assert!(listen_b
        .rendezvous_by_epoch
        .iter()
        .any(|e| e.rendezvous_id.bytes == alice_post.bytes));
}

/// Approving a proposal, then approving a different one before committing, folds
/// only the second (no two-Update `BadUpdate`): `queue_proposal` un-caches, so the
/// replaced tally leaves nothing in the send-group cache. `queued_remote_successor`
/// reflects the replacement.
#[test]
fn test_queue_proposal_replace_tally() {
    let (alice, bob) = establish_confirmed_sessions();
    // Alice stages two candidates and proposes each on its own frame.
    let id1 = make_client().client_id();
    let id2 = make_client().client_id();
    ok(alice.stage_rotation(id1.bytes.clone()));
    ok(alice.prepare_to_encrypt(Some(id1.clone())));
    let f1 = ok(alice.encrypt(b"c1".to_vec()));
    ok(alice.stage_rotation(id2.bytes.clone()));
    ok(alice.prepare_to_encrypt(Some(id2.clone())));
    let f2 = ok(alice.encrypt(b"c2".to_vec()));

    // Bob approves c1, then c2 (replace) before committing.
    let g1 = some(ok(bob.process_incoming(f1.cipher_text)));
    ok(bob.queue_proposal(some(g1.proposal).digest));
    assert_eq!(bob.queued_remote_successor(), Some(id1.clone()));
    let g2 = some(ok(bob.process_incoming(f2.cipher_text)));
    ok(bob.queue_proposal(some(g2.proposal).digest));
    assert_eq!(bob.queued_remote_successor(), Some(id2.clone()));

    // The commit folds only c2 (no BadUpdate) and canonicalizes c2.
    assert!(ok(bob.prepare_to_encrypt(None)).did_commit);
    assert_eq!(bob.their_principal_state().client_id(), id2);
    assert!(bob.queued_remote_successor().is_none());
    let staple = ok(bob.encrypt(b"commit".to_vec()));
    let res = some(ok(alice.process_incoming(staple.cipher_text)));
    assert_eq!(some(res.remote_commit).new_recipient, id2);
    assert_eq!(alice.my_principal_state().client_id(), id2);
}

/// A proposal whose self-describing candidate id does not match the Update's actual
/// leaf is rejected, and the rejection is a **no-op**: nothing is authorized, nothing
/// is cached, and a subsequent honest approval + commit still succeeds.
#[test]
fn test_queue_proposal_declared_mismatch_is_noop() {
    let (alice, bob) = establish_confirmed_sessions();
    // Craft a frame whose declared `proposing` differs from the Upd's leaf: stage a
    // real candidate (leaf carries id_real) but relabel the section as id_fake.
    let id_real = make_client().client_id();
    ok(alice.stage_rotation(id_real.bytes.clone()));
    ok(alice.prepare_to_encrypt(Some(id_real.clone())));
    let frame = ok(alice.encrypt(b"real".to_vec()));

    // Open Alice's frame on Bob, decode the proposal section, relabel `proposing`,
    // re-encode, re-seal - a hostile/buggy sender.
    let opened = some(ok(bob.open_incoming(frame.cipher_text.clone())));
    let (staple, section, app) = ok(decode_message_frame(&opened.frame));
    let (_declared, proposal_msg) = ok(decode_proposal_section(&section));
    let id_fake = make_client().client_id().bytes;
    let bad_section = encode_proposal_section(&id_fake, &proposal_msg);
    let bad_frame = encode_message_frame(&staple, bad_section, app);
    let bad_sealed = ok(alice.with(|s| s.seal(&bad_frame)));

    let got = some(ok(bob.process_incoming(bad_sealed)));
    let offered = some(got.proposal);
    assert_eq!(offered.proposing.bytes, id_fake);
    // Approving the mismatched offer is rejected, and leaves NO state behind.
    assert_eq!(err(bob.queue_proposal(offered.digest)), TwoMlsPqError::ProposalRejected);
    assert!(bob.queued_remote_successor().is_none());

    // An honest round still commits cleanly afterward (no poisoned cache / auth):
    // Alice re-proposes id_real on a FRESH frame (the mislabelled one's app message
    // was already consumed).
    ok(alice.prepare_to_encrypt(Some(id_real.clone())));
    let honest = ok(alice.encrypt(b"honest".to_vec()));
    let g2 = some(ok(bob.process_incoming(honest.cipher_text)));
    let real = some(g2.proposal);
    assert_eq!(real.proposing, id_real);
    ok(bob.queue_proposal(real.digest));
    assert!(ok(bob.prepare_to_encrypt(None)).did_commit);
    assert_eq!(bob.their_principal_state().client_id(), id_real);
}

/// A candidate that was proposed on the wire is never evicted: staging beyond the
/// in-flight window defers overflow rather than dropping a sent candidate, so the
/// peer can commit the very first one and the proposer still holds its principal.
#[test]
fn test_sent_candidate_not_evicted() {
    let (alice, bob) = establish_confirmed_sessions();
    let mut ids = Vec::new();
    let mut first_frame = None;
    // Stage CANDIDATE_WINDOW + 2 candidates. Only the first CANDIDATE_WINDOW are in
    // flight (proposable); the rest defer.
    for i in 0..(CANDIDATE_WINDOW + 2) {
        let id = make_client().client_id();
        ok(alice.stage_rotation(id.bytes.clone()));
        if i < CANDIDATE_WINDOW {
            ok(alice.prepare_to_encrypt(Some(id.clone())));
            let frame = ok(alice.encrypt(format!("cand{i}").into_bytes()));
            if i == 0 {
                first_frame = Some(frame);
            }
        }
        ids.push(id);
    }
    // The peer commits the FIRST candidate - not evicted despite two later stages.
    let got = some(ok(
        bob.process_incoming(some(first_frame).cipher_text)
    ));
    let offered = some(got.proposal);
    assert_eq!(offered.proposing, ids[0]);
    ok(bob.queue_proposal(offered.digest));
    assert!(ok(bob.prepare_to_encrypt(None)).did_commit);
    let staple = ok(bob.encrypt(b"commit".to_vec()));
    // Alice canonicalizes onto ids[0] cleanly - no CredentialRejected, no desync.
    let res = some(ok(alice.process_incoming(staple.cipher_text)));
    assert_eq!(some(res.remote_commit).new_recipient, ids[0]);
    assert_eq!(alice.my_principal_state().client_id(), ids[0]);
}

/// After a canonicalization frees a window slot, a deferred candidate is promoted
/// and proposed on the next routine round without an explicit selection.
#[test]
fn test_deferred_candidate_promoted_next_round() {
    let (alice, bob) = establish_confirmed_sessions();
    // Fill the window and defer one more.
    let mut ids = Vec::new();
    for _ in 0..(CANDIDATE_WINDOW + 1) {
        ids.push(make_client().client_id());
    }
    for id in &ids {
        ok(alice.stage_rotation(id.bytes.clone()));
    }
    let deferred = ids.last().unwrap().clone();
    // Propose + commit the first in-flight candidate to clear the pool.
    ok(alice.prepare_to_encrypt(Some(ids[0].clone())));
    let f = ok(alice.encrypt(b"c0".to_vec()));
    let got = some(ok(bob.process_incoming(f.cipher_text)));
    ok(bob.queue_proposal(some(got.proposal).digest));
    assert!(ok(bob.prepare_to_encrypt(None)).did_commit);
    let staple = ok(bob.encrypt(b"commit".to_vec()));
    some(ok(alice.process_incoming(staple.cipher_text)));
    assert_eq!(alice.my_principal_state().client_id(), ids[0]);

    // The window is now clear. A plain routine round auto-proposes the deferred id.
    ok(alice.prepare_to_encrypt(None));
    // The promoted rotation is now in flight, so the state reports Pending targeting
    // the deferred id - not the Sync the prior canonicalization set (else the
    // rotation would be invisible in `my_principal_state`).
    assert!(matches!(
        alice.my_principal_state(),
        PrincipalState::Pending { new, .. } if new == deferred
    ));
    let f2 = ok(alice.encrypt(b"routine".to_vec()));
    let got2 = some(ok(bob.process_incoming(f2.cipher_text)));
    assert_eq!(some(got2.proposal).proposing, deferred);
}

/// A session archived with a queued (approved-but-uncommitted) peer proposal
/// restores and re-applies it: the queued proposal bytes ride the archive
/// (`WireQueuedProposal.proposal`), so `prepare_to_encrypt(None)` commits it after
/// restore and canonicalizes the peer's credential.
#[test]
fn test_archive_round_trips_queued_proposal() {
    let (alice, bob) = establish_confirmed_sessions();
    // Alice proposes a rotation candidate; Bob approves it but does NOT commit.
    let id_a = make_client().client_id();
    ok(alice.stage_rotation(id_a.bytes.clone()));
    ok(alice.prepare_to_encrypt(Some(id_a.clone())));
    let f = ok(alice.encrypt(b"propose".to_vec()));
    let got = some(ok(bob.process_incoming(f.cipher_text)));
    ok(bob.queue_proposal(some(got.proposal).digest));
    assert_eq!(bob.queued_remote_successor(), Some(id_a.clone()));

    // Archive Bob mid-approval and restore. The queued proposal must survive.
    let restored = round_trip(&bob);
    assert_eq!(restored.queued_remote_successor(), Some(id_a.clone()));

    // The restored session re-applies + commits the queued proposal, canonicalizing
    // Alice's credential; Alice sees it on her leaf's catch-up next round.
    assert!(ok(restored.prepare_to_encrypt(None)).did_commit);
    assert_eq!(restored.their_principal_state().client_id(), id_a);
    let staple = ok(restored.encrypt(b"commit".to_vec()));
    let res = some(ok(alice.process_incoming(staple.cipher_text)));
    assert_eq!(some(res.remote_commit).new_recipient, id_a);
    assert_eq!(alice.my_principal_state().client_id(), id_a);
}

/// A parked deferred rotation survives archive/restore and is still promoted +
/// proposed on the next routine round.
#[test]
fn test_archive_round_trips_deferred_candidate() {
    let (alice, bob) = establish_confirmed_sessions();
    // Fill the window and defer one more.
    let mut ids = Vec::new();
    for _ in 0..(CANDIDATE_WINDOW + 1) {
        ids.push(make_client().client_id());
    }
    for id in &ids {
        ok(alice.stage_rotation(id.bytes.clone()));
    }
    let deferred = ids.last().unwrap().clone();
    // Clear the pool by committing the first in-flight candidate.
    ok(alice.prepare_to_encrypt(Some(ids[0].clone())));
    let f = ok(alice.encrypt(b"c0".to_vec()));
    let got = some(ok(bob.process_incoming(f.cipher_text)));
    ok(bob.queue_proposal(some(got.proposal).digest));
    assert!(ok(bob.prepare_to_encrypt(None)).did_commit);
    let staple = ok(bob.encrypt(b"commit".to_vec()));
    some(ok(alice.process_incoming(staple.cipher_text)));

    // Archive Alice with the deferred candidate parked; restore.
    let restored = round_trip(&alice);
    // The restored session promotes + proposes the deferred candidate next round.
    ok(restored.prepare_to_encrypt(None));
    let f2 = ok(restored.encrypt(b"routine".to_vec()));
    let got2 = some(ok(bob.process_incoming(f2.cipher_text)));
    assert_eq!(some(got2.proposal).proposing, deferred);
}

/// Different frames may propose different candidates; the peer's commit picks the
/// winner - including an OLDER candidate whose frame it processed first. The loser's
/// authorization expires with the commit.
#[test]
fn test_peer_commit_picks_among_candidates() {
    let (alice, bob) = establish_confirmed_sessions();
    let id1 = make_client().client_id();
    let id2 = make_client().client_id();

    ok(alice.stage_rotation(id1.bytes.clone()));
    ok(alice.prepare_to_encrypt(Some(id1.clone())));
    let frame1 = ok(alice.encrypt(b"candidate-1".to_vec()));

    ok(alice.stage_rotation(id2.bytes.clone()));
    ok(alice.prepare_to_encrypt(Some(id2.clone())));
    let _frame2 = ok(alice.encrypt(b"candidate-2".to_vec()));

    // Bob processes only the FIRST frame and commits id1 - the canonical next
    // credential is the one committed, not the one most recently proposed.
    let got = some(ok(bob.process_incoming(frame1.cipher_text)));
    let offered = some(got.proposal);
    assert_eq!(offered.proposing, id1);
    ok(bob.queue_proposal(offered.digest));
    assert!(ok(bob.prepare_to_encrypt(None)).did_commit);
    let frame = ok(bob.encrypt(b"canonicalize".to_vec()));
    let got = some(ok(alice.process_incoming(frame.cipher_text)));
    assert_eq!(some(got.remote_commit).new_recipient, id1);
    assert_eq!(alice.my_principal_state().client_id(), id1);

    // Round trips continue under the winner.
    ok(alice.prepare_to_encrypt(None));
    let enc = ok(alice.encrypt(b"after".to_vec()));
    some(ok(bob.process_incoming(enc.cipher_text)));
}

#[test]
fn test_rotation_commit_mints_new_listen_address() {
    let (alice, bob) = establish_confirmed_sessions();
    let before = ok(alice.should_listen_on());
    let bob_post_before = some(bob.send_rendezvous());

    // Rotation is proposal-driven: the round itself does not advance alice's send
    // epoch (bob commits, on HIS group). Her next approved commit - which also
    // carries the own-leaf catch-up - advances it and must mint the address.
    let new_client = make_client();
    rotate_round(&alice, &bob, new_client.client_id());
    assert_eq!(
        ok(alice.should_listen_on())
            .rendezvous_by_epoch
            .len(),
        before.rendezvous_by_epoch.len()
    );

    approved_commit_round(&alice, &bob);
    let after = ok(alice.should_listen_on());
    assert_eq!(
        after.rendezvous_by_epoch.len(),
        before.rendezvous_by_epoch.len() + 1
    );

    // Bob's post address migrated to the new epoch's channel, present in
    // alice's listen set.
    let bob_post_after = some(bob.send_rendezvous());
    assert_ne!(bob_post_after.bytes, bob_post_before.bytes);
    assert!(after
        .rendezvous_by_epoch
        .iter()
        .any(|e| e.rendezvous_id.bytes == bob_post_after.bytes));
}

#[test]
fn test_rotation_preserves_listen_window_across_epochs() {
    // The retained epochs are the send group's, so a rotation must not touch the
    // listen window.
    let epochs = |s: &Party| -> Vec<u64> {
        ok(s.should_listen_on())
            .rendezvous_by_epoch
            .iter()
            .map(|e| e.epoch)
            .collect()
    };
    let (alice, bob) = establish_sessions();
    approved_commit_round(&alice, &bob);
    assert_eq!(epochs(&alice), vec![1, 2]);

    // Credential rotation: canonicalization swaps alice's session client. The
    // prior epochs must survive the swap, and the catch-up commit on the next
    // approved round advances the window.
    let new_client = make_client();
    rotate_round(&alice, &bob, new_client.client_id());
    assert_eq!(epochs(&alice), vec![1, 2]);
    approved_commit_round(&alice, &bob);
    assert_eq!(epochs(&alice), vec![1, 2, 3]);

    // And the window keeps growing on later rounds, up to mls-rs's
    // retention cap (current + 3 retained priors).
    approved_commit_round(&alice, &bob);
    assert_eq!(epochs(&alice), vec![1, 2, 3, 4]);
    approved_commit_round(&alice, &bob);
    assert_eq!(epochs(&alice), vec![2, 3, 4, 5]);
}

#[test]
fn test_listen_window_follows_mls_rs_epoch_retention() {
    let (alice, bob) = establish_sessions();
    // Five committed rounds: alice's send group moves from epoch 1 to epoch 6.
    for _ in 0..5 {
        approved_commit_round(&alice, &bob);
    }
    let listen = ok(alice.should_listen_on());
    let epochs: Vec<u64> = listen.rendezvous_by_epoch.iter().map(|e| e.epoch).collect();
    // The window is NOT all six epochs - it follows the injected group-state
    // storage's retention: current + mls-rs's retained prior epochs (mls-rs
    // in-memory default max_epoch_retention = 3).
    assert_eq!(epochs, vec![3, 4, 5, 6]);
    // Bob's post address still lands inside the retained window.
    let post = some(bob.send_rendezvous());
    assert!(listen
        .rendezvous_by_epoch
        .iter()
        .any(|e| e.rendezvous_id.bytes == post.bytes));
}

#[test]
fn test_encrypt_result_reports_apq_epoch_pair() {
    let (alice, bob) = establish_sessions();

    // Acceptor before the bootstrap: classical-only send group - pq epoch 0, not a
    // duplicate of the classical epoch.
    ok(bob.prepare_to_encrypt(None));
    let upd = ok(bob.encrypt(b"upd".to_vec()));
    assert_eq!(upd.epochs.pq_epoch, 0);
    assert_eq!(upd.epochs.classical_epoch, 1);

    // Initiator commit round: full APQ pair from birth - pq stays 1 while
    // the commit advances classical to 2 - matching the session's own view.
    let got = some(ok(alice.process_incoming(upd.cipher_text)));
    ok(alice.queue_proposal(some(got.proposal).digest));
    ok(alice.prepare_to_encrypt(None));
    let committed = ok(alice.encrypt(b"commit".to_vec()));
    assert_eq!(committed.epochs.pq_epoch, 1);
    assert_eq!(committed.epochs.classical_epoch, 2);
    let session_view = alice.epochs();
    assert_eq!(committed.epochs.pq_epoch, session_view.pq_epoch);
    assert_eq!(
        committed.epochs.classical_epoch,
        session_view.classical_epoch
    );
}

#[test]
fn test_encrypt_epochs_diverge_post_bootstrap() {
    let (alice, bob) = establish_full();
    // After the bootstrap the acceptor's send group has its PQ half (epoch 1); a commit
    // round moves classical to 2 while pq stays 1 - the pair diverges and
    // encrypt reports it faithfully.
    ok(alice.prepare_to_encrypt(None));
    let upd = ok(alice.encrypt(b"upd".to_vec()));
    let got = some(ok(bob.process_incoming(upd.cipher_text)));
    ok(bob.queue_proposal(some(got.proposal).digest));
    ok(bob.prepare_to_encrypt(None));
    let committed = ok(bob.encrypt(b"pq-live".to_vec()));
    assert_eq!(committed.epochs.pq_epoch, 1);
    assert_eq!(committed.epochs.classical_epoch, 2);
}

#[test]
fn test_commit_round_mints_new_listen_address_and_retains_old() {
    let (alice, bob) = establish_sessions();
    let listen_a0 = ok(alice.should_listen_on());
    let bob_post0 = some(bob.send_rendezvous());

    // Routine (non-committing) rounds don't move epochs or addresses.
    ok(bob.prepare_to_encrypt(None));
    let upd_frame = ok(bob.encrypt(b"upd".to_vec()));
    let got = some(ok(alice.process_incoming(upd_frame.cipher_text)));
    assert_eq!(
        ok(alice.should_listen_on())
            .rendezvous_by_epoch
            .len(),
        listen_a0.rendezvous_by_epoch.len()
    );

    // Full commit round: alice approves bob's stapled Upd; her next send commits
    // it, advancing her send group's classical epoch and minting a new address.
    let offered = some(got.proposal);
    ok(alice.queue_proposal(offered.digest));
    let prepared = ok(alice.prepare_to_encrypt(None));
    assert!(prepared.did_commit);
    let commit_frame = ok(alice.encrypt(b"commit".to_vec()));

    let listen_a1 = ok(alice.should_listen_on());
    assert_eq!(
        listen_a1.rendezvous_by_epoch.len(),
        listen_a0.rendezvous_by_epoch.len() + 1
    );

    // Bob applies the commit: his post address migrates to the new epoch's
    // channel - present in alice's set - while the old address stays listed.
    some(ok(bob.process_incoming(commit_frame.cipher_text)));
    let bob_post1 = some(bob.send_rendezvous());
    assert_ne!(bob_post1.bytes, bob_post0.bytes);
    assert!(listen_a1
        .rendezvous_by_epoch
        .iter()
        .any(|e| e.rendezvous_id.bytes == bob_post1.bytes));
    assert!(listen_a1
        .rendezvous_by_epoch
        .iter()
        .any(|e| e.rendezvous_id.bytes == bob_post0.bytes));
}

#[test]
fn test_pq_rekey_requires_full_establishment() {
    // Before the bootstrap the acceptor's send-PQ (and the initiator's recv mirror) is missing.
    let (alice, _bob) = establish_sessions();
    assert!(alice.my_pq_turn());
    assert_eq!(err(alice.pq_rekey_begin(None)), TwoMlsPqError::SessionNotReady);
}

#[test]
fn test_pq_rekey_requires_turn_and_rejects_unsolicited() {
    let (alice, bob) = establish_full();
    // Alice's bootstrap completion passed the turn to Bob.
    assert_eq!(err(alice.pq_rekey_begin(None)), TwoMlsPqError::SessionNotReady);
    // An unsolicited final commit (no rekey in flight) is rejected.
    let bogus = encode_pq_rekey_commit(vec![0u8; 8], Vec::new());
    assert_eq!(err(bob.pq_rekey_apply(bogus)), TwoMlsPqError::SessionNotReady);
    // A second begin while one is in flight is rejected (single slot).
    let _upd = ok(bob.pq_rekey_begin(None));
    assert_eq!(err(bob.pq_rekey_begin(None)), TwoMlsPqError::SessionNotReady);
}

#[test]
fn test_pq_rekey_begin_rotating_requires_current_agent() {
    let (_alice, bob) = establish_full();
    // Bob holds the turn, but no rotation has run: a handoff to an
    // arbitrary principal is refused, and the slot stays free for a plain rekey.
    let stranger = make_client();
    assert_eq!(err(bob.pq_rekey_begin(Some(stranger.client_id()))), TwoMlsPqError::SessionNotReady);
    ok(bob.pq_rekey_begin(None));
}

#[test]
fn test_pq_ratchet_bind_without_begin_is_rejected() {
    let (alice, _bob) = establish_sessions();
    let mut ct = vec![PQ_CT_TAG];
    ct.extend_from_slice(&[0u8; 1088]);
    assert_eq!(err(alice.pq_ratchet_bind(ct)), TwoMlsPqError::SessionNotReady);
}

#[test]
fn test_pq_ratchet_respond_rejects_wrong_tag() {
    let (_alice, bob) = establish_sessions();
    assert_eq!(err(bob.pq_ratchet_respond(vec![0xAB, 1, 2, 3])), TwoMlsPqError::Mls);
}

#[test]
fn test_pq_frame_routed_to_process_incoming_is_rejected() {
    let (_alice, bob) = establish_sessions();
    // A PQ-ratchet EK frame must never be silently swallowed as an MLS ciphertext.
    let mut ek = vec![PQ_EK_TAG];
    ek.extend_from_slice(&[0u8; 8]);
    assert_eq!(err(bob.process_incoming(ek)), TwoMlsPqError::SessionNotReady);
}

#[test]
fn test_pq_ratchet_double_begin_is_rejected() {
    let (alice, _bob) = establish_sessions();
    ok(alice.pq_ratchet_begin());
    assert_eq!(err(alice.pq_ratchet_begin()), TwoMlsPqError::SessionNotReady);
}

#[test]
fn test_pq_ratchet_tampered_frame_fails_to_bind() {
    let (alice, bob) = establish_sessions();
    let ek = ok(alice.pq_ratchet_begin());
    ok(bob.pq_ratchet_respond(ek));
    let mut ct = some(bob.pq_take_pending_outbound());
    // Flip a byte of the sealed ciphertext frame: the header AEAD tag no longer
    // verifies, so Alice cannot open it and the bind is rejected at the seal (the
    // passed-through blob's nonce byte is not `PQ_CT_TAG`). Header encryption makes
    // any wire-level tamper a seal failure before the ML-KEM layer is reached.
    let last = ct.len() - 1;
    ct[last] ^= 0xFF;
    assert_eq!(err(alice.pq_ratchet_bind(ct)), TwoMlsPqError::Mls);
}

#[test]
fn test_initiate_fails_when_both_suites_classical() {
    let alice = make_client();
    let bob = make_client();
    let classical = make_classical_kp(&bob);
    let pq = make_classical_kp(&bob);
    let bad_kp = CombinerKeyPackage { classical, pq };
    assert_eq!(err(Party::initiate(&alice, bad_kp, None)), TwoMlsPqError::PqNotAvailable);
}

#[test]
fn test_session_id_is_same_from_both_sides() {
    let alice = make_client();
    let bob = make_client();
    let alice_kp = make_classical_kp(&alice);
    let bob_kp = make_combiner_kp(&bob);

    let alice_session = ok(Party::initiate(&alice, bob_kp, None));
    let apq_welcome_a = alice_session.initial_welcome();

    let bob_session = ok(Party::accept(&bob,
        apq_welcome_a,
        alice_kp, alice_session.commitment()));

    assert_eq!(
        alice_session.active_session_id().bytes,
        bob_session.active_session_id().bytes,
        "session IDs must match"
    );
}

#[test]
fn test_prepare_to_encrypt_returns_proposal_hash() {
    let (alice_session, _bob_session) = establish_sessions();
    let result = ok(alice_session.prepare_to_encrypt(None));
    assert!(!result.proposal_hash.is_empty());
    assert!(!result.did_commit);
}

#[test]
fn test_encrypt_after_prepare_succeeds() {
    let (alice_session, _bob_session) = establish_sessions();
    ok(alice_session.prepare_to_encrypt(None));
    let result = ok(alice_session.encrypt(b"hello world".to_vec()));
    assert!(!result.cipher_text.is_empty());
    assert_eq!(
        result.sender,
        alice_session.my_principal_state().client_id()
    );
}

#[test]
fn test_encrypt_double_call_after_single_prepare_returns_error() {
    let (alice_session, _) = establish_sessions();
    ok(alice_session.prepare_to_encrypt(None));
    ok(alice_session.encrypt(b"first".to_vec()));
    assert_eq!(err(alice_session.encrypt(b"second".to_vec())), TwoMlsPqError::SessionNotReady);
}

#[test]
fn test_process_incoming_app_message_returns_decrypt_result() {
    let (alice_session, bob_session) = establish_sessions();

    ok(alice_session.prepare_to_encrypt(None));
    let enc = ok(alice_session.encrypt(b"secret".to_vec()));

    let result = some(ok(bob_session.process_incoming(enc.cipher_text)));

    let app_msg = some(result.application_message);
    assert_eq!(app_msg.app_message_data, b"secret");
    assert_eq!(
        app_msg.sender_client_id,
        alice_session.my_principal_state().client_id()
    );
}

#[test]
fn test_process_incoming_garbage_bytes_returns_error() {
    let (_, bob_session) = establish_sessions();
    assert_eq!(err(bob_session.process_incoming(vec![0xDE, 0xAD, 0xBE, 0xEF])), TwoMlsPqError::DecryptionFailed);
}

#[test]
fn test_process_incoming_empty_bytes_returns_error() {
    let (_, bob_session) = establish_sessions();
    assert_eq!(err(bob_session.process_incoming(vec![])), TwoMlsPqError::DecryptionFailed);
}

#[test]
fn test_create_send_group_with_valid_keypackage_succeeds() {
    let alice = make_client();
    let bob = make_client();
    let alice_kp = make_classical_kp(&alice);
    let bob_kp = make_combiner_kp(&bob);
    let alice_session = ok(Party::initiate(&alice, bob_kp, None));
    let welcome = alice_session.initial_welcome();
    ok(Party::accept(&bob, welcome, alice_kp, alice_session.commitment()));
}

#[test]
fn test_join_send_group_with_my_principal_succeeds() {
    let alice = make_client();
    let bob = make_client();
    let alice_kp = make_classical_kp(&alice);
    let bob_kp = make_combiner_kp(&bob);
    let alice_session = ok(Party::initiate(&alice, bob_kp, None));
    let welcome = alice_session.initial_welcome();
    let bob_session = ok(Party::accept(&bob, welcome, alice_kp, alice_session.commitment()));
    assert!(bob_session.has_receive_group());
    assert!(bob_session.is_established());
}

#[test]
fn test_create_bound_send_group_classical_with_psk_succeeds() {
    let (alice_session, bob_session) = establish_sessions();
    assert!(alice_session.receive_group_id().is_some());
    assert!(bob_session.receive_group_id().is_some());
}

#[test]
fn test_create_bound_send_group_ml_kem_768_with_psk_succeeds() {
    let (alice_session, bob_session) = establish_sessions();
    assert!(alice_session.is_established());
    assert!(bob_session.is_established());
}

#[test]
fn test_from_archive_returns_archive_invalid() {
    assert_eq!(err(Party::from_archive(Archive { bytes: vec![] })), TwoMlsPqError::ArchiveInvalid);
}

/// `depends_on_seq`: a routine app message re-staples an already-committed staple, so its
/// `depends_on_seq` does not advance and never exceeds the live `state_seq`.
#[test]
fn test_depends_on_seq_stable_across_routine_messages() {
    let (alice, bob) = establish_full();
    ok(alice.prepare_to_encrypt(None));
    let first = ok(alice.encrypt(b"one".to_vec()));
    let _ = bob.process_incoming(first.cipher_text);
    ok(alice.prepare_to_encrypt(None));
    let second = ok(alice.encrypt(b"two".to_vec()));

    // Neither routine round committed, so the stapled commit - hence depends_on_seq - is
    // unchanged, and it can never point past the current state.
    assert_eq!(first.depends_on_seq, second.depends_on_seq);
    assert!(second.depends_on_seq <= alice.state_seq());
}

#[test]
fn test_archive_round_trips_session_state() {
    let (alice_session, bob_session) = establish_sessions();
    message_round(&alice_session, &bob_session, b"before");

    let session_id = alice_session.active_session_id();
    let restored = round_trip(&alice_session);
    assert_eq!(restored.active_session_id(), session_id);

    // Both directions keep flowing across the restore.
    message_round(&restored, &bob_session, b"restored->bob");
    message_round(&bob_session, &restored, b"bob->restored");
}

#[test]
fn test_archive_before_return_welcome_join_restores_and_joins() {
    // The initiator archives right after `initiate` - before the peer's return welcome
    // exists - so its return-group key package is still pending in the client store and
    // the recv group is not yet joined. A self-contained restore must carry that key
    // package, or the return-welcome join below fails (an empty-store restore cannot
    // find the private material the welcome addresses).
    let alice = make_client();
    let bob = make_client();
    let alice_kp = make_classical_kp(&alice);
    let bob_kp = make_combiner_kp(&bob);

    let alice_session = ok(Party::initiate(&alice, bob_kp, None));
    let welcome_a = alice_session.initial_welcome();

    // Archive and restore the initiator BEFORE it has joined the return welcome.
    let restored_alice = round_trip(&alice_session);
    assert!(restored_alice.receive_group_id().is_none());

    let bob_session = ok(Party::accept(&bob,
        welcome_a,
        alice_kp, alice_session.commitment()));
    let welcome_b = some(bob_session.pending_outbound());
    // The restored initiator joins the return welcome using its carried key package.
    ok(restored_alice.process_incoming(welcome_b));
    assert!(restored_alice.receive_group_id().is_some());

    // Both directions flow on the restored, now-established session.
    message_round(&restored_alice, &bob_session, b"restored-join");
    message_round(&bob_session, &restored_alice, b"back");
}

#[test]
fn test_archive_preserves_listen_map() {
    let (alice_session, bob_session) = establish_sessions();
    // Advance the send epoch (folding-commit round) so the map holds several epochs.
    message_round(&alice_session, &bob_session, b"staple");
    message_round(&bob_session, &alice_session, b"staple-back");
    let offered = {
        ok(bob_session.prepare_to_encrypt(None));
        let enc = ok(bob_session.encrypt(b"upd".to_vec()));
        let got = some(ok(alice_session.process_incoming(enc.cipher_text)));
        some(got.proposal)
    };
    ok(alice_session.queue_proposal(offered.digest));
    assert!(ok(alice_session.prepare_to_encrypt(None)).did_commit);
    let enc = ok(alice_session.encrypt(b"commit".to_vec()));
    some(ok(bob_session.process_incoming(enc.cipher_text)));

    let before = ok(alice_session.should_listen_on());
    assert!(before.rendezvous_by_epoch.len() > 1);

    let restored = round_trip(&alice_session);
    let after = ok(restored.should_listen_on());
    assert_eq!(
        before.send_group.classical.bytes,
        after.send_group.classical.bytes
    );
    let pairs = |chans: &ListenChannels| {
        chans
            .rendezvous_by_epoch
            .iter()
            .map(|e| (e.epoch, e.rendezvous_id.bytes.clone()))
            .collect::<Vec<_>>()
    };
    assert_eq!(pairs(&before), pairs(&after));
}

/// The restored PSK ledger - not the (empty) stores of the rebuilt client - must
/// resolve the cross-party PSK a peer commit references: Bob's folding commit binds the
/// PSK of Alice's send group at the epoch he last observed, and the restored Alice
/// runs on a rebuilt identity whose mls-rs secret stores hold nothing.
#[test]
fn test_archive_preserves_psk_ledger_for_peer_commit() {
    let (alice_session, bob_session) = establish_sessions();
    // Alice staples an Upd for Bob to approve.
    message_round(&alice_session, &bob_session, b"staple");
    let offered = {
        ok(alice_session.prepare_to_encrypt(None));
        let enc = ok(alice_session.encrypt(b"upd".to_vec()));
        let got = some(ok(bob_session.process_incoming(enc.cipher_text)));
        some(got.proposal)
    };
    ok(bob_session.queue_proposal(offered.digest));
    assert!(ok(bob_session.prepare_to_encrypt(None)).did_commit);
    let crossing = ok(bob_session.encrypt(b"bound-commit".to_vec()));

    // Alice archives before Bob's bound frame arrives; the restore rebuilds her
    // client with empty PSK stores.
    let restored = round_trip(&alice_session);
    let got = some(ok(restored.process_incoming(crossing.cipher_text)));
    assert_eq!(
        some(got.application_message).app_message_data,
        b"bound-commit"
    );
}

/// Prepared-but-unsent state survives: the staged proposal/commit emit after restore
/// and the peer accepts the frame.
#[test]
fn test_archive_preserves_prepared_encrypt_state() {
    let (alice_session, bob_session) = establish_sessions();
    ok(alice_session.prepare_to_encrypt(None));

    let restored = round_trip(&alice_session);
    let enc = ok(restored.encrypt(b"prepared-before-archive".to_vec()));
    let got = some(ok(bob_session.process_incoming(enc.cipher_text)));
    assert_eq!(
        some(got.application_message).app_message_data,
        b"prepared-before-archive"
    );
}

/// A committed-but-unconfirmed rotation (`my_state == Pending`) archives, restores
/// self-contained (the archive rebuilds the NEW principal's client - parameterless
/// restore), and resolves to `Sync` once the peer's traffic confirms.
#[test]
fn test_archive_mid_rotation_restores_onto_new_client() {
    let (alice_session, bob_session) = establish_confirmed_sessions();
    message_round(&alice_session, &bob_session, b"before");

    // A fresh opaque ClientId for the successor principal (the app owns only the id; the
    // signing keys are minted internally by `stage_rotation`). The rotation is
    // in flight as a PROPOSAL when the archive is cut - the candidate's minted
    // principal must ride the archive, or the restored session could never
    // resolve the peer's commit of it.
    let new_id = make_client().client_id();
    ok(alice_session.stage_rotation(new_id.bytes.clone()));
    ok(alice_session.prepare_to_encrypt(Some(new_id.clone())));
    let rotation = ok(alice_session.encrypt(b"rotate".to_vec()));
    assert!(matches!(
        alice_session.my_principal_state(),
        PrincipalState::Pending { .. }
    ));

    let restored = round_trip(&alice_session);
    assert!(matches!(
        restored.my_principal_state(),
        PrincipalState::Pending { .. }
    ));

    // The peer approves and commits the candidate; the staple back canonicalizes
    // the RESTORED session onto the successor principal.
    let got = some(ok(
        bob_session.process_incoming(rotation.cipher_text)
    ));
    ok(bob_session.queue_proposal(some(got.proposal).digest));
    assert!(ok(bob_session.prepare_to_encrypt(None)).did_commit);
    let frame = ok(bob_session.encrypt(b"canonicalize".to_vec()));
    some(ok(restored.process_incoming(frame.cipher_text)));
    assert!(matches!(
        restored.my_principal_state(),
        PrincipalState::Sync { .. }
    ));
    assert_eq!(restored.my_principal_state().client_id(), new_id);
}

/// A staged-but-uncommitted rotation rides in the archive; after a
/// self-contained restore, `prepare_to_encrypt(Some(new_id))` commits the rotation and
/// the peer observes the new sender.
#[test]
fn test_archive_with_staged_rotation_restores_and_commits() {
    let (alice_session, bob_session) = establish_confirmed_sessions();
    message_round(&alice_session, &bob_session, b"before");

    // Stage a rotation but do NOT commit it - the archive must carry the staged
    // successor identity (minted internally by `stage_rotation`).
    let new_id = make_client().client_id();
    ok(alice_session.stage_rotation(new_id.bytes.clone()));
    assert!(matches!(
        alice_session.my_principal_state(),
        PrincipalState::Pending { .. }
    ));

    let restored = round_trip(&alice_session);
    // The restored session still holds the staged candidate: proposing it succeeds
    // and the peer observes the candidate identity on the offered proposal.
    ok(restored.prepare_to_encrypt(Some(new_id.clone())));
    let rotation = ok(restored.encrypt(b"rotate-after-restore".to_vec()));

    let got = some(ok(
        bob_session.process_incoming(rotation.cipher_text)
    ));
    assert_eq!(
        some(got.application_message).app_message_data,
        b"rotate-after-restore"
    );
    let offered = some(got.proposal);
    assert_eq!(offered.proposing, new_id);
    // Approve + commit: the canonical step completes against the restored session.
    ok(bob_session.queue_proposal(offered.digest));
    assert!(ok(bob_session.prepare_to_encrypt(None)).did_commit);
    let frame = ok(bob_session.encrypt(b"canonicalize".to_vec()));
    some(ok(restored.process_incoming(frame.cipher_text)));
    assert_eq!(restored.my_principal_state().client_id(), new_id);
}

/// Staging the same id twice keeps the staged identity; a different id is a second
/// candidate.
#[test]
fn test_stage_rotation_same_id_is_idempotent() {
    let (alice_session, _bob_session) = establish_confirmed_sessions();
    let id = make_client().client_id();
    ok(alice_session.stage_rotation(id.bytes.clone()));
    // Staging the same id again is a no-op and does not error.
    ok(alice_session.stage_rotation(id.bytes.clone()));
    // A different id becomes a SECOND live candidate (the peer's commit picks the
    // winner); either may ride a frame's proposal.
    let other = make_client().client_id();
    ok(alice_session.stage_rotation(other.bytes.clone()));
    ok(alice_session.prepare_to_encrypt(Some(id)));
    ok(alice_session.encrypt(b"candidate-one".to_vec()));
    ok(alice_session.prepare_to_encrypt(Some(other)));
    ok(alice_session.encrypt(b"candidate-two".to_vec()));
}

#[test]
fn test_from_archive_rejects_malformed_bytes() {
    let (alice_session, _bob_session) = establish_sessions();
    let archive = ok(alice_session.archive());

    // Wrong version byte.
    let mut wrong_version = archive.bytes.clone();
    wrong_version[0] ^= 0xFF;
    assert_eq!(err(Party::from_archive(Archive {
            bytes: wrong_version
        })), TwoMlsPqError::ArchiveInvalid);

    // Truncated body.
    let truncated = archive.bytes[..archive.bytes.len() - 1].to_vec();
    assert_eq!(err(Party::from_archive(Archive { bytes: truncated })), TwoMlsPqError::ArchiveInvalid);

    // Trailing garbage.
    let mut trailing = archive.bytes.clone();
    trailing.push(0);
    assert_eq!(err(Party::from_archive(Archive { bytes: trailing })), TwoMlsPqError::ArchiveInvalid);
}

#[test]
fn test_send_rendezvous_none_without_recv_group() {
    let alice = make_client();
    let bob = make_client();
    let bob_kp = make_combiner_kp(&bob);
    // Initiator pre-return-welcome: no recv group, nowhere to post.
    let session = ok(Party::initiate(&alice, bob_kp, None));
    assert!(session.send_rendezvous().is_none());
}

#[test]
fn test_should_listen_on_derivation_is_shared_not_random() {
    // Both members of the same group derive the same address independently:
    // alice's listen address at epoch 1 equals bob's post address, computed
    // from each side's own group state.
    let (alice_session, bob_session) = establish_sessions();
    let listen = ok(alice_session.should_listen_on());
    let post = some(bob_session.send_rendezvous());
    assert_eq!(
        listen.rendezvous_by_epoch[0].rendezvous_id.bytes,
        post.bytes
    );
}

#[test]
fn test_forwarded_refused_without_spawn_token() {
    // An initiator session carries no spawn token - nothing to match replays against -
    // so `forwarded` refuses.
    let (alice_session, _bob_session) = establish_sessions();
    assert_eq!(err(alice_session.forwarded(vec![])), TwoMlsPqError::SessionNotReady);
}

#[test]
fn test_queue_proposal_stages_for_next_ratchet() {
    let (alice_session, bob_session) = establish_sessions();

    ok(bob_session.prepare_to_encrypt(None));
    let enc = ok(bob_session.encrypt(b"hello from bob".to_vec()));
    let result = some(ok(alice_session.process_incoming(enc.cipher_text)));
    let proposal = some(result.proposal);

    ok(alice_session.queue_proposal(proposal.digest));
    let prep = ok(alice_session.prepare_to_encrypt(None));

    assert!(prep.did_commit, "should commit after queued proposal");
    assert!(prep.committed_remote_client_id.is_some());
}

#[test]
fn test_prepare_to_encrypt_did_commit_true_when_remote_proposal_staged() {
    let (alice_session, bob_session) = establish_sessions();

    ok(bob_session.prepare_to_encrypt(None));
    let enc = ok(bob_session.encrypt(b"proposal msg".to_vec()));
    let result = some(ok(alice_session.process_incoming(enc.cipher_text)));
    ok(alice_session.queue_proposal(some(result.proposal).digest));

    ok(alice_session.prepare_to_encrypt(None));
    let enc = ok(alice_session.encrypt(b"reply".to_vec()));

    let result = some(ok(bob_session.process_incoming(enc.cipher_text)));

    let app = some(result.application_message);
    assert_eq!(app.app_message_data, b"reply");
    let commit = some(result.remote_commit);
    assert!(
        commit.new_sender.is_none(),
        "no rotation, new_sender should be None"
    );
}

#[test]
fn test_process_incoming_proposal_returns_none_until_queued() {
    let (alice_session, bob_session) = establish_sessions();

    ok(alice_session.prepare_to_encrypt(None));
    let enc = ok(alice_session.encrypt(b"proposal".to_vec()));
    let result = some(ok(bob_session.process_incoming(enc.cipher_text)));
    let proposal = some(result.proposal);

    let prep = ok(bob_session.prepare_to_encrypt(None));
    assert!(!prep.did_commit, "no commit before queue_proposal");

    let frame = ok(bob_session.encrypt(b"no-commit".to_vec()));
    some(ok(alice_session.process_incoming(frame.cipher_text)));

    ok(bob_session.queue_proposal(proposal.digest));
    let prep2 = ok(bob_session.prepare_to_encrypt(None));
    assert!(prep2.did_commit, "must commit after queue_proposal");
}

#[test]
fn test_session_id_differs_for_different_pairs() {
    let alice = make_client();
    let bob = make_client();
    let carol = make_client();
    let bob_kp = make_combiner_kp(&bob);
    let carol_kp = make_combiner_kp(&carol);

    let alice_bob = ok(Party::initiate(&alice, bob_kp, None));
    let alice_carol = ok(Party::initiate(&alice,
        carol_kp,
        None
    ));

    assert_ne!(
        alice_bob.active_session_id().bytes,
        alice_carol.active_session_id().bytes,
        "different peer pairs must produce different session IDs"
    );
}

#[test]
fn test_full_establishment_sequence_ml_kem_768() {
    let (alice_session, bob_session) = establish_sessions();
    assert!(alice_session.is_established());
    assert!(bob_session.is_established());

    ok(alice_session.prepare_to_encrypt(None));
    let enc = ok(alice_session.encrypt(b"pq hello".to_vec()));
    let result = some(ok(bob_session.process_incoming(enc.cipher_text)));
    let app = some(result.application_message);
    assert_eq!(app.app_message_data, b"pq hello");
    assert_eq!(
        app.sender_client_id,
        alice_session.my_principal_state().client_id()
    );
}

#[test]
fn test_principal_rotation_migrates_session_to_new_principal() {
    let (alice_session, bob_session) = establish_confirmed_sessions();

    let new_alice = make_client();
    let new_alice_id = new_alice.client_id();

    // The full round: propose -> approve -> commit -> canonicalize (the helper
    // asserts Bob's their-state and Alice's Sync{new} along the way).
    rotate_round(&alice_session, &bob_session, new_alice_id.clone());

    // Alice's own send-group leaf catches up on her next approved commit; Bob
    // observes the leaf move as `new_sender`, and message attribution follows.
    ok(bob_session.prepare_to_encrypt(None));
    let upd = ok(bob_session.encrypt(b"upd".to_vec()));
    let got = some(ok(alice_session.process_incoming(upd.cipher_text)));
    ok(alice_session.queue_proposal(some(got.proposal).digest));
    assert!(ok(alice_session.prepare_to_encrypt(None)).did_commit);
    let enc = ok(alice_session.encrypt(b"rotated".to_vec()));
    let result = some(ok(bob_session.process_incoming(enc.cipher_text)));
    let commit = some(result.remote_commit);
    assert_eq!(
        some(commit.new_sender),
        new_alice_id,
        "Bob must observe Alice's caught-up leaf"
    );
    let msg = some(result.application_message);
    assert_eq!(msg.app_message_data, b"rotated");
    assert_eq!(msg.sender_client_id, new_alice_id);
    assert_eq!(
        bob_session.their_principal_state().client_id(),
        new_alice_id
    );
}

#[test]
fn test_principal_rotation_resolves_pending_state_after_peer_reply() {
    let (alice_session, bob_session) = establish_confirmed_sessions();

    let new_alice = make_client();
    let new_alice_id = new_alice.client_id();

    ok(alice_session.stage_rotation(new_alice.client_id().bytes));
    ok(alice_session.prepare_to_encrypt(Some(new_alice_id.clone())));
    let enc = ok(alice_session.encrypt(b"rotation".to_vec()));
    let got = some(ok(bob_session.process_incoming(enc.cipher_text)));

    // Alice stays Pending until the peer COMMITS a candidate - a mere reply
    // (without committing) resolves nothing.
    assert!(matches!(
        alice_session.my_principal_state(),
        PrincipalState::Pending { .. }
    ));
    ok(bob_session.prepare_to_encrypt(None));
    let reply = ok(bob_session.encrypt(b"ack".to_vec()));
    some(ok(alice_session.process_incoming(reply.cipher_text)));
    assert!(matches!(
        alice_session.my_principal_state(),
        PrincipalState::Pending { .. }
    ));

    // Bob approves and commits: the staple back canonicalizes Alice onto the
    // successor - Pending resolves to Sync { new }.
    ok(bob_session.queue_proposal(some(got.proposal).digest));
    assert!(ok(bob_session.prepare_to_encrypt(None)).did_commit);
    let frame = ok(bob_session.encrypt(b"canonicalize".to_vec()));
    some(ok(alice_session.process_incoming(frame.cipher_text)));
    assert!(
        matches!(
            alice_session.my_principal_state(),
            PrincipalState::Sync { .. }
        ),
        "Pending must resolve to Sync after the peer commits the candidate"
    );
    assert_eq!(alice_session.my_principal_state().client_id(), new_alice_id);
}

#[test]
fn test_prepare_to_encrypt_rotation_without_stage_rotation_returns_error() {
    let (alice_session, _) = establish_sessions();
    let new_alice = make_client();
    assert_eq!(err(alice_session.prepare_to_encrypt(Some(new_alice.client_id()))), TwoMlsPqError::SessionNotReady);
}

/// A frame that crossed one of our commits references our send group's *previous*
/// epoch. The session's PSK ledger must still resolve it - live derivation cannot,
/// because mls-rs only exports the current epoch. Choreography: alice's folding-commit
/// frame binds the PSK of bob's send group at epoch E; bob rotates (E -> E+1) before
/// processing alice's frame.
#[test]
fn test_psk_ledger_resolves_frame_that_crossed_a_commit() {
    let (alice_session, bob_session) = establish_confirmed_sessions();

    // Bob opens a routine round whose stapled Upd alice approves.
    ok(bob_session.prepare_to_encrypt(None));
    let enc = ok(bob_session.encrypt(b"proposal".to_vec()));
    let result = some(ok(alice_session.process_incoming(enc.cipher_text)));
    ok(alice_session.queue_proposal(some(result.proposal).digest));

    // Alice's folding commit binds the PSK of bob's send group at its current epoch.
    ok(alice_session.prepare_to_encrypt(None));
    let crossing = ok(alice_session.encrypt(b"crossed".to_vec()));

    // Before processing alice's frame, bob rotates - his send group leaves the epoch
    // alice's commit references.
    let new_bob = make_client();
    ok(bob_session.stage_rotation(new_bob.client_id().bytes));
    ok(bob_session.prepare_to_encrypt(Some(new_bob.client_id())));

    // The crossed frame still processes: the ledger held the departed epoch's PSK.
    let result = some(ok(
        bob_session.process_incoming(crossing.cipher_text)
    ));
    assert_eq!(
        some(result.application_message).app_message_data,
        b"crossed"
    );
}

#[test]
fn test_full_commit_advances_send_group_epoch() {
    let (alice_session, bob_session) = establish_sessions();

    ok(bob_session.prepare_to_encrypt(None));
    let enc = ok(bob_session.encrypt(b"proposal".to_vec()));
    let result = some(ok(alice_session.process_incoming(enc.cipher_text)));
    ok(alice_session.queue_proposal(some(result.proposal).digest));

    ok(alice_session.prepare_to_encrypt(None));
    let enc = ok(alice_session.encrypt(b"after commit".to_vec()));

    let result = some(ok(bob_session.process_incoming(enc.cipher_text)));
    let app = some(result.application_message);
    assert_eq!(app.app_message_data, b"after commit");
    assert!(
        app.epoch > 1,
        "send epoch must advance after the folding commit"
    );
}

#[test]
fn test_full_commit_enables_continued_messaging_after_psk_refresh() {
    let (alice_session, bob_session) = establish_sessions();

    ok(bob_session.prepare_to_encrypt(None));
    let enc = ok(bob_session.encrypt(b"proposal".to_vec()));
    let result = some(ok(alice_session.process_incoming(enc.cipher_text)));
    ok(alice_session.queue_proposal(some(result.proposal).digest));
    ok(alice_session.prepare_to_encrypt(None));
    let enc = ok(alice_session.encrypt(b"msg1".to_vec()));
    some(ok(bob_session.process_incoming(enc.cipher_text)));

    ok(alice_session.prepare_to_encrypt(None));
    let enc = ok(alice_session.encrypt(b"msg2".to_vec()));
    let result = some(ok(bob_session.process_incoming(enc.cipher_text)));
    assert_eq!(
        some(result.application_message).app_message_data,
        b"msg2"
    );

    ok(bob_session.prepare_to_encrypt(None));
    let enc = ok(bob_session.encrypt(b"reply".to_vec()));
    let result = some(ok(alice_session.process_incoming(enc.cipher_text)));
    assert_eq!(
        some(result.application_message).app_message_data,
        b"reply"
    );
}

#[test]
fn test_no_commit_round_delivers_app_message() {
    let (alice_session, bob_session) = establish_sessions();

    ok(alice_session.prepare_to_encrypt(None));
    let enc = ok(alice_session.encrypt(b"no-commit".to_vec()));

    let result = some(ok(bob_session.process_incoming(enc.cipher_text)));
    assert_eq!(
        some(result.application_message).app_message_data,
        b"no-commit"
    );
}

#[test]
fn test_no_commit_round_followed_by_bob_send_still_decrypts() {
    let (alice_session, bob_session) = establish_sessions();

    ok(alice_session.prepare_to_encrypt(None));
    let enc = ok(alice_session.encrypt(b"step1".to_vec()));
    some(ok(bob_session.process_incoming(enc.cipher_text)));

    ok(bob_session.prepare_to_encrypt(None));
    let enc = ok(bob_session.encrypt(b"step2".to_vec()));
    let result = some(ok(alice_session.process_incoming(enc.cipher_text)));
    assert_eq!(
        some(result.application_message).app_message_data,
        b"step2"
    );
}

#[test]
fn test_welcome_staple_rides_until_first_commit_and_repeats_skip() {
    let alice = make_client();
    let bob = make_client();
    let alice_kp = make_classical_kp(&alice);
    let bob_kp = make_combiner_kp(&bob);

    // Alice initiates; her welcome_a is delivered separately so Bob can accept.
    let alice_s = ok(Party::initiate(&alice, bob_kp, None));
    let welcome_a = alice_s.initial_welcome();
    let bob_s = ok(Party::accept(&bob,
        welcome_a,
        alice_kp, alice_s.commitment()));

    // Bob does NOT deliver welcome_b separately - every pre-commit frame staples it.
    assert!(
        !alice_s.is_established(),
        "alice has no recv group before welcome_b"
    );
    ok(bob_s.prepare_to_encrypt(None));
    let first = ok(bob_s.encrypt(b"hello".to_vec())).cipher_text;
    assert_eq!(
        open_frame(&alice_s, &first).first(),
        Some(&MESSAGE_FRAME_TAG)
    );
    let welcome_b = frame_staple(&alice_s, &first);
    assert_eq!(
        welcome_b.first(),
        Some(&APQ_TAG),
        "pre-commit staple must be the welcome"
    );

    // Alice joins (from the stapled welcome) and decrypts in one shot.
    let result = some(ok(alice_s.process_incoming(first)));
    assert_eq!(
        some(result.application_message).app_message_data,
        b"hello"
    );
    assert!(
        alice_s.is_established(),
        "alice should be established after the stapled welcome"
    );
    // The welcome is NOT consumed by stapling: the standalone copy stays available
    // for hosts that also deliver it separately...
    let standalone = some(bob_s.pending_outbound());
    // ...and a late standalone delivery after the staple-join is an idempotent no-op.
    assert!(ok(alice_s.process_incoming(standalone)).is_none());

    // Until Bob commits, every frame re-staples the same welcome - and the repeat
    // skips idempotently on Alice's side.
    ok(bob_s.prepare_to_encrypt(None));
    let second = ok(bob_s.encrypt(b"world".to_vec())).cipher_text;
    assert_eq!(
        frame_staple(&alice_s, &second),
        welcome_b,
        "welcome staple repeats until the first commit"
    );
    let result2 = some(ok(alice_s.process_incoming(second)));
    assert_eq!(
        some(result2.application_message).app_message_data,
        b"world"
    );

    // Once Alice's stapled proposal is approved and Bob commits, the staple
    // switches from the welcome to the commit.
    ok(alice_s.prepare_to_encrypt(None));
    let from_alice = ok(alice_s.encrypt(b"per-round".to_vec()));
    let res = some(ok(bob_s.process_incoming(from_alice.cipher_text)));
    ok(bob_s.queue_proposal(some(res.proposal).digest));
    let prep = ok(bob_s.prepare_to_encrypt(None));
    assert!(prep.did_commit);
    let committed = ok(bob_s.encrypt(b"committed".to_vec())).cipher_text;
    let staple = frame_staple(&alice_s, &committed);
    assert_eq!(
        staple.first(),
        Some(&0x00),
        "post-commit staple must be an MLS commit message"
    );
    let result3 = some(ok(alice_s.process_incoming(committed)));
    some(result3.remote_commit);
}

/// No plaintext MLS/TwoMLSPQ framing survives the seal: a sealed frame must not begin
/// with an MLS version byte (0x00) or any TwoMLSPQ tag, and must not contain the
/// recognizable APQWelcome framing of its own staple.
#[test]
fn test_sealed_frames_carry_no_plaintext_framing() {
    let (alice_session, bob_session) = establish_sessions();
    ok(bob_session.prepare_to_encrypt(None));
    let sealed = ok(bob_session.encrypt(b"secret".to_vec())).cipher_text;

    // The plaintext frame is a welcome-stapled message frame; its bytes must not
    // appear verbatim in the sealed blob.
    let plaintext = open_frame(&alice_session, &sealed);
    assert_eq!(plaintext.first(), Some(&MESSAGE_FRAME_TAG));
    assert!(
        !sealed
            .windows(plaintext.len().min(16))
            .any(|w| w == &plaintext[..plaintext.len().min(16)]),
        "sealed blob leaks a prefix of the plaintext frame"
    );
    // The first byte is a random nonce's, so nothing structural is there: it is not the tag
    // in every one of several frames.
    let mut firsts = vec![sealed[0]];
    for _ in 0..8 {
        ok(bob_session.prepare_to_encrypt(None));
        firsts.push(ok(bob_session.encrypt(b"secret".to_vec())).cipher_text[0]);
    }
    assert!(firsts.iter().any(|first| *first != MESSAGE_FRAME_TAG));
}

/// A frame sealed under an epoch still in the receive window opens after the receiver
/// has advanced its own send group past it - the cross-commit crossing the window
/// exists for.
#[test]
fn test_sealed_frame_crossing_a_commit_still_opens() {
    let (alice_session, bob_session) = establish_sessions();

    // Alice seals a frame under Bob's send group (her recv group) at its current
    // epoch; hold it unopened.
    ok(alice_session.prepare_to_encrypt(None));
    let early = ok(alice_session.encrypt(b"early".to_vec())).cipher_text;

    // A full round now advances BOB's send group past that epoch: Alice proposes,
    // Bob approves and commits (Bob's send group is the one Bob's header window - and
    // Alice's seal of `early` - key off).
    ok(alice_session.prepare_to_encrypt(None));
    let a2 = ok(alice_session.encrypt(b"a2".to_vec()));
    let r = some(ok(bob_session.process_incoming(a2.cipher_text)));
    ok(bob_session.queue_proposal(some(r.proposal).digest));
    assert!(ok(bob_session.prepare_to_encrypt(None)).did_commit);
    let _c = ok(bob_session.encrypt(b"c".to_vec()));

    // Bob's window now spans both his pre- and post-commit epochs, so the `early`
    // frame (sealed under the older epoch) still opens.
    let opened = some(ok(bob_session.open_incoming(early)));
    assert_eq!(opened.kind, OpenedFrameKind::Message);
}

/// A restored session still opens frames sealed under a recent epoch - the header
/// window rides the archive.
#[test]
fn test_restored_session_opens_in_flight_frame() {
    let (alice_session, bob_session) = establish_sessions();
    ok(alice_session.prepare_to_encrypt(None));
    let sealed = ok(alice_session.encrypt(b"in flight".to_vec())).cipher_text;

    // Bob archives and restores BEFORE opening the frame.
    let archive = ok(bob_session.archive());
    let restored = ok(Party::from_archive(archive));
    let result = some(ok(restored.process_incoming(sealed)));
    assert_eq!(
        some(result.application_message).app_message_data,
        b"in flight"
    );
}

/// A garbage blob (no window key opens it) is a silent `None`, not an error.
#[test]
fn test_open_incoming_garbage_is_none() {
    let (alice_session, _bob) = establish_sessions();
    assert!(ok(alice_session.open_incoming(vec![0xAB; 64])).is_none());
    assert!(ok(alice_session.open_incoming(vec![])).is_none());
}

/// The point of the PQ family: a side-band frame is keyed by `pq_epoch`, so it
/// survives classical churn that evicts the message-path window - proving it does not
/// ride the (async) classical key. Contrast: a message frame from the same pre-churn
/// moment is evicted and no longer opens.
#[test]
fn test_side_band_survives_classical_churn() {
    let (alice, bob) = establish_full();

    // Capture two pre-churn frames Bob will try to open later: a message frame
    // (classical-keyed) and a side-band EK (PQ-keyed).
    ok(alice.prepare_to_encrypt(None));
    let early_message = ok(alice.encrypt(b"early".to_vec())).cipher_text;
    let ek = ok(alice.pq_ratchet_begin());

    // Churn ONLY the classical ratchet, well past mls-rs epoch retention: Alice
    // proposes, Bob commits Bob's send group each round, both stay in lockstep. No PQ
    // activity, so `pq_epoch` - and Bob's PQ window - is untouched.
    for _ in 0..10 {
        ok(alice.prepare_to_encrypt(None));
        let a = ok(alice.encrypt(b"churn".to_vec()));
        let r = some(ok(bob.process_incoming(a.cipher_text)));
        ok(bob.queue_proposal(some(r.proposal).digest));
        assert!(ok(bob.prepare_to_encrypt(None)).did_commit);
        let bc = ok(bob.encrypt(b"c".to_vec()));
        some(ok(alice.process_incoming(bc.cipher_text)));
    }

    // The classical window has churned past the early message's epoch - it no longer
    // opens...
    assert!(
        ok(bob.open_incoming(early_message)).is_none(),
        "message-path window should have evicted the pre-churn epoch"
    );
    // ...but the EK, keyed by the (unchanged) pq_epoch, still opens. If it rode the
    // classical key it would have been evicted alongside the message frame.
    assert_eq!(
        some(ok(bob.open_incoming(ek))).kind,
        OpenedFrameKind::PqSideBand {
            kind: PqFrameKind::RatchetEphemeralKey
        }
    );
}

/// A restored session opens an in-flight side-band frame - the PQ window rides the
/// archive.
#[test]
fn test_restored_session_opens_in_flight_side_band() {
    let (alice, bob) = establish_full();
    let ek = ok(alice.pq_ratchet_begin());

    // Bob archives and restores before opening the EK.
    let restored = ok(Party::from_archive(ok(bob.archive())));
    assert_eq!(
        some(ok(restored.open_incoming(ek))).kind,
        OpenedFrameKind::PqSideBand {
            kind: PqFrameKind::RatchetEphemeralKey
        }
    );
}

/// The initiator's message-frame staple stays the plaintext `APQWelcome_A` (first byte
/// 0x01) even though `pending_outbound` is the opaque envelope - the two are
/// deliberately split in `initiate`.
#[test]
fn test_initiator_staple_is_plaintext_welcome() {
    let alice = make_client();
    let bob = make_client();
    let bob_kp = make_combiner_kp(&bob);
    let alice_s = ok(Party::initiate(&alice, bob_kp, None));
    assert_eq!(
        alice_s.initial_welcome().first(),
        Some(&APQ_TAG)
    );
    assert_ne!(
        some(alice_s.pending_outbound()).first(),
        Some(&APQ_TAG)
    );
}

#[test]
fn test_dropped_commit_frame_healed_by_next_staple() {
    // The headline self-healing property: the frame that carries a commit is LOST,
    // and the next frame's re-stapled commit brings the peer up to date anyway.
    let (alice_session, bob_session) = establish_sessions();

    // Alice proposes; Bob approves and commits in his own send group.
    ok(alice_session.prepare_to_encrypt(None));
    let enc = ok(alice_session.encrypt(b"propose".to_vec()));
    let result = some(ok(bob_session.process_incoming(enc.cipher_text)));
    ok(bob_session.queue_proposal(some(result.proposal).digest));

    let prep = ok(bob_session.prepare_to_encrypt(None));
    assert!(prep.did_commit);
    let lost = ok(bob_session.encrypt(b"lost frame".to_vec()));
    drop(lost); // never delivered

    // Bob's next round: no new commit (nothing queued), but the staple re-sends the
    // last one; Alice applies it and decrypts this frame at the new epoch.
    ok(bob_session.prepare_to_encrypt(None));
    let healing = ok(bob_session.encrypt(b"healing frame".to_vec()));
    let result = some(ok(
        alice_session.process_incoming(healing.cipher_text)
    ));
    assert_eq!(
        some(result.application_message).app_message_data,
        b"healing frame"
    );
    // The re-stapled commit applied on this frame.
    some(result.remote_commit);

    // And the direction keeps flowing both ways afterwards.
    ok(alice_session.prepare_to_encrypt(None));
    let enc = ok(alice_session.encrypt(b"after".to_vec()));
    some(ok(bob_session.process_incoming(enc.cipher_text)));
}

#[test]
fn test_rotation_proposal_rides_first_frame() {
    // Rotation is proposal-driven: it CANNOT displace the welcome staple (the
    // staple slot and the proposal slot are distinct), so a freshly established
    // session may propose its successor on its very first frame.
    let (alice_session, bob_session) = establish_sessions();
    let new_id = make_client().client_id();
    ok(alice_session.stage_rotation(new_id.bytes.clone()));
    ok(alice_session.prepare_to_encrypt(Some(new_id.clone())));
    let enc = ok(alice_session.encrypt(b"first".to_vec()));
    // The frame still carries the welcome staple AND the rotation proposal.
    let got = some(ok(bob_session.process_incoming(enc.cipher_text)));
    assert_eq!(some(got.proposal).proposing, new_id);
}

#[test]
fn test_rotation_folds_queued_proposal() {
    let (alice_session, bob_session) = establish_confirmed_sessions();

    // Alice's routine frame staples an Upd; Bob approves it...
    ok(alice_session.prepare_to_encrypt(None));
    let enc = ok(alice_session.encrypt(b"propose".to_vec()));
    let res = some(ok(bob_session.process_incoming(enc.cipher_text)));
    ok(bob_session.queue_proposal(some(res.proposal).digest));

    // ...then Bob's rotation-proposing round ALSO commits the queued proposal:
    // mls-rs auto-includes the cached Upd, the PSK refresh rides along, and the
    // consumption is reported - while the frame's own proposal slot carries
    // Bob's rotation candidate.
    let new_bob = make_client().client_id();
    ok(bob_session.stage_rotation(new_bob.bytes.clone()));
    let prep = ok(bob_session.prepare_to_encrypt(Some(new_bob.clone())));
    assert!(prep.did_commit);
    assert_eq!(
        some(prep.committed_remote_client_id).bytes,
        enc.sender.bytes
    );
    let enc2 = ok(bob_session.encrypt(b"rotated".to_vec()));

    // Alice applies the commit staple and receives Bob's candidate proposal -
    // the rotation round stages a proposal like any round (no skipped beat).
    let res = some(ok(alice_session.process_incoming(enc2.cipher_text)));
    some(res.remote_commit);
    assert_eq!(some(res.proposal).proposing, new_bob);

    // The queued digest was cleared by the fold: the next routine round has
    // nothing to commit - no spurious empty PSK-commit.
    ok(bob_session.prepare_to_encrypt(None));
    let enc3 = ok(bob_session.encrypt(b"routine".to_vec()));
    let res3 = some(ok(alice_session.process_incoming(enc3.cipher_text)));
    assert!(res3.remote_commit.is_none(), "no spurious follow-up commit");
}

#[test]
fn test_different_welcome_on_live_session_rejected() {
    let (alice_session, _bob_session) = establish_sessions();

    // A welcome that is NOT the one Alice's recv group was joined from - from an
    // unrelated establishment - is a mis-route, not a benign re-delivery.
    let carol = make_client();
    let dave = make_client();
    let dave_kp = make_combiner_kp(&dave);
    let carol_session = ok(Party::initiate(&carol, dave_kp, None));
    let foreign_welcome = carol_session.initial_welcome();

    assert_eq!(err(alice_session.process_incoming(foreign_welcome)), TwoMlsPqError::UnexpectedWelcome);
}

#[test]
fn test_prepare_to_encrypt_rotation_client_id_mismatch_returns_error() {
    let (alice_session, _) = establish_sessions();
    let new_alice = make_client();
    let other = make_client();
    ok(alice_session.stage_rotation(new_alice.client_id().bytes));
    assert_eq!(err(alice_session.prepare_to_encrypt(Some(other.client_id()))), TwoMlsPqError::SessionNotReady);
}

#[test]
fn test_encrypt_without_prepare_returns_session_not_ready() {
    let (alice_session, _) = establish_sessions();
    assert_eq!(err(alice_session.encrypt(b"no prepare".to_vec())), TwoMlsPqError::SessionNotReady);
}

#[test]
fn test_receive_group_id_none_before_recv_group() {
    let alice = make_client();
    let bob = make_client();
    let bob_kp = make_combiner_kp(&bob);
    let session = ok(Party::initiate(&alice, bob_kp, None));
    assert!(session.receive_group_id().is_none());
}

#[test]
fn test_receive_group_id_some_after_established() {
    let (alice_session, bob_session) = establish_sessions();
    assert!(alice_session.receive_group_id().is_some());
    assert!(bob_session.receive_group_id().is_some());
}

#[test]
fn test_has_receive_group_false_for_initiator_before_welcome() {
    let alice = make_client();
    let bob = make_client();
    let bob_kp = make_combiner_kp(&bob);
    let session = ok(Party::initiate(&alice, bob_kp, None));
    assert!(!session.has_receive_group());
}

#[test]
fn test_has_receive_group_true_for_acceptor_immediately() {
    let alice = make_client();
    let bob = make_client();
    let alice_kp = make_classical_kp(&alice);
    let bob_kp = make_combiner_kp(&bob);
    let alice_session = ok(Party::initiate(&alice, bob_kp, None));
    let welcome = alice_session.initial_welcome();
    let bob_session = ok(Party::accept(&bob, welcome, alice_kp, alice_session.commitment()));
    assert!(bob_session.has_receive_group());
}

#[test]
fn test_proposal_context_none_before_recv_group() {
    let alice = make_client();
    let bob = make_client();
    let bob_kp = make_combiner_kp(&bob);
    let session = ok(Party::initiate(&alice, bob_kp, None));
    assert!(session.proposal_context().is_none());
}

#[test]
fn test_proposal_context_some_after_established() {
    let (alice_session, bob_session) = establish_sessions();
    let alice_ctx = some(alice_session.proposal_context());
    let bob_ctx = some(bob_session.proposal_context());
    assert!(!alice_ctx.is_empty());
    assert!(!bob_ctx.is_empty());
}

#[test]
fn test_my_principal_state_initial_is_sync() {
    let alice = make_client();
    let alice_id = alice.client_id();
    let bob = make_client();
    let bob_kp = make_combiner_kp(&bob);
    let session = ok(Party::initiate(&alice, bob_kp, None));
    assert!(matches!(
        session.my_principal_state(),
        PrincipalState::Sync { .. }
    ));
    assert_eq!(session.my_principal_state().client_id(), alice_id);
}

#[test]
fn test_my_principal_state_becomes_pending_after_rotation_commit() {
    let (alice_session, _) = establish_confirmed_sessions();
    let new_alice = make_client();
    let new_id = new_alice.client_id();
    ok(alice_session.stage_rotation(new_alice.client_id().bytes));
    ok(alice_session.prepare_to_encrypt(Some(new_id.clone())));
    assert!(matches!(
        alice_session.my_principal_state(),
        PrincipalState::Pending { .. }
    ));
}

#[test]
fn test_no_commit_round_surfaces_proposal() {
    let (alice_session, bob_session) = establish_sessions();

    ok(alice_session.prepare_to_encrypt(None));
    let enc = ok(alice_session.encrypt(b"with nonce".to_vec()));
    let result = some(ok(bob_session.process_incoming(enc.cipher_text)));

    let proposal = some(result.proposal);
    assert!(!proposal.digest.is_empty());
    assert_eq!(
        proposal.sender,
        alice_session.my_principal_state().client_id()
    );
}

#[test]
fn test_multiple_sequential_no_commit_rounds_stay_in_sync() {
    let (alice_session, bob_session) = establish_sessions();

    for i in 0..3u8 {
        let msg = vec![i];
        ok(alice_session.prepare_to_encrypt(None));
        let enc = ok(alice_session.encrypt(msg.clone()));
        let result = some(ok(bob_session.process_incoming(enc.cipher_text)));
        assert_eq!(
            some(result.application_message).app_message_data,
            msg
        );
    }
}

#[test]
fn test_routine_frame_is_classical_sized() {
    let alice = make_client();
    let bob = make_client();
    let alice_kp = make_classical_kp(&alice);
    let bob_kp = make_combiner_kp(&bob);

    let alice_s = ok(Party::initiate(&alice, bob_kp, None));
    let welcome_a = alice_s.initial_welcome();
    let bob_s = ok(Party::accept(&bob,
        welcome_a.clone(),
        alice_kp, alice_s.commitment()));
    let welcome_b = some(bob_s.pending_outbound());
    ok(alice_s.process_incoming(welcome_b.clone()));

    // Pre-first-commit, the initiator's frames re-staple her full two-half APQ
    // welcome - welcome-sized by design (the one unavoidably large staple; the
    // peer skips the repeats). The steady state begins at her first commit.
    ok(alice_s.prepare_to_encrypt(None));
    let pre_commit = ok(alice_s.encrypt(b"warm-up".to_vec()));
    assert!(
        pre_commit.cipher_text.len() > welcome_a.len(),
        "pre-commit initiator frames carry the welcome staple"
    );
    some(ok(bob_s.process_incoming(pre_commit.cipher_text)));

    // One round so Alice commits (consuming Bob's approved Upd): her staple
    // switches from the welcome to her classical commit.
    ok(bob_s.prepare_to_encrypt(None));
    let from_bob = ok(bob_s.encrypt(b"bob-round".to_vec()));
    let res = some(ok(alice_s.process_incoming(from_bob.cipher_text)));
    ok(alice_s.queue_proposal(some(res.proposal).digest));
    let prep = ok(alice_s.prepare_to_encrypt(None));
    assert!(prep.did_commit);
    let committing = ok(alice_s.encrypt(b"commit round".to_vec()));
    some(ok(bob_s.process_incoming(committing.cipher_text)));

    // Routine round in the steady state: the staple is the latest classical commit.
    ok(alice_s.prepare_to_encrypt(None));
    let routine = ok(alice_s.encrypt(b"the quick brown fox".to_vec())).cipher_text;

    // The steady-state frame must be classical-sized even though it always carries
    // a commit staple: a classical stapled commit has no PQ keys (PQ work rides
    // partial PQ commits on the side-band; big ML-KEM updatePaths are isolated to
    // a re-key on the PQ groups alone).
    assert!(
        routine.len() < 2000,
        "routine frame should be classical-sized, got {} B",
        routine.len()
    );
}

#[test]
fn test_folding_commit_after_multiple_no_commit_rounds() {
    let (alice_session, bob_session) = establish_sessions();

    for _ in 0..2 {
        ok(alice_session.prepare_to_encrypt(None));
        let enc = ok(alice_session.encrypt(b"no-commit".to_vec()));
        some(ok(bob_session.process_incoming(enc.cipher_text)));
    }

    ok(bob_session.prepare_to_encrypt(None));
    let enc = ok(bob_session.encrypt(b"propose".to_vec()));
    let result = some(ok(alice_session.process_incoming(enc.cipher_text)));
    ok(alice_session.queue_proposal(some(result.proposal).digest));

    ok(alice_session.prepare_to_encrypt(None));
    let enc = ok(alice_session.encrypt(b"full".to_vec()));
    let result = some(ok(bob_session.process_incoming(enc.cipher_text)));
    assert_eq!(
        some(result.application_message).app_message_data,
        b"full"
    );
    some(result.remote_commit);
}

#[test]
fn test_bob_to_alice_full_commit_cycle() {
    let (alice_session, bob_session) = establish_sessions();

    ok(alice_session.prepare_to_encrypt(None));
    let enc = ok(alice_session.encrypt(b"propose".to_vec()));
    let result = some(ok(bob_session.process_incoming(enc.cipher_text)));

    ok(bob_session.queue_proposal(some(result.proposal).digest));
    ok(bob_session.prepare_to_encrypt(None));
    let enc = ok(bob_session.encrypt(b"full".to_vec()));

    let result = some(ok(alice_session.process_incoming(enc.cipher_text)));
    assert_eq!(
        some(result.application_message).app_message_data,
        b"full"
    );
    some(result.remote_commit);
}

#[test]
fn test_process_incoming_malformed_message_frame_returns_error() {
    let (alice_session, _) = establish_sessions();
    // Sections parse, but the staple is neither a welcome (0x01) nor an MLS
    // message (0x00) that decodes.
    let fake = encode_message_frame(b"junk", b"junk".to_vec(), b"junk".to_vec());
    assert_eq!(err(alice_session.process_incoming(fake)), TwoMlsPqError::DecryptionFailed);
}

#[test]
fn test_suite_mismatch_key_package_rejected_before_group_built() {
    let alice = make_client();
    let peer = make_client();

    // Both halves classical (peer offers no PQ protection) -> the specific PqNotAvailable.
    let both_classical = CombinerKeyPackage {
        classical: make_classical_kp(&peer),
        pq: make_classical_kp(&peer),
    };
    assert_eq!(err(Party::initiate(&alice, both_classical, None)), TwoMlsPqError::PqNotAvailable);

    // Halves swapped (PQ suite in the classical slot) -> CipherSuiteMismatch, rejected
    // before any send group is created.
    let swapped = CombinerKeyPackage {
        classical: make_pq_kp(&peer),
        pq: make_classical_kp(&peer),
    };
    assert_eq!(err(Party::initiate(&alice, swapped, None)), TwoMlsPqError::CipherSuiteMismatch);
}

#[test]
fn test_archive_rejects_a_wrong_suite_header() {
    let (alice, _bob) = establish_sessions();
    let archive = ok(alice.archive());
    let mut bytes = archive.bytes;
    // Byte 0 is the version; byte 1 is the classical suite's high byte. Corrupt it so the
    // archived pair no longer equals this build's pinned suite. Restore is self-contained
    // (the archive rebuilds its own client), so no identity is passed.
    bytes[1] ^= 0x01;
    assert_eq!(err(Party::from_archive(Archive { bytes })), TwoMlsPqError::ArchiveInvalid);
}

#[test]
fn test_pq_bootstrap_completes_deferred_halves() {
    let (alice, bob) = establish_sessions();

    // Establishment is classical-complete but the acceptor's send-group PQ half
    // (and the initiator's recv mirror) is deferred.
    assert!(alice.is_established());
    assert!(bob.is_established());
    assert!(!alice.is_fully_established());
    assert!(!bob.is_fully_established());
    // The initiator holds the turn and owes the bootstrap.
    assert!(alice.my_pq_turn());
    assert!(!bob.my_pq_turn());

    bootstrap(&alice, &bob);

    assert!(alice.is_fully_established());
    assert!(bob.is_fully_established());
    // Completing the operation passes the turn.
    assert!(!alice.my_pq_turn());
    assert!(bob.my_pq_turn());
    assert!(bob.epochs().pq_epoch > 0);

    // Both directions still message after the bind commits.
    ok(alice.prepare_to_encrypt(None));
    let a2b = ok(alice.encrypt(b"post-bootstrap a".to_vec()));
    let got = ok(bob.process_incoming(a2b.cipher_text));
    assert_eq!(
        some(some(got).application_message).app_message_data,
        b"post-bootstrap a".to_vec()
    );
    ok(bob.prepare_to_encrypt(None));
    let b2a = ok(bob.encrypt(b"post-bootstrap b".to_vec()));
    let got = ok(alice.process_incoming(b2a.cipher_text));
    assert_eq!(
        some(some(got).application_message).app_message_data,
        b"post-bootstrap b".to_vec()
    );
}

#[test]
fn test_pq_ratchet_bind_mints_new_listen_address() {
    let (alice, bob) = establish_sessions();
    let before = ok(alice.should_listen_on())
        .rendezvous_by_epoch
        .len();

    // A ratchet: the bind's classical commit advances alice's send-group epoch.
    let ek = ok(alice.pq_ratchet_begin());
    ok(bob.pq_ratchet_respond(ek));
    let ct = some(bob.pq_take_pending_outbound());
    ok(alice.pq_ratchet_bind(ct));
    assert_eq!(discharge(&alice, &bob, b"bind"), b"bind");
    let listen_a = ok(alice.should_listen_on());
    assert_eq!(listen_a.rendezvous_by_epoch.len(), before + 1);

    // Bob has applied the bind; his post address lands on the new epoch's channel.
    let bob_post = some(bob.send_rendezvous());
    assert!(listen_a
        .rendezvous_by_epoch
        .iter()
        .any(|e| e.rendezvous_id.bytes == bob_post.bytes));
}

#[test]
fn test_pq_rekey_then_ratchet_still_works() {
    let (alice, bob) = establish_full();
    rekey_round(&bob, &alice);
    // Ratchet after a rekey: Alice holds the turn.
    let ek = ok(alice.pq_ratchet_begin());
    ok(bob.pq_ratchet_respond(ek));
    let ct = some(bob.pq_take_pending_outbound());
    ok(alice.pq_ratchet_bind(ct));
    assert_eq!(discharge(&alice, &bob, b"post-rekey-ratchet"), b"post-rekey-ratchet");
}

/// A rotation swaps the session client, but the existing groups keep resolving
/// external PSKs from the stores of the clients that created them. Every
/// PSK-carrying flow must still work after a rotation (a plain rekey, a ratchet, and a full classical
/// commit round, all post-rotation, no credential handoff involved).
#[test]
fn test_psk_flows_survive_rotation_without_handoff() {
    let (alice, bob) = establish_full();

    let new_bob = make_client();
    ok(bob.stage_rotation(new_bob.client_id().bytes));
    ok(bob.prepare_to_encrypt(Some(new_bob.client_id())));
    let enc = ok(bob.encrypt(b"rotate".to_vec()));
    some(ok(alice.process_incoming(enc.cipher_text)));

    // Plain re-key, initiated by the rotated side (Bob holds the turn).
    rekey_round(&bob, &alice);

    // Ratchet with the rotated side responding (Alice's turn now).
    let ek = ok(alice.pq_ratchet_begin());
    ok(bob.pq_ratchet_respond(ek));
    let ct = some(bob.pq_take_pending_outbound());
    ok(alice.pq_ratchet_bind(ct));
    assert_eq!(discharge(&alice, &bob, b"post-rotation-ratchet"), b"post-rotation-ratchet");

    // Full classical commit round from the rotated side: Alice staples an Upd
    // that Bob approves and commits with a cross-party PSK refresh.
    ok(alice.prepare_to_encrypt(None));
    let a2b = ok(alice.encrypt(b"staple".to_vec()));
    let got = some(ok(bob.process_incoming(a2b.cipher_text)));
    let offered = some(got.proposal);
    ok(bob.queue_proposal(offered.digest));
    assert!(ok(bob.prepare_to_encrypt(None)).did_commit);
    let b2a = ok(bob.encrypt(b"folding-commit".to_vec()));
    assert_eq!(
        some(
            some(ok(alice.process_incoming(b2a.cipher_text))).application_message
        )
        .app_message_data,
        b"folding-commit"
    );
}

#[test]
fn test_pq_bootstrap_begin_rotating_requires_current_agent() {
    let (alice, bob) = establish_confirmed_sessions();
    let stranger = make_client();
    assert_eq!(err(alice.pq_bootstrap_begin(Some(stranger.client_id()))), TwoMlsPqError::SessionNotReady);

    // After a rotation the bootstrap accepts the handoff id, and the
    // KP' it emits - generated by the new principal - completes the bootstrap as usual.
    let new_alice = make_client();
    let new_alice_id = new_alice.client_id();
    rotate_round(&alice, &bob, new_alice_id.clone());

    let kp = ok(alice.pq_bootstrap_begin(Some(new_alice_id)));
    ok(bob.pq_bootstrap_respond(kp));
    let welcome = some(bob.pq_take_pending_outbound());
    ok(alice.pq_bootstrap_bind(welcome));
    assert_eq!(discharge(&alice, &bob, b"bootstrap"), b"bootstrap");
    assert!(bob.my_pq_turn());
}

#[test]
fn test_a4_bootstrap_mints_no_listen_addresses_but_advertises_pq_id() {
    let (alice, bob) = establish_sessions();
    let bob_before = ok(bob.should_listen_on());
    assert!(bob_before.send_group.pq.bytes.is_empty());

    bootstrap(&alice, &bob);

    // The bootstrap is PQ-groups-only: no classical commit, no new listen addresses -
    // but the acceptor's send group now advertises its PQ half.
    let bob_after = ok(bob.should_listen_on());
    assert_eq!(
        bob_after.rendezvous_by_epoch.len(),
        bob_before.rendezvous_by_epoch.len()
    );
    assert!(!bob_after.send_group.pq.bytes.is_empty());
}

#[test]
fn test_pq_ratchet_round_trip_delivers_app_message() {
    let (alice, bob) = establish_sessions();
    // Alice initiates a PQ ratchet on her send group; Bob responds and applies.
    let ek = ok(alice.pq_ratchet_begin());
    ok(bob.pq_ratchet_respond(ek));
    let ct = some(bob.pq_take_pending_outbound());
    ok(alice.pq_ratchet_bind(ct));
    assert_eq!(discharge(&alice, &bob, b"hello-pq"), b"hello-pq");
}

/// The PQ side-band must survive a principal rotation: the injected-secret and apq PSKs
/// have to land in the stores the group halves actually resolve from (captured at
/// group creation), not the rotated-in client's stores - otherwise Alice's bind and
/// Bob's apply both fail to find their PSKs after the client swap.
#[test]
fn test_pq_ratchet_completes_after_principal_rotation() {
    let (alice, bob) = establish_confirmed_sessions();

    // Rotate both agents, delivering each rotation commit so the peer's recv group
    // tracks the new epoch.
    let new_alice = make_client();
    ok(alice.stage_rotation(new_alice.client_id().bytes));
    ok(alice.prepare_to_encrypt(Some(new_alice.client_id())));
    let enc = ok(alice.encrypt(b"alice-rotated".to_vec()));
    some(ok(bob.process_incoming(enc.cipher_text)));

    let new_bob = make_client();
    ok(bob.stage_rotation(new_bob.client_id().bytes));
    ok(bob.prepare_to_encrypt(Some(new_bob.client_id())));
    let enc = ok(bob.encrypt(b"bob-rotated".to_vec()));
    some(ok(alice.process_incoming(enc.cipher_text)));

    // A full ratchet round after both rotations: Alice injects on her send group's PQ half
    // and binds into its classical half; Bob applies on his recv halves.
    let ek = ok(alice.pq_ratchet_begin());
    ok(bob.pq_ratchet_respond(ek));
    let ct = some(bob.pq_take_pending_outbound());
    ok(alice.pq_ratchet_bind(ct));
    assert_eq!(discharge(&alice, &bob, b"pq-after-rotation"), b"pq-after-rotation");
}

#[test]
fn test_pq_ratchet_turn_flips_to_responder() {
    let (alice, bob) = establish_full();
    // Round 1: Alice initiates.
    let ek = ok(alice.pq_ratchet_begin());
    ok(bob.pq_ratchet_respond(ek));
    let ct = some(bob.pq_take_pending_outbound());
    ok(alice.pq_ratchet_bind(ct));
    assert_eq!(discharge(&alice, &bob, b"a1"), b"a1");
    // Round 2: turn flips - Bob initiates on his send group, Alice applies.
    let ek2 = ok(bob.pq_ratchet_begin());
    ok(alice.pq_ratchet_respond(ek2));
    let ct2 = some(alice.pq_take_pending_outbound());
    ok(bob.pq_ratchet_bind(ct2));
    assert_eq!(discharge(&bob, &alice, b"b1"), b"b1");
}

#[test]
fn test_pq_ratchet_bind_guarded_while_commit_staged() {
    let (alice, bob) = establish_full();
    let ek = ok(alice.pq_ratchet_begin());
    ok(bob.pq_ratchet_respond(ek));
    let ct = some(bob.pq_take_pending_outbound());

    // A prepared-but-unsent round holds the staple slot: the bind must not displace a
    // commit that has never ridden a frame.
    ok(alice.prepare_to_encrypt(None));
    assert_eq!(err(alice.pq_ratchet_bind(ct.clone())), TwoMlsPqError::SessionNotReady);

    // Retriable: once the round's encrypt has gone out, the bind proceeds.
    let enc = ok(alice.encrypt(b"round".to_vec()));
    some(ok(bob.process_incoming(enc.cipher_text)));
    ok(alice.pq_ratchet_bind(ct));
    assert_eq!(discharge(&alice, &bob, b"app"), b"app");
}

#[test]
fn test_classical_round_still_works_after_pq_ratchet() {
    let (alice, bob) = establish_sessions();
    let ek = ok(alice.pq_ratchet_begin());
    ok(bob.pq_ratchet_respond(ek));
    let ct = some(bob.pq_take_pending_outbound());
    ok(alice.pq_ratchet_bind(ct));
    assert_eq!(discharge(&alice, &bob, b"pq"), b"pq");

    // The classical ratchet must continue normally after a PQ bind.
    ok(alice.prepare_to_encrypt(None));
    let enc = ok(alice.encrypt(b"classical-after-pq".to_vec()));
    let result = some(ok(bob.process_incoming(enc.cipher_text)));
    assert_eq!(
        some(result.application_message).app_message_data,
        b"classical-after-pq"
    );
}

#[test]
fn test_three_sequential_pq_ratchets_alternate_and_deliver() {
    let (alice, bob) = establish_full();
    for (i, (initiator, responder)) in [(&alice, &bob), (&bob, &alice), (&alice, &bob)]
        .iter()
        .enumerate()
    {
        let payload = vec![i as u8; 8];
        let ek = ok(initiator.pq_ratchet_begin());
        ok(responder.pq_ratchet_respond(ek));
        let ct = some(responder.pq_take_pending_outbound());
        ok(initiator.pq_ratchet_bind(ct));
        assert_eq!(discharge(initiator, responder, &payload), payload);
    }
}

#[test]
fn test_accept_with_invalid_welcome_bytes_returns_error() {
    let alice = make_client();
    let bob = make_client();
    let alice_kp = make_classical_kp(&alice);
    assert_eq!(err(Party::accept(&bob, vec![0xFF; 32], alice_kp, vec![0; 32])), TwoMlsPqError::Mls);
}

/// End-to-end smoke test of the push path: install a sink, drive classical + PQ ops, and
/// confirm the blob kinds, then restore from the pushed blobs and keep messaging.
#[test]
fn test_push_persistence_smoke() {
    let (alice, bob) = establish_full();

    let sink = new_sink();
    // `install_sink` pushes exactly one baseline checkpoint.
    ok(alice.install_sink(sink.clone()));
    assert_eq!(kinds(&sink), vec![BlobKind::Checkpoint]);

    // Classical message rounds push ONLY Core - never re-encode the ML-KEM trees.
    message_round(&alice, &bob, b"one");
    message_round(&bob, &alice, b"two");
    assert!(
        kinds(&sink)
            .iter()
            .skip(1)
            .all(|k| *k == BlobKind::Core),
        "classical ops must push only Core, got {:?}",
        kinds(&sink)
    );

    // A PQ side-band round (Re-key) pushes Checkpoint(s).
    rekey_round(&bob, &alice);
    assert!(
        kinds(&sink)
            .iter()
            .any(|k| *k == BlobKind::Checkpoint && kinds(&sink).len() > 1),
        "a PQ op must push a Checkpoint"
    );

    // Restore from the newest pushed blobs and keep going.
    let restored = ok(Party::from_persisted(
        latest(&sink, BlobKind::Core),
        latest(&sink, BlobKind::Checkpoint),
    ));
    message_round(&bob, &restored, b"after-restore");
    message_round(&restored, &bob, b"restore->bob");
}

/// `install_sink` is once-only: a second call is rejected rather than silently orphaning the
/// first sink (whose store would then go stale with no error).
#[test]
fn test_install_sink_rejects_second_call() {
    let (alice, _bob) = establish_full();
    let first = new_sink();
    ok(alice.install_sink(first.clone()));
    let second = new_sink();
    assert_eq!(err(alice.install_sink(second.clone())), TwoMlsPqError::SinkAlreadyInstalled);
    // The rejected sink received nothing; the first stays the live one.
    assert_eq!(kinds(&second).len(), 0);
    assert_eq!(kinds(&first), vec![BlobKind::Checkpoint]);
}

/// Fail-closed restore: a `core` whose PQ-epoch manifest does not match the reconciling
/// `checkpoint` (a PQ op advanced without emitting a checkpoint - impossible normally, but
/// the manifest guards a lost/torn checkpoint) is rejected rather than restored spliced.
#[test]
fn test_from_persisted_fails_closed_on_stale_checkpoint() {
    let (alice, bob) = establish_full();
    let sink = new_sink();
    ok(alice.install_sink(sink.clone()));
    // The baseline checkpoint carries the pre-rekey PQ epochs.
    let stale_checkpoint = latest(&sink, BlobKind::Checkpoint);
    assert!(stale_checkpoint.is_some());

    // A PQ rekey advances alice's PQ halves (and pushes a fresh checkpoint we deliberately
    // ignore); a classical message then pushes a Core whose manifest names the NEW PQ epochs.
    rekey_round(&bob, &alice);
    message_round(&alice, &bob, b"post-rekey");
    let core = latest(&sink, BlobKind::Core);
    assert!(core.is_some());

    // Splicing that newer Core onto the pre-rekey checkpoint would pair classical state with a
    // stale PQ tree - the manifest catches it.
    assert_eq!(err(Party::from_persisted(core, stale_checkpoint)), TwoMlsPqError::ArchiveInvalid);
}

#[test]
fn test_archive_round_trips_fully_established_session() {
    let (alice_session, bob_session) = establish_sessions();
    bootstrap(&alice_session, &bob_session);
    assert!(alice_session.is_fully_established());

    let restored = round_trip(&alice_session);
    assert!(restored.is_fully_established());

    // The PQ side-band still runs: a full Ratchet round initiated by the
    // restored side (Bob holds the turn after the bootstrap, so pass it back first).
    let ek = ok(bob_session.pq_ratchet_begin());
    ok(restored.pq_ratchet_respond(ek));
    let ct = some(restored.pq_take_pending_outbound());
    ok(bob_session.pq_ratchet_bind(ct));
    assert_eq!(discharge(&bob_session, &restored, b"pq-after-restore"), b"pq-after-restore");
    message_round(&restored, &bob_session, b"classical-after-pq");
}

#[test]
fn test_archive_preserves_spawn_token() {
    let alice = make_client();
    let bob = make_client();
    let alice_kp = make_classical_kp(&alice);
    let bob_kp = make_combiner_kp(&bob);
    let alice_session = ok(Party::initiate(&alice, bob_kp.clone(), None));
    let welcome_a = alice_session.initial_welcome();
    let token = b"spawn-token".to_vec();
    let bob_session = ok(Party::accept_with(&bob, None, welcome_a, alice_kp, alice_session.commitment(), Some(token.clone()), None));

    let restored = round_trip(&bob_session);
    assert!(ok(restored.forwarded(token)).is_none());
    assert_eq!(err(restored.forwarded(b"other".to_vec())), TwoMlsPqError::DecryptionFailed);
}

/// A parked responder side-band frame (turn already flipped) survives the round trip;
/// dropping it would desync the side-band permanently.
#[test]
fn test_archive_preserves_parked_pq_frame() {
    let (alice_session, bob_session) = establish_sessions();
    bootstrap(&alice_session, &bob_session);

    // Bob initiates a ratchet round; Alice responds and parks the ct frame.
    let ek = ok(bob_session.pq_ratchet_begin());
    ok(alice_session.pq_ratchet_respond(ek));
    // The ciphertext is parked: archive Alice and make sure that it is still deliverable
    // from the restored session.
    let restored_alice = round_trip(&alice_session);
    let ct = some(restored_alice.pq_take_pending_outbound());
    ok(bob_session.pq_ratchet_bind(ct));
    assert_eq!(discharge(&bob_session, &restored_alice, b"pq-msg"), b"pq-msg");
}

/// Re-key markers hold no secrets and archive on both sides mid-round.
#[test]
fn test_archive_mid_rekey_round_completes_after_restore() {
    let (alice_session, bob_session) = establish_sessions();
    bootstrap(&alice_session, &bob_session);

    // Bob holds the turn: he initiates the rekey, then archives mid-round.
    let upd = ok(bob_session.pq_rekey_begin(None));
    let restored_bob = round_trip(&bob_session);

    assert!(ok(alice_session.pq_rekey_respond(upd)).is_none());
    // Alice archives mid-round too (RekeyResponded, parked reply survives).
    let restored_alice = round_trip(&alice_session);

    let reply = some(restored_alice.pq_take_pending_outbound());
    ok(restored_bob.pq_rekey_apply(reply));
    assert_eq!(discharge(&restored_bob, &restored_alice, b"rekeyed"), b"rekeyed");
}

/// Archive mid-ratchet as the INITIATOR (after `pq_ratchet_begin`,
/// before the ciphertext arrives). The held ephemeral survives the jump, so the
/// restored initiator binds the responder's ciphertext and the round completes.
#[test]
fn test_archive_mid_a3_as_initiator_completes_after_restore() {
    let (alice_session, bob_session) = establish_sessions();
    bootstrap(&alice_session, &bob_session);

    // Bob holds the turn after the bootstrap: he is the ratchet initiator.
    let ek = ok(bob_session.pq_ratchet_begin());
    // Archive Bob mid-round (Initiating, holding the ephemeral) before the ct arrives.
    let restored_bob = round_trip(&bob_session);

    // Alice responds; the restored Bob binds across the jump with his rebuilt ephemeral.
    ok(alice_session.pq_ratchet_respond(ek));
    let ct = some(alice_session.pq_take_pending_outbound());
    ok(restored_bob.pq_ratchet_bind(ct));
    assert_eq!(discharge(&restored_bob, &alice_session, b"initiator-jump"), b"initiator-jump");
    message_round(&restored_bob, &alice_session, b"classical-after-jump");
}

/// Archive mid-ratchet as the RESPONDER (after `pq_ratchet_respond`,
/// holding the shared secret S). S survives the jump, so the restored responder
/// applies the initiator's bind cleanly - the desync that discarding S would
/// cause is exactly why S must be serialized.
#[test]
fn test_archive_mid_a3_as_responder_completes_after_restore() {
    let (alice_session, bob_session) = establish_sessions();
    bootstrap(&alice_session, &bob_session);

    // Bob initiates; Alice responds and holds S (having emitted the ciphertext).
    let ek = ok(bob_session.pq_ratchet_begin());
    ok(alice_session.pq_ratchet_respond(ek));
    let ct = some(alice_session.pq_take_pending_outbound());
    // Archive Alice mid-round (Responding, holding S).
    let restored_alice = round_trip(&alice_session);

    // Bob binds; the restored Alice applies the incoming bind across the jump.
    ok(bob_session.pq_ratchet_bind(ct));
    assert_eq!(discharge(&bob_session, &restored_alice, b"responder-jump"), b"responder-jump");
    message_round(&restored_alice, &bob_session, b"classical-after-jump");
}

/// The header key length tracks the configured header AEAD's key size - so a future
/// change of `HEADER_AEAD_SUITE` to a different-key-length cipher can't silently
/// desync key derivation from the seal.
#[test]
fn test_header_key_len_matches_aead() {
    let aead_key_size = header_aead_suite().aead_key_size();
    assert_eq!(ok(header_key_len()), aead_key_size);

    // A derived header key is exactly that length.
    let (alice, _bob) = establish_sessions();
    ok(alice.prepare_to_encrypt(None));
    let sealed = ok(alice.encrypt(b"x".to_vec())).cipher_text;
    // Sealed length = nonce + plaintext + tag; nonce size also tracks the suite.
    let cs = header_aead_suite();
    assert!(sealed.len() > cs.aead_nonce_size());
}

/// A sealed PQ side-band frame opens and classifies to the right kind, and the
/// full ratchet round drives end-to-end through sealed frames.
#[test]
fn test_sealed_side_band_opens_and_classifies() {
    let (alice, bob) = establish_full();
    let ek = ok(alice.pq_ratchet_begin());
    // Sealed on the wire; opens on Bob's window as the ratchet EK frame.
    assert_eq!(
        some(ok(bob.open_incoming(ek.clone()))).kind,
        OpenedFrameKind::PqSideBand {
            kind: PqFrameKind::RatchetEphemeralKey
        }
    );
    // And the round completes through the sealed frames (receivers auto-open).
    ok(bob.pq_ratchet_respond(ek));
    let ct = some(bob.pq_take_pending_outbound());
    ok(alice.pq_ratchet_bind(ct));
    assert_eq!(discharge(&alice, &bob, b"a"), b"a");
}

/// The bootstrap key package's frame has no recv-PQ group yet, so it falls back to the
/// classical seal and opens via the classical window - still classifying as the
/// bootstrap side-band frame.
#[test]
fn test_bootstrap_kp_opens_via_classical_fallback() {
    let (alice, bob) = establish_sessions();
    let kp = ok(alice.pq_bootstrap_begin(None));
    assert_eq!(
        some(ok(bob.open_incoming(kp.clone()))).kind,
        OpenedFrameKind::PqSideBand {
            kind: PqFrameKind::BootstrapKeyPackage
        }
    );
    // And the bootstrap completes through the sealed frames.
    ok(bob.pq_bootstrap_respond(kp));
    let welcome = some(bob.pq_take_pending_outbound());
    ok(alice.pq_bootstrap_bind(welcome));
    assert_eq!(discharge(&alice, &bob, b"bootstrap"), b"bootstrap");
    assert!(alice.is_fully_established() && bob.is_fully_established());
}

/// `app_payload: None` round-trips as `None` (empty section), and the welcome still
/// recovers.
#[test]
fn test_initial_envelope_no_app_payload() {
    let alice = make_client();
    let bob = make_client();
    let alice_kp = make_classical_kp(&alice);
    let bob_kp = make_combiner_kp(&bob);

    let alice_s = ok(Party::initiate(&alice, bob_kp.clone(), None));
    let opened = open_envelope(&bob_kp.pq, &some(alice_s.pending_outbound()));
    assert_eq!(opened.app_payload, None);
    ok(Party::accept_with(&bob, None, some(opened.welcome), alice_kp, alice_s.commitment(), Some(b"tok".to_vec()), None));
}

/// Establishment-time principal selection: accepting under a dedicated id creates the
/// acceptor's send group under a freshly-minted dedicated principal - its ClientId is
/// the creator leaf the initiator reads out of the return welcome. No rotation commit
/// is involved; the initiator observes the dedicated principal on the very frame whose
/// welcome staple performed the join.
#[test]
fn test_receive_under_dedicated_principal() {
    let alice = make_client();
    let bob = make_client();
    let alice_kp = make_classical_kp(&alice);
    let bob_kp = make_combiner_kp(&bob);

    let alice_s = ok(Party::initiate(&alice, bob_kp.clone(), None));
    let opened = open_envelope(&bob_kp.pq, &some(alice_s.pending_outbound()));

    let dedicated = test_client_id();
    let bob_s = ok(Party::accept_with(&bob, Some(dedicated.clone()), some(opened.welcome), alice_kp, alice_s.commitment(), Some(b"tok".to_vec()), None));

    // The acceptor's principal is the dedicated agent from birth - no Pending state,
    // nothing staged. The session id still derives from the FOUNDING pair (the
    // invitation identity Alice initiated toward), so both sides agree on it.
    assert_eq!(bob_s.my_principal_state().client_id().bytes, dedicated);
    assert_eq!(
        alice_s.active_session_id().bytes,
        bob_s.active_session_id().bytes
    );
    // Pre-join, Alice still knows the peer as the invitation identity.
    assert_eq!(
        alice_s.their_principal_state().client_id().bytes,
        bob.client_id().bytes
    );

    // Bob's first frame staples APQWelcome_B, whose creator leaf carries the
    // dedicated id: the joining frame surfaces the handoff like a rotation
    // (remote_commit.new_sender) and message attribution carries it from the start.
    ok(bob_s.prepare_to_encrypt(None));
    let enc = ok(bob_s.encrypt(b"hello".to_vec()));
    let res = some(ok(alice_s.process_incoming(enc.cipher_text)));
    let commit = some(res.remote_commit);
    assert_eq!(some(commit.new_sender).bytes, dedicated);
    let msg = some(res.application_message);
    assert_eq!(msg.sender_client_id.bytes, dedicated);
    assert_eq!(msg.app_message_data, b"hello".to_vec());
    assert_eq!(alice_s.their_principal_state().client_id().bytes, dedicated);

    // A repeat of the same welcome staple is an idempotent skip - the handoff is
    // surfaced exactly once.
    ok(bob_s.prepare_to_encrypt(None));
    let enc = ok(bob_s.encrypt(b"again".to_vec()));
    let res = some(ok(alice_s.process_incoming(enc.cipher_text)));
    assert!(res.remote_commit.is_none());

    // The reverse direction flows too.
    ok(alice_s.prepare_to_encrypt(None));
    let enc = ok(alice_s.encrypt(b"back".to_vec()));
    let res = some(ok(bob_s.process_incoming(enc.cipher_text)));
    assert_eq!(
        some(res.application_message).app_message_data,
        b"back".to_vec()
    );
}

/// A standalone welcome delivery that adopts a dedicated peer principal surfaces the
/// handoff exactly like the stapled delivery - which copy of the welcome arrives
/// first must not decide whether the app sees the signal. A re-delivery is the
/// idempotent `None`.
#[test]
fn test_standalone_welcome_surfaces_dedicated_principal() {
    let alice = make_client();
    let bob = make_client();
    let alice_kp = make_classical_kp(&alice);
    let bob_kp = make_combiner_kp(&bob);

    let alice_s = ok(Party::initiate(&alice, bob_kp.clone(), None));
    let opened = open_envelope(&bob_kp.pq, &some(alice_s.pending_outbound()));
    let dedicated = test_client_id();
    let bob_s = ok(Party::accept_with(&bob, Some(dedicated.clone()), some(opened.welcome), alice_kp, alice_s.commitment(), Some(b"tok".to_vec()), None));

    let welcome_b = some(bob_s.pending_outbound());
    let res = some(ok(alice_s.process_incoming(welcome_b.clone())));
    assert!(res.application_message.is_none());
    assert!(res.proposal.is_none());
    let commit = some(res.remote_commit);
    assert_eq!(some(commit.new_sender).bytes, dedicated);
    assert_eq!(alice_s.their_principal_state().client_id().bytes, dedicated);
    // Re-delivery of the same (sealed) welcome: idempotent, silent.
    assert!(ok(alice_s.process_incoming(welcome_b)).is_none());
}

/// The dedicated-principal session drives the full lifecycle: cross-party PSK
/// refreshes (folding commits in both directions - the acceptor's recv group lives on
/// the invitation-derived client's stores while its send group lives on the
/// dedicated client's, so both must resolve PSKs), the bootstrap (the PQ half is created under the dedicated principal too - no
/// credential catch-up rekey needed), a ratchet round, and archive/restore.
#[test]
fn test_dedicated_principal_full_lifecycle() {
    let alice = make_client();
    let bob = make_client();
    let alice_kp = make_classical_kp(&alice);
    let bob_kp = make_combiner_kp(&bob);

    let alice_s = ok(Party::initiate(&alice, bob_kp.clone(), None));
    let opened = open_envelope(&bob_kp.pq, &some(alice_s.pending_outbound()));
    let dedicated = test_client_id();
    let bob_s = ok(Party::accept_with(&bob, Some(dedicated.clone()), some(opened.welcome), alice_kp, alice_s.commitment(), Some(b"tok".to_vec()), None));

    // Confirm both directions (each side processes a peer frame).
    ok(bob_s.prepare_to_encrypt(None));
    let enc = ok(bob_s.encrypt(b"confirm-b".to_vec()));
    let res = some(ok(alice_s.process_incoming(enc.cipher_text)));
    let bob_upd = some(res.proposal);
    ok(alice_s.prepare_to_encrypt(None));
    let enc = ok(alice_s.encrypt(b"confirm-a".to_vec()));
    let res = some(ok(bob_s.process_incoming(enc.cipher_text)));
    some(res.proposal);

    // Full commit in Alice's direction: she commits Bob's Upd into her send group
    // with the cross-party PSK exported from her recv group (Group_B - created by
    // the DEDICATED client). Bob applies the commit on his recv mirror, resolving
    // that PSK through the stores of the invitation-derived client that joined it.
    ok(alice_s.queue_proposal(bob_upd.digest));
    let prep = ok(alice_s.prepare_to_encrypt(None));
    assert!(prep.did_commit);
    let enc = ok(alice_s.encrypt(b"full-a".to_vec()));
    let res = some(ok(bob_s.process_incoming(enc.cipher_text)));
    // Each frame stages a fresh Upd(sender); Bob queues the LATEST offer (the
    // single offered slot supersedes the one from `confirm-a`).
    let alice_upd = some(res.proposal);
    assert_eq!(
        some(res.application_message).app_message_data,
        b"full-a".to_vec()
    );

    // And in Bob's direction: his send group (dedicated client) commits Alice's Upd
    // with the PSK exported from his recv group (invitation-joined).
    ok(bob_s.queue_proposal(alice_upd.digest));
    let prep = ok(bob_s.prepare_to_encrypt(None));
    assert!(prep.did_commit);
    let enc = ok(bob_s.encrypt(b"full-b".to_vec()));
    let res = some(ok(alice_s.process_incoming(enc.cipher_text)));
    assert_eq!(
        some(res.application_message).app_message_data,
        b"full-b".to_vec()
    );

    // Bootstrap: Bob's deferred send-PQ half is created by the dedicated client.
    bootstrap(&alice_s, &bob_s);
    assert!(alice_s.is_fully_established());
    assert!(bob_s.is_fully_established());

    // Ratchet round end-to-end.
    let ek = ok(alice_s.pq_ratchet_begin());
    ok(bob_s.pq_ratchet_respond(ek));
    let ct = some(bob_s.pq_take_pending_outbound());
    ok(alice_s.pq_ratchet_bind(ct));
    assert_eq!(discharge(&alice_s, &bob_s, b"pq-app"), b"pq-app");

    // Archive/restore of the dedicated-principal acceptor: the archive carries the
    // dedicated signing identity; the restored session keeps the principal and the
    // conversation.
    let archive = ok(bob_s.archive());
    let restored = ok(Party::from_archive(archive));
    assert_eq!(restored.my_principal_state().client_id().bytes, dedicated);
    ok(restored.prepare_to_encrypt(None));
    let enc = ok(restored.encrypt(b"post-restore".to_vec()));
    let res = some(ok(alice_s.process_incoming(enc.cipher_text)));
    assert_eq!(
        some(res.application_message).app_message_data,
        b"post-restore".to_vec()
    );

    // Inbound after restore: Alice folds the restored session's Upd into a full
    // commit (referencing the cross-party PSK ledger) - the restored receive
    // mirror, now running under the single rebuilt dedicated client, must resolve
    // the PSK and apply it.
    let restored_upd = some(res.proposal);
    ok(alice_s.queue_proposal(restored_upd.digest));
    let prep = ok(alice_s.prepare_to_encrypt(None));
    assert!(prep.did_commit);
    let enc = ok(alice_s.encrypt(b"inbound-post-restore".to_vec()));
    let res = some(ok(restored.process_incoming(enc.cipher_text)));
    assert_eq!(
        some(res.application_message).app_message_data,
        b"inbound-post-restore".to_vec()
    );
}

#[test]
fn test_archive_rejects_malformed_staple() {
    let (alice_session, _bob_session) = establish_sessions();
    let archive = ok(alice_session.archive());

    // Corrupt the staple and re-frame. The staple's first byte must be a welcome's or an
    // MLS message's.
    let mut wire = ok(decode_wire(&archive));
    wire.current_staple = vec![0xFF];
    let bytes = ok(encode_archive(SUITE, wire));
    assert_eq!(err(Party::from_archive(Archive { bytes })), TwoMlsPqError::ArchiveInvalid);
}

#[test]
fn test_routine_round_is_classical_only() {
    let (alice_session, bob_session) = establish_sessions();

    // (send.pq epoch, recv.pq epoch, recv.classical epoch) for a session.
    let epochs = |s: &Party| {
        s.with(|s| {
            (
                s.send_group.as_ref().and_then(|g| g.pq.as_ref().map(|p| p.epoch)),
                s.recv_group.as_ref().and_then(|g| g.pq.as_ref().map(|p| p.epoch)),
                s.recv_group.as_ref().map(|g| g.classical.epoch),
            )
        })
    };

    let (pq_send_before, pq_recv_before, cl_recv_before) = epochs(&alice_session);

    // Routine round: no queued proposal -> traditional-only commit, no PQ exchange.
    ok(alice_session.prepare_to_encrypt(None));
    let enc = ok(alice_session.encrypt(b"hello".to_vec()));
    let result = some(ok(bob_session.process_incoming(enc.cipher_text)));
    assert_eq!(
        some(result.application_message).app_message_data,
        b"hello"
    );

    let (pq_send_after, pq_recv_after, cl_recv_after) = epochs(&alice_session);
    assert_eq!(
        pq_send_after, pq_send_before,
        "PQ send group must not ratchet on a routine round"
    );
    assert_eq!(
        pq_recv_after, pq_recv_before,
        "PQ recv group must not ratchet on a routine round"
    );
    assert_eq!(
        cl_recv_after, cl_recv_before,
        "a routine round is proposal-only: no classical commit until the peer \
         queues and consumes our Upd"
    );
}

#[test]
fn test_full_round_is_classical_only_and_propagates() {
    let (alice_session, bob_session) = establish_sessions();

    // (send.pq, recv.pq, send.classical, recv.classical) epochs for a session.
    let epochs = |s: &Party| {
        s.with(|s| {
            (
                s.send_group.as_ref().and_then(|g| g.pq.as_ref().map(|p| p.epoch)),
                s.recv_group.as_ref().and_then(|g| g.pq.as_ref().map(|p| p.epoch)),
                s.send_group.as_ref().map(|g| g.classical.epoch),
                s.recv_group.as_ref().map(|g| g.classical.epoch),
            )
        })
    };

    // Bob sends a routine message so Alice receives an app-layer proposal to queue.
    ok(bob_session.prepare_to_encrypt(None));
    let enc = ok(bob_session.encrypt(b"propose".to_vec()));
    let result = some(ok(alice_session.process_incoming(enc.cipher_text)));
    ok(alice_session.queue_proposal(some(result.proposal).digest));

    let (pq_send_0, pq_recv_0, cl_send_0, cl_recv_0) = epochs(&alice_session);

    // Full round (queued proposal present): traditional-only cross-party PSK refresh.
    ok(alice_session.prepare_to_encrypt(None));
    let enc = ok(alice_session.encrypt(b"full".to_vec()));
    let result = some(ok(bob_session.process_incoming(enc.cipher_text)));
    assert_eq!(
        some(result.application_message).app_message_data,
        b"full"
    );

    let (pq_send_1, pq_recv_1, cl_send_1, cl_recv_1) = epochs(&alice_session);
    // PQ groups untouched - no per-round ML-KEM (PQ is established once, at setup).
    assert_eq!(
        pq_send_1, pq_send_0,
        "PQ send group must not ratchet on a full round"
    );
    assert_eq!(
        pq_recv_1, pq_recv_0,
        "PQ recv group must not ratchet on a full round"
    );
    // Both classical message groups advance - cross-party PCS reaches both directions.
    assert_eq!(
        cl_send_1.map(|e| e.saturating_sub(1)),
        cl_send_0,
        "full round must advance the classical send group"
    );
    assert_eq!(
        cl_recv_1, cl_recv_0,
        "the recv group is the peer's to commit: cross-party PCS travels via \
         the PSK inside our send-group commit, not a recv commit"
    );
}

#[test]
fn test_welcome_with_swapped_suites_rejected_before_join() {
    let alice = make_client();
    let bob = make_client();
    let bob_kp = make_combiner_kp(&bob);
    let alice_s = ok(Party::initiate(&alice, bob_kp, None));
    let welcome = alice_s.initial_welcome();
    // Swap the welcome's two halves so each slot's cleartext cipher suite is wrong for the
    // acceptor's expected pair - caught pre-join, not as a late decrypt failure.
    let (classical, pq) = ok(decode_apq_welcome(&welcome));
    let swapped = encode_apq_welcome(pq, classical);
    let alice_kp = make_classical_kp(&alice);
    assert_eq!(err(Party::accept(&bob, swapped, alice_kp, alice_s.commitment())), TwoMlsPqError::CipherSuiteMismatch);
}

/// The ratchet bind is a full commit: each round carries the AppDataUpdate in both halves,
/// and applying it verifies the two copies agree AND match the actual
/// post-apply epochs of both groups before decrypting the stapled app message - so a
/// clean delivery is proof the attestation verified end to end. Both directions
/// (turn-flipped) exercise it.
#[test]
fn test_a3_bind_full_round_verifies_attestation_both_directions() {
    let (alice, bob) = establish_full();

    let ek = ok(alice.pq_ratchet_begin());
    ok(bob.pq_ratchet_respond(ek));
    let ct = some(bob.pq_take_pending_outbound());
    ok(alice.pq_ratchet_bind(ct));
    assert_eq!(discharge(&alice, &bob, b"a-to-b"), b"a-to-b");

    // Turn flipped to Bob; his bind's attestation verifies on Alice's apply too.
    let ek2 = ok(bob.pq_ratchet_begin());
    ok(alice.pq_ratchet_respond(ek2));
    let ct2 = some(alice.pq_take_pending_outbound());
    ok(bob.pq_ratchet_bind(ct2));
    assert_eq!(discharge(&bob, &alice, b"b-to-a"), b"b-to-a");
}

/// The cross-party injection is event-driven, not procedural: the acceptor's first full
/// commit re-binds the peer's send group at the epoch establishment already bound, so it
/// carries NO fresh cross-party PSK (the watermark is unchanged). Once the peer advances
/// its send group, the next full commit does inject (watermark moves).
#[test]
fn test_cross_party_injection_is_event_driven() {
    let (alice, bob) = establish_sessions();
    // Establishment bound the peer (Alice) at her send-group epoch 1.
    assert_eq!(bob.with(|s| s.last_cross_injected), Some(1));

    // Alice sends a no-commit round: her send group stays at epoch 1.
    ok(alice.prepare_to_encrypt(None));
    let a1 = ok(alice.encrypt(b"propose".to_vec()));
    let r = some(ok(bob.process_incoming(a1.cipher_text)));

    // Bob's first full commit: Alice's group is unchanged (still epoch 1), so no fresh
    // cross-party PSK is injected - the watermark is untouched.
    ok(bob.queue_proposal(some(r.proposal).digest));
    ok(bob.prepare_to_encrypt(None));
    let b1 = ok(bob.encrypt(b"full-1".to_vec()));
    assert_eq!(
        bob.with(|s| s.last_cross_injected),
        Some(1),
        "no re-bind while the peer's send group is unchanged"
    );
    assert_eq!(
        some(
            some(ok(alice.process_incoming(b1.cipher_text))).application_message
        )
        .app_message_data,
        b"full-1"
    );

    // Now Alice does a full commit (advancing her send group to epoch 2), then Bob
    // commits again: this time the peer HAS advanced, so Bob re-binds - the watermark
    // moves to 2.
    let rb = r_from(&bob, &alice, b"b-propose");
    ok(alice.queue_proposal(some(rb.proposal).digest));
    ok(alice.prepare_to_encrypt(None));
    let a2 = ok(alice.encrypt(b"a-full".to_vec()));
    let r2 = some(ok(bob.process_incoming(a2.cipher_text)));
    ok(bob.queue_proposal(some(r2.proposal).digest));
    ok(bob.prepare_to_encrypt(None));
    let b2 = ok(bob.encrypt(b"full-2".to_vec()));
    assert_eq!(
        bob.with(|s| s.last_cross_injected),
        Some(2),
        "re-bind once the peer's send group advanced"
    );
    some(ok(alice.process_incoming(b2.cipher_text)));
}

/// A combiner key package round-trips through its encoding, and a blob of another
/// framing is rejected outright.
#[test]
fn test_combiner_kp_v2_round_trips_and_rejects_v1() {
    let client = make_client();
    let kp = make_combiner_kp(&client);
    let encoded = encode_combiner_key_package(kp.clone());
    assert_eq!(encoded[0], 2, "version byte is 2");
    let decoded = ok(decode_combiner_key_package(encoded));
    assert_eq!(decoded.classical, kp.classical);
    assert_eq!(decoded.pq, kp.pq);

    // A blob of another framing is rejected.
    let mut v1 = vec![1u8];
    v1.extend_from_slice(&(kp.classical.len() as u32).to_le_bytes());
    v1.extend_from_slice(&kp.classical);
    v1.extend_from_slice(&(kp.pq.len() as u32).to_le_bytes());
    v1.extend_from_slice(&kp.pq);
    assert_eq!(err(decode_combiner_key_package(v1)), TwoMlsPqError::InvalidKeyPackage);
}

fn header_aead_suite() -> impl CipherSuiteProvider {
    some(AwsLcCryptoProvider::new().cipher_suite_provider(CipherSuite::CURVE25519_CHACHA))
}

// ---- refusals ----

#[test]
fn test_process_incoming_bare_mls_and_unknown_tags_rejected() {
    let (alice, _bob) = establish_sessions();
    assert_eq!(
        err(alice.process_incoming(vec![0x00, 0x01, 0x02])),
        TwoMlsPqError::DecryptionFailed
    );
    // A tag that is no frame's.
    assert_eq!(err(alice.process_incoming(vec![0x19, 0x00])), TwoMlsPqError::DecryptionFailed);
    assert_eq!(err(alice.process_incoming(vec![])), TwoMlsPqError::DecryptionFailed);
    // A side-band frame is for its own operation.
    assert_eq!(err(alice.process_incoming(vec![PQ_EK_TAG, 1])), TwoMlsPqError::SessionNotReady);
}

#[test]
fn test_empty_principal_id_rejected() {
    let (alice, _bob) = establish_confirmed_sessions();
    let before = alice.state_seq();
    assert_eq!(err(alice.stage_rotation(Vec::new())), TwoMlsPqError::InvalidClientId);
    assert_eq!(alice.state_seq(), before);
}

#[test]
fn test_epoch_ahead_staple_surfaces_desync() {
    let (alice, bob) = establish_confirmed_sessions();
    let old = ok(bob.archive());
    // Two commits of Alice's that the older Bob never sees: an approved one, and the one that
    // binds a ratchet round.
    approved_commit_round(&alice, &bob);
    assert_eq!(ratchet_round(&alice, &bob, b"bind-lost"), b"bind-lost");
    let behind = ok(Party::from_archive(old));
    // A frame staples the latest commit alone.
    ok(alice.prepare_to_encrypt(None));
    let ahead = ok(alice.encrypt(b"ahead".to_vec()));
    assert_eq!(
        err(behind.process_incoming(ahead.cipher_text.clone())),
        TwoMlsPqError::EpochDesync
    );
    // The Bob that kept up reads the same frame.
    let got = some(ok(bob.process_incoming(ahead.cipher_text)));
    assert_eq!(some(got.application_message).app_message_data, b"ahead");
}

#[test]
fn app_bindings_must_agree() {
    let alice = make_client();
    let bob = make_client();
    let bob_kp = make_combiner_kp(&bob);
    assert_eq!(
        err(Party::initiate(&alice, bob_kp.clone(), Some(Vec::new()))),
        TwoMlsPqError::AppBindingMismatch
    );

    let alice_kp = make_classical_kp(&alice);
    let bound = ok(Party::initiate(&alice, bob_kp, Some(b"state-1".to_vec())));
    let welcome = bound.initial_welcome();
    for expected in [None, Some(b"state-2".to_vec()), Some(Vec::new())] {
        assert_eq!(
            err(Party::accept_with(
                &bob,
                None,
                welcome.clone(),
                alice_kp.clone(),
                bound.commitment(),
                None,
                expected,
            )),
            TwoMlsPqError::AppBindingMismatch
        );
    }
    let bob_session = ok(Party::accept_with(
        &bob,
        None,
        welcome,
        alice_kp,
        bound.commitment(),
        None,
        Some(b"state-1".to_vec()),
    ));
    ok(bound.process_incoming(some(bob_session.pending_outbound())));
    assert_eq!(bound.with(|s| s.app_binding()), Some(b"state-1".to_vec()));
    assert_eq!(bob_session.with(|s| s.app_binding()), Some(b"state-1".to_vec()));
}

#[test]
fn the_key_package_must_be_the_creators() {
    let alice = make_client();
    let bob = make_client();
    let stranger = make_client();
    let session = ok(Party::initiate(&alice, make_combiner_kp(&bob), None));
    assert_eq!(
        err(Party::accept(
            &bob,
            session.initial_welcome(),
            make_classical_kp(&stranger),
            session.commitment(),
        )),
        TwoMlsPqError::RemoteIdentityMismatch
    );
    assert_eq!(
        err(Party::accept(
            &bob,
            session.initial_welcome(),
            b"no key package".to_vec(),
            session.commitment(),
        )),
        TwoMlsPqError::InvalidKeyPackage
    );
    assert_eq!(
        err(Party::accept(
            &bob,
            session.initial_welcome(),
            make_pq_kp(&alice),
            session.commitment(),
        )),
        TwoMlsPqError::CipherSuiteMismatch
    );
}

#[test]
fn the_bootstrap_key_package_is_the_committed_one() {
    let alice = make_client();
    let bob = make_client();
    let alice_kp = make_classical_kp(&alice);
    let session = ok(Party::initiate(&alice, make_combiner_kp(&bob), None));
    // A commitment is a digest.
    assert_eq!(
        err(Party::accept(
            &bob,
            session.initial_welcome(),
            alice_kp.clone(),
            vec![0; 31],
        )),
        TwoMlsPqError::BootstrapKpMismatch
    );
    let kept = session.with(|s| s.bootstrap_kp.clone());
    assert_eq!(session.commitment(), mls_rs_crypto_awslc::sha256(&some(kept)).to_vec());

    let bob_session =
        ok(Party::accept(&bob, session.initial_welcome(), alice_kp, session.commitment()));
    ok(session.process_incoming(some(bob_session.pending_outbound())));
    // Another key package of the same client is not the committed one; nor is a stranger's.
    for other in [make_pq_kp(&alice), make_pq_kp(&make_client())] {
        let mut frame = vec![PQ_BOOTSTRAP_KP_TAG];
        frame.extend_from_slice(&other);
        assert_eq!(
            err(bob_session.pq_bootstrap_respond(frame)),
            TwoMlsPqError::BootstrapKpMismatch
        );
    }
    // The peer's real bootstrap still works.
    assert!(!bob_session.my_pq_turn());
    bootstrap(&session, &bob_session);
    assert!(bob_session.is_fully_established());
    // Once it is sent, there is nothing left to commit to.
    assert_eq!(session.with(|s| s.bootstrap_kp_commitment()), None);
}

#[test]
fn test_bootstrap_kp_from_unknown_principal_rejected() {
    let (alice, bob) = establish_confirmed_sessions();
    let mut frame = vec![PQ_BOOTSTRAP_KP_TAG];
    frame.extend_from_slice(&make_pq_kp(&make_client()));
    // A session that the peer's key package was pinned for goes by the pin.
    assert_eq!(
        err(bob.pq_bootstrap_respond(frame.clone())),
        TwoMlsPqError::BootstrapKpMismatch
    );
    // One without a pin goes by the id.
    let pin = bob.act(|i| i.s.expected_bootstrap_kp_commitment.take());
    assert_eq!(err(bob.pq_bootstrap_respond(frame)), TwoMlsPqError::RemoteIdentityMismatch);
    bob.act(|i| i.s.expected_bootstrap_kp_commitment = pin);
    // The turn is untouched: the peer's real bootstrap still works.
    assert!(!bob.my_pq_turn());
    bootstrap(&alice, &bob);
}

#[test]
fn answered_side_band_frames_are_duplicates() {
    let (alice, bob) = establish_full();
    // Bob answers Alice's ephemeral key once.
    let ek = ok(alice.pq_ratchet_begin());
    ok(bob.pq_ratchet_respond(ek.clone()));
    assert_eq!(err(bob.pq_ratchet_respond(ek)), TwoMlsPqError::DuplicateSideBand);
    let ct = some(bob.pq_take_pending_outbound());
    ok(alice.pq_ratchet_bind(ct.clone()));
    assert_eq!(discharge(&alice, &bob, b"bound"), b"bound");
    // The turn has passed, so the ciphertext is a late copy.
    assert_eq!(err(alice.pq_ratchet_bind(ct)), TwoMlsPqError::DuplicateSideBand);

    let (alice, bob) = establish_confirmed_sessions();
    let kp = ok(alice.pq_bootstrap_begin(None));
    ok(bob.pq_bootstrap_respond(kp.clone()));
    assert_eq!(err(bob.pq_bootstrap_respond(kp)), TwoMlsPqError::DuplicateSideBand);

    let (alice, bob) = establish_full();
    let upd = ok(bob.pq_rekey_begin(None));
    ok(alice.pq_rekey_respond(upd));
    let reply = some(alice.pq_take_pending_outbound());
    ok(bob.pq_rekey_apply(reply.clone()));
    assert_eq!(discharge(&bob, &alice, b"re-keyed"), b"re-keyed");
    assert_eq!(err(bob.pq_rekey_apply(reply)), TwoMlsPqError::DuplicateSideBand);
}

#[test]
fn sealing_needs_a_receive_group() {
    let alice = make_client();
    let bob = make_client();
    let session = ok(Party::initiate(&alice, make_combiner_kp(&bob), None));
    assert_eq!(
        err(session.with(|s| s.seal(b"frame"))),
        TwoMlsPqError::SessionNotEstablished
    );
    assert_eq!(
        err(session.with(|s| s.seal_side_band(b"frame"))),
        TwoMlsPqError::SessionNotEstablished
    );
}

fn nothing_done() -> PrepareOutcome {
    PrepareOutcome {
        round: RoundOutcome {
            departing_psk: no(),
            cross_psk: no(),
            fold: Err(MlsRefusal::Other),
            commit: CommitOutcome {
                bind_psk: no(),
                built: Err(MlsRefusal::Other),
                new_psk: no(),
            },
        },
        update: UpdateOutcome { minted: Ok(()), message: Err(MlsRefusal::Other) },
    }
}

#[test]
fn a_refused_credential_is_told_apart() {
    for (refusal, expected) in [
        (MlsRefusal::InvalidSuccessor, TwoMlsPqError::CredentialRejected),
        (MlsRefusal::IdentityProvider, TwoMlsPqError::CredentialRejected),
        (MlsRefusal::Other, TwoMlsPqError::Mls),
    ] {
        let (alice, bob) = establish_confirmed_sessions();
        let got = r_from(&bob, &alice, b"upd");
        ok(alice.queue_proposal(some(got.proposal).digest));
        let before = alice.epochs();
        let r = alice.act(|i| {
            let mut out = nothing_done();
            out.round.cross_psk = Ok(());
            out.round.fold = Err(refusal);
            i.s.prepare_to_encrypt(None, out)
        });
        assert_eq!(err(r), expected);
        // Nothing was committed, and the approval is used up.
        assert_eq!(alice.epochs(), before);
        assert!(alice.queued_remote_successor().is_none());
    }
}

#[test]
fn a_spent_reservation_is_fatal() {
    let (alice, bob) = establish_full();
    let ek = ok(alice.pq_ratchet_begin());
    ok(bob.pq_ratchet_respond(ek));
    let ct = some(bob.pq_take_pending_outbound());
    ok(alice.pq_ratchet_bind(ct));
    message_round(&bob, &alice, b"evidence");
    assert_eq!(alice.with(|s| s.peer_applied_our_send_epoch()), Ok(true));
    // The commit that was to discharge the bind fails.
    let r = alice.act(|i| {
        let mut out = nothing_done();
        out.round.cross_psk = Ok(());
        out.round.commit.bind_psk = Ok(());
        i.s.prepare_to_encrypt(None, out)
    });
    assert_eq!(err(r), TwoMlsPqError::BindDischargeFailed);
    assert!(alice.with(|s| s.owed_bind.is_none()));
    assert!(!alice.my_pq_turn());
}

/// Alice's frame whose staple is a bind, and Bob who awaits it.
fn bind_frame() -> (Party, Party, Vec<u8>) {
    let (alice, bob) = establish_full();
    let ek = ok(alice.pq_ratchet_begin());
    ok(bob.pq_ratchet_respond(ek));
    let ct = some(bob.pq_take_pending_outbound());
    ok(alice.pq_ratchet_bind(ct));
    message_round(&bob, &alice, b"evidence");
    assert!(ok(alice.prepare_to_encrypt(None)).did_commit);
    let frame = ok(alice.encrypt(b"bind".to_vec())).cipher_text;
    assert_eq!(frame_staple(&bob, &frame)[0], APQ_PRIVATE_MESSAGE_TAG);
    (alice, bob, frame)
}

#[test]
fn a_half_applied_bind_breaks_receiving() {
    let (alice, bob, frame) = bind_frame();
    assert!(!bob.with(|s| s.pq_receive_broken()));
    let r = bob.act(|i| {
        let mut staple = empty_staple();
        staple.bind.secret = Ok(());
        let out = IncomingOutcome { staple, app: None, offer: ProcessedProposal::NotAProposal };
        i.s.process_incoming(frame.clone(), out)
    });
    assert_eq!(err(r), TwoMlsPqError::BindApplyFailed);
    assert!(bob.with(|s| s.pq_receive_broken()));
    // From then on nothing is received.
    assert_eq!(err(bob.process_incoming(frame)), TwoMlsPqError::BindApplyFailed);
    drop(alice);
}

#[test]
fn a_bind_must_attest_its_epochs() {
    let (_alice, bob, frame) = bind_frame();
    let r = bob.act(|i| {
        let plan = ok(i.s.incoming_plan(frame.clone()));
        let plan = match plan {
            IncomingPlan::Message { staple, .. } => staple,
            _ => panic!("not a message"),
        };
        let before = i.s.clone();
        let mut staple = i.staple(&plan);
        assert!(before.staple_stands(&plan, &staple));
        let mut applied = some(staple.bind.pq.take());
        applied.attestation.pq_epoch += 1;
        staple.bind.pq = Some(applied);
        assert!(!before.staple_stands(&plan, &staple));
        let out = IncomingOutcome { staple, app: None, offer: ProcessedProposal::NotAProposal };
        i.s.process_incoming(frame, out)
    });
    assert_eq!(err(r), TwoMlsPqError::BindApplyFailed);
}

#[test]
fn a_re_key_commit_attests_nothing() {
    let (alice, bob) = establish_full();
    let upd = ok(bob.pq_rekey_begin(None));
    ok(alice.pq_rekey_respond(upd));
    let reply = some(alice.pq_take_pending_outbound());
    let r = bob.act(|i| {
        let plan = ok(i.s.pq_rekey_apply_plan(reply.clone()));
        let Host { send, recv, store, .. } = &mut i.h;
        let send = some(some(send.as_mut()).pq.as_mut());
        let recv = some(some(recv.as_mut()).pq.as_mut());
        if plan.export_send {
            let psk = ok(send.export_cross());
            store.insert(psk.psk_id, psk.psk);
        }
        some(recv.apply(&plan.commit, store));
        let out = RekeyApplyOutcome {
            send_psk: Ok(()),
            applied: CommitProcessed::Commit {
                half: recv.half(),
                attestation: Ok(Some(ApqInfoUpdate { t_epoch: 1, pq_epoch: 1 })),
                two_party: true,
            },
            secret: no(),
            commit: no(),
        };
        i.s.pq_rekey_apply(reply, out)
    });
    assert_eq!(err(r), TwoMlsPqError::ApqInfoMismatch);
}

// ---- proposals ----

#[test]
fn test_proposal_hash_is_digest_of_the_staple_both_sides_agree_on() {
    let (alice_session, bob_session) = establish_sessions();

    let prep = ok(bob_session.prepare_to_encrypt(None));
    let enc = ok(bob_session.encrypt(b"hello from bob".to_vec()));
    let result = some(ok(alice_session.process_incoming(enc.cipher_text)));
    let proposal = some(result.proposal);

    // Sender's binding value == receiver's independently derived digest.
    assert_eq!(prep.proposal_hash, proposal.digest);
    assert_eq!(prep.proposal_hash.len(), 32);
    assert_eq!(
        prep.proposal_hash,
        mls_rs_crypto_awslc::sha256(&prep.proposal_message).to_vec()
    );
    // Self-consistent across the receiver's two surfaces.
    assert_eq!(proposal.context, some(alice_session.proposal_context()));
    let group = some(alice_session.receive_group_id());
    assert_eq!(
        proposal.context,
        mls_rs_crypto_awslc::sha256(&group.classical.bytes).to_vec()
    );
    assert_eq!(proposal.sender.bytes, bob_session.my_principal_state().client_id().bytes);
}

#[test]
fn the_window_of_candidates_is_bounded() {
    let (alice, _bob) = establish_confirmed_sessions();
    let ids: Vec<Vec<u8>> = (0..CANDIDATE_WINDOW as u8 + 2).map(|i| vec![i + 1; 8]).collect();
    for id in &ids {
        ok(alice.stage_rotation(id.clone()));
    }
    assert_eq!(alice.with(|s| s.staged_candidates.clone()), ids[..CANDIDATE_WINDOW].to_vec());
    // The last request that found no room waits.
    assert_eq!(
        alice.with(|s| s.deferred_candidate.clone()),
        Some(ids[CANDIDATE_WINDOW + 1].clone())
    );
    assert!(!alice.with(|s| s.mints_candidate(b"another")));
}

// ---- evidence and turns ----

#[test]
fn a_commit_needs_a_reason_and_evidence() {
    let (alice, bob) = establish_confirmed_sessions();
    // No approval and no owed bind: no commit.
    for _ in 0..3 {
        assert!(!ok(alice.prepare_to_encrypt(None)).did_commit);
        let enc = ok(alice.encrypt(b"plain".to_vec()));
        some(ok(bob.process_incoming(enc.cipher_text)));
    }
    assert_eq!(alice.epochs().classical_epoch, 1);

    approved_commit_round(&alice, &bob);
    assert_eq!(alice.epochs().classical_epoch, 2);
    // Bob has applied the commit, but Alice has yet to hear of it.
    assert_eq!(alice.with(|s| s.peer_applied_our_send_epoch()), Ok(false));
    message_round(&bob, &alice, b"heard");
    assert_eq!(alice.with(|s| s.peer_applied_our_send_epoch()), Ok(true));
}

#[test]
fn an_owed_bind_waits_for_evidence() {
    let (alice, bob) = establish_full();
    approved_commit_round(&alice, &bob);
    let ek = ok(alice.pq_ratchet_begin());
    ok(bob.pq_ratchet_respond(ek));
    let ct = some(bob.pq_take_pending_outbound());
    let before = alice.epochs();
    ok(alice.pq_ratchet_bind(ct.clone()));
    // The PQ commit has landed; its classical partner is owed.
    assert_eq!(alice.epochs().pq_epoch, before.pq_epoch + 1);
    assert_eq!(alice.epochs().classical_epoch, before.classical_epoch);
    assert!(alice.with(|s| s.owed_bind.is_some()));

    // Without evidence the next round does not discharge it, and no other PQ commit lands.
    assert!(!ok(alice.prepare_to_encrypt(None)).did_commit);
    let enc = ok(alice.encrypt(b"plain".to_vec()));
    some(ok(bob.process_incoming(enc.cipher_text)));
    ok(alice.pq_ratchet_begin());
    assert_eq!(err(alice.pq_ratchet_bind(ct)), TwoMlsPqError::SessionNotReady);
    assert_eq!(alice.epochs().pq_epoch, before.pq_epoch + 1);

    message_round(&bob, &alice, b"heard");
    assert!(ok(alice.prepare_to_encrypt(None)).did_commit);
    let enc = ok(alice.encrypt(b"discharged".to_vec()));
    let got = some(ok(bob.process_incoming(enc.cipher_text)));
    assert_eq!(some(got.application_message).app_message_data, b"discharged");
    assert!(alice.with(|s| s.owed_bind.is_none()));
    assert_eq!(alice.epochs().classical_epoch, before.classical_epoch + 1);
    // Discharging passes the turn, and applying takes it.
    assert!(!alice.my_pq_turn());
    assert!(bob.my_pq_turn());
}

#[test]
fn a_fold_discharges_an_owed_bind_too() {
    let (alice, bob) = establish_full();
    approved_commit_round(&alice, &bob);
    let ek = ok(alice.pq_ratchet_begin());
    ok(bob.pq_ratchet_respond(ek));
    let ct = some(bob.pq_take_pending_outbound());
    ok(alice.pq_ratchet_bind(ct));
    let got = r_from(&bob, &alice, b"upd");
    ok(alice.queue_proposal(some(got.proposal).digest));
    assert!(ok(alice.prepare_to_encrypt(None)).did_commit);
    let enc = ok(alice.encrypt(b"both".to_vec()));
    let got = some(ok(bob.process_incoming(enc.cipher_text)));
    assert_eq!(some(got.application_message).app_message_data, b"both");
    assert!(alice.with(|s| s.owed_bind.is_none()));
}

#[test]
fn one_side_band_round_at_a_time() {
    let (alice, bob) = establish_full();
    ok(bob.pq_rekey_begin(None));
    assert_eq!(err(bob.pq_rekey_begin(None)), TwoMlsPqError::SessionNotReady);
    assert_eq!(err(bob.pq_ratchet_begin()), TwoMlsPqError::SessionNotReady);
    // Without the turn a re-key cannot begin at all.
    assert!(!alice.my_pq_turn());
    assert_eq!(err(alice.pq_rekey_begin(None)), TwoMlsPqError::SessionNotReady);
}

#[test]
fn staples_apply_once() {
    let (alice, bob) = establish_confirmed_sessions();
    let got = r_from(&bob, &alice, b"upd");
    ok(alice.queue_proposal(some(got.proposal).digest));
    assert!(ok(alice.prepare_to_encrypt(None)).did_commit);
    let first = ok(alice.encrypt(b"one".to_vec())).cipher_text;
    ok(alice.prepare_to_encrypt(None));
    let second = ok(alice.encrypt(b"two".to_vec())).cipher_text;
    // Both frames carry the same commit; the second delivery skips it.
    assert_eq!(frame_staple(&bob, &first), frame_staple(&bob, &second));
    let one = some(ok(bob.process_incoming(first)));
    assert!(one.remote_commit.is_some());
    let epoch = bob.with(|s| s.recv_group.as_ref().map(|g| g.classical.epoch));
    let two = some(ok(bob.process_incoming(second)));
    assert!(two.remote_commit.is_none());
    assert_eq!(some(two.application_message).app_message_data, b"two");
    assert_eq!(bob.with(|s| s.recv_group.as_ref().map(|g| g.classical.epoch)), epoch);
}

#[test]
fn a_re_key_announces_a_rotated_credential() {
    let (alice, bob) = establish_full();
    let new_id = make_client().client_id();
    rotate_round(&bob, &alice, new_id.clone());
    let leaf = |p: &Party| {
        some(p.with(|s| {
            s.recv_group.as_ref().and_then(|g| g.pq.as_ref().map(|p| p.my_leaf.clone()))
        }))
    };
    // Bob's PQ leaf in Alice's group still carries the old id.
    assert_ne!(leaf(&bob), new_id.bytes);
    let upd = ok(bob.pq_rekey_begin(Some(new_id.clone())));
    assert_eq!(some(ok(alice.pq_rekey_respond(upd))).bytes, new_id.bytes);
    let reply = some(alice.pq_take_pending_outbound());
    ok(bob.pq_rekey_apply(reply));
    assert_eq!(discharge(&bob, &alice, b"handed off"), b"handed off");
    assert_eq!(leaf(&bob), new_id.bytes);
    // The groups keep working: messages flow, and the next round is Alice's.
    message_round(&bob, &alice, b"post-handoff");
    rekey_round(&alice, &bob);
}

// ---- re-keys ----

#[test]
fn test_pq_rekey_full_round() {
    let (alice, bob) = establish_full();
    // Bob holds the turn after Alice's bootstrap completed.
    assert!(bob.my_pq_turn());
    let (alice_before, bob_before) = (alice.epochs(), bob.epochs());
    let alice_listen = ok(alice.should_listen_on()).rendezvous_by_epoch.len();

    rekey_round(&bob, &alice);

    // Both send groups' PQ epochs advanced; the responder's classical epoch and listen map are
    // untouched; the turn flipped back to Alice.
    assert_eq!(alice.epochs().pq_epoch, alice_before.pq_epoch + 1);
    assert_eq!(bob.epochs().pq_epoch, bob_before.pq_epoch + 1);
    assert_eq!(alice.epochs().classical_epoch, alice_before.classical_epoch);
    assert_eq!(ok(alice.should_listen_on()).rendezvous_by_epoch.len(), alice_listen);
    assert!(alice.my_pq_turn());
    assert!(!bob.my_pq_turn());

    // Messaging still flows both ways on the re-keyed groups, and the next encrypt reports the
    // PQ epoch that was reached.
    ok(alice.prepare_to_encrypt(None));
    let a2b = ok(alice.encrypt(b"post-rekey".to_vec()));
    assert_eq!(a2b.epochs.pq_epoch, alice_before.pq_epoch + 1);
    let got = some(ok(bob.process_incoming(a2b.cipher_text)));
    assert_eq!(some(got.application_message).app_message_data, b"post-rekey");

    // Consecutive re-keys work: Alice goes next.
    rekey_round(&alice, &bob);
    assert_eq!(alice.epochs().pq_epoch, alice_before.pq_epoch + 2);
    assert_eq!(bob.epochs().pq_epoch, bob_before.pq_epoch + 2);
}

/// Two re-keys with both sides restored in between: the second stands on the restored
/// watermarks alone, for the PSKs of the first are in no archive.
#[test]
fn test_two_rekeys_with_archive_between_rounds() {
    let (alice, bob) = establish_full();
    assert!(bob.my_pq_turn());
    let (alice_before, bob_before) = (alice.epochs().pq_epoch, bob.epochs().pq_epoch);
    rekey_round(&bob, &alice);
    assert_eq!(alice.epochs().pq_epoch, alice_before + 1);
    assert_eq!(bob.epochs().pq_epoch, bob_before + 1);
    assert!(alice.my_pq_turn());
    assert!(!bob.my_pq_turn());

    let alice = round_trip(&alice);
    let bob = round_trip(&bob);
    assert!(alice.my_pq_turn());
    assert!(!bob.my_pq_turn());

    rekey_round(&alice, &bob);
    assert_eq!(alice.epochs().pq_epoch, alice_before + 2);
    assert_eq!(bob.epochs().pq_epoch, bob_before + 2);
    assert!(bob.my_pq_turn());

    ok(alice.prepare_to_encrypt(None));
    let a2b = ok(alice.encrypt(b"after-two-rekeys".to_vec()));
    assert_eq!(a2b.epochs.pq_epoch, alice_before + 2);
    let got = some(ok(bob.process_incoming(a2b.cipher_text)));
    assert_eq!(some(got.application_message).app_message_data, b"after-two-rekeys");
}

/// A re-key commit carries no attestation, the bind that ends the round does.
#[test]
fn test_a5_rekey_round_completes_without_attestation() {
    let (alice, bob) = establish_full();
    assert!(bob.my_pq_turn());
    let (alice_before, bob_before) = (alice.epochs(), bob.epochs());
    let upd = ok(bob.pq_rekey_begin(None));
    ok(alice.pq_rekey_respond(upd));
    let commit = some(alice.pq_take_pending_outbound());
    ok(bob.pq_rekey_apply(commit));
    // Only the PQ epochs have moved.
    assert_eq!(alice.epochs().pq_epoch, alice_before.pq_epoch + 1);
    assert_eq!(bob.epochs().pq_epoch, bob_before.pq_epoch + 1);
    assert_eq!(alice.epochs().classical_epoch, alice_before.classical_epoch);
    assert_eq!(bob.epochs().classical_epoch, bob_before.classical_epoch);
    assert_eq!(discharge(&bob, &alice, b"bound"), b"bound");
    assert_eq!(bob.epochs().classical_epoch, bob_before.classical_epoch + 1);
}

/// The approved proposal goes with the commit that binds a ratchet round: it is never left
/// behind for an epoch that it is not of.
#[test]
fn test_queued_proposal_cleared_on_bind() {
    let (alice, bob) = establish_full();
    let id_b = make_client().client_id();
    ok(bob.stage_rotation(id_b.bytes.clone()));
    ok(bob.prepare_to_encrypt(Some(id_b.clone())));
    let f = ok(bob.encrypt(b"propose".to_vec()));
    let got = some(ok(alice.process_incoming(f.cipher_text)));
    ok(alice.queue_proposal(some(got.proposal).digest));
    assert_eq!(alice.queued_remote_successor(), Some(id_b));

    let ek = ok(alice.pq_ratchet_begin());
    ok(bob.pq_ratchet_respond(ek));
    let ct = some(bob.pq_take_pending_outbound());
    ok(alice.pq_ratchet_bind(ct));
    assert_eq!(discharge(&alice, &bob, b"app"), b"app");
    assert!(alice.queued_remote_successor().is_none());
}

/// Frames that carry the same bind may overtake one another: whichever comes first applies it.
#[test]
fn a_frame_may_overtake_the_bind() {
    let (alice, bob) = establish_full();
    let ek = ok(alice.pq_ratchet_begin());
    ok(bob.pq_ratchet_respond(ek));
    let ct = some(bob.pq_take_pending_outbound());
    ok(alice.pq_ratchet_bind(ct));
    message_round(&bob, &alice, b"evidence");
    assert!(ok(alice.prepare_to_encrypt(None)).did_commit);
    let bind = ok(alice.encrypt(b"bound".to_vec()));
    assert!(!ok(alice.prepare_to_encrypt(None)).did_commit);
    let overtaking = ok(alice.encrypt(b"overtook".to_vec()));
    let got = some(ok(bob.process_incoming(overtaking.cipher_text)));
    assert!(got.remote_commit.is_some());
    assert_eq!(some(got.application_message).app_message_data, b"overtook");
    let got = some(ok(bob.process_incoming(bind.cipher_text)));
    assert!(got.remote_commit.is_none());
    assert_eq!(some(got.application_message).app_message_data, b"bound");
}

/// A session that holds none of the header keys opens nothing of a frame with a bind, and
/// refuses it.
#[test]
fn test_pq_ratchet_apply_from_stranger_is_rejected() {
    let (alice, bob) = establish_full();
    let ek = ok(alice.pq_ratchet_begin());
    ok(bob.pq_ratchet_respond(ek));
    let ct = some(bob.pq_take_pending_outbound());
    ok(alice.pq_ratchet_bind(ct));
    message_round(&bob, &alice, b"evidence");
    assert!(ok(alice.prepare_to_encrypt(None)).did_commit);
    // Of the frames that carry the bind, one whose nonce does not happen to begin like a frame.
    let mut bind = ok(alice.encrypt(b"x".to_vec())).cipher_text;
    while bind[0] < 0x40 {
        ok(alice.prepare_to_encrypt(None));
        bind = ok(alice.encrypt(b"x".to_vec())).cipher_text;
    }
    let (_a2, b2) = establish_sessions();
    assert!(ok(b2.open_incoming(bind.clone())).is_none());
    let before = b2.state_seq();
    assert_eq!(err(b2.process_incoming(bind.clone())), TwoMlsPqError::DecryptionFailed);
    assert_eq!(b2.state_seq(), before);
    // The session that it is for reads it.
    let got = some(ok(bob.process_incoming(bind)));
    assert_eq!(some(got.application_message).app_message_data, b"x");
}

#[test]
fn a_blob_too_short_to_be_sealed_opens_to_nothing() {
    let (_alice, bob) = establish_full();
    for len in 0..28 {
        assert!(ok(bob.open_incoming(vec![0xAB; len])).is_none());
    }
    assert!(ok(bob.open_incoming(vec![0xAB; 64])).is_none());
}

// ---- sealing ----

#[test]
fn stable_side_band_hand_outs_repeat() {
    let (alice, bob) = establish_full();
    let ek = ok(alice.pq_ratchet_begin());
    ok(bob.pq_ratchet_respond(ek));
    let stable = some(bob.pq_pending_outbound(SideBandSealing::Stable));
    assert_eq!(bob.pq_pending_outbound(SideBandSealing::Stable), Some(stable.clone()));
    let fresh = some(bob.pq_pending_outbound(SideBandSealing::Fresh));
    assert_ne!(fresh, stable);
    // With fresh ones in between too, and none of it is counted.
    let counted = bob.state_seq();
    for _ in 0..3 {
        some(bob.pq_pending_outbound(SideBandSealing::Fresh));
        assert_eq!(bob.pq_pending_outbound(SideBandSealing::Stable), Some(stable.clone()));
    }
    assert_eq!(bob.state_seq(), counted);
    // A round's opening frame is kept with the seal that it was sent under.
    let (carol, _dave) = establish_full();
    let opening = ok(carol.pq_ratchet_begin());
    assert_eq!(carol.pq_pending_outbound(SideBandSealing::Stable), Some(opening));
    // Every copy opens to the same frame.
    let frame = open_frame(&alice, &stable);
    assert_eq!(frame[0], PQ_CT_TAG);
    assert_eq!(open_frame(&alice, &fresh), frame);
    let taken = some(bob.pq_take_pending_outbound());
    assert_eq!(open_frame(&alice, &taken), frame);
    assert_eq!(bob.pq_pending_outbound(SideBandSealing::Stable), None);
    assert_eq!(bob.pq_take_pending_outbound(), None);
}

#[test]
fn sealed_frames_have_a_fixed_overhead() {
    let key = vec![7u8; 32];
    let nonce = vec![9u8; 12];
    let sealed = ok(seal_with_nonce(&key, nonce.clone(), b"frame"));
    assert_eq!(sealed.len(), 12 + 5 + 16);
    assert_eq!(&sealed[..12], nonce.as_slice());
    let suite = header_aead_suite();
    let expected = match suite.aead_seal(&key, b"frame", None, &nonce) {
        Ok(ct) => ct,
        Err(_) => panic!("the provider does not seal"),
    };
    assert_eq!(&sealed[12..], expected.as_slice());
    assert_eq!(err(seal_with_nonce(&key[..31], nonce, b"frame")), TwoMlsPqError::Mls);
    assert_eq!(err(seal_with_nonce(&key, vec![9u8; 11], b"frame")), TwoMlsPqError::Mls);
    // Two seals of one frame differ by their nonce.
    let a = ok(seal_with(&key, b"frame"));
    let b = ok(seal_with(&key, b"frame"));
    assert_eq!(a.len(), 12 + 5 + 16);
    assert_ne!(a, b);
    assert_eq!(err(seal_with(&[], b"frame")), TwoMlsPqError::Mls);
}

#[test]
fn listening_and_opening_cover_the_same_epochs() {
    let (alice, bob) = establish_confirmed_sessions();
    for _ in 0..5 {
        approved_commit_round(&alice, &bob);
        message_round(&bob, &alice, b"heard");
        let listened: Vec<u64> = ok(alice.should_listen_on())
            .rendezvous_by_epoch
            .iter()
            .map(|e| e.epoch)
            .collect();
        let held: Vec<u64> =
            alice.with(|s| s.recv_header_keys.iter().map(|e| e.epoch).collect());
        assert_eq!(listened, held);
        assert_eq!(listened.last(), Some(&alice.epochs().classical_epoch));
    }
}

// ---- the establishment envelope ----

#[test]
fn envelopes_carry_the_payload_or_the_welcome() {
    let alice = make_client();
    let bob = make_client();
    let bob_kp = make_combiner_kp(&bob);
    let session = ok(Party::initiate(&alice, bob_kp.clone(), None));
    let welcome = session.initial_welcome();
    let envelope = some(session.pending_outbound());
    assert_eq!(envelope[0], INITIAL_ENVELOPE_TAG);
    assert!(!envelope.windows(4).any(|w| w == &welcome[..4]));
    let opened = open_envelope(&bob_kp.pq, &envelope);
    assert_eq!(opened.welcome, Some(welcome.clone()));
    assert_eq!(opened.app_payload, None);

    // A bare envelope can carry the return key package besides.
    let kp = make_classical_kp(&alice);
    let sections = ok(session.act(|i| i.s.set_initial_return_key_package(kp.clone())));
    assert_eq!(sections.return_kp, Some(kp));
    assert_eq!(sections.welcome, Some(welcome));
    // The host's own payload takes the place of both.
    let sections = ok(session.act(|i| i.s.set_initial_app_payload(b"introduction".to_vec())));
    assert_eq!(sections.app_payload, Some(b"introduction".to_vec()));
    assert_eq!(sections.welcome, None);
    assert_eq!(sections.return_kp, None);
    assert_eq!(sections.stapled, None);
}

/// The first frame is an opaque envelope; the return welcome is sealed symmetrically.
#[test]
fn test_initial_envelope_roundtrip_return_welcome_sealed() {
    let alice = make_client();
    let bob = make_client();
    let alice_kp = make_classical_kp(&alice);
    let bob_kp = make_combiner_kp(&bob);
    let app = b"app-layer-welcome".to_vec();
    let alice_s = ok(Party::initiate(&alice, bob_kp.clone(), None));
    let envelope = some(alice_s.pending_outbound());
    assert_ne!(envelope.first(), Some(&APQ_TAG));
    assert!(!envelope.windows(4).any(|w| w == &alice_s.initial_welcome()[..4]));
    let opened = open_envelope(&bob_kp.pq, &envelope);
    let welcome = some(opened.welcome);
    assert_eq!(welcome.first(), Some(&APQ_TAG));

    // The app-layer welcome, once attached, comes back out of the envelope that replaces it.
    let sections = ok(alice_s.act(|i| i.s.set_initial_app_payload(app.clone())));
    let sealed = seal_envelope(&bob_kp.pq, &sections);
    alice_s.act(|i| i.s.park_envelope(sealed));
    let opened = open_envelope(&bob_kp.pq, &some(alice_s.pending_outbound()));
    assert_eq!(opened.app_payload, Some(app));

    let bob_s = ok(Party::accept_with(
        &bob,
        None,
        welcome,
        alice_kp,
        alice_s.commitment(),
        Some(b"tok".to_vec()),
        None,
    ));
    let welcome_b = some(bob_s.pending_outbound());
    let opened = open_frame(&alice_s, &welcome_b);
    assert_eq!(opened.first(), Some(&APQ_TAG));
    assert!(!welcome_b.windows(16).any(|w| w == &opened[..16]));
}

/// Two initiations toward one key package carry the same payload in different envelopes.
#[test]
fn test_initial_envelope_resend_same_plaintext() {
    let alice = make_client();
    let bob_kp = make_combiner_kp(&make_client());
    let envelope = || {
        let s = ok(Party::initiate(&alice, bob_kp.clone(), None));
        let sections = ok(s.act(|i| i.s.set_initial_app_payload(b"p".to_vec())));
        let sealed = seal_envelope(&bob_kp.pq, &sections);
        s.act(|i| i.s.park_envelope(sealed));
        some(s.pending_outbound())
    };
    let (e1, e2) = (envelope(), envelope());
    assert_ne!(e1, e2);
    assert_eq!(open_envelope(&bob_kp.pq, &e1).app_payload, Some(b"p".to_vec()));
    assert_eq!(open_envelope(&bob_kp.pq, &e2).app_payload, Some(b"p".to_vec()));
}

#[test]
fn attachments_end_with_the_receive_group() {
    let (alice, bob) = establish_sessions();
    assert_eq!(
        err(alice.act(|i| i.s.set_initial_app_payload(b"late".to_vec()))),
        TwoMlsPqError::SessionNotReady
    );
    assert_eq!(
        err(bob.act(|i| i.s.set_initial_return_key_package(b"late".to_vec()))),
        TwoMlsPqError::SessionNotReady
    );
}

#[test]
fn messages_before_the_return_welcome_ride_envelopes() {
    let alice = make_client();
    let bob = make_client();
    let alice_kp = make_classical_kp(&alice);
    let bob_kp = make_combiner_kp(&bob);
    let session = ok(Party::initiate(&alice, bob_kp.clone(), None));

    let prepared = ok(session.prepare_to_encrypt(None));
    assert!(!prepared.did_commit);
    assert!(prepared.proposal_message.is_empty());
    assert_eq!(
        prepared.proposal_hash,
        mls_rs_crypto_awslc::sha256(&session.initial_welcome()).to_vec()
    );
    let early = ok(session.encrypt(b"early".to_vec())).cipher_text;
    // No rotation can be proposed yet.
    assert_eq!(
        err(session.prepare_to_encrypt(Some(alice.client_id()))),
        TwoMlsPqError::SessionNotReady
    );

    // Any single envelope suffices to join from, and its message is read once joined.
    let opened = open_envelope(&bob_kp.pq, &early);
    let bob_session = ok(Party::accept(
        &bob,
        some(opened.welcome),
        alice_kp,
        session.commitment(),
    ));
    let got = some(ok(bob_session.process_incoming(some(opened.stapled))));
    let message = some(got.application_message);
    assert_eq!(message.app_message_data, b"early");
    assert_eq!(message.sender_client_id.bytes, alice.id);
    assert!(got.proposal.is_none());
    assert!(got.remote_commit.is_none());
}

#[test]
fn session_ids_hash_the_founding_pair_in_order() {
    let alice = make_client();
    let bob = make_client();
    let session = ok(Party::initiate(&alice, make_combiner_kp(&bob), None));
    let (first, second) = if alice.id <= bob.id { (&alice.id, &bob.id) } else { (&bob.id, &alice.id) };
    let mut framed = Vec::new();
    put(&mut framed, first);
    put(&mut framed, second);
    assert_eq!(
        session.active_session_id().bytes,
        mls_rs_crypto_awslc::sha256(&framed).to_vec()
    );
}

// ---- persistence ----

/// A session without what an archive does not keep.
fn kept(party: &Party) -> TwoMlsPqSession {
    party.with(|s| {
        let mut s = s.clone();
        s.current_staple_seq = 0;
        s.sink_installed = false;
        s.push = None;
        if let Some(frame) = &mut s.pending_side_band {
            frame.seal = None;
        }
        s
    })
}

/// What refuses a session before the host does anything refuses what the host made, too.
#[test]
fn founding_checks_what_it_is_founded_with() {
    let alice = make_client();
    let bob = make_client();
    let session = ok(Party::initiate(&alice, make_combiner_kp(&bob), None));
    let welcome = session.initial_welcome();
    let kp = make_classical_kp(&alice);
    let accept = |binding: Option<Vec<u8>>, commitment: Vec<u8>, bound: Option<Vec<u8>>| {
        let owned = bob.owned.borrow().clone();
        let store = HashMap::new();
        let plan = ok(accept_plan(&bob.client_id(), SUITE, &welcome, &kp, &[7; 32], &None));
        let classical = some(Group::join(&plan.classical_welcome, &owned, &store));
        let pq = some(Group::join(&plan.pq_welcome, &owned, &store));
        let mut recv_group = Pair { classical, pq: Some(pq) }.combiner();
        recv_group.app_binding = bound;
        let (send, classical_welcome) =
            Group::create(CLASSICAL_SUITE, random(16), &bob.id, &alice.id, None, &[], &kp);
        let mut send = Pair { classical: send, pq: None };
        let send_psk = ok(send.classical.export_cross());
        TwoMlsPqSession::accept(
            bob.client_id(),
            SUITE,
            Accepted {
                recv_group,
                pq_unbound: Ok(()),
                send_group: send.combiner(),
                classical_welcome,
                send_psk,
            },
            &welcome,
            &kp,
            commitment,
            &binding,
        )
    };
    // An empty expectation comes first, whatever the commitment and whatever was joined.
    let empty = Some(Vec::new());
    for commitment in [vec![7; 32], vec![7; 31], Vec::new()] {
        assert_eq!(
            err(accept(empty.clone(), commitment.clone(), empty.clone())),
            TwoMlsPqError::AppBindingMismatch
        );
    }
    for len in [0, 31, 33] {
        assert_eq!(err(accept(None, vec![7; len], None)), TwoMlsPqError::BootstrapKpMismatch);
    }
    let s = ok(accept(None, vec![7; 32], None));
    assert_eq!(s.expected_bootstrap_kp_commitment, Some(vec![7; 32]));
    assert_eq!(s.their_principal_state().client_id().bytes, alice.id);
    // The founding pair alone decides the session id, on either side.
    assert_eq!(s.active_session_id(), session.active_session_id());

    let initiated = || {
        let theirs = make_combiner_kp(&bob);
        let (classical, classical_welcome) = Group::create(
            CLASSICAL_SUITE,
            random(16),
            &alice.id,
            &bob.id,
            None,
            &[],
            &theirs.classical,
        );
        let mut send = Pair { classical, pq: None };
        let send_psk = ok(send.classical.export_cross());
        Initiated {
            send_group: send.combiner(),
            classical_welcome,
            pq_welcome: Vec::new(),
            send_psk,
            bootstrap_kp: vec![1],
            bootstrap_kp_secret: vec![2],
        }
    };
    let me = alice.client_id();
    let theirs = make_combiner_kp(&bob);
    assert_eq!(
        err(TwoMlsPqSession::initiate(me.clone(), SUITE, theirs.clone(), &empty, initiated())),
        TwoMlsPqError::AppBindingMismatch
    );
    let swapped =
        CombinerKeyPackage { classical: theirs.pq.clone(), pq: theirs.classical.clone() };
    assert_eq!(
        err(TwoMlsPqSession::initiate(me.clone(), SUITE, swapped, &None, initiated())),
        TwoMlsPqError::CipherSuiteMismatch
    );
    let s = ok(TwoMlsPqSession::initiate(me, SUITE, theirs, &None, initiated()));
    assert_eq!(s.their_principal_state().client_id().bytes, bob.id);
    assert_eq!(s.active_session_id(), session.active_session_id());
}

#[test]
fn restoring_gives_the_session_back() {
    let (alice, bob) = establish_full();
    ok(alice.stage_rotation(vec![5; 16]));
    let got = r_from(&bob, &alice, b"upd");
    ok(alice.queue_proposal(some(got.proposal).digest));
    ok(bob.pq_rekey_begin(None));
    for party in [&alice, &bob] {
        let archive = ok(party.archive());
        assert_eq!(archive.bytes[0], SESSION_ARCHIVE_VERSION);
        assert_eq!(archive.bytes[1..5], [0x00, 0x03, 0xFD, 0xEA]);
        let restored = ok(Party::from_archive(archive.clone()));
        assert_eq!(kept(&restored), kept(party));
        // Another version or another suite pair is refused.
        for at in 0..5 {
            let mut bytes = archive.bytes.clone();
            bytes[at] ^= 0x40;
            assert_eq!(
                err(Party::from_archive(Archive { bytes })),
                TwoMlsPqError::ArchiveInvalid
            );
        }
        // So is one that is cut short or goes on.
        let mut cut = archive.bytes.clone();
        cut.pop();
        assert_eq!(err(Party::from_archive(Archive { bytes: cut })), TwoMlsPqError::ArchiveInvalid);
        let mut longer = archive.bytes;
        longer.push(0);
        assert_eq!(
            err(Party::from_archive(Archive { bytes: longer })),
            TwoMlsPqError::ArchiveInvalid
        );
    }
}

#[test]
fn the_newer_blob_wins() {
    let (alice, bob) = establish_full();
    let sink = new_sink();
    ok(alice.install_sink(sink.clone()));
    let early = latest(&sink, BlobKind::Checkpoint);
    message_round(&alice, &bob, b"one");
    let core = latest(&sink, BlobKind::Core);

    // A newer core completes the checkpoint with its PQ trees.
    let restored = ok(Party::from_persisted(core.clone(), early.clone()));
    assert_eq!(kept(&restored), kept(&alice));

    // A checkpoint that is newer than the core stands alone.
    ok(alice.pq_ratchet_begin());
    let late = latest(&sink, BlobKind::Checkpoint);
    let restored = ok(Party::from_persisted(core.clone(), late.clone()));
    assert_eq!(kept(&restored), kept(&alice));
    let restored = ok(Party::from_persisted(None, late));
    assert_eq!(kept(&restored), kept(&alice));

    // A core has no PQ trees of its own.
    assert_eq!(err(Party::from_persisted(core, None)), TwoMlsPqError::ArchiveInvalid);
    assert_eq!(err(Party::from_persisted(None, None)), TwoMlsPqError::ArchiveInvalid);
    drop(early);
}

#[test]
fn every_operation_is_counted_once() {
    let (alice, bob) = establish_confirmed_sessions();
    let before = alice.state_seq();
    ok(alice.prepare_to_encrypt(None));
    assert_eq!(alice.state_seq(), before + 1);
    let enc = ok(alice.encrypt(b"x".to_vec()));
    assert_eq!(alice.state_seq(), before + 2);
    // A failed operation is counted too.
    assert_eq!(err(alice.encrypt(b"x".to_vec())), TwoMlsPqError::SessionNotReady);
    assert_eq!(alice.state_seq(), before + 3);
    let peer = bob.state_seq();
    some(ok(bob.process_incoming(enc.cipher_text)));
    assert_eq!(bob.state_seq(), peer + 1);
    // Asking counts nothing.
    ok(alice.should_listen_on());
    ok(alice.archive());
    assert_eq!(alice.state_seq(), before + 3);
}

#[test]
fn an_unencoded_blob_is_what_an_operation_reports() {
    assert_eq!(persisted_outcome(Ok(7), Ok(())), Ok(7));
    assert_eq!(persisted_outcome(Ok(7), Err(TwoMlsPqError::Mls)), Err(TwoMlsPqError::Mls));
    assert_eq!(
        persisted_outcome::<u8>(Err(TwoMlsPqError::EpochDesync), Err(TwoMlsPqError::Mls)),
        Err(TwoMlsPqError::EpochDesync)
    );
}

// ---- the classical surface ----

#[test]
fn the_classical_surface_reports_the_session() {
    let (alice, bob) = establish_confirmed_sessions();
    let archive = ok(alice.archive());
    let wire = ok(decode_wire(&archive));
    let (loaded, _host) = Party::load(&wire);
    let mut session = match TwoMlsSession::from_archive(archive, loaded) {
        Ok(s) => s,
        Err(e) => panic!("not restored: {}", e.message()),
    };
    assert!(session.is_established());
    assert!(session.has_receive_group());
    assert_eq!(session.active_session_id(), alice.active_session_id());
    let context = some(session.proposal_context());
    assert_eq!(context.hash_type, HASH_TYPE_SHA256);
    assert_eq!(Some(context.digest), alice.proposal_context());
    assert_eq!(
        session.receive_group_id(),
        alice.receive_group_id().map(|id| id.classical)
    );
    assert_eq!(session.send_rendezvous(), Ok(alice.send_rendezvous()));
    assert_eq!(
        session.my_agent_state(),
        AgentState::Sync { client_id: alice.my_principal_state().client_id() }
    );
    assert_eq!(
        session.their_agent_state(),
        AgentState::Sync { client_id: bob.my_principal_state().client_id() }
    );
    let listen = match session.should_listen_on() {
        Ok(l) => l,
        Err(_) => panic!("nowhere to listen"),
    };
    let full = ok(alice.should_listen_on());
    assert_eq!(listen.send_group_id, full.send_group.classical);
    assert_eq!(listen.rendezvous_by_epoch, full.rendezvous_by_epoch);

    // An initiating session has no token to be forwarded under.
    assert_eq!(session.forwarded(b"token".to_vec()), Err(TwoMlsError::SessionNotReady));
    // Nothing is offered, nothing is prepared.
    assert_eq!(
        session.queue_proposal(TwoMlsDigest::sha256(vec![0; 32]), &ProcessedProposal::NotAProposal),
        Err(TwoMlsError::ProposalRejected)
    );
    assert_eq!(session.encrypt(None, no()), Err(TwoMlsError::SessionNotReady));
    let garbage = IncomingOutcome {
        staple: empty_staple(),
        app: None,
        offer: ProcessedProposal::NotAProposal,
    };
    assert_eq!(
        session.process_incoming(vec![0xFF; 40], garbage),
        Err(TwoMlsError::DecryptionFailed)
    );

    // A round of it, with the group operations done by hand.
    let update = alice.act(|i| {
        let recv = some(i.h.recv.as_ref());
        recv.classical.propose(&recv.classical.leaves[recv.classical.me].clone(), &[])
    });
    let mut out = nothing_done();
    out.update.message = Ok(update.clone());
    let round = match session.prepare_to_encrypt(None, out) {
        Ok(Some(r)) => r,
        _ => panic!("nothing prepared"),
    };
    assert!(!round.did_commit);
    assert_eq!(round.commited_remote_client_id, None);
    assert_eq!(
        round.proposal_hash,
        TwoMlsDigest {
            hash_type: 0x12,
            digest: mls_rs_crypto_awslc::sha256(&update).to_vec(),
        }
    );
    let app = alice.act(|i| {
        some(i.h.send.as_ref()).classical.frame(APP, &round.proposal_hash.digest, b"classical")
    });
    let sent = match session.encrypt(Some(app), no()) {
        Ok(m) => m,
        Err(e) => panic!("not encrypted: {}", e.message()),
    };
    assert_eq!(sent.epoch, 1);
    assert_eq!(sent.sender, alice.my_principal_state().client_id());
    assert_eq!(sent.recipient, bob.my_principal_state().client_id());
    let got = some(ok(bob.process_incoming(sent.cipher_text)));
    assert_eq!(some(got.application_message).app_message_data, b"classical");
}

#[test]
fn a_commit_to_a_foreign_id_does_not_stand() {
    let (alice, bob) = establish_confirmed_sessions();
    let got = r_from(&bob, &alice, b"upd");
    ok(alice.queue_proposal(some(got.proposal).digest));
    assert!(ok(alice.prepare_to_encrypt(None)).did_commit);
    let frame = ok(alice.encrypt(b"commit".to_vec())).cipher_text;
    bob.act(|i| {
        let plan = match ok(i.s.incoming_plan(frame.clone())) {
            IncomingPlan::Message { staple, .. } => staple,
            _ => panic!("not a message"),
        };
        let before = i.s.clone();
        let mut out = i.staple(&plan);
        assert!(before.staple_stands(&plan, &out));
        // The same commit, had it put another id into Bob's leaf.
        if let CommitProcessed::Commit { half, .. } = &mut out.commit {
            half.my_leaf = b"another".to_vec();
        }
        assert!(!before.staple_stands(&plan, &out));
        let out = IncomingOutcome {
            staple: out,
            app: None,
            offer: ProcessedProposal::NotAProposal,
        };
        assert_eq!(
            err(i.s.process_incoming(frame.clone(), out)),
            TwoMlsPqError::CredentialRejected
        );
        // The commit is in all the same.
        assert_eq!(some(i.s.recv_group.as_ref()).classical.epoch, 2);
    });
}

#[test]
fn a_re_key_proposal_must_be_the_peers_update() {
    let canonical = vec![b"id".to_vec()];
    let update = |member: Option<u32>, is_update: bool, announced: &[u8]| {
        ProcessedProposal::Proposal {
            member,
            is_update,
            leaf: Some(b"id".to_vec()),
            authenticated_data: announced.to_vec(),
        }
    };
    assert_eq!(ok(check_rekey_proposal(&update(Some(1), true, b""), 0, &canonical)), None);
    assert_eq!(
        ok(check_rekey_proposal(&update(Some(1), true, b"id"), 0, &canonical)),
        Some(ClientId { bytes: b"id".to_vec() })
    );
    assert_eq!(
        err(check_rekey_proposal(&update(Some(1), true, b"other"), 0, &canonical)),
        TwoMlsPqError::CredentialRejected
    );
    for processed in [
        update(Some(0), true, b""),
        update(None, true, b""),
        update(Some(1), false, b""),
    ] {
        assert_eq!(
            err(check_rekey_proposal(&processed, 0, &canonical)),
            TwoMlsPqError::ProposalRejected
        );
    }
    assert_eq!(
        err(check_rekey_proposal(&ProcessedProposal::NotAProposal, 0, &canonical)),
        TwoMlsPqError::Mls
    );
}

#[test]
fn a_joined_group_is_checked_before_it_is_answered() {
    let (alice, _) = establish_confirmed_sessions();
    alice.act(|i| {
        let mut joined = some(i.s.recv_group.clone());
        let theirs = ClientId { bytes: joined.classical.peer_leaf.clone() };
        assert!(joined.pq.is_none() && joined.app_binding.is_none());
        joined.pq = some(i.s.send_group.as_ref()).pq.clone();
        let mut pq = some(joined.pq.clone());
        pq.peer_leaf = theirs.bytes.clone();
        joined.pq = Some(pq.clone());
        ok(check_joined(&theirs, &joined, Ok(()), &None));
        // A PQ half with a binding of its own is refused, once there is one.
        let bound = Err(TwoMlsPqError::AppBindingMismatch);
        assert_eq!(
            err(check_joined(&theirs, &joined, bound, &None)),
            TwoMlsPqError::AppBindingMismatch
        );
        let deferred = CombinerGroup { pq: None, ..joined.clone() };
        ok(check_joined(&theirs, &deferred, bound, &None));
        // The binding must be the expected one.
        assert_eq!(
            err(check_joined(&theirs, &joined, Ok(()), &Some(b"binding".to_vec()))),
            TwoMlsPqError::AppBindingMismatch
        );
        // Both halves must be the peer's.
        pq.peer_leaf = b"another".to_vec();
        let joined = CombinerGroup { pq: Some(pq), ..joined };
        assert_eq!(
            err(check_joined(&theirs, &joined, bound, &None)),
            TwoMlsPqError::RemoteIdentityMismatch
        );
        let other = ClientId { bytes: b"another".to_vec() };
        assert_eq!(
            err(check_joined(&other, &deferred, Ok(()), &None)),
            TwoMlsPqError::RemoteIdentityMismatch
        );
    });
}

#[test]
fn what_refuses_a_plan_is_what_is_reported() {
    let (alice, bob, frame) = bind_frame();
    drop(alice);
    let frames = [
        (vec![0x00, 0x01], TwoMlsPqError::DecryptionFailed),
        (vec![PQ_EK_TAG, 1], TwoMlsPqError::SessionNotReady),
        (frame, TwoMlsPqError::BindApplyFailed),
    ];
    for (blob, refused) in frames {
        bob.act(|i| {
            // The last frame comes when receiving is broken.
            i.s.bind_apply_broken = refused == TwoMlsPqError::BindApplyFailed;
            assert_eq!(err(i.s.incoming_plan(blob.clone())), refused);
            let out = IncomingOutcome {
                staple: empty_staple(),
                app: None,
                offer: ProcessedProposal::NotAProposal,
            };
            assert_eq!(err(i.s.process_incoming(blob, out)), refused);
        });
    }
}

#[test]
fn nothing_is_taken_back() {
    let (alice, bob) = establish_sessions();
    let mut before = alice.with(|s| s.clone());
    for round in 0..3u8 {
        let got = r_from(&bob, &alice, &[round]);
        ok(alice.queue_proposal(some(got.proposal).digest));
        assert!(ok(alice.prepare_to_encrypt(None)).did_commit);
        let enc = ok(alice.encrypt(vec![round]));
        some(ok(bob.process_incoming(enc.cipher_text)));
        let now = alice.with(|s| s.clone());
        assert!(now.state_seq > before.state_seq);
        assert!(now.current_staple_seq > before.current_staple_seq);
        assert!(now.peer_applied_send_epoch >= before.peer_applied_send_epoch);
        assert!(now.recv_group.is_some() && now.send_group.is_some());
        if before.recv_group.is_some() {
            assert_eq!(now.joined_welcome_digest, before.joined_welcome_digest);
        }
        assert_eq!(now.session_id, before.session_id);
        before = now;
    }
    // The peer has not applied the last commit yet as far as can be told.
    let sent = some(before.send_group).classical.epoch;
    assert_eq!(before.peer_applied_send_epoch, Some(sent - 1));
}

#[test]
fn a_round_stands_if_all_its_steps_do() {
    let (alice, bob) = establish_confirmed_sessions();
    let got = r_from(&bob, &alice, b"upd");
    ok(alice.queue_proposal(some(got.proposal).digest));
    alice.act(|i| {
        let send = some(i.s.send_group.clone());
        let psk = some(i.s.send_psk_ledger.last()).exported.clone();
        let committed = || {
            let mut half = send.classical.clone();
            half.epoch += 1;
            CommitOutput { half, two_party: true, message: Some(vec![0]) }
        };
        let good = || RoundOutcome {
            departing_psk: no(),
            cross_psk: Ok(()),
            fold: Ok(()),
            commit: CommitOutcome {
                bind_psk: no(),
                built: Ok(committed()),
                new_psk: Ok(psk.clone()),
            },
        };
        // The departing PSK is in the ledger already, and no bind is owed.
        assert!(i.s.round_stands(&good()));
        let mut out = good();
        out.cross_psk = no();
        assert!(!i.s.round_stands(&out));
        let mut out = good();
        out.fold = Err(MlsRefusal::Other);
        assert!(!i.s.round_stands(&out));
        let mut out = good();
        out.commit.built = Err(MlsRefusal::Other);
        assert!(!i.s.round_stands(&out));
        let mut out = good();
        out.commit.built = Ok(CommitOutput { two_party: false, ..committed() });
        assert!(!i.s.round_stands(&out));
        let mut out = good();
        out.commit.built = Ok(CommitOutput { message: None, ..committed() });
        assert!(!i.s.round_stands(&out));
        let mut out = good();
        out.commit.new_psk = no();
        assert!(!i.s.round_stands(&out));
        // An owed bind must be dischargeable and its PSK exported.
        i.s.owed_bind = Some(OwedBind { pq_commit: vec![0], t_epoch: 9, pq_epoch: 1 });
        let mut out = good();
        out.commit.bind_psk = Ok(());
        assert!(!i.s.round_stands(&out));
        let pq_epoch = some(send.pq.as_ref()).epoch;
        let t_epoch = send.classical.epoch + 1;
        i.s.owed_bind = Some(OwedBind { pq_commit: vec![0], t_epoch, pq_epoch });
        assert!(i.s.round_stands(&out));
        assert!(!i.s.round_stands(&good()));
    });
}

#[test]
fn a_whole_archive_holds_the_pq_trees_that_it_names() {
    let (alice, _bob) = establish_full();
    for strip_send in [true, false] {
        let r = alice.act(|i| {
            let mut material = i.material();
            let group = if strip_send { &mut material.send_group } else { &mut material.recv_group };
            if let Ok(entry) = group {
                entry.1 = None;
            }
            i.s.archive(material)
        });
        assert_eq!(err(r), TwoMlsPqError::ArchiveInvalid);
        // A core leaves them out anyway.
        ok(alice.act(|i| {
            let mut material = i.material();
            if let Ok(entry) = &mut material.send_group {
                entry.1 = None;
            }
            i.s.encode_core(material)
        }));
    }
    // Nor does it hold one of a half that there is none of.
    let (_alice, bob) = establish_sessions();
    let r = bob.act(|i| {
        let mut material = i.material();
        if let Ok(entry) = &mut material.send_group {
            entry.1 = Some(vec![1]);
        }
        i.s.archive(material)
    });
    assert_eq!(err(r), TwoMlsPqError::ArchiveInvalid);
}

#[test]
fn principal_states_and_rounds_are_read_back() {
    let (a, b) = (ClientId { bytes: vec![1] }, ClientId { bytes: vec![2] });
    for state in [
        PrincipalState::Sync { client_id: a.clone() },
        PrincipalState::Pending { old: a, new: b },
    ] {
        let wire = wire_principal_state(&state);
        assert_eq!(principal_state_from_wire(wire.clone()), state);
        assert_eq!(wire_principal_state(&principal_state_from_wire(wire.clone())), wire);
    }
    assert_eq!(
        wire_principal_state(&principal_state_from_wire((vec![1], Some(vec![2])))),
        (vec![1], Some(vec![2]))
    );
    let rounds = [
        PqInflight::Initiating { dk: vec![1], ek: vec![2] },
        PqInflight::Responding { secret: vec![3] },
        PqInflight::RekeyInitiated,
        PqInflight::RekeyResponded,
        PqInflight::BootstrapInitiated,
        PqInflight::BootstrapResponded,
    ];
    for (kind, round) in rounds.iter().enumerate() {
        let wire = wire_pq_inflight(round);
        assert_eq!(usize::from(wire.0), kind);
        assert_eq!(ok(pq_inflight_from_wire(wire)), *round);
    }
    // A kind with another's secrets, or an unknown one, is none.
    for wire in [
        (0, (None, None)),
        (1, (Some((vec![1], vec![2])), Some(vec![3]))),
        (2, (None, Some(vec![3]))),
        (6, (None, None)),
    ] {
        assert_eq!(err(pq_inflight_from_wire(wire)), TwoMlsPqError::ArchiveInvalid);
    }
}

#[test]
fn any_later_frame_heals_a_lost_commit() {
    let (alice, bob) = establish_confirmed_sessions();
    let got = r_from(&alice, &bob, b"offer");
    ok(bob.queue_proposal(some(got.proposal).digest));
    assert!(ok(bob.prepare_to_encrypt(None)).did_commit);
    ok(bob.encrypt(b"lost".to_vec()));
    for lost in 0..3u8 {
        assert!(!ok(bob.prepare_to_encrypt(None)).did_commit);
        ok(bob.encrypt(vec![lost + 1]));
    }
    let healed = r_from(&bob, &alice, b"healed");
    assert!(healed.remote_commit.is_some());
    assert_eq!(some(healed.application_message).app_message_data, b"healed");
    let again = r_from(&bob, &alice, b"again");
    assert!(again.remote_commit.is_none());
    assert_eq!(some(again.application_message).app_message_data, b"again");
}

#[test]
fn only_the_welcome_that_was_joined_from_comes_again() {
    let (alice, bob) = establish_sessions();
    for party in [&alice, &bob] {
        let before = party.with(|s| s.clone());
        let other = encode_apq_welcome(vec![9], Vec::new());
        assert_eq!(err(party.process_incoming(other)), TwoMlsPqError::UnexpectedWelcome);
        assert_eq!(party.with(|s| s.clone()), before);
    }
    let joined = alice.initial_welcome();
    assert!(ok(bob.process_incoming(joined)).is_none());
}

#[test]
fn an_archive_of_the_classical_surface_restores() {
    let (alice, _bob) = establish_confirmed_sessions();
    ok(alice.stage_rotation(b"successor".to_vec()));
    let (mut session, material) =
        alice.act(|i| (TwoMlsSession { inner: i.s.clone() }, i.material()));
    let archive = match session.archive(material) {
        Ok(a) => a,
        Err(e) => panic!("{e:?}"),
    };
    let (loaded, _host) = Party::load(&ok(decode_wire(&archive)));
    let restored = match TwoMlsSession::from_archive(archive, loaded) {
        Ok(s) => s,
        Err(e) => panic!("{e:?}"),
    };
    assert_eq!(restored.active_session_id(), session.active_session_id());
    assert!(restored.is_established() && session.is_established());
    assert!(restored.has_receive_group() && session.has_receive_group());
    assert_eq!(restored.receive_group_id(), session.receive_group_id());
    assert_eq!(restored.my_agent_state(), session.my_agent_state());
    assert!(matches!(restored.my_agent_state(), AgentState::Pending { .. }));
    assert_eq!(restored.their_agent_state(), session.their_agent_state());
}

/// Where a commit was missed for good, the classical surface reports nothing: the caller is to
/// join anew. The session is as it was.
#[test]
fn test_process_incoming_returns_none_on_rejoin_needed() {
    let (alice, bob) = establish_confirmed_sessions();
    let mut behind = TwoMlsSession { inner: bob.with(|s| s.clone()) };
    approved_commit_round(&alice, &bob);
    approved_commit_round(&alice, &bob);
    ok(alice.prepare_to_encrypt(None));
    let ahead = ok(alice.encrypt(b"ahead".to_vec())).cipher_text;
    assert_eq!(err(behind.inner.incoming_plan(ahead.clone())), TwoMlsPqError::EpochDesync);
    let before = behind.clone();
    let untouched = IncomingOutcome {
        staple: empty_staple(),
        app: None,
        offer: ProcessedProposal::NotAProposal,
    };
    assert_eq!(behind.process_incoming(ahead, untouched), Ok(None));
    assert_eq!(behind, before);
}

#[test]
fn a_joined_welcome_is_processed_once() {
    let (alice, bob) = establish_sessions();
    let joined = alice.initial_welcome();
    bob.act(|i| {
        let before = i.s.clone();
        let out = || JoinOutcome { joined: no(), pq_unbound: no() };
        assert_eq!(i.s.process_welcome(&joined, no(), out()), Ok(()));
        assert_eq!(i.s, before);
        let other = encode_apq_welcome(vec![9], Vec::new());
        assert_eq!(
            err(i.s.process_welcome(&other, no(), out())),
            TwoMlsPqError::UnexpectedWelcome
        );
        assert_eq!(i.s, before);
    });
}
