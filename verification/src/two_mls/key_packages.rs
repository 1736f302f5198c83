//! Key packages: publishing them, and what an MLS-encoded one says of its owner.

use std::sync::Arc;
use vstd::prelude::*;
use crate::pq::providers::{
    key_package_framing, key_package_of, make_key_package, mls_key_package, signing_public_key,
    KeyPackageSecret, SIGNING_PUBLIC_LEN, SIGNING_SEED_LEN,
};
use crate::types::{ClientId, CombinerKeyPackage};
use super::cipher_suite::MlsCipherSuite;
use super::error::{Result, TwoMlsError};

verus! {

/// An agent: its signing key, whose public component is its client id, and what is stored for
/// joining with the key packages that it has published.
#[derive(Clone, PartialEq, Eq)]
pub struct TwoMlsClient {
    signing_key: Vec<u8>,
    id: ClientId,
    kept: Vec<KeyPackageSecret>,
}

/// Whether `secret` is stored for the key package in `message`: it holds the same one.
pub open spec fn is_stored_for(message: Seq<u8>, secret: KeyPackageSecret) -> bool {
    message == key_package_framing() + secret.key_package@
}

/// Whether asking the MLS stack for a key package of this signing key and this id, in this
/// suite, gave this: the message and what is stored for joining with it, or nothing.
pub closed spec fn key_package_made(
    signing_key: Seq<u8>,
    id: Seq<u8>,
    suite: u16,
    made: Option<(Vec<u8>, KeyPackageSecret)>,
) -> bool {
    exists|k: &[u8], i: &[u8]|
        k@ == signing_key && i@ == id && #[trigger] call_ensures(
            make_key_package,
            (k, i, suite),
            made,
        )
}

/// Whether a key package is one that an agent publishes in this suite.
pub open spec fn is_package_of(id: Seq<u8>, suite: u16, message: Seq<u8>) -> bool {
    key_package_of(message) == Some((id, suite))
}

/// Whether a pair of key packages is one that an agent publishes: a classical one and a PQ
/// one, both under its id.
pub open spec fn is_pair_of(id: Seq<u8>, pair: CombinerKeyPackage) -> bool {
    &&& is_package_of(id, MlsCipherSuite::DHKEM_X25519_CHACHA, pair.classical@)
    &&& is_package_of(id, MlsCipherSuite::XWING_AES128, pair.pq@)
}

impl TwoMlsClient {
    /// The agent's client id.
    pub closed spec fn spec_client_id(&self) -> Seq<u8> {
        self.id@
    }

    /// The agent's signing key.
    pub closed spec fn spec_signing_key(&self) -> Seq<u8> {
        self.signing_key@
    }

    /// What is stored for joining with what the agent has published, oldest first.
    pub closed spec fn spec_kept(&self) -> Seq<KeyPackageSecret> {
        self.kept@
    }

    /// Whether the agent is the one that `before` was, with these stored besides.
    pub open spec fn keeps(&self, before: TwoMlsClient, added: Seq<KeyPackageSecret>) -> bool {
        &&& self.spec_client_id() == before.spec_client_id()
        &&& self.spec_signing_key() == before.spec_signing_key()
        &&& self.spec_kept() == before.spec_kept() + added
    }

    /// The agent of a signing key, which is the private seed followed by the public component.
    pub fn new(signing_key: Vec<u8>) -> (r: Result<TwoMlsClient>)
        ensures
            if signing_key@.len() == SIGNING_SEED_LEN + SIGNING_PUBLIC_LEN {
                &&& r matches Ok(c)
                &&& c.spec_client_id() == signing_key@.subrange(
                    SIGNING_SEED_LEN as int,
                    signing_key@.len() as int,
                )
                &&& c.spec_signing_key() == signing_key@
                &&& c.spec_kept().len() == 0
            } else {
                r == Err::<TwoMlsClient, TwoMlsError>(TwoMlsError::Mls)
            },
    {
        if signing_key.len() < SIGNING_SEED_LEN {
            return Err(TwoMlsError::Mls);
        }
        match signing_public_key(signing_key.as_slice()) {
            Some(bytes) => Ok(
                TwoMlsClient { signing_key, id: ClientId { bytes }, kept: Vec::new() },
            ),
            None => Err(TwoMlsError::Mls),
        }
    }

    /// The agent's client id.
    pub fn client_id(&self) -> (r: ClientId)
        ensures
            r@ == self.spec_client_id(),
    {
        self.id.copy()
    }

    /// The agent's signing key, for the groups that it joins.
    pub fn signing_key(&self) -> (r: &[u8])
        ensures
            r@ == self.spec_signing_key(),
    {
        self.signing_key.as_slice()
    }

    /// What is stored for what the agent has published, for joining from a welcome to one of
    /// them.
    pub fn kept_key_packages(&self) -> (r: &[KeyPackageSecret])
        ensures
            r@ == self.spec_kept(),
    {
        self.kept.as_slice()
    }

    /// Whether the agent has published what was made, if anything was: the message is given
    /// out, and what is stored for joining with it is kept.
    pub open spec fn has_published(
        &self,
        before: TwoMlsClient,
        made: Option<(Vec<u8>, KeyPackageSecret)>,
        r: Result<Vec<u8>>,
    ) -> bool {
        match made {
            Some((message, secret)) => {
                &&& r == Ok::<Vec<u8>, TwoMlsError>(message)
                &&& self.keeps(before, seq![secret])
            },
            None => {
                &&& r == Err::<Vec<u8>, TwoMlsError>(TwoMlsError::Mls)
                &&& *self == before
            },
        }
    }

    /// Publish a key package that was made, if it was.
    pub fn publish(&mut self, made: Option<(Vec<u8>, KeyPackageSecret)>) -> (r: Result<Vec<u8>>)
        ensures
            final(self).has_published(*old(self), made, r),
    {
        match made {
            Some((message, secret)) => {
                self.kept.push(secret);
                proof {
                    assert(self.kept@ =~= old(self).kept@ + seq![secret]);
                }
                Ok(message)
            },
            None => Err(TwoMlsError::Mls),
        }
    }

    /// Whether the agent has published the pair that was made, if both of it were; else nothing
    /// of it is kept.
    pub open spec fn has_published_pair(
        &self,
        before: TwoMlsClient,
        classical: Option<(Vec<u8>, KeyPackageSecret)>,
        pq: Option<(Vec<u8>, KeyPackageSecret)>,
        r: Result<CombinerKeyPackage>,
    ) -> bool {
        match (classical, pq) {
            (Some((message, secret)), Some((pq_message, pq_secret))) => {
                &&& r matches Ok(pair)
                &&& pair.classical == message
                &&& pair.pq == pq_message
                &&& self.keeps(before, seq![secret, pq_secret])
            },
            _ => {
                &&& r == Err::<CombinerKeyPackage, TwoMlsError>(TwoMlsError::Mls)
                &&& *self == before
            },
        }
    }

    /// Publish a pair of key packages that were made, if both were.
    pub fn publish_pair(
        &mut self,
        classical: Option<(Vec<u8>, KeyPackageSecret)>,
        pq: Option<(Vec<u8>, KeyPackageSecret)>,
    ) -> (r: Result<CombinerKeyPackage>)
        ensures
            final(self).has_published_pair(*old(self), classical, pq, r),
    {
        match (classical, pq) {
            (Some((message, secret)), Some((pq_message, pq_secret))) => {
                self.kept.push(secret);
                self.kept.push(pq_secret);
                proof {
                    assert(self.kept@ =~= old(self).kept@ + seq![secret, pq_secret]);
                }
                Ok(CombinerKeyPackage { classical: message, pq: pq_message })
            },
            _ => Err(TwoMlsError::Mls),
        }
    }

    /// Ask the MLS stack for a key package that the agent signs, under its id.
    fn request_key_package(&self, suite: u16) -> (r: Option<(Vec<u8>, KeyPackageSecret)>)
        ensures
            key_package_made(self.spec_signing_key(), self.spec_client_id(), suite, r),
            r matches Some((message, secret)) ==> is_package_of(
                self.spec_client_id(),
                suite,
                message@,
            ) && is_stored_for(message@, secret),
    {
        let (key, id) = (self.signing_key.as_slice(), self.id.bytes.as_slice());
        let made = make_key_package(key, id, suite);
        assert(call_ensures(make_key_package, (key, id, suite), made));
        made
    }

    /// A fresh key package of the agent in this suite, MLS-encoded for publication. What is
    /// stored for joining with it is kept.
    pub fn generate_key_package(&mut self, suite: Arc<MlsCipherSuite>) -> (r: Result<Vec<u8>>)
        ensures
            exists|made: Option<(Vec<u8>, KeyPackageSecret)>| #[trigger]
                key_package_made(
                    old(self).spec_signing_key(),
                    old(self).spec_client_id(),
                    suite@,
                    made,
                ) && final(self).has_published(*old(self), made, r) && (made matches Some(
                    (message, secret),
                ) ==> is_stored_for(message@, secret)),
            r matches Ok(b) ==> is_package_of(old(self).spec_client_id(), suite@, b@),
    {
        let made = self.request_key_package(suite.value());
        self.publish(made)
    }

    /// A fresh pair of key packages of the agent: a classical one and a PQ one. What is stored
    /// for joining with each is kept.
    pub fn generate_combiner_key_package(&mut self) -> (r: Result<CombinerKeyPackage>)
        ensures
            exists|
                classical: Option<(Vec<u8>, KeyPackageSecret)>,
                pq: Option<(Vec<u8>, KeyPackageSecret)>,
            |
                {
                    &&& #[trigger] key_package_made(
                        old(self).spec_signing_key(),
                        old(self).spec_client_id(),
                        MlsCipherSuite::DHKEM_X25519_CHACHA,
                        classical,
                    )
                    &&& #[trigger] key_package_made(
                        old(self).spec_signing_key(),
                        old(self).spec_client_id(),
                        MlsCipherSuite::XWING_AES128,
                        pq,
                    )
                    &&& final(self).has_published_pair(*old(self), classical, pq, r)
                    &&& classical matches Some((message, secret)) ==> is_stored_for(
                        message@,
                        secret,
                    )
                    &&& pq matches Some((message, secret)) ==> is_stored_for(message@, secret)
                },
            r matches Ok(pair) ==> is_pair_of(old(self).spec_client_id(), pair),
    {
        let classical = self.request_key_package(MlsCipherSuite::DHKEM_X25519_CHACHA);
        let pq = self.request_key_package(MlsCipherSuite::XWING_AES128);
        self.publish_pair(classical, pq)
    }
}

/// What a key package says.
#[derive(Debug, Clone, PartialEq, Eq)]
pub struct MlsKeyPackage {
    pub client_id: ClientId,
    pub cipher_suite: Arc<MlsCipherSuite>,
}

/// What the key packages of a pair say.
#[derive(Debug, Clone, PartialEq, Eq)]
pub struct ParsedCombinerKeyPackage {
    pub client_id: ClientId,
    pub classical_suite: Arc<MlsCipherSuite>,
    pub pq_suite: Arc<MlsCipherSuite>,
}

/// Whether `r` is what parsing a key package gives: its client id and its cipher suite.
pub open spec fn is_parsed(bytes: Seq<u8>, r: Result<MlsKeyPackage>) -> bool {
    match key_package_of(bytes) {
        Some((id, suite)) => r matches Ok(p) && p.client_id@ == id && p.cipher_suite@ == suite,
        None => r == Err::<MlsKeyPackage, TwoMlsError>(TwoMlsError::InvalidKeyPackage),
    }
}

/// Parse an MLS-encoded key package: its client id and its cipher suite.
pub fn parse_mls_key_package(bytes: Vec<u8>) -> (r: Result<MlsKeyPackage>)
    ensures
        is_parsed(bytes@, r),
{
    match mls_key_package(bytes.as_slice()) {
        Some((id, suite)) => Ok(
            MlsKeyPackage {
                client_id: ClientId { bytes: id },
                cipher_suite: MlsCipherSuite::new(suite),
            },
        ),
        None => Err(TwoMlsError::InvalidKeyPackage),
    }
}

/// What a pair of parsed key packages stands for: both must name the same client.
pub fn combine_parsed(classical: MlsKeyPackage, pq: MlsKeyPackage) -> (r: Result<
    ParsedCombinerKeyPackage,
>)
    ensures
        if classical.client_id@ == pq.client_id@ {
            &&& r matches Ok(p)
            &&& p.client_id@ == classical.client_id@
            &&& p.classical_suite@ == classical.cipher_suite@
            &&& p.pq_suite@ == pq.cipher_suite@
        } else {
            r == Err::<ParsedCombinerKeyPackage, TwoMlsError>(TwoMlsError::InvalidKeyPackage)
        },
{
    if classical.client_id.same(&pq.client_id) {
        Ok(
            ParsedCombinerKeyPackage {
                client_id: classical.client_id,
                classical_suite: classical.cipher_suite,
                pq_suite: pq.cipher_suite,
            },
        )
    } else {
        Err(TwoMlsError::InvalidKeyPackage)
    }
}

/// What a key package pair says: its client and the two suites, if both parse and name the
/// same client.
pub open spec fn pair_says(kp: CombinerKeyPackage) -> Option<(Seq<u8>, u16, u16)> {
    match (key_package_of(kp.classical@), key_package_of(kp.pq@)) {
        (Some((id, classical)), Some((other, pq))) => if id == other {
            Some((id, classical, pq))
        } else {
            None
        },
        _ => None,
    }
}

/// Parse a key package pair. Both must parse and name the same client.
pub fn parse_combiner_key_package(kp: CombinerKeyPackage) -> (r: Result<ParsedCombinerKeyPackage>)
    ensures
        match pair_says(kp) {
            Some((id, classical, pq)) => {
                &&& r matches Ok(p)
                &&& p.client_id@ == id
                &&& p.classical_suite@ == classical
                &&& p.pq_suite@ == pq
            },
            None => r == Err::<ParsedCombinerKeyPackage, TwoMlsError>(
                TwoMlsError::InvalidKeyPackage,
            ),
        },
{
    let classical = parse_mls_key_package(kp.classical)?;
    let pq = parse_mls_key_package(kp.pq)?;
    combine_parsed(classical, pq)
}

/// A published key package parses: to the agent that published it, and to the suite that was
/// asked for.
pub proof fn law_published_key_package_parses(
    id: Seq<u8>,
    suite: u16,
    message: Seq<u8>,
    r: Result<MlsKeyPackage>,
)
    requires
        is_package_of(id, suite, message),
        is_parsed(message, r),
    ensures
        r matches Ok(p) && p.client_id@ == id && p.cipher_suite@ == suite,
{
}

/// A published pair parses: to the agent that published it, and to the suites of the pair.
pub proof fn law_published_pair_parses(id: Seq<u8>, pair: CombinerKeyPackage)
    requires
        is_pair_of(id, pair),
    ensures
        pair_says(pair) == Some(
            (id, MlsCipherSuite::DHKEM_X25519_CHACHA, MlsCipherSuite::XWING_AES128),
        ),
{
}

} // verus!
