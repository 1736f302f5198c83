//! What the session has from outside: the digest, the header AEAD, key packages, and what an
//! encoded MLS message says of itself. The contracts here are taken on trust; each item says what it
//! claims of the function it calls.

use mls_rs::crypto::{SignaturePublicKey, SignatureSecretKey};
use mls_rs::identity::basic::{BasicCredential, BasicIdentityProvider};
use mls_rs::identity::{Credential, SigningIdentity};
use mls_rs::{CipherSuite, CipherSuiteProvider, Client, CryptoProvider, MlsMessage};
use mls_rs_crypto_awslc::AwsLcCryptoProvider;
use vstd::prelude::*;
use zeroize::Zeroize;
use crate::bytes::opt_bytes;

verus! {

/// Length of a SHA-256 digest.
pub const DIGEST_LEN: usize = 32;

/// Key length of the header AEAD, ChaCha20-Poly1305.
pub const HEADER_KEY_LEN: usize = 32;

/// Nonce length of the header AEAD.
pub const HEADER_NONCE_LEN: usize = 12;

/// Tag length of the header AEAD.
pub const HEADER_TAG_LEN: usize = 16;

/// Length of the private seed in an Ed25519 signing key.
pub const SIGNING_SEED_LEN: usize = 32;

/// Length of the public component in an Ed25519 signing key.
pub const SIGNING_PUBLIC_LEN: usize = 32;

/// The SHA-256 digest of `data`.
pub uninterp spec fn sha256_of(data: Seq<u8>) -> Seq<u8>;

/// What sealing `frame` under the header AEAD gives, if the key and the nonce are of the
/// AEAD's sizes.
pub uninterp spec fn header_seal_of(key: Seq<u8>, nonce: Seq<u8>, frame: Seq<u8>) -> Option<Seq<u8>>;

/// What opening `sealed` under the header AEAD gives, if it authenticates.
pub uninterp spec fn header_open_of(key: Seq<u8>, nonce: Seq<u8>, sealed: Seq<u8>) -> Option<Seq<u8>>;

/// Whether `bytes` is an encoded MLS message, and the epoch it names if it names one.
pub uninterp spec fn mls_epoch_of(bytes: Seq<u8>) -> Option<Option<u64>>;

/// Whether `bytes` is an encoded MLS message, and the cipher suite it names if it names one.
pub uninterp spec fn mls_suite_of(bytes: Seq<u8>) -> Option<Option<u16>>;

/// The basic credential's identifier and the cipher suite of an encoded MLS key package.
pub uninterp spec fn key_package_of(bytes: Seq<u8>) -> Option<(Seq<u8>, u16)>;

/// `mls_rs_crypto_awslc::sha256`. Claims that the digest depends on the data alone and is
/// 32 bytes long.
#[verifier::external_body]
pub(crate) fn sha256(data: &[u8]) -> (r: Vec<u8>)
    ensures
        r@ == sha256_of(data@),
        r@.len() == DIGEST_LEN,
{
    mls_rs_crypto_awslc::sha256(data).to_vec()
}

/// `CipherSuiteProvider::aead_key_size` of the suite whose AEAD seals headers. Claims that
/// the suite is there and that its key is 32 bytes long.
#[verifier::external_body]
pub(crate) fn header_aead_key_size() -> (r: Option<usize>)
    ensures
        r == Some(HEADER_KEY_LEN),
{
    let suite = AwsLcCryptoProvider::new().cipher_suite_provider(CipherSuite::CURVE25519_CHACHA)?;
    Some(suite.aead_key_size())
}

/// `CipherSuiteProvider::aead_nonce_size` of the suite whose AEAD seals headers. Claims that
/// the suite is there and that its nonce is 12 bytes long.
#[verifier::external_body]
pub(crate) fn header_aead_nonce_size() -> (r: Option<usize>)
    ensures
        r == Some(HEADER_NONCE_LEN),
{
    let suite = AwsLcCryptoProvider::new().cipher_suite_provider(CipherSuite::CURVE25519_CHACHA)?;
    Some(suite.aead_nonce_size())
}

/// `CipherSuiteProvider::random_bytes`. Claims the length of what it fills, and nothing of
/// the bytes, which are chance. A vector longer than `isize::MAX` cannot be filled.
#[verifier::external_body]
pub(crate) fn random_bytes(len: usize) -> (r: Option<Vec<u8>>)
    requires
        len <= isize::MAX,
    ensures
        r matches Some(v) ==> v@.len() == len,
{
    let suite = AwsLcCryptoProvider::new().cipher_suite_provider(CipherSuite::CURVE25519_CHACHA)?;
    let mut out = vec![0u8; len];
    suite.random_bytes(&mut out).ok()?;
    Some(out)
}

/// `CipherSuiteProvider::aead_seal` with no associated data. Claims that the ciphertext
/// depends on the arguments alone, that a key or a nonce of another size than the AEAD's is
/// refused and any other frame below the AEAD's limit is sealed, that the tag adds 16 bytes,
/// and that the ciphertext opens to the frame under the same key and nonce.
#[verifier::external_body]
pub(crate) fn header_aead_seal(key: &[u8], nonce: &[u8], frame: &[u8]) -> (r: Option<Vec<u8>>)
    ensures
        opt_bytes(r) == header_seal_of(key@, nonce@, frame@),
        r is Some ==> key@.len() == HEADER_KEY_LEN && nonce@.len() == HEADER_NONCE_LEN,
        r is None ==> key@.len() != HEADER_KEY_LEN || nonce@.len() != HEADER_NONCE_LEN
            || frame@.len() > u32::MAX,
        r matches Some(ct) ==> ct@.len() == frame@.len() + HEADER_TAG_LEN,
        r matches Some(ct) ==> header_open_of(key@, nonce@, ct@) == Some(frame@),
{
    let suite = AwsLcCryptoProvider::new().cipher_suite_provider(CipherSuite::CURVE25519_CHACHA)?;
    suite.aead_seal(key, frame, None, nonce).ok()
}

/// `CipherSuiteProvider::aead_open` with no associated data. Claims that whether it opens,
/// and to what, depends on the arguments alone, that nothing opens under a key or a nonce of
/// another size than the AEAD's, and that what opens is longer than its frame by the tag. That
/// other bytes, or another key, open nothing is a matter of chance and is not stated.
#[verifier::external_body]
pub(crate) fn header_aead_open(key: &[u8], nonce: &[u8], sealed: &[u8]) -> (r: Option<Vec<u8>>)
    ensures
        opt_bytes(r) == header_open_of(key@, nonce@, sealed@),
        r is Some ==> key@.len() == HEADER_KEY_LEN && nonce@.len() == HEADER_NONCE_LEN,
        r matches Some(pt) ==> sealed@.len() == pt@.len() + HEADER_TAG_LEN,
{
    let suite = AwsLcCryptoProvider::new().cipher_suite_provider(CipherSuite::CURVE25519_CHACHA)?;
    suite.aead_open(key, sealed, None, nonce).ok().map(|pt| pt.to_vec())
}

/// `MlsMessage::from_bytes`, then `MlsMessage::epoch`. Claims that both depend on the bytes
/// alone.
#[verifier::external_body]
pub(crate) fn mls_message_epoch(bytes: &[u8]) -> (r: Option<Option<u64>>)
    ensures
        r == mls_epoch_of(bytes@),
{
    MlsMessage::from_bytes(bytes).ok().map(|message| message.epoch())
}

/// `MlsMessage::from_bytes`, then `MlsMessage::cipher_suite`. Claims that both depend on the
/// bytes alone.
#[verifier::external_body]
pub(crate) fn mls_message_cipher_suite(bytes: &[u8]) -> (r: Option<Option<u16>>)
    ensures
        r == mls_suite_of(bytes@),
{
    let message = MlsMessage::from_bytes(bytes).ok()?;
    Some(message.cipher_suite().map(|suite| suite.raw_value()))
}

/// `MlsMessage::from_bytes`, then `MlsMessage::into_key_package`, and from the key package
/// its cipher suite and its leaf's credential. Claims that these depend on the bytes alone.
#[verifier::external_body]
pub(crate) fn mls_key_package(bytes: &[u8]) -> (r: Option<(Vec<u8>, u16)>)
    ensures
        r matches Some((id, suite)) ==> key_package_of(bytes@) == Some((id@, suite)),
        r is None ==> key_package_of(bytes@) is None,
{
    let package = MlsMessage::from_bytes(bytes).ok()?.into_key_package()?;
    let suite = package.cipher_suite().raw_value();
    match &package.signing_identity().credential {
        Credential::Basic(basic) => Some((basic.identifier.clone(), suite)),
        _ => None,
    }
}

/// What the MLS stack stores for joining with a key package: the key package and its private
/// keys.
#[derive(Clone, PartialEq, Eq)]
pub struct KeyPackageSecret {
    /// The reference by which a welcome names the key package.
    pub reference: Vec<u8>,
    /// The key package itself, without the framing of an MLS message.
    pub key_package: Vec<u8>,
    pub init_key: Vec<u8>,
    pub leaf_node_key: Vec<u8>,
    /// When the key package expires, in seconds since the Unix epoch.
    pub expiration: u64,
}

/// The framing of a key package in an MLS message: version 1.0, wire format 5.
pub open spec fn key_package_framing() -> Seq<u8> {
    seq![0x00u8, 0x01u8, 0x00u8, 0x05u8]
}

/// `Client::generate_key_package_message` of a client that signs with `signing_key`, in this
/// suite. Its basic credential holds `id`, which is its public signature key too, as an agent's
/// id is. Claims that a key package that is made reads as one of this id and this suite, and
/// that what the client stored with it, to join by, holds the same key package. The private
/// keys stored are chance and the lifetime is the clock's; of these, and of whether the suite
/// is one that the provider has, nothing is stated.
#[verifier::external_body]
pub(crate) fn make_key_package(signing_key: &[u8], id: &[u8], suite: u16) -> (r: Option<
    (Vec<u8>, KeyPackageSecret),
>)
    ensures
        r matches Some((message, secret)) ==> key_package_of(message@) == Some((id@, suite)),
        r matches Some((message, secret)) ==> message@ == key_package_framing()
            + secret.key_package@,
{
    let credential = BasicCredential::new(id.to_vec()).into_credential();
    let identity = SigningIdentity::new(credential, SignaturePublicKey::from(id.to_vec()));
    let client = Client::builder()
        .identity_provider(BasicIdentityProvider::new())
        .crypto_provider(AwsLcCryptoProvider::new())
        .signing_identity(identity, SignatureSecretKey::new_slice(signing_key), suite.into())
        .build();
    let made = client.generate_key_package_message(Default::default(), Default::default(), None);
    let (reference, data) = client.key_package_store().key_packages().pop()?;
    let secret = KeyPackageSecret {
        reference, init_key: data.init_key.to_vec(), leaf_node_key: data.leaf_node_key.to_vec(),
        expiration: data.expiration, key_package: data.key_package_bytes,
    };
    Some((made.ok()?.to_bytes().ok()?, secret))
}

/// `CipherSuiteProvider::signature_key_derive_public` of an Ed25519 suite. A key is the
/// private seed followed by the public component; claims that the latter is what is returned,
/// and that a key of another length is refused. The call panics on one shorter than the seed.
#[verifier::external_body]
pub(crate) fn signing_public_key(signing_key: &[u8]) -> (r: Option<Vec<u8>>)
    requires
        signing_key@.len() >= SIGNING_SEED_LEN,
    ensures
        opt_bytes(r) == if signing_key@.len() == SIGNING_SEED_LEN + SIGNING_PUBLIC_LEN {
            Some(signing_key@.subrange(SIGNING_SEED_LEN as int, signing_key@.len() as int))
        } else {
            None
        },
{
    let suite = AwsLcCryptoProvider::new().cipher_suite_provider(CipherSuite::CURVE25519_CHACHA)?;
    let secret = SignatureSecretKey::new_slice(signing_key);
    suite.signature_key_derive_public(&secret).ok().map(|public| public.to_vec())
}

/// `zeroize::Zeroize::zeroize` on a vector: overwrites what it held and empties it. Claims
/// the emptying; that the memory behind it is overwritten is not stated.
#[verifier::external_body]
pub(crate) fn wipe(secret: &mut Vec<u8>)
    ensures
        final(secret)@.len() == 0,
{
    secret.zeroize();
}

} // verus!
