//! Checks on what the peer presents before a group is built around it: key packages,
//! welcomes and the session id that both founding identities give.

use vstd::prelude::*;
use crate::types::{ClientId, CombinerKeyPackage, SessionId};
use super::error::{Result, TwoMlsPqError};
use super::frames::{
    decode2, encode2, is_tagged, law_sections_are_injective, lengths_fit, parts2, sections, tagged,
};
use super::providers::{
    key_package_of, mls_key_package, mls_message_cipher_suite, mls_suite_of, sha256, sha256_of,
};
use super::state::ApqCipherSuite;

verus! {

// ---- suites ----

/// The verdict on a welcome of which `named` is the cipher suite: not a message at all, or
/// one of another suite than expected.
pub fn welcome_suite_verdict(named: Option<Option<u16>>, expected: u16) -> (r: Result<()>)
    ensures
        r == match named {
            None => Err::<(), TwoMlsPqError>(TwoMlsPqError::Mls),
            Some(suite) => if suite == Some(expected) {
                Ok(())
            } else {
                Err(TwoMlsPqError::CipherSuiteMismatch)
            },
        },
{
    match named {
        None => Err(TwoMlsPqError::Mls),
        Some(Some(suite)) => {
            if suite == expected {
                Ok(())
            } else {
                Err(TwoMlsPqError::CipherSuiteMismatch)
            }
        },
        Some(None) => Err(TwoMlsPqError::CipherSuiteMismatch),
    }
}

/// What checking a welcome's suite gives.
pub open spec fn welcome_suite_check(welcome: Seq<u8>, expected: u16) -> Result<()> {
    match mls_suite_of(welcome) {
        None => Err(TwoMlsPqError::Mls),
        Some(suite) => if suite == Some(expected) {
            Ok(())
        } else {
            Err(TwoMlsPqError::CipherSuiteMismatch)
        },
    }
}

/// A welcome carries its suite in cleartext, so a mismatch is found before the join.
pub fn check_welcome_suite(welcome: &[u8], expected: u16) -> (r: Result<()>)
    ensures
        r == welcome_suite_check(welcome@, expected),
{
    welcome_suite_verdict(mls_message_cipher_suite(welcome), expected)
}

/// What checking the halves of a combiner welcome gives. An empty half is not checked.
pub open spec fn welcome_halves_check(
    suite: ApqCipherSuite,
    classical: Seq<u8>,
    pq: Seq<u8>,
) -> Result<()> {
    let first = if classical.len() == 0 {
        Ok(())
    } else {
        welcome_suite_check(classical, suite.classical)
    };
    match first {
        Err(e) => Err(e),
        Ok(()) => if pq.len() == 0 {
            Ok(())
        } else {
            welcome_suite_check(pq, suite.pq)
        },
    }
}

/// Check the suites of a combiner welcome's halves against the session's pair.
pub fn validate_welcome_halves(suite: ApqCipherSuite, classical: &[u8], pq: &[u8]) -> (r: Result<
    (),
>)
    ensures
        r == welcome_halves_check(suite, classical@, pq@),
{
    if classical.len() > 0 {
        match check_welcome_suite(classical, suite.classical) {
            Err(e) => return Err(e),
            Ok(()) => {},
        }
    }
    if pq.len() > 0 {
        match check_welcome_suite(pq, suite.pq) {
            Err(e) => return Err(e),
            Ok(()) => {},
        }
    }
    Ok(())
}

/// What checking a key package's suite gives.
pub open spec fn key_package_suite_check(kp: Seq<u8>, expected: u16) -> Result<()> {
    match key_package_of(kp) {
        None => Err(TwoMlsPqError::InvalidKeyPackage),
        Some((_, suite)) => if suite == expected {
            Ok(())
        } else {
            Err(TwoMlsPqError::CipherSuiteMismatch)
        },
    }
}

/// The client id and the suite of an MLS-encoded key package.
pub fn parse_mls_key_package(bytes: &[u8]) -> (r: Result<(ClientId, u16)>)
    ensures
        match key_package_of(bytes@) {
            Some((id, suite)) => r matches Ok((i, s)) && i@ == id && s == suite,
            None => r == Err::<(ClientId, u16), TwoMlsPqError>(TwoMlsPqError::InvalidKeyPackage),
        },
{
    match mls_key_package(bytes) {
        Some((id, suite)) => Ok((ClientId { bytes: id }, suite)),
        None => Err(TwoMlsPqError::InvalidKeyPackage),
    }
}

/// Check a key package's suite before a group is stood up around it.
pub fn check_key_package_suite(kp: &[u8], expected: u16) -> (r: Result<()>)
    ensures
        r == key_package_suite_check(kp@, expected),
{
    match parse_mls_key_package(kp) {
        Err(e) => Err(e),
        Ok((_, suite)) => {
            if suite == expected {
                Ok(())
            } else {
                Err(TwoMlsPqError::CipherSuiteMismatch)
            }
        },
    }
}

// ---- the peer's key package pair ----

/// What validating a key package pair gives: the client that both halves name. A pair of two
/// classical halves offers no post-quantum protection; any other pair of wrong suites is a
/// mismatch.
pub open spec fn combiner_kp_check(
    suite: ApqCipherSuite,
    classical: Option<(Seq<u8>, u16)>,
    pq: Option<(Seq<u8>, u16)>,
) -> Result<Seq<u8>> {
    match (classical, pq) {
        (Some((id, cs)), Some((other, ps))) => if cs == suite.classical && ps == suite.pq {
            if id == other {
                Ok(id)
            } else {
                Err(TwoMlsPqError::InvalidKeyPackage)
            }
        } else if cs == suite.classical && ps == suite.classical {
            Err(TwoMlsPqError::PqNotAvailable)
        } else {
            Err(TwoMlsPqError::CipherSuiteMismatch)
        },
        _ => Err(TwoMlsPqError::InvalidKeyPackage),
    }
}

/// The verdict on the parsed halves of a key package pair.
pub fn combiner_kp_verdict(
    suite: ApqCipherSuite,
    classical: (ClientId, u16),
    pq: (ClientId, u16),
) -> (r: Result<ClientId>)
    ensures
        match combiner_kp_check(
            suite,
            Some((classical.0@, classical.1)),
            Some((pq.0@, pq.1)),
        ) {
            Ok(id) => r matches Ok(i) && i@ == id,
            Err(e) => r == Err::<ClientId, TwoMlsPqError>(e),
        },
{
    if classical.1 == suite.classical && pq.1 == suite.pq {
        if classical.0.same(&pq.0) {
            Ok(classical.0)
        } else {
            Err(TwoMlsPqError::InvalidKeyPackage)
        }
    } else if classical.1 == suite.classical && pq.1 == suite.classical {
        Err(TwoMlsPqError::PqNotAvailable)
    } else {
        Err(TwoMlsPqError::CipherSuiteMismatch)
    }
}

/// Validate the peer's key package pair against the session's suites.
pub fn validate_combiner_kp(suite: ApqCipherSuite, kp: &CombinerKeyPackage) -> (r: Result<
    ClientId,
>)
    ensures
        match combiner_kp_check(suite, key_package_of(kp.classical@), key_package_of(kp.pq@)) {
            Ok(id) => r matches Ok(i) && i@ == id,
            Err(e) => r == Err::<ClientId, TwoMlsPqError>(e),
        },
{
    match (parse_mls_key_package(kp.classical.as_slice()), parse_mls_key_package(kp.pq.as_slice())) {
        (Ok(classical), Ok(pq)) => combiner_kp_verdict(suite, classical, pq),
        _ => Err(TwoMlsPqError::InvalidKeyPackage),
    }
}

// ---- the pair on the wire ----

/// The version byte of an encoded key package pair.
pub const COMBINER_KP_VERSION: u8 = 2;

/// Encode a key package pair: the version byte, then both key packages as sections.
pub fn encode_combiner_key_package(kp: CombinerKeyPackage) -> (r: Vec<u8>)
    ensures
        r@ == tagged(COMBINER_KP_VERSION, parts2(kp.classical@, kp.pq@)),
{
    encode2(COMBINER_KP_VERSION, kp.classical.as_slice(), kp.pq.as_slice())
}

/// Decode a key package pair. Any other version is refused.
pub fn decode_combiner_key_package(bytes: Vec<u8>) -> (r: Result<CombinerKeyPackage>)
    ensures
        match r {
            Ok(kp) => is_tagged(bytes@, COMBINER_KP_VERSION, parts2(kp.classical@, kp.pq@)),
            Err(e) => e == TwoMlsPqError::InvalidKeyPackage && forall|a: Seq<u8>, b: Seq<u8>|
                !#[trigger] is_tagged(bytes@, COMBINER_KP_VERSION, parts2(a, b)),
        },
{
    match decode2(bytes.as_slice(), COMBINER_KP_VERSION) {
        Ok((classical, pq)) => Ok(CombinerKeyPackage { classical, pq }),
        Err(_) => Err(TwoMlsPqError::InvalidKeyPackage),
    }
}

// ---- the session id ----

/// Lexicographic order on byte strings.
pub open spec fn lex_le(a: Seq<u8>, b: Seq<u8>) -> bool
    decreases a.len(),
{
    if a.len() == 0 {
        true
    } else if b.len() == 0 {
        false
    } else if a[0] != b[0] {
        a[0] < b[0]
    } else {
        lex_le(a.subrange(1, a.len() as int), b.subrange(1, b.len() as int))
    }
}

proof fn lemma_lex_total(a: Seq<u8>, b: Seq<u8>)
    ensures
        lex_le(a, b) || lex_le(b, a),
        lex_le(a, b) && lex_le(b, a) ==> a == b,
    decreases a.len(),
{
    if a.len() == 0 || b.len() == 0 {
        if a.len() == 0 && b.len() == 0 {
            assert(a =~= b);
        }
    } else {
        let ta = a.subrange(1, a.len() as int);
        let tb = b.subrange(1, b.len() as int);
        lemma_lex_total(ta, tb);
        if a[0] == b[0] && lex_le(ta, tb) && lex_le(tb, ta) {
            assert(a =~= seq![a[0]] + ta);
            assert(b =~= seq![b[0]] + tb);
        }
    }
}

fn bytes_le(a: &[u8], b: &[u8]) -> (r: bool)
    ensures
        r == lex_le(a@, b@),
{
    let mut i: usize = 0;
    proof {
        assert(a@.subrange(0, a@.len() as int) =~= a@);
        assert(b@.subrange(0, b@.len() as int) =~= b@);
    }
    while i < a.len() && i < b.len()
        invariant
            i <= a@.len(),
            i <= b@.len(),
            lex_le(a@, b@) == lex_le(
                a@.subrange(i as int, a@.len() as int),
                b@.subrange(i as int, b@.len() as int),
            ),
        decreases a@.len() - i,
    {
        proof {
            let ra = a@.subrange(i as int, a@.len() as int);
            let rb = b@.subrange(i as int, b@.len() as int);
            assert(ra.subrange(1, ra.len() as int) =~= a@.subrange(i + 1, a@.len() as int));
            assert(rb.subrange(1, rb.len() as int) =~= b@.subrange(i + 1, b@.len() as int));
        }
        if a[i] != b[i] {
            return a[i] < b[i];
        }
        i += 1;
    }
    i == a.len()
}

/// The founding pair in a fixed order, as sections.
pub open spec fn session_id_preimage(a: Seq<u8>, b: Seq<u8>) -> Seq<u8> {
    if lex_le(a, b) {
        sections(parts2(a, b))
    } else {
        sections(parts2(b, a))
    }
}

/// The session id of a founding pair: the digest of both ids in a fixed order.
pub fn derive_session_id(a: &ClientId, b: &ClientId) -> (r: SessionId)
    ensures
        r@ == sha256_of(session_id_preimage(a@, b@)),
{
    let mut framed = if bytes_le(a.bytes.as_slice(), b.bytes.as_slice()) {
        encode2(0, a.bytes.as_slice(), b.bytes.as_slice())
    } else {
        encode2(0, b.bytes.as_slice(), a.bytes.as_slice())
    };
    let _tag = framed.remove(0);
    proof {
        assert(framed@ =~= session_id_preimage(a@, b@));
    }
    SessionId { bytes: sha256(framed.as_slice()) }
}

/// Both sides of a pair derive the same session id.
pub proof fn law_session_id_is_symmetric(a: Seq<u8>, b: Seq<u8>)
    ensures
        session_id_preimage(a, b) == session_id_preimage(b, a),
{
    lemma_lex_total(a, b);
}

/// Different pairs are hashed from different bytes.
pub proof fn law_session_id_separates_pairs(a: Seq<u8>, b: Seq<u8>, c: Seq<u8>, d: Seq<u8>)
    requires
        a.len() <= u32::MAX,
        b.len() <= u32::MAX,
        c.len() <= u32::MAX,
        d.len() <= u32::MAX,
        session_id_preimage(a, b) == session_id_preimage(c, d),
    ensures
        (a == c && b == d) || (a == d && b == c),
{
    let p = if lex_le(a, b) {
        parts2(a, b)
    } else {
        parts2(b, a)
    };
    let q = if lex_le(c, d) {
        parts2(c, d)
    } else {
        parts2(d, c)
    };
    assert(lengths_fit(p) && lengths_fit(q));
    law_sections_are_injective(p, q);
    assert(p[0] == q[0] && p[1] == q[1]);
}

} // verus!
