//! PSKs that bind one direction's group to the other's.

use vstd::prelude::*;
use zeroize::Zeroizing;
use crate::bytes::{append, copy_bytes};
use crate::pq::state::GroupHalf;
use crate::pq::windows::ExportRequest;
use super::error::{Result, TwoMlsError};

verus! {

/// PSK identifier: the epoch and the group that the PSK was exported from. Both parties can
/// rebuild it from group state.
#[derive(Debug, Clone, PartialEq, Eq)]
pub struct PskId {
    pub epoch: u64,
    pub group_id: Vec<u8>,
}

/// Little-endian encoding of `n` in `k` bytes.
pub open spec fn le_bytes(n: nat, k: nat) -> Seq<u8>
    decreases k,
{
    if k == 0 {
        Seq::empty()
    } else {
        seq![(n % 256) as u8] + le_bytes(n / 256, (k - 1) as nat)
    }
}

impl PskId {
    /// The linear encoding of an id: the epoch in eight little-endian bytes, then the group
    /// id.
    pub open spec fn spec_encoded(&self) -> Seq<u8> {
        le_bytes(self.epoch as nat, 8) + self.group_id@
    }

    /// The linear encoding of the id.
    pub fn encoded(&self) -> (r: Vec<u8>)
        ensures
            r@ == self.spec_encoded(),
    {
        let mut out: Vec<u8> = Vec::new();
        let mut n: u64 = self.epoch;
        let mut k: usize = 8;
        proof {
            assert(out@ + le_bytes(n as nat, 8) =~= le_bytes(self.epoch as nat, 8));
        }
        while k > 0
            invariant
                k <= 8,
                out@ + le_bytes(n as nat, k as nat) == le_bytes(self.epoch as nat, 8),
            decreases k,
        {
            let ghost before = out@;
            out.push((n % 256) as u8);
            proof {
                let rest = le_bytes((n / 256) as nat, (k - 1) as nat);
                assert(out@ + rest =~= before + (seq![(n % 256) as u8] + rest));
            }
            n = n / 256;
            k = k - 1;
        }
        proof {
            assert(out@ + le_bytes(n as nat, 0) =~= out@);
        }
        append(&mut out, self.group_id.as_slice());
        out
    }
}

proof fn lemma_le_bytes_len(n: nat, k: nat)
    ensures
        le_bytes(n, k).len() == k,
    decreases k,
{
    if k > 0 {
        lemma_le_bytes_len(n / 256, (k - 1) as nat);
    }
}

proof fn lemma_le_bytes_injective(a: nat, b: nat, k: nat)
    requires
        le_bytes(a, k) == le_bytes(b, k),
        a < vstd::arithmetic::power::pow(256, k),
        b < vstd::arithmetic::power::pow(256, k),
    ensures
        a == b,
    decreases k,
{
    vstd::arithmetic::power::lemma_pow0(256);
    if k > 0 {
        let j = (k - 1) as nat;
        vstd::arithmetic::power::lemma_pow_adds(256, 1, j);
        vstd::arithmetic::power::lemma_pow1(256);
        let p = vstd::arithmetic::power::pow(256, j);
        assert(vstd::arithmetic::power::pow(256, k) == 256 * p);
        let la = le_bytes(a, k);
        let lb = le_bytes(b, k);
        assert(la[0] == (a % 256) as u8);
        assert(lb[0] == (b % 256) as u8);
        assert(la.subrange(1, la.len() as int) =~= le_bytes(a / 256, j));
        assert(lb.subrange(1, lb.len() as int) =~= le_bytes(b / 256, j));
        assert(a / 256 < p && b / 256 < p) by (nonlinear_arith)
            requires
                a < 256 * p,
                b < 256 * p,
        ;
        lemma_le_bytes_injective(a / 256, b / 256, j);
    }
}

/// An encoded id determines the epoch and the group.
pub proof fn law_psk_id_encoding_is_injective(a: PskId, b: PskId)
    requires
        a.spec_encoded() == b.spec_encoded(),
    ensures
        a.epoch == b.epoch,
        a.group_id@ == b.group_id@,
{
    lemma_le_bytes_len(a.epoch as nat, 8);
    lemma_le_bytes_len(b.epoch as nat, 8);
    let ea = a.spec_encoded();
    let eb = b.spec_encoded();
    assert(ea.subrange(0, 8) =~= le_bytes(a.epoch as nat, 8));
    assert(eb.subrange(0, 8) =~= le_bytes(b.epoch as nat, 8));
    assert(ea.subrange(8, ea.len() as int) =~= a.group_id@);
    assert(eb.subrange(8, eb.len() as int) =~= b.group_id@);
    assert(vstd::arithmetic::power::pow(256, 8) == 0x1_0000_0000_0000_0000) by {
        reveal_with_fuel(vstd::arithmetic::power::pow, 9);
    }
    lemma_le_bytes_injective(a.epoch as nat, b.epoch as nat, 8);
}

/// Secret bytes in a `zeroize::Zeroizing` container.
#[verifier::external_body]
pub struct SecretBytes {
    held: Zeroizing<Vec<u8>>,
}

/// The bytes that a container holds.
pub uninterp spec fn secret_bytes(secret: SecretBytes) -> Seq<u8>;

/// `zeroize::Zeroizing::new`. Claims that the container holds the bytes; that it wipes them
/// when it is dropped is not stated.
#[verifier::external_body]
fn guard(bytes: Vec<u8>) -> (r: SecretBytes)
    ensures
        secret_bytes(r) == bytes@,
{
    SecretBytes { held: Zeroizing::new(bytes) }
}

/// `zeroize::Zeroizing`'s `deref`. Claims that it gives what the container holds.
#[verifier::external_body]
fn guarded(secret: &SecretBytes) -> (r: &[u8])
    ensures
        r@ == secret_bytes(*secret),
{
    secret.held.as_slice()
}

/// A PSK exported from a send group, with the id it must be registered under. The secret is
/// wiped when it is dropped.
pub struct BoundPsk {
    bytes: SecretBytes,
    pub id: PskId,
}

/// The secret bytes, and the epoch and the group id of the id.
impl View for BoundPsk {
    type V = (Seq<u8>, (u64, Seq<u8>));

    closed spec fn view(&self) -> (Seq<u8>, (u64, Seq<u8>)) {
        (secret_bytes(self.bytes), (self.id.epoch, self.id.group_id@))
    }
}

impl BoundPsk {
    /// A PSK of these bytes and this id.
    pub fn new(bytes: Vec<u8>, id: PskId) -> (r: BoundPsk)
        ensures
            r@ == (bytes@, (id.epoch, id.group_id@)),
    {
        BoundPsk { bytes: guard(bytes), id }
    }

    /// The secret bytes.
    pub fn as_bytes(&self) -> (r: &[u8])
        ensures
            r@ == self@.0,
    {
        guarded(&self.bytes)
    }
}

/// Length of an exported PSK.
pub const PSK_LEN: usize = 32;

/// The context of the PSK exporter, "derive".
pub open spec fn psk_context() -> Seq<u8> {
    seq![0x64u8, 0x65, 0x72, 0x69, 0x76, 0x65]
}

/// The PSK exporter of a send group.
pub fn psk_secret() -> (r: ExportRequest)
    ensures
        r.label@ == "exportSecret"@,
        r.context@ == psk_context(),
        r.len == PSK_LEN,
{
    let context: Vec<u8> = vec![0x64, 0x65, 0x72, 0x69, 0x76, 0x65];
    proof {
        assert(context@ =~= psk_context());
    }
    ExportRequest { label: "exportSecret", context, len: PSK_LEN }
}

/// The PSK of a send group at its current epoch; `exported` is what its PSK exporter gave.
pub fn export_psk(send_group: &GroupHalf, exported: Option<Vec<u8>>) -> (r: Result<BoundPsk>)
    ensures
        match (exported, r) {
            (Some(bytes), Ok(psk)) => {
                &&& bytes@.len() == PSK_LEN
                &&& psk@ == (bytes@, (send_group.epoch, send_group.group_id@))
            },
            (Some(bytes), Err(e)) => bytes@.len() != PSK_LEN && e == TwoMlsError::PskBinding,
            (None, Err(e)) => e == TwoMlsError::PskBinding,
            (None, Ok(_)) => false,
        },
{
    let bytes = match exported {
        None => return Err(TwoMlsError::PskBinding),
        Some(bytes) => bytes,
    };
    if bytes.len() != PSK_LEN {
        return Err(TwoMlsError::PskBinding);
    }
    let id = PskId {
        epoch: send_group.epoch,
        group_id: copy_bytes(send_group.group_id.as_slice()),
    };
    Ok(BoundPsk::new(bytes, id))
}

} // verus!
