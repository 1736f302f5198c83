//! Byte strings: comparison, copying and the fixed-width integers of the wire formats.

use vstd::prelude::*;

verus! {

/// The bytes an optional byte string holds.
pub open spec fn opt_bytes(o: Option<Vec<u8>>) -> Option<Seq<u8>> {
    match o {
        Some(v) => Some(v@),
        None => None,
    }
}

/// The bytes of every entry of a list of byte strings.
pub open spec fn all_bytes(v: Seq<Vec<u8>>) -> Seq<Seq<u8>> {
    Seq::new(v.len(), |i: int| v[i]@)
}

/// Little-endian encoding of the low 32 bits of `n`.
pub open spec fn le32(n: nat) -> Seq<u8> {
    seq![
        (n % 256) as u8,
        ((n / 256) % 256) as u8,
        ((n / 65536) % 256) as u8,
        ((n / 16777216) % 256) as u8,
    ]
}

/// The number whose little-endian encoding is the first four bytes of `b`.
pub open spec fn from_le32(b: Seq<u8>) -> nat {
    (b[0] as nat + 256 * (b[1] as nat) + 65536 * (b[2] as nat) + 16777216 * (b[3] as nat)) as nat
}

pub proof fn lemma_le32_round_trip(n: nat)
    requires
        n <= u32::MAX,
    ensures
        from_le32(le32(n)) == n,
        le32(n).len() == 4,
{
    let m: u32 = n as u32;
    assert(m % 256 + 256 * ((m / 256) % 256) + 65536 * ((m / 65536) % 256) + 16777216 * ((m
        / 16777216) % 256) == m) by (bit_vector);
}

pub proof fn lemma_from_le32_bound(b: Seq<u8>)
    requires
        b.len() >= 4,
    ensures
        from_le32(b) <= u32::MAX,
{
}

pub proof fn lemma_from_le32_round_trip(b: Seq<u8>)
    requires
        b.len() >= 4,
    ensures
        le32(from_le32(b)) == b.subrange(0, 4),
{
    let b0: u32 = b[0] as u32;
    let b1: u32 = b[1] as u32;
    let b2: u32 = b[2] as u32;
    let b3: u32 = b[3] as u32;
    let n = from_le32(b);
    lemma_from_le32_bound(b);
    let m: u32 = n as u32;
    assert(m == b0 + 256 * b1 + 65536 * b2 + 16777216 * b3);
    assert(m % 256 == b0 && (m / 256) % 256 == b1 && (m / 65536) % 256 == b2 && (m / 16777216)
        % 256 == b3) by (bit_vector)
        requires
            m == b0 + 256 * b1 + 65536 * b2 + 16777216 * b3,
            b0 < 256,
            b1 < 256,
            b2 < 256,
            b3 < 256,
    ;
    assert(le32(n) =~= b.subrange(0, 4));
}

/// Whether two byte strings hold the same bytes.
pub fn bytes_eq(a: &[u8], b: &[u8]) -> (r: bool)
    ensures
        r == (a@ == b@),
{
    if a.len() != b.len() {
        return false;
    }
    let mut i: usize = 0;
    while i < a.len()
        invariant
            i <= a.len(),
            a.len() == b.len(),
            forall|j: int| 0 <= j < i ==> a@[j] == b@[j],
        decreases a.len() - i,
    {
        if a[i] != b[i] {
            return false;
        }
        i += 1;
    }
    proof {
        assert(a@ =~= b@);
    }
    true
}

/// Whether an optional byte string is present and holds exactly `b`.
pub fn opt_bytes_is(o: &Option<Vec<u8>>, b: &[u8]) -> (r: bool)
    ensures
        r == (opt_bytes(*o) == Some(b@)),
{
    match o {
        Some(v) => bytes_eq(v.as_slice(), b),
        None => false,
    }
}

/// Whether two optional byte strings agree.
pub fn opt_bytes_eq(a: &Option<Vec<u8>>, b: &Option<Vec<u8>>) -> (r: bool)
    ensures
        r == (opt_bytes(*a) == opt_bytes(*b)),
{
    match (a, b) {
        (Some(x), Some(y)) => bytes_eq(x.as_slice(), y.as_slice()),
        (None, None) => true,
        _ => false,
    }
}

/// A fresh copy of a byte string.
pub fn copy_bytes(a: &[u8]) -> (r: Vec<u8>)
    ensures
        r@ == a@,
{
    vstd::slice::slice_to_vec(a)
}

/// A fresh copy of an optional byte string.
pub fn copy_opt(a: &Option<Vec<u8>>) -> (r: Option<Vec<u8>>)
    ensures
        opt_bytes(r) == opt_bytes(*a),
{
    match a {
        Some(v) => Some(copy_bytes(v.as_slice())),
        None => None,
    }
}

/// Whether `b` is one of the byte strings of a list.
pub fn contains_bytes(list: &Vec<Vec<u8>>, b: &[u8]) -> (r: bool)
    ensures
        r == all_bytes(list@).contains(b@),
{
    let ghost all = all_bytes(list@);
    let mut i: usize = 0;
    while i < list.len()
        invariant
            i <= list.len(),
            all == all_bytes(list@),
            forall|j: int| 0 <= j < i ==> #[trigger] all[j] != b@,
        decreases list.len() - i,
    {
        if bytes_eq(list[i].as_slice(), b) {
            proof {
                assert(all[i as int] == b@);
            }
            return true;
        }
        i += 1;
    }
    false
}

/// Append `part` to `out`.
pub fn append(out: &mut Vec<u8>, part: &[u8])
    ensures
        final(out)@ == old(out)@ + part@,
{
    out.extend_from_slice(part);
    proof {
        assert(out@ =~= old(out)@ + part@);
    }
}

/// Append the little-endian encoding of the low 32 bits of `n`.
pub fn push_le32(out: &mut Vec<u8>, n: usize)
    ensures
        final(out)@ == old(out)@ + le32(n as nat),
{
    out.push((n % 256) as u8);
    out.push(((n / 256) % 256) as u8);
    out.push(((n / 65536) % 256) as u8);
    out.push(((n / 16777216) % 256) as u8);
    proof {
        assert(out@ =~= old(out)@ + le32(n as nat));
    }
}

/// Read the little-endian number that `b` starts with.
pub fn read_le32(b: &[u8]) -> (n: usize)
    requires
        b@.len() >= 4,
    ensures
        n == from_le32(b@),
        n <= u32::MAX,
{
    proof {
        lemma_from_le32_bound(b@);
    }
    let n: u32 = b[0] as u32 + 256 * (b[1] as u32) + 65536 * (b[2] as u32) + 16777216 * (
    b[3] as u32);
    n as usize
}

/// The part of `b` from `at` on.
pub fn tail(b: &[u8], at: usize) -> (r: &[u8])
    requires
        at <= b@.len(),
    ensures
        r@ == b@.subrange(at as int, b@.len() as int),
{
    vstd::slice::slice_subrange(b, at, b.len())
}

/// The first byte of a byte string, if it has one.
pub open spec fn first_byte(b: Seq<u8>) -> Option<u8> {
    if b.len() == 0 {
        None
    } else {
        Some(b[0])
    }
}

/// Whether `b` starts with the byte `tag`.
pub fn starts_with(b: &[u8], tag: u8) -> (r: bool)
    ensures
        r == (first_byte(b@) == Some(tag)),
{
    b.len() > 0 && b[0] == tag
}

} // verus!
