//! The presentation format that archives are written in: big-endian integers, one byte of
//! presence before an optional value, and a variable-size length in bytes before a list.
//!
//! A type says what it is written as, writes itself, and reads itself back. What it is
//! written as can be read in one way only, whatever follows.

use vstd::prelude::*;
use crate::bytes::{append, tail};

verus! {

/// The largest length, in bytes, of a list.
pub const MAX_LIST_BYTES: usize = 0x3FFF_FFFF;

/// A value that can be written to an archive.
pub trait Wire: DeepView + Sized {
    /// Whether every list in the value is short enough to be written.
    spec fn fits(v: Self::V) -> bool;

    /// What a value is written as.
    spec fn enc(v: Self::V) -> Seq<u8>;

    /// Write the value, unless it does not fit.
    fn write(&self, out: &mut Vec<u8>) -> (ok: bool)
        ensures
            ok == Self::fits(self.deep_view()),
            ok ==> final(out)@ == old(out)@ + Self::enc(self.deep_view()),
    ;

    /// Read a value off the front of `input`, and the number of bytes that it takes. `None` if
    /// `input` does not start with one.
    fn read(input: &[u8]) -> (r: Option<(Self, usize)>)
        ensures
            match r {
                Some((v, n)) => {
                    &&& n <= input@.len()
                    &&& Self::fits(v.deep_view())
                    &&& input@.subrange(0, n as int) == Self::enc(v.deep_view())
                },
                None => forall|v: Self::V, rest: Seq<u8>|
                    Self::fits(v) ==> input@ != #[trigger] (Self::enc(v) + rest),
            },
    ;

    /// What a value is written as takes at least one byte.
    proof fn lemma_nonempty(v: Self::V)
        requires
            Self::fits(v),
        ensures
            Self::enc(v).len() > 0,
    ;

    /// A value is read in one way only, whatever follows it.
    proof fn lemma_unique(a: Self::V, x: Seq<u8>, b: Self::V, y: Seq<u8>)
        requires
            Self::fits(a),
            Self::fits(b),
            Self::enc(a) + x == Self::enc(b) + y,
        ensures
            a == b,
            x == y,
    ;
}

/// Two strings of which the first parts are equally long are equal part by part.
proof fn lemma_split(a: Seq<u8>, x: Seq<u8>, b: Seq<u8>, y: Seq<u8>)
    requires
        a + x == b + y,
        a.len() == b.len(),
    ensures
        a == b,
        x == y,
{
    let s = a + x;
    assert(s.subrange(0, a.len() as int) =~= a);
    assert(s.subrange(0, a.len() as int) =~= b);
    assert(s.subrange(a.len() as int, s.len() as int) =~= x);
    assert(s.subrange(a.len() as int, s.len() as int) =~= y);
}

// ---- integers ----

impl Wire for u8 {
    open spec fn fits(v: u8) -> bool {
        true
    }

    open spec fn enc(v: u8) -> Seq<u8> {
        seq![v]
    }

    fn write(&self, out: &mut Vec<u8>) -> (ok: bool) {
        out.push(*self);
        proof {
            assert(out@ =~= old(out)@ + Self::enc(self.deep_view()));
        }
        true
    }

    fn read(input: &[u8]) -> (r: Option<(Self, usize)>) {
        if input.len() == 0 {
            proof {
                assert forall|v: u8, rest: Seq<u8>| input@ != #[trigger] (Self::enc(v) + rest) by {
                    assert((Self::enc(v) + rest).len() > 0);
                }
            }
            return None;
        }
        let v: u8 = input[0];
        proof {
            assert(input@.subrange(0, 1) =~= Self::enc(v));
        }
        Some((v, 1))
    }

    proof fn lemma_nonempty(v: u8) {
    }

    proof fn lemma_unique(a: u8, x: Seq<u8>, b: u8, y: Seq<u8>) {
        lemma_split(Self::enc(a), x, Self::enc(b), y);
        assert(Self::enc(a)[0] == Self::enc(b)[0]);
    }
}

impl Wire for u16 {
    open spec fn fits(v: u16) -> bool {
        true
    }

    open spec fn enc(v: u16) -> Seq<u8> {
        seq![(v / 256) as u8, (v % 256) as u8]
    }

    fn write(&self, out: &mut Vec<u8>) -> (ok: bool) {
        out.push((*self / 256) as u8);
        out.push((*self % 256) as u8);
        proof {
            assert(out@ =~= old(out)@ + Self::enc(self.deep_view()));
        }
        true
    }

    fn read(input: &[u8]) -> (r: Option<(Self, usize)>) {
        if input.len() < 2 {
            proof {
                assert forall|v: u16, rest: Seq<u8>| input@ != #[trigger] (Self::enc(v) + rest) by {
                    assert((Self::enc(v) + rest).len() >= 2);
                }
            }
            return None;
        }
        let v: u16 = input[0] as u16 * 256 + input[1] as u16;
        proof {
            assert(input@.subrange(0, 2) =~= Self::enc(v));
        }
        Some((v, 2))
    }

    proof fn lemma_nonempty(v: u16) {
    }

    proof fn lemma_unique(a: u16, x: Seq<u8>, b: u16, y: Seq<u8>) {
        lemma_split(Self::enc(a), x, Self::enc(b), y);
        assert(Self::enc(a)[0] == Self::enc(b)[0]);
        assert(Self::enc(a)[1] == Self::enc(b)[1]);
    }
}

/// Read the big-endian number that `input` starts with.
fn read_be32(input: &[u8]) -> (v: u32)
    requires
        input@.len() >= 4,
    ensures
        input@.subrange(0, 4) == u32::enc(v),
{
    let hi: u16 = input[0] as u16 * 256 + input[1] as u16;
    let lo: u16 = input[2] as u16 * 256 + input[3] as u16;
    let v: u32 = hi as u32 * 65536 + lo as u32;
    proof {
        assert(v / 65536 == hi && v % 65536 == lo);
        assert(u16::enc(hi) =~= seq![input@[0], input@[1]]);
        assert(u16::enc(lo) =~= seq![input@[2], input@[3]]);
        assert(input@.subrange(0, 4) =~= u16::enc(hi) + u16::enc(lo));
    }
    v
}

impl Wire for u32 {
    open spec fn fits(v: u32) -> bool {
        true
    }

    open spec fn enc(v: u32) -> Seq<u8> {
        u16::enc((v / 65536) as u16) + u16::enc((v % 65536) as u16)
    }

    fn write(&self, out: &mut Vec<u8>) -> (ok: bool) {
        let hi: u16 = (*self / 65536) as u16;
        let lo: u16 = (*self % 65536) as u16;
        hi.write(out);
        lo.write(out);
        proof {
            assert(out@ =~= old(out)@ + Self::enc(self.deep_view()));
        }
        true
    }

    fn read(input: &[u8]) -> (r: Option<(Self, usize)>) {
        if input.len() < 4 {
            proof {
                assert forall|v: u32, rest: Seq<u8>| input@ != #[trigger] (Self::enc(v) + rest) by {
                    assert((Self::enc(v) + rest).len() >= 4);
                }
            }
            return None;
        }
        Some((read_be32(input), 4))
    }

    proof fn lemma_nonempty(v: u32) {
    }

    proof fn lemma_unique(a: u32, x: Seq<u8>, b: u32, y: Seq<u8>) {
        lemma_split(Self::enc(a), x, Self::enc(b), y);
        u16::lemma_unique(
            (a / 65536) as u16,
            u16::enc((a % 65536) as u16),
            (b / 65536) as u16,
            u16::enc((b % 65536) as u16),
        );
        let none = Seq::<u8>::empty();
        u16::lemma_unique((a % 65536) as u16, none, (b % 65536) as u16, none);
    }
}

impl Wire for u64 {
    open spec fn fits(v: u64) -> bool {
        true
    }

    open spec fn enc(v: u64) -> Seq<u8> {
        u32::enc((v / 0x1_0000_0000) as u32) + u32::enc((v % 0x1_0000_0000) as u32)
    }

    fn write(&self, out: &mut Vec<u8>) -> (ok: bool) {
        let hi: u32 = (*self / 0x1_0000_0000) as u32;
        let lo: u32 = (*self % 0x1_0000_0000) as u32;
        hi.write(out);
        lo.write(out);
        proof {
            assert(out@ =~= old(out)@ + Self::enc(self.deep_view()));
        }
        true
    }

    fn read(input: &[u8]) -> (r: Option<(Self, usize)>) {
        if input.len() < 8 {
            proof {
                assert forall|v: u64, rest: Seq<u8>| input@ != #[trigger] (Self::enc(v) + rest) by {
                    assert((Self::enc(v) + rest).len() >= 8);
                }
            }
            return None;
        }
        let hi: u32 = read_be32(input);
        let lo: u32 = read_be32(tail(input, 4));
        let v: u64 = hi as u64 * 0x1_0000_0000 + lo as u64;
        proof {
            assert(v / 0x1_0000_0000 == hi && v % 0x1_0000_0000 == lo);
            assert(input@.subrange(0, 8) =~= input@.subrange(0, 4) + input@.subrange(4, 8));
            assert(input@.subrange(4, input@.len() as int).subrange(0, 4) =~= input@.subrange(4, 8));
        }
        Some((v, 8))
    }

    proof fn lemma_nonempty(v: u64) {
    }

    proof fn lemma_unique(a: u64, x: Seq<u8>, b: u64, y: Seq<u8>) {
        lemma_split(Self::enc(a), x, Self::enc(b), y);
        u32::lemma_unique(
            (a / 0x1_0000_0000) as u32,
            u32::enc((a % 0x1_0000_0000) as u32),
            (b / 0x1_0000_0000) as u32,
            u32::enc((b % 0x1_0000_0000) as u32),
        );
        let none = Seq::<u8>::empty();
        u32::lemma_unique((a % 0x1_0000_0000) as u32, none, (b % 0x1_0000_0000) as u32, none);
    }
}

impl Wire for bool {
    open spec fn fits(v: bool) -> bool {
        true
    }

    open spec fn enc(v: bool) -> Seq<u8> {
        if v {
            seq![1u8]
        } else {
            seq![0u8]
        }
    }

    fn write(&self, out: &mut Vec<u8>) -> (ok: bool) {
        if *self {
            out.push(1);
        } else {
            out.push(0);
        }
        proof {
            assert(out@ =~= old(out)@ + Self::enc(self.deep_view()));
        }
        true
    }

    fn read(input: &[u8]) -> (r: Option<(Self, usize)>) {
        if input.len() == 0 || input[0] > 1 {
            proof {
                assert forall|v: bool, rest: Seq<u8>| input@ != #[trigger] (Self::enc(v)
                    + rest) by {
                    assert((Self::enc(v) + rest)[0] <= 1);
                    assert((Self::enc(v) + rest).len() > 0);
                }
            }
            return None;
        }
        let v: bool = input[0] == 1;
        proof {
            assert(input@.subrange(0, 1) =~= Self::enc(v));
        }
        Some((v, 1))
    }

    proof fn lemma_nonempty(v: bool) {
    }

    proof fn lemma_unique(a: bool, x: Seq<u8>, b: bool, y: Seq<u8>) {
        lemma_split(Self::enc(a), x, Self::enc(b), y);
        assert(Self::enc(a)[0] == Self::enc(b)[0]);
    }
}

// ---- pairs and optional values ----

impl<A: Wire, B: Wire> Wire for (A, B) {
    open spec fn fits(v: (A::V, B::V)) -> bool {
        A::fits(v.0) && B::fits(v.1)
    }

    open spec fn enc(v: (A::V, B::V)) -> Seq<u8> {
        A::enc(v.0) + B::enc(v.1)
    }

    fn write(&self, out: &mut Vec<u8>) -> (ok: bool) {
        if !self.0.write(out) {
            return false;
        }
        if !self.1.write(out) {
            return false;
        }
        proof {
            assert(out@ =~= old(out)@ + Self::enc(self.deep_view()));
        }
        true
    }

    fn read(input: &[u8]) -> (r: Option<(Self, usize)>) {
        let (a, n): (A, usize) = match A::read(input) {
            None => {
                proof {
                    assert forall|v: (A::V, B::V), rest: Seq<u8>| Self::fits(v) implies input@
                        != #[trigger] (Self::enc(v) + rest) by {
                        assert(Self::enc(v) + rest =~= A::enc(v.0) + (B::enc(v.1) + rest));
                    }
                }
                return None;
            },
            Some(read) => read,
        };
        let total: usize = input.len();
        let left = tail(input, n);
        let (b, m): (B, usize) = match B::read(left) {
            None => {
                proof {
                    assert forall|v: (A::V, B::V), rest: Seq<u8>| Self::fits(v) implies input@
                        != #[trigger] (Self::enc(v) + rest) by {
                        if input@ == Self::enc(v) + rest {
                            assert(Self::enc(v) + rest =~= A::enc(v.0) + (B::enc(v.1) + rest));
                            assert(input@ =~= A::enc(a.deep_view()) + left@);
                            A::lemma_unique(a.deep_view(), left@, v.0, B::enc(v.1) + rest);
                        }
                    }
                }
                return None;
            },
            Some(read) => read,
        };
        proof {
            assert(n + m <= total);
            assert(input@.subrange(0, n + m) =~= input@.subrange(0, n as int) + left@.subrange(
                0,
                m as int,
            ));
        }
        Some(((a, b), n + m))
    }

    proof fn lemma_nonempty(v: (A::V, B::V)) {
        A::lemma_nonempty(v.0);
    }

    proof fn lemma_unique(a: (A::V, B::V), x: Seq<u8>, b: (A::V, B::V), y: Seq<u8>) {
        assert(Self::enc(a) + x =~= A::enc(a.0) + (B::enc(a.1) + x));
        assert(Self::enc(b) + y =~= A::enc(b.0) + (B::enc(b.1) + y));
        A::lemma_unique(a.0, B::enc(a.1) + x, b.0, B::enc(b.1) + y);
        B::lemma_unique(a.1, x, b.1, y);
    }
}

impl<T: Wire> Wire for Option<T> {
    open spec fn fits(v: Option<T::V>) -> bool {
        match v {
            Some(inner) => T::fits(inner),
            None => true,
        }
    }

    open spec fn enc(v: Option<T::V>) -> Seq<u8> {
        match v {
            Some(inner) => seq![1u8] + T::enc(inner),
            None => seq![0u8],
        }
    }

    fn write(&self, out: &mut Vec<u8>) -> (ok: bool) {
        match self {
            None => {
                out.push(0);
                proof {
                    assert(out@ =~= old(out)@ + Self::enc(self.deep_view()));
                }
                true
            },
            Some(inner) => {
                out.push(1);
                if !inner.write(out) {
                    return false;
                }
                proof {
                    assert(out@ =~= old(out)@ + Self::enc(self.deep_view()));
                }
                true
            },
        }
    }

    fn read(input: &[u8]) -> (r: Option<(Self, usize)>) {
        if input.len() == 0 || input[0] > 1 {
            proof {
                assert forall|v: Option<T::V>, rest: Seq<u8>| input@ != #[trigger] (Self::enc(v)
                    + rest) by {
                    assert((Self::enc(v) + rest)[0] <= 1);
                    assert((Self::enc(v) + rest).len() > 0);
                }
            }
            return None;
        }
        if input[0] == 0 {
            proof {
                assert(input@.subrange(0, 1) =~= Self::enc(None));
            }
            return Some((None, 1));
        }
        let left = tail(input, 1);
        match T::read(left) {
            None => {
                proof {
                    assert forall|v: Option<T::V>, rest: Seq<u8>| Self::fits(v) implies input@
                        != #[trigger] (Self::enc(v) + rest) by {
                        match v {
                            None => {
                                assert((Self::enc(v) + rest)[0] == 0);
                            },
                            Some(inner) => {
                                if input@ == Self::enc(v) + rest {
                                    assert(left@ =~= T::enc(inner) + rest);
                                }
                            },
                        }
                    }
                }
                None
            },
            Some((inner, n)) => {
                proof {
                    assert(input@.subrange(0, 1 + n) =~= seq![1u8] + left@.subrange(0, n as int));
                }
                Some((Some(inner), 1 + n))
            },
        }
    }

    proof fn lemma_nonempty(v: Option<T::V>) {
    }

    proof fn lemma_unique(a: Option<T::V>, x: Seq<u8>, b: Option<T::V>, y: Seq<u8>) {
        let ea = Self::enc(a) + x;
        let eb = Self::enc(b) + y;
        assert(ea[0] == Self::enc(a)[0] && eb[0] == Self::enc(b)[0]);
        match (a, b) {
            (Some(p), Some(q)) => {
                assert(ea.subrange(1, ea.len() as int) =~= T::enc(p) + x);
                assert(eb.subrange(1, eb.len() as int) =~= T::enc(q) + y);
                T::lemma_unique(p, x, q, y);
            },
            (None, None) => {
                lemma_split(Self::enc(a), x, Self::enc(b), y);
            },
            (Some(p), None) => {
                assert(Self::enc(a)[0] == 1 && Self::enc(b)[0] == 0);
            },
            (None, Some(q)) => {
                assert(Self::enc(a)[0] == 0 && Self::enc(b)[0] == 1);
            },
        }
    }
}

// ---- lists ----

/// What a length is written as: its two top bits say whether one, two or four bytes.
pub open spec fn enc_len(n: nat) -> Seq<u8> {
    if n < 64 {
        seq![n as u8]
    } else if n < 16384 {
        seq![(64 + n / 256) as u8, (n % 256) as u8]
    } else {
        seq![
            (128 + n / 16777216) as u8,
            ((n / 65536) % 256) as u8,
            ((n / 256) % 256) as u8,
            (n % 256) as u8,
        ]
    }
}

/// A length of four bytes is put together from them.
proof fn lemma_len4_parts(n: nat)
    requires
        n <= MAX_LIST_BYTES,
    ensures
        n == 16777216 * (n / 16777216) + 65536 * ((n / 65536) % 256) + 256 * ((n / 256) % 256) + n
            % 256,
        n / 16777216 < 64,
{
    let m: u32 = n as u32;
    assert(m == 16777216 * (m / 16777216) + 65536 * ((m / 65536) % 256) + 256 * ((m / 256) % 256)
        + m % 256) by (bit_vector);
}

/// A length that is put together from four bytes is taken apart into them.
proof fn lemma_len4_bytes(b0: nat, b1: nat, b2: nat, b3: nat)
    requires
        b0 < 64,
        b1 < 256,
        b2 < 256,
        b3 < 256,
    ensures
        ({
            let n = 16777216 * b0 + 65536 * b1 + 256 * b2 + b3;
            &&& n <= MAX_LIST_BYTES
            &&& n / 16777216 == b0
            &&& (n / 65536) % 256 == b1
            &&& (n / 256) % 256 == b2
            &&& n % 256 == b3
        }),
{
    let c0: u32 = b0 as u32;
    let c1: u32 = b1 as u32;
    let c2: u32 = b2 as u32;
    let c3: u32 = b3 as u32;
    let m: u32 = (16777216 * c0 + 65536 * c1 + 256 * c2 + c3) as u32;
    assert(m / 16777216 == c0 && (m / 65536) % 256 == c1 && (m / 256) % 256 == c2 && m % 256 == c3)
        by (bit_vector)
        requires
            m == 16777216 * c0 + 65536 * c1 + 256 * c2 + c3,
            c0 < 64,
            c1 < 256,
            c2 < 256,
            c3 < 256,
    ;
}

/// A length is read in one way only, whatever follows it.
proof fn lemma_len_unique(a: nat, x: Seq<u8>, b: nat, y: Seq<u8>)
    requires
        a <= MAX_LIST_BYTES,
        b <= MAX_LIST_BYTES,
        enc_len(a) + x == enc_len(b) + y,
    ensures
        a == b,
        x == y,
{
    let ea = enc_len(a);
    let eb = enc_len(b);
    assert((ea + x)[0] == ea[0]);
    assert((eb + y)[0] == eb[0]);
    assert(ea.len() == eb.len());
    lemma_split(ea, x, eb, y);
    assert(ea[0] == eb[0]);
    if ea.len() == 4 {
        assert(ea[1] == eb[1] && ea[2] == eb[2] && ea[3] == eb[3]);
        lemma_len4_parts(a);
        lemma_len4_parts(b);
    } else if ea.len() == 2 {
        assert(ea[1] == eb[1]);
    }
}

/// Write a length.
fn write_len(n: usize, out: &mut Vec<u8>)
    requires
        n <= MAX_LIST_BYTES,
    ensures
        final(out)@ == old(out)@ + enc_len(n as nat),
{
    if n < 64 {
        out.push(n as u8);
    } else if n < 16384 {
        out.push((64 + n / 256) as u8);
        out.push((n % 256) as u8);
    } else {
        out.push((128 + n / 16777216) as u8);
        out.push(((n / 65536) % 256) as u8);
        out.push(((n / 256) % 256) as u8);
        out.push((n % 256) as u8);
    }
    proof {
        assert(out@ =~= old(out)@ + enc_len(n as nat));
    }
}

/// Read a length, and the number of bytes that it takes. One that is written in more bytes
/// than it needs is none.
fn read_len(input: &[u8]) -> (r: Option<(usize, usize)>)
    ensures
        match r {
            Some((n, k)) => {
                &&& n <= MAX_LIST_BYTES
                &&& k <= input@.len()
                &&& input@.subrange(0, k as int) == enc_len(n as nat)
            },
            None => forall|n: nat, rest: Seq<u8>|
                n <= MAX_LIST_BYTES ==> input@ != #[trigger] (enc_len(n) + rest),
        },
{
    if input.len() == 0 {
        proof {
            assert forall|n: nat, rest: Seq<u8>| n <= MAX_LIST_BYTES implies input@
                != #[trigger] (enc_len(n) + rest) by {
                assert((enc_len(n) + rest).len() > 0);
            }
        }
        return None;
    }
    let first: usize = input[0] as usize;
    if first < 64 {
        proof {
            assert(input@.subrange(0, 1) =~= enc_len(first as nat));
        }
        return Some((first, 1));
    }
    if first < 128 {
        if input.len() < 2 {
            proof {
                assert forall|n: nat, rest: Seq<u8>| n <= MAX_LIST_BYTES implies input@
                    != #[trigger] (enc_len(n) + rest) by {
                    assert((enc_len(n) + rest)[0] == enc_len(n)[0]);
                }
            }
            return None;
        }
        let n: usize = (first - 64) * 256 + input[1] as usize;
        if n < 64 {
            proof {
                assert forall|m: nat, rest: Seq<u8>| m <= MAX_LIST_BYTES implies input@
                    != #[trigger] (enc_len(m) + rest) by {
                    assert((enc_len(m) + rest)[0] == enc_len(m)[0]);
                    if input@ == enc_len(m) + rest {
                        assert(enc_len(m).len() == 2);
                        assert((enc_len(m) + rest)[1] == enc_len(m)[1]);
                        assert(m == n);
                    }
                }
            }
            return None;
        }
        proof {
            assert(input@.subrange(0, 2) =~= enc_len(n as nat));
        }
        return Some((n, 2));
    }
    if first >= 192 || input.len() < 4 {
        proof {
            assert forall|n: nat, rest: Seq<u8>| n <= MAX_LIST_BYTES implies input@
                != #[trigger] (enc_len(n) + rest) by {
                lemma_len4_parts(n);
                assert((enc_len(n) + rest)[0] == enc_len(n)[0]);
            }
        }
        return None;
    }
    read_len4(input)
}

/// Read a length of four bytes.
fn read_len4(input: &[u8]) -> (r: Option<(usize, usize)>)
    requires
        input@.len() >= 4,
        128 <= input@[0] < 192,
    ensures
        match r {
            Some((n, k)) => {
                &&& n <= MAX_LIST_BYTES
                &&& k <= input@.len()
                &&& input@.subrange(0, k as int) == enc_len(n as nat)
            },
            None => forall|n: nat, rest: Seq<u8>|
                n <= MAX_LIST_BYTES ==> input@ != #[trigger] (enc_len(n) + rest),
        },
{
    let b0: u32 = (input[0] - 128) as u32;
    let b1: u32 = input[1] as u32;
    let b2: u32 = input[2] as u32;
    let b3: u32 = input[3] as u32;
    let n: u32 = 16777216 * b0 + 65536 * b1 + 256 * b2 + b3;
    proof {
        lemma_len4_bytes(b0 as nat, b1 as nat, b2 as nat, b3 as nat);
    }
    if n < 16384 {
        proof {
            assert forall|m: nat, rest: Seq<u8>| m <= MAX_LIST_BYTES implies input@
                != #[trigger] (enc_len(m) + rest) by {
                lemma_len4_parts(m);
                let e = enc_len(m) + rest;
                assert(e[0] == enc_len(m)[0]);
                if input@ == e {
                    assert(enc_len(m).len() == 4);
                    assert(e[1] == enc_len(m)[1] && e[2] == enc_len(m)[2] && e[3] == enc_len(m)[3]);
                }
            }
        }
        return None;
    }
    proof {
        assert(input@.subrange(0, 4) =~= enc_len(n as nat));
    }
    Some((n as usize, 4))
}

/// The values of a list, written one after the other.
pub open spec fn enc_items<T: Wire>(v: Seq<T::V>) -> Seq<u8>
    decreases v.len(),
{
    if v.len() == 0 {
        Seq::empty()
    } else {
        enc_items::<T>(v.drop_last()) + T::enc(v.last())
    }
}

/// Whether every value of a list fits.
pub open spec fn items_fit<T: Wire>(v: Seq<T::V>) -> bool {
    forall|i: int| 0 <= i < v.len() ==> T::fits(#[trigger] v[i])
}

proof fn lemma_items_push<T: Wire>(v: Seq<T::V>, last: T::V)
    ensures
        enc_items::<T>(v.push(last)) == enc_items::<T>(v) + T::enc(last),
{
    assert(v.push(last).drop_last() =~= v);
}

/// A list is its first value, then the rest.
proof fn lemma_items_head<T: Wire>(v: Seq<T::V>)
    requires
        v.len() > 0,
    ensures
        enc_items::<T>(v) == T::enc(v[0]) + enc_items::<T>(v.subrange(1, v.len() as int)),
    decreases v.len(),
{
    let rest = v.subrange(1, v.len() as int);
    if v.len() == 1 {
        assert(v.drop_last() =~= Seq::empty());
        assert(rest =~= Seq::empty());
        assert(enc_items::<T>(v.drop_last()) =~= Seq::empty());
        assert(enc_items::<T>(rest) =~= Seq::empty());
        assert(enc_items::<T>(v) =~= T::enc(v[0]) + enc_items::<T>(rest));
    } else {
        let init = v.drop_last();
        lemma_items_head::<T>(init);
        assert(init.subrange(1, init.len() as int) =~= rest.drop_last());
        assert(rest.last() == v.last());
        assert(enc_items::<T>(v) =~= T::enc(v[0]) + enc_items::<T>(rest));
    }
}

/// Lists that are written alike, one of them with something behind it, are one the front of
/// the other.
proof fn lemma_items_front<T: Wire>(a: Seq<T::V>, x: Seq<u8>, b: Seq<T::V>)
    requires
        items_fit::<T>(a),
        items_fit::<T>(b),
        enc_items::<T>(a) + x == enc_items::<T>(b),
    ensures
        a.len() <= b.len(),
        a == b.subrange(0, a.len() as int),
        x == enc_items::<T>(b.subrange(a.len() as int, b.len() as int)),
    decreases a.len(),
{
    if a.len() == 0 {
        assert(enc_items::<T>(a) + x =~= x);
        assert(b.subrange(0, b.len() as int) =~= b);
        assert(a =~= b.subrange(0, 0));
    } else {
        lemma_items_head::<T>(a);
        T::lemma_nonempty(a[0]);
        let ta = a.subrange(1, a.len() as int);
        if b.len() == 0 {
            assert((enc_items::<T>(a) + x).len() > 0);
            assert(false);
        }
        lemma_items_head::<T>(b);
        let tb = b.subrange(1, b.len() as int);
        assert(enc_items::<T>(a) + x =~= T::enc(a[0]) + (enc_items::<T>(ta) + x));
        T::lemma_unique(a[0], enc_items::<T>(ta) + x, b[0], enc_items::<T>(tb));
        assert forall|i: int| 0 <= i < ta.len() implies T::fits(#[trigger] ta[i]) by {
            assert(ta[i] == a[i + 1]);
        }
        assert forall|i: int| 0 <= i < tb.len() implies T::fits(#[trigger] tb[i]) by {
            assert(tb[i] == b[i + 1]);
        }
        lemma_items_front::<T>(ta, x, tb);
        assert forall|i: int| 0 <= i < a.len() implies a[i] == b[i] by {
            if i > 0 {
                assert(ta[i - 1] == tb.subrange(0, ta.len() as int)[i - 1]);
            }
        }
        assert(a =~= b.subrange(0, a.len() as int));
        assert(tb.subrange(ta.len() as int, tb.len() as int) =~= b.subrange(
            a.len() as int,
            b.len() as int,
        ));
    }
}

impl<T: Wire> Wire for Vec<T> {
    open spec fn fits(v: Seq<T::V>) -> bool {
        items_fit::<T>(v) && enc_items::<T>(v).len() <= MAX_LIST_BYTES
    }

    open spec fn enc(v: Seq<T::V>) -> Seq<u8> {
        enc_len(enc_items::<T>(v).len()) + enc_items::<T>(v)
    }

    fn write(&self, out: &mut Vec<u8>) -> (ok: bool) {
        let mut body: Vec<u8> = Vec::new();
        let ghost all = self.deep_view();
        let mut i: usize = 0;
        proof {
            assert(all.subrange(0, 0) =~= Seq::empty());
        }
        while i < self.len()
            invariant
                i <= self.len(),
                all == self.deep_view(),
                all.len() == self@.len(),
                body@ == enc_items::<T>(all.subrange(0, i as int)),
                forall|j: int| 0 <= j < i ==> T::fits(#[trigger] all[j]),
            decreases self.len() - i,
        {
            proof {
                assert(all[i as int] == self@[i as int].deep_view());
                assert(all.subrange(0, i + 1) =~= all.subrange(0, i as int).push(all[i as int]));
                lemma_items_push::<T>(all.subrange(0, i as int), all[i as int]);
            }
            if !self[i].write(&mut body) {
                return false;
            }
            i += 1;
        }
        proof {
            assert(all.subrange(0, all.len() as int) =~= all);
        }
        if body.len() > MAX_LIST_BYTES {
            return false;
        }
        write_len(body.len(), out);
        append(out, body.as_slice());
        proof {
            assert(out@ =~= old(out)@ + Self::enc(all));
        }
        true
    }

    fn read(input: &[u8]) -> (r: Option<(Self, usize)>) {
        let (n, k): (usize, usize) = match read_len(input) {
            None => {
                proof {
                    assert forall|v: Seq<T::V>, rest: Seq<u8>| Self::fits(v) implies input@
                        != #[trigger] (Self::enc(v) + rest) by {
                        let m = enc_items::<T>(v).len();
                        assert(Self::enc(v) + rest =~= enc_len(m) + (enc_items::<T>(v) + rest));
                    }
                }
                return None;
            },
            Some(read) => read,
        };
        let total: usize = input.len();
        let left = tail(input, k);
        proof {
            assert(input@ =~= enc_len(n as nat) + left@);
            assert forall|v: Seq<T::V>, rest: Seq<u8>|
                Self::fits(v) && input@ == #[trigger] (Self::enc(v) + rest) implies enc_items::<T>(
                v,
            ).len() == n && left@ == enc_items::<T>(v) + rest by {
                let m = enc_items::<T>(v).len();
                assert(Self::enc(v) + rest =~= enc_len(m) + (enc_items::<T>(v) + rest));
                lemma_len_unique(n as nat, left@, m, enc_items::<T>(v) + rest);
            }
        }
        if n > left.len() {
            proof {
                assert forall|v: Seq<T::V>, rest: Seq<u8>| Self::fits(v) implies input@
                    != #[trigger] (Self::enc(v) + rest) by {
                    assert((enc_items::<T>(v) + rest).len() >= enc_items::<T>(v).len());
                }
            }
            return None;
        }
        let body = vstd::slice::slice_subrange(left, 0, n);
        let mut out: Vec<T> = Vec::new();
        let mut at: usize = 0;
        proof {
            assert(body@.subrange(0, 0) =~= Seq::empty());
            assert(out.deep_view() =~= Seq::empty());
        }
        while at < n
            invariant
                at <= n,
                n == body@.len(),
                n <= left@.len(),
                left@.len() == total - k,
                total == input@.len(),
                body@ == left@.subrange(0, n as int),
                items_fit::<T>(out.deep_view()),
                body@.subrange(0, at as int) == enc_items::<T>(out.deep_view()),
                forall|v: Seq<T::V>, rest: Seq<u8>|
                    Self::fits(v) && input@ == #[trigger] (Self::enc(v) + rest) ==> enc_items::<T>(
                        v,
                    ).len() == n && left@ == enc_items::<T>(v) + rest,
            decreases n - at,
        {
            let rest_body = tail(body, at);
            let ghost before = out.deep_view();
            proof {
                assert(body@ =~= enc_items::<T>(before) + rest_body@);
            }
            let (item, used): (T, usize) = match T::read(rest_body) {
                None => {
                    proof {
                        assert forall|v: Seq<T::V>, rest: Seq<u8>| Self::fits(v) implies input@
                            != #[trigger] (Self::enc(v) + rest) by {
                            if input@ == Self::enc(v) + rest {
                                assert(body@ =~= enc_items::<T>(v));
                                lemma_items_front::<T>(before, rest_body@, v);
                                let t = v.subrange(before.len() as int, v.len() as int);
                                if t.len() == 0 {
                                    assert(rest_body@.len() == 0);
                                } else {
                                    lemma_items_head::<T>(t);
                                    assert(t[0] == v[before.len() as int]);
                                }
                            }
                        }
                    }
                    return None;
                },
                Some(read) => read,
            };
            proof {
                let v = item.deep_view();
                T::lemma_nonempty(v);
                lemma_items_push::<T>(before, v);
                assert(body@.subrange(0, at + used) =~= body@.subrange(0, at as int)
                    + rest_body@.subrange(0, used as int));
            }
            out.push(item);
            proof {
                assert(out.deep_view() =~= before.push(item.deep_view()));
            }
            at = at + used;
        }
        proof {
            assert(body@.subrange(0, n as int) =~= body@);
            assert(input@.subrange(0, k + n) =~= enc_len(n as nat) + body@);
        }
        Some((out, k + n))
    }

    proof fn lemma_nonempty(v: Seq<T::V>) {
    }

    proof fn lemma_unique(a: Seq<T::V>, x: Seq<u8>, b: Seq<T::V>, y: Seq<u8>) {
        let ea = enc_items::<T>(a);
        let eb = enc_items::<T>(b);
        assert(Self::enc(a) + x =~= enc_len(ea.len()) + (ea + x));
        assert(Self::enc(b) + y =~= enc_len(eb.len()) + (eb + y));
        lemma_len_unique(ea.len(), ea + x, eb.len(), eb + y);
        lemma_split(ea, x, eb, y);
        let none = Seq::<u8>::empty();
        assert(ea + none =~= ea);
        lemma_items_front::<T>(a, none, b);
        let t = b.subrange(a.len() as int, b.len() as int);
        if t.len() > 0 {
            lemma_items_head::<T>(t);
            assert(t[0] == b[a.len() as int]);
            T::lemma_nonempty(t[0]);
        }
        assert(a =~= b);
    }
}

/// A byte string is its own deep view.
pub proof fn lemma_bytes_view(v: Vec<u8>)
    ensures
        v.deep_view() == v@,
{
    assert(v.deep_view() =~= v@);
}

// ---- blobs ----

/// Whether every list in a value is short enough to be written.
#[verifier::opaque]
pub open spec fn blob_fits<T: Wire>(v: T::V) -> bool {
    T::fits(v)
}

/// A blob: a version, two numbers, then a value.
#[verifier::opaque]
pub open spec fn blob_of<T: Wire>(version: u8, a: u16, b: u16, v: T::V) -> Seq<u8> {
    seq![version] + (<(u16, u16) as Wire>::enc((a, b)) + T::enc(v))
}

/// Whatever a blob is read as is what was written: version, numbers and value.
pub proof fn law_blobs_read_back<T: Wire>(
    version: u8,
    a: u16,
    b: u16,
    v: T::V,
    other: u8,
    c: u16,
    d: u16,
    w: T::V,
)
    requires
        blob_fits::<T>(v),
        blob_fits::<T>(w),
        blob_of::<T>(version, a, b, v) == blob_of::<T>(other, c, d, w),
    ensures
        version == other,
        a == c,
        b == d,
        v == w,
{
    reveal(blob_fits);
    reveal(blob_of);
    let x = <(u16, u16) as Wire>::enc((a, b)) + T::enc(v);
    let y = <(u16, u16) as Wire>::enc((c, d)) + T::enc(w);
    lemma_split(seq![version], x, seq![other], y);
    assert(seq![version][0] == seq![other][0]);
    <(u16, u16) as Wire>::lemma_unique((a, b), T::enc(v), (c, d), T::enc(w));
    let none = Seq::<u8>::empty();
    assert(T::enc(v) + none =~= T::enc(v));
    assert(T::enc(w) + none =~= T::enc(w));
    T::lemma_unique(v, none, w, none);
}

/// Write a blob, unless the value does not fit.
pub fn encode_blob<T: Wire>(version: u8, a: u16, b: u16, v: &T) -> (r: Option<Vec<u8>>)
    ensures
        match r {
            Some(blob) => {
                &&& blob_fits::<T>(v.deep_view())
                &&& blob@ == blob_of::<T>(version, a, b, v.deep_view())
            },
            None => !blob_fits::<T>(v.deep_view()),
        },
{
    proof {
        reveal(blob_fits);
        reveal(blob_of);
    }
    let mut out: Vec<u8> = Vec::new();
    out.push(version);
    let pair: (u16, u16) = (a, b);
    pair.write(&mut out);
    if !v.write(&mut out) {
        return None;
    }
    proof {
        assert(out@ =~= blob_of::<T>(version, a, b, v.deep_view()));
    }
    Some(out)
}

/// Read a blob of this version and these numbers. `None` if `input` is none.
pub fn decode_blob<T: Wire>(version: u8, a: u16, b: u16, input: &[u8]) -> (r: Option<T>)
    ensures
        match r {
            Some(v) => {
                &&& blob_fits::<T>(v.deep_view())
                &&& input@ == blob_of::<T>(version, a, b, v.deep_view())
            },
            None => forall|v: T::V|
                blob_fits::<T>(v) ==> input@ != #[trigger] blob_of::<T>(version, a, b, v),
        },
{
    proof {
        reveal(blob_fits);
        reveal(blob_of);
    }
    let ghost head = <(u16, u16) as Wire>::enc((a, b));
    let ghost all = input@;
    proof {
        assert forall|v: T::V| all == #[trigger] blob_of::<T>(version, a, b, v) implies all.len()
            >= 5 && all[0] == version && all.subrange(1, all.len() as int) == head + T::enc(v)
            && all.subrange(5, all.len() as int) == T::enc(v) by {
            assert(head.len() == 4);
            let e = seq![version] + (head + T::enc(v));
            assert(e.subrange(1, e.len() as int) =~= head + T::enc(v));
            assert(e.subrange(5, e.len() as int) =~= T::enc(v));
        }
    }
    if input.len() < 5 || input[0] != version {
        return None;
    }
    let rest = tail(input, 1);
    match <(u16, u16) as Wire>::read(rest) {
        None => {
            return None;
        },
        Some((pair, n)) => {
            proof {
                let left = rest@.subrange(n as int, rest@.len() as int);
                assert(rest@ =~= <(u16, u16) as Wire>::enc(pair.deep_view()) + left);
                assert(n == 4);
                assert forall|v: T::V| all == #[trigger] blob_of::<T>(
                    version,
                    a,
                    b,
                    v,
                ) implies pair == (a, b) by {
                    <(u16, u16) as Wire>::lemma_unique(
                        pair.deep_view(),
                        left,
                        (a, b),
                        T::enc(v),
                    );
                }
            }
            if pair.0 != a || pair.1 != b {
                return None;
            }
        },
    }
    let body = tail(input, 5);
    match T::read(body) {
        None => {
            proof {
                assert forall|v: T::V| blob_fits::<T>(v) implies all != #[trigger] blob_of::<T>(
                    version,
                    a,
                    b,
                    v,
                ) by {
                    assert(T::enc(v) + Seq::<u8>::empty() =~= T::enc(v));
                }
            }
            None
        },
        Some((v, n)) => {
            let ghost left = body@.subrange(n as int, body@.len() as int);
            proof {
                assert(body@ =~= T::enc(v.deep_view()) + left);
            }
            if n < body.len() {
                proof {
                    assert forall|w: T::V| blob_fits::<T>(w) implies all != #[trigger] blob_of::<
                        T,
                    >(version, a, b, w) by {
                        if all == blob_of::<T>(version, a, b, w) {
                            assert(T::enc(w) + Seq::<u8>::empty() =~= T::enc(w));
                            T::lemma_unique(v.deep_view(), left, w, Seq::empty());
                        }
                    }
                }
                return None;
            }
            proof {
                assert(rest@.subrange(0, 4) == head);
                assert(all =~= seq![version] + (head + T::enc(v.deep_view())));
            }
            Some(v)
        },
    }
}

} // verus!
