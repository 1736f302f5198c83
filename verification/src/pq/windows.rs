//! Per-epoch windows: listen addresses, header keys and the send PSK ledger.
//!
//! An exporter can be read at a group's current epoch only, so what later traffic may refer
//! to is captured while its epoch is live and kept for as long as it can matter.

use vstd::prelude::*;
use crate::bytes::copy_bytes;
use super::error::{Result, TwoMlsPqError};
use super::state::{
    ascending, epochs, keys, ledger_has, value_lengths, EpochKey, ExportedPsk, GroupHalf, PskEntry,
    PskRef, TwoMlsPqSession, PQ_HEADER_WINDOW, RENDEZVOUS_LEN, SEND_PSK_WINDOW,
};
use super::providers::HEADER_KEY_LEN;

verus! {

// ---- what is exported ----

/// An exporter call: label, context and length.
#[derive(Debug, Clone, PartialEq, Eq)]
pub struct ExportRequest {
    pub label: &'static str,
    pub context: Vec<u8>,
    pub len: usize,
}

/// The context of the rendezvous exporter, "TwoMLS".
pub open spec fn rendezvous_context() -> Seq<u8> {
    seq![0x54u8, 0x77, 0x6F, 0x4D, 0x4C, 0x53]
}

/// The rendezvous exporter of a classical half. Both members derive the same address.
pub fn rendezvous_secret() -> (r: ExportRequest)
    ensures
        r.label@ == "rendezvous"@,
        r.context@ == rendezvous_context(),
        r.len == RENDEZVOUS_LEN,
{
    let context: Vec<u8> = vec![0x54, 0x77, 0x6F, 0x4D, 0x4C, 0x53];
    proof {
        assert(context@ =~= rendezvous_context());
    }
    ExportRequest { label: "rendezvous", context, len: RENDEZVOUS_LEN }
}

/// The header key exporter of a classical half; its context is the group id.
pub fn header_key(group_id: &[u8]) -> (r: ExportRequest)
    ensures
        r.label@ == "germ.network.twomlspq.headerKey.v1"@,
        r.context@ == group_id@,
        r.len == HEADER_KEY_LEN,
{
    ExportRequest {
        label: "germ.network.twomlspq.headerKey.v1",
        context: copy_bytes(group_id),
        len: HEADER_KEY_LEN,
    }
}

/// The header key exporter of a PQ half; its context is the group id.
pub fn header_key_pq(group_id: &[u8]) -> (r: ExportRequest)
    ensures
        r.label@ == "germ.network.twomlspq.headerKey.pq.v1"@,
        r.context@ == group_id@,
        r.len == HEADER_KEY_LEN,
{
    ExportRequest {
        label: "germ.network.twomlspq.headerKey.pq.v1",
        context: copy_bytes(group_id),
        len: HEADER_KEY_LEN,
    }
}

/// The exporter that keys the seal over a ratchet round's secret; its context is the group
/// id.
pub fn ct_seal_psk(group_id: &[u8]) -> (r: ExportRequest)
    ensures
        r.label@ == "germ.network.twomlspq.a3.ctSeal.psk.v1"@,
        r.context@ == group_id@,
        r.len == 32,
{
    ExportRequest {
        label: "germ.network.twomlspq.a3.ctSeal.psk.v1",
        context: copy_bytes(group_id),
        len: 32,
    }
}

// ---- windows ----

/// Whether a window holds a value of this epoch.
pub open spec fn window_has(w: Seq<(u64, Seq<u8>)>, epoch: u64) -> bool {
    exists|i: int| 0 <= i < w.len() && (#[trigger] w[i]).0 == epoch
}

/// The entries before `epoch` that are retained.
pub open spec fn kept_below(
    w: Seq<(u64, Seq<u8>)>,
    epoch: u64,
    retained: Seq<u64>,
) -> Seq<(u64, Seq<u8>)> {
    w.filter(|e: (u64, Seq<u8>)| e.0 < epoch && retained.contains(e.0))
}

/// The entries after `epoch` that are retained.
pub open spec fn kept_above(
    w: Seq<(u64, Seq<u8>)>,
    epoch: u64,
    retained: Seq<u64>,
) -> Seq<(u64, Seq<u8>)> {
    w.filter(|e: (u64, Seq<u8>)| e.0 > epoch && retained.contains(e.0))
}

/// The window once the value of `epoch` is captured: it holds that epoch, and of the others
/// the retained ones.
pub open spec fn recorded(
    w: Seq<(u64, Seq<u8>)>,
    epoch: u64,
    key: Seq<u8>,
    retained: Seq<u64>,
) -> Seq<(u64, Seq<u8>)> {
    kept_below(w, epoch, retained) + seq![(epoch, key)] + kept_above(w, epoch, retained)
}

/// The entries before `epoch`, then the value of `epoch`, then the entries after it.
pub open spec fn inserted(
    w: Seq<(u64, Seq<u8>)>,
    epoch: u64,
    key: Seq<u8>,
) -> Seq<(u64, Seq<u8>)> {
    w.filter(|e: (u64, Seq<u8>)| e.0 < epoch) + seq![(epoch, key)] + w.filter(
        |e: (u64, Seq<u8>)| e.0 > epoch,
    )
}

/// The last `n` entries.
pub open spec fn newest(w: Seq<(u64, Seq<u8>)>, n: nat) -> Seq<(u64, Seq<u8>)> {
    if w.len() > n {
        w.subrange(w.len() - n, w.len() as int)
    } else {
        w
    }
}

/// Filtering one more entry.
proof fn lemma_filter_push<A>(s: Seq<A>, a: A, p: spec_fn(A) -> bool)
    ensures
        s.push(a).filter(p) == if p(a) {
            s.filter(p).push(a)
        } else {
            s.filter(p)
        },
{
    reveal(Seq::filter);
    assert(s.push(a).drop_last() =~= s);
}

/// What is left by a filter came from the sequence and passes the filter.
pub proof fn lemma_filter_member<A>(s: Seq<A>, p: spec_fn(A) -> bool, i: int)
    requires
        0 <= i < s.filter(p).len(),
    ensures
        p(s.filter(p)[i]),
        exists|j: int| 0 <= j < s.len() && s[j] == s.filter(p)[i],
    decreases s.len(),
{
    reveal(Seq::filter);
    if s.len() > 0 {
        let t = s.drop_last();
        assert(s =~= t.push(s.last()));
        lemma_filter_push(t, s.last(), p);
        if i < t.filter(p).len() {
            lemma_filter_member(t, p, i);
            let j = choose|j: int| 0 <= j < t.len() && t[j] == t.filter(p)[i];
            assert(s[j] == t[j]);
        } else {
            assert(s[s.len() - 1] == s.last());
        }
    }
}

/// A filter keeps ascending epochs ascending.
proof fn lemma_filter_ascending(w: Seq<(u64, Seq<u8>)>, p: spec_fn((u64, Seq<u8>)) -> bool)
    requires
        ascending(w),
    ensures
        ascending(w.filter(p)),
    decreases w.len(),
{
    reveal(Seq::filter);
    if w.len() > 0 {
        let t = w.drop_last();
        assert(w =~= t.push(w.last()));
        assert(ascending(t));
        lemma_filter_ascending(t, p);
        lemma_filter_push(t, w.last(), p);
        let f = w.filter(p);
        assert forall|i: int, j: int| 0 <= i < j < f.len() implies (#[trigger] f[i]).0 < (
        #[trigger] f[j]).0 by {
            if j == t.filter(p).len() {
                lemma_filter_member(t, p, i);
                let k = choose|k: int| 0 <= k < t.len() && t[k] == t.filter(p)[i];
                assert(w[k].0 < w[w.len() - 1].0);
            }
        }
    }
}

/// A filter that everything passes leaves all, and one that nothing passes leaves none.
proof fn lemma_filter_all<A>(s: Seq<A>, p: spec_fn(A) -> bool, keep: bool)
    requires
        forall|i: int| 0 <= i < s.len() ==> p(#[trigger] s[i]) == keep,
    ensures
        s.filter(p) == if keep {
            s
        } else {
            Seq::empty()
        },
    decreases s.len(),
{
    reveal(Seq::filter);
    if s.len() > 0 {
        let t = s.drop_last();
        assert forall|i: int| 0 <= i < t.len() implies p(#[trigger] t[i]) == keep by {
            assert(t[i] == s[i]);
        }
        lemma_filter_all(t, p, keep);
        assert(s[s.len() - 1] == s.last());
        if keep {
            assert(t.push(s.last()) =~= s);
        }
    } else {
        assert(s =~= Seq::empty());
    }
}

/// Inserting after everything else adds at the end.
pub proof fn lemma_inserted_last(w: Seq<(u64, Seq<u8>)>, epoch: u64, key: Seq<u8>)
    requires
        forall|i: int| 0 <= i < w.len() ==> (#[trigger] w[i]).0 < epoch,
    ensures
        inserted(w, epoch, key) == w.push((epoch, key)),
{
    lemma_filter_all(w, |e: (u64, Seq<u8>)| e.0 < epoch, true);
    lemma_filter_all(w, |e: (u64, Seq<u8>)| e.0 > epoch, false);
    assert(w + seq![(epoch, key)] + Seq::<(u64, Seq<u8>)>::empty() =~= w.push((epoch, key)));
}

/// Inserting in order keeps ascending epochs ascending.
pub proof fn lemma_inserted_ascending(w: Seq<(u64, Seq<u8>)>, epoch: u64, key: Seq<u8>)
    requires
        ascending(w),
    ensures
        ascending(inserted(w, epoch, key)),
{
    let below = |e: (u64, Seq<u8>)| e.0 < epoch;
    let above = |e: (u64, Seq<u8>)| e.0 > epoch;
    lemma_filter_ascending(w, below);
    lemma_filter_ascending(w, above);
    lemma_three_ascending(w.filter(below), (epoch, key), w.filter(above), w, below, above);
}

proof fn lemma_three_ascending(
    a: Seq<(u64, Seq<u8>)>,
    m: (u64, Seq<u8>),
    b: Seq<(u64, Seq<u8>)>,
    w: Seq<(u64, Seq<u8>)>,
    p: spec_fn((u64, Seq<u8>)) -> bool,
    q: spec_fn((u64, Seq<u8>)) -> bool,
)
    requires
        ascending(a),
        ascending(b),
        a == w.filter(p),
        b == w.filter(q),
        forall|e: (u64, Seq<u8>)| #[trigger] p(e) ==> e.0 < m.0,
        forall|e: (u64, Seq<u8>)| #[trigger] q(e) ==> e.0 > m.0,
    ensures
        ascending(a + seq![m] + b),
{
    let all = a + seq![m] + b;
    assert forall|i: int, j: int| 0 <= i < j < all.len() implies (#[trigger] all[i]).0 < (
    #[trigger] all[j]).0 by {
        if i < a.len() {
            lemma_filter_member(w, p, i);
            assert(p(a[i]));
        }
        if j > a.len() {
            lemma_filter_member(w, q, j - a.len() - 1);
            assert(q(b[j - a.len() - 1]));
        }
        if i > a.len() {
            lemma_filter_member(w, q, i - a.len() - 1);
            assert(q(b[i - a.len() - 1]));
        }
    }
}

/// A filter keeps the lengths of the values.
proof fn lemma_filter_lengths(
    w: Seq<(u64, Seq<u8>)>,
    p: spec_fn((u64, Seq<u8>)) -> bool,
    len: nat,
)
    requires
        value_lengths(w, len),
    ensures
        value_lengths(w.filter(p), len),
{
    let f = w.filter(p);
    assert forall|i: int| 0 <= i < f.len() implies (#[trigger] f[i]).1.len() == len by {
        lemma_filter_member(w, p, i);
        let j = choose|j: int| 0 <= j < w.len() && w[j] == f[i];
        assert(w[j].1.len() == len);
    }
}

/// Recording a value of the same length keeps the lengths of the values.
proof fn lemma_recorded_lengths(
    w: Seq<(u64, Seq<u8>)>,
    epoch: u64,
    key: Seq<u8>,
    retained: Seq<u64>,
)
    requires
        value_lengths(w, key.len()),
    ensures
        value_lengths(recorded(w, epoch, key, retained), key.len()),
{
    let below = |e: (u64, Seq<u8>)| e.0 < epoch && retained.contains(e.0);
    let above = |e: (u64, Seq<u8>)| e.0 > epoch && retained.contains(e.0);
    lemma_filter_lengths(w, below, key.len());
    lemma_filter_lengths(w, above, key.len());
}

/// So does inserting one, and dropping all but the newest.
pub proof fn lemma_newest_lengths(w: Seq<(u64, Seq<u8>)>, epoch: u64, key: Seq<u8>, n: nat)
    requires
        value_lengths(w, key.len()),
    ensures
        value_lengths(inserted(w, epoch, key), key.len()),
        value_lengths(newest(inserted(w, epoch, key), n), key.len()),
{
    let below = |e: (u64, Seq<u8>)| e.0 < epoch;
    let above = |e: (u64, Seq<u8>)| e.0 > epoch;
    lemma_filter_lengths(w, below, key.len());
    lemma_filter_lengths(w, above, key.len());
}

/// Recording keeps ascending epochs ascending.
pub proof fn lemma_recorded_ascending(
    w: Seq<(u64, Seq<u8>)>,
    epoch: u64,
    key: Seq<u8>,
    retained: Seq<u64>,
)
    requires
        ascending(w),
    ensures
        ascending(recorded(w, epoch, key, retained)),
{
    let below = |e: (u64, Seq<u8>)| e.0 < epoch && retained.contains(e.0);
    let above = |e: (u64, Seq<u8>)| e.0 > epoch && retained.contains(e.0);
    lemma_filter_ascending(w, below);
    lemma_filter_ascending(w, above);
    lemma_three_ascending(w.filter(below), (epoch, key), w.filter(above), w, below, above);
}

/// Windows of the same epochs have as many entries, of the same epochs pairwise.
proof fn lemma_lockstep_at(a: Seq<(u64, Seq<u8>)>, b: Seq<(u64, Seq<u8>)>)
    requires
        epochs(a) == epochs(b),
    ensures
        a.len() == b.len(),
        forall|i: int| 0 <= i < a.len() ==> (#[trigger] a[i]).0 == (#[trigger] b[i]).0,
{
    assert(epochs(a).len() == a.len() && epochs(b).len() == b.len());
    assert forall|i: int| 0 <= i < a.len() implies (#[trigger] a[i]).0 == (#[trigger] b[i]).0 by {
        assert(epochs(a)[i] == a[i].0);
        assert(epochs(b)[i] == b[i].0);
    }
}

/// Windows of the same epochs, filtered by epoch, still have the same epochs.
proof fn lemma_filter_lockstep(
    a: Seq<(u64, Seq<u8>)>,
    b: Seq<(u64, Seq<u8>)>,
    p: spec_fn((u64, Seq<u8>)) -> bool,
)
    requires
        epochs(a) == epochs(b),
        forall|x: (u64, Seq<u8>), y: (u64, Seq<u8>)|
            x.0 == y.0 ==> #[trigger] p(x) == #[trigger] p(y),
    ensures
        epochs(a.filter(p)) == epochs(b.filter(p)),
    decreases a.len(),
{
    reveal(Seq::filter);
    lemma_lockstep_at(a, b);
    if a.len() > 0 {
        let ta = a.drop_last();
        let tb = b.drop_last();
        assert(a =~= ta.push(a.last()));
        assert(b =~= tb.push(b.last()));
        assert forall|i: int| 0 <= i < ta.len() implies epochs(ta)[i] == epochs(tb)[i] by {
            assert(a[i].0 == b[i].0);
        }
        assert(epochs(ta) =~= epochs(tb));
        lemma_filter_lockstep(ta, tb, p);
        assert(a[a.len() - 1].0 == b[a.len() - 1].0);
        lemma_filter_push(ta, a.last(), p);
        lemma_filter_push(tb, b.last(), p);
        assert(p(a.last()) == p(b.last()));
        lemma_lockstep_at(ta.filter(p), tb.filter(p));
        assert(epochs(a.filter(p)) =~= epochs(b.filter(p)));
    } else {
        assert(a =~= b);
    }
}

/// Windows of the same epochs have the same epochs after both record one epoch.
pub proof fn lemma_recorded_lockstep(
    a: Seq<(u64, Seq<u8>)>,
    b: Seq<(u64, Seq<u8>)>,
    epoch: u64,
    ka: Seq<u8>,
    kb: Seq<u8>,
    retained: Seq<u64>,
)
    requires
        epochs(a) == epochs(b),
    ensures
        epochs(recorded(a, epoch, ka, retained)) == epochs(recorded(b, epoch, kb, retained)),
{
    let below = |e: (u64, Seq<u8>)| e.0 < epoch && retained.contains(e.0);
    let above = |e: (u64, Seq<u8>)| e.0 > epoch && retained.contains(e.0);
    lemma_filter_lockstep(a, b, below);
    lemma_filter_lockstep(a, b, above);
    let (a1, a2) = (a.filter(below), a.filter(above));
    let (b1, b2) = (b.filter(below), b.filter(above));
    lemma_lockstep_at(a1, b1);
    lemma_lockstep_at(a2, b2);
    let ra = recorded(a, epoch, ka, retained);
    let rb = recorded(b, epoch, kb, retained);
    assert forall|i: int| 0 <= i < ra.len() implies epochs(ra)[i] == epochs(rb)[i] by {
        if i < a1.len() {
            assert(a1[i].0 == b1[i].0);
        } else if i > a1.len() {
            assert(a2[i - a1.len() - 1].0 == b2[i - a1.len() - 1].0);
        }
    }
    assert(epochs(ra) =~= epochs(rb));
}

/// Whether a window holds a value of `epoch`.
pub fn window_contains(w: &Vec<EpochKey>, epoch: u64) -> (r: bool)
    ensures
        r == window_has(keys(w@), epoch),
{
    let mut i: usize = 0;
    while i < w.len()
        invariant
            i <= w.len(),
            forall|j: int| 0 <= j < i ==> (#[trigger] keys(w@)[j]).0 != epoch,
        decreases w.len() - i,
    {
        if w[i].epoch == epoch {
            proof {
                assert(keys(w@)[i as int].0 == epoch);
            }
            return true;
        }
        i += 1;
    }
    false
}

/// Whether a list holds `epoch`.
fn holds(v: &Vec<u64>, epoch: u64) -> (r: bool)
    ensures
        r == v@.contains(epoch),
{
    let mut i: usize = 0;
    while i < v.len()
        invariant
            i <= v.len(),
            forall|j: int| 0 <= j < i ==> v@[j] != epoch,
        decreases v.len() - i,
    {
        if v[i] == epoch {
            return true;
        }
        i += 1;
    }
    false
}

/// Capture the value of `epoch` and drop what is no longer retained.
fn window_record(w: &Vec<EpochKey>, epoch: u64, key: &[u8], retained: &Vec<u64>) -> (r: Vec<
    EpochKey,
>)
    ensures
        keys(r@) == recorded(keys(w@), epoch, key@, retained@),
{
    let ghost below = |e: (u64, Seq<u8>)| e.0 < epoch && retained@.contains(e.0);
    let ghost above = |e: (u64, Seq<u8>)| e.0 > epoch && retained@.contains(e.0);
    let mut lower: Vec<EpochKey> = Vec::new();
    let mut upper: Vec<EpochKey> = Vec::new();
    let mut i: usize = 0;
    proof {
        reveal(Seq::filter);
        assert(keys(w@).subrange(0, 0) =~= Seq::empty());
        assert(keys(lower@) =~= Seq::empty());
        assert(keys(upper@) =~= Seq::empty());
    }
    while i < w.len()
        invariant
            i <= w.len(),
            below == (|e: (u64, Seq<u8>)| e.0 < epoch && retained@.contains(e.0)),
            above == (|e: (u64, Seq<u8>)| e.0 > epoch && retained@.contains(e.0)),
            keys(lower@) == keys(w@).subrange(0, i as int).filter(below),
            keys(upper@) == keys(w@).subrange(0, i as int).filter(above),
        decreases w.len() - i,
    {
        let e = w[i].epoch;
        let keep = holds(retained, e);
        proof {
            let s = keys(w@).subrange(0, i as int);
            let a = keys(w@)[i as int];
            assert(keys(w@).subrange(0, i + 1) =~= s.push(a));
            lemma_filter_push(s, a, below);
            lemma_filter_push(s, a, above);
        }
        if keep && e < epoch {
            let entry = EpochKey { epoch: e, key: copy_bytes(w[i].key.as_slice()) };
            let ghost before = keys(lower@);
            lower.push(entry);
            proof {
                assert(keys(lower@) =~= before.push(keys(w@)[i as int]));
            }
        }
        if keep && e > epoch {
            let entry = EpochKey { epoch: e, key: copy_bytes(w[i].key.as_slice()) };
            let ghost before = keys(upper@);
            upper.push(entry);
            proof {
                assert(keys(upper@) =~= before.push(keys(w@)[i as int]));
            }
        }
        i += 1;
    }
    proof {
        assert(keys(w@).subrange(0, i as int) =~= keys(w@));
    }
    let ghost low = keys(lower@);
    let ghost up = keys(upper@);
    let mut out = lower;
    out.push(EpochKey { epoch, key: copy_bytes(key) });
    out.append(&mut upper);
    proof {
        assert(keys(out@) =~= low + seq![(epoch, key@)] + up);
    }
    out
}

/// Insert the value of `epoch` in order.
pub(crate) fn window_insert(w: &Vec<EpochKey>, epoch: u64, key: &[u8]) -> (r: Vec<EpochKey>)
    ensures
        keys(r@) == inserted(keys(w@), epoch, key@),
{
    let ghost below = |e: (u64, Seq<u8>)| e.0 < epoch;
    let ghost above = |e: (u64, Seq<u8>)| e.0 > epoch;
    let mut lower: Vec<EpochKey> = Vec::new();
    let mut upper: Vec<EpochKey> = Vec::new();
    let mut i: usize = 0;
    proof {
        reveal(Seq::filter);
        assert(keys(w@).subrange(0, 0) =~= Seq::empty());
        assert(keys(lower@) =~= Seq::empty());
        assert(keys(upper@) =~= Seq::empty());
    }
    while i < w.len()
        invariant
            i <= w.len(),
            below == (|e: (u64, Seq<u8>)| e.0 < epoch),
            above == (|e: (u64, Seq<u8>)| e.0 > epoch),
            keys(lower@) == keys(w@).subrange(0, i as int).filter(below),
            keys(upper@) == keys(w@).subrange(0, i as int).filter(above),
        decreases w.len() - i,
    {
        let e = w[i].epoch;
        proof {
            let s = keys(w@).subrange(0, i as int);
            let a = keys(w@)[i as int];
            assert(keys(w@).subrange(0, i + 1) =~= s.push(a));
            lemma_filter_push(s, a, below);
            lemma_filter_push(s, a, above);
        }
        if e < epoch {
            let entry = EpochKey { epoch: e, key: copy_bytes(w[i].key.as_slice()) };
            let ghost before = keys(lower@);
            lower.push(entry);
            proof {
                assert(keys(lower@) =~= before.push(keys(w@)[i as int]));
            }
        }
        if e > epoch {
            let entry = EpochKey { epoch: e, key: copy_bytes(w[i].key.as_slice()) };
            let ghost before = keys(upper@);
            upper.push(entry);
            proof {
                assert(keys(upper@) =~= before.push(keys(w@)[i as int]));
            }
        }
        i += 1;
    }
    proof {
        assert(keys(w@).subrange(0, i as int) =~= keys(w@));
    }
    let ghost low = keys(lower@);
    let ghost up = keys(upper@);
    let mut out = lower;
    out.push(EpochKey { epoch, key: copy_bytes(key) });
    out.append(&mut upper);
    proof {
        assert(keys(out@) =~= low + seq![(epoch, key@)] + up);
    }
    out
}

/// Drop all but the last `n` entries.
fn keep_newest(w: &mut Vec<EpochKey>, n: usize)
    ensures
        keys(final(w)@) == newest(keys(old(w)@), n as nat),
{
    let ghost start = keys(w@);
    let ghost mut dropped: int = 0;
    proof {
        assert(start.subrange(0, start.len() as int) =~= start);
    }
    while w.len() > n
        invariant
            0 <= dropped <= start.len(),
            keys(w@) == start.subrange(dropped, start.len() as int),
            dropped == 0 || start.len() - dropped >= n,
        decreases w.len(),
    {
        let ghost before = keys(w@);
        let _oldest = w.remove(0);
        proof {
            assert(keys(w@) =~= before.subrange(1, before.len() as int));
            dropped = dropped + 1;
            assert(keys(w@) =~= start.subrange(dropped, start.len() as int));
        }
    }
    proof {
        assert(keys(w@).len() == w@.len());
        assert(keys(w@) =~= newest(start, n as nat));
    }
}

// ---- the session's windows ----

/// What the session captures of its send group at the current epoch: the listen address and,
/// in lockstep, the header key. Epochs that the group's storage no longer holds are dropped.
pub open spec fn listen_recorded(
    w: Seq<(u64, Seq<u8>)>,
    half: GroupHalf,
    value: Seq<u8>,
    listen: Seq<(u64, Seq<u8>)>,
) -> Seq<(u64, Seq<u8>)> {
    if window_has(listen, half.epoch) {
        w
    } else {
        recorded(w, half.epoch, value, half.retained@)
    }
}

/// The ledger once `psk` is remembered for `epoch`: the newest entries that fit the window.
pub open spec fn ledger_after(l: Seq<PskEntry>, epoch: u64, psk: ExportedPsk) -> Seq<PskEntry> {
    let all = l.push(PskEntry { epoch, exported: psk });
    if all.len() > SEND_PSK_WINDOW {
        all.subrange(1, all.len() as int)
    } else {
        all
    }
}

/// The retired ids once one more PSK is remembered: what falls out of the ledger is retired.
pub open spec fn retired_after(l: Seq<PskEntry>, retired: Seq<PskRef>) -> Seq<PskRef> {
    if l.len() + 1 > SEND_PSK_WINDOW {
        retired.push(
            PskRef {
                component_id: l[0].exported.component_id,
                psk_id: l[0].exported.psk_id,
            },
        )
    } else {
        retired
    }
}

/// Why remembering the PSK of `epoch` fails: it is not in the ledger and exporting it failed.
pub open spec fn remember_error(
    l: Seq<PskEntry>,
    epoch: u64,
    exported: Result<ExportedPsk>,
) -> Option<TwoMlsPqError> {
    match exported {
        Err(e) => if ledger_has(l, epoch) {
            None
        } else {
            Some(e)
        },
        Ok(_) => None,
    }
}

/// The ledger once it holds the PSK of `epoch`.
pub open spec fn ledger_with(
    l: Seq<PskEntry>,
    epoch: u64,
    exported: Result<ExportedPsk>,
) -> Seq<PskEntry> {
    match exported {
        Ok(psk) => if ledger_has(l, epoch) {
            l
        } else {
            ledger_after(l, epoch, psk)
        },
        Err(_) => l,
    }
}

/// The retired ids once the ledger holds the PSK of `epoch`.
pub open spec fn retired_with(
    l: Seq<PskEntry>,
    retired: Seq<PskRef>,
    epoch: u64,
    exported: Result<ExportedPsk>,
) -> Seq<PskRef> {
    if exported is Ok && !ledger_has(l, epoch) {
        retired_after(l, retired)
    } else {
        retired
    }
}

impl TwoMlsPqSession {
    /// Capture the send group's listen address and header key at its current epoch.
    /// Capturing an epoch again changes nothing.
    pub fn record_listen_rendezvous(&mut self)
        requires
            old(self).wf(),
        ensures
            final(self).wf(),
            old(self).sound() ==> final(self).sound(),
            old(self).live() ==> final(self).live(),
            final(self).since(*old(self)),
            old(self).side_band_settled() ==> final(self).side_band_settled(),
            *final(self) == (TwoMlsPqSession {
                listen_rendezvous: final(self).listen_rendezvous,
                recv_header_keys: final(self).recv_header_keys,
                ..*old(self)
            }),
            old(self).send_group is None ==> *final(self) == *old(self),
            old(self).send_group matches Some(g) ==> {
                let listen = keys(old(self).listen_rendezvous@);
                &&& keys(final(self).listen_rendezvous@) == listen_recorded(
                    listen,
                    g.classical,
                    g.classical.rendezvous@,
                    listen,
                )
                &&& keys(final(self).recv_header_keys@) == listen_recorded(
                    keys(old(self).recv_header_keys@),
                    g.classical,
                    g.classical.header_key@,
                    listen,
                )
            },
    {
        match &self.send_group {
            None => {},
            Some(send) => {
                let epoch: u64 = send.classical.epoch;
                if !window_contains(&self.listen_rendezvous, epoch) {
                    let listen = window_record(
                        &self.listen_rendezvous,
                        epoch,
                        send.classical.rendezvous.as_slice(),
                        &send.classical.retained,
                    );
                    let header = window_record(
                        &self.recv_header_keys,
                        epoch,
                        send.classical.header_key.as_slice(),
                        &send.classical.retained,
                    );
                    proof {
                        let a = keys(self.listen_rendezvous@);
                        let b = keys(self.recv_header_keys@);
                        let r = send.classical.retained@;
                        lemma_recorded_ascending(a, epoch, send.classical.rendezvous@, r);
                        lemma_recorded_ascending(b, epoch, send.classical.header_key@, r);
                        if old(self).sound() {
                            lemma_recorded_lockstep(
                                a,
                                b,
                                epoch,
                                send.classical.rendezvous@,
                                send.classical.header_key@,
                                r,
                            );
                        }
                        if old(self).live() {
                            lemma_recorded_lengths(a, epoch, send.classical.rendezvous@, r);
                            lemma_recorded_lengths(b, epoch, send.classical.header_key@, r);
                        }
                    }
                    self.listen_rendezvous = listen;
                    self.recv_header_keys = header;
                }
            },
        }
    }

    /// Capture the send group's side-band header key at its current PQ epoch, keeping the
    /// newest few. Capturing an epoch again, or without a PQ half, changes nothing.
    pub fn record_pq_header_key(&mut self)
        requires
            old(self).wf(),
        ensures
            final(self).wf(),
            old(self).sound() ==> final(self).sound(),
            old(self).live() ==> final(self).live(),
            final(self).since(*old(self)),
            old(self).side_band_settled() ==> final(self).side_band_settled(),
            *final(self) == (TwoMlsPqSession {
                recv_header_keys_pq: final(self).recv_header_keys_pq,
                ..*old(self)
            }),
            match old(self).send_group {
                None => *final(self) == *old(self),
                Some(g) => match g.pq {
                    None => *final(self) == *old(self),
                    Some(pq) => {
                        let w = keys(old(self).recv_header_keys_pq@);
                        if window_has(w, pq.epoch) {
                            *final(self) == *old(self)
                        } else {
                            keys(final(self).recv_header_keys_pq@) == newest(
                                inserted(w, pq.epoch, pq.header_key@),
                                PQ_HEADER_WINDOW as nat,
                            )
                        }
                    },
                },
            },
    {
        match &self.send_group {
            None => {},
            Some(send) => {
                match &send.pq {
                    None => {},
                    Some(pq) => {
                        if !window_contains(&self.recv_header_keys_pq, pq.epoch) {
                            let mut w = window_insert(
                                &self.recv_header_keys_pq,
                                pq.epoch,
                                pq.header_key.as_slice(),
                            );
                            keep_newest(&mut w, PQ_HEADER_WINDOW);
                            proof {
                                lemma_inserted_ascending(
                                    keys(self.recv_header_keys_pq@),
                                    pq.epoch,
                                    pq.header_key@,
                                );
                                assert(keys(w@).len() == w@.len());
                                if old(self).live() {
                                    lemma_newest_lengths(
                                        keys(self.recv_header_keys_pq@),
                                        pq.epoch,
                                        pq.header_key@,
                                        PQ_HEADER_WINDOW as nat,
                                    );
                                }
                            }
                            self.recv_header_keys_pq = w;
                        }
                    },
                }
            },
        }
    }

    /// Whether the send group's PSK at its current epoch is still to be exported.
    pub open spec fn spec_needs_send_psk(&self) -> bool {
        match self.send_group {
            Some(g) => !ledger_has(self.send_psk_ledger@, g.classical.epoch),
            None => false,
        }
    }

    /// Whether the send group's PSK at its current epoch is still to be exported.
    pub fn needs_send_psk(&self) -> (r: bool)
        ensures
            r == self.spec_needs_send_psk(),
    {
        match &self.send_group {
            None => false,
            Some(send) => {
                let epoch: u64 = send.classical.epoch;
                let mut i: usize = 0;
                while i < self.send_psk_ledger.len()
                    invariant
                        i <= self.send_psk_ledger.len(),
                        self.send_group == Some(*send),
                        epoch == send.classical.epoch,
                        forall|j: int|
                            0 <= j < i ==> (#[trigger] self.send_psk_ledger@[j]).epoch != epoch,
                    decreases self.send_psk_ledger.len() - i,
                {
                    if self.send_psk_ledger[i].epoch == epoch {
                        return false;
                    }
                    i += 1;
                }
                true
            },
        }
    }

    /// Remember the send group's PSK at its current epoch. `exported` is what exporting it
    /// gave; it is looked at only if `needs_send_psk`. A given epoch is exported at most
    /// once. What falls out of the ledger is retired.
    pub fn remember_send_psk(&mut self, exported: Result<ExportedPsk>) -> (r: Result<()>)
        requires
            old(self).wf(),
        ensures
            final(self).wf(),
            old(self).sound() ==> final(self).sound(),
            old(self).live() ==> final(self).live(),
            final(self).since(*old(self)),
            old(self).side_band_settled() && r is Ok ==> final(self).side_band_settled(),
            *final(self) == (TwoMlsPqSession {
                send_psk_ledger: final(self).send_psk_ledger,
                retired_send_psks: final(self).retired_send_psks,
                ..*old(self)
            }),
            match old(self).send_group {
                None => r == Err::<(), TwoMlsPqError>(TwoMlsPqError::SessionNotReady)
                    && *final(self) == *old(self),
                Some(g) => {
                    let l = old(self).send_psk_ledger@;
                    let epoch = g.classical.epoch;
                    &&& r == match remember_error(l, epoch, exported) {
                        Some(e) => Err::<(), TwoMlsPqError>(e),
                        None => Ok(()),
                    }
                    &&& final(self).send_psk_ledger@ == ledger_with(l, epoch, exported)
                    &&& final(self).retired_send_psks@ == retired_with(
                        l,
                        old(self).retired_send_psks@,
                        epoch,
                        exported,
                    )
                },
            },
    {
        if self.send_group.is_none() {
            return Err(TwoMlsPqError::SessionNotReady);
        }
        if !self.needs_send_psk() {
            return Ok(());
        }
        match exported {
            Err(e) => Err(e),
            Ok(psk) => {
                let epoch: u64 = match &self.send_group {
                    Some(send) => send.classical.epoch,
                    None => 0,
                };
                let ghost before = self.send_psk_ledger@;
                let ghost retired = self.retired_send_psks@;
                self.send_psk_ledger.push(PskEntry { epoch, exported: psk });
                let ghost all = self.send_psk_ledger@;
                proof {
                    assert forall|i: int, j: int|
                        old(self).sound() && 0 <= i < j < all.len() implies (
                    #[trigger] all[i]).epoch != (#[trigger] all[j]).epoch by {
                        assert(all[i] == before[i]);
                    }
                }
                if self.send_psk_ledger.len() > SEND_PSK_WINDOW {
                    let evicted = self.send_psk_ledger.remove(0);
                    self.retired_send_psks.push(
                        PskRef {
                            component_id: evicted.exported.component_id,
                            psk_id: evicted.exported.psk_id,
                        },
                    );
                    proof {
                        assert(self.send_psk_ledger@ =~= all.subrange(1, all.len() as int));
                        assert(self.retired_send_psks@ =~= retired_after(before, retired));
                    }
                }
                Ok(())
            },
        }
    }

    /// Before a peer's commit is processed: remember the current epoch's PSK and hand out the
    /// retired ids, which the host is to delete from its stores once it has registered the
    /// ledger. Nothing stays resolvable that the ledger no longer holds.
    pub fn inject_send_psks(&mut self, exported: Result<ExportedPsk>) -> (r: Result<Vec<PskRef>>)
        requires
            old(self).wf(),
        ensures
            final(self).wf(),
            old(self).sound() ==> final(self).sound(),
            old(self).live() ==> final(self).live(),
            final(self).since(*old(self)),
            old(self).side_band_settled() && r is Ok ==> final(self).side_band_settled(),
            *final(self) == (TwoMlsPqSession {
                send_psk_ledger: final(self).send_psk_ledger,
                retired_send_psks: final(self).retired_send_psks,
                ..*old(self)
            }),
            match old(self).send_group {
                None => r == Err::<Vec<PskRef>, TwoMlsPqError>(TwoMlsPqError::SessionNotReady)
                    && *final(self) == *old(self),
                Some(g) => {
                    let l = old(self).send_psk_ledger@;
                    let epoch = g.classical.epoch;
                    let retired = retired_with(l, old(self).retired_send_psks@, epoch, exported);
                    &&& final(self).send_psk_ledger@ == ledger_with(l, epoch, exported)
                    &&& match remember_error(l, epoch, exported) {
                        Some(e) => {
                            &&& r == Err::<Vec<PskRef>, TwoMlsPqError>(e)
                            &&& final(self).retired_send_psks@ == old(self).retired_send_psks@
                        },
                        None => {
                            &&& r matches Ok(v) && v@ == retired
                            &&& final(self).retired_send_psks@.len() == 0
                        },
                    }
                },
            },
    {
        match self.remember_send_psk(exported) {
            Err(e) => Err(e),
            Ok(()) => {
                let ghost due = self.retired_send_psks@;
                let mut retired: Vec<PskRef> = Vec::new();
                retired.append(&mut self.retired_send_psks);
                proof {
                    assert(retired@ =~= due);
                }
                Ok(retired)
            },
        }
    }
}

/// What can be routed can be opened: a session listens on exactly the epochs whose frames it
/// holds a header key for.
pub proof fn law_routable_iff_openable(s: TwoMlsPqSession, epoch: u64)
    requires
        s.sound(),
    ensures
        window_has(keys(s.listen_rendezvous@), epoch) <==> window_has(
            keys(s.recv_header_keys@),
            epoch,
        ),
{
    let a = keys(s.listen_rendezvous@);
    let b = keys(s.recv_header_keys@);
    lemma_lockstep_at(a, b);
    if window_has(a, epoch) {
        let i = choose|i: int| 0 <= i < a.len() && (#[trigger] a[i]).0 == epoch;
        assert(b[i].0 == epoch);
    }
    if window_has(b, epoch) {
        let i = choose|i: int| 0 <= i < b.len() && (#[trigger] b[i]).0 == epoch;
        assert(a[i].0 == epoch);
    }
}

/// The current epoch is always in a window that has just recorded it, and any other epoch
/// only if it was there before and is retained.
pub proof fn law_recorded_epochs(
    w: Seq<(u64, Seq<u8>)>,
    epoch: u64,
    key: Seq<u8>,
    retained: Seq<u64>,
    other: u64,
)
    requires
        ascending(w),
    ensures
        window_has(recorded(w, epoch, key, retained), epoch),
        other != epoch && window_has(recorded(w, epoch, key, retained), other) ==> window_has(
            w,
            other,
        ) && retained.contains(other),
{
    let r = recorded(w, epoch, key, retained);
    let below = |e: (u64, Seq<u8>)| e.0 < epoch && retained.contains(e.0);
    let above = |e: (u64, Seq<u8>)| e.0 > epoch && retained.contains(e.0);
    let a = w.filter(below);
    let b = w.filter(above);
    assert(r[a.len() as int].0 == epoch);
    if other != epoch && window_has(r, other) {
        let i = choose|i: int| 0 <= i < r.len() && (#[trigger] r[i]).0 == other;
        if i < a.len() {
            lemma_filter_member(w, below, i);
        } else {
            lemma_filter_member(w, above, i - a.len() - 1);
        }
    }
}

/// A filter leaves everything that passes it.
pub proof fn lemma_filter_keeps<A>(s: Seq<A>, p: spec_fn(A) -> bool, j: int)
    requires
        0 <= j < s.len(),
        p(s[j]),
    ensures
        s.filter(p).contains(s[j]),
    decreases s.len(),
{
    reveal(Seq::filter);
    let t = s.drop_last();
    assert(s =~= t.push(s.last()));
    lemma_filter_push(t, s.last(), p);
    let f = s.filter(p);
    if j < t.len() {
        assert(t[j] == s[j]);
        lemma_filter_keeps(t, p, j);
        let k = choose|k: int| 0 <= k < t.filter(p).len() && t.filter(p)[k] == t[j];
        assert(f[k] == s[j]);
    } else {
        assert(f[f.len() - 1] == s[j]);
    }
}

/// What a window holds once a value is inserted: that value, every entry of another epoch, and
/// nothing else.
pub proof fn lemma_inserted_members(
    w: Seq<(u64, Seq<u8>)>,
    epoch: u64,
    key: Seq<u8>,
    e: (u64, Seq<u8>),
)
    ensures
        inserted(w, epoch, key).contains((epoch, key)),
        w.contains(e) && e.0 != epoch ==> inserted(w, epoch, key).contains(e),
        inserted(w, epoch, key).contains(e) ==> e == (epoch, key) || w.contains(e),
{
    let below = |e: (u64, Seq<u8>)| e.0 < epoch;
    let above = |e: (u64, Seq<u8>)| e.0 > epoch;
    let (a, b) = (w.filter(below), w.filter(above));
    let all = inserted(w, epoch, key);
    assert(all =~= a + seq![(epoch, key)] + b);
    assert(all[a.len() as int] == (epoch, key));
    if w.contains(e) && e.0 != epoch {
        let j = choose|j: int| 0 <= j < w.len() && w[j] == e;
        if e.0 < epoch {
            lemma_filter_keeps(w, below, j);
            let k = choose|k: int| 0 <= k < a.len() && a[k] == e;
            assert(all[k] == e);
        } else {
            lemma_filter_keeps(w, above, j);
            let k = choose|k: int| 0 <= k < b.len() && b[k] == e;
            assert(all[a.len() + 1 + k] == e);
        }
    }
    if all.contains(e) {
        let i = choose|i: int| 0 <= i < all.len() && all[i] == e;
        if i < a.len() {
            lemma_filter_member(w, below, i);
        } else if i > a.len() {
            lemma_filter_member(w, above, i - a.len() - 1);
        }
    }
}

/// The entries of a window.
pub open spec fn entries(w: Seq<EpochKey>) -> Set<(u64, Seq<u8>)> {
    Set::new(
        |e: (u64, Seq<u8>)|
            exists|i: int| 0 <= i < w.len() && (#[trigger] w[i]).epoch == e.0 && w[i].key@ == e.1,
    )
}

/// A window and its list of keys hold the same.
pub proof fn lemma_entries_are_keys(w: Seq<EpochKey>, e: (u64, Seq<u8>))
    ensures
        entries(w).contains(e) <==> keys(w).contains(e),
{
    if entries(w).contains(e) {
        let i = choose|i: int|
            0 <= i < w.len() && (#[trigger] w[i]).epoch == e.0 && w[i].key@ == e.1;
        assert(keys(w)[i] == e);
    }
    if keys(w).contains(e) {
        let i = choose|i: int| 0 <= i < keys(w).len() && keys(w)[i] == e;
        assert(w[i].epoch == e.0 && w[i].key@ == e.1);
    }
}

/// A window with all but its last `n` entries dropped, said by its entries: it has no more than
/// `n`, what it holds it held before, and whatever it holds no more is older than each of the
/// `n` that it does.
pub proof fn lemma_newest_drops_oldest(w: Seq<(u64, Seq<u8>)>, n: nat, e: (u64, Seq<u8>))
    requires
        ascending(w),
    ensures
        newest(w, n).len() <= n,
        newest(w, n).contains(e) ==> w.contains(e),
        w.contains(e) && !newest(w, n).contains(e) ==> newest(w, n).len() == n && forall|k: int|
            0 <= k < n ==> (#[trigger] newest(w, n)[k]).0 > e.0,
{
    let r = newest(w, n);
    if r.contains(e) {
        let k = choose|k: int| 0 <= k < r.len() && r[k] == e;
        if w.len() > n {
            assert(w[w.len() - n + k] == e);
        }
    }
    if w.contains(e) && !r.contains(e) {
        let j = choose|j: int| 0 <= j < w.len() && w[j] == e;
        assert(w.len() > n);
        if j >= w.len() - n {
            assert(r[j - (w.len() - n)] == e);
        }
        assert forall|k: int| 0 <= k < n implies (#[trigger] r[k]).0 > e.0 by {
            assert(r[k] == w[w.len() - n + k]);
            assert(w[j].0 < w[w.len() - n + k].0);
        }
    }
}

} // verus!
