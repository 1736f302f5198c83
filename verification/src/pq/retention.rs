//! What the windows and the ledger hold after an operation, said by their entries: what is there,
//! what was dropped and for what.

use vstd::prelude::*;
use super::error::{Result, TwoMlsPqError};
use super::pq_ops::{
    BootstrapBindOutcome, CreatedHalf, RatchetBindOutcome, RekeyApplyOutcome, RekeyRespondOutcome,
};
use super::prepare::{listening, PrepareEncryptResult, PrepareOutcome};
use super::providers::{header_open_of, HEADER_NONCE_LEN};
use super::sealing::{
    header_candidates, law_sealed_frame_opens, newest_first, sealed_as,
};
use super::state::{
    keys, ledger_has, CombinerGroup, EpochKey, ExportedPsk, PskRef, TwoMlsPqSession,
};
use super::windows::{
    entries, inserted, kept_above, kept_below, lemma_entries_are_keys, lemma_filter_keeps,
    lemma_filter_member, lemma_inserted_ascending, lemma_inserted_members,
    lemma_newest_drops_oldest, newest, recorded, window_has,
};
use crate::types::ClientId;

verus! {

// ---- the side-band window ----

/// The PQ epoch of a group and its header key, if it has a PQ half.
pub open spec fn pq_entry(g: Option<CombinerGroup>) -> Option<(u64, Seq<u8>)> {
    match g {
        Some(g) => match g.pq {
            Some(pq) => Some((pq.epoch, pq.header_key@)),
            None => None,
        },
        None => None,
    }
}

/// Whether a side-band window that took in an entry keeps what it should: at most four entries,
/// each an earlier one or the new one; it drops one only where four of later epochs stay; it
/// holds the new one where none of its own is as late; and a value is never replaced.
pub open spec fn keeps_newest(
    was: Seq<EpochKey>,
    is: Seq<EpochKey>,
    current: Option<(u64, Seq<u8>)>,
) -> bool {
    &&& is.len() <= 4
    &&& forall|e: (u64, Seq<u8>)| #[trigger]
        entries(is).contains(e) ==> entries(was).contains(e) || current == Some(e)
    &&& forall|e: (u64, Seq<u8>)| #[trigger]
        entries(was).contains(e) ==> entries(is).contains(e) || (is.len() == 4 && forall|k: int|
            0 <= k < 4 ==> (#[trigger] is[k]).epoch > e.0)
    &&& current matches Some(c) ==> (forall|k: int|
        0 <= k < was.len() ==> (#[trigger] was[k]).epoch < c.0) ==> entries(is).contains(c)
    &&& forall|j: int, k: int|
        0 <= j < was.len() && 0 <= k < is.len() && (#[trigger] was[j]).epoch == (
        #[trigger] is[k]).epoch ==> was[j].key@ == is[k].key@
}

/// A window that recorded a group's current PQ epoch keeps what it should.
proof fn lemma_keeps_newest(s: TwoMlsPqSession, g: Option<CombinerGroup>, is: Seq<EpochKey>)
    requires
        s.wf(),
        s.sound(),
        keys(is) == s.header_keys_recorded(g),
    ensures
        keeps_newest(s.recv_header_keys_pq@, is, pq_entry(g)),
{
    let was = s.recv_header_keys_pq@;
    assert(keys(was).len() == was.len() && keys(is).len() == is.len());
    assert forall|k: int| 0 <= k < is.len() implies keys(is)[k] == ((#[trigger] is[k]).epoch, is[
        k
    ].key@) by {}
    assert forall|k: int| 0 <= k < was.len() implies keys(was)[k] == ((
    #[trigger] was[k]).epoch, was[k].key@) by {}
    let c = pq_entry(g)->0;
    if pq_entry(g) is Some && !window_has(keys(was), c.0) {
        let all = inserted(keys(was), c.0, c.1);
        lemma_inserted_ascending(keys(was), c.0, c.1);
        assert forall|e: (u64, Seq<u8>)| #[trigger] entries(is).contains(e) implies entries(
            was,
        ).contains(e) || Some(c) == Some(e) by {
            lemma_entries_are_keys(is, e);
            lemma_entries_are_keys(was, e);
            lemma_newest_drops_oldest(all, 4, e);
            lemma_inserted_members(keys(was), c.0, c.1, e);
        }
        lemma_newest_drops_oldest(all, 4, c);
        assert forall|e: (u64, Seq<u8>)| #[trigger] entries(was).contains(e) implies entries(
            is,
        ).contains(e) || (is.len() == 4 && forall|k: int|
            0 <= k < 4 ==> (#[trigger] is[k]).epoch > e.0) by {
            lemma_entries_are_keys(is, e);
            lemma_entries_are_keys(was, e);
            lemma_inserted_members(keys(was), c.0, c.1, e);
            lemma_newest_drops_oldest(all, 4, e);
            let i = choose|i: int| 0 <= i < keys(was).len() && keys(was)[i] == e;
            assert(e.0 != c.0);
            if !entries(is).contains(e) {
                assert forall|k: int| 0 <= k < 4 implies (#[trigger] is[k]).epoch > e.0 by {
                    assert(newest(all, 4)[k].0 > e.0);
                }
            }
        }
        if forall|k: int| 0 <= k < was.len() ==> (#[trigger] was[k]).epoch < c.0 {
            lemma_entries_are_keys(is, c);
            lemma_inserted_members(keys(was), c.0, c.1, c);
            if !entries(is).contains(c) {
                let n = newest(all, 4);
                let top = n[0];
                assert(top.0 > c.0);
                assert(n.contains(top));
                lemma_newest_drops_oldest(all, 4, top);
                lemma_inserted_members(keys(was), c.0, c.1, top);
                let i = choose|i: int| 0 <= i < keys(was).len() && keys(was)[i] == top;
                assert(was[i].epoch < c.0);
            }
        }
        assert forall|j: int, k: int|
            0 <= j < was.len() && 0 <= k < is.len() && (#[trigger] was[j]).epoch == (
            #[trigger] is[k]).epoch implies was[j].key@ == is[k].key@ by {
            let e = (is[k].epoch, is[k].key@);
            assert(keys(is)[k] == e);
            assert(keys(was)[j].0 == e.0);
            lemma_newest_drops_oldest(all, 4, e);
            assert(newest(all, 4).contains(e));
            lemma_inserted_members(keys(was), c.0, c.1, e);
            if e == c {
                assert(window_has(keys(was), c.0));
            } else {
                let i = choose|i: int| 0 <= i < keys(was).len() && keys(was)[i] == e;
                assert(keys(was)[i].0 == keys(was)[j].0);
                assert(i == j);
            }
        }
    } else {
        assert(keys(is) == keys(was));
        assert forall|e: (u64, Seq<u8>)| entries(is).contains(e) == entries(was).contains(e) by {
            lemma_entries_are_keys(is, e);
            lemma_entries_are_keys(was, e);
        }
        if pq_entry(g) is Some {
            let i = choose|i: int|
                0 <= i < keys(was).len() && (#[trigger] keys(was)[i]).0 == c.0;
            assert(was[i].epoch == c.0);
        }
        assert forall|j: int, k: int|
            0 <= j < was.len() && 0 <= k < is.len() && (#[trigger] was[j]).epoch == (
            #[trigger] is[k]).epoch implies was[j].key@ == is[k].key@ by {
            assert(keys(is)[k] == keys(was)[k]);
            assert(keys(was)[j].0 == keys(was)[k].0);
        }
    }
}

/// Recording the PQ header key keeps the newest four, the send group's current one among them.
pub proof fn law_current_pq_epoch_is_recorded(s: &mut TwoMlsPqSession)
    requires
        old(s).wf(),
        old(s).sound(),
        call_ensures(TwoMlsPqSession::record_pq_header_key, (s,), ()),
    ensures
        keeps_newest(
            old(s).recv_header_keys_pq@,
            final(s).recv_header_keys_pq@,
            pq_entry(old(s).send_group),
        ),
        final(s).send_group == old(s).send_group,
{
    lemma_keeps_newest(*old(s), old(s).send_group, final(s).recv_header_keys_pq@);
}

/// A bind of a ratchet round records the send group's new PQ epoch.
pub proof fn law_ratchet_bind_records_its_epoch(
    s: &mut TwoMlsPqSession,
    msg: Vec<u8>,
    out: RatchetBindOutcome,
)
    requires
        old(s).wf(),
        old(s).sound(),
        call_ensures(TwoMlsPqSession::pq_ratchet_bind, (s, msg, out), Ok(())),
    ensures
        out.commit matches Ok(c) && final(s).send_group matches Some(g) && g.pq == Some(c.half),
        keeps_newest(
            old(s).recv_header_keys_pq@,
            final(s).recv_header_keys_pq@,
            pq_entry(final(s).send_group),
        ),
{
    lemma_keeps_newest(*old(s), final(s).send_group, final(s).recv_header_keys_pq@);
}

/// Answering a re-key records the send group's new PQ epoch.
pub proof fn law_rekey_answer_records_its_epoch(
    s: &mut TwoMlsPqSession,
    msg: Vec<u8>,
    canonical: &Vec<Vec<u8>>,
    out: RekeyRespondOutcome,
    id: Option<ClientId>,
)
    requires
        old(s).wf(),
        old(s).sound(),
        call_ensures(TwoMlsPqSession::pq_rekey_respond, (s, msg, canonical, out), Ok(id)),
    ensures
        out.commit matches Ok(c) && final(s).send_group matches Some(g) && g.pq == Some(c.half),
        keeps_newest(
            old(s).recv_header_keys_pq@,
            final(s).recv_header_keys_pq@,
            pq_entry(final(s).send_group),
        ),
{
    lemma_keeps_newest(*old(s), final(s).send_group, final(s).recv_header_keys_pq@);
}

/// Closing a re-key records the send group's new PQ epoch.
pub proof fn law_rekey_bind_records_its_epoch(
    s: &mut TwoMlsPqSession,
    msg: Vec<u8>,
    out: RekeyApplyOutcome,
)
    requires
        old(s).wf(),
        old(s).sound(),
        call_ensures(TwoMlsPqSession::pq_rekey_apply, (s, msg, out), Ok(())),
    ensures
        out.commit matches Ok(c) && final(s).send_group matches Some(g) && g.pq == Some(c.half),
        keeps_newest(
            old(s).recv_header_keys_pq@,
            final(s).recv_header_keys_pq@,
            pq_entry(final(s).send_group),
        ),
{
    lemma_keeps_newest(*old(s), final(s).send_group, final(s).recv_header_keys_pq@);
}

/// Answering a bootstrap records the first PQ epoch of the send group.
pub proof fn law_bootstrap_answer_records_its_epoch(
    s: &mut TwoMlsPqSession,
    msg: Vec<u8>,
    created: Result<CreatedHalf>,
)
    requires
        old(s).wf(),
        old(s).sound(),
        call_ensures(TwoMlsPqSession::pq_bootstrap_respond, (s, msg, created), Ok(())),
    ensures
        created matches Ok(c) && final(s).send_group matches Some(g) && g.pq == Some(c.half),
        keeps_newest(
            old(s).recv_header_keys_pq@,
            final(s).recv_header_keys_pq@,
            pq_entry(final(s).send_group),
        ),
{
    lemma_keeps_newest(*old(s), final(s).send_group, final(s).recv_header_keys_pq@);
}

/// Closing a bootstrap records the send group's new PQ epoch.
pub proof fn law_bootstrap_bind_records_its_epoch(
    s: &mut TwoMlsPqSession,
    msg: Vec<u8>,
    out: BootstrapBindOutcome,
)
    requires
        old(s).wf(),
        old(s).sound(),
        call_ensures(TwoMlsPqSession::pq_bootstrap_bind, (s, msg, out), Ok(())),
    ensures
        out.commit matches Ok(c) && final(s).send_group matches Some(g) && g.pq == Some(c.half),
        keeps_newest(
            old(s).recv_header_keys_pq@,
            final(s).recv_header_keys_pq@,
            pq_entry(final(s).send_group),
        ),
{
    lemma_keeps_newest(*old(s), final(s).send_group, final(s).recv_header_keys_pq@);
}

/// The first place of a key among the candidates.
pub proof fn lemma_first_place(c: Seq<Seq<u8>>, key: Seq<u8>, n: int) -> (i: int)
    requires
        0 <= n < c.len(),
        c[n] == key,
    ensures
        0 <= i <= n,
        c[i] == key,
        forall|j: int| 0 <= j < i ==> c[j] != key,
    decreases n,
{
    if exists|j: int| 0 <= j < n && c[j] == key {
        let j = choose|j: int| 0 <= j < n && c[j] == key;
        lemma_first_place(c, key, j)
    } else {
        n
    }
}

/// A frame that the peer seals under the current PQ header key opens, once that epoch is recorded
/// and unless another key of ours opens it too.
pub proof fn law_current_pq_key_opens(
    s: &mut TwoMlsPqSession,
    t: &TwoMlsPqSession,
    blob: Vec<u8>,
    frame: Seq<u8>,
    opened: Vec<u8>,
)
    requires
        old(s).wf(),
        old(s).sound(),
        call_ensures(TwoMlsPqSession::record_pq_header_key, (s,), ()),
        *t == *final(s),
        call_ensures(TwoMlsPqSession::open_or_raw, (t, blob), opened),
        pq_entry(old(s).send_group) matches Some(c) && {
            &&& forall|k: int|
                0 <= k < old(s).recv_header_keys_pq@.len() ==> (
                #[trigger] old(s).recv_header_keys_pq@[k]).epoch < c.0
            &&& sealed_as(blob@, c.1, frame)
            &&& forall|key: Seq<u8>|
                key != c.1 ==> #[trigger] header_open_of(
                    key,
                    blob@.subrange(0, HEADER_NONCE_LEN as int),
                    blob@.subrange(HEADER_NONCE_LEN as int, blob@.len() as int),
                ) is None
        },
    ensures
        opened@ == frame,
{
    lemma_keeps_newest(*old(s), old(s).send_group, final(s).recv_header_keys_pq@);
    let c = pq_entry(old(s).send_group)->0;
    let w = t.recv_header_keys_pq@;
    assert(entries(w).contains(c));
    let i = choose|i: int| 0 <= i < w.len() && (#[trigger] w[i]).epoch == c.0 && w[i].key@ == c.1;
    let all = header_candidates(*t);
    let n = t.recv_header_keys@.len() + (w.len() - 1 - i);
    assert(newest_first(w)[w.len() - 1 - i] == c.1);
    assert(all[n] == c.1);
    let first = lemma_first_place(all, c.1, n);
    law_sealed_frame_opens(*t, blob@, c.1, frame, first);
}

// ---- the listen windows ----

/// What a window holds once a value was captured: that value, and of the other epochs those that
/// are retained, as they were.
proof fn lemma_recorded_members(
    w: Seq<(u64, Seq<u8>)>,
    epoch: u64,
    key: Seq<u8>,
    retained: Seq<u64>,
    e: (u64, Seq<u8>),
)
    ensures
        recorded(w, epoch, key, retained).contains(e) <==> e == (epoch, key) || (w.contains(e)
            && e.0 != epoch && retained.contains(e.0)),
{
    let below = |e: (u64, Seq<u8>)| e.0 < epoch && retained.contains(e.0);
    let above = |e: (u64, Seq<u8>)| e.0 > epoch && retained.contains(e.0);
    let (a, b) = (w.filter(below), w.filter(above));
    assert(kept_below(w, epoch, retained) == a && kept_above(w, epoch, retained) == b);
    let all = recorded(w, epoch, key, retained);
    assert(all =~= a + seq![(epoch, key)] + b);
    assert(all[a.len() as int] == (epoch, key));
    if w.contains(e) && e.0 != epoch && retained.contains(e.0) {
        let j = choose|j: int| 0 <= j < w.len() && w[j] == e;
        if e.0 < epoch {
            lemma_filter_keeps(w, below, j);
            let k = choose|k: int| 0 <= k < a.len() && a[k] == e;
            assert(all[k] == e);
        } else {
            lemma_filter_keeps(w, above, j);
            let k = choose|k: int| 0 <= k < b.len() && b[k] == e;
            assert(all[a.len() + 1 + k] == e);
        }
    }
    if all.contains(e) {
        let i = choose|i: int| 0 <= i < all.len() && all[i] == e;
        if i < a.len() {
            lemma_filter_member(w, below, i);
        } else if i > a.len() {
            lemma_filter_member(w, above, i - a.len() - 1);
        }
    }
}

/// Whether a window captured the value of an epoch: if it held that epoch it is as it was, else it
/// holds the value, and exactly the retained ones of what it held.
pub open spec fn captures(
    was: Seq<EpochKey>,
    is: Seq<EpochKey>,
    held: bool,
    epoch: u64,
    value: Seq<u8>,
    retained: Seq<u64>,
) -> bool {
    forall|e: (u64, Seq<u8>)| #[trigger]
        entries(is).contains(e) <==> if held {
            entries(was).contains(e)
        } else {
            e == (epoch, value) || (entries(was).contains(e) && e.0 != epoch
                && retained.contains(e.0))
        }
}

/// Whether a session has captured its send group's current epoch in both windows.
pub open spec fn captures_current(s: TwoMlsPqSession, now: TwoMlsPqSession) -> bool {
    let half = s.send_group->0.classical;
    let held = exists|i: int|
        0 <= i < s.listen_rendezvous@.len() && (#[trigger] s.listen_rendezvous@[i]).epoch
            == half.epoch;
    &&& captures(
        s.listen_rendezvous@,
        now.listen_rendezvous@,
        held,
        half.epoch,
        half.rendezvous@,
        half.retained@,
    )
    &&& captures(
        s.recv_header_keys@,
        now.recv_header_keys@,
        held,
        half.epoch,
        half.header_key@,
        half.retained@,
    )
}

/// Listening on the current epoch captures it.
pub proof fn lemma_listening_captures(s: TwoMlsPqSession, now: TwoMlsPqSession)
    requires
        listening(s, true, now),
        s.send_group is Some,
    ensures
        captures_current(s, now),
{
    let half = s.send_group->0.classical;
    let listen = s.listen_rendezvous@;
    let held = exists|i: int|
        0 <= i < listen.len() && (#[trigger] listen[i]).epoch == half.epoch;
    assert(held == window_has(keys(listen), half.epoch)) by {
        if held {
            let i = choose|i: int|
                0 <= i < listen.len() && (#[trigger] listen[i]).epoch == half.epoch;
            assert(keys(listen)[i].0 == half.epoch);
        }
        if window_has(keys(listen), half.epoch) {
            let i = choose|i: int|
                0 <= i < keys(listen).len() && (#[trigger] keys(listen)[i]).0 == half.epoch;
            assert(listen[i].epoch == half.epoch);
        }
    }
    assert forall|e: (u64, Seq<u8>)| #[trigger]
        entries(now.listen_rendezvous@).contains(e) <==> (if held {
            entries(listen).contains(e)
        } else {
            e == (half.epoch, half.rendezvous@) || (entries(listen).contains(e) && e.0
                != half.epoch && half.retained@.contains(e.0))
        }) by {
        lemma_entries_are_keys(now.listen_rendezvous@, e);
        lemma_entries_are_keys(listen, e);
        lemma_recorded_members(keys(listen), half.epoch, half.rendezvous@, half.retained@, e);
    }
    let header = s.recv_header_keys@;
    assert forall|e: (u64, Seq<u8>)| #[trigger]
        entries(now.recv_header_keys@).contains(e) <==> (if held {
            entries(header).contains(e)
        } else {
            e == (half.epoch, half.header_key@) || (entries(header).contains(e) && e.0
                != half.epoch && half.retained@.contains(e.0))
        }) by {
        lemma_entries_are_keys(now.recv_header_keys@, e);
        lemma_entries_are_keys(header, e);
        lemma_recorded_members(keys(header), half.epoch, half.header_key@, half.retained@, e);
    }
}

/// The session listens on its current epoch from then on: the address and the header key of the
/// send group's epoch are captured, those of the epochs that are retained stay, the others go.
pub proof fn law_current_epoch_is_captured(s: &mut TwoMlsPqSession)
    requires
        call_ensures(TwoMlsPqSession::record_listen_rendezvous, (s,), ()),
        old(s).send_group is Some,
    ensures
        captures_current(*old(s), *final(s)),
{
    lemma_listening_captures(*old(s), *final(s));
}

/// A round that succeeded listens on the epoch that the send group is then in.
pub proof fn law_round_listens_on_its_epoch(
    s: &mut TwoMlsPqSession,
    proposing: Option<ClientId>,
    out: PrepareOutcome,
    p: PrepareEncryptResult,
)
    requires
        call_ensures(TwoMlsPqSession::prepare_to_encrypt, (s, proposing, out), Ok(p)),
        final(s).send_group is Some,
    ensures
        ({
            let before = TwoMlsPqSession { send_group: final(s).send_group, ..*old(s) };
            captures_current(before, *final(s))
        }),
{
    let before = TwoMlsPqSession { send_group: final(s).send_group, ..*old(s) };
    let mid = TwoMlsPqSession {
        listen_rendezvous: old(s).listen_rendezvous,
        recv_header_keys: old(s).recv_header_keys,
        ..*final(s)
    };
    lemma_listening_captures(mid, *final(s));
}

// ---- the ledger ----

/// A PSK is remembered for the send group's epoch once: if that epoch was there, the ledger is as
/// it was; else the new entry comes last. Only the oldest of eight gives way, and its id is then
/// retired, after the others. Where exporting failed, nothing changes.
pub proof fn law_ledger_remembers_in_order(
    s: &mut TwoMlsPqSession,
    exported: Result<ExportedPsk>,
    r: Result<()>,
)
    requires
        old(s).send_psk_ledger@.len() <= 8,
        call_ensures(TwoMlsPqSession::remember_send_psk, (s, exported), r),
        old(s).send_group is Some,
    ensures
        ({
            let epoch = old(s).send_group->0.classical.epoch;
            let (was, is) = (old(s).send_psk_ledger@, final(s).send_psk_ledger@);
            let (gone, out) = (old(s).retired_send_psks@, final(s).retired_send_psks@);
            if ledger_has(was, epoch) {
                r is Ok && is == was && out == gone
            } else if exported is Err {
                r == Err::<(), TwoMlsPqError>(exported->Err_0) && is == was && out == gone
            } else {
                let dropped = if was.len() == 8 {
                    1int
                } else {
                    0
                };
                &&& r is Ok
                &&& is.len() == was.len() + 1 - dropped
                &&& is.last().epoch == epoch
                &&& is.last().exported == exported->Ok_0
                &&& forall|i: int| dropped <= i < was.len() ==> is[i - dropped] == #[trigger] was[i]
                &&& out.len() == gone.len() + dropped
                &&& forall|i: int| 0 <= i < gone.len() ==> out[i] == #[trigger] gone[i]
                &&& dropped == 1 ==> out.last().component_id == was[0].exported.component_id
                    && out.last().psk_id == was[0].exported.psk_id
            }
        }),
{
}

/// The ids that are handed out to be deleted are every one that was retired, the one that this
/// call retired last among them, and none is left; an id that the ledger still holds under the
/// current epoch is not handed out by this call.
pub proof fn law_retired_ids_are_handed_out_once(
    s: &mut TwoMlsPqSession,
    exported: Result<ExportedPsk>,
    refs: Vec<PskRef>,
)
    requires
        old(s).send_psk_ledger@.len() <= 8,
        call_ensures(TwoMlsPqSession::inject_send_psks, (s, exported), Ok(refs)),
    ensures
        final(s).retired_send_psks@.len() == 0,
        forall|i: int|
            0 <= i < old(s).retired_send_psks@.len() ==> refs@[i] == #[trigger] old(
                s,
            ).retired_send_psks@[i],
        refs@.len() <= old(s).retired_send_psks@.len() + 1,
        refs@.len() > old(s).retired_send_psks@.len() ==> {
            &&& old(s).send_psk_ledger@.len() == 8
            &&& final(s).send_psk_ledger@ == old(s).send_psk_ledger@.drop_first().push(
                final(s).send_psk_ledger@.last(),
            )
            &&& refs@.last().psk_id == old(s).send_psk_ledger@[0].exported.psk_id
        },
        ledger_has(final(s).send_psk_ledger@, old(s).send_group->0.classical.epoch),
{
    let l = old(s).send_psk_ledger@;
    let epoch = old(s).send_group->0.classical.epoch;
    if !ledger_has(l, epoch) {
        let is = final(s).send_psk_ledger@;
        assert(is.last().epoch == epoch);
        assert(ledger_has(is, epoch));
        if l.len() == 8 {
            assert(is =~= l.drop_first().push(is.last()));
        }
    }
}

} // verus!
