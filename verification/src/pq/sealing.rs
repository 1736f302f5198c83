//! Header encryption: the outer seal that makes every frame on a rendezvous channel one
//! opaque blob, a random nonce followed by the AEAD ciphertext.
//!
//! A message-path frame is sealed under the classical header key of the receive group, a
//! side-band frame under the PQ one; the peer opens either from its own send-group windows.

use vstd::prelude::*;
use crate::bytes::{append, copy_bytes, opt_bytes, tail};
use super::error::{Result, TwoMlsPqError};
use super::frames::{opened_frame_kind, opened_kind_of_tag, OpenedFrame, SideBandSealing};
use super::persist::taken;
use super::providers::{
    header_aead_key_size, header_aead_nonce_size, header_aead_open, header_aead_seal,
    header_open_of, header_seal_of, random_bytes, HEADER_KEY_LEN, HEADER_NONCE_LEN, HEADER_TAG_LEN,
};
use super::state::{EpochKey, RetainedFrame, TwoMlsPqSession};

verus! {

/// Whether `blob` is `frame` sealed under `key`: a nonce, then the ciphertext, which opens
/// to the frame.
pub open spec fn sealed_as(blob: Seq<u8>, key: Seq<u8>, frame: Seq<u8>) -> bool {
    let nonce = blob.subrange(0, HEADER_NONCE_LEN as int);
    let ct = blob.subrange(HEADER_NONCE_LEN as int, blob.len() as int);
    &&& blob.len() == HEADER_NONCE_LEN + frame.len() + HEADER_TAG_LEN
    &&& header_seal_of(key, nonce, frame) == Some(ct)
    &&& header_open_of(key, nonce, ct) == Some(frame)
}

/// Whether drawing a nonce gave this: the random source was asked for a nonce of the AEAD's
/// size and gave these bytes, or gave none.
pub closed spec fn nonce_drawn(drawn: Option<Seq<u8>>) -> bool {
    exists|v: Option<Vec<u8>>| #[trigger]
        call_ensures(random_bytes, (HEADER_NONCE_LEN,), v) && opt_bytes(v) == drawn
}

/// Draw a nonce from the random source.
fn draw_nonce() -> (r: Option<Vec<u8>>)
    ensures
        nonce_drawn(opt_bytes(r)),
        r matches Some(nonce) ==> nonce@.len() == HEADER_NONCE_LEN,
{
    match header_aead_nonce_size() {
        Some(n) => {
            let r = random_bytes(n);
            assert(call_ensures(random_bytes, (HEADER_NONCE_LEN,), r));
            r
        },
        None => None,
    }
}

/// Whether `blob` is `frame` sealed under `key` and a nonce that was drawn for it.
pub open spec fn freshly_sealed(blob: Seq<u8>, key: Seq<u8>, frame: Seq<u8>) -> bool {
    &&& sealed_as(blob, key, frame)
    &&& nonce_drawn(Some(blob.subrange(0, HEADER_NONCE_LEN as int)))
}

/// Why a frame is not sealed: no nonce could be drawn, the key is not of the AEAD's size, or
/// the frame is beyond what it seals.
pub open spec fn cannot_seal(key: Seq<u8>, frame: Seq<u8>) -> bool {
    nonce_drawn(None) || key.len() != HEADER_KEY_LEN || frame.len() > u32::MAX
}

/// Length of a header key: the key size of the header AEAD.
pub fn header_key_len() -> (r: Result<usize>)
    ensures
        r == Ok::<usize, TwoMlsPqError>(HEADER_KEY_LEN),
{
    match header_aead_key_size() {
        Some(n) => Ok(n),
        None => Err(TwoMlsPqError::Mls),
    }
}

/// Seal `frame` under `key` with a nonce at hand. A key and a nonce of the AEAD's sizes seal
/// any frame below the AEAD's limit.
pub fn seal_with_nonce(key: &[u8], nonce: Vec<u8>, frame: &[u8]) -> (r: Result<Vec<u8>>)
    ensures
        match header_seal_of(key@, nonce@, frame@) {
            Some(ct) => r matches Ok(b) && b@ == nonce@ + ct && sealed_as(b@, key@, frame@),
            None => r == Err::<Vec<u8>, TwoMlsPqError>(TwoMlsPqError::Mls),
        },
        r matches Ok(b) ==> b@.subrange(0, HEADER_NONCE_LEN as int) == nonce@,
        r is Ok ==> key@.len() == HEADER_KEY_LEN && nonce@.len() == HEADER_NONCE_LEN,
        key@.len() == HEADER_KEY_LEN && nonce@.len() == HEADER_NONCE_LEN && frame@.len()
            <= u32::MAX ==> r is Ok,
{
    let ct = match header_aead_seal(key, nonce.as_slice(), frame) {
        Some(v) => v,
        None => return Err(TwoMlsPqError::Mls),
    };
    let ghost nv = nonce@;
    let mut out = nonce;
    append(&mut out, ct.as_slice());
    proof {
        assert(out@.subrange(0, HEADER_NONCE_LEN as int) =~= nv);
        assert(out@.subrange(HEADER_NONCE_LEN as int, out@.len() as int) =~= ct@);
    }
    Ok(out)
}

/// Seal `frame` under `key` with a nonce drawn for it.
pub fn seal_with(key: &[u8], frame: &[u8]) -> (r: Result<Vec<u8>>)
    ensures
        match r {
            Ok(b) => freshly_sealed(b@, key@, frame@),
            Err(e) => e == TwoMlsPqError::Mls && cannot_seal(key@, frame@),
        },
        key@.len() != HEADER_KEY_LEN ==> r is Err,
{
    match draw_nonce() {
        Some(nonce) => seal_with_nonce(key, nonce, frame),
        None => Err(TwoMlsPqError::Mls),
    }
}

/// What the first key that opens the ciphertext opens it to.
pub open spec fn open_with(keys: Seq<Seq<u8>>, nonce: Seq<u8>, ct: Seq<u8>) -> Option<Seq<u8>>
    decreases keys.len(),
{
    if keys.len() == 0 {
        None
    } else {
        match header_open_of(keys[0], nonce, ct) {
            Some(frame) => Some(frame),
            None => open_with(keys.subrange(1, keys.len() as int), nonce, ct),
        }
    }
}

/// The values of a window, newest first.
pub open spec fn newest_first(w: Seq<EpochKey>) -> Seq<Seq<u8>> {
    Seq::new(w.len(), |i: int| w[w.len() - 1 - i].key@)
}

/// The keys that an inbound blob is tried with, in order: the classical window, then the
/// side-band window, each newest first.
pub open spec fn header_candidates(s: TwoMlsPqSession) -> Seq<Seq<u8>> {
    newest_first(s.recv_header_keys@) + newest_first(s.recv_header_keys_pq@)
}

/// What an inbound blob opens to, if any window key opens it.
pub open spec fn opened_of(s: TwoMlsPqSession, blob: Seq<u8>) -> Option<Seq<u8>> {
    if blob.len() < HEADER_NONCE_LEN {
        None
    } else {
        open_with(
            header_candidates(s),
            blob.subrange(0, HEADER_NONCE_LEN as int),
            blob.subrange(HEADER_NONCE_LEN as int, blob.len() as int),
        )
    }
}

/// A blob with its seal removed if the windows can, else as it is.
pub open spec fn opened_or_raw(s: TwoMlsPqSession, blob: Seq<u8>) -> Seq<u8> {
    match opened_of(s, blob) {
        Some(frame) => frame,
        None => blob,
    }
}

/// Whether `r` says what a blob opens to and which receive operation the frame is for.
pub open spec fn opened_as(
    s: TwoMlsPqSession,
    blob: Seq<u8>,
    r: Result<Option<OpenedFrame>>,
) -> bool {
    match opened_of(s, blob) {
        None => r matches Ok(None),
        Some(frame) => {
            let kind = if frame.len() == 0 {
                None
            } else {
                opened_kind_of_tag(frame[0])
            };
            match kind {
                Some(k) => r matches Ok(Some(o)) && o.kind == k && o.frame@ == frame,
                None => r == Err::<Option<OpenedFrame>, TwoMlsPqError>(
                    TwoMlsPqError::DecryptionFailed,
                ),
            }
        },
    }
}

proof fn lemma_open_with_concat(a: Seq<Seq<u8>>, b: Seq<Seq<u8>>, nonce: Seq<u8>, ct: Seq<u8>)
    ensures
        open_with(a + b, nonce, ct) == match open_with(a, nonce, ct) {
            Some(f) => Some(f),
            None => open_with(b, nonce, ct),
        },
    decreases a.len(),
{
    if a.len() == 0 {
        assert(a + b =~= b);
    } else {
        assert((a + b)[0] == a[0]);
        assert((a + b).subrange(1, (a + b).len() as int) =~= a.subrange(1, a.len() as int) + b);
        lemma_open_with_concat(a.subrange(1, a.len() as int), b, nonce, ct);
    }
}

proof fn lemma_open_with_at(keys: Seq<Seq<u8>>, nonce: Seq<u8>, ct: Seq<u8>, i: int)
    requires
        0 <= i < keys.len(),
        header_open_of(keys[i], nonce, ct) is Some,
        forall|j: int| 0 <= j < i ==> header_open_of(#[trigger] keys[j], nonce, ct) is None,
    ensures
        open_with(keys, nonce, ct) == header_open_of(keys[i], nonce, ct),
    decreases i,
{
    if i > 0 {
        assert(header_open_of(keys[0], nonce, ct) is None);
        let t = keys.subrange(1, keys.len() as int);
        assert forall|j: int| 0 <= j < i - 1 implies header_open_of(
            #[trigger] t[j],
            nonce,
            ct,
        ) is None by {
            assert(t[j] == keys[j + 1]);
        }
        lemma_open_with_at(t, nonce, ct, i - 1);
    }
}

/// A frame sealed under a key that is in the receiver's windows opens to that frame, unless
/// a key tried earlier opens the blob too.
pub proof fn law_sealed_frame_opens(
    s: TwoMlsPqSession,
    blob: Seq<u8>,
    key: Seq<u8>,
    frame: Seq<u8>,
    i: int,
)
    requires
        sealed_as(blob, key, frame),
        0 <= i < header_candidates(s).len(),
        header_candidates(s)[i] == key,
        forall|j: int|
            0 <= j < i ==> header_open_of(
                #[trigger] header_candidates(s)[j],
                blob.subrange(0, HEADER_NONCE_LEN as int),
                blob.subrange(HEADER_NONCE_LEN as int, blob.len() as int),
            ) is None,
    ensures
        opened_of(s, blob) == Some(frame),
        opened_or_raw(s, blob) == frame,
{
    lemma_open_with_at(
        header_candidates(s),
        blob.subrange(0, HEADER_NONCE_LEN as int),
        blob.subrange(HEADER_NONCE_LEN as int, blob.len() as int),
        i,
    );
}

/// Try the values of a window, newest first.
fn open_in_window(w: &Vec<EpochKey>, nonce: &[u8], ct: &[u8]) -> (r: Option<Vec<u8>>)
    ensures
        opt_bytes(r) == open_with(newest_first(w@), nonce@, ct@),
        r matches Some(frame) ==> ct@.len() == frame@.len() + HEADER_TAG_LEN,
{
    let mut left: usize = w.len();
    let ghost all = newest_first(w@);
    proof {
        assert(all.subrange(0, all.len() as int) =~= all);
    }
    while left > 0
        invariant
            left <= w@.len(),
            all == newest_first(w@),
            open_with(all, nonce@, ct@) == open_with(
                all.subrange(w@.len() - left, all.len() as int),
                nonce@,
                ct@,
            ),
        decreases left,
    {
        let ghost rest = all.subrange(w@.len() - left, all.len() as int);
        proof {
            assert(rest[0] == w@[left - 1].key@);
            assert(rest.subrange(1, rest.len() as int) =~= all.subrange(
                w@.len() - left + 1,
                all.len() as int,
            ));
        }
        left = left - 1;
        match header_aead_open(w[left].key.as_slice(), nonce, ct) {
            Some(frame) => return Some(frame),
            None => {},
        }
    }
    None
}

impl TwoMlsPqSession {
    /// Trial-open an inbound blob against the windows. `None` if no key opens it.
    pub fn try_open(&self, blob: &[u8]) -> (r: Option<Vec<u8>>)
        ensures
            opt_bytes(r) == opened_of(*self, blob@),
            r matches Some(frame) ==> blob@.len() == HEADER_NONCE_LEN + frame@.len()
                + HEADER_TAG_LEN,
    {
        let n: usize = match header_aead_nonce_size() {
            Some(n) => n,
            None => return None,
        };
        if blob.len() < n {
            return None;
        }
        let nonce = vstd::slice::slice_subrange(blob, 0, n);
        let ct = tail(blob, n);
        proof {
            lemma_open_with_concat(
                newest_first(self.recv_header_keys@),
                newest_first(self.recv_header_keys_pq@),
                nonce@,
                ct@,
            );
        }
        match open_in_window(&self.recv_header_keys, nonce, ct) {
            Some(frame) => Some(frame),
            None => open_in_window(&self.recv_header_keys_pq, nonce, ct),
        }
    }

    /// Remove the seal if the windows can, else return the blob unchanged. So the receive
    /// operations take a sealed blob as well as a frame that was opened before.
    pub fn open_or_raw(&self, blob: Vec<u8>) -> (r: Vec<u8>)
        ensures
            r@ == opened_or_raw(*self, blob@),
    {
        match self.try_open(blob.as_slice()) {
            Some(frame) => frame,
            None => blob,
        }
    }

    /// Remove the seal of a blob from a rendezvous channel and say which receive operation
    /// the frame is for. `None` if no window key opens it, as none does for a blob too short
    /// to be sealed; an opened frame of no known kind is an error.
    pub fn open_incoming(&self, blob: Vec<u8>) -> (r: Result<Option<OpenedFrame>>)
        ensures
            opened_as(*self, blob@, r),
            blob@.len() < HEADER_NONCE_LEN + HEADER_TAG_LEN ==> r matches Ok(None),
            r matches Ok(Some(o)) ==> blob@.len() == HEADER_NONCE_LEN + o.frame@.len()
                + HEADER_TAG_LEN,
    {
        match self.try_open(blob.as_slice()) {
            None => Ok(None),
            Some(frame) => {
                if frame.len() == 0 {
                    return Err(TwoMlsPqError::DecryptionFailed);
                }
                match opened_frame_kind(frame[0]) {
                    Some(kind) => Ok(Some(OpenedFrame { kind, frame })),
                    None => Err(TwoMlsPqError::DecryptionFailed),
                }
            },
        }
    }

    /// Seal a message-path frame for the peer.
    pub fn seal(&self, frame: &[u8]) -> (r: Result<Vec<u8>>)
        ensures
            match self.recv_group {
                None => r == Err::<Vec<u8>, TwoMlsPqError>(TwoMlsPqError::SessionNotEstablished),
                Some(g) => match r {
                    Ok(b) => freshly_sealed(b@, g.classical.header_key@, frame@),
                    Err(e) => e == TwoMlsPqError::Mls && cannot_seal(
                        g.classical.header_key@,
                        frame@,
                    ),
                },
            },
    {
        match &self.recv_group {
            None => Err(TwoMlsPqError::SessionNotEstablished),
            Some(recv) => seal_with(recv.classical.header_key.as_slice(), frame),
        }
    }

    /// The key that side-band frames are sealed under: the PQ one, or the classical one
    /// while the receive group's PQ half does not exist.
    pub open spec fn side_band_key(&self) -> Option<Seq<u8>> {
        match self.recv_group {
            None => None,
            Some(g) => match g.pq {
                Some(pq) => Some(pq.header_key@),
                None => Some(g.classical.header_key@),
            },
        }
    }

    /// Seal a side-band frame for the peer.
    pub fn seal_side_band(&self, frame: &[u8]) -> (r: Result<Vec<u8>>)
        ensures
            match self.side_band_key() {
                None => r == Err::<Vec<u8>, TwoMlsPqError>(TwoMlsPqError::SessionNotEstablished),
                Some(key) => match r {
                    Ok(b) => freshly_sealed(b@, key, frame@),
                    Err(e) => e == TwoMlsPqError::Mls && cannot_seal(key, frame@),
                },
            },
    {
        match &self.recv_group {
            None => Err(TwoMlsPqError::SessionNotEstablished),
            Some(recv) => match &recv.pq {
                Some(pq) => seal_with(pq.header_key.as_slice(), frame),
                None => self.seal(frame),
            },
        }
    }

    /// What handing the retained side-band frame out changes and gives. A stable hand-out is
    /// served from the frame's seal cache and fills it, so it repeats until the frame is
    /// replaced; any other is sealed for this hand-out alone. Nothing is given if there is no
    /// frame, or it could not be sealed.
    pub open spec fn handed_out(
        &self,
        sealing: SideBandSealing,
        now: TwoMlsPqSession,
        r: Option<Vec<u8>>,
    ) -> bool {
        match self.pending_side_band {
            None => r is None && now == *self,
            Some(kept) => if sealing == SideBandSealing::Stable && kept.seal is Some {
                opt_bytes(r) == opt_bytes(kept.seal) && now == *self
            } else {
                match r {
                    None => {
                        &&& now == *self
                        &&& self.side_band_key() matches Some(key) ==> cannot_seal(
                            key,
                            kept.frame@,
                        )
                    },
                    Some(b) => {
                        &&& self.side_band_key() matches Some(key)
                        &&& freshly_sealed(b@, key, kept.frame@)
                        &&& if sealing == SideBandSealing::Fresh {
                            now == *self
                        } else {
                            &&& now == (TwoMlsPqSession {
                                pending_side_band: now.pending_side_band,
                                ..*self
                            })
                            &&& now.pending_side_band matches Some(held)
                            &&& held.frame == kept.frame
                            &&& opt_bytes(held.seal) == Some(b@)
                        }
                    },
                }
            },
        }
    }

    /// Seal the retained side-band frame for hand-out.
    pub fn hand_out(&mut self, sealing: SideBandSealing) -> (r: Option<Vec<u8>>)
        ensures
            old(self).wf() ==> final(self).wf(),
            old(self).sound() ==> final(self).sound(),
            old(self).live() ==> final(self).live(),
            old(self).wf() ==> final(self).since(*old(self)),
            old(self).side_band_settled() ==> final(self).side_band_settled(),
            old(self).handed_out(sealing, *final(self), r),
    {
        let sealed = match &self.pending_side_band {
            None => return None,
            Some(kept) => {
                if sealing == SideBandSealing::Stable {
                    match &kept.seal {
                        Some(cached) => return Some(copy_bytes(cached.as_slice())),
                        None => {},
                    }
                }
                match self.seal_side_band(kept.frame.as_slice()) {
                    Ok(b) => b,
                    Err(_) => return None,
                }
            },
        };
        if sealing == SideBandSealing::Stable {
            match self.pending_side_band.take() {
                Some(kept) => {
                    self.pending_side_band = Some(
                        RetainedFrame::seeded(kept.frame, sealed.as_slice()),
                    );
                },
                None => {},
            }
        }
        Some(sealed)
    }

    /// The current round's outbound side-band frame, sealed, without consuming it.
    pub fn pq_pending_outbound(&mut self, sealing: SideBandSealing) -> (r: Option<Vec<u8>>)
        ensures
            old(self).wf() ==> final(self).wf(),
            old(self).sound() ==> final(self).sound(),
            old(self).live() ==> final(self).live(),
            old(self).wf() ==> final(self).since(*old(self)),
            old(self).side_band_settled() ==> final(self).side_band_settled(),
            old(self).handed_out(sealing, *final(self), r),
    {
        self.hand_out(sealing)
    }

    /// Consume the current round's side-band frame. What is taken out cannot be re-sent.
    pub fn pq_take_pending_outbound(&mut self) -> (r: Option<Vec<u8>>)
        ensures
            old(self).wf() ==> final(self).wf(),
            old(self).sound() ==> final(self).sound(),
            old(self).live() ==> final(self).live(),
            old(self).wf() ==> final(self).since(*old(self)),
            old(self).side_band_settled() ==> final(self).side_band_settled(),
            match old(self).pending_side_band {
                None => r is None && *final(self) == *old(self),
                Some(kept) => {
                    &&& *final(self) == (TwoMlsPqSession {
                        pending_side_band: None,
                        ..taken(*old(self))
                    })
                    &&& match old(self).side_band_key() {
                        None => r is None,
                        Some(key) => match r {
                            Some(b) => freshly_sealed(b@, key, kept.frame@),
                            None => cannot_seal(key, kept.frame@),
                        },
                    }
                },
            },
    {
        match self.pending_side_band.take() {
            None => None,
            Some(kept) => {
                let r = match self.seal_side_band(kept.frame.as_slice()) {
                    Ok(b) => Some(b),
                    Err(_) => None,
                };
                self.count_take();
                r
            },
        }
    }

    /// The establishment frame to deliver to the peer, consumed. An accepting session's
    /// return welcome is sealed like any frame; an initiating session's envelope goes as it
    /// is.
    pub fn pending_outbound(&mut self) -> (r: Option<Vec<u8>>)
        ensures
            old(self).wf() ==> final(self).wf(),
            old(self).sound() ==> final(self).sound(),
            old(self).live() ==> final(self).live(),
            old(self).wf() ==> final(self).since(*old(self)),
            old(self).side_band_settled() ==> final(self).side_band_settled(),
            match old(self).pending_outbound {
                None => r is None && *final(self) == *old(self),
                Some(frame) => {
                    &&& *final(self) == (TwoMlsPqSession {
                        pending_outbound: None,
                        ..taken(*old(self))
                    })
                    &&& match old(self).recv_group {
                        None => r == Some(frame),
                        Some(g) => match r {
                            Some(b) => freshly_sealed(b@, g.classical.header_key@, frame@),
                            None => cannot_seal(g.classical.header_key@, frame@),
                        },
                    }
                },
            },
    {
        match self.pending_outbound.take() {
            None => None,
            Some(frame) => {
                let r = if self.recv_group.is_some() {
                    match self.seal(frame.as_slice()) {
                        Ok(b) => Some(b),
                        Err(_) => None,
                    }
                } else {
                    Some(frame)
                };
                self.count_take();
                r
            },
        }
    }
}

} // verus!
