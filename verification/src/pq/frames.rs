//! The frame layer of the session wire protocol: the tag bytes that open every frame, the
//! classification a host routes by, and the length-prefixed frame encoders and decoders.
//! Pure functions over bytes, with no session state.
//!
//! A frame is told apart by its first byte. The tags are distinct odd numbers, dense from
//! 0x01 on, so the even space is left to bare MLS messages (whose first byte is 0x00):
//!
//! - 0x01, 0x03: the message path (combiner welcome, message frame);
//! - 0x05, 0x07: establishment (envelope, pre-establishment app message);
//! - 0x09 to 0x17: the side-band, exactly the tags that `pq_frame_kind` classifies.

use vstd::prelude::*;
use crate::bytes::{
    all_bytes, append, copy_bytes, from_le32, le32, lemma_from_le32_round_trip,
    lemma_le32_round_trip, push_le32, read_le32, tail,
};
use super::error::{Result, TwoMlsPqError};

verus! {

/// Combiner welcome.
pub const APQ_TAG: u8 = 0x01;

/// Message frame: staple, proposal section and app message, none of them empty.
pub const MESSAGE_FRAME_TAG: u8 = 0x03;

/// Sealed establishment envelope; travels on the invitation channel only.
pub const INITIAL_ENVELOPE_TAG: u8 = 0x05;

/// App message that rides an establishment envelope.
pub const PRE_ESTABLISHMENT_APP_TAG: u8 = 0x07;

/// Bootstrap: a PQ key package.
pub const PQ_BOOTSTRAP_KP_TAG: u8 = 0x09;

/// Bootstrap: the welcome of the new PQ group.
pub const PQ_BOOTSTRAP_WELCOME_TAG: u8 = 0x0B;

/// Bootstrap: PQ commit, classical commit and app message.
pub const PQ_BOOTSTRAP_BIND_TAG: u8 = 0x0D;

/// Ratchet: the initiator's encapsulation key.
pub const PQ_EK_TAG: u8 = 0x0F;

/// Ratchet: the responder's ciphertext.
pub const PQ_CT_TAG: u8 = 0x11;

/// Ratchet: PQ commit, classical commit and app message.
pub const PQ_BIND_TAG: u8 = 0x13;

/// Re-key: the initiator's update proposal.
pub const PQ_REKEY_UPD_TAG: u8 = 0x15;

/// Re-key: a commit and a counter-proposal slot.
pub const PQ_REKEY_COMMIT_TAG: u8 = 0x17;

/// Both halves of one commit, in a message frame's staple slot only.
pub const APQ_PRIVATE_MESSAGE_TAG: u8 = 0x1B;

/// Every tag that can open a wire blob, in the order of allocation.
pub open spec fn tag_space() -> Seq<u8> {
    seq![
        APQ_TAG,
        MESSAGE_FRAME_TAG,
        INITIAL_ENVELOPE_TAG,
        PRE_ESTABLISHMENT_APP_TAG,
        PQ_BOOTSTRAP_KP_TAG,
        PQ_BOOTSTRAP_WELCOME_TAG,
        PQ_BOOTSTRAP_BIND_TAG,
        PQ_EK_TAG,
        PQ_CT_TAG,
        PQ_BIND_TAG,
        PQ_REKEY_UPD_TAG,
        PQ_REKEY_COMMIT_TAG,
    ]
}

/// The tag space is odd, dense and ascending, so no byte is allocated twice and none
/// opens a bare MLS message.
pub proof fn law_tag_space_holds(i: int, j: int)
    requires
        0 <= i < tag_space().len(),
        0 <= j < tag_space().len(),
    ensures
        tag_space()[i] == 1 + 2 * i,
        tag_space()[i] % 2 == 1,
        tag_space()[i] == tag_space()[j] ==> i == j,
        tag_space()[i] != 0,
{
}

/// The kinds of side-band frames.
#[derive(Debug, Clone, Copy, PartialEq, Eq, Structural)]
pub enum PqFrameKind {
    /// Ratchet: the initiator's encapsulation key.
    RatchetEphemeralKey,
    /// Ratchet: the responder's ciphertext.
    RatchetCiphertext,
    /// Ratchet: the bind.
    RatchetBind,
    /// Bootstrap: a PQ key package.
    BootstrapKeyPackage,
    /// Bootstrap: the new PQ group's welcome.
    BootstrapWelcome,
    /// Bootstrap: the bind.
    BootstrapBind,
    /// Re-key: the initiator's update proposal.
    RekeyUpdate,
    /// Re-key: the responder's commit.
    RekeyCommit,
}

/// How a retained side-band frame is sealed when it is handed out.
#[derive(Debug, Clone, Copy, PartialEq, Eq, Structural)]
pub enum SideBandSealing {
    /// A new seal for every hand-out, so repeated sends differ on the wire.
    Fresh,
    /// One seal for as long as the retained frame is unchanged, so it can be sent in pieces.
    Stable,
}

/// What a frame is once its header seal is removed.
#[derive(Debug, Clone, Copy, PartialEq, Eq, Structural)]
pub enum OpenedFrameKind {
    /// A welcome or a message frame: for `process_incoming`.
    Message,
    /// A side-band frame: for the `pq_*` method that `kind` names.
    PqSideBand { kind: PqFrameKind },
}

/// A frame with its header seal removed.
#[derive(Debug)]
pub struct OpenedFrame {
    pub kind: OpenedFrameKind,
    pub frame: Vec<u8>,
}

/// The kind that a side-band tag stands for.
pub open spec fn kind_of_tag(tag: u8) -> Option<PqFrameKind> {
    if tag == PQ_EK_TAG {
        Some(PqFrameKind::RatchetEphemeralKey)
    } else if tag == PQ_CT_TAG {
        Some(PqFrameKind::RatchetCiphertext)
    } else if tag == PQ_BIND_TAG {
        Some(PqFrameKind::RatchetBind)
    } else if tag == PQ_BOOTSTRAP_KP_TAG {
        Some(PqFrameKind::BootstrapKeyPackage)
    } else if tag == PQ_BOOTSTRAP_WELCOME_TAG {
        Some(PqFrameKind::BootstrapWelcome)
    } else if tag == PQ_BOOTSTRAP_BIND_TAG {
        Some(PqFrameKind::BootstrapBind)
    } else if tag == PQ_REKEY_UPD_TAG {
        Some(PqFrameKind::RekeyUpdate)
    } else if tag == PQ_REKEY_COMMIT_TAG {
        Some(PqFrameKind::RekeyCommit)
    } else {
        None
    }
}

/// The side-band is exactly the odd bytes from 0x09 to 0x17.
pub proof fn law_side_band_is_one_band(tag: u8)
    ensures
        kind_of_tag(tag) is Some <==> 0x09 <= tag <= 0x17 && tag % 2 == 1,
{
}

/// No two side-band tags stand for the same kind.
pub proof fn law_side_band_kinds_are_distinct(a: u8, b: u8)
    requires
        kind_of_tag(a) is Some,
        kind_of_tag(a) == kind_of_tag(b),
    ensures
        a == b,
{
}

/// Classify a side-band frame by its first byte; `None` for any other byte.
pub fn pq_frame_kind(tag: u8) -> (r: Option<PqFrameKind>)
    ensures
        r == kind_of_tag(tag),
{
    if tag == PQ_EK_TAG {
        Some(PqFrameKind::RatchetEphemeralKey)
    } else if tag == PQ_CT_TAG {
        Some(PqFrameKind::RatchetCiphertext)
    } else if tag == PQ_BIND_TAG {
        Some(PqFrameKind::RatchetBind)
    } else if tag == PQ_BOOTSTRAP_KP_TAG {
        Some(PqFrameKind::BootstrapKeyPackage)
    } else if tag == PQ_BOOTSTRAP_WELCOME_TAG {
        Some(PqFrameKind::BootstrapWelcome)
    } else if tag == PQ_BOOTSTRAP_BIND_TAG {
        Some(PqFrameKind::BootstrapBind)
    } else if tag == PQ_REKEY_UPD_TAG {
        Some(PqFrameKind::RekeyUpdate)
    } else if tag == PQ_REKEY_COMMIT_TAG {
        Some(PqFrameKind::RekeyCommit)
    } else {
        None
    }
}

/// What an opened frame with this first byte is.
pub open spec fn opened_kind_of_tag(tag: u8) -> Option<OpenedFrameKind> {
    if tag == APQ_TAG || tag == MESSAGE_FRAME_TAG {
        Some(OpenedFrameKind::Message)
    } else {
        match kind_of_tag(tag) {
            Some(kind) => Some(OpenedFrameKind::PqSideBand { kind }),
            None => None,
        }
    }
}

/// Classify an opened frame by its first byte; `None` if it belongs to no receive path.
pub fn opened_frame_kind(tag: u8) -> (r: Option<OpenedFrameKind>)
    ensures
        r == opened_kind_of_tag(tag),
{
    if tag == APQ_TAG || tag == MESSAGE_FRAME_TAG {
        Some(OpenedFrameKind::Message)
    } else {
        match pq_frame_kind(tag) {
            Some(kind) => Some(OpenedFrameKind::PqSideBand { kind }),
            None => None,
        }
    }
}

// ---- sections ----

/// One section: the length in four little-endian bytes, then the bytes.
pub open spec fn section(part: Seq<u8>) -> Seq<u8> {
    le32(part.len()) + part
}

/// The sections of `parts`, one after the other.
pub open spec fn sections(parts: Seq<Seq<u8>>) -> Seq<u8>
    decreases parts.len(),
{
    if parts.len() == 0 {
        Seq::empty()
    } else {
        section(parts[0]) + sections(parts.subrange(1, parts.len() as int))
    }
}

/// Every part is short enough for its length to be written in four bytes.
pub open spec fn lengths_fit(parts: Seq<Seq<u8>>) -> bool {
    forall|i: int| 0 <= i < parts.len() ==> (#[trigger] parts[i]).len() <= u32::MAX
}

/// The length prefix of a section is read back.
proof fn lemma_section_head(part: Seq<u8>, rest: Seq<u8>)
    requires
        part.len() <= u32::MAX,
    ensures
        (section(part) + rest).len() >= 4 + part.len(),
        from_le32(section(part) + rest) == part.len(),
        (section(part) + rest).subrange(4, 4 + part.len() as int) == part,
        (section(part) + rest).subrange(
            4 + part.len() as int,
            (section(part) + rest).len() as int,
        ) == rest,
{
    lemma_le32_round_trip(part.len());
    let b = section(part) + rest;
    assert(b[0] == le32(part.len())[0]);
    assert(b[1] == le32(part.len())[1]);
    assert(b[2] == le32(part.len())[2]);
    assert(b[3] == le32(part.len())[3]);
    assert(b.subrange(4, 4 + part.len() as int) =~= part);
    assert(b.subrange(4 + part.len() as int, b.len() as int) =~= rest);
}

/// What is written as one section and a rest determines both.
proof fn lemma_section_split(a: Seq<u8>, ra: Seq<u8>, b: Seq<u8>, rb: Seq<u8>)
    requires
        a.len() <= u32::MAX,
        b.len() <= u32::MAX,
        section(a) + ra == section(b) + rb,
    ensures
        a == b,
        ra == rb,
{
    lemma_section_head(a, ra);
    lemma_section_head(b, rb);
}

/// A list of sections determines its parts.
pub proof fn law_sections_are_injective(a: Seq<Seq<u8>>, b: Seq<Seq<u8>>)
    requires
        lengths_fit(a),
        lengths_fit(b),
        a.len() == b.len(),
        sections(a) == sections(b),
    ensures
        a == b,
    decreases a.len(),
{
    if a.len() > 0 {
        let ta = a.subrange(1, a.len() as int);
        let tb = b.subrange(1, b.len() as int);
        assert(a[0].len() <= u32::MAX && b[0].len() <= u32::MAX);
        lemma_section_split(a[0], sections(ta), b[0], sections(tb));
        assert(lengths_fit(ta)) by {
            assert forall|i: int| 0 <= i < ta.len() implies (#[trigger] ta[i]).len() <= u32::MAX by {
                assert(ta[i] == a[i + 1]);
            }
        }
        assert(lengths_fit(tb)) by {
            assert forall|i: int| 0 <= i < tb.len() implies (#[trigger] tb[i]).len() <= u32::MAX by {
                assert(tb[i] == b[i + 1]);
            }
        }
        law_sections_are_injective(ta, tb);
        assert(a =~= seq![a[0]] + ta);
        assert(b =~= seq![b[0]] + tb);
    } else {
        assert(a =~= b);
    }
}

/// Append `part` as a section. Of a length that does not fit four bytes, the low 32 bits
/// are written.
pub fn push_section(out: &mut Vec<u8>, part: &[u8])
    ensures
        final(out)@ == old(out)@ + section(part@),
{
    push_le32(out, part.len());
    append(out, part);
    proof {
        assert(out@ =~= old(out)@ + section(part@));
    }
}

/// Whether `body` is exactly `n` sections.
pub open spec fn is_sections(body: Seq<u8>, parts: Seq<Seq<u8>>) -> bool {
    lengths_fit(parts) && body == sections(parts)
}

proof fn lemma_sections_push(parts: Seq<Seq<u8>>, last: Seq<u8>)
    ensures
        sections(parts.push(last)) == sections(parts) + section(last),
    decreases parts.len(),
{
    let all = parts.push(last);
    if parts.len() == 0 {
        let none = Seq::<Seq<u8>>::empty();
        assert(all.subrange(1, all.len() as int) =~= none);
        assert(parts =~= none);
        assert(sections(none) =~= Seq::<u8>::empty());
        assert(all[0] == last);
        assert(sections(all) =~= sections(parts) + section(last));
    } else {
        let t = parts.subrange(1, parts.len() as int);
        assert(all.subrange(1, all.len() as int) =~= t.push(last));
        lemma_sections_push(t, last);
        assert(sections(all) =~= sections(parts) + section(last));
    }
}

proof fn lemma_sections_concat(a: Seq<Seq<u8>>, b: Seq<Seq<u8>>)
    ensures
        sections(a + b) == sections(a) + sections(b),
    decreases a.len(),
{
    if a.len() == 0 {
        assert(a + b =~= b);
        assert(sections(a + b) =~= sections(a) + sections(b));
    } else {
        let t = a.subrange(1, a.len() as int);
        assert((a + b).subrange(1, (a + b).len() as int) =~= t + b);
        lemma_sections_concat(t, b);
        assert(sections(a + b) =~= sections(a) + sections(b));
    }
}

/// If the sections of `done` are the first `at` bytes of `body` and what follows does not
/// start with a whole section, then no list of more than `done.len()` sections makes `body`.
proof fn lemma_no_parse(body: Seq<u8>, done: Seq<Seq<u8>>, at: int, n: nat)
    requires
        0 <= at <= body.len(),
        done.len() < n,
        is_sections(body.subrange(0, at), done),
        body.len() - at < 4 || body.len() - at - 4 < from_le32(
            body.subrange(at, body.len() as int),
        ),
    ensures
        forall|p: Seq<Seq<u8>>| p.len() == n ==> !#[trigger] is_sections(body, p),
{
    assert forall|p: Seq<Seq<u8>>| p.len() == n implies !#[trigger] is_sections(body, p) by {
        if is_sections(body, p) {
            let k = done.len() as int;
            let head = p.subrange(0, k);
            let rest = p.subrange(k, p.len() as int);
            assert(p =~= head + rest);
            lemma_sections_concat(head, rest);
            lemma_prefix_parts(body, done, at, head, rest);
            let r0 = rest[0];
            assert(r0 == p[k]);
            assert(rest.len() > 0);
            let tl = sections(rest.subrange(1, rest.len() as int));
            lemma_section_head(r0, tl);
            assert(body.subrange(at, body.len() as int) == section(r0) + tl);
        }
    }
}

/// The first `done.len()` sections of a body are determined by a prefix that parses.
proof fn lemma_prefix_parts(
    body: Seq<u8>,
    done: Seq<Seq<u8>>,
    at: int,
    head: Seq<Seq<u8>>,
    rest: Seq<Seq<u8>>,
)
    requires
        0 <= at <= body.len(),
        is_sections(body.subrange(0, at), done),
        head.len() == done.len(),
        lengths_fit(head + rest),
        body == sections(head) + sections(rest),
    ensures
        head == done,
        body.subrange(at, body.len() as int) == sections(rest),
    decreases done.len(),
{
    let ghost tailb = body.subrange(at, body.len() as int);
    assert(body =~= body.subrange(0, at) + tailb);
    if done.len() == 0 {
        assert(head =~= done);
        assert(sections(head) =~= Seq::<u8>::empty());
        assert(sections(done) =~= Seq::<u8>::empty());
        assert(tailb =~= sections(rest));
    } else {
        let td = done.subrange(1, done.len() as int);
        let th = head.subrange(1, head.len() as int);
        assert((head + rest)[0] == head[0]);
        assert(body =~= section(head[0]) + (sections(th) + sections(rest)));
        assert(body =~= section(done[0]) + (sections(td) + tailb));
        lemma_section_split(
            head[0],
            sections(th) + sections(rest),
            done[0],
            sections(td) + tailb,
        );
        let body2 = sections(td) + tailb;
        let at2 = sections(td).len() as int;
        assert(body2.subrange(0, at2) =~= sections(td));
        assert(body2.subrange(at2, body2.len() as int) =~= tailb);
        assert(lengths_fit(td)) by {
            assert forall|i: int| 0 <= i < td.len() implies (#[trigger] td[i]).len() <= u32::MAX by {
                assert(td[i] == done[i + 1]);
            }
        }
        assert(lengths_fit(th + rest)) by {
            assert forall|i: int| 0 <= i < (th + rest).len() implies (#[trigger] (th + rest)[i]).len()
                <= u32::MAX by {
                assert((th + rest)[i] == (head + rest)[i + 1]);
            }
        }
        lemma_prefix_parts(body2, td, at2, th, rest);
        assert(head =~= seq![head[0]] + th);
        assert(done =~= seq![done[0]] + td);
    }
}

/// Read exactly `N` sections from `body`, with nothing left over.
pub fn read_sections<const N: usize>(body: &[u8]) -> (r: Result<Vec<Vec<u8>>>)
    ensures
        match r {
            Ok(v) => v@.len() == N && is_sections(body@, all_bytes(v@)),
            Err(e) => e == TwoMlsPqError::Mls && forall|p: Seq<Seq<u8>>|
                p.len() == N ==> !#[trigger] is_sections(body@, p),
        },
{
    let mut out: Vec<Vec<u8>> = Vec::new();
    let mut at: usize = 0;
    let total: usize = body.len();
    proof {
        assert(body@.subrange(0, 0) =~= sections(all_bytes(out@)));
    }
    while out.len() < N
        invariant
            out@.len() <= N,
            at <= total,
            total == body@.len(),
            is_sections(body@.subrange(0, at as int), all_bytes(out@)),
        decreases N - out.len(),
    {
        let rest = tail(body, at);
        if rest.len() < 4 {
            proof {
                lemma_no_parse(body@, all_bytes(out@), at as int, N as nat);
            }
            return Err(TwoMlsPqError::Mls);
        }
        let len: usize = read_le32(rest);
        if rest.len() - 4 < len {
            proof {
                lemma_no_parse(body@, all_bytes(out@), at as int, N as nat);
            }
            return Err(TwoMlsPqError::Mls);
        }
        let part = copy_bytes(vstd::slice::slice_subrange(rest, 4, 4 + len));
        let ghost before = all_bytes(out@);
        proof {
            lemma_from_le32_round_trip(rest@);
            let end = at + 4 + len;
            assert(body@.subrange(0, end) =~= body@.subrange(0, at as int) + section(part@));
            lemma_sections_push(before, part@);
        }
        out.push(part);
        proof {
            assert(all_bytes(out@) =~= before.push(part@));
            assert(lengths_fit(all_bytes(out@)));
        }
        at = at + 4 + len;
    }
    if at != body.len() {
        proof {
            let done = all_bytes(out@);
            assert forall|p: Seq<Seq<u8>>| p.len() == N implies !#[trigger] is_sections(body@, p) by {
                if is_sections(body@, p) {
                    let none = Seq::<Seq<u8>>::empty();
                    assert(p =~= p + none);
                    assert(sections(none) =~= Seq::<u8>::empty());
                    assert(body@ =~= sections(p) + sections(none));
                    lemma_prefix_parts(body@, done, at as int, p, none);
                    assert(body@.subrange(at as int, body@.len() as int).len() == 0);
                }
            }
        }
        return Err(TwoMlsPqError::Mls);
    }
    proof {
        assert(body@.subrange(0, at as int) =~= body@);
    }
    Ok(out)
}

// ---- tagged frames ----

/// A tag followed by sections.
pub open spec fn tagged(tag: u8, parts: Seq<Seq<u8>>) -> Seq<u8> {
    seq![tag] + sections(parts)
}

/// Whether `bytes` is `tag` followed by the sections of `parts`.
pub open spec fn is_tagged(bytes: Seq<u8>, tag: u8, parts: Seq<Seq<u8>>) -> bool {
    lengths_fit(parts) && bytes == tagged(tag, parts)
}

/// A frame of tagged sections decodes in one way only: whatever parts it is read as are
/// the parts it was written from.
pub proof fn law_tagged_frames_round_trip(tag: u8, written: Seq<Seq<u8>>, read: Seq<Seq<u8>>)
    requires
        lengths_fit(written),
        written.len() == read.len(),
        is_tagged(tagged(tag, written), tag, read),
    ensures
        read == written,
{
    let b = tagged(tag, written);
    assert(b.subrange(1, b.len() as int) =~= sections(written));
    assert(b.subrange(1, b.len() as int) =~= sections(read));
    law_sections_are_injective(written, read);
}

/// A frame of one tag is not a frame of another.
pub proof fn law_tags_keep_frames_apart(
    s: u8,
    a: Seq<Seq<u8>>,
    t: u8,
    b: Seq<Seq<u8>>,
)
    requires
        tagged(s, a) == tagged(t, b),
    ensures
        s == t,
{
    assert(tagged(s, a)[0] == s);
    assert(tagged(t, b)[0] == t);
}

/// Decode a frame of `N` sections under `tag`.
fn decode_tagged<const N: usize>(bytes: &[u8], tag: u8) -> (r: Result<Vec<Vec<u8>>>)
    ensures
        match r {
            Ok(v) => v@.len() == N && is_tagged(bytes@, tag, all_bytes(v@)),
            Err(e) => e == TwoMlsPqError::Mls && forall|p: Seq<Seq<u8>>|
                p.len() == N ==> !#[trigger] is_tagged(bytes@, tag, p),
        },
{
    if bytes.len() == 0 || bytes[0] != tag {
        proof {
            assert forall|p: Seq<Seq<u8>>| p.len() == N implies !#[trigger] is_tagged(
                bytes@,
                tag,
                p,
            ) by {
                assert(tagged(tag, p)[0] == tag);
            }
        }
        return Err(TwoMlsPqError::Mls);
    }
    let body = tail(bytes, 1);
    let r = read_sections::<N>(body);
    proof {
        assert(bytes@ =~= seq![tag] + body@);
        assert forall|p: Seq<Seq<u8>>| #[trigger] is_tagged(bytes@, tag, p) implies is_sections(
            body@,
            p,
        ) by {
            assert(tagged(tag, p).subrange(1, bytes@.len() as int) =~= sections(p));
        }
    }
    r
}

/// The three parts of a bind, as its sections.
pub open spec fn parts3(a: Seq<u8>, b: Seq<u8>, c: Seq<u8>) -> Seq<Seq<u8>> {
    seq![a, b, c]
}

/// The two parts of a re-key commit, as its sections.
pub open spec fn parts2(a: Seq<u8>, b: Seq<u8>) -> Seq<Seq<u8>> {
    seq![a, b]
}

/// The three parts that a frame under `tag` holds, if it is one.
pub open spec fn read3(bytes: Seq<u8>, tag: u8) -> Option<(Seq<u8>, Seq<u8>, Seq<u8>)> {
    if exists|p: (Seq<u8>, Seq<u8>, Seq<u8>)| #[trigger]
        is_tagged(bytes, tag, parts3(p.0, p.1, p.2)) {
        Some(
            choose|p: (Seq<u8>, Seq<u8>, Seq<u8>)| #[trigger]
                is_tagged(bytes, tag, parts3(p.0, p.1, p.2)),
        )
    } else {
        None
    }
}

/// The two parts that a frame under `tag` holds, if it is one.
pub open spec fn read2(bytes: Seq<u8>, tag: u8) -> Option<(Seq<u8>, Seq<u8>)> {
    if exists|p: (Seq<u8>, Seq<u8>)| #[trigger] is_tagged(bytes, tag, parts2(p.0, p.1)) {
        Some(choose|p: (Seq<u8>, Seq<u8>)| #[trigger] is_tagged(bytes, tag, parts2(p.0, p.1)))
    } else {
        None
    }
}

/// What a frame of three parts is read as.
pub proof fn lemma_read3(bytes: Seq<u8>, tag: u8, a: Seq<u8>, b: Seq<u8>, c: Seq<u8>)
    requires
        is_tagged(bytes, tag, parts3(a, b, c)),
    ensures
        read3(bytes, tag) == Some((a, b, c)),
{
    let w = (a, b, c);
    assert(is_tagged(bytes, tag, parts3(w.0, w.1, w.2)));
    let p = read3(bytes, tag)->0;
    law_tagged_frames_round_trip(tag, parts3(a, b, c), parts3(p.0, p.1, p.2));
    assert(parts3(p.0, p.1, p.2)[0] == a);
    assert(parts3(p.0, p.1, p.2)[1] == b);
    assert(parts3(p.0, p.1, p.2)[2] == c);
}

/// What a frame of two parts is read as.
pub proof fn lemma_read2(bytes: Seq<u8>, tag: u8, a: Seq<u8>, b: Seq<u8>)
    requires
        is_tagged(bytes, tag, parts2(a, b)),
    ensures
        read2(bytes, tag) == Some((a, b)),
{
    let w = (a, b);
    assert(is_tagged(bytes, tag, parts2(w.0, w.1)));
    let p = read2(bytes, tag)->0;
    law_tagged_frames_round_trip(tag, parts2(a, b), parts2(p.0, p.1));
    assert(parts2(p.0, p.1)[0] == a);
    assert(parts2(p.0, p.1)[1] == b);
}

proof fn lemma_sections3(a: Seq<u8>, b: Seq<u8>, c: Seq<u8>)
    ensures
        sections(parts3(a, b, c)) == section(a) + section(b) + section(c),
{
    let none = Seq::<Seq<u8>>::empty();
    assert(sections(none) =~= Seq::<u8>::empty());
    lemma_sections_push(none, a);
    lemma_sections_push(none.push(a), b);
    lemma_sections_push(none.push(a).push(b), c);
    assert(parts3(a, b, c) =~= none.push(a).push(b).push(c));
    assert(sections(parts3(a, b, c)) =~= section(a) + section(b) + section(c));
}

proof fn lemma_sections2(a: Seq<u8>, b: Seq<u8>)
    ensures
        sections(parts2(a, b)) == section(a) + section(b),
{
    let none = Seq::<Seq<u8>>::empty();
    assert(sections(none) =~= Seq::<u8>::empty());
    lemma_sections_push(none, a);
    lemma_sections_push(none.push(a), b);
    assert(parts2(a, b) =~= none.push(a).push(b));
    assert(sections(parts2(a, b)) =~= section(a) + section(b));
}

/// Encode three sections under `tag`.
fn encode3(tag: u8, a: &[u8], b: &[u8], c: &[u8]) -> (r: Vec<u8>)
    ensures
        r@ == tagged(tag, parts3(a@, b@, c@)),
{
    let mut out: Vec<u8> = Vec::new();
    out.push(tag);
    push_section(&mut out, a);
    push_section(&mut out, b);
    push_section(&mut out, c);
    proof {
        lemma_sections3(a@, b@, c@);
        assert(out@ =~= tagged(tag, parts3(a@, b@, c@)));
    }
    out
}

/// Encode two sections under `tag`.
pub(crate) fn encode2(tag: u8, a: &[u8], b: &[u8]) -> (r: Vec<u8>)
    ensures
        r@ == tagged(tag, parts2(a@, b@)),
{
    let mut out: Vec<u8> = Vec::new();
    out.push(tag);
    push_section(&mut out, a);
    push_section(&mut out, b);
    proof {
        lemma_sections2(a@, b@);
        assert(out@ =~= tagged(tag, parts2(a@, b@)));
    }
    out
}

/// Decode three sections under `tag`.
fn decode3(bytes: &[u8], tag: u8) -> (r: Result<(Vec<u8>, Vec<u8>, Vec<u8>)>)
    ensures
        match r {
            Ok((a, b, c)) => is_tagged(bytes@, tag, parts3(a@, b@, c@)),
            Err(e) => e == TwoMlsPqError::Mls && forall|a: Seq<u8>, b: Seq<u8>, c: Seq<u8>|
                !#[trigger] is_tagged(bytes@, tag, parts3(a, b, c)),
        },
        match r {
            Ok((a, b, c)) => read3(bytes@, tag) == Some((a@, b@, c@)),
            Err(_) => read3(bytes@, tag) is None,
        },
{
    let mut v = decode_tagged::<3>(bytes, tag)?;
    let ghost parts = all_bytes(v@);
    let c = v.remove(2);
    let b = v.remove(1);
    let a = v.remove(0);
    proof {
        assert(parts =~= parts3(a@, b@, c@));
        lemma_read3(bytes@, tag, a@, b@, c@);
    }
    Ok((a, b, c))
}

/// Decode two sections under `tag`.
pub(crate) fn decode2(bytes: &[u8], tag: u8) -> (r: Result<(Vec<u8>, Vec<u8>)>)
    ensures
        match r {
            Ok((a, b)) => is_tagged(bytes@, tag, parts2(a@, b@)),
            Err(e) => e == TwoMlsPqError::Mls && forall|a: Seq<u8>, b: Seq<u8>|
                !#[trigger] is_tagged(bytes@, tag, parts2(a, b)),
        },
        match r {
            Ok((a, b)) => read2(bytes@, tag) == Some((a@, b@)),
            Err(_) => read2(bytes@, tag) is None,
        },
{
    let mut v = decode_tagged::<2>(bytes, tag)?;
    let ghost parts = all_bytes(v@);
    let b = v.remove(1);
    let a = v.remove(0);
    proof {
        assert(parts =~= parts2(a@, b@));
        lemma_read2(bytes@, tag, a@, b@);
    }
    Ok((a, b))
}

/// Encode a ratchet bind.
pub fn encode_pq_bind(pq_commit: Vec<u8>, classical_commit: Vec<u8>, app: Vec<u8>) -> (r: Vec<u8>)
    ensures
        r@ == tagged(PQ_BIND_TAG, parts3(pq_commit@, classical_commit@, app@)),
{
    encode3(PQ_BIND_TAG, pq_commit.as_slice(), classical_commit.as_slice(), app.as_slice())
}

/// Decode a ratchet bind: PQ commit, classical commit, app message.
pub fn decode_pq_bind(bytes: &[u8]) -> (r: Result<(Vec<u8>, Vec<u8>, Vec<u8>)>)
    ensures
        match r {
            Ok((a, b, c)) => is_tagged(bytes@, PQ_BIND_TAG, parts3(a@, b@, c@)),
            Err(e) => e == TwoMlsPqError::Mls && forall|a: Seq<u8>, b: Seq<u8>, c: Seq<u8>|
                !#[trigger] is_tagged(bytes@, PQ_BIND_TAG, parts3(a, b, c)),
        },
{
    decode3(bytes, PQ_BIND_TAG)
}

/// Encode a bootstrap bind: the ratchet bind's shape under a tag of its own.
pub fn encode_bootstrap_bind(
    pq_commit: Vec<u8>,
    classical_commit: Vec<u8>,
    app: Vec<u8>,
) -> (r: Vec<u8>)
    ensures
        r@ == tagged(PQ_BOOTSTRAP_BIND_TAG, parts3(pq_commit@, classical_commit@, app@)),
{
    encode3(PQ_BOOTSTRAP_BIND_TAG, pq_commit.as_slice(), classical_commit.as_slice(), app.as_slice())
}

/// Decode a bootstrap bind: PQ commit, classical commit, app message.
pub fn decode_bootstrap_bind(bytes: &[u8]) -> (r: Result<(Vec<u8>, Vec<u8>, Vec<u8>)>)
    ensures
        match r {
            Ok((a, b, c)) => is_tagged(bytes@, PQ_BOOTSTRAP_BIND_TAG, parts3(a@, b@, c@)),
            Err(e) => e == TwoMlsPqError::Mls && forall|a: Seq<u8>, b: Seq<u8>, c: Seq<u8>|
                !#[trigger] is_tagged(bytes@, PQ_BOOTSTRAP_BIND_TAG, parts3(a, b, c)),
        },
{
    decode3(bytes, PQ_BOOTSTRAP_BIND_TAG)
}

/// Encode a re-key commit with its counter-proposal slot, which may be empty.
pub fn encode_pq_rekey_commit(commit: Vec<u8>, counter_proposal: Vec<u8>) -> (r: Vec<u8>)
    ensures
        r@ == tagged(PQ_REKEY_COMMIT_TAG, parts2(commit@, counter_proposal@)),
{
    encode2(PQ_REKEY_COMMIT_TAG, commit.as_slice(), counter_proposal.as_slice())
}

/// Decode a re-key commit: the commit and the counter-proposal slot.
pub fn decode_pq_rekey_commit(bytes: &[u8]) -> (r: Result<(Vec<u8>, Vec<u8>)>)
    ensures
        match r {
            Ok((a, b)) => is_tagged(bytes@, PQ_REKEY_COMMIT_TAG, parts2(a@, b@)),
            Err(e) => e == TwoMlsPqError::Mls && forall|a: Seq<u8>, b: Seq<u8>|
                !#[trigger] is_tagged(bytes@, PQ_REKEY_COMMIT_TAG, parts2(a, b)),
        },
        match r {
            Ok((a, b)) => read2(bytes@, PQ_REKEY_COMMIT_TAG) == Some((a@, b@)),
            Err(_) => read2(bytes@, PQ_REKEY_COMMIT_TAG) is None,
        },
{
    decode2(bytes, PQ_REKEY_COMMIT_TAG)
}

/// Encode a combiner welcome. An empty PQ half is a deferred one.
pub fn encode_apq_welcome(classical: Vec<u8>, pq: Vec<u8>) -> (r: Vec<u8>)
    ensures
        r@ == tagged(APQ_TAG, parts2(classical@, pq@)),
{
    encode2(APQ_TAG, classical.as_slice(), pq.as_slice())
}

/// Decode a combiner welcome: the classical welcome and the PQ one, empty if deferred.
pub fn decode_apq_welcome(bytes: &[u8]) -> (r: Result<(Vec<u8>, Vec<u8>)>)
    ensures
        match r {
            Ok((a, b)) => is_tagged(bytes@, APQ_TAG, parts2(a@, b@)),
            Err(e) => e == TwoMlsPqError::Mls && forall|a: Seq<u8>, b: Seq<u8>|
                !#[trigger] is_tagged(bytes@, APQ_TAG, parts2(a, b)),
        },
        match r {
            Ok((a, b)) => read2(bytes@, APQ_TAG) == Some((a@, b@)),
            Err(_) => read2(bytes@, APQ_TAG) is None,
        },
{
    decode2(bytes, APQ_TAG)
}

/// Encode both halves of one commit as a staple: the classical commit, then the PQ one.
pub fn encode_apq_private_message(classical: Vec<u8>, pq: Vec<u8>) -> (r: Vec<u8>)
    ensures
        r@ == tagged(APQ_PRIVATE_MESSAGE_TAG, parts2(classical@, pq@)),
{
    encode2(APQ_PRIVATE_MESSAGE_TAG, classical.as_slice(), pq.as_slice())
}

/// Decode a staple that carries both halves of one commit.
pub fn decode_apq_private_message(bytes: &[u8]) -> (r: Result<(Vec<u8>, Vec<u8>)>)
    ensures
        match r {
            Ok((a, b)) => is_tagged(bytes@, APQ_PRIVATE_MESSAGE_TAG, parts2(a@, b@)),
            Err(e) => e == TwoMlsPqError::Mls && forall|a: Seq<u8>, b: Seq<u8>|
                !#[trigger] is_tagged(bytes@, APQ_PRIVATE_MESSAGE_TAG, parts2(a, b)),
        },
        match r {
            Ok((a, b)) => read2(bytes@, APQ_PRIVATE_MESSAGE_TAG) == Some((a@, b@)),
            Err(_) => read2(bytes@, APQ_PRIVATE_MESSAGE_TAG) is None,
        },
{
    decode2(bytes, APQ_PRIVATE_MESSAGE_TAG)
}

// ---- a tag and one payload ----

/// `tag` followed by `payload`.
pub fn tag_payload(tag: u8, payload: &[u8]) -> (r: Vec<u8>)
    ensures
        r@ == seq![tag] + payload@,
{
    let mut out: Vec<u8> = Vec::new();
    out.push(tag);
    append(&mut out, payload);
    proof {
        assert(out@ =~= seq![tag] + payload@);
    }
    out
}

/// The payload behind `tag`.
pub fn untag_payload(bytes: &[u8], tag: u8) -> (r: Result<Vec<u8>>)
    ensures
        match r {
            Ok(p) => bytes@ == seq![tag] + p@,
            Err(e) => e == TwoMlsPqError::Mls && (bytes@.len() == 0 || bytes@[0] != tag),
        },
{
    if bytes.len() == 0 || bytes[0] != tag {
        return Err(TwoMlsPqError::Mls);
    }
    let p = copy_bytes(tail(bytes, 1));
    proof {
        assert(bytes@ =~= seq![tag] + p@);
    }
    Ok(p)
}

/// Encode the app message that rides an establishment envelope.
pub fn encode_pre_establishment_app(app: &[u8]) -> (r: Vec<u8>)
    ensures
        r@ == seq![PRE_ESTABLISHMENT_APP_TAG] + app@,
{
    tag_payload(PRE_ESTABLISHMENT_APP_TAG, app)
}

/// Encode the bootstrap reply: the new PQ group's welcome.
pub fn encode_bootstrap_welcome(pq_welcome: Vec<u8>) -> (r: Vec<u8>)
    ensures
        r@ == seq![PQ_BOOTSTRAP_WELCOME_TAG] + pq_welcome@,
{
    tag_payload(PQ_BOOTSTRAP_WELCOME_TAG, pq_welcome.as_slice())
}

/// Decode the bootstrap reply.
pub fn decode_bootstrap_welcome(bytes: &[u8]) -> (r: Result<Vec<u8>>)
    ensures
        match r {
            Ok(w) => bytes@ == seq![PQ_BOOTSTRAP_WELCOME_TAG] + w@,
            Err(e) => e == TwoMlsPqError::Mls && (bytes@.len() == 0 || bytes@[0]
                != PQ_BOOTSTRAP_WELCOME_TAG),
        },
{
    untag_payload(bytes, PQ_BOOTSTRAP_WELCOME_TAG)
}

/// What is behind a tag is read back unchanged.
pub proof fn law_payload_round_trips(tag: u8, written: Seq<u8>, read: Seq<u8>)
    requires
        seq![tag] + written == seq![tag] + read,
    ensures
        written == read,
{
    let a = seq![tag] + written;
    let b = seq![tag] + read;
    assert(a.subrange(1, a.len() as int) =~= written);
    assert(b.subrange(1, b.len() as int) =~= read);
}

// ---- the message frame ----

/// Whether `bytes` is the message frame of these three sections, none of them empty.
pub open spec fn is_message_frame(
    bytes: Seq<u8>,
    staple: Seq<u8>,
    proposal: Seq<u8>,
    app: Seq<u8>,
) -> bool {
    &&& is_tagged(bytes, MESSAGE_FRAME_TAG, parts3(staple, proposal, app))
    &&& staple.len() > 0
    &&& proposal.len() > 0
    &&& app.len() > 0
}

/// The staple, proposal section and app message of a message frame, if it is one.
pub open spec fn message_parts(bytes: Seq<u8>) -> Option<(Seq<u8>, Seq<u8>, Seq<u8>)> {
    match read3(bytes, MESSAGE_FRAME_TAG) {
        Some((staple, proposal, app)) => if staple.len() > 0 && proposal.len() > 0 && app.len()
            > 0 {
            Some((staple, proposal, app))
        } else {
            None
        },
        None => None,
    }
}

/// Encode the message frame. The sender's latest commit, or its welcome until there is
/// one, rides every frame, so any single frame brings the peer up to date.
pub fn encode_message_frame(staple: &[u8], proposal: Vec<u8>, app: Vec<u8>) -> (r: Vec<u8>)
    ensures
        r@ == tagged(MESSAGE_FRAME_TAG, parts3(staple@, proposal@, app@)),
{
    encode3(MESSAGE_FRAME_TAG, staple, proposal.as_slice(), app.as_slice())
}

/// Decode a message frame: staple, proposal section and app message.
pub fn decode_message_frame(bytes: &[u8]) -> (r: Result<(Vec<u8>, Vec<u8>, Vec<u8>)>)
    ensures
        match r {
            Ok((s, p, a)) => is_message_frame(bytes@, s@, p@, a@),
            Err(e) => e == TwoMlsPqError::Mls && forall|s: Seq<u8>, p: Seq<u8>, a: Seq<u8>|
                !#[trigger] is_message_frame(bytes@, s, p, a),
        },
        match r {
            Ok((s, p, a)) => message_parts(bytes@) == Some((s@, p@, a@)),
            Err(_) => message_parts(bytes@) is None,
        },
{
    let (staple, proposal, app) = decode3(bytes, MESSAGE_FRAME_TAG)?;
    if staple.is_empty() || proposal.is_empty() || app.is_empty() {
        proof {
            let read = parts3(staple@, proposal@, app@);
            assert forall|s: Seq<u8>, p: Seq<u8>, a: Seq<u8>| !#[trigger] is_message_frame(
                bytes@,
                s,
                p,
                a,
            ) by {
                let w = parts3(s, p, a);
                if is_message_frame(bytes@, s, p, a) {
                    law_tagged_frames_round_trip(MESSAGE_FRAME_TAG, w, read);
                    assert(w[0] == read[0] && w[1] == read[1] && w[2] == read[2]);
                }
            }
        }
        return Err(TwoMlsPqError::Mls);
    }
    Ok((staple, proposal, app))
}

/// Run the message frame decoder on arbitrary bytes and drop what it finds.
pub fn fuzz_decode_message_frame(bytes: &[u8]) {
    let _r = decode_message_frame(bytes);
}

/// The sections of a message frame are read back as they were written.
pub proof fn law_message_frame_round_trips(
    staple: Seq<u8>,
    proposal: Seq<u8>,
    app: Seq<u8>,
    s: Seq<u8>,
    p: Seq<u8>,
    a: Seq<u8>,
)
    requires
        0 < staple.len() <= u32::MAX,
        0 < proposal.len() <= u32::MAX,
        0 < app.len() <= u32::MAX,
    ensures
        is_message_frame(
            tagged(MESSAGE_FRAME_TAG, parts3(staple, proposal, app)),
            staple,
            proposal,
            app,
        ),
        is_message_frame(tagged(MESSAGE_FRAME_TAG, parts3(staple, proposal, app)), s, p, a) ==> s
            == staple && p == proposal && a == app,
{
    let w = parts3(staple, proposal, app);
    assert(lengths_fit(w)) by {
        assert(w[0] == staple && w[1] == proposal && w[2] == app);
    }
    if is_message_frame(tagged(MESSAGE_FRAME_TAG, w), s, p, a) {
        let r = parts3(s, p, a);
        law_tagged_frames_round_trip(MESSAGE_FRAME_TAG, w, r);
        assert(w[0] == r[0] && w[1] == r[1] && w[2] == r[2]);
    }
}

// ---- the proposal section ----

/// Whether `bytes` is a proposal section: the id that the update's new leaf carries, then
/// the proposal message, neither of them empty.
pub open spec fn is_proposal_section(
    bytes: Seq<u8>,
    proposing: Seq<u8>,
    proposal: Seq<u8>,
) -> bool {
    &&& bytes == section(proposing) + proposal
    &&& 0 < proposing.len() <= u32::MAX
    &&& proposal.len() > 0
}

/// The proposing id and the proposal message of a proposal section, if it is one.
pub open spec fn proposal_parts(bytes: Seq<u8>) -> Option<(Seq<u8>, Seq<u8>)> {
    if exists|p: (Seq<u8>, Seq<u8>)| #[trigger] is_proposal_section(bytes, p.0, p.1) {
        Some(choose|p: (Seq<u8>, Seq<u8>)| #[trigger] is_proposal_section(bytes, p.0, p.1))
    } else {
        None
    }
}

/// Encode a proposal section.
pub fn encode_proposal_section(proposing: &[u8], proposal: &[u8]) -> (r: Vec<u8>)
    ensures
        r@ == section(proposing@) + proposal@,
{
    let mut out: Vec<u8> = Vec::new();
    push_section(&mut out, proposing);
    append(&mut out, proposal);
    proof {
        assert(out@ =~= section(proposing@) + proposal@);
    }
    out
}

/// Decode a proposal section: the proposing id and the proposal message.
pub fn decode_proposal_section(bytes: &[u8]) -> (r: Result<(Vec<u8>, Vec<u8>)>)
    ensures
        match r {
            Ok((p, m)) => is_proposal_section(bytes@, p@, m@),
            Err(e) => e == TwoMlsPqError::Mls && forall|p: Seq<u8>, m: Seq<u8>|
                !#[trigger] is_proposal_section(bytes@, p, m),
        },
        match r {
            Ok((p, m)) => proposal_parts(bytes@) == Some((p@, m@)),
            Err(_) => proposal_parts(bytes@) is None,
        },
{
    let ghost b = bytes@;
    if bytes.len() < 4 {
        proof {
            assert forall|p: Seq<u8>, m: Seq<u8>| !#[trigger] is_proposal_section(b, p, m) by {
                if is_proposal_section(b, p, m) {
                    lemma_section_head(p, m);
                }
            }
        }
        return Err(TwoMlsPqError::Mls);
    }
    let len: usize = read_le32(bytes);
    let rest = tail(bytes, 4);
    if len == 0 || rest.len() <= len {
        proof {
            assert forall|p: Seq<u8>, m: Seq<u8>| !#[trigger] is_proposal_section(b, p, m) by {
                if is_proposal_section(b, p, m) {
                    lemma_section_head(p, m);
                }
            }
        }
        return Err(TwoMlsPqError::Mls);
    }
    let proposing = copy_bytes(vstd::slice::slice_subrange(rest, 0, len));
    let proposal = copy_bytes(tail(rest, len));
    proof {
        lemma_from_le32_round_trip(b);
        assert(b =~= section(proposing@) + proposal@);
        let w = (proposing@, proposal@);
        assert(is_proposal_section(b, w.0, w.1));
        let p = proposal_parts(b)->0;
        lemma_section_split(proposing@, proposal@, p.0, p.1);
    }
    Ok((proposing, proposal))
}

/// The proposing id and the proposal are read back as they were written.
pub proof fn law_proposal_section_round_trips(
    proposing: Seq<u8>,
    proposal: Seq<u8>,
    p: Seq<u8>,
    m: Seq<u8>,
)
    requires
        0 < proposing.len() <= u32::MAX,
        proposal.len() > 0,
    ensures
        is_proposal_section(section(proposing) + proposal, proposing, proposal),
        is_proposal_section(section(proposing) + proposal, p, m) ==> p == proposing && m
            == proposal,
{
    if is_proposal_section(section(proposing) + proposal, p, m) {
        lemma_section_split(proposing, proposal, p, m);
    }
}

} // verus!
