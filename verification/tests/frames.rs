//! Frames, tags and key package encodings.

use two_mls_pq::pq::error::{Result, TwoMlsPqError};
use two_mls_pq::pq::frames::{
    decode_apq_private_message, decode_apq_welcome, decode_bootstrap_bind,
    decode_bootstrap_welcome, decode_message_frame, decode_pq_bind, decode_pq_rekey_commit,
    decode_proposal_section, encode_apq_private_message, encode_apq_welcome,
    encode_bootstrap_bind, encode_bootstrap_welcome, encode_message_frame, encode_pq_bind,
    encode_pq_rekey_commit, encode_pre_establishment_app, encode_proposal_section,
    fuzz_decode_message_frame, opened_frame_kind, pq_frame_kind, push_section, read_sections,
    OpenedFrameKind, PqFrameKind, APQ_PRIVATE_MESSAGE_TAG, APQ_TAG, INITIAL_ENVELOPE_TAG,
    MESSAGE_FRAME_TAG, PQ_BIND_TAG, PQ_BOOTSTRAP_BIND_TAG, PQ_BOOTSTRAP_KP_TAG,
    PQ_BOOTSTRAP_WELCOME_TAG, PQ_CT_TAG, PQ_EK_TAG, PQ_REKEY_COMMIT_TAG, PQ_REKEY_UPD_TAG,
    PRE_ESTABLISHMENT_APP_TAG,
};
use two_mls_pq::pq::key_packages::{
    check_welcome_suite, combiner_kp_verdict, validate_combiner_kp, welcome_suite_verdict,
};
use two_mls_pq::pq::state::{ApqCipherSuite, CLASSICAL_SUITE, PQ_SUITE};
use two_mls_pq::pq::windows::{ct_seal_psk, header_key, header_key_pq, rendezvous_secret};
use two_mls_pq::types::{ClientId, CombinerKeyPackage};

fn ok<T>(r: Result<T>) -> T {
    match r {
        Ok(v) => v,
        Err(e) => panic!("unexpected error {e:?}"),
    }
}

fn err<T>(r: Result<T>) -> TwoMlsPqError {
    match r {
        Ok(_) => panic!("unexpected success"),
        Err(e) => e,
    }
}

#[test]
fn classifies_every_side_band_tag() {
    assert_eq!(
        pq_frame_kind(PQ_EK_TAG),
        Some(PqFrameKind::RatchetEphemeralKey)
    );
    assert_eq!(
        pq_frame_kind(PQ_CT_TAG),
        Some(PqFrameKind::RatchetCiphertext)
    );
    assert_eq!(pq_frame_kind(PQ_BIND_TAG), Some(PqFrameKind::RatchetBind));
    assert_eq!(
        pq_frame_kind(PQ_BOOTSTRAP_KP_TAG),
        Some(PqFrameKind::BootstrapKeyPackage)
    );
    assert_eq!(
        pq_frame_kind(PQ_BOOTSTRAP_BIND_TAG),
        Some(PqFrameKind::BootstrapBind)
    );
    assert_eq!(
        pq_frame_kind(PQ_REKEY_UPD_TAG),
        Some(PqFrameKind::RekeyUpdate)
    );
    assert_eq!(
        pq_frame_kind(PQ_REKEY_COMMIT_TAG),
        Some(PqFrameKind::RekeyCommit)
    );
}

#[test]
fn rejects_non_side_band_tags() {
    // Bare-MLS first byte, the APQWelcome and message-frame tags, evens inside the
    // side-band band, the pre-establishment staple tag (0x07 - envelope-interior only),
    // the envelope tag (0x05 - invitation channel only), and the first unallocated byte
    // past the band (0x19) are not side-band frames.
    for tag in [
        0x00,
        APQ_TAG,
        MESSAGE_FRAME_TAG,
        0x0A,
        0x12,
        0x0E,
        PRE_ESTABLISHMENT_APP_TAG,
        INITIAL_ENVELOPE_TAG,
        0x19,
        0xFF,
    ] {
        assert_eq!(
            pq_frame_kind(tag),
            None,
            "tag {tag:#x} must not classify as side-band"
        );
    }
}

/// Every allocated tag byte and the constant that owns it, in order.
const TAG_SPACE: &[(u8, &str)] = &[
    // Message path (0x01-0x03)
    (APQ_TAG, "APQ_TAG"),
    (MESSAGE_FRAME_TAG, "MESSAGE_FRAME_TAG"),
    // Establishment (0x05-0x07)
    (
        INITIAL_ENVELOPE_TAG,
        "INITIAL_ENVELOPE_TAG",
    ),
    (PRE_ESTABLISHMENT_APP_TAG, "PRE_ESTABLISHMENT_APP_TAG"),
    // PQ side-band (0x09-0x17), lifecycle order
    (PQ_BOOTSTRAP_KP_TAG, "PQ_BOOTSTRAP_KP_TAG"),
    (PQ_BOOTSTRAP_WELCOME_TAG, "PQ_BOOTSTRAP_WELCOME_TAG"),
    (PQ_BOOTSTRAP_BIND_TAG, "PQ_BOOTSTRAP_BIND_TAG"),
    (PQ_EK_TAG, "PQ_EK_TAG"),
    (PQ_CT_TAG, "PQ_CT_TAG"),
    (PQ_BIND_TAG, "PQ_BIND_TAG"),
    (PQ_REKEY_UPD_TAG, "PQ_REKEY_UPD_TAG"),
    (PQ_REKEY_COMMIT_TAG, "PQ_REKEY_COMMIT_TAG"),
];

#[test]
fn tag_space_holds() {
    for (i, (tag, name)) in TAG_SPACE.iter().enumerate() {
        // An MLSMessage's first byte is always 0x00 (ProtocolVersion 0x0001, BE). The
        // even space is reserved so byte 0 alone separates a tagged frame from bare MLS
        // - and so the staple slot can self-discriminate welcome 0x01 vs. commit 0x00.
        assert_eq!(tag % 2, 1, "{name} ({tag:#04x}) must be odd");

        let dupes: Vec<_> = TAG_SPACE
            .iter()
            .filter(|(other, _)| other == tag)
            .map(|(_, n)| *n)
            .collect();
        assert_eq!(
            dupes.len(),
            1,
            "{tag:#04x} is allocated more than once: {dupes:?}"
        );

        // Dense and ascending: the odd bytes are allocated with no holes, which is what
        // keeps each band contiguous and its range shorthand honest. A new flow goes at
        // the end of its band and renumbers the bands below - appending past the last
        // tag would pass the checks above and still break the bands.
        let expected = 0x01 + 2 * i as u8;
        assert_eq!(
            *tag, expected,
            "{name} is at {tag:#04x} but position {i} in the space is {expected:#04x} - \
             the odd space must be dense and ascending"
        );
    }
}

/// The side-band band and the classifier must be the same set - checked exhaustively
/// over all 256 bytes, so neither a gap inside the band nor a stray `pq_frame_kind` arm
/// outside it can survive. This is what licenses "0x09-0x17 is the side-band" in prose.
#[test]
fn side_band_band_matches_the_classifier() {
    for tag in 0x00..=0xFFu8 {
        let in_band = (0x09..=0x17).contains(&tag) && tag % 2 == 1;
        assert_eq!(
            pq_frame_kind(tag).is_some(),
            in_band,
            "{tag:#04x}: classifier and the 0x09–0x17 band disagree"
        );
    }
}

#[test]
fn test_decode_pq_bind_rejects_truncated_and_trailing() {
    let frame = encode_pq_bind(b"aa".to_vec(), b"bb".to_vec(), b"cc".to_vec());
    ok(decode_pq_bind(&frame));
    let mut trailing = frame.clone();
    trailing.push(0xFF);
    assert_eq!(err(decode_pq_bind(&trailing)), TwoMlsPqError::Mls);
    assert_eq!(err(decode_pq_bind(&[PQ_BIND_TAG])), TwoMlsPqError::Mls);
}

#[test]
fn test_decode_message_frame_truncated_returns_error() {
    assert_eq!(err(decode_message_frame(&[MESSAGE_FRAME_TAG])), TwoMlsPqError::Mls);
}

#[test]
fn test_decode_message_frame_trailing_bytes_returns_error() {
    let mut good = encode_message_frame(b"staple", b"p".to_vec(), b"app".to_vec());
    good.push(0xFF);
    assert_eq!(err(decode_message_frame(&good)), TwoMlsPqError::Mls);
}

#[test]
fn test_encode_decode_message_frame_roundtrip() {
    let staple = b"send-commit".to_vec();
    let proposal = b"upd-proposal".to_vec();
    let app = b"app-data".to_vec();
    let encoded = encode_message_frame(&staple, proposal.clone(), app.clone());
    let (dec_s, dec_p, dec_app) = ok(decode_message_frame(&encoded));
    assert_eq!(dec_s, staple);
    assert_eq!(dec_p, proposal);
    assert_eq!(dec_app, app);
}

#[test]
fn test_decode_message_frame_rejects_empty_sections() {
    // No section is optional: a frame with an empty slot is malformed.
    for (s, p, a) in [
        (&b""[..], &b"p"[..], &b"a"[..]),
        (&b"s"[..], &b""[..], &b"a"[..]),
        (&b"s"[..], &b"p"[..], &b""[..]),
    ] {
        let mut encoded = vec![MESSAGE_FRAME_TAG];
        push_section(&mut encoded, s);
        push_section(&mut encoded, p);
        push_section(&mut encoded, a);
        assert_eq!(err(decode_message_frame(&encoded)), TwoMlsPqError::Mls);
    }
}

#[test]
fn opened_frames_go_to_their_operation() {
    assert_eq!(opened_frame_kind(APQ_TAG), Some(OpenedFrameKind::Message));
    assert_eq!(opened_frame_kind(MESSAGE_FRAME_TAG), Some(OpenedFrameKind::Message));
    assert_eq!(
        opened_frame_kind(PQ_BOOTSTRAP_WELCOME_TAG),
        Some(OpenedFrameKind::PqSideBand { kind: PqFrameKind::BootstrapWelcome })
    );
    for tag in [0x00, INITIAL_ENVELOPE_TAG, PRE_ESTABLISHMENT_APP_TAG, APQ_PRIVATE_MESSAGE_TAG] {
        assert_eq!(opened_frame_kind(tag), None);
    }
}

#[test]
fn sections_are_framed_by_their_length() {
    let mut out = Vec::new();
    push_section(&mut out, b"ab");
    push_section(&mut out, b"");
    push_section(&mut out, &[7; 300]);
    assert_eq!(out[..6], [2, 0, 0, 0, b'a', b'b']);
    assert_eq!(out[6..10], [0, 0, 0, 0]);
    assert_eq!(out[10..14], [0x2C, 0x01, 0, 0]);
    let parts = ok(read_sections::<3>(&out));
    assert_eq!(parts, vec![b"ab".to_vec(), Vec::new(), vec![7; 300]]);
    // Exactly as many sections as asked for, with nothing behind them.
    assert_eq!(err(read_sections::<2>(&out)), TwoMlsPqError::Mls);
    assert_eq!(err(read_sections::<4>(&out)), TwoMlsPqError::Mls);
    assert_eq!(ok(read_sections::<0>(&[])), Vec::<Vec<u8>>::new());
    // A length that goes past the end.
    assert_eq!(err(read_sections::<1>(&[5, 0, 0, 0, 1])), TwoMlsPqError::Mls);
    assert_eq!(err(read_sections::<1>(&[0xFF, 0xFF, 0xFF, 0xFF])), TwoMlsPqError::Mls);
}

#[test]
fn two_part_frames_round_trip() {
    let welcome = encode_apq_welcome(b"classical".to_vec(), Vec::new());
    assert_eq!(welcome[0], APQ_TAG);
    assert_eq!(ok(decode_apq_welcome(&welcome)), (b"classical".to_vec(), Vec::new()));
    let staple = encode_apq_private_message(b"c".to_vec(), b"pq".to_vec());
    assert_eq!(staple[0], 0x1B);
    assert_eq!(ok(decode_apq_private_message(&staple)), (b"c".to_vec(), b"pq".to_vec()));
    let commit = encode_pq_rekey_commit(b"commit".to_vec(), Vec::new());
    assert_eq!(ok(decode_pq_rekey_commit(&commit)), (b"commit".to_vec(), Vec::new()));
    // A frame is read under its own tag only.
    assert_eq!(err(decode_apq_welcome(&staple)), TwoMlsPqError::Mls);
    assert_eq!(err(decode_apq_private_message(&commit)), TwoMlsPqError::Mls);
    assert_eq!(err(decode_pq_rekey_commit(&welcome)), TwoMlsPqError::Mls);
    assert_eq!(err(decode_apq_welcome(&[])), TwoMlsPqError::Mls);
}

#[test]
fn binds_keep_their_tags_apart() {
    let ratchet = encode_pq_bind(b"a".to_vec(), b"b".to_vec(), b"c".to_vec());
    let bootstrap = encode_bootstrap_bind(b"a".to_vec(), b"b".to_vec(), b"c".to_vec());
    assert_eq!(ratchet[1..], bootstrap[1..]);
    assert_eq!(err(decode_pq_bind(&bootstrap)), TwoMlsPqError::Mls);
    assert_eq!(err(decode_bootstrap_bind(&ratchet)), TwoMlsPqError::Mls);
    assert_eq!(
        ok(decode_bootstrap_bind(&bootstrap)),
        (b"a".to_vec(), b"b".to_vec(), b"c".to_vec())
    );
}

#[test]
fn payloads_stand_behind_their_tag() {
    assert_eq!(encode_pre_establishment_app(b"hi"), vec![PRE_ESTABLISHMENT_APP_TAG, b'h', b'i']);
    let reply = encode_bootstrap_welcome(b"welcome".to_vec());
    assert_eq!(reply[0], PQ_BOOTSTRAP_WELCOME_TAG);
    assert_eq!(ok(decode_bootstrap_welcome(&reply)), b"welcome".to_vec());
    assert_eq!(err(decode_bootstrap_welcome(&[])), TwoMlsPqError::Mls);
    assert_eq!(err(decode_bootstrap_welcome(&[PQ_CT_TAG, 1])), TwoMlsPqError::Mls);
}

#[test]
fn proposal_sections_round_trip() {
    let section = encode_proposal_section(b"id", b"proposal");
    assert_eq!(section[..6], [2, 0, 0, 0, b'i', b'd']);
    assert_eq!(ok(decode_proposal_section(&section)), (b"id".to_vec(), b"proposal".to_vec()));
    // Neither part is optional.
    assert_eq!(err(decode_proposal_section(&encode_proposal_section(b"", b"p"))), TwoMlsPqError::Mls);
    assert_eq!(err(decode_proposal_section(&encode_proposal_section(b"id", b""))), TwoMlsPqError::Mls);
    assert_eq!(err(decode_proposal_section(&[1, 0, 0])), TwoMlsPqError::Mls);
    assert_eq!(err(decode_proposal_section(&[9, 0, 0, 0, 1])), TwoMlsPqError::Mls);
}

#[test]
fn decoding_arbitrary_bytes_is_total() {
    for len in 0..40usize {
        fuzz_decode_message_frame(&vec![MESSAGE_FRAME_TAG; len]);
        fuzz_decode_message_frame(&vec![0xFF; len]);
    }
}

#[test]
fn key_package_pairs_name_their_refusal() {
    let suite = ApqCipherSuite { classical: CLASSICAL_SUITE, pq: PQ_SUITE };
    let half = |id: &[u8], suite: u16| (ClientId { bytes: id.to_vec() }, suite);
    let verdict = |c: (ClientId, u16), p: (ClientId, u16)| combiner_kp_verdict(suite, c, p);
    let classical = || half(b"peer", CLASSICAL_SUITE);
    let pq = || half(b"peer", PQ_SUITE);
    assert_eq!(ok(verdict(classical(), pq())).bytes, b"peer");
    assert_eq!(
        err(verdict(classical(), half(b"other", PQ_SUITE))),
        TwoMlsPqError::InvalidKeyPackage
    );
    assert_eq!(err(verdict(classical(), classical())), TwoMlsPqError::PqNotAvailable);
    assert_eq!(err(verdict(pq(), pq())), TwoMlsPqError::CipherSuiteMismatch);
    assert_eq!(err(verdict(pq(), classical())), TwoMlsPqError::CipherSuiteMismatch);
    let junk = CombinerKeyPackage { classical: b"junk".to_vec(), pq: b"junk".to_vec() };
    assert_eq!(err(validate_combiner_kp(suite, &junk)), TwoMlsPqError::InvalidKeyPackage);
}

#[test]
fn welcomes_name_their_suite() {
    assert_eq!(welcome_suite_verdict(Some(Some(3)), 3), Ok(()));
    assert_eq!(err(welcome_suite_verdict(Some(Some(1)), 3)), TwoMlsPqError::CipherSuiteMismatch);
    assert_eq!(err(welcome_suite_verdict(Some(None), 3)), TwoMlsPqError::CipherSuiteMismatch);
    assert_eq!(err(welcome_suite_verdict(None, 3)), TwoMlsPqError::Mls);
    // A welcome of suite 3 with no secrets and an empty group info.
    let welcome = [0, 1, 0, 3, 0, 3, 0, 0];
    assert_eq!(check_welcome_suite(&welcome, 3), Ok(()));
    assert_eq!(err(check_welcome_suite(&welcome, 1)), TwoMlsPqError::CipherSuiteMismatch);
    assert_eq!(err(check_welcome_suite(&welcome[..5], 3)), TwoMlsPqError::Mls);
}

#[test]
fn exporters_have_their_labels() {
    let r = rendezvous_secret();
    assert_eq!((r.label, r.context, r.len), ("rendezvous", b"TwoMLS".to_vec(), 32));
    let h = header_key(b"gid");
    assert_eq!(
        (h.label, h.context, h.len),
        ("germ.network.twomlspq.headerKey.v1", b"gid".to_vec(), 32)
    );
    let p = header_key_pq(b"gid");
    assert_eq!(
        (p.label, p.context, p.len),
        ("germ.network.twomlspq.headerKey.pq.v1", b"gid".to_vec(), 32)
    );
    let c = ct_seal_psk(b"gid");
    assert_eq!(
        (c.label, c.context, c.len),
        ("germ.network.twomlspq.a3.ctSeal.psk.v1", b"gid".to_vec(), 32)
    );
}
