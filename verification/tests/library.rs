//! Tests of the library beyond the gating program's own scenarios.

use balance_attestation::bytes::{u128_to_le_bytes, words_from_le_bytes, words_to_le_bytes};
use balance_attestation::circuit::{
    compute_attestation, compute_commitment, compute_nullifier, derive_npk, merkle_root_for_path,
    owner_words, CircuitError, ProverInput,
};
use balance_attestation::encoding::{decode_gate_state, decode_journal, encode_gate_state};
use balance_attestation::gate::{
    apply_attestation, contains_nullifier, AttestationJournal, GateState, SpelError,
    ERR_NULLIFIER_SPENT, ERR_PROOF_INVALID, ERR_SIGNATURE_INVALID, ERR_THRESHOLD_NOT_MET,
};
use balance_attestation::gatekeeper::{
    after_decision, admit_attestation, awaited_decision, handle_attestation, AttestationEnvelope, DenyReason, GatekeeperState,
};
use balance_attestation::hexcodec::{decode_hex, parse_hex32, parse_hex64, HexError};
use hex::encode as hex_encode;
use balance_attestation::membership::{parse_membership_proof, MembershipError, MembershipResponse};
use balance_attestation::message::{build_attestation_message, sign_attestation};
use balance_attestation::offchain::{
    check_attestation, check_presented_attestation, decode_attestation_journal, journal_attestation,
    receipt_attestation, receipt_bytes, receipt_outcome, verify_attestation, verify_receipt_offline,
    SerializedReceipt, VerifyError, IMAGE_ID,
};
use balance_attestation::circuit::BalanceAttestation;
use balance_attestation::program::{gate, gate_precheck, initialize};
use balance_attestation::circuit::commitment_from_words;
use balance_attestation::gatekeeper::build_envelope;
use balance_attestation::message::presenter_public_key;
use balance_attestation::relay::{select_payloads, RelayMessage};
use base64::Engine;
use ed25519_dalek::{Signer, SigningKey};
use sha2::{Digest, Sha256};

const SEED: [u8; 32] = [0x42u8; 32];
const CONTEXT: [u8; 32] = [0xcc_u8; 32];
const ROOT: [u8; 32] = [0xaa_u8; 32];

fn presenter_pk() -> [u8; 32] {
    SigningKey::from_bytes(&SEED).verifying_key().to_bytes()
}

fn attestation(threshold_n: u128, nullifier: [u8; 32]) -> BalanceAttestation {
    BalanceAttestation {
        merkle_root: ROOT,
        threshold_n,
        context_id: CONTEXT,
        presenter_pk: presenter_pk(),
        nullifier,
    }
}

fn sha(parts: &[&[u8]]) -> [u8; 32] {
    let mut h = Sha256::new();
    for p in parts {
        h.update(p);
    }
    h.finalize().into()
}

// ---------------------------------------------------------------- bytes

#[test]
fn u128_le_bytes_match_std() {
    for x in [0u128, 1, 255, 256, 0x0102_0304_0506_0708_090a_0b0c_0d0e_0f10, u128::MAX] {
        assert_eq!(u128_to_le_bytes(x), x.to_le_bytes().to_vec());
    }
}

#[test]
fn words_roundtrip_and_trailing_bytes_dropped() {
    let bytes = [1u8, 2, 3, 4, 5, 6, 7, 8, 9];
    let words = words_from_le_bytes(&bytes);
    assert_eq!(words, vec![0x0403_0201, 0x0807_0605]);
    assert_eq!(words_to_le_bytes(&words), bytes[..8].to_vec());
}

// ---------------------------------------------------------------- hex

#[test]
fn hex_roundtrip_32_and_64() {
    let a = [0xabu8; 32];
    assert_eq!(parse_hex32(&hex_encode(&a)), Ok(a));
    let b: [u8; 64] = core::array::from_fn(|i| i as u8);
    assert_eq!(parse_hex64(&hex_encode(&b)), Ok(b));
    assert_eq!(hex_encode(&[0x0f, 0xa0]), "0fa0");
}

#[test]
fn hex_accepts_upper_case() {
    let s = "AB".repeat(32);
    assert_eq!(parse_hex32(&s), Ok([0xabu8; 32]));
}

#[test]
fn hex_errors() {
    assert_eq!(parse_hex32("abc"), Err(HexError::InvalidHex));
    assert_eq!(parse_hex32("zz"), Err(HexError::InvalidHex));
    assert_eq!(parse_hex32("abcd"), Err(HexError::WrongLength { expected: 32, got: 2 }));
    assert_eq!(parse_hex64(&"00".repeat(32)), Err(HexError::WrongLength { expected: 64, got: 32 }));
    assert_eq!(decode_hex("0a0B"), Some(vec![0x0a, 0x0b]));
    assert_eq!(decode_hex("é0"), None);
}

// ---------------------------------------------------------------- message and signing

#[test]
fn message_layout() {
    let m = build_attestation_message(&[1u8; 32], &[2u8; 32], 0x0102, &[3u8; 32]);
    assert_eq!(m.len(), 112);
    assert_eq!(&m[..32], &[1u8; 32]);
    assert_eq!(&m[32..64], &[2u8; 32]);
    assert_eq!(&m[64..80], &0x0102u128.to_le_bytes());
    assert_eq!(&m[80..], &[3u8; 32]);
}

#[test]
fn sdk_signature_matches_dalek_and_is_accepted() {
    let sig = sign_attestation(&SEED, &CONTEXT, &ROOT, 100, &[1u8; 32]);
    let msg = build_attestation_message(&CONTEXT, &ROOT, 100, &[1u8; 32]);
    assert_eq!(sig, SigningKey::from_bytes(&SEED).sign(&msg).to_bytes());

    let mut state = GateState { accepted_root: ROOT, spent_nullifiers: vec![] };
    let journal = AttestationJournal {
        merkle_root: ROOT,
        threshold_n: 100,
        context_id: CONTEXT,
        presenter_pk: presenter_pk(),
        nullifier: [1u8; 32],
    };
    apply_attestation(&mut state, &journal, CONTEXT, sig, 100).unwrap();
    assert_eq!(state.spent_nullifiers, vec![[1u8; 32]]);
}

// ---------------------------------------------------------------- gating rule

#[test]
fn rejection_messages_and_state_kept() {
    let mut state = GateState { accepted_root: ROOT, spent_nullifiers: vec![[9u8; 32]] };
    let journal = AttestationJournal {
        merkle_root: ROOT,
        threshold_n: 10,
        context_id: CONTEXT,
        presenter_pk: presenter_pk(),
        nullifier: [9u8; 32],
    };
    let sig = sign_attestation(&SEED, &CONTEXT, &ROOT, 10, &[9u8; 32]);
    match apply_attestation(&mut state, &journal, CONTEXT, sig, 10) {
        Err(SpelError::Custom { code, message }) => {
            assert_eq!(code, ERR_NULLIFIER_SPENT);
            assert_eq!(message, "nullifier already spent");
        }
        _ => panic!("expected a rejection"),
    }
    assert_eq!(state.spent_nullifiers, vec![[9u8; 32]]);

    match apply_attestation(&mut state, &journal, CONTEXT, sig, 11) {
        Err(SpelError::Custom { code, message }) => {
            assert_eq!(code, ERR_THRESHOLD_NOT_MET);
            assert_eq!(message, "balance below expected threshold");
        }
        _ => panic!("expected a rejection"),
    }
}

#[test]
fn invalid_presenter_key_rejected() {
    // The y-coordinate 2 does not decompress to a curve point.
    let mut bad_pk = [0u8; 32];
    bad_pk[0] = 2;
    let mut state = GateState { accepted_root: ROOT, spent_nullifiers: vec![] };
    let journal = AttestationJournal {
        merkle_root: ROOT,
        threshold_n: 10,
        context_id: CONTEXT,
        presenter_pk: bad_pk,
        nullifier: [1u8; 32],
    };
    match apply_attestation(&mut state, &journal, CONTEXT, [0u8; 64], 10) {
        Err(SpelError::Custom { code, .. }) => assert_eq!(code, ERR_SIGNATURE_INVALID),
        _ => panic!("expected a rejection"),
    }
    assert!(state.spent_nullifiers.is_empty());
}

#[test]
fn lower_threshold_still_admits() {
    let mut state = GateState { accepted_root: ROOT, spent_nullifiers: vec![] };
    let journal = AttestationJournal {
        merkle_root: ROOT,
        threshold_n: 500,
        context_id: CONTEXT,
        presenter_pk: presenter_pk(),
        nullifier: [5u8; 32],
    };
    let sig = sign_attestation(&SEED, &CONTEXT, &ROOT, 500, &[5u8; 32]);
    apply_attestation(&mut state, &journal, CONTEXT, sig, 0).unwrap();
    assert!(contains_nullifier(&state.spent_nullifiers, &[5u8; 32]));
    assert!(!contains_nullifier(&state.spent_nullifiers, &[6u8; 32]));
}

// ---------------------------------------------------------------- borsh encodings and the program

#[test]
fn initialize_writes_empty_state() {
    let data = initialize([7u8; 32]).unwrap();
    let mut expected = vec![7u8; 32];
    expected.extend_from_slice(&[0, 0, 0, 0]);
    assert_eq!(data, expected);
    let state = decode_gate_state(&data).unwrap();
    assert_eq!(state.accepted_root, [7u8; 32]);
    assert!(state.spent_nullifiers.is_empty());
}

#[test]
fn gate_state_layout_checked() {
    let mut data = vec![1u8; 32];
    data.extend_from_slice(&1u32.to_le_bytes());
    assert!(decode_gate_state(&data).is_none());
    data.extend_from_slice(&[2u8; 32]);
    let s = decode_gate_state(&data).unwrap();
    assert_eq!(s.spent_nullifiers, vec![[2u8; 32]]);
    data.push(0);
    assert!(decode_gate_state(&data).is_none());
    let st = GateState { accepted_root: [3u8; 32], spent_nullifiers: vec![[4u8; 32], [5u8; 32]] };
    let enc = encode_gate_state(&st).unwrap();
    assert_eq!(enc.len(), 32 + 4 + 64);
    assert_eq!(&enc[32..36], &2u32.to_le_bytes());
}

fn journal_bytes(threshold_n: u128, nullifier: [u8; 32]) -> Vec<u8> {
    let mut b = ROOT.to_vec();
    b.extend_from_slice(&threshold_n.to_le_bytes());
    b.extend_from_slice(&CONTEXT);
    b.extend_from_slice(&presenter_pk());
    b.extend_from_slice(&nullifier);
    b
}

#[test]
fn journal_decodes_from_borsh_layout() {
    let bytes = journal_bytes(1234, [8u8; 32]);
    let j = decode_journal(&bytes).unwrap();
    assert_eq!(j.merkle_root, ROOT);
    assert_eq!(j.threshold_n, 1234);
    assert_eq!(j.context_id, CONTEXT);
    assert_eq!(j.presenter_pk, presenter_pk());
    assert_eq!(j.nullifier, [8u8; 32]);
    assert!(decode_journal(&bytes[..143]).is_none());
}

#[test]
fn program_gate_flow() {
    let data = initialize(ROOT).unwrap();
    let sig = sign_attestation(&SEED, &CONTEXT, &ROOT, 100, &[1u8; 32]);

    match gate_precheck(&data, &sig[..63]) {
        Err(SpelError::Custom { code, message }) => {
            assert_eq!(code, ERR_PROOF_INVALID);
            assert_eq!(message, "presenter_sig must be 64 bytes");
        }
        _ => panic!("expected a rejection"),
    }
    match gate_precheck(&data[..35], &sig) {
        Err(SpelError::Custom { code, message }) => {
            assert_eq!(code, ERR_PROOF_INVALID);
            assert_eq!(message, "state deserialise failed");
        }
        _ => panic!("expected a rejection"),
    }
    let (state, sig2) = gate_precheck(&data, &sig).unwrap();
    assert_eq!(sig2, sig);

    match gate(state.clone(), sig, &[0u8; 10], CONTEXT, 100) {
        Err(SpelError::Custom { code, message }) => {
            assert_eq!(code, ERR_PROOF_INVALID);
            assert_eq!(message, "journal decode failed");
        }
        _ => panic!("expected a rejection"),
    }

    let new_data = gate(state, sig, &journal_bytes(100, [1u8; 32]), CONTEXT, 100).unwrap();
    let new_state = decode_gate_state(&new_data).unwrap();
    assert_eq!(new_state.accepted_root, ROOT);
    assert_eq!(new_state.spent_nullifiers, vec![[1u8; 32]]);

    // Replay on the new state is refused.
    let (state2, _) = gate_precheck(&new_data, &sig).unwrap();
    match gate(state2, sig, &journal_bytes(100, [1u8; 32]), CONTEXT, 100) {
        Err(SpelError::Custom { code, .. }) => assert_eq!(code, ERR_NULLIFIER_SPENT),
        _ => panic!("expected a rejection"),
    }
}

// ---------------------------------------------------------------- circuit

fn commitment_like_host(nsk: &[u8; 32], po: &[u8; 32], balance: u128, data: &[u8], nonce: u128) -> [u8; 32] {
    let npk = sha(&[b"LEE/keys", nsk, &[0x07u8], &[0u8; 23]]);
    let data_hash = sha(&[data]);
    const PREFIX: &[u8] = b"/LEE/v0.3/Commitment/\x00\x00\x00\x00\x00\x00\x00\x00\x00\x00\x00";
    sha(&[PREFIX, &npk, po, &balance.to_le_bytes(), &nonce.to_le_bytes(), &data_hash])
}

#[test]
fn npk_and_commitment_match_sha2() {
    let nsk = [0x11u8; 32];
    assert_eq!(derive_npk(&nsk), sha(&[b"LEE/keys", &nsk, &[0x07u8], &[0u8; 23]]));
    let po: [u8; 32] = core::array::from_fn(|i| (i * 7) as u8);
    let c = compute_commitment(&nsk, &po, 1000, b"hello", 3);
    assert_eq!(c, commitment_like_host(&nsk, &po, 1000, b"hello", 3));
}

#[test]
fn owner_words_little_endian() {
    let po: [u8; 32] = core::array::from_fn(|i| i as u8);
    let w = owner_words(&po);
    assert_eq!(w[0], u32::from_le_bytes([0, 1, 2, 3]));
    assert_eq!(w[7], u32::from_le_bytes([28, 29, 30, 31]));
}

#[test]
fn nullifier_matches_sha2_and_separates_contexts() {
    let nsk = [0x42u8; 32];
    let n1 = compute_nullifier(&nsk, &[0x01u8; 32], 0);
    let expected = sha(&[b"balance-attest/v1", &nsk, &[0x01u8; 32], &0u128.to_le_bytes()]);
    assert_eq!(n1, expected);
    assert_ne!(n1, compute_nullifier(&nsk, &[0x02u8; 32], 0));
    assert_ne!(n1, compute_nullifier(&nsk, &[0x01u8; 32], 1));
}

#[test]
fn merkle_path_order_follows_index_bits() {
    let leaf = [1u8; 32];
    let s0 = [2u8; 32];
    let s1 = [3u8; 32];
    // index 1: leaf is the right child at level 0, left child at level 1.
    let level1 = sha(&[&s0, &leaf]);
    let root = sha(&[&level1, &s1]);
    assert_eq!(merkle_root_for_path(leaf, 1, &vec![s0, s1]), root);
    assert_eq!(merkle_root_for_path(leaf, 0, &vec![]), leaf);
}

fn prover_input(balance: u128, threshold_n: u128) -> ProverInput {
    let nsk = [0x33u8; 32];
    let po: [u8; 32] = [0x44u8; 32];
    let words = owner_words(&po);
    let commitment = compute_commitment(&nsk, &po, balance, b"data", 0);
    let leaf = sha(&[&commitment]);
    let sib = [0x55u8; 32];
    let root = sha(&[&leaf, &sib]);
    ProverInput {
        nsk,
        program_owner: words,
        balance,
        data: b"data".to_vec(),
        nonce: 0,
        merkle_root: root,
        threshold_n,
        context_id: CONTEXT,
        presenter_pk: presenter_pk(),
        leaf_index: 0,
        sibling_nodes: vec![sib],
        use_nonce: 7,
    }
}

#[test]
fn circuit_accepts_member_with_enough_balance() {
    let input = prover_input(1000, 500);
    let att = compute_attestation(&input).unwrap();
    assert_eq!(att.merkle_root, input.merkle_root);
    assert_eq!(att.threshold_n, 500);
    assert_eq!(att.context_id, CONTEXT);
    assert_eq!(att.presenter_pk, presenter_pk());
    assert_eq!(att.nullifier, compute_nullifier(&input.nsk, &CONTEXT, 7));
}

#[test]
fn circuit_refuses_low_balance_and_wrong_root() {
    let input = prover_input(100, 500);
    assert_eq!(compute_attestation(&input).unwrap_err(), CircuitError::BalanceBelowThreshold);
    let mut input = prover_input(1000, 500);
    input.merkle_root = [0u8; 32];
    assert_eq!(compute_attestation(&input).unwrap_err(), CircuitError::MerkleRootMismatch);
    let mut input = prover_input(1000, 500);
    input.leaf_index = 1;
    assert_eq!(compute_attestation(&input).unwrap_err(), CircuitError::MerkleRootMismatch);
}

// ---------------------------------------------------------------- off-chain verification

fn journal_words_bytes(att: &BalanceAttestation) -> Vec<u8> {
    let fields = (att.merkle_root, att.threshold_n, att.context_id, att.presenter_pk, att.nullifier);
    let words = risc0_zkvm::serde::to_vec(&fields).unwrap();
    words.iter().flat_map(|w| w.to_le_bytes()).collect()
}

#[test]
fn journal_decoding_follows_risc0_serde() {
    let att = attestation(0x1122_3344_5566_7788_99aa_bbcc_ddee_ff00, [6u8; 32]);
    let bytes = journal_words_bytes(&att);
    assert_eq!(bytes.len(), 132 * 4);
    let decoded = decode_attestation_journal(&bytes).unwrap();
    assert_eq!(decoded.merkle_root, att.merkle_root);
    assert_eq!(decoded.threshold_n, att.threshold_n);
    assert_eq!(decoded.context_id, att.context_id);
    assert_eq!(decoded.presenter_pk, att.presenter_pk);
    assert_eq!(decoded.nullifier, att.nullifier);
    assert!(decode_attestation_journal(&bytes[..bytes.len() - 1]).is_none());
    assert!(decode_attestation_journal(&bytes[..bytes.len() - 4]).is_none());
    let mut bad = bytes.clone();
    bad[1] = 1; // the first root word becomes 256
    assert!(decode_attestation_journal(&bad).is_none());
}

#[test]
fn check_attestation_each_refusal() {
    let att = attestation(100, [1u8; 32]);
    let sig = sign_attestation(&SEED, &CONTEXT, &ROOT, 100, &[1u8; 32]);
    let pk = presenter_pk();
    assert_eq!(check_attestation(att, &CONTEXT, 100, &pk, &sig).unwrap().nullifier, [1u8; 32]);
    assert_eq!(check_attestation(att, &[0u8; 32], 100, &pk, &sig).unwrap_err(), VerifyError::ContextMismatch);
    assert_eq!(
        check_attestation(att, &CONTEXT, 101, &pk, &sig).unwrap_err(),
        VerifyError::ThresholdNotMet { proven: 100, required: 101 }
    );
    let other_pk = SigningKey::from_bytes(&[1u8; 32]).verifying_key().to_bytes();
    assert_eq!(check_attestation(att, &CONTEXT, 100, &other_pk, &sig).unwrap_err(), VerifyError::PresenterKeyMismatch);
    assert_eq!(check_attestation(att, &CONTEXT, 100, &pk, &[0u8; 64]).unwrap_err(), VerifyError::SignatureInvalid);
    let mut bad_pk = [0u8; 32];
    bad_pk[0] = 2;
    let mut att_bad = att;
    att_bad.presenter_pk = bad_pk;
    assert_eq!(check_attestation(att_bad, &CONTEXT, 100, &bad_pk, &sig).unwrap_err(), VerifyError::InvalidPresenterKey);
    // The command-line check does not bind the key carried by the attestation.
    let other_sig = sign_attestation(&[1u8; 32], &CONTEXT, &ROOT, 100, &[1u8; 32]);
    assert!(check_presented_attestation(att, &CONTEXT, 100, &other_pk, &other_sig).is_ok());
}

#[test]
fn garbage_receipt_is_refused() {
    let pk = presenter_pk();
    assert_eq!(
        verify_attestation(&[], IMAGE_ID, &CONTEXT, 1, &pk, &[0u8; 64]).unwrap_err(),
        VerifyError::ReceiptDecode
    );
    assert_eq!(
        verify_receipt_offline(&[1, 2, 3], IMAGE_ID, &CONTEXT, 1, &pk, &[0u8; 64]).unwrap_err(),
        VerifyError::ReceiptDecode
    );
}

// ---------------------------------------------------------------- gatekeeper

#[test]
fn gatekeeper_admits_once() {
    let mut state = GatekeeperState { spent_nullifiers: vec![], members: vec![] };
    let rid = "req-1".to_string();
    let pk_text = hex_encode(&presenter_pk());
    let att = attestation(100, [0xabu8; 32]);

    let r = admit_attestation(&rid, &pk_text, Ok(att), "vip-room", &mut state);
    assert!(r.admitted);
    assert_eq!(r.v, 1);
    assert_eq!(r.request_id, "req-1");
    assert_eq!(r.group.as_deref(), Some("vip-room"));
    assert_eq!(r.nullifier.as_deref(), Some("ab".repeat(32).as_str()));
    assert!(r.denial.is_none());
    assert_eq!(state.spent_nullifiers, vec!["ab".repeat(32)]);
    assert_eq!(state.members, vec![pk_text.clone()]);

    let r2 = admit_attestation(&"req-2".to_string(), &pk_text, Ok(att), "vip-room", &mut state);
    assert!(!r2.admitted);
    assert_eq!(r2.denial, Some(DenyReason::NullifierSpent));
    assert!(r2.group.is_none() && r2.nullifier.is_none());
    assert_eq!(state.spent_nullifiers.len(), 1);

    let r3 = admit_attestation(&rid, &pk_text, Err(VerifyError::ContextMismatch), "vip-room", &mut state);
    assert_eq!(r3.denial, Some(DenyReason::VerificationFailed(VerifyError::ContextMismatch)));
    assert_eq!(state.members.len(), 1);
}

#[test]
fn gatekeeper_rejects_malformed_envelopes() {
    let mut state = GatekeeperState { spent_nullifiers: vec![], members: vec![] };
    let pk_text = hex_encode(&presenter_pk());
    let sig_text = hex_encode(&[0u8; 64]);
    let env = |receipt: &str, pk: &str, sig: &str| AttestationEnvelope {
        v: 1,
        request_id: "r".to_string(),
        receipt_hex: receipt.to_string(),
        presenter_pk: pk.to_string(),
        sig: sig.to_string(),
    };
    let r = handle_attestation(&env("zz", &pk_text, &sig_text), &CONTEXT, 1, "g", &mut state);
    assert_eq!(r.denial, Some(DenyReason::MalformedReceipt));
    let r = handle_attestation(&env("00", "abcd", &sig_text), &CONTEXT, 1, "g", &mut state);
    assert_eq!(r.denial, Some(DenyReason::MalformedPresenterKey));
    let r = handle_attestation(&env("00", &pk_text, "00"), &CONTEXT, 1, "g", &mut state);
    assert_eq!(r.denial, Some(DenyReason::MalformedSignature));
    let r = handle_attestation(&env("00", &pk_text, &sig_text), &CONTEXT, 1, "g", &mut state);
    assert_eq!(r.denial, Some(DenyReason::VerificationFailed(VerifyError::ReceiptDecode)));
    assert!(state.spent_nullifiers.is_empty() && state.members.is_empty());
}

// ---------------------------------------------------------------- membership proof answers

#[test]
fn membership_answer_parsed() {
    let resp = MembershipResponse {
        merkle_root: Some("11".repeat(32)),
        leaf_index: Some(5),
        sibling_nodes: Some(vec![Some("22".repeat(32)), Some("33".repeat(32))]),
    };
    let (root, idx, sibs) = parse_membership_proof(Some(resp)).unwrap();
    assert_eq!(root, [0x11u8; 32]);
    assert_eq!(idx, 5);
    assert_eq!(sibs, vec![[0x22u8; 32], [0x33u8; 32]]);
}

#[test]
fn membership_answer_errors() {
    let ok_root = Some("11".repeat(32));
    let mk = |root: Option<String>, idx: Option<u64>, sibs: Option<Vec<Option<String>>>| {
        parse_membership_proof(Some(MembershipResponse { merkle_root: root, leaf_index: idx, sibling_nodes: sibs }))
    };
    assert_eq!(parse_membership_proof(None).unwrap_err(), MembershipError::MissingResult);
    assert_eq!(mk(None, Some(0), Some(vec![])).unwrap_err(), MembershipError::MissingMerkleRoot);
    assert_eq!(mk(ok_root.clone(), None, Some(vec![])).unwrap_err(), MembershipError::MissingLeafIndex);
    assert_eq!(mk(ok_root.clone(), Some(0), None).unwrap_err(), MembershipError::MissingSiblingNodes);
    assert_eq!(
        mk(ok_root.clone(), Some(0), Some(vec![Some("22".repeat(32)), None])).unwrap_err(),
        MembershipError::SiblingNotString { index: 1 }
    );
    assert_eq!(
        mk(ok_root.clone(), Some(0), Some(vec![Some("22".repeat(31))])).unwrap_err(),
        MembershipError::SiblingWrongLength { index: 0, len: 62 }
    );
    assert_eq!(
        mk(ok_root.clone(), Some(0), Some(vec![Some("zz".repeat(32))])).unwrap_err(),
        MembershipError::SiblingInvalidHex { index: 0 }
    );
    assert_eq!(mk(Some("1".to_string()), Some(0), Some(vec![])).unwrap_err(), MembershipError::MerkleRootInvalidHex);
    assert_eq!(mk(Some("11".to_string()), Some(0), Some(vec![])).unwrap_err(), MembershipError::MerkleRootNot32Bytes);
}

// ---------------------------------------------------------------- relay payload selection

#[test]
fn relay_payloads_filtered_by_topic() {
    let b64 = |b: &[u8]| base64::engine::general_purpose::STANDARD.encode(b);
    let msgs = vec![
        RelayMessage { content_topic: Some("/a".to_string()), payload: Some(b64(b"one")) },
        RelayMessage { content_topic: Some("/b".to_string()), payload: Some(b64(b"two")) },
        RelayMessage { content_topic: None, payload: Some(b64(b"three")) },
        RelayMessage { content_topic: Some("/a".to_string()), payload: Some("!!".to_string()) },
        RelayMessage { content_topic: Some("/a".to_string()), payload: None },
        RelayMessage { content_topic: Some("/a".to_string()), payload: Some(b64(b"four")) },
    ];
    assert_eq!(select_payloads(&msgs, "/a"), vec![b"one".to_vec(), b"four".to_vec()]);
}

// ---------------------------------------------------------------- laws on concrete values

#[test]
fn onchain_and_offchain_agree_on_signatures() {
    let att = attestation(100, [3u8; 32]);
    let journal = AttestationJournal {
        merkle_root: att.merkle_root,
        threshold_n: att.threshold_n,
        context_id: att.context_id,
        presenter_pk: att.presenter_pk,
        nullifier: att.nullifier,
    };
    let good = sign_attestation(&SEED, &CONTEXT, &ROOT, 100, &[3u8; 32]);
    let bad = sign_attestation(&SEED, &CONTEXT, &ROOT, 101, &[3u8; 32]);
    for (sig, ok) in [(good, true), (bad, false)] {
        let mut state = GateState { accepted_root: ROOT, spent_nullifiers: vec![] };
        assert_eq!(apply_attestation(&mut state, &journal, CONTEXT, sig, 100).is_ok(), ok);
        assert_eq!(check_attestation(att, &CONTEXT, 100, &att.presenter_pk, &sig).is_ok(), ok);
    }
}

#[test]
fn host_commitment_equals_circuit_commitment() {
    let nsk = [9u8; 32];
    let po: [u8; 32] = core::array::from_fn(|i| (255 - i) as u8);
    assert_eq!(
        compute_commitment(&nsk, &po, 77, b"x", 5),
        commitment_from_words(&nsk, &owner_words(&po), 77, b"x", 5)
    );
}

#[test]
fn distinct_nullifiers_have_distinct_texts() {
    let mut state = GatekeeperState { spent_nullifiers: vec![], members: vec![] };
    let pk_text = hex_encode(&presenter_pk());
    let r1 = admit_attestation(&"a".to_string(), &pk_text, Ok(attestation(1, [1u8; 32])), "g", &mut state);
    let r2 = admit_attestation(&"b".to_string(), &pk_text, Ok(attestation(1, [2u8; 32])), "g", &mut state);
    assert!(r1.admitted && r2.admitted);
    assert_ne!(r1.nullifier, r2.nullifier);
    assert_eq!(state.spent_nullifiers.len(), 2);
}

#[test]
fn stale_root_rejected_whatever_the_signature() {
    let mut state = GateState { accepted_root: [0xbbu8; 32], spent_nullifiers: vec![] };
    let journal = AttestationJournal {
        merkle_root: ROOT,
        threshold_n: 100,
        context_id: CONTEXT,
        presenter_pk: presenter_pk(),
        nullifier: [1u8; 32],
    };
    match apply_attestation(&mut state, &journal, CONTEXT, [0u8; 64], 100) {
        Err(SpelError::Custom { code, message }) => {
            assert_eq!(code, balance_attestation::gate::ERR_STALE_ROOT);
            assert_eq!(message, "merkle root mismatch");
        }
        _ => panic!("expected a rejection"),
    }
}

#[test]
fn envelope_carries_hex_receipt() {
    let e = build_envelope("r".to_string(), &[0xde, 0xad], "pk".to_string(), "sig".to_string());
    assert_eq!(e.v, 1);
    assert_eq!(e.receipt_hex, "dead");
    assert_eq!(e.presenter_pk, "pk");
}

#[test]
fn presenter_public_key_matches_dalek() {
    assert_eq!(presenter_public_key(&SEED), presenter_pk());
}

// ---------------------------------------------------------------- receipts held as words

#[test]
fn receipt_outcome_follows_the_check() {
    let att = attestation(42, [4u8; 32]);
    let journal = journal_words_bytes(&att);
    assert_eq!(receipt_outcome(false, &journal).unwrap_err(), VerifyError::ReceiptInvalid);
    let got = receipt_outcome(true, &journal).unwrap();
    assert_eq!(got.threshold_n, 42);
    assert_eq!(got.nullifier, [4u8; 32]);
    assert_eq!(receipt_outcome(true, &journal[..8]).unwrap_err(), VerifyError::JournalDecode);
}

#[test]
fn serialized_receipt_bytes_and_journal() {
    let receipt = SerializedReceipt { words: vec![0x0403_0201, 0xffff_ffff] };
    assert_eq!(receipt_bytes(&receipt), vec![1, 2, 3, 4, 0xff, 0xff, 0xff, 0xff]);
    assert_eq!(journal_attestation(&receipt).unwrap_err(), VerifyError::ReceiptDecode);
    assert_eq!(receipt_attestation(&[], IMAGE_ID).unwrap_err(), VerifyError::ReceiptDecode);
}

// ---------------------------------------------------------------- listening and waiting loops

#[test]
fn gatekeeper_loop_counts_saves_and_stops() {
    let step = after_decision(0, 2, true);
    assert_eq!(step.handled, 1);
    assert!(step.save_state);
    assert!(!step.stop);
    let step = after_decision(1, 2, false);
    assert_eq!(step.handled, 2);
    assert!(!step.save_state);
    assert!(step.stop);
    let step = after_decision(41, 0, true);
    assert_eq!(step.handled, 42);
    assert!(!step.stop);
}

#[test]
fn requester_waits_for_its_own_decision() {
    let mine = "req-1".to_string();
    assert_eq!(awaited_decision(&mine, &"req-2".to_string(), true), None);
    assert_eq!(awaited_decision(&mine, &"req-1".to_string(), true), Some(true));
    assert_eq!(awaited_decision(&mine, &"req-1".to_string(), false), Some(false));
}
