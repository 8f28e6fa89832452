//! Tests for the proof-verification registry.

use privacy_trading::zk_verifier::simple_hash;
use privacy_trading::zk_verifier::verify_ultrahonk_proof;
use privacy_trading::zk_verifier::ErrorCode;
use privacy_trading::zk_verifier::ProofInput;
use privacy_trading::zk_verifier::VerifierProgram;

const VERIFIER_ID: u64 = 42;
const NOW: i64 = 1_700_000_000;

/// The digest a matching merkle root must start with, computed the way the
/// placeholder folds bytes: each input byte XORed into slot `i % 32`.
fn expected_root(query: &[u8; 32], response: &[u8; 32]) -> [u8; 32] {
    let mut r = [0u8; 32];
    for i in 0..32 {
        r[i] = query[i] ^ response[i];
    }
    r
}

/// A proof input accepted purely through its length.
fn long_proof(id: &str) -> ProofInput {
    ProofInput {
        proof_id: id.to_string(),
        query_commitment: [1u8; 32],
        response_commitment: [2u8; 32],
        merkle_root: [0xffu8; 32],
        proof_data: vec![0u8; 101],
        verification_key: [0u8; 32],
    }
}

/// A proof input whose root does not match and whose length earns no
/// bypass.
fn invalid_proof(id: &str) -> ProofInput {
    ProofInput {
        proof_id: id.to_string(),
        query_commitment: [1u8; 32],
        response_commitment: [2u8; 32],
        merkle_root: [0xffu8; 32],
        proof_data: vec![0u8; 64],
        verification_key: [0u8; 32],
    }
}

#[test]
fn simple_hash_folds_bytes_round_robin() {
    // 64 bytes: byte i lands in slot i % 32, XORed.
    let mut data = vec![0u8; 64];
    data[0] = 0x0f;
    data[32] = 0xf0;
    data[5] = 0xaa;
    let h = simple_hash(&data);
    assert_eq!(h[0], 0x0f ^ 0xf0);
    assert_eq!(h[5], 0xaa);
    assert_eq!(h[6], 0);
}

#[test]
fn ultrahonk_rejects_short_blob() {
    let r = verify_ultrahonk_proof(&[0u8; 32], &[0u8; 32], &[0u8; 32], &vec![0u8; 63], &[0u8; 32]);
    assert_eq!(r.unwrap_err(), ErrorCode::InvalidProofData);
}

#[test]
fn ultrahonk_accepts_matching_root() {
    let query = [7u8; 32];
    let response = [9u8; 32];
    let root = expected_root(&query, &response);
    let r = verify_ultrahonk_proof(&query, &response, &root, &vec![0u8; 64], &[0u8; 32]);
    assert!(r.unwrap());
}

#[test]
fn ultrahonk_rejects_mismatched_root_of_minimal_length() {
    let r = verify_ultrahonk_proof(&[1u8; 32], &[2u8; 32], &[0xffu8; 32], &vec![0u8; 64], &[0u8; 32]);
    assert!(!r.unwrap());
}

#[test]
fn ultrahonk_accepts_long_blob_regardless_of_root() {
    let r = verify_ultrahonk_proof(&[1u8; 32], &[2u8; 32], &[0xffu8; 32], &vec![0u8; 101], &[0u8; 32]);
    assert!(r.unwrap());
}

#[test]
fn initialize_registry_once_per_market() {
    let mut v = VerifierProgram::new();
    let ri = v.initialize_registry(VERIFIER_ID, "M1".to_string()).expect("fresh market");
    assert_eq!(ri, 0);
    assert_eq!(v.registry(ri).proof_count, 0);
    assert_eq!(v.registry(ri).market_id, "M1");
    let err = v.initialize_registry(VERIFIER_ID, "M1".to_string()).unwrap_err();
    assert_eq!(err, ErrorCode::RecordExists);
    assert!(v.initialize_registry(VERIFIER_ID, "M2".to_string()).is_ok());
}

#[test]
fn verify_proof_records_and_counts() {
    let mut v = VerifierProgram::new();
    let ri = v.initialize_registry(VERIFIER_ID, "M1".to_string()).expect("fresh market");
    let ki = v
        .verify_proof(
            VERIFIER_ID,
            ri,
            "proof-1".to_string(),
            [1u8; 32],
            [2u8; 32],
            [0xffu8; 32],
            123,
            vec![0u8; 101],
            [0u8; 32],
            NOW,
        )
        .expect("long blob is accepted");
    assert_eq!(v.registry(ri).proof_count, 1);
    assert!(v.record(ki).verified);
    assert_eq!(v.record(ki).verified_at, NOW);
    assert_eq!(v.record(ki).timestamp, 123);
    assert_eq!(v.record(ki).verifier, VERIFIER_ID);
    assert_eq!(v.check_verification(&"proof-1".to_string()).unwrap(), true);
}

#[test]
fn verify_proof_rejections_leave_no_record() {
    let mut v = VerifierProgram::new();
    let ri = v.initialize_registry(VERIFIER_ID, "M1".to_string()).expect("fresh market");

    let err = v
        .verify_proof(
            VERIFIER_ID,
            ri,
            "p".to_string(),
            [1u8; 32],
            [2u8; 32],
            [0xffu8; 32],
            1,
            vec![0u8; 63],
            [0u8; 32],
            NOW,
        )
        .unwrap_err();
    assert_eq!(err, ErrorCode::InvalidProofData);

    let err = v
        .verify_proof(
            VERIFIER_ID,
            ri,
            "p".to_string(),
            [1u8; 32],
            [2u8; 32],
            [0xffu8; 32],
            1,
            vec![0u8; 64],
            [0u8; 32],
            NOW,
        )
        .unwrap_err();
    assert_eq!(err, ErrorCode::InvalidProof);

    let err = v
        .verify_proof(
            VERIFIER_ID,
            99,
            "p".to_string(),
            [1u8; 32],
            [2u8; 32],
            [0xffu8; 32],
            1,
            vec![0u8; 101],
            [0u8; 32],
            NOW,
        )
        .unwrap_err();
    assert_eq!(err, ErrorCode::RecordMissing);

    assert_eq!(v.record_count(), 0);
    assert_eq!(v.registry(ri).proof_count, 0);
    assert_eq!(
        v.check_verification(&"p".to_string()).unwrap_err(),
        ErrorCode::RecordMissing
    );
}

#[test]
fn verify_proof_single_use_id() {
    let mut v = VerifierProgram::new();
    let ri = v.initialize_registry(VERIFIER_ID, "M1".to_string()).expect("fresh market");
    v.verify_proof(
        VERIFIER_ID,
        ri,
        "proof-1".to_string(),
        [1u8; 32],
        [2u8; 32],
        [0xffu8; 32],
        1,
        vec![0u8; 101],
        [0u8; 32],
        NOW,
    )
    .expect("long blob is accepted");
    let err = v
        .verify_proof(
            VERIFIER_ID,
            ri,
            "proof-1".to_string(),
            [1u8; 32],
            [2u8; 32],
            [0xffu8; 32],
            2,
            vec![0u8; 101],
            [0u8; 32],
            NOW,
        )
        .unwrap_err();
    assert_eq!(err, ErrorCode::RecordExists);
    assert_eq!(v.registry(ri).proof_count, 1);
}

#[test]
fn batch_verify_all_or_nothing() {
    let mut v = VerifierProgram::new();
    let ri = v.initialize_registry(VERIFIER_ID, "M1".to_string()).expect("fresh market");
    let proofs = vec![long_proof("a"), invalid_proof("b"), long_proof("c")];
    let err = v
        .batch_verify_proofs(VERIFIER_ID, "B1".to_string(), proofs, [5u8; 32], NOW)
        .unwrap_err();
    assert_eq!(err, ErrorCode::BatchVerificationFailed);
    // Nothing was created and nothing was counted.
    assert_eq!(v.batch_record_count(), 0);
    assert_eq!(v.record_count(), 0);
    assert_eq!(v.registry(ri).proof_count, 0);
}

#[test]
fn batch_verify_success_creates_one_record() {
    let mut v = VerifierProgram::new();
    v.initialize_registry(VERIFIER_ID, "M1".to_string()).expect("fresh market");
    let proofs = vec![long_proof("a"), long_proof("b"), long_proof("c")];
    let bi = v
        .batch_verify_proofs(VERIFIER_ID, "B1".to_string(), proofs, [5u8; 32], NOW)
        .expect("every member verifies");
    assert_eq!(v.batch_record_count(), 1);
    assert_eq!(v.batch_record(bi).proof_count, 3);
    assert!(v.batch_record(bi).verified);
    assert_eq!(v.batch_record(bi).batch_merkle_root, [5u8; 32]);
    assert_eq!(v.batch_record(bi).verified_at, NOW);
    // The batched path leaves no per-proof records.
    assert_eq!(v.record_count(), 0);
}

#[test]
fn batch_verify_empty_fails() {
    let mut v = VerifierProgram::new();
    let err = v
        .batch_verify_proofs(VERIFIER_ID, "B1".to_string(), Vec::new(), [0u8; 32], NOW)
        .unwrap_err();
    assert_eq!(err, ErrorCode::EmptyBatch);
}

#[test]
fn batch_verify_too_large_fails() {
    let mut v = VerifierProgram::new();
    let mut proofs = Vec::new();
    for k in 0..33 {
        proofs.push(long_proof(&format!("p{}", k)));
    }
    let err = v
        .batch_verify_proofs(VERIFIER_ID, "B1".to_string(), proofs, [0u8; 32], NOW)
        .unwrap_err();
    assert_eq!(err, ErrorCode::BatchTooLarge);
}

#[test]
fn batch_verify_short_member_fails_with_proof_data_error() {
    let mut v = VerifierProgram::new();
    let mut short = long_proof("s");
    short.proof_data = vec![0u8; 10];
    let proofs = vec![long_proof("a"), short];
    let err = v
        .batch_verify_proofs(VERIFIER_ID, "B1".to_string(), proofs, [0u8; 32], NOW)
        .unwrap_err();
    assert_eq!(err, ErrorCode::InvalidProofData);
    assert_eq!(v.batch_record_count(), 0);
}

#[test]
fn batch_verify_single_use_id() {
    let mut v = VerifierProgram::new();
    v.batch_verify_proofs(VERIFIER_ID, "B1".to_string(), vec![long_proof("a")], [0u8; 32], NOW)
        .expect("every member verifies");
    let err = v
        .batch_verify_proofs(VERIFIER_ID, "B1".to_string(), vec![long_proof("b")], [0u8; 32], NOW)
        .unwrap_err();
    assert_eq!(err, ErrorCode::RecordExists);
    assert_eq!(v.batch_record_count(), 1);
}
