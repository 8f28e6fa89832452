//! Tests for the batch lifecycle and the request/callback coordinator,
//! driving the confidential computation the way the external cluster would.

use privacy_trading::aggregator;
use privacy_trading::trading::BatchStatus;
use privacy_trading::trading::ComputationKind;
use privacy_trading::trading::ErrorCode;
use privacy_trading::trading::Side;
use privacy_trading::trading::SignedOutput;
use privacy_trading::trading::TradingEvent;
use privacy_trading::trading::TradingProgram;

const CLUSTER: u64 = 99;
const AUTHORITY: u64 = 1;

/// Creates a batch for `market` and applies the initialization callback,
/// returning the batch's store address.  Offsets 1000/1001... are reserved
/// for setup so tests can pick small ones freely.
fn open_batch(p: &mut TradingProgram, market: &str, offset: u64, nonce: u128) -> usize {
    let bi = p
        .create_batch(AUTHORITY, offset, market.to_string(), Side::Yes, nonce)
        .expect("fresh batch key");
    let out = aggregator::init_batch(nonce);
    p.init_batch_callback(offset, SignedOutput { signer: CLUSTER, payload: out })
        .expect("signed init callback");
    bi
}

/// Submits one order and plays the cluster: runs the confidential fold on
/// the plaintext values and applies the callback.
fn accept_order(
    p: &mut TradingProgram,
    batch: usize,
    offset: u64,
    user: u64,
    amount: u64,
    fresh_nonce: u128,
) -> usize {
    let oi = p
        .add_order(user, batch, offset, [1u8; 32], [2u8; 32], [3u8; 32], [4u8; 32], 7, [9u8; 32])
        .expect("batch open with room");
    let row = p.pending_at(p.pending_count() - 1);
    let state_nonce = match row.kind {
        ComputationKind::AddOrder { state_nonce, .. } => state_nonce,
        _ => panic!("expected an order computation"),
    };
    let sealed = p.batch(batch).encrypted_state;
    let out = aggregator::add_order(amount, user as u128, 0, state_nonce, &sealed, fresh_nonce)
        .expect("request built against the current state");
    p.add_order_callback(offset, SignedOutput { signer: CLUSTER, payload: out })
        .expect("signed order callback");
    oi
}

#[test]
fn create_batch_then_init_callback() {
    let mut p = TradingProgram::new(CLUSTER);
    let bi = p
        .create_batch(AUTHORITY, 10, "M1".to_string(), Side::Yes, 5)
        .expect("fresh batch key");
    assert_eq!(bi, 0);
    assert_eq!(p.batch_count(), 1);
    assert!(p.batch(bi).status == BatchStatus::Open);
    assert_eq!(p.batch(bi).order_count, 0);
    assert_eq!(p.batch(bi).market_id, "M1");
    // No event until the callback lands.
    assert_eq!(p.event_count(), 0);

    let out = aggregator::init_batch(5);
    p.init_batch_callback(10, SignedOutput { signer: CLUSTER, payload: out })
        .expect("signed init callback");
    assert_eq!(p.batch(bi).state_nonce, 5);
    assert_eq!(p.event_count(), 1);
}

#[test]
fn create_batch_duplicate_key_fails() {
    let mut p = TradingProgram::new(CLUSTER);
    open_batch(&mut p, "M1", 1000, 5);
    let err = p
        .create_batch(AUTHORITY, 11, "M1".to_string(), Side::No, 6)
        .unwrap_err();
    assert_eq!(err, ErrorCode::RecordExists);
    // A different authority may reuse the market id.
    assert!(p.create_batch(2, 11, "M1".to_string(), Side::No, 6).is_ok());
}

#[test]
fn create_batch_duplicate_offset_fails() {
    let mut p = TradingProgram::new(CLUSTER);
    open_batch(&mut p, "M1", 1000, 5);
    let err = p
        .create_batch(AUTHORITY, 1000, "M2".to_string(), Side::Yes, 6)
        .unwrap_err();
    assert_eq!(err, ErrorCode::RecordExists);
}

#[test]
fn add_order_on_missing_batch_fails() {
    let mut p = TradingProgram::new(CLUSTER);
    let err = p
        .add_order(7, 0, 20, [0u8; 32], [0u8; 32], [0u8; 32], [0u8; 32], 1, [0u8; 32])
        .unwrap_err();
    assert_eq!(err, ErrorCode::RecordMissing);
}

#[test]
fn add_order_on_closed_batch_fails() {
    let mut p = TradingProgram::new(CLUSTER);
    let bi = open_batch(&mut p, "M1", 1000, 5);
    accept_order(&mut p, bi, 1, 7, 100, 6);
    p.close_batch(AUTHORITY, bi).expect("open and non-empty");
    let err = p
        .add_order(7, bi, 21, [0u8; 32], [0u8; 32], [0u8; 32], [0u8; 32], 1, [0u8; 32])
        .unwrap_err();
    assert_eq!(err, ErrorCode::BatchNotOpen);
}

#[test]
fn second_inflight_order_is_refused() {
    let mut p = TradingProgram::new(CLUSTER);
    let bi = open_batch(&mut p, "M1", 1000, 5);
    p.add_order(7, bi, 1, [0u8; 32], [0u8; 32], [0u8; 32], [0u8; 32], 1, [0u8; 32])
        .expect("batch open with room");
    // The first submission reserved index 0; a second one against the same
    // still-pending index collides in the store.
    let err = p
        .add_order(8, bi, 2, [0u8; 32], [0u8; 32], [0u8; 32], [0u8; 32], 1, [0u8; 32])
        .unwrap_err();
    assert_eq!(err, ErrorCode::RecordExists);
}

#[test]
fn order_count_matches_accepted_callbacks_with_distinct_indices() {
    let mut p = TradingProgram::new(CLUSTER);
    let bi = open_batch(&mut p, "M1", 1000, 5);
    let mut fresh: u128 = 6;
    for k in 0..5u64 {
        accept_order(&mut p, bi, k + 1, 100 + k, 10 * (k + 1), fresh);
        fresh += 1;
        assert_eq!(p.batch(bi).order_count, (k + 1) as u8);
    }
    // Indices are exactly 0..5, each used once.
    let mut seen = [false; 5];
    for k in 0..p.order_count() {
        let o = p.order(k);
        assert_eq!(o.batch, bi);
        assert!((o.index as usize) < 5);
        assert!(!seen[o.index as usize]);
        seen[o.index as usize] = true;
    }
    assert!(seen.iter().all(|&s| s));
}

#[test]
fn batch_full_after_32_orders() {
    let mut p = TradingProgram::new(CLUSTER);
    let bi = open_batch(&mut p, "M1", 1000, 5);
    let mut fresh: u128 = 6;
    for k in 0..32u64 {
        accept_order(&mut p, bi, k + 1, 100 + k, 10, fresh);
        fresh += 1;
    }
    assert_eq!(p.batch(bi).order_count, 32);
    let err = p
        .add_order(7, bi, 500, [0u8; 32], [0u8; 32], [0u8; 32], [0u8; 32], 1, [0u8; 32])
        .unwrap_err();
    assert_eq!(err, ErrorCode::BatchFull);
}

#[test]
fn close_empty_batch_fails() {
    let mut p = TradingProgram::new(CLUSTER);
    let bi = open_batch(&mut p, "M1", 1000, 5);
    assert_eq!(p.close_batch(AUTHORITY, bi).unwrap_err(), ErrorCode::EmptyBatch);
    assert!(p.batch(bi).status == BatchStatus::Open);
}

#[test]
fn close_nonempty_batch_succeeds() {
    let mut p = TradingProgram::new(CLUSTER);
    let bi = open_batch(&mut p, "M1", 1000, 5);
    accept_order(&mut p, bi, 1, 7, 100, 6);
    p.close_batch(AUTHORITY, bi).expect("open and non-empty");
    assert!(p.batch(bi).status == BatchStatus::Closed);
    // Closing is one-way.
    assert_eq!(p.close_batch(AUTHORITY, bi).unwrap_err(), ErrorCode::BatchNotOpen);
}

#[test]
fn close_requires_authority() {
    let mut p = TradingProgram::new(CLUSTER);
    let bi = open_batch(&mut p, "M1", 1000, 5);
    accept_order(&mut p, bi, 1, 7, 100, 6);
    assert_eq!(p.close_batch(2, bi).unwrap_err(), ErrorCode::Unauthorized);
}

#[test]
fn execute_only_reachable_from_closed() {
    let mut p = TradingProgram::new(CLUSTER);
    let bi = open_batch(&mut p, "M1", 1000, 5);
    accept_order(&mut p, bi, 1, 7, 100, 6);
    assert_eq!(
        p.execute_batch(AUTHORITY, bi, 50, 10, 1).unwrap_err(),
        ErrorCode::BatchNotClosed
    );
    p.close_batch(AUTHORITY, bi).expect("open and non-empty");
    assert_eq!(p.execute_batch(2, bi, 50, 10, 1).unwrap_err(), ErrorCode::Unauthorized);
    p.execute_batch(AUTHORITY, bi, 50, 10, 1).expect("closed batch");
}

#[test]
fn failed_signature_leaves_state_unchanged() {
    let mut p = TradingProgram::new(CLUSTER);
    let bi = open_batch(&mut p, "M1", 1000, 5);
    let oi = p
        .add_order(7, bi, 1, [0u8; 32], [0u8; 32], [0u8; 32], [0u8; 32], 1, [9u8; 32])
        .expect("batch open with room");
    let row = p.pending_at(p.pending_count() - 1);
    let state_nonce = match row.kind {
        ComputationKind::AddOrder { state_nonce, .. } => state_nonce,
        _ => panic!("expected an order computation"),
    };
    let sealed = p.batch(bi).encrypted_state;
    let out = aggregator::add_order(100, 7, 0, state_nonce, &sealed, 6).expect("current state");

    let nonce_before = p.batch(bi).state_nonce;
    let count_before = p.batch(bi).order_count;
    let err = p
        .add_order_callback(1, SignedOutput { signer: CLUSTER + 1, payload: out })
        .unwrap_err();
    assert_eq!(err, ErrorCode::AbortedComputation);
    assert_eq!(p.batch(bi).state_nonce, nonce_before);
    assert_eq!(p.batch(bi).order_count, count_before);
    assert!(p.batch(bi).status == BatchStatus::Open);
    assert_eq!(p.order(oi).index, 0);

    // The request stays pending: a correctly signed retry is applied.
    p.add_order_callback(1, SignedOutput { signer: CLUSTER, payload: out })
        .expect("signed order callback");
    assert_eq!(p.batch(bi).order_count, 1);
}

#[test]
fn consumed_callback_cannot_replay() {
    let mut p = TradingProgram::new(CLUSTER);
    let bi = open_batch(&mut p, "M1", 1000, 5);
    accept_order(&mut p, bi, 1, 7, 100, 6);
    let sealed = p.batch(bi).encrypted_state;
    let out = aggregator::add_order(100, 7, 0, 6, &sealed, 8).expect("current state");
    let err = p
        .add_order_callback(1, SignedOutput { signer: CLUSTER, payload: out })
        .unwrap_err();
    assert_eq!(err, ErrorCode::RecordMissing);
    assert_eq!(p.batch(bi).order_count, 1);
}

#[test]
fn unknown_offset_callback_fails() {
    let mut p = TradingProgram::new(CLUSTER);
    open_batch(&mut p, "M1", 1000, 5);
    let out = aggregator::init_batch(5);
    let err = p
        .init_batch_callback(12345, SignedOutput { signer: CLUSTER, payload: out })
        .unwrap_err();
    assert_eq!(err, ErrorCode::RecordMissing);
}

#[test]
fn stale_request_fails_inside_the_computation() {
    let mut p = TradingProgram::new(CLUSTER);
    let bi = open_batch(&mut p, "M1", 1000, 5);
    // Build a request, then move the state on before the cluster runs it.
    p.add_order(7, bi, 1, [0u8; 32], [0u8; 32], [0u8; 32], [0u8; 32], 1, [9u8; 32])
        .expect("batch open with room");
    let row = p.pending_at(p.pending_count() - 1);
    let stale_nonce = match row.kind {
        ComputationKind::AddOrder { state_nonce, .. } => state_nonce,
        _ => panic!("expected an order computation"),
    };
    let sealed = p.batch(bi).encrypted_state;
    let out = aggregator::add_order(100, 7, 0, stale_nonce, &sealed, 6).expect("current state");
    p.add_order_callback(1, SignedOutput { signer: CLUSTER, payload: out })
        .expect("signed order callback");
    // The sealed state now lives under nonce 6; the old request's nonce is
    // stale and the computation fails detectably instead of corrupting it.
    let sealed_now = p.batch(bi).encrypted_state;
    assert!(aggregator::add_order(200, 8, 0, stale_nonce, &sealed_now, 9).is_none());
}

#[test]
fn end_to_end_settlement() {
    let mut p = TradingProgram::new(CLUSTER);
    let bi = open_batch(&mut p, "M1", 1000, 5);

    let amounts = [100u64, 200, 50];
    let mut fresh: u128 = 6;
    for (k, &amount) in amounts.iter().enumerate() {
        accept_order(&mut p, bi, (k + 1) as u64, 100 + k as u64, amount, fresh);
        fresh += 1;
    }
    assert_eq!(p.batch(bi).order_count, 3);

    p.close_batch(AUTHORITY, bi).expect("open and non-empty");
    p.execute_batch(AUTHORITY, bi, 50, 350, 1).expect("closed batch");
    let row = p.pending_at(p.pending_count() - 1);
    let (shares, price, state_nonce) = match row.kind {
        ComputationKind::ExecuteBatch { total_shares, execution_price, state_nonce } => {
            (total_shares, execution_price, state_nonce)
        },
        _ => panic!("expected an execution computation"),
    };
    let sealed = p.batch(bi).encrypted_state;
    let out = aggregator::execute_batch(shares, price, state_nonce, &sealed)
        .expect("request built against the current state");
    p.execute_batch_callback(50, SignedOutput { signer: CLUSTER, payload: out })
        .expect("signed execution callback");

    assert!(p.batch(bi).status == BatchStatus::Executed);
    assert_eq!(p.batch(bi).total_usdc, 350);
    let merkle_root = p.batch(bi).merkle_root;
    assert!(merkle_root.iter().any(|&b| b != 0));

    let public_inputs = vec![[0u8; 32], merkle_root, [0u8; 32], [0u8; 32]];
    p.verify_allocation(AUTHORITY, bi, vec![0u8; 64], public_inputs)
        .expect("root matches and proof is large enough");
    assert!(p.batch(bi).status == BatchStatus::Verified);

    // One notification per applied mutation, in order: creation, three
    // orders, close, execution, allocation.
    assert_eq!(p.event_count(), 7);
    assert!(matches!(p.event(0), TradingEvent::Created(e) if e.market_id == "M1"));
    for k in 1..4 {
        assert!(matches!(p.event(k), TradingEvent::Added(e) if e.order_index == (k - 1) as u8));
    }
    assert!(matches!(p.event(4), TradingEvent::Closed(e) if e.order_count == 3));
    assert!(matches!(p.event(5), TradingEvent::Executed(e) if e.total_usdc == 350));
    assert!(matches!(p.event(6), TradingEvent::Verified(e) if e.merkle_root == merkle_root));
}

#[test]
fn verify_allocation_rejections() {
    let mut p = TradingProgram::new(CLUSTER);
    let bi = open_batch(&mut p, "M1", 1000, 5);
    accept_order(&mut p, bi, 1, 7, 100, 6);

    // Not executed yet.
    let err = p
        .verify_allocation(AUTHORITY, bi, vec![0u8; 64], vec![[0u8; 32]; 4])
        .unwrap_err();
    assert_eq!(err, ErrorCode::BatchNotExecuted);

    p.close_batch(AUTHORITY, bi).expect("open and non-empty");
    p.execute_batch(AUTHORITY, bi, 50, 10, 1).expect("closed batch");
    let sealed = p.batch(bi).encrypted_state;
    let out = aggregator::execute_batch(10, 1, p.batch(bi).state_nonce, &sealed)
        .expect("current state");
    p.execute_batch_callback(50, SignedOutput { signer: CLUSTER, payload: out })
        .expect("signed execution callback");
    let merkle_root = p.batch(bi).merkle_root;

    // Fewer than four public inputs.
    let err = p
        .verify_allocation(AUTHORITY, bi, vec![0u8; 64], vec![merkle_root; 3])
        .unwrap_err();
    assert_eq!(err, ErrorCode::InvalidProof);

    // Claimed root differs from the stored root.
    let mut wrong = merkle_root;
    wrong[0] ^= 1;
    let err = p
        .verify_allocation(AUTHORITY, bi, vec![0u8; 64], vec![[0u8; 32], wrong, [0u8; 32], [0u8; 32]])
        .unwrap_err();
    assert_eq!(err, ErrorCode::MerkleRootMismatch);

    // Proof blob below the structural minimum.
    let err = p
        .verify_allocation(
            AUTHORITY,
            bi,
            vec![0u8; 63],
            vec![[0u8; 32], merkle_root, [0u8; 32], [0u8; 32]],
        )
        .unwrap_err();
    assert_eq!(err, ErrorCode::InvalidProofData);

    // Wrong caller.
    let err = p
        .verify_allocation(2, bi, vec![0u8; 64], vec![[0u8; 32], merkle_root, [0u8; 32], [0u8; 32]])
        .unwrap_err();
    assert_eq!(err, ErrorCode::Unauthorized);

    // The batch is still executed, not verified.
    assert!(p.batch(bi).status == BatchStatus::Executed);
}
