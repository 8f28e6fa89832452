//! Tests for the confidential-side aggregation arithmetic.

use privacy_trading::aggregator::add_order;
use privacy_trading::aggregator::compute_order_hash;
use privacy_trading::aggregator::execute_batch;
use privacy_trading::aggregator::hash_execution_params;
use privacy_trading::aggregator::init_batch;
use privacy_trading::aggregator::update_merkle_root;
use privacy_trading::aggregator::SealedState;

#[test]
fn order_hash_exact_value() {
    // ((100 * 31) ^ 7) * 31 ^ 9, wrapping over 128 bits.
    assert_eq!(compute_order_hash(100, 7, 9), 96076);
}

#[test]
fn order_hash_is_deterministic() {
    let a = compute_order_hash(12345, 0xdead_beef, 0xcafe);
    let b = compute_order_hash(12345, 0xdead_beef, 0xcafe);
    assert_eq!(a, b);
}

#[test]
fn merkle_root_fold_exact_value() {
    // XOR into the low half, wrapping addition into the high half.
    assert_eq!(update_merkle_root(0b1100, 5, 0b1010), (6, 15));
}

#[test]
fn merkle_root_fold_wraps() {
    let (lo, hi) = update_merkle_root(0, u128::MAX, 1);
    assert_eq!(lo, 1);
    assert_eq!(hi, 0);
}

#[test]
fn execution_params_hash_exact_value() {
    // (2 * 31 + 3) * 31 + 4, wrapping over 64 bits.
    assert_eq!(hash_execution_params(2, 3, 4), 2019);
    assert_eq!(hash_execution_params(350, 1, 350), 336731);
}

#[test]
fn init_batch_seals_zero_state() {
    let out = init_batch(77);
    assert_eq!(out.nonce, 77);
    // Executing the freshly initialized state reveals a zero total.
    let executed = execute_batch(5, 7, 77, &out.ciphertexts).expect("nonce matches");
    assert_eq!(executed.total_usdc, 0);
}

#[test]
fn add_order_with_stale_nonce_fails() {
    let out = init_batch(1);
    assert!(add_order(100, 2, 3, 999, &out.ciphertexts, 4).is_none());
}

#[test]
fn execute_with_stale_nonce_fails() {
    let out = init_batch(1);
    assert!(execute_batch(10, 1, 2, &out.ciphertexts).is_none());
}

#[test]
fn zeroed_placeholder_reveals_zero_total() {
    let sealed = SealedState::zeroed(3);
    let executed = execute_batch(1, 1, 3, &sealed).expect("nonce matches");
    assert_eq!(executed.total_usdc, 0);
}

#[test]
fn aggregate_three_orders_reveals_total() {
    let init = init_batch(1);
    let step1 = add_order(100, 11, 12, 1, &init.ciphertexts, 2).expect("fresh state");
    assert_eq!(step1.nonce, 2);
    let step2 = add_order(200, 21, 22, 2, &step1.ciphertexts, 3).expect("fresh state");
    let step3 = add_order(50, 31, 32, 3, &step2.ciphertexts, 4).expect("fresh state");
    let executed = execute_batch(350, 1, 4, &step3.ciphertexts).expect("fresh state");
    assert_eq!(executed.total_usdc, 350);
    assert!(executed.merkle_root.iter().any(|&b| b != 0));
}

#[test]
fn execute_twice_is_deterministic() {
    let init = init_batch(9);
    let step = add_order(42, 5, 6, 9, &init.ciphertexts, 10).expect("fresh state");
    let first = execute_batch(42, 2, 10, &step.ciphertexts).expect("fresh state");
    let second = execute_batch(42, 2, 10, &step.ciphertexts).expect("fresh state");
    assert_eq!(first.merkle_root, second.merkle_root);
    assert_eq!(first.total_usdc, second.total_usdc);
}

#[test]
fn execution_params_bind_into_root() {
    let init = init_batch(9);
    let step = add_order(42, 5, 6, 9, &init.ciphertexts, 10).expect("fresh state");
    let a = execute_batch(42, 2, 10, &step.ciphertexts).expect("fresh state");
    let b = execute_batch(43, 2, 10, &step.ciphertexts).expect("fresh state");
    assert_ne!(a.merkle_root, b.merkle_root);
}
