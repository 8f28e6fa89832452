//! The confidential side of batch settlement.
//!
//! Everything in this module models the logic that runs inside the
//! confidential computation boundary: it maintains a running total, an order
//! count and a commitment root over the submitted orders, and reveals only
//! the final aggregate when a batch is executed.  The actual cipher that
//! protects the state in transit is the computation engine's concern and is
//! out of scope here; [`SealedState`] stands for the ciphertext-plus-nonce
//! pair that the public ledger carries, and its contents are opaque outside
//! this module.
//!
//! The commitment digest and the root folding below mirror a placeholder
//! mixing scheme: they are deterministic but not collision-resistant, and a
//! hardened deployment would substitute a vetted hash while keeping the same
//! shape (order digest → root fold → execution-parameter binding).

use vstd::prelude::*;

verus! {

use vstd::bytes::spec_u128_to_le_bytes;
use vstd::bytes::spec_u64_to_le_bytes;
use vstd::bytes::u128_to_le_bytes;
use vstd::bytes::u64_to_le_bytes;
use vstd::bytes::lemma_auto_spec_u128_to_from_le_bytes;
use vstd::bytes::lemma_auto_spec_u64_to_from_le_bytes;

/// Plaintext batch state as it exists transiently inside the confidential
/// computation: the running total, the number of accepted orders, the two
/// halves of the running commitment root, and the first four per-order
/// digests retained verbatim (later orders are folded only into the root).
#[derive(Clone, Copy, PartialEq, Eq, Structural)]
pub struct BatchState {
    pub total_amount: u64,
    pub order_count: u8,
    pub commitment_root: u128,
    pub commitment_root_hi: u128,
    pub order_hash_1: u128,
    pub order_hash_2: u128,
    pub order_hash_3: u128,
    pub order_hash_4: u128,
}

/// The all-zero state a batch starts from.
pub open spec fn spec_zero_state() -> BatchState {
    BatchState {
        total_amount: 0,
        order_count: 0,
        commitment_root: 0,
        commitment_root_hi: 0,
        order_hash_1: 0,
        order_hash_2: 0,
        order_hash_3: 0,
        order_hash_4: 0,
    }
}

/// A batch state sealed under a nonce: the model of the ciphertext blob and
/// the nonce it was encrypted under.  The fields are private; public code
/// can carry a `SealedState` around but only the operations in this module
/// look inside, just as only the confidential computation can usefully
/// decrypt the real ciphertext.
#[derive(Clone, Copy)]
pub struct SealedState {
    state: BatchState,
    nonce: u128,
}

impl SealedState {
    /// The plaintext this sealed blob decrypts to.
    pub closed spec fn spec_state(self) -> BatchState {
        self.state
    }

    /// The nonce this blob was sealed under.
    pub closed spec fn spec_nonce(self) -> u128 {
        self.nonce
    }

    /// The all-zero placeholder blob a freshly created batch record carries
    /// before the first callback delivers a real sealed state.
    pub fn zeroed(nonce: u128) -> (s: SealedState)
        ensures
            s.spec_state() == spec_zero_state(),
            s.spec_nonce() == nonce,
    {
        SealedState { state: zero_state(), nonce }
    }
}

/// Result of initializing a batch: the sealed zero state and the nonce it
/// was sealed under.
#[derive(Clone, Copy)]
pub struct BatchInitOutput {
    pub ciphertexts: SealedState,
    pub nonce: u128,
}

/// Result of folding one order into the batch: the re-sealed state and the
/// fresh nonce it was sealed under.
#[derive(Clone, Copy)]
pub struct AddOrderOutputData {
    pub ciphertexts: SealedState,
    pub nonce: u128,
}

/// Result of executing a batch: the public merkle root binding every
/// commitment and the execution parameters, and the revealed total.
#[derive(Clone, Copy)]
pub struct ExecuteBatchOutputData {
    pub merkle_root: [u8; 32],
    pub total_usdc: u64,
}

/// Per-order commitment digest: the amount and the two wallet halves mixed
/// with a fixed multiplicative constant.
pub open spec fn spec_compute_order_hash(amount: u64, wallet_lo: u128, wallet_hi: u128) -> u128 {
    let mixed_amount = (amount as u128).wrapping_mul(31);
    let mixed_lo = (mixed_amount ^ wallet_lo).wrapping_mul(31);
    mixed_lo ^ wallet_hi
}

/// Folding a new leaf digest into the running root: XOR into the low half,
/// wrapping addition into the high half.
pub open spec fn spec_update_merkle_root(current_lo: u128, current_hi: u128, new_leaf: u128) -> (
    u128,
    u128,
) {
    (current_lo ^ new_leaf, current_hi.wrapping_add(new_leaf))
}

/// Digest mixing the execution parameters with the revealed total, bound
/// into the final root so a proof must commit to them as well.
pub open spec fn spec_hash_execution_params(total_shares: u64, price: u64, total_usdc: u64) -> u64 {
    total_shares.wrapping_mul(31).wrapping_add(price).wrapping_mul(31).wrapping_add(total_usdc)
}

/// The state after one order is folded in: totals bumped with wrapping
/// arithmetic, the digest folded into the root, and the digest retained
/// verbatim if this is one of the first four orders.
pub open spec fn spec_add_order_state(
    s: BatchState,
    amount: u64,
    wallet_lo: u128,
    wallet_hi: u128,
) -> BatchState {
    let count = s.order_count.wrapping_add(1);
    let digest = spec_compute_order_hash(amount, wallet_lo, wallet_hi);
    let roots = spec_update_merkle_root(s.commitment_root, s.commitment_root_hi, digest);
    BatchState {
        total_amount: s.total_amount.wrapping_add(amount),
        order_count: count,
        commitment_root: roots.0,
        commitment_root_hi: roots.1,
        order_hash_1: if count == 1 { digest } else { s.order_hash_1 },
        order_hash_2: if count == 2 { digest } else { s.order_hash_2 },
        order_hash_3: if count == 3 { digest } else { s.order_hash_3 },
        order_hash_4: if count == 4 { digest } else { s.order_hash_4 },
    }
}

/// The 32-byte public root an executed batch reveals: the two root halves in
/// little-endian order, with the first eight bytes XORed against the digest
/// of the execution parameters.
pub open spec fn spec_final_merkle_root(s: BatchState, total_shares: u64, execution_price: u64) -> Seq<
    u8,
> {
    let lo = spec_u128_to_le_bytes(s.commitment_root);
    let hi = spec_u128_to_le_bytes(s.commitment_root_hi);
    let exec_hash = spec_u64_to_le_bytes(
        spec_hash_execution_params(total_shares, execution_price, s.total_amount),
    );
    Seq::new(
        32,
        |i: int|
            if i < 8 {
                lo[i] ^ exec_hash[i]
            } else if i < 16 {
                lo[i]
            } else {
                hi[i - 16]
            },
    )
}

/// Exec twin of [`spec_zero_state`].
pub fn zero_state() -> (s: BatchState)
    ensures
        s == spec_zero_state(),
{
    BatchState {
        total_amount: 0,
        order_count: 0,
        commitment_root: 0,
        commitment_root_hi: 0,
        order_hash_1: 0,
        order_hash_2: 0,
        order_hash_3: 0,
        order_hash_4: 0,
    }
}

/// Per-order commitment digest over the amount and the wallet halves.
pub fn compute_order_hash(amount: u64, wallet_lo: u128, wallet_hi: u128) -> (r: u128)
    ensures
        r == spec_compute_order_hash(amount, wallet_lo, wallet_hi),
{
    let mut hash: u128 = 0;
    hash = hash.wrapping_add(amount as u128);
    hash = hash.wrapping_mul(31);
    hash = hash ^ wallet_lo;
    hash = hash.wrapping_mul(31);
    hash = hash ^ wallet_hi;
    hash
}

/// Folds a new leaf digest into the running commitment root.
pub fn update_merkle_root(current_lo: u128, current_hi: u128, new_leaf: u128) -> (r: (u128, u128))
    ensures
        r == spec_update_merkle_root(current_lo, current_hi, new_leaf),
{
    let new_lo = current_lo ^ new_leaf;
    let new_hi = current_hi.wrapping_add(new_leaf);
    (new_lo, new_hi)
}

/// Digest of the execution parameters and the revealed total.
pub fn hash_execution_params(total_shares: u64, price: u64, total_usdc: u64) -> (r: u64)
    ensures
        r == spec_hash_execution_params(total_shares, price, total_usdc),
{
    let mut hash: u64 = 0;
    hash = hash.wrapping_add(total_shares);
    hash = hash.wrapping_mul(31);
    hash = hash.wrapping_add(price);
    hash = hash.wrapping_mul(31);
    hash = hash.wrapping_add(total_usdc);
    hash
}

/// Initializes a fresh batch: the zero state sealed under the caller's
/// nonce.
pub fn init_batch(nonce_input: u128) -> (out: BatchInitOutput)
    ensures
        out.ciphertexts.spec_state() == spec_zero_state(),
        out.ciphertexts.spec_nonce() == nonce_input,
        out.nonce == nonce_input,
{
    let initial_state = zero_state();
    BatchInitOutput {
        ciphertexts: SealedState { state: initial_state, nonce: nonce_input },
        nonce: nonce_input,
    }
}

/// Folds one order into a sealed batch state.
///
/// The caller supplies the nonce it believes the state is sealed under; a
/// mismatch means the request was built against a stale state (for example
/// when two submissions raced) and the computation fails detectably with
/// `None` instead of corrupting the state.  On success the new state is
/// re-sealed under `fresh_nonce`, which must differ from the previous nonce:
/// re-using a nonce under the same key would leak the XOR of plaintexts.
pub fn add_order(
    user_amount: u64,
    user_wallet_lo: u128,
    user_wallet_hi: u128,
    state_nonce: u128,
    current_state: &SealedState,
    fresh_nonce: u128,
) -> (r: Option<AddOrderOutputData>)
    requires
        fresh_nonce != current_state.spec_nonce(),
    ensures
        r is Some <==> state_nonce == current_state.spec_nonce(),
        r matches Some(out) ==> {
            &&& out.ciphertexts.spec_state() == spec_add_order_state(
                current_state.spec_state(),
                user_amount,
                user_wallet_lo,
                user_wallet_hi,
            )
            &&& out.ciphertexts.spec_nonce() == fresh_nonce
            &&& out.nonce == fresh_nonce
        },
{
    if state_nonce != current_state.nonce {
        return None;
    }
    let mut state = current_state.state;

    state.total_amount = state.total_amount.wrapping_add(user_amount);
    state.order_count = state.order_count.wrapping_add(1);

    let order_hash = compute_order_hash(user_amount, user_wallet_lo, user_wallet_hi);

    let roots = update_merkle_root(state.commitment_root, state.commitment_root_hi, order_hash);
    state.commitment_root = roots.0;
    state.commitment_root_hi = roots.1;

    if state.order_count == 1 {
        state.order_hash_1 = order_hash;
    } else if state.order_count == 2 {
        state.order_hash_2 = order_hash;
    } else if state.order_count == 3 {
        state.order_hash_3 = order_hash;
    } else if state.order_count == 4 {
        state.order_hash_4 = order_hash;
    }

    Some(
        AddOrderOutputData {
            ciphertexts: SealedState { state, nonce: fresh_nonce },
            nonce: fresh_nonce,
        },
    )
}

/// Executes a sealed batch: builds the public root from the two root halves
/// and the execution parameters, and reveals the aggregate total.  As with
/// [`add_order`], a stale nonce fails detectably with `None`.
pub fn execute_batch(
    total_shares: u64,
    execution_price: u64,
    state_nonce: u128,
    current_state: &SealedState,
) -> (r: Option<ExecuteBatchOutputData>)
    ensures
        r is Some <==> state_nonce == current_state.spec_nonce(),
        r matches Some(out) ==> {
            &&& out.merkle_root@ == spec_final_merkle_root(
                current_state.spec_state(),
                total_shares,
                execution_price,
            )
            &&& out.total_usdc == current_state.spec_state().total_amount
        },
{
    if state_nonce != current_state.nonce {
        return None;
    }
    let state = current_state.state;

    proof {
        lemma_auto_spec_u128_to_from_le_bytes();
        lemma_auto_spec_u64_to_from_le_bytes();
    }

    let mut final_root = [0u8; 32];

    let root_lo_bytes = u128_to_le_bytes(state.commitment_root);
    let root_hi_bytes = u128_to_le_bytes(state.commitment_root_hi);

    for i in 0..16usize
        invariant
            root_lo_bytes@ == spec_u128_to_le_bytes(state.commitment_root),
            root_hi_bytes@ == spec_u128_to_le_bytes(state.commitment_root_hi),
            root_lo_bytes@.len() == 16,
            root_hi_bytes@.len() == 16,
            final_root@.len() == 32,
            forall|j: int| 0 <= j < i ==> final_root@[j] == root_lo_bytes@[j],
            forall|j: int| 0 <= j < i ==> final_root@[j + 16] == root_hi_bytes@[j],
    {
        final_root[i] = root_lo_bytes[i];
        final_root[i + 16] = root_hi_bytes[i];
    }

    let exec_hash = hash_execution_params(total_shares, execution_price, state.total_amount);
    let exec_hash_bytes = u64_to_le_bytes(exec_hash);

    let ghost root_before_binding = final_root@;

    for i in 0..8usize
        invariant
            exec_hash_bytes@ == spec_u64_to_le_bytes(
                spec_hash_execution_params(total_shares, execution_price, state.total_amount),
            ),
            exec_hash_bytes@.len() == 8,
            final_root@.len() == 32,
            forall|j: int| 0 <= j < i ==> final_root@[j] == (root_before_binding[j] ^ exec_hash_bytes@[j]),
            forall|j: int| i <= j < 32 ==> final_root@[j] == root_before_binding[j],
    {
        final_root[i] = final_root[i] ^ exec_hash_bytes[i];
    }

    proof {
        assert(final_root@ =~= spec_final_merkle_root(state, total_shares, execution_price));
    }

    Some(ExecuteBatchOutputData { merkle_root: final_root, total_usdc: state.total_amount })
}

/// The revealed root and total are deterministic functions of the final
/// batch state and the supplied execution parameters: two executions over
/// identical sealed states and identical parameters reveal identical
/// outputs.
pub proof fn lemma_execute_deterministic(
    a: SealedState,
    b: SealedState,
    total_shares: u64,
    execution_price: u64,
)
    requires
        a.spec_state() == b.spec_state(),
    ensures
        spec_final_merkle_root(a.spec_state(), total_shares, execution_price)
            == spec_final_merkle_root(b.spec_state(), total_shares, execution_price),
        a.spec_state().total_amount == b.spec_state().total_amount,
{
}

} // verus!
