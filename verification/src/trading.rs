//! The public batch lifecycle and the request/callback coordinator.
//!
//! A [`TradingProgram`] models the on-ledger side of batch settlement as an
//! explicit keyed store: a ledger of batches, a ledger of order commitments,
//! a correlation table of in-flight confidential computations, and an
//! append-only event log.  Batches move one way through
//! `Open → Closed → Executed → Verified`.  Everything a confidential
//! computation must eventually mutate is reserved when the request is
//! submitted; the matching callback is applied at most once, and only after
//! its signature has been checked against the cluster's registered signing
//! key.

use vstd::prelude::*;

verus! {

use crate::aggregator::AddOrderOutputData;
use crate::aggregator::BatchInitOutput;
use crate::aggregator::ExecuteBatchOutputData;
use crate::aggregator::SealedState;
use crate::aggregator::spec_zero_state;

/// Identity of an authenticated caller or account, decoupled from any
/// particular ledger's addressing scheme.
pub type AccountId = u64;

/// Which side of the market a batch aggregates.
#[derive(Clone, Copy, Debug, PartialEq, Eq, Structural)]
pub enum Side {
    Yes,
    No,
}

/// Lifecycle state of a batch; every transition is one-way.
#[derive(Clone, Copy, Debug, PartialEq, Eq, Structural)]
pub enum BatchStatus {
    Open,
    Closed,
    Executed,
    Verified,
}

/// Failures surfaced by the batch lifecycle and the coordinator.
#[derive(Clone, Copy, Debug, PartialEq, Eq, Structural)]
pub enum ErrorCode {
    /// A callback's signature did not verify against the cluster key.
    AbortedComputation,
    /// The batch is not in the `Open` state.
    BatchNotOpen,
    /// The batch is not in the `Closed` state.
    BatchNotClosed,
    /// The batch is not in the `Executed` state.
    BatchNotExecuted,
    /// The batch already holds the maximum number of orders.
    BatchFull,
    /// The batch holds no orders.
    EmptyBatch,
    /// The caller is not the batch's authority.
    Unauthorized,
    /// A proof was rejected (too few public inputs).
    InvalidProof,
    /// A proof blob was structurally too small.
    InvalidProofData,
    /// A proof's claimed root does not match the batch's stored root.
    MerkleRootMismatch,
    /// A record with the same key already exists in the store.
    RecordExists,
    /// No record with the given key exists in the store.
    RecordMissing,
}

/// Hard cap on the number of orders one batch may aggregate.
pub const MAX_BATCH_ORDERS: u8 = 32;

/// Minimum number of public inputs an allocation proof must carry.
pub const MIN_PUBLIC_INPUTS: usize = 4;

/// Minimum length of an allocation proof blob, in bytes.
pub const MIN_PROOF_DATA_LEN: usize = 64;

/// A public batch record: identity, lifecycle state, the order counter, and
/// the sealed confidential state together with the nonce it was sealed
/// under.  `total_usdc` and `merkle_root` are populated only by the
/// execution callback.
pub struct TradingBatch {
    pub authority: AccountId,
    pub market_id: String,
    pub side: Side,
    pub status: BatchStatus,
    pub order_count: u8,
    pub total_usdc: u64,
    pub state_nonce: u128,
    pub encrypted_state: SealedState,
    pub merkle_root: [u8; 32],
}

/// A public commitment to one submitted order, created when the order is
/// submitted — before the confidential computation runs — so its index is
/// reserved even while the ciphertext update is still in flight.
#[derive(Clone, Copy)]
pub struct OrderCommitment {
    pub batch: usize,
    pub user: AccountId,
    pub commitment_hash: [u8; 32],
    pub index: u8,
    pub allocated: bool,
}

/// What a pending confidential computation will do when its callback lands,
/// together with the arguments packaged at submission time.
#[derive(Clone, Copy)]
pub enum ComputationKind {
    /// Initialize the sealed state under the given nonce.
    InitBatch { nonce: u128 },
    /// Fold one order into the sealed state.  `state_nonce` is the nonce the
    /// batch state carried when the request was built; the confidential
    /// computation fails detectably if the state has moved on since.
    AddOrder {
        order: usize,
        encrypted_amount: [u8; 32],
        encrypted_wallet_lo: [u8; 32],
        encrypted_wallet_hi: [u8; 32],
        user_pubkey: [u8; 32],
        user_nonce: u128,
        state_nonce: u128,
    },
    /// Reveal the final root and total.
    ExecuteBatch { total_shares: u64, execution_price: u64, state_nonce: u128 },
}

impl ComputationKind {
    /// The order record an `AddOrder` computation will complete.
    pub open spec fn spec_order(self) -> usize {
        match self {
            ComputationKind::AddOrder { order, .. } => order,
            _ => 0,
        }
    }
}

/// One row of the correlation table: the caller-chosen offset, the batch the
/// callback must mutate, what it will do, and whether the callback has
/// already been consumed.  Offsets are single-use and never reused.
#[derive(Clone, Copy)]
pub struct PendingComputation {
    pub offset: u64,
    pub batch: usize,
    pub kind: ComputationKind,
    pub consumed: bool,
}

/// An authenticated computation result: the identity that signed it and the
/// decoded payload.  The payload may be trusted only after the signer has
/// been checked against the cluster's registered key.
#[derive(Clone, Copy)]
pub struct SignedOutput<T> {
    pub signer: AccountId,
    pub payload: T,
}

/// Event: a batch record was created and its sealed state initialized.
pub struct BatchCreated {
    pub batch: usize,
    pub market_id: String,
    pub side: Side,
    pub authority: AccountId,
}

/// Event: an order's ciphertext update was applied.
pub struct OrderAdded {
    pub batch: usize,
    pub order: usize,
    pub order_index: u8,
    pub commitment_hash: [u8; 32],
}

/// Event: a batch stopped accepting orders.
pub struct BatchClosed {
    pub batch: usize,
    pub order_count: u8,
}

/// Event: a batch's root and total were revealed.
pub struct BatchExecuted {
    pub batch: usize,
    pub merkle_root: [u8; 32],
    pub total_usdc: u64,
    pub order_count: u8,
}

/// Event: an allocation proof was accepted against a batch's root.
pub struct AllocationVerified {
    pub batch: usize,
    pub merkle_root: [u8; 32],
}

/// The append-only notification stream the program emits for observers.
pub enum TradingEvent {
    Created(BatchCreated),
    Added(OrderAdded),
    Closed(BatchClosed),
    Executed(BatchExecuted),
    Verified(AllocationVerified),
}

/// Mathematical view of a [`TradingProgram`].
pub ghost struct TradingModel {
    pub cluster_key: AccountId,
    pub batches: Seq<TradingBatch>,
    pub orders: Seq<OrderCommitment>,
    pub pending: Seq<PendingComputation>,
    pub events: Seq<TradingEvent>,
}

impl TradingModel {
    /// No batch is stored under the key `(market_id, authority)`.
    pub open spec fn batch_key_free(self, market_id: Seq<char>, authority: AccountId) -> bool {
        forall|i: int|
            0 <= i < self.batches.len() ==> !((#[trigger] self.batches[i]).market_id@ == market_id
                && self.batches[i].authority == authority)
    }

    /// No correlation-table row uses the offset (consumed rows keep theirs:
    /// offsets are never reused).
    pub open spec fn offset_free(self, offset: u64) -> bool {
        forall|i: int|
            0 <= i < self.pending.len() ==> (#[trigger] self.pending[i]).offset != offset
    }

    /// No order commitment is stored under the key `(batch, index)`.
    pub open spec fn order_key_free(self, batch: usize, index: u8) -> bool {
        forall|k: int|
            0 <= k < self.orders.len() ==> !((#[trigger] self.orders[k]).batch == batch
                && self.orders[k].index == index)
    }

    /// Some unconsumed order computation is in flight against the batch.
    pub open spec fn has_live_add(self, batch: usize) -> bool {
        exists|i: int|
            0 <= i < self.pending.len() && (#[trigger] self.pending[i]).batch == batch
                && !self.pending[i].consumed && self.pending[i].kind is AddOrder
    }

    /// Well-formedness of the store: every reference lands in the store,
    /// offsets are unique, order indices are unique per batch and stay below
    /// the order counter except for the single reserved index of an
    /// in-flight order computation.
    pub open spec fn wf(self) -> bool {
        &&& forall|k: int|
            0 <= k < self.orders.len() ==> (#[trigger] self.orders[k]).batch < self.batches.len()
        &&& forall|i: int|
            0 <= i < self.pending.len() ==> (#[trigger] self.pending[i]).batch
                < self.batches.len()
        &&& forall|i: int, j: int|
            0 <= i < j < self.pending.len() ==> (#[trigger] self.pending[i]).offset != (
            #[trigger] self.pending[j]).offset
        &&& forall|i: int|
            0 <= i < self.pending.len() && (#[trigger] self.pending[i]).kind is AddOrder ==> {
                let ord = self.pending[i].kind.spec_order() as int;
                &&& ord < self.orders.len()
                &&& self.orders[ord].batch == self.pending[i].batch
                &&& (!self.pending[i].consumed ==> self.orders[ord].index == self.batches[self.pending[i].batch as int].order_count)
            }
        &&& forall|i: int, j: int|
            0 <= i < j < self.pending.len() && (#[trigger] self.pending[i]).kind is AddOrder && (
            #[trigger] self.pending[j]).kind is AddOrder ==> self.pending[i].kind.spec_order()
                != self.pending[j].kind.spec_order()
        &&& forall|i: int|
            0 <= i < self.pending.len() && (#[trigger] self.pending[i]).kind is AddOrder
                && !self.pending[i].consumed ==> self.batches[self.pending[i].batch as int].order_count
                < MAX_BATCH_ORDERS
        &&& forall|k1: int, k2: int|
            0 <= k1 < k2 < self.orders.len() && (#[trigger] self.orders[k1]).batch == (
            #[trigger] self.orders[k2]).batch ==> self.orders[k1].index != self.orders[k2].index
        &&& forall|k: int|
            0 <= k < self.orders.len() ==> (#[trigger] self.orders[k]).index
                <= self.batches[self.orders[k].batch as int].order_count
        &&& forall|k: int|
            0 <= k < self.orders.len() && (#[trigger] self.orders[k]).index
                == self.batches[self.orders[k].batch as int].order_count ==> self.has_live_add(
                self.orders[k].batch,
            )
        &&& forall|b: int|
            0 <= b < self.batches.len() ==> (#[trigger] self.batches[b]).order_count
                <= MAX_BATCH_ORDERS
    }
}

/// A batch record as `create_batch` stores it: open, counters zeroed, the
/// placeholder sealed state under the caller's nonce.
pub open spec fn spec_created_batch(
    b: TradingBatch,
    authority: AccountId,
    market_id: Seq<char>,
    side: Side,
    nonce: u128,
) -> bool {
    &&& b.authority == authority
    &&& b.market_id@ == market_id
    &&& b.side == side
    &&& b.status == BatchStatus::Open
    &&& b.order_count == 0
    &&& b.total_usdc == 0
    &&& b.state_nonce == nonce
    &&& b.encrypted_state.spec_state() == spec_zero_state()
    &&& b.encrypted_state.spec_nonce() == nonce
    &&& forall|i: int| 0 <= i < 32 ==> b.merkle_root@[i] == 0u8
}

/// Outcome of the checks `add_order` runs, in order, before it reserves an
/// order commitment and submits the computation: the batch must exist and
/// be open with room left, the commitment's key must be free, and the
/// correlation offset must be fresh.
pub open spec fn spec_add_order_check(m: TradingModel, batch: usize, offset: u64) -> Option<
    ErrorCode,
> {
    if batch >= m.batches.len() {
        Some(ErrorCode::RecordMissing)
    } else if m.batches[batch as int].status != BatchStatus::Open {
        Some(ErrorCode::BatchNotOpen)
    } else if m.batches[batch as int].order_count >= MAX_BATCH_ORDERS {
        Some(ErrorCode::BatchFull)
    } else if !m.order_key_free(batch, m.batches[batch as int].order_count) {
        Some(ErrorCode::RecordExists)
    } else if !m.offset_free(offset) {
        Some(ErrorCode::RecordExists)
    } else {
        None
    }
}

/// Outcome of the checks `close_batch` runs: the batch must exist, the
/// caller must be its authority, it must be open, and it must not be empty.
pub open spec fn spec_close_batch_check(m: TradingModel, batch: usize, authority: AccountId) -> Option<
    ErrorCode,
> {
    if batch >= m.batches.len() {
        Some(ErrorCode::RecordMissing)
    } else if m.batches[batch as int].authority != authority {
        Some(ErrorCode::Unauthorized)
    } else if m.batches[batch as int].status != BatchStatus::Open {
        Some(ErrorCode::BatchNotOpen)
    } else if m.batches[batch as int].order_count == 0 {
        Some(ErrorCode::EmptyBatch)
    } else {
        None
    }
}

/// Outcome of the checks `execute_batch` runs: the batch must exist, the
/// caller must be its authority, it must be closed, and the correlation
/// offset must be fresh.
pub open spec fn spec_execute_batch_check(
    m: TradingModel,
    batch: usize,
    authority: AccountId,
    offset: u64,
) -> Option<ErrorCode> {
    if batch >= m.batches.len() {
        Some(ErrorCode::RecordMissing)
    } else if m.batches[batch as int].authority != authority {
        Some(ErrorCode::Unauthorized)
    } else if m.batches[batch as int].status != BatchStatus::Closed {
        Some(ErrorCode::BatchNotClosed)
    } else if !m.offset_free(offset) {
        Some(ErrorCode::RecordExists)
    } else {
        None
    }
}

/// Outcome of the checks `verify_allocation` runs, in order: the batch must
/// exist, the caller must be its authority, the batch must be executed, the
/// proof must carry enough public inputs, the claimed root (public input 1)
/// must equal the stored root, and the proof blob must meet the structural
/// minimum.
pub open spec fn spec_verify_allocation_check(
    m: TradingModel,
    batch: usize,
    authority: AccountId,
    proof_data: Seq<u8>,
    public_inputs: Seq<[u8; 32]>,
) -> Option<ErrorCode> {
    if batch >= m.batches.len() {
        Some(ErrorCode::RecordMissing)
    } else if m.batches[batch as int].authority != authority {
        Some(ErrorCode::Unauthorized)
    } else if m.batches[batch as int].status != BatchStatus::Executed {
        Some(ErrorCode::BatchNotExecuted)
    } else if public_inputs.len() < MIN_PUBLIC_INPUTS {
        Some(ErrorCode::InvalidProof)
    } else if public_inputs[1]@ != m.batches[batch as int].merkle_root@ {
        Some(ErrorCode::MerkleRootMismatch)
    } else if proof_data.len() < MIN_PROOF_DATA_LEN {
        Some(ErrorCode::InvalidProofData)
    } else {
        None
    }
}

/// What a callback to an initialization request does, given the
/// correlation-table row `i` it was routed to: a consumed or mismatched row
/// is rejected, a bad signature aborts with no mutation at all, and a good
/// one writes the sealed state and its nonce — together, atomically, and to
/// the batch named at submission time only — then retires the row and
/// emits the creation event.
pub open spec fn spec_init_callback_outcome(
    m: TradingModel,
    fm: TradingModel,
    i: int,
    output: SignedOutput<BatchInitOutput>,
    r: Result<(), ErrorCode>,
) -> bool {
    let row = m.pending[i];
    let b = row.batch as int;
    if row.consumed || !(row.kind is InitBatch) {
        r == Result::<(), ErrorCode>::Err(ErrorCode::RecordMissing) && fm == m
    } else if output.signer != m.cluster_key {
        r == Result::<(), ErrorCode>::Err(ErrorCode::AbortedComputation) && fm == m
    } else {
        &&& r is Ok
        &&& fm.batches == m.batches.update(
            b,
            (TradingBatch {
                encrypted_state: output.payload.ciphertexts,
                state_nonce: output.payload.nonce,
                ..m.batches[b]
            }),
        )
        &&& fm.orders == m.orders
        &&& fm.pending == m.pending.update(i, (PendingComputation { consumed: true, ..row }))
        &&& fm.events.len() == m.events.len() + 1
        &&& forall|j: int| 0 <= j < m.events.len() ==> fm.events[j] == m.events[j]
        &&& (fm.events.last() matches TradingEvent::Created(e) && e.batch == row.batch
            && e.market_id@ == m.batches[b].market_id@ && e.side == m.batches[b].side
            && e.authority == m.batches[b].authority)
        &&& fm.cluster_key == m.cluster_key
    }
}

/// What a callback to an order request does, given its row `i`: a good
/// signature applies the re-sealed state and nonce atomically, increments
/// the batch's order counter, retires the row and emits the order event; a
/// bad signature aborts with no mutation.
pub open spec fn spec_add_order_callback_outcome(
    m: TradingModel,
    fm: TradingModel,
    i: int,
    output: SignedOutput<AddOrderOutputData>,
    r: Result<(), ErrorCode>,
) -> bool {
    let row = m.pending[i];
    let b = row.batch as int;
    let oi = row.kind.spec_order() as int;
    if row.consumed || !(row.kind is AddOrder) {
        r == Result::<(), ErrorCode>::Err(ErrorCode::RecordMissing) && fm == m
    } else if output.signer != m.cluster_key {
        r == Result::<(), ErrorCode>::Err(ErrorCode::AbortedComputation) && fm == m
    } else {
        &&& r is Ok
        &&& fm.batches == m.batches.update(
            b,
            (TradingBatch {
                encrypted_state: output.payload.ciphertexts,
                state_nonce: output.payload.nonce,
                order_count: (m.batches[b].order_count + 1) as u8,
                ..m.batches[b]
            }),
        )
        &&& fm.orders == m.orders
        &&& fm.pending == m.pending.update(i, (PendingComputation { consumed: true, ..row }))
        &&& fm.events.len() == m.events.len() + 1
        &&& forall|j: int| 0 <= j < m.events.len() ==> fm.events[j] == m.events[j]
        &&& (fm.events.last() matches TradingEvent::Added(e) && e.batch == row.batch && e.order
            == row.kind.spec_order() && e.order_index == m.batches[b].order_count
            && e.commitment_hash == m.orders[oi].commitment_hash)
        &&& fm.cluster_key == m.cluster_key
    }
}

/// What a callback to an execution request does, given its row `i`: a good
/// signature writes the revealed root and total, flips the batch to
/// `Executed`, retires the row and emits the execution event; a bad
/// signature aborts with no mutation.
pub open spec fn spec_execute_callback_outcome(
    m: TradingModel,
    fm: TradingModel,
    i: int,
    output: SignedOutput<ExecuteBatchOutputData>,
    r: Result<(), ErrorCode>,
) -> bool {
    let row = m.pending[i];
    let b = row.batch as int;
    if row.consumed || !(row.kind is ExecuteBatch) {
        r == Result::<(), ErrorCode>::Err(ErrorCode::RecordMissing) && fm == m
    } else if output.signer != m.cluster_key {
        r == Result::<(), ErrorCode>::Err(ErrorCode::AbortedComputation) && fm == m
    } else {
        &&& r is Ok
        &&& fm.batches == m.batches.update(
            b,
            (TradingBatch {
                merkle_root: output.payload.merkle_root,
                total_usdc: output.payload.total_usdc,
                status: BatchStatus::Executed,
                ..m.batches[b]
            }),
        )
        &&& fm.orders == m.orders
        &&& fm.pending == m.pending.update(i, (PendingComputation { consumed: true, ..row }))
        &&& fm.events.len() == m.events.len() + 1
        &&& forall|j: int| 0 <= j < m.events.len() ==> fm.events[j] == m.events[j]
        &&& (fm.events.last() matches TradingEvent::Executed(e) && e.batch == row.batch
            && e.merkle_root == output.payload.merkle_root && e.total_usdc
            == output.payload.total_usdc && e.order_count == m.batches[b].order_count)
        &&& fm.cluster_key == m.cluster_key
    }
}

/// Byte-for-byte equality of two 32-byte values.
pub fn bytes32_eq(a: &[u8; 32], b: &[u8; 32]) -> (r: bool)
    ensures
        r <==> a@ == b@,
{
    for i in 0..32usize
        invariant
            forall|j: int| 0 <= j < i ==> a@[j] == b@[j],
    {
        if a[i] != b[i] {
            return false;
        }
    }
    proof {
        assert(a@ =~= b@);
    }
    true
}

/// The public side of batch settlement: the keyed store of batches and
/// order commitments, the correlation table, and the event log, together
/// with the cluster's registered signing key.
pub struct TradingProgram {
    cluster_key: AccountId,
    batches: Vec<TradingBatch>,
    orders: Vec<OrderCommitment>,
    pending: Vec<PendingComputation>,
    events: Vec<TradingEvent>,
}

impl View for TradingProgram {
    type V = TradingModel;

    closed spec fn view(&self) -> TradingModel {
        TradingModel {
            cluster_key: self.cluster_key,
            batches: self.batches@,
            orders: self.orders@,
            pending: self.pending@,
            events: self.events@,
        }
    }
}

impl TradingProgram {
    /// An empty store, trusting callbacks signed by `cluster_key`.
    pub fn new(cluster_key: AccountId) -> (s: Self)
        ensures
            s@ == (TradingModel {
                cluster_key,
                batches: Seq::empty(),
                orders: Seq::empty(),
                pending: Seq::empty(),
                events: Seq::empty(),
            }),
            s@.wf(),
    {
        TradingProgram {
            cluster_key,
            batches: Vec::new(),
            orders: Vec::new(),
            pending: Vec::new(),
            events: Vec::new(),
        }
    }

    /// Whether a batch is already stored under `(market_id, authority)`.
    fn batch_key_taken(&self, market_id: &String, authority: AccountId) -> (r: bool)
        ensures
            r == !self@.batch_key_free(market_id@, authority),
    {
        let n = self.batches.len();
        for i in 0..n
            invariant
                n == self.batches.len(),
                forall|j: int|
                    0 <= j < i ==> !((#[trigger] self@.batches[j]).market_id@ == market_id@
                        && self@.batches[j].authority == authority),
        {
            if self.batches[i].market_id == *market_id && self.batches[i].authority == authority {
                return true;
            }
        }
        false
    }

    /// Whether some correlation-table row already uses `offset`.
    fn offset_taken(&self, offset: u64) -> (r: bool)
        ensures
            r == !self@.offset_free(offset),
    {
        let n = self.pending.len();
        for i in 0..n
            invariant
                n == self.pending.len(),
                forall|j: int| 0 <= j < i ==> (#[trigger] self@.pending[j]).offset != offset,
        {
            if self.pending[i].offset == offset {
                return true;
            }
        }
        false
    }

    /// Whether an order commitment is already stored under `(batch, index)`.
    fn order_key_taken(&self, batch: usize, index: u8) -> (r: bool)
        ensures
            r == !self@.order_key_free(batch, index),
    {
        let n = self.orders.len();
        for k in 0..n
            invariant
                n == self.orders.len(),
                forall|j: int|
                    0 <= j < k ==> !((#[trigger] self@.orders[j]).batch == batch
                        && self@.orders[j].index == index),
        {
            if self.orders[k].batch == batch && self.orders[k].index == index {
                proof {
                    assert(self@.orders[k as int].batch == batch && self@.orders[k as int].index
                        == index);
                }
                return true;
            }
        }
        false
    }

    /// Creates a batch under the key `(market_id, authority)` and submits
    /// the confidential initialization of its sealed state.  Fails with
    /// [`ErrorCode::RecordExists`] if the key or the correlation offset is
    /// already taken; on success returns the new batch's store address.
    pub fn create_batch(
        &mut self,
        authority: AccountId,
        computation_offset: u64,
        market_id: String,
        side: Side,
        nonce: u128,
    ) -> (r: Result<usize, ErrorCode>)
        requires
            old(self)@.wf(),
        ensures
            final(self)@.wf(),
            r is Ok <==> (old(self)@.batch_key_free(market_id@, authority) && old(
                self,
            )@.offset_free(computation_offset)),
            r is Err ==> final(self)@ == old(self)@ && (r matches Err(e) && e
                == ErrorCode::RecordExists),
            r matches Ok(bi) ==> {
                let m = old(self)@;
                let fm = final(self)@;
                &&& bi == m.batches.len()
                &&& fm.batches.len() == m.batches.len() + 1
                &&& forall|j: int| 0 <= j < m.batches.len() ==> fm.batches[j] == m.batches[j]
                &&& spec_created_batch(fm.batches[bi as int], authority, market_id@, side, nonce)
                &&& fm.orders == m.orders
                &&& fm.pending == m.pending.push(
                    (PendingComputation {
                        offset: computation_offset,
                        batch: bi,
                        kind: (ComputationKind::InitBatch { nonce }),
                        consumed: false,
                    }),
                )
                &&& fm.events == m.events
                &&& fm.cluster_key == m.cluster_key
            },
    {
        if self.batch_key_taken(&market_id, authority) {
            return Err(ErrorCode::RecordExists);
        }
        if self.offset_taken(computation_offset) {
            return Err(ErrorCode::RecordExists);
        }

        let bi = self.batches.len();
        let batch = TradingBatch {
            authority,
            market_id,
            side,
            status: BatchStatus::Open,
            order_count: 0,
            total_usdc: 0,
            state_nonce: nonce,
            encrypted_state: SealedState::zeroed(nonce),
            merkle_root: [0u8; 32],
        };
        self.batches.push(batch);

        self.pending.push(
            PendingComputation {
                offset: computation_offset,
                batch: bi,
                kind: ComputationKind::InitBatch { nonce },
                consumed: false,
            },
        );

        proof {
            let m = old(self)@;
            let fm = self@;
            assert(forall|j: int| 0 <= j < m.batches.len() ==> fm.batches[j] == m.batches[j]);
            assert(forall|j: int| 0 <= j < m.pending.len() ==> fm.pending[j] == m.pending[j]);
            assert forall|b: usize| m.has_live_add(b) implies fm.has_live_add(b) by {
                let i = choose|i: int|
                    0 <= i < m.pending.len() && m.pending[i].batch == b && !m.pending[i].consumed
                        && m.pending[i].kind is AddOrder;
                assert(fm.pending[i].batch == b && !fm.pending[i].consumed && fm.pending[i].kind
                    is AddOrder);
            }
        }

        Ok(bi)
    }

    /// First correlation-table row using `offset`, if any (by
    /// well-formedness there is at most one).
    fn find_pending_index(&self, offset: u64) -> (r: Option<usize>)
        ensures
            r is None <==> self@.offset_free(offset),
            r matches Some(i) ==> i < self@.pending.len() && self@.pending[i as int].offset
                == offset,
    {
        let n = self.pending.len();
        for i in 0..n
            invariant
                n == self.pending.len(),
                forall|j: int| 0 <= j < i ==> (#[trigger] self@.pending[j]).offset != offset,
        {
            if self.pending[i].offset == offset {
                return Some(i);
            }
        }
        None
    }

    /// Submits one order against an open batch: reserves the order
    /// commitment under the next free index — before the confidential
    /// computation is even dispatched — and files the computation in the
    /// correlation table.  The batch record itself is untouched until the
    /// callback lands.  Fails exactly as [`spec_add_order_check`] says; in
    /// particular a batch already holding [`MAX_BATCH_ORDERS`] orders is
    /// refused with [`ErrorCode::BatchFull`], whatever computations are in
    /// flight.  On success returns the new commitment's store address.
    pub fn add_order(
        &mut self,
        user: AccountId,
        batch: usize,
        computation_offset: u64,
        encrypted_amount: [u8; 32],
        encrypted_wallet_lo: [u8; 32],
        encrypted_wallet_hi: [u8; 32],
        user_pubkey: [u8; 32],
        nonce: u128,
        commitment_hash: [u8; 32],
    ) -> (r: Result<usize, ErrorCode>)
        requires
            old(self)@.wf(),
        ensures
            final(self)@.wf(),
            r is Err <==> spec_add_order_check(old(self)@, batch, computation_offset) is Some,
            r matches Err(e) ==> Some(e) == spec_add_order_check(
                old(self)@,
                batch,
                computation_offset,
            ) && final(self)@ == old(self)@,
            r matches Ok(oi) ==> {
                let m = old(self)@;
                let fm = final(self)@;
                &&& oi == m.orders.len()
                &&& fm.batches == m.batches
                &&& fm.orders == m.orders.push(
                    (OrderCommitment {
                        batch,
                        user,
                        commitment_hash,
                        index: m.batches[batch as int].order_count,
                        allocated: false,
                    }),
                )
                &&& fm.pending == m.pending.push(
                    (PendingComputation {
                        offset: computation_offset,
                        batch,
                        kind: (ComputationKind::AddOrder {
                            order: oi,
                            encrypted_amount,
                            encrypted_wallet_lo,
                            encrypted_wallet_hi,
                            user_pubkey,
                            user_nonce: nonce,
                            state_nonce: m.batches[batch as int].state_nonce,
                        }),
                        consumed: false,
                    }),
                )
                &&& fm.events == m.events
                &&& fm.cluster_key == m.cluster_key
            },
    {
        if batch >= self.batches.len() {
            return Err(ErrorCode::RecordMissing);
        }
        if self.batches[batch].status != BatchStatus::Open {
            return Err(ErrorCode::BatchNotOpen);
        }
        let index = self.batches[batch].order_count;
        if index >= MAX_BATCH_ORDERS {
            return Err(ErrorCode::BatchFull);
        }
        if self.order_key_taken(batch, index) {
            return Err(ErrorCode::RecordExists);
        }
        if self.offset_taken(computation_offset) {
            return Err(ErrorCode::RecordExists);
        }

        let oi = self.orders.len();
        self.orders.push(
            OrderCommitment { batch, user, commitment_hash, index, allocated: false },
        );

        self.pending.push(
            PendingComputation {
                offset: computation_offset,
                batch,
                kind: ComputationKind::AddOrder {
                    order: oi,
                    encrypted_amount,
                    encrypted_wallet_lo,
                    encrypted_wallet_hi,
                    user_pubkey,
                    user_nonce: nonce,
                    state_nonce: self.batches[batch].state_nonce,
                },
                consumed: false,
            },
        );

        proof {
            let m = old(self)@;
            let fm = self@;
            assert(forall|j: int| 0 <= j < m.orders.len() ==> fm.orders[j] == m.orders[j]);
            assert(forall|j: int| 0 <= j < m.pending.len() ==> fm.pending[j] == m.pending[j]);
            assert(fm.pending[fm.pending.len() - 1].batch == batch && !fm.pending[fm.pending.len()
                - 1].consumed && fm.pending[fm.pending.len() - 1].kind is AddOrder);
            assert(fm.has_live_add(batch));
            assert forall|b: usize| m.has_live_add(b) implies fm.has_live_add(b) by {
                let i = choose|i: int|
                    0 <= i < m.pending.len() && m.pending[i].batch == b && !m.pending[i].consumed
                        && m.pending[i].kind is AddOrder;
                assert(fm.pending[i].batch == b && !fm.pending[i].consumed && fm.pending[i].kind
                    is AddOrder);
            }
        }

        Ok(oi)
    }

    /// Closes an open, non-empty batch: a pure synchronous transition with
    /// no computation dispatched.  Fails exactly as
    /// [`spec_close_batch_check`] says: in particular an empty batch is
    /// always refused with [`ErrorCode::EmptyBatch`], and a batch with at
    /// least one accepted order always closes.
    pub fn close_batch(&mut self, authority: AccountId, batch: usize) -> (r: Result<
        (),
        ErrorCode,
    >)
        requires
            old(self)@.wf(),
        ensures
            final(self)@.wf(),
            r is Err <==> spec_close_batch_check(old(self)@, batch, authority) is Some,
            r matches Err(e) ==> Some(e) == spec_close_batch_check(old(self)@, batch, authority)
                && final(self)@ == old(self)@,
            r is Ok ==> {
                let m = old(self)@;
                let fm = final(self)@;
                &&& fm.batches == m.batches.update(
                    batch as int,
                    (TradingBatch { status: BatchStatus::Closed, ..m.batches[batch as int] }),
                )
                &&& fm.orders == m.orders
                &&& fm.pending == m.pending
                &&& fm.events.len() == m.events.len() + 1
                &&& forall|j: int| 0 <= j < m.events.len() ==> fm.events[j] == m.events[j]
                &&& (fm.events.last() matches TradingEvent::Closed(e) && e.batch == batch
                    && e.order_count == m.batches[batch as int].order_count)
                &&& fm.cluster_key == m.cluster_key
            },
    {
        if batch >= self.batches.len() {
            return Err(ErrorCode::RecordMissing);
        }
        if self.batches[batch].authority != authority {
            return Err(ErrorCode::Unauthorized);
        }
        if self.batches[batch].status != BatchStatus::Open {
            return Err(ErrorCode::BatchNotOpen);
        }
        if self.batches[batch].order_count == 0 {
            return Err(ErrorCode::EmptyBatch);
        }

        self.batches[batch].status = BatchStatus::Closed;
        let order_count = self.batches[batch].order_count;
        self.events.push(TradingEvent::Closed(BatchClosed { batch, order_count }));

        proof {
            self.lemma_live_adds_preserved_by_batch_update(old(self)@, batch);
        }

        Ok(())
    }

    /// Submits the final execution of a closed batch: files the revealing
    /// computation, carrying the plaintext execution parameters and the
    /// nonce the sealed state carries right now.  The batch record itself
    /// is untouched until the callback lands.  Fails exactly as
    /// [`spec_execute_batch_check`] says: execution can only ever be
    /// submitted from the `Closed` state, by the batch's authority.
    pub fn execute_batch(
        &mut self,
        authority: AccountId,
        batch: usize,
        computation_offset: u64,
        total_shares: u64,
        execution_price: u64,
    ) -> (r: Result<(), ErrorCode>)
        requires
            old(self)@.wf(),
        ensures
            final(self)@.wf(),
            r is Err <==> spec_execute_batch_check(old(self)@, batch, authority, computation_offset)
                is Some,
            r matches Err(e) ==> Some(e) == spec_execute_batch_check(
                old(self)@,
                batch,
                authority,
                computation_offset,
            ) && final(self)@ == old(self)@,
            r is Ok ==> {
                let m = old(self)@;
                let fm = final(self)@;
                &&& fm.batches == m.batches
                &&& fm.orders == m.orders
                &&& fm.pending == m.pending.push(
                    (PendingComputation {
                        offset: computation_offset,
                        batch,
                        kind: (ComputationKind::ExecuteBatch {
                            total_shares,
                            execution_price,
                            state_nonce: m.batches[batch as int].state_nonce,
                        }),
                        consumed: false,
                    }),
                )
                &&& fm.events == m.events
                &&& fm.cluster_key == m.cluster_key
            },
    {
        if batch >= self.batches.len() {
            return Err(ErrorCode::RecordMissing);
        }
        if self.batches[batch].authority != authority {
            return Err(ErrorCode::Unauthorized);
        }
        if self.batches[batch].status != BatchStatus::Closed {
            return Err(ErrorCode::BatchNotClosed);
        }
        if self.offset_taken(computation_offset) {
            return Err(ErrorCode::RecordExists);
        }

        self.pending.push(
            PendingComputation {
                offset: computation_offset,
                batch,
                kind: ComputationKind::ExecuteBatch {
                    total_shares,
                    execution_price,
                    state_nonce: self.batches[batch].state_nonce,
                },
                consumed: false,
            },
        );

        proof {
            let m = old(self)@;
            let fm = self@;
            assert(forall|j: int| 0 <= j < m.pending.len() ==> fm.pending[j] == m.pending[j]);
            assert forall|b: usize| m.has_live_add(b) implies fm.has_live_add(b) by {
                let i = choose|i: int|
                    0 <= i < m.pending.len() && m.pending[i].batch == b && !m.pending[i].consumed
                        && m.pending[i].kind is AddOrder;
                assert(fm.pending[i].batch == b && !fm.pending[i].consumed && fm.pending[i].kind
                    is AddOrder);
            }
        }

        Ok(())
    }

    /// Checks an externally produced allocation proof against an executed
    /// batch: enough public inputs, the claimed root equal to the stored
    /// root, and the structural minimum proof size.  On success the batch
    /// becomes `Verified` — the terminal state.  Fails exactly as
    /// [`spec_verify_allocation_check`] says, touching nothing.
    pub fn verify_allocation(
        &mut self,
        authority: AccountId,
        batch: usize,
        proof_data: Vec<u8>,
        public_inputs: Vec<[u8; 32]>,
    ) -> (r: Result<(), ErrorCode>)
        requires
            old(self)@.wf(),
        ensures
            final(self)@.wf(),
            r is Err <==> spec_verify_allocation_check(
                old(self)@,
                batch,
                authority,
                proof_data@,
                public_inputs@,
            ) is Some,
            r matches Err(e) ==> Some(e) == spec_verify_allocation_check(
                old(self)@,
                batch,
                authority,
                proof_data@,
                public_inputs@,
            ) && final(self)@ == old(self)@,
            r is Ok ==> {
                let m = old(self)@;
                let fm = final(self)@;
                &&& fm.batches == m.batches.update(
                    batch as int,
                    (TradingBatch { status: BatchStatus::Verified, ..m.batches[batch as int] }),
                )
                &&& fm.orders == m.orders
                &&& fm.pending == m.pending
                &&& fm.events.len() == m.events.len() + 1
                &&& forall|j: int| 0 <= j < m.events.len() ==> fm.events[j] == m.events[j]
                &&& (fm.events.last() matches TradingEvent::Verified(e) && e.batch == batch
                    && e.merkle_root == m.batches[batch as int].merkle_root)
                &&& fm.cluster_key == m.cluster_key
            },
    {
        if batch >= self.batches.len() {
            return Err(ErrorCode::RecordMissing);
        }
        if self.batches[batch].authority != authority {
            return Err(ErrorCode::Unauthorized);
        }
        if self.batches[batch].status != BatchStatus::Executed {
            return Err(ErrorCode::BatchNotExecuted);
        }
        if public_inputs.len() < MIN_PUBLIC_INPUTS {
            return Err(ErrorCode::InvalidProof);
        }
        if !bytes32_eq(&public_inputs[1], &self.batches[batch].merkle_root) {
            return Err(ErrorCode::MerkleRootMismatch);
        }
        if proof_data.len() < MIN_PROOF_DATA_LEN {
            return Err(ErrorCode::InvalidProofData);
        }

        self.batches[batch].status = BatchStatus::Verified;
        let merkle_root = self.batches[batch].merkle_root;
        self.events.push(TradingEvent::Verified(AllocationVerified { batch, merkle_root }));

        proof {
            self.lemma_live_adds_preserved_by_batch_update(old(self)@, batch);
        }

        Ok(())
    }

    /// Applies the callback of a batch-initialization computation.  The
    /// output's signature is checked against the cluster's registered key
    /// before any field of it is trusted: on failure the whole store is
    /// left exactly as it was and [`ErrorCode::AbortedComputation`] is
    /// surfaced.  On success the sealed state and its nonce are written —
    /// atomically, to the batch reserved at submission time only — the
    /// correlation row is retired so the offset cannot be replayed, and
    /// the creation event is emitted.
    pub fn init_batch_callback(
        &mut self,
        computation_offset: u64,
        output: SignedOutput<BatchInitOutput>,
    ) -> (r: Result<(), ErrorCode>)
        requires
            old(self)@.wf(),
        ensures
            final(self)@.wf(),
            old(self)@.offset_free(computation_offset) ==> r == Result::<(), ErrorCode>::Err(
                ErrorCode::RecordMissing,
            ) && final(self)@ == old(self)@,
            forall|i: int|
                0 <= i < old(self)@.pending.len() && (#[trigger] old(self)@.pending[i]).offset
                    == computation_offset ==> spec_init_callback_outcome(
                    old(self)@,
                    final(self)@,
                    i,
                    output,
                    r,
                ),
    {
        let found = self.find_pending_index(computation_offset);
        let i = match found {
            None => {
                return Err(ErrorCode::RecordMissing);
            },
            Some(i) => i,
        };
        let ghost gi = i as int;
        proof {
            assert forall|j: int|
                0 <= j < old(self)@.pending.len() && (#[trigger] old(self)@.pending[j]).offset
                    == computation_offset implies j == gi by {
                lemma_pending_offset_unique(old(self)@, gi, j);
            }
        }
        let row = self.pending[i];
        let applies = match row.kind {
            ComputationKind::InitBatch { .. } => true,
            _ => false,
        };
        if row.consumed || !applies {
            return Err(ErrorCode::RecordMissing);
        }
        if output.signer != self.cluster_key {
            return Err(ErrorCode::AbortedComputation);
        }

        let b = row.batch;
        self.batches[b].encrypted_state = output.payload.ciphertexts;
        self.batches[b].state_nonce = output.payload.nonce;
        self.pending[i].consumed = true;
        let market_id = self.batches[b].market_id.clone();
        let side = self.batches[b].side;
        let authority = self.batches[b].authority;
        self.events.push(
            TradingEvent::Created(BatchCreated { batch: b, market_id, side, authority }),
        );

        proof {
            let m = old(self)@;
            let fm = self@;
            assert(fm.batches == m.batches.update(
                b as int,
                (TradingBatch {
                    encrypted_state: output.payload.ciphertexts,
                    state_nonce: output.payload.nonce,
                    ..m.batches[b as int]
                }),
            ));
            assert(fm.pending == m.pending.update(gi, (PendingComputation { consumed: true, ..row })));
            assert(forall|x: int|
                0 <= x < fm.batches.len() ==> (#[trigger] fm.batches[x]).order_count
                    == m.batches[x].order_count && fm.batches[x].status == m.batches[x].status);
            assert(forall|j: int|
                0 <= j < fm.pending.len() ==> (#[trigger] fm.pending[j]).offset
                    == m.pending[j].offset && fm.pending[j].batch == m.pending[j].batch
                    && fm.pending[j].kind == m.pending[j].kind);
            assert forall|bb: usize| m.has_live_add(bb) implies fm.has_live_add(bb) by {
                let w = choose|w: int|
                    0 <= w < m.pending.len() && m.pending[w].batch == bb && !m.pending[w].consumed
                        && m.pending[w].kind is AddOrder;
                assert(w != gi);
                assert(fm.pending[w].batch == bb && !fm.pending[w].consumed && fm.pending[w].kind
                    is AddOrder);
            }
            assert forall|bb: usize| fm.has_live_add(bb) implies m.has_live_add(bb) by {
                let w = choose|w: int|
                    0 <= w < fm.pending.len() && fm.pending[w].batch == bb && !fm.pending[w].consumed
                        && fm.pending[w].kind is AddOrder;
                assert(m.pending[w].batch == bb && !m.pending[w].consumed && m.pending[w].kind
                    is AddOrder);
            }
        }

        Ok(())
    }

    /// Applies the callback of an order computation: after the signature
    /// check, the re-sealed state and its fresh nonce are written
    /// atomically to the reserved batch, the public order counter is
    /// incremented — so it counts exactly the accepted callbacks — the row
    /// is retired, and the order event is emitted.  A failed signature
    /// leaves every record untouched and surfaces
    /// [`ErrorCode::AbortedComputation`].
    pub fn add_order_callback(
        &mut self,
        computation_offset: u64,
        output: SignedOutput<AddOrderOutputData>,
    ) -> (r: Result<(), ErrorCode>)
        requires
            old(self)@.wf(),
        ensures
            final(self)@.wf(),
            old(self)@.offset_free(computation_offset) ==> r == Result::<(), ErrorCode>::Err(
                ErrorCode::RecordMissing,
            ) && final(self)@ == old(self)@,
            forall|i: int|
                0 <= i < old(self)@.pending.len() && (#[trigger] old(self)@.pending[i]).offset
                    == computation_offset ==> spec_add_order_callback_outcome(
                    old(self)@,
                    final(self)@,
                    i,
                    output,
                    r,
                ),
    {
        let found = self.find_pending_index(computation_offset);
        let i = match found {
            None => {
                return Err(ErrorCode::RecordMissing);
            },
            Some(i) => i,
        };
        let ghost gi = i as int;
        proof {
            assert forall|j: int|
                0 <= j < old(self)@.pending.len() && (#[trigger] old(self)@.pending[j]).offset
                    == computation_offset implies j == gi by {
                lemma_pending_offset_unique(old(self)@, gi, j);
            }
        }
        let row = self.pending[i];
        let order_idx = match row.kind {
            ComputationKind::AddOrder { order, .. } => order,
            _ => {
                return Err(ErrorCode::RecordMissing);
            },
        };
        if row.consumed {
            return Err(ErrorCode::RecordMissing);
        }
        if output.signer != self.cluster_key {
            return Err(ErrorCode::AbortedComputation);
        }

        let b = row.batch;
        let ghost m = old(self)@;
        proof {
            // The row is the single live order computation against its
            // batch: any second one would reserve the same index for a
            // different commitment, contradicting index uniqueness.
            assert forall|j: int|
                0 <= j < m.pending.len() && j != gi && (#[trigger] m.pending[j]).kind is AddOrder
                    && !m.pending[j].consumed implies m.pending[j].batch != b by {
                if m.pending[j].batch == b {
                    let oj = m.pending[j].kind.spec_order() as int;
                    let oi = row.kind.spec_order() as int;
                    assert(m.orders[oj].index == m.batches[b as int].order_count);
                    assert(m.orders[oi].index == m.batches[b as int].order_count);
                    if j < gi {
                        assert(m.pending[j].kind.spec_order() != m.pending[gi].kind.spec_order());
                    } else {
                        assert(m.pending[gi].kind.spec_order() != m.pending[j].kind.spec_order());
                    }
                    if oj < oi {
                        assert(m.orders[oj].index != m.orders[oi].index);
                    } else {
                        assert(m.orders[oi].index != m.orders[oj].index);
                    }
                }
            }
        }

        let prior_count = self.batches[b].order_count;
        self.batches[b].encrypted_state = output.payload.ciphertexts;
        self.batches[b].state_nonce = output.payload.nonce;
        self.batches[b].order_count = prior_count + 1;
        self.pending[i].consumed = true;
        let commitment_hash = self.orders[order_idx].commitment_hash;
        self.events.push(
            TradingEvent::Added(
                OrderAdded { batch: b, order: order_idx, order_index: prior_count, commitment_hash },
            ),
        );

        proof {
            let fm = self@;
            assert(fm.batches == m.batches.update(
                b as int,
                (TradingBatch {
                    encrypted_state: output.payload.ciphertexts,
                    state_nonce: output.payload.nonce,
                    order_count: (m.batches[b as int].order_count + 1) as u8,
                    ..m.batches[b as int]
                }),
            ));
            assert(fm.pending == m.pending.update(gi, (PendingComputation { consumed: true, ..row })));
            assert(forall|j: int|
                0 <= j < fm.pending.len() ==> (#[trigger] fm.pending[j]).offset
                    == m.pending[j].offset && fm.pending[j].batch == m.pending[j].batch
                    && fm.pending[j].kind == m.pending[j].kind);
            assert forall|bb: usize| bb != b && m.has_live_add(bb) implies fm.has_live_add(bb) by {
                let w = choose|w: int|
                    0 <= w < m.pending.len() && m.pending[w].batch == bb && !m.pending[w].consumed
                        && m.pending[w].kind is AddOrder;
                assert(w != gi);
                assert(fm.pending[w].batch == bb && !fm.pending[w].consumed && fm.pending[w].kind
                    is AddOrder);
            }
            assert forall|bb: usize| fm.has_live_add(bb) implies bb != b && m.has_live_add(bb) by {
                let w = choose|w: int|
                    0 <= w < fm.pending.len() && fm.pending[w].batch == bb && !fm.pending[w].consumed
                        && fm.pending[w].kind is AddOrder;
                assert(w != gi);
                assert(m.pending[w].batch == bb && !m.pending[w].consumed && m.pending[w].kind
                    is AddOrder);
            }
        }

        Ok(())
    }

    /// Applies the callback of an execution computation: after the
    /// signature check, the revealed root and total are written to the
    /// reserved batch and its status flips to `Executed`; the row is
    /// retired and the execution event emitted.  A failed signature leaves
    /// every record untouched and surfaces
    /// [`ErrorCode::AbortedComputation`].
    pub fn execute_batch_callback(
        &mut self,
        computation_offset: u64,
        output: SignedOutput<ExecuteBatchOutputData>,
    ) -> (r: Result<(), ErrorCode>)
        requires
            old(self)@.wf(),
        ensures
            final(self)@.wf(),
            old(self)@.offset_free(computation_offset) ==> r == Result::<(), ErrorCode>::Err(
                ErrorCode::RecordMissing,
            ) && final(self)@ == old(self)@,
            forall|i: int|
                0 <= i < old(self)@.pending.len() && (#[trigger] old(self)@.pending[i]).offset
                    == computation_offset ==> spec_execute_callback_outcome(
                    old(self)@,
                    final(self)@,
                    i,
                    output,
                    r,
                ),
    {
        let found = self.find_pending_index(computation_offset);
        let i = match found {
            None => {
                return Err(ErrorCode::RecordMissing);
            },
            Some(i) => i,
        };
        let ghost gi = i as int;
        proof {
            assert forall|j: int|
                0 <= j < old(self)@.pending.len() && (#[trigger] old(self)@.pending[j]).offset
                    == computation_offset implies j == gi by {
                lemma_pending_offset_unique(old(self)@, gi, j);
            }
        }
        let row = self.pending[i];
        let applies = match row.kind {
            ComputationKind::ExecuteBatch { .. } => true,
            _ => false,
        };
        if row.consumed || !applies {
            return Err(ErrorCode::RecordMissing);
        }
        if output.signer != self.cluster_key {
            return Err(ErrorCode::AbortedComputation);
        }

        let b = row.batch;
        self.batches[b].merkle_root = output.payload.merkle_root;
        self.batches[b].total_usdc = output.payload.total_usdc;
        self.batches[b].status = BatchStatus::Executed;
        self.pending[i].consumed = true;
        let order_count = self.batches[b].order_count;
        self.events.push(
            TradingEvent::Executed(
                BatchExecuted {
                    batch: b,
                    merkle_root: output.payload.merkle_root,
                    total_usdc: output.payload.total_usdc,
                    order_count,
                },
            ),
        );

        proof {
            let m = old(self)@;
            let fm = self@;
            assert(fm.batches == m.batches.update(
                b as int,
                (TradingBatch {
                    merkle_root: output.payload.merkle_root,
                    total_usdc: output.payload.total_usdc,
                    status: BatchStatus::Executed,
                    ..m.batches[b as int]
                }),
            ));
            assert(fm.pending == m.pending.update(gi, (PendingComputation { consumed: true, ..row })));
            assert(forall|x: int|
                0 <= x < fm.batches.len() ==> (#[trigger] fm.batches[x]).order_count
                    == m.batches[x].order_count);
            assert(forall|j: int|
                0 <= j < fm.pending.len() ==> (#[trigger] fm.pending[j]).offset
                    == m.pending[j].offset && fm.pending[j].batch == m.pending[j].batch
                    && fm.pending[j].kind == m.pending[j].kind);
            assert forall|bb: usize| m.has_live_add(bb) implies fm.has_live_add(bb) by {
                let w = choose|w: int|
                    0 <= w < m.pending.len() && m.pending[w].batch == bb && !m.pending[w].consumed
                        && m.pending[w].kind is AddOrder;
                assert(w != gi);
                assert(fm.pending[w].batch == bb && !fm.pending[w].consumed && fm.pending[w].kind
                    is AddOrder);
            }
            assert forall|bb: usize| fm.has_live_add(bb) implies m.has_live_add(bb) by {
                let w = choose|w: int|
                    0 <= w < fm.pending.len() && fm.pending[w].batch == bb && !fm.pending[w].consumed
                        && fm.pending[w].kind is AddOrder;
                assert(m.pending[w].batch == bb && !m.pending[w].consumed && m.pending[w].kind
                    is AddOrder);
            }
        }

        Ok(())
    }

    /// The live adds of every batch survive an update that touches only
    /// batch fields other than `order_count` (and leaves orders and the
    /// correlation table alone).
    proof fn lemma_live_adds_preserved_by_batch_update(&self, m: TradingModel, batch: usize)
        requires
            self@.pending == m.pending,
        ensures
            forall|b: usize| m.has_live_add(b) ==> self@.has_live_add(b),
            forall|b: usize| self@.has_live_add(b) ==> m.has_live_add(b),
    {
        let fm = self@;
        assert forall|b: usize| m.has_live_add(b) implies fm.has_live_add(b) by {
            let i = choose|i: int|
                0 <= i < m.pending.len() && m.pending[i].batch == b && !m.pending[i].consumed
                    && m.pending[i].kind is AddOrder;
            assert(fm.pending[i].batch == b && !fm.pending[i].consumed && fm.pending[i].kind
                is AddOrder);
        }
        assert forall|b: usize| fm.has_live_add(b) implies m.has_live_add(b) by {
            let i = choose|i: int|
                0 <= i < fm.pending.len() && fm.pending[i].batch == b && !fm.pending[i].consumed
                    && fm.pending[i].kind is AddOrder;
            assert(m.pending[i].batch == b && !m.pending[i].consumed && m.pending[i].kind
                is AddOrder);
        }
    }

    /// Number of batch records in the store.
    pub fn batch_count(&self) -> (n: usize)
        ensures
            n == self@.batches.len(),
    {
        self.batches.len()
    }

    /// The batch record at store address `i`.
    pub fn batch(&self, i: usize) -> (b: &TradingBatch)
        requires
            i < self@.batches.len(),
        ensures
            *b == self@.batches[i as int],
    {
        &self.batches[i]
    }

    /// Number of order commitments in the store.
    pub fn order_count(&self) -> (n: usize)
        ensures
            n == self@.orders.len(),
    {
        self.orders.len()
    }

    /// The order commitment at store address `k`.
    pub fn order(&self, k: usize) -> (o: &OrderCommitment)
        requires
            k < self@.orders.len(),
        ensures
            *o == self@.orders[k as int],
    {
        &self.orders[k]
    }

    /// Number of rows in the correlation table.
    pub fn pending_count(&self) -> (n: usize)
        ensures
            n == self@.pending.len(),
    {
        self.pending.len()
    }

    /// The correlation-table row at index `i`.
    pub fn pending_at(&self, i: usize) -> (p: &PendingComputation)
        requires
            i < self@.pending.len(),
        ensures
            *p == self@.pending[i as int],
    {
        &self.pending[i]
    }

    /// Number of emitted events.
    pub fn event_count(&self) -> (n: usize)
        ensures
            n == self@.events.len(),
    {
        self.events.len()
    }

    /// The event at position `i` of the log.
    pub fn event(&self, i: usize) -> (e: &TradingEvent)
        requires
            i < self@.events.len(),
        ensures
            *e == self@.events[i as int],
    {
        &self.events[i]
    }
}

/// Correlation offsets identify at most one table row.
pub proof fn lemma_pending_offset_unique(m: TradingModel, i: int, j: int)
    requires
        m.wf(),
        0 <= i < m.pending.len(),
        0 <= j < m.pending.len(),
        m.pending[i].offset == m.pending[j].offset,
    ensures
        i == j,
{
    if i < j {
        assert(m.pending[i].offset != m.pending[j].offset);
    } else if j < i {
        assert(m.pending[j].offset != m.pending[i].offset);
    }
}

/// Accepted orders are indexed consecutively: in any well-formed store
/// with no order computation in flight against batch `b` — in particular
/// after every submitted order's callback has been accepted — the order
/// commitments of `b` carry pairwise-distinct indices, each below the
/// batch's order counter.  Together with the counter starting at zero and
/// moving up by exactly one per accepted callback, the counter equals the
/// number of accepted callbacks and the indices fill `[0, order_count)`.
pub proof fn lemma_accepted_orders_indexed(m: TradingModel, b: usize)
    requires
        m.wf(),
        (b as int) < m.batches.len(),
        !m.has_live_add(b),
    ensures
        forall|k: int|
            0 <= k < m.orders.len() && (#[trigger] m.orders[k]).batch == b ==> m.orders[k].index
                < m.batches[b as int].order_count,
        forall|k1: int, k2: int|
            0 <= k1 < k2 < m.orders.len() && (#[trigger] m.orders[k1]).batch == b && (
            #[trigger] m.orders[k2]).batch == b ==> m.orders[k1].index != m.orders[k2].index,
{
    assert forall|k: int|
        0 <= k < m.orders.len() && (#[trigger] m.orders[k]).batch == b implies m.orders[k].index
        < m.batches[b as int].order_count by {
        assert(m.orders[k].index <= m.batches[b as int].order_count);
        if m.orders[k].index == m.batches[b as int].order_count {
            assert(m.has_live_add(b));
        }
    }
}

} // verus!
