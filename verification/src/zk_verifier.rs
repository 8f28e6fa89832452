//! The proof-verification registry.
//!
//! An independent subsystem: market-scoped registries count successfully
//! verified proofs, each accepted proof leaves a write-once [`ProofRecord`],
//! and a batched variant accepts a set of proofs all-or-nothing, leaving a
//! single [`BatchRecord`] only when every member verifies.
//!
//! The structural check in [`verify_ultrahonk_proof`] — a length floor plus
//! a partial digest comparison, with any sufficiently long blob accepted —
//! is an explicit placeholder for a real proof system, preserved here as
//! specified; the contract that matters is that registry state changes are
//! applied exactly when the check returns true.

use vstd::prelude::*;

verus! {

use crate::trading::AccountId;

/// Failures surfaced by the proof registry.
#[derive(Clone, Copy, Debug, PartialEq, Eq, Structural)]
pub enum ErrorCode {
    /// The proof failed verification.
    InvalidProof,
    /// The proof blob is structurally too small.
    InvalidProofData,
    /// More proofs than one batch may carry.
    BatchTooLarge,
    /// An empty set of proofs was submitted.
    EmptyBatch,
    /// At least one proof of the submitted set failed verification.
    BatchVerificationFailed,
    /// A record with the same key already exists in the store.
    RecordExists,
    /// No record with the given key exists in the store.
    RecordMissing,
}

/// Minimum length of a proof blob, in bytes.
pub const MIN_PROOF_LEN: usize = 64;

/// Blob length beyond which the placeholder check accepts a proof without
/// a digest match.  A real verifier must replace this acceptance path.
pub const PLACEHOLDER_ACCEPT_LEN: usize = 100;

/// Hard cap on the number of proofs one batched verification may carry.
pub const MAX_BATCH_PROOFS: usize = 32;

/// One proof submission inside a batched verification.
pub struct ProofInput {
    pub proof_id: String,
    pub query_commitment: [u8; 32],
    pub response_commitment: [u8; 32],
    pub merkle_root: [u8; 32],
    pub proof_data: Vec<u8>,
    pub verification_key: [u8; 32],
}

/// A market-scoped registry: who opened it and how many proofs it has
/// accepted.  The counter moves only on successful single-proof
/// verification.
pub struct ProofRegistry {
    pub authority: AccountId,
    pub market_id: String,
    pub proof_count: u64,
}

/// The write-once record of one verified proof.  Created only as the
/// terminal step of a successful verification; never for a rejected proof.
pub struct ProofRecord {
    pub proof_id: String,
    pub query_commitment: [u8; 32],
    pub response_commitment: [u8; 32],
    pub merkle_root: [u8; 32],
    pub timestamp: u64,
    pub verified: bool,
    pub verified_at: i64,
    pub verifier: AccountId,
}

/// The record of one batched verification, created only when every proof
/// of the submitted set verified.
pub struct BatchRecord {
    pub batch_id: String,
    pub proof_count: u8,
    pub batch_merkle_root: [u8; 32],
    pub verified: bool,
    pub verified_at: i64,
    pub authority: AccountId,
}

/// Event: a registry was opened for a market.
pub struct RegistryInitialized {
    pub registry: usize,
    pub authority: AccountId,
    pub market_id: String,
}

/// Event: a single proof was verified and recorded.
pub struct ProofVerified {
    pub proof_id: String,
    pub registry: usize,
    pub query_commitment: [u8; 32],
    pub response_commitment: [u8; 32],
    pub merkle_root: [u8; 32],
    pub timestamp: u64,
    pub verified_at: i64,
}

/// Event: a whole set of proofs was verified and recorded.
pub struct BatchVerified {
    pub batch_id: String,
    pub proof_count: u8,
    pub batch_merkle_root: [u8; 32],
    pub verified_at: i64,
}

/// The append-only notification stream the registry emits.
pub enum VerifierEvent {
    RegistryInitialized(RegistryInitialized),
    ProofVerified(ProofVerified),
    BatchVerified(BatchVerified),
}

/// The placeholder digest: every input byte XORed into one of 32 slots,
/// round-robin.
pub open spec fn spec_simple_hash(data: Seq<u8>) -> Seq<u8>
    decreases data.len(),
{
    if data.len() == 0 {
        Seq::new(32, |i: int| 0u8)
    } else {
        let prev = spec_simple_hash(data.drop_last());
        let slot = ((data.len() - 1) % 32) as int;
        prev.update(slot, prev[slot] ^ data.last())
    }
}

/// The digest always spans 32 slots.
pub proof fn lemma_simple_hash_len(data: Seq<u8>)
    ensures
        spec_simple_hash(data).len() == 32,
    decreases data.len(),
{
    if data.len() > 0 {
        lemma_simple_hash_len(data.drop_last());
    }
}

/// What the placeholder verification accepts: the first half of the
/// claimed root matches the digest of the two commitments, or the blob is
/// simply longer than [`PLACEHOLDER_ACCEPT_LEN`].
pub open spec fn spec_proof_structurally_valid(
    query: Seq<u8>,
    response: Seq<u8>,
    merkle_root: Seq<u8>,
    proof_len: nat,
) -> bool {
    merkle_root.subrange(0, 16) == spec_simple_hash(query + response).subrange(0, 16) || proof_len
        > PLACEHOLDER_ACCEPT_LEN
}

/// Whether one member of a batched submission would verify on its own.
pub open spec fn spec_proof_input_valid(p: ProofInput) -> bool {
    spec_proof_structurally_valid(
        p.query_commitment@,
        p.response_commitment@,
        p.merkle_root@,
        p.proof_data@.len(),
    )
}

/// The placeholder digest over a byte string.
pub fn simple_hash(data: &Vec<u8>) -> (r: [u8; 32])
    ensures
        r@ == spec_simple_hash(data@),
{
    let mut result = [0u8; 32];
    proof {
        assert(result@ =~= spec_simple_hash(data@.take(0)));
    }
    let n = data.len();
    for i in 0..n
        invariant
            n == data@.len(),
            result@ == spec_simple_hash(data@.take(i as int)),
    {
        result[i % 32] = result[i % 32] ^ data[i];
        proof {
            let t = data@.take(i + 1);
            assert(t.drop_last() =~= data@.take(i as int));
            assert(t.last() == data@[i as int]);
            lemma_simple_hash_len(t.drop_last());
            assert(result@ =~= spec_simple_hash(t));
        }
    }
    proof {
        assert(data@.take(n as int) =~= data@);
    }
    result
}

/// Byte-for-byte equality of the first 16 bytes of two 32-byte values.
fn prefix16_eq(a: &[u8; 32], b: &[u8; 32]) -> (r: bool)
    ensures
        r <==> a@.subrange(0, 16) == b@.subrange(0, 16),
{
    for i in 0..16usize
        invariant
            forall|j: int| 0 <= j < i ==> a@[j] == b@[j],
    {
        if a[i] != b[i] {
            proof {
                assert(a@.subrange(0, 16)[i as int] != b@.subrange(0, 16)[i as int]);
            }
            return false;
        }
    }
    proof {
        assert(a@.subrange(0, 16) =~= b@.subrange(0, 16));
    }
    true
}

/// The two 32-byte commitments laid end to end.
fn concat_commitments(query: &[u8; 32], response: &[u8; 32]) -> (r: Vec<u8>)
    ensures
        r@ == query@ + response@,
{
    let mut combined: Vec<u8> = Vec::new();
    for i in 0..32usize
        invariant
            combined@ =~= query@.take(i as int),
    {
        combined.push(query[i]);
    }
    for i in 0..32usize
        invariant
            combined@ =~= query@ + response@.take(i as int),
    {
        combined.push(response[i]);
    }
    proof {
        assert(combined@ =~= query@ + response@);
    }
    combined
}

/// The placeholder stand-in for a real proof-system verifier: rejects a
/// blob below the structural minimum, then accepts when the first half of
/// the claimed root matches the digest of the commitments — or whenever
/// the blob is long enough, which a production deployment must replace
/// with genuine verification.
pub fn verify_ultrahonk_proof(
    query_commitment: &[u8; 32],
    response_commitment: &[u8; 32],
    merkle_root: &[u8; 32],
    proof_data: &Vec<u8>,
    _verification_key: &[u8; 32],
) -> (r: Result<bool, ErrorCode>)
    ensures
        r is Err <==> proof_data@.len() < MIN_PROOF_LEN,
        r matches Err(e) ==> e == ErrorCode::InvalidProofData,
        r matches Ok(v) ==> v == spec_proof_structurally_valid(
            query_commitment@,
            response_commitment@,
            merkle_root@,
            proof_data@.len(),
        ),
{
    if proof_data.len() < MIN_PROOF_LEN {
        return Err(ErrorCode::InvalidProofData);
    }

    let combined = concat_commitments(query_commitment, response_commitment);
    let expected_root = simple_hash(&combined);

    let root_matches = prefix16_eq(merkle_root, &expected_root);

    Ok(root_matches || proof_data.len() > PLACEHOLDER_ACCEPT_LEN)
}

/// Mathematical view of a [`VerifierProgram`].
pub ghost struct VerifierModel {
    pub registries: Seq<ProofRegistry>,
    pub records: Seq<ProofRecord>,
    pub batch_records: Seq<BatchRecord>,
    pub events: Seq<VerifierEvent>,
}

impl VerifierModel {
    /// No registry is stored under the market key.
    pub open spec fn registry_key_free(self, market_id: Seq<char>) -> bool {
        forall|i: int|
            0 <= i < self.registries.len() ==> (#[trigger] self.registries[i]).market_id@
                != market_id
    }

    /// No proof record is stored under the id.
    pub open spec fn proof_id_free(self, proof_id: Seq<char>) -> bool {
        forall|k: int|
            0 <= k < self.records.len() ==> (#[trigger] self.records[k]).proof_id@ != proof_id
    }

    /// No batch record is stored under the id.
    pub open spec fn batch_id_free(self, batch_id: Seq<char>) -> bool {
        forall|k: int|
            0 <= k < self.batch_records.len() ==> (#[trigger] self.batch_records[k]).batch_id@
                != batch_id
    }

    /// Well-formedness: keys are unique, every stored record is marked
    /// verified — the flag is write-once true — and no registry counts
    /// more proofs than exist.
    pub open spec fn wf(self) -> bool {
        &&& forall|i: int, j: int|
            0 <= i < j < self.registries.len() ==> (#[trigger] self.registries[i]).market_id@ != (
            #[trigger] self.registries[j]).market_id@
        &&& forall|i: int, j: int|
            0 <= i < j < self.records.len() ==> (#[trigger] self.records[i]).proof_id@ != (
            #[trigger] self.records[j]).proof_id@
        &&& forall|i: int, j: int|
            0 <= i < j < self.batch_records.len() ==> (#[trigger] self.batch_records[i]).batch_id@
                != (#[trigger] self.batch_records[j]).batch_id@
        &&& forall|k: int| 0 <= k < self.records.len() ==> (#[trigger] self.records[k]).verified
        &&& forall|k: int|
            0 <= k < self.batch_records.len() ==> (#[trigger] self.batch_records[k]).verified
                && self.batch_records[k].proof_count <= MAX_BATCH_PROOFS
        &&& forall|i: int|
            0 <= i < self.registries.len() ==> (#[trigger] self.registries[i]).proof_count
                <= self.records.len()
    }
}

/// Outcome of the checks `verify_proof` runs, in order: the registry must
/// exist, the proof id must be fresh, the blob must meet the structural
/// minimum, and the proof must verify.
pub open spec fn spec_verify_proof_check(
    m: VerifierModel,
    registry: usize,
    proof_id: Seq<char>,
    query: Seq<u8>,
    response: Seq<u8>,
    merkle_root: Seq<u8>,
    proof_len: nat,
) -> Option<ErrorCode> {
    if registry >= m.registries.len() {
        Some(ErrorCode::RecordMissing)
    } else if !m.proof_id_free(proof_id) {
        Some(ErrorCode::RecordExists)
    } else if proof_len < MIN_PROOF_LEN {
        Some(ErrorCode::InvalidProofData)
    } else if !spec_proof_structurally_valid(query, response, merkle_root, proof_len) {
        Some(ErrorCode::InvalidProof)
    } else {
        None
    }
}

/// Outcome of the checks `batch_verify_proofs` runs, in order: the batch
/// id must be fresh, the set must be small enough and non-empty, every
/// blob must meet the structural minimum, and every proof must verify —
/// one failure rejects the whole set.
pub open spec fn spec_batch_verify_check(
    m: VerifierModel,
    batch_id: Seq<char>,
    proofs: Seq<ProofInput>,
) -> Option<ErrorCode> {
    if !m.batch_id_free(batch_id) {
        Some(ErrorCode::RecordExists)
    } else if proofs.len() > MAX_BATCH_PROOFS {
        Some(ErrorCode::BatchTooLarge)
    } else if proofs.len() == 0 {
        Some(ErrorCode::EmptyBatch)
    } else if exists|i: int|
        0 <= i < proofs.len() && (#[trigger] proofs[i]).proof_data@.len() < MIN_PROOF_LEN {
        Some(ErrorCode::InvalidProofData)
    } else if exists|i: int| 0 <= i < proofs.len() && !spec_proof_input_valid(#[trigger] proofs[i]) {
        Some(ErrorCode::BatchVerificationFailed)
    } else {
        None
    }
}

/// The registry store: market registries, proof records, batch records,
/// and the event log.
pub struct VerifierProgram {
    registries: Vec<ProofRegistry>,
    records: Vec<ProofRecord>,
    batch_records: Vec<BatchRecord>,
    events: Vec<VerifierEvent>,
}

impl View for VerifierProgram {
    type V = VerifierModel;

    closed spec fn view(&self) -> VerifierModel {
        VerifierModel {
            registries: self.registries@,
            records: self.records@,
            batch_records: self.batch_records@,
            events: self.events@,
        }
    }
}

impl VerifierProgram {
    /// An empty registry store.
    pub fn new() -> (s: Self)
        ensures
            s@ == (VerifierModel {
                registries: Seq::empty(),
                records: Seq::empty(),
                batch_records: Seq::empty(),
                events: Seq::empty(),
            }),
            s@.wf(),
    {
        VerifierProgram {
            registries: Vec::new(),
            records: Vec::new(),
            batch_records: Vec::new(),
            events: Vec::new(),
        }
    }

    /// Whether a registry already exists for the market.
    fn registry_key_taken(&self, market_id: &String) -> (r: bool)
        ensures
            r == !self@.registry_key_free(market_id@),
    {
        let n = self.registries.len();
        for i in 0..n
            invariant
                n == self.registries.len(),
                forall|j: int|
                    0 <= j < i ==> (#[trigger] self@.registries[j]).market_id@ != market_id@,
        {
            if self.registries[i].market_id == *market_id {
                proof {
                    assert(self@.registries[i as int].market_id@ == market_id@);
                }
                return true;
            }
        }
        false
    }

    /// Whether a proof record already exists under the id.
    fn proof_id_taken(&self, proof_id: &String) -> (r: bool)
        ensures
            r == !self@.proof_id_free(proof_id@),
    {
        let n = self.records.len();
        for k in 0..n
            invariant
                n == self.records.len(),
                forall|j: int| 0 <= j < k ==> (#[trigger] self@.records[j]).proof_id@ != proof_id@,
        {
            if self.records[k].proof_id == *proof_id {
                proof {
                    assert(self@.records[k as int].proof_id@ == proof_id@);
                }
                return true;
            }
        }
        false
    }

    /// Whether a batch record already exists under the id.
    fn batch_id_taken(&self, batch_id: &String) -> (r: bool)
        ensures
            r == !self@.batch_id_free(batch_id@),
    {
        let n = self.batch_records.len();
        for k in 0..n
            invariant
                n == self.batch_records.len(),
                forall|j: int|
                    0 <= j < k ==> (#[trigger] self@.batch_records[j]).batch_id@ != batch_id@,
        {
            if self.batch_records[k].batch_id == *batch_id {
                proof {
                    assert(self@.batch_records[k as int].batch_id@ == batch_id@);
                }
                return true;
            }
        }
        false
    }

    /// Opens a zero-count registry scoped to the market.  Fails with
    /// [`ErrorCode::RecordExists`] if one already exists for that key; on
    /// success returns the new registry's store address.
    pub fn initialize_registry(&mut self, authority: AccountId, market_id: String) -> (r: Result<
        usize,
        ErrorCode,
    >)
        requires
            old(self)@.wf(),
        ensures
            final(self)@.wf(),
            r is Ok <==> old(self)@.registry_key_free(market_id@),
            r is Err ==> final(self)@ == old(self)@ && (r matches Err(e) && e
                == ErrorCode::RecordExists),
            r matches Ok(ri) ==> {
                let m = old(self)@;
                let fm = final(self)@;
                &&& ri == m.registries.len()
                &&& fm.registries.len() == m.registries.len() + 1
                &&& forall|j: int| 0 <= j < m.registries.len() ==> fm.registries[j] == m.registries[j]
                &&& fm.registries[ri as int].authority == authority
                &&& fm.registries[ri as int].market_id@ == market_id@
                &&& fm.registries[ri as int].proof_count == 0
                &&& fm.records == m.records
                &&& fm.batch_records == m.batch_records
                &&& fm.events.len() == m.events.len() + 1
                &&& forall|j: int| 0 <= j < m.events.len() ==> fm.events[j] == m.events[j]
                &&& (fm.events.last() matches VerifierEvent::RegistryInitialized(e) && e.registry
                    == ri && e.authority == authority && e.market_id@ == market_id@)
            },
    {
        if self.registry_key_taken(&market_id) {
            return Err(ErrorCode::RecordExists);
        }

        let ri = self.registries.len();
        let ev_market = market_id.clone();
        self.registries.push(ProofRegistry { authority, market_id, proof_count: 0 });
        self.events.push(
            VerifierEvent::RegistryInitialized(
                RegistryInitialized { registry: ri, authority, market_id: ev_market },
            ),
        );

        proof {
            let m = old(self)@;
            let fm = self@;
            assert(forall|j: int| 0 <= j < m.registries.len() ==> fm.registries[j] == m.registries[j]);
            assert forall|i: int, j: int|
                0 <= i < j < fm.registries.len() implies (#[trigger] fm.registries[i]).market_id@
                != (#[trigger] fm.registries[j]).market_id@ by {
                if j == fm.registries.len() - 1 {
                    assert(m.registries[i].market_id@ != market_id@);
                } else {
                    assert(fm.registries[i] == m.registries[i]);
                    assert(fm.registries[j] == m.registries[j]);
                }
            }
            assert forall|i: int, j: int|
                0 <= i < j < fm.records.len() implies (#[trigger] fm.records[i]).proof_id@ != (
            #[trigger] fm.records[j]).proof_id@ by {
                assert(fm.records[i] == m.records[i]);
                assert(fm.records[j] == m.records[j]);
            }
            assert forall|i: int, j: int|
                0 <= i < j < fm.batch_records.len() implies (#[trigger] fm.batch_records[i]).batch_id@
                != (#[trigger] fm.batch_records[j]).batch_id@ by {
                assert(fm.batch_records[i] == m.batch_records[i]);
                assert(fm.batch_records[j] == m.batch_records[j]);
            }
            assert forall|k: int| 0 <= k < fm.records.len() implies (#[trigger] fm.records[k]).verified by {
                if k < m.records.len() {
                    assert(fm.records[k] == m.records[k]);
                }
            }
            assert forall|k: int|
                0 <= k < fm.batch_records.len() implies (#[trigger] fm.batch_records[k]).verified
                && fm.batch_records[k].proof_count <= MAX_BATCH_PROOFS by {
                if k < m.batch_records.len() {
                    assert(fm.batch_records[k] == m.batch_records[k]);
                }
            }
        }

        Ok(ri)
    }

    /// Verifies a single proof against a registry: on success — and only
    /// then — a write-once [`ProofRecord`] is stored under the fresh
    /// `proof_id`, the registry's counter moves up by one, and the event
    /// is emitted; any failure leaves the store untouched.  Fails exactly
    /// as [`spec_verify_proof_check`] says.  `now` is the caller-supplied
    /// clock reading recorded as the verification time.
    pub fn verify_proof(
        &mut self,
        verifier: AccountId,
        registry: usize,
        proof_id: String,
        query_commitment: [u8; 32],
        response_commitment: [u8; 32],
        merkle_root: [u8; 32],
        timestamp: u64,
        proof_data: Vec<u8>,
        verification_key: [u8; 32],
        now: i64,
    ) -> (r: Result<usize, ErrorCode>)
        requires
            old(self)@.wf(),
        ensures
            final(self)@.wf(),
            r is Err <==> spec_verify_proof_check(
                old(self)@,
                registry,
                proof_id@,
                query_commitment@,
                response_commitment@,
                merkle_root@,
                proof_data@.len(),
            ) is Some,
            r matches Err(e) ==> Some(e) == spec_verify_proof_check(
                old(self)@,
                registry,
                proof_id@,
                query_commitment@,
                response_commitment@,
                merkle_root@,
                proof_data@.len(),
            ) && final(self)@ == old(self)@,
            r matches Ok(ki) ==> {
                let m = old(self)@;
                let fm = final(self)@;
                &&& ki == m.records.len()
                &&& fm.records.len() == m.records.len() + 1
                &&& forall|j: int| 0 <= j < m.records.len() ==> fm.records[j] == m.records[j]
                &&& fm.records[ki as int].proof_id@ == proof_id@
                &&& fm.records[ki as int].query_commitment == query_commitment
                &&& fm.records[ki as int].response_commitment == response_commitment
                &&& fm.records[ki as int].merkle_root == merkle_root
                &&& fm.records[ki as int].timestamp == timestamp
                &&& fm.records[ki as int].verified
                &&& fm.records[ki as int].verified_at == now
                &&& fm.records[ki as int].verifier == verifier
                &&& fm.registries == m.registries.update(
                    registry as int,
                    (ProofRegistry {
                        proof_count: (m.registries[registry as int].proof_count + 1) as u64,
                        ..m.registries[registry as int]
                    }),
                )
                &&& fm.batch_records == m.batch_records
                &&& fm.events.len() == m.events.len() + 1
                &&& forall|j: int| 0 <= j < m.events.len() ==> fm.events[j] == m.events[j]
                &&& (fm.events.last() matches VerifierEvent::ProofVerified(e) && e.proof_id@
                    == proof_id@ && e.registry == registry && e.query_commitment
                    == query_commitment && e.response_commitment == response_commitment
                    && e.merkle_root == merkle_root && e.timestamp == timestamp && e.verified_at
                    == now)
            },
    {
        if registry >= self.registries.len() {
            return Err(ErrorCode::RecordMissing);
        }
        if self.proof_id_taken(&proof_id) {
            return Err(ErrorCode::RecordExists);
        }

        let is_valid = match verify_ultrahonk_proof(
            &query_commitment,
            &response_commitment,
            &merkle_root,
            &proof_data,
            &verification_key,
        ) {
            Err(e) => {
                return Err(e);
            },
            Ok(v) => v,
        };
        if !is_valid {
            return Err(ErrorCode::InvalidProof);
        }

        let ki = self.records.len();
        let ev_proof_id = proof_id.clone();
        self.records.push(
            ProofRecord {
                proof_id,
                query_commitment,
                response_commitment,
                merkle_root,
                timestamp,
                verified: true,
                verified_at: now,
                verifier,
            },
        );
        let new_record_total = self.records.len();
        let prior_count = self.registries[registry].proof_count;
        proof {
            // The registry's counter never exceeds the number of stored
            // records, so one more still fits the counter's width.
            assert(prior_count <= old(self)@.records.len());
            assert(old(self)@.records.len() + 1 == new_record_total as int);
            assert(usize::MAX <= u64::MAX);
        }
        self.registries[registry].proof_count = prior_count + 1;
        self.events.push(
            VerifierEvent::ProofVerified(
                ProofVerified {
                    proof_id: ev_proof_id,
                    registry,
                    query_commitment,
                    response_commitment,
                    merkle_root,
                    timestamp,
                    verified_at: now,
                },
            ),
        );

        proof {
            let m = old(self)@;
            let fm = self@;
            assert(forall|j: int| 0 <= j < m.records.len() ==> fm.records[j] == m.records[j]);
            assert forall|i: int, j: int|
                0 <= i < j < fm.records.len() implies (#[trigger] fm.records[i]).proof_id@ != (
            #[trigger] fm.records[j]).proof_id@ by {
                if j == fm.records.len() - 1 {
                    assert(m.records[i].proof_id@ != proof_id@);
                } else {
                    assert(fm.records[i] == m.records[i]);
                    assert(fm.records[j] == m.records[j]);
                }
            }
            assert forall|i: int, j: int|
                0 <= i < j < fm.registries.len() implies (#[trigger] fm.registries[i]).market_id@
                != (#[trigger] fm.registries[j]).market_id@ by {
                assert(fm.registries[i].market_id == m.registries[i].market_id);
                assert(fm.registries[j].market_id == m.registries[j].market_id);
            }
            assert forall|i: int, j: int|
                0 <= i < j < fm.batch_records.len() implies (#[trigger] fm.batch_records[i]).batch_id@
                != (#[trigger] fm.batch_records[j]).batch_id@ by {
                assert(fm.batch_records[i] == m.batch_records[i]);
                assert(fm.batch_records[j] == m.batch_records[j]);
            }
            assert forall|j: int|
                0 <= j < fm.registries.len() implies (#[trigger] fm.registries[j]).proof_count
                <= fm.records.len() by {
                if j != registry {
                    assert(fm.registries[j] == m.registries[j]);
                }
            }
            assert forall|k: int| 0 <= k < fm.records.len() implies (#[trigger] fm.records[k]).verified by {
                if k < m.records.len() {
                    assert(fm.records[k] == m.records[k]);
                }
            }
            assert forall|k: int|
                0 <= k < fm.batch_records.len() implies (#[trigger] fm.batch_records[k]).verified
                && fm.batch_records[k].proof_count <= MAX_BATCH_PROOFS by {
                if k < m.batch_records.len() {
                    assert(fm.batch_records[k] == m.batch_records[k]);
                }
            }
        }

        Ok(ki)
    }

    /// Verifies a set of proofs all-or-nothing: only when every member
    /// verifies is a single [`BatchRecord`] stored under the fresh
    /// `batch_id` and the event emitted; one bad proof rejects the whole
    /// set, leaving the store untouched — no batch record, no counter
    /// moved.  Fails exactly as [`spec_batch_verify_check`] says.
    pub fn batch_verify_proofs(
        &mut self,
        authority: AccountId,
        batch_id: String,
        proofs: Vec<ProofInput>,
        batch_merkle_root: [u8; 32],
        now: i64,
    ) -> (r: Result<usize, ErrorCode>)
        requires
            old(self)@.wf(),
        ensures
            final(self)@.wf(),
            r is Err <==> spec_batch_verify_check(old(self)@, batch_id@, proofs@) is Some,
            r matches Err(e) ==> Some(e) == spec_batch_verify_check(old(self)@, batch_id@, proofs@)
                && final(self)@ == old(self)@,
            r matches Ok(bi) ==> {
                let m = old(self)@;
                let fm = final(self)@;
                &&& bi == m.batch_records.len()
                &&& fm.batch_records.len() == m.batch_records.len() + 1
                &&& forall|j: int|
                    0 <= j < m.batch_records.len() ==> fm.batch_records[j] == m.batch_records[j]
                &&& fm.batch_records[bi as int].batch_id@ == batch_id@
                &&& fm.batch_records[bi as int].proof_count == proofs@.len()
                &&& fm.batch_records[bi as int].batch_merkle_root == batch_merkle_root
                &&& fm.batch_records[bi as int].verified
                &&& fm.batch_records[bi as int].verified_at == now
                &&& fm.batch_records[bi as int].authority == authority
                &&& fm.registries == m.registries
                &&& fm.records == m.records
                &&& fm.events.len() == m.events.len() + 1
                &&& forall|j: int| 0 <= j < m.events.len() ==> fm.events[j] == m.events[j]
                &&& (fm.events.last() matches VerifierEvent::BatchVerified(e) && e.batch_id@
                    == batch_id@ && e.proof_count == proofs@.len() && e.batch_merkle_root
                    == batch_merkle_root && e.verified_at == now)
            },
    {
        if self.batch_id_taken(&batch_id) {
            return Err(ErrorCode::RecordExists);
        }
        if proofs.len() > MAX_BATCH_PROOFS {
            return Err(ErrorCode::BatchTooLarge);
        }
        if proofs.len() == 0 {
            return Err(ErrorCode::EmptyBatch);
        }

        let n = proofs.len();
        let mut verified_count: usize = 0;
        for i in 0..n
            invariant
                self@ == old(self)@,
                self@.wf(),
                old(self)@.batch_id_free(batch_id@),
                n == proofs@.len(),
                0 < n <= MAX_BATCH_PROOFS,
                verified_count <= i,
                forall|j: int| 0 <= j < i ==> (#[trigger] proofs@[j]).proof_data@.len() >= MIN_PROOF_LEN,
                (verified_count == i) <==> (forall|j: int|
                    0 <= j < i ==> spec_proof_input_valid(#[trigger] proofs@[j])),
        {
            let p = &proofs[i];
            let is_valid = match verify_ultrahonk_proof(
                &p.query_commitment,
                &p.response_commitment,
                &p.merkle_root,
                &p.proof_data,
                &p.verification_key,
            ) {
                Err(e) => {
                    proof {
                        assert((#[trigger] proofs@[i as int]).proof_data@.len() < MIN_PROOF_LEN);
                    }
                    return Err(e);
                },
                Ok(v) => v,
            };
            proof {
                assert(is_valid == spec_proof_input_valid(proofs@[i as int]));
            }

            let ghost prior_verified = verified_count;
            if is_valid {
                verified_count = verified_count + 1;
            }
            proof {
                let gi = i as int;
                if verified_count == gi + 1 {
                    assert(prior_verified == gi);
                    assert forall|j: int| 0 <= j < gi + 1 implies spec_proof_input_valid(
                        #[trigger] proofs@[j],
                    ) by {
                        if j < gi {
                            assert(spec_proof_input_valid(proofs@[j]));
                        }
                    }
                } else {
                    if prior_verified == gi {
                        assert(!is_valid);
                        assert(!spec_proof_input_valid(proofs@[gi]));
                    } else {
                        let w = choose|w: int|
                            0 <= w < gi && !spec_proof_input_valid(#[trigger] proofs@[w]);
                        assert(!spec_proof_input_valid(proofs@[w]));
                    }
                }
            }
        }

        if verified_count != n {
            proof {
                let w = choose|w: int|
                    0 <= w < n && !spec_proof_input_valid(#[trigger] proofs@[w]);
                assert(!spec_proof_input_valid(proofs@[w]));
            }
            return Err(ErrorCode::BatchVerificationFailed);
        }

        let bi = self.batch_records.len();
        let ev_batch_id = batch_id.clone();
        let proof_count: u8 = n as u8;
        self.batch_records.push(
            BatchRecord {
                batch_id,
                proof_count,
                batch_merkle_root,
                verified: true,
                verified_at: now,
                authority,
            },
        );
        self.events.push(
            VerifierEvent::BatchVerified(
                BatchVerified {
                    batch_id: ev_batch_id,
                    proof_count,
                    batch_merkle_root,
                    verified_at: now,
                },
            ),
        );

        proof {
            let m = old(self)@;
            let fm = self@;
            assert(forall|j: int|
                0 <= j < m.batch_records.len() ==> fm.batch_records[j] == m.batch_records[j]);
            assert forall|i: int, j: int|
                0 <= i < j < fm.batch_records.len() implies (#[trigger] fm.batch_records[i]).batch_id@
                != (#[trigger] fm.batch_records[j]).batch_id@ by {
                if j == fm.batch_records.len() - 1 {
                    assert(m.batch_records[i].batch_id@ != batch_id@);
                } else {
                    assert(fm.batch_records[i] == m.batch_records[i]);
                    assert(fm.batch_records[j] == m.batch_records[j]);
                }
            }
            assert forall|i: int, j: int|
                0 <= i < j < fm.registries.len() implies (#[trigger] fm.registries[i]).market_id@
                != (#[trigger] fm.registries[j]).market_id@ by {
                assert(fm.registries[i] == m.registries[i]);
                assert(fm.registries[j] == m.registries[j]);
            }
            assert forall|i: int, j: int|
                0 <= i < j < fm.records.len() implies (#[trigger] fm.records[i]).proof_id@ != (
            #[trigger] fm.records[j]).proof_id@ by {
                assert(fm.records[i] == m.records[i]);
                assert(fm.records[j] == m.records[j]);
            }
            assert forall|j: int|
                0 <= j < fm.registries.len() implies (#[trigger] fm.registries[j]).proof_count
                <= fm.records.len() by {
                assert(fm.registries[j] == m.registries[j]);
            }
            assert forall|k: int| 0 <= k < fm.records.len() implies (#[trigger] fm.records[k]).verified by {
                if k < m.records.len() {
                    assert(fm.records[k] == m.records[k]);
                }
            }
            assert forall|k: int|
                0 <= k < fm.batch_records.len() implies (#[trigger] fm.batch_records[k]).verified
                && fm.batch_records[k].proof_count <= MAX_BATCH_PROOFS by {
                if k < m.batch_records.len() {
                    assert(fm.batch_records[k] == m.batch_records[k]);
                }
            }
        }

        Ok(bi)
    }

    /// Pure read of a proof record's verification flag, by id: no side
    /// effects; fails with [`ErrorCode::RecordMissing`] if no record
    /// exists under the id.  A stored record is always marked verified.
    pub fn check_verification(&self, proof_id: &String) -> (r: Result<bool, ErrorCode>)
        requires
            self@.wf(),
        ensures
            r is Ok <==> !self@.proof_id_free(proof_id@),
            r matches Ok(v) ==> v,
            r matches Err(e) ==> e == ErrorCode::RecordMissing,
    {
        let n = self.records.len();
        for k in 0..n
            invariant
                n == self.records.len(),
                self@.wf(),
                forall|j: int| 0 <= j < k ==> (#[trigger] self@.records[j]).proof_id@ != proof_id@,
        {
            if self.records[k].proof_id == *proof_id {
                return Ok(self.records[k].verified);
            }
        }
        Err(ErrorCode::RecordMissing)
    }

    /// Number of registries in the store.
    pub fn registry_count(&self) -> (n: usize)
        ensures
            n == self@.registries.len(),
    {
        self.registries.len()
    }

    /// The registry at store address `i`.
    pub fn registry(&self, i: usize) -> (g: &ProofRegistry)
        requires
            i < self@.registries.len(),
        ensures
            *g == self@.registries[i as int],
    {
        &self.registries[i]
    }

    /// Number of proof records in the store.
    pub fn record_count(&self) -> (n: usize)
        ensures
            n == self@.records.len(),
    {
        self.records.len()
    }

    /// The proof record at store address `k`.
    pub fn record(&self, k: usize) -> (p: &ProofRecord)
        requires
            k < self@.records.len(),
        ensures
            *p == self@.records[k as int],
    {
        &self.records[k]
    }

    /// Number of batch records in the store.
    pub fn batch_record_count(&self) -> (n: usize)
        ensures
            n == self@.batch_records.len(),
    {
        self.batch_records.len()
    }

    /// The batch record at store address `k`.
    pub fn batch_record(&self, k: usize) -> (p: &BatchRecord)
        requires
            k < self@.batch_records.len(),
        ensures
            *p == self@.batch_records[k as int],
    {
        &self.batch_records[k]
    }

    /// Number of emitted events.
    pub fn event_count(&self) -> (n: usize)
        ensures
            n == self@.events.len(),
    {
        self.events.len()
    }

    /// The event at position `i` of the log.
    pub fn event(&self, i: usize) -> (e: &VerifierEvent)
        requires
            i < self@.events.len(),
        ensures
            *e == self@.events[i as int],
    {
        &self.events[i]
    }
}

} // verus!
