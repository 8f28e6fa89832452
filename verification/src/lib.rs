//! A verified model of a confidential batch-settlement system.
//!
//! Participants submit encrypted trade orders; a coordinator aggregates them
//! into bounded batches, delegates the confidential arithmetic to an external
//! multi-party computation service, and advances public state only when an
//! authenticated callback arrives.  A separate registry verifies
//! externally generated proofs against the commitments recorded on the way.
//!
//! The crate is split along the system's trust boundary:
//!
//! * [`aggregator`] — the arithmetic that runs inside the confidential
//!   computation: commitment digests, the running root, and the final
//!   revealed totals.
//! * [`trading`] — the public batch lifecycle (`Open → Closed → Executed →
//!   Verified`), the order ledger, and the request/callback coordinator,
//!   modelled over an explicit keyed store and correlation table.
//! * [`zk_verifier`] — the proof-verification registry, with single and
//!   all-or-nothing batched verification.

pub mod aggregator;
pub mod trading;
pub mod zk_verifier;
