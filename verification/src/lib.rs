//! Provenance-tracking ledger for shellfish supply-chain batches.
//!
//! Each harvested batch moves through a forward-only lifecycle,
//! Harvested -> Processed -> Distributed, advanced exactly once per stage
//! and only by the identity bound to the batch at creation. Batch
//! identifiers come from a singleton sequence counter, so the identifiers
//! of the first `n` batches are exactly `0 .. n`.

pub mod batch;
pub mod errors;
pub mod laws;
pub mod ledger;
