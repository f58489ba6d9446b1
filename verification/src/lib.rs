//! A ledger transaction processor.
//!
//! The crate validates externally submitted, signed transactions and applies
//! deterministic state transitions to a ledger snapshot. Three transaction
//! kinds are supported: transferring currency between portfolios, issuing
//! currency into a global ledger, and creating a portfolio for an identity.
//! Every accepted transaction leaves exactly one audit timestamp keyed by the
//! transaction's content hash.
//!
//! Consensus, persistent storage, networking and wire framing are the
//! surrounding system's concern: this crate consumes plain values (a ledger
//! snapshot, a ledger-agreed time, a signed transaction record) and produces
//! a deterministic accept/reject decision together with the new snapshot.

pub mod errors;
pub mod execute;
pub mod laws;
pub mod state;
pub mod types;
