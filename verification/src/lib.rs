//! A family-finance ledger suite: bill payments, insurance policies and
//! savings goals, each an obligation ledger with incrementally cached
//! aggregates, together with a deterministic percentage allocator that
//! splits a remittance into category amounts summing exactly to the input.
//!
//! Every ledger keeps its records under ids issued by a monotonically
//! increasing sequence, flips each record's state at most once on
//! settlement, and maintains derived counts and totals that are proved to
//! stay consistent with the record store after every operation.

pub mod aggregate;
pub mod bills;
pub mod errors;
pub mod insurance;
pub mod savings;
pub mod split;
