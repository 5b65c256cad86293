//! The error taxonomy shared by the ledgers and the allocator.

use vstd::prelude::*;

verus! {

/// Why a ledger or allocator operation was refused.
///
/// Every error is detected before any state is touched: an operation that
/// returns an error leaves its receiver exactly as it found it.
#[derive(Clone, Copy, Debug, PartialEq, Eq)]
pub enum LedgerError {
    /// A supplied amount was zero or negative.
    InvalidAmount,
    /// Percentages handed to the allocator do not sum to exactly 100.
    InvalidSplit,
    /// No record exists under the given id.
    NotFound,
    /// Only the recorded owner may replace a split configuration.
    NotOwner,
    /// The split configuration was already set up.
    AlreadyInitialized,
    /// The split configuration was never set up.
    NotInitialized,
}

} // verus!
