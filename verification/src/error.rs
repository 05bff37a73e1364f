//! The failures an operation of the engine can report.

use vstd::prelude::*;

verus! {

/// Why an operation was rejected. Every failure is returned to the caller;
/// none is retried or swallowed.
#[derive(Clone, Copy, Debug, PartialEq, Eq, Structural)]
pub enum SwapError {
    /// The caller is not the authority that the operation demands.
    Unauthorized,
    /// A referenced balance or asset is not the one the records name.
    AssetMismatch,
    /// The registration or pairing to create is already there.
    AlreadyExists,
    /// A referenced registration or pairing does not exist.
    NotFound,
    /// The swap direction asked for is switched off.
    DirectionDisabled,
    /// The converted amount does not fit in 64 bits.
    AmountOverflow,
    /// The token ledger rejected a debit, credit, mint or burn.
    LedgerFailure,
}

} // verus!
