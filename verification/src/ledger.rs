//! The engine's side of the token ledger.
//!
//! The ledger is not part of the engine. An operation of the engine returns
//! the calls that have to be made on the ledger, in order; whoever runs the
//! engine makes them and reports back what the ledger answered. The ledger
//! applies all calls of one operation or none.

use crate::address::Address;
use crate::authority::SeedClass;
use crate::error::SwapError;
use vstd::prelude::*;

verus! {

/// Which right over an asset or a balance a call reassigns.
#[derive(Clone, Copy, Debug, PartialEq, Eq)]
pub enum AuthorityType {
    /// The right to mint an asset.
    MintTokens,
    /// The ownership of a balance.
    AccountOwner,
}

/// Who authorizes a call on the ledger.
#[derive(Clone, Copy, Debug, PartialEq, Eq)]
pub enum Authorization {
    /// The caller of the operation, who signed for it.
    Signer { key: Address },
    /// The engine itself, acting as the address `key` derived for `class`;
    /// it signs with the seeds of the class and `bump`.
    Derived { key: Address, class: SeedClass, bump: u8 },
}

/// A call on the token ledger.
#[derive(Clone, Copy, Debug, PartialEq, Eq)]
pub enum LedgerCall {
    /// Debit `amount` from the balance `from` and credit it to the balance `to`.
    Transfer { from: Address, to: Address, authority: Authorization, amount: u64 },
    /// Mint `amount` of the asset `mint` into the balance `to`.
    MintTo { mint: Address, to: Address, authority: Authorization, amount: u64 },
    /// Burn `amount` of the asset `mint` from the balance `from`.
    Burn { mint: Address, from: Address, authority: Authorization, amount: u64 },
    /// Hand the right `authority_type` over `account_or_mint` from
    /// `current_authority` to `new_authority`.
    SetAuthority {
        account_or_mint: Address,
        authority_type: AuthorityType,
        current_authority: Address,
        new_authority: Address,
    },
}

impl LedgerCall {
    /// The amount that the call moves; none for a change of authority.
    pub open spec fn amount(self) -> Option<u64> {
        match self {
            LedgerCall::Transfer { amount, .. } => Some(amount),
            LedgerCall::MintTo { amount, .. } => Some(amount),
            LedgerCall::Burn { amount, .. } => Some(amount),
            LedgerCall::SetAuthority { .. } => None,
        }
    }
}

/// What the ledger answered to one call.
#[derive(Clone, Copy, Debug, PartialEq, Eq, Structural)]
pub enum LedgerOutcome {
    Accepted,
    Rejected,
}

/// What has to happen next in an operation that is being carried out.
#[derive(Clone, Copy, Debug, PartialEq, Eq)]
pub enum Step {
    /// This call has to be made on the ledger.
    Perform(LedgerCall),
    /// Nothing is left to do; the operation ended so.
    Finished(Result<(), SwapError>),
}

/// The step that follows when the first calls of `calls` were made, in order,
/// and the ledger answered with `outcomes`.
///
/// A rejected call ends the operation with `LedgerFailure`, and no later call
/// is made. Otherwise the next call is due; when all were accepted the
/// operation succeeded.
pub open spec fn step_after(calls: Seq<LedgerCall>, outcomes: Seq<LedgerOutcome>) -> Step {
    if outcomes.contains(LedgerOutcome::Rejected) {
        Step::Finished(Err(SwapError::LedgerFailure))
    } else if outcomes.len() < calls.len() {
        Step::Perform(calls[outcomes.len() as int])
    } else {
        Step::Finished(Ok(()))
    }
}

/// Decides what follows when the first calls of `calls` were made, in order,
/// and the ledger answered with `outcomes`.
pub fn next_step(calls: &Vec<LedgerCall>, outcomes: &Vec<LedgerOutcome>) -> (r: Step)
    ensures
        r == step_after(calls@, outcomes@),
{
    let mut seen: usize = 0;
    while seen < outcomes.len()
        invariant
            seen <= outcomes.len(),
            forall|i: int| 0 <= i < seen ==> outcomes@[i] != LedgerOutcome::Rejected,
        decreases outcomes.len() - seen,
    {
        if outcomes[seen] == LedgerOutcome::Rejected {
            assert(outcomes@.contains(LedgerOutcome::Rejected));
            return Step::Finished(Err(SwapError::LedgerFailure));
        }
        seen = seen + 1;
    }
    if outcomes.len() < calls.len() {
        Step::Perform(calls[outcomes.len()])
    } else {
        Step::Finished(Ok(()))
    }
}

} // verus!
