//! The records the engine reasons over, and what it reads of the ledger's
//! assets and balances.

use crate::address::Address;
use vstd::prelude::*;

verus! {

/// The registration of a canonical asset.
#[derive(Clone, Copy, Debug, PartialEq, Eq)]
pub struct CanonicalData {
    /// Who may pair wrapped assets with this one, switch their directions,
    /// and hand this authority on.
    pub authority: Address,
    /// The canonical asset.
    pub mint: Address,
    /// The number of fractional digits of the canonical asset.
    pub decimals: u8,
    /// The bump seed with which the engine signs as the asset's derived mint
    /// authority.
    pub canonical_mint_authority_bump: u8,
}

/// The pairing of a wrapped asset with a canonical asset.
#[derive(Clone, Copy, Debug, PartialEq, Eq)]
pub struct WrappedData {
    /// Where the registration of the canonical asset is stored.
    pub canonical_data: Address,
    /// The wrapped asset.
    pub mint: Address,
    /// The number of fractional digits of the wrapped asset.
    pub decimals: u8,
    /// The bump seed with which the engine signs as the derived authority
    /// that owns the pair's custody account.
    pub wrapped_token_account_authority_bump: u8,
    /// Whether wrapped may be swapped for canonical.
    pub swap_wrapped_for_canonical_enabled: bool,
    /// Whether canonical may be swapped for wrapped.
    pub swap_canonical_for_wrapped_enabled: bool,
}

/// A record together with the address at which it is stored.
#[derive(Debug, PartialEq, Eq)]
pub struct Account<T> {
    pub key: Address,
    pub data: T,
}

impl<T: Copy> Clone for Account<T> {
    fn clone(&self) -> (r: Self)
        ensures
            r == *self,
    {
        *self
    }
}

impl<T: Copy> Copy for Account<T> {

}

/// What the engine reads of an asset of the ledger.
#[derive(Clone, Copy, Debug, PartialEq, Eq)]
pub struct Mint {
    /// The asset.
    pub key: Address,
    /// The number of fractional digits of its amounts.
    pub decimals: u8,
}

/// What the engine reads of a balance of the ledger.
#[derive(Clone, Copy, Debug, PartialEq, Eq)]
pub struct TokenAccount {
    /// The balance.
    pub key: Address,
    /// The asset that the balance holds.
    pub mint: Address,
}

} // verus!
