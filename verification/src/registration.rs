//! Registering a canonical asset, and pairing a wrapped asset with it.
//!
//! Registering hands the right to mint the canonical asset from its holder to
//! the derived mint authority. Pairing hands the ownership of the pair's
//! custody account to the derived custody authority. Either returns the
//! record to store and the one call to make on the ledger.

use crate::address::Address;
use crate::authority::{
    derive_authority, derived, derives_to, is_derived_address, DerivedAuthority, SeedClass,
};
use crate::error::SwapError;
use crate::ledger::{AuthorityType, LedgerCall};
use crate::records::{Account, CanonicalData, Mint, WrappedData};
use vstd::prelude::*;

verus! {

/// A new record, and the call that installs the derived authority it relies
/// on.
#[derive(Debug, PartialEq, Eq)]
pub struct Registered<T> {
    /// The record to store.
    pub data: T,
    /// The call to make on the ledger.
    pub install_authority: LedgerCall,
}

impl<T: Copy> Clone for Registered<T> {
    fn clone(&self) -> (r: Self)
        ensures
            r == *self,
    {
        *self
    }
}

impl<T: Copy> Copy for Registered<T> {

}

/// What the registration of a canonical asset is given.
#[derive(Clone, Copy, Debug, PartialEq, Eq)]
pub struct InitializeCanonicalToken {
    /// The caller, who holds the right to mint the canonical asset and
    /// becomes the control authority of the registration.
    pub initializer: Address,
    /// The canonical asset.
    pub canonical_mint: Mint,
    /// The derived authority that the right to mint goes to.
    pub pda_canonical_mint_authority: Address,
}

impl InitializeCanonicalToken {
    /// The class of the authority that will mint the canonical asset.
    pub open spec fn mint_authority_class(self) -> SeedClass {
        SeedClass::MintAuthority { canonical_mint: self.canonical_mint.key }
    }

    /// What registering comes to, where `mint_authority` is what the class of
    /// the mint authority derives to.
    ///
    /// It is rejected with `AssetMismatch` unless the address given for the
    /// mint authority is the derived one. Otherwise the registration names
    /// the caller as control authority and takes the precision from the
    /// asset, and the right to mint goes from the caller to the derived
    /// authority.
    pub open spec fn outcome(self, mint_authority: Option<DerivedAuthority>) -> Result<
        Registered<CanonicalData>,
        SwapError,
    > {
        if !derives_to(mint_authority, self.pda_canonical_mint_authority) {
            Err(SwapError::AssetMismatch)
        } else {
            Ok(
                Registered {
                    data: CanonicalData {
                        authority: self.initializer,
                        mint: self.canonical_mint.key,
                        decimals: self.canonical_mint.decimals,
                        canonical_mint_authority_bump: mint_authority->Some_0.bump,
                    },
                    install_authority: LedgerCall::SetAuthority {
                        account_or_mint: self.canonical_mint.key,
                        authority_type: AuthorityType::MintTokens,
                        current_authority: self.initializer,
                        new_authority: self.pda_canonical_mint_authority,
                    },
                },
            )
        }
    }
}

/// Registers a canonical asset, given what the class of its mint authority
/// derives to.
pub fn initialize_canonical_token_with(
    ctx: &InitializeCanonicalToken,
    mint_authority: &Option<DerivedAuthority>,
) -> (r: Result<Registered<CanonicalData>, SwapError>)
    ensures
        r == ctx.outcome(*mint_authority),
{
    if !is_derived_address(mint_authority, &ctx.pda_canonical_mint_authority) {
        return Err(SwapError::AssetMismatch);
    }
    match mint_authority {
        Some(found) => Ok(
            Registered {
                data: CanonicalData {
                    authority: ctx.initializer,
                    mint: ctx.canonical_mint.key,
                    decimals: ctx.canonical_mint.decimals,
                    canonical_mint_authority_bump: found.bump,
                },
                install_authority: LedgerCall::SetAuthority {
                    account_or_mint: ctx.canonical_mint.key,
                    authority_type: AuthorityType::MintTokens,
                    current_authority: ctx.initializer,
                    new_authority: ctx.pda_canonical_mint_authority,
                },
            },
        ),
        None => Err(SwapError::AssetMismatch),
    }
}

/// Registers a canonical asset under the engine `program_id`: the caller
/// becomes its control authority, and the right to mint it goes to the
/// derived mint authority.
pub fn initialize_canonical_token(ctx: &InitializeCanonicalToken, program_id: &Address) -> (r:
    Result<Registered<CanonicalData>, SwapError>)
    ensures
        r == ctx.outcome(derived(ctx.mint_authority_class().seeds(), *program_id)),
{
    let mint_authority = derive_authority(
        &SeedClass::MintAuthority { canonical_mint: ctx.canonical_mint.key },
        program_id,
    );
    initialize_canonical_token_with(ctx, &mint_authority)
}

/// What the pairing of a wrapped asset is given.
#[derive(Clone, Copy, Debug, PartialEq, Eq)]
pub struct InitializeWrappedToken {
    /// The caller, who has to be the control authority of the registration
    /// and owns the custody account until it is handed over.
    pub current_authority: Address,
    /// The wrapped asset.
    pub wrapped_token_mint: Mint,
    /// The custody account of the pair.
    pub pda_wrapped_token_account: Address,
    /// The derived authority that the custody account goes to.
    pub pda_wrapped_token_account_authority: Address,
    /// The registration of the canonical asset.
    pub canonical_data: Account<CanonicalData>,
}

impl InitializeWrappedToken {
    /// The class of the pair's custody account.
    pub open spec fn custody_account_class(self) -> SeedClass {
        SeedClass::CustodyAccount {
            canonical_mint: self.canonical_data.data.mint,
            wrapped_mint: self.wrapped_token_mint.key,
        }
    }

    /// The class of the authority that will own the pair's custody account.
    pub open spec fn custody_authority_class(self) -> SeedClass {
        SeedClass::CustodyAuthority {
            canonical_mint: self.canonical_data.data.mint,
            wrapped_mint: self.wrapped_token_mint.key,
        }
    }

    /// What pairing comes to, where `custody_account` and `custody_authority`
    /// are what the two classes derive to.
    ///
    /// It is rejected with `Unauthorized` unless the caller is the control
    /// authority of the registration; else with `AssetMismatch` unless the
    /// addresses given for the custody account and its authority are the
    /// derived ones. Otherwise the pairing refers to the registration, takes
    /// the precision from the wrapped asset and permits both directions, and
    /// the custody account goes from the caller to the derived authority.
    pub open spec fn outcome(
        self,
        custody_account: Option<DerivedAuthority>,
        custody_authority: Option<DerivedAuthority>,
    ) -> Result<Registered<WrappedData>, SwapError> {
        if self.canonical_data.data.authority != self.current_authority {
            Err(SwapError::Unauthorized)
        } else if !derives_to(custody_account, self.pda_wrapped_token_account) || !derives_to(
            custody_authority,
            self.pda_wrapped_token_account_authority,
        ) {
            Err(SwapError::AssetMismatch)
        } else {
            Ok(
                Registered {
                    data: WrappedData {
                        canonical_data: self.canonical_data.key,
                        mint: self.wrapped_token_mint.key,
                        decimals: self.wrapped_token_mint.decimals,
                        wrapped_token_account_authority_bump: custody_authority->Some_0.bump,
                        swap_wrapped_for_canonical_enabled: true,
                        swap_canonical_for_wrapped_enabled: true,
                    },
                    install_authority: LedgerCall::SetAuthority {
                        account_or_mint: self.pda_wrapped_token_account,
                        authority_type: AuthorityType::AccountOwner,
                        current_authority: self.current_authority,
                        new_authority: self.pda_wrapped_token_account_authority,
                    },
                },
            )
        }
    }
}

/// Pairs a wrapped asset with a registered canonical asset, given what the
/// classes of the custody account and of its authority derive to.
pub fn initialize_wrapped_token_with(
    ctx: &InitializeWrappedToken,
    custody_account: &Option<DerivedAuthority>,
    custody_authority: &Option<DerivedAuthority>,
) -> (r: Result<Registered<WrappedData>, SwapError>)
    ensures
        r == ctx.outcome(*custody_account, *custody_authority),
        ctx.current_authority != ctx.canonical_data.data.authority ==> r == Err::<
            Registered<WrappedData>,
            SwapError,
        >(SwapError::Unauthorized),
{
    if ctx.canonical_data.data.authority != ctx.current_authority {
        return Err(SwapError::Unauthorized);
    }
    if !is_derived_address(custody_account, &ctx.pda_wrapped_token_account)
        || !is_derived_address(custody_authority, &ctx.pda_wrapped_token_account_authority) {
        return Err(SwapError::AssetMismatch);
    }
    match custody_authority {
        Some(found) => Ok(
            Registered {
                data: WrappedData {
                    canonical_data: ctx.canonical_data.key,
                    mint: ctx.wrapped_token_mint.key,
                    decimals: ctx.wrapped_token_mint.decimals,
                    wrapped_token_account_authority_bump: found.bump,
                    swap_wrapped_for_canonical_enabled: true,
                    swap_canonical_for_wrapped_enabled: true,
                },
                install_authority: LedgerCall::SetAuthority {
                    account_or_mint: ctx.pda_wrapped_token_account,
                    authority_type: AuthorityType::AccountOwner,
                    current_authority: ctx.current_authority,
                    new_authority: ctx.pda_wrapped_token_account_authority,
                },
            },
        ),
        None => Err(SwapError::AssetMismatch),
    }
}

/// Pairs a wrapped asset with a registered canonical asset under the engine
/// `program_id`. Only the control authority of the registration may do so.
/// Both swap directions start out permitted, and the custody account goes to
/// the derived custody authority.
pub fn initialize_wrapped_token(ctx: &InitializeWrappedToken, program_id: &Address) -> (r: Result<
    Registered<WrappedData>,
    SwapError,
>)
    ensures
        r == ctx.outcome(
            derived(ctx.custody_account_class().seeds(), *program_id),
            derived(ctx.custody_authority_class().seeds(), *program_id),
        ),
        ctx.current_authority != ctx.canonical_data.data.authority ==> r == Err::<
            Registered<WrappedData>,
            SwapError,
        >(SwapError::Unauthorized),
{
    let custody_account = derive_authority(
        &SeedClass::CustodyAccount {
            canonical_mint: ctx.canonical_data.data.mint,
            wrapped_mint: ctx.wrapped_token_mint.key,
        },
        program_id,
    );
    let custody_authority = derive_authority(
        &SeedClass::CustodyAuthority {
            canonical_mint: ctx.canonical_data.data.mint,
            wrapped_mint: ctx.wrapped_token_mint.key,
        },
        program_id,
    );
    initialize_wrapped_token_with(ctx, &custody_account, &custody_authority)
}

} // verus!
