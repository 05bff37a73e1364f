//! The two swap directions.
//!
//! A swap converts the requested amount, checks that it is permitted and that
//! every record, asset and balance it was given belongs together, and then
//! names the two calls to make on the ledger: first the debit of what the
//! caller gives, then the credit of what the caller gets. The amount moved on
//! the side that the request is stated in is the amount recomputed by the
//! conversion, never the raw request.

use crate::address::Address;
use crate::authority::{
    derive_authority, derived, derives_to, is_derived_address, DerivedAuthority, SeedClass,
};
use crate::decimals::{
    conversion, convert, lemma_conversion_conserves_value, lemma_equal_precision_is_exact,
    lemma_round_trip_does_not_inflate, pow10, Conversion,
};
use crate::error::SwapError;
use crate::ledger::{Authorization, LedgerCall};
use crate::records::{Account, CanonicalData, Mint, TokenAccount, WrappedData};
use vstd::prelude::*;

verus! {

/// The ledger calls of a swap, in the order in which they are made.
#[derive(Clone, Copy, Debug, PartialEq, Eq)]
pub struct Swap {
    /// Takes from the caller what the caller gives.
    pub debit: LedgerCall,
    /// Gives the caller what the caller gets.
    pub credit: LedgerCall,
}

impl Swap {
    /// The calls of the swap, in order.
    pub fn calls(&self) -> (r: Vec<LedgerCall>)
        ensures
            r@ == seq![self.debit, self.credit],
    {
        let mut calls: Vec<LedgerCall> = Vec::new();
        calls.push(self.debit);
        calls.push(self.credit);
        assert(calls@ =~= seq![self.debit, self.credit]);
        calls
    }
}

/// What a swap of wrapped for canonical is given.
#[derive(Clone, Copy, Debug, PartialEq, Eq)]
pub struct SwapWrappedForCanonical {
    /// The caller, who owns the wrapped balance.
    pub user: Address,
    /// The balance that receives the minted canonical amount.
    pub destination_canonical_token_account: TokenAccount,
    /// The canonical asset.
    pub canonical_mint: Mint,
    /// The derived authority that mints the canonical asset.
    pub pda_canonical_mint_authority: Address,
    /// The caller's balance that the wrapped amount is taken from.
    pub source_wrapped_token_account: TokenAccount,
    /// The custody account of the pair.
    pub wrapped_token_account: TokenAccount,
    /// The registration of the canonical asset.
    pub canonical_data: Account<CanonicalData>,
    /// The pairing of the wrapped asset with it.
    pub wrapped_data: Account<WrappedData>,
}

impl SwapWrappedForCanonical {
    /// The class of the authority that mints the canonical asset.
    pub open spec fn mint_authority_class(self) -> SeedClass {
        SeedClass::MintAuthority { canonical_mint: self.canonical_mint.key }
    }

    /// The class of the pair's custody account.
    pub open spec fn custody_account_class(self) -> SeedClass {
        SeedClass::CustodyAccount {
            canonical_mint: self.canonical_data.data.mint,
            wrapped_mint: self.wrapped_data.data.mint,
        }
    }

    /// Whether the canonical asset and every balance are those that the
    /// registration and the pairing name, and the mint authority and the
    /// custody account are the derived ones.
    pub open spec fn assets_match(
        self,
        mint_authority: Option<DerivedAuthority>,
        custody_account: Option<DerivedAuthority>,
    ) -> bool {
        &&& self.canonical_data.data.mint == self.canonical_mint.key
        &&& self.canonical_data.data.mint == self.destination_canonical_token_account.mint
        &&& self.wrapped_data.data.mint == self.source_wrapped_token_account.mint
        &&& self.wrapped_data.data.mint == self.wrapped_token_account.mint
        &&& derives_to(mint_authority, self.pda_canonical_mint_authority)
        &&& derives_to(custody_account, self.wrapped_token_account.key)
    }

    /// The calls of the swap for a conversion of the request.
    pub open spec fn settle(self, amounts: Conversion) -> Swap {
        Swap {
            debit: LedgerCall::Transfer {
                from: self.source_wrapped_token_account.key,
                to: self.wrapped_token_account.key,
                authority: Authorization::Signer { key: self.user },
                amount: amounts.converted_amount,
            },
            credit: LedgerCall::MintTo {
                mint: self.canonical_mint.key,
                to: self.destination_canonical_token_account.key,
                authority: Authorization::Derived {
                    key: self.pda_canonical_mint_authority,
                    class: self.mint_authority_class(),
                    bump: self.canonical_data.data.canonical_mint_authority_bump,
                },
                amount: amounts.recomputed_source_amount,
            },
        }
    }

    /// What a swap of wrapped for `canonical_amount` of canonical comes to,
    /// where `mint_authority` and `custody_account` are what the two classes
    /// derive to.
    ///
    /// It is rejected with `DirectionDisabled` when the direction is switched
    /// off; else with `NotFound` when the pairing belongs to another
    /// registration; else with `AssetMismatch` when an asset, a balance or a
    /// derived address is not the one that the records name; else with
    /// `AmountOverflow` when the wrapped amount does not fit. Otherwise the
    /// wrapped amount is moved from the caller into custody and the recomputed
    /// canonical amount is minted.
    pub open spec fn outcome(
        self,
        canonical_amount: u64,
        mint_authority: Option<DerivedAuthority>,
        custody_account: Option<DerivedAuthority>,
    ) -> Result<Swap, SwapError> {
        if !self.wrapped_data.data.swap_wrapped_for_canonical_enabled {
            Err(SwapError::DirectionDisabled)
        } else if self.wrapped_data.data.canonical_data != self.canonical_data.key {
            Err(SwapError::NotFound)
        } else if !self.assets_match(mint_authority, custody_account) {
            Err(SwapError::AssetMismatch)
        } else {
            match conversion(
                canonical_amount,
                self.canonical_data.data.decimals,
                self.wrapped_data.data.decimals,
            ) {
                Ok(amounts) => Ok(self.settle(amounts)),
                Err(error) => Err(error),
            }
        }
    }
}

/// Swaps wrapped for canonical, given what the mint authority's class and the
/// custody account's class derive to.
pub fn swap_wrapped_for_canonical_with(
    ctx: &SwapWrappedForCanonical,
    canonical_amount: u64,
    mint_authority: &Option<DerivedAuthority>,
    custody_account: &Option<DerivedAuthority>,
) -> (r: Result<Swap, SwapError>)
    ensures
        r == ctx.outcome(canonical_amount, *mint_authority, *custody_account),
        !ctx.wrapped_data.data.swap_wrapped_for_canonical_enabled ==> r == Err::<Swap, SwapError>(
            SwapError::DirectionDisabled,
        ),
        r is Ok && ctx.canonical_data.data.decimals == ctx.wrapped_data.data.decimals ==> {
            &&& r->Ok_0.debit.amount() == Some(canonical_amount)
            &&& r->Ok_0.credit.amount() == Some(canonical_amount)
        },
{
    if !ctx.wrapped_data.data.swap_wrapped_for_canonical_enabled {
        return Err(SwapError::DirectionDisabled);
    }
    if ctx.wrapped_data.data.canonical_data != ctx.canonical_data.key {
        return Err(SwapError::NotFound);
    }
    if ctx.canonical_data.data.mint != ctx.canonical_mint.key
        || ctx.canonical_data.data.mint != ctx.destination_canonical_token_account.mint
        || ctx.wrapped_data.data.mint != ctx.source_wrapped_token_account.mint
        || ctx.wrapped_data.data.mint != ctx.wrapped_token_account.mint
        || !is_derived_address(mint_authority, &ctx.pda_canonical_mint_authority)
        || !is_derived_address(custody_account, &ctx.wrapped_token_account.key) {
        return Err(SwapError::AssetMismatch);
    }
    proof {
        lemma_equal_precision_is_exact(canonical_amount, ctx.canonical_data.data.decimals);
    }
    let amounts = convert(
        canonical_amount,
        ctx.canonical_data.data.decimals,
        ctx.wrapped_data.data.decimals,
    )?;
    Ok(
        Swap {
            debit: LedgerCall::Transfer {
                from: ctx.source_wrapped_token_account.key,
                to: ctx.wrapped_token_account.key,
                authority: Authorization::Signer { key: ctx.user },
                amount: amounts.converted_amount,
            },
            credit: LedgerCall::MintTo {
                mint: ctx.canonical_mint.key,
                to: ctx.destination_canonical_token_account.key,
                authority: Authorization::Derived {
                    key: ctx.pda_canonical_mint_authority,
                    class: SeedClass::MintAuthority { canonical_mint: ctx.canonical_mint.key },
                    bump: ctx.canonical_data.data.canonical_mint_authority_bump,
                },
                amount: amounts.recomputed_source_amount,
            },
        },
    )
}

/// Swaps wrapped for `canonical_amount` of canonical: moves the converted
/// wrapped amount from the caller's balance into custody, then mints the
/// recomputed canonical amount into the destination balance as the derived
/// mint authority of the engine `program_id`.
pub fn swap_wrapped_for_canonical(
    ctx: &SwapWrappedForCanonical,
    program_id: &Address,
    canonical_amount: u64,
) -> (r: Result<Swap, SwapError>)
    ensures
        r == ctx.outcome(
            canonical_amount,
            derived(ctx.mint_authority_class().seeds(), *program_id),
            derived(ctx.custody_account_class().seeds(), *program_id),
        ),
        !ctx.wrapped_data.data.swap_wrapped_for_canonical_enabled ==> r == Err::<Swap, SwapError>(
            SwapError::DirectionDisabled,
        ),
        r is Ok && ctx.canonical_data.data.decimals == ctx.wrapped_data.data.decimals ==> {
            &&& r->Ok_0.debit.amount() == Some(canonical_amount)
            &&& r->Ok_0.credit.amount() == Some(canonical_amount)
        },
{
    let mint_authority = derive_authority(
        &SeedClass::MintAuthority { canonical_mint: ctx.canonical_mint.key },
        program_id,
    );
    let custody_account = derive_authority(
        &SeedClass::CustodyAccount {
            canonical_mint: ctx.canonical_data.data.mint,
            wrapped_mint: ctx.wrapped_data.data.mint,
        },
        program_id,
    );
    swap_wrapped_for_canonical_with(ctx, canonical_amount, &mint_authority, &custody_account)
}

/// What a swap of canonical for wrapped is given.
#[derive(Clone, Copy, Debug, PartialEq, Eq)]
pub struct SwapCanonicalForWrapped {
    /// The caller, who owns the canonical balance.
    pub user: Address,
    /// The caller's balance that the canonical amount is burnt from.
    pub source_canonical_token_account: TokenAccount,
    /// The canonical asset.
    pub canonical_mint: Mint,
    /// The balance that receives the released wrapped amount.
    pub destination_wrapped_token_account: TokenAccount,
    /// The custody account of the pair.
    pub wrapped_token_account: TokenAccount,
    /// The derived authority that owns the custody account.
    pub pda_wrapped_token_authority: Address,
    /// The registration of the canonical asset.
    pub canonical_data: Account<CanonicalData>,
    /// The pairing of the wrapped asset with it.
    pub wrapped_data: Account<WrappedData>,
}

impl SwapCanonicalForWrapped {
    /// The class of the pair's custody account.
    pub open spec fn custody_account_class(self) -> SeedClass {
        SeedClass::CustodyAccount {
            canonical_mint: self.canonical_data.data.mint,
            wrapped_mint: self.wrapped_data.data.mint,
        }
    }

    /// The class of the authority that owns the pair's custody account.
    pub open spec fn custody_authority_class(self) -> SeedClass {
        SeedClass::CustodyAuthority {
            canonical_mint: self.canonical_data.data.mint,
            wrapped_mint: self.wrapped_data.data.mint,
        }
    }

    /// Whether the canonical asset and every balance are those that the
    /// registration and the pairing name, and the custody account and its
    /// authority are the derived ones.
    pub open spec fn assets_match(
        self,
        custody_account: Option<DerivedAuthority>,
        custody_authority: Option<DerivedAuthority>,
    ) -> bool {
        &&& self.canonical_data.data.mint == self.canonical_mint.key
        &&& self.canonical_data.data.mint == self.source_canonical_token_account.mint
        &&& self.wrapped_data.data.mint == self.wrapped_token_account.mint
        &&& self.wrapped_data.data.mint == self.destination_wrapped_token_account.mint
        &&& derives_to(custody_account, self.wrapped_token_account.key)
        &&& derives_to(custody_authority, self.pda_wrapped_token_authority)
    }

    /// The calls of the swap for a conversion of the request.
    pub open spec fn settle(self, amounts: Conversion) -> Swap {
        Swap {
            debit: LedgerCall::Burn {
                mint: self.canonical_mint.key,
                from: self.source_canonical_token_account.key,
                authority: Authorization::Signer { key: self.user },
                amount: amounts.converted_amount,
            },
            credit: LedgerCall::Transfer {
                from: self.wrapped_token_account.key,
                to: self.destination_wrapped_token_account.key,
                authority: Authorization::Derived {
                    key: self.pda_wrapped_token_authority,
                    class: self.custody_authority_class(),
                    bump: self.wrapped_data.data.wrapped_token_account_authority_bump,
                },
                amount: amounts.recomputed_source_amount,
            },
        }
    }

    /// What a swap of canonical for `wrapped_amount` of wrapped comes to,
    /// where `custody_account` and `custody_authority` are what the two
    /// classes derive to.
    ///
    /// It is rejected with `DirectionDisabled` when the direction is switched
    /// off; else with `NotFound` when the pairing belongs to another
    /// registration; else with `AssetMismatch` when an asset, a balance or a
    /// derived address is not the one that the records name; else with
    /// `AmountOverflow` when the canonical amount does not fit. Otherwise the
    /// canonical amount is burnt from the caller's balance and the recomputed
    /// wrapped amount is released from custody.
    pub open spec fn outcome(
        self,
        wrapped_amount: u64,
        custody_account: Option<DerivedAuthority>,
        custody_authority: Option<DerivedAuthority>,
    ) -> Result<Swap, SwapError> {
        if !self.wrapped_data.data.swap_canonical_for_wrapped_enabled {
            Err(SwapError::DirectionDisabled)
        } else if self.wrapped_data.data.canonical_data != self.canonical_data.key {
            Err(SwapError::NotFound)
        } else if !self.assets_match(custody_account, custody_authority) {
            Err(SwapError::AssetMismatch)
        } else {
            match conversion(
                wrapped_amount,
                self.wrapped_data.data.decimals,
                self.canonical_data.data.decimals,
            ) {
                Ok(amounts) => Ok(self.settle(amounts)),
                Err(error) => Err(error),
            }
        }
    }
}

/// Swaps canonical for wrapped, given what the custody account's class and
/// the custody authority's class derive to.
pub fn swap_canonical_for_wrapped_with(
    ctx: &SwapCanonicalForWrapped,
    wrapped_amount: u64,
    custody_account: &Option<DerivedAuthority>,
    custody_authority: &Option<DerivedAuthority>,
) -> (r: Result<Swap, SwapError>)
    ensures
        r == ctx.outcome(wrapped_amount, *custody_account, *custody_authority),
        !ctx.wrapped_data.data.swap_canonical_for_wrapped_enabled ==> r == Err::<Swap, SwapError>(
            SwapError::DirectionDisabled,
        ),
        r is Ok && ctx.canonical_data.data.decimals == ctx.wrapped_data.data.decimals ==> {
            &&& r->Ok_0.debit.amount() == Some(wrapped_amount)
            &&& r->Ok_0.credit.amount() == Some(wrapped_amount)
        },
{
    if !ctx.wrapped_data.data.swap_canonical_for_wrapped_enabled {
        return Err(SwapError::DirectionDisabled);
    }
    if ctx.wrapped_data.data.canonical_data != ctx.canonical_data.key {
        return Err(SwapError::NotFound);
    }
    if ctx.canonical_data.data.mint != ctx.canonical_mint.key
        || ctx.canonical_data.data.mint != ctx.source_canonical_token_account.mint
        || ctx.wrapped_data.data.mint != ctx.wrapped_token_account.mint
        || ctx.wrapped_data.data.mint != ctx.destination_wrapped_token_account.mint
        || !is_derived_address(custody_account, &ctx.wrapped_token_account.key)
        || !is_derived_address(custody_authority, &ctx.pda_wrapped_token_authority) {
        return Err(SwapError::AssetMismatch);
    }
    proof {
        lemma_equal_precision_is_exact(wrapped_amount, ctx.wrapped_data.data.decimals);
    }
    let amounts = convert(
        wrapped_amount,
        ctx.wrapped_data.data.decimals,
        ctx.canonical_data.data.decimals,
    )?;
    Ok(
        Swap {
            debit: LedgerCall::Burn {
                mint: ctx.canonical_mint.key,
                from: ctx.source_canonical_token_account.key,
                authority: Authorization::Signer { key: ctx.user },
                amount: amounts.converted_amount,
            },
            credit: LedgerCall::Transfer {
                from: ctx.wrapped_token_account.key,
                to: ctx.destination_wrapped_token_account.key,
                authority: Authorization::Derived {
                    key: ctx.pda_wrapped_token_authority,
                    class: SeedClass::CustodyAuthority {
                        canonical_mint: ctx.canonical_data.data.mint,
                        wrapped_mint: ctx.wrapped_data.data.mint,
                    },
                    bump: ctx.wrapped_data.data.wrapped_token_account_authority_bump,
                },
                amount: amounts.recomputed_source_amount,
            },
        },
    )
}

/// Swaps canonical for `wrapped_amount` of wrapped: burns the converted
/// canonical amount from the caller's balance, then releases the recomputed
/// wrapped amount from custody into the destination balance as the derived
/// custody authority of the engine `program_id`.
pub fn swap_canonical_for_wrapped(
    ctx: &SwapCanonicalForWrapped,
    program_id: &Address,
    wrapped_amount: u64,
) -> (r: Result<Swap, SwapError>)
    ensures
        r == ctx.outcome(
            wrapped_amount,
            derived(ctx.custody_account_class().seeds(), *program_id),
            derived(ctx.custody_authority_class().seeds(), *program_id),
        ),
        !ctx.wrapped_data.data.swap_canonical_for_wrapped_enabled ==> r == Err::<Swap, SwapError>(
            SwapError::DirectionDisabled,
        ),
        r is Ok && ctx.canonical_data.data.decimals == ctx.wrapped_data.data.decimals ==> {
            &&& r->Ok_0.debit.amount() == Some(wrapped_amount)
            &&& r->Ok_0.credit.amount() == Some(wrapped_amount)
        },
{
    let custody_account = derive_authority(
        &SeedClass::CustodyAccount {
            canonical_mint: ctx.canonical_data.data.mint,
            wrapped_mint: ctx.wrapped_data.data.mint,
        },
        program_id,
    );
    let custody_authority = derive_authority(
        &SeedClass::CustodyAuthority {
            canonical_mint: ctx.canonical_data.data.mint,
            wrapped_mint: ctx.wrapped_data.data.mint,
        },
        program_id,
    );
    swap_canonical_for_wrapped_with(ctx, wrapped_amount, &custody_account, &custody_authority)
}

/// A swap of wrapped for canonical conserves value: the canonical amount it
/// mints is worth exactly the wrapped amount it takes into custody, and is no
/// more than was asked for.
pub proof fn lemma_wrapped_for_canonical_conserves_value(
    ctx: SwapWrappedForCanonical,
    canonical_amount: u64,
    mint_authority: Option<DerivedAuthority>,
    custody_account: Option<DerivedAuthority>,
)
    requires
        ctx.outcome(canonical_amount, mint_authority, custody_account) is Ok,
    ensures
        ctx.outcome(canonical_amount, mint_authority, custody_account)->Ok_0.credit.amount()
            ->Some_0 * pow10(ctx.wrapped_data.data.decimals as nat) == ctx.outcome(
            canonical_amount,
            mint_authority,
            custody_account,
        )->Ok_0.debit.amount()->Some_0 * pow10(ctx.canonical_data.data.decimals as nat),
        ctx.outcome(canonical_amount, mint_authority, custody_account)->Ok_0.credit.amount()
            ->Some_0 <= canonical_amount,
{
    lemma_conversion_conserves_value(
        canonical_amount,
        ctx.canonical_data.data.decimals,
        ctx.wrapped_data.data.decimals,
    );
}

/// A swap of canonical for wrapped conserves value: the wrapped amount it
/// releases from custody is worth exactly the canonical amount it burns, and
/// is no more than was asked for.
pub proof fn lemma_canonical_for_wrapped_conserves_value(
    ctx: SwapCanonicalForWrapped,
    wrapped_amount: u64,
    custody_account: Option<DerivedAuthority>,
    custody_authority: Option<DerivedAuthority>,
)
    requires
        ctx.outcome(wrapped_amount, custody_account, custody_authority) is Ok,
    ensures
        ctx.outcome(wrapped_amount, custody_account, custody_authority)->Ok_0.credit.amount()
            ->Some_0 * pow10(ctx.canonical_data.data.decimals as nat) == ctx.outcome(
            wrapped_amount,
            custody_account,
            custody_authority,
        )->Ok_0.debit.amount()->Some_0 * pow10(ctx.wrapped_data.data.decimals as nat),
        ctx.outcome(wrapped_amount, custody_account, custody_authority)->Ok_0.credit.amount()
            ->Some_0 <= wrapped_amount,
{
    lemma_conversion_conserves_value(
        wrapped_amount,
        ctx.wrapped_data.data.decimals,
        ctx.canonical_data.data.decimals,
    );
}

/// A round trip never inflates. When a swap of wrapped for canonical went
/// through, a swap back between the same two precisions that burns no more
/// canonical than the first one minted releases no more wrapped than the
/// first one took into custody.
pub proof fn lemma_round_trip_does_not_inflate_wrapped(
    there: SwapWrappedForCanonical,
    canonical_amount: u64,
    mint_authority: Option<DerivedAuthority>,
    custody_account_there: Option<DerivedAuthority>,
    back: SwapCanonicalForWrapped,
    wrapped_amount: u64,
    custody_account_back: Option<DerivedAuthority>,
    custody_authority: Option<DerivedAuthority>,
)
    requires
        there.canonical_data.data.decimals == back.canonical_data.data.decimals,
        there.wrapped_data.data.decimals == back.wrapped_data.data.decimals,
        there.outcome(canonical_amount, mint_authority, custody_account_there) is Ok,
        back.outcome(wrapped_amount, custody_account_back, custody_authority) is Ok,
        back.outcome(wrapped_amount, custody_account_back, custody_authority)->Ok_0.debit.amount()
            ->Some_0 <= there.outcome(
            canonical_amount,
            mint_authority,
            custody_account_there,
        )->Ok_0.credit.amount()->Some_0,
    ensures
        back.outcome(wrapped_amount, custody_account_back, custody_authority)->Ok_0.credit.amount()
            ->Some_0 <= there.outcome(
            canonical_amount,
            mint_authority,
            custody_account_there,
        )->Ok_0.debit.amount()->Some_0,
{
    lemma_round_trip_does_not_inflate(
        canonical_amount,
        wrapped_amount,
        there.canonical_data.data.decimals,
        there.wrapped_data.data.decimals,
    );
}

} // verus!
