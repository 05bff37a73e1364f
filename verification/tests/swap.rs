use canonical_swap::{
    derive_authority, swap_canonical_for_wrapped, swap_canonical_for_wrapped_with,
    swap_wrapped_for_canonical, swap_wrapped_for_canonical_with, Account, Address, Authorization,
    CanonicalData, DerivedAuthority, LedgerCall, Mint, SeedClass, Swap, SwapCanonicalForWrapped,
    SwapError, SwapWrappedForCanonical, TokenAccount, WrappedData,
};

fn key(tag: u8) -> Address {
    Address::new([tag; 32])
}

fn engine() -> Address {
    key(200)
}

fn derived(class: SeedClass) -> DerivedAuthority {
    derive_authority(&class, &engine()).unwrap()
}

fn canonical_data(decimals: u8) -> Account<CanonicalData> {
    Account {
        key: key(10),
        data: CanonicalData {
            authority: key(1),
            mint: key(20),
            decimals,
            canonical_mint_authority_bump: 251,
        },
    }
}

fn wrapped_data(decimals: u8) -> Account<WrappedData> {
    Account {
        key: key(11),
        data: WrappedData {
            canonical_data: key(10),
            mint: key(30),
            decimals,
            wrapped_token_account_authority_bump: 252,
            swap_wrapped_for_canonical_enabled: true,
            swap_canonical_for_wrapped_enabled: true,
        },
    }
}

fn mint_authority() -> DerivedAuthority {
    derived(SeedClass::MintAuthority { canonical_mint: key(20) })
}

fn custody_account() -> DerivedAuthority {
    derived(SeedClass::CustodyAccount { canonical_mint: key(20), wrapped_mint: key(30) })
}

fn custody_authority() -> DerivedAuthority {
    derived(SeedClass::CustodyAuthority { canonical_mint: key(20), wrapped_mint: key(30) })
}

fn wrapped_for_canonical(
    canonical_decimals: u8,
    wrapped_decimals: u8,
) -> SwapWrappedForCanonical {
    SwapWrappedForCanonical {
        user: key(2),
        destination_canonical_token_account: TokenAccount { key: key(40), mint: key(20) },
        canonical_mint: Mint { key: key(20), decimals: canonical_decimals },
        pda_canonical_mint_authority: mint_authority().address,
        source_wrapped_token_account: TokenAccount { key: key(41), mint: key(30) },
        wrapped_token_account: TokenAccount { key: custody_account().address, mint: key(30) },
        canonical_data: canonical_data(canonical_decimals),
        wrapped_data: wrapped_data(wrapped_decimals),
    }
}

fn canonical_for_wrapped(
    canonical_decimals: u8,
    wrapped_decimals: u8,
) -> SwapCanonicalForWrapped {
    SwapCanonicalForWrapped {
        user: key(2),
        source_canonical_token_account: TokenAccount { key: key(42), mint: key(20) },
        canonical_mint: Mint { key: key(20), decimals: canonical_decimals },
        destination_wrapped_token_account: TokenAccount { key: key(43), mint: key(30) },
        wrapped_token_account: TokenAccount { key: custody_account().address, mint: key(30) },
        pda_wrapped_token_authority: custody_authority().address,
        canonical_data: canonical_data(canonical_decimals),
        wrapped_data: wrapped_data(wrapped_decimals),
    }
}

fn collected(amount: u64) -> LedgerCall {
    LedgerCall::Transfer {
        from: key(41),
        to: custody_account().address,
        authority: Authorization::Signer { key: key(2) },
        amount,
    }
}

fn minted(amount: u64) -> LedgerCall {
    LedgerCall::MintTo {
        mint: key(20),
        to: key(40),
        authority: Authorization::Derived {
            key: mint_authority().address,
            class: SeedClass::MintAuthority { canonical_mint: key(20) },
            bump: 251,
        },
        amount,
    }
}

fn burnt(amount: u64) -> LedgerCall {
    LedgerCall::Burn {
        mint: key(20),
        from: key(42),
        authority: Authorization::Signer { key: key(2) },
        amount,
    }
}

fn released(amount: u64) -> LedgerCall {
    LedgerCall::Transfer {
        from: custody_account().address,
        to: key(43),
        authority: Authorization::Derived {
            key: custody_authority().address,
            class: SeedClass::CustodyAuthority { canonical_mint: key(20), wrapped_mint: key(30) },
            bump: 252,
        },
        amount,
    }
}

#[test]
fn swap_for_canonical_mints_the_recomputed_amount() {
    let ctx = wrapped_for_canonical(9, 6);
    let swap = swap_wrapped_for_canonical(&ctx, &engine(), 1_500).unwrap();
    assert_eq!(swap, Swap { debit: collected(1), credit: minted(1_000) });
    assert_eq!(swap.calls(), vec![collected(1), minted(1_000)]);
}

#[test]
fn swap_for_canonical_scales_up_to_a_finer_wrapped_asset() {
    let ctx = wrapped_for_canonical(6, 9);
    assert_eq!(
        swap_wrapped_for_canonical(&ctx, &engine(), 1_500),
        Ok(Swap { debit: collected(1_500_000), credit: minted(1_500) })
    );
}

#[test]
fn swap_for_wrapped_releases_the_recomputed_amount() {
    let ctx = canonical_for_wrapped(6, 9);
    assert_eq!(
        swap_canonical_for_wrapped(&ctx, &engine(), 1_500),
        Ok(Swap { debit: burnt(1), credit: released(1_000) })
    );
}

#[test]
fn swap_for_wrapped_scales_up_to_a_finer_canonical_asset() {
    let ctx = canonical_for_wrapped(9, 6);
    assert_eq!(
        swap_canonical_for_wrapped(&ctx, &engine(), 7),
        Ok(Swap { debit: burnt(7_000), credit: released(7) })
    );
}

#[test]
fn swaps_between_equal_precisions_move_the_request_on_both_sides() {
    let there = wrapped_for_canonical(8, 8);
    assert_eq!(
        swap_wrapped_for_canonical(&there, &engine(), 123_456),
        Ok(Swap { debit: collected(123_456), credit: minted(123_456) })
    );
    let back = canonical_for_wrapped(8, 8);
    assert_eq!(
        swap_canonical_for_wrapped(&back, &engine(), 123_456),
        Ok(Swap { debit: burnt(123_456), credit: released(123_456) })
    );
}

#[test]
fn disabled_direction_rejects_the_swap_before_anything_else() {
    let mut there = wrapped_for_canonical(9, 6);
    there.wrapped_data.data.swap_wrapped_for_canonical_enabled = false;
    assert_eq!(
        swap_wrapped_for_canonical(&there, &engine(), 1_500),
        Err(SwapError::DirectionDisabled)
    );
    there.destination_canonical_token_account.mint = key(99);
    there.wrapped_data.data.canonical_data = key(98);
    assert_eq!(
        swap_wrapped_for_canonical(&there, &engine(), u64::MAX),
        Err(SwapError::DirectionDisabled)
    );
    let mut back = canonical_for_wrapped(9, 6);
    back.wrapped_data.data.swap_canonical_for_wrapped_enabled = false;
    assert_eq!(
        swap_canonical_for_wrapped(&back, &engine(), 1_500),
        Err(SwapError::DirectionDisabled)
    );
}

#[test]
fn each_direction_has_its_own_switch() {
    let mut there = wrapped_for_canonical(9, 6);
    there.wrapped_data.data.swap_canonical_for_wrapped_enabled = false;
    assert!(swap_wrapped_for_canonical(&there, &engine(), 1_500).is_ok());
    let mut back = canonical_for_wrapped(9, 6);
    back.wrapped_data.data.swap_wrapped_for_canonical_enabled = false;
    assert!(swap_canonical_for_wrapped(&back, &engine(), 1_500).is_ok());
}

#[test]
fn pairing_of_another_registration_is_not_found() {
    let mut there = wrapped_for_canonical(9, 6);
    there.wrapped_data.data.canonical_data = key(12);
    assert_eq!(swap_wrapped_for_canonical(&there, &engine(), 1_500), Err(SwapError::NotFound));
    let mut back = canonical_for_wrapped(9, 6);
    back.canonical_data.key = key(12);
    assert_eq!(swap_canonical_for_wrapped(&back, &engine(), 1_500), Err(SwapError::NotFound));
}

#[test]
fn swap_for_canonical_rejects_each_mismatched_asset() {
    let good = wrapped_for_canonical(9, 6);
    let mismatch = Err(SwapError::AssetMismatch);

    let mut ctx = good;
    ctx.canonical_mint.key = key(21);
    assert_eq!(swap_wrapped_for_canonical(&ctx, &engine(), 1_500), mismatch);

    let mut ctx = good;
    ctx.destination_canonical_token_account.mint = key(30);
    assert_eq!(swap_wrapped_for_canonical(&ctx, &engine(), 1_500), mismatch);

    let mut ctx = good;
    ctx.source_wrapped_token_account.mint = key(20);
    assert_eq!(swap_wrapped_for_canonical(&ctx, &engine(), 1_500), mismatch);

    let mut ctx = good;
    ctx.wrapped_token_account.mint = key(31);
    assert_eq!(swap_wrapped_for_canonical(&ctx, &engine(), 1_500), mismatch);

    let mut ctx = good;
    ctx.pda_canonical_mint_authority = custody_authority().address;
    assert_eq!(swap_wrapped_for_canonical(&ctx, &engine(), 1_500), mismatch);

    let mut ctx = good;
    ctx.wrapped_token_account.key = key(41);
    assert_eq!(swap_wrapped_for_canonical(&ctx, &engine(), 1_500), mismatch);

    assert_eq!(swap_wrapped_for_canonical(&good, &key(201), 1_500), mismatch);
}

#[test]
fn swap_for_wrapped_rejects_each_mismatched_asset() {
    let good = canonical_for_wrapped(9, 6);
    let mismatch = Err(SwapError::AssetMismatch);

    let mut ctx = good;
    ctx.canonical_mint.key = key(21);
    assert_eq!(swap_canonical_for_wrapped(&ctx, &engine(), 1_500), mismatch);

    let mut ctx = good;
    ctx.source_canonical_token_account.mint = key(30);
    assert_eq!(swap_canonical_for_wrapped(&ctx, &engine(), 1_500), mismatch);

    let mut ctx = good;
    ctx.destination_wrapped_token_account.mint = key(20);
    assert_eq!(swap_canonical_for_wrapped(&ctx, &engine(), 1_500), mismatch);

    let mut ctx = good;
    ctx.wrapped_token_account.mint = key(31);
    assert_eq!(swap_canonical_for_wrapped(&ctx, &engine(), 1_500), mismatch);

    let mut ctx = good;
    ctx.pda_wrapped_token_authority = custody_account().address;
    assert_eq!(swap_canonical_for_wrapped(&ctx, &engine(), 1_500), mismatch);

    let mut ctx = good;
    ctx.wrapped_token_account.key = custody_authority().address;
    assert_eq!(swap_canonical_for_wrapped(&ctx, &engine(), 1_500), mismatch);

    assert_eq!(swap_canonical_for_wrapped(&good, &key(201), 1_500), mismatch);
}

#[test]
fn swaps_reject_amounts_that_do_not_fit() {
    let there = wrapped_for_canonical(6, 9);
    assert_eq!(
        swap_wrapped_for_canonical(&there, &engine(), 18_446_744_073_709_552),
        Err(SwapError::AmountOverflow)
    );
    assert_eq!(
        swap_wrapped_for_canonical(&there, &engine(), 18_446_744_073_709_551),
        Ok(Swap {
            debit: collected(18_446_744_073_709_551_000),
            credit: minted(18_446_744_073_709_551)
        })
    );
    let back = canonical_for_wrapped(9, 6);
    assert_eq!(
        swap_canonical_for_wrapped(&back, &engine(), u64::MAX),
        Err(SwapError::AmountOverflow)
    );
}

#[test]
fn swaps_with_given_derivations_check_the_addresses_against_them() {
    let there = wrapped_for_canonical(9, 6);
    assert_eq!(
        swap_wrapped_for_canonical_with(
            &there,
            1_500,
            &Some(mint_authority()),
            &Some(custody_account())
        ),
        Ok(Swap { debit: collected(1), credit: minted(1_000) })
    );
    assert_eq!(
        swap_wrapped_for_canonical_with(&there, 1_500, &None, &Some(custody_account())),
        Err(SwapError::AssetMismatch)
    );
    assert_eq!(
        swap_wrapped_for_canonical_with(&there, 1_500, &Some(mint_authority()), &None),
        Err(SwapError::AssetMismatch)
    );
    let back = canonical_for_wrapped(6, 9);
    assert_eq!(
        swap_canonical_for_wrapped_with(
            &back,
            1_500,
            &Some(custody_account()),
            &Some(custody_authority())
        ),
        Ok(Swap { debit: burnt(1), credit: released(1_000) })
    );
    assert_eq!(
        swap_canonical_for_wrapped_with(&back, 1_500, &Some(custody_account()), &None),
        Err(SwapError::AssetMismatch)
    );
    assert_eq!(
        swap_canonical_for_wrapped_with(
            &back,
            1_500,
            &Some(custody_authority()),
            &Some(custody_authority())
        ),
        Err(SwapError::AssetMismatch)
    );
}

#[test]
fn round_trip_returns_no_more_wrapped_than_was_deposited() {
    let precisions: [(u8, u8); 4] = [(9, 6), (6, 9), (7, 7), (12, 0)];
    let requests: [u64; 5] = [0, 1, 1_500, 999_999, 1_000_000_000_007];
    for (canonical_decimals, wrapped_decimals) in precisions {
        for canonical_amount in requests {
            let there = wrapped_for_canonical(canonical_decimals, wrapped_decimals);
            let first = swap_wrapped_for_canonical(&there, &engine(), canonical_amount).unwrap();
            let (deposited, minted) = match (first.debit, first.credit) {
                (LedgerCall::Transfer { amount: d, .. }, LedgerCall::MintTo { amount: m, .. }) => {
                    (d, m)
                }
                _ => unreachable!(),
            };
            let back = canonical_for_wrapped(canonical_decimals, wrapped_decimals);
            let second = swap_canonical_for_wrapped(&back, &engine(), deposited).unwrap();
            let (burnt, released) = match (second.debit, second.credit) {
                (LedgerCall::Burn { amount: b, .. }, LedgerCall::Transfer { amount: r, .. }) => {
                    (b, r)
                }
                _ => unreachable!(),
            };
            assert_eq!(burnt, minted);
            assert_eq!(released, deposited);
            assert!(released <= deposited);
        }
    }
}
