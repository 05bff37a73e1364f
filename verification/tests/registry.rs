use canonical_swap::{
    derive_authority, Address, AuthorityType, Authorization, CanonicalData, DerivedAuthority,
    Direction, LedgerCall, Mint, Registry, SeedClass, Swap, SwapError, TokenAccount, WrappedData,
};

fn key(tag: u8) -> Address {
    Address::new([tag; 32])
}

fn engine() -> Address {
    key(200)
}

fn derived(class: SeedClass) -> DerivedAuthority {
    derive_authority(&class, &engine()).unwrap()
}

fn canonical() -> Mint {
    Mint { key: key(20), decimals: 9 }
}

fn wrapped() -> Mint {
    Mint { key: key(30), decimals: 6 }
}

fn paired() -> Registry {
    let mut registry = Registry::new(engine());
    registry.register_canonical(key(1), canonical()).unwrap();
    registry.register_pairing(key(1), key(20), wrapped()).unwrap();
    registry
}

#[test]
fn new_table_is_empty() {
    let registry = Registry::new(engine());
    assert_eq!(registry.find_registration(&key(20)), None);
    assert_eq!(registry.find_pairing(&key(20), &key(30)), None);
}

#[test]
fn canonical_asset_is_registered_once() {
    let mut registry = Registry::new(engine());
    let authority = derived(SeedClass::MintAuthority { canonical_mint: key(20) });
    assert_eq!(
        registry.register_canonical(key(1), canonical()),
        Ok(LedgerCall::SetAuthority {
            account_or_mint: key(20),
            authority_type: AuthorityType::MintTokens,
            current_authority: key(1),
            new_authority: authority.address,
        })
    );
    let stored = CanonicalData {
        authority: key(1),
        mint: key(20),
        decimals: 9,
        canonical_mint_authority_bump: authority.bump,
    };
    assert_eq!(registry.find_registration(&key(20)), Some(stored));
    assert_eq!(
        registry.register_canonical(key(2), Mint { key: key(20), decimals: 3 }),
        Err(SwapError::AlreadyExists)
    );
    assert_eq!(registry.find_registration(&key(20)), Some(stored));
    assert!(registry.register_canonical(key(2), Mint { key: key(21), decimals: 3 }).is_ok());
    assert_eq!(registry.find_registration(&key(20)), Some(stored));
    assert_eq!(registry.find_registration(&key(21)).unwrap().authority, key(2));
}

#[test]
fn pairing_needs_a_registration_its_authority_and_a_free_pair() {
    let mut registry = Registry::new(engine());
    assert_eq!(registry.register_pairing(key(1), key(20), wrapped()), Err(SwapError::NotFound));
    registry.register_canonical(key(1), canonical()).unwrap();
    assert_eq!(
        registry.register_pairing(key(2), key(20), wrapped()),
        Err(SwapError::Unauthorized)
    );
    assert_eq!(registry.find_pairing(&key(20), &key(30)), None);
    let account =
        derived(SeedClass::CustodyAccount { canonical_mint: key(20), wrapped_mint: key(30) });
    let authority =
        derived(SeedClass::CustodyAuthority { canonical_mint: key(20), wrapped_mint: key(30) });
    assert_eq!(
        registry.register_pairing(key(1), key(20), wrapped()),
        Ok(LedgerCall::SetAuthority {
            account_or_mint: account.address,
            authority_type: AuthorityType::AccountOwner,
            current_authority: key(1),
            new_authority: authority.address,
        })
    );
    assert_eq!(
        registry.find_pairing(&key(20), &key(30)),
        Some(WrappedData {
            canonical_data: key(20),
            mint: key(30),
            decimals: 6,
            wrapped_token_account_authority_bump: authority.bump,
            swap_wrapped_for_canonical_enabled: true,
            swap_canonical_for_wrapped_enabled: true,
        })
    );
    assert_eq!(
        registry.register_pairing(key(1), key(20), wrapped()),
        Err(SwapError::AlreadyExists)
    );
    assert_eq!(
        registry.register_pairing(key(2), key(20), wrapped()),
        Err(SwapError::Unauthorized)
    );
    assert!(registry.register_pairing(key(1), key(20), Mint { key: key(31), decimals: 2 }).is_ok());
    assert_eq!(registry.find_pairing(&key(20), &key(31)).unwrap().decimals, 2);
    assert_eq!(registry.find_pairing(&key(20), &key(30)).unwrap().decimals, 6);
    assert_eq!(registry.find_pairing(&key(30), &key(20)), None);
}

#[test]
fn registering_with_no_derivation_is_a_mismatch() {
    let mut registry = Registry::new(engine());
    assert_eq!(
        registry.register_canonical_with(key(1), canonical(), &None),
        Err(SwapError::AssetMismatch)
    );
    assert_eq!(registry.find_registration(&key(20)), None);
    registry.register_canonical(key(1), canonical()).unwrap();
    let found = Some(DerivedAuthority { address: key(50), bump: 9 });
    assert_eq!(
        registry.register_pairing_with(key(1), key(20), wrapped(), &found, &None),
        Err(SwapError::AssetMismatch)
    );
    assert_eq!(
        registry.register_pairing_with(key(1), key(20), wrapped(), &None, &found),
        Err(SwapError::AssetMismatch)
    );
    assert_eq!(registry.find_pairing(&key(20), &key(30)), None);
}

#[test]
fn directions_are_switched_by_the_control_authority_only() {
    let mut registry = paired();
    let before = registry.find_pairing(&key(20), &key(30)).unwrap();
    assert_eq!(
        registry.set_direction(key(2), key(20), key(30), Direction::WrappedForCanonical, false),
        Err(SwapError::Unauthorized)
    );
    assert_eq!(registry.find_pairing(&key(20), &key(30)), Some(before));
    assert_eq!(
        registry.set_direction(key(1), key(20), key(30), Direction::WrappedForCanonical, false),
        Ok(())
    );
    let after = registry.find_pairing(&key(20), &key(30)).unwrap();
    assert_eq!(after, WrappedData { swap_wrapped_for_canonical_enabled: false, ..before });
    assert_eq!(
        registry.set_direction(key(1), key(20), key(31), Direction::WrappedForCanonical, false),
        Err(SwapError::NotFound)
    );
    assert_eq!(
        registry.set_direction(key(1), key(21), key(30), Direction::WrappedForCanonical, false),
        Err(SwapError::NotFound)
    );
    assert_eq!(
        registry.set_direction(key(2), key(20), key(31), Direction::WrappedForCanonical, false),
        Err(SwapError::Unauthorized)
    );
}

#[test]
fn control_is_transferred_by_the_control_authority_only() {
    let mut registry = paired();
    let before = registry.find_registration(&key(20)).unwrap();
    assert_eq!(registry.transfer_control(key(2), key(20), key(2)), Err(SwapError::Unauthorized));
    assert_eq!(registry.find_registration(&key(20)), Some(before));
    assert_eq!(registry.transfer_control(key(1), key(21), key(2)), Err(SwapError::NotFound));
    assert_eq!(registry.transfer_control(key(1), key(20), key(2)), Ok(()));
    assert_eq!(
        registry.find_registration(&key(20)),
        Some(CanonicalData { authority: key(2), ..before })
    );
    assert_eq!(registry.transfer_control(key(1), key(20), key(1)), Err(SwapError::Unauthorized));
    assert_eq!(
        registry.set_direction(key(1), key(20), key(30), Direction::CanonicalForWrapped, false),
        Err(SwapError::Unauthorized)
    );
    assert_eq!(
        registry.set_direction(key(2), key(20), key(30), Direction::CanonicalForWrapped, false),
        Ok(())
    );
    assert!(registry.find_pairing(&key(20), &key(30)).is_some());
}

#[test]
fn swap_on_the_table_mints_the_recomputed_amount() {
    let registry = paired();
    let mint_authority = derived(SeedClass::MintAuthority { canonical_mint: key(20) });
    let custody =
        derived(SeedClass::CustodyAccount { canonical_mint: key(20), wrapped_mint: key(30) });
    let swap = registry.swap_wrapped_for_canonical(
        key(2),
        key(20),
        key(30),
        TokenAccount { key: key(41), mint: key(30) },
        TokenAccount { key: key(40), mint: key(20) },
        1_500,
    );
    assert_eq!(
        swap,
        Ok(Swap {
            debit: LedgerCall::Transfer {
                from: key(41),
                to: custody.address,
                authority: Authorization::Signer { key: key(2) },
                amount: 1,
            },
            credit: LedgerCall::MintTo {
                mint: key(20),
                to: key(40),
                authority: Authorization::Derived {
                    key: mint_authority.address,
                    class: SeedClass::MintAuthority { canonical_mint: key(20) },
                    bump: mint_authority.bump,
                },
                amount: 1_000,
            },
        })
    );
}

#[test]
fn swap_on_the_table_releases_the_recomputed_amount() {
    let registry = paired();
    let custody =
        derived(SeedClass::CustodyAccount { canonical_mint: key(20), wrapped_mint: key(30) });
    let authority =
        derived(SeedClass::CustodyAuthority { canonical_mint: key(20), wrapped_mint: key(30) });
    let swap = registry.swap_canonical_for_wrapped(
        key(2),
        key(20),
        key(30),
        TokenAccount { key: key(42), mint: key(20) },
        TokenAccount { key: key(43), mint: key(30) },
        7,
    );
    assert_eq!(
        swap,
        Ok(Swap {
            debit: LedgerCall::Burn {
                mint: key(20),
                from: key(42),
                authority: Authorization::Signer { key: key(2) },
                amount: 7_000,
            },
            credit: LedgerCall::Transfer {
                from: custody.address,
                to: key(43),
                authority: Authorization::Derived {
                    key: authority.address,
                    class: SeedClass::CustodyAuthority {
                        canonical_mint: key(20),
                        wrapped_mint: key(30)
                    },
                    bump: authority.bump,
                },
                amount: 7,
            },
        })
    );
}

#[test]
fn swap_on_the_table_is_gated_by_pair_direction_and_assets() {
    let mut registry = paired();
    let source = TokenAccount { key: key(41), mint: key(30) };
    let destination = TokenAccount { key: key(40), mint: key(20) };
    assert_eq!(
        registry.swap_wrapped_for_canonical(key(2), key(20), key(31), source, destination, 1_500),
        Err(SwapError::NotFound)
    );
    assert_eq!(
        registry.swap_canonical_for_wrapped(key(2), key(21), key(30), destination, source, 1_500),
        Err(SwapError::NotFound)
    );
    assert_eq!(
        registry.swap_wrapped_for_canonical(key(2), key(20), key(30), destination, source, 1_500),
        Err(SwapError::AssetMismatch)
    );
    assert_eq!(
        registry.swap_canonical_for_wrapped(key(2), key(20), key(30), source, destination, 1_500),
        Err(SwapError::AssetMismatch)
    );
    assert_eq!(
        registry.swap_canonical_for_wrapped(
            key(2),
            key(20),
            key(30),
            destination,
            source,
            u64::MAX
        ),
        Err(SwapError::AmountOverflow)
    );
    registry
        .set_direction(key(1), key(20), key(30), Direction::WrappedForCanonical, false)
        .unwrap();
    assert_eq!(
        registry.swap_wrapped_for_canonical(key(2), key(20), key(30), source, destination, 1_500),
        Err(SwapError::DirectionDisabled)
    );
    assert_eq!(
        registry.swap_wrapped_for_canonical(key(2), key(20), key(30), destination, source, 1_500),
        Err(SwapError::DirectionDisabled)
    );
    assert!(registry
        .swap_canonical_for_wrapped(key(2), key(20), key(30), destination, source, 1_500)
        .is_ok());
    registry
        .set_direction(key(1), key(20), key(30), Direction::WrappedForCanonical, true)
        .unwrap();
    assert!(registry
        .swap_wrapped_for_canonical(key(2), key(20), key(30), source, destination, 1_500)
        .is_ok());
}

#[test]
fn swap_on_the_table_with_no_derivation_is_a_mismatch() {
    let registry = paired();
    let source = TokenAccount { key: key(41), mint: key(30) };
    let destination = TokenAccount { key: key(40), mint: key(20) };
    let found = Some(DerivedAuthority { address: key(50), bump: 9 });
    assert_eq!(
        registry.swap_wrapped_for_canonical_with(
            key(2),
            key(20),
            key(30),
            source,
            destination,
            1_500,
            &None,
            &found
        ),
        Err(SwapError::AssetMismatch)
    );
    assert_eq!(
        registry.swap_canonical_for_wrapped_with(
            key(2),
            key(20),
            key(30),
            destination,
            source,
            1_500,
            &found,
            &None
        ),
        Err(SwapError::AssetMismatch)
    );
    assert!(registry
        .swap_wrapped_for_canonical_with(
            key(2),
            key(20),
            key(30),
            source,
            destination,
            1_500,
            &found,
            &found
        )
        .is_ok());
}

#[test]
fn copy_of_the_table_undoes_an_operation() {
    let mut registry = paired();
    let before = registry.clone();
    registry.transfer_control(key(1), key(20), key(2)).unwrap();
    registry.register_pairing(key(2), key(20), Mint { key: key(31), decimals: 2 }).unwrap();
    assert_eq!(registry.find_registration(&key(20)).unwrap().authority, key(2));
    let registry = before;
    assert_eq!(registry.find_registration(&key(20)).unwrap().authority, key(1));
    assert_eq!(registry.find_pairing(&key(20), &key(31)), None);
    assert!(registry.find_pairing(&key(20), &key(30)).is_some());
}
