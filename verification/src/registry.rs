//! The table of registrations and pairings.
//!
//! Registrations are kept by canonical asset, pairings by canonical and
//! wrapped asset. There is at most one registration per canonical asset and
//! at most one pairing per pair of assets, and every pairing belongs to a
//! registration that is in the table. In the table a pairing refers to its
//! registration by the canonical asset.
//!
//! An operation that changes the table also names the call to make on the
//! ledger. The two belong to one atomic unit of work: where the ledger
//! rejects the call, the table of before the operation stands, which a copy
//! taken beforehand preserves.

use crate::address::Address;
use crate::admin::{
    set_canonical_swap_authority, set_direction, Direction, SetCanonicalSwapAuthority,
};
use crate::authority::{derive_authority, derived, DerivedAuthority, SeedClass};
use crate::error::SwapError;
use crate::ledger::LedgerCall;
use crate::records::{Account, CanonicalData, Mint, TokenAccount, WrappedData};
use crate::registration::{
    initialize_canonical_token_with, initialize_wrapped_token_with, InitializeCanonicalToken,
    InitializeWrappedToken, Registered,
};
use crate::swap::{
    swap_canonical_for_wrapped_with, swap_wrapped_for_canonical_with, Swap,
    SwapCanonicalForWrapped, SwapWrappedForCanonical,
};
use vstd::prelude::*;

verus! {

/// The registrations and pairings of one engine.
pub struct Registry {
    program_id: Address,
    registrations: Vec<CanonicalData>,
    pairings: Vec<WrappedData>,
}

impl Registry {
    /// Whether the table is sound: no asset is registered twice, no pair is
    /// kept twice, and every pairing belongs to a registration of the table.
    /// Every operation keeps a sound table sound.
    pub closed spec fn wf(self) -> bool {
        &&& forall|i: int, j: int|
            0 <= i < j < self.registrations@.len() ==> self.registrations@[i].mint
                != self.registrations@[j].mint
        &&& forall|i: int, j: int|
            0 <= i < j < self.pairings@.len() ==> !(self.pairings@[i].canonical_data
                == self.pairings@[j].canonical_data && self.pairings@[i].mint
                == self.pairings@[j].mint)
        &&& forall|i: int|
            0 <= i < self.pairings@.len() ==> self.has_registration(
                #[trigger] self.pairings@[i].canonical_data,
            )
    }

    /// The identity of the engine, under which its authorities are derived.
    pub closed spec fn program_id(self) -> Address {
        self.program_id
    }

    /// Whether `canonical_mint` is registered.
    spec fn has_registration(self, canonical_mint: Address) -> bool {
        exists|i: int|
            0 <= i < self.registrations@.len() && self.registrations@[i].mint == canonical_mint
    }

    /// Whether `wrapped_mint` is paired with `canonical_mint`.
    spec fn has_pairing(self, canonical_mint: Address, wrapped_mint: Address) -> bool {
        exists|i: int|
            0 <= i < self.pairings@.len() && self.pairings@[i].canonical_data == canonical_mint
                && self.pairings@[i].mint == wrapped_mint
    }

    /// The registrations, by canonical asset.
    pub closed spec fn registrations(self) -> Map<Address, CanonicalData> {
        Map::new(
            |canonical_mint: Address| self.has_registration(canonical_mint),
            |canonical_mint: Address|
                self.registrations@[choose|i: int|
                    0 <= i < self.registrations@.len() && self.registrations@[i].mint
                        == canonical_mint],
        )
    }

    /// The pairings, by canonical asset and wrapped asset.
    pub closed spec fn pairings(self) -> Map<(Address, Address), WrappedData> {
        Map::new(
            |pair: (Address, Address)| self.has_pairing(pair.0, pair.1),
            |pair: (Address, Address)|
                self.pairings@[choose|i: int|
                    0 <= i < self.pairings@.len() && self.pairings@[i].canonical_data == pair.0
                        && self.pairings@[i].mint == pair.1],
        )
    }

    /// Every record of a sound table is kept under the assets it names, and
    /// every pairing belongs to a registration of the table.
    pub proof fn lemma_records_belong(self, canonical_mint: Address, wrapped_mint: Address)
        requires
            self.wf(),
        ensures
            self.registrations().contains_key(canonical_mint)
                ==> self.registrations()[canonical_mint].mint == canonical_mint,
            self.pairings().contains_key((canonical_mint, wrapped_mint)) ==> {
                &&& self.pairings()[(canonical_mint, wrapped_mint)].canonical_data
                    == canonical_mint
                &&& self.pairings()[(canonical_mint, wrapped_mint)].mint == wrapped_mint
                &&& self.registrations().contains_key(canonical_mint)
            },
    {
    }

    /// An empty table for the engine `program_id`.
    pub fn new(program_id: Address) -> (r: Registry)
        ensures
            r.wf(),
            r.program_id() == program_id,
            r.registrations() == Map::<Address, CanonicalData>::empty(),
            r.pairings() == Map::<(Address, Address), WrappedData>::empty(),
    {
        let r = Registry { program_id, registrations: Vec::new(), pairings: Vec::new() };
        assert(r.registrations() =~= Map::<Address, CanonicalData>::empty());
        assert(r.pairings() =~= Map::<(Address, Address), WrappedData>::empty());
        r
    }

    /// Where the registration of `canonical_mint` is kept, if there is one.
    fn registration_index(&self, canonical_mint: &Address) -> (r: Option<usize>)
        requires
            self.wf(),
        ensures
            match r {
                Some(i) => i < self.registrations@.len() && self.registrations@[i as int].mint
                    == *canonical_mint && self.registrations().contains_key(*canonical_mint)
                    && self.registrations()[*canonical_mint] == self.registrations@[i as int],
                None => !self.registrations().contains_key(*canonical_mint),
            },
    {
        let mut i: usize = 0;
        while i < self.registrations.len()
            invariant
                self.wf(),
                i <= self.registrations@.len(),
                forall|k: int| 0 <= k < i ==> self.registrations@[k].mint != *canonical_mint,
            decreases self.registrations@.len() - i,
        {
            if self.registrations[i].mint == *canonical_mint {
                proof {
                    let chosen = choose|k: int|
                        0 <= k < self.registrations@.len() && self.registrations@[k].mint
                            == *canonical_mint;
                    assert(chosen == i);
                }
                return Some(i);
            }
            i = i + 1;
        }
        None
    }

    /// The registration of `canonical_mint`, if there is one.
    pub fn find_registration(&self, canonical_mint: &Address) -> (r: Option<CanonicalData>)
        requires
            self.wf(),
        ensures
            r == self.registrations().get(*canonical_mint),
            r matches Some(found) ==> found.mint == *canonical_mint,
    {
        match self.registration_index(canonical_mint) {
            Some(i) => Some(self.registrations[i]),
            None => None,
        }
    }

    /// Where the pairing of `wrapped_mint` with `canonical_mint` is kept, if
    /// there is one.
    fn pairing_index(&self, canonical_mint: &Address, wrapped_mint: &Address) -> (r: Option<usize>)
        requires
            self.wf(),
        ensures
            match r {
                Some(i) => i < self.pairings@.len() && self.pairings@[i as int].canonical_data
                    == *canonical_mint && self.pairings@[i as int].mint == *wrapped_mint
                    && self.pairings().contains_key((*canonical_mint, *wrapped_mint))
                    && self.pairings()[(*canonical_mint, *wrapped_mint)]
                    == self.pairings@[i as int],
                None => !self.pairings().contains_key((*canonical_mint, *wrapped_mint)),
            },
    {
        let mut i: usize = 0;
        while i < self.pairings.len()
            invariant
                self.wf(),
                i <= self.pairings@.len(),
                forall|k: int|
                    0 <= k < i ==> !(self.pairings@[k].canonical_data == *canonical_mint
                        && self.pairings@[k].mint == *wrapped_mint),
            decreases self.pairings@.len() - i,
        {
            if self.pairings[i].canonical_data == *canonical_mint && self.pairings[i].mint
                == *wrapped_mint {
                proof {
                    let chosen = choose|k: int|
                        0 <= k < self.pairings@.len() && self.pairings@[k].canonical_data
                            == *canonical_mint && self.pairings@[k].mint == *wrapped_mint;
                    assert(chosen == i);
                }
                return Some(i);
            }
            i = i + 1;
        }
        None
    }

    /// The pairing of `wrapped_mint` with `canonical_mint`, if there is one.
    /// A pairing that is in the table names the two assets it is kept under,
    /// and its canonical asset is registered.
    pub fn find_pairing(&self, canonical_mint: &Address, wrapped_mint: &Address) -> (r: Option<
        WrappedData,
    >)
        requires
            self.wf(),
        ensures
            r == self.pairings().get((*canonical_mint, *wrapped_mint)),
            r matches Some(found) ==> found.canonical_data == *canonical_mint && found.mint
                == *wrapped_mint && self.registrations().contains_key(*canonical_mint),
    {
        match self.pairing_index(canonical_mint, wrapped_mint) {
            Some(i) => Some(self.pairings[i]),
            None => None,
        }
    }

    /// What registering `canonical_mint` under `control_authority` comes to,
    /// where `mint_authority` is what the class of its mint authority derives
    /// to.
    ///
    /// It is rejected with `AlreadyExists` when the asset is registered, else
    /// with `AssetMismatch` when no mint authority can be derived.
    pub open spec fn register_canonical_outcome(
        self,
        control_authority: Address,
        canonical_mint: Mint,
        mint_authority: Option<DerivedAuthority>,
    ) -> Result<Registered<CanonicalData>, SwapError> {
        if self.registrations().contains_key(canonical_mint.key) {
            Err(SwapError::AlreadyExists)
        } else {
            match mint_authority {
                Some(found) => (InitializeCanonicalToken {
                    initializer: control_authority,
                    canonical_mint,
                    pda_canonical_mint_authority: found.address,
                }).outcome(mint_authority),
                None => Err(SwapError::AssetMismatch),
            }
        }
    }

    /// Registers a canonical asset, given what the class of its mint
    /// authority derives to.
    pub fn register_canonical_with(
        &mut self,
        control_authority: Address,
        canonical_mint: Mint,
        mint_authority: &Option<DerivedAuthority>,
    ) -> (r: Result<LedgerCall, SwapError>)
        requires
            old(self).wf(),
        ensures
            final(self).wf(),
            final(self).program_id() == old(self).program_id(),
            final(self).pairings() == old(self).pairings(),
            match old(self).register_canonical_outcome(
                control_authority,
                canonical_mint,
                *mint_authority,
            ) {
                Ok(registered) => r == Ok::<LedgerCall, SwapError>(registered.install_authority)
                    && final(self).registrations() == old(self).registrations().insert(
                    canonical_mint.key,
                    registered.data,
                ),
                Err(error) => r == Err::<LedgerCall, SwapError>(error) && final(self).registrations() == old(self).registrations(),
            },
    {
        if self.registration_index(&canonical_mint.key).is_some() {
            return Err(SwapError::AlreadyExists);
        }
        let address = match mint_authority {
            Some(found) => found.address,
            None => {
                return Err(SwapError::AssetMismatch);
            },
        };
        let ctx = InitializeCanonicalToken {
            initializer: control_authority,
            canonical_mint,
            pda_canonical_mint_authority: address,
        };
        let registered = initialize_canonical_token_with(&ctx, mint_authority)?;
        let ghost before = *self;
        self.registrations.push(registered.data);
        proof {
            lemma_registration_added(before, *self, registered.data);
        }
        Ok(registered.install_authority)
    }

    /// Registers the canonical asset `canonical_mint`, with `control_authority`
    /// as its control authority. This can be done once per asset. It returns
    /// the call that hands the right to mint to the derived mint authority.
    pub fn register_canonical(&mut self, control_authority: Address, canonical_mint: Mint) -> (r:
        Result<LedgerCall, SwapError>)
        requires
            old(self).wf(),
        ensures
            final(self).wf(),
            final(self).program_id() == old(self).program_id(),
            final(self).pairings() == old(self).pairings(),
            match old(self).register_canonical_outcome(
                control_authority,
                canonical_mint,
                derived(
                    (SeedClass::MintAuthority { canonical_mint: canonical_mint.key }).seeds(),
                    old(self).program_id(),
                ),
            ) {
                Ok(registered) => r == Ok::<LedgerCall, SwapError>(registered.install_authority)
                    && final(self).registrations() == old(self).registrations().insert(
                    canonical_mint.key,
                    registered.data,
                ),
                Err(error) => r == Err::<LedgerCall, SwapError>(error) && final(self).registrations() == old(self).registrations(),
            },
    {
        let mint_authority = derive_authority(
            &SeedClass::MintAuthority { canonical_mint: canonical_mint.key },
            &self.program_id,
        );
        self.register_canonical_with(control_authority, canonical_mint, &mint_authority)
    }

    /// What pairing `wrapped_mint` with the registered `canonical_mint` comes
    /// to when `caller` asks for it, where `custody_account` and
    /// `custody_authority` are what the classes of the pair's custody account
    /// and of its authority derive to.
    ///
    /// It is rejected with `NotFound` when the canonical asset is not
    /// registered; else with `Unauthorized` unless the caller is the control
    /// authority of the registration; else with `AlreadyExists` when the pair
    /// is in the table; else with `AssetMismatch` when one of the two cannot
    /// be derived.
    pub open spec fn register_pairing_outcome(
        self,
        caller: Address,
        canonical_mint: Address,
        wrapped_mint: Mint,
        custody_account: Option<DerivedAuthority>,
        custody_authority: Option<DerivedAuthority>,
    ) -> Result<Registered<WrappedData>, SwapError> {
        if !self.registrations().contains_key(canonical_mint) {
            Err(SwapError::NotFound)
        } else if self.registrations()[canonical_mint].authority != caller {
            Err(SwapError::Unauthorized)
        } else if self.pairings().contains_key((canonical_mint, wrapped_mint.key)) {
            Err(SwapError::AlreadyExists)
        } else if custody_account is None || custody_authority is None {
            Err(SwapError::AssetMismatch)
        } else {
            (InitializeWrappedToken {
                current_authority: caller,
                wrapped_token_mint: wrapped_mint,
                pda_wrapped_token_account: custody_account->Some_0.address,
                pda_wrapped_token_account_authority: custody_authority->Some_0.address,
                canonical_data: Account {
                    key: canonical_mint,
                    data: self.registrations()[canonical_mint],
                },
            }).outcome(custody_account, custody_authority)
        }
    }

    /// Pairs a wrapped asset with a registered canonical asset, given what
    /// the classes of the pair's custody account and of its authority derive
    /// to.
    pub fn register_pairing_with(
        &mut self,
        caller: Address,
        canonical_mint: Address,
        wrapped_mint: Mint,
        custody_account: &Option<DerivedAuthority>,
        custody_authority: &Option<DerivedAuthority>,
    ) -> (r: Result<LedgerCall, SwapError>)
        requires
            old(self).wf(),
        ensures
            final(self).wf(),
            final(self).program_id() == old(self).program_id(),
            final(self).registrations() == old(self).registrations(),
            match old(self).register_pairing_outcome(
                caller,
                canonical_mint,
                wrapped_mint,
                *custody_account,
                *custody_authority,
            ) {
                Ok(registered) => r == Ok::<LedgerCall, SwapError>(registered.install_authority)
                    && final(self).pairings() == old(self).pairings().insert(
                    (canonical_mint, wrapped_mint.key),
                    registered.data,
                ),
                Err(error) => r == Err::<LedgerCall, SwapError>(error) && final(self).pairings()
                    == old(self).pairings(),
            },
            old(self).registrations().contains_key(canonical_mint) && old(self).registrations()[canonical_mint].authority != caller ==> r == Err::<
                LedgerCall,
                SwapError,
            >(SwapError::Unauthorized),
    {
        let registration = match self.find_registration(&canonical_mint) {
            Some(found) => found,
            None => {
                return Err(SwapError::NotFound);
            },
        };
        if registration.authority != caller {
            return Err(SwapError::Unauthorized);
        }
        if self.pairing_index(&canonical_mint, &wrapped_mint.key).is_some() {
            return Err(SwapError::AlreadyExists);
        }
        let (account, authority) = match (custody_account, custody_authority) {
            (Some(account), Some(authority)) => (account.address, authority.address),
            _ => {
                return Err(SwapError::AssetMismatch);
            },
        };
        let ctx = InitializeWrappedToken {
            current_authority: caller,
            wrapped_token_mint: wrapped_mint,
            pda_wrapped_token_account: account,
            pda_wrapped_token_account_authority: authority,
            canonical_data: Account { key: canonical_mint, data: registration },
        };
        let registered = initialize_wrapped_token_with(&ctx, custody_account, custody_authority)?;
        let ghost before = *self;
        self.pairings.push(registered.data);
        proof {
            lemma_pairing_added(before, *self, registered.data);
        }
        Ok(registered.install_authority)
    }

    /// Pairs the wrapped asset `wrapped_mint` with the registered canonical
    /// asset `canonical_mint`. Only the control authority of the registration
    /// may do so, and once per pair. Both swap directions start out permitted.
    /// It returns the call that hands the pair's custody account to the
    /// derived custody authority.
    pub fn register_pairing(&mut self, caller: Address, canonical_mint: Address, wrapped_mint: Mint)
        -> (r: Result<LedgerCall, SwapError>)
        requires
            old(self).wf(),
        ensures
            final(self).wf(),
            final(self).program_id() == old(self).program_id(),
            final(self).registrations() == old(self).registrations(),
            match old(self).register_pairing_outcome(
                caller,
                canonical_mint,
                wrapped_mint,
                derived(
                    (SeedClass::CustodyAccount {
                        canonical_mint,
                        wrapped_mint: wrapped_mint.key,
                    }).seeds(),
                    old(self).program_id(),
                ),
                derived(
                    (SeedClass::CustodyAuthority {
                        canonical_mint,
                        wrapped_mint: wrapped_mint.key,
                    }).seeds(),
                    old(self).program_id(),
                ),
            ) {
                Ok(registered) => r == Ok::<LedgerCall, SwapError>(registered.install_authority)
                    && final(self).pairings() == old(self).pairings().insert(
                    (canonical_mint, wrapped_mint.key),
                    registered.data,
                ),
                Err(error) => r == Err::<LedgerCall, SwapError>(error) && final(self).pairings()
                    == old(self).pairings(),
            },
            old(self).registrations().contains_key(canonical_mint) && old(self).registrations()[canonical_mint].authority != caller ==> r == Err::<
                LedgerCall,
                SwapError,
            >(SwapError::Unauthorized),
    {
        let custody_account = derive_authority(
            &SeedClass::CustodyAccount { canonical_mint, wrapped_mint: wrapped_mint.key },
            &self.program_id,
        );
        let custody_authority = derive_authority(
            &SeedClass::CustodyAuthority { canonical_mint, wrapped_mint: wrapped_mint.key },
            &self.program_id,
        );
        self.register_pairing_with(
            caller,
            canonical_mint,
            wrapped_mint,
            &custody_account,
            &custody_authority,
        )
    }

    /// Whether `caller` may administer the pairing of `wrapped_mint` with
    /// `canonical_mint`: `NotFound` when the canonical asset is not
    /// registered; else `Unauthorized` unless the caller is the control
    /// authority of the registration; else `NotFound` when the pair is not in
    /// the table.
    pub open spec fn may_administer(
        self,
        caller: Address,
        canonical_mint: Address,
        wrapped_mint: Address,
    ) -> Result<(), SwapError> {
        if !self.registrations().contains_key(canonical_mint) {
            Err(SwapError::NotFound)
        } else if self.registrations()[canonical_mint].authority != caller {
            Err(SwapError::Unauthorized)
        } else if !self.pairings().contains_key((canonical_mint, wrapped_mint)) {
            Err(SwapError::NotFound)
        } else {
            Ok(())
        }
    }

    /// Switches one direction of the pairing of `wrapped_mint` with
    /// `canonical_mint` on or off. Only the control authority of the
    /// registration may do so; a rejected call changes nothing.
    pub fn set_direction(
        &mut self,
        caller: Address,
        canonical_mint: Address,
        wrapped_mint: Address,
        direction: Direction,
        enabled: bool,
    ) -> (r: Result<(), SwapError>)
        requires
            old(self).wf(),
        ensures
            final(self).wf(),
            final(self).program_id() == old(self).program_id(),
            final(self).registrations() == old(self).registrations(),
            r == old(self).may_administer(caller, canonical_mint, wrapped_mint),
            r is Ok ==> final(self).pairings() == old(self).pairings().insert(
                (canonical_mint, wrapped_mint),
                old(self).pairings()[(canonical_mint, wrapped_mint)].with_direction(
                    direction,
                    enabled,
                ),
            ),
            r is Err ==> final(self).pairings() == old(self).pairings(),
            old(self).registrations().contains_key(canonical_mint) && old(self).registrations()[canonical_mint].authority != caller ==> r == Err::<(), SwapError>(
                SwapError::Unauthorized,
            ) && final(self).pairings() == old(self).pairings(),
    {
        let registration = match self.find_registration(&canonical_mint) {
            Some(found) => found,
            None => {
                return Err(SwapError::NotFound);
            },
        };
        if registration.authority != caller {
            return Err(SwapError::Unauthorized);
        }
        let index = match self.pairing_index(&canonical_mint, &wrapped_mint) {
            Some(index) => index,
            None => {
                return Err(SwapError::NotFound);
            },
        };
        let canonical_data = Account { key: canonical_mint, data: registration };
        let mut wrapped_data = Account { key: wrapped_mint, data: self.pairings[index] };
        set_direction(&caller, &canonical_data, &mut wrapped_data, direction, enabled)?;
        let ghost before = *self;
        self.pairings.set(index, wrapped_data.data);
        proof {
            lemma_pairing_replaced(before, *self, index as int, wrapped_data.data);
        }
        Ok(())
    }

    /// Whether `caller` may hand on the control of the registration of
    /// `canonical_mint`: `NotFound` when the asset is not registered, else
    /// `Unauthorized` unless the caller is its control authority.
    pub open spec fn may_transfer_control(self, caller: Address, canonical_mint: Address) -> Result<
        (),
        SwapError,
    > {
        if !self.registrations().contains_key(canonical_mint) {
            Err(SwapError::NotFound)
        } else if self.registrations()[canonical_mint].authority != caller {
            Err(SwapError::Unauthorized)
        } else {
            Ok(())
        }
    }

    /// Hands the control of the registration of `canonical_mint` to
    /// `new_authority`. Only the current control authority may do so, and from
    /// then on only the new one may. The asset and its precision stay as they
    /// are. A rejected call changes nothing.
    pub fn transfer_control(
        &mut self,
        caller: Address,
        canonical_mint: Address,
        new_authority: Address,
    ) -> (r: Result<(), SwapError>)
        requires
            old(self).wf(),
        ensures
            final(self).wf(),
            final(self).program_id() == old(self).program_id(),
            final(self).pairings() == old(self).pairings(),
            r == old(self).may_transfer_control(caller, canonical_mint),
            r is Ok ==> final(self).registrations() == old(self).registrations().insert(
                canonical_mint,
                CanonicalData {
                    authority: new_authority,
                    ..old(self).registrations()[canonical_mint]
                },
            ),
            r is Err ==> final(self).registrations() == old(self).registrations(),
            old(self).registrations().contains_key(canonical_mint) && old(self).registrations()[canonical_mint].authority != caller ==> r == Err::<(), SwapError>(
                SwapError::Unauthorized,
            ) && final(self).registrations() == old(self).registrations(),
    {
        let index = match self.registration_index(&canonical_mint) {
            Some(index) => index,
            None => {
                return Err(SwapError::NotFound);
            },
        };
        let mut ctx = SetCanonicalSwapAuthority {
            current_authority: caller,
            new_authority,
            canonical_data: Account { key: canonical_mint, data: self.registrations[index] },
        };
        set_canonical_swap_authority(&mut ctx)?;
        let ghost before = *self;
        self.registrations.set(index, ctx.canonical_data.data);
        proof {
            lemma_registration_replaced(before, *self, index as int, ctx.canonical_data.data);
        }
        Ok(())
    }

    /// What a swap of wrapped for canonical is given when the table supplies
    /// the records and `mint_authority` and `custody_account` the derived
    /// addresses.
    pub open spec fn wrapped_for_canonical_request(
        self,
        user: Address,
        canonical_mint: Address,
        wrapped_mint: Address,
        source_wrapped_token_account: TokenAccount,
        destination_canonical_token_account: TokenAccount,
        mint_authority: DerivedAuthority,
        custody_account: DerivedAuthority,
    ) -> SwapWrappedForCanonical {
        SwapWrappedForCanonical {
            user,
            destination_canonical_token_account,
            canonical_mint: Mint {
                key: canonical_mint,
                decimals: self.registrations()[canonical_mint].decimals,
            },
            pda_canonical_mint_authority: mint_authority.address,
            source_wrapped_token_account,
            wrapped_token_account: TokenAccount { key: custody_account.address, mint: wrapped_mint },
            canonical_data: Account {
                key: canonical_mint,
                data: self.registrations()[canonical_mint],
            },
            wrapped_data: Account {
                key: wrapped_mint,
                data: self.pairings()[(canonical_mint, wrapped_mint)],
            },
        }
    }

    /// What a swap of wrapped for `canonical_amount` of canonical comes to
    /// for the pair of `canonical_mint` and `wrapped_mint`, where
    /// `mint_authority` and `custody_account` are what the classes of the
    /// mint authority and of the pair's custody account derive to.
    ///
    /// It is rejected with `NotFound` when the pair is not in the table; else
    /// with `DirectionDisabled` when the direction is switched off; else with
    /// `AssetMismatch` when one of the two cannot be derived; else as the swap
    /// on the records is.
    pub open spec fn swap_wrapped_for_canonical_outcome(
        self,
        user: Address,
        canonical_mint: Address,
        wrapped_mint: Address,
        source_wrapped_token_account: TokenAccount,
        destination_canonical_token_account: TokenAccount,
        canonical_amount: u64,
        mint_authority: Option<DerivedAuthority>,
        custody_account: Option<DerivedAuthority>,
    ) -> Result<Swap, SwapError> {
        if !self.pairings().contains_key((canonical_mint, wrapped_mint)) {
            Err(SwapError::NotFound)
        } else if !self.pairings()[(canonical_mint, wrapped_mint)].swap_wrapped_for_canonical_enabled {
            Err(SwapError::DirectionDisabled)
        } else if mint_authority is None || custody_account is None {
            Err(SwapError::AssetMismatch)
        } else {
            self.wrapped_for_canonical_request(
                user,
                canonical_mint,
                wrapped_mint,
                source_wrapped_token_account,
                destination_canonical_token_account,
                mint_authority->Some_0,
                custody_account->Some_0,
            ).outcome(canonical_amount, mint_authority, custody_account)
        }
    }

    /// Swaps wrapped for canonical on a pair of the table, given what the
    /// classes of the mint authority and of the custody account derive to.
    pub fn swap_wrapped_for_canonical_with(
        &self,
        user: Address,
        canonical_mint: Address,
        wrapped_mint: Address,
        source_wrapped_token_account: TokenAccount,
        destination_canonical_token_account: TokenAccount,
        canonical_amount: u64,
        mint_authority: &Option<DerivedAuthority>,
        custody_account: &Option<DerivedAuthority>,
    ) -> (r: Result<Swap, SwapError>)
        requires
            self.wf(),
        ensures
            r == self.swap_wrapped_for_canonical_outcome(
                user,
                canonical_mint,
                wrapped_mint,
                source_wrapped_token_account,
                destination_canonical_token_account,
                canonical_amount,
                *mint_authority,
                *custody_account,
            ),
            self.pairings().contains_key((canonical_mint, wrapped_mint)) && !self.pairings()[(
                canonical_mint,
                wrapped_mint,
            )].swap_wrapped_for_canonical_enabled ==> r == Err::<Swap, SwapError>(
                SwapError::DirectionDisabled,
            ),
    {
        let pairing = match self.find_pairing(&canonical_mint, &wrapped_mint) {
            Some(found) => found,
            None => {
                return Err(SwapError::NotFound);
            },
        };
        let registration = match self.find_registration(&canonical_mint) {
            Some(found) => found,
            None => {
                return Err(SwapError::NotFound);
            },
        };
        if !pairing.swap_wrapped_for_canonical_enabled {
            return Err(SwapError::DirectionDisabled);
        }
        let (authority, account) = match (mint_authority, custody_account) {
            (Some(authority), Some(account)) => (authority.address, account.address),
            _ => {
                return Err(SwapError::AssetMismatch);
            },
        };
        let ctx = SwapWrappedForCanonical {
            user,
            destination_canonical_token_account,
            canonical_mint: Mint { key: canonical_mint, decimals: registration.decimals },
            pda_canonical_mint_authority: authority,
            source_wrapped_token_account,
            wrapped_token_account: TokenAccount { key: account, mint: wrapped_mint },
            canonical_data: Account { key: canonical_mint, data: registration },
            wrapped_data: Account { key: wrapped_mint, data: pairing },
        };
        swap_wrapped_for_canonical_with(&ctx, canonical_amount, mint_authority, custody_account)
    }

    /// Swaps wrapped for `canonical_amount` of canonical on the pair of
    /// `canonical_mint` and `wrapped_mint`: the converted wrapped amount goes
    /// from `source_wrapped_token_account` into the pair's custody account,
    /// and the recomputed canonical amount is minted into
    /// `destination_canonical_token_account`.
    pub fn swap_wrapped_for_canonical(
        &self,
        user: Address,
        canonical_mint: Address,
        wrapped_mint: Address,
        source_wrapped_token_account: TokenAccount,
        destination_canonical_token_account: TokenAccount,
        canonical_amount: u64,
    ) -> (r: Result<Swap, SwapError>)
        requires
            self.wf(),
        ensures
            r == self.swap_wrapped_for_canonical_outcome(
                user,
                canonical_mint,
                wrapped_mint,
                source_wrapped_token_account,
                destination_canonical_token_account,
                canonical_amount,
                derived((SeedClass::MintAuthority { canonical_mint }).seeds(), self.program_id()),
                derived(
                    (SeedClass::CustodyAccount { canonical_mint, wrapped_mint }).seeds(),
                    self.program_id(),
                ),
            ),
            self.pairings().contains_key((canonical_mint, wrapped_mint)) && !self.pairings()[(
                canonical_mint,
                wrapped_mint,
            )].swap_wrapped_for_canonical_enabled ==> r == Err::<Swap, SwapError>(
                SwapError::DirectionDisabled,
            ),
    {
        let mint_authority = derive_authority(
            &SeedClass::MintAuthority { canonical_mint },
            &self.program_id,
        );
        let custody_account = derive_authority(
            &SeedClass::CustodyAccount { canonical_mint, wrapped_mint },
            &self.program_id,
        );
        self.swap_wrapped_for_canonical_with(
            user,
            canonical_mint,
            wrapped_mint,
            source_wrapped_token_account,
            destination_canonical_token_account,
            canonical_amount,
            &mint_authority,
            &custody_account,
        )
    }

    /// What a swap of canonical for wrapped is given when the table supplies
    /// the records and `custody_account` and `custody_authority` the derived
    /// addresses.
    pub open spec fn canonical_for_wrapped_request(
        self,
        user: Address,
        canonical_mint: Address,
        wrapped_mint: Address,
        source_canonical_token_account: TokenAccount,
        destination_wrapped_token_account: TokenAccount,
        custody_account: DerivedAuthority,
        custody_authority: DerivedAuthority,
    ) -> SwapCanonicalForWrapped {
        SwapCanonicalForWrapped {
            user,
            source_canonical_token_account,
            canonical_mint: Mint {
                key: canonical_mint,
                decimals: self.registrations()[canonical_mint].decimals,
            },
            destination_wrapped_token_account,
            wrapped_token_account: TokenAccount { key: custody_account.address, mint: wrapped_mint },
            pda_wrapped_token_authority: custody_authority.address,
            canonical_data: Account {
                key: canonical_mint,
                data: self.registrations()[canonical_mint],
            },
            wrapped_data: Account {
                key: wrapped_mint,
                data: self.pairings()[(canonical_mint, wrapped_mint)],
            },
        }
    }

    /// What a swap of canonical for `wrapped_amount` of wrapped comes to for
    /// the pair of `canonical_mint` and `wrapped_mint`, where
    /// `custody_account` and `custody_authority` are what the classes of the
    /// pair's custody account and of its authority derive to.
    ///
    /// It is rejected with `NotFound` when the pair is not in the table; else
    /// with `DirectionDisabled` when the direction is switched off; else with
    /// `AssetMismatch` when one of the two cannot be derived; else as the swap
    /// on the records is.
    pub open spec fn swap_canonical_for_wrapped_outcome(
        self,
        user: Address,
        canonical_mint: Address,
        wrapped_mint: Address,
        source_canonical_token_account: TokenAccount,
        destination_wrapped_token_account: TokenAccount,
        wrapped_amount: u64,
        custody_account: Option<DerivedAuthority>,
        custody_authority: Option<DerivedAuthority>,
    ) -> Result<Swap, SwapError> {
        if !self.pairings().contains_key((canonical_mint, wrapped_mint)) {
            Err(SwapError::NotFound)
        } else if !self.pairings()[(canonical_mint, wrapped_mint)].swap_canonical_for_wrapped_enabled {
            Err(SwapError::DirectionDisabled)
        } else if custody_account is None || custody_authority is None {
            Err(SwapError::AssetMismatch)
        } else {
            self.canonical_for_wrapped_request(
                user,
                canonical_mint,
                wrapped_mint,
                source_canonical_token_account,
                destination_wrapped_token_account,
                custody_account->Some_0,
                custody_authority->Some_0,
            ).outcome(wrapped_amount, custody_account, custody_authority)
        }
    }

    /// Swaps canonical for wrapped on a pair of the table, given what the
    /// classes of the custody account and of its authority derive to.
    pub fn swap_canonical_for_wrapped_with(
        &self,
        user: Address,
        canonical_mint: Address,
        wrapped_mint: Address,
        source_canonical_token_account: TokenAccount,
        destination_wrapped_token_account: TokenAccount,
        wrapped_amount: u64,
        custody_account: &Option<DerivedAuthority>,
        custody_authority: &Option<DerivedAuthority>,
    ) -> (r: Result<Swap, SwapError>)
        requires
            self.wf(),
        ensures
            r == self.swap_canonical_for_wrapped_outcome(
                user,
                canonical_mint,
                wrapped_mint,
                source_canonical_token_account,
                destination_wrapped_token_account,
                wrapped_amount,
                *custody_account,
                *custody_authority,
            ),
            self.pairings().contains_key((canonical_mint, wrapped_mint)) && !self.pairings()[(
                canonical_mint,
                wrapped_mint,
            )].swap_canonical_for_wrapped_enabled ==> r == Err::<Swap, SwapError>(
                SwapError::DirectionDisabled,
            ),
    {
        let pairing = match self.find_pairing(&canonical_mint, &wrapped_mint) {
            Some(found) => found,
            None => {
                return Err(SwapError::NotFound);
            },
        };
        let registration = match self.find_registration(&canonical_mint) {
            Some(found) => found,
            None => {
                return Err(SwapError::NotFound);
            },
        };
        if !pairing.swap_canonical_for_wrapped_enabled {
            return Err(SwapError::DirectionDisabled);
        }
        let (account, authority) = match (custody_account, custody_authority) {
            (Some(account), Some(authority)) => (account.address, authority.address),
            _ => {
                return Err(SwapError::AssetMismatch);
            },
        };
        let ctx = SwapCanonicalForWrapped {
            user,
            source_canonical_token_account,
            canonical_mint: Mint { key: canonical_mint, decimals: registration.decimals },
            destination_wrapped_token_account,
            wrapped_token_account: TokenAccount { key: account, mint: wrapped_mint },
            pda_wrapped_token_authority: authority,
            canonical_data: Account { key: canonical_mint, data: registration },
            wrapped_data: Account { key: wrapped_mint, data: pairing },
        };
        swap_canonical_for_wrapped_with(&ctx, wrapped_amount, custody_account, custody_authority)
    }

    /// Swaps canonical for `wrapped_amount` of wrapped on the pair of
    /// `canonical_mint` and `wrapped_mint`: the converted canonical amount is
    /// burnt from `source_canonical_token_account`, and the recomputed wrapped
    /// amount is released from the pair's custody account into
    /// `destination_wrapped_token_account`.
    pub fn swap_canonical_for_wrapped(
        &self,
        user: Address,
        canonical_mint: Address,
        wrapped_mint: Address,
        source_canonical_token_account: TokenAccount,
        destination_wrapped_token_account: TokenAccount,
        wrapped_amount: u64,
    ) -> (r: Result<Swap, SwapError>)
        requires
            self.wf(),
        ensures
            r == self.swap_canonical_for_wrapped_outcome(
                user,
                canonical_mint,
                wrapped_mint,
                source_canonical_token_account,
                destination_wrapped_token_account,
                wrapped_amount,
                derived(
                    (SeedClass::CustodyAccount { canonical_mint, wrapped_mint }).seeds(),
                    self.program_id(),
                ),
                derived(
                    (SeedClass::CustodyAuthority { canonical_mint, wrapped_mint }).seeds(),
                    self.program_id(),
                ),
            ),
            self.pairings().contains_key((canonical_mint, wrapped_mint)) && !self.pairings()[(
                canonical_mint,
                wrapped_mint,
            )].swap_canonical_for_wrapped_enabled ==> r == Err::<Swap, SwapError>(
                SwapError::DirectionDisabled,
            ),
    {
        let custody_account = derive_authority(
            &SeedClass::CustodyAccount { canonical_mint, wrapped_mint },
            &self.program_id,
        );
        let custody_authority = derive_authority(
            &SeedClass::CustodyAuthority { canonical_mint, wrapped_mint },
            &self.program_id,
        );
        self.swap_canonical_for_wrapped_with(
            user,
            canonical_mint,
            wrapped_mint,
            source_canonical_token_account,
            destination_wrapped_token_account,
            wrapped_amount,
            &custody_account,
            &custody_authority,
        )
    }
}

impl Clone for Registry {
    /// A copy of the table, to go back to when an operation has to be undone.
    fn clone(&self) -> (r: Registry)
        ensures
            self.wf() ==> r.wf(),
            r.program_id() == self.program_id(),
            r.registrations() == self.registrations(),
            r.pairings() == self.pairings(),
    {
        let r = Registry {
            program_id: self.program_id,
            registrations: self.registrations.clone(),
            pairings: self.pairings.clone(),
        };
        assert(r.registrations@ =~= self.registrations@);
        assert(r.pairings@ =~= self.pairings@);
        r
    }
}

/// Keeping one more registration, of an asset that had none, adds it to the
/// registrations and leaves the pairings as they were.
proof fn lemma_registration_added(before: Registry, after: Registry, data: CanonicalData)
    requires
        before.wf(),
        !before.has_registration(data.mint),
        after.program_id == before.program_id,
        after.pairings == before.pairings,
        after.registrations@ == before.registrations@.push(data),
    ensures
        after.wf(),
        after.registrations() == before.registrations().insert(data.mint, data),
        after.pairings() == before.pairings(),
{
    let old_len = before.registrations@.len() as int;
    assert forall|mint: Address| before.has_registration(mint) implies after.has_registration(
        mint,
    ) by {
        let i = choose|i: int|
            0 <= i < before.registrations@.len() && before.registrations@[i].mint == mint;
        assert(after.registrations@[i].mint == mint);
    }
    assert(after.has_registration(data.mint)) by {
        assert(after.registrations@[old_len].mint == data.mint);
    }
    assert forall|mint: Address| after.has_registration(mint) && mint
        != data.mint implies before.has_registration(mint) by {
        let i = choose|i: int|
            0 <= i < after.registrations@.len() && after.registrations@[i].mint == mint;
        assert(before.registrations@[i].mint == mint);
    }
    assert forall|mint: Address| #[trigger]
        after.registrations().contains_key(mint) implies after.registrations()[mint]
        == before.registrations().insert(data.mint, data)[mint] by {
        let j = choose|i: int|
            0 <= i < after.registrations@.len() && after.registrations@[i].mint == mint;
        if mint == data.mint {
            assert(j == old_len);
        } else {
            let i = choose|i: int|
                0 <= i < before.registrations@.len() && before.registrations@[i].mint == mint;
            assert(after.registrations@[i].mint == mint);
            assert(i == j);
        }
    }
    assert(after.registrations() =~= before.registrations().insert(data.mint, data));
    assert forall|pair: (Address, Address)|
        before.has_pairing(pair.0, pair.1) == after.has_pairing(pair.0, pair.1) by {}
    assert(after.pairings() =~= before.pairings());
}

/// Keeping one more pairing, of a pair that had none and whose canonical
/// asset is registered, adds it to the pairings and leaves the registrations
/// as they were.
proof fn lemma_pairing_added(before: Registry, after: Registry, data: WrappedData)
    requires
        before.wf(),
        before.has_registration(data.canonical_data),
        !before.has_pairing(data.canonical_data, data.mint),
        after.program_id == before.program_id,
        after.registrations == before.registrations,
        after.pairings@ == before.pairings@.push(data),
    ensures
        after.wf(),
        after.registrations() == before.registrations(),
        after.pairings() == before.pairings().insert((data.canonical_data, data.mint), data),
{
    let old_len = before.pairings@.len() as int;
    let added = (data.canonical_data, data.mint);
    assert forall|pair: (Address, Address)|
        before.has_pairing(pair.0, pair.1) implies after.has_pairing(pair.0, pair.1) by {
        let i = choose|i: int|
            0 <= i < before.pairings@.len() && before.pairings@[i].canonical_data == pair.0
                && before.pairings@[i].mint == pair.1;
        assert(after.pairings@[i].canonical_data == pair.0 && after.pairings@[i].mint == pair.1);
    }
    assert(after.has_pairing(added.0, added.1)) by {
        assert(after.pairings@[old_len] == data);
    }
    assert forall|pair: (Address, Address)|
        after.has_pairing(pair.0, pair.1) && pair != added implies before.has_pairing(
            pair.0,
            pair.1,
        ) by {
        let i = choose|i: int|
            0 <= i < after.pairings@.len() && after.pairings@[i].canonical_data == pair.0
                && after.pairings@[i].mint == pair.1;
        assert(before.pairings@[i].canonical_data == pair.0 && before.pairings@[i].mint == pair.1);
    }
    assert forall|pair: (Address, Address)| #[trigger]
        after.pairings().contains_key(pair) implies after.pairings()[pair]
        == before.pairings().insert(added, data)[pair] by {
        let j = choose|i: int|
            0 <= i < after.pairings@.len() && after.pairings@[i].canonical_data == pair.0
                && after.pairings@[i].mint == pair.1;
        if pair == added {
            assert(j == old_len);
        } else {
            let i = choose|i: int|
                0 <= i < before.pairings@.len() && before.pairings@[i].canonical_data == pair.0
                    && before.pairings@[i].mint == pair.1;
            assert(after.pairings@[i].canonical_data == pair.0 && after.pairings@[i].mint
                == pair.1);
            assert(i == j);
        }
    }
    assert(after.pairings() =~= before.pairings().insert(added, data));
    assert(after.registrations() =~= before.registrations());
    assert forall|i: int| 0 <= i < after.pairings@.len() implies after.has_registration(
        #[trigger] after.pairings@[i].canonical_data,
    ) by {
        if i < old_len {
            assert(before.has_registration(before.pairings@[i].canonical_data));
        }
    }
}

/// Replacing a pairing by one of the same pair changes that pairing and
/// nothing else.
proof fn lemma_pairing_replaced(before: Registry, after: Registry, index: int, data: WrappedData)
    requires
        before.wf(),
        0 <= index < before.pairings@.len(),
        data.canonical_data == before.pairings@[index].canonical_data,
        data.mint == before.pairings@[index].mint,
        after.program_id == before.program_id,
        after.registrations == before.registrations,
        after.pairings@ == before.pairings@.update(index, data),
    ensures
        after.wf(),
        after.registrations() == before.registrations(),
        after.pairings() == before.pairings().insert((data.canonical_data, data.mint), data),
{
    let replaced = (data.canonical_data, data.mint);
    assert forall|pair: (Address, Address)|
        before.has_pairing(pair.0, pair.1) == after.has_pairing(pair.0, pair.1) by {
        if before.has_pairing(pair.0, pair.1) {
            let i = choose|i: int|
                0 <= i < before.pairings@.len() && before.pairings@[i].canonical_data == pair.0
                    && before.pairings@[i].mint == pair.1;
            assert(after.pairings@[i].canonical_data == pair.0 && after.pairings@[i].mint
                == pair.1);
        }
        if after.has_pairing(pair.0, pair.1) {
            let i = choose|i: int|
                0 <= i < after.pairings@.len() && after.pairings@[i].canonical_data == pair.0
                    && after.pairings@[i].mint == pair.1;
            assert(before.pairings@[i].canonical_data == pair.0 && before.pairings@[i].mint
                == pair.1);
        }
    }
    assert(before.has_pairing(replaced.0, replaced.1)) by {
        assert(before.pairings@[index].canonical_data == replaced.0);
    }
    assert forall|pair: (Address, Address)| #[trigger]
        after.pairings().contains_key(pair) implies after.pairings()[pair]
        == before.pairings().insert(replaced, data)[pair] by {
        let j = choose|i: int|
            0 <= i < after.pairings@.len() && after.pairings@[i].canonical_data == pair.0
                && after.pairings@[i].mint == pair.1;
        let i = choose|i: int|
            0 <= i < before.pairings@.len() && before.pairings@[i].canonical_data == pair.0
                && before.pairings@[i].mint == pair.1;
        assert(before.pairings@[j].canonical_data == pair.0 && before.pairings@[j].mint == pair.1);
        assert(i == j);
        if pair == replaced {
            assert(j == index);
        }
    }
    assert(after.pairings() =~= before.pairings().insert(replaced, data));
    assert(after.registrations() =~= before.registrations());
    assert forall|i: int| 0 <= i < after.pairings@.len() implies after.has_registration(
        #[trigger] after.pairings@[i].canonical_data,
    ) by {
        assert(before.has_registration(before.pairings@[i].canonical_data));
    }
}

/// Replacing a registration by one of the same asset changes that
/// registration and nothing else.
proof fn lemma_registration_replaced(
    before: Registry,
    after: Registry,
    index: int,
    data: CanonicalData,
)
    requires
        before.wf(),
        0 <= index < before.registrations@.len(),
        data.mint == before.registrations@[index].mint,
        after.program_id == before.program_id,
        after.pairings == before.pairings,
        after.registrations@ == before.registrations@.update(index, data),
    ensures
        after.wf(),
        after.registrations() == before.registrations().insert(data.mint, data),
        after.pairings() == before.pairings(),
{
    assert forall|mint: Address| before.has_registration(mint) == after.has_registration(mint) by {
        if before.has_registration(mint) {
            let i = choose|i: int|
                0 <= i < before.registrations@.len() && before.registrations@[i].mint == mint;
            assert(after.registrations@[i].mint == mint);
        }
        if after.has_registration(mint) {
            let i = choose|i: int|
                0 <= i < after.registrations@.len() && after.registrations@[i].mint == mint;
            assert(before.registrations@[i].mint == mint);
        }
    }
    assert(before.has_registration(data.mint)) by {
        assert(before.registrations@[index].mint == data.mint);
    }
    assert forall|mint: Address| #[trigger]
        after.registrations().contains_key(mint) implies after.registrations()[mint]
        == before.registrations().insert(data.mint, data)[mint] by {
        let j = choose|i: int|
            0 <= i < after.registrations@.len() && after.registrations@[i].mint == mint;
        let i = choose|i: int|
            0 <= i < before.registrations@.len() && before.registrations@[i].mint == mint;
        assert(before.registrations@[j].mint == mint);
        assert(i == j);
        if mint == data.mint {
            assert(j == index);
        }
    }
    assert(after.registrations() =~= before.registrations().insert(data.mint, data));
    assert(after.pairings() =~= before.pairings());
    assert forall|i: int| 0 <= i < after.pairings@.len() implies after.has_registration(
        #[trigger] after.pairings@[i].canonical_data,
    ) by {
        assert(before.has_registration(before.pairings@[i].canonical_data));
    }
}

} // verus!
