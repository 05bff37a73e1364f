//! Derived authorities.
//!
//! The authority that may mint a canonical asset, the custody account that
//! pools a wrapped asset and the authority that owns that account have no key
//! of their own. Each is derived from a fixed seed, the identities of the
//! assets it is scoped to, and the identity of the engine. Anyone can
//! recompute the address; the bump seed that comes with it is what the engine
//! needs to act as that address.

use crate::address::Address;
use anchor_lang::prelude::Pubkey;
use vstd::prelude::*;
use vstd::slice::slice_to_vec;

verus! {

/// Seed of the authority that mints a canonical asset: `can_mint_authority`.
pub const CANONICAL_MINT_AUTHORITY_PDA_SEED: [u8; 18] = [
    99, 97, 110, 95, 109, 105, 110, 116, 95, 97, 117, 116, 104, 111, 114, 105, 116, 121,
];

/// Seed of the account that pools a wrapped asset: `token_account_seed`.
pub const WRAPPED_TOKEN_ACCOUNT_PDA_SEED: [u8; 18] = [
    116, 111, 107, 101, 110, 95, 97, 99, 99, 111, 117, 110, 116, 95, 115, 101, 101, 100,
];

/// Seed of the authority that owns a custody account: `wrapped_acct_authority`.
pub const WRAPPED_TOKEN_OWNER_AUTHORITY_PDA_SEED: [u8; 22] = [
    119, 114, 97, 112, 112, 101, 100, 95, 97, 99, 99, 116, 95, 97, 117, 116, 104, 111, 114, 105,
    116, 121,
];

/// What a derivation is scoped to.
#[derive(Clone, Copy, Debug, PartialEq, Eq)]
pub enum SeedClass {
    /// The authority that mints one canonical asset.
    MintAuthority { canonical_mint: Address },
    /// The account that pools one wrapped asset for one canonical asset.
    CustodyAccount { canonical_mint: Address, wrapped_mint: Address },
    /// The authority that owns the custody account of one pair.
    CustodyAuthority { canonical_mint: Address, wrapped_mint: Address },
}

/// An address derived for a seed class, with the bump seed that proves it.
#[derive(Clone, Copy, Debug, PartialEq, Eq)]
pub struct DerivedAuthority {
    pub address: Address,
    pub bump: u8,
}

/// The bytes of each seed of a list.
pub open spec fn seed_bytes(seeds: Seq<Vec<u8>>) -> Seq<Seq<u8>> {
    seeds.map_values(|seed: Vec<u8>| seed@)
}

/// The program address and bump seed that the search for a program derived
/// address finds for `seeds` under `program_id`, if it finds one.
pub uninterp spec fn program_address(seeds: Seq<Seq<u8>>, program_id: Seq<u8>) -> Option<
    (Seq<u8>, u8),
>;

/// The address whose bytes are `bytes`.
pub open spec fn address_of(bytes: Seq<u8>) -> Address {
    choose|address: Address| address@ == bytes
}

/// The authority derived from `seeds` for the engine `program_id`.
pub open spec fn derived(seeds: Seq<Seq<u8>>, program_id: Address) -> Option<DerivedAuthority> {
    match program_address(seeds, program_id@) {
        Some((bytes, bump)) => Some(DerivedAuthority { address: address_of(bytes), bump }),
        None => None,
    }
}

/// Whether a derivation that came to `authority` gave the address `address`.
pub open spec fn derives_to(authority: Option<DerivedAuthority>, address: Address) -> bool {
    authority matches Some(found) && found.address == address
}

/// Checks whether a derivation that came to `authority` gave the address
/// `address`.
pub fn is_derived_address(authority: &Option<DerivedAuthority>, address: &Address) -> (r: bool)
    ensures
        r == derives_to(*authority, *address),
{
    match authority {
        Some(found) => found.address == *address,
        None => false,
    }
}

impl SeedClass {
    /// The seeds of the class: its fixed seed, then the identities it is
    /// scoped to.
    pub open spec fn seeds(self) -> Seq<Seq<u8>> {
        match self {
            SeedClass::MintAuthority { canonical_mint } => seq![
                CANONICAL_MINT_AUTHORITY_PDA_SEED@,
                canonical_mint@,
            ],
            SeedClass::CustodyAccount { canonical_mint, wrapped_mint } => seq![
                WRAPPED_TOKEN_ACCOUNT_PDA_SEED@,
                canonical_mint@,
                wrapped_mint@,
            ],
            SeedClass::CustodyAuthority { canonical_mint, wrapped_mint } => seq![
                WRAPPED_TOKEN_OWNER_AUTHORITY_PDA_SEED@,
                canonical_mint@,
                wrapped_mint@,
            ],
        }
    }

    /// The seeds with which the engine signs as the derived address: the
    /// seeds of the class, then the bump seed.
    pub open spec fn signer_seeds(self, bump: u8) -> Seq<Seq<u8>> {
        self.seeds().push(seq![bump])
    }

    /// Builds the seeds of the class.
    pub fn to_seeds(&self) -> (r: Vec<Vec<u8>>)
        ensures
            seed_bytes(r@) == self.seeds(),
    {
        let mut seeds: Vec<Vec<u8>> = Vec::new();
        match self {
            SeedClass::MintAuthority { canonical_mint } => {
                seeds.push(slice_to_vec(CANONICAL_MINT_AUTHORITY_PDA_SEED.as_slice()));
                seeds.push(canonical_mint.to_vec());
            },
            SeedClass::CustodyAccount { canonical_mint, wrapped_mint } => {
                seeds.push(slice_to_vec(WRAPPED_TOKEN_ACCOUNT_PDA_SEED.as_slice()));
                seeds.push(canonical_mint.to_vec());
                seeds.push(wrapped_mint.to_vec());
            },
            SeedClass::CustodyAuthority { canonical_mint, wrapped_mint } => {
                seeds.push(slice_to_vec(WRAPPED_TOKEN_OWNER_AUTHORITY_PDA_SEED.as_slice()));
                seeds.push(canonical_mint.to_vec());
                seeds.push(wrapped_mint.to_vec());
            },
        }
        assert(seed_bytes(seeds@) =~= self.seeds());
        seeds
    }

    /// Builds the seeds with which the engine signs as the derived address.
    pub fn to_signer_seeds(&self, bump: u8) -> (r: Vec<Vec<u8>>)
        ensures
            seed_bytes(r@) == self.signer_seeds(bump),
    {
        let mut seeds = self.to_seeds();
        let mut last: Vec<u8> = Vec::new();
        last.push(bump);
        assert(last@ =~= seq![bump]);
        seeds.push(last);
        assert(seed_bytes(seeds@) =~= self.signer_seeds(bump));
        seeds
    }
}

/// Derivations are scoped. A derivation hashes its seeds one after the other,
/// and two classes whose seeds run together to the same bytes are one class
/// of the same assets. So the custody account and the custody authority of a
/// pair are derived from other bytes than those of any other pair, and than
/// any mint authority.
pub proof fn lemma_seeds_are_scoped(first: SeedClass, second: SeedClass)
    requires
        first.seeds().flatten() == second.seeds().flatten(),
    ensures
        first == second,
{
    lemma_joined_seeds(first);
    lemma_joined_seeds(second);
    let joined = first.seeds().flatten();
    match (first, second) {
        (
            SeedClass::MintAuthority { canonical_mint: a },
            SeedClass::MintAuthority { canonical_mint: b },
        ) => {
            assert(a@ =~= joined.subrange(18, 50));
            assert(b@ =~= joined.subrange(18, 50));
            a.lemma_view_injective(b);
        },
        (
            SeedClass::CustodyAccount { canonical_mint: a, wrapped_mint: c },
            SeedClass::CustodyAccount { canonical_mint: b, wrapped_mint: d },
        ) => {
            assert(a@ =~= joined.subrange(18, 50));
            assert(b@ =~= joined.subrange(18, 50));
            assert(c@ =~= joined.subrange(50, 82));
            assert(d@ =~= joined.subrange(50, 82));
            a.lemma_view_injective(b);
            c.lemma_view_injective(d);
        },
        (
            SeedClass::CustodyAuthority { canonical_mint: a, wrapped_mint: c },
            SeedClass::CustodyAuthority { canonical_mint: b, wrapped_mint: d },
        ) => {
            assert(a@ =~= joined.subrange(22, 54));
            assert(b@ =~= joined.subrange(22, 54));
            assert(c@ =~= joined.subrange(54, 86));
            assert(d@ =~= joined.subrange(54, 86));
            a.lemma_view_injective(b);
            c.lemma_view_injective(d);
        },
        _ => {
            assert(first.seeds().flatten().len() != second.seeds().flatten().len());
        },
    }
}

/// The seeds of a class, one after the other.
proof fn lemma_joined_seeds(class: SeedClass)
    ensures
        class.seeds().flatten() == match class {
            SeedClass::MintAuthority { canonical_mint } => CANONICAL_MINT_AUTHORITY_PDA_SEED@
                + canonical_mint@,
            SeedClass::CustodyAccount { canonical_mint, wrapped_mint } =>
                WRAPPED_TOKEN_ACCOUNT_PDA_SEED@ + canonical_mint@ + wrapped_mint@,
            SeedClass::CustodyAuthority { canonical_mint, wrapped_mint } =>
                WRAPPED_TOKEN_OWNER_AUTHORITY_PDA_SEED@ + canonical_mint@ + wrapped_mint@,
        },
        class.seeds().flatten().len() == match class {
            SeedClass::MintAuthority { .. } => 50nat,
            SeedClass::CustodyAccount { .. } => 82nat,
            SeedClass::CustodyAuthority { .. } => 86nat,
        },
{
    reveal_with_fuel(Seq::flatten, 4);
    let seeds = class.seeds();
    match class {
        SeedClass::MintAuthority { canonical_mint } => {
            assert(seeds.drop_first() =~= seq![canonical_mint@]);
            assert(seeds.drop_first().drop_first() =~= Seq::<Seq<u8>>::empty());
            assert(seeds.flatten() =~= CANONICAL_MINT_AUTHORITY_PDA_SEED@ + canonical_mint@);
        },
        SeedClass::CustodyAccount { canonical_mint, wrapped_mint } => {
            assert(seeds.drop_first() =~= seq![canonical_mint@, wrapped_mint@]);
            assert(seeds.drop_first().drop_first() =~= seq![wrapped_mint@]);
            assert(seeds.drop_first().drop_first().drop_first() =~= Seq::<Seq<u8>>::empty());
            assert(seeds.flatten() =~= WRAPPED_TOKEN_ACCOUNT_PDA_SEED@ + canonical_mint@
                + wrapped_mint@);
        },
        SeedClass::CustodyAuthority { canonical_mint, wrapped_mint } => {
            assert(seeds.drop_first() =~= seq![canonical_mint@, wrapped_mint@]);
            assert(seeds.drop_first().drop_first() =~= seq![wrapped_mint@]);
            assert(seeds.drop_first().drop_first().drop_first() =~= Seq::<Seq<u8>>::empty());
            assert(seeds.flatten() =~= WRAPPED_TOKEN_OWNER_AUTHORITY_PDA_SEED@ + canonical_mint@
                + wrapped_mint@);
        },
    }
}

/// Calls `Pubkey::try_find_program_address` of `anchor_lang`. The search
/// tries the bump seeds from 255 downwards and hashes the seeds, the bump seed
/// and the program id; what it returns depends on nothing else. The contract
/// claims only that: the result is the named `program_address` of the seeds'
/// bytes and the program id's bytes. Nothing is claimed about which address
/// that is. The search returns `None`, and never panics, where no bump seed
/// gives an address or the seeds are too many or too long.
#[verifier::external_body]
fn find_program_address(seeds: &Vec<Vec<u8>>, program_id: &Address) -> (r: Option<(Address, u8)>)
    ensures
        match r {
            Some((address, bump)) => program_address(seed_bytes(seeds@), program_id@) == Some(
                (address@, bump),
            ),
            None => program_address(seed_bytes(seeds@), program_id@) is None,
        },
{
    let parts: Vec<&[u8]> = seeds.iter().map(|seed| seed.as_slice()).collect();
    Pubkey::try_find_program_address(&parts, &Pubkey::new_from_array(program_id.bytes)).map(
        |(key, bump)| (Address { bytes: key.to_bytes() }, bump),
    )
}

/// Derives the authority for `seeds` under the engine `program_id`.
pub fn derive_from_seeds(seeds: &Vec<Vec<u8>>, program_id: &Address) -> (r: Option<
    DerivedAuthority,
>)
    ensures
        r == derived(seed_bytes(seeds@), *program_id),
{
    match find_program_address(seeds, program_id) {
        Some((address, bump)) => {
            proof {
                address.lemma_view_injective(address_of(address@));
            }
            Some(DerivedAuthority { address, bump })
        },
        None => None,
    }
}

/// Derives the authority of a seed class under the engine `program_id`.
/// The same class and engine always give the same address and bump seed.
pub fn derive_authority(class: &SeedClass, program_id: &Address) -> (r: Option<DerivedAuthority>)
    ensures
        r == derived(class.seeds(), *program_id),
{
    let seeds = class.to_seeds();
    derive_from_seeds(&seeds, program_id)
}

} // verus!
