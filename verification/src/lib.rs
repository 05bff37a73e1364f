//! A canonical/wrapped token swap engine.
//!
//! A wrapped representation of an asset is exchanged for its canonical
//! representation, and back, at the fixed ratio given by the two assets'
//! decimal precisions. Minting and custody are held by authorities derived
//! from the assets' identities, never by an end user.
//!
//! - [`decimals`] converts amounts between two precisions without creating or
//!   destroying value.
//! - [`authority`] derives the mint authority of a canonical asset and the
//!   custody account and custody authority of a pair.
//! - [`records`] holds the registration of a canonical asset and the pairing
//!   of a wrapped asset with it.
//! - [`registration`], [`swap`] and [`admin`] are the operations on records
//!   that the caller supplies: each checks what it is given and returns the
//!   records to store and the calls to make on the token ledger.
//! - [`registry`] keeps the records in a table and offers the same operations
//!   by asset.
//! - [`ledger`] describes the calls on the token ledger and decides how an
//!   operation goes on as the ledger answers them.
//!
//! The ledger itself, the accounts and the signatures are not part of the
//! engine. The ledger applies the calls of one operation together with the
//! changed records, or nothing of them.

pub mod address;
pub mod admin;
pub mod authority;
pub mod decimals;
pub mod error;
pub mod ledger;
pub mod records;
pub mod registration;
pub mod registry;
pub mod swap;

pub use address::Address;
pub use admin::{
    disable_wrapped_token, enable_wrapped_token, set_canonical_swap_authority, set_direction,
    Direction, DisableWrappedToken, EnableWrappedToken, SetCanonicalSwapAuthority,
};
pub use authority::{derive_authority, is_derived_address, DerivedAuthority, SeedClass};
pub use decimals::{convert, Conversion};
pub use error::SwapError;
pub use ledger::{next_step, Authorization, AuthorityType, LedgerCall, LedgerOutcome, Step};
pub use records::{Account, CanonicalData, Mint, TokenAccount, WrappedData};
pub use registration::{
    initialize_canonical_token, initialize_canonical_token_with, initialize_wrapped_token,
    initialize_wrapped_token_with, InitializeCanonicalToken, InitializeWrappedToken, Registered,
};
pub use registry::Registry;
pub use swap::{
    swap_canonical_for_wrapped, swap_canonical_for_wrapped_with, swap_wrapped_for_canonical,
    swap_wrapped_for_canonical_with, Swap, SwapCanonicalForWrapped, SwapWrappedForCanonical,
};
