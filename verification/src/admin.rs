//! Administration of a registration and of its pairings.
//!
//! Only the control authority of a registration may switch the directions of
//! its pairings or hand the control on. A call by anyone else is rejected and
//! changes nothing.
//!
//! A pairing has one switch per direction, so that one direction can stay
//! open while the other is closed. There is no pause that covers both.

use crate::address::Address;
use crate::error::SwapError;
use crate::records::{Account, CanonicalData, WrappedData};
use vstd::prelude::*;

verus! {

/// A direction of swapping.
#[derive(Clone, Copy, Debug, PartialEq, Eq, Structural)]
pub enum Direction {
    /// Wrapped is given, canonical is received.
    WrappedForCanonical,
    /// Canonical is given, wrapped is received.
    CanonicalForWrapped,
}

impl Direction {
    /// The direction that the flag of an instruction stands for: wrapped for
    /// canonical when it is set, canonical for wrapped when it is not.
    pub open spec fn of_flag(direction_swap_wrapped: bool) -> Direction {
        if direction_swap_wrapped {
            Direction::WrappedForCanonical
        } else {
            Direction::CanonicalForWrapped
        }
    }

    /// The direction that the flag of an instruction stands for.
    pub fn from_flag(direction_swap_wrapped: bool) -> (r: Direction)
        ensures
            r == Direction::of_flag(direction_swap_wrapped),
    {
        if direction_swap_wrapped {
            Direction::WrappedForCanonical
        } else {
            Direction::CanonicalForWrapped
        }
    }
}

impl WrappedData {
    /// The pairing with `direction` switched to `enabled` and nothing else
    /// changed.
    pub open spec fn with_direction(self, direction: Direction, enabled: bool) -> WrappedData {
        match direction {
            Direction::WrappedForCanonical => WrappedData {
                swap_wrapped_for_canonical_enabled: enabled,
                ..self
            },
            Direction::CanonicalForWrapped => WrappedData {
                swap_canonical_for_wrapped_enabled: enabled,
                ..self
            },
        }
    }
}

/// Whether `caller` may administer the pairing `wrapped_data` of the
/// registration `canonical_data`: `Unauthorized` unless the caller is the
/// control authority of the registration, else `NotFound` unless the pairing
/// refers to that registration.
pub open spec fn may_administer(
    caller: Address,
    canonical_data: Account<CanonicalData>,
    wrapped_data: Account<WrappedData>,
) -> Result<(), SwapError> {
    if canonical_data.data.authority != caller {
        Err(SwapError::Unauthorized)
    } else if wrapped_data.data.canonical_data != canonical_data.key {
        Err(SwapError::NotFound)
    } else {
        Ok(())
    }
}

/// Switches one direction of a pairing on or off. Only the control authority
/// of the pairing's registration may do so; a rejected call changes nothing.
pub fn set_direction(
    caller: &Address,
    canonical_data: &Account<CanonicalData>,
    wrapped_data: &mut Account<WrappedData>,
    direction: Direction,
    enabled: bool,
) -> (r: Result<(), SwapError>)
    ensures
        r == may_administer(*caller, *canonical_data, *old(wrapped_data)),
        r is Ok ==> *final(wrapped_data) == (Account {
            key: old(wrapped_data).key,
            data: old(wrapped_data).data.with_direction(direction, enabled),
        }),
        r is Err ==> *final(wrapped_data) == *old(wrapped_data),
        *caller != canonical_data.data.authority ==> r == Err::<(), SwapError>(
            SwapError::Unauthorized,
        ) && *final(wrapped_data) == *old(wrapped_data),
{
    if canonical_data.data.authority != *caller {
        return Err(SwapError::Unauthorized);
    }
    if wrapped_data.data.canonical_data != canonical_data.key {
        return Err(SwapError::NotFound);
    }
    match direction {
        Direction::WrappedForCanonical => {
            wrapped_data.data.swap_wrapped_for_canonical_enabled = enabled;
        },
        Direction::CanonicalForWrapped => {
            wrapped_data.data.swap_canonical_for_wrapped_enabled = enabled;
        },
    }
    Ok(())
}

/// What permitting a direction of a pairing is given.
#[derive(Clone, Copy, Debug, PartialEq, Eq)]
pub struct EnableWrappedToken {
    /// The caller, who has to be the control authority of the registration.
    pub current_authority: Address,
    /// The registration of the canonical asset.
    pub canonical_data: Account<CanonicalData>,
    /// The pairing to change.
    pub wrapped_data: Account<WrappedData>,
}

/// Permits one direction of a pairing: wrapped for canonical when
/// `direction_swap_wrapped` is set, canonical for wrapped when it is not.
pub fn enable_wrapped_token(ctx: &mut EnableWrappedToken, direction_swap_wrapped: bool) -> (r:
    Result<(), SwapError>)
    ensures
        r == may_administer(
            old(ctx).current_authority,
            old(ctx).canonical_data,
            old(ctx).wrapped_data,
        ),
        r is Ok ==> *final(ctx) == (EnableWrappedToken {
            wrapped_data: Account {
                key: old(ctx).wrapped_data.key,
                data: old(ctx).wrapped_data.data.with_direction(
                    Direction::of_flag(direction_swap_wrapped),
                    true,
                ),
            },
            ..*old(ctx)
        }),
        r is Err ==> *final(ctx) == *old(ctx),
        old(ctx).current_authority != old(ctx).canonical_data.data.authority ==> r == Err::<
            (),
            SwapError,
        >(SwapError::Unauthorized) && *final(ctx) == *old(ctx),
{
    let caller = ctx.current_authority;
    let canonical_data = ctx.canonical_data;
    let mut wrapped_data = ctx.wrapped_data;
    let r = set_direction(
        &caller,
        &canonical_data,
        &mut wrapped_data,
        Direction::from_flag(direction_swap_wrapped),
        true,
    );
    ctx.wrapped_data = wrapped_data;
    r
}

/// What forbidding a direction of a pairing is given.
#[derive(Clone, Copy, Debug, PartialEq, Eq)]
pub struct DisableWrappedToken {
    /// The caller, who has to be the control authority of the registration.
    pub current_authority: Address,
    /// The registration of the canonical asset.
    pub canonical_data: Account<CanonicalData>,
    /// The pairing to change.
    pub wrapped_data: Account<WrappedData>,
}

/// Forbids one direction of a pairing: wrapped for canonical when
/// `direction_swap_wrapped` is set, canonical for wrapped when it is not.
pub fn disable_wrapped_token(ctx: &mut DisableWrappedToken, direction_swap_wrapped: bool) -> (r:
    Result<(), SwapError>)
    ensures
        r == may_administer(
            old(ctx).current_authority,
            old(ctx).canonical_data,
            old(ctx).wrapped_data,
        ),
        r is Ok ==> *final(ctx) == (DisableWrappedToken {
            wrapped_data: Account {
                key: old(ctx).wrapped_data.key,
                data: old(ctx).wrapped_data.data.with_direction(
                    Direction::of_flag(direction_swap_wrapped),
                    false,
                ),
            },
            ..*old(ctx)
        }),
        r is Err ==> *final(ctx) == *old(ctx),
        old(ctx).current_authority != old(ctx).canonical_data.data.authority ==> r == Err::<
            (),
            SwapError,
        >(SwapError::Unauthorized) && *final(ctx) == *old(ctx),
{
    let caller = ctx.current_authority;
    let canonical_data = ctx.canonical_data;
    let mut wrapped_data = ctx.wrapped_data;
    let r = set_direction(
        &caller,
        &canonical_data,
        &mut wrapped_data,
        Direction::from_flag(direction_swap_wrapped),
        false,
    );
    ctx.wrapped_data = wrapped_data;
    r
}

/// What handing on the control of a registration is given.
#[derive(Clone, Copy, Debug, PartialEq, Eq)]
pub struct SetCanonicalSwapAuthority {
    /// The caller, who has to be the control authority of the registration.
    pub current_authority: Address,
    /// Who the control goes to.
    pub new_authority: Address,
    /// The registration.
    pub canonical_data: Account<CanonicalData>,
}

/// Hands the control of a registration to `new_authority`. Only the current
/// control authority may do so; from then on only the new one may. The asset
/// and its precision stay as they are. A rejected call changes nothing.
pub fn set_canonical_swap_authority(ctx: &mut SetCanonicalSwapAuthority) -> (r: Result<
    (),
    SwapError,
>)
    ensures
        r is Ok <==> old(ctx).current_authority == old(ctx).canonical_data.data.authority,
        old(ctx).current_authority != old(ctx).canonical_data.data.authority ==> r == Err::<
            (),
            SwapError,
        >(SwapError::Unauthorized) && *final(ctx) == *old(ctx),
        r is Ok ==> *final(ctx) == (SetCanonicalSwapAuthority {
            canonical_data: Account {
                key: old(ctx).canonical_data.key,
                data: CanonicalData {
                    authority: old(ctx).new_authority,
                    ..old(ctx).canonical_data.data
                },
            },
            ..*old(ctx)
        }),
{
    if ctx.canonical_data.data.authority != ctx.current_authority {
        return Err(SwapError::Unauthorized);
    }
    ctx.canonical_data.data.authority = ctx.new_authority;
    Ok(())
}

} // verus!
