//! Conversion of amounts between two decimal precisions.
//!
//! Scaling up multiplies by a power of ten and is exact. Scaling down divides
//! and truncates; the truncated result is scaled back up to the amount of the
//! source that it stands for, so that no dust is created or destroyed.

use crate::error::SwapError;
use vstd::arithmetic::div_mod::{
    lemma_basic_div, lemma_div_multiples_vanish, lemma_fundamental_div_mod,
};
use vstd::arithmetic::mul::lemma_mul_is_commutative;
use vstd::prelude::*;

verus! {

/// Ten raised to `exponent`.
pub open spec fn pow10(exponent: nat) -> nat
    decreases exponent,
{
    if exponent == 0 {
        1
    } else {
        10 * pow10((exponent - 1) as nat)
    }
}

/// A power of ten is at least one.
pub proof fn lemma_pow10_positive(exponent: nat)
    ensures
        pow10(exponent) >= 1,
    decreases exponent,
{
    if exponent > 0 {
        lemma_pow10_positive((exponent - 1) as nat);
    }
}

/// Powers of ten grow with the exponent.
pub proof fn lemma_pow10_monotonic(low: nat, high: nat)
    requires
        low <= high,
    ensures
        pow10(low) <= pow10(high),
    decreases high,
{
    if low < high {
        lemma_pow10_monotonic(low, (high - 1) as nat);
    }
}

/// The power of ten of a sum is the product of the powers of ten.
pub proof fn lemma_pow10_adds(first: nat, second: nat)
    ensures
        pow10(first + second) == pow10(first) * pow10(second),
    decreases first,
{
    if first == 0 {
        assert(pow10(second) == 1 * pow10(second)) by (nonlinear_arith);
    } else {
        lemma_pow10_adds((first - 1) as nat, second);
        let rest = pow10((first - 1) as nat);
        let other = pow10(second);
        assert(pow10(first + second) == 10 * pow10((first - 1 + second) as nat));
        assert(10 * (rest * other) == (10 * rest) * other) by (nonlinear_arith);
    }
}

/// The outcome of converting an amount from one precision to another.
#[derive(Clone, Copy, Debug, PartialEq, Eq, Structural)]
pub struct Conversion {
    /// The amount in the target precision.
    pub converted_amount: u64,
    /// The amount of the source precision that `converted_amount` stands for.
    /// It is what has to be moved on the source side.
    pub recomputed_source_amount: u64,
}

/// What converting `amount` from `from_precision` to `to_precision` gives.
///
/// Towards a finer or equal precision the amount is multiplied by the power of
/// ten between the two, and the conversion fails when the product leaves the
/// 64-bit range. Towards a coarser precision the amount is divided, rounding
/// towards zero, and the quotient is multiplied back.
pub open spec fn conversion(amount: u64, from_precision: u8, to_precision: u8) -> Result<
    Conversion,
    SwapError,
> {
    if to_precision >= from_precision {
        let scaled = amount * pow10((to_precision - from_precision) as nat);
        if scaled <= u64::MAX {
            Ok(Conversion { converted_amount: scaled as u64, recomputed_source_amount: amount })
        } else {
            Err(SwapError::AmountOverflow)
        }
    } else {
        let factor = pow10((from_precision - to_precision) as nat);
        let quotient = amount as nat / factor;
        Ok(
            Conversion {
                converted_amount: quotient as u64,
                recomputed_source_amount: (quotient * factor) as u64,
            },
        )
    }
}

/// Between equal precisions a conversion changes nothing: the converted
/// amount and the amount to move on the source side are both `amount`.
pub proof fn lemma_equal_precision_is_exact(amount: u64, precision: u8)
    ensures
        conversion(amount, precision, precision) == Ok::<Conversion, SwapError>(
            Conversion { converted_amount: amount, recomputed_source_amount: amount },
        ),
{
    assert(amount * pow10(0) == amount) by (nonlinear_arith)
        requires
            pow10(0) == 1,
    ;
}

/// Towards a finer precision a conversion takes exactly `amount` from the
/// source whenever it succeeds.
pub proof fn lemma_scaling_up_is_exact(amount: u64, from_precision: u8, to_precision: u8)
    requires
        to_precision >= from_precision,
        conversion(amount, from_precision, to_precision) is Ok,
    ensures
        conversion(amount, from_precision, to_precision)->Ok_0.recomputed_source_amount == amount,
        conversion(amount, from_precision, to_precision)->Ok_0.converted_amount == amount * pow10(
            (to_precision - from_precision) as nat,
        ),
{
}

/// Towards a coarser precision a conversion always succeeds, never takes more
/// from the source than `amount`, and the amount it takes is a fixed point:
/// converting that amount again gives the same result.
pub proof fn lemma_truncation_conserves(amount: u64, from_precision: u8, to_precision: u8)
    requires
        from_precision > to_precision,
    ensures
        conversion(amount, from_precision, to_precision) is Ok,
        conversion(amount, from_precision, to_precision)->Ok_0.recomputed_source_amount <= amount,
        conversion(
            conversion(amount, from_precision, to_precision)->Ok_0.recomputed_source_amount,
            from_precision,
            to_precision,
        ) == conversion(amount, from_precision, to_precision),
{
    let factor = pow10((from_precision - to_precision) as nat);
    let quotient = amount as nat / factor;
    lemma_pow10_positive((from_precision - to_precision) as nat);
    lemma_fundamental_div_mod(amount as int, factor as int);
    lemma_mul_is_commutative(quotient as int, factor as int);
    lemma_div_multiples_vanish(quotient as int, factor as int);
}

/// A conversion conserves value. An amount `x` of precision `p` is worth
/// `x / 10^p`; what a successful conversion takes from its source is worth
/// exactly what it produces in the target.
pub proof fn lemma_conversion_conserves_value(amount: u64, from_precision: u8, to_precision: u8)
    requires
        conversion(amount, from_precision, to_precision) is Ok,
    ensures
        conversion(amount, from_precision, to_precision)->Ok_0.recomputed_source_amount * pow10(
            to_precision as nat,
        ) == conversion(amount, from_precision, to_precision)->Ok_0.converted_amount * pow10(
            from_precision as nat,
        ),
        conversion(amount, from_precision, to_precision)->Ok_0.recomputed_source_amount <= amount,
{
    let from = pow10(from_precision as nat);
    let to = pow10(to_precision as nat);
    if to_precision >= from_precision {
        let factor = pow10((to_precision - from_precision) as nat);
        lemma_pow10_adds((to_precision - from_precision) as nat, from_precision as nat);
        assert(amount * (factor * from) == (amount * factor) * from) by (nonlinear_arith);
    } else {
        let factor = pow10((from_precision - to_precision) as nat);
        let quotient = amount as nat / factor;
        lemma_truncation_conserves(amount, from_precision, to_precision);
        lemma_pow10_positive((from_precision - to_precision) as nat);
        assert(quotient * factor <= amount) by {
            lemma_fundamental_div_mod(amount as int, factor as int);
            lemma_mul_is_commutative(quotient as int, factor as int);
        }
        lemma_pow10_adds((from_precision - to_precision) as nat, to_precision as nat);
        assert((quotient * factor) * to == quotient * (factor * to)) by (nonlinear_arith);
    }
}

/// Converting back the amount that a successful conversion produced undoes
/// it: the way back succeeds, yields the amount that the way there took from
/// its source, and takes all of what the way there produced.
pub proof fn lemma_round_trip_is_exact(amount: u64, from_precision: u8, to_precision: u8)
    requires
        conversion(amount, from_precision, to_precision) is Ok,
    ensures
        conversion(
            conversion(amount, from_precision, to_precision)->Ok_0.converted_amount,
            to_precision,
            from_precision,
        ) == Ok::<Conversion, SwapError>(
            Conversion {
                converted_amount: conversion(
                    amount,
                    from_precision,
                    to_precision,
                )->Ok_0.recomputed_source_amount,
                recomputed_source_amount: conversion(
                    amount,
                    from_precision,
                    to_precision,
                )->Ok_0.converted_amount,
            },
        ),
{
    if to_precision > from_precision {
        let factor = pow10((to_precision - from_precision) as nat);
        lemma_pow10_positive((to_precision - from_precision) as nat);
        assert((amount * factor) as nat / factor == amount) by {
            lemma_div_multiples_vanish(amount as int, factor as int);
            lemma_mul_is_commutative(amount as int, factor as int);
        }
    } else if to_precision < from_precision {
        let factor = pow10((from_precision - to_precision) as nat);
        let quotient = amount as nat / factor;
        lemma_pow10_positive((from_precision - to_precision) as nat);
        assert(quotient * factor <= amount) by {
            lemma_fundamental_div_mod(amount as int, factor as int);
            lemma_mul_is_commutative(quotient as int, factor as int);
        }
    } else {
        lemma_equal_precision_is_exact(amount, from_precision);
    }
}

/// A round trip never inflates. Say that converting `there` from
/// `from_precision` to `to_precision` produced `p` and took `t` from its
/// source. Then a conversion of `back` the other way that produces no more
/// than `t` takes no more than `p` from its own source.
pub proof fn lemma_round_trip_does_not_inflate(
    there: u64,
    back: u64,
    from_precision: u8,
    to_precision: u8,
)
    requires
        conversion(there, from_precision, to_precision) is Ok,
        conversion(back, to_precision, from_precision) is Ok,
        conversion(back, to_precision, from_precision)->Ok_0.converted_amount <= conversion(
            there,
            from_precision,
            to_precision,
        )->Ok_0.recomputed_source_amount,
    ensures
        conversion(back, to_precision, from_precision)->Ok_0.recomputed_source_amount
            <= conversion(there, from_precision, to_precision)->Ok_0.converted_amount,
{
    if from_precision > to_precision {
        // There: p = there / factor, t = p * factor. Back: produces
        // back * factor and takes back.
        let factor = pow10((from_precision - to_precision) as nat);
        let p = there as nat / factor;
        lemma_pow10_positive((from_precision - to_precision) as nat);
        assert(back <= p) by (nonlinear_arith)
            requires
                back * factor <= p * factor,
                factor >= 1,
        ;
    } else if from_precision < to_precision {
        // There: p = there * factor, t = there. Back: produces
        // q = back / factor and takes q * factor.
        let factor = pow10((to_precision - from_precision) as nat);
        let q = back as nat / factor;
        lemma_pow10_positive((to_precision - from_precision) as nat);
        assert(q * factor <= there * factor) by (nonlinear_arith)
            requires
                q <= there,
                factor >= 1,
        ;
    } else {
        lemma_equal_precision_is_exact(there, from_precision);
        lemma_equal_precision_is_exact(back, from_precision);
    }
}

/// Computes ten to the `exponent`, or `None` when it does not fit in 64 bits.
fn power_of_ten(exponent: u8) -> (r: Option<u64>)
    ensures
        match r {
            Some(factor) => factor == pow10(exponent as nat),
            None => pow10(exponent as nat) > u64::MAX,
        },
{
    let mut factor: u64 = 1;
    let mut done: u8 = 0;
    while done < exponent
        invariant
            done <= exponent,
            factor == pow10(done as nat),
        decreases exponent - done,
    {
        match factor.checked_mul(10) {
            Some(next) => {
                factor = next;
            },
            None => {
                proof {
                    lemma_pow10_monotonic((done + 1) as nat, exponent as nat);
                }
                return None;
            },
        }
        done = done + 1;
    }
    Some(factor)
}

/// Converts `amount` from `from_precision` to `to_precision`.
pub fn convert(amount: u64, from_precision: u8, to_precision: u8) -> (r: Result<
    Conversion,
    SwapError,
>)
    ensures
        r == conversion(amount, from_precision, to_precision),
{
    if to_precision >= from_precision {
        let exponent: u8 = to_precision - from_precision;
        let ghost factor = pow10(exponent as nat);
        if amount == 0 {
            assert(amount * factor == 0) by (nonlinear_arith)
                requires
                    amount == 0,
            ;
            return Ok(Conversion { converted_amount: 0, recomputed_source_amount: 0 });
        }
        let scaled = match power_of_ten(exponent) {
            Some(factor) => amount.checked_mul(factor),
            None => {
                assert(amount * factor > u64::MAX) by (nonlinear_arith)
                    requires
                        amount >= 1,
                        factor > u64::MAX,
                ;
                None
            },
        };
        match scaled {
            Some(converted_amount) => Ok(
                Conversion { converted_amount, recomputed_source_amount: amount },
            ),
            None => Err(SwapError::AmountOverflow),
        }
    } else {
        let exponent: u8 = from_precision - to_precision;
        let ghost factor = pow10(exponent as nat);
        proof {
            lemma_pow10_positive(exponent as nat);
        }
        match power_of_ten(exponent) {
            Some(divisor) => {
                let quotient: u64 = amount / divisor;
                assert(quotient * divisor <= amount) by {
                    lemma_fundamental_div_mod(amount as int, divisor as int);
                    lemma_mul_is_commutative(quotient as int, divisor as int);
                }
                Ok(
                    Conversion {
                        converted_amount: quotient,
                        recomputed_source_amount: quotient * divisor,
                    },
                )
            },
            None => {
                assert(amount as nat / factor == 0) by {
                    lemma_basic_div(amount as int, factor as int);
                }
                assert(0 * factor == 0) by (nonlinear_arith);
                Ok(Conversion { converted_amount: 0, recomputed_source_amount: 0 })
            },
        }
    }
}

} // verus!
