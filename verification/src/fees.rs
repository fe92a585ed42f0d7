//! The platform fee calculator: a pure function from (amount, basis-point
//! rate, minimum fee, maximum fee) to the fee charged on one payment.

use vstd::prelude::*;
use crate::errors::ErrorCode;

verus! {

/// Fee rates are expressed in basis points out of 10 000.
pub const BASIS_POINTS_DIVISOR: u128 = 10_000;

/// Lowest accepted fee rate: 1 basis point (0.01%).
pub const MIN_FEE_BASIS_POINTS: u16 = 1;

/// Highest accepted fee rate: 500 basis points (5%).
pub const MAX_FEE_BASIS_POINTS: u16 = 500;

/// The proportional fee before clamping: `amount * basis_points / 10000`,
/// in unbounded arithmetic.
pub open spec fn raw_fee(amount: u64, basis_points: u16) -> int {
    (amount as int) * (basis_points as int) / 10_000
}

/// A raw fee clamped into the `[min_fee, max_fee]` band: raised to
/// `min_fee` first, then capped at `max_fee` (so `max_fee` wins if the
/// band is empty).
pub open spec fn clamp_fee(raw: int, min_fee: u64, max_fee: u64) -> int {
    let raised = if raw < min_fee as int {
        min_fee as int
    } else {
        raw
    };
    if raised > max_fee as int {
        max_fee as int
    } else {
        raised
    }
}

/// The fee charged on a payment of `amount` at `basis_points`, clamped
/// into `[min_fee, max_fee]`.
pub open spec fn spec_fee(amount: u64, basis_points: u16, min_fee: u64, max_fee: u64) -> int {
    clamp_fee(raw_fee(amount, basis_points), min_fee, max_fee)
}

/// Compute the platform fee. The product is taken at `u128` width so the
/// full `u64 × u16` range cannot overflow; `Overflow` is returned only in
/// the defensive case where the widened quotient does not fit back into
/// `u64`, which no rate within `MAX_FEE_BASIS_POINTS` can reach.
pub fn calculate_fee(amount: u64, basis_points: u16, min_fee: u64, max_fee: u64) -> (r: Result<
    u64,
    ErrorCode,
>)
    ensures
        raw_fee(amount, basis_points) <= u64::MAX ==> r == Ok::<u64, ErrorCode>(
            spec_fee(amount, basis_points, min_fee, max_fee) as u64,
        ),
        raw_fee(amount, basis_points) > u64::MAX ==> r == Err::<u64, ErrorCode>(
            ErrorCode::Overflow,
        ),
{
    proof {
        assert((amount as int) * (basis_points as int) <= (u64::MAX as int) * (u16::MAX as int))
            by (nonlinear_arith)
            requires
                amount <= u64::MAX,
                basis_points <= u16::MAX,
        ;
    }
    let wide: u128 = (amount as u128) * (basis_points as u128);
    let quotient: u128 = wide / BASIS_POINTS_DIVISOR;
    if quotient > u64::MAX as u128 {
        return Err(ErrorCode::Overflow);
    }
    let fee: u64 = quotient as u64;
    let raised: u64 = if fee < min_fee {
        min_fee
    } else {
        fee
    };
    let clamped: u64 = if raised > max_fee {
        max_fee
    } else {
        raised
    };
    Ok(clamped)
}

/// Fee invariant: at any rate within the accepted band and for any
/// non-empty `[min_fee, max_fee]` band, the fee lies inside that band, and
/// the raw proportional fee fits in `u64` (so `calculate_fee` succeeds).
pub proof fn lemma_fee_bounds(amount: u64, basis_points: u16, min_fee: u64, max_fee: u64)
    requires
        MIN_FEE_BASIS_POINTS <= basis_points <= MAX_FEE_BASIS_POINTS,
        min_fee <= max_fee,
    ensures
        min_fee <= spec_fee(amount, basis_points, min_fee, max_fee) <= max_fee,
        0 <= raw_fee(amount, basis_points) <= u64::MAX,
{
    assert(0 <= (amount as int) * (basis_points as int) <= (amount as int) * 500)
        by (nonlinear_arith)
        requires
            1 <= basis_points <= 500,
            0 <= amount,
    ;
    assert((amount as int) * 500 / 10_000 <= u64::MAX) by (nonlinear_arith)
        requires
            amount <= u64::MAX,
    ;
    assert(raw_fee(amount, basis_points) <= (amount as int) * 500 / 10_000) by {
        vstd::arithmetic::div_mod::lemma_div_is_ordered(
            (amount as int) * (basis_points as int),
            (amount as int) * 500,
            10_000,
        );
    }
    assert(0 <= raw_fee(amount, basis_points)) by {
        vstd::arithmetic::div_mod::lemma_div_pos_is_pos(
            (amount as int) * (basis_points as int),
            10_000,
        );
    }
}

} // verus!
