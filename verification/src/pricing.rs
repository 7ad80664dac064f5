//! Pure quote functions for the linear curve `price(s) = initial_price + s * slope`.
//!
//! `calculate_sol_for_tokens` evaluates the exact definite integral of the
//! price over a supply interval; `calculate_tokens_for_sol` inverts it,
//! solving the quadratic for the largest whole number of units a capital
//! deposit affords. Both round with floor division, always in the curve's
//! favor, and both surface any intermediate overflow as a typed error
//! rather than substituting an approximation.

use vstd::prelude::*;

use crate::errors::BondingCurveError;
use crate::math;
use crate::state::{price_of, BondingCurve};

verus! {

/// Capital equal to the area under the price curve from `base_supply` to
/// `base_supply + amount`:
/// `initial_price * amount + slope * base_supply * amount + slope * amount^2 / 2`
/// (floor division).
pub open spec fn sell_cost(initial_price: int, slope: int, base_supply: int, amount: int) -> int {
    initial_price * amount + slope * base_supply * amount + slope * (amount * amount) / 2
}

/// Every intermediate value of the cost integral, taken in the order the
/// checked arithmetic computes them, fits in a `u64`.
pub open spec fn sell_cost_fits(
    initial_price: int,
    slope: int,
    base_supply: int,
    amount: int,
) -> bool {
    &&& initial_price * amount <= u64::MAX
    &&& slope * base_supply <= u64::MAX
    &&& slope * base_supply * amount <= u64::MAX
    &&& amount * amount <= u64::MAX
    &&& slope * (amount * amount) <= u64::MAX
    &&& initial_price * amount + slope * base_supply * amount <= u64::MAX
    &&& sell_cost(initial_price, slope, base_supply, amount) <= u64::MAX
}

/// Twice the unit price at `current_supply`: the linear coefficient of the
/// buy quadratic, with the halving of `slope` already folded in.
pub open spec fn buy_b(initial_price: int, slope: int, current_supply: int) -> int {
    2 * (initial_price + slope * current_supply)
}

/// The discriminant of the buy quadratic: `b^2 + 8 * slope * sol_amount`.
pub open spec fn buy_discriminant(
    initial_price: int,
    slope: int,
    current_supply: int,
    sol_amount: int,
) -> int {
    buy_b(initial_price, slope, current_supply) * buy_b(initial_price, slope, current_supply) + 8
        * (slope * sol_amount)
}

/// Every intermediate value of the buy quote, taken in the order the
/// checked arithmetic computes them, fits in a `u64`.
pub open spec fn buy_fits(
    initial_price: int,
    slope: int,
    current_supply: int,
    sol_amount: int,
) -> bool {
    &&& slope * current_supply <= u64::MAX
    &&& initial_price + slope * current_supply <= u64::MAX
    &&& 2 * (initial_price + slope * current_supply) <= u64::MAX
    &&& slope * sol_amount <= u64::MAX
    &&& 8 * (slope * sol_amount) <= u64::MAX
    &&& buy_b(initial_price, slope, current_supply) * buy_b(initial_price, slope, current_supply)
        <= u64::MAX
    &&& buy_discriminant(initial_price, slope, current_supply, sol_amount) <= u64::MAX
}

/// The number of whole units a deposit of `sol_amount` buys at supply
/// `current_supply`, for `slope > 0`: the non-negative root of the buy
/// quadratic, floored, and `0` when not even one unit is affordable.
pub open spec fn buy_quote(
    initial_price: int,
    slope: int,
    current_supply: int,
    sol_amount: int,
) -> int {
    let b = buy_b(initial_price, slope, current_supply);
    let sd = math::spec_sqrt(buy_discriminant(initial_price, slope, current_supply, sol_amount));
    if sd <= b {
        0
    } else {
        (sd - b) / (2 * slope)
    }
}

/// The units `buy_tokens` would mint from `state` for `sol_amount`.
pub open spec fn buy_token_count(state: BondingCurve, sol_amount: u64) -> int {
    buy_quote(
        state.initial_price as int,
        state.slope as int,
        state.current_supply as int,
        sol_amount as int,
    )
}

/// The capital `buy_tokens` would collect from `state` for `sol_amount`:
/// the exact integral cost of the units actually minted, never more than
/// the deposit.
pub open spec fn buy_capital_cost(state: BondingCurve, sol_amount: u64) -> int {
    sell_cost(
        state.initial_price as int,
        state.slope as int,
        state.current_supply as int,
        buy_token_count(state, sol_amount),
    )
}

/// The buy quote on `state` for `sol_amount` stays within `u64`.
pub open spec fn buy_quote_fits(state: BondingCurve, sol_amount: u64) -> bool {
    buy_fits(
        state.initial_price as int,
        state.slope as int,
        state.current_supply as int,
        sol_amount as int,
    )
}

/// The capital `sell_tokens` would pay out of `state` for `token_amount`
/// units: the integral of the price over the interval the sale vacates.
pub open spec fn sell_capital_out(state: BondingCurve, token_amount: u64) -> int {
    sell_cost(
        state.initial_price as int,
        state.slope as int,
        state.current_supply - token_amount,
        token_amount as int,
    )
}

/// The sell quote on `state` for `token_amount` stays within `u64`.
pub open spec fn sell_quote_fits(state: BondingCurve, token_amount: u64) -> bool {
    sell_cost_fits(
        state.initial_price as int,
        state.slope as int,
        state.current_supply - token_amount,
        token_amount as int,
    )
}

/// Selling at least one unit returns at least the unit price at the supply
/// the sale leaves behind: the first unit sold alone is worth that much.
/// In particular the new unit price still fits in a `u64` whenever the
/// payout does, which is what lets `sell_tokens` report the price after
/// the trade without a further overflow check.
pub proof fn lemma_sell_cost_dominates_price(
    initial_price: int,
    slope: int,
    base_supply: int,
    amount: int,
)
    requires
        initial_price >= 0,
        slope >= 0,
        base_supply >= 0,
        amount >= 1,
        sell_cost_fits(initial_price, slope, base_supply, amount),
    ensures
        price_of(initial_price, slope, base_supply) <= sell_cost(
            initial_price,
            slope,
            base_supply,
            amount,
        ),
{
    assert(initial_price <= initial_price * amount) by (nonlinear_arith)
        requires
            initial_price >= 0,
            amount >= 1,
    ;
    assert(slope * base_supply >= 0) by (nonlinear_arith)
        requires
            slope >= 0,
            base_supply >= 0,
    ;
    assert(slope * base_supply <= slope * base_supply * amount) by (nonlinear_arith)
        requires
            slope * base_supply >= 0,
            amount >= 1,
    ;
    assert(slope * (amount * amount) >= 0) by (nonlinear_arith)
        requires
            slope >= 0,
    ;
    assert(base_supply * slope == slope * base_supply) by (nonlinear_arith);
}

/// The capital returned for selling `token_amount` units when the supply
/// before the sale is `current_supply + token_amount`: the exact integral
/// of the price from `current_supply` to `current_supply + token_amount`,
/// computed with checked arithmetic throughout.
///
/// This is also the capital a buy charges for the units it mints, so buys
/// and sells invert each other exactly.
pub fn calculate_sol_for_tokens(
    token_amount: u64,
    current_supply: u64,
    initial_price: u64,
    slope: u64,
) -> (r: Result<u64, BondingCurveError>)
    ensures
        sell_cost_fits(
            initial_price as int,
            slope as int,
            current_supply as int,
            token_amount as int,
        ) ==> r == Ok::<u64, BondingCurveError>(
            sell_cost(
                initial_price as int,
                slope as int,
                current_supply as int,
                token_amount as int,
            ) as u64,
        ),
        !sell_cost_fits(
            initial_price as int,
            slope as int,
            current_supply as int,
            token_amount as int,
        ) ==> r == Err::<u64, BondingCurveError>(BondingCurveError::ArithmeticOverflow),
{
    let base_cost = match initial_price.checked_mul(token_amount) {
        Some(v) => v,
        None => {
            return Err(BondingCurveError::ArithmeticOverflow);
        },
    };
    let slope_times_supply = match slope.checked_mul(current_supply) {
        Some(v) => v,
        None => {
            return Err(BondingCurveError::ArithmeticOverflow);
        },
    };
    let supply_cost = match slope_times_supply.checked_mul(token_amount) {
        Some(v) => v,
        None => {
            return Err(BondingCurveError::ArithmeticOverflow);
        },
    };
    let token_squared = match token_amount.checked_mul(token_amount) {
        Some(v) => v,
        None => {
            return Err(BondingCurveError::ArithmeticOverflow);
        },
    };
    let quadratic_cost = match slope.checked_mul(token_squared) {
        Some(v) => v,
        None => {
            return Err(BondingCurveError::ArithmeticOverflow);
        },
    } / 2;
    let partial = match base_cost.checked_add(supply_cost) {
        Some(v) => v,
        None => {
            return Err(BondingCurveError::ArithmeticOverflow);
        },
    };
    match partial.checked_add(quadratic_cost) {
        Some(total) => Ok(total),
        None => Err(BondingCurveError::ArithmeticOverflow),
    }
}

/// The whole units a deposit of `sol_amount` buys at `current_supply`,
/// solving the quadratic that equates the deposit with the integral of the
/// price: `0` when not even one unit is affordable, floor division
/// otherwise. A flat curve (`slope == 0`) divides the deposit by the unit
/// price directly, which fails with `MathOverflow` when that price is zero.
pub fn calculate_tokens_for_sol(
    sol_amount: u64,
    current_supply: u64,
    initial_price: u64,
    slope: u64,
) -> (r: Result<u64, BondingCurveError>)
    ensures
        slope == 0 && initial_price == 0 ==> r == Err::<u64, BondingCurveError>(
            BondingCurveError::MathOverflow,
        ),
        slope == 0 && initial_price > 0 ==> r == Ok::<u64, BondingCurveError>(
            (sol_amount as int / initial_price as int) as u64,
        ),
        slope > 0 && buy_fits(
            initial_price as int,
            slope as int,
            current_supply as int,
            sol_amount as int,
        ) ==> r == Ok::<u64, BondingCurveError>(
            buy_quote(
                initial_price as int,
                slope as int,
                current_supply as int,
                sol_amount as int,
            ) as u64,
        ),
        slope > 0 && !buy_fits(
            initial_price as int,
            slope as int,
            current_supply as int,
            sol_amount as int,
        ) ==> r == Err::<u64, BondingCurveError>(BondingCurveError::ArithmeticOverflow),
{
    if slope == 0 {
        // Flat curve: the deposit buys units at the constant unit price.
        if initial_price == 0 {
            return Err(BondingCurveError::MathOverflow);
        }
        return Ok(sol_amount / initial_price);
    }
    let slope_times_supply = match slope.checked_mul(current_supply) {
        Some(v) => v,
        None => {
            return Err(BondingCurveError::ArithmeticOverflow);
        },
    };
    let b_half = match initial_price.checked_add(slope_times_supply) {
        Some(v) => v,
        None => {
            return Err(BondingCurveError::ArithmeticOverflow);
        },
    };
    let b = match b_half.checked_mul(2) {
        Some(v) => v,
        None => {
            return Err(BondingCurveError::ArithmeticOverflow);
        },
    };
    let four_ac_half = match slope.checked_mul(sol_amount) {
        Some(v) => v,
        None => {
            return Err(BondingCurveError::ArithmeticOverflow);
        },
    };
    let four_ac = match four_ac_half.checked_mul(8) {
        Some(v) => v,
        None => {
            return Err(BondingCurveError::ArithmeticOverflow);
        },
    };
    let b_squared = match b.checked_mul(b) {
        Some(v) => v,
        None => {
            return Err(BondingCurveError::ArithmeticOverflow);
        },
    };
    let discriminant = match b_squared.checked_add(four_ac) {
        Some(v) => v,
        None => {
            return Err(BondingCurveError::ArithmeticOverflow);
        },
    };
    let sqrt_discriminant = math::integer_sqrt(discriminant);
    if sqrt_discriminant <= b {
        // Not enough capital for a single whole unit.
        return Ok(0);
    }
    proof {
        // The root exceeding b means the discriminant exceeds b^2, so the
        // deposit term is positive and the doubled slope fits in a u64.
        assert(b * b < sqrt_discriminant * sqrt_discriminant) by (nonlinear_arith)
            requires
                b < sqrt_discriminant,
                b >= 0,
        ;
        assert(four_ac_half >= 1);
        assert(sol_amount >= 1) by (nonlinear_arith)
            requires
                slope * sol_amount >= 1,
                sol_amount >= 0,
        ;
        assert(slope <= slope * sol_amount) by (nonlinear_arith)
            requires
                sol_amount >= 1,
                slope >= 0,
        ;
    }
    let numerator = sqrt_discriminant - b;
    let denominator = slope * 2;
    Ok(numerator / denominator)
}

} // verus!
