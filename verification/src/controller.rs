//! The transactional layer: the only writer of a `BondingCurve`.
//!
//! Each operation validates its input, computes the whole trade with the
//! pure quote functions, and only then writes the new supply and reserves
//! as a matched pair. Any validation failure or arithmetic error returns
//! before the first write, so a failed operation leaves the state exactly
//! as it found it. The host that custodies the capital and the asset is
//! expected to move them as the returned record says; the engine itself
//! only produces the record.

use vstd::prelude::*;

use crate::errors::BondingCurveError;
use crate::laws;
use crate::pricing;
use crate::state::BondingCurve;

verus! {

/// The record a successful `initialize_bonding_curve` reports.
#[derive(Clone, Copy, Debug)]
pub struct BondingCurveInitialized {
    /// Who created the curve.
    pub creator: [u8; 32],
    /// The asset the curve issues.
    pub token_mint: [u8; 32],
    /// The price of the first unit.
    pub initial_price: u64,
    /// The price increase per unit issued.
    pub slope: u64,
}

/// The record a successful `buy_tokens` reports: what to mint, what was
/// collected, and where the curve stands afterwards.
#[derive(Clone, Copy, Debug, PartialEq, Eq, Structural)]
pub struct TokensPurchased {
    /// Whole units the buyer receives.
    pub tokens_minted: u64,
    /// Capital actually collected into the reserves; never more than the
    /// capital offered.
    pub sol_spent: u64,
    /// The supply after the purchase.
    pub new_supply: u64,
    /// The unit price after the purchase.
    pub new_price: u64,
}

/// The record a successful `sell_tokens` reports: what to burn, what to
/// pay out, and where the curve stands afterwards.
#[derive(Clone, Copy, Debug, PartialEq, Eq, Structural)]
pub struct TokensSold {
    /// Whole units burned from the seller.
    pub tokens_burned: u64,
    /// Capital paid out of the reserves.
    pub sol_received: u64,
    /// The supply after the sale.
    pub new_supply: u64,
    /// The unit price after the sale.
    pub new_price: u64,
}

/// Creates a curve instance: validates the parameters, then starts the
/// curve at zero supply and zero reserves. The four validation failures
/// are reported in the order the inputs are checked.
pub fn initialize_bonding_curve(
    creator: [u8; 32],
    token_mint: [u8; 32],
    initial_price: u64,
    slope: u64,
    name: Vec<u8>,
    symbol: Vec<u8>,
) -> (r: Result<(BondingCurve, BondingCurveInitialized), BondingCurveError>)
    ensures
        initial_price == 0 ==> r == Err::<
            (BondingCurve, BondingCurveInitialized),
            BondingCurveError,
        >(BondingCurveError::InvalidPrice),
        initial_price > 0 && slope == 0 ==> r == Err::<
            (BondingCurve, BondingCurveInitialized),
            BondingCurveError,
        >(BondingCurveError::InvalidSlope),
        initial_price > 0 && slope > 0 && name@.len() > 32 ==> r == Err::<
            (BondingCurve, BondingCurveInitialized),
            BondingCurveError,
        >(BondingCurveError::NameTooLong),
        initial_price > 0 && slope > 0 && name@.len() <= 32 && symbol@.len() > 10 ==> r == Err::<
            (BondingCurve, BondingCurveInitialized),
            BondingCurveError,
        >(BondingCurveError::SymbolTooLong),
        initial_price > 0 && slope > 0 && name@.len() <= 32 && symbol@.len() <= 10 ==> ({
            &&& r matches Ok(out)
            &&& out.0.wf()
            &&& out.0.creator == creator
            &&& out.0.token_mint == token_mint
            &&& out.0.current_supply == 0
            &&& out.0.sol_reserves == 0
            &&& out.0.initial_price == initial_price
            &&& out.0.slope == slope
            &&& out.0.name@ == name@
            &&& out.0.symbol@ == symbol@
            &&& out.1.creator == creator
            &&& out.1.token_mint == token_mint
            &&& out.1.initial_price == initial_price
            &&& out.1.slope == slope
        }),
{
    if initial_price == 0 {
        return Err(BondingCurveError::InvalidPrice);
    }
    if slope == 0 {
        return Err(BondingCurveError::InvalidSlope);
    }
    if name.len() > 32 {
        return Err(BondingCurveError::NameTooLong);
    }
    if symbol.len() > 10 {
        return Err(BondingCurveError::SymbolTooLong);
    }
    let state = BondingCurve {
        creator,
        token_mint,
        current_supply: 0,
        sol_reserves: 0,
        initial_price,
        slope,
        name,
        symbol,
    };
    let event = BondingCurveInitialized { creator, token_mint, initial_price, slope };
    Ok((state, event))
}

/// Buys units with `sol_amount` of capital: quotes how many whole units
/// the deposit affords, recomputes their exact integral cost, and commits
/// supply and reserves by that cost — never by the full deposit, so the
/// flooring of the quote leaves the difference with the buyer.
///
/// On any failure the state is untouched. With a positive deposit whose
/// quote stays within `u64`, the only remaining failure is reserves
/// already so close to `u64::MAX` that the collected cost cannot be added.
pub fn buy_tokens(state: &mut BondingCurve, sol_amount: u64) -> (r: Result<
    TokensPurchased,
    BondingCurveError,
>)
    requires
        old(state).wf(),
    ensures
        final(state).wf(),
        old(state).same_curve(*final(state)),
        r is Err ==> *final(state) == *old(state),
        sol_amount == 0 ==> r == Err::<TokensPurchased, BondingCurveError>(
            BondingCurveError::InvalidAmount,
        ),
        sol_amount > 0 && !pricing::buy_quote_fits(*old(state), sol_amount) ==> r == Err::<
            TokensPurchased,
            BondingCurveError,
        >(BondingCurveError::ArithmeticOverflow),
        sol_amount > 0 && pricing::buy_quote_fits(*old(state), sol_amount) && old(
            state,
        ).sol_reserves + pricing::buy_capital_cost(*old(state), sol_amount) > u64::MAX ==> r
            == Err::<TokensPurchased, BondingCurveError>(BondingCurveError::ReservesOverflow),
        sol_amount > 0 && pricing::buy_quote_fits(*old(state), sol_amount) && old(
            state,
        ).sol_reserves + pricing::buy_capital_cost(*old(state), sol_amount) <= u64::MAX ==> ({
            &&& r matches Ok(rec)
            &&& rec.tokens_minted == pricing::buy_token_count(*old(state), sol_amount)
            &&& rec.sol_spent == pricing::buy_capital_cost(*old(state), sol_amount)
            &&& rec.sol_spent <= sol_amount
            &&& rec.new_supply == final(state).current_supply
            &&& rec.new_price == final(state).spec_price()
            &&& rec.new_price >= old(state).spec_price()
            &&& final(state).current_supply == old(state).current_supply
                + pricing::buy_token_count(*old(state), sol_amount)
            &&& final(state).sol_reserves == old(state).sol_reserves + pricing::buy_capital_cost(
                *old(state),
                sol_amount,
            )
        }),
{
    if sol_amount == 0 {
        return Err(BondingCurveError::InvalidAmount);
    }
    let tokens_to_mint = match pricing::calculate_tokens_for_sol(
        sol_amount,
        state.current_supply,
        state.initial_price,
        state.slope,
    ) {
        Ok(t) => t,
        Err(e) => {
            return Err(e);
        },
    };
    proof {
        laws::lemma_buy_never_overcharges(
            state.initial_price as int,
            state.slope as int,
            state.current_supply as int,
            sol_amount as int,
        );
        laws::lemma_price_monotonic(
            state.initial_price as int,
            state.slope as int,
            state.current_supply as int,
            state.current_supply + pricing::buy_token_count(*state, sol_amount),
        );
    }
    let actual_cost = match pricing::calculate_sol_for_tokens(
        tokens_to_mint,
        state.current_supply,
        state.initial_price,
        state.slope,
    ) {
        Ok(c) => c,
        Err(e) => {
            return Err(e);
        },
    };
    let new_reserves = match state.sol_reserves.checked_add(actual_cost) {
        Some(v) => v,
        None => {
            return Err(BondingCurveError::ReservesOverflow);
        },
    };
    let new_supply = state.current_supply + tokens_to_mint;
    let new_price = state.initial_price + new_supply * state.slope;
    state.current_supply = new_supply;
    state.sol_reserves = new_reserves;
    Ok(
        TokensPurchased {
            tokens_minted: tokens_to_mint,
            sol_spent: actual_cost,
            new_supply,
            new_price,
        },
    )
}

/// Sells `token_amount` units back to the curve: pays out the exact
/// integral of the price over the interval the sale vacates, then commits
/// supply and reserves as a matched pair.
///
/// On any failure the state is untouched. The reserve check is defensive:
/// for a state built only by committed operations the reserve identity
/// already guarantees the reserves cover the payout.
pub fn sell_tokens(state: &mut BondingCurve, token_amount: u64) -> (r: Result<
    TokensSold,
    BondingCurveError,
>)
    requires
        old(state).wf(),
    ensures
        final(state).wf(),
        old(state).same_curve(*final(state)),
        r is Err ==> *final(state) == *old(state),
        token_amount == 0 ==> r == Err::<TokensSold, BondingCurveError>(
            BondingCurveError::InvalidAmount,
        ),
        token_amount > 0 && token_amount > old(state).current_supply ==> r == Err::<
            TokensSold,
            BondingCurveError,
        >(BondingCurveError::InsufficientSupply),
        token_amount > 0 && token_amount <= old(state).current_supply && !pricing::sell_quote_fits(
            *old(state),
            token_amount,
        ) ==> r == Err::<TokensSold, BondingCurveError>(BondingCurveError::ArithmeticOverflow),
        token_amount > 0 && token_amount <= old(state).current_supply && pricing::sell_quote_fits(
            *old(state),
            token_amount,
        ) && old(state).sol_reserves < pricing::sell_capital_out(*old(state), token_amount) ==> r
            == Err::<TokensSold, BondingCurveError>(BondingCurveError::InsufficientReserves),
        token_amount > 0 && token_amount <= old(state).current_supply && pricing::sell_quote_fits(
            *old(state),
            token_amount,
        ) && old(state).sol_reserves >= pricing::sell_capital_out(*old(state), token_amount) ==> ({
            &&& r matches Ok(rec)
            &&& rec.tokens_burned == token_amount
            &&& rec.sol_received == pricing::sell_capital_out(*old(state), token_amount)
            &&& rec.new_supply == final(state).current_supply
            &&& rec.new_price == final(state).spec_price()
            &&& rec.new_price <= old(state).spec_price()
            &&& final(state).current_supply == old(state).current_supply - token_amount
            &&& final(state).sol_reserves == old(state).sol_reserves - pricing::sell_capital_out(
                *old(state),
                token_amount,
            )
        }),
{
    if token_amount == 0 {
        return Err(BondingCurveError::InvalidAmount);
    }
    let new_supply_after_sale = match state.current_supply.checked_sub(token_amount) {
        Some(v) => v,
        None => {
            return Err(BondingCurveError::InsufficientSupply);
        },
    };
    let sol_to_return = match pricing::calculate_sol_for_tokens(
        token_amount,
        new_supply_after_sale,
        state.initial_price,
        state.slope,
    ) {
        Ok(v) => v,
        Err(e) => {
            return Err(e);
        },
    };
    if state.sol_reserves < sol_to_return {
        return Err(BondingCurveError::InsufficientReserves);
    }
    proof {
        pricing::lemma_sell_cost_dominates_price(
            state.initial_price as int,
            state.slope as int,
            new_supply_after_sale as int,
            token_amount as int,
        );
        laws::lemma_price_monotonic(
            state.initial_price as int,
            state.slope as int,
            new_supply_after_sale as int,
            state.current_supply as int,
        );
    }
    let new_reserves = state.sol_reserves - sol_to_return;
    let new_price = state.initial_price + new_supply_after_sale * state.slope;
    state.current_supply = new_supply_after_sale;
    state.sol_reserves = new_reserves;
    Ok(
        TokensSold {
            tokens_burned: token_amount,
            sol_received: sol_to_return,
            new_supply: new_supply_after_sale,
            new_price,
        },
    )
}

/// The unit price at the current supply; read-only, callable at any time,
/// `PriceOverflow` when the true price exceeds `u64::MAX`.
pub fn get_current_price(state: &BondingCurve) -> (r: Result<u64, BondingCurveError>)
    ensures
        state.spec_price() <= u64::MAX ==> r == Ok::<u64, BondingCurveError>(
            state.spec_price() as u64,
        ),
        state.spec_price() > u64::MAX ==> r == Err::<u64, BondingCurveError>(
            BondingCurveError::PriceOverflow,
        ),
{
    let scaled = match state.current_supply.checked_mul(state.slope) {
        Some(v) => v,
        None => {
            return Err(BondingCurveError::PriceOverflow);
        },
    };
    match state.initial_price.checked_add(scaled) {
        Some(v) => Ok(v),
        None => Err(BondingCurveError::PriceOverflow),
    }
}

} // verus!
