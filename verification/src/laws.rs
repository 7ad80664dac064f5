//! The global guarantees of the engine, stated and proved once over the
//! mathematical models that the operation contracts use.

use vstd::prelude::*;

use crate::math;
use crate::pricing;
use crate::pricing::{buy_b, buy_discriminant, buy_fits, buy_quote, sell_cost, sell_cost_fits};
use crate::state::{price_of, BondingCurve};
use vstd::arithmetic::div_mod::{lemma_fundamental_div_mod, lemma_mod_bound};

verus! {

/// The unit price is monotone in the supply: any buy (which raises the
/// supply) leaves the price at least where it was, and any sell (which
/// lowers it) leaves it at most where it was.
pub proof fn lemma_price_monotonic(
    initial_price: int,
    slope: int,
    supply_low: int,
    supply_high: int,
)
    requires
        slope >= 0,
        supply_low <= supply_high,
    ensures
        price_of(initial_price, slope, supply_low) <= price_of(initial_price, slope, supply_high),
{
    assert(supply_low * slope <= supply_high * slope) by (nonlinear_arith)
        requires
            slope >= 0,
            supply_low <= supply_high,
    ;
}

/// No arbitrage around a buy: the exact integral cost of the units a
/// deposit affords never exceeds the deposit, so quoting a sell of those
/// units immediately after the buy (which evaluates the same integral over
/// the same interval) returns at most what the buy collected. The floor
/// roundings both cut in the curve's favor.
///
/// The remaining clauses bound the committed values: the recomputed cost
/// and the new supply and price all fit in `u64`, which is what lets
/// `buy_tokens` promise success once the quote itself has succeeded.
pub proof fn lemma_buy_never_overcharges(
    initial_price: int,
    slope: int,
    current_supply: int,
    sol_amount: int,
)
    requires
        initial_price >= 0,
        slope >= 1,
        current_supply >= 0,
        sol_amount >= 0,
        buy_fits(initial_price, slope, current_supply, sol_amount),
    ensures
        buy_quote(initial_price, slope, current_supply, sol_amount) >= 0,
        sell_cost(
            initial_price,
            slope,
            current_supply,
            buy_quote(initial_price, slope, current_supply, sol_amount),
        ) <= sol_amount,
        sell_cost_fits(
            initial_price,
            slope,
            current_supply,
            buy_quote(initial_price, slope, current_supply, sol_amount),
        ),
        current_supply + buy_quote(initial_price, slope, current_supply, sol_amount) <= u64::MAX,
        price_of(
            initial_price,
            slope,
            current_supply + buy_quote(initial_price, slope, current_supply, sol_amount),
        ) <= u64::MAX,
{
    let b = buy_b(initial_price, slope, current_supply);
    let d = buy_discriminant(initial_price, slope, current_supply, sol_amount);
    assert(slope * current_supply >= 0) by (nonlinear_arith)
        requires
            slope >= 0,
            current_supply >= 0,
    ;
    assert(slope * sol_amount >= 0) by (nonlinear_arith)
        requires
            slope >= 0,
            sol_amount >= 0,
    ;
    assert(b * b >= 0) by (nonlinear_arith)
        requires
            b >= 0,
    ;
    math::lemma_sqrt_bounds(d);
    let sd = math::spec_sqrt(d);
    let q = buy_quote(initial_price, slope, current_supply, sol_amount);
    // The deposit is at most an eighth of u64::MAX once the discriminant fits.
    assert(sol_amount <= slope * sol_amount) by (nonlinear_arith)
        requires
            slope >= 1,
            sol_amount >= 0,
    ;
    // The supply term is at most half of u64::MAX once b fits.
    assert(current_supply <= slope * current_supply) by (nonlinear_arith)
        requires
            slope >= 1,
            current_supply >= 0,
    ;
    if sd <= b {
        assert(q == 0);
        assert((current_supply + 0) * slope == slope * current_supply) by (nonlinear_arith);
    } else {
        let x = sd - b;
        let den = 2 * slope;
        lemma_fundamental_div_mod(x, den);
        lemma_mod_bound(x, den);
        let m = x % den;
        assert(q == x / den);
        assert(den * q == x - m);
        assert(q >= 0) by (nonlinear_arith)
            requires
                den * q == x - m,
                0 <= m < den,
                x >= 0,
                den >= 2,
        ;
        // b + 2*slope*q <= sd, so squaring stays under the discriminant.
        assert(b + den * q <= sd);
        assert((b + den * q) * (b + den * q) <= sd * sd) by (nonlinear_arith)
            requires
                0 <= b + den * q,
                b + den * q <= sd,
        ;
        assert((b + den * q) * (b + den * q) == b * b + 4 * (b * (slope * q)) + 4 * ((slope * q)
            * (slope * q))) by (nonlinear_arith)
            requires
                den == 2 * slope,
        ;
        assert(4 * (b * (slope * q)) + 4 * ((slope * q) * (slope * q)) <= 8 * (slope
            * sol_amount));
        // Cancel the common factor 4*slope: b*q + slope*q^2 <= 2*sol.
        assert(b * q + slope * (q * q) <= 2 * sol_amount) by (nonlinear_arith)
            requires
                slope >= 1,
                q >= 0,
                b >= 0,
                sol_amount >= 0,
                4 * (b * (slope * q)) + 4 * ((slope * q) * (slope * q)) <= 8 * (slope
                    * sol_amount),
        ;
        // Split b*q into the linear cost terms.
        assert(b * q == 2 * (initial_price * q) + 2 * ((slope * current_supply) * q))
            by (nonlinear_arith)
            requires
                b == 2 * (initial_price + slope * current_supply),
        ;
        let y = slope * (q * q);
        assert(initial_price * q >= 0) by (nonlinear_arith)
            requires
                initial_price >= 0,
                q >= 0,
        ;
        assert((slope * current_supply) * q >= 0) by (nonlinear_arith)
            requires
                slope * current_supply >= 0,
                q >= 0,
        ;
        assert(y >= 0) by (nonlinear_arith)
            requires
                slope >= 0,
                y == slope * (q * q),
        ;
        assert(q * q <= y && q <= y && slope * q <= y) by (nonlinear_arith)
            requires
                slope >= 1,
                q >= 0,
                y == slope * (q * q),
        ;
        // Floor division only lowers the quadratic term.
        assert(2 * (y / 2) <= y && y / 2 >= 0);
        assert(sell_cost(initial_price, slope, current_supply, q) == initial_price * q + (slope
            * current_supply) * q + y / 2);
        assert((current_supply + q) * slope == slope * current_supply + slope * q)
            by (nonlinear_arith);
    }
}

/// Round trip, stated over the states a buy moves between: quoting a sell
/// of exactly the units the buy minted, immediately after the buy, values
/// them at exactly the capital the buy collected — the two quotes evaluate
/// the same integral over the same supply interval — and that is never
/// more than the capital the buyer offered.
pub proof fn lemma_buy_then_sell_round_trip(pre: BondingCurve, sol_amount: u64, post: BondingCurve)
    requires
        pre.wf(),
        pricing::buy_quote_fits(pre, sol_amount),
        pre.same_curve(post),
        post.current_supply == pre.current_supply + pricing::buy_token_count(pre, sol_amount),
    ensures
        pricing::sell_capital_out(
            post,
            pricing::buy_token_count(pre, sol_amount) as u64,
        ) == pricing::buy_capital_cost(pre, sol_amount),
        pricing::buy_capital_cost(pre, sol_amount) <= sol_amount,
{
    lemma_buy_never_overcharges(
        pre.initial_price as int,
        pre.slope as int,
        pre.current_supply as int,
        sol_amount as int,
    );
}

/// The reserve movement one committed trade reports: `delta` is the capital
/// spent by a buy, or the negated capital returned by a sell.
pub open spec fn committed_step(pre: BondingCurve, post: BondingCurve, delta: int) -> bool {
    post.sol_reserves == pre.sol_reserves + delta
}

/// The net capital of a sequence of committed trades: the sum of all
/// capital spent minus the sum of all capital returned.
pub open spec fn net_capital(deltas: Seq<int>) -> int
    decreases deltas.len(),
{
    if deltas.len() == 0 {
        0
    } else {
        net_capital(deltas.drop_last()) + deltas.last()
    }
}

/// The reserve identity: starting from a freshly created curve (zero
/// reserves), after any sequence of committed buys and sells the reserve
/// balance equals the sum of all capital spent minus the sum of all capital
/// returned. No capital appears or vanishes.
pub proof fn lemma_reserve_identity(states: Seq<BondingCurve>, deltas: Seq<int>)
    requires
        states.len() == deltas.len() + 1,
        states[0].sol_reserves == 0,
        forall|i: int|
            0 <= i < deltas.len() ==> committed_step(states[i], states[i + 1], deltas[i]),
    ensures
        states[states.len() - 1].sol_reserves == net_capital(deltas),
    decreases deltas.len(),
{
    if deltas.len() > 0 {
        let n = deltas.len() as int;
        let prefix_states = states.drop_last();
        let prefix_deltas = deltas.drop_last();
        assert forall|i: int| 0 <= i < prefix_deltas.len() implies committed_step(
            prefix_states[i],
            prefix_states[i + 1],
            prefix_deltas[i],
        ) by {
            assert(committed_step(states[i], states[i + 1], deltas[i]));
        }
        lemma_reserve_identity(prefix_states, prefix_deltas);
        assert(committed_step(states[n - 1], states[n], deltas[n - 1]));
    }
}

} // verus!
