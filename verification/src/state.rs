//! The persisted record of one curve instance.
//!
//! A `BondingCurve` is created once by `controller::initialize_bonding_curve`
//! and then mutated only through `controller::buy_tokens` and
//! `controller::sell_tokens`, which keep `current_supply` and `sol_reserves`
//! consistent as a matched pair. The quote functions read it without writing.

use vstd::prelude::*;

verus! {

/// One curve instance: supply, reserves and the fixed curve parameters.
pub struct BondingCurve {
    /// Opaque identifier of the account that created the curve.
    pub creator: [u8; 32],
    /// Opaque identifier of the asset the curve issues.
    pub token_mint: [u8; 32],
    /// Asset units issued so far, net of burns.
    pub current_supply: u64,
    /// Capital currently held against the outstanding supply.
    pub sol_reserves: u64,
    /// Price of the first unit, in capital per unit; fixed at creation, `> 0`.
    pub initial_price: u64,
    /// Price increase per unit issued; fixed at creation, `> 0`.
    pub slope: u64,
    /// Descriptive name, at most 32 bytes; inert to the math.
    pub name: Vec<u8>,
    /// Descriptive symbol, at most 10 bytes; inert to the math.
    pub symbol: Vec<u8>,
}

/// The unit price at a given supply: `initial_price + supply * slope`.
pub open spec fn price_of(initial_price: int, slope: int, supply: int) -> int {
    initial_price + supply * slope
}

impl BondingCurve {
    /// The invariant that holds for the life of the instance: both curve
    /// parameters are positive (so the price is positive and strictly
    /// increasing in the supply) and the descriptive fields keep their
    /// creation-time bounds.
    pub open spec fn wf(self) -> bool {
        &&& self.initial_price >= 1
        &&& self.slope >= 1
        &&& self.name@.len() <= 32
        &&& self.symbol@.len() <= 10
    }

    /// The unit price at the current supply, as a mathematical integer.
    pub open spec fn spec_price(self) -> int {
        price_of(self.initial_price as int, self.slope as int, self.current_supply as int)
    }

    /// `other` is `self` with the supply and reserves replaced: the fields
    /// fixed at creation are untouched.
    pub open spec fn same_curve(self, other: BondingCurve) -> bool {
        &&& other.creator == self.creator
        &&& other.token_mint == self.token_mint
        &&& other.initial_price == self.initial_price
        &&& other.slope == self.slope
        &&& other.name == self.name
        &&& other.symbol == self.symbol
    }
}

} // verus!
