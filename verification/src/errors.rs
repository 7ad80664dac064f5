use vstd::prelude::*;

verus! {

/// Why an operation on the curve was refused.
///
/// Every failure is terminal for the operation in which it occurs: the
/// operation commits nothing and the caller decides whether retrying with
/// other parameters makes sense. The verified operations never panic; every
/// arithmetic step that could wrap surfaces here as a typed error instead.
///
/// `SupplyOverflow`, `SupplyUnderflow` and `ReservesUnderflow` name the
/// checked commit steps of `buy_tokens` and `sell_tokens`; the contracts of
/// those functions prove the steps cannot fail once the quote succeeded, so
/// the variants are kept only as the last line of defense of the taxonomy,
/// as is `InsufficientSol`.
#[derive(Clone, Copy, Debug, PartialEq, Eq, Structural)]
pub enum BondingCurveError {
    /// A curve was created with `initial_price == 0`.
    InvalidPrice,
    /// A curve was created with `slope == 0`.
    InvalidSlope,
    /// A buy or sell of zero units was requested.
    InvalidAmount,
    /// A curve was created with a name longer than 32 bytes.
    NameTooLong,
    /// A curve was created with a symbol longer than 10 bytes.
    SymbolTooLong,
    /// The capital offered cannot cover the trade.
    InsufficientSol,
    /// A sell asked for more units than are outstanding.
    InsufficientSupply,
    /// A payout would exceed the capital held in reserve.
    InsufficientReserves,
    /// Committing a buy would push the supply past `u64::MAX`.
    SupplyOverflow,
    /// Committing a sell would push the supply below zero.
    SupplyUnderflow,
    /// Committing a buy would push the reserves past `u64::MAX`.
    ReservesOverflow,
    /// Committing a sell would push the reserves below zero.
    ReservesUnderflow,
    /// A price query overflowed `u64`.
    PriceOverflow,
    /// A flat-curve quote divided by a zero price.
    MathOverflow,
    /// A checked addition or multiplication wrapped around.
    ArithmeticOverflow,
    /// A checked subtraction went below zero.
    ArithmeticUnderflow,
    /// A checked division divided by zero.
    DivideByZero,
}

} // verus!
