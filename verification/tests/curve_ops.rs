//! The quote functions and the transactional operations on a curve.

use bonding_curve::controller::{
    buy_tokens, get_current_price, initialize_bonding_curve, sell_tokens,
};
use bonding_curve::errors::BondingCurveError;
use bonding_curve::pricing::{calculate_sol_for_tokens, calculate_tokens_for_sol};
use bonding_curve::state::BondingCurve;

fn fresh_curve(initial_price: u64, slope: u64) -> BondingCurve {
    let r = initialize_bonding_curve(
        [1u8; 32],
        [2u8; 32],
        initial_price,
        slope,
        b"Example Token".to_vec(),
        b"EXT".to_vec(),
    );
    match r {
        Ok((state, _)) => state,
        Err(_) => panic!("creation with valid parameters failed"),
    }
}

#[test]
fn create_validates_parameters() {
    assert!(matches!(
        initialize_bonding_curve([0u8; 32], [0u8; 32], 0, 1, vec![], vec![]),
        Err(BondingCurveError::InvalidPrice)
    ));
    assert!(matches!(
        initialize_bonding_curve([0u8; 32], [0u8; 32], 1, 0, vec![], vec![]),
        Err(BondingCurveError::InvalidSlope)
    ));
    assert!(matches!(
        initialize_bonding_curve([0u8; 32], [0u8; 32], 1, 1, vec![0u8; 33], vec![]),
        Err(BondingCurveError::NameTooLong)
    ));
    assert!(matches!(
        initialize_bonding_curve([0u8; 32], [0u8; 32], 1, 1, vec![0u8; 32], vec![0u8; 11]),
        Err(BondingCurveError::SymbolTooLong)
    ));
}

#[test]
fn create_starts_at_zero() {
    let (state, event) = initialize_bonding_curve(
        [7u8; 32],
        [9u8; 32],
        1000,
        10,
        b"Example Token".to_vec(),
        b"EXT".to_vec(),
    )
    .unwrap_or_else(|_| panic!("creation with valid parameters failed"));
    assert_eq!(state.current_supply, 0);
    assert_eq!(state.sol_reserves, 0);
    assert_eq!(state.initial_price, 1000);
    assert_eq!(state.slope, 10);
    assert_eq!(state.creator, [7u8; 32]);
    assert_eq!(state.token_mint, [9u8; 32]);
    assert_eq!(state.name, b"Example Token".to_vec());
    assert_eq!(state.symbol, b"EXT".to_vec());
    assert_eq!(event.initial_price, 1000);
    assert_eq!(event.slope, 10);
    assert_eq!(event.creator, [7u8; 32]);
    assert_eq!(event.token_mint, [9u8; 32]);
    // The price is quotable before any trade.
    assert_eq!(get_current_price(&state), Ok(1000));
}

#[test]
fn buy_of_zero_is_rejected() {
    let mut state = fresh_curve(1000, 10);
    let r = buy_tokens(&mut state, 0);
    assert!(matches!(r, Err(BondingCurveError::InvalidAmount)));
    assert_eq!(state.current_supply, 0);
    assert_eq!(state.sol_reserves, 0);
}

#[test]
fn sell_of_zero_is_rejected() {
    let mut state = fresh_curve(1000, 10);
    let r = sell_tokens(&mut state, 0);
    assert!(matches!(r, Err(BondingCurveError::InvalidAmount)));
    assert_eq!(state.current_supply, 0);
    assert_eq!(state.sol_reserves, 0);
}

#[test]
fn sell_beyond_supply_is_rejected_and_state_kept() {
    let mut state = fresh_curve(1000, 10);
    buy_tokens(&mut state, 21000).unwrap_or_else(|_| panic!("buy failed"));
    let supply = state.current_supply;
    let reserves = state.sol_reserves;
    let r = sell_tokens(&mut state, supply + 1);
    assert!(matches!(r, Err(BondingCurveError::InsufficientSupply)));
    assert_eq!(state.current_supply, supply);
    assert_eq!(state.sol_reserves, reserves);
}

#[test]
fn worked_scenario_quadratic_buy() {
    // initial_price = 1000, slope = 10, supply = 0: buy(21000) solves
    // B = 2000, D = 2000^2 + 8*10*21000 = 5_680_000, sqrt(D) = 2383,
    // tokens = (2383 - 2000) / 20 = 19; the recomputed integral cost is
    // 19000 + 0 + floor(10*361/2) = 20805, so 195 stay with the buyer.
    let mut state = fresh_curve(1000, 10);
    let rec = buy_tokens(&mut state, 21000).unwrap_or_else(|_| panic!("buy failed"));
    assert_eq!(rec.tokens_minted, 19);
    assert_eq!(rec.sol_spent, 20805);
    assert_eq!(rec.new_supply, 19);
    assert_eq!(rec.new_price, 1000 + 19 * 10);
    assert_eq!(state.current_supply, 19);
    assert_eq!(state.sol_reserves, 20805);
    assert_eq!(get_current_price(&state), Ok(1190));
}

#[test]
fn quotes_match_worked_scenario() {
    assert_eq!(calculate_tokens_for_sol(21000, 0, 1000, 10), Ok(19));
    assert_eq!(calculate_sol_for_tokens(19, 0, 1000, 10), Ok(20805));
}

#[test]
fn round_trip_returns_no_more_than_spent() {
    let mut state = fresh_curve(1000, 10);
    let bought = buy_tokens(&mut state, 21000).unwrap_or_else(|_| panic!("buy failed"));
    let sold =
        sell_tokens(&mut state, bought.tokens_minted).unwrap_or_else(|_| panic!("sell failed"));
    assert!(sold.sol_received <= bought.sol_spent);
    // The exact integral inverts exactly: the same interval is paid back.
    assert_eq!(sold.sol_received, 20805);
    assert_eq!(state.current_supply, 0);
    assert_eq!(state.sol_reserves, 0);
    assert_eq!(get_current_price(&state), Ok(1000));
}

#[test]
fn price_moves_with_supply() {
    let mut state = fresh_curve(500, 3);
    let before = get_current_price(&state).unwrap();
    buy_tokens(&mut state, 100_000).unwrap_or_else(|_| panic!("buy failed"));
    let after_buy = get_current_price(&state).unwrap();
    assert!(after_buy >= before);
    sell_tokens(&mut state, 1).unwrap_or_else(|_| panic!("sell failed"));
    let after_sell = get_current_price(&state).unwrap();
    assert!(after_sell <= after_buy);
}

#[test]
fn reserve_identity_over_a_sequence() {
    let mut state = fresh_curve(1000, 10);
    let mut net: u64 = 0;
    for (is_buy, amount) in [
        (true, 21000u64),
        (true, 5000),
        (false, 7),
        (true, 123_456),
        (false, 20),
        (false, 1),
    ] {
        if is_buy {
            let rec = buy_tokens(&mut state, amount).unwrap_or_else(|_| panic!("buy failed"));
            net += rec.sol_spent;
        } else {
            let rec = sell_tokens(&mut state, amount).unwrap_or_else(|_| panic!("sell failed"));
            net -= rec.sol_received;
        }
        assert_eq!(state.sol_reserves, net);
    }
}

#[test]
fn tiny_deposit_buys_zero_units() {
    // 500 is below the 1005-integral cost of the first unit, so the quote
    // floors to zero units at zero cost; that is a success, not an error.
    let mut state = fresh_curve(1000, 10);
    let rec = buy_tokens(&mut state, 500).unwrap_or_else(|_| panic!("buy failed"));
    assert_eq!(rec.tokens_minted, 0);
    assert_eq!(rec.sol_spent, 0);
    assert_eq!(state.current_supply, 0);
    assert_eq!(state.sol_reserves, 0);
}

#[test]
fn flat_curve_divides_by_unit_price() {
    assert_eq!(calculate_tokens_for_sol(100, 5, 10, 0), Ok(10));
    assert_eq!(calculate_tokens_for_sol(99, 5, 10, 0), Ok(9));
    assert_eq!(
        calculate_tokens_for_sol(100, 5, 0, 0),
        Err(BondingCurveError::MathOverflow)
    );
}

#[test]
fn oversized_buy_overflows_the_quote() {
    let mut state = fresh_curve(1, 1);
    let r = buy_tokens(&mut state, u64::MAX);
    assert!(matches!(r, Err(BondingCurveError::ArithmeticOverflow)));
    assert_eq!(state.current_supply, 0);
    assert_eq!(state.sol_reserves, 0);
}

#[test]
fn saturated_reserves_reject_a_buy() {
    let mut state = BondingCurve {
        creator: [0u8; 32],
        token_mint: [0u8; 32],
        current_supply: 0,
        sol_reserves: u64::MAX,
        initial_price: 1000,
        slope: 10,
        name: vec![],
        symbol: vec![],
    };
    let r = buy_tokens(&mut state, 21000);
    assert!(matches!(r, Err(BondingCurveError::ReservesOverflow)));
    assert_eq!(state.current_supply, 0);
    assert_eq!(state.sol_reserves, u64::MAX);
}

#[test]
fn corrupted_reserves_reject_a_sell() {
    // A state whose reserves cannot cover the payout is refused by the
    // defensive last-line check.
    let mut state = BondingCurve {
        creator: [0u8; 32],
        token_mint: [0u8; 32],
        current_supply: 19,
        sol_reserves: 5,
        initial_price: 1000,
        slope: 10,
        name: vec![],
        symbol: vec![],
    };
    let r = sell_tokens(&mut state, 19);
    assert!(matches!(r, Err(BondingCurveError::InsufficientReserves)));
    assert_eq!(state.current_supply, 19);
    assert_eq!(state.sol_reserves, 5);
}

#[test]
fn lopsided_chunks_can_hit_the_reserve_check() {
    // Floor rounding is applied per trade, so a history of small buys can
    // leave less in reserve than one large sell of the same units asks
    // for: two unit buys collect 1 + 2 = 3, while selling both units at
    // once quotes 2 + floor(4/2) = 4. The reserve check refuses the big
    // sell and the units can still be unwound one at a time.
    let mut state = fresh_curve(1, 1);
    let first = buy_tokens(&mut state, 2).unwrap_or_else(|_| panic!("buy failed"));
    assert_eq!((first.tokens_minted, first.sol_spent), (1, 1));
    let second = buy_tokens(&mut state, 3).unwrap_or_else(|_| panic!("buy failed"));
    assert_eq!((second.tokens_minted, second.sol_spent), (1, 2));
    assert_eq!(state.sol_reserves, 3);

    let r = sell_tokens(&mut state, 2);
    assert!(matches!(r, Err(BondingCurveError::InsufficientReserves)));
    assert_eq!(state.current_supply, 2);
    assert_eq!(state.sol_reserves, 3);

    let sold = sell_tokens(&mut state, 1).unwrap_or_else(|_| panic!("sell failed"));
    assert_eq!(sold.sol_received, 2);
    let sold = sell_tokens(&mut state, 1).unwrap_or_else(|_| panic!("sell failed"));
    assert_eq!(sold.sol_received, 1);
    assert_eq!(state.current_supply, 0);
    assert_eq!(state.sol_reserves, 0);
}

#[test]
fn price_query_overflows_on_extreme_state() {
    let state = BondingCurve {
        creator: [0u8; 32],
        token_mint: [0u8; 32],
        current_supply: 1 << 32,
        sol_reserves: 0,
        initial_price: 1,
        slope: 1 << 32,
        name: vec![],
        symbol: vec![],
    };
    assert_eq!(
        get_current_price(&state),
        Err(BondingCurveError::PriceOverflow)
    );
    let state = BondingCurve {
        current_supply: 1,
        slope: 1,
        initial_price: u64::MAX,
        ..state
    };
    assert_eq!(
        get_current_price(&state),
        Err(BondingCurveError::PriceOverflow)
    );
}
