use perp_core::constants::{BASIS_POINTS_DIVISOR, Q96};
use perp_core::errors::ErrorCode;
use perp_core::position::{
    calculate_funding_fee, calculate_liquidation_price_x96, calculate_maintenance_margin,
    calculate_next_entry_price_x96, calculate_trading_fee, calculate_unrealized_pnl,
    decrease_position, increase_position, liquidate_position, split_fee,
    validate_position_liquidate_maintain_margin_rate, _has_unrealized_profit,
    _validate_trade_price_X96,
};
use perp_core::types::{
    DecreasePositionParameter, IncreasePositionParameter, LiquidateParameter,
    MaintainMarginRateParameter, MarketBaseConfig, MarketConfig, MarketFeeRateConfig,
    MarketPriceConfig, Position, PriceVertex, State,
};

fn vertices() -> Vec<PriceVertex> {
    let mut vs = Vec::new();
    for i in 0..10u128 {
        vs.push(PriceVertex {
            size: i * 1_000_000,
            premium_rate_x96: i,
        })
    }
    vs
}

fn market_cfg() -> MarketConfig {
    MarketConfig {
        base_config: MarketBaseConfig {
            min_margin_per_liquidity_position: 0,
            max_leverage_per_liquidity_position: 100,
            liquidation_fee_rate_per_liquidity_position: 0,
            min_margin_per_position: 0,
            max_leverage_per_position: 100,
            liquidation_fee_rate_per_position: 0,
            max_position_liquidity: u128::MAX,
            max_position_value_rate: 10_000,
            max_size_rate_per_position: 10_000,
            liquidation_execution_fee: 0,
            interest_rate: 0,
            max_funding_rate: 0,
        },
        fee_rate_config: MarketFeeRateConfig {
            trading_fee_rate: 0,
            protocol_fee_rate: 0,
            referral_return_fee_rate: 0,
            referral_parent_return_fee_rate: 0,
            referral_discount_rate: 0,
        },
        price_config: MarketPriceConfig {
            max_price_impact_liquidity: u128::MAX,
            liquidation_vertex_index: 9,
            vertices: Vec::new(),
        },
    }
}

fn funded_market() -> State {
    let mut state = State::new(vertices());
    state.global_liquidity_position.liquidity = 1_000_000;
    state.global_position.max_size = 1_000_000;
    state.global_position.max_size_per_position = 1_000_000;
    state
}

#[test]
fn long_against_balanced_pool_executes_at_index_price() {
    // net_size 0, index 100 * 2^96: the trade prices at vertex zero with
    // no premium and long open interest records the full delta
    let mut state = funded_market();
    let cfg = market_cfg();
    let index = 100 * Q96;
    let parameter = IncreasePositionParameter {
        account: 7,
        side: true,
        margin_delta: 1000,
        size_delta: 500,
    };
    let r = increase_position(&mut state, &cfg, &parameter, index);
    assert_eq!(r, Ok(index));
    assert_eq!(state.global_position.long_size, 500);
    assert_eq!(state.global_position.short_size, 0);
    let pos = *state.long_positions.get(&7).unwrap();
    assert_eq!(pos.size, 500);
    assert_eq!(pos.margin, 1000);
    assert_eq!(pos.entry_price_x96, index);
    assert_eq!(pos.entry_funding_rate_growth_x96, 0);
    assert_eq!(state.global_liquidity_position.net_size, 500);
    assert!(!state.global_liquidity_position.side);
}

#[test]
fn increase_on_missing_position_needs_size() {
    let mut state = funded_market();
    let cfg = market_cfg();
    let parameter = IncreasePositionParameter {
        account: 7,
        side: true,
        margin_delta: 1000,
        size_delta: 0,
    };
    assert_eq!(
        increase_position(&mut state, &cfg, &parameter, Q96),
        Err(ErrorCode::PositionNotFound)
    );
}

#[test]
fn increase_requires_pool_liquidity() {
    let mut state = funded_market();
    state.global_liquidity_position.liquidity = 0;
    let cfg = market_cfg();
    let parameter = IncreasePositionParameter {
        account: 7,
        side: true,
        margin_delta: 1000,
        size_delta: 500,
    };
    assert_eq!(
        increase_position(&mut state, &cfg, &parameter, Q96),
        Err(ErrorCode::InsufficientGlobalLiquidity)
    );
}

#[test]
fn increase_respects_the_per_position_size_cap() {
    let mut state = funded_market();
    state.global_position.max_size_per_position = 100;
    let cfg = market_cfg();
    let parameter = IncreasePositionParameter {
        account: 7,
        side: true,
        margin_delta: 1000,
        size_delta: 500,
    };
    assert_eq!(
        increase_position(&mut state, &cfg, &parameter, Q96),
        Err(ErrorCode::SizeExceedsMaxSizePerPosition)
    );
    assert_eq!(state.global_position.long_size, 0);
}

#[test]
fn increase_respects_the_pool_size_cap() {
    let mut state = funded_market();
    state.global_position.max_size = 100;
    let cfg = market_cfg();
    let parameter = IncreasePositionParameter {
        account: 7,
        side: true,
        margin_delta: 1000,
        size_delta: 500,
    };
    assert_eq!(
        increase_position(&mut state, &cfg, &parameter, Q96),
        Err(ErrorCode::SizeExceedsMaxSize)
    );
}

#[test]
fn decrease_realizes_and_shrinks() {
    let mut state = funded_market();
    let cfg = market_cfg();
    let index = 100 * Q96;
    let open = IncreasePositionParameter {
        account: 7,
        side: true,
        margin_delta: 1000,
        size_delta: 500,
    };
    increase_position(&mut state, &cfg, &open, index).unwrap();
    let parameter = DecreasePositionParameter {
        account: 7,
        side: true,
        margin_delta: 0,
        size_delta: 200,
        receiver: 7,
    };
    let r = decrease_position(&mut state, &cfg, &parameter, index);
    assert_eq!(r, Ok((index, 1000)));
    assert_eq!(state.global_position.long_size, 300);
    let pos = *state.long_positions.get(&7).unwrap();
    assert_eq!(pos.size, 300);
    assert_eq!(pos.margin, 1000);
    assert_eq!(state.global_liquidity_position.net_size, 300);
}

#[test]
fn full_decrease_removes_the_position() {
    let mut state = funded_market();
    let cfg = market_cfg();
    let index = 100 * Q96;
    let open = IncreasePositionParameter {
        account: 7,
        side: false,
        margin_delta: 1000,
        size_delta: 500,
    };
    increase_position(&mut state, &cfg, &open, index).unwrap();
    let parameter = DecreasePositionParameter {
        account: 7,
        side: false,
        margin_delta: 1000,
        size_delta: 500,
        receiver: 7,
    };
    let r = decrease_position(&mut state, &cfg, &parameter, index);
    assert_eq!(r, Ok((index, 0)));
    assert!(state.short_positions.get(&7).is_none());
    assert_eq!(state.global_position.short_size, 0);
}

#[test]
fn decrease_of_missing_position_is_rejected() {
    let mut state = funded_market();
    let cfg = market_cfg();
    let parameter = DecreasePositionParameter {
        account: 9,
        side: true,
        margin_delta: 0,
        size_delta: 10,
        receiver: 9,
    };
    assert_eq!(
        decrease_position(&mut state, &cfg, &parameter, Q96),
        Err(ErrorCode::PositionNotFound)
    );
}

#[test]
fn decrease_beyond_held_size_is_rejected() {
    let mut state = funded_market();
    let cfg = market_cfg();
    let index = 100 * Q96;
    let open = IncreasePositionParameter {
        account: 7,
        side: true,
        margin_delta: 1000,
        size_delta: 500,
    };
    increase_position(&mut state, &cfg, &open, index).unwrap();
    let parameter = DecreasePositionParameter {
        account: 7,
        side: true,
        margin_delta: 0,
        size_delta: 501,
        receiver: 7,
    };
    assert_eq!(
        decrease_position(&mut state, &cfg, &parameter, index),
        Err(ErrorCode::InsufficientSizeToDecrease)
    );
    assert_eq!(state.global_position.long_size, 500);
}

#[test]
fn decrease_cannot_withdraw_more_margin_than_held() {
    let mut state = funded_market();
    let cfg = market_cfg();
    let index = 100 * Q96;
    let open = IncreasePositionParameter {
        account: 7,
        side: true,
        margin_delta: 1000,
        size_delta: 500,
    };
    increase_position(&mut state, &cfg, &open, index).unwrap();
    let parameter = DecreasePositionParameter {
        account: 7,
        side: true,
        margin_delta: 5000,
        size_delta: 500,
        receiver: 7,
    };
    assert_eq!(
        decrease_position(&mut state, &cfg, &parameter, index),
        Err(ErrorCode::InsufficientMargin)
    );
    let pos = *state.long_positions.get(&7).unwrap();
    assert_eq!(pos.margin, 1000);
}

#[test]
fn liquidation_succeeds_only_below_maintenance() {
    // margin 10 against maintenance 50: liquidation proceeds while a
    // routine operation on the same numbers is rejected
    let mut cfg = market_cfg();
    cfg.base_config.liquidation_execution_fee = 50;
    let routine = MaintainMarginRateParameter {
        margin: 10,
        side: true,
        size: 0,
        entry_price_x96: 0,
        decrease_price_x96: 0,
        trading_fee_rate: 0,
        liquidatable_position: false,
    };
    assert_eq!(
        validate_position_liquidate_maintain_margin_rate(&cfg.base_config, &routine),
        Err(ErrorCode::MarginRateTooHigh)
    );
    let forced = MaintainMarginRateParameter {
        liquidatable_position: true,
        ..routine
    };
    assert_eq!(
        validate_position_liquidate_maintain_margin_rate(&cfg.base_config, &forced),
        Ok(())
    );
    // a solvent position is the mirror image
    let solvent = MaintainMarginRateParameter {
        margin: 90,
        ..routine
    };
    assert_eq!(
        validate_position_liquidate_maintain_margin_rate(&cfg.base_config, &solvent),
        Ok(())
    );
    let solvent_forced = MaintainMarginRateParameter {
        liquidatable_position: true,
        ..solvent
    };
    assert_eq!(
        validate_position_liquidate_maintain_margin_rate(&cfg.base_config, &solvent_forced),
        Err(ErrorCode::MarginRateTooLow)
    );
}

#[test]
fn liquidate_closes_the_position_and_books_the_gap() {
    let mut state = funded_market();
    let cfg = market_cfg();
    let index = 100 * Q96;
    let open = IncreasePositionParameter {
        account: 7,
        side: true,
        margin_delta: 1000,
        size_delta: 500,
    };
    increase_position(&mut state, &cfg, &open, index).unwrap();
    // raise the execution fee so the position breaches maintenance
    let mut strict = market_cfg();
    strict.base_config.liquidation_execution_fee = 10_000;
    let parameter = LiquidateParameter {
        account: 7,
        side: true,
        trade_price_x96: index,
        decrease_index_price_x96: index,
        required_funding_fee: 0,
        fee_receiver: 1,
    };
    assert_eq!(liquidate_position(&mut state, &strict, &parameter), Ok(()));
    assert!(state.long_positions.get(&7).is_none());
    assert_eq!(state.global_position.long_size, 0);
    // theoretical liquidation price sits 18 units above entry; closing at
    // the index books the whole gap as a fund loss
    assert_eq!(state.global_liquidation_fund.liquidation_fund, -9000);
}

#[test]
fn liquidate_spreads_funding_shortfall_over_the_opposite_side() {
    let mut state = funded_market();
    let cfg = market_cfg();
    let index = 100 * Q96;
    let open_long = IncreasePositionParameter {
        account: 7,
        side: true,
        margin_delta: 1000,
        size_delta: 500,
    };
    increase_position(&mut state, &cfg, &open_long, index).unwrap();
    let open_short = IncreasePositionParameter {
        account: 8,
        side: false,
        margin_delta: 1000,
        size_delta: 100,
    };
    increase_position(&mut state, &cfg, &open_short, index).unwrap();
    // the long side accrued negative funding since the position's snapshot
    state.global_position.long_funding_rate_growth_x96 = -(Q96 as i128);
    let mut strict = market_cfg();
    strict.base_config.liquidation_execution_fee = 10_000;
    let parameter = LiquidateParameter {
        account: 7,
        side: true,
        trade_price_x96: index,
        decrease_index_price_x96: index,
        required_funding_fee: 0,
        fee_receiver: 1,
    };
    assert_eq!(liquidate_position(&mut state, &strict, &parameter), Ok(()));
    assert!(state.long_positions.get(&7).is_none());
    assert_eq!(state.global_position.long_size, 0);
    assert_eq!(state.global_position.short_size, 100);
    // the realizable funding fee is -500, a 500 shortfall against the
    // requested fee, spread as 500 * Q96 / 100 over the short side
    assert_eq!(
        state.global_position.short_funding_rate_growth_x96,
        5 * Q96 as i128
    );
    // liquidation price is 19 units above entry, booked against the fund
    assert_eq!(state.global_liquidation_fund.liquidation_fund, -9500);
}

#[test]
fn liquidate_rejects_a_solvent_position() {
    let mut state = funded_market();
    let cfg = market_cfg();
    let index = 100 * Q96;
    let open = IncreasePositionParameter {
        account: 7,
        side: true,
        margin_delta: 1000,
        size_delta: 500,
    };
    increase_position(&mut state, &cfg, &open, index).unwrap();
    let parameter = LiquidateParameter {
        account: 7,
        side: true,
        trade_price_x96: index,
        decrease_index_price_x96: index,
        required_funding_fee: 0,
        fee_receiver: 1,
    };
    assert_eq!(
        liquidate_position(&mut state, &cfg, &parameter),
        Err(ErrorCode::MarginRateTooLow)
    );
    assert!(state.long_positions.get(&7).is_some());
}

#[test]
fn trading_fee_rounds_up_twice() {
    // value ceil(100 * Q96/2 / Q96) = 50, fee ceil(50 * 500 / 10000) = 3
    assert_eq!(calculate_trading_fee(100, Q96 / 2, 500), Ok(3));
    assert_eq!(calculate_trading_fee(100, Q96, 0), Ok(0));
}

#[test]
fn split_fee_floors_the_share() {
    assert_eq!(split_fee(100, 3000), Ok(30));
    assert_eq!(split_fee(1, 9999), Ok(0));
}

#[test]
fn funding_fee_follows_the_accumulator_delta() {
    assert_eq!(calculate_funding_fee(Q96 as i128, 0, 250), Ok(250));
    assert_eq!(calculate_funding_fee(0, Q96 as i128, 250), Ok(-250));
    assert_eq!(calculate_funding_fee(5, 5, 250), Ok(0));
}

#[test]
fn maintenance_margin_formula_is_exact() {
    // entry rate 2500bp on a Q96 entry price gives Q96/4 per unit, so
    // size 8 owes 2, plus the execution fee 7
    assert_eq!(calculate_maintenance_margin(8, Q96, 0, 2500, 0, 7), Ok(9));
}

#[test]
fn unrealized_pnl_is_signed_by_side() {
    assert_eq!(calculate_unrealized_pnl(true, 10, Q96, 3 * Q96), Ok(20));
    assert_eq!(calculate_unrealized_pnl(true, 10, 3 * Q96, Q96), Ok(-20));
    assert_eq!(calculate_unrealized_pnl(false, 10, 3 * Q96, Q96), Ok(20));
    assert_eq!(calculate_unrealized_pnl(false, 10, Q96, 3 * Q96), Ok(-20));
    assert_eq!(calculate_unrealized_pnl(true, 10, Q96, Q96), Ok(0));
}

#[test]
fn next_entry_price_rounds_against_the_trader() {
    // weighted average 25/2: a long pays 13, a short receives 12
    assert_eq!(calculate_next_entry_price_x96(true, 1, 10, 1, 15), Ok(13));
    assert_eq!(calculate_next_entry_price_x96(false, 1, 10, 1, 15), Ok(12));
    assert_eq!(calculate_next_entry_price_x96(true, 0, 0, 5, 42), Ok(42));
    assert_eq!(calculate_next_entry_price_x96(true, 5, 42, 0, 0), Ok(42));
}

#[test]
fn liquidation_price_solves_the_maintenance_equality() {
    // with zero fee rates the liquidation price is entry minus margin per
    // unit of size: 5*Q96 - 30*Q96/10 = 2*Q96
    let pos = Position {
        margin: 30,
        size: 10,
        entry_price_x96: 5 * Q96,
        entry_funding_rate_growth_x96: 0,
    };
    let gp = perp_core::types::GlobalPosition {
        long_size: 0,
        short_size: 0,
        max_size: 0,
        max_size_per_position: 0,
        long_funding_rate_growth_x96: 0,
        short_funding_rate_growth_x96: 0,
    };
    assert_eq!(
        calculate_liquidation_price_x96(&pos, &gp, true, 0, 0, 0, 0),
        Ok((2 * Q96, 0))
    );
}

#[test]
fn trade_price_bound_is_direction_dependent() {
    assert_eq!(_validate_trade_price_X96(true, 100, 100), Ok(()));
    assert_eq!(
        _validate_trade_price_X96(true, 101, 100),
        Err(ErrorCode::InvalidOperation)
    );
    assert_eq!(_validate_trade_price_X96(false, 100, 100), Ok(()));
    assert_eq!(
        _validate_trade_price_X96(false, 99, 100),
        Err(ErrorCode::InvalidOperation)
    );
}

#[test]
fn unrealized_profit_check_is_side_aware() {
    assert!(_has_unrealized_profit(true, 100, 101));
    assert!(!_has_unrealized_profit(true, 100, 100));
    assert!(_has_unrealized_profit(false, 101, 100));
    assert!(!_has_unrealized_profit(false, 100, 100));
}

#[test]
fn basis_points_divisor_is_ten_thousand() {
    assert_eq!(BASIS_POINTS_DIVISOR, 10_000);
    assert_eq!(Q96, 1u128 << 96);
}
