use perp_core::constants::Q64;
use perp_core::errors::ErrorCode;
use perp_core::liquidity_position::{
    calculate_realized_pnl, decrease_liquidity_position, increase_liquidity_position,
    liquidate_liquidity_position, validate_liquidity_position_risk_rate,
};
use perp_core::types::{
    DecreaseLiquidityPositionParameter, IncreaseLiquidityPositionParameter, LiquidityPosition,
    MarketBaseConfig, PriceVertex, State,
};

fn vertices() -> Vec<PriceVertex> {
    let mut vs = Vec::new();
    for i in 0..10u128 {
        vs.push(PriceVertex {
            size: i * 1_000_000,
            premium_rate_x96: i,
        });
    }
    vs
}

fn base_cfg() -> MarketBaseConfig {
    MarketBaseConfig {
        min_margin_per_liquidity_position: 0,
        max_leverage_per_liquidity_position: 100,
        liquidation_fee_rate_per_liquidity_position: 100,
        min_margin_per_position: 0,
        max_leverage_per_position: 100,
        liquidation_fee_rate_per_position: 0,
        max_position_liquidity: u128::MAX,
        max_position_value_rate: 10_000,
        max_size_rate_per_position: 10_000,
        liquidation_execution_fee: 0,
        interest_rate: 0,
        max_funding_rate: 0,
    }
}

#[test]
fn lp_deposit_creates_position_and_grows_pool() {
    // empty market, deposit margin 1000 and liquidity 10000
    let mut state = State::new(vertices());
    let cfg = base_cfg();
    let parameter = IncreaseLiquidityPositionParameter {
        account: 1,
        margin_delta: 1000,
        liquidity_delta: 10_000,
    };
    let r = increase_liquidity_position(&mut state, &cfg, &parameter);
    assert_eq!(r, Ok(1000));
    assert_eq!(state.global_liquidity_position.liquidity, 10_000);
    let pos = *state.liquidity_positions.get(&1).unwrap();
    assert_eq!(pos.margin, 1000);
    assert_eq!(pos.liquidity, 10_000);
    assert_eq!(pos.entry_unrealized_pnl_growth_x64, 0);
}

#[test]
fn lp_increase_on_missing_position_needs_liquidity() {
    let mut state = State::new(vertices());
    let cfg = base_cfg();
    let parameter = IncreaseLiquidityPositionParameter {
        account: 9,
        margin_delta: 1000,
        liquidity_delta: 0,
    };
    assert_eq!(
        increase_liquidity_position(&mut state, &cfg, &parameter),
        Err(ErrorCode::LiquidityPositionNotFound)
    );
    assert_eq!(state.global_liquidity_position.liquidity, 0);
}

#[test]
fn lp_decrease_beyond_held_liquidity_is_rejected() {
    // the LP holds 10_000; asking to withdraw more fails and changes nothing
    let mut state = State::new(vertices());
    let cfg = base_cfg();
    let open = IncreaseLiquidityPositionParameter {
        account: 1,
        margin_delta: 1000,
        liquidity_delta: 10_000,
    };
    increase_liquidity_position(&mut state, &cfg, &open).unwrap();
    let parameter = DecreaseLiquidityPositionParameter {
        account: 1,
        margin_delta: 0,
        liquidity_delta: 20_000,
    };
    assert_eq!(
        decrease_liquidity_position(&mut state, &parameter),
        Err(ErrorCode::InsufficientLiquidityToDecrease)
    );
    assert_eq!(state.global_liquidity_position.liquidity, 10_000);
    let pos = *state.liquidity_positions.get(&1).unwrap();
    assert_eq!(pos.liquidity, 10_000);
    assert_eq!(pos.margin, 1000);
}

#[test]
fn liquidity_is_conserved_over_increases_and_decreases() {
    // with zero realized PnL the position and the pool track the same
    // signed sum of deltas
    let mut state = State::new(vertices());
    let cfg = base_cfg();
    let open = IncreaseLiquidityPositionParameter {
        account: 1,
        margin_delta: 100_000,
        liquidity_delta: 10_000,
    };
    increase_liquidity_position(&mut state, &cfg, &open).unwrap();
    let add = IncreaseLiquidityPositionParameter {
        account: 1,
        margin_delta: 0,
        liquidity_delta: 5_000,
    };
    increase_liquidity_position(&mut state, &cfg, &add).unwrap();
    let remove = DecreaseLiquidityPositionParameter {
        account: 1,
        margin_delta: 0,
        liquidity_delta: 4_000,
    };
    decrease_liquidity_position(&mut state, &remove).unwrap();
    let expected = 10_000 + 5_000 - 4_000;
    assert_eq!(state.global_liquidity_position.liquidity, expected);
    assert_eq!(state.liquidity_positions.get(&1).unwrap().liquidity, expected);
}

#[test]
fn lp_withdrawing_everything_removes_the_position() {
    let mut state = State::new(vertices());
    let cfg = base_cfg();
    let open = IncreaseLiquidityPositionParameter {
        account: 1,
        margin_delta: 1000,
        liquidity_delta: 10_000,
    };
    increase_liquidity_position(&mut state, &cfg, &open).unwrap();
    let close = DecreaseLiquidityPositionParameter {
        account: 1,
        margin_delta: 0,
        liquidity_delta: 10_000,
    };
    assert_eq!(
        decrease_liquidity_position(&mut state, &close),
        Ok((1000, 0))
    );
    assert!(state.liquidity_positions.get(&1).is_none());
    assert_eq!(state.global_liquidity_position.liquidity, 0);
}

#[test]
fn realized_pnl_is_settled_from_the_growth_accumulator() {
    // one full unit of per-liquidity growth on a 10_000 stake realizes
    // 10_000 into the margin on the next touch
    let mut state = State::new(vertices());
    let cfg = base_cfg();
    let open = IncreaseLiquidityPositionParameter {
        account: 1,
        margin_delta: 1000,
        liquidity_delta: 10_000,
    };
    increase_liquidity_position(&mut state, &cfg, &open).unwrap();
    state.global_liquidity_position.unrealized_pnl_growth_x64 = Q64 as i128;
    let touch = IncreaseLiquidityPositionParameter {
        account: 1,
        margin_delta: 0,
        liquidity_delta: 0,
    };
    assert_eq!(
        increase_liquidity_position(&mut state, &cfg, &touch),
        Ok(11_000)
    );
    let pos = *state.liquidity_positions.get(&1).unwrap();
    assert_eq!(pos.margin, 11_000);
    assert_eq!(pos.entry_unrealized_pnl_growth_x64, Q64 as i128);
}

#[test]
fn realized_pnl_rounds_against_the_lp() {
    let glp = perp_core::types::GlobalLiquidityPosition {
        net_size: 0,
        liquidation_buffer_net_size: 0,
        previous_sp_price_x96: 0,
        side: false,
        liquidity: 0,
        unrealized_pnl_growth_x64: -1,
    };
    let pos = LiquidityPosition {
        margin: 100,
        liquidity: 3,
        entry_unrealized_pnl_growth_x64: 0,
    };
    // a tiny negative growth delta still costs one unit (magnitude ceiling)
    assert_eq!(calculate_realized_pnl(&glp, &pos), Ok(-1));
    let glp_up = perp_core::types::GlobalLiquidityPosition {
        unrealized_pnl_growth_x64: 1,
        ..glp
    };
    // a tiny positive delta pays nothing (floor)
    assert_eq!(calculate_realized_pnl(&glp_up, &pos), Ok(0));
}

#[test]
fn risk_rate_checks_are_complementary_at_the_boundary() {
    // liquidity 5000 at a 1% liquidation fee rate gives maintenance 50
    let cfg = base_cfg();
    // margin exactly at maintenance: routine rejects, liquidation proceeds
    assert_eq!(
        validate_liquidity_position_risk_rate(&cfg, 50, 5000, false),
        Err(ErrorCode::RiskRateTooHigh)
    );
    assert_eq!(
        validate_liquidity_position_risk_rate(&cfg, 50, 5000, true),
        Ok(())
    );
    // margin strictly above maintenance: routine proceeds, liquidation rejects
    assert_eq!(
        validate_liquidity_position_risk_rate(&cfg, 51, 5000, false),
        Ok(())
    );
    assert_eq!(
        validate_liquidity_position_risk_rate(&cfg, 51, 5000, true),
        Err(ErrorCode::RiskRateTooLow)
    );
    // negative margin: routine rejects, liquidation proceeds
    assert_eq!(
        validate_liquidity_position_risk_rate(&cfg, -1, 5000, false),
        Err(ErrorCode::RiskRateTooHigh)
    );
    assert_eq!(
        validate_liquidity_position_risk_rate(&cfg, -1, 5000, true),
        Ok(())
    );
}

#[test]
fn solvent_lp_cannot_be_liquidated() {
    let mut state = State::new(vertices());
    let cfg = base_cfg();
    let open = IncreaseLiquidityPositionParameter {
        account: 1,
        margin_delta: 1000,
        liquidity_delta: 10_000,
    };
    increase_liquidity_position(&mut state, &cfg, &open).unwrap();
    // maintenance is 100; margin 1000 is comfortably solvent
    assert_eq!(
        liquidate_liquidity_position(&mut state, &cfg, 1),
        Err(ErrorCode::RiskRateTooLow)
    );
    assert!(state.liquidity_positions.get(&1).is_some());
}

#[test]
fn underwater_lp_liquidation_banks_surplus_into_the_fund() {
    let mut state = State::new(vertices());
    let cfg = base_cfg();
    let open = IncreaseLiquidityPositionParameter {
        account: 1,
        margin_delta: 150,
        liquidity_delta: 10_000,
    };
    increase_liquidity_position(&mut state, &cfg, &open).unwrap();
    // raise the maintenance requirement above the margin
    let mut strict = base_cfg();
    strict.liquidation_fee_rate_per_liquidity_position = 200;
    let r = liquidate_liquidity_position(&mut state, &strict, 1);
    assert_eq!(r, Ok(0));
    assert!(state.liquidity_positions.get(&1).is_none());
    assert_eq!(state.global_liquidity_position.liquidity, 0);
    // margin after settlement minus the zero execution fee goes to the fund
    assert_eq!(state.global_liquidation_fund.liquidation_fund, 150);
}
