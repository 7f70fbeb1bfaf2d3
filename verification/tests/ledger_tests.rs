use perp_core::constants::Q96;
use perp_core::errors::ErrorCode;
use perp_core::global::{
    adjust_funding_rate_by_liquidation, change_max_size,
    choose_previous_global_funding_rate_growth_x96, decrease_global_liquidity,
    decrease_global_position, increase_global_position, validate_global_liquidity,
};
use perp_core::types::{GlobalLiquidityPosition, GlobalPosition, MarketBaseConfig};

fn empty_global_position() -> GlobalPosition {
    GlobalPosition {
        long_size: 0,
        short_size: 0,
        max_size: 0,
        max_size_per_position: 0,
        long_funding_rate_growth_x96: 0,
        short_funding_rate_growth_x96: 0,
    }
}

fn pool(liquidity: u128) -> GlobalLiquidityPosition {
    GlobalLiquidityPosition {
        net_size: 0,
        liquidation_buffer_net_size: 0,
        previous_sp_price_x96: 0,
        side: false,
        liquidity,
        unrealized_pnl_growth_x64: 0,
    }
}

fn base_cfg() -> MarketBaseConfig {
    MarketBaseConfig {
        min_margin_per_liquidity_position: 0,
        max_leverage_per_liquidity_position: 100,
        liquidation_fee_rate_per_liquidity_position: 100,
        min_margin_per_position: 0,
        max_leverage_per_position: 100,
        liquidation_fee_rate_per_position: 0,
        max_position_liquidity: 500,
        max_position_value_rate: 5000,
        max_size_rate_per_position: 1000,
        liquidation_execution_fee: 0,
        interest_rate: 0,
        max_funding_rate: 0,
    }
}

#[test]
fn validate_global_liquidity_rejects_empty_pool() {
    assert_eq!(
        validate_global_liquidity(0),
        Err(ErrorCode::InsufficientGlobalLiquidity)
    );
    assert_eq!(validate_global_liquidity(1), Ok(()));
}

#[test]
fn global_position_tracks_each_side() {
    let mut gp = empty_global_position();
    assert_eq!(increase_global_position(&mut gp, true, 500), Ok(()));
    assert_eq!(increase_global_position(&mut gp, false, 200), Ok(()));
    assert_eq!(gp.long_size, 500);
    assert_eq!(gp.short_size, 200);
    assert_eq!(decrease_global_position(&mut gp, true, 100), Ok(()));
    assert_eq!(gp.long_size, 400);
    assert_eq!(gp.short_size, 200);
}

#[test]
fn decrease_global_position_underflows_cleanly() {
    let mut gp = empty_global_position();
    gp.long_size = 10;
    assert_eq!(
        decrease_global_position(&mut gp, true, 11),
        Err(ErrorCode::Underflow)
    );
    assert_eq!(gp.long_size, 10);
}

#[test]
fn increase_global_position_overflows_cleanly() {
    let mut gp = empty_global_position();
    gp.short_size = u128::MAX;
    assert_eq!(
        increase_global_position(&mut gp, false, 1),
        Err(ErrorCode::Overflow)
    );
    assert_eq!(gp.short_size, u128::MAX);
}

#[test]
fn last_liquidity_cannot_close_while_open_interest_remains() {
    // draining the pool to exactly zero fails while open interest exists
    let mut glp = pool(100);
    let mut gp = empty_global_position();
    gp.long_size = 5;
    assert_eq!(
        decrease_global_liquidity(&mut glp, &gp, 100),
        Err(ErrorCode::LastLiquidityPositionCannotBeClosed)
    );
    assert_eq!(glp.liquidity, 100);
    // a partial decrease is fine even with open interest
    assert_eq!(decrease_global_liquidity(&mut glp, &gp, 40), Ok(()));
    assert_eq!(glp.liquidity, 60);
    // with no open interest the pool may drain completely
    let mut glp2 = pool(100);
    let gp2 = empty_global_position();
    assert_eq!(decrease_global_liquidity(&mut glp2, &gp2, 100), Ok(()));
    assert_eq!(glp2.liquidity, 0);
}

#[test]
fn decrease_global_liquidity_underflows_cleanly() {
    let mut glp = pool(100);
    let gp = empty_global_position();
    assert_eq!(
        decrease_global_liquidity(&mut glp, &gp, 200),
        Err(ErrorCode::Underflow)
    );
    assert_eq!(glp.liquidity, 100);
}

#[test]
fn change_max_size_recomputes_both_caps() {
    let glp = pool(1000);
    let cfg = base_cfg();
    let mut gp = empty_global_position();
    // min(1000, 500) * 5000 / (10_000 * 1) = 250; per position 250 * 1000 / 10_000 = 25
    assert_eq!(change_max_size(&glp, &cfg, &mut gp, 1), Ok(()));
    assert_eq!(gp.max_size, 250);
    assert_eq!(gp.max_size_per_position, 25);
}

#[test]
fn change_max_size_rejects_zero_index_price() {
    let glp = pool(1000);
    let cfg = base_cfg();
    let mut gp = empty_global_position();
    assert_eq!(
        change_max_size(&glp, &cfg, &mut gp, 0),
        Err(ErrorCode::DivideByZero)
    );
}

#[test]
fn funding_rate_growth_chooser_matches_side() {
    let mut gp = empty_global_position();
    gp.long_funding_rate_growth_x96 = 7;
    gp.short_funding_rate_growth_x96 = -3;
    assert_eq!(choose_previous_global_funding_rate_growth_x96(&gp, true), 7);
    assert_eq!(choose_previous_global_funding_rate_growth_x96(&gp, false), -3);
}

#[test]
fn liquidation_shortfall_spreads_over_opposite_side() {
    // a long liquidation short of 100 units of funding, with 100 short
    // size open, lowers the short accumulator by exactly Q96
    let mut gp = empty_global_position();
    gp.short_size = 100;
    let r = adjust_funding_rate_by_liquidation(&mut gp, true, -100, 0);
    assert_eq!(r, Ok(0));
    assert_eq!(gp.short_funding_rate_growth_x96, -(Q96 as i128));
    assert_eq!(gp.long_funding_rate_growth_x96, 0);
}

#[test]
fn liquidation_shortfall_with_empty_opposite_side_is_fund_loss() {
    let mut gp = empty_global_position();
    let r = adjust_funding_rate_by_liquidation(&mut gp, true, -100, 0);
    assert_eq!(r, Ok(-100));
    assert_eq!(gp.short_funding_rate_growth_x96, 0);
    assert_eq!(gp.long_funding_rate_growth_x96, 0);
}
