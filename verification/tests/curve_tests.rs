use perp_core::constants::Q96;
use perp_core::errors::ErrorCode;
use perp_core::price::{calculate_market_price_x96, simulate_move, update_price_state,
    validate_vertices};
use perp_core::types::{PriceVertex, SimulateMoveStep, State, UpdatePriceStateParameter};

// vertex i sits at size 1000*i with premium 1000*i
fn curve_vertices() -> Vec<PriceVertex> {
    let mut vs = Vec::new();
    for i in 0..10u128 {
        vs.push(PriceVertex {
            size: i * 1000,
            premium_rate_x96: i * 1000,
        })
    }
    vs
}

fn curve_state() -> State {
    State::new(curve_vertices())
}

fn parameter(side: bool, size_delta: u128, liquidation: bool) -> UpdatePriceStateParameter {
    UpdatePriceStateParameter {
        side,
        size_delta,
        index_price_x96: Q96,
        liquidation_vertex_index: 5,
        liquidation,
    }
}

#[test]
fn zero_size_trade_is_rejected() {
    let mut state = curve_state();
    let r = update_price_state(
        &mut state.global_liquidity_position,
        &mut state.price_state,
        &parameter(true, 0, false),
    );
    assert_eq!(r, Err(ErrorCode::InvalidOperation));
    assert_eq!(state.global_liquidity_position.net_size, 0);
}

#[test]
fn worsening_walk_advances_vertex_index_and_premium() {
    let mut state = curve_state();
    let r = update_price_state(
        &mut state.global_liquidity_position,
        &mut state.price_state,
        &parameter(true, 2500, false),
    );
    assert!(r.is_ok());
    assert_eq!(state.global_liquidity_position.net_size, 2500);
    assert!(!state.global_liquidity_position.side);
    // 2500 sits between vertex 2 and vertex 3
    assert_eq!(state.price_state.current_vertex_index, 3);
    // interpolated halfway between the vertex premiums
    assert_eq!(state.price_state.premium_rate_x96, 2500);
    assert_eq!(state.price_state.basis_index_price_x96, Q96);
    // a worsening long trade pays above the index price
    assert!(r.unwrap() > Q96);
}

#[test]
fn forward_and_backward_walks_round_trip() {
    // walk forward by 700 on top of an existing imbalance, then back by
    // the same size: vertex index and premium rate return exactly
    let mut state = curve_state();
    update_price_state(
        &mut state.global_liquidity_position,
        &mut state.price_state,
        &parameter(true, 2500, false),
    )
    .unwrap();
    let cvi_before = state.price_state.current_vertex_index;
    let premium_before = state.price_state.premium_rate_x96;
    update_price_state(
        &mut state.global_liquidity_position,
        &mut state.price_state,
        &parameter(true, 700, false),
    )
    .unwrap();
    assert_ne!(state.price_state.premium_rate_x96, premium_before);
    // the pool is net short the trade side, so a short trade improves
    update_price_state(
        &mut state.global_liquidity_position,
        &mut state.price_state,
        &parameter(false, 700, false),
    )
    .unwrap();
    assert_eq!(state.global_liquidity_position.net_size, 2500);
    assert_eq!(state.price_state.current_vertex_index, cvi_before);
    assert_eq!(state.price_state.premium_rate_x96, premium_before);
}

#[test]
fn walking_past_the_last_vertex_is_rejected_without_liquidation() {
    let mut state = curve_state();
    let r = update_price_state(
        &mut state.global_liquidity_position,
        &mut state.price_state,
        &parameter(true, 10_000, false),
    );
    assert_eq!(r, Err(ErrorCode::MaxPremiumRateExceeded));
    assert_eq!(state.global_liquidity_position.net_size, 0);
    assert_eq!(state.price_state.current_vertex_index, 0);
}

#[test]
fn liquidation_overflow_lands_in_the_buffer_and_is_repaid_first() {
    let mut state = curve_state();
    // a forced liquidation pushes 1000 beyond the curve's 9000 capacity
    let r = update_price_state(
        &mut state.global_liquidity_position,
        &mut state.price_state,
        &parameter(true, 10_000, true),
    );
    assert!(r.is_ok());
    assert_eq!(state.global_liquidity_position.net_size, 9000);
    assert_eq!(state.global_liquidity_position.liquidation_buffer_net_size, 1000);
    assert_eq!(state.price_state.liquidation_buffer_net_sizes[5], 1000);
    assert_eq!(state.price_state.current_vertex_index, 9);
    // an improving trade drains the buffer and the curve back to balance
    let r2 = update_price_state(
        &mut state.global_liquidity_position,
        &mut state.price_state,
        &parameter(false, 10_000, false),
    );
    assert!(r2.is_ok());
    assert_eq!(state.global_liquidity_position.net_size, 0);
    assert_eq!(state.global_liquidity_position.liquidation_buffer_net_size, 0);
    assert_eq!(state.price_state.liquidation_buffer_net_sizes[5], 0);
    assert_eq!(state.price_state.current_vertex_index, 0);
    assert_eq!(state.price_state.premium_rate_x96, 0);
}

#[test]
fn crossing_the_balance_point_rebases_and_flips() {
    let mut state = curve_state();
    update_price_state(
        &mut state.global_liquidity_position,
        &mut state.price_state,
        &parameter(true, 1500, false),
    )
    .unwrap();
    assert!(!state.global_liquidity_position.side);
    // a short trade larger than the imbalance crosses to the other side
    let crossing = UpdatePriceStateParameter {
        index_price_x96: 2 * Q96,
        ..parameter(false, 2000, false)
    };
    update_price_state(
        &mut state.global_liquidity_position,
        &mut state.price_state,
        &crossing,
    )
    .unwrap();
    assert_eq!(state.global_liquidity_position.net_size, 500);
    assert!(state.global_liquidity_position.side);
    // the basis price re-anchors at the index of the crossing trade
    assert_eq!(state.price_state.basis_index_price_x96, 2 * Q96);
    assert_eq!(state.price_state.current_vertex_index, 1);
}

#[test]
fn simulate_move_prices_one_segment() {
    // move 500 into the first segment: premium goes 0 -> 500, and a
    // worsening long pays index + basis * avg premium, rounded up
    let step = SimulateMoveStep {
        side: true,
        size_left: 500,
        index_price_x96: Q96,
        basis_index_price_x96: Q96,
        improve_balance: false,
        from: PriceVertex { size: 0, premium_rate_x96: 0 },
        current: PriceVertex { size: 0, premium_rate_x96: 0 },
        to: PriceVertex { size: 1000, premium_rate_x96: 1000 },
    };
    let (price, used, reached, premium_after) = simulate_move(&step).unwrap();
    assert_eq!(used, 500);
    assert!(!reached);
    assert_eq!(premium_after, 500);
    assert_eq!(price, Q96 + 250);
}

#[test]
fn market_price_moves_with_and_against_the_pool() {
    // premium 200 on a basis of Q96 moves the price by exactly 200
    let delta = 200;
    assert_eq!(
        calculate_market_price_x96(true, true, Q96, Q96, delta),
        Ok(Q96 - delta)
    );
    assert_eq!(
        calculate_market_price_x96(false, true, Q96, Q96, delta),
        Ok(Q96 + delta)
    );
    assert_eq!(
        calculate_market_price_x96(true, false, Q96, Q96, delta),
        Ok(Q96 - delta)
    );
    assert_eq!(
        calculate_market_price_x96(false, false, Q96, Q96, delta),
        Ok(Q96 + delta)
    );
}

#[test]
fn price_clamps_at_zero_instead_of_underflowing() {
    // an improving long with a premium larger than the index clamps to 0
    assert_eq!(calculate_market_price_x96(true, true, 1, Q96, 200), Ok(0));
}

#[test]
fn vertex_table_validator_matches_the_required_shape() {
    assert!(validate_vertices(&curve_vertices()));
    // wrong length
    let mut short_table = curve_vertices();
    short_table.pop();
    assert!(!validate_vertices(&short_table));
    // origin not pinned
    let mut shifted = curve_vertices();
    shifted[0].size = 1;
    assert!(!validate_vertices(&shifted));
    // not strictly increasing
    let mut flat = curve_vertices();
    flat[3].premium_rate_x96 = flat[2].premium_rate_x96;
    assert!(!validate_vertices(&flat));
}
