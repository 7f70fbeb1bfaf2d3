//! Data model of one market: configuration snapshots, global ledgers,
//! per-account positions, the premium curve state, and the typed parameter
//! structs the manager operations take.

use vstd::hash_map::HashMapWithView;
use vstd::prelude::*;

use crate::constants::BASIS_POINTS_DIVISOR;

verus! {

/// Base risk parameters of a market, immutable per call.
#[derive(Clone, Copy, Debug)]
pub struct MarketBaseConfig {
    pub min_margin_per_liquidity_position: u64,
    pub max_leverage_per_liquidity_position: u32,
    pub liquidation_fee_rate_per_liquidity_position: u32,
    pub min_margin_per_position: u64,
    pub max_leverage_per_position: u32,
    pub liquidation_fee_rate_per_position: u32,
    pub max_position_liquidity: u128,
    pub max_position_value_rate: u32,
    pub max_size_rate_per_position: u32,
    pub liquidation_execution_fee: u64,
    pub interest_rate: u32,
    pub max_funding_rate: u32,
}

/// All fee rates are basis-point fractions and never exceed the divisor.
pub open spec fn base_config_wf(cfg: MarketBaseConfig) -> bool {
    &&& cfg.liquidation_fee_rate_per_liquidity_position <= BASIS_POINTS_DIVISOR
    &&& cfg.liquidation_fee_rate_per_position <= BASIS_POINTS_DIVISOR
    &&& cfg.max_position_value_rate <= BASIS_POINTS_DIVISOR
    &&& cfg.max_size_rate_per_position <= BASIS_POINTS_DIVISOR
}

/// Fee-rate table of a market, immutable per call.
#[derive(Clone, Copy, Debug)]
pub struct MarketFeeRateConfig {
    pub trading_fee_rate: u32,
    pub protocol_fee_rate: u32,
    pub referral_return_fee_rate: u32,
    pub referral_parent_return_fee_rate: u32,
    pub referral_discount_rate: u32,
}

/// All fee rates are basis-point fractions and never exceed the divisor.
pub open spec fn fee_rate_config_wf(cfg: MarketFeeRateConfig) -> bool {
    &&& cfg.trading_fee_rate <= BASIS_POINTS_DIVISOR
    &&& cfg.protocol_fee_rate <= BASIS_POINTS_DIVISOR
    &&& cfg.referral_return_fee_rate <= BASIS_POINTS_DIVISOR
    &&& cfg.referral_parent_return_fee_rate <= BASIS_POINTS_DIVISOR
    &&& cfg.referral_discount_rate <= BASIS_POINTS_DIVISOR
}

/// One breakpoint of the premium curve as configured: a balance rate and the
/// premium rate reached at that imbalance, both in basis points.
#[derive(Clone, Copy, Debug)]
pub struct VertexConfig {
    pub balance_rate: u32,
    pub premium_rate: u32,
}

/// Price-impact parameters of a market, immutable per call.
#[derive(Clone, Debug)]
pub struct MarketPriceConfig {
    pub max_price_impact_liquidity: u128,
    pub liquidation_vertex_index: u8,
    pub vertices: Vec<VertexConfig>,
}

/// The full configuration snapshot supplied by the external configuration
/// collaborator.
#[derive(Clone, Debug)]
pub struct MarketConfig {
    pub base_config: MarketBaseConfig,
    pub fee_rate_config: MarketFeeRateConfig,
    pub price_config: MarketPriceConfig,
}

/// Pool-wide liquidity state for one market.
#[derive(Clone, Copy, Debug)]
pub struct GlobalLiquidityPosition {
    /// The size of the net position held by all LPs.
    pub net_size: u128,
    /// The size of the net position held by all LPs in the liquidation
    /// buffer.
    pub liquidation_buffer_net_size: u128,
    /// The previous settlement-point price, as a Q64.96.
    pub previous_sp_price_x96: u128,
    /// The side of the net exposure (`true` for long).
    pub side: bool,
    /// The total liquidity of all LPs, in value units.
    pub liquidity: u128,
    /// Accumulated unrealized PnL growth per liquidity unit, as a Q192.64.
    pub unrealized_pnl_growth_x64: i128,
}

/// Aggregate trader exposure for one market.
#[derive(Clone, Copy, Debug)]
pub struct GlobalPosition {
    pub long_size: u128,
    pub short_size: u128,
    /// Pool-wide open-interest cap, recomputed on liquidity change.
    pub max_size: u128,
    /// Per-position size cap, recomputed on liquidity change.
    pub max_size_per_position: u128,
    /// Cumulative per-unit-size funding accumulator of the long side.
    pub long_funding_rate_growth_x96: i128,
    /// Cumulative per-unit-size funding accumulator of the short side.
    pub short_funding_rate_growth_x96: i128,
}

/// Funding accumulators captured at the previous funding settlement.
#[derive(Clone, Copy, Debug)]
pub struct PreviousGlobalFundingRate {
    pub long_funding_rate_growth_x96: i128,
    pub short_funding_rate_growth_x96: i128,
}

/// Sampling state of the funding-rate adjustment schedule.
#[derive(Clone, Copy, Debug)]
pub struct GlobalFundingRateSample {
    pub last_adjust_funding_rate_time: u64,
    pub sample_count: u16,
    pub cumulative_premium_rate_x96: i128,
}

/// The protocol's insurance fund fed by liquidation surpluses.
#[derive(Clone, Copy, Debug)]
pub struct GlobalLiquidationFund {
    pub liquidation_fund: i128,
    pub liquidity: u128,
}

/// One liquidity provider's stake.
#[derive(Clone, Copy, Debug)]
pub struct LiquidityPosition {
    pub margin: u128,
    /// The liquidity (value) this LP has staked.
    pub liquidity: u128,
    /// Snapshot of the global PnL growth accumulator at last settlement.
    pub entry_unrealized_pnl_growth_x64: i128,
}

/// One trader's leveraged position on one side.
#[derive(Clone, Copy, Debug)]
pub struct Position {
    pub margin: u128,
    pub size: u128,
    /// Size-weighted entry price, as a Q64.96.
    pub entry_price_x96: u128,
    /// Snapshot of the side-matching funding accumulator.
    pub entry_funding_rate_growth_x96: i128,
}

/// A point of the piecewise-linear premium curve in market units: a
/// cumulative size and the premium rate reached there.
#[derive(Clone, Copy, Debug)]
pub struct PriceVertex {
    pub size: u128,
    pub premium_rate_x96: u128,
}

/// Current position on the premium curve, its vertex table, and the
/// per-vertex liquidation absorption buckets.
#[derive(Clone, Debug)]
pub struct PriceState {
    /// Premium rate at the pool's current curve position, as a Q64.96.
    pub premium_rate_x96: u128,
    pub pending_vertex_index: u8,
    /// Index of the upper vertex of the segment the pool currently sits on.
    pub current_vertex_index: u8,
    /// Reference index price recorded at the last balance crossing.
    pub basis_index_price_x96: u128,
    pub price_vertices: Vec<PriceVertex>,
    pub liquidation_buffer_net_sizes: Vec<u128>,
}

/// Referral-adjusted fee rates resolved for one call.
#[derive(Clone, Copy, Debug)]
pub struct TradingFeeState {
    pub trading_fee_rate: u32,
    pub referral_return_fee_rate: u32,
    pub referral_parent_return_fee_rate: u32,
    pub referral_token: u128,
    pub referral_parent_token: u128,
}

/// Request to open or grow a liquidity position.
#[derive(Clone, Copy, Debug)]
pub struct IncreaseLiquidityPositionParameter {
    pub account: u64,
    pub margin_delta: u128,
    pub liquidity_delta: u128,
}

/// Request to shrink or close a liquidity position.
#[derive(Clone, Copy, Debug)]
pub struct DecreaseLiquidityPositionParameter {
    pub account: u64,
    pub margin_delta: u128,
    pub liquidity_delta: u128,
}

/// Request to open or grow a trader position.
#[derive(Clone, Copy, Debug)]
pub struct IncreasePositionParameter {
    pub account: u64,
    pub side: bool,
    pub margin_delta: u128,
    pub size_delta: u128,
}

/// Request to shrink or close a trader position.
#[derive(Clone, Copy, Debug)]
pub struct DecreasePositionParameter {
    pub account: u64,
    pub side: bool,
    pub margin_delta: u128,
    pub size_delta: u128,
    pub receiver: u64,
}

/// Request to liquidate a trader position at a forced trade price.
#[derive(Clone, Copy, Debug)]
pub struct LiquidateParameter {
    pub account: u64,
    pub side: bool,
    pub trade_price_x96: u128,
    pub decrease_index_price_x96: u128,
    pub required_funding_fee: i128,
    pub fee_receiver: u64,
}

/// Inputs of the shared maintenance-margin check for trader positions.
#[derive(Clone, Copy, Debug)]
pub struct MaintainMarginRateParameter {
    pub margin: i128,
    pub side: bool,
    pub size: u128,
    pub entry_price_x96: u128,
    pub decrease_price_x96: u128,
    pub trading_fee_rate: u32,
    pub liquidatable_position: bool,
}

/// Inputs of the fee distribution performed after a trade.
#[derive(Clone, Copy, Debug)]
pub struct DistributeFeeParameter {
    pub account: u64,
    pub size_delta: u128,
    pub trade_price_x96: u128,
    pub trading_fee_state: TradingFeeState,
    pub liquidation_fee: i128,
}

/// One step of the curve walk: the segment being traversed, the position
/// on it, and the trade context.
#[derive(Clone, Copy, Debug)]
pub struct SimulateMoveStep {
    pub side: bool,
    pub size_left: u128,
    pub index_price_x96: u128,
    pub basis_index_price_x96: u128,
    pub improve_balance: bool,
    pub from: PriceVertex,
    pub current: PriceVertex,
    pub to: PriceVertex,
}

/// Inputs of one walk of the premium curve.
#[derive(Clone, Copy, Debug)]
pub struct UpdatePriceStateParameter {
    pub side: bool,
    pub size_delta: u128,
    pub index_price_x96: u128,
    pub liquidation_vertex_index: u8,
    pub liquidation: bool,
}

/// All ledgers of one market: the single logical resource every manager
/// operation mutates transactionally.
pub struct State {
    pub price_state: PriceState,
    pub usd_balance: u128,
    pub protocol_fee: u128,
    pub global_liquidity_position: GlobalLiquidityPosition,
    pub global_position: GlobalPosition,
    pub global_liquidation_fund: GlobalLiquidationFund,
    pub liquidity_positions: HashMapWithView<u64, LiquidityPosition>,
    pub long_positions: HashMapWithView<u64, Position>,
    pub short_positions: HashMapWithView<u64, Position>,
}

impl State {
    /// An empty market over the given vertex table: no liquidity, no
    /// positions, the pool balanced at the curve origin.
    pub fn new(price_vertices: Vec<PriceVertex>) -> (r: State)
        ensures
            r.price_state.price_vertices@ == price_vertices@,
            r.price_state.premium_rate_x96 == 0,
            r.price_state.current_vertex_index == 0,
            r.price_state.pending_vertex_index == 0,
            r.price_state.basis_index_price_x96 == 0,
            r.price_state.liquidation_buffer_net_sizes@.len() == 10,
            forall|j: int|
                0 <= j < 10 ==> #[trigger] r.price_state.liquidation_buffer_net_sizes@[j] == 0,
            r.usd_balance == 0,
            r.protocol_fee == 0,
            r.global_liquidity_position == (GlobalLiquidityPosition {
                net_size: 0,
                liquidation_buffer_net_size: 0,
                previous_sp_price_x96: 0,
                side: false,
                liquidity: 0,
                unrealized_pnl_growth_x64: 0,
            }),
            r.global_position == (GlobalPosition {
                long_size: 0,
                short_size: 0,
                max_size: 0,
                max_size_per_position: 0,
                long_funding_rate_growth_x96: 0,
                short_funding_rate_growth_x96: 0,
            }),
            r.global_liquidation_fund == (GlobalLiquidationFund {
                liquidation_fund: 0,
                liquidity: 0,
            }),
            r.liquidity_positions@ == Map::<u64, LiquidityPosition>::empty(),
            r.long_positions@ == Map::<u64, Position>::empty(),
            r.short_positions@ == Map::<u64, Position>::empty(),
    {
        broadcast use vstd::std_specs::hash::group_hash_axioms;

        let mut buffers: Vec<u128> = Vec::new();
        let mut i: usize = 0;
        while i < 10
            invariant
                i <= 10,
                buffers@.len() == i,
                forall|j: int| 0 <= j < i ==> #[trigger] buffers@[j] == 0,
            decreases 10 - i,
        {
            buffers.push(0);
            i = i + 1;
        }
        State {
            price_state: PriceState {
                premium_rate_x96: 0,
                pending_vertex_index: 0,
                current_vertex_index: 0,
                basis_index_price_x96: 0,
                price_vertices,
                liquidation_buffer_net_sizes: buffers,
            },
            usd_balance: 0,
            protocol_fee: 0,
            global_liquidity_position: GlobalLiquidityPosition {
                net_size: 0,
                liquidation_buffer_net_size: 0,
                previous_sp_price_x96: 0,
                side: false,
                liquidity: 0,
                unrealized_pnl_growth_x64: 0,
            },
            global_position: GlobalPosition {
                long_size: 0,
                short_size: 0,
                max_size: 0,
                max_size_per_position: 0,
                long_funding_rate_growth_x96: 0,
                short_funding_rate_growth_x96: 0,
            },
            global_liquidation_fund: GlobalLiquidationFund { liquidation_fund: 0, liquidity: 0 },
            liquidity_positions: HashMapWithView::new(),
            long_positions: HashMapWithView::new(),
            short_positions: HashMapWithView::new(),
        }
    }
}

} // verus!
