//! Per-trader leveraged positions: entry-price and PnL arithmetic, trading
//! and funding fees, the maintenance-margin validator, the closed-form
//! liquidation price, and the managers that open, adjust and liquidate
//! positions.

use vstd::prelude::*;

use crate::constants::{BASIS_POINTS_DIVISOR, Q96};
use crate::errors::ErrorCode;
use crate::math::{div_up, mul_div, mul_div_result, mul_div_up, mul_div_up_result};
use crate::constants::Q64;
use crate::global::{
    choose_previous_global_funding_rate_growth_x96, decrease_global_position,
    funding_adjustment_result, increase_global_position, validate_global_liquidity,
};
use crate::price::{copy_buffers, curve_commit, price_state_wf, update_price_state,
    update_price_trade_price};
use crate::types::{DecreasePositionParameter, DistributeFeeParameter, GlobalLiquidationFund,
    GlobalLiquidityPosition, GlobalPosition, IncreasePositionParameter,
    MaintainMarginRateParameter, MarketBaseConfig, MarketConfig, MarketFeeRateConfig, Position,
    PriceState, State, TradingFeeState, UpdatePriceStateParameter};

verus! {

/// The value of `size` units at price `price_x96`, floored.
pub open spec fn liquidity_value_result(size: u128, price_x96: u128) -> Result<u128, ErrorCode> {
    mul_div_result(size, price_x96, Q96)
}

/// Calculate the liquidity (value) of a position.
pub fn calculate_liquidity(size: u128, price_x96: u128) -> (r: Result<u128, ErrorCode>)
    ensures
        r == liquidity_value_result(size, price_x96),
{
    mul_div(size, price_x96, Q96)
}

/// The unrealized PnL of a position against a reference price: the price
/// delta times the size, floored in magnitude, signed by whether the move
/// favors the position's side.
pub open spec fn unrealized_pnl_result(
    is_long: bool,
    size: u128,
    entry_price_x96: u128,
    price_x96: u128,
) -> Result<i128, ErrorCode> {
    let favorable = if is_long {
        price_x96 >= entry_price_x96
    } else {
        entry_price_x96 >= price_x96
    };
    let diff = if entry_price_x96 >= price_x96 {
        (entry_price_x96 - price_x96) as u128
    } else {
        (price_x96 - entry_price_x96) as u128
    };
    match mul_div_result(size, diff, Q96) {
        Err(e) => Err(e),
        Ok(v) => if v > i128::MAX {
            Err(ErrorCode::Overflow)
        } else if favorable {
            Ok(v as i128)
        } else {
            Ok((-(v as int)) as i128)
        },
    }
}

/// Calculate the unrealized PnL of a position based on entry price.
pub fn calculate_unrealized_pnl(
    is_long: bool,
    size: u128,
    entry_price_x96: u128,
    price_x96: u128,
) -> (r: Result<i128, ErrorCode>)
    ensures
        r == unrealized_pnl_result(is_long, size, entry_price_x96, price_x96),
        r matches Err(e) ==> (e == ErrorCode::Overflow || e == ErrorCode::DivideByZero),
{
    let favorable = if is_long {
        price_x96 >= entry_price_x96
    } else {
        entry_price_x96 >= price_x96
    };
    let diff = if entry_price_x96 >= price_x96 {
        entry_price_x96 - price_x96
    } else {
        price_x96 - entry_price_x96
    };
    let v = match mul_div(size, diff, Q96) {
        Ok(v) => v,
        Err(e) => {
            return Err(e);
        },
    };
    if v > i128::MAX as u128 {
        return Err(ErrorCode::Overflow);
    }
    if favorable {
        Ok(v as i128)
    } else {
        Ok(-(v as i128))
    }
}

/// The liquidation fee of a position: the configured rate applied to the
/// position's entry value.
pub open spec fn liquidation_fee_result(
    size: u128,
    entry_price_x96: u128,
    liquidation_fee_rate: u32,
) -> Result<u128, ErrorCode> {
    if size * liquidation_fee_rate > u128::MAX {
        Err(ErrorCode::Overflow)
    } else {
        mul_div_result(
            (size * liquidation_fee_rate) as u128,
            entry_price_x96,
            (BASIS_POINTS_DIVISOR * Q96) as u128,
        )
    }
}

/// Calculate the liquidation fee.
pub fn calculate_liquidation_fee(size: u128, entry_price_x96: u128, liquidation_fee_rate: u32)
    -> (r: Result<u128, ErrorCode>)
    ensures
        r == liquidation_fee_result(size, entry_price_x96, liquidation_fee_rate),
        r matches Err(e) ==> (e == ErrorCode::Overflow || e == ErrorCode::DivideByZero),
{
    let numerator = match size.checked_mul(liquidation_fee_rate as u128) {
        Some(v) => v,
        None => {
            return Err(ErrorCode::Overflow);
        },
    };
    let denominator = BASIS_POINTS_DIVISOR * Q96;
    mul_div(numerator, entry_price_x96, denominator)
}

/// The funding fee a position owes (or is owed) since its snapshot: the
/// accumulator delta times the position size, floored in magnitude.
pub open spec fn funding_fee_result(
    global_funding_rate_growth_x96: i128,
    position_funding_rate_growth_x96: i128,
    position_size: u128,
) -> Result<i128, ErrorCode> {
    let delta = global_funding_rate_growth_x96 - position_funding_rate_growth_x96;
    if delta > i128::MAX || delta < i128::MIN {
        Err(ErrorCode::Overflow)
    } else {
        let magnitude = if delta >= 0 {
            delta as u128
        } else {
            (-delta) as u128
        };
        match mul_div_result(magnitude, position_size, Q96) {
            Err(e) => Err(e),
            Ok(v) => if v > i128::MAX {
                Err(ErrorCode::Overflow)
            } else if delta >= 0 {
                Ok(v as i128)
            } else {
                Ok((-(v as int)) as i128)
            },
        }
    }
}

/// Calculate the funding fee of a position.
pub fn calculate_funding_fee(
    global_funding_rate_growth_x96: i128,
    position_funding_rate_growth_x96: i128,
    position_size: u128,
) -> (r: Result<i128, ErrorCode>)
    ensures
        r == funding_fee_result(
            global_funding_rate_growth_x96,
            position_funding_rate_growth_x96,
            position_size,
        ),
        r matches Err(e) ==> (e == ErrorCode::Overflow || e == ErrorCode::DivideByZero),
{
    let delta = match global_funding_rate_growth_x96.checked_sub(
        position_funding_rate_growth_x96,
    ) {
        Some(v) => v,
        None => {
            return Err(ErrorCode::Overflow);
        },
    };
    let magnitude: u128 = if delta >= 0 {
        delta as u128
    } else if delta == i128::MIN {
        i128::MAX as u128 + 1
    } else {
        (-delta) as u128
    };
    let v = match mul_div(magnitude, position_size, Q96) {
        Ok(v) => v,
        Err(e) => {
            return Err(e);
        },
    };
    if v > i128::MAX as u128 {
        return Err(ErrorCode::Overflow);
    }
    if delta >= 0 {
        Ok(v as i128)
    } else {
        Ok(-(v as i128))
    }
}

/// The maintenance margin of a trader position: the liquidation fee on the
/// entry price plus the trading fee on the reference price, scaled to the
/// position size, plus the fixed execution fee.
pub open spec fn maintenance_margin_result(
    size: u128,
    entry_price_x96: u128,
    index_price_x96: u128,
    liquidation_fee_rate: u32,
    trading_fee_rate: u32,
    liquidation_execution_fee: u64,
) -> Result<u128, ErrorCode> {
    if entry_price_x96 * liquidation_fee_rate > u128::MAX {
        Err(ErrorCode::Overflow)
    } else if index_price_x96 * trading_fee_rate > u128::MAX {
        Err(ErrorCode::Overflow)
    } else if entry_price_x96 * liquidation_fee_rate + index_price_x96 * trading_fee_rate
        > u128::MAX {
        Err(ErrorCode::Overflow)
    } else {
        let scaled_fee = (entry_price_x96 * liquidation_fee_rate + index_price_x96
            * trading_fee_rate) as int / (BASIS_POINTS_DIVISOR as int);
        if size * scaled_fee > u128::MAX {
            Err(ErrorCode::Overflow)
        } else if (size * scaled_fee) as int / (Q96 as int) + liquidation_execution_fee
            > u128::MAX {
            Err(ErrorCode::Overflow)
        } else {
            Ok(((size * scaled_fee) as int / (Q96 as int) + liquidation_execution_fee) as u128)
        }
    }
}

/// Calculate the maintenance margin.
pub fn calculate_maintenance_margin(
    size: u128,
    entry_price_x96: u128,
    index_price_x96: u128,
    liquidation_fee_rate: u32,
    trading_fee_rate: u32,
    liquidation_execution_fee: u64,
) -> (r: Result<u128, ErrorCode>)
    ensures
        r == maintenance_margin_result(
            size,
            entry_price_x96,
            index_price_x96,
            liquidation_fee_rate,
            trading_fee_rate,
            liquidation_execution_fee,
        ),
{
    let entry_part = match entry_price_x96.checked_mul(liquidation_fee_rate as u128) {
        Some(v) => v,
        None => {
            return Err(ErrorCode::Overflow);
        },
    };
    let index_part = match index_price_x96.checked_mul(trading_fee_rate as u128) {
        Some(v) => v,
        None => {
            return Err(ErrorCode::Overflow);
        },
    };
    let fee_part = match entry_part.checked_add(index_part) {
        Some(v) => v,
        None => {
            return Err(ErrorCode::Overflow);
        },
    };
    let scaled_fee = fee_part / BASIS_POINTS_DIVISOR;
    let margin_without_fee = match size.checked_mul(scaled_fee) {
        Some(v) => v,
        None => {
            return Err(ErrorCode::Overflow);
        },
    };
    match (margin_without_fee / Q96).checked_add(liquidation_execution_fee as u128) {
        Some(v) => Ok(v),
        None => Err(ErrorCode::Overflow),
    }
}

/// The trading fee of a trade: the configured rate applied to the traded
/// value, both rounded up so dust favors the protocol.
pub open spec fn trading_fee_result(
    size_delta: u128,
    trade_price_x96: u128,
    trading_fee_rate: u32,
) -> Result<u128, ErrorCode> {
    match mul_div_up_result(size_delta, trade_price_x96, Q96) {
        Err(e) => Err(e),
        Ok(value) => mul_div_up_result(value, trading_fee_rate as u128, BASIS_POINTS_DIVISOR),
    }
}

/// Calculates the trading fee on the value moved by a trade.
pub fn calculate_trading_fee(size_delta: u128, trade_price_x96: u128, trading_fee_rate: u32)
    -> (r: Result<u128, ErrorCode>)
    ensures
        r == trading_fee_result(size_delta, trade_price_x96, trading_fee_rate),
{
    let value = match mul_div_up(size_delta, trade_price_x96, Q96) {
        Ok(v) => v,
        Err(e) => {
            return Err(e);
        },
    };
    mul_div_up(value, trading_fee_rate as u128, BASIS_POINTS_DIVISOR)
}

/// The slice of a trading fee a basis-point rate carves out, floored.
pub open spec fn split_fee_result(trading_fee: u128, fee_rate: u32) -> Result<u128, ErrorCode> {
    mul_div_result(trading_fee, fee_rate as u128, BASIS_POINTS_DIVISOR)
}

/// Splits the given basis-point share out of a trading fee.
pub fn split_fee(trading_fee: u128, fee_rate: u32) -> (r: Result<u128, ErrorCode>)
    ensures
        r == split_fee_result(trading_fee, fee_rate),
{
    mul_div(trading_fee, fee_rate as u128, BASIS_POINTS_DIVISOR)
}

/// The fee rate a trader actually pays: the configured rate, discounted
/// when a referral token is present.
pub open spec fn effective_trading_fee_rate(cfg: MarketFeeRateConfig, referral_token: u128) -> int {
    if referral_token == 0 {
        cfg.trading_fee_rate as int
    } else {
        (cfg.trading_fee_rate * cfg.referral_discount_rate) as int / (BASIS_POINTS_DIVISOR as int)
    }
}

/// Builds the per-call fee state from the market's fee table and the
/// trader's referral tokens, applying the referral discount to the trading
/// fee rate.
pub fn build_trading_fee_state(
    fee_rate_cfg: &MarketFeeRateConfig,
    referral_token: u128,
    referral_parent_token: u128,
) -> (r: TradingFeeState)
    requires
        crate::types::fee_rate_config_wf(*fee_rate_cfg),
    ensures
        r.trading_fee_rate == effective_trading_fee_rate(*fee_rate_cfg, referral_token),
        r.referral_return_fee_rate == fee_rate_cfg.referral_return_fee_rate,
        r.referral_parent_return_fee_rate == fee_rate_cfg.referral_parent_return_fee_rate,
        r.referral_token == referral_token,
        r.referral_parent_token == referral_parent_token,
{
    let trading_fee_rate: u32 = if referral_token == 0 {
        fee_rate_cfg.trading_fee_rate
    } else {
        let rate: u64 = fee_rate_cfg.trading_fee_rate as u64;
        let discount: u64 = fee_rate_cfg.referral_discount_rate as u64;
        proof {
            assert(rate * discount <= u64::MAX) by (nonlinear_arith)
                requires
                    rate <= u32::MAX,
                    discount <= u32::MAX,
            ;
        }
        let product = rate * discount;
        let divisor: u64 = BASIS_POINTS_DIVISOR as u64;
        let discounted = product / divisor;
        proof {
            assert(discounted <= rate) by (nonlinear_arith)
                requires
                    discounted == product / divisor,
                    product == rate * discount,
                    discount <= divisor,
                    divisor > 0,
            ;
        }
        discounted as u32
    };
    TradingFeeState {
        trading_fee_rate,
        referral_return_fee_rate: fee_rate_cfg.referral_return_fee_rate,
        referral_parent_return_fee_rate: fee_rate_cfg.referral_parent_return_fee_rate,
        referral_token,
        referral_parent_token,
    }
}

/// What the size-cap validation decides for a requested increase.
pub open spec fn increase_size_validation(
    max_size_per_position: u128,
    max_size: u128,
    size_before: u128,
    size_delta: u128,
) -> Result<u128, ErrorCode> {
    if size_before + size_delta > u128::MAX {
        Err(ErrorCode::Overflow)
    } else if size_before + size_delta > max_size_per_position {
        Err(ErrorCode::SizeExceedsMaxSizePerPosition)
    } else if size_before + size_delta > max_size {
        Err(ErrorCode::SizeExceedsMaxSize)
    } else {
        Ok((size_before + size_delta) as u128)
    }
}

/// Validates that an increased position stays within the per-position and
/// pool-wide size caps, returning the new size.
pub fn validate_increase_size(
    max_size_per_position: u128,
    max_size: u128,
    size_before: u128,
    size_delta: u128,
) -> (r: Result<u128, ErrorCode>)
    ensures
        r == increase_size_validation(max_size_per_position, max_size, size_before, size_delta),
        r matches Err(e) ==> (e == ErrorCode::Overflow || e == ErrorCode::SizeExceedsMaxSize || e
            == ErrorCode::SizeExceedsMaxSizePerPosition),
{
    let size_after = match size_before.checked_add(size_delta) {
        Some(v) => v,
        None => {
            return Err(ErrorCode::Overflow);
        },
    };
    if size_after > max_size_per_position {
        return Err(ErrorCode::SizeExceedsMaxSizePerPosition);
    }
    if size_after > max_size {
        return Err(ErrorCode::SizeExceedsMaxSize);
    }
    Ok(size_after)
}

/// Checks if the calculated liquidation price is acceptable based on the
/// position side and entry price: it must sit on the losing side of entry.
pub fn is_acceptable_liquidation_price_x96(
    is_long: bool,
    liquidation_price_x96: u128,
    entry_price_x96: u128,
) -> (r: bool)
    ensures
        r == ((is_long && liquidation_price_x96 < entry_price_x96) || (!is_long
            && liquidation_price_x96 > entry_price_x96)),
{
    (is_long && liquidation_price_x96 < entry_price_x96) || (!is_long && liquidation_price_x96
        > entry_price_x96)
}

/// The size-weighted average entry price after adding `size_delta` at
/// `trade_price_x96`, ceiling-rounded for longs and floored for shorts so
/// rounding always favors the protocol.
pub open spec fn next_entry_price_result(
    is_long: bool,
    size_before: u128,
    entry_price_before_x96: u128,
    size_delta: u128,
    trade_price_x96: u128,
) -> Result<u128, ErrorCode> {
    if size_before == 0 && size_delta == 0 {
        Ok(0u128)
    } else if size_before == 0 {
        Ok(trade_price_x96)
    } else if size_delta == 0 {
        Ok(entry_price_before_x96)
    } else if size_before * entry_price_before_x96 > u128::MAX {
        Err(ErrorCode::Overflow)
    } else if size_delta * trade_price_x96 > u128::MAX {
        Err(ErrorCode::Overflow)
    } else if size_before * entry_price_before_x96 + size_delta * trade_price_x96 > u128::MAX {
        Err(ErrorCode::Overflow)
    } else if size_before + size_delta > u128::MAX {
        Err(ErrorCode::Overflow)
    } else {
        let weighted = size_before * entry_price_before_x96 + size_delta * trade_price_x96;
        let size_after = size_before + size_delta;
        if is_long {
            Ok(div_up(weighted, size_after) as u128)
        } else {
            Ok((weighted / size_after) as u128)
        }
    }
}

/// Computes the next size-weighted average entry price of a position.
pub fn calculate_next_entry_price_x96(
    is_long: bool,
    size_before: u128,
    entry_price_before_x96: u128,
    size_delta: u128,
    trade_price_x96: u128,
) -> (r: Result<u128, ErrorCode>)
    ensures
        r == next_entry_price_result(
            is_long,
            size_before,
            entry_price_before_x96,
            size_delta,
            trade_price_x96,
        ),
        r matches Err(e) ==> e == ErrorCode::Overflow,
{
    if size_before == 0 && size_delta == 0 {
        return Ok(0);
    }
    if size_before == 0 {
        return Ok(trade_price_x96);
    }
    if size_delta == 0 {
        return Ok(entry_price_before_x96);
    }
    let before_part = match size_before.checked_mul(entry_price_before_x96) {
        Some(v) => v,
        None => {
            return Err(ErrorCode::Overflow);
        },
    };
    let delta_part = match size_delta.checked_mul(trade_price_x96) {
        Some(v) => v,
        None => {
            return Err(ErrorCode::Overflow);
        },
    };
    let weighted = match before_part.checked_add(delta_part) {
        Some(v) => v,
        None => {
            return Err(ErrorCode::Overflow);
        },
    };
    let size_after = match size_before.checked_add(size_delta) {
        Some(v) => v,
        None => {
            return Err(ErrorCode::Overflow);
        },
    };
    if is_long {
        match crate::math::ceil_div(weighted, size_after) {
            Ok(v) => Ok(v),
            Err(e) => Err(e),
        }
    } else {
        Ok(weighted / size_after)
    }
}

/// Whether the routine-operation maintenance check rejects a trader
/// position: the margin before and after applying unrealized PnL must be
/// strictly positive and strictly above maintenance.
pub open spec fn maintain_rejects_routine(
    margin: int,
    margin_after: int,
    maintenance_margin: int,
) -> bool {
    margin <= 0 || margin_after <= 0 || maintenance_margin >= margin_after
}

/// Whether the liquidation-path maintenance check rejects a trader
/// position: liquidation is only permitted once the position is no longer
/// strictly solvent.
pub open spec fn maintain_rejects_liquidation(
    margin: int,
    margin_after: int,
    maintenance_margin: int,
) -> bool {
    margin > 0 && margin_after > 0 && maintenance_margin < margin_after
}

/// The two maintenance checks are mutually exclusive and exhaustive: for
/// every margin/maintenance combination exactly one of them rejects, and
/// at equality the position is classified liquidatable.
pub proof fn lemma_maintain_margin_checks_complementary(
    margin: int,
    margin_after: int,
    maintenance_margin: int,
)
    ensures
        maintain_rejects_routine(margin, margin_after, maintenance_margin)
            <==> !maintain_rejects_liquidation(margin, margin_after, maintenance_margin),
        margin_after == maintenance_margin ==> maintain_rejects_routine(
            margin,
            margin_after,
            maintenance_margin,
        ) && !maintain_rejects_liquidation(margin, margin_after, maintenance_margin),
{
}

/// What the maintenance-margin validator decides for a trader position.
pub open spec fn maintain_margin_rate_validation(
    cfg: MarketBaseConfig,
    p: MaintainMarginRateParameter,
) -> Result<(), ErrorCode> {
    match unrealized_pnl_result(p.side, p.size, p.entry_price_x96, p.decrease_price_x96) {
        Err(e) => Err(e),
        Ok(pnl) => match maintenance_margin_result(
            p.size,
            p.entry_price_x96,
            p.decrease_price_x96,
            cfg.liquidation_fee_rate_per_position,
            p.trading_fee_rate,
            cfg.liquidation_execution_fee,
        ) {
            Err(e) => Err(e),
            Ok(maintenance_margin) => if p.margin + pnl > i128::MAX || p.margin + pnl
                < i128::MIN {
                Err(ErrorCode::Overflow)
            } else {
                let margin_after = p.margin + pnl;
                if !p.liquidatable_position {
                    if maintain_rejects_routine(
                        p.margin as int,
                        margin_after,
                        maintenance_margin as int,
                    ) {
                        Err(ErrorCode::MarginRateTooHigh)
                    } else {
                        Ok(())
                    }
                } else {
                    if maintain_rejects_liquidation(
                        p.margin as int,
                        margin_after,
                        maintenance_margin as int,
                    ) {
                        Err(ErrorCode::MarginRateTooLow)
                    } else {
                        Ok(())
                    }
                }
            },
        },
    }
}

/// Validates the maintenance-margin rate of a trader position.
///
/// With `liquidatable_position` false it fails with `MarginRateTooHigh`
/// whenever the margin (before or after unrealized PnL) is not strictly
/// positive or does not strictly exceed maintenance; with
/// `liquidatable_position` true it fails with `MarginRateTooLow` whenever
/// the position is still strictly solvent.
pub fn validate_position_liquidate_maintain_margin_rate(
    base_cfg: &MarketBaseConfig,
    parameter: &MaintainMarginRateParameter,
) -> (r: Result<(), ErrorCode>)
    ensures
        r == maintain_margin_rate_validation(*base_cfg, *parameter),
        r matches Err(e) ==> (e == ErrorCode::Overflow || e == ErrorCode::DivideByZero || e
            == ErrorCode::MarginRateTooHigh || e == ErrorCode::MarginRateTooLow),
{
    let pnl = match calculate_unrealized_pnl(
        parameter.side,
        parameter.size,
        parameter.entry_price_x96,
        parameter.decrease_price_x96,
    ) {
        Ok(v) => v,
        Err(e) => {
            return Err(e);
        },
    };
    let maintenance_margin = match calculate_maintenance_margin(
        parameter.size,
        parameter.entry_price_x96,
        parameter.decrease_price_x96,
        base_cfg.liquidation_fee_rate_per_position,
        parameter.trading_fee_rate,
        base_cfg.liquidation_execution_fee,
    ) {
        Ok(v) => v,
        Err(e) => {
            return Err(e);
        },
    };
    let margin_after = match parameter.margin.checked_add(pnl) {
        Some(v) => v,
        None => {
            return Err(ErrorCode::Overflow);
        },
    };
    if !parameter.liquidatable_position {
        if parameter.margin <= 0 || margin_after <= 0 || maintenance_margin >= i128::MAX as u128
            || maintenance_margin as i128 >= margin_after {
            return Err(ErrorCode::MarginRateTooHigh);
        }
    } else {
        if parameter.margin > 0 && margin_after > 0 && (maintenance_margin < i128::MAX as u128
            && (maintenance_margin as i128) < margin_after) {
            return Err(ErrorCode::MarginRateTooLow);
        }
    }
    Ok(())
}

/// The closed-form liquidation price of a position, derived by rearranging
/// the maintenance-margin equality: the price at which the remaining
/// margin, after fees, exactly meets maintenance.  Floored for longs and
/// ceiling-rounded for shorts, and clamped at zero, so rounding never
/// short-changes the protocol.
pub open spec fn raw_liquidation_price_result(
    position_margin: u128,
    position_size: u128,
    entry_price_x96: u128,
    is_long: bool,
    funding_fee: i128,
    liquidation_fee_rate: u32,
    trading_fee_rate: u32,
    liquidation_execution_fee: u64,
) -> Result<u128, ErrorCode> {
    let num_rate = if is_long {
        BASIS_POINTS_DIVISOR + liquidation_fee_rate
    } else {
        BASIS_POINTS_DIVISOR - liquidation_fee_rate
    };
    let den_rate = if is_long {
        BASIS_POINTS_DIVISOR - trading_fee_rate
    } else {
        BASIS_POINTS_DIVISOR + trading_fee_rate
    };
    let adjusted = position_margin + funding_fee - liquidation_execution_fee;
    if funding_fee >= 0 && position_margin + funding_fee > u128::MAX {
        Err(ErrorCode::Overflow)
    } else if entry_price_x96 * position_size > u128::MAX {
        Err(ErrorCode::Overflow)
    } else if entry_price_x96 * position_size * num_rate > u128::MAX {
        Err(ErrorCode::Overflow)
    } else {
        let core = entry_price_x96 * position_size * num_rate;
        let magnitude = if adjusted >= 0 {
            adjusted
        } else {
            -adjusted
        };
        if magnitude * BASIS_POINTS_DIVISOR > u128::MAX {
            Err(ErrorCode::Overflow)
        } else if magnitude * BASIS_POINTS_DIVISOR * Q96 > u128::MAX {
            Err(ErrorCode::Overflow)
        } else {
            let term = magnitude * BASIS_POINTS_DIVISOR * Q96;
            let signed_numerator = if is_long == (adjusted >= 0) {
                core - term
            } else {
                core + term
            };
            if signed_numerator > u128::MAX {
                Err(ErrorCode::Overflow)
            } else {
                let numerator = if signed_numerator < 0 {
                    0
                } else {
                    signed_numerator
                };
                if position_size * den_rate > u128::MAX {
                    Err(ErrorCode::Overflow)
                } else if position_size * den_rate == 0 {
                    Err(ErrorCode::DivideByZero)
                } else {
                    let denominator = position_size * den_rate;
                    if is_long {
                        Ok((numerator / denominator) as u128)
                    } else {
                        Ok(div_up(numerator, denominator) as u128)
                    }
                }
            }
        }
    }
}

/// Computes the theoretical liquidation price of a position for a given
/// funding fee.
pub fn _calculate_liquidation_price_x96(
    position_margin: u128,
    position_size: u128,
    entry_price_x96: u128,
    is_long: bool,
    funding_fee: i128,
    liquidation_fee_rate: u32,
    trading_fee_rate: u32,
    liquidation_execution_fee: u64,
) -> (r: Result<u128, ErrorCode>)
    requires
        liquidation_fee_rate <= BASIS_POINTS_DIVISOR,
        trading_fee_rate <= BASIS_POINTS_DIVISOR,
    ensures
        r == raw_liquidation_price_result(
            position_margin,
            position_size,
            entry_price_x96,
            is_long,
            funding_fee,
            liquidation_fee_rate,
            trading_fee_rate,
            liquidation_execution_fee,
        ),
{
    let num_rate: u128 = if is_long {
        BASIS_POINTS_DIVISOR + liquidation_fee_rate as u128
    } else {
        BASIS_POINTS_DIVISOR - liquidation_fee_rate as u128
    };
    let den_rate: u128 = if is_long {
        BASIS_POINTS_DIVISOR - trading_fee_rate as u128
    } else {
        BASIS_POINTS_DIVISOR + trading_fee_rate as u128
    };
    let execution_fee = liquidation_execution_fee as u128;
    // adjusted = margin + funding_fee - execution_fee, carried as sign and
    // magnitude to stay inside u128
    let (adjusted_negative, adjusted_magnitude): (bool, u128) = if funding_fee >= 0 {
        let settled = match position_margin.checked_add(funding_fee as u128) {
            Some(v) => v,
            None => {
                return Err(ErrorCode::Overflow);
            },
        };
        if settled >= execution_fee {
            (false, settled - execution_fee)
        } else {
            (true, execution_fee - settled)
        }
    } else {
        let funding_magnitude: u128 = if funding_fee == i128::MIN {
            i128::MAX as u128 + 1
        } else {
            (-funding_fee) as u128
        };
        if position_margin >= funding_magnitude {
            let settled = position_margin - funding_magnitude;
            if settled >= execution_fee {
                (false, settled - execution_fee)
            } else {
                (true, execution_fee - settled)
            }
        } else {
            (true, funding_magnitude - position_margin + execution_fee)
        }
    };
    let core_part = match entry_price_x96.checked_mul(position_size) {
        Some(v) => v,
        None => {
            return Err(ErrorCode::Overflow);
        },
    };
    let core = match core_part.checked_mul(num_rate) {
        Some(v) => v,
        None => {
            return Err(ErrorCode::Overflow);
        },
    };
    let term_part = match adjusted_magnitude.checked_mul(BASIS_POINTS_DIVISOR) {
        Some(v) => v,
        None => {
            return Err(ErrorCode::Overflow);
        },
    };
    let term = match term_part.checked_mul(Q96) {
        Some(v) => v,
        None => {
            return Err(ErrorCode::Overflow);
        },
    };
    let numerator: u128 = if is_long == !adjusted_negative {
        if term > core {
            0
        } else {
            core - term
        }
    } else {
        match core.checked_add(term) {
            Some(v) => v,
            None => {
                return Err(ErrorCode::Overflow);
            },
        }
    };
    let denominator = match position_size.checked_mul(den_rate) {
        Some(v) => v,
        None => {
            return Err(ErrorCode::Overflow);
        },
    };
    if denominator == 0 {
        return Err(ErrorCode::DivideByZero);
    }
    if is_long {
        Ok(numerator / denominator)
    } else {
        match crate::math::ceil_div(numerator, denominator) {
            Ok(v) => Ok(v),
            Err(e) => Err(e),
        }
    }
}

/// The liquidation price recomputed with the funding fee actually
/// realizable from the side-matching global accumulator.
pub open spec fn adjusted_liquidation_price_result(
    position: Position,
    gp: GlobalPosition,
    is_long: bool,
    liquidation_fee_rate: u32,
    trading_fee_rate: u32,
    liquidation_execution_fee: u64,
) -> Result<(u128, i128), ErrorCode> {
    let growth = if is_long {
        gp.long_funding_rate_growth_x96
    } else {
        gp.short_funding_rate_growth_x96
    };
    match funding_fee_result(growth, position.entry_funding_rate_growth_x96, position.size) {
        Err(e) => Err(e),
        Ok(adjusted_funding_fee) => match raw_liquidation_price_result(
            position.margin,
            position.size,
            position.entry_price_x96,
            is_long,
            adjusted_funding_fee,
            liquidation_fee_rate,
            trading_fee_rate,
            liquidation_execution_fee,
        ) {
            Err(e) => Err(e),
            Ok(price) => Ok((price, adjusted_funding_fee)),
        },
    }
}

/// The liquidation price and the funding fee it settles with: the
/// requested funding fee when the resulting price is acceptable (on the
/// losing side of entry), otherwise the realizable funding fee.
pub open spec fn liquidation_price_decision(
    position: Position,
    gp: GlobalPosition,
    is_long: bool,
    required_funding_fee: i128,
    liquidation_fee_rate: u32,
    trading_fee_rate: u32,
    liquidation_execution_fee: u64,
) -> Result<(u128, i128), ErrorCode> {
    if position.margin + required_funding_fee > 0 {
        match raw_liquidation_price_result(
            position.margin,
            position.size,
            position.entry_price_x96,
            is_long,
            required_funding_fee,
            liquidation_fee_rate,
            trading_fee_rate,
            liquidation_execution_fee,
        ) {
            Err(e) => Err(e),
            Ok(price) => if (is_long && price < position.entry_price_x96) || (!is_long && price
                > position.entry_price_x96) {
                Ok((price, required_funding_fee))
            } else {
                adjusted_liquidation_price_result(
                    position,
                    gp,
                    is_long,
                    liquidation_fee_rate,
                    trading_fee_rate,
                    liquidation_execution_fee,
                )
            },
        }
    } else {
        adjusted_liquidation_price_result(
            position,
            gp,
            is_long,
            liquidation_fee_rate,
            trading_fee_rate,
            liquidation_execution_fee,
        )
    }
}

/// Computes the liquidation price of a position.
///
/// The price computed from the requested funding fee is used only when it
/// is acceptable (strictly on the losing side of the entry price);
/// otherwise the price is recomputed from the funding fee realizable from
/// the global accumulator, which is returned alongside.
pub fn calculate_liquidation_price_x96(
    position: &Position,
    global_funding_rate: &GlobalPosition,
    is_long: bool,
    funding_fee: i128,
    liquidation_fee_rate: u32,
    trading_fee_rate: u32,
    liquidation_execution_fee: u64,
) -> (r: Result<(u128, i128), ErrorCode>)
    requires
        liquidation_fee_rate <= BASIS_POINTS_DIVISOR,
        trading_fee_rate <= BASIS_POINTS_DIVISOR,
    ensures
        r == liquidation_price_decision(
            *position,
            *global_funding_rate,
            is_long,
            funding_fee,
            liquidation_fee_rate,
            trading_fee_rate,
            liquidation_execution_fee,
        ),
        r matches Err(e) ==> (e == ErrorCode::Overflow || e == ErrorCode::DivideByZero),
{
    let margin_positive: bool = if funding_fee >= 0 {
        position.margin > 0 || funding_fee > 0
    } else {
        let funding_magnitude: u128 = if funding_fee == i128::MIN {
            i128::MAX as u128 + 1
        } else {
            (-funding_fee) as u128
        };
        position.margin > funding_magnitude
    };
    if margin_positive {
        let price = match _calculate_liquidation_price_x96(
            position.margin,
            position.size,
            position.entry_price_x96,
            is_long,
            funding_fee,
            liquidation_fee_rate,
            trading_fee_rate,
            liquidation_execution_fee,
        ) {
            Ok(v) => v,
            Err(e) => {
                return Err(e);
            },
        };
        if is_acceptable_liquidation_price_x96(is_long, price, position.entry_price_x96) {
            return Ok((price, funding_fee));
        }
    }
    let growth = crate::global::choose_previous_global_funding_rate_growth_x96(
        global_funding_rate,
        is_long,
    );
    let adjusted_funding_fee = match calculate_funding_fee(
        growth,
        position.entry_funding_rate_growth_x96,
        position.size,
    ) {
        Ok(v) => v,
        Err(e) => {
            return Err(e);
        },
    };
    match _calculate_liquidation_price_x96(
        position.margin,
        position.size,
        position.entry_price_x96,
        is_long,
        adjusted_funding_fee,
        liquidation_fee_rate,
        trading_fee_rate,
        liquidation_execution_fee,
    ) {
        Ok(price) => Ok((price, adjusted_funding_fee)),
        Err(e) => Err(e),
    }
}

/// What the fee computation yields: the trading fee, the LP share left
/// after the protocol's cut, and the protocol-fee ledger afterwards.
pub open spec fn fee_split_result(
    protocol_fee_ledger: u128,
    cfg: MarketFeeRateConfig,
    p: DistributeFeeParameter,
) -> Result<(u128, u128, u128), ErrorCode> {
    match trading_fee_result(p.size_delta, p.trade_price_x96, p.trading_fee_state.trading_fee_rate) {
        Err(e) => Err(e),
        Ok(trading_fee) => if trading_fee == 0 {
            Ok((0u128, 0u128, protocol_fee_ledger))
        } else {
            match split_fee_result(trading_fee, cfg.protocol_fee_rate) {
                Err(e) => Err(e),
                Ok(protocol_share) => if protocol_share > trading_fee {
                    Err(ErrorCode::Underflow)
                } else if protocol_fee_ledger + protocol_share > u128::MAX {
                    Err(ErrorCode::Overflow)
                } else {
                    Ok(
                        (
                            trading_fee,
                            (trading_fee - protocol_share) as u128,
                            (protocol_fee_ledger + protocol_share) as u128,
                        ),
                    )
                },
            }
        },
    }
}

/// Splits the trading fee of a trade into the protocol's cut, booked into
/// the protocol-fee ledger, and the LP share, which is returned.  Returns
/// `(trading_fee, liquidity_fee)`; on failure the ledger is untouched.
pub fn calculate_fee(
    protocol_fee: &mut u128,
    fee_rate_cfg: &MarketFeeRateConfig,
    parameter: &DistributeFeeParameter,
) -> (r: Result<(u128, u128), ErrorCode>)
    ensures
        match fee_split_result(*old(protocol_fee), *fee_rate_cfg, *parameter) {
            Err(e) => r == Err::<(u128, u128), ErrorCode>(e) && *final(protocol_fee) == *old(
                protocol_fee,
            ),
            Ok(out) => r == Ok::<(u128, u128), ErrorCode>((out.0, out.1)) && *final(protocol_fee)
                == out.2,
        },
{
    let trading_fee = match calculate_trading_fee(
        parameter.size_delta,
        parameter.trade_price_x96,
        parameter.trading_fee_state.trading_fee_rate,
    ) {
        Ok(v) => v,
        Err(e) => {
            return Err(e);
        },
    };
    if trading_fee == 0 {
        return Ok((0, 0));
    }
    let protocol_share = match split_fee(trading_fee, fee_rate_cfg.protocol_fee_rate) {
        Ok(v) => v,
        Err(e) => {
            return Err(e);
        },
    };
    if protocol_share > trading_fee {
        return Err(ErrorCode::Underflow);
    }
    let ledger_after = match protocol_fee.checked_add(protocol_share) {
        Some(v) => v,
        None => {
            return Err(ErrorCode::Overflow);
        },
    };
    *protocol_fee = ledger_after;
    Ok((trading_fee, trading_fee - protocol_share))
}

/// What distributing the fees of a trade yields: the growth accumulator,
/// protocol-fee ledger and liquidation fund afterwards, and the trading
/// fee charged.
pub open spec fn distribute_fee_result(
    glp: GlobalLiquidityPosition,
    fund: i128,
    protocol_fee_ledger: u128,
    cfg: MarketFeeRateConfig,
    p: DistributeFeeParameter,
) -> Result<(i128, u128, i128, u128), ErrorCode> {
    match fee_split_result(protocol_fee_ledger, cfg, p) {
        Err(e) => Err(e),
        Ok(split) => {
            let growth_step: Result<i128, ErrorCode> = if split.0 == 0 {
                Ok(glp.unrealized_pnl_growth_x64)
            } else {
                match mul_div_result(split.1, Q64, glp.liquidity) {
                    Err(e) => Err(e),
                    Ok(delta) => if glp.unrealized_pnl_growth_x64 + delta > i128::MAX {
                        Err(ErrorCode::Overflow)
                    } else {
                        Ok((glp.unrealized_pnl_growth_x64 + delta) as i128)
                    },
                }
            };
            match growth_step {
                Err(e) => Err(e),
                Ok(growth_after) => if p.liquidation_fee != 0 && (fund + p.liquidation_fee
                    > i128::MAX || fund + p.liquidation_fee < i128::MIN) {
                    Err(ErrorCode::Overflow)
                } else {
                    let fund_after = if p.liquidation_fee != 0 {
                        (fund + p.liquidation_fee) as i128
                    } else {
                        fund
                    };
                    Ok((growth_after, split.2, fund_after, split.0))
                },
            }
        },
    }
}

/// Distributes the fees of a trade: the protocol's cut of the trading fee
/// goes to the protocol-fee ledger, the LP share is folded into the pool's
/// PnL-growth accumulator per unit of liquidity (floored, so dust stays
/// with the protocol), and any liquidation-fund delta is booked.  Returns
/// the trading fee; on failure nothing changes.
pub fn distribute_fee(
    global_liquidity_position: &mut GlobalLiquidityPosition,
    global_liquidation_fund: &mut GlobalLiquidationFund,
    protocol_fee: &mut u128,
    fee_rate_cfg: &MarketFeeRateConfig,
    parameter: &DistributeFeeParameter,
) -> (r: Result<u128, ErrorCode>)
    ensures
        match distribute_fee_result(
            *old(global_liquidity_position),
            old(global_liquidation_fund).liquidation_fund,
            *old(protocol_fee),
            *fee_rate_cfg,
            *parameter,
        ) {
            Err(e) => {
                &&& r == Err::<u128, ErrorCode>(e)
                &&& (e == ErrorCode::Overflow || e == ErrorCode::Underflow || e
                    == ErrorCode::DivideByZero)
                &&& *final(global_liquidity_position) == *old(global_liquidity_position)
                &&& *final(global_liquidation_fund) == *old(global_liquidation_fund)
                &&& *final(protocol_fee) == *old(protocol_fee)
            },
            Ok(out) => {
                &&& r == Ok::<u128, ErrorCode>(out.3)
                &&& final(global_liquidity_position).unrealized_pnl_growth_x64 == out.0
                &&& *final(protocol_fee) == out.1
                &&& final(global_liquidation_fund).liquidation_fund == out.2
                &&& final(global_liquidation_fund).liquidity == old(
                    global_liquidation_fund,
                ).liquidity
                &&& final(global_liquidity_position).net_size == old(
                    global_liquidity_position,
                ).net_size
                &&& final(global_liquidity_position).liquidation_buffer_net_size == old(
                    global_liquidity_position,
                ).liquidation_buffer_net_size
                &&& final(global_liquidity_position).previous_sp_price_x96 == old(
                    global_liquidity_position,
                ).previous_sp_price_x96
                &&& final(global_liquidity_position).side == old(global_liquidity_position).side
                &&& final(global_liquidity_position).liquidity == old(
                    global_liquidity_position,
                ).liquidity
            },
        },
{
    let trading_fee = match calculate_trading_fee(
        parameter.size_delta,
        parameter.trade_price_x96,
        parameter.trading_fee_state.trading_fee_rate,
    ) {
        Ok(v) => v,
        Err(e) => {
            return Err(e);
        },
    };
    let mut protocol_fee_after: u128 = *protocol_fee;
    let mut growth_after: i128 = global_liquidity_position.unrealized_pnl_growth_x64;
    if trading_fee > 0 {
        let protocol_share = match split_fee(trading_fee, fee_rate_cfg.protocol_fee_rate) {
            Ok(v) => v,
            Err(e) => {
                return Err(e);
            },
        };
        if protocol_share > trading_fee {
            return Err(ErrorCode::Underflow);
        }
        protocol_fee_after = match protocol_fee.checked_add(protocol_share) {
            Some(v) => v,
            None => {
                return Err(ErrorCode::Overflow);
            },
        };
        let liquidity_fee = trading_fee - protocol_share;
        let delta = match mul_div(liquidity_fee, Q64, global_liquidity_position.liquidity) {
            Ok(v) => v,
            Err(e) => {
                return Err(e);
            },
        };
        growth_after = match global_liquidity_position
            .unrealized_pnl_growth_x64
            .checked_add_unsigned(delta) {
            Some(v) => v,
            None => {
                return Err(ErrorCode::Overflow);
            },
        };
    }
    let mut fund_after: i128 = global_liquidation_fund.liquidation_fund;
    if parameter.liquidation_fee != 0 {
        fund_after = match global_liquidation_fund.liquidation_fund.checked_add(
            parameter.liquidation_fee,
        ) {
            Some(v) => v,
            None => {
                return Err(ErrorCode::Overflow);
            },
        };
    }
    global_liquidity_position.unrealized_pnl_growth_x64 = growth_after;
    *protocol_fee = protocol_fee_after;
    global_liquidation_fund.liquidation_fund = fund_after;
    Ok(trading_fee)
}

/// Every stored trader position holds strictly positive size: a position
/// closed to zero is removed from the ledger.
pub open spec fn positions_wf(positions: Map<u64, Position>) -> bool {
    forall|a: u64| #[trigger] positions.contains_key(a) ==> positions[a].size > 0
}

/// Two curve states that a caller cannot tell apart.
pub open spec fn price_states_equivalent(a: PriceState, b: PriceState) -> bool {
    &&& b.premium_rate_x96 == a.premium_rate_x96
    &&& b.pending_vertex_index == a.pending_vertex_index
    &&& b.current_vertex_index == a.current_vertex_index
    &&& b.basis_index_price_x96 == a.basis_index_price_x96
    &&& b.price_vertices@ == a.price_vertices@
    &&& b.liquidation_buffer_net_sizes@ == a.liquidation_buffer_net_sizes@
}

/// Two market states that a caller cannot tell apart: a failed call leaves
/// the market in a state equivalent to the one it found.
pub open spec fn states_equivalent(a: State, b: State) -> bool {
    &&& price_states_equivalent(a.price_state, b.price_state)
    &&& b.usd_balance == a.usd_balance
    &&& b.protocol_fee == a.protocol_fee
    &&& b.global_liquidity_position == a.global_liquidity_position
    &&& b.global_position == a.global_position
    &&& b.global_liquidation_fund == a.global_liquidation_fund
    &&& b.liquidity_positions@ == a.liquidity_positions@
    &&& b.long_positions@ == a.long_positions@
    &&& b.short_positions@ == a.short_positions@
}

/// The trader positions of one side.
pub open spec fn side_positions(s: State, side: bool) -> Map<u64, Position> {
    if side {
        s.long_positions@
    } else {
        s.short_positions@
    }
}

/// A fresh position: empty, with the side-matching funding accumulator
/// snapshotted so no funding is owed at creation.
pub open spec fn empty_position_with_snapshot(gp: GlobalPosition, side: bool) -> Position {
    Position {
        margin: 0,
        size: 0,
        entry_price_x96: 0,
        entry_funding_rate_growth_x96: if side {
            gp.long_funding_rate_growth_x96
        } else {
            gp.short_funding_rate_growth_x96
        },
    }
}

/// The stored position for an account, or a fresh one about to be opened.
pub open spec fn stored_or_empty(
    m: Map<u64, Position>,
    account: u64,
    gp: GlobalPosition,
    side: bool,
) -> Position {
    if m.contains_key(account) {
        m[account]
    } else {
        empty_position_with_snapshot(gp, side)
    }
}

/// Puts the ledgers a manager operation had already touched back to their
/// snapshots, so a failed call commits nothing.
fn restore_market(
    state: &mut State,
    glp: GlobalLiquidityPosition,
    gp: GlobalPosition,
    fund: GlobalLiquidationFund,
    protocol_fee: u128,
    premium_rate_x96: u128,
    current_vertex_index: u8,
    basis_index_price_x96: u128,
    buffers: Vec<u128>,
)
    ensures
        final(state).global_liquidity_position == glp,
        final(state).global_position == gp,
        final(state).global_liquidation_fund == fund,
        final(state).protocol_fee == protocol_fee,
        final(state).price_state.premium_rate_x96 == premium_rate_x96,
        final(state).price_state.current_vertex_index == current_vertex_index,
        final(state).price_state.basis_index_price_x96 == basis_index_price_x96,
        final(state).price_state.liquidation_buffer_net_sizes@ == buffers@,
        final(state).price_state.price_vertices@ == old(state).price_state.price_vertices@,
        final(state).price_state.pending_vertex_index == old(
            state,
        ).price_state.pending_vertex_index,
        final(state).usd_balance == old(state).usd_balance,
        final(state).liquidity_positions@ == old(state).liquidity_positions@,
        final(state).long_positions@ == old(state).long_positions@,
        final(state).short_positions@ == old(state).short_positions@,
{
    state.global_liquidity_position = glp;
    state.global_position = gp;
    state.global_liquidation_fund = fund;
    state.protocol_fee = protocol_fee;
    state.price_state.premium_rate_x96 = premium_rate_x96;
    state.price_state.current_vertex_index = current_vertex_index;
    state.price_state.basis_index_price_x96 = basis_index_price_x96;
    state.price_state.liquidation_buffer_net_sizes = buffers;
}

/// The referral-free fee state a manager call builds from the market's
/// fee table.
pub open spec fn direct_fee_state(cfg: MarketFeeRateConfig) -> TradingFeeState {
    TradingFeeState {
        trading_fee_rate: cfg.trading_fee_rate,
        referral_return_fee_rate: cfg.referral_return_fee_rate,
        referral_parent_return_fee_rate: cfg.referral_parent_return_fee_rate,
        referral_token: 0,
        referral_parent_token: 0,
    }
}

/// What opening or growing a trader position returns — the curve's trade
/// price — or the exact error it fails with, as one function of the inputs.
#[verifier::opaque]
pub open spec fn increase_position_outcome(
    glp: GlobalLiquidityPosition,
    ps: PriceState,
    gp: GlobalPosition,
    m0: Map<u64, Position>,
    fund0: i128,
    protocol0: u128,
    cfg: MarketConfig,
    p: IncreasePositionParameter,
    index_price_x96: u128,
) -> Result<u128, ErrorCode> {
    let exists = m0.contains_key(p.account);
    let pos0 = stored_or_empty(m0, p.account, gp, p.side);
    if !exists && p.size_delta == 0 {
        Err(ErrorCode::PositionNotFound)
    } else if glp.liquidity == 0 {
        Err(ErrorCode::InsufficientGlobalLiquidity)
    } else {
        let sized: Result<u128, ErrorCode> = if p.size_delta > 0 {
            increase_size_validation(gp.max_size_per_position, gp.max_size, pos0.size, p.size_delta)
        } else {
            Ok(pos0.size)
        };
        match sized {
            Err(e) => Err(e),
            Ok(size_after) => {
                let curve: Result<u128, ErrorCode> = if p.size_delta > 0 {
                    update_price_trade_price(
                        glp,
                        ps,
                        (UpdatePriceStateParameter {
                            side: p.side,
                            size_delta: p.size_delta,
                            index_price_x96,
                            liquidation_vertex_index: cfg.price_config.liquidation_vertex_index,
                            liquidation: false,
                        }),
                    )
                } else {
                    Ok(0u128)
                };
                match curve {
                    Err(e) => Err(e),
                    Ok(trade_price) => {
                        let fee_res: Result<u128, ErrorCode> = if p.size_delta > 0 {
                            match distribute_fee_result(
                                glp,
                                fund0,
                                protocol0,
                                cfg.fee_rate_config,
                                (DistributeFeeParameter {
                                    account: p.account,
                                    size_delta: p.size_delta,
                                    trade_price_x96: trade_price,
                                    trading_fee_state: direct_fee_state(cfg.fee_rate_config),
                                    liquidation_fee: 0,
                                }),
                            ) {
                                Err(e) => Err(e),
                                Ok(out) => Ok(out.3),
                            }
                        } else {
                            Ok(0u128)
                        };
                        match fee_res {
                            Err(e) => Err(e),
                            Ok(trading_fee) => {
                                let growth = if p.side {
                                    gp.long_funding_rate_growth_x96
                                } else {
                                    gp.short_funding_rate_growth_x96
                                };
                                match funding_fee_result(
                                    growth,
                                    pos0.entry_funding_rate_growth_x96,
                                    pos0.size,
                                ) {
                                    Err(e) => Err(e),
                                    Ok(funding_fee) => if pos0.margin > i128::MAX
                                        || p.margin_delta > i128::MAX || trading_fee
                                        > i128::MAX {
                                        Err(ErrorCode::Overflow)
                                    } else if pos0.margin + p.margin_delta > i128::MAX {
                                        Err(ErrorCode::Overflow)
                                    } else if pos0.margin + p.margin_delta + funding_fee
                                        > i128::MAX {
                                        Err(ErrorCode::Overflow)
                                    } else if pos0.margin + p.margin_delta + funding_fee
                                        - trading_fee < i128::MIN {
                                        Err(ErrorCode::Overflow)
                                    } else {
                                        let margin_after = pos0.margin + p.margin_delta
                                            + funding_fee - trading_fee;
                                        match next_entry_price_result(
                                            p.side,
                                            pos0.size,
                                            pos0.entry_price_x96,
                                            p.size_delta,
                                            trade_price,
                                        ) {
                                            Err(e) => Err(e),
                                            Ok(entry_after) => match maintain_margin_rate_validation(
                                                cfg.base_config,
                                                (MaintainMarginRateParameter {
                                                    margin: margin_after as i128,
                                                    side: p.side,
                                                    size: size_after,
                                                    entry_price_x96: entry_after,
                                                    decrease_price_x96: index_price_x96,
                                                    trading_fee_rate:
                                                        cfg.fee_rate_config.trading_fee_rate,
                                                    liquidatable_position: false,
                                                }),
                                            ) {
                                                Err(e) => Err(e),
                                                Ok(u) => if p.size_delta > 0 && (if p.side {
                                                    gp.long_size + p.size_delta > u128::MAX
                                                } else {
                                                    gp.short_size + p.size_delta > u128::MAX
                                                }) {
                                                    Err(ErrorCode::Overflow)
                                                } else {
                                                    Ok(trade_price)
                                                },
                                            },
                                        }
                                    },
                                }
                            },
                        }
                    },
                }
            },
        }
    }
}

/// Opens or grows a leveraged trader position.
///
/// An absent position requires a non-zero size delta, and the pool must
/// hold liquidity.  A non-zero size delta is validated against both size
/// caps and executed against the price-impact curve; the trading fee is
/// distributed to the pool and the protocol.  The funding fee accrued
/// since the position's snapshot is settled into the margin, the entry
/// price becomes the size-weighted average (rounded against the trader),
/// and the routine maintenance check must pass.  Returns the curve's
/// volume-weighted trade price.  On failure the market state is equivalent
/// to what it was.
#[verifier::rlimit(100)]
pub fn increase_position(
    state: &mut State,
    market_config: &MarketConfig,
    parameter: &IncreasePositionParameter,
    index_price_x96: u128,
) -> (r: Result<u128, ErrorCode>)
    requires
        price_state_wf(old(state).global_liquidity_position, old(state).price_state),
        positions_wf(old(state).long_positions@),
        positions_wf(old(state).short_positions@),
        crate::types::fee_rate_config_wf(market_config.fee_rate_config),
        market_config.price_config.liquidation_vertex_index < 10,
    ensures
        r == increase_position_outcome(
            old(state).global_liquidity_position,
            old(state).price_state,
            old(state).global_position,
            side_positions(*old(state), parameter.side),
            old(state).global_liquidation_fund.liquidation_fund,
            old(state).protocol_fee,
            *market_config,
            *parameter,
            index_price_x96,
        ),
        r matches Err(e) ==> states_equivalent(*old(state), *final(state)),
        (!side_positions(*old(state), parameter.side).contains_key(parameter.account)
            && parameter.size_delta == 0) <==> r == Err::<u128, ErrorCode>(
            ErrorCode::PositionNotFound,
        ),
        ((side_positions(*old(state), parameter.side).contains_key(parameter.account)
            || parameter.size_delta > 0) && old(state).global_liquidity_position.liquidity == 0)
            <==> r == Err::<u128, ErrorCode>(ErrorCode::InsufficientGlobalLiquidity),
        ({
            let m0 = side_positions(*old(state), parameter.side);
            let pos0 = stored_or_empty(m0, parameter.account, old(state).global_position, parameter.side);
            &&& (m0.contains_key(parameter.account) || parameter.size_delta > 0)
            &&& old(state).global_liquidity_position.liquidity > 0
            &&& parameter.size_delta > 0
            &&& increase_size_validation(
                old(state).global_position.max_size_per_position,
                old(state).global_position.max_size,
                pos0.size,
                parameter.size_delta,
            ) == Err::<u128, ErrorCode>(ErrorCode::SizeExceedsMaxSizePerPosition)
        }) <==> r == Err::<u128, ErrorCode>(ErrorCode::SizeExceedsMaxSizePerPosition),
        ({
            let m0 = side_positions(*old(state), parameter.side);
            let pos0 = stored_or_empty(m0, parameter.account, old(state).global_position, parameter.side);
            &&& (m0.contains_key(parameter.account) || parameter.size_delta > 0)
            &&& old(state).global_liquidity_position.liquidity > 0
            &&& parameter.size_delta > 0
            &&& increase_size_validation(
                old(state).global_position.max_size_per_position,
                old(state).global_position.max_size,
                pos0.size,
                parameter.size_delta,
            ) == Err::<u128, ErrorCode>(ErrorCode::SizeExceedsMaxSize)
        }) <==> r == Err::<u128, ErrorCode>(ErrorCode::SizeExceedsMaxSize),
        r matches Ok(trade_price) ==> ({
            let pre = *old(state);
            let post = *final(state);
            let m0 = side_positions(pre, parameter.side);
            let pos0 = stored_or_empty(m0, parameter.account, pre.global_position, parameter.side);
            let growth = if parameter.side {
                pre.global_position.long_funding_rate_growth_x96
            } else {
                pre.global_position.short_funding_rate_growth_x96
            };
            let newpos = side_positions(post, parameter.side)[parameter.account];
            &&& price_state_wf(post.global_liquidity_position, post.price_state)
            &&& positions_wf(post.long_positions@)
            &&& positions_wf(post.short_positions@)
            &&& post.price_state.price_vertices@ == pre.price_state.price_vertices@
            &&& side_positions(post, parameter.side) == m0.insert(parameter.account, newpos)
            &&& (if parameter.side {
                post.short_positions@ == pre.short_positions@
            } else {
                post.long_positions@ == pre.long_positions@
            })
            &&& post.liquidity_positions@ == pre.liquidity_positions@
            &&& post.usd_balance == pre.usd_balance
            &&& newpos.size == pos0.size + parameter.size_delta
            &&& newpos.entry_funding_rate_growth_x96 == growth
            &&& Ok::<u128, ErrorCode>(newpos.entry_price_x96) == next_entry_price_result(
                parameter.side,
                pos0.size,
                pos0.entry_price_x96,
                parameter.size_delta,
                trade_price,
            )
            &&& (funding_fee_result(growth, pos0.entry_funding_rate_growth_x96, pos0.size)
                matches Ok(ff) && (parameter.size_delta > 0 ==> (trading_fee_result(
                parameter.size_delta,
                trade_price,
                market_config.fee_rate_config.trading_fee_rate,
            ) matches Ok(tf) && newpos.margin == pos0.margin + parameter.margin_delta + ff - tf))
                && (parameter.size_delta == 0 ==> newpos.margin == pos0.margin
                + parameter.margin_delta + ff))
            &&& post.global_position.long_size == pre.global_position.long_size + (
            if parameter.side {
                parameter.size_delta
            } else {
                0
            })
            &&& post.global_position.short_size == pre.global_position.short_size + (
            if parameter.side {
                0
            } else {
                parameter.size_delta
            })
            &&& post.global_position.max_size == pre.global_position.max_size
            &&& post.global_position.max_size_per_position
                == pre.global_position.max_size_per_position
            &&& post.global_position.long_funding_rate_growth_x96
                == pre.global_position.long_funding_rate_growth_x96
            &&& post.global_position.short_funding_rate_growth_x96
                == pre.global_position.short_funding_rate_growth_x96
            &&& post.global_liquidity_position.liquidity
                == pre.global_liquidity_position.liquidity
            &&& (parameter.size_delta == 0 ==> post.global_liquidity_position
                == pre.global_liquidity_position && price_states_equivalent(
                pre.price_state,
                post.price_state,
            ) && post.protocol_fee == pre.protocol_fee && post.global_liquidation_fund
                == pre.global_liquidation_fund && trade_price == 0)
            &&& (parameter.size_delta > 0 ==> (distribute_fee_result(
                pre.global_liquidity_position,
                pre.global_liquidation_fund.liquidation_fund,
                pre.protocol_fee,
                market_config.fee_rate_config,
                (DistributeFeeParameter {
                    account: parameter.account,
                    size_delta: parameter.size_delta,
                    trade_price_x96: trade_price,
                    trading_fee_state: (TradingFeeState {
                        trading_fee_rate: market_config.fee_rate_config.trading_fee_rate,
                        referral_return_fee_rate:
                            market_config.fee_rate_config.referral_return_fee_rate,
                        referral_parent_return_fee_rate:
                            market_config.fee_rate_config.referral_parent_return_fee_rate,
                        referral_token: 0,
                        referral_parent_token: 0,
                    }),
                    liquidation_fee: 0,
                }),
            ) matches Ok(out) && post.global_liquidity_position.unrealized_pnl_growth_x64 == out.0
                && post.protocol_fee == out.1 && post.global_liquidation_fund.liquidation_fund
                == out.2 && post.global_liquidation_fund.liquidity
                == pre.global_liquidation_fund.liquidity))
            &&& (parameter.size_delta > 0 ==> curve_commit(
                pre.global_liquidity_position,
                pre.price_state,
                (UpdatePriceStateParameter {
                    side: parameter.side,
                    size_delta: parameter.size_delta,
                    index_price_x96,
                    liquidation_vertex_index: market_config.price_config.liquidation_vertex_index,
                    liquidation: false,
                }),
                post.global_liquidity_position.net_size as int,
                post.global_liquidity_position.side,
                post.global_liquidity_position.liquidation_buffer_net_size as int,
                post.price_state.basis_index_price_x96,
                post.price_state.liquidation_buffer_net_sizes@,
            ))
        }),
{
    let side = parameter.side;
    let stored = if side {
        state.long_positions.get(&parameter.account)
    } else {
        state.short_positions.get(&parameter.account)
    };
    let (exists, pos) = match stored {
        Some(p) => (true, *p),
        None => (
            false,
            Position {
                margin: 0,
                size: 0,
                entry_price_x96: 0,
                entry_funding_rate_growth_x96: if side {
                    state.global_position.long_funding_rate_growth_x96
                } else {
                    state.global_position.short_funding_rate_growth_x96
                },
            },
        ),
    };
    if !exists && parameter.size_delta == 0 {
        proof {
                    assert(increase_position_outcome(
                        old(state).global_liquidity_position,
                        old(state).price_state,
                        old(state).global_position,
                        side_positions(*old(state), parameter.side),
                        old(state).global_liquidation_fund.liquidation_fund,
                        old(state).protocol_fee,
                        *market_config,
                        *parameter,
                        index_price_x96,
                    ) == Err::<u128, ErrorCode>(ErrorCode::PositionNotFound)) by {
                        reveal_with_fuel(increase_position_outcome, 1);
                    };
                }
        return Err(ErrorCode::PositionNotFound);
    }
    match validate_global_liquidity(state.global_liquidity_position.liquidity) {
        Ok(u) => u,
        Err(e) => {
            proof {
                    assert(increase_position_outcome(
                        old(state).global_liquidity_position,
                        old(state).price_state,
                        old(state).global_position,
                        side_positions(*old(state), parameter.side),
                        old(state).global_liquidation_fund.liquidation_fund,
                        old(state).protocol_fee,
                        *market_config,
                        *parameter,
                        index_price_x96,
                    ) == Err::<u128, ErrorCode>(e)) by {
                        reveal_with_fuel(increase_position_outcome, 1);
                    };
                }
            return Err(e);
        },
    };
    let trading_fee_state = build_trading_fee_state(&market_config.fee_rate_config, 0, 0);
    let snap_glp = state.global_liquidity_position;
    let snap_gp = state.global_position;
    let snap_fund = state.global_liquidation_fund;
    let snap_protocol = state.protocol_fee;
    let snap_premium = state.price_state.premium_rate_x96;
    let snap_cvi = state.price_state.current_vertex_index;
    let snap_basis = state.price_state.basis_index_price_x96;
    let snap_buffers = copy_buffers(&state.price_state.liquidation_buffer_net_sizes);
    let mut size_after = pos.size;
    let mut trade_price: u128 = 0;
    let mut trading_fee: u128 = 0;
    if parameter.size_delta > 0 {
        size_after = match validate_increase_size(
            state.global_position.max_size_per_position,
            state.global_position.max_size,
            pos.size,
            parameter.size_delta,
        ) {
            Ok(v) => v,
            Err(e) => {
                proof {
                    assert(increase_position_outcome(
                        old(state).global_liquidity_position,
                        old(state).price_state,
                        old(state).global_position,
                        side_positions(*old(state), parameter.side),
                        old(state).global_liquidation_fund.liquidation_fund,
                        old(state).protocol_fee,
                        *market_config,
                        *parameter,
                        index_price_x96,
                    ) == Err::<u128, ErrorCode>(e)) by {
                        reveal_with_fuel(increase_position_outcome, 1);
                    };
                }
                return Err(e);
            },
        };
        let curve_parameter = UpdatePriceStateParameter {
            side,
            size_delta: parameter.size_delta,
            index_price_x96,
            liquidation_vertex_index: market_config.price_config.liquidation_vertex_index,
            liquidation: false,
        };
        trade_price = match update_price_state(
            &mut state.global_liquidity_position,
            &mut state.price_state,
            &curve_parameter,
        ) {
            Ok(v) => v,
            Err(e) => {
                proof {
                    assert(increase_position_outcome(
                        old(state).global_liquidity_position,
                        old(state).price_state,
                        old(state).global_position,
                        side_positions(*old(state), parameter.side),
                        old(state).global_liquidation_fund.liquidation_fund,
                        old(state).protocol_fee,
                        *market_config,
                        *parameter,
                        index_price_x96,
                    ) == Err::<u128, ErrorCode>(e)) by {
                        reveal_with_fuel(increase_position_outcome, 1);
                    };
                }
                return Err(e);
            },
        };
        let fee_parameter = DistributeFeeParameter {
            account: parameter.account,
            size_delta: parameter.size_delta,
            trade_price_x96: trade_price,
            trading_fee_state,
            liquidation_fee: 0,
        };
        trading_fee = match distribute_fee(
            &mut state.global_liquidity_position,
            &mut state.global_liquidation_fund,
            &mut state.protocol_fee,
            &market_config.fee_rate_config,
            &fee_parameter,
        ) {
            Ok(v) => v,
            Err(e) => {
                restore_market(
                    state,
                    snap_glp,
                    snap_gp,
                    snap_fund,
                    snap_protocol,
                    snap_premium,
                    snap_cvi,
                    snap_basis,
                    snap_buffers,
                );
                proof {
                    assert(increase_position_outcome(
                        old(state).global_liquidity_position,
                        old(state).price_state,
                        old(state).global_position,
                        side_positions(*old(state), parameter.side),
                        old(state).global_liquidation_fund.liquidation_fund,
                        old(state).protocol_fee,
                        *market_config,
                        *parameter,
                        index_price_x96,
                    ) == Err::<u128, ErrorCode>(e)) by {
                        reveal_with_fuel(increase_position_outcome, 1);
                    };
                }
                return Err(e);
            },
        };
    }
    let growth = choose_previous_global_funding_rate_growth_x96(&state.global_position, side);
    let funding_fee = match calculate_funding_fee(
        growth,
        pos.entry_funding_rate_growth_x96,
        pos.size,
    ) {
        Ok(v) => v,
        Err(e) => {
            restore_market(
                state,
                snap_glp,
                snap_gp,
                snap_fund,
                snap_protocol,
                snap_premium,
                snap_cvi,
                snap_basis,
                snap_buffers,
            );
            proof {
                assert(increase_position_outcome(
                    old(state).global_liquidity_position,
                    old(state).price_state,
                    old(state).global_position,
                    side_positions(*old(state), parameter.side),
                    old(state).global_liquidation_fund.liquidation_fund,
                    old(state).protocol_fee,
                    *market_config,
                    *parameter,
                    index_price_x96,
                ) == Err::<u128, ErrorCode>(e)) by {
                    reveal_with_fuel(increase_position_outcome, 1);
                };
            }
            return Err(e);
        },
    };
    let margin_after_opt: Option<i128> = if pos.margin > i128::MAX as u128 || parameter.margin_delta
        > i128::MAX as u128 || trading_fee > i128::MAX as u128 {
        None
    } else {
        match (pos.margin as i128).checked_add(parameter.margin_delta as i128) {
            None => None,
            Some(a) => match a.checked_add(funding_fee) {
                None => None,
                Some(b) => b.checked_sub(trading_fee as i128),
            },
        }
    };
    let margin_after = match margin_after_opt {
        Some(v) => v,
        None => {
            restore_market(
                state,
                snap_glp,
                snap_gp,
                snap_fund,
                snap_protocol,
                snap_premium,
                snap_cvi,
                snap_basis,
                snap_buffers,
            );
            proof {
                assert(increase_position_outcome(
                    old(state).global_liquidity_position,
                    old(state).price_state,
                    old(state).global_position,
                    side_positions(*old(state), parameter.side),
                    old(state).global_liquidation_fund.liquidation_fund,
                    old(state).protocol_fee,
                    *market_config,
                    *parameter,
                    index_price_x96,
                ) == Err::<u128, ErrorCode>(ErrorCode::Overflow)) by {
                    reveal_with_fuel(increase_position_outcome, 1);
                };
            }
            return Err(ErrorCode::Overflow);
        },
    };
    let entry_price_after = match calculate_next_entry_price_x96(
        side,
        pos.size,
        pos.entry_price_x96,
        parameter.size_delta,
        trade_price,
    ) {
        Ok(v) => v,
        Err(e) => {
            restore_market(
                state,
                snap_glp,
                snap_gp,
                snap_fund,
                snap_protocol,
                snap_premium,
                snap_cvi,
                snap_basis,
                snap_buffers,
            );
            proof {
                assert(increase_position_outcome(
                    old(state).global_liquidity_position,
                    old(state).price_state,
                    old(state).global_position,
                    side_positions(*old(state), parameter.side),
                    old(state).global_liquidation_fund.liquidation_fund,
                    old(state).protocol_fee,
                    *market_config,
                    *parameter,
                    index_price_x96,
                ) == Err::<u128, ErrorCode>(e)) by {
                    reveal_with_fuel(increase_position_outcome, 1);
                };
            }
            return Err(e);
        },
    };
    let maintain_parameter = MaintainMarginRateParameter {
        margin: margin_after,
        side,
        size: size_after,
        entry_price_x96: entry_price_after,
        decrease_price_x96: index_price_x96,
        trading_fee_rate: trading_fee_state.trading_fee_rate,
        liquidatable_position: false,
    };
    match validate_position_liquidate_maintain_margin_rate(
        &market_config.base_config,
        &maintain_parameter,
    ) {
        Ok(u) => u,
        Err(e) => {
            restore_market(
                state,
                snap_glp,
                snap_gp,
                snap_fund,
                snap_protocol,
                snap_premium,
                snap_cvi,
                snap_basis,
                snap_buffers,
            );
            proof {
                assert(increase_position_outcome(
                    old(state).global_liquidity_position,
                    old(state).price_state,
                    old(state).global_position,
                    side_positions(*old(state), parameter.side),
                    old(state).global_liquidation_fund.liquidation_fund,
                    old(state).protocol_fee,
                    *market_config,
                    *parameter,
                    index_price_x96,
                ) == Err::<u128, ErrorCode>(e)) by {
                    reveal_with_fuel(increase_position_outcome, 1);
                };
            }
            return Err(e);
        },
    };
    if parameter.size_delta > 0 {
        match increase_global_position(&mut state.global_position, side, parameter.size_delta) {
            Ok(u) => u,
            Err(e) => {
                restore_market(
                    state,
                    snap_glp,
                    snap_gp,
                    snap_fund,
                    snap_protocol,
                    snap_premium,
                    snap_cvi,
                    snap_basis,
                    snap_buffers,
                );
                proof {
                    assert(increase_position_outcome(
                        old(state).global_liquidity_position,
                        old(state).price_state,
                        old(state).global_position,
                        side_positions(*old(state), parameter.side),
                        old(state).global_liquidation_fund.liquidation_fund,
                        old(state).protocol_fee,
                        *market_config,
                        *parameter,
                        index_price_x96,
                    ) == Err::<u128, ErrorCode>(e)) by {
                        reveal_with_fuel(increase_position_outcome, 1);
                    };
                }
                return Err(e);
            },
        };
    }
    let updated = Position {
        margin: margin_after as u128,
        size: size_after,
        entry_price_x96: entry_price_after,
        entry_funding_rate_growth_x96: growth,
    };
    proof {
        assert(increase_position_outcome(
            old(state).global_liquidity_position,
            old(state).price_state,
            old(state).global_position,
            side_positions(*old(state), parameter.side),
            old(state).global_liquidation_fund.liquidation_fund,
            old(state).protocol_fee,
            *market_config,
            *parameter,
            index_price_x96,
        ) == Ok::<u128, ErrorCode>(trade_price)) by {
            reveal_with_fuel(increase_position_outcome, 1);
        };
    }
    if side {
        state.long_positions.insert(parameter.account, updated);
    } else {
        state.short_positions.insert(parameter.account, updated);
    }
    Ok(trade_price)
}

/// What shrinking or closing a trader position returns — the trade price
/// and the remaining margin — or the exact error it fails with, as one
/// function of the inputs.  In particular `InsufficientMargin` occurs
/// exactly when `margin + realized_pnl + funding_fee - trading_fee -
/// margin_delta` is negative.
#[verifier::opaque]
pub open spec fn decrease_position_outcome(
    glp: GlobalLiquidityPosition,
    ps: PriceState,
    gp: GlobalPosition,
    m0: Map<u64, Position>,
    fund0: i128,
    protocol0: u128,
    cfg: MarketConfig,
    p: DecreasePositionParameter,
    index_price_x96: u128,
) -> Result<(u128, u128), ErrorCode> {
    if !m0.contains_key(p.account) {
        Err(ErrorCode::PositionNotFound)
    } else {
        let pos0 = m0[p.account];
        if pos0.size < p.size_delta {
            Err(ErrorCode::InsufficientSizeToDecrease)
        } else {
            let curve: Result<u128, ErrorCode> = if p.size_delta > 0 {
                update_price_trade_price(
                    glp,
                    ps,
                    (UpdatePriceStateParameter {
                        side: !p.side,
                        size_delta: p.size_delta,
                        index_price_x96,
                        liquidation_vertex_index: cfg.price_config.liquidation_vertex_index,
                        liquidation: false,
                    }),
                )
            } else {
                Ok(0u128)
            };
            match curve {
                Err(e) => Err(e),
                Ok(trade_price) => {
                    let fee_res: Result<u128, ErrorCode> = if p.size_delta > 0 {
                        match distribute_fee_result(
                            glp,
                            fund0,
                            protocol0,
                            cfg.fee_rate_config,
                            (DistributeFeeParameter {
                                account: p.account,
                                size_delta: p.size_delta,
                                trade_price_x96: trade_price,
                                trading_fee_state: direct_fee_state(cfg.fee_rate_config),
                                liquidation_fee: 0,
                            }),
                        ) {
                            Err(e) => Err(e),
                            Ok(out) => Ok(out.3),
                        }
                    } else {
                        Ok(0u128)
                    };
                    match fee_res {
                        Err(e) => Err(e),
                        Ok(trading_fee) => {
                            let pnl_res: Result<i128, ErrorCode> = if p.size_delta > 0 {
                                unrealized_pnl_result(
                                    p.side,
                                    p.size_delta,
                                    pos0.entry_price_x96,
                                    trade_price,
                                )
                            } else {
                                Ok(0i128)
                            };
                            match pnl_res {
                                Err(e) => Err(e),
                                Ok(realized_pnl) => {
                                    let growth = if p.side {
                                        gp.long_funding_rate_growth_x96
                                    } else {
                                        gp.short_funding_rate_growth_x96
                                    };
                                    match funding_fee_result(
                                        growth,
                                        pos0.entry_funding_rate_growth_x96,
                                        pos0.size,
                                    ) {
                                        Err(e) => Err(e),
                                        Ok(funding_fee) => if pos0.margin > i128::MAX
                                            || p.margin_delta > i128::MAX || trading_fee
                                            > i128::MAX {
                                            Err(ErrorCode::Overflow)
                                        } else if pos0.margin + realized_pnl > i128::MAX {
                                            Err(ErrorCode::Overflow)
                                        } else if pos0.margin + realized_pnl + funding_fee
                                            > i128::MAX || pos0.margin + realized_pnl
                                            + funding_fee < i128::MIN {
                                            Err(ErrorCode::Overflow)
                                        } else if pos0.margin + realized_pnl + funding_fee
                                            - trading_fee < i128::MIN {
                                            Err(ErrorCode::Overflow)
                                        } else if pos0.margin + realized_pnl + funding_fee
                                            - trading_fee - p.margin_delta < i128::MIN {
                                            Err(ErrorCode::Overflow)
                                        } else if pos0.margin + realized_pnl + funding_fee
                                            - trading_fee - p.margin_delta < 0 {
                                            Err(ErrorCode::InsufficientMargin)
                                        } else {
                                            let margin_after = pos0.margin + realized_pnl
                                                + funding_fee - trading_fee - p.margin_delta;
                                            let size_after = pos0.size - p.size_delta;
                                            let maintain: Result<(), ErrorCode> = if size_after
                                                > 0 {
                                                maintain_margin_rate_validation(
                                                    cfg.base_config,
                                                    (MaintainMarginRateParameter {
                                                        margin: margin_after as i128,
                                                        side: p.side,
                                                        size: size_after as u128,
                                                        entry_price_x96: pos0.entry_price_x96,
                                                        decrease_price_x96: index_price_x96,
                                                        trading_fee_rate:
                                                            cfg.fee_rate_config.trading_fee_rate,
                                                        liquidatable_position: false,
                                                    }),
                                                )
                                            } else {
                                                Ok(())
                                            };
                                            match maintain {
                                                Err(e) => Err(e),
                                                Ok(u) => if p.size_delta > 0 && (if p.side {
                                                    gp.long_size < p.size_delta
                                                } else {
                                                    gp.short_size < p.size_delta
                                                }) {
                                                    Err(ErrorCode::Underflow)
                                                } else {
                                                    Ok((trade_price, margin_after as u128))
                                                },
                                            }
                                        },
                                    }
                                },
                            }
                        },
                    }
                },
            }
        }
    }
}

/// Shrinks or closes a leveraged trader position.
///
/// The position must exist and hold at least the requested size delta.  A
/// non-zero size delta trades the opposite side against the curve,
/// distributes the trading fee, and realizes PnL on the size being closed.
/// The funding fee is settled, the withdrawn margin is deducted, and the
/// margin may not go negative.  A position closed to zero is deleted;
/// otherwise the routine maintenance check must pass.  Returns the trade
/// price and the remaining margin.  On failure the market state is
/// equivalent to what it was.
#[verifier::rlimit(100)]
pub fn decrease_position(
    state: &mut State,
    market_config: &MarketConfig,
    parameter: &DecreasePositionParameter,
    index_price_x96: u128,
) -> (r: Result<(u128, u128), ErrorCode>)
    requires
        price_state_wf(old(state).global_liquidity_position, old(state).price_state),
        positions_wf(old(state).long_positions@),
        positions_wf(old(state).short_positions@),
        crate::types::fee_rate_config_wf(market_config.fee_rate_config),
        market_config.price_config.liquidation_vertex_index < 10,
    ensures
        r == decrease_position_outcome(
            old(state).global_liquidity_position,
            old(state).price_state,
            old(state).global_position,
            side_positions(*old(state), parameter.side),
            old(state).global_liquidation_fund.liquidation_fund,
            old(state).protocol_fee,
            *market_config,
            *parameter,
            index_price_x96,
        ),
        r matches Err(e) ==> states_equivalent(*old(state), *final(state)),
        !side_positions(*old(state), parameter.side).contains_key(parameter.account) <==> r
            == Err::<(u128, u128), ErrorCode>(ErrorCode::PositionNotFound),
        (side_positions(*old(state), parameter.side).contains_key(parameter.account)
            && side_positions(*old(state), parameter.side)[parameter.account].size
            < parameter.size_delta) <==> r == Err::<(u128, u128), ErrorCode>(
            ErrorCode::InsufficientSizeToDecrease,
        ),
        r matches Ok(out) ==> ({
            let trade_price = out.0;
            let pre = *old(state);
            let post = *final(state);
            let m0 = side_positions(pre, parameter.side);
            let pos0 = m0[parameter.account];
            let growth = if parameter.side {
                pre.global_position.long_funding_rate_growth_x96
            } else {
                pre.global_position.short_funding_rate_growth_x96
            };
            let size_after = pos0.size - parameter.size_delta;
            &&& m0.contains_key(parameter.account)
            &&& price_state_wf(post.global_liquidity_position, post.price_state)
            &&& positions_wf(post.long_positions@)
            &&& positions_wf(post.short_positions@)
            &&& post.price_state.price_vertices@ == pre.price_state.price_vertices@
            &&& (if parameter.side {
                post.short_positions@ == pre.short_positions@
            } else {
                post.long_positions@ == pre.long_positions@
            })
            &&& post.liquidity_positions@ == pre.liquidity_positions@
            &&& post.usd_balance == pre.usd_balance
            &&& (size_after == 0 ==> side_positions(post, parameter.side) == m0.remove(
                parameter.account,
            ))
            &&& (size_after > 0 ==> ({
                let newpos = side_positions(post, parameter.side)[parameter.account];
                &&& side_positions(post, parameter.side) == m0.insert(parameter.account, newpos)
                &&& newpos.size == size_after
                &&& newpos.entry_price_x96 == pos0.entry_price_x96
                &&& newpos.entry_funding_rate_growth_x96 == growth
                &&& (funding_fee_result(growth, pos0.entry_funding_rate_growth_x96, pos0.size)
                    matches Ok(ff) && (parameter.size_delta > 0 ==> (trading_fee_result(
                    parameter.size_delta,
                    trade_price,
                    market_config.fee_rate_config.trading_fee_rate,
                ) matches Ok(tf) && unrealized_pnl_result(
                    parameter.side,
                    parameter.size_delta,
                    pos0.entry_price_x96,
                    trade_price,
                ) matches Ok(pnl) && newpos.margin == pos0.margin + pnl + ff - tf
                    - parameter.margin_delta && out.1 == newpos.margin)) && (parameter.size_delta
                    == 0 ==> newpos.margin == pos0.margin + ff - parameter.margin_delta && out.1
                    == newpos.margin))
            }))
            &&& post.global_position.long_size == pre.global_position.long_size - (
            if parameter.side {
                parameter.size_delta
            } else {
                0
            })
            &&& post.global_position.short_size == pre.global_position.short_size - (
            if parameter.side {
                0
            } else {
                parameter.size_delta
            })
            &&& post.global_position.max_size == pre.global_position.max_size
            &&& post.global_position.max_size_per_position
                == pre.global_position.max_size_per_position
            &&& post.global_position.long_funding_rate_growth_x96
                == pre.global_position.long_funding_rate_growth_x96
            &&& post.global_position.short_funding_rate_growth_x96
                == pre.global_position.short_funding_rate_growth_x96
            &&& post.global_liquidity_position.liquidity
                == pre.global_liquidity_position.liquidity
            &&& (parameter.size_delta == 0 ==> post.global_liquidity_position
                == pre.global_liquidity_position && price_states_equivalent(
                pre.price_state,
                post.price_state,
            ) && post.protocol_fee == pre.protocol_fee && post.global_liquidation_fund
                == pre.global_liquidation_fund && trade_price == 0)
            &&& (parameter.size_delta > 0 ==> (distribute_fee_result(
                pre.global_liquidity_position,
                pre.global_liquidation_fund.liquidation_fund,
                pre.protocol_fee,
                market_config.fee_rate_config,
                (DistributeFeeParameter {
                    account: parameter.account,
                    size_delta: parameter.size_delta,
                    trade_price_x96: trade_price,
                    trading_fee_state: (TradingFeeState {
                        trading_fee_rate: market_config.fee_rate_config.trading_fee_rate,
                        referral_return_fee_rate:
                            market_config.fee_rate_config.referral_return_fee_rate,
                        referral_parent_return_fee_rate:
                            market_config.fee_rate_config.referral_parent_return_fee_rate,
                        referral_token: 0,
                        referral_parent_token: 0,
                    }),
                    liquidation_fee: 0,
                }),
            ) matches Ok(fees) && post.global_liquidity_position.unrealized_pnl_growth_x64
                == fees.0 && post.protocol_fee == fees.1
                && post.global_liquidation_fund.liquidation_fund == fees.2
                && post.global_liquidation_fund.liquidity
                == pre.global_liquidation_fund.liquidity))
            &&& (parameter.size_delta > 0 ==> curve_commit(
                pre.global_liquidity_position,
                pre.price_state,
                (UpdatePriceStateParameter {
                    side: !parameter.side,
                    size_delta: parameter.size_delta,
                    index_price_x96,
                    liquidation_vertex_index: market_config.price_config.liquidation_vertex_index,
                    liquidation: false,
                }),
                post.global_liquidity_position.net_size as int,
                post.global_liquidity_position.side,
                post.global_liquidity_position.liquidation_buffer_net_size as int,
                post.price_state.basis_index_price_x96,
                post.price_state.liquidation_buffer_net_sizes@,
            ))
        }),
{
    let side = parameter.side;
    let stored = if side {
        state.long_positions.get(&parameter.account)
    } else {
        state.short_positions.get(&parameter.account)
    };
    let pos = match stored {
        Some(p) => *p,
        None => {
            proof {
                assert(decrease_position_outcome(
                    old(state).global_liquidity_position,
                            old(state).price_state,
                            old(state).global_position,
                            side_positions(*old(state), parameter.side),
                            old(state).global_liquidation_fund.liquidation_fund,
                            old(state).protocol_fee,
                            *market_config,
                            *parameter,
                            index_price_x96,
                ) == Err::<(u128, u128), ErrorCode>(ErrorCode::PositionNotFound)) by {
                    reveal_with_fuel(decrease_position_outcome, 1);
                };
            }
            return Err(ErrorCode::PositionNotFound);
        },
    };
    if pos.size < parameter.size_delta {
        proof {
            assert(decrease_position_outcome(
                old(state).global_liquidity_position,
                        old(state).price_state,
                        old(state).global_position,
                        side_positions(*old(state), parameter.side),
                        old(state).global_liquidation_fund.liquidation_fund,
                        old(state).protocol_fee,
                        *market_config,
                        *parameter,
                        index_price_x96,
            ) == Err::<(u128, u128), ErrorCode>(ErrorCode::InsufficientSizeToDecrease)) by {
                reveal_with_fuel(decrease_position_outcome, 1);
            };
        }
        return Err(ErrorCode::InsufficientSizeToDecrease);
    }
    let trading_fee_state = build_trading_fee_state(&market_config.fee_rate_config, 0, 0);
    let snap_glp = state.global_liquidity_position;
    let snap_gp = state.global_position;
    let snap_fund = state.global_liquidation_fund;
    let snap_protocol = state.protocol_fee;
    let snap_premium = state.price_state.premium_rate_x96;
    let snap_cvi = state.price_state.current_vertex_index;
    let snap_basis = state.price_state.basis_index_price_x96;
    let snap_buffers = copy_buffers(&state.price_state.liquidation_buffer_net_sizes);
    let mut trade_price: u128 = 0;
    let mut trading_fee: u128 = 0;
    let mut realized_pnl: i128 = 0;
    if parameter.size_delta > 0 {
        let curve_parameter = UpdatePriceStateParameter {
            side: !side,
            size_delta: parameter.size_delta,
            index_price_x96,
            liquidation_vertex_index: market_config.price_config.liquidation_vertex_index,
            liquidation: false,
        };
        trade_price = match update_price_state(
            &mut state.global_liquidity_position,
            &mut state.price_state,
            &curve_parameter,
        ) {
            Ok(v) => v,
            Err(e) => {
                proof {
                    assert(decrease_position_outcome(
                        old(state).global_liquidity_position,
                                old(state).price_state,
                                old(state).global_position,
                                side_positions(*old(state), parameter.side),
                                old(state).global_liquidation_fund.liquidation_fund,
                                old(state).protocol_fee,
                                *market_config,
                                *parameter,
                                index_price_x96,
                    ) == Err::<(u128, u128), ErrorCode>(e)) by {
                        reveal_with_fuel(decrease_position_outcome, 1);
                    };
                }
                proof {
                assert(decrease_position_outcome(
                    old(state).global_liquidity_position,
                            old(state).price_state,
                            old(state).global_position,
                            side_positions(*old(state), parameter.side),
                            old(state).global_liquidation_fund.liquidation_fund,
                            old(state).protocol_fee,
                            *market_config,
                            *parameter,
                            index_price_x96,
                ) == Err::<(u128, u128), ErrorCode>(e)) by {
                    reveal_with_fuel(decrease_position_outcome, 1);
                };
            }
            return Err(e);
            },
        };
        let fee_parameter = DistributeFeeParameter {
            account: parameter.account,
            size_delta: parameter.size_delta,
            trade_price_x96: trade_price,
            trading_fee_state,
            liquidation_fee: 0,
        };
        trading_fee = match distribute_fee(
            &mut state.global_liquidity_position,
            &mut state.global_liquidation_fund,
            &mut state.protocol_fee,
            &market_config.fee_rate_config,
            &fee_parameter,
        ) {
            Ok(v) => v,
            Err(e) => {
                restore_market(
                    state,
                    snap_glp,
                    snap_gp,
                    snap_fund,
                    snap_protocol,
                    snap_premium,
                    snap_cvi,
                    snap_basis,
                    snap_buffers,
                );
                proof {
                    assert(decrease_position_outcome(
                        old(state).global_liquidity_position,
                                old(state).price_state,
                                old(state).global_position,
                                side_positions(*old(state), parameter.side),
                                old(state).global_liquidation_fund.liquidation_fund,
                                old(state).protocol_fee,
                                *market_config,
                                *parameter,
                                index_price_x96,
                    ) == Err::<(u128, u128), ErrorCode>(e)) by {
                        reveal_with_fuel(decrease_position_outcome, 1);
                    };
                }
                proof {
                assert(decrease_position_outcome(
                    old(state).global_liquidity_position,
                            old(state).price_state,
                            old(state).global_position,
                            side_positions(*old(state), parameter.side),
                            old(state).global_liquidation_fund.liquidation_fund,
                            old(state).protocol_fee,
                            *market_config,
                            *parameter,
                            index_price_x96,
                ) == Err::<(u128, u128), ErrorCode>(e)) by {
                    reveal_with_fuel(decrease_position_outcome, 1);
                };
            }
            return Err(e);
            },
        };
        realized_pnl = match calculate_unrealized_pnl(
            side,
            parameter.size_delta,
            pos.entry_price_x96,
            trade_price,
        ) {
            Ok(v) => v,
            Err(e) => {
                restore_market(
                    state,
                    snap_glp,
                    snap_gp,
                    snap_fund,
                    snap_protocol,
                    snap_premium,
                    snap_cvi,
                    snap_basis,
                    snap_buffers,
                );
                proof {
                    assert(decrease_position_outcome(
                        old(state).global_liquidity_position,
                                old(state).price_state,
                                old(state).global_position,
                                side_positions(*old(state), parameter.side),
                                old(state).global_liquidation_fund.liquidation_fund,
                                old(state).protocol_fee,
                                *market_config,
                                *parameter,
                                index_price_x96,
                    ) == Err::<(u128, u128), ErrorCode>(e)) by {
                        reveal_with_fuel(decrease_position_outcome, 1);
                    };
                }
                proof {
                assert(decrease_position_outcome(
                    old(state).global_liquidity_position,
                            old(state).price_state,
                            old(state).global_position,
                            side_positions(*old(state), parameter.side),
                            old(state).global_liquidation_fund.liquidation_fund,
                            old(state).protocol_fee,
                            *market_config,
                            *parameter,
                            index_price_x96,
                ) == Err::<(u128, u128), ErrorCode>(e)) by {
                    reveal_with_fuel(decrease_position_outcome, 1);
                };
            }
            return Err(e);
            },
        };
    }
    let growth = choose_previous_global_funding_rate_growth_x96(&state.global_position, side);
    let funding_fee = match calculate_funding_fee(
        growth,
        pos.entry_funding_rate_growth_x96,
        pos.size,
    ) {
        Ok(v) => v,
        Err(e) => {
            restore_market(
                state,
                snap_glp,
                snap_gp,
                snap_fund,
                snap_protocol,
                snap_premium,
                snap_cvi,
                snap_basis,
                snap_buffers,
            );
            proof {
                assert(decrease_position_outcome(
                    old(state).global_liquidity_position,
                            old(state).price_state,
                            old(state).global_position,
                            side_positions(*old(state), parameter.side),
                            old(state).global_liquidation_fund.liquidation_fund,
                            old(state).protocol_fee,
                            *market_config,
                            *parameter,
                            index_price_x96,
                ) == Err::<(u128, u128), ErrorCode>(e)) by {
                    reveal_with_fuel(decrease_position_outcome, 1);
                };
            }
            return Err(e);
        },
    };
    let margin_after_opt: Option<i128> = if pos.margin > i128::MAX as u128 || parameter.margin_delta
        > i128::MAX as u128 || trading_fee > i128::MAX as u128 {
        None
    } else {
        match (pos.margin as i128).checked_add(realized_pnl) {
            None => None,
            Some(a) => match a.checked_add(funding_fee) {
                None => None,
                Some(b) => match b.checked_sub(trading_fee as i128) {
                    None => None,
                    Some(c) => c.checked_sub(parameter.margin_delta as i128),
                },
            },
        }
    };
    let margin_after = match margin_after_opt {
        Some(v) => v,
        None => {
            restore_market(
                state,
                snap_glp,
                snap_gp,
                snap_fund,
                snap_protocol,
                snap_premium,
                snap_cvi,
                snap_basis,
                snap_buffers,
            );
            proof {
                assert(decrease_position_outcome(
                    old(state).global_liquidity_position,
                            old(state).price_state,
                            old(state).global_position,
                            side_positions(*old(state), parameter.side),
                            old(state).global_liquidation_fund.liquidation_fund,
                            old(state).protocol_fee,
                            *market_config,
                            *parameter,
                            index_price_x96,
                ) == Err::<(u128, u128), ErrorCode>(ErrorCode::Overflow)) by {
                    reveal_with_fuel(decrease_position_outcome, 1);
                };
            }
            return Err(ErrorCode::Overflow);
        },
    };
    if margin_after < 0 {
        restore_market(
            state,
            snap_glp,
            snap_gp,
            snap_fund,
            snap_protocol,
            snap_premium,
            snap_cvi,
            snap_basis,
            snap_buffers,
        );
        proof {
            assert(decrease_position_outcome(
                old(state).global_liquidity_position,
                        old(state).price_state,
                        old(state).global_position,
                        side_positions(*old(state), parameter.side),
                        old(state).global_liquidation_fund.liquidation_fund,
                        old(state).protocol_fee,
                        *market_config,
                        *parameter,
                        index_price_x96,
            ) == Err::<(u128, u128), ErrorCode>(ErrorCode::InsufficientMargin)) by {
                reveal_with_fuel(decrease_position_outcome, 1);
            };
        }
        return Err(ErrorCode::InsufficientMargin);
    }
    let size_after = pos.size - parameter.size_delta;
    if size_after > 0 {
        let maintain_parameter = MaintainMarginRateParameter {
            margin: margin_after,
            side,
            size: size_after,
            entry_price_x96: pos.entry_price_x96,
            decrease_price_x96: index_price_x96,
            trading_fee_rate: trading_fee_state.trading_fee_rate,
            liquidatable_position: false,
        };
        match validate_position_liquidate_maintain_margin_rate(
            &market_config.base_config,
            &maintain_parameter,
        ) {
            Ok(u) => u,
            Err(e) => {
                restore_market(
                    state,
                    snap_glp,
                    snap_gp,
                    snap_fund,
                    snap_protocol,
                    snap_premium,
                    snap_cvi,
                    snap_basis,
                    snap_buffers,
                );
                proof {
                    assert(decrease_position_outcome(
                        old(state).global_liquidity_position,
                                old(state).price_state,
                                old(state).global_position,
                                side_positions(*old(state), parameter.side),
                                old(state).global_liquidation_fund.liquidation_fund,
                                old(state).protocol_fee,
                                *market_config,
                                *parameter,
                                index_price_x96,
                    ) == Err::<(u128, u128), ErrorCode>(e)) by {
                        reveal_with_fuel(decrease_position_outcome, 1);
                    };
                }
                proof {
                assert(decrease_position_outcome(
                    old(state).global_liquidity_position,
                            old(state).price_state,
                            old(state).global_position,
                            side_positions(*old(state), parameter.side),
                            old(state).global_liquidation_fund.liquidation_fund,
                            old(state).protocol_fee,
                            *market_config,
                            *parameter,
                            index_price_x96,
                ) == Err::<(u128, u128), ErrorCode>(e)) by {
                    reveal_with_fuel(decrease_position_outcome, 1);
                };
            }
            return Err(e);
            },
        };
    }
    if parameter.size_delta > 0 {
        match decrease_global_position(&mut state.global_position, side, parameter.size_delta) {
            Ok(u) => u,
            Err(e) => {
                restore_market(
                    state,
                    snap_glp,
                    snap_gp,
                    snap_fund,
                    snap_protocol,
                    snap_premium,
                    snap_cvi,
                    snap_basis,
                    snap_buffers,
                );
                proof {
                    assert(decrease_position_outcome(
                        old(state).global_liquidity_position,
                                old(state).price_state,
                                old(state).global_position,
                                side_positions(*old(state), parameter.side),
                                old(state).global_liquidation_fund.liquidation_fund,
                                old(state).protocol_fee,
                                *market_config,
                                *parameter,
                                index_price_x96,
                    ) == Err::<(u128, u128), ErrorCode>(e)) by {
                        reveal_with_fuel(decrease_position_outcome, 1);
                    };
                }
                proof {
                assert(decrease_position_outcome(
                    old(state).global_liquidity_position,
                            old(state).price_state,
                            old(state).global_position,
                            side_positions(*old(state), parameter.side),
                            old(state).global_liquidation_fund.liquidation_fund,
                            old(state).protocol_fee,
                            *market_config,
                            *parameter,
                            index_price_x96,
                ) == Err::<(u128, u128), ErrorCode>(e)) by {
                    reveal_with_fuel(decrease_position_outcome, 1);
                };
            }
            return Err(e);
            },
        };
    }
    if size_after == 0 {
        if side {
            state.long_positions.remove(&parameter.account);
        } else {
            state.short_positions.remove(&parameter.account);
        }
    } else {
        let updated = Position {
            margin: margin_after as u128,
            size: size_after,
            entry_price_x96: pos.entry_price_x96,
            entry_funding_rate_growth_x96: growth,
        };
        if side {
            state.long_positions.insert(parameter.account, updated);
        } else {
            state.short_positions.insert(parameter.account, updated);
        }
    }
    proof {
        assert(decrease_position_outcome(
            old(state).global_liquidity_position,
                    old(state).price_state,
                    old(state).global_position,
                    side_positions(*old(state), parameter.side),
                    old(state).global_liquidation_fund.liquidation_fund,
                    old(state).protocol_fee,
                    *market_config,
                    *parameter,
                    index_price_x96,
        ) == Ok::<(u128, u128), ErrorCode>((trade_price, margin_after as u128))) by {
            reveal_with_fuel(decrease_position_outcome, 1);
        };
    }
    Ok((trade_price, margin_after as u128))
}

/// What liquidating a trader position decides — success, or the exact
/// error — as one function of the inputs.
#[verifier::opaque]
pub open spec fn liquidate_position_outcome(
    glp: GlobalLiquidityPosition,
    gp: GlobalPosition,
    m0: Map<u64, Position>,
    fund0: i128,
    protocol0: u128,
    cfg: MarketConfig,
    p: crate::types::LiquidateParameter,
) -> Result<(), ErrorCode> {
    if !m0.contains_key(p.account) {
        Err(ErrorCode::PositionNotFound)
    } else {
        let pos0 = m0[p.account];
        if pos0.margin > i128::MAX {
            Err(ErrorCode::Overflow)
        } else {
            match maintain_margin_rate_validation(
                cfg.base_config,
                (MaintainMarginRateParameter {
                    margin: pos0.margin as i128,
                    side: p.side,
                    size: pos0.size,
                    entry_price_x96: pos0.entry_price_x96,
                    decrease_price_x96: p.decrease_index_price_x96,
                    trading_fee_rate: cfg.fee_rate_config.trading_fee_rate,
                    liquidatable_position: true,
                }),
            ) {
                Err(e) => Err(e),
                Ok(v) => match liquidation_price_decision(
                    pos0,
                    gp,
                    p.side,
                    p.required_funding_fee,
                    cfg.base_config.liquidation_fee_rate_per_position,
                    cfg.fee_rate_config.trading_fee_rate,
                    cfg.base_config.liquidation_execution_fee,
                ) {
                    Err(e) => Err(e),
                    Ok(decision) => match liquidation_fee_result(
                        pos0.size,
                        pos0.entry_price_x96,
                        cfg.base_config.liquidation_fee_rate_per_position,
                    ) {
                        Err(e) => Err(e),
                        Ok(liquidation_fee) => if liquidation_fee > i128::MAX {
                            Err(ErrorCode::Overflow)
                        } else {
                            let adjust_res: Result<(i128, int), ErrorCode> = if decision.1
                                != p.required_funding_fee {
                                crate::global::funding_adjustment_result(
                                    gp,
                                    p.side,
                                    p.required_funding_fee,
                                    decision.1,
                                )
                            } else {
                                Ok((0i128, 0int))
                            };
                            match adjust_res {
                                Err(e) => Err(e),
                                Ok(adjusted) => if liquidation_fee + adjusted.0 > i128::MAX
                                    || liquidation_fee + adjusted.0 < i128::MIN {
                                    Err(ErrorCode::Overflow)
                                } else {
                                    match unrealized_pnl_result(
                                        p.side,
                                        pos0.size,
                                        decision.0,
                                        p.trade_price_x96,
                                    ) {
                                        Err(e) => Err(e),
                                        Ok(price_gap_pnl) => if liquidation_fee + adjusted.0
                                            + price_gap_pnl > i128::MAX || liquidation_fee
                                            + adjusted.0 + price_gap_pnl < i128::MIN {
                                            Err(ErrorCode::Overflow)
                                        } else {
                                            match distribute_fee_result(
                                                glp,
                                                fund0,
                                                protocol0,
                                                cfg.fee_rate_config,
                                                (DistributeFeeParameter {
                                                    account: p.account,
                                                    size_delta: pos0.size,
                                                    trade_price_x96: decision.0,
                                                    trading_fee_state: direct_fee_state(
                                                        cfg.fee_rate_config,
                                                    ),
                                                    liquidation_fee: (liquidation_fee
                                                        + adjusted.0 + price_gap_pnl) as i128,
                                                }),
                                            ) {
                                                Err(e) => Err(e),
                                                Ok(fees) => if (if p.side {
                                                    gp.long_size < pos0.size
                                                } else {
                                                    gp.short_size < pos0.size
                                                }) {
                                                    Err(ErrorCode::Underflow)
                                                } else {
                                                    Ok(())
                                                },
                                            }
                                        },
                                    }
                                },
                            }
                        },
                    },
                },
            }
        }
    }
}

/// Forcibly closes a trader position that has breached maintenance margin
/// at a caller-supplied forced trade price.
///
/// The liquidation-path maintenance check must pass (a still-solvent
/// position is rejected).  The closed-form liquidation price is computed —
/// falling back to the realizable funding fee when the requested one gives
/// an unacceptable price — and any funding shortfall is spread over the
/// opposite side.  The liquidation fee, the shortfall booked as fund loss,
/// and the PnL difference between the liquidation price and the forced
/// trade price are settled into the liquidation fund through the fee
/// distribution.  Open interest drops by the full size and the position is
/// deleted.  On failure the market state is equivalent to what it was.
#[verifier::rlimit(100)]
pub fn liquidate_position(
    state: &mut State,
    market_config: &MarketConfig,
    parameter: &crate::types::LiquidateParameter,
) -> (r: Result<(), ErrorCode>)
    requires
        price_state_wf(old(state).global_liquidity_position, old(state).price_state),
        positions_wf(old(state).long_positions@),
        positions_wf(old(state).short_positions@),
        crate::types::fee_rate_config_wf(market_config.fee_rate_config),
        crate::types::base_config_wf(market_config.base_config),
    ensures
        r == liquidate_position_outcome(
            old(state).global_liquidity_position,
            old(state).global_position,
            side_positions(*old(state), parameter.side),
            old(state).global_liquidation_fund.liquidation_fund,
            old(state).protocol_fee,
            *market_config,
            *parameter,
        ),
        r matches Err(e) ==> states_equivalent(*old(state), *final(state)),
        !side_positions(*old(state), parameter.side).contains_key(parameter.account) <==> r
            == Err::<(), ErrorCode>(ErrorCode::PositionNotFound),
        r matches Ok(u) ==> ({
            let pre = *old(state);
            let post = *final(state);
            let m0 = side_positions(pre, parameter.side);
            let pos0 = m0[parameter.account];
            &&& m0.contains_key(parameter.account)
            &&& side_positions(post, parameter.side) == m0.remove(parameter.account)
            &&& (if parameter.side {
                post.short_positions@ == pre.short_positions@
            } else {
                post.long_positions@ == pre.long_positions@
            })
            &&& post.liquidity_positions@ == pre.liquidity_positions@
            &&& post.usd_balance == pre.usd_balance
            &&& price_states_equivalent(pre.price_state, post.price_state)
            &&& positions_wf(post.long_positions@)
            &&& positions_wf(post.short_positions@)
            &&& pos0.margin <= i128::MAX
            &&& maintain_margin_rate_validation(
                market_config.base_config,
                (MaintainMarginRateParameter {
                    margin: pos0.margin as i128,
                    side: parameter.side,
                    size: pos0.size,
                    entry_price_x96: pos0.entry_price_x96,
                    decrease_price_x96: parameter.decrease_index_price_x96,
                    trading_fee_rate: market_config.fee_rate_config.trading_fee_rate,
                    liquidatable_position: true,
                }),
            ) == Ok::<(), ErrorCode>(())
            &&& post.global_position.long_size == pre.global_position.long_size - (
            if parameter.side {
                pos0.size
            } else {
                0
            })
            &&& post.global_position.short_size == pre.global_position.short_size - (
            if parameter.side {
                0
            } else {
                pos0.size
            })
            &&& post.global_position.max_size == pre.global_position.max_size
            &&& post.global_position.max_size_per_position
                == pre.global_position.max_size_per_position
            &&& post.global_liquidity_position.liquidity
                == pre.global_liquidity_position.liquidity
            &&& (liquidation_price_decision(
                pos0,
                pre.global_position,
                parameter.side,
                parameter.required_funding_fee,
                market_config.base_config.liquidation_fee_rate_per_position,
                market_config.fee_rate_config.trading_fee_rate,
                market_config.base_config.liquidation_execution_fee,
            ) matches Ok(decision) && liquidation_fee_result(
                pos0.size,
                pos0.entry_price_x96,
                market_config.base_config.liquidation_fee_rate_per_position,
            ) matches Ok(liquidation_fee) && unrealized_pnl_result(
                parameter.side,
                pos0.size,
                decision.0,
                parameter.trade_price_x96,
            ) matches Ok(price_gap_pnl) && ({
                let adjust_outcome: (i128, int) = if decision.1 != parameter.required_funding_fee {
                    funding_adjustment_result(
                        pre.global_position,
                        parameter.side,
                        parameter.required_funding_fee,
                        decision.1,
                    ).unwrap()
                } else {
                    (0i128, 0int)
                };
                &&& (decision.1 != parameter.required_funding_fee ==> funding_adjustment_result(
                    pre.global_position,
                    parameter.side,
                    parameter.required_funding_fee,
                    decision.1,
                ) matches Ok(o))
                &&& (if parameter.side {
                    &&& post.global_position.short_funding_rate_growth_x96
                        == pre.global_position.short_funding_rate_growth_x96 - adjust_outcome.1
                    &&& post.global_position.long_funding_rate_growth_x96
                        == pre.global_position.long_funding_rate_growth_x96
                } else {
                    &&& post.global_position.long_funding_rate_growth_x96
                        == pre.global_position.long_funding_rate_growth_x96 - adjust_outcome.1
                    &&& post.global_position.short_funding_rate_growth_x96
                        == pre.global_position.short_funding_rate_growth_x96
                })
                &&& (distribute_fee_result(
                    pre.global_liquidity_position,
                    pre.global_liquidation_fund.liquidation_fund,
                    pre.protocol_fee,
                    market_config.fee_rate_config,
                    (DistributeFeeParameter {
                        account: parameter.account,
                        size_delta: pos0.size,
                        trade_price_x96: decision.0,
                        trading_fee_state: (TradingFeeState {
                            trading_fee_rate: market_config.fee_rate_config.trading_fee_rate,
                            referral_return_fee_rate:
                                market_config.fee_rate_config.referral_return_fee_rate,
                            referral_parent_return_fee_rate:
                                market_config.fee_rate_config.referral_parent_return_fee_rate,
                            referral_token: 0,
                            referral_parent_token: 0,
                        }),
                        liquidation_fee: (liquidation_fee + adjust_outcome.0
                            + price_gap_pnl) as i128,
                    }),
                ) matches Ok(fees) && post.global_liquidity_position.unrealized_pnl_growth_x64
                    == fees.0 && post.protocol_fee == fees.1
                    && post.global_liquidation_fund.liquidation_fund == fees.2
                    && post.global_liquidation_fund.liquidity
                    == pre.global_liquidation_fund.liquidity)
            }))
        }),
{
    let side = parameter.side;
    let stored = if side {
        state.long_positions.get(&parameter.account)
    } else {
        state.short_positions.get(&parameter.account)
    };
    let pos = match stored {
        Some(p) => *p,
        None => {
            proof {
                assert(liquidate_position_outcome(
                    old(state).global_liquidity_position,
                    old(state).global_position,
                    side_positions(*old(state), parameter.side),
                    old(state).global_liquidation_fund.liquidation_fund,
                    old(state).protocol_fee,
                    *market_config,
                    *parameter,
                ) == Err::<(), ErrorCode>(ErrorCode::PositionNotFound)) by {
                    reveal_with_fuel(liquidate_position_outcome, 1);
                };
            }
            return Err(ErrorCode::PositionNotFound);
        },
    };
    let trading_fee_state = build_trading_fee_state(&market_config.fee_rate_config, 0, 0);
    if pos.margin > i128::MAX as u128 {
        proof {
            assert(liquidate_position_outcome(
                old(state).global_liquidity_position,
                old(state).global_position,
                side_positions(*old(state), parameter.side),
                old(state).global_liquidation_fund.liquidation_fund,
                old(state).protocol_fee,
                *market_config,
                *parameter,
            ) == Err::<(), ErrorCode>(ErrorCode::Overflow)) by {
                reveal_with_fuel(liquidate_position_outcome, 1);
            };
        }
        return Err(ErrorCode::Overflow);
    }
    let maintain_parameter = MaintainMarginRateParameter {
        margin: pos.margin as i128,
        side,
        size: pos.size,
        entry_price_x96: pos.entry_price_x96,
        decrease_price_x96: parameter.decrease_index_price_x96,
        trading_fee_rate: trading_fee_state.trading_fee_rate,
        liquidatable_position: true,
    };
    match validate_position_liquidate_maintain_margin_rate(
        &market_config.base_config,
        &maintain_parameter,
    ) {
        Ok(u) => u,
        Err(e) => {
            proof {
                assert(liquidate_position_outcome(
                    old(state).global_liquidity_position,
                    old(state).global_position,
                    side_positions(*old(state), parameter.side),
                    old(state).global_liquidation_fund.liquidation_fund,
                    old(state).protocol_fee,
                    *market_config,
                    *parameter,
                ) == Err::<(), ErrorCode>(e)) by {
                    reveal_with_fuel(liquidate_position_outcome, 1);
                };
            }
            return Err(e);
        },
    };
    let (liquidation_price, adjusted_funding_fee) = match calculate_liquidation_price_x96(
        &pos,
        &state.global_position,
        side,
        parameter.required_funding_fee,
        market_config.base_config.liquidation_fee_rate_per_position,
        trading_fee_state.trading_fee_rate,
        market_config.base_config.liquidation_execution_fee,
    ) {
        Ok(pair) => pair,
        Err(e) => {
            proof {
                assert(liquidate_position_outcome(
                    old(state).global_liquidity_position,
                    old(state).global_position,
                    side_positions(*old(state), parameter.side),
                    old(state).global_liquidation_fund.liquidation_fund,
                    old(state).protocol_fee,
                    *market_config,
                    *parameter,
                ) == Err::<(), ErrorCode>(e)) by {
                    reveal_with_fuel(liquidate_position_outcome, 1);
                };
            }
            return Err(e);
        },
    };
    let liquidation_fee = match calculate_liquidation_fee(
        pos.size,
        pos.entry_price_x96,
        market_config.base_config.liquidation_fee_rate_per_position,
    ) {
        Ok(v) => v,
        Err(e) => {
            proof {
                assert(liquidate_position_outcome(
                    old(state).global_liquidity_position,
                    old(state).global_position,
                    side_positions(*old(state), parameter.side),
                    old(state).global_liquidation_fund.liquidation_fund,
                    old(state).protocol_fee,
                    *market_config,
                    *parameter,
                ) == Err::<(), ErrorCode>(e)) by {
                    reveal_with_fuel(liquidate_position_outcome, 1);
                };
            }
            return Err(e);
        },
    };
    if liquidation_fee > i128::MAX as u128 {
        proof {
            assert(liquidate_position_outcome(
                old(state).global_liquidity_position,
                old(state).global_position,
                side_positions(*old(state), parameter.side),
                old(state).global_liquidation_fund.liquidation_fund,
                old(state).protocol_fee,
                *market_config,
                *parameter,
            ) == Err::<(), ErrorCode>(ErrorCode::Overflow)) by {
                reveal_with_fuel(liquidate_position_outcome, 1);
            };
        }
        return Err(ErrorCode::Overflow);
    }
    let snap_glp = state.global_liquidity_position;
    let snap_gp = state.global_position;
    let snap_fund = state.global_liquidation_fund;
    let snap_protocol = state.protocol_fee;
    let snap_premium = state.price_state.premium_rate_x96;
    let snap_cvi = state.price_state.current_vertex_index;
    let snap_basis = state.price_state.basis_index_price_x96;
    let snap_buffers = copy_buffers(&state.price_state.liquidation_buffer_net_sizes);
    let mut liquidation_fund_delta: i128 = liquidation_fee as i128;
    if adjusted_funding_fee != parameter.required_funding_fee {
        let loss = match crate::global::adjust_funding_rate_by_liquidation(
            &mut state.global_position,
            side,
            parameter.required_funding_fee,
            adjusted_funding_fee,
        ) {
            Ok(v) => v,
            Err(e) => {
                proof {
                    assert(liquidate_position_outcome(
                        old(state).global_liquidity_position,
                        old(state).global_position,
                        side_positions(*old(state), parameter.side),
                        old(state).global_liquidation_fund.liquidation_fund,
                        old(state).protocol_fee,
                        *market_config,
                        *parameter,
                    ) == Err::<(), ErrorCode>(e)) by {
                        reveal_with_fuel(liquidate_position_outcome, 1);
                    };
                }
                proof {
                assert(liquidate_position_outcome(
                    old(state).global_liquidity_position,
                    old(state).global_position,
                    side_positions(*old(state), parameter.side),
                    old(state).global_liquidation_fund.liquidation_fund,
                    old(state).protocol_fee,
                    *market_config,
                    *parameter,
                ) == Err::<(), ErrorCode>(e)) by {
                    reveal_with_fuel(liquidate_position_outcome, 1);
                };
            }
            return Err(e);
            },
        };
        liquidation_fund_delta = match liquidation_fund_delta.checked_add(loss) {
            Some(v) => v,
            None => {
                restore_market(
                    state,
                    snap_glp,
                    snap_gp,
                    snap_fund,
                    snap_protocol,
                    snap_premium,
                    snap_cvi,
                    snap_basis,
                    snap_buffers,
                );
                proof {
                    assert(liquidate_position_outcome(
                        old(state).global_liquidity_position,
                        old(state).global_position,
                        side_positions(*old(state), parameter.side),
                        old(state).global_liquidation_fund.liquidation_fund,
                        old(state).protocol_fee,
                        *market_config,
                        *parameter,
                    ) == Err::<(), ErrorCode>(ErrorCode::Overflow)) by {
                        reveal_with_fuel(liquidate_position_outcome, 1);
                    };
                }
                proof {
                assert(liquidate_position_outcome(
                    old(state).global_liquidity_position,
                    old(state).global_position,
                    side_positions(*old(state), parameter.side),
                    old(state).global_liquidation_fund.liquidation_fund,
                    old(state).protocol_fee,
                    *market_config,
                    *parameter,
                ) == Err::<(), ErrorCode>(ErrorCode::Overflow)) by {
                    reveal_with_fuel(liquidate_position_outcome, 1);
                };
            }
            return Err(ErrorCode::Overflow);
            },
        };
    }
    let price_gap_pnl = match calculate_unrealized_pnl(
        side,
        pos.size,
        liquidation_price,
        parameter.trade_price_x96,
    ) {
        Ok(v) => v,
        Err(e) => {
            restore_market(
                state,
                snap_glp,
                snap_gp,
                snap_fund,
                snap_protocol,
                snap_premium,
                snap_cvi,
                snap_basis,
                snap_buffers,
            );
            proof {
                assert(liquidate_position_outcome(
                    old(state).global_liquidity_position,
                    old(state).global_position,
                    side_positions(*old(state), parameter.side),
                    old(state).global_liquidation_fund.liquidation_fund,
                    old(state).protocol_fee,
                    *market_config,
                    *parameter,
                ) == Err::<(), ErrorCode>(e)) by {
                    reveal_with_fuel(liquidate_position_outcome, 1);
                };
            }
            return Err(e);
        },
    };
    liquidation_fund_delta = match liquidation_fund_delta.checked_add(price_gap_pnl) {
        Some(v) => v,
        None => {
            restore_market(
                state,
                snap_glp,
                snap_gp,
                snap_fund,
                snap_protocol,
                snap_premium,
                snap_cvi,
                snap_basis,
                snap_buffers,
            );
            proof {
                assert(liquidate_position_outcome(
                    old(state).global_liquidity_position,
                    old(state).global_position,
                    side_positions(*old(state), parameter.side),
                    old(state).global_liquidation_fund.liquidation_fund,
                    old(state).protocol_fee,
                    *market_config,
                    *parameter,
                ) == Err::<(), ErrorCode>(ErrorCode::Overflow)) by {
                    reveal_with_fuel(liquidate_position_outcome, 1);
                };
            }
            return Err(ErrorCode::Overflow);
        },
    };
    let fee_parameter = DistributeFeeParameter {
        account: parameter.account,
        size_delta: pos.size,
        trade_price_x96: liquidation_price,
        trading_fee_state,
        liquidation_fee: liquidation_fund_delta,
    };
    match distribute_fee(
        &mut state.global_liquidity_position,
        &mut state.global_liquidation_fund,
        &mut state.protocol_fee,
        &market_config.fee_rate_config,
        &fee_parameter,
    ) {
        Ok(v) => v,
        Err(e) => {
            restore_market(
                state,
                snap_glp,
                snap_gp,
                snap_fund,
                snap_protocol,
                snap_premium,
                snap_cvi,
                snap_basis,
                snap_buffers,
            );
            proof {
                assert(liquidate_position_outcome(
                    old(state).global_liquidity_position,
                    old(state).global_position,
                    side_positions(*old(state), parameter.side),
                    old(state).global_liquidation_fund.liquidation_fund,
                    old(state).protocol_fee,
                    *market_config,
                    *parameter,
                ) == Err::<(), ErrorCode>(e)) by {
                    reveal_with_fuel(liquidate_position_outcome, 1);
                };
            }
            return Err(e);
        },
    };
    match decrease_global_position(&mut state.global_position, side, pos.size) {
        Ok(u) => u,
        Err(e) => {
            restore_market(
                state,
                snap_glp,
                snap_gp,
                snap_fund,
                snap_protocol,
                snap_premium,
                snap_cvi,
                snap_basis,
                snap_buffers,
            );
            proof {
                assert(liquidate_position_outcome(
                    old(state).global_liquidity_position,
                    old(state).global_position,
                    side_positions(*old(state), parameter.side),
                    old(state).global_liquidation_fund.liquidation_fund,
                    old(state).protocol_fee,
                    *market_config,
                    *parameter,
                ) == Err::<(), ErrorCode>(e)) by {
                    reveal_with_fuel(liquidate_position_outcome, 1);
                };
            }
            return Err(e);
        },
    };
    proof {
        assert(liquidate_position_outcome(
            old(state).global_liquidity_position,
            old(state).global_position,
            side_positions(*old(state), parameter.side),
            old(state).global_liquidation_fund.liquidation_fund,
            old(state).protocol_fee,
            *market_config,
            *parameter,
        ) == Ok::<(), ErrorCode>(())) by {
            reveal_with_fuel(liquidate_position_outcome, 1);
        };
    }
    if side {
        state.long_positions.remove(&parameter.account);
    } else {
        state.short_positions.remove(&parameter.account);
    }
    Ok(())
}

/// Rejects a realized trade price that is worse than the caller's
/// acceptable bound: higher for a long trade, lower for a short trade.
#[allow(non_snake_case)]
pub fn _validate_trade_price_X96(
    side: bool,
    trade_price_x96: u128,
    acceptable_trade_price_x96: u128,
) -> (r: Result<(), ErrorCode>)
    ensures
        r == if (side && trade_price_x96 > acceptable_trade_price_x96) || (!side
            && trade_price_x96 < acceptable_trade_price_x96) {
            Err::<(), ErrorCode>(ErrorCode::InvalidOperation)
        } else {
            Ok::<(), ErrorCode>(())
        },
{
    if (side && trade_price_x96 > acceptable_trade_price_x96) || (!side && trade_price_x96
        < acceptable_trade_price_x96) {
        Err(ErrorCode::InvalidOperation)
    } else {
        Ok(())
    }
}

/// Whether a position is currently in unrealized profit: the index price
/// sits on the winning side of its entry price.
pub fn _has_unrealized_profit(side: bool, entry_price_x96: u128, index_price_x96: u128) -> (r:
    bool)
    ensures
        r == if side {
            index_price_x96 > entry_price_x96
        } else {
            entry_price_x96 > index_price_x96
        },
{
    if side {
        index_price_x96 > entry_price_x96
    } else {
        entry_price_x96 > index_price_x96
    }
}

} // verus!
