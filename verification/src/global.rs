//! Pool-wide ledgers: aggregate open interest, pool liquidity with the
//! last-liquidity-provider guard, the derived size caps, and the
//! funding-rate redistribution performed on liquidation shortfalls.

use vstd::prelude::*;

use crate::constants::{BASIS_POINTS_DIVISOR, Q96};
use crate::errors::ErrorCode;
use crate::math::{min, mul_div, mul_div_result};
use crate::types::{GlobalLiquidityPosition, GlobalPosition, MarketBaseConfig};

verus! {

/// Rejects an operation when the pool holds no liquidity at all.
pub fn validate_global_liquidity(global_liquidity: u128) -> (r: Result<(), ErrorCode>)
    ensures
        r == if global_liquidity == 0 {
            Err::<(), ErrorCode>(ErrorCode::InsufficientGlobalLiquidity)
        } else {
            Ok::<(), ErrorCode>(())
        },
{
    if global_liquidity == 0 {
        Err(ErrorCode::InsufficientGlobalLiquidity)
    } else {
        Ok(())
    }
}

/// Adds `size` to the open interest of one side.
///
/// Fails with `Overflow` instead of wrapping; on failure nothing changes.
pub fn increase_global_position(global_position: &mut GlobalPosition, is_long: bool, size: u128)
    -> (r: Result<(), ErrorCode>)
    ensures
        is_long && old(global_position).long_size + size <= u128::MAX ==> {
            &&& r == Ok::<(), ErrorCode>(())
            &&& final(global_position).long_size == old(global_position).long_size + size
            &&& final(global_position).short_size == old(global_position).short_size
        },
        !is_long && old(global_position).short_size + size <= u128::MAX ==> {
            &&& r == Ok::<(), ErrorCode>(())
            &&& final(global_position).long_size == old(global_position).long_size
            &&& final(global_position).short_size == old(global_position).short_size + size
        },
        (if is_long {
            old(global_position).long_size + size > u128::MAX
        } else {
            old(global_position).short_size + size > u128::MAX
        }) ==> r == Err::<(), ErrorCode>(ErrorCode::Overflow) && *final(global_position) == *old(
            global_position,
        ),
        unrelated_position_fields_unchanged(*old(global_position), *final(global_position)),
{
    if is_long {
        match global_position.long_size.checked_add(size) {
            Some(after) => {
                global_position.long_size = after;
                Ok(())
            },
            None => Err(ErrorCode::Overflow),
        }
    } else {
        match global_position.short_size.checked_add(size) {
            Some(after) => {
                global_position.short_size = after;
                Ok(())
            },
            None => Err(ErrorCode::Overflow),
        }
    }
}

/// Fields of the aggregate trader ledger that the open-interest updates
/// never touch.
pub open spec fn unrelated_position_fields_unchanged(
    before: GlobalPosition,
    after: GlobalPosition,
) -> bool {
    &&& after.max_size == before.max_size
    &&& after.max_size_per_position == before.max_size_per_position
    &&& after.long_funding_rate_growth_x96 == before.long_funding_rate_growth_x96
    &&& after.short_funding_rate_growth_x96 == before.short_funding_rate_growth_x96
}

/// Removes `size` from the open interest of one side.
///
/// Fails with `Underflow` instead of going negative; on failure nothing
/// changes.
pub fn decrease_global_position(global_position: &mut GlobalPosition, is_long: bool, size: u128)
    -> (r: Result<(), ErrorCode>)
    ensures
        is_long && old(global_position).long_size >= size ==> {
            &&& r == Ok::<(), ErrorCode>(())
            &&& final(global_position).long_size == old(global_position).long_size - size
            &&& final(global_position).short_size == old(global_position).short_size
        },
        !is_long && old(global_position).short_size >= size ==> {
            &&& r == Ok::<(), ErrorCode>(())
            &&& final(global_position).long_size == old(global_position).long_size
            &&& final(global_position).short_size == old(global_position).short_size - size
        },
        (if is_long {
            old(global_position).long_size < size
        } else {
            old(global_position).short_size < size
        }) ==> r == Err::<(), ErrorCode>(ErrorCode::Underflow) && *final(global_position) == *old(
            global_position,
        ),
        unrelated_position_fields_unchanged(*old(global_position), *final(global_position)),
{
    if is_long {
        match global_position.long_size.checked_sub(size) {
            Some(after) => {
                global_position.long_size = after;
                Ok(())
            },
            None => Err(ErrorCode::Underflow),
        }
    } else {
        match global_position.short_size.checked_sub(size) {
            Some(after) => {
                global_position.short_size = after;
                Ok(())
            },
            None => Err(ErrorCode::Underflow),
        }
    }
}

/// What decreasing pool liquidity yields: the remaining pool liquidity, or
/// the exact rejection.
pub open spec fn decrease_global_liquidity_result(
    global_liquidity: u128,
    gp: GlobalPosition,
    liquidity_delta: u128,
) -> Result<u128, ErrorCode> {
    if global_liquidity < liquidity_delta {
        Err(ErrorCode::Underflow)
    } else if global_liquidity == liquidity_delta && (gp.long_size > 0 || gp.short_size > 0) {
        Err(ErrorCode::LastLiquidityPositionCannotBeClosed)
    } else {
        Ok((global_liquidity - liquidity_delta) as u128)
    }
}

/// Removes `liquidity_delta` from the pool's total liquidity.
///
/// Fails with `Underflow` when the pool holds less than the delta, and with
/// `LastLiquidityPositionCannotBeClosed` exactly when the pool would reach
/// zero liquidity while open interest remains; it succeeds in every other
/// case.  On failure nothing changes.
pub fn decrease_global_liquidity(
    global_liquidity_position: &mut GlobalLiquidityPosition,
    global_position: &GlobalPosition,
    liquidity_delta: u128,
) -> (r: Result<(), ErrorCode>)
    ensures
        match decrease_global_liquidity_result(
            old(global_liquidity_position).liquidity,
            *global_position,
            liquidity_delta,
        ) {
            Err(e) => r == Err::<(), ErrorCode>(e) && *final(global_liquidity_position) == *old(
                global_liquidity_position,
            ),
            Ok(v) => r == Ok::<(), ErrorCode>(()) && final(global_liquidity_position).liquidity
                == v,
        },
        r matches Ok(u) ==> {
            &&& final(global_liquidity_position).liquidity == old(
                global_liquidity_position,
            ).liquidity - liquidity_delta
            &&& final(global_liquidity_position).net_size == old(
                global_liquidity_position,
            ).net_size
            &&& final(global_liquidity_position).liquidation_buffer_net_size == old(
                global_liquidity_position,
            ).liquidation_buffer_net_size
            &&& final(global_liquidity_position).previous_sp_price_x96 == old(
                global_liquidity_position,
            ).previous_sp_price_x96
            &&& final(global_liquidity_position).side == old(global_liquidity_position).side
            &&& final(global_liquidity_position).unrealized_pnl_growth_x64 == old(
                global_liquidity_position,
            ).unrealized_pnl_growth_x64
        },
{
    if global_liquidity_position.liquidity < liquidity_delta {
        return Err(ErrorCode::Underflow);
    }
    let liquidity_after = global_liquidity_position.liquidity - liquidity_delta;
    if liquidity_after == 0 && (global_position.long_size > 0 || global_position.short_size > 0) {
        return Err(ErrorCode::LastLiquidityPositionCannotBeClosed);
    }
    global_liquidity_position.liquidity = liquidity_after;
    Ok(())
}

/// What the size-cap recomputation yields: `(max_size, max_size_per_position)`
/// derived from pool liquidity, the configured caps, and the index price.
pub open spec fn max_size_after(
    liquidity: u128,
    cfg: MarketBaseConfig,
    index_price_x96: u128,
) -> Result<(u128, u128), ErrorCode> {
    let min_liquidity = min(liquidity, cfg.max_position_liquidity);
    if index_price_x96 == 0 {
        Err(ErrorCode::DivideByZero)
    } else if min_liquidity * cfg.max_position_value_rate > u128::MAX {
        Err(ErrorCode::Overflow)
    } else if BASIS_POINTS_DIVISOR * index_price_x96 > u128::MAX {
        Err(ErrorCode::Overflow)
    } else {
        let max_size = (min_liquidity * cfg.max_position_value_rate) as int / (
        BASIS_POINTS_DIVISOR * index_price_x96) as int;
        if max_size * cfg.max_size_rate_per_position > u128::MAX {
            Err(ErrorCode::Overflow)
        } else {
            Ok(
                (
                    max_size as u128,
                    ((max_size * cfg.max_size_rate_per_position) as int / (
                    BASIS_POINTS_DIVISOR as int)) as u128,
                ),
            )
        }
    }
}

/// Recomputes `max_size` and `max_size_per_position` from the current pool
/// liquidity and index price; called whenever either changes materially.
///
/// On failure the caps are left untouched.
pub fn change_max_size(
    global_liquidity_position: &GlobalLiquidityPosition,
    base_cfg: &MarketBaseConfig,
    global_position: &mut GlobalPosition,
    index_price_x96: u128,
) -> (r: Result<(), ErrorCode>)
    ensures
        match max_size_after(global_liquidity_position.liquidity, *base_cfg, index_price_x96) {
            Ok(caps) => {
                &&& r == Ok::<(), ErrorCode>(())
                &&& final(global_position).max_size == caps.0
                &&& final(global_position).max_size_per_position == caps.1
                &&& final(global_position).long_size == old(global_position).long_size
                &&& final(global_position).short_size == old(global_position).short_size
                &&& final(global_position).long_funding_rate_growth_x96 == old(
                    global_position,
                ).long_funding_rate_growth_x96
                &&& final(global_position).short_funding_rate_growth_x96 == old(
                    global_position,
                ).short_funding_rate_growth_x96
            },
            Err(e) => r == Err::<(), ErrorCode>(e) && *final(global_position) == *old(
                global_position,
            ),
        },
{
    if index_price_x96 == 0 {
        return Err(ErrorCode::DivideByZero);
    }
    let min_liquidity = min(global_liquidity_position.liquidity, base_cfg.max_position_liquidity);
    let numerator = match min_liquidity.checked_mul(base_cfg.max_position_value_rate as u128) {
        Some(v) => v,
        None => {
            return Err(ErrorCode::Overflow);
        },
    };
    let denominator = match BASIS_POINTS_DIVISOR.checked_mul(index_price_x96) {
        Some(v) => v,
        None => {
            return Err(ErrorCode::Overflow);
        },
    };
    let max_size = numerator / denominator;
    let per_position_numerator = match max_size.checked_mul(
        base_cfg.max_size_rate_per_position as u128,
    ) {
        Some(v) => v,
        None => {
            return Err(ErrorCode::Overflow);
        },
    };
    let max_size_per_position = per_position_numerator / BASIS_POINTS_DIVISOR;
    global_position.max_size = max_size;
    global_position.max_size_per_position = max_size_per_position;
    Ok(())
}

/// Chooses the previous global funding rate growth based on the position
/// side.
pub fn choose_previous_global_funding_rate_growth_x96(
    previous_global_funding_rate: &GlobalPosition,
    is_long: bool,
) -> (r: i128)
    ensures
        r == if is_long {
            previous_global_funding_rate.long_funding_rate_growth_x96
        } else {
            previous_global_funding_rate.short_funding_rate_growth_x96
        },
{
    if is_long {
        previous_global_funding_rate.long_funding_rate_growth_x96
    } else {
        previous_global_funding_rate.short_funding_rate_growth_x96
    }
}

/// What the liquidation funding-rate adjustment yields: the loss booked to
/// the liquidation fund, and the growth delta taken from the opposite side.
pub open spec fn funding_adjustment_result(
    gp: GlobalPosition,
    side: bool,
    required_funding_fee: i128,
    adjusted_funding_fee: i128,
) -> Result<(i128, int), ErrorCode> {
    let insufficient = adjusted_funding_fee - required_funding_fee;
    let opposite_size = if side {
        gp.short_size
    } else {
        gp.long_size
    };
    if insufficient > i128::MAX || insufficient < i128::MIN {
        Err(ErrorCode::Overflow)
    } else if opposite_size == 0 {
        if -insufficient > i128::MAX {
            Err(ErrorCode::Overflow)
        } else {
            Ok(((-insufficient) as i128, 0))
        }
    } else {
        let magnitude = if insufficient >= 0 {
            insufficient
        } else {
            -insufficient
        };
        match mul_div_result(magnitude as u128, Q96, opposite_size) {
            Err(e) => Err(e),
            Ok(delta) => {
                let signed_delta: int = if insufficient >= 0 {
                    delta as int
                } else {
                    -(delta as int)
                };
                let growth = if side {
                    gp.short_funding_rate_growth_x96
                } else {
                    gp.long_funding_rate_growth_x96
                };
                if growth - signed_delta < i128::MIN || growth - signed_delta > i128::MAX {
                    Err(ErrorCode::Overflow)
                } else {
                    Ok((0, signed_delta))
                }
            },
        }
    }
}

/// Spreads the funding-fee shortfall of a liquidated position across the
/// opposite side's funding accumulator, pro-rated by that side's open
/// interest, or books it as a liquidation-fund loss when the opposite side
/// is empty.  An excess (a negative shortfall) moves the accumulator the
/// other way.  Returns the fund loss (zero when the shortfall was spread).
///
/// On failure nothing changes.
pub fn adjust_funding_rate_by_liquidation(
    global_position: &mut GlobalPosition,
    side: bool,
    required_funding_fee: i128,
    adjusted_funding_fee: i128,
) -> (r: Result<i128, ErrorCode>)
    ensures
        match funding_adjustment_result(
            *old(global_position),
            side,
            required_funding_fee,
            adjusted_funding_fee,
        ) {
            Err(e) => r == Err::<i128, ErrorCode>(e) && (e == ErrorCode::Overflow || e
                == ErrorCode::DivideByZero) && *final(global_position) == *old(global_position),
            Ok(outcome) => {
                &&& r == Ok::<i128, ErrorCode>(outcome.0)
                &&& final(global_position).long_size == old(global_position).long_size
                &&& final(global_position).short_size == old(global_position).short_size
                &&& final(global_position).max_size == old(global_position).max_size
                &&& final(global_position).max_size_per_position == old(
                    global_position,
                ).max_size_per_position
                &&& (if side {
                    &&& final(global_position).short_funding_rate_growth_x96 == old(
                        global_position,
                    ).short_funding_rate_growth_x96 - outcome.1
                    &&& final(global_position).long_funding_rate_growth_x96 == old(
                        global_position,
                    ).long_funding_rate_growth_x96
                } else {
                    &&& final(global_position).long_funding_rate_growth_x96 == old(
                        global_position,
                    ).long_funding_rate_growth_x96 - outcome.1
                    &&& final(global_position).short_funding_rate_growth_x96 == old(
                        global_position,
                    ).short_funding_rate_growth_x96
                })
            },
        },
{
    let insufficient = match adjusted_funding_fee.checked_sub(required_funding_fee) {
        Some(v) => v,
        None => {
            return Err(ErrorCode::Overflow);
        },
    };
    let opposite_size = if side {
        global_position.short_size
    } else {
        global_position.long_size
    };
    if opposite_size == 0 {
        if insufficient == i128::MIN {
            return Err(ErrorCode::Overflow);
        }
        return Ok(-insufficient);
    }
    let magnitude: u128 = if insufficient >= 0 {
        insufficient as u128
    } else if insufficient == i128::MIN {
        i128::MAX as u128 + 1
    } else {
        (-insufficient) as u128
    };
    let delta = match mul_div(magnitude, Q96, opposite_size) {
        Ok(v) => v,
        Err(e) => {
            return Err(e);
        },
    };
    let growth = if side {
        global_position.short_funding_rate_growth_x96
    } else {
        global_position.long_funding_rate_growth_x96
    };
    let growth_after = if insufficient >= 0 {
        match growth.checked_sub_unsigned(delta) {
            Some(v) => v,
            None => {
                return Err(ErrorCode::Overflow);
            },
        }
    } else {
        match growth.checked_add_unsigned(delta) {
            Some(v) => v,
            None => {
                return Err(ErrorCode::Overflow);
            },
        }
    };
    if side {
        global_position.short_funding_rate_growth_x96 = growth_after;
    } else {
        global_position.long_funding_rate_growth_x96 = growth_after;
    }
    Ok(0)
}

} // verus!
