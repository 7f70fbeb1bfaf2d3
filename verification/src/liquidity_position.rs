//! Per-account liquidity positions: opening, adjusting, closing and
//! liquidating LP stakes, with realized-PnL settlement against the global
//! growth accumulator and the shared risk-rate validator.

use vstd::prelude::*;

use crate::constants::{BASIS_POINTS_DIVISOR, Q64};
use crate::errors::ErrorCode;
use crate::global::decrease_global_liquidity;
use crate::math::{mul_div, mul_div_result, mul_div_up, mul_div_up_result};
use crate::types::{
    DecreaseLiquidityPositionParameter, GlobalLiquidityPosition, GlobalPosition,
    IncreaseLiquidityPositionParameter, LiquidityPosition, MarketBaseConfig, State,
};

verus! {

/// Whether the routine-operation risk check rejects a position: routine
/// mutations must leave the margin strictly above maintenance.
pub open spec fn risk_rate_rejects_routine(margin: int, maintenance_margin: int) -> bool {
    margin < 0 || maintenance_margin >= margin
}

/// Whether the liquidation-path risk check rejects a position: liquidation
/// is only permitted once the margin is at or below maintenance.
pub open spec fn risk_rate_rejects_liquidation(margin: int, maintenance_margin: int) -> bool {
    margin >= 0 && maintenance_margin < margin
}

/// The two risk checks are mutually exclusive and exhaustive: for every
/// `(margin, maintenance_margin)` pair exactly one of them rejects, and at
/// equality the pair is classified liquidatable (the routine check rejects,
/// the liquidation check passes).
pub proof fn lemma_risk_rate_checks_complementary(margin: int, maintenance_margin: int)
    ensures
        risk_rate_rejects_routine(margin, maintenance_margin) <==> !risk_rate_rejects_liquidation(
            margin,
            maintenance_margin,
        ),
        margin == maintenance_margin ==> risk_rate_rejects_routine(margin, maintenance_margin)
            && !risk_rate_rejects_liquidation(margin, maintenance_margin),
{
}

/// The maintenance margin of a liquidity position: the configured
/// liquidation fee on the staked liquidity plus the fixed execution fee.
pub open spec fn lp_maintenance_margin_result(cfg: MarketBaseConfig, liquidity: u128) -> Result<
    u128,
    ErrorCode,
> {
    match mul_div_result(
        liquidity,
        cfg.liquidation_fee_rate_per_liquidity_position as u128,
        BASIS_POINTS_DIVISOR,
    ) {
        Err(e) => Err(e),
        Ok(fee_part) => if fee_part + cfg.liquidation_execution_fee > u128::MAX {
            Err(ErrorCode::Overflow)
        } else {
            Ok((fee_part + cfg.liquidation_execution_fee) as u128)
        },
    }
}

/// What the risk-rate validator decides for a liquidity position.
pub open spec fn lp_risk_validation(
    cfg: MarketBaseConfig,
    margin: i128,
    liquidity: u128,
    liquidatable_position: bool,
) -> Result<(), ErrorCode> {
    match lp_maintenance_margin_result(cfg, liquidity) {
        Err(e) => Err(e),
        Ok(maintenance_margin) => if !liquidatable_position {
            if risk_rate_rejects_routine(margin as int, maintenance_margin as int) {
                Err(ErrorCode::RiskRateTooHigh)
            } else {
                Ok(())
            }
        } else {
            if risk_rate_rejects_liquidation(margin as int, maintenance_margin as int) {
                Err(ErrorCode::RiskRateTooLow)
            } else {
                Ok(())
            }
        },
    }
}

/// Validates the risk rate of a liquidity position.
///
/// With `liquidatable_position` false it fails with `RiskRateTooHigh`
/// whenever the margin is negative or at most the maintenance margin; with
/// `liquidatable_position` true it fails with `RiskRateTooLow` whenever the
/// position is still strictly solvent.
pub fn validate_liquidity_position_risk_rate(
    base_cfg: &MarketBaseConfig,
    margin: i128,
    liquidity: u128,
    liquidatable_position: bool,
) -> (r: Result<(), ErrorCode>)
    ensures
        r == lp_risk_validation(*base_cfg, margin, liquidity, liquidatable_position),
{
    let fee_part = match mul_div(
        liquidity,
        base_cfg.liquidation_fee_rate_per_liquidity_position as u128,
        BASIS_POINTS_DIVISOR,
    ) {
        Ok(v) => v,
        Err(e) => {
            return Err(e);
        },
    };
    let maintenance_margin = match fee_part.checked_add(
        base_cfg.liquidation_execution_fee as u128,
    ) {
        Some(v) => v,
        None => {
            return Err(ErrorCode::Overflow);
        },
    };
    if !liquidatable_position {
        if margin < 0 || maintenance_margin >= i128::MAX as u128 || maintenance_margin as i128
            >= margin {
            return Err(ErrorCode::RiskRateTooHigh);
        }
    } else {
        if margin >= 0 && (maintenance_margin < i128::MAX as u128 && (maintenance_margin as i128)
            < margin) {
            return Err(ErrorCode::RiskRateTooLow);
        }
    }
    Ok(())
}

/// The PnL realized by a liquidity position since its last settlement:
/// the growth-accumulator delta times the staked liquidity, rounded toward
/// the side unfavorable to the LP.
pub open spec fn realized_pnl_result(
    glp: GlobalLiquidityPosition,
    position: LiquidityPosition,
) -> Result<i128, ErrorCode> {
    let delta = glp.unrealized_pnl_growth_x64 - position.entry_unrealized_pnl_growth_x64;
    if delta > i128::MAX || delta < i128::MIN {
        Err(ErrorCode::Overflow)
    } else if delta >= 0 {
        match mul_div_result(delta as u128, position.liquidity, Q64) {
            Err(e) => Err(e),
            Ok(v) => if v > i128::MAX {
                Err(ErrorCode::Overflow)
            } else {
                Ok(v as i128)
            },
        }
    } else {
        match mul_div_up_result((-delta) as u128, position.liquidity, Q64) {
            Err(e) => Err(e),
            Ok(v) => if v > i128::MAX {
                Err(ErrorCode::Overflow)
            } else {
                Ok((-(v as int)) as i128)
            },
        }
    }
}

/// Settles the PnL a liquidity position has accrued since the global
/// growth accumulator was last snapshotted into it.  Positive PnL is
/// rounded down, negative PnL is rounded up in magnitude, so rounding dust
/// never favors the LP.
pub fn calculate_realized_pnl(
    global_liquidity_position: &GlobalLiquidityPosition,
    position_cache: &LiquidityPosition,
) -> (r: Result<i128, ErrorCode>)
    ensures
        r == realized_pnl_result(*global_liquidity_position, *position_cache),
{
    let delta = match global_liquidity_position.unrealized_pnl_growth_x64.checked_sub(
        position_cache.entry_unrealized_pnl_growth_x64,
    ) {
        Some(v) => v,
        None => {
            return Err(ErrorCode::Overflow);
        },
    };
    if delta >= 0 {
        let v = match mul_div(delta as u128, position_cache.liquidity, Q64) {
            Ok(v) => v,
            Err(e) => {
                return Err(e);
            },
        };
        if v > i128::MAX as u128 {
            return Err(ErrorCode::Overflow);
        }
        Ok(v as i128)
    } else {
        let magnitude: u128 = if delta == i128::MIN {
            i128::MAX as u128 + 1
        } else {
            (-delta) as u128
        };
        let v = match mul_div_up(magnitude, position_cache.liquidity, Q64) {
            Ok(v) => v,
            Err(e) => {
                return Err(e);
            },
        };
        if v > i128::MAX as u128 {
            return Err(ErrorCode::Overflow);
        }
        Ok(-(v as i128))
    }
}

/// Every stored liquidity position holds strictly positive liquidity:
/// a stake that reaches zero is removed from the ledger.
pub open spec fn liquidity_positions_wf(positions: Map<u64, LiquidityPosition>) -> bool {
    forall|a: u64| #[trigger]
        positions.contains_key(a) ==> positions[a].liquidity > 0
}

/// Ledgers a liquidity-position operation never touches.
pub open spec fn lp_op_frame(pre: State, post: State) -> bool {
    &&& post.price_state == pre.price_state
    &&& post.usd_balance == pre.usd_balance
    &&& post.protocol_fee == pre.protocol_fee
    &&& post.global_position == pre.global_position
    &&& post.long_positions@ == pre.long_positions@
    &&& post.short_positions@ == pre.short_positions@
}

/// Pool-liquidity fields a liquidity-position operation never touches.
pub open spec fn glp_non_liquidity_fields_eq(
    pre: GlobalLiquidityPosition,
    post: GlobalLiquidityPosition,
) -> bool {
    &&& post.net_size == pre.net_size
    &&& post.liquidation_buffer_net_size == pre.liquidation_buffer_net_size
    &&& post.previous_sp_price_x96 == pre.previous_sp_price_x96
    &&& post.side == pre.side
    &&& post.unrealized_pnl_growth_x64 == pre.unrealized_pnl_growth_x64
}

/// What increasing a liquidity position yields: the updated position and
/// the pool liquidity after the stake is added.
pub open spec fn lp_increase_outcome(
    positions: Map<u64, LiquidityPosition>,
    glp: GlobalLiquidityPosition,
    cfg: MarketBaseConfig,
    p: IncreaseLiquidityPositionParameter,
) -> Result<(LiquidityPosition, u128), ErrorCode> {
    let exists = positions.contains_key(p.account);
    if !exists && p.liquidity_delta == 0 {
        Err(ErrorCode::LiquidityPositionNotFound)
    } else {
        let pos = if exists {
            positions[p.account]
        } else {
            LiquidityPosition {
                margin: 0,
                liquidity: 0,
                entry_unrealized_pnl_growth_x64: glp.unrealized_pnl_growth_x64,
            }
        };
        let pnl_res = if exists {
            realized_pnl_result(glp, pos)
        } else {
            Ok(0i128)
        };
        match pnl_res {
            Err(e) => Err(e),
            Ok(pnl) => if pos.margin + p.margin_delta > u128::MAX {
                Err(ErrorCode::Overflow)
            } else if pnl >= 0 && pos.margin + p.margin_delta + pnl > u128::MAX {
                Err(ErrorCode::Overflow)
            } else if pos.margin + p.margin_delta + pnl <= 0 {
                Err(ErrorCode::InsufficientMargin)
            } else if pos.liquidity + p.liquidity_delta > u128::MAX {
                Err(ErrorCode::Overflow)
            } else if pos.margin + p.margin_delta + pnl > i128::MAX {
                Err(ErrorCode::Overflow)
            } else {
                let margin_after = (pos.margin + p.margin_delta + pnl) as u128;
                let liquidity_after = (pos.liquidity + p.liquidity_delta) as u128;
                match lp_risk_validation(cfg, margin_after as i128, liquidity_after, false) {
                    Err(e) => Err(e),
                    Ok(u) => if glp.liquidity + p.liquidity_delta > u128::MAX {
                        Err(ErrorCode::Overflow)
                    } else {
                        Ok(
                            (
                                LiquidityPosition {
                                    margin: margin_after,
                                    liquidity: liquidity_after,
                                    entry_unrealized_pnl_growth_x64: glp.unrealized_pnl_growth_x64,
                                },
                                (glp.liquidity + p.liquidity_delta) as u128,
                            ),
                        )
                    },
                }
            },
        }
    }
}

/// Opens or grows a liquidity position.
///
/// An absent position requires a non-zero liquidity delta.  Realized PnL is
/// settled first; the new margin must stay positive and the routine risk
/// check must pass.  On success the liquidity delta is added both to the
/// position and to the pool, and the growth accumulator is re-snapshotted;
/// on failure the market state is exactly what it was.
pub fn increase_liquidity_position(
    state: &mut State,
    base_cfg: &MarketBaseConfig,
    parameter: &IncreaseLiquidityPositionParameter,
) -> (r: Result<u128, ErrorCode>)
    requires
        liquidity_positions_wf(old(state).liquidity_positions@),
    ensures
        match lp_increase_outcome(
            old(state).liquidity_positions@,
            old(state).global_liquidity_position,
            *base_cfg,
            *parameter,
        ) {
            Err(e) => {
                &&& r == Err::<u128, ErrorCode>(e)
                &&& final(state).liquidity_positions@ == old(state).liquidity_positions@
                &&& final(state).global_liquidity_position == old(state).global_liquidity_position
            },
            Ok(out) => {
                &&& r == Ok::<u128, ErrorCode>(out.0.margin)
                &&& final(state).liquidity_positions@ == old(state).liquidity_positions@.insert(
                    parameter.account,
                    out.0,
                )
                &&& final(state).global_liquidity_position.liquidity == out.1
                &&& glp_non_liquidity_fields_eq(
                    old(state).global_liquidity_position,
                    final(state).global_liquidity_position,
                )
            },
        },
        r matches Ok(v) ==> final(state).global_liquidity_position.liquidity == old(
            state,
        ).global_liquidity_position.liquidity + parameter.liquidity_delta,
        lp_op_frame(*old(state), *final(state)),
        final(state).global_liquidation_fund == old(state).global_liquidation_fund,
        liquidity_positions_wf(final(state).liquidity_positions@),
{
    let glp = state.global_liquidity_position;
    let (exists, pos) = match state.liquidity_positions.get(&parameter.account) {
        Some(existing) => (true, *existing),
        None => (
            false,
            LiquidityPosition {
                margin: 0,
                liquidity: 0,
                entry_unrealized_pnl_growth_x64: glp.unrealized_pnl_growth_x64,
            },
        ),
    };
    if !exists && parameter.liquidity_delta == 0 {
        return Err(ErrorCode::LiquidityPositionNotFound);
    }
    let pnl: i128 = if exists {
        match calculate_realized_pnl(&glp, &pos) {
            Ok(v) => v,
            Err(e) => {
                return Err(e);
            },
        }
    } else {
        0i128
    };
    let subtotal = match pos.margin.checked_add(parameter.margin_delta) {
        Some(v) => v,
        None => {
            return Err(ErrorCode::Overflow);
        },
    };
    let margin_after: u128 = if pnl >= 0 {
        match subtotal.checked_add(pnl as u128) {
            Some(v) => v,
            None => {
                return Err(ErrorCode::Overflow);
            },
        }
    } else {
        let magnitude: u128 = if pnl == i128::MIN {
            i128::MAX as u128 + 1
        } else {
            (-pnl) as u128
        };
        if magnitude >= subtotal {
            return Err(ErrorCode::InsufficientMargin);
        }
        subtotal - magnitude
    };
    if margin_after == 0 {
        return Err(ErrorCode::InsufficientMargin);
    }
    let liquidity_after = match pos.liquidity.checked_add(parameter.liquidity_delta) {
        Some(v) => v,
        None => {
            return Err(ErrorCode::Overflow);
        },
    };
    if margin_after > i128::MAX as u128 {
        return Err(ErrorCode::Overflow);
    }
    match validate_liquidity_position_risk_rate(
        base_cfg,
        margin_after as i128,
        liquidity_after,
        false,
    ) {
        Ok(u) => u,
        Err(e) => {
            return Err(e);
        },
    };
    let global_liquidity_after = match glp.liquidity.checked_add(parameter.liquidity_delta) {
        Some(v) => v,
        None => {
            return Err(ErrorCode::Overflow);
        },
    };
    state.global_liquidity_position.liquidity = global_liquidity_after;
    state.liquidity_positions.insert(
        parameter.account,
        LiquidityPosition {
            margin: margin_after,
            liquidity: liquidity_after,
            entry_unrealized_pnl_growth_x64: glp.unrealized_pnl_growth_x64,
        },
    );
    Ok(margin_after)
}

/// What decreasing a liquidity position yields: the surviving position (or
/// its removal), the pool liquidity afterwards, and the returned
/// `(margin_after, margin_delta)` pair.
pub open spec fn lp_decrease_outcome(
    positions: Map<u64, LiquidityPosition>,
    glp: GlobalLiquidityPosition,
    gp: GlobalPosition,
    p: DecreaseLiquidityPositionParameter,
) -> Result<(Option<LiquidityPosition>, u128, (u128, u128)), ErrorCode> {
    if !positions.contains_key(p.account) {
        Err(ErrorCode::LiquidityPositionNotFound)
    } else {
        let pos = positions[p.account];
        if pos.liquidity < p.liquidity_delta {
            Err(ErrorCode::InsufficientLiquidityToDecrease)
        } else {
            match realized_pnl_result(glp, pos) {
                Err(e) => Err(e),
                Ok(pnl) => if pnl >= 0 && pos.margin + pnl > u128::MAX {
                    Err(ErrorCode::Overflow)
                } else if pos.margin + pnl < 0 {
                    Err(ErrorCode::InsufficientMargin)
                } else if pos.margin + pnl - p.margin_delta < 0 {
                    Err(ErrorCode::InsufficientMargin)
                } else {
                    let margin_after = (pos.margin + pnl - p.margin_delta) as u128;
                    let liquidity_after = (pos.liquidity - p.liquidity_delta) as u128;
                    let global_result = if p.liquidity_delta > 0 {
                        crate::global::decrease_global_liquidity_result(
                            glp.liquidity,
                            gp,
                            p.liquidity_delta,
                        )
                    } else {
                        Ok(glp.liquidity)
                    };
                    match global_result {
                        Err(e) => Err(e),
                        Ok(global_liquidity_after) => Ok(
                            (
                                if liquidity_after == 0 {
                                    None
                                } else {
                                    Some(
                                        LiquidityPosition {
                                            margin: margin_after,
                                            liquidity: liquidity_after,
                                            entry_unrealized_pnl_growth_x64:
                                                glp.unrealized_pnl_growth_x64,
                                        },
                                    )
                                },
                                global_liquidity_after,
                                (margin_after, p.margin_delta),
                            ),
                        ),
                    }
                },
            }
        }
    }
}

/// Shrinks or closes a liquidity position.
///
/// The position must exist and hold at least the requested liquidity delta.
/// Realized PnL is settled first; the margin after settlement and
/// withdrawal must not go negative.  The delta is removed both from the
/// position and from the pool, subject to the last-liquidity-provider
/// guard; a position whose liquidity reaches zero is deleted.  On failure
/// the market state is exactly what it was.
pub fn decrease_liquidity_position(
    state: &mut State,
    parameter: &DecreaseLiquidityPositionParameter,
) -> (r: Result<(u128, u128), ErrorCode>)
    requires
        liquidity_positions_wf(old(state).liquidity_positions@),
    ensures
        match lp_decrease_outcome(
            old(state).liquidity_positions@,
            old(state).global_liquidity_position,
            old(state).global_position,
            *parameter,
        ) {
            Err(e) => {
                &&& r == Err::<(u128, u128), ErrorCode>(e)
                &&& final(state).liquidity_positions@ == old(state).liquidity_positions@
                &&& final(state).global_liquidity_position == old(state).global_liquidity_position
            },
            Ok(out) => {
                &&& r == Ok::<(u128, u128), ErrorCode>(out.2)
                &&& final(state).liquidity_positions@ == (match out.0 {
                    Some(pos) => old(state).liquidity_positions@.insert(parameter.account, pos),
                    None => old(state).liquidity_positions@.remove(parameter.account),
                })
                &&& final(state).global_liquidity_position.liquidity == out.1
                &&& glp_non_liquidity_fields_eq(
                    old(state).global_liquidity_position,
                    final(state).global_liquidity_position,
                )
            },
        },
        r matches Ok(v) ==> final(state).global_liquidity_position.liquidity == old(
            state,
        ).global_liquidity_position.liquidity - parameter.liquidity_delta,
        lp_op_frame(*old(state), *final(state)),
        final(state).global_liquidation_fund == old(state).global_liquidation_fund,
        liquidity_positions_wf(final(state).liquidity_positions@),
{
    let glp = state.global_liquidity_position;
    let pos = match state.liquidity_positions.get(&parameter.account) {
        Some(existing) => *existing,
        None => {
            return Err(ErrorCode::LiquidityPositionNotFound);
        },
    };
    if pos.liquidity < parameter.liquidity_delta {
        return Err(ErrorCode::InsufficientLiquidityToDecrease);
    }
    let pnl = match calculate_realized_pnl(&glp, &pos) {
        Ok(v) => v,
        Err(e) => {
            return Err(e);
        },
    };
    let settled: u128 = if pnl >= 0 {
        match pos.margin.checked_add(pnl as u128) {
            Some(v) => v,
            None => {
                return Err(ErrorCode::Overflow);
            },
        }
    } else {
        let magnitude: u128 = if pnl == i128::MIN {
            i128::MAX as u128 + 1
        } else {
            (-pnl) as u128
        };
        if magnitude > pos.margin {
            return Err(ErrorCode::InsufficientMargin);
        }
        pos.margin - magnitude
    };
    if parameter.margin_delta > settled {
        return Err(ErrorCode::InsufficientMargin);
    }
    let margin_after = settled - parameter.margin_delta;
    let liquidity_after = pos.liquidity - parameter.liquidity_delta;
    if parameter.liquidity_delta > 0 {
        match decrease_global_liquidity(
            &mut state.global_liquidity_position,
            &state.global_position,
            parameter.liquidity_delta,
        ) {
            Ok(u) => u,
            Err(e) => {
                return Err(e);
            },
        };
    }
    if liquidity_after == 0 {
        state.liquidity_positions.remove(&parameter.account);
    } else {
        state.liquidity_positions.insert(
            parameter.account,
            LiquidityPosition {
                margin: margin_after,
                liquidity: liquidity_after,
                entry_unrealized_pnl_growth_x64: glp.unrealized_pnl_growth_x64,
            },
        );
    }
    Ok((margin_after, parameter.margin_delta))
}

/// What liquidating a liquidity position yields: the pool liquidity after
/// the stake is pulled, the growth accumulator after any deficit is spread
/// over the remaining LPs, the liquidation fund after any surplus or
/// terminal loss is booked, and the execution fee owed to the keeper.
pub open spec fn lp_liquidate_outcome(
    positions: Map<u64, LiquidityPosition>,
    glp: GlobalLiquidityPosition,
    gp: GlobalPosition,
    fund: i128,
    cfg: MarketBaseConfig,
    account: u64,
) -> Result<(u128, i128, i128, u64), ErrorCode> {
    if !positions.contains_key(account) {
        Err(ErrorCode::LiquidityPositionNotFound)
    } else {
        let pos = positions[account];
        match realized_pnl_result(glp, pos) {
            Err(e) => Err(e),
            Ok(pnl) => if pos.margin > i128::MAX {
                Err(ErrorCode::Overflow)
            } else if pos.margin + pnl > i128::MAX {
                Err(ErrorCode::Overflow)
            } else {
                let margin_settled = pos.margin + pnl;
                match lp_risk_validation(cfg, margin_settled as i128, pos.liquidity, true) {
                    Err(e) => Err(e),
                    Ok(u) => match crate::global::decrease_global_liquidity_result(
                        glp.liquidity,
                        gp,
                        pos.liquidity,
                    ) {
                        Err(e) => Err(e),
                        Ok(global_liquidity_after) => if margin_settled
                            - cfg.liquidation_execution_fee < i128::MIN {
                            Err(ErrorCode::Overflow)
                        } else {
                            let margin_remaining = margin_settled
                                - cfg.liquidation_execution_fee;
                            if margin_remaining >= 0 {
                                if fund + margin_remaining > i128::MAX {
                                    Err(ErrorCode::Overflow)
                                } else {
                                    Ok(
                                        (
                                            global_liquidity_after,
                                            glp.unrealized_pnl_growth_x64,
                                            (fund + margin_remaining) as i128,
                                            cfg.liquidation_execution_fee,
                                        ),
                                    )
                                }
                            } else if global_liquidity_after > 0 {
                                match mul_div_up_result(
                                    (-margin_remaining) as u128,
                                    Q64,
                                    global_liquidity_after,
                                ) {
                                    Err(e) => Err(e),
                                    Ok(per_unit_loss) => if glp.unrealized_pnl_growth_x64
                                        - per_unit_loss < i128::MIN {
                                        Err(ErrorCode::Overflow)
                                    } else {
                                        Ok(
                                            (
                                                global_liquidity_after,
                                                (glp.unrealized_pnl_growth_x64
                                                    - per_unit_loss) as i128,
                                                fund,
                                                cfg.liquidation_execution_fee,
                                            ),
                                        )
                                    },
                                }
                            } else {
                                if fund + margin_remaining < i128::MIN {
                                    Err(ErrorCode::Overflow)
                                } else {
                                    Ok(
                                        (
                                            global_liquidity_after,
                                            glp.unrealized_pnl_growth_x64,
                                            (fund + margin_remaining) as i128,
                                            cfg.liquidation_execution_fee,
                                        ),
                                    )
                                }
                            }
                        },
                    },
                }
            },
        }
    }
}

/// Forcibly closes a liquidity position that has breached maintenance
/// margin.
///
/// Realized PnL is settled, the liquidation-path risk check must pass, the
/// full stake is pulled from the pool (subject to the last-LP guard) and
/// the execution fee is deducted.  A remaining surplus is banked into the
/// liquidation fund; a deficit is spread over the remaining LPs through the
/// growth accumulator, rounded against them, or booked as a fund loss when
/// no liquidity remains.  The position record is deleted.  On failure the
/// market state is exactly what it was.
pub fn liquidate_liquidity_position(
    state: &mut State,
    base_cfg: &MarketBaseConfig,
    account: u64,
) -> (r: Result<u64, ErrorCode>)
    requires
        liquidity_positions_wf(old(state).liquidity_positions@),
    ensures
        match lp_liquidate_outcome(
            old(state).liquidity_positions@,
            old(state).global_liquidity_position,
            old(state).global_position,
            old(state).global_liquidation_fund.liquidation_fund,
            *base_cfg,
            account,
        ) {
            Err(e) => {
                &&& r == Err::<u64, ErrorCode>(e)
                &&& final(state).liquidity_positions@ == old(state).liquidity_positions@
                &&& final(state).global_liquidity_position == old(state).global_liquidity_position
                &&& final(state).global_liquidation_fund == old(state).global_liquidation_fund
            },
            Ok(out) => {
                &&& r == Ok::<u64, ErrorCode>(out.3)
                &&& final(state).liquidity_positions@ == old(state).liquidity_positions@.remove(
                    account,
                )
                &&& final(state).global_liquidity_position.liquidity == out.0
                &&& final(state).global_liquidity_position.unrealized_pnl_growth_x64 == out.1
                &&& final(state).global_liquidation_fund.liquidation_fund == out.2
                &&& final(state).global_liquidation_fund.liquidity == old(
                    state,
                ).global_liquidation_fund.liquidity
                &&& final(state).global_liquidity_position.net_size == old(
                    state,
                ).global_liquidity_position.net_size
                &&& final(state).global_liquidity_position.liquidation_buffer_net_size == old(
                    state,
                ).global_liquidity_position.liquidation_buffer_net_size
                &&& final(state).global_liquidity_position.previous_sp_price_x96 == old(
                    state,
                ).global_liquidity_position.previous_sp_price_x96
                &&& final(state).global_liquidity_position.side == old(
                    state,
                ).global_liquidity_position.side
            },
        },
        lp_op_frame(*old(state), *final(state)),
        liquidity_positions_wf(final(state).liquidity_positions@),
{
    let glp = state.global_liquidity_position;
    let pos = match state.liquidity_positions.get(&account) {
        Some(existing) => *existing,
        None => {
            return Err(ErrorCode::LiquidityPositionNotFound);
        },
    };
    let pnl = match calculate_realized_pnl(&glp, &pos) {
        Ok(v) => v,
        Err(e) => {
            return Err(e);
        },
    };
    if pos.margin > i128::MAX as u128 {
        return Err(ErrorCode::Overflow);
    }
    let margin_settled = match (pos.margin as i128).checked_add(pnl) {
        Some(v) => v,
        None => {
            return Err(ErrorCode::Overflow);
        },
    };
    match validate_liquidity_position_risk_rate(base_cfg, margin_settled, pos.liquidity, true) {
        Ok(u) => u,
        Err(e) => {
            return Err(e);
        },
    };
    match decrease_global_liquidity(
        &mut state.global_liquidity_position,
        &state.global_position,
        pos.liquidity,
    ) {
        Ok(u) => u,
        Err(e) => {
            return Err(e);
        },
    };
    let global_liquidity_after = state.global_liquidity_position.liquidity;
    let margin_remaining = match margin_settled.checked_sub(
        base_cfg.liquidation_execution_fee as i128,
    ) {
        Some(v) => v,
        None => {
            state.global_liquidity_position.liquidity = glp.liquidity;
            return Err(ErrorCode::Overflow);
        },
    };
    if margin_remaining >= 0 {
        let fund_after = match state.global_liquidation_fund.liquidation_fund.checked_add(
            margin_remaining,
        ) {
            Some(v) => v,
            None => {
                state.global_liquidity_position.liquidity = glp.liquidity;
                return Err(ErrorCode::Overflow);
            },
        };
        state.global_liquidation_fund.liquidation_fund = fund_after;
    } else {
        let loss: u128 = if margin_remaining == i128::MIN {
            i128::MAX as u128 + 1
        } else {
            (-margin_remaining) as u128
        };
        if global_liquidity_after > 0 {
            let per_unit_loss = match mul_div_up(loss, Q64, global_liquidity_after) {
                Ok(v) => v,
                Err(e) => {
                    state.global_liquidity_position.liquidity = glp.liquidity;
                    return Err(e);
                },
            };
            let growth_after = match state
                .global_liquidity_position
                .unrealized_pnl_growth_x64
                .checked_sub_unsigned(per_unit_loss) {
                Some(v) => v,
                None => {
                    state.global_liquidity_position.liquidity = glp.liquidity;
                    return Err(ErrorCode::Overflow);
                },
            };
            state.global_liquidity_position.unrealized_pnl_growth_x64 = growth_after;
        } else {
            let fund_after = match state.global_liquidation_fund.liquidation_fund.checked_add(
                margin_remaining,
            ) {
                Some(v) => v,
                None => {
                    state.global_liquidity_position.liquidity = glp.liquidity;
                    return Err(ErrorCode::Overflow);
                },
            };
            state.global_liquidation_fund.liquidation_fund = fund_after;
        }
    }
    state.liquidity_positions.remove(&account);
    Ok(base_cfg.liquidation_execution_fee)
}

/// One liquidity operation with zero realized PnL, applied to the pair of
/// (position liquidity, pool liquidity): an increase adds its delta to
/// both, a decrease removes it from both.
pub open spec fn liquidity_step(balances: (int, int), op: (bool, int)) -> (int, int) {
    if op.0 {
        (balances.0 + op.1, balances.1 + op.1)
    } else {
        (balances.0 - op.1, balances.1 - op.1)
    }
}

/// A sequence of liquidity operations applied in order.
pub open spec fn apply_liquidity_ops(balances: (int, int), ops: Seq<(bool, int)>) -> (int, int)
    decreases ops.len(),
{
    if ops.len() == 0 {
        balances
    } else {
        apply_liquidity_ops(liquidity_step(balances, ops[0]), ops.drop_first())
    }
}

/// The signed sum of the deltas of a sequence of liquidity operations.
pub open spec fn signed_liquidity_sum(ops: Seq<(bool, int)>) -> int
    decreases ops.len(),
{
    if ops.len() == 0 {
        0
    } else {
        (if ops[0].0 {
            ops[0].1
        } else {
            -ops[0].1
        }) + signed_liquidity_sum(ops.drop_first())
    }
}

/// Conservation of liquidity: over any sequence of increases and decreases
/// on a single liquidity position, the position's final liquidity is its
/// initial liquidity plus the signed sum of the deltas, and the pool's
/// liquidity tracks exactly the same sum.  Each successful
/// `increase_liquidity_position` and `decrease_liquidity_position` call
/// performs one `liquidity_step`, as their contracts state.
pub proof fn lemma_liquidity_conservation(balances: (int, int), ops: Seq<(bool, int)>)
    ensures
        apply_liquidity_ops(balances, ops).0 == balances.0 + signed_liquidity_sum(ops),
        apply_liquidity_ops(balances, ops).1 == balances.1 + signed_liquidity_sum(ops),
    decreases ops.len(),
{
    if ops.len() > 0 {
        lemma_liquidity_conservation(liquidity_step(balances, ops[0]), ops.drop_first());
    }
}

} // verus!
