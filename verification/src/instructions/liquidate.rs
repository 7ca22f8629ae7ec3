//! Forced closing of a position that exceeds the allowed leverage.

use crate::error::PerpetualsError;
use crate::instructions::get_exit_price_and_fee::settles_in_collateral;
use crate::instructions::remove_collateral::shares_custody;
use crate::state::custody::{Assets, Custody, FeesStats, TradeStats, VolumeStats};
use crate::state::oracle::{CustomOracle, OraclePrice, PriceFeed};
use crate::state::perpetuals::Permissions;
use crate::state::pool::PoolPolicy;
use crate::state::position::{Position, Side};
use vstd::prelude::*;

verus! {

/// The records and feed readings that the liquidation reads.
#[derive(Copy, Clone, PartialEq, Eq, Debug)]
pub struct Liquidate {
    /// Protocol-wide permission flags.
    pub permissions: Permissions,
    /// Current time, in seconds.
    pub curtime: i64,
    pub position: Position,
    pub custody: Custody,
    pub custody_oracle_account: Option<PriceFeed>,
    pub custody_custom_oracle_account: Option<CustomOracle>,
    pub collateral_custody: Custody,
    pub collateral_custody_oracle_account: Option<PriceFeed>,
    pub collateral_custody_custom_oracle_account: Option<CustomOracle>,
}

#[derive(Copy, Clone, PartialEq, Eq, Debug)]
pub struct LiquidateParams {}

/// The pool's figures for a forced close.
#[derive(Copy, Clone, PartialEq, Eq, Debug)]
pub struct CloseAmount {
    /// Collateral tokens that leave the position.
    pub total_amount_out: u64,
    /// Fee, in asset tokens.
    pub fee_amount: u64,
    pub profit_usd: u64,
    pub loss_usd: u64,
}

/// The custody records as a liquidation leaves them, and what it pays out.
/// The position itself no longer exists.
#[derive(Copy, Clone, PartialEq, Eq, Debug)]
pub struct Liquidation {
    pub custody: Custody,
    pub collateral_custody: Custody,
    /// Fee in the units the position pays it in.
    pub fee_amount: u64,
    pub fee_amount_usd: u64,
    /// Tokens to move from the collateral custody to the liquidator.
    pub reward: u64,
    /// What is left of the amount out after the reward. It stays in the
    /// collateral custody.
    pub remaining_amount: u64,
}

/// Whether both the protocol and the custody allow positions to be closed.
pub open spec fn liquidation_allowed(ctx: Liquidate) -> bool {
    ctx.permissions.allow_close_position && ctx.custody.permissions.allow_close_position
}

/// The fee of a forced close as `(value in USD, amount charged)`. The value
/// is taken at the asset's highest price; where the position pays in
/// collateral, the amount is that value converted at the collateral's lowest
/// price.
pub open spec fn liquidation_fee(
    fee_amount: u64,
    side: Side,
    custody: Custody,
    token_max_price: OraclePrice,
    collateral_custody: Custody,
    collateral_token_min_price: OraclePrice,
) -> Result<(u64, u64), PerpetualsError> {
    match token_max_price.asset_amount_usd(fee_amount, custody.decimals) {
        Err(e) => Err(e),
        Ok(fee_amount_usd) => if settles_in_collateral(side, custody) {
            match collateral_token_min_price.token_amount(
                fee_amount_usd,
                collateral_custody.decimals,
            ) {
                Err(e) => Err(e),
                Ok(charged) => Ok((fee_amount_usd, charged)),
            }
        } else {
            Ok((fee_amount_usd, fee_amount))
        },
    }
}

/// The liquidator's reward and what it leaves of the amount out, `(reward,
/// remaining)`. The reward is converted at the collateral's highest price.
pub open spec fn liquidation_reward(
    reward_usd: u64,
    collateral_token_max_price: OraclePrice,
    decimals: u8,
    total_amount_out: u64,
) -> Result<(u64, u64), PerpetualsError> {
    match collateral_token_max_price.token_amount(reward_usd, decimals) {
        Err(e) => Err(e),
        Ok(reward) => if reward > total_amount_out {
            Err(PerpetualsError::MathOverflow)
        } else {
            Ok((reward, (total_amount_out - reward) as u64))
        },
    }
}

/// Sum of two counters that are allowed to wrap.
pub open spec fn wrapped_sum(a: u64, b: u64) -> u64 {
    ((a + b) % 0x1_0000_0000_0000_0000) as u64
}

/// The collateral custody once the position's balances are booked out: the
/// fee revenue counter advanced (wrapping), the pool's own tokens changed by
/// the difference between the position's collateral and the amount out, and
/// the posted collateral reduced by the position's collateral.
pub open spec fn custody_after_liquidation(
    collateral_custody: Custody,
    position: Position,
    total_amount_out: u64,
    fee_amount_usd: u64,
) -> Result<Custody, PerpetualsError> {
    let owned = collateral_custody.assets.owned + position.collateral_amount - total_amount_out;
    if owned < 0 || owned > u64::MAX || position.collateral_amount
        > collateral_custody.assets.collateral {
        Err(PerpetualsError::MathOverflow)
    } else {
        Ok(
            Custody {
                collected_fees: FeesStats {
                    liquidation_usd: wrapped_sum(
                        collateral_custody.collected_fees.liquidation_usd,
                        fee_amount_usd,
                    ),
                    ..collateral_custody.collected_fees
                },
                assets: Assets {
                    owned: owned as u64,
                    collateral: (collateral_custody.assets.collateral
                        - position.collateral_amount) as u64,
                    ..collateral_custody.assets
                },
                ..collateral_custody
            },
        )
    }
}

/// The custody once the protocol's share of the fee is set aside, which
/// happens only where the pool says the custody can spare it.
pub open spec fn custody_after_protocol_fee(
    custody: Custody,
    protocol_fee: u64,
    available: bool,
) -> Result<Custody, PerpetualsError> {
    if !available {
        Ok(custody)
    } else if custody.assets.protocol_fees + protocol_fee > u64::MAX || protocol_fee
        > custody.assets.owned {
        Err(PerpetualsError::MathOverflow)
    } else {
        Ok(
            Custody {
                assets: Assets {
                    protocol_fees: (custody.assets.protocol_fees + protocol_fee) as u64,
                    owned: (custody.assets.owned - protocol_fee) as u64,
                    ..custody.assets
                },
                ..custody
            },
        )
    }
}

/// A custody's statistics once a liquidated position is taken off them: the
/// liquidated volume grows (checked), the open interest of the position's
/// side shrinks by `size` and stops at zero, and the profit and loss counters
/// advance (wrapping).
pub open spec fn custody_after_close(
    custody: Custody,
    position: Position,
    size: u64,
    profit_usd: u64,
    loss_usd: u64,
) -> Result<Custody, PerpetualsError> {
    if custody.volume_stats.liquidation_usd + position.size_usd > u64::MAX {
        Err(PerpetualsError::MathOverflow)
    } else {
        Ok(
            Custody {
                volume_stats: VolumeStats {
                    liquidation_usd: (custody.volume_stats.liquidation_usd
                        + position.size_usd) as u64,
                    ..custody.volume_stats
                },
                trade_stats: TradeStats {
                    oi_long: if position.side == Side::Long {
                        if size > custody.trade_stats.oi_long {
                            0
                        } else {
                            (custody.trade_stats.oi_long - size) as u64
                        }
                    } else {
                        custody.trade_stats.oi_long
                    },
                    oi_short: if position.side == Side::Long {
                        custody.trade_stats.oi_short
                    } else if size > custody.trade_stats.oi_short {
                        0
                    } else {
                        (custody.trade_stats.oi_short - size) as u64
                    },
                    profit_usd: wrapped_sum(custody.trade_stats.profit_usd, profit_usd),
                    loss_usd: wrapped_sum(custody.trade_stats.loss_usd, loss_usd),
                },
                ..custody
            },
        )
    }
}

/// The records after a liquidation that passed every check. `booked` is the
/// collateral custody with the position's balances booked out.
pub open spec fn settled_liquidation(
    ctx: Liquidate,
    booked: Custody,
    protocol_fee: u64,
    available: bool,
    close: CloseAmount,
    fees: (u64, u64),
    payout: (u64, u64),
) -> Result<Liquidation, PerpetualsError> {
    match custody_after_protocol_fee(booked, protocol_fee, available) {
        Err(e) => Err(e),
        Ok(skimmed) => match ctx.position.entry_price().token_amount(
            ctx.position.size_usd,
            ctx.custody.decimals,
        ) {
            Err(e) => Err(e),
            Ok(size) => match custody_after_close(
                if shares_custody(ctx.position.side, ctx.custody) {
                    skimmed
                } else {
                    ctx.custody
                },
                ctx.position,
                size,
                close.profit_usd,
                close.loss_usd,
            ) {
                Err(e) => Err(e),
                Ok(closed) => Ok(
                    Liquidation {
                        custody: closed,
                        collateral_custody: if shares_custody(ctx.position.side, ctx.custody) {
                            closed
                        } else {
                            skimmed
                        },
                        fee_amount: fees.1,
                        fee_amount_usd: fees.0,
                        reward: payout.0,
                        remaining_amount: payout.1,
                    },
                ),
            },
        },
    }
}

/// Where the asset custody and the collateral custody are two copies of one
/// record, a liquidation leaves the two copies identical.
pub open spec fn copies_agree(ctx: Liquidate, done: Liquidation) -> bool {
    shares_custody(ctx.position.side, ctx.custody) ==> done.custody == done.collateral_custody
}

/// What `liquidate` may return once the amounts are known.
pub open spec fn liquidation_settlement<P: PoolPolicy>(
    ctx: Liquidate,
    pool: &P,
    close: CloseAmount,
    fees: (u64, u64),
    payout: (u64, u64),
    r: Result<Liquidation, PerpetualsError>,
) -> bool {
    exists|available: Result<bool, PerpetualsError>|
        {
            &&& #[trigger] call_ensures(
                P::check_available_amount,
                (
                    pool,
                    close.total_amount_out,
                    &ctx.collateral_custody.unlocked(ctx.position.locked_amount),
                ),
                available,
            )
            &&& match available {
                Err(e) => r == Err::<Liquidation, PerpetualsError>(e),
                Ok(false) => r == Err::<Liquidation, PerpetualsError>(
                    PerpetualsError::CustodyAmountLimit,
                ),
                Ok(true) => match custody_after_liquidation(
                    ctx.collateral_custody.unlocked(ctx.position.locked_amount),
                    ctx.position,
                    close.total_amount_out,
                    fees.0,
                ) {
                    Err(e) => r == Err::<Liquidation, PerpetualsError>(e),
                    Ok(booked) => exists|protocol_fee: Result<u64, PerpetualsError>|
                        {
                            &&& #[trigger] call_ensures(
                                P::get_fee_amount,
                                (pool, ctx.custody.fees.protocol_share, fees.1),
                                protocol_fee,
                            )
                            &&& match protocol_fee {
                                Err(e) => r == Err::<Liquidation, PerpetualsError>(e),
                                Ok(protocol_fee) => exists|spare: Result<bool, PerpetualsError>|
                                    {
                                        &&& #[trigger] call_ensures(
                                            P::check_available_amount,
                                            (pool, protocol_fee, &booked),
                                            spare,
                                        )
                                        &&& match spare {
                                            Err(e) => r == Err::<Liquidation, PerpetualsError>(e),
                                            Ok(spare) => r == settled_liquidation(
                                                ctx,
                                                booked,
                                                protocol_fee,
                                                spare,
                                                close,
                                                fees,
                                                payout,
                                            ),
                                        }
                                    },
                            }
                        },
                },
            }
        }
}

/// What `liquidate` may return once the pool has found the position beyond
/// the allowed leverage.
pub open spec fn liquidation_of_position<P: PoolPolicy>(
    ctx: Liquidate,
    pool: &P,
    token: (OraclePrice, OraclePrice, bool),
    collateral: (OraclePrice, OraclePrice, bool),
    r: Result<Liquidation, PerpetualsError>,
) -> bool {
    exists|amounts: Result<(u64, u64, u64, u64), PerpetualsError>|
        {
            &&& #[trigger] call_ensures(
                P::get_close_amount,
                (
                    pool,
                    &ctx.position,
                    &token.0,
                    &token.1,
                    &ctx.custody,
                    &collateral.0,
                    &collateral.1,
                    &ctx.collateral_custody,
                    ctx.curtime,
                    true,
                ),
                amounts,
            )
            &&& match amounts {
                Err(e) => r == Err::<Liquidation, PerpetualsError>(e),
                Ok((total_amount_out, fee_amount, profit_usd, loss_usd)) => match liquidation_fee(
                    fee_amount,
                    ctx.position.side,
                    ctx.custody,
                    token.1,
                    ctx.collateral_custody,
                    collateral.0,
                ) {
                    Err(e) => r == Err::<Liquidation, PerpetualsError>(e),
                    Ok(fees) => exists|reward_usd: Result<u64, PerpetualsError>|
                        {
                            &&& #[trigger] call_ensures(
                                P::get_fee_amount,
                                (pool, ctx.custody.fees.liquidation, ctx.position.size_usd),
                                reward_usd,
                            )
                            &&& match reward_usd {
                                Err(e) => r == Err::<Liquidation, PerpetualsError>(e),
                                Ok(reward_usd) => match liquidation_reward(
                                    reward_usd,
                                    collateral.1,
                                    ctx.collateral_custody.decimals,
                                    total_amount_out,
                                ) {
                                    Err(e) => r == Err::<Liquidation, PerpetualsError>(e),
                                    Ok(payout) => liquidation_settlement(
                                        ctx,
                                        pool,
                                        CloseAmount {
                                            total_amount_out,
                                            fee_amount,
                                            profit_usd,
                                            loss_usd,
                                        },
                                        fees,
                                        payout,
                                        r,
                                    ),
                                },
                            }
                        },
                },
            }
        }
}

/// What `liquidate` may return once both bands are known. Whether a band is
/// close-only plays no part.
pub open spec fn liquidation_at_prices<P: PoolPolicy>(
    ctx: Liquidate,
    pool: &P,
    token: (OraclePrice, OraclePrice, bool),
    collateral: (OraclePrice, OraclePrice, bool),
    r: Result<Liquidation, PerpetualsError>,
) -> bool {
    exists|within: Result<bool, PerpetualsError>|
        {
            &&& #[trigger] call_ensures(
                P::check_leverage,
                (
                    pool,
                    &ctx.position,
                    &token.0,
                    &token.1,
                    &ctx.custody,
                    &collateral.0,
                    &collateral.1,
                    &ctx.collateral_custody,
                    ctx.curtime,
                    false,
                ),
                within,
            )
            &&& match within {
                Err(e) => r == Err::<Liquidation, PerpetualsError>(e),
                Ok(true) => r == Err::<Liquidation, PerpetualsError>(
                    PerpetualsError::InvalidPositionState,
                ),
                Ok(false) => liquidation_of_position(ctx, pool, token, collateral, r),
            }
        }
}

/// What `liquidate` may return.
pub open spec fn liquidation_outcome<P: PoolPolicy>(
    ctx: Liquidate,
    pool: &P,
    r: Result<Liquidation, PerpetualsError>,
) -> bool {
    if !liquidation_allowed(ctx) {
        r == Err::<Liquidation, PerpetualsError>(PerpetualsError::InstructionNotAllowed)
    } else {
        match ctx.custody.band(ctx.custody_oracle_account, ctx.curtime) {
            Err(e) => r == Err::<Liquidation, PerpetualsError>(e),
            Ok(token) => match ctx.collateral_custody.band(
                ctx.collateral_custody_oracle_account,
                ctx.curtime,
            ) {
                Err(e) => r == Err::<Liquidation, PerpetualsError>(e),
                Ok(collateral) => liquidation_at_prices(ctx, pool, token, collateral, r),
            },
        }
    }
}

/// Values the fee of a forced close and states it in the units the position
/// pays it in.
pub fn get_liquidation_fee(
    fee_amount: u64,
    side: Side,
    custody: &Custody,
    token_max_price: &OraclePrice,
    collateral_custody: &Custody,
    collateral_token_min_price: &OraclePrice,
) -> (r: Result<(u64, u64), PerpetualsError>)
    ensures
        r == liquidation_fee(
            fee_amount,
            side,
            *custody,
            *token_max_price,
            *collateral_custody,
            *collateral_token_min_price,
        ),
{
    let fee_amount_usd = match token_max_price.get_asset_amount_usd(fee_amount, custody.decimals) {
        Ok(v) => v,
        Err(e) => { return Err(e); },
    };
    if side == Side::Short || custody.is_virtual {
        match collateral_token_min_price.get_token_amount(
            fee_amount_usd,
            collateral_custody.decimals,
        ) {
            Ok(charged) => Ok((fee_amount_usd, charged)),
            Err(e) => Err(e),
        }
    } else {
        Ok((fee_amount_usd, fee_amount))
    }
}

/// Converts the liquidator's reward into collateral tokens and takes it off
/// the amount out.
pub fn get_liquidation_reward(
    reward_usd: u64,
    collateral_token_max_price: &OraclePrice,
    decimals: u8,
    total_amount_out: u64,
) -> (r: Result<(u64, u64), PerpetualsError>)
    ensures
        r == liquidation_reward(reward_usd, *collateral_token_max_price, decimals, total_amount_out),
{
    let reward = match collateral_token_max_price.get_token_amount(reward_usd, decimals) {
        Ok(v) => v,
        Err(e) => { return Err(e); },
    };
    match total_amount_out.checked_sub(reward) {
        Some(remaining_amount) => Ok((reward, remaining_amount)),
        None => Err(PerpetualsError::MathOverflow),
    }
}

/// Books the balances of a liquidated position out of its collateral custody.
pub fn book_liquidation(
    collateral_custody: &Custody,
    position: &Position,
    total_amount_out: u64,
    fee_amount_usd: u64,
) -> (r: Result<Custody, PerpetualsError>)
    ensures
        r == custody_after_liquidation(
            *collateral_custody,
            *position,
            total_amount_out,
            fee_amount_usd,
        ),
{
    let mut custody = *collateral_custody;
    custody.collected_fees.liquidation_usd = custody.collected_fees.liquidation_usd.wrapping_add(
        fee_amount_usd,
    );
    if total_amount_out > position.collateral_amount {
        let amount_lost = total_amount_out - position.collateral_amount;
        custody.assets.owned = match custody.assets.owned.checked_sub(amount_lost) {
            Some(v) => v,
            None => { return Err(PerpetualsError::MathOverflow); },
        };
    } else {
        let amount_gained = position.collateral_amount - total_amount_out;
        custody.assets.owned = match custody.assets.owned.checked_add(amount_gained) {
            Some(v) => v,
            None => { return Err(PerpetualsError::MathOverflow); },
        };
    }
    custody.assets.collateral = match custody.assets.collateral.checked_sub(
        position.collateral_amount,
    ) {
        Some(v) => v,
        None => { return Err(PerpetualsError::MathOverflow); },
    };
    Ok(custody)
}

/// Sets the protocol's share of a fee aside, where the custody can spare it.
pub fn set_protocol_fee_aside(custody: &Custody, protocol_fee: u64, available: bool) -> (r: Result<
    Custody,
    PerpetualsError,
>)
    ensures
        r == custody_after_protocol_fee(*custody, protocol_fee, available),
{
    let mut custody = *custody;
    if available {
        custody.assets.protocol_fees = match custody.assets.protocol_fees.checked_add(
            protocol_fee,
        ) {
            Some(v) => v,
            None => { return Err(PerpetualsError::MathOverflow); },
        };
        custody.assets.owned = match custody.assets.owned.checked_sub(protocol_fee) {
            Some(v) => v,
            None => { return Err(PerpetualsError::MathOverflow); },
        };
    }
    Ok(custody)
}

/// Takes a liquidated position off a custody's statistics.
pub fn close_position_stats(
    custody: &Custody,
    position: &Position,
    size: u64,
    profit_usd: u64,
    loss_usd: u64,
) -> (r: Result<Custody, PerpetualsError>)
    ensures
        r == custody_after_close(*custody, *position, size, profit_usd, loss_usd),
{
    let mut custody = *custody;
    custody.volume_stats.liquidation_usd = match custody.volume_stats.liquidation_usd.checked_add(
        position.size_usd,
    ) {
        Some(v) => v,
        None => { return Err(PerpetualsError::MathOverflow); },
    };
    if position.side == Side::Long {
        custody.trade_stats.oi_long = custody.trade_stats.oi_long.saturating_sub(size);
    } else {
        custody.trade_stats.oi_short = custody.trade_stats.oi_short.saturating_sub(size);
    }
    custody.trade_stats.profit_usd = custody.trade_stats.profit_usd.wrapping_add(profit_usd);
    custody.trade_stats.loss_usd = custody.trade_stats.loss_usd.wrapping_add(loss_usd);
    Ok(custody)
}

/// Completes a liquidation whose checks have all passed: sets the protocol's
/// fee share aside, takes the position off the open interest at its entry
/// price, and keeps the two custody records identical where they are copies
/// of one record.
pub fn settle_liquidation(
    ctx: &Liquidate,
    booked: &Custody,
    protocol_fee: u64,
    available: bool,
    close: &CloseAmount,
    fees: (u64, u64),
    payout: (u64, u64),
) -> (r: Result<Liquidation, PerpetualsError>)
    ensures
        r == settled_liquidation(*ctx, *booked, protocol_fee, available, *close, fees, payout),
        r matches Ok(done) ==> copies_agree(*ctx, done),
{
    let skimmed = match set_protocol_fee_aside(booked, protocol_fee, available) {
        Ok(v) => v,
        Err(e) => { return Err(e); },
    };
    let position_oracle_price = ctx.position.get_entry_price();
    let size = match position_oracle_price.get_token_amount(
        ctx.position.size_usd,
        ctx.custody.decimals,
    ) {
        Ok(v) => v,
        Err(e) => { return Err(e); },
    };
    if ctx.position.side == Side::Long && !ctx.custody.is_virtual {
        let closed = match close_position_stats(
            &skimmed,
            &ctx.position,
            size,
            close.profit_usd,
            close.loss_usd,
        ) {
            Ok(v) => v,
            Err(e) => { return Err(e); },
        };
        Ok(
            Liquidation {
                custody: closed,
                collateral_custody: closed,
                fee_amount: fees.1,
                fee_amount_usd: fees.0,
                reward: payout.0,
                remaining_amount: payout.1,
            },
        )
    } else {
        let closed = match close_position_stats(
            &ctx.custody,
            &ctx.position,
            size,
            close.profit_usd,
            close.loss_usd,
        ) {
            Ok(v) => v,
            Err(e) => { return Err(e); },
        };
        Ok(
            Liquidation {
                custody: closed,
                collateral_custody: skimmed,
                fee_amount: fees.1,
                fee_amount_usd: fees.0,
                reward: payout.0,
                remaining_amount: payout.1,
            },
        )
    }
}

/// The second half of a liquidation: releases the position's reservation,
/// requires that the collateral custody can pay the amount out, books the
/// position out and settles.
fn pay_out_liquidation<P: PoolPolicy>(
    ctx: &Liquidate,
    pool: &P,
    close: &CloseAmount,
    fees: (u64, u64),
    payout: (u64, u64),
) -> (r: Result<Liquidation, PerpetualsError>)
    ensures
        liquidation_settlement(*ctx, pool, *close, fees, payout, r),
        r matches Ok(done) ==> copies_agree(*ctx, done),
{
    let mut collateral_custody = ctx.collateral_custody;
    collateral_custody.unlock_funds(ctx.position.locked_amount);
    let available = match pool.check_available_amount(close.total_amount_out, &collateral_custody) {
        Ok(v) => v,
        Err(e) => { return Err(e); },
    };
    if !available {
        return Err(PerpetualsError::CustodyAmountLimit);
    }
    let booked = match book_liquidation(
        &collateral_custody,
        &ctx.position,
        close.total_amount_out,
        fees.0,
    ) {
        Ok(v) => v,
        Err(e) => { return Err(e); },
    };
    let protocol_fee = match pool.get_fee_amount(ctx.custody.fees.protocol_share, fees.1) {
        Ok(v) => v,
        Err(e) => { return Err(e); },
    };
    let spare = match pool.check_available_amount(protocol_fee, &booked) {
        Ok(v) => v,
        Err(e) => { return Err(e); },
    };
    settle_liquidation(ctx, &booked, protocol_fee, spare, close, fees, payout)
}

/// Liquidates a position.
///
/// The steps, in order: both permission flags; both price bands, close-only
/// or not; the pool must find the position beyond the allowed leverage; the
/// pool's close amounts, the fee and the liquidator's reward; the position's
/// reservation is released and the collateral custody must be able to pay the
/// amount out; the custody records are updated. Nothing is changed in place:
/// on success the caller stores the returned records, deletes the position
/// and moves `reward` to the liquidator; on failure there is nothing to undo.
pub fn liquidate<P: PoolPolicy>(ctx: &Liquidate, _params: &LiquidateParams, pool: &P) -> (r: Result<
    Liquidation,
    PerpetualsError,
>)
    ensures
        liquidation_outcome(*ctx, pool, r),
        !liquidation_allowed(*ctx) ==> r == Err::<Liquidation, PerpetualsError>(
            PerpetualsError::InstructionNotAllowed,
        ),
        r matches Ok(done) ==> copies_agree(*ctx, done),
{
    if !(ctx.permissions.allow_close_position && ctx.custody.permissions.allow_close_position) {
        return Err(PerpetualsError::InstructionNotAllowed);
    }
    let curtime = ctx.curtime;
    let (token_min_price, token_max_price, _) = match OraclePrice::new_from_oracle(
        &ctx.custody_oracle_account,
        &ctx.custody.oracle,
        curtime,
        &ctx.custody_custom_oracle_account,
        ctx.custody.is_stable,
    ) {
        Ok(v) => v,
        Err(e) => { return Err(e); },
    };
    let (collateral_token_min_price, collateral_token_max_price, _) =
        match OraclePrice::new_from_oracle(
        &ctx.collateral_custody_oracle_account,
        &ctx.collateral_custody.oracle,
        curtime,
        &ctx.collateral_custody_custom_oracle_account,
        ctx.collateral_custody.is_stable,
    ) {
        Ok(v) => v,
        Err(e) => { return Err(e); },
    };
    let within = match pool.check_leverage(
        &ctx.position,
        &token_min_price,
        &token_max_price,
        &ctx.custody,
        &collateral_token_min_price,
        &collateral_token_max_price,
        &ctx.collateral_custody,
        curtime,
        false,
    ) {
        Ok(v) => v,
        Err(e) => { return Err(e); },
    };
    if within {
        return Err(PerpetualsError::InvalidPositionState);
    }
    let (total_amount_out, fee_amount, profit_usd, loss_usd) = match pool.get_close_amount(
        &ctx.position,
        &token_min_price,
        &token_max_price,
        &ctx.custody,
        &collateral_token_min_price,
        &collateral_token_max_price,
        &ctx.collateral_custody,
        curtime,
        true,
    ) {
        Ok(v) => v,
        Err(e) => { return Err(e); },
    };
    let close = CloseAmount { total_amount_out, fee_amount, profit_usd, loss_usd };
    let fees = match get_liquidation_fee(
        fee_amount,
        ctx.position.side,
        &ctx.custody,
        &token_max_price,
        &ctx.collateral_custody,
        &collateral_token_min_price,
    ) {
        Ok(v) => v,
        Err(e) => { return Err(e); },
    };
    let reward_usd = match pool.get_fee_amount(ctx.custody.fees.liquidation, ctx.position.size_usd) {
        Ok(v) => v,
        Err(e) => { return Err(e); },
    };
    let payout = match get_liquidation_reward(
        reward_usd,
        &collateral_token_max_price,
        ctx.collateral_custody.decimals,
        total_amount_out,
    ) {
        Ok(v) => v,
        Err(e) => { return Err(e); },
    };
    pay_out_liquidation(ctx, pool, &close, fees, payout)
}

} // verus!
