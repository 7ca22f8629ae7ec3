//! Withdrawal of excess collateral from an open position.

use crate::error::PerpetualsError;
use crate::state::custody::{Assets, Custody, FeesStats};
use crate::state::oracle::{CustomOracle, OraclePrice, PriceFeed};
use crate::state::perpetuals::Permissions;
use crate::state::pool::PoolPolicy;
use crate::state::position::{Position, Side};
use vstd::prelude::*;

verus! {

/// The records and feed readings that the withdrawal reads.
#[derive(Copy, Clone, PartialEq, Eq, Debug)]
pub struct RemoveCollateral {
    /// Protocol-wide permission flags.
    pub permissions: Permissions,
    /// Current time, in seconds.
    pub curtime: i64,
    pub position: Position,
    pub custody: Custody,
    pub custody_oracle_account: Option<PriceFeed>,
    pub custody_custom_oracle_account: Option<CustomOracle>,
    pub collateral_custody: Custody,
    pub collateral_custody_oracle_account: Option<PriceFeed>,
    pub collateral_custody_custom_oracle_account: Option<CustomOracle>,
}

#[derive(Copy, Clone, PartialEq, Eq, Debug)]
pub struct RemoveCollateralParams {
    /// USD value of the collateral to withdraw.
    pub collateral_usd: u64,
}

/// The records as a withdrawal leaves them, and what it pays out.
#[derive(Copy, Clone, PartialEq, Eq, Debug)]
pub struct CollateralWithdrawal {
    pub position: Position,
    pub custody: Custody,
    pub collateral_custody: Custody,
    /// Collateral tokens taken off the position.
    pub collateral_amount: u64,
    /// Part of them kept as fee.
    pub fee_amount: u64,
    /// Tokens to move from the collateral custody to the owner.
    pub transfer_amount: u64,
}

/// Whether both the protocol and the custody allow withdrawals.
pub open spec fn withdrawal_allowed(ctx: RemoveCollateral) -> bool {
    ctx.permissions.allow_collateral_withdrawal
        && ctx.custody.permissions.allow_collateral_withdrawal
}

/// The token amounts of a withdrawal, `(fee, gross, net)`: the fee converted
/// at the collateral's lowest price, the withdrawn value at its highest, and
/// their difference.
pub open spec fn withdrawal_amounts(
    collateral_usd: u64,
    fee_amount_usd: u64,
    collateral_token_min_price: OraclePrice,
    collateral_token_max_price: OraclePrice,
    decimals: u8,
) -> Result<(u64, u64, u64), PerpetualsError> {
    match collateral_token_min_price.token_amount(fee_amount_usd, decimals) {
        Err(e) => Err(e),
        Ok(fee_amount) => match collateral_token_max_price.token_amount(collateral_usd, decimals) {
            Err(e) => Err(e),
            Ok(collateral) => if fee_amount > collateral {
                Err(PerpetualsError::MathOverflow)
            } else {
                Ok((fee_amount, collateral, (collateral - fee_amount) as u64))
            },
        },
    }
}

/// The position after `collateral` tokens worth `collateral_usd` have left it.
/// Meaningful when the position holds at least that much.
pub open spec fn position_after_withdrawal(
    position: Position,
    curtime: i64,
    collateral_usd: u64,
    collateral: u64,
) -> Position {
    Position {
        update_time: curtime,
        collateral_usd: (position.collateral_usd - collateral_usd) as u64,
        collateral_amount: (position.collateral_amount - collateral) as u64,
        ..position
    }
}

/// The collateral custody after the withdrawal: the fee revenue counter
/// advanced (wrapping), the posted collateral reduced, and the protocol's
/// share of the fee set aside. Fails when the custody holds less posted
/// collateral than is withdrawn, or when the protocol's fees leave 64 bits.
pub open spec fn custody_after_withdrawal(
    collateral_custody: Custody,
    fee_amount_usd: u64,
    collateral: u64,
    protocol_fee: u64,
) -> Result<Custody, PerpetualsError> {
    if collateral > collateral_custody.assets.collateral
        || collateral_custody.assets.protocol_fees + protocol_fee > u64::MAX {
        Err(PerpetualsError::MathOverflow)
    } else {
        Ok(
            Custody {
                collected_fees: FeesStats {
                    close_position_usd: ((collateral_custody.collected_fees.close_position_usd
                        + fee_amount_usd) % 0x1_0000_0000_0000_0000) as u64,
                    ..collateral_custody.collected_fees
                },
                assets: Assets {
                    collateral: (collateral_custody.assets.collateral - collateral) as u64,
                    protocol_fees: (collateral_custody.assets.protocol_fees + protocol_fee) as u64,
                    ..collateral_custody.assets
                },
                ..collateral_custody
            },
        )
    }
}

/// Whether the asset custody and the collateral custody of a position are
/// two copies of one record, which must then be kept identical.
pub open spec fn shares_custody(side: Side, custody: Custody) -> bool {
    side == Side::Long && !custody.is_virtual
}

/// The records after a withdrawal that passed every check.
pub open spec fn settled_withdrawal(
    ctx: RemoveCollateral,
    position: Position,
    fee_amount_usd: u64,
    amounts: (u64, u64, u64),
    protocol_fee: u64,
) -> Result<CollateralWithdrawal, PerpetualsError> {
    match custody_after_withdrawal(ctx.collateral_custody, fee_amount_usd, amounts.1, protocol_fee) {
        Err(e) => Err(e),
        Ok(collateral_custody) => Ok(
            CollateralWithdrawal {
                position,
                custody: if shares_custody(ctx.position.side, ctx.custody) {
                    collateral_custody
                } else {
                    ctx.custody
                },
                collateral_custody,
                collateral_amount: amounts.1,
                fee_amount: amounts.0,
                transfer_amount: amounts.2,
            },
        ),
    }
}

/// What `remove_collateral` may return once the pool has allowed the
/// position's leverage after the withdrawal.
pub open spec fn withdrawal_settlement<P: PoolPolicy>(
    ctx: RemoveCollateral,
    pool: &P,
    position: Position,
    fee_amount_usd: u64,
    amounts: (u64, u64, u64),
    r: Result<CollateralWithdrawal, PerpetualsError>,
) -> bool {
    if amounts.1 > ctx.collateral_custody.assets.collateral {
        r == Err::<CollateralWithdrawal, PerpetualsError>(PerpetualsError::MathOverflow)
    } else {
        exists|protocol_fee: Result<u64, PerpetualsError>|
            {
                &&& #[trigger] call_ensures(
                    P::get_fee_amount,
                    (pool, ctx.custody.fees.protocol_share, amounts.0),
                    protocol_fee,
                )
                &&& match protocol_fee {
                    Err(e) => r == Err::<CollateralWithdrawal, PerpetualsError>(e),
                    Ok(protocol_fee) => r == settled_withdrawal(
                        ctx,
                        position,
                        fee_amount_usd,
                        amounts,
                        protocol_fee,
                    ),
                }
            }
    }
}

/// What `remove_collateral` may return once both bands are known.
pub open spec fn withdrawal_at_prices<P: PoolPolicy>(
    ctx: RemoveCollateral,
    params: RemoveCollateralParams,
    pool: &P,
    token: (OraclePrice, OraclePrice, bool),
    collateral: (OraclePrice, OraclePrice, bool),
    r: Result<CollateralWithdrawal, PerpetualsError>,
) -> bool {
    if token.2 || collateral.2 {
        r == Err::<CollateralWithdrawal, PerpetualsError>(PerpetualsError::InvalidOraclePrice)
    } else {
        exists|fee: Result<u64, PerpetualsError>|
            {
                &&& #[trigger] call_ensures(
                    P::get_collateral_fee,
                    (pool, params.collateral_usd, &ctx.collateral_custody),
                    fee,
                )
                &&& match fee {
                    Err(e) => r == Err::<CollateralWithdrawal, PerpetualsError>(e),
                    Ok(fee_amount_usd) => match withdrawal_amounts(
                        params.collateral_usd,
                        fee_amount_usd,
                        collateral.0,
                        collateral.1,
                        ctx.collateral_custody.decimals,
                    ) {
                        Err(e) => r == Err::<CollateralWithdrawal, PerpetualsError>(e),
                        Ok(amounts) => if amounts.1 > ctx.position.collateral_amount {
                            r == Err::<CollateralWithdrawal, PerpetualsError>(
                                PerpetualsError::InsufficientFunds,
                            )
                        } else {
                            exists|within: Result<bool, PerpetualsError>|
                                {
                                    &&& #[trigger] call_ensures(
                                        P::check_leverage,
                                        (
                                            pool,
                                            &position_after_withdrawal(
                                                ctx.position,
                                                ctx.curtime,
                                                params.collateral_usd,
                                                amounts.1,
                                            ),
                                            &token.0,
                                            &token.1,
                                            &ctx.custody,
                                            &collateral.0,
                                            &collateral.1,
                                            &ctx.collateral_custody,
                                            ctx.curtime,
                                            true,
                                        ),
                                        within,
                                    )
                                    &&& match within {
                                        Err(e) => r == Err::<CollateralWithdrawal, PerpetualsError>(
                                            e,
                                        ),
                                        Ok(false) => r == Err::<
                                            CollateralWithdrawal,
                                            PerpetualsError,
                                        >(PerpetualsError::MaxLeverage),
                                        Ok(true) => withdrawal_settlement(
                                            ctx,
                                            pool,
                                            position_after_withdrawal(
                                                ctx.position,
                                                ctx.curtime,
                                                params.collateral_usd,
                                                amounts.1,
                                            ),
                                            fee_amount_usd,
                                            amounts,
                                            r,
                                        ),
                                    }
                                }
                        },
                    },
                }
            }
    }
}

/// What `remove_collateral` may return.
pub open spec fn withdrawal_outcome<P: PoolPolicy>(
    ctx: RemoveCollateral,
    params: RemoveCollateralParams,
    pool: &P,
    r: Result<CollateralWithdrawal, PerpetualsError>,
) -> bool {
    if !withdrawal_allowed(ctx) {
        r == Err::<CollateralWithdrawal, PerpetualsError>(PerpetualsError::InstructionNotAllowed)
    } else if params.collateral_usd == 0 || params.collateral_usd >= ctx.position.collateral_usd {
        r == Err::<CollateralWithdrawal, PerpetualsError>(PerpetualsError::InvalidArgument)
    } else {
        match ctx.custody.band(ctx.custody_oracle_account, ctx.curtime) {
            Err(e) => r == Err::<CollateralWithdrawal, PerpetualsError>(e),
            Ok(token) => match ctx.collateral_custody.band(
                ctx.collateral_custody_oracle_account,
                ctx.curtime,
            ) {
                Err(e) => r == Err::<CollateralWithdrawal, PerpetualsError>(e),
                Ok(collateral) => withdrawal_at_prices(ctx, params, pool, token, collateral, r),
            },
        }
    }
}

/// Converts a withdrawal and its fee into collateral tokens.
pub fn get_withdrawal_amounts(
    collateral_usd: u64,
    fee_amount_usd: u64,
    collateral_token_min_price: &OraclePrice,
    collateral_token_max_price: &OraclePrice,
    decimals: u8,
) -> (r: Result<(u64, u64, u64), PerpetualsError>)
    ensures
        r == withdrawal_amounts(
            collateral_usd,
            fee_amount_usd,
            *collateral_token_min_price,
            *collateral_token_max_price,
            decimals,
        ),
{
    let fee_amount = match collateral_token_min_price.get_token_amount(fee_amount_usd, decimals) {
        Ok(v) => v,
        Err(e) => { return Err(e); },
    };
    let collateral = match collateral_token_max_price.get_token_amount(collateral_usd, decimals) {
        Ok(v) => v,
        Err(e) => { return Err(e); },
    };
    match collateral.checked_sub(fee_amount) {
        Some(updated_collateral) => Ok((fee_amount, collateral, updated_collateral)),
        None => Err(PerpetualsError::MathOverflow),
    }
}

/// Books a withdrawal on the collateral custody and, where the asset custody
/// is a copy of it, on that copy too.
pub fn settle_withdrawal(
    ctx: &RemoveCollateral,
    position: Position,
    fee_amount_usd: u64,
    amounts: (u64, u64, u64),
    protocol_fee: u64,
) -> (r: Result<CollateralWithdrawal, PerpetualsError>)
    ensures
        r == settled_withdrawal(*ctx, position, fee_amount_usd, amounts, protocol_fee),
        r matches Ok(done) ==> {
            &&& done.position == position
            &&& done.collateral_amount == amounts.1
            &&& done.fee_amount == amounts.0
            &&& done.transfer_amount == amounts.2
            &&& shares_custody(ctx.position.side, ctx.custody) ==> done.custody
                == done.collateral_custody
            &&& !shares_custody(ctx.position.side, ctx.custody) ==> done.custody == ctx.custody
        },
{
    let mut collateral_custody = ctx.collateral_custody;
    collateral_custody.collected_fees.close_position_usd =
        collateral_custody.collected_fees.close_position_usd.wrapping_add(fee_amount_usd);
    collateral_custody.assets.collateral =
    match collateral_custody.assets.collateral.checked_sub(amounts.1) {
        Some(v) => v,
        None => { return Err(PerpetualsError::MathOverflow); },
    };
    collateral_custody.assets.protocol_fees =
    match collateral_custody.assets.protocol_fees.checked_add(protocol_fee) {
        Some(v) => v,
        None => { return Err(PerpetualsError::MathOverflow); },
    };
    let custody = if ctx.position.side == Side::Long && !ctx.custody.is_virtual {
        collateral_custody
    } else {
        ctx.custody
    };
    Ok(
        CollateralWithdrawal {
            position,
            custody,
            collateral_custody,
            collateral_amount: amounts.1,
            fee_amount: amounts.0,
            transfer_amount: amounts.2,
        },
    )
}

/// Withdraws collateral worth `params.collateral_usd` from a position.
///
/// The steps, in order: both permission flags; `0 < collateral_usd <
/// position.collateral_usd`; both price bands, neither of them close-only;
/// the pool's fee and the token amounts; the position must hold the gross
/// amount; the pool must allow the position's leverage after the withdrawal;
/// the custody records are updated. Nothing is changed in place: on success
/// the caller stores the returned records and moves `transfer_amount` to the
/// owner, on failure there is nothing to undo.
pub fn remove_collateral<P: PoolPolicy>(
    ctx: &RemoveCollateral,
    params: &RemoveCollateralParams,
    pool: &P,
) -> (r: Result<CollateralWithdrawal, PerpetualsError>)
    ensures
        withdrawal_outcome(*ctx, *params, pool, r),
        params.collateral_usd == 0 || params.collateral_usd >= ctx.position.collateral_usd ==> r
            is Err,
        withdrawal_allowed(*ctx) && (params.collateral_usd == 0 || params.collateral_usd
            >= ctx.position.collateral_usd) ==> r == Err::<CollateralWithdrawal, PerpetualsError>(
            PerpetualsError::InvalidArgument,
        ),
        !withdrawal_allowed(*ctx) ==> r == Err::<CollateralWithdrawal, PerpetualsError>(
            PerpetualsError::InstructionNotAllowed,
        ),
        (ctx.custody.band(ctx.custody_oracle_account, ctx.curtime) matches Ok((_, _, true)))
            || (ctx.collateral_custody.band(ctx.collateral_custody_oracle_account, ctx.curtime)
            matches Ok((_, _, true))) ==> r is Err,
        r matches Ok(done) ==> {
            &&& done.position == position_after_withdrawal(
                ctx.position,
                ctx.curtime,
                params.collateral_usd,
                done.collateral_amount,
            )
            &&& done.collateral_amount <= ctx.position.collateral_amount
            &&& done.transfer_amount + done.fee_amount == done.collateral_amount
            &&& shares_custody(ctx.position.side, ctx.custody) ==> done.custody
                == done.collateral_custody
            &&& !shares_custody(ctx.position.side, ctx.custody) ==> done.custody == ctx.custody
        },
{
    if !(ctx.permissions.allow_collateral_withdrawal
        && ctx.custody.permissions.allow_collateral_withdrawal) {
        return Err(PerpetualsError::InstructionNotAllowed);
    }
    if params.collateral_usd == 0 || params.collateral_usd >= ctx.position.collateral_usd {
        return Err(PerpetualsError::InvalidArgument);
    }
    let curtime = ctx.curtime;
    let (token_min_price, token_max_price, token_close_only) = match OraclePrice::new_from_oracle(
        &ctx.custody_oracle_account,
        &ctx.custody.oracle,
        curtime,
        &ctx.custody_custom_oracle_account,
        ctx.custody.is_stable,
    ) {
        Ok(v) => v,
        Err(e) => { return Err(e); },
    };
    let (collateral_token_min_price, collateral_token_max_price, collateral_token_close_only) =
        match OraclePrice::new_from_oracle(
        &ctx.collateral_custody_oracle_account,
        &ctx.collateral_custody.oracle,
        curtime,
        &ctx.collateral_custody_custom_oracle_account,
        ctx.collateral_custody.is_stable,
    ) {
        Ok(v) => v,
        Err(e) => { return Err(e); },
    };
    if token_close_only || collateral_token_close_only {
        return Err(PerpetualsError::InvalidOraclePrice);
    }
    let fee_amount_usd = match pool.get_collateral_fee(
        params.collateral_usd,
        &ctx.collateral_custody,
    ) {
        Ok(v) => v,
        Err(e) => { return Err(e); },
    };
    let amounts = match get_withdrawal_amounts(
        params.collateral_usd,
        fee_amount_usd,
        &collateral_token_min_price,
        &collateral_token_max_price,
        ctx.collateral_custody.decimals,
    ) {
        Ok(v) => v,
        Err(e) => { return Err(e); },
    };
    let collateral = amounts.1;
    if collateral > ctx.position.collateral_amount {
        return Err(PerpetualsError::InsufficientFunds);
    }
    let mut position = ctx.position;
    position.update_time = curtime;
    position.collateral_usd = position.collateral_usd - params.collateral_usd;
    position.collateral_amount = position.collateral_amount - collateral;
    let within = match pool.check_leverage(
        &position,
        &token_min_price,
        &token_max_price,
        &ctx.custody,
        &collateral_token_min_price,
        &collateral_token_max_price,
        &ctx.collateral_custody,
        curtime,
        true,
    ) {
        Ok(v) => v,
        Err(e) => { return Err(e); },
    };
    if !within {
        return Err(PerpetualsError::MaxLeverage);
    }
    if collateral > ctx.collateral_custody.assets.collateral {
        return Err(PerpetualsError::MathOverflow);
    }
    let protocol_fee = match pool.get_fee_amount(ctx.custody.fees.protocol_share, amounts.0) {
        Ok(v) => v,
        Err(e) => { return Err(e); },
    };
    settle_withdrawal(ctx, position, fee_amount_usd, amounts, protocol_fee)
}

} // verus!
