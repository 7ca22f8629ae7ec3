//! What redeeming pool shares pays out, and at which fee.

use crate::error::PerpetualsError;
use crate::state::custody::Custody;
use crate::state::oracle::{CustomOracle, OraclePrice, PriceFeed};
use crate::state::perpetuals::AmountAndFee;
use crate::state::pool::{AumCalcMode, PoolPolicy};
use vstd::prelude::*;

verus! {

/// The records and feed readings that the valuation reads.
#[derive(Copy, Clone, PartialEq, Eq, Debug)]
pub struct GetRemoveLiquidityAmountAndFee {
    /// Current time, in seconds.
    pub curtime: i64,
    /// Address of the custody that pays out.
    pub custody_key: [u8; 32],
    pub custody: Custody,
    pub custody_oracle_account: Option<PriceFeed>,
    pub custody_custom_oracle_account: Option<CustomOracle>,
    /// Pool shares in circulation.
    pub lp_token_supply: u64,
}

#[derive(Copy, Clone, PartialEq, Eq, Debug)]
pub struct GetRemoveLiquidityAmountAndFeeParams {
    pub lp_amount_in: u64,
}

/// The USD value of `lp_amount_in` shares out of `lp_supply`, for a pool
/// worth `pool_amount_usd`: the pro-rata part, truncated. Fails when the
/// product leaves 128 bits, the supply is zero, or the value leaves 64 bits.
pub open spec fn redeemed_usd(pool_amount_usd: u128, lp_amount_in: u64, lp_supply: u64) -> Result<
    u64,
    PerpetualsError,
> {
    if pool_amount_usd * lp_amount_in > u128::MAX || lp_supply == 0 || (pool_amount_usd
        * lp_amount_in) / (lp_supply as int) > u64::MAX {
        Err(PerpetualsError::MathOverflow)
    } else {
        Ok(((pool_amount_usd * lp_amount_in) / (lp_supply as int)) as u64)
    }
}

/// The gross amount of tokens redeemed: the pro-rata value converted at the
/// asset's highest price.
pub open spec fn redeemed_amount(
    pool_amount_usd: u128,
    lp_amount_in: u64,
    lp_supply: u64,
    token_max_price: OraclePrice,
    decimals: u8,
) -> Result<u64, PerpetualsError> {
    match redeemed_usd(pool_amount_usd, lp_amount_in, lp_supply) {
        Err(e) => Err(e),
        Ok(usd) => token_max_price.token_amount(usd, decimals),
    }
}

/// The net amount and the fee, for a gross amount and the pool's fee.
pub open spec fn amount_after_fee(remove_amount: u64, fee_amount: u64) -> Result<
    AmountAndFee,
    PerpetualsError,
> {
    if fee_amount > remove_amount {
        Err(PerpetualsError::MathOverflow)
    } else {
        Ok(AmountAndFee { amount: (remove_amount - fee_amount) as u64, fee: fee_amount })
    }
}

/// What `get_remove_liquidity_amount_and_fee` may return.
pub open spec fn remove_liquidity_outcome<P: PoolPolicy>(
    ctx: GetRemoveLiquidityAmountAndFee,
    params: GetRemoveLiquidityAmountAndFeeParams,
    pool: &P,
    r: Result<AmountAndFee, PerpetualsError>,
) -> bool {
    if params.lp_amount_in == 0 {
        r == Err::<AmountAndFee, PerpetualsError>(PerpetualsError::InvalidArgument)
    } else {
        exists|token_id: Result<usize, PerpetualsError>|
            {
                &&& #[trigger] call_ensures(P::get_token_id, (pool, &ctx.custody_key), token_id)
                &&& match token_id {
                    Err(e) => r == Err::<AmountAndFee, PerpetualsError>(e),
                    Ok(token_id) => match ctx.custody.band(ctx.custody_oracle_account, ctx.curtime) {
                        Err(e) => r == Err::<AmountAndFee, PerpetualsError>(e),
                        Ok((_, token_max, _)) => exists|aum: Result<u128, PerpetualsError>|
                            {
                                &&& #[trigger] call_ensures(
                                    P::get_assets_under_management_usd,
                                    (pool, AumCalcMode::Min, ctx.curtime),
                                    aum,
                                )
                                &&& match aum {
                                    Err(e) => r == Err::<AmountAndFee, PerpetualsError>(e),
                                    Ok(aum) => match redeemed_amount(
                                        aum,
                                        params.lp_amount_in,
                                        ctx.lp_token_supply,
                                        token_max,
                                        ctx.custody.decimals,
                                    ) {
                                        Err(e) => r == Err::<AmountAndFee, PerpetualsError>(e),
                                        Ok(remove_amount) => exists|
                                            fee: Result<u64, PerpetualsError>,
                                        |
                                            {
                                                &&& #[trigger] call_ensures(
                                                    P::get_remove_liquidity_fee,
                                                    (
                                                        pool,
                                                        token_id,
                                                        remove_amount,
                                                        &ctx.custody,
                                                        &token_max,
                                                    ),
                                                    fee,
                                                )
                                                &&& match fee {
                                                    Err(e) => r == Err::<
                                                        AmountAndFee,
                                                        PerpetualsError,
                                                    >(e),
                                                    Ok(fee) => r == amount_after_fee(
                                                        remove_amount,
                                                        fee,
                                                    ),
                                                }
                                            },
                                    },
                                }
                            },
                    },
                }
            }
    }
}

/// The gross amount of tokens that `lp_amount_in` shares redeem.
pub fn get_redeemed_amount(
    pool_amount_usd: u128,
    lp_amount_in: u64,
    lp_supply: u64,
    token_max_price: &OraclePrice,
    decimals: u8,
) -> (r: Result<u64, PerpetualsError>)
    ensures
        r == redeemed_amount(pool_amount_usd, lp_amount_in, lp_supply, *token_max_price, decimals),
{
    let product = match pool_amount_usd.checked_mul(lp_amount_in as u128) {
        Some(v) => v,
        None => { return Err(PerpetualsError::MathOverflow); },
    };
    if lp_supply == 0 {
        return Err(PerpetualsError::MathOverflow);
    }
    let share: u128 = product / (lp_supply as u128);
    if share > u64::MAX as u128 {
        return Err(PerpetualsError::MathOverflow);
    }
    token_max_price.get_token_amount(share as u64, decimals)
}

/// Quotes a redemption of pool shares in one of the pool's assets: values the
/// pool conservatively, takes the pro-rata part, converts it at the asset's
/// highest price and deducts the pool's redemption fee.
pub fn get_remove_liquidity_amount_and_fee<P: PoolPolicy>(
    ctx: &GetRemoveLiquidityAmountAndFee,
    params: &GetRemoveLiquidityAmountAndFeeParams,
    pool: &P,
) -> (r: Result<AmountAndFee, PerpetualsError>)
    ensures
        remove_liquidity_outcome(*ctx, *params, pool, r),
        params.lp_amount_in == 0 ==> r == Err::<AmountAndFee, PerpetualsError>(
            PerpetualsError::InvalidArgument,
        ),
        r matches Ok(quote) ==> quote.amount + quote.fee <= u64::MAX,
{
    if params.lp_amount_in == 0 {
        return Err(PerpetualsError::InvalidArgument);
    }
    let token_id = match pool.get_token_id(&ctx.custody_key) {
        Ok(v) => v,
        Err(e) => { return Err(e); },
    };
    let (_token_min_price, token_max_price, _) = match OraclePrice::new_from_oracle(
        &ctx.custody_oracle_account,
        &ctx.custody.oracle,
        ctx.curtime,
        &ctx.custody_custom_oracle_account,
        ctx.custody.is_stable,
    ) {
        Ok(v) => v,
        Err(e) => { return Err(e); },
    };
    let pool_amount_usd = match pool.get_assets_under_management_usd(
        AumCalcMode::Min,
        ctx.curtime,
    ) {
        Ok(v) => v,
        Err(e) => { return Err(e); },
    };
    let remove_amount = match get_redeemed_amount(
        pool_amount_usd,
        params.lp_amount_in,
        ctx.lp_token_supply,
        &token_max_price,
        ctx.custody.decimals,
    ) {
        Ok(v) => v,
        Err(e) => { return Err(e); },
    };
    let fee_amount = match pool.get_remove_liquidity_fee(
        token_id,
        remove_amount,
        &ctx.custody,
        &token_max_price,
    ) {
        Ok(v) => v,
        Err(e) => { return Err(e); },
    };
    match remove_amount.checked_sub(fee_amount) {
        Some(transfer_amount) => Ok(AmountAndFee { amount: transfer_amount, fee: fee_amount }),
        None => Err(PerpetualsError::MathOverflow),
    }
}

} // verus!
