//! Exit price and fee of a position at current prices.

use crate::error::PerpetualsError;
use crate::state::custody::Custody;
use crate::state::oracle::{CustomOracle, OraclePrice, PriceFeed};
use crate::state::perpetuals::PriceAndFee;
use crate::state::pool::PoolPolicy;
use crate::state::position::{Position, Side};
use vstd::prelude::*;

verus! {

/// The records and feed readings that the valuation reads.
#[derive(Copy, Clone, PartialEq, Eq, Debug)]
pub struct GetExitPriceAndFee {
    /// Current time, in seconds.
    pub curtime: i64,
    pub position: Position,
    pub custody: Custody,
    pub custody_oracle_account: Option<PriceFeed>,
    pub custody_custom_oracle_account: Option<CustomOracle>,
    pub collateral_custody: Custody,
    pub collateral_custody_oracle_account: Option<PriceFeed>,
    pub collateral_custody_custom_oracle_account: Option<CustomOracle>,
}

#[derive(Copy, Clone, PartialEq, Eq, Debug)]
pub struct GetExitPriceAndFeeParams {}

/// Whether a position's fees are charged in units of its collateral rather
/// than of its asset: always for a short, and for any position on a
/// synthetic asset.
pub open spec fn settles_in_collateral(side: Side, custody: Custody) -> bool {
    side == Side::Short || custody.is_virtual
}

/// A fee stated in asset tokens, as the position pays it: unchanged where
/// fees are charged in the asset, else valued in USD at the asset's highest
/// price and converted to collateral tokens at the collateral's lowest. Both
/// choices enlarge the fee.
pub open spec fn fee_as_charged(
    fee: u64,
    side: Side,
    custody: Custody,
    token_max_price: OraclePrice,
    collateral_custody: Custody,
    collateral_token_min_price: OraclePrice,
) -> Result<u64, PerpetualsError> {
    if settles_in_collateral(side, custody) {
        match token_max_price.asset_amount_usd(fee, custody.decimals) {
            Err(e) => Err(e),
            Ok(fee_usd) => collateral_token_min_price.token_amount(
                fee_usd,
                collateral_custody.decimals,
            ),
        }
    } else {
        Ok(fee)
    }
}

/// The result for one pair of answers of the pool.
pub open spec fn exit_price_and_fee(
    ctx: GetExitPriceAndFee,
    token_max_price: OraclePrice,
    collateral_token_min_price: OraclePrice,
    price: u64,
    fee: u64,
) -> Result<PriceAndFee, PerpetualsError> {
    match fee_as_charged(
        fee,
        ctx.position.side,
        ctx.custody,
        token_max_price,
        ctx.collateral_custody,
        collateral_token_min_price,
    ) {
        Err(e) => Err(e),
        Ok(charged) => Ok(PriceAndFee { price, fee: charged }),
    }
}

/// What `get_exit_price_and_fee` may return: the failure of either band, a
/// failure of the pool, or the result for the pool's exit price and fee.
pub open spec fn exit_outcome<P: PoolPolicy>(
    ctx: GetExitPriceAndFee,
    pool: &P,
    r: Result<PriceAndFee, PerpetualsError>,
) -> bool {
    match ctx.custody.band(ctx.custody_oracle_account, ctx.curtime) {
        Err(e) => r == Err::<PriceAndFee, PerpetualsError>(e),
        Ok((token_min, token_max, _)) => match ctx.collateral_custody.band(
            ctx.collateral_custody_oracle_account,
            ctx.curtime,
        ) {
            Err(e) => r == Err::<PriceAndFee, PerpetualsError>(e),
            Ok((collateral_min, _, _)) => exists|price: Result<u64, PerpetualsError>|
                {
                    &&& #[trigger] call_ensures(
                        P::get_exit_price,
                        (pool, &token_min, &token_max, ctx.position.side, &ctx.custody),
                        price,
                    )
                    &&& match price {
                        Err(e) => r == Err::<PriceAndFee, PerpetualsError>(e),
                        Ok(price) => exists|fee: Result<u64, PerpetualsError>|
                            {
                                &&& #[trigger] call_ensures(
                                    P::get_exit_fee,
                                    (pool, ctx.position.size_usd, &ctx.custody),
                                    fee,
                                )
                                &&& match fee {
                                    Err(e) => r == Err::<PriceAndFee, PerpetualsError>(e),
                                    Ok(fee) => r == exit_price_and_fee(
                                        ctx,
                                        token_max,
                                        collateral_min,
                                        price,
                                        fee,
                                    ),
                                }
                            },
                    }
                },
        },
    }
}

/// Converts a fee stated in asset tokens into what the position pays.
pub fn get_fee_as_charged(
    fee: u64,
    side: Side,
    custody: &Custody,
    token_max_price: &OraclePrice,
    collateral_custody: &Custody,
    collateral_token_min_price: &OraclePrice,
) -> (r: Result<u64, PerpetualsError>)
    ensures
        r == fee_as_charged(
            fee,
            side,
            *custody,
            *token_max_price,
            *collateral_custody,
            *collateral_token_min_price,
        ),
{
    if side == Side::Short || custody.is_virtual {
        let fee_amount_usd = match token_max_price.get_asset_amount_usd(fee, custody.decimals) {
            Ok(v) => v,
            Err(e) => { return Err(e); },
        };
        collateral_token_min_price.get_token_amount(fee_amount_usd, collateral_custody.decimals)
    } else {
        Ok(fee)
    }
}

/// Quotes the closing of a position: resolves the band of its asset and of
/// its collateral, asks the pool for the exit price and the base exit fee,
/// and states the fee in the units the position pays it in.
pub fn get_exit_price_and_fee<P: PoolPolicy>(
    ctx: &GetExitPriceAndFee,
    _params: &GetExitPriceAndFeeParams,
    pool: &P,
) -> (r: Result<PriceAndFee, PerpetualsError>)
    ensures
        exit_outcome(*ctx, pool, r),
{
    let (token_min_price, token_max_price, _) = match OraclePrice::new_from_oracle(
        &ctx.custody_oracle_account,
        &ctx.custody.oracle,
        ctx.curtime,
        &ctx.custody_custom_oracle_account,
        ctx.custody.is_stable,
    ) {
        Ok(v) => v,
        Err(e) => { return Err(e); },
    };
    let (collateral_token_min_price, _, _) = match OraclePrice::new_from_oracle(
        &ctx.collateral_custody_oracle_account,
        &ctx.collateral_custody.oracle,
        ctx.curtime,
        &ctx.collateral_custody_custom_oracle_account,
        ctx.collateral_custody.is_stable,
    ) {
        Ok(v) => v,
        Err(e) => { return Err(e); },
    };
    let price = match pool.get_exit_price(
        &token_min_price,
        &token_max_price,
        ctx.position.side,
        &ctx.custody,
    ) {
        Ok(v) => v,
        Err(e) => { return Err(e); },
    };
    let fee = match pool.get_exit_fee(ctx.position.size_usd, &ctx.custody) {
        Ok(v) => v,
        Err(e) => { return Err(e); },
    };
    let fee = match get_fee_as_charged(
        fee,
        ctx.position.side,
        &ctx.custody,
        &token_max_price,
        &ctx.collateral_custody,
        &collateral_token_min_price,
    ) {
        Ok(v) => v,
        Err(e) => { return Err(e); },
    };
    Ok(PriceAndFee { price, fee })
}

} // verus!
