//! Profit and loss of a position at current prices.

use crate::error::PerpetualsError;
use crate::state::custody::Custody;
use crate::state::oracle::{CustomOracle, OraclePrice, PriceFeed};
use crate::state::perpetuals::ProfitAndLoss;
use crate::state::pool::PoolPolicy;
use crate::state::position::Position;
use vstd::prelude::*;

verus! {

/// The records and feed readings that the valuation reads.
#[derive(Copy, Clone, PartialEq, Eq, Debug)]
pub struct GetPnl {
    /// Current time, in seconds.
    pub curtime: i64,
    pub position: Position,
    pub custody: Custody,
    pub custody_oracle_account: Option<PriceFeed>,
    pub custody_custom_oracle_account: Option<CustomOracle>,
    pub collateral_custody: Custody,
    pub collateral_custody_oracle_account: Option<PriceFeed>,
    pub collateral_custody_custom_oracle_account: Option<CustomOracle>,
}

#[derive(Copy, Clone, PartialEq, Eq, Debug)]
pub struct GetPnlParams {}

/// The result for one answer of the pool.
pub open spec fn pnl_result(answer: Result<(u64, u64, u64), PerpetualsError>) -> Result<
    ProfitAndLoss,
    PerpetualsError,
> {
    match answer {
        Ok((profit, loss, _)) => Ok(ProfitAndLoss { profit, loss }),
        Err(e) => Err(e),
    }
}

/// What `get_pnl` may return: the failure of either band, or else the pool's
/// answer for the position at the two bands.
pub open spec fn pnl_outcome<P: PoolPolicy>(
    ctx: GetPnl,
    pool: &P,
    r: Result<ProfitAndLoss, PerpetualsError>,
) -> bool {
    match ctx.custody.band(ctx.custody_oracle_account, ctx.curtime) {
        Err(e) => r == Err::<ProfitAndLoss, PerpetualsError>(e),
        Ok((token_min, token_max, _)) => match ctx.collateral_custody.band(
            ctx.collateral_custody_oracle_account,
            ctx.curtime,
        ) {
            Err(e) => r == Err::<ProfitAndLoss, PerpetualsError>(e),
            Ok((collateral_min, collateral_max, _)) => exists|
                answer: Result<(u64, u64, u64), PerpetualsError>,
            |
                {
                    &&& #[trigger] call_ensures(
                        P::get_pnl_usd,
                        (
                            pool,
                            &ctx.position,
                            &token_min,
                            &token_max,
                            &ctx.custody,
                            &collateral_min,
                            &collateral_max,
                            &ctx.collateral_custody,
                            ctx.curtime,
                            false,
                        ),
                        answer,
                    )
                    &&& r == pnl_result(answer)
                },
        },
    }
}

/// Values a position: resolves the band of its asset and of its collateral,
/// then asks the pool for the profit and loss at those bands.
pub fn get_pnl<P: PoolPolicy>(ctx: &GetPnl, _params: &GetPnlParams, pool: &P) -> (r: Result<
    ProfitAndLoss,
    PerpetualsError,
>)
    ensures
        pnl_outcome(*ctx, pool, r),
{
    let (token_min_price, token_max_price, _) = match OraclePrice::new_from_oracle(
        &ctx.custody_oracle_account,
        &ctx.custody.oracle,
        ctx.curtime,
        &ctx.custody_custom_oracle_account,
        ctx.custody.is_stable,
    ) {
        Ok(v) => v,
        Err(e) => { return Err(e); },
    };
    let (collateral_token_min_price, collateral_token_max_price, _) =
        match OraclePrice::new_from_oracle(
        &ctx.collateral_custody_oracle_account,
        &ctx.collateral_custody.oracle,
        ctx.curtime,
        &ctx.collateral_custody_custom_oracle_account,
        ctx.collateral_custody.is_stable,
    ) {
        Ok(v) => v,
        Err(e) => { return Err(e); },
    };
    let answer = pool.get_pnl_usd(
        &ctx.position,
        &token_min_price,
        &token_max_price,
        &ctx.custody,
        &collateral_token_min_price,
        &collateral_token_max_price,
        &ctx.collateral_custody,
        ctx.curtime,
        false,
    );
    match answer {
        Ok((profit, loss, _)) => Ok(ProfitAndLoss { profit, loss }),
        Err(e) => Err(e),
    }
}

} // verus!
