use perpetuals::error::PerpetualsError;
use perpetuals::instructions::get_exit_price_and_fee::{
    get_exit_price_and_fee, get_fee_as_charged, GetExitPriceAndFee, GetExitPriceAndFeeParams,
};
use perpetuals::instructions::get_pnl::{get_pnl, GetPnl, GetPnlParams};
use perpetuals::instructions::get_remove_liquidity_amount_and_fee::{
    get_redeemed_amount, get_remove_liquidity_amount_and_fee, GetRemoveLiquidityAmountAndFee,
    GetRemoveLiquidityAmountAndFeeParams,
};
use perpetuals::instructions::liquidate::{
    book_liquidation, close_position_stats, get_liquidation_fee, get_liquidation_reward, liquidate,
    set_protocol_fee_aside, Liquidate, LiquidateParams,
};
use perpetuals::instructions::remove_collateral::{
    get_withdrawal_amounts, remove_collateral, RemoveCollateral, RemoveCollateralParams,
};
use perpetuals::state::custody::{Assets, Custody, Fees, FeesStats, TradeStats, VolumeStats};
use perpetuals::state::oracle::{
    CustomOracle, FeedPrice, OracleParams, OraclePrice, OracleType, PriceFeed,
};
use perpetuals::state::perpetuals::{AmountAndFee, Permissions, PriceAndFee, ProfitAndLoss};
use perpetuals::state::pool::{AumCalcMode, PoolPolicy};
use perpetuals::state::position::{Position, Side};

type Answer<T> = Result<T, PerpetualsError>;

/// A pool with simple rules, enough to drive each operation down every path.
struct TestPool {
    /// A position is within bounds while `size_usd <= max_leverage * collateral_usd`;
    /// risk-increasing changes get half of that.
    max_leverage: Answer<u64>,
    close_amount: Answer<(u64, u64, u64, u64)>,
    pnl: Answer<(u64, u64, u64)>,
    exit_fee: Answer<u64>,
    collateral_fee: Answer<u64>,
    remove_liquidity_fee: Answer<u64>,
    token_id: Answer<usize>,
    aum: Answer<u128>,
    fee_amounts_fail: bool,
}

fn pool() -> TestPool {
    TestPool {
        max_leverage: Ok(100),
        close_amount: Ok((0, 0, 0, 0)),
        pnl: Ok((0, 0, 0)),
        exit_fee: Ok(0),
        collateral_fee: Ok(0),
        remove_liquidity_fee: Ok(0),
        token_id: Ok(0),
        aum: Ok(0),
        fee_amounts_fail: false,
    }
}

impl PoolPolicy for TestPool {
    fn get_exit_price(
        &self,
        token_min_price: &OraclePrice,
        token_max_price: &OraclePrice,
        side: Side,
        _custody: &Custody,
    ) -> Answer<u64> {
        Ok(if side == Side::Long { token_min_price.price } else { token_max_price.price })
    }

    fn get_exit_fee(&self, _size_usd: u64, _custody: &Custody) -> Answer<u64> {
        self.exit_fee
    }

    fn get_collateral_fee(&self, _collateral_usd: u64, _custody: &Custody) -> Answer<u64> {
        self.collateral_fee
    }

    fn get_remove_liquidity_fee(
        &self,
        token_id: usize,
        _amount_remove: u64,
        _custody: &Custody,
        _token_price: &OraclePrice,
    ) -> Answer<u64> {
        assert_eq!(Ok(token_id), self.token_id);
        self.remove_liquidity_fee
    }

    fn get_fee_amount(&self, fee: u64, amount: u64) -> Answer<u64> {
        if self.fee_amounts_fail {
            return Err(PerpetualsError::MathOverflow);
        }
        Ok((amount as u128 * fee as u128 / 10_000) as u64)
    }

    fn get_token_id(&self, _custody: &[u8; 32]) -> Answer<usize> {
        self.token_id
    }

    fn get_pnl_usd(
        &self,
        _position: &Position,
        _token_min_price: &OraclePrice,
        _token_max_price: &OraclePrice,
        _custody: &Custody,
        _collateral_token_min_price: &OraclePrice,
        _collateral_token_max_price: &OraclePrice,
        _collateral_custody: &Custody,
        _curtime: i64,
        liquidation: bool,
    ) -> Answer<(u64, u64, u64)> {
        assert!(!liquidation);
        self.pnl
    }

    fn get_close_amount(
        &self,
        _position: &Position,
        _token_min_price: &OraclePrice,
        _token_max_price: &OraclePrice,
        _custody: &Custody,
        _collateral_token_min_price: &OraclePrice,
        _collateral_token_max_price: &OraclePrice,
        _collateral_custody: &Custody,
        _curtime: i64,
        liquidation: bool,
    ) -> Answer<(u64, u64, u64, u64)> {
        assert!(liquidation);
        self.close_amount
    }

    fn check_leverage(
        &self,
        position: &Position,
        _token_min_price: &OraclePrice,
        _token_max_price: &OraclePrice,
        _custody: &Custody,
        _collateral_token_min_price: &OraclePrice,
        _collateral_token_max_price: &OraclePrice,
        _collateral_custody: &Custody,
        _curtime: i64,
        initial: bool,
    ) -> Answer<bool> {
        let bound = self.max_leverage? / if initial { 2 } else { 1 };
        Ok(position.size_usd as u128 <= bound as u128 * position.collateral_usd as u128)
    }

    fn check_available_amount(&self, amount: u64, custody: &Custody) -> Answer<bool> {
        let free = (custody.assets.owned as u128 + custody.assets.collateral as u128)
            .saturating_sub(custody.assets.locked as u128);
        Ok(amount as u128 <= free)
    }

    fn get_assets_under_management_usd(&self, aum_calc_mode: AumCalcMode, _curtime: i64) -> Answer<u128> {
        assert_eq!(aum_calc_mode, AumCalcMode::Min);
        self.aum
    }
}

const NOW: i64 = 1_700_000_000;

fn all_allowed() -> Permissions {
    Permissions {
        allow_swap: true,
        allow_add_liquidity: true,
        allow_remove_liquidity: true,
        allow_open_position: true,
        allow_close_position: true,
        allow_pnl_withdrawal: true,
        allow_collateral_withdrawal: true,
        allow_size_change: true,
    }
}

fn custody(is_stable: bool, decimals: u8) -> Custody {
    Custody {
        mint: [3u8; 32],
        decimals,
        is_stable,
        is_virtual: false,
        oracle: OracleParams {
            oracle_account: [4u8; 32],
            custom_oracle_account: [5u8; 32],
            oracle_type: OracleType::Pyth,
            max_difference_threshold: 50,
            max_price_error: 100,
            max_price_age_sec: 60,
        },
        fees: Fees { open_position: 10, close_position: 10, liquidation: 100, protocol_share: 1_000 },
        permissions: all_allowed(),
        assets: Assets { collateral: 1_000_000, protocol_fees: 7, owned: 10_000_000, locked: 6_000_000 },
        collected_fees: FeesStats { open_position_usd: 1, close_position_usd: 2, liquidation_usd: 3 },
        volume_stats: VolumeStats { open_position_usd: 4, close_position_usd: 5, liquidation_usd: 6 },
        trade_stats: TradeStats { profit_usd: 8, loss_usd: 9, oi_long: 5_000_000, oi_short: 1_000 },
    }
}

fn feed(spot: i64, conf: u64) -> Option<PriceFeed> {
    let reading = FeedPrice { price: spot, conf, expo: -6, publish_time: NOW - 5 };
    Some(PriceFeed { price: reading, ema_price: reading })
}

fn position(side: Side) -> Position {
    Position {
        owner: [6u8; 32],
        custody: [7u8; 32],
        collateral_custody: [8u8; 32],
        update_time: NOW - 1_000,
        side,
        price: 2_500_000,
        size_usd: 10_000_000,
        collateral_usd: 1_000_000,
        locked_amount: 5_000_000,
        collateral_amount: 400_000,
    }
}

fn liquidate_long() -> Liquidate {
    Liquidate {
        permissions: all_allowed(),
        curtime: NOW,
        position: position(Side::Long),
        custody: custody(false, 6),
        custody_oracle_account: feed(2_000_000, 0),
        custody_custom_oracle_account: None,
        collateral_custody: custody(false, 6),
        collateral_custody_oracle_account: feed(2_000_000, 0),
        collateral_custody_custom_oracle_account: None,
    }
}

fn liquidate_short() -> Liquidate {
    Liquidate {
        position: Position {
            locked_amount: 5_000_000_000,
            collateral_amount: 400_000_000,
            ..position(Side::Short)
        },
        collateral_custody: Custody {
            assets: Assets {
                collateral: 1_000_000_000,
                protocol_fees: 7,
                owned: 10_000_000_000,
                locked: 6_000_000_000,
            },
            ..custody(true, 9)
        },
        collateral_custody_oracle_account: feed(1_000_000, 0),
        ..liquidate_long()
    }
}

fn withdraw_long() -> RemoveCollateral {
    RemoveCollateral {
        permissions: all_allowed(),
        curtime: NOW,
        position: Position {
            size_usd: 10_000_000_000,
            collateral_usd: 5_000_000_000,
            collateral_amount: 5_000_000_000,
            ..position(Side::Long)
        },
        custody: Custody {
            assets: Assets { collateral: 9_000_000_000, ..custody(true, 6).assets },
            ..custody(true, 6)
        },
        custody_oracle_account: feed(1_000_000, 0),
        custody_custom_oracle_account: None,
        collateral_custody: Custody {
            assets: Assets { collateral: 9_000_000_000, ..custody(true, 6).assets },
            ..custody(true, 6)
        },
        collateral_custody_oracle_account: feed(1_000_000, 0),
        collateral_custody_custom_oracle_account: None,
    }
}

#[test]
fn position_within_leverage_cannot_be_liquidated() {
    // opened at ten times leverage, far inside the pool's bound of one hundred
    let ctx = liquidate_long();
    assert_eq!(
        liquidate(&ctx, &LiquidateParams {}, &pool()),
        Err(PerpetualsError::InvalidPositionState)
    );
    let ctx = liquidate_short();
    assert_eq!(
        liquidate(&ctx, &LiquidateParams {}, &pool()),
        Err(PerpetualsError::InvalidPositionState)
    );
}

#[test]
fn liquidation_needs_both_permissions() {
    let p = TestPool { max_leverage: Ok(5), close_amount: Ok((300_000, 0, 0, 0)), ..pool() };
    let mut ctx = liquidate_long();
    ctx.permissions.allow_close_position = false;
    assert_eq!(liquidate(&ctx, &LiquidateParams {}, &p), Err(PerpetualsError::InstructionNotAllowed));
    let mut ctx = liquidate_long();
    ctx.custody.permissions.allow_close_position = false;
    assert_eq!(liquidate(&ctx, &LiquidateParams {}, &p), Err(PerpetualsError::InstructionNotAllowed));
    // the collateral custody's flag is not consulted
    let mut ctx = liquidate_long();
    ctx.collateral_custody.permissions.allow_close_position = false;
    assert!(liquidate(&ctx, &LiquidateParams {}, &p).is_ok());
    // permissions come before prices
    let mut ctx = liquidate_long();
    ctx.permissions.allow_close_position = false;
    ctx.custody_oracle_account = None;
    assert_eq!(liquidate(&ctx, &LiquidateParams {}, &p), Err(PerpetualsError::InstructionNotAllowed));
}

#[test]
fn liquidation_of_a_long_position() {
    let p = TestPool { max_leverage: Ok(5), close_amount: Ok((300_000, 10_000, 0, 200_000)), ..pool() };
    let ctx = liquidate_long();
    let done = liquidate(&ctx, &LiquidateParams {}, &p).unwrap();

    // 10_000 tokens at 2 USD
    assert_eq!(done.fee_amount_usd, 20_000);
    assert_eq!(done.fee_amount, 10_000);
    // one percent of 10 USD, at 2 USD per token
    assert_eq!(done.reward, 50_000);
    assert_eq!(done.remaining_amount, 250_000);

    let c = done.collateral_custody;
    assert_eq!(c.assets.locked, 1_000_000);
    assert_eq!(c.assets.collateral, 600_000);
    assert_eq!(c.assets.protocol_fees, 1_007);
    assert_eq!(c.assets.owned, 10_000_000 + 100_000 - 1_000);
    assert_eq!(c.collected_fees.liquidation_usd, 20_003);
    assert_eq!(c.collected_fees.close_position_usd, 2);
    assert_eq!(c.volume_stats.liquidation_usd, 10_000_006);
    // 10 USD at the entry price of 2.5 USD are 4 tokens
    assert_eq!(c.trade_stats.oi_long, 1_000_000);
    assert_eq!(c.trade_stats.oi_short, 1_000);
    assert_eq!(c.trade_stats.profit_usd, 8);
    assert_eq!(c.trade_stats.loss_usd, 200_009);
    // one record in two roles: both copies are the same
    assert_eq!(done.custody, done.collateral_custody);
}

#[test]
fn liquidation_of_a_short_position() {
    let p = TestPool { max_leverage: Ok(5), close_amount: Ok((500_000_000, 10_000, 70, 0)), ..pool() };
    let ctx = liquidate_short();
    let done = liquidate(&ctx, &LiquidateParams {}, &p).unwrap();

    // the fee of 10_000 asset tokens is worth 0.02 USD, paid in nine-decimal collateral
    assert_eq!(done.fee_amount_usd, 20_000);
    assert_eq!(done.fee_amount, 20_000_000);
    assert_eq!(done.reward, 100_000_000);
    assert_eq!(done.remaining_amount, 400_000_000);

    // balances move on the collateral custody only
    let c = done.collateral_custody;
    assert_eq!(c.assets.locked, 1_000_000_000);
    assert_eq!(c.assets.collateral, 600_000_000);
    assert_eq!(c.assets.protocol_fees, 2_000_007);
    assert_eq!(c.assets.owned, 10_000_000_000 - 100_000_000 - 2_000_000);
    assert_eq!(c.collected_fees.liquidation_usd, 20_003);
    assert_eq!(c.volume_stats, ctx.collateral_custody.volume_stats);
    assert_eq!(c.trade_stats, ctx.collateral_custody.trade_stats);

    // statistics move on the asset custody only, open interest stops at zero
    let a = done.custody;
    assert_eq!(a.assets, ctx.custody.assets);
    assert_eq!(a.collected_fees, ctx.custody.collected_fees);
    assert_eq!(a.volume_stats.liquidation_usd, 10_000_006);
    assert_eq!(a.trade_stats.oi_short, 0);
    assert_eq!(a.trade_stats.oi_long, 5_000_000);
    assert_eq!(a.trade_stats.profit_usd, 78);
    assert_eq!(a.trade_stats.loss_usd, 9);
}

#[test]
fn liquidation_ignores_the_close_only_flag() {
    let p = TestPool { max_leverage: Ok(5), close_amount: Ok((300_000, 10_000, 0, 0)), ..pool() };
    let mut ctx = liquidate_long();
    // spot far from its average and a confidence of two percent: close-only
    let spot = FeedPrice { price: 2_000_000, conf: 40_000, expo: -6, publish_time: NOW };
    let wide = Some(PriceFeed { price: spot, ema_price: FeedPrice { price: 2_100_000, ..spot } });
    ctx.custody_oracle_account = wide;
    ctx.collateral_custody_oracle_account = wide;
    let band = OraclePrice::new_from_oracle(&wide, &ctx.custody.oracle, NOW, &None, false).unwrap();
    assert!(band.2);
    let done = liquidate(&ctx, &LiquidateParams {}, &p).unwrap();
    // fee valued at the highest asset price, reward converted at the highest collateral price
    assert_eq!(done.fee_amount_usd, 20_400);
    assert_eq!(done.reward, 49_019);
}

#[test]
fn liquidation_fails_as_a_whole() {
    let ctx = liquidate_long();
    let params = LiquidateParams {};
    // a stale or unreadable feed of either custody
    let mut stale = ctx;
    stale.curtime = NOW + 56;
    assert_eq!(liquidate(&stale, &params, &pool()), Err(PerpetualsError::InvalidOraclePrice));
    let mut unreadable = ctx;
    unreadable.collateral_custody_oracle_account = None;
    assert_eq!(liquidate(&unreadable, &params, &pool()), Err(PerpetualsError::InvalidOracleAccount));
    // the pool's failures are passed on
    let failing = TestPool { max_leverage: Err(PerpetualsError::CustodyAmountLimit), ..pool() };
    assert_eq!(liquidate(&ctx, &params, &failing), Err(PerpetualsError::CustodyAmountLimit));
    let failing = TestPool { max_leverage: Ok(5), close_amount: Err(PerpetualsError::MaxLeverage), ..pool() };
    assert_eq!(liquidate(&ctx, &params, &failing), Err(PerpetualsError::MaxLeverage));
    let failing = TestPool { max_leverage: Ok(5), fee_amounts_fail: true, ..pool() };
    assert_eq!(liquidate(&ctx, &params, &failing), Err(PerpetualsError::MathOverflow));
    // the reward exceeds the amount out
    let small = TestPool { max_leverage: Ok(5), close_amount: Ok((49_999, 0, 0, 0)), ..pool() };
    assert_eq!(liquidate(&ctx, &params, &small), Err(PerpetualsError::MathOverflow));
    let enough = TestPool { max_leverage: Ok(5), close_amount: Ok((50_000, 0, 0, 0)), ..pool() };
    assert_eq!(liquidate(&ctx, &params, &enough).unwrap().remaining_amount, 0);
    // the custody cannot pay the amount out, even after the position's reservation is released
    let large = TestPool { max_leverage: Ok(5), close_amount: Ok((10_000_001, 0, 0, 0)), ..pool() };
    assert_eq!(liquidate(&ctx, &params, &large), Err(PerpetualsError::CustodyAmountLimit));
    let exact = TestPool { max_leverage: Ok(5), close_amount: Ok((10_000_000, 0, 0, 0)), ..pool() };
    assert!(liquidate(&ctx, &params, &exact).is_ok());
    // the custody holds less posted collateral than the position claims
    let mut short_of_collateral = ctx;
    short_of_collateral.collateral_custody.assets.collateral = 399_999;
    let p = TestPool { max_leverage: Ok(5), close_amount: Ok((300_000, 0, 0, 0)), ..pool() };
    assert_eq!(liquidate(&short_of_collateral, &params, &p), Err(PerpetualsError::MathOverflow));
}

#[test]
fn protocol_fee_is_skipped_when_the_custody_cannot_spare_it() {
    let mut ctx = liquidate_long();
    ctx.collateral_custody.assets = Assets { collateral: 400_000, protocol_fees: 7, owned: 500, locked: 5_000_000 };
    // a protocol share of 100 percent of a fee of 10_000 tokens
    ctx.custody.fees.protocol_share = 10_000;
    let p = TestPool { max_leverage: Ok(5), close_amount: Ok((400_000, 10_000, 0, 0)), ..pool() };
    let done = liquidate(&ctx, &LiquidateParams {}, &p).unwrap();
    assert_eq!(done.collateral_custody.assets.protocol_fees, 7);
    assert_eq!(done.collateral_custody.assets.owned, 500);
    assert_eq!(done.collateral_custody.assets.collateral, 0);

    assert_eq!(set_protocol_fee_aside(&ctx.custody, 10, false), Ok(ctx.custody));
    let aside = set_protocol_fee_aside(&ctx.custody, 10, true).unwrap();
    assert_eq!(aside.assets.protocol_fees, 17);
    assert_eq!(aside.assets.owned, 9_999_990);
    assert_eq!(
        set_protocol_fee_aside(&ctx.custody, 10_000_001, true),
        Err(PerpetualsError::MathOverflow)
    );
}

#[test]
fn liquidation_counters_follow_their_own_arithmetic() {
    let mut c = custody(false, 6);
    c.collected_fees.liquidation_usd = u64::MAX;
    c.trade_stats.profit_usd = u64::MAX - 1;
    c.trade_stats.loss_usd = u64::MAX;
    let pos = position(Side::Long);
    // fee revenue wraps
    let booked = book_liquidation(&c, &pos, 400_000, 5).unwrap();
    assert_eq!(booked.collected_fees.liquidation_usd, 4);
    assert_eq!(booked.assets.owned, 10_000_000);
    // the pool's own tokens are checked in both directions
    assert_eq!(book_liquidation(&c, &pos, 10_400_001, 0), Err(PerpetualsError::MathOverflow));
    assert_eq!(book_liquidation(&c, &pos, 10_400_000, 0).unwrap().assets.owned, 0);
    let mut full = c;
    full.assets.owned = u64::MAX;
    assert_eq!(book_liquidation(&full, &pos, 399_999, 0), Err(PerpetualsError::MathOverflow));
    // profit and loss wrap, open interest saturates, volume is checked
    let closed = close_position_stats(&c, &pos, 6_000_000, 3, 1).unwrap();
    assert_eq!(closed.trade_stats.profit_usd, 1);
    assert_eq!(closed.trade_stats.loss_usd, 0);
    assert_eq!(closed.trade_stats.oi_long, 0);
    assert_eq!(closed.trade_stats.oi_short, 1_000);
    let short = close_position_stats(&c, &position(Side::Short), 400, 0, 0).unwrap();
    assert_eq!(short.trade_stats.oi_short, 600);
    assert_eq!(short.trade_stats.oi_long, 5_000_000);
    let mut busy = c;
    busy.volume_stats.liquidation_usd = u64::MAX - 9_999_999;
    assert_eq!(close_position_stats(&busy, &pos, 0, 0, 0), Err(PerpetualsError::MathOverflow));
}

#[test]
fn liquidation_fee_and_reward() {
    let c = custody(false, 6);
    let stable = custody(true, 9);
    let two = OraclePrice::new(2_000_000, -6);
    let one = OraclePrice::new(1_000_000, -6);
    assert_eq!(get_liquidation_fee(10_000, Side::Long, &c, &two, &stable, &one), Ok((20_000, 10_000)));
    assert_eq!(get_liquidation_fee(10_000, Side::Short, &c, &two, &stable, &one), Ok((20_000, 20_000_000)));
    let synthetic = Custody { is_virtual: true, ..c };
    assert_eq!(get_liquidation_fee(10_000, Side::Long, &synthetic, &two, &stable, &one), Ok((20_000, 20_000_000)));
    assert_eq!(
        get_liquidation_fee(u64::MAX, Side::Long, &c, &two, &stable, &one),
        Err(PerpetualsError::MathOverflow)
    );
    assert_eq!(get_liquidation_reward(100_000, &two, 6, 300_000), Ok((50_000, 250_000)));
    assert_eq!(get_liquidation_reward(100_000, &two, 6, 49_999), Err(PerpetualsError::MathOverflow));
    assert_eq!(get_liquidation_reward(0, &two, 6, 0), Ok((0, 0)));
}

#[test]
fn withdrawal_rejects_nothing_and_everything() {
    let ctx = withdraw_long();
    for collateral_usd in [0, 5_000_000_000, 5_000_000_001, u64::MAX] {
        assert_eq!(
            remove_collateral(&ctx, &RemoveCollateralParams { collateral_usd }, &pool()),
            Err(PerpetualsError::InvalidArgument)
        );
    }
    assert!(remove_collateral(&ctx, &RemoveCollateralParams { collateral_usd: 1 }, &pool()).is_ok());
}

#[test]
fn withdrawal_needs_both_permissions() {
    let params = RemoveCollateralParams { collateral_usd: 1_000_000_000 };
    let mut ctx = withdraw_long();
    ctx.permissions.allow_collateral_withdrawal = false;
    assert_eq!(remove_collateral(&ctx, &params, &pool()), Err(PerpetualsError::InstructionNotAllowed));
    let mut ctx = withdraw_long();
    ctx.custody.permissions.allow_collateral_withdrawal = false;
    assert_eq!(remove_collateral(&ctx, &params, &pool()), Err(PerpetualsError::InstructionNotAllowed));
    // permissions come before the argument
    assert_eq!(
        remove_collateral(&ctx, &RemoveCollateralParams { collateral_usd: 0 }, &pool()),
        Err(PerpetualsError::InstructionNotAllowed)
    );
}

#[test]
fn withdrawal_at_one_dollar_without_fee() {
    // 1000 USD out of 5000 USD, in a six-decimal token worth exactly one dollar
    let ctx = withdraw_long();
    let params = RemoveCollateralParams { collateral_usd: 1_000_000_000 };
    let done = remove_collateral(&ctx, &params, &pool()).unwrap();
    assert_eq!(done.collateral_amount, 1_000_000_000);
    assert_eq!(done.transfer_amount, 1_000_000_000);
    assert_eq!(done.fee_amount, 0);
    assert_eq!(done.position.collateral_usd, 4_000_000_000);
    assert_eq!(done.position.collateral_amount, 4_000_000_000);
    assert_eq!(done.position.update_time, NOW);
    assert_eq!(done.position.size_usd, ctx.position.size_usd);
    assert_eq!(done.collateral_custody.assets.collateral, 8_000_000_000);
    assert_eq!(done.collateral_custody.assets.protocol_fees, 7);
    assert_eq!(done.collateral_custody.assets.owned, 10_000_000);
    assert_eq!(done.collateral_custody.collected_fees, ctx.collateral_custody.collected_fees);
    assert_eq!(done.custody, done.collateral_custody);

    // one dollar out of five: a million base units
    let mut small = ctx;
    small.position.collateral_usd = 5_000_000;
    small.position.collateral_amount = 5_000_000;
    small.position.size_usd = 10_000_000;
    let done = remove_collateral(&small, &RemoveCollateralParams { collateral_usd: 1_000_000 }, &pool()).unwrap();
    assert_eq!(done.collateral_amount, 1_000_000);
    assert_eq!(done.transfer_amount, 1_000_000);
    assert_eq!(done.position.collateral_usd, 4_000_000);
}

#[test]
fn withdrawal_with_a_fee_across_a_band() {
    // a stable collateral at 0.98 USD: band from 0.98 to 1.00
    let mut ctx = withdraw_long();
    ctx.position.side = Side::Short;
    ctx.collateral_custody_oracle_account = feed(980_000, 0);
    ctx.collateral_custody.collected_fees.close_position_usd = u64::MAX;
    let p = TestPool { collateral_fee: Ok(4_900_000), ..pool() };
    let params = RemoveCollateralParams { collateral_usd: 1_000_000_000 };
    let done = remove_collateral(&ctx, &params, &p).unwrap();
    // the fee at the lowest price, the withdrawal at the highest
    assert_eq!(done.fee_amount, 5_000_000);
    assert_eq!(done.collateral_amount, 1_000_000_000);
    assert_eq!(done.transfer_amount, 995_000_000);
    assert_eq!(done.position.collateral_usd, 4_000_000_000);
    assert_eq!(done.position.collateral_amount, 4_000_000_000);
    let c = done.collateral_custody;
    assert_eq!(c.assets.collateral, 8_000_000_000);
    // ten percent of the fee goes to the protocol, whatever the custody holds
    assert_eq!(c.assets.protocol_fees, 500_007);
    assert_eq!(c.assets.owned, 10_000_000);
    assert_eq!(c.collected_fees.close_position_usd, 4_899_999);
    // a short's asset custody is a record of its own and stays as it was
    assert_eq!(done.custody, ctx.custody);
}

#[test]
fn withdrawal_fails_as_a_whole() {
    let ctx = withdraw_long();
    let params = RemoveCollateralParams { collateral_usd: 1_000_000_000 };
    // either band close-only
    let spot = FeedPrice { price: 2_000_000, conf: 40_000, expo: -6, publish_time: NOW };
    let wide = Some(PriceFeed { price: spot, ema_price: FeedPrice { price: 2_100_000, ..spot } });
    let mut close_only = ctx;
    close_only.custody.is_stable = false;
    close_only.custody_oracle_account = wide;
    assert_eq!(remove_collateral(&close_only, &params, &pool()), Err(PerpetualsError::InvalidOraclePrice));
    let mut close_only = ctx;
    close_only.collateral_custody.is_stable = false;
    close_only.collateral_custody_oracle_account = wide;
    assert_eq!(remove_collateral(&close_only, &params, &pool()), Err(PerpetualsError::InvalidOraclePrice));
    // a stale feed
    let mut stale = ctx;
    stale.curtime = NOW + 56;
    assert_eq!(remove_collateral(&stale, &params, &pool()), Err(PerpetualsError::InvalidOraclePrice));
    // the position holds fewer tokens than the withdrawal takes
    let mut thin = ctx;
    thin.position.collateral_amount = 999_999_999;
    assert_eq!(remove_collateral(&thin, &params, &pool()), Err(PerpetualsError::InsufficientFunds));
    thin.position.collateral_amount = 1_000_000_000;
    assert_eq!(remove_collateral(&thin, &params, &pool()).unwrap().position.collateral_amount, 0);
    // the leverage after the withdrawal: 10_000 USD on 4_000 USD is 2.5, the bound for changes 2
    let strict = TestPool { max_leverage: Ok(4), ..pool() };
    assert_eq!(remove_collateral(&ctx, &params, &strict), Err(PerpetualsError::MaxLeverage));
    let lenient = TestPool { max_leverage: Ok(6), ..pool() };
    assert!(remove_collateral(&ctx, &params, &lenient).is_ok());
    // before the withdrawal the position was within the strict bound
    assert_eq!(strict.check_leverage(
        &ctx.position,
        &OraclePrice::new(1, 0),
        &OraclePrice::new(1, 0),
        &ctx.custody,
        &OraclePrice::new(1, 0),
        &OraclePrice::new(1, 0),
        &ctx.collateral_custody,
        NOW,
        true,
    ), Ok(true));
    // the fee exceeds the withdrawal
    let greedy = TestPool { collateral_fee: Ok(1_000_000_001), ..pool() };
    assert_eq!(remove_collateral(&ctx, &params, &greedy), Err(PerpetualsError::MathOverflow));
    // the pool's failures are passed on
    let failing = TestPool { collateral_fee: Err(PerpetualsError::CustodyAmountLimit), ..pool() };
    assert_eq!(remove_collateral(&ctx, &params, &failing), Err(PerpetualsError::CustodyAmountLimit));
    let failing = TestPool { max_leverage: Err(PerpetualsError::InvalidPositionState), ..pool() };
    assert_eq!(remove_collateral(&ctx, &params, &failing), Err(PerpetualsError::InvalidPositionState));
    // the custody holds less posted collateral than is withdrawn
    let mut short_of_collateral = ctx;
    short_of_collateral.collateral_custody.assets.collateral = 999_999_999;
    assert_eq!(remove_collateral(&short_of_collateral, &params, &pool()), Err(PerpetualsError::MathOverflow));
}

#[test]
fn withdrawal_amounts_in_tokens() {
    let low = OraclePrice::new(980_000, -6);
    let high = OraclePrice::new(1_000_000, -6);
    assert_eq!(
        get_withdrawal_amounts(1_000_000_000, 4_900_000, &low, &high, 6),
        Ok((5_000_000, 1_000_000_000, 995_000_000))
    );
    assert_eq!(get_withdrawal_amounts(7, 0, &low, &high, 6), Ok((0, 7, 7)));
    assert_eq!(get_withdrawal_amounts(7, 7, &low, &high, 6), Ok((7, 7, 0)));
    assert_eq!(get_withdrawal_amounts(7, 8, &low, &high, 6), Err(PerpetualsError::MathOverflow));
    assert_eq!(
        get_withdrawal_amounts(u64::MAX, 0, &low, &high, 9),
        Err(PerpetualsError::MathOverflow)
    );
}

#[test]
fn profit_and_loss_come_from_the_pool() {
    let ctx = GetPnl {
        curtime: NOW,
        position: position(Side::Long),
        custody: custody(false, 6),
        custody_oracle_account: feed(2_000_000, 0),
        custody_custom_oracle_account: None,
        collateral_custody: custody(true, 6),
        collateral_custody_oracle_account: feed(1_000_000, 0),
        collateral_custody_custom_oracle_account: Some(CustomOracle::default()),
    };
    let p = TestPool { pnl: Ok((12, 34, 56)), ..pool() };
    assert_eq!(get_pnl(&ctx, &GetPnlParams {}, &p), Ok(ProfitAndLoss { profit: 12, loss: 34 }));
    let failing = TestPool { pnl: Err(PerpetualsError::MathOverflow), ..pool() };
    assert_eq!(get_pnl(&ctx, &GetPnlParams {}, &failing), Err(PerpetualsError::MathOverflow));
    let mut unreadable = ctx;
    unreadable.custody_oracle_account = None;
    assert_eq!(get_pnl(&unreadable, &GetPnlParams {}, &p), Err(PerpetualsError::InvalidOracleAccount));
    let mut stale = ctx;
    stale.collateral_custody.oracle.max_price_age_sec = 4;
    assert_eq!(get_pnl(&stale, &GetPnlParams {}, &p), Err(PerpetualsError::InvalidOraclePrice));
}

#[test]
fn exit_price_and_fee() {
    let spot = FeedPrice { price: 2_000_000, conf: 10_000, expo: -6, publish_time: NOW };
    let banded = Some(PriceFeed { price: spot, ema_price: FeedPrice { price: 2_100_000, ..spot } });
    let ctx = GetExitPriceAndFee {
        curtime: NOW,
        position: position(Side::Long),
        custody: custody(false, 6),
        custody_oracle_account: banded,
        custody_custom_oracle_account: None,
        collateral_custody: custody(true, 9),
        collateral_custody_oracle_account: feed(980_000, 0),
        collateral_custody_custom_oracle_account: None,
    };
    let p = TestPool { exit_fee: Ok(10_000), ..pool() };
    // a long pays the fee as the pool states it, and exits at the low end of the band
    assert_eq!(
        get_exit_price_and_fee(&ctx, &GetExitPriceAndFeeParams {}, &p),
        Ok(PriceAndFee { price: 1_990_000, fee: 10_000 })
    );
    // a short pays in collateral: 10_000 tokens at 2.01 USD, in tokens of 0.98 USD
    let mut short = ctx;
    short.position.side = Side::Short;
    assert_eq!(
        get_exit_price_and_fee(&short, &GetExitPriceAndFeeParams {}, &p),
        Ok(PriceAndFee { price: 2_010_000, fee: 20_510_204 })
    );
    let mut synthetic = ctx;
    synthetic.custody.is_virtual = true;
    assert_eq!(
        get_exit_price_and_fee(&synthetic, &GetExitPriceAndFeeParams {}, &p),
        Ok(PriceAndFee { price: 1_990_000, fee: 20_510_204 })
    );
    let failing = TestPool { exit_fee: Err(PerpetualsError::InvalidArgument), ..pool() };
    assert_eq!(
        get_exit_price_and_fee(&ctx, &GetExitPriceAndFeeParams {}, &failing),
        Err(PerpetualsError::InvalidArgument)
    );
    let mut unreadable = ctx;
    unreadable.collateral_custody_oracle_account = None;
    assert_eq!(
        get_exit_price_and_fee(&unreadable, &GetExitPriceAndFeeParams {}, &p),
        Err(PerpetualsError::InvalidOracleAccount)
    );
    let two = OraclePrice::new(2_010_000, -6);
    let low = OraclePrice::new(980_000, -6);
    assert_eq!(
        get_fee_as_charged(10_000, Side::Short, &ctx.custody, &two, &ctx.collateral_custody, &low),
        Ok(20_510_204)
    );
    assert_eq!(
        get_fee_as_charged(u64::MAX, Side::Long, &ctx.custody, &two, &ctx.collateral_custody, &low),
        Ok(u64::MAX)
    );
}

#[test]
fn share_redemption() {
    let ctx = GetRemoveLiquidityAmountAndFee {
        curtime: NOW,
        custody_key: [9u8; 32],
        custody: custody(false, 9),
        custody_oracle_account: feed(2_000_000, 0),
        custody_custom_oracle_account: None,
        lp_token_supply: 3_000_000,
    };
    // a pool worth 100 USD; a third of the shares, at 2 USD per token, less the fee
    let p = TestPool { aum: Ok(100_000_000), remove_liquidity_fee: Ok(166_666), token_id: Ok(4), ..pool() };
    let params = GetRemoveLiquidityAmountAndFeeParams { lp_amount_in: 1_000_000 };
    assert_eq!(
        get_remove_liquidity_amount_and_fee(&ctx, &params, &p),
        Ok(AmountAndFee { amount: 16_666_666_500 - 166_666, fee: 166_666 })
    );
    assert_eq!(
        get_remove_liquidity_amount_and_fee(&ctx, &GetRemoveLiquidityAmountAndFeeParams { lp_amount_in: 0 }, &p),
        Err(PerpetualsError::InvalidArgument)
    );
    let mut no_supply = ctx;
    no_supply.lp_token_supply = 0;
    assert_eq!(
        get_remove_liquidity_amount_and_fee(&no_supply, &params, &p),
        Err(PerpetualsError::MathOverflow)
    );
    let greedy = TestPool { remove_liquidity_fee: Ok(16_666_666_501), ..p };
    assert_eq!(
        get_remove_liquidity_amount_and_fee(&ctx, &params, &greedy),
        Err(PerpetualsError::MathOverflow)
    );
    let unknown = TestPool { token_id: Err(PerpetualsError::InvalidArgument), ..pool() };
    assert_eq!(
        get_remove_liquidity_amount_and_fee(&ctx, &params, &unknown),
        Err(PerpetualsError::InvalidArgument)
    );
    let failing = TestPool { aum: Err(PerpetualsError::InvalidOraclePrice), ..pool() };
    assert_eq!(
        get_remove_liquidity_amount_and_fee(&ctx, &params, &failing),
        Err(PerpetualsError::InvalidOraclePrice)
    );
    let mut stale = ctx;
    stale.curtime = NOW + 56;
    assert_eq!(
        get_remove_liquidity_amount_and_fee(&stale, &params, &p),
        Err(PerpetualsError::InvalidOraclePrice)
    );
}

#[test]
fn redeemed_amount_uses_a_wide_intermediate() {
    let one = OraclePrice::new(1_000_000, -6);
    assert_eq!(get_redeemed_amount(100_000_000, 1_000_000, 3_000_000, &one, 6), Ok(33_333_333));
    // the product exceeds 64 bits, the share does not
    assert_eq!(get_redeemed_amount(u64::MAX as u128, u64::MAX, u64::MAX, &one, 6), Ok(u64::MAX));
    assert_eq!(
        get_redeemed_amount(u64::MAX as u128 + 1, u64::MAX, u64::MAX, &one, 6),
        Err(PerpetualsError::MathOverflow)
    );
    assert_eq!(
        get_redeemed_amount(u128::MAX, 2, 2, &one, 6),
        Err(PerpetualsError::MathOverflow)
    );
    assert_eq!(get_redeemed_amount(5, 1, 0, &one, 6), Err(PerpetualsError::MathOverflow));
    assert_eq!(get_redeemed_amount(0, 1, 1, &one, 6), Ok(0));
}

#[test]
fn unlocking_stops_at_zero() {
    let mut c = custody(false, 6);
    c.unlock_funds(1_000_000);
    assert_eq!(c.assets.locked, 5_000_000);
    c.unlock_funds(5_000_001);
    assert_eq!(c.assets.locked, 0);
    assert_eq!(c.assets.owned, 10_000_000);
    assert_eq!(position(Side::Long).get_entry_price(), OraclePrice::new(2_500_000, -6));
}
