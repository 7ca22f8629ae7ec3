//! The pool's valuation and risk policy, as the operations consult it.

use crate::error::PerpetualsError;
use crate::state::custody::Custody;
use crate::state::oracle::OraclePrice;
use crate::state::position::{Position, Side};
use vstd::prelude::*;

verus! {

/// Which end of each price band the pool's assets are valued at.
#[derive(Copy, Clone, PartialEq, Eq, Structural, Debug)]
pub enum AumCalcMode {
    Min,
    Max,
    Last,
    Ema,
}

/// The pool's policy functions. Each is a function of the state it is handed;
/// the operations fix what is asked and in which order, and pass on whatever
/// the pool answers.
pub trait PoolPolicy {
    /// The price at which a position of the given side is closed, chosen
    /// from a price band.
    fn get_exit_price(
        &self,
        token_min_price: &OraclePrice,
        token_max_price: &OraclePrice,
        side: Side,
        custody: &Custody,
    ) -> Result<u64, PerpetualsError>;

    /// The base fee, in USD, for closing a position of the given size.
    fn get_exit_fee(&self, size_usd: u64, custody: &Custody) -> Result<u64, PerpetualsError>;

    /// The fee, in USD, for withdrawing the given collateral.
    fn get_collateral_fee(&self, collateral_usd: u64, custody: &Custody) -> Result<
        u64,
        PerpetualsError,
    >;

    /// The fee, in tokens, for redeeming the given amount from the pool.
    fn get_remove_liquidity_fee(
        &self,
        token_id: usize,
        amount_remove: u64,
        custody: &Custody,
        token_price: &OraclePrice,
    ) -> Result<u64, PerpetualsError>;

    /// The share of `amount` that a rate in basis points stands for.
    fn get_fee_amount(&self, fee: u64, amount: u64) -> Result<u64, PerpetualsError>;

    /// The index of a custody among the pool's custodies.
    fn get_token_id(&self, custody: &[u8; 32]) -> Result<usize, PerpetualsError>;

    /// Profit, loss and exit fee of a position, in USD.
    fn get_pnl_usd(
        &self,
        position: &Position,
        token_min_price: &OraclePrice,
        token_max_price: &OraclePrice,
        custody: &Custody,
        collateral_token_min_price: &OraclePrice,
        collateral_token_max_price: &OraclePrice,
        collateral_custody: &Custody,
        curtime: i64,
        liquidation: bool,
    ) -> Result<(u64, u64, u64), PerpetualsError>;

    /// What closing a position pays out: `(amount out, fee, profit in USD,
    /// loss in USD)`.
    fn get_close_amount(
        &self,
        position: &Position,
        token_min_price: &OraclePrice,
        token_max_price: &OraclePrice,
        custody: &Custody,
        collateral_token_min_price: &OraclePrice,
        collateral_token_max_price: &OraclePrice,
        collateral_custody: &Custody,
        curtime: i64,
        liquidation: bool,
    ) -> Result<(u64, u64, u64, u64), PerpetualsError>;

    /// Whether a position is within the leverage the pool allows; with
    /// `initial` set, within the stricter bound for risk-increasing changes.
    fn check_leverage(
        &self,
        position: &Position,
        token_min_price: &OraclePrice,
        token_max_price: &OraclePrice,
        custody: &Custody,
        collateral_token_min_price: &OraclePrice,
        collateral_token_max_price: &OraclePrice,
        collateral_custody: &Custody,
        curtime: i64,
        initial: bool,
    ) -> Result<bool, PerpetualsError>;

    /// Whether a custody has `amount` of uncommitted tokens.
    fn check_available_amount(&self, amount: u64, custody: &Custody) -> Result<
        bool,
        PerpetualsError,
    >;

    /// The pool's assets under management, in USD.
    fn get_assets_under_management_usd(&self, aum_calc_mode: AumCalcMode, curtime: i64) -> Result<
        u128,
        PerpetualsError,
    >;
}

} // verus!
