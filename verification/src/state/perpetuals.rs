//! Protocol-wide constants, permission flags and the value results of the
//! read-only operations.

use vstd::prelude::*;

verus! {

/// Basis points in one.
pub const BPS_POWER: u128 = 10_000;

/// Decimals of a position's entry price.
pub const PRICE_DECIMALS: u8 = 6;

/// Decimals of every USD amount.
pub const USD_DECIMALS: u8 = 6;

/// Switches that gate each kind of operation.
#[derive(Copy, Clone, PartialEq, Eq, Debug)]
pub struct Permissions {
    pub allow_swap: bool,
    pub allow_add_liquidity: bool,
    pub allow_remove_liquidity: bool,
    pub allow_open_position: bool,
    pub allow_close_position: bool,
    pub allow_pnl_withdrawal: bool,
    pub allow_collateral_withdrawal: bool,
    pub allow_size_change: bool,
}

#[derive(Copy, Clone, PartialEq, Eq, Debug)]
pub struct PriceAndFee {
    pub price: u64,
    pub fee: u64,
}

#[derive(Copy, Clone, PartialEq, Eq, Debug)]
pub struct AmountAndFee {
    pub amount: u64,
    pub fee: u64,
}

#[derive(Copy, Clone, PartialEq, Eq, Debug)]
pub struct ProfitAndLoss {
    pub profit: u64,
    pub loss: u64,
}

} // verus!
