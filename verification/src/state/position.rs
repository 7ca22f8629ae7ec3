//! A leveraged position.

use crate::state::oracle::OraclePrice;
use crate::state::perpetuals::PRICE_DECIMALS;
use vstd::prelude::*;

verus! {

#[derive(Copy, Clone, PartialEq, Eq, Structural, Debug)]
pub enum Side {
    Long,
    Short,
}

#[derive(Copy, Clone, PartialEq, Eq, Debug)]
pub struct Position {
    pub owner: [u8; 32],
    /// The custody of the traded asset.
    pub custody: [u8; 32],
    /// The custody that holds the collateral.
    pub collateral_custody: [u8; 32],
    pub update_time: i64,
    pub side: Side,
    /// Entry price, with `PRICE_DECIMALS` decimals.
    pub price: u64,
    pub size_usd: u64,
    pub collateral_usd: u64,
    /// Capacity of the collateral custody reserved for this position.
    pub locked_amount: u64,
    pub collateral_amount: u64,
}

impl Position {
    /// The entry price as a fixed-point number.
    pub open spec fn entry_price(self) -> OraclePrice {
        OraclePrice { price: self.price, exponent: (-(PRICE_DECIMALS as int)) as i32 }
    }

    pub fn get_entry_price(&self) -> (r: OraclePrice)
        ensures
            r == self.entry_price(),
    {
        OraclePrice { price: self.price, exponent: -(PRICE_DECIMALS as i32) }
    }
}

} // verus!
