//! The record of one asset held by the pool.

use crate::error::PerpetualsError;
use crate::state::oracle::{price_band, OracleParams, OraclePrice, PriceFeed};
use crate::state::perpetuals::Permissions;
use vstd::prelude::*;

verus! {

/// Fee rates, in basis points.
#[derive(Copy, Clone, PartialEq, Eq, Debug)]
pub struct Fees {
    pub open_position: u64,
    pub close_position: u64,
    pub liquidation: u64,
    pub protocol_share: u64,
}

/// Fee revenue collected so far, in USD. Telemetry: updated with wrapping
/// arithmetic.
#[derive(Copy, Clone, PartialEq, Eq, Debug)]
pub struct FeesStats {
    pub open_position_usd: u64,
    pub close_position_usd: u64,
    pub liquidation_usd: u64,
}

/// Traded volume so far, in USD.
#[derive(Copy, Clone, PartialEq, Eq, Debug)]
pub struct VolumeStats {
    pub open_position_usd: u64,
    pub close_position_usd: u64,
    pub liquidation_usd: u64,
}

/// Realised profit and loss of traders, and open interest per side in token
/// units.
#[derive(Copy, Clone, PartialEq, Eq, Debug)]
pub struct TradeStats {
    pub profit_usd: u64,
    pub loss_usd: u64,
    pub oi_long: u64,
    pub oi_short: u64,
}

/// Token balances of the custody.
#[derive(Copy, Clone, PartialEq, Eq, Debug)]
pub struct Assets {
    /// Collateral posted by open positions.
    pub collateral: u64,
    /// Fees set aside for the protocol.
    pub protocol_fees: u64,
    /// Tokens owned by the pool.
    pub owned: u64,
    /// Tokens reserved to pay off open positions.
    pub locked: u64,
}

#[derive(Copy, Clone, PartialEq, Eq, Debug)]
pub struct Custody {
    pub mint: [u8; 32],
    pub decimals: u8,
    pub is_stable: bool,
    pub is_virtual: bool,
    pub oracle: OracleParams,
    pub fees: Fees,
    pub permissions: Permissions,
    pub assets: Assets,
    pub collected_fees: FeesStats,
    pub volume_stats: VolumeStats,
    pub trade_stats: TradeStats,
}

impl Custody {
    /// The price band of this custody's asset for the given content of its
    /// feed account: `(min_price, max_price, close_only)`.
    pub open spec fn band(self, oracle_account: Option<PriceFeed>, curtime: i64) -> Result<
        (OraclePrice, OraclePrice, bool),
        PerpetualsError,
    > {
        price_band(oracle_account, self.oracle, curtime, self.is_stable)
    }

    /// This custody with `amount` of its reserved tokens released. The
    /// reservation never goes below zero.
    pub open spec fn unlocked(self, amount: u64) -> Custody {
        Custody {
            assets: Assets {
                locked: if amount > self.assets.locked {
                    0
                } else {
                    (self.assets.locked - amount) as u64
                },
                ..self.assets
            },
            ..self
        }
    }

    /// Releases `amount` of the reserved tokens.
    pub fn unlock_funds(&mut self, amount: u64)
        ensures
            *final(self) == old(self).unlocked(amount),
    {
        if amount > self.assets.locked {
            self.assets.locked = 0;
        } else {
            self.assets.locked = self.assets.locked - amount;
        }
    }
}

} // verus!
