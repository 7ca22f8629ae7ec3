//! The operations: read-only valuations and the two settlements.

pub mod get_exit_price_and_fee;
pub mod get_pnl;
pub mod get_remove_liquidity_amount_and_fee;
pub mod liquidate;
pub mod remove_collateral;
