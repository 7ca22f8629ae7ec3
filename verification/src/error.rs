//! Failure taxonomy. Every failure is terminal for the call that raised it.

use vstd::prelude::*;

verus! {

#[derive(Clone, Copy, Debug, PartialEq, Eq, Structural)]
pub enum PerpetualsError {
    /// A numeric argument is outside the accepted range.
    InvalidArgument,
    /// A permission flag required by the operation is unset.
    InstructionNotAllowed,
    /// The position is not in the state the operation needs.
    InvalidPositionState,
    /// The feed price is stale, non-positive, or the fallback path is missing.
    InvalidOraclePrice,
    /// The feed account is empty or unreadable.
    InvalidOracleAccount,
    /// The fallback feed record is older than allowed.
    StaleOraclePrice,
    /// The custody lacks free capacity for the requested amount.
    CustodyAmountLimit,
    /// The position would exceed the leverage bound.
    MaxLeverage,
    /// The withdrawal exceeds the posted collateral.
    InsufficientFunds,
    /// Checked arithmetic overflowed, underflowed or divided by zero.
    MathOverflow,
}

} // verus!
