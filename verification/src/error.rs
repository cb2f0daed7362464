//! Why an operation on the pool was refused.

use vstd::prelude::*;

verus! {

/// Every refusal leaves the pool exactly as it was.
#[derive(Clone, Copy, Debug, PartialEq, Eq, Structural)]
pub enum PoolError {
    /// A payment or collateral amount of zero.
    InvalidAmount,
    /// The all-zero address as caller.
    InvalidAddress,
    /// A payment in a token other than the pool's asset.
    UnsupportedAsset,
    /// A receipt or debt token other than the one the pool issues.
    UnsupportedToken,
    /// A borrow against a pool that holds none of its asset.
    EmptyReserve,
    /// The pool's asset reserve is smaller than what would leave it.
    InsufficientFunds,
    /// A balance or counter would no longer fit in 128 bits.
    AmountOverflow,
    /// No debt position is recorded under the given id.
    InvalidPosition,
    /// The debt position has been liquidated.
    AlreadyLiquidated,
    /// The attributes of a token instance could not be read.
    InvalidMetadata,
    /// No repayment is staged under the given id.
    UnknownRepayId,
    /// The payment exceeds the amount that was locked.
    InsufficientLock,
    /// The reference timestamp lies after the current one.
    InvalidTimeRange,
    /// The position's health factor is not below the liquidation threshold.
    HealthFactorTooHigh,
    /// A liquidation payment that is not principal plus interest.
    BadSettlementAmount,
}

impl PoolError {
    /// The text shown to the caller of a refused operation.
    pub open spec fn message_text(self) -> Seq<char> {
        match self {
            PoolError::InvalidAmount => "amount must be greater then 0"@,
            PoolError::InvalidAddress => "invalid address provided"@,
            PoolError::UnsupportedAsset => "asset not supported for this liquidity pool"@,
            PoolError::UnsupportedToken => "token not supported by this pool"@,
            PoolError::EmptyReserve => "asset reserve is empty"@,
            PoolError::InsufficientFunds => "insufficient funds"@,
            PoolError::AmountOverflow => "amount out of range"@,
            PoolError::InvalidPosition => "invalid debt position"@,
            PoolError::AlreadyLiquidated => "position is liquidated"@,
            PoolError::InvalidMetadata => "token attributes cannot be read"@,
            PoolError::UnknownRepayId => "there are no locked borrowed token for this id, lock b tokens first"@,
            PoolError::InsufficientLock => "b tokens amount locked must be equal with the amount of asset token send"@,
            PoolError::InvalidTimeRange => "invalid timestamp"@,
            PoolError::HealthFactorTooHigh => "the health factor is not low enough"@,
            PoolError::BadSettlementAmount => "position can't be liquidated, not enough or to much tokens send"@,
        }
    }

    pub fn message(&self) -> (text: &'static str)
        ensures
            text@ == self.message_text(),
    {
        match self {
            PoolError::InvalidAmount => "amount must be greater then 0",
            PoolError::InvalidAddress => "invalid address provided",
            PoolError::UnsupportedAsset => "asset not supported for this liquidity pool",
            PoolError::UnsupportedToken => "token not supported by this pool",
            PoolError::EmptyReserve => "asset reserve is empty",
            PoolError::InsufficientFunds => "insufficient funds",
            PoolError::AmountOverflow => "amount out of range",
            PoolError::InvalidPosition => "invalid debt position",
            PoolError::AlreadyLiquidated => "position is liquidated",
            PoolError::InvalidMetadata => "token attributes cannot be read",
            PoolError::UnknownRepayId => "there are no locked borrowed token for this id, lock b tokens first",
            PoolError::InsufficientLock => "b tokens amount locked must be equal with the amount of asset token send",
            PoolError::InvalidTimeRange => "invalid timestamp",
            PoolError::HealthFactorTooHigh => "the health factor is not low enough",
            PoolError::BadSettlementAmount => "position can't be liquidated, not enough or to much tokens send",
        }
    }
}

} // verus!
