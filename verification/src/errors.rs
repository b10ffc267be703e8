//! The reasons an operation can be refused.

use vstd::prelude::*;

verus! {

/// Why a liquidity-pool operation was refused.
#[derive(Clone, Copy, Debug, PartialEq, Eq, Structural)]
pub enum AmmError {
    /// An exact intermediate value does not fit its integer type, or a
    /// division has a zero divisor.
    MathOverflow,
    /// The fee is not below the fee denominator.
    InvalidFee,
    /// The matching amount of the second token exceeds the caller's limit.
    ExcessiveB,
    /// The share amount is zero or exceeds the outstanding supply.
    InvalidLp,
    /// One of the reserves is zero.
    EmptyPool,
    /// The trade would return less than the caller's minimum.
    SlippageExceeded,
    /// The token pair named is not the pool's pair.
    InvalidMint,
}

/// Why a staking operation was refused.
#[derive(Clone, Copy, Debug, PartialEq, Eq, Structural)]
pub enum StakingError {
    /// The staked balance does not cover the request.
    InsufficientStaked,
    /// A reward computation or payout does not fit its integer type.
    RewardOverflow,
    /// The pool is paused.
    PoolPaused,
    /// The stake is still inside its lock-up period.
    LockupNotExpired,
}

impl AmmError {
    /// The message shown to a user for this error.
    pub fn message(&self) -> (text: &'static str)
        ensures
            text@ == (match *self {
                AmmError::MathOverflow => "math overflow"@,
                AmmError::InvalidFee => "invalid fee"@,
                AmmError::ExcessiveB => "token-b amount exceeds optimum"@,
                AmmError::InvalidLp => "lp amount invalid"@,
                AmmError::EmptyPool => "pool reserves are zero"@,
                AmmError::SlippageExceeded => "slippage tolerance exceeded"@,
                AmmError::InvalidMint => "invalid mint address in pool"@,
            }),
    {
        match self {
            AmmError::MathOverflow => "math overflow",
            AmmError::InvalidFee => "invalid fee",
            AmmError::ExcessiveB => "token-b amount exceeds optimum",
            AmmError::InvalidLp => "lp amount invalid",
            AmmError::EmptyPool => "pool reserves are zero",
            AmmError::SlippageExceeded => "slippage tolerance exceeded",
            AmmError::InvalidMint => "invalid mint address in pool",
        }
    }
}

impl StakingError {
    /// The message shown to a user for this error.
    pub fn message(&self) -> (text: &'static str)
        ensures
            text@ == (match *self {
                StakingError::InsufficientStaked => "Not enough staked balance."@,
                StakingError::RewardOverflow => "Pending rewards exceed maximum payout limit."@,
                StakingError::PoolPaused => "Pool is currently paused."@,
                StakingError::LockupNotExpired => "Cannot unstake before lock-up expires."@,
            }),
    {
        match self {
            StakingError::InsufficientStaked => "Not enough staked balance.",
            StakingError::RewardOverflow => "Pending rewards exceed maximum payout limit.",
            StakingError::PoolPaused => "Pool is currently paused.",
            StakingError::LockupNotExpired => "Cannot unstake before lock-up expires.",
        }
    }
}

} // verus!
