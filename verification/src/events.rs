//! The records an operation hands back for observers: one per completed
//! operation, carrying the amounts the host has to move on the ledger.

use vstd::prelude::*;
use crate::address::Address;

verus! {

/// A pool was created.
#[derive(Clone, Copy, Debug, PartialEq, Eq)]
pub struct PoolCreated {
    pub pool: Address,
    pub mint_a: Address,
    pub mint_b: Address,
    pub fee_bps: u16,
}

/// Liquidity was added: `amount_a` and `amount_b` go from the depositor to
/// the vaults, `lp_minted` shares go to the depositor.
#[derive(Clone, Copy, Debug, PartialEq, Eq)]
pub struct LiquidityAdded {
    pub pool: Address,
    pub depositor: Address,
    pub amount_a: u64,
    pub amount_b: u64,
    pub lp_minted: u64,
}

/// Liquidity was removed: `lp_burned` shares are burned from the owner,
/// `amount_a` and `amount_b` go from the vaults to the owner.
#[derive(Clone, Copy, Debug, PartialEq, Eq)]
pub struct LiquidityRemoved {
    pub pool: Address,
    pub owner: Address,
    pub amount_a: u64,
    pub amount_b: u64,
    pub lp_burned: u64,
}

/// A trade was executed: `amount_in` goes from the trader to the paying-in
/// vault, `amount_out` from the paying-out vault to the trader.
#[derive(Clone, Copy, Debug, PartialEq, Eq)]
pub struct SwapExecuted {
    pub pool: Address,
    pub trader: Address,
    pub amount_in: u64,
    pub amount_out: u64,
}

/// Tokens were staked: `amount` goes from the staker to the stake vault.
#[derive(Clone, Copy, Debug, PartialEq, Eq)]
pub struct StakeEvent {
    pub staker: Address,
    pub amount: u64,
    pub time: i64,
}

/// Tokens were unstaked: `amount` goes from the stake vault to the staker.
#[derive(Clone, Copy, Debug, PartialEq, Eq)]
pub struct UnstakeEvent {
    pub staker: Address,
    pub amount: u64,
    pub time: i64,
}

/// Rewards were claimed: `amount` goes from the reward vault to the staker.
#[derive(Clone, Copy, Debug, PartialEq, Eq)]
pub struct RewardPaid {
    pub staker: Address,
    pub amount: u64,
    pub time: i64,
}

/// A stake was withdrawn under penalty: `principal - slash` goes from the
/// stake vault to the staker, `slash` stays behind.
#[derive(Clone, Copy, Debug, PartialEq, Eq)]
pub struct EmergencyWithdrawEvent {
    pub staker: Address,
    pub principal: u64,
    pub slash: u64,
    pub time: i64,
}

/// The staking pool was paused.
#[derive(Clone, Copy, Debug, PartialEq, Eq)]
pub struct PoolPaused {
    pub admin: Address,
    pub time: i64,
}

/// The staking pool was resumed.
#[derive(Clone, Copy, Debug, PartialEq, Eq)]
pub struct PoolUnpaused {
    pub admin: Address,
    pub time: i64,
}

} // verus!
