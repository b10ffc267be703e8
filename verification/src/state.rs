//! The durable records the operations read and update, and their
//! mathematical views.

use vstd::prelude::*;
use crate::address::Address;

verus! {

/// Fee denominator: a fee of `FEE_DENOM` basis points would be 100%.
pub const FEE_DENOM: u128 = 10_000;

/// Fixed-point scale of the reward rate and of the reward-per-token
/// accumulator: one whole reward unit is `PRECISION = 10^9` scaled units.
pub const PRECISION: u128 = 1_000_000_000;

/// Seconds in a day; reward rates are given per day and kept per second.
pub const SECONDS_PER_DAY: u128 = 86_400;

/// Seconds a stake has to rest before it can be unstaked in the ordinary
/// way. The emergency exit does not wait for it.
pub const LOCKUP_PERIOD: i64 = 5;

/// The record of one constant-product pool over a pair of tokens.
#[derive(Debug, PartialEq, Eq)]
pub struct LiquidityPoolAMM {
    /// Display name of the pool.
    pub pool_name: String,
    /// Mint of the first token of the pair.
    pub token_a_mint: Address,
    /// Mint of the second token of the pair.
    pub token_b_mint: Address,
    /// Ledger account that holds the first token's reserve.
    pub vault_a: Address,
    /// Ledger account that holds the second token's reserve.
    pub vault_b: Address,
    /// Tracked reserve of the first token.
    pub reserve_a: u128,
    /// Tracked reserve of the second token.
    pub reserve_b: u128,
    /// Shares issued to liquidity providers and not yet redeemed.
    pub total_lp_supply: u128,
    /// Swap fee in basis points.
    pub fee_bps: u16,
    /// Derivation nonce of the pool's signing identity; carried, never read.
    pub bump: u8,
}

/// A pool record as mathematics sees it: identifiers as byte sequences,
/// amounts as natural numbers.
pub struct PoolView {
    pub pool_name: Seq<char>,
    pub token_a_mint: Seq<u8>,
    pub token_b_mint: Seq<u8>,
    pub vault_a: Seq<u8>,
    pub vault_b: Seq<u8>,
    pub reserve_a: nat,
    pub reserve_b: nat,
    pub total_lp_supply: nat,
    pub fee_bps: nat,
    pub bump: nat,
}

impl View for LiquidityPoolAMM {
    type V = PoolView;

    open spec fn view(&self) -> PoolView {
        PoolView {
            pool_name: self.pool_name@,
            token_a_mint: self.token_a_mint@,
            token_b_mint: self.token_b_mint@,
            vault_a: self.vault_a@,
            vault_b: self.vault_b@,
            reserve_a: self.reserve_a as nat,
            reserve_b: self.reserve_b as nat,
            total_lp_supply: self.total_lp_supply as nat,
            fee_bps: self.fee_bps as nat,
            bump: self.bump as nat,
        }
    }
}

impl PoolView {
    /// The fee is a proper fraction: strictly below the denominator.
    pub open spec fn wf(self) -> bool {
        self.fee_bps < FEE_DENOM
    }

    /// Nothing deposited and no share outstanding.
    pub open spec fn is_empty(self) -> bool {
        self.reserve_a == 0 && self.reserve_b == 0 && self.total_lp_supply == 0
    }

    /// Both reserves funded and shares outstanding.
    pub open spec fn is_seeded(self) -> bool {
        self.reserve_a > 0 && self.reserve_b > 0 && self.total_lp_supply > 0
    }
}

impl Clone for LiquidityPoolAMM {
    /// A copy with the same view.
    fn clone(&self) -> (copy: Self)
        ensures
            copy@ == self@,
    {
        LiquidityPoolAMM {
            pool_name: self.pool_name.clone(),
            token_a_mint: self.token_a_mint,
            token_b_mint: self.token_b_mint,
            vault_a: self.vault_a,
            vault_b: self.vault_b,
            reserve_a: self.reserve_a,
            reserve_b: self.reserve_b,
            total_lp_supply: self.total_lp_supply,
            fee_bps: self.fee_bps,
            bump: self.bump,
        }
    }
}

impl LiquidityPoolAMM {
    /// The record's invariant: the fee is strictly below the denominator.
    pub open spec fn wf(&self) -> bool {
        self@.wf()
    }

    /// Tests the record's invariant.
    pub fn is_well_formed(&self) -> (ok: bool)
        ensures
            ok == self.wf(),
    {
        (self.fee_bps as u128) < FEE_DENOM
    }
}

/// The record of one staking pool.
#[derive(Clone, Copy, Debug, PartialEq, Eq)]
pub struct StakingPool {
    /// Mint of the token that is staked.
    pub stake_mint: Address,
    /// Mint of the token that rewards are paid in.
    pub reward_mint: Address,
    /// Ledger account that holds the staked tokens.
    pub stake_vault: Address,
    /// Ledger account that holds the rewards still to be paid.
    pub reward_vault: Address,
    /// The identity allowed to change the rate, fund rewards and pause.
    pub admin: Address,
    /// Sum of all stakes in the pool.
    pub total_staked: u128,
    /// Reward rate per second, scaled by `PRECISION`. It is set from a rate
    /// per day and carries that name.
    pub reward_rate_per_day: u128,
    /// Accumulated reward per staked token, scaled by `PRECISION`.
    pub reward_per_token_stored: u128,
    /// Time of the last accrual, in seconds.
    pub last_update_time: i64,
    /// Whether the pool refuses ordinary operations.
    pub paused: bool,
}

/// A staking pool record as mathematics sees it.
pub struct StakingPoolView {
    pub stake_mint: Seq<u8>,
    pub reward_mint: Seq<u8>,
    pub stake_vault: Seq<u8>,
    pub reward_vault: Seq<u8>,
    pub admin: Seq<u8>,
    pub total_staked: nat,
    pub reward_rate_per_second: nat,
    pub reward_per_token_stored: nat,
    pub last_update_time: int,
    pub paused: bool,
}

impl View for StakingPool {
    type V = StakingPoolView;

    open spec fn view(&self) -> StakingPoolView {
        StakingPoolView {
            stake_mint: self.stake_mint@,
            reward_mint: self.reward_mint@,
            stake_vault: self.stake_vault@,
            reward_vault: self.reward_vault@,
            admin: self.admin@,
            total_staked: self.total_staked as nat,
            reward_rate_per_second: self.reward_rate_per_day as nat,
            reward_per_token_stored: self.reward_per_token_stored as nat,
            last_update_time: self.last_update_time as int,
            paused: self.paused,
        }
    }
}

impl StakingPool {
    /// Whether `who` is the pool's admin.
    pub fn is_admin(&self, who: &Address) -> (yes: bool)
        ensures
            yes == (who@ == self@.admin),
    {
        who.same_as(&self.admin)
    }
}

/// One staker's position in one staking pool.
#[derive(Clone, Copy, Debug, PartialEq, Eq)]
pub struct UserStake {
    /// The pool the position belongs to.
    pub pool: Address,
    /// The staker; all-zero until the first stake.
    pub staker: Address,
    /// Tokens currently staked.
    pub amount_staked: u128,
    /// `floor(amount_staked * reward_per_token_stored / PRECISION)` as of the
    /// last change of the position.
    pub reward_debt: u128,
    /// Rewards accrued and not yet paid.
    pub pending_rewards: u128,
    /// Time of the last stake, in seconds; the lock-up runs from here.
    pub last_stake_time: i64,
}

/// A staker's position as mathematics sees it.
pub struct UserStakeView {
    pub pool: Seq<u8>,
    pub staker: Seq<u8>,
    pub amount_staked: nat,
    pub reward_debt: nat,
    pub pending_rewards: nat,
    pub last_stake_time: int,
}

impl View for UserStake {
    type V = UserStakeView;

    open spec fn view(&self) -> UserStakeView {
        UserStakeView {
            pool: self.pool@,
            staker: self.staker@,
            amount_staked: self.amount_staked as nat,
            reward_debt: self.reward_debt as nat,
            pending_rewards: self.pending_rewards as nat,
            last_stake_time: self.last_stake_time as int,
        }
    }
}

impl UserStake {
    /// The position nobody has staked into yet: no staker, nothing staked,
    /// nothing owed.
    pub fn vacant(pool: Address) -> (user: UserStake)
        ensures
            user.pool == pool,
            user.staker.is_unassigned(),
            user.amount_staked == 0,
            user.reward_debt == 0,
            user.pending_rewards == 0,
            user.last_stake_time == 0,
    {
        UserStake {
            pool,
            staker: Address::unassigned(),
            amount_staked: 0,
            reward_debt: 0,
            pending_rewards: 0,
            last_stake_time: 0,
        }
    }
}

} // verus!
