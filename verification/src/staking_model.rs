//! The staking pool as a state machine over natural numbers.
//!
//! Rewards are tracked lazily. The pool keeps one accumulator, the reward per
//! staked token, which every operation first brings up to date (accrual).
//! A position is then settled against the accumulator (sync), changed, and
//! its reward debt recomputed.

use vstd::prelude::*;
use crate::address::is_unassigned_id;
use crate::errors::StakingError;
use crate::math::{max_u128, max_u64, mul_div_floor};
use crate::state::{StakingPoolView, UserStakeView, LOCKUP_PERIOD, PRECISION, SECONDS_PER_DAY};

verus! {

/// The per-second scaled rate for a rate given per day:
/// `floor(rate_per_day * PRECISION / SECONDS_PER_DAY)`.
pub open spec fn scaled_rate(rate_per_day: nat) -> nat {
    mul_div_floor(rate_per_day, PRECISION as nat, SECONDS_PER_DAY as nat)
}

/// The initialisation transition: a running pool with nothing staked, or
/// `RewardOverflow` when scaling the rate leaves 128 bits.
pub open spec fn initialize_model(
    stake_mint: Seq<u8>,
    reward_mint: Seq<u8>,
    stake_vault: Seq<u8>,
    reward_vault: Seq<u8>,
    admin: Seq<u8>,
    rate_per_day: nat,
    now: int,
) -> Result<StakingPoolView, StakingError> {
    if rate_per_day * PRECISION > max_u128() {
        Err(StakingError::RewardOverflow)
    } else {
        Ok(
            StakingPoolView {
                stake_mint,
                reward_mint,
                stake_vault,
                reward_vault,
                admin,
                total_staked: 0,
                reward_rate_per_second: scaled_rate(rate_per_day),
                reward_per_token_stored: 0,
                last_update_time: now,
                paused: false,
            },
        )
    }
}

/// The accrual step, run at the start of every operation that depends on
/// rewards.
///
/// With nothing staked only the clock moves. Otherwise the accumulator grows
/// by `floor(elapsed * rate / total_staked)`. Refused with `RewardOverflow`
/// when time ran backwards, when `elapsed * rate` leaves 128 bits, or when
/// the accumulator would.
pub open spec fn accrue_model(pool: StakingPoolView, now: int) -> Result<StakingPoolView, StakingError> {
    if pool.total_staked == 0 {
        Ok(StakingPoolView { last_update_time: now, ..pool })
    } else if now < pool.last_update_time {
        Err(StakingError::RewardOverflow)
    } else {
        let elapsed = (now - pool.last_update_time) as nat;
        let reward = elapsed * pool.reward_rate_per_second;
        let add_per_token = reward / pool.total_staked;
        if reward > max_u128() || pool.reward_per_token_stored + add_per_token > max_u128() {
            Err(StakingError::RewardOverflow)
        } else {
            Ok(
                StakingPoolView {
                    reward_per_token_stored: pool.reward_per_token_stored + add_per_token,
                    last_update_time: now,
                    ..pool
                },
            )
        }
    }
}

/// What a position is owed since its last settlement: nothing unless the
/// accumulator exceeds the reward debt, else
/// `floor(amount_staked * (stored - reward_debt) / PRECISION)`.
pub open spec fn pending_reward_model(amount_staked: nat, stored: nat, reward_debt: nat) -> Result<nat, StakingError> {
    if stored <= reward_debt {
        Ok(0)
    } else if amount_staked * (stored - reward_debt) > max_u128() {
        Err(StakingError::RewardOverflow)
    } else {
        Ok(mul_div_floor(amount_staked, (stored - reward_debt) as nat, PRECISION as nat))
    }
}

/// The reward debt of a position of `amount_staked` at accumulator `stored`:
/// `floor(amount_staked * stored / PRECISION)`.
pub open spec fn reward_debt_for(amount_staked: nat, stored: nat) -> nat {
    mul_div_floor(amount_staked, stored, PRECISION as nat)
}

/// The sync step: what the position is owed moves into its pending rewards.
pub open spec fn sync_model(user: UserStakeView, stored: nat) -> Result<UserStakeView, StakingError> {
    match pending_reward_model(user.amount_staked, stored, user.reward_debt) {
        Err(e) => Err(e),
        Ok(owed) => {
            if user.pending_rewards + owed > max_u128() {
                Err(StakingError::RewardOverflow)
            } else {
                Ok(UserStakeView { pending_rewards: user.pending_rewards + owed, ..user })
            }
        },
    }
}

/// Accrual followed by sync: the pool brought up to `now` and the position
/// settled against it.
pub open spec fn settle_model(pool: StakingPoolView, user: UserStakeView, now: int) -> Result<(StakingPoolView, UserStakeView), StakingError> {
    match accrue_model(pool, now) {
        Err(e) => Err(e),
        Ok(accrued) => match sync_model(user, accrued.reward_per_token_stored) {
            Err(e) => Err(e),
            Ok(synced) => Ok((accrued, synced)),
        },
    }
}

/// A pool and a position after an operation on both.
pub struct Staked {
    pub pool: StakingPoolView,
    pub user: UserStakeView,
}

/// The stake transition.
///
/// Refused with `PoolPaused` when the pool is paused and with
/// `RewardOverflow` when settling, a new total, or the new reward debt
/// leaves 128 bits. Otherwise the position and the pool total grow by
/// `amount`, the lock-up restarts at `now`, and a position without a staker
/// is assigned to `staker`.
pub open spec fn stake_model(pool: StakingPoolView, user: UserStakeView, staker: Seq<u8>, amount: nat, now: int) -> Result<Staked, StakingError> {
    if pool.paused {
        Err(StakingError::PoolPaused)
    } else {
        match settle_model(pool, user, now) {
            Err(e) => Err(e),
            Ok((accrued, synced)) => {
                let new_total = accrued.total_staked + amount;
                let new_amount = synced.amount_staked + amount;
                if new_total > max_u128() || new_amount > max_u128() || new_amount
                    * accrued.reward_per_token_stored > max_u128() {
                    Err(StakingError::RewardOverflow)
                } else {
                    Ok(
                        Staked {
                            pool: StakingPoolView { total_staked: new_total, ..accrued },
                            user: UserStakeView {
                                staker: if is_unassigned_id(user.staker) {
                                    staker
                                } else {
                                    user.staker
                                },
                                amount_staked: new_amount,
                                reward_debt: reward_debt_for(
                                    new_amount,
                                    accrued.reward_per_token_stored,
                                ),
                                last_stake_time: now,
                                ..synced
                            },
                        },
                    )
                }
            },
        }
    }
}

/// A pool and a position after an operation that pays rewards out.
pub struct PaidOut {
    pub pool: StakingPoolView,
    pub user: UserStakeView,
    pub reward_payout: nat,
}

/// Pays out everything pending and recomputes the reward debt of a settled
/// position holding `new_amount`. Refused with `RewardOverflow` when the
/// payout exceeds what one ledger transfer can carry or the reward debt
/// leaves 128 bits.
pub open spec fn pay_out_model(accrued: StakingPoolView, synced: UserStakeView, new_total: nat, new_amount: nat) -> Result<PaidOut, StakingError> {
    if synced.pending_rewards > max_u64() || new_amount * accrued.reward_per_token_stored
        > max_u128() {
        Err(StakingError::RewardOverflow)
    } else {
        Ok(
            PaidOut {
                pool: StakingPoolView { total_staked: new_total, ..accrued },
                user: UserStakeView {
                    amount_staked: new_amount,
                    reward_debt: reward_debt_for(new_amount, accrued.reward_per_token_stored),
                    pending_rewards: 0,
                    ..synced
                },
                reward_payout: synced.pending_rewards,
            },
        )
    }
}

/// The unstake transition.
///
/// Refused, in this order, with `PoolPaused` when the pool is paused, with
/// `LockupNotExpired` when fewer than `LOCKUP_PERIOD` seconds have passed
/// since the last stake, with `InsufficientStaked` when the position or the
/// pool total is below `amount`, and with `RewardOverflow` as for settling
/// and paying out. Otherwise the position and the pool total shrink by
/// `amount` and everything pending is paid out.
pub open spec fn unstake_model(pool: StakingPoolView, user: UserStakeView, amount: nat, now: int) -> Result<PaidOut, StakingError> {
    if pool.paused {
        Err(StakingError::PoolPaused)
    } else if now - user.last_stake_time < LOCKUP_PERIOD {
        Err(StakingError::LockupNotExpired)
    } else if user.amount_staked < amount || pool.total_staked < amount {
        Err(StakingError::InsufficientStaked)
    } else {
        match settle_model(pool, user, now) {
            Err(e) => Err(e),
            Ok((accrued, synced)) => pay_out_model(
                accrued,
                synced,
                (accrued.total_staked - amount) as nat,
                (synced.amount_staked - amount) as nat,
            ),
        }
    }
}

/// The claim transition: settle, then pay out everything pending, with the
/// stake unchanged. Refused with `PoolPaused` when the pool is paused and
/// with `RewardOverflow` as for settling and paying out.
pub open spec fn claim_model(pool: StakingPoolView, user: UserStakeView, now: int) -> Result<PaidOut, StakingError> {
    if pool.paused {
        Err(StakingError::PoolPaused)
    } else {
        match settle_model(pool, user, now) {
            Err(e) => Err(e),
            Ok((accrued, synced)) => pay_out_model(
                accrued,
                synced,
                accrued.total_staked,
                synced.amount_staked,
            ),
        }
    }
}

/// The rate-change transition: accrue at the rate in force, then put the
/// new rate in its place.
pub open spec fn set_reward_rate_model(pool: StakingPoolView, new_rate_per_day: nat, now: int) -> Result<StakingPoolView, StakingError> {
    if pool.paused {
        Err(StakingError::PoolPaused)
    } else {
        match accrue_model(pool, now) {
            Err(e) => Err(e),
            Ok(accrued) => {
                if new_rate_per_day * PRECISION > max_u128() {
                    Err(StakingError::RewardOverflow)
                } else {
                    Ok(
                        StakingPoolView {
                            reward_rate_per_second: scaled_rate(new_rate_per_day),
                            ..accrued
                        },
                    )
                }
            },
        }
    }
}

/// The funding transition: the amount to mint into the reward vault, or
/// `PoolPaused`. The pool record does not change.
pub open spec fn deposit_rewards_model(pool: StakingPoolView, amount: nat) -> Result<nat, StakingError> {
    if pool.paused {
        Err(StakingError::PoolPaused)
    } else {
        Ok(amount)
    }
}

/// The pool with its pause flag set to `paused` and nothing else changed.
pub open spec fn with_paused(pool: StakingPoolView, paused: bool) -> StakingPoolView {
    StakingPoolView { paused, ..pool }
}

/// The part of a stake kept back on an emergency exit: a tenth, rounded
/// down.
pub open spec fn slash_of(principal: nat) -> nat {
    principal / 10
}

/// A pool and a position after an emergency exit.
pub struct Exited {
    pub pool: StakingPoolView,
    pub user: UserStakeView,
    pub principal: nat,
    pub slash: nat,
}

/// The emergency-exit transition. Neither the pause flag nor the lock-up is
/// consulted and no accrual runs.
///
/// Refused with `InsufficientStaked` when nothing is staked and with
/// `RewardOverflow` when the stake exceeds what one ledger transfer can
/// carry. Otherwise the stake, the pending rewards and the reward debt of
/// the position all drop to zero, and the pool total drops by the stake, but
/// not below zero.
pub open spec fn emergency_withdraw_model(pool: StakingPoolView, user: UserStakeView) -> Result<Exited, StakingError> {
    if user.amount_staked == 0 {
        Err(StakingError::InsufficientStaked)
    } else if user.amount_staked > max_u64() {
        Err(StakingError::RewardOverflow)
    } else {
        Ok(
            Exited {
                pool: StakingPoolView {
                    total_staked: if pool.total_staked >= user.amount_staked {
                        (pool.total_staked - user.amount_staked) as nat
                    } else {
                        0
                    },
                    ..pool
                },
                user: UserStakeView { amount_staked: 0, reward_debt: 0, pending_rewards: 0, ..user },
                principal: user.amount_staked,
                slash: slash_of(user.amount_staked),
            },
        )
    }
}

} // verus!
