//! The staking pool's operations: initialise, stake, unstake, claim, change
//! the rate, fund rewards, pause and resume, and the emergency exit.
//!
//! An operation either updates the records and returns the record of what
//! happened, or returns an error and leaves the records as they were. The
//! host supplies the current time, moves the tokens the returned record
//! names, and persists the records only once the ledger has accepted every
//! movement.

use vstd::prelude::*;
use crate::address::Address;
use crate::errors::StakingError;
use crate::events::{
    EmergencyWithdrawEvent, PoolPaused, PoolUnpaused, RewardPaid, StakeEvent, UnstakeEvent,
};
use crate::math::max_u128;
use crate::staking_model::{
    accrue_model, claim_model, deposit_rewards_model, emergency_withdraw_model, initialize_model,
    pay_out_model, pending_reward_model, set_reward_rate_model, settle_model, stake_model,
    unstake_model, with_paused,
};
use crate::state::{StakingPool, UserStake, LOCKUP_PERIOD, PRECISION, SECONDS_PER_DAY};

verus! {

/// `floor(a * b / c)` for a non-zero `c`, or `RewardOverflow` when the
/// product does not fit in 128 bits.
fn scaled(a: u128, b: u128, c: u128) -> (result: Result<u128, StakingError>)
    requires
        c != 0,
    ensures
        a * b <= max_u128() ==> (result matches Ok(v) && v == (a as nat * b as nat) / (c as nat)),
        a * b > max_u128() ==> result == Err::<u128, StakingError>(StakingError::RewardOverflow),
{
    match a.checked_mul(b) {
        Some(product) => {
            proof {
                assert((a as nat) * (b as nat) == product as nat) by (nonlinear_arith)
                    requires
                        a * b == product,
                ;
            }
            Ok(product / c)
        },
        None => Err(StakingError::RewardOverflow),
    }
}

/// Creates the record of a running staking pool with nothing staked, paying
/// `reward_rate_per_day` reward units per day, with its clock at `now`.
pub fn initialize_pool(
    stake_mint: Address,
    reward_mint: Address,
    stake_vault: Address,
    reward_vault: Address,
    admin: Address,
    reward_rate_per_day: u128,
    now: i64,
) -> (result: Result<StakingPool, StakingError>)
    ensures
        match initialize_model(
            stake_mint@,
            reward_mint@,
            stake_vault@,
            reward_vault@,
            admin@,
            reward_rate_per_day as nat,
            now as int,
        ) {
            Ok(created) => result matches Ok(pool) && pool@ == created,
            Err(e) => result == Err::<StakingPool, StakingError>(e),
        },
{
    let rate: u128 = match scaled(reward_rate_per_day, PRECISION, SECONDS_PER_DAY) {
        Ok(v) => v,
        Err(e) => {
            return Err(e);
        },
    };
    Ok(
        StakingPool {
            stake_mint,
            reward_mint,
            stake_vault,
            reward_vault,
            admin,
            total_staked: 0,
            reward_rate_per_day: rate,
            reward_per_token_stored: 0,
            last_update_time: now,
            paused: false,
        },
    )
}

/// Brings the pool's reward accumulator up to `now`.
pub fn accrue_rewards(pool: &mut StakingPool, now: i64) -> (result: Result<(), StakingError>)
    ensures
        match accrue_model(old(pool)@, now as int) {
            Ok(accrued) => final(pool)@ == accrued && result is Ok,
            Err(e) => *final(pool) == *old(pool) && result == Err::<(), StakingError>(e),
        },
        final(pool).reward_per_token_stored >= old(pool).reward_per_token_stored,
{
    if pool.total_staked > 0 {
        if now < pool.last_update_time {
            return Err(StakingError::RewardOverflow);
        }
        let elapsed: u128 = ((now as i128) - (pool.last_update_time as i128)) as u128;
        let reward: u128 = match elapsed.checked_mul(pool.reward_rate_per_day) {
            Some(v) => v,
            None => {
                return Err(StakingError::RewardOverflow);
            },
        };
        proof {
            assert((elapsed as nat) * (pool.reward_rate_per_day as nat) == reward as nat)
                by (nonlinear_arith)
                requires
                    elapsed * pool.reward_rate_per_day == reward,
            ;
        }
        let add_per_token: u128 = reward / pool.total_staked;
        let stored: u128 = match pool.reward_per_token_stored.checked_add(add_per_token) {
            Some(v) => v,
            None => {
                return Err(StakingError::RewardOverflow);
            },
        };
        pool.reward_per_token_stored = stored;
    }
    pool.last_update_time = now;
    Ok(())
}

/// What a position of `amount_staked` with the given reward debt is owed at
/// accumulator value `reward_per_token_stored`.
pub fn pending_reward(amount_staked: u128, reward_per_token_stored: u128, reward_debt: u128) -> (result: Result<u128, StakingError>)
    ensures
        match pending_reward_model(
            amount_staked as nat,
            reward_per_token_stored as nat,
            reward_debt as nat,
        ) {
            Ok(owed) => result matches Ok(v) && v == owed,
            Err(e) => result == Err::<u128, StakingError>(e),
        },
{
    if reward_per_token_stored <= reward_debt {
        return Ok(0);
    }
    let delta: u128 = reward_per_token_stored - reward_debt;
    scaled(amount_staked, delta, PRECISION)
}

/// Accrues the pool up to `now` and settles the position against it,
/// without touching the caller's records.
fn settle(pool: &StakingPool, user: &UserStake, now: i64) -> (result: Result<(StakingPool, UserStake), StakingError>)
    ensures
        match settle_model(pool@, user@, now as int) {
            Ok((accrued, synced)) => result matches Ok((p, u)) && p@ == accrued && u@ == synced,
            Err(e) => result == Err::<(StakingPool, UserStake), StakingError>(e),
        },
{
    let mut accrued: StakingPool = *pool;
    match accrue_rewards(&mut accrued, now) {
        Ok(()) => {},
        Err(e) => {
            return Err(e);
        },
    }
    let owed: u128 = match pending_reward(
        user.amount_staked,
        accrued.reward_per_token_stored,
        user.reward_debt,
    ) {
        Ok(v) => v,
        Err(e) => {
            return Err(e);
        },
    };
    let pending: u128 = match user.pending_rewards.checked_add(owed) {
        Some(v) => v,
        None => {
            return Err(StakingError::RewardOverflow);
        },
    };
    let mut synced: UserStake = *user;
    synced.pending_rewards = pending;
    Ok((accrued, synced))
}

/// Stakes `amount` for `staker`.
///
/// On success the returned record names the amount to move from the staker
/// into the stake vault.
pub fn stake_tokens(
    pool: &mut StakingPool,
    user: &mut UserStake,
    staker: Address,
    amount: u64,
    now: i64,
) -> (result: Result<StakeEvent, StakingError>)
    ensures
        match stake_model(old(pool)@, old(user)@, staker@, amount as nat, now as int) {
            Ok(done) => {
                &&& final(pool)@ == done.pool
                &&& final(user)@ == done.user
                &&& result matches Ok(event)
                &&& event.staker == final(user).staker
                &&& event.amount == amount
                &&& event.time == now
            },
            Err(e) => {
                &&& *final(pool) == *old(pool)
                &&& *final(user) == *old(user)
                &&& result == Err::<StakeEvent, StakingError>(e)
            },
        },
        final(pool).reward_per_token_stored >= old(pool).reward_per_token_stored,
{
    if pool.paused {
        return Err(StakingError::PoolPaused);
    }
    let (mut next_pool, mut next_user) = match settle(pool, user, now) {
        Ok(pair) => pair,
        Err(e) => {
            return Err(e);
        },
    };
    let new_total: u128 = match next_pool.total_staked.checked_add(amount as u128) {
        Some(v) => v,
        None => {
            return Err(StakingError::RewardOverflow);
        },
    };
    let new_amount: u128 = match next_user.amount_staked.checked_add(amount as u128) {
        Some(v) => v,
        None => {
            return Err(StakingError::RewardOverflow);
        },
    };
    let debt: u128 = match scaled(new_amount, next_pool.reward_per_token_stored, PRECISION) {
        Ok(v) => v,
        Err(e) => {
            return Err(e);
        },
    };
    if user.staker.same_as(&Address::unassigned()) {
        next_user.staker = staker;
    }
    next_pool.total_staked = new_total;
    next_user.amount_staked = new_amount;
    next_user.reward_debt = debt;
    next_user.last_stake_time = now;
    *pool = next_pool;
    *user = next_user;
    Ok(StakeEvent { staker: next_user.staker, amount, time: now })
}

/// Pays out everything pending of a settled position and recomputes its
/// reward debt for a stake of `new_amount`, in a pool whose total becomes
/// `new_total`.
fn pay_out(accrued: StakingPool, synced: UserStake, new_total: u128, new_amount: u128) -> (result: Result<(StakingPool, UserStake, u64), StakingError>)
    ensures
        match pay_out_model(accrued@, synced@, new_total as nat, new_amount as nat) {
            Ok(done) => {
                &&& result matches Ok((p, u, payout))
                &&& p@ == done.pool
                &&& u@ == done.user
                &&& payout == done.reward_payout
            },
            Err(e) => result == Err::<(StakingPool, UserStake, u64), StakingError>(e),
        },
{
    if synced.pending_rewards > u64::MAX as u128 {
        return Err(StakingError::RewardOverflow);
    }
    let payout: u64 = synced.pending_rewards as u64;
    let debt: u128 = match scaled(new_amount, accrued.reward_per_token_stored, PRECISION) {
        Ok(v) => v,
        Err(e) => {
            return Err(e);
        },
    };
    let mut next_pool: StakingPool = accrued;
    let mut next_user: UserStake = synced;
    next_pool.total_staked = new_total;
    next_user.amount_staked = new_amount;
    next_user.pending_rewards = 0;
    next_user.reward_debt = debt;
    Ok((next_pool, next_user, payout))
}

/// Whether fewer than `LOCKUP_PERIOD` seconds lie between `last_stake_time`
/// and `now`.
fn in_lockup(last_stake_time: i64, now: i64) -> (locked: bool)
    ensures
        locked == (now - last_stake_time < LOCKUP_PERIOD),
{
    (now as i128) - (last_stake_time as i128) < (LOCKUP_PERIOD as i128)
}

/// Takes `amount` out of the position and pays out everything pending.
///
/// On success the returned record names the amount to move from the stake
/// vault to the staker, and the number beside it is the reward to move from
/// the reward vault to the staker (zero when nothing was pending).
pub fn unstake_tokens(
    pool: &mut StakingPool,
    user: &mut UserStake,
    amount: u64,
    now: i64,
) -> (result: Result<(UnstakeEvent, u64), StakingError>)
    ensures
        match unstake_model(old(pool)@, old(user)@, amount as nat, now as int) {
            Ok(done) => {
                &&& final(pool)@ == done.pool
                &&& final(user)@ == done.user
                &&& result matches Ok((event, reward_payout))
                &&& event.staker == old(user).staker
                &&& event.amount == amount
                &&& event.time == now
                &&& reward_payout == done.reward_payout
            },
            Err(e) => {
                &&& *final(pool) == *old(pool)
                &&& *final(user) == *old(user)
                &&& result == Err::<(UnstakeEvent, u64), StakingError>(e)
            },
        },
        final(pool).reward_per_token_stored >= old(pool).reward_per_token_stored,
{
    if pool.paused {
        return Err(StakingError::PoolPaused);
    }
    if in_lockup(user.last_stake_time, now) {
        return Err(StakingError::LockupNotExpired);
    }
    if user.amount_staked < amount as u128 || pool.total_staked < amount as u128 {
        return Err(StakingError::InsufficientStaked);
    }
    let (accrued, synced) = match settle(pool, user, now) {
        Ok(pair) => pair,
        Err(e) => {
            return Err(e);
        },
    };
    let (next_pool, next_user, reward_payout) = match pay_out(
        accrued,
        synced,
        accrued.total_staked - amount as u128,
        synced.amount_staked - amount as u128,
    ) {
        Ok(triple) => triple,
        Err(e) => {
            return Err(e);
        },
    };
    let staker: Address = user.staker;
    *pool = next_pool;
    *user = next_user;
    Ok((UnstakeEvent { staker, amount, time: now }, reward_payout))
}

/// Pays out everything the position has accrued.
///
/// On success the returned record names the reward to move from the reward
/// vault to the staker (zero when nothing was pending).
pub fn claim_rewards(pool: &mut StakingPool, user: &mut UserStake, now: i64) -> (result: Result<RewardPaid, StakingError>)
    ensures
        match claim_model(old(pool)@, old(user)@, now as int) {
            Ok(done) => {
                &&& final(pool)@ == done.pool
                &&& final(user)@ == done.user
                &&& result matches Ok(event)
                &&& event.staker == old(user).staker
                &&& event.amount == done.reward_payout
                &&& event.time == now
            },
            Err(e) => {
                &&& *final(pool) == *old(pool)
                &&& *final(user) == *old(user)
                &&& result == Err::<RewardPaid, StakingError>(e)
            },
        },
        final(pool).reward_per_token_stored >= old(pool).reward_per_token_stored,
{
    if pool.paused {
        return Err(StakingError::PoolPaused);
    }
    let (accrued, synced) = match settle(pool, user, now) {
        Ok(pair) => pair,
        Err(e) => {
            return Err(e);
        },
    };
    let (next_pool, next_user, reward_payout) = match pay_out(
        accrued,
        synced,
        accrued.total_staked,
        synced.amount_staked,
    ) {
        Ok(triple) => triple,
        Err(e) => {
            return Err(e);
        },
    };
    let staker: Address = user.staker;
    *pool = next_pool;
    *user = next_user;
    Ok(RewardPaid { staker, amount: reward_payout, time: now })
}

/// Replaces the reward rate by `new_rate_per_day`, after accruing up to
/// `now` at the rate in force. Only the pool's admin may ask for this.
pub fn set_reward_rate(pool: &mut StakingPool, admin: &Address, new_rate_per_day: u64, now: i64) -> (result: Result<(), StakingError>)
    requires
        admin@ == old(pool)@.admin,
    ensures
        match set_reward_rate_model(old(pool)@, new_rate_per_day as nat, now as int) {
            Ok(next) => final(pool)@ == next && result is Ok,
            Err(e) => *final(pool) == *old(pool) && result == Err::<(), StakingError>(e),
        },
        final(pool).reward_per_token_stored >= old(pool).reward_per_token_stored,
{
    if pool.paused {
        return Err(StakingError::PoolPaused);
    }
    let mut next_pool: StakingPool = *pool;
    match accrue_rewards(&mut next_pool, now) {
        Ok(()) => {},
        Err(e) => {
            return Err(e);
        },
    }
    let rate: u128 = match scaled(new_rate_per_day as u128, PRECISION, SECONDS_PER_DAY) {
        Ok(v) => v,
        Err(e) => {
            return Err(e);
        },
    };
    next_pool.reward_rate_per_day = rate;
    *pool = next_pool;
    Ok(())
}

/// Approves funding the reward vault with `amount`: the amount to mint into
/// it, or `PoolPaused`. Only the pool's admin may ask for this.
pub fn deposit_rewards(pool: &StakingPool, admin: &Address, amount: u64) -> (result: Result<u64, StakingError>)
    requires
        admin@ == pool@.admin,
    ensures
        match deposit_rewards_model(pool@, amount as nat) {
            Ok(minted) => result matches Ok(v) && v == minted,
            Err(e) => result == Err::<u64, StakingError>(e),
        },
{
    if pool.paused {
        return Err(StakingError::PoolPaused);
    }
    Ok(amount)
}

/// Pauses the pool. Only the pool's admin may ask for this.
pub fn pause_pool(pool: &mut StakingPool, admin: &Address, now: i64) -> (event: PoolPaused)
    requires
        admin@ == old(pool)@.admin,
    ensures
        final(pool)@ == with_paused(old(pool)@, true),
        event.admin == *admin,
        event.time == now,
{
    pool.paused = true;
    PoolPaused { admin: *admin, time: now }
}

/// Resumes the pool. Only the pool's admin may ask for this.
pub fn unpause_pool(pool: &mut StakingPool, admin: &Address, now: i64) -> (event: PoolUnpaused)
    requires
        admin@ == old(pool)@.admin,
    ensures
        final(pool)@ == with_paused(old(pool)@, false),
        event.admin == *admin,
        event.time == now,
{
    pool.paused = false;
    PoolUnpaused { admin: *admin, time: now }
}

/// Withdraws the whole stake at once, giving up a tenth of it and all
/// rewards. Works on a paused pool and inside the lock-up.
///
/// On success the number beside the returned record is the amount to move
/// from the stake vault to the staker: the principal less the slash.
pub fn emergency_withdraw(pool: &mut StakingPool, user: &mut UserStake, now: i64) -> (result: Result<(EmergencyWithdrawEvent, u64), StakingError>)
    ensures
        match emergency_withdraw_model(old(pool)@, old(user)@) {
            Ok(done) => {
                &&& final(pool)@ == done.pool
                &&& final(user)@ == done.user
                &&& result matches Ok((event, payout))
                &&& event.staker == old(user).staker
                &&& event.principal == done.principal
                &&& event.slash == done.slash
                &&& event.time == now
                &&& payout == done.principal - done.slash
            },
            Err(e) => {
                &&& *final(pool) == *old(pool)
                &&& *final(user) == *old(user)
                &&& result == Err::<(EmergencyWithdrawEvent, u64), StakingError>(e)
            },
        },
{
    if user.amount_staked == 0 {
        return Err(StakingError::InsufficientStaked);
    }
    if user.amount_staked > u64::MAX as u128 {
        return Err(StakingError::RewardOverflow);
    }
    let principal: u64 = user.amount_staked as u64;
    let slash: u64 = principal / 10;
    let payout: u64 = principal - slash;
    pool.total_staked = pool.total_staked.saturating_sub(user.amount_staked);
    user.amount_staked = 0;
    user.pending_rewards = 0;
    user.reward_debt = 0;
    Ok((EmergencyWithdrawEvent { staker: user.staker, principal, slash, time: now }, payout))
}

} // verus!
