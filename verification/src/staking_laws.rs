//! What holds of the staking pool's transitions, proved over the model.

use vstd::prelude::*;
use crate::errors::StakingError;
use crate::math::max_u64;
use crate::staking_model::{
    accrue_model, claim_model, emergency_withdraw_model, scaled_rate, set_reward_rate_model,
    settle_model, stake_model, unstake_model, with_paused,
};
use crate::state::{StakingPoolView, UserStakeView, PRECISION, SECONDS_PER_DAY};

verus! {

/// A rate of `SECONDS_PER_DAY` reward units per day is one whole unit per
/// second: its scaled rate is `PRECISION`.
pub proof fn lemma_unit_rate()
    ensures
        scaled_rate(SECONDS_PER_DAY as nat) == PRECISION,
{
    assert(86_400nat * 1_000_000_000nat == 1_000_000_000nat * 86_400nat) by (nonlinear_arith);
    vstd::arithmetic::div_mod::lemma_div_by_multiple(1_000_000_000, 86_400);
}

/// Accrual only ever moves the clock and raises the accumulator: it never
/// lowers the accumulator and changes nothing else. With nothing staked, or
/// with no time passed, the accumulator stays where it is.
pub proof fn lemma_accrual_never_lowers_accumulator(pool: StakingPoolView, now: int)
    ensures
        match accrue_model(pool, now) {
            Ok(accrued) => {
                &&& accrued.reward_per_token_stored >= pool.reward_per_token_stored
                &&& accrued.last_update_time == now
                &&& accrued == StakingPoolView {
                    reward_per_token_stored: accrued.reward_per_token_stored,
                    last_update_time: now,
                    ..pool
                }
                &&& (pool.total_staked == 0 || now == pool.last_update_time)
                    ==> accrued.reward_per_token_stored == pool.reward_per_token_stored
            },
            Err(e) => e == StakingError::RewardOverflow,
        },
{
    if pool.total_staked > 0 && now == pool.last_update_time {
        let zero = (now - pool.last_update_time) as nat;
        assert(zero * pool.reward_rate_per_second == 0) by (nonlinear_arith)
            requires
                zero == 0,
        ;
        vstd::arithmetic::div_mod::lemma_div_basics_1(pool.total_staked as int);
    }
}

/// The accumulator never decreases: whichever operation runs, and whether
/// it succeeds or is refused, the pool it leaves behind has an accumulator
/// at least as large as before.
pub proof fn lemma_accumulator_is_monotone(
    pool: StakingPoolView,
    user: UserStakeView,
    staker: Seq<u8>,
    amount: nat,
    rate_per_day: nat,
    now: int,
)
    ensures
        stake_model(pool, user, staker, amount, now) matches Ok(done)
            ==> done.pool.reward_per_token_stored >= pool.reward_per_token_stored,
        unstake_model(pool, user, amount, now) matches Ok(done)
            ==> done.pool.reward_per_token_stored >= pool.reward_per_token_stored,
        claim_model(pool, user, now) matches Ok(done) ==> done.pool.reward_per_token_stored
            >= pool.reward_per_token_stored,
        set_reward_rate_model(pool, rate_per_day, now) matches Ok(next)
            ==> next.reward_per_token_stored >= pool.reward_per_token_stored,
        emergency_withdraw_model(pool, user) matches Ok(done)
            ==> done.pool.reward_per_token_stored == pool.reward_per_token_stored,
        with_paused(pool, true).reward_per_token_stored == pool.reward_per_token_stored,
        with_paused(pool, false).reward_per_token_stored == pool.reward_per_token_stored,
{
    lemma_accrual_never_lowers_accumulator(pool, now);
}

/// Staking and unstaking move the position and the pool total by the same
/// amount, so what the other stakers hold, `total_staked - amount_staked`,
/// is untouched. The emergency exit does the same whenever the pool total
/// covers the position.
pub proof fn lemma_other_stakes_untouched(
    pool: StakingPoolView,
    user: UserStakeView,
    staker: Seq<u8>,
    amount: nat,
    now: int,
)
    ensures
        stake_model(pool, user, staker, amount, now) matches Ok(done) ==> {
            &&& done.user.amount_staked == user.amount_staked + amount
            &&& done.pool.total_staked == pool.total_staked + amount
            &&& done.pool.total_staked - done.user.amount_staked == pool.total_staked
                - user.amount_staked
        },
        unstake_model(pool, user, amount, now) matches Ok(done) ==> {
            &&& done.user.amount_staked + amount == user.amount_staked
            &&& done.pool.total_staked + amount == pool.total_staked
            &&& done.pool.total_staked - done.user.amount_staked == pool.total_staked
                - user.amount_staked
        },
        claim_model(pool, user, now) matches Ok(done) ==> {
            &&& done.user.amount_staked == user.amount_staked
            &&& done.pool.total_staked == pool.total_staked
        },
        emergency_withdraw_model(pool, user) matches Ok(done) ==> {
            &&& done.user.amount_staked == 0
            &&& user.amount_staked <= pool.total_staked ==> done.pool.total_staked
                == pool.total_staked - user.amount_staked
            &&& user.amount_staked > pool.total_staked ==> done.pool.total_staked == 0
        },
{
}

/// Paying out empties the pending rewards: after an unstake or a claim the
/// position has nothing pending, and what was paid is what was pending once
/// the position had been settled.
pub proof fn lemma_payout_clears_pending(pool: StakingPoolView, user: UserStakeView, amount: nat, now: int)
    ensures
        unstake_model(pool, user, amount, now) matches Ok(done) ==> {
            &&& done.user.pending_rewards == 0
            &&& done.reward_payout <= max_u64()
            &&& settle_model(pool, user, now) matches Ok((_, synced)) && done.reward_payout
                == synced.pending_rewards
        },
        claim_model(pool, user, now) matches Ok(done) ==> {
            &&& done.user.pending_rewards == 0
            &&& done.reward_payout <= max_u64()
            &&& settle_model(pool, user, now) matches Ok((_, synced)) && done.reward_payout
                == synced.pending_rewards
        },
{
}

/// An emergency exit is granted to every position that holds a stake one
/// ledger transfer can carry, whatever the pause flag, the lock-up, the
/// pending rewards and the reward debt are. It keeps back a tenth of the
/// stake, rounded down, pays the rest, and leaves the position with no
/// stake, no pending rewards and no reward debt.
pub proof fn lemma_emergency_exit_forfeits_rewards(pool: StakingPoolView, user: UserStakeView)
    requires
        0 < user.amount_staked <= max_u64(),
    ensures
        emergency_withdraw_model(pool, user) matches Ok(done) && {
            &&& done.principal == user.amount_staked
            &&& done.slash == user.amount_staked / 10
            &&& done.slash <= done.principal
            &&& 10 * done.slash <= done.principal < 10 * done.slash + 10
            &&& done.user.amount_staked == 0
            &&& done.user.pending_rewards == 0
            &&& done.user.reward_debt == 0
            &&& done.user.staker == user.staker
            &&& done.user.last_stake_time == user.last_stake_time
            &&& done.pool.paused == pool.paused
        },
{
}

} // verus!
