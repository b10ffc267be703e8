use spl_pools::address::Address;
use spl_pools::errors::StakingError;
use spl_pools::events::{
    EmergencyWithdrawEvent, PoolPaused, PoolUnpaused, RewardPaid, StakeEvent, UnstakeEvent,
};
use spl_pools::staking::{
    accrue_rewards, claim_rewards, deposit_rewards, emergency_withdraw, initialize_pool,
    pause_pool, pending_reward, set_reward_rate, stake_tokens, unpause_pool, unstake_tokens,
};
use spl_pools::state::{StakingPool, UserStake, LOCKUP_PERIOD, PRECISION, SECONDS_PER_DAY};

fn id(tag: u8) -> Address {
    Address::new([tag; 32])
}

fn admin() -> Address {
    id(10)
}

fn alice() -> Address {
    id(20)
}

fn bob() -> Address {
    id(21)
}

fn staking_pool_key() -> Address {
    id(30)
}

fn unit_rate_pool(now: i64) -> StakingPool {
    initialize_pool(id(11), id(11), id(12), id(13), admin(), 86_400, now).unwrap()
}

fn position(amount_staked: u128, reward_debt: u128, pending_rewards: u128, last_stake_time: i64) -> UserStake {
    let mut user = UserStake::vacant(staking_pool_key());
    user.staker = alice();
    user.amount_staked = amount_staked;
    user.reward_debt = reward_debt;
    user.pending_rewards = pending_rewards;
    user.last_stake_time = last_stake_time;
    user
}

#[test]
fn staking_constants() {
    assert_eq!(PRECISION, 1_000_000_000);
    assert_eq!(SECONDS_PER_DAY, 86_400);
    assert_eq!(LOCKUP_PERIOD, 5);
}

#[test]
fn initialize_scales_the_rate() {
    let pool = initialize_pool(id(1), id(2), id(3), id(4), admin(), 86_400, 1_700_000_000).unwrap();
    assert_eq!(pool.stake_mint, id(1));
    assert_eq!(pool.reward_mint, id(2));
    assert_eq!(pool.stake_vault, id(3));
    assert_eq!(pool.reward_vault, id(4));
    assert_eq!(pool.admin, admin());
    assert_eq!(pool.total_staked, 0);
    assert_eq!(pool.reward_rate_per_day, PRECISION);
    assert_eq!(pool.reward_per_token_stored, 0);
    assert_eq!(pool.last_update_time, 1_700_000_000);
    assert!(!pool.paused);
    let other = initialize_pool(id(1), id(2), id(3), id(4), admin(), 12_345, 0).unwrap();
    assert_eq!(other.reward_rate_per_day, 142_881_944);
    let idle = initialize_pool(id(1), id(2), id(3), id(4), admin(), 0, -5).unwrap();
    assert_eq!(idle.reward_rate_per_day, 0);
    assert_eq!(idle.last_update_time, -5);
}

#[test]
fn initialize_reports_overflow_of_the_rate() {
    let largest_fitting: u128 = 340282366920938463463374607431;
    let pool = initialize_pool(id(1), id(2), id(3), id(4), admin(), largest_fitting, 0).unwrap();
    assert_eq!(pool.reward_rate_per_day, 3938453320844195178974243141562500);
    assert_eq!(
        initialize_pool(id(1), id(2), id(3), id(4), admin(), largest_fitting + 1, 0),
        Err(StakingError::RewardOverflow)
    );
    assert_eq!(
        initialize_pool(id(1), id(2), id(3), id(4), admin(), u128::MAX, 0),
        Err(StakingError::RewardOverflow)
    );
}

#[test]
fn admin_is_recognised() {
    let pool = unit_rate_pool(0);
    assert!(pool.is_admin(&admin()));
    assert!(!pool.is_admin(&alice()));
}

#[test]
fn vacant_position_holds_nothing() {
    let user = UserStake::vacant(staking_pool_key());
    assert_eq!(user.pool, staking_pool_key());
    assert_eq!(user.staker, Address::unassigned());
    assert_eq!(user.amount_staked, 0);
    assert_eq!(user.reward_debt, 0);
    assert_eq!(user.pending_rewards, 0);
    assert_eq!(user.last_stake_time, 0);
}

#[test]
fn reward_accrual_after_ten_seconds() {
    let mut pool = unit_rate_pool(1_000);
    assert_eq!(pool.reward_rate_per_day, PRECISION);
    pool.total_staked = 100;
    assert_eq!(accrue_rewards(&mut pool, 1_010), Ok(()));
    assert_eq!(pool.reward_per_token_stored, 100_000_000);
    assert_eq!(pool.last_update_time, 1_010);
    assert_eq!(pending_reward(100, pool.reward_per_token_stored, 0), Ok(10));
}

#[test]
fn accrual_with_nothing_staked_only_moves_the_clock() {
    let mut pool = unit_rate_pool(1_000);
    assert_eq!(accrue_rewards(&mut pool, 5_000), Ok(()));
    assert_eq!(pool.reward_per_token_stored, 0);
    assert_eq!(pool.last_update_time, 5_000);
    assert_eq!(accrue_rewards(&mut pool, 10), Ok(()));
    assert_eq!(pool.last_update_time, 10);
    assert_eq!(pool.reward_per_token_stored, 0);
}

#[test]
fn accrual_does_not_count_an_interval_twice() {
    let mut pool = unit_rate_pool(1_000);
    pool.total_staked = 100;
    accrue_rewards(&mut pool, 1_010).unwrap();
    accrue_rewards(&mut pool, 1_010).unwrap();
    assert_eq!(pool.reward_per_token_stored, 100_000_000);
    accrue_rewards(&mut pool, 1_020).unwrap();
    assert_eq!(pool.reward_per_token_stored, 200_000_000);
}

#[test]
fn accrual_rounds_down_per_token() {
    let mut pool = unit_rate_pool(0);
    pool.total_staked = 150;
    accrue_rewards(&mut pool, 10).unwrap();
    assert_eq!(pool.reward_per_token_stored, 66_666_666);
}

#[test]
fn accrual_rejects_time_running_backwards() {
    let mut pool = unit_rate_pool(1_000);
    pool.total_staked = 100;
    let before = pool;
    assert_eq!(accrue_rewards(&mut pool, 999), Err(StakingError::RewardOverflow));
    assert_eq!(pool, before);
}

#[test]
fn accrual_reports_overflow_of_the_reward() {
    let largest_fitting: u128 = 340282366920938463463374607431;
    let mut pool = initialize_pool(id(1), id(1), id(3), id(4), admin(), largest_fitting, 0).unwrap();
    pool.total_staked = 1;
    let before = pool;
    assert_eq!(accrue_rewards(&mut pool, 86_401), Err(StakingError::RewardOverflow));
    assert_eq!(pool, before);
    assert_eq!(accrue_rewards(&mut pool, 86_400), Ok(()));
    assert_eq!(pool.reward_per_token_stored, 86_400 * 3938453320844195178974243141562500);
}

#[test]
fn accrual_reports_overflow_of_the_accumulator() {
    let mut pool = unit_rate_pool(0);
    pool.total_staked = 1;
    pool.reward_per_token_stored = u128::MAX;
    let before = pool;
    assert_eq!(accrue_rewards(&mut pool, 1), Err(StakingError::RewardOverflow));
    assert_eq!(pool, before);
    assert_eq!(accrue_rewards(&mut pool, 0), Ok(()));
    assert_eq!(pool.reward_per_token_stored, u128::MAX);
}

#[test]
fn accrual_spans_the_whole_clock() {
    let mut pool = initialize_pool(id(1), id(1), id(3), id(4), admin(), 1, i64::MIN).unwrap();
    assert_eq!(pool.reward_rate_per_day, 11_574);
    pool.total_staked = 1;
    assert_eq!(accrue_rewards(&mut pool, i64::MAX), Ok(()));
    assert_eq!(pool.reward_per_token_stored, (u64::MAX as u128) * 11_574);
}

#[test]
fn pending_reward_formula() {
    assert_eq!(pending_reward(100, 100_000_000, 0), Ok(10));
    assert_eq!(pending_reward(100, 100_000_000, 10), Ok(9));
    assert_eq!(pending_reward(100, 10, 10), Ok(0));
    assert_eq!(pending_reward(100, 9, 10), Ok(0));
    assert_eq!(pending_reward(0, 100_000_000, 0), Ok(0));
    assert_eq!(pending_reward(300, 200_000_000, 30), Ok(59));
    assert_eq!(pending_reward(u128::MAX, 5, 5), Ok(0));
}

#[test]
fn pending_reward_reports_overflow() {
    assert_eq!(pending_reward(u128::MAX, 2, 0), Err(StakingError::RewardOverflow));
    assert_eq!(pending_reward(1u128 << 64, 1u128 << 64, 0), Err(StakingError::RewardOverflow));
    assert_eq!(pending_reward(u128::MAX, 1, 0), Ok(u128::MAX / PRECISION));
}

#[test]
fn first_stake_assigns_the_staker() {
    let mut pool = unit_rate_pool(1_000);
    let mut user = UserStake::vacant(staking_pool_key());
    let event = stake_tokens(&mut pool, &mut user, alice(), 100, 1_000).unwrap();
    assert_eq!(event, StakeEvent { staker: alice(), amount: 100, time: 1_000 });
    assert_eq!(user.staker, alice());
    assert_eq!(user.pool, staking_pool_key());
    assert_eq!(user.amount_staked, 100);
    assert_eq!(user.reward_debt, 0);
    assert_eq!(user.pending_rewards, 0);
    assert_eq!(user.last_stake_time, 1_000);
    assert_eq!(pool.total_staked, 100);
    assert_eq!(pool.last_update_time, 1_000);
    assert_eq!(pool.reward_per_token_stored, 0);
}

#[test]
fn later_stake_keeps_the_staker_and_settles_first() {
    let mut pool = unit_rate_pool(1_000);
    let mut user = UserStake::vacant(staking_pool_key());
    stake_tokens(&mut pool, &mut user, alice(), 100, 1_000).unwrap();
    let event = stake_tokens(&mut pool, &mut user, bob(), 50, 1_010).unwrap();
    assert_eq!(event, StakeEvent { staker: alice(), amount: 50, time: 1_010 });
    assert_eq!(user.staker, alice());
    assert_eq!(pool.reward_per_token_stored, 100_000_000);
    assert_eq!(user.pending_rewards, 10);
    assert_eq!(user.amount_staked, 150);
    assert_eq!(user.reward_debt, 15);
    assert_eq!(user.last_stake_time, 1_010);
    assert_eq!(pool.total_staked, 150);
}

#[test]
fn stake_rejects_paused_pool() {
    let mut pool = unit_rate_pool(1_000);
    pool.paused = true;
    let mut user = UserStake::vacant(staking_pool_key());
    let pool_before = pool;
    let user_before = user;
    assert_eq!(
        stake_tokens(&mut pool, &mut user, alice(), 100, 1_001),
        Err(StakingError::PoolPaused)
    );
    assert_eq!(pool, pool_before);
    assert_eq!(user, user_before);
}

#[test]
fn stake_reports_overflow_and_changes_nothing() {
    let mut pool = unit_rate_pool(0);
    pool.total_staked = u128::MAX;
    let mut user = position(5, 0, 0, 0);
    let pool_before = pool;
    let user_before = user;
    assert_eq!(
        stake_tokens(&mut pool, &mut user, alice(), 1, 10),
        Err(StakingError::RewardOverflow)
    );
    assert_eq!(pool, pool_before);
    assert_eq!(user, user_before);

    let mut rich = unit_rate_pool(0);
    rich.reward_per_token_stored = 1u128 << 100;
    let mut wide = position(1u128 << 30, u128::MAX, 0, 0);
    let rich_before = rich;
    let wide_before = wide;
    assert_eq!(
        stake_tokens(&mut rich, &mut wide, alice(), 1, 0),
        Err(StakingError::RewardOverflow)
    );
    assert_eq!(rich, rich_before);
    assert_eq!(wide, wide_before);

    let mut owing = unit_rate_pool(0);
    owing.total_staked = 2;
    owing.reward_per_token_stored = PRECISION;
    let mut full = position(2, 0, u128::MAX, 0);
    let owing_before = owing;
    let full_before = full;
    assert_eq!(
        stake_tokens(&mut owing, &mut full, alice(), 1, 0),
        Err(StakingError::RewardOverflow)
    );
    assert_eq!(owing, owing_before);
    assert_eq!(full, full_before);
}

#[test]
fn unstake_pays_stake_and_rewards() {
    let mut pool = unit_rate_pool(1_000);
    let mut user = UserStake::vacant(staking_pool_key());
    stake_tokens(&mut pool, &mut user, alice(), 100, 1_000).unwrap();
    let (event, reward) = unstake_tokens(&mut pool, &mut user, 40, 1_010).unwrap();
    assert_eq!(event, UnstakeEvent { staker: alice(), amount: 40, time: 1_010 });
    assert_eq!(reward, 10);
    assert_eq!(user.amount_staked, 60);
    assert_eq!(user.pending_rewards, 0);
    assert_eq!(user.reward_debt, 6);
    assert_eq!(user.last_stake_time, 1_000);
    assert_eq!(pool.total_staked, 60);
    assert_eq!(pool.reward_per_token_stored, 100_000_000);
    assert_eq!(pool.last_update_time, 1_010);
}

#[test]
fn unstake_everything_zeroes_the_position() {
    let mut pool = unit_rate_pool(1_000);
    let mut user = UserStake::vacant(staking_pool_key());
    stake_tokens(&mut pool, &mut user, alice(), 100, 1_000).unwrap();
    let (event, reward) = unstake_tokens(&mut pool, &mut user, 100, 1_005).unwrap();
    assert_eq!(event.amount, 100);
    assert_eq!(reward, 5);
    assert_eq!(user.amount_staked, 0);
    assert_eq!(user.pending_rewards, 0);
    assert_eq!(user.reward_debt, 0);
    assert_eq!(user.staker, alice());
    assert_eq!(pool.total_staked, 0);
}

#[test]
fn unstake_respects_the_lockup() {
    let mut pool = unit_rate_pool(1_000);
    let mut user = UserStake::vacant(staking_pool_key());
    stake_tokens(&mut pool, &mut user, alice(), 100, 1_000).unwrap();
    let pool_before = pool;
    let user_before = user;
    assert_eq!(
        unstake_tokens(&mut pool, &mut user, 10, 1_004),
        Err(StakingError::LockupNotExpired)
    );
    assert_eq!(
        unstake_tokens(&mut pool, &mut user, 10, 1_000),
        Err(StakingError::LockupNotExpired)
    );
    assert_eq!(
        unstake_tokens(&mut pool, &mut user, 10, 900),
        Err(StakingError::LockupNotExpired)
    );
    assert_eq!(pool, pool_before);
    assert_eq!(user, user_before);
    assert!(unstake_tokens(&mut pool, &mut user, 10, 1_005).is_ok());
}

#[test]
fn unstake_lockup_at_the_ends_of_the_clock() {
    let mut pool = unit_rate_pool(0);
    pool.reward_rate_per_day = 0;
    pool.total_staked = 10;
    pool.last_update_time = i64::MIN;
    let mut early = position(10, 0, 0, i64::MIN);
    assert!(unstake_tokens(&mut pool, &mut early, 1, i64::MAX).is_ok());
    let mut late = position(10, 0, 0, i64::MAX);
    assert_eq!(
        unstake_tokens(&mut pool, &mut late, 1, i64::MIN),
        Err(StakingError::LockupNotExpired)
    );
}

#[test]
fn unstake_rejects_more_than_staked() {
    let mut pool = unit_rate_pool(1_000);
    let mut user = UserStake::vacant(staking_pool_key());
    stake_tokens(&mut pool, &mut user, alice(), 100, 1_000).unwrap();
    let pool_before = pool;
    let user_before = user;
    assert_eq!(
        unstake_tokens(&mut pool, &mut user, 101, 1_010),
        Err(StakingError::InsufficientStaked)
    );
    assert_eq!(pool, pool_before);
    assert_eq!(user, user_before);
    pool.total_staked = 50;
    assert_eq!(
        unstake_tokens(&mut pool, &mut user, 60, 1_010),
        Err(StakingError::InsufficientStaked)
    );
    assert_eq!(user, user_before);
}

#[test]
fn unstake_checks_pause_before_lockup_before_balance() {
    let mut pool = unit_rate_pool(1_000);
    let mut user = position(10, 0, 0, 1_000);
    pool.total_staked = 10;
    pool.paused = true;
    assert_eq!(unstake_tokens(&mut pool, &mut user, 11, 1_001), Err(StakingError::PoolPaused));
    pool.paused = false;
    assert_eq!(
        unstake_tokens(&mut pool, &mut user, 11, 1_001),
        Err(StakingError::LockupNotExpired)
    );
    assert_eq!(
        unstake_tokens(&mut pool, &mut user, 11, 1_005),
        Err(StakingError::InsufficientStaked)
    );
}

#[test]
fn unstake_reports_reward_beyond_a_transfer() {
    let mut pool = unit_rate_pool(0);
    pool.total_staked = 10;
    let mut user = position(10, u128::MAX, (u64::MAX as u128) + 1, 0);
    let pool_before = pool;
    let user_before = user;
    assert_eq!(unstake_tokens(&mut pool, &mut user, 1, 5), Err(StakingError::RewardOverflow));
    assert_eq!(pool, pool_before);
    assert_eq!(user, user_before);
    user.pending_rewards = u64::MAX as u128;
    let (_, reward) = unstake_tokens(&mut pool, &mut user, 1, 5).unwrap();
    assert_eq!(reward, u64::MAX);
}

#[test]
fn claim_pays_pending_rewards() {
    let mut pool = unit_rate_pool(1_000);
    let mut user = UserStake::vacant(staking_pool_key());
    stake_tokens(&mut pool, &mut user, alice(), 100, 1_000).unwrap();
    let paid = claim_rewards(&mut pool, &mut user, 1_010).unwrap();
    assert_eq!(paid, RewardPaid { staker: alice(), amount: 10, time: 1_010 });
    assert_eq!(user.pending_rewards, 0);
    assert_eq!(user.reward_debt, 10);
    assert_eq!(user.amount_staked, 100);
    assert_eq!(pool.total_staked, 100);
    assert_eq!(pool.reward_per_token_stored, 100_000_000);
    assert_eq!(pool.last_update_time, 1_010);
}

#[test]
fn claim_for_two_stakers() {
    let mut pool = unit_rate_pool(1_000);
    let mut first = UserStake::vacant(staking_pool_key());
    let mut second = UserStake::vacant(staking_pool_key());
    stake_tokens(&mut pool, &mut first, alice(), 100, 1_000).unwrap();
    stake_tokens(&mut pool, &mut second, bob(), 300, 1_010).unwrap();
    assert_eq!(second.reward_debt, 30);
    assert_eq!(pool.total_staked, 400);
    let paid = claim_rewards(&mut pool, &mut second, 1_050).unwrap();
    assert_eq!(pool.reward_per_token_stored, 200_000_000);
    assert_eq!(paid, RewardPaid { staker: bob(), amount: 59, time: 1_050 });
    assert_eq!(second.reward_debt, 60);
}

#[test]
fn claim_with_nothing_pending_pays_zero() {
    let mut pool = unit_rate_pool(1_000);
    let mut user = UserStake::vacant(staking_pool_key());
    user.staker = alice();
    let paid = claim_rewards(&mut pool, &mut user, 1_010).unwrap();
    assert_eq!(paid, RewardPaid { staker: alice(), amount: 0, time: 1_010 });
    assert_eq!(pool.last_update_time, 1_010);
}

#[test]
fn claim_rejects_paused_pool() {
    let mut pool = unit_rate_pool(1_000);
    let mut user = position(100, 0, 7, 1_000);
    pool.total_staked = 100;
    pool.paused = true;
    let pool_before = pool;
    let user_before = user;
    assert_eq!(claim_rewards(&mut pool, &mut user, 1_010), Err(StakingError::PoolPaused));
    assert_eq!(pool, pool_before);
    assert_eq!(user, user_before);
}

#[test]
fn claim_reports_reward_beyond_a_transfer() {
    let mut pool = unit_rate_pool(0);
    pool.total_staked = 1u128 << 64;
    pool.reward_per_token_stored = 2 * PRECISION;
    let mut user = position(1u128 << 64, 0, 0, 0);
    let pool_before = pool;
    let user_before = user;
    assert_eq!(claim_rewards(&mut pool, &mut user, 0), Err(StakingError::RewardOverflow));
    assert_eq!(pool, pool_before);
    assert_eq!(user, user_before);
}

#[test]
fn accumulator_never_decreases() {
    let mut pool = unit_rate_pool(1_000);
    let mut user = UserStake::vacant(staking_pool_key());
    let mut last = pool.reward_per_token_stored;
    stake_tokens(&mut pool, &mut user, alice(), 100, 1_000).unwrap();
    assert!(pool.reward_per_token_stored >= last);
    last = pool.reward_per_token_stored;
    claim_rewards(&mut pool, &mut user, 1_003).unwrap();
    assert!(pool.reward_per_token_stored >= last);
    last = pool.reward_per_token_stored;
    set_reward_rate(&mut pool, &admin(), 0, 1_004).unwrap();
    assert!(pool.reward_per_token_stored >= last);
    last = pool.reward_per_token_stored;
    unstake_tokens(&mut pool, &mut user, 10, 1_020).unwrap();
    assert!(pool.reward_per_token_stored >= last);
    last = pool.reward_per_token_stored;
    pause_pool(&mut pool, &admin(), 1_021);
    emergency_withdraw(&mut pool, &mut user, 1_022).unwrap();
    unpause_pool(&mut pool, &admin(), 1_023);
    assert_eq!(pool.reward_per_token_stored, last);
}

#[test]
fn total_staked_tracks_the_positions() {
    let mut pool = unit_rate_pool(0);
    let mut first = UserStake::vacant(staking_pool_key());
    let mut second = UserStake::vacant(staking_pool_key());
    stake_tokens(&mut pool, &mut first, alice(), 70, 0).unwrap();
    stake_tokens(&mut pool, &mut second, bob(), 30, 1).unwrap();
    assert_eq!(pool.total_staked, first.amount_staked + second.amount_staked);
    unstake_tokens(&mut pool, &mut first, 20, 10).unwrap();
    assert_eq!(pool.total_staked, first.amount_staked + second.amount_staked);
    claim_rewards(&mut pool, &mut second, 11).unwrap();
    assert_eq!(pool.total_staked, first.amount_staked + second.amount_staked);
    emergency_withdraw(&mut pool, &mut second, 12).unwrap();
    assert_eq!(pool.total_staked, first.amount_staked + second.amount_staked);
    assert_eq!(pool.total_staked, 50);
}

#[test]
fn set_reward_rate_accrues_at_the_old_rate_first() {
    let mut pool = unit_rate_pool(1_000);
    pool.total_staked = 100;
    assert_eq!(set_reward_rate(&mut pool, &admin(), 172_800, 1_010), Ok(()));
    assert_eq!(pool.reward_per_token_stored, 100_000_000);
    assert_eq!(pool.reward_rate_per_day, 2_000_000_000);
    assert_eq!(pool.last_update_time, 1_010);
    accrue_rewards(&mut pool, 1_020).unwrap();
    assert_eq!(pool.reward_per_token_stored, 300_000_000);
}

#[test]
fn set_reward_rate_takes_the_largest_rate() {
    let mut pool = unit_rate_pool(0);
    assert_eq!(set_reward_rate(&mut pool, &admin(), u64::MAX, 0), Ok(()));
    assert_eq!(pool.reward_rate_per_day, 213_503_982_334_601_291_840_277);
}

#[test]
fn set_reward_rate_rejects_paused_pool_and_failed_accrual() {
    let mut pool = unit_rate_pool(1_000);
    pool.paused = true;
    let before = pool;
    assert_eq!(
        set_reward_rate(&mut pool, &admin(), 5, 1_010),
        Err(StakingError::PoolPaused)
    );
    assert_eq!(pool, before);
    pool.paused = false;
    pool.total_staked = 1;
    let running = pool;
    assert_eq!(
        set_reward_rate(&mut pool, &admin(), 5, 999),
        Err(StakingError::RewardOverflow)
    );
    assert_eq!(pool, running);
}

#[test]
fn deposit_rewards_passes_the_amount_unless_paused() {
    let mut pool = unit_rate_pool(0);
    assert_eq!(deposit_rewards(&pool, &admin(), 5_000), Ok(5_000));
    assert_eq!(deposit_rewards(&pool, &admin(), 0), Ok(0));
    assert_eq!(deposit_rewards(&pool, &admin(), u64::MAX), Ok(u64::MAX));
    pool.paused = true;
    assert_eq!(deposit_rewards(&pool, &admin(), 5_000), Err(StakingError::PoolPaused));
}

#[test]
fn pause_and_unpause_flip_the_flag() {
    let mut pool = unit_rate_pool(1_000);
    pool.total_staked = 100;
    let before = pool;
    let paused = pause_pool(&mut pool, &admin(), 1_500);
    assert_eq!(paused, PoolPaused { admin: admin(), time: 1_500 });
    assert!(pool.paused);
    assert_eq!(pool.last_update_time, 1_000);
    assert_eq!(pool.reward_per_token_stored, 0);
    let again = pause_pool(&mut pool, &admin(), 1_501);
    assert_eq!(again.time, 1_501);
    assert!(pool.paused);
    let resumed = unpause_pool(&mut pool, &admin(), 1_600);
    assert_eq!(resumed, PoolUnpaused { admin: admin(), time: 1_600 });
    assert_eq!(pool, before);
}

#[test]
fn emergency_withdraw_slashes_a_tenth() {
    let mut pool = unit_rate_pool(1_000);
    pool.total_staked = 5_000;
    let mut user = position(1_000, 123, 456, 1_000);
    let (event, payout) = emergency_withdraw(&mut pool, &mut user, 1_001).unwrap();
    assert_eq!(
        event,
        EmergencyWithdrawEvent { staker: alice(), principal: 1_000, slash: 100, time: 1_001 }
    );
    assert_eq!(payout, 900);
    assert_eq!(user.amount_staked, 0);
    assert_eq!(user.pending_rewards, 0);
    assert_eq!(user.reward_debt, 0);
    assert_eq!(user.staker, alice());
    assert_eq!(user.last_stake_time, 1_000);
    assert_eq!(pool.total_staked, 4_000);
    assert_eq!(pool.last_update_time, 1_000);
    assert_eq!(pool.reward_per_token_stored, 0);
}

#[test]
fn emergency_withdraw_zeroes_whatever_was_owed() {
    for (debt, pending) in [(0u128, 0u128), (1, 1), (u128::MAX, u128::MAX), (7, u128::MAX)] {
        let mut pool = unit_rate_pool(0);
        pool.total_staked = 1_000;
        let mut user = position(1_000, debt, pending, 0);
        let (event, payout) = emergency_withdraw(&mut pool, &mut user, 0).unwrap();
        assert_eq!(event.slash, 100);
        assert_eq!(payout, 900);
        assert_eq!(user.pending_rewards, 0);
        assert_eq!(user.reward_debt, 0);
        assert_eq!(user.amount_staked, 0);
    }
}

#[test]
fn emergency_withdraw_rounds_the_slash_down() {
    let mut pool = unit_rate_pool(0);
    pool.total_staked = 2_000;
    let mut user = position(1_009, 0, 0, 0);
    let (event, payout) = emergency_withdraw(&mut pool, &mut user, 0).unwrap();
    assert_eq!(event.principal, 1_009);
    assert_eq!(event.slash, 100);
    assert_eq!(payout, 909);
    let mut small = position(9, 0, 0, 0);
    let (event, payout) = emergency_withdraw(&mut pool, &mut small, 0).unwrap();
    assert_eq!(event.slash, 0);
    assert_eq!(payout, 9);
    let mut largest = position(u64::MAX as u128, 0, 0, 0);
    let (event, payout) = emergency_withdraw(&mut pool, &mut largest, 0).unwrap();
    assert_eq!(event.principal, u64::MAX);
    assert_eq!(event.slash, 1_844_674_407_370_955_161);
    assert_eq!(payout, 16_602_069_666_338_596_454);
}

#[test]
fn emergency_withdraw_ignores_pause_and_lockup() {
    let mut pool = unit_rate_pool(1_000);
    let mut user = UserStake::vacant(staking_pool_key());
    stake_tokens(&mut pool, &mut user, alice(), 1_000, 1_000).unwrap();
    pause_pool(&mut pool, &admin(), 1_000);
    let (event, payout) = emergency_withdraw(&mut pool, &mut user, 1_000).unwrap();
    assert_eq!(event.principal, 1_000);
    assert_eq!(payout, 900);
    assert!(pool.paused);
    assert_eq!(pool.total_staked, 0);
}

#[test]
fn emergency_withdraw_needs_a_stake() {
    let mut pool = unit_rate_pool(0);
    pool.total_staked = 10;
    let mut user = position(0, 5, 6, 0);
    let pool_before = pool;
    let user_before = user;
    assert_eq!(
        emergency_withdraw(&mut pool, &mut user, 0),
        Err(StakingError::InsufficientStaked)
    );
    assert_eq!(pool, pool_before);
    assert_eq!(user, user_before);
}

#[test]
fn emergency_withdraw_floors_the_total_at_zero() {
    let mut pool = unit_rate_pool(0);
    pool.total_staked = 400;
    let mut user = position(1_000, 0, 0, 0);
    let (_, payout) = emergency_withdraw(&mut pool, &mut user, 0).unwrap();
    assert_eq!(payout, 900);
    assert_eq!(pool.total_staked, 0);
}

#[test]
fn emergency_withdraw_rejects_a_stake_beyond_a_transfer() {
    let mut pool = unit_rate_pool(0);
    pool.total_staked = u128::MAX;
    let mut user = position((u64::MAX as u128) + 1, 0, 0, 0);
    let pool_before = pool;
    let user_before = user;
    assert_eq!(
        emergency_withdraw(&mut pool, &mut user, 0),
        Err(StakingError::RewardOverflow)
    );
    assert_eq!(pool, pool_before);
    assert_eq!(user, user_before);
}
