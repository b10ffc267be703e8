//! The liquidity pool's operations: create, add and remove liquidity, swap
//! and quote.
//!
//! An operation either updates the pool record and returns the record of
//! what happened, or returns an error and leaves the pool record as it was.
//! The host moves the tokens the returned record names and persists the pool
//! record only once the ledger has accepted every movement.

use vstd::prelude::*;
use crate::address::Address;
use crate::amm_laws::{lemma_reserve_out_never_grows, lemma_share_within_reserve};
use crate::amm_model::{
    add_liquidity_model, create_model, direction_of_mints, direction_of_vault, fee_adjusted_input,
    quote_amount, quote_returns, remove_liquidity_model, swap_model, SwapDirection,
};
use crate::errors::AmmError;
use crate::events::{LiquidityAdded, LiquidityRemoved, PoolCreated, SwapExecuted};
use crate::math::{checked_div, checked_mul, isqrt, max_u128, mul_div};
use crate::state::{LiquidityPoolAMM, FEE_DENOM};

verus! {

/// Creates the record of an empty pool over the pair (`token_a_mint`,
/// `token_b_mint`) with the given vaults and fee.
///
/// Succeeds exactly when `pool_fee_bps` is below `FEE_DENOM`; a fee of
/// `FEE_DENOM` or more is refused with `InvalidFee`.
pub fn initialize_liquidity_pool(
    pool_key: Address,
    pool_name: String,
    token_a_mint: Address,
    token_b_mint: Address,
    vault_a: Address,
    vault_b: Address,
    pool_fee_bps: u16,
    bump: u8,
) -> (result: Result<(LiquidityPoolAMM, PoolCreated), AmmError>)
    ensures
        match create_model(
            pool_name@,
            token_a_mint@,
            token_b_mint@,
            vault_a@,
            vault_b@,
            pool_fee_bps as nat,
            bump as nat,
        ) {
            Ok(created) => {
                &&& result matches Ok((pool, event))
                &&& pool@ == created
                &&& pool.wf()
                &&& pool@.is_empty()
                &&& event == (PoolCreated {
                    pool: pool_key,
                    mint_a: token_a_mint,
                    mint_b: token_b_mint,
                    fee_bps: pool_fee_bps,
                })
            },
            Err(e) => result == Err::<(LiquidityPoolAMM, PoolCreated), AmmError>(e),
        },
        result is Ok <==> pool_fee_bps < FEE_DENOM,
        result is Err ==> result == Err::<(LiquidityPoolAMM, PoolCreated), AmmError>(
            AmmError::InvalidFee,
        ),
{
    if (pool_fee_bps as u128) >= FEE_DENOM {
        return Err(AmmError::InvalidFee);
    }
    let pool = LiquidityPoolAMM {
        pool_name,
        token_a_mint,
        token_b_mint,
        vault_a,
        vault_b,
        reserve_a: 0,
        reserve_b: 0,
        total_lp_supply: 0,
        fee_bps: pool_fee_bps,
        bump,
    };
    let event = PoolCreated {
        pool: pool_key,
        mint_a: token_a_mint,
        mint_b: token_b_mint,
        fee_bps: pool_fee_bps,
    };
    Ok((pool, event))
}

/// Deposits `amount_a_desired` of the first token and the matching amount of
/// the second, at most `max_amount_b`, and issues shares for them.
///
/// On success the returned record names the amounts to move: `amount_a` and
/// `amount_b` from `depositor` into the vaults, and `lp_minted` shares to
/// mint to `depositor`.
pub fn add_liquidity(
    pool: &mut LiquidityPoolAMM,
    pool_key: Address,
    depositor: Address,
    amount_a_desired: u64,
    max_amount_b: u64,
) -> (result: Result<LiquidityAdded, AmmError>)
    ensures
        old(pool).wf() ==> final(pool).wf(),
        match add_liquidity_model(old(pool)@, amount_a_desired as nat, max_amount_b as nat) {
            Ok(done) => {
                &&& final(pool)@ == done.pool
                &&& result matches Ok(added)
                &&& added.pool == pool_key
                &&& added.depositor == depositor
                &&& added.amount_a == amount_a_desired
                &&& added.amount_b == done.amount_b
                &&& added.lp_minted == done.lp_minted
            },
            Err(e) => *final(pool) == *old(pool) && result == Err::<LiquidityAdded, AmmError>(e),
        },
{
    let amount_a: u128 = amount_a_desired as u128;
    let reserve_a: u128 = pool.reserve_a;
    let reserve_b: u128 = pool.reserve_b;
    let supply: u128 = pool.total_lp_supply;
    let amount_b_optimal: u64 = if reserve_a == 0 && reserve_b == 0 {
        max_amount_b
    } else {
        let optimal: u128 = match mul_div(amount_a, reserve_b, reserve_a) {
            Ok(v) => v,
            Err(e) => {
                return Err(e);
            },
        };
        if optimal > max_amount_b as u128 {
            return Err(AmmError::ExcessiveB);
        }
        optimal as u64
    };
    let amount_b: u128 = amount_b_optimal as u128;
    let lp_to_mint: u64 = if supply == 0 {
        assert(amount_a * amount_b <= max_u128()) by (nonlinear_arith)
            requires
                amount_a <= 0xffff_ffff_ffff_ffff,
                amount_b <= 0xffff_ffff_ffff_ffff,
        ;
        isqrt(amount_a * amount_b)
    } else {
        let part_a: u128 = match mul_div(amount_a, supply, reserve_a) {
            Ok(v) => v,
            Err(e) => {
                return Err(e);
            },
        };
        let part_b: u128 = match mul_div(amount_b, supply, reserve_b) {
            Ok(v) => v,
            Err(e) => {
                return Err(e);
            },
        };
        let shares: u128 = if part_a <= part_b {
            part_a
        } else {
            part_b
        };
        if shares > u64::MAX as u128 {
            return Err(AmmError::MathOverflow);
        }
        shares as u64
    };
    let new_reserve_a: u128 = match reserve_a.checked_add(amount_a) {
        Some(v) => v,
        None => {
            return Err(AmmError::MathOverflow);
        },
    };
    let new_reserve_b: u128 = match reserve_b.checked_add(amount_b) {
        Some(v) => v,
        None => {
            return Err(AmmError::MathOverflow);
        },
    };
    let new_supply: u128 = match supply.checked_add(lp_to_mint as u128) {
        Some(v) => v,
        None => {
            return Err(AmmError::MathOverflow);
        },
    };
    pool.reserve_a = new_reserve_a;
    pool.reserve_b = new_reserve_b;
    pool.total_lp_supply = new_supply;
    Ok(
        LiquidityAdded {
            pool: pool_key,
            depositor,
            amount_a: amount_a_desired,
            amount_b: amount_b_optimal,
            lp_minted: lp_to_mint,
        },
    )
}

/// Redeems `lp_amount` shares for their part of both reserves.
///
/// On success the returned record names the amounts to move: `lp_burned`
/// shares to burn from `owner`, and `amount_a` and `amount_b` from the vaults
/// to `owner`.
pub fn remove_liquidity(
    pool: &mut LiquidityPoolAMM,
    pool_key: Address,
    owner: Address,
    lp_amount: u64,
) -> (result: Result<LiquidityRemoved, AmmError>)
    ensures
        old(pool).wf() ==> final(pool).wf(),
        match remove_liquidity_model(old(pool)@, lp_amount as nat) {
            Ok(done) => {
                &&& final(pool)@ == done.pool
                &&& result matches Ok(removed)
                &&& removed.pool == pool_key
                &&& removed.owner == owner
                &&& removed.amount_a == done.amount_a
                &&& removed.amount_b == done.amount_b
                &&& removed.lp_burned == lp_amount
            },
            Err(e) => *final(pool) == *old(pool) && result == Err::<LiquidityRemoved, AmmError>(e),
        },
{
    let supply: u128 = pool.total_lp_supply;
    let burned: u128 = lp_amount as u128;
    if lp_amount == 0 || burned > supply {
        return Err(AmmError::InvalidLp);
    }
    let amount_a: u128 = match mul_div(burned, pool.reserve_a, supply) {
        Ok(v) => v,
        Err(e) => {
            return Err(e);
        },
    };
    let amount_b: u128 = match mul_div(burned, pool.reserve_b, supply) {
        Ok(v) => v,
        Err(e) => {
            return Err(e);
        },
    };
    if amount_a > u64::MAX as u128 || amount_b > u64::MAX as u128 {
        return Err(AmmError::MathOverflow);
    }
    proof {
        lemma_share_within_reserve(burned as nat, pool.reserve_a as nat, supply as nat);
        lemma_share_within_reserve(burned as nat, pool.reserve_b as nat, supply as nat);
    }
    pool.reserve_a = pool.reserve_a - amount_a;
    pool.reserve_b = pool.reserve_b - amount_b;
    pool.total_lp_supply = supply - burned;
    Ok(
        LiquidityRemoved {
            pool: pool_key,
            owner,
            amount_a: amount_a as u64,
            amount_b: amount_b as u64,
            lp_burned: lp_amount,
        },
    )
}

/// The fee-adjusted input and the payout of a trade.
fn trade_amounts(reserve_in: u128, reserve_out: u128, amount_in: u128, fee_bps: u16) -> (result: Result<(u128, u128), AmmError>)
    requires
        fee_bps < FEE_DENOM,
    ensures
        match quote_amount(reserve_in as nat, reserve_out as nat, amount_in as nat, fee_bps as nat) {
            Ok(amount_out) => result matches Ok((net, out)) && net == fee_adjusted_input(
                amount_in as nat,
                fee_bps as nat,
            ) && out == amount_out && out <= reserve_out && reserve_in + net <= max_u128(),
            Err(e) => result == Err::<(u128, u128), AmmError>(e),
        },
{
    let kept: u128 = FEE_DENOM - (fee_bps as u128);
    let net_in: u128 = match mul_div(amount_in, kept, FEE_DENOM) {
        Ok(v) => v,
        Err(e) => {
            return Err(e);
        },
    };
    let new_in: u128 = match reserve_in.checked_add(net_in) {
        Some(v) => v,
        None => {
            return Err(AmmError::MathOverflow);
        },
    };
    let k: u128 = match checked_mul(reserve_in, reserve_out) {
        Ok(v) => v,
        Err(e) => {
            return Err(e);
        },
    };
    let new_out: u128 = match checked_div(k, new_in) {
        Ok(v) => v,
        Err(e) => {
            return Err(e);
        },
    };
    proof {
        lemma_reserve_out_never_grows(reserve_in as nat, reserve_out as nat, net_in as nat);
    }
    Ok((net_in, reserve_out - new_out))
}

/// The payout of a trade of `amount_in` against the given reserves under the
/// constant-product rule, after a fee of `pool_fee_bps` basis points.
///
/// `MathOverflow` comes exactly when an intermediate value leaves 128 bits
/// or the paying-in side would stay at zero.
pub fn calculate_quote_amount(reserve_in: u128, reserve_out: u128, amount_in: u128, pool_fee_bps: u16) -> (result: Result<u128, AmmError>)
    requires
        pool_fee_bps < FEE_DENOM,
    ensures
        match quote_amount(reserve_in as nat, reserve_out as nat, amount_in as nat, pool_fee_bps as nat) {
            Ok(amount_out) => result matches Ok(out) && out == amount_out,
            Err(e) => result == Err::<u128, AmmError>(e),
        },
{
    match trade_amounts(reserve_in, reserve_out, amount_in, pool_fee_bps) {
        Ok((_, amount_out)) => Ok(amount_out),
        Err(e) => Err(e),
    }
}

/// The direction of a trade that pays into `vault_in`.
pub fn swap_direction(pool: &LiquidityPoolAMM, vault_in: &Address) -> (direction: SwapDirection)
    ensures
        direction == direction_of_vault(pool@, vault_in@),
{
    if vault_in.same_as(&pool.vault_a) {
        SwapDirection::AToB
    } else {
        SwapDirection::BToA
    }
}

/// The direction that trades `token_in_mint` for `token_out_mint`.
pub fn quote_direction(pool: &LiquidityPoolAMM, token_in_mint: &Address, token_out_mint: &Address) -> (result: Result<SwapDirection, AmmError>)
    ensures
        result == direction_of_mints(pool@, token_in_mint@, token_out_mint@),
{
    if token_in_mint.same_as(&pool.token_a_mint) && token_out_mint.same_as(&pool.token_b_mint) {
        Ok(SwapDirection::AToB)
    } else if token_in_mint.same_as(&pool.token_b_mint) && token_out_mint.same_as(
        &pool.token_a_mint,
    ) {
        Ok(SwapDirection::BToA)
    } else {
        Err(AmmError::InvalidMint)
    }
}

/// What a trade of `amount_in` of `token_in_mint` for `token_out_mint` would
/// pay out. Reads the pool and changes nothing.
pub fn quote(pool: &LiquidityPoolAMM, token_in_mint: &Address, token_out_mint: &Address, amount_in: u128) -> (result: Result<u128, AmmError>)
    requires
        pool.wf(),
    ensures
        quote_returns(pool@, token_in_mint@, token_out_mint@, amount_in as nat, result),
{
    match quote_direction(pool, token_in_mint, token_out_mint) {
        Ok(SwapDirection::AToB) => calculate_quote_amount(
            pool.reserve_a,
            pool.reserve_b,
            amount_in,
            pool.fee_bps,
        ),
        Ok(SwapDirection::BToA) => calculate_quote_amount(
            pool.reserve_b,
            pool.reserve_a,
            amount_in,
            pool.fee_bps,
        ),
        Err(e) => Err(e),
    }
}

/// Trades `amount_in` paid into `vault_in` for the other token of the pair.
///
/// On success the pool's reserves are updated and the returned record names
/// the amounts to move: `amount_in` from `trader` into the paying-in vault
/// and `amount_out` from the other vault to `trader`. The part of
/// `amount_in` taken as fee does not enter the tracked reserve.
pub fn swap(pool: &mut LiquidityPoolAMM, pool_key: Address, trader: Address, vault_in: &Address, amount_in: u64, min_out: u64) -> (result: Result<SwapExecuted, AmmError>)
    requires
        old(pool).wf(),
    ensures
        final(pool).wf(),
        match swap_model(
            old(pool)@,
            direction_of_vault(old(pool)@, vault_in@),
            amount_in as nat,
            min_out as nat,
        ) {
            Ok(done) => {
                &&& final(pool)@ == done.pool
                &&& result matches Ok(executed)
                &&& executed.pool == pool_key
                &&& executed.trader == trader
                &&& executed.amount_in == amount_in
                &&& executed.amount_out == done.amount_out
            },
            Err(e) => *final(pool) == *old(pool) && result == Err::<SwapExecuted, AmmError>(e),
        },
{
    let direction = swap_direction(pool, vault_in);
    let (reserve_in, reserve_out) = match direction {
        SwapDirection::AToB => (pool.reserve_a, pool.reserve_b),
        SwapDirection::BToA => (pool.reserve_b, pool.reserve_a),
    };
    if reserve_in == 0 || reserve_out == 0 {
        return Err(AmmError::EmptyPool);
    }
    let (net_in, amount_out) = match trade_amounts(
        reserve_in,
        reserve_out,
        amount_in as u128,
        pool.fee_bps,
    ) {
        Ok(amounts) => amounts,
        Err(e) => {
            return Err(e);
        },
    };
    if amount_out > u64::MAX as u128 {
        return Err(AmmError::MathOverflow);
    }
    let paid_out: u64 = amount_out as u64;
    if paid_out < min_out {
        return Err(AmmError::SlippageExceeded);
    }
    let new_in: u128 = reserve_in + net_in;
    let new_out: u128 = reserve_out - amount_out;
    match direction {
        SwapDirection::AToB => {
            pool.reserve_a = new_in;
            pool.reserve_b = new_out;
        },
        SwapDirection::BToA => {
            pool.reserve_b = new_in;
            pool.reserve_a = new_out;
        },
    }
    Ok(SwapExecuted { pool: pool_key, trader, amount_in, amount_out: paid_out })
}

} // verus!
