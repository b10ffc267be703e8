//! What holds of the liquidity pool's transitions, proved over the model.
//!
//! The first lemmas are facts about rounded-down quotients that the later
//! ones and the operations rest on; the rest are the laws of the pool.

use vstd::prelude::*;
use crate::amm_model::{
    add_liquidity_model, create_model, fee_adjusted_input, quote_amount, quote_returns,
    remove_liquidity_model, reserve_in_of, reserve_out_after, reserve_out_of, swap_model,
    SwapDirection,
};
use crate::errors::AmmError;
use crate::math::{
    floor_sqrt, is_floor_sqrt, lemma_floor_sqrt_exists, lemma_floor_sqrt_is, max_u128, max_u64,
    mul_div_floor,
};
use crate::state::{PoolView, FEE_DENOM};

verus! {

/// Rounding down never overshoots: `floor(x / d) * d <= x`.
pub proof fn lemma_floor_quotient_times_divisor(x: nat, d: nat)
    requires
        d > 0,
    ensures
        (x / d) * d <= x,
{
    vstd::arithmetic::div_mod::lemma_fundamental_div_mod(x as int, d as int);
    vstd::arithmetic::div_mod::lemma_mod_bound(x as int, d as int);
    assert((x / d) * d == d * (x / d)) by (nonlinear_arith);
}

/// A share of a reserve is never more than the reserve:
/// `floor(part * reserve / whole) <= reserve` for `part <= whole`.
pub proof fn lemma_share_within_reserve(part: nat, reserve: nat, whole: nat)
    requires
        0 < whole,
        part <= whole,
    ensures
        mul_div_floor(part, reserve, whole) <= reserve,
{
    assert(part * reserve <= reserve * whole) by (nonlinear_arith)
        requires
            part <= whole,
            reserve >= 0,
    ;
    vstd::arithmetic::div_mod::lemma_div_is_ordered(
        (part * reserve) as int,
        (reserve * whole) as int,
        whole as int,
    );
    vstd::arithmetic::div_mod::lemma_div_by_multiple(reserve as int, whole as int);
}

/// A proper part of a funded reserve leaves something behind:
/// `floor(part * reserve / whole) < reserve` for `part < whole` and a
/// non-zero reserve.
pub proof fn lemma_proper_share_leaves_remainder(part: nat, reserve: nat, whole: nat)
    requires
        part < whole,
        reserve > 0,
    ensures
        mul_div_floor(part, reserve, whole) < reserve,
{
    let share = mul_div_floor(part, reserve, whole);
    lemma_floor_quotient_times_divisor(part * reserve, whole);
    assert(part * reserve < reserve * whole) by (nonlinear_arith)
        requires
            part < whole,
            reserve > 0,
    ;
    assert(share < reserve) by (nonlinear_arith)
        requires
            share * whole < reserve * whole,
            whole > 0,
    ;
}

/// Holding the product of the reserves never raises the paying-out reserve:
/// `floor(reserve_in * reserve_out / (reserve_in + net_in)) <= reserve_out`.
pub proof fn lemma_reserve_out_never_grows(reserve_in: nat, reserve_out: nat, net_in: nat)
    requires
        reserve_in + net_in > 0,
    ensures
        reserve_out_after(reserve_in, reserve_out, net_in) <= reserve_out,
{
    let k = reserve_in * reserve_out;
    if reserve_in == 0 {
        assert(k == 0) by (nonlinear_arith)
            requires
                k == reserve_in * reserve_out,
                reserve_in == 0,
        ;
        vstd::arithmetic::div_mod::lemma_div_basics_1((reserve_in + net_in) as int);
    } else {
        vstd::arithmetic::div_mod::lemma_div_is_ordered_by_denominator(
            k as int,
            reserve_in as int,
            (reserve_in + net_in) as int,
        );
        assert(k == reserve_out * reserve_in) by (nonlinear_arith)
            requires
                k == reserve_in * reserve_out,
        ;
        vstd::arithmetic::div_mod::lemma_div_by_multiple(reserve_out as int, reserve_in as int);
    }
}

/// The fee never adds to the input: the fee-adjusted input is at most the
/// input, and equals it when the fee is zero.
pub proof fn lemma_fee_only_reduces(amount_in: nat, fee_bps: nat)
    requires
        fee_bps < FEE_DENOM,
    ensures
        fee_adjusted_input(amount_in, fee_bps) <= amount_in,
        fee_bps == 0 ==> fee_adjusted_input(amount_in, fee_bps) == amount_in,
{
    let kept = (FEE_DENOM - fee_bps) as nat;
    assert(amount_in * kept <= amount_in * 10_000) by (nonlinear_arith)
        requires
            kept <= 10_000,
            amount_in >= 0,
    ;
    vstd::arithmetic::div_mod::lemma_div_is_ordered(
        (amount_in * kept) as int,
        (amount_in * 10_000) as int,
        10_000,
    );
    vstd::arithmetic::div_mod::lemma_div_by_multiple(amount_in as int, 10_000);
}

/// A pool is created exactly for fees strictly below the denominator; a fee
/// of `FEE_DENOM` or more is refused with `InvalidFee`. A created pool is
/// well formed and empty.
pub proof fn lemma_creation_checks_fee(
    pool_name: Seq<char>,
    token_a_mint: Seq<u8>,
    token_b_mint: Seq<u8>,
    vault_a: Seq<u8>,
    vault_b: Seq<u8>,
    fee_bps: nat,
    bump: nat,
)
    ensures
        ({
            let created = create_model(
                pool_name,
                token_a_mint,
                token_b_mint,
                vault_a,
                vault_b,
                fee_bps,
                bump,
            );
            &&& created is Ok <==> fee_bps < FEE_DENOM
            &&& fee_bps >= FEE_DENOM ==> created == Err::<PoolView, AmmError>(AmmError::InvalidFee)
            &&& created matches Ok(pool) ==> pool.wf() && pool.is_empty() && pool.fee_bps == fee_bps
        }),
{
}

/// The first deposit into an empty pool takes exactly `max_b` of the second
/// token and earns the geometric mean of the two amounts, rounded down. It
/// is never refused.
pub proof fn lemma_first_deposit(pool: PoolView, amount_a: nat, max_b: nat)
    requires
        pool.is_empty(),
        amount_a <= max_u64(),
        max_b <= max_u64(),
    ensures
        add_liquidity_model(pool, amount_a, max_b) matches Ok(done) && {
            &&& done.amount_b == max_b
            &&& done.lp_minted == floor_sqrt(amount_a * max_b)
            &&& done.lp_minted * done.lp_minted <= amount_a * max_b
            &&& done.pool.reserve_a == amount_a
            &&& done.pool.reserve_b == max_b
            &&& done.pool.total_lp_supply == done.lp_minted
        },
{
    let n = amount_a * max_b;
    lemma_floor_sqrt_exists(n);
    let root = floor_sqrt(n);
    assert(n <= max_u64() * max_u64()) by (nonlinear_arith)
        requires
            n == amount_a * max_b,
            amount_a <= max_u64(),
            max_b <= max_u64(),
    ;
    if root > max_u64() {
        assert(root * root >= (max_u64() + 1) * (max_u64() + 1)) by (nonlinear_arith)
            requires
                root >= max_u64() + 1,
        ;
        assert((max_u64() + 1) * (max_u64() + 1) > max_u64() * max_u64()) by (nonlinear_arith);
    }
}

/// A deposit into a funded pool is never paid more than its proportional
/// share: the shares issued, valued at either reserve, are worth no more
/// than what was deposited on that side, and the second token is taken at no
/// more than the pool's price and never beyond `max_b`.
pub proof fn lemma_deposit_does_not_dilute(pool: PoolView, amount_a: nat, max_b: nat)
    requires
        pool.is_seeded(),
    ensures
        add_liquidity_model(pool, amount_a, max_b) matches Ok(done) ==> {
            &&& done.amount_b <= max_b
            &&& done.amount_b * pool.reserve_a <= amount_a * pool.reserve_b
            &&& done.lp_minted * pool.reserve_a <= amount_a * pool.total_lp_supply
            &&& done.lp_minted * pool.reserve_b <= done.amount_b * pool.total_lp_supply
        },
{
    match add_liquidity_model(pool, amount_a, max_b) {
        Ok(done) => {
            lemma_floor_quotient_times_divisor(amount_a * pool.reserve_b, pool.reserve_a);
            lemma_floor_quotient_times_divisor(amount_a * pool.total_lp_supply, pool.reserve_a);
            lemma_floor_quotient_times_divisor(
                done.amount_b * pool.total_lp_supply,
                pool.reserve_b,
            );
            let part_a = mul_div_floor(amount_a, pool.total_lp_supply, pool.reserve_a);
            let part_b = mul_div_floor(done.amount_b, pool.total_lp_supply, pool.reserve_b);
            assert(done.lp_minted * pool.reserve_a <= part_a * pool.reserve_a) by (nonlinear_arith)
                requires
                    done.lp_minted <= part_a,
            ;
            assert(done.lp_minted * pool.reserve_b <= part_b * pool.reserve_b) by (nonlinear_arith)
                requires
                    done.lp_minted <= part_b,
            ;
        },
        Err(_) => {},
    }
}

/// A withdrawal never takes more than its proportional share of either
/// reserve, and never more than the reserve holds.
pub proof fn lemma_withdrawal_within_share(pool: PoolView, lp_amount: nat)
    ensures
        remove_liquidity_model(pool, lp_amount) matches Ok(done) ==> {
            &&& done.amount_a <= pool.reserve_a
            &&& done.amount_b <= pool.reserve_b
            &&& done.amount_a * pool.total_lp_supply <= lp_amount * pool.reserve_a
            &&& done.amount_b * pool.total_lp_supply <= lp_amount * pool.reserve_b
            &&& done.pool.reserve_a + done.amount_a == pool.reserve_a
            &&& done.pool.reserve_b + done.amount_b == pool.reserve_b
            &&& done.pool.total_lp_supply + lp_amount == pool.total_lp_supply
        },
{
    match remove_liquidity_model(pool, lp_amount) {
        Ok(done) => {
            lemma_share_within_reserve(lp_amount, pool.reserve_a, pool.total_lp_supply);
            lemma_share_within_reserve(lp_amount, pool.reserve_b, pool.total_lp_supply);
            lemma_floor_quotient_times_divisor(lp_amount * pool.reserve_a, pool.total_lp_supply);
            lemma_floor_quotient_times_divisor(lp_amount * pool.reserve_b, pool.total_lp_supply);
        },
        Err(_) => {},
    }
}

/// Redeeming every outstanding share returns exactly the two reserves and
/// leaves the pool empty. The only refusal is `MathOverflow`, and only when
/// `supply * reserve` leaves 128 bits or a reserve exceeds what one ledger
/// transfer can carry.
pub proof fn lemma_full_removal_returns_reserves(pool: PoolView)
    requires
        pool.total_lp_supply > 0,
    ensures
        match remove_liquidity_model(pool, pool.total_lp_supply) {
            Ok(done) => {
                &&& done.amount_a == pool.reserve_a
                &&& done.amount_b == pool.reserve_b
                &&& done.pool.total_lp_supply == 0
                &&& done.pool.is_empty()
            },
            Err(e) => {
                &&& e == AmmError::MathOverflow
                &&& (pool.total_lp_supply * pool.reserve_a > max_u128() || pool.total_lp_supply
                    * pool.reserve_b > max_u128() || pool.reserve_a > max_u64() || pool.reserve_b
                    > max_u64())
            },
        },
{
    let supply = pool.total_lp_supply;
    assert(mul_div_floor(supply, pool.reserve_a, supply) == pool.reserve_a) by {
        assert(supply * pool.reserve_a == pool.reserve_a * supply) by (nonlinear_arith);
        vstd::arithmetic::div_mod::lemma_div_by_multiple(pool.reserve_a as int, supply as int);
    }
    assert(mul_div_floor(supply, pool.reserve_b, supply) == pool.reserve_b) by {
        assert(supply * pool.reserve_b == pool.reserve_b * supply) by (nonlinear_arith);
        vstd::arithmetic::div_mod::lemma_div_by_multiple(pool.reserve_b as int, supply as int);
    }
}

/// Deposits and withdrawals keep a pool either empty or fully seeded.
///
/// A pool that is empty or seeded stays so under every deposit that puts in
/// a positive amount of both tokens when the pool is empty, and under every
/// withdrawal. A withdrawal of the whole supply empties the pool, any
/// smaller one leaves it seeded.
pub proof fn lemma_liquidity_keeps_pool_empty_or_seeded(
    pool: PoolView,
    amount_a: nat,
    max_b: nat,
    lp_amount: nat,
)
    requires
        pool.is_empty() || pool.is_seeded(),
    ensures
        add_liquidity_model(pool, amount_a, max_b) matches Ok(done) ==> {
            &&& pool.is_seeded() ==> done.pool.is_seeded()
            &&& pool.is_empty() && amount_a > 0 && max_b > 0 ==> done.pool.is_seeded()
            &&& pool.is_empty() && amount_a == 0 && max_b == 0 ==> done.pool.is_empty()
        },
        remove_liquidity_model(pool, lp_amount) matches Ok(done) ==> {
            &&& pool.is_seeded()
            &&& lp_amount == pool.total_lp_supply ==> done.pool.is_empty()
            &&& lp_amount < pool.total_lp_supply ==> done.pool.is_seeded()
        },
{
    if pool.is_empty() && amount_a > 0 && max_b > 0 {
        let n = amount_a * max_b;
        lemma_floor_sqrt_exists(n);
        assert(n >= 1) by (nonlinear_arith)
            requires
                n == amount_a * max_b,
                amount_a >= 1,
                max_b >= 1,
        ;
        if floor_sqrt(n) == 0 {
            assert((0nat + 1) * (0nat + 1) == 1) by (nonlinear_arith);
        }
    }
    if pool.is_empty() && amount_a == 0 && max_b == 0 {
        assert(amount_a * max_b == 0) by (nonlinear_arith)
            requires
                amount_a == 0,
        ;
        assert(is_floor_sqrt(0, 0)) by (nonlinear_arith);
        lemma_floor_sqrt_is(0, 0);
    }
    match remove_liquidity_model(pool, lp_amount) {
        Ok(done) => {
            if lp_amount == pool.total_lp_supply {
                lemma_full_removal_returns_reserves(pool);
            } else {
                lemma_proper_share_leaves_remainder(
                    lp_amount,
                    pool.reserve_a,
                    pool.total_lp_supply,
                );
                lemma_proper_share_leaves_remainder(
                    lp_amount,
                    pool.reserve_b,
                    pool.total_lp_supply,
                );
            }
        },
        Err(_) => {},
    }
}

/// A swap holds the product of the reserves up to rounding: the new product
/// does not exceed the old one, and adding one unit to the new paying-out
/// reserve would exceed it. The payout never exceeds the paying-out reserve,
/// and the paying-in reserve grows by no more than the trader's input.
pub proof fn lemma_swap_holds_product(pool: PoolView, direction: SwapDirection, amount_in: nat, min_out: nat)
    requires
        pool.wf(),
    ensures
        match swap_model(pool, direction, amount_in, min_out) {
            Ok(done) => {
                let old_in = reserve_in_of(pool, direction);
                let old_out = reserve_out_of(pool, direction);
                let new_in = reserve_in_of(done.pool, direction);
                let new_out = reserve_out_of(done.pool, direction);
                &&& min_out <= done.amount_out <= old_out
                &&& new_out + done.amount_out == old_out
                &&& new_in == old_in + fee_adjusted_input(amount_in, pool.fee_bps)
                &&& old_in <= new_in <= old_in + amount_in
                &&& new_in * new_out <= old_in * old_out < new_in * (new_out + 1)
            },
            Err(_) => true,
        },
{
    let old_in = reserve_in_of(pool, direction);
    let old_out = reserve_out_of(pool, direction);
    match swap_model(pool, direction, amount_in, min_out) {
        Ok(done) => {
            let net = fee_adjusted_input(amount_in, pool.fee_bps);
            let k = old_in * old_out;
            let new_in = old_in + net;
            let kept = reserve_out_after(old_in, old_out, net);
            lemma_fee_only_reduces(amount_in, pool.fee_bps);
            lemma_reserve_out_never_grows(old_in, old_out, net);
            assert(reserve_in_of(done.pool, direction) == new_in);
            assert(reserve_out_of(done.pool, direction) == kept);
            assert(kept == k / new_in);
            vstd::arithmetic::div_mod::lemma_fundamental_div_mod(k as int, new_in as int);
            vstd::arithmetic::div_mod::lemma_mod_bound(k as int, new_in as int);
            assert(new_in * (kept + 1) == new_in * kept + new_in) by (nonlinear_arith);
        },
        Err(_) => {},
    }
}

/// A swap pays what a quote for the same trade promises: whenever the swap
/// goes through, pricing the same input against the same reserves gives the
/// swap's payout.
pub proof fn lemma_swap_pays_the_quoted_amount(pool: PoolView, direction: SwapDirection, amount_in: nat, min_out: nat)
    ensures
        swap_model(pool, direction, amount_in, min_out) matches Ok(done) ==> quote_amount(
            reserve_in_of(pool, direction),
            reserve_out_of(pool, direction),
            amount_in,
            pool.fee_bps,
        ) == Ok::<nat, AmmError>(done.amount_out),
{
}

/// A swap on a seeded pool leaves it seeded exactly when it pays out less
/// than the whole paying-out reserve, which is when the product of the
/// reserves is at least the new paying-in reserve.
pub proof fn lemma_swap_keeps_pool_seeded(pool: PoolView, direction: SwapDirection, amount_in: nat, min_out: nat)
    requires
        pool.wf(),
        pool.is_seeded(),
    ensures
        swap_model(pool, direction, amount_in, min_out) matches Ok(done) ==> {
            &&& done.pool.total_lp_supply == pool.total_lp_supply
            &&& done.pool.is_seeded() <==> done.amount_out < reserve_out_of(pool, direction)
            &&& done.pool.is_seeded() <==> reserve_in_of(done.pool, direction) <= reserve_in_of(
                pool,
                direction,
            ) * reserve_out_of(pool, direction)
        },
{
    match swap_model(pool, direction, amount_in, min_out) {
        Ok(done) => {
            lemma_swap_holds_product(pool, direction, amount_in, min_out);
            let old_in = reserve_in_of(pool, direction);
            let old_out = reserve_out_of(pool, direction);
            let new_in = reserve_in_of(done.pool, direction);
            let new_out = reserve_out_of(done.pool, direction);
            let k = old_in * old_out;
            assert(new_in * 0 == 0 && new_in * 1 == new_in) by (nonlinear_arith);
            if new_out == 0 {
                assert(k < new_in);
            } else {
                assert(new_in * new_out >= new_in) by (nonlinear_arith)
                    requires
                        new_out >= 1,
                        new_in >= 0,
                ;
            }
        },
        Err(_) => {},
    }
}

/// Quoting is repeatable: two quotes of the same trade against the same
/// pool record give the same answer, whether a payout or a refusal.
pub proof fn lemma_quote_is_repeatable(
    pool: PoolView,
    token_in: Seq<u8>,
    token_out: Seq<u8>,
    amount_in: nat,
    first: Result<u128, AmmError>,
    second: Result<u128, AmmError>,
)
    requires
        quote_returns(pool, token_in, token_out, amount_in, first),
        quote_returns(pool, token_in, token_out, amount_in, second),
    ensures
        first == second,
{
}

} // verus!
