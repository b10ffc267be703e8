//! The liquidity pool as a state machine over natural numbers.
//!
//! Each transition is a spec function from a pool view and the caller's
//! arguments to either the next view with the amounts to move on the ledger,
//! or the reason for refusal. Integer widths appear only as the bounds past
//! which a transition is refused.

use vstd::prelude::*;
use crate::errors::AmmError;
use crate::math::{floor_sqrt, max_u128, max_u64, mul_div_floor};
use crate::state::{PoolView, FEE_DENOM};

verus! {

/// Which reserve a trade pays into.
#[derive(Clone, Copy, Debug, PartialEq, Eq, Structural)]
pub enum SwapDirection {
    /// The trader pays the first token and receives the second.
    AToB,
    /// The trader pays the second token and receives the first.
    BToA,
}

/// What the trader's input is worth to the pool once the fee is taken:
/// `floor(amount_in * (FEE_DENOM - fee_bps) / FEE_DENOM)`.
pub open spec fn fee_adjusted_input(amount_in: nat, fee_bps: nat) -> nat
    recommends
        fee_bps < FEE_DENOM,
{
    mul_div_floor(amount_in, (FEE_DENOM - fee_bps) as nat, FEE_DENOM as nat)
}

/// The reserve left on the paying-out side when `net_in` joins the paying-in
/// side and the product of the reserves is held: `floor(k / (reserve_in +
/// net_in))` with `k = reserve_in * reserve_out`.
pub open spec fn reserve_out_after(reserve_in: nat, reserve_out: nat, net_in: nat) -> nat {
    (reserve_in * reserve_out) / (reserve_in + net_in)
}

/// Whether pricing a trade leaves 128 bits or divides by zero.
pub open spec fn quote_overflows(reserve_in: nat, reserve_out: nat, amount_in: nat, fee_bps: nat) -> bool
    recommends
        fee_bps < FEE_DENOM,
{
    ||| amount_in * (FEE_DENOM - fee_bps) > max_u128()
    ||| reserve_in + fee_adjusted_input(amount_in, fee_bps) > max_u128()
    ||| reserve_in * reserve_out > max_u128()
    ||| reserve_in + fee_adjusted_input(amount_in, fee_bps) == 0
}

/// The amount a trade of `amount_in` pays out:
/// `reserve_out - floor(k / (reserve_in + after_fee))`.
pub open spec fn quote_amount(reserve_in: nat, reserve_out: nat, amount_in: nat, fee_bps: nat) -> Result<nat, AmmError>
    recommends
        fee_bps < FEE_DENOM,
{
    if quote_overflows(reserve_in, reserve_out, amount_in, fee_bps) {
        Err(AmmError::MathOverflow)
    } else {
        Ok(
            (reserve_out - reserve_out_after(
                reserve_in,
                reserve_out,
                fee_adjusted_input(amount_in, fee_bps),
            )) as nat,
        )
    }
}

/// The direction a trade takes when it pays into `vault_in`: first-to-second
/// exactly when that is the pool's first vault.
pub open spec fn direction_of_vault(pool: PoolView, vault_in: Seq<u8>) -> SwapDirection {
    if vault_in == pool.vault_a {
        SwapDirection::AToB
    } else {
        SwapDirection::BToA
    }
}

/// The direction that trades `token_in` for `token_out`, or `InvalidMint`
/// when the two are not the pool's pair in either order.
pub open spec fn direction_of_mints(pool: PoolView, token_in: Seq<u8>, token_out: Seq<u8>) -> Result<SwapDirection, AmmError> {
    if token_in == pool.token_a_mint && token_out == pool.token_b_mint {
        Ok(SwapDirection::AToB)
    } else if token_in == pool.token_b_mint && token_out == pool.token_a_mint {
        Ok(SwapDirection::BToA)
    } else {
        Err(AmmError::InvalidMint)
    }
}

/// The reserve a trade in `direction` pays into.
pub open spec fn reserve_in_of(pool: PoolView, direction: SwapDirection) -> nat {
    match direction {
        SwapDirection::AToB => pool.reserve_a,
        SwapDirection::BToA => pool.reserve_b,
    }
}

/// The reserve a trade in `direction` is paid from.
pub open spec fn reserve_out_of(pool: PoolView, direction: SwapDirection) -> nat {
    match direction {
        SwapDirection::AToB => pool.reserve_b,
        SwapDirection::BToA => pool.reserve_a,
    }
}

/// The pool with the reserves of a trade in `direction` replaced.
pub open spec fn with_reserves(pool: PoolView, direction: SwapDirection, reserve_in: nat, reserve_out: nat) -> PoolView {
    match direction {
        SwapDirection::AToB => PoolView { reserve_a: reserve_in, reserve_b: reserve_out, ..pool },
        SwapDirection::BToA => PoolView { reserve_a: reserve_out, reserve_b: reserve_in, ..pool },
    }
}

/// A completed trade: the pool afterwards and what the trader receives.
pub struct Swapped {
    pub pool: PoolView,
    pub amount_out: nat,
}

/// The swap transition.
///
/// Refused with `EmptyPool` when either reserve is zero, with `MathOverflow`
/// when pricing overflows or the payout exceeds what one ledger transfer can
/// carry, and with `SlippageExceeded` when the payout is below `min_out`.
/// Otherwise the paying-in reserve grows by the fee-adjusted input only, and
/// the paying-out reserve drops to `floor(k / new_reserve_in)`.
pub open spec fn swap_model(pool: PoolView, direction: SwapDirection, amount_in: nat, min_out: nat) -> Result<Swapped, AmmError>
    recommends
        pool.wf(),
{
    let reserve_in = reserve_in_of(pool, direction);
    let reserve_out = reserve_out_of(pool, direction);
    if reserve_in == 0 || reserve_out == 0 {
        Err(AmmError::EmptyPool)
    } else {
        match quote_amount(reserve_in, reserve_out, amount_in, pool.fee_bps) {
            Err(e) => Err(e),
            Ok(amount_out) => {
                if amount_out > max_u64() {
                    Err(AmmError::MathOverflow)
                } else if amount_out < min_out {
                    Err(AmmError::SlippageExceeded)
                } else {
                    Ok(
                        Swapped {
                            pool: with_reserves(
                                pool,
                                direction,
                                reserve_in + fee_adjusted_input(amount_in, pool.fee_bps),
                                (reserve_out - amount_out) as nat,
                            ),
                            amount_out,
                        },
                    )
                }
            },
        }
    }
}

/// The quote transition: the payout of a trade of `token_in` for
/// `token_out`, with nothing changed.
pub open spec fn quote_model(pool: PoolView, token_in: Seq<u8>, token_out: Seq<u8>, amount_in: nat) -> Result<nat, AmmError>
    recommends
        pool.wf(),
{
    match direction_of_mints(pool, token_in, token_out) {
        Err(e) => Err(e),
        Ok(direction) => quote_amount(
            reserve_in_of(pool, direction),
            reserve_out_of(pool, direction),
            amount_in,
            pool.fee_bps,
        ),
    }
}

/// The creation transition: an empty pool over the given pair, or
/// `InvalidFee` when the fee is not strictly below the denominator.
pub open spec fn create_model(
    pool_name: Seq<char>,
    token_a_mint: Seq<u8>,
    token_b_mint: Seq<u8>,
    vault_a: Seq<u8>,
    vault_b: Seq<u8>,
    fee_bps: nat,
    bump: nat,
) -> Result<PoolView, AmmError> {
    if fee_bps >= FEE_DENOM {
        Err(AmmError::InvalidFee)
    } else {
        Ok(
            PoolView {
                pool_name,
                token_a_mint,
                token_b_mint,
                vault_a,
                vault_b,
                reserve_a: 0,
                reserve_b: 0,
                total_lp_supply: 0,
                fee_bps,
                bump,
            },
        )
    }
}

/// How much of the second token goes with `amount_a` of the first.
///
/// With both reserves at zero the depositor sets the price and the amount is
/// `max_b`. Otherwise it is `floor(amount_a * reserve_b / reserve_a)`,
/// refused with `ExcessiveB` when that exceeds `max_b`.
pub open spec fn matching_amount_b(pool: PoolView, amount_a: nat, max_b: nat) -> Result<nat, AmmError> {
    if pool.reserve_a == 0 && pool.reserve_b == 0 {
        Ok(max_b)
    } else if amount_a * pool.reserve_b > max_u128() || pool.reserve_a == 0 {
        Err(AmmError::MathOverflow)
    } else {
        let optimal = mul_div_floor(amount_a, pool.reserve_b, pool.reserve_a);
        if optimal > max_b {
            Err(AmmError::ExcessiveB)
        } else {
            Ok(optimal)
        }
    }
}

/// The smaller of two natural numbers.
pub open spec fn smaller(x: nat, y: nat) -> nat {
    if x <= y {
        x
    } else {
        y
    }
}

/// How many shares a deposit of `amount_a` and `amount_b` earns.
///
/// With no share outstanding it is the geometric mean
/// `floor(sqrt(amount_a * amount_b))`. Otherwise it is the smaller of the
/// two proportional claims `floor(amount_a * supply / reserve_a)` and
/// `floor(amount_b * supply / reserve_b)`, so that neither side of the
/// deposit dilutes the other.
pub open spec fn shares_for_deposit(pool: PoolView, amount_a: nat, amount_b: nat) -> Result<nat, AmmError> {
    if pool.total_lp_supply == 0 {
        Ok(floor_sqrt(amount_a * amount_b))
    } else if amount_a * pool.total_lp_supply > max_u128() || pool.reserve_a == 0 || amount_b
        * pool.total_lp_supply > max_u128() || pool.reserve_b == 0 {
        Err(AmmError::MathOverflow)
    } else {
        let shares = smaller(
            mul_div_floor(amount_a, pool.total_lp_supply, pool.reserve_a),
            mul_div_floor(amount_b, pool.total_lp_supply, pool.reserve_b),
        );
        if shares > max_u64() {
            Err(AmmError::MathOverflow)
        } else {
            Ok(shares)
        }
    }
}

/// A completed deposit: the pool afterwards, the amount of the second token
/// taken, and the shares issued.
pub struct Deposited {
    pub pool: PoolView,
    pub amount_b: nat,
    pub lp_minted: nat,
}

/// The add-liquidity transition.
pub open spec fn add_liquidity_model(pool: PoolView, amount_a: nat, max_b: nat) -> Result<Deposited, AmmError> {
    match matching_amount_b(pool, amount_a, max_b) {
        Err(e) => Err(e),
        Ok(amount_b) => match shares_for_deposit(pool, amount_a, amount_b) {
            Err(e) => Err(e),
            Ok(lp_minted) => {
                if pool.reserve_a + amount_a > max_u128() || pool.reserve_b + amount_b > max_u128()
                    || pool.total_lp_supply + lp_minted > max_u128() {
                    Err(AmmError::MathOverflow)
                } else {
                    Ok(
                        Deposited {
                            pool: PoolView {
                                reserve_a: pool.reserve_a + amount_a,
                                reserve_b: pool.reserve_b + amount_b,
                                total_lp_supply: pool.total_lp_supply + lp_minted,
                                ..pool
                            },
                            amount_b,
                            lp_minted,
                        },
                    )
                }
            },
        },
    }
}

/// A completed withdrawal: the pool afterwards and the amounts returned.
pub struct Withdrawn {
    pub pool: PoolView,
    pub amount_a: nat,
    pub amount_b: nat,
}

/// The remove-liquidity transition.
///
/// Refused with `InvalidLp` when `lp_amount` is zero or exceeds the supply.
/// Otherwise each reserve gives up its share
/// `floor(lp_amount * reserve / supply)`; refused with `MathOverflow` when a
/// product leaves 128 bits or a share exceeds what one ledger transfer can
/// carry.
pub open spec fn remove_liquidity_model(pool: PoolView, lp_amount: nat) -> Result<Withdrawn, AmmError> {
    if lp_amount == 0 || lp_amount > pool.total_lp_supply {
        Err(AmmError::InvalidLp)
    } else if lp_amount * pool.reserve_a > max_u128() || lp_amount * pool.reserve_b > max_u128() {
        Err(AmmError::MathOverflow)
    } else {
        let amount_a = mul_div_floor(lp_amount, pool.reserve_a, pool.total_lp_supply);
        let amount_b = mul_div_floor(lp_amount, pool.reserve_b, pool.total_lp_supply);
        if amount_a > max_u64() || amount_b > max_u64() {
            Err(AmmError::MathOverflow)
        } else {
            Ok(
                Withdrawn {
                    pool: PoolView {
                        reserve_a: (pool.reserve_a - amount_a) as nat,
                        reserve_b: (pool.reserve_b - amount_b) as nat,
                        total_lp_supply: (pool.total_lp_supply - lp_amount) as nat,
                        ..pool
                    },
                    amount_a,
                    amount_b,
                },
            )
        }
    }
}

/// What a call of the quote operation may return: the payout the model
/// gives, or the model's error.
pub open spec fn quote_returns(
    pool: PoolView,
    token_in: Seq<u8>,
    token_out: Seq<u8>,
    amount_in: nat,
    result: Result<u128, AmmError>,
) -> bool {
    match quote_model(pool, token_in, token_out, amount_in) {
        Ok(amount_out) => result matches Ok(out) && out == amount_out,
        Err(e) => result == Err::<u128, AmmError>(e),
    }
}

} // verus!
