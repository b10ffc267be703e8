//! Overflow-checked arithmetic on 128-bit unsigned integers and an exact
//! integer square root.

use vstd::prelude::*;
use crate::errors::AmmError;

verus! {

/// The largest value a 128-bit unsigned integer holds.
pub open spec fn max_u128() -> nat {
    0xffff_ffff_ffff_ffff_ffff_ffff_ffff_ffff
}

/// The largest value a 64-bit unsigned integer holds.
pub open spec fn max_u64() -> nat {
    0xffff_ffff_ffff_ffff
}

/// `floor(a * b / c)`; meaningful only for `c > 0`.
pub open spec fn mul_div_floor(a: nat, b: nat, c: nat) -> nat {
    (a * b) / c
}

/// `r` is the largest natural number whose square does not exceed `n`.
pub open spec fn is_floor_sqrt(n: nat, r: nat) -> bool {
    r * r <= n < (r + 1) * (r + 1)
}

/// The floor of the square root of `n`.
pub open spec fn floor_sqrt(n: nat) -> nat {
    choose|r: nat| is_floor_sqrt(n, r)
}

/// At most one number is the floor square root of `n`.
pub proof fn lemma_floor_sqrt_unique(n: nat, r1: nat, r2: nat)
    requires
        is_floor_sqrt(n, r1),
        is_floor_sqrt(n, r2),
    ensures
        r1 == r2,
{
    if r1 < r2 {
        assert((r1 + 1) * (r1 + 1) <= r2 * r2) by (nonlinear_arith)
            requires
                0 <= r1 + 1 <= r2,
        ;
    } else if r2 < r1 {
        assert((r2 + 1) * (r2 + 1) <= r1 * r1) by (nonlinear_arith)
            requires
                0 <= r2 + 1 <= r1,
        ;
    }
}

/// Every natural number has a floor square root.
pub proof fn lemma_floor_sqrt_exists(n: nat)
    ensures
        is_floor_sqrt(n, floor_sqrt(n)),
    decreases n,
{
    if n == 0 {
        assert(is_floor_sqrt(0, 0)) by (nonlinear_arith);
    } else {
        lemma_floor_sqrt_exists((n - 1) as nat);
        let r = floor_sqrt((n - 1) as nat);
        if n < (r + 1) * (r + 1) {
            assert(is_floor_sqrt(n, r));
        } else {
            assert((r + 2) * (r + 2) > (r + 1) * (r + 1)) by (nonlinear_arith);
            assert(is_floor_sqrt(n, r + 1));
        }
    }
}

/// Any witness of `is_floor_sqrt` is the value of `floor_sqrt`.
pub proof fn lemma_floor_sqrt_is(n: nat, r: nat)
    requires
        is_floor_sqrt(n, r),
    ensures
        floor_sqrt(n) == r,
{
    let s = floor_sqrt(n);
    assert(is_floor_sqrt(n, s));
    lemma_floor_sqrt_unique(n, r, s);
}

/// The product `a * b`, or `MathOverflow` when it does not fit in 128 bits.
pub fn checked_mul(a: u128, b: u128) -> (result: Result<u128, AmmError>)
    ensures
        a * b <= max_u128() ==> result == Ok::<u128, AmmError>((a * b) as u128),
        a * b > max_u128() ==> result == Err::<u128, AmmError>(AmmError::MathOverflow),
{
    match a.checked_mul(b) {
        Some(p) => Ok(p),
        None => Err(AmmError::MathOverflow),
    }
}

/// The quotient `floor(a / b)`, or `MathOverflow` when `b` is zero.
pub fn checked_div(a: u128, b: u128) -> (result: Result<u128, AmmError>)
    ensures
        b != 0 ==> result == Ok::<u128, AmmError>(a / b),
        b == 0 ==> result == Err::<u128, AmmError>(AmmError::MathOverflow),
{
    match a.checked_div(b) {
        Some(q) => Ok(q),
        None => Err(AmmError::MathOverflow),
    }
}

/// `floor(a * b / c)`, or `MathOverflow` when the product does not fit in 128
/// bits or `c` is zero.
pub fn mul_div(a: u128, b: u128, c: u128) -> (result: Result<u128, AmmError>)
    ensures
        a * b <= max_u128() && c != 0 ==> result == Ok::<u128, AmmError>(
            mul_div_floor(a as nat, b as nat, c as nat) as u128,
        ),
        a * b > max_u128() || c == 0 ==> result == Err::<u128, AmmError>(AmmError::MathOverflow),
{
    let product = checked_mul(a, b)?;
    proof {
        assert((a as nat) * (b as nat) == product as nat) by (nonlinear_arith)
            requires
                a * b == product,
        ;
    }
    checked_div(product, c)
}

/// One Newton step from an upper estimate stays an upper estimate: if
/// `n < (x + 1)^2` and `y = floor((x + floor(n / x)) / 2)`, then
/// `n < (y + 1)^2`.
proof fn lemma_newton_step_stays_above(n: nat, x: nat, q: nat, y: nat)
    requires
        x > 0,
        q == n / x,
        y == (x + q) / 2,
    ensures
        n < (y + 1) * (y + 1),
{
    let r = n % x;
    assert(n == x * q + r && 0 <= r < x) by {
        vstd::arithmetic::div_mod::lemma_fundamental_div_mod(n as int, x as int);
        vstd::arithmetic::div_mod::lemma_mod_bound(n as int, x as int);
    }
    assert(n < x * (q + 1)) by (nonlinear_arith)
        requires
            n == x * q + r,
            r < x,
    ;
    // (x + q + 1)^2 - 4 x (q + 1) is the square of x - q - 1.
    assert(4 * (x * (q + 1)) <= (x + q + 1) * (x + q + 1)) by (nonlinear_arith)
        requires
            x >= 0,
            q >= 0,
    ;
    assert(x + q + 1 <= 2 * (y + 1));
    assert((x + q + 1) * (x + q + 1) <= (2 * (y + 1)) * (2 * (y + 1))) by (nonlinear_arith)
        requires
            0 <= x + q + 1 <= 2 * (y + 1),
    ;
    assert((2 * (y + 1)) * (2 * (y + 1)) == 4 * ((y + 1) * (y + 1))) by (nonlinear_arith);
}

/// Below an upper estimate `x` of the root, the quotient `n / x` is at most
/// `x + 2`.
proof fn lemma_quotient_near_estimate(n: nat, x: nat)
    requires
        x > 0,
        n < (x + 1) * (x + 1),
    ensures
        n / x <= x + 2,
{
    assert((x + 1) * (x + 1) == x * x + 2 * x + 1) by (nonlinear_arith);
    assert(x * x + 2 * x == (x + 2) * x) by (nonlinear_arith);
    assert(n <= (x + 2) * x);
    vstd::arithmetic::div_mod::lemma_div_is_ordered(n as int, ((x + 2) * x) as int, x as int);
    vstd::arithmetic::div_mod::lemma_div_by_multiple((x + 2) as int, x as int);
}

/// An estimate that a Newton step does not lower is at most the root.
proof fn lemma_newton_fixpoint_is_below(n: nat, x: nat, q: nat)
    requires
        x > 0,
        q == n / x,
        (x + q) / 2 >= x,
    ensures
        x * x <= n,
{
    assert(q >= x);
    assert(x * q <= n) by {
        vstd::arithmetic::div_mod::lemma_fundamental_div_mod(n as int, x as int);
        vstd::arithmetic::div_mod::lemma_mod_bound(n as int, x as int);
    }
    assert(x * x <= x * q) by (nonlinear_arith)
        requires
            0 <= x <= q,
    ;
}

/// The floor of the square root of `n`, by Newton's iteration on integers.
///
/// The iteration starts from an estimate that is not below the root and
/// replaces `x` by `floor((x + floor(n / x)) / 2)` for as long as that is
/// smaller. The result is rounded down: it is the largest `r` with
/// `r * r <= n`, so a perfect square gives its exact root and every other
/// number the root of the perfect square below it.
pub fn isqrt(n: u128) -> (root: u64)
    ensures
        is_floor_sqrt(n as nat, root as nat),
        root as nat == floor_sqrt(n as nat),
{
    if n == 0 {
        proof {
            assert(is_floor_sqrt(0, 0)) by (nonlinear_arith);
            lemma_floor_sqrt_is(0, 0);
        }
        return 0;
    }
    let ceiling: u128 = 0x1_0000_0000_0000_0000;
    let mut x: u128 = if n < ceiling { n } else { ceiling };
    proof {
        assert(n < (x + 1) * (x + 1)) by (nonlinear_arith)
            requires
                x >= 1,
                n == x || (x == 0x1_0000_0000_0000_0000 && n <= 0xffff_ffff_ffff_ffff_ffff_ffff_ffff_ffff),
        ;
    }
    loop
        invariant
            n >= 1,
            1 <= x <= 0x1_0000_0000_0000_0000,
            n < (x + 1) * (x + 1),
        ensures
            1 <= x,
            x * x <= n < (x + 1) * (x + 1),
        decreases x,
    {
        let q: u128 = n / x;
        proof {
            lemma_quotient_near_estimate(n as nat, x as nat);
        }
        let y: u128 = (x + q) / 2;
        proof {
            lemma_newton_step_stays_above(n as nat, x as nat, q as nat, y as nat);
        }
        if y >= x {
            proof {
                lemma_newton_fixpoint_is_below(n as nat, x as nat, q as nat);
            }
            break;
        }
        assert(y >= 1) by {
            if y == 0 {
                assert((y + 1) * (y + 1) == 1) by (nonlinear_arith)
                    requires
                        y == 0,
                ;
            }
        }
        x = y;
    }
    proof {
        if x > 0xffff_ffff_ffff_ffff {
            assert(x * x >= 0x1_0000_0000_0000_0000 * 0x1_0000_0000_0000_0000) by (nonlinear_arith)
                requires
                    x >= 0x1_0000_0000_0000_0000,
            ;
            assert(false);
        }
        lemma_floor_sqrt_is(n as nat, x as nat);
    }
    x as u64
}

} // verus!
