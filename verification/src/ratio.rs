//! The share of a new token's supply that seeds its liquidity pool, and the
//! fixed-point arithmetic by which that share is measured.

use crate::types::Balance;
use sp_arithmetic::{FixedPointNumber, FixedU128};
use vstd::arithmetic::div_mod::{
    lemma_div_multiples_vanish_quotient, lemma_fundamental_div_mod,
    lemma_fundamental_div_mod_converse,
};
use vstd::prelude::*;

verus! {

/// Number of fixed-point units that make up one whole.
pub const ACCURACY: u128 = 1_000_000_000_000_000_000;

/// The least percentage of the total supply that the pool must receive.
pub const MIN_SUPPLY_PERCENT: u128 = 20;

/// The fixed-point fraction `n / d`, in units of `1 / ACCURACY`, rounded down:
/// none where `d` is zero or the fraction does not fit in 128 bits.
pub open spec fn spec_from_rational(n: u128, d: u128) -> Option<u128> {
    if d == 0 || n * ACCURACY / (d as int) > u128::MAX {
        None
    } else {
        Some((n * ACCURACY / (d as int)) as u128)
    }
}

/// A fixed-point fraction times the integer `n`, rounded down, and
/// `u128::MAX` where that does not fit in 128 bits.
pub open spec fn spec_mul_int(inner: u128, n: u128) -> u128 {
    if inner * n / (ACCURACY as int) > u128::MAX {
        u128::MAX
    } else {
        (inner * n / (ACCURACY as int)) as u128
    }
}

/// Calls `FixedU128::checked_from_rational` of `sp_arithmetic` and hands back
/// the inner value of the fraction. The contract claims that the fraction is
/// `n * ACCURACY / d` rounded down, and that there is none exactly where `d`
/// is zero or that quotient exceeds `u128::MAX`.
#[verifier::external_body]
fn from_rational(n: u128, d: u128) -> (inner: Option<u128>)
    ensures
        inner == spec_from_rational(n, d),
{
    FixedU128::checked_from_rational(n, d).map(FixedU128::into_inner)
}

/// Calls `FixedU128::saturating_mul_int` of `sp_arithmetic` on the fraction
/// with the given inner value. The contract claims that the result is
/// `inner * n / ACCURACY` rounded down, or `u128::MAX` where that is larger.
#[verifier::external_body]
fn saturating_mul_int(inner: u128, n: u128) -> (product: u128)
    ensures
        product == spec_mul_int(inner, n),
{
    FixedU128::from_inner(inner).saturating_mul_int(n)
}

/// The part of `total_supply` that goes to the pool: `total_supply` times
/// the numerator, held at `u128::MAX`, divided by the denominator and
/// rounded down; zero where the denominator is zero.
pub open spec fn spec_initial_pool_supply(total_supply: Balance, initial_lp: (u32, u32)) -> Balance {
    if initial_lp.1 == 0 {
        0
    } else if total_supply * initial_lp.0 > u128::MAX {
        ((u128::MAX as int) / (initial_lp.1 as int)) as u128
    } else {
        (total_supply * initial_lp.0 / (initial_lp.1 as int)) as u128
    }
}

/// The percentage that `pool_supply` is of `total_supply`, rounded down;
/// zero where `total_supply` is zero or the ratio of the two is beyond what
/// a fixed-point fraction holds.
pub open spec fn spec_supply_percent(pool_supply: Balance, total_supply: Balance) -> u128 {
    if total_supply == 0 || pool_supply * ACCURACY / (total_supply as int) > u128::MAX {
        0
    } else {
        (pool_supply * 100 / (total_supply as int)) as u128
    }
}

/// Whether a pool of that percentage admits the issuance.
pub open spec fn spec_admitted(supply_percent: u128) -> bool {
    supply_percent > 0 && supply_percent >= MIN_SUPPLY_PERCENT
}

/// What is left to the owner once the pool has its part.
pub open spec fn spec_owner_supply(total_supply: Balance, pool_supply: Balance) -> Balance {
    if pool_supply >= total_supply {
        0
    } else {
        (total_supply - pool_supply) as u128
    }
}

/// Rounding `x / t` down to fixed-point units and then its hundredfold down
/// to a whole number loses no more than rounding `100 * x / t` down at once.
pub proof fn lemma_percent_of_fraction(x: u128, t: u128)
    requires
        t > 0,
        x * ACCURACY / (t as int) <= u128::MAX,
    ensures
        (x * ACCURACY / (t as int)) * 100 / (ACCURACY as int) == x * 100 / (t as int),
        x * 100 / (t as int) <= u128::MAX,
{
    let m: int = 10_000_000_000_000_000;
    let n: int = x * 100;
    let k: int = n / (t as int);
    let r: int = n % (t as int);
    let q: int = x * ACCURACY / (t as int);
    lemma_fundamental_div_mod(n, t as int);
    let s: int = (r * m) / (t as int);
    let e: int = (r * m) % (t as int);
    lemma_fundamental_div_mod(r * m, t as int);
    assert(x * ACCURACY == (t * k + r) * m) by (nonlinear_arith)
        requires
            n == x * 100,
            n == t * k + r,
            m == 10_000_000_000_000_000,
            ACCURACY == 1_000_000_000_000_000_000,
    ;
    assert(x * ACCURACY == (k * m + s) * t + e) by (nonlinear_arith)
        requires
            x * ACCURACY == (t * k + r) * m,
            r * m == t * s + e,
    ;
    lemma_fundamental_div_mod_converse(x * ACCURACY, t as int, k * m + s, e);
    assert(q == k * m + s);
    assert(0 <= s < m) by (nonlinear_arith)
        requires
            r * m == t * s + e,
            0 <= e < t,
            0 <= r < t,
            m > 0,
    ;
    assert(q == k * m + s);
    lemma_fundamental_div_mod_converse(q, m, k, s);
    assert(q / m == k);
    lemma_div_multiples_vanish_quotient(100, q, m);
    assert(q * 100 == 100 * q);
    assert(ACCURACY as int == 100 * m);
}

/// Where the pool is the part of the supply that a ratio of two 32-bit
/// numbers gives, the percentage is always that of the plain quotient.
pub proof fn lemma_percent_of_pool(total_supply: Balance, initial_lp: (u32, u32))
    requires
        total_supply > 0,
    ensures
        spec_supply_percent(spec_initial_pool_supply(total_supply, initial_lp), total_supply)
            == spec_initial_pool_supply(total_supply, initial_lp) * 100 / (total_supply as int),
{
    let pool = spec_initial_pool_supply(total_supply, initial_lp);
    let t: int = total_supply as int;
    let a: int = initial_lp.0 as int;
    let b: int = initial_lp.1 as int;
    assert(pool <= t * a) by (nonlinear_arith)
        requires
            t > 0,
            a >= 0,
            b >= 0,
            pool >= 0,
            b == 0 ==> pool == 0,
            b > 0 && t * a > u128::MAX ==> pool == (u128::MAX as int) / b,
            b > 0 && t * a <= u128::MAX ==> pool == (t * a) / b,
    ;
    assert(pool * ACCURACY / t <= a * ACCURACY) by (nonlinear_arith)
        requires
            pool <= t * a,
            t > 0,
            pool >= 0,
            a >= 0,
            ACCURACY > 0,
    ;
    assert(a * ACCURACY <= u128::MAX) by (nonlinear_arith)
        requires
            0 <= a <= 0xffff_ffff,
            ACCURACY == 1_000_000_000_000_000_000,
    ;
    lemma_percent_of_fraction(pool, total_supply);
}

/// With a supply above zero, an issuance is admitted exactly when the pool
/// holds at least a fifth of the supply.
pub proof fn lemma_admitted_is_a_fifth(total_supply: Balance, initial_lp: (u32, u32))
    requires
        total_supply > 0,
    ensures
        spec_admitted(
            spec_supply_percent(spec_initial_pool_supply(total_supply, initial_lp), total_supply),
        ) <==> 5 * spec_initial_pool_supply(total_supply, initial_lp) >= total_supply,
{
    lemma_percent_of_pool(total_supply, initial_lp);
    let pool: int = spec_initial_pool_supply(total_supply, initial_lp) as int;
    let t: int = total_supply as int;
    assert((pool * 100 / t >= 20) <==> (5 * pool >= t)) by (nonlinear_arith)
        requires
            t > 0,
            pool >= 0,
    ;
}

/// A pool within the supply and what is left to the owner make up the
/// supply; a pool beyond it leaves the owner nothing.
pub proof fn lemma_supply_is_split(total_supply: Balance, pool_supply: Balance)
    ensures
        pool_supply <= total_supply ==> pool_supply + spec_owner_supply(total_supply, pool_supply)
            == total_supply,
        pool_supply > total_supply ==> spec_owner_supply(total_supply, pool_supply) == 0,
{
}

/// The part of `total_supply` that seeds the pool under the ratio
/// `initial_lp`, numerator first.
pub fn initial_pool_supply(total_supply: Balance, initial_lp: (u32, u32)) -> (pool_supply: Balance)
    ensures
        pool_supply == spec_initial_pool_supply(total_supply, initial_lp),
{
    let numerator: u128 = match total_supply.checked_mul(initial_lp.0 as u128) {
        Some(product) => product,
        None => u128::MAX,
    };
    match numerator.checked_div(initial_lp.1 as u128) {
        Some(quotient) => quotient,
        None => 0,
    }
}

/// The percentage of `total_supply` that `pool_supply` amounts to.
pub fn supply_percent(pool_supply: Balance, total_supply: Balance) -> (percent: u128)
    ensures
        percent == spec_supply_percent(pool_supply, total_supply),
{
    let fraction: u128 = match from_rational(pool_supply, total_supply) {
        Some(inner) => inner,
        None => 0,
    };
    proof {
        if spec_from_rational(pool_supply, total_supply) is Some {
            lemma_percent_of_fraction(pool_supply, total_supply);
        } else {
            assert(0int * 100 / (ACCURACY as int) == 0);
        }
    }
    saturating_mul_int(fraction, 100)
}

/// Whether a pool of that percentage admits the issuance.
pub fn admitted(supply_percent: u128) -> (yes: bool)
    ensures
        yes == spec_admitted(supply_percent),
{
    supply_percent > 0 && supply_percent >= MIN_SUPPLY_PERCENT
}

/// What is left to the owner once the pool has its part.
pub fn owner_supply(total_supply: Balance, pool_supply: Balance) -> (rest: Balance)
    ensures
        rest == spec_owner_supply(total_supply, pool_supply),
{
    total_supply.saturating_sub(pool_supply)
}

} // verus!
