//! Bonding-curve pricing: the total price and next spot price of a trade
//! of `n` units under a linear (arithmetic step) or exponential
//! (basis-point geometric step) curve.
//!
//! Buying from the pool walks the price down from the current spot price;
//! selling into the pool prices every unit one step above it, which
//! protects the pool against buy-then-sell roundtrips at the same nominal
//! spot price.

use vstd::prelude::*;
use vstd::arithmetic::div_mod::{
    lemma_div_is_ordered, lemma_div_multiples_vanish, lemma_div_pos_is_pos,
    lemma_fundamental_div_mod, lemma_hoist_over_denominator,
};
use vstd::arithmetic::mul::lemma_mul_upper_bound;
use crate::errors::MmmError;
use crate::state::{Pool, CURVE_KIND_EXP, CURVE_KIND_LINEAR, MAX_TOTAL_PRICE};

verus! {

/// Result of validating a curve configuration: the curve type must be a
/// recognized tag, and an exponential delta is a basis-point step.
pub open spec fn check_curve_spec(curve_type: u8, curve_delta: u64) -> Result<(), MmmError> {
    if curve_type > CURVE_KIND_EXP {
        Err(MmmError::InvalidCurveType)
    } else if curve_type == CURVE_KIND_EXP && curve_delta > 10000 {
        Err(MmmError::InvalidCurveDelta)
    } else {
        Ok(())
    }
}

/// Validates a pool's curve configuration at configuration time,
/// establishing `Pool::curve_wf` for every pool built from accepted
/// parameters.
pub fn check_curve(curve_type: u8, curve_delta: u64) -> (r: Result<(), MmmError>)
    ensures
        r == check_curve_spec(curve_type, curve_delta),
        r.is_ok() <==> (curve_type <= CURVE_KIND_EXP && (curve_type == CURVE_KIND_EXP
            ==> curve_delta <= 10000)),
{
    if curve_type > CURVE_KIND_EXP {
        return Err(MmmError::InvalidCurveType);
    }
    if curve_type == CURVE_KIND_EXP && curve_delta > 10000 {
        return Err(MmmError::InvalidCurveDelta);
    }
    Ok(())
}

/// Total price of buying `n` units off a linear curve starting at spot
/// price `p` with step `delta`: the arithmetic series `p, p-delta, ...`
/// in closed form.
pub open spec fn lin_buy_total(p: int, delta: int, n: int) -> int {
    n * (2 * p - (n - 1) * delta) / 2
}

/// Total price of selling `n` units into a linear pool: the arithmetic
/// series `p+delta, p+2*delta, ...` in closed form.
pub open spec fn lin_sell_total(p: int, delta: int, n: int) -> int {
    n * (2 * p + (n + 1) * delta) / 2
}

/// A linear buy succeeds exactly when it trades at least one unit, the
/// spot price can take `n` downward steps without crossing zero, and the
/// total lies in `[1, MAX_TOTAL_PRICE]`.
pub open spec fn lin_buy_ok(p: int, delta: int, n: int) -> bool {
    &&& n >= 1
    &&& n * delta <= p
    &&& 1 <= lin_buy_total(p, delta, n) <= MAX_TOTAL_PRICE
}

/// A linear sell succeeds exactly when the total lies in
/// `[1, MAX_TOTAL_PRICE]` (a zero-unit trade totals zero and fails).
pub open spec fn lin_sell_ok(p: int, delta: int, n: int) -> bool {
    1 <= lin_sell_total(p, delta, n) <= MAX_TOTAL_PRICE
}

/// Unit price of the `k`-th unit bought off an exponential curve: each
/// step multiplies by `10000/(10000+delta)`, rounding down.
pub open spec fn exp_buy_price(p: int, delta: int, k: nat) -> int
    decreases k,
{
    if k == 0 {
        p
    } else {
        exp_buy_price(p, delta, (k - 1) as nat) * 10000 / (10000 + delta)
    }
}

/// Sum of the first `n` exponential buy unit prices, accumulated in the
/// same order as the integer truncation performs it.
pub open spec fn exp_buy_total(p: int, delta: int, n: nat) -> int
    decreases n,
{
    if n == 0 {
        0
    } else {
        exp_buy_total(p, delta, (n - 1) as nat) + exp_buy_price(p, delta, (n - 1) as nat)
    }
}

/// Unit price of the `k`-th unit sold into an exponential pool: the
/// first unit is already one step above spot.
pub open spec fn exp_sell_price(p: int, delta: int, k: nat) -> int
    decreases k,
{
    if k == 0 {
        p
    } else {
        exp_sell_price(p, delta, (k - 1) as nat) * (10000 + delta) / 10000
    }
}

/// Sum of the exponential sell unit prices for units `1..=n`.
pub open spec fn exp_sell_total(p: int, delta: int, n: nat) -> int
    decreases n,
{
    if n == 0 {
        0
    } else {
        exp_sell_total(p, delta, (n - 1) as nat) + exp_sell_price(p, delta, n)
    }
}

pub open spec fn exp_buy_ok(p: int, delta: int, n: nat) -> bool {
    1 <= exp_buy_total(p, delta, n) <= MAX_TOTAL_PRICE
}

pub open spec fn exp_sell_ok(p: int, delta: int, n: nat) -> bool {
    1 <= exp_sell_total(p, delta, n) <= MAX_TOTAL_PRICE
}

/// Whether a quote for `n` units against `pool` succeeds.
pub open spec fn quote_ok(pool: Pool, n: int, fulfill_buy: bool) -> bool {
    if pool.curve_type == CURVE_KIND_LINEAR {
        if fulfill_buy {
            lin_buy_ok(pool.spot_price as int, pool.curve_delta as int, n)
        } else {
            lin_sell_ok(pool.spot_price as int, pool.curve_delta as int, n)
        }
    } else {
        if fulfill_buy {
            exp_buy_ok(pool.spot_price as int, pool.curve_delta as int, n as nat)
        } else {
            exp_sell_ok(pool.spot_price as int, pool.curve_delta as int, n as nat)
        }
    }
}

/// The total price of a successful quote.
pub open spec fn quote_total(pool: Pool, n: int, fulfill_buy: bool) -> int {
    if pool.curve_type == CURVE_KIND_LINEAR {
        if fulfill_buy {
            lin_buy_total(pool.spot_price as int, pool.curve_delta as int, n)
        } else {
            lin_sell_total(pool.spot_price as int, pool.curve_delta as int, n)
        }
    } else {
        if fulfill_buy {
            exp_buy_total(pool.spot_price as int, pool.curve_delta as int, n as nat)
        } else {
            exp_sell_total(pool.spot_price as int, pool.curve_delta as int, n as nat)
        }
    }
}

/// The pool's spot price after a successful quote is fulfilled.
pub open spec fn quote_next(pool: Pool, n: int, fulfill_buy: bool) -> int {
    if pool.curve_type == CURVE_KIND_LINEAR {
        if fulfill_buy {
            pool.spot_price - n * pool.curve_delta
        } else {
            pool.spot_price + n * pool.curve_delta
        }
    } else {
        if fulfill_buy {
            exp_buy_price(pool.spot_price as int, pool.curve_delta as int, n as nat)
        } else {
            exp_sell_price(pool.spot_price as int, pool.curve_delta as int, n as nat)
        }
    }
}

proof fn lemma_div_mul_exceeds(a: int, b: int, m: int)
    requires
        0 < b,
        0 <= m,
        a > m / b,
    ensures
        a * b > m,
{
    lemma_fundamental_div_mod(m, b);
    assert(m % b < b) by (nonlinear_arith)
        requires
            0 < b,
            0 <= m,
    ;
    assert(a * b >= (m / b + 1) * b) by (nonlinear_arith)
        requires
            a >= m / b + 1,
            b > 0,
    ;
    assert((m / b + 1) * b == b * (m / b) + b) by (nonlinear_arith);
}

pub(crate) proof fn lemma_mul_div_le_self(x: int, a: int, b: int)
    requires
        0 <= x,
        0 < a,
        a <= b,
    ensures
        0 <= x * a / b,
        x * a / b <= x,
{
    assert(x * a <= x * b) by (nonlinear_arith)
        requires
            0 <= x,
            a <= b,
    ;
    assert(x * a >= 0) by (nonlinear_arith)
        requires
            0 <= x,
            0 <= a,
    ;
    lemma_div_is_ordered(x * a, x * b, b);
    lemma_div_multiples_vanish(x, b);
    assert(x * b == b * x) by (nonlinear_arith);
    lemma_div_pos_is_pos(x * a, b);
}

proof fn lemma_exp_buy_price_nonneg(p: int, d: int, k: nat)
    requires
        p >= 0,
        d >= 0,
    ensures
        0 <= exp_buy_price(p, d, k),
        exp_buy_price(p, d, k) <= p,
    decreases k,
{
    if k > 0 {
        lemma_exp_buy_price_nonneg(p, d, (k - 1) as nat);
        lemma_mul_div_le_self(exp_buy_price(p, d, (k - 1) as nat), 10000, 10000 + d);
    }
}

proof fn lemma_exp_buy_total_step(p: int, d: int, i: nat, n: nat)
    requires
        p >= 0,
        d >= 0,
        i < n,
    ensures
        exp_buy_total(p, d, n) >= exp_buy_total(p, d, i) + exp_buy_price(p, d, i),
    decreases n,
{
    if n == i + 1 {
    } else {
        lemma_exp_buy_total_step(p, d, i, (n - 1) as nat);
        lemma_exp_buy_price_nonneg(p, d, (n - 1) as nat);
    }
}

proof fn lemma_exp_sell_price_nonneg(p: int, d: int, k: nat)
    requires
        p >= 0,
        d >= 0,
    ensures
        0 <= exp_sell_price(p, d, k),
    decreases k,
{
    if k > 0 {
        lemma_exp_sell_price_nonneg(p, d, (k - 1) as nat);
        let x = exp_sell_price(p, d, (k - 1) as nat);
        assert(x * (10000 + d) >= 0) by (nonlinear_arith)
            requires
                x >= 0,
                d >= 0,
        ;
        lemma_div_pos_is_pos(x * (10000 + d), 10000);
    }
}

proof fn lemma_exp_sell_total_mono(p: int, d: int, i: nat, n: nat)
    requires
        p >= 0,
        d >= 0,
        i <= n,
    ensures
        exp_sell_total(p, d, n) >= exp_sell_total(p, d, i),
        exp_sell_total(p, d, i) >= 0,
    decreases n,
{
    if i < n {
        lemma_exp_sell_total_mono(p, d, i, (n - 1) as nat);
        lemma_exp_sell_price_nonneg(p, d, n);
    } else {
        if n > 0 {
            lemma_exp_sell_total_mono(p, d, (n - 1) as nat, (n - 1) as nat);
            lemma_exp_sell_price_nonneg(p, d, n);
        }
    }
}

fn price_linear_buy(p: u64, delta: u64, n: u64) -> (r: Result<(u64, u64), MmmError>)
    ensures
        lin_buy_ok(p as int, delta as int, n as int) ==> (r matches Ok(q)
            && q.0 == lin_buy_total(p as int, delta as int, n as int)
            && q.1 == p - n * delta),
        !lin_buy_ok(p as int, delta as int, n as int) ==> r == Err::<(u64, u64), MmmError>(
            MmmError::NumericOverflow,
        ),
{
    if n == 0 {
        return Err(MmmError::NumericOverflow);
    }
    proof {
        lemma_mul_upper_bound(
            n as int,
            0xffff_ffff_ffff_ffff,
            delta as int,
            0xffff_ffff_ffff_ffff,
        );
    }
    let nd128 = (n as u128) * (delta as u128);
    if nd128 > p as u128 {
        return Err(MmmError::NumericOverflow);
    }
    proof {
        assert(((n - 1) as int) * (delta as int) <= (n as int) * (delta as int))
            by (nonlinear_arith)
            requires
                n >= 1,
                delta >= 0,
        ;
    }
    let n1d = ((n - 1) as u128) * (delta as u128);
    let term = 2 * (p as u128) - n1d;
    if term > 2 * (MAX_TOTAL_PRICE as u128) + 1 {
        proof {
            let t = term as int;
            assert((n as int) * t >= t) by (nonlinear_arith)
                requires
                    n >= 1,
                    t >= 0,
            ;
            lemma_div_is_ordered(t, (n as int) * t, 2);
        }
        return Err(MmmError::NumericOverflow);
    }
    proof {
        lemma_mul_upper_bound(
            n as int,
            0xffff_ffff_ffff_ffff,
            term as int,
            2 * (MAX_TOTAL_PRICE as int) + 1,
        );
    }
    let prod = (n as u128) * term;
    let t128 = prod / 2;
    if t128 == 0 || t128 > MAX_TOTAL_PRICE as u128 {
        return Err(MmmError::NumericOverflow);
    }
    let next = p - (nd128 as u64);
    Ok((t128 as u64, next))
}

fn price_linear_sell(p: u64, delta: u64, n: u64) -> (r: Result<(u64, u64), MmmError>)
    ensures
        lin_sell_ok(p as int, delta as int, n as int) ==> (r matches Ok(q)
            && q.0 == lin_sell_total(p as int, delta as int, n as int)
            && q.1 == p + n * delta),
        !lin_sell_ok(p as int, delta as int, n as int) ==> r == Err::<(u64, u64), MmmError>(
            MmmError::NumericOverflow,
        ),
{
    if n == 0 {
        return Err(MmmError::NumericOverflow);
    }
    let bound = 2 * (MAX_TOTAL_PRICE as u128) + 1;
    let np1 = (n as u128) + 1;
    if delta != 0 && np1 > bound / (delta as u128) {
        proof {
            lemma_div_mul_exceeds(np1 as int, delta as int, bound as int);
            let t = 2 * (p as int) + (np1 as int) * (delta as int);
            assert(t >= (np1 as int) * (delta as int));
            assert((n as int) * t >= t) by (nonlinear_arith)
                requires
                    n >= 1,
                    t >= 0,
            ;
            lemma_div_is_ordered(bound as int + 1, (n as int) * t, 2);
        }
        return Err(MmmError::NumericOverflow);
    }
    proof {
        if delta != 0 {
            assert((np1 as int) * (delta as int) <= ((bound as int) / (delta as int)) * (
            delta as int)) by (nonlinear_arith)
                requires
                    np1 as int <= (bound as int) / (delta as int),
                    delta >= 1,
            ;
            assert(((bound as int) / (delta as int)) * (delta as int) <= bound as int)
                by (nonlinear_arith)
                requires
                    delta >= 1,
                    bound >= 0,
            ;
        }
    }
    let n1d = np1 * (delta as u128);
    let term = 2 * (p as u128) + n1d;
    if term > bound {
        proof {
            let t = term as int;
            assert((n as int) * t >= t) by (nonlinear_arith)
                requires
                    n >= 1,
                    t >= 0,
            ;
            lemma_div_is_ordered(t, (n as int) * t, 2);
        }
        return Err(MmmError::NumericOverflow);
    }
    proof {
        lemma_mul_upper_bound(n as int, 0xffff_ffff_ffff_ffff, term as int, bound as int);
    }
    let prod = (n as u128) * term;
    let t128 = prod / 2;
    if t128 == 0 || t128 > MAX_TOTAL_PRICE as u128 {
        return Err(MmmError::NumericOverflow);
    }
    proof {
        assert((n as int) * (delta as int) <= (np1 as int) * (delta as int))
            by (nonlinear_arith)
            requires
                np1 == n as int + 1,
                delta >= 0,
                n >= 0,
        ;
        assert((n as int) * term as int >= 2 * (p as int)) by (nonlinear_arith)
            requires
                n >= 1,
                term as int >= 2 * (p as int),
                term >= 0,
        ;
        lemma_div_is_ordered(2 * (p as int), (n as int) * (term as int), 2);
    }
    let nd = (n as u128) * (delta as u128);
    let next = (p as u128) + nd;
    Ok((t128 as u64, next as u64))
}

fn price_exp_buy(p: u64, delta: u64, n: u64) -> (r: Result<(u64, u64), MmmError>)
    requires
        delta <= 10000,
    ensures
        exp_buy_ok(p as int, delta as int, n as nat) ==> (r matches Ok(q)
            && q.0 == exp_buy_total(p as int, delta as int, n as nat)
            && q.1 == exp_buy_price(p as int, delta as int, n as nat)),
        !exp_buy_ok(p as int, delta as int, n as nat) ==> r == Err::<(u64, u64), MmmError>(
            MmmError::NumericOverflow,
        ),
{
    let mut total: u64 = 0;
    let mut curr: u64 = p;
    let mut i: u64 = 0;
    while i < n
        invariant
            i <= n,
            delta <= 10000,
            curr as int == exp_buy_price(p as int, delta as int, i as nat),
            curr <= p,
            total as int == exp_buy_total(p as int, delta as int, i as nat),
        decreases n - i,
    {
        if curr > u64::MAX - total {
            proof {
                lemma_exp_buy_total_step(p as int, delta as int, i as nat, n as nat);
            }
            return Err(MmmError::NumericOverflow);
        }
        total = total + curr;
        proof {
            lemma_mul_div_le_self(curr as int, 10000, 10000 + delta as int);
        }
        let next = ((curr as u128) * 10000 / (10000 + delta as u128)) as u64;
        curr = next;
        i = i + 1;
    }
    if total == 0 {
        return Err(MmmError::NumericOverflow);
    }
    if total > MAX_TOTAL_PRICE {
        return Err(MmmError::NumericOverflow);
    }
    Ok((total, curr))
}

fn price_exp_sell(p: u64, delta: u64, n: u64) -> (r: Result<(u64, u64), MmmError>)
    requires
        delta <= 10000,
    ensures
        exp_sell_ok(p as int, delta as int, n as nat) ==> (r matches Ok(q)
            && q.0 == exp_sell_total(p as int, delta as int, n as nat)
            && q.1 == exp_sell_price(p as int, delta as int, n as nat)),
        !exp_sell_ok(p as int, delta as int, n as nat) ==> r == Err::<(u64, u64), MmmError>(
            MmmError::NumericOverflow,
        ),
{
    let mut total: u64 = 0;
    let mut curr: u64 = p;
    let mut i: u64 = 0;
    while i < n
        invariant
            i <= n,
            delta <= 10000,
            curr as int == exp_sell_price(p as int, delta as int, i as nat),
            total as int == exp_sell_total(p as int, delta as int, i as nat),
        decreases n - i,
    {
        proof {
            lemma_mul_upper_bound(curr as int, 0xffff_ffff_ffff_ffff, 10000 + delta as int, 20000);
            lemma_exp_sell_price_nonneg(p as int, delta as int, i as nat);
            assert((curr as int) * (10000 + delta as int) >= 0) by (nonlinear_arith)
                requires
                    curr >= 0,
                    delta >= 0,
            ;
            lemma_div_pos_is_pos((curr as int) * (10000 + delta as int), 10000);
        }
        let next128 = (curr as u128) * (10000 + delta as u128) / 10000;
        if next128 > u64::MAX as u128 {
            proof {
                lemma_exp_sell_total_mono(p as int, delta as int, (i + 1) as nat, n as nat);
                lemma_exp_sell_total_mono(p as int, delta as int, i as nat, i as nat);
            }
            return Err(MmmError::NumericOverflow);
        }
        let next = next128 as u64;
        if next > u64::MAX - total {
            proof {
                lemma_exp_sell_total_mono(p as int, delta as int, (i + 1) as nat, n as nat);
            }
            return Err(MmmError::NumericOverflow);
        }
        total = total + next;
        curr = next;
        i = i + 1;
    }
    if total == 0 {
        return Err(MmmError::NumericOverflow);
    }
    if total > MAX_TOTAL_PRICE {
        return Err(MmmError::NumericOverflow);
    }
    Ok((total, curr))
}

/// Prices a trade of `n` units against `pool`.
///
/// On success returns `(total_price, next_spot_price)`. Fails with
/// `InvalidCurveType` on an unrecognized curve tag and with
/// `NumericOverflow` when any step of the checked computation leaves the
/// 64-bit range, when the total exceeds `MAX_TOTAL_PRICE`, or when the
/// trade prices to zero (a free trade is an error, never a no-op).
pub fn get_sol_total_price_and_next_price(pool: &Pool, n: u64, fulfill_buy: bool) -> (r: Result<
    (u64, u64),
    MmmError,
>)
    requires
        pool.curve_type == CURVE_KIND_EXP ==> pool.curve_delta <= 10000,
    ensures
        pool.curve_type > CURVE_KIND_EXP ==> r == Err::<(u64, u64), MmmError>(
            MmmError::InvalidCurveType,
        ),
        pool.curve_type <= CURVE_KIND_EXP && quote_ok(*pool, n as int, fulfill_buy) ==> (
        r matches Ok(q) && q.0 == quote_total(*pool, n as int, fulfill_buy) && q.1 == quote_next(
            *pool,
            n as int,
            fulfill_buy,
        )),
        pool.curve_type <= CURVE_KIND_EXP && !quote_ok(*pool, n as int, fulfill_buy) ==> r
            == Err::<(u64, u64), MmmError>(MmmError::NumericOverflow),
        r matches Ok(q) ==> 1 <= q.0 <= MAX_TOTAL_PRICE,
{
    if pool.curve_type == CURVE_KIND_LINEAR {
        if fulfill_buy {
            price_linear_buy(pool.spot_price, pool.curve_delta, n)
        } else {
            price_linear_sell(pool.spot_price, pool.curve_delta, n)
        }
    } else if pool.curve_type == CURVE_KIND_EXP {
        if fulfill_buy {
            price_exp_buy(pool.spot_price, pool.curve_delta, n)
        } else {
            price_exp_sell(pool.spot_price, pool.curve_delta, n)
        }
    } else {
        Err(MmmError::InvalidCurveType)
    }
}

/// Law: on a linear curve with a positive step, buying `n` units and then
/// selling `n` units back at the same starting spot price always costs
/// the roundtripper strictly more than it pays out — the pool can never
/// be drained by symmetric roundtrips. The gap is exactly `n*n*delta`.
pub proof fn lemma_linear_roundtrip_protects_pool(p: int, delta: int, n: int)
    requires
        p >= 0,
        delta >= 1,
        n >= 1,
    ensures
        lin_sell_total(p, delta, n) == lin_buy_total(p, delta, n) + n * n * delta,
        lin_sell_total(p, delta, n) > lin_buy_total(p, delta, n),
{
    let a = n * (2 * p - (n - 1) * delta);
    let b = n * (2 * p + (n + 1) * delta);
    assert(n * (2 * p + (n + 1) * delta) == n * (2 * p - (n - 1) * delta) + 2 * (n * n * delta))
        by (nonlinear_arith);
    assert(a + 2 * (n * n * delta) == a + (n * n * delta) * 2) by (nonlinear_arith);
    assert((a + (n * n * delta) * 2) / 2 == a / 2 + n * n * delta) by {
        lemma_hoist_over_denominator(a, n * n * delta, 2);
    };
    assert(n * n * delta >= 1) by (nonlinear_arith)
        requires
            n >= 1,
            delta >= 1,
    ;
}

/// Law: the exponential buy walk is strictly monotone — while a unit
/// price is still positive and the step is positive, the next unit
/// price is strictly smaller.
pub proof fn lemma_exp_buy_price_strictly_decreases(p: int, delta: int, k: nat)
    requires
        p >= 0,
        delta >= 1,
        exp_buy_price(p, delta, k) >= 1,
    ensures
        exp_buy_price(p, delta, (k + 1) as nat) < exp_buy_price(p, delta, k),
{
    let x = exp_buy_price(p, delta, k);
    assert(x * 10000 / (10000 + delta) < x) by (nonlinear_arith)
        requires
            x >= 1,
            delta >= 1,
    ;
}

/// Law: the exponential sell walk is strictly monotone — whenever a unit
/// price is large enough that its basis-point step is at least one
/// lamport (`price * delta >= 10000`), the next unit price is strictly
/// larger.
pub proof fn lemma_exp_sell_price_strictly_increases(p: int, delta: int, k: nat)
    requires
        p >= 0,
        delta >= 1,
        exp_sell_price(p, delta, k) * delta >= 10000,
    ensures
        exp_sell_price(p, delta, (k + 1) as nat) > exp_sell_price(p, delta, k),
{
    let x = exp_sell_price(p, delta, k);
    lemma_exp_sell_price_nonneg(p, delta, k);
    assert(x * (10000 + delta) / 10000 > x) by (nonlinear_arith)
        requires
            x >= 0,
            x * delta >= 10000,
    ;
}

/// Law: a trade that prices to exactly zero never succeeds — for every
/// recognized curve type, every `n` and every spot price, a zero total
/// fails the quote, and by the contract of
/// `get_sol_total_price_and_next_price` the call then returns
/// `NumericOverflow`.
pub proof fn lemma_zero_total_rejected(pool: Pool, n: int, fulfill_buy: bool)
    requires
        pool.curve_type <= CURVE_KIND_EXP,
        n >= 0,
        quote_total(pool, n, fulfill_buy) == 0,
    ensures
        !quote_ok(pool, n, fulfill_buy),
{
}

} // verus!
