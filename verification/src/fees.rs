//! Payment subtotal and platform fee of an order, both rounded up.

use vstd::prelude::*;
use vstd::arithmetic::div_mod::{lemma_div_denominator, lemma_fundamental_div_mod_converse};
use crate::constants::MAX_BASIS_POINTS;
use crate::error::SplurgeError;
use crate::precise::{
    half, limit, mul_result, one, precise_ceiling, precise_checked_div, precise_checked_mul,
    precise_new, precise_to_imprecise, Precise,
};

verus! {

/// The quotient of `n` by `d`, rounded up.
pub open spec fn ceil_div(n: int, d: int) -> int {
    (n + d - 1) / d
}

/// What an order of `amount` units costs, in the smallest unit of the payment
/// token: the unit price times the oracle's fixed-point price, rounded up.
pub open spec fn subtotal_of(amount: int, unit_price: int, oracle: int) -> int {
    ceil_div(amount * unit_price * oracle, one())
}

/// The platform's share of a subtotal at a rate in basis points, rounded up.
pub open spec fn fee_of(subtotal: int, fee_bps: int) -> int {
    ceil_div(subtotal * fee_bps, 10000)
}

/// Subtotals and fees of non-negative numbers are not negative.
pub proof fn lemma_amounts_nonnegative(amount: int, unit_price: int, oracle: int, fee_bps: int)
    requires
        0 <= amount,
        0 <= unit_price,
        0 <= oracle,
        0 <= fee_bps,
    ensures
        0 <= subtotal_of(amount, unit_price, oracle),
        0 <= fee_of(subtotal_of(amount, unit_price, oracle), fee_bps),
{
    assert(0 <= amount * unit_price * oracle) by (nonlinear_arith)
        requires
            0 <= amount,
            0 <= unit_price,
            0 <= oracle,
    ;
    let s = subtotal_of(amount, unit_price, oracle);
    assert(0 <= s * fee_bps) by (nonlinear_arith)
        requires
            0 <= s,
            0 <= fee_bps,
    ;
}

/// Dividing `x * ONE + h` by `ONE` gives `x` back when `h` is less than `ONE`.
pub proof fn lemma_unscale(x: int, h: int)
    requires
        0 <= h < one(),
    ensures
        (x * one() + h) / one() == x,
{
    lemma_fundamental_div_mod_converse(x * one() + h, one(), x, h);
}

/// A correction below `ONE` does not show in a quotient by a multiple of `ONE`.
pub proof fn lemma_unscale_quotient(x: int, h: int, d: int)
    requires
        0 <= x,
        0 <= h < one(),
        0 < d,
    ensures
        (x * one() + h) / (d * one()) == x / d,
{
    lemma_unscale(x, h);
    lemma_div_denominator(x * one() + h, one(), d);
}

/// The product of two whole numbers in fixed-point form is the fixed-point
/// form of their product.
pub proof fn lemma_mul_whole(x: int, y: int)
    requires
        0 <= x,
        0 <= y,
        x * y * one() * one() + half() < limit(),
    ensures
        mul_result(x * one(), y * one()) == Some(x * y * one()),
{
    assert((x * one()) * (y * one()) == (x * y * one()) * one()) by (nonlinear_arith);
    lemma_unscale(x * y * one(), half());
}

/// What multiplying a whole number `n` by any fixed-point number `o` gives:
/// exactly `n * o` as long as the full product and the correction fit in 256
/// bits, and otherwise nothing or a number beyond every 64-bit integer.
pub proof fn lemma_mul_by_whole(n: int, o: int)
    requires
        0 <= n < 0x1_0000_0000_0000_0000_0000_0000,
        0 <= o < limit(),
    ensures
        n * one() * o + half() < limit() ==> mul_result(n * one(), o) == Some(n * o),
        n * one() * o + half() >= limit() ==> n * o > u64::MAX * one(),
        n * one() * o + half() >= limit() ==> (mul_result(n * one(), o) matches Some(t) ==> t
            > u64::MAX * one()),
{
    let a = n * one();
    assert(a * o == (n * o) * one()) by (nonlinear_arith)
        requires
            a == n * one(),
    ;
    if a * o + half() < limit() {
        lemma_unscale(n * o, half());
    } else if a * o >= limit() {
        // The product is computed from the larger factor, cut to a whole number.
        lemma_unscale(n, 0);
        if a < o {
            assert(n >= 1) by (nonlinear_arith)
                requires
                    n >= 0,
                    (n * o) * one() >= limit(),
                    limit() > 0,
            ;
            let w = o * one();
            assert(n * w == (n * o) * one()) by (nonlinear_arith)
                requires
                    w == o * one(),
            ;
            assert(w >= 0x1_0000_0000_0000_0000_0000_0000_0000_0000_0000_0000int)
                by (nonlinear_arith)
                requires
                    n * w >= limit(),
                    0 <= n < 0x1_0000_0000_0000_0000_0000_0000,
                    w >= 0,
                    limit()
                        == 0x1_0000_0000_0000_0000_0000_0000_0000_0000_0000_0000_0000_0000_0000_0000_0000_0000int,
            ;
            let q = o / one();
            assert(q * a >= 0x1_0000_0000_0000_0000_0000int * one()) by (nonlinear_arith)
                requires
                    q >= 0x1_0000_0000_0000_0000_0000int,
                    a >= one(),
                    one() > 0,
            ;
        }
    }
}

/// Rounding a fixed-point number with eight decimal places up to a whole
/// number is rounding the number of ten-thousandths up.
pub proof fn lemma_ceil_ten_thousandths(y: int)
    requires
        0 <= y,
    ensures
        ceil_div(y * 100_000_000, one()) == ceil_div(y, 10000),
{
    let q = y / 10000;
    let r = y % 10000;
    if r == 0 {
        lemma_fundamental_div_mod_converse(y * 100_000_000 + one() - 1, one(), q, one() - 1);
        lemma_fundamental_div_mod_converse(y + 9999, 10000, q, 9999);
    } else {
        lemma_fundamental_div_mod_converse(
            y * 100_000_000 + one() - 1,
            one(),
            q + 1,
            r * 100_000_000 - 1,
        );
        lemma_fundamental_div_mod_converse(y + 9999, 10000, q + 1, r - 1);
    }
}

/// Rounds a fixed-point number up to a whole number and returns it as a
/// 64-bit integer, if it fits in one.
fn round_up_to_u64(t: &Precise) -> (r: Option<u64>)
    ensures
        ceil_div(t@, one()) <= u64::MAX ==> r == Some(ceil_div(t@, one()) as u64),
        ceil_div(t@, one()) > u64::MAX ==> r is None,
{
    proof {
        lemma_precise_bounds(t);
    }
    let rounded = match precise_ceiling(t) {
        Some(c) => c,
        None => {
            return None;
        },
    };
    if !rounded.at_most_u64() {
        return None;
    }
    proof {
        lemma_unscale(ceil_div(t@, one()), half());
    }
    match precise_to_imprecise(&rounded) {
        Some(whole) => Some(whole as u64),
        None => None,
    }
}

/// Every number of the type is non-negative and below `limit()`.
pub proof fn lemma_precise_bounds(p: &Precise)
    ensures
        0 <= p@ < limit(),
{
}

/// The payment subtotal of an order: `amount` times the item's unit price
/// times the oracle's unit price, rounded up to the next smallest unit.
/// Fails with `MathOverflow` exactly when that number exceeds 64 bits.
pub fn subtotal(amount: u32, item_unit_price: u64, oracle_unit_price: &Precise) -> (r: Result<
    u64,
    SplurgeError,
>)
    ensures
        subtotal_of(amount as int, item_unit_price as int, oracle_unit_price@) <= u64::MAX ==> r
            == Ok::<u64, SplurgeError>(
            subtotal_of(amount as int, item_unit_price as int, oracle_unit_price@) as u64,
        ),
        subtotal_of(amount as int, item_unit_price as int, oracle_unit_price@) > u64::MAX ==> r
            == Err::<u64, SplurgeError>(SplurgeError::MathOverflow),
{
    let ghost n = amount as int * item_unit_price as int;
    let ghost o = oracle_unit_price@;
    proof {
        lemma_precise_bounds(oracle_unit_price);
        assert(0 <= n < 0x1_0000_0000_0000_0000_0000_0000) by (nonlinear_arith)
            requires
                n == amount as int * item_unit_price as int,
                0 <= amount as int <= 0xffff_ffff,
                0 <= item_unit_price as int <= 0xffff_ffff_ffff_ffff,
        ;
        lemma_mul_whole(amount as int, item_unit_price as int);
        lemma_mul_by_whole(n, o);
    }
    let quantity = match precise_new(amount as u128) {
        Some(p) => p,
        None => {
            return Err(SplurgeError::MathOverflow);
        },
    };
    let price = match precise_new(item_unit_price as u128) {
        Some(p) => p,
        None => {
            return Err(SplurgeError::MathOverflow);
        },
    };
    let total = match precise_checked_mul(&quantity, &price) {
        Some(p) => p,
        None => {
            return Err(SplurgeError::MathOverflow);
        },
    };
    let converted = match precise_checked_mul(&total, oracle_unit_price) {
        Some(p) => p,
        None => {
            return Err(SplurgeError::MathOverflow);
        },
    };
    match round_up_to_u64(&converted) {
        Some(s) => Ok(s),
        None => Err(SplurgeError::MathOverflow),
    }
}

/// The platform fee on a subtotal: `fee_bps` ten-thousandths of it, rounded up
/// to the next smallest unit. Fails with `MathOverflow` exactly when that
/// number exceeds 64 bits.
pub fn platform_fee(subtotal: u64, fee_bps: u16) -> (r: Result<u64, SplurgeError>)
    ensures
        fee_of(subtotal as int, fee_bps as int) <= u64::MAX ==> r == Ok::<u64, SplurgeError>(
            fee_of(subtotal as int, fee_bps as int) as u64,
        ),
        fee_of(subtotal as int, fee_bps as int) > u64::MAX ==> r == Err::<u64, SplurgeError>(
            SplurgeError::MathOverflow,
        ),
{
    let ghost y = subtotal as int * fee_bps as int;
    proof {
        assert(0 <= y < 0x1_0000_0000_0000_0000_0000) by (nonlinear_arith)
            requires
                y == subtotal as int * fee_bps as int,
                0 <= subtotal as int <= 0xffff_ffff_ffff_ffff,
                0 <= fee_bps as int <= 0xffff,
        ;
        lemma_mul_whole(subtotal as int, fee_bps as int);
        lemma_unscale_quotient(y * one(), half(), 10000);
        lemma_ceil_ten_thousandths(y);
    }
    let amount = match precise_new(subtotal as u128) {
        Some(p) => p,
        None => {
            return Err(SplurgeError::MathOverflow);
        },
    };
    let rate = match precise_new(fee_bps as u128) {
        Some(p) => p,
        None => {
            return Err(SplurgeError::MathOverflow);
        },
    };
    let whole = match precise_new(MAX_BASIS_POINTS as u128) {
        Some(p) => p,
        None => {
            return Err(SplurgeError::MathOverflow);
        },
    };
    let product = match precise_checked_mul(&amount, &rate) {
        Some(p) => p,
        None => {
            return Err(SplurgeError::MathOverflow);
        },
    };
    let share = match precise_checked_div(&product, &whole) {
        Some(p) => p,
        None => {
            return Err(SplurgeError::MathOverflow);
        },
    };
    match round_up_to_u64(&share) {
        Some(f) => Ok(f),
        None => Err(SplurgeError::MathOverflow),
    }
}

} // verus!
