//! Readings of an external price feed, and the unit price they stand for.

use vstd::prelude::*;
use crate::address::Address;
use crate::constants::MAX_ORACLE_STALENESS;
use crate::error::SplurgeError;
use crate::fees::{lemma_mul_whole, lemma_unscale_quotient};
use crate::precise::{
    half, one, precise_checked_div, precise_checked_mul, precise_new, Precise,
};

verus! {

/// What a price feed published: the price is `price * 10^exponent`.
#[derive(Clone, Copy, Debug, PartialEq, Eq, Structural)]
pub struct PriceFeedMessage {
    pub price: i64,
    pub exponent: i32,
    pub publish_time: i64,
}

/// The account of a price feed: its address and the message it holds.
#[derive(Clone, Copy, Debug, PartialEq, Eq, Structural)]
pub struct PriceUpdateV2 {
    pub key: Address,
    pub price_message: PriceFeedMessage,
}

/// The largest power of ten that a reading may scale its price by.
pub const MAX_EXPONENT: u32 = 19;

/// Ten to the power `k`.
pub open spec fn pow10(k: nat) -> int
    decreases k,
{
    if k == 0 {
        1
    } else {
        10 * pow10((k - 1) as nat)
    }
}

/// The absolute value of an exponent.
pub open spec fn magnitude(exponent: int) -> nat {
    if exponent >= 0 {
        exponent as nat
    } else {
        (-exponent) as nat
    }
}

/// The fixed-point unit price that a positive reading stands for: the price
/// times ten to the exponent; with a negative exponent, cut off after the
/// twelfth decimal place.
pub open spec fn unit_price_of(price: int, exponent: int) -> int {
    if exponent > 0 {
        price * pow10(magnitude(exponent)) * one()
    } else {
        (price * one()) / pow10(magnitude(exponent))
    }
}

/// Whether a reading published at `publish_time` is too old at `now`.
pub open spec fn is_stale(now: int, publish_time: int) -> bool {
    now - publish_time > MAX_ORACLE_STALENESS as int
}

/// What becomes of a reading at the time `now`.
pub open spec fn reading_outcome(message: PriceFeedMessage, now: int) -> Result<int, SplurgeError> {
    if is_stale(now, message.publish_time as int) {
        Err(SplurgeError::StalePrice)
    } else if message.price <= 0 {
        Err(SplurgeError::InvalidPrice)
    } else if magnitude(message.exponent as int) > MAX_EXPONENT {
        Err(SplurgeError::MathOverflow)
    } else {
        Ok(unit_price_of(message.price as int, message.exponent as int))
    }
}

/// Powers of ten are positive and grow with the exponent.
pub proof fn lemma_pow10_increases(i: nat, j: nat)
    requires
        i <= j,
    ensures
        1 <= pow10(i) <= pow10(j),
    decreases j,
{
    if i < j {
        lemma_pow10_increases(i, (j - 1) as nat);
    } else if j > 0 {
        lemma_pow10_increases((i - 1) as nat, (j - 1) as nat);
    }
}

/// Up to the nineteenth, the powers of ten fit in 64 bits.
pub proof fn lemma_pow10_bounds(k: nat)
    requires
        k <= 19,
    ensures
        1 <= pow10(k) <= 10_000_000_000_000_000_000,
        k < 19 ==> pow10(k) <= 1_000_000_000_000_000_000,
{
    assert(pow10(19) == 10_000_000_000_000_000_000 && pow10(18) == 1_000_000_000_000_000_000)
        by {
        reveal_with_fuel(pow10, 20);
    }
    lemma_pow10_increases(k, 19);
    if k < 19 {
        lemma_pow10_increases(k, 18);
    }
}

/// The unit price of a positive reading is not negative.
pub proof fn lemma_unit_price_nonnegative(price: int, exponent: int)
    requires
        price > 0,
    ensures
        unit_price_of(price, exponent) >= 0,
{
    let k = magnitude(exponent);
    lemma_pow10_increases(0, k);
    let d = pow10(k);
    if exponent > 0 {
        assert(price * d * one() >= 0) by (nonlinear_arith)
            requires
                price > 0,
                d >= 1,
                one() > 0,
        ;
    } else {
        assert((price * one()) / d >= 0) by (nonlinear_arith)
            requires
                price > 0,
                d >= 1,
                one() > 0,
        ;
    }
}

/// Ten to the power `k`, for `k` up to nineteen.
pub fn power_of_ten(k: u32) -> (r: u64)
    requires
        k <= MAX_EXPONENT,
    ensures
        r == pow10(k as nat),
{
    let mut r: u64 = 1;
    let mut i: u32 = 0;
    while i < k
        invariant
            i <= k <= 19,
            r == pow10(i as nat),
        decreases k - i,
    {
        proof {
            lemma_pow10_bounds(i as nat);
        }
        r = r * 10;
        i = i + 1;
    }
    r
}

/// The fixed-point unit price of a positive reading whose exponent is at most
/// nineteen in absolute value.
pub fn unit_price(price: i64, exponent: i32) -> (r: Precise)
    requires
        price > 0,
        magnitude(exponent as int) <= MAX_EXPONENT,
    ensures
        r@ == unit_price_of(price as int, exponent as int),
{
    let k: u32 = if exponent >= 0 {
        exponent as u32
    } else {
        (-exponent) as u32
    };
    let scale: u64 = power_of_ten(k);
    proof {
        lemma_pow10_bounds(k as nat);
        let p = price as int;
        let d = scale as int;
        assert(0 <= p * d < 0x1_0000_0000_0000_0000_0000_0000_0000_0000) by (nonlinear_arith)
            requires
                0 < p <= 0x7fff_ffff_ffff_ffff,
                1 <= d <= 0xffff_ffff_ffff_ffff,
        ;
        lemma_mul_whole(p, d);
        lemma_unscale_quotient(p * one(), half(), d);
    }
    let mantissa = precise_new(price as u128);
    let factor = precise_new(scale as u128);
    let (mantissa, factor) = match (mantissa, factor) {
        (Some(m), Some(f)) => (m, f),
        _ => {
            // Not reached: every 128-bit integer can be scaled.
            return Precise { words: [0, 0, 0, 0] };
        },
    };
    let scaled = if exponent > 0 {
        precise_checked_mul(&mantissa, &factor)
    } else {
        precise_checked_div(&mantissa, &factor)
    };
    match scaled {
        Some(p) => p,
        None => {
            // Not reached: with a price below 2^63 and a factor below 2^64
            // neither the product nor the quotient leaves 256 bits.
            Precise { words: [0, 0, 0, 0] }
        },
    }
}

/// Checks a reading at the time `now` and gives its fixed-point unit price.
/// A reading older than the maximum staleness fails with `StalePrice`, one
/// whose price is not positive with `InvalidPrice`, and one whose exponent is
/// beyond nineteen with `MathOverflow`.
pub fn oracle_price(message: &PriceFeedMessage, now: i64) -> (r: Result<Precise, SplurgeError>)
    ensures
        match reading_outcome(*message, now as int) {
            Ok(v) => r is Ok && r->Ok_0@ == v,
            Err(e) => r == Err::<Precise, SplurgeError>(e),
        },
{
    let age: i128 = (now as i128) - (message.publish_time as i128);
    if age > MAX_ORACLE_STALENESS as i128 {
        return Err(SplurgeError::StalePrice);
    }
    if message.price <= 0 {
        return Err(SplurgeError::InvalidPrice);
    }
    if message.exponent > 19 || message.exponent < -19 {
        return Err(SplurgeError::MathOverflow);
    }
    Ok(unit_price(message.price, message.exponent))
}

} // verus!
