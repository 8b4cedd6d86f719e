//! Conversions between price-scale units and the smallest units of a token.

use vstd::prelude::*;
use crate::constants::{MAX_BASIS_POINTS, PRICE_SCALE_FACTOR};
use crate::error::SplurgeError;
use crate::fees::fee_of;
use crate::oracle::{lemma_pow10_bounds, pow10, power_of_ten};

verus! {

/// A total in price-scale units, in the smallest units of a token with
/// `decimals` decimal places, rounded down. The scaled total must fit in 32
/// bits.
pub fn get_total_in_atomic(total: u32, decimals: u8) -> (r: u64)
    requires
        decimals <= 9,
        total * pow10(decimals as nat) <= u32::MAX,
    ensures
        r == (total * pow10(decimals as nat)) / (PRICE_SCALE_FACTOR as int),
{
    proof {
        lemma_pow10_bounds(decimals as nat);
    }
    let unit: u64 = power_of_ten(decimals as u32);
    assert(total as u64 * unit == total * pow10(decimals as nat)) by (nonlinear_arith)
        requires
            unit == pow10(decimals as nat),
            total * pow10(decimals as nat) <= u32::MAX,
            0 <= total,
    ;
    (total as u64 * unit) / (PRICE_SCALE_FACTOR as u64)
}

/// The fee on a total at a rate in basis points, rounded up to the next
/// smallest unit: the same fee as `platform_fee` charges. Fails with
/// `MathOverflow` exactly when the product of total and rate exceeds 64 bits.
pub fn get_order_fee_in_atomic(total_in_atomic: u64, order_fee_bps: u16) -> (r: Result<
    u64,
    SplurgeError,
>)
    ensures
        total_in_atomic * order_fee_bps <= u64::MAX ==> r == Ok::<u64, SplurgeError>(
            fee_of(total_in_atomic as int, order_fee_bps as int) as u64,
        ),
        total_in_atomic * order_fee_bps > u64::MAX ==> r == Err::<u64, SplurgeError>(
            SplurgeError::MathOverflow,
        ),
{
    let product: u64 = match total_in_atomic.checked_mul(order_fee_bps as u64) {
        Some(product) => product,
        None => {
            return Err(SplurgeError::MathOverflow);
        },
    };
    let whole: u64 = product / (MAX_BASIS_POINTS as u64);
    if product % (MAX_BASIS_POINTS as u64) == 0 {
        Ok(whole)
    } else {
        Ok(whole + 1)
    }
}

} // verus!
