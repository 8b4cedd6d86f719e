//! Fixed-point numbers with twelve decimal places, held in 256 bits.
//!
//! The arithmetic itself is that of `spl_math::precise_number::PreciseNumber`;
//! this module carries its values as four plain words, so that verified code
//! can look at them, and states what each of its operations returns.

use vstd::prelude::*;
use spl_math::precise_number::PreciseNumber;
use spl_math::uint::U256;

verus! {

/// The fixed-point representation of the number one.
pub const ONE: u128 = 1_000_000_000_000;

/// `ONE` as a mathematical integer.
pub open spec fn one() -> int {
    1_000_000_000_000
}

/// One half in fixed-point representation: the correction added before a
/// division so that it rounds instead of truncating.
pub open spec fn half() -> int {
    500_000_000_000
}

/// The first value that no longer fits in 256 bits.
pub open spec fn limit() -> int {
    0x1_0000_0000_0000_0000_0000_0000_0000_0000_0000_0000_0000_0000_0000_0000_0000_0000int
}

/// A non-negative fixed-point number: the 256-bit integer `self@` stands for
/// the number `self@ / ONE`. The four words are little-endian.
#[derive(Clone, Copy, Debug, PartialEq, Eq)]
pub struct Precise {
    pub words: [u64; 4],
}

impl View for Precise {
    type V = int;

    open spec fn view(&self) -> int {
        (self.words[0] as int) + (self.words[1] as int) * 0x1_0000_0000_0000_0000int
            + (self.words[2] as int) * 0x1_0000_0000_0000_0000_0000_0000_0000_0000int
            + (self.words[3] as int)
            * 0x1_0000_0000_0000_0000_0000_0000_0000_0000_0000_0000_0000_0000int
    }
}

/// The scaled value of an optional number.
pub open spec fn value_of(r: Option<Precise>) -> Option<int> {
    match r {
        Some(p) => Some(p@),
        None => None,
    }
}

/// The product of two scaled values: rounded to the nearest unit when the full
/// product fits, computed from the truncated larger factor when it does not.
pub open spec fn mul_result(a: int, b: int) -> Option<int> {
    if a * b < limit() {
        if a * b + half() < limit() {
            Some((a * b + half()) / one())
        } else {
            None
        }
    } else {
        let t = if a >= b {
            (a / one()) * b
        } else {
            (b / one()) * a
        };
        if t < limit() {
            Some(t)
        } else {
            None
        }
    }
}

/// The quotient of two scaled values, with the same rounding correction.
pub open spec fn div_result(a: int, b: int) -> Option<int> {
    if b == 0 {
        None
    } else if a * one() < limit() {
        if a * one() + half() < limit() {
            Some((a * one() + half()) / b)
        } else {
            None
        }
    } else if a + half() < limit() && ((a + half()) / b) * one() < limit() {
        Some(((a + half()) / b) * one())
    } else {
        None
    }
}

/// A scaled value rounded up to a whole number.
pub open spec fn ceiling_result(a: int) -> Option<int> {
    if a + one() - 1 < limit() {
        Some(((a + one() - 1) / one()) * one())
    } else {
        None
    }
}

/// A scaled value rounded to the nearest integer.
pub open spec fn imprecise_result(a: int) -> Option<int> {
    if a + half() < limit() {
        Some((a + half()) / one())
    } else {
        None
    }
}

/// Calls `PreciseNumber::new`. Believed, not proved: it returns the integer
/// scaled by `ONE`, which fits in 256 bits for every 128-bit integer, so it
/// never returns `None`.
#[verifier::external_body]
pub(crate) fn precise_new(value: u128) -> (r: Option<Precise>)
    ensures
        value_of(r) == Some(value * one()),
{
    match PreciseNumber::new(value) {
        Some(p) => Some(Precise { words: p.value.0 }),
        None => None,
    }
}

/// Calls `PreciseNumber::checked_mul`. Believed, not proved: it returns what
/// `mul_result` says of the two scaled values, and `None` exactly where that
/// does: the product plus one half, divided by `ONE`, where both fit in 256
/// bits; where the product does not fit, the larger factor divided by `ONE`,
/// times the smaller, if that fits.
#[verifier::external_body]
pub(crate) fn precise_checked_mul(a: &Precise, b: &Precise) -> (r: Option<Precise>)
    ensures
        value_of(r) == mul_result(a@, b@),
{
    let x = PreciseNumber { value: U256(a.words) };
    let y = PreciseNumber { value: U256(b.words) };
    match x.checked_mul(&y) {
        Some(p) => Some(Precise { words: p.value.0 }),
        None => None,
    }
}

/// Calls `PreciseNumber::checked_div`. Believed, not proved: it returns what
/// `div_result` says of the two scaled values, and `None` exactly where that
/// does: nothing for a divisor of zero; else the dividend times `ONE`, plus
/// one half, divided by the divisor, where both fit in 256 bits; where the
/// scaled dividend does not fit, the dividend plus one half, divided by the
/// divisor, times `ONE`, if that fits.
#[verifier::external_body]
pub(crate) fn precise_checked_div(a: &Precise, b: &Precise) -> (r: Option<Precise>)
    ensures
        value_of(r) == div_result(a@, b@),
{
    let x = PreciseNumber { value: U256(a.words) };
    let y = PreciseNumber { value: U256(b.words) };
    match x.checked_div(&y) {
        Some(p) => Some(Precise { words: p.value.0 }),
        None => None,
    }
}

/// Calls `PreciseNumber::ceiling`. Believed, not proved: it returns what
/// `ceiling_result` says of the scaled value, and `None` exactly where that
/// does: the value plus `ONE - 1`, divided by `ONE` and multiplied by `ONE`
/// again, where the sum fits in 256 bits.
#[verifier::external_body]
pub(crate) fn precise_ceiling(a: &Precise) -> (r: Option<Precise>)
    ensures
        value_of(r) == ceiling_result(a@),
{
    let x = PreciseNumber { value: U256(a.words) };
    match x.ceiling() {
        Some(p) => Some(Precise { words: p.value.0 }),
        None => None,
    }
}

/// Calls `PreciseNumber::to_imprecise`. Believed, not proved: it returns
/// what `imprecise_result` says of the scaled value, and `None` exactly where
/// that does: the value plus one half, divided by `ONE`, where the sum fits in
/// 256 bits. It panics when the quotient does not fit in 128 bits, so such
/// values are left out.
#[verifier::external_body]
pub(crate) fn precise_to_imprecise(a: &Precise) -> (r: Option<u128>)
    requires
        a@ + half() < limit() ==> (a@ + half()) / one() <= u128::MAX,
    ensures
        r is Some <==> imprecise_result(a@) is Some,
        r is Some ==> r->0 == imprecise_result(a@)->0,
{
    let x = PreciseNumber { value: U256(a.words) };
    x.to_imprecise()
}

impl Precise {
    /// Whether the number is at most the largest 64-bit integer.
    pub fn at_most_u64(&self) -> (r: bool)
        ensures
            r == (self@ <= u64::MAX * one()),
    {
        if self.words[2] != 0 || self.words[3] != 0 {
            return false;
        }
        let low: u128 = (self.words[1] as u128) * 0x1_0000_0000_0000_0000u128
            + (self.words[0] as u128);
        low <= (u64::MAX as u128) * ONE
    }
}

} // verus!
