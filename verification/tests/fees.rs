use splurge::error::SplurgeError;
use splurge::fees::{platform_fee, subtotal};
use splurge::oracle::{oracle_price, power_of_ten, unit_price, PriceFeedMessage};
use splurge::precise::{Precise, ONE};
use splurge::utils::{get_order_fee_in_atomic, get_total_in_atomic};

fn reading(price: i64, exponent: i32, publish_time: i64) -> PriceFeedMessage {
    PriceFeedMessage { price, exponent, publish_time }
}

fn scaled(p: &Precise) -> u128 {
    assert_eq!(p.words[2], 0);
    assert_eq!(p.words[3], 0);
    ((p.words[1] as u128) << 64) | (p.words[0] as u128)
}

#[test]
fn fee_rounding_example() {
    let one = oracle_price(&reading(100_000_000, -8, 0), 0).unwrap();
    assert_eq!(scaled(&one), ONE);
    assert_eq!(subtotal(3, 150, &one), Ok(450));
    assert_eq!(platform_fee(450, 250), Ok(12));
}

#[test]
fn staleness_boundary() {
    let now = 1_700_000_000;
    assert!(oracle_price(&reading(1, 0, now - 60), now).is_ok());
    assert_eq!(oracle_price(&reading(1, 0, now - 61), now).err(), Some(SplurgeError::StalePrice));
}

#[test]
fn reading_from_the_future_is_fresh() {
    assert!(oracle_price(&reading(1, 0, 500), 100).is_ok());
    assert!(oracle_price(&reading(1, 0, i64::MAX), i64::MIN).is_ok());
    assert_eq!(
        oracle_price(&reading(1, 0, i64::MIN), i64::MAX).err(),
        Some(SplurgeError::StalePrice)
    );
}

#[test]
fn staleness_is_checked_before_the_price() {
    assert_eq!(oracle_price(&reading(0, 0, 0), 61).err(), Some(SplurgeError::StalePrice));
    assert_eq!(oracle_price(&reading(0, 0, 0), 60).err(), Some(SplurgeError::InvalidPrice));
}

#[test]
fn price_must_be_positive() {
    assert_eq!(oracle_price(&reading(0, -8, 0), 0).err(), Some(SplurgeError::InvalidPrice));
    assert_eq!(oracle_price(&reading(-5, -8, 0), 0).err(), Some(SplurgeError::InvalidPrice));
    assert_eq!(oracle_price(&reading(i64::MIN, 3, 0), 0).err(), Some(SplurgeError::InvalidPrice));
}

#[test]
fn exponent_beyond_nineteen_overflows() {
    assert_eq!(oracle_price(&reading(1, 20, 0), 0).err(), Some(SplurgeError::MathOverflow));
    assert_eq!(oracle_price(&reading(1, -20, 0), 0).err(), Some(SplurgeError::MathOverflow));
    assert_eq!(oracle_price(&reading(1, i32::MIN, 0), 0).err(), Some(SplurgeError::MathOverflow));
    assert_eq!(oracle_price(&reading(1, i32::MAX, 0), 0).err(), Some(SplurgeError::MathOverflow));
    assert!(oracle_price(&reading(1, 19, 0), 0).is_ok());
    assert!(oracle_price(&reading(1, -19, 0), 0).is_ok());
}

#[test]
fn unit_price_scales_by_the_exponent() {
    assert_eq!(scaled(&unit_price(7, 0)), 7 * ONE);
    assert_eq!(scaled(&unit_price(7, 2)), 700 * ONE);
    assert_eq!(scaled(&unit_price(7, -2)), 70_000_000_000);
    assert_eq!(scaled(&unit_price(99_990_000, -8)), 999_900_000_000);
    assert_eq!(scaled(&unit_price(1, -12)), 1);
}

#[test]
fn unit_price_cuts_off_after_twelve_places() {
    assert_eq!(scaled(&unit_price(1, -13)), 0);
    assert_eq!(scaled(&unit_price(19, -13)), 1);
    assert_eq!(scaled(&unit_price(123_456_789, -19)), 12);
    assert_eq!(scaled(&unit_price(9_999_999, -19)), 0);
    assert_eq!(scaled(&unit_price(i64::MAX, -19)), 922_337_203_685);
}

#[test]
fn unit_price_of_the_largest_reading() {
    // (2^63 - 1) * 10^19 * 10^12
    let p = unit_price(i64::MAX, 19);
    assert_eq!(p.words, [4570789518076018688, 6937976735715680221, 271050543121, 0]);
    assert_eq!(power_of_ten(19), 10_000_000_000_000_000_000);
    assert_eq!(power_of_ten(0), 1);
}

#[test]
fn subtotal_rounds_up() {
    let half = unit_price(5, -1);
    assert_eq!(subtotal(1, 1, &half), Ok(1));
    assert_eq!(subtotal(2, 1, &half), Ok(1));
    assert_eq!(subtotal(3, 1, &half), Ok(2));
    let nearly_one = unit_price(99_990_000, -8);
    // 3 * 150 * 0.9999 = 449.955
    assert_eq!(subtotal(3, 150, &nearly_one), Ok(450));
    // 10000 * 1 * 0.9999 = 9999
    assert_eq!(subtotal(10000, 1, &nearly_one), Ok(9999));
    let smallest = unit_price(1, -12);
    assert_eq!(subtotal(1, 1, &smallest), Ok(1));
    assert_eq!(subtotal(1, 1_000_000_000_000, &smallest), Ok(1));
    assert_eq!(subtotal(1, 1_000_000_000_001, &smallest), Ok(2));
}

#[test]
fn subtotal_of_nothing_is_nothing() {
    let one = unit_price(1, 0);
    assert_eq!(subtotal(0, 150, &one), Ok(0));
    assert_eq!(subtotal(3, 0, &one), Ok(0));
    let zero = unit_price(1, -13);
    assert_eq!(subtotal(3, 150, &zero), Ok(0));
}

#[test]
fn subtotal_with_a_positive_exponent() {
    let twenty = unit_price(2, 1);
    assert_eq!(subtotal(1, 1, &twenty), Ok(20));
    assert_eq!(subtotal(3, 150, &twenty), Ok(9000));
}

#[test]
fn subtotal_at_the_limit_of_64_bits() {
    let one = unit_price(1, 0);
    assert_eq!(subtotal(1, u64::MAX, &one), Ok(u64::MAX));
    assert_eq!(subtotal(2, u64::MAX, &one), Err(SplurgeError::MathOverflow));
    assert_eq!(subtotal(u32::MAX, u64::MAX, &one), Err(SplurgeError::MathOverflow));
    let two = unit_price(2, 0);
    assert_eq!(subtotal(1, u64::MAX, &two), Err(SplurgeError::MathOverflow));
    assert_eq!(subtotal(1, u64::MAX / 2, &two), Ok(u64::MAX - 1));
}

#[test]
fn subtotal_overflows_with_huge_prices() {
    let huge = unit_price(i64::MAX, 19);
    assert_eq!(subtotal(1, 1, &huge), Err(SplurgeError::MathOverflow));
    assert_eq!(subtotal(u32::MAX, u64::MAX, &huge), Err(SplurgeError::MathOverflow));
    assert_eq!(subtotal(0, u64::MAX, &huge), Ok(0));
    let all_ones = Precise { words: [u64::MAX, u64::MAX, u64::MAX, u64::MAX] };
    assert_eq!(subtotal(1, 1, &all_ones), Err(SplurgeError::MathOverflow));
    assert_eq!(subtotal(u32::MAX, u64::MAX, &all_ones), Err(SplurgeError::MathOverflow));
    assert_eq!(subtotal(0, 0, &all_ones), Ok(0));
}

#[test]
fn platform_fee_rounds_up() {
    assert_eq!(platform_fee(1, 1), Ok(1));
    assert_eq!(platform_fee(10000, 1), Ok(1));
    assert_eq!(platform_fee(10001, 1), Ok(2));
    assert_eq!(platform_fee(10000, 250), Ok(250));
    assert_eq!(platform_fee(449, 250), Ok(12));
    assert_eq!(platform_fee(440, 250), Ok(11));
    assert_eq!(platform_fee(441, 250), Ok(12));
}

#[test]
fn platform_fee_of_nothing_is_nothing() {
    assert_eq!(platform_fee(0, 250), Ok(0));
    assert_eq!(platform_fee(450, 0), Ok(0));
    assert_eq!(platform_fee(0, 0), Ok(0));
}

#[test]
fn platform_fee_at_full_rate_is_the_subtotal() {
    assert_eq!(platform_fee(450, 10000), Ok(450));
    assert_eq!(platform_fee(u64::MAX, 10000), Ok(u64::MAX));
}

#[test]
fn platform_fee_overflows_beyond_64_bits() {
    assert_eq!(platform_fee(u64::MAX, 10001), Err(SplurgeError::MathOverflow));
    assert_eq!(platform_fee(u64::MAX, u16::MAX), Err(SplurgeError::MathOverflow));
    assert_eq!(platform_fee(u64::MAX / 7, u16::MAX), Ok(17_270_105_326_722_220_929));
}

#[test]
fn at_most_u64_compares_with_the_largest_integer() {
    let limit = (u64::MAX as u128) * ONE;
    let at = Precise { words: [limit as u64, (limit >> 64) as u64, 0, 0] };
    assert!(at.at_most_u64());
    let above = limit + 1;
    let over = Precise { words: [above as u64, (above >> 64) as u64, 0, 0] };
    assert!(!over.at_most_u64());
    assert!(!Precise { words: [0, 0, 1, 0] }.at_most_u64());
    assert!(!Precise { words: [0, 0, 0, 1] }.at_most_u64());
    assert!(Precise { words: [0, 0, 0, 0] }.at_most_u64());
}

#[test]
fn totals_in_atomic_units() {
    assert_eq!(get_total_in_atomic(150, 6), 1_500_000);
    assert_eq!(get_total_in_atomic(150, 0), 1);
    assert_eq!(get_total_in_atomic(99, 0), 0);
    assert_eq!(get_total_in_atomic(4, 9), 40_000_000);
    assert_eq!(get_total_in_atomic(0, 9), 0);
}

#[test]
fn order_fee_in_atomic_units_rounds_up() {
    assert_eq!(get_order_fee_in_atomic(450, 250), Ok(12));
    assert_eq!(get_order_fee_in_atomic(10000, 250), Ok(250));
    assert_eq!(get_order_fee_in_atomic(39, 250), Ok(1));
    assert_eq!(get_order_fee_in_atomic(40, 250), Ok(1));
    assert_eq!(get_order_fee_in_atomic(41, 250), Ok(2));
    assert_eq!(get_order_fee_in_atomic(1, 1), Ok(1));
    assert_eq!(get_order_fee_in_atomic(0, u16::MAX), Ok(0));
    assert_eq!(get_order_fee_in_atomic(450, 0), Ok(0));
    assert_eq!(get_order_fee_in_atomic(450, 10000), Ok(450));
}

#[test]
fn order_fee_in_atomic_units_at_the_limit_of_64_bits() {
    assert_eq!(get_order_fee_in_atomic(u64::MAX, 1), Ok(1_844_674_407_370_956));
    assert_eq!(get_order_fee_in_atomic(u64::MAX / 65535, u16::MAX), Ok(1_844_674_407_370_956));
    assert_eq!(get_order_fee_in_atomic(u64::MAX, 2), Err(SplurgeError::MathOverflow));
    assert_eq!(
        get_order_fee_in_atomic(u64::MAX / 65535 + 1, u16::MAX),
        Err(SplurgeError::MathOverflow)
    );
    assert_eq!(get_order_fee_in_atomic(u64::MAX, u16::MAX), Err(SplurgeError::MathOverflow));
}

#[test]
fn order_fee_in_atomic_units_is_the_platform_fee() {
    for (total, bps) in [(450u64, 250u16), (1, 1), (9_999, 3), (123_456_789, 777), (0, 0)] {
        assert_eq!(get_order_fee_in_atomic(total, bps), platform_fee(total, bps));
    }
}
