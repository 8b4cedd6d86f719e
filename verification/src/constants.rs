//! Limits and seeds shared by the operations.

use vstd::prelude::*;

verus! {

/// Longest display name of a shopper, in bytes.
pub const MAX_SHOPPER_NAME_LEN: u8 = 64;

/// Longest display name of a store, in bytes.
pub const MAX_STORE_NAME_LEN: u8 = 64;

/// Longest display name of an item, in bytes.
pub const MAX_ITEM_NAME_LEN: u8 = 32;

/// Greatest age, in seconds, at which an oracle reading is still used.
pub const MAX_ORACLE_STALENESS: u8 = 60;

/// The fee rate that stands for all of the subtotal.
pub const MAX_BASIS_POINTS: u16 = 10000;

/// The number of price-scale units in one whole unit of currency.
pub const PRICE_SCALE_FACTOR: u32 = 100;

} // verus!
