//! The plain whitelist: an admin and the payment tokens that the admin has
//! whitelisted, without price feeds.

use vstd::prelude::*;
use crate::address::Address;

verus! {

/// The plain whitelist.
#[derive(Clone, Debug, PartialEq, Eq)]
pub struct SplurgeConfig {
    pub bump: u8,
    pub admin: Address,
    pub whitelisted_mints: Vec<Address>,
}

impl SplurgeConfig {
    /// The number of bytes that a configuration without whitelisted tokens
    /// takes when stored.
    pub const MIN_SPACE: usize = 45;
}

/// Whether `mint` is one of `mints`.
pub fn contains_mint(mints: &Vec<Address>, mint: Address) -> (r: bool)
    ensures
        r == mints@.contains(mint),
{
    let mut i: usize = 0;
    while i < mints.len()
        invariant
            i <= mints@.len(),
            forall|j: int| 0 <= j < i ==> mints@[j] != mint,
        decreases mints@.len() - i,
    {
        if mints[i] == mint {
            return true;
        }
        i = i + 1;
    }
    false
}

} // verus!
