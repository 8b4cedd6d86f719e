//! An item that a store offers.

use vstd::prelude::*;
use crate::address::Address;
use crate::error::SplurgeError;
use crate::state::shopper::{byte_len, DISCRIMINATOR_LEN};

verus! {

/// An item that a store offers.
#[derive(Clone, Debug, PartialEq, Eq)]
pub struct Item {
    /// Address of the store account
    pub store: Address,
    /// Price in atomic units of mint with 6 decimals
    pub price: u64,
    /// Remaining inventory count
    pub inventory_count: u32,
    /// Bump used for seed derivation
    pub bump: u8,
    /// Display name
    pub name: String,
    /// Display image
    pub image: String,
    /// Item description
    pub description: String,
}

impl Item {
    /// The number of bytes that an item with these texts takes when stored.
    pub fn space(name: &str, image: &str, description: &str) -> (r: usize)
        requires
            53 + byte_len(name@) + byte_len(image@) + byte_len(description@) + 12 <= usize::MAX,
        ensures
            r == 8 + 32 + 8 + 4 + 1 + 4 + byte_len(name@) + 4 + byte_len(image@) + 4 + byte_len(
                description@,
            ),
    {
        DISCRIMINATOR_LEN + 32 + 8 + 4 + 1 + 4 + name.len() + 4 + image.len() + 4
            + description.len()
    }

    /// Whether the record may be stored: its store is not the null address.
    pub open spec fn valid(&self) -> bool {
        self.store != Address::null()
    }

    /// Checks that the record may be stored.
    pub fn check_invariant(&self) -> (r: Result<(), SplurgeError>)
        ensures
            r == (if self.valid() {
                Ok::<(), SplurgeError>(())
            } else {
                Err::<(), SplurgeError>(SplurgeError::InvalidAddress)
            }),
    {
        if self.store.is_default() {
            return Err(SplurgeError::InvalidAddress);
        }
        Ok(())
    }
}

} // verus!
