//! The profile of a store.

use vstd::prelude::*;
use crate::address::Address;
use crate::error::SplurgeError;
use crate::state::shopper::{byte_len, DISCRIMINATOR_LEN};

verus! {

/// The profile of a store.
#[derive(Clone, Debug, PartialEq, Eq)]
pub struct Store {
    /// Address that has authority over the account
    pub authority: Address,
    /// Bump used for seed derivation
    pub bump: u8,
    /// Display name
    pub name: String,
    /// Display image
    pub image: String,
    /// Store description
    pub about: String,
}

impl Store {
    /// The number of bytes that a store with these texts takes when stored.
    pub fn space(name: &str, image: &str, about: &str) -> (r: usize)
        requires
            45 + byte_len(name@) + byte_len(image@) + byte_len(about@) + 12 <= usize::MAX,
        ensures
            r == 8 + 32 + 1 + 4 + byte_len(name@) + 4 + byte_len(image@) + 4 + byte_len(about@),
    {
        DISCRIMINATOR_LEN + 32 + 1 + 4 + name.len() + 4 + image.len() + 4 + about.len()
    }

    /// Whether the record may be stored: its authority is not the null address.
    pub open spec fn valid(&self) -> bool {
        self.authority != Address::null()
    }

    /// Checks that the record may be stored.
    pub fn check_invariant(&self) -> (r: Result<(), SplurgeError>)
        ensures
            r == (if self.valid() {
                Ok::<(), SplurgeError>(())
            } else {
                Err::<(), SplurgeError>(SplurgeError::InvalidAddress)
            }),
    {
        if self.authority.is_default() {
            return Err(SplurgeError::InvalidAddress);
        }
        Ok(())
    }
}

} // verus!
