//! The profile of a shopper.

use vstd::prelude::*;
use crate::address::Address;
use crate::error::SplurgeError;

verus! {

/// The number of bytes that a text takes when stored.
pub open spec fn byte_len(text: Seq<char>) -> nat {
    vstd::utf8::encode_utf8(text).len()
}

/// The number of bytes that marks the type of a stored record.
pub const DISCRIMINATOR_LEN: usize = 8;

/// The profile of a shopper.
#[derive(Clone, Debug, PartialEq, Eq)]
pub struct Shopper {
    /// Address that has authority over the account
    pub authority: Address,
    /// Bump used for seed derivation
    pub bump: u8,
    /// Display name
    pub name: String,
    /// Profile image
    pub image: String,
    /// Delivery address
    pub address: String,
}

impl Shopper {
    /// The number of bytes that a shopper with these texts takes when stored.
    pub fn space(name: &str, image: &str, address: &str) -> (r: usize)
        requires
            45 + byte_len(name@) + byte_len(image@) + byte_len(address@) + 12 <= usize::MAX,
        ensures
            r == 8 + 32 + 1 + 4 + byte_len(name@) + 4 + byte_len(image@) + 4 + byte_len(address@),
    {
        DISCRIMINATOR_LEN + 32 + 1 + 4 + name.len() + 4 + image.len() + 4 + address.len()
    }

    /// Whether the record may be stored: its authority is not the null address.
    pub open spec fn valid(&self) -> bool {
        self.authority != Address::null()
    }

    /// Checks that the record may be stored.
    pub fn check_invariant(&self) -> (r: Result<(), SplurgeError>)
        ensures
            r == (if self.valid() {
                Ok::<(), SplurgeError>(())
            } else {
                Err::<(), SplurgeError>(SplurgeError::InvalidAddress)
            }),
    {
        if self.authority.is_default() {
            return Err(SplurgeError::InvalidAddress);
        }
        Ok(())
    }
}

} // verus!
