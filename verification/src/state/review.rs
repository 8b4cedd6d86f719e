//! The review of a completed order.

use vstd::prelude::*;
use crate::address::Address;
use crate::error::SplurgeError;
use crate::state::shopper::{byte_len, DISCRIMINATOR_LEN};

verus! {

/// The review of a completed order.
#[derive(Clone, Debug, PartialEq, Eq)]
pub struct Review {
    /// Address of the order account
    pub order: Address,
    /// Rating of review, on a scale of 1 - 5
    pub rating: u8,
    /// Unix time of review creation
    pub timestamp: i64,
    /// Bump used for seed derivation
    pub bump: u8,
    /// Review text
    pub text: String,
}

impl Review {
    /// The number of bytes that a review with this text takes when stored.
    pub fn space(text: &str) -> (r: usize)
        requires
            54 + byte_len(text@) <= usize::MAX,
        ensures
            r == 8 + 32 + 1 + 8 + 1 + 4 + byte_len(text@),
    {
        DISCRIMINATOR_LEN + 32 + 1 + 8 + 1 + 4 + text.len()
    }

    /// Whether the record may be stored: its order is not the null address.
    pub open spec fn valid(&self) -> bool {
        self.order != Address::null()
    }

    /// Checks that the record may be stored.
    pub fn check_invariant(&self) -> (r: Result<(), SplurgeError>)
        ensures
            r == (if self.valid() {
                Ok::<(), SplurgeError>(())
            } else {
                Err::<(), SplurgeError>(SplurgeError::InvalidAddress)
            }),
    {
        if self.order.is_default() {
            return Err(SplurgeError::InvalidAddress);
        }
        Ok(())
    }
}

} // verus!
