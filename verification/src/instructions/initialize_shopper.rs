//! Setting a shopper up.

use vstd::prelude::*;
use crate::address::Address;
use crate::constants::MAX_SHOPPER_NAME_LEN;
use crate::error::SplurgeError;
use crate::events::ShopperInitialized;
use crate::state::shopper::{byte_len, Shopper};

verus! {

/// What the shopper starts with.
#[derive(Clone, Debug, PartialEq, Eq)]
pub struct InitializeShopperArgs {
    pub name: String,
    pub image: String,
    pub address: String,
}

/// The accounts of the setup.
#[derive(Clone, Copy, Debug, PartialEq, Eq, Structural)]
pub struct InitializeShopper {
    /// The signer, who becomes the shopper's authority
    pub authority: Address,
    pub shopper_key: Address,
    pub bump: u8,
}

impl InitializeShopper {
    /// Why the shopper is refused, if it is: the first of these that holds.
    pub open spec fn refusal(&self, args: InitializeShopperArgs) -> Option<SplurgeError> {
        if args.name@.len() == 0 {
            Some(SplurgeError::ShopperNameRequired)
        } else if byte_len(args.name@) > MAX_SHOPPER_NAME_LEN {
            Some(SplurgeError::ShopperNameTooLong)
        } else if args.address@.len() == 0 {
            Some(SplurgeError::ShopperAddressRequired)
        } else if self.authority == Address::null() {
            Some(SplurgeError::InvalidAddress)
        } else {
            None
        }
    }

    /// The profile of a new shopper, and the announcement of it at the time
    /// `now`. The name must be there and at most 64 bytes long, and the
    /// delivery address must be there.
    pub fn handler(ctx: &InitializeShopper, args: InitializeShopperArgs, now: i64) -> (r: Result<
        (Shopper, ShopperInitialized),
        SplurgeError,
    >)
        ensures
            r == (match ctx.refusal(args) {
                Some(e) => Err::<(Shopper, ShopperInitialized), SplurgeError>(e),
                None => Ok::<(Shopper, ShopperInitialized), SplurgeError>(
                    (
                        Shopper {
                            authority: ctx.authority,
                            bump: ctx.bump,
                            name: args.name,
                            image: args.image,
                            address: args.address,
                        },
                        ShopperInitialized {
                            shopper: ctx.shopper_key,
                            authority: ctx.authority,
                            timestamp: now,
                        },
                    ),
                ),
            }),
    {
        let InitializeShopperArgs { name, image, address } = args;
        if name.as_str().is_empty() {
            return Err(SplurgeError::ShopperNameRequired);
        }
        if name.as_str().as_bytes().len() > MAX_SHOPPER_NAME_LEN as usize {
            return Err(SplurgeError::ShopperNameTooLong);
        }
        if address.as_str().is_empty() {
            return Err(SplurgeError::ShopperAddressRequired);
        }
        let shopper = Shopper { bump: ctx.bump, authority: ctx.authority, name, image, address };
        match shopper.check_invariant() {
            Ok(_) => {},
            Err(e) => {
                return Err(e);
            },
        }
        Ok(
            (
                shopper,
                ShopperInitialized {
                    shopper: ctx.shopper_key,
                    authority: ctx.authority,
                    timestamp: now,
                },
            ),
        )
    }
}

} // verus!
