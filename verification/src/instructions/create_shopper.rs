//! Setting a shopper up, in the form that asks for a profile image.

use vstd::prelude::*;
use crate::address::Address;
use crate::constants::MAX_SHOPPER_NAME_LEN;
use crate::error::SplurgeError;
use crate::state::shopper::{byte_len, Shopper};

verus! {

/// What the shopper starts with.
#[derive(Clone, Debug, PartialEq, Eq)]
pub struct CreateShopperArgs {
    pub name: String,
    pub image: String,
    pub address: String,
}

/// The accounts of the setup.
#[derive(Clone, Copy, Debug, PartialEq, Eq, Structural)]
pub struct CreateShopper {
    /// The signer, who becomes the shopper's authority
    pub authority: Address,
    pub bump: u8,
}

impl CreateShopper {
    /// Why the shopper is refused, if it is: the first of these that holds.
    pub open spec fn refusal(&self, args: CreateShopperArgs) -> Option<SplurgeError> {
        if args.name@.len() == 0 {
            Some(SplurgeError::ShopperNameRequired)
        } else if byte_len(args.name@) > MAX_SHOPPER_NAME_LEN {
            Some(SplurgeError::ShopperNameTooLong)
        } else if args.image@.len() == 0 {
            Some(SplurgeError::ShopperImageRequired)
        } else if args.address@.len() == 0 {
            Some(SplurgeError::ShopperAddressRequired)
        } else if self.authority == Address::null() {
            Some(SplurgeError::InvalidAddress)
        } else {
            None
        }
    }

    /// The profile of a new shopper. The name must be there and at most 64
    /// bytes long, and image and delivery address must be there.
    pub fn create_shopper(ctx: &CreateShopper, args: CreateShopperArgs) -> (r: Result<
        Shopper,
        SplurgeError,
    >)
        ensures
            r == (match ctx.refusal(args) {
                Some(e) => Err::<Shopper, SplurgeError>(e),
                None => Ok::<Shopper, SplurgeError>(
                    Shopper {
                        authority: ctx.authority,
                        bump: ctx.bump,
                        name: args.name,
                        image: args.image,
                        address: args.address,
                    },
                ),
            }),
    {
        let CreateShopperArgs { name, image, address } = args;
        if name.as_str().is_empty() {
            return Err(SplurgeError::ShopperNameRequired);
        }
        if name.as_str().as_bytes().len() > MAX_SHOPPER_NAME_LEN as usize {
            return Err(SplurgeError::ShopperNameTooLong);
        }
        if image.as_str().is_empty() {
            return Err(SplurgeError::ShopperImageRequired);
        }
        if address.as_str().is_empty() {
            return Err(SplurgeError::ShopperAddressRequired);
        }
        let shopper = Shopper { bump: ctx.bump, authority: ctx.authority, name, image, address };
        match shopper.check_invariant() {
            Ok(_) => Ok(shopper),
            Err(e) => Err(e),
        }
    }
}

} // verus!
