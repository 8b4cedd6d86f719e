//! Setting a store up, in the form that asks for a display image.

use vstd::prelude::*;
use crate::address::Address;
use crate::constants::MAX_STORE_NAME_LEN;
use crate::error::SplurgeError;
use crate::state::shopper::byte_len;
use crate::state::store::Store;

verus! {

/// What the store starts with.
#[derive(Clone, Debug, PartialEq, Eq)]
pub struct CreateStoreArgs {
    pub name: String,
    pub image: String,
    pub about: String,
}

/// The accounts of the setup.
#[derive(Clone, Copy, Debug, PartialEq, Eq, Structural)]
pub struct CreateStore {
    /// The signer, who becomes the store's authority
    pub authority: Address,
    pub bump: u8,
}

/// Why a store with this name and image is refused, if it is.
pub open spec fn store_texts_refusal(name: Seq<char>, image: Seq<char>) -> Option<SplurgeError> {
    if name.len() == 0 {
        Some(SplurgeError::StoreNameRequired)
    } else if byte_len(name) > MAX_STORE_NAME_LEN {
        Some(SplurgeError::StoreNameTooLong)
    } else if image.len() == 0 {
        Some(SplurgeError::StoreImageRequired)
    } else {
        None
    }
}

/// Checks the name and the image of a store: the name must be there and at
/// most 64 bytes long, and the image must be there.
pub fn check_store_texts(name: &str, image: &str) -> (r: Result<(), SplurgeError>)
    ensures
        r == (match store_texts_refusal(name@, image@) {
            Some(e) => Err::<(), SplurgeError>(e),
            None => Ok::<(), SplurgeError>(()),
        }),
{
    if name.is_empty() {
        return Err(SplurgeError::StoreNameRequired);
    }
    if name.as_bytes().len() > MAX_STORE_NAME_LEN as usize {
        return Err(SplurgeError::StoreNameTooLong);
    }
    if image.is_empty() {
        return Err(SplurgeError::StoreImageRequired);
    }
    Ok(())
}

impl CreateStore {
    /// Why the store is refused, if it is: the first of these that holds.
    pub open spec fn refusal(&self, args: CreateStoreArgs) -> Option<SplurgeError> {
        match store_texts_refusal(args.name@, args.image@) {
            Some(e) => Some(e),
            None => if self.authority == Address::null() {
                Some(SplurgeError::InvalidAddress)
            } else {
                None
            },
        }
    }

    /// The profile of a new store. The name must be there and at most 64
    /// bytes long, and the image must be there.
    pub fn handler(ctx: &CreateStore, args: CreateStoreArgs) -> (r: Result<Store, SplurgeError>)
        ensures
            r == (match ctx.refusal(args) {
                Some(e) => Err::<Store, SplurgeError>(e),
                None => Ok::<Store, SplurgeError>(
                    Store {
                        authority: ctx.authority,
                        bump: ctx.bump,
                        name: args.name,
                        image: args.image,
                        about: args.about,
                    },
                ),
            }),
    {
        let CreateStoreArgs { name, image, about } = args;
        match check_store_texts(name.as_str(), image.as_str()) {
            Ok(_) => {},
            Err(e) => {
                return Err(e);
            },
        }
        let store = Store { bump: ctx.bump, authority: ctx.authority, name, image, about };
        match store.check_invariant() {
            Ok(_) => Ok(store),
            Err(e) => Err(e),
        }
    }
}

} // verus!
