//! Setting a store up.

use vstd::prelude::*;
use crate::address::Address;
use crate::constants::MAX_STORE_NAME_LEN;
use crate::error::SplurgeError;
use crate::events::StoreInitialized;
use crate::state::shopper::byte_len;
use crate::state::store::Store;

verus! {

/// What the store starts with.
#[derive(Clone, Debug, PartialEq, Eq)]
pub struct InitializeStoreArgs {
    pub name: String,
    pub image: String,
    pub about: String,
}

/// The accounts of the setup.
#[derive(Clone, Copy, Debug, PartialEq, Eq, Structural)]
pub struct InitializeStore {
    /// The signer, who becomes the store's authority
    pub authority: Address,
    pub store_key: Address,
    pub bump: u8,
}

impl InitializeStore {
    /// Why the store is refused, if it is: the first of these that holds.
    pub open spec fn refusal(&self, args: InitializeStoreArgs) -> Option<SplurgeError> {
        if args.name@.len() == 0 {
            Some(SplurgeError::StoreNameRequired)
        } else if byte_len(args.name@) > MAX_STORE_NAME_LEN {
            Some(SplurgeError::StoreNameTooLong)
        } else if self.authority == Address::null() {
            Some(SplurgeError::InvalidAddress)
        } else {
            None
        }
    }

    /// The profile of a new store, and the announcement of it at the time
    /// `now`. The name must be there and at most 64 bytes long.
    pub fn handler(ctx: &InitializeStore, args: InitializeStoreArgs, now: i64) -> (r: Result<
        (Store, StoreInitialized),
        SplurgeError,
    >)
        ensures
            r == (match ctx.refusal(args) {
                Some(e) => Err::<(Store, StoreInitialized), SplurgeError>(e),
                None => Ok::<(Store, StoreInitialized), SplurgeError>(
                    (
                        Store {
                            authority: ctx.authority,
                            bump: ctx.bump,
                            name: args.name,
                            image: args.image,
                            about: args.about,
                        },
                        StoreInitialized {
                            store: ctx.store_key,
                            authority: ctx.authority,
                            timestamp: now,
                        },
                    ),
                ),
            }),
    {
        let InitializeStoreArgs { name, image, about } = args;
        if name.as_str().is_empty() {
            return Err(SplurgeError::StoreNameRequired);
        }
        if name.as_str().as_bytes().len() > MAX_STORE_NAME_LEN as usize {
            return Err(SplurgeError::StoreNameTooLong);
        }
        let store = Store { bump: ctx.bump, authority: ctx.authority, name, image, about };
        match store.check_invariant() {
            Ok(_) => {},
            Err(e) => {
                return Err(e);
            },
        }
        Ok(
            (
                store,
                StoreInitialized { store: ctx.store_key, authority: ctx.authority, timestamp: now },
            ),
        )
    }
}

} // verus!
