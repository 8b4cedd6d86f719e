//! Putting an item on offer, in the form that asks for a display image.

use vstd::prelude::*;
use crate::address::Address;
use crate::constants::MAX_ITEM_NAME_LEN;
use crate::error::SplurgeError;
use crate::state::item::Item;
use crate::state::shopper::byte_len;
use crate::state::store::Store;

verus! {

/// What the item starts with.
#[derive(Clone, Debug, PartialEq, Eq)]
pub struct CreateItemArgs {
    pub price: u32,
    pub inventory_count: u32,
    pub name: String,
    pub image: String,
    pub description: String,
}

/// The accounts of the listing.
#[derive(Clone, Debug, PartialEq, Eq)]
pub struct CreateItem {
    /// The signer, who must be the store's authority
    pub authority: Address,
    pub bump: u8,
    pub store_key: Address,
    pub store: Store,
}

impl CreateItem {
    /// Checks the name of an item: it must be there and at most 32 bytes
    /// long.
    pub fn validate_name(name: &str) -> (r: Result<(), SplurgeError>)
        ensures
            r == (if name@.len() == 0 {
                Err::<(), SplurgeError>(SplurgeError::ItemNameRequired)
            } else if byte_len(name@) > MAX_ITEM_NAME_LEN {
                Err::<(), SplurgeError>(SplurgeError::ItemNameTooLong)
            } else {
                Ok::<(), SplurgeError>(())
            }),
    {
        if name.is_empty() {
            return Err(SplurgeError::ItemNameRequired);
        }
        if name.as_bytes().len() > MAX_ITEM_NAME_LEN as usize {
            return Err(SplurgeError::ItemNameTooLong);
        }
        Ok(())
    }

    /// Why the item is refused, if it is: the first of these that holds.
    pub open spec fn refusal(&self, args: CreateItemArgs) -> Option<SplurgeError> {
        if self.store.authority != self.authority {
            Some(SplurgeError::InvalidStoreAuthority)
        } else if args.image@.len() == 0 {
            Some(SplurgeError::ItemImageRequired)
        } else if self.store_key == Address::null() {
            Some(SplurgeError::InvalidAddress)
        } else {
            None
        }
    }

    /// The new item of the store. Only the store's authority may list an
    /// item, and its image must be there.
    pub fn create_item(ctx: &CreateItem, args: CreateItemArgs) -> (r: Result<Item, SplurgeError>)
        ensures
            r == (match ctx.refusal(args) {
                Some(e) => Err::<Item, SplurgeError>(e),
                None => Ok::<Item, SplurgeError>(
                    Item {
                        store: ctx.store_key,
                        price: args.price as u64,
                        inventory_count: args.inventory_count,
                        bump: ctx.bump,
                        name: args.name,
                        image: args.image,
                        description: args.description,
                    },
                ),
            }),
    {
        let CreateItemArgs { price, inventory_count, name, image, description } = args;
        if ctx.store.authority != ctx.authority {
            return Err(SplurgeError::InvalidStoreAuthority);
        }
        if image.as_str().is_empty() {
            return Err(SplurgeError::ItemImageRequired);
        }
        let item = Item {
            bump: ctx.bump,
            store: ctx.store_key,
            price: price as u64,
            inventory_count,
            name,
            image,
            description,
        };
        match item.check_invariant() {
            Ok(_) => Ok(item),
            Err(e) => Err(e),
        }
    }
}

} // verus!
