//! Putting an item on offer.

use vstd::prelude::*;
use crate::address::Address;
use crate::constants::MAX_ITEM_NAME_LEN;
use crate::error::SplurgeError;
use crate::events::ItemListed;
use crate::state::item::Item;
use crate::state::shopper::byte_len;
use crate::state::store::Store;

verus! {

/// What the item starts with.
#[derive(Clone, Debug, PartialEq, Eq)]
pub struct ListItemArgs {
    pub price: u64,
    pub inventory_count: u32,
    pub name: String,
    pub image: String,
    pub description: String,
}

/// The accounts of the listing.
#[derive(Clone, Debug, PartialEq, Eq)]
pub struct ListItem {
    /// The signer, who must be the store's authority
    pub authority: Address,
    pub item_key: Address,
    pub bump: u8,
    pub store_key: Address,
    pub store: Store,
}

impl ListItem {
    /// Why the item is refused, if it is: the first of these that holds.
    pub open spec fn refusal(&self, args: ListItemArgs) -> Option<SplurgeError> {
        if self.store.authority != self.authority {
            Some(SplurgeError::InvalidStoreAuthority)
        } else if args.name@.len() == 0 {
            Some(SplurgeError::ItemNameRequired)
        } else if byte_len(args.name@) > MAX_ITEM_NAME_LEN {
            Some(SplurgeError::ItemNameTooLong)
        } else if self.store_key == Address::null() {
            Some(SplurgeError::InvalidAddress)
        } else {
            None
        }
    }

    /// The new item of the store, and the announcement of it at the time
    /// `now`. Only the store's authority may list an item; its name must be
    /// there and at most 32 bytes long.
    pub fn handler(ctx: &ListItem, args: ListItemArgs, now: i64) -> (r: Result<
        (Item, ItemListed),
        SplurgeError,
    >)
        ensures
            r == (match ctx.refusal(args) {
                Some(e) => Err::<(Item, ItemListed), SplurgeError>(e),
                None => Ok::<(Item, ItemListed), SplurgeError>(
                    (
                        Item {
                            store: ctx.store_key,
                            price: args.price,
                            inventory_count: args.inventory_count,
                            bump: ctx.bump,
                            name: args.name,
                            image: args.image,
                            description: args.description,
                        },
                        ItemListed { item: ctx.item_key, timestamp: now },
                    ),
                ),
            }),
    {
        let ListItemArgs { price, inventory_count, name, image, description } = args;
        if ctx.store.authority != ctx.authority {
            return Err(SplurgeError::InvalidStoreAuthority);
        }
        if name.as_str().is_empty() {
            return Err(SplurgeError::ItemNameRequired);
        }
        if name.as_str().as_bytes().len() > MAX_ITEM_NAME_LEN as usize {
            return Err(SplurgeError::ItemNameTooLong);
        }
        let item = Item {
            bump: ctx.bump,
            store: ctx.store_key,
            price,
            inventory_count,
            name,
            image,
            description,
        };
        match item.check_invariant() {
            Ok(_) => {},
            Err(e) => {
                return Err(e);
            },
        }
        Ok((item, ItemListed { item: ctx.item_key, timestamp: now }))
    }
}

} // verus!
