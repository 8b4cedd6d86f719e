//! Changing the price or the inventory of an item.

use vstd::prelude::*;
use crate::address::Address;
use crate::error::SplurgeError;
use crate::state::item::Item;
use crate::state::store::Store;

verus! {

/// What to change: each part that is `None` stays as it is.
#[derive(Clone, Copy, Debug, PartialEq, Eq, Structural)]
pub struct UpdateItemArgs {
    pub price: Option<u64>,
    pub inventory_count: Option<u32>,
}

/// The accounts of the change.
#[derive(Clone, Debug, PartialEq, Eq)]
pub struct UpdateItem {
    /// The signer, who must be the store's authority
    pub authority: Address,
    pub item: Item,
    pub store_key: Address,
    pub store: Store,
}

impl UpdateItem {
    /// Why the change is refused, if it is: the first of these that holds.
    pub open spec fn refusal(&self) -> Option<SplurgeError> {
        if self.store.authority != self.authority {
            Some(SplurgeError::InvalidStoreAuthority)
        } else if self.item.store != self.store_key {
            Some(SplurgeError::InvalidItemStore)
        } else if !self.item.valid() {
            Some(SplurgeError::InvalidAddress)
        } else {
            None
        }
    }

    /// Sets the price and the inventory of the item to what `args` names.
    /// Only the authority of the item's store may do so. On failure nothing
    /// has changed.
    pub fn handler(ctx: &mut UpdateItem, args: UpdateItemArgs) -> (r: Result<(), SplurgeError>)
        ensures
            match old(ctx).refusal() {
                Some(e) => r == Err::<(), SplurgeError>(e) && *final(ctx) == *old(ctx),
                None => r is Ok && *final(ctx) == (UpdateItem {
                    item: Item {
                        price: match args.price {
                            Some(price) => price,
                            None => old(ctx).item.price,
                        },
                        inventory_count: match args.inventory_count {
                            Some(count) => count,
                            None => old(ctx).item.inventory_count,
                        },
                        ..old(ctx).item
                    },
                    ..*old(ctx)
                }),
            },
    {
        let UpdateItemArgs { price, inventory_count } = args;
        if ctx.store.authority != ctx.authority {
            return Err(SplurgeError::InvalidStoreAuthority);
        }
        if ctx.item.store != ctx.store_key {
            return Err(SplurgeError::InvalidItemStore);
        }
        match ctx.item.check_invariant() {
            Ok(_) => {},
            Err(e) => {
                return Err(e);
            },
        }
        if let Some(price) = price {
            ctx.item.price = price;
        }
        if let Some(inventory_count) = inventory_count {
            ctx.item.inventory_count = inventory_count;
        }
        Ok(())
    }
}

} // verus!
