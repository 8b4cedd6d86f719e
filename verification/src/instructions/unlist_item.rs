//! Taking an item off offer.

use vstd::prelude::*;
use crate::address::Address;
use crate::error::SplurgeError;
use crate::state::item::Item;
use crate::state::store::Store;

verus! {

/// The accounts of the removal.
#[derive(Clone, Debug, PartialEq, Eq)]
pub struct UnlistItem {
    /// The signer, who must be the store's authority
    pub authority: Address,
    /// The item, as long as it is on offer
    pub item: Option<Item>,
    pub store_key: Address,
    pub store: Store,
}

impl UnlistItem {
    /// Why the removal is refused, if it is: the first of these that holds.
    pub open spec fn refusal(&self) -> Option<SplurgeError> {
        if self.store.authority != self.authority {
            Some(SplurgeError::InvalidStoreAuthority)
        } else if self.item is None || self.item->0.store != self.store_key {
            Some(SplurgeError::InvalidItemStore)
        } else {
            None
        }
    }

    /// Takes the item off offer. Only the authority of the item's store may
    /// do so. On failure nothing has changed.
    pub fn handler(ctx: &mut UnlistItem) -> (r: Result<(), SplurgeError>)
        ensures
            match old(ctx).refusal() {
                Some(e) => r == Err::<(), SplurgeError>(e) && *final(ctx) == *old(ctx),
                None => r is Ok && *final(ctx) == (UnlistItem { item: None, ..*old(ctx) }),
            },
    {
        if ctx.store.authority != ctx.authority {
            return Err(SplurgeError::InvalidStoreAuthority);
        }
        let listed = match &ctx.item {
            Some(item) => item.store == ctx.store_key,
            None => false,
        };
        if !listed {
            return Err(SplurgeError::InvalidItemStore);
        }
        ctx.item = None;
        Ok(())
    }
}

} // verus!
